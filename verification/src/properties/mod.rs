//! What an application asks of a transport.
//!
//! The defaults are those of a reliable, ordered, congestion-controlled
//! transport.

use vstd::prelude::*;

pub mod selection;

pub use selection::SelectionProperty;
pub use selection::PROPERTY_COUNT;

verus! {

/// How much an application cares for a property.
#[derive(Debug, Copy, Clone, Eq, PartialEq, Hash, Structural)]
pub enum Preference {
    /// Select only protocols and paths that provide the property; fail
    /// otherwise.
    Require,
    /// Prefer protocols and paths that provide the property; proceed
    /// otherwise.
    Prefer,
    /// No preference.
    Ignore,
    /// Prefer protocols and paths that do not provide the property; proceed
    /// otherwise.
    Avoid,
    /// Select only protocols and paths that do not provide the property;
    /// fail otherwise.
    Prohibit,
}

/// The direction that a connection must support.
#[derive(Debug, Copy, Clone, Eq, PartialEq, Hash, Structural)]
pub enum Direction {
    /// Sending and receiving.
    Bidirectional,
    /// Sending.
    Sender,
    /// Receiving.
    Receiver,
}

impl Default for Direction {
    fn default() -> (direction: Self)
        ensures
            direction == Direction::Bidirectional,
    {
        Direction::Bidirectional
    }
}

impl Preference {
    /// The letters of the preference's name.
    pub open spec fn name_text(self) -> Seq<char> {
        match self {
            Preference::Require => "Require"@,
            Preference::Prefer => "Prefer"@,
            Preference::Ignore => "Ignore"@,
            Preference::Avoid => "Avoid"@,
            Preference::Prohibit => "Prohibit"@,
        }
    }

    /// The preference's name, as it is shown.
    pub fn name(&self) -> (name: &'static str)
        ensures
            name@ == self.name_text(),
    {
        match self {
            Preference::Require => "Require",
            Preference::Prefer => "Prefer",
            Preference::Ignore => "Ignore",
            Preference::Avoid => "Avoid",
            Preference::Prohibit => "Prohibit",
        }
    }
}

/// The preference that a property has where the application has set none.
pub open spec fn default_preference(prop: SelectionProperty) -> Preference {
    match prop {
        SelectionProperty::Reliability => Preference::Require,
        SelectionProperty::PreserveMsgBoundaries => Preference::Prefer,
        SelectionProperty::PerMsgReliability => Preference::Ignore,
        SelectionProperty::PreserveOrder => Preference::Require,
        SelectionProperty::ZeroRttMsg => Preference::Ignore,
        SelectionProperty::Multistreaming => Preference::Prefer,
        SelectionProperty::PerMsgChecksumLenSend => Preference::Require,
        SelectionProperty::PerMsgChecksumLenRecv => Preference::Require,
        SelectionProperty::CongestionControl => Preference::Require,
        SelectionProperty::Interface => Preference::Ignore,
        SelectionProperty::Pvd => Preference::Ignore,
        SelectionProperty::Multipath => Preference::Prefer,
        SelectionProperty::RetransmitNotify => Preference::Ignore,
        SelectionProperty::SoftErrorNotify => Preference::Ignore,
    }
}

/// The preference that a property has where the application has set none.
pub fn default_of(prop: SelectionProperty) -> (pref: Preference)
    ensures
        pref == default_preference(prop),
{
    match prop {
        SelectionProperty::Reliability => Preference::Require,
        SelectionProperty::PreserveMsgBoundaries => Preference::Prefer,
        SelectionProperty::PerMsgReliability => Preference::Ignore,
        SelectionProperty::PreserveOrder => Preference::Require,
        SelectionProperty::ZeroRttMsg => Preference::Ignore,
        SelectionProperty::Multistreaming => Preference::Prefer,
        SelectionProperty::PerMsgChecksumLenSend => Preference::Require,
        SelectionProperty::PerMsgChecksumLenRecv => Preference::Require,
        SelectionProperty::CongestionControl => Preference::Require,
        SelectionProperty::Interface => Preference::Ignore,
        SelectionProperty::Pvd => Preference::Ignore,
        SelectionProperty::Multipath => Preference::Prefer,
        SelectionProperty::RetransmitNotify => Preference::Ignore,
        SelectionProperty::SoftErrorNotify => Preference::Ignore,
    }
}

/// What a set of transport properties holds: a preference for every
/// property, and a direction.
pub struct PropertiesView {
    pub preferences: Map<SelectionProperty, Preference>,
    pub direction: Direction,
}

/// The properties that an application has where it has set none.
pub open spec fn default_properties() -> PropertiesView {
    PropertiesView {
        preferences: Map::total(|prop: SelectionProperty| default_preference(prop)),
        direction: Direction::Bidirectional,
    }
}

/// The collection of properties for a preconnection: a preference for every
/// selection property, and a direction.
#[derive(Debug, Clone)]
pub struct TransportProperties {
    select_props: [Preference; 14],
    direction: Direction,
}

impl View for TransportProperties {
    type V = PropertiesView;

    closed spec fn view(&self) -> PropertiesView {
        PropertiesView {
            preferences: Map::total(
                |prop: SelectionProperty| self.select_props@[prop.ordinal()],
            ),
            direction: self.direction,
        }
    }
}

impl Default for TransportProperties {
    fn default() -> (props: Self)
        ensures
            props@ == default_properties(),
    {
        let props = TransportProperties {
            select_props: [
                Preference::Require,
                Preference::Ignore,
                Preference::Prefer,
                Preference::Require,
                Preference::Ignore,
                Preference::Prefer,
                Preference::Require,
                Preference::Require,
                Preference::Require,
                Preference::Ignore,
                Preference::Ignore,
                Preference::Prefer,
                Preference::Ignore,
                Preference::Ignore,
            ],
            direction: Direction::Bidirectional,
        };
        assert(props@.preferences =~= default_properties().preferences);
        props
    }
}

impl TransportProperties {
    /// Sets the preference for a property. Nothing else changes.
    pub fn add(&mut self, prop: SelectionProperty, pref: Preference) -> (props: &mut Self)
        ensures
            props@.preferences == old(self)@.preferences.insert(prop, pref),
            props@.direction == old(self)@.direction,
            *final(self) == *final(props),
    {
        let i = prop.index();
        self.select_props[i] = pref;
        proof {
            assert forall|p: SelectionProperty|
                self@.preferences[p] == old(self)@.preferences.insert(prop, pref)[p] by {
                if p.ordinal() == prop.ordinal() {
                    crate::properties::selection::lemma_ordinal_injective(p, prop);
                }
            }
            assert(self@.preferences =~= old(self)@.preferences.insert(prop, pref));
        }
        self
    }

    /// Requires the property: `add` with `Require`.
    pub fn require(&mut self, prop: SelectionProperty) -> (props: &mut Self)
        ensures
            props@.preferences == old(self)@.preferences.insert(prop, Preference::Require),
            props@.direction == old(self)@.direction,
            *final(self) == *final(props),
    {
        self.add(prop, Preference::Require)
    }

    /// Prefers the property: `add` with `Prefer`.
    pub fn prefer(&mut self, prop: SelectionProperty) -> (props: &mut Self)
        ensures
            props@.preferences == old(self)@.preferences.insert(prop, Preference::Prefer),
            props@.direction == old(self)@.direction,
            *final(self) == *final(props),
    {
        self.add(prop, Preference::Prefer)
    }

    /// States no preference for the property: `add` with `Ignore`.
    pub fn ignore(&mut self, prop: SelectionProperty) -> (props: &mut Self)
        ensures
            props@.preferences == old(self)@.preferences.insert(prop, Preference::Ignore),
            props@.direction == old(self)@.direction,
            *final(self) == *final(props),
    {
        self.add(prop, Preference::Ignore)
    }

    /// Avoids the property: `add` with `Avoid`.
    pub fn avoid(&mut self, prop: SelectionProperty) -> (props: &mut Self)
        ensures
            props@.preferences == old(self)@.preferences.insert(prop, Preference::Avoid),
            props@.direction == old(self)@.direction,
            *final(self) == *final(props),
    {
        self.add(prop, Preference::Avoid)
    }

    /// Prohibits the property: `add` with `Prohibit`.
    pub fn prohibit(&mut self, prop: SelectionProperty) -> (props: &mut Self)
        ensures
            props@.preferences == old(self)@.preferences.insert(prop, Preference::Prohibit),
            props@.direction == old(self)@.direction,
            *final(self) == *final(props),
    {
        self.add(prop, Preference::Prohibit)
    }

    /// Gives the property its default preference again.
    pub fn default_prop(&mut self, prop: SelectionProperty) -> (props: &mut Self)
        ensures
            props@.preferences == old(self)@.preferences.insert(prop, default_preference(prop)),
            props@.direction == old(self)@.direction,
            *final(self) == *final(props),
    {
        let pref = default_of(prop);
        self.add(prop, pref)
    }

    /// Sets the direction in which the connection is used. Nothing else
    /// changes.
    pub fn set_direction(&mut self, dir: Direction) -> (props: &mut Self)
        ensures
            props@.preferences == old(self)@.preferences,
            props@.direction == dir,
            *final(self) == *final(props),
    {
        self.direction = dir;
        self
    }

    /// The preference for a property: the last one set, or the default.
    pub fn get(&self, prop: SelectionProperty) -> (pref: Preference)
        ensures
            pref == self@.preferences[prop],
    {
        self.select_props[prop.index()]
    }

    /// The direction: the last one set, or `Bidirectional`.
    pub fn direction(&self) -> (dir: Direction)
        ensures
            dir == self@.direction,
    {
        self.direction
    }
}

} // verus!
