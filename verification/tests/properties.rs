use taps::properties::default_of;
use taps::properties::Direction;
use taps::properties::Preference;
use taps::properties::SelectionProperty;
use taps::properties::TransportProperties;

fn all_properties() -> Vec<SelectionProperty> {
    vec![
        SelectionProperty::Reliability,
        SelectionProperty::PerMsgReliability,
        SelectionProperty::PreserveMsgBoundaries,
        SelectionProperty::PreserveOrder,
        SelectionProperty::ZeroRttMsg,
        SelectionProperty::Multistreaming,
        SelectionProperty::PerMsgChecksumLenSend,
        SelectionProperty::PerMsgChecksumLenRecv,
        SelectionProperty::CongestionControl,
        SelectionProperty::Interface,
        SelectionProperty::Pvd,
        SelectionProperty::Multipath,
        SelectionProperty::RetransmitNotify,
        SelectionProperty::SoftErrorNotify,
    ]
}

#[test]
fn defaults_are_those_of_the_table() {
    let props = TransportProperties::default();
    let expected = vec![
        (SelectionProperty::Reliability, Preference::Require),
        (SelectionProperty::PreserveMsgBoundaries, Preference::Prefer),
        (SelectionProperty::PerMsgReliability, Preference::Ignore),
        (SelectionProperty::PreserveOrder, Preference::Require),
        (SelectionProperty::ZeroRttMsg, Preference::Ignore),
        (SelectionProperty::Multistreaming, Preference::Prefer),
        (SelectionProperty::PerMsgChecksumLenSend, Preference::Require),
        (SelectionProperty::PerMsgChecksumLenRecv, Preference::Require),
        (SelectionProperty::CongestionControl, Preference::Require),
        (SelectionProperty::Interface, Preference::Ignore),
        (SelectionProperty::Pvd, Preference::Ignore),
        (SelectionProperty::Multipath, Preference::Prefer),
        (SelectionProperty::RetransmitNotify, Preference::Ignore),
        (SelectionProperty::SoftErrorNotify, Preference::Ignore),
    ];
    assert_eq!(expected.len(), 14);
    for (prop, pref) in expected {
        assert_eq!(props.get(prop), pref, "{:?}", prop);
        assert_eq!(default_of(prop), pref, "{:?}", prop);
    }
    assert_eq!(props.direction(), Direction::Bidirectional);
    assert_eq!(Direction::default(), Direction::Bidirectional);
}

#[test]
fn every_property_has_a_place_of_its_own() {
    let props = all_properties();
    for (i, prop) in props.iter().enumerate() {
        assert_eq!(prop.index(), i);
    }
}

#[test]
fn add_changes_one_property_only() {
    for changed in all_properties() {
        let mut props = TransportProperties::default();
        props.add(changed, Preference::Avoid);
        for prop in all_properties() {
            if prop == changed {
                assert_eq!(props.get(prop), Preference::Avoid);
            } else {
                assert_eq!(props.get(prop), default_of(prop));
            }
        }
        assert_eq!(props.direction(), Direction::Bidirectional);
    }
}

#[test]
fn convenience_setters_set_their_preference() {
    let mut props = TransportProperties::default();
    props.require(SelectionProperty::Multipath);
    assert_eq!(props.get(SelectionProperty::Multipath), Preference::Require);
    props.prefer(SelectionProperty::Multipath);
    assert_eq!(props.get(SelectionProperty::Multipath), Preference::Prefer);
    props.ignore(SelectionProperty::Multipath);
    assert_eq!(props.get(SelectionProperty::Multipath), Preference::Ignore);
    props.avoid(SelectionProperty::Multipath);
    assert_eq!(props.get(SelectionProperty::Multipath), Preference::Avoid);
    props.prohibit(SelectionProperty::Multipath);
    assert_eq!(props.get(SelectionProperty::Multipath), Preference::Prohibit);
    props.default_prop(SelectionProperty::Multipath);
    assert_eq!(props.get(SelectionProperty::Multipath), Preference::Prefer);
}

#[test]
fn setters_chain() {
    let mut props = TransportProperties::default();
    props
        .prohibit(SelectionProperty::Reliability)
        .avoid(SelectionProperty::PreserveOrder)
        .set_direction(Direction::Receiver);
    assert_eq!(props.get(SelectionProperty::Reliability), Preference::Prohibit);
    assert_eq!(props.get(SelectionProperty::PreserveOrder), Preference::Avoid);
    assert_eq!(props.get(SelectionProperty::CongestionControl), Preference::Require);
    assert_eq!(props.direction(), Direction::Receiver);
}

#[test]
fn the_last_value_set_is_the_one_read() {
    let mut props = TransportProperties::default();
    props.add(SelectionProperty::Pvd, Preference::Require);
    props.add(SelectionProperty::Pvd, Preference::Prohibit);
    assert_eq!(props.get(SelectionProperty::Pvd), Preference::Prohibit);
    props.set_direction(Direction::Sender);
    props.set_direction(Direction::Bidirectional);
    assert_eq!(props.direction(), Direction::Bidirectional);
}

#[test]
fn a_clone_keeps_what_was_set() {
    let mut props = TransportProperties::default();
    props.avoid(SelectionProperty::Reliability);
    let copy = props.clone();
    props.require(SelectionProperty::Reliability);
    assert_eq!(copy.get(SelectionProperty::Reliability), Preference::Avoid);
    assert_eq!(props.get(SelectionProperty::Reliability), Preference::Require);
}

#[test]
fn preferences_are_shown_by_name() {
    assert_eq!(Preference::Require.name(), "Require");
    assert_eq!(Preference::Prefer.name(), "Prefer");
    assert_eq!(Preference::Ignore.name(), "Ignore");
    assert_eq!(Preference::Avoid.name(), "Avoid");
    assert_eq!(Preference::Prohibit.name(), "Prohibit");
}
