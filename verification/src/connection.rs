//! A connection: a transport, the bytes received on it that no item has
//! taken yet, and the framer that turns items into bytes and bytes into
//! items.
//!
//! The socket is the caller's. The caller writes what [`Connection::send`]
//! hands out, and hands [`Connection::receive`] what each read returned,
//! until an item is complete.

use bytes::BytesMut;
use crate::buffer::contents;
use crate::codec::encode::Encode;
use crate::codec::error::DeframeError;
use crate::codec::frame::Framer;
use crate::error::box_error;
use crate::resolve::IoError;
use crate::resolve::SocketAddress;
use crate::transport::Connecting;
use crate::transport::DeframeCause;
use crate::transport::Protocol;
use vstd::prelude::*;

verus! {

/// How many bytes a connection asks of one read.
pub const BUFFER_SIZE: usize = 1024;

/// The error of a connection whose framer is `F`.
pub type Failure<F> = crate::error::Error<crate::transport::Error<<F as Framer>::Error>>;

/// What a connection does to its transport when it is closed.
#[derive(Debug, Clone, Copy, PartialEq, Eq, Structural)]
pub enum Shutdown {
    /// Both directions of the stream are shut down.
    Both,
    /// Nothing: datagrams have nothing to shut down.
    Nothing,
}

/// A connection that is open.
#[derive(Debug)]
pub struct Connection<F: Framer> {
    protocol: Protocol,
    buffer: BytesMut,
    framer: F,
    local: SocketAddress,
    remote: SocketAddress,
}

/// The error of a send that failed in framing.
pub open spec fn frame_failure<F: Framer>(e: F::Error) -> Failure<F> {
    crate::error::Error::Send {
        source: Box::new(crate::transport::Error::Frame { source: Box::new(e) }),
    }
}

/// The error of a send that failed in writing.
pub open spec fn send_failure<F: Framer>(e: IoError) -> Failure<F> {
    crate::error::Error::Send { source: Box::new(crate::transport::Error::Send { source: e }) }
}

/// The error of a receive that failed in reading.
pub open spec fn read_failure<F: Framer>(e: IoError) -> Failure<F> {
    crate::error::Error::Receive {
        source: Box::new(crate::transport::Error::Receive { source: e }),
    }
}

/// The error of a receive that failed in deframing.
pub open spec fn deframe_failure<F: Framer>(cause: DeframeCause<F::Error>) -> Failure<F> {
    crate::error::Error::Receive {
        source: Box::new(crate::transport::Error::Deframe { source: Box::new(cause) }),
    }
}

/// The error of a close that failed.
pub open spec fn close_failure<F: Framer>(e: IoError) -> Failure<F> {
    crate::error::Error::Connection {
        source: Box::new(crate::transport::Error::Close { source: e }),
    }
}

impl<F: Framer> Connection<F> {
    /// The connection's framer.
    pub closed spec fn framer(&self) -> F {
        self.framer
    }

    /// The bytes received that no item has taken yet.
    pub closed spec fn buffered(&self) -> Seq<u8> {
        contents(&self.buffer)
    }

    /// The protocol of the connection's transport.
    pub closed spec fn protocol(&self) -> Protocol {
        self.protocol
    }

    /// The address on this side.
    pub closed spec fn local(&self) -> SocketAddress {
        self.local
    }

    /// The address of the peer.
    pub closed spec fn remote(&self) -> SocketAddress {
        self.remote
    }

    /// Whether two connections differ in their framer at most.
    pub open spec fn same_but_framer(&self, other: &Self) -> bool {
        &&& self.buffered() == other.buffered()
        &&& self.protocol() == other.protocol()
        &&& self.local() == other.local()
        &&& self.remote() == other.remote()
    }

    /// Whether two connections differ in their framer and their buffered
    /// bytes at most.
    pub open spec fn same_transport(&self, other: &Self) -> bool {
        &&& self.protocol() == other.protocol()
        &&& self.local() == other.local()
        &&& self.remote() == other.remote()
    }

    /// The connection over a transport that has just been opened, with the
    /// given framer and nothing received.
    pub fn from_existing(transport: Connecting, framer: F) -> (conn: Self)
        ensures
            conn.framer() == framer,
            conn.buffered() == Seq::<u8>::empty(),
            conn.protocol() == transport.protocol,
            conn.local() == transport.local,
            conn.remote() == transport.remote,
    {
        Connection {
            protocol: transport.protocol,
            buffer: BytesMut::new(),
            framer,
            local: transport.local,
            remote: transport.remote,
        }
    }

    /// Frames an item for sending: the bytes that are to be written to the
    /// transport, all of them and in this order.
    ///
    /// The item is framed into a buffer of its own, with the room that its
    /// size hint asks for. Where the framer fails, the result is `Send` with
    /// `Frame` and the framer's error. The bytes received stay as they are.
    pub fn send(&mut self, data: F::Input) -> (r: Result<BytesMut, Failure<F>>)
        ensures
            final(self).same_but_framer(old(self)),
            exists|framed: Result<(), F::Error>, written: Seq<u8>|
                {
                    &&& #[trigger] old(self).framer().frames(
                        data,
                        Seq::empty(),
                        framed,
                        final(self).framer(),
                        written,
                    )
                    &&& match framed {
                        Ok(_) => r matches Ok(bytes) && contents(&bytes) == written,
                        Err(e) => r matches Err(failure) && failure == frame_failure::<F>(e),
                    }
                },
    {
        let hint = data.size_hint();
        let room = match hint.1 {
            Some(upper) => upper,
            None => hint.0,
        };
        let mut bytes = if room <= isize::MAX as usize {
            BytesMut::with_capacity(room)
        } else {
            BytesMut::new()
        };
        let framed = self.framer.frame(data, &mut bytes);
        assert(old(self).framer().frames(
            data,
            Seq::empty(),
            framed,
            self.framer(),
            contents(&bytes),
        ));
        match framed {
            Ok(_) => Ok(bytes),
            Err(e) => Err(
                crate::error::Error::Send {
                    source: box_error(crate::transport::Error::Frame { source: box_error(e) }),
                },
            ),
        }
    }

    /// The error of a send whose bytes could not be written: `Send` with
    /// `Send` and the failure.
    pub fn send_failed(e: IoError) -> (failure: Failure<F>)
        ensures
            failure == send_failure::<F>(e),
    {
        crate::error::Error::Send {
            source: box_error(crate::transport::Error::Send { source: e }),
        }
    }

    /// Takes what a read on the transport returned, and says what the
    /// receive has come to: an item, or `None` where another read is
    /// needed, or an error.
    ///
    /// A read that failed fails the receive, with `Receive` and `Receive`.
    /// Else the bytes read join those received before. A read of no bytes
    /// with nothing received before is the end of the stream: the receive
    /// fails with `Receive`, `Deframe` and `UnexpectedEof`. Else the framer
    /// deframes. Where it returns an item, the framer is cleared, and the
    /// bytes that the item did not take stay for the next receive. Where it
    /// asks for more, so does the receive. Where it fails, the framer is
    /// cleared, and the receive fails with `Receive`, `Deframe` and the
    /// framer's error.
    pub fn receive(&mut self, read: Result<Vec<u8>, IoError>) -> (r: Result<
        Option<F::Output>,
        Failure<F>,
    >)
        ensures
            final(self).same_transport(old(self)),
            match read {
                Err(e) => {
                    &&& r matches Err(failure) && failure == read_failure::<F>(e)
                    &&& final(self).framer() == old(self).framer()
                    &&& final(self).buffered() == old(self).buffered()
                },
                Ok(bytes) => if bytes@.len() == 0 && old(self).buffered().len() == 0 {
                    &&& r matches Err(failure) && failure == deframe_failure::<F>(
                        DeframeCause::UnexpectedEof,
                    )
                    &&& final(self).framer() == old(self).framer()
                    &&& final(self).buffered() == old(self).buffered()
                } else {
                    exists|deframed: Result<F::Output, DeframeError<F::Error>>, parsed: F|
                        {
                            &&& #[trigger] old(self).framer().deframes(
                                old(self).buffered() + bytes@,
                                deframed,
                                parsed,
                                final(self).buffered(),
                            )
                            &&& match deframed {
                                Ok(item) => {
                                    &&& r matches Ok(Some(received)) && received == item
                                    &&& parsed.clears(final(self).framer())
                                },
                                Err(DeframeError::Incomplete) => {
                                    &&& r matches Ok(None)
                                    &&& final(self).framer() == parsed
                                },
                                Err(DeframeError::Failed(e)) => {
                                    &&& r matches Err(failure) && failure == deframe_failure::<F>(
                                        DeframeCause::Framer(e),
                                    )
                                    &&& parsed.clears(final(self).framer())
                                },
                            }
                        }
                },
            },
    {
        let bytes = match read {
            Ok(bytes) => bytes,
            Err(e) => {
                return Err(
                    crate::error::Error::Receive {
                        source: box_error(crate::transport::Error::Receive { source: e }),
                    },
                );
            },
        };
        if bytes.len() == 0 && self.buffer.is_empty() {
            return Err(
                crate::error::Error::Receive {
                    source: box_error(
                        crate::transport::Error::Deframe {
                            source: box_error(DeframeCause::UnexpectedEof),
                        },
                    ),
                },
            );
        }
        self.buffer.extend_from_slice(bytes.as_slice());
        let deframed = self.framer.deframe(&mut self.buffer);
        let ghost parsed = self.framer;
        let ghost joined = old(self).buffered() + bytes@;
        let ghost left = self.buffered();
        match deframed {
            Ok(item) => {
                assert(old(self).framer().deframes(joined, Ok(item), parsed, left));
                self.framer.clear();
                assert(self.buffered() == left);
                Ok(Some(item))
            },
            Err(DeframeError::Incomplete) => {
                assert(old(self).framer().deframes(
                    joined,
                    Err(DeframeError::Incomplete),
                    parsed,
                    left,
                ));
                Ok(None)
            },
            Err(DeframeError::Failed(e)) => {
                assert(old(self).framer().deframes(
                    joined,
                    Err(DeframeError::Failed(e)),
                    parsed,
                    left,
                ));
                self.framer.clear();
                assert(self.buffered() == left);
                Err(
                    crate::error::Error::Receive {
                        source: box_error(
                            crate::transport::Error::Deframe {
                                source: box_error(DeframeCause::Framer(e)),
                            },
                        ),
                    },
                )
            },
        }
    }

    /// Closes the connection. The result says what is to be done to the
    /// transport: a stream is shut down in both directions; datagrams need
    /// nothing.
    pub fn close(self) -> (shutdown: Shutdown)
        ensures
            shutdown == match self.protocol() {
                Protocol::Tcp => Shutdown::Both,
                Protocol::Udp => Shutdown::Nothing,
            },
    {
        match self.protocol {
            Protocol::Tcp => Shutdown::Both,
            Protocol::Udp => Shutdown::Nothing,
        }
    }

    /// The result of a close, from what the shutdown of the transport
    /// returned: a failure is `Connection` with `Close`.
    pub fn closed(outcome: Result<(), IoError>) -> (r: Result<(), Failure<F>>)
        ensures
            r == match outcome {
                Ok(_) => Ok::<(), Failure<F>>(()),
                Err(e) => Err::<(), Failure<F>>(close_failure::<F>(e)),
            },
    {
        match outcome {
            Ok(_) => Ok(()),
            Err(e) => Err(
                crate::error::Error::Connection {
                    source: box_error(crate::transport::Error::Close { source: e }),
                },
            ),
        }
    }

    /// Gives the connection up, without a word to the peer: the transport
    /// is to be dropped.
    pub fn abort(self) {
    }

    /// The address of the peer.
    pub fn remote_endpoint(&self) -> (addr: SocketAddress)
        ensures
            addr == self.remote(),
    {
        self.remote
    }

    /// The address on this side.
    pub fn local_endpoint(&self) -> (addr: SocketAddress)
        ensures
            addr == self.local(),
    {
        self.local
    }

    /// The protocol of the connection's transport.
    pub fn transport_protocol(&self) -> (protocol: Protocol)
        ensures
            protocol == self.protocol(),
    {
        self.protocol
    }

    /// How many bytes are received that no item has taken yet.
    pub fn buffered_len(&self) -> (n: usize)
        ensures
            n == self.buffered().len(),
    {
        self.buffer.len()
    }
}

} // verus!
