//! What holds of the two decoders however the bytes come in: a head that is
//! read from bytes in one piece is read in the same way from those bytes in
//! pieces, and what follows a message in the buffer is not touched.

use crate::codec::decode::Decode;
use crate::codec::error::DecodeError;
use crate::http::client;
use crate::http::line::Head;
use crate::http::line::Step;
use crate::http::message::Response;
use crate::http::scan::crlf;
use crate::http::scan::lemma_position_in_prefix;
use crate::http::scan::lemma_position_not_in_prefix;
use crate::http::scan::lemma_position_some;
use crate::http::scan::lemma_position_stays;
use crate::http::scan::position;
use crate::http::server;
use crate::http::Error;
use vstd::prelude::*;

verus! {

/// A head that is read from bytes that came in two pieces is the head that
/// is read from the first piece and, where that piece does not hold all of
/// it, resumed with the second: the decoder never fails on the first piece,
/// and what it hands back for want of bytes leads to the same head and the
/// same rest once the second piece is there.
pub proof fn lemma_response_head_resumes<T, B>(a: Seq<u8>, b: Seq<u8>, state: client::DecodeStateView<T>)
    requires
        client::head::<T, B>(a + b, state) is Body,
    ensures
        match client::head::<T, B>(a, state) {
            Head::Body { state: read, rest } => client::head::<T, B>(a + b, state) == (Head::<
                client::DecodeStateView<T>,
                B,
            >::Body { state: read, rest: rest + b }),
            Head::Incomplete { state: kept, rest } => client::head::<T, B>(rest + b, kept) == client::head::<T, B>(
                a + b,
                state,
            ),
            Head::Failed { .. } => false,
        },
    decreases a.len(),
{
    if state.state is Body {
    } else {
        let whole = a + b;
        lemma_position_some(whole, crlf());
        let i = position(whole, crlf())->Some_0;
        assert(crlf().len() == 2);
        if i + 2 <= a.len() {
            lemma_position_in_prefix(a, b, crlf());
            let line = whole.subrange(0, i);
            assert(a.subrange(0, i) =~= line);
            let rest_a = a.subrange(i + 2, a.len() as int);
            assert(whole.subrange(i + 2, whole.len() as int) =~= rest_a + b);
            let step = if state.state is Status {
                client::status_step::<T, B>(line, state)
            } else {
                client::header_step::<T, B>(line, state)
            };
            match step {
                Step::Next(next) => {
                    lemma_response_head_resumes::<T, B>(rest_a, b, next);
                },
                Step::Incomplete(_) => {},
                Step::Failed(_) => {},
            }
        } else {
            lemma_position_not_in_prefix(a, b, crlf());
        }
    }
}

/// How far a decoder comes that is in `state`, has `left` in its buffer,
/// and is called once for each of the pieces as they come in, each piece
/// joined to what the call before left. The decoder stops where a call
/// reaches the body or fails; the pieces that have not come in by then go
/// behind what it leaves.
pub open spec fn response_head_in_pieces<T, B>(
    pieces: Seq<Seq<u8>>,
    state: client::DecodeStateView<T>,
    left: Seq<u8>,
) -> Head<client::DecodeStateView<T>, B>
    decreases pieces.len(),
{
    if pieces.len() == 0 {
        Head::Incomplete { state, rest: left }
    } else {
        let later = pieces.drop_first().flatten();
        match client::head::<T, B>(left + pieces.first(), state) {
            Head::Body { state: read, rest } => Head::Body { state: read, rest: rest + later },
            Head::Incomplete { state: kept, rest } => response_head_in_pieces(
                pieces.drop_first(),
                kept,
                rest,
            ),
            Head::Failed { error, rest } => Head::Failed { error, rest: rest + later },
        }
    }
}

/// A head that is read from bytes in one piece is read in the same way from
/// those bytes in whatever pieces they come: the decoder asks for more until
/// the piece is there that completes the head, never fails before, and then
/// has the same head and leaves the same rest.
pub proof fn lemma_response_head_in_pieces<T, B>(
    pieces: Seq<Seq<u8>>,
    state: client::DecodeStateView<T>,
    left: Seq<u8>,
)
    requires
        pieces.len() > 0,
        client::head::<T, B>(left + pieces.flatten(), state) is Body,
    ensures
        response_head_in_pieces::<T, B>(pieces, state, left) == client::head::<T, B>(
            left + pieces.flatten(),
            state,
        ),
    decreases pieces.len(),
{
    let first = left + pieces.first();
    let later = pieces.drop_first().flatten();
    assert(left + pieces.flatten() =~= first + later);
    lemma_response_head_resumes::<T, B>(first, later, state);
    match client::head::<T, B>(first, state) {
        Head::Body { .. } => {},
        Head::Incomplete { state: kept, rest } => {
            if pieces.len() == 1 {
                assert(later =~= Seq::<u8>::empty());
                assert(first + later =~= first);
            } else {
                lemma_response_head_in_pieces::<T, B>(pieces.drop_first(), kept, rest);
            }
        },
        Head::Failed { .. } => {},
    }
}

/// A head that is read from some bytes is read in the same way whatever
/// follows those bytes, and what follows stays behind the rest: the bytes of
/// the next response are not touched.
pub proof fn lemma_response_head_leaves_what_follows<T, B>(
    a: Seq<u8>,
    b: Seq<u8>,
    state: client::DecodeStateView<T>,
)
    requires
        client::head::<T, B>(a, state) is Body,
    ensures
        client::head::<T, B>(a + b, state) == (Head::<client::DecodeStateView<T>, B>::Body {
            state: client::head::<T, B>(a, state)->Body_state,
            rest: client::head::<T, B>(a, state)->Body_rest + b,
        }),
    decreases a.len(),
{
    if state.state is Body {
    } else {
        lemma_position_some(a, crlf());
        lemma_position_stays(a, b, crlf());
        let i = position(a, crlf())->Some_0;
        assert(crlf().len() == 2);
        let whole = a + b;
        let line = a.subrange(0, i);
        assert(whole.subrange(0, i) =~= line);
        let rest_a = a.subrange(i + 2, a.len() as int);
        assert(whole.subrange(i + 2, whole.len() as int) =~= rest_a + b);
        let step = if state.state is Status {
            client::status_step::<T, B>(line, state)
        } else {
            client::header_step::<T, B>(line, state)
        };
        match step {
            Step::Next(next) => {
                lemma_response_head_leaves_what_follows::<T, B>(rest_a, b, next);
            },
            Step::Incomplete(_) => {},
            Step::Failed(_) => {},
        }
    }
}

/// A response without a body is decoded in the same way whatever follows its
/// bytes, and what follows stays in the buffer.
pub proof fn lemma_response_leaves_what_follows(
    a: Seq<u8>,
    b: Seq<u8>,
    state: client::DecodeStateView<()>,
    response: Response<()>,
    rest: Seq<u8>,
)
    requires
        client::response_decodes::<()>(a, state, Ok(response), rest),
    ensures
        client::response_decodes::<()>(a + b, state, Ok(response), rest + b),
{
    lemma_response_head_leaves_what_follows::<(), core::convert::Infallible>(a, b, state);
}

/// A response that is decoded from bytes that came in two pieces, the first
/// of which does not hold all of the head: on the first piece the decoder
/// asks for more, and from the state and the bytes that it leaves, with the
/// second piece behind them, it decodes the same response and leaves the
/// same rest.
pub proof fn lemma_response_resumes<T: Decode>(
    a: Seq<u8>,
    b: Seq<u8>,
    state: client::DecodeStateView<T::State>,
    response: Response<T>,
    rest: Seq<u8>,
    first: Result<Response<T>, DecodeError<Error<T::Error>, client::DecodeState<T::State>>>,
    left: Seq<u8>,
)
    requires
        client::response_decodes::<T>(a + b, state, Ok(response), rest),
        client::response_decodes::<T>(a, state, first, left),
        !(client::head::<T::State, T::Error>(a, state) is Body),
    ensures
        first matches Err(DecodeError::Incomplete(kept)) && client::response_decodes::<T>(
            left + b,
            kept@,
            Ok(response),
            rest,
        ),
{
    lemma_response_head_resumes::<T::State, T::Error>(a, b, state);
}

/// A response without a body that is decoded from bytes that came in two
/// pieces, split at whatever byte: on the first piece the decoder never
/// fails. Either it asks for more, and from the state and the bytes that it
/// leaves, with the second piece behind them, it decodes the same response
/// and leaves the same rest; or the first piece holds all of the response,
/// and the decoder returns it and leaves what the second piece goes behind.
pub proof fn lemma_response_in_two_pieces(
    a: Seq<u8>,
    b: Seq<u8>,
    state: client::DecodeStateView<()>,
    response: Response<()>,
    rest: Seq<u8>,
    first: Result<Response<()>, DecodeError<Error<core::convert::Infallible>, client::DecodeState<()>>>,
    left: Seq<u8>,
)
    requires
        client::response_decodes::<()>(a + b, state, Ok(response), rest),
        client::response_decodes::<()>(a, state, first, left),
    ensures
        match first {
            Ok(early) => early.head() == response.head() && left + b == rest,
            Err(DecodeError::Incomplete(kept)) => client::response_decodes::<()>(
                left + b,
                kept@,
                Ok(response),
                rest,
            ),
            Err(DecodeError::Failed(_)) => false,
        },
{
    lemma_response_head_resumes::<(), core::convert::Infallible>(a, b, state);
}

/// A head that is read from bytes that came in two pieces is the head that
/// is read from the first piece and, where that piece does not hold all of
/// it, resumed with the second: the decoder never fails on the first piece,
/// and what it hands back for want of bytes leads to the same head and the
/// same rest once the second piece is there.
pub proof fn lemma_request_head_resumes<T, B>(a: Seq<u8>, b: Seq<u8>, state: server::DecodeStateView<T>)
    requires
        server::head::<T, B>(a + b, state) is Body,
    ensures
        match server::head::<T, B>(a, state) {
            Head::Body { state: read, rest } => server::head::<T, B>(a + b, state) == (Head::<
                server::DecodeStateView<T>,
                B,
            >::Body { state: read, rest: rest + b }),
            Head::Incomplete { state: kept, rest } => server::head::<T, B>(rest + b, kept) == server::head::<T, B>(
                a + b,
                state,
            ),
            Head::Failed { .. } => false,
        },
    decreases a.len(),
{
    if state.state is Body {
    } else {
        let whole = a + b;
        lemma_position_some(whole, crlf());
        let i = position(whole, crlf())->Some_0;
        assert(crlf().len() == 2);
        if i + 2 <= a.len() {
            lemma_position_in_prefix(a, b, crlf());
            let line = whole.subrange(0, i);
            assert(a.subrange(0, i) =~= line);
            let rest_a = a.subrange(i + 2, a.len() as int);
            assert(whole.subrange(i + 2, whole.len() as int) =~= rest_a + b);
            let step = if state.state is Status {
                server::request_step::<T, B>(line, state)
            } else {
                server::header_step::<T, B>(line, state)
            };
            match step {
                Step::Next(next) => {
                    lemma_request_head_resumes::<T, B>(rest_a, b, next);
                },
                Step::Incomplete(_) => {},
                Step::Failed(_) => {},
            }
        } else {
            lemma_position_not_in_prefix(a, b, crlf());
        }
    }
}

/// A head that is read from some bytes is read in the same way whatever
/// follows those bytes, and what follows stays behind the rest: the bytes of
/// the next request are not touched.
pub proof fn lemma_request_head_leaves_what_follows<T, B>(
    a: Seq<u8>,
    b: Seq<u8>,
    state: server::DecodeStateView<T>,
)
    requires
        server::head::<T, B>(a, state) is Body,
    ensures
        server::head::<T, B>(a + b, state) == (Head::<server::DecodeStateView<T>, B>::Body {
            state: server::head::<T, B>(a, state)->Body_state,
            rest: server::head::<T, B>(a, state)->Body_rest + b,
        }),
    decreases a.len(),
{
    if state.state is Body {
    } else {
        lemma_position_some(a, crlf());
        lemma_position_stays(a, b, crlf());
        let i = position(a, crlf())->Some_0;
        assert(crlf().len() == 2);
        let whole = a + b;
        let line = a.subrange(0, i);
        assert(whole.subrange(0, i) =~= line);
        let rest_a = a.subrange(i + 2, a.len() as int);
        assert(whole.subrange(i + 2, whole.len() as int) =~= rest_a + b);
        let step = if state.state is Status {
            server::request_step::<T, B>(line, state)
        } else {
            server::header_step::<T, B>(line, state)
        };
        match step {
            Step::Next(next) => {
                lemma_request_head_leaves_what_follows::<T, B>(rest_a, b, next);
            },
            Step::Incomplete(_) => {},
            Step::Failed(_) => {},
        }
    }
}

/// What a decoder leaves of the bytes of a response is what stood last in them:
/// it only takes bytes from the front.
pub proof fn lemma_response_head_takes_from_the_front<T, B>(
    data: Seq<u8>,
    state: client::DecodeStateView<T>,
)
    ensures
        match client::head::<T, B>(data, state) {
            Head::Body { rest, .. } => rest.is_suffix_of(data),
            Head::Incomplete { rest, .. } => rest.is_suffix_of(data),
            Head::Failed { rest, .. } => rest.is_suffix_of(data),
        },
    decreases data.len(),
{
    assert(data.subrange(0, data.len() as int) =~= data);
    if !(state.state is Body) && position(data, crlf()) is Some {
        lemma_position_some(data, crlf());
        let i = position(data, crlf())->Some_0;
        assert(crlf().len() == 2);
        let line = data.subrange(0, i);
        let rest = data.subrange(i + 2, data.len() as int);
        let step = if state.state is Status {
            client::status_step::<T, B>(line, state)
        } else {
            client::header_step::<T, B>(line, state)
        };
        match step {
            Step::Next(next) => {
                lemma_response_head_takes_from_the_front::<T, B>(rest, next);
                let left = match client::head::<T, B>(rest, next) {
                    Head::Body { rest, .. } => rest,
                    Head::Incomplete { rest, .. } => rest,
                    Head::Failed { rest, .. } => rest,
                };
                assert(left =~= data.subrange(data.len() - left.len(), data.len() as int)) by {
                    assert(left =~= rest.subrange(rest.len() - left.len(), rest.len() as int));
                }
            },
            Step::Incomplete(_) => {},
            Step::Failed(_) => {},
        }
    }
}

/// What a decoder leaves of the bytes of a request is what stood last in them:
/// it only takes bytes from the front.
pub proof fn lemma_request_head_takes_from_the_front<T, B>(
    data: Seq<u8>,
    state: server::DecodeStateView<T>,
)
    ensures
        match server::head::<T, B>(data, state) {
            Head::Body { rest, .. } => rest.is_suffix_of(data),
            Head::Incomplete { rest, .. } => rest.is_suffix_of(data),
            Head::Failed { rest, .. } => rest.is_suffix_of(data),
        },
    decreases data.len(),
{
    assert(data.subrange(0, data.len() as int) =~= data);
    if !(state.state is Body) && position(data, crlf()) is Some {
        lemma_position_some(data, crlf());
        let i = position(data, crlf())->Some_0;
        assert(crlf().len() == 2);
        let line = data.subrange(0, i);
        let rest = data.subrange(i + 2, data.len() as int);
        let step = if state.state is Status {
            server::request_step::<T, B>(line, state)
        } else {
            server::header_step::<T, B>(line, state)
        };
        match step {
            Step::Next(next) => {
                lemma_request_head_takes_from_the_front::<T, B>(rest, next);
                let left = match server::head::<T, B>(rest, next) {
                    Head::Body { rest, .. } => rest,
                    Head::Incomplete { rest, .. } => rest,
                    Head::Failed { rest, .. } => rest,
                };
                assert(left =~= data.subrange(data.len() - left.len(), data.len() as int)) by {
                    assert(left =~= rest.subrange(rest.len() - left.len(), rest.len() as int));
                }
            },
            Step::Incomplete(_) => {},
            Step::Failed(_) => {},
        }
    }
}

} // verus!
