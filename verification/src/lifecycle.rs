//! What holds of a handle over its whole life.
//!
//! A handle of any kind holds its native object from the moment the engine
//! has made it until the first close. A close asks the engine to release
//! what the handle holds, if it holds anything, and leaves it holding
//! nothing; the end of the handle's scope is one more close.

use crate::connection::Connection;
use crate::cursor::Cursor;
use crate::engine::answer;
use crate::error::{is_status, outcome, Error};
use crate::session::Session;
use vstd::prelude::*;

verus! {

/// Closing a handle twice in a row succeeds both times, as long as the
/// engine, where the first close has to ask it, answers with success. The
/// second close finds nothing held: it asks nothing, and so succeeds
/// whatever the engine would have answered.
pub proof fn lemma_close_twice(
    native: Option<usize>,
    first: &str,
    second: &str,
    status: i32,
    later: i32,
)
    requires
        native is Some ==> status == 0,
    ensures
        outcome(answer(Connection::close_call(native, first), status)) == Ok::<(), Error>(()),
        outcome(answer(Connection::close_call(None, second), later)) == Ok::<(), Error>(()),
        outcome(answer(Session::close_call(native, first), status)) == Ok::<(), Error>(()),
        outcome(answer(Session::close_call(None, second), later)) == Ok::<(), Error>(()),
        outcome(answer(Cursor::close_call(native), status)) == Ok::<(), Error>(()),
        outcome(answer(Cursor::close_call(None), later)) == Ok::<(), Error>(()),
{
}

/// Where the engine fails the first close of a handle, that close reports
/// the engine's error. The handle holds nothing all the same, so the next
/// close asks nothing and succeeds.
pub proof fn lemma_close_failed(
    native: Option<usize>,
    first: &str,
    second: &str,
    status: i32,
    later: i32,
)
    requires
        native is Some,
        status != 0,
        is_status(status as int),
    ensures
        outcome(answer(Connection::close_call(native, first), status)) == Err::<(), Error>(
            Error::of_code(status as int),
        ),
        outcome(answer(Connection::close_call(None, second), later)) == Ok::<(), Error>(()),
        outcome(answer(Session::close_call(native, first), status)) == Err::<(), Error>(
            Error::of_code(status as int),
        ),
        outcome(answer(Session::close_call(None, second), later)) == Ok::<(), Error>(()),
        outcome(answer(Cursor::close_call(native), status)) == Err::<(), Error>(
            Error::of_code(status as int),
        ),
        outcome(answer(Cursor::close_call(None), later)) == Ok::<(), Error>(()),
{
}

/// A close asks the engine exactly if the handle holds a native object, and
/// then for the release of that object and no other.
pub proof fn lemma_close_releases(native: Option<usize>, config: &str)
    ensures
        Connection::close_call(native, config) is Some <==> native is Some,
        Connection::close_call(native, config) matches Some(call) ==> call.is_release()
            && call.target() == native,
        Session::close_call(native, config) is Some <==> native is Some,
        Session::close_call(native, config) matches Some(call) ==> call.is_release()
            && call.target() == native,
        Cursor::close_call(native) is Some <==> native is Some,
        Cursor::close_call(native) matches Some(call) ==> call.is_release() && call.target()
            == native,
{
}

/// The number of release calls that `closes` closes in a row make on a
/// handle that starts in state `native`: one for a close that finds a
/// native object held, none for a close that finds nothing.
pub open spec fn release_calls(native: Option<usize>, closes: nat) -> nat
    decreases closes,
{
    if closes == 0 {
        0
    } else {
        let this_close: nat = if native is Some {
            1
        } else {
            0
        };
        this_close + release_calls(None, (closes - 1) as nat)
    }
}

/// A handle is released exactly once. However often it is closed, by hand
/// or at the end of its scope, the engine is asked once if the handle held
/// a native object at first, and never if it did not.
pub proof fn lemma_released_once(native: Option<usize>, closes: nat)
    ensures
        release_calls(native, closes) == if native is Some && closes > 0 {
            1nat
        } else {
            0nat
        },
    decreases closes,
{
    if closes > 0 {
        lemma_released_once(None, (closes - 1) as nat);
    }
}

} // verus!
