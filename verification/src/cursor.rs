//! Search, iterate and modify data.

use crate::engine::Call;
use crate::session::Session;
use std::marker::PhantomData;
use vstd::prelude::*;

verus! {

/// A cursor over one object of the database.
///
/// It borrows the session that it was opened in, so the session cannot be
/// closed while the cursor is in use. It is meant for one thread at a time.
pub struct Cursor<'a> {
    inner: Option<usize>,
    session: PhantomData<&'a Session<'a>>,
}

impl<'a> View for Cursor<'a> {
    type V = Option<usize>;

    /// The native cursor, while this handle holds one.
    closed spec fn view(&self) -> Option<usize> {
        self.inner
    }
}

impl<'a> Cursor<'a> {
    #[verifier::type_invariant]
    spec fn holds_no_null(&self) -> bool {
        self.inner != Some(0usize)
    }

    /// The call that a close makes for a cursor in state `native`: none
    /// where nothing is held; else one that closes what is held.
    pub open spec fn close_call(native: Option<usize>) -> Option<Call<'static>> {
        match native {
            Some(cursor) => Some(Call::CloseCursor { cursor }),
            None => None,
        }
    }

    pub(crate) fn new_unchecked(cursor: usize) -> (handle: Cursor<'a>)
        requires
            cursor != 0,
        ensures
            handle@ == Some(cursor),
    {
        Cursor { inner: Some(cursor), session: PhantomData }
    }

    /// Tells whether the cursor still holds its native cursor.
    pub fn is_open(&self) -> (open: bool)
        ensures
            open == (self@ is Some),
    {
        self.inner.is_some()
    }

    /// Closes the cursor. The first close asks the engine to close the
    /// native cursor; the handle holds nothing from then on, whatever the
    /// engine answers. A later close asks nothing. Letting the cursor go
    /// at the end of its scope is a close too.
    #[must_use]
    pub fn close(&mut self) -> (call: Option<Call<'static>>)
        ensures
            final(self)@ is None,
            call == Self::close_call(old(self)@),
            call matches Some(call) ==> call.is_valid(),
    {
        proof {
            use_type_invariant(&*self);
        }
        match self.inner {
            Some(cursor) => {
                self.inner = None;
                Some(Call::CloseCursor { cursor })
            },
            None => None,
        }
    }
}

} // verus!
