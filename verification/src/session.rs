//! A context for performing database operations.

use crate::connection::Connection;
use crate::cursor::Cursor;
use crate::engine::{is_encodable, Call};
use crate::error::{is_status, Error};
use std::marker::PhantomData;
use vstd::prelude::*;

verus! {

/// A session on a connection: the context in which tables are created and
/// dropped and cursors are opened.
///
/// It borrows the connection that it was opened on, so the connection
/// cannot be closed while the session is in use. It is meant for one
/// thread at a time.
pub struct Session<'a> {
    inner: Option<usize>,
    conn: PhantomData<&'a Connection>,
}

impl<'a> View for Session<'a> {
    type V = Option<usize>;

    /// The native session, while this handle holds one.
    closed spec fn view(&self) -> Option<usize> {
        self.inner
    }
}

impl<'a> Session<'a> {
    #[verifier::type_invariant]
    spec fn holds_no_null(&self) -> bool {
        self.inner != Some(0usize)
    }

    /// The call that a close makes for a session in state `native`: none
    /// where nothing is held; else one that closes what is held, with the
    /// configuration as it is.
    pub open spec fn close_call<'c>(native: Option<usize>, config: &'c str) -> Option<Call<'c>> {
        match native {
            Some(session) => Some(Call::CloseSession { session, config }),
            None => None,
        }
    }

    pub(crate) fn new_unchecked(session: usize) -> (handle: Session<'a>)
        requires
            session != 0,
        ensures
            handle@ == Some(session),
    {
        Session { inner: Some(session), conn: PhantomData }
    }

    /// Tells whether the session still holds its native session.
    pub fn is_open(&self) -> (open: bool)
        ensures
            open == (self@ is Some),
    {
        self.inner.is_some()
    }

    /// Closes the session. The first close asks the engine to close the
    /// native session; the handle holds nothing from then on, whatever the
    /// engine answers. A later close asks nothing.
    #[must_use]
    pub fn close<'c>(&mut self, config: &'c str) -> (call: Option<Call<'c>>)
        requires
            old(self)@ is Some ==> is_encodable(config@),
        ensures
            final(self)@ is None,
            call == Self::close_call(old(self)@, config),
            call matches Some(call) ==> call.is_valid(),
    {
        proof {
            use_type_invariant(&*self);
        }
        match self.inner {
            Some(session) => {
                self.inner = None;
                Some(Call::CloseSession { session, config })
            },
            None => None,
        }
    }

    /// Gives the session up, as at the end of its scope: a close with an
    /// empty configuration.
    #[must_use]
    pub fn release(&mut self) -> (call: Option<Call<'static>>)
        ensures
            final(self)@ is None,
            call == Self::close_call(old(self)@, ""),
            call matches Some(call) ==> call.is_valid(),
    {
        proof {
            reveal_strlit("");
        }
        self.close("")
    }

    /// Asks to create the object `name`, such as a table, as `config`
    /// describes it.
    pub fn create<'c>(&self, name: &'c str, config: &'c str) -> (call: Call<'c>)
        requires
            self@ is Some,
            is_encodable(name@),
            is_encodable(config@),
        ensures
            call == (Call::Create { session: self@->0, name, config }),
            call.is_valid(),
    {
        proof {
            use_type_invariant(self);
        }
        let session = self.inner.expect("session is null");
        Call::Create { session, name, config }
    }

    /// Asks to remove the object `name`.
    pub fn drop<'c>(&self, name: &'c str, config: &'c str) -> (call: Call<'c>)
        requires
            self@ is Some,
            is_encodable(name@),
            is_encodable(config@),
        ensures
            call == (Call::Drop { session: self@->0, name, config }),
            call.is_valid(),
    {
        proof {
            use_type_invariant(self);
        }
        let session = self.inner.expect("session is null");
        Call::Drop { session, name, config }
    }

    /// Asks to open a cursor over the object `uri`.
    pub fn open_cursor<'c>(&self, uri: &'c str, config: &'c str) -> (call: Call<'c>)
        requires
            self@ is Some,
            is_encodable(uri@),
            is_encodable(config@),
        ensures
            call == (Call::OpenCursor { session: self@->0, uri, config }),
            call.is_valid(),
    {
        proof {
            use_type_invariant(self);
        }
        let session = self.inner.expect("session is null");
        Call::OpenCursor { session, uri, config }
    }

    /// Takes the engine's answer to [`Call::OpenCursor`]: a cursor that
    /// lives no longer than this borrow of the session, or the error that
    /// the status stands for.
    pub fn cursor_opened(&self, status: i32, handle: usize) -> (result: Result<Cursor<'_>, Error>)
        requires
            self@ is Some,
            is_status(status as int),
            status == 0 ==> handle != 0,
        ensures
            status == 0 ==> (result matches Ok(cursor) && cursor@ == Some(handle)),
            status != 0 ==> (result matches Err(error) && error == Error::of_code(status as int)),
    {
        if status != 0 {
            return Err(Error::from(status));
        }
        Ok(Cursor::new_unchecked(handle))
    }
}

} // verus!
