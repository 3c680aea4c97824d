//! A connection to a WiredTiger database.

use crate::engine::{is_encodable, Call};
use crate::error::{is_status, Error};
use crate::session::Session;
use vstd::prelude::*;

verus! {

/// A connection to an opened database: the root of the handles.
///
/// It holds the engine's native connection from the moment the engine has
/// opened it until the first close, and nothing afterwards. It cannot be
/// copied: there is one native connection, and one owner of it.
pub struct Connection {
    inner: Option<usize>,
}

impl View for Connection {
    type V = Option<usize>;

    /// The native connection, while this handle holds one.
    closed spec fn view(&self) -> Option<usize> {
        self.inner
    }
}

impl Connection {
    #[verifier::type_invariant]
    spec fn holds_no_null(&self) -> bool {
        self.inner != Some(0usize)
    }

    /// The call that a close makes for a connection in state `native`: none
    /// where nothing is held; else one that closes what is held, with the
    /// configuration, or with none where that is empty.
    pub open spec fn close_call<'a>(native: Option<usize>, config: &'a str) -> Option<Call<'a>> {
        match native {
            Some(connection) => Some(
                Call::CloseConnection {
                    connection,
                    config: if config@.len() == 0 {
                        None
                    } else {
                        Some(config)
                    },
                },
            ),
            None => None,
        }
    }

    /// Asks to open the database in the directory `home`, which the engine
    /// creates or not as `config` says.
    pub fn open<'a>(home: &'a str, config: &'a str) -> (call: Call<'a>)
        requires
            is_encodable(home@),
            is_encodable(config@),
        ensures
            call == (Call::Open { home, config }),
            call.is_valid(),
    {
        Call::Open { home, config }
    }

    /// Takes the engine's answer to [`Call::Open`]: the connection, or the
    /// error that the status stands for.
    pub fn opened(status: i32, handle: usize) -> (result: Result<Connection, Error>)
        requires
            is_status(status as int),
            status == 0 ==> handle != 0,
        ensures
            status == 0 ==> (result matches Ok(connection) && connection@ == Some(handle)),
            status != 0 ==> (result matches Err(error) && error == Error::of_code(status as int)),
    {
        if status != 0 {
            return Err(Error::from(status));
        }
        Ok(Connection::new_unchecked(handle))
    }

    fn new_unchecked(conn: usize) -> (connection: Connection)
        requires
            conn != 0,
        ensures
            connection@ == Some(conn),
    {
        Connection { inner: Some(conn) }
    }

    /// Tells whether the connection still holds its native connection.
    pub fn is_open(&self) -> (open: bool)
        ensures
            open == (self@ is Some),
    {
        self.inner.is_some()
    }

    /// Closes the connection. The first close asks the engine to close the
    /// native connection; the handle holds nothing from then on, whatever
    /// the engine answers. A later close asks nothing.
    #[must_use]
    pub fn close<'a>(&mut self, config: &'a str) -> (call: Option<Call<'a>>)
        requires
            old(self)@ is Some ==> is_encodable(config@),
        ensures
            final(self)@ is None,
            call == Self::close_call(old(self)@, config),
            call matches Some(call) ==> call.is_valid(),
    {
        proof {
            use_type_invariant(&*self);
        }
        match self.inner {
            Some(connection) => {
                self.inner = None;
                let config = if config.is_empty() {
                    None
                } else {
                    Some(config)
                };
                Some(Call::CloseConnection { connection, config })
            },
            None => None,
        }
    }

    /// Gives the connection up, as at the end of its scope: a close in the
    /// engine's default way.
    #[must_use]
    pub fn release(&mut self) -> (call: Option<Call<'static>>)
        ensures
            final(self)@ is None,
            call == match old(self)@ {
                Some(connection) => Some(Call::CloseConnection { connection, config: None }),
                None => None,
            },
            call matches Some(call) ==> call.is_valid(),
    {
        proof {
            reveal_strlit("");
        }
        self.close("")
    }

    /// Asks for the home directory of the database.
    pub fn get_home(&self) -> (call: Call<'static>)
        requires
            self@ is Some,
        ensures
            call == (Call::GetHome { connection: self@->0 }),
            call.is_valid(),
    {
        proof {
            use_type_invariant(self);
        }
        let connection = self.inner.expect("connection is null");
        Call::GetHome { connection }
    }

    /// Asks whether opening this connection created the database.
    pub fn is_new(&self) -> (call: Call<'static>)
        requires
            self@ is Some,
        ensures
            call == (Call::IsNew { connection: self@->0 }),
            call.is_valid(),
    {
        proof {
            use_type_invariant(self);
        }
        let connection = self.inner.expect("connection is null");
        Call::IsNew { connection }
    }

    /// Asks to open a session on this connection.
    pub fn open_session<'a>(&self, config: &'a str) -> (call: Call<'a>)
        requires
            self@ is Some,
            is_encodable(config@),
        ensures
            call == (Call::OpenSession { connection: self@->0, config }),
            call.is_valid(),
    {
        proof {
            use_type_invariant(self);
        }
        let connection = self.inner.expect("connection is null");
        Call::OpenSession { connection, config }
    }

    /// Takes the engine's answer to [`Call::OpenSession`]: a session that
    /// lives no longer than this borrow of the connection, or the error
    /// that the status stands for.
    pub fn session_opened(&self, status: i32, handle: usize) -> (result: Result<Session<'_>, Error>)
        requires
            self@ is Some,
            is_status(status as int),
            status == 0 ==> handle != 0,
        ensures
            status == 0 ==> (result matches Ok(session) && session@ == Some(handle)),
            status != 0 ==> (result matches Err(error) && error == Error::of_code(status as int)),
    {
        if status != 0 {
            return Err(Error::from(status));
        }
        Ok(Session::new_unchecked(handle))
    }
}

} // verus!
