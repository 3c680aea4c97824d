//! The boundary with the storage engine: the calls that can be asked of it.

use vstd::prelude::*;
use vstd::string::*;
use vstd::utf8::{char_is_scalar, char_u32_cast, encode_scalar, encode_utf8};

verus! {

/// A string that can be handed to the engine: it holds no NUL character,
/// since the engine reads a string up to the first one.
pub open spec fn is_encodable(s: Seq<char>) -> bool {
    forall|i: int| 0 <= i < s.len() ==> #[trigger] s[i] != '\0'
}

/// The strings without a NUL character are those whose bytes, which are
/// what the engine is given, are all other than zero.
pub proof fn lemma_encodable_bytes(s: Seq<char>)
    ensures
        is_encodable(s) <==> forall|i: int|
            0 <= i < encode_utf8(s).len() ==> #[trigger] encode_utf8(s)[i] != 0u8,
    decreases s.len(),
{
    if s.len() > 0 {
        let first = encode_scalar(s[0] as u32);
        let rest = encode_utf8(s.drop_first());
        lemma_scalar_bytes(s[0]);
        lemma_encodable_bytes(s.drop_first());
        assert(encode_utf8(s) =~= first + rest);
        if is_encodable(s) {
            assert forall|i: int| 0 <= i < s.drop_first().len() implies #[trigger] s.drop_first()[i]
                != '\0' by {
                assert(s.drop_first()[i] == s[i + 1]);
            }
            assert forall|i: int| 0 <= i < encode_utf8(s).len() implies #[trigger] encode_utf8(
                s,
            )[i] != 0u8 by {
                if i < first.len() {
                    assert(encode_utf8(s)[i] == first[i]);
                } else {
                    assert(encode_utf8(s)[i] == rest[i - first.len()]);
                }
            }
        }
        if forall|i: int| 0 <= i < encode_utf8(s).len() ==> #[trigger] encode_utf8(s)[i] != 0u8 {
            assert(first.len() > 0);
            assert(encode_utf8(s)[0] == first[0]);
            assert forall|i: int| 0 <= i < rest.len() implies #[trigger] rest[i] != 0u8 by {
                assert(encode_utf8(s)[i + first.len()] == rest[i]);
            }
            assert forall|i: int| 0 <= i < s.len() implies #[trigger] s[i] != '\0' by {
                if i > 0 {
                    assert(s.drop_first()[i - 1] == s[i]);
                }
            }
        }
    }
}

/// The bytes of one character: a single zero for NUL, and no zero at all
/// for any other.
proof fn lemma_scalar_bytes(c: char)
    ensures
        encode_scalar(c as u32).len() > 0,
        c == '\0' ==> encode_scalar(c as u32)[0] == 0u8,
        c != '\0' ==> forall|i: int|
            0 <= i < encode_scalar(c as u32).len() ==> #[trigger] encode_scalar(c as u32)[i]
                != 0u8,
{
    let v = c as u32;
    char_is_scalar(c);
    assert(c == '\0' <==> v == 0) by {
        char_u32_cast(c, v);
        char_u32_cast('\0', 0u32);
    }
    assert(v <= 0x7F ==> ((v & 0x7F) as u8 == 0u8 <==> v == 0)) by (bit_vector);
    assert(0xC0u8 | ((v >> 6) & 0x1F) as u8 != 0u8) by (bit_vector);
    assert(0xE0u8 | ((v >> 12) & 0x0F) as u8 != 0u8) by (bit_vector);
    assert(0xF0u8 | ((v >> 18) & 0x7) as u8 != 0u8) by (bit_vector);
    assert(0x80u8 | (v & 0x3F) as u8 != 0u8) by (bit_vector);
    assert(0x80u8 | ((v >> 6) & 0x3F) as u8 != 0u8) by (bit_vector);
    assert(0x80u8 | ((v >> 12) & 0x3F) as u8 != 0u8) by (bit_vector);
}

/// Tells whether a string can be handed to the engine.
pub fn encodable(s: &str) -> (ok: bool)
    ensures
        ok == is_encodable(s@),
{
    let bytes = s.as_bytes();
    let mut i: usize = 0;
    while i < bytes.len()
        invariant
            i <= bytes.len(),
            bytes@ == encode_utf8(s@),
            forall|j: int| 0 <= j < i ==> #[trigger] bytes@[j] != 0u8,
        decreases bytes.len() - i,
    {
        if bytes[i] == 0 {
            proof {
                lemma_encodable_bytes(s@);
            }
            return false;
        }
        i += 1;
    }
    proof {
        lemma_encodable_bytes(s@);
    }
    true
}

/// One call into the engine, with the arguments to make it with.
///
/// A handle is the address of the engine's native object. Names and
/// configurations are the caller's strings, unchanged: the engine alone
/// gives them a meaning.
#[derive(Debug, Clone, Copy, PartialEq, Eq)]
#[allow(inconsistent_fields)]
#[must_use]
pub enum Call<'a> {
    /// Open the database in the directory `home`.
    Open { home: &'a str, config: &'a str },
    /// Close a connection. Without a configuration the engine closes it
    /// in its default way.
    CloseConnection { connection: usize, config: Option<&'a str> },
    /// Ask for the home directory of a connection's database.
    GetHome { connection: usize },
    /// Ask whether opening this connection created the database.
    IsNew { connection: usize },
    /// Open a session on a connection.
    OpenSession { connection: usize, config: &'a str },
    /// Close a session.
    CloseSession { session: usize, config: &'a str },
    /// Create the table, index or other object `name`.
    Create { session: usize, name: &'a str, config: &'a str },
    /// Remove the object `name`.
    Drop { session: usize, name: &'a str, config: &'a str },
    /// Open a cursor over the object `uri`.
    OpenCursor { session: usize, uri: &'a str, config: &'a str },
    /// Close a cursor.
    CloseCursor { cursor: usize },
    /// Ask for the text that describes an error code.
    Strerror { code: i32 },
}

impl<'a> Call<'a> {
    /// The handle that the call is made on, if it is made on one.
    pub open spec fn target(self) -> Option<usize> {
        match self {
            Call::Open { .. } => None,
            Call::CloseConnection { connection, .. } => Some(connection),
            Call::GetHome { connection } => Some(connection),
            Call::IsNew { connection } => Some(connection),
            Call::OpenSession { connection, .. } => Some(connection),
            Call::CloseSession { session, .. } => Some(session),
            Call::Create { session, .. } => Some(session),
            Call::Drop { session, .. } => Some(session),
            Call::OpenCursor { session, .. } => Some(session),
            Call::CloseCursor { cursor } => Some(cursor),
            Call::Strerror { .. } => None,
        }
    }

    /// The strings that the call hands to the engine, in the order of its
    /// arguments.
    pub open spec fn strings(self) -> Seq<Seq<char>> {
        match self {
            Call::Open { home, config } => seq![home@, config@],
            Call::CloseConnection { config, .. } => match config {
                Some(config) => seq![config@],
                None => seq![],
            },
            Call::GetHome { .. } => seq![],
            Call::IsNew { .. } => seq![],
            Call::OpenSession { config, .. } => seq![config@],
            Call::CloseSession { config, .. } => seq![config@],
            Call::Create { name, config, .. } => seq![name@, config@],
            Call::Drop { name, config, .. } => seq![name@, config@],
            Call::OpenCursor { uri, config, .. } => seq![uri@, config@],
            Call::CloseCursor { .. } => seq![],
            Call::Strerror { .. } => seq![],
        }
    }

    /// A call that the engine can be given: its handle is not null and
    /// each of its strings can be handed over.
    pub open spec fn is_valid(self) -> bool {
        &&& self.target() matches Some(handle) ==> handle != 0
        &&& forall|i: int|
            0 <= i < self.strings().len() ==> is_encodable(#[trigger] self.strings()[i])
    }

    /// A call that gives a handle's native object back to the engine.
    pub open spec fn is_release(self) -> bool {
        self is CloseConnection || self is CloseSession || self is CloseCursor
    }
}

/// The engine's answer to a call that an operation may or may not have
/// made: the status that the engine returned where there was a call, and
/// none where there was nothing to ask.
pub open spec fn answer(call: Option<Call>, status: i32) -> Option<i32> {
    match call {
        Some(_) => Some(status),
        None => None,
    }
}

} // verus!
