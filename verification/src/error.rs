//! Status codes of the engine and the errors they stand for.

use crate::decimal::{i32_to_decimal, signed_decimal};
use crate::engine::Call;
use vstd::prelude::*;
use vstd::string::*;

verus! {

/// Conflict between concurrent operations: the transaction must roll back.
pub const WT_ROLLBACK: i32 = -31800;

/// Attempt to insert an existing key.
pub const WT_DUPLICATE_KEY: i32 = -31801;

/// Non-specific engine error.
pub const WT_ERROR: i32 = -31802;

/// Item not found.
pub const WT_NOTFOUND: i32 = -31803;

/// The engine hit an unrecoverable failure.
pub const WT_PANIC: i32 = -31804;

/// Restart the operation (internal to the engine).
pub const WT_RESTART: i32 = -31805;

/// Recovery must be run to continue.
pub const WT_RUN_RECOVERY: i32 = -31806;

/// Operation would overflow the cache.
pub const WT_CACHE_FULL: i32 = -31807;

/// Conflict with a prepared update.
pub const WT_PREPARE_CONFLICT: i32 = -31808;

/// Database corruption detected: salvage may help.
pub const WT_TRY_SALVAGE: i32 = -31809;

/// What the engine reports when an operation fails.
#[derive(Debug, Clone, Copy, PartialEq, Eq, Structural)]
pub enum Error {
    /// A failure of the operating system, with its error number.
    System(i32),
    Rollback,
    DuplicateKey,
    GeneralError,
    NotFound,
    Panic,
    Restart,
    RunRecovery,
    CacheFull,
    PrepareConflict,
    TrySalvage,
}

impl Error {
    /// The codes that the engine defines for its own failures.
    pub open spec fn is_engine_code(code: int) -> bool {
        ||| code == WT_ROLLBACK
        ||| code == WT_DUPLICATE_KEY
        ||| code == WT_ERROR
        ||| code == WT_NOTFOUND
        ||| code == WT_PANIC
        ||| code == WT_RESTART
        ||| code == WT_RUN_RECOVERY
        ||| code == WT_CACHE_FULL
        ||| code == WT_PREPARE_CONFLICT
        ||| code == WT_TRY_SALVAGE
    }

    /// The codes that report a failure: the engine's own, and every positive
    /// number, which is an error number of the operating system.
    pub open spec fn is_error_code(code: int) -> bool {
        code > 0 || Self::is_engine_code(code)
    }

    /// The error that an error code stands for.
    pub open spec fn of_code(code: int) -> Error {
        if code == WT_ROLLBACK {
            Error::Rollback
        } else if code == WT_DUPLICATE_KEY {
            Error::DuplicateKey
        } else if code == WT_ERROR {
            Error::GeneralError
        } else if code == WT_NOTFOUND {
            Error::NotFound
        } else if code == WT_PANIC {
            Error::Panic
        } else if code == WT_RESTART {
            Error::Restart
        } else if code == WT_RUN_RECOVERY {
            Error::RunRecovery
        } else if code == WT_CACHE_FULL {
            Error::CacheFull
        } else if code == WT_PREPARE_CONFLICT {
            Error::PrepareConflict
        } else if code == WT_TRY_SALVAGE {
            Error::TrySalvage
        } else {
            Error::System(code as i32)
        }
    }

    /// The code that the engine uses for this error.
    pub open spec fn spec_code(self) -> int {
        match self {
            Error::System(errno) => errno as int,
            Error::Rollback => WT_ROLLBACK as int,
            Error::DuplicateKey => WT_DUPLICATE_KEY as int,
            Error::GeneralError => WT_ERROR as int,
            Error::NotFound => WT_NOTFOUND as int,
            Error::Panic => WT_PANIC as int,
            Error::Restart => WT_RESTART as int,
            Error::RunRecovery => WT_RUN_RECOVERY as int,
            Error::CacheFull => WT_CACHE_FULL as int,
            Error::PrepareConflict => WT_PREPARE_CONFLICT as int,
            Error::TrySalvage => WT_TRY_SALVAGE as int,
        }
    }

    /// An error as the engine can report it: a system error carries a
    /// positive error number.
    pub open spec fn is_reportable(self) -> bool {
        self matches Error::System(errno) ==> errno > 0
    }

    /// Maps an error code of the engine to the error it stands for.
    ///
    /// The engine reports nothing but its own codes and positive error
    /// numbers; any other value is not an error code and has no mapping.
    pub fn from(value: i32) -> (error: Error)
        requires
            Self::is_error_code(value as int),
        ensures
            error == Self::of_code(value as int),
            error.spec_code() == value,
            error.is_reportable(),
    {
        if value == WT_ROLLBACK {
            Error::Rollback
        } else if value == WT_DUPLICATE_KEY {
            Error::DuplicateKey
        } else if value == WT_ERROR {
            Error::GeneralError
        } else if value == WT_NOTFOUND {
            Error::NotFound
        } else if value == WT_PANIC {
            Error::Panic
        } else if value == WT_RESTART {
            Error::Restart
        } else if value == WT_RUN_RECOVERY {
            Error::RunRecovery
        } else if value == WT_CACHE_FULL {
            Error::CacheFull
        } else if value == WT_PREPARE_CONFLICT {
            Error::PrepareConflict
        } else if value == WT_TRY_SALVAGE {
            Error::TrySalvage
        } else if value > 0 {
            Error::System(value)
        } else {
            vstd::pervasive::unreached()
        }
    }

    /// Maps any number to the error it stands for, if it is an error code.
    pub fn checked_from(value: i32) -> (error: Option<Error>)
        ensures
            Self::is_error_code(value as int) ==> error == Some(Self::of_code(value as int)),
            !Self::is_error_code(value as int) ==> error is None,
    {
        if value > 0 || (WT_TRY_SALVAGE <= value && value <= WT_ROLLBACK) {
            Some(Error::from(value))
        } else {
            None
        }
    }

    /// The code that the engine uses for this error.
    pub fn code(&self) -> (code: i32)
        ensures
            code == self.spec_code(),
    {
        match self {
            Error::System(errno) => *errno,
            Error::Rollback => WT_ROLLBACK,
            Error::DuplicateKey => WT_DUPLICATE_KEY,
            Error::GeneralError => WT_ERROR,
            Error::NotFound => WT_NOTFOUND,
            Error::Panic => WT_PANIC,
            Error::Restart => WT_RESTART,
            Error::RunRecovery => WT_RUN_RECOVERY,
            Error::CacheFull => WT_CACHE_FULL,
            Error::PrepareConflict => WT_PREPARE_CONFLICT,
            Error::TrySalvage => WT_TRY_SALVAGE,
        }
    }

    /// Asks the engine for the text that describes this error.
    pub fn strerror(&self) -> (call: Call<'static>)
        ensures
            call == (Call::Strerror { code: self.spec_code() as i32 }),
            call.is_valid(),
    {
        Call::Strerror { code: self.code() }
    }

    /// The text that describes this error, given the engine's own text for
    /// its code: that text as it is, and for a system error with
    /// `SYSTEM(`, the error number, `): ` in front of it.
    pub open spec fn spec_message(self, text: Seq<char>) -> Seq<char> {
        match self {
            Error::System(errno) => seq!['S', 'Y', 'S', 'T', 'E', 'M', '('] + signed_decimal(
                errno as int,
            ) + seq![')', ':', ' '] + text,
            _ => text,
        }
    }

    /// Describes this error. `text` is the engine's answer to
    /// [`Error::strerror`]; no message text is kept here.
    pub fn message(&self, text: &str) -> (message: String)
        ensures
            message@ == self.spec_message(text@),
    {
        match self {
            Error::System(errno) => {
                let mut message = String::from_str("SYSTEM(");
                let number = i32_to_decimal(*errno);
                message.append(number.as_str());
                message.append("): ");
                message.append(text);
                proof {
                    reveal_strlit("SYSTEM(");
                    reveal_strlit("): ");
                    assert(message@ =~= self.spec_message(text@));
                }
                message
            },
            _ => String::from_str(text),
        }
    }
}

/// What a status of the engine means to the caller: success for zero, and
/// for an error code the error it stands for.
pub open spec fn status_result(status: int) -> Result<(), Error> {
    if status == 0 {
        Ok(())
    } else {
        Err(Error::of_code(status))
    }
}

/// The values that the engine returns as a status: zero and the error codes.
pub open spec fn is_status(status: int) -> bool {
    status == 0 || Error::is_error_code(status)
}

/// Tells whether a number is a status of the engine.
pub fn recognizes(status: i32) -> (known: bool)
    ensures
        known == is_status(status as int),
{
    status == 0 || Error::checked_from(status).is_some()
}

/// Turns the status that an engine call returned into the call's result.
pub fn wt_try(status: i32) -> (result: Result<(), Error>)
    requires
        is_status(status as int),
    ensures
        result == status_result(status as int),
        result is Ok <==> status == 0,
{
    if status != 0 {
        Err(Error::from(status))
    } else {
        Ok(())
    }
}

/// The result of an operation that may have had nothing to ask of the
/// engine: success where no call was made, else what the status says.
pub open spec fn outcome(reply: Option<i32>) -> Result<(), Error> {
    match reply {
        None => Ok(()),
        Some(status) => status_result(status as int),
    }
}

/// Concludes an operation from the engine's answer to its call, or from
/// `None` where the operation had nothing to ask.
pub fn settle(reply: Option<i32>) -> (result: Result<(), Error>)
    requires
        reply matches Some(status) ==> is_status(status as int),
    ensures
        result == outcome(reply),
{
    match reply {
        None => Ok(()),
        Some(status) => wt_try(status),
    }
}

/// Mapping an error code to its error and reading the error's code gives the
/// code back.
pub proof fn lemma_code_of_error_of_code(code: i32)
    requires
        Error::is_error_code(code as int),
    ensures
        Error::of_code(code as int).spec_code() == code,
        Error::of_code(code as int).is_reportable(),
{
}

/// Reading the code of an error that the engine can report and mapping it
/// gives the error back; in particular no two such errors share a code.
pub proof fn lemma_error_of_code_of_error(error: Error)
    requires
        error.is_reportable(),
    ensures
        Error::is_error_code(error.spec_code()),
        Error::of_code(error.spec_code()) == error,
{
}

/// A positive code maps to the system error that carries it, and every
/// code of the engine's own to an error that is not a system error.
pub proof fn lemma_of_code_kinds(code: i32)
    requires
        Error::is_error_code(code as int),
    ensures
        code > 0 ==> Error::of_code(code as int) == Error::System(code),
        code <= 0 ==> !(Error::of_code(code as int) is System),
{
}

} // verus!
