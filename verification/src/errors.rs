use vstd::prelude::*;

verus! {

/// Failure of the instruction-data decoder.
#[derive(Clone, Copy, Debug, PartialEq, Eq, Structural)]
pub enum DecodeError {
    /// The leading discriminant selects no known variant.
    UnknownDiscriminant,
    /// The data ends before a required field is complete.
    TruncatedData,
    /// A seed field's bytes are not valid UTF-8.
    InvalidSeedEncoding,
}

/// Failure of the account-role resolver.
#[derive(Clone, Copy, Debug, PartialEq, Eq, Structural)]
pub enum ResolveError {
    /// The instruction carries fewer account indices than its variant requires.
    AccountArityMismatch,
    /// An account index points past the end of the account table.
    AccountIndexOutOfRange,
}

/// Any reason an instruction or a transaction yields no event.
#[derive(Clone, Copy, Debug, PartialEq, Eq, Structural)]
pub enum ParseError {
    UnknownDiscriminant,
    TruncatedData,
    InvalidSeedEncoding,
    AccountArityMismatch,
    AccountIndexOutOfRange,
    /// The instruction is not owned by the system program.
    ProgramMismatch,
    /// The whole transaction is marked failed and is skipped.
    FailedTransactionSkip,
}

pub open spec fn decode_error_to_parse(e: DecodeError) -> ParseError {
    match e {
        DecodeError::UnknownDiscriminant => ParseError::UnknownDiscriminant,
        DecodeError::TruncatedData => ParseError::TruncatedData,
        DecodeError::InvalidSeedEncoding => ParseError::InvalidSeedEncoding,
    }
}

pub open spec fn resolve_error_to_parse(e: ResolveError) -> ParseError {
    match e {
        ResolveError::AccountArityMismatch => ParseError::AccountArityMismatch,
        ResolveError::AccountIndexOutOfRange => ParseError::AccountIndexOutOfRange,
    }
}

/// The decoder's errors, under the names the driver reports.
pub fn lift_decode_error(e: DecodeError) -> (r: ParseError)
    ensures
        r == decode_error_to_parse(e),
{
    match e {
        DecodeError::UnknownDiscriminant => ParseError::UnknownDiscriminant,
        DecodeError::TruncatedData => ParseError::TruncatedData,
        DecodeError::InvalidSeedEncoding => ParseError::InvalidSeedEncoding,
    }
}

/// The resolver's errors, under the names the driver reports.
pub fn lift_resolve_error(e: ResolveError) -> (r: ParseError)
    ensures
        r == resolve_error_to_parse(e),
{
    match e {
        ResolveError::AccountArityMismatch => ParseError::AccountArityMismatch,
        ResolveError::AccountIndexOutOfRange => ParseError::AccountIndexOutOfRange,
    }
}

} // verus!
