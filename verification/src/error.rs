//! The error taxonomy of the program: every failure aborts the whole
//! invocation immediately, and the host surfaces the error to the caller.

use vstd::prelude::*;

verus! {

/// Why an invocation failed.
#[derive(Clone, Copy, Debug, PartialEq, Eq)]
pub enum MintError {
    /// The payer account (position 0) lacked the signer flag.
    InvalidSigner,
    /// The payload's selector byte named no recognized operation.
    UnsupportedOperation,
    /// The argument record was truncated or not validly encoded.
    MalformedArgumentRecord,
    /// Fewer accounts were supplied than the positional contract needs.
    MissingAccount,
    /// A sub-program call failed; carries that program's error code unchanged.
    ExternalCallFailed(u64),
}

impl MintError {
    /// The diagnostic text rendered to the log before the error is returned,
    /// so operators can tell local validation failures from downstream ones.
    pub open spec fn describe_spec(self) -> Seq<char> {
        match self {
            MintError::InvalidSigner => "payer is not a signer"@,
            MintError::UnsupportedOperation => "unsupported operation selector"@,
            MintError::MalformedArgumentRecord => "malformed argument record"@,
            MintError::MissingAccount => "missing account"@,
            MintError::ExternalCallFailed(_) => "external program call failed"@,
        }
    }

    /// A short diagnostic line for this error.
    pub fn describe(&self) -> (r: &'static str)
        ensures
            r@ == self.describe_spec(),
    {
        match self {
            MintError::InvalidSigner => "payer is not a signer",
            MintError::UnsupportedOperation => "unsupported operation selector",
            MintError::MalformedArgumentRecord => "malformed argument record",
            MintError::MissingAccount => "missing account",
            MintError::ExternalCallFailed(_) => "external program call failed",
        }
    }
}

} // verus!
