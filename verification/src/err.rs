use vstd::prelude::*;

verus! {

/// The invocation-level failures of the bridge. Every one of them is fatal
/// to the current invocation: nothing is retried and nothing degrades to a
/// partial result.
///
/// Diagnostics delegated from a collaborator (the host engine's executor,
/// the query compiler) are carried as their rendered text.
#[derive(Debug, PartialEq)]
pub enum PlprqlError {
    /// The caller identity does not match any known callable.
    UndefinedFunction,
    /// The invocation handle carries no call information at all.
    NullFunctionCallInfo,
    /// The invocation handle carries no caller-identity information.
    NullFmgrInfo,
    /// An error delegated from the host engine, as its rendered text.
    PgrxError(String),
    /// Compiler diagnostics, as their rendered text.
    PrqlError(String),
}

pub type PlprqlResult<T> = Result<T, PlprqlError>;

impl PlprqlError {
    /// The human-readable message that surfaces to the host with the
    /// invocation-level failure.
    pub open spec fn spec_message(&self) -> Seq<char> {
        match self {
            PlprqlError::UndefinedFunction => "Function does not exist"@,
            PlprqlError::NullFunctionCallInfo => "FunctionCallInfo is null"@,
            PlprqlError::NullFmgrInfo => "FmgrInfo is null"@,
            PlprqlError::PgrxError(s) => s@,
            PlprqlError::PrqlError(s) => s@,
        }
    }

    /// Render the error as its human-readable message.
    pub fn message(&self) -> (r: String)
        ensures
            r@ == self.spec_message(),
    {
        match self {
            PlprqlError::UndefinedFunction => String::from_str("Function does not exist"),
            PlprqlError::NullFunctionCallInfo => String::from_str("FunctionCallInfo is null"),
            PlprqlError::NullFmgrInfo => String::from_str("FmgrInfo is null"),
            PlprqlError::PgrxError(s) => s.clone(),
            PlprqlError::PrqlError(s) => s.clone(),
        }
    }
}

} // verus!
