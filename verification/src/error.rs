use vstd::prelude::*;

verus! {

/// The ways in which marshaling a submission can fail. Each one is final:
/// nothing here retries, and nothing is swallowed.
#[derive(Clone, Copy, Debug, PartialEq, Eq, Structural)]
pub enum ClientError {
    /// The transaction has no binary form, or one too long to be put into text.
    Serialization,
    /// The response carries no string where the identifier should be.
    ResponseShape,
    /// The string in the response is not the base58 text of a signature.
    SignatureDecode,
}

impl ClientError {
    /// The message that goes with each fault.
    pub open spec fn message_text(self) -> Seq<char> {
        match self {
            ClientError::Serialization => "serialization failed"@,
            ClientError::ResponseShape => "invalid response"@,
            ClientError::SignatureDecode => "invalid signature"@,
        }
    }

    /// A short description of the fault, for logs.
    pub fn message(&self) -> (text: &'static str)
        ensures
            text@ == self.message_text(),
    {
        match self {
            ClientError::Serialization => "serialization failed",
            ClientError::ResponseShape => "invalid response",
            ClientError::SignatureDecode => "invalid signature",
        }
    }
}

/// The outcome of a call, its value taken by its view.
pub open spec fn outcome<T: View>(result: Result<T, ClientError>) -> Result<T::V, ClientError> {
    match result {
        Ok(value) => Ok(value@),
        Err(e) => Err(e),
    }
}

} // verus!
