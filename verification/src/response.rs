use vstd::prelude::*;
use crate::error::{outcome, ClientError};
use crate::json::{Json, JsonValue};
use crate::signature::{parsed_text, signature_from_text, signature_text, Signature};

verus! {

/// An inbound reply: what the node put under `result`.
#[derive(Debug, PartialEq, Eq)]
pub struct ClientResponse {
    result: JsonValue,
}

/// What a `ClientResponse` says.
pub struct ClientResponseView {
    pub result: Json,
}

impl View for ClientResponse {
    type V = ClientResponseView;

    closed spec fn view(&self) -> ClientResponseView {
        ClientResponseView { result: self.result@ }
    }
}

impl Clone for ClientResponse {
    fn clone(&self) -> (copy: Self)
        ensures
            copy@ == self@,
    {
        ClientResponse { result: self.result.clone() }
    }
}

impl ClientResponse {
    /// A reply with the given result.
    pub fn new(result: JsonValue) -> (response: ClientResponse)
        ensures
            response@.result == result@,
    {
        ClientResponse { result }
    }

    /// What the node put under `result`.
    pub fn result(&self) -> (result: &JsonValue)
        ensures
            result@ == self@.result,
    {
        &self.result
    }

    /// The reply of a node that reports `signature`: its base58 text under
    /// `result`. Parsing that reply gives the signature back.
    pub fn with_signature(signature: &Signature) -> (response: ClientResponse)
        ensures
            response@.result == Json::String(signature_text(signature@)),
            parsed_result(response@.result) == Ok::<Seq<u8>, ClientError>(signature@),
    {
        ClientResponse { result: JsonValue::String(signature.to_base58()) }
    }
}

/// What a reply to a submission decodes to: the signature that the string
/// under `result` spells in base58; a response-shape fault where `result` is
/// no string; a signature-decode fault where the string spells no signature.
pub open spec fn parsed_result(result: Json) -> Result<Seq<u8>, ClientError> {
    match result {
        Json::String(text) => parsed_text(text),
        _ => Err(ClientError::ResponseShape),
    }
}

/// A reply is refused for its shape exactly where its result is no string,
/// and for its text exactly where the string spells no signature; every other
/// reply gives the signature that its string spells.
pub proof fn lemma_parsed_result_cases(result: Json)
    ensures
        parsed_result(result) == Err::<Seq<u8>, ClientError>(ClientError::ResponseShape) <==> !(result is String),
        parsed_result(result) == Err::<Seq<u8>, ClientError>(ClientError::SignatureDecode) <==> (result matches Json::String(
            text,
        ) && signature_from_text(text) is None),
        parsed_result(result) is Ok <==> (result matches Json::String(text) && signature_from_text(
            text,
        ) is Some),
        parsed_result(result) matches Ok(bytes) ==> result matches Json::String(text)
            && signature_from_text(text) == Some(bytes),
{
}

/// The identifier that the node returned for a submitted transaction.
#[derive(Clone, Copy, Debug, PartialEq, Eq)]
pub struct SendVersionedTransactionResponse(Signature);

impl View for SendVersionedTransactionResponse {
    type V = Seq<u8>;

    closed spec fn view(&self) -> Seq<u8> {
        self.0@
    }
}

impl SendVersionedTransactionResponse {
    /// The identifier in the reply.
    pub closed spec fn signature(self) -> Signature {
        self.0
    }

    /// The view of the reply is that of its identifier.
    pub proof fn lemma_view(self)
        ensures
            self@ == self.signature()@,
    {
    }

    /// Decodes the reply to a submission.
    pub fn parse(response: &ClientResponse) -> (parsed: Result<Self, ClientError>)
        ensures
            outcome(parsed) == parsed_result(response@.result),
    {
        match response.result.as_str() {
            Some(text) => match Signature::parse(text) {
                Ok(signature) => Ok(SendVersionedTransactionResponse(signature)),
                Err(e) => Err(e),
            },
            None => Err(ClientError::ResponseShape),
        }
    }
}

/// Decodes the reply to a submission into the identifier of the transaction.
pub fn parse_send_transaction_response(response: &ClientResponse) -> (parsed: Result<
    Signature,
    ClientError,
>)
    ensures
        outcome(parsed) == parsed_result(response@.result),
{
    match SendVersionedTransactionResponse::parse(response) {
        Ok(r) => Ok(r.0),
        Err(e) => Err(e),
    }
}

impl From<SendVersionedTransactionResponse> for Signature {
    fn from(response: SendVersionedTransactionResponse) -> (signature: Signature) {
        response.0
    }
}

impl vstd::std_specs::convert::FromSpecImpl<SendVersionedTransactionResponse> for Signature {
    open spec fn obeys_from_spec() -> bool {
        true
    }

    open spec fn from_spec(response: SendVersionedTransactionResponse) -> Signature {
        response.signature()
    }
}

} // verus!
