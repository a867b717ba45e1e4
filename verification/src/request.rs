use vstd::prelude::*;
use crate::config::{effective_encoding, effective_encoding_of, RpcSendTransactionConfig};
use crate::encoding::{
    base64_text, can_encode, encodable, encode_bytes, encoded_text, Encoding,
};
use crate::error::{outcome, ClientError};
use crate::json::{items_view, Json, JsonValue};
use crate::transaction::{serialize, wire_bytes};

verus! {

/// The name of the call that submits a signed transaction.
pub const SEND_TRANSACTION: &'static str = "sendTransaction";

/// An outbound call: the method's name and its positional parameters.
#[derive(Debug, PartialEq, Eq)]
pub struct ClientRequest {
    method: String,
    params: JsonValue,
}

/// What a `ClientRequest` says.
pub struct ClientRequestView {
    pub method: Seq<char>,
    pub params: Json,
}

impl View for ClientRequest {
    type V = ClientRequestView;

    closed spec fn view(&self) -> ClientRequestView {
        ClientRequestView { method: self.method@, params: self.params@ }
    }
}

impl Clone for ClientRequest {
    fn clone(&self) -> (copy: Self)
        ensures
            copy@ == self@,
    {
        ClientRequest { method: self.method.clone(), params: self.params.clone() }
    }
}

impl ClientRequest {
    /// A call of `method` with the given parameters.
    pub fn new(method: &str, params: JsonValue) -> (request: ClientRequest)
        ensures
            request@.method == method@,
            request@.params == params@,
    {
        ClientRequest { method: method.to_owned(), params }
    }

    /// The name of the method that is called.
    pub fn method(&self) -> (method: &str)
        ensures
            method@ == self@.method,
    {
        self.method.as_str()
    }

    /// The parameters of the call.
    pub fn params(&self) -> (params: &JsonValue)
        ensures
            params@ == self@.params,
    {
        &self.params
    }
}

/// The parameters of a submission: the transaction's text alone, or the text
/// followed by the configuration's wire form.
pub open spec fn send_params(text: Seq<char>, config: Option<RpcSendTransactionConfig>) -> Json {
    match config {
        Some(c) => Json::Array(seq![Json::String(text), c.json()]),
        None => Json::Array(seq![Json::String(text)]),
    }
}

/// The parameters for a transaction whose binary form is `bytes`: its text in
/// the effective encoding, with the configuration behind it if there is one.
pub open spec fn params_for(bytes: Seq<u8>, config: Option<RpcSendTransactionConfig>) -> Result<
    Json,
    ClientError,
> {
    if encodable(bytes.len()) {
        Ok(send_params(encoded_text(bytes, effective_encoding_of(config)), config))
    } else {
        Err(ClientError::Serialization)
    }
}

/// The parameters for a transaction that may have no binary form.
pub open spec fn params_of(bytes: Option<Seq<u8>>, config: Option<RpcSendTransactionConfig>) -> Result<
    Json,
    ClientError,
> {
    match bytes {
        Some(b) => params_for(b, config),
        None => Err(ClientError::Serialization),
    }
}

/// The whole call for a transaction that may have no binary form.
pub open spec fn request_of(bytes: Option<Seq<u8>>, config: Option<RpcSendTransactionConfig>) -> Result<
    ClientRequestView,
    ClientError,
> {
    match params_of(bytes, config) {
        Ok(params) => Ok(ClientRequestView { method: SEND_TRANSACTION@, params }),
        Err(e) => Err(e),
    }
}

/// Puts the transaction's text and the configuration, if any, into the
/// parameter array. The configuration goes in as the caller made it: an
/// encoding that it does not name is not written into it.
pub fn assemble_params(text: String, config: Option<RpcSendTransactionConfig>) -> (params:
    JsonValue)
    ensures
        params@ == send_params(text@, config),
{
    let mut items: Vec<JsonValue> = Vec::new();
    items.push(JsonValue::String(text));
    match config {
        Some(c) => {
            items.push(c.to_json());
            assert(items_view(items@) =~= seq![Json::String(text@), c.json()]);
        },
        None => {
            assert(items_view(items@) =~= seq![Json::String(text@)]);
        },
    }
    JsonValue::array(items)
}

/// Builds the parameters from the transaction's binary form.
pub fn params_for_bytes(bytes: &[u8], config: Option<RpcSendTransactionConfig>) -> (params: Result<
    JsonValue,
    ClientError,
>)
    ensures
        outcome(params) == params_for(bytes@, config),
{
    if !can_encode(bytes) {
        return Err(ClientError::Serialization);
    }
    let text = encode_bytes(bytes, effective_encoding(config));
    Ok(assemble_params(text, config))
}

/// A signed transaction on its way to the node, with the options that the
/// caller wants the node to apply, if any.
#[derive(Debug)]
pub struct SendVersionedTransactionRequest {
    transaction: solana_sdk::transaction::VersionedTransaction,
    config: Option<RpcSendTransactionConfig>,
}

/// What a `SendVersionedTransactionRequest` holds.
pub struct SendVersionedTransactionRequestView {
    pub transaction: solana_sdk::transaction::VersionedTransaction,
    pub config: Option<RpcSendTransactionConfig>,
}

impl SendVersionedTransactionRequestView {
    /// The parameters that the request puts on the wire.
    pub open spec fn params(self) -> Result<Json, ClientError> {
        params_of(wire_bytes(self.transaction), self.config)
    }

    /// The call that the request makes.
    pub open spec fn request(self) -> Result<ClientRequestView, ClientError> {
        request_of(wire_bytes(self.transaction), self.config)
    }
}

impl View for SendVersionedTransactionRequest {
    type V = SendVersionedTransactionRequestView;

    closed spec fn view(&self) -> SendVersionedTransactionRequestView {
        SendVersionedTransactionRequestView { transaction: self.transaction, config: self.config }
    }
}

impl Clone for SendVersionedTransactionRequest {
    fn clone(&self) -> (copy: Self)
        ensures
            copy@ == self@,
    {
        Self { transaction: self.transaction.clone(), config: self.config }
    }
}

impl SendVersionedTransactionRequest {
    /// A submission without options.
    pub fn new(transaction: solana_sdk::transaction::VersionedTransaction) -> (request: Self)
        ensures
            request@.transaction == transaction,
            request@.config is None,
    {
        Self { transaction, config: None }
    }

    /// A submission with options.
    pub fn new_with_config(
        transaction: solana_sdk::transaction::VersionedTransaction,
        config: RpcSendTransactionConfig,
    ) -> (request: Self)
        ensures
            request@.transaction == transaction,
            request@.config == Some(config),
    {
        Self { transaction, config: Some(config) }
    }

    /// The transaction to submit.
    pub fn transaction(&self) -> (transaction: &solana_sdk::transaction::VersionedTransaction)
        ensures
            *transaction == self@.transaction,
    {
        &self.transaction
    }

    /// The options to submit it with.
    pub fn config(&self) -> (config: Option<RpcSendTransactionConfig>)
        ensures
            config == self@.config,
    {
        self.config
    }

    /// The positional parameters of the call: the transaction as text, then
    /// the options if there are any.
    pub fn params(&self) -> (params: Result<JsonValue, ClientError>)
        ensures
            outcome(params) == self@.params(),
    {
        match serialize(&self.transaction) {
            Ok(bytes) => params_for_bytes(bytes.as_slice(), self.config),
            Err(e) => Err(e),
        }
    }

    /// The call that submits the transaction.
    pub fn build(&self) -> (request: Result<ClientRequest, ClientError>)
        ensures
            outcome(request) == self@.request(),
    {
        match self.params() {
            Ok(params) => Ok(ClientRequest::new(SEND_TRANSACTION, params)),
            Err(e) => Err(e),
        }
    }
}

/// Builds the call that submits `transaction` with the given options.
pub fn build_send_transaction_request(
    transaction: solana_sdk::transaction::VersionedTransaction,
    config: Option<RpcSendTransactionConfig>,
) -> (request: Result<ClientRequest, ClientError>)
    ensures
        outcome(request) == request_of(wire_bytes(transaction), config),
{
    (SendVersionedTransactionRequest { transaction, config }).build()
}

/// Whether a transaction can be submitted at all: it has a binary form, and
/// one short enough to be put into text.
pub open spec fn submittable(transaction: solana_sdk::transaction::VersionedTransaction) -> bool {
    wire_bytes(transaction) matches Some(bytes) && encodable(bytes.len())
}

/// Building succeeds for every submittable transaction, whatever the options,
/// and fails for every other with a serialization fault.
pub proof fn lemma_request_cases(
    transaction: solana_sdk::transaction::VersionedTransaction,
    config: Option<RpcSendTransactionConfig>,
)
    ensures
        submittable(transaction) <==> request_of(wire_bytes(transaction), config) is Ok,
        !submittable(transaction) <==> request_of(wire_bytes(transaction), config) == Err::<
            ClientRequestView,
            ClientError,
        >(ClientError::Serialization),
        request_of(wire_bytes(transaction), config) matches Ok(request) ==> request.method
            == SEND_TRANSACTION@ && params_of(wire_bytes(transaction), config) == Ok::<
            Json,
            ClientError,
        >(request.params),
{
}

/// Without options, the parameters of a submittable transaction are a single
/// string, the base64 text of its binary form.
pub proof fn lemma_params_without_config(transaction: solana_sdk::transaction::VersionedTransaction)
    requires
        submittable(transaction),
    ensures
        (SendVersionedTransactionRequestView { transaction, config: None }).params() matches Ok(
            Json::Array(items),
        ) && items.len() == 1 && items[0] == Json::String(
            base64_text(wire_bytes(transaction)->Some_0),
        ),
{
}

/// With options that name an encoding, the parameters of a submittable
/// transaction are two: its text in that encoding, then the options' wire
/// form, which carries the encoding under its name.
pub proof fn lemma_params_with_encoding(
    transaction: solana_sdk::transaction::VersionedTransaction,
    config: RpcSendTransactionConfig,
    encoding: Encoding,
)
    requires
        submittable(transaction),
        config.encoding == Some(encoding),
    ensures
        (SendVersionedTransactionRequestView { transaction, config: Some(config) }).params() matches Ok(
            Json::Array(items),
        ) && items.len() == 2 && items[0] == Json::String(
            encoded_text(wire_bytes(transaction)->Some_0, encoding),
        ) && items[1] == config.json(),
        config.json_members().contains(("encoding"@, Json::String(encoding.name()))),
{
    let members = config.json_members();
    let at: int = if config.preflight_commitment is Some {
        2
    } else {
        1
    };
    assert(members[at] == ("encoding"@, Json::String(encoding.name())));
}

/// With options that name no encoding, the text of a submittable transaction
/// is base64, whatever else the options say, and the options' wire form has
/// no encoding in it.
pub proof fn lemma_params_default_encoding(
    transaction: solana_sdk::transaction::VersionedTransaction,
    config: RpcSendTransactionConfig,
)
    requires
        submittable(transaction),
        config.encoding is None,
    ensures
        (SendVersionedTransactionRequestView { transaction, config: Some(config) }).params() matches Ok(
            Json::Array(items),
        ) && items.len() == 2 && items[0] == Json::String(
            base64_text(wire_bytes(transaction)->Some_0),
        ) && items[1] == config.json(),
        forall|i: int|
            0 <= i < config.json_members().len() ==> (#[trigger] config.json_members()[i]).0
                != "encoding"@,
{
    reveal_strlit("encoding");
    reveal_strlit("skipPreflight");
    reveal_strlit("preflightCommitment");
    reveal_strlit("maxRetries");
    reveal_strlit("minContextSlot");
    let members = config.json_members();
    assert forall|i: int| 0 <= i < members.len() implies (#[trigger] members[i]).0
        != "encoding"@ by {
        let key = members[i].0;
        assert(key == "skipPreflight"@ || key == "preflightCommitment"@ || key == "maxRetries"@
            || key == "minContextSlot"@);
        assert(key.len() != "encoding"@.len());
    }
}

/// The parameter array has one item without options and two with them, the
/// transaction's text first.
pub proof fn lemma_params_shape(text: Seq<char>, config: Option<RpcSendTransactionConfig>)
    ensures
        send_params(text, config) matches Json::Array(items) && items.len() == (if config is Some {
            2nat
        } else {
            1nat
        }) && items[0] == Json::String(text),
{
}

/// What a request puts on the wire depends on the request alone: two
/// outcomes of `build` for the same transaction and options are the same.
pub proof fn lemma_build_deterministic(
    first: SendVersionedTransactionRequestView,
    second: SendVersionedTransactionRequestView,
    first_built: Result<ClientRequestView, ClientError>,
    second_built: Result<ClientRequestView, ClientError>,
)
    requires
        first == second,
        first_built == first.request(),
        second_built == second.request(),
    ensures
        first_built == second_built,
        first.params() == second.params(),
{
}

} // verus!
