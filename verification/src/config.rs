use vstd::prelude::*;
use crate::encoding::Encoding;
use crate::json::{members_view, Json, JsonNumber, JsonValue};

verus! {

/// How settled the ledger state must be against which the node runs its
/// preflight checks. The first five are old names that nodes still accept.
#[derive(Clone, Copy, Debug, PartialEq, Eq, Structural)]
pub enum CommitmentLevel {
    Max,
    Recent,
    Root,
    Single,
    SingleGossip,
    Processed,
    Confirmed,
    Finalized,
}

impl CommitmentLevel {
    /// The name by which the node knows the level.
    pub open spec fn name(self) -> Seq<char> {
        match self {
            CommitmentLevel::Max => "max"@,
            CommitmentLevel::Recent => "recent"@,
            CommitmentLevel::Root => "root"@,
            CommitmentLevel::Single => "single"@,
            CommitmentLevel::SingleGossip => "singleGossip"@,
            CommitmentLevel::Processed => "processed"@,
            CommitmentLevel::Confirmed => "confirmed"@,
            CommitmentLevel::Finalized => "finalized"@,
        }
    }

    /// The level's name, as it is written into the options.
    pub fn as_str(&self) -> (name: &'static str)
        ensures
            name@ == self.name(),
    {
        match self {
            CommitmentLevel::Max => "max",
            CommitmentLevel::Recent => "recent",
            CommitmentLevel::Root => "root",
            CommitmentLevel::Single => "single",
            CommitmentLevel::SingleGossip => "singleGossip",
            CommitmentLevel::Processed => "processed",
            CommitmentLevel::Confirmed => "confirmed",
            CommitmentLevel::Finalized => "finalized",
        }
    }
}

/// The options that the node accepts with a submitted transaction. Only
/// `encoding` is read here; the record as a whole is handed to the node as
/// the caller made it.
#[derive(Clone, Copy, Debug, PartialEq, Eq, Structural)]
pub struct RpcSendTransactionConfig {
    pub skip_preflight: bool,
    pub preflight_commitment: Option<CommitmentLevel>,
    pub encoding: Option<Encoding>,
    pub max_retries: Option<usize>,
    pub min_context_slot: Option<u64>,
}

impl Default for RpcSendTransactionConfig {
    /// The options of a caller who asks for nothing.
    fn default() -> (config: Self)
        ensures
            config == (RpcSendTransactionConfig {
                skip_preflight: false,
                preflight_commitment: None,
                encoding: None,
                max_retries: None,
                min_context_slot: None,
            }),
    {
        RpcSendTransactionConfig {
            skip_preflight: false,
            preflight_commitment: None,
            encoding: None,
            max_retries: None,
            min_context_slot: None,
        }
    }
}

/// One member of an object if there is a value for it, none otherwise.
pub open spec fn optional_member(key: Seq<char>, value: Option<Json>) -> Seq<(Seq<char>, Json)> {
    match value {
        Some(v) => seq![(key, v)],
        None => Seq::empty(),
    }
}

/// The encoding that governs the transaction's text: the one that the
/// configuration names, base64 where there is no configuration or it names none.
pub open spec fn effective_encoding_of(config: Option<RpcSendTransactionConfig>) -> Encoding {
    match config {
        Some(c) => match c.encoding {
            Some(e) => e,
            None => Encoding::Base64,
        },
        None => Encoding::Base64,
    }
}

impl RpcSendTransactionConfig {
    /// The value under `preflightCommitment`, if the level is set.
    pub open spec fn commitment_json(self) -> Option<Json> {
        match self.preflight_commitment {
            Some(level) => Some(Json::String(level.name())),
            None => None,
        }
    }

    /// The value under `encoding`, if the encoding is set.
    pub open spec fn encoding_json(self) -> Option<Json> {
        match self.encoding {
            Some(encoding) => Some(Json::String(encoding.name())),
            None => None,
        }
    }

    /// The value under `maxRetries`, if the number is set.
    pub open spec fn max_retries_json(self) -> Option<Json> {
        match self.max_retries {
            Some(n) => Some(Json::Number(JsonNumber::Unsigned(n as u64))),
            None => None,
        }
    }

    /// The value under `minContextSlot`, if the slot is set.
    pub open spec fn min_context_slot_json(self) -> Option<Json> {
        match self.min_context_slot {
            Some(slot) => Some(Json::Number(JsonNumber::Unsigned(slot))),
            None => None,
        }
    }

    /// The members of the record's wire form, in order: `skipPreflight`
    /// always, each of the others only where it is set.
    pub open spec fn json_members(self) -> Seq<(Seq<char>, Json)> {
        seq![("skipPreflight"@, Json::Bool(self.skip_preflight))]
            + optional_member("preflightCommitment"@, self.commitment_json())
            + optional_member("encoding"@, self.encoding_json())
            + optional_member("maxRetries"@, self.max_retries_json())
            + optional_member("minContextSlot"@, self.min_context_slot_json())
    }

    /// The record's wire form.
    pub open spec fn json(self) -> Json {
        Json::Object(self.json_members())
    }

    /// No key occurs twice in the record's wire form, so each option is
    /// written once and the object says the same whatever order it is read in.
    pub proof fn lemma_json_keys_distinct(self)
        ensures
            forall|i: int, j: int|
                0 <= i < j < self.json_members().len() ==> (#[trigger] self.json_members()[i]).0
                    != (#[trigger] self.json_members()[j]).0,
    {
        reveal_strlit("skipPreflight");
        reveal_strlit("preflightCommitment");
        reveal_strlit("encoding");
        reveal_strlit("maxRetries");
        reveal_strlit("minContextSlot");
        let members = self.json_members();
        let first = seq![("skipPreflight"@, Json::Bool(self.skip_preflight))];
        let second = optional_member("preflightCommitment"@, self.commitment_json());
        let third = optional_member("encoding"@, self.encoding_json());
        let fourth = optional_member("maxRetries"@, self.max_retries_json());
        let fifth = optional_member("minContextSlot"@, self.min_context_slot_json());
        assert(members == first + second + third + fourth + fifth);
        assert forall|i: int, j: int| 0 <= i < j < members.len() implies (#[trigger] members[i]).0
            != (#[trigger] members[j]).0 by {
            assert(members[i].0.len() != members[j].0.len());
        }
    }

    /// Writes the record as the object that goes on the wire. A field that is
    /// not set leaves no member behind, not even a null.
    pub fn to_json(&self) -> (value: JsonValue)
        ensures
            value@ == self.json(),
    {
        let mut members: Vec<(String, JsonValue)> = Vec::new();
        members.push(("skipPreflight".to_owned(), JsonValue::Bool(self.skip_preflight)));
        let ghost head = seq![("skipPreflight"@, Json::Bool(self.skip_preflight))];
        assert(members_view(members@) =~= head);
        if let Some(level) = self.preflight_commitment {
            members.push(("preflightCommitment".to_owned(), JsonValue::string(level.as_str())));
        }
        let ghost with_commitment = head + optional_member(
            "preflightCommitment"@,
            self.commitment_json(),
        );
        assert(members_view(members@) =~= with_commitment);
        if let Some(encoding) = self.encoding {
            members.push(("encoding".to_owned(), JsonValue::string(encoding.as_str())));
        }
        let ghost with_encoding = with_commitment + optional_member(
            "encoding"@,
            self.encoding_json(),
        );
        assert(members_view(members@) =~= with_encoding);
        if let Some(n) = self.max_retries {
            members.push(
                ("maxRetries".to_owned(), JsonValue::Number(JsonNumber::Unsigned(n as u64))),
            );
        }
        let ghost with_retries = with_encoding + optional_member(
            "maxRetries"@,
            self.max_retries_json(),
        );
        assert(members_view(members@) =~= with_retries);
        if let Some(slot) = self.min_context_slot {
            members.push(
                ("minContextSlot".to_owned(), JsonValue::Number(JsonNumber::Unsigned(slot))),
            );
        }
        assert(members_view(members@) =~= self.json_members());
        JsonValue::object(members)
    }
}

/// The encoding in which the transaction's bytes are to be written.
pub fn effective_encoding(config: Option<RpcSendTransactionConfig>) -> (encoding: Encoding)
    ensures
        encoding == effective_encoding_of(config),
{
    match config {
        Some(c) => match c.encoding {
            Some(e) => e,
            None => Encoding::Base64,
        },
        None => Encoding::Base64,
    }
}

} // verus!
