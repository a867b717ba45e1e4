use vstd::prelude::*;
use crate::error::{outcome, ClientError};

verus! {

/// `solana_sdk::transaction::VersionedTransaction`: a transaction in one of
/// the message layouts, with its signatures. It is carried through untouched;
/// nothing here looks inside.
#[verifier::external_type_specification]
#[verifier::external_body]
pub struct ExVersionedTransaction(solana_sdk::transaction::VersionedTransaction);

/// `VersionedTransaction::clone`, which the type derives: the copy has the
/// same signatures and the same message.
pub assume_specification[ <solana_sdk::transaction::VersionedTransaction as Clone>::clone ](
    transaction: &solana_sdk::transaction::VersionedTransaction,
) -> (copy: solana_sdk::transaction::VersionedTransaction)
    ensures
        copy == *transaction,
;

/// `bincode::ErrorKind`: why bincode could not write a value.
#[verifier::external_type_specification]
#[verifier::external_body]
pub struct ExBincodeErrorKind(bincode::ErrorKind);

/// The compact binary form that bincode gives a transaction, or `None` for a
/// transaction that it cannot write, such as one that holds a list too long
/// for a short vector's 16-bit count.
pub uninterp spec fn wire_bytes(
    transaction: solana_sdk::transaction::VersionedTransaction,
) -> Option<Seq<u8>>;

/// `bincode::serialize` on a transaction: fixed-width integers, the layout
/// that the transaction's own `Serialize` impl lays down. The outcome depends
/// on the transaction alone, which is all that the contract claims.
#[verifier::external_body]
fn bincode_serialize(transaction: &solana_sdk::transaction::VersionedTransaction) -> (written:
    Result<Vec<u8>, Box<bincode::ErrorKind>>)
    ensures
        match written {
            Ok(bytes) => wire_bytes(*transaction) == Some(bytes@),
            Err(_) => wire_bytes(*transaction) is None,
        },
{
    bincode::serialize(transaction)
}

/// What `serialize` returns for a transaction with the given binary form.
pub open spec fn serialized(bytes: Option<Seq<u8>>) -> Result<Seq<u8>, ClientError> {
    match bytes {
        Some(b) => Ok(b),
        None => Err(ClientError::Serialization),
    }
}

/// Writes the transaction in its compact binary form.
pub fn serialize(transaction: &solana_sdk::transaction::VersionedTransaction) -> (written: Result<
    Vec<u8>,
    ClientError,
>)
    ensures
        outcome(written) == serialized(wire_bytes(*transaction)),
{
    match bincode_serialize(transaction) {
        Ok(bytes) => Ok(bytes),
        Err(_) => Err(ClientError::Serialization),
    }
}

} // verus!
