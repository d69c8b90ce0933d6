//! Value-transfer spend certificates, modelled by what the quorum protocol
//! reads of them: the public identifier of the spent token and the remaining
//! certificate content as bytes.
//!
//! The cryptographic validity rules of a certificate are a collaborator's
//! concern; the protocol core only routes certificates by their identifier
//! and compares them structurally, so that two certificates for one
//! identifier that disagree in content are never merged.

use vstd::prelude::*;

use crate::address::{bytes_eq, content_hash, copy_bytes, hash_content, DbcAddress};

verus! {

/// The public identifier of a spendable token, as bytes.
#[derive(Debug, PartialEq, Eq)]
pub struct DbcId {
    pub bytes: Vec<u8>,
}

impl View for DbcId {
    type V = Seq<u8>;

    open spec fn view(&self) -> Seq<u8> {
        self.bytes@
    }
}

impl Clone for DbcId {
    fn clone(&self) -> (res: Self)
        ensures
            res@ == self@,
    {
        DbcId { bytes: copy_bytes(&self.bytes) }
    }
}

impl DbcId {
    /// Whether two identifiers name the same token.
    pub fn equals(&self, other: &DbcId) -> (r: bool)
        ensures
            r == (self@ == other@),
    {
        bytes_eq(&self.bytes, &other.bytes)
    }
}

/// The view of a signed spend: the identifier and the certificate content.
pub struct SpendView {
    pub id: Seq<u8>,
    pub content: Seq<u8>,
}

/// A signed certificate asserting that the token with identifier `id` was
/// spent. Two certificates with one identifier but different content are a
/// double spend.
#[derive(Debug, PartialEq, Eq)]
pub struct SignedSpend {
    pub id: DbcId,
    pub content: Vec<u8>,
}

impl View for SignedSpend {
    type V = SpendView;

    open spec fn view(&self) -> SpendView {
        SpendView { id: self.id@, content: self.content@ }
    }
}

impl Clone for SignedSpend {
    fn clone(&self) -> (res: Self)
        ensures
            res@ == self@,
    {
        SignedSpend { id: self.id.clone(), content: copy_bytes(&self.content) }
    }
}

impl SignedSpend {
    /// The identifier of the token this certificate spends.
    pub fn dbc_id(&self) -> (r: &DbcId)
        ensures
            r@ == self@.id,
    {
        &self.id
    }

    /// Structural equality: same identifier and same content. This is the
    /// comparison that groups replicas during majority agreement.
    pub fn same_spend(&self, other: &SignedSpend) -> (r: bool)
        ensures
            r == (self@ == other@),
    {
        let ids = bytes_eq(&self.id.bytes, &other.id.bytes);
        let contents = bytes_eq(&self.content, &other.content);
        ids && contents
    }
}

/// A request to record a spend: the certificate and the transaction it spends
/// from, the latter kept as bytes since only peers inspect it.
#[derive(Debug, PartialEq, Eq)]
pub struct SpendRequest {
    pub signed_spend: SignedSpend,
    pub parent_tx: Vec<u8>,
}

impl DbcAddress {
    /// The network address of every certificate for one token: derived from
    /// the token's public identifier alone, so all replicas of a spend route
    /// to the same close group.
    pub fn from_dbc_id(dbc_id: &DbcId) -> (a: DbcAddress)
        ensures
            a@ == content_hash(dbc_id@),
    {
        DbcAddress(hash_content(&dbc_id.bytes))
    }
}

} // verus!
