//! Caller-supplied proof records, already resolved to plain values.
//!
//! Restriction checks must read other entities' ledger records (token
//! balances, collection metadata).  The dispatcher resolves each auxiliary
//! record it was handed into an `AccountRecord` — its address, the program
//! that owns it, and its parsed content — and the evaluator works on that
//! list alone.  A record that parses as neither shape is `Raw`.

use vstd::prelude::*;

use crate::Address;

verus! {

/// The collection declared by a metadata record.
#[derive(Clone, Copy, Debug, PartialEq, Eq, Structural)]
pub struct CollectionRef {
    /// Whether the collection link was verified by the collection authority.
    pub verified: bool,
    /// The collection's asset address.
    pub key: Address,
}

/// What the restriction checks read from an asset-registry metadata
/// record: which asset it describes, and the collection it declares.
#[derive(Clone, Copy, Debug)]
pub struct Metadata {
    /// The asset this metadata record belongs to.
    pub mint: Address,
    /// The declared collection, if any.
    pub collection: Option<CollectionRef>,
}

/// What a proof record holds, as far as the checks here read it.
#[derive(Clone, Copy, Debug)]
pub enum RecordContent {
    /// A token balance record: `owner` holds `amount` units of `mint`.
    TokenAccount { owner: Address, mint: Address, amount: u64 },
    /// The asset registry's metadata record.
    Metadata(Metadata),
    /// Anything else.
    Raw,
}

/// One resolved proof record.
#[derive(Clone, Copy, Debug)]
pub struct AccountRecord {
    /// The record's own address.
    pub key: Address,
    /// The program that owns the record.
    pub owner_program: Address,
    /// The record's parsed content.
    pub content: RecordContent,
}

} // verus!
