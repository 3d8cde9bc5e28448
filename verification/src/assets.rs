//! Plain-value models of the asset bundles held in escrow.
//!
//! Asset kinds and non-fungible item identifiers are opaque integers handed
//! in by the caller; the core never interprets them. A fungible bucket is an
//! amount of one kind; a non-fungible bucket is a collection of uniquely
//! identified items of one kind.

use vstd::prelude::*;

verus! {

/// An amount of one fungible asset kind.
#[derive(Clone, Copy, Debug, PartialEq, Eq, Structural)]
pub struct FungibleBucket {
    /// The asset kind this bucket holds.
    pub kind: u64,
    /// How many indivisible units of that kind it holds.
    pub amount: u64,
}

/// A collection of uniquely identified non-fungible items of one kind.
#[derive(Clone, Debug, PartialEq, Eq)]
pub struct NonFungibleBucket {
    /// The asset kind this bucket holds.
    pub kind: u64,
    /// The identifiers of the items it holds.
    pub ids: Vec<u64>,
}

/// The mathematical value of a [`NonFungibleBucket`].
pub ghost struct NonFungibleBucketModel {
    pub kind: u64,
    pub ids: Seq<u64>,
}

impl View for NonFungibleBucket {
    type V = NonFungibleBucketModel;

    open spec fn view(&self) -> NonFungibleBucketModel {
        NonFungibleBucketModel { kind: self.kind, ids: self.ids@ }
    }
}

/// The mathematical values of a list of non-fungible buckets.
pub open spec fn nf_views(s: Seq<NonFungibleBucket>) -> Seq<NonFungibleBucketModel> {
    s.map_values(|b: NonFungibleBucket| b@)
}

} // verus!
