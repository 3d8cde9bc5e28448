//! The one-shot asset container.
//!
//! A container is assembled once from a fixed set of fungible and
//! non-fungible buckets and supports exactly one withdrawal for its entire
//! lifetime. After the withdrawal it stays around, permanently empty, so
//! that the identifier of the atomic unit of work that consumed it remains
//! auditable.

use vstd::prelude::*;

use crate::assets::{nf_views, FungibleBucket, NonFungibleBucket, NonFungibleBucketModel};
use crate::errors::EscrowError;

verus! {

/// The mathematical value of an [`AssetContainer`].
pub ghost struct ContainerModel {
    pub non_fungible: Seq<NonFungibleBucketModel>,
    pub fungible: Seq<FungibleBucket>,
    pub consumed: bool,
    pub consumed_by: Option<u64>,
}

impl ContainerModel {
    /// Internal consistency of a container: the consumption flag and the
    /// consumer record agree, and a consumed container holds nothing.
    pub open spec fn wf(self) -> bool {
        &&& self.consumed <==> self.consumed_by is Some
        &&& self.consumed ==> self.non_fungible.len() == 0 && self.fungible.len() == 0
    }

    /// What `withdraw` does to a container model: the outcome of draining
    /// it within atomic unit of work `tx`, or the error if it was already
    /// consumed.
    pub open spec fn withdraw_outcome(self, tx: u64) -> Result<
        (ContainerModel, Seq<NonFungibleBucketModel>, Seq<FungibleBucket>),
        EscrowError,
    > {
        if self.consumed {
            Err(EscrowError::AlreadyConsumedError)
        } else {
            Ok(
                (
                    ContainerModel {
                        non_fungible: Seq::empty(),
                        fungible: Seq::empty(),
                        consumed: true,
                        consumed_by: Some(tx),
                    },
                    self.non_fungible,
                    self.fungible,
                ),
            )
        }
    }
}

/// A one-shot custody object holding a fixed bundle of fungible and
/// non-fungible buckets.
pub struct AssetContainer {
    non_fungible: Vec<NonFungibleBucket>,
    fungible: Vec<FungibleBucket>,
    consumed: bool,
    consumed_by: Option<u64>,
}

impl View for AssetContainer {
    type V = ContainerModel;

    closed spec fn view(&self) -> ContainerModel {
        ContainerModel {
            non_fungible: nf_views(self.non_fungible@),
            fungible: self.fungible@,
            consumed: self.consumed,
            consumed_by: self.consumed_by,
        }
    }
}

impl AssetContainer {
    /// Wraps the given buckets into a fresh, unconsumed container. No
    /// validation is performed: zero or more buckets of each kind are
    /// accepted as they are.
    pub fn instantiate(nft: Vec<NonFungibleBucket>, ft: Vec<FungibleBucket>) -> (c:
        AssetContainer)
        ensures
            c@.non_fungible == nf_views(nft@),
            c@.fungible == ft@,
            !c@.consumed,
            c@.consumed_by is None,
            c@.wf(),
    {
        AssetContainer { non_fungible: nft, fungible: ft, consumed: false, consumed_by: None }
    }

    /// Drains the container within atomic unit of work `tx` and returns the
    /// drained contents, or fails if it was already consumed. A failure
    /// leaves the container untouched; a success leaves it permanently
    /// empty, with `tx` recorded as its consumer.
    pub fn withdraw(&mut self, tx: u64) -> (r: Result<
        (Vec<NonFungibleBucket>, Vec<FungibleBucket>),
        EscrowError,
    >)
        ensures
            old(self)@.withdraw_outcome(tx) matches Ok(o) ==> r matches Ok(b) && final(self)@
                == o.0 && nf_views(b.0@) == o.1 && b.1@ == o.2,
            old(self)@.withdraw_outcome(tx) matches Err(e) ==> r matches Err(a) && a == e
                && final(self)@ == old(self)@,
            old(self)@.wf() ==> final(self)@.wf(),
    {
        if self.consumed {
            return Err(EscrowError::AlreadyConsumedError);
        }
        self.consumed = true;
        self.consumed_by = Some(tx);
        let mut nft: Vec<NonFungibleBucket> = Vec::new();
        let mut ft: Vec<FungibleBucket> = Vec::new();
        core::mem::swap(&mut self.non_fungible, &mut nft);
        core::mem::swap(&mut self.fungible, &mut ft);
        assert(nf_views(Seq::<NonFungibleBucket>::empty()) =~= Seq::<
            NonFungibleBucketModel,
        >::empty());
        Ok((nft, ft))
    }

    /// Whether this container has already been withdrawn.
    pub fn consumed(&self) -> (r: bool)
        ensures
            r == self@.consumed,
    {
        self.consumed
    }

    /// The atomic unit of work that consumed this container, if any.
    pub fn consumed_by(&self) -> (r: Option<u64>)
        ensures
            r == self@.consumed_by,
    {
        self.consumed_by
    }
}

} // verus!
