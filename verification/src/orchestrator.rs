//! The escrow orchestrator: capability tokens, the vault-access token
//! permissions, the scarce mutual-exclusion ticket, and the three-step
//! call-ordering state machine that gates every unlock cycle.
//!
//! Each entry point runs as one atomic unit of work: on any error the
//! orchestrator is left exactly as it was, which models the host
//! environment rolling the failed unit of work back.

use vstd::prelude::*;

use crate::assets::{nf_views, FungibleBucket, NonFungibleBucket, NonFungibleBucketModel};
use crate::container::{AssetContainer, ContainerModel};
use crate::errors::EscrowError;

verus! {

/// The call-ordering state. Every unlock cycle walks
/// `Open -> Proceed -> Close` and back to `Open`; no step can be skipped
/// or replayed.
#[derive(Clone, Copy, Debug, PartialEq, Eq, Structural)]
pub enum Step {
    Open,
    Proceed,
    Close,
}

/// A non-fungible credential minted on deposit. Possession proves the
/// right to mint a vault-access token for one specific asset container.
/// Its fields are immutable and only the orchestrator can create one.
#[derive(Debug)]
pub struct CapabilityToken {
    issuer: u64,
    container_ref: u64,
    owner_identity: u64,
}

/// The mathematical value of a [`CapabilityToken`].
pub ghost struct CapabilityTokenModel {
    pub issuer: u64,
    pub container_ref: u64,
    pub owner_identity: u64,
}

impl View for CapabilityToken {
    type V = CapabilityTokenModel;

    closed spec fn view(&self) -> CapabilityTokenModel {
        CapabilityTokenModel {
            issuer: self.issuer,
            container_ref: self.container_ref,
            owner_identity: self.owner_identity,
        }
    }
}

impl CapabilityToken {
    /// The asset container this token grants access to.
    pub fn container_ref(&self) -> (r: u64)
        ensures
            r == self@.container_ref,
    {
        self.container_ref
    }

    /// The opaque identity of the owning party, stored at mint time and
    /// never inspected by the core.
    pub fn owner_identity(&self) -> (r: u64)
        ensures
            r == self@.owner_identity,
    {
        self.owner_identity
    }
}

/// A redeemable non-fungible credential. Burning it (by handing it to
/// `take_vnft_assets`) withdraws the referenced asset container.
#[derive(Debug)]
pub struct VaultAccessToken {
    issuer: u64,
    container_ref: u64,
}

/// The mathematical value of a [`VaultAccessToken`].
pub ghost struct VaultAccessTokenModel {
    pub issuer: u64,
    pub container_ref: u64,
}

impl View for VaultAccessToken {
    type V = VaultAccessTokenModel;

    closed spec fn view(&self) -> VaultAccessTokenModel {
        VaultAccessTokenModel { issuer: self.issuer, container_ref: self.container_ref }
    }
}

impl VaultAccessToken {
    /// The asset container this token can be redeemed for.
    pub fn container_ref(&self) -> (r: u64)
        ensures
            r == self@.container_ref,
    {
        self.container_ref
    }
}

/// The single scarce mutual-exclusion ticket. Exactly one exists per
/// orchestrator; whoever holds it is the one party inside an unlock
/// cycle. It is deliberately neither `Clone` nor `Copy`: possession is
/// linear, so the scarcity that makes the ticket a capacity-one
/// semaphore is enforced by ownership itself.
#[derive(Debug)]
pub struct Ticket {
    issuer: u64,
}

/// The mathematical value of a [`Ticket`].
pub ghost struct TicketModel {
    pub issuer: u64,
}

impl View for Ticket {
    type V = TicketModel;

    closed spec fn view(&self) -> TicketModel {
        TicketModel { issuer: self.issuer }
    }
}

/// The mathematical values of a list of asset containers.
pub open spec fn container_views(s: Seq<AssetContainer>) -> Seq<ContainerModel> {
    s.map_values(|c: AssetContainer| c@)
}

/// The mathematical value of an [`EscrowOrchestrator`].
pub ghost struct OrchestratorModel {
    pub id: u64,
    pub containers: Seq<ContainerModel>,
    pub vnft_withdrawable: bool,
    pub vnft_depositable: bool,
    pub ticket_in_custody: bool,
    pub step: Step,
    pub last_call_tx: u64,
}

impl OrchestratorModel {
    /// Internal consistency of an orchestrator: the scarce ticket sits in
    /// internal custody exactly while the cycle is idle at `Open`, and
    /// every container it guards is itself consistent.
    pub open spec fn wf(self) -> bool {
        &&& self.ticket_in_custody <==> self.step == Step::Open
        &&& forall|i: int| 0 <= i < self.containers.len() ==> self.containers[i].wf()
    }

    /// What `create_warehouse` does: the successor state with one more,
    /// fresh container, and the capability token minted for it.
    pub open spec fn create_outcome(
        self,
        nf: Seq<NonFungibleBucketModel>,
        ft: Seq<FungibleBucket>,
        account: u64,
    ) -> (OrchestratorModel, CapabilityTokenModel) {
        (
            (OrchestratorModel {
                containers: self.containers.push(
                    ContainerModel {
                        non_fungible: nf,
                        fungible: ft,
                        consumed: false,
                        consumed_by: None,
                    },
                ),
                ..self
            }),
            CapabilityTokenModel {
                issuer: self.id,
                container_ref: self.containers.len() as u64,
                owner_identity: account,
            },
        )
    }

    /// What `open` does for mode `mode` within atomic unit of work `tx`:
    /// either the successor state, or the error that aborts the unit of
    /// work. The same-transaction guard is checked first, then the call
    /// order, then the mode.
    pub open spec fn open_outcome(self, mode: Seq<char>, tx: u64) -> Result<
        OrchestratorModel,
        EscrowError,
    > {
        if self.last_call_tx == tx {
            Err(EscrowError::DoubleCallError)
        } else if self.step != Step::Open {
            Err(EscrowError::OutOfOrderCallError)
        } else if mode == "withdraw"@ {
            Ok(
                (OrchestratorModel {
                    vnft_withdrawable: true,
                    ticket_in_custody: false,
                    step: Step::Proceed,
                    last_call_tx: tx,
                    ..self
                }),
            )
        } else if mode == "deposit"@ {
            Ok(
                (OrchestratorModel {
                    vnft_depositable: true,
                    ticket_in_custody: false,
                    step: Step::Proceed,
                    last_call_tx: tx,
                    ..self
                }),
            )
        } else {
            Err(EscrowError::InvalidModeError)
        }
    }

    /// What `mint_vnft` does for a capability-token proof: either the
    /// successor state and the vault-access token, whose container
    /// reference is copied from the proof, or the error that aborts the
    /// unit of work.
    pub open spec fn mint_outcome(self, proof: CapabilityTokenModel) -> Result<
        (OrchestratorModel, VaultAccessTokenModel),
        EscrowError,
    > {
        if self.step != Step::Proceed {
            Err(EscrowError::OutOfOrderCallError)
        } else if proof.issuer != self.id {
            Err(EscrowError::ProofVerificationError)
        } else {
            Ok(
                (
                    (OrchestratorModel { step: Step::Close, ..self }),
                    VaultAccessTokenModel { issuer: self.id, container_ref: proof.container_ref },
                ),
            )
        }
    }

    /// What `take_vnft_assets` does when a vault-access token is redeemed
    /// within atomic unit of work `tx`: either the successor state and the
    /// drained contents of the referenced container, or the error that
    /// aborts the unit of work.
    pub open spec fn take_outcome(self, vnft: VaultAccessTokenModel, tx: u64) -> Result<
        (OrchestratorModel, Seq<NonFungibleBucketModel>, Seq<FungibleBucket>),
        EscrowError,
    > {
        if self.step != Step::Proceed {
            Err(EscrowError::OutOfOrderCallError)
        } else if vnft.issuer != self.id || vnft.container_ref >= self.containers.len() {
            Err(EscrowError::ProofVerificationError)
        } else {
            match self.containers[vnft.container_ref as int].withdraw_outcome(tx) {
                Ok(o) => Ok(
                    (
                        (OrchestratorModel {
                            containers: self.containers.update(vnft.container_ref as int, o.0),
                            step: Step::Close,
                            ..self
                        }),
                        o.1,
                        o.2,
                    ),
                ),
                Err(e) => Err(e),
            }
        }
    }

    /// What `finish` does when the mutual-exclusion ticket is handed back:
    /// either the successor state, with the ticket in internal custody and
    /// the vault-access token permissions reset to "deposit denied,
    /// withdraw allowed", or the error that aborts the unit of work.
    pub open spec fn finish_outcome(self, ticket: TicketModel) -> Result<
        OrchestratorModel,
        EscrowError,
    > {
        if self.step != Step::Close {
            Err(EscrowError::OutOfOrderCallError)
        } else if ticket.issuer != self.id {
            Err(EscrowError::ProofVerificationError)
        } else {
            Ok(
                (OrchestratorModel {
                    vnft_withdrawable: true,
                    vnft_depositable: false,
                    ticket_in_custody: true,
                    step: Step::Open,
                    ..self
                }),
            )
        }
    }
}

/// The escrow orchestrator. It owns the asset containers, the two token
/// issuers, the single mutual-exclusion ticket, and the call-ordering
/// state.
pub struct EscrowOrchestrator {
    id: u64,
    containers: Vec<AssetContainer>,
    vnft_withdrawable: bool,
    vnft_depositable: bool,
    ticket_in_custody: bool,
    step: Step,
    last_call_tx: u64,
}

impl View for EscrowOrchestrator {
    type V = OrchestratorModel;

    closed spec fn view(&self) -> OrchestratorModel {
        OrchestratorModel {
            id: self.id,
            containers: container_views(self.containers@),
            vnft_withdrawable: self.vnft_withdrawable,
            vnft_depositable: self.vnft_depositable,
            ticket_in_custody: self.ticket_in_custody,
            step: self.step,
            last_call_tx: self.last_call_tx,
        }
    }
}

impl EscrowOrchestrator {
    /// Creates a fresh orchestrator identified by `id`, within atomic unit
    /// of work `tx`.
    ///
    /// The mutual-exclusion ticket is minted directly into internal
    /// custody, and the state machine starts at `Open` so that the very
    /// first unlock cycle can begin; vault-access tokens start neither
    /// withdrawable nor depositable. Recording `tx` means `open` cannot be
    /// called within the unit of work that created the orchestrator.
    pub fn instantiate(id: u64, tx: u64) -> (o: EscrowOrchestrator)
        ensures
            o@ == (OrchestratorModel {
                id,
                containers: Seq::empty(),
                vnft_withdrawable: false,
                vnft_depositable: false,
                ticket_in_custody: true,
                step: Step::Open,
                last_call_tx: tx,
            }),
            o@.wf(),
    {
        let o = EscrowOrchestrator {
            id,
            containers: Vec::new(),
            vnft_withdrawable: false,
            vnft_depositable: false,
            ticket_in_custody: true,
            step: Step::Open,
            last_call_tx: tx,
        };
        proof {
            assert(container_views(o.containers@) =~= Seq::<ContainerModel>::empty());
        }
        o
    }

    /// Deposits the given buckets: creates a fresh asset container around
    /// them and mints the capability token that references it together
    /// with the opaque identity `account` of the owning party. This entry
    /// point is state-independent: it never fails and leaves the call
    /// ordering untouched.
    pub fn create_warehouse(
        &mut self,
        nft: Vec<NonFungibleBucket>,
        ft: Vec<FungibleBucket>,
        account: u64,
    ) -> (t: CapabilityToken)
        ensures
            final(self)@ == old(self)@.create_outcome(nf_views(nft@), ft@, account).0,
            t@ == old(self)@.create_outcome(nf_views(nft@), ft@, account).1,
            old(self)@.wf() ==> final(self)@.wf(),
    {
        let container_ref = self.containers.len() as u64;
        let container = AssetContainer::instantiate(nft, ft);
        self.containers.push(container);
        let t = CapabilityToken { issuer: self.id, container_ref, owner_identity: account };
        proof {
            let (m, tm) = old(self)@.create_outcome(nf_views(nft@), ft@, account);
            assert(container_views(self.containers@) =~= m.containers);
            assert(self@ == m);
        }
        t
    }

    /// Starts an unlock cycle in the given mode (`"withdraw"` or
    /// `"deposit"`), within atomic unit of work `tx`: makes vault-access
    /// tokens transferable per the mode and releases the mutual-exclusion
    /// ticket to the caller. Fails if `tx` already called `open`, if the
    /// current step is not `Open`, or if the mode is not recognized; a
    /// failure leaves the orchestrator unchanged.
    pub fn open(&mut self, mode: String, tx: u64) -> (r: Result<Ticket, EscrowError>)
        ensures
            old(self)@.open_outcome(mode@, tx) matches Ok(m) ==> r matches Ok(t) && final(self)@
                == m && t@.issuer == old(self)@.id,
            old(self)@.open_outcome(mode@, tx) matches Err(e) ==> r matches Err(a) && a == e
                && final(self)@ == old(self)@,
            old(self)@.wf() ==> final(self)@.wf(),
    {
        if self.last_call_tx == tx {
            return Err(EscrowError::DoubleCallError);
        }
        if self.step != Step::Open {
            return Err(EscrowError::OutOfOrderCallError);
        }
        if mode == "withdraw".to_owned() {
            self.vnft_withdrawable = true;
        } else if mode == "deposit".to_owned() {
            self.vnft_depositable = true;
        } else {
            return Err(EscrowError::InvalidModeError);
        }
        self.ticket_in_custody = false;
        self.step = Step::Proceed;
        self.last_call_tx = tx;
        Ok(Ticket { issuer: self.id })
    }

    /// Redeems a capability-token proof for a fresh vault-access token
    /// whose container reference is copied from the proof. Fails if the
    /// current step is not `Proceed` or if the proof was not issued by
    /// this orchestrator; a failure leaves the orchestrator unchanged.
    pub fn mint_vnft(&mut self, owner_nft: &CapabilityToken) -> (r: Result<
        VaultAccessToken,
        EscrowError,
    >)
        ensures
            old(self)@.mint_outcome(owner_nft@) matches Ok(o) ==> r matches Ok(v) && final(self)@
                == o.0 && v@ == o.1,
            old(self)@.mint_outcome(owner_nft@) matches Err(e) ==> r matches Err(a) && a == e
                && final(self)@ == old(self)@,
            old(self)@.wf() ==> final(self)@.wf(),
    {
        if self.step != Step::Proceed {
            return Err(EscrowError::OutOfOrderCallError);
        }
        if owner_nft.issuer != self.id {
            return Err(EscrowError::ProofVerificationError);
        }
        self.step = Step::Close;
        Ok(VaultAccessToken { issuer: self.id, container_ref: owner_nft.container_ref })
    }

    /// Burns the presented vault-access token and withdraws the asset
    /// container it references, within atomic unit of work `tx`. Fails if
    /// the current step is not `Proceed`, if the token was not issued by
    /// this orchestrator, or if the container was already consumed; a
    /// failure leaves the orchestrator unchanged.
    pub fn take_vnft_assets(&mut self, vnft: VaultAccessToken, tx: u64) -> (r: Result<
        (Vec<NonFungibleBucket>, Vec<FungibleBucket>),
        EscrowError,
    >)
        ensures
            old(self)@.take_outcome(vnft@, tx) matches Ok(o) ==> r matches Ok(b) && final(self)@
                == o.0 && nf_views(b.0@) == o.1 && b.1@ == o.2,
            old(self)@.take_outcome(vnft@, tx) matches Err(e) ==> r matches Err(a) && a == e
                && final(self)@ == old(self)@,
            old(self)@.wf() ==> final(self)@.wf(),
    {
        if self.step != Step::Proceed {
            return Err(EscrowError::OutOfOrderCallError);
        }
        let n = self.containers.len();
        if vnft.issuer != self.id || vnft.container_ref >= (n as u64) {
            return Err(EscrowError::ProofVerificationError);
        }
        let idx = vnft.container_ref as usize;
        if self.containers[idx].consumed() {
            return Err(EscrowError::AlreadyConsumedError);
        }
        self.step = Step::Close;
        let r = self.containers[idx].withdraw(tx);
        proof {
            let o = old(self)@.take_outcome(vnft@, tx)->Ok_0;
            assert(container_views(self.containers@) =~= o.0.containers);
            assert(self@ == o.0);
        }
        match r {
            Ok(b) => Ok(b),
            Err(_) => Err(EscrowError::AlreadyConsumedError),
        }
    }

    /// Ends an unlock cycle: takes the mutual-exclusion ticket back into
    /// internal custody and resets the vault-access token permissions to
    /// "deposit denied, withdraw allowed". Fails if the current step is
    /// not `Close` or if the ticket was not minted by this orchestrator; a
    /// failure leaves the orchestrator unchanged.
    pub fn finish(&mut self, ticket: Ticket) -> (r: Result<(), EscrowError>)
        ensures
            old(self)@.finish_outcome(ticket@) matches Ok(m) ==> r matches Ok(u) && final(self)@
                == m,
            old(self)@.finish_outcome(ticket@) matches Err(e) ==> r matches Err(a) && a == e
                && final(self)@ == old(self)@,
            old(self)@.wf() ==> final(self)@.wf(),
    {
        if self.step != Step::Close {
            return Err(EscrowError::OutOfOrderCallError);
        }
        if ticket.issuer != self.id {
            return Err(EscrowError::ProofVerificationError);
        }
        self.step = Step::Open;
        self.ticket_in_custody = true;
        self.vnft_depositable = false;
        self.vnft_withdrawable = true;
        Ok(())
    }

    /// Whether vault-access tokens are currently withdrawable.
    pub fn vnft_withdrawable(&self) -> (r: bool)
        ensures
            r == self@.vnft_withdrawable,
    {
        self.vnft_withdrawable
    }

    /// Whether vault-access tokens currently accept deposits.
    pub fn vnft_depositable(&self) -> (r: bool)
        ensures
            r == self@.vnft_depositable,
    {
        self.vnft_depositable
    }

    /// Whether the mutual-exclusion ticket currently sits in internal
    /// custody (no unlock cycle in progress).
    pub fn ticket_in_custody(&self) -> (r: bool)
        ensures
            r == self@.ticket_in_custody,
    {
        self.ticket_in_custody
    }

    /// Whether the container referenced by the given capability token has
    /// already been consumed.
    pub fn container_consumed(&self, token: &CapabilityToken) -> (r: Option<bool>)
        ensures
            token@.issuer == self@.id && token@.container_ref < self@.containers.len() ==> r
                == Some(self@.containers[token@.container_ref as int].consumed),
            !(token@.issuer == self@.id && token@.container_ref < self@.containers.len()) ==> r
                is None,
    {
        let n = self.containers.len();
        if token.issuer != self.id || token.container_ref >= (n as u64) {
            return None;
        }
        let idx = token.container_ref as usize;
        Some(self.containers[idx].consumed())
    }
}

} // verus!
