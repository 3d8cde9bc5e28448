//! The laws of the escrow protocol, stated over the mathematical models
//! and proved once and for all.
//!
//! Every entry point's own contract equates its result with a spec-level
//! outcome function; the proofs here are therefore statements about those
//! outcome functions, and through the contracts they hold of every run of
//! the executable code.

use vstd::prelude::*;

use crate::assets::{FungibleBucket, NonFungibleBucketModel};
use crate::container::ContainerModel;
use crate::errors::EscrowError;
use crate::orchestrator::{
    CapabilityTokenModel, OrchestratorModel, Step, TicketModel, VaultAccessTokenModel,
};

verus! {

/// One call to a cycle entry point of the orchestrator, as seen by the
/// models. `create_warehouse` is not a cycle call: it is state-independent
/// and never moves the step.
pub ghost enum CycleCall {
    OpenCall { mode: Seq<char>, tx: u64 },
    MintCall { proof: CapabilityTokenModel },
    TakeCall { vnft: VaultAccessTokenModel, tx: u64 },
    FinishCall { ticket: TicketModel },
}

/// The state after one cycle call, or the error that aborts it.
pub open spec fn apply_call(s: OrchestratorModel, c: CycleCall) -> Result<
    OrchestratorModel,
    EscrowError,
> {
    match c {
        CycleCall::OpenCall { mode, tx } => s.open_outcome(mode, tx),
        CycleCall::MintCall { proof } => match s.mint_outcome(proof) {
            Ok(o) => Ok(o.0),
            Err(e) => Err(e),
        },
        CycleCall::TakeCall { vnft, tx } => match s.take_outcome(vnft, tx) {
            Ok(o) => Ok(o.0),
            Err(e) => Err(e),
        },
        CycleCall::FinishCall { ticket } => s.finish_outcome(ticket),
    }
}

/// The state after a whole sequence of cycle calls, every one of which
/// must succeed; otherwise the first error.
pub open spec fn run_calls(s: OrchestratorModel, cs: Seq<CycleCall>) -> Result<
    OrchestratorModel,
    EscrowError,
>
    decreases cs.len(),
{
    if cs.len() == 0 {
        Ok(s)
    } else {
        match apply_call(s, cs[0]) {
            Ok(s1) => run_calls(s1, cs.drop_first()),
            Err(e) => Err(e),
        }
    }
}

/// The successor of each step in the legal call order.
pub open spec fn next_step(s: Step) -> Step {
    match s {
        Step::Open => Step::Proceed,
        Step::Proceed => Step::Close,
        Step::Close => Step::Open,
    }
}

/// The step an orchestrator is at after `n` successful cycle calls
/// starting from `Open`.
pub open spec fn step_at(n: nat) -> Step {
    if n % 3 == 0 {
        Step::Open
    } else if n % 3 == 1 {
        Step::Proceed
    } else {
        Step::Close
    }
}

/// A withdrawal of a given asset container succeeds at most once: a
/// consumed container rejects every withdrawal, and a successful
/// withdrawal leaves the container consumed, so a second withdrawal —
/// whatever unit of work attempts it — always fails with
/// `AlreadyConsumedError`.
pub proof fn lemma_withdraw_at_most_once(c: ContainerModel, tx1: u64, tx2: u64)
    ensures
        c.consumed ==> c.withdraw_outcome(tx1) == Err::<
            (ContainerModel, Seq<NonFungibleBucketModel>, Seq<FungibleBucket>),
            EscrowError,
        >(EscrowError::AlreadyConsumedError),
        c.withdraw_outcome(tx1) matches Ok(o) ==> o.0.consumed,
        c.withdraw_outcome(tx1) matches Ok(o) ==> o.0.withdraw_outcome(tx2) == Err::<
            (ContainerModel, Seq<NonFungibleBucketModel>, Seq<FungibleBucket>),
            EscrowError,
        >(EscrowError::AlreadyConsumedError),
{
}

/// Every successful cycle call moves the step to its unique successor in
/// the cycle `Open -> Proceed -> Close -> Open`: no step can be skipped.
pub proof fn lemma_call_advances_step(s: OrchestratorModel, c: CycleCall)
    ensures
        apply_call(s, c) matches Ok(s1) ==> s1.step == next_step(s.step),
{
}

/// After `n` successful cycle calls from a state at step `step_at(k)`,
/// the orchestrator is at step `step_at(k + n)`.
proof fn lemma_run_calls_step(s: OrchestratorModel, cs: Seq<CycleCall>, k: nat)
    requires
        s.step == step_at(k),
    ensures
        run_calls(s, cs) matches Ok(sn) ==> sn.step == step_at(k + cs.len()),
    decreases cs.len(),
{
    if cs.len() > 0 {
        match apply_call(s, cs[0]) {
            Ok(s1) => {
                lemma_call_advances_step(s, cs[0]);
                assert((k + 1) % 3 == ((k % 3) + 1) % 3) by (nonlinear_arith);
                assert(s1.step == step_at(k + 1));
                lemma_run_calls_step(s1, cs.drop_first(), k + 1);
            },
            Err(_) => {},
        }
    }
}

/// Starting from `Open`, the step after `n` successful cycle calls is
/// `Open`, `Proceed` or `Close` according to `n` modulo three. Calls that
/// all succeed are necessarily made in the exact legal order: any call
/// out of order would have failed.
pub proof fn lemma_step_cycles(s: OrchestratorModel, cs: Seq<CycleCall>)
    requires
        s.step == Step::Open,
    ensures
        run_calls(s, cs) matches Ok(sn) ==> sn.step == step_at(cs.len()),
{
    lemma_run_calls_step(s, cs, 0);
}

/// A container already consumed is untouched by every further successful
/// cycle call: redeeming it again fails, and no other call reaches it.
proof fn lemma_call_preserves_consumed_container(s: OrchestratorModel, c: CycleCall, i: int)
    requires
        0 <= i < s.containers.len(),
        s.containers[i].consumed,
    ensures
        apply_call(s, c) matches Ok(s1) ==> s1.containers.len() == s.containers.len()
            && s1.containers[i] == s.containers[i],
{
}

/// Once a container guarded by the orchestrator is consumed, it stays
/// consumed, unchanged, through every further sequence of successful
/// cycle calls.
pub proof fn lemma_consumed_is_permanent(s: OrchestratorModel, cs: Seq<CycleCall>, i: int)
    requires
        0 <= i < s.containers.len(),
        s.containers[i].consumed,
    ensures
        run_calls(s, cs) matches Ok(sn) ==> sn.containers.len() == s.containers.len()
            && sn.containers[i] == s.containers[i],
    decreases cs.len(),
{
    if cs.len() > 0 {
        match apply_call(s, cs[0]) {
            Ok(s1) => {
                lemma_call_preserves_consumed_container(s, cs[0], i);
                lemma_consumed_is_permanent(s1, cs.drop_first(), i);
            },
            Err(_) => {},
        }
    }
}

/// Redemption of a given asset container succeeds at most once across
/// every sequence of calls: after one successful `take_vnft_assets`,
/// however many further cycle calls succeed, any vault-access token
/// referencing the same container is rejected.
pub proof fn lemma_redeem_at_most_once(
    s: OrchestratorModel,
    v1: VaultAccessTokenModel,
    tx1: u64,
    cs: Seq<CycleCall>,
    v2: VaultAccessTokenModel,
    tx2: u64,
)
    requires
        s.take_outcome(v1, tx1) is Ok,
        run_calls(s.take_outcome(v1, tx1)->Ok_0.0, cs) is Ok,
        v2.container_ref == v1.container_ref,
    ensures
        run_calls(s.take_outcome(v1, tx1)->Ok_0.0, cs)->Ok_0.take_outcome(v2, tx2) is Err,
{
    let s1 = s.take_outcome(v1, tx1)->Ok_0.0;
    lemma_consumed_is_permanent(s1, cs, v1.container_ref as int);
}

/// Every successful cycle call preserves the orchestrator's internal
/// consistency: the ticket-custody/step coupling and the consistency of
/// each guarded container.
pub proof fn lemma_call_preserves_wf(s: OrchestratorModel, c: CycleCall)
    requires
        s.wf(),
    ensures
        apply_call(s, c) matches Ok(s1) ==> s1.wf(),
{
}

/// Internal consistency is an invariant of the whole protocol: it holds
/// after any sequence of successful cycle calls.
pub proof fn lemma_run_preserves_wf(s: OrchestratorModel, cs: Seq<CycleCall>)
    requires
        s.wf(),
    ensures
        run_calls(s, cs) matches Ok(sn) ==> sn.wf(),
    decreases cs.len(),
{
    if cs.len() > 0 {
        match apply_call(s, cs[0]) {
            Ok(s1) => {
                lemma_call_preserves_wf(s, cs[0]);
                lemma_run_preserves_wf(s1, cs.drop_first());
            },
            Err(_) => {},
        }
    }
}

/// `open` called twice within the same atomic unit of work always fails
/// with `DoubleCallError` on the second call, whatever modes the two
/// calls use.
pub proof fn lemma_open_twice_same_tx(
    s: OrchestratorModel,
    mode1: Seq<char>,
    mode2: Seq<char>,
    tx: u64,
)
    ensures
        s.open_outcome(mode1, tx) matches Ok(s1) ==> s1.open_outcome(mode2, tx) == Err::<
            OrchestratorModel,
            EscrowError,
        >(EscrowError::DoubleCallError),
{
}

/// `open` called while the step is not `Open` (by a unit of work that has
/// not called `open` before) fails with `OutOfOrderCallError`; by the
/// entry point's own contract, every failing call leaves the
/// orchestrator, its step included, unchanged.
pub proof fn lemma_open_out_of_order(s: OrchestratorModel, mode: Seq<char>, tx: u64)
    requires
        s.step != Step::Open,
        s.last_call_tx != tx,
    ensures
        s.open_outcome(mode, tx) == Err::<OrchestratorModel, EscrowError>(
            EscrowError::OutOfOrderCallError,
        ),
{
}

/// A vault-access token minted from a capability-token proof always
/// references exactly the container the proof references.
pub proof fn lemma_mint_copies_reference(s: OrchestratorModel, proof: CapabilityTokenModel)
    ensures
        s.mint_outcome(proof) matches Ok(o) ==> o.1.container_ref == proof.container_ref,
{
}

/// Strict ordering even against a plausible alternate path: right after a
/// successful `mint_vnft` the step is `Close`, so redeeming the
/// vault-access token without first going through `finish` and a fresh
/// `open` fails with `OutOfOrderCallError`.
pub proof fn lemma_take_right_after_mint(
    s: OrchestratorModel,
    proof: CapabilityTokenModel,
    vnft: VaultAccessTokenModel,
    tx: u64,
)
    ensures
        s.mint_outcome(proof) matches Ok(o) ==> o.0.take_outcome(vnft, tx) == Err::<
            (OrchestratorModel, Seq<NonFungibleBucketModel>, Seq<FungibleBucket>),
            EscrowError,
        >(EscrowError::OutOfOrderCallError),
{
}

/// Two units of work race for the same unlock cycle: when both attempt
/// `open` at step `Open`, whichever commits first succeeds, and the other
/// — serialized after it — fails with `OutOfOrderCallError`, whatever
/// mode either of them used.
pub proof fn lemma_open_race(
    s: OrchestratorModel,
    mode1: Seq<char>,
    mode2: Seq<char>,
    tx1: u64,
    tx2: u64,
)
    requires
        tx1 != tx2,
    ensures
        s.open_outcome(mode1, tx1) matches Ok(s1) ==> s1.open_outcome(mode2, tx2) == Err::<
            OrchestratorModel,
            EscrowError,
        >(EscrowError::OutOfOrderCallError),
{
}

/// The full legal round trip through one deposit and one redemption:
/// deposit, open for withdrawal, mint the vault-access token, close the
/// cycle, open a fresh one, redeem. The chain of spec-level outcomes, or
/// the first error.
pub open spec fn round_trip_outcome(
    s0: OrchestratorModel,
    nft: Seq<NonFungibleBucketModel>,
    ft: Seq<FungibleBucket>,
    account: u64,
    tx1: u64,
    tx2: u64,
) -> Result<(OrchestratorModel, Seq<NonFungibleBucketModel>, Seq<FungibleBucket>), EscrowError> {
    let created = s0.create_outcome(nft, ft, account);
    match created.0.open_outcome("withdraw"@, tx1) {
        Err(e) => Err(e),
        Ok(s2) => match s2.mint_outcome(created.1) {
            Err(e) => Err(e),
            Ok(minted) => match minted.0.finish_outcome(TicketModel { issuer: s0.id }) {
                Err(e) => Err(e),
                Ok(s4) => match s4.open_outcome("withdraw"@, tx2) {
                    Err(e) => Err(e),
                    Ok(s5) => s5.take_outcome(minted.1, tx2),
                },
            },
        },
    }
}

/// Round trip: depositing a bundle of assets, minting the vault-access
/// token within one unlock cycle and redeeming it within the next returns
/// exactly the assets originally deposited, and leaves the container
/// consumed, with the redeeming unit of work on record. The two `open`
/// calls must come from distinct units of work, both distinct from the
/// last one the orchestrator saw.
pub proof fn lemma_round_trip(
    s0: OrchestratorModel,
    nft: Seq<NonFungibleBucketModel>,
    ft: Seq<FungibleBucket>,
    account: u64,
    tx1: u64,
    tx2: u64,
)
    requires
        s0.wf(),
        s0.step == Step::Open,
        s0.containers.len() <= u64::MAX,
        tx1 != s0.last_call_tx,
        tx2 != tx1,
    ensures
        round_trip_outcome(s0, nft, ft, account, tx1, tx2) matches Ok(o) && o.1 == nft && o.2 == ft
            && o.0.containers.len() == s0.containers.len() + 1 && o.0.containers[s0.containers.len() as int]
            == (ContainerModel {
            non_fungible: Seq::empty(),
            fungible: Seq::empty(),
            consumed: true,
            consumed_by: Some(tx2),
        }),
{
    let created = s0.create_outcome(nft, ft, account);
    let s1 = created.0;
    let cap = created.1;
    assert(s1.open_outcome("withdraw"@, tx1) is Ok);
    let s2 = s1.open_outcome("withdraw"@, tx1)->Ok_0;
    assert(s2.mint_outcome(cap) is Ok);
    let minted = s2.mint_outcome(cap)->Ok_0;
    let s3 = minted.0;
    let vnft = minted.1;
    assert(s3.finish_outcome(TicketModel { issuer: s0.id }) is Ok);
    let s4 = s3.finish_outcome(TicketModel { issuer: s0.id })->Ok_0;
    assert(s4.open_outcome("withdraw"@, tx2) is Ok);
    let s5 = s4.open_outcome("withdraw"@, tx2)->Ok_0;
    assert(vnft.container_ref == s0.containers.len());
    assert(s5.containers[vnft.container_ref as int] == (ContainerModel {
        non_fungible: nft,
        fungible: ft,
        consumed: false,
        consumed_by: None,
    }));
    assert(s5.take_outcome(vnft, tx2) is Ok);
}

} // verus!
