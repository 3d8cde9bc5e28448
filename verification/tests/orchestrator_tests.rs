use avago_warehouse::assets::{FungibleBucket, NonFungibleBucket};
use avago_warehouse::errors::EscrowError;
use avago_warehouse::orchestrator::EscrowOrchestrator;

const ORCH_ID: u64 = 7;
const CREATION_TX: u64 = 100;
const ACCOUNT: u64 = 4242;

fn fresh() -> EscrowOrchestrator {
    EscrowOrchestrator::instantiate(ORCH_ID, CREATION_TX)
}

fn one_of_each() -> (Vec<NonFungibleBucket>, Vec<FungibleBucket>) {
    // One non-fungible item of kind Y = 2 and one fungible unit of kind X = 1.
    (vec![NonFungibleBucket { kind: 2, ids: vec![77] }], vec![FungibleBucket {
        kind: 1,
        amount: 1,
    }])
}

#[test]
fn fresh_orchestrator_state() {
    let o = fresh();
    assert!(o.ticket_in_custody());
    assert!(!o.vnft_withdrawable());
    assert!(!o.vnft_depositable());
}

#[test]
fn create_warehouse_mints_capability_token() {
    let mut o = fresh();
    let (nft, ft) = one_of_each();
    let cap = o.create_warehouse(nft, ft, ACCOUNT);
    assert_eq!(cap.container_ref(), 0);
    assert_eq!(cap.owner_identity(), ACCOUNT);
    assert_eq!(o.container_consumed(&cap), Some(false));
    // A second deposit gets the next container.
    let (nft2, ft2) = one_of_each();
    let cap2 = o.create_warehouse(nft2, ft2, ACCOUNT + 1);
    assert_eq!(cap2.container_ref(), 1);
}

#[test]
fn open_releases_ticket_and_sets_mode() {
    let mut o = fresh();
    let ticket = o.open("withdraw".to_owned(), 101).unwrap();
    assert!(!o.ticket_in_custody());
    assert!(o.vnft_withdrawable());
    assert!(!o.vnft_depositable());
    drop(ticket);

    let mut o2 = fresh();
    assert!(o2.open("deposit".to_owned(), 101).is_ok());
    assert!(o2.vnft_depositable());
    assert!(!o2.vnft_withdrawable());
}

#[test]
fn open_rejects_unknown_mode() {
    let mut o = fresh();
    assert_eq!(o.open("sideways".to_owned(), 101).unwrap_err(), EscrowError::InvalidModeError);
    // The failed call is rolled back entirely: the same unit of work can
    // still open with a recognized mode.
    assert!(o.open("withdraw".to_owned(), 101).is_ok());
}

#[test]
fn open_twice_in_one_tx_fails() {
    let mut o = fresh();
    // The instantiation transaction itself cannot call open.
    assert_eq!(
        o.open("withdraw".to_owned(), CREATION_TX).unwrap_err(),
        EscrowError::DoubleCallError
    );
    // A full cycle, then a second open from the same unit of work that
    // opened it: DoubleCallError, regardless of mode.
    let (nft, ft) = one_of_each();
    let cap = o.create_warehouse(nft, ft, ACCOUNT);
    let ticket = o.open("withdraw".to_owned(), 101).unwrap();
    let _vnft = o.mint_vnft(&cap).unwrap();
    o.finish(ticket).unwrap();
    assert_eq!(o.open("withdraw".to_owned(), 101).unwrap_err(), EscrowError::DoubleCallError);
    assert_eq!(o.open("deposit".to_owned(), 101).unwrap_err(), EscrowError::DoubleCallError);
}

#[test]
fn open_out_of_order_fails_and_changes_nothing() {
    let mut o = fresh();
    let (nft, ft) = one_of_each();
    let cap = o.create_warehouse(nft, ft, ACCOUNT);
    let _ticket = o.open("withdraw".to_owned(), 101).unwrap();
    // step is now Proceed: a fresh unit of work cannot open.
    assert_eq!(o.open("deposit".to_owned(), 102).unwrap_err(), EscrowError::OutOfOrderCallError);
    // The step was left unchanged: mint_vnft still succeeds.
    assert!(o.mint_vnft(&cap).is_ok());
}

#[test]
fn concurrent_opens_one_wins() {
    // Two units of work race for open("deposit") while the step is Open;
    // the host serializes them. The winner transitions the step; the loser
    // observes the stale step and fails.
    let mut o = fresh();
    assert!(o.open("deposit".to_owned(), 101).is_ok());
    assert_eq!(o.open("deposit".to_owned(), 102).unwrap_err(), EscrowError::OutOfOrderCallError);
}

#[test]
fn mint_vnft_copies_container_reference() {
    let mut o = fresh();
    let (nft, ft) = one_of_each();
    let _cap0 = o.create_warehouse(nft, ft, ACCOUNT);
    let (nft2, ft2) = one_of_each();
    let cap1 = o.create_warehouse(nft2, ft2, ACCOUNT + 1);
    let _ticket = o.open("withdraw".to_owned(), 101).unwrap();
    let vnft = o.mint_vnft(&cap1).unwrap();
    assert_eq!(vnft.container_ref(), cap1.container_ref());
    assert_eq!(vnft.container_ref(), 1);
}

#[test]
fn mint_vnft_requires_proceed_step() {
    let mut o = fresh();
    let (nft, ft) = one_of_each();
    let cap = o.create_warehouse(nft, ft, ACCOUNT);
    assert_eq!(o.mint_vnft(&cap).unwrap_err(), EscrowError::OutOfOrderCallError);
}

#[test]
fn mint_vnft_rejects_foreign_capability_token() {
    let mut alpha = EscrowOrchestrator::instantiate(1, CREATION_TX);
    let mut beta = EscrowOrchestrator::instantiate(2, CREATION_TX);
    let (nft, ft) = one_of_each();
    let cap_alpha = alpha.create_warehouse(nft, ft, ACCOUNT);
    let _ticket = beta.open("withdraw".to_owned(), 101).unwrap();
    assert_eq!(beta.mint_vnft(&cap_alpha).unwrap_err(), EscrowError::ProofVerificationError);
}

#[test]
fn take_vnft_assets_rejects_foreign_token() {
    let mut alpha = EscrowOrchestrator::instantiate(1, CREATION_TX);
    let mut beta = EscrowOrchestrator::instantiate(2, CREATION_TX);
    let (nft, ft) = one_of_each();
    let cap_beta = beta.create_warehouse(nft, ft, ACCOUNT);
    let _tb = beta.open("withdraw".to_owned(), 101).unwrap();
    let vnft_beta = beta.mint_vnft(&cap_beta).unwrap();
    let _ta = alpha.open("withdraw".to_owned(), 101).unwrap();
    assert_eq!(
        alpha.take_vnft_assets(vnft_beta, 102).unwrap_err(),
        EscrowError::ProofVerificationError
    );
}

#[test]
fn finish_rejects_foreign_ticket() {
    let mut alpha = EscrowOrchestrator::instantiate(1, CREATION_TX);
    let mut beta = EscrowOrchestrator::instantiate(2, CREATION_TX);
    let (nft, ft) = one_of_each();
    let cap = alpha.create_warehouse(nft, ft, ACCOUNT);
    let ticket_alpha = alpha.open("withdraw".to_owned(), 101).unwrap();
    let _v = alpha.mint_vnft(&cap).unwrap();
    let ticket_beta = beta.open("withdraw".to_owned(), 101).unwrap();
    assert_eq!(alpha.finish(ticket_beta).unwrap_err(), EscrowError::ProofVerificationError);
    // The genuine ticket still closes the cycle.
    assert!(alpha.finish(ticket_alpha).is_ok());
}

#[test]
fn finish_requires_close_step() {
    let mut o = fresh();
    let ticket = o.open("withdraw".to_owned(), 101).unwrap();
    assert_eq!(o.finish(ticket).unwrap_err(), EscrowError::OutOfOrderCallError);
}

#[test]
fn finish_resets_permissions_and_ticket() {
    let mut o = fresh();
    let (nft, ft) = one_of_each();
    let cap = o.create_warehouse(nft, ft, ACCOUNT);
    let ticket = o.open("deposit".to_owned(), 101).unwrap();
    let _vnft = o.mint_vnft(&cap).unwrap();
    o.finish(ticket).unwrap();
    assert!(o.ticket_in_custody());
    assert!(o.vnft_withdrawable());
    assert!(!o.vnft_depositable());
}

#[test]
fn strict_order_blocks_alternate_path() {
    // Deposit one fungible unit of kind X and one non-fungible item of
    // kind Y, then try the plausible-looking shortcut: open, mint, redeem
    // within the same cycle. The redemption must wait for the next cycle.
    let mut o = fresh();
    let (nft, ft) = one_of_each();
    let cap = o.create_warehouse(nft, ft, ACCOUNT);
    let ticket = o.open("withdraw".to_owned(), 101).unwrap();
    let vnft = o.mint_vnft(&cap).unwrap();
    // step is Close, not Proceed: redemption is out of order here.
    let vnft = match o.take_vnft_assets(vnft, 101) {
        Err(e) => {
            assert_eq!(e, EscrowError::OutOfOrderCallError);
            // The failed call burned nothing: mint a fresh token the
            // legal way after re-opening.
            o.finish(ticket).unwrap();
            let t2 = o.open("withdraw".to_owned(), 102).unwrap();
            let v2 = o.mint_vnft(&cap).unwrap();
            o.finish(t2).unwrap();
            v2
        },
        Ok(_) => panic!("redemption must not succeed at step Close"),
    };
    let _t3 = o.open("withdraw".to_owned(), 103).unwrap();
    let (nft_out, ft_out) = o.take_vnft_assets(vnft, 103).unwrap();
    let (nft_in, ft_in) = one_of_each();
    assert_eq!(nft_out, nft_in);
    assert_eq!(ft_out, ft_in);
}

#[test]
fn round_trip_returns_exact_deposit() {
    let mut o = fresh();
    let nft_in = vec![
        NonFungibleBucket { kind: 5, ids: vec![1, 2, 3] },
        NonFungibleBucket { kind: 6, ids: vec![9] },
    ];
    let ft_in = vec![FungibleBucket { kind: 1, amount: 500 }, FungibleBucket {
        kind: 3,
        amount: 42,
    }];
    let cap = o.create_warehouse(nft_in.clone(), ft_in.clone(), ACCOUNT);
    let ticket = o.open("withdraw".to_owned(), 101).unwrap();
    let vnft = o.mint_vnft(&cap).unwrap();
    o.finish(ticket).unwrap();
    let ticket2 = o.open("withdraw".to_owned(), 102).unwrap();
    let (nft_out, ft_out) = o.take_vnft_assets(vnft, 102).unwrap();
    assert_eq!(nft_out, nft_in);
    assert_eq!(ft_out, ft_in);
    assert_eq!(o.container_consumed(&cap), Some(true));
    assert!(o.finish(ticket2).is_ok());
}

#[test]
fn consumed_container_rejects_second_redemption() {
    let mut o = fresh();
    let (nft, ft) = one_of_each();
    let cap = o.create_warehouse(nft, ft, ACCOUNT);
    let ticket = o.open("withdraw".to_owned(), 101).unwrap();
    let vnft = o.mint_vnft(&cap).unwrap();
    o.finish(ticket).unwrap();
    let ticket2 = o.open("withdraw".to_owned(), 102).unwrap();
    assert!(o.take_vnft_assets(vnft, 102).is_ok());
    o.finish(ticket2).unwrap();
    // Mint a second vault-access token from the capability token, which
    // is never burned, and try to redeem the same container again.
    let ticket3 = o.open("withdraw".to_owned(), 103).unwrap();
    let vnft2 = o.mint_vnft(&cap).unwrap();
    o.finish(ticket3).unwrap();
    let _ticket4 = o.open("withdraw".to_owned(), 104).unwrap();
    assert_eq!(o.take_vnft_assets(vnft2, 104).unwrap_err(), EscrowError::AlreadyConsumedError);
}

#[test]
fn legal_order_cycles_through_steps() {
    // Three successful calls per cycle; after each whole cycle the
    // orchestrator accepts the next open, and within a cycle it does not.
    let mut o = fresh();
    let (nft, ft) = one_of_each();
    let cap = o.create_warehouse(nft, ft, ACCOUNT);
    let mut tx: u64 = 101;
    for _round in 0..3 {
        let ticket = o.open("withdraw".to_owned(), tx).unwrap();
        // step = Proceed: a second open is out of order.
        assert_eq!(
            o.open("withdraw".to_owned(), tx + 1000).unwrap_err(),
            EscrowError::OutOfOrderCallError
        );
        let _vnft = o.mint_vnft(&cap).unwrap();
        // step = Close: minting again is out of order.
        assert_eq!(o.mint_vnft(&cap).unwrap_err(), EscrowError::OutOfOrderCallError);
        o.finish(ticket).unwrap();
        // step = Open again: finishing again is out of order.
        assert!(o.ticket_in_custody());
        tx += 1;
    }
}

#[test]
fn error_descriptions_are_nonempty() {
    let errors = [
        EscrowError::AlreadyConsumedError,
        EscrowError::OutOfOrderCallError,
        EscrowError::DoubleCallError,
        EscrowError::InvalidModeError,
        EscrowError::ProofVerificationError,
    ];
    for e in errors {
        assert!(!e.describe().is_empty());
    }
}
