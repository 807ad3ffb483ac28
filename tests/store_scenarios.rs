use transaction_logger::appic_events::{
    Event, EventPayload, EventSource, TransactionReceipt, TransactionStatus, UnsignedTransaction,
};
use transaction_logger::apply::{apply_event, apply_events};
use transaction_logger::guard::TaskType;
use transaction_logger::ids::{ChainId, EvmAddress, Oprator, PrincipalId};
use transaction_logger::numeric::BigNat;
use transaction_logger::scrape_events::{
    next_page, observe_event_count, scrape_page, try_lock_task, unlock_task, ScrapeError, PAGE_SIZE,
};
use transaction_logger::event_conversion::Events;
use transaction_logger::state::{
    ApplyError, Erc20Identifier, EvmToIcpStatus, EvmToIcpTx, EvmToIcpTxIdentifier, IcpToEvmIdentifier,
    IcpToEvmStatus, Minter, MinterKey, State,
};

const HASH_AA: &str = "0xaaaaaaaaaaaaaaaaaaaaaaaaaaaaaaaaaaaaaaaaaaaaaaaaaaaaaaaaaaaaaaaa";
const FROM_F00: &str = "0xf000000000000000000000000000000000000000";
const ERC20_DEAD: &str = "0xdead000000000000000000000000000000000000";
const DEST_BEEF: &str = "0xbeef000000000000000000000000000000000000";
const HASH_CAFE: &str = "0xcafe000000000000000000000000000000000000000000000000000000000000";

fn n(v: u64) -> BigNat {
    BigNat::from_u64(v)
}

fn principal() -> PrincipalId {
    PrincipalId(vec![7, 7, 1])
}

fn minter(evm_to_icp_fee: u64, icp_to_evm_fee: u64) -> Minter {
    Minter {
        id: PrincipalId(vec![1]),
        last_observed_event: 0,
        last_scraped_event: 0,
        oprator: Oprator::AppicMinter,
        evm_to_icp_fee: n(evm_to_icp_fee),
        icp_to_evm_fee: n(icp_to_evm_fee),
        chain_id: ChainId(1),
    }
}

fn ev(timestamp: u64, payload: EventPayload) -> Event {
    Event { timestamp, payload }
}

fn accepted_deposit(hash: &str, value: u64) -> EventPayload {
    EventPayload::AcceptedDeposit {
        transaction_hash: hash.to_string(),
        block_number: n(100),
        log_index: n(0),
        from_address: FROM_F00.to_string(),
        value: n(value),
        principal: principal(),
        subaccount: None,
    }
}

fn minted_native(hash: &str) -> EventPayload {
    EventPayload::MintedNative {
        event_source: EventSource { transaction_hash: hash.to_string(), log_index: n(0) },
        mint_block_index: n(7),
    }
}

fn pending_deposit(hash: &str, time: u64) -> EvmToIcpTx {
    EvmToIcpTx {
        from_address: EvmAddress::parse(FROM_F00).unwrap(),
        transaction_hash: hash.to_string(),
        value: n(1_000_000),
        block_number: None,
        actual_received: None,
        principal: principal(),
        subaccount: None,
        chain_id: ChainId(1),
        total_gas_spent: None,
        erc20_contract_address: EvmAddress::native(),
        icrc_ledger_id: None,
        status: EvmToIcpStatus::PendingVerification,
        verified: false,
        time,
        oprator: Oprator::AppicMinter,
    }
}

fn evm_id(hash: &str) -> EvmToIcpTxIdentifier {
    EvmToIcpTxIdentifier::new(&hash.to_string(), &ChainId(1))
}

fn icp_id(index: u64) -> IcpToEvmIdentifier {
    IcpToEvmIdentifier::new(&n(index), &ChainId(1))
}

fn unsigned() -> UnsignedTransaction {
    UnsignedTransaction {
        chain_id: n(1),
        nonce: n(0),
        max_priority_fee_per_gas: n(1),
        max_fee_per_gas: n(2),
        gas_limit: n(21_000),
        destination: DEST_BEEF.to_string(),
        value: n(1),
        data: vec![],
    }
}

#[test]
fn native_deposit_happy_path() {
    let mut state = State::new();
    state.record_new_evm_to_icp(evm_id(HASH_AA), pending_deposit(HASH_AA, 5));
    let m = minter(1_000, 0);
    assert_eq!(apply_event(&mut state, ev(50, accepted_deposit(HASH_AA, 1_000_000)), &m), Ok(()));
    assert_eq!(apply_event(&mut state, ev(60, minted_native(HASH_AA)), &m), Ok(()));
    let tx = state.evm_to_icp_txs.get(&evm_id(HASH_AA)).unwrap();
    assert_eq!(tx.status, EvmToIcpStatus::Minted);
    assert!(tx.verified);
    assert_eq!(tx.block_number.as_ref().unwrap().to_u64(), Some(100));
    assert_eq!(tx.actual_received.as_ref().unwrap().to_u64(), Some(999_000));
    assert_eq!(tx.time, 5);
}

#[test]
fn erc20_withdrawal_refund_path() {
    let mut state = State::new();
    let m = minter(0, 0);
    let accepted = EventPayload::AcceptedErc20WithdrawalRequest {
        max_transaction_fee: n(30_000),
        withdrawal_amount: n(5_000_000),
        erc20_contract_address: ERC20_DEAD.to_string(),
        destination: DEST_BEEF.to_string(),
        native_ledger_burn_index: n(42),
        erc20_ledger_id: PrincipalId(vec![9]),
        erc20_ledger_burn_index: n(9),
        from: principal(),
        from_subaccount: None,
        created_at: 11,
    };
    let failed = EventPayload::FailedErc20WithdrawalRequest {
        withdrawal_id: n(42),
        reimbursed_amount: n(5_000_000),
        to: principal(),
        to_subaccount: None,
    };
    assert_eq!(apply_event(&mut state, ev(20, accepted), &m), Ok(()));
    assert_eq!(apply_event(&mut state, ev(30, failed), &m), Ok(()));
    let tx = state.icp_to_evm_txs.get(&icp_id(42)).unwrap();
    assert_eq!(tx.status, IcpToEvmStatus::Failed);
    assert!(tx.actual_received.is_none());
    assert_eq!(tx.time, 11);
    assert_eq!(tx.erc20_ledger_burn_index.as_ref().unwrap().to_u64(), Some(9));
}

fn native_withdrawal_events() -> Vec<Event> {
    vec![
        ev(
            1,
            EventPayload::AcceptedNativeWithdrawalRequest {
                withdrawal_amount: n(10_000_000),
                destination: DEST_BEEF.to_string(),
                ledger_burn_index: n(5),
                from: principal(),
                from_subaccount: None,
                created_at: None,
            },
        ),
        ev(2, EventPayload::CreatedTransaction { withdrawal_id: n(5), transaction: unsigned() }),
        ev(3, EventPayload::SignedTransaction { withdrawal_id: n(5), raw_transaction: "0x02".to_string() }),
        ev(
            4,
            EventPayload::FinalizedTransaction {
                withdrawal_id: n(5),
                transaction_receipt: TransactionReceipt {
                    block_hash: HASH_AA.to_string(),
                    block_number: n(900),
                    effective_gas_price: n(100),
                    gas_used: n(21_000),
                    status: TransactionStatus::Success,
                    transaction_hash: HASH_CAFE.to_string(),
                },
            },
        ),
    ]
}

#[test]
fn native_withdrawal_finalization() {
    let mut state = State::new();
    let m = minter(0, 2_000);
    assert_eq!(apply_events(&mut state, native_withdrawal_events(), &m), Ok(()));
    let tx = state.icp_to_evm_txs.get(&icp_id(5)).unwrap();
    assert_eq!(tx.status, IcpToEvmStatus::Successful);
    assert_eq!(tx.toatal_gas_spent.as_ref().unwrap().to_u64(), Some(2_102_000));
    assert_eq!(tx.actual_received.as_ref().unwrap().to_u64(), Some(7_898_000));
    assert_eq!(tx.transaction_hash.as_deref(), Some(HASH_CAFE));
    assert_eq!(tx.time, 1);
}

#[test]
fn replay_in_one_pass_matches_event_by_event() {
    let m = minter(0, 2_000);
    let mut whole = State::new();
    assert_eq!(apply_events(&mut whole, native_withdrawal_events(), &m), Ok(()));
    let mut stepwise = State::new();
    for e in native_withdrawal_events() {
        assert_eq!(apply_event(&mut stepwise, e, &m), Ok(()));
    }
    let a = whole.icp_to_evm_txs.get(&icp_id(5)).unwrap();
    let b = stepwise.icp_to_evm_txs.get(&icp_id(5)).unwrap();
    assert_eq!(a, b);
    assert_eq!(whole.icp_to_evm_txs.len(), stepwise.icp_to_evm_txs.len());
}

#[test]
fn erc20_finalization_receives_full_amount() {
    let mut state = State::new();
    let m = minter(0, 2_000);
    let accepted = EventPayload::AcceptedErc20WithdrawalRequest {
        max_transaction_fee: n(30_000),
        withdrawal_amount: n(500),
        erc20_contract_address: ERC20_DEAD.to_string(),
        destination: DEST_BEEF.to_string(),
        native_ledger_burn_index: n(8),
        erc20_ledger_id: PrincipalId(vec![9]),
        erc20_ledger_burn_index: n(3),
        from: principal(),
        from_subaccount: None,
        created_at: 11,
    };
    let finalized = EventPayload::FinalizedTransaction {
        withdrawal_id: n(8),
        transaction_receipt: TransactionReceipt {
            block_hash: HASH_AA.to_string(),
            block_number: n(900),
            effective_gas_price: n(100),
            gas_used: n(21_000),
            status: TransactionStatus::Failure,
            transaction_hash: HASH_CAFE.to_string(),
        },
    };
    assert_eq!(apply_event(&mut state, ev(1, accepted), &m), Ok(()));
    assert_eq!(apply_event(&mut state, ev(2, finalized), &m), Ok(()));
    let tx = state.icp_to_evm_txs.get(&icp_id(8)).unwrap();
    assert_eq!(tx.status, IcpToEvmStatus::Failed);
    assert_eq!(tx.actual_received.as_ref().unwrap().to_u64(), Some(500));
    assert_eq!(tx.toatal_gas_spent.as_ref().unwrap().to_u64(), Some(2_102_000));
}

#[test]
fn finalization_underflow_is_refused() {
    let mut state = State::new();
    let m = minter(0, 2_000);
    let mut events = native_withdrawal_events();
    events[0] = ev(
        1,
        EventPayload::AcceptedNativeWithdrawalRequest {
            withdrawal_amount: n(1_000),
            destination: DEST_BEEF.to_string(),
            ledger_burn_index: n(5),
            from: principal(),
            from_subaccount: None,
            created_at: Some(3),
        },
    );
    assert_eq!(apply_events(&mut state, events.clone(), &m), Err(ApplyError::ArithmeticUnderflow));
    assert_eq!(state.icp_to_evm_txs.len(), 0);
    for e in events {
        let _ = apply_event(&mut state, e, &m);
    }
    let tx = state.icp_to_evm_txs.get(&icp_id(5)).unwrap();
    assert_eq!(tx.status, IcpToEvmStatus::SignedTransaction);
    assert!(tx.actual_received.is_none());
    assert_eq!(tx.time, 3);
}

#[test]
fn mint_fee_above_value_is_refused() {
    let mut state = State::new();
    let m = minter(5_000, 0);
    assert_eq!(apply_event(&mut state, ev(1, accepted_deposit(HASH_AA, 4_000)), &m), Ok(()));
    assert_eq!(apply_event(&mut state, ev(2, minted_native(HASH_AA)), &m), Err(ApplyError::ArithmeticUnderflow));
    let tx = state.evm_to_icp_txs.get(&evm_id(HASH_AA)).unwrap();
    assert_eq!(tx.status, EvmToIcpStatus::Accepted);
}

#[test]
fn erc20_mint_receives_full_value() {
    let mut state = State::new();
    let m = minter(5_000, 0);
    assert_eq!(apply_event(&mut state, ev(1, accepted_deposit(HASH_AA, 4_000)), &m), Ok(()));
    let minted = EventPayload::MintedErc20 {
        event_source: EventSource { transaction_hash: HASH_AA.to_string(), log_index: n(0) },
        mint_block_index: n(1),
        erc20_token_symbol: "ckUSDC".to_string(),
        erc20_contract_address: ERC20_DEAD.to_string(),
    };
    assert_eq!(apply_event(&mut state, ev(2, minted), &m), Ok(()));
    let tx = state.evm_to_icp_txs.get(&evm_id(HASH_AA)).unwrap();
    assert_eq!(tx.actual_received.as_ref().unwrap().to_u64(), Some(4_000));
    assert_eq!(tx.erc20_contract_address, EvmAddress::parse(ERC20_DEAD).unwrap());
}

#[test]
fn bad_address_is_an_invalid_event() {
    let mut state = State::new();
    let m = minter(0, 0);
    let payload = EventPayload::AcceptedDeposit {
        transaction_hash: HASH_AA.to_string(),
        block_number: n(1),
        log_index: n(0),
        from_address: "0x1234".to_string(),
        value: n(1),
        principal: principal(),
        subaccount: None,
    };
    assert_eq!(apply_event(&mut state, ev(1, payload), &m), Err(ApplyError::InvalidEvent));
    assert!(!state.if_evm_to_icp_tx_exists(&evm_id(HASH_AA)));
}

#[test]
fn events_for_missing_transfers_are_ignored() {
    let mut state = State::new();
    let m = minter(1_000, 0);
    assert_eq!(apply_event(&mut state, ev(1, minted_native(HASH_AA)), &m), Ok(()));
    let quarantined = EventPayload::QuarantinedDeposit {
        event_source: EventSource { transaction_hash: HASH_AA.to_string(), log_index: n(0) },
    };
    assert_eq!(apply_event(&mut state, ev(2, quarantined), &m), Ok(()));
    assert_eq!(state.evm_to_icp_txs.len(), 0);
}

#[test]
fn acceptance_applied_twice_is_idempotent() {
    let m = minter(0, 0);
    let mut once = State::new();
    apply_event(&mut once, ev(9, accepted_deposit(HASH_AA, 77)), &m).unwrap();
    let mut twice = State::new();
    apply_event(&mut twice, ev(9, accepted_deposit(HASH_AA, 77)), &m).unwrap();
    apply_event(&mut twice, ev(9, accepted_deposit(HASH_AA, 77)), &m).unwrap();
    assert_eq!(once.evm_to_icp_txs.get(&evm_id(HASH_AA)), twice.evm_to_icp_txs.get(&evm_id(HASH_AA)));
    assert_eq!(twice.evm_to_icp_txs.len(), 1);
}

#[test]
fn acceptance_keeps_preregistered_time_and_looks_up_twin() {
    let mut state = State::new();
    let ledger = PrincipalId(vec![4, 4]);
    state.record_token_pair(
        Erc20Identifier::new(&EvmAddress::native(), &ChainId(1)),
        &Oprator::AppicMinter,
        ledger.clone(),
    );
    let m = minter(0, 0);
    apply_event(&mut state, ev(70, accepted_deposit(HASH_AA, 10)), &m).unwrap();
    let fresh = state.evm_to_icp_txs.get(&evm_id(HASH_AA)).unwrap();
    assert_eq!(fresh.icrc_ledger_id, Some(ledger));
    assert_eq!(fresh.time, 70);
    assert!(fresh.verified);
}

#[test]
fn quarantined_and_invalid_deposits() {
    let mut state = State::new();
    let m = minter(0, 0);
    apply_event(&mut state, ev(1, accepted_deposit(HASH_AA, 10)), &m).unwrap();
    let invalid = EventPayload::InvalidDeposit {
        event_source: EventSource { transaction_hash: HASH_AA.to_string(), log_index: n(0) },
        reason: "bad".to_string(),
    };
    apply_event(&mut state, ev(2, invalid), &m).unwrap();
    assert_eq!(
        state.evm_to_icp_txs.get(&evm_id(HASH_AA)).unwrap().status,
        EvmToIcpStatus::Invalid("bad".to_string())
    );
}

#[test]
fn unverified_sweep() {
    let mut state = State::new();
    state.record_new_evm_to_icp(evm_id(HASH_AA), pending_deposit(HASH_AA, 0));
    state.remove_expired_unverified_txs(30, 60);
    assert!(state.if_evm_to_icp_tx_exists(&evm_id(HASH_AA)));
    state.remove_expired_unverified_txs(61, 60);
    assert!(!state.if_evm_to_icp_tx_exists(&evm_id(HASH_AA)));
}

#[test]
fn sweep_spares_verified_transfers() {
    let mut state = State::new();
    let mut tx = pending_deposit(HASH_AA, 0);
    tx.verified = true;
    tx.status = EvmToIcpStatus::Accepted;
    state.record_new_evm_to_icp(evm_id(HASH_AA), tx);
    state.record_new_evm_to_icp(evm_id(HASH_CAFE), pending_deposit(HASH_CAFE, 0));
    assert_eq!(state.all_unverified_evm_to_icp().len(), 1);
    state.remove_expired_unverified_txs(1_000, 60);
    assert!(state.if_evm_to_icp_tx_exists(&evm_id(HASH_AA)));
    assert!(!state.if_evm_to_icp_tx_exists(&evm_id(HASH_CAFE)));
}

#[test]
fn task_lock_exclusion() {
    let mut state = State::new();
    assert!(try_lock_task(&mut state, TaskType::ScrapeEvents));
    assert!(!try_lock_task(&mut state, TaskType::ScrapeEvents));
    assert!(try_lock_task(&mut state, TaskType::RemoveUnverifiedTx));
    unlock_task(&mut state, TaskType::ScrapeEvents);
    assert!(try_lock_task(&mut state, TaskType::ScrapeEvents));
}

#[test]
fn scrape_cursors_advance_by_pages() {
    let mut state = State::new();
    state.record_minter(minter(0, 0));
    let key = MinterKey(ChainId(1), Oprator::AppicMinter);
    assert!(observe_event_count(&mut state, &key, 250));
    let m = state.get_minter(&key).unwrap();
    assert_eq!(m.last_observed_event, 250);
    assert_eq!(next_page(m), Some((0, PAGE_SIZE)));
    assert_eq!(scrape_page(&mut state, &key, 0, PAGE_SIZE, Events { events: vec![] }), Ok(()));
    let m = state.get_minter(&key).unwrap();
    assert_eq!(m.last_scraped_event, PAGE_SIZE);
    assert_eq!(scrape_page(&mut state, &key, 0, 10, Events { events: vec![] }), Err(ScrapeError::StalePage));
    assert_eq!(scrape_page(&mut state, &key, 100, 200, Events { events: vec![] }), Err(ScrapeError::StalePage));
    assert!(observe_event_count(&mut state, &key, 10));
    let m = state.get_minter(&key).unwrap();
    assert_eq!(m.last_observed_event, 250);
    assert!(m.last_scraped_event <= m.last_observed_event);
    assert_eq!(next_page(m), Some((100, PAGE_SIZE)));
}

#[test]
fn scrape_page_applies_events_and_reports_errors() {
    let mut state = State::new();
    state.record_minter(minter(0, 0));
    let key = MinterKey(ChainId(1), Oprator::AppicMinter);
    observe_event_count(&mut state, &key, 2);
    let page = Events { events: vec![ev(1, accepted_deposit(HASH_AA, 10)), ev(2, minted_native(HASH_AA))] };
    assert_eq!(scrape_page(&mut state, &key, 0, 2, page), Ok(()));
    assert_eq!(state.get_minter(&key).unwrap().last_scraped_event, 2);
    assert_eq!(state.evm_to_icp_txs.get(&evm_id(HASH_AA)).unwrap().status, EvmToIcpStatus::Minted);
    let other = MinterKey(ChainId(5), Oprator::AppicMinter);
    assert_eq!(scrape_page(&mut state, &other, 0, 0, Events { events: vec![] }), Err(ScrapeError::UnknownMinter));
    assert!(!observe_event_count(&mut state, &other, 3));
}

#[test]
fn scrape_page_failure_keeps_cursor() {
    let mut state = State::new();
    state.record_minter(minter(50, 0));
    let key = MinterKey(ChainId(1), Oprator::AppicMinter);
    observe_event_count(&mut state, &key, 2);
    let page = Events { events: vec![ev(1, accepted_deposit(HASH_AA, 10)), ev(2, minted_native(HASH_AA))] };
    assert_eq!(
        scrape_page(&mut state, &key, 0, 2, page),
        Err(ScrapeError::Apply(ApplyError::ArithmeticUnderflow))
    );
    assert_eq!(state.get_minter(&key).unwrap().last_scraped_event, 0);
    assert_eq!(state.evm_to_icp_txs.len(), 0);
}

#[test]
fn next_page_is_none_when_caught_up() {
    let m = minter(0, 0);
    assert_eq!(next_page(&m), None);
}

#[test]
fn quarantined_reimbursement_uses_native_burn_index() {
    let mut state = State::new();
    let m = minter(0, 2_000);
    let events = native_withdrawal_events();
    let accepted = events.into_iter().next().unwrap();
    apply_event(&mut state, accepted, &m).unwrap();
    let q = EventPayload::QuarantinedReimbursement {
        index: transaction_logger::appic_events::ReimbursementIndex::Native { ledger_burn_index: n(5) },
    };
    apply_event(&mut state, ev(9, q), &m).unwrap();
    assert_eq!(
        state.icp_to_evm_txs.get(&icp_id(5)).unwrap().status,
        IcpToEvmStatus::QuarantinedReimbursement
    );
    let r = EventPayload::ReimbursedNativeWithdrawal {
        reimbursed_in_block: n(3),
        withdrawal_id: n(5),
        reimbursed_amount: n(1),
        transaction_hash: None,
    };
    apply_event(&mut state, ev(10, r), &m).unwrap();
    assert_eq!(state.icp_to_evm_txs.get(&icp_id(5)).unwrap().status, IcpToEvmStatus::Reimbursed);
    let replaced = EventPayload::ReplacedTransaction { withdrawal_id: n(5), transaction: unsigned() };
    apply_event(&mut state, ev(11, replaced), &m).unwrap();
    assert_eq!(state.icp_to_evm_txs.get(&icp_id(5)).unwrap().status, IcpToEvmStatus::ReplacedTransaction);
}

#[test]
fn removing_a_verified_transfer_is_refused() {
    let mut state = State::new();
    let m = minter(0, 0);
    apply_event(&mut state, ev(1, accepted_deposit(HASH_AA, 10)), &m).unwrap();
    state.remove_unverified_evm_to_icp(&evm_id(HASH_AA));
    assert!(state.if_evm_to_icp_tx_exists(&evm_id(HASH_AA)));
    state.record_new_evm_to_icp(evm_id(HASH_CAFE), pending_deposit(HASH_CAFE, 0));
    state.remove_unverified_evm_to_icp(&evm_id(HASH_CAFE));
    assert!(!state.if_evm_to_icp_tx_exists(&evm_id(HASH_CAFE)));
    let events = native_withdrawal_events();
    let accepted = events.into_iter().next().unwrap();
    apply_event(&mut state, accepted, &m).unwrap();
    state.remove_unverified_icp_to_evm(&icp_id(5));
    assert!(state.if_icp_to_evm_tx_exists(&icp_id(5)));
}

#[test]
fn unverified_transfers_are_listed_in_key_order() {
    let mut state = State::new();
    let hashes = ["0x03", "0x01", "0x02"];
    for h in hashes {
        state.record_new_evm_to_icp(evm_id(h), pending_deposit(h, 1));
    }
    let listed: Vec<String> = state
        .all_unverified_evm_to_icp()
        .iter()
        .map(|(id, _)| id.transaction_hash().clone())
        .collect();
    assert_eq!(listed, vec!["0x01".to_string(), "0x02".to_string(), "0x03".to_string()]);
    let mut tx = pending_deposit(HASH_AA, 0);
    tx.verified = true;
    state.record_new_evm_to_icp(evm_id("0x00"), tx);
    assert_eq!(state.all_unverified_evm_to_icp().len(), 3);
}

#[test]
fn equal_transfers_under_two_keys_are_both_listed() {
    let mut state = State::new();
    state.record_new_evm_to_icp(evm_id("0x01"), pending_deposit(HASH_AA, 4));
    state.record_new_evm_to_icp(evm_id("0x02"), pending_deposit(HASH_AA, 4));
    let found = state.get_transaction_for_principal(principal());
    assert_eq!(found.len(), 2);
    let found = state.get_transaction_for_address(EvmAddress::parse(FROM_F00).unwrap());
    assert_eq!(found.len(), 2);
}
