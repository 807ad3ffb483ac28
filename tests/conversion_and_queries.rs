use transaction_logger::appic_events::{
    AppicGetEventsResult, Event, EventPayload, EventSource, ReimbursementIndex,
};
use transaction_logger::dfinity_events::{
    DfinityCkGetEventsResult, Event as DfinityEvent, EventPayload as DfinityEventPayload,
    EventSource as DfinityEventSource, ReimbursementIndex as DfinityReimbursementIndex,
};
use transaction_logger::event_conversion::{appic_result_from_dfinity, reduce_payload, Reduce};
use transaction_logger::ids::{is_native_token, ChainId, EvmAddress, Oprator, PrincipalId, NATIVE_ERC20_ADDRESS};
use transaction_logger::numeric::{nat_to_u64, BigNat};
use transaction_logger::state::{Erc20Identifier, InitArgs, Minter, MinterArgs, MinterArgsError, MinterKey, State};
use transaction_logger::store_queries::Transaction;
use transaction_logger::apply::apply_event;

const HASH_BB: &str = "0xbbbbbbbbbbbbbbbbbbbbbbbbbbbbbbbbbbbbbbbbbbbbbbbbbbbbbbbbbbbbbbbb";

fn n(v: u64) -> BigNat {
    BigNat::from_u64(v)
}

fn dfinity(timestamp: u64, payload: DfinityEventPayload) -> DfinityEvent {
    DfinityEvent { timestamp, payload }
}

#[test]
fn dfinity_minted_cketh_maps_to_minted_native() {
    let page = DfinityCkGetEventsResult {
        events: vec![dfinity(
            42,
            DfinityEventPayload::MintedCkEth {
                event_source: DfinityEventSource { transaction_hash: HASH_BB.to_string(), log_index: n(2) },
                mint_block_index: n(4),
            },
        )],
        total_event_count: 1,
    };
    let reduced = page.reduce();
    assert_eq!(
        reduced.events,
        vec![Event {
            timestamp: 42,
            payload: EventPayload::MintedNative {
                event_source: EventSource { transaction_hash: HASH_BB.to_string(), log_index: n(2) },
                mint_block_index: n(4),
            },
        }]
    );
}

#[test]
fn dfinity_bookkeeping_is_dropped_in_order() {
    let page = DfinityCkGetEventsResult {
        events: vec![
            dfinity(1, DfinityEventPayload::Init),
            dfinity(2, DfinityEventPayload::SyncedToBlock { block_number: n(9) }),
            dfinity(
                3,
                DfinityEventPayload::QuarantinedReimbursement {
                    index: DfinityReimbursementIndex::CkErc20 {
                        cketh_ledger_burn_index: n(1),
                        ledger_id: PrincipalId(vec![2]),
                        ckerc20_ledger_burn_index: n(3),
                    },
                },
            ),
            dfinity(4, DfinityEventPayload::Upgrade),
            dfinity(5, DfinityEventPayload::SyncedErc20ToBlock { block_number: n(9) }),
            dfinity(6, DfinityEventPayload::SyncedDepositWithSubaccountToBlock { block_number: n(9) }),
            dfinity(7, DfinityEventPayload::SkippedBlock { contract_address: None, block_number: n(9) }),
            dfinity(
                8,
                DfinityEventPayload::AddedCkErc20Token {
                    chain_id: n(1),
                    address: HASH_BB.to_string(),
                    ckerc20_token_symbol: "ckUSDC".to_string(),
                    ckerc20_ledger_id: PrincipalId(vec![3]),
                },
            ),
            dfinity(
                9,
                DfinityEventPayload::SignedTransaction { withdrawal_id: n(1), raw_transaction: "0x".to_string() },
            ),
        ],
        total_event_count: 9,
    };
    let reduced = page.reduce();
    assert_eq!(reduced.events.len(), 2);
    assert_eq!(reduced.events[0].timestamp, 3);
    assert_eq!(
        reduced.events[0].payload,
        EventPayload::QuarantinedReimbursement {
            index: ReimbursementIndex::Erc20 {
                native_ledger_burn_index: n(1),
                ledger_id: PrincipalId(vec![2]),
                erc20_ledger_burn_index: n(3),
            },
        }
    );
    assert_eq!(reduced.events[1].timestamp, 9);
}

#[test]
fn dfinity_erc20_withdrawal_fields_are_renamed() {
    let out = reduce_payload(DfinityEventPayload::AcceptedErc20WithdrawalRequest {
        max_transaction_fee: n(1),
        withdrawal_amount: n(2),
        erc20_contract_address: "0xdead000000000000000000000000000000000000".to_string(),
        destination: "0xbeef000000000000000000000000000000000000".to_string(),
        cketh_ledger_burn_index: n(3),
        ckerc20_ledger_id: PrincipalId(vec![4]),
        ckerc20_ledger_burn_index: n(5),
        from: PrincipalId(vec![6]),
        from_subaccount: None,
        created_at: 7,
    });
    match out {
        Some(EventPayload::AcceptedErc20WithdrawalRequest {
            native_ledger_burn_index,
            erc20_ledger_id,
            erc20_ledger_burn_index,
            created_at,
            ..
        }) => {
            assert_eq!(native_ledger_burn_index.to_u64(), Some(3));
            assert_eq!(erc20_ledger_id, PrincipalId(vec![4]));
            assert_eq!(erc20_ledger_burn_index.to_u64(), Some(5));
            assert_eq!(created_at, 7);
        },
        other => panic!("unexpected {:?}", other),
    }
    let minted = reduce_payload(DfinityEventPayload::MintedCkErc20 {
        event_source: DfinityEventSource { transaction_hash: HASH_BB.to_string(), log_index: n(1) },
        mint_block_index: n(2),
        ckerc20_token_symbol: "ckUSDT".to_string(),
        erc20_contract_address: "0xdead000000000000000000000000000000000000".to_string(),
    });
    assert!(matches!(
        minted,
        Some(EventPayload::MintedErc20 { ref erc20_token_symbol, .. }) if erc20_token_symbol == "ckUSDT"
    ));
    let withdrawal = reduce_payload(DfinityEventPayload::AcceptedEthWithdrawalRequest {
        withdrawal_amount: n(1),
        destination: "0xbeef000000000000000000000000000000000000".to_string(),
        ledger_burn_index: n(2),
        from: PrincipalId(vec![6]),
        from_subaccount: None,
        created_at: Some(3),
    });
    assert!(matches!(withdrawal, Some(EventPayload::AcceptedNativeWithdrawalRequest { .. })));
    let reimbursed = reduce_payload(DfinityEventPayload::ReimbursedEthWithdrawal {
        reimbursed_in_block: n(1),
        withdrawal_id: n(2),
        reimbursed_amount: n(3),
        transaction_hash: None,
    });
    assert!(matches!(reimbursed, Some(EventPayload::ReimbursedNativeWithdrawal { .. })));
}

#[test]
fn appic_page_keeps_only_transfer_events() {
    let page = AppicGetEventsResult {
        events: vec![
            Event { timestamp: 1, payload: EventPayload::Init },
            Event {
                timestamp: 2,
                payload: EventPayload::MintedNative {
                    event_source: EventSource { transaction_hash: HASH_BB.to_string(), log_index: n(0) },
                    mint_block_index: n(1),
                },
            },
            Event { timestamp: 3, payload: EventPayload::SyncedToBlock { block_number: n(5) } },
            Event { timestamp: 4, payload: EventPayload::SkippedBlock { block_number: n(5) } },
            Event {
                timestamp: 5,
                payload: EventPayload::AddedErc20Token {
                    chain_id: n(1),
                    address: HASH_BB.to_string(),
                    erc20_token_symbol: "X".to_string(),
                    erc20_ledger_id: PrincipalId(vec![1]),
                },
            },
            Event { timestamp: 6, payload: EventPayload::Upgrade },
            Event {
                timestamp: 7,
                payload: EventPayload::QuarantinedDeposit {
                    event_source: EventSource { transaction_hash: HASH_BB.to_string(), log_index: n(0) },
                },
            },
        ],
        total_event_count: 7,
    };
    let reduced = page.reduce();
    let stamps: Vec<u64> = reduced.events.iter().map(|e| e.timestamp).collect();
    assert_eq!(stamps, vec![2, 7]);
}

#[test]
fn address_parsing_and_native_sentinel() {
    let native = EvmAddress::parse(NATIVE_ERC20_ADDRESS).unwrap();
    assert!(is_native_token(&native));
    assert_eq!(native, EvmAddress::native());
    let upper = EvmAddress::parse("0xDEAD00000000000000000000000000000000BEEF").unwrap();
    assert_eq!(upper.0[0], 0xde);
    assert_eq!(upper.0[19], 0xef);
    assert!(!is_native_token(&upper));
    assert!(EvmAddress::parse("dead00000000000000000000000000000000beef").is_none());
    assert!(EvmAddress::parse("0xdead").is_none());
    assert!(EvmAddress::parse("0xzz0000000000000000000000000000000000beef").is_none());
}

#[test]
fn address_text_is_checksummed() {
    let a = EvmAddress::parse("0x5aaeb6053f3e94c9b9a09f33669435e7ef1beaed").unwrap();
    assert_eq!(a.to_text(), "0x5aAeb6053F3E94C9b9A09f33669435E7Ef1BeAed");
}

#[test]
fn big_numbers_add_multiply_and_subtract() {
    let big = n(u64::MAX).mul(&n(u64::MAX));
    assert_eq!(big.to_u64(), None);
    let back = big.checked_sub(&n(u64::MAX).mul(&n(u64::MAX - 1))).unwrap();
    assert_eq!(back.to_u64(), Some(u64::MAX));
    assert_eq!(n(21_000).mul(&n(100)).add(&n(2_000)).to_u64(), Some(2_102_000));
    assert!(n(5).checked_sub(&n(6)).is_none());
    assert_eq!(n(6).checked_sub(&n(6)).unwrap().to_u64(), Some(0));
    assert!(n(7).same_value(&n(7)));
    assert!(!n(7).same_value(&n(8)));
    assert_eq!(nat_to_u64(&n(12)), Some(12));
    assert_eq!(BigNat::zero().to_u64(), Some(0));
    assert_eq!(big.duplicate(), big);
}

fn args(chain: u64, op: Oprator, observed: u64, scraped: u64) -> MinterArgs {
    MinterArgs {
        chain_id: n(chain),
        minter_id: PrincipalId(vec![1, 2]),
        oprator: op,
        last_observed_event: n(observed),
        last_scraped_event: n(scraped),
        evm_to_icp_fee: n(10),
        icp_to_evm_fee: n(20),
    }
}

#[test]
fn minter_args_are_checked() {
    let m = Minter::from_minter_args(args(1, Oprator::AppicMinter, 10, 4)).unwrap();
    assert_eq!(m.chain_id, ChainId(1));
    assert_eq!(m.last_observed_event, 10);
    assert_eq!(m.last_scraped_event, 4);
    assert_eq!(m.key(), MinterKey(ChainId(1), Oprator::AppicMinter));
    assert_eq!(
        Minter::from_minter_args(args(1, Oprator::AppicMinter, 3, 4)),
        Err(MinterArgsError::ScrapedAheadOfObserved)
    );
    let mut too_big = args(1, Oprator::AppicMinter, 3, 1);
    too_big.chain_id = n(u64::MAX).mul(&n(2));
    assert_eq!(Minter::from_minter_args(too_big), Err(MinterArgsError::NumberTooLarge));
}

#[test]
fn init_builds_the_registry() {
    let state = State::from_init_args(InitArgs {
        minters: vec![args(1, Oprator::AppicMinter, 5, 5), args(1, Oprator::DfinityCkEthMinter, 9, 2)],
    })
    .unwrap();
    assert_eq!(state.get_minters().len(), 2);
    assert!(state.if_chain_id_exists(&ChainId(1)));
    assert!(!state.if_chain_id_exists(&ChainId(2)));
    let key = MinterKey(ChainId(1), Oprator::DfinityCkEthMinter);
    assert_eq!(key.oprator(), Oprator::DfinityCkEthMinter);
    assert_eq!(key.chain_id(), ChainId(1));
    assert_eq!(state.get_minter(&key).unwrap().last_scraped_event, 2);
    let refused = State::from_init_args(InitArgs {
        minters: vec![args(1, Oprator::AppicMinter, 5, 5), args(2, Oprator::AppicMinter, 1, 2)],
    });
    assert!(matches!(refused, Err(MinterArgsError::ScrapedAheadOfObserved)));
}

#[test]
fn twin_lookup_uses_the_operator_table() {
    let mut state = State::new();
    let usdc = Erc20Identifier::new(&EvmAddress::parse("0xdead000000000000000000000000000000000000").unwrap(), &ChainId(1));
    state.record_token_pair(usdc, &Oprator::DfinityCkEthMinter, PrincipalId(vec![8]));
    assert_eq!(state.get_icrc_twin_for_erc20(&usdc, &Oprator::DfinityCkEthMinter), Some(PrincipalId(vec![8])));
    assert_eq!(state.get_icrc_twin_for_erc20(&usdc, &Oprator::AppicMinter), None);
    let pairs = state.get_suported_twin_token_pairs();
    assert_eq!(pairs.len(), 1);
    assert_eq!(pairs[0].erc20_address, usdc.0.to_text());
    assert_eq!(pairs[0].erc20_address.to_lowercase(), "0xdead000000000000000000000000000000000000");
    assert_eq!(pairs[0].oprator, Oprator::DfinityCkEthMinter);
    assert_eq!(pairs[0].chain_id.to_u64(), Some(1));
    assert_eq!(usdc.erc20_address(), usdc.0);
    assert_eq!(usdc.chain_id(), ChainId(1));
}

#[test]
fn queries_by_address_and_principal() {
    let mut state = State::new();
    let m = Minter {
        id: PrincipalId(vec![1]),
        last_observed_event: 0,
        last_scraped_event: 0,
        oprator: Oprator::AppicMinter,
        evm_to_icp_fee: n(0),
        icp_to_evm_fee: n(0),
        chain_id: ChainId(1),
    };
    let who = PrincipalId(vec![5, 5]);
    let deposit = EventPayload::AcceptedDeposit {
        transaction_hash: HASH_BB.to_string(),
        block_number: n(1),
        log_index: n(0),
        from_address: "0xf000000000000000000000000000000000000000".to_string(),
        value: n(10),
        principal: who.clone(),
        subaccount: None,
    };
    let withdrawal = EventPayload::AcceptedNativeWithdrawalRequest {
        withdrawal_amount: n(10),
        destination: "0xf000000000000000000000000000000000000000".to_string(),
        ledger_burn_index: n(1),
        from: PrincipalId(vec![9]),
        from_subaccount: None,
        created_at: None,
    };
    apply_event(&mut state, Event { timestamp: 1, payload: deposit }, &m).unwrap();
    apply_event(&mut state, Event { timestamp: 2, payload: withdrawal }, &m).unwrap();
    let by_address = state.get_transaction_for_address(EvmAddress::parse("0xf000000000000000000000000000000000000000").unwrap());
    assert_eq!(by_address.len(), 2);
    let by_principal = state.get_transaction_for_principal(who);
    assert_eq!(by_principal.len(), 1);
    assert!(matches!(by_principal[0], Transaction::EvmToIcp(_)));
    let by_sender = state.get_transaction_for_principal(PrincipalId(vec![9]));
    assert_eq!(by_sender.len(), 1);
    assert!(matches!(by_sender[0], Transaction::IcpToEvm(_)));
    assert!(state.get_transaction_for_address(EvmAddress::native()).is_empty());
    assert_eq!(state.all_unverified_icp_to_evm().len(), 0);
}

#[test]
fn dfinity_page_conversion_keeps_event_count() {
    let page = DfinityCkGetEventsResult {
        events: vec![
            dfinity(1, DfinityEventPayload::Init),
            dfinity(2, DfinityEventPayload::CreatedTransaction {
                withdrawal_id: n(4),
                transaction: transaction_logger::appic_events::UnsignedTransaction {
                    chain_id: n(1),
                    nonce: n(0),
                    max_priority_fee_per_gas: n(1),
                    max_fee_per_gas: n(2),
                    gas_limit: n(3),
                    destination: "0xbeef000000000000000000000000000000000000".to_string(),
                    value: n(5),
                    data: vec![1, 2],
                },
            }),
        ],
        total_event_count: 40,
    };
    let converted = appic_result_from_dfinity(page);
    assert_eq!(converted.total_event_count, 40);
    assert_eq!(converted.events.len(), 1);
    assert_eq!(converted.events[0].timestamp, 2);
    assert!(matches!(converted.events[0].payload, EventPayload::CreatedTransaction { .. }));
}

#[test]
fn deep_copy_is_independent() {
    let mut state = State::new();
    let m = Minter {
        id: PrincipalId(vec![1]),
        last_observed_event: 3,
        last_scraped_event: 1,
        oprator: Oprator::AppicMinter,
        evm_to_icp_fee: n(0),
        icp_to_evm_fee: n(0),
        chain_id: ChainId(1),
    };
    state.record_minter(m);
    let copy = state.duplicate();
    state.record_token_pair(
        Erc20Identifier::new(&EvmAddress::native(), &ChainId(1)),
        &Oprator::AppicMinter,
        PrincipalId(vec![2]),
    );
    assert_eq!(copy.get_minters().len(), 1);
    assert_eq!(copy.get_minter(&MinterKey(ChainId(1), Oprator::AppicMinter)).unwrap().last_observed_event, 3);
    assert_eq!(copy.supported_twin_appic_tokens.len(), 0);
    assert_eq!(state.supported_twin_appic_tokens.len(), 1);
}

#[test]
fn token_pairs_list_ckerc20_first_in_key_order() {
    let mut state = State::new();
    let a = EvmAddress::parse("0x0200000000000000000000000000000000000000").unwrap();
    let b = EvmAddress::parse("0x0100000000000000000000000000000000000000").unwrap();
    state.record_token_pair(Erc20Identifier::new(&a, &ChainId(1)), &Oprator::AppicMinter, PrincipalId(vec![1]));
    state.record_token_pair(Erc20Identifier::new(&a, &ChainId(1)), &Oprator::DfinityCkEthMinter, PrincipalId(vec![2]));
    state.record_token_pair(Erc20Identifier::new(&b, &ChainId(1)), &Oprator::DfinityCkEthMinter, PrincipalId(vec![3]));
    let pairs = state.get_suported_twin_token_pairs();
    let ledgers: Vec<Vec<u8>> = pairs.iter().map(|p| p.ledger_id.0.clone()).collect();
    assert_eq!(ledgers, vec![vec![3], vec![2], vec![1]]);
    assert_eq!(pairs[2].oprator, Oprator::AppicMinter);
}
