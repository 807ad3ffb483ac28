//! Applies canonical events to the transfer store.
//!
//! [`applied`] states what one event does to the store, as a function of the
//! store's view, the event and the minter that emitted it; [`apply_event`]
//! and [`apply_events`] are proved to do exactly that.

use crate::appic_events::{Event, EventPayload, ReimbursementIndex, TransactionReceipt};
use crate::ids::{parsed_address, EvmAddress, Oprator, ChainId};
use crate::numeric::BigNat;
use crate::state::{
    accepted_evm_to_icp, accepted_icp_to_evm, finalized_icp_to_evm, minted_evm_to_icp, ApplyError,
    EvmToIcpStatus, EvmToIcpTxIdentifier, IcpToEvmIdentifier, IcpToEvmStatus, Minter, MinterView,
    State, StateView,
};
use vstd::prelude::*;

verus! {

/// The bytes of the native-token sentinel address.
pub open spec fn native_address() -> Seq<u8> {
    Seq::new(20, |i: int| 0u8)
}

/// The store after a mint of EVM to ICP transfer `k`; missing transfers are ignored.
pub open spec fn minted_in(st: StateView, k: (Seq<char>, ChainId), erc20: Seq<u8>, fee: nat) -> Result<StateView, ApplyError> {
    if st.evm_to_icp_txs.contains_key(k) {
        match minted_evm_to_icp(st.evm_to_icp_txs[k], erc20, fee) {
            Some(tx) => Ok(st.with_evm_to_icp(k, tx)),
            None => Err(ApplyError::ArithmeticUnderflow),
        }
    } else {
        Ok(st)
    }
}

/// The store after the finalization of ICP to EVM transfer `k`; missing transfers are ignored.
pub open spec fn finalized_in(st: StateView, k: (nat, ChainId), receipt: TransactionReceipt, fee: nat) -> Result<StateView, ApplyError> {
    if st.icp_to_evm_txs.contains_key(k) {
        match finalized_icp_to_evm(
            st.icp_to_evm_txs[k],
            receipt.gas_used@,
            receipt.effective_gas_price@,
            receipt.status,
            receipt.transaction_hash@,
            fee,
        ) {
            Some(tx) => Ok(st.with_icp_to_evm(k, tx)),
            None => Err(ApplyError::ArithmeticUnderflow),
        }
    } else {
        Ok(st)
    }
}

/// The burn index that keys the withdrawal of a quarantined reimbursement.
pub open spec fn reimbursement_key(index: ReimbursementIndex) -> nat {
    match index {
        ReimbursementIndex::Native { ledger_burn_index } => ledger_burn_index@,
        ReimbursementIndex::Erc20 { native_ledger_burn_index, .. } => native_ledger_burn_index@,
    }
}

/// What applying event `e` of minter `m` does to a store: the new store, or
/// the error that leaves the store as it was.
pub open spec fn applied(st: StateView, e: Event, m: MinterView) -> Result<StateView, ApplyError> {
    let chain = m.chain_id;
    let op = m.oprator;
    let ts = e.timestamp;
    match e.payload {
        EventPayload::AcceptedDeposit {
            transaction_hash,
            block_number,
            from_address,
            value,
            principal,
            subaccount,
            ..
        } => match parsed_address(from_address@) {
            None => Err(ApplyError::InvalidEvent),
            Some(from) => {
                let k = (transaction_hash@, chain);
                Ok(
                    st.with_evm_to_icp(
                        k,
                        accepted_evm_to_icp(
                            st.evm_to_icp_txs.get(k),
                            st.twin_of((native_address(), chain), op),
                            transaction_hash@,
                            block_number@,
                            from,
                            value@,
                            principal@,
                            native_address(),
                            subaccount,
                            chain,
                            op,
                            ts,
                        ),
                    ),
                )
            },
        },
        EventPayload::AcceptedErc20Deposit {
            transaction_hash,
            block_number,
            from_address,
            value,
            principal,
            erc20_contract_address,
            subaccount,
            ..
        } => match (parsed_address(from_address@), parsed_address(erc20_contract_address@)) {
            (Some(from), Some(erc20)) => {
                let k = (transaction_hash@, chain);
                Ok(
                    st.with_evm_to_icp(
                        k,
                        accepted_evm_to_icp(
                            st.evm_to_icp_txs.get(k),
                            st.twin_of((erc20, chain), op),
                            transaction_hash@,
                            block_number@,
                            from,
                            value@,
                            principal@,
                            erc20,
                            subaccount,
                            chain,
                            op,
                            ts,
                        ),
                    ),
                )
            },
            _ => Err(ApplyError::InvalidEvent),
        },
        EventPayload::MintedNative { event_source, .. } => minted_in(
            st,
            (event_source.transaction_hash@, chain),
            native_address(),
            m.evm_to_icp_fee,
        ),
        EventPayload::MintedErc20 { event_source, erc20_contract_address, .. } => match parsed_address(
            erc20_contract_address@,
        ) {
            None => Err(ApplyError::InvalidEvent),
            Some(erc20) => minted_in(st, (event_source.transaction_hash@, chain), erc20, m.evm_to_icp_fee),
        },
        EventPayload::InvalidDeposit { event_source, reason } => Ok(
            st.evm_to_icp_status_set((event_source.transaction_hash@, chain), EvmToIcpStatus::Invalid(reason)),
        ),
        EventPayload::QuarantinedDeposit { event_source } => Ok(
            st.evm_to_icp_status_set((event_source.transaction_hash@, chain), EvmToIcpStatus::Quarantined),
        ),
        EventPayload::AcceptedNativeWithdrawalRequest {
            withdrawal_amount,
            destination,
            ledger_burn_index,
            from,
            from_subaccount,
            created_at,
        } => match parsed_address(destination@) {
            None => Err(ApplyError::InvalidEvent),
            Some(dest) => {
                let k = (ledger_burn_index@, chain);
                Ok(
                    st.with_icp_to_evm(
                        k,
                        accepted_icp_to_evm(
                            st.icp_to_evm_txs.get(k),
                            st.twin_of((native_address(), chain), op),
                            None,
                            withdrawal_amount@,
                            native_address(),
                            dest,
                            ledger_burn_index@,
                            None,
                            from@,
                            from_subaccount,
                            created_at,
                            op,
                            chain,
                            ts,
                        ),
                    ),
                )
            },
        },
        EventPayload::AcceptedErc20WithdrawalRequest {
            max_transaction_fee,
            withdrawal_amount,
            erc20_contract_address,
            destination,
            native_ledger_burn_index,
            erc20_ledger_burn_index,
            from,
            from_subaccount,
            created_at,
            ..
        } => match (parsed_address(erc20_contract_address@), parsed_address(destination@)) {
            (Some(erc20), Some(dest)) => {
                let k = (native_ledger_burn_index@, chain);
                Ok(
                    st.with_icp_to_evm(
                        k,
                        accepted_icp_to_evm(
                            st.icp_to_evm_txs.get(k),
                            st.twin_of((erc20, chain), op),
                            Some(max_transaction_fee@),
                            withdrawal_amount@,
                            erc20,
                            dest,
                            native_ledger_burn_index@,
                            Some(erc20_ledger_burn_index@),
                            from@,
                            from_subaccount,
                            Some(created_at),
                            op,
                            chain,
                            ts,
                        ),
                    ),
                )
            },
            _ => Err(ApplyError::InvalidEvent),
        },
        EventPayload::CreatedTransaction { withdrawal_id, .. } => Ok(
            st.icp_to_evm_status_set((withdrawal_id@, chain), IcpToEvmStatus::Created),
        ),
        EventPayload::SignedTransaction { withdrawal_id, .. } => Ok(
            st.icp_to_evm_status_set((withdrawal_id@, chain), IcpToEvmStatus::SignedTransaction),
        ),
        EventPayload::ReplacedTransaction { withdrawal_id, .. } => Ok(
            st.icp_to_evm_status_set((withdrawal_id@, chain), IcpToEvmStatus::ReplacedTransaction),
        ),
        EventPayload::FinalizedTransaction { withdrawal_id, transaction_receipt } => finalized_in(
            st,
            (withdrawal_id@, chain),
            transaction_receipt,
            m.icp_to_evm_fee,
        ),
        EventPayload::ReimbursedNativeWithdrawal { withdrawal_id, .. } => Ok(
            st.icp_to_evm_status_set((withdrawal_id@, chain), IcpToEvmStatus::Reimbursed),
        ),
        EventPayload::ReimbursedErc20Withdrawal { withdrawal_id, .. } => Ok(
            st.icp_to_evm_status_set((withdrawal_id@, chain), IcpToEvmStatus::Reimbursed),
        ),
        EventPayload::QuarantinedReimbursement { index } => Ok(
            st.icp_to_evm_status_set((reimbursement_key(index), chain), IcpToEvmStatus::QuarantinedReimbursement),
        ),
        EventPayload::FailedErc20WithdrawalRequest { withdrawal_id, .. } => Ok(
            st.icp_to_evm_status_set((withdrawal_id@, chain), IcpToEvmStatus::Failed),
        ),
        _ => Ok(st),
    }
}

/// What applying events `es` in order does to a store; the first error stops it.
pub open spec fn applied_all(st: StateView, es: Seq<Event>, m: MinterView) -> Result<StateView, ApplyError>
    decreases es.len(),
{
    if es.len() == 0 {
        Ok(st)
    } else {
        match applied_all(st, es.drop_last(), m) {
            Ok(s) => applied(s, es.last(), m),
            Err(e) => Err(e),
        }
    }
}

fn parse_or_invalid(s: &String) -> (r: Result<EvmAddress, ApplyError>)
    ensures
        parsed_address(s@) matches Some(a) ==> r matches Ok(x) && x@ == a,
        parsed_address(s@).is_none() ==> r == Err::<EvmAddress, ApplyError>(ApplyError::InvalidEvent),
{
    match EvmAddress::parse(s.as_str()) {
        Some(a) => Ok(a),
        None => Err(ApplyError::InvalidEvent),
    }
}

/// Applies one canonical event of `minter` to the store.
pub fn apply_event(state: &mut State, event: Event, minter: &Minter) -> (r: Result<(), ApplyError>)
    requires
        old(state).wf(),
    ensures
        final(state).wf(),
        match applied(old(state)@, event, minter@) {
            Ok(s) => r is Ok && final(state)@ == s,
            Err(e) => r == Err::<(), ApplyError>(e) && final(state)@ == old(state)@,
        },
{
    let chain_id = minter.chain_id;
    let oprator = minter.oprator;
    let timestamp = event.timestamp;
    match event.payload {
        EventPayload::AcceptedDeposit {
            transaction_hash,
            block_number,
            from_address,
            value,
            principal,
            subaccount,
            ..
        } => {
            let from = parse_or_invalid(&from_address)?;
            let id = EvmToIcpTxIdentifier::new(&transaction_hash, &chain_id);
            state.record_accepted_evm_to_icp(
                id,
                transaction_hash,
                block_number,
                from,
                value,
                principal,
                EvmAddress::native(),
                subaccount,
                &chain_id,
                &oprator,
                timestamp,
            );
            Ok(())
        },
        EventPayload::AcceptedErc20Deposit {
            transaction_hash,
            block_number,
            from_address,
            value,
            principal,
            erc20_contract_address,
            subaccount,
            ..
        } => {
            let from = parse_or_invalid(&from_address)?;
            let erc20 = parse_or_invalid(&erc20_contract_address)?;
            let id = EvmToIcpTxIdentifier::new(&transaction_hash, &chain_id);
            state.record_accepted_evm_to_icp(
                id,
                transaction_hash,
                block_number,
                from,
                value,
                principal,
                erc20,
                subaccount,
                &chain_id,
                &oprator,
                timestamp,
            );
            Ok(())
        },
        EventPayload::MintedNative { event_source, .. } => {
            let id = EvmToIcpTxIdentifier::new(&event_source.transaction_hash, &chain_id);
            state.record_minted_evm_to_icp(id, EvmAddress::native(), &minter.evm_to_icp_fee)
        },
        EventPayload::MintedErc20 { event_source, erc20_contract_address, .. } => {
            let erc20 = parse_or_invalid(&erc20_contract_address)?;
            let id = EvmToIcpTxIdentifier::new(&event_source.transaction_hash, &chain_id);
            state.record_minted_evm_to_icp(id, erc20, &minter.evm_to_icp_fee)
        },
        EventPayload::InvalidDeposit { event_source, reason } => {
            let id = EvmToIcpTxIdentifier::new(&event_source.transaction_hash, &chain_id);
            state.record_invalid_evm_to_icp(id, reason);
            Ok(())
        },
        EventPayload::QuarantinedDeposit { event_source } => {
            let id = EvmToIcpTxIdentifier::new(&event_source.transaction_hash, &chain_id);
            state.record_quarantined_evm_to_icp(id);
            Ok(())
        },
        EventPayload::AcceptedNativeWithdrawalRequest {
            withdrawal_amount,
            destination,
            ledger_burn_index,
            from,
            from_subaccount,
            created_at,
        } => {
            let dest = parse_or_invalid(&destination)?;
            let id = IcpToEvmIdentifier::new(&ledger_burn_index, &chain_id);
            state.record_accepted_icp_to_evm(
                id,
                None,
                withdrawal_amount,
                EvmAddress::native(),
                dest,
                ledger_burn_index,
                None,
                from,
                from_subaccount,
                created_at,
                &oprator,
                &chain_id,
                timestamp,
            );
            Ok(())
        },
        EventPayload::AcceptedErc20WithdrawalRequest {
            max_transaction_fee,
            withdrawal_amount,
            erc20_contract_address,
            destination,
            native_ledger_burn_index,
            erc20_ledger_burn_index,
            from,
            from_subaccount,
            created_at,
            ..
        } => {
            let erc20 = parse_or_invalid(&erc20_contract_address)?;
            let dest = parse_or_invalid(&destination)?;
            let id = IcpToEvmIdentifier::new(&native_ledger_burn_index, &chain_id);
            state.record_accepted_icp_to_evm(
                id,
                Some(max_transaction_fee),
                withdrawal_amount,
                erc20,
                dest,
                native_ledger_burn_index,
                Some(erc20_ledger_burn_index),
                from,
                from_subaccount,
                Some(created_at),
                &oprator,
                &chain_id,
                timestamp,
            );
            Ok(())
        },
        EventPayload::CreatedTransaction { withdrawal_id, .. } => {
            state.record_created_icp_to_evm(IcpToEvmIdentifier::new(&withdrawal_id, &chain_id));
            Ok(())
        },
        EventPayload::SignedTransaction { withdrawal_id, .. } => {
            state.record_signed_icp_to_evm(IcpToEvmIdentifier::new(&withdrawal_id, &chain_id));
            Ok(())
        },
        EventPayload::ReplacedTransaction { withdrawal_id, .. } => {
            state.record_replaced_icp_to_evm(IcpToEvmIdentifier::new(&withdrawal_id, &chain_id));
            Ok(())
        },
        EventPayload::FinalizedTransaction { withdrawal_id, transaction_receipt } => {
            let id = IcpToEvmIdentifier::new(&withdrawal_id, &chain_id);
            state.record_finalized_icp_to_evm(id, transaction_receipt, &minter.icp_to_evm_fee)
        },
        EventPayload::ReimbursedNativeWithdrawal { withdrawal_id, .. } => {
            state.record_reimbursed_icp_to_evm(IcpToEvmIdentifier::new(&withdrawal_id, &chain_id));
            Ok(())
        },
        EventPayload::ReimbursedErc20Withdrawal { withdrawal_id, .. } => {
            state.record_reimbursed_icp_to_evm(IcpToEvmIdentifier::new(&withdrawal_id, &chain_id));
            Ok(())
        },
        EventPayload::QuarantinedReimbursement { index } => {
            let burn_index: &BigNat = match &index {
                ReimbursementIndex::Native { ledger_burn_index } => ledger_burn_index,
                ReimbursementIndex::Erc20 { native_ledger_burn_index, .. } => native_ledger_burn_index,
            };
            state.record_quarantined_reimbursed_icp_to_evm(IcpToEvmIdentifier::new(burn_index, &chain_id));
            Ok(())
        },
        EventPayload::FailedErc20WithdrawalRequest { withdrawal_id, .. } => {
            state.record_failed_icp_to_evm(IcpToEvmIdentifier::new(&withdrawal_id, &chain_id));
            Ok(())
        },
        _ => Ok(()),
    }
}

/// Applies a page of canonical events of `minter` in order. The page is
/// applied whole or not at all: at the first error the store is left as it was.
pub fn apply_events(state: &mut State, events: Vec<Event>, minter: &Minter) -> (r: Result<(), ApplyError>)
    requires
        old(state).wf(),
    ensures
        final(state).wf(),
        match applied_all(old(state)@, events@, minter@) {
            Ok(s) => r is Ok && final(state)@ == s,
            Err(e) => r == Err::<(), ApplyError>(e) && final(state)@ == old(state)@,
        },
{
    let mut scratch = state.duplicate();
    let r = apply_events_in_place(&mut scratch, events, minter);
    if r.is_ok() {
        *state = scratch;
    }
    r
}

fn apply_events_in_place(state: &mut State, events: Vec<Event>, minter: &Minter) -> (r: Result<(), ApplyError>)
    requires
        old(state).wf(),
    ensures
        final(state).wf(),
        match applied_all(old(state)@, events@, minter@) {
            Ok(s) => r is Ok && final(state)@ == s,
            Err(e) => r == Err::<(), ApplyError>(e),
        },
{
    let ghost es = events@;
    let mut rest = events;
    let mut i: usize = 0;
    let total: usize = rest.len();
    assert(es.len() == total);
    while rest.len() > 0
        invariant
            state.wf(),
            es == events@,
            i <= es.len(),
            rest@ == es.subrange(i as int, es.len() as int),
            rest@.len() + i == es.len(),
            es.len() <= usize::MAX,
            applied_all(old(state)@, es.subrange(0, i as int), minter@) == Ok::<StateView, ApplyError>(state@),
        decreases rest@.len(),
    {
        let e = rest.remove(0);
        proof {
            assert(es.subrange(0, i + 1).drop_last() =~= es.subrange(0, i as int));
            assert(es.subrange(0, i + 1).last() == e);
        }
        let ghost before = state@;
        let step = apply_event(state, e, minter);
        i = i + 1;
        match step {
            Ok(()) => {},
            Err(err) => {
                proof {
                    assert(applied(before, e, minter@) == Err::<StateView, ApplyError>(err));
                    assert(applied_all(old(state)@, es.subrange(0, i as int), minter@) == Err::<StateView, ApplyError>(err));
                    lemma_applied_all_error_persists(old(state)@, es, i as int, minter@);
                    assert(applied_all(old(state)@, es, minter@) == Err::<StateView, ApplyError>(err));
                }
                return Err(err);
            },
        }
        assert(rest@ =~= es.subrange(i as int, es.len() as int));
    }
    assert(es.subrange(0, i as int) =~= es);
    Ok(())
}

proof fn lemma_applied_all_error_persists(st: StateView, es: Seq<Event>, n: int, m: MinterView)
    requires
        0 <= n <= es.len(),
        applied_all(st, es.subrange(0, n), m) is Err,
    ensures
        applied_all(st, es, m) == applied_all(st, es.subrange(0, n), m),
    decreases es.len() - n,
{
    if n < es.len() {
        assert(es.subrange(0, n + 1).drop_last() =~= es.subrange(0, n));
        lemma_applied_all_error_persists(st, es, n + 1, m);
    } else {
        assert(es.subrange(0, n) =~= es);
    }
}

/// Replaying a stream in one pass gives what applying its two parts one after
/// the other gives: applying `a + b` to a store is applying `a`, then `b` to
/// the result; an error in `a` is the error of the whole.
pub proof fn lemma_replay_matches_incremental(st: StateView, a: Seq<Event>, b: Seq<Event>, m: MinterView)
    ensures
        applied_all(st, a + b, m) == match applied_all(st, a, m) {
            Ok(s) => applied_all(s, b, m),
            Err(e) => Err(e),
        },
    decreases b.len(),
{
    if b.len() == 0 {
        assert(a + b =~= a);
    } else {
        lemma_replay_matches_incremental(st, a, b.drop_last(), m);
        assert((a + b).drop_last() =~= a + b.drop_last());
        assert((a + b).last() == b.last());
    }
}

/// A mint of a native-token deposit settles `value - evm_to_icp_fee`: after an
/// applied `MintedNative`, the transfer is minted and received that much.
pub proof fn lemma_minted_native_settlement(st: StateView, e: Event, m: MinterView, s: StateView)
    requires
        e.payload is MintedNative,
        st.evm_to_icp_txs.contains_key((e.payload->MintedNative_event_source.transaction_hash@, m.chain_id)),
        applied(st, e, m) == Ok::<StateView, ApplyError>(s),
    ensures
        ({
            let k = (e.payload->MintedNative_event_source.transaction_hash@, m.chain_id);
            &&& s.evm_to_icp_txs[k].status == EvmToIcpStatus::Minted
            &&& st.evm_to_icp_txs[k].value >= m.evm_to_icp_fee
            &&& s.evm_to_icp_txs[k].actual_received == Some(
                (st.evm_to_icp_txs[k].value - m.evm_to_icp_fee) as nat,
            )
        }),
{
    assert(crate::ids::is_native_address(native_address()));
}

/// A mint of an ERC-20 deposit settles the full value.
pub proof fn lemma_minted_erc20_settlement(st: StateView, e: Event, m: MinterView, s: StateView)
    requires
        e.payload is MintedErc20,
        st.evm_to_icp_txs.contains_key((e.payload->MintedErc20_event_source.transaction_hash@, m.chain_id)),
        !crate::ids::is_native_address(
            parsed_address(e.payload->MintedErc20_erc20_contract_address@).unwrap(),
        ),
        applied(st, e, m) == Ok::<StateView, ApplyError>(s),
    ensures
        ({
            let k = (e.payload->MintedErc20_event_source.transaction_hash@, m.chain_id);
            &&& s.evm_to_icp_txs[k].status == EvmToIcpStatus::Minted
            &&& s.evm_to_icp_txs[k].actual_received == Some(st.evm_to_icp_txs[k].value)
        }),
{
}

/// A successful finalization of a native-token withdrawal settles
/// `withdrawal_amount - gas_used * effective_gas_price - icp_to_evm_fee`; one of
/// an ERC-20 withdrawal settles `withdrawal_amount`.
pub proof fn lemma_finalized_settlement(st: StateView, e: Event, m: MinterView, s: StateView)
    requires
        e.payload is FinalizedTransaction,
        e.payload->FinalizedTransaction_transaction_receipt.status
            == crate::appic_events::TransactionStatus::Success,
        st.icp_to_evm_txs.contains_key((e.payload->FinalizedTransaction_withdrawal_id@, m.chain_id)),
        applied(st, e, m) == Ok::<StateView, ApplyError>(s),
    ensures
        ({
            let k = (e.payload->FinalizedTransaction_withdrawal_id@, m.chain_id);
            let receipt = e.payload->FinalizedTransaction_transaction_receipt;
            let tx = st.icp_to_evm_txs[k];
            &&& s.icp_to_evm_txs[k].status == IcpToEvmStatus::Successful
            &&& s.icp_to_evm_txs[k].gas_used == Some(receipt.gas_used@)
            &&& s.icp_to_evm_txs[k].effective_gas_price == Some(receipt.effective_gas_price@)
            &&& s.icp_to_evm_txs[k].toatal_gas_spent == Some(
                receipt.gas_used@ * receipt.effective_gas_price@ + m.icp_to_evm_fee,
            )
            &&& crate::ids::is_native_address(tx.erc20_contract_address) ==> s.icp_to_evm_txs[k].actual_received
                == Some(
                (tx.withdrawal_amount - receipt.gas_used@ * receipt.effective_gas_price@
                    - m.icp_to_evm_fee) as nat,
            )
            &&& !crate::ids::is_native_address(tx.erc20_contract_address)
                ==> s.icp_to_evm_txs[k].actual_received == Some(tx.withdrawal_amount)
        }),
{
}

/// Whether a payload is one of the acceptance variants.
pub open spec fn is_acceptance(p: EventPayload) -> bool {
    p is AcceptedDeposit || p is AcceptedErc20Deposit || p is AcceptedNativeWithdrawalRequest
        || p is AcceptedErc20WithdrawalRequest
}

/// Applying the same acceptance event twice gives the same store as applying it once.
pub proof fn lemma_acceptance_idempotent(st: StateView, e: Event, m: MinterView)
    requires
        is_acceptance(e.payload),
        applied(st, e, m) is Ok,
    ensures
        applied(applied(st, e, m)->Ok_0, e, m) == applied(st, e, m),
{
    let s1 = applied(st, e, m)->Ok_0;
    match e.payload {
        EventPayload::AcceptedDeposit { transaction_hash, .. } => {
            let k = (transaction_hash@, m.chain_id);
            assert(s1.evm_to_icp_txs.insert(k, s1.evm_to_icp_txs[k]) =~= s1.evm_to_icp_txs);
        },
        EventPayload::AcceptedErc20Deposit { transaction_hash, .. } => {
            let k = (transaction_hash@, m.chain_id);
            assert(s1.evm_to_icp_txs.insert(k, s1.evm_to_icp_txs[k]) =~= s1.evm_to_icp_txs);
        },
        EventPayload::AcceptedNativeWithdrawalRequest { ledger_burn_index, .. } => {
            let k = (ledger_burn_index@, m.chain_id);
            assert(s1.icp_to_evm_txs.insert(k, s1.icp_to_evm_txs[k]) =~= s1.icp_to_evm_txs);
        },
        EventPayload::AcceptedErc20WithdrawalRequest { native_ledger_burn_index, .. } => {
            let k = (native_ledger_burn_index@, m.chain_id);
            assert(s1.icp_to_evm_txs.insert(k, s1.icp_to_evm_txs[k]) =~= s1.icp_to_evm_txs);
        },
        _ => {},
    }
}

} // verus!
