//! Folds the event pages of both minters into the canonical vocabulary.

use crate::appic_events::{
    is_transfer_payload, payload_is_transfer, AppicGetEventsResult, Event, EventPayload,
    EventSource, ReimbursementIndex,
};
use crate::dfinity_events::{
    is_bookkeeping, DfinityCkGetEventsResult, Event as DfinityEvent,
    EventPayload as DfinityEventPayload, EventSource as DfinityEventSource,
    ReimbursementIndex as DfinityReimbursementIndex,
};
use vstd::prelude::*;

verus! {

/// Canonical events, in the order in which the minter emitted them.
#[derive(Clone, Debug, PartialEq, Eq)]
pub struct Events {
    pub events: Vec<Event>,
}

/// Maps a minter's page of events to canonical events.
pub trait Reduce: Sized {
    /// The canonical events that a page reduces to.
    spec fn reduced(self) -> Seq<Event>;

    fn reduce(self) -> (r: Events)
        ensures
            r.events@ == self.reduced(),
    ;
}

/// The canonical form of a ckETH event source.
pub open spec fn canonical_source(s: DfinityEventSource) -> EventSource {
    EventSource { transaction_hash: s.transaction_hash, log_index: s.log_index }
}

/// The canonical form of a ckETH reimbursement index.
pub open spec fn canonical_index(i: DfinityReimbursementIndex) -> ReimbursementIndex {
    match i {
        DfinityReimbursementIndex::CkEth { ledger_burn_index } => ReimbursementIndex::Native {
            ledger_burn_index,
        },
        DfinityReimbursementIndex::CkErc20 {
            cketh_ledger_burn_index,
            ledger_id,
            ckerc20_ledger_burn_index,
        } => ReimbursementIndex::Erc20 {
            native_ledger_burn_index: cketh_ledger_burn_index,
            ledger_id,
            erc20_ledger_burn_index: ckerc20_ledger_burn_index,
        },
    }
}

/// The canonical payload for a ckETH payload: bookkeeping gives `None`; the
/// rest keep their fields under the canonical names.
pub open spec fn canonical_payload(p: DfinityEventPayload) -> Option<EventPayload> {
    match p {
        DfinityEventPayload::AcceptedDeposit {
            transaction_hash,
            block_number,
            log_index,
            from_address,
            value,
            principal,
            subaccount,
        } => Some(
            EventPayload::AcceptedDeposit {
                transaction_hash,
                block_number,
                log_index,
                from_address,
                value,
                principal,
                subaccount,
            },
        ),
        DfinityEventPayload::AcceptedErc20Deposit {
            transaction_hash,
            block_number,
            log_index,
            from_address,
            value,
            principal,
            erc20_contract_address,
            subaccount,
        } => Some(
            EventPayload::AcceptedErc20Deposit {
                transaction_hash,
                block_number,
                log_index,
                from_address,
                value,
                principal,
                erc20_contract_address,
                subaccount,
            },
        ),
        DfinityEventPayload::InvalidDeposit { event_source, reason } => Some(
            EventPayload::InvalidDeposit { event_source: canonical_source(event_source), reason },
        ),
        DfinityEventPayload::MintedCkEth { event_source, mint_block_index } => Some(
            EventPayload::MintedNative {
                event_source: canonical_source(event_source),
                mint_block_index,
            },
        ),
        DfinityEventPayload::AcceptedEthWithdrawalRequest {
            withdrawal_amount,
            destination,
            ledger_burn_index,
            from,
            from_subaccount,
            created_at,
        } => Some(
            EventPayload::AcceptedNativeWithdrawalRequest {
                withdrawal_amount,
                destination,
                ledger_burn_index,
                from,
                from_subaccount,
                created_at,
            },
        ),
        DfinityEventPayload::CreatedTransaction { withdrawal_id, transaction } => Some(
            EventPayload::CreatedTransaction { withdrawal_id, transaction },
        ),
        DfinityEventPayload::SignedTransaction { withdrawal_id, raw_transaction } => Some(
            EventPayload::SignedTransaction { withdrawal_id, raw_transaction },
        ),
        DfinityEventPayload::ReplacedTransaction { withdrawal_id, transaction } => Some(
            EventPayload::ReplacedTransaction { withdrawal_id, transaction },
        ),
        DfinityEventPayload::FinalizedTransaction { withdrawal_id, transaction_receipt } => Some(
            EventPayload::FinalizedTransaction { withdrawal_id, transaction_receipt },
        ),
        DfinityEventPayload::ReimbursedEthWithdrawal {
            reimbursed_in_block,
            withdrawal_id,
            reimbursed_amount,
            transaction_hash,
        } => Some(
            EventPayload::ReimbursedNativeWithdrawal {
                reimbursed_in_block,
                withdrawal_id,
                reimbursed_amount,
                transaction_hash,
            },
        ),
        DfinityEventPayload::ReimbursedErc20Withdrawal {
            withdrawal_id,
            burn_in_block,
            reimbursed_in_block,
            ledger_id,
            reimbursed_amount,
            transaction_hash,
        } => Some(
            EventPayload::ReimbursedErc20Withdrawal {
                withdrawal_id,
                burn_in_block,
                reimbursed_in_block,
                ledger_id,
                reimbursed_amount,
                transaction_hash,
            },
        ),
        DfinityEventPayload::AcceptedErc20WithdrawalRequest {
            max_transaction_fee,
            withdrawal_amount,
            erc20_contract_address,
            destination,
            cketh_ledger_burn_index,
            ckerc20_ledger_id,
            ckerc20_ledger_burn_index,
            from,
            from_subaccount,
            created_at,
        } => Some(
            EventPayload::AcceptedErc20WithdrawalRequest {
                max_transaction_fee,
                withdrawal_amount,
                erc20_contract_address,
                destination,
                native_ledger_burn_index: cketh_ledger_burn_index,
                erc20_ledger_id: ckerc20_ledger_id,
                erc20_ledger_burn_index: ckerc20_ledger_burn_index,
                from,
                from_subaccount,
                created_at,
            },
        ),
        DfinityEventPayload::FailedErc20WithdrawalRequest {
            withdrawal_id,
            reimbursed_amount,
            to,
            to_subaccount,
        } => Some(
            EventPayload::FailedErc20WithdrawalRequest {
                withdrawal_id,
                reimbursed_amount,
                to,
                to_subaccount,
            },
        ),
        DfinityEventPayload::MintedCkErc20 {
            event_source,
            mint_block_index,
            ckerc20_token_symbol,
            erc20_contract_address,
        } => Some(
            EventPayload::MintedErc20 {
                event_source: canonical_source(event_source),
                mint_block_index,
                erc20_token_symbol: ckerc20_token_symbol,
                erc20_contract_address,
            },
        ),
        DfinityEventPayload::QuarantinedDeposit { event_source } => Some(
            EventPayload::QuarantinedDeposit { event_source: canonical_source(event_source) },
        ),
        DfinityEventPayload::QuarantinedReimbursement { index } => Some(
            EventPayload::QuarantinedReimbursement { index: canonical_index(index) },
        ),
        _ => None,
    }
}

/// The canonical event for a ckETH event, with the same timestamp.
pub open spec fn canonical_event(e: DfinityEvent) -> Option<Event> {
    match canonical_payload(e.payload) {
        Some(p) => Some(Event { timestamp: e.timestamp, payload: p }),
        None => None,
    }
}

fn reduce_source(s: DfinityEventSource) -> (r: EventSource)
    ensures
        r == canonical_source(s),
{
    EventSource { transaction_hash: s.transaction_hash, log_index: s.log_index }
}

fn reduce_index(i: DfinityReimbursementIndex) -> (r: ReimbursementIndex)
    ensures
        r == canonical_index(i),
{
    match i {
        DfinityReimbursementIndex::CkEth { ledger_burn_index } => ReimbursementIndex::Native {
            ledger_burn_index,
        },
        DfinityReimbursementIndex::CkErc20 {
            cketh_ledger_burn_index,
            ledger_id,
            ckerc20_ledger_burn_index,
        } => ReimbursementIndex::Erc20 {
            native_ledger_burn_index: cketh_ledger_burn_index,
            ledger_id,
            erc20_ledger_burn_index: ckerc20_ledger_burn_index,
        },
    }
}

/// Renames one ckETH payload into the canonical vocabulary, or drops it.
pub fn reduce_payload(p: DfinityEventPayload) -> (r: Option<EventPayload>)
    ensures
        r == canonical_payload(p),
{
    match p {
        DfinityEventPayload::AcceptedDeposit {
            transaction_hash,
            block_number,
            log_index,
            from_address,
            value,
            principal,
            subaccount,
        } => Some(
            EventPayload::AcceptedDeposit {
                transaction_hash,
                block_number,
                log_index,
                from_address,
                value,
                principal,
                subaccount,
            },
        ),
        DfinityEventPayload::AcceptedErc20Deposit {
            transaction_hash,
            block_number,
            log_index,
            from_address,
            value,
            principal,
            erc20_contract_address,
            subaccount,
        } => Some(
            EventPayload::AcceptedErc20Deposit {
                transaction_hash,
                block_number,
                log_index,
                from_address,
                value,
                principal,
                erc20_contract_address,
                subaccount,
            },
        ),
        DfinityEventPayload::InvalidDeposit { event_source, reason } => Some(
            EventPayload::InvalidDeposit { event_source: reduce_source(event_source), reason },
        ),
        DfinityEventPayload::MintedCkEth { event_source, mint_block_index } => Some(
            EventPayload::MintedNative { event_source: reduce_source(event_source), mint_block_index },
        ),
        DfinityEventPayload::AcceptedEthWithdrawalRequest {
            withdrawal_amount,
            destination,
            ledger_burn_index,
            from,
            from_subaccount,
            created_at,
        } => Some(
            EventPayload::AcceptedNativeWithdrawalRequest {
                withdrawal_amount,
                destination,
                ledger_burn_index,
                from,
                from_subaccount,
                created_at,
            },
        ),
        DfinityEventPayload::CreatedTransaction { withdrawal_id, transaction } => Some(
            EventPayload::CreatedTransaction { withdrawal_id, transaction },
        ),
        DfinityEventPayload::SignedTransaction { withdrawal_id, raw_transaction } => Some(
            EventPayload::SignedTransaction { withdrawal_id, raw_transaction },
        ),
        DfinityEventPayload::ReplacedTransaction { withdrawal_id, transaction } => Some(
            EventPayload::ReplacedTransaction { withdrawal_id, transaction },
        ),
        DfinityEventPayload::FinalizedTransaction { withdrawal_id, transaction_receipt } => Some(
            EventPayload::FinalizedTransaction { withdrawal_id, transaction_receipt },
        ),
        DfinityEventPayload::ReimbursedEthWithdrawal {
            reimbursed_in_block,
            withdrawal_id,
            reimbursed_amount,
            transaction_hash,
        } => Some(
            EventPayload::ReimbursedNativeWithdrawal {
                reimbursed_in_block,
                withdrawal_id,
                reimbursed_amount,
                transaction_hash,
            },
        ),
        DfinityEventPayload::ReimbursedErc20Withdrawal {
            withdrawal_id,
            burn_in_block,
            reimbursed_in_block,
            ledger_id,
            reimbursed_amount,
            transaction_hash,
        } => Some(
            EventPayload::ReimbursedErc20Withdrawal {
                withdrawal_id,
                burn_in_block,
                reimbursed_in_block,
                ledger_id,
                reimbursed_amount,
                transaction_hash,
            },
        ),
        DfinityEventPayload::AcceptedErc20WithdrawalRequest {
            max_transaction_fee,
            withdrawal_amount,
            erc20_contract_address,
            destination,
            cketh_ledger_burn_index,
            ckerc20_ledger_id,
            ckerc20_ledger_burn_index,
            from,
            from_subaccount,
            created_at,
        } => Some(
            EventPayload::AcceptedErc20WithdrawalRequest {
                max_transaction_fee,
                withdrawal_amount,
                erc20_contract_address,
                destination,
                native_ledger_burn_index: cketh_ledger_burn_index,
                erc20_ledger_id: ckerc20_ledger_id,
                erc20_ledger_burn_index: ckerc20_ledger_burn_index,
                from,
                from_subaccount,
                created_at,
            },
        ),
        DfinityEventPayload::FailedErc20WithdrawalRequest {
            withdrawal_id,
            reimbursed_amount,
            to,
            to_subaccount,
        } => Some(
            EventPayload::FailedErc20WithdrawalRequest {
                withdrawal_id,
                reimbursed_amount,
                to,
                to_subaccount,
            },
        ),
        DfinityEventPayload::MintedCkErc20 {
            event_source,
            mint_block_index,
            ckerc20_token_symbol,
            erc20_contract_address,
        } => Some(
            EventPayload::MintedErc20 {
                event_source: reduce_source(event_source),
                mint_block_index,
                erc20_token_symbol: ckerc20_token_symbol,
                erc20_contract_address,
            },
        ),
        DfinityEventPayload::QuarantinedDeposit { event_source } => Some(
            EventPayload::QuarantinedDeposit { event_source: reduce_source(event_source) },
        ),
        DfinityEventPayload::QuarantinedReimbursement { index } => Some(
            EventPayload::QuarantinedReimbursement { index: reduce_index(index) },
        ),
        _ => None,
    }
}

/// The ckETH page in the canonical vocabulary: bookkeeping dropped, every
/// other event renamed, in order and with its timestamp; the event count kept.
pub fn appic_result_from_dfinity(value: DfinityCkGetEventsResult) -> (r: AppicGetEventsResult)
    ensures
        r.events@ == value.events@.filter_map(|e: DfinityEvent| canonical_event(e)),
        r.total_event_count == value.total_event_count,
{
    let ghost s = value.events@;
    let total_event_count = value.total_event_count;
    let mut rest = value.events;
    let mut out: Vec<Event> = Vec::new();
    let mut i: usize = 0;
    let total: usize = rest.len();
    assert(s.len() == total);
    while rest.len() > 0
        invariant
            i <= s.len(),
            rest@ == s.subrange(i as int, s.len() as int),
            rest@.len() + i == s.len(),
            s.len() <= usize::MAX,
            out@ == s.subrange(0, i as int).filter_map(|e: DfinityEvent| canonical_event(e)),
        decreases rest@.len(),
    {
        let e = rest.remove(0);
        proof {
            assert(s.subrange(0, i + 1).drop_last() =~= s.subrange(0, i as int));
            assert(s.subrange(0, i + 1).last() == e);
        }
        let timestamp = e.timestamp;
        match reduce_payload(e.payload) {
            Some(p) => {
                out.push(Event { timestamp, payload: p });
            },
            None => {},
        }
        i = i + 1;
        proof {
            reveal(Seq::filter);
            assert(rest@ =~= s.subrange(i as int, s.len() as int));
            assert(out@ =~= s.subrange(0, i as int).filter_map(|e: DfinityEvent| canonical_event(e)));
        }
    }
    assert(s.subrange(0, i as int) =~= s);
    AppicGetEventsResult { events: out, total_event_count }
}

impl Reduce for DfinityCkGetEventsResult {
    open spec fn reduced(self) -> Seq<Event> {
        self.events@.filter_map(|e: DfinityEvent| canonical_event(e))
    }

    fn reduce(self) -> (r: Events) {
        Events { events: appic_result_from_dfinity(self).events }
    }
}

impl Reduce for AppicGetEventsResult {
    open spec fn reduced(self) -> Seq<Event> {
        self.events@.filter(|e: Event| is_transfer_payload(e.payload))
    }

    fn reduce(self) -> (r: Events) {
        let ghost s = self.events@;
        let mut rest = self.events;
        let mut out: Vec<Event> = Vec::new();
        let mut i: usize = 0;
        let total: usize = rest.len();
        assert(s.len() == total);
        while rest.len() > 0
            invariant
                i <= s.len(),
                rest@ == s.subrange(i as int, s.len() as int),
                rest@.len() + i == s.len(),
                s.len() <= usize::MAX,
                out@ == s.subrange(0, i as int).filter(|e: Event| is_transfer_payload(e.payload)),
            decreases rest@.len(),
        {
            let e = rest.remove(0);
            proof {
                assert(s.subrange(0, i + 1).drop_last() =~= s.subrange(0, i as int));
                assert(s.subrange(0, i + 1).last() == e);
            }
            if payload_is_transfer(&e.payload) {
                out.push(e);
            }
            i = i + 1;
            proof {
                reveal(Seq::filter);
                assert(rest@ =~= s.subrange(i as int, s.len() as int));
                assert(out@ =~= s.subrange(0, i as int).filter(|e: Event| is_transfer_payload(e.payload)));
            }
        }
        assert(s.subrange(0, i as int) =~= s);
        Events { events: out }
    }
}

/// Reducing a ckETH page drops exactly the bookkeeping events and keeps every
/// other event, renamed, in the order of the page.
pub proof fn lemma_dfinity_reduce_drops_only_bookkeeping(page: DfinityCkGetEventsResult)
    ensures
        page.reduced() == page.events@.filter(|e: DfinityEvent| !is_bookkeeping(e.payload)).map_values(
            |e: DfinityEvent| canonical_event(e).unwrap(),
        ),
{
    lemma_filter_map_is_filter_then_map(page.events@);
}

proof fn lemma_filter_map_is_filter_then_map(s: Seq<DfinityEvent>)
    ensures
        s.filter_map(|e: DfinityEvent| canonical_event(e)) == s.filter(
            |e: DfinityEvent| !is_bookkeeping(e.payload),
        ).map_values(|e: DfinityEvent| canonical_event(e).unwrap()),
    decreases s.len(),
{
    let f = |e: DfinityEvent| canonical_event(e);
    let p = |e: DfinityEvent| !is_bookkeeping(e.payload);
    let g = |e: DfinityEvent| canonical_event(e).unwrap();
    reveal(Seq::filter);
    if s.len() > 0 {
        lemma_filter_map_is_filter_then_map(s.drop_last());
        let last = s.last();
        assert(canonical_event(last).is_some() == p(last));
        if p(last) {
            assert(s.filter(p) == s.drop_last().filter(p).push(last));
            assert(s.filter(p).map_values(g) =~= s.drop_last().filter(p).map_values(g).push(g(last)));
            assert(s.filter_map(f) == s.drop_last().filter_map(f) + seq![g(last)]);
            assert(s.filter_map(f) =~= s.filter(p).map_values(g));
        } else {
            assert(s.filter(p) == s.drop_last().filter(p));
            assert(s.filter_map(f) == s.drop_last().filter_map(f));
        }
    } else {
        assert(s.filter(p).map_values(g) =~= s.filter_map(f));
    }
}

/// Reducing an Appic page keeps exactly the transfer events, in their order:
/// every kept event is a transfer event, and every transfer event of the page
/// is kept.
pub proof fn lemma_appic_reduce_keeps_transfers(page: AppicGetEventsResult)
    ensures
        forall|i: int|
            0 <= i < page.reduced().len() ==> is_transfer_payload(#[trigger] page.reduced()[i].payload),
        forall|e: Event|
            page.events@.contains(e) && is_transfer_payload(e.payload) ==> #[trigger] page.reduced().contains(e),
{
    let p = |e: Event| is_transfer_payload(e.payload);
    assert forall|i: int| 0 <= i < page.reduced().len() implies is_transfer_payload(
        #[trigger] page.reduced()[i].payload,
    ) by {
        page.events@.lemma_filter_pred(p, i);
    }
    assert forall|e: Event| page.events@.contains(e) && is_transfer_payload(e.payload) implies #[trigger] page.reduced().contains(e) by {
        page.events@.lemma_filter_contains_rev(p, e);
    }
}

} // verus!
