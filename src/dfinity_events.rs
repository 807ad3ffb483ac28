//! The event vocabulary of the ckETH minter, which names several fields along a
//! `ck*` axis and carries chain bookkeeping of its own.

use crate::appic_events::{TransactionReceipt, UnsignedTransaction};
use crate::ids::PrincipalId;
use crate::numeric::BigNat;
use vstd::prelude::*;

verus! {

/// Where a deposit was observed on the EVM side.
#[derive(Clone, Debug, PartialEq, Eq)]
pub struct EventSource {
    pub transaction_hash: String,
    pub log_index: BigNat,
}

/// Identifies the withdrawal whose reimbursement was quarantined.
#[derive(Clone, Debug, PartialEq, Eq)]
pub enum ReimbursementIndex {
    CkEth { ledger_burn_index: BigNat },
    CkErc20 { cketh_ledger_burn_index: BigNat, ledger_id: PrincipalId, ckerc20_ledger_burn_index: BigNat },
}

/// What one event of the ckETH minter says.
#[derive(Clone, Debug, PartialEq, Eq)]
pub enum EventPayload {
    Init,
    Upgrade,
    AcceptedDeposit {
        transaction_hash: String,
        block_number: BigNat,
        log_index: BigNat,
        from_address: String,
        value: BigNat,
        principal: PrincipalId,
        subaccount: Option<[u8; 32]>,
    },
    AcceptedErc20Deposit {
        transaction_hash: String,
        block_number: BigNat,
        log_index: BigNat,
        from_address: String,
        value: BigNat,
        principal: PrincipalId,
        erc20_contract_address: String,
        subaccount: Option<[u8; 32]>,
    },
    InvalidDeposit { event_source: EventSource, reason: String },
    MintedCkEth { event_source: EventSource, mint_block_index: BigNat },
    SyncedToBlock { block_number: BigNat },
    SyncedErc20ToBlock { block_number: BigNat },
    SyncedDepositWithSubaccountToBlock { block_number: BigNat },
    AcceptedEthWithdrawalRequest {
        withdrawal_amount: BigNat,
        destination: String,
        ledger_burn_index: BigNat,
        from: PrincipalId,
        from_subaccount: Option<[u8; 32]>,
        created_at: Option<u64>,
    },
    CreatedTransaction { withdrawal_id: BigNat, transaction: UnsignedTransaction },
    SignedTransaction { withdrawal_id: BigNat, raw_transaction: String },
    ReplacedTransaction { withdrawal_id: BigNat, transaction: UnsignedTransaction },
    FinalizedTransaction { withdrawal_id: BigNat, transaction_receipt: TransactionReceipt },
    ReimbursedEthWithdrawal {
        reimbursed_in_block: BigNat,
        withdrawal_id: BigNat,
        reimbursed_amount: BigNat,
        transaction_hash: Option<String>,
    },
    ReimbursedErc20Withdrawal {
        withdrawal_id: BigNat,
        burn_in_block: BigNat,
        reimbursed_in_block: BigNat,
        ledger_id: PrincipalId,
        reimbursed_amount: BigNat,
        transaction_hash: Option<String>,
    },
    SkippedBlock { contract_address: Option<String>, block_number: BigNat },
    AddedCkErc20Token {
        chain_id: BigNat,
        address: String,
        ckerc20_token_symbol: String,
        ckerc20_ledger_id: PrincipalId,
    },
    AcceptedErc20WithdrawalRequest {
        max_transaction_fee: BigNat,
        withdrawal_amount: BigNat,
        erc20_contract_address: String,
        destination: String,
        cketh_ledger_burn_index: BigNat,
        ckerc20_ledger_id: PrincipalId,
        ckerc20_ledger_burn_index: BigNat,
        from: PrincipalId,
        from_subaccount: Option<[u8; 32]>,
        created_at: u64,
    },
    FailedErc20WithdrawalRequest {
        withdrawal_id: BigNat,
        reimbursed_amount: BigNat,
        to: PrincipalId,
        to_subaccount: Option<[u8; 32]>,
    },
    MintedCkErc20 {
        event_source: EventSource,
        mint_block_index: BigNat,
        ckerc20_token_symbol: String,
        erc20_contract_address: String,
    },
    QuarantinedDeposit { event_source: EventSource },
    QuarantinedReimbursement { index: ReimbursementIndex },
}

/// One timestamped event.
#[derive(Clone, Debug, PartialEq, Eq)]
pub struct Event {
    pub timestamp: u64,
    pub payload: EventPayload,
}

/// A page of the ckETH minter's event log.
#[derive(Clone, Debug, PartialEq, Eq)]
pub struct DfinityCkGetEventsResult {
    pub events: Vec<Event>,
    pub total_event_count: u64,
}

/// Whether a payload is bookkeeping of the minter itself, which the logger drops.
pub open spec fn is_bookkeeping(p: EventPayload) -> bool {
    p is Init || p is Upgrade || p is SyncedToBlock || p is SyncedErc20ToBlock
        || p is SyncedDepositWithSubaccountToBlock || p is SkippedBlock || p is AddedCkErc20Token
}

} // verus!
