//! The canonical event vocabulary. It is the one the Appic minter emits; the
//! logger consumes only its transfer-related variants.

use crate::ids::PrincipalId;
use crate::numeric::BigNat;
use vstd::prelude::*;

verus! {

/// Where a deposit was observed on the EVM side.
#[derive(Clone, Debug, PartialEq, Eq)]
pub struct EventSource {
    pub transaction_hash: String,
    pub log_index: BigNat,
}

/// Outcome of an EVM transaction.
#[derive(Clone, Copy, Debug, PartialEq, Eq, Structural)]
pub enum TransactionStatus {
    Success,
    Failure,
}

/// Receipt of a mined EVM transaction.
#[derive(Clone, Debug, PartialEq, Eq)]
pub struct TransactionReceipt {
    pub block_hash: String,
    pub block_number: BigNat,
    pub effective_gas_price: BigNat,
    pub gas_used: BigNat,
    pub status: TransactionStatus,
    pub transaction_hash: String,
}

/// An EIP-1559 transaction before signing.
#[derive(Clone, Debug, PartialEq, Eq)]
pub struct UnsignedTransaction {
    pub chain_id: BigNat,
    pub nonce: BigNat,
    pub max_priority_fee_per_gas: BigNat,
    pub max_fee_per_gas: BigNat,
    pub gas_limit: BigNat,
    pub destination: String,
    pub value: BigNat,
    pub data: Vec<u8>,
}

/// Identifies the withdrawal whose reimbursement was quarantined.
#[derive(Clone, Debug, PartialEq, Eq)]
pub enum ReimbursementIndex {
    Native { ledger_burn_index: BigNat },
    Erc20 { native_ledger_burn_index: BigNat, ledger_id: PrincipalId, erc20_ledger_burn_index: BigNat },
}

/// What one event of a minter says.
#[derive(Clone, Debug, PartialEq, Eq)]
pub enum EventPayload {
    Init,
    Upgrade,
    AcceptedDeposit {
        transaction_hash: String,
        block_number: BigNat,
        log_index: BigNat,
        from_address: String,
        value: BigNat,
        principal: PrincipalId,
        subaccount: Option<[u8; 32]>,
    },
    AcceptedErc20Deposit {
        transaction_hash: String,
        block_number: BigNat,
        log_index: BigNat,
        from_address: String,
        value: BigNat,
        principal: PrincipalId,
        erc20_contract_address: String,
        subaccount: Option<[u8; 32]>,
    },
    InvalidDeposit { event_source: EventSource, reason: String },
    MintedNative { event_source: EventSource, mint_block_index: BigNat },
    SyncedToBlock { block_number: BigNat },
    AcceptedNativeWithdrawalRequest {
        withdrawal_amount: BigNat,
        destination: String,
        ledger_burn_index: BigNat,
        from: PrincipalId,
        from_subaccount: Option<[u8; 32]>,
        created_at: Option<u64>,
    },
    CreatedTransaction { withdrawal_id: BigNat, transaction: UnsignedTransaction },
    SignedTransaction { withdrawal_id: BigNat, raw_transaction: String },
    ReplacedTransaction { withdrawal_id: BigNat, transaction: UnsignedTransaction },
    FinalizedTransaction { withdrawal_id: BigNat, transaction_receipt: TransactionReceipt },
    ReimbursedNativeWithdrawal {
        reimbursed_in_block: BigNat,
        withdrawal_id: BigNat,
        reimbursed_amount: BigNat,
        transaction_hash: Option<String>,
    },
    ReimbursedErc20Withdrawal {
        withdrawal_id: BigNat,
        burn_in_block: BigNat,
        reimbursed_in_block: BigNat,
        ledger_id: PrincipalId,
        reimbursed_amount: BigNat,
        transaction_hash: Option<String>,
    },
    SkippedBlock { block_number: BigNat },
    AddedErc20Token {
        chain_id: BigNat,
        address: String,
        erc20_token_symbol: String,
        erc20_ledger_id: PrincipalId,
    },
    AcceptedErc20WithdrawalRequest {
        max_transaction_fee: BigNat,
        withdrawal_amount: BigNat,
        erc20_contract_address: String,
        destination: String,
        native_ledger_burn_index: BigNat,
        erc20_ledger_id: PrincipalId,
        erc20_ledger_burn_index: BigNat,
        from: PrincipalId,
        from_subaccount: Option<[u8; 32]>,
        created_at: u64,
    },
    MintedErc20 {
        event_source: EventSource,
        mint_block_index: BigNat,
        erc20_token_symbol: String,
        erc20_contract_address: String,
    },
    QuarantinedDeposit { event_source: EventSource },
    QuarantinedReimbursement { index: ReimbursementIndex },
    FailedErc20WithdrawalRequest {
        withdrawal_id: BigNat,
        reimbursed_amount: BigNat,
        to: PrincipalId,
        to_subaccount: Option<[u8; 32]>,
    },
}

/// One timestamped event.
#[derive(Clone, Debug, PartialEq, Eq)]
pub struct Event {
    pub timestamp: u64,
    pub payload: EventPayload,
}

/// A page of a minter's event log.
#[derive(Clone, Debug, PartialEq, Eq)]
pub struct AppicGetEventsResult {
    pub events: Vec<Event>,
    pub total_event_count: u64,
}

/// Whether a payload is one of the transfer-related variants the logger applies;
/// the minter's own bookkeeping (init, upgrade, sync, skipped block, new token) is not.
pub open spec fn is_transfer_payload(p: EventPayload) -> bool {
    !(p is Init || p is Upgrade || p is SyncedToBlock || p is SkippedBlock || p is AddedErc20Token)
}

/// Executable form of [`is_transfer_payload`].
pub fn payload_is_transfer(p: &EventPayload) -> (r: bool)
    ensures
        r == is_transfer_payload(*p),
{
    match p {
        EventPayload::Init => false,
        EventPayload::Upgrade => false,
        EventPayload::SyncedToBlock { .. } => false,
        EventPayload::SkippedBlock { .. } => false,
        EventPayload::AddedErc20Token { .. } => false,
        _ => true,
    }
}

} // verus!
