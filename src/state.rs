//! The transfer store: registered minters, token-pair tables and the two maps
//! of live transfers, with the mutators that advance each transfer.

use crate::appic_events::{TransactionReceipt, TransactionStatus};
use crate::guard::{TaskSet, TaskType};
use crate::ids::{is_native_address, is_native_token, ChainId, EvmAddress, Oprator, PrincipalId};
use crate::keyed::{Duplicate, KeyEq, KeyOrd, KeyedMap};
use crate::order::{bytes_le, lemma_lex_order, lemma_pair_order, pair_le};
use vstd::utf8::encode_utf8;
use crate::numeric::BigNat;
use vstd::prelude::*;

verus! {

/// The values of an optional number.
pub open spec fn opt_nat(o: Option<BigNat>) -> Option<nat> {
    match o {
        Some(n) => Some(n@),
        None => None,
    }
}

/// The bytes of an optional principal.
pub open spec fn opt_principal(o: Option<PrincipalId>) -> Option<Seq<u8>> {
    match o {
        Some(p) => Some(p@),
        None => None,
    }
}

/// The characters of an optional string.
pub open spec fn opt_text(o: Option<String>) -> Option<Seq<char>> {
    match o {
        Some(s) => Some(s@),
        None => None,
    }
}

fn duplicate_opt_nat(o: &Option<BigNat>) -> (r: Option<BigNat>)
    ensures
        opt_nat(r) == opt_nat(*o),
{
    match o {
        Some(n) => Some(n.duplicate()),
        None => None,
    }
}

fn duplicate_opt_principal(o: &Option<PrincipalId>) -> (r: Option<PrincipalId>)
    ensures
        opt_principal(r) == opt_principal(*o),
{
    match o {
        Some(p) => Some(p.duplicate()),
        None => None,
    }
}

fn duplicate_opt_text(o: &Option<String>) -> (r: Option<String>)
    ensures
        r == *o,
{
    match o {
        Some(s) => Some(s.clone()),
        None => None,
    }
}

/// A registered event source.
#[derive(Clone, Debug, PartialEq, Eq)]
pub struct Minter {
    pub id: PrincipalId,
    pub last_observed_event: u64,
    pub last_scraped_event: u64,
    pub oprator: Oprator,
    pub evm_to_icp_fee: BigNat,
    pub icp_to_evm_fee: BigNat,
    pub chain_id: ChainId,
}

/// What a [`Minter`] holds, with numbers as values.
pub struct MinterView {
    pub id: Seq<u8>,
    pub last_observed_event: u64,
    pub last_scraped_event: u64,
    pub oprator: Oprator,
    pub evm_to_icp_fee: nat,
    pub icp_to_evm_fee: nat,
    pub chain_id: ChainId,
}

impl View for Minter {
    type V = MinterView;

    open spec fn view(&self) -> MinterView {
        MinterView {
            id: self.id@,
            last_observed_event: self.last_observed_event,
            last_scraped_event: self.last_scraped_event,
            oprator: self.oprator,
            evm_to_icp_fee: self.evm_to_icp_fee@,
            icp_to_evm_fee: self.icp_to_evm_fee@,
            chain_id: self.chain_id,
        }
    }
}

/// The registry key of a minter.
#[derive(Clone, Copy, PartialEq, Eq, Structural, PartialOrd, Ord, Debug, Hash)]
pub struct MinterKey(pub ChainId, pub Oprator);

impl View for MinterKey {
    type V = MinterKey;

    open spec fn view(&self) -> MinterKey {
        *self
    }
}

impl KeyEq for MinterKey {
    fn key_eq(&self, other: &Self) -> (r: bool) {
        *self == *other
    }
}

/// Position of an operator in the order of the registry.
pub open spec fn oprator_rank(o: Oprator) -> int {
    match o {
        Oprator::DfinityCkEthMinter => 0,
        Oprator::AppicMinter => 1,
    }
}

impl KeyOrd for MinterKey {
    /// By chain, then ckETH minter before Appic minter.
    open spec fn key_order(a: MinterKey, b: MinterKey) -> bool {
        a.0.0 < b.0.0 || (a.0.0 == b.0.0 && oprator_rank(a.1) <= oprator_rank(b.1))
    }

    fn key_le(&self, other: &Self) -> (r: bool) {
        self.0.0 < other.0.0 || (self.0.0 == other.0.0 && match self.1 {
            Oprator::DfinityCkEthMinter => true,
            Oprator::AppicMinter => other.1 == Oprator::AppicMinter,
        })
    }

    proof fn lemma_le_order(a: MinterKey, b: MinterKey, c: MinterKey) {
    }
}

impl Duplicate for MinterKey {
    fn duplicate(&self) -> (r: Self) {
        *self
    }
}

impl MinterKey {
    pub fn oprator(&self) -> (r: Oprator)
        ensures
            r == self.1,
    {
        self.1
    }

    pub fn chain_id(&self) -> (r: ChainId)
        ensures
            r == self.0,
    {
        self.0
    }
}

impl MinterView {
    /// The cursor invariant: nothing is scraped beyond what was observed.
    pub open spec fn wf(&self) -> bool {
        self.last_scraped_event <= self.last_observed_event
    }

    pub open spec fn key(&self) -> MinterKey {
        MinterKey(self.chain_id, self.oprator)
    }
}

/// Arguments that register a minter.
#[derive(Clone, Debug, PartialEq, Eq)]
pub struct MinterArgs {
    pub chain_id: BigNat,
    pub minter_id: PrincipalId,
    pub oprator: Oprator,
    pub last_observed_event: BigNat,
    pub last_scraped_event: BigNat,
    pub evm_to_icp_fee: BigNat,
    pub icp_to_evm_fee: BigNat,
}

/// Arguments of the logger at installation.
#[derive(Clone, Debug, PartialEq, Eq)]
pub struct InitArgs {
    pub minters: Vec<MinterArgs>,
}

/// Why minter arguments were refused.
#[derive(Clone, Copy, Debug, PartialEq, Eq, Structural)]
pub enum MinterArgsError {
    /// The chain id or a cursor does not fit in 64 bits.
    NumberTooLarge,
    /// The scraped cursor is ahead of the observed one.
    ScrapedAheadOfObserved,
}

/// Whether minter arguments describe a valid minter.
pub open spec fn minter_args_error(args: MinterArgs) -> Option<MinterArgsError> {
    if args.chain_id@ > u64::MAX || args.last_observed_event@ > u64::MAX || args.last_scraped_event@
        > u64::MAX {
        Some(MinterArgsError::NumberTooLarge)
    } else if args.last_scraped_event@ > args.last_observed_event@ {
        Some(MinterArgsError::ScrapedAheadOfObserved)
    } else {
        None
    }
}

/// The view of the minter that valid arguments describe.
pub open spec fn minter_of_args(args: MinterArgs) -> MinterView {
    MinterView {
        id: args.minter_id@,
        last_observed_event: args.last_observed_event@ as u64,
        last_scraped_event: args.last_scraped_event@ as u64,
        oprator: args.oprator,
        evm_to_icp_fee: args.evm_to_icp_fee@,
        icp_to_evm_fee: args.icp_to_evm_fee@,
        chain_id: ChainId(args.chain_id@ as u64),
    }
}

impl Minter {
    /// Moves the observed cursor forward.
    pub fn update_last_observed_event(&mut self, event: u64)
        requires
            old(self).last_observed_event <= event,
        ensures
            *final(self) == (Minter { last_observed_event: event, ..*old(self) }),
    {
        self.last_observed_event = event;
    }

    /// Moves the scraped cursor forward, never past the observed one.
    pub fn update_last_scraped_event(&mut self, event: u64)
        requires
            old(self).last_scraped_event <= event <= old(self).last_observed_event,
        ensures
            *final(self) == (Minter { last_scraped_event: event, ..*old(self) }),
    {
        self.last_scraped_event = event;
    }

    /// The minter that `args` describe, unless a number does not fit or the
    /// scraped cursor is ahead of the observed one.
    pub fn from_minter_args(args: MinterArgs) -> (r: Result<Minter, MinterArgsError>)
        ensures
            minter_args_error(args) matches Some(e) ==> r == Err::<Minter, MinterArgsError>(e),
            minter_args_error(args).is_none() ==> (r matches Ok(m) && m.wf() && m@ == minter_of_args(args)),
    {
        let chain_id = args.chain_id.to_u64();
        let observed = args.last_observed_event.to_u64();
        let scraped = args.last_scraped_event.to_u64();
        match (chain_id, observed, scraped) {
            (Some(chain_id), Some(observed), Some(scraped)) => {
                if scraped > observed {
                    return Err(MinterArgsError::ScrapedAheadOfObserved);
                }
                Ok(
                    Minter {
                        id: args.minter_id,
                        last_observed_event: observed,
                        last_scraped_event: scraped,
                        oprator: args.oprator,
                        evm_to_icp_fee: args.evm_to_icp_fee,
                        icp_to_evm_fee: args.icp_to_evm_fee,
                        chain_id: ChainId(chain_id),
                    },
                )
            },
            _ => Err(MinterArgsError::NumberTooLarge),
        }
    }

    pub open spec fn wf(&self) -> bool {
        self@.wf()
    }

    /// The registry key of this minter.
    pub fn key(&self) -> (r: MinterKey)
        ensures
            r == self@.key(),
    {
        MinterKey(self.chain_id, self.oprator)
    }

}

impl Duplicate for Minter {
    /// A copy with the same view.
    fn duplicate(&self) -> (r: Minter) {
        Minter {
            id: self.id.duplicate(),
            last_observed_event: self.last_observed_event,
            last_scraped_event: self.last_scraped_event,
            oprator: self.oprator,
            evm_to_icp_fee: self.evm_to_icp_fee.duplicate(),
            icp_to_evm_fee: self.icp_to_evm_fee.duplicate(),
            chain_id: self.chain_id,
        }
    }
}

/// Identifies an EVM to ICP transfer: the deposit's transaction hash and chain.
#[derive(Clone, Debug, PartialEq, Eq, PartialOrd, Ord)]
pub struct EvmToIcpTxIdentifier(String, ChainId);

impl View for EvmToIcpTxIdentifier {
    type V = (Seq<char>, ChainId);

    closed spec fn view(&self) -> (Seq<char>, ChainId) {
        (self.0@, self.1)
    }
}

impl KeyEq for EvmToIcpTxIdentifier {
    fn key_eq(&self, other: &Self) -> (r: bool) {
        self.0 == other.0 && self.1 == other.1
    }
}

impl EvmToIcpTxIdentifier {
    pub fn new(transaction_hash: &String, chain_id: &ChainId) -> (r: Self)
        ensures
            r@ == (transaction_hash@, *chain_id),
    {
        EvmToIcpTxIdentifier(transaction_hash.clone(), *chain_id)
    }

}

impl KeyOrd for EvmToIcpTxIdentifier {
    /// By the UTF-8 bytes of the hash, then by chain.
    open spec fn key_order(a: (Seq<char>, ChainId), b: (Seq<char>, ChainId)) -> bool {
        pair_le(encode_utf8(a.0), a.1.0 as int, encode_utf8(b.0), b.1.0 as int)
    }

    fn key_le(&self, other: &Self) -> (r: bool) {
        let a = self.0.as_str().as_bytes();
        let b = other.0.as_str().as_bytes();
        let ab = bytes_le(a, b);
        let ba = bytes_le(b, a);
        proof {
            lemma_lex_order(a@, b@, b@);
            lemma_lex_order(a@, a@, a@);
        }
        if ab && ba {
            self.1.0 <= other.1.0
        } else {
            ab
        }
    }

    proof fn lemma_le_order(a: (Seq<char>, ChainId), b: (Seq<char>, ChainId), c: (Seq<char>, ChainId)) {
        lemma_pair_order(
            encode_utf8(a.0),
            a.1.0 as int,
            encode_utf8(b.0),
            b.1.0 as int,
            encode_utf8(c.0),
            c.1.0 as int,
        );
    }
}

impl Duplicate for EvmToIcpTxIdentifier {
    /// A copy with the same view.
    fn duplicate(&self) -> (r: Self) {
        EvmToIcpTxIdentifier(self.0.clone(), self.1)
    }
}

impl EvmToIcpTxIdentifier {

    pub fn transaction_hash(&self) -> (r: &String)
        ensures
            r@ == self@.0,
    {
        &self.0
    }

    pub fn chain_id(&self) -> (r: ChainId)
        ensures
            r == self@.1,
    {
        self.1
    }
}

/// Identifies an ICP to EVM transfer: the native ledger burn index and chain.
#[derive(Clone, Debug, PartialEq, Eq)]
pub struct IcpToEvmIdentifier(BigNat, ChainId);

impl View for IcpToEvmIdentifier {
    type V = (nat, ChainId);

    closed spec fn view(&self) -> (nat, ChainId) {
        (self.0@, self.1)
    }
}

impl KeyEq for IcpToEvmIdentifier {
    fn key_eq(&self, other: &Self) -> (r: bool) {
        self.1 == other.1 && self.0.same_value(&other.0)
    }
}

impl IcpToEvmIdentifier {
    pub fn new(native_ledger_burn_index: &BigNat, chain_id: &ChainId) -> (r: Self)
        ensures
            r@ == (native_ledger_burn_index@, *chain_id),
    {
        IcpToEvmIdentifier(native_ledger_burn_index.duplicate(), *chain_id)
    }

}

impl KeyOrd for IcpToEvmIdentifier {
    /// By burn index, then by chain.
    open spec fn key_order(a: (nat, ChainId), b: (nat, ChainId)) -> bool {
        a.0 < b.0 || (a.0 == b.0 && a.1.0 <= b.1.0)
    }

    fn key_le(&self, other: &Self) -> (r: bool) {
        if self.0.same_value(&other.0) {
            self.1.0 <= other.1.0
        } else {
            self.0.le(&other.0)
        }
    }

    proof fn lemma_le_order(a: (nat, ChainId), b: (nat, ChainId), c: (nat, ChainId)) {
    }
}

impl Duplicate for IcpToEvmIdentifier {
    /// A copy with the same view.
    fn duplicate(&self) -> (r: Self) {
        IcpToEvmIdentifier(self.0.duplicate(), self.1)
    }
}

impl IcpToEvmIdentifier {

    pub fn native_ledger_burn_index(&self) -> (r: &BigNat)
        ensures
            r@ == self@.0,
    {
        &self.0
    }

    pub fn chain_id(&self) -> (r: ChainId)
        ensures
            r == self@.1,
    {
        self.1
    }
}

/// Identifies an ERC-20 contract on a chain.
#[derive(Clone, Copy, Debug, PartialEq, Eq)]
pub struct Erc20Identifier(pub EvmAddress, pub ChainId);

impl View for Erc20Identifier {
    type V = (Seq<u8>, ChainId);

    open spec fn view(&self) -> (Seq<u8>, ChainId) {
        (self.0@, self.1)
    }
}

impl KeyEq for Erc20Identifier {
    fn key_eq(&self, other: &Self) -> (r: bool) {
        self.1 == other.1 && self.0.same(&other.0)
    }
}

impl KeyOrd for Erc20Identifier {
    /// By the bytes of the address, then by chain.
    open spec fn key_order(a: (Seq<u8>, ChainId), b: (Seq<u8>, ChainId)) -> bool {
        pair_le(a.0, a.1.0 as int, b.0, b.1.0 as int)
    }

    fn key_le(&self, other: &Self) -> (r: bool) {
        let a = self.0.0.as_slice();
        let b = other.0.0.as_slice();
        let ab = bytes_le(a, b);
        let ba = bytes_le(b, a);
        proof {
            lemma_lex_order(a@, b@, b@);
            lemma_lex_order(a@, a@, a@);
        }
        if ab && ba {
            self.1.0 <= other.1.0
        } else {
            ab
        }
    }

    proof fn lemma_le_order(a: (Seq<u8>, ChainId), b: (Seq<u8>, ChainId), c: (Seq<u8>, ChainId)) {
        lemma_pair_order(a.0, a.1.0 as int, b.0, b.1.0 as int, c.0, c.1.0 as int);
    }
}

impl Duplicate for Erc20Identifier {
    fn duplicate(&self) -> (r: Self) {
        *self
    }
}

impl Erc20Identifier {
    pub fn new(contract: &EvmAddress, chain_id: &ChainId) -> (r: Self)
        ensures
            r@ == (contract@, *chain_id),
    {
        Erc20Identifier(*contract, *chain_id)
    }

    pub fn erc20_address(&self) -> (r: EvmAddress)
        ensures
            r == self.0,
    {
        self.0
    }

    pub fn chain_id(&self) -> (r: ChainId)
        ensures
            r == self.1,
    {
        self.1
    }
}

/// Where an EVM to ICP transfer stands.
#[derive(Clone, Debug, PartialEq, Eq, PartialOrd, Ord)]
pub enum EvmToIcpStatus {
    PendingVerification,
    Accepted,
    Minted,
    Invalid(String),
    Quarantined,
}

impl EvmToIcpStatus {
    /// An equal copy.
    pub fn duplicate(&self) -> (r: Self)
        ensures
            r == *self,
    {
        match self {
            EvmToIcpStatus::PendingVerification => EvmToIcpStatus::PendingVerification,
            EvmToIcpStatus::Accepted => EvmToIcpStatus::Accepted,
            EvmToIcpStatus::Minted => EvmToIcpStatus::Minted,
            EvmToIcpStatus::Invalid(reason) => EvmToIcpStatus::Invalid(reason.clone()),
            EvmToIcpStatus::Quarantined => EvmToIcpStatus::Quarantined,
        }
    }
}

/// A transfer from the EVM chain to the Internet Computer.
#[derive(Clone, Debug, PartialEq, Eq)]
pub struct EvmToIcpTx {
    pub from_address: EvmAddress,
    pub transaction_hash: String,
    pub value: BigNat,
    pub block_number: Option<BigNat>,
    pub actual_received: Option<BigNat>,
    pub principal: PrincipalId,
    pub subaccount: Option<[u8; 32]>,
    pub chain_id: ChainId,
    pub total_gas_spent: Option<BigNat>,
    pub erc20_contract_address: EvmAddress,
    pub icrc_ledger_id: Option<PrincipalId>,
    pub status: EvmToIcpStatus,
    pub verified: bool,
    pub time: u64,
    pub oprator: Oprator,
}

/// What an [`EvmToIcpTx`] holds, with numbers as values.
pub struct EvmToIcpTxView {
    pub from_address: Seq<u8>,
    pub transaction_hash: Seq<char>,
    pub value: nat,
    pub block_number: Option<nat>,
    pub actual_received: Option<nat>,
    pub principal: Seq<u8>,
    pub subaccount: Option<[u8; 32]>,
    pub chain_id: ChainId,
    pub total_gas_spent: Option<nat>,
    pub erc20_contract_address: Seq<u8>,
    pub icrc_ledger_id: Option<Seq<u8>>,
    pub status: EvmToIcpStatus,
    pub verified: bool,
    pub time: u64,
    pub oprator: Oprator,
}

impl View for EvmToIcpTx {
    type V = EvmToIcpTxView;

    open spec fn view(&self) -> EvmToIcpTxView {
        EvmToIcpTxView {
            from_address: self.from_address@,
            transaction_hash: self.transaction_hash@,
            value: self.value@,
            block_number: opt_nat(self.block_number),
            actual_received: opt_nat(self.actual_received),
            principal: self.principal@,
            subaccount: self.subaccount,
            chain_id: self.chain_id,
            total_gas_spent: opt_nat(self.total_gas_spent),
            erc20_contract_address: self.erc20_contract_address@,
            icrc_ledger_id: opt_principal(self.icrc_ledger_id),
            status: self.status,
            verified: self.verified,
            time: self.time,
            oprator: self.oprator,
        }
    }
}

impl Duplicate for EvmToIcpTx {
    /// A copy with the same view.
    fn duplicate(&self) -> (r: Self) {
        EvmToIcpTx {
            from_address: self.from_address,
            transaction_hash: self.transaction_hash.clone(),
            value: self.value.duplicate(),
            block_number: duplicate_opt_nat(&self.block_number),
            actual_received: duplicate_opt_nat(&self.actual_received),
            principal: self.principal.duplicate(),
            subaccount: self.subaccount,
            chain_id: self.chain_id,
            total_gas_spent: duplicate_opt_nat(&self.total_gas_spent),
            erc20_contract_address: self.erc20_contract_address,
            icrc_ledger_id: duplicate_opt_principal(&self.icrc_ledger_id),
            status: self.status.duplicate(),
            verified: self.verified,
            time: self.time,
            oprator: self.oprator,
        }
    }
}

/// Where an ICP to EVM transfer stands.
#[derive(Clone, Copy, Debug, PartialEq, Eq, Structural, PartialOrd, Ord)]
pub enum IcpToEvmStatus {
    PendingVerification,
    Accepted,
    Created,
    SignedTransaction,
    FinalizedTransaction,
    ReplacedTransaction,
    Reimbursed,
    QuarantinedReimbursement,
    Successful,
    Failed,
}

/// A transfer from the Internet Computer to the EVM chain.
#[derive(Clone, Debug, PartialEq, Eq)]
pub struct IcpToEvmTx {
    pub transaction_hash: Option<String>,
    pub native_ledger_burn_index: BigNat,
    pub withdrawal_amount: BigNat,
    pub actual_received: Option<BigNat>,
    pub destination: EvmAddress,
    pub from: PrincipalId,
    pub chain_id: ChainId,
    pub from_subaccount: Option<[u8; 32]>,
    pub time: u64,
    pub max_transaction_fee: Option<BigNat>,
    pub effective_gas_price: Option<BigNat>,
    pub gas_used: Option<BigNat>,
    pub toatal_gas_spent: Option<BigNat>,
    pub erc20_ledger_burn_index: Option<BigNat>,
    pub erc20_contract_address: EvmAddress,
    pub icrc_ledger_id: Option<PrincipalId>,
    pub verified: bool,
    pub status: IcpToEvmStatus,
    pub oprator: Oprator,
}

/// What an [`IcpToEvmTx`] holds, with numbers as values.
pub struct IcpToEvmTxView {
    pub transaction_hash: Option<Seq<char>>,
    pub native_ledger_burn_index: nat,
    pub withdrawal_amount: nat,
    pub actual_received: Option<nat>,
    pub destination: Seq<u8>,
    pub from: Seq<u8>,
    pub chain_id: ChainId,
    pub from_subaccount: Option<[u8; 32]>,
    pub time: u64,
    pub max_transaction_fee: Option<nat>,
    pub effective_gas_price: Option<nat>,
    pub gas_used: Option<nat>,
    pub toatal_gas_spent: Option<nat>,
    pub erc20_ledger_burn_index: Option<nat>,
    pub erc20_contract_address: Seq<u8>,
    pub icrc_ledger_id: Option<Seq<u8>>,
    pub verified: bool,
    pub status: IcpToEvmStatus,
    pub oprator: Oprator,
}

impl View for IcpToEvmTx {
    type V = IcpToEvmTxView;

    open spec fn view(&self) -> IcpToEvmTxView {
        IcpToEvmTxView {
            transaction_hash: opt_text(self.transaction_hash),
            native_ledger_burn_index: self.native_ledger_burn_index@,
            withdrawal_amount: self.withdrawal_amount@,
            actual_received: opt_nat(self.actual_received),
            destination: self.destination@,
            from: self.from@,
            chain_id: self.chain_id,
            from_subaccount: self.from_subaccount,
            time: self.time,
            max_transaction_fee: opt_nat(self.max_transaction_fee),
            effective_gas_price: opt_nat(self.effective_gas_price),
            gas_used: opt_nat(self.gas_used),
            toatal_gas_spent: opt_nat(self.toatal_gas_spent),
            erc20_ledger_burn_index: opt_nat(self.erc20_ledger_burn_index),
            erc20_contract_address: self.erc20_contract_address@,
            icrc_ledger_id: opt_principal(self.icrc_ledger_id),
            verified: self.verified,
            status: self.status,
            oprator: self.oprator,
        }
    }
}

impl Duplicate for IcpToEvmTx {
    /// A copy with the same view.
    fn duplicate(&self) -> (r: Self) {
        IcpToEvmTx {
            transaction_hash: duplicate_opt_text(&self.transaction_hash),
            native_ledger_burn_index: self.native_ledger_burn_index.duplicate(),
            withdrawal_amount: self.withdrawal_amount.duplicate(),
            actual_received: duplicate_opt_nat(&self.actual_received),
            destination: self.destination,
            from: self.from.duplicate(),
            chain_id: self.chain_id,
            from_subaccount: self.from_subaccount,
            time: self.time,
            max_transaction_fee: duplicate_opt_nat(&self.max_transaction_fee),
            effective_gas_price: duplicate_opt_nat(&self.effective_gas_price),
            gas_used: duplicate_opt_nat(&self.gas_used),
            toatal_gas_spent: duplicate_opt_nat(&self.toatal_gas_spent),
            erc20_ledger_burn_index: duplicate_opt_nat(&self.erc20_ledger_burn_index),
            erc20_contract_address: self.erc20_contract_address,
            icrc_ledger_id: duplicate_opt_principal(&self.icrc_ledger_id),
            verified: self.verified,
            status: self.status,
            oprator: self.oprator,
        }
    }
}

/// Errors that stop an event from being applied.
#[derive(Clone, Copy, Debug, PartialEq, Eq, Structural)]
pub enum ApplyError {
    /// The event cannot be interpreted (an address that does not parse).
    InvalidEvent,
    /// A fee or gas subtraction would go below zero: the inputs are corrupt.
    ArithmeticUnderflow,
}

/// What the whole store holds, as mathematical values.
pub struct StateView {
    pub active_tasks: Set<TaskType>,
    pub minters: Map<MinterKey, MinterView>,
    pub evm_to_icp_txs: Map<(Seq<char>, ChainId), EvmToIcpTxView>,
    pub icp_to_evm_txs: Map<(nat, ChainId), IcpToEvmTxView>,
    pub supported_ckerc20_tokens: Map<(Seq<u8>, ChainId), Seq<u8>>,
    pub supported_twin_appic_tokens: Map<(Seq<u8>, ChainId), Seq<u8>>,
}

impl StateView {
    /// Every minter is stored under its own key and keeps its cursor invariant.
    pub open spec fn minters_wf(self) -> bool {
        forall|k: MinterKey| #[trigger]
            self.minters.contains_key(k) ==> self.minters[k].wf() && self.minters[k].key() == k
    }

    /// The ledger twin of an ERC-20 contract in the table of `oprator`.
    pub open spec fn twin_of(self, erc20: (Seq<u8>, ChainId), oprator: Oprator) -> Option<Seq<u8>> {
        match oprator {
            Oprator::AppicMinter => self.supported_twin_appic_tokens.get(erc20),
            Oprator::DfinityCkEthMinter => self.supported_ckerc20_tokens.get(erc20),
        }
    }

    /// The store with `k` set to `tx` among the EVM to ICP transfers.
    pub open spec fn with_evm_to_icp(self, k: (Seq<char>, ChainId), tx: EvmToIcpTxView) -> StateView {
        StateView { evm_to_icp_txs: self.evm_to_icp_txs.insert(k, tx), ..self }
    }

    /// The store with `k` set to `tx` among the ICP to EVM transfers.
    pub open spec fn with_icp_to_evm(self, k: (nat, ChainId), tx: IcpToEvmTxView) -> StateView {
        StateView { icp_to_evm_txs: self.icp_to_evm_txs.insert(k, tx), ..self }
    }

    /// The store with the status of EVM to ICP transfer `k` replaced, if it exists.
    pub open spec fn evm_to_icp_status_set(self, k: (Seq<char>, ChainId), status: EvmToIcpStatus) -> StateView {
        if self.evm_to_icp_txs.contains_key(k) {
            self.with_evm_to_icp(k, EvmToIcpTxView { status, ..self.evm_to_icp_txs[k] })
        } else {
            self
        }
    }

    /// The store with the status of ICP to EVM transfer `k` replaced, if it exists.
    pub open spec fn icp_to_evm_status_set(self, k: (nat, ChainId), status: IcpToEvmStatus) -> StateView {
        if self.icp_to_evm_txs.contains_key(k) {
            self.with_icp_to_evm(k, IcpToEvmTxView { status, ..self.icp_to_evm_txs[k] })
        } else {
            self
        }
    }
}

/// An EVM to ICP transfer after an acceptance: an existing entry keeps its
/// hash, time, chain, fees and ledger and takes the event's fields; a new
/// entry is built from the event, its ledger looked up in the token table.
pub open spec fn accepted_evm_to_icp(
    prev: Option<EvmToIcpTxView>,
    twin: Option<Seq<u8>>,
    transaction_hash: Seq<char>,
    block_number: nat,
    from_address: Seq<u8>,
    value: nat,
    principal: Seq<u8>,
    erc20_contract_address: Seq<u8>,
    subaccount: Option<[u8; 32]>,
    chain_id: ChainId,
    oprator: Oprator,
    timestamp: u64,
) -> EvmToIcpTxView {
    match prev {
        Some(tx) => EvmToIcpTxView {
            verified: true,
            block_number: Some(block_number),
            from_address,
            value,
            principal,
            erc20_contract_address,
            subaccount,
            status: EvmToIcpStatus::Accepted,
            ..tx
        },
        None => EvmToIcpTxView {
            from_address,
            transaction_hash,
            value,
            block_number: Some(block_number),
            actual_received: None,
            principal,
            subaccount,
            chain_id,
            total_gas_spent: None,
            erc20_contract_address,
            icrc_ledger_id: twin,
            status: EvmToIcpStatus::Accepted,
            verified: true,
            time: timestamp,
            oprator,
        },
    }
}

/// An EVM to ICP transfer once minted: the native token is received less the
/// fee, an ERC-20 token in full; `None` where the fee exceeds the value.
pub open spec fn minted_evm_to_icp(tx: EvmToIcpTxView, erc20_contract_address: Seq<u8>, fee: nat) -> Option<EvmToIcpTxView> {
    if is_native_address(erc20_contract_address) && tx.value < fee {
        None
    } else {
        Some(
            EvmToIcpTxView {
                actual_received: Some(
                    if is_native_address(erc20_contract_address) {
                        (tx.value - fee) as nat
                    } else {
                        tx.value
                    },
                ),
                erc20_contract_address,
                status: EvmToIcpStatus::Minted,
                ..tx
            },
        )
    }
}

/// An ICP to EVM transfer after an acceptance, on the same merge rule as
/// [`accepted_evm_to_icp`]; a new entry takes its time from `created_at`, else
/// from the event.
pub open spec fn accepted_icp_to_evm(
    prev: Option<IcpToEvmTxView>,
    twin: Option<Seq<u8>>,
    max_transaction_fee: Option<nat>,
    withdrawal_amount: nat,
    erc20_contract_address: Seq<u8>,
    destination: Seq<u8>,
    native_ledger_burn_index: nat,
    erc20_ledger_burn_index: Option<nat>,
    from: Seq<u8>,
    from_subaccount: Option<[u8; 32]>,
    created_at: Option<u64>,
    oprator: Oprator,
    chain_id: ChainId,
    timestamp: u64,
) -> IcpToEvmTxView {
    match prev {
        Some(tx) => IcpToEvmTxView {
            verified: true,
            max_transaction_fee,
            withdrawal_amount,
            erc20_contract_address,
            destination,
            native_ledger_burn_index,
            erc20_ledger_burn_index,
            from,
            from_subaccount,
            status: IcpToEvmStatus::Accepted,
            ..tx
        },
        None => IcpToEvmTxView {
            transaction_hash: None,
            native_ledger_burn_index,
            withdrawal_amount,
            actual_received: None,
            destination,
            from,
            chain_id,
            from_subaccount,
            time: match created_at {
                Some(t) => t,
                None => timestamp,
            },
            max_transaction_fee,
            effective_gas_price: None,
            gas_used: None,
            toatal_gas_spent: None,
            erc20_ledger_burn_index,
            erc20_contract_address,
            icrc_ledger_id: twin,
            verified: true,
            status: IcpToEvmStatus::Accepted,
            oprator,
        },
    }
}

/// An ICP to EVM transfer once its transaction is final: gas spent is
/// `gas_used * effective_gas_price + fee`; the native token is received less
/// that, an ERC-20 token in full; `None` where that would be negative.
pub open spec fn finalized_icp_to_evm(
    tx: IcpToEvmTxView,
    gas_used: nat,
    effective_gas_price: nat,
    status: TransactionStatus,
    transaction_hash: Seq<char>,
    fee: nat,
) -> Option<IcpToEvmTxView> {
    let spent = gas_used * effective_gas_price + fee;
    let native = is_native_address(tx.erc20_contract_address);
    if native && tx.withdrawal_amount < spent {
        None
    } else {
        Some(
            IcpToEvmTxView {
                status: match status {
                    TransactionStatus::Success => IcpToEvmStatus::Successful,
                    TransactionStatus::Failure => IcpToEvmStatus::Failed,
                },
                actual_received: Some(
                    if native {
                        (tx.withdrawal_amount - gas_used * effective_gas_price - fee) as nat
                    } else {
                        tx.withdrawal_amount
                    },
                ),
                transaction_hash: Some(transaction_hash),
                gas_used: Some(gas_used),
                effective_gas_price: Some(effective_gas_price),
                toatal_gas_spent: Some(spent),
                ..tx
            },
        )
    }
}

/// The whole store of the logger.
pub struct State {
    /// Locks preventing concurrent ticks of a timer task.
    pub active_tasks: TaskSet,
    pub minters: KeyedMap<MinterKey, Minter>,
    pub evm_to_icp_txs: KeyedMap<EvmToIcpTxIdentifier, EvmToIcpTx>,
    pub icp_to_evm_txs: KeyedMap<IcpToEvmIdentifier, IcpToEvmTx>,
    pub supported_ckerc20_tokens: KeyedMap<Erc20Identifier, PrincipalId>,
    pub supported_twin_appic_tokens: KeyedMap<Erc20Identifier, PrincipalId>,
}

impl View for State {
    type V = StateView;

    open spec fn view(&self) -> StateView {
        StateView {
            active_tasks: self.active_tasks@,
            minters: self.minters@,
            evm_to_icp_txs: self.evm_to_icp_txs@,
            icp_to_evm_txs: self.icp_to_evm_txs@,
            supported_ckerc20_tokens: self.supported_ckerc20_tokens@,
            supported_twin_appic_tokens: self.supported_twin_appic_tokens@,
        }
    }
}

impl State {
    pub open spec fn wf(&self) -> bool {
        &&& self.minters.wf()
        &&& self.evm_to_icp_txs.wf()
        &&& self.icp_to_evm_txs.wf()
        &&& self.supported_ckerc20_tokens.wf()
        &&& self.supported_twin_appic_tokens.wf()
        &&& self@.minters_wf()
    }

    /// A store with no minter, token or transfer.
    pub fn new() -> (r: State)
        ensures
            r.wf(),
            r@.active_tasks == Set::<TaskType>::empty(),
            r@.minters == Map::<MinterKey, MinterView>::empty(),
            r@.evm_to_icp_txs == Map::<(Seq<char>, ChainId), EvmToIcpTxView>::empty(),
            r@.icp_to_evm_txs == Map::<(nat, ChainId), IcpToEvmTxView>::empty(),
            r@.supported_ckerc20_tokens == Map::<(Seq<u8>, ChainId), Seq<u8>>::empty(),
            r@.supported_twin_appic_tokens == Map::<(Seq<u8>, ChainId), Seq<u8>>::empty(),
    {
        State {
            active_tasks: TaskSet::new(),
            minters: KeyedMap::new(),
            evm_to_icp_txs: KeyedMap::new(),
            icp_to_evm_txs: KeyedMap::new(),
            supported_ckerc20_tokens: KeyedMap::new(),
            supported_twin_appic_tokens: KeyedMap::new(),
        }
    }

    /// A deep copy of the store.
    pub fn duplicate(&self) -> (r: State)
        requires
            self.wf(),
        ensures
            r.wf(),
            r@ == self@,
    {
        State {
            active_tasks: self.active_tasks,
            minters: self.minters.duplicate(),
            evm_to_icp_txs: self.evm_to_icp_txs.duplicate(),
            icp_to_evm_txs: self.icp_to_evm_txs.duplicate(),
            supported_ckerc20_tokens: self.supported_ckerc20_tokens.duplicate(),
            supported_twin_appic_tokens: self.supported_twin_appic_tokens.duplicate(),
        }
    }

    /// The minter registered under `minter_key`.
    pub fn get_minter(&self, minter_key: &MinterKey) -> (r: Option<&Minter>)
        requires
            self.wf(),
        ensures
            r.is_some() == self@.minters.contains_key(*minter_key),
            r matches Some(m) ==> m@ == self@.minters[*minter_key],
    {
        self.minters.get(minter_key)
    }

    /// Whether some registered minter serves chain `chain_id`.
    pub fn if_chain_id_exists(&self, chain_id: &ChainId) -> (r: bool)
        requires
            self.wf(),
        ensures
            r == exists|k: MinterKey| #[trigger]
                self@.minters.contains_key(k) && self@.minters[k].chain_id == *chain_id,
    {
        let appic = MinterKey(*chain_id, Oprator::AppicMinter);
        let dfinity = MinterKey(*chain_id, Oprator::DfinityCkEthMinter);
        let r = self.minters.contains(&appic) || self.minters.contains(&dfinity);
        proof {
            if r {
                if self@.minters.contains_key(appic) {
                    assert(self@.minters[appic].chain_id == *chain_id);
                } else {
                    assert(self@.minters[dfinity].chain_id == *chain_id);
                }
            } else {
                assert forall|k: MinterKey| #[trigger]
                    self@.minters.contains_key(k) implies self@.minters[k].chain_id != *chain_id by {
                    assert(self@.minters[k].key() == k);
                    if k.0 == *chain_id {
                        match k.1 {
                            Oprator::AppicMinter => assert(k == appic),
                            Oprator::DfinityCkEthMinter => assert(k == dfinity),
                        }
                    }
                }
            }
        }
        r
    }

    /// Registers `minter` under its key, replacing any minter there.
    pub fn record_minter(&mut self, minter: Minter)
        requires
            old(self).wf(),
            minter.wf(),
        ensures
            final(self).wf(),
            final(self)@ == (StateView {
                minters: old(self)@.minters.insert(minter@.key(), minter@),
                ..old(self)@
            }),
    {
        let key = minter.key();
        self.minters.insert(key, minter);
    }

    /// Registers the ledger twin of an ERC-20 contract in the table of `oprator`.
    pub fn record_token_pair(&mut self, erc20_identifier: Erc20Identifier, oprator: &Oprator, ledger_id: PrincipalId)
        requires
            old(self).wf(),
        ensures
            final(self).wf(),
            *oprator == Oprator::AppicMinter ==> final(self)@ == (StateView {
                supported_twin_appic_tokens: old(self)@.supported_twin_appic_tokens.insert(erc20_identifier@, ledger_id@),
                ..old(self)@
            }),
            *oprator == Oprator::DfinityCkEthMinter ==> final(self)@ == (StateView {
                supported_ckerc20_tokens: old(self)@.supported_ckerc20_tokens.insert(erc20_identifier@, ledger_id@),
                ..old(self)@
            }),
    {
        match oprator {
            Oprator::AppicMinter => self.supported_twin_appic_tokens.insert(erc20_identifier, ledger_id),
            Oprator::DfinityCkEthMinter => self.supported_ckerc20_tokens.insert(erc20_identifier, ledger_id),
        }
    }

    /// The ledger twin of an ERC-20 contract, looked up in the table of `oprator`.
    pub fn get_icrc_twin_for_erc20(&self, erc20_identifier: &Erc20Identifier, oprator: &Oprator) -> (r: Option<PrincipalId>)
        requires
            self.wf(),
        ensures
            opt_principal(r) == self@.twin_of(erc20_identifier@, *oprator),
    {
        let found = match oprator {
            Oprator::AppicMinter => self.supported_twin_appic_tokens.get(erc20_identifier),
            Oprator::DfinityCkEthMinter => self.supported_ckerc20_tokens.get(erc20_identifier),
        };
        match found {
            Some(p) => Some(p.duplicate()),
            None => None,
        }
    }

    pub fn if_evm_to_icp_tx_exists(&self, identifier: &EvmToIcpTxIdentifier) -> (r: bool)
        requires
            self.wf(),
        ensures
            r == self@.evm_to_icp_txs.contains_key(identifier@),
    {
        self.evm_to_icp_txs.contains(identifier)
    }

    pub fn if_icp_to_evm_tx_exists(&self, identifier: &IcpToEvmIdentifier) -> (r: bool)
        requires
            self.wf(),
        ensures
            r == self@.icp_to_evm_txs.contains_key(identifier@),
    {
        self.icp_to_evm_txs.contains(identifier)
    }

    /// Records a transfer as given, typically an unverified pre-registration.
    pub fn record_new_evm_to_icp(&mut self, identifier: EvmToIcpTxIdentifier, tx: EvmToIcpTx)
        requires
            old(self).wf(),
        ensures
            final(self).wf(),
            final(self)@ == old(self)@.with_evm_to_icp(identifier@, tx@),
    {
        self.evm_to_icp_txs.insert(identifier, tx);
    }

    /// Records a transfer as given, typically an unverified pre-registration.
    pub fn record_new_icp_to_evm(&mut self, identifier: IcpToEvmIdentifier, tx: IcpToEvmTx)
        requires
            old(self).wf(),
        ensures
            final(self).wf(),
            final(self)@ == old(self)@.with_icp_to_evm(identifier@, tx@),
    {
        self.icp_to_evm_txs.insert(identifier, tx);
    }
}

impl State {
    fn set_evm_to_icp_status(&mut self, identifier: EvmToIcpTxIdentifier, status: EvmToIcpStatus)
        requires
            old(self).wf(),
        ensures
            final(self).wf(),
            final(self)@ == old(self)@.evm_to_icp_status_set(identifier@, status),
    {
        let ghost k = identifier@;
        match self.evm_to_icp_txs.remove(&identifier) {
            Some(mut tx) => {
                tx.status = status;
                self.evm_to_icp_txs.insert(identifier, tx);
                assert(self@ == old(self)@.evm_to_icp_status_set(k, status)) by {
                    assert(self@.evm_to_icp_txs =~= old(self)@.evm_to_icp_status_set(k, status).evm_to_icp_txs);
                }
            },
            None => {
                assert(self@.evm_to_icp_txs =~= old(self)@.evm_to_icp_txs);
            },
        }
    }

    fn set_icp_to_evm_status(&mut self, identifier: IcpToEvmIdentifier, status: IcpToEvmStatus)
        requires
            old(self).wf(),
        ensures
            final(self).wf(),
            final(self)@ == old(self)@.icp_to_evm_status_set(identifier@, status),
    {
        let ghost k = identifier@;
        match self.icp_to_evm_txs.remove(&identifier) {
            Some(mut tx) => {
                tx.status = status;
                self.icp_to_evm_txs.insert(identifier, tx);
                assert(self@ == old(self)@.icp_to_evm_status_set(k, status)) by {
                    assert(self@.icp_to_evm_txs =~= old(self)@.icp_to_evm_status_set(k, status).icp_to_evm_txs);
                }
            },
            None => {
                assert(self@.icp_to_evm_txs =~= old(self)@.icp_to_evm_txs);
            },
        }
    }

    /// Confirms an EVM to ICP transfer from an acceptance event (upsert).
    pub fn record_accepted_evm_to_icp(
        &mut self,
        identifier: EvmToIcpTxIdentifier,
        transaction_hash: String,
        block_number: BigNat,
        from_address: EvmAddress,
        value: BigNat,
        principal: PrincipalId,
        erc20_contract_address: EvmAddress,
        subaccount: Option<[u8; 32]>,
        chain_id: &ChainId,
        oprator: &Oprator,
        timestamp: u64,
    )
        requires
            old(self).wf(),
        ensures
            final(self).wf(),
            final(self)@ == old(self)@.with_evm_to_icp(
                identifier@,
                accepted_evm_to_icp(
                    old(self)@.evm_to_icp_txs.get(identifier@),
                    old(self)@.twin_of((erc20_contract_address@, *chain_id), *oprator),
                    transaction_hash@,
                    block_number@,
                    from_address@,
                    value@,
                    principal@,
                    erc20_contract_address@,
                    subaccount,
                    *chain_id,
                    *oprator,
                    timestamp,
                ),
            ),
    {
        let ghost k = identifier@;
        match self.evm_to_icp_txs.remove(&identifier) {
            Some(mut tx) => {
                tx.verified = true;
                tx.block_number = Some(block_number);
                tx.from_address = from_address;
                tx.value = value;
                tx.principal = principal;
                tx.erc20_contract_address = erc20_contract_address;
                tx.subaccount = subaccount;
                tx.status = EvmToIcpStatus::Accepted;
                self.evm_to_icp_txs.insert(identifier, tx);
                assert(self@.evm_to_icp_txs =~= old(self)@.evm_to_icp_txs.insert(k, tx@));
            },
            None => {
                assert(self@.evm_to_icp_txs =~= old(self)@.evm_to_icp_txs);
                let icrc_ledger_id = self.get_icrc_twin_for_erc20(
                    &Erc20Identifier(erc20_contract_address, *chain_id),
                    oprator,
                );
                let new_tx = EvmToIcpTx {
                    from_address,
                    transaction_hash,
                    value,
                    block_number: Some(block_number),
                    actual_received: None,
                    principal,
                    subaccount,
                    chain_id: *chain_id,
                    total_gas_spent: None,
                    erc20_contract_address,
                    icrc_ledger_id,
                    status: EvmToIcpStatus::Accepted,
                    verified: true,
                    time: timestamp,
                    oprator: *oprator,
                };
                self.record_new_evm_to_icp(identifier, new_tx);
            },
        }
    }

    /// Marks an EVM to ICP transfer minted and settles what was received; a
    /// missing transfer is left alone.
    pub fn record_minted_evm_to_icp(
        &mut self,
        identifier: EvmToIcpTxIdentifier,
        erc20_contract_address: EvmAddress,
        evm_to_icp_fee: &BigNat,
    ) -> (r: Result<(), ApplyError>)
        requires
            old(self).wf(),
        ensures
            final(self).wf(),
            !old(self)@.evm_to_icp_txs.contains_key(identifier@) ==> r is Ok && final(self)@ == old(self)@,
            old(self)@.evm_to_icp_txs.contains_key(identifier@) ==> match minted_evm_to_icp(
                old(self)@.evm_to_icp_txs[identifier@],
                erc20_contract_address@,
                evm_to_icp_fee@,
            ) {
                Some(tx) => r is Ok && final(self)@ == old(self)@.with_evm_to_icp(identifier@, tx),
                None => r == Err::<(), ApplyError>(ApplyError::ArithmeticUnderflow) && final(self)@ == old(self)@,
            },
    {
        let ghost k = identifier@;
        match self.evm_to_icp_txs.remove(&identifier) {
            Some(mut tx) => {
                let received = if is_native_token(&erc20_contract_address) {
                    match tx.value.checked_sub(evm_to_icp_fee) {
                        Some(d) => d,
                        None => {
                            self.evm_to_icp_txs.insert(identifier, tx);
                            assert(self@.evm_to_icp_txs =~= old(self)@.evm_to_icp_txs);
                            return Err(ApplyError::ArithmeticUnderflow);
                        },
                    }
                } else {
                    tx.value.duplicate()
                };
                tx.actual_received = Some(received);
                tx.erc20_contract_address = erc20_contract_address;
                tx.status = EvmToIcpStatus::Minted;
                self.evm_to_icp_txs.insert(identifier, tx);
                assert(self@.evm_to_icp_txs =~= old(self)@.evm_to_icp_txs.insert(k, tx@));
                Ok(())
            },
            None => {
                assert(self@.evm_to_icp_txs =~= old(self)@.evm_to_icp_txs);
                Ok(())
            },
        }
    }

    /// Marks an EVM to ICP transfer invalid, if it exists.
    pub fn record_invalid_evm_to_icp(&mut self, identifier: EvmToIcpTxIdentifier, reason: String)
        requires
            old(self).wf(),
        ensures
            final(self).wf(),
            final(self)@ == old(self)@.evm_to_icp_status_set(identifier@, EvmToIcpStatus::Invalid(reason)),
    {
        self.set_evm_to_icp_status(identifier, EvmToIcpStatus::Invalid(reason));
    }

    /// Marks an EVM to ICP transfer quarantined, if it exists.
    pub fn record_quarantined_evm_to_icp(&mut self, identifier: EvmToIcpTxIdentifier)
        requires
            old(self).wf(),
        ensures
            final(self).wf(),
            final(self)@ == old(self)@.evm_to_icp_status_set(identifier@, EvmToIcpStatus::Quarantined),
    {
        self.set_evm_to_icp_status(identifier, EvmToIcpStatus::Quarantined);
    }

    /// Confirms an ICP to EVM transfer from an acceptance event (upsert).
    pub fn record_accepted_icp_to_evm(
        &mut self,
        identifier: IcpToEvmIdentifier,
        max_transaction_fee: Option<BigNat>,
        withdrawal_amount: BigNat,
        erc20_contract_address: EvmAddress,
        destination: EvmAddress,
        native_ledger_burn_index: BigNat,
        erc20_ledger_burn_index: Option<BigNat>,
        from: PrincipalId,
        from_subaccount: Option<[u8; 32]>,
        created_at: Option<u64>,
        oprator: &Oprator,
        chain_id: &ChainId,
        timestamp: u64,
    )
        requires
            old(self).wf(),
        ensures
            final(self).wf(),
            final(self)@ == old(self)@.with_icp_to_evm(
                identifier@,
                accepted_icp_to_evm(
                    old(self)@.icp_to_evm_txs.get(identifier@),
                    old(self)@.twin_of((erc20_contract_address@, *chain_id), *oprator),
                    opt_nat(max_transaction_fee),
                    withdrawal_amount@,
                    erc20_contract_address@,
                    destination@,
                    native_ledger_burn_index@,
                    opt_nat(erc20_ledger_burn_index),
                    from@,
                    from_subaccount,
                    created_at,
                    *oprator,
                    *chain_id,
                    timestamp,
                ),
            ),
    {
        let ghost k = identifier@;
        match self.icp_to_evm_txs.remove(&identifier) {
            Some(mut tx) => {
                tx.verified = true;
                tx.max_transaction_fee = max_transaction_fee;
                tx.withdrawal_amount = withdrawal_amount;
                tx.erc20_contract_address = erc20_contract_address;
                tx.destination = destination;
                tx.native_ledger_burn_index = native_ledger_burn_index;
                tx.erc20_ledger_burn_index = erc20_ledger_burn_index;
                tx.from = from;
                tx.from_subaccount = from_subaccount;
                tx.status = IcpToEvmStatus::Accepted;
                self.icp_to_evm_txs.insert(identifier, tx);
                assert(self@.icp_to_evm_txs =~= old(self)@.icp_to_evm_txs.insert(k, tx@));
            },
            None => {
                assert(self@.icp_to_evm_txs =~= old(self)@.icp_to_evm_txs);
                let icrc_ledger_id = self.get_icrc_twin_for_erc20(
                    &Erc20Identifier(erc20_contract_address, *chain_id),
                    oprator,
                );
                let time = match created_at {
                    Some(t) => t,
                    None => timestamp,
                };
                let new_tx = IcpToEvmTx {
                    native_ledger_burn_index,
                    withdrawal_amount,
                    actual_received: None,
                    destination,
                    from,
                    from_subaccount,
                    time,
                    max_transaction_fee,
                    erc20_ledger_burn_index,
                    icrc_ledger_id,
                    chain_id: *chain_id,
                    erc20_contract_address,
                    verified: true,
                    status: IcpToEvmStatus::Accepted,
                    oprator: *oprator,
                    effective_gas_price: None,
                    gas_used: None,
                    toatal_gas_spent: None,
                    transaction_hash: None,
                };
                self.record_new_icp_to_evm(identifier, new_tx);
            },
        }
    }

    /// Marks an ICP to EVM transfer created, if it exists.
    pub fn record_created_icp_to_evm(&mut self, identifier: IcpToEvmIdentifier)
        requires
            old(self).wf(),
        ensures
            final(self).wf(),
            final(self)@ == old(self)@.icp_to_evm_status_set(identifier@, IcpToEvmStatus::Created),
    {
        self.set_icp_to_evm_status(identifier, IcpToEvmStatus::Created);
    }

    /// Marks an ICP to EVM transfer signed, if it exists.
    pub fn record_signed_icp_to_evm(&mut self, identifier: IcpToEvmIdentifier)
        requires
            old(self).wf(),
        ensures
            final(self).wf(),
            final(self)@ == old(self)@.icp_to_evm_status_set(identifier@, IcpToEvmStatus::SignedTransaction),
    {
        self.set_icp_to_evm_status(identifier, IcpToEvmStatus::SignedTransaction);
    }

    /// Marks the transaction of an ICP to EVM transfer replaced, if it exists.
    pub fn record_replaced_icp_to_evm(&mut self, identifier: IcpToEvmIdentifier)
        requires
            old(self).wf(),
        ensures
            final(self).wf(),
            final(self)@ == old(self)@.icp_to_evm_status_set(identifier@, IcpToEvmStatus::ReplacedTransaction),
    {
        self.set_icp_to_evm_status(identifier, IcpToEvmStatus::ReplacedTransaction);
    }

    /// Settles an ICP to EVM transfer from the receipt of its transaction; a
    /// missing transfer is left alone.
    pub fn record_finalized_icp_to_evm(
        &mut self,
        identifier: IcpToEvmIdentifier,
        receipt: TransactionReceipt,
        icp_to_evm_fee: &BigNat,
    ) -> (r: Result<(), ApplyError>)
        requires
            old(self).wf(),
        ensures
            final(self).wf(),
            !old(self)@.icp_to_evm_txs.contains_key(identifier@) ==> r is Ok && final(self)@ == old(self)@,
            old(self)@.icp_to_evm_txs.contains_key(identifier@) ==> match finalized_icp_to_evm(
                old(self)@.icp_to_evm_txs[identifier@],
                receipt.gas_used@,
                receipt.effective_gas_price@,
                receipt.status,
                receipt.transaction_hash@,
                icp_to_evm_fee@,
            ) {
                Some(tx) => r is Ok && final(self)@ == old(self)@.with_icp_to_evm(identifier@, tx),
                None => r == Err::<(), ApplyError>(ApplyError::ArithmeticUnderflow) && final(self)@ == old(self)@,
            },
    {
        let ghost k = identifier@;
        match self.icp_to_evm_txs.remove(&identifier) {
            Some(mut tx) => {
                let gas_cost = receipt.gas_used.mul(&receipt.effective_gas_price);
                let spent = gas_cost.add(icp_to_evm_fee);
                let received = if is_native_token(&tx.erc20_contract_address) {
                    match tx.withdrawal_amount.checked_sub(&spent) {
                        Some(d) => d,
                        None => {
                            self.icp_to_evm_txs.insert(identifier, tx);
                            assert(self@.icp_to_evm_txs =~= old(self)@.icp_to_evm_txs);
                            return Err(ApplyError::ArithmeticUnderflow);
                        },
                    }
                } else {
                    tx.withdrawal_amount.duplicate()
                };
                tx.status = match receipt.status {
                    TransactionStatus::Success => IcpToEvmStatus::Successful,
                    TransactionStatus::Failure => IcpToEvmStatus::Failed,
                };
                tx.actual_received = Some(received);
                tx.transaction_hash = Some(receipt.transaction_hash);
                tx.gas_used = Some(receipt.gas_used);
                tx.effective_gas_price = Some(receipt.effective_gas_price);
                tx.toatal_gas_spent = Some(spent);
                self.icp_to_evm_txs.insert(identifier, tx);
                assert(self@.icp_to_evm_txs =~= old(self)@.icp_to_evm_txs.insert(k, tx@));
                Ok(())
            },
            None => {
                assert(self@.icp_to_evm_txs =~= old(self)@.icp_to_evm_txs);
                Ok(())
            },
        }
    }

    /// Marks an ICP to EVM transfer reimbursed, if it exists.
    pub fn record_reimbursed_icp_to_evm(&mut self, identifier: IcpToEvmIdentifier)
        requires
            old(self).wf(),
        ensures
            final(self).wf(),
            final(self)@ == old(self)@.icp_to_evm_status_set(identifier@, IcpToEvmStatus::Reimbursed),
    {
        self.set_icp_to_evm_status(identifier, IcpToEvmStatus::Reimbursed);
    }

    /// Marks the reimbursement of an ICP to EVM transfer quarantined, if it exists.
    pub fn record_quarantined_reimbursed_icp_to_evm(&mut self, identifier: IcpToEvmIdentifier)
        requires
            old(self).wf(),
        ensures
            final(self).wf(),
            final(self)@ == old(self)@.icp_to_evm_status_set(
                identifier@,
                IcpToEvmStatus::QuarantinedReimbursement,
            ),
    {
        self.set_icp_to_evm_status(identifier, IcpToEvmStatus::QuarantinedReimbursement);
    }

    /// Marks an ICP to EVM transfer failed before anything was sent, if it exists.
    pub fn record_failed_icp_to_evm(&mut self, identifier: IcpToEvmIdentifier)
        requires
            old(self).wf(),
        ensures
            final(self).wf(),
            final(self)@ == old(self)@.icp_to_evm_status_set(identifier@, IcpToEvmStatus::Failed),
    {
        self.set_icp_to_evm_status(identifier, IcpToEvmStatus::Failed);
    }
}

} // verus!
