//! Plain identifiers: chains, operators, EVM addresses and principals.

use std::str::FromStr;
use crate::keyed::Duplicate;
use vstd::prelude::*;

verus! {

/// An EVM chain id.
#[derive(Clone, Copy, PartialEq, Eq, Structural, PartialOrd, Ord, Debug, Hash)]
pub struct ChainId(pub u64);

/// Which implementation of a minter emitted an event.
#[derive(Clone, Copy, PartialEq, Eq, Structural, PartialOrd, Ord, Debug, Hash)]
pub enum Oprator {
    DfinityCkEthMinter,
    AppicMinter,
}

/// The textual form of the native-token sentinel address.
pub const NATIVE_ERC20_ADDRESS: &'static str = "0x0000000000000000000000000000000000000000";

/// Value of one hexadecimal digit, or `-1` for any other character.
pub open spec fn hex_value(c: char) -> int {
    let u = c as u32;
    if 48 <= u && u <= 57 {
        u - 48
    } else if 97 <= u && u <= 102 {
        u - 97 + 10
    } else if 65 <= u && u <= 70 {
        u - 65 + 10
    } else {
        -1
    }
}

/// The 20 bytes written by `0x` and forty hex digits, or `None` for any other text.
pub open spec fn parsed_address(s: Seq<char>) -> Option<Seq<u8>> {
    if s.len() == 42 && s[0] == '0' && s[1] == 'x' && (forall|i: int|
        2 <= i < 42 ==> hex_value(#[trigger] s[i]) >= 0) {
        Some(Seq::new(20, |i: int| (16 * hex_value(s[2 + 2 * i]) + hex_value(s[3 + 2 * i])) as u8))
    } else {
        None
    }
}

/// The EIP-55 mixed-case rendering of a 20-byte address.
pub uninterp spec fn eip55_text(bytes: Seq<u8>) -> Seq<char>;

/// A 20-byte EVM address.
#[derive(Clone, Copy, Debug, PartialEq, Eq)]
pub struct EvmAddress(pub [u8; 20]);

impl View for EvmAddress {
    type V = Seq<u8>;

    open spec fn view(&self) -> Seq<u8> {
        self.0@
    }
}

/// Relies on `FromStr` of `ic_ethereum_types::Address`: it accepts `0x`
/// followed by exactly forty hex digits of either case, and keeps the bytes.
#[verifier::external_body]
fn parse_evm_address(s: &str) -> (r: Option<EvmAddress>)
    ensures
        r.is_some() == parsed_address(s@).is_some(),
        r matches Some(a) ==> a@ == parsed_address(s@).unwrap(),
{
    match ic_ethereum_types::Address::from_str(s) {
        Ok(a) => Some(EvmAddress(a.into_bytes())),
        Err(_) => None,
    }
}

/// Relies on `Display` of `ic_ethereum_types::Address` (EIP-55 checksum).
#[verifier::external_body]
fn evm_address_text(a: &EvmAddress) -> (r: String)
    ensures
        r@ == eip55_text(a@),
{
    ic_ethereum_types::Address::new(a.0).to_string()
}

impl EvmAddress {
    /// The all-zero address that stands for the chain's native token.
    pub fn native() -> (r: EvmAddress)
        ensures
            r@ == Seq::new(20, |i: int| 0u8),
    {
        let r = EvmAddress([0u8; 20]);
        assert(r@ =~= Seq::new(20, |i: int| 0u8));
        r
    }

    /// Reads `0x` and forty hex digits; `None` for any other text.
    pub fn parse(s: &str) -> (r: Option<EvmAddress>)
        ensures
            r.is_some() == parsed_address(s@).is_some(),
            r matches Some(a) ==> a@ == parsed_address(s@).unwrap(),
    {
        parse_evm_address(s)
    }

    /// The checksummed text of the address.
    pub fn to_text(&self) -> (r: String)
        ensures
            r@ == eip55_text(self@),
    {
        evm_address_text(self)
    }

    /// Bytewise equality.
    pub fn same(&self, other: &EvmAddress) -> (r: bool)
        ensures
            r == (self@ == other@),
    {
        let mut i: usize = 0;
        while i < 20
            invariant
                i <= 20,
                self@.len() == 20,
                other@.len() == 20,
                forall|j: int| 0 <= j < i ==> self@[j] == other@[j],
            decreases 20 - i,
        {
            if self.0[i] != other.0[i] {
                return false;
            }
            i = i + 1;
        }
        assert(self@ =~= other@);
        true
    }
}

/// Whether `address` is the native-token sentinel: all twenty bytes zero.
pub open spec fn is_native_address(address: Seq<u8>) -> bool {
    address == Seq::new(20, |i: int| 0u8)
}

/// Whether `address` is the all-zero sentinel of the native token.
pub fn is_native_token(address: &EvmAddress) -> (r: bool)
    ensures
        r == is_native_address(address@),
{
    let native = EvmAddress::native();
    address.same(&native)
}

/// The raw bytes of an Internet Computer principal.
#[derive(Clone, Debug, PartialEq, Eq)]
pub struct PrincipalId(pub Vec<u8>);

impl View for PrincipalId {
    type V = Seq<u8>;

    open spec fn view(&self) -> Seq<u8> {
        self.0@
    }
}

impl Duplicate for PrincipalId {
    /// A copy with the same bytes.
    fn duplicate(&self) -> (r: PrincipalId) {
        let mut out: Vec<u8> = Vec::new();
        let mut i: usize = 0;
        while i < self.0.len()
            invariant
                i <= self@.len(),
                out@ == self@.subrange(0, i as int),
            decreases self@.len() - i,
        {
            out.push(self.0[i]);
            i = i + 1;
            assert(out@ =~= self@.subrange(0, i as int));
        }
        assert(out@ =~= self@);
        PrincipalId(out)
    }
}

impl PrincipalId {
    /// Bytewise equality.
    pub fn same(&self, other: &PrincipalId) -> (r: bool)
        ensures
            r == (self@ == other@),
    {
        if self.0.len() != other.0.len() {
            return false;
        }
        let mut i: usize = 0;
        while i < self.0.len()
            invariant
                i <= self@.len(),
                self@.len() == other@.len(),
                forall|j: int| 0 <= j < i ==> self@[j] == other@[j],
            decreases self@.len() - i,
        {
            if self.0[i] != other.0[i] {
                return false;
            }
            i = i + 1;
        }
        assert(self@ =~= other@);
        true
    }
}

} // verus!
