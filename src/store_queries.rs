//! Reading the store: enumerations, queries by address or principal, token
//! pairs; and the whole-store operations: construction from installation
//! arguments and the sweep of expired unverified transfers.

use crate::ids::{eip55_text, ChainId, EvmAddress, Oprator, PrincipalId};
use crate::keyed::{Duplicate, KeyOrd};
use crate::numeric::BigNat;
use crate::state::{
    minter_args_error, minter_of_args, Erc20Identifier, EvmToIcpTx, EvmToIcpTxIdentifier, EvmToIcpTxView, IcpToEvmIdentifier, IcpToEvmTx,
    IcpToEvmTxView, InitArgs, Minter, MinterArgs, MinterArgsError, MinterKey, MinterView, State, StateView,
};
use vstd::prelude::*;

verus! {

/// `k` is an unverified EVM to ICP transfer recorded at `time`.
pub open spec fn unverified_evm_to_icp_at(m: Map<(Seq<char>, ChainId), EvmToIcpTxView>, k: (Seq<char>, ChainId), time: u64) -> bool {
    m.contains_key(k) && !m[k].verified && m[k].time == time
}

/// `k` is an unverified ICP to EVM transfer recorded at `time`.
pub open spec fn unverified_icp_to_evm_at(m: Map<(nat, ChainId), IcpToEvmTxView>, k: (nat, ChainId), time: u64) -> bool {
    m.contains_key(k) && !m[k].verified && m[k].time == time
}

/// Whether an unverified transfer recorded at `time` has outlived `ttl` at `now`.
pub open spec fn is_expired(verified: bool, time: u64, now: u64, ttl: u64) -> bool {
    !verified && now - time > ttl
}

/// The keys of the EVM to ICP transfers that the reaper removes.
pub open spec fn expired_evm_to_icp(m: Map<(Seq<char>, ChainId), EvmToIcpTxView>, now: u64, ttl: u64) -> Set<
    (Seq<char>, ChainId),
> {
    Set::new(|k: (Seq<char>, ChainId)| m.contains_key(k) && is_expired(m[k].verified, m[k].time, now, ttl))
}

/// The keys of the ICP to EVM transfers that the reaper removes.
pub open spec fn expired_icp_to_evm(m: Map<(nat, ChainId), IcpToEvmTxView>, now: u64, ttl: u64) -> Set<
    (nat, ChainId),
> {
    Set::new(|k: (nat, ChainId)| m.contains_key(k) && is_expired(m[k].verified, m[k].time, now, ttl))
}

impl State {
    /// The identifier and time of every unverified EVM to ICP transfer.
    pub fn all_unverified_evm_to_icp(&self) -> (r: Vec<(EvmToIcpTxIdentifier, u64)>)
        requires
            self.wf(),
        ensures
            forall|i: int|
                0 <= i < r@.len() ==> unverified_evm_to_icp_at(self@.evm_to_icp_txs, #[trigger] r@[i].0@, r@[i].1),
            forall|k: (Seq<char>, ChainId)|
                #[trigger] self@.evm_to_icp_txs.contains_key(k) && !self@.evm_to_icp_txs[k].verified
                    ==> exists|i: int| 0 <= i < r@.len() && #[trigger] r@[i].0@ == k,
            forall|a: int, b: int|
                0 <= a < b < r@.len() ==> (#[trigger] r@[a]).0@ != (#[trigger] r@[b]).0@,
            forall|a: int, b: int|
                0 <= a < b < r@.len() ==> EvmToIcpTxIdentifier::key_order((#[trigger] r@[a]).0@, (#[trigger] r@[b]).0@),
    {
        let mut out: Vec<(EvmToIcpTxIdentifier, u64)> = Vec::new();
        let ghost mut src: Seq<int> = Seq::empty();
        let mut j: usize = 0;
        while j < self.evm_to_icp_txs.len()
            invariant
                self.wf(),
                j <= self.evm_to_icp_txs.spec_len(),
                src.len() == out@.len(),
                forall|i: int|
                    0 <= i < out@.len() ==> 0 <= #[trigger] src[i] < j && out@[i].0@ == self.evm_to_icp_txs.spec_key(src[i]),
                forall|a: int, b: int|
                    0 <= a < b < out@.len() ==> (#[trigger] out@[a]).0@ != (#[trigger] out@[b]).0@,
                forall|a: int, b: int| 0 <= a < b < out@.len() ==> #[trigger] src[a] < #[trigger] src[b],
                forall|a: int, b: int|
                    0 <= a < b < out@.len() ==> EvmToIcpTxIdentifier::key_order((#[trigger] out@[a]).0@, (#[trigger] out@[b]).0@),
                forall|i: int|
                    0 <= i < out@.len() ==> unverified_evm_to_icp_at(self@.evm_to_icp_txs, #[trigger] out@[i].0@, out@[i].1),
                forall|jj: int|
                    0 <= jj < j && !(#[trigger] self.evm_to_icp_txs.spec_value(jj)).verified ==> exists|i: int|
                        0 <= i < out@.len() && #[trigger] out@[i].0@ == self.evm_to_icp_txs.spec_key(jj),
            decreases self.evm_to_icp_txs.spec_len() - j,
        {
            proof {
                self.evm_to_icp_txs.lemma_entries();
            }
            let tx = self.evm_to_icp_txs.value_at(j);
            let ghost prev = out@;
            if !tx.verified {
                let id = self.evm_to_icp_txs.key_at(j).duplicate();
                out.push((id, tx.time));
                assert(out@[out@.len() - 1].0@ == self.evm_to_icp_txs.spec_key(j as int));
                proof {
                    let src0 = src;
                    src = src.push(j as int);
                    assert forall|i: int| 0 <= i < prev.len() implies out@[i].0@ != self.evm_to_icp_txs.spec_key(j as int) by {
                        assert(out@[i] == prev[i]);
                        assert(src0[i] < j);
                        assert(self.evm_to_icp_txs.spec_key(src0[i]) != self.evm_to_icp_txs.spec_key(j as int));
                    }
                    assert forall|a: int, b: int|
                        0 <= a < b < out@.len() implies (#[trigger] out@[a]).0@ != (#[trigger] out@[b]).0@ by {
                        if b < prev.len() {
                            assert(out@[a] == prev[a]);
                            assert(out@[b] == prev[b]);
                        } else {
                            assert(out@[a] == prev[a]);
                        }
                    }
                    assert forall|a: int, b: int| 0 <= a < b < out@.len() implies #[trigger] src[a] < #[trigger] src[b] by {
                        if b < prev.len() {
                            assert(src[a] == src0[a]);
                            assert(src[b] == src0[b]);
                        } else {
                            assert(src[a] == src0[a]);
                        }
                    }
                    assert forall|a: int, b: int|
                        0 <= a < b < out@.len() implies EvmToIcpTxIdentifier::key_order((#[trigger] out@[a]).0@, (#[trigger] out@[b]).0@) by {
                        if b < prev.len() {
                            assert(out@[a] == prev[a]);
                            assert(out@[b] == prev[b]);
                        } else {
                            assert(out@[a] == prev[a]);
                            assert(src0[a] < j);
                            assert(EvmToIcpTxIdentifier::key_order(self.evm_to_icp_txs.spec_key(src0[a]), self.evm_to_icp_txs.spec_key(j as int)));
                        }
                    }
                    assert forall|i: int| 0 <= i < out@.len() implies 0 <= #[trigger] src[i] < j + 1
                        && out@[i].0@ == self.evm_to_icp_txs.spec_key(src[i]) by {
                        if i < prev.len() {
                            assert(out@[i] == prev[i]);
                        }
                    }
                }
            }
            proof {
                assert forall|jj: int|
                    0 <= jj <= j && !(#[trigger] self.evm_to_icp_txs.spec_value(jj)).verified implies exists|i: int|
                    0 <= i < out@.len() && #[trigger] out@[i].0@ == self.evm_to_icp_txs.spec_key(jj) by {
                    if jj < j {
                        let i = choose|i: int| 0 <= i < prev.len() && #[trigger] prev[i].0@ == self.evm_to_icp_txs.spec_key(jj);
                        assert(out@[i] == prev[i]);
                    } else {
                        assert(out@[out@.len() - 1].0@ == self.evm_to_icp_txs.spec_key(jj));
                    }
                }
            }
            j = j + 1;
        }
        proof {
            self.evm_to_icp_txs.lemma_entries();
            assert forall|k: (Seq<char>, ChainId)|
                #[trigger] self@.evm_to_icp_txs.contains_key(k) && !self@.evm_to_icp_txs[k].verified
                    implies exists|i: int| 0 <= i < out@.len() && #[trigger] out@[i].0@ == k by {
                let jj = choose|jj: int|
                    0 <= jj < self.evm_to_icp_txs.spec_len() && #[trigger] self.evm_to_icp_txs.spec_key(jj) == k;
                assert(!self.evm_to_icp_txs.spec_value(jj).verified);
            }
        }
        out
    }

    /// The identifier and time of every unverified ICP to EVM transfer.
    pub fn all_unverified_icp_to_evm(&self) -> (r: Vec<(IcpToEvmIdentifier, u64)>)
        requires
            self.wf(),
        ensures
            forall|i: int|
                0 <= i < r@.len() ==> unverified_icp_to_evm_at(self@.icp_to_evm_txs, #[trigger] r@[i].0@, r@[i].1),
            forall|k: (nat, ChainId)|
                #[trigger] self@.icp_to_evm_txs.contains_key(k) && !self@.icp_to_evm_txs[k].verified
                    ==> exists|i: int| 0 <= i < r@.len() && #[trigger] r@[i].0@ == k,
            forall|a: int, b: int|
                0 <= a < b < r@.len() ==> (#[trigger] r@[a]).0@ != (#[trigger] r@[b]).0@,
            forall|a: int, b: int|
                0 <= a < b < r@.len() ==> IcpToEvmIdentifier::key_order((#[trigger] r@[a]).0@, (#[trigger] r@[b]).0@),
    {
        let mut out: Vec<(IcpToEvmIdentifier, u64)> = Vec::new();
        let ghost mut src: Seq<int> = Seq::empty();
        let mut j: usize = 0;
        while j < self.icp_to_evm_txs.len()
            invariant
                self.wf(),
                j <= self.icp_to_evm_txs.spec_len(),
                src.len() == out@.len(),
                forall|i: int|
                    0 <= i < out@.len() ==> 0 <= #[trigger] src[i] < j && out@[i].0@ == self.icp_to_evm_txs.spec_key(src[i]),
                forall|a: int, b: int|
                    0 <= a < b < out@.len() ==> (#[trigger] out@[a]).0@ != (#[trigger] out@[b]).0@,
                forall|a: int, b: int| 0 <= a < b < out@.len() ==> #[trigger] src[a] < #[trigger] src[b],
                forall|a: int, b: int|
                    0 <= a < b < out@.len() ==> IcpToEvmIdentifier::key_order((#[trigger] out@[a]).0@, (#[trigger] out@[b]).0@),
                forall|i: int|
                    0 <= i < out@.len() ==> unverified_icp_to_evm_at(self@.icp_to_evm_txs, #[trigger] out@[i].0@, out@[i].1),
                forall|jj: int|
                    0 <= jj < j && !(#[trigger] self.icp_to_evm_txs.spec_value(jj)).verified ==> exists|i: int|
                        0 <= i < out@.len() && #[trigger] out@[i].0@ == self.icp_to_evm_txs.spec_key(jj),
            decreases self.icp_to_evm_txs.spec_len() - j,
        {
            proof {
                self.icp_to_evm_txs.lemma_entries();
            }
            let tx = self.icp_to_evm_txs.value_at(j);
            let ghost prev = out@;
            if !tx.verified {
                let id = self.icp_to_evm_txs.key_at(j).duplicate();
                out.push((id, tx.time));
                assert(out@[out@.len() - 1].0@ == self.icp_to_evm_txs.spec_key(j as int));
                proof {
                    let src0 = src;
                    src = src.push(j as int);
                    assert forall|i: int| 0 <= i < prev.len() implies out@[i].0@ != self.icp_to_evm_txs.spec_key(j as int) by {
                        assert(out@[i] == prev[i]);
                        assert(src0[i] < j);
                        assert(self.icp_to_evm_txs.spec_key(src0[i]) != self.icp_to_evm_txs.spec_key(j as int));
                    }
                    assert forall|a: int, b: int|
                        0 <= a < b < out@.len() implies (#[trigger] out@[a]).0@ != (#[trigger] out@[b]).0@ by {
                        if b < prev.len() {
                            assert(out@[a] == prev[a]);
                            assert(out@[b] == prev[b]);
                        } else {
                            assert(out@[a] == prev[a]);
                        }
                    }
                    assert forall|a: int, b: int| 0 <= a < b < out@.len() implies #[trigger] src[a] < #[trigger] src[b] by {
                        if b < prev.len() {
                            assert(src[a] == src0[a]);
                            assert(src[b] == src0[b]);
                        } else {
                            assert(src[a] == src0[a]);
                        }
                    }
                    assert forall|a: int, b: int|
                        0 <= a < b < out@.len() implies IcpToEvmIdentifier::key_order((#[trigger] out@[a]).0@, (#[trigger] out@[b]).0@) by {
                        if b < prev.len() {
                            assert(out@[a] == prev[a]);
                            assert(out@[b] == prev[b]);
                        } else {
                            assert(out@[a] == prev[a]);
                            assert(src0[a] < j);
                            assert(IcpToEvmIdentifier::key_order(self.icp_to_evm_txs.spec_key(src0[a]), self.icp_to_evm_txs.spec_key(j as int)));
                        }
                    }
                    assert forall|i: int| 0 <= i < out@.len() implies 0 <= #[trigger] src[i] < j + 1
                        && out@[i].0@ == self.icp_to_evm_txs.spec_key(src[i]) by {
                        if i < prev.len() {
                            assert(out@[i] == prev[i]);
                        }
                    }
                }
            }
            proof {
                assert forall|jj: int|
                    0 <= jj <= j && !(#[trigger] self.icp_to_evm_txs.spec_value(jj)).verified implies exists|i: int|
                    0 <= i < out@.len() && #[trigger] out@[i].0@ == self.icp_to_evm_txs.spec_key(jj) by {
                    if jj < j {
                        let i = choose|i: int| 0 <= i < prev.len() && #[trigger] prev[i].0@ == self.icp_to_evm_txs.spec_key(jj);
                        assert(out@[i] == prev[i]);
                    } else {
                        assert(out@[out@.len() - 1].0@ == self.icp_to_evm_txs.spec_key(jj));
                    }
                }
            }
            j = j + 1;
        }
        proof {
            self.icp_to_evm_txs.lemma_entries();
            assert forall|k: (nat, ChainId)|
                #[trigger] self@.icp_to_evm_txs.contains_key(k) && !self@.icp_to_evm_txs[k].verified
                    implies exists|i: int| 0 <= i < out@.len() && #[trigger] out@[i].0@ == k by {
                let jj = choose|jj: int|
                    0 <= jj < self.icp_to_evm_txs.spec_len() && #[trigger] self.icp_to_evm_txs.spec_key(jj) == k;
                assert(!self.icp_to_evm_txs.spec_value(jj).verified);
            }
        }
        out
    }

    /// Deletes an EVM to ICP transfer that was never verified; a verified
    /// transfer, or a missing one, is left alone.
    pub fn remove_unverified_evm_to_icp(&mut self, identifier: &EvmToIcpTxIdentifier)
        requires
            old(self).wf(),
        ensures
            final(self).wf(),
            final(self)@ == if old(self)@.evm_to_icp_txs.contains_key(identifier@)
                && !old(self)@.evm_to_icp_txs[identifier@].verified {
                StateView { evm_to_icp_txs: old(self)@.evm_to_icp_txs.remove(identifier@), ..old(self)@ }
            } else {
                old(self)@
            },
    {
        let unverified = match self.evm_to_icp_txs.get(identifier) {
            Some(tx) => !tx.verified,
            None => false,
        };
        if unverified {
            self.evm_to_icp_txs.remove(identifier);
        }
    }

    /// Deletes an ICP to EVM transfer that was never verified; a verified
    /// transfer, or a missing one, is left alone.
    pub fn remove_unverified_icp_to_evm(&mut self, identifier: &IcpToEvmIdentifier)
        requires
            old(self).wf(),
        ensures
            final(self).wf(),
            final(self)@ == if old(self)@.icp_to_evm_txs.contains_key(identifier@)
                && !old(self)@.icp_to_evm_txs[identifier@].verified {
                StateView { icp_to_evm_txs: old(self)@.icp_to_evm_txs.remove(identifier@), ..old(self)@ }
            } else {
                old(self)@
            },
    {
        let unverified = match self.icp_to_evm_txs.get(identifier) {
            Some(tx) => !tx.verified,
            None => false,
        };
        if unverified {
            self.icp_to_evm_txs.remove(identifier);
        }
    }

    /// Removes exactly the unverified transfers, of both directions, that are
    /// older than `ttl` at `now`; every other transfer and the rest of the store stay.
    pub fn remove_expired_unverified_txs(&mut self, now: u64, ttl: u64)
        requires
            old(self).wf(),
        ensures
            final(self).wf(),
            final(self)@ == (StateView {
                evm_to_icp_txs: old(self)@.evm_to_icp_txs.remove_keys(
                    expired_evm_to_icp(old(self)@.evm_to_icp_txs, now, ttl),
                ),
                icp_to_evm_txs: old(self)@.icp_to_evm_txs.remove_keys(
                    expired_icp_to_evm(old(self)@.icp_to_evm_txs, now, ttl),
                ),
                ..old(self)@
            }),
    {
        let candidates = self.all_unverified_evm_to_icp();
        let ghost m0 = self@.evm_to_icp_txs;
        let mut i: usize = 0;
        assert(m0.remove_keys(
            Set::new(
                |k: (Seq<char>, ChainId)|
                    exists|c: int|
                        0 <= c < i && #[trigger] candidates@[c].0@ == k && is_expired(false, candidates@[c].1, now, ttl),
            ),
        ) =~= m0);
        while i < candidates.len()
            invariant
                self.wf(),
                i <= candidates@.len(),
                m0 == old(self)@.evm_to_icp_txs,
                forall|c: int|
                    0 <= c < candidates@.len() ==> unverified_evm_to_icp_at(m0, #[trigger] candidates@[c].0@, candidates@[c].1),
                forall|a: int, b: int|
                    0 <= a < b < candidates@.len() ==> (#[trigger] candidates@[a]).0@ != (#[trigger] candidates@[b]).0@,
                self@ == (StateView {
                    evm_to_icp_txs: m0.remove_keys(
                        Set::new(
                            |k: (Seq<char>, ChainId)|
                                exists|c: int|
                                    0 <= c < i && #[trigger] candidates@[c].0@ == k && is_expired(
                                        false,
                                        candidates@[c].1,
                                        now,
                                        ttl,
                                    ),
                        ),
                    ),
                    ..old(self)@
                }),
            decreases candidates@.len() - i,
        {
            let ghost before = self@.evm_to_icp_txs;
            let (id, time) = (&candidates[i].0, candidates[i].1);
            let expired = now >= time && now - time > ttl;
            if expired {
                self.remove_unverified_evm_to_icp(id);
            }
            i = i + 1;
            let ghost s_i = Set::new(
                |k: (Seq<char>, ChainId)|
                    exists|c: int|
                        0 <= c < i && #[trigger] candidates@[c].0@ == k && is_expired(false, candidates@[c].1, now, ttl),
            );
            let ghost s_prev = Set::new(
                |k: (Seq<char>, ChainId)|
                    exists|c: int|
                        0 <= c < i - 1 && #[trigger] candidates@[c].0@ == k && is_expired(
                            false,
                            candidates@[c].1,
                            now,
                            ttl,
                        ),
            );
            proof {
                if expired {
                    assert(s_i =~= s_prev.insert(candidates@[i - 1].0@));
                    assert(m0.remove_keys(s_i) =~= m0.remove_keys(s_prev).remove(candidates@[i - 1].0@));
                } else {
                    assert(s_i =~= s_prev);
                }
            }
        }
        proof {
            let s_n = Set::new(
                |k: (Seq<char>, ChainId)|
                    exists|c: int|
                        0 <= c < i && #[trigger] candidates@[c].0@ == k && is_expired(false, candidates@[c].1, now, ttl),
            );
            assert forall|k: (Seq<char>, ChainId)| m0.contains_key(k) implies (s_n.contains(k)
                <==> expired_evm_to_icp(m0, now, ttl).contains(k)) by {
                if s_n.contains(k) {
                    let c = choose|c: int|
                        0 <= c < i && #[trigger] candidates@[c].0@ == k && is_expired(false, candidates@[c].1, now, ttl);
                    assert(m0.contains_key(candidates@[c].0@));
                }
                if expired_evm_to_icp(m0, now, ttl).contains(k) {
                    let c = choose|c: int| 0 <= c < candidates@.len() && #[trigger] candidates@[c].0@ == k;
                    assert(m0.contains_key(candidates@[c].0@));
                    assert(s_n.contains(k));
                }
            }
            assert(m0.remove_keys(s_n) =~= m0.remove_keys(expired_evm_to_icp(m0, now, ttl)));
        }
        let ghost mid = self@;
        let candidates = self.all_unverified_icp_to_evm();
        let ghost m1 = self@.icp_to_evm_txs;
        let mut i: usize = 0;
        assert(m1.remove_keys(
            Set::new(
                |k: (nat, ChainId)|
                    exists|c: int|
                        0 <= c < i && #[trigger] candidates@[c].0@ == k && is_expired(false, candidates@[c].1, now, ttl),
            ),
        ) =~= m1);
        while i < candidates.len()
            invariant
                self.wf(),
                i <= candidates@.len(),
                m1 == mid.icp_to_evm_txs,
                forall|c: int|
                    0 <= c < candidates@.len() ==> unverified_icp_to_evm_at(m1, #[trigger] candidates@[c].0@, candidates@[c].1),
                forall|a: int, b: int|
                    0 <= a < b < candidates@.len() ==> (#[trigger] candidates@[a]).0@ != (#[trigger] candidates@[b]).0@,
                self@ == (StateView {
                    icp_to_evm_txs: m1.remove_keys(
                        Set::new(
                            |k: (nat, ChainId)|
                                exists|c: int|
                                    0 <= c < i && #[trigger] candidates@[c].0@ == k && is_expired(
                                        false,
                                        candidates@[c].1,
                                        now,
                                        ttl,
                                    ),
                        ),
                    ),
                    ..mid
                }),
            decreases candidates@.len() - i,
        {
            let (id, time) = (&candidates[i].0, candidates[i].1);
            let expired = now >= time && now - time > ttl;
            if expired {
                self.remove_unverified_icp_to_evm(id);
            }
            i = i + 1;
            let ghost s_i = Set::new(
                |k: (nat, ChainId)|
                    exists|c: int|
                        0 <= c < i && #[trigger] candidates@[c].0@ == k && is_expired(false, candidates@[c].1, now, ttl),
            );
            let ghost s_prev = Set::new(
                |k: (nat, ChainId)|
                    exists|c: int|
                        0 <= c < i - 1 && #[trigger] candidates@[c].0@ == k && is_expired(
                            false,
                            candidates@[c].1,
                            now,
                            ttl,
                        ),
            );
            proof {
                if expired {
                    assert(s_i =~= s_prev.insert(candidates@[i - 1].0@));
                    assert(m1.remove_keys(s_i) =~= m1.remove_keys(s_prev).remove(candidates@[i - 1].0@));
                } else {
                    assert(s_i =~= s_prev);
                }
            }
        }
        proof {
            let s_n = Set::new(
                |k: (nat, ChainId)|
                    exists|c: int|
                        0 <= c < i && #[trigger] candidates@[c].0@ == k && is_expired(false, candidates@[c].1, now, ttl),
            );
            assert forall|k: (nat, ChainId)| m1.contains_key(k) implies (s_n.contains(k)
                <==> expired_icp_to_evm(m1, now, ttl).contains(k)) by {
                if s_n.contains(k) {
                    let c = choose|c: int|
                        0 <= c < i && #[trigger] candidates@[c].0@ == k && is_expired(false, candidates@[c].1, now, ttl);
                    assert(m1.contains_key(candidates@[c].0@));
                }
                if expired_icp_to_evm(m1, now, ttl).contains(k) {
                    let c = choose|c: int| 0 <= c < candidates@.len() && #[trigger] candidates@[c].0@ == k;
                    assert(m1.contains_key(candidates@[c].0@));
                    assert(s_n.contains(k));
                }
            }
            assert(m1.remove_keys(s_n) =~= m1.remove_keys(expired_icp_to_evm(m1, now, ttl)));
        }
    }
}

/// A transfer of either direction, as returned by queries.
#[derive(Clone, Debug, PartialEq, Eq)]
pub enum Transaction {
    EvmToIcp(EvmToIcpTx),
    IcpToEvm(IcpToEvmTx),
}

/// What a [`Transaction`] holds, with numbers as values.
pub enum TransactionView {
    EvmToIcp(EvmToIcpTxView),
    IcpToEvm(IcpToEvmTxView),
}

impl View for Transaction {
    type V = TransactionView;

    open spec fn view(&self) -> TransactionView {
        match self {
            Transaction::EvmToIcp(t) => TransactionView::EvmToIcp(t@),
            Transaction::IcpToEvm(t) => TransactionView::IcpToEvm(t@),
        }
    }
}

/// Whether the store holds transfer `t`.
pub open spec fn holds_transaction(st: StateView, t: TransactionView) -> bool {
    match t {
        TransactionView::EvmToIcp(x) => exists|k: (Seq<char>, ChainId)|
            #[trigger] st.evm_to_icp_txs.contains_key(k) && st.evm_to_icp_txs[k] == x,
        TransactionView::IcpToEvm(x) => exists|k: (nat, ChainId)|
            #[trigger] st.icp_to_evm_txs.contains_key(k) && st.icp_to_evm_txs[k] == x,
    }
}

/// Whether transfer `t` concerns the EVM address `who` (`by_address`) or the
/// principal `who`: the sender or recipient on that side.
pub open spec fn owned_by(t: TransactionView, by_address: bool, who: Seq<u8>) -> bool {
    match t {
        TransactionView::EvmToIcp(x) => if by_address {
            x.from_address == who
        } else {
            x.principal == who
        },
        TransactionView::IcpToEvm(x) => if by_address {
            x.destination == who
        } else {
            x.from == who
        },
    }
}

/// Keys of the EVM to ICP transfers that concern `who`.
pub open spec fn evm_to_icp_owned_keys(st: StateView, by_address: bool, who: Seq<u8>) -> Set<(Seq<char>, ChainId)> {
    st.evm_to_icp_txs.dom().filter(
        |k: (Seq<char>, ChainId)| owned_by(TransactionView::EvmToIcp(st.evm_to_icp_txs[k]), by_address, who),
    )
}

/// Keys of the ICP to EVM transfers that concern `who`.
pub open spec fn icp_to_evm_owned_keys(st: StateView, by_address: bool, who: Seq<u8>) -> Set<(nat, ChainId)> {
    st.icp_to_evm_txs.dom().filter(
        |k: (nat, ChainId)| owned_by(TransactionView::IcpToEvm(st.icp_to_evm_txs[k]), by_address, who),
    )
}

/// The address or principal that a query is about.
pub open spec fn query_subject(by_address: bool, address: Seq<u8>, principal: Seq<u8>) -> Seq<u8> {
    if by_address {
        address
    } else {
        principal
    }
}

/// `r` lists each transfer concerning `who` exactly once: first the EVM to
/// ICP transfers under the distinct keys `ke`, then the ICP to EVM transfers
/// under the distinct keys `ki`, these keys being exactly the matching ones.
pub open spec fn matched_by_keys(
    st: StateView,
    r: Seq<Transaction>,
    ke: Seq<(Seq<char>, ChainId)>,
    ki: Seq<(nat, ChainId)>,
    by_address: bool,
    who: Seq<u8>,
) -> bool {
    &&& ke.no_duplicates()
    &&& ki.no_duplicates()
    &&& ke.to_set() == evm_to_icp_owned_keys(st, by_address, who)
    &&& ki.to_set() == icp_to_evm_owned_keys(st, by_address, who)
    &&& r.len() == ke.len() + ki.len()
    &&& forall|i: int| 0 <= i < ke.len() ==> #[trigger] r[i]@ == TransactionView::EvmToIcp(st.evm_to_icp_txs[ke[i]])
    &&& forall|i: int|
        0 <= i < ki.len() ==> #[trigger] r[ke.len() + i]@ == TransactionView::IcpToEvm(st.icp_to_evm_txs[ki[i]])
}

/// A supported pair of an ERC-20 contract and its ledger twin.
#[derive(Clone, Debug, PartialEq, Eq)]
pub struct TokenPair {
    pub erc20_address: String,
    pub ledger_id: PrincipalId,
    pub oprator: Oprator,
    pub chain_id: BigNat,
}

/// Whether `p` is a pair of `table`, listed for `oprator`.
pub open spec fn lists_pair(table: Map<(Seq<u8>, ChainId), Seq<u8>>, oprator: Oprator, p: TokenPair) -> bool {
    p.oprator == oprator && exists|k: (Seq<u8>, ChainId)|
        #[trigger] table.contains_key(k) && table[k] == p.ledger_id@ && p.erc20_address@ == eip55_text(k.0)
            && p.chain_id@ == k.1.0 as nat
}

/// The error of the first invalid arguments in `s`, if any.
pub open spec fn first_args_error(s: Seq<MinterArgs>) -> Option<MinterArgsError>
    decreases s.len(),
{
    if s.len() == 0 {
        None
    } else {
        match first_args_error(s.drop_last()) {
            Some(e) => Some(e),
            None => minter_args_error(s.last()),
        }
    }
}

/// The registry built from `s`, later arguments replacing earlier ones with the same key.
pub open spec fn registry_of_args(s: Seq<MinterArgs>) -> Map<MinterKey, MinterView>
    decreases s.len(),
{
    if s.len() == 0 {
        Map::empty()
    } else {
        let m = minter_of_args(s.last());
        registry_of_args(s.drop_last()).insert(m.key(), m)
    }
}

impl State {
    /// Every registered minter.
    pub fn get_minters(&self) -> (r: Vec<Minter>)
        requires
            self.wf(),
        ensures
            forall|i: int|
                0 <= i < r@.len() ==> #[trigger] self@.minters.contains_key(r@[i]@.key())
                    && self@.minters[r@[i]@.key()] == r@[i]@,
            forall|k: MinterKey| #[trigger]
                self@.minters.contains_key(k) ==> exists|i: int| 0 <= i < r@.len() && #[trigger] r@[i]@ == self@.minters[k],
            forall|a: int, b: int| 0 <= a < b < r@.len() ==> (#[trigger] r@[a])@.key() != (#[trigger] r@[b])@.key(),
    {
        let mut out: Vec<Minter> = Vec::new();
        let ghost mut src: Seq<int> = Seq::empty();
        let mut j: usize = 0;
        while j < self.minters.len()
            invariant
                self.wf(),
                j <= self.minters.spec_len(),
                src.len() == out@.len(),
                forall|i: int|
                    0 <= i < out@.len() ==> 0 <= #[trigger] src[i] < j && out@[i]@.key() == self.minters.spec_key(src[i]),
                forall|a: int, b: int| 0 <= a < b < out@.len() ==> (#[trigger] out@[a])@.key() != (#[trigger] out@[b])@.key(),
                forall|i: int|
                    0 <= i < out@.len() ==> #[trigger] self@.minters.contains_key(out@[i]@.key())
                        && self@.minters[out@[i]@.key()] == out@[i]@,
                forall|jj: int|
                    0 <= jj < j ==> exists|i: int|
                        0 <= i < out@.len() && #[trigger] out@[i]@ == #[trigger] self.minters.spec_value(jj),
            decreases self.minters.spec_len() - j,
        {
            proof {
                self.minters.lemma_entries();
            }
            let ghost prev = out@;
            let m = self.minters.value_at(j).duplicate();
            proof {
                let k = self.minters.spec_key(j as int);
                assert(self@.minters.contains_key(k));
                assert(self@.minters[k].key() == k);
            }
            out.push(m);
            proof {
                let src0 = src;
                src = src.push(j as int);
                assert(out@[out@.len() - 1]@.key() == self.minters.spec_key(j as int));
                assert forall|i: int| 0 <= i < prev.len() implies out@[i]@.key() != self.minters.spec_key(j as int) by {
                    assert(out@[i] == prev[i]);
                    assert(src0[i] < j);
                    assert(self.minters.spec_key(src0[i]) != self.minters.spec_key(j as int));
                }
                assert forall|a: int, b: int|
                    0 <= a < b < out@.len() implies (#[trigger] out@[a])@.key() != (#[trigger] out@[b])@.key() by {
                    if b < prev.len() {
                        assert(out@[a] == prev[a]);
                        assert(out@[b] == prev[b]);
                    } else {
                        assert(out@[a] == prev[a]);
                    }
                }
                assert forall|i: int| 0 <= i < out@.len() implies 0 <= #[trigger] src[i] < j + 1
                    && out@[i]@.key() == self.minters.spec_key(src[i]) by {
                    if i < prev.len() {
                        assert(out@[i] == prev[i]);
                    }
                }
                assert forall|jj: int| 0 <= jj <= j implies exists|i: int|
                    0 <= i < out@.len() && #[trigger] out@[i]@ == #[trigger] self.minters.spec_value(jj) by {
                    if jj < j {
                        let i = choose|i: int| 0 <= i < prev.len() && #[trigger] prev[i]@ == self.minters.spec_value(jj);
                        assert(out@[i] == prev[i]);
                    } else {
                        assert(out@[out@.len() - 1]@ == self.minters.spec_value(jj));
                    }
                }
                assert forall|i: int| 0 <= i < out@.len() implies #[trigger] self@.minters.contains_key(out@[i]@.key())
                    && self@.minters[out@[i]@.key()] == out@[i]@ by {
                    if i < prev.len() {
                        assert(out@[i] == prev[i]);
                    }
                }
            }
            j = j + 1;
        }
        proof {
            self.minters.lemma_entries();
            assert forall|k: MinterKey| #[trigger] self@.minters.contains_key(k) implies exists|i: int|
                0 <= i < out@.len() && #[trigger] out@[i]@ == self@.minters[k] by {
                let jj = choose|jj: int| 0 <= jj < self.minters.spec_len() && #[trigger] self.minters.spec_key(jj) == k;
                assert(self.minters.spec_value(jj) == self@.minters[k]);
            }
        }
        out
    }

    fn collect_transactions(&self, by_address: bool, address: &EvmAddress, principal: &PrincipalId) -> (r: Vec<Transaction>)
        requires
            self.wf(),
        ensures
            forall|i: int|
                0 <= i < r@.len() ==> holds_transaction(self@, #[trigger] r@[i]@) && owned_by(
                    r@[i]@,
                    by_address,
                    if by_address { address@ } else { principal@ },
                ),
            forall|k: (Seq<char>, ChainId)|
                #[trigger] self@.evm_to_icp_txs.contains_key(k) && owned_by(
                    TransactionView::EvmToIcp(self@.evm_to_icp_txs[k]),
                    by_address,
                    if by_address { address@ } else { principal@ },
                ) ==> exists|i: int| 0 <= i < r@.len() && #[trigger] r@[i]@ == TransactionView::EvmToIcp(self@.evm_to_icp_txs[k]),
            forall|k: (nat, ChainId)|
                #[trigger] self@.icp_to_evm_txs.contains_key(k) && owned_by(
                    TransactionView::IcpToEvm(self@.icp_to_evm_txs[k]),
                    by_address,
                    if by_address { address@ } else { principal@ },
                ) ==> exists|i: int| 0 <= i < r@.len() && #[trigger] r@[i]@ == TransactionView::IcpToEvm(self@.icp_to_evm_txs[k]),
            evm_to_icp_owned_keys(self@, by_address, if by_address { address@ } else { principal@ }).finite(),
            icp_to_evm_owned_keys(self@, by_address, if by_address { address@ } else { principal@ }).finite(),
            r@.len() == evm_to_icp_owned_keys(self@, by_address, if by_address { address@ } else { principal@ }).len()
                + icp_to_evm_owned_keys(self@, by_address, if by_address { address@ } else { principal@ }).len(),
            exists|ke: Seq<(Seq<char>, ChainId)>, ki: Seq<(nat, ChainId)>|
                #[trigger] matched_by_keys(self@, r@, ke, ki, by_address, query_subject(by_address, address@, principal@)),
    {
        let ghost who = if by_address { address@ } else { principal@ };
        let ghost mut seen_evm: Set<(Seq<char>, ChainId)> = Set::empty();
        let ghost mut seen_icp: Set<(nat, ChainId)> = Set::empty();
        let ghost mut ke: Seq<(Seq<char>, ChainId)> = Seq::empty();
        let ghost mut ki: Seq<(nat, ChainId)> = Seq::empty();
        let mut out: Vec<Transaction> = Vec::new();
        let mut j: usize = 0;
        while j < self.evm_to_icp_txs.len()
            invariant
                self.wf(),
                who == if by_address { address@ } else { principal@ },
                j <= self.evm_to_icp_txs.spec_len(),
                forall|i: int|
                    0 <= i < out@.len() ==> holds_transaction(self@, #[trigger] out@[i]@) && owned_by(out@[i]@, by_address, who),
                forall|jj: int|
                    0 <= jj < j && owned_by(TransactionView::EvmToIcp(#[trigger] self.evm_to_icp_txs.spec_value(jj)), by_address, who)
                        ==> exists|i: int| 0 <= i < out@.len() && #[trigger] out@[i]@ == TransactionView::EvmToIcp(
                        self.evm_to_icp_txs.spec_value(jj),
                    ),
                seen_evm.finite(),
                seen_evm.len() == out@.len(),
                ke.len() == out@.len(),
                ke.no_duplicates(),
                forall|i: int|
                    0 <= i < ke.len() ==> seen_evm.contains(#[trigger] ke[i]) && self@.evm_to_icp_txs.contains_key(ke[i])
                        && out@[i]@ == TransactionView::EvmToIcp(self@.evm_to_icp_txs[ke[i]]),
                forall|k: (Seq<char>, ChainId)| #[trigger] seen_evm.contains(k) ==> ke.contains(k),
                forall|k: (Seq<char>, ChainId)|
                    #[trigger] seen_evm.contains(k) <==> exists|jj: int|
                        0 <= jj < j && #[trigger] self.evm_to_icp_txs.spec_key(jj) == k && owned_by(
                            TransactionView::EvmToIcp(self.evm_to_icp_txs.spec_value(jj)),
                            by_address,
                            who,
                        ),
            decreases self.evm_to_icp_txs.spec_len() - j,
        {
            proof {
                self.evm_to_icp_txs.lemma_entries();
            }
            let ghost prev = out@;
            let tx = self.evm_to_icp_txs.value_at(j);
            let owned = if by_address {
                tx.from_address.same(address)
            } else {
                tx.principal.same(principal)
            };
            let ghost seen0 = seen_evm;
            if owned {
                out.push(Transaction::EvmToIcp(tx.duplicate()));
                proof {
                    let k = self.evm_to_icp_txs.spec_key(j as int);
                    assert(self@.evm_to_icp_txs.contains_key(k));
                    if seen0.contains(k) {
                        let jj = choose|jj: int|
                            0 <= jj < j && #[trigger] self.evm_to_icp_txs.spec_key(jj) == k && owned_by(
                                TransactionView::EvmToIcp(self.evm_to_icp_txs.spec_value(jj)),
                                by_address,
                                who,
                            );
                        assert(false);
                    }
                    seen_evm = seen0.insert(k);
                    let ke0 = ke;
                    ke = ke.push(k);
                    assert(!ke0.contains(k));
                    assert forall|a: int, b: int| 0 <= a < ke.len() && 0 <= b < ke.len() && a != b implies ke[a] != ke[b] by {
                        if a == ke0.len() as int {
                            assert(ke0.contains(ke[b]));
                        } else if b == ke0.len() as int {
                            assert(ke0.contains(ke[a]));
                        }
                    }
                    assert(self.evm_to_icp_txs.spec_value(j as int) == self@.evm_to_icp_txs[k]);
                    assert forall|i: int| 0 <= i < ke.len() implies seen_evm.contains(#[trigger] ke[i])
                        && self@.evm_to_icp_txs.contains_key(ke[i])
                        && out@[i]@ == TransactionView::EvmToIcp(self@.evm_to_icp_txs[ke[i]]) by {
                        if i < ke0.len() {
                            assert(out@[i] == prev[i]);
                        }
                    }
                    assert forall|k2: (Seq<char>, ChainId)| #[trigger] seen_evm.contains(k2) implies ke.contains(k2) by {
                        if k2 == k {
                            assert(ke[ke0.len() as int] == k);
                        } else {
                            assert(seen0.contains(k2));
                            let i = choose|i: int| 0 <= i < ke0.len() && ke0[i] == k2;
                            assert(ke[i] == k2);
                        }
                    }
                }
            }
            proof {
                assert forall|k: (Seq<char>, ChainId)|
                    #[trigger] seen_evm.contains(k) <==> exists|jj: int|
                        0 <= jj < j + 1 && #[trigger] self.evm_to_icp_txs.spec_key(jj) == k && owned_by(
                            TransactionView::EvmToIcp(self.evm_to_icp_txs.spec_value(jj)),
                            by_address,
                            who,
                        ) by {
                    if exists|jj: int|
                        0 <= jj < j + 1 && #[trigger] self.evm_to_icp_txs.spec_key(jj) == k && owned_by(
                            TransactionView::EvmToIcp(self.evm_to_icp_txs.spec_value(jj)),
                            by_address,
                            who,
                        ) {
                        let jj = choose|jj: int|
                            0 <= jj < j + 1 && #[trigger] self.evm_to_icp_txs.spec_key(jj) == k && owned_by(
                                TransactionView::EvmToIcp(self.evm_to_icp_txs.spec_value(jj)),
                                by_address,
                                who,
                            );
                        if jj < j {
                            assert(seen0.contains(k));
                        }
                    }
                }
            }
            proof {
                assert forall|i: int| 0 <= i < out@.len() implies holds_transaction(self@, #[trigger] out@[i]@)
                    && owned_by(out@[i]@, by_address, who) by {
                    if i < prev.len() {
                        assert(out@[i] == prev[i]);
                    }
                }
                assert forall|jj: int|
                    0 <= jj <= j && owned_by(TransactionView::EvmToIcp(#[trigger] self.evm_to_icp_txs.spec_value(jj)), by_address, who)
                    implies exists|i: int| 0 <= i < out@.len() && #[trigger] out@[i]@ == TransactionView::EvmToIcp(
                    self.evm_to_icp_txs.spec_value(jj),
                ) by {
                    if jj < j {
                        let i = choose|i: int| 0 <= i < prev.len() && #[trigger] prev[i]@ == TransactionView::EvmToIcp(
                            self.evm_to_icp_txs.spec_value(jj),
                        );
                        assert(out@[i] == prev[i]);
                    } else {
                        assert(out@[out@.len() - 1]@ == TransactionView::EvmToIcp(self.evm_to_icp_txs.spec_value(jj)));
                    }
                }
            }
            j = j + 1;
        }
        let ghost after_evm = out@;
        proof {
            self.evm_to_icp_txs.lemma_entries();
            assert forall|k: (Seq<char>, ChainId)| seen_evm.contains(k) <==> #[trigger] evm_to_icp_owned_keys(
                self@,
                by_address,
                who,
            ).contains(k) by {
                if evm_to_icp_owned_keys(self@, by_address, who).contains(k) {
                    let jj = choose|jj: int|
                        0 <= jj < self.evm_to_icp_txs.spec_len() && #[trigger] self.evm_to_icp_txs.spec_key(jj) == k;
                    assert(self.evm_to_icp_txs.spec_value(jj) == self@.evm_to_icp_txs[k]);
                }
            }
            assert(seen_evm =~= evm_to_icp_owned_keys(self@, by_address, who));
            assert forall|k: (Seq<char>, ChainId)| #[trigger] seen_evm.contains(k) <==> ke.contains(k) by {
                if ke.contains(k) {
                    let i = choose|i: int| 0 <= i < ke.len() && ke[i] == k;
                    assert(seen_evm.contains(ke[i]));
                }
            }
        }
        let mut j: usize = 0;
        while j < self.icp_to_evm_txs.len()
            invariant
                self.wf(),
                who == if by_address { address@ } else { principal@ },
                j <= self.icp_to_evm_txs.spec_len(),
                after_evm.len() <= out@.len(),
                forall|i: int| 0 <= i < after_evm.len() ==> #[trigger] out@[i] == after_evm[i],
                forall|i: int|
                    0 <= i < out@.len() ==> holds_transaction(self@, #[trigger] out@[i]@) && owned_by(out@[i]@, by_address, who),
                forall|jj: int|
                    0 <= jj < j && owned_by(TransactionView::IcpToEvm(#[trigger] self.icp_to_evm_txs.spec_value(jj)), by_address, who)
                        ==> exists|i: int| 0 <= i < out@.len() && #[trigger] out@[i]@ == TransactionView::IcpToEvm(
                        self.icp_to_evm_txs.spec_value(jj),
                    ),
                seen_evm == evm_to_icp_owned_keys(self@, by_address, who),
                seen_evm.finite(),
                seen_icp.finite(),
                seen_evm.len() + seen_icp.len() == out@.len(),
                ke.len() == seen_evm.len(),
                ke.no_duplicates(),
                ke.len() <= after_evm.len(),
                forall|i: int|
                    0 <= i < ke.len() ==> self@.evm_to_icp_txs.contains_key(#[trigger] ke[i])
                        && after_evm[i]@ == TransactionView::EvmToIcp(self@.evm_to_icp_txs[ke[i]]),
                forall|k: (Seq<char>, ChainId)| #[trigger] seen_evm.contains(k) <==> ke.contains(k),
                ki.len() + ke.len() == out@.len(),
                ki.no_duplicates(),
                forall|i: int|
                    0 <= i < ki.len() ==> seen_icp.contains(#[trigger] ki[i]) && self@.icp_to_evm_txs.contains_key(ki[i])
                        && out@[ke.len() + i]@ == TransactionView::IcpToEvm(self@.icp_to_evm_txs[ki[i]]),
                forall|k: (nat, ChainId)| #[trigger] seen_icp.contains(k) ==> ki.contains(k),
                forall|k: (nat, ChainId)|
                    #[trigger] seen_icp.contains(k) <==> exists|jj: int|
                        0 <= jj < j && #[trigger] self.icp_to_evm_txs.spec_key(jj) == k && owned_by(
                            TransactionView::IcpToEvm(self.icp_to_evm_txs.spec_value(jj)),
                            by_address,
                            who,
                        ),
            decreases self.icp_to_evm_txs.spec_len() - j,
        {
            proof {
                self.icp_to_evm_txs.lemma_entries();
            }
            let ghost prev = out@;
            let tx = self.icp_to_evm_txs.value_at(j);
            let owned = if by_address {
                tx.destination.same(address)
            } else {
                tx.from.same(principal)
            };
            let ghost seen0 = seen_icp;
            if owned {
                out.push(Transaction::IcpToEvm(tx.duplicate()));
                proof {
                    let k = self.icp_to_evm_txs.spec_key(j as int);
                    assert(self@.icp_to_evm_txs.contains_key(k));
                    if seen0.contains(k) {
                        let jj = choose|jj: int|
                            0 <= jj < j && #[trigger] self.icp_to_evm_txs.spec_key(jj) == k && owned_by(
                                TransactionView::IcpToEvm(self.icp_to_evm_txs.spec_value(jj)),
                                by_address,
                                who,
                            );
                        assert(false);
                    }
                    seen_icp = seen0.insert(k);
                    let ki0 = ki;
                    ki = ki.push(k);
                    assert(!ki0.contains(k));
                    assert forall|a: int, b: int| 0 <= a < ki.len() && 0 <= b < ki.len() && a != b implies ki[a] != ki[b] by {
                        if a == ki0.len() as int {
                            assert(ki0.contains(ki[b]));
                        } else if b == ki0.len() as int {
                            assert(ki0.contains(ki[a]));
                        }
                    }
                    assert(self.icp_to_evm_txs.spec_value(j as int) == self@.icp_to_evm_txs[k]);
                    assert forall|i: int| 0 <= i < ki.len() implies seen_icp.contains(#[trigger] ki[i])
                        && self@.icp_to_evm_txs.contains_key(ki[i])
                        && out@[ke.len() + i]@ == TransactionView::IcpToEvm(self@.icp_to_evm_txs[ki[i]]) by {
                        if i < ki0.len() {
                            assert(out@[ke.len() + i] == prev[ke.len() + i]);
                        }
                    }
                    assert forall|k2: (nat, ChainId)| #[trigger] seen_icp.contains(k2) implies ki.contains(k2) by {
                        if k2 == k {
                            assert(ki[ki0.len() as int] == k);
                        } else {
                            assert(seen0.contains(k2));
                            let i = choose|i: int| 0 <= i < ki0.len() && ki0[i] == k2;
                            assert(ki[i] == k2);
                        }
                    }
                }
            }
            proof {
                assert forall|k: (nat, ChainId)|
                    #[trigger] seen_icp.contains(k) <==> exists|jj: int|
                        0 <= jj < j + 1 && #[trigger] self.icp_to_evm_txs.spec_key(jj) == k && owned_by(
                            TransactionView::IcpToEvm(self.icp_to_evm_txs.spec_value(jj)),
                            by_address,
                            who,
                        ) by {
                    if exists|jj: int|
                        0 <= jj < j + 1 && #[trigger] self.icp_to_evm_txs.spec_key(jj) == k && owned_by(
                            TransactionView::IcpToEvm(self.icp_to_evm_txs.spec_value(jj)),
                            by_address,
                            who,
                        ) {
                        let jj = choose|jj: int|
                            0 <= jj < j + 1 && #[trigger] self.icp_to_evm_txs.spec_key(jj) == k && owned_by(
                                TransactionView::IcpToEvm(self.icp_to_evm_txs.spec_value(jj)),
                                by_address,
                                who,
                            );
                        if jj < j {
                            assert(seen0.contains(k));
                        }
                    }
                }
            }
            proof {
                assert forall|i: int| 0 <= i < out@.len() implies holds_transaction(self@, #[trigger] out@[i]@)
                    && owned_by(out@[i]@, by_address, who) by {
                    if i < prev.len() {
                        assert(out@[i] == prev[i]);
                    }
                }
                assert forall|jj: int|
                    0 <= jj <= j && owned_by(TransactionView::IcpToEvm(#[trigger] self.icp_to_evm_txs.spec_value(jj)), by_address, who)
                    implies exists|i: int| 0 <= i < out@.len() && #[trigger] out@[i]@ == TransactionView::IcpToEvm(
                    self.icp_to_evm_txs.spec_value(jj),
                ) by {
                    if jj < j {
                        let i = choose|i: int| 0 <= i < prev.len() && #[trigger] prev[i]@ == TransactionView::IcpToEvm(
                            self.icp_to_evm_txs.spec_value(jj),
                        );
                        assert(out@[i] == prev[i]);
                    } else {
                        assert(out@[out@.len() - 1]@ == TransactionView::IcpToEvm(self.icp_to_evm_txs.spec_value(jj)));
                    }
                }
            }
            j = j + 1;
        }
        proof {
            self.evm_to_icp_txs.lemma_entries();
            self.icp_to_evm_txs.lemma_entries();
            assert forall|k: (Seq<char>, ChainId)|
                #[trigger] self@.evm_to_icp_txs.contains_key(k) && owned_by(
                    TransactionView::EvmToIcp(self@.evm_to_icp_txs[k]),
                    by_address,
                    who,
                ) implies exists|i: int| 0 <= i < out@.len() && #[trigger] out@[i]@ == TransactionView::EvmToIcp(
                self@.evm_to_icp_txs[k],
            ) by {
                let jj = choose|jj: int|
                    0 <= jj < self.evm_to_icp_txs.spec_len() && #[trigger] self.evm_to_icp_txs.spec_key(jj) == k;
                assert(self.evm_to_icp_txs.spec_value(jj) == self@.evm_to_icp_txs[k]);
                let i = choose|i: int| 0 <= i < after_evm.len() && #[trigger] after_evm[i]@ == TransactionView::EvmToIcp(
                    self.evm_to_icp_txs.spec_value(jj),
                );
                assert(out@[i] == after_evm[i]);
            }
            assert forall|k: (nat, ChainId)|
                #[trigger] self@.icp_to_evm_txs.contains_key(k) && owned_by(
                    TransactionView::IcpToEvm(self@.icp_to_evm_txs[k]),
                    by_address,
                    who,
                ) implies exists|i: int| 0 <= i < out@.len() && #[trigger] out@[i]@ == TransactionView::IcpToEvm(
                self@.icp_to_evm_txs[k],
            ) by {
                let jj = choose|jj: int|
                    0 <= jj < self.icp_to_evm_txs.spec_len() && #[trigger] self.icp_to_evm_txs.spec_key(jj) == k;
                assert(self.icp_to_evm_txs.spec_value(jj) == self@.icp_to_evm_txs[k]);
            }
            assert forall|k: (nat, ChainId)| seen_icp.contains(k) <==> #[trigger] icp_to_evm_owned_keys(
                self@,
                by_address,
                who,
            ).contains(k) by {
                if icp_to_evm_owned_keys(self@, by_address, who).contains(k) {
                    let jj = choose|jj: int|
                        0 <= jj < self.icp_to_evm_txs.spec_len() && #[trigger] self.icp_to_evm_txs.spec_key(jj) == k;
                    assert(self.icp_to_evm_txs.spec_value(jj) == self@.icp_to_evm_txs[k]);
                }
            }
            assert(seen_icp =~= icp_to_evm_owned_keys(self@, by_address, who));
            assert(ke.to_set() =~= evm_to_icp_owned_keys(self@, by_address, who)) by {
                assert forall|k: (Seq<char>, ChainId)| ke.to_set().contains(k) <==> seen_evm.contains(k) by {
                    assert(ke.to_set().contains(k) <==> ke.contains(k));
                }
            }
            assert(ki.to_set() =~= icp_to_evm_owned_keys(self@, by_address, who)) by {
                assert forall|k: (nat, ChainId)| ki.to_set().contains(k) <==> seen_icp.contains(k) by {
                    assert(ki.to_set().contains(k) <==> ki.contains(k));
                    if ki.contains(k) {
                        let i = choose|i: int| 0 <= i < ki.len() && ki[i] == k;
                        assert(seen_icp.contains(ki[i]));
                    }
                }
            }
            assert forall|i: int| 0 <= i < ke.len() implies out@[i]@ == TransactionView::EvmToIcp(
                self@.evm_to_icp_txs[ke[i]],
            ) by {
                assert(self@.evm_to_icp_txs.contains_key(ke[i]));
                assert(out@[i] == after_evm[i]);
            }
            assert(matched_by_keys(self@, out@, ke, ki, by_address, query_subject(by_address, address@, principal@)));
        }
        out
    }

    /// Every EVM to ICP transfer sent from `address` and every ICP to EVM
    /// transfer paid to it: the EVM to ICP ones first, each exactly once.
    pub fn get_transaction_for_address(&self, address: EvmAddress) -> (r: Vec<Transaction>)
        requires
            self.wf(),
        ensures
            forall|i: int|
                0 <= i < r@.len() ==> holds_transaction(self@, #[trigger] r@[i]@) && owned_by(r@[i]@, true, address@),
            forall|k: (Seq<char>, ChainId)|
                #[trigger] self@.evm_to_icp_txs.contains_key(k) && self@.evm_to_icp_txs[k].from_address == address@
                    ==> exists|i: int| 0 <= i < r@.len() && #[trigger] r@[i]@ == TransactionView::EvmToIcp(self@.evm_to_icp_txs[k]),
            forall|k: (nat, ChainId)|
                #[trigger] self@.icp_to_evm_txs.contains_key(k) && self@.icp_to_evm_txs[k].destination == address@
                    ==> exists|i: int| 0 <= i < r@.len() && #[trigger] r@[i]@ == TransactionView::IcpToEvm(self@.icp_to_evm_txs[k]),
            r@.len() == evm_to_icp_owned_keys(self@, true, address@).len() + icp_to_evm_owned_keys(self@, true, address@).len(),
            exists|ke: Seq<(Seq<char>, ChainId)>, ki: Seq<(nat, ChainId)>|
                #[trigger] matched_by_keys(self@, r@, ke, ki, true, address@),
    {
        let nobody = PrincipalId(Vec::new());
        self.collect_transactions(true, &address, &nobody)
    }

    /// Every EVM to ICP transfer credited to `principal_id` and every ICP to
    /// EVM transfer it sent: the EVM to ICP ones first, each exactly once.
    pub fn get_transaction_for_principal(&self, principal_id: PrincipalId) -> (r: Vec<Transaction>)
        requires
            self.wf(),
        ensures
            forall|i: int|
                0 <= i < r@.len() ==> holds_transaction(self@, #[trigger] r@[i]@) && owned_by(r@[i]@, false, principal_id@),
            forall|k: (Seq<char>, ChainId)|
                #[trigger] self@.evm_to_icp_txs.contains_key(k) && self@.evm_to_icp_txs[k].principal == principal_id@
                    ==> exists|i: int| 0 <= i < r@.len() && #[trigger] r@[i]@ == TransactionView::EvmToIcp(self@.evm_to_icp_txs[k]),
            forall|k: (nat, ChainId)|
                #[trigger] self@.icp_to_evm_txs.contains_key(k) && self@.icp_to_evm_txs[k].from == principal_id@
                    ==> exists|i: int| 0 <= i < r@.len() && #[trigger] r@[i]@ == TransactionView::IcpToEvm(self@.icp_to_evm_txs[k]),
            r@.len() == evm_to_icp_owned_keys(self@, false, principal_id@).len() + icp_to_evm_owned_keys(self@, false, principal_id@).len(),
            exists|ke: Seq<(Seq<char>, ChainId)>, ki: Seq<(nat, ChainId)>|
                #[trigger] matched_by_keys(self@, r@, ke, ki, false, principal_id@),
    {
        let anywhere = EvmAddress::native();
        self.collect_transactions(false, &anywhere, &principal_id)
    }
}

proof fn lemma_first_args_error_persists(s: Seq<MinterArgs>, n: int)
    requires
        0 <= n <= s.len(),
        first_args_error(s.subrange(0, n)) is Some,
    ensures
        first_args_error(s) == first_args_error(s.subrange(0, n)),
    decreases s.len() - n,
{
    if n < s.len() {
        assert(s.subrange(0, n + 1).drop_last() =~= s.subrange(0, n));
        lemma_first_args_error_persists(s, n + 1);
    } else {
        assert(s.subrange(0, n) =~= s);
    }
}

impl State {
    /// The store at installation: the minters of `args` and nothing else; the
    /// error of the first invalid minter arguments, if any.
    pub fn from_init_args(args: InitArgs) -> (r: Result<State, MinterArgsError>)
        ensures
            first_args_error(args.minters@) matches Some(e) ==> r == Err::<State, MinterArgsError>(e),
            first_args_error(args.minters@).is_none() ==> (r matches Ok(st) && st.wf() && st@ == (StateView {
                active_tasks: Set::empty(),
                minters: registry_of_args(args.minters@),
                evm_to_icp_txs: Map::empty(),
                icp_to_evm_txs: Map::empty(),
                supported_ckerc20_tokens: Map::empty(),
                supported_twin_appic_tokens: Map::empty(),
            })),
    {
        let ghost s = args.minters@;
        let mut rest = args.minters;
        let mut state = State::new();
        let mut i: usize = 0;
        let total: usize = rest.len();
        assert(s.len() == total);
        while rest.len() > 0
            invariant
                state.wf(),
                s == args.minters@,
                i <= s.len(),
                rest@ == s.subrange(i as int, s.len() as int),
                rest@.len() + i == s.len(),
                s.len() <= usize::MAX,
                first_args_error(s.subrange(0, i as int)).is_none(),
                state@ == (StateView {
                    active_tasks: Set::empty(),
                    minters: registry_of_args(s.subrange(0, i as int)),
                    evm_to_icp_txs: Map::empty(),
                    icp_to_evm_txs: Map::empty(),
                    supported_ckerc20_tokens: Map::empty(),
                    supported_twin_appic_tokens: Map::empty(),
                }),
            decreases rest@.len(),
        {
            let a = rest.remove(0);
            proof {
                assert(s.subrange(0, i + 1).drop_last() =~= s.subrange(0, i as int));
                assert(s.subrange(0, i + 1).last() == a);
            }
            i = i + 1;
            match Minter::from_minter_args(a) {
                Ok(m) => {
                    state.record_minter(m);
                },
                Err(e) => {
                    proof {
                        lemma_first_args_error_persists(s, i as int);
                    }
                    return Err(e);
                },
            }
            assert(rest@ =~= s.subrange(i as int, s.len() as int));
        }
        assert(s.subrange(0, i as int) =~= s);
        Ok(state)
    }

    /// Every supported token pair of both tables.
    pub fn get_suported_twin_token_pairs(&self) -> (r: Vec<TokenPair>)
        requires
            self.wf(),
        ensures
            forall|i: int|
                0 <= i < r@.len() ==> lists_pair(self@.supported_ckerc20_tokens, Oprator::DfinityCkEthMinter, #[trigger] r@[i])
                    || lists_pair(self@.supported_twin_appic_tokens, Oprator::AppicMinter, r@[i]),
            forall|k: (Seq<u8>, ChainId)| #[trigger]
                self@.supported_ckerc20_tokens.contains_key(k) ==> pair_listed(
                    r@,
                    Oprator::DfinityCkEthMinter,
                    k,
                    self@.supported_ckerc20_tokens[k],
                ),
            forall|k: (Seq<u8>, ChainId)| #[trigger]
                self@.supported_twin_appic_tokens.contains_key(k) ==> pair_listed(
                    r@,
                    Oprator::AppicMinter,
                    k,
                    self@.supported_twin_appic_tokens[k],
                ),
            self@.supported_ckerc20_tokens.dom().finite(),
            self@.supported_twin_appic_tokens.dom().finite(),
            r@.len() == self@.supported_ckerc20_tokens.dom().len() + self@.supported_twin_appic_tokens.dom().len(),
            exists|kc: Seq<(Seq<u8>, ChainId)>, ka: Seq<(Seq<u8>, ChainId)>|
                #[trigger] pairs_by_keys(
                    self@.supported_ckerc20_tokens,
                    self@.supported_twin_appic_tokens,
                    r@,
                    kc,
                    ka,
                ),
    {
        let ghost mut seen_ck: Set<(Seq<u8>, ChainId)> = Set::empty();
        let ghost mut seen_appic: Set<(Seq<u8>, ChainId)> = Set::empty();
        let mut out: Vec<TokenPair> = Vec::new();
        let mut j: usize = 0;
        while j < self.supported_ckerc20_tokens.len()
            invariant
                self.wf(),
                j <= self.supported_ckerc20_tokens.spec_len(),
                forall|i: int|
                    0 <= i < out@.len() ==> lists_pair(self@.supported_ckerc20_tokens, Oprator::DfinityCkEthMinter, #[trigger] out@[i]),
                forall|jj: int|
                    0 <= jj < j ==> pair_listed(
                        out@,
                        Oprator::DfinityCkEthMinter,
                        #[trigger] self.supported_ckerc20_tokens.spec_key(jj),
                        self.supported_ckerc20_tokens.spec_value(jj),
                    ),
                seen_ck.finite(),
                forall|k: (Seq<u8>, ChainId)|
                    #[trigger] seen_ck.contains(k) <==> exists|jj: int| 0 <= jj < j && #[trigger] self.supported_ckerc20_tokens.spec_key(jj) == k,
                seen_ck.len() == out@.len(),
                out@.len() == j,
                forall|i: int|
                    0 <= i < j ==> pair_is(
                        #[trigger] out@[i],
                        Oprator::DfinityCkEthMinter,
                        self.supported_ckerc20_tokens.spec_key(i),
                        self.supported_ckerc20_tokens.spec_value(i),
                    ),
            decreases self.supported_ckerc20_tokens.spec_len() - j,
        {
            proof {
                self.supported_ckerc20_tokens.lemma_entries();
            }
            let ghost prev = out@;
            let id = self.supported_ckerc20_tokens.key_at(j);
            let pair = TokenPair {
                erc20_address: id.erc20_address().to_text(),
                ledger_id: self.supported_ckerc20_tokens.value_at(j).duplicate(),
                oprator: Oprator::DfinityCkEthMinter,
                chain_id: BigNat::from_u64(id.chain_id().0),
            };
            proof {
                let k = self.supported_ckerc20_tokens.spec_key(j as int);
                assert(self@.supported_ckerc20_tokens.contains_key(k));
                assert(lists_pair(self@.supported_ckerc20_tokens, Oprator::DfinityCkEthMinter, pair));
            }
            out.push(pair);
            proof {
                let k = self.supported_ckerc20_tokens.spec_key(j as int);
                let seen0 = seen_ck;
                if seen0.contains(k) {
                    let jj = choose|jj: int| 0 <= jj < j && #[trigger] self.supported_ckerc20_tokens.spec_key(jj) == k;
                    assert(false);
                }
                seen_ck = seen0.insert(k);
                assert forall|k2: (Seq<u8>, ChainId)|
                    #[trigger] seen_ck.contains(k2) <==> exists|jj: int|
                        0 <= jj < j + 1 && #[trigger] self.supported_ckerc20_tokens.spec_key(jj) == k2 by {
                    if exists|jj: int| 0 <= jj < j + 1 && #[trigger] self.supported_ckerc20_tokens.spec_key(jj) == k2 {
                        let jj = choose|jj: int| 0 <= jj < j + 1 && #[trigger] self.supported_ckerc20_tokens.spec_key(jj) == k2;
                        if jj < j {
                            assert(seen0.contains(k2));
                        }
                    }
                }
                lemma_pair_listed_push(prev, pair);
                assert(pair_is(out@[out@.len() - 1], Oprator::DfinityCkEthMinter, self.supported_ckerc20_tokens.spec_key(j as int), self.supported_ckerc20_tokens.spec_value(j as int)));
                assert forall|i: int| 0 <= i < out@.len() implies lists_pair(
                    self@.supported_ckerc20_tokens,
                    Oprator::DfinityCkEthMinter,
                    #[trigger] out@[i],
                ) by {
                    if i < prev.len() {
                        assert(out@[i] == prev[i]);
                    }
                }
                assert forall|i: int| 0 <= i < j + 1 implies pair_is(
                    #[trigger] out@[i],
                    Oprator::DfinityCkEthMinter,
                    self.supported_ckerc20_tokens.spec_key(i),
                    self.supported_ckerc20_tokens.spec_value(i),
                ) by {
                    if i < prev.len() {
                        assert(out@[i] == prev[i]);
                    }
                }
            }
            j = j + 1;
        }
        let ghost after_ck = out@;
        proof {
            self.supported_ckerc20_tokens.lemma_entries();
            assert forall|k: (Seq<u8>, ChainId)| seen_ck.contains(k) <==> #[trigger] self@.supported_ckerc20_tokens.dom().contains(k) by {
                if self@.supported_ckerc20_tokens.dom().contains(k) {
                    let jj = choose|jj: int|
                        0 <= jj < self.supported_ckerc20_tokens.spec_len() && #[trigger] self.supported_ckerc20_tokens.spec_key(jj) == k;
                }
            }
            assert(seen_ck =~= self@.supported_ckerc20_tokens.dom());
        }
        let mut j: usize = 0;
        while j < self.supported_twin_appic_tokens.len()
            invariant
                self.wf(),
                j <= self.supported_twin_appic_tokens.spec_len(),
                after_ck.len() <= out@.len(),
                forall|i: int| 0 <= i < after_ck.len() ==> #[trigger] out@[i] == after_ck[i],
                forall|i: int|
                    0 <= i < out@.len() ==> lists_pair(self@.supported_ckerc20_tokens, Oprator::DfinityCkEthMinter, #[trigger] out@[i])
                        || lists_pair(self@.supported_twin_appic_tokens, Oprator::AppicMinter, out@[i]),
                forall|jj: int|
                    0 <= jj < j ==> pair_listed(
                        out@,
                        Oprator::AppicMinter,
                        #[trigger] self.supported_twin_appic_tokens.spec_key(jj),
                        self.supported_twin_appic_tokens.spec_value(jj),
                    ),
                seen_appic.finite(),
                forall|k: (Seq<u8>, ChainId)|
                    #[trigger] seen_appic.contains(k) <==> exists|jj: int| 0 <= jj < j && #[trigger] self.supported_twin_appic_tokens.spec_key(jj) == k,
                seen_ck == self@.supported_ckerc20_tokens.dom(),
                seen_ck.finite(),
                seen_ck.len() + seen_appic.len() == out@.len(),
                out@.len() == after_ck.len() + j,
                after_ck.len() == self.supported_ckerc20_tokens.spec_len(),
                forall|i: int|
                    0 <= i < after_ck.len() ==> pair_is(
                        #[trigger] after_ck[i],
                        Oprator::DfinityCkEthMinter,
                        self.supported_ckerc20_tokens.spec_key(i),
                        self.supported_ckerc20_tokens.spec_value(i),
                    ),
                forall|i: int|
                    0 <= i < j ==> pair_is(
                        #[trigger] out@[after_ck.len() + i],
                        Oprator::AppicMinter,
                        self.supported_twin_appic_tokens.spec_key(i),
                        self.supported_twin_appic_tokens.spec_value(i),
                    ),
            decreases self.supported_twin_appic_tokens.spec_len() - j,
        {
            proof {
                self.supported_twin_appic_tokens.lemma_entries();
            }
            let ghost prev = out@;
            let id = self.supported_twin_appic_tokens.key_at(j);
            let pair = TokenPair {
                erc20_address: id.erc20_address().to_text(),
                ledger_id: self.supported_twin_appic_tokens.value_at(j).duplicate(),
                oprator: Oprator::AppicMinter,
                chain_id: BigNat::from_u64(id.chain_id().0),
            };
            proof {
                let k = self.supported_twin_appic_tokens.spec_key(j as int);
                assert(self@.supported_twin_appic_tokens.contains_key(k));
                assert(lists_pair(self@.supported_twin_appic_tokens, Oprator::AppicMinter, pair));
            }
            out.push(pair);
            proof {
                let k = self.supported_twin_appic_tokens.spec_key(j as int);
                let seen0 = seen_appic;
                if seen0.contains(k) {
                    let jj = choose|jj: int| 0 <= jj < j && #[trigger] self.supported_twin_appic_tokens.spec_key(jj) == k;
                    assert(false);
                }
                seen_appic = seen0.insert(k);
                assert forall|k2: (Seq<u8>, ChainId)|
                    #[trigger] seen_appic.contains(k2) <==> exists|jj: int|
                        0 <= jj < j + 1 && #[trigger] self.supported_twin_appic_tokens.spec_key(jj) == k2 by {
                    if exists|jj: int| 0 <= jj < j + 1 && #[trigger] self.supported_twin_appic_tokens.spec_key(jj) == k2 {
                        let jj = choose|jj: int| 0 <= jj < j + 1 && #[trigger] self.supported_twin_appic_tokens.spec_key(jj) == k2;
                        if jj < j {
                            assert(seen0.contains(k2));
                        }
                    }
                }
                lemma_pair_listed_push(prev, pair);
                assert(pair_is(out@[out@.len() - 1], Oprator::AppicMinter, self.supported_twin_appic_tokens.spec_key(j as int), self.supported_twin_appic_tokens.spec_value(j as int)));
                assert forall|i: int| 0 <= i < out@.len() implies lists_pair(
                    self@.supported_ckerc20_tokens,
                    Oprator::DfinityCkEthMinter,
                    #[trigger] out@[i],
                ) || lists_pair(self@.supported_twin_appic_tokens, Oprator::AppicMinter, out@[i]) by {
                    if i < prev.len() {
                        assert(out@[i] == prev[i]);
                    }
                }
                assert forall|i: int| 0 <= i < after_ck.len() implies #[trigger] out@[i] == after_ck[i] by {
                    assert(out@[i] == prev[i]);
                }
                assert forall|i: int| 0 <= i < j + 1 implies pair_is(
                    #[trigger] out@[after_ck.len() + i],
                    Oprator::AppicMinter,
                    self.supported_twin_appic_tokens.spec_key(i),
                    self.supported_twin_appic_tokens.spec_value(i),
                ) by {
                    if i < j {
                        assert(out@[after_ck.len() + i] == prev[after_ck.len() + i]);
                    }
                }
            }
            j = j + 1;
        }
        proof {
            self.supported_ckerc20_tokens.lemma_entries();
            self.supported_twin_appic_tokens.lemma_entries();
            lemma_pair_listed_prefix(after_ck, out@);
            assert forall|k: (Seq<u8>, ChainId)| #[trigger]
                self@.supported_ckerc20_tokens.contains_key(k) implies pair_listed(
                out@,
                Oprator::DfinityCkEthMinter,
                k,
                self@.supported_ckerc20_tokens[k],
            ) by {
                let jj = choose|jj: int|
                    0 <= jj < self.supported_ckerc20_tokens.spec_len() && #[trigger] self.supported_ckerc20_tokens.spec_key(jj) == k;
                assert(pair_listed(after_ck, Oprator::DfinityCkEthMinter, k, self@.supported_ckerc20_tokens[k]));
            }
            assert forall|k: (Seq<u8>, ChainId)| #[trigger]
                self@.supported_twin_appic_tokens.contains_key(k) implies pair_listed(
                out@,
                Oprator::AppicMinter,
                k,
                self@.supported_twin_appic_tokens[k],
            ) by {
                let jj = choose|jj: int|
                    0 <= jj < self.supported_twin_appic_tokens.spec_len()
                        && #[trigger] self.supported_twin_appic_tokens.spec_key(jj) == k;
            }
            assert forall|k: (Seq<u8>, ChainId)| seen_appic.contains(k) <==> #[trigger] self@.supported_twin_appic_tokens.dom().contains(k) by {
                if self@.supported_twin_appic_tokens.dom().contains(k) {
                    let jj = choose|jj: int|
                        0 <= jj < self.supported_twin_appic_tokens.spec_len()
                            && #[trigger] self.supported_twin_appic_tokens.spec_key(jj) == k;
                }
            }
            assert(seen_appic =~= self@.supported_twin_appic_tokens.dom());
            let ck = self.supported_ckerc20_tokens;
            let ap = self.supported_twin_appic_tokens;
            let kc = Seq::new(ck.spec_len(), |i: int| ck.spec_key(i));
            let ka = Seq::new(ap.spec_len(), |i: int| ap.spec_key(i));
            assert forall|x: int, y: int| 0 <= x < kc.len() && 0 <= y < kc.len() && x != y implies kc[x] != kc[y] by {
                assert(ck.spec_key(x) != ck.spec_key(y));
            }
            assert forall|x: int, y: int| 0 <= x < ka.len() && 0 <= y < ka.len() && x != y implies ka[x] != ka[y] by {
                assert(ap.spec_key(x) != ap.spec_key(y));
            }
            assert forall|k: (Seq<u8>, ChainId)| kc.to_set().contains(k) <==> #[trigger] ck@.dom().contains(k) by {
                assert(kc.to_set().contains(k) <==> kc.contains(k));
                if ck@.dom().contains(k) {
                    let jj = choose|jj: int| 0 <= jj < ck.spec_len() && #[trigger] ck.spec_key(jj) == k;
                    assert(kc[jj] == k);
                }
            }
            assert forall|k: (Seq<u8>, ChainId)| ka.to_set().contains(k) <==> #[trigger] ap@.dom().contains(k) by {
                assert(ka.to_set().contains(k) <==> ka.contains(k));
                if ap@.dom().contains(k) {
                    let jj = choose|jj: int| 0 <= jj < ap.spec_len() && #[trigger] ap.spec_key(jj) == k;
                    assert(ka[jj] == k);
                }
            }
            assert(kc.to_set() =~= ck@.dom());
            assert(ka.to_set() =~= ap@.dom());
            assert forall|i: int| 0 <= i < kc.len() implies pair_is(
                #[trigger] out@[i],
                Oprator::DfinityCkEthMinter,
                kc[i],
                ck@[kc[i]],
            ) by {
                assert(out@[i] == after_ck[i]);
                assert(ck@[ck.spec_key(i)] == ck.spec_value(i));
            }
            assert forall|i: int| 0 <= i < ka.len() implies pair_is(
                #[trigger] out@[kc.len() + i],
                Oprator::AppicMinter,
                ka[i],
                ap@[ka[i]],
            ) by {
                assert(ap@[ap.spec_key(i)] == ap.spec_value(i));
            }
            assert forall|a: int, b: int| 0 <= a < b < kc.len() implies Erc20Identifier::key_order(
                #[trigger] kc[a],
                #[trigger] kc[b],
            ) by {
                assert(Erc20Identifier::key_order(ck.spec_key(a), ck.spec_key(b)));
            }
            assert forall|a: int, b: int| 0 <= a < b < ka.len() implies Erc20Identifier::key_order(
                #[trigger] ka[a],
                #[trigger] ka[b],
            ) by {
                assert(Erc20Identifier::key_order(ap.spec_key(a), ap.spec_key(b)));
            }
            assert(pairs_by_keys(ck@, ap@, out@, kc, ka));
        }
        out
    }
}

/// `r` lists the pairs of the ckERC20 table under the distinct keys `kc`,
/// then those of the Appic table under the distinct keys `ka`, each in
/// ascending key order: one pair per key of each table, nothing else.
pub open spec fn pairs_by_keys(
    ck: Map<(Seq<u8>, ChainId), Seq<u8>>,
    ap: Map<(Seq<u8>, ChainId), Seq<u8>>,
    r: Seq<TokenPair>,
    kc: Seq<(Seq<u8>, ChainId)>,
    ka: Seq<(Seq<u8>, ChainId)>,
) -> bool {
    &&& kc.no_duplicates()
    &&& ka.no_duplicates()
    &&& kc.to_set() == ck.dom()
    &&& ka.to_set() == ap.dom()
    &&& r.len() == kc.len() + ka.len()
    &&& forall|i: int| 0 <= i < kc.len() ==> pair_is(#[trigger] r[i], Oprator::DfinityCkEthMinter, kc[i], ck[kc[i]])
    &&& forall|i: int| 0 <= i < ka.len() ==> pair_is(#[trigger] r[kc.len() + i], Oprator::AppicMinter, ka[i], ap[ka[i]])
    &&& forall|a: int, b: int| 0 <= a < b < kc.len() ==> Erc20Identifier::key_order(#[trigger] kc[a], #[trigger] kc[b])
    &&& forall|a: int, b: int| 0 <= a < b < ka.len() ==> Erc20Identifier::key_order(#[trigger] ka[a], #[trigger] ka[b])
}

/// `p` lists the pair of `key` and `ledger` for `oprator`.
pub open spec fn pair_is(p: TokenPair, oprator: Oprator, key: (Seq<u8>, ChainId), ledger: Seq<u8>) -> bool {
    p.oprator == oprator && p.ledger_id@ == ledger && p.erc20_address@ == eip55_text(key.0) && p.chain_id@
        == key.1.0 as nat
}

/// Some pair of `out` lists `key` and `ledger` for `oprator`.
pub open spec fn pair_listed(out: Seq<TokenPair>, oprator: Oprator, key: (Seq<u8>, ChainId), ledger: Seq<u8>) -> bool {
    exists|i: int| 0 <= i < out.len() && #[trigger] pair_is(out[i], oprator, key, ledger)
}

proof fn lemma_pair_listed_push(prev: Seq<TokenPair>, p: TokenPair)
    ensures
        forall|o: Oprator, k: (Seq<u8>, ChainId), l: Seq<u8>|
            #[trigger] pair_listed(prev, o, k, l) ==> pair_listed(prev.push(p), o, k, l),
        forall|o: Oprator, k: (Seq<u8>, ChainId), l: Seq<u8>|
            #[trigger] pair_is(p, o, k, l) ==> pair_listed(prev.push(p), o, k, l),
{
    assert forall|o: Oprator, k: (Seq<u8>, ChainId), l: Seq<u8>|
        #[trigger] pair_listed(prev, o, k, l) implies pair_listed(prev.push(p), o, k, l) by {
        let i = choose|i: int| 0 <= i < prev.len() && #[trigger] pair_is(prev[i], o, k, l);
        assert(prev.push(p)[i] == prev[i]);
    }
    assert forall|o: Oprator, k: (Seq<u8>, ChainId), l: Seq<u8>|
        #[trigger] pair_is(p, o, k, l) implies pair_listed(prev.push(p), o, k, l) by {
        assert(prev.push(p)[prev.len() as int] == p);
    }
}

proof fn lemma_pair_listed_prefix(prefix: Seq<TokenPair>, out: Seq<TokenPair>)
    requires
        prefix.len() <= out.len(),
        forall|i: int| 0 <= i < prefix.len() ==> #[trigger] out[i] == prefix[i],
    ensures
        forall|o: Oprator, k: (Seq<u8>, ChainId), l: Seq<u8>|
            #[trigger] pair_listed(prefix, o, k, l) ==> pair_listed(out, o, k, l),
{
    assert forall|o: Oprator, k: (Seq<u8>, ChainId), l: Seq<u8>|
        #[trigger] pair_listed(prefix, o, k, l) implies pair_listed(out, o, k, l) by {
        let i = choose|i: int| 0 <= i < prefix.len() && #[trigger] pair_is(prefix[i], o, k, l);
        assert(out[i] == prefix[i]);
    }
}

} // verus!
