//! Decisions of the periodic tasks: which page of a minter's log to fetch
//! next, how a fetched page moves the store and the cursors, and the locks
//! that keep two ticks of one task apart. Fetching and timers are left to the
//! caller, which performs each decision and hands back what it got.

use crate::apply::{applied_all, apply_events};
use crate::event_conversion::Events;
use crate::guard::TaskType;
use crate::keyed::Duplicate;
use crate::state::{ApplyError, Minter, MinterKey, MinterView, State, StateView};
use vstd::prelude::*;

verus! {

/// Largest number of events fetched in one call.
pub const PAGE_SIZE: u64 = 100;

/// How long, in nanoseconds, an unverified transfer is kept: one day.
pub const UNVERIFIED_TTL: u64 = 86_400_000_000_000;

/// Why a fetched page was not recorded.
#[derive(Clone, Copy, Debug, PartialEq, Eq, Structural)]
pub enum ScrapeError {
    /// No minter is registered under the key.
    UnknownMinter,
    /// The page does not start at the scraped cursor or runs past the observed one.
    StalePage,
    /// An event of the page could not be applied.
    Apply(ApplyError),
}

/// The page `(start, length)` to fetch next from `minter`, if any event is
/// observed but not scraped: it starts at the scraped cursor and holds at most
/// [`PAGE_SIZE`] events.
pub fn next_page(minter: &Minter) -> (r: Option<(u64, u64)>)
    requires
        minter.wf(),
    ensures
        r.is_some() == (minter.last_scraped_event < minter.last_observed_event),
        r matches Some((start, length)) ==> start == minter.last_scraped_event && length == if minter.last_observed_event
            - minter.last_scraped_event <= PAGE_SIZE {
            minter.last_observed_event - minter.last_scraped_event
        } else {
            PAGE_SIZE as int
        },
{
    if minter.last_scraped_event < minter.last_observed_event {
        let pending = minter.last_observed_event - minter.last_scraped_event;
        let length = if pending <= PAGE_SIZE {
            pending
        } else {
            PAGE_SIZE
        };
        Some((minter.last_scraped_event, length))
    } else {
        None
    }
}

/// Takes the lock of task `t`; `false`, and nothing changed, if a tick of it runs.
pub fn try_lock_task(state: &mut State, t: TaskType) -> (r: bool)
    requires
        old(state).wf(),
    ensures
        final(state).wf(),
        r == !old(state)@.active_tasks.contains(t),
        final(state)@ == (StateView { active_tasks: old(state)@.active_tasks.insert(t), ..old(state)@ }),
{
    state.active_tasks.try_acquire(t)
}

/// Releases the lock of task `t`.
pub fn unlock_task(state: &mut State, t: TaskType)
    requires
        old(state).wf(),
    ensures
        final(state).wf(),
        final(state)@ == (StateView { active_tasks: old(state)@.active_tasks.remove(t), ..old(state)@ }),
{
    state.active_tasks.release(t);
}

/// Records the event count a minter reported: the observed cursor moves up to
/// it and never back. Returns whether the minter is registered.
pub fn observe_event_count(state: &mut State, key: &MinterKey, total_event_count: u64) -> (r: bool)
    requires
        old(state).wf(),
    ensures
        final(state).wf(),
        r == old(state)@.minters.contains_key(*key),
        !r ==> final(state)@ == old(state)@,
        r ==> final(state)@ == (StateView {
            minters: old(state)@.minters.insert(
                *key,
                MinterView {
                    last_observed_event: if total_event_count > old(state)@.minters[*key].last_observed_event {
                        total_event_count
                    } else {
                        old(state)@.minters[*key].last_observed_event
                    },
                    ..old(state)@.minters[*key]
                },
            ),
            ..old(state)@
        }),
{
    let mut minter = match state.get_minter(key) {
        Some(m) => m.duplicate(),
        None => return false,
    };
    if total_event_count > minter.last_observed_event {
        minter.update_last_observed_event(total_event_count);
    }
    state.record_minter(minter);
    true
}

/// Applies a fetched page `[start, start + length)` of the minter under `key`
/// and moves its scraped cursor to the page's end. The page must start at the
/// scraped cursor and end within the observed one; where an event fails, the
/// error is returned and the store, cursor included, stays as it was.
pub fn scrape_page(state: &mut State, key: &MinterKey, start: u64, length: u64, page: Events) -> (r: Result<(), ScrapeError>)
    requires
        old(state).wf(),
    ensures
        final(state).wf(),
        !old(state)@.minters.contains_key(*key) ==> r == Err::<(), ScrapeError>(ScrapeError::UnknownMinter)
            && final(state)@ == old(state)@,
        old(state)@.minters.contains_key(*key) ==> ({
            let m = old(state)@.minters[*key];
            if start != m.last_scraped_event || start + length > m.last_observed_event {
                r == Err::<(), ScrapeError>(ScrapeError::StalePage) && final(state)@ == old(state)@
            } else {
                match applied_all(old(state)@, page.events@, m) {
                    Ok(s) => r is Ok && final(state)@ == (StateView {
                        minters: s.minters.insert(
                            *key,
                            MinterView { last_scraped_event: (start + length) as u64, ..m },
                        ),
                        ..s
                    }),
                    Err(e) => r == Err::<(), ScrapeError>(ScrapeError::Apply(e)) && final(state)@ == old(state)@,
                }
            }
        }),
{
    let mut minter = match state.get_minter(key) {
        Some(m) => m.duplicate(),
        None => return Err(ScrapeError::UnknownMinter),
    };
    if start != minter.last_scraped_event || length > minter.last_observed_event - start {
        return Err(ScrapeError::StalePage);
    }
    match apply_events(state, page.events, &minter) {
        Ok(()) => {},
        Err(e) => return Err(ScrapeError::Apply(e)),
    }
    proof {
        lemma_applied_all_keeps_minters(old(state)@, page.events@, minter@);
    }
    minter.update_last_scraped_event(start + length);
    state.record_minter(minter);
    Ok(())
}

/// Applying events never touches the minter registry, the token tables or the locks.
pub proof fn lemma_applied_all_keeps_minters(st: StateView, es: Seq<crate::appic_events::Event>, m: MinterView)
    ensures
        applied_all(st, es, m) matches Ok(s) ==> s.minters == st.minters && s.active_tasks == st.active_tasks
            && s.supported_ckerc20_tokens == st.supported_ckerc20_tokens
            && s.supported_twin_appic_tokens == st.supported_twin_appic_tokens,
    decreases es.len(),
{
    if es.len() > 0 {
        lemma_applied_all_keeps_minters(st, es.drop_last(), m);
    }
}

/// Every registered minter has scraped no further than it observed, in every
/// well-formed store; each operation on the store keeps it well-formed.
pub proof fn lemma_scraped_never_ahead_of_observed(state: &State, k: MinterKey)
    requires
        state.wf(),
        state@.minters.contains_key(k),
    ensures
        state@.minters[k].last_scraped_event <= state@.minters[k].last_observed_event,
{
}

/// Removes the unverified transfers that have outlived [`UNVERIFIED_TTL`] at `now`.
pub fn remove_unverified_transactions(state: &mut State, now: u64)
    requires
        old(state).wf(),
    ensures
        final(state).wf(),
        final(state)@ == (StateView {
            evm_to_icp_txs: old(state)@.evm_to_icp_txs.remove_keys(
                crate::store_queries::expired_evm_to_icp(old(state)@.evm_to_icp_txs, now, UNVERIFIED_TTL),
            ),
            icp_to_evm_txs: old(state)@.icp_to_evm_txs.remove_keys(
                crate::store_queries::expired_icp_to_evm(old(state)@.icp_to_evm_txs, now, UNVERIFIED_TTL),
            ),
            ..old(state)@
        }),
{
    state.remove_expired_unverified_txs(now, UNVERIFIED_TTL);
}

} // verus!
