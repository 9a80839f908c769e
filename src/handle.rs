use crate::events::{
    error_count, flushed, empty_slots, LogError, Level, SpeculativeEvents, VMLogEntry, rank,
};
use vstd::prelude::*;

verus! {

/// `a + b`, saturated at the largest `u64`.
pub open spec fn sat_add(a: nat, b: nat) -> nat {
    if a + b <= u64::MAX {
        a + b
    } else {
        u64::MAX as nat
    }
}

/// The swappable home of the current event store.
///
/// At most one store is installed at a time. Other parties may hold the
/// installed store (see `hold` and `release`); a flush succeeds only when no
/// such holder remains. Every reported failure, and every dispatched event of
/// severity `Error`, adds one to the critical-error counter.
pub struct LogHandle {
    current: Option<SpeculativeEvents>,
    holders: usize,
    critical_errors: u64,
}

impl LogHandle {
    pub closed spec fn installed(&self) -> bool {
        self.current is Some
    }

    /// The slots of the installed store (meaningful only while installed).
    pub closed spec fn slots(&self) -> Seq<Seq<VMLogEntry>> {
        match self.current {
            Some(s) => s@,
            None => Seq::empty(),
        }
    }

    /// Number of other holders of the installed store.
    pub closed spec fn holders(&self) -> nat {
        self.holders as nat
    }

    pub closed spec fn critical(&self) -> nat {
        self.critical_errors as nat
    }

    /// A handle with no store installed and a zero counter.
    pub fn new() -> (r: Self)
        ensures
            !r.installed(),
            r.holders() == 0,
            r.critical() == 0,
    {
        LogHandle { current: None, holders: 0, critical_errors: 0 }
    }

    pub fn is_installed(&self) -> (r: bool)
        ensures
            r == self.installed(),
    {
        self.current.is_some()
    }

    pub fn critical_errors(&self) -> (r: u64)
        ensures
            r == self.critical(),
    {
        self.critical_errors
    }

    pub fn num_holders(&self) -> (r: usize)
        ensures
            r == self.holders(),
    {
        self.holders
    }

    /// Number of slots of the installed store, if any.
    pub fn num_txns(&self) -> (r: Option<usize>)
        ensures
            self.installed() ==> r == Some(self.slots().len() as usize),
            !self.installed() ==> r is None,
    {
        match &self.current {
            Some(s) => Some(s.num_txns()),
            None => None,
        }
    }

    /// Adds one to the critical-error counter, saturating.
    fn alert(&mut self)
        ensures
            final(self).critical() == sat_add(old(self).critical(), 1),
            final(self).current == old(self).current,
            final(self).holders == old(self).holders,
    {
        self.critical_errors = self.critical_errors.saturating_add(1);
    }

    /// Takes one more hold on the installed store. Refused (`false`) when
    /// nothing is installed or the count of holders is at its limit.
    pub fn hold(&mut self) -> (r: bool)
        ensures
            r == (old(self).installed() && old(self).holders() < usize::MAX),
            final(self).holders() == old(self).holders() + if r { 1nat } else { 0nat },
            final(self).installed() == old(self).installed(),
            final(self).slots() == old(self).slots(),
            final(self).critical() == old(self).critical(),
    {
        if self.current.is_some() && self.holders < usize::MAX {
            self.holders = self.holders + 1;
            true
        } else {
            false
        }
    }

    /// Gives up one hold on the installed store, if any is taken.
    pub fn release(&mut self)
        ensures
            final(self).holders() == if old(self).holders() > 0 {
                (old(self).holders() - 1) as nat
            } else {
                0nat
            },
            final(self).installed() == old(self).installed(),
            final(self).slots() == old(self).slots(),
            final(self).critical() == old(self).critical(),
    {
        if self.holders > 0 {
            self.holders = self.holders - 1;
        }
    }
}

/// Installs a fresh store of `num_txns` empty slots, replacing any store
/// installed before. No holders are counted on the new store.
pub fn init_speculative_logs(handle: &mut LogHandle, num_txns: usize)
    ensures
        final(handle).installed(),
        final(handle).slots() == empty_slots(num_txns as nat),
        final(handle).holders() == 0,
        final(handle).critical() == old(handle).critical(),
{
    handle.current = Some(SpeculativeEvents::new(num_txns));
    handle.holders = 0;
}

/// Records an event of severity `level` with `message` for transaction
/// `txn_idx` in the installed store.
///
/// Reports `NotInstalled` when no store is installed and `OutOfRange` when
/// `txn_idx` has no slot; either drops the event, leaves every slot as it
/// was, and counts one critical error.
pub fn speculative_log(handle: &mut LogHandle, level: Level, txn_idx: usize, message: String) -> (r:
    Result<(), LogError>)
    ensures
        final(handle).installed() == old(handle).installed(),
        final(handle).holders() == old(handle).holders(),
        !old(handle).installed() ==> r == Err::<(), LogError>(LogError::NotInstalled)
            && final(handle).critical() == sat_add(old(handle).critical(), 1),
        old(handle).installed() && txn_idx >= old(handle).slots().len() ==> r == Err::<
            (),
            LogError,
        >(LogError::OutOfRange) && final(handle).slots() == old(handle).slots()
            && final(handle).critical() == sat_add(old(handle).critical(), 1),
        old(handle).installed() && txn_idx < old(handle).slots().len() ==> r is Ok
            && final(handle).slots() == old(handle).slots().update(
            txn_idx as int,
            old(handle).slots()[txn_idx as int].push((VMLogEntry { level, txn_idx, message })),
        ) && final(handle).critical() == old(handle).critical(),
{
    let r = match &mut handle.current {
        Some(store) => store.record(txn_idx, VMLogEntry::new(level, txn_idx, message)),
        None => Err(LogError::NotInstalled),
    };
    if r.is_err() {
        handle.alert();
    }
    r
}

/// Severity-gated recording: an event less severe than `threshold` is
/// skipped at no cost (`Ok`, nothing changes); any other goes to
/// `speculative_log`.
pub fn speculative_record(
    handle: &mut LogHandle,
    threshold: Level,
    level: Level,
    txn_idx: usize,
    message: String,
) -> (r: Result<(), LogError>)
    ensures
        rank(level) > rank(threshold) ==> r is Ok && *final(handle) == *old(handle),
        rank(level) <= rank(threshold) ==> final(handle).installed() == old(handle).installed()
            && final(handle).holders() == old(handle).holders() && (!old(handle).installed()
            ==> r == Err::<(), LogError>(LogError::NotInstalled) && final(handle).critical()
            == sat_add(old(handle).critical(), 1)) && (old(handle).installed() && txn_idx
            >= old(handle).slots().len() ==> r == Err::<(), LogError>(LogError::OutOfRange)
            && final(handle).slots() == old(handle).slots() && final(handle).critical()
            == sat_add(old(handle).critical(), 1)) && (old(handle).installed() && txn_idx
            < old(handle).slots().len() ==> r is Ok && final(handle).slots() == old(
            handle,
        ).slots().update(
            txn_idx as int,
            old(handle).slots()[txn_idx as int].push((VMLogEntry { level, txn_idx, message })),
        ) && final(handle).critical() == old(handle).critical()),
{
    if level.enabled_at(threshold) {
        speculative_log(handle, level, txn_idx, message)
    } else {
        Ok(())
    }
}

/// Discards every event recorded for transaction `txn_idx`.
///
/// With no store installed this silently does nothing. When `txn_idx` has no
/// slot, `OutOfRange` is reported and one critical error is counted.
pub fn clear_speculative_txn_logs(handle: &mut LogHandle, txn_idx: usize) -> (r: Result<
    (),
    LogError,
>)
    ensures
        final(handle).installed() == old(handle).installed(),
        final(handle).holders() == old(handle).holders(),
        !old(handle).installed() ==> r is Ok && final(handle).critical() == old(handle).critical(),
        old(handle).installed() && txn_idx >= old(handle).slots().len() ==> r == Err::<
            (),
            LogError,
        >(LogError::OutOfRange) && final(handle).slots() == old(handle).slots()
            && final(handle).critical() == sat_add(old(handle).critical(), 1),
        old(handle).installed() && txn_idx < old(handle).slots().len() ==> r is Ok
            && final(handle).slots() == old(handle).slots().update(txn_idx as int, Seq::empty())
            && final(handle).critical() == old(handle).critical(),
{
    let r = match &mut handle.current {
        Some(store) => store.clear_txn_events(txn_idx),
        None => Ok(()),
    };
    if r.is_err() {
        handle.alert();
    }
    r
}

/// `min(c + error_count(s), u64::MAX)` for a counter value `c`.
fn add_errors(c: u64, events: &Vec<VMLogEntry>) -> (r: u64)
    ensures
        r == sat_add(c as nat, error_count(events@)),
{
    let mut r: u64 = c;
    let mut i: usize = 0;
    while i < events.len()
        invariant
            i <= events@.len(),
            r == sat_add(c as nat, error_count(events@.take(i as int))),
        decreases events@.len() - i,
    {
        assert(events@.take(i + 1).drop_last() =~= events@.take(i as int));
        if events[i].level == Level::Error {
            r = r.saturating_add(1);
        }
        i = i + 1;
    }
    assert(events@.take(i as int) =~= events@);
    r
}

/// Removes the installed store from the handle and, if no other holder
/// remains, returns the events of its first `num_to_flush` slots in
/// dispatch order: slot by slot, each slot in append order.
///
/// The handle holds no store afterwards, whatever the outcome. With nothing
/// installed the result is empty. With holders remaining the store is dropped
/// without dispatching and `NotExclusive` is reported.
pub fn flush_speculative_logs(handle: &mut LogHandle, num_to_flush: usize) -> (r: Result<
    Vec<VMLogEntry>,
    LogError,
>)
    ensures
        !final(handle).installed(),
        final(handle).holders() == 0,
        !old(handle).installed() ==> r is Ok && r->Ok_0@.len() == 0 && final(handle).critical()
            == old(handle).critical(),
        old(handle).installed() && old(handle).holders() > 0 ==> r == Err::<Vec<VMLogEntry>, LogError>(
            LogError::NotExclusive,
        ) && final(handle).critical() == sat_add(old(handle).critical(), 1),
        old(handle).installed() && old(handle).holders() == 0 ==> r is Ok && r->Ok_0@ == flushed(
            old(handle).slots(),
            num_to_flush as int,
        ) && final(handle).critical() == sat_add(old(handle).critical(), error_count(r->Ok_0@)),
{
    let taken = handle.current.take();
    let others = handle.holders;
    handle.holders = 0;
    match taken {
        None => Ok(Vec::new()),
        Some(store) => {
            if others > 0 {
                handle.alert();
                Err(LogError::NotExclusive)
            } else {
                let events = store.flush(num_to_flush);
                handle.critical_errors = add_errors(handle.critical_errors, &events);
                Ok(events)
            }
        },
    }
}

} // verus!
