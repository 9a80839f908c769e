use vstd::prelude::*;

verus! {

/// Severity of a log event, from most to least severe.
#[derive(Clone, Copy, Debug, PartialEq, Eq, Structural)]
pub enum Level {
    Error,
    Warn,
    Info,
    Debug,
    Trace,
}

/// Rank of a severity: 1 for `Error` up to 5 for `Trace`.
pub open spec fn rank(l: Level) -> nat {
    match l {
        Level::Error => 1,
        Level::Warn => 2,
        Level::Info => 3,
        Level::Debug => 4,
        Level::Trace => 5,
    }
}

impl Level {
    /// Numeric rank of the severity (1 is the most severe).
    pub fn rank(self) -> (r: u8)
        ensures
            r as nat == rank(self),
    {
        match self {
            Level::Error => 1,
            Level::Warn => 2,
            Level::Info => 3,
            Level::Debug => 4,
            Level::Trace => 5,
        }
    }

    /// Whether an event of this severity passes a threshold: it is at least
    /// as severe as `max`.
    pub fn enabled_at(self, max: Level) -> (r: bool)
        ensures
            r == (rank(self) <= rank(max)),
    {
        self.rank() <= max.rank()
    }
}

/// The downstream channel an event is emitted on.
#[derive(Clone, Copy, Debug, PartialEq, Eq, Structural)]
pub enum Channel {
    /// Error output that also counts as a critical error.
    Alert,
    Warn,
    Info,
    Debug,
    Trace,
}

pub open spec fn channel_of(l: Level) -> Channel {
    match l {
        Level::Error => Channel::Alert,
        Level::Warn => Channel::Warn,
        Level::Info => Channel::Info,
        Level::Debug => Channel::Debug,
        Level::Trace => Channel::Trace,
    }
}

/// One buffered event: its severity, the index of the transaction that
/// produced it, and its message.
#[derive(Clone, Debug, PartialEq, Eq)]
pub struct VMLogEntry {
    pub level: Level,
    pub txn_idx: usize,
    pub message: String,
}

impl VMLogEntry {
    pub fn new(level: Level, txn_idx: usize, message: String) -> (r: Self)
        ensures
            r == (VMLogEntry { level, txn_idx, message }),
    {
        VMLogEntry { level, txn_idx, message }
    }

    /// The channel this entry is dispatched on.
    pub fn dispatch(&self) -> (r: Channel)
        ensures
            r == channel_of(self.level),
    {
        match self.level {
            Level::Error => Channel::Alert,
            Level::Warn => Channel::Warn,
            Level::Info => Channel::Info,
            Level::Debug => Channel::Debug,
            Level::Trace => Channel::Trace,
        }
    }
}

/// Number of entries of severity `Error` in `s`.
pub open spec fn error_count(s: Seq<VMLogEntry>) -> nat
    decreases s.len(),
{
    if s.len() == 0 {
        0
    } else {
        error_count(s.drop_last()) + if s.last().level == Level::Error { 1nat } else { 0nat }
    }
}

/// The concatenation of all slots, in slot order.
pub open spec fn concat(slots: Seq<Seq<VMLogEntry>>) -> Seq<VMLogEntry>
    decreases slots.len(),
{
    if slots.len() == 0 {
        Seq::empty()
    } else {
        concat(slots.drop_last()) + slots.last()
    }
}

pub open spec fn min(a: int, b: int) -> int {
    if a <= b { a } else { b }
}

/// What flushing the first `n` slots of `slots` dispatches: the events of
/// slots `0 .. n` (as far as there are slots), slot by slot, each slot in
/// append order.
pub open spec fn flushed(slots: Seq<Seq<VMLogEntry>>, n: int) -> Seq<VMLogEntry> {
    concat(slots.take(min(n, slots.len() as int)))
}

/// `n` empty slots.
pub open spec fn empty_slots(n: nat) -> Seq<Seq<VMLogEntry>> {
    Seq::new(n, |i: int| Seq::<VMLogEntry>::empty())
}

/// Errors reported by the event store and its handle.
#[derive(Clone, Copy, Debug, PartialEq, Eq, Structural)]
pub enum LogError {
    /// The transaction index is not below the number of slots.
    OutOfRange,
    /// No store is installed.
    NotInstalled,
    /// Another holder of the store remains, so it cannot be flushed.
    NotExclusive,
}

/// A fixed number of slots, one per transaction, each an ordered sequence of
/// events.
pub struct SpeculativeEvents {
    slots: Vec<Vec<VMLogEntry>>,
}

impl View for SpeculativeEvents {
    type V = Seq<Seq<VMLogEntry>>;

    closed spec fn view(&self) -> Seq<Seq<VMLogEntry>> {
        Seq::new(self.slots@.len(), |i: int| self.slots@[i]@)
    }
}

impl SpeculativeEvents {
    /// A store of `num_txns` empty slots.
    pub fn new(num_txns: usize) -> (r: Self)
        ensures
            r@ == empty_slots(num_txns as nat),
    {
        let mut slots: Vec<Vec<VMLogEntry>> = Vec::new();
        let mut i: usize = 0;
        while i < num_txns
            invariant
                i <= num_txns,
                slots@.len() == i,
                forall|k: int| 0 <= k < i ==> (#[trigger] slots@[k])@.len() == 0,
            decreases num_txns - i,
        {
            slots.push(Vec::new());
            i = i + 1;
        }
        let r = SpeculativeEvents { slots };
        assert forall|k: int| 0 <= k < num_txns implies r@[k] == empty_slots(num_txns as nat)[k] by {
            assert(r@[k] =~= Seq::<VMLogEntry>::empty());
        }
        assert(r@ =~= empty_slots(num_txns as nat));
        r
    }

    pub fn num_txns(&self) -> (r: usize)
        ensures
            r == self@.len(),
    {
        self.slots.len()
    }

    /// Appends `event` to the slot of transaction `txn_idx`.
    pub fn record(&mut self, txn_idx: usize, event: VMLogEntry) -> (r: Result<(), LogError>)
        ensures
            txn_idx < old(self)@.len() ==> r is Ok && final(self)@ == old(self)@.update(
                txn_idx as int,
                old(self)@[txn_idx as int].push(event),
            ),
            txn_idx >= old(self)@.len() ==> r == Err::<(), LogError>(LogError::OutOfRange)
                && final(self)@ == old(self)@,
    {
        if txn_idx < self.slots.len() {
            self.slots[txn_idx].push(event);
            assert(self@ =~= old(self)@.update(
                txn_idx as int,
                old(self)@[txn_idx as int].push(event),
            ));
            Ok(())
        } else {
            Err(LogError::OutOfRange)
        }
    }

    /// Discards every event recorded for transaction `txn_idx`.
    pub fn clear_txn_events(&mut self, txn_idx: usize) -> (r: Result<(), LogError>)
        ensures
            txn_idx < old(self)@.len() ==> r is Ok && final(self)@ == old(self)@.update(
                txn_idx as int,
                Seq::empty(),
            ),
            txn_idx >= old(self)@.len() ==> r == Err::<(), LogError>(LogError::OutOfRange)
                && final(self)@ == old(self)@,
    {
        if txn_idx < self.slots.len() {
            self.slots.set(txn_idx, Vec::new());
            assert(self@ =~= old(self)@.update(txn_idx as int, Seq::empty()));
            Ok(())
        } else {
            Err(LogError::OutOfRange)
        }
    }

    /// Consumes the store and returns the events of its first `num_to_flush`
    /// slots, slot by slot, each slot in the order its events were recorded.
    pub fn flush(self, num_to_flush: usize) -> (r: Vec<VMLogEntry>)
        ensures
            r@ == flushed(self@, num_to_flush as int),
    {
        let ghost all = self@;
        let mut slots = self.slots;
        let m: usize = if num_to_flush < slots.len() { num_to_flush } else { slots.len() };
        let ghost orig = all.take(m as int);
        slots.truncate(m);
        let mut rev: Vec<Vec<VMLogEntry>> = Vec::new();
        while slots.len() > 0
            invariant
                slots@.len() + rev@.len() == m,
                m == orig.len(),
                forall|k: int| 0 <= k < slots@.len() ==> (#[trigger] slots@[k])@ == orig[k],
                forall|k: int| 0 <= k < rev@.len() ==> (#[trigger] rev@[k])@ == orig[m - 1 - k],
            decreases slots@.len(),
        {
            let s = slots.pop().unwrap();
            rev.push(s);
        }
        let mut out: Vec<VMLogEntry> = Vec::new();
        while rev.len() > 0
            invariant
                rev@.len() <= m,
                m == orig.len(),
                forall|k: int| 0 <= k < rev@.len() ==> (#[trigger] rev@[k])@ == orig[m - 1 - k],
                out@ == concat(orig.take(m - rev@.len())),
            decreases rev@.len(),
        {
            let ghost done = m - rev@.len();
            let mut s = rev.pop().unwrap();
            assert(orig.take(done + 1).drop_last() =~= orig.take(done));
            out.append(&mut s);
        }
        assert(orig.take(m as int) =~= orig);
        out
    }
}

} // verus!
