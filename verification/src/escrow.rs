//! The escrow ledger proper: its records, its two state transitions, the
//! errors that guard them, and the events it reports.
//!
//! The ledger owns a monotonically increasing identifier counter and a
//! mapping from identifier to escrow record. The host passes the
//! authenticated caller identity and the current logical clock value into
//! every call, and hands over an append-only event sink; the ledger never
//! reaches out for any of them itself.

use std::collections::HashMap;
use vstd::prelude::*;

verus! {

broadcast use vstd::std_specs::hash::group_hash_axioms;

/// Number of clock ticks that must elapse after a record's creation before
/// any withdrawal from it is permitted.
pub const MIN_DELAY: u64 = 2;

/// A single escrow record: the value currently held, the only identity
/// allowed to withdraw it, and the logical time at which it was created.
///
/// While a record is stored its `amount` is strictly positive; a record
/// whose amount would reach zero is deleted instead. `recipient` and
/// `created_at` are fixed at creation and never change.
#[derive(Clone, Copy, PartialEq, Eq, Structural, Debug)]
pub struct Escrow {
    pub amount: u64,
    pub recipient: u64,
    pub created_at: u64,
}

/// A notification of a successful state transition, reported to the host's
/// event sink: exactly one per successful call, none on failure.
#[derive(Clone, Copy, PartialEq, Eq, Structural, Debug)]
pub enum Event {
    EscrowCreated { id: u64, amount: u64, initiator: u64, recipient: u64, created_at: u64 },
    EscrowWithdrawn { id: u64, amount: u64, recipient: u64, escrow_created_at: u64, withdrawn_at: u64 },
}

/// Why a call was rejected. Every failure leaves the store untouched.
#[derive(Clone, Copy, PartialEq, Eq, Structural, Debug)]
pub enum Error {
    /// Creation requested with no value.
    ZeroAmount,
    /// The identifier space is exhausted: allocating one more id would wrap
    /// the counter.
    CounterOverflow,
    /// The operation referenced an id with no open record.
    NotFound,
    /// Withdrawal attempted before the minimum holding period elapsed; the
    /// record is preserved and the call may be retried once time advances.
    TooEarly,
    /// Withdrawal amount exceeds the record's remaining amount.
    InsufficientEscrow,
    /// The caller is not the record's recipient.
    Unauthorized,
}

/// The mathematical state of the ledger: the identifier counter and the
/// map from identifier to open record. This is the value that every
/// contract in this crate speaks about.
pub struct StoreView {
    pub next_id: u64,
    pub records: Map<u64, Escrow>,
}

/// Whether persisted parts make a well-formed store: every record's
/// amount is positive, every id lies below the counter, and no id occurs
/// twice.
pub open spec fn parts_wf(next_id: u64, entries: Seq<(u64, Escrow)>) -> bool {
    &&& forall|i: int| 0 <= i < entries.len() ==> (#[trigger] entries[i].1).amount > 0
    &&& forall|i: int| 0 <= i < entries.len() ==> (#[trigger] entries[i]).0 < next_id
    &&& forall|i: int, j: int| 0 <= i < j < entries.len() ==> entries[i].0 != entries[j].0
}

/// The record table that a list of persisted pairs describes.
pub open spec fn map_of_entries(entries: Seq<(u64, Escrow)>) -> Map<u64, Escrow>
    decreases entries.len(),
{
    if entries.len() == 0 {
        Map::<u64, Escrow>::empty()
    } else {
        map_of_entries(entries.drop_last()).insert(entries.last().0, entries.last().1)
    }
}

impl StoreView {
    /// The store's invariant: every stored record holds a strictly
    /// positive amount, and `next_id` is strictly greater than every
    /// identifier in use, so no id is ever issued twice.
    pub open spec fn wf(self) -> bool {
        forall|id: u64| #[trigger] self.records.dom().contains(id)
            ==> self.records[id].amount > 0 && id < self.next_id
    }
}

/// What creating an escrow does to a store: the new store, the events
/// reported, and the result handed back to the caller.
///
/// A zero amount is rejected before anything else; then the id allocation
/// is checked against counter exhaustion; otherwise the record is inserted
/// under the fresh id, the counter moves up by one, and a creation event
/// is reported.
pub open spec fn spec_create(
    s: StoreView,
    initiator: u64,
    amount: u64,
    recipient: u64,
    now: u64,
) -> (StoreView, Seq<Event>, Result<u64, Error>) {
    if amount == 0 {
        (s, Seq::<Event>::empty(), Err(Error::ZeroAmount))
    } else if s.next_id == u64::MAX {
        (s, Seq::<Event>::empty(), Err(Error::CounterOverflow))
    } else {
        let id = s.next_id;
        let t = StoreView {
            next_id: (id + 1) as u64,
            records: s.records.insert(id, Escrow { amount, recipient, created_at: now }),
        };
        let e = Event::EscrowCreated { id, amount, initiator, recipient, created_at: now };
        (t, seq![e], Ok(id))
    }
}

/// The validation chain of a withdrawal, in the order the ledger applies
/// it: presence of the record, then the timelock, then the amount, then
/// the caller's authority. The first failing check decides the error.
pub open spec fn withdraw_check(
    s: StoreView,
    sender: u64,
    amount: u64,
    escrow_id: u64,
    now: u64,
) -> Result<(), Error> {
    if !s.records.dom().contains(escrow_id) {
        Err(Error::NotFound)
    } else {
        let rec = s.records[escrow_id];
        if now < rec.created_at + MIN_DELAY {
            Err(Error::TooEarly)
        } else if amount > rec.amount {
            Err(Error::InsufficientEscrow)
        } else if sender != rec.recipient {
            Err(Error::Unauthorized)
        } else {
            Ok(())
        }
    }
}

/// What withdrawing does to a store. On success the withdrawn amount
/// leaves the record: the record is deleted when that empties it and kept
/// with the remainder otherwise, and a withdrawal event is reported. On
/// any failure the store is unchanged and nothing is reported.
pub open spec fn spec_withdraw(
    s: StoreView,
    sender: u64,
    amount: u64,
    escrow_id: u64,
    now: u64,
) -> (StoreView, Seq<Event>, Result<(), Error>) {
    let check = withdraw_check(s, sender, amount, escrow_id, now);
    if check is Ok {
        let rec = s.records[escrow_id];
        let records = if amount == rec.amount {
            s.records.remove(escrow_id)
        } else {
            s.records.insert(escrow_id, Escrow {
                amount: (rec.amount - amount) as u64,
                recipient: rec.recipient,
                created_at: rec.created_at,
            })
        };
        let e = Event::EscrowWithdrawn {
            id: escrow_id,
            amount,
            recipient: sender,
            escrow_created_at: rec.created_at,
            withdrawn_at: now,
        };
        (StoreView { next_id: s.next_id, records }, seq![e], Ok(()))
    } else {
        (s, Seq::<Event>::empty(), Err(check->Err_0))
    }
}

/// The append-only event sink the host hands to each transition. A test
/// double is simply a fresh log whose contents are inspected afterwards.
pub struct EventLog {
    events: Vec<Event>,
}

impl View for EventLog {
    type V = Seq<Event>;

    closed spec fn view(&self) -> Seq<Event> {
        self.events@
    }
}

impl EventLog {
    /// An empty sink.
    pub fn new() -> (log: EventLog)
        ensures
            log@ == Seq::<Event>::empty(),
    {
        EventLog { events: Vec::new() }
    }

    /// Appends one event; nothing already recorded is touched.
    pub fn record(&mut self, event: Event)
        ensures
            final(self)@ == old(self)@.push(event),
    {
        self.events.push(event);
    }

    /// Everything recorded so far, oldest first.
    pub fn events(&self) -> (r: &Vec<Event>)
        ensures
            r@ == self@,
    {
        &self.events
    }
}

/// The escrow ledger: the single source of truth for how much is locked,
/// for whom, and since when.
pub struct Pallet {
    next_id: u64,
    records: HashMap<u64, Escrow>,
}

impl View for Pallet {
    type V = StoreView;

    closed spec fn view(&self) -> StoreView {
        StoreView { next_id: self.next_id, records: self.records@ }
    }
}

impl Pallet {
    /// A fresh ledger: the counter starts at zero and no record exists.
    pub fn new() -> (s: Pallet)
        ensures
            s@.next_id == 0,
            s@.records == Map::<u64, Escrow>::empty(),
            s@.wf(),
    {
        Pallet { next_id: 0, records: HashMap::new() }
    }

    /// Rebuilds a ledger from its persisted parts: the counter cell and
    /// the record table as pairs of id and record. The parts are accepted
    /// exactly when they satisfy the store's invariant — every amount
    /// positive, every id below the counter, no id listed twice;
    /// otherwise nothing is rebuilt.
    pub fn restore(next_id: u64, entries: Vec<(u64, Escrow)>) -> (r: Option<Pallet>)
        ensures
            match r {
                Some(ledger) => parts_wf(next_id, entries@) && ledger@.next_id == next_id
                    && ledger@.records == map_of_entries(entries@) && ledger@.wf(),
                None => !parts_wf(next_id, entries@),
            },
    {
        let mut records: HashMap<u64, Escrow> = HashMap::new();
        let mut k: usize = 0;
        while k < entries.len()
            invariant
                0 <= k <= entries@.len(),
                records@ == map_of_entries(entries@.take(k as int)),
                forall|x: u64| #[trigger] records@.dom().contains(x) <==> (exists|i: int|
                    0 <= i < k && entries@[i].0 == x),
                forall|x: u64| #[trigger] records@.dom().contains(x) ==> records@[x].amount > 0
                    && x < next_id,
                forall|i: int| 0 <= i < k ==> (#[trigger] entries@[i].1).amount > 0,
                forall|i: int| 0 <= i < k ==> (#[trigger] entries@[i]).0 < next_id,
                forall|i: int, j: int| 0 <= i < j < k ==> entries@[i].0 != entries@[j].0,
            decreases entries@.len() - k,
        {
            let (id, rec) = entries[k];
            if rec.amount == 0 || id >= next_id {
                return None;
            }
            let previous = records.insert(id, rec);
            if previous.is_some() {
                return None;
            }
            proof {
                assert(entries@.take(k + 1).drop_last() =~= entries@.take(k as int));
            }
            k = k + 1;
        }
        proof {
            assert(entries@.take(entries@.len() as int) =~= entries@);
        }
        Some(Pallet { next_id, records })
    }

    /// The next identifier to be issued: strictly greater than every id
    /// ever handed out.
    pub fn escrow_count(&self) -> (n: u64)
        ensures
            n == self@.next_id,
    {
        self.next_id
    }

    /// Locks `amount` for `recipient`. `initiator` is the authenticated
    /// caller, recorded only in the creation event; `now` is the host's
    /// logical clock. On success the freshly allocated id is returned.
    /// Validation happens strictly before any mutation: a failing call
    /// leaves the store and the sink exactly as they were.
    pub fn start_escrow(
        &mut self,
        log: &mut EventLog,
        initiator: u64,
        amount: u64,
        recipient: u64,
        now: u64,
    ) -> (r: Result<u64, Error>)
        requires
            old(self)@.wf(),
        ensures
            final(self)@.wf(),
            final(self)@ == spec_create(old(self)@, initiator, amount, recipient, now).0,
            final(log)@ == old(log)@ + spec_create(old(self)@, initiator, amount, recipient, now).1,
            r == spec_create(old(self)@, initiator, amount, recipient, now).2,
    {
        if amount == 0 {
            return Err(Error::ZeroAmount);
        }
        if self.next_id == u64::MAX {
            return Err(Error::CounterOverflow);
        }
        let id = self.next_id;
        self.records.insert(id, Escrow { amount, recipient, created_at: now });
        self.next_id = id + 1;
        let event = Event::EscrowCreated { id, amount, initiator, recipient, created_at: now };
        log.record(event);
        proof {
            lemma_create_preserves_wf(old(self)@, initiator, amount, recipient, now);
            assert(final(log)@ =~= old(log)@ + seq![event]);
        }
        Ok(id)
    }

    /// Releases `amount` from the record under `escrow_id` to `sender`,
    /// the authenticated caller, at logical time `now`. The checks run in
    /// a fixed order — presence, timelock, amount, authority — and the
    /// first failure is returned with the store untouched. On success the
    /// record keeps the remainder, or is deleted when nothing remains.
    pub fn withdraw_escrow(
        &mut self,
        log: &mut EventLog,
        sender: u64,
        amount: u64,
        escrow_id: u64,
        now: u64,
    ) -> (r: Result<(), Error>)
        requires
            old(self)@.wf(),
        ensures
            final(self)@.wf(),
            final(self)@ == spec_withdraw(old(self)@, sender, amount, escrow_id, now).0,
            final(log)@ == old(log)@ + spec_withdraw(old(self)@, sender, amount, escrow_id, now).1,
            r == spec_withdraw(old(self)@, sender, amount, escrow_id, now).2,
    {
        let rec = match self.records.get(&escrow_id) {
            Some(rec) => *rec,
            None => {
                return Err(Error::NotFound);
            },
        };
        let too_early = now < MIN_DELAY || now - MIN_DELAY < rec.created_at;
        if too_early {
            return Err(Error::TooEarly);
        }
        if amount > rec.amount {
            return Err(Error::InsufficientEscrow);
        }
        if sender != rec.recipient {
            return Err(Error::Unauthorized);
        }
        let remaining = rec.amount - amount;
        if remaining == 0 {
            self.records.remove(&escrow_id);
        } else {
            self.records.insert(escrow_id, Escrow {
                amount: remaining,
                recipient: rec.recipient,
                created_at: rec.created_at,
            });
        }
        let event = Event::EscrowWithdrawn {
            id: escrow_id,
            amount,
            recipient: sender,
            escrow_created_at: rec.created_at,
            withdrawn_at: now,
        };
        log.record(event);
        proof {
            lemma_withdraw_preserves_wf(old(self)@, sender, amount, escrow_id, now);
            assert(final(log)@ =~= old(log)@ + seq![event]);
        }
        Ok(())
    }

    /// Looks an escrow record up by id. Pure read: absence is an empty
    /// result, never an error.
    pub fn escrow(&self, escrow_id: u64) -> (r: Option<Escrow>)
        ensures
            self@.records.dom().contains(escrow_id) ==> r == Some(self@.records[escrow_id]),
            !self@.records.dom().contains(escrow_id) ==> r is None,
    {
        match self.records.get(&escrow_id) {
            Some(rec) => Some(*rec),
            None => None,
        }
    }

    /// Diagnostic passthrough behind the query endpoint: hands a numeric
    /// value back unchanged, touching no ledger state, and never fails.
    pub fn test_rpc(amount: u128) -> (r: Result<u128, Error>)
        ensures
            r == Ok::<u128, Error>(amount),
    {
        Ok(amount)
    }
}

/// Creation preserves the store's invariant: the new record's amount is
/// positive, its id is below the moved-up counter, and every old record is
/// untouched.
pub proof fn lemma_create_preserves_wf(
    s: StoreView,
    initiator: u64,
    amount: u64,
    recipient: u64,
    now: u64,
)
    requires
        s.wf(),
    ensures
        spec_create(s, initiator, amount, recipient, now).0.wf(),
{
}

/// Withdrawal preserves the store's invariant: a record is deleted rather
/// than ever kept with a zero amount, and the counter never moves.
pub proof fn lemma_withdraw_preserves_wf(
    s: StoreView,
    sender: u64,
    amount: u64,
    escrow_id: u64,
    now: u64,
)
    requires
        s.wf(),
    ensures
        spec_withdraw(s, sender, amount, escrow_id, now).0.wf(),
{
}

} // verus!
