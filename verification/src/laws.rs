//! The ledger's general laws, stated over the mathematical model in
//! `escrow` and proved once for every input: uniqueness of issued ids,
//! the timelock, authorization, conservation of value, and the guarantee
//! that a failing call leaves no trace.
//!
//! A run is an arbitrary sequence of requests applied to a store; the
//! lemmas below quantify over whole runs where a property speaks about
//! more than one call.

use crate::escrow::{
    lemma_create_preserves_wf, lemma_withdraw_preserves_wf, spec_create, spec_withdraw, Error,
    Event, StoreView, MIN_DELAY,
};
use vstd::prelude::*;

verus! {

/// One request made of the ledger, carrying everything the host injects:
/// the authenticated caller and the clock value beside the arguments.
pub enum Op {
    Create { initiator: u64, amount: u64, recipient: u64, now: u64 },
    Withdraw { sender: u64, amount: u64, escrow_id: u64, now: u64 },
}

/// The store and the reported events after one operation, whether or not
/// it succeeded.
pub open spec fn step(s: StoreView, op: Op) -> (StoreView, Seq<Event>) {
    match op {
        Op::Create { initiator, amount, recipient, now } => {
            let t = spec_create(s, initiator, amount, recipient, now);
            (t.0, t.1)
        },
        Op::Withdraw { sender, amount, escrow_id, now } => {
            let t = spec_withdraw(s, sender, amount, escrow_id, now);
            (t.0, t.1)
        },
    }
}

/// Whether an operation succeeds when applied to `s`.
pub open spec fn op_succeeds(s: StoreView, op: Op) -> bool {
    match op {
        Op::Create { initiator, amount, recipient, now } => spec_create(
            s,
            initiator,
            amount,
            recipient,
            now,
        ).2 is Ok,
        Op::Withdraw { sender, amount, escrow_id, now } => spec_withdraw(
            s,
            sender,
            amount,
            escrow_id,
            now,
        ).2 is Ok,
    }
}

/// The store after a whole sequence of operations.
pub open spec fn run(s: StoreView, ops: Seq<Op>) -> StoreView
    decreases ops.len(),
{
    if ops.len() == 0 {
        s
    } else {
        step(run(s, ops.drop_last()), ops.last()).0
    }
}

/// Everything reported while a sequence of operations runs, in order.
pub open spec fn run_events(s: StoreView, ops: Seq<Op>) -> Seq<Event>
    decreases ops.len(),
{
    if ops.len() == 0 {
        Seq::<Event>::empty()
    } else {
        run_events(s, ops.drop_last()) + step(run(s, ops.drop_last()), ops.last()).1
    }
}

/// The store just before the operation at position `k` of a run.
pub open spec fn state_before(s: StoreView, ops: Seq<Op>, k: int) -> StoreView {
    run(s, ops.take(k))
}

/// The id a creation at position `k` hands back when it succeeds: a
/// successful creation always returns the counter of the store it ran on.
pub open spec fn issued_id(s: StoreView, ops: Seq<Op>, k: int) -> u64 {
    state_before(s, ops, k).next_id
}

/// A successful creation returns exactly the store's counter as the new
/// record's id.
pub proof fn lemma_create_returns_next_id(
    s: StoreView,
    initiator: u64,
    amount: u64,
    recipient: u64,
    now: u64,
)
    ensures
        spec_create(s, initiator, amount, recipient, now).2 is Ok ==> spec_create(
            s,
            initiator,
            amount,
            recipient,
            now,
        ).2 == Ok::<u64, Error>(s.next_id),
{
}

/// No operation ever lowers the identifier counter, and a successful
/// creation raises it by exactly one.
pub proof fn lemma_step_next_id_monotone(s: StoreView, op: Op)
    ensures
        s.next_id <= step(s, op).0.next_id,
        op is Create && op_succeeds(s, op) ==> step(s, op).0.next_id == s.next_id + 1,
{
}

/// Every operation preserves the store's invariant.
pub proof fn lemma_step_preserves_wf(s: StoreView, op: Op)
    requires
        s.wf(),
    ensures
        step(s, op).0.wf(),
{
    match op {
        Op::Create { initiator, amount, recipient, now } => {
            lemma_create_preserves_wf(s, initiator, amount, recipient, now);
        },
        Op::Withdraw { sender, amount, escrow_id, now } => {
            lemma_withdraw_preserves_wf(s, sender, amount, escrow_id, now);
        },
    }
}

/// A whole run preserves the store's invariant.
pub proof fn lemma_run_preserves_wf(s: StoreView, ops: Seq<Op>)
    requires
        s.wf(),
    ensures
        run(s, ops).wf(),
    decreases ops.len(),
{
    if ops.len() > 0 {
        lemma_run_preserves_wf(s, ops.drop_last());
        lemma_step_preserves_wf(run(s, ops.drop_last()), ops.last());
    }
}

/// Unrolling the store one position further into a run.
pub proof fn lemma_state_before_unroll(s: StoreView, ops: Seq<Op>, k: int)
    requires
        0 <= k < ops.len(),
    ensures
        state_before(s, ops, k + 1) == step(state_before(s, ops, k), ops[k]).0,
{
    assert(ops.take(k + 1).drop_last() =~= ops.take(k));
    assert(ops.take(k + 1).last() == ops[k]);
}

/// The identifier counter never decreases between two points of a run.
pub proof fn lemma_prefix_next_id_monotone(s: StoreView, ops: Seq<Op>, i: int, j: int)
    requires
        0 <= i <= j <= ops.len(),
    ensures
        state_before(s, ops, i).next_id <= state_before(s, ops, j).next_id,
    decreases j - i,
{
    if i < j {
        lemma_prefix_next_id_monotone(s, ops, i, j - 1);
        lemma_state_before_unroll(s, ops, j - 1);
        lemma_step_next_id_monotone(state_before(s, ops, j - 1), ops[j - 1]);
    }
}

/// Unique ids: of any two successful creations in a run, the earlier one
/// returns the strictly smaller id — so the ids of a sequence of
/// successful creations are strictly increasing and pairwise distinct.
pub proof fn lemma_unique_ids(s: StoreView, ops: Seq<Op>, i: int, j: int)
    requires
        0 <= i < j < ops.len(),
        ops[i] is Create,
        ops[j] is Create,
        op_succeeds(state_before(s, ops, i), ops[i]),
        op_succeeds(state_before(s, ops, j), ops[j]),
    ensures
        issued_id(s, ops, i) < issued_id(s, ops, j),
{
    lemma_state_before_unroll(s, ops, i);
    lemma_step_next_id_monotone(state_before(s, ops, i), ops[i]);
    lemma_prefix_next_id_monotone(s, ops, i + 1, j);
}

/// Zero-amount rejection: whatever the recipient, the caller and the
/// time, creating an escrow with no value fails with `ZeroAmount`, leaves
/// the store unchanged and reports nothing.
pub proof fn lemma_zero_amount_rejected(s: StoreView, initiator: u64, recipient: u64, now: u64)
    ensures
        spec_create(s, initiator, 0, recipient, now).2 == Err::<u64, Error>(Error::ZeroAmount),
        spec_create(s, initiator, 0, recipient, now).0 == s,
        spec_create(s, initiator, 0, recipient, now).1 == Seq::<Event>::empty(),
{
}

/// Timelock: while the record under `escrow_id` is younger than
/// `MIN_DELAY`, withdrawal fails with `TooEarly` and the record survives
/// for a later retry; from `created_at + MIN_DELAY` on, `TooEarly` is
/// never the answer, and with the right amount and caller the withdrawal
/// succeeds.
pub proof fn lemma_timelock(s: StoreView, sender: u64, amount: u64, escrow_id: u64, now: u64)
    requires
        s.records.dom().contains(escrow_id),
    ensures
        now < s.records[escrow_id].created_at + MIN_DELAY ==> spec_withdraw(
            s,
            sender,
            amount,
            escrow_id,
            now,
        ).2 == Err::<(), Error>(Error::TooEarly) && spec_withdraw(
            s,
            sender,
            amount,
            escrow_id,
            now,
        ).0 == s,
        now >= s.records[escrow_id].created_at + MIN_DELAY ==> spec_withdraw(
            s,
            sender,
            amount,
            escrow_id,
            now,
        ).2 != Err::<(), Error>(Error::TooEarly),
        now >= s.records[escrow_id].created_at + MIN_DELAY && amount <= s.records[escrow_id].amount && sender == s.records[escrow_id].recipient ==> spec_withdraw(
            s,
            sender,
            amount,
            escrow_id,
            now,
        ).2 == Ok::<(), Error>(()),
{
}

/// Authorization: a caller who is not the record's recipient never
/// withdraws anything — the store and the reported events are exactly as
/// before — and once presence, timelock and amount are all satisfied, the
/// reported error is precisely `Unauthorized`.
pub proof fn lemma_authorization(s: StoreView, sender: u64, amount: u64, escrow_id: u64, now: u64)
    requires
        s.records.dom().contains(escrow_id),
        sender != s.records[escrow_id].recipient,
    ensures
        !(spec_withdraw(s, sender, amount, escrow_id, now).2 is Ok),
        spec_withdraw(s, sender, amount, escrow_id, now).0 == s,
        spec_withdraw(s, sender, amount, escrow_id, now).1 == Seq::<Event>::empty(),
        now >= s.records[escrow_id].created_at + MIN_DELAY && amount <= s.records[escrow_id].amount ==> spec_withdraw(s, sender, amount, escrow_id, now).2 == Err::<(), Error>(
            Error::Unauthorized,
        ),
{
}

/// Idempotent failure: a creation that fails, for any reason, leaves the
/// store exactly as it was and reports nothing.
pub proof fn lemma_create_failure_unchanged(
    s: StoreView,
    initiator: u64,
    amount: u64,
    recipient: u64,
    now: u64,
)
    ensures
        spec_create(s, initiator, amount, recipient, now).2 is Err ==> spec_create(
            s,
            initiator,
            amount,
            recipient,
            now,
        ).0 == s && spec_create(s, initiator, amount, recipient, now).1 == Seq::<Event>::empty(),
{
}

/// Idempotent failure: a withdrawal that fails, for any reason, leaves
/// the store exactly as it was and reports nothing.
pub proof fn lemma_withdraw_failure_unchanged(
    s: StoreView,
    sender: u64,
    amount: u64,
    escrow_id: u64,
    now: u64,
)
    ensures
        spec_withdraw(s, sender, amount, escrow_id, now).2 is Err ==> spec_withdraw(
            s,
            sender,
            amount,
            escrow_id,
            now,
        ).0 == s && spec_withdraw(s, sender, amount, escrow_id, now).1 == Seq::<Event>::empty(),
{
}

/// How much a single event releases from the record under `id`.
pub open spec fn event_withdrawn(e: Event, id: u64) -> int {
    match e {
        Event::EscrowWithdrawn { id: event_id, amount, .. } => if event_id == id {
            amount as int
        } else {
            0
        },
        _ => 0,
    }
}

/// How much a single event locks under `id`.
pub open spec fn event_created(e: Event, id: u64) -> int {
    match e {
        Event::EscrowCreated { id: event_id, amount, .. } => if event_id == id {
            amount as int
        } else {
            0
        },
        _ => 0,
    }
}

/// The total amount the withdrawal events of a report release from the
/// record under `id`.
pub open spec fn withdrawn_total(events: Seq<Event>, id: u64) -> int
    decreases events.len(),
{
    if events.len() == 0 {
        0
    } else {
        withdrawn_total(events.drop_last(), id) + event_withdrawn(events.last(), id)
    }
}

/// The total amount the creation events of a report lock under `id`.
pub open spec fn created_total(events: Seq<Event>, id: u64) -> int
    decreases events.len(),
{
    if events.len() == 0 {
        0
    } else {
        created_total(events.drop_last(), id) + event_created(events.last(), id)
    }
}

/// The amount the store currently holds under `id`; zero when no record
/// is open there.
pub open spec fn held_amount(s: StoreView, id: u64) -> int {
    if s.records.dom().contains(id) {
        s.records[id].amount as int
    } else {
        0
    }
}

/// Both event totals distribute over concatenation of reports.
pub proof fn lemma_totals_concat(first: Seq<Event>, second: Seq<Event>, id: u64)
    ensures
        withdrawn_total(first + second, id) == withdrawn_total(first, id) + withdrawn_total(
            second,
            id,
        ),
        created_total(first + second, id) == created_total(first, id) + created_total(second, id),
    decreases second.len(),
{
    if second.len() == 0 {
        assert(first + second =~= first);
    } else {
        lemma_totals_concat(first, second.drop_last(), id);
        assert((first + second).drop_last() =~= first + second.drop_last());
        assert((first + second).last() == second.last());
    }
}

/// Both event totals of a one-event report are that event's own figures.
pub proof fn lemma_totals_singleton(e: Event, id: u64)
    ensures
        withdrawn_total(seq![e], id) == event_withdrawn(e, id),
        created_total(seq![e], id) == event_created(e, id),
{
    assert(seq![e].drop_last() =~= Seq::<Event>::empty());
    assert(withdrawn_total(Seq::<Event>::empty(), id) == 0);
    assert(created_total(Seq::<Event>::empty(), id) == 0);
    assert(seq![e].last() == e);
}

/// One operation balances the books for every id: what the store holds
/// afterwards is what it held before, plus what the reported events
/// locked, minus what they released.
pub proof fn lemma_step_conservation(s: StoreView, op: Op, id: u64)
    requires
        s.wf(),
    ensures
        held_amount(step(s, op).0, id) == held_amount(s, id) + created_total(step(s, op).1, id)
            - withdrawn_total(step(s, op).1, id),
{
    match op {
        Op::Create { initiator, amount, recipient, now } => {
            let t = spec_create(s, initiator, amount, recipient, now);
            if t.2 is Ok {
                assert(!s.records.dom().contains(s.next_id));
                lemma_totals_singleton(t.1.last(), id);
                assert(t.1 =~= seq![t.1.last()]);
            }
        },
        Op::Withdraw { sender, amount, escrow_id, now } => {
            let t = spec_withdraw(s, sender, amount, escrow_id, now);
            if t.2 is Ok {
                lemma_totals_singleton(t.1.last(), id);
                assert(t.1 =~= seq![t.1.last()]);
            }
        },
    }
}

/// Conservation: along any run from a well-formed store, the amount held
/// under an id equals what was held at the start, plus everything the
/// run's events locked there, minus everything they released — and since
/// a held amount is never negative, the total released never exceeds the
/// starting amount plus the total locked.
pub proof fn lemma_conservation(s: StoreView, ops: Seq<Op>, id: u64)
    requires
        s.wf(),
    ensures
        held_amount(run(s, ops), id) == held_amount(s, id) + created_total(
            run_events(s, ops),
            id,
        ) - withdrawn_total(run_events(s, ops), id),
        withdrawn_total(run_events(s, ops), id) <= held_amount(s, id) + created_total(
            run_events(s, ops),
            id,
        ),
    decreases ops.len(),
{
    if ops.len() > 0 {
        let prev = run(s, ops.drop_last());
        lemma_conservation(s, ops.drop_last(), id);
        lemma_run_preserves_wf(s, ops.drop_last());
        lemma_step_conservation(prev, ops.last(), id);
        lemma_totals_concat(run_events(s, ops.drop_last()), step(prev, ops.last()).1, id);
    }
}

/// While a record stays in the store, its recipient and creation time
/// never change and its amount never grows, whatever operation runs.
pub proof fn lemma_record_immutable(s: StoreView, op: Op, id: u64)
    requires
        s.wf(),
        s.records.dom().contains(id),
        step(s, op).0.records.dom().contains(id),
    ensures
        step(s, op).0.records[id].recipient == s.records[id].recipient,
        step(s, op).0.records[id].created_at == s.records[id].created_at,
        step(s, op).0.records[id].amount <= s.records[id].amount,
{
}

} // verus!
