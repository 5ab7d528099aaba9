//! The daily run: what to collect and upload, and when to note that it was done.
//!
//! The run is a machine that is driven from outside. Each call of [`run`]
//! takes what the last action brought and answers with the next action. The
//! lock, the store, the collectors and the network are the caller's; every
//! decision is made here.

use vstd::prelude::*;
use crate::config::{kinds_at, selected, Frequencies, SamplingFrequency, WEEK};
use crate::event::{
    batch_view, lifted, EventKind, EventPayload, Schema, Taxonomy, TelemetryEvent,
};

verus! {

/// The file whose lock keeps two runs from overlapping.
pub const LOCK_PATH: &'static str = "/var/hp-vendor/daily.lock";

/// How a run ended.
#[derive(Clone, Copy, Debug, PartialEq, Eq, Structural)]
pub enum Outcome {
    /// Every cadence that was due has been collected and uploaded.
    Completed,
    /// The user has not opted in; nothing was collected.
    OptedOut,
    /// Another run holds the lock.
    LockContention,
    /// Collecting or uploading failed for the cadence; it stays due.
    Failed { cadence: SamplingFrequency },
    /// The caller reported something that the run was not waiting for.
    OutOfTurn,
}

/// The part of a run that a batch belongs to.
pub enum Cycle {
    /// The daily cadence; the weekly kinds wait for their turn.
    Daily { weekly: Vec<EventKind> },
    /// The weekly cadence, found due at `now`.
    Weekly { now: i64 },
}

impl Cycle {
    /// The cadence of the cycle.
    pub open spec fn cadence(self) -> SamplingFrequency {
        match self {
            Cycle::Daily { .. } => SamplingFrequency::Daily,
            Cycle::Weekly { .. } => SamplingFrequency::Weekly,
        }
    }

    /// The cadence of the cycle.
    pub fn frequency(&self) -> (cadence: SamplingFrequency)
        ensures
            cadence == self.cadence(),
    {
        match self {
            Cycle::Daily { .. } => SamplingFrequency::Daily,
            Cycle::Weekly { .. } => SamplingFrequency::Weekly,
        }
    }
}

/// Where a run stands: what it is waiting for.
pub enum State {
    /// Not started.
    Idle,
    /// Waiting for the lock.
    Locking,
    /// Waiting for the consent flag.
    Consent,
    /// Waiting for the frequency map.
    Frequencies,
    /// Waiting for the payloads of `kinds`.
    Collecting { cycle: Cycle, kinds: Vec<EventKind> },
    /// Waiting for the upload of the batch.
    Uploading { cycle: Cycle },
    /// Waiting for the time of the last weekly run, and the time now.
    Timing { weekly: Vec<EventKind> },
    /// Waiting for the new time of the last weekly run to be stored.
    Writing,
    /// Ended.
    Done,
}

/// What the caller reports.
pub enum Event {
    /// The trigger fired.
    Start,
    /// The lock was taken, or is held by another run.
    Lock { acquired: bool },
    /// The consent flag was read.
    Consent { opted_in: bool },
    /// The frequency map was read.
    Frequencies { frequencies: Frequencies },
    /// The collectors ran: one entry for each kind asked for, in that order,
    /// `None` where a collector had nothing to give.
    Collected { payloads: Vec<Option<EventPayload>> },
    /// The upload ended, well or not.
    Uploaded { ok: bool },
    /// The time of the last successful weekly run, and the time now.
    WeeklyTime { last: i64, now: i64 },
    /// The time of the last weekly run was stored.
    Written,
}

/// What the caller is to do next.
pub enum Action {
    /// Take the lock on [`LOCK_PATH`] without waiting.
    AcquireLock,
    /// Read the consent flag.
    ReadConsent,
    /// Read the frequency map.
    ReadFrequencies,
    /// Collect a payload for each of `kinds`.
    Collect { cadence: SamplingFrequency, kinds: Vec<EventKind> },
    /// Upload `batch` in one request.
    Upload { cadence: SamplingFrequency, batch: Vec<TelemetryEvent> },
    /// Read the time of the last successful weekly run, and the time now.
    ReadWeeklyTime,
    /// Store `now` as the time of the last successful weekly run.
    WriteWeeklyTime { now: i64 },
    /// End the run.
    Finish { outcome: Outcome },
}

/// Whether the collectors brought what was asked for: one payload for each
/// kind, each of the type of its kind.
pub open spec fn complete(
    schema: Schema,
    kinds: Seq<EventKind>,
    payloads: Seq<Option<EventPayload>>,
) -> bool {
    &&& payloads.len() == kinds.len()
    &&& forall|i: int|
        0 <= i < kinds.len() ==> match #[trigger] payloads[i] {
            Some(payload) => lifted(schema, payload.payload_type@, payload.fields@) == Some(
                (kinds[i].index as int, payload.fields@),
            ),
            None => false,
        }
}

/// The batch that the payloads make: each lifted to the event of its kind,
/// in the order in which the kinds were asked for.
pub open spec fn batch_of(kinds: Seq<EventKind>, payloads: Seq<Option<EventPayload>>) -> Seq<
    (int, Seq<u8>),
> {
    Seq::new(kinds.len(), |i: int| (kinds[i].index as int, payloads[i]->0.fields@))
}

/// Whether the run ends here with `outcome`.
pub open spec fn ends(next: State, action: Action, outcome: Outcome) -> bool {
    next is Done && action == (Action::Finish { outcome })
}

/// The rule of the run: whether `next` and `action` are what follows when
/// `event` is reported in `state`.
///
/// The steps come in a fixed order: lock, consent, frequency map, the daily
/// batch, then the weekly batch where a week has gone by. A batch is
/// uploaded whole or not at all; where a collector gives nothing, or gives a
/// payload of another kind, the batch is dropped and the run fails. The time
/// of the weekly run is written only after its upload went well.
pub open spec fn follows(
    schema: Schema,
    state: State,
    event: Event,
    next: State,
    action: Action,
) -> bool {
    match (state, event) {
        (State::Idle, Event::Start) => next is Locking && action is AcquireLock,
        (State::Locking, Event::Lock { acquired }) => if acquired {
            next is Consent && action is ReadConsent
        } else {
            ends(next, action, Outcome::LockContention)
        },
        (State::Consent, Event::Consent { opted_in }) => if opted_in {
            next is Frequencies && action is ReadFrequencies
        } else {
            ends(next, action, Outcome::OptedOut)
        },
        (State::Frequencies, Event::Frequencies { frequencies }) => {
            &&& next matches State::Collecting { cycle: Cycle::Daily { weekly }, kinds }
            &&& kinds@ == selected(schema.len(), frequencies@, SamplingFrequency::Daily)
            &&& weekly@ == selected(schema.len(), frequencies@, SamplingFrequency::Weekly)
            &&& action matches Action::Collect { cadence: SamplingFrequency::Daily, kinds: asked }
            &&& asked@ == kinds@
        },
        (State::Collecting { cycle, kinds }, Event::Collected { payloads }) => if complete(
            schema,
            kinds@,
            payloads@,
        ) {
            &&& next == (State::Uploading { cycle })
            &&& action matches Action::Upload { cadence, batch }
            &&& cadence == cycle.cadence()
            &&& batch_view(batch@) == batch_of(kinds@, payloads@)
        } else {
            ends(next, action, Outcome::Failed { cadence: cycle.cadence() })
        },
        (State::Uploading { cycle }, Event::Uploaded { ok }) => if !ok {
            ends(next, action, Outcome::Failed { cadence: cycle.cadence() })
        } else {
            match cycle {
                Cycle::Daily { weekly } => next == (State::Timing { weekly })
                    && action is ReadWeeklyTime,
                Cycle::Weekly { now } => next is Writing && action == (Action::WriteWeeklyTime {
                    now,
                }),
            }
        },
        (State::Timing { weekly }, Event::WeeklyTime { last, now }) => if SamplingFrequency::Weekly.due(
            last as int,
            now as int,
        ) {
            &&& next == (State::Collecting { cycle: Cycle::Weekly { now }, kinds: weekly })
            &&& action matches Action::Collect { cadence: SamplingFrequency::Weekly, kinds: asked }
            &&& asked@ == weekly@
        } else {
            ends(next, action, Outcome::Completed)
        },
        (State::Writing, Event::Written) => ends(next, action, Outcome::Completed),
        _ => ends(next, action, Outcome::OutOfTurn),
    }
}

/// A copy of a list of kinds.
fn copy_kinds(kinds: &Vec<EventKind>) -> (copy: Vec<EventKind>)
    ensures
        copy@ == kinds@,
{
    let mut copy: Vec<EventKind> = Vec::new();
    let mut i: usize = 0;
    while i < kinds.len()
        invariant
            i <= kinds.len(),
            copy@ == kinds@.take(i as int),
        decreases kinds.len() - i,
    {
        copy.push(kinds[i]);
        i += 1;
    }
    copy
}

/// Lifts the payloads that the collectors brought into one batch, or gives
/// `None` where they did not bring what was asked for.
pub fn build_batch(
    taxonomy: &Taxonomy,
    kinds: &Vec<EventKind>,
    payloads: Vec<Option<EventPayload>>,
) -> (batch: Option<Vec<TelemetryEvent>>)
    ensures
        match batch {
            Some(events) => complete(taxonomy@, kinds@, payloads@) && batch_view(events@)
                == batch_of(kinds@, payloads@),
            None => !complete(taxonomy@, kinds@, payloads@),
        },
{
    if payloads.len() != kinds.len() {
        return None;
    }
    let ghost given = payloads@;
    let mut rest = payloads;
    let mut events: Vec<TelemetryEvent> = Vec::new();
    let mut i: usize = kinds.len();
    // The payloads are taken from the back; the events come out reversed.
    while i > 0
        invariant
            i <= kinds.len(),
            given == payloads@,
            given.len() == kinds.len(),
            rest@ == given.take(i as int),
            events@.len() == kinds.len() - i,
            forall|k: int|
                i <= k < kinds.len() ==> match #[trigger] given[k] {
                    Some(payload) => lifted(taxonomy@, payload.payload_type@, payload.fields@)
                        == Some((kinds@[k].index as int, payload.fields@)),
                    None => false,
                },
            forall|k: int|
                i <= k < kinds.len() ==> (#[trigger] events@[kinds.len() - 1 - k])@ == (
                    kinds@[k].index as int,
                    given[k]->0.fields@,
                ),
        decreases i,
    {
        i -= 1;
        let slot = rest.pop();
        let payload = match slot {
            Some(Some(payload)) => payload,
            _ => return None,
        };
        let event = match taxonomy.lift(payload) {
            Ok(event) => event,
            Err(_) => return None,
        };
        if event.type_().index != kinds[i].index {
            return None;
        }
        events.push(event);
    }
    let ghost reversed = events@;
    let mut batch: Vec<TelemetryEvent> = Vec::new();
    while events.len() > 0
        invariant
            events@ == reversed.take(events@.len() as int),
            batch@.len() == reversed.len() - events@.len(),
            forall|k: int|
                0 <= k < batch@.len() ==> #[trigger] batch@[k] == reversed[reversed.len() - 1 - k],
        decreases events.len(),
    {
        let event = events.pop();
        batch.push(event.unwrap());
    }
    Some(batch)
}

/// Takes the run one step on: from where it stands and what the caller
/// reports to where it stands next and what the caller is to do.
pub fn run(taxonomy: &Taxonomy, state: State, event: Event) -> (step: (State, Action))
    ensures
        follows(taxonomy@, state, event, step.0, step.1),
{
    match (state, event) {
        (State::Idle, Event::Start) => (State::Locking, Action::AcquireLock),
        (State::Locking, Event::Lock { acquired }) => {
            if acquired {
                (State::Consent, Action::ReadConsent)
            } else {
                (State::Done, Action::Finish { outcome: Outcome::LockContention })
            }
        },
        (State::Consent, Event::Consent { opted_in }) => {
            if opted_in {
                (State::Frequencies, Action::ReadFrequencies)
            } else {
                (State::Done, Action::Finish { outcome: Outcome::OptedOut })
            }
        },
        (State::Frequencies, Event::Frequencies { frequencies }) => {
            let kinds = kinds_at(taxonomy, &frequencies, SamplingFrequency::Daily);
            let weekly = kinds_at(taxonomy, &frequencies, SamplingFrequency::Weekly);
            let asked = copy_kinds(&kinds);
            (
                State::Collecting { cycle: Cycle::Daily { weekly }, kinds },
                Action::Collect { cadence: SamplingFrequency::Daily, kinds: asked },
            )
        },
        (State::Collecting { cycle, kinds }, Event::Collected { payloads }) => {
            let cadence = cycle.frequency();
            match build_batch(taxonomy, &kinds, payloads) {
                Some(batch) => (State::Uploading { cycle }, Action::Upload { cadence, batch }),
                None => (State::Done, Action::Finish { outcome: Outcome::Failed { cadence } }),
            }
        },
        (State::Uploading { cycle }, Event::Uploaded { ok }) => {
            if !ok {
                let cadence = cycle.frequency();
                (State::Done, Action::Finish { outcome: Outcome::Failed { cadence } })
            } else {
                match cycle {
                    Cycle::Daily { weekly } => (State::Timing { weekly }, Action::ReadWeeklyTime),
                    Cycle::Weekly { now } => (State::Writing, Action::WriteWeeklyTime { now }),
                }
            }
        },
        (State::Timing { weekly }, Event::WeeklyTime { last, now }) => {
            if SamplingFrequency::Weekly.is_due(last, now) {
                let asked = copy_kinds(&weekly);
                (
                    State::Collecting { cycle: Cycle::Weekly { now }, kinds: weekly },
                    Action::Collect { cadence: SamplingFrequency::Weekly, kinds: asked },
                )
            } else {
                (State::Done, Action::Finish { outcome: Outcome::Completed })
            }
        },
        (State::Writing, Event::Written) => (
            State::Done,
            Action::Finish { outcome: Outcome::Completed },
        ),
        _ => (State::Done, Action::Finish { outcome: Outcome::OutOfTurn }),
    }
}

/// The time of the weekly run is written only after the weekly batch was
/// uploaded well, and it is the time at which the cadence was found due.
pub proof fn lemma_written_after_success(
    schema: Schema,
    state: State,
    event: Event,
    next: State,
    action: Action,
)
    requires
        follows(schema, state, event, next, action),
        action is WriteWeeklyTime,
    ensures
        state matches State::Uploading { cycle: Cycle::Weekly { now } } && action == (
            Action::WriteWeeklyTime { now }
        ),
        event == (Event::Uploaded { ok: true }),
{
}

/// A failed upload ends the run at once: the cadence is reported as failed,
/// and nothing is written.
pub proof fn lemma_failure_ends_run(
    schema: Schema,
    cycle: Cycle,
    next: State,
    action: Action,
)
    requires
        follows(schema, State::Uploading { cycle }, Event::Uploaded { ok: false }, next, action),
    ensures
        ends(next, action, Outcome::Failed { cadence: cycle.cadence() }),
{
}

/// A held lock ends the run at once, before anything is read or sent.
pub proof fn lemma_lock_contention(schema: Schema, next: State, action: Action)
    requires
        follows(schema, State::Locking, Event::Lock { acquired: false }, next, action),
    ensures
        ends(next, action, Outcome::LockContention),
{
}

/// A cadence whose time was not advanced stays due at every later time.
pub proof fn lemma_stays_due(cadence: SamplingFrequency, last: int, now: int, later: int)
    requires
        cadence.due(last, now),
        now <= later,
    ensures
        cadence.due(last, later),
{
}

/// After a successful weekly run at `now` the weekly cadence rests until a
/// week has gone by, and is due from then on.
pub proof fn lemma_rests_for_a_week(now: int, later: int)
    ensures
        SamplingFrequency::Weekly.due(now, later) <==> later >= now + WEEK,
{
}

} // verus!
