//! What holds of a watch session over whole runs of events.

use crate::api::{ErrorResponse, WatchEvent, GONE};
use crate::decimal::{decimal_digits, decimal_u32};
use crate::informer::{InformerView, Phase, PollActionView, RESYNC_BACKOFF_SECONDS};
use crate::version::{
    larger, lemma_merged_numeric, lemma_merged_opaque, lemma_zero_is_numeric, merged,
    zero_version,
};
use vstd::prelude::*;

verus! {

/// Whether `item` is an event that carries a version which reads as a
/// number.
pub open spec fn carries_number<E>(item: Result<WatchEvent, E>) -> bool {
    item matches Ok(event) && event.version() matches Some(v) && decimal_u32(v) is Some
}

/// Whether `item` is an event that carries a version which does not read as
/// a number.
pub open spec fn carries_token<E>(item: Result<WatchEvent, E>) -> bool {
    item matches Ok(event) && event.version() matches Some(v) && decimal_u32(v) is None
}

/// The version that `item` carries.
pub open spec fn version_of<E>(item: Result<WatchEvent, E>) -> Seq<char>
    recommends
        item matches Ok(event) && event.version() is Some,
{
    match item {
        Ok(event) => match event.version() {
            Some(v) => v,
            None => Seq::empty(),
        },
        Err(_) => Seq::empty(),
    }
}

/// The number that `item` carries.
pub open spec fn number_of<E>(item: Result<WatchEvent, E>) -> u32
    recommends
        carries_number(item),
{
    match decimal_u32(version_of(item)) {
        Some(n) => n,
        None => 0,
    }
}

/// The largest number among `floor`, where there is one, and the numbers
/// that `items` carry. It is `None` only when there is no number at all.
pub open spec fn largest_seen<E>(floor: Option<u32>, items: Seq<Result<WatchEvent, E>>) -> Option<
    u32,
>
    recommends
        forall|i: int| 0 <= i < items.len() ==> carries_number(#[trigger] items[i]),
    decreases items.len(),
{
    if items.len() == 0 {
        floor
    } else {
        match largest_seen(floor, items.drop_last()) {
            Some(m) => Some(larger(number_of(items.last()), m)),
            None => Some(number_of(items.last())),
        }
    }
}

/// `largest_seen` is a maximum: it is at least the floor and at least every
/// number carried, and it is one of them.
pub proof fn lemma_largest_seen_is_maximum<E>(
    floor: Option<u32>,
    items: Seq<Result<WatchEvent, E>>,
)
    ensures
        largest_seen(floor, items) is None <==> floor is None && items.len() == 0,
        floor matches Some(f) ==> largest_seen(floor, items)->0 >= f,
        forall|i: int|
            0 <= i < items.len() ==> largest_seen(floor, items)->0 >= number_of(
                #[trigger] items[i],
            ),
        largest_seen(floor, items) is Some ==> largest_seen(floor, items) == floor || exists|
            i: int,
        |
            0 <= i < items.len() && largest_seen(floor, items) == Some(
                number_of(#[trigger] items[i]),
            ),
    decreases items.len(),
{
    if items.len() > 0 {
        let front = items.drop_last();
        lemma_largest_seen_is_maximum(floor, front);
        assert forall|i: int| 0 <= i < items.len() implies largest_seen(floor, items)->0
            >= number_of(#[trigger] items[i]) by {
            if i < items.len() - 1 {
                assert(front[i] == items[i]);
            }
        }
    }
}

/// While every event carries a version that reads as a number, the stored
/// version reads as the largest number seen so far: the largest among the
/// number that was stored at the start, if it was one, and the numbers of the
/// events. Once an event has been merged into a stored number, the stored
/// version is that largest number written without sign or leading zeros.
pub proof fn theorem_numeric_versions_keep_maximum<E>(
    s: InformerView,
    items: Seq<Result<WatchEvent, E>>,
)
    requires
        forall|i: int| 0 <= i < items.len() ==> carries_number(#[trigger] items[i]),
    ensures
        decimal_u32(s.observe_all(items).cursor.version) == largest_seen(
            decimal_u32(s.cursor.version),
            items,
        ),
        items.len() > 0 ==> decimal_u32(s.observe_all(items).cursor.version) is Some,
        items.len() > 0 && decimal_u32(s.cursor.version) is Some ==> s.observe_all(
            items,
        ).cursor.version == decimal_digits(
            largest_seen(decimal_u32(s.cursor.version), items)->0 as nat,
        ),
        s.observe_all(items).cursor.needs_resync == s.cursor.needs_resync,
        s.observe_all(items).phase == s.phase,
        s.observe_all(items).params == s.params,
    decreases items.len(),
{
    if items.len() > 0 {
        let front = items.drop_last();
        let last = items.last();
        assert(forall|i: int| 0 <= i < front.len() ==> front[i] == items[i]);
        theorem_numeric_versions_keep_maximum(s, front);
        let before = s.observe_all(front);
        let v = version_of(last);
        if decimal_u32(before.cursor.version) is Some {
            lemma_merged_numeric(before.cursor.version, v);
        } else {
            lemma_merged_opaque(before.cursor.version, v);
            lemma_largest_seen_is_maximum(decimal_u32(s.cursor.version), front);
        }
    }
}

/// A session that starts at the zero version and sees only events whose
/// versions read as numbers stores the largest number seen, written without
/// sign or leading zeros.
pub proof fn theorem_fresh_session_keeps_maximum<E>(items: Seq<Result<WatchEvent, E>>)
    requires
        forall|i: int| 0 <= i < items.len() ==> carries_number(#[trigger] items[i]),
    ensures
        largest_seen(Some(0u32), items) is Some,
        InformerView::start().observe_all(items).cursor.version == decimal_digits(
            largest_seen(Some(0u32), items)->0 as nat,
        ),
        forall|i: int|
            0 <= i < items.len() ==> largest_seen(Some(0u32), items)->0 >= number_of(
                #[trigger] items[i],
            ),
{
    lemma_zero_is_numeric();
    theorem_numeric_versions_keep_maximum(InformerView::start(), items);
    lemma_largest_seen_is_maximum(Some(0u32), items);
}

/// While every event carries a version that reads as a number, the number
/// that the stored version reads as never decreases from one event to the
/// next.
pub proof fn theorem_numeric_versions_never_decrease<E>(
    s: InformerView,
    items: Seq<Result<WatchEvent, E>>,
    j: int,
    k: int,
)
    requires
        forall|i: int| 0 <= i < items.len() ==> carries_number(#[trigger] items[i]),
        0 <= j <= k <= items.len(),
        decimal_u32(s.observe_all(items.take(j)).cursor.version) is Some,
    ensures
        decimal_u32(s.observe_all(items.take(k)).cursor.version) is Some,
        decimal_u32(s.observe_all(items.take(j)).cursor.version)->0 <= decimal_u32(
            s.observe_all(items.take(k)).cursor.version,
        )->0,
    decreases k - j,
{
    if j < k {
        theorem_numeric_versions_never_decrease(s, items, j, k - 1);
        let upto = items.take(k);
        assert(upto.drop_last() =~= items.take(k - 1));
        let before = s.observe_all(items.take(k - 1));
        lemma_merged_numeric(before.cursor.version, version_of(items[k - 1]));
    }
}

/// After an event whose version does not read as a number, the stored
/// version is that version, whatever was stored before.
pub proof fn lemma_token_is_kept<E>(s: InformerView, items: Seq<Result<WatchEvent, E>>)
    requires
        items.len() > 0,
        carries_token(items.last()),
    ensures
        s.observe_all(items).cursor.version == version_of(items.last()),
{
    let before = s.observe_all(items.drop_last());
    lemma_merged_opaque(before.cursor.version, version_of(items.last()));
}

/// While every event carries a version that does not read as a number, the
/// stored version is the one seen last. The versions are not compared.
pub proof fn theorem_opaque_versions_keep_latest<E>(
    s: InformerView,
    items: Seq<Result<WatchEvent, E>>,
)
    requires
        items.len() > 0,
        forall|i: int| 0 <= i < items.len() ==> carries_token(#[trigger] items[i]),
    ensures
        s.observe_all(items).cursor.version == version_of(items.last()),
        s.observe_all(items).cursor.needs_resync == s.cursor.needs_resync,
    decreases items.len(),
{
    lemma_token_is_kept(s, items);
    lemma_marks_come_from_expiry(s, items);
}

/// No event clears the mark for resynchronization.
pub proof fn lemma_mark_stays<E>(s: InformerView, items: Seq<Result<WatchEvent, E>>)
    requires
        s.cursor.needs_resync,
    ensures
        s.observe_all(items).cursor.needs_resync,
    decreases items.len(),
{
    if items.len() > 0 {
        lemma_mark_stays(s, items.drop_last());
    }
}

/// Only an error with the code for expired history sets the mark, and only
/// an event that carries a version moves the stored version.
pub proof fn lemma_marks_come_from_expiry<E>(s: InformerView, items: Seq<Result<WatchEvent, E>>)
    ensures
        (forall|i: int|
            0 <= i < items.len() ==> !(#[trigger] items[i] matches Ok(event)
                && event.history_expired())) ==> s.observe_all(items).cursor.needs_resync
            == s.cursor.needs_resync && s.observe_all(items).phase == s.phase,
        (forall|i: int|
            0 <= i < items.len() ==> !(#[trigger] items[i] matches Ok(event) && event.version()
                is Some)) ==> s.observe_all(items).cursor.version == s.cursor.version,
        s.observe_all(items).params == s.params,
    decreases items.len(),
{
    if items.len() > 0 {
        let front = items.drop_last();
        lemma_marks_come_from_expiry(s, front);
        assert(forall|i: int| 0 <= i < front.len() ==> front[i] == items[i]);
    }
}

/// An error with the code for expired history leaves the stored version
/// alone and marks the session. Whatever follows it in the same watch, the
/// mark stays. The next poll asks for the backoff and leaves the cursor as it
/// is. Only the step after the backoff puts the version back to zero and
/// clears the mark, and the watch that it opens starts at zero.
pub proof fn theorem_expired_history_resyncs_on_next_poll<E>(
    s: InformerView,
    e: ErrorResponse,
    rest: Seq<Result<WatchEvent, E>>,
)
    requires
        e.code == GONE,
    ensures
        ({
            let marked = s.observe(Ok::<WatchEvent, E>(WatchEvent::Error(e)));
            let drained = marked.observe_all(rest);
            &&& marked.cursor.version == s.cursor.version
            &&& marked.cursor.needs_resync
            &&& marked.phase == Phase::Desynced
            &&& drained.cursor.needs_resync
            &&& drained.poll_action() == PollActionView::Backoff(RESYNC_BACKOFF_SECONDS)
            &&& drained.poll().cursor == drained.cursor
            &&& drained.poll().phase == Phase::Resyncing
            &&& drained.poll().resume().cursor.version == zero_version()
            &&& !drained.poll().resume().cursor.needs_resync
            &&& drained.poll().resume().phase == Phase::Watching
            &&& drained.poll().resume().request().resource_version == zero_version()
            &&& drained.poll().resume().poll_action() == PollActionView::Watch(
                drained.poll().resume().request(),
            )
        }),
{
    let marked = s.observe(Ok::<WatchEvent, E>(WatchEvent::Error(e)));
    lemma_mark_stays(marked, rest);
}

/// After a reset, the watch that the next poll opens starts at the zero
/// version, whether the poll opens it at once or after a backoff.
pub proof fn theorem_reset_restarts_at_zero(s: InformerView)
    ensures
        match s.reset().poll_action() {
            PollActionView::Watch(request) => request.resource_version == zero_version(),
            PollActionView::Backoff(_) => s.reset().poll().resume().request().resource_version
                == zero_version(),
        },
{
}

/// One call on a session, taken as a whole.
pub enum Step<E> {
    /// `poll`
    Poll,
    /// `resume`
    Resume,
    /// `observe` or `intercept` of this item
    Observe(Result<WatchEvent, E>),
    /// `reset`
    Reset,
    /// `set_version` with this version
    SetVersion(Seq<char>),
    /// `version`
    Read,
}

/// The session after one call.
pub open spec fn after_step<E>(s: InformerView, step: Step<E>) -> InformerView {
    match step {
        Step::Poll => s.poll(),
        Step::Resume => s.resume(),
        Step::Observe(item) => s.observe(item),
        Step::Reset => s.reset(),
        Step::SetVersion(v) => s.with_version(v),
        Step::Read => s,
    }
}

/// The session after a run of calls, each taken as a whole, in the order in
/// which they came to the session.
pub open spec fn after_steps<E>(s: InformerView, steps: Seq<Step<E>>) -> InformerView
    decreases steps.len(),
{
    if steps.len() == 0 {
        s
    } else {
        after_step(after_steps(s, steps.drop_last()), steps.last())
    }
}

/// The text that a call stores as the version, where it stores one: zero for
/// a reset and for a resynchronization, the argument of `set_version`, and
/// the merged version for an event that carries one.
pub open spec fn stored_by<E>(s: InformerView, step: Step<E>) -> Option<Seq<char>> {
    match step {
        Step::Reset => Some(zero_version()),
        Step::SetVersion(v) => Some(v),
        Step::Resume => if s.cursor.needs_resync {
            Some(zero_version())
        } else {
            None
        },
        Step::Observe(item) => match item {
            Ok(event) => if event.history_expired() {
                None
            } else {
                match event.version() {
                    Some(v) => Some(merged(s.cursor.version, v)),
                    None => None,
                }
            },
            Err(_) => None,
        },
        Step::Poll => None,
        Step::Read => None,
    }
}

/// The text stored last in a run of calls: by the last call that stored one,
/// or else the text that was there at the start.
pub open spec fn stored_last<E>(s: InformerView, steps: Seq<Step<E>>) -> Seq<char>
    decreases steps.len(),
{
    if steps.len() == 0 {
        s.cursor.version
    } else {
        match stored_by(after_steps(s, steps.drop_last()), steps.last()) {
            Some(v) => v,
            None => stored_last(s, steps.drop_last()),
        }
    }
}

/// Every text that was ever stored in a run of calls, the one at the start
/// among them.
pub open spec fn ever_stored<E>(s: InformerView, steps: Seq<Step<E>>) -> Set<Seq<char>>
    decreases steps.len(),
{
    if steps.len() == 0 {
        set![s.cursor.version]
    } else {
        match stored_by(after_steps(s, steps.drop_last()), steps.last()) {
            Some(v) => ever_stored(s, steps.drop_last()).insert(v),
            None => ever_stored(s, steps.drop_last()),
        }
    }
}

/// Take every call on a session as one step, as a lock around the session
/// makes it, and let the calls of a poll loop and of other tasks come in any
/// order. Then the version that a read finds is one of the texts that were
/// stored whole, the one stored last, and the read changes nothing. A reset
/// stores exactly zero and leaves the mark, the phase and the configuration
/// alone.
pub proof fn theorem_reads_find_the_version_stored_last<E>(
    s: InformerView,
    steps: Seq<Step<E>>,
)
    ensures
        after_steps(s, steps).cursor.version == stored_last(s, steps),
        ever_stored(s, steps).contains(stored_last(s, steps)),
        after_step(after_steps(s, steps), Step::<E>::Read) == after_steps(s, steps),
        after_step(after_steps(s, steps), Step::<E>::Reset).cursor.version == zero_version(),
        after_step(after_steps(s, steps), Step::<E>::Reset).cursor.needs_resync == after_steps(
            s,
            steps,
        ).cursor.needs_resync,
        after_step(after_steps(s, steps), Step::<E>::Reset).phase == after_steps(s, steps).phase,
        after_step(after_steps(s, steps), Step::<E>::Reset).params == after_steps(
            s,
            steps,
        ).params,
    decreases steps.len(),
{
    if steps.len() > 0 {
        theorem_reads_find_the_version_stored_last(s, steps.drop_last());
    }
}

/// Every step keeps the tie between the mark and the phase.
pub proof fn theorem_steps_keep_well_formed<E>(
    s: InformerView,
    item: Result<WatchEvent, E>,
    items: Seq<Result<WatchEvent, E>>,
    v: Seq<char>,
)
    requires
        s.wf(),
    ensures
        InformerView::start().wf(),
        s.with_version(v).wf(),
        s.reset().wf(),
        s.poll().wf(),
        s.resume().wf(),
        s.observe(item).wf(),
        s.observe_all(items).wf(),
    decreases items.len(),
{
    if items.len() > 0 {
        theorem_steps_keep_well_formed(s, item, items.drop_last(), v);
    }
}

} // verus!
