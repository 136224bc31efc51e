//! Whole runs of the detector: the events that a sequence of readings raises,
//! and what holds of them.

use crate::detector::event_for;
use crate::detector::reading_of;
use crate::detector::ClipboardEvent;
use crate::detector::ClipboardSnapshot;
use crate::detector::Reading;
use crate::fingerprint::fingerprint;
use vstd::prelude::*;

verus! {

/// What the snapshot holds after `readings` have been observed in order,
/// starting from a snapshot that holds `start`.
pub open spec fn snapshot_after(start: Option<u64>, readings: Seq<Reading>) -> Option<u64> {
    if readings.len() == 0 {
        start
    } else {
        readings.last().fingerprint()
    }
}

/// The outcome of each observation, in order, when `readings` are observed
/// starting from a snapshot that holds `start`.
pub open spec fn events_of(start: Option<u64>, readings: Seq<Reading>) -> Seq<Option<ClipboardEvent>>
    decreases readings.len(),
{
    if readings.len() == 0 {
        Seq::empty()
    } else {
        let earlier = readings.drop_last();
        events_of(start, earlier).push(event_for(snapshot_after(start, earlier), readings.last()))
    }
}

/// The readings that successful reads of `texts` amount to.
pub open spec fn readings_of(texts: Seq<Seq<char>>) -> Seq<Reading> {
    Seq::new(texts.len(), |i: int| reading_of(texts[i]))
}

impl ClipboardSnapshot {
    /// Observes the readings in order and collects what each one raised.
    pub fn replay(&mut self, readings: &Vec<Reading>) -> (events: Vec<Option<ClipboardEvent>>)
        ensures
            events@ == events_of(old(self)@, readings@),
            final(self)@ == snapshot_after(old(self)@, readings@),
    {
        let ghost start = self@;
        let mut events: Vec<Option<ClipboardEvent>> = Vec::new();
        let mut i: usize = 0;
        while i < readings.len()
            invariant
                i <= readings.len(),
                events@ == events_of(start, readings@.take(i as int)),
                self@ == snapshot_after(start, readings@.take(i as int)),
            decreases readings.len() - i,
        {
            let event = self.observe(readings[i]);
            events.push(event);
            proof {
                let next = readings@.take(i + 1);
                assert(next.drop_last() =~= readings@.take(i as int));
                assert(next.last() == readings@[i as int]);
            }
            i = i + 1;
        }
        assert(readings@.take(i as int) =~= readings@);
        events
    }
}

/// Every reading has an outcome.
pub proof fn law_one_outcome_per_reading(start: Option<u64>, readings: Seq<Reading>)
    ensures
        events_of(start, readings).len() == readings.len(),
    decreases readings.len(),
{
    if readings.len() > 0 {
        law_one_outcome_per_reading(start, readings.drop_last());
    }
}

/// The outcome of the reading at position `i` is decided by that reading and
/// the fingerprint left by the one before it (by `start` for the first).
pub proof fn law_outcome_depends_on_neighbour(start: Option<u64>, readings: Seq<Reading>, i: int)
    requires
        0 <= i < readings.len(),
    ensures
        events_of(start, readings).len() == readings.len(),
        events_of(start, readings)[i] == event_for(
            snapshot_after(start, readings.take(i)),
            readings[i],
        ),
        i > 0 ==> snapshot_after(start, readings.take(i)) == readings[i - 1].fingerprint(),
        i == 0 ==> snapshot_after(start, readings.take(i)) == start,
    decreases readings.len(),
{
    let earlier = readings.drop_last();
    law_one_outcome_per_reading(start, readings);
    law_one_outcome_per_reading(start, earlier);
    if i < earlier.len() {
        law_outcome_depends_on_neighbour(start, earlier, i);
        assert(earlier.take(i) =~= readings.take(i));
    } else {
        assert(readings.take(i) =~= earlier);
    }
}

/// An event is raised exactly when a reading's fingerprint differs from the
/// one remembered before it.
pub proof fn law_event_iff_fingerprint_differs(start: Option<u64>, readings: Seq<Reading>, i: int)
    requires
        0 <= i < readings.len(),
    ensures
        events_of(start, readings)[i].is_some() <==> readings[i].fingerprint() != snapshot_after(
            start,
            readings.take(i),
        ),
{
    law_outcome_depends_on_neighbour(start, readings, i);
}

/// Over a sequence of successfully read contents, "changed" is raised for a
/// content exactly when it is not empty and its fingerprint differs from that
/// of the content before it; "cleared" exactly when it is empty and the
/// content before it was not.
pub proof fn law_changed_iff_content_differs(start: Option<u64>, texts: Seq<Seq<char>>, i: int)
    requires
        0 < i < texts.len(),
    ensures
        events_of(start, readings_of(texts))[i] == Some(ClipboardEvent::Changed) <==> (texts[i].len()
            > 0 && fingerprint(texts[i]) != fingerprint(texts[i - 1])),
        events_of(start, readings_of(texts))[i] == Some(ClipboardEvent::Cleared) <==> (texts[i].len()
            == 0 && texts[i - 1].len() > 0),
        events_of(start, readings_of(texts))[i] != Some(ClipboardEvent::ReadFailed),
{
    law_outcome_depends_on_neighbour(start, readings_of(texts), i);
}

/// The whole table of outcomes, by a reading and the one before it. After an
/// empty or failed reading, a further empty or failed reading raises nothing
/// and text raises "changed". After text, a failure raises "read failed", an
/// empty reading raises "cleared", and text raises "changed" unless its hash
/// is the one remembered.
pub proof fn law_decision_table(start: Option<u64>, readings: Seq<Reading>, i: int)
    requires
        0 < i < readings.len(),
    ensures
        events_of(start, readings)[i] == match (readings[i - 1], readings[i]) {
            (Reading::Text(_), Reading::Failed) => Some(ClipboardEvent::ReadFailed),
            (Reading::Text(_), Reading::Empty) => Some(ClipboardEvent::Cleared),
            (Reading::Text(before), Reading::Text(now)) => if before == now {
                None
            } else {
                Some(ClipboardEvent::Changed)
            },
            (_, Reading::Text(_)) => Some(ClipboardEvent::Changed),
            (_, _) => None,
        },
{
    law_outcome_depends_on_neighbour(start, readings, i);
}

/// A reading equal to the one before it raises nothing and leaves the
/// snapshot as it was: repeated content, repeated emptiness and repeated
/// failures are reported once.
pub proof fn law_repeated_reading_is_silent(start: Option<u64>, readings: Seq<Reading>, i: int)
    requires
        0 < i < readings.len(),
        readings[i] == readings[i - 1],
    ensures
        events_of(start, readings)[i].is_none(),
        snapshot_after(start, readings.take(i + 1)) == snapshot_after(start, readings.take(i)),
{
    law_outcome_depends_on_neighbour(start, readings, i);
}

/// Empty content after any content raises "cleared", and any content after an
/// empty clipboard raises "changed", whatever the content hashes to.
pub proof fn law_cleared_then_changed(start: Option<u64>, texts: Seq<Seq<char>>, i: int)
    requires
        0 < i < texts.len(),
    ensures
        texts[i - 1].len() > 0 && texts[i].len() == 0 ==> events_of(start, readings_of(texts))[i]
            == Some(ClipboardEvent::Cleared),
        texts[i - 1].len() == 0 && texts[i].len() > 0 ==> events_of(start, readings_of(texts))[i]
            == Some(ClipboardEvent::Changed),
{
    law_outcome_depends_on_neighbour(start, readings_of(texts), i);
}

/// A failed read after any content raises one "read failed" and empties the
/// snapshot; a further failure raises nothing, and any content read next,
/// the content from before the failure included, raises "changed".
pub proof fn law_failure_then_recovery(start: Option<u64>, readings: Seq<Reading>, i: int)
    requires
        0 < i < readings.len() - 1,
        readings[i - 1] is Text,
        readings[i] == Reading::Failed,
    ensures
        events_of(start, readings)[i] == Some(ClipboardEvent::ReadFailed),
        snapshot_after(start, readings.take(i + 1)).is_none(),
        readings[i + 1] == Reading::Failed ==> events_of(start, readings)[i + 1].is_none(),
        readings[i + 1] is Text ==> events_of(start, readings)[i + 1] == Some(
            ClipboardEvent::Changed,
        ),
{
    law_outcome_depends_on_neighbour(start, readings, i);
    law_outcome_depends_on_neighbour(start, readings, i + 1);
}

/// Empty content is told apart before any hashing: it is the one content
/// classified as empty and the one content without a fingerprint, so no
/// content is taken for an empty clipboard, whatever the hasher makes of it.
pub proof fn law_empty_content_is_apart(text: Seq<char>)
    ensures
        reading_of(text) == Reading::Empty <==> text.len() == 0,
        reading_of(text) is Text <==> text.len() > 0,
        fingerprint(text).is_none() <==> text.len() == 0,
        reading_of(text).fingerprint() == fingerprint(text),
{
}

} // verus!
