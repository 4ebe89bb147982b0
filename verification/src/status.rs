//! The status that the playback engine and the duration workers write and
//! the host reads: the current playback time, the known track durations,
//! and whether playback has stopped.
//!
//! The status is a plain value. The program that shares it between threads
//! puts it behind one lock and calls each operation below with the lock
//! held, so that operations take effect one after another.

use crate::span::span_millis;
use std::time::Duration;
use vstd::prelude::*;

verus! {

/// The status as mathematical values.
pub ghost struct StatusView {
    /// The playback time of the current track, in milliseconds.
    pub current_time: u64,
    /// The duration in milliseconds of each track for which it is known.
    pub durations: Map<Seq<char>, u64>,
    /// Whether no track is being played.
    pub stopped: bool,
}

impl StatusView {
    /// The status of a player that has not played anything yet.
    pub open spec fn initial() -> StatusView {
        StatusView { current_time: 0, durations: Map::empty(), stopped: true }
    }

    /// The known duration of a track, `None` while it has not been computed.
    pub open spec fn duration_of(self, path: Seq<char>) -> Option<u64> {
        if self.durations.dom().contains(path) {
            Some(self.durations[path])
        } else {
            None
        }
    }

    /// The status after the duration of a track has been recorded. An
    /// earlier entry for the same track is overwritten; all others stay.
    pub open spec fn record(self, path: Seq<char>, millis: u64) -> StatusView {
        StatusView { durations: self.durations.insert(path, millis), ..self }
    }

    /// The status after a duration worker has reported: an estimate whose
    /// milliseconds fit in 64 bits is recorded, anything else changes
    /// nothing.
    pub open spec fn note(self, path: Seq<char>, estimate: Option<Duration>) -> StatusView {
        match estimate {
            Some(span) => if span_millis(span) <= u64::MAX {
                self.record(path, span_millis(span) as u64)
            } else {
                self
            },
            None => self,
        }
    }
}

/// Recording the durations of two different tracks loses neither, whichever
/// worker comes first: both orders give the same status, it holds both
/// durations, and every other entry is as it was.
pub proof fn lemma_durations_independent(
    status: StatusView,
    first: Seq<char>,
    first_millis: u64,
    second: Seq<char>,
    second_millis: u64,
)
    requires
        first != second,
    ensures
        status.record(first, first_millis).record(second, second_millis) == status.record(
            second,
            second_millis,
        ).record(first, first_millis),
        status.record(first, first_millis).record(second, second_millis).duration_of(first) == Some(
            first_millis,
        ),
        status.record(first, first_millis).record(second, second_millis).duration_of(second)
            == Some(second_millis),
        forall|other: Seq<char>|
            other != first && other != second ==> status.record(first, first_millis).record(
                second,
                second_millis,
            ).duration_of(other) == status.duration_of(other),
{
    let one = status.record(first, first_millis).record(second, second_millis);
    let other = status.record(second, second_millis).record(first, first_millis);
    assert(one.durations =~= other.durations);
}

/// Recording a duration never removes an entry, and recording the same
/// duration again changes nothing.
pub proof fn lemma_record_keeps_entries(status: StatusView, path: Seq<char>, millis: u64)
    ensures
        forall|other: Seq<char>|
            status.durations.dom().contains(other) ==> status.record(path, millis).durations.dom().contains(
                other,
            ),
        status.record(path, millis).record(path, millis) == status.record(path, millis),
        status.record(path, millis).current_time == status.current_time,
        status.record(path, millis).stopped == status.stopped,
{
    assert(status.record(path, millis).record(path, millis).durations =~= status.record(
        path,
        millis,
    ).durations);
}

/// Whether a list of entries has an entry for the key.
spec fn has_key(entries: Seq<(String, u64)>, key: Seq<char>) -> bool {
    exists|i: int| 0 <= i < entries.len() && (#[trigger] entries[i]).0@ == key
}

/// The place of the entry for the key.
spec fn place_of(entries: Seq<(String, u64)>, key: Seq<char>) -> int {
    choose|i: int| 0 <= i < entries.len() && (#[trigger] entries[i]).0@ == key
}

/// Whether no key occurs twice.
spec fn distinct_keys(entries: Seq<(String, u64)>) -> bool {
    forall|i: int, j: int|
        0 <= i < j < entries.len() ==> (#[trigger] entries[i]).0@ != (#[trigger] entries[j]).0@
}

/// The map that a list of entries stands for.
spec fn as_map(entries: Seq<(String, u64)>) -> Map<Seq<char>, u64> {
    Map::new(|key: Seq<char>| has_key(entries, key), |key: Seq<char>| entries[place_of(entries, key)].1)
}

/// In a list without repeated keys, the entry at a place is the one that
/// the map holds for its key.
proof fn lemma_entry_in_map(entries: Seq<(String, u64)>, i: int)
    requires
        distinct_keys(entries),
        0 <= i < entries.len(),
    ensures
        has_key(entries, entries[i].0@),
        place_of(entries, entries[i].0@) == i,
        as_map(entries).dom().contains(entries[i].0@),
        as_map(entries)[entries[i].0@] == entries[i].1,
{
    let key = entries[i].0@;
    assert(has_key(entries, key));
    let found = place_of(entries, key);
    assert(0 <= found < entries.len() && entries[found].0@ == key);
    if found < i {
        assert(entries[found].0@ != entries[i].0@);
    } else if i < found {
        assert(entries[i].0@ != entries[found].0@);
    }
}

/// The status shared between the playback engine, the duration workers and
/// the host.
///
/// Durations are kept in a list in which no track occurs twice. The maps of
/// the standard library are specified only for keys whose hashing or
/// ordering the verifier knows, and it does not know that of strings.
pub struct TrackStatus {
    current_time: u64,
    durations: Vec<(String, u64)>,
    stopped: bool,
}

impl View for TrackStatus {
    type V = StatusView;

    closed spec fn view(&self) -> StatusView {
        StatusView {
            current_time: self.current_time,
            durations: as_map(self.durations@),
            stopped: self.stopped,
        }
    }
}

impl TrackStatus {
    #[verifier::type_invariant]
    spec fn inv(self) -> bool {
        distinct_keys(self.durations@)
    }

    /// The status of a player that has not played anything yet: no time has
    /// passed, no duration is known, and playback is stopped.
    pub fn new() -> (status: TrackStatus)
        ensures
            status@ == StatusView::initial(),
    {
        let status = TrackStatus { current_time: 0, durations: Vec::new(), stopped: true };
        assert(status@.durations =~= Map::empty());
        status
    }

    /// The playback time of the current track, in milliseconds.
    pub fn current_time(&self) -> (millis: u64)
        ensures
            millis == self@.current_time,
    {
        self.current_time
    }

    /// Whether no track is being played.
    pub fn stopped(&self) -> (stopped: bool)
        ensures
            stopped == self@.stopped,
    {
        self.stopped
    }

    /// Overwrites the playback time.
    pub fn set_current_time(&mut self, millis: u64)
        ensures
            final(self)@ == (StatusView { current_time: millis, ..old(self)@ }),
    {
        proof {
            use_type_invariant(&*self);
        }
        self.current_time = millis;
    }

    /// Overwrites the stopped flag.
    pub fn set_stopped(&mut self, stopped: bool)
        ensures
            final(self)@ == (StatusView { stopped, ..old(self)@ }),
    {
        proof {
            use_type_invariant(&*self);
        }
        self.stopped = stopped;
    }

    /// The known duration of a track in milliseconds, `None` while it has
    /// not been computed.
    pub fn duration_of(&self, path: &String) -> (millis: Option<u64>)
        ensures
            millis == self@.duration_of(path@),
    {
        proof {
            use_type_invariant(self);
        }
        let mut i: usize = 0;
        while i < self.durations.len()
            invariant
                i <= self.durations.len(),
                distinct_keys(self.durations@),
                forall|j: int| 0 <= j < i ==> (#[trigger] self.durations@[j]).0@ != path@,
            decreases self.durations.len() - i,
        {
            if self.durations[i].0 == *path {
                proof {
                    lemma_entry_in_map(self.durations@, i as int);
                }
                return Some(self.durations[i].1);
            }
            i += 1;
        }
        assert(!has_key(self.durations@, path@));
        None
    }

    /// Records the duration of a track. An earlier entry for the same track
    /// is overwritten; no entry is ever removed.
    pub fn record_duration(&mut self, path: String, millis: u64)
        ensures
            final(self)@ == old(self)@.record(path@, millis),
    {
        proof {
            use_type_invariant(&*self);
        }
        let mut entries: Vec<(String, u64)> = Vec::new();
        std::mem::swap(&mut entries, &mut self.durations);
        let ghost before = entries@;
        let mut i: usize = 0;
        while i < entries.len() && !(entries[i].0 == path)
            invariant
                i <= entries.len(),
                entries@ == before,
                forall|j: int| 0 <= j < i ==> (#[trigger] entries@[j]).0@ != path@,
            decreases entries.len() - i,
        {
            i += 1;
        }
        let ghost key = path@;
        if i < entries.len() {
            entries.set(i, (path, millis));
        } else {
            entries.push((path, millis));
        }
        proof {
            let after = entries@;
            assert(distinct_keys(after)) by {
                assert forall|a: int, b: int| 0 <= a < b < after.len() implies (#[trigger] after[a]).0@
                    != (#[trigger] after[b]).0@ by {
                    if a < before.len() && b < before.len() {
                        assert(before[a].0@ != before[b].0@);
                    }
                }
            }
            assert(has_key(after, key)) by {
                assert(after[i as int].0@ == key);
            }
            assert forall|other: Seq<char>| other != key implies has_key(after, other) == has_key(
                before,
                other,
            ) by {
                if has_key(before, other) {
                    let at = place_of(before, other);
                    assert(after[at].0@ == other);
                }
                if has_key(after, other) {
                    let at = place_of(after, other);
                    assert(before[at].0@ == other);
                }
            }
            assert(as_map(after) =~= as_map(before).insert(key, millis)) by {
                lemma_entry_in_map(after, i as int);
                assert forall|other: Seq<char>| other != key && has_key(before, other) implies as_map(
                    after,
                )[other] == as_map(before)[other] by {
                    let at = place_of(before, other);
                    lemma_entry_in_map(before, at);
                    assert(after[at] == before[at]);
                    lemma_entry_in_map(after, at);
                }
            }
        }
        self.durations = entries;
    }

    /// Takes the report of a duration worker: an estimate whose milliseconds
    /// fit in 64 bits is recorded for the track; a missing estimate, or one
    /// that is too long, leaves the duration unknown.
    pub fn note_duration(&mut self, path: String, estimate: Option<Duration>)
        ensures
            final(self)@ == old(self)@.note(path@, estimate),
    {
        if let Some(span) = estimate {
            if let Some(millis) = crate::checked_millis(span) {
                self.record_duration(path, millis);
            }
        }
    }

    /// A copy of the status, for a reader that does not want to hold on to
    /// the shared one.
    pub fn snapshot(&self) -> (copy: TrackStatus)
        ensures
            copy@ == self@,
    {
        proof {
            use_type_invariant(self);
        }
        let mut durations: Vec<(String, u64)> = Vec::new();
        let mut i: usize = 0;
        while i < self.durations.len()
            invariant
                i <= self.durations.len(),
                durations@.len() == i,
                forall|j: int| 0 <= j < i ==> (#[trigger] durations@[j]) == self.durations@[j],
            decreases self.durations.len() - i,
        {
            durations.push((self.durations[i].0.clone(), self.durations[i].1));
            i += 1;
        }
        assert(durations@ =~= self.durations@);
        TrackStatus { current_time: self.current_time, durations, stopped: self.stopped }
    }
}

} // verus!
