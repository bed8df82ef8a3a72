//! The record of request sequence numbers whose events are to be swallowed.
//!
//! The display server echoes, in every event, the sequence number of the
//! request that caused it. A handler that is about to cause events which must
//! not be acted upon records the sequence here; the handler that later sees
//! such an event asks, and by asking uses the record up.

use vstd::prelude::*;

verus! {

/// The number of records that are kept. Recording one more drops the oldest.
pub const CAPACITY: usize = 64;

/// One record: a sequence number, and the event type that it is limited to, if
/// it is limited to one.
#[derive(Clone, Copy, Debug, PartialEq, Eq, Structural)]
pub struct Ignored {
    pub sequence: u16,
    pub kind: Option<u32>,
}

impl Ignored {
    /// The record covers an event of type `kind` that carries `sequence`.
    pub open spec fn covers(self, sequence: u16, kind: u32) -> bool {
        self.sequence == sequence && (self.kind is None || self.kind == Some(kind))
    }
}

/// Some record in `records` covers the event.
pub open spec fn any_covers(records: Seq<Ignored>, sequence: u16, kind: u32) -> bool {
    exists|i: int| 0 <= i < records.len() && (#[trigger] records[i]).covers(sequence, kind)
}

/// `records` without those that cover the event, the others in their order.
pub open spec fn without_covering(records: Seq<Ignored>, sequence: u16, kind: u32) -> Seq<Ignored> {
    records.filter(|e: Ignored| !e.covers(sequence, kind))
}

/// `records` after `entry` has been added: it comes last, and the oldest
/// records give way so that no more than [`CAPACITY`] are held.
pub open spec fn with_record(records: Seq<Ignored>, entry: Ignored) -> Seq<Ignored> {
    if records.len() >= CAPACITY {
        records.skip(records.len() - CAPACITY + 1).push(entry)
    } else {
        records.push(entry)
    }
}

/// The records, oldest first.
pub struct IgnoredSequences {
    entries: Vec<Ignored>,
}

impl View for IgnoredSequences {
    type V = Seq<Ignored>;

    closed spec fn view(&self) -> Seq<Ignored> {
        self.entries@
    }
}

impl IgnoredSequences {
    /// No more than [`CAPACITY`] records are held.
    pub open spec fn wf(&self) -> bool {
        self@.len() <= CAPACITY
    }

    /// No records.
    pub fn new() -> (s: IgnoredSequences)
        ensures
            s@ == Seq::<Ignored>::empty(),
            s.wf(),
    {
        IgnoredSequences { entries: Vec::new() }
    }

    /// The number of records held, which never exceeds [`CAPACITY`].
    pub fn len(&self) -> (n: usize)
        ensures
            n == self@.len(),
    {
        self.entries.len()
    }

    fn record(&mut self, entry: Ignored)
        requires
            old(self).wf(),
        ensures
            final(self)@ == with_record(old(self)@, entry),
            final(self).wf(),
    {
        let ghost before = self.entries@;
        if self.entries.len() >= CAPACITY {
            self.entries.remove(0);
            assert(self.entries@ =~= before.skip(before.len() - CAPACITY + 1));
        }
        self.entries.push(entry);
    }

    /// Marks every event that carries `sequence` as one to swallow.
    pub fn add(&mut self, sequence: u16)
        requires
            old(self).wf(),
        ensures
            final(self)@ == with_record(old(self)@, Ignored { sequence, kind: None }),
            final(self).wf(),
    {
        self.record(Ignored { sequence, kind: None });
    }

    /// Marks the events of type `kind` that carry `sequence` as ones to
    /// swallow.
    pub fn add_with_type(&mut self, sequence: u16, kind: u32)
        requires
            old(self).wf(),
        ensures
            final(self)@ == with_record(old(self)@, Ignored { sequence, kind: Some(kind) }),
            final(self).wf(),
    {
        self.record(Ignored { sequence, kind: Some(kind) });
    }

    /// Whether an event of type `kind` that carries `sequence` is to be
    /// swallowed. The records that say so are used up by the answer.
    pub fn is_ignored(&mut self, sequence: u16, kind: u32) -> (ignored: bool)
        ensures
            ignored == any_covers(old(self)@, sequence, kind),
            final(self)@ == without_covering(old(self)@, sequence, kind),
            final(self)@.len() <= old(self)@.len(),
            old(self).wf() ==> final(self).wf(),
    {
        let ghost before = self.entries@;
        let ghost keep = |e: Ignored| !e.covers(sequence, kind);
        let mut kept: Vec<Ignored> = Vec::new();
        let mut found: bool = false;
        let mut i: usize = 0;
        proof {
            reveal_with_fuel(Seq::filter, 1);
            assert(before.take(0) =~= Seq::<Ignored>::empty());
        }
        while i < self.entries.len()
            invariant
                i <= self.entries@.len(),
                self.entries@ == before,
                keep == (|e: Ignored| !e.covers(sequence, kind)),
                kept@ == before.take(i as int).filter(keep),
                kept@.len() <= i,
                found == any_covers(before.take(i as int), sequence, kind),
            decreases self.entries@.len() - i,
        {
            let e: Ignored = self.entries[i];
            let covered: bool = e.sequence == sequence && match e.kind {
                None => true,
                Some(k) => k == kind,
            };
            proof {
                let next = before.take(i as int + 1);
                assert(next.drop_last() =~= before.take(i as int));
                assert(next.last() == e);
                reveal_with_fuel(Seq::filter, 2);
                if covered {
                    assert(next[i as int].covers(sequence, kind));
                } else if any_covers(next, sequence, kind) {
                    let j = choose|j: int| 0 <= j < next.len() && (#[trigger] next[j]).covers(sequence, kind);
                    assert(before.take(i as int)[j].covers(sequence, kind));
                }
                if found {
                    let j = choose|j: int|
                        0 <= j < before.take(i as int).len() && (#[trigger] before.take(i as int)[j]).covers(
                            sequence,
                            kind,
                        );
                    assert(next[j].covers(sequence, kind));
                }
            }
            if covered {
                found = true;
            } else {
                kept.push(e);
            }
            i += 1;
        }
        proof {
            assert(before.take(i as int) =~= before);
        }
        self.entries = kept;
        found
    }
}

/// A sequence that has just been recorded without a type is swallowed for an
/// event of any type, once: the answer uses the record up, and the same
/// question asked again is answered with no.
pub proof fn lemma_recorded_is_ignored_once(records: Seq<Ignored>, sequence: u16, kind: u32)
    ensures
        any_covers(with_record(records, Ignored { sequence, kind: None }), sequence, kind),
        !any_covers(
            without_covering(with_record(records, Ignored { sequence, kind: None }), sequence, kind),
            sequence,
            kind,
        ),
{
    let entry = Ignored { sequence, kind: None };
    let recorded = with_record(records, entry);
    assert(recorded[recorded.len() - 1].covers(sequence, kind));
    lemma_asked_twice_is_refused(recorded, sequence, kind);
}

/// A record that is limited to one type is used up by an event of that type
/// and is left alone by an event of another.
pub proof fn lemma_typed_record_is_selective(records: Seq<Ignored>, sequence: u16, kind: u32, other: u32)
    requires
        other != kind,
        !any_covers(records, sequence, other),
    ensures
        any_covers(with_record(records, Ignored { sequence, kind: Some(kind) }), sequence, kind),
        !any_covers(with_record(records, Ignored { sequence, kind: Some(kind) }), sequence, other),
{
    let entry = Ignored { sequence, kind: Some(kind) };
    let recorded = with_record(records, entry);
    assert(recorded[recorded.len() - 1].covers(sequence, kind));
    if any_covers(recorded, sequence, other) {
        let j = choose|j: int| 0 <= j < recorded.len() && (#[trigger] recorded[j]).covers(sequence, other);
        if j < recorded.len() - 1 {
            if records.len() >= CAPACITY {
                assert(records[j + records.len() - CAPACITY + 1].covers(sequence, other));
            } else {
                assert(records[j].covers(sequence, other));
            }
        }
    }
}

/// Whatever was recorded, once the question has been asked for an event no
/// record covers that event any more.
pub proof fn lemma_asked_twice_is_refused(records: Seq<Ignored>, sequence: u16, kind: u32)
    ensures
        !any_covers(without_covering(records, sequence, kind), sequence, kind),
{
    let keep = |e: Ignored| !e.covers(sequence, kind);
    let rest = records.filter(keep);
    if any_covers(rest, sequence, kind) {
        let j = choose|j: int| 0 <= j < rest.len() && (#[trigger] rest[j]).covers(sequence, kind);
        records.lemma_filter_pred(keep, j);
        assert(keep(rest[j]));
    }
}

} // verus!
