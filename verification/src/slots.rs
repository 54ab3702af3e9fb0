//! Lists of texts that an engine is handed place by place: one entry for
//! each point, and an empty one where nothing is set for it.

use crate::request_types::Exclude;
use crate::services::hint_texts;
use crate::text::texts;
use vstd::prelude::*;
use vstd::string::StringExecFns;

verus! {

/// What stands in a hint's place: the hint, or nothing.
pub open spec fn hint_slot(hint: Option<Seq<char>>) -> Seq<char> {
    match hint {
        Some(h) => h,
        None => Seq::empty(),
    }
}

/// The places of the hints, one by one.
pub open spec fn hint_slots(hints: Seq<Option<Seq<char>>>) -> Seq<Seq<char>> {
    Seq::new(hints.len(), |i: int| hint_slot(hints[i]))
}

/// The excluded classes by name, one by one.
pub open spec fn exclude_slots(exclude: Seq<Exclude>) -> Seq<Seq<char>> {
    Seq::new(exclude.len(), |i: int| exclude[i].name())
}

/// `count` empty places.
pub open spec fn blank_slots(count: nat) -> Seq<Seq<char>> {
    Seq::new(count, |i: int| Seq::<char>::empty())
}

/// A list to which strings were added holds what it held, followed by
/// what was added.
pub proof fn lemma_pushed(before: Seq<String>, after: Seq<String>, slots: Seq<Seq<char>>)
    requires
        after.len() == before.len() + slots.len(),
        forall|k: int| 0 <= k < before.len() ==> after[k] == before[k],
        forall|j: int|
            before.len() <= j < after.len() ==> (#[trigger] after[j])@ == slots[j - before.len()],
    ensures
        texts(after) == texts(before) + slots,
{
    assert(texts(after) =~= texts(before) + slots);
}

/// Appends the hints, with the empty hint in place of each that is not set.
pub fn push_hint_slots(parts: &mut Vec<String>, hints: &[Option<&str>])
    ensures
        texts(final(parts)@) == texts(old(parts)@) + hint_slots(hint_texts(hints@)),
{
    let ghost before = parts@;
    let mut i: usize = 0;
    while i < hints.len()
        invariant
            i <= hints.len(),
            parts@.len() == before.len() + i,
            forall|k: int| 0 <= k < before.len() ==> parts@[k] == before[k],
            forall|j: int|
                before.len() <= j < before.len() + i ==> (#[trigger] parts@[j])@
                    == hint_slot(hint_texts(hints@)[j - before.len()]),
        decreases hints.len() - i,
    {
        let slot = match hints[i] {
            Some(h) => String::from_str(h),
            None => String::new(),
        };
        parts.push(slot);
        i += 1;
    }
    proof {
        lemma_pushed(before, parts@, hint_slots(hint_texts(hints@)));
    }
}

/// Appends the names of the excluded classes.
pub fn push_exclude_slots(parts: &mut Vec<String>, exclude: &[Exclude])
    ensures
        texts(final(parts)@) == texts(old(parts)@) + exclude_slots(exclude@),
{
    let ghost before = parts@;
    let mut i: usize = 0;
    while i < exclude.len()
        invariant
            i <= exclude.len(),
            parts@.len() == before.len() + i,
            forall|k: int| 0 <= k < before.len() ==> parts@[k] == before[k],
            forall|j: int|
                before.len() <= j < before.len() + i ==> (#[trigger] parts@[j])@
                    == exclude@[j - before.len()].name(),
        decreases exclude.len() - i,
    {
        parts.push(String::from_str(exclude[i].as_str()));
        i += 1;
    }
    proof {
        lemma_pushed(before, parts@, exclude_slots(exclude@));
    }
}

/// Appends `count` empty places.
pub fn push_blank_slots(parts: &mut Vec<String>, count: usize)
    ensures
        texts(final(parts)@) == texts(old(parts)@) + blank_slots(count as nat),
{
    let ghost before = parts@;
    let mut i: usize = 0;
    while i < count
        invariant
            i <= count,
            parts@.len() == before.len() + i,
            forall|k: int| 0 <= k < before.len() ==> parts@[k] == before[k],
            forall|j: int|
                before.len() <= j < before.len() + i ==> (#[trigger] parts@[j])@
                    == Seq::<char>::empty(),
        decreases count - i,
    {
        parts.push(String::new());
        i += 1;
    }
    proof {
        lemma_pushed(before, parts@, blank_slots(count as nat));
    }
}


} // verus!
