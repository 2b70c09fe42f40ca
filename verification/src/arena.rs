//! The generational arena itself: slots, handles, and the operations on
//! them (insertion, removal, and lookup by handle or by raw position).

use vstd::prelude::*;

verus! {

/// A handle into a [`GenerationalArena`]: a stable position together with
/// the generation under which the element at that position was inserted.
/// A handle is valid exactly while the slot at `index` is occupied and its
/// stored generation equals `generation`.
#[derive(Clone, Copy, Debug, PartialEq, Eq, Structural)]
pub struct GenerationalIndex {
    pub index: usize,
    pub generation: usize,
}

/// One slot of the arena. Both variants carry a generation: an occupied
/// slot remembers the generation under which its value was placed, a
/// vacant slot remembers the generation of its most recent occupant
/// (0 if it was never occupied).
pub enum GenerationalElement<T> {
    Occupied { value: T, generation: usize },
    Vacant { generation: usize },
}

impl<T> GenerationalElement<T> {
    /// Whether this slot currently holds a value.
    pub open spec fn spec_is_some(&self) -> bool {
        *self is Occupied
    }

    /// The generation stored in this slot, occupied or vacant.
    pub open spec fn spec_generation(&self) -> usize {
        match *self {
            GenerationalElement::Occupied { value: _, generation } => generation,
            GenerationalElement::Vacant { generation } => generation,
        }
    }

    /// The value held by an occupied slot.
    pub open spec fn spec_value(&self) -> T
        recommends
            self.spec_is_some(),
    {
        self->value
    }

    #[verifier::when_used_as_spec(spec_is_some)]
    pub fn is_some(&self) -> (r: bool)
        ensures
            r == self.spec_is_some(),
    {
        match self {
            GenerationalElement::Occupied { value: _, generation: _ } => true,
            GenerationalElement::Vacant { generation: _ } => false,
        }
    }

    pub fn is_none(&self) -> (r: bool)
        ensures
            r == !self.spec_is_some(),
    {
        !self.is_some()
    }

    #[verifier::when_used_as_spec(spec_generation)]
    pub fn generation(&self) -> (r: usize)
        ensures
            r == self.spec_generation(),
    {
        match self {
            GenerationalElement::Occupied { value: _, generation } => *generation,
            GenerationalElement::Vacant { generation } => *generation,
        }
    }
}

/// The lowest position at or after `from` whose slot is not occupied,
/// or `s.len()` if every slot from `from` on is occupied. This is the
/// position the cursor reaches when an insertion scans forward.
pub open spec fn first_free_from<T>(s: Seq<GenerationalElement<T>>, from: int) -> int
    recommends
        0 <= from <= s.len(),
    decreases s.len() - from,
{
    if from >= s.len() {
        from
    } else if !s[from].spec_is_some() {
        from
    } else {
        first_free_from(s, from + 1)
    }
}

/// Whether handle `h` is valid against the slot sequence `s`: in range,
/// occupied, and carrying the slot's current generation.
pub open spec fn valid_in<T>(s: Seq<GenerationalElement<T>>, h: GenerationalIndex) -> bool {
    &&& h.index < s.len()
    &&& s[h.index as int].spec_is_some()
    &&& s[h.index as int].spec_generation() == h.generation
}

/// The slot sequence after vacating position `i`: the value is dropped,
/// the generation is kept. Positions that are out of range or already
/// vacant are left untouched.
pub open spec fn vacated<T>(s: Seq<GenerationalElement<T>>, i: int) -> Seq<GenerationalElement<T>> {
    if 0 <= i < s.len() && s[i].spec_is_some() {
        s.update(i, GenerationalElement::Vacant { generation: s[i].spec_generation() })
    } else {
        s
    }
}

/// The generation an insertion gives to the slot it fills at position `i`:
/// 0 for a freshly appended slot, the previous generation plus one when a
/// vacant slot is reused.
pub open spec fn filled_generation<T>(s: Seq<GenerationalElement<T>>, i: int) -> usize
    recommends
        0 <= i <= s.len(),
        i < s.len() ==> s[i].spec_generation() < usize::MAX,
{
    if i == s.len() {
        0
    } else {
        (s[i].spec_generation() + 1) as usize
    }
}

/// The slot sequence after an insertion fills position `i` with `v`:
/// appended when `i` is one past the end, otherwise the vacant slot at `i`
/// is overwritten under a bumped generation.
pub open spec fn filled<T>(s: Seq<GenerationalElement<T>>, i: int, v: T) -> Seq<
    GenerationalElement<T>,
>
    recommends
        0 <= i <= s.len(),
        i < s.len() ==> !s[i].spec_is_some(),
{
    if i == s.len() {
        s.push(GenerationalElement::Occupied { value: v, generation: filled_generation(s, i) })
    } else {
        s.update(i, GenerationalElement::Occupied { value: v, generation: filled_generation(s, i) })
    }
}

/// The cursor's forward scan lands between its start and one past the end
/// of the sequence, and lands on an occupied slot only when it is one
/// past the end.
pub proof fn lemma_first_free_from_bounds<T>(s: Seq<GenerationalElement<T>>, c: int)
    requires
        0 <= c <= s.len(),
    ensures
        c <= first_free_from(s, c) <= s.len(),
        first_free_from(s, c) < s.len() ==> !s[first_free_from(s, c)].spec_is_some(),
    decreases s.len() - c,
{
    if c < s.len() && s[c].spec_is_some() {
        lemma_first_free_from_bounds(s, c + 1);
    }
}

/// Round trip: inserting a value and immediately looking it up through
/// the returned handle finds exactly that value. Stated over the slot
/// model: the handle an insertion issues for fill position
/// `first_free_from(s, c)` is valid in the resulting sequence and
/// resolves to the inserted value.
pub proof fn lemma_insert_get_round_trip<T>(s: Seq<GenerationalElement<T>>, c: int, v: T)
    requires
        0 <= c <= s.len(),
        s.len() <= usize::MAX,
        first_free_from(s, c) < s.len() ==> s[first_free_from(s, c)].spec_generation()
            < usize::MAX,
    ensures
        ({
            let p = first_free_from(s, c);
            let h = GenerationalIndex { index: p as usize, generation: filled_generation(s, p) };
            valid_in(filled(s, p, v), h) && filled(s, p, v)[p].spec_value() == v
        }),
{
    lemma_first_free_from_bounds(s, c);
}

/// Stale-handle rejection: once the element a handle was issued for is
/// removed, the handle stays invalid — both against the vacated slot and
/// against any new occupant that later reuses the same position, because
/// refilling bumps the slot's generation past the handle's.
pub proof fn lemma_stale_handle_rejected<T>(s: Seq<GenerationalElement<T>>, h: GenerationalIndex, v: T)
    requires
        valid_in(s, h),
        h.generation < usize::MAX,
    ensures
        !valid_in(vacated(s, h.index as int), h),
        !valid_in(filled(vacated(s, h.index as int), h.index as int, v), h),
{
}

/// Generation monotonicity: removal keeps every slot's generation,
/// refilling a vacant slot raises its generation by exactly one, and a
/// freshly appended slot starts at generation zero — so the generations
/// seen across successive occupancies of a fixed position go up by one
/// per refill.
pub proof fn lemma_generation_monotonic<T>(s: Seq<GenerationalElement<T>>, i: int, v: T)
    ensures
        forall|j: int|
            0 <= j < s.len() ==> (#[trigger] vacated(s, i)[j]).spec_generation()
                == s[j].spec_generation(),
        0 <= i < s.len() && !s[i].spec_is_some() && s[i].spec_generation() < usize::MAX ==> filled(
            s,
            i,
            v,
        )[i].spec_generation() == s[i].spec_generation() + 1,
        filled(s, s.len() as int, v)[s.len() as int].spec_generation() == 0,
{
}

/// Position stability: vacating or filling one position leaves the slot
/// at every other position exactly as it was, so position-based lookups
/// elsewhere are unaffected.
pub proof fn lemma_position_stability<T>(s: Seq<GenerationalElement<T>>, i: int, j: int, v: T)
    requires
        0 <= j < s.len(),
        i != j,
        0 <= i <= s.len(),
    ensures
        vacated(s, i)[j] == s[j],
        filled(s, i, v)[j] == s[j],
{
}

/// Idempotent removal: vacating a position that holds no live element —
/// out of range, never filled, or already vacated — changes nothing, so
/// removing the same target twice is the same as removing it once.
pub proof fn lemma_remove_idempotent<T>(s: Seq<GenerationalElement<T>>, i: int)
    ensures
        !(0 <= i < s.len() && s[i].spec_is_some()) ==> vacated(s, i) == s,
        vacated(vacated(s, i), i) == vacated(s, i),
{
}

/// A growable pool of generation-tagged slots. Positions are stable: the
/// slot sequence only ever grows, and vacated slots are reused rather than
/// removed. `next_index_to_fill` is a cursor at the lowest position that
/// might be vacant, from which the next insertion scans forward.
pub struct GenerationalArena<T> {
    elements: Vec<GenerationalElement<T>>,
    next_index_to_fill: usize,
}

impl<T> GenerationalArena<T> {
    /// The arena's slot sequence.
    pub closed spec fn slots(&self) -> Seq<GenerationalElement<T>> {
        self.elements@
    }

    /// The insertion cursor.
    pub closed spec fn cursor(&self) -> int {
        self.next_index_to_fill as int
    }

    /// The cursor never points further than one past the last slot.
    pub open spec fn wf(&self) -> bool {
        0 <= self.cursor() <= self.slots().len()
    }

    /// Whether the slot at position `i` is occupied.
    pub open spec fn occupied(&self, i: int) -> bool {
        0 <= i < self.slots().len() && self.slots()[i].spec_is_some()
    }

    /// The generation stored at position `i`.
    pub open spec fn generation_of(&self, i: int) -> usize
        recommends
            0 <= i < self.slots().len(),
    {
        self.slots()[i].spec_generation()
    }

    /// The value stored at position `i`.
    pub open spec fn value_of(&self, i: int) -> T
        recommends
            self.occupied(i),
    {
        self.slots()[i].spec_value()
    }

    /// Whether handle `h` currently resolves to a live element.
    pub open spec fn handle_valid(&self, h: GenerationalIndex) -> bool {
        valid_in(self.slots(), h)
    }

    /// The position the next insertion will fill.
    pub open spec fn fill_pos(&self) -> int {
        first_free_from(self.slots(), self.cursor())
    }

    /// An insertion is free of generation overflow: when it reuses a slot,
    /// that slot's generation is not yet at the machine maximum.
    pub open spec fn can_push(&self) -> bool {
        &&& self.wf()
        &&& self.fill_pos() < self.slots().len() ==> self.generation_of(self.fill_pos())
            < usize::MAX
    }

    /// An empty arena: no slots, cursor at 0.
    pub fn new() -> (r: Self)
        ensures
            r.slots() =~= Seq::<GenerationalElement<T>>::empty(),
            r.cursor() == 0,
            r.wf(),
            r.can_push(),
    {
        Self { elements: Vec::new(), next_index_to_fill: 0 }
    }

    /// The total number of slots ever allocated, occupied and vacant
    /// alike: the high-water mark of positions, not the live count.
    pub fn len(&self) -> (r: usize)
        ensures
            r == self.slots().len(),
    {
        self.elements.len()
    }

    /// Insert `value` into the lowest free position at or after the
    /// cursor: the first vacant slot is reused under its generation plus
    /// one, and if every slot from the cursor on is occupied a fresh slot
    /// is appended under generation 0. Returns a handle to the filled
    /// position; the cursor is left at that position.
    pub fn push(&mut self, value: T) -> (r: GenerationalIndex)
        requires
            old(self).can_push(),
        ensures
            final(self).slots() =~= filled(old(self).slots(), old(self).fill_pos(), value),
            final(self).cursor() == old(self).fill_pos(),
            r.index == old(self).fill_pos(),
            r.generation == filled_generation(old(self).slots(), old(self).fill_pos()),
            final(self).wf(),
            final(self).handle_valid(r),
            final(self).value_of(r.index as int) == value,
            final(self).slots().len() == if old(self).fill_pos() == old(self).slots().len() {
                old(self).slots().len() + 1
            } else {
                old(self).slots().len()
            },
    {
        while self.next_index_to_fill < self.elements.len() && self.elements[
            self.next_index_to_fill
        ].is_some()
            invariant
                old(self).cursor() <= self.cursor() <= self.slots().len(),
                self.slots() == old(self).slots(),
                first_free_from(self.slots(), self.cursor()) == old(self).fill_pos(),
            decreases self.slots().len() - self.cursor(),
        {
            self.next_index_to_fill = self.next_index_to_fill + 1;
        }

        let index = self.next_index_to_fill;
        if index >= self.elements.len() {
            self.elements.push(GenerationalElement::Occupied { value, generation: 0 });
            GenerationalIndex { index, generation: 0 }
        } else {
            let generation = self.elements[index].generation() + 1;
            self.elements[index] = GenerationalElement::Occupied { value, generation };
            GenerationalIndex { index, generation }
        }
    }

    /// Position-only lookup: the value at `index` if that slot is
    /// occupied, with no generation check.
    pub fn at(&self, index: usize) -> (r: Option<&T>)
        ensures
            r.is_some() == self.occupied(index as int),
            r matches Some(v) ==> *v == self.value_of(index as int),
    {
        if index < self.elements.len() {
            match &self.elements[index] {
                GenerationalElement::Occupied { value, generation: _ } => Some(value),
                GenerationalElement::Vacant { generation: _ } => None,
            }
        } else {
            None
        }
    }

    /// Handle-checked lookup: the value at `h.index` only if that slot is
    /// occupied under exactly `h.generation`; out-of-range, vacant and
    /// stale handles all yield `None`.
    pub fn get(&self, generational_index: GenerationalIndex) -> (r: Option<&T>)
        ensures
            r.is_some() == self.handle_valid(generational_index),
            r matches Some(v) ==> *v == self.value_of(generational_index.index as int),
    {
        if generational_index.index < self.elements.len() {
            match &self.elements[generational_index.index] {
                GenerationalElement::Occupied { value, generation } => {
                    if *generation == generational_index.generation {
                        Some(value)
                    } else {
                        None
                    }
                },
                GenerationalElement::Vacant { generation: _ } => None,
            }
        } else {
            None
        }
    }

    /// Position-only mutable lookup: a mutable borrow of the value at
    /// `index` if that slot is occupied, with no generation check. The
    /// slot keeps its generation whatever the caller writes through the
    /// borrow.
    pub fn at_mut(&mut self, index: usize) -> (r: Option<&mut T>)
        ensures
            r.is_some() == old(self).occupied(index as int),
            r.is_none() ==> final(self).slots() =~= old(self).slots(),
            r.is_some() ==> *r.unwrap() == old(self).value_of(index as int)
                && final(self).slots() =~= old(self).slots().update(
                index as int,
                (GenerationalElement::Occupied {
                    value: *final(r.unwrap()),
                    generation: old(self).generation_of(index as int),
                }),
            ),
            final(self).slots().len() == old(self).slots().len(),
            final(self).cursor() == old(self).cursor(),
    {
        if index < self.elements.len() {
            match &mut self.elements[index] {
                GenerationalElement::Occupied { value, generation: _ } => Some(value),
                GenerationalElement::Vacant { generation: _ } => None,
            }
        } else {
            None
        }
    }

    /// Handle-checked mutable lookup: a mutable borrow of the value at
    /// `h.index` only if that slot is occupied under exactly
    /// `h.generation`; out-of-range, vacant and stale handles all yield
    /// `None`. The slot keeps its generation whatever the caller writes
    /// through the borrow.
    pub fn get_mut(&mut self, generational_index: GenerationalIndex) -> (r: Option<&mut T>)
        ensures
            r.is_some() == old(self).handle_valid(generational_index),
            r.is_none() ==> final(self).slots() =~= old(self).slots(),
            r.is_some() ==> *r.unwrap() == old(self).value_of(generational_index.index as int)
                && final(self).slots() =~= old(self).slots().update(
                generational_index.index as int,
                (GenerationalElement::Occupied {
                    value: *final(r.unwrap()),
                    generation: generational_index.generation,
                }),
            ),
            final(self).slots().len() == old(self).slots().len(),
            final(self).cursor() == old(self).cursor(),
    {
        if generational_index.index < self.elements.len() {
            match &mut self.elements[generational_index.index] {
                GenerationalElement::Occupied { value, generation } => {
                    if *generation == generational_index.generation {
                        Some(value)
                    } else {
                        None
                    }
                },
                GenerationalElement::Vacant { generation: _ } => None,
            }
        } else {
            None
        }
    }

    /// Vacate the slot a valid handle points at, keeping its generation;
    /// a no-op on an out-of-range, vacant or stale handle.
    pub fn remove(&mut self, generational_index: GenerationalIndex)
        ensures
            old(self).handle_valid(generational_index) ==> final(self).slots() =~= vacated(
                old(self).slots(),
                generational_index.index as int,
            ),
            !old(self).handle_valid(generational_index) ==> final(self).slots()
                =~= old(self).slots(),
            final(self).slots().len() == old(self).slots().len(),
            final(self).cursor() == old(self).cursor(),
    {
        if generational_index.index < self.elements.len() {
            let slot = &self.elements[generational_index.index];
            if slot.is_some() && slot.generation() == generational_index.generation {
                let g = slot.generation();
                self.elements[generational_index.index] = GenerationalElement::Vacant {
                    generation: g,
                };
            }
        }
    }

    /// Vacate the slot at a raw position, keeping its generation and
    /// performing no generation check; a no-op on an out-of-range or
    /// already vacant position.
    pub fn remove_at(&mut self, index: usize)
        ensures
            final(self).slots() =~= vacated(old(self).slots(), index as int),
            final(self).slots().len() == old(self).slots().len(),
            final(self).cursor() == old(self).cursor(),
    {
        if index < self.elements.len() {
            let slot = &self.elements[index];
            if slot.is_some() {
                let g = slot.generation();
                self.elements[index] = GenerationalElement::Vacant { generation: g };
            }
        }
    }
}

} // verus!
