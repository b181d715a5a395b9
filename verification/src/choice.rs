//! Ordered lists of preset values with a selected entry.
//!
//! A `ChoiceSet` is an immutable list of values fixed at construction; a
//! `Choice` is that list together with the index of the currently selected
//! value, with clamped (`next`/`prev`) and wrapping (`circular_next`/
//! `circular_prev`) navigation.

use vstd::prelude::*;

verus! {

use vstd::std_specs::cmp::PartialEqSpec;

/// An immutable list of selectable values.
pub struct ChoiceSet<T: Copy> {
    pub vals: Vec<T>,
}

/// A position within a `ChoiceSet`: the set together with a valid index.
pub struct Choice<T: Copy> {
    pub choice_set: ChoiceSet<T>,
    pub index: usize,
}

impl<T: Copy> View for ChoiceSet<T> {
    type V = Seq<T>;

    open spec fn view(&self) -> Seq<T> {
        self.vals@
    }
}

impl<T: Copy> Clone for ChoiceSet<T> {
    fn clone(&self) -> (r: Self)
        ensures
            r@ == self@,
    {
        let mut vals: Vec<T> = Vec::new();
        let mut i: usize = 0;
        while i < self.vals.len()
            invariant
                i <= self.vals.len(),
                vals@ == self.vals@.take(i as int),
            decreases self.vals.len() - i,
        {
            vals.push(self.vals[i]);
            i += 1;
        }
        ChoiceSet { vals }
    }
}

impl<T: Copy> ChoiceSet<T> {
    /// Builds the set from the given values, in order.
    pub fn new(vals: Vec<T>) -> (r: Self)
        ensures
            r@ == vals@,
    {
        ChoiceSet { vals }
    }

    /// The number of values in the set.
    pub fn len(&self) -> (r: usize)
        ensures
            r == self@.len(),
    {
        self.vals.len()
    }

    /// The value stored at `index`.
    pub fn value_at(&self, index: usize) -> (r: T)
        requires
            index < self@.len(),
        ensures
            r == self@[index as int],
    {
        self.vals[index]
    }

    /// Selects the value at `index`.
    pub fn by_index(&self, index: usize) -> (r: Choice<T>)
        requires
            index < self@.len(),
        ensures
            r.wf(),
            r.values() == self@,
            r.idx() == index,
    {
        Choice { choice_set: self.clone(), index }
    }

    /// Selects the first value equal to `value`, which must be present.
    pub fn by_value(&self, value: T) -> (r: Choice<T>) where T: PartialEq
        requires
            T::obeys_eq_spec(),
            exists|i: int| 0 <= i < self@.len() && self@[i].eq_spec(&value),
        ensures
            r.wf(),
            r.values() == self@,
            self@[r.idx() as int].eq_spec(&value),
            forall|j: int| 0 <= j < r.idx() ==> !self@[j].eq_spec(&value),
    {
        let mut i: usize = 0;
        loop
            invariant
                T::obeys_eq_spec(),
                i <= self@.len(),
                exists|k: int| 0 <= k < self@.len() && self@[k].eq_spec(&value),
                forall|j: int| 0 <= j < i ==> !self@[j].eq_spec(&value),
            decreases self@.len() - i,
        {
            if i == self.vals.len() {
                // Unreachable: a matching value exists beyond every rejected
                // prefix, so the scan stops before running off the end.
                assert(false);
            }
            if self.vals[i] == value {
                return self.by_index(i);
            }
            i += 1;
        }
    }
}

impl<T: Copy> View for Choice<T> {
    type V = (Seq<T>, int);

    open spec fn view(&self) -> (Seq<T>, int) {
        (self.choice_set@, self.index as int)
    }
}

impl<T: Copy> Clone for Choice<T> {
    fn clone(&self) -> (r: Self)
        ensures
            r@ == self@,
    {
        Choice { choice_set: self.choice_set.clone(), index: self.index }
    }
}

impl<T: Copy> Choice<T> {
    /// A `Choice` is well formed when its index lies inside its set.
    pub open spec fn wf(&self) -> bool {
        self.index < self.choice_set@.len()
    }

    /// The values of the underlying set.
    pub open spec fn values(&self) -> Seq<T> {
        self.choice_set@
    }

    /// The selected index.
    pub open spec fn idx(&self) -> int {
        self.index as int
    }

    /// The selected value.
    pub fn get(&self) -> (r: T)
        requires
            self.wf(),
        ensures
            r == self.values()[self.idx()],
    {
        self.choice_set.vals[self.index]
    }

    /// The selected index.
    pub fn index(&self) -> (r: usize)
        ensures
            r == self.idx(),
    {
        self.index
    }

    /// A copy of the underlying set.
    pub fn choice_set(&self) -> (r: ChoiceSet<T>)
        ensures
            r@ == self.values(),
    {
        self.choice_set.clone()
    }

    /// The selection one step later, clamped at the last value.
    #[must_use]
    pub fn next(&self) -> (r: Self)
        requires
            self.wf(),
        ensures
            r.wf(),
            r.values() == self.values(),
            r.idx() == if self.idx() + 1 < self.values().len() {
                self.idx() + 1
            } else {
                self.idx()
            },
    {
        let n = self.choice_set.len();
        let mut index = self.index;
        if index + 1 < n {
            index += 1;
        }
        self.choice_set.by_index(index)
    }

    /// The selection one step earlier, clamped at the first value.
    #[must_use]
    pub fn prev(&self) -> (r: Self)
        requires
            self.wf(),
        ensures
            r.wf(),
            r.values() == self.values(),
            r.idx() == if self.idx() > 0 {
                self.idx() - 1
            } else {
                0
            },
    {
        let mut index = self.index;
        if index > 0 {
            index -= 1;
        }
        self.choice_set.by_index(index)
    }

    /// The selection one step later, wrapping past the last value.
    #[must_use]
    pub fn circular_next(&self) -> (r: Self)
        requires
            self.wf(),
        ensures
            r.wf(),
            r.values() == self.values(),
            r.idx() == (self.idx() + 1) % (self.values().len() as int),
    {
        let n = self.choice_set.len();
        let index = if self.index + 1 < n {
            self.index + 1
        } else {
            0
        };
        proof {
            let len = self.values().len() as int;
            if self.idx() + 1 < len {
                vstd::arithmetic::div_mod::lemma_small_mod((self.idx() + 1) as nat, len as nat);
            } else {
                vstd::arithmetic::div_mod::lemma_mod_self_0(len);
            }
        }
        self.choice_set.by_index(index)
    }

    /// The selection one step earlier, wrapping past the first value.
    #[must_use]
    pub fn circular_prev(&self) -> (r: Self)
        requires
            self.wf(),
        ensures
            r.wf(),
            r.values() == self.values(),
            r.idx() == (self.idx() + self.values().len() - 1) % (self.values().len() as int),
    {
        let index = if self.index > 0 {
            self.index - 1
        } else {
            self.choice_set.len() - 1
        };
        proof {
            let len = self.values().len() as int;
            if self.idx() > 0 {
                vstd::arithmetic::div_mod::lemma_mod_multiples_vanish(1, self.idx() - 1, len);
                vstd::arithmetic::div_mod::lemma_small_mod((self.idx() - 1) as nat, len as nat);
            } else {
                vstd::arithmetic::div_mod::lemma_small_mod((len - 1) as nat, len as nat);
            }
        }
        self.choice_set.by_index(index)
    }
}

} // verus!
