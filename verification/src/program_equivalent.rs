use std::rc::Rc;
use vstd::prelude::*;

verus! {

/// Evaluate if programs are of the same shape rather than being exactly the same.
pub trait ProgramEquivalent {
    /// Whether `self` and `other` are of the same shape.
    spec fn equivalent(&self, other: &Self) -> bool;

    fn program_equivalent(&self, other: &Self) -> (r: bool)
        ensures
            r == self.equivalent(other),
    ;
}

/// Goes on only if `expected` and `actual` are of the same shape.
pub fn assert_equivalent<T: ProgramEquivalent>(expected: &T, actual: &T)
    requires
        expected.equivalent(actual),
{
    if !expected.program_equivalent(actual) {
        unreached()
    }
}

impl<T: ProgramEquivalent> ProgramEquivalent for Box<T> {
    open spec fn equivalent(&self, other: &Self) -> bool {
        (**self).equivalent(&**other)
    }

    fn program_equivalent(&self, b: &Self) -> (r: bool) {
        (**self).program_equivalent(&**b)
    }
}

impl<T: ProgramEquivalent> ProgramEquivalent for Option<T> {
    open spec fn equivalent(&self, other: &Self) -> bool {
        match (self, other) {
            (Some(a), Some(b)) => a.equivalent(b),
            (None, None) => true,
            _ => false,
        }
    }

    fn program_equivalent(&self, b: &Self) -> (r: bool) {
        match (self, b) {
            (Some(a), Some(b)) => a.program_equivalent(b),
            (None, None) => true,
            _ => false,
        }
    }
}

impl<T: ProgramEquivalent> ProgramEquivalent for Vec<T> {
    /// Two lists are of the same shape if their elements are, pair by pair,
    /// as far as both lists go.
    open spec fn equivalent(&self, other: &Self) -> bool {
        forall|i: int|
            0 <= i < self@.len() && i < other@.len() ==> (#[trigger] self@[i]).equivalent(
                &other@[i],
            )
    }

    fn program_equivalent(&self, b: &Self) -> (r: bool) {
        let mut i: usize = 0;
        while i < self.len() && i < b.len()
            invariant
                forall|j: int| 0 <= j < i ==> (#[trigger] self@[j]).equivalent(&b@[j]),
            decreases self@.len() - i,
        {
            if !self[i].program_equivalent(&b[i]) {
                return false;
            }
            i = i + 1;
        }
        true
    }
}

impl<T: ProgramEquivalent> ProgramEquivalent for Rc<T> {
    open spec fn equivalent(&self, other: &Self) -> bool {
        (**self).equivalent(&**other)
    }

    fn program_equivalent(&self, b: &Self) -> (r: bool) {
        (**self).program_equivalent(&**b)
    }
}

} // verus!
