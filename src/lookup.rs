//! The index descriptor and the lookup it selects.
use vstd::prelude::*;

verus! {

/// An index that is either a signed or an unsigned integer.
#[derive(Clone, Copy, Debug, PartialEq, Eq, Structural)]
pub enum IntValue {
    Signed(i32),
    Unsigned(usize),
}

/// What looking `d` up in `seq` gives: the element at an unsigned position;
/// nothing for a signed index, whatever its sign or magnitude.
pub open spec fn lookup_spec<T>(seq: Seq<T>, d: IntValue) -> Option<T> {
    match d {
        IntValue::Signed(_) => None,
        IntValue::Unsigned(i) => Some(seq[i as int]),
    }
}

/// A lookup is defined unless it reads past the end of the sequence.
pub open spec fn lookup_defined<T>(seq: Seq<T>, d: IntValue) -> bool {
    match d {
        IntValue::Signed(_) => true,
        IntValue::Unsigned(i) => i < seq.len(),
    }
}

/// Indexing a container by any kind of integer.
pub trait GetWithAnyInt<T>: Sized {
    /// Whether `value` may be looked up in `self`.
    spec fn spec_defined(&self, value: IntValue) -> bool;

    /// What looking `value` up in `self` returns.
    spec fn spec_get(&self, value: IntValue) -> Option<T>;

    #[allow(non_snake_case)]
    fn getWithAnyInt(&self, value: &IntValue) -> (r: Option<T>)
        requires
            self.spec_defined(*value),
        ensures
            r == self.spec_get(*value),
    ;
}

impl<T: Copy> GetWithAnyInt<T> for Vec<T> {
    open spec fn spec_defined(&self, value: IntValue) -> bool {
        lookup_defined(self@, value)
    }

    open spec fn spec_get(&self, value: IntValue) -> Option<T> {
        lookup_spec(self@, value)
    }

    #[allow(non_snake_case)]
    fn getWithAnyInt(&self, value: &IntValue) -> (r: Option<T>) {
        match value {
            IntValue::Signed(_) => None,
            IntValue::Unsigned(index) => Some(self[*index]),
        }
    }
}

/// An unsigned position within the bounds gives the element stored there.
pub proof fn lemma_unsigned_gives_element<T>(seq: Seq<T>, i: usize)
    requires
        i < seq.len(),
    ensures
        lookup_defined(seq, IntValue::Unsigned(i)),
        lookup_spec(seq, IntValue::Unsigned(i)) == Some(seq[i as int]),
{
}

/// A signed index gives nothing, non-negative ones included, whatever the
/// sequence holds.
pub proof fn lemma_signed_gives_none<T>(seq: Seq<T>, s: i32)
    ensures
        lookup_defined(seq, IntValue::Signed(s)),
        lookup_spec(seq, IntValue::Signed(s)) == None::<T>,
{
}

} // verus!
