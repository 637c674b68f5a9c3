//! Looking up an element of a sequence by an index that is either signed or
//! unsigned, and resolving the lookups of a list of such indices to values.
pub mod driver;
pub mod lookup;
