//! Feeding values into std's `DefaultHasher`.
//!
//! `DefaultHasher::new` and `DefaultHasher::finish` carry vstd's own
//! specifications: a hasher's view is the sequence of writes made into it,
//! and `finish` is a function of that sequence. Feeding a value through its
//! `Hash` impl appends the writes that the impl makes, which are named
//! below. `DefaultHasher::new` is not seeded, so these writes depend on the
//! value alone, for the target the program is built for (the discriminant
//! of an `Option` is written at the target's word size and byte order).

use std::hash::{DefaultHasher, Hash};
use vstd::prelude::*;

verus! {

/// The writes that `<str as Hash>::hash` makes into a `DefaultHasher` for
/// the text `s`.
pub uninterp spec fn str_hash_writes(s: Seq<char>) -> Seq<Seq<u8>>;

/// The writes that `<Option<&str> as Hash>::hash` makes into a
/// `DefaultHasher` for `v`.
pub uninterp spec fn opt_str_hash_writes(v: Option<Seq<char>>) -> Seq<Seq<u8>>;

/// `<str as Hash>::hash` on a `DefaultHasher` (a `String` hashes the same
/// way): the writes for `s` are appended to the hasher's.
#[verifier::external_body]
pub(crate) fn hash_str(state: &mut DefaultHasher, s: &str)
    ensures
        final(state)@ == old(state)@ + str_hash_writes(s@),
{
    s.hash(state)
}

/// `<Option<&str> as Hash>::hash` on a `DefaultHasher` (an `Option<String>`
/// or `Option<&String>` hashes the same way): the writes for `v` are
/// appended to the hasher's.
#[verifier::external_body]
pub(crate) fn hash_opt_str(state: &mut DefaultHasher, v: Option<&str>)
    ensures
        final(state)@ == old(state)@ + opt_str_hash_writes(
            match v {
                Some(s) => Some(s@),
                None => None,
            },
        ),
{
    v.hash(state)
}

} // verus!
