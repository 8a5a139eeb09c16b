//! Padding of upload arrays to a whole number of four-element groups.

use vstd::prelude::*;

verus! {

/// Number of elements in one upload group.
pub const GROUP: usize = 4;

/// How many filler elements an array of `len` elements needs.
pub open spec fn fill_count(len: nat) -> nat {
    if len % 4 == 0 {
        0
    } else {
        (4 - len % 4) as nat
    }
}

/// Length of an array of `len` elements once padded.
pub open spec fn padded_len(len: nat) -> nat {
    len + fill_count(len)
}

/// `s` followed by as many copies of `fill` as padding asks for.
pub open spec fn padded<T>(s: Seq<T>, fill: T) -> Seq<T> {
    s + Seq::new(fill_count(s.len()), |i: int| fill)
}

/// Padding leaves alone what is already a whole number of groups.
pub proof fn lemma_padded_when_aligned<T>(s: Seq<T>, fill: T)
    requires
        s.len() % 4 == 0,
    ensures
        padded(s, fill) == s,
{
    assert(padded(s, fill) =~= s);
}

/// A padded array is a whole number of groups, is less than one group longer
/// than the array it was made from, and padding it again changes nothing.
pub proof fn lemma_padded_idempotent<T>(s: Seq<T>, fill: T)
    ensures
        padded(s, fill).len() == padded_len(s.len()),
        padded(s, fill).len() % 4 == 0,
        s.len() <= padded(s, fill).len() < s.len() + 4,
        padded(padded(s, fill), fill) == padded(s, fill),
{
    lemma_padded_when_aligned(padded(s, fill), fill);
}

/// Extends `v` with default values until its length is a multiple of four.
///
/// The old contents stay in place as a prefix; every appended element is a
/// value that `T::default()` may return.
pub fn align<T: Default + Clone>(v: &mut Vec<T>)
    ensures
        final(v)@.len() == padded_len(old(v)@.len()),
        forall|i: int| 0 <= i < old(v)@.len() ==> #[trigger] final(v)@[i] == old(v)@[i],
        old(v)@.len() % 4 == 0 ==> final(v)@ == old(v)@,
        forall|i: int|
            old(v)@.len() <= i < final(v)@.len() ==> call_ensures(
                T::default,
                (),
                #[trigger] final(v)@[i],
            ),
{
    let len: usize = v.len();
    let rem: usize = len % GROUP;
    if rem > 0 {
        let missing: usize = GROUP - rem;
        let mut added: usize = 0;
        while added < missing
            invariant
                added <= missing,
                missing == fill_count(old(v)@.len()),
                len == old(v)@.len(),
                v@.len() == len + added,
                forall|i: int| 0 <= i < len ==> #[trigger] v@[i] == old(v)@[i],
                forall|i: int|
                    len <= i < v@.len() ==> call_ensures(T::default, (), #[trigger] v@[i]),
            decreases missing - added,
        {
            let filler = T::default();
            v.push(filler);
            added += 1;
        }
    }
}

} // verus!
