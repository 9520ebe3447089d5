use vstd::prelude::*;

use crate::path::KeyPathIndexable;

verus! {

/// Writes `v` at the end of the path `kp` inside `c` and hands back the value it replaced.
/// Afterwards the path still exists, reading it gives `v`, and the rest of `c` is unchanged.
pub fn replace_at<C, K>(c: &mut C, kp: K, v: <C as KeyPathIndexable<K>>::Output) -> (prev: <C as KeyPathIndexable<K>>::Output) where
    C: KeyPathIndexable<K>,

    requires
        <C as KeyPathIndexable<K>>::kp_valid(&*old(c)),
    ensures
        prev == <C as KeyPathIndexable<K>>::kp_get(&*old(c)),
        <C as KeyPathIndexable<K>>::kp_valid(&*final(c)),
        <C as KeyPathIndexable<K>>::kp_get(&*final(c)) == v,
        <C as KeyPathIndexable<K>>::kp_frame(&*old(c), &*final(c)),
{
    let slot = <C as KeyPathIndexable<K>>::idx_mut(c, kp);
    let mut v = v;
    core::mem::swap(slot, &mut v);
    v
}

} // verus!
