use vstd::prelude::*;

use crate::path::{Aggregator, KeyPathIndexable};

verus! {

/// Composition is associative: for steps `A`, `B`, `C` taken in that order, the path
/// `(A then B) then C`, encoded `(C, (B, A))`, and the path `A then (B then C)`, encoded
/// `((C, B), A)`, have the same result type, exist on the same values, reach the same value
/// and leave the same remainder untouched.
pub proof fn lemma_compose_assoc<X, A: 'static, B: 'static, C: 'static>(x: X, y: X) where
    X: KeyPathIndexable<A>,
    <X as KeyPathIndexable<A>>::Output: KeyPathIndexable<B>,
    <<X as KeyPathIndexable<A>>::Output as KeyPathIndexable<B>>::Output: KeyPathIndexable<C>,

    ensures
        <X as KeyPathIndexable<(C, (B, A))>>::kp_valid(&x) <==> <X as KeyPathIndexable<
            ((C, B), A),
        >>::kp_valid(&x),
        <X as KeyPathIndexable<(C, (B, A))>>::kp_get(&x) == <X as KeyPathIndexable<
            ((C, B), A),
        >>::kp_get(&x),
        <X as KeyPathIndexable<(C, (B, A))>>::kp_frame(&x, &y) <==> <X as KeyPathIndexable<
            ((C, B), A),
        >>::kp_frame(&x, &y),
{
}

/// A built path is interchangeable with the bare token it wraps: both exist on the same
/// values, reach the same value and leave the same remainder untouched.
pub proof fn lemma_aggregator_transparent<X, T: 'static>(x: X, y: X) where
    X: KeyPathIndexable<T>,

    ensures
        <X as KeyPathIndexable<Aggregator<T>>>::kp_valid(&x) <==> <X as KeyPathIndexable<
            T,
        >>::kp_valid(&x),
        <X as KeyPathIndexable<Aggregator<T>>>::kp_get(&x) == <X as KeyPathIndexable<T>>::kp_get(
            &x,
        ),
        <X as KeyPathIndexable<Aggregator<T>>>::kp_frame(&x, &y) <==> <X as KeyPathIndexable<
            T,
        >>::kp_frame(&x, &y),
{
}

} // verus!
