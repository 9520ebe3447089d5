use vstd::prelude::*;

verus! {

/// A single field-based step. `NAME` identifies the field within its container; the
/// generated field constants use the field's declaration position.
#[derive(Copy, Clone)]
pub struct KeyPath<const NAME: u64>;

/// A single position-based step into a sequence.
#[derive(Copy, Clone)]
pub struct UsizeKeyPath<const N: usize>;

/// A path under construction. `path` holds the composite token built so far, as nested pairs
/// `(last_step, earlier_steps)`: the right component is applied first, so a triply-nested
/// path is `Aggregator<(T1, (T2, T3))>`, where `T3` is applied to the root, then `T2`, then `T1`.
#[derive(Copy, Clone)]
pub struct Aggregator<T> {
    pub path: T,
}

impl<T> Aggregator<T> {
    /// Wraps an already-built path.
    pub fn new(path: T) -> (r: Self)
        ensures
            r.path == path,
    {
        Aggregator { path }
    }

    /// Extends the path one step deeper, into the field identified by `NAME`.
    pub fn kp<const NAME: u64>(self) -> (r: Aggregator<(KeyPath<NAME>, T)>)
        ensures
            r.path.1 == self.path,
    {
        Aggregator::new((KeyPath, self.path))
    }

    /// Extends the path one step deeper, into the item at position `N`.
    pub fn idx<const N: usize>(self) -> (r: Aggregator<(UsizeKeyPath<N>, T)>)
        ensures
            r.path.1 == self.path,
    {
        Aggregator::new((UsizeKeyPath, self.path))
    }

    /// Extends the path by a whole further path (a field constant, or another built path).
    pub fn chain<K>(self, next: K) -> (r: Aggregator<(K, T)>)
        ensures
            r.path == (next, self.path),
    {
        Aggregator::new((next, self.path))
    }
}

impl<const NAME: u64> KeyPath<NAME> {
    /// Starts a two-step path: this field, then the field identified by `N2` inside it.
    pub fn kp<const N2: u64>(self) -> (r: Aggregator<(KeyPath<N2>, Self)>)
        ensures
            r.path.1 == self,
    {
        Aggregator::new((KeyPath, self))
    }

    /// Starts a two-step path: this field, then the item at position `N` inside it.
    pub fn idx<const N: usize>(self) -> (r: Aggregator<(UsizeKeyPath<N>, Self)>)
        ensures
            r.path.1 == self,
    {
        Aggregator::new((UsizeKeyPath, self))
    }

    /// Starts a path: this field, then the whole path `next` inside it.
    pub fn chain<K>(self, next: K) -> (r: Aggregator<(K, Self)>)
        ensures
            r.path == (next, self),
    {
        Aggregator::new((next, self))
    }
}

impl<const N: usize> UsizeKeyPath<N> {
    /// Starts a two-step path: this position, then the field identified by `NAME` inside it.
    pub fn kp<const NAME: u64>(self) -> (r: Aggregator<(KeyPath<NAME>, Self)>)
        ensures
            r.path.1 == self,
    {
        Aggregator::new((KeyPath, self))
    }

    /// Starts a two-step path: this position, then the item at position `N2` inside it.
    pub fn idx<const N2: usize>(self) -> (r: Aggregator<(UsizeKeyPath<N2>, Self)>)
        ensures
            r.path.1 == self,
    {
        Aggregator::new((UsizeKeyPath, self))
    }

    /// Starts a path: this position, then the whole path `next` inside it.
    pub fn chain<K>(self, next: K) -> (r: Aggregator<(K, Self)>)
        ensures
            r.path == (next, self),
    {
        Aggregator::new((next, self))
    }

    /// Removes the item at position `N`, shifting every later item down by one.
    pub fn remove_from<T>(self, v: &mut Vec<T>) -> (r: T)
        requires
            N < old(v).len(),
        ensures
            r == old(v)@[N as int],
            final(v)@ == old(v)@.remove(N as int),
    {
        v.remove(N)
    }
}

/// Projection of a container through the path `K`, in three ownership flavors: by shared
/// reference, by mutable reference, and by value.
///
/// `kp_valid` says the path exists in a value (every position along it is in bounds),
/// `kp_get` is the value found at its end, and `kp_frame(a, b)` says that `b` agrees with `a`
/// everywhere except possibly at the end of the path.
pub trait KeyPathIndexable<K>: Sized {
    /// The type found at the end of the path.
    type Output;

    spec fn kp_valid(&self) -> bool;

    spec fn kp_get(&self) -> Self::Output;

    spec fn kp_frame(&self, other: &Self) -> bool;

    /// Borrows the value at the end of the path.
    fn idx_ref(&self, kp: K) -> (r: &Self::Output)
        requires
            <Self as KeyPathIndexable<K>>::kp_valid(self),
        ensures
            *r == <Self as KeyPathIndexable<K>>::kp_get(self),
    ;

    /// Borrows the value at the end of the path mutably. Whatever is written through the
    /// result is what the path reads afterwards, and nothing else in the container changes.
    fn idx_mut(&mut self, kp: K) -> (r: &mut Self::Output)
        requires
            <Self as KeyPathIndexable<K>>::kp_valid(&*old(self)),
        ensures
            *r == <Self as KeyPathIndexable<K>>::kp_get(&*old(self)),
            <Self as KeyPathIndexable<K>>::kp_valid(&*final(self)),
            <Self as KeyPathIndexable<K>>::kp_get(&*final(self)) == *final(r),
            <Self as KeyPathIndexable<K>>::kp_frame(&*old(self), &*final(self)),
    ;

    /// Consumes the container and returns the value at the end of the path.
    fn idx(self, kp: K) -> (r: Self::Output)
        requires
            <Self as KeyPathIndexable<K>>::kp_valid(&self),
        ensures
            r == <Self as KeyPathIndexable<K>>::kp_get(&self),
    ;
}

/// Composition: the pair `(T1, T2)` applies `T2` to the container, then `T1` to what `T2`
/// reached. This one rule, for all three flavors, covers paths of any depth.
impl<T1: 'static, T2: 'static, I> KeyPathIndexable<(T1, T2)> for I where
    I: KeyPathIndexable<T2>,
    <I as KeyPathIndexable<T2>>::Output: KeyPathIndexable<T1>,
 {
    type Output = <<I as KeyPathIndexable<T2>>::Output as KeyPathIndexable<T1>>::Output;

    open spec fn kp_valid(&self) -> bool {
        &&& <I as KeyPathIndexable<T2>>::kp_valid(self)
        &&& <I as KeyPathIndexable<T2>>::Output::kp_valid(
            &<I as KeyPathIndexable<T2>>::kp_get(self),
        )
    }

    open spec fn kp_get(&self) -> Self::Output {
        <I as KeyPathIndexable<T2>>::Output::kp_get(&<I as KeyPathIndexable<T2>>::kp_get(self))
    }

    open spec fn kp_frame(&self, other: &Self) -> bool {
        &&& <I as KeyPathIndexable<T2>>::kp_frame(self, other)
        &&& <I as KeyPathIndexable<T2>>::Output::kp_frame(
            &<I as KeyPathIndexable<T2>>::kp_get(self),
            &<I as KeyPathIndexable<T2>>::kp_get(other),
        )
    }

    fn idx_ref(&self, kp: (T1, T2)) -> (r: &Self::Output) {
        let (outer, inner) = kp;
        let mid = <I as KeyPathIndexable<T2>>::idx_ref(self, inner);
        <I as KeyPathIndexable<T2>>::Output::idx_ref(mid, outer)
    }

    fn idx_mut(&mut self, kp: (T1, T2)) -> (r: &mut Self::Output) {
        let (outer, inner) = kp;
        let mid = <I as KeyPathIndexable<T2>>::idx_mut(self, inner);
        <I as KeyPathIndexable<T2>>::Output::idx_mut(mid, outer)
    }

    fn idx(self, kp: (T1, T2)) -> (r: Self::Output) {
        let (outer, inner) = kp;
        let mid = <I as KeyPathIndexable<T2>>::idx(self, inner);
        <I as KeyPathIndexable<T2>>::Output::idx(mid, outer)
    }
}

/// Positions in a vector. By value, the item is removed and the later items shift down.
impl<T, const N: usize> KeyPathIndexable<UsizeKeyPath<N>> for Vec<T> {
    type Output = T;

    open spec fn kp_valid(&self) -> bool {
        N < self.len()
    }

    open spec fn kp_get(&self) -> T {
        self@[N as int]
    }

    open spec fn kp_frame(&self, other: &Self) -> bool {
        &&& other.len() == self.len()
        &&& forall|i: int| 0 <= i < self.len() && i != N ==> #[trigger] other@[i] == self@[i]
    }

    fn idx_ref(&self, kp: UsizeKeyPath<N>) -> (r: &T) {
        &self[N]
    }

    fn idx_mut(&mut self, kp: UsizeKeyPath<N>) -> (r: &mut T) {
        &mut self[N]
    }

    fn idx(self, kp: UsizeKeyPath<N>) -> (r: T) {
        let mut v = self;
        kp.remove_from(&mut v)
    }
}

/// A built path projects exactly as the path it holds.
impl<T: 'static, I> KeyPathIndexable<Aggregator<T>> for I where I: KeyPathIndexable<T> {
    type Output = <I as KeyPathIndexable<T>>::Output;

    open spec fn kp_valid(&self) -> bool {
        <I as KeyPathIndexable<T>>::kp_valid(self)
    }

    open spec fn kp_get(&self) -> Self::Output {
        <I as KeyPathIndexable<T>>::kp_get(self)
    }

    open spec fn kp_frame(&self, other: &Self) -> bool {
        <I as KeyPathIndexable<T>>::kp_frame(self, other)
    }

    fn idx_ref(&self, kp: Aggregator<T>) -> (r: &Self::Output) {
        <I as KeyPathIndexable<T>>::idx_ref(self, kp.path)
    }

    fn idx_mut(&mut self, kp: Aggregator<T>) -> (r: &mut Self::Output) {
        <I as KeyPathIndexable<T>>::idx_mut(self, kp.path)
    }

    fn idx(self, kp: Aggregator<T>) -> (r: Self::Output) {
        <I as KeyPathIndexable<T>>::idx(self, kp.path)
    }
}

/// A value that can be turned into a `T`; holds only for `T` itself, which lets a signature
/// demand that two types be the same.
pub trait TypeEquals<T>: Sized {
    spec fn to_type_spec(self) -> T;

    fn to_type(self) -> (r: T)
        ensures
            r == self.to_type_spec(),
    ;
}

impl<T> TypeEquals<T> for T {
    open spec fn to_type_spec(self) -> T {
        self
    }

    fn to_type(self) -> (r: T) {
        self
    }
}

} // verus!
