use vstd::prelude::*;

use crate::path::{KeyPath, KeyPathIndexable};

verus! {

/// A width and a height.
pub struct Vec2 {
    pub height: u16,
    pub width: u16,
}

/// A person: age, name and body dimensions.
pub struct Person {
    pub age: usize,
    pub name: String,
    pub dimensions: Vec2,
}

/// A family, reached through its mother.
pub struct Family {
    pub mom: Person,
}

// Field constants and projections, one per named field, in the form the `Keyable` generator
// emits: each field's identifier is its declaration position.
#[allow(non_upper_case_globals)]
impl Vec2 {
    pub const height: KeyPath<0> = KeyPath;

    pub const width: KeyPath<1> = KeyPath;
}

#[allow(non_upper_case_globals)]
impl Person {
    pub const age: KeyPath<0> = KeyPath;

    pub const name: KeyPath<1> = KeyPath;

    pub const dimensions: KeyPath<2> = KeyPath;
}

#[allow(non_upper_case_globals)]
impl Family {
    pub const mom: KeyPath<0> = KeyPath;
}

impl KeyPathIndexable<KeyPath<0>> for Vec2 {
    type Output = u16;

    open spec fn kp_valid(&self) -> bool {
        true
    }

    open spec fn kp_get(&self) -> u16 {
        self.height
    }

    open spec fn kp_frame(&self, other: &Self) -> bool {
        other.width == self.width
    }

    fn idx_ref(&self, kp: KeyPath<0>) -> (r: &u16) {
        &self.height
    }

    fn idx_mut(&mut self, kp: KeyPath<0>) -> (r: &mut u16) {
        &mut self.height
    }

    fn idx(self, kp: KeyPath<0>) -> (r: u16) {
        self.height
    }
}

impl KeyPathIndexable<KeyPath<1>> for Vec2 {
    type Output = u16;

    open spec fn kp_valid(&self) -> bool {
        true
    }

    open spec fn kp_get(&self) -> u16 {
        self.width
    }

    open spec fn kp_frame(&self, other: &Self) -> bool {
        other.height == self.height
    }

    fn idx_ref(&self, kp: KeyPath<1>) -> (r: &u16) {
        &self.width
    }

    fn idx_mut(&mut self, kp: KeyPath<1>) -> (r: &mut u16) {
        &mut self.width
    }

    fn idx(self, kp: KeyPath<1>) -> (r: u16) {
        self.width
    }
}

impl KeyPathIndexable<KeyPath<0>> for Person {
    type Output = usize;

    open spec fn kp_valid(&self) -> bool {
        true
    }

    open spec fn kp_get(&self) -> usize {
        self.age
    }

    open spec fn kp_frame(&self, other: &Self) -> bool {
        other.name == self.name && other.dimensions == self.dimensions
    }

    fn idx_ref(&self, kp: KeyPath<0>) -> (r: &usize) {
        &self.age
    }

    fn idx_mut(&mut self, kp: KeyPath<0>) -> (r: &mut usize) {
        &mut self.age
    }

    fn idx(self, kp: KeyPath<0>) -> (r: usize) {
        self.age
    }
}

impl KeyPathIndexable<KeyPath<1>> for Person {
    type Output = String;

    open spec fn kp_valid(&self) -> bool {
        true
    }

    open spec fn kp_get(&self) -> String {
        self.name
    }

    open spec fn kp_frame(&self, other: &Self) -> bool {
        other.age == self.age && other.dimensions == self.dimensions
    }

    fn idx_ref(&self, kp: KeyPath<1>) -> (r: &String) {
        &self.name
    }

    fn idx_mut(&mut self, kp: KeyPath<1>) -> (r: &mut String) {
        &mut self.name
    }

    fn idx(self, kp: KeyPath<1>) -> (r: String) {
        self.name
    }
}

impl KeyPathIndexable<KeyPath<2>> for Person {
    type Output = Vec2;

    open spec fn kp_valid(&self) -> bool {
        true
    }

    open spec fn kp_get(&self) -> Vec2 {
        self.dimensions
    }

    open spec fn kp_frame(&self, other: &Self) -> bool {
        other.age == self.age && other.name == self.name
    }

    fn idx_ref(&self, kp: KeyPath<2>) -> (r: &Vec2) {
        &self.dimensions
    }

    fn idx_mut(&mut self, kp: KeyPath<2>) -> (r: &mut Vec2) {
        &mut self.dimensions
    }

    fn idx(self, kp: KeyPath<2>) -> (r: Vec2) {
        self.dimensions
    }
}

impl KeyPathIndexable<KeyPath<0>> for Family {
    type Output = Person;

    open spec fn kp_valid(&self) -> bool {
        true
    }

    open spec fn kp_get(&self) -> Person {
        self.mom
    }

    open spec fn kp_frame(&self, other: &Self) -> bool {
        true
    }

    fn idx_ref(&self, kp: KeyPath<0>) -> (r: &Person) {
        &self.mom
    }

    fn idx_mut(&mut self, kp: KeyPath<0>) -> (r: &mut Person) {
        &mut self.mom
    }

    fn idx(self, kp: KeyPath<0>) -> (r: Person) {
        self.mom
    }
}

/// Each field constant projects onto exactly its own field (by reference, by mutable reference
/// and by value alike, since all three flavors return `kp_get`), and a write through it leaves
/// every other field of the container as it was.
pub proof fn lemma_field_tokens(v: Vec2, w: Vec2, p: Person, q: Person, f: Family)
    ensures
        <Vec2 as KeyPathIndexable<KeyPath<0>>>::kp_get(&v) == v.height,
        <Vec2 as KeyPathIndexable<KeyPath<1>>>::kp_get(&v) == v.width,
        <Person as KeyPathIndexable<KeyPath<0>>>::kp_get(&p) == p.age,
        <Person as KeyPathIndexable<KeyPath<1>>>::kp_get(&p) == p.name,
        <Person as KeyPathIndexable<KeyPath<2>>>::kp_get(&p) == p.dimensions,
        <Family as KeyPathIndexable<KeyPath<0>>>::kp_get(&f) == f.mom,
        <Vec2 as KeyPathIndexable<KeyPath<0>>>::kp_frame(&v, &w) <==> w.width == v.width,
        <Vec2 as KeyPathIndexable<KeyPath<1>>>::kp_frame(&v, &w) <==> w.height == v.height,
        <Person as KeyPathIndexable<KeyPath<0>>>::kp_frame(&p, &q) <==> (q.name == p.name
            && q.dimensions == p.dimensions),
        <Person as KeyPathIndexable<KeyPath<1>>>::kp_frame(&p, &q) <==> (q.age == p.age
            && q.dimensions == p.dimensions),
        <Person as KeyPathIndexable<KeyPath<2>>>::kp_frame(&p, &q) <==> (q.age == p.age && q.name
            == p.name),
{
}

} // verus!
