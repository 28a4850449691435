//! A vector whose items are found by an identity that names an index.

use std::marker::PhantomData;
use vstd::prelude::*;

verus! {

/// An identity that names an index of a vector.
pub trait Id: Sized {
    /// The index that the identity names.
    spec fn index(self) -> usize;

    /// The index that the identity names.
    fn id(self) -> (i: usize)
        ensures
            i == self.index(),
    ;
}

/// A vector of items that are found by their identities.
pub struct IdVec<I: Id, T>(Vec<T>, PhantomData<I>);

impl<I: Id, T> View for IdVec<I, T> {
    type V = Seq<T>;

    closed spec fn view(&self) -> Seq<T> {
        self.0@
    }
}

impl<I: Id, T> IdVec<I, T> {
    /// The item that `index` names.
    pub fn index(&self, index: I) -> (item: &T)
        requires
            index.index() < self@.len(),
        ensures
            *item == self@[index.index() as int],
    {
        &self.0[index.id()]
    }

    /// The item that `index` names, to be changed in place.
    pub fn index_mut(&mut self, index: I) -> (item: &mut T)
        requires
            index.index() < old(self)@.len(),
        ensures
            *item == old(self)@[index.index() as int],
            final(self)@ == old(self)@.update(index.index() as int, *final(item)),
    {
        let i: usize = index.id();
        &mut self.0[i]
    }

    /// The items as a vector.
    pub fn deref(&self) -> (items: &Vec<T>)
        ensures
            items@ == self@,
    {
        &self.0
    }

    /// The items as a vector, to be changed in place.
    pub fn deref_mut(&mut self) -> (items: &mut Vec<T>)
        ensures
            items@ == old(self)@,
            final(self)@ == final(items)@,
    {
        &mut self.0
    }

    /// The vector `vec` with its items to be found by identities.
    pub fn from(vec: Vec<T>) -> (items: IdVec<I, T>)
        ensures
            items@ == vec@,
    {
        IdVec(vec, PhantomData)
    }
}

} // verus!
