use crate::finalizable::Finalizable;
use vstd::prelude::*;

verus! {

/// A sequence of at most one item: the payload of a `Finalizable`, yielded
/// once whatever its tag. Once exhausted it stays exhausted.
pub struct IntoIter<T> {
    item: Option<T>,
}

impl<T> View for IntoIter<T> {
    type V = Seq<T>;

    /// The items that are still to come.
    closed spec fn view(&self) -> Seq<T> {
        match self.item {
            Some(x) => seq![x],
            None => Seq::empty(),
        }
    }
}

impl<T> IntoIter<T> {
    /// Take the next item from the front; `None` once the sequence is exhausted.
    pub fn next(&mut self) -> (r: Option<T>)
        ensures
            old(self)@.len() == 0 ==> r is None && final(self)@ == old(self)@,
            old(self)@.len() > 0 ==> r == Some(old(self)@[0]) && final(self)@ == old(
                self,
            )@.drop_first(),
    {
        let r = self.item.take();
        proof {
            if old(self)@.len() > 0 {
                assert(old(self)@.drop_first() =~= Seq::<T>::empty());
            }
        }
        r
    }

    /// Take the next item from the back; `None` once the sequence is exhausted.
    pub fn next_back(&mut self) -> (r: Option<T>)
        ensures
            old(self)@.len() == 0 ==> r is None && final(self)@ == old(self)@,
            old(self)@.len() > 0 ==> r == Some(old(self)@.last()) && final(self)@ == old(
                self,
            )@.drop_last(),
    {
        let r = self.item.take();
        proof {
            if old(self)@.len() > 0 {
                assert(old(self)@.drop_last() =~= Seq::<T>::empty());
            }
        }
        r
    }

    /// The number of items still to come.
    pub fn len(&self) -> (r: usize)
        ensures
            r == self@.len(),
    {
        match &self.item {
            Some(_) => 1,
            None => 0,
        }
    }
}

impl<T> Finalizable<T> {
    /// The sequence that yields the payload, whatever the tag, and then ends.
    pub fn into_iter(self) -> (r: IntoIter<T>)
        ensures
            r@ == seq![self.value()],
    {
        IntoIter { item: Some(self.get()) }
    }

    /// The sequence that yields a reference to the payload, whatever the tag, and then ends.
    pub fn iter(&self) -> (r: IntoIter<&T>)
        ensures
            r@.len() == 1,
            *r@[0] == self.value(),
    {
        self.as_ref().into_iter()
    }

    /// The sequence that yields a mutable reference to the payload, whatever the tag,
    /// and then ends. What is written through it becomes the payload; the tag stays.
    pub fn iter_mut(&mut self) -> (r: IntoIter<&mut T>)
        ensures
            r@.len() == 1,
            *r@[0] == old(self).value(),
            (*final(self) is Finalized) == (*old(self) is Finalized),
            final(self).value() == *final(r@[0]),
    {
        let item = match self {
            Finalizable::Working(x) => x,
            Finalizable::Finalized(x) => x,
        };
        IntoIter { item: Some(item) }
    }
}

} // verus!
