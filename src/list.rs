use vstd::prelude::*;

verus! {

/// A read-only, ordered view of a list that someone else owns; it cannot
/// outlive the list it borrows from, and it never frees anything.
#[derive(Debug)]
pub struct AlpmList<'a, T> {
    items: &'a [T],
}

impl<'a, T> View for AlpmList<'a, T> {
    type V = Seq<T>;

    closed spec fn view(&self) -> Seq<T> {
        self.items@
    }
}

impl<'a, T> AlpmList<'a, T> {
    /// A view of the items of `items`, in order.
    pub fn from_slice(items: &'a [T]) -> (r: AlpmList<'a, T>)
        ensures
            r@ == items@,
    {
        AlpmList { items }
    }

    /// The number of items.
    pub fn len(&self) -> (r: usize)
        ensures
            r == self@.len(),
    {
        self.items.len()
    }

    /// Whether the list has no item.
    pub fn is_empty(&self) -> (r: bool)
        ensures
            r == (self@.len() == 0),
    {
        self.items.len() == 0
    }

    /// The item at `i`, if the list is that long.
    pub fn get(&self, i: usize) -> (r: Option<&'a T>)
        ensures
            i < self@.len() ==> r == Some(&self@[i as int]),
            i >= self@.len() ==> r is None,
    {
        if i < self.items.len() {
            Some(&self.items[i])
        } else {
            None
        }
    }

    /// The first item, if any.
    pub fn first(&self) -> (r: Option<&'a T>)
        ensures
            self@.len() > 0 ==> r == Some(&self@[0]),
            self@.len() == 0 ==> r is None,
    {
        self.get(0)
    }

    /// The items, in order, to walk through as often as needed.
    pub fn as_slice(&self) -> (r: &'a [T])
        ensures
            r@ == self@,
    {
        self.items
    }
}

/// An ordered list that this side owns: it frees its items when dropped, can
/// grow, hands out borrowed views of itself and gives up its items whole.
#[derive(Debug)]
pub struct AlpmListMut<T> {
    items: Vec<T>,
}

impl<T> View for AlpmListMut<T> {
    type V = Seq<T>;

    closed spec fn view(&self) -> Seq<T> {
        self.items@
    }
}

impl<T> AlpmListMut<T> {
    /// An empty list.
    pub fn new() -> (r: AlpmListMut<T>)
        ensures
            r@ == Seq::<T>::empty(),
    {
        AlpmListMut { items: Vec::new() }
    }

    /// The list that holds the items of `items`, in order.
    pub fn from_vec(items: Vec<T>) -> (r: AlpmListMut<T>)
        ensures
            r@ == items@,
    {
        AlpmListMut { items }
    }

    /// Adds an item at the end.
    pub fn push(&mut self, item: T)
        ensures
            final(self)@ == old(self)@.push(item),
    {
        self.items.push(item);
    }

    /// The number of items.
    pub fn len(&self) -> (r: usize)
        ensures
            r == self@.len(),
    {
        self.items.len()
    }

    /// Whether the list has no item.
    pub fn is_empty(&self) -> (r: bool)
        ensures
            r == (self@.len() == 0),
    {
        self.items.len() == 0
    }

    /// A borrowed view of the list, valid while the list is not changed.
    pub fn list(&self) -> (r: AlpmList<'_, T>)
        ensures
            r@ == self@,
    {
        AlpmList::from_slice(self.items.as_slice())
    }

    /// The items, in order, handed over to the caller.
    pub fn into_vec(self) -> (r: Vec<T>)
        ensures
            r@ == self@,
    {
        self.items
    }
}

} // verus!
