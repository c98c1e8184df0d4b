use vstd::prelude::*;

verus! {

/// A minimal sequence of free page numbers with last-in, first-out
/// access: elements are appended at the tail and removed from the tail,
/// so the most recently freed page is reused first.
///
/// The free sequence is held in an index-based table rather than as a
/// chain of separately owned nodes; the observable operations — append
/// at the tail, drop the tail, read the tail — and their LIFO order are
/// unchanged.
pub struct List<T> {
    /// The elements, oldest first.
    pub elems: Vec<T>,
}

impl<T> View for List<T> {
    type V = Seq<T>;

    open spec fn view(&self) -> Seq<T> {
        self.elems@
    }
}

impl<T> List<T> {
    /// An empty list.
    pub fn new() -> (l: List<T>)
        ensures
            l@ == Seq::<T>::empty(),
    {
        List { elems: Vec::new() }
    }

    /// The last (most recently pushed) element, or `None` when the list
    /// is empty.
    pub fn get_last_value(&self) -> (r: Option<&T>)
        ensures
            match r {
                Some(v) => self@.len() > 0 && *v == self@.last(),
                None => self@.len() == 0,
            },
    {
        let n = self.elems.len();
        if n == 0 {
            None
        } else {
            Some(&self.elems[n - 1])
        }
    }

    /// Append `elem` at the tail.
    pub fn push(&mut self, elem: T)
        ensures
            final(self)@ == old(self)@.push(elem),
    {
        self.elems.push(elem);
    }

    /// Remove the tail element; on an empty list this does nothing.
    pub fn pop(&mut self)
        ensures
            old(self)@.len() == 0 ==> final(self)@ == old(self)@,
            old(self)@.len() > 0 ==> final(self)@ == old(self)@.drop_last(),
    {
        if self.elems.len() > 0 {
            let _ = self.elems.pop();
        }
    }

    /// How many elements the list holds.
    pub fn len(&self) -> (n: usize)
        ensures
            n == self@.len(),
    {
        self.elems.len()
    }
}

} // verus!
