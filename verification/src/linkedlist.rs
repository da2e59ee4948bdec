//! A singly linked list whose nodes each live in a heap allocation of their own.
//!
//! Every node is owned by exactly one link: the list's head slot, or the `next`
//! slot of the node before it. A chain of such links is therefore finite and
//! free of cycles by construction, and the whole list is described by one
//! mathematical value, the sequence of its elements from the head onward.
//! Each operation below says what it does to that sequence.

use vstd::prelude::*;

verus! {

/// An owning link: either the end of a chain, or the one owner of the node that follows.
type Link<T> = Option<Box<Node<T>>>;

/// One element of a list, together with the link to the element after it.
pub struct Node<T> {
    data: T,
    next: Link<T>,
}

/// The elements reachable through `link`, nearest first.
spec fn link_elements<T>(link: Link<T>) -> Seq<T>
    decreases link,
{
    match link {
        None => Seq::empty(),
        Some(node) => seq![node.data] + link_elements(node.next),
    }
}

/// Whether `copies` holds, position by position, a clone of each element of
/// `originals`.
///
/// `Clone` leaves it to the element type what a clone is, so this is as much as
/// can be said of a duplicated chain for an arbitrary `T`. For an element type
/// whose `clone` promises a result equal to its argument, it says that the two
/// sequences are equal.
pub open spec fn clones_of<T: Clone>(originals: Seq<T>, copies: Seq<T>) -> bool {
    &&& copies.len() == originals.len()
    &&& forall|i: int|
        #![trigger originals[i]]
        #![trigger copies[i]]
        0 <= i < originals.len() ==> cloned::<T>(originals[i], copies[i])
}

/// Whether a clone of a `T` always equals the value it was cloned from, as it
/// does for the integer types, `bool`, `char` and `String`.
pub open spec fn clone_is_exact<T: Clone>() -> bool {
    forall|original: T, copy: T| #[trigger] cloned::<T>(original, copy) ==> original == copy
}

/// The element that a list holding `items` has at its head, if it has one.
pub open spec fn front<T>(items: Seq<T>) -> Option<T> {
    if items.len() == 0 {
        None
    } else {
        Some(items.first())
    }
}

/// What is left of `items` once the head is taken off: everything behind it,
/// in the same order. Nothing can be taken off an empty list, which stays empty.
pub open spec fn rest<T>(items: Seq<T>) -> Seq<T> {
    if items.len() == 0 {
        items
    } else {
        items.drop_first()
    }
}

impl<T> View for Node<T> {
    type V = Seq<T>;

    /// The node's own element, then those of the nodes after it.
    closed spec fn view(&self) -> Seq<T> {
        seq![self.data] + link_elements(self.next)
    }
}

impl<T> Node<T> {
    /// A node that holds `data` and has no successor.
    fn new(data: T) -> (node: Self)
        ensures
            node.data == data,
            node.next is None,
            node@ == seq![data],
    {
        Node { data, next: None }
    }
}

impl<T: Clone> Clone for Node<T> {
    /// Duplicates the node and every node after it, element by element.
    fn clone(&self) -> (copy: Self)
        ensures
            clones_of(self@, copy@),
        decreases self,
    {
        let data = self.data.clone();
        let next = match &self.next {
            None => None,
            Some(boxed) => {
                let successor: &Node<T> = &**boxed;
                Some(Box::new(successor.clone()))
            },
        };
        Node { data, next }
    }
}

/// A singly linked list: an ordered sequence of elements, first element at the head.
pub struct LinkedList<T> {
    head: Link<T>,
}

impl<T> View for LinkedList<T> {
    type V = Seq<T>;

    /// The elements of the list, from the head to the last node.
    closed spec fn view(&self) -> Seq<T> {
        link_elements(self.head)
    }
}

impl<T> LinkedList<T> {
    /// An empty list.
    pub fn new() -> (list: Self)
        ensures
            list@ == Seq::<T>::empty(),
    {
        LinkedList { head: None }
    }

    /// Puts `data` in a new node in front of all others.
    ///
    /// The chain that was there moves, untouched, behind the new head.
    pub fn push_front(&mut self, data: T)
        ensures
            final(self)@ == seq![data] + old(self)@,
    {
        let mut new_node = Box::new(Node::new(data));
        new_node.next = self.head.take();
        self.head = Some(new_node)
    }

    /// Puts `data` in a new node behind all others.
    ///
    /// Walks from the head to the link that ends the chain and hangs the new
    /// node there, so the cost grows with the length of the list.
    pub fn push_back(&mut self, data: T)
        ensures
            final(self)@ == old(self)@.push(data),
    {
        // The elements of the nodes that `current` has already passed.
        let ghost mut passed: Seq<T> = Seq::empty();
        let mut current = &mut self.head;

        loop
            invariant
                passed + link_elements(*current) == old(self)@,
                link_elements(after_borrow(self.head)) == passed + link_elements(*final(current)),
            ensures
                *current is None,
            decreases *current,
        {
            match current {
                Some(node) => {
                    proof {
                        passed = passed.push(node.data);
                    }
                    current = &mut node.next;
                },
                None => break,
            }
        }

        *current = Some(Box::new(Node::new(data)));
    }

    /// Takes the head node off the list and returns its element, or returns
    /// `None` and leaves the list as it is when there is no node to take.
    ///
    /// The node after the head, if any, becomes the new head.
    pub fn pop_front(&mut self) -> (popped: Option<T>)
        ensures
            popped == front(old(self)@),
            final(self)@ == rest(old(self)@),
    {
        match self.head.take() {
            None => None,
            Some(node) => {
                let node = *node;
                self.head = node.next;
                Some(node.data)
            },
        }
    }

    /// An iterator over a copy of the list as it is now, head first.
    ///
    /// The whole chain is duplicated when the iterator is made, so the cost
    /// grows with the length of the list, and nothing done to the list
    /// afterwards shows in what the iterator hands out.
    pub fn iter(&self) -> (it: Iter<T>) where T: Clone
        ensures
            clones_of(self@, it@),
            clone_is_exact::<T>() ==> it@ == self@,
    {
        Iter { head: self.head.clone() }
    }
}

/// A forward iterator that owns the chain it walks.
pub struct Iter<T> {
    head: Link<T>,
}

impl<T> View for Iter<T> {
    type V = Seq<T>;

    /// The elements still to be handed out, next one first.
    closed spec fn view(&self) -> Seq<T> {
        link_elements(self.head)
    }
}

impl<T> Iterator for Iter<T> {
    type Item = T;

    /// Hands out the next element, or `None` once all have been handed out.
    ///
    /// After the first `None` every later call returns `None` too.
    fn next(&mut self) -> (item: Option<T>)
        ensures
            item == front(old(self)@),
            final(self)@ == rest(old(self)@),
    {
        match self.head.take() {
            None => None,
            Some(node) => {
                let node = *node;
                self.head = node.next;
                Some(node.data)
            },
        }
    }
}

/// What `for` loops and iterator adaptors may assume of an [`Iter`]: it hands
/// out its view, front to back, and then ends for good.
impl<T> vstd::std_specs::iter::IteratorSpecImpl for Iter<T> {
    open spec fn obeys_prophetic_iter_laws(&self) -> bool {
        true
    }

    /// Everything still to come is what the view holds now.
    open spec fn remaining(&self) -> Seq<T> {
        self@
    }

    open spec fn will_return_none(&self) -> bool {
        true
    }

    /// Each call of `next` that hands out an element leaves one fewer to go.
    open spec fn decrease(&self) -> Option<nat> {
        Some(self@.len())
    }

    open spec fn initial_value_relation(&self, init: &Self) -> bool {
        init@ == self@
    }

    open spec fn peek(&self, index: int) -> Option<T> {
        if 0 <= index < self@.len() {
            Some(self@[index])
        } else {
            None
        }
    }
}

} // verus!
