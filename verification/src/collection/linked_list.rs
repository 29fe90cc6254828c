//! A singly linked list that owns its nodes, with the front as the cheap end.
//!
//! The list is described by the sequence of its elements from the front. The
//! element count is kept beside the chain; `wf` says that the two agree.
//!
//! A walk that changes elements borrows the nodes of the list. What the list
//! holds afterwards is stated through the nodes that the walk was given: the
//! contracts of `iter_mut` and `IterMut::next` say what each node ends up
//! with, which is why a node, though closed, is a public type.

use vstd::prelude::*;

verus! {

/// One element of a list together with all that follow it. A node is seen
/// from outside only as the sequence of those elements.
pub struct Node<T> {
    data: T,
    next: Option<Box<Node<T>>>,
}

/// A singly linked list. Its view is the sequence of its elements, front
/// first.
pub struct LinkedList<T> {
    head: Option<Box<Node<T>>>,
    length: usize,
}

impl<T> Node<T> {
    /// The elements of the chain that starts at `link`.
    spec fn seq_of(link: Option<Box<Node<T>>>) -> Seq<T>
        decreases link,
    {
        match link {
            None => Seq::empty(),
            Some(node) => seq![node.data] + Self::seq_of(node.next),
        }
    }
}

impl<T> View for Node<T> {
    type V = Seq<T>;

    /// The element of this node and those of the nodes behind it.
    closed spec fn view(&self) -> Seq<T> {
        seq![self.data] + Self::seq_of(self.next)
    }
}

/// A sequence whose tail from `i` is `d` followed by `rest` has `d` at `i`
/// and `rest` behind it.
proof fn lemma_skip_step<A>(s: Seq<A>, i: int, d: A, rest: Seq<A>)
    requires
        0 <= i <= s.len(),
        s.skip(i) == seq![d] + rest,
    ensures
        i < s.len(),
        s[i] == d,
        s.skip(i + 1) == rest,
{
    let t = s.skip(i);
    assert(t.len() == 1 + rest.len());
    assert(t[0] == d);
    assert(s.skip(i + 1) =~= t.skip(1));
    assert(t.skip(1) =~= rest);
}

impl<T> View for LinkedList<T> {
    type V = Seq<T>;

    closed spec fn view(&self) -> Seq<T> {
        Node::seq_of(self.head)
    }
}

impl<T> LinkedList<T> {
    /// The stored count is the number of elements.
    pub closed spec fn wf(&self) -> bool {
        self.length == self@.len()
    }

    /// The empty list.
    pub fn new() -> (list: Self)
        ensures
            list.wf(),
            list@ == Seq::<T>::empty(),
    {
        Self { head: None, length: 0 }
    }

    /// Puts `data` at the front.
    pub fn push(&mut self, data: T)
        requires
            old(self).wf(),
            old(self)@.len() < usize::MAX,
        ensures
            final(self).wf(),
            final(self)@ == seq![data] + old(self)@,
    {
        let new_node = Box::new(Node { data, next: self.head.take() });
        self.head = Some(new_node);
        self.length += 1;
    }

    /// Takes the front element out, if the list has one.
    pub fn pop(&mut self) -> (front: Option<T>)
        requires
            old(self).wf(),
        ensures
            final(self).wf(),
            match front {
                Some(data) => old(self)@.len() > 0 && data == old(self)@[0] && final(self)@
                    == old(self)@.skip(1),
                None => old(self)@.len() == 0 && final(self)@ == old(self)@,
            },
    {
        match self.head.take() {
            None => None,
            Some(node) => {
                let Node { data, next } = *node;
                self.head = next;
                self.length -= 1;
                Some(data)
            },
        }
    }

    /// Puts `data` at position `index`, so that `index` elements stand
    /// before it. An index beyond the end leaves the list as it is.
    pub fn insert(&mut self, data: T, index: u32)
        requires
            old(self).wf(),
            index <= old(self)@.len() ==> old(self)@.len() < usize::MAX,
        ensures
            final(self).wf(),
            index <= old(self)@.len() ==> final(self)@ == old(self)@.insert(index as int, data),
            index > old(self)@.len() ==> final(self)@ == old(self)@,
    {
        if index == 0 {
            self.push(data);
            return ;
        }
        // Walk to the node after which the new one goes.
        let mut curr = &mut self.head;
        for i in 0..(index - 1)
            invariant
                i <= old(self)@.len(),
                index > 0,
                old(self).wf(),
                index <= old(self)@.len() ==> old(self)@.len() < usize::MAX,
                self.length == old(self).length,
                Node::seq_of(*curr) == old(self)@.skip(i as int),
                Node::seq_of(after_borrow(self.head)) == old(self)@.take(i as int) + Node::seq_of(
                    *final(curr),
                ),
        {
            match curr {
                Some(node) => {
                    proof {
                        lemma_skip_step(old(self)@, i as int, node.data, Node::seq_of(node.next));
                    }
                    curr = &mut node.next;
                },
                None => {
                    return ;
                },
            }
        }
        if let Some(node) = curr {
            proof {
                lemma_skip_step(old(self)@, index - 1, node.data, Node::seq_of(node.next));
            }
            let ghost rest = Node::seq_of(node.next);
            let new_node = Box::new(Node { data, next: node.next.take() });
            node.next = Some(new_node);
            self.length += 1;
            assert(Node::seq_of(node.next) =~= seq![data] + rest);
        }
    }

    /// The number of elements.
    pub fn len(&self) -> (count: usize)
        requires
            self.wf(),
        ensures
            count == self@.len(),
    {
        self.length
    }

    /// Whether the list has no element.
    pub fn is_empty(&self) -> (empty: bool)
        ensures
            empty <==> self@.len() == 0,
    {
        self.head.is_none()
    }

    /// The element at position `index`, if the list is that long.
    pub fn get(&self, index: u32) -> (found: Option<&T>)
        ensures
            match found {
                Some(data) => index < self@.len() && *data == self@[index as int],
                None => index >= self@.len(),
            },
    {
        let mut current = &self.head;
        for i in 0..index
            invariant
                i <= self@.len(),
                Node::seq_of(*current) == self@.skip(i as int),
        {
            match current {
                Some(node) => {
                    proof {
                        lemma_skip_step(self@, i as int, node.data, Node::seq_of(node.next));
                    }
                    current = &node.next;
                },
                None => {
                    return None;
                },
            }
        }
        match current {
            Some(node) => {
                proof {
                    lemma_skip_step(self@, index as int, node.data, Node::seq_of(node.next));
                }
                Some(&node.data)
            },
            None => None,
        }
    }

    /// Walks the list from the front, handing out the elements to read.
    pub fn iter(&self) -> (iter: Iter<'_, T>)
        ensures
            iter@ == self@,
    {
        Iter {
            next: match &self.head {
                Some(node) => Some(&**node),
                None => None,
            },
        }
    }

    /// Walks the list from the front, handing out the elements to change.
    /// What the list holds once the walk is over is what the walk leaves in
    /// the nodes it was given.
    pub fn iter_mut(&mut self) -> (iter: IterMut<'_, T>)
        ensures
            iter@ == old(self)@,
            final(self)@ == (match iter.next {
                Some(node) => final(node)@,
                None => Seq::empty(),
            }),
            old(self).wf() ==> (final(self).wf() <==> final(self)@.len() == old(self)@.len()),
    {
        IterMut {
            next: match &mut self.head {
                Some(node) => Some(&mut **node),
                None => None,
            },
        }
    }
}

/// A walk over a list that reads. Its view is the sequence of the elements
/// that are still to come.
pub struct Iter<'a, T> {
    next: Option<&'a Node<T>>,
}

impl<'a, T> View for Iter<'a, T> {
    type V = Seq<T>;

    closed spec fn view(&self) -> Seq<T> {
        match self.next {
            Some(node) => node@,
            None => Seq::empty(),
        }
    }
}

impl<'a, T> Iter<'a, T> {
    /// Hands out the next element and moves on; `None` at the end.
    pub fn next(&mut self) -> (item: Option<&'a T>)
        ensures
            match item {
                Some(data) => old(self)@.len() > 0 && *data == old(self)@[0] && final(self)@
                    == old(self)@.skip(1),
                None => old(self)@.len() == 0 && final(self)@ == old(self)@,
            },
    {
        match self.next {
            None => None,
            Some(node) => {
                self.next = match &node.next {
                    Some(after) => Some(&**after),
                    None => None,
                };
                Some(&node.data)
            },
        }
    }
}

/// A walk over a list that may change the elements in place. Its view is the
/// sequence of the elements that are still to come, as they are now.
pub struct IterMut<'a, T> {
    /// The node whose element is handed out next.
    pub next: Option<&'a mut Node<T>>,
}

impl<'a, T> View for IterMut<'a, T> {
    type V = Seq<T>;

    open spec fn view(&self) -> Seq<T> {
        match self.next {
            Some(node) => node@,
            None => Seq::empty(),
        }
    }
}

impl<'a, T> IterMut<'a, T> {
    /// Hands out the next element, for the caller to change, and moves on;
    /// `None` at the end. The node that held the element ends up with what
    /// the caller leaves in the element, followed by what the rest of the
    /// walk leaves behind.
    pub fn next(&mut self) -> (item: Option<&'a mut T>)
        ensures
            match item {
                Some(data) => old(self)@.len() > 0 && *data == old(self)@[0] && final(self)@
                    == old(self)@.skip(1),
                None => old(self)@.len() == 0 && final(self)@ == old(self)@,
            },
            match (old(self).next, item) {
                (Some(node), Some(data)) => {
                    let rest = match final(self).next {
                        Some(after) => final(after)@,
                        None => Seq::empty(),
                    };
                    final(node)@ == seq![*final(data)] + rest
                },
                (None, None) => final(self).next is None,
                _ => false,
            },
    {
        match self.next.take() {
            None => None,
            Some(node) => {
                self.next = match &mut node.next {
                    Some(after) => Some(&mut **after),
                    None => None,
                };
                Some(&mut node.data)
            },
        }
    }
}

} // verus!
