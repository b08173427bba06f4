use vstd::prelude::*;

verus! {

/// Why an operation on a [`BoundedStack`] could not do all that was asked.
#[derive(Debug, Clone, Copy, PartialEq, Eq, Structural)]
pub enum StackError {
    /// The stack held `capacity` elements when another one was to be pushed.
    StackFull,
    /// The stack held no element to pop, peek at or list.
    StackEmpty,
}

/// The abstract state of a stack: its elements, bottom first, and the bound
/// on how many it may hold.
pub ghost struct StackView {
    pub elements: Seq<i32>,
    pub capacity: nat,
}

impl StackView {
    /// The state of a stack just built with capacity `capacity`.
    pub open spec fn empty(capacity: nat) -> StackView {
        StackView { elements: Seq::empty(), capacity }
    }

    /// The number of occupied slots, which is also the index just past the top.
    pub open spec fn head(self) -> nat {
        self.elements.len()
    }

    /// Every reachable state holds at most `capacity` elements.
    pub open spec fn valid(self) -> bool {
        self.elements.len() <= self.capacity
    }

    /// How many more elements fit.
    pub open spec fn room(self) -> nat {
        (self.capacity - self.elements.len()) as nat
    }

    /// The state after pushing `values` in order: each value goes on while
    /// there is room, and once the stack is full the rest of the batch is
    /// dropped.
    pub open spec fn after_push(self, values: Seq<i32>) -> StackView {
        if values.len() <= self.room() {
            StackView { elements: self.elements + values, capacity: self.capacity }
        } else {
            StackView {
                elements: self.elements + values.take(self.room() as int),
                capacity: self.capacity,
            }
        }
    }

    /// What pushing `values` reports: `StackFull` exactly when some value
    /// found the stack full and was dropped.
    pub open spec fn push_outcome(self, values: Seq<i32>) -> Result<(), StackError> {
        if values.len() <= self.room() {
            Ok(())
        } else {
            Err(StackError::StackFull)
        }
    }

    /// The state after a pop: the top element is gone, and an empty stack
    /// stays as it is.
    pub open spec fn after_pop(self) -> StackView {
        if self.elements.len() == 0 {
            self
        } else {
            StackView { elements: self.elements.drop_last(), capacity: self.capacity }
        }
    }

    /// What a pop returns: the top element, or `StackEmpty`.
    pub open spec fn pop_outcome(self) -> Result<i32, StackError> {
        self.top_outcome()
    }

    /// What a peek returns: the element at index `head - 1`, or `StackEmpty`.
    pub open spec fn top_outcome(self) -> Result<i32, StackError> {
        if self.elements.len() == 0 {
            Err(StackError::StackEmpty)
        } else {
            Ok(self.elements.last())
        }
    }

    /// The elements from top to bottom: index `head - 1` first, index 0 last.
    pub open spec fn top_to_bottom(self) -> Seq<i32> {
        Seq::new(self.elements.len(), |i: int| self.elements[self.elements.len() - 1 - i])
    }

    /// What a listing returns: the elements from top to bottom, or
    /// `StackEmpty` when there are none.
    pub open spec fn listing(self) -> Result<Seq<i32>, StackError> {
        if self.elements.len() == 0 {
            Err(StackError::StackEmpty)
        } else {
            Ok(self.top_to_bottom())
        }
    }
}

/// A stack of `i32` values that never holds more than a capacity fixed when it
/// is built.
pub struct BoundedStack {
    numbers: Vec<i32>,
    head: usize,
    capacity: usize,
}

impl View for BoundedStack {
    type V = StackView;

    closed spec fn view(&self) -> StackView {
        StackView { elements: self.numbers@, capacity: self.capacity as nat }
    }
}

impl BoundedStack {
    /// The head index counts the stored elements, which never exceed the
    /// capacity.
    pub closed spec fn wf(&self) -> bool {
        &&& self.head == self.numbers@.len()
        &&& self.head <= self.capacity
    }

    /// A well-formed stack holds at most its capacity.
    pub proof fn lemma_wf_valid(&self)
        requires
            self.wf(),
        ensures
            self@.valid(),
    {
    }

    /// An empty stack that will hold at most `capacity` elements.
    pub fn new(capacity: usize) -> (s: Self)
        ensures
            s.wf(),
            s@ == StackView::empty(capacity as nat),
    {
        BoundedStack { numbers: Vec::new(), head: 0, capacity }
    }

    /// Pushes `values` in order. When the stack is full and values remain,
    /// the remaining ones are dropped and `StackFull` is returned.
    pub fn push(&mut self, values: &[i32]) -> (r: Result<(), StackError>)
        requires
            old(self).wf(),
        ensures
            final(self).wf(),
            final(self)@ == old(self)@.after_push(values@),
            r == old(self)@.push_outcome(values@),
    {
        let mut i: usize = 0;
        while i < values.len()
            invariant
                self.head == self.numbers@.len(),
                self.head <= self.capacity,
                self.capacity == old(self).capacity,
                i <= values@.len(),
                i <= old(self)@.room(),
                self.numbers@ == old(self).numbers@ + values@.take(i as int),
            decreases values@.len() - i,
        {
            if self.head == self.capacity {
                assert(values@.len() > old(self)@.room());
                return Err(StackError::StackFull);
            }
            self.numbers.push(values[i]);
            self.head = self.head + 1;
            i = i + 1;
            assert(values@.take(i as int) == values@.take(i - 1) + seq![values@[i - 1]]);
        }
        assert(values@.take(i as int) == values@);
        Ok(())
    }

    /// Removes the top element and returns it; on an empty stack returns
    /// `StackEmpty` and changes nothing.
    pub fn pop(&mut self) -> (r: Result<i32, StackError>)
        requires
            old(self).wf(),
        ensures
            final(self).wf(),
            final(self)@ == old(self)@.after_pop(),
            r == old(self)@.pop_outcome(),
    {
        if self.head == 0 {
            return Err(StackError::StackEmpty);
        }
        self.head = self.head - 1;
        match self.numbers.pop() {
            Some(element) => Ok(element),
            None => Err(StackError::StackEmpty),
        }
    }

    /// The top element, left in place; `StackEmpty` when there is none.
    pub fn top(&self) -> (r: Result<i32, StackError>)
        requires
            self.wf(),
        ensures
            r == self@.top_outcome(),
    {
        if self.head == 0 {
            return Err(StackError::StackEmpty);
        }
        Ok(self.numbers[self.head - 1])
    }

    /// The elements from top to bottom, without changing the stack;
    /// `StackEmpty` when there are none.
    pub fn display(&self) -> (r: Result<Vec<i32>, StackError>)
        requires
            self.wf(),
        ensures
            self@.listing() == (match r {
                Ok(v) => Ok(v@),
                Err(e) => Err(e),
            }),
    {
        if self.head == 0 {
            return Err(StackError::StackEmpty);
        }
        let mut listed: Vec<i32> = Vec::new();
        let mut i: usize = self.head;
        while i > 0
            invariant
                self.wf(),
                i <= self.head,
                listed@.len() == self.head - i,
                forall|k: int| 0 <= k < listed@.len() ==> listed@[k] == self@.top_to_bottom()[k],
            decreases i,
        {
            i = i - 1;
            listed.push(self.numbers[i]);
        }
        assert(listed@ == self@.top_to_bottom());
        Ok(listed)
    }

    /// The number of elements on the stack.
    pub fn head(&self) -> (r: usize)
        requires
            self.wf(),
        ensures
            r == self@.head(),
    {
        self.head
    }

    /// The bound on the number of elements, as given when the stack was built.
    pub fn capacity(&self) -> (r: usize)
        ensures
            r == self@.capacity,
    {
        self.capacity
    }
}

} // verus!
