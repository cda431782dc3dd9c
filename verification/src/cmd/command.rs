//! Commands sent from game space to the engine.
use std::collections::VecDeque;
use vstd::prelude::*;

verus! {

/// First come, first served queue of commands.
///
/// The commands are kept in the order in which they were appended; the
/// engine takes them out in that same order.
pub struct CommandQueue<C> {
    commands: VecDeque<C>,
}

impl<C> View for CommandQueue<C> {
    type V = Seq<C>;

    /// The pending commands, oldest first.
    closed spec fn view(&self) -> Seq<C> {
        self.commands@
    }
}

impl<C> CommandQueue<C> {
    /// An empty queue.
    pub fn new() -> (queue: Self)
        ensures
            queue@ == Seq::<C>::empty(),
    {
        CommandQueue { commands: VecDeque::with_capacity(5) }
    }

    /// Appends a command behind every command already queued.
    pub fn append(&mut self, command: C)
        ensures
            final(self)@ == old(self)@.push(command),
    {
        self.commands.push_back(command);
    }

    /// Number of queued commands.
    pub fn len(&self) -> (n: usize)
        ensures
            n == self@.len(),
    {
        self.commands.len()
    }

    /// Whether no command is queued.
    pub fn is_empty(&self) -> (empty: bool)
        ensures
            empty == (self@.len() == 0),
    {
        self.commands.len() == 0
    }

    /// Moves every command of `other` behind the commands of this queue,
    /// keeping their order.
    pub fn append_other(&mut self, other: Self)
        ensures
            final(self)@ == old(self)@ + other@,
    {
        let mut other = other;
        self.commands.append(&mut other.commands);
    }

    /// Takes every queued command out, oldest first, and leaves the queue empty.
    pub fn drain_all(&mut self) -> (taken: Vec<C>)
        ensures
            taken@ == old(self)@,
            final(self)@ == Seq::<C>::empty(),
    {
        let mut taken: Vec<C> = Vec::new();
        let ghost initial = self.commands@;
        while self.commands.len() > 0
            invariant
                initial == taken@ + self.commands@,
            decreases self.commands@.len(),
        {
            let next = self.commands.pop_front();
            match next {
                Some(command) => {
                    taken.push(command);
                },
                None => {},
            }
        }
        assert(self.commands@ =~= Seq::<C>::empty());
        assert(taken@ =~= initial);
        taken
    }
}

impl<C> Default for CommandQueue<C> {
    fn default() -> (queue: Self)
        ensures
            queue@ == Seq::<C>::empty(),
    {
        Self::new()
    }
}

/// The id given to a drawable created while `children_len` drawables exist:
/// ids count from one, in 32 bits.
pub fn next_drawable_id(children_len: usize) -> (id: u32)
    requires
        (children_len as u32) < u32::MAX,
    ensures
        id == (children_len as u32) + 1,
{
    children_len as u32 + 1
}

/// Executes the commands that game code queued for the engine.
pub trait CommandDispatcher {
    /// Executes each queued command, oldest first.
    fn flush_commands(&mut self);
}

} // verus!
