//! Commands for the background coordinator, and the queue that holds them
//! until they are handed to its channel.
use vstd::prelude::*;

verus! {

/// A message to the background coordinator.
#[derive(Clone, Copy, Debug, PartialEq, Eq, Structural)]
pub enum Command {
    /// Persist the committed settings.
    SaveSettings,
    /// Run the long maintenance pass over the database.
    PruneDatabase,
}

/// The outgoing side of the command channel. Sending only queues, so it
/// never blocks and never fails; whoever owns the channel takes the queued
/// commands out with `drain` and forwards them.
pub struct Dispatcher {
    queue: Vec<Command>,
}

impl View for Dispatcher {
    type V = Seq<Command>;

    closed spec fn view(&self) -> Seq<Command> {
        self.queue@
    }
}

impl Dispatcher {
    pub fn new() -> (r: Dispatcher)
        ensures
            r@ == Seq::<Command>::empty(),
    {
        Dispatcher { queue: Vec::new() }
    }

    /// Queues `c` after the commands already sent.
    pub fn send(&mut self, c: Command)
        ensures
            final(self)@ == old(self)@.push(c),
    {
        self.queue.push(c);
    }

    /// The number of commands that wait.
    pub fn len(&self) -> (r: usize)
        ensures
            r == self@.len(),
    {
        self.queue.len()
    }

    /// Takes out every queued command, oldest first.
    pub fn drain(&mut self) -> (r: Vec<Command>)
        ensures
            r@ == old(self)@,
            final(self)@ == Seq::<Command>::empty(),
    {
        let mut out = Vec::new();
        std::mem::swap(&mut out, &mut self.queue);
        out
    }
}

} // verus!
