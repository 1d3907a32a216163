use vstd::prelude::*;

verus! {

/// The readiness a leaf asks to be woken for.
#[derive(Clone, Copy, Debug, PartialEq, Eq, Structural)]
pub enum Interest {
    Read,
    Write,
}

/// One wait descriptor: an OS-level readiness handle plus the
/// interest the owning leaf has in it.
#[derive(Clone, Copy, Debug, PartialEq, Eq, Structural)]
pub struct PollDescriptor {
    pub fd: i32,
    pub interest: Interest,
}

/// The per-iteration accumulator of wait descriptors. The render
/// loop builds an empty one, every leaf appends what it needs to be
/// woken for, and the loop then blocks on the union. It is rebuilt
/// each iteration, never persisted.
pub struct WaitContext {
    pub fds: Vec<PollDescriptor>,
}

impl WaitContext {
    pub fn new() -> (ctx: WaitContext)
        ensures
            ctx.fds@ == Seq::<PollDescriptor>::empty(),
    {
        WaitContext { fds: Vec::new() }
    }

    /// Append one descriptor; everything already collected stays, in
    /// order.
    pub fn push(&mut self, d: PollDescriptor)
        ensures
            final(self).fds@ == old(self).fds@.push(d),
    {
        self.fds.push(d);
    }
}

} // verus!
