use vstd::prelude::*;

verus! {

/// The slot that holds the one live handle to the content service, if any.
/// Whoever owns the slot owns the handle; it is put in only when the slot is
/// empty and taken out whole.
pub struct HandleSlot<H> {
    handle: Option<H>,
}

impl<H> View for HandleSlot<H> {
    type V = Option<H>;

    closed spec fn view(&self) -> Option<H> {
        self.handle
    }
}

impl<H> HandleSlot<H> {
    /// An empty slot: no service is mounted at startup.
    pub fn new() -> (r: HandleSlot<H>)
        ensures
            r@ is None,
    {
        HandleSlot { handle: None }
    }

    /// Whether a handle is live.
    pub fn has_handle(&self) -> (r: bool)
        ensures
            r == self@ is Some,
    {
        self.handle.is_some()
    }

    /// The live handle, if any.
    pub fn get(&self) -> (r: Option<&H>)
        ensures
            match self@ {
                None => r is None,
                Some(h) => r matches Some(x) && *x == h,
            },
    {
        match &self.handle {
            None => None,
            Some(h) => Some(h),
        }
    }

    /// Stores the outcome of initialising the service into an empty slot: a
    /// new handle is kept, an error is handed back and the slot stays empty.
    pub fn install<E>(&mut self, init: Result<H, E>) -> (r: Result<(), E>)
        requires
            old(self)@ is None,
        ensures
            match init {
                Ok(h) => final(self)@ == Some(h) && r is Ok,
                Err(e) => final(self)@ is None && r == Err::<(), E>(e),
            },
    {
        match init {
            Ok(h) => {
                self.handle = Some(h);
                Ok(())
            },
            Err(e) => Err(e),
        }
    }

    /// Takes the handle out, leaving the slot empty.
    pub fn take(&mut self) -> (r: Option<H>)
        ensures
            r == old(self)@,
            final(self)@ is None,
    {
        self.handle.take()
    }
}

/// The state and the answer of a start request on a flag that is `running`:
/// afterwards it runs; the task is to be spawned only if it did not run before.
pub open spec fn start_outcome(running: bool) -> (bool, bool) {
    (true, !running)
}

/// A flag that lets a background task be started at most once.
pub struct DaemonFlag {
    running: bool,
}

impl View for DaemonFlag {
    type V = bool;

    closed spec fn view(&self) -> bool {
        self.running
    }
}

impl DaemonFlag {
    /// A flag whose task has not been started.
    pub fn new() -> (r: DaemonFlag)
        ensures
            !r@,
    {
        DaemonFlag { running: false }
    }

    /// Whether the task has been started.
    pub fn is_running(&self) -> (r: bool)
        ensures
            r == self@,
    {
        self.running
    }

    /// Marks the task as started. Returns true when the caller is to spawn it,
    /// that is when it had not been started before.
    pub fn try_start(&mut self) -> (r: bool)
        ensures
            (final(self)@, r) == start_outcome(old(self)@),
    {
        let spawn = !self.running;
        self.running = true;
        spawn
    }
}

/// Starting a task twice has the same effect as starting it once: the flag
/// ends in the same state, and the second request spawns nothing.
pub proof fn lemma_start_idempotent(running: bool)
    ensures
        start_outcome(start_outcome(running).0).0 == start_outcome(running).0,
        !start_outcome(start_outcome(running).0).1,
{
}

} // verus!
