use vstd::prelude::*;
use crate::pending::PendingCalls;
use crate::response::SurrealResponseData;

verus! {

/// What the dispatcher loop hands to the dispatcher.
#[derive(Debug)]
pub enum DispatchEvent<H> {
    /// A caller is about to send a request under `id` and awaits its reply
    /// through `handle`.
    Registration { id: String, handle: H },
    /// A caller no longer waits for the reply to `id`.
    Cancellation { id: String },
    /// An inbound frame decoded into a reply.
    Response(SurrealResponseData),
    /// An inbound frame that could not be decoded.
    Malformed,
    /// The transport's read side ended.
    Closed,
}

/// What the dispatcher loop must do after an event.
#[derive(Debug)]
pub enum DispatchAction<H> {
    /// Nothing.
    Nothing,
    /// Hand `response` to the caller waiting on `handle`.
    Resolve { handle: H, response: SurrealResponseData },
    /// Drop `handle` unresolved: its caller learns that the call was abandoned.
    Release(H),
    /// Leave the loop: no more frames will come.
    Stop,
}

/// The state after `event`, from a state given as whether the dispatcher is
/// running and its pending calls.
pub open spec fn next_state<H>(s: (bool, Map<Seq<char>, H>), event: DispatchEvent<H>) -> (bool, Map<Seq<char>, H>) {
    if !s.0 {
        s
    } else {
        match event {
            DispatchEvent::Registration { id, handle } => (true, s.1.insert(id@, handle)),
            DispatchEvent::Cancellation { id } => (true, s.1.remove(id@)),
            DispatchEvent::Response(response) => (true, s.1.remove(response.id@)),
            DispatchEvent::Malformed => s,
            DispatchEvent::Closed => (false, s.1),
        }
    }
}

/// The action that answers `event` in state `s`.
pub open spec fn outcome<H>(s: (bool, Map<Seq<char>, H>), event: DispatchEvent<H>) -> DispatchAction<H> {
    if !s.0 {
        match event {
            DispatchEvent::Registration { id, handle } => DispatchAction::Release(handle),
            _ => DispatchAction::Nothing,
        }
    } else {
        match event {
            DispatchEvent::Registration { id, handle } => if s.1.contains_key(id@) {
                DispatchAction::Release(s.1[id@])
            } else {
                DispatchAction::Nothing
            },
            DispatchEvent::Cancellation { id } => if s.1.contains_key(id@) {
                DispatchAction::Release(s.1[id@])
            } else {
                DispatchAction::Nothing
            },
            DispatchEvent::Response(response) => if s.1.contains_key(response.id@) {
                DispatchAction::Resolve { handle: s.1[response.id@], response }
            } else {
                DispatchAction::Nothing
            },
            DispatchEvent::Malformed => DispatchAction::Nothing,
            DispatchEvent::Closed => DispatchAction::Stop,
        }
    }
}

/// The demultiplexer of inbound replies: it owns the pending calls and decides,
/// for each event, how the table changes and whom to resolve.
pub struct Dispatcher<H> {
    pending: PendingCalls<H>,
    running: bool,
}

impl<H> View for Dispatcher<H> {
    type V = (bool, Map<Seq<char>, H>);

    closed spec fn view(&self) -> (bool, Map<Seq<char>, H>) {
        (self.running, self.pending@)
    }
}

impl<H> Dispatcher<H> {
    pub closed spec fn wf(&self) -> bool {
        self.pending.wf()
    }

    /// A running dispatcher with no pending call.
    pub fn new() -> (r: Self)
        ensures
            r.wf(),
            r@ == (true, Map::<Seq<char>, H>::empty()),
    {
        Dispatcher { pending: PendingCalls::new(), running: true }
    }

    pub fn is_running(&self) -> (r: bool)
        ensures
            r == self@.0,
    {
        self.running
    }

    /// Whether a call with this id awaits its reply.
    pub fn is_pending(&self, id: &String) -> (r: bool)
        requires
            self.wf(),
        ensures
            r == self@.1.contains_key(id@),
    {
        self.pending.contains(id)
    }

    /// Takes in one event and says what to do about it.
    pub fn step(&mut self, event: DispatchEvent<H>) -> (r: DispatchAction<H>)
        requires
            old(self).wf(),
        ensures
            final(self).wf(),
            final(self)@ == next_state(old(self)@, event),
            r == outcome(old(self)@, event),
    {
        if !self.running {
            return match event {
                DispatchEvent::Registration { id, handle } => DispatchAction::Release(handle),
                _ => DispatchAction::Nothing,
            };
        }
        match event {
            DispatchEvent::Registration { id, handle } => match self.pending.register(id, handle) {
                Some(displaced) => DispatchAction::Release(displaced),
                None => DispatchAction::Nothing,
            },
            DispatchEvent::Cancellation { id } => match self.pending.take(&id) {
                Some(handle) => DispatchAction::Release(handle),
                None => DispatchAction::Nothing,
            },
            DispatchEvent::Response(response) => match self.pending.take(&response.id) {
                Some(handle) => DispatchAction::Resolve { handle, response },
                None => DispatchAction::Nothing,
            },
            DispatchEvent::Malformed => DispatchAction::Nothing,
            DispatchEvent::Closed => {
                self.running = false;
                DispatchAction::Stop
            },
        }
    }
}

} // verus!
