use vstd::prelude::*;

use crate::error::BridgeError;
use crate::naming::{CallbackHandle, RawFilenameFnCtx};

verus! {

/// Where one resolution request stands. `Completed`, `Failed` and `Cancelled`
/// are terminal; `Delivered` follows them once the outcome was handed out.
#[derive(Debug, Clone, PartialEq, Eq)]
pub enum RequestState {
    Queued,
    HostExecuting,
    Completed(String),
    Failed(String),
    Cancelled,
    Delivered,
}

pub open spec fn is_pending(s: RequestState) -> bool {
    s is Queued || s is HostExecuting
}

pub open spec fn is_terminal(s: RequestState) -> bool {
    s is Completed || s is Failed || s is Cancelled
}

/// The terminal state that a host outcome puts a request in.
pub open spec fn settled_state(outcome: Result<String, String>) -> RequestState {
    match outcome {
        Ok(name) => RequestState::Completed(name),
        Err(message) => RequestState::Failed(message),
    }
}

/// What handing out the outcome of request `id` in state `s` yields.
pub open spec fn delivery_of(s: RequestState, id: usize) -> Option<Result<String, BridgeError>> {
    match s {
        RequestState::Completed(name) => Some(Ok(name)),
        RequestState::Failed(message) => Some(Err(BridgeError::HostFailed { request: id, message })),
        RequestState::Cancelled => Some(Err(BridgeError::Cancelled { request: id })),
        _ => None,
    }
}

/// The request table of a session, as a value: per request its host function,
/// its context hash and its state, and whether the session still takes calls.
pub ghost struct BridgeModel {
    pub handles: Seq<CallbackHandle>,
    pub hashes: Seq<Seq<char>>,
    pub states: Seq<RequestState>,
    pub open: bool,
}

impl BridgeModel {
    pub open spec fn submitted(self, handle: CallbackHandle, hash: Seq<char>) -> BridgeModel {
        BridgeModel {
            handles: self.handles.push(handle),
            hashes: self.hashes.push(hash),
            states: self.states.push(RequestState::Queued),
            open: self.open,
        }
    }

    /// The host takes up request `id` if it is queued.
    pub open spec fn started(self, id: int) -> BridgeModel {
        if 0 <= id < self.states.len() && self.states[id] is Queued {
            BridgeModel { states: self.states.update(id, RequestState::HostExecuting), ..self }
        } else {
            self
        }
    }

    /// The host's outcome lands in request `id` only, and only while the host runs it.
    pub open spec fn settled(self, id: int, outcome: Result<String, String>) -> BridgeModel {
        if 0 <= id < self.states.len() && self.states[id] is HostExecuting {
            BridgeModel { states: self.states.update(id, settled_state(outcome)), ..self }
        } else {
            self
        }
    }

    /// Every pending request is cancelled and no further call is taken.
    pub open spec fn torn_down(self) -> BridgeModel {
        BridgeModel {
            states: Seq::new(
                self.states.len(),
                |i: int|
                    if is_pending(self.states[i]) {
                        RequestState::Cancelled
                    } else {
                        self.states[i]
                    },
            ),
            open: false,
            ..self
        }
    }

    /// A terminal request becomes delivered when its outcome is handed out.
    pub open spec fn taken(self, id: int) -> BridgeModel {
        if 0 <= id < self.states.len() && is_terminal(self.states[id]) {
            BridgeModel { states: self.states.update(id, RequestState::Delivered), ..self }
        } else {
            self
        }
    }

    pub open spec fn delivery(self, id: int) -> Option<Result<String, BridgeError>> {
        if 0 <= id < self.states.len() {
            delivery_of(self.states[id], id as usize)
        } else {
            None
        }
    }
}

/// Each submission gets a fresh id and leaves earlier requests as they were;
/// taking up, settling or handing out one request leaves every other request
/// as it was; a settled request hands out exactly its own outcome, and only once.
pub proof fn lemma_outcomes_stay_with_their_request(
    m: BridgeModel,
    a: int,
    b: int,
    outcome: Result<String, String>,
    handle: CallbackHandle,
    hash: Seq<char>,
)
    requires
        0 <= a < m.states.len(),
        0 <= b < m.states.len(),
        a != b,
    ensures
        m.submitted(handle, hash).states.len() == m.states.len() + 1,
        m.submitted(handle, hash).states[m.states.len() as int] is Queued,
        m.submitted(handle, hash).states[a] == m.states[a],
        m.started(a).states[b] == m.states[b],
        m.settled(a, outcome).states[b] == m.states[b],
        m.taken(a).states[b] == m.states[b],
        m.states[a] is HostExecuting ==> m.settled(a, outcome).delivery(a) == delivery_of(
            settled_state(outcome),
            a as usize,
        ),
        m.states[a] is HostExecuting && outcome is Ok ==> m.settled(a, outcome).delivery(a) == Some(
            Ok::<String, BridgeError>(outcome->Ok_0),
        ),
        m.delivery(a) is Some ==> m.taken(a).delivery(a) is None,
        m.taken(a).taken(a) == m.taken(a),
{
}

/// A host failure while serving request `a` fails that request alone, with
/// the host's message; every other request keeps its state and its outcome.
pub proof fn lemma_host_failure_is_scoped(m: BridgeModel, a: int, message: String)
    requires
        0 <= a < m.states.len(),
        m.states[a] is HostExecuting,
    ensures
        m.settled(a, Err(message)).delivery(a) == Some(
            Err::<String, BridgeError>(BridgeError::HostFailed { request: a as usize, message }),
        ),
        forall|b: int|
            0 <= b < m.states.len() && b != a ==> #[trigger] m.settled(a, Err(message)).states[b]
                == m.states[b] && m.settled(a, Err(message)).delivery(b) == m.delivery(b),
{
}

/// Teardown leaves no request pending: each request that was pending hands
/// out a cancellation, the others keep their state, later host outcomes and
/// take-ups change nothing, and no further call is taken.
pub proof fn lemma_teardown_settles_pending(m: BridgeModel)
    ensures
        !m.torn_down().open,
        m.torn_down().states.len() == m.states.len(),
        forall|i: int|
            0 <= i < m.states.len() ==> !is_pending(#[trigger] m.torn_down().states[i]),
        forall|i: int|
            0 <= i < m.states.len() && is_pending(m.states[i]) ==> #[trigger] m.torn_down().delivery(
                i,
            ) == Some(Err::<String, BridgeError>(BridgeError::Cancelled { request: i as usize })),
        forall|i: int|
            0 <= i < m.states.len() && !is_pending(m.states[i]) ==> #[trigger] m.torn_down().states[i]
                == m.states[i],
        forall|i: int, o: Result<String, String>| #[trigger]
            m.torn_down().settled(i, o) == m.torn_down(),
        forall|i: int| #[trigger] m.torn_down().started(i) == m.torn_down(),
{
    let t = m.torn_down();
    assert forall|i: int, o: Result<String, String>| #[trigger] t.settled(i, o) == t by {
        if 0 <= i < t.states.len() {
            assert(!(t.states[i] is HostExecuting));
        }
    }
    assert forall|i: int| #[trigger] t.started(i) == t by {
        if 0 <= i < t.states.len() {
            assert(!(t.states[i] is Queued));
        }
    }
}

/// Lets many workers ask for names computed by host functions that run on one
/// host thread: workers submit requests, the host takes them up and settles
/// them, and each outcome is handed to its own request, once.
pub struct CallbackBridge {
    handles: Vec<CallbackHandle>,
    contexts: Vec<RawFilenameFnCtx>,
    states: Vec<RequestState>,
    open: bool,
}

impl View for CallbackBridge {
    type V = BridgeModel;

    closed spec fn view(&self) -> BridgeModel {
        BridgeModel {
            handles: self.handles@,
            hashes: Seq::new(self.contexts@.len(), |i: int| self.contexts@[i].hash@),
            states: self.states@,
            open: self.open,
        }
    }
}

impl CallbackBridge {
    pub closed spec fn wf(&self) -> bool {
        &&& self.handles@.len() == self.states@.len()
        &&& self.contexts@.len() == self.states@.len()
    }

    pub fn new() -> (r: CallbackBridge)
        ensures
            r.wf(),
            r@.open,
            r@.states.len() == 0,
            r@.handles.len() == 0,
            r@.hashes.len() == 0,
    {
        CallbackBridge { handles: Vec::new(), contexts: Vec::new(), states: Vec::new(), open: true }
    }

    pub fn is_open(&self) -> (r: bool)
        ensures
            r == self@.open,
    {
        self.open
    }

    /// Queues a call of `handle` on `ctx` and returns the new request's id.
    /// After teardown no call is taken.
    pub fn submit(&mut self, handle: CallbackHandle, ctx: RawFilenameFnCtx) -> (r: Result<
        usize,
        BridgeError,
    >)
        requires
            old(self).wf(),
        ensures
            final(self).wf(),
            !old(self)@.open ==> r == Err::<usize, BridgeError>(BridgeError::Closed) && final(self)@
                == old(self)@,
            old(self)@.open && old(self)@.states.len() == usize::MAX ==> r == Err::<
                usize,
                BridgeError,
            >(BridgeError::Exhausted) && final(self)@ == old(self)@,
            old(self)@.open && old(self)@.states.len() < usize::MAX ==> r == Ok::<
                usize,
                BridgeError,
            >(old(self)@.states.len() as usize) && final(self)@ == old(self)@.submitted(
                handle,
                ctx.hash@,
            ),
    {
        if !self.open {
            return Err(BridgeError::Closed);
        }
        let id = self.states.len();
        if id == usize::MAX {
            return Err(BridgeError::Exhausted);
        }
        let ghost hash = ctx.hash@;
        self.handles.push(handle);
        self.contexts.push(ctx);
        self.states.push(RequestState::Queued);
        assert(self@.hashes =~= old(self)@.hashes.push(hash));
        assert(self@ =~= old(self)@.submitted(handle, hash));
        Ok(id)
    }

    /// The host takes up request `id`: if it is queued, it is now executing, and
    /// the host function and context hash to call it with come back.
    pub fn start(&mut self, id: usize) -> (r: Option<(CallbackHandle, String)>)
        requires
            old(self).wf(),
        ensures
            final(self).wf(),
            final(self)@ == old(self)@.started(id as int),
            r is Some <==> (id < old(self)@.states.len() && old(self)@.states[id as int] is Queued),
            r matches Some(p) ==> p.0 == old(self)@.handles[id as int] && p.1@ == old(
                self,
            )@.hashes[id as int],
    {
        if id >= self.states.len() {
            return None;
        }
        match &self.states[id] {
            RequestState::Queued => {},
            _ => {
                return None;
            },
        }
        let handle = self.handles[id];
        let hash = self.contexts[id].hash.clone();
        self.states.set(id, RequestState::HostExecuting);
        assert(self@.hashes =~= old(self)@.hashes);
        assert(self@ =~= old(self)@.started(id as int));
        Some((handle, hash))
    }

    /// The host hands back the outcome of request `id`. It is kept only while
    /// the request is executing; whether it was kept is returned.
    pub fn complete(&mut self, id: usize, outcome: Result<String, String>) -> (r: bool)
        requires
            old(self).wf(),
        ensures
            final(self).wf(),
            final(self)@ == old(self)@.settled(id as int, outcome),
            r == (id < old(self)@.states.len() && old(self)@.states[id as int] is HostExecuting),
    {
        if id >= self.states.len() {
            return false;
        }
        match &self.states[id] {
            RequestState::HostExecuting => {},
            _ => {
                return false;
            },
        }
        let next = match outcome {
            Ok(name) => RequestState::Completed(name),
            Err(message) => RequestState::Failed(message),
        };
        self.states.set(id, next);
        assert(self@.hashes =~= old(self)@.hashes);
        assert(self@ =~= old(self)@.settled(id as int, outcome));
        true
    }

    /// Ends the session: every pending request is cancelled, and later calls fail.
    pub fn teardown(&mut self)
        requires
            old(self).wf(),
        ensures
            final(self).wf(),
            final(self)@ == old(self)@.torn_down(),
    {
        self.open = false;
        let n = self.states.len();
        let mut i: usize = 0;
        while i < n
            invariant
                self.wf(),
                n == self.states@.len(),
                n == old(self).states@.len(),
                i <= n,
                self.handles@ == old(self).handles@,
                self.contexts@ == old(self).contexts@,
                !self.open,
                forall|j: int| 0 <= j < i ==> self.states@[j] == old(self)@.torn_down().states[j],
                forall|j: int| i <= j < n ==> self.states@[j] == old(self).states@[j],
            decreases n - i,
        {
            let pending = match &self.states[i] {
                RequestState::Queued => true,
                RequestState::HostExecuting => true,
                _ => false,
            };
            if pending {
                self.states.set(i, RequestState::Cancelled);
            }
            i = i + 1;
        }
        assert(self@.states =~= old(self)@.torn_down().states);
        assert(self@.hashes =~= old(self)@.hashes);
        assert(self@ =~= old(self)@.torn_down());
    }

    /// Hands out the outcome of request `id` once it is terminal; it is handed
    /// out only once.
    pub fn take(&mut self, id: usize) -> (r: Option<Result<String, BridgeError>>)
        requires
            old(self).wf(),
        ensures
            final(self).wf(),
            r == old(self)@.delivery(id as int),
            final(self)@ == old(self)@.taken(id as int),
    {
        if id >= self.states.len() {
            return None;
        }
        let r = match &self.states[id] {
            RequestState::Completed(name) => Some(Ok(name.clone())),
            RequestState::Failed(message) => Some(
                Err(BridgeError::HostFailed { request: id, message: message.clone() }),
            ),
            RequestState::Cancelled => Some(Err(BridgeError::Cancelled { request: id })),
            _ => None,
        };
        if r.is_some() {
            self.states.set(id, RequestState::Delivered);
        }
        assert(self@.hashes =~= old(self)@.hashes);
        assert(self@ =~= old(self)@.taken(id as int));
        r
    }
}

} // verus!
