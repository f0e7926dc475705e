//! The service adapter.
//!
//! One adapter belongs to one worker and owns that worker's wrapped service.
//! A call takes the service out of the adapter, hands it the converted
//! request, and puts it back when the call is over, whether it completed or
//! was abandoned. While the service is out, no other call can begin.

use crate::tower_compat::body::{CompatReqBody, CompatResBody};
use crate::tower_compat::message::{Request, Response};
use vstd::prelude::*;

verus! {

/// Where a worker stands with its adapter.
#[derive(Clone, Copy, Debug, PartialEq, Eq, Structural)]
pub enum Phase {
    /// The factory exists; no service has been constructed.
    Uninitialized,
    /// The adapter holds its service: a call may begin.
    Ready,
    /// A call holds the service.
    InFlight,
}

/// A moment in the life of an adapter's wrapped service. The number is the
/// call's place in the order in which calls were issued, counted from zero.
pub enum CallEvent {
    /// The call took the service.
    Begin(nat),
    /// The call gave the service back.
    End(nat),
}

/// The event that stands `offset` places into a run of calls, each ended
/// before the next begins, of which the first is call number `first`.
pub open spec fn event_from(first: nat, offset: int) -> CallEvent {
    if offset % 2 == 0 {
        CallEvent::Begin((first + offset / 2) as nat)
    } else {
        CallEvent::End((first + offset / 2) as nat)
    }
}

/// One thing that can be asked of a worker's adapter.
pub enum Op {
    /// End construction; the flag tells whether the constructor produced a
    /// service.
    Construct(bool),
    /// Begin a call.
    Begin,
    /// End the call in flight, completed or abandoned.
    End,
}

/// The abstract state of a worker's adapter.
pub struct Model {
    pub phase: Phase,
    /// How many calls have begun.
    pub begun: nat,
    /// Everything that happened to the service, oldest first.
    pub history: Seq<CallEvent>,
}

impl Model {
    /// The state of a worker before construction.
    pub open spec fn uninitialized() -> Model {
        Model { phase: Phase::Uninitialized, begun: 0, history: Seq::empty() }
    }

    /// The state right after a successful construction: ready, and nothing
    /// has happened to the service.
    pub open spec fn fresh() -> Model {
        Model { phase: Phase::Ready, begun: 0, history: Seq::empty() }
    }

    /// The state after a call has taken the service.
    pub open spec fn begin(self) -> Model {
        Model {
            phase: Phase::InFlight,
            begun: self.begun + 1,
            history: self.history.push(CallEvent::Begin(self.begun)),
        }
    }

    /// The state after the call in flight has given the service back.
    pub open spec fn end(self) -> Model {
        Model {
            phase: Phase::Ready,
            begun: self.begun,
            history: self.history.push(CallEvent::End((self.begun - 1) as nat)),
        }
    }

    /// The state after `op` was asked for. What cannot happen in the state
    /// leaves it as it is: a service is constructed once at most, and only
    /// where the constructor succeeds; no call begins before there is a
    /// service or while another call holds it; none ends while none is in
    /// flight.
    pub open spec fn step(self, op: Op) -> Model {
        match op {
            Op::Construct(succeeded) => if self.phase == Phase::Uninitialized && succeeded {
                Model::fresh()
            } else {
                self
            },
            Op::Begin => if self.phase == Phase::Ready {
                self.begin()
            } else {
                self
            },
            Op::End => if self.phase == Phase::InFlight {
                self.end()
            } else {
                self
            },
        }
    }

    /// The state after `ops` were asked for in order.
    pub open spec fn run(self, ops: Seq<Op>) -> Model
        decreases ops.len(),
    {
        if ops.len() == 0 {
            self
        } else {
            self.run(ops.drop_last()).step(ops.last())
        }
    }

    /// The state after `n` more calls, each run to its end before the next.
    pub open spec fn after_calls(self, n: nat) -> Model
        decreases n,
    {
        if n == 0 {
            self
        } else {
            self.after_calls((n - 1) as nat).begin().end()
        }
    }

    /// Calls are numbered in the order of their beginning, each has ended
    /// before the next begins, and none began before construction.
    pub open spec fn well_formed(self) -> bool {
        &&& self.history.len() == 2 * self.begun - if self.phase == Phase::InFlight {
            1int
        } else {
            0int
        }
        &&& self.phase == Phase::Uninitialized ==> self.begun == 0
        &&& forall|i: int|
            0 <= i < self.history.len() ==> #[trigger] self.history[i] == event_from(0, i)
    }
}

/// What the wrapped service is handed for a request: the same head, and the
/// body re-tagged with an empty context.
pub open spec fn request_for_service<H, B>(req: Request<H, B>) -> Request<H, CompatReqBody<B, ()>> {
    Request { head: req.head, body: CompatReqBody { body: req.body, ctx: () } }
}

/// What the server is handed for a response: the same head, and the body
/// re-tagged.
pub open spec fn response_for_server<H, B>(res: Response<H, B>) -> Response<H, CompatResBody<B>> {
    Response { head: res.head, body: CompatResBody { body: res.body } }
}

/// What a call resolves to, given what the wrapped service returned: its
/// response converted, or its error as it is.
pub open spec fn settled<H, B, E>(outcome: Result<Response<H, B>, E>) -> Result<
    Response<H, CompatResBody<B>>,
    E,
> {
    match outcome {
        Ok(res) => Ok(response_for_server(res)),
        Err(e) => Err(e),
    }
}

/// What construction yields, given what the constructor returned: a ready
/// adapter around the service, or the constructor's error as it is.
pub open spec fn constructed<S, E>(outcome: Result<S, E>, built: Result<TowerHttp<S>, E>) -> bool {
    match outcome {
        Ok(service) => built matches Ok(adapter) && adapter.is_ready() && adapter.wrapped()
            == service && adapter@ == Model::uninitialized().step(Op::Construct(true)),
        Err(e) => built matches Err(err) && err == e,
    }
}

/// The adapter of one worker around its wrapped service.
pub struct TowerHttp<S> {
    slot: Option<S>,
    model: Ghost<Model>,
}

impl<S> View for TowerHttp<S> {
    type V = Model;

    closed spec fn view(&self) -> Model {
        self.model@
    }
}

impl<S> TowerHttp<S> {
    #[verifier::type_invariant]
    spec fn inv(&self) -> bool {
        &&& self.model@.well_formed()
        &&& self.model@.phase == if self.slot is Some {
            Phase::Ready
        } else {
            Phase::InFlight
        }
    }

    /// The adapter holds its service: a call may begin.
    #[verifier::when_used_as_spec(spec_is_ready)]
    pub fn is_ready(&self) -> (ready: bool)
        ensures
            ready == self.is_ready(),
    {
        self.slot.is_some()
    }

    /// No call is in flight.
    pub closed spec fn spec_is_ready(&self) -> bool {
        self.slot is Some
    }

    /// The wrapped service, while the adapter holds it.
    pub closed spec fn wrapped(&self) -> S
        recommends
            self.is_ready(),
    {
        self.slot->0
    }

    /// The phase the adapter is in. An adapter exists only once its service
    /// was constructed, so it is never uninitialized.
    pub fn phase(&self) -> (phase: Phase)
        ensures
            phase == self@.phase,
            phase == if self.is_ready() {
                Phase::Ready
            } else {
                Phase::InFlight
            },
            self@.well_formed(),
    {
        proof {
            use_type_invariant(self);
        }
        if self.slot.is_some() {
            Phase::Ready
        } else {
            Phase::InFlight
        }
    }

    /// A ready adapter around `service`.
    pub fn new(service: S) -> (adapter: Self)
        ensures
            adapter.is_ready(),
            adapter.wrapped() == service,
            adapter@ == Model::fresh(),
    {
        TowerHttp { slot: Some(service), model: Ghost(Model::fresh()) }
    }

    /// Ends construction. Where the constructor produced a service, the
    /// result is a ready adapter around it. Where it failed, there is no
    /// adapter, so no call can ever be made, and the error is handed on as
    /// it is.
    pub fn construct<E>(outcome: Result<S, E>) -> (built: Result<Self, E>)
        ensures
            constructed(outcome, built),
    {
        match outcome {
            Ok(service) => Ok(TowerHttp::new(service)),
            Err(e) => Err(e),
        }
    }

    /// Invokes `constructor` once and ends construction with what it
    /// returned.
    pub fn build<F, E>(constructor: &F) -> (built: Result<Self, E>) where F: Fn() -> Result<S, E>
        requires
            call_requires(*constructor, ()),
        ensures
            exists|outcome: Result<S, E>|
                call_ensures(*constructor, (), outcome) && constructed(outcome, built),
    {
        let outcome = constructor();
        Self::construct(outcome)
    }

    /// Begins a call: takes the service out of the adapter and converts the
    /// request for it. Until the call ends, the adapter is not ready.
    pub fn begin_call<H, B>(&mut self, req: Request<H, B>) -> (out: (
        S,
        Request<H, CompatReqBody<B, ()>>,
    ))
        requires
            old(self).is_ready(),
        ensures
            !final(self).is_ready(),
            final(self)@ == old(self)@.step(Op::Begin),
            final(self)@ == old(self)@.begin(),
            out.0 == old(self).wrapped(),
            out.1 == request_for_service(req),
    {
        proof {
            use_type_invariant(&*self);
        }
        let mut taken = TowerHttp { slot: None, model: Ghost(self.model@.begin()) };
        core::mem::swap(self, &mut taken);
        let service = taken.slot.unwrap();
        let (head, body) = req.into_parts();
        (service, Request::from_parts(head, CompatReqBody::new(body, ())))
    }

    /// Ends the call in flight with what the wrapped service returned: puts
    /// the service back and converts the response for the server. An error
    /// of the service is handed on as it is.
    pub fn finish_call<H, B, E>(&mut self, service: S, outcome: Result<Response<H, B>, E>) -> (result:
        Result<Response<H, CompatResBody<B>>, E>)
        requires
            !old(self).is_ready(),
        ensures
            final(self).is_ready(),
            final(self).wrapped() == service,
            final(self)@ == old(self)@.step(Op::End),
            final(self)@ == old(self)@.end(),
            result == settled(outcome),
            outcome matches Err(e) ==> result == Err::<Response<H, CompatResBody<B>>, E>(e),
    {
        self.cancel_call(service);
        match outcome {
            Ok(res) => {
                let (head, body) = res.into_parts();
                Ok(Response::from_parts(head, CompatResBody::new(body)))
            },
            Err(e) => Err(e),
        }
    }

    /// Ends the call in flight without a result, as when the caller gave the
    /// call up: puts the service back, so that the next call can begin.
    pub fn cancel_call(&mut self, service: S)
        requires
            !old(self).is_ready(),
        ensures
            final(self).is_ready(),
            final(self).wrapped() == service,
            final(self)@ == old(self)@.step(Op::End),
            final(self)@ == old(self)@.end(),
    {
        proof {
            use_type_invariant(&*self);
        }
        *self = TowerHttp { slot: Some(service), model: Ghost(self.model@.end()) };
    }

    /// Runs one call from beginning to end. `dispatch` stands for the
    /// wrapped service's own work: it is given the service and the converted
    /// request, once, and returns the service with its response or error.
    pub fn call<H, B, RH, RB, E, F>(&mut self, req: Request<H, B>, dispatch: F) -> (result: Result<
        Response<RH, CompatResBody<RB>>,
        E,
    >) where F: FnOnce(S, Request<H, CompatReqBody<B, ()>>) -> (S, Result<Response<RH, RB>, E>)
        requires
            old(self).is_ready(),
            call_requires(dispatch, (old(self).wrapped(), request_for_service(req))),
        ensures
            final(self).is_ready(),
            final(self)@ == old(self)@.after_calls(1),
            exists|service: S, outcome: Result<Response<RH, RB>, E>|
                call_ensures(
                    dispatch,
                    (old(self).wrapped(), request_for_service(req)),
                    (service, outcome),
                ) && final(self).wrapped() == service && result == settled(outcome),
    {
        assert(self@.after_calls(1) == self@.begin().end()) by {
            reveal_with_fuel(Model::after_calls, 2);
        }
        let (service, converted) = self.begin_call(req);
        let (service, outcome) = dispatch(service, converted);
        self.finish_call(service, outcome)
    }
}

/// The states of several workers' adapters after `steps`, each step an
/// operation asked of the adapter of the worker it names. A step that names
/// no worker changes nothing.
pub open spec fn run_workers(workers: Seq<Model>, steps: Seq<(int, Op)>) -> Seq<Model>
    decreases steps.len(),
{
    if steps.len() == 0 {
        workers
    } else {
        let before = run_workers(workers, steps.drop_last());
        let (worker, op) = steps.last();
        if 0 <= worker < before.len() {
            before.update(worker, before[worker].step(op))
        } else {
            before
        }
    }
}

/// The operations that `steps` ask of `worker`, in order.
pub open spec fn ops_of(steps: Seq<(int, Op)>, worker: int) -> Seq<Op>
    decreases steps.len(),
{
    if steps.len() == 0 {
        Seq::empty()
    } else if steps.last().0 == worker {
        ops_of(steps.drop_last(), worker).push(steps.last().1)
    } else {
        ops_of(steps.drop_last(), worker)
    }
}

/// Whatever is asked of an adapter, in whatever order, its history stays
/// that of calls made one after the other.
pub proof fn lemma_run_keeps_order(start: Model, ops: Seq<Op>)
    requires
        start.well_formed(),
    ensures
        start.run(ops).well_formed(),
    decreases ops.len(),
{
    if ops.len() > 0 {
        lemma_run_keeps_order(start, ops.drop_last());
    }
}

/// Where the constructor never succeeds, the worker stays uninitialized
/// whatever is asked of it: no call ever begins, and the service that does
/// not exist is handed nothing.
pub proof fn lemma_no_call_without_service(ops: Seq<Op>)
    requires
        forall|i: int| 0 <= i < ops.len() ==> #[trigger] ops[i] != Op::Construct(true),
    ensures
        Model::uninitialized().run(ops) == Model::uninitialized(),
    decreases ops.len(),
{
    if ops.len() > 0 {
        lemma_no_call_without_service(ops.drop_last());
    }
}

/// A service is constructed once at most: once a worker has its service,
/// asking for construction again changes nothing.
pub proof fn lemma_constructed_once(m: Model, succeeded: bool)
    requires
        m.phase != Phase::Uninitialized,
    ensures
        m.step(Op::Construct(succeeded)) == m,
{
}

/// Calls made one after the other reach the wrapped service in the order in
/// which they were issued: after `n` of them the history has gained, for each
/// in turn, its beginning and then its end, the adapter is ready for the
/// next, and what had happened before is unchanged.
pub proof fn lemma_sequential_calls(start: Model, n: nat)
    requires
        start.well_formed(),
        start.phase == Phase::Ready,
    ensures
        start.after_calls(n).well_formed(),
        start.after_calls(n).phase == Phase::Ready,
        start.after_calls(n).begun == start.begun + n,
        start.after_calls(n).history.len() == start.history.len() + 2 * n,
        start.after_calls(n).history.take(start.history.len() as int) == start.history,
        forall|i: int|
            start.history.len() <= i < start.history.len() + 2 * n ==> #[trigger] start.after_calls(
                n,
            ).history[i] == event_from(start.begun, i - start.history.len()),
    decreases n,
{
    if n > 0 {
        let before = start.after_calls((n - 1) as nat);
        lemma_sequential_calls(start, (n - 1) as nat);
        let after = start.after_calls(n);
        assert(after.history.take(start.history.len() as int) =~= before.history.take(
            start.history.len() as int,
        ));
    }
}

/// No two calls overlap: in the history of an adapter, a call that began
/// before another gave the service back before the other took it.
pub proof fn lemma_calls_never_overlap(m: Model, i: int, j: int)
    requires
        m.well_formed(),
        0 <= i < j < m.history.len(),
        m.history[i] is Begin,
        m.history[j] is Begin,
    ensures
        i + 1 < j,
        m.history[i + 1] == CallEvent::End(m.history[i]->Begin_0),
        m.history[i]->Begin_0 < m.history[j]->Begin_0,
{
}

/// A call that was given up leaves the adapter as a completed one does:
/// ready, so that the next call begins.
pub proof fn lemma_cancel_releases(m: Model)
    requires
        m.well_formed(),
        m.phase == Phase::Ready,
    ensures
        m.step(Op::Begin).step(Op::End).phase == Phase::Ready,
        m.step(Op::Begin).step(Op::End).well_formed(),
        m.step(Op::Begin).step(Op::End).step(Op::Begin).phase == Phase::InFlight,
{
}

/// Workers do not interfere: after any interleaving of steps, the adapter of
/// each worker is in the state that its own steps alone would have led to.
pub proof fn lemma_workers_independent(workers: Seq<Model>, steps: Seq<(int, Op)>, worker: int)
    requires
        0 <= worker < workers.len(),
    ensures
        run_workers(workers, steps).len() == workers.len(),
        run_workers(workers, steps)[worker] == workers[worker].run(ops_of(steps, worker)),
    decreases steps.len(),
{
    if steps.len() > 0 {
        lemma_workers_independent(workers, steps.drop_last(), worker);
        if steps.last().0 == worker {
            let ops = ops_of(steps, worker);
            assert(ops.drop_last() =~= ops_of(steps.drop_last(), worker));
        }
    }
}

} // verus!
