//! Placeholders for capabilities and pipelines that have not resolved yet.

use crate::error::Error;
use crate::error::ErrorKind;
use vstd::prelude::*;

verus! {

/// One step of a path into the result of a call.
#[derive(Clone, Copy, Debug, PartialEq, Eq, Structural)]
pub enum PipelineOp {
    /// Stay where the path is.
    Noop,
    /// Descend into the pointer field with this index.
    GetPointerField(u16),
}

/// A method call: which method, and what the caller handed over with it.
#[derive(Debug, PartialEq, Eq)]
pub struct Call<A> {
    pub interface_id: u64,
    pub method_id: u16,
    pub params: A,
}

/// What a placeholder stands for once its upstream has settled.
#[derive(Debug, PartialEq, Eq)]
pub enum Resolution<T> {
    /// The upstream resolved to this target.
    Resolved(T),
    /// The upstream failed; every operation fails with this error.
    Broken(Error),
}

/// Hands out the identities of queued clients, each one once.
#[derive(Debug)]
pub struct Identities {
    next: usize,
}

impl Identities {
    /// The identity that the next client gets.
    pub closed spec fn next(&self) -> usize {
        self.next
    }

    /// A source that has handed out nothing yet.
    pub fn new() -> (ids: Identities)
        ensures
            ids.next() == 0,
    {
        Identities { next: 0 }
    }

    /// True when no identity is left to hand out.
    pub fn exhausted(&self) -> (b: bool)
        ensures
            b == (self.next() == usize::MAX),
    {
        self.next == usize::MAX
    }

    fn fresh(&mut self) -> (id: usize)
        requires
            old(self).next() < usize::MAX,
        ensures
            id == old(self).next(),
            final(self).next() == old(self).next() + 1,
    {
        let id: usize = self.next;
        self.next = id + 1;
        id
    }
}

/// Where a queued client stands: it collects calls and observers, or it
/// has settled, with or without a redirect.
#[derive(Debug)]
enum Phase<C, A, O> {
    Pending(Vec<Call<A>>, Vec<O>),
    Settled(Resolution<C>, bool),
}

/// Where a queued pipeline stands: it collects the paths that were asked
/// for, or it has settled, with or without a redirect.
#[derive(Debug)]
enum PipelinePhase<P> {
    Pending(Vec<Vec<PipelineOp>>),
    Settled(Resolution<P>, bool),
}

/// The state of a queued client as contracts see it.
pub struct ClientModel<C, A, O> {
    /// The identity that `get_ptr` reports.
    pub ptr: usize,
    /// How many facades refer to the state.
    pub facades: nat,
    /// The calls that wait to be forwarded, oldest first.
    pub queue: Seq<Call<A>>,
    /// Those who wait to learn the resolution, in the order in which they
    /// asked.
    pub observers: Seq<O>,
    /// What the upstream settled to, once it has.
    pub outcome: Option<Resolution<C>>,
    /// Whether self-resolution found the state alive and set the redirect.
    pub redirected: bool,
}

/// What has to happen to a call that was made on a queued client.
#[derive(Debug, PartialEq, Eq)]
pub enum Dispatch<A> {
    /// The client has not resolved: the call waits at this place in the queue.
    Queued(usize),
    /// The client has resolved: hand the call to its target now.
    Forward(Call<A>),
    /// The client is broken: the call completes with this error.
    Fail(Call<A>, Error),
}

/// What somebody who asks for the resolution is answered with.
#[derive(Debug, PartialEq, Eq)]
pub enum Observed<O> {
    /// The client has not resolved: the observer waits at this place.
    Waiting(usize),
    /// The client has settled: tell the observer at once.
    Ready(O),
}

/// One step that the embedding program performs when a client settles.
#[derive(Debug, PartialEq, Eq)]
pub enum Action<A, O> {
    /// Hand this queued call to the target.
    Forward(Call<A>),
    /// Complete this queued call with the error.
    Fail(Call<A>, Error),
    /// Tell this observer what the client settled to.
    Notify(O),
}

/// What settling a queued client leads to.
#[derive(Debug)]
pub struct Settlement<A, O> {
    /// How the self-resolution step ended.
    pub self_resolution: Result<(), Error>,
    /// What to do, in this order.
    pub actions: Vec<Action<A, O>>,
}

/// A capability that accepts calls before the capability it stands for is
/// known. `C` is the capability that it resolves to, `A` what a call
/// carries, and `O` the handle of somebody who waits for the resolution.
#[derive(Debug)]
pub struct Client<C, A, O> {
    ptr: usize,
    facades: usize,
    phase: Phase<C, A, O>,
}

impl<C, A, O> ClientModel<C, A, O> {
    /// A client whose upstream has not settled, that nobody has called and
    /// that nobody observes.
    pub open spec fn fresh(ptr: usize) -> Self {
        ClientModel {
            ptr,
            facades: 1,
            queue: Seq::empty(),
            observers: Seq::empty(),
            outcome: None,
            redirected: false,
        }
    }

    /// The state after a facade was added.
    pub open spec fn add_ref(self) -> Self {
        ClientModel { facades: self.facades + 1, ..self }
    }

    /// The state after a facade was dropped.
    pub open spec fn release(self) -> Self {
        ClientModel {
            facades: if self.facades > 0 {
                (self.facades - 1) as nat
            } else {
                0
            },
            ..self
        }
    }

    /// The state after a call.
    pub open spec fn call(self, call: Call<A>) -> Self {
        match self.outcome {
            None => ClientModel { queue: self.queue.push(call), ..self },
            Some(_) => self,
        }
    }

    /// What a call is answered with.
    pub open spec fn dispatch(self, call: Call<A>) -> Dispatch<A> {
        match self.outcome {
            None => Dispatch::Queued(self.queue.len() as usize),
            Some(Resolution::Resolved(_)) => Dispatch::Forward(call),
            Some(Resolution::Broken(e)) => Dispatch::Fail(call, e),
        }
    }

    /// The pipeline that a call returns: pending, or broken with the error
    /// that the client is broken with.
    pub open spec fn pipeline_of_call<P>(self) -> PipelineModel<P> {
        match self.outcome {
            Some(Resolution::Broken(e)) => PipelineModel::<P>::broken(e),
            _ => PipelineModel::<P>::fresh(),
        }
    }

    /// The state after somebody asked for the resolution.
    pub open spec fn observe(self, observer: O) -> Self {
        match self.outcome {
            None => ClientModel { observers: self.observers.push(observer), ..self },
            Some(_) => self,
        }
    }

    /// What somebody who asks for the resolution is answered with.
    pub open spec fn observed(self, observer: O) -> Observed<O> {
        match self.outcome {
            None => Observed::Waiting(self.observers.len() as usize),
            Some(_) => Observed::Ready(observer),
        }
    }

    /// The state after the upstream settled to `outcome`.
    pub open spec fn settle(self, outcome: Resolution<C>) -> Self {
        match self.outcome {
            None => ClientModel {
                queue: Seq::empty(),
                observers: Seq::empty(),
                outcome: Some(outcome),
                redirected: self.facades > 0,
                ..self
            },
            Some(_) => self,
        }
    }

    /// The resolution as facades see it: what the upstream settled to, once
    /// self-resolution has set the redirect.
    pub open spec fn resolved(self) -> Option<Resolution<C>> {
        if self.redirected {
            self.outcome
        } else {
            None
        }
    }

    /// The step for one queued call, given what the upstream settled to.
    pub open spec fn step(outcome: Resolution<C>, call: Call<A>) -> Action<A, O> {
        match outcome {
            Resolution::Resolved(_) => Action::Forward(call),
            Resolution::Broken(e) => Action::Fail(call, e),
        }
    }

    /// The steps for the queued calls, oldest first.
    pub open spec fn hand_over(self, outcome: Resolution<C>) -> Seq<Action<A, O>> {
        Seq::new(self.queue.len(), |i: int| Self::step(outcome, self.queue[i]))
    }

    /// The steps for the observers, in the order in which they asked.
    pub open spec fn notify(self) -> Seq<Action<A, O>> {
        Seq::new(self.observers.len(), |i: int| Action::Notify(self.observers[i]))
    }

    /// The steps that settling to `outcome` asks for: first one for each
    /// queued call, then one for each observer.
    pub open spec fn settle_actions(self, outcome: Resolution<C>) -> Seq<Action<A, O>> {
        match self.outcome {
            None => self.hand_over(outcome) + self.notify(),
            Some(_) => Seq::empty(),
        }
    }
}

/// What a result of the upstream stands for as a resolution.
pub open spec fn resolution_of<T>(outcome: Result<T, Error>) -> Resolution<T> {
    match outcome {
        Ok(target) => Resolution::Resolved(target),
        Err(e) => Resolution::Broken(e),
    }
}

impl<C, A, O> View for Client<C, A, O> {
    type V = ClientModel<C, A, O>;

    closed spec fn view(&self) -> ClientModel<C, A, O> {
        match self.phase {
            Phase::Pending(queue, observers) => ClientModel {
                ptr: self.ptr,
                facades: self.facades as nat,
                queue: queue@,
                observers: observers@,
                outcome: None,
                redirected: false,
            },
            Phase::Settled(outcome, redirected) => ClientModel {
                ptr: self.ptr,
                facades: self.facades as nat,
                queue: Seq::empty(),
                observers: Seq::empty(),
                outcome: Some(outcome),
                redirected,
            },
        }
    }
}

impl<C, A, O> Client<C, A, O> {
    /// A client whose upstream has not settled yet, with one facade and an
    /// identity that no other client of `ids` has.
    pub fn new(ids: &mut Identities) -> (client: Client<C, A, O>)
        requires
            old(ids).next() < usize::MAX,
        ensures
            client@ == ClientModel::<C, A, O>::fresh(old(ids).next()),
            final(ids).next() == old(ids).next() + 1,
    {
        let ptr = ids.fresh();
        Client { ptr, facades: 1, phase: Phase::Pending(Vec::new(), Vec::new()) }
    }

    /// The identity of the state behind this client.
    pub fn get_ptr(&self) -> (ptr: usize)
        ensures
            ptr == self@.ptr,
    {
        self.ptr
    }

    /// How many facades refer to the state.
    pub fn facades(&self) -> (facades: usize)
        ensures
            facades == self@.facades,
    {
        self.facades
    }

    /// The origin tag. Queued clients belong to no session: the tag is 0.
    pub fn get_brand(&self) -> (brand: usize)
        ensures
            brand == 0,
    {
        0
    }

    /// Counts one more facade on the same state and returns the identity
    /// that the new facade reports.
    pub fn add_ref(&mut self) -> (ptr: usize)
        requires
            old(self)@.facades < usize::MAX,
        ensures
            final(self)@ == old(self)@.add_ref(),
            ptr == old(self)@.ptr,
    {
        self.facades = self.facades + 1;
        self.ptr
    }

    /// Counts one facade less. Returns true when none is left.
    pub fn release(&mut self) -> (last: bool)
        ensures
            final(self)@ == old(self)@.release(),
            last == (final(self)@.facades == 0),
    {
        if self.facades > 0 {
            self.facades = self.facades - 1;
        }
        self.facades == 0
    }

    /// The resolution, once self-resolution has set it. Does not wait.
    pub fn get_resolved(&self) -> (resolved: Option<&Resolution<C>>)
        ensures
            match resolved {
                Some(r) => self@.resolved() == Some(*r),
                None => self@.resolved() is None,
            },
    {
        match &self.phase {
            Phase::Pending(_, _) => None,
            Phase::Settled(outcome, redirected) => if *redirected {
                Some(outcome)
            } else {
                None
            },
        }
    }

    /// What the upstream settled to, once it has, whether or not
    /// self-resolution set the redirect. This is what queued calls are
    /// forwarded to and what observers are told.
    pub fn settled(&self) -> (seen: Option<&Resolution<C>>)
        ensures
            match seen {
                Some(r) => self@.outcome == Some(*r),
                None => self@.outcome is None,
            },
    {
        match &self.phase {
            Phase::Pending(_, _) => None,
            Phase::Settled(outcome, _) => Some(outcome),
        }
    }

    /// Asks to be told the resolution. While the upstream is pending the
    /// observer joins those who wait; they are told when the client
    /// settles, after the queued calls were handed over. Afterwards the
    /// observer comes straight back, to be told at once. Can be asked any
    /// number of times; every observer is told on its own.
    pub fn when_more_resolved(&mut self, observer: O) -> (observed: Observed<O>)
        ensures
            final(self)@ == old(self)@.observe(observer),
            observed == old(self)@.observed(observer),
    {
        match &mut self.phase {
            Phase::Pending(_, observers) => {
                let place = observers.len();
                observers.push(observer);
                Observed::Waiting(place)
            },
            Phase::Settled(_, _) => Observed::Ready(observer),
        }
    }
}

/// The description of the error that self-resolution of a client reports
/// when no facade is left.
pub open spec fn dangling_client_text() -> Seq<char> {
    "dangling reference to QueuedClient"@
}

/// The description of the error that self-resolution of a pipeline reports
/// when no facade is left.
pub open spec fn dangling_pipeline_text() -> Seq<char> {
    "dangling self reference in queued::Pipeline"@
}

/// How self-resolution ends for a state with so many facades.
pub open spec fn self_resolution_ends(
    result: Result<(), Error>,
    facades: nat,
    text: Seq<char>,
) -> bool {
    match result {
        Ok(_) => facades > 0,
        Err(e) => facades == 0 && e.reads(ErrorKind::Failed, text),
    }
}

impl<C, A, O> Client<C, A, O> {
    /// Makes a call. While the upstream is pending the call joins the
    /// queue; afterwards it is to be forwarded, or failed, at once. The
    /// pipeline of the call is usable immediately: it is pending unless the
    /// client is broken, in which case it is broken with the same error.
    pub fn call<P>(&mut self, interface_id: u64, method_id: u16, params: A) -> (answer: (
        Dispatch<A>,
        Pipeline<P>,
    ))
        ensures
            final(self)@ == old(self)@.call(Call { interface_id, method_id, params }),
            answer.0 == old(self)@.dispatch(Call { interface_id, method_id, params }),
            answer.1@ == old(self)@.pipeline_of_call::<P>(),
    {
        let call = Call { interface_id, method_id, params };
        match &mut self.phase {
            Phase::Pending(queue, _) => {
                let position = queue.len();
                queue.push(call);
                (Dispatch::Queued(position), Pipeline::new())
            },
            Phase::Settled(outcome, _) => match outcome {
                Resolution::Resolved(_) => (Dispatch::Forward(call), Pipeline::new()),
                Resolution::Broken(e) => {
                    let first = e.clone();
                    let second = e.clone();
                    (Dispatch::Fail(call, first), Pipeline::broken(second))
                },
            },
        }
    }

    /// Settles the client: the upstream resolved to a target, or failed.
    /// Self-resolution sets the redirect if a facade is left, and reports a
    /// dangling reference otherwise. Either way every queued call is handed
    /// out, oldest first, and after them every observer, in the order in
    /// which they asked. Settling a second time changes nothing and asks
    /// for nothing.
    pub fn resolve(&mut self, outcome: Result<C, Error>) -> (settlement: Settlement<A, O>)
        ensures
            final(self)@ == old(self)@.settle(resolution_of(outcome)),
            settlement.actions@ == old(self)@.settle_actions(resolution_of(outcome)),
            old(self)@.outcome is None ==> self_resolution_ends(
                settlement.self_resolution,
                old(self)@.facades,
                dangling_client_text(),
            ),
            old(self)@.outcome is Some ==> settlement.self_resolution is Ok,
    {
        let ghost before = self@;
        if let Phase::Settled(_, _) = &self.phase {
            return Settlement { self_resolution: Ok(()), actions: Vec::new() };
        }
        let alive = self.facades > 0;
        let resolution = match outcome {
            Ok(target) => Resolution::Resolved(target),
            Err(e) => Resolution::Broken(e),
        };
        let mut actions: Vec<Action<A, O>> = Vec::new();
        let mut queue: Vec<Call<A>> = Vec::new();
        let mut observers: Vec<O> = Vec::new();
        if let Phase::Pending(calls, waiting) = &mut self.phase {
            core::mem::swap(calls, &mut queue);
            core::mem::swap(waiting, &mut observers);
        }
        for call in it: queue
            invariant
                it.seq() == before.queue,
                actions@ == Seq::new(
                    it.index() as nat,
                    |i: int| ClientModel::<C, A, O>::step(resolution, before.queue[i]),
                ),
        {
            let action = match &resolution {
                Resolution::Resolved(_) => Action::Forward(call),
                Resolution::Broken(e) => Action::Fail(call, e.clone()),
            };
            actions.push(action);
        }
        assert(actions@ == before.hand_over(resolution));
        for observer in it: observers
            invariant
                it.seq() == before.observers,
                actions@ == before.hand_over(resolution) + Seq::new(
                    it.index() as nat,
                    |i: int| Action::<A, O>::Notify(before.observers[i]),
                ),
        {
            actions.push(Action::Notify(observer));
        }
        self.phase = Phase::Settled(resolution, alive);
        let self_resolution = if alive {
            Ok(())
        } else {
            Err(Error::failed("dangling reference to QueuedClient".to_owned()))
        };
        Settlement { self_resolution, actions }
    }
}

/// The state of a queued pipeline as contracts see it.
pub struct PipelineModel<P> {
    /// How many facades refer to the state.
    pub facades: nat,
    /// The paths of the capabilities that were asked for and wait for the
    /// pipeline, oldest first.
    pub queue: Seq<Seq<PipelineOp>>,
    /// What the upstream settled to, once it has.
    pub outcome: Option<Resolution<P>>,
    /// Whether self-resolution found the state alive and set the redirect.
    pub redirected: bool,
}

impl<P> PipelineModel<P> {
    /// A pipeline whose upstream has not settled and that nobody has asked
    /// for a capability.
    pub open spec fn fresh() -> Self {
        PipelineModel { facades: 1, queue: Seq::empty(), outcome: None, redirected: false }
    }

    /// A pipeline that failed with `e` before anybody could ask.
    pub open spec fn broken(e: Error) -> Self {
        PipelineModel {
            facades: 1,
            queue: Seq::empty(),
            outcome: Some(Resolution::Broken(e)),
            redirected: true,
        }
    }
}

/// The result of a call that has not been made yet, as far as capabilities
/// can be taken out of it.
#[derive(Debug)]
pub struct Pipeline<P> {
    facades: usize,
    phase: PipelinePhase<P>,
}

/// The paths that a vector of paths holds.
pub open spec fn paths(queue: Seq<Vec<PipelineOp>>) -> Seq<Seq<PipelineOp>> {
    Seq::new(queue.len(), |i: int| queue[i]@)
}

impl<P> View for Pipeline<P> {
    type V = PipelineModel<P>;

    closed spec fn view(&self) -> PipelineModel<P> {
        match self.phase {
            PipelinePhase::Pending(queue) => PipelineModel {
                facades: self.facades as nat,
                queue: paths(queue@),
                outcome: None,
                redirected: false,
            },
            PipelinePhase::Settled(outcome, redirected) => PipelineModel {
                facades: self.facades as nat,
                queue: Seq::empty(),
                outcome: Some(outcome),
                redirected,
            },
        }
    }
}

impl<P> Pipeline<P> {
    /// A pipeline whose upstream has not settled yet, with one facade.
    pub fn new() -> (pipeline: Pipeline<P>)
        ensures
            pipeline@ == PipelineModel::<P>::fresh(),
    {
        let pipeline = Pipeline { facades: 1, phase: PipelinePhase::Pending(Vec::new()) };
        assert(paths(Seq::<Vec<PipelineOp>>::empty()) =~= Seq::<Seq<PipelineOp>>::empty());
        pipeline
    }

    /// A pipeline that is broken with `e` from the start.
    pub fn broken(e: Error) -> (pipeline: Pipeline<P>)
        ensures
            pipeline@ == PipelineModel::<P>::broken(e),
    {
        Pipeline { facades: 1, phase: PipelinePhase::Settled(Resolution::Broken(e), true) }
    }
}


/// One step that the embedding program performs when a pipeline settles,
/// for one capability that was asked for while the pipeline was pending.
#[derive(Debug, PartialEq, Eq)]
pub enum Extraction {
    /// Take the capability at this path out of the resolved pipeline and
    /// resolve the waiting client to it.
    Extract(Vec<PipelineOp>),
    /// Fail the waiting client with this error.
    Break(Error),
}

/// An extraction as contracts see it.
pub enum ExtractionModel {
    Extract(Seq<PipelineOp>),
    Break(Error),
}

impl View for Extraction {
    type V = ExtractionModel;

    open spec fn view(&self) -> ExtractionModel {
        match *self {
            Extraction::Extract(path) => ExtractionModel::Extract(path@),
            Extraction::Break(e) => ExtractionModel::Break(e),
        }
    }
}

/// The extractions that a vector of them holds.
pub open spec fn extractions(actions: Seq<Extraction>) -> Seq<ExtractionModel> {
    Seq::new(actions.len(), |i: int| actions[i]@)
}

/// What settling a queued pipeline leads to.
#[derive(Debug)]
pub struct PipelineSettlement {
    /// How the self-resolution step ended.
    pub self_resolution: Result<(), Error>,
    /// What to do for the waiting clients, oldest first.
    pub actions: Vec<Extraction>,
}

/// The answer to a request for a pipelined capability.
#[derive(Debug)]
pub enum PipelinedCap<C, A, O> {
    /// The pipeline has resolved: its target answers for this path.
    Delegate(Vec<PipelineOp>),
    /// The pipeline is broken: so is the capability, with this error.
    Broken(Error),
    /// The pipeline is pending: the capability is this new queued client,
    /// which waits at the given place among the pipeline's requests.
    Queued(usize, Client<C, A, O>),
}

impl<C, A, O> PipelinedCap<C, A, O> {
    /// True when this answer is the one that `expected` describes, given
    /// the source of identities before and after the request: only a new
    /// queued client takes an identity, the next one, and it starts out
    /// fresh.
    pub open spec fn answers(self, expected: CapModel, before: Identities, after: Identities) -> bool {
        match self {
            PipelinedCap::Delegate(path) => expected == CapModel::Delegate(path@) && after
                == before,
            PipelinedCap::Broken(e) => expected == CapModel::Broken(e) && after == before,
            PipelinedCap::Queued(place, client) => expected == CapModel::Queued(place as nat)
                && client@ == ClientModel::<C, A, O>::fresh(before.next()) && after.next()
                == before.next() + 1,
        }
    }
}

/// What a request for a pipelined capability is answered with, without the
/// new client's state.
pub enum CapModel {
    Delegate(Seq<PipelineOp>),
    Broken(Error),
    Queued(nat),
}

impl<P> PipelineModel<P> {
    /// The resolution as facades see it: what the upstream settled to, once
    /// self-resolution has set the redirect.
    pub open spec fn resolved(self) -> Option<Resolution<P>> {
        if self.redirected {
            self.outcome
        } else {
            None
        }
    }

    /// The state after a capability at `path` was asked for.
    pub open spec fn request(self, path: Seq<PipelineOp>) -> Self {
        match self.outcome {
            None => PipelineModel { queue: self.queue.push(path), ..self },
            Some(_) => self,
        }
    }

    /// What a request for the capability at `path` is answered with.
    pub open spec fn cap(self, path: Seq<PipelineOp>) -> CapModel {
        match self.outcome {
            None => CapModel::Queued(self.queue.len()),
            Some(Resolution::Resolved(_)) => CapModel::Delegate(path),
            Some(Resolution::Broken(e)) => CapModel::Broken(e),
        }
    }

    /// The state after the upstream settled to `outcome`.
    pub open spec fn settle(self, outcome: Resolution<P>) -> Self {
        match self.outcome {
            None => PipelineModel {
                queue: Seq::empty(),
                outcome: Some(outcome),
                redirected: self.facades > 0,
                ..self
            },
            Some(_) => self,
        }
    }

    /// The step for one waiting client, given what the upstream settled to.
    pub open spec fn step(outcome: Resolution<P>, path: Seq<PipelineOp>) -> ExtractionModel {
        match outcome {
            Resolution::Resolved(_) => ExtractionModel::Extract(path),
            Resolution::Broken(e) => ExtractionModel::Break(e),
        }
    }

    /// The steps that settling to `outcome` asks for: one for each waiting
    /// client, oldest first.
    pub open spec fn settle_actions(self, outcome: Resolution<P>) -> Seq<ExtractionModel> {
        match self.outcome {
            None => Seq::new(self.queue.len(), |i: int| Self::step(outcome, self.queue[i])),
            Some(_) => Seq::empty(),
        }
    }
}

impl<P> Pipeline<P> {
    /// How many facades refer to the state.
    pub fn facades(&self) -> (facades: usize)
        ensures
            facades == self@.facades,
    {
        self.facades
    }

    /// What the upstream settled to, once it has, whether or not
    /// self-resolution set the redirect.
    pub fn settled(&self) -> (seen: Option<&Resolution<P>>)
        ensures
            match seen {
                Some(r) => self@.outcome == Some(*r),
                None => self@.outcome is None,
            },
    {
        match &self.phase {
            PipelinePhase::Pending(_) => None,
            PipelinePhase::Settled(outcome, _) => Some(outcome),
        }
    }

    /// Counts one more facade on the same state.
    pub fn add_ref(&mut self)
        requires
            old(self)@.facades < usize::MAX,
        ensures
            final(self)@ == (PipelineModel { facades: old(self)@.facades + 1, ..old(self)@ }),
    {
        self.facades = self.facades + 1;
    }

    /// Counts one facade less. Returns true when none is left.
    pub fn release(&mut self) -> (last: bool)
        ensures
            final(self)@ == (PipelineModel {
                facades: if old(self)@.facades > 0 {
                    (old(self)@.facades - 1) as nat
                } else {
                    0
                },
                ..old(self)@
            }),
            last == (final(self)@.facades == 0),
    {
        if self.facades > 0 {
            self.facades = self.facades - 1;
        }
        self.facades == 0
    }

    /// The resolution, once self-resolution has set it. Does not wait.
    pub fn get_resolved(&self) -> (resolved: Option<&Resolution<P>>)
        ensures
            match resolved {
                Some(r) => self@.resolved() == Some(*r),
                None => self@.resolved() is None,
            },
    {
        match &self.phase {
            PipelinePhase::Pending(_) => None,
            PipelinePhase::Settled(outcome, redirected) => if *redirected {
                Some(outcome)
            } else {
                None
            },
        }
    }

    /// Asks for the capability at `ops`, taking the path by value. A
    /// settled pipeline answers from what it settled to. A pending one
    /// notes the path and answers with a new queued client that can be
    /// called at once.
    pub fn get_pipelined_cap_move<C, A, O>(
        &mut self,
        ops: Vec<PipelineOp>,
        ids: &mut Identities,
    ) -> (cap: PipelinedCap<C, A, O>)
        requires
            old(self)@.outcome is None ==> old(ids).next() < usize::MAX,
        ensures
            final(self)@ == old(self)@.request(ops@),
            cap.answers(old(self)@.cap(ops@), *old(ids), *final(ids)),
    {
        match &mut self.phase {
            PipelinePhase::Pending(queue) => {
                let place = queue.len();
                proof {
                    assert(paths(queue@.push(ops)) =~= paths(queue@).push(ops@));
                }
                queue.push(ops);
                PipelinedCap::Queued(place, Client::new(ids))
            },
            PipelinePhase::Settled(outcome, _) => match outcome {
                Resolution::Resolved(_) => PipelinedCap::Delegate(ops),
                Resolution::Broken(e) => PipelinedCap::Broken(e.clone()),
            },
        }
    }

    /// Asks for the capability at `ops`, as `get_pipelined_cap_move` does
    /// with a copy of the path.
    pub fn get_pipelined_cap<C, A, O>(&mut self, ops: &[PipelineOp], ids: &mut Identities) -> (cap:
        PipelinedCap<C, A, O>)
        requires
            old(self)@.outcome is None ==> old(ids).next() < usize::MAX,
        ensures
            final(self)@ == old(self)@.request(ops@),
            cap.answers(old(self)@.cap(ops@), *old(ids), *final(ids)),
    {
        let mut path: Vec<PipelineOp> = Vec::new();
        let mut i: usize = 0;
        while i < ops.len()
            invariant
                i <= ops.len(),
                path@ == ops@.take(i as int),
            decreases ops.len() - i,
        {
            path.push(ops[i]);
            proof {
                assert(ops@.take(i + 1) =~= ops@.take(i as int).push(ops@[i as int]));
            }
            i = i + 1;
        }
        proof {
            assert(ops@.take(ops.len() as int) =~= ops@);
        }
        self.get_pipelined_cap_move(path, ids)
    }

    /// Settles the pipeline: the upstream resolved to a target, or failed.
    /// Self-resolution sets the redirect if a facade is left, and reports a
    /// dangling reference otherwise. Either way one step is handed out for
    /// each waiting client, oldest first. Settling a second time changes
    /// nothing and asks for nothing.
    pub fn resolve(&mut self, outcome: Result<P, Error>) -> (settlement: PipelineSettlement)
        ensures
            final(self)@ == old(self)@.settle(resolution_of(outcome)),
            extractions(settlement.actions@) == old(self)@.settle_actions(resolution_of(outcome)),
            old(self)@.outcome is None ==> self_resolution_ends(
                settlement.self_resolution,
                old(self)@.facades,
                dangling_pipeline_text(),
            ),
            old(self)@.outcome is Some ==> settlement.self_resolution is Ok,
    {
        let ghost before = self@;
        if let PipelinePhase::Settled(_, _) = &self.phase {
            let actions: Vec<Extraction> = Vec::new();
            proof {
                assert(extractions(actions@) =~= Seq::<ExtractionModel>::empty());
            }
            return PipelineSettlement { self_resolution: Ok(()), actions };
        }
        let alive = self.facades > 0;
        let resolution = match outcome {
            Ok(target) => Resolution::Resolved(target),
            Err(e) => Resolution::Broken(e),
        };
        let mut actions: Vec<Extraction> = Vec::new();
        let mut queue: Vec<Vec<PipelineOp>> = Vec::new();
        if let PipelinePhase::Pending(waiting) = &mut self.phase {
            core::mem::swap(waiting, &mut queue);
        }
        let ghost waiting = queue@;
        for path in it: queue
            invariant
                it.seq() == waiting,
                paths(waiting) == before.queue,
                extractions(actions@) == Seq::new(
                    it.index() as nat,
                    |i: int| PipelineModel::<P>::step(resolution, before.queue[i]),
                ),
        {
            let action = match &resolution {
                Resolution::Resolved(_) => Extraction::Extract(path),
                Resolution::Broken(e) => Extraction::Break(e.clone()),
            };
            proof {
                assert(extractions(actions@.push(action)) =~= extractions(actions@).push(action@));
            }
            actions.push(action);
        }
        self.phase = PipelinePhase::Settled(resolution, alive);
        let self_resolution = if alive {
            Ok(())
        } else {
            Err(Error::failed("dangling self reference in queued::Pipeline".to_owned()))
        };
        PipelineSettlement { self_resolution, actions }
    }
}

} // verus!
