//! One asynchronous result, shared by any number of branches.
//!
//! A forked promise does not run anything. It keeps the books: which
//! branches there are, which of them drives the computation, which of them
//! wait and have to be woken, and what the result is once it is there.

use crate::error::Error;
use vstd::prelude::*;

verus! {

/// What a branch has to do after it has polled.
#[derive(Clone, Copy, Debug, PartialEq, Eq, Structural)]
pub enum PollStep {
    /// The result is there: take a copy.
    Ready,
    /// This branch drives the computation: poll it, and report its result
    /// when it has one.
    Drive,
    /// Another branch drives the computation: wait to be woken.
    Wait,
}

/// A branch that has to be woken, with the handle to wake it by.
#[derive(Debug, PartialEq, Eq)]
pub struct Woken<W> {
    pub branch: usize,
    pub waker: W,
}

/// The state of a forked promise as contracts see it.
pub struct ForkModel<T, W> {
    /// The result, once it is there.
    pub outcome: Option<Result<T, Error>>,
    /// The branch that drives the computation, if one does.
    pub poller: Option<usize>,
    /// One slot for each branch, in the order in which the branches were
    /// added. The slot holds the handle of a branch that waits.
    pub waiters: Seq<Option<W>>,
}

/// The branches that wait, with their handles, in the order in which the
/// branches were added.
pub open spec fn parked<W>(waiters: Seq<Option<W>>) -> Seq<Woken<W>>
    decreases waiters.len(),
{
    if waiters.len() == 0 {
        Seq::empty()
    } else {
        let earlier = parked(waiters.drop_last());
        match waiters.last() {
            Some(waker) => earlier.push(Woken { branch: (waiters.len() - 1) as usize, waker }),
            None => earlier,
        }
    }
}

/// True when `branch` is the first branch that waits.
pub open spec fn first_parked<W>(waiters: Seq<Option<W>>, branch: int) -> bool {
    &&& 0 <= branch < waiters.len()
    &&& waiters[branch] is Some
    &&& forall|earlier: int| 0 <= earlier < branch ==> waiters[earlier] is None
}

impl<T, W> ForkModel<T, W> {
    /// A promise without a result and without branches.
    pub open spec fn pending() -> Self {
        ForkModel { outcome: None, poller: None, waiters: Seq::empty() }
    }

    /// The state after a branch was added.
    pub open spec fn add_branch(self) -> Self {
        ForkModel { waiters: self.waiters.push(None), ..self }
    }

    /// What `branch` has to do after a poll.
    pub open spec fn step(self, branch: usize) -> PollStep {
        if self.outcome is Some {
            PollStep::Ready
        } else if self.poller is None || self.poller == Some(branch) {
            PollStep::Drive
        } else {
            PollStep::Wait
        }
    }

    /// The state after `branch` polled and left `waker` to be woken by.
    pub open spec fn poll(self, branch: usize, waker: W) -> Self {
        match self.step(branch) {
            PollStep::Ready => self,
            PollStep::Drive => ForkModel {
                poller: Some(branch),
                waiters: self.waiters.update(branch as int, None),
                ..self
            },
            PollStep::Wait => ForkModel {
                waiters: self.waiters.update(branch as int, Some(waker)),
                ..self
            },
        }
    }

    /// The branches to wake when the result arrives.
    pub open spec fn woken(self) -> Seq<Woken<W>> {
        if self.outcome is Some {
            Seq::empty()
        } else {
            parked(self.waiters)
        }
    }

    /// The state after the result arrived. Only the first result counts.
    pub open spec fn resolve(self, outcome: Result<T, Error>) -> Self {
        if self.outcome is Some {
            self
        } else {
            ForkModel {
                outcome: Some(outcome),
                poller: None,
                waiters: Seq::new(self.waiters.len(), |i: int| None),
            }
        }
    }

    /// True when the departure of `branch` leaves the computation without
    /// a driver although the result is not there.
    pub open spec fn orphaned_by(self, branch: usize) -> bool {
        self.outcome is None && self.poller == Some(branch)
    }

    /// The slots after `branch` has left.
    pub open spec fn without(self, branch: usize) -> Seq<Option<W>> {
        self.waiters.update(branch as int, None)
    }

    /// True when `successor` is the branch to wake after `branch` has left:
    /// the first branch that waits, if `branch` drove the computation and
    /// any branch waits, and none otherwise.
    pub open spec fn succeeds(self, branch: usize, successor: Option<Woken<W>>) -> bool {
        match successor {
            Some(next) => self.orphaned_by(branch) && first_parked(
                self.without(branch),
                next.branch as int,
            ) && self.without(branch)[next.branch as int] == Some(next.waker),
            None => !self.orphaned_by(branch) || forall|i: int|
                0 <= i < self.waiters.len() && i != branch ==> (#[trigger] self.waiters[i])
                    is None,
        }
    }

    /// The state after `branch` has left and `successor` was taken out to
    /// be woken.
    pub open spec fn drop_branch(self, branch: usize, successor: Option<Woken<W>>) -> Self {
        ForkModel {
            poller: if self.poller == Some(branch) {
                None
            } else {
                self.poller
            },
            waiters: match successor {
                Some(next) => self.without(branch).update(next.branch as int, None),
                None => self.without(branch),
            },
            ..self
        }
    }
}

/// The books of one asynchronous result that any number of branches wait
/// for. `W` is the handle by which a waiting branch is woken.
#[derive(Debug)]
pub struct ForkedPromise<T, W> {
    outcome: Option<Result<T, Error>>,
    poller: Option<usize>,
    waiters: Vec<Option<W>>,
}

impl<T, W> View for ForkedPromise<T, W> {
    type V = ForkModel<T, W>;

    closed spec fn view(&self) -> ForkModel<T, W> {
        ForkModel { outcome: self.outcome, poller: self.poller, waiters: self.waiters@ }
    }
}

impl<T, W> ForkedPromise<T, W> {
    /// A promise without a result and without branches.
    pub fn new() -> (promise: ForkedPromise<T, W>)
        ensures
            promise@ == ForkModel::<T, W>::pending(),
    {
        ForkedPromise { outcome: None, poller: None, waiters: Vec::new() }
    }

    /// How many branches were added.
    pub fn branches(&self) -> (count: usize)
        ensures
            count == self@.waiters.len(),
    {
        self.waiters.len()
    }

    /// Adds a branch, before or after the result has arrived, and returns
    /// its number. Branches are numbered in the order in which they are
    /// added.
    pub fn add_branch(&mut self) -> (branch: usize)
        ensures
            branch == old(self)@.waiters.len(),
            final(self)@ == old(self)@.add_branch(),
    {
        let branch = self.waiters.len();
        self.waiters.push(None);
        branch
    }

    /// A poll of `branch`. If the result is there the branch can take it.
    /// If nobody drives the computation the branch does from now on.
    /// Otherwise `waker` is kept, in place of an earlier one of the same
    /// branch, and the branch waits.
    pub fn poll(&mut self, branch: usize, waker: W) -> (step: PollStep)
        requires
            branch < old(self)@.waiters.len(),
        ensures
            step == old(self)@.step(branch),
            final(self)@ == old(self)@.poll(branch, waker),
    {
        if self.outcome.is_some() {
            return PollStep::Ready;
        }
        let drives = match self.poller {
            None => true,
            Some(poller) => poller == branch,
        };
        if drives {
            self.poller = Some(branch);
            self.waiters[branch] = None;
            PollStep::Drive
        } else {
            self.waiters[branch] = Some(waker);
            PollStep::Wait
        }
    }

    /// The result, once it is there. Every branch sees the same one.
    pub fn outcome(&self) -> (outcome: Option<&Result<T, Error>>)
        ensures
            match outcome {
                Some(r) => self@.outcome == Some(*r),
                None => self@.outcome is None,
            },
    {
        self.outcome.as_ref()
    }

    /// The result has arrived. Returns the branches to wake: all that
    /// wait, in the order in which the branches were added. A second
    /// result changes nothing and wakes nobody.
    pub fn resolve(&mut self, outcome: Result<T, Error>) -> (woken: Vec<Woken<W>>)
        ensures
            woken@ == old(self)@.woken(),
            final(self)@ == old(self)@.resolve(outcome),
    {
        let mut woken: Vec<Woken<W>> = Vec::new();
        if self.outcome.is_some() {
            return woken;
        }
        let ghost before = self@.waiters;
        let mut i: usize = 0;
        while i < self.waiters.len()
            invariant
                i <= self.waiters.len(),
                self.waiters.len() == before.len(),
                self.outcome == old(self).outcome,
                self.poller == old(self).poller,
                woken@ == parked(before.take(i as int)),
                forall|k: int| 0 <= k < i ==> self.waiters[k] is None,
                forall|k: int| i <= k < before.len() ==> self.waiters[k] == before[k],
            decreases self.waiters.len() - i,
        {
            proof {
                assert(before.take(i + 1).drop_last() =~= before.take(i as int));
            }
            let slot = self.waiters[i].take();
            if let Some(waker) = slot {
                woken.push(Woken { branch: i, waker });
            }
            i = i + 1;
        }
        proof {
            assert(before.take(i as int) =~= before);
            assert(self.waiters@ =~= Seq::new(before.len(), |k: int| None::<W>));
        }
        self.outcome = Some(outcome);
        self.poller = None;
        woken
    }

    /// `branch` is dropped. It no longer waits and no longer drives. If it
    /// drove the computation and the result is not there, the first branch
    /// that waits is taken out and returned: wake it, and its next poll
    /// makes it the driver. So no branch waits for a driver that is gone.
    pub fn drop_branch(&mut self, branch: usize) -> (successor: Option<Woken<W>>)
        requires
            branch < old(self)@.waiters.len(),
        ensures
            old(self)@.succeeds(branch, successor),
            final(self)@ == old(self)@.drop_branch(branch, successor),
    {
        self.waiters[branch] = None;
        let drove = match self.poller {
            None => false,
            Some(poller) => poller == branch,
        };
        if !drove {
            return None;
        }
        self.poller = None;
        if self.outcome.is_some() {
            return None;
        }
        let ghost slots = self.waiters@;
        let mut i: usize = 0;
        while i < self.waiters.len()
            invariant
                i <= self.waiters.len(),
                self.waiters@ == slots,
                slots == old(self)@.without(branch),
                old(self)@.orphaned_by(branch),
                self.outcome == old(self).outcome,
                self.poller is None,
                forall|k: int| 0 <= k < i ==> slots[k] is None,
            decreases self.waiters.len() - i,
        {
            if self.waiters[i].is_some() {
                let slot = self.waiters[i].take();
                match slot {
                    Some(waker) => {
                        proof {
                            assert(first_parked(slots, i as int));
                            assert(self.waiters@ =~= slots.update(i as int, None));
                        }
                        return Some(Woken { branch: i, waker });
                    },
                    None => {
                        return None;
                    },
                }
            }
            i = i + 1;
        }
        proof {
            assert forall|k: int|
                0 <= k < old(self)@.waiters.len() && k != branch implies (#[trigger] old(
                self,
            )@.waiters[k]) is None by {
                assert(slots[k] is None);
            }
        }
        None
    }
}

/// Branches are woken in the order in which they were added: the branches
/// to wake are exactly those that wait, each once and with its own handle,
/// and branch numbers rise along the list. This holds of every list of
/// slots that a promise can have, which is never longer than a vector.
pub proof fn lemma_woken_in_order<W>(waiters: Seq<Option<W>>)
    requires
        waiters.len() <= usize::MAX,
    ensures
        forall|k: int|
            0 <= k < parked(waiters).len() ==> {
                let woken = #[trigger] parked(waiters)[k];
                woken.branch < waiters.len() && waiters[woken.branch as int] == Some(woken.waker)
            },
        forall|j: int, k: int|
            0 <= j < k < parked(waiters).len() ==> (#[trigger] parked(waiters)[j]).branch < (
            #[trigger] parked(waiters)[k]).branch,
        forall|branch: int|
            0 <= branch < waiters.len() && waiters[branch] is Some ==> exists|k: int|
                0 <= k < parked(waiters).len() && (#[trigger] parked(waiters)[k]).branch == branch,
    decreases waiters.len(),
{
    if waiters.len() > 0 {
        let shorter = waiters.drop_last();
        lemma_woken_in_order(shorter);
        let list = parked(waiters);
        let earlier = parked(shorter);
        assert forall|branch: int|
            0 <= branch < waiters.len() && waiters[branch] is Some implies exists|k: int|
            0 <= k < list.len() && (#[trigger] list[k]).branch == branch by {
            if branch < shorter.len() {
                assert(shorter[branch] is Some);
                let k = choose|k: int|
                    0 <= k < earlier.len() && (#[trigger] earlier[k]).branch == branch;
                assert(list.len() >= earlier.len());
                assert(list[k] == earlier[k]);
            } else {
                assert(waiters.last() is Some);
                assert(list == earlier.push(list.last()));
                assert(list[list.len() - 1].branch == branch);
            }
        }
    }
}

/// Once the result is there it stays, and every branch sees it: the
/// branches that are there and those that are added later are told to take
/// it at their next poll, and neither a poll nor a second result changes
/// anything.
pub proof fn lemma_one_outcome<T, W>(
    promise: ForkModel<T, W>,
    outcome: Result<T, Error>,
    branch: usize,
    waker: W,
    second: Result<T, Error>,
)
    requires
        promise.outcome is None,
    ensures
        promise.resolve(outcome).outcome == Some(outcome),
        promise.resolve(outcome).step(branch) == PollStep::Ready,
        promise.resolve(outcome).add_branch().step(branch) == PollStep::Ready,
        promise.resolve(outcome).poll(branch, waker) == promise.resolve(outcome),
        promise.resolve(outcome).resolve(second) == promise.resolve(outcome),
        promise.resolve(outcome).woken() == Seq::<Woken<W>>::empty(),
{
}

/// No branch starves. While the result is not there and a branch drives,
/// every other branch that polls waits for it. When the driver leaves
/// while branches wait, one of them is taken out to be woken; it finds no
/// driver at its next poll, and drives.
pub proof fn lemma_no_starvation<T, W>(
    promise: ForkModel<T, W>,
    driver: usize,
    successor: Option<Woken<W>>,
)
    requires
        promise.outcome is None,
        promise.poller == Some(driver),
        driver < promise.waiters.len(),
        promise.succeeds(driver, successor),
    ensures
        forall|branch: usize|
            branch != driver ==> #[trigger] promise.step(branch) == PollStep::Wait,
        (exists|i: int| 0 <= i < promise.waiters.len() && i != driver && promise.waiters[i] is Some)
            ==> successor is Some,
        successor is Some ==> promise.drop_branch(driver, successor).step(successor->0.branch)
            == PollStep::Drive,
        promise.drop_branch(driver, successor).poller is None,
{
}

} // verus!
