//! Adding and removing packages: the decisions between loading state.json,
//! saving it and rebuilding the system. Requests that queue up while a rebuild
//! runs are taken together: one load, one save and one rebuild for all of them.
use vstd::prelude::*;

use vstd::string::StringExecFns;

use crate::alias::{resolution, resolve, ResolveError, Resolution};
use crate::protocol::{failure, success, Response, ResponseView};
use crate::rebuild::{
    flake_reference_of, lemma_rebuild_always_finishes, module_text, rebuild_failed_text,
    rebuild_steps_left, unit_result_view,
    rebuild_awaits, rebuild_event_answers, lemma_rebuild_awaits_what_it_asks, rebuild_failure, rebuild_next, rebuild_start, Rebuild, RebuildAction,
    RebuildActionView, RebuildEvent, RebuildEventView, RebuildStepView, RebuildView,
};
use crate::text::{framed, joined};
use crate::state::{
    lemma_remove_undoes_add, lemma_updates_keep_names_unique, lemma_without_keeps_the_others,
    lemma_without_shortens_iff_present, without, State,
};

verus! {

/// Whether a request adds a package or removes one.
#[derive(Debug, PartialEq, Eq, Structural, Clone, Copy)]
pub enum PkgOp {
    Add,
    Remove,
}

/// A request to add or remove the package that the user calls `name`, which
/// stands for the nixpkgs attribute `attr`.
#[derive(Debug)]
pub struct PkgRequest {
    pub op: PkgOp,
    pub name: String,
    pub attr: String,
}

pub struct PkgRequestView {
    pub op: PkgOp,
    pub name: Seq<char>,
    pub attr: Seq<char>,
}

impl View for PkgRequest {
    type V = PkgRequestView;

    open spec fn view(&self) -> PkgRequestView {
        PkgRequestView { op: self.op, name: self.name@, attr: self.attr@ }
    }
}

/// Where a batch of package requests stands.
#[derive(Debug)]
pub enum PkgStep {
    /// Waiting for state.json to be loaded; more requests may still join.
    AwaitingState,
    /// Waiting for state.json, which holds `loaded`, to be backed up before
    /// `next` is saved.
    BackingUp { loaded: State, next: State },
    /// Waiting for `next` to be saved to state.json in place of `loaded`.
    Saving { loaded: State, next: State },
    /// Waiting on the rebuild of the system.
    Rebuilding { rebuild: Rebuild },
    /// The requests have been answered.
    Done,
}

pub enum PkgStepView {
    AwaitingState,
    BackingUp { loaded: Seq<Seq<char>>, next: Seq<Seq<char>> },
    Saving { loaded: Seq<Seq<char>>, next: Seq<Seq<char>> },
    Rebuilding { rebuild: RebuildView },
    Done,
}

/// The package requests that are handled together, in the order in which
/// they came.
#[derive(Debug)]
pub struct PkgJob {
    pub requests: Vec<PkgRequest>,
    pub step: PkgStep,
}

pub struct PkgJobView {
    pub requests: Seq<PkgRequestView>,
    pub step: PkgStepView,
}

/// What the daemon is to do next for a batch of package requests.
#[derive(Debug)]
pub enum PkgAction {
    /// Take the rebuild lock and load state.json.
    LoadState,
    /// Copy state.json to its backup.
    BackupState,
    /// Save this state to state.json.
    SaveState(State),
    /// A step of the rebuild.
    Rebuild(RebuildAction),
    /// Answer each request, in order, with its response; the batch is over.
    Reply(Vec<Response>),
}

pub enum PkgActionView {
    LoadState,
    BackupState,
    SaveState(Seq<Seq<char>>),
    Rebuild(RebuildActionView),
    Reply(Seq<ResponseView>),
}

/// What came of the last action, each error as the text that describes it.
#[derive(Debug)]
pub enum PkgEvent {
    StateLoaded(Result<State, String>),
    BackedUp(Result<(), String>),
    Saved(Result<(), String>),
    Rebuild(RebuildEvent),
}

pub enum PkgEventView {
    StateLoaded(Result<Seq<Seq<char>>, Seq<char>>),
    BackedUp(Result<(), Seq<char>>),
    Saved(Result<(), Seq<char>>),
    Rebuild(RebuildEventView),
}

impl View for PkgStep {
    type V = PkgStepView;

    open spec fn view(&self) -> PkgStepView {
        match self {
            PkgStep::AwaitingState => PkgStepView::AwaitingState,
            PkgStep::BackingUp { loaded, next } => PkgStepView::BackingUp { loaded: loaded@, next: next@ },
            PkgStep::Saving { loaded, next } => PkgStepView::Saving { loaded: loaded@, next: next@ },
            PkgStep::Rebuilding { rebuild } => PkgStepView::Rebuilding { rebuild: rebuild@ },
            PkgStep::Done => PkgStepView::Done,
        }
    }
}

/// The requests of a batch as the contracts see them.
pub open spec fn requests_view(requests: Seq<PkgRequest>) -> Seq<PkgRequestView> {
    requests.map_values(|r: PkgRequest| r@)
}

/// The responses of a reply as the contracts see them.
pub open spec fn responses_view(responses: Seq<Response>) -> Seq<ResponseView> {
    responses.map_values(|r: Response| r@)
}

/// Per request, why it was refused, if it was, as the contracts see it.
pub open spec fn outcomes_view(outcomes: Seq<Option<String>>) -> Seq<Option<Seq<char>>> {
    outcomes.map_values(|o: Option<String>| match o {
        Some(m) => Some(m@),
        None => None,
    })
}

impl View for PkgJob {
    type V = PkgJobView;

    open spec fn view(&self) -> PkgJobView {
        PkgJobView { requests: requests_view(self.requests@), step: self.step@ }
    }
}

impl View for PkgAction {
    type V = PkgActionView;

    open spec fn view(&self) -> PkgActionView {
        match self {
            PkgAction::LoadState => PkgActionView::LoadState,
            PkgAction::BackupState => PkgActionView::BackupState,
            PkgAction::SaveState(s) => PkgActionView::SaveState(s@),
            PkgAction::Rebuild(a) => PkgActionView::Rebuild(a@),
            PkgAction::Reply(rs) => PkgActionView::Reply(responses_view(rs@)),
        }
    }
}

impl View for PkgEvent {
    type V = PkgEventView;

    open spec fn view(&self) -> PkgEventView {
        match self {
            PkgEvent::StateLoaded(r) => PkgEventView::StateLoaded(
                match r {
                    Ok(s) => Ok(s@),
                    Err(e) => Err(e@),
                },
            ),
            PkgEvent::BackedUp(r) => PkgEventView::BackedUp(unit_result_view(*r)),
            PkgEvent::Saved(r) => PkgEventView::Saved(unit_result_view(*r)),
            PkgEvent::Rebuild(e) => PkgEventView::Rebuild(e@),
        }
    }
}

/// The answer to a request for a package that NixOS manages through `option`.
pub open spec fn managed_text(name: Seq<char>, option: Seq<char>) -> Seq<char> {
    "'"@ + name + "' is managed by NixOS option `"@ + option + "`; use omarchy-setup to toggle it"@
}

/// The answer to a request for an Arch-only package.
pub open spec fn unavailable_text(name: Seq<char>, reason: Seq<char>) -> Seq<char> {
    "'"@ + name + "' is not available on NixOS: "@ + reason
}

/// How a package request starts: a name that resolves to an attribute is
/// queued to have state.json loaded; any other is refused at once.
pub open spec fn pkg_start(op: PkgOp, name: Seq<char>) -> (PkgJobView, PkgActionView) {
    match resolution(name) {
        Resolution::Attr(attr) => (
            PkgJobView { requests: seq![PkgRequestView { op, name, attr }], step: PkgStepView::AwaitingState },
            PkgActionView::LoadState,
        ),
        Resolution::ServiceManaged(option) => (
            PkgJobView {
                requests: seq![PkgRequestView { op, name, attr: Seq::empty() }],
                step: PkgStepView::Done,
            },
            PkgActionView::Reply(seq![failure(managed_text(name, option))]),
        ),
        Resolution::Eliminated(reason) => (
            PkgJobView {
                requests: seq![PkgRequestView { op, name, attr: Seq::empty() }],
                step: PkgStepView::Done,
            },
            PkgActionView::Reply(seq![failure(unavailable_text(name, reason))]),
        ),
    }
}

/// Whether a batch at `step` waits for `event`.
pub open spec fn pkg_awaits(step: PkgStepView, event: PkgEventView) -> bool {
    match (step, event) {
        (PkgStepView::AwaitingState, PkgEventView::StateLoaded(_)) => true,
        (PkgStepView::BackingUp { .. }, PkgEventView::BackedUp(_)) => true,
        (PkgStepView::Saving { .. }, PkgEventView::Saved(_)) => true,
        (PkgStepView::Rebuilding { rebuild }, PkgEventView::Rebuild(e)) => rebuild_awaits(rebuild.step, e),
        _ => false,
    }
}

/// The batch `job` at `step`, with the same requests.
pub open spec fn at_step(job: PkgJobView, step: PkgStepView) -> PkgJobView {
    PkgJobView { step, ..job }
}

/// What one request makes of the package set, or why it is refused.
pub open spec fn planned_update(request: PkgRequestView, packages: Seq<Seq<char>>) -> Result<Seq<Seq<char>>, Seq<char>> {
    match request.op {
        PkgOp::Add => if packages.contains(request.attr) {
            Err("'"@ + request.name + "' is already installed"@)
        } else {
            Ok(packages.push(request.attr))
        },
        PkgOp::Remove => if without(packages, request.attr).len() == packages.len() {
            Err("'"@ + request.name + "' is not installed"@)
        } else {
            Ok(without(packages, request.attr))
        },
    }
}

/// What `requests`, taken in order, make of the package set, and for each
/// request why it was refused (`None` when it was not): each request that is
/// not refused applies to the set that the ones before it left.
pub open spec fn batch_plan(requests: Seq<PkgRequestView>, packages: Seq<Seq<char>>) -> (Seq<Seq<char>>, Seq<Option<Seq<char>>>)
    decreases requests.len(),
{
    if requests.len() == 0 {
        (packages, Seq::empty())
    } else {
        let (set, outcomes) = batch_plan(requests.drop_last(), packages);
        match planned_update(requests.last(), set) {
            Ok(next) => (next, outcomes.push(None)),
            Err(msg) => (set, outcomes.push(Some(msg))),
        }
    }
}

/// Whether every request of a batch was refused.
pub open spec fn all_refused(outcomes: Seq<Option<Seq<char>>>) -> bool {
    forall|i: int| 0 <= i < outcomes.len() ==> (#[trigger] outcomes[i]) is Some
}

/// The answers of a batch: a refused request is told why; every other one is
/// told `result`, the outcome of the save and rebuild they share.
pub open spec fn batch_answers(outcomes: Seq<Option<Seq<char>>>, result: Result<(), Seq<char>>) -> Seq<ResponseView> {
    Seq::new(outcomes.len(), |i: int| match outcomes[i] {
        Some(msg) => failure(msg),
        None => match result {
            Ok(()) => success(None),
            Err(msg) => failure(msg),
        },
    })
}

/// Per request, why it is refused once the batch's save or rebuild has failed
/// and state.json holds `loaded` again: a request refused in the batch keeps
/// its refusal only when it would be refused on its own against `loaded`; one
/// refused only because of an earlier request of the batch, like every
/// request that was not refused, is told of the failure.
pub open spec fn refusals_after_failure(requests: Seq<PkgRequestView>, loaded: Seq<Seq<char>>) -> Seq<Option<Seq<char>>> {
    Seq::new(requests.len(), |i: int|
        if batch_plan(requests, loaded).1[i] is Some && planned_update(requests[i], loaded) is Err {
            Some(planned_update(requests[i], loaded)->Err_0)
        } else {
            None
        })
}

/// The refusals with which a batch that loaded `loaded` is answered, when its
/// save and rebuild ended with `result`.
pub open spec fn final_refusals(
    requests: Seq<PkgRequestView>,
    loaded: Seq<Seq<char>>,
    result: Result<(), Seq<char>>,
) -> Seq<Option<Seq<char>>> {
    match result {
        Ok(()) => batch_plan(requests, loaded).1,
        Err(_) => refusals_after_failure(requests, loaded),
    }
}

/// Per request, that it was not refused: what a batch records before anything
/// is known of state.json.
pub open spec fn no_refusals(n: nat) -> Seq<Option<Seq<char>>> {
    Seq::new(n, |i: int| None::<Seq<char>>)
}

/// Where a batch at `job` goes on `event`, and what it asks for.
pub open spec fn pkg_next(job: PkgJobView, event: PkgEventView) -> (PkgJobView, PkgActionView) {
    match (job.step, event) {
        (PkgStepView::AwaitingState, PkgEventView::StateLoaded(Err(e))) => (
            at_step(job, PkgStepView::Done),
            PkgActionView::Reply(batch_answers(no_refusals(job.requests.len()), Err("state load failed: "@ + e))),
        ),
        (PkgStepView::AwaitingState, PkgEventView::StateLoaded(Ok(packages))) => {
            let (next, outcomes) = batch_plan(job.requests, packages);
            if all_refused(outcomes) {
                (at_step(job, PkgStepView::Done), PkgActionView::Reply(batch_answers(outcomes, Ok(()))))
            } else {
                (at_step(job, PkgStepView::BackingUp { loaded: packages, next }), PkgActionView::BackupState)
            }
        },
        (PkgStepView::BackingUp { loaded, next }, PkgEventView::BackedUp(_)) => (
            at_step(job, PkgStepView::Saving { loaded, next }),
            PkgActionView::SaveState(next),
        ),
        (PkgStepView::Saving { loaded, .. }, PkgEventView::Saved(Err(e))) => (
            at_step(job, PkgStepView::Done),
            PkgActionView::Reply(batch_answers(
                refusals_after_failure(job.requests, loaded),
                Err("state save failed: "@ + e),
            )),
        ),
        (PkgStepView::Saving { loaded, next }, PkgEventView::Saved(Ok(()))) => (
            at_step(job, PkgStepView::Rebuilding { rebuild: rebuild_start(next, loaded).0 }),
            PkgActionView::Rebuild(rebuild_start(next, loaded).1),
        ),
        (PkgStepView::Rebuilding { rebuild }, PkgEventView::Rebuild(e)) =>
            match rebuild_next(rebuild, e).1 {
                RebuildActionView::Finish(Ok(())) => (
                    at_step(job, PkgStepView::Done),
                    PkgActionView::Reply(batch_answers(batch_plan(job.requests, rebuild.previous).1, Ok(()))),
                ),
                RebuildActionView::Finish(Err(msg)) => (
                    at_step(job, PkgStepView::Done),
                    PkgActionView::Reply(batch_answers(
                        refusals_after_failure(job.requests, rebuild.previous),
                        Err("rebuild failed: "@ + msg),
                    )),
                ),
                action => (
                    at_step(job, PkgStepView::Rebuilding { rebuild: rebuild_next(rebuild, e).0 }),
                    PkgActionView::Rebuild(action),
                ),
            },
        _ => (job, PkgActionView::LoadState),
    }
}

impl PkgRequest {
    /// Works out what this request makes of `loaded`, or why it is refused.
    fn plan(&self, loaded: State) -> (res: Result<State, String>)
        ensures
            match res {
                Ok(s) => planned_update(self@, loaded@) == Ok::<Seq<Seq<char>>, Seq<char>>(s@),
                Err(m) => planned_update(self@, loaded@) == Err::<Seq<Seq<char>>, Seq<char>>(m@),
            },
    {
        let mut next = loaded;
        match self.op {
            PkgOp::Add => {
                if next.contains(self.attr.as_str()) {
                    return Err(framed("'", self.name.as_str(), "' is already installed"));
                }
                next.add(self.attr.as_str());
                Ok(next)
            },
            PkgOp::Remove => {
                let before = next.packages.len();
                next.remove(self.attr.as_str());
                if next.packages.len() == before {
                    return Err(framed("'", self.name.as_str(), "' is not installed"));
                }
                Ok(next)
            },
        }
    }
}

/// Works out what `requests`, in order, make of `loaded`, and which of them
/// are refused and why.
fn plan_batch(requests: &Vec<PkgRequest>, loaded: &State) -> (res: (State, Vec<Option<String>>))
    ensures
        (res.0@, outcomes_view(res.1@)) == batch_plan(requests_view(requests@), loaded@),
{
    let mut set = loaded.duplicate();
    let mut outcomes: Vec<Option<String>> = Vec::new();
    let mut i: usize = 0;
    while i < requests.len()
        invariant
            i <= requests.len(),
            (set@, outcomes_view(outcomes@)) == batch_plan(requests_view(requests@).take(i as int), loaded@),
        decreases requests.len() - i,
    {
        let ghost before = outcomes@;
        let ghost taken = requests_view(requests@).take(i + 1);
        proof {
            assert(taken.drop_last() =~= requests_view(requests@).take(i as int));
            assert(taken.last() == requests[i as int]@);
        }
        match requests[i].plan(set.duplicate()) {
            Ok(next) => {
                set = next;
                outcomes.push(None);
            },
            Err(msg) => {
                outcomes.push(Some(msg));
            },
        }
        proof {
            assert(outcomes_view(outcomes@) =~= outcomes_view(before).push(outcomes_view(outcomes@).last()));
        }
        i = i + 1;
    }
    proof {
        assert(requests_view(requests@).take(requests.len() as int) =~= requests_view(requests@));
    }
    (set, outcomes)
}

/// The answers of a batch whose refusals are `outcomes` and whose save and
/// rebuild ended with `result`.
fn answers(outcomes: &Vec<Option<String>>, result: &Result<(), String>) -> (res: Vec<Response>)
    ensures
        responses_view(res@) == batch_answers(outcomes_view(outcomes@), unit_result_view(*result)),
{
    let mut res: Vec<Response> = Vec::new();
    let mut i: usize = 0;
    while i < outcomes.len()
        invariant
            i <= outcomes.len(),
            responses_view(res@) =~= batch_answers(outcomes_view(outcomes@), unit_result_view(*result)).take(i as int),
        decreases outcomes.len() - i,
    {
        let answer = match &outcomes[i] {
            Some(msg) => Response::err(msg.clone()),
            None => match result {
                Ok(()) => Response::ok(None),
                Err(msg) => Response::err(msg.clone()),
            },
        };
        proof {
            assert(answer@ == batch_answers(outcomes_view(outcomes@), unit_result_view(*result))[i as int]);
        }
        let ghost before = res@;
        res.push(answer);
        proof {
            assert(responses_view(res@) =~= responses_view(before).push(answer@));
        }
        i = i + 1;
    }
    res
}

/// The refusals that a failed batch keeps, given `outcomes`, the refusals
/// that `requests` met in the batch planned from `loaded`.
fn refusals_after_failure_of(
    requests: &Vec<PkgRequest>,
    loaded: &State,
    outcomes: Vec<Option<String>>,
) -> (res: Vec<Option<String>>)
    requires
        outcomes_view(outcomes@) == batch_plan(requests_view(requests@), loaded@).1,
    ensures
        outcomes_view(res@) == refusals_after_failure(requests_view(requests@), loaded@),
{
    proof {
        lemma_batch_plan_len(requests_view(requests@), loaded@);
    }
    let ghost target = refusals_after_failure(requests_view(requests@), loaded@);
    let mut res: Vec<Option<String>> = Vec::new();
    let mut i: usize = 0;
    while i < requests.len()
        invariant
            i <= requests.len(),
            outcomes.len() == requests.len(),
            outcomes_view(outcomes@) == batch_plan(requests_view(requests@), loaded@).1,
            target == refusals_after_failure(requests_view(requests@), loaded@),
            outcomes_view(res@) =~= target.take(i as int),
        decreases requests.len() - i,
    {
        let kept = if outcomes[i].is_some() {
            match requests[i].plan(loaded.duplicate()) {
                Ok(_) => None,
                Err(msg) => Some(msg),
            }
        } else {
            None
        };
        proof {
            assert(requests_view(requests@)[i as int] == requests[i as int]@);
            assert(outcomes_view(outcomes@)[i as int] is Some == outcomes[i as int] is Some);
        }
        let ghost before = res@;
        res.push(kept);
        proof {
            assert(outcomes_view(res@) =~= outcomes_view(before).push(outcomes_view(res@).last()));
        }
        i = i + 1;
    }
    res
}

/// Per request of a batch of `n`, that none was refused.
fn none_refused(n: usize) -> (res: Vec<Option<String>>)
    ensures
        outcomes_view(res@) == no_refusals(n as nat),
{
    let mut res: Vec<Option<String>> = Vec::new();
    let mut i: usize = 0;
    while i < n
        invariant
            i <= n,
            outcomes_view(res@) =~= no_refusals(i as nat),
        decreases n - i,
    {
        let ghost before = res@;
        res.push(None);
        proof {
            assert(outcomes_view(res@) =~= outcomes_view(before).push(None));
        }
        i = i + 1;
    }
    res
}

/// Whether some request of a batch was not refused.
fn some_accepted(outcomes: &Vec<Option<String>>) -> (res: bool)
    ensures
        res == !all_refused(outcomes_view(outcomes@)),
{
    let mut i: usize = 0;
    while i < outcomes.len()
        invariant
            i <= outcomes.len(),
            forall|j: int| 0 <= j < i ==> (#[trigger] outcomes_view(outcomes@)[j]) is Some,
        decreases outcomes.len() - i,
    {
        if outcomes[i].is_none() {
            assert(!(outcomes_view(outcomes@)[i as int] is Some));
            return true;
        }
        i = i + 1;
    }
    false
}

impl PkgJob {
    /// Starts a request to add or remove the package called `name`.
    pub fn start(op: PkgOp, name: &str) -> (res: (PkgJob, PkgAction))
        ensures
            (res.0@, res.1@) == pkg_start(op, name@),
    {
        match resolve(name) {
            Ok(attr) => {
                let request = PkgRequest { op, name: String::from_str(name), attr: String::from_str(attr) };
                let job = PkgJob { requests: vec![request], step: PkgStep::AwaitingState };
                proof {
                    assert(job@.requests =~= seq![PkgRequestView { op, name: name@, attr: attr@ }]);
                }
                (job, PkgAction::LoadState)
            },
            Err(ResolveError::ServiceManaged(option)) => {
                let mut msg = framed("'", name, "' is managed by NixOS option `");
                msg.append(option);
                msg.append("`; use omarchy-setup to toggle it");
                PkgJob::refused(op, name, msg)
            },
            Err(ResolveError::Eliminated(reason)) => {
                let mut msg = framed("'", name, "' is not available on NixOS: ");
                msg.append(reason);
                PkgJob::refused(op, name, msg)
            },
        }
    }

    /// A request for `name` refused at once with `msg`.
    fn refused(op: PkgOp, name: &str, msg: String) -> (res: (PkgJob, PkgAction))
        ensures
            res.0@ == (PkgJobView {
                requests: seq![PkgRequestView { op, name: name@, attr: Seq::empty() }],
                step: PkgStepView::Done,
            }),
            res.1@ == PkgActionView::Reply(seq![failure(msg@)]),
    {
        let request = PkgRequest { op, name: String::from_str(name), attr: String::new() };
        let job = PkgJob { requests: vec![request], step: PkgStep::Done };
        let replies = vec![Response::err(msg)];
        proof {
            assert(job@.requests =~= seq![PkgRequestView { op, name: name@, attr: Seq::empty() }]);
            assert(responses_view(replies@) =~= seq![failure(msg@)]);
        }
        (job, PkgAction::Reply(replies))
    }

    /// Whether the batch still waits for state.json, so that more requests
    /// may join it.
    pub fn is_queued(&self) -> (res: bool)
        ensures
            res == (self.step@ is AwaitingState),
    {
        match self.step {
            PkgStep::AwaitingState => true,
            _ => false,
        }
    }

    /// Takes the requests of `other`, which came later, into this batch.
    pub fn merge(&mut self, other: PkgJob)
        requires
            old(self).step@ is AwaitingState,
            other.step@ is AwaitingState,
        ensures
            final(self)@ == (PkgJobView {
                requests: old(self)@.requests + other@.requests,
                step: PkgStepView::AwaitingState,
            }),
    {
        let mut other = other;
        let ghost mine = self.requests@;
        let ghost theirs = other.requests@;
        self.requests.append(&mut other.requests);
        proof {
            assert(self.requests@ =~= mine + theirs);
            assert(requests_view(mine + theirs) =~= requests_view(mine) + requests_view(theirs));
        }
    }

    /// Whether the batch waits for `event`.
    pub fn awaits(&self, event: &PkgEvent) -> (res: bool)
        ensures
            res == pkg_awaits(self.step@, event@),
    {
        match (&self.step, event) {
            (PkgStep::AwaitingState, PkgEvent::StateLoaded(_)) => true,
            (PkgStep::BackingUp { .. }, PkgEvent::BackedUp(_)) => true,
            (PkgStep::Saving { .. }, PkgEvent::Saved(_)) => true,
            (PkgStep::Rebuilding { rebuild }, PkgEvent::Rebuild(e)) => rebuild.awaits(e),
            _ => false,
        }
    }

    /// Ends the batch: answers each request, given what became of the state
    /// that was `loaded` and the outcome `result` of the save and rebuild.
    fn finish(&mut self, loaded: &State, result: Result<(), String>) -> (action: PkgAction)
        ensures
            final(self)@ == at_step(old(self)@, PkgStepView::Done),
            action@ == PkgActionView::Reply(batch_answers(
                final_refusals(old(self)@.requests, loaded@, unit_result_view(result)),
                unit_result_view(result),
            )),
    {
        let (_, outcomes) = plan_batch(&self.requests, loaded);
        let outcomes = match result {
            Ok(()) => outcomes,
            Err(_) => refusals_after_failure_of(&self.requests, loaded, outcomes),
        };
        self.step = PkgStep::Done;
        PkgAction::Reply(answers(&outcomes, &result))
    }

    /// Takes in what came of the last action and says what to do next.
    pub fn advance(&mut self, event: PkgEvent) -> (action: PkgAction)
        requires
            pkg_awaits(old(self).step@, event@),
        ensures
            (final(self)@, action@) == pkg_next(old(self)@, event@),
    {
        match event {
            PkgEvent::StateLoaded(Err(e)) => {
                let outcomes = none_refused(self.requests.len());
                self.step = PkgStep::Done;
                PkgAction::Reply(answers(&outcomes, &Err(joined("state load failed: ", e.as_str()))))
            },
            PkgEvent::StateLoaded(Ok(loaded)) => {
                let (next, outcomes) = plan_batch(&self.requests, &loaded);
                if some_accepted(&outcomes) {
                    self.step = PkgStep::BackingUp { loaded, next };
                    PkgAction::BackupState
                } else {
                    self.step = PkgStep::Done;
                    PkgAction::Reply(answers(&outcomes, &Ok(())))
                }
            },
            PkgEvent::BackedUp(_) => {
                let (loaded, next) = match &self.step {
                    PkgStep::BackingUp { loaded, next } => (loaded.duplicate(), next.duplicate()),
                    _ => (State::new(), State::new()),
                };
                let saved = next.duplicate();
                self.step = PkgStep::Saving { loaded, next };
                PkgAction::SaveState(saved)
            },
            PkgEvent::Saved(Err(e)) => {
                let loaded = match &self.step {
                    PkgStep::Saving { loaded, .. } => loaded.duplicate(),
                    _ => State::new(),
                };
                self.finish(&loaded, Err(joined("state save failed: ", e.as_str())))
            },
            PkgEvent::Saved(Ok(())) => {
                let (rebuild, action) = match &self.step {
                    PkgStep::Saving { loaded, next } => Rebuild::start(next, loaded.duplicate()),
                    _ => Rebuild::start(&State::new(), State::new()),
                };
                self.step = PkgStep::Rebuilding { rebuild };
                PkgAction::Rebuild(action)
            },
            PkgEvent::Rebuild(e) => {
                let mut rebuild = match &self.step {
                    PkgStep::Rebuilding { rebuild } => rebuild.duplicate(),
                    _ => Rebuild::finished(),
                };
                let action = rebuild.advance(e);
                match action {
                    RebuildAction::Finish(Ok(())) => self.finish(&rebuild.previous, Ok(())),
                    RebuildAction::Finish(Err(msg)) => {
                        self.finish(&rebuild.previous, Err(joined("rebuild failed: ", msg.as_str())))
                    },
                    action => {
                        self.step = PkgStep::Rebuilding { rebuild };
                        PkgAction::Rebuild(action)
                    },
                }
            },
        }
    }
}


/// A batch of one request plans what that request plans.
proof fn lemma_batch_of_one(request: PkgRequestView, packages: Seq<Seq<char>>)
    ensures
        batch_plan(seq![request], packages) == match planned_update(request, packages) {
            Ok(next) => (next, seq![None::<Seq<char>>]),
            Err(msg) => (packages, seq![Some(msg)]),
        },
{
    assert(seq![request].drop_last() =~= Seq::<PkgRequestView>::empty());
    assert(Seq::<Option<Seq<char>>>::empty().push(None) =~= seq![None::<Seq<char>>]);
    reveal_with_fuel(batch_plan, 2);
}

/// A batch plans one outcome per request.
proof fn lemma_batch_plan_len(requests: Seq<PkgRequestView>, packages: Seq<Seq<char>>)
    ensures
        batch_plan(requests, packages).1.len() == requests.len(),
    decreases requests.len(),
{
    if requests.len() > 0 {
        lemma_batch_plan_len(requests.drop_last(), packages);
    }
}

/// A name that does not resolve to a nixpkgs attribute is refused at once:
/// the request is answered with a failure and never touches state.json.
pub proof fn lemma_refused_names_change_nothing(op: PkgOp, name: Seq<char>)
    requires
        !(resolution(name) is Attr),
    ensures
        pkg_start(op, name).0.step == PkgStepView::Done,
        pkg_start(op, name).1 matches PkgActionView::Reply(rs) && rs.len() == 1 && !rs[0].ok,
{
}

/// Adding one package saves the loaded package set with the attribute
/// appended, and only when the attribute was not installed; otherwise the
/// request is refused before anything is written.
pub proof fn lemma_add_saves_loaded_set_plus_attr(
    job: PkgJobView,
    packages: Seq<Seq<char>>,
    backup: Result<(), Seq<char>>,
)
    requires
        job.requests.len() == 1,
        job.requests[0].op == PkgOp::Add,
        job.step == PkgStepView::AwaitingState,
    ensures
        ({
            let request = job.requests[0];
            let (after_load, load_action) = pkg_next(job, PkgEventView::StateLoaded(Ok(packages)));
            &&& packages.contains(request.attr) ==> after_load.step == PkgStepView::Done
                && load_action == PkgActionView::Reply(
                seq![failure("'"@ + request.name + "' is already installed"@)],
            )
            &&& !packages.contains(request.attr) ==> load_action == PkgActionView::BackupState
                && pkg_next(after_load, PkgEventView::BackedUp(backup)).1 == PkgActionView::SaveState(
                packages.push(request.attr),
            )
        }),
{
    let request = job.requests[0];
    assert(job.requests =~= seq![request]);
    lemma_batch_of_one(request, packages);
    let outcomes = batch_plan(job.requests, packages).1;
    if packages.contains(request.attr) {
        assert(batch_answers(outcomes, Ok(())) =~= seq![failure("'"@ + request.name + "' is already installed"@)]);
    } else {
        assert(outcomes[0] is None);
    }
}

/// Removing one package saves the loaded package set without the attribute,
/// and only when the attribute was installed; otherwise the request is refused
/// before anything is written.
pub proof fn lemma_remove_saves_loaded_set_without_attr(
    job: PkgJobView,
    packages: Seq<Seq<char>>,
    backup: Result<(), Seq<char>>,
)
    requires
        job.requests.len() == 1,
        job.requests[0].op == PkgOp::Remove,
        job.step == PkgStepView::AwaitingState,
    ensures
        ({
            let request = job.requests[0];
            let (after_load, load_action) = pkg_next(job, PkgEventView::StateLoaded(Ok(packages)));
            &&& !packages.contains(request.attr) ==> after_load.step == PkgStepView::Done
                && load_action == PkgActionView::Reply(seq![failure("'"@ + request.name + "' is not installed"@)])
            &&& packages.contains(request.attr) ==> load_action == PkgActionView::BackupState
                && pkg_next(after_load, PkgEventView::BackedUp(backup)).1 == PkgActionView::SaveState(
                without(packages, request.attr),
            ) && !without(packages, request.attr).contains(request.attr)
        }),
{
    let request = job.requests[0];
    assert(job.requests =~= seq![request]);
    lemma_batch_of_one(request, packages);
    lemma_without_shortens_iff_present(packages, request.attr);
    lemma_without_keeps_the_others(packages, request.attr);
    let outcomes = batch_plan(job.requests, packages).1;
    if !packages.contains(request.attr) {
        assert(batch_answers(outcomes, Ok(())) =~= seq![failure("'"@ + request.name + "' is not installed"@)]);
    } else {
        assert(outcomes[0] is None);
    }
}

proof fn lemma_batch_plan_keeps_names_unique(requests: Seq<PkgRequestView>, packages: Seq<Seq<char>>)
    requires
        packages.no_duplicates(),
    ensures
        batch_plan(requests, packages).0.no_duplicates(),
    decreases requests.len(),
{
    if requests.len() > 0 {
        lemma_batch_plan_keeps_names_unique(requests.drop_last(), packages);
        lemma_updates_keep_names_unique(batch_plan(requests.drop_last(), packages).0, requests.last().attr);
    }
}

/// A package set with no repeated names keeps that property through the save
/// of a batch.
pub proof fn lemma_saved_sets_keep_names_unique(job: PkgJobView, packages: Seq<Seq<char>>)
    requires
        job.step == PkgStepView::AwaitingState,
        packages.no_duplicates(),
    ensures
        pkg_next(job, PkgEventView::StateLoaded(Ok(packages))).0.step matches PkgStepView::BackingUp { next, .. }
            ==> next.no_duplicates(),
{
    lemma_batch_plan_keeps_names_unique(job.requests, packages);
}

/// Adding a package and then removing it, each with its save and rebuild
/// succeeding, leaves the package set and the module as they were before the
/// add: the add saves the set with the attribute appended, the remove saves
/// the original set back and writes its module, and both are told of success.
pub proof fn lemma_remove_after_add_restores_set(
    name: Seq<char>,
    packages: Seq<Seq<char>>,
    backup: Result<(), Seq<char>>,
    uri_text: Seq<char>,
    status: Seq<char>,
    refresh: Result<(), Seq<char>>,
)
    requires
        resolution(name) is Attr,
        !packages.contains(resolution(name)->Attr_0),
    ensures
        ({
            let attr = resolution(name)->Attr_0;
            let add = pkg_start(PkgOp::Add, name).0;
            let remove = pkg_start(PkgOp::Remove, name).0;
            let add_run = pkg_run(add, smooth_events(packages, backup, uri_text, true, status,
                RebuildEventView::ManifestRefreshed(refresh)));
            let remove_run = pkg_run(remove, smooth_events(packages.push(attr), backup, uri_text, true, status,
                RebuildEventView::ManifestRefreshed(refresh)));
            &&& add_run.0.step == PkgStepView::Done
            &&& add_run.1[1] == PkgActionView::SaveState(packages.push(attr))
            &&& add_run.1[6] == PkgActionView::Reply(seq![success(None)])
            &&& remove_run.0.step == PkgStepView::Done
            &&& remove_run.1[1] == PkgActionView::SaveState(packages)
            &&& remove_run.1[2] == PkgActionView::Rebuild(RebuildActionView::WriteModule { content: module_text(packages) })
            &&& remove_run.1[6] == PkgActionView::Reply(seq![success(None)])
        }),
{
    let attr = resolution(name)->Attr_0;
    let add = pkg_start(PkgOp::Add, name).0;
    let remove = pkg_start(PkgOp::Remove, name).0;
    lemma_batch_of_one(add.requests[0], packages);
    lemma_batch_of_one(remove.requests[0], packages.push(attr));
    assert(add.requests =~= seq![add.requests[0]]);
    assert(remove.requests =~= seq![remove.requests[0]]);
    lemma_remove_undoes_add(packages, attr);
    assert(packages.push(attr).contains(attr)) by {
        assert(packages.push(attr)[packages.len() as int] == attr);
    }
    lemma_without_shortens_iff_present(packages.push(attr), attr);
    let add_outcomes = batch_plan(add.requests, packages).1;
    let remove_outcomes = batch_plan(remove.requests, packages.push(attr)).1;
    assert(!all_refused(add_outcomes)) by {
        assert(!(add_outcomes[0] is Some));
    }
    assert(!all_refused(remove_outcomes)) by {
        assert(!(remove_outcomes[0] is Some));
    }
    lemma_request_installs_planned_set(add, packages, backup, uri_text, status, refresh);
    lemma_request_installs_planned_set(remove, packages.push(attr), backup, uri_text, status, refresh);
    assert(batch_answers(add_outcomes, Ok(())) =~= seq![success(None)]);
    assert(batch_answers(remove_outcomes, Ok(())) =~= seq![success(None)]);
}

/// A batch answers success only to requests that were not refused, and only
/// when its rebuild has reported success, which happens only after the new
/// package set was saved and `nixos-rebuild switch` succeeded; every other
/// answer is a failure with a message. There is one answer per request.
pub proof fn lemma_success_only_after_rebuild(job: PkgJobView, event: PkgEventView)
    requires
        pkg_awaits(job.step, event),
    ensures
        pkg_next(job, event).1 matches PkgActionView::Reply(rs) ==> {
            &&& rs.len() == job.requests.len()
            &&& forall|i: int| 0 <= i < rs.len() ==> {
                &&& (#[trigger] rs[i]).ok ==> (job.step matches PkgStepView::Rebuilding { rebuild }
                    && rebuild.step == RebuildStepView::RefreshingManifest)
                &&& !rs[i].ok ==> rs[i].error is Some && rs[i].data is None
            }
        },
{
    match (job.step, event) {
        (PkgStepView::AwaitingState, PkgEventView::StateLoaded(Ok(packages))) => {
            lemma_batch_plan_len(job.requests, packages);
            let outcomes = batch_plan(job.requests, packages).1;
            if all_refused(outcomes) {
                assert forall|i: int| 0 <= i < outcomes.len() implies !(#[trigger] batch_answers(outcomes, Ok(()))[i]).ok by {
                    assert(outcomes[i] is Some);
                }
            }
        },
        (PkgStepView::Saving { loaded, .. }, _) => lemma_batch_plan_len(job.requests, loaded),
        (PkgStepView::Rebuilding { rebuild }, _) => lemma_batch_plan_len(job.requests, rebuild.previous),
        _ => {},
    }
}

/// The rebuild of a batch starts only once the new package set has been
/// saved to state.json, and it installs exactly that set.
pub proof fn lemma_rebuild_follows_save(job: PkgJobView, event: PkgEventView)
    requires
        pkg_awaits(job.step, event),
    ensures
        pkg_next(job, event).1 matches PkgActionView::Rebuild(RebuildActionView::WriteModule { content }) ==> {
            &&& job.step matches PkgStepView::Saving { next, .. } && content == module_text(next)
            &&& event matches PkgEventView::Saved(Ok(_))
        },
{
    if let (PkgStepView::Rebuilding { rebuild }, PkgEventView::Rebuild(e)) = (job.step, event) {
        assert(!(rebuild_next(rebuild, e).1 is WriteModule));
    }
}

/// Whether `event` is what comes of carrying out `action`: the load, the
/// backup, the save and each step of the rebuild report their own outcome,
/// whatever it is; a reply expects nothing.
pub open spec fn pkg_event_answers(action: PkgActionView, event: PkgEventView) -> bool {
    match (action, event) {
        (PkgActionView::LoadState, PkgEventView::StateLoaded(_)) => true,
        (PkgActionView::BackupState, PkgEventView::BackedUp(_)) => true,
        (PkgActionView::SaveState(_), PkgEventView::Saved(_)) => true,
        (PkgActionView::Rebuild(a), PkgEventView::Rebuild(e)) => rebuild_event_answers(a, e),
        _ => false,
    }
}

/// A batch waits for the outcome of each action it asks for: after a request
/// starts, and after each event the batch takes in, every event that reports
/// what came of the action it asked for, success or failure, is one it waits
/// for; so the daemon can always hand back what came of an action.
pub proof fn lemma_batch_awaits_what_it_asks(
    op: PkgOp,
    name: Seq<char>,
    job: PkgJobView,
    event: PkgEventView,
    answer: PkgEventView,
)
    ensures
        pkg_event_answers(pkg_start(op, name).1, answer) ==> pkg_awaits(pkg_start(op, name).0.step, answer),
        pkg_awaits(job.step, event) && pkg_event_answers(pkg_next(job, event).1, answer)
            ==> pkg_awaits(pkg_next(job, event).0.step, answer),
{
    match (job.step, event, answer) {
        (PkgStepView::Saving { loaded, next }, PkgEventView::Saved(Ok(())), PkgEventView::Rebuild(a)) => {
            lemma_rebuild_awaits_what_it_asks(next, loaded, rebuild_start(next, loaded).0, RebuildEventView::ModuleWritten(Ok(())), a);
        },
        (PkgStepView::Rebuilding { rebuild }, PkgEventView::Rebuild(e), PkgEventView::Rebuild(a)) => {
            lemma_rebuild_awaits_what_it_asks(Seq::empty(), Seq::empty(), rebuild, e, a);
        },
        _ => {},
    }
}

/// How many more events a batch at `step` can take at most.
pub open spec fn pkg_steps_left(step: PkgStepView) -> nat {
    match step {
        PkgStepView::AwaitingState => 8,
        PkgStepView::BackingUp { .. } => 7,
        PkgStepView::Saving { .. } => 6,
        PkgStepView::Rebuilding { rebuild } => 1 + rebuild_steps_left(rebuild.step),
        PkgStepView::Done => 0,
    }
}

/// Every batch is answered: each event it waits for brings it closer to its
/// answer, an answered batch waits for nothing, and the step that answers
/// ends it.
pub proof fn lemma_requests_are_always_answered(job: PkgJobView, event: PkgEventView)
    ensures
        pkg_awaits(job.step, event) ==> pkg_steps_left(pkg_next(job, event).0.step) < pkg_steps_left(job.step),
        job.step == PkgStepView::Done ==> !pkg_awaits(job.step, event),
        pkg_awaits(job.step, event) ==> (pkg_next(job, event).1 is Reply
            <==> pkg_next(job, event).0.step == PkgStepView::Done),
{
    if let (PkgStepView::Rebuilding { rebuild }, PkgEventView::Rebuild(e)) = (job.step, event) {
        lemma_rebuild_always_finishes(rebuild, e);
    }
}

/// The actions that a batch at `job` asks for as it takes in `events` one by
/// one, and where it ends.
pub open spec fn pkg_run(job: PkgJobView, events: Seq<PkgEventView>) -> (PkgJobView, Seq<PkgActionView>)
    decreases events.len(),
{
    if events.len() == 0 {
        (job, Seq::empty())
    } else {
        let (next_job, action) = pkg_next(job, events[0]);
        let (last_job, actions) = pkg_run(next_job, events.drop_first());
        (last_job, seq![action] + actions)
    }
}

/// The events of a batch whose steps all succeed: state.json loads as
/// `packages`, the backup gives `backup`, the save and the module write
/// succeed, the flake URI file holds `uri_text`, `nixos-rebuild switch`
/// ends with `success` and `status`, and `last` follows.
pub open spec fn smooth_events(
    packages: Seq<Seq<char>>,
    backup: Result<(), Seq<char>>,
    uri_text: Seq<char>,
    success: bool,
    status: Seq<char>,
    last: RebuildEventView,
) -> Seq<PkgEventView> {
    seq![
        PkgEventView::StateLoaded(Ok(packages)),
        PkgEventView::BackedUp(backup),
        PkgEventView::Saved(Ok(())),
        PkgEventView::Rebuild(RebuildEventView::ModuleWritten(Ok(()))),
        PkgEventView::Rebuild(RebuildEventView::FlakeUriRead(Ok(uri_text))),
        PkgEventView::Rebuild(RebuildEventView::RebuildRan(Ok((success, status)))),
        PkgEventView::Rebuild(last),
    ]
}

/// A batch of which some request is not refused, when every step succeeds:
/// the planned package set is saved, its module is written, `nixos-rebuild
/// switch` runs once on the configured flake, the manifest is refreshed, and
/// every request that was not refused is told of success, whatever came of the
/// backup and of the refresh.
pub proof fn lemma_request_installs_planned_set(
    job: PkgJobView,
    packages: Seq<Seq<char>>,
    backup: Result<(), Seq<char>>,
    uri_text: Seq<char>,
    status: Seq<char>,
    refresh: Result<(), Seq<char>>,
)
    requires
        job.step == PkgStepView::AwaitingState,
        !all_refused(batch_plan(job.requests, packages).1),
    ensures
        ({
            let (next, outcomes) = batch_plan(job.requests, packages);
            let events = smooth_events(packages, backup, uri_text, true, status,
                RebuildEventView::ManifestRefreshed(refresh));
            &&& pkg_run(job, events).0.step == PkgStepView::Done
            &&& pkg_run(job, events).1 == seq![
                PkgActionView::BackupState,
                PkgActionView::SaveState(next),
                PkgActionView::Rebuild(RebuildActionView::WriteModule { content: module_text(next) }),
                PkgActionView::Rebuild(RebuildActionView::ReadFlakeUri),
                PkgActionView::Rebuild(RebuildActionView::RunRebuild { flake: flake_reference_of(uri_text) }),
                PkgActionView::Rebuild(RebuildActionView::RefreshManifest),
                PkgActionView::Reply(batch_answers(outcomes, Ok(()))),
            ]
        }),
{
    let (next, outcomes) = batch_plan(job.requests, packages);
    let events = smooth_events(packages, backup, uri_text, true, status,
        RebuildEventView::ManifestRefreshed(refresh));
    reveal_with_fuel(pkg_run, 8);
    assert(events.drop_first().drop_first().drop_first().drop_first().drop_first().drop_first().drop_first().len() == 0);
    assert(pkg_run(job, events).1 =~= seq![
        PkgActionView::BackupState,
        PkgActionView::SaveState(next),
        PkgActionView::Rebuild(RebuildActionView::WriteModule { content: module_text(next) }),
        PkgActionView::Rebuild(RebuildActionView::ReadFlakeUri),
        PkgActionView::Rebuild(RebuildActionView::RunRebuild { flake: flake_reference_of(uri_text) }),
        PkgActionView::Rebuild(RebuildActionView::RefreshManifest),
        PkgActionView::Reply(batch_answers(outcomes, Ok(()))),
    ]);
}

/// A batch whose `nixos-rebuild switch` fails, after the planned package set
/// was saved: state.json is written back to the package set that was loaded
/// for the batch, whatever came of the backup (so also when there was none to
/// take, as on a first add), and every request that was not refused is told
/// that the rebuild failed, with the exit status.
pub proof fn lemma_failed_rebuild_rolls_back_request(
    job: PkgJobView,
    packages: Seq<Seq<char>>,
    backup: Result<(), Seq<char>>,
    uri_text: Seq<char>,
    status: Seq<char>,
)
    requires
        job.step == PkgStepView::AwaitingState,
        !all_refused(batch_plan(job.requests, packages).1),
    ensures
        ({
            let (next, outcomes) = batch_plan(job.requests, packages);
            let events = smooth_events(packages, backup, uri_text, false, status,
                RebuildEventView::StateRestored(Ok(())));
            &&& pkg_run(job, events).0.step == PkgStepView::Done
            &&& pkg_run(job, events).1 == seq![
                PkgActionView::BackupState,
                PkgActionView::SaveState(next),
                PkgActionView::Rebuild(RebuildActionView::WriteModule { content: module_text(next) }),
                PkgActionView::Rebuild(RebuildActionView::ReadFlakeUri),
                PkgActionView::Rebuild(RebuildActionView::RunRebuild { flake: flake_reference_of(uri_text) }),
                PkgActionView::Rebuild(RebuildActionView::RestoreState(packages)),
                PkgActionView::Reply(batch_answers(
                    refusals_after_failure(job.requests, packages),
                    Err("rebuild failed: "@ + rebuild_failed_text(status)),
                )),
            ]
        }),
{
    let (next, outcomes) = batch_plan(job.requests, packages);
    let events = smooth_events(packages, backup, uri_text, false, status,
        RebuildEventView::StateRestored(Ok(())));
    reveal_with_fuel(pkg_run, 8);
    assert(events.drop_first().drop_first().drop_first().drop_first().drop_first().drop_first().drop_first().len() == 0);
    assert(pkg_run(job, events).1 =~= seq![
        PkgActionView::BackupState,
        PkgActionView::SaveState(next),
        PkgActionView::Rebuild(RebuildActionView::WriteModule { content: module_text(next) }),
        PkgActionView::Rebuild(RebuildActionView::ReadFlakeUri),
        PkgActionView::Rebuild(RebuildActionView::RunRebuild { flake: flake_reference_of(uri_text) }),
        PkgActionView::Rebuild(RebuildActionView::RestoreState(packages)),
        PkgActionView::Reply(batch_answers(
                    refusals_after_failure(job.requests, packages),
                    Err("rebuild failed: "@ + rebuild_failed_text(status)),
                )),
    ]);
}

/// Two add requests queued together, for two different packages that are not
/// installed: both packages are saved and installed by exactly one
/// `nixos-rebuild switch`, and both requests are told of success.
pub proof fn lemma_queued_adds_share_one_rebuild(
    first: Seq<char>,
    second: Seq<char>,
    packages: Seq<Seq<char>>,
    backup: Result<(), Seq<char>>,
    uri_text: Seq<char>,
    status: Seq<char>,
    refresh: Result<(), Seq<char>>,
)
    requires
        resolution(first) is Attr,
        resolution(second) is Attr,
        resolution(first)->Attr_0 != resolution(second)->Attr_0,
        !packages.contains(resolution(first)->Attr_0),
        !packages.contains(resolution(second)->Attr_0),
    ensures
        ({
            let job = PkgJobView {
                requests: pkg_start(PkgOp::Add, first).0.requests + pkg_start(PkgOp::Add, second).0.requests,
                step: PkgStepView::AwaitingState,
            };
            let both = packages.push(resolution(first)->Attr_0).push(resolution(second)->Attr_0);
            let events = smooth_events(packages, backup, uri_text, true, status,
                RebuildEventView::ManifestRefreshed(refresh));
            &&& pkg_run(job, events).0.step == PkgStepView::Done
            &&& pkg_run(job, events).1 == seq![
                PkgActionView::BackupState,
                PkgActionView::SaveState(both),
                PkgActionView::Rebuild(RebuildActionView::WriteModule { content: module_text(both) }),
                PkgActionView::Rebuild(RebuildActionView::ReadFlakeUri),
                PkgActionView::Rebuild(RebuildActionView::RunRebuild { flake: flake_reference_of(uri_text) }),
                PkgActionView::Rebuild(RebuildActionView::RefreshManifest),
                PkgActionView::Reply(seq![success(None), success(None)]),
            ]
        }),
{
    let a1 = resolution(first)->Attr_0;
    let a2 = resolution(second)->Attr_0;
    let requests = pkg_start(PkgOp::Add, first).0.requests + pkg_start(PkgOp::Add, second).0.requests;
    let job = PkgJobView { requests, step: PkgStepView::AwaitingState };
    let r1 = requests[0];
    let r2 = requests[1];
    assert(requests.drop_last() =~= seq![r1]);
    assert(requests.last() == r2);
    lemma_batch_of_one(r1, packages);
    assert(!packages.push(a1).contains(a2)) by {
        if packages.push(a1).contains(a2) {
            let k = choose|k: int| 0 <= k < packages.len() + 1 && packages.push(a1)[k] == a2;
            assert(packages[k] == a2);
        }
    }
    assert(batch_plan(requests, packages) == (packages.push(a1).push(a2), seq![None::<Seq<char>>, None]));
    let outcomes = batch_plan(requests, packages).1;
    assert(!all_refused(outcomes)) by {
        assert(!(outcomes[0] is Some));
    }
    lemma_request_installs_planned_set(job, packages, backup, uri_text, status, refresh);
    assert(batch_answers(outcomes, Ok(())) =~= seq![success(None), success(None)]);
}

/// The writes of a batch, one event at a time: the loaded package set is
/// kept from the load until the rebuild ends; a save writes the planned set;
/// and every failure of the rebuild, a failed `nixos-rebuild switch` among
/// them, writes the loaded set back to state.json.
pub proof fn lemma_rebuild_failure_writes_back_loaded_set(job: PkgJobView, event: PkgEventView)
    requires
        pkg_awaits(job.step, event),
    ensures
        ({
            let (after, action) = pkg_next(job, event);
            &&& event matches PkgEventView::StateLoaded(Ok(packages))
                ==> (after.step matches PkgStepView::BackingUp { loaded, next }
                    ==> loaded == packages && next == batch_plan(job.requests, packages).0)
            &&& job.step matches PkgStepView::BackingUp { loaded, next }
                ==> after.step == (PkgStepView::Saving { loaded, next }) && action == PkgActionView::SaveState(next)
            &&& job.step matches PkgStepView::Saving { loaded, .. }
                ==> (after.step matches PkgStepView::Rebuilding { rebuild } ==> rebuild.previous == loaded)
            &&& job.step matches PkgStepView::Rebuilding { rebuild }
                ==> (after.step matches PkgStepView::Rebuilding { rebuild: later } ==> later.previous == rebuild.previous)
            &&& job.step matches PkgStepView::Rebuilding { rebuild }
                ==> (event matches PkgEventView::Rebuild(e)
                ==> (rebuild_failure(e) is Some
                ==> action == PkgActionView::Rebuild(RebuildActionView::RestoreState(rebuild.previous))))
            &&& action matches PkgActionView::Rebuild(RebuildActionView::RestoreState(s))
                ==> (job.step matches PkgStepView::Rebuilding { rebuild } && s == rebuild.previous)
        }),
{
    if let (PkgStepView::Rebuilding { rebuild }, PkgEventView::Rebuild(e)) = (job.step, event) {
        lemma_rebuild_always_finishes(rebuild, e);
    }
}

/// Whether a batch at `job` waits for each of `events` in turn.
pub open spec fn pkg_accepts(job: PkgJobView, events: Seq<PkgEventView>) -> bool
    decreases events.len(),
{
    events.len() == 0 || (pkg_awaits(job.step, events[0])
        && pkg_accepts(pkg_next(job, events[0]).0, events.drop_first()))
}

/// The package set whose write to state.json `event` reports as done, for a
/// batch at `job`: the planned set after a save, the loaded set after a
/// failed rebuild's write-back.
pub open spec fn confirmed_write(job: PkgJobView, event: PkgEventView) -> Option<Seq<Seq<char>>> {
    match (job.step, event) {
        (PkgStepView::Saving { next, .. }, PkgEventView::Saved(Ok(()))) => Some(next),
        (PkgStepView::Rebuilding { rebuild }, PkgEventView::Rebuild(RebuildEventView::StateRestored(Ok(())))) =>
            Some(rebuild.previous),
        _ => None,
    }
}

/// What state.json holds after a batch at `job` takes in `events`, when it
/// held `held` before: each write whose success an event reports takes
/// effect, and a write that failed leaves the file as it was (the daemon
/// writes it to a temporary file and renames that over it).
pub open spec fn state_file_after(job: PkgJobView, events: Seq<PkgEventView>, held: Seq<Seq<char>>) -> Seq<Seq<char>>
    decreases events.len(),
{
    if events.len() == 0 {
        held
    } else {
        let held_next = match confirmed_write(job, events[0]) {
            Some(s) => s,
            None => held,
        };
        state_file_after(pkg_next(job, events[0]).0, events.drop_first(), held_next)
    }
}

/// Whether none of `events` reports that writing the loaded set back to
/// state.json failed.
pub open spec fn write_backs_succeed(events: Seq<PkgEventView>) -> bool {
    forall|i: int| 0 <= i < events.len()
        ==> !(#[trigger] events[i] matches PkgEventView::Rebuild(RebuildEventView::StateRestored(Err(_))))
}

/// What holds of a batch between its load and its answer, when state.json
/// held `packages` as it was loaded and holds `held` now: some request was not
/// refused; until the save, the file is untouched; during the rebuild it holds
/// the planned set, and the rebuild keeps the loaded set to write back.
pub open spec fn pkg_rollback_inv(job: PkgJobView, packages: Seq<Seq<char>>, held: Seq<Seq<char>>) -> bool {
    &&& !all_refused(batch_plan(job.requests, packages).1)
    &&& match job.step {
        PkgStepView::BackingUp { loaded, next } => loaded == packages && held == packages
            && next == batch_plan(job.requests, packages).0,
        PkgStepView::Saving { loaded, next } => loaded == packages && held == packages
            && next == batch_plan(job.requests, packages).0,
        PkgStepView::Rebuilding { rebuild } => rebuild.previous == packages
            && held == batch_plan(job.requests, packages).0
            && rebuild.step != RebuildStepView::Finished,
        _ => false,
    }
}

/// Whether some request of a batch was told of success.
pub open spec fn answers_include_success(rs: Seq<ResponseView>) -> bool {
    exists|i: int| 0 <= i < rs.len() && (#[trigger] rs[i]).ok
}

proof fn lemma_answers_include_success(outcomes: Seq<Option<Seq<char>>>, result: Result<(), Seq<char>>)
    ensures
        answers_include_success(batch_answers(outcomes, result)) <==> (result is Ok && !all_refused(outcomes)),
{
    let rs = batch_answers(outcomes, result);
    if result is Ok && !all_refused(outcomes) {
        let i = choose|i: int| 0 <= i < outcomes.len() && !(#[trigger] outcomes[i] is Some);
        assert(rs[i].ok);
    }
    if answers_include_success(rs) {
        let i = choose|i: int| 0 <= i < rs.len() && (#[trigger] rs[i]).ok;
        assert(!(outcomes[i] is Some));
    }
}

proof fn lemma_rollback_inv_holds_to_the_answer(
    job: PkgJobView,
    packages: Seq<Seq<char>>,
    held: Seq<Seq<char>>,
    events: Seq<PkgEventView>,
)
    requires
        pkg_rollback_inv(job, packages, held),
        pkg_accepts(job, events),
        write_backs_succeed(events),
    ensures
        ({
            let (last, actions) = pkg_run(job, events);
            last.step == PkgStepView::Done ==> {
                &&& actions.len() > 0
                &&& actions.last() matches PkgActionView::Reply(r)
                &&& answers_include_success(r) ==> state_file_after(job, events, held) == batch_plan(job.requests, packages).0
                &&& !answers_include_success(r) ==> state_file_after(job, events, held) == packages
            }
        }),
    decreases events.len(),
{
    if events.len() > 0 {
        let e = events[0];
        let rest = events.drop_first();
        let (after, action) = pkg_next(job, e);
        let held_next = match confirmed_write(job, e) {
            Some(s) => s,
            None => held,
        };
        assert(!(e matches PkgEventView::Rebuild(RebuildEventView::StateRestored(Err(_))))) by {
            assert(events[0] == e);
        }
        assert(write_backs_succeed(rest)) by {
            assert forall|i: int| 0 <= i < rest.len()
                implies !(#[trigger] rest[i] matches PkgEventView::Rebuild(RebuildEventView::StateRestored(Err(_)))) by {
                assert(rest[i] == events[i + 1]);
            }
        }
        lemma_requests_are_always_answered(job, e);
        if let (PkgStepView::Rebuilding { rebuild }, PkgEventView::Rebuild(re)) = (job.step, e) {
            lemma_rebuild_always_finishes(rebuild, re);
        }
        if after.step == PkgStepView::Done {
            assert(rest.len() == 0) by {
                assert(pkg_accepts(after, rest));
                if rest.len() > 0 {
                    assert(pkg_awaits(after.step, rest[0]));
                    lemma_requests_are_always_answered(after, rest[0]);
                }
            }
            assert(pkg_run(after, rest).1 =~= Seq::<PkgActionView>::empty());
            assert(pkg_run(job, events).1 =~= seq![action]);
            assert(state_file_after(after, rest, held_next) == held_next);
            assert(state_file_after(job, events, held) == held_next);
            match (job.step, e) {
                (PkgStepView::Saving { loaded, .. }, PkgEventView::Saved(Err(msg))) =>
                    lemma_answers_include_success(refusals_after_failure(job.requests, loaded), Err("state save failed: "@ + msg)),
                (PkgStepView::Rebuilding { rebuild }, PkgEventView::Rebuild(re)) => {
                    let outcomes = batch_plan(job.requests, rebuild.previous).1;
                    match rebuild_next(rebuild, re).1 {
                        RebuildActionView::Finish(Ok(())) => lemma_answers_include_success(outcomes, Ok(())),
                        RebuildActionView::Finish(Err(msg)) => lemma_answers_include_success(
                            refusals_after_failure(job.requests, rebuild.previous),
                            Err("rebuild failed: "@ + msg),
                        ),
                        _ => {},
                    }
                },
                _ => {},
            }
        } else {
            assert(pkg_rollback_inv(after, packages, held_next));
            assert(state_file_after(job, events, held) == state_file_after(after, rest, held_next));
            lemma_rollback_inv_holds_to_the_answer(after, packages, held_next, rest);
            let tail = pkg_run(after, rest).1;
            if pkg_run(after, rest).0.step == PkgStepView::Done {
                assert((seq![action] + tail).last() == tail.last());
            }
        }
    }
}

/// A batch that has been answered leaves state.json holding the planned
/// package set when it told some request of success, and the set it loaded
/// when it told none, whatever failed: refusals, a failed save, a module that
/// could not be written, a missing flake URI, or a failed `nixos-rebuild
/// switch`; and whatever came of the backup. This holds when the write-back
/// of the loaded set itself succeeds.
pub proof fn lemma_answered_request_leaves_consistent_state(
    job: PkgJobView,
    packages: Seq<Seq<char>>,
    rest: Seq<PkgEventView>,
)
    requires
        job.step == PkgStepView::AwaitingState,
        pkg_accepts(job, seq![PkgEventView::StateLoaded(Ok(packages))] + rest),
        write_backs_succeed(rest),
    ensures
        ({
            let events = seq![PkgEventView::StateLoaded(Ok(packages))] + rest;
            let (last, actions) = pkg_run(job, events);
            last.step == PkgStepView::Done ==> {
                &&& actions.last() matches PkgActionView::Reply(r)
                &&& answers_include_success(r) ==> state_file_after(job, events, packages) == batch_plan(job.requests, packages).0
                &&& !answers_include_success(r) ==> state_file_after(job, events, packages) == packages
            }
        }),
{
    let e = PkgEventView::StateLoaded(Ok(packages));
    let events = seq![e] + rest;
    assert(events[0] == e);
    assert(events.drop_first() =~= rest);
    let (after, action) = pkg_next(job, e);
    assert(confirmed_write(job, e) is None);
    if after.step == PkgStepView::Done {
        assert(rest.len() == 0) by {
            assert(pkg_accepts(after, rest));
            if rest.len() > 0 {
                assert(pkg_awaits(after.step, rest[0]));
                lemma_requests_are_always_answered(after, rest[0]);
            }
        }
        assert(pkg_run(after, rest).1 =~= Seq::<PkgActionView>::empty());
        assert(pkg_run(job, events).1 =~= seq![action]);
        assert(state_file_after(after, rest, packages) == packages);
        assert(state_file_after(job, events, packages) == packages);
        lemma_answers_include_success(batch_plan(job.requests, packages).1, Ok(()));
    } else {
        assert(pkg_rollback_inv(after, packages, packages));
        assert(state_file_after(job, events, packages) == state_file_after(after, rest, packages));
        lemma_rollback_inv_holds_to_the_answer(after, packages, packages, rest);
        let tail = pkg_run(after, rest).1;
        if pkg_run(after, rest).0.step == PkgStepView::Done {
            assert((seq![action] + tail).last() == tail.last());
        }
    }
}


} // verus!
