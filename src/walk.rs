use crate::models::StructureItem;
use crate::plan::{checks_view, copy_path, path_view, plan, plan_of, Check, Step};
use vstd::prelude::*;

verus! {

/// Why a verification failed. Each path is relative to the verified root.
#[derive(Clone, Debug, PartialEq, Eq)]
pub enum VerificationError {
    /// A declared file does not exist.
    MissingFile(Vec<String>),
    /// A declared subdirectory does not exist and its parent is not repaired.
    MissingDirectory(Vec<String>),
    /// Creating a missing subdirectory failed, with the system's reason.
    RepairFailed(Vec<String>, String),
}

/// A verification failure, as a value.
pub enum Failure {
    MissingFile(Seq<Seq<char>>),
    MissingDirectory(Seq<Seq<char>>),
    RepairFailed(Seq<Seq<char>>, Seq<char>),
}

impl View for VerificationError {
    type V = Failure;

    open spec fn view(&self) -> Failure {
        match self {
            VerificationError::MissingFile(p) => Failure::MissingFile(path_view(p@)),
            VerificationError::MissingDirectory(p) => Failure::MissingDirectory(path_view(p@)),
            VerificationError::RepairFailed(p, e) => Failure::RepairFailed(path_view(p@), e@),
        }
    }
}

impl VerificationError {
    /// A copy of this error.
    pub fn duplicate(&self) -> (r: VerificationError)
        ensures
            r@ == self@,
    {
        match self {
            VerificationError::MissingFile(p) => VerificationError::MissingFile(copy_path(p)),
            VerificationError::MissingDirectory(p) => VerificationError::MissingDirectory(
                copy_path(p),
            ),
            VerificationError::RepairFailed(p, e) => VerificationError::RepairFailed(
                copy_path(p),
                e.clone(),
            ),
        }
    }

    /// The path the error is about, relative to the verified root.
    pub fn path(&self) -> (r: &Vec<String>)
        ensures
            path_view(r@) == failure_path(self@),
    {
        match self {
            VerificationError::MissingFile(p) => p,
            VerificationError::MissingDirectory(p) => p,
            VerificationError::RepairFailed(p, _) => p,
        }
    }
}

pub open spec fn failure_path(f: Failure) -> Seq<Seq<char>> {
    match f {
        Failure::MissingFile(p) => p,
        Failure::MissingDirectory(p) => p,
        Failure::RepairFailed(p, _) => p,
    }
}

/// What the walk asks of the filesystem next.
#[derive(Debug, PartialEq, Eq)]
pub enum Request {
    /// Report whether an entry exists at this path.
    Exists(Vec<String>),
    /// Create the directory at this path, with any missing parents.
    CreateDir(Vec<String>),
    /// The walk is over, with this outcome.
    Done(Result<(), VerificationError>),
}

/// The filesystem's answer to the last request.
#[derive(Debug, PartialEq, Eq)]
pub enum Reply {
    Exists(bool),
    Created(Result<(), String>),
}

/// A request, as a value.
pub enum Ask {
    Exists(Seq<Seq<char>>),
    CreateDir(Seq<Seq<char>>),
    Done(Result<(), Failure>),
}

/// A reply, as a value.
pub enum Answer {
    Exists(bool),
    Created(Result<(), Seq<char>>),
}

impl View for Request {
    type V = Ask;

    open spec fn view(&self) -> Ask {
        match self {
            Request::Exists(p) => Ask::Exists(path_view(p@)),
            Request::CreateDir(p) => Ask::CreateDir(path_view(p@)),
            Request::Done(Ok(())) => Ask::Done(Ok(())),
            Request::Done(Err(e)) => Ask::Done(Err(e@)),
        }
    }
}

impl View for Reply {
    type V = Answer;

    open spec fn view(&self) -> Answer {
        match self {
            Reply::Exists(b) => Answer::Exists(*b),
            Reply::Created(Ok(())) => Answer::Created(Ok(())),
            Reply::Created(Err(e)) => Answer::Created(Err(e@)),
        }
    }
}

/// Where the walk stands on its current check.
pub enum Phase {
    /// Waiting to learn whether the current entry exists.
    Probing,
    /// Waiting for the current directory to be created.
    Creating,
    /// Stopped on a failure.
    Failed(VerificationError),
}

pub enum PhaseView {
    Probing,
    Creating,
    Failed(Failure),
}

/// The state of a walk, as a value.
pub struct WalkState {
    pub checks: Seq<Step>,
    pub next: int,
    pub phase: PhaseView,
}

/// The state of a walk at its start over the checks of `item`.
pub open spec fn initial(item: StructureItem) -> WalkState {
    WalkState { checks: plan_of(item, Seq::empty()), next: 0, phase: PhaseView::Probing }
}

/// Every check before `next` has passed; a creation is only pending for a
/// directory whose parent is repaired.
pub open spec fn state_wf(s: WalkState) -> bool {
    &&& 0 <= s.next <= s.checks.len()
    &&& s.phase is Creating ==> s.next < s.checks.len() && s.checks[s.next] matches Step::Dir(
        _,
        true,
    )
}

/// What the walk asks for in state `s`.
pub open spec fn ask_of(s: WalkState) -> Ask {
    match s.phase {
        PhaseView::Failed(f) => Ask::Done(Err(f)),
        PhaseView::Probing => if 0 <= s.next < s.checks.len() {
            Ask::Exists(s.checks[s.next].path())
        } else {
            Ask::Done(Ok(()))
        },
        PhaseView::Creating => if 0 <= s.next < s.checks.len() {
            Ask::CreateDir(s.checks[s.next].path())
        } else {
            Ask::Done(Ok(()))
        },
    }
}

/// The state after the answer `a` in state `s`. An answer that does not
/// fit the pending request leaves the state as it is.
pub open spec fn advance(s: WalkState, a: Answer) -> WalkState {
    if !(0 <= s.next < s.checks.len()) {
        s
    } else {
        let step = s.checks[s.next];
        match (s.phase, a) {
            (PhaseView::Probing, Answer::Exists(true)) => WalkState { next: s.next + 1, ..s },
            (PhaseView::Probing, Answer::Exists(false)) => match step {
                Step::File(p) => WalkState { phase: PhaseView::Failed(Failure::MissingFile(p)), ..s },
                Step::Dir(p, false) => WalkState {
                    phase: PhaseView::Failed(Failure::MissingDirectory(p)),
                    ..s
                },
                Step::Dir(_, true) => WalkState { phase: PhaseView::Creating, ..s },
            },
            (PhaseView::Creating, Answer::Created(Ok(()))) => WalkState {
                next: s.next + 1,
                phase: PhaseView::Probing,
                ..s
            },
            (PhaseView::Creating, Answer::Created(Err(e))) => WalkState {
                phase: PhaseView::Failed(Failure::RepairFailed(step.path(), e)),
                ..s
            },
            _ => s,
        }
    }
}

/// A depth-first verification of one directory against its item, driven one
/// filesystem request at a time.
pub struct Walker {
    checks: Vec<Check>,
    next: usize,
    phase: Phase,
}

impl View for Phase {
    type V = PhaseView;

    open spec fn view(&self) -> PhaseView {
        match self {
            Phase::Probing => PhaseView::Probing,
            Phase::Creating => PhaseView::Creating,
            Phase::Failed(e) => PhaseView::Failed(e@),
        }
    }
}

impl View for Walker {
    type V = WalkState;

    closed spec fn view(&self) -> WalkState {
        WalkState { checks: checks_view(self.checks@), next: self.next as int, phase: self.phase@ }
    }
}

impl Walker {
    pub closed spec fn wf(&self) -> bool {
        state_wf(self@)
    }

    /// Starts the verification of a directory against `item`.
    pub fn new(item: &StructureItem) -> (r: Walker)
        ensures
            r.wf(),
            r@ == initial(*item),
    {
        Walker { checks: plan(item), next: 0, phase: Phase::Probing }
    }

    /// The request the walk waits on.
    pub fn request(&self) -> (r: Request)
        requires
            self.wf(),
        ensures
            r@ == ask_of(self@),
    {
        match &self.phase {
            Phase::Failed(e) => Request::Done(Err(e.duplicate())),
            Phase::Probing => if self.next < self.checks.len() {
                Request::Exists(copy_path(self.checks[self.next].path()))
            } else {
                Request::Done(Ok(()))
            },
            Phase::Creating => if self.next < self.checks.len() {
                Request::CreateDir(copy_path(self.checks[self.next].path()))
            } else {
                Request::Done(Ok(()))
            },
        }
    }

    /// Hands the walk the answer to its request.
    pub fn resume(&mut self, reply: Reply)
        requires
            old(self).wf(),
        ensures
            final(self).wf(),
            final(self)@ == advance(old(self)@, reply@),
    {
        if self.next >= self.checks.len() {
            return;
        }
        let ghost s = self@;
        let ghost step = s.checks[s.next];
        assert(self.checks@[self.next as int]@ == step);
        match (&self.phase, reply) {
            (Phase::Probing, Reply::Exists(true)) => {
                self.next = self.next + 1;
            },
            (Phase::Probing, Reply::Exists(false)) => {
                match &self.checks[self.next] {
                    Check::File(p) => {
                        self.phase = Phase::Failed(VerificationError::MissingFile(copy_path(p)));
                    },
                    Check::Dir(p, repair) => {
                        if *repair {
                            self.phase = Phase::Creating;
                        } else {
                            self.phase = Phase::Failed(
                                VerificationError::MissingDirectory(copy_path(p)),
                            );
                        }
                    },
                }
            },
            (Phase::Creating, Reply::Created(Ok(()))) => {
                self.next = self.next + 1;
                self.phase = Phase::Probing;
            },
            (Phase::Creating, Reply::Created(Err(e))) => {
                let p = copy_path(self.checks[self.next].path());
                self.phase = Phase::Failed(VerificationError::RepairFailed(p, e));
            },
            _ => {},
        }
    }

    /// Whether the walk is over.
    pub fn is_done(&self) -> (r: bool)
        requires
            self.wf(),
        ensures
            r == (ask_of(self@) is Done),
    {
        match &self.phase {
            Phase::Failed(_) => true,
            _ => self.next >= self.checks.len(),
        }
    }
}

} // verus!
