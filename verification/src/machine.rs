//! The reconciliation of one declaration, as a state machine.
//!
//! An [`Installer`] holds the source of a declaration as declared, its two
//! absolute paths and the stage it has reached. It asks first what the
//! source resolves to, then whether the destination is a link, and only of
//! a destination that is no link whether anything is there. [`Installer::request`] says what the caller is to
//! ask of, or do to, the filesystem next; [`Installer::advance`] takes the
//! answer and moves on. The machine never asks for anything to be removed or
//! replaced.

use vstd::prelude::*;
use crate::paths::parent;
use crate::paths::proper_parent;
use crate::paths::text_of;

verus! {

/// How the reconciliation of one declaration ended.
#[derive(Clone, Debug, PartialEq, Eq)]
pub enum Outcome {
    /// A new link was made at `destination`.
    Created { destination: String },
    /// The destination already is a link to the source.
    AlreadyCorrect,
    /// The destination is a link to another path than the source. It is left alone. `target`
    /// is the path that the link resolves to or, where it leads nowhere, the text it holds.
    WrongLink { target: String },
    /// Something that is no link occupies `path`. It is left alone.
    NonLinkConflict { path: String },
    /// The source does not exist. `source` is the source as the declaration names it.
    MissingSource { source: String },
    /// The link from `destination` to `source`, or a directory above it, could not be made.
    LinkCreationFailed { source: String, destination: String },
}

pub enum OutcomeView {
    Created { destination: Seq<char> },
    AlreadyCorrect,
    WrongLink { target: Seq<char> },
    NonLinkConflict { path: Seq<char> },
    MissingSource { source: Seq<char> },
    LinkCreationFailed { source: Seq<char>, destination: Seq<char> },
}

impl View for Outcome {
    type V = OutcomeView;

    open spec fn view(&self) -> OutcomeView {
        match *self {
            Outcome::Created { destination } => OutcomeView::Created { destination: destination@ },
            Outcome::AlreadyCorrect => OutcomeView::AlreadyCorrect,
            Outcome::WrongLink { target } => OutcomeView::WrongLink { target: target@ },
            Outcome::NonLinkConflict { path } => OutcomeView::NonLinkConflict { path: path@ },
            Outcome::MissingSource { source } => OutcomeView::MissingSource { source: source@ },
            Outcome::LinkCreationFailed { source, destination } => OutcomeView::LinkCreationFailed {
                source: source@,
                destination: destination@,
            },
        }
    }
}

/// How much attention an outcome asks for.
#[derive(Clone, Copy, Debug, PartialEq, Eq, Structural)]
pub enum Severity {
    Success,
    Neutral,
    Warning,
    Error,
}

impl OutcomeView {
    /// A new link is a success, a correct one is nothing new, a conflict is
    /// a warning and a failure an error.
    pub open spec fn severity(self) -> Severity {
        match self {
            OutcomeView::Created { .. } => Severity::Success,
            OutcomeView::AlreadyCorrect => Severity::Neutral,
            OutcomeView::WrongLink { .. } => Severity::Warning,
            OutcomeView::NonLinkConflict { .. } => Severity::Warning,
            OutcomeView::MissingSource { .. } => Severity::Error,
            OutcomeView::LinkCreationFailed { .. } => Severity::Error,
        }
    }
}

impl Outcome {
    /// The category under which this outcome is reported.
    pub fn severity(&self) -> (r: Severity)
        ensures
            r == self@.severity(),
    {
        match self {
            Outcome::Created { .. } => Severity::Success,
            Outcome::AlreadyCorrect => Severity::Neutral,
            Outcome::WrongLink { .. } => Severity::Warning,
            Outcome::NonLinkConflict { .. } => Severity::Warning,
            Outcome::MissingSource { .. } => Severity::Error,
            Outcome::LinkCreationFailed { .. } => Severity::Error,
        }
    }

    /// A copy of this outcome.
    pub fn duplicate(&self) -> (r: Outcome)
        ensures
            r@ == self@,
    {
        match self {
            Outcome::Created { destination } => Outcome::Created { destination: destination.clone() },
            Outcome::AlreadyCorrect => Outcome::AlreadyCorrect,
            Outcome::WrongLink { target } => Outcome::WrongLink { target: target.clone() },
            Outcome::NonLinkConflict { path } => Outcome::NonLinkConflict { path: path.clone() },
            Outcome::MissingSource { source } => Outcome::MissingSource { source: source.clone() },
            Outcome::LinkCreationFailed { source, destination } => Outcome::LinkCreationFailed {
                source: source.clone(),
                destination: destination.clone(),
            },
        }
    }
}

/// What the machine asks of its caller.
#[derive(Clone, Debug, PartialEq, Eq)]
pub enum Action {
    /// Does the path exist, links followed?
    Exists(String),
    /// If the path is a symbolic link, what does it hold?
    ReadLink(String),
    /// What is the path's resolved, absolute, link-free form?
    Canonicalize(String),
    /// Make the directory and every missing directory above it.
    CreateDirAll(String),
    /// Make a symbolic link at `link` that holds `target`.
    Symlink { target: String, link: String },
    /// Nothing more: the reconciliation has ended.
    Report(Outcome),
}

pub enum ActionView {
    Exists(Seq<char>),
    ReadLink(Seq<char>),
    Canonicalize(Seq<char>),
    CreateDirAll(Seq<char>),
    Symlink { target: Seq<char>, link: Seq<char> },
    Report(OutcomeView),
}

impl View for Action {
    type V = ActionView;

    open spec fn view(&self) -> ActionView {
        match *self {
            Action::Exists(p) => ActionView::Exists(p@),
            Action::ReadLink(p) => ActionView::ReadLink(p@),
            Action::Canonicalize(p) => ActionView::Canonicalize(p@),
            Action::CreateDirAll(p) => ActionView::CreateDirAll(p@),
            Action::Symlink { target, link } => ActionView::Symlink { target: target@, link: link@ },
            Action::Report(o) => ActionView::Report(o@),
        }
    }
}

impl ActionView {
    /// Whether the action changes the filesystem.
    pub open spec fn mutates(self) -> bool {
        self is CreateDirAll || self is Symlink
    }
}

/// What the caller answers.
#[derive(Clone, Debug, PartialEq, Eq)]
pub enum Event {
    /// The answer to `Action::Exists`.
    Exists(bool),
    /// The answer to `Action::ReadLink`: what the link holds, or nothing where the path is no link.
    Link(Option<String>),
    /// The answer to `Action::Canonicalize`: the resolved path, or nothing where it does not resolve.
    Canonical(Option<String>),
    /// The answer to `Action::CreateDirAll` and `Action::Symlink`: whether it succeeded.
    Done(bool),
}

pub enum EventView {
    Exists(bool),
    Link(Option<Seq<char>>),
    Canonical(Option<Seq<char>>),
    Done(bool),
}

impl View for Event {
    type V = EventView;

    open spec fn view(&self) -> EventView {
        match *self {
            Event::Exists(b) => EventView::Exists(b),
            Event::Link(t) => EventView::Link(text_of(t)),
            Event::Canonical(t) => EventView::Canonical(text_of(t)),
            Event::Done(b) => EventView::Done(b),
        }
    }
}

/// Where a reconciliation stands. From the second stage on, `resolved` is
/// the resolved form of the source.
#[derive(Clone, Debug, PartialEq, Eq)]
pub enum Stage {
    /// Resolving the source, which tells whether it exists.
    ResolveSource,
    /// Asking whether the destination is a link, and what it holds.
    ReadLink { resolved: String },
    /// The destination is a link that holds `target`: resolving the destination.
    ResolveLink { resolved: String, target: String },
    /// The destination is no link: asking whether anything is there.
    CheckDestination { resolved: String },
    /// The destination is free: asking whether its parent `dir` exists.
    CheckParent { resolved: String, dir: String },
    /// Making the parent `dir`.
    CreateParent { resolved: String, dir: String },
    /// Making the link to `target`, the resolved source.
    Link { target: String },
    /// Ended.
    Finished(Outcome),
}

pub enum StageView {
    ResolveSource,
    ReadLink { resolved: Seq<char> },
    ResolveLink { resolved: Seq<char>, target: Seq<char> },
    CheckDestination { resolved: Seq<char> },
    CheckParent { resolved: Seq<char>, dir: Seq<char> },
    CreateParent { resolved: Seq<char>, dir: Seq<char> },
    Link { target: Seq<char> },
    Finished(OutcomeView),
}

impl View for Stage {
    type V = StageView;

    open spec fn view(&self) -> StageView {
        match *self {
            Stage::ResolveSource => StageView::ResolveSource,
            Stage::ReadLink { resolved } => StageView::ReadLink { resolved: resolved@ },
            Stage::ResolveLink { resolved, target } => StageView::ResolveLink {
                resolved: resolved@,
                target: target@,
            },
            Stage::CheckDestination { resolved } => StageView::CheckDestination {
                resolved: resolved@,
            },
            Stage::CheckParent { resolved, dir } => StageView::CheckParent {
                resolved: resolved@,
                dir: dir@,
            },
            Stage::CreateParent { resolved, dir } => StageView::CreateParent {
                resolved: resolved@,
                dir: dir@,
            },
            Stage::Link { target } => StageView::Link { target: target@ },
            Stage::Finished(o) => StageView::Finished(o@),
        }
    }
}

/// The reconciliation of one declaration: its source as declared, the
/// absolute path of its source, the absolute path of its destination, and
/// the stage reached. A machine is made at its first stage and moves only
/// by [`Installer::advance`].
#[derive(Clone, Debug, PartialEq, Eq)]
pub struct Installer {
    declared: String,
    source: String,
    destination: String,
    stage: Stage,
}

pub struct InstallerView {
    pub declared: Seq<char>,
    pub source: Seq<char>,
    pub destination: Seq<char>,
    pub stage: StageView,
}

impl View for Installer {
    type V = InstallerView;

    closed spec fn view(&self) -> InstallerView {
        InstallerView {
            declared: self.declared@,
            source: self.source@,
            destination: self.destination@,
            stage: self.stage@,
        }
    }
}

/// The stage that follows the finding that the destination is free, given
/// the destination's parent: the parent is looked at first, where there is
/// one.
pub open spec fn stage_with_parent(parent: Option<Seq<char>>, resolved: Seq<char>) -> StageView {
    match parent {
        Some(dir) => StageView::CheckParent { resolved, dir },
        None => StageView::Link { target: resolved },
    }
}

/// Whether `e` is an answer of the kind that `a` asks for.
pub open spec fn answers(a: ActionView, e: EventView) -> bool {
    match a {
        ActionView::Exists(_) => e is Exists,
        ActionView::ReadLink(_) => e is Link,
        ActionView::Canonicalize(_) => e is Canonical,
        ActionView::CreateDirAll(_) => e is Done,
        ActionView::Symlink { .. } => e is Done,
        ActionView::Report(_) => false,
    }
}

/// The number of answers that a machine at this stage can still take.
pub open spec fn remaining(stage: StageView) -> nat {
    match stage {
        StageView::ResolveSource => 7,
        StageView::ReadLink { .. } => 6,
        StageView::ResolveLink { .. } => 5,
        StageView::CheckDestination { .. } => 4,
        StageView::CheckParent { .. } => 3,
        StageView::CreateParent { .. } => 2,
        StageView::Link { .. } => 1,
        StageView::Finished(_) => 0,
    }
}

impl InstallerView {
    /// A reconciliation that has not asked anything yet.
    pub open spec fn start(
        declared: Seq<char>,
        source: Seq<char>,
        destination: Seq<char>,
    ) -> InstallerView {
        InstallerView { declared, source, destination, stage: StageView::ResolveSource }
    }

    /// The failure to make the link.
    pub open spec fn link_failure(self) -> OutcomeView {
        OutcomeView::LinkCreationFailed { source: self.source, destination: self.destination }
    }

    /// What is asked at this stage.
    pub open spec fn request(self) -> ActionView {
        match self.stage {
            StageView::ResolveSource => ActionView::Canonicalize(self.source),
            StageView::ReadLink { .. } => ActionView::ReadLink(self.destination),
            StageView::ResolveLink { .. } => ActionView::Canonicalize(self.destination),
            StageView::CheckDestination { .. } => ActionView::Exists(self.destination),
            StageView::CheckParent { dir, .. } => ActionView::Exists(dir),
            StageView::CreateParent { dir, .. } => ActionView::CreateDirAll(dir),
            StageView::Link { target } => ActionView::Symlink { target, link: self.destination },
            StageView::Finished(o) => ActionView::Report(o),
        }
    }

    /// The stage that follows this one on the answer `e`. An answer of
    /// another kind than the one asked for changes nothing, and neither does
    /// any answer once the reconciliation has ended.
    pub open spec fn next_stage(self, e: EventView) -> StageView {
        match self.stage {
            StageView::ResolveSource => match e {
                EventView::Canonical(Some(resolved)) => StageView::ReadLink { resolved },
                EventView::Canonical(None) => StageView::Finished(
                    OutcomeView::MissingSource { source: self.declared },
                ),
                _ => self.stage,
            },
            StageView::ReadLink { resolved } => match e {
                EventView::Link(Some(target)) => StageView::ResolveLink { resolved, target },
                EventView::Link(None) => StageView::CheckDestination { resolved },
                _ => self.stage,
            },
            StageView::ResolveLink { resolved, target } => match e {
                EventView::Canonical(Some(found)) => if found == resolved {
                    StageView::Finished(OutcomeView::AlreadyCorrect)
                } else {
                    StageView::Finished(OutcomeView::WrongLink { target: found })
                },
                EventView::Canonical(None) => StageView::Finished(OutcomeView::WrongLink { target }),
                _ => self.stage,
            },
            StageView::CheckDestination { resolved } => match e {
                EventView::Exists(true) => StageView::Finished(
                    OutcomeView::NonLinkConflict { path: self.destination },
                ),
                EventView::Exists(false) => stage_with_parent(
                    proper_parent(self.destination),
                    resolved,
                ),
                _ => self.stage,
            },
            StageView::CheckParent { resolved, dir } => match e {
                EventView::Exists(true) => StageView::Link { target: resolved },
                EventView::Exists(false) => StageView::CreateParent { resolved, dir },
                _ => self.stage,
            },
            StageView::CreateParent { resolved, .. } => match e {
                EventView::Done(true) => StageView::Link { target: resolved },
                EventView::Done(false) => StageView::Finished(self.link_failure()),
                _ => self.stage,
            },
            StageView::Link { .. } => match e {
                EventView::Done(true) => StageView::Finished(
                    OutcomeView::Created { destination: self.destination },
                ),
                EventView::Done(false) => StageView::Finished(self.link_failure()),
                _ => self.stage,
            },
            StageView::Finished(_) => self.stage,
        }
    }

    /// The machine after the answer `e`: the paths stay, the stage moves.
    pub open spec fn step(self, e: EventView) -> InstallerView {
        InstallerView {
            declared: self.declared,
            source: self.source,
            destination: self.destination,
            stage: self.next_stage(e),
        }
    }

    /// The outcome, once the reconciliation has ended.
    pub open spec fn outcome(self) -> Option<OutcomeView> {
        match self.stage {
            StageView::Finished(o) => Some(o),
            _ => None,
        }
    }
}

/// Every answer of the kind asked for brings the machine nearer its end,
/// whatever it says, and any other answer leaves the machine as it is: no
/// reconciliation takes more than seven answers. Only a machine at its end
/// has nothing left to take.
pub proof fn law_every_answer_advances(m: InstallerView, e: EventView)
    ensures
        answers(m.request(), e) ==> remaining(m.step(e).stage) < remaining(m.stage),
        !answers(m.request(), e) ==> m.step(e) == m,
        remaining(m.stage) <= 7,
        remaining(m.stage) == 0 <==> m.outcome() is Some,
{
}

/// The machine changes the filesystem only where it has found the
/// destination free: it asks for a directory or a link to be made at no
/// other stage than the two that follow that finding, and the link is made
/// at the destination. It never asks for anything to be removed or
/// replaced.
pub proof fn law_changes_are_confined(m: InstallerView)
    ensures
        m.request().mutates() <==> (m.stage is CreateParent || m.stage is Link),
        m.request() is Symlink ==> m.request()->link == m.destination,
{
}

impl Stage {
    /// The stage that follows the finding that the destination is free,
    /// given the destination's parent and the resolved source.
    pub fn after_free_destination(parent: Option<String>, resolved: String) -> (r: Stage)
        ensures
            r@ == stage_with_parent(text_of(parent), resolved@),
    {
        match parent {
            Some(dir) => Stage::CheckParent { resolved, dir },
            None => Stage::Link { target: resolved },
        }
    }
}

impl Installer {
    /// A reconciliation that has not asked anything yet, of a source that
    /// the declaration names `declared` and of the two absolute paths.
    pub fn new(declared: String, source: String, destination: String) -> (r: Installer)
        ensures
            r@ == InstallerView::start(declared@, source@, destination@),
    {
        Installer { declared, source, destination, stage: Stage::ResolveSource }
    }

    /// The source as the declaration names it.
    pub fn declared(&self) -> (r: &str)
        ensures
            r@ == self@.declared,
    {
        self.declared.as_str()
    }

    /// The absolute path of the source.
    pub fn source(&self) -> (r: &str)
        ensures
            r@ == self@.source,
    {
        self.source.as_str()
    }

    /// The absolute path of the destination.
    pub fn destination(&self) -> (r: &str)
        ensures
            r@ == self@.destination,
    {
        self.destination.as_str()
    }

    /// The stage reached.
    pub fn stage(&self) -> (r: &Stage)
        ensures
            r@ == self@.stage,
    {
        &self.stage
    }

    /// What the caller is to do next.
    pub fn request(&self) -> (r: Action)
        ensures
            r@ == self@.request(),
    {
        match &self.stage {
            Stage::ResolveSource => Action::Canonicalize(self.source.clone()),
            Stage::ReadLink { .. } => Action::ReadLink(self.destination.clone()),
            Stage::ResolveLink { .. } => Action::Canonicalize(self.destination.clone()),
            Stage::CheckDestination { .. } => Action::Exists(self.destination.clone()),
            Stage::CheckParent { dir, .. } => Action::Exists(dir.clone()),
            Stage::CreateParent { dir, .. } => Action::CreateDirAll(dir.clone()),
            Stage::Link { target } => Action::Symlink {
                target: target.clone(),
                link: self.destination.clone(),
            },
            Stage::Finished(o) => Action::Report(o.duplicate()),
        }
    }

    /// The outcome, once the reconciliation has ended; nothing before that.
    pub fn outcome(&self) -> (r: Option<Outcome>)
        ensures
            (match r {
                Some(o) => self@.outcome() == Some(o@),
                None => self@.outcome() is None,
            }),
    {
        match &self.stage {
            Stage::Finished(o) => Some(o.duplicate()),
            _ => None,
        }
    }

    /// Whether the reconciliation has ended.
    pub fn is_finished(&self) -> (r: bool)
        ensures
            r == (self@.stage is Finished),
    {
        match &self.stage {
            Stage::Finished(_) => true,
            _ => false,
        }
    }

    /// Takes the answer to the last request and moves to the next stage.
    pub fn advance(self, event: Event) -> (r: Installer)
        ensures
            r@ == self@.step(event@),
    {
        let Installer { declared, source, destination, stage } = self;
        let next = match stage {
            Stage::ResolveSource => match event {
                Event::Canonical(Some(resolved)) => Stage::ReadLink { resolved },
                Event::Canonical(None) => Stage::Finished(
                    Outcome::MissingSource { source: declared.clone() },
                ),
                _ => Stage::ResolveSource,
            },
            Stage::ReadLink { resolved } => match event {
                Event::Link(Some(target)) => Stage::ResolveLink { resolved, target },
                Event::Link(None) => Stage::CheckDestination { resolved },
                _ => Stage::ReadLink { resolved },
            },
            Stage::ResolveLink { resolved, target } => match event {
                Event::Canonical(Some(found)) => if found == resolved {
                    Stage::Finished(Outcome::AlreadyCorrect)
                } else {
                    Stage::Finished(Outcome::WrongLink { target: found })
                },
                Event::Canonical(None) => Stage::Finished(Outcome::WrongLink { target }),
                _ => Stage::ResolveLink { resolved, target },
            },
            Stage::CheckDestination { resolved } => match event {
                Event::Exists(true) => Stage::Finished(
                    Outcome::NonLinkConflict { path: destination.clone() },
                ),
                Event::Exists(false) => Stage::after_free_destination(
                    parent(destination.as_str()),
                    resolved,
                ),
                _ => Stage::CheckDestination { resolved },
            },
            Stage::CheckParent { resolved, dir } => match event {
                Event::Exists(true) => Stage::Link { target: resolved },
                Event::Exists(false) => Stage::CreateParent { resolved, dir },
                _ => Stage::CheckParent { resolved, dir },
            },
            Stage::CreateParent { resolved, dir } => match event {
                Event::Done(true) => Stage::Link { target: resolved },
                Event::Done(false) => Stage::Finished(
                    Outcome::LinkCreationFailed {
                        source: source.clone(),
                        destination: destination.clone(),
                    },
                ),
                _ => Stage::CreateParent { resolved, dir },
            },
            Stage::Link { target } => match event {
                Event::Done(true) => Stage::Finished(
                    Outcome::Created { destination: destination.clone() },
                ),
                Event::Done(false) => Stage::Finished(
                    Outcome::LinkCreationFailed {
                        source: source.clone(),
                        destination: destination.clone(),
                    },
                ),
                _ => Stage::Link { target },
            },
            Stage::Finished(o) => Stage::Finished(o),
        };
        Installer { declared, source, destination, stage: next }
    }
}

} // verus!
