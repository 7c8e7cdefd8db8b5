//! Expansion of resource patterns into files, as a machine that is told what
//! the file system answered and says what to ask it next.
use crate::error::BundleError;
use vstd::prelude::*;

verus! {

/// What the expansion is draining.
#[derive(Clone, Copy, Debug, PartialEq, Eq, Structural)]
pub enum ExpandPhase {
    /// Nothing open: the next pattern is to be expanded.
    Patterns,
    /// The matches of the current pattern.
    Matches,
    /// The files below a matched directory.
    Walk,
}

/// The expansion of a list of resource patterns into the files they name.
/// Each pattern is expanded as a glob pattern; a match that is a directory
/// is walked where walking is allowed and is an error where it is not.
#[derive(Debug)]
pub struct ResourcePaths {
    patterns: Vec<String>,
    next_pattern: usize,
    phase: ExpandPhase,
    allow_walk: bool,
}

/// What the driver of an expansion is to do next.
#[derive(Debug, PartialEq, Eq)]
pub enum PathRequest {
    /// Compile this glob pattern and report `Opened` or `OpenFailed`.
    OpenPattern(String),
    /// Report the next match of the open pattern, or `MatchesDone`.
    NextMatch,
    /// Report the next entry of the directory walk, or `WalkDone`.
    NextWalkEntry,
    /// Every pattern has been expanded.
    Finished,
}

/// What the file system answered to a request.
#[derive(Debug)]
pub enum PathEvent {
    Opened,
    OpenFailed(String),
    Match { path: String, is_dir: bool },
    MatchFailed(String),
    MatchesDone,
    WalkEntry { path: String, is_dir: bool },
    WalkFailed(String),
    WalkDone,
}

/// What an answer gives.
#[derive(Debug)]
pub enum PathStep {
    /// Nothing yet: make the next request.
    Continue,
    /// Start walking this directory, then make the next request.
    StartWalk(String),
    /// A file, or the error met on the way to one.
    Item(Result<String, BundleError>),
}

pub struct ResourcePathsView {
    pub patterns: Seq<Seq<char>>,
    pub next_pattern: nat,
    pub phase: ExpandPhase,
    pub allow_walk: bool,
}

impl View for ResourcePaths {
    type V = ResourcePathsView;

    closed spec fn view(&self) -> ResourcePathsView {
        ResourcePathsView {
            patterns: self.patterns.deep_view(),
            next_pattern: self.next_pattern as nat,
            phase: self.phase,
            allow_walk: self.allow_walk,
        }
    }
}

pub enum PathRequestView {
    OpenPattern(Seq<char>),
    NextMatch,
    NextWalkEntry,
    Finished,
}

impl View for PathRequest {
    type V = PathRequestView;

    open spec fn view(&self) -> PathRequestView {
        match self {
            PathRequest::OpenPattern(p) => PathRequestView::OpenPattern(p@),
            PathRequest::NextMatch => PathRequestView::NextMatch,
            PathRequest::NextWalkEntry => PathRequestView::NextWalkEntry,
            PathRequest::Finished => PathRequestView::Finished,
        }
    }
}

pub enum PathStepView {
    Continue,
    StartWalk(Seq<char>),
    Found(Seq<char>),
    IsDirectory(Seq<char>),
    InvalidPattern(Seq<char>),
    GlobFailed(Seq<char>),
    WalkFailed(Seq<char>),
    OtherError,
}

impl View for PathStep {
    type V = PathStepView;

    open spec fn view(&self) -> PathStepView {
        match self {
            PathStep::Continue => PathStepView::Continue,
            PathStep::StartWalk(p) => PathStepView::StartWalk(p@),
            PathStep::Item(Ok(p)) => PathStepView::Found(p@),
            PathStep::Item(Err(BundleError::IsDirectory(p))) => PathStepView::IsDirectory(p@),
            PathStep::Item(Err(BundleError::InvalidPattern(m))) => PathStepView::InvalidPattern(m@),
            PathStep::Item(Err(BundleError::GlobFailed(m))) => PathStepView::GlobFailed(m@),
            PathStep::Item(Err(BundleError::WalkFailed(m))) => PathStepView::WalkFailed(m@),
            PathStep::Item(Err(_)) => PathStepView::OtherError,
        }
    }
}

/// What the expansion asks for in state `v`.
pub open spec fn request_of(v: ResourcePathsView) -> PathRequestView {
    match v.phase {
        ExpandPhase::Walk => PathRequestView::NextWalkEntry,
        ExpandPhase::Matches => PathRequestView::NextMatch,
        ExpandPhase::Patterns => if v.next_pattern < v.patterns.len() {
            PathRequestView::OpenPattern(v.patterns[v.next_pattern as int])
        } else {
            PathRequestView::Finished
        },
    }
}

pub open spec fn in_phase(v: ResourcePathsView, p: ExpandPhase) -> ResourcePathsView {
    ResourcePathsView { phase: p, ..v }
}

pub open spec fn past_pattern(v: ResourcePathsView, p: ExpandPhase) -> ResourcePathsView {
    ResourcePathsView { phase: p, next_pattern: v.next_pattern + 1, ..v }
}

/// The state after the answer `e` in state `v`, and what the answer gives.
/// An answer that does not fit the request leaves the state as it is.
pub open spec fn answer(v: ResourcePathsView, e: PathEvent) -> (ResourcePathsView, PathStepView) {
    match v.phase {
        ExpandPhase::Walk => match e {
            PathEvent::WalkEntry { path, is_dir } => if is_dir {
                (v, PathStepView::Continue)
            } else {
                (v, PathStepView::Found(path@))
            },
            PathEvent::WalkFailed(m) => (v, PathStepView::WalkFailed(m@)),
            PathEvent::WalkDone => (in_phase(v, ExpandPhase::Matches), PathStepView::Continue),
            _ => (v, PathStepView::Continue),
        },
        ExpandPhase::Matches => match e {
            PathEvent::Match { path, is_dir } => if !is_dir {
                (v, PathStepView::Found(path@))
            } else if v.allow_walk {
                (in_phase(v, ExpandPhase::Walk), PathStepView::StartWalk(path@))
            } else {
                (v, PathStepView::IsDirectory(path@))
            },
            PathEvent::MatchFailed(m) => (v, PathStepView::GlobFailed(m@)),
            PathEvent::MatchesDone => (in_phase(v, ExpandPhase::Patterns), PathStepView::Continue),
            _ => (v, PathStepView::Continue),
        },
        ExpandPhase::Patterns => if v.next_pattern < v.patterns.len() {
            match e {
                PathEvent::Opened => (past_pattern(v, ExpandPhase::Matches), PathStepView::Continue),
                PathEvent::OpenFailed(m) => (
                    past_pattern(v, ExpandPhase::Patterns),
                    PathStepView::InvalidPattern(m@),
                ),
                _ => (v, PathStepView::Continue),
            }
        } else {
            (v, PathStepView::Continue)
        },
    }
}

impl ResourcePaths {
    pub closed spec fn wf(&self) -> bool {
        self.next_pattern <= self.patterns@.len()
    }

    /// An expansion of `patterns` that has not started.
    pub fn new(patterns: &Vec<String>, allow_walk: bool) -> (r: ResourcePaths)
        ensures
            r.wf(),
            r@ == (ResourcePathsView {
                patterns: patterns.deep_view(),
                next_pattern: 0,
                phase: ExpandPhase::Patterns,
                allow_walk,
            }),
    {
        let mut copy: Vec<String> = Vec::new();
        let mut i: usize = 0;
        while i < patterns.len()
            invariant
                i <= patterns.len(),
                copy@.len() == i,
                forall|j: int| 0 <= j < i ==> copy@[j]@ == patterns@[j]@,
            decreases patterns.len() - i,
        {
            copy.push(patterns[i].clone());
            i = i + 1;
        }
        assert(copy.deep_view() =~= patterns.deep_view());
        ResourcePaths { patterns: copy, next_pattern: 0, phase: ExpandPhase::Patterns, allow_walk }
    }

    /// What the driver is to do next.
    pub fn request(&self) -> (r: PathRequest)
        requires
            self.wf(),
        ensures
            r@ == request_of(self@),
    {
        match self.phase {
            ExpandPhase::Walk => PathRequest::NextWalkEntry,
            ExpandPhase::Matches => PathRequest::NextMatch,
            ExpandPhase::Patterns => if self.next_pattern < self.patterns.len() {
                PathRequest::OpenPattern(self.patterns[self.next_pattern].clone())
            } else {
                PathRequest::Finished
            },
        }
    }

    /// Takes in the answer to the last request.
    pub fn next(&mut self, event: PathEvent) -> (r: PathStep)
        requires
            old(self).wf(),
        ensures
            final(self).wf(),
            (final(self)@, r@) == answer(old(self)@, event),
    {
        match self.phase {
            ExpandPhase::Walk => match event {
                PathEvent::WalkEntry { path, is_dir } => if is_dir {
                    PathStep::Continue
                } else {
                    PathStep::Item(Ok(path))
                },
                PathEvent::WalkFailed(m) => PathStep::Item(Err(BundleError::WalkFailed(m))),
                PathEvent::WalkDone => {
                    self.phase = ExpandPhase::Matches;
                    PathStep::Continue
                },
                _ => PathStep::Continue,
            },
            ExpandPhase::Matches => match event {
                PathEvent::Match { path, is_dir } => if !is_dir {
                    PathStep::Item(Ok(path))
                } else if self.allow_walk {
                    self.phase = ExpandPhase::Walk;
                    PathStep::StartWalk(path)
                } else {
                    PathStep::Item(Err(BundleError::IsDirectory(path)))
                },
                PathEvent::MatchFailed(m) => PathStep::Item(Err(BundleError::GlobFailed(m))),
                PathEvent::MatchesDone => {
                    self.phase = ExpandPhase::Patterns;
                    PathStep::Continue
                },
                _ => PathStep::Continue,
            },
            ExpandPhase::Patterns => if self.next_pattern < self.patterns.len() {
                match event {
                    PathEvent::Opened => {
                        self.next_pattern = self.next_pattern + 1;
                        self.phase = ExpandPhase::Matches;
                        PathStep::Continue
                    },
                    PathEvent::OpenFailed(m) => {
                        self.next_pattern = self.next_pattern + 1;
                        PathStep::Item(Err(BundleError::InvalidPattern(m)))
                    },
                    _ => PathStep::Continue,
                }
            } else {
                PathStep::Continue
            },
        }
    }
}

/// Where directories are not walked, a match that is a directory gives an
/// error, not a silent skip, and the expansion goes on: the pattern's
/// remaining matches are asked for, and after them the next pattern.
pub proof fn lemma_directory_error_goes_on(v: ResourcePathsView, path: String)
    requires
        v.phase == ExpandPhase::Matches,
        !v.allow_walk,
        v.next_pattern <= v.patterns.len(),
    ensures
        ({
            let (v1, step) = answer(v, PathEvent::Match { path, is_dir: true });
            let (v2, _) = answer(v1, PathEvent::MatchesDone);
            &&& step == PathStepView::IsDirectory(path@)
            &&& request_of(v1) == PathRequestView::NextMatch
            &&& v.next_pattern < v.patterns.len() ==> request_of(v2)
                == PathRequestView::OpenPattern(v.patterns[v.next_pattern as int])
        }),
{
}

} // verus!
