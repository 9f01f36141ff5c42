//! One startup attempt from beginning to end: resolve the candidates, find
//! the backend directory, then launch from it.

use crate::journal::{LogLine, LogRecord};
use crate::locator::{
    has_marker, law_first_marked_candidate_wins, law_no_marker_means_not_found,
    law_search_always_ends, marker_present, BackendLocator, LocateStep, LocateStepModel,
    LocatorModel,
};
use crate::resolver::{
    base_directory, resolve, spec_base_directory, spec_resolve, spec_working_directory,
    working_directory,
};
use crate::selector::{
    law_launch_always_ends, LaunchOutcome, LaunchOutcomeModel, LaunchStep, LaunchStepModel,
    RuntimeSelector, SelectorModel,
};
use vstd::prelude::*;
use vstd::string::*;

verus! {

/// What a startup wants next, as plain data.
pub enum StartupStepModel {
    /// Test whether this file exists.
    Probe(Seq<char>),
    /// Start `interpreter` with `script` as its only argument, in working
    /// directory `dir`; with `capture_output`, keep both of its output streams
    /// as pipes instead of letting it inherit them.
    Spawn { interpreter: Seq<char>, script: Seq<char>, dir: Seq<char>, capture_output: bool },
    /// The startup is over.
    Finished,
}

/// A startup as plain data: the search, and the launch once the search has
/// found a directory.
pub struct StartupModel<H> {
    pub locator: LocatorModel,
    pub selector: Option<SelectorModel<H>>,
}

impl<H> StartupModel<H> {
    /// A startup over the given candidates, before any probe.
    pub open spec fn start(candidates: Seq<Seq<char>>) -> StartupModel<H> {
        StartupModel { locator: LocatorModel::start(candidates), selector: None }
    }

    /// What the startup wants next: what the launch wants if there is one,
    /// what the search wants otherwise.
    pub open spec fn step(self) -> StartupStepModel {
        match self.selector {
            Some(selector) => match selector.step() {
                LaunchStepModel::CheckFile(path) => StartupStepModel::Probe(path),
                LaunchStepModel::Spawn {
                    interpreter,
                    script,
                    dir,
                    capture_output,
                } => StartupStepModel::Spawn { interpreter, script, dir, capture_output },
                _ => StartupStepModel::Finished,
            },
            None => match self.locator.step() {
                LocateStepModel::Probe(path) => StartupStepModel::Probe(path),
                _ => StartupStepModel::Finished,
            },
        }
    }

    /// The startup after the answer to a pending file probe. While the search
    /// is under way the answer goes to the locator, and a launch begins in
    /// the directory that the search ends with; afterwards it goes to the
    /// launch.
    pub open spec fn probed(self, exists: bool) -> StartupModel<H> {
        match self.selector {
            Some(selector) => StartupModel {
                selector: Some(selector.file_checked(exists)),
                ..self
            },
            None => {
                let locator = self.locator.after_probe(exists);
                StartupModel {
                    locator,
                    selector: match locator.found {
                        Some(dir) => Some(SelectorModel::start(dir)),
                        None => None,
                    },
                }
            },
        }
    }

    /// The startup after a pending spawn succeeded. Ignored during the search.
    pub open spec fn spawned(self, handle: H) -> StartupModel<H> {
        match self.selector {
            Some(selector) => StartupModel { selector: Some(selector.spawned(handle)), ..self },
            None => self,
        }
    }

    /// The startup after a pending spawn was refused. Ignored during the
    /// search.
    pub open spec fn spawn_failed(self, cause: Seq<char>) -> StartupModel<H> {
        match self.selector {
            Some(selector) => StartupModel {
                selector: Some(selector.spawn_failed(cause)),
                ..self
            },
            None => self,
        }
    }

    /// The records not yet handed out: those of the search, then those of the
    /// launch.
    pub open spec fn journal(self) -> Seq<LogLine> {
        match self.selector {
            Some(selector) => self.locator.journal + selector.journal,
            None => self.locator.journal,
        }
    }

    /// The startup with every record handed out.
    pub open spec fn drained(self) -> StartupModel<H> {
        StartupModel {
            locator: LocatorModel { journal: Seq::<LogLine>::empty(), ..self.locator },
            selector: match self.selector {
                Some(selector) => Some(
                    SelectorModel { journal: Seq::<LogLine>::empty(), ..selector },
                ),
                None => None,
            },
        }
    }

    /// Whether search and launch agree: there is a launch exactly when the
    /// search has found a directory, and the launch is from that directory.
    pub open spec fn in_order(self) -> bool {
        match self.selector {
            Some(selector) => self.locator.found == Some(selector.dir),
            None => self.locator.found is None,
        }
    }

    /// How the startup ended, once it has: as the launch ended if there was
    /// one, as not found if the search failed.
    pub open spec fn outcome(self) -> Option<LaunchOutcomeModel<H>> {
        match self.selector {
            Some(selector) => selector.outcome(),
            None => match self.locator.step() {
                LocateStepModel::NotFound(searched) => Some(
                    LaunchOutcomeModel::NotFound(searched),
                ),
                _ => None,
            },
        }
    }

    /// The startup after every request has been answered by a world in which
    /// exactly `files` exist and a spawn of an interpreter on a script gives
    /// `spawn(interpreter, script)`.
    pub open spec fn run(
        self,
        files: Set<Seq<char>>,
        spawn: spec_fn(Seq<char>, Seq<char>) -> Result<H, Seq<char>>,
    ) -> StartupModel<H>
        decreases
            (if self.selector is Some {
                0
            } else {
                1 + self.locator.remaining()
            }),
    {
        match self.selector {
            Some(selector) => StartupModel { selector: Some(selector.run(files, spawn)), ..self },
            None => if self.locator.finished() {
                self
            } else {
                self.probed(
                    marker_present(
                        self.locator.candidates[self.locator.cursor as int],
                        files,
                        self.locator.marker as int,
                    ),
                ).run(files, spawn)
            },
        }
    }
}

/// What a startup wants next.
#[derive(Debug)]
pub enum StartupStep {
    /// Test whether this file exists and report the answer with
    /// [`BackendStartup::probed`].
    Probe(String),
    /// Start `interpreter` with `script` as its only argument, in working
    /// directory `dir`; with `capture_output`, keep both of its output streams
    /// as pipes instead of letting it inherit them. Report the result with
    /// [`BackendStartup::spawned`] or [`BackendStartup::spawn_failed`]; only a
    /// process that could not be created is a failure.
    Spawn { interpreter: String, script: String, dir: String, capture_output: bool },
    /// The startup is over; [`BackendStartup::into_outcome`] tells how.
    Finished,
}

impl View for StartupStep {
    type V = StartupStepModel;

    open spec fn view(&self) -> StartupStepModel {
        match self {
            StartupStep::Probe(path) => StartupStepModel::Probe(path@),
            StartupStep::Spawn { interpreter, script, dir, capture_output } => {
                StartupStepModel::Spawn {
                    interpreter: interpreter@,
                    script: script@,
                    dir: dir@,
                    capture_output: *capture_output,
                }
            },
            StartupStep::Finished => StartupStepModel::Finished,
        }
    }
}

/// A whole startup attempt. The search runs to its end before the launch
/// begins, and the launch begins only if the search found a directory.
pub struct BackendStartup<H> {
    locator: BackendLocator,
    selector: Option<RuntimeSelector<H>>,
}

impl<H> View for BackendStartup<H> {
    type V = StartupModel<H>;

    closed spec fn view(&self) -> StartupModel<H> {
        StartupModel {
            locator: self.locator@,
            selector: match self.selector {
                Some(selector) => Some(selector@),
                None => None,
            },
        }
    }
}

impl<H> BackendStartup<H> {
    /// A startup over the given candidates, first choice first.
    pub fn new(candidates: Vec<String>) -> (startup: BackendStartup<H>)
        ensures
            startup@ == StartupModel::<H>::start(candidates.deep_view()),
    {
        BackendStartup { locator: BackendLocator::new(candidates), selector: None }
    }

    /// A startup for an application whose executable is at `executable` and
    /// whose working directory is `working_dir`, as far as either is known.
    pub fn begin(executable: &Option<String>, working_dir: &Option<String>) -> (startup:
        BackendStartup<H>)
        ensures
            startup@ == StartupModel::<H>::start(
                spec_resolve(
                    spec_base_directory(
                        executable.deep_view(),
                        spec_working_directory(working_dir.deep_view()),
                    ),
                    spec_working_directory(working_dir.deep_view()),
                ),
            ),
    {
        let current = working_directory(working_dir);
        let base = base_directory(executable, current.as_str());
        BackendStartup::new(resolve(base.as_str(), current.as_str()))
    }

    /// What the caller has to do next.
    pub fn next_step(&self) -> (step: StartupStep)
        ensures
            step@ == self@.step(),
    {
        match &self.selector {
            Some(selector) => match selector.next_step() {
                LaunchStep::CheckFile(path) => StartupStep::Probe(path),
                LaunchStep::Spawn { interpreter, script, dir, capture_output } => {
                    StartupStep::Spawn { interpreter, script, dir, capture_output }
                },
                _ => StartupStep::Finished,
            },
            None => match self.locator.next_step() {
                LocateStep::Probe(path) => StartupStep::Probe(path),
                _ => StartupStep::Finished,
            },
        }
    }

    /// Takes the answer to the pending file probe.
    pub fn probed(&mut self, exists: bool)
        ensures
            final(self)@ == old(self)@.probed(exists),
    {
        let launch = self.selector.take();
        match launch {
            Some(mut selector) => {
                selector.file_checked(exists);
                self.selector = Some(selector);
            },
            None => {
                self.locator.record(exists);
                match self.locator.next_step() {
                    LocateStep::Found(dir) => {
                        self.selector = Some(RuntimeSelector::new(dir));
                    },
                    _ => {},
                }
            },
        }
    }

    /// Takes the handle of the process that the pending spawn started.
    pub fn spawned(&mut self, handle: H)
        ensures
            final(self)@ == old(self)@.spawned(handle),
    {
        let launch = self.selector.take();
        match launch {
            Some(mut selector) => {
                selector.spawned(handle);
                self.selector = Some(selector);
            },
            None => {},
        }
    }

    /// Takes the cause for which the pending spawn was refused.
    pub fn spawn_failed(&mut self, cause: String)
        ensures
            final(self)@ == old(self)@.spawn_failed(cause@),
    {
        let launch = self.selector.take();
        match launch {
            Some(mut selector) => {
                selector.spawn_failed(cause);
                self.selector = Some(selector);
            },
            None => {},
        }
    }

    /// Hands out the records written since the last call, oldest first.
    pub fn drain_journal(&mut self) -> (records: Vec<LogRecord>)
        ensures
            records.deep_view() == old(self)@.journal(),
            final(self)@ == old(self)@.drained(),
    {
        let mut records = self.locator.drain_journal();
        let launch = self.selector.take();
        match launch {
            Some(mut selector) => {
                let mut later = selector.drain_journal();
                records.append(&mut later);
                self.selector = Some(selector);
            },
            None => {},
        }
        records
    }

    /// Ends the startup and tells how it went; `None` while it is still
    /// under way.
    pub fn into_outcome(self) -> (outcome: Option<LaunchOutcome<H>>)
        ensures
            match outcome {
                Some(ended) => self@.outcome() == Some(ended@),
                None => self@.outcome() is None,
            },
    {
        match self.selector {
            Some(selector) => selector.into_outcome(),
            None => match self.locator.next_step() {
                LocateStep::NotFound(searched) => Some(LaunchOutcome::NotFound(searched)),
                _ => None,
            },
        }
    }
}

proof fn lemma_run_follows_search<H>(
    m: StartupModel<H>,
    files: Set<Seq<char>>,
    spawn: spec_fn(Seq<char>, Seq<char>) -> Result<H, Seq<char>>,
)
    requires
        m.selector is None,
        m.locator.found is None,
    ensures
        m.run(files, spawn).locator == m.locator.run(files),
        m.run(files, spawn).selector == match m.locator.run(files).found {
            Some(dir) => Some(SelectorModel::<H>::start(dir).run(files, spawn)),
            None => None,
        },
    decreases m.locator.remaining(),
{
    if !m.locator.finished() {
        let hit = marker_present(
            m.locator.candidates[m.locator.cursor as int],
            files,
            m.locator.marker as int,
        );
        let next = m.probed(hit);
        assert(m.locator.run(files) == next.locator.run(files));
        assert(m.run(files, spawn) == next.run(files, spawn));
        if next.selector is None {
            lemma_run_follows_search(next, files, spawn);
        }
    }
}

/// The search is complete before the launch begins: a startup begins without
/// a launch, no report changes that before the search has found a directory,
/// the launch is always from the directory found, and no spawn is asked for
/// while the search is under way.
pub proof fn law_launch_follows_search<H>(
    m: StartupModel<H>,
    exists: bool,
    handle: H,
    cause: Seq<char>,
)
    requires
        m.in_order(),
    ensures
        m.probed(exists).in_order(),
        m.spawned(handle).in_order(),
        m.spawn_failed(cause).in_order(),
        m.drained().in_order(),
        m.locator.found is None ==> !(m.step() is Spawn),
        StartupModel::<H>::start(m.locator.candidates).in_order(),
{
}

/// Whatever the world answers, the startup comes to an end with one of its
/// three outcomes.
pub proof fn law_startup_always_ends<H>(
    candidates: Seq<Seq<char>>,
    files: Set<Seq<char>>,
    spawn: spec_fn(Seq<char>, Seq<char>) -> Result<H, Seq<char>>,
)
    ensures
        StartupModel::<H>::start(candidates).run(files, spawn).outcome() is Some,
        StartupModel::<H>::start(candidates).run(files, spawn).step() == StartupStepModel::Finished,
{
    law_search_always_ends(candidates, files);
    lemma_run_follows_search(StartupModel::<H>::start(candidates), files, spawn);
    if let Some(dir) = LocatorModel::start(candidates).run(files).found {
        law_launch_always_ends::<H>(dir, files, spawn);
    }
}

/// When no candidate holds a marker, the startup ends as not found with every
/// candidate listed, and no launch is ever begun.
pub proof fn law_startup_without_backend<H>(
    candidates: Seq<Seq<char>>,
    files: Set<Seq<char>>,
    spawn: spec_fn(Seq<char>, Seq<char>) -> Result<H, Seq<char>>,
)
    requires
        forall|i: int| 0 <= i < candidates.len() ==> !has_marker(#[trigger] candidates[i], files),
    ensures
        StartupModel::<H>::start(candidates).run(files, spawn).selector is None,
        StartupModel::<H>::start(candidates).run(files, spawn).outcome() == Some(
            LaunchOutcomeModel::<H>::NotFound(candidates),
        ),
{
    law_no_marker_means_not_found(candidates, files);
    lemma_run_follows_search(StartupModel::<H>::start(candidates), files, spawn);
}

/// When the `n`-th candidate is the first that holds a marker, the startup is
/// the launch from that candidate: it ends as that launch ends.
pub proof fn law_startup_launches_from_first_match<H>(
    candidates: Seq<Seq<char>>,
    files: Set<Seq<char>>,
    spawn: spec_fn(Seq<char>, Seq<char>) -> Result<H, Seq<char>>,
    n: int,
)
    requires
        0 <= n < candidates.len(),
        has_marker(candidates[n], files),
        forall|i: int| 0 <= i < n ==> !has_marker(#[trigger] candidates[i], files),
    ensures
        StartupModel::<H>::start(candidates).run(files, spawn).selector == Some(
            SelectorModel::<H>::start(candidates[n]).run(files, spawn),
        ),
        StartupModel::<H>::start(candidates).run(files, spawn).outcome() == SelectorModel::<
            H,
        >::start(candidates[n]).run(files, spawn).outcome(),
{
    law_first_marked_candidate_wins(candidates, files, n);
    lemma_run_follows_search(StartupModel::<H>::start(candidates), files, spawn);
}

} // verus!
