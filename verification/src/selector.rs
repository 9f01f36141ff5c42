//! Choosing how to run the backend: the first entry point and interpreter
//! that can be started.

use crate::journal::{error_line, info_line, Journal, LogLine, LogRecord};
use crate::paths::{join, spec_join};
use vstd::prelude::*;
use vstd::string::*;

verus! {

/// The known entry-point scripts, preferred one first: the startup script
/// comes before the bare main module.
pub open spec fn entry_points() -> Seq<Seq<char>> {
    seq!["start_backend.py"@, "main.py"@]
}

/// The known interpreter commands, in the order in which they are tried.
pub open spec fn interpreters() -> Seq<Seq<char>> {
    seq!["python3"@, "python"@]
}

/// The entry point tried at a given position: the first at position 0, the
/// last at every later one.
pub open spec fn entry_at(index: int) -> Seq<char> {
    if index == 0 {
        entry_points()[0]
    } else {
        entry_points()[1]
    }
}

/// The interpreter tried at a given position: the first at position 0, the
/// last at every later one.
pub open spec fn interpreter_at(index: int) -> Seq<char> {
    if index == 0 {
        interpreters()[0]
    } else {
        interpreters()[1]
    }
}

/// One spawn that the system refused, as plain data.
pub struct AttemptModel {
    pub entry_point: Seq<char>,
    pub interpreter: Seq<char>,
    pub cause: Seq<char>,
}

/// One spawn that the system refused, with the cause it gave.
#[derive(Debug)]
pub struct Attempt {
    pub entry_point: String,
    pub interpreter: String,
    pub cause: String,
}

impl View for Attempt {
    type V = AttemptModel;

    open spec fn view(&self) -> AttemptModel {
        AttemptModel {
            entry_point: self.entry_point@,
            interpreter: self.interpreter@,
            cause: self.cause@,
        }
    }
}

impl DeepView for Attempt {
    type V = AttemptModel;

    open spec fn deep_view(&self) -> AttemptModel {
        self@
    }
}

/// How a startup ended, as plain data.
pub enum LaunchOutcomeModel<H> {
    Started(H),
    NotFound(Seq<Seq<char>>),
    LaunchFailed(Seq<AttemptModel>),
}

/// How a startup ended.
#[derive(Debug)]
pub enum LaunchOutcome<H> {
    /// The backend runs; this is the single handle to it.
    Started(H),
    /// No candidate directory held a marker; these were searched.
    NotFound(Vec<String>),
    /// A directory was found but nothing in it could be started; these spawns
    /// were refused.
    LaunchFailed(Vec<Attempt>),
}

impl<H> View for LaunchOutcome<H> {
    type V = LaunchOutcomeModel<H>;

    open spec fn view(&self) -> LaunchOutcomeModel<H> {
        match self {
            LaunchOutcome::Started(handle) => LaunchOutcomeModel::Started(*handle),
            LaunchOutcome::NotFound(searched) => LaunchOutcomeModel::NotFound(
                searched.deep_view(),
            ),
            LaunchOutcome::LaunchFailed(attempts) => LaunchOutcomeModel::LaunchFailed(
                attempts.deep_view(),
            ),
        }
    }
}

/// What the selector wants next, as plain data.
pub enum LaunchStepModel {
    /// Test whether this entry-point file exists.
    CheckFile(Seq<char>),
    /// Start `interpreter` with `script` as its only argument, in working
    /// directory `dir`; with `capture_output`, keep both of its output streams
    /// as pipes instead of letting it inherit them.
    Spawn { interpreter: Seq<char>, script: Seq<char>, dir: Seq<char>, capture_output: bool },
    /// The backend runs.
    Started,
    /// Nothing could be started.
    Failed,
}

/// The record that opens a launch.
pub open spec fn starting_line(dir: Seq<char>) -> LogLine {
    info_line("Starting Python server from: "@ + dir)
}

/// The record that announces a spawn.
pub open spec fn trying_line(entry_point: Seq<char>, interpreter: Seq<char>) -> LogLine {
    info_line("Trying to start "@ + entry_point + " with: "@ + interpreter)
}

/// The record of the spawn that succeeded.
pub open spec fn started_line(entry_point: Seq<char>, interpreter: Seq<char>) -> LogLine {
    info_line("Successfully started Python server: "@ + entry_point + " with "@ + interpreter)
}

/// The record of a spawn that was refused, with its cause.
pub open spec fn refused_line(attempt: AttemptModel) -> LogLine {
    error_line(
        "Failed to start "@ + attempt.entry_point + " with "@ + attempt.interpreter + ": "@
            + attempt.cause,
    )
}

/// The closing records of a launch in which nothing could be started.
pub open spec fn failure_lines(dir: Seq<char>) -> Seq<LogLine> {
    seq![
        error_line("Failed to start Python backend with any method!"@),
        error_line("Make sure Python is installed and accessible."@),
        error_line("Backend directory: "@ + dir),
        error_line("Required files: main.py or start_backend.py"@),
    ]
}

/// The selector as plain data.
pub struct SelectorModel<H> {
    pub dir: Seq<char>,
    /// Position of the entry point under consideration; the number of entry
    /// points or more once all have been given up.
    pub entry: nat,
    /// Position of the interpreter to try next with that entry point.
    pub interpreter: nat,
    /// Whether the entry point's file is known to exist.
    pub checked: bool,
    /// The refused spawns so far, oldest first.
    pub attempts: Seq<AttemptModel>,
    /// The handle of the started process, once there is one.
    pub handle: Option<H>,
    pub journal: Seq<LogLine>,
}

impl<H> SelectorModel<H> {
    /// The selector for a backend directory, before any check.
    pub open spec fn start(dir: Seq<char>) -> SelectorModel<H> {
        SelectorModel {
            dir,
            entry: 0,
            interpreter: 0,
            checked: false,
            attempts: Seq::<AttemptModel>::empty(),
            handle: None,
            journal: seq![starting_line(dir)],
        }
    }

    /// Whether the launch is over, one way or the other.
    pub open spec fn finished(self) -> bool {
        self.handle is Some || self.entry >= entry_points().len()
    }

    /// The file of the entry point under consideration.
    pub open spec fn script(self) -> Seq<char> {
        spec_join(self.dir, entry_at(self.entry as int))
    }

    /// What the selector wants next: nothing once the launch is over; until
    /// then a check of the entry point under consideration, and once that is
    /// known to exist a spawn with the next interpreter.
    pub open spec fn step(self) -> LaunchStepModel {
        if self.handle is Some {
            LaunchStepModel::Started
        } else if self.entry >= entry_points().len() {
            LaunchStepModel::Failed
        } else if !self.checked {
            LaunchStepModel::CheckFile(self.script())
        } else {
            LaunchStepModel::Spawn {
                interpreter: interpreter_at(self.interpreter as int),
                script: self.script(),
                dir: self.dir,
                capture_output: true,
            }
        }
    }

    /// The selector once the entry point under consideration is given up.
    pub open spec fn next_entry(self) -> SelectorModel<H> {
        SelectorModel {
            entry: self.entry + 1,
            interpreter: 0,
            checked: false,
            journal: if self.entry + 1 >= entry_points().len() {
                self.journal + failure_lines(self.dir)
            } else {
                self.journal
            },
            ..self
        }
    }

    /// The selector after the answer to a pending file check: an existing
    /// entry point is tried with the first interpreter, a missing one is
    /// given up. Ignored unless a file check is pending.
    pub open spec fn file_checked(self, exists: bool) -> SelectorModel<H> {
        if !(self.step() is CheckFile) {
            self
        } else if exists {
            SelectorModel {
                checked: true,
                interpreter: 0,
                journal: self.journal.push(
                    trying_line(entry_at(self.entry as int), interpreter_at(0)),
                ),
                ..self
            }
        } else {
            self.next_entry()
        }
    }

    /// The selector after a pending spawn succeeded: it holds the handle and
    /// asks for nothing more. Ignored unless a spawn is pending.
    pub open spec fn spawned(self, handle: H) -> SelectorModel<H> {
        if !(self.step() is Spawn) {
            self
        } else {
            SelectorModel {
                handle: Some(handle),
                journal: self.journal.push(
                    started_line(
                        entry_at(self.entry as int),
                        interpreter_at(self.interpreter as int),
                    ),
                ),
                ..self
            }
        }
    }

    /// The refused spawn that a failure of the pending spawn adds.
    pub open spec fn refusal(self, cause: Seq<char>) -> AttemptModel {
        AttemptModel {
            entry_point: entry_at(self.entry as int),
            interpreter: interpreter_at(self.interpreter as int),
            cause,
        }
    }

    /// The selector after a pending spawn was refused: the refusal is kept,
    /// then the next interpreter is tried, or after the last one the entry
    /// point is given up. Ignored unless a spawn is pending.
    pub open spec fn spawn_failed(self, cause: Seq<char>) -> SelectorModel<H> {
        if !(self.step() is Spawn) {
            self
        } else {
            let noted = SelectorModel {
                attempts: self.attempts.push(self.refusal(cause)),
                journal: self.journal.push(refused_line(self.refusal(cause))),
                ..self
            };
            if self.interpreter + 1 < interpreters().len() {
                SelectorModel {
                    interpreter: self.interpreter + 1,
                    journal: noted.journal.push(
                        trying_line(
                            entry_at(self.entry as int),
                            interpreter_at(self.interpreter as int + 1),
                        ),
                    ),
                    ..noted
                }
            } else {
                noted.next_entry()
            }
        }
    }

    /// How the launch ended, once it has.
    pub open spec fn outcome(self) -> Option<LaunchOutcomeModel<H>> {
        if let Some(handle) = self.handle {
            Some(LaunchOutcomeModel::Started(handle))
        } else if self.entry >= entry_points().len() {
            Some(LaunchOutcomeModel::LaunchFailed(self.attempts))
        } else {
            None
        }
    }

    /// An upper bound on the checks and spawns still to come.
    pub open spec fn remaining(self) -> nat {
        if self.finished() {
            0
        } else if !self.checked {
            (3 * (2 - self.entry)) as nat
        } else if self.interpreter == 0 {
            (3 * (2 - self.entry) - 1) as nat
        } else {
            (3 * (2 - self.entry) - 2) as nat
        }
    }

    /// The selector after every request has been answered by a world in which
    /// exactly `files` exist and a spawn of an interpreter on a script gives
    /// `spawn(interpreter, script)`.
    pub open spec fn run(
        self,
        files: Set<Seq<char>>,
        spawn: spec_fn(Seq<char>, Seq<char>) -> Result<H, Seq<char>>,
    ) -> SelectorModel<H>
        decreases self.remaining(),
    {
        if self.finished() {
            self
        } else if !self.checked {
            self.file_checked(files.contains(self.script())).run(files, spawn)
        } else {
            match spawn(interpreter_at(self.interpreter as int), self.script()) {
                Ok(handle) => self.spawned(handle),
                Err(cause) => self.spawn_failed(cause).run(files, spawn),
            }
        }
    }
}

/// What the selector wants next.
#[derive(Debug)]
pub enum LaunchStep {
    /// Test whether this entry-point file exists and report the answer with
    /// [`RuntimeSelector::file_checked`].
    CheckFile(String),
    /// Start `interpreter` with `script` as its only argument, in working
    /// directory `dir`; with `capture_output`, keep both of its output streams
    /// as pipes instead of letting it inherit them. Report the result with
    /// [`RuntimeSelector::spawned`] or [`RuntimeSelector::spawn_failed`]; only
    /// a process that could not be created is a failure.
    Spawn { interpreter: String, script: String, dir: String, capture_output: bool },
    /// The backend runs.
    Started,
    /// Nothing could be started.
    Failed,
}

impl View for LaunchStep {
    type V = LaunchStepModel;

    open spec fn view(&self) -> LaunchStepModel {
        match self {
            LaunchStep::CheckFile(path) => LaunchStepModel::CheckFile(path@),
            LaunchStep::Spawn { interpreter, script, dir, capture_output } => {
                LaunchStepModel::Spawn {
                    interpreter: interpreter@,
                    script: script@,
                    dir: dir@,
                    capture_output: *capture_output,
                }
            },
            LaunchStep::Started => LaunchStepModel::Started,
            LaunchStep::Failed => LaunchStepModel::Failed,
        }
    }
}

/// Tries the entry points of one backend directory with every interpreter,
/// asking for one file check or one spawn at a time, until a spawn succeeds.
pub struct RuntimeSelector<H> {
    dir: String,
    entry: usize,
    interpreter: usize,
    checked: bool,
    attempts: Vec<Attempt>,
    handle: Option<H>,
    journal: Journal,
}

impl<H> View for RuntimeSelector<H> {
    type V = SelectorModel<H>;

    closed spec fn view(&self) -> SelectorModel<H> {
        SelectorModel {
            dir: self.dir@,
            entry: self.entry as nat,
            interpreter: self.interpreter as nat,
            checked: self.checked,
            attempts: self.attempts.deep_view(),
            handle: self.handle,
            journal: self.journal@,
        }
    }
}

fn entry_name(index: usize) -> (name: &'static str)
    ensures
        name@ == entry_at(index as int),
{
    if index == 0 {
        "start_backend.py"
    } else {
        "main.py"
    }
}

fn interpreter_name(index: usize) -> (name: &'static str)
    ensures
        name@ == interpreter_at(index as int),
{
    if index == 0 {
        "python3"
    } else {
        "python"
    }
}

fn note_trying(journal: &mut Journal, entry: usize, interpreter: usize)
    ensures
        final(journal)@ == old(journal)@.push(
            trying_line(entry_at(entry as int), interpreter_at(interpreter as int)),
        ),
{
    let mut text = String::from_str("Trying to start ");
    text.append(entry_name(entry));
    text.append(" with: ");
    text.append(interpreter_name(interpreter));
    journal.info(text);
}

fn note_failure(journal: &mut Journal, dir: &str)
    ensures
        final(journal)@ == old(journal)@ + failure_lines(dir@),
{
    journal.error(String::from_str("Failed to start Python backend with any method!"));
    journal.error(String::from_str("Make sure Python is installed and accessible."));
    let mut text = String::from_str("Backend directory: ");
    text.append(dir);
    journal.error(text);
    journal.error(String::from_str("Required files: main.py or start_backend.py"));
}

impl<H> RuntimeSelector<H> {
    /// A selector for the backend directory `dir`.
    pub fn new(dir: String) -> (selector: RuntimeSelector<H>)
        ensures
            selector@ == SelectorModel::<H>::start(dir@),
    {
        let mut journal = Journal::new();
        let mut text = String::from_str("Starting Python server from: ");
        text.append(dir.as_str());
        journal.info(text);
        let selector = RuntimeSelector {
            dir,
            entry: 0,
            interpreter: 0,
            checked: false,
            attempts: Vec::new(),
            handle: None,
            journal,
        };
        assert(selector@.attempts =~= Seq::<AttemptModel>::empty());
        selector
    }

    /// What the caller has to do next.
    pub fn next_step(&self) -> (step: LaunchStep)
        ensures
            step@ == self@.step(),
    {
        if self.handle.is_some() {
            LaunchStep::Started
        } else if self.entry >= 2 {
            LaunchStep::Failed
        } else if !self.checked {
            LaunchStep::CheckFile(join(self.dir.as_str(), entry_name(self.entry)))
        } else {
            LaunchStep::Spawn {
                interpreter: String::from_str(interpreter_name(self.interpreter)),
                script: join(self.dir.as_str(), entry_name(self.entry)),
                dir: self.dir.clone(),
                capture_output: true,
            }
        }
    }

    fn give_up_entry(&mut self)
        requires
            old(self).entry < 2,
        ensures
            final(self)@ == old(self)@.next_entry(),
    {
        self.entry = self.entry + 1;
        self.interpreter = 0;
        self.checked = false;
        if self.entry >= 2 {
            note_failure(&mut self.journal, self.dir.as_str());
        }
    }

    /// Takes the answer to the pending file check.
    pub fn file_checked(&mut self, exists: bool)
        ensures
            final(self)@ == old(self)@.file_checked(exists),
    {
        if self.handle.is_some() || self.entry >= 2 || self.checked {
            return ;
        }
        if exists {
            self.checked = true;
            self.interpreter = 0;
            note_trying(&mut self.journal, self.entry, 0);
        } else {
            self.give_up_entry();
        }
    }

    /// Takes the handle of the process that the pending spawn started.
    pub fn spawned(&mut self, handle: H)
        ensures
            final(self)@ == old(self)@.spawned(handle),
    {
        if self.handle.is_some() || self.entry >= 2 || !self.checked {
            return ;
        }
        let mut text = String::from_str("Successfully started Python server: ");
        text.append(entry_name(self.entry));
        text.append(" with ");
        text.append(interpreter_name(self.interpreter));
        self.journal.info(text);
        self.handle = Some(handle);
    }

    /// Takes the cause for which the pending spawn was refused.
    pub fn spawn_failed(&mut self, cause: String)
        ensures
            final(self)@ == old(self)@.spawn_failed(cause@),
    {
        if self.handle.is_some() || self.entry >= 2 || !self.checked {
            return ;
        }
        let mut text = String::from_str("Failed to start ");
        text.append(entry_name(self.entry));
        text.append(" with ");
        text.append(interpreter_name(self.interpreter));
        text.append(": ");
        text.append(cause.as_str());
        self.journal.error(text);
        self.attempts.push(
            Attempt {
                entry_point: String::from_str(entry_name(self.entry)),
                interpreter: String::from_str(interpreter_name(self.interpreter)),
                cause,
            },
        );
        assert(self@.attempts =~= old(self)@.attempts.push(old(self)@.refusal(cause@)));
        if self.interpreter == 0 {
            self.interpreter = 1;
            note_trying(&mut self.journal, self.entry, 1);
        } else {
            self.give_up_entry();
        }
    }

    /// Hands out the records written since the last call.
    pub fn drain_journal(&mut self) -> (records: Vec<LogRecord>)
        ensures
            records.deep_view() == old(self)@.journal,
            final(self)@ == (SelectorModel { journal: Seq::<LogLine>::empty(), ..old(self)@ }),
    {
        self.journal.drain()
    }

    /// Ends the launch: the handle of the started process, or the refused
    /// spawns when nothing could be started; `None` while the launch is
    /// still under way.
    pub fn into_outcome(self) -> (outcome: Option<LaunchOutcome<H>>)
        ensures
            match outcome {
                Some(ended) => self@.outcome() == Some(ended@),
                None => self@.outcome() is None,
            },
            outcome is Some ==> !(outcome->0 is NotFound),
    {
        if let Some(handle) = self.handle {
            Some(LaunchOutcome::Started(handle))
        } else if self.entry >= 2 {
            Some(LaunchOutcome::LaunchFailed(self.attempts))
        } else {
            None
        }
    }
}

/// An entry point paired with an interpreter.
pub struct Pairing {
    pub entry_point: Seq<char>,
    pub interpreter: Seq<char>,
}

/// Whether the entry point at `index` exists directly inside `dir`.
pub open spec fn entry_present(dir: Seq<char>, files: Set<Seq<char>>, index: int) -> bool {
    files.contains(spec_join(dir, entry_at(index)))
}

/// The pairings of one entry point: every interpreter in turn if its file
/// exists, none otherwise.
pub open spec fn pairings_of(dir: Seq<char>, files: Set<Seq<char>>, index: int) -> Seq<Pairing> {
    if entry_present(dir, files, index) {
        Seq::new(
            interpreters().len(),
            |i: int| Pairing { entry_point: entry_at(index), interpreter: interpreters()[i] },
        )
    } else {
        Seq::<Pairing>::empty()
    }
}

/// The spawns that a launch may have to make, in order: for each entry point
/// that exists, preferred one first, every interpreter in turn.
pub open spec fn planned(dir: Seq<char>, files: Set<Seq<char>>) -> Seq<Pairing> {
    pairings_of(dir, files, 0) + pairings_of(dir, files, 1)
}

/// How many of the known entry points exist directly inside `dir`.
pub open spec fn present_count(dir: Seq<char>, files: Set<Seq<char>>) -> nat {
    let first: nat = if entry_present(dir, files, 0) {
        1
    } else {
        0
    };
    let last: nat = if entry_present(dir, files, 1) {
        1
    } else {
        0
    };
    first + last
}

/// What the world answers to the spawn of a pairing.
pub open spec fn answer<H>(
    dir: Seq<char>,
    pairing: Pairing,
    spawn: spec_fn(Seq<char>, Seq<char>) -> Result<H, Seq<char>>,
) -> Result<H, Seq<char>> {
    spawn(pairing.interpreter, spec_join(dir, pairing.entry_point))
}

/// The refused spawns that a run of refused pairings leaves behind.
pub open spec fn refusals<H>(
    dir: Seq<char>,
    pairings: Seq<Pairing>,
    spawn: spec_fn(Seq<char>, Seq<char>) -> Result<H, Seq<char>>,
) -> Seq<AttemptModel> {
    Seq::new(
        pairings.len(),
        |k: int|
            AttemptModel {
                entry_point: pairings[k].entry_point,
                interpreter: pairings[k].interpreter,
                cause: answer(dir, pairings[k], spawn)->Err_0,
            },
    )
}

/// The selector after the entry point under consideration has been dealt
/// with completely.
spec fn after_entry<H>(
    m: SelectorModel<H>,
    files: Set<Seq<char>>,
    spawn: spec_fn(Seq<char>, Seq<char>) -> Result<H, Seq<char>>,
) -> SelectorModel<H> {
    if !files.contains(m.script()) {
        m.file_checked(false)
    } else {
        match spawn(interpreter_at(0), m.script()) {
            Ok(handle) => m.file_checked(true).spawned(handle),
            Err(first) => match spawn(interpreter_at(1), m.script()) {
                Ok(handle) => m.file_checked(true).spawn_failed(first).spawned(handle),
                Err(last) => m.file_checked(true).spawn_failed(first).spawn_failed(last),
            },
        }
    }
}

proof fn lemma_run_entry<H>(
    m: SelectorModel<H>,
    files: Set<Seq<char>>,
    spawn: spec_fn(Seq<char>, Seq<char>) -> Result<H, Seq<char>>,
)
    requires
        m.handle is None,
        m.entry < 2,
        !m.checked,
    ensures
        m.run(files, spawn) == after_entry(m, files, spawn).run(files, spawn),
{
    reveal_with_fuel(SelectorModel::run, 4);
}

/// When the spawn of the `k`-th planned pairing is accepted and every earlier
/// one is refused, the launch ends as started with the handle of that spawn,
/// and the refused spawns are exactly the `k` earlier pairings: nothing is
/// tried after the success.
pub proof fn law_first_accepted_spawn_wins<H>(
    dir: Seq<char>,
    files: Set<Seq<char>>,
    spawn: spec_fn(Seq<char>, Seq<char>) -> Result<H, Seq<char>>,
    k: int,
)
    requires
        0 <= k < planned(dir, files).len(),
        answer(dir, planned(dir, files)[k], spawn) is Ok,
        forall|j: int|
            0 <= j < k ==> (#[trigger] answer(dir, planned(dir, files)[j], spawn)) is Err,
    ensures
        SelectorModel::<H>::start(dir).run(files, spawn).outcome() == Some(
            LaunchOutcomeModel::Started(answer(dir, planned(dir, files)[k], spawn)->Ok_0),
        ),
        SelectorModel::<H>::start(dir).run(files, spawn).attempts == refusals(
            dir,
            planned(dir, files).take(k),
            spawn,
        ),
{
    let plan = planned(dir, files);
    let s0 = SelectorModel::<H>::start(dir);
    let s1 = after_entry(s0, files, spawn);
    lemma_run_entry(s0, files, spawn);
    if s1.handle is None {
        lemma_run_entry(s1, files, spawn);
        if entry_present(dir, files, 0) {
            assert(answer(dir, plan[0], spawn) is Err);
            assert(answer(dir, plan[1], spawn) is Err);
            if k == 3 {
                assert(answer(dir, plan[2], spawn) is Err);
            }
        }
    }
}

/// When every planned spawn is refused, the launch ends as failed with one
/// refused spawn for each planned pairing, in order: their number is the
/// number of entry points that exist times the number of interpreters. The
/// journal then closes with the failure summary.
pub proof fn law_all_refused_means_launch_failed<H>(
    dir: Seq<char>,
    files: Set<Seq<char>>,
    spawn: spec_fn(Seq<char>, Seq<char>) -> Result<H, Seq<char>>,
)
    requires
        forall|j: int|
            0 <= j < planned(dir, files).len() ==> (#[trigger] answer(
                dir,
                planned(dir, files)[j],
                spawn,
            )) is Err,
    ensures
        SelectorModel::<H>::start(dir).run(files, spawn).outcome() == Some(
            LaunchOutcomeModel::<H>::LaunchFailed(refusals(dir, planned(dir, files), spawn)),
        ),
        refusals(dir, planned(dir, files), spawn).len() == present_count(dir, files)
            * interpreters().len(),
        failure_lines(dir).is_suffix_of(SelectorModel::<H>::start(dir).run(files, spawn).journal),
{
    let plan = planned(dir, files);
    let s0 = SelectorModel::<H>::start(dir);
    let s1 = after_entry(s0, files, spawn);
    let end = s0.run(files, spawn);
    lemma_run_entry(s0, files, spawn);
    if entry_present(dir, files, 0) {
        assert(answer(dir, plan[0], spawn) is Err);
        assert(answer(dir, plan[1], spawn) is Err);
        if entry_present(dir, files, 1) {
            assert(answer(dir, plan[2], spawn) is Err);
            assert(answer(dir, plan[3], spawn) is Err);
        }
    }
    lemma_run_entry(s1, files, spawn);
    assert(end.attempts =~= refusals(dir, plan, spawn));
}

proof fn lemma_run_finishes<H>(
    m: SelectorModel<H>,
    files: Set<Seq<char>>,
    spawn: spec_fn(Seq<char>, Seq<char>) -> Result<H, Seq<char>>,
)
    ensures
        m.run(files, spawn).finished(),
    decreases m.remaining(),
{
    if !m.finished() {
        if !m.checked {
            lemma_run_finishes(m.file_checked(files.contains(m.script())), files, spawn);
        } else if let Err(cause) = spawn(interpreter_at(m.interpreter as int), m.script()) {
            lemma_run_finishes(m.spawn_failed(cause), files, spawn);
        }
    }
}

/// Whatever the world answers, the launch comes to an end: after finitely
/// many checks and spawns it has started the backend or has failed.
pub proof fn law_launch_always_ends<H>(
    dir: Seq<char>,
    files: Set<Seq<char>>,
    spawn: spec_fn(Seq<char>, Seq<char>) -> Result<H, Seq<char>>,
)
    ensures
        SelectorModel::<H>::start(dir).run(files, spawn).outcome() is Some,
        !(SelectorModel::<H>::start(dir).run(files, spawn).outcome()->0 is NotFound),
{
    lemma_run_finishes(SelectorModel::<H>::start(dir), files, spawn);
}

/// Once a spawn has succeeded the selector holds that one handle for good:
/// it asks for no further check or spawn and ignores every later report.
pub proof fn law_started_selector_is_stable<H>(
    m: SelectorModel<H>,
    exists: bool,
    handle: H,
    cause: Seq<char>,
)
    requires
        m.handle is Some,
    ensures
        m.step() == LaunchStepModel::Started,
        m.file_checked(exists) == m,
        m.spawned(handle) == m,
        m.spawn_failed(cause) == m,
{
}

} // verus!
