//! Finding the backend directory: the first candidate that holds a marker
//! file.

use crate::journal::{error_line, info_line, Journal, LogLine, LogRecord};
use crate::paths::{join, spec_join};
use vstd::prelude::*;
use vstd::string::*;

verus! {

/// The file names whose presence shows that a directory holds the backend, in
/// the order in which they are looked for.
pub open spec fn marker_names() -> Seq<Seq<char>> {
    seq!["main.py"@, "start_backend.py"@]
}

/// The marker probed at a given position: the first name at position 0, the
/// last name at every later one.
pub open spec fn marker_at(index: int) -> Seq<char> {
    if index == 0 {
        marker_names()[0]
    } else {
        marker_names()[1]
    }
}

/// Whether the marker with the given index exists directly inside `dir`.
pub open spec fn marker_present(dir: Seq<char>, files: Set<Seq<char>>, index: int) -> bool {
    files.contains(spec_join(dir, marker_at(index)))
}

/// Whether at least one marker exists directly inside `dir`.
pub open spec fn has_marker(dir: Seq<char>, files: Set<Seq<char>>) -> bool {
    exists|index: int|
        0 <= index < marker_names().len() && #[trigger] marker_present(dir, files, index)
}

/// The record of a successful search.
pub open spec fn found_lines(dir: Seq<char>) -> Seq<LogLine> {
    seq![info_line("Found backend at: "@ + dir)]
}

/// The records of a failed search: a heading, then every candidate once, in
/// the order in which it was tried.
pub open spec fn not_found_lines(candidates: Seq<Seq<char>>) -> Seq<LogLine> {
    seq![error_line("Backend directory not found! Searched paths:"@)] + Seq::new(
        candidates.len(),
        |i: int| error_line("  - "@ + candidates[i]),
    )
}

/// What the locator wants next, as plain data.
pub enum LocateStepModel {
    /// Test whether this file exists and report the answer.
    Probe(Seq<char>),
    /// The search is over: this candidate holds the backend.
    Found(Seq<char>),
    /// The search is over: none of these candidates holds a marker.
    NotFound(Seq<Seq<char>>),
}

/// The locator as plain data.
pub struct LocatorModel {
    pub candidates: Seq<Seq<char>>,
    /// Index of the candidate under test; the number of candidates once all
    /// have been rejected.
    pub cursor: nat,
    /// Index of the marker to probe next inside that candidate.
    pub marker: nat,
    /// The candidate in which a marker was seen.
    pub found: Option<Seq<char>>,
    pub journal: Seq<LogLine>,
}

impl LocatorModel {
    /// The locator before any probe. With no candidate at all the search has
    /// already failed.
    pub open spec fn start(candidates: Seq<Seq<char>>) -> LocatorModel {
        LocatorModel {
            candidates,
            cursor: 0,
            marker: 0,
            found: None,
            journal: if candidates.len() == 0 {
                not_found_lines(candidates)
            } else {
                Seq::<LogLine>::empty()
            },
        }
    }

    /// Whether the search is over, one way or the other.
    pub open spec fn finished(self) -> bool {
        self.found is Some || self.cursor >= self.candidates.len()
    }

    /// What the locator wants next: the result once the search is over, and
    /// until then a probe for the next marker of the candidate under test.
    pub open spec fn step(self) -> LocateStepModel {
        if let Some(dir) = self.found {
            LocateStepModel::Found(dir)
        } else if self.cursor >= self.candidates.len() {
            LocateStepModel::NotFound(self.candidates)
        } else {
            LocateStepModel::Probe(
                spec_join(self.candidates[self.cursor as int], marker_at(self.marker as int)),
            )
        }
    }

    /// The locator after the answer to its pending probe. A hit ends the
    /// search at the current candidate; a miss moves on to the next marker,
    /// then to the next candidate, and ends the search after the last one. A
    /// finished locator ignores the answer.
    pub open spec fn after_probe(self, exists: bool) -> LocatorModel {
        if self.finished() {
            self
        } else if exists {
            LocatorModel {
                found: Some(self.candidates[self.cursor as int]),
                journal: self.journal + found_lines(self.candidates[self.cursor as int]),
                ..self
            }
        } else if self.marker + 1 < marker_names().len() {
            LocatorModel { marker: self.marker + 1, ..self }
        } else {
            LocatorModel {
                cursor: self.cursor + 1,
                marker: 0,
                journal: if self.cursor + 1 == self.candidates.len() {
                    self.journal + not_found_lines(self.candidates)
                } else {
                    self.journal
                },
                ..self
            }
        }
    }

    /// An upper bound on the probes still to come.
    pub open spec fn remaining(self) -> nat {
        if self.finished() {
            0
        } else if self.marker == 0 {
            (2 * (self.candidates.len() - self.cursor)) as nat
        } else {
            (2 * (self.candidates.len() - self.cursor) - 1) as nat
        }
    }

    /// The locator after every probe has been answered from `files`, the set
    /// of files that exist.
    pub open spec fn run(self, files: Set<Seq<char>>) -> LocatorModel
        decreases self.remaining(),
    {
        if !self.finished() {
            self.after_probe(
                marker_present(self.candidates[self.cursor as int], files, self.marker as int),
            ).run(files)
        } else {
            self
        }
    }
}

/// What the locator wants next.
#[derive(Debug)]
pub enum LocateStep {
    /// Test whether this file exists and report the answer with
    /// [`BackendLocator::record`].
    Probe(String),
    /// The search is over: this candidate holds the backend.
    Found(String),
    /// The search is over: none of these candidates holds a marker.
    NotFound(Vec<String>),
}

impl View for LocateStep {
    type V = LocateStepModel;

    open spec fn view(&self) -> LocateStepModel {
        match self {
            LocateStep::Probe(path) => LocateStepModel::Probe(path@),
            LocateStep::Found(dir) => LocateStepModel::Found(dir@),
            LocateStep::NotFound(searched) => LocateStepModel::NotFound(searched.deep_view()),
        }
    }
}

/// Walks the candidates in order, asking for one file probe at a time.
pub struct BackendLocator {
    candidates: Vec<String>,
    cursor: usize,
    marker: usize,
    found: Option<String>,
    journal: Journal,
}

impl View for BackendLocator {
    type V = LocatorModel;

    closed spec fn view(&self) -> LocatorModel {
        LocatorModel {
            candidates: self.candidates.deep_view(),
            cursor: self.cursor as nat,
            marker: self.marker as nat,
            found: self.found.deep_view(),
            journal: self.journal@,
        }
    }
}

fn marker_name(index: usize) -> (name: &'static str)
    ensures
        name@ == marker_at(index as int),
{
    if index == 0 {
        "main.py"
    } else {
        "start_backend.py"
    }
}

fn copy_paths(paths: &Vec<String>) -> (copy: Vec<String>)
    ensures
        copy.deep_view() == paths.deep_view(),
{
    let mut copy: Vec<String> = Vec::new();
    let mut i: usize = 0;
    while i < paths.len()
        invariant
            i <= paths.len(),
            copy@.len() == i,
            forall|k: int| 0 <= k < i ==> copy@[k]@ == paths@[k]@,
        decreases paths.len() - i,
    {
        copy.push(paths[i].clone());
        i += 1;
    }
    copy
}

fn note_not_found(journal: &mut Journal, candidates: &Vec<String>)
    ensures
        final(journal)@ == old(journal)@ + not_found_lines(candidates.deep_view()),
{
    journal.error(String::from_str("Backend directory not found! Searched paths:"));
    let ghost paths = candidates.deep_view();
    let ghost before = old(journal)@;
    let ghost heading = error_line("Backend directory not found! Searched paths:"@);
    let mut i: usize = 0;
    while i < candidates.len()
        invariant
            i <= candidates.len(),
            paths == candidates.deep_view(),
            journal@ == before + (seq![heading] + Seq::new(
                i as nat,
                |k: int| error_line("  - "@ + paths[k]),
            )),
        decreases candidates.len() - i,
    {
        let mut text = String::from_str("  - ");
        text.append(candidates[i].as_str());
        journal.error(text);
        i += 1;
    }
}

impl BackendLocator {
    /// A locator for `candidates`, first choice first.
    pub fn new(candidates: Vec<String>) -> (locator: BackendLocator)
        ensures
            locator@ == LocatorModel::start(candidates.deep_view()),
    {
        let mut journal = Journal::new();
        if candidates.len() == 0 {
            note_not_found(&mut journal, &candidates);
        }
        BackendLocator { candidates, cursor: 0, marker: 0, found: None, journal }
    }

    /// What the caller has to do next.
    pub fn next_step(&self) -> (step: LocateStep)
        ensures
            step@ == self@.step(),
    {
        if let Some(dir) = &self.found {
            LocateStep::Found(dir.clone())
        } else if self.cursor >= self.candidates.len() {
            LocateStep::NotFound(copy_paths(&self.candidates))
        } else {
            LocateStep::Probe(join(self.candidates[self.cursor].as_str(), marker_name(self.marker)))
        }
    }

    /// Takes the answer to the pending probe.
    pub fn record(&mut self, exists: bool)
        ensures
            final(self)@ == old(self)@.after_probe(exists),
    {
        if self.found.is_some() || self.cursor >= self.candidates.len() {
            return ;
        }
        if exists {
            let mut text = String::from_str("Found backend at: ");
            text.append(self.candidates[self.cursor].as_str());
            self.journal.info(text);
            self.found = Some(self.candidates[self.cursor].clone());
            assert(self@.journal =~= old(self)@.journal + found_lines(
                old(self)@.candidates[old(self)@.cursor as int],
            ));
        } else if self.marker == 0 {
            self.marker = 1;
        } else {
            self.marker = 0;
            self.cursor = self.cursor + 1;
            if self.cursor == self.candidates.len() {
                note_not_found(&mut self.journal, &self.candidates);
            }
        }
    }

    /// Hands out the records written since the last call.
    pub fn drain_journal(&mut self) -> (records: Vec<LogRecord>)
        ensures
            records.deep_view() == old(self)@.journal,
            final(self)@ == (LocatorModel { journal: Seq::<LogLine>::empty(), ..old(self)@ }),
    {
        self.journal.drain()
    }
}

proof fn lemma_run_reaches(m: LocatorModel, files: Set<Seq<char>>, n: int)
    requires
        m.found is None,
        m.marker < 2,
        m.cursor <= n <= m.candidates.len(),
        m.cursor < m.candidates.len(),
        forall|i: int| m.cursor <= i < n ==> !has_marker(#[trigger] m.candidates[i], files),
        n < m.candidates.len() ==> exists|j: int|
            (if m.cursor == n {
                m.marker as int
            } else {
                0
            }) <= j < 2 && #[trigger] marker_present(m.candidates[n], files, j),
    ensures
        m.run(files).candidates == m.candidates,
        n < m.candidates.len() ==> {
            &&& m.run(files).found == Some(m.candidates[n])
            &&& m.run(files).journal == m.journal + found_lines(m.candidates[n])
        },
        n == m.candidates.len() ==> {
            &&& m.run(files).found is None
            &&& m.run(files).cursor == m.candidates.len()
            &&& m.run(files).journal == m.journal + not_found_lines(m.candidates)
        },
    decreases m.remaining(),
{
    let hit = marker_present(m.candidates[m.cursor as int], files, m.marker as int);
    let next = m.after_probe(hit);
    assert(marker_names().len() == 2);
    if m.cursor < n {
        if m.marker == 0 || m.cursor + 1 < m.candidates.len() {
            lemma_run_reaches(next, files, n);
        }
    } else if !hit {
        lemma_run_reaches(next, files, n);
    }
}

/// When a marker exists in the `n`-th candidate and in no candidate before it,
/// the search ends with exactly that candidate and reports it.
pub proof fn law_first_marked_candidate_wins(
    candidates: Seq<Seq<char>>,
    files: Set<Seq<char>>,
    n: int,
)
    requires
        0 <= n < candidates.len(),
        has_marker(candidates[n], files),
        forall|i: int| 0 <= i < n ==> !has_marker(#[trigger] candidates[i], files),
    ensures
        LocatorModel::start(candidates).run(files).step() == LocateStepModel::Found(candidates[n]),
        LocatorModel::start(candidates).run(files).journal == found_lines(candidates[n]),
{
    let m = LocatorModel::start(candidates);
    lemma_run_reaches(m, files, n);
}

/// When no candidate holds a marker, the search ends as not found, and the
/// journal then holds the heading followed by every candidate exactly once,
/// in the order given.
pub proof fn law_no_marker_means_not_found(candidates: Seq<Seq<char>>, files: Set<Seq<char>>)
    requires
        forall|i: int| 0 <= i < candidates.len() ==> !has_marker(#[trigger] candidates[i], files),
    ensures
        LocatorModel::start(candidates).run(files).step() == LocateStepModel::NotFound(candidates),
        LocatorModel::start(candidates).run(files).journal == not_found_lines(candidates),
        not_found_lines(candidates).len() == candidates.len() + 1,
        forall|i: int|
            0 <= i < candidates.len() ==> (#[trigger] not_found_lines(candidates)[i + 1])
                == error_line("  - "@ + candidates[i]),
{
    let m = LocatorModel::start(candidates);
    if candidates.len() > 0 {
        lemma_run_reaches(m, files, candidates.len() as int);
    }
}

proof fn lemma_run_finishes(m: LocatorModel, files: Set<Seq<char>>)
    ensures
        m.run(files).finished(),
    decreases m.remaining(),
{
    if !m.finished() {
        lemma_run_finishes(
            m.after_probe(marker_present(m.candidates[m.cursor as int], files, m.marker as int)),
            files,
        );
    }
}

/// Whatever files exist, the search comes to an end: after finitely many
/// probes the locator has found a candidate or rejected them all.
pub proof fn law_search_always_ends(candidates: Seq<Seq<char>>, files: Set<Seq<char>>)
    ensures
        LocatorModel::start(candidates).run(files).finished(),
        !(LocatorModel::start(candidates).run(files).step() is Probe),
{
    lemma_run_finishes(LocatorModel::start(candidates), files);
}

/// A finished search stays finished: further answers change nothing, so no
/// candidate after the winning one is ever probed.
pub proof fn law_finished_locator_is_stable(m: LocatorModel, exists: bool)
    requires
        m.finished(),
    ensures
        m.after_probe(exists) == m,
        !(m.step() is Probe),
{
}

} // verus!
