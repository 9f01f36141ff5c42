//! Locating, launching and supervising a backend server process.
//!
//! A desktop shell starts its backend, an HTTP server written in Python, once
//! at startup: it works out where the backend may live, finds the first
//! directory that holds it, starts it with the first entry point and
//! interpreter that the system accepts, and then watches the process until it
//! ends. This library holds every decision of that sequence and proves what
//! each one yields; it never touches the outside world itself.
//!
//! The parts that need the outside world are state machines. Each tells its
//! caller what to do next (probe a file, spawn a process) and takes the
//! observation back; the caller performs the step and nothing else. Every
//! machine collects its diagnostic records in a journal that the caller
//! drains and writes out.
//!
//! - [`paths`]: lexical arithmetic on `/`-separated paths.
//! - [`resolver`]: the ordered candidate directories.
//! - [`locator`]: the search for the first candidate with a marker file.
//! - [`selector`]: the launch from a backend directory.
//! - [`startup`]: search and launch as one startup attempt.
//! - [`supervisor`]: the life of the started process.
//! - [`readiness`]: the health check.
//! - [`folders`]: the two desktop commands on the downloads folder.
//! - [`journal`]: diagnostic records.

pub mod folders;
pub mod journal;
pub mod locator;
pub mod paths;
pub mod readiness;
pub mod resolver;
pub mod selector;
pub mod startup;
pub mod supervisor;
