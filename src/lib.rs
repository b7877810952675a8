//! Sandboxed execution of untrusted code snippets: input guard, dependency
//! list parsing, build manifest synthesis, per-run naming, result
//! classification, and the step machines that sequence the outside work of a
//! run (workspace, environment, image build, container run, cleanup).
pub mod action;
pub mod container;
pub mod guard;
pub mod hub;
pub mod manifest;
pub mod names;
pub mod probe;
pub mod report;
pub mod run;
pub mod stop;
pub mod text;
pub mod venv;
