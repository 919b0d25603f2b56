//! Git, `gh`, and `cargo` as ikigai resources.
//!
//! This crate is the **platform seam** for development tooling: a capability-gated exec
//! endpoint that runs an *allowlisted* external tool with an **argument vector** (never a
//! shell string: nothing is ever interpolated into a shell), and a set of **typed facades**
//! over it (`urn:repo:status`, `:log`, `:branch`, and the `urn:repo:pr:*` family: `:list`,
//! `:view`, `:files`, `:diff`, `:checks`) that build the right invocation and describe
//! themselves. A companion `urn:repo:list` enumerates the repositories under a ROOT so an
//! agent whose working directory is not a repository can discover where to point `dir=`.
//!
//! The library decides; it runs nothing and reads no directory. An invocation is planned
//! ([`facade::Facade::plan`], [`list::plan_scan`]): the result is the run to make or the
//! directory to scan, or a typed refusal. What came of it is handed back
//! ([`facade::Facade::finish`], [`list::finish_scan`]) and turned into what is served. The
//! same for the kernel's own invocations is in [`host`], for every endpoint of the space.
//!
//! ## The verb tells the truth
//! A read (`git status`, `gh pr view`) is a `Source`. Every facade of the space is a read.
//!
//! ## Capabilities
//! `urn:system:exec` requires `urn:cap:exec:{tool}` (e.g. `urn:cap:exec:git`); it is offered
//! under the wildcard `urn:cap:exec:*`. Each facade declares the concrete capability that it
//! needs. No grant, no tool. `urn:repo:list` is a filesystem read, not an exec, so it
//! declares and enforces `urn:cap:fs:read:*` instead.
//!
//! ## What is proved
//! Every function here states what it returns for every input. What holds of the endpoints
//! as a whole is stated in [`laws`]; what each of them runs, serves and declares in [`runs`],
//! [`serves`] and [`declares`]; and more at the end of [`space`], [`list`], [`log`],
//! [`json`], [`number`] and [`text`].
pub mod args;
pub mod argv;
pub mod call;
pub mod catalog;
pub mod declares;
pub mod describe;
pub mod facade;
pub mod host;
pub mod json;
pub mod laws;
pub mod list;
pub mod log;
pub mod number;
pub mod repr;
pub mod run;
pub mod runs;
pub mod serves;
pub mod space;
pub mod text;

pub use crate::space::space;
