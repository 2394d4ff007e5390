//! Worker references: what a bundler does with one `new Worker(url)` site.
//!
//! A site is recorded as a [`reference::WorkerAssetReference`]. From the
//! record alone follow
//! - the question to the resolver: which file does the argument refer to
//!   ([`reference::WorkerAssetReference::resolve_reference`]);
//! - the chunking: a worker script is always a unit of its own, loaded
//!   asynchronously ([`reference::WorkerAssetReference::chunking_type`]);
//! - the loader through which the script is addressed at run time
//!   ([`reference::WorkerAssetReference::select_loader`]);
//! - the change to the module: the expression at the site is replaced
//!   ([`reference::WorkerAssetReference::code_generation`], [`rewrite::rewrite`]).
//!
//! Nothing here resolves, chunks or emits code. The functions are pure: they
//! say what to ask of those services, and what to make of the answers.

pub mod reference;
pub mod rewrite;
pub mod syntax;
