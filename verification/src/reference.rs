//! The reference from a module to the script of a worker that it starts.
//!
//! A reference is an inert record of one `new Worker(..)` site. Everything
//! that is done with it is computed from the record alone: what to ask of the
//! resolver, how the worker is chunked, which loader its code is addressed
//! through, and how the expression at the site is rewritten.
//!
//! The record holds handles of four kinds that this library never looks into:
//! `O` for the resolving context, `R` for the request, `P` for the address of
//! the site in its syntax tree, and `S` for the place in the source that
//! diagnostics point at.

use crate::rewrite::{malformed, rewrite, rewrites_to, sole_argument};
use crate::syntax::Expr;
use vstd::prelude::*;
use vstd::string::StringExecFns;

verus! {

/// How a failure to resolve is reported.
#[derive(Debug, Clone, Copy, PartialEq, Eq, Hash, Structural)]
pub enum Severity {
    /// The build goes on, degraded.
    Warning,
    /// The build is flagged as failed.
    Error,
}

/// What a request is resolved for.
#[derive(Debug, Clone, Copy, PartialEq, Eq, Hash, Structural)]
pub enum ReferenceKind {
    /// An ordinary import of a module.
    Import,
    /// The URL-like argument of a construction, as in `new Worker(url)`.
    NewUrl,
}

/// How a referenced module is placed among the chunks.
#[derive(Debug, Clone, Copy, PartialEq, Eq, Hash, Structural)]
pub enum ChunkingType {
    /// In the chunk group of the referencing module, loaded together with it.
    Parallel,
    /// In a chunk group of its own, loaded asynchronously.
    Async,
}

/// How the target runtime loads chunks.
#[derive(Debug, Clone, Copy, PartialEq, Eq, Hash, Structural)]
pub enum ChunkLoading {
    /// The restricted loading of edge runtimes.
    Edge,
    /// Any other way of loading.
    Other,
}

/// How the code of a referenced module is addressed at run time.
#[derive(Debug, Clone, Copy, PartialEq, Eq, Hash, Structural)]
pub enum LoaderKind {
    /// As an item of the same graph.
    ChunkItem,
    /// As a chunk that the generic asynchronous loader fetches.
    AsyncChunkLoader,
}

/// What is asked of the resolver for one reference.
#[derive(Debug, Clone, Copy, PartialEq, Eq, Hash)]
pub struct ResolveRequest<O, R, S> {
    pub origin: O,
    pub request: R,
    pub kind: ReferenceKind,
    pub issue_source: S,
    pub severity: Severity,
}

/// What is asked of the pattern mapping for one reference: the import builder
/// for `request` seen from `origin`, given what `resolve` resolves to, with
/// the code addressed as `kind` says.
#[derive(Debug, Clone, Copy, PartialEq, Eq, Hash)]
pub struct LoaderRequest<O, R, S> {
    pub request: R,
    pub origin: O,
    pub resolve: ResolveRequest<O, R, S>,
    pub kind: LoaderKind,
}

/// The one change that a reference makes to its module: the node at `path`
/// is rewritten, with `import_externals` handed to the import builder.
#[derive(Debug, Clone, Copy, PartialEq, Eq, Hash)]
pub struct Visitor<P> {
    pub path: P,
    pub import_externals: bool,
}

/// What generating code for one reference takes: the import builder to ask
/// for, and the change to register.
#[derive(Debug, Clone, Copy, PartialEq, Eq, Hash)]
pub struct CodeGeneration<O, R, P, S> {
    pub loader: LoaderRequest<O, R, S>,
    pub visitor: Visitor<P>,
}

/// One site at which a module starts a worker.
#[derive(Debug, Clone, Copy, PartialEq, Eq, Hash)]
pub struct WorkerAssetReference<O, R, P, S> {
    /// The module that holds the site; the request is resolved relative to it.
    pub origin: O,
    /// What the argument of the construction asks for.
    pub request: R,
    /// The address of the expression to replace.
    pub path: P,
    /// Where diagnostics about this reference point.
    pub issue_source: S,
    /// Whether the site lies in a `try` block.
    pub in_try: bool,
    /// Whether modules that resolve to externals are imported, not inlined.
    pub import_externals: bool,
}

/// The severity of a failure at a site: a warning inside a `try` block, where
/// the program expects that something may fail, and an error elsewhere.
pub open spec fn severity_of(in_try: bool) -> Severity {
    if in_try {
        Severity::Warning
    } else {
        Severity::Error
    }
}

/// The severity of a failure at a site: see [`severity_of`].
pub fn try_to_severity(in_try: bool) -> (severity: Severity)
    ensures
        severity == severity_of(in_try),
{
    if in_try {
        Severity::Warning
    } else {
        Severity::Error
    }
}

/// The loader for a way of loading chunks: edge runtimes address the code as
/// an item of the graph, all others through the asynchronous loader.
pub open spec fn loader_kind_of(chunk_loading: ChunkLoading) -> LoaderKind {
    match chunk_loading {
        ChunkLoading::Edge => LoaderKind::ChunkItem,
        ChunkLoading::Other => LoaderKind::AsyncChunkLoader,
    }
}

/// The loader for a way of loading chunks: see [`loader_kind_of`].
pub fn loader_kind(chunk_loading: ChunkLoading) -> (kind: LoaderKind)
    ensures
        kind == loader_kind_of(chunk_loading),
        chunk_loading == ChunkLoading::Edge ==> kind == LoaderKind::ChunkItem,
        chunk_loading != ChunkLoading::Edge ==> kind == LoaderKind::AsyncChunkLoader,
{
    match chunk_loading {
        ChunkLoading::Edge => LoaderKind::ChunkItem,
        ChunkLoading::Other => LoaderKind::AsyncChunkLoader,
    }
}

impl<O: Copy, R: Copy, P: Copy, S: Copy> WorkerAssetReference<O, R, P, S> {
    /// What this reference asks of the resolver: its request, seen from its
    /// origin, as the URL of a construction; a failure is reported at its
    /// issue source, as a warning where the site lies in a `try` block and as
    /// an error elsewhere.
    pub open spec fn resolve_request(self) -> ResolveRequest<O, R, S> {
        ResolveRequest {
            origin: self.origin,
            request: self.request,
            kind: ReferenceKind::NewUrl,
            issue_source: self.issue_source,
            severity: severity_of(self.in_try),
        }
    }

    /// What this reference asks of the pattern mapping, given how the target
    /// runtime loads chunks.
    pub open spec fn loader_request(self, chunk_loading: ChunkLoading) -> LoaderRequest<O, R, S> {
        LoaderRequest {
            request: self.request,
            origin: self.origin,
            resolve: self.resolve_request(),
            kind: loader_kind_of(chunk_loading),
        }
    }

    /// The record of one site.
    pub fn new(
        origin: O,
        request: R,
        path: P,
        issue_source: S,
        in_try: bool,
        import_externals: bool,
    ) -> (reference: Self)
        ensures
            reference == (WorkerAssetReference {
                origin,
                request,
                path,
                issue_source,
                in_try,
                import_externals,
            }),
    {
        WorkerAssetReference { origin, request, path, issue_source, in_try, import_externals }
    }

    /// What to ask of the resolver.
    pub fn resolve_reference(&self) -> (call: ResolveRequest<O, R, S>)
        ensures
            call == self.resolve_request(),
    {
        ResolveRequest {
            origin: self.origin,
            request: self.request,
            kind: ReferenceKind::NewUrl,
            issue_source: self.issue_source,
            severity: try_to_severity(self.in_try),
        }
    }

    /// The label of this reference in diagnostics: `new Worker `, then the
    /// text of the request, which the caller has rendered.
    pub fn to_string(&self, request: &str) -> (label: String)
        ensures
            label@ == "new Worker "@ + request@,
    {
        let mut label = String::from_str("new Worker ");
        label.append(request);
        label
    }

    /// How the worker is chunked: always on its own, loaded asynchronously.
    pub fn chunking_type(&self) -> (chunking: Option<ChunkingType>)
        ensures
            chunking == Some(ChunkingType::Async),
    {
        Some(ChunkingType::Async)
    }

    /// What to ask of the pattern mapping, given how the target runtime loads
    /// chunks.
    pub fn select_loader(&self, chunk_loading: ChunkLoading) -> (loader: LoaderRequest<O, R, S>)
        ensures
            loader == self.loader_request(chunk_loading),
            chunk_loading == ChunkLoading::Edge ==> loader.kind == LoaderKind::ChunkItem,
            chunk_loading != ChunkLoading::Edge ==> loader.kind == LoaderKind::AsyncChunkLoader,
    {
        LoaderRequest {
            request: self.request,
            origin: self.origin,
            resolve: self.resolve_reference(),
            kind: loader_kind(chunk_loading),
        }
    }

    /// What generating code for this reference takes, given how the target
    /// runtime loads chunks.
    pub fn code_generation(
        &self,
        chunk_loading: ChunkLoading,
    ) -> (generation: CodeGeneration<O, R, P, S>)
        ensures
            generation.loader == self.loader_request(chunk_loading),
            chunk_loading == ChunkLoading::Edge ==> generation.loader.kind == LoaderKind::ChunkItem,
            chunk_loading != ChunkLoading::Edge ==> generation.loader.kind
                == LoaderKind::AsyncChunkLoader,
            generation.visitor == (Visitor {
                path: self.path,
                import_externals: self.import_externals,
            }),
    {
        CodeGeneration {
            loader: self.select_loader(chunk_loading),
            visitor: Visitor { path: self.path, import_externals: self.import_externals },
        }
    }
}

impl<P> Visitor<P> {
    /// The expression that takes the place of `node`, the node at `path`:
    /// see [`rewrite`].
    pub fn visit_expr<X, F>(&self, node: Expr<X>, builder: F) -> (replacement: Expr<X>)
        where F: FnOnce(Expr<X>, bool) -> Expr<X>
        requires
            malformed(node) is None ==> call_requires(
                builder,
                (sole_argument(node), self.import_externals),
            ),
        ensures
            rewrites_to(node, builder, self.import_externals, replacement),
    {
        rewrite(node, builder, self.import_externals)
    }
}

} // verus!
