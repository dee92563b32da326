//! The syntactic entities the rewriter works on.
//!
//! Everything here is plain data: a function is its name, its ordered
//! parameter list, its declared return type and its body, the body an
//! ordered sequence of statements kept as opaque text. The rewriter never
//! looks inside a statement; it only relocates them.

use vstd::prelude::*;

verus! {

/// The build-time condition attached to a generated block: the single
/// binary trace flag, resolved to exactly one value before compilation.
#[derive(Clone, Copy, Debug, PartialEq, Eq, Structural)]
pub enum Gate {
    /// The block is compiled only when tracing is disabled.
    TraceOff,
    /// The block is compiled only when tracing is enabled.
    TraceOn,
}

/// Whether a block gated by `g` is part of the compiled output of a build
/// that resolved the trace flag to `trace_enabled`.
pub open spec fn gate_selects(g: Gate, trace_enabled: bool) -> bool {
    match g {
        Gate::TraceOff => !trace_enabled,
        Gate::TraceOn => trace_enabled,
    }
}

/// The ways the transform can fail. Both are detected while the transform
/// runs, long before any rewritten code could execute.
#[derive(Clone, Copy, Debug, PartialEq, Eq, Structural)]
pub enum TransformError {
    /// The annotated item is not a function, or the annotation's argument
    /// is not a literal. Produced by the embedding that parses source text
    /// into a [`FunctionSpec`]; the rewriter itself never emits it.
    MalformedInput,
    /// The annotated function declares no parameters, so there is no first
    /// argument to thread through the trace hooks.
    MissingFirstParameter,
}

/// One declared parameter: its binding pattern and its type, as text.
#[derive(Debug)]
pub struct Param {
    pub pat: String,
    pub ty: String,
}

pub struct ParamView {
    pub pat: Seq<char>,
    pub ty: Seq<char>,
}

impl View for Param {
    type V = ParamView;

    open spec fn view(&self) -> ParamView {
        ParamView { pat: self.pat@, ty: self.ty@ }
    }
}

/// The text of each statement in a statement list.
pub open spec fn strings_view(v: Seq<String>) -> Seq<Seq<char>> {
    v.map_values(|s: String| s@)
}

/// The text of each parameter in a parameter list.
pub open spec fn params_view(v: Seq<Param>) -> Seq<ParamView> {
    v.map_values(|p: Param| p@)
}

/// The parsed shape of the function handed to the rewriter: name, ordered
/// parameters, declared return type, and the original body as an ordered
/// sequence of opaque statements.
#[derive(Debug)]
pub struct FunctionSpec {
    pub name: String,
    pub params: Vec<Param>,
    pub ret: String,
    pub body: Vec<String>,
}

pub struct FunctionSpecView {
    pub name: Seq<char>,
    pub params: Seq<ParamView>,
    pub ret: Seq<char>,
    pub body: Seq<Seq<char>>,
}

impl View for FunctionSpec {
    type V = FunctionSpecView;

    open spec fn view(&self) -> FunctionSpecView {
        FunctionSpecView {
            name: self.name@,
            params: params_view(self.params@),
            ret: self.ret@,
            body: strings_view(self.body@),
        }
    }
}

/// The instrumented variant's content. Its rendered form is, in order:
/// a begin-hook call that receives the first parameter's value and the
/// trace identifier and yields a depth token together with a forwarded
/// value, to which the first parameter's pattern is immediately re-bound;
/// the original statements evaluated as an independently scoped unit whose
/// result is captured; and an end-hook call that receives that captured
/// result, the trace identifier and the depth token, and produces the
/// block's value.
#[derive(Debug)]
pub struct TracedBody {
    /// The first parameter's binding pattern, re-bound to the begin-hook's
    /// forwarded value.
    pub first_pat: String,
    /// The trace identifier passed to both hooks.
    pub label: String,
    /// The original statements, evaluated unchanged inside the nested scope.
    pub original: Vec<String>,
}

pub struct TracedBodyView {
    pub first_pat: Seq<char>,
    pub label: Seq<char>,
    pub original: Seq<Seq<char>>,
}

impl View for TracedBody {
    type V = TracedBodyView;

    open spec fn view(&self) -> TracedBodyView {
        TracedBodyView {
            first_pat: self.first_pat@,
            label: self.label@,
            original: strings_view(self.original@),
        }
    }
}

/// What stands inside one generated block: either the original statements
/// verbatim, or the instrumented wrapping of them.
#[derive(Debug)]
pub enum BlockBody {
    Plain(Vec<String>),
    Traced(TracedBody),
}

pub enum BlockBodyView {
    Plain(Seq<Seq<char>>),
    Traced(TracedBodyView),
}

impl View for BlockBody {
    type V = BlockBodyView;

    open spec fn view(&self) -> BlockBodyView {
        match self {
            BlockBody::Plain(stmts) => BlockBodyView::Plain(strings_view(stmts@)),
            BlockBody::Traced(t) => BlockBodyView::Traced(t@),
        }
    }
}

/// The statements of a plain block; the empty sequence for a traced block.
pub open spec fn plain_stmts(b: BlockBodyView) -> Seq<Seq<char>> {
    match b {
        BlockBodyView::Plain(stmts) => stmts,
        BlockBodyView::Traced(_) => Seq::empty(),
    }
}

/// The content of a traced block; an empty placeholder for a plain block.
pub open spec fn traced_content(b: BlockBodyView) -> TracedBodyView {
    match b {
        BlockBodyView::Plain(_) => TracedBodyView {
            first_pat: Seq::empty(),
            label: Seq::empty(),
            original: Seq::empty(),
        },
        BlockBodyView::Traced(t) => t,
    }
}

/// One block of the rewritten body, together with the build-time condition
/// under which it is compiled.
#[derive(Debug)]
pub struct GatedBlock {
    pub gate: Gate,
    pub body: BlockBody,
}

pub struct GatedBlockView {
    pub gate: Gate,
    pub body: BlockBodyView,
}

impl View for GatedBlock {
    type V = GatedBlockView;

    open spec fn view(&self) -> GatedBlockView {
        GatedBlockView { gate: self.gate, body: self.body@ }
    }
}

pub open spec fn blocks_view(v: Seq<GatedBlock>) -> Seq<GatedBlockView> {
    v.map_values(|b: GatedBlock| b@)
}

/// The rewriter's output: the input function's signature, unchanged, over a
/// body of exactly two gated blocks — the plain one compiled when tracing
/// is off, the traced one when tracing is on.
#[derive(Debug)]
pub struct RewrittenFunction {
    pub name: String,
    pub params: Vec<Param>,
    pub ret: String,
    pub blocks: Vec<GatedBlock>,
}

pub struct RewrittenFunctionView {
    pub name: Seq<char>,
    pub params: Seq<ParamView>,
    pub ret: Seq<char>,
    pub blocks: Seq<GatedBlockView>,
}

impl View for RewrittenFunction {
    type V = RewrittenFunctionView;

    open spec fn view(&self) -> RewrittenFunctionView {
        RewrittenFunctionView {
            name: self.name@,
            params: params_view(self.params@),
            ret: self.ret@,
            blocks: blocks_view(self.blocks@),
        }
    }
}

impl RewrittenFunctionView {
    /// Shape every rewritten function has: two blocks, the plain one under
    /// the trace-off gate first, the traced one under the trace-on gate
    /// second. With the two gates complementary, every resolved build
    /// compiles exactly one of the blocks.
    pub open spec fn wf(self) -> bool {
        &&& self.blocks.len() == 2
        &&& self.blocks[0].gate == Gate::TraceOff
        &&& self.blocks[1].gate == Gate::TraceOn
        &&& self.blocks[0].body is Plain
        &&& self.blocks[1].body is Traced
    }
}

} // verus!
