//! Rendering the rewritten function back to source text.
//!
//! Each rendering function's contract gives the produced text exactly, as a
//! concatenation over the views of the pieces, so the emitted source is
//! pinned down character for character.

use vstd::prelude::*;

use crate::ast::BlockBody;
use crate::ast::BlockBodyView;
use crate::ast::Gate;
use crate::ast::GatedBlock;
use crate::ast::GatedBlockView;
use crate::ast::Param;
use crate::ast::ParamView;
use crate::ast::RewrittenFunction;
use crate::ast::RewrittenFunctionView;
use crate::ast::TracedBody;
use crate::ast::TracedBodyView;
use crate::ast::params_view;
use crate::ast::strings_view;

verus! {

/// Statements rendered one after another, each followed by a single space.
pub open spec fn joined_stmts(stmts: Seq<Seq<char>>) -> Seq<char>
    decreases stmts.len(),
{
    if stmts.len() == 0 {
        Seq::empty()
    } else {
        joined_stmts(stmts.drop_last()) + stmts.last() + " "@
    }
}

/// The begin-hook statement: it hands the hook the first parameter's value
/// and the trace identifier, and re-binds the first parameter's pattern to
/// the forwarded value beside the fresh depth token.
pub open spec fn begin_stmt(first_pat: Seq<char>, label: Seq<char>) -> Seq<char> {
    "let (depth, "@ + first_pat + ") = nom_tracable::forward_trace("@ + first_pat + ", \""@
        + label + "\");"@
}

/// The capture statement: the original statements evaluated as an
/// independently scoped unit, so that early returns inside them yield a
/// value instead of leaving the enclosing function, with the result bound
/// for the end-hook.
pub open spec fn body_stmt(original: Seq<Seq<char>>) -> Seq<char> {
    "let body_ret = { let body = || { "@ + joined_stmts(original) + "}; body() };"@
}

/// The end-hook statement: it hands the hook the captured body result, the
/// trace identifier and the depth token, and its value is the block's.
pub open spec fn end_stmt(label: Seq<char>) -> Seq<char> {
    "nom_tracable::backward_trace(body_ret, \""@ + label + "\", depth)"@
}

/// The traced variant's three statements, in order.
pub open spec fn traced_stmts(t: TracedBodyView) -> Seq<Seq<char>> {
    seq![begin_stmt(t.first_pat, t.label), body_stmt(t.original), end_stmt(t.label)]
}

/// One parameter as it stands in the signature.
pub open spec fn param_text(p: ParamView) -> Seq<char> {
    p.pat + ": "@ + p.ty
}

/// The parameter list, comma-separated.
pub open spec fn params_text(ps: Seq<ParamView>) -> Seq<char>
    decreases ps.len(),
{
    if ps.len() == 0 {
        Seq::empty()
    } else if ps.len() == 1 {
        param_text(ps[0])
    } else {
        params_text(ps.drop_last()) + ", "@ + param_text(ps.last())
    }
}

/// The build-gate attribute placed above a block.
pub open spec fn gate_text(g: Gate) -> Seq<char> {
    match g {
        Gate::TraceOff => "#[cfg(not(feature = \"trace\"))]"@,
        Gate::TraceOn => "#[cfg(feature = \"trace\")]"@,
    }
}

/// A block's statements: the original ones for the plain variant, the
/// three hook-threading ones for the traced variant.
pub open spec fn body_text(b: BlockBodyView) -> Seq<char> {
    match b {
        BlockBodyView::Plain(stmts) => joined_stmts(stmts),
        BlockBodyView::Traced(t) => joined_stmts(traced_stmts(t)),
    }
}

/// One gated block: its gate attribute, then its statements in braces.
pub open spec fn block_text(b: GatedBlockView) -> Seq<char> {
    gate_text(b.gate) + " { "@ + body_text(b.body) + "} "@
}

/// The gated blocks back to back.
pub open spec fn blocks_text(bs: Seq<GatedBlockView>) -> Seq<char>
    decreases bs.len(),
{
    if bs.len() == 0 {
        Seq::empty()
    } else {
        blocks_text(bs.drop_last()) + block_text(bs.last())
    }
}

/// The whole rewritten function as source text.
pub open spec fn function_text(rw: RewrittenFunctionView) -> Seq<char> {
    "fn "@ + rw.name + "("@ + params_text(rw.params) + ") -> "@ + rw.ret + " { "@ + blocks_text(
        rw.blocks,
    ) + "}"@
}

/// Renders a statement list, each statement followed by a single space.
pub fn render_joined(stmts: &Vec<String>) -> (out: String)
    ensures
        out@ == joined_stmts(strings_view(stmts@)),
{
    let mut out = String::new();
    let mut i: usize = 0;
    while i < stmts.len()
        invariant
            i <= stmts@.len(),
            out@ == joined_stmts(strings_view(stmts@).take(i as int)),
        decreases stmts@.len() - i,
    {
        out.append(stmts[i].as_str());
        out.append(" ");
        proof {
            let sv = strings_view(stmts@);
            assert(sv.take(i + 1 as int).drop_last() =~= sv.take(i as int));
            assert(sv.take(i + 1 as int).last() == sv[i as int]);
        }
        i += 1;
    }
    proof {
        assert(strings_view(stmts@).take(stmts@.len() as int) =~= strings_view(stmts@));
    }
    out
}

/// Renders the begin-hook statement of a traced block.
pub fn render_begin_stmt(t: &TracedBody) -> (out: String)
    ensures
        out@ == begin_stmt(t@.first_pat, t@.label),
{
    let mut out = String::new();
    out.append("let (depth, ");
    out.append(t.first_pat.as_str());
    out.append(") = nom_tracable::forward_trace(");
    out.append(t.first_pat.as_str());
    out.append(", \"");
    out.append(t.label.as_str());
    out.append("\");");
    proof {
        assert(out@ =~= begin_stmt(t@.first_pat, t@.label));
    }
    out
}

/// Renders the capture statement of a traced block.
pub fn render_body_stmt(t: &TracedBody) -> (out: String)
    ensures
        out@ == body_stmt(t@.original),
{
    let mut out = String::new();
    out.append("let body_ret = { let body = || { ");
    let joined = render_joined(&t.original);
    out.append(joined.as_str());
    out.append("}; body() };");
    proof {
        assert(out@ =~= body_stmt(t@.original));
    }
    out
}

/// Renders the end-hook statement of a traced block.
pub fn render_end_stmt(t: &TracedBody) -> (out: String)
    ensures
        out@ == end_stmt(t@.label),
{
    let mut out = String::new();
    out.append("nom_tracable::backward_trace(body_ret, \"");
    out.append(t.label.as_str());
    out.append("\", depth)");
    proof {
        assert(out@ =~= end_stmt(t@.label));
    }
    out
}

/// Renders the traced variant's statements, in order: begin-hook call with
/// re-binding, captured evaluation of the original body, end-hook call.
pub fn render_traced_stmts(t: &TracedBody) -> (out: Vec<String>)
    ensures
        strings_view(out@) == traced_stmts(t@),
{
    let mut out: Vec<String> = Vec::new();
    out.push(render_begin_stmt(t));
    out.push(render_body_stmt(t));
    out.push(render_end_stmt(t));
    proof {
        assert(strings_view(out@) =~= traced_stmts(t@));
    }
    out
}

/// Renders the statements inside one block.
pub fn render_body(b: &BlockBody) -> (out: String)
    ensures
        out@ == body_text(b@),
{
    match b {
        BlockBody::Plain(stmts) => render_joined(stmts),
        BlockBody::Traced(t) => {
            let stmts = render_traced_stmts(t);
            render_joined(&stmts)
        },
    }
}

/// Renders one gated block: its gate attribute and its braced statements.
pub fn render_block(b: &GatedBlock) -> (out: String)
    ensures
        out@ == block_text(b@),
{
    let mut out = String::new();
    match b.gate {
        Gate::TraceOff => out.append("#[cfg(not(feature = \"trace\"))]"),
        Gate::TraceOn => out.append("#[cfg(feature = \"trace\")]"),
    }
    out.append(" { ");
    let body = render_body(&b.body);
    out.append(body.as_str());
    out.append("} ");
    proof {
        assert(out@ =~= block_text(b@));
    }
    out
}

/// Renders the comma-separated parameter list.
pub fn render_params(params: &Vec<Param>) -> (out: String)
    ensures
        out@ == params_text(params_view(params@)),
{
    let mut out = String::new();
    let mut i: usize = 0;
    while i < params.len()
        invariant
            i <= params@.len(),
            out@ == params_text(params_view(params@).take(i as int)),
        decreases params@.len() - i,
    {
        if i > 0 {
            out.append(", ");
        }
        out.append(params[i].pat.as_str());
        out.append(": ");
        out.append(params[i].ty.as_str());
        proof {
            let pv = params_view(params@);
            assert(pv.take(i + 1 as int).drop_last() =~= pv.take(i as int));
            assert(pv.take(i + 1 as int).last() == pv[i as int]);
            assert(out@ =~= params_text(pv.take(i + 1 as int)));
        }
        i += 1;
    }
    proof {
        assert(params_view(params@).take(params@.len() as int) =~= params_view(params@));
    }
    out
}

/// Renders the whole rewritten function as source text: the unchanged
/// signature over the two gated blocks.
pub fn render_function(rw: &RewrittenFunction) -> (out: String)
    ensures
        out@ == function_text(rw@),
{
    let mut out = String::new();
    out.append("fn ");
    out.append(rw.name.as_str());
    out.append("(");
    let params = render_params(&rw.params);
    out.append(params.as_str());
    out.append(") -> ");
    out.append(rw.ret.as_str());
    out.append(" { ");
    let mut i: usize = 0;
    let ghost prefix: Seq<char> = out@;
    while i < rw.blocks.len()
        invariant
            i <= rw.blocks@.len(),
            out@ == prefix + blocks_text(crate::ast::blocks_view(rw.blocks@).take(i as int)),
        decreases rw.blocks@.len() - i,
    {
        let block = render_block(&rw.blocks[i]);
        out.append(block.as_str());
        proof {
            let bv = crate::ast::blocks_view(rw.blocks@);
            assert(bv.take(i + 1 as int).drop_last() =~= bv.take(i as int));
            assert(bv.take(i + 1 as int).last() == bv[i as int]);
        }
        i += 1;
    }
    out.append("}");
    proof {
        let bv = crate::ast::blocks_view(rw.blocks@);
        assert(bv.take(rw.blocks@.len() as int) =~= bv);
        assert(out@ =~= function_text(rw@));
    }
    out
}

} // verus!
