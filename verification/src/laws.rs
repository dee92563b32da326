//! The properties the rewriter guarantees, each stated on its own over the
//! specification of the rewritten output.

use vstd::prelude::*;

use crate::ast::BlockBodyView;
use crate::ast::Gate;
use crate::ast::RewrittenFunctionView;
use crate::ast::FunctionSpecView;
use crate::ast::gate_selects;
use crate::ast::plain_stmts;
use crate::ast::traced_content;
use crate::render::begin_stmt;
use crate::render::end_stmt;
use crate::render::body_stmt;
use crate::render::traced_stmts;
use crate::rewrite::rewritten_spec;
use crate::rewrite::trace_identifier;

verus! {

/// Signature preservation: the rewritten function's name, parameter list
/// and return type are identical to the input's.
pub proof fn lemma_signature_preservation(item: FunctionSpecView, label: Option<Seq<char>>)
    ensures
        rewritten_spec(item, label).name == item.name,
        rewritten_spec(item, label).params == item.params,
        rewritten_spec(item, label).ret == item.ret,
{
}

/// Mutual exclusivity: however the build resolves the trace flag, exactly
/// one of a rewritten function's blocks is compiled — at least one gate is
/// selected, and no two selected gates differ in position.
pub proof fn lemma_exactly_one_variant(rw: RewrittenFunctionView, trace_enabled: bool)
    requires
        rw.wf(),
    ensures
        exists|i: int|
            0 <= i < rw.blocks.len() && #[trigger] gate_selects(rw.blocks[i].gate, trace_enabled),
        forall|i: int, j: int|
            (0 <= i < rw.blocks.len() && 0 <= j < rw.blocks.len() && #[trigger] gate_selects(
                rw.blocks[i].gate,
                trace_enabled,
            ) && #[trigger] gate_selects(rw.blocks[j].gate, trace_enabled)) ==> i == j,
{
    if trace_enabled {
        assert(gate_selects(rw.blocks[1].gate, trace_enabled));
    } else {
        assert(gate_selects(rw.blocks[0].gate, trace_enabled));
    }
}

/// Body fidelity: the plain variant's block holds exactly the original
/// statements, in their original order, with no insertions.
pub proof fn lemma_plain_body_fidelity(item: FunctionSpecView, label: Option<Seq<char>>)
    ensures
        rewritten_spec(item, label).blocks[0].body is Plain,
        plain_stmts(rewritten_spec(item, label).blocks[0].body) == item.body,
{
}

/// Label default: with no explicit label the trace identifier is the
/// function's own name rendered as text; with an explicit label it is that
/// label verbatim.
pub proof fn lemma_label_default(item: FunctionSpecView, explicit: Seq<char>)
    ensures
        trace_identifier(item, Option::None) == item.name,
        trace_identifier(item, Option::Some(explicit)) == explicit,
{
}

/// First-argument threading: the traced variant's begin-hook statement
/// receives the first parameter's pattern and re-binds that same pattern to
/// the hook's forwarded value before the original body — kept unchanged in
/// the nested scope — is evaluated, and the end-hook call receives the
/// captured body result unmodified, with the same identifier and the depth
/// token from the begin-hook.
pub proof fn lemma_first_argument_threading(item: FunctionSpecView, label: Option<Seq<char>>)
    requires
        item.params.len() > 0,
    ensures
        rewritten_spec(item, label).blocks[1].body is Traced,
        traced_content(rewritten_spec(item, label).blocks[1].body).first_pat == item.params[0].pat,
        traced_content(rewritten_spec(item, label).blocks[1].body).original == item.body,
        traced_stmts(traced_content(rewritten_spec(item, label).blocks[1].body)) == seq![
            begin_stmt(item.params[0].pat, trace_identifier(item, label)),
            body_stmt(item.body),
            end_stmt(trace_identifier(item, label)),
        ],
{
}

} // verus!
