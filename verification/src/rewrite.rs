//! The rewriter itself: from a function's shape and an optional label to
//! the two-variant rewritten function, or to the one error the transform
//! can raise.

use vstd::prelude::*;

use crate::ast::BlockBody;
use crate::ast::BlockBodyView;
use crate::ast::FunctionSpec;
use crate::ast::FunctionSpecView;
use crate::ast::Gate;
use crate::ast::GatedBlock;
use crate::ast::GatedBlockView;
use crate::ast::Param;
use crate::ast::RewrittenFunction;
use crate::ast::RewrittenFunctionView;
use crate::ast::TracedBody;
use crate::ast::TracedBodyView;
use crate::ast::TransformError;
use crate::ast::gate_selects;
use crate::ast::params_view;
use crate::ast::plain_stmts;
use crate::ast::traced_content;

verus! {

/// The trace identifier: the label verbatim when one was supplied, else the
/// function's own name rendered as text.
pub open spec fn trace_identifier(item: FunctionSpecView, label: Option<Seq<char>>) -> Seq<char> {
    match label {
        Option::Some(l) => l,
        Option::None => item.name,
    }
}

/// The text carried by an optional label.
pub open spec fn label_view(label: Option<String>) -> Option<Seq<char>> {
    match label {
        Option::Some(l) => Option::Some(l@),
        Option::None => Option::None,
    }
}

/// The plain variant: the original statements under the trace-off gate.
pub open spec fn plain_variant_spec(item: FunctionSpecView) -> GatedBlockView {
    GatedBlockView { gate: Gate::TraceOff, body: BlockBodyView::Plain(item.body) }
}

/// The traced variant: under the trace-on gate, the original statements
/// wrapped between the hook calls, threading the first parameter's pattern
/// and the trace identifier.
pub open spec fn traced_variant_spec(
    item: FunctionSpecView,
    label: Option<Seq<char>>,
) -> GatedBlockView {
    GatedBlockView {
        gate: Gate::TraceOn,
        body: BlockBodyView::Traced(
            TracedBodyView {
                first_pat: item.params[0].pat,
                label: trace_identifier(item, label),
                original: item.body,
            },
        ),
    }
}

/// The whole rewritten function: the input's signature over the plain and
/// the traced variant, back to back.
pub open spec fn rewritten_spec(
    item: FunctionSpecView,
    label: Option<Seq<char>>,
) -> RewrittenFunctionView {
    RewrittenFunctionView {
        name: item.name,
        params: item.params,
        ret: item.ret,
        blocks: seq![plain_variant_spec(item), traced_variant_spec(item, label)],
    }
}

/// Copies a statement list; the copy carries the same text.
fn clone_strings(v: &Vec<String>) -> (r: Vec<String>)
    ensures
        r@ == v@,
{
    let mut r: Vec<String> = Vec::new();
    let mut i: usize = 0;
    while i < v.len()
        invariant
            i <= v@.len(),
            r@ == v@.take(i as int),
        decreases v@.len() - i,
    {
        r.push(v[i].clone());
        proof {
            assert(v@.take(i + 1 as int) =~= v@.take(i as int).push(v@[i as int]));
        }
        i += 1;
    }
    proof {
        assert(v@.take(v@.len() as int) =~= v@);
    }
    r
}

/// Copies a parameter list; the copy carries the same patterns and types.
fn clone_params(v: &Vec<Param>) -> (r: Vec<Param>)
    ensures
        params_view(r@) == params_view(v@),
{
    let mut r: Vec<Param> = Vec::new();
    let mut i: usize = 0;
    while i < v.len()
        invariant
            i <= v@.len(),
            params_view(r@) == params_view(v@.take(i as int)),
        decreases v@.len() - i,
    {
        let p = &v[i];
        r.push(Param { pat: p.pat.clone(), ty: p.ty.clone() });
        proof {
            assert(params_view(v@.take(i + 1 as int)) =~= params_view(v@.take(i as int)).push(
                v@[i as int]@,
            ));
            assert(params_view(r@) =~= params_view(v@.take(i + 1 as int)));
        }
        i += 1;
    }
    proof {
        assert(v@.take(v@.len() as int) =~= v@);
    }
    r
}

/// Resolves the trace identifier: the supplied label verbatim, or, absent
/// one, the function's name rendered as text.
pub fn resolve_identifier(item: &FunctionSpec, label: Option<String>) -> (id: String)
    ensures
        id@ == trace_identifier(item@, label_view(label)),
{
    match label {
        Option::Some(l) => l,
        Option::None => item.name.clone(),
    }
}

/// Builds the plain variant: a block holding exactly the original
/// statements, compiled only when the trace flag is off.
pub fn plain_variant(item: &FunctionSpec) -> (b: GatedBlock)
    ensures
        b@ == plain_variant_spec(item@),
{
    GatedBlock { gate: Gate::TraceOff, body: BlockBody::Plain(clone_strings(&item.body)) }
}

/// Builds the traced variant: a block compiled only when the trace flag is
/// on, wrapping the original statements between the begin- and end-hook
/// calls. Fails when the function declares no parameter, since there is
/// then no first argument to thread through the hooks.
pub fn traced_variant(item: &FunctionSpec, identifier: String) -> (r: Result<GatedBlock, TransformError>)
    ensures
        r is Ok <==> item@.params.len() > 0,
        r matches Err(e) ==> e == TransformError::MissingFirstParameter,
        r matches Ok(b) ==> b@ == (GatedBlockView {
            gate: Gate::TraceOn,
            body: BlockBodyView::Traced(
                TracedBodyView {
                    first_pat: item@.params[0].pat,
                    label: identifier@,
                    original: item@.body,
                },
            ),
        }),
{
    if item.params.len() == 0 {
        return Result::Err(TransformError::MissingFirstParameter);
    }
    let first_pat = item.params[0].pat.clone();
    Result::Ok(
        GatedBlock {
            gate: Gate::TraceOn,
            body: BlockBody::Traced(
                TracedBody { first_pat, label: identifier, original: clone_strings(&item.body) },
            ),
        },
    )
}

/// Rewrites `item` into its two-variant form.
///
/// On success the output keeps the input's name, parameter list and return
/// type unchanged; its body is exactly two gated blocks, the plain variant
/// first and the traced variant second, so that every resolved build
/// compiles exactly one of them. The plain variant holds the original
/// statements with no insertions; the traced variant threads the first
/// parameter and the trace identifier — the label verbatim if one was
/// given, else the function's name as text — through the hook calls.
///
/// The rewrite fails, with `MissingFirstParameter` and no output, exactly
/// when the function declares no parameter.
pub fn tracable_parser(item: &FunctionSpec, label: Option<String>) -> (r: Result<RewrittenFunction, TransformError>)
    ensures
        r is Ok <==> item@.params.len() > 0,
        r matches Err(e) ==> e == TransformError::MissingFirstParameter,
        r matches Ok(rw) ==> rw@ == rewritten_spec(item@, label_view(label)),
        r matches Ok(rw) ==> rw@.wf(),
        // The signature survives the rewrite untouched.
        r matches Ok(rw) ==> rw@.name == item@.name && rw@.params == item@.params && rw@.ret
            == item@.ret,
        // The plain variant holds exactly the original statements.
        r matches Ok(rw) ==> plain_stmts(rw@.blocks[0].body) == item@.body,
        // The traced variant threads the first parameter's pattern and
        // carries the trace identifier and the untouched original body.
        r matches Ok(rw) ==> traced_content(rw@.blocks[1].body) == (TracedBodyView {
            first_pat: item@.params[0].pat,
            label: trace_identifier(item@, label_view(label)),
            original: item@.body,
        }),
{
    let identifier = resolve_identifier(item, label);
    let plain = plain_variant(item);
    let traced = match traced_variant(item, identifier) {
        Result::Ok(t) => t,
        Result::Err(e) => {
            return Result::Err(e);
        },
    };
    let mut blocks: Vec<GatedBlock> = Vec::new();
    blocks.push(plain);
    blocks.push(traced);
    let rw = RewrittenFunction {
        name: item.name.clone(),
        params: clone_params(&item.params),
        ret: item.ret.clone(),
        blocks,
    };
    proof {
        assert(rw@.blocks =~= rewritten_spec(item@, label_view(label)).blocks);
        assert(rw@ =~= rewritten_spec(item@, label_view(label)));
    }
    Result::Ok(rw)
}

/// The block a build compiles: of the two gated blocks, the one whose gate
/// the resolved trace flag selects.
pub fn compiled_variant<'a>(rw: &'a RewrittenFunction, trace_enabled: bool) -> (b: &'a GatedBlock)
    requires
        rw@.wf(),
    ensures
        gate_selects(b.gate, trace_enabled),
        b@ == (if trace_enabled {
            rw@.blocks[1]
        } else {
            rw@.blocks[0]
        }),
{
    if trace_enabled {
        &rw.blocks[1]
    } else {
        &rw.blocks[0]
    }
}

impl TransformError {
    /// A descriptive message, as the transform-time abort would print it.
    pub fn message(&self) -> (m: String)
        ensures
            *self == TransformError::MalformedInput ==> m@ == "annotated item is not a function with a literal label"@,
            *self == TransformError::MissingFirstParameter ==> m@ == "function annotated for tracing must declare a first argument"@,
    {
        match self {
            TransformError::MalformedInput => String::from_str(
                "annotated item is not a function with a literal label",
            ),
            TransformError::MissingFirstParameter => String::from_str(
                "function annotated for tracing must declare a first argument",
            ),
        }
    }
}

} // verus!
