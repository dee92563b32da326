use tracable_rewrite::ast::BlockBody;
use tracable_rewrite::ast::FunctionSpec;
use tracable_rewrite::ast::Param;
use tracable_rewrite::render::render_block;
use tracable_rewrite::render::render_function;
use tracable_rewrite::render::render_joined;
use tracable_rewrite::render::render_params;
use tracable_rewrite::render::render_traced_stmts;
use tracable_rewrite::rewrite::tracable_parser;

fn parse_spec() -> FunctionSpec {
    FunctionSpec {
        name: "parse".to_string(),
        params: vec![Param { pat: "input".to_string(), ty: "Span".to_string() }],
        ret: "Result".to_string(),
        body: vec!["do_parse(input)".to_string()],
    }
}

#[test]
fn scenario_without_label() {
    let rw = tracable_parser(&parse_spec(), None).unwrap();
    match &rw.blocks[0].body {
        BlockBody::Plain(stmts) => assert_eq!(stmts, &vec!["do_parse(input)".to_string()]),
        BlockBody::Traced(_) => panic!("plain variant expected first"),
    }
    match &rw.blocks[1].body {
        BlockBody::Traced(t) => {
            let stmts = render_traced_stmts(t);
            assert_eq!(
                stmts,
                vec![
                    "let (depth, input) = nom_tracable::forward_trace(input, \"parse\");"
                        .to_string(),
                    "let body_ret = { let body = || { do_parse(input) }; body() };".to_string(),
                    "nom_tracable::backward_trace(body_ret, \"parse\", depth)".to_string(),
                ]
            );
        }
        BlockBody::Plain(_) => panic!("traced variant expected second"),
    }
}

#[test]
fn scenario_with_custom_label() {
    let rw = tracable_parser(&parse_spec(), Some("custom".to_string())).unwrap();
    match &rw.blocks[0].body {
        BlockBody::Plain(stmts) => assert_eq!(stmts, &vec!["do_parse(input)".to_string()]),
        BlockBody::Traced(_) => panic!("plain variant expected first"),
    }
    match &rw.blocks[1].body {
        BlockBody::Traced(t) => {
            let stmts = render_traced_stmts(t);
            assert_eq!(
                stmts,
                vec![
                    "let (depth, input) = nom_tracable::forward_trace(input, \"custom\");"
                        .to_string(),
                    "let body_ret = { let body = || { do_parse(input) }; body() };".to_string(),
                    "nom_tracable::backward_trace(body_ret, \"custom\", depth)".to_string(),
                ]
            );
        }
        BlockBody::Plain(_) => panic!("traced variant expected second"),
    }
}

#[test]
fn renders_whole_function() {
    let rw = tracable_parser(&parse_spec(), None).unwrap();
    let text = render_function(&rw);
    let expected = "fn parse(input: Span) -> Result { \
#[cfg(not(feature = \"trace\"))] { do_parse(input) } \
#[cfg(feature = \"trace\")] { \
let (depth, input) = nom_tracable::forward_trace(input, \"parse\"); \
let body_ret = { let body = || { do_parse(input) }; body() }; \
nom_tracable::backward_trace(body_ret, \"parse\", depth) \
} }";
    assert_eq!(text, expected);
}

#[test]
fn renders_gated_blocks() {
    let rw = tracable_parser(&parse_spec(), None).unwrap();
    assert_eq!(
        render_block(&rw.blocks[0]),
        "#[cfg(not(feature = \"trace\"))] { do_parse(input) } "
    );
    assert!(render_block(&rw.blocks[1]).starts_with("#[cfg(feature = \"trace\")] { "));
}

#[test]
fn renders_multiple_parameters() {
    let params = vec![
        Param { pat: "input".to_string(), ty: "Span".to_string() },
        Param { pat: "limit".to_string(), ty: "usize".to_string() },
        Param { pat: "strict".to_string(), ty: "bool".to_string() },
    ];
    assert_eq!(render_params(&params), "input: Span, limit: usize, strict: bool");
}

#[test]
fn renders_empty_parameter_list_and_statements() {
    assert_eq!(render_params(&vec![]), "");
    assert_eq!(render_joined(&vec![]), "");
}

#[test]
fn renders_statement_list_in_order() {
    let stmts = vec!["first();".to_string(), "second();".to_string(), "third()".to_string()];
    assert_eq!(render_joined(&stmts), "first(); second(); third() ");
}
