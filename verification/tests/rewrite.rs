use tracable_rewrite::ast::BlockBody;
use tracable_rewrite::ast::FunctionSpec;
use tracable_rewrite::ast::Gate;
use tracable_rewrite::ast::Param;
use tracable_rewrite::ast::TransformError;
use tracable_rewrite::rewrite::compiled_variant;
use tracable_rewrite::rewrite::resolve_identifier;
use tracable_rewrite::rewrite::tracable_parser;

fn parse_spec() -> FunctionSpec {
    FunctionSpec {
        name: "parse".to_string(),
        params: vec![Param { pat: "input".to_string(), ty: "Span".to_string() }],
        ret: "Result".to_string(),
        body: vec!["do_parse(input)".to_string()],
    }
}

#[test]
fn signature_is_preserved() {
    let item = FunctionSpec {
        name: "scan".to_string(),
        params: vec![
            Param { pat: "input".to_string(), ty: "Span".to_string() },
            Param { pat: "limit".to_string(), ty: "usize".to_string() },
        ],
        ret: "Output".to_string(),
        body: vec!["step_one();".to_string(), "step_two(input, limit)".to_string()],
    };
    let rw = tracable_parser(&item, None).unwrap();
    assert_eq!(rw.name, "scan");
    assert_eq!(rw.params.len(), 2);
    assert_eq!(rw.params[0].pat, "input");
    assert_eq!(rw.params[0].ty, "Span");
    assert_eq!(rw.params[1].pat, "limit");
    assert_eq!(rw.params[1].ty, "usize");
    assert_eq!(rw.ret, "Output");
}

#[test]
fn exactly_one_variant_per_build() {
    let rw = tracable_parser(&parse_spec(), None).unwrap();
    assert_eq!(rw.blocks.len(), 2);

    let off = compiled_variant(&rw, false);
    assert_eq!(off.gate, Gate::TraceOff);
    assert!(matches!(off.body, BlockBody::Plain(_)));

    let on = compiled_variant(&rw, true);
    assert_eq!(on.gate, Gate::TraceOn);
    assert!(matches!(on.body, BlockBody::Traced(_)));
}

#[test]
fn plain_variant_keeps_original_statements() {
    let item = FunctionSpec {
        name: "parse".to_string(),
        params: vec![Param { pat: "input".to_string(), ty: "Span".to_string() }],
        ret: "Result".to_string(),
        body: vec![
            "let checked = validate(input);".to_string(),
            "let parsed = inner(checked)?;".to_string(),
            "finish(parsed)".to_string(),
        ],
    };
    let rw = tracable_parser(&item, None).unwrap();
    match &rw.blocks[0].body {
        BlockBody::Plain(stmts) => {
            assert_eq!(
                stmts,
                &vec![
                    "let checked = validate(input);".to_string(),
                    "let parsed = inner(checked)?;".to_string(),
                    "finish(parsed)".to_string(),
                ]
            );
        }
        BlockBody::Traced(_) => panic!("plain variant expected first"),
    }
}

#[test]
fn label_defaults_to_function_name() {
    let rw = tracable_parser(&parse_spec(), None).unwrap();
    match &rw.blocks[1].body {
        BlockBody::Traced(t) => assert_eq!(t.label, "parse"),
        BlockBody::Plain(_) => panic!("traced variant expected second"),
    }
}

#[test]
fn explicit_label_is_used_verbatim() {
    let rw = tracable_parser(&parse_spec(), Some("custom".to_string())).unwrap();
    match &rw.blocks[1].body {
        BlockBody::Traced(t) => assert_eq!(t.label, "custom"),
        BlockBody::Plain(_) => panic!("traced variant expected second"),
    }
}

#[test]
fn resolve_identifier_matches_label_rule() {
    assert_eq!(resolve_identifier(&parse_spec(), None), "parse");
    assert_eq!(resolve_identifier(&parse_spec(), Some("custom".to_string())), "custom");
}

#[test]
fn traced_variant_threads_first_parameter() {
    let item = FunctionSpec {
        name: "scan".to_string(),
        params: vec![
            Param { pat: "stream".to_string(), ty: "Span".to_string() },
            Param { pat: "limit".to_string(), ty: "usize".to_string() },
        ],
        ret: "Result".to_string(),
        body: vec!["inner(stream, limit)".to_string()],
    };
    let rw = tracable_parser(&item, None).unwrap();
    match &rw.blocks[1].body {
        BlockBody::Traced(t) => {
            assert_eq!(t.first_pat, "stream");
            assert_eq!(t.original, vec!["inner(stream, limit)".to_string()]);
        }
        BlockBody::Plain(_) => panic!("traced variant expected second"),
    }
}

#[test]
fn empty_parameter_list_fails() {
    let item = FunctionSpec {
        name: "nullary".to_string(),
        params: vec![],
        ret: "Result".to_string(),
        body: vec!["produce()".to_string()],
    };
    let err = tracable_parser(&item, None).unwrap_err();
    assert_eq!(err, TransformError::MissingFirstParameter);
}

#[test]
fn empty_parameter_list_fails_with_explicit_label_too() {
    let item = FunctionSpec {
        name: "nullary".to_string(),
        params: vec![],
        ret: "Result".to_string(),
        body: vec![],
    };
    let err = tracable_parser(&item, Some("custom".to_string())).unwrap_err();
    assert_eq!(err, TransformError::MissingFirstParameter);
}

#[test]
fn error_messages_are_descriptive() {
    assert_eq!(
        TransformError::MissingFirstParameter.message(),
        "function annotated for tracing must declare a first argument"
    );
    assert_eq!(
        TransformError::MalformedInput.message(),
        "annotated item is not a function with a literal label"
    );
}
