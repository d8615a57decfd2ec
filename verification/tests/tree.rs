use action_tree::action::{Action, Body, BuildError, Tree};
use action_tree::compile::TextCompiler;
use action_tree::record::{
    CodeAction, EXEC_CODE, EXEC_FUNCTION, EXEC_NONE, KIND_BEGIN_GROUP, KIND_CODE, KIND_ELSE,
    KIND_END_GROUP, KIND_NORMAL,
};
use action_tree::registry::Registry;

fn base_record() -> CodeAction {
    CodeAction {
        action_kind: KIND_NORMAL,
        execution_type: EXEC_NONE,
        is_condition: false,
        invert_condition: false,
        applies_to_something: false,
        applies_to: -1,
        is_relative: false,
        fn_name: String::new(),
        fn_code: String::new(),
        param_strings: Vec::new(),
        param_count: 0,
    }
}

fn marker(kind: u32) -> CodeAction {
    let mut r = base_record();
    r.action_kind = kind;
    r
}

fn code_record(source: &str) -> CodeAction {
    let mut r = base_record();
    r.action_kind = KIND_CODE;
    r.execution_type = EXEC_CODE;
    r.param_strings = vec![source.to_string()];
    r.param_count = 1;
    r
}

fn builtin_record(name: &str, params: &[&str]) -> CodeAction {
    let mut r = base_record();
    r.execution_type = EXEC_FUNCTION;
    r.fn_name = name.to_string();
    r.param_strings = params.iter().map(|p| p.to_string()).collect();
    r.param_count = params.len();
    r
}

fn registry() -> Registry {
    let mut reg = Registry::new();
    reg.register("move".to_string());
    reg.register("jump".to_string());
    reg
}

fn build(records: &Vec<CodeAction>) -> Result<Tree, BuildError> {
    let reg = registry();
    let compiler = TextCompiler { reject: '!' };
    Tree::from_list(records, &reg, &compiler)
}

fn code_body_texts(a: &Action) -> Vec<String> {
    match &a.body {
        Body::Code(instrs) => instrs.iter().map(|i| i.0.clone()).collect(),
        Body::Function(_) => panic!("expected a code body"),
    }
}

#[test]
fn round_trip_grouping() {
    let records = vec![
        marker(KIND_BEGIN_GROUP),
        code_record("a"),
        code_record("b"),
        code_record("c"),
        marker(KIND_END_GROUP),
    ];
    let tree = build(&records).unwrap();
    assert_eq!(tree.0.len(), 3);
    for (k, node) in tree.0.iter().enumerate() {
        assert_eq!(node.index, k + 1);
        assert!(node.if_else.is_none());
    }
    assert_eq!(code_body_texts(&tree.0[0]), vec!["a".to_string()]);
    assert_eq!(code_body_texts(&tree.0[1]), vec!["b".to_string()]);
    assert_eq!(code_body_texts(&tree.0[2]), vec!["c".to_string()]);
}

#[test]
fn single_statement_conditional() {
    let mut cond = builtin_record("move", &[]);
    cond.is_condition = true;
    let records = vec![cond, code_record("x")];
    let tree = build(&records).unwrap();
    assert_eq!(tree.0.len(), 1);
    let node = &tree.0[0];
    assert_eq!(node.index, 0);
    match &node.body {
        Body::Function(h) => assert_eq!(*h, 0),
        Body::Code(_) => panic!("expected a builtin body"),
    }
    let (then_branch, else_branch) = node.if_else.as_ref().unwrap();
    assert_eq!(then_branch.len(), 1);
    assert_eq!(then_branch[0].index, 1);
    assert!(else_branch.is_empty());
}

#[test]
fn group_conditional_with_else() {
    let mut cond = builtin_record("jump", &[]);
    cond.is_condition = true;
    let records = vec![
        cond,
        marker(KIND_BEGIN_GROUP),
        code_record("a"),
        code_record("b"),
        marker(KIND_END_GROUP),
        marker(KIND_ELSE),
        marker(KIND_BEGIN_GROUP),
        code_record("c"),
        marker(KIND_END_GROUP),
    ];
    let tree = build(&records).unwrap();
    assert_eq!(tree.0.len(), 1);
    let node = &tree.0[0];
    let (then_branch, else_branch) = node.if_else.as_ref().unwrap();
    assert_eq!(then_branch.len(), 2);
    assert_eq!(then_branch[0].index, 2);
    assert_eq!(then_branch[1].index, 3);
    assert_eq!(else_branch.len(), 1);
    assert_eq!(else_branch[0].index, 7);
}

#[test]
fn noop_record_contributes_nothing() {
    let mut noop = base_record();
    noop.applies_to_something = true;
    noop.applies_to = 12;
    noop.is_relative = true;
    noop.fn_code = "this is never read".to_string();
    noop.param_strings = vec!["junk!".to_string()];
    noop.param_count = 1;
    let tree = build(&vec![noop]).unwrap();
    assert!(tree.0.is_empty());
}

#[test]
fn noop_condition_still_consumes_its_statement() {
    let mut cond = base_record();
    cond.is_condition = true;
    let records = vec![cond, code_record("x")];
    let tree = build(&records).unwrap();
    assert!(tree.0.is_empty());
}

#[test]
fn inline_code_ignores_fn_code_and_later_parameters() {
    let mut r = code_record("ok");
    r.fn_code = "guaranteed invalid!".to_string();
    r.param_strings.push("also invalid!".to_string());
    r.param_count = 2;
    let tree = build(&vec![r]).unwrap();
    assert_eq!(tree.0.len(), 1);
    assert!(tree.0[0].args.is_empty());
    assert_eq!(code_body_texts(&tree.0[0]), vec!["ok".to_string()]);
}

#[test]
fn inline_code_without_parameter_compiles_empty_text() {
    let mut r = code_record("unused");
    r.param_strings = Vec::new();
    r.param_count = 0;
    let tree = build(&vec![r]).unwrap();
    assert_eq!(tree.0.len(), 1);
    assert_eq!(code_body_texts(&tree.0[0]), vec![String::new()]);
}

#[test]
fn unknown_operation_is_fatal_and_positional() {
    let records = vec![
        code_record("a"),
        code_record("b"),
        code_record("c"),
        builtin_record("teleport", &[]),
    ];
    match build(&records) {
        Err(BuildError::UnknownOperation { name, index }) => {
            assert_eq!(name, "teleport");
            assert_eq!(index, 3);
        },
        _ => panic!("expected an unknown-operation error"),
    }
}

#[test]
fn expression_compile_failure_is_fatal_and_positional() {
    let records = vec![code_record("a"), builtin_record("move", &["1", "oops!"])];
    match build(&records) {
        Err(BuildError::ExpressionCompile { error, index }) => {
            assert_eq!(error.message, "oops!");
            assert_eq!(index, 1);
        },
        _ => panic!("expected an expression-compile error"),
    }
}

#[test]
fn code_compile_failure_is_fatal_and_positional() {
    let mut r = base_record();
    r.execution_type = EXEC_CODE;
    r.fn_code = "broken!".to_string();
    match build(&vec![code_record("a"), r]) {
        Err(BuildError::CodeCompile { error, index }) => {
            assert_eq!(error.message, "broken!");
            assert_eq!(index, 1);
        },
        _ => panic!("expected a code-compile error"),
    }
}

#[test]
fn target_resolution() {
    let mut nothing = code_record("a");
    nothing.applies_to_something = false;
    nothing.applies_to = 99;
    let mut own = code_record("b");
    own.applies_to_something = true;
    own.applies_to = -1;
    let mut other = code_record("c");
    other.applies_to_something = true;
    other.applies_to = -2;
    let mut object = code_record("d");
    object.applies_to_something = true;
    object.applies_to = 7;
    let tree = build(&vec![nothing, own, other, object]).unwrap();
    assert_eq!(tree.0[0].target, None);
    assert_eq!(tree.0[1].target, Some(-1));
    assert_eq!(tree.0[2].target, Some(-2));
    assert_eq!(tree.0[3].target, Some(7));
}

#[test]
fn parameter_count_clips_recycled_slots() {
    let mut r = builtin_record("move", &["1", "2", "recycled garbage!"]);
    r.param_count = 2;
    let tree = build(&vec![r]).unwrap();
    assert_eq!(tree.0.len(), 1);
    let args: Vec<String> = tree.0[0].args.iter().map(|e| e.0.clone()).collect();
    assert_eq!(args, vec!["1".to_string(), "2".to_string()]);
}

#[test]
fn relative_and_invert_flags_are_forwarded() {
    let mut r = code_record("a");
    r.is_relative = true;
    r.invert_condition = true;
    let tree = build(&vec![r]).unwrap();
    assert!(tree.0[0].relative);
    assert!(tree.0[0].invert_condition);
    assert!(tree.0[0].if_else.is_none());
}

#[test]
fn unrecognized_execution_type_falls_through_to_code() {
    let mut r = base_record();
    r.execution_type = 9;
    r.fn_code = "z".to_string();
    let tree = build(&vec![r]).unwrap();
    assert_eq!(tree.0.len(), 1);
    assert_eq!(code_body_texts(&tree.0[0]), vec!["z".to_string()]);
}

#[test]
fn registry_resolves_first_registration() {
    let mut reg = Registry::new();
    reg.register("alpha".to_string());
    reg.register("beta".to_string());
    reg.register("alpha".to_string());
    assert_eq!(reg.lookup(&"alpha".to_string()), Some(0));
    assert_eq!(reg.lookup(&"beta".to_string()), Some(1));
    assert_eq!(reg.lookup(&"gamma".to_string()), None);
    assert_eq!(reg.len(), 3);
}

#[test]
fn else_branch_may_be_a_single_statement() {
    let mut cond = builtin_record("move", &[]);
    cond.is_condition = true;
    let records = vec![cond, code_record("yes"), marker(KIND_ELSE), code_record("no")];
    let tree = build(&records).unwrap();
    assert_eq!(tree.0.len(), 1);
    let (then_branch, else_branch) = tree.0[0].if_else.as_ref().unwrap();
    assert_eq!(then_branch.len(), 1);
    assert_eq!(then_branch[0].index, 1);
    assert_eq!(else_branch.len(), 1);
    assert_eq!(else_branch[0].index, 3);
}

#[test]
fn stray_end_group_at_top_level_is_an_ordinary_noop() {
    let records = vec![code_record("a"), marker(KIND_END_GROUP), code_record("b")];
    let tree = build(&records).unwrap();
    assert_eq!(tree.0.len(), 2);
    assert_eq!(tree.0[0].index, 0);
    assert_eq!(tree.0[1].index, 2);
}

#[test]
fn nested_conditionals_share_one_cursor() {
    let mut outer = builtin_record("move", &[]);
    outer.is_condition = true;
    let mut inner = builtin_record("jump", &[]);
    inner.is_condition = true;
    let records = vec![outer, inner, code_record("deep"), code_record("after")];
    let tree = build(&records).unwrap();
    assert_eq!(tree.0.len(), 2);
    let (outer_then, outer_else) = tree.0[0].if_else.as_ref().unwrap();
    assert_eq!(outer_then.len(), 1);
    assert!(outer_else.is_empty());
    let (inner_then, inner_else) = outer_then[0].if_else.as_ref().unwrap();
    assert_eq!(inner_then.len(), 1);
    assert_eq!(inner_then[0].index, 2);
    assert!(inner_else.is_empty());
    assert_eq!(tree.0[1].index, 3);
}
