use crate::action::{
    build_model, emit_model, parse_group, parse_run, target_model, ActionModel, BuildErrorModel,
};
use crate::compile::Compile;
use crate::record::{
    CodeAction, EXEC_FUNCTION, EXEC_NONE, KIND_BEGIN_GROUP, KIND_CODE, KIND_ELSE, KIND_END_GROUP,
};
use crate::registry::lookup_spec;
use vstd::prelude::*;

verus! {

/// A purely structural record: it carries the given marker kind, executes
/// nothing, and is not a question.
pub open spec fn is_marker(r: CodeAction, kind: u32) -> bool {
    &&& r.action_kind == kind
    &&& r.execution_type == EXEC_NONE
    &&& !r.is_condition
}

/// A record that stands on its own at position `j`: not a question, not a
/// group terminator, and one whose emission succeeds with a node.
pub open spec fn plain_record<C: Compile>(
    c: C,
    names: Seq<Seq<char>>,
    r: CodeAction,
    j: int,
) -> bool {
    &&& !r.is_condition
    &&& r.action_kind != KIND_END_GROUP
    &&& (emit_model(c, names, r, j, None) matches Ok(n) && n is Some)
}

/// The node the record at position `j` emits, when it emits one.
pub open spec fn node_at<C: Compile>(
    c: C,
    names: Seq<Seq<char>>,
    records: Seq<CodeAction>,
    j: int,
) -> ActionModel {
    match emit_model(c, names, records[j], j, None) {
        Ok(Some(n)) => n,
        _ => arbitrary(),
    }
}

/// The nodes the plain records at positions `a..b` emit, in order.
pub open spec fn plain_nodes<C: Compile>(
    c: C,
    names: Seq<Seq<char>>,
    records: Seq<CodeAction>,
    a: int,
    b: int,
) -> Seq<ActionModel>
    decreases b - a,
{
    if a < b {
        seq![node_at(c, names, records, a)] + plain_nodes(c, names, records, a + 1, b)
    } else {
        Seq::<ActionModel>::empty()
    }
}

/// `plain_nodes` holds one node per position, in source order.
pub proof fn lemma_plain_nodes_index<C: Compile>(
    c: C,
    names: Seq<Seq<char>>,
    records: Seq<CodeAction>,
    a: int,
    b: int,
)
    requires
        a <= b,
    ensures
        plain_nodes(c, names, records, a, b).len() == b - a,
        forall|k: int|
            0 <= k < b - a ==> plain_nodes(c, names, records, a, b)[k] == node_at(
                c,
                names,
                records,
                a + k,
            ),
    decreases b - a,
{
    if a < b {
        lemma_plain_nodes_index(c, names, records, a + 1, b);
    }
}

/// A run of plain records parses to their nodes followed by whatever the rest
/// of the scope parses to.
pub proof fn lemma_plain_run<C: Compile>(
    c: C,
    names: Seq<Seq<char>>,
    records: Seq<CodeAction>,
    a: int,
    b: int,
    single: bool,
)
    requires
        0 <= a <= b <= records.len(),
        forall|j: int| a <= j < b ==> plain_record(c, names, #[trigger] records[j], j),
    ensures
        parse_run(c, names, records, a, single, false) == match parse_run(
            c,
            names,
            records,
            b,
            single,
            false,
        ) {
            Ok(run) => Ok::<(Seq<ActionModel>, int), BuildErrorModel>(
                (plain_nodes(c, names, records, a, b) + run.0, run.1),
            ),
            Err(e) => Err::<(Seq<ActionModel>, int), BuildErrorModel>(e),
        },
    decreases b - a,
{
    if a == b {
        match parse_run(c, names, records, b, single, false) {
            Ok(run) => {
                assert(plain_nodes(c, names, records, a, b) + run.0 =~= run.0);
            },
            Err(e) => {},
        }
    } else {
        lemma_plain_run(c, names, records, a + 1, b, single);
        let n = node_at(c, names, records, a);
        assert(emit_model(c, names, records[a], a, None) == Ok::<
            Option<ActionModel>,
            BuildErrorModel,
        >(Some(n)));
        match parse_run(c, names, records, b, single, false) {
            Ok(run) => {
                assert(seq![n] + (plain_nodes(c, names, records, a + 1, b) + run.0) =~= plain_nodes(
                    c,
                    names,
                    records,
                    a,
                    b,
                ) + run.0);
            },
            Err(e) => {},
        }
    }
}

/// Parsing a single group: a `KIND_BEGIN_GROUP` marker, plain records, and the
/// matching `KIND_END_GROUP` marker yield exactly the inner records' nodes and
/// leave the cursor just past the group.
pub proof fn lemma_group_parse<C: Compile>(
    c: C,
    names: Seq<Seq<char>>,
    records: Seq<CodeAction>,
    a: int,
    b: int,
)
    requires
        0 <= a < b < records.len(),
        is_marker(records[a], KIND_BEGIN_GROUP),
        is_marker(records[b], KIND_END_GROUP),
        forall|j: int| a + 1 <= j < b ==> plain_record(c, names, #[trigger] records[j], j),
    ensures
        parse_group(c, names, records, a, true) == Ok::<(Seq<ActionModel>, int), BuildErrorModel>(
            (plain_nodes(c, names, records, a + 1, b), b + 1),
        ),
{
    lemma_plain_run(c, names, records, a + 1, b, true);
    assert(parse_run(c, names, records, b, true, false) == Ok::<
        (Seq<ActionModel>, int),
        BuildErrorModel,
    >((Seq::<ActionModel>::empty(), b + 1)));
    assert(plain_nodes(c, names, records, a + 1, b) + Seq::<ActionModel>::empty() =~= plain_nodes(
        c,
        names,
        records,
        a + 1,
        b,
    ));
    assert(Seq::<ActionModel>::empty() + plain_nodes(c, names, records, a + 1, b) =~= plain_nodes(
        c,
        names,
        records,
        a + 1,
        b,
    ));
}

/// Round-trip grouping: a flat list that is one group of plain records builds
/// to exactly the inner records' nodes, one per record, in source order, each
/// keeping its source position.
pub proof fn lemma_group_round_trip<C: Compile>(
    c: C,
    names: Seq<Seq<char>>,
    records: Seq<CodeAction>,
)
    requires
        records.len() >= 2,
        is_marker(records[0], KIND_BEGIN_GROUP),
        is_marker(records[records.len() - 1], KIND_END_GROUP),
        forall|j: int|
            1 <= j < records.len() - 1 ==> plain_record(c, names, #[trigger] records[j], j),
    ensures
        build_model(c, names, records) matches Ok(forest) && forest.len() == records.len() - 2 && (
        forall|k: int|
            0 <= k < records.len() - 2 ==> forest[k] == node_at(c, names, records, k + 1)),
{
    let b = records.len() - 1;
    lemma_plain_run(c, names, records, 1, b, false);
    assert(parse_run(c, names, records, records.len() as int, false, false) == Ok::<
        (Seq<ActionModel>, int),
        BuildErrorModel,
    >((Seq::<ActionModel>::empty(), records.len() as int)));
    let pn = plain_nodes(c, names, records, 1, b);
    assert(pn + Seq::<ActionModel>::empty() =~= pn);
    assert(parse_run(c, names, records, b, false, false) == Ok::<
        (Seq<ActionModel>, int),
        BuildErrorModel,
    >((Seq::<ActionModel>::empty(), records.len() as int)));
    assert(parse_run(c, names, records, 1, false, false) == Ok::<
        (Seq<ActionModel>, int),
        BuildErrorModel,
    >((pn, records.len() as int)));
    assert(Seq::<ActionModel>::empty() + pn =~= pn);
    assert(parse_run(c, names, records, 0, false, false) == Ok::<
        (Seq<ActionModel>, int),
        BuildErrorModel,
    >((pn, records.len() as int)));
    lemma_plain_nodes_index(c, names, records, 1, b);
}

/// Single-statement conditional: a question followed by one statement that is
/// not a group yields a then-branch of exactly that one node and an empty
/// else-branch when no `KIND_ELSE` record follows.
pub proof fn lemma_single_statement_conditional<C: Compile>(
    c: C,
    names: Seq<Seq<char>>,
    cond: CodeAction,
    stmt: CodeAction,
)
    requires
        cond.is_condition,
        !stmt.is_condition,
        stmt.action_kind != KIND_BEGIN_GROUP,
        emit_model(c, names, stmt, 1, None) matches Ok(n) && n is Some,
    ensures
        ({
            let records = seq![cond, stmt];
            let branches = Some((seq![node_at(c, names, records, 1)], Seq::<ActionModel>::empty()));
            build_model(c, names, records) == match emit_model(c, names, cond, 0, branches) {
                Ok(Some(n)) => Ok::<Seq<ActionModel>, BuildErrorModel>(seq![n]),
                Ok(None) => Ok::<Seq<ActionModel>, BuildErrorModel>(Seq::<ActionModel>::empty()),
                Err(e) => Err::<Seq<ActionModel>, BuildErrorModel>(e),
            }
        }),
{
    let records = seq![cond, stmt];
    let n1 = node_at(c, names, records, 1);
    assert(records[1] == stmt);
    assert(parse_run(c, names, records, 1, true, true) == Ok::<
        (Seq<ActionModel>, int),
        BuildErrorModel,
    >((seq![n1], 2)));
    assert(parse_group(c, names, records, 1, true) == Ok::<
        (Seq<ActionModel>, int),
        BuildErrorModel,
    >((seq![n1], 2)));
    let branches = Some((seq![n1], Seq::<ActionModel>::empty()));
    match emit_model(c, names, cond, 0, branches) {
        Ok(Some(n)) => {
            assert(parse_run(c, names, records, 2, false, false) == Ok::<
                (Seq<ActionModel>, int),
                BuildErrorModel,
            >((Seq::<ActionModel>::empty(), 2)));
            assert(seq![n] + Seq::<ActionModel>::empty() =~= seq![n]);
        },
        Ok(None) => {
            assert(Seq::<ActionModel>::empty() + Seq::<ActionModel>::empty() =~= Seq::<
                ActionModel,
            >::empty());
        },
        Err(e) => {},
    }
}

/// Group conditional with else: a question whose then-branch is a group of `k`
/// plain records and whose else-branch, after a `KIND_ELSE` marker, is a group
/// of `m` plain records yields branches of exactly `k` and `m` nodes.
pub proof fn lemma_group_conditional_with_else<C: Compile>(
    c: C,
    names: Seq<Seq<char>>,
    records: Seq<CodeAction>,
    k: int,
    m: int,
)
    requires
        k >= 0,
        m >= 0,
        records.len() == k + m + 6,
        records[0].is_condition,
        is_marker(records[1], KIND_BEGIN_GROUP),
        forall|j: int| 2 <= j < 2 + k ==> plain_record(c, names, #[trigger] records[j], j),
        is_marker(records[2 + k], KIND_END_GROUP),
        is_marker(records[3 + k], KIND_ELSE),
        is_marker(records[4 + k], KIND_BEGIN_GROUP),
        forall|j: int| 5 + k <= j < 5 + k + m ==> plain_record(c, names, #[trigger] records[j], j),
        is_marker(records[5 + k + m], KIND_END_GROUP),
    ensures
        ({
            let then_nodes = plain_nodes(c, names, records, 2, 2 + k);
            let else_nodes = plain_nodes(c, names, records, 5 + k, 5 + k + m);
            then_nodes.len() == k && else_nodes.len() == m && build_model(c, names, records)
                == match emit_model(c, names, records[0], 0, Some((then_nodes, else_nodes))) {
                Ok(Some(n)) => Ok::<Seq<ActionModel>, BuildErrorModel>(seq![n]),
                Ok(None) => Ok::<Seq<ActionModel>, BuildErrorModel>(Seq::<ActionModel>::empty()),
                Err(e) => Err::<Seq<ActionModel>, BuildErrorModel>(e),
            }
        }),
{
    let then_nodes = plain_nodes(c, names, records, 2, 2 + k);
    let else_nodes = plain_nodes(c, names, records, 5 + k, 5 + k + m);
    lemma_plain_nodes_index(c, names, records, 2, 2 + k);
    lemma_plain_nodes_index(c, names, records, 5 + k, 5 + k + m);
    lemma_group_parse(c, names, records, 1, 2 + k);
    lemma_group_parse(c, names, records, 4 + k, 5 + k + m);
    let branches = Some((then_nodes, else_nodes));
    match emit_model(c, names, records[0], 0, branches) {
        Ok(Some(n)) => {
            assert(parse_run(c, names, records, records.len() as int, false, false) == Ok::<
                (Seq<ActionModel>, int),
                BuildErrorModel,
            >((Seq::<ActionModel>::empty(), records.len() as int)));
            assert(seq![n] + Seq::<ActionModel>::empty() =~= seq![n]);
        },
        Ok(None) => {
            assert(Seq::<ActionModel>::empty() + Seq::<ActionModel>::empty() =~= Seq::<
                ActionModel,
            >::empty());
        },
        Err(e) => {},
    }
}

/// Dropped no-ops: a record whose execution type is `EXEC_NONE` contributes no
/// node, whatever its other fields hold.
pub proof fn lemma_dropped_noop<C: Compile>(
    c: C,
    names: Seq<Seq<char>>,
    r: CodeAction,
    index: int,
    branches: Option<(Seq<ActionModel>, Seq<ActionModel>)>,
)
    requires
        r.execution_type == EXEC_NONE,
    ensures
        emit_model(c, names, r, index, branches) == Ok::<Option<ActionModel>, BuildErrorModel>(
            None::<ActionModel>,
        ),
{
}

/// Dropped no-ops, at the build level: a list holding one such record, whatever
/// its other fields, builds to the empty forest.
pub proof fn lemma_noop_alone_builds_nothing<C: Compile>(
    c: C,
    names: Seq<Seq<char>>,
    r: CodeAction,
)
    requires
        r.execution_type == EXEC_NONE,
    ensures
        build_model(c, names, seq![r]) == Ok::<Seq<ActionModel>, BuildErrorModel>(
            Seq::<ActionModel>::empty(),
        ),
{
    let records = seq![r];
    assert(records[0] == r);
    assert(parse_run(c, names, records, 1, true, true) == Ok::<
        (Seq<ActionModel>, int),
        BuildErrorModel,
    >((Seq::<ActionModel>::empty(), 1)));
    assert(parse_group(c, names, records, 1, true) == Ok::<
        (Seq<ActionModel>, int),
        BuildErrorModel,
    >((Seq::<ActionModel>::empty(), 1)));
    assert(parse_run(c, names, records, 1, false, false) == Ok::<
        (Seq<ActionModel>, int),
        BuildErrorModel,
    >((Seq::<ActionModel>::empty(), 1)));
    assert(Seq::<ActionModel>::empty() + Seq::<ActionModel>::empty() =~= Seq::<
        ActionModel,
    >::empty());
}

/// Inline-code exclusivity: for a record of kind `KIND_CODE` on the code path,
/// what is emitted depends only on the first parameter and the structural
/// fields; `fn_code` and the later parameters are never read.
pub proof fn lemma_inline_code_reads_first_parameter<C: Compile>(
    c: C,
    names: Seq<Seq<char>>,
    r1: CodeAction,
    r2: CodeAction,
    index: int,
    branches: Option<(Seq<ActionModel>, Seq<ActionModel>)>,
)
    requires
        r1.action_kind == KIND_CODE,
        r2.action_kind == KIND_CODE,
        r1.execution_type == r2.execution_type,
        r1.execution_type != EXEC_NONE,
        r1.execution_type != EXEC_FUNCTION,
        r1.inline_source() == r2.inline_source(),
        r1.applies_to_something == r2.applies_to_something,
        r1.applies_to == r2.applies_to,
        r1.is_relative == r2.is_relative,
        r1.invert_condition == r2.invert_condition,
    ensures
        emit_model(c, names, r1, index, branches) == emit_model(c, names, r2, index, branches),
{
}

/// Target resolution: a record that applies to nothing yields no target; one
/// that applies to something yields its target id unchanged, self (-1) and
/// other (-2) included. Every emitted node carries that target.
pub proof fn lemma_target_resolution<C: Compile>(
    c: C,
    names: Seq<Seq<char>>,
    r: CodeAction,
    index: int,
    branches: Option<(Seq<ActionModel>, Seq<ActionModel>)>,
)
    ensures
        !r.applies_to_something ==> target_model(r) == None::<int>,
        r.applies_to_something ==> target_model(r) == Some(r.applies_to as int),
        emit_model(c, names, r, index, branches) matches Ok(Some(n)) ==> n.target == target_model(
            r,
        ),
{
}

/// Unknown operation is fatal and positional: a record of execution type
/// `EXEC_FUNCTION` whose name the registry does not know always emits the
/// error naming the operation and the record's own position.
pub proof fn lemma_unknown_operation_is_fatal<C: Compile>(
    c: C,
    names: Seq<Seq<char>>,
    r: CodeAction,
    index: int,
    branches: Option<(Seq<ActionModel>, Seq<ActionModel>)>,
)
    requires
        r.execution_type == EXEC_FUNCTION,
        lookup_spec(names, r.fn_name@) is None,
    ensures
        emit_model(c, names, r, index, branches) == Err::<Option<ActionModel>, BuildErrorModel>(
            BuildErrorModel::UnknownOperation { name: r.fn_name@, index },
        ),
{
}

} // verus!
