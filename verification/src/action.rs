use crate::compile::{exprs_of, instrs_of, Compile, CompileError, Expr, Instruction};
use crate::record::{
    CodeAction, EXEC_FUNCTION, EXEC_NONE, KIND_BEGIN_GROUP, KIND_CODE, KIND_ELSE, KIND_END_GROUP,
};
use crate::registry::{lookup_spec, Registry};
use vstd::prelude::*;

verus! {

/// A drag-and-drop action node: one entry of the reconstructed tree.
#[derive(Debug)]
pub struct Action {
    /// The original index of this action in its flat list, starting at 0.
    pub index: usize,

    /// The target id. May be self (-1) or other (-2) or an object/instance id.
    /// `None` means the record's `applies_to_something` was false.
    pub target: Option<i32>,

    /// The compiled arguments to be passed to the operation or code body.
    pub args: Vec<Expr>,

    /// Whether the "relative" checkbox was used. Always forwarded to the
    /// execution context, though usually ignored there.
    pub relative: bool,

    /// If this action is a question, the boolean result is to be inverted.
    pub invert_condition: bool,

    /// The body of this action.
    pub body: Body,

    /// The then- and else-subtrees under this action, present exactly when the
    /// source record was a question.
    pub if_else: Option<(Vec<Action>, Vec<Action>)>,
}

/// The executable body of an action.
#[derive(Debug)]
pub enum Body {
    /// A built-in operation, as a handle into the registry it was resolved in.
    Function(usize),

    /// A compiled instruction sequence.
    Code(Vec<Instruction>),
}

/// An ordered forest of top-level actions, immutable after construction.
#[derive(Debug)]
pub struct Tree(pub Vec<Action>);

/// Why a build was aborted. A build either fully succeeds or fully fails: no
/// partial tree is ever returned.
#[derive(Debug)]
pub enum BuildError {
    /// A record named a built-in operation absent from the registry, at this
    /// position of its list.
    UnknownOperation { name: String, index: usize },

    /// The compiler rejected a parameter of the record at this position.
    ExpressionCompile { error: CompileError, index: usize },

    /// The compiler rejected the code body of the record at this position.
    CodeCompile { error: CompileError, index: usize },
}

/// The mathematical content of an [`Action`].
#[verifier::ext_equal]
pub struct ActionModel {
    pub index: int,
    pub target: Option<int>,
    pub args: Seq<Seq<char>>,
    pub relative: bool,
    pub invert_condition: bool,
    pub body: BodyModel,
    pub if_else: Option<(Seq<ActionModel>, Seq<ActionModel>)>,
}

/// The mathematical content of a [`Body`].
#[verifier::ext_equal]
pub enum BodyModel {
    Function(int),
    Code(Seq<Seq<char>>),
}

/// The mathematical content of a [`BuildError`].
pub enum BuildErrorModel {
    UnknownOperation { name: Seq<char>, index: int },
    ExpressionCompile { message: Seq<char>, index: int },
    CodeCompile { message: Seq<char>, index: int },
}

impl Body {
    /// The mathematical content of this body.
    pub open spec fn model(self) -> BodyModel {
        match self {
            Body::Function(h) => BodyModel::Function(h as int),
            Body::Code(v) => BodyModel::Code(instrs_of(v@)),
        }
    }
}

impl Action {
    /// The mathematical content of this node, subtrees included.
    pub open spec fn model(self) -> ActionModel
        decreases self,
    {
        ActionModel {
            index: self.index as int,
            target: match self.target {
                Some(t) => Some(t as int),
                None => None,
            },
            args: exprs_of(self.args@),
            relative: self.relative,
            invert_condition: self.invert_condition,
            body: self.body.model(),
            if_else: match self.if_else {
                Some(branches) => Some(
                    (models_of(branches.0@), models_of(branches.1@)),
                ),
                None => None,
            },
        }
    }
}

/// The mathematical content of a sequence of nodes, in order.
pub open spec fn models_of(s: Seq<Action>) -> Seq<ActionModel>
    decreases s,
{
    if s.len() == 0 {
        Seq::<ActionModel>::empty()
    } else {
        seq![s[0].model()] + models_of(s.drop_first())
    }
}

impl BuildError {
    /// The mathematical content of this error.
    pub open spec fn model(self) -> BuildErrorModel {
        match self {
            BuildError::UnknownOperation { name, index } => BuildErrorModel::UnknownOperation {
                name: name@,
                index: index as int,
            },
            BuildError::ExpressionCompile { error, index } => BuildErrorModel::ExpressionCompile {
                message: error@,
                index: index as int,
            },
            BuildError::CodeCompile { error, index } => BuildErrorModel::CodeCompile {
                message: error@,
                index: index as int,
            },
        }
    }
}

/// The target a record resolves to: absent when the record applies to
/// nothing, the record's target id otherwise.
pub open spec fn target_model(rec: CodeAction) -> Option<int> {
    if rec.applies_to_something {
        Some(rec.applies_to as int)
    } else {
        None
    }
}

/// Compiling parameters `i..n` of `params` as expressions, in order: the
/// payloads of the compiled expressions, or the diagnostic of the first
/// parameter the compiler rejects.
pub open spec fn compile_args_from<C: Compile>(
    c: C,
    params: Seq<Seq<char>>,
    n: int,
    i: int,
) -> Result<Seq<Seq<char>>, Seq<char>>
    decreases n - i,
{
    if i < 0 || i >= n {
        Ok(Seq::<Seq<char>>::empty())
    } else if c.expr_ok(params[i]) {
        match compile_args_from(c, params, n, i + 1) {
            Ok(rest) => Ok(seq![c.expr_value(params[i])] + rest),
            Err(m) => Err(m),
        }
    } else {
        Err(c.expr_err(params[i]))
    }
}

/// The compiled arguments of a record: its first `arg_count` parameters.
pub open spec fn args_model<C: Compile>(c: C, rec: CodeAction) -> Result<Seq<Seq<char>>, Seq<char>> {
    compile_args_from(c, rec.params(), rec.arg_count(), 0)
}

/// What one record contributes to the output, given the subtrees already
/// parsed for it: no node when its execution type is `EXEC_NONE`; a resolved
/// built-in call when it is `EXEC_FUNCTION`; otherwise a compiled code body,
/// read from the first parameter alone for records of kind `KIND_CODE` and
/// from `fn_code` for every other kind. Or the error that aborts the build.
pub open spec fn emit_model<C: Compile>(
    c: C,
    names: Seq<Seq<char>>,
    rec: CodeAction,
    index: int,
    branches: Option<(Seq<ActionModel>, Seq<ActionModel>)>,
) -> Result<Option<ActionModel>, BuildErrorModel> {
    if rec.execution_type == EXEC_NONE {
        Ok(None)
    } else if rec.execution_type == EXEC_FUNCTION {
        match lookup_spec(names, rec.fn_name@) {
            None => Err(BuildErrorModel::UnknownOperation { name: rec.fn_name@, index }),
            Some(h) => match args_model(c, rec) {
                Err(m) => Err(BuildErrorModel::ExpressionCompile { message: m, index }),
                Ok(args) => Ok(
                    Some(
                        ActionModel {
                            index,
                            target: target_model(rec),
                            args,
                            relative: rec.is_relative,
                            invert_condition: rec.invert_condition,
                            body: BodyModel::Function(h),
                            if_else: branches,
                        },
                    ),
                ),
            },
        }
    } else if rec.action_kind == KIND_CODE {
        if c.code_ok(rec.inline_source()) {
            Ok(
                Some(
                    ActionModel {
                        index,
                        target: target_model(rec),
                        args: Seq::<Seq<char>>::empty(),
                        relative: rec.is_relative,
                        invert_condition: rec.invert_condition,
                        body: BodyModel::Code(c.code_value(rec.inline_source())),
                        if_else: branches,
                    },
                ),
            )
        } else {
            Err(BuildErrorModel::CodeCompile { message: c.code_err(rec.inline_source()), index })
        }
    } else {
        match args_model(c, rec) {
            Err(m) => Err(BuildErrorModel::ExpressionCompile { message: m, index }),
            Ok(args) => if c.code_ok(rec.fn_code@) {
                Ok(
                    Some(
                        ActionModel {
                            index,
                            target: target_model(rec),
                            args,
                            relative: rec.is_relative,
                            invert_condition: rec.invert_condition,
                            body: BodyModel::Code(c.code_value(rec.fn_code@)),
                            if_else: branches,
                        },
                    ),
                )
            } else {
                Err(BuildErrorModel::CodeCompile { message: c.code_err(rec.fn_code@), index })
            },
        }
    }
}

/// Keeps a cursor inside the window `lo..=n`. The parser's cursor always lands
/// there on its own, so every use below is the identity; clamping only makes
/// the recursion measure evident.
pub open spec fn clamp_pos(p: int, lo: int, n: int) -> int {
    if p < lo {
        lo
    } else if p > n {
        n
    } else {
        p
    }
}

/// Parsing one structural scope starting at `pos`. With `single` false the
/// scope is the rest of the sequence; with `single` true it is exactly one
/// group: a whole `KIND_BEGIN_GROUP`…`KIND_END_GROUP` block when the first
/// record opens a group, and exactly one record (with the subtrees it
/// consumes) otherwise. Returns the nodes of the scope and the position of the
/// first unconsumed record.
pub open spec fn parse_group<C: Compile>(
    c: C,
    names: Seq<Seq<char>>,
    records: Seq<CodeAction>,
    pos: int,
    single: bool,
) -> Result<(Seq<ActionModel>, int), BuildErrorModel>
    decreases records.len() - pos, 1int,
{
    let stop = if pos < records.len() && records[pos].action_kind == KIND_BEGIN_GROUP {
        false
    } else {
        single
    };
    parse_run(c, names, records, pos, single, stop)
}

/// The record-reading pass shared by every scope: reads the record at `pos`,
/// parses a then-subtree (and, after a `KIND_ELSE` record, an else-subtree)
/// for a question before emitting it, and goes on with the records that
/// follow, until the end of input, until it has processed a `KIND_END_GROUP`
/// record while parsing a group, or — with `stop` set — after its first
/// record.
pub open spec fn parse_run<C: Compile>(
    c: C,
    names: Seq<Seq<char>>,
    records: Seq<CodeAction>,
    pos: int,
    single: bool,
    stop: bool,
) -> Result<(Seq<ActionModel>, int), BuildErrorModel>
    decreases records.len() - pos, 0int,
{
    if pos >= records.len() {
        Ok((Seq::<ActionModel>::empty(), pos))
    } else {
        let rec = records[pos];
        let branched = if rec.is_condition {
            match parse_group(c, names, records, pos + 1, true) {
                Err(e) => Err(e),
                Ok((then_nodes, p_raw)) => {
                    let p: int = clamp_pos(p_raw, pos + 1, records.len() as int);
                    if p < records.len() && records[p].action_kind == KIND_ELSE {
                        match parse_group(c, names, records, p + 1, true) {
                            Err(e) => Err(e),
                            Ok((else_nodes, q_raw)) => Ok(
                                (
                                    Some((then_nodes, else_nodes)),
                                    clamp_pos(q_raw, p + 1, records.len() as int),
                                ),
                            ),
                        }
                    } else {
                        Ok((Some((then_nodes, Seq::<ActionModel>::empty())), p))
                    }
                },
            }
        } else {
            Ok((None::<(Seq<ActionModel>, Seq<ActionModel>)>, pos + 1))
        };
        match branched {
            Err(e) => Err(e),
            Ok((branches, next)) => match emit_model(c, names, rec, pos, branches) {
                Err(e) => Err(e),
                Ok(emitted) => {
                    let out = match emitted {
                        Some(n) => seq![n],
                        None => Seq::<ActionModel>::empty(),
                    };
                    if (single && rec.action_kind == KIND_END_GROUP) || stop {
                        Ok((out, next))
                    } else {
                        match parse_run(
                            c,
                            names,
                            records,
                            clamp_pos(next, pos + 1, records.len() as int),
                            single,
                            stop,
                        ) {
                            Err(e) => Err(e),
                            Ok((rest, fin)) => Ok((out + rest, fin)),
                        }
                    }
                },
            },
        }
    }
}

/// What building a whole record list returns: the forest of its top-level
/// nodes, or the first error of the traversal.
pub open spec fn build_model<C: Compile>(
    c: C,
    names: Seq<Seq<char>>,
    records: Seq<CodeAction>,
) -> Result<Seq<ActionModel>, BuildErrorModel> {
    match parse_group(c, names, records, 0, false) {
        Ok((nodes, p)) => Ok(nodes),
        Err(e) => Err(e),
    }
}

/// The mathematical content of a pair of subtree lists.
pub open spec fn branch_models(b: Option<(Vec<Action>, Vec<Action>)>) -> Option<
    (Seq<ActionModel>, Seq<ActionModel>),
> {
    match b {
        Some(branches) => Some((models_of(branches.0@), models_of(branches.1@))),
        None => None,
    }
}

/// `models_of` keeps the length.
pub proof fn lemma_models_of_len(s: Seq<Action>)
    ensures
        models_of(s).len() == s.len(),
    decreases s.len(),
{
    if s.len() > 0 {
        lemma_models_of_len(s.drop_first());
    }
}

/// `models_of` is the per-node model, position by position.
pub proof fn lemma_models_of_index(s: Seq<Action>, k: int)
    requires
        0 <= k < s.len(),
    ensures
        models_of(s).len() == s.len(),
        models_of(s)[k] == s[k].model(),
    decreases s.len(),
{
    lemma_models_of_len(s);
    if k > 0 {
        lemma_models_of_index(s.drop_first(), k - 1);
    }
}

/// `models_of` distributes over `push`.
pub proof fn lemma_models_of_push(s: Seq<Action>, a: Action)
    ensures
        models_of(s.push(a)) == models_of(s).push(a.model()),
    decreases s.len(),
{
    if s.len() == 0 {
        assert(s.push(a)[0] == a);
        assert(s.push(a).drop_first() =~= Seq::<Action>::empty());
        assert(models_of(s.push(a)) == seq![a.model()] + models_of(Seq::<Action>::empty()));
        assert(models_of(s.push(a)) =~= models_of(s).push(a.model()));
    } else {
        assert(s.push(a)[0] == s[0]);
        assert(s.push(a).drop_first() =~= s.drop_first().push(a));
        lemma_models_of_push(s.drop_first(), a);
        assert(models_of(s.push(a)) == seq![s[0].model()] + models_of(s.drop_first()).push(
            a.model(),
        ));
        assert(models_of(s) == seq![s[0].model()] + models_of(s.drop_first()));
        assert(models_of(s.push(a)) =~= models_of(s).push(a.model()));
    }
}

/// The target an action applies to: `None` when the record applies to
/// nothing, the record's target id otherwise.
fn target_of(rec: &CodeAction) -> (t: Option<i32>)
    ensures
        match (t, target_model(*rec)) {
            (Some(a), Some(b)) => a as int == b,
            (None, None) => true,
            _ => false,
        },
{
    if rec.applies_to_something {
        Some(rec.applies_to)
    } else {
        None
    }
}

/// Compiles the first `arg_count` parameters of a record as expressions, in
/// order, stopping at the first one the compiler rejects.
fn compile_params<C: Compile>(rec: &CodeAction, index: usize, compiler: &C) -> (r: Result<
    Vec<Expr>,
    BuildError,
>)
    ensures
        match (r, args_model(*compiler, *rec)) {
            (Ok(v), Ok(m)) => exprs_of(v@) == m,
            (Err(e), Err(msg)) => e.model() == (BuildErrorModel::ExpressionCompile {
                message: msg,
                index: index as int,
            }),
            _ => false,
        },
{
    let ghost c = *compiler;
    let n: usize = if rec.param_count <= rec.param_strings.len() {
        rec.param_count
    } else {
        rec.param_strings.len()
    };
    proof {
        assert(n as int == rec.arg_count());
    }
    let mut v: Vec<Expr> = Vec::new();
    proof {
        assert(exprs_of(v@) =~= Seq::<Seq<char>>::empty());
        match compile_args_from(c, rec.params(), rec.arg_count(), 0) {
            Ok(rest) => {
                assert(exprs_of(v@) + rest =~= rest);
            },
            Err(m) => {},
        }
    }
    for i in 0..n
        invariant
            n as int == rec.arg_count(),
            n <= rec.param_strings@.len(),
            c == *compiler,
            args_model(c, *rec) == match compile_args_from(c, rec.params(), rec.arg_count(), i as int) {
                Ok(rest) => Ok::<Seq<Seq<char>>, Seq<char>>(exprs_of(v@) + rest),
                Err(m) => Err::<Seq<Seq<char>>, Seq<char>>(m),
            },
    {
        proof {
            assert(rec.param_strings@[i as int]@ == rec.params()[i as int]);
        }
        match compiler.compile_expression(&rec.param_strings[i]) {
            Ok(e) => {
                proof {
                    let ghost old_models = exprs_of(v@);
                    assert(exprs_of(v@.push(e)) =~= old_models.push(e@));
                    match compile_args_from(c, rec.params(), rec.arg_count(), i + 1) {
                        Ok(rest) => {
                            assert(old_models + (seq![e@] + rest) =~= old_models.push(e@) + rest);
                        },
                        Err(m) => {},
                    }
                }
                v.push(e);
            },
            Err(e) => {
                return Err(BuildError::ExpressionCompile { error: e, index });
            },
        }
    }
    proof {
        assert(exprs_of(v@) + Seq::<Seq<char>>::empty() =~= exprs_of(v@));
    }
    Ok(v)
}

/// Builds the node one record contributes, given the subtrees already parsed
/// for it — or nothing for a record whose execution type is `EXEC_NONE`, or
/// the error that aborts the build.
fn emit_action<C: Compile>(
    rec: &CodeAction,
    index: usize,
    if_else: Option<(Vec<Action>, Vec<Action>)>,
    registry: &Registry,
    compiler: &C,
) -> (r: Result<Option<Action>, BuildError>)
    ensures
        match (r, emit_model(*compiler, registry@, *rec, index as int, branch_models(if_else))) {
            (Ok(Some(a)), Ok(Some(m))) => a.model() == m,
            (Ok(None), Ok(None)) => true,
            (Err(e), Err(me)) => e.model() == me,
            _ => false,
        },
{
    if rec.execution_type == EXEC_NONE {
        Ok(None)
    } else if rec.execution_type == EXEC_FUNCTION {
        match registry.lookup(&rec.fn_name) {
            None => Err(BuildError::UnknownOperation { name: rec.fn_name.clone(), index }),
            Some(h) => match compile_params(rec, index, compiler) {
                Err(e) => Err(e),
                Ok(args) => Ok(
                    Some(
                        Action {
                            index,
                            target: target_of(rec),
                            args,
                            relative: rec.is_relative,
                            invert_condition: rec.invert_condition,
                            body: Body::Function(h),
                            if_else,
                        },
                    ),
                ),
            },
        }
    } else if rec.action_kind == KIND_CODE {
        let empty_source = String::new();
        let source: &String = if rec.param_strings.len() > 0 {
            &rec.param_strings[0]
        } else {
            &empty_source
        };
        proof {
            assert(source@ == rec.inline_source());
        }
        match compiler.compile(source) {
            Err(e) => Err(BuildError::CodeCompile { error: e, index }),
            Ok(instrs) => Ok(
                Some(
                    Action {
                        index,
                        target: target_of(rec),
                        args: Vec::new(),
                        relative: rec.is_relative,
                        invert_condition: rec.invert_condition,
                        body: Body::Code(instrs),
                        if_else,
                    },
                ),
            ),
        }
    } else {
        match compile_params(rec, index, compiler) {
            Err(e) => Err(e),
            Ok(args) => match compiler.compile(&rec.fn_code) {
                Err(e) => Err(BuildError::CodeCompile { error: e, index }),
                Ok(instrs) => Ok(
                    Some(
                        Action {
                            index,
                            target: target_of(rec),
                            args,
                            relative: rec.is_relative,
                            invert_condition: rec.invert_condition,
                            body: Body::Code(instrs),
                            if_else,
                        },
                    ),
                ),
            },
        }
    }
}

impl Tree {
    /// Turns a flat list of records into an action tree, resolving built-in
    /// operations in `registry` and compiling arguments and code bodies with
    /// `compiler`. Returns exactly the forest `build_model` describes, or the
    /// first error of the traversal; no partial tree is ever returned.
    pub fn from_list<C: Compile>(
        list: &Vec<CodeAction>,
        registry: &Registry,
        compiler: &C,
    ) -> (r: Result<Tree, BuildError>)
        ensures
            match (r, build_model(*compiler, registry@, list@)) {
                (Ok(t), Ok(m)) => models_of(t.0@) == m && t.0@.len() == m.len() && (forall|k: int|
                    0 <= k < m.len() ==> t.0@[k].model() == m[k]),
                (Err(e), Err(me)) => e.model() == me,
                _ => false,
            },
    {
        match Self::build_group(list, 0, false, registry, compiler) {
            Ok(run) => {
                proof {
                    lemma_models_of_len(run.0@);
                    assert forall|k: int| 0 <= k < run.0@.len() implies models_of(run.0@)[k]
                        == run.0@[k].model() by {
                        lemma_models_of_index(run.0@, k);
                    }
                }
                Ok(Tree(run.0))
            },
            Err(e) => Err(e),
        }
    }

    /// Parses one structural scope starting at `pos`, as `parse_group` says.
    fn build_group<C: Compile>(
        list: &Vec<CodeAction>,
        pos: usize,
        single: bool,
        registry: &Registry,
        compiler: &C,
    ) -> (r: Result<(Vec<Action>, usize), BuildError>)
        requires
            pos <= list@.len(),
        ensures
            match (r, parse_group(*compiler, registry@, list@, pos as int, single)) {
                (Ok(run), Ok(m)) => models_of(run.0@) == m.0 && run.1 as int == m.1 && pos <= run.1
                    <= list@.len(),
                (Err(e), Err(me)) => e.model() == me,
                _ => false,
            },
        decreases list@.len() - pos,
    {
        let ghost c = *compiler;
        let ghost names = registry@;
        let ghost s = list@;

        let stop = if pos < list.len() && list[pos].action_kind == KIND_BEGIN_GROUP {
            false
        } else {
            single
        };
        proof {
            assert(parse_group(c, names, s, pos as int, single) == parse_run(
                c,
                names,
                s,
                pos as int,
                single,
                stop,
            ));
        }

        let mut out: Vec<Action> = Vec::new();
        let mut cur: usize = pos;
        proof {
            assert(models_of(out@) =~= Seq::<ActionModel>::empty());
        }
        loop
            invariant_except_break
                pos <= cur <= s.len(),
                s == list@,
                c == *compiler,
                names == registry@,
                parse_group(c, names, s, pos as int, single) == parse_run(
                    c,
                    names,
                    s,
                    pos as int,
                    single,
                    stop,
                ),
                parse_run(c, names, s, pos as int, single, stop) == match parse_run(
                    c,
                    names,
                    s,
                    cur as int,
                    single,
                    stop,
                ) {
                    Ok(run) => Ok::<(Seq<ActionModel>, int), BuildErrorModel>(
                        (models_of(out@) + run.0, run.1),
                    ),
                    Err(e) => Err::<(Seq<ActionModel>, int), BuildErrorModel>(e),
                },
            ensures
                pos <= cur <= s.len(),
                parse_run(c, names, s, pos as int, single, stop) == Ok::<
                    (Seq<ActionModel>, int),
                    BuildErrorModel,
                >((models_of(out@), cur as int)),
            decreases s.len() - cur,
        {
            if cur >= list.len() {
                proof {
                    assert(parse_run(c, names, s, cur as int, single, stop) == Ok::<
                        (Seq<ActionModel>, int),
                        BuildErrorModel,
                    >((Seq::<ActionModel>::empty(), cur as int)));
                    assert(models_of(out@) + Seq::<ActionModel>::empty() =~= models_of(out@));
                }
                break;
            }
            let ghost cur0 = cur as int;
            let ghost out0 = out@;
            let rec = &list[cur];
            let is_condition = rec.is_condition;
            let is_end = rec.action_kind == KIND_END_GROUP;

            let if_else: Option<(Vec<Action>, Vec<Action>)>;
            let next: usize;
            if is_condition {
                match Self::build_group(list, cur + 1, true, registry, compiler) {
                    Err(e) => {
                        proof {
                            assert(parse_run(c, names, s, cur0, single, stop) == Err::<
                                (Seq<ActionModel>, int),
                                BuildErrorModel,
                            >(e.model()));
                        }
                        return Err(e);
                    },
                    Ok(then_run) => {
                        let (then_vec, p) = then_run;
                        proof {
                            assert(clamp_pos(p as int, cur0 + 1, s.len() as int) == p as int);
                        }
                        if p < list.len() && list[p].action_kind == KIND_ELSE {
                            match Self::build_group(list, p + 1, true, registry, compiler) {
                                Err(e) => {
                                    proof {
                                        assert(parse_run(c, names, s, cur0, single, stop) == Err::<
                                            (Seq<ActionModel>, int),
                                            BuildErrorModel,
                                        >(e.model()));
                                    }
                                    return Err(e);
                                },
                                Ok(else_run) => {
                                    let (else_vec, q) = else_run;
                                    proof {
                                        assert(clamp_pos(q as int, p as int + 1, s.len() as int)
                                            == q as int);
                                    }
                                    if_else = Some((then_vec, else_vec));
                                    next = q;
                                },
                            }
                        } else {
                            if_else = Some((then_vec, Vec::new()));
                            next = p;
                        }
                    },
                }
            } else {
                if_else = None;
                next = cur + 1;
            }
            let ghost bm = branch_models(if_else);
            let ghost m0 = models_of(out0);

            match emit_action(rec, cur, if_else, registry, compiler) {
                Err(e) => {
                    proof {
                        assert(parse_run(c, names, s, cur0, single, stop) == Err::<
                            (Seq<ActionModel>, int),
                            BuildErrorModel,
                        >(e.model()));
                    }
                    return Err(e);
                },
                Ok(Some(node)) => {
                    proof {
                        lemma_models_of_push(out@, node);
                    }
                    out.push(node);
                },
                Ok(None) => {},
            }
            proof {
                let step = match emit_model(c, names, s[cur0], cur0, bm) {
                    Ok(Some(m)) => seq![m],
                    _ => Seq::<ActionModel>::empty(),
                };
                assert(models_of(out@) =~= m0 + step);
                assert(parse_run(c, names, s, cur0, single, stop) == (if (single
                    && s[cur0].action_kind == KIND_END_GROUP) || stop {
                    Ok::<(Seq<ActionModel>, int), BuildErrorModel>((step, next as int))
                } else {
                    match parse_run(c, names, s, next as int, single, stop) {
                        Ok(run) => Ok::<(Seq<ActionModel>, int), BuildErrorModel>(
                            (step + run.0, run.1),
                        ),
                        Err(e) => Err::<(Seq<ActionModel>, int), BuildErrorModel>(e),
                    }
                }));
                if !((single && s[cur0].action_kind == KIND_END_GROUP) || stop) {
                    match parse_run(c, names, s, next as int, single, stop) {
                        Ok(run) => {
                            assert(m0 + (step + run.0) =~= (m0 + step) + run.0);
                        },
                        Err(e) => {},
                    }
                }
            }
            if (single && is_end) || stop {
                cur = next;
                break;
            }
            cur = next;
        }
        Ok((out, cur))
    }
}

} // verus!
