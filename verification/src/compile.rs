use vstd::prelude::*;
use vstd::string::StrSliceExecFns;

verus! {

/// A compiled expression. The payload is whatever the compiler produced for
/// the source text; the builder never looks inside it.
#[derive(Debug)]
pub struct Expr(pub String);

impl View for Expr {
    type V = Seq<char>;

    open spec fn view(&self) -> Seq<char> {
        self.0@
    }
}

/// One compiled instruction. A code body compiles to an ordered sequence of
/// these; the builder never looks inside them.
#[derive(Debug)]
pub struct Instruction(pub String);

impl View for Instruction {
    type V = Seq<char>;

    open spec fn view(&self) -> Seq<char> {
        self.0@
    }
}

/// A diagnostic from the compiler, preserved verbatim by the builder.
#[derive(Debug)]
pub struct CompileError {
    pub message: String,
}

impl View for CompileError {
    type V = Seq<char>;

    open spec fn view(&self) -> Seq<char> {
        self.message@
    }
}

/// The payloads of a sequence of compiled expressions.
pub open spec fn exprs_of(s: Seq<Expr>) -> Seq<Seq<char>> {
    s.map(|i: int, e: Expr| e@)
}

/// The payloads of a sequence of compiled instructions.
pub open spec fn instrs_of(s: Seq<Instruction>) -> Seq<Seq<char>> {
    s.map(|i: int, x: Instruction| x@)
}

/// The expression/statement compiler the builder consumes. It is opaque,
/// deterministic, and free of side effects on shared state: which sources
/// compile, and to what, is a function of the source text alone, fixed by the
/// four specification functions below.
pub trait Compile {
    /// Whether `source` compiles as a single expression.
    spec fn expr_ok(&self, source: Seq<char>) -> bool;

    /// The payload of the expression `source` compiles to, when it compiles.
    spec fn expr_value(&self, source: Seq<char>) -> Seq<char>;

    /// The diagnostic rejecting `source` as an expression, when it does not.
    spec fn expr_err(&self, source: Seq<char>) -> Seq<char>;

    /// Whether `source` compiles as a statement sequence.
    spec fn code_ok(&self, source: Seq<char>) -> bool;

    /// The payloads of the instruction sequence `source` compiles to.
    spec fn code_value(&self, source: Seq<char>) -> Seq<Seq<char>>;

    /// The diagnostic rejecting `source` as a statement sequence.
    spec fn code_err(&self, source: Seq<char>) -> Seq<char>;

    /// Compiles one expression.
    fn compile_expression(&self, source: &String) -> (r: Result<Expr, CompileError>)
        ensures
            self.expr_ok(source@) ==> (r matches Ok(e) && e@ == self.expr_value(source@)),
            !self.expr_ok(source@) ==> (r matches Err(e) && e@ == self.expr_err(source@)),
    ;

    /// Compiles a statement sequence.
    fn compile(&self, source: &String) -> (r: Result<Vec<Instruction>, CompileError>)
        ensures
            self.code_ok(source@) ==> (r matches Ok(v) && instrs_of(v@) == self.code_value(
                source@,
            )),
            !self.code_ok(source@) ==> (r matches Err(e) && e@ == self.code_err(source@)),
    ;
}

/// A compiler that performs no translation: an expression compiles to its own
/// text, and a code body to a single instruction carrying its text. Text that
/// contains the reject marker fails to compile, and the diagnostic is the text
/// itself. It stands in for a full language front end, which this crate leaves
/// to its callers.
pub struct TextCompiler {
    pub reject: char,
}

impl Compile for TextCompiler {
    open spec fn expr_ok(&self, source: Seq<char>) -> bool {
        !source.contains(self.reject)
    }

    open spec fn expr_value(&self, source: Seq<char>) -> Seq<char> {
        source
    }

    open spec fn expr_err(&self, source: Seq<char>) -> Seq<char> {
        source
    }

    open spec fn code_ok(&self, source: Seq<char>) -> bool {
        !source.contains(self.reject)
    }

    open spec fn code_value(&self, source: Seq<char>) -> Seq<Seq<char>> {
        seq![source]
    }

    open spec fn code_err(&self, source: Seq<char>) -> Seq<char> {
        source
    }

    fn compile_expression(&self, source: &String) -> (r: Result<Expr, CompileError>) {
        if contains_char(source, self.reject) {
            Err(CompileError { message: source.clone() })
        } else {
            Ok(Expr(source.clone()))
        }
    }

    fn compile(&self, source: &String) -> (r: Result<Vec<Instruction>, CompileError>) {
        if contains_char(source, self.reject) {
            Err(CompileError { message: source.clone() })
        } else {
            let mut v: Vec<Instruction> = Vec::new();
            v.push(Instruction(source.clone()));
            proof {
                assert(instrs_of(v@) =~= seq![source@]);
            }
            Ok(v)
        }
    }
}

/// Whether `c` occurs in `s`.
fn contains_char(s: &String, c: char) -> (r: bool)
    ensures
        r == s@.contains(c),
{
    let st: &str = s.as_str();
    let n: usize = st.unicode_len();
    for i in 0..n
        invariant
            n == s@.len(),
            st@ == s@,
            forall|j: int| 0 <= j < i ==> s@[j] != c,
    {
        if st.get_char(i) == c {
            proof {
                assert(s@[i as int] == c);
            }
            return true;
        }
    }
    proof {
        assert(!s@.contains(c));
    }
    false
}

} // verus!
