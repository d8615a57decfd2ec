use vstd::prelude::*;

verus! {

/// Marker kinds of an action record; the values match the legacy format.
pub const KIND_NORMAL: u32 = 0;

/// Opens a group that extends until the matching `KIND_END_GROUP`.
pub const KIND_BEGIN_GROUP: u32 = 1;

/// Closes a group opened by `KIND_BEGIN_GROUP`.
pub const KIND_END_GROUP: u32 = 2;

/// Marks the start of the else-branch of the preceding condition.
pub const KIND_ELSE: u32 = 3;

pub const KIND_EXIT: u32 = 4;

pub const KIND_REPEAT: u32 = 5;

pub const KIND_VARIABLE: u32 = 6;

/// The record's first parameter is itself a block of code to compile and run
/// as the node's entire body.
pub const KIND_CODE: u32 = 7;

/// Execution types; the values match the legacy format. A record whose
/// execution type is `EXEC_NONE` contributes no node. Every value other than
/// `EXEC_NONE` and `EXEC_FUNCTION` falls through to the code-compilation path,
/// as the format demands.
pub const EXEC_NONE: u32 = 0;

/// The record names a built-in operation to be resolved in the registry.
pub const EXEC_FUNCTION: u32 = 1;

/// The record carries a code body to be compiled.
pub const EXEC_CODE: u32 = 2;

/// One flat entry of a drag-and-drop action list, as stored in the legacy
/// asset format.
#[derive(Debug)]
pub struct CodeAction {
    /// Marker kind; one of the `KIND_` values.
    pub action_kind: u32,

    /// Execution type; interpreted per the `EXEC_` values.
    pub execution_type: u32,

    /// Whether the record is a question whose node selects between a then-
    /// and an else-subtree.
    pub is_condition: bool,

    /// Whether the boolean result of a question is to be inverted.
    pub invert_condition: bool,

    /// When false, the node applies to nothing and its target is absent.
    pub applies_to_something: bool,

    /// Target id: self (-1), other (-2), or a concrete object/instance id.
    pub applies_to: i32,

    /// Whether the "relative" checkbox was used; forwarded verbatim.
    pub is_relative: bool,

    /// Name of the built-in operation, read when the execution type is
    /// `EXEC_FUNCTION`.
    pub fn_name: String,

    /// Code body, read on the code-compilation path for kinds other than
    /// `KIND_CODE`.
    pub fn_code: String,

    /// Raw parameter strings.
    pub param_strings: Vec<String>,

    /// How many leading parameters are semantically valid; later slots may be
    /// recycled garbage.
    pub param_count: usize,
}

impl CodeAction {
    /// The parameter strings as mathematical sequences of characters.
    pub open spec fn params(&self) -> Seq<Seq<char>> {
        self.param_strings@.map(|i: int, s: String| s@)
    }

    /// How many leading parameters are read: `param_count`, clipped to the
    /// number of parameters actually present.
    pub open spec fn arg_count(&self) -> int {
        if self.param_count as int <= self.param_strings@.len() {
            self.param_count as int
        } else {
            self.param_strings@.len() as int
        }
    }

    /// The source text of an inline-code record: its first parameter if
    /// present, the empty text otherwise.
    pub open spec fn inline_source(&self) -> Seq<char> {
        if self.param_strings@.len() > 0 {
            self.param_strings@[0]@
        } else {
            Seq::<char>::empty()
        }
    }
}

} // verus!
