//! Lints: conditions on the blocks a program is made of, independent of any run.
use vstd::prelude::*;
use crate::conditions::{AnySingleCondition, Condition, ConditionError, ExplainableFailure, error_explainable, fails_with, holds};
use crate::parts::CheckResultMessages;
use crate::case_check::{message_of, message_ref};
use crate::render::DebugText;
use crate::value::{decimal, digits, int_text, nat_text};

verus! {

/// A block of a program: its id and its opcode (for example `control_repeat`).
pub struct Block {
    pub id: String,
    pub opcode: String,
}

/// The blocks a program is made of.
pub struct ProjectBlocks {
    pub blocks: Vec<Block>,
}

/// How many of `blocks` have the opcode `opcode`.
pub open spec fn opcode_count(blocks: Seq<Block>, opcode: Seq<char>) -> nat
    decreases blocks.len(),
{
    if blocks.len() == 0 {
        0
    } else {
        opcode_count(blocks.drop_last(), opcode) + if blocks.last().opcode@ == opcode { 1nat } else { 0nat }
    }
}

/// How many blocks of `project` have the opcode `opcode`.
pub fn count_opcode(project: &ProjectBlocks, opcode: &String) -> (r: usize)
    ensures
        r == opcode_count(project.blocks@, opcode@),
{
    let blocks = &project.blocks;
    let mut count: usize = 0;
    let mut i: usize = 0;
    while i < blocks.len()
        invariant
            i <= blocks@.len(),
            count == opcode_count(blocks@.take(i as int), opcode@),
            count <= i,
        decreases blocks@.len() - i,
    {
        proof {
            assert(blocks@.take(i + 1).drop_last() =~= blocks@.take(i as int));
        }
        if blocks[i].opcode == *opcode {
            count += 1;
        }
        i += 1;
    }
    proof {
        assert(blocks@.take(blocks@.len() as int) =~= blocks@);
    }
    count
}

#[derive(Debug, Clone, Copy, PartialEq, Eq, Structural)]
pub enum LintSeverity {
    /// if this check fails, only an info is shown that a nice-to-have criteria is not fulfilled
    NiceToHave,
    /// if this check fails, a warning is produced
    Warning,
    /// if this check fails, an error is produced
    Error,
}

/// A kind of block: its opcode (for example `control_repeat`), by which blocks are matched and
/// which explanations print, and the `Debug` rendering of the block kind of the program model,
/// which the rendering of a condition shows.
pub struct BlockKind {
    pub opcode: String,
    pub debug: String,
}

/// A copy of a block kind.
fn copy_kind(k: &BlockKind) -> (r: BlockKind)
    ensures
        r.opcode@ == k.opcode@,
        r.debug@ == k.debug@,
{
    BlockKind { opcode: k.opcode.clone(), debug: k.debug.clone() }
}

pub enum LintCondition {
    BlockCountLimit { opcode: BlockKind, max: u16 },
}

pub enum LintConditionError {
    ExceededAllowedBlockCount { opcode: BlockKind, max: u16, used: usize },
}

impl AnySingleCondition for LintCondition {
    type Error<'s> = LintConditionError;

    type Input<'i> = &'i ProjectBlocks;

    open spec fn satisfied_by(&self, input: &ProjectBlocks) -> bool {
        match self {
            LintCondition::BlockCountLimit { opcode, max } => opcode_count(input.blocks@, opcode.opcode@) <= *max,
        }
    }

    open spec fn fails_with<'s>(&self, input: &ProjectBlocks, e: LintConditionError) -> bool where Self: 's {
        match self {
            LintCondition::BlockCountLimit { opcode, max } => {
                &&& e matches LintConditionError::ExceededAllowedBlockCount { opcode: o, max: m, used }
                &&& o.opcode@ == opcode.opcode@
                &&& o.debug@ == opcode.debug@
                &&& m == *max
                &&& used == opcode_count(input.blocks@, opcode.opcode@)
            },
        }
    }

    fn check<'s>(&'s self, input: &ProjectBlocks) -> (r: Result<(), LintConditionError>) {
        match self {
            LintCondition::BlockCountLimit { opcode, max } => {
                let used_count = count_opcode(input, &opcode.opcode);
                if used_count > (*max as usize) {
                    Err(LintConditionError::ExceededAllowedBlockCount { opcode: copy_kind(opcode), max: *max, used: used_count })
                } else {
                    Ok(())
                }
            },
        }
    }
}

impl ExplainableFailure for LintConditionError {
    open spec fn explainable(&self) -> bool {
        true
    }

    open spec fn explanation(&self) -> Seq<char> {
        match self {
            LintConditionError::ExceededAllowedBlockCount { opcode, max, used } =>
                "program uses more instances of "@ + opcode.opcode@ + " blocks than allowed ("@ + digits(*used as nat)
                    + " > "@ + digits(*max as nat) + ")"@,
        }
    }

    fn explain(&self) -> (r: String) {
        match self {
            LintConditionError::ExceededAllowedBlockCount { opcode, max, used } => {
                let mut r = String::from_str("program uses more instances of ");
                r.append(opcode.opcode.as_str());
                r.append(" blocks than allowed (");
                r.append(nat_text(*used as u64).as_str());
                r.append(" > ");
                r.append(nat_text(*max as u64).as_str());
                r.append(")");
                r
            },
        }
    }
}

impl DebugText for LintCondition {
    open spec fn spec_debug(&self) -> Seq<char> {
        match self {
            LintCondition::BlockCountLimit { opcode, max } =>
                "BlockCountLimit { opcode: "@ + opcode.debug@ + ", max: "@ + decimal(*max as int) + " }"@,
        }
    }

    fn debug_text(&self) -> (r: String) {
        match self {
            LintCondition::BlockCountLimit { opcode, max } => {
                let mut r = String::from_str("BlockCountLimit { opcode: ");
                r.append(opcode.debug.as_str());
                r.append(", max: ");
                r.append(int_text(*max as i64).as_str());
                r.append(" }");
                r
            },
        }
    }
}

/// A condition on the blocks of a program, with a severity and messages.
pub struct Lint {
    pub severity: LintSeverity,
    pub condition: Condition<LintCondition>,
    pub on_success: Option<CheckResultMessages>,
    pub on_failure: Option<CheckResultMessages>,
}

/// The outcome of a lint on a program.
pub struct LintReport<'s> {
    pub severity: LintSeverity,
    pub failure: Option<ConditionError<'s, LintCondition>>,
    pub message: Option<&'s CheckResultMessages>,
}

impl<'s> LintReport<'s> {
    pub fn severity(&self) -> (r: &LintSeverity)
        ensures
            *r == self.severity,
    {
        &self.severity
    }

    pub fn failure(&self) -> (r: Option<&ConditionError<'s, LintCondition>>)
        ensures
            match self.failure {
                Some(e) => r matches Some(x) && *x == e,
                None => r is None,
            },
    {
        match &self.failure {
            Some(e) => Some(e),
            None => None,
        }
    }

    pub fn message(&self) -> (r: Option<&CheckResultMessages>)
        ensures
            r == self.message,
    {
        self.message
    }
}

impl Lint {
    /// A warning that `opcode` blocks are used more than `max` times.
    pub fn block_count_limit(opcode: BlockKind, max: u16) -> (r: Self)
        ensures
            r.severity == LintSeverity::Warning,
            r.condition == Condition::Single(LintCondition::BlockCountLimit { opcode, max }),
            r.on_failure is None,
            r.on_success is None,
    {
        Lint {
            severity: LintSeverity::Warning,
            condition: Condition::Single(LintCondition::BlockCountLimit { opcode, max }),
            on_failure: None,
            on_success: None,
        }
    }

    /// Evaluates the lint on the blocks of a program.
    pub fn run_on<'s>(&'s self, doc: &ProjectBlocks) -> (r: LintReport<'s>)
        ensures
            r.severity == self.severity,
            r.failure is None <==> holds(self.condition, doc),
            r.failure matches Some(e) ==> fails_with(self.condition, doc, e) && error_explainable(e),
            if holds(self.condition, doc) {
                message_ref(&self.on_success, r.message)
            } else {
                message_ref(&self.on_failure, r.message)
            },
    {
        let result = self.condition.check(doc);
        let message = if result.is_ok() {
            message_of(&self.on_success)
        } else {
            message_of(&self.on_failure)
        };
        let failure = match result {
            Ok(()) => None,
            Err(e) => Some(e),
        };
        LintReport { severity: self.severity, failure, message }
    }

    pub fn make_error(self) -> (r: Self)
        ensures
            r == (Lint { severity: LintSeverity::Error, ..self }),
    {
        Lint { severity: LintSeverity::Error, ..self }
    }

    pub fn severity(&self) -> (r: &LintSeverity)
        ensures
            *r == self.severity,
    {
        &self.severity
    }

    pub fn condition(&self) -> (r: &Condition<LintCondition>)
        ensures
            *r == self.condition,
    {
        &self.condition
    }

    pub fn on_success(&self) -> (r: &Option<CheckResultMessages>)
        ensures
            *r == self.on_success,
    {
        &self.on_success
    }

    pub fn on_failure(&self) -> (r: &Option<CheckResultMessages>)
        ensures
            *r == self.on_failure,
    {
        &self.on_failure
    }

    pub fn with_on_failure(self, on_failure: Option<CheckResultMessages>) -> (r: Self)
        ensures
            r == (Lint { on_failure, ..self }),
    {
        Lint { on_failure, ..self }
    }

    pub fn set_on_failure(&mut self, on_failure: Option<CheckResultMessages>)
        ensures
            *final(self) == (Lint { on_failure, ..*old(self) }),
    {
        self.on_failure = on_failure;
    }

    pub fn with_on_success(self, on_success: Option<CheckResultMessages>) -> (r: Self)
        ensures
            r == (Lint { on_success, ..self }),
    {
        Lint { on_success, ..self }
    }

    pub fn set_on_success(&mut self, on_success: Option<CheckResultMessages>)
        ensures
            *final(self) == (Lint { on_success, ..*old(self) }),
    {
        self.on_success = on_success;
    }

    pub fn with_severity(self, severity: LintSeverity) -> (r: Self)
        ensures
            r == (Lint { severity, ..self }),
    {
        Lint { severity, ..self }
    }

    pub fn set_severity(&mut self, severity: LintSeverity)
        ensures
            *final(self) == (Lint { severity, ..*old(self) }),
    {
        self.severity = severity;
    }
}

impl LintCondition {
    /// A warning lint made of this condition alone.
    pub fn make_lint(self) -> (r: Lint)
        ensures
            r == (Lint {
                condition: Condition::Single(self),
                on_success: None,
                on_failure: None,
                severity: LintSeverity::Warning,
            }),
    {
        Lint {
            condition: Condition::Single(self),
            on_success: None,
            on_failure: None,
            severity: LintSeverity::Warning,
        }
    }
}

} // verus!
