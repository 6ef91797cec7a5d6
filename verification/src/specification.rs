//! Test specifications: categories of test cases, each a list of inputs and checks on the output.
use vstd::prelude::*;
use crate::case_check::{CheckReport, TestCaseCheck, message_ref};
use crate::conditions::{error_explainable, fails_with, holds};
use crate::lints::{Block, Lint, LintReport, ProjectBlocks, opcode_count, count_opcode};
use crate::output::ProgramOutput;
use crate::parts::RandomsCfg;

verus! {

#[verifier::external_type_specification]
#[verifier::external_body]
pub struct ExJsonValue(serde_json::Value);

/// Inputs to give a program, and the checks on its output.
pub struct TestCase {
    pub inputs: Vec<String>,
    pub checks: Vec<TestCaseCheck>,
}

/// Whether `r` is the report of `check` on `output`.
pub open spec fn is_report_of<'a>(check: &'a TestCaseCheck, output: &ProgramOutput, r: CheckReport<'a>) -> bool {
    &&& r.severity == check.severity
    &&& r.failure is None <==> holds(check.condition, output)
    &&& r.failure matches Some(e) ==> fails_with(check.condition, output, e) && error_explainable(e)
    &&& if holds(check.condition, output) {
        message_ref(&check.on_success, r.message)
    } else {
        message_ref(&check.on_failure, r.message)
    }
}

/// Whether `r` is the report of `lint` on the blocks `doc`.
pub open spec fn is_lint_report_of<'a>(lint: &'a Lint, doc: &ProjectBlocks, r: LintReport<'a>) -> bool {
    &&& r.severity == lint.severity
    &&& r.failure is None <==> holds(lint.condition, doc)
    &&& r.failure matches Some(e) ==> fails_with(lint.condition, doc, e) && error_explainable(e)
    &&& if holds(lint.condition, doc) {
        message_ref(&lint.on_success, r.message)
    } else {
        message_ref(&lint.on_failure, r.message)
    }
}

impl TestCase {
    pub fn new(inputs: Vec<&str>) -> (r: Self)
        ensures
            r.inputs@.map_values(|s: String| s@) == inputs@.map_values(|s: &str| s@),
            r.checks@ == Seq::<TestCaseCheck>::empty(),
    {
        let mut owned: Vec<String> = Vec::new();
        let mut i: usize = 0;
        while i < inputs.len()
            invariant
                i <= inputs@.len(),
                owned@.map_values(|s: String| s@) == inputs@.take(i as int).map_values(|s: &str| s@),
            decreases inputs@.len() - i,
        {
            let ghost prev = owned@;
            owned.push(String::from_str(inputs[i]));
            proof {
                assert(owned@.map_values(|s: String| s@) =~= prev.map_values(|s: String| s@).push(inputs@[i as int]@));
                assert(inputs@.take(i + 1).map_values(|s: &str| s@) =~= inputs@.take(i as int).map_values(|s: &str| s@).push(inputs@[i as int]@));
            }
            i += 1;
        }
        proof {
            assert(inputs@.take(inputs@.len() as int) =~= inputs@);
        }
        TestCase { inputs: owned, checks: Vec::new() }
    }

    pub fn and_check(self, check: TestCaseCheck) -> (r: Self)
        ensures
            r.inputs == self.inputs,
            r.checks@ == self.checks@.push(check),
    {
        let mut s = self;
        s.checks.push(check);
        s
    }

    pub fn inputs(&self) -> (r: &Vec<String>)
        ensures
            *r == self.inputs,
    {
        &self.inputs
    }

    pub fn checks(&self) -> (r: &Vec<TestCaseCheck>)
        ensures
            *r == self.checks,
    {
        &self.checks
    }

    pub fn checks_mut(&mut self) -> (r: &mut Vec<TestCaseCheck>)
        ensures
            *r == old(self).checks,
            final(self).checks == *final(r),
            final(self).inputs == old(self).inputs,
    {
        &mut self.checks
    }

    pub fn inputs_mut(&mut self) -> (r: &mut Vec<String>)
        ensures
            *r == old(self).inputs,
            final(self).inputs == *final(r),
            final(self).checks == old(self).checks,
    {
        &mut self.inputs
    }

    /// Evaluates every check of the test case, in order, on the output of a run.
    pub fn check_output<'a>(&'a self, output: &ProgramOutput) -> (r: Vec<CheckReport<'a>>)
        ensures
            r@.len() == self.checks@.len(),
            forall|i: int| 0 <= i < r@.len() ==> is_report_of(&self.checks@[i], output, #[trigger] r@[i]),
    {
        let mut r: Vec<CheckReport<'a>> = Vec::new();
        let mut i: usize = 0;
        while i < self.checks.len()
            invariant
                i <= self.checks@.len(),
                r@.len() == i,
                forall|j: int| 0 <= j < i ==> is_report_of(&self.checks@[j], output, #[trigger] r@[j]),
            decreases self.checks@.len() - i,
        {
            let report = self.checks[i].run_on(output);
            r.push(report);
            i += 1;
        }
        r
    }
}

/// A category of test cases that run the program with given inputs.
pub struct StaticTestCategory {
    /// optional description about kind of contained tests and tested criteria
    pub description: Option<String>,
    pub randoms: Option<RandomsCfg>,
    pub cases: Vec<TestCase>,
}

impl StaticTestCategory {
    pub fn new(cases: Vec<TestCase>) -> (r: Self)
        ensures
            r.description is None,
            r.randoms is None,
            r.cases == cases,
    {
        StaticTestCategory { description: None, randoms: None, cases }
    }

    pub fn cases_mut(&mut self) -> (r: &mut Vec<TestCase>)
        ensures
            *r == old(self).cases,
            final(self).cases == *final(r),
            final(self).description == old(self).description,
            final(self).randoms == old(self).randoms,
    {
        &mut self.cases
    }

    pub fn description(&self) -> (r: &Option<String>)
        ensures
            *r == self.description,
    {
        &self.description
    }

    pub fn randoms(&self) -> (r: &Option<RandomsCfg>)
        ensures
            *r == self.randoms,
    {
        &self.randoms
    }

    pub fn cases(&self) -> (r: &Vec<TestCase>)
        ensures
            *r == self.cases,
    {
        &self.cases
    }

    pub fn with_description(self, description: Option<&str>) -> (r: Self)
        ensures
            r.randoms == self.randoms,
            r.cases == self.cases,
            match description {
                Some(d) => r.description matches Some(x) && x@ == d@,
                None => r.description is None,
            },
    {
        let description = match description {
            Some(d) => Some(String::from_str(d)),
            None => None,
        };
        StaticTestCategory { description, ..self }
    }

    pub fn set_description(&mut self, description: Option<&str>)
        ensures
            final(self).randoms == old(self).randoms,
            final(self).cases == old(self).cases,
            match description {
                Some(d) => final(self).description matches Some(x) && x@ == d@,
                None => final(self).description is None,
            },
    {
        self.description = match description {
            Some(d) => Some(String::from_str(d)),
            None => None,
        };
    }

    pub fn with_randoms(self, randoms: Option<RandomsCfg>) -> (r: Self)
        ensures
            r == (StaticTestCategory { randoms, ..self }),
    {
        StaticTestCategory { randoms, ..self }
    }

    pub fn set_randoms(&mut self, randoms: Option<RandomsCfg>)
        ensures
            *final(self) == (StaticTestCategory { randoms, ..*old(self) }),
    {
        self.randoms = randoms;
    }
}

pub enum TestCategory {
    Static(StaticTestCategory),
}

impl From<StaticTestCategory> for TestCategory {
    fn from(value: StaticTestCategory) -> (r: Self) {
        TestCategory::Static(value)
    }
}

impl vstd::std_specs::convert::FromSpecImpl<StaticTestCategory> for TestCategory {
    open spec fn obeys_from_spec() -> bool {
        true
    }

    open spec fn from_spec(v: StaticTestCategory) -> Self {
        TestCategory::Static(v)
    }
}

/// A list of test categories, with extra information that is kept but not interpreted.
pub struct TestSpecification {
    /// list of test categories
    pub categories: Vec<TestCategory>,
    /// Ignored but preserved by application, can be used to add extra information
    pub misc: Option<serde_json::Value>,
    /// Optional solution file that can be used to check the test specification
    pub solution: Option<serde_json::Value>,
    /// lints on the blocks of the program, independent of any run
    pub lints: Vec<Lint>,
}

#[derive(Debug, Clone, Copy, PartialEq, Eq, Structural)]
pub enum SpecError {
    NoInitialBlockFound,
    AmbiguousInitialBlock,
}

/// The opcode of the block that starts a program: "when green flag clicked".
pub open spec fn initial_opcode() -> Seq<char> {
    "event_whenflagclicked"@
}

/// The block a program starts from: the one block with the initial opcode, or an error when
/// there is none or more than one.
pub fn find_initial_block(doc: &ProjectBlocks) -> (r: Result<&String, SpecError>)
    ensures
        opcode_count(doc.blocks@, initial_opcode()) == 0 <==> r == Err::<&String, SpecError>(SpecError::NoInitialBlockFound),
        opcode_count(doc.blocks@, initial_opcode()) > 1 <==> r == Err::<&String, SpecError>(SpecError::AmbiguousInitialBlock),
        r matches Ok(id) ==> exists|i: int| 0 <= i < doc.blocks@.len()
            && (#[trigger] doc.blocks@[i]).opcode@ == initial_opcode() && *id == doc.blocks@[i].id,
{
    let initial = String::from_str("event_whenflagclicked");
    let count = count_opcode(doc, &initial);
    if count > 1 {
        return Err(SpecError::AmbiguousInitialBlock);
    }
    let blocks = &doc.blocks;
    let mut i: usize = 0;
    while i < blocks.len()
        invariant
            i <= blocks@.len(),
            initial@ == initial_opcode(),
            blocks@ == doc.blocks@,
            count == opcode_count(doc.blocks@, initial_opcode()),
            count <= 1,
            forall|j: int| 0 <= j < i ==> (#[trigger] blocks@[j]).opcode@ != initial_opcode(),
            opcode_count(blocks@.take(i as int), initial_opcode()) == 0,
        decreases blocks@.len() - i,
    {
        proof {
            assert(blocks@.take(i + 1).drop_last() =~= blocks@.take(i as int));
        }
        if blocks[i].opcode == initial {
            assert(count > 0) by {
                lemma_count_positive(blocks@, i as int, initial_opcode());
            }
            return Ok(&blocks[i].id);
        }
        i += 1;
    }
    proof {
        assert(blocks@.take(blocks@.len() as int) =~= blocks@);
    }
    Err(SpecError::NoInitialBlockFound)
}

/// A block with the opcode makes its count positive.
proof fn lemma_count_positive(blocks: Seq<Block>, i: int, opcode: Seq<char>)
    requires
        0 <= i < blocks.len(),
        blocks[i].opcode@ == opcode,
    ensures
        opcode_count(blocks, opcode) > 0,
    decreases blocks.len(),
{
    if i < blocks.len() - 1 {
        lemma_count_positive(blocks.drop_last(), i, opcode);
    }
}

impl TestSpecification {
    pub fn new<C: Into<TestCategory>>(categories: Vec<C>) -> (r: Self)
        ensures
            r.categories@.len() == categories@.len(),
            forall|i: int| 0 <= i < categories@.len() ==> call_ensures(C::into, (categories@[i],), #[trigger] r.categories@[i]),
            r.misc is None,
            r.solution is None,
            r.lints@ == Seq::<Lint>::empty(),
    {
        let mut converted: Vec<TestCategory> = Vec::new();
        let mut rest = categories;
        let ghost given = rest@;
        while rest.len() > 0
            invariant
                converted@.len() + rest@.len() == given.len(),
                rest@ == given.skip(converted@.len() as int),
                forall|i: int| 0 <= i < converted@.len() ==> call_ensures(C::into, (given[i],), #[trigger] converted@[i]),
            decreases rest@.len(),
        {
            let c = rest.remove(0);
            proof {
                assert(c == given[converted@.len() as int]);
                assert(rest@ =~= given.skip(converted@.len() as int + 1));
            }
            converted.push(c.into());
        }
        TestSpecification { categories: converted, misc: None, solution: None, lints: Vec::new() }
    }

    pub fn categories(&self) -> (r: &Vec<TestCategory>)
        ensures
            *r == self.categories,
    {
        &self.categories
    }

    pub fn categories_mut(&mut self) -> (r: &mut Vec<TestCategory>)
        ensures
            *r == old(self).categories,
            final(self).categories == *final(r),
            final(self).misc == old(self).misc,
            final(self).solution == old(self).solution,
            final(self).lints == old(self).lints,
    {
        &mut self.categories
    }

    /// Adds a lint to the specification.
    pub fn and_lint(self, lint: Lint) -> (r: Self)
        ensures
            r.lints@ == self.lints@.push(lint),
            r.categories == self.categories,
            r.misc == self.misc,
            r.solution == self.solution,
    {
        let mut r = self;
        r.lints.push(lint);
        r
    }

    pub fn lints(&self) -> (r: &Vec<Lint>)
        ensures
            *r == self.lints,
    {
        &self.lints
    }

    pub fn lints_mut(&mut self) -> (r: &mut Vec<Lint>)
        ensures
            *r == old(self).lints,
            final(self).lints == *final(r),
            final(self).categories == old(self).categories,
            final(self).misc == old(self).misc,
            final(self).solution == old(self).solution,
    {
        &mut self.lints
    }

    /// Runs every lint of the specification on the blocks of a program, in order.
    pub fn run_lints<'s>(&'s self, doc: &ProjectBlocks) -> (r: Vec<LintReport<'s>>)
        ensures
            r@.len() == self.lints@.len(),
            forall|i: int| 0 <= i < r@.len() ==> is_lint_report_of(&self.lints@[i], doc, #[trigger] r@[i]),
    {
        let mut r: Vec<LintReport<'s>> = Vec::new();
        let mut i: usize = 0;
        while i < self.lints.len()
            invariant
                i <= self.lints@.len(),
                r@.len() == i,
                forall|j: int| 0 <= j < i ==> is_lint_report_of(&self.lints@[j], doc, #[trigger] r@[j]),
            decreases self.lints@.len() - i,
        {
            let report = self.lints[i].run_on(doc);
            r.push(report);
            i += 1;
        }
        r
    }

    pub fn misc(&self) -> (r: &Option<serde_json::Value>)
        ensures
            *r == self.misc,
    {
        &self.misc
    }

    pub fn solution(&self) -> (r: &Option<serde_json::Value>)
        ensures
            *r == self.solution,
    {
        &self.solution
    }

    pub fn with_misc(self, misc: Option<serde_json::Value>) -> (r: Self)
        ensures
            r == (TestSpecification { misc, ..self }),
    {
        TestSpecification { misc, ..self }
    }

    pub fn set_misc(&mut self, misc: Option<serde_json::Value>)
        ensures
            *final(self) == (TestSpecification { misc, ..*old(self) }),
    {
        self.misc = misc;
    }

    pub fn with_solution(self, solution: Option<serde_json::Value>) -> (r: Self)
        ensures
            r == (TestSpecification { solution, ..self }),
    {
        TestSpecification { solution, ..self }
    }

    pub fn set_solution(&mut self, solution: Option<serde_json::Value>)
        ensures
            *final(self) == (TestSpecification { solution, ..*old(self) }),
    {
        self.solution = solution;
    }

    /// The block the program described by `doc` starts from; the first step of running the
    /// specification on a program.
    pub fn initial_block<'d>(&self, doc: &'d ProjectBlocks) -> (r: Result<&'d String, SpecError>)
        ensures
            opcode_count(doc.blocks@, initial_opcode()) == 0 <==> r == Err::<&String, SpecError>(SpecError::NoInitialBlockFound),
            opcode_count(doc.blocks@, initial_opcode()) > 1 <==> r == Err::<&String, SpecError>(SpecError::AmbiguousInitialBlock),
            r matches Ok(id) ==> exists|i: int| 0 <= i < doc.blocks@.len()
                && (#[trigger] doc.blocks@[i]).opcode@ == initial_opcode() && *id == doc.blocks@[i].id,
    {
        find_initial_block(doc)
    }
}

} // verus!
