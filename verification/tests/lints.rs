use scratch_test_spec::error::{ConditionError, LintConditionError};
use scratch_test_spec::lints::{Block, BlockKind, ProjectBlocks, count_opcode};
use scratch_test_spec::spec::{CompoundCheckCondition, Condition, Lint, LintCondition, LintSeverity};
use scratch_test_spec::{CheckResultMessages, ExplainableFailure};

fn blocks(opcodes: &[&str]) -> ProjectBlocks {
    ProjectBlocks {
        blocks: opcodes
            .iter()
            .enumerate()
            .map(|(i, o)| Block { id: format!("b{}", i), opcode: o.to_string() })
            .collect(),
    }
}

fn kind(opcode: &str, debug: &str) -> BlockKind {
    BlockKind { opcode: opcode.to_string(), debug: debug.to_string() }
}

fn repeat() -> BlockKind {
    kind("control_repeat", "Stmt(ControlRepeat)")
}

#[test]
fn lint_without_repeat_passes() {
    let doc = blocks(&["event_whenflagclicked", "sensing_askandwait", "data_setvariableto"]);
    let lint = Lint::block_count_limit(repeat(), 0).make_error();
    let report = lint.run_on(&doc);
    assert!(report.failure().is_none());
    assert_eq!(*report.severity(), LintSeverity::Error);
}

#[test]
fn lint_with_repeat_fails_and_explains() {
    let doc = blocks(&["event_whenflagclicked", "control_repeat", "data_changevariableby"]);
    let lint = Lint::block_count_limit(repeat(), 0).make_error();
    let report = lint.run_on(&doc);
    assert_eq!(
        "program uses more instances of control_repeat blocks than allowed (1 > 0)",
        report.failure().unwrap().explain()
    );
    match report.failure() {
        Some(ConditionError::Single(LintConditionError::ExceededAllowedBlockCount { opcode, max, used })) => {
            assert_eq!(opcode.opcode, "control_repeat");
            assert_eq!(opcode.debug, "Stmt(ControlRepeat)");
            assert_eq!(*max, 0);
            assert_eq!(*used, 1);
        },
        _ => panic!("expected a block count failure"),
    }
}

#[test]
fn lint_limit_is_inclusive() {
    let doc = blocks(&["control_repeat", "control_repeat", "control_forever"]);
    assert_eq!(count_opcode(&doc, &"control_repeat".to_string()), 2);
    assert!(Lint::block_count_limit(repeat(), 2).run_on(&doc).failure().is_none());
    assert!(Lint::block_count_limit(repeat(), 1).run_on(&doc).failure().is_some());
    assert!(Lint::block_count_limit(kind("motion_movesteps", "Stmt(MotionMovesteps)"), 0).run_on(&doc).failure().is_none());
}

#[test]
fn lint_messages_and_modifiers() {
    let doc = blocks(&["control_repeat"]);
    let lint = Lint::block_count_limit(repeat(), 0).with_on_failure(Some(
        CheckResultMessages::new()
            .with_human_msg(Some("You are not allowed to use the repeat loop for this exercise".to_string()))
            .with_tools_msg(Some("Submission uses repeat loop".to_string())),
    ));
    assert_eq!(*lint.severity(), LintSeverity::Warning);
    let report = lint.run_on(&doc);
    assert_eq!(report.message().unwrap().tools_msg(), &Some("Submission uses repeat loop".to_string()));
    let made = LintCondition::BlockCountLimit { opcode: repeat(), max: 3 }.make_lint();
    assert_eq!(made.severity, LintSeverity::Warning);
    assert!(made.run_on(&doc).failure().is_none());
    let mut lint = made;
    lint.set_severity(LintSeverity::NiceToHave);
    assert_eq!(*lint.severity(), LintSeverity::NiceToHave);
}

#[test]
fn lint_conditions_combine() {
    let doc = blocks(&["control_repeat"]);
    let limit = |max: u16| Condition::Single(LintCondition::BlockCountLimit { opcode: repeat(), max });
    let lint = Lint {
        severity: LintSeverity::Error,
        condition: Condition::Compound(CompoundCheckCondition::Not(Box::new(limit(0)))),
        on_success: None,
        on_failure: None,
    };
    assert!(lint.run_on(&doc).failure().is_none());
    let lint = Lint { condition: Condition::Compound(CompoundCheckCondition::All(vec![limit(5), limit(0)])), ..lint };
    assert_eq!(
        lint.run_on(&doc).failure().unwrap().explain(),
        "at least one condition passed to `All` failed: program uses more instances of control_repeat blocks than allowed (1 > 0)"
    );
}

#[test]
fn lint_condition_renders_the_block_kind_of_the_model() {
    let doc = blocks(&["control_repeat"]);
    let lint = Lint {
        severity: LintSeverity::Error,
        condition: Condition::Compound(CompoundCheckCondition::Not(Box::new(Condition::Single(
            LintCondition::BlockCountLimit { opcode: repeat(), max: 1 },
        )))),
        on_success: None,
        on_failure: None,
    };
    assert_eq!(
        lint.run_on(&doc).failure().unwrap().explain(),
        "the condition passed to `Not` didn't fail as required: Single(BlockCountLimit { opcode: Stmt(ControlRepeat), max: 1 })"
    );
}
