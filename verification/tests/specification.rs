use scratch_test_spec::error::SpecError;
use scratch_test_spec::lints::{Block, ProjectBlocks};
use scratch_test_spec::spec::{Check, StaticTestCategory, TestCase, TestCategory, TestSpecification, Transformation};
use scratch_test_spec::specification::find_initial_block;
use scratch_test_spec::{ExplainableFailure, ProgramOutput, RandomsCfg, RandomsGenerate, SValue};

fn blocks(opcodes: &[&str]) -> ProjectBlocks {
    ProjectBlocks {
        blocks: opcodes
            .iter()
            .enumerate()
            .map(|(i, o)| Block { id: format!("b{}", i), opcode: o.to_string() })
            .collect(),
    }
}

#[test]
fn initial_block_is_the_one_green_flag() {
    let doc = blocks(&["data_setvariableto", "event_whenflagclicked", "looks_say"]);
    assert_eq!(find_initial_block(&doc), Ok(&"b1".to_string()));
    let none = blocks(&["looks_say"]);
    assert_eq!(find_initial_block(&none), Err(SpecError::NoInitialBlockFound));
    let two = blocks(&["event_whenflagclicked", "event_whenflagclicked"]);
    assert_eq!(find_initial_block(&two), Err(SpecError::AmbiguousInitialBlock));
    let spec = TestSpecification::new(Vec::<TestCategory>::new());
    assert_eq!(spec.initial_block(&doc), Ok(&"b1".to_string()));
}

#[test]
fn test_case_checks_its_output() {
    let case = TestCase::new(vec!["1", "10"])
        .and_check(Check::last_line().c_equal_texts("45").make_error())
        .and_check(Check::last_line().transform(Transformation::ExtractSingleNumber).c_equal_texts("45").make_error());
    assert_eq!(case.inputs(), &vec!["1".to_string(), "10".to_string()]);
    let out = ProgramOutput { lines: vec![SValue::Text("The sum is 45".to_string())], float_comparisons: vec![] };
    let reports = case.check_output(&out);
    assert_eq!(reports.len(), 2);
    assert!(!reports[0].success());
    assert!(reports[1].success());
    assert!(reports[1].failure().is_none());
}

#[test]
fn categories_and_modifiers() {
    let category = StaticTestCategory::new(vec![TestCase::new(vec!["1", "2"])])
        .with_description(Some("Both positive"))
        .with_randoms(Some(RandomsCfg::new(RandomsGenerate::Allow { seed: Some(73) })));
    assert_eq!(category.description(), &Some("Both positive".to_string()));
    assert_eq!(category.randoms().as_ref().unwrap().generate(), &RandomsGenerate::Allow { seed: Some(73) });
    let mut spec = TestSpecification::new(vec![category]);
    assert_eq!(spec.categories().len(), 1);
    spec.categories_mut().push(TestCategory::Static(StaticTestCategory::new(vec![])));
    assert_eq!(spec.categories().len(), 2);
    let spec = spec.with_misc(Some(serde_json::Value::String("XX – Title".to_string())));
    assert!(spec.misc().is_some());
    assert!(spec.solution().is_none());
    let mut case = TestCase::new(vec!["5"]);
    case.inputs_mut().push("6".to_string());
    case.checks_mut().push(Check::first_line().c_equal_texts("x").make_warning());
    assert_eq!(case.inputs().len(), 2);
    assert_eq!(case.checks().len(), 1);
}

#[test]
fn specification_lints_run_on_the_blocks() {
    let spec = TestSpecification::new(vec![StaticTestCategory::new(vec![TestCase::new(vec!["1", "10"])
        .and_check(Check::last_line().transform(Transformation::ExtractSingleNumber).c_equal_texts("45").make_error())])])
    .and_lint(scratch_test_spec::spec::Lint::block_count_limit(
        scratch_test_spec::lints::BlockKind { opcode: "control_repeat".to_string(), debug: "Stmt(ControlRepeat)".to_string() },
        0,
    ).make_error());
    assert_eq!(spec.lints().len(), 1);
    let without = blocks(&["event_whenflagclicked", "data_setvariableto"]);
    let reports = spec.run_lints(&without);
    assert_eq!(reports.len(), 1);
    assert!(reports[0].failure().is_none());
    let with = blocks(&["event_whenflagclicked", "control_repeat"]);
    let reports = spec.run_lints(&with);
    assert_eq!(
        "program uses more instances of control_repeat blocks than allowed (1 > 0)",
        reports[0].failure().unwrap().explain()
    );
}
