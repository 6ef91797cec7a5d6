use scratch_test_spec::error::{CheckConditionError, ConditionError, CriterionError, TransformationError};
use scratch_test_spec::spec::{
    CaseCheckSeverity, Check, CompoundCheckCondition, Condition, Criterion, Selector, SingleCheckCondition,
    TestCaseCheck, Transformation,
};
use scratch_test_spec::{CheckResultMessages, ExplainableFailure, FloatComparison, FloatNum, Number, ProgramOutput, SValue};

fn text(s: &str) -> SValue {
    SValue::Text(s.to_string())
}

fn output(lines: Vec<SValue>) -> ProgramOutput {
    ProgramOutput { lines, float_comparisons: vec![] }
}

fn float(bits_of: f64) -> FloatNum {
    FloatNum { bits: bits_of.to_bits(), display: format!("{}", bits_of), debug: format!("{:?}", bits_of) }
}

#[test]
fn last_line_equal_texts_needs_extraction() {
    let out = output(vec![text("Enter two numbers"), text("The sum is 45")]);
    let plain = Check::last_line().c_equal_texts("45").make_error();
    let report = plain.run_on(&out);
    assert!(!report.success());
    assert_eq!(*report.severity(), CaseCheckSeverity::Error);
    assert_eq!(
        report.failure().unwrap().explain(),
        "program output Text(\"The sum is 45\") is expected to be exactly equal to \"45\""
    );

    let extracting = Check::last_line().t_extract_single_number().c_equal_texts("45").make_error();
    let report = extracting.run_on(&out);
    assert!(report.success());
    assert!(report.failure().is_none());
}

#[test]
fn selector_without_target() {
    let out = output(vec![text("only line")]);
    let check = Check::nth_line_from_end(3).c_equal_texts("0").make_warning();
    let report = check.run_on(&out);
    assert!(!report.success());
    assert_eq!(
        report.failure().unwrap().explain(),
        "the program output didn't contain a target for the selector: NthLineFromEnd { n: 3 }"
    );
    let empty = output(vec![]);
    let check = Check::first_line().c_contains("x").make_error();
    let report = check.run_on(&empty);
    match report.failure() {
        Some(ConditionError::Single(CheckConditionError::SelectorHasNoTarget(s))) => assert_eq!(**s, Selector::FirstLine),
        _ => panic!("expected a selector failure"),
    }
}

#[test]
fn selectors_pick_lines() {
    let out = output(vec![text("a"), text("b"), text("c")]);
    assert!(Check::first_line().c_equal_texts("a").make_error().run_on(&out).success());
    assert!(Check::last_line().c_equal_texts("c").make_error().run_on(&out).success());
    assert!(Check::nth_line_from_start(1).c_equal_texts("b").make_error().run_on(&out).success());
    assert!(Check::nth_line_from_end(2).c_equal_texts("a").make_error().run_on(&out).success());
    assert!(Check::nth_line_from_end(0).c_equal_texts("c").make_error().run_on(&out).success());
    assert!(!Check::nth_line_from_start(3).c_equal_texts("c").make_error().run_on(&out).success());
    assert_eq!(Selector::NthLineFromStart { n: 0 }.position(3), Selector::FirstLine.position(3));
    assert_eq!(Selector::NthLineFromEnd { n: 1 }.position(3), Some(1));
    assert_eq!(Selector::LastLine.position(0), None);
}

#[test]
fn uppercase_and_trim() {
    let out = output(vec![text("  yes \t\n")]);
    let check = Check::last_line().t_trim_left_right().t_to_uppercase().c_equal_texts("YES").make_error();
    assert!(check.run_on(&out).success());
    let untrimmed = Check::last_line().t_to_uppercase().c_equal_texts("YES").make_error();
    assert!(!untrimmed.run_on(&out).success());
    let sharp = output(vec![text("straße")]);
    assert!(Check::first_line().t_to_uppercase().c_equal_texts("STRASSE").make_error().run_on(&sharp).success());
}

#[test]
fn transformation_of_values() {
    assert_eq!(Transformation::ToUppercase.transform(SValue::Int(-12)).unwrap(), text("-12"));
    assert_eq!(Transformation::TrimLeftRight.transform(SValue::Bool(true)).unwrap(), text("true"));
    assert_eq!(Transformation::ExtractSingleNumber.transform(SValue::Bool(true)).unwrap(), SValue::Int(1));
    assert_eq!(Transformation::ExtractSingleNumber.transform(SValue::Bool(false)).unwrap(), SValue::Int(0));
    assert_eq!(Transformation::ExtractSingleNumber.transform(SValue::Int(7)).unwrap(), SValue::Int(7));
    assert_eq!(Transformation::ExtractSingleNumber.transform(text("x = -3.25;")).unwrap(), text("-3.25"));
    assert_eq!(Transformation::ExtractSingleNumber.transform(text("+8")).unwrap(), text("+8"));
    assert_eq!(
        Transformation::ExtractSingleNumber.transform(text("1 and 2")),
        Err(TransformationError::AmbiguousChoiceForNumber)
    );
    assert_eq!(
        Transformation::ExtractSingleNumber.transform(text("no digits")),
        Err(TransformationError::DidntFindNumber)
    );
}

#[test]
fn failing_transformation_is_explained() {
    let out = output(vec![text("no number here")]);
    let check = Check::last_line().t_to_uppercase().t_extract_single_number().c_equal_texts("1").make_error();
    let report = check.run_on(&out);
    let failure = report.failure().unwrap();
    match failure {
        ConditionError::Single(CheckConditionError::Transformation { error, idx, input, .. }) => {
            assert_eq!(*error, TransformationError::DidntFindNumber);
            assert_eq!(*idx, 1);
            assert_eq!(*input, text("NO NUMBER HERE"));
        },
        _ => panic!("expected a transformation failure"),
    }
    assert_eq!(
        failure.explain(),
        "the transformation at index 1 (ExtractSingleNumber) failed on input Text(\"NO NUMBER HERE\") with DidntFindNumber"
    );
}

#[test]
fn contains_contained_in_one_of() {
    let out = output(vec![text("hello world")]);
    assert!(Check::last_line().c_contains("lo wo").make_error().run_on(&out).success());
    assert!(!Check::last_line().c_contains("xyz").make_error().run_on(&out).success());
    assert!(Check::last_line().c_is_contained_in("say hello world!").make_error().run_on(&out).success());
    assert!(!Check::last_line().c_is_contained_in("hello").make_error().run_on(&out).success());
    assert!(Check::last_line().c_one_of(vec!["hi", "hello world"]).make_error().run_on(&out).success());
    let check = Check::last_line().c_one_of(vec!["a", "b"]).make_error();
    let report = check.run_on(&out);
    assert_eq!(
        report.failure().unwrap().explain(),
        "program output Text(\"hello world\") should be one of the following: [\"a\", \"b\"]"
    );
    let check = Check::last_line().c_contains("xyz").make_error();
    let report = check.run_on(&out);
    assert_eq!(report.failure().unwrap().explain(), "program output Text(\"hello world\") should contain \"xyz\"");
    let check = Check::last_line().c_is_contained_in("hello").make_error();
    let report = check.run_on(&out);
    assert_eq!(
        report.failure().unwrap().explain(),
        "program output Text(\"hello world\") should be contained in \"hello\""
    );
}

#[test]
fn equal_numbers_on_integers() {
    let out = output(vec![SValue::Int(3), text("3")]);
    assert!(Check::first_line().c_exactly_equal_numbers(Number::Int(3)).make_error().run_on(&out).success());
    let check = Check::first_line().c_exactly_equal_numbers(Number::Int(4)).make_error();
    let report = check.run_on(&out);
    assert_eq!(
        report.failure().unwrap().explain(),
        "program output Int(3) should be exactly the same number as Int(4)"
    );
    let check = Check::last_line().c_exactly_equal_numbers(Number::Int(3)).make_error();
    let report = check.run_on(&out);
    match report.failure() {
        Some(ConditionError::Single(CheckConditionError::Criterion { criterion_err, .. })) => {
            assert!(matches!(criterion_err, CriterionError::ExpectedNumberAsOutput))
        },
        _ => panic!("expected a criterion failure"),
    }
    assert_eq!(report.failure().unwrap().explain(), "Text(\"3\") is not a number as required");
    // with a tolerance, two integers are compared by the verdict the caller recorded
    let check = Check::first_line().c_tolerance_equal_numbers(Number::Int(4), float(10.0)).make_error();
    let report = check.run_on(&out);
    assert_eq!(
        report.failure().unwrap().explain(),
        "program output Int(3) should differ at most 10 from number Int(4)"
    );
    let within = FloatComparison { value: Number::Int(3), other: Number::Int(4), tolerance: Some(float(10.0)), equal: true };
    let decided = ProgramOutput { lines: vec![SValue::Int(3), text("3")], float_comparisons: vec![within] };
    assert!(check.run_on(&decided).success());
}

#[test]
fn equal_numbers_with_floats_go_by_recorded_comparisons() {
    let value = float(2.5);
    let lines = vec![SValue::Float(value.clone())];
    let comparison = FloatComparison { value: Number::Float(value.clone()), other: Number::Int(3), tolerance: Some(float(1.0)), equal: true };
    let out = ProgramOutput { lines, float_comparisons: vec![comparison] };
    assert!(Check::first_line().c_tolerance_equal_numbers(Number::Int(3), float(1.0)).make_error().run_on(&out).success());
    // no recorded comparison for this tolerance: not equal
    assert!(!Check::first_line().c_tolerance_equal_numbers(Number::Int(3), float(0.1)).make_error().run_on(&out).success());
    assert!(!Check::first_line().c_exactly_equal_numbers(Number::Int(3)).make_error().run_on(&out).success());
}

#[test]
fn compound_conditions() {
    let out = output(vec![text("a"), text("b")]);
    let yes = || Check::first_line().c_equal_texts("a").0;
    let no = || Check::first_line().c_equal_texts("z").0;
    let all = Condition::Compound(CompoundCheckCondition::All(vec![yes(), no(), yes()]));
    let check = TestCaseCheck::new_error(all);
    let report = check.run_on(&out);
    assert!(!report.success());
    assert_eq!(
        report.failure().unwrap().explain(),
        "at least one condition passed to `All` failed: program output Text(\"a\") is expected to be exactly equal to \"z\""
    );
    let any = Condition::Compound(CompoundCheckCondition::Any(vec![no(), yes()]));
    assert!(TestCaseCheck::new_warning(any).run_on(&out).success());
    let none = Condition::Compound(CompoundCheckCondition::Any(vec![no(), no()]));
    let check = TestCaseCheck::new_warning(none);
    let report = check.run_on(&out);
    match report.failure() {
        Some(ConditionError::NoneOfAny(errs)) => assert_eq!(errs.len(), 2),
        _ => panic!("expected NoneOfAny"),
    }
    assert!(report.failure().unwrap().explain().starts_with("none of the conditions passed to `Any` succeeded: [\"program output"));
    let not = Condition::Compound(CompoundCheckCondition::Not(Box::new(yes())));
    let check = TestCaseCheck::new_nice_to_have(not);
    let report = check.run_on(&out);
    assert!(!report.success());
    assert_eq!(
        report.failure().unwrap().explain(),
        "the condition passed to `Not` didn't fail as required: Single(SingleCheckCondition { select: FirstLine, transformations: [], criterion: EqualTexts { other: \"a\" } })"
    );
    let not_not = Condition::Compound(CompoundCheckCondition::Not(Box::new(Condition::Compound(CompoundCheckCondition::Not(Box::new(yes()))))));
    assert!(TestCaseCheck::new_error(not_not).run_on(&out).success());
    let empty_all = Condition::Compound(CompoundCheckCondition::All(vec![]));
    assert!(TestCaseCheck::new_error(empty_all).run_on(&out).success());
    let empty_any = Condition::Compound(CompoundCheckCondition::Any(vec![]));
    assert!(!TestCaseCheck::new_error(empty_any).run_on(&out).success());
}

#[test]
fn messages_follow_the_outcome() {
    let out = output(vec![text("a")]);
    let ok_msg = CheckResultMessages::new().with_human_msg(Some("well done".to_string()));
    let bad_msg = CheckResultMessages::new().with_tools_msg(Some("wrong".to_string()));
    let check = Check::first_line().c_equal_texts("a").make_error()
        .with_on_success(Some(ok_msg))
        .with_on_failure(Some(bad_msg));
    let report = check.run_on(&out);
    assert_eq!(report.message().unwrap().human_msg(), &Some("well done".to_string()));
    let check = check.with_condition(Check::first_line().c_equal_texts("b").0);
    let report = check.run_on(&out);
    assert_eq!(report.message().unwrap().tools_msg(), &Some("wrong".to_string()));
    let plain = Check::first_line().c_equal_texts("a").make_warning();
    assert!(plain.run_on(&out).message().is_none());
}

#[test]
fn builder_records_selector_transformations_and_criterion() {
    let check = Check::last_line().t_to_uppercase().t_trim_left_right().t_extract_single_number();
    assert_eq!(check.select, Selector::LastLine);
    assert_eq!(check.transformations, vec![Transformation::ToUppercase, Transformation::TrimLeftRight, Transformation::ExtractSingleNumber]);
    let built = Check::new(Selector::FirstLine).transform(Transformation::TrimLeftRight).c_equal_texts("0");
    match built.0 {
        Condition::Single(SingleCheckCondition { select, transformations, criterion }) => {
            assert_eq!(select, Selector::FirstLine);
            assert_eq!(transformations, vec![Transformation::TrimLeftRight]);
            assert!(matches!(criterion, Criterion::EqualTexts { other } if other == "0"));
        },
        _ => panic!("expected a single condition"),
    }
    let mut check = TestCaseCheck::new(CaseCheckSeverity::Warning, Check::first_line().c_equal_texts("x").into());
    check.set_severity(CaseCheckSeverity::Error);
    assert_eq!(*check.severity(), CaseCheckSeverity::Error);
    assert!(check.on_success().is_none());
}

#[test]
fn float_queries_cover_every_comparison_a_check_can_ask() {
    let checks = vec![
        Check::first_line().c_tolerance_equal_numbers(Number::Int(3), float(1.0)).make_error(),
        Check::last_line().c_exactly_equal_numbers(Number::Int(7)).make_error(),
        TestCaseCheck::new_error(Condition::Compound(CompoundCheckCondition::Not(Box::new(
            Check::last_line().c_exactly_equal_numbers(Number::Float(float(0.5))).0,
        )))),
    ];
    let lines = vec![SValue::Float(float(2.5)), text("x"), SValue::Int(7)];
    let queries = scratch_test_spec::queries::float_queries(&checks, &lines);
    let asks = |value: &Number, other: &Number, tolerance: Option<u64>| {
        queries.iter().any(|q| {
            q.value == *value && q.other == *other && q.tolerance.as_ref().map(|t| t.bits) == tolerance
        })
    };
    // the printed float against both integer criteria
    assert!(asks(&Number::Float(float(2.5)), &Number::Int(3), Some(1.0f64.to_bits())));
    assert!(asks(&Number::Float(float(2.5)), &Number::Int(7), None));
    // every candidate against the float criterion, the 0 and 1 of booleans included
    assert!(asks(&Number::Int(7), &Number::Float(float(0.5)), None));
    assert!(asks(&Number::Int(0), &Number::Float(float(0.5)), None));
    assert!(asks(&Number::Int(1), &Number::Float(float(0.5)), None));
    // with a tolerance, two integers need a query too
    assert!(asks(&Number::Int(7), &Number::Int(3), Some(1.0f64.to_bits())));
    // two integers without a tolerance are compared exactly and need no query
    assert!(!queries.iter().any(|q| matches!((&q.value, &q.other, &q.tolerance), (Number::Int(_), Number::Int(_), None))));
    let decided: Vec<FloatComparison> = queries
        .into_iter()
        .map(|q| {
            let equal = matches!(q.value, Number::Float(ref f) if f.bits == 2.5f64.to_bits())
                && q.other == Number::Int(3);
            FloatComparison { value: q.value, other: q.other, tolerance: q.tolerance, equal }
        })
        .collect();
    let out = ProgramOutput { lines, float_comparisons: decided };
    assert!(checks[0].run_on(&out).success());
    assert!(checks[1].run_on(&out).success());
    assert!(checks[2].run_on(&out).success());
}

#[test]
fn transformation_error_messages() {
    assert_eq!(TransformationError::DidntFindNumber.message(), "output doesn't contain mandatory number");
    assert_eq!(
        TransformationError::AmbiguousChoiceForNumber.message(),
        "output contains multiple numbers, choice is ambiguous"
    );
    assert_eq!(TransformationError::InvalidNumberPattern.message(), "the pattern for numbers was rejected");
}

#[test]
fn single_condition_stops_at_first_failing_transformation() {
    let cond = SingleCheckCondition::new(
        Selector::FirstLine,
        vec![Transformation::ExtractSingleNumber, Transformation::ToUppercase],
        Criterion::EqualTexts { other: "x".to_string() },
    );
    let out = output(vec![text("no digits here")]);
    match cond.is_satisfied(&out) {
        Err(CheckConditionError::Transformation { error, idx, .. }) => {
            assert_eq!(error, TransformationError::DidntFindNumber);
            assert_eq!(idx, 0);
        },
        _ => panic!("expected the first transformation to fail"),
    }
}
