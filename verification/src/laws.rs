//! Properties of the library that relate several of its functions or hold of every input.
use vstd::prelude::*;
use crate::conditions::{AnySingleCondition, CompoundCheckCondition, Condition, ConditionError, all_hold, any_holds, each_fails_with, fails_with, holds};
use crate::criterion::{Criterion, number_view};
use crate::case_check::TestCaseCheck;
use crate::queries::{checks_criteria, condition_criteria, conditions_criteria, is_candidate};
use crate::selector::Selector;
use crate::text::{char_is_whitespace, contains, trim, trim_end, trim_start, uppercase};
use crate::lints::{BlockKind, LintCondition, ProjectBlocks, opcode_count};
use crate::output::ProgramOutput;
use crate::single_condition::{SingleCheckCondition, pipeline};
use crate::transformation::Transformation;
use crate::value::{FloatNum, SValue, SValueView};

verus! {

/// `All` of a list of conditions is met exactly when every condition in the list is met.
pub proof fn law_all_holds_iff_each_holds<S: AnySingleCondition>(v: Vec<Condition<S>>, input: S::Input<'_>)
    ensures
        holds(Condition::Compound(CompoundCheckCondition::All(v)), input)
            <==> forall|i: int| 0 <= i < v@.len() ==> #[trigger] holds(v@[i], input),
{
    lemma_all_hold(v@, input);
    assert(holds(Condition::Compound(CompoundCheckCondition::All(v)), input) == all_hold(v@, input));
}

/// `Any` of a list of conditions is met exactly when some condition in the list is met.
pub proof fn law_any_holds_iff_some_holds<S: AnySingleCondition>(v: Vec<Condition<S>>, input: S::Input<'_>)
    ensures
        holds(Condition::Compound(CompoundCheckCondition::Any(v)), input)
            <==> exists|i: int| 0 <= i < v@.len() && #[trigger] holds(v@[i], input),
{
    lemma_any_holds(v@, input);
    assert(holds(Condition::Compound(CompoundCheckCondition::Any(v)), input) == any_holds(v@, input));
}

/// `Not` of a condition is met exactly when the condition is not, so a double `Not` is met
/// exactly when the condition is.
pub proof fn law_not_not<S: AnySingleCondition>(c: Condition<S>, input: S::Input<'_>)
    ensures
        holds(Condition::Compound(CompoundCheckCondition::Not(Box::new(c))), input) <==> !holds(c, input),
        holds(
            Condition::Compound(CompoundCheckCondition::Not(Box::new(
                Condition::Compound(CompoundCheckCondition::Not(Box::new(c))),
            ))),
            input,
        ) <==> holds(c, input),
{
    let inner = Condition::Compound(CompoundCheckCondition::Not(Box::new(c)));
    assert(holds(inner, input) == !holds(c, input));
    assert(holds(Condition::Compound(CompoundCheckCondition::Not(Box::new(inner))), input) == !holds(inner, input));
}

/// `All` of no condition is met, `Any` of no condition is not.
pub proof fn law_empty_all_and_any<S: AnySingleCondition>(v: Vec<Condition<S>>, input: S::Input<'_>)
    requires
        v@.len() == 0,
    ensures
        holds(Condition::Compound(CompoundCheckCondition::All(v)), input),
        !holds(Condition::Compound(CompoundCheckCondition::Any(v)), input),
{
    assert(all_hold(v@, input));
    assert(!any_holds(v@, input));
    assert(holds(Condition::Compound(CompoundCheckCondition::All(v)), input) == all_hold(v@, input));
    assert(holds(Condition::Compound(CompoundCheckCondition::Any(v)), input) == any_holds(v@, input));
}

/// `Not` of `All` is met exactly when some condition of the list is not met (De Morgan).
pub proof fn law_not_all_iff_some_fails<S: AnySingleCondition>(v: Vec<Condition<S>>, input: S::Input<'_>)
    ensures
        holds(
            Condition::Compound(CompoundCheckCondition::Not(Box::new(Condition::Compound(CompoundCheckCondition::All(v))))),
            input,
        ) <==> exists|i: int| 0 <= i < v@.len() && !#[trigger] holds(v@[i], input),
{
    lemma_all_hold(v@, input);
    let all = Condition::Compound(CompoundCheckCondition::All(v));
    assert(holds(all, input) == all_hold(v@, input));
    assert(holds(Condition::Compound(CompoundCheckCondition::Not(Box::new(all))), input) == !holds(all, input));
}

/// `all_hold` means that each condition holds.
pub proof fn lemma_all_hold<S: AnySingleCondition>(s: Seq<Condition<S>>, input: S::Input<'_>)
    ensures
        all_hold(s, input) <==> forall|i: int| 0 <= i < s.len() ==> #[trigger] holds(s[i], input),
    decreases s.len(),
{
    if s.len() > 0 {
        lemma_all_hold(s.drop_first(), input);
        assert(all_hold(s, input) == (holds(s[0], input) && all_hold(s.drop_first(), input)));
        if all_hold(s, input) {
            assert forall|i: int| 0 <= i < s.len() implies #[trigger] holds(s[i], input) by {
                if i > 0 {
                    assert(s.drop_first()[i - 1] == s[i]);
                }
            }
        }
        if forall|i: int| 0 <= i < s.len() ==> #[trigger] holds(s[i], input) {
            assert forall|i: int| 0 <= i < s.drop_first().len() implies #[trigger] holds(s.drop_first()[i], input) by {
                assert(s.drop_first()[i] == s[i + 1]);
            }
        }
    }
}

/// `any_holds` means that some condition holds.
pub proof fn lemma_any_holds<S: AnySingleCondition>(s: Seq<Condition<S>>, input: S::Input<'_>)
    ensures
        any_holds(s, input) <==> exists|i: int| 0 <= i < s.len() && #[trigger] holds(s[i], input),
    decreases s.len(),
{
    if s.len() > 0 {
        lemma_any_holds(s.drop_first(), input);
        assert(any_holds(s, input) == (holds(s[0], input) || any_holds(s.drop_first(), input)));
        if any_holds(s, input) {
            if !holds(s[0], input) {
                let i = choose|i: int| 0 <= i < s.drop_first().len() && #[trigger] holds(s.drop_first()[i], input);
                assert(s.drop_first()[i] == s[i + 1]);
            }
        }
        if exists|i: int| 0 <= i < s.len() && #[trigger] holds(s[i], input) {
            let i = choose|i: int| 0 <= i < s.len() && #[trigger] holds(s[i], input);
            if i > 0 {
                assert(s.drop_first()[i - 1] == s[i]);
            }
        }
    }
}

/// The first line is the line at position 0 from the start, the last line the line at position
/// 0 from the end; counting from the end is counting from the start in the other direction.
pub proof fn law_selectors_agree(len: int, n: u16)
    requires
        len >= 0,
    ensures
        Selector::FirstLine.target(len) == (Selector::NthLineFromStart { n: 0 }).target(len),
        Selector::LastLine.target(len) == (Selector::NthLineFromEnd { n: 0 }).target(len),
        n < len ==> (Selector::NthLineFromEnd { n }).target(len) == Some(len - 1 - n),
        n < len ==> (Selector::NthLineFromStart { n }).target(len) == Some(n as int),
        len > 0 ==> Selector::FirstLine.target(len) == Some(0int),
        len > 0 ==> Selector::LastLine.target(len) == Some(len - 1),
        (Selector::NthLineFromStart { n }).target(len) is Some <==> n < len,
        (Selector::NthLineFromEnd { n }).target(len) is Some <==> n < len,
{
}

/// A text that equals the expected text is also contained in it and contains it, and is one of
/// any list of options that holds the expected text.
pub proof fn law_equal_text_is_contained(v: SValueView, other: String, table: Seq<crate::output::FloatComparison>)
    requires
        (Criterion::EqualTexts { other }).accepts(v, table),
    ensures
        (Criterion::Contains { text: other }).accepts(v, table),
        (Criterion::ContainedIn { text: other }).accepts(v, table),
{
    let t = v.spec_text();
    assert(t.subrange(0, 0 + other@.len() as int) =~= other@);
    assert(other@.subrange(0, 0 + t.len() as int) =~= t);
    assert(contains(t, other@));
    assert(contains(other@, t));
}

/// Trimming twice trims no more than trimming once.
pub proof fn law_trim_idempotent(s: Seq<char>)
    ensures
        trim(trim(s)) == trim(s),
{
    lemma_trim_start_of_trimmed(s);
    lemma_trim_end_idempotent(trim_start(s));
}

/// A text without leading whitespace keeps that property when its end is trimmed.
proof fn lemma_trim_start_of_trimmed(s: Seq<char>)
    ensures
        trim_start(trim(s)) == trim(s),
{
    lemma_trim_start_result(s);
    lemma_trim_end_keeps_start(trim_start(s));
}

/// After `trim_start`, the first character is not whitespace.
proof fn lemma_trim_start_result(s: Seq<char>)
    ensures
        trim_start(s).len() > 0 ==> !char_is_whitespace(trim_start(s)[0]),
    decreases s.len(),
{
    if s.len() > 0 && char_is_whitespace(s[0]) {
        lemma_trim_start_result(s.drop_first());
    }
}

/// `trim_end` gives a prefix of its argument, and keeps a non-whitespace first character.
proof fn lemma_trim_end_keeps_start(s: Seq<char>)
    requires
        s.len() > 0 ==> !char_is_whitespace(s[0]),
    ensures
        trim_start(trim_end(s)) == trim_end(s),
    decreases s.len(),
{
    if s.len() > 0 && char_is_whitespace(s.last()) {
        lemma_trim_end_keeps_start(s.drop_last());
    }
}

/// Trimming the end twice trims no more than once.
proof fn lemma_trim_end_idempotent(s: Seq<char>)
    ensures
        trim_end(trim_end(s)) == trim_end(s),
    decreases s.len(),
{
    if s.len() > 0 && char_is_whitespace(s.last()) {
        lemma_trim_end_idempotent(s.drop_last());
    }
}

/// Upper-casing a concatenation upper-cases each part.
pub proof fn law_uppercase_concat(a: Seq<char>, b: Seq<char>)
    ensures
        uppercase(a + b) == uppercase(a) + uppercase(b),
    decreases b.len(),
{
    if b.len() == 0 {
        assert(a + b =~= a);
        assert(uppercase(b) =~= Seq::<char>::empty());
        assert(uppercase(a) + uppercase(b) =~= uppercase(a));
    } else {
        law_uppercase_concat(a, b.drop_last());
        assert((a + b).drop_last() =~= a + b.drop_last());
        assert((a + b).last() == b.last());
        assert(uppercase(a) + uppercase(b) =~= uppercase(a) + uppercase(b.drop_last()) + crate::text::char_to_uppercase(b.last()));
    }
}

/// A block count limit is met exactly when the program has at most `max` blocks of the opcode.
pub proof fn law_block_count_limit(opcode: BlockKind, max: u16, doc: &ProjectBlocks)
    ensures
        holds(Condition::Single(LintCondition::BlockCountLimit { opcode, max }), doc)
            <==> opcode_count(doc.blocks@, opcode.opcode@) <= max,
{
}

/// Without transformations the criterion sees the selected value itself; one more
/// transformation at the end is applied to what the others gave.
pub proof fn law_pipeline_extends(ts: Seq<Transformation>, t: Transformation, v: SValueView)
    ensures
        pipeline(Seq::empty(), v, 0) == Ok::<SValueView, (crate::transformation::TransformationError, SValueView, int)>(v),
        pipeline(ts.push(t), v, 0) == match pipeline(ts, v, 0) {
            Ok(w) => match t.apply(w) {
                Ok(x) => Ok(x),
                Err(e) => Err((e, w, ts.len() as int)),
            },
            Err(f) => Err(f),
        },
{
    lemma_pipeline_push(ts, t, v, 0);
}

/// Running `ts.push(t)` from position `i` is running `ts` from `i` and then `t`.
proof fn lemma_pipeline_push(ts: Seq<Transformation>, t: Transformation, v: SValueView, i: int)
    requires
        0 <= i <= ts.len(),
    ensures
        pipeline(ts.push(t), v, i) == match pipeline(ts, v, i) {
            Ok(w) => match t.apply(w) {
                Ok(x) => Ok(x),
                Err(e) => Err((e, w, ts.len() as int)),
            },
            Err(f) => Err(f),
        },
    decreases ts.len() - i,
{
    let us = ts.push(t);
    if i < ts.len() {
        assert(us[i] == ts[i]);
        match ts[i].apply(v) {
            Ok(w) => {
                lemma_pipeline_push(ts, t, w, i + 1);
            },
            Err(e) => {},
        }
    } else {
        assert(us[i] == t);
        match t.apply(v) {
            Ok(w) => {
                assert(pipeline(us, w, i + 1) == Ok::<SValueView, (crate::transformation::TransformationError, SValueView, int)>(w));
            },
            Err(e) => {},
        }
    }
}

/// One option is the same criterion as one expected text.
pub proof fn law_one_option_is_equal_text(
    v: SValueView,
    options: Vec<String>,
    other: String,
    table: Seq<crate::output::FloatComparison>,
)
    requires
        options@.len() == 1,
        options@[0]@ == other@,
    ensures
        (Criterion::OneOf { options }).accepts(v, table) <==> (Criterion::EqualTexts { other }).accepts(v, table),
{
    let texts = crate::criterion::option_texts(options@);
    assert(texts[0] == other@);
    if texts.contains(v.spec_text()) {
        let i = choose|i: int| 0 <= i < texts.len() && texts[i] == v.spec_text();
        assert(i == 0);
    }
}

/// The number that a criterion sees after the transformations is the selected value itself or
/// the 0 or 1 made of a boolean.
pub proof fn law_compared_numbers_are_candidates(ts: Seq<Transformation>, v: SValueView, i: int)
    requires
        0 <= i,
    ensures
        match pipeline(ts, v, i) {
            Ok(w) => match number_view(w) {
                Some(n) => is_candidate(v, n),
                None => true,
            },
            Err(_) => true,
        },
    decreases ts.len() - i,
{
    if 0 <= i < ts.len() {
        match ts[i].apply(v) {
            Ok(w) => {
                law_compared_numbers_are_candidates(ts, w, i + 1);
            },
            Err(_) => {},
        }
    }
}


/// When the transformations fail, the error is that of the first one that fails: the ones
/// before it all succeeded and gave it its input, and the ones after it are not applied.
pub proof fn law_pipeline_stops_at_first_failure(ts: Seq<Transformation>, v: SValueView, i: int)
    requires
        0 <= i <= ts.len(),
    ensures
        match pipeline(ts, v, i) {
            Err((e, x, k)) => {
                &&& i <= k < ts.len()
                &&& ts[k].apply(x) == Err::<SValueView, crate::transformation::TransformationError>(e)
                &&& pipeline(ts.take(k), v, i) == Ok::<SValueView, (crate::transformation::TransformationError, SValueView, int)>(x)
            },
            Ok(_) => true,
        },
    decreases ts.len() - i,
{
    if i < ts.len() {
        match ts[i].apply(v) {
            Ok(w) => {
                law_pipeline_stops_at_first_failure(ts, w, i + 1);
                if let Err((e, x, k)) = pipeline(ts, w, i + 1) {
                    assert(ts.take(k)[i] == ts[i]);
                    assert(pipeline(ts.take(k), v, i) == pipeline(ts.take(k), w, i + 1));
                }
            },
            Err(e) => {
                assert(ts.take(i).len() == i);
            },
        }
    }
}

/// A single check is not met when the selector finds no value or a transformation fails (the
/// first failing one, on what the earlier ones gave); otherwise the criterion decides on the
/// value that the last transformation gave.
pub proof fn law_single_check_outcome(c: SingleCheckCondition, input: &ProgramOutput)
    ensures
        match c.selected(input) {
            None => !c.satisfied_by(input),
            Some(v) => match pipeline(c.transformations@, v, 0) {
                Err((e, x, k)) => {
                    &&& !c.satisfied_by(input)
                    &&& 0 <= k < c.transformations@.len()
                    &&& c.transformations@[k].apply(x) == Err::<SValueView, crate::transformation::TransformationError>(e)
                    &&& pipeline(c.transformations@.take(k), v, 0)
                        == Ok::<SValueView, (crate::transformation::TransformationError, SValueView, int)>(x)
                },
                Ok(w) => c.satisfied_by(input) == c.criterion.accepts(w, input.float_comparisons@),
            },
        },
{
    if let Some(v) = c.selected(input) {
        law_pipeline_stops_at_first_failure(c.transformations@, v, 0);
    }
}

/// Selecting the line at position 0 from the end is selecting the last line, and the line at
/// position 0 from the start is the first line, whatever the transformations and criterion.
pub proof fn law_selector_aliases(ts: Vec<Transformation>, cr: Criterion, input: &ProgramOutput)
    ensures
        (SingleCheckCondition { select: Selector::NthLineFromEnd { n: 0 }, transformations: ts, criterion: cr }).satisfied_by(input)
            == (SingleCheckCondition { select: Selector::LastLine, transformations: ts, criterion: cr }).satisfied_by(input),
        (SingleCheckCondition { select: Selector::NthLineFromStart { n: 0 }, transformations: ts, criterion: cr }).satisfied_by(input)
            == (SingleCheckCondition { select: Selector::FirstLine, transformations: ts, criterion: cr }).satisfied_by(input),
{
}

/// The verdict of a criterion depends only on the value it judges and the float comparisons
/// that the output records.
pub proof fn law_criterion_verdict_depends_on_value(c: Criterion, v: SValueView, a: &ProgramOutput, b: &ProgramOutput)
    requires
        a.float_comparisons@ == b.float_comparisons@,
    ensures
        c.accepts(v, a.float_comparisons@) == c.accepts(v, b.float_comparisons@),
{
}

/// When `Any` fails, its error lists, in order, the error of every one of its conditions, none
/// of which is met.
pub proof fn law_any_failure_lists_each<'s, S: AnySingleCondition>(
    v: Vec<Condition<S>>,
    input: S::Input<'_>,
    e: ConditionError<'s, S>,
)
    requires
        fails_with(Condition::Compound(CompoundCheckCondition::Any(v)), input, e),
    ensures
        e matches ConditionError::NoneOfAny(errs) && errs@.len() == v@.len() && forall|i: int|
            0 <= i < v@.len() ==> !holds(#[trigger] v@[i], input) && fails_with(v@[i], input, errs@[i]),
{
    if let ConditionError::NoneOfAny(errs) = e {
        lemma_each_fails_with(v@, input, errs@);
    }
}

/// `each_fails_with` pairs each condition with its error.
proof fn lemma_each_fails_with<'s, S: AnySingleCondition>(
    s: Seq<Condition<S>>,
    input: S::Input<'_>,
    errs: Seq<ConditionError<'s, S>>,
)
    requires
        each_fails_with(s, input, errs),
    ensures
        errs.len() == s.len(),
        forall|i: int| 0 <= i < s.len() ==> !holds(#[trigger] s[i], input) && fails_with(s[i], input, errs[i]),
    decreases s.len(),
{
    if s.len() > 0 {
        lemma_each_fails_with(s.drop_last(), input, errs.drop_last());
        assert forall|i: int| 0 <= i < s.len() implies !holds(#[trigger] s[i], input) && fails_with(s[i], input, errs[i]) by {
            if i < s.len() - 1 {
                assert(s.drop_last()[i] == s[i]);
                assert(errs.drop_last()[i] == errs[i]);
            }
        }
    }
}

/// A check selects, as its value, the printed line at the position its selector names: the
/// `n`-th line counted from 0 at the start, the `n`-th counted from 0 at the end, the first or
/// the last; there is no value when the output has too few lines.
pub proof fn law_selected_line(c: SingleCheckCondition, input: &ProgramOutput)
    ensures
        match c.select {
            Selector::NthLineFromStart { n } => if n < input.lines@.len() {
                c.selected(input) == Some(input.lines@[n as int]@)
            } else {
                c.selected(input) is None
            },
            Selector::NthLineFromEnd { n } => if n < input.lines@.len() {
                c.selected(input) == Some(input.lines@[input.lines@.len() - 1 - n]@)
            } else {
                c.selected(input) is None
            },
            Selector::FirstLine => if input.lines@.len() > 0 {
                c.selected(input) == Some(input.lines@[0]@)
            } else {
                c.selected(input) is None
            },
            Selector::LastLine => if input.lines@.len() > 0 {
                c.selected(input) == Some(input.lines@[input.lines@.len() - 1]@)
            } else {
                c.selected(input) is None
            },
        },
{
}

/// One-of accepts a value exactly when the value's text equals one of the options, whichever
/// position it has in the list.
pub proof fn law_one_of_accepts_any_listed_option(
    options: Vec<String>,
    v: SValueView,
    table: Seq<crate::output::FloatComparison>,
)
    ensures
        (Criterion::OneOf { options }).accepts(v, table)
            <==> exists|i: int| 0 <= i < options@.len() && (#[trigger] options@[i])@ == v.spec_text(),
{
    let texts = crate::criterion::option_texts(options@);
    if texts.contains(v.spec_text()) {
        let i = choose|i: int| 0 <= i < texts.len() && texts[i] == v.spec_text();
        assert(options@[i]@ == v.spec_text());
    }
    if exists|i: int| 0 <= i < options@.len() && (#[trigger] options@[i])@ == v.spec_text() {
        let i = choose|i: int| 0 <= i < options@.len() && (#[trigger] options@[i])@ == v.spec_text();
        assert(texts[i] == v.spec_text());
    }
}

/// Extracting the single number leaves a printed integer or float as it is, and turns a
/// boolean into 1 or 0.
pub proof fn law_extract_keeps_numbers(v: SValueView)
    ensures
        v is Int ==> Transformation::ExtractSingleNumber.apply(v) == Ok::<SValueView, crate::transformation::TransformationError>(v),
        v is Float ==> Transformation::ExtractSingleNumber.apply(v) == Ok::<SValueView, crate::transformation::TransformationError>(v),
        v == SValueView::Bool(true) ==> Transformation::ExtractSingleNumber.apply(v)
            == Ok::<SValueView, crate::transformation::TransformationError>(SValueView::Int(1)),
        v == SValueView::Bool(false) ==> Transformation::ExtractSingleNumber.apply(v)
            == Ok::<SValueView, crate::transformation::TransformationError>(SValueView::Int(0)),
{
}

/// The text that criteria and text transformations read of a printed float is the float's
/// `Display` text (not its `Debug` rendering); of a text, the text itself; of a boolean,
/// `true` or `false`.
pub proof fn law_float_text_is_its_display(f: FloatNum, t: String, other: String, table: Seq<crate::output::FloatComparison>)
    ensures
        SValue::Float(f)@.spec_text() == f.display@,
        SValue::Text(t)@.spec_text() == t@,
        SValueView::Bool(true).spec_text() == seq!['t', 'r', 'u', 'e'],
        SValueView::Bool(false).spec_text() == seq!['f', 'a', 'l', 's', 'e'],
        (Criterion::EqualTexts { other }).accepts(SValue::Float(f)@, table) <==> f.display@ == other@,
{
    reveal_strlit("true");
    reveal_strlit("false");
}

/// `s` is one of the single conditions that `c` is built from, at any depth under `All`, `Any`
/// and `Not`.
pub open spec fn single_occurs(c: Condition<SingleCheckCondition>, s: SingleCheckCondition) -> bool
    decreases c,
{
    match c {
        Condition::Single(x) => x == s,
        Condition::Compound(CompoundCheckCondition::All(v)) => single_occurs_in(v@, s),
        Condition::Compound(CompoundCheckCondition::Any(v)) => single_occurs_in(v@, s),
        Condition::Compound(CompoundCheckCondition::Not(b)) => single_occurs(*b, s),
    }
}

/// `s` is one of the single conditions that some condition of `list` is built from.
pub open spec fn single_occurs_in(list: Seq<Condition<SingleCheckCondition>>, s: SingleCheckCondition) -> bool
    decreases list,
{
    if list.len() == 0 {
        false
    } else {
        single_occurs(list.last(), s) || single_occurs_in(list.drop_last(), s)
    }
}

/// Every number criterion of a condition, wherever it stands under `All`, `Any` and `Not`, is
/// among the criteria whose float comparisons are asked for.
pub proof fn law_every_number_criterion_is_collected(c: Condition<SingleCheckCondition>, s: SingleCheckCondition)
    ensures
        match s.criterion {
            Criterion::EqualNumbers { other, float_tolerance } =>
                single_occurs(c, s) ==> condition_criteria(c).contains((other, float_tolerance)),
            _ => true,
        },
    decreases c,
{
    if let Criterion::EqualNumbers { other, float_tolerance } = s.criterion {
        if single_occurs(c, s) {
            match c {
                Condition::Single(x) => {
                    assert(condition_criteria(c)[0] == (other, float_tolerance));
                },
                Condition::Compound(CompoundCheckCondition::All(v)) => {
                    lemma_number_criterion_in_list(v@, s);
                },
                Condition::Compound(CompoundCheckCondition::Any(v)) => {
                    lemma_number_criterion_in_list(v@, s);
                },
                Condition::Compound(CompoundCheckCondition::Not(b)) => {
                    law_every_number_criterion_is_collected(*b, s);
                },
            }
        }
    }
}

/// The list form of `law_every_number_criterion_is_collected`.
proof fn lemma_number_criterion_in_list(list: Seq<Condition<SingleCheckCondition>>, s: SingleCheckCondition)
    ensures
        match s.criterion {
            Criterion::EqualNumbers { other, float_tolerance } =>
                single_occurs_in(list, s) ==> conditions_criteria(list).contains((other, float_tolerance)),
            _ => true,
        },
    decreases list,
{
    if let Criterion::EqualNumbers { other, float_tolerance } = s.criterion {
        if single_occurs_in(list, s) {
            let pair = (other, float_tolerance);
            let front = conditions_criteria(list.drop_last());
            let back = condition_criteria(list.last());
            assert(conditions_criteria(list) == front + back);
            if single_occurs(list.last(), s) {
                law_every_number_criterion_is_collected(list.last(), s);
                let j = choose|j: int| 0 <= j < back.len() && back[j] == pair;
                assert((front + back)[front.len() + j] == pair);
            } else {
                lemma_number_criterion_in_list(list.drop_last(), s);
                let j = choose|j: int| 0 <= j < front.len() && front[j] == pair;
                assert((front + back)[j] == pair);
            }
        }
    }
}

/// Every number criterion of every check, wherever it stands in the check's condition, is among
/// the criteria whose float comparisons `float_queries` asks for.
pub proof fn law_every_number_criterion_of_the_checks_is_collected(
    checks: Seq<TestCaseCheck>,
    k: int,
    s: SingleCheckCondition,
)
    requires
        0 <= k < checks.len(),
    ensures
        match s.criterion {
            Criterion::EqualNumbers { other, float_tolerance } =>
                single_occurs(checks[k].condition, s) ==> checks_criteria(checks).contains((other, float_tolerance)),
            _ => true,
        },
    decreases checks.len(),
{
    if let Criterion::EqualNumbers { other, float_tolerance } = s.criterion {
        if single_occurs(checks[k].condition, s) {
            let pair = (other, float_tolerance);
            let front = checks_criteria(checks.drop_last());
            let back = condition_criteria(checks.last().condition);
            assert(checks_criteria(checks) == front + back);
            if k == checks.len() - 1 {
                law_every_number_criterion_is_collected(checks.last().condition, s);
                let j = choose|j: int| 0 <= j < back.len() && back[j] == pair;
                assert((front + back)[front.len() + j] == pair);
            } else {
                assert(checks.drop_last()[k] == checks[k]);
                law_every_number_criterion_of_the_checks_is_collected(checks.drop_last(), k, s);
                let j = choose|j: int| 0 <= j < front.len() && front[j] == pair;
                assert((front + back)[j] == pair);
            }
        }
    }
}

/// `needle` occurs in `hay` exactly when `hay` is some text, then `needle`, then some text.
proof fn lemma_contains_as_concat(hay: Seq<char>, needle: Seq<char>)
    ensures
        contains(hay, needle) <==> exists|a: Seq<char>, b: Seq<char>| hay == a + needle + b,
{
    if contains(hay, needle) {
        let k = choose|k: int| 0 <= k <= hay.len() - needle.len() && #[trigger] hay.subrange(k, k + needle.len()) == needle;
        let a = hay.subrange(0, k);
        let b = hay.subrange(k + needle.len(), hay.len() as int);
        assert(hay =~= a + needle + b);
    }
    if exists|a: Seq<char>, b: Seq<char>| hay == a + needle + b {
        let (a, b) = choose|a: Seq<char>, b: Seq<char>| hay == a + needle + b;
        assert(hay.subrange(a.len() as int, a.len() + needle.len() as int) =~= needle);
    }
}

/// `Contains` accepts a value whose text is some text, then the expected text, then some text;
/// `ContainedIn` accepts a value whose text stands so inside the given text.
pub proof fn law_containment(v: SValueView, text: String, table: Seq<crate::output::FloatComparison>)
    ensures
        (Criterion::Contains { text }).accepts(v, table)
            <==> exists|a: Seq<char>, b: Seq<char>| v.spec_text() == a + text@ + b,
        (Criterion::ContainedIn { text }).accepts(v, table)
            <==> exists|a: Seq<char>, b: Seq<char>| text@ == a + v.spec_text() + b,
{
    lemma_contains_as_concat(v.spec_text(), text@);
    lemma_contains_as_concat(text@, v.spec_text());
}

/// Without a tolerance, a printed integer equals an integer exactly when the two are the same
/// integer, whatever float comparisons are recorded; a value that is not printed as a number
/// never equals a number.
pub proof fn law_equal_integers(a: i64, b: i64, t: Seq<char>, other: crate::value::Number, table: Seq<crate::output::FloatComparison>)
    ensures
        (Criterion::EqualNumbers { other: crate::value::Number::Int(b), float_tolerance: None }).accepts(SValueView::Int(a), table)
            <==> a == b,
        !(Criterion::EqualNumbers { other, float_tolerance: None }).accepts(SValueView::Text(t), table),
{
}

/// Upper-casing maps each character by its upper-case mapping: a single character becomes its
/// mapping, the empty text stays empty, and a text is the concatenation of its characters'
/// mappings, in order.
pub proof fn law_uppercase_by_character(c: char, a: Seq<char>, b: Seq<char>)
    ensures
        uppercase(seq![c]) == crate::text::char_to_uppercase(c),
        uppercase(Seq::<char>::empty()) == Seq::<char>::empty(),
        uppercase(a + b) == uppercase(a) + uppercase(b),
{
    let one = seq![c];
    assert(one.len() == 1);
    assert(one.drop_last() =~= Seq::<char>::empty());
    assert(one.last() == c);
    assert(uppercase(Seq::<char>::empty()) == Seq::<char>::empty());
    assert(uppercase(one) == uppercase(one.drop_last()) + crate::text::char_to_uppercase(one.last()));
    assert(uppercase(one) =~= crate::text::char_to_uppercase(c));
    law_uppercase_concat(a, b);
}

/// `trim_start` drops exactly the leading whitespace.
proof fn lemma_trim_start_shape(s: Seq<char>) -> (i: int)
    ensures
        0 <= i <= s.len(),
        trim_start(s) == s.skip(i),
        forall|k: int| 0 <= k < i ==> char_is_whitespace(#[trigger] s[k]),
        i < s.len() ==> !char_is_whitespace(s[i]),
    decreases s.len(),
{
    if s.len() > 0 && char_is_whitespace(s[0]) {
        let j = lemma_trim_start_shape(s.drop_first());
        assert(s.drop_first().skip(j) =~= s.skip(j + 1));
        assert forall|k: int| 0 <= k < j + 1 implies char_is_whitespace(#[trigger] s[k]) by {
            if k > 0 {
                assert(s[k] == s.drop_first()[k - 1]);
            }
        }
        if j + 1 < s.len() {
            assert(s[j + 1] == s.drop_first()[j]);
        }
        j + 1
    } else {
        assert(s.skip(0) =~= s);
        0
    }
}

/// `trim_end` drops exactly the trailing whitespace.
proof fn lemma_trim_end_shape(s: Seq<char>) -> (j: int)
    ensures
        0 <= j <= s.len(),
        trim_end(s) == s.take(j),
        forall|k: int| j <= k < s.len() ==> char_is_whitespace(#[trigger] s[k]),
        j > 0 ==> !char_is_whitespace(s[j - 1]),
    decreases s.len(),
{
    if s.len() > 0 && char_is_whitespace(s.last()) {
        let j = lemma_trim_end_shape(s.drop_last());
        assert(s.drop_last().take(j) =~= s.take(j));
        assert forall|k: int| j <= k < s.len() implies char_is_whitespace(#[trigger] s[k]) by {
            if k < s.len() - 1 {
                assert(s[k] == s.drop_last()[k]);
            }
        }
        if j > 0 {
            assert(s[j - 1] == s.drop_last()[j - 1]);
        }
        j
    } else {
        assert(s.take(s.len() as int) =~= s);
        s.len() as int
    }
}

/// Trimming removes exactly the whitespace at both ends: what remains is a contiguous part of
/// the text, everything removed before and after it is whitespace, and it neither starts nor
/// ends with whitespace.
pub proof fn law_trim_removes_exactly_the_outer_whitespace(s: Seq<char>)
    ensures
        exists|i: int, j: int| {
            &&& 0 <= i <= j <= s.len()
            &&& trim(s) == s.subrange(i, j)
            &&& forall|k: int| 0 <= k < i ==> char_is_whitespace(#[trigger] s[k])
            &&& forall|k: int| j <= k < s.len() ==> char_is_whitespace(#[trigger] s[k])
        },
        trim(s).len() > 0 ==> !char_is_whitespace(trim(s)[0]) && !char_is_whitespace(trim(s).last()),
{
    let i = lemma_trim_start_shape(s);
    let t = s.skip(i);
    let j = lemma_trim_end_shape(t);
    assert(trim(s) == t.take(j));
    assert(t.take(j) =~= s.subrange(i, i + j));
    assert forall|k: int| i + j <= k < s.len() implies char_is_whitespace(#[trigger] s[k]) by {
        assert(s[k] == t[k - i]);
    }
    assert(exists|i2: int, j2: int| {
        &&& 0 <= i2 <= j2 <= s.len()
        &&& trim(s) == s.subrange(i2, j2)
        &&& forall|k: int| 0 <= k < i2 ==> char_is_whitespace(#[trigger] s[k])
        &&& forall|k: int| j2 <= k < s.len() ==> char_is_whitespace(#[trigger] s[k])
    }) by {
        assert(trim(s) == s.subrange(i, i + j));
    }
    if trim(s).len() > 0 {
        assert(trim(s)[0] == t[0]);
        assert(trim(s).last() == t[j - 1]);
    }
}

/// Extracting the number from a printed text gives the one number the text holds, as text; an
/// error names whether there was none or more than one.
pub proof fn law_extract_from_text(t: Seq<char>)
    requires
        crate::pattern::regex_accepts(crate::transformation::number_pattern()),
    ensures
        ({
            let found = crate::pattern::regex_matches(crate::transformation::number_pattern(), t);
            let r = Transformation::ExtractSingleNumber.apply(SValueView::Text(t));
            &&& found.len() == 0 ==> r == Err::<SValueView, crate::transformation::TransformationError>(
                crate::transformation::TransformationError::DidntFindNumber)
            &&& found.len() == 1 ==> r == Ok::<SValueView, crate::transformation::TransformationError>(SValueView::Text(found[0]))
            &&& found.len() > 1 ==> r == Err::<SValueView, crate::transformation::TransformationError>(
                crate::transformation::TransformationError::AmbiguousChoiceForNumber)
        }),
{
}

/// When `All` fails, its error is that of the first of its conditions that is not met: all the
/// ones before it are met.
pub proof fn law_all_failure_is_first_failure<'s, S: AnySingleCondition>(
    v: Vec<Condition<S>>,
    input: S::Input<'_>,
    e: ConditionError<'s, S>,
)
    requires
        fails_with(Condition::Compound(CompoundCheckCondition::All(v)), input, e),
    ensures
        e matches ConditionError::NotAll(inner) && exists|i: int| {
            &&& 0 <= i < v@.len()
            &&& !holds(#[trigger] v@[i], input)
            &&& fails_with(v@[i], input, *inner)
            &&& forall|j: int| 0 <= j < i ==> holds(#[trigger] v@[j], input)
        },
{
    if let ConditionError::NotAll(inner) = e {
        let i = lemma_first_failure(v@, input, *inner);
    }
}

/// `first_failure` names the first condition that is not met.
proof fn lemma_first_failure<'s, S: AnySingleCondition>(
    s: Seq<Condition<S>>,
    input: S::Input<'_>,
    e: ConditionError<'s, S>,
) -> (i: int)
    requires
        crate::conditions::first_failure(s, input, e),
    ensures
        0 <= i < s.len(),
        !holds(s[i], input),
        fails_with(s[i], input, e),
        forall|j: int| 0 <= j < i ==> holds(#[trigger] s[j], input),
    decreases s.len(),
{
    if holds(s[0], input) {
        let k = lemma_first_failure(s.drop_first(), input, e);
        assert(s[k + 1] == s.drop_first()[k]);
        assert forall|j: int| 0 <= j < k + 1 implies holds(#[trigger] s[j], input) by {
            if j > 0 {
                assert(s[j] == s.drop_first()[j - 1]);
            }
        }
        k + 1
    } else {
        0
    }
}

/// The number of blocks with an opcode is the length of the list of those blocks.
pub proof fn law_opcode_count_counts_matching_blocks(blocks: Seq<crate::lints::Block>, opcode: Seq<char>)
    ensures
        opcode_count(blocks, opcode) == blocks.filter(|b: crate::lints::Block| b.opcode@ == opcode).len(),
    decreases blocks.len(),
{
    reveal(Seq::filter);
    if blocks.len() > 0 {
        law_opcode_count_counts_matching_blocks(blocks.drop_last(), opcode);
    }
}
} // verus!
