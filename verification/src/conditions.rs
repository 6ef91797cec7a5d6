//! Boolean combinations (`All`, `Any`, `Not`) of single conditions and their evaluation.
use vstd::prelude::*;
use crate::render::{DebugText, list_text, push_list};
use crate::text::{debug_str, str_debug};

verus! {

/// A failure that can be explained to a human in one line of text.
pub trait ExplainableFailure {
    /// Whether the failure can be explained: it refers only to parts that exist.
    spec fn explainable(&self) -> bool;

    /// The text that `explain` returns.
    spec fn explanation(&self) -> Seq<char>;

    fn explain(&self) -> (r: String)
        requires
            self.explainable(),
        ensures
            r@ == self.explanation(),
    ;
}

/// A condition that is not composed of other conditions.
pub trait AnySingleCondition: Sized {
    type Error<'s>: ExplainableFailure where Self: 's;

    type Input<'i>: Copy;

    /// Whether the condition is met on `input`.
    spec fn satisfied_by(&self, input: Self::Input<'_>) -> bool;

    /// Whether `e` is the error that `check` reports on `input`.
    spec fn fails_with<'s>(&self, input: Self::Input<'_>, e: Self::Error<'s>) -> bool where Self: 's;

    fn check<'s>(&'s self, input: Self::Input<'_>) -> (r: Result<(), Self::Error<'s>>)
        ensures
            r is Ok <==> self.satisfied_by(input),
            r matches Err(e) ==> self.fails_with(input, e) && e.explainable(),
    ;
}

pub enum Condition<Single> {
    Compound(CompoundCheckCondition<Single>),
    Single(Single),
}

pub enum CompoundCheckCondition<Single> {
    All(Vec<Condition<Single>>),
    Any(Vec<Condition<Single>>),
    Not(Box<Condition<Single>>),
}

pub enum ConditionError<'s, Single: AnySingleCondition> {
    Single(Single::Error<'s>),
    /// `Any` was called without any successful conditions
    NoneOfAny(Vec<ConditionError<'s, Single>>),
    /// at least one condition of `All` failed
    NotAll(Box<ConditionError<'s, Single>>),
    /// the part inside `Not` succeeded
    ArgumentOfNotSucceeded(&'s Condition<Single>),
}

/// Whether condition `c` is met on `input`.
pub open spec fn holds<S: AnySingleCondition>(c: Condition<S>, input: S::Input<'_>) -> bool
    decreases c,
{
    match c {
        Condition::Compound(CompoundCheckCondition::All(v)) => all_hold(v@, input),
        Condition::Compound(CompoundCheckCondition::Any(v)) => any_holds(v@, input),
        Condition::Compound(CompoundCheckCondition::Not(b)) => !holds(*b, input),
        Condition::Single(s) => s.satisfied_by(input),
    }
}

/// Every condition of `s` is met.
pub open spec fn all_hold<S: AnySingleCondition>(s: Seq<Condition<S>>, input: S::Input<'_>) -> bool
    decreases s,
{
    if s.len() == 0 {
        true
    } else {
        holds(s[0], input) && all_hold(s.drop_first(), input)
    }
}

/// Some condition of `s` is met.
pub open spec fn any_holds<S: AnySingleCondition>(s: Seq<Condition<S>>, input: S::Input<'_>) -> bool
    decreases s,
{
    if s.len() == 0 {
        false
    } else {
        holds(s[0], input) || any_holds(s.drop_first(), input)
    }
}

/// `e` is the error that the evaluation of `c` on `input` reports.
pub open spec fn fails_with<'s, S: AnySingleCondition>(
    c: Condition<S>,
    input: S::Input<'_>,
    e: ConditionError<'s, S>,
) -> bool
    decreases c,
{
    match c {
        Condition::Compound(CompoundCheckCondition::All(v)) => {
            &&& e matches ConditionError::NotAll(inner)
            &&& first_failure(v@, input, *inner)
        },
        Condition::Compound(CompoundCheckCondition::Any(v)) => {
            &&& e matches ConditionError::NoneOfAny(errs)
            &&& each_fails_with(v@, input, errs@)
        },
        Condition::Compound(CompoundCheckCondition::Not(b)) => {
            &&& holds(*b, input)
            &&& e matches ConditionError::ArgumentOfNotSucceeded(inner)
            &&& *inner == *b
        },
        Condition::Single(s) => {
            &&& e matches ConditionError::Single(se)
            &&& s.fails_with(input, se)
        },
    }
}

/// `e` is the error of the first condition of `s` that is not met.
pub open spec fn first_failure<'s, S: AnySingleCondition>(
    s: Seq<Condition<S>>,
    input: S::Input<'_>,
    e: ConditionError<'s, S>,
) -> bool
    decreases s,
{
    if s.len() == 0 {
        false
    } else if holds(s[0], input) {
        first_failure(s.drop_first(), input, e)
    } else {
        fails_with(s[0], input, e)
    }
}

/// `errs` are, in order, the errors of all conditions of `s`, none of which is met.
pub open spec fn each_fails_with<'s, S: AnySingleCondition>(
    s: Seq<Condition<S>>,
    input: S::Input<'_>,
    errs: Seq<ConditionError<'s, S>>,
) -> bool
    decreases s,
{
    if s.len() == 0 {
        errs.len() == 0
    } else {
        &&& errs.len() == s.len()
        &&& !holds(s.last(), input)
        &&& fails_with(s.last(), input, errs.last())
        &&& each_fails_with(s.drop_last(), input, errs.drop_last())
    }
}

impl<S: AnySingleCondition> Condition<S> {
    /// Evaluates the condition on `input`.
    pub fn check<'s>(&'s self, input: S::Input<'_>) -> (r: Result<(), ConditionError<'s, S>>)
        ensures
            r is Ok <==> holds(*self, input),
            r matches Err(e) ==> fails_with(*self, input, e) && error_explainable(e),
        decreases self,
    {
        match self {
            Condition::Compound(CompoundCheckCondition::All(v)) => {
                let mut i: usize = 0;
                assert(v@.skip(0) =~= v@);
                #[verifier::loop_isolation(false)]
                while i < v.len()
                    invariant
                        i <= v@.len(),
                        all_hold(v@, input) == all_hold(v@.skip(i as int), input),
                        forall|e: ConditionError<'s, S>|
                            first_failure(v@, input, e) == first_failure(v@.skip(i as int), input, e),
                    decreases v@.len() - i,
                {
                    proof {
                        assert(decreases_to!(*self => v@[i as int]));
                        assert(v@.skip(i as int).drop_first() =~= v@.skip(i + 1));
                        assert(v@.skip(i as int)[0] == v@[i as int]);
                    }
                    match v[i].check(input) {
                        Ok(()) => {},
                        Err(e) => {
                            assert(first_failure(v@.skip(i as int), input, e));
                            assert(first_failure(v@, input, e));
                            return Err(ConditionError::NotAll(Box::new(e)));
                        },
                    }
                    i += 1;
                }
                Ok(())
            },
            Condition::Compound(CompoundCheckCondition::Any(v)) => {
                let mut i: usize = 0;
                let mut found = false;
                let mut errs: Vec<ConditionError<'s, S>> = Vec::new();
                assert(v@.skip(0) =~= v@);
                assert(v@.take(0) =~= Seq::<Condition<S>>::empty());
                #[verifier::loop_isolation(false)]
                while i < v.len()
                    invariant
                        i <= v@.len(),
                        any_holds(v@, input) == (found || any_holds(v@.skip(i as int), input)),
                        !found ==> each_fails_with(v@.take(i as int), input, errs@),
                        errors_explainable(errs@),
                    decreases v@.len() - i,
                {
                    proof {
                        assert(decreases_to!(*self => v@[i as int]));
                        assert(v@.skip(i as int).drop_first() =~= v@.skip(i + 1));
                        assert(v@.skip(i as int)[0] == v@[i as int]);
                        assert(v@.take(i + 1).drop_last() =~= v@.take(i as int));
                    }
                    match v[i].check(input) {
                        Ok(()) => {
                            found = true;
                        },
                        Err(e) => {
                            let ghost prev = errs@;
                            errs.push(e);
                            proof {
                                assert(errs@.drop_last() =~= prev);
                            }
                        },
                    }
                    i += 1;
                }
                proof {
                    assert(v@.take(v@.len() as int) =~= v@);
                }
                if found {
                    Ok(())
                } else {
                    Err(ConditionError::NoneOfAny(errs))
                }
            },
            Condition::Compound(CompoundCheckCondition::Not(b)) => {
                match b.check(input) {
                    Ok(()) => Err(ConditionError::ArgumentOfNotSucceeded(&**b)),
                    Err(_) => Ok(()),
                }
            },
            Condition::Single(s) => match s.check(input) {
                Ok(()) => Ok(()),
                Err(e) => Err(ConditionError::Single(e)),
            },
        }
    }
}

/// The renderings of the conditions `s`, in order.
pub open spec fn condition_debugs<S: AnySingleCondition + DebugText>(s: Seq<Condition<S>>) -> Seq<Seq<char>>
    decreases s,
{
    if s.len() == 0 {
        Seq::empty()
    } else {
        condition_debugs(s.drop_last()).push(condition_debug(s.last()))
    }
}

/// The rendering of a condition in the `Debug` style.
pub open spec fn condition_debug<S: AnySingleCondition + DebugText>(c: Condition<S>) -> Seq<char>
    decreases c,
{
    match c {
        Condition::Compound(CompoundCheckCondition::All(v)) =>
            "Compound(All("@ + list_text(condition_debugs(v@)) + "))"@,
        Condition::Compound(CompoundCheckCondition::Any(v)) =>
            "Compound(Any("@ + list_text(condition_debugs(v@)) + "))"@,
        Condition::Compound(CompoundCheckCondition::Not(b)) =>
            "Compound(Not("@ + condition_debug(*b) + "))"@,
        Condition::Single(s) => "Single("@ + s.spec_debug() + ")"@,
    }
}

/// The explanations of the errors `s`, in order.
pub open spec fn error_explanations<'s, S: AnySingleCondition + DebugText>(
    s: Seq<ConditionError<'s, S>>,
) -> Seq<Seq<char>>
    decreases s,
{
    if s.len() == 0 {
        Seq::empty()
    } else {
        error_explanations(s.drop_last()).push(error_explanation(s.last()))
    }
}

/// The texts quoted in the `Debug` style.
pub open spec fn quoted(s: Seq<Seq<char>>) -> Seq<Seq<char>> {
    s.map_values(|t: Seq<char>| str_debug(t))
}

/// Whether every single failure inside `e` can be explained.
pub open spec fn error_explainable<'s, S: AnySingleCondition>(e: ConditionError<'s, S>) -> bool
    decreases e,
{
    match e {
        ConditionError::ArgumentOfNotSucceeded(_) => true,
        ConditionError::NotAll(one) => error_explainable(*one),
        ConditionError::NoneOfAny(total) => errors_explainable(total@),
        ConditionError::Single(single) => single.explainable(),
    }
}

/// Whether each of the failures `s` can be explained.
pub open spec fn errors_explainable<'s, S: AnySingleCondition>(s: Seq<ConditionError<'s, S>>) -> bool
    decreases s,
{
    if s.len() == 0 {
        true
    } else {
        errors_explainable(s.drop_last()) && error_explainable(s.last())
    }
}

/// A failure in a list of explainable failures is explainable.
pub proof fn lemma_errors_explainable<'s, S: AnySingleCondition>(s: Seq<ConditionError<'s, S>>, i: int)
    requires
        errors_explainable(s),
        0 <= i < s.len(),
    ensures
        error_explainable(s[i]),
    decreases s.len(),
{
    if i < s.len() - 1 {
        lemma_errors_explainable(s.drop_last(), i);
        assert(s.drop_last()[i] == s[i]);
    }
}

/// The explanation of a failed condition.
pub open spec fn error_explanation<'s, S: AnySingleCondition + DebugText>(e: ConditionError<'s, S>) -> Seq<char>
    decreases e,
{
    match e {
        ConditionError::ArgumentOfNotSucceeded(inner) =>
            "the condition passed to `Not` didn't fail as required: "@ + condition_debug(*inner),
        ConditionError::NotAll(one) =>
            "at least one condition passed to `All` failed: "@ + error_explanation(*one),
        ConditionError::NoneOfAny(total) =>
            "none of the conditions passed to `Any` succeeded: "@
                + list_text(quoted(error_explanations(total@))),
        ConditionError::Single(single) => single.explanation(),
    }
}

impl<S: AnySingleCondition + DebugText> Condition<S> {
    /// The renderings of the conditions `v`, in order.
    fn debug_texts_of(v: &Vec<Condition<S>>) -> (r: Vec<String>)
        ensures
            r@.map_values(|t: String| t@) == condition_debugs(v@),
        decreases v@,
    {
        let mut r: Vec<String> = Vec::new();
        let mut i: usize = 0;
        while i < v.len()
            invariant
                i <= v@.len(),
                r@.map_values(|t: String| t@) == condition_debugs(v@.take(i as int)),
            decreases v@.len() - i,
        {
            proof {
                assert(decreases_to!(v@ => v@[i as int]));
            }
            let t = v[i].debug_text();
            let ghost prev = r@;
            r.push(t);
            proof {
                assert(v@.take(i + 1).drop_last() =~= v@.take(i as int));
                assert(r@.map_values(|t: String| t@) =~= prev.map_values(|t: String| t@).push(t@));
            }
            i += 1;
        }
        proof {
            assert(v@.take(v@.len() as int) =~= v@);
        }
        r
    }
}

impl<S: AnySingleCondition + DebugText> DebugText for Condition<S> {
    open spec fn spec_debug(&self) -> Seq<char> {
        condition_debug(*self)
    }

    fn debug_text(&self) -> (r: String)
        decreases self,
    {
        let r = match self {
            Condition::Compound(CompoundCheckCondition::All(v)) => {
                let mut r = String::from_str("Compound(All(");
                let texts = Self::debug_texts_of(v);
                push_list(&mut r, &texts);
                r.append("))");
                r
            },
            Condition::Compound(CompoundCheckCondition::Any(v)) => {
                let mut r = String::from_str("Compound(Any(");
                let texts = Self::debug_texts_of(v);
                push_list(&mut r, &texts);
                r.append("))");
                r
            },
            Condition::Compound(CompoundCheckCondition::Not(b)) => {
                let mut r = String::from_str("Compound(Not(");
                r.append(b.debug_text().as_str());
                r.append("))");
                r
            },
            Condition::Single(s) => {
                let mut r = String::from_str("Single(");
                r.append(s.debug_text().as_str());
                r.append(")");
                r
            },
        };
        assert(r@ == condition_debug(*self));
        r
    }
}

impl<'s, S: AnySingleCondition + DebugText> ConditionError<'s, S> {
    /// The explanations of the errors `v`, each quoted, in order.
    fn quoted_explanations(v: &Vec<ConditionError<'s, S>>) -> (r: Vec<String>)
        requires
            errors_explainable(v@),
        ensures
            r@.map_values(|t: String| t@) == quoted(error_explanations(v@)),
        decreases v@,
    {
        let mut r: Vec<String> = Vec::new();
        let mut i: usize = 0;
        while i < v.len()
            invariant
                i <= v@.len(),
                r@.map_values(|t: String| t@) == quoted(error_explanations(v@.take(i as int))),
                errors_explainable(v@),
            decreases v@.len() - i,
        {
            proof {
                assert(decreases_to!(v@ => v@[i as int]));
            }
            proof {
                lemma_errors_explainable(v@, i as int);
            }
            let e = v[i].explain();
            let t = debug_str(e.as_str());
            let ghost prev = r@;
            r.push(t);
            proof {
                assert(v@.take(i + 1).drop_last() =~= v@.take(i as int));
                assert(r@.map_values(|t: String| t@) =~= prev.map_values(|t: String| t@).push(t@));
                assert(quoted(error_explanations(v@.take(i + 1))) =~= quoted(
                    error_explanations(v@.take(i as int)),
                ).push(t@));
            }
            i += 1;
        }
        proof {
            assert(v@.take(v@.len() as int) =~= v@);
        }
        r
    }
}

impl<'s, S: AnySingleCondition + DebugText> ExplainableFailure for ConditionError<'s, S> {
    open spec fn explainable(&self) -> bool {
        error_explainable(*self)
    }

    open spec fn explanation(&self) -> Seq<char> {
        error_explanation(*self)
    }

    fn explain(&self) -> (r: String)
        decreases self,
    {
        let r = match self {
            ConditionError::ArgumentOfNotSucceeded(inner) => {
                let mut r = String::from_str("the condition passed to `Not` didn't fail as required: ");
                r.append(inner.debug_text().as_str());
                r
            },
            ConditionError::NotAll(one) => {
                let mut r = String::from_str("at least one condition passed to `All` failed: ");
                r.append(one.explain().as_str());
                r
            },
            ConditionError::NoneOfAny(total) => {
                let mut r = String::from_str("none of the conditions passed to `Any` succeeded: ");
                let texts = Self::quoted_explanations(total);
                push_list(&mut r, &texts);
                r
            },
            ConditionError::Single(single) => single.explain(),
        };
        assert(r@ == error_explanation(*self));
        r
    }
}

} // verus!
