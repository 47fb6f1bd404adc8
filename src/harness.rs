use vstd::prelude::*;

verus! {

/// Where the parser under test stopped on a malformed sample.
pub struct Diagnostic {
    pub line: usize,
    pub column: usize,
    pub message: String,
}

/// What kind of item a declaration is.
#[derive(PartialEq, Eq, Structural, Clone, Copy, Debug)]
pub enum ItemKind {
    Enum { variants: usize },
    Struct,
    Trait,
    Function,
    Module,
    Other,
}

/// One declaration found by the parser under test.
pub struct Item {
    pub name: String,
    pub public: bool,
    pub kind: ItemKind,
}

/// The structural representation of a parsed sample: its declarations, in source order.
pub struct Structure {
    pub items: Vec<Item>,
}

/// What the parser under test made of one sample.
pub enum ParseResult {
    Success(Structure),
    Failure(Diagnostic),
}

/// One fixture file of the corpus. `text` is `None` when the file could not be read.
pub struct Sample {
    pub path: String,
    pub category: String,
    pub text: Option<String>,
    pub expect_parse_failure: bool,
}

/// The structural property an assertion checks.
pub enum Check {
    /// The parse succeeded, or failed, as the sample's metadata declares.
    ParseExpectation,
    /// The first enum named `enum_name` declares exactly `count` variants.
    VariantCount { enum_name: String, count: usize },
    /// Some public item is named `symbol`.
    ExposesSymbol { symbol: String },
}

/// A named check, applied to every sample, or only to those of one category.
pub struct Assertion {
    pub name: String,
    pub description: String,
    pub category: Option<String>,
    pub check: Check,
}

/// Why an assertion failed.
#[derive(PartialEq, Eq, Structural, Clone, Copy, Debug)]
pub enum FailReason {
    /// The sample was declared malformed, yet it parsed.
    UnexpectedSuccess,
    /// The sample was declared well-formed, yet it did not parse.
    UnexpectedFailure,
    MissingEnum,
    WrongVariantCount { found: usize },
    MissingSymbol,
    /// The sample's file could not be read.
    Unreadable,
}

/// Why an assertion was not evaluated.
#[derive(PartialEq, Eq, Structural, Clone, Copy, Debug)]
pub enum SkipReason {
    /// The assertion belongs to another category.
    NotApplicable,
    /// The sample was declared malformed, so it has no structure to inspect.
    NoStructure,
    /// The run's time ran out before the sample was processed.
    Timeout,
}

/// The verdict of one assertion on one sample.
#[derive(PartialEq, Eq, Structural, Clone, Copy, Debug)]
pub enum Outcome {
    Pass,
    Fail(FailReason),
    Skipped(SkipReason),
}

impl SkipReason {
    /// The reason as a word, such as `timeout`.
    pub fn reason_text(&self) -> (r: String)
        ensures
            *self == SkipReason::Timeout ==> r@ == "timeout"@,
            *self == SkipReason::NotApplicable ==> r@ == "not applicable"@,
            *self == SkipReason::NoStructure ==> r@ == "no structure"@,
    {
        match self {
            SkipReason::NotApplicable => String::from_str("not applicable"),
            SkipReason::NoStructure => String::from_str("no structure"),
            SkipReason::Timeout => String::from_str("timeout"),
        }
    }
}

/// The variant count of the first enum in `items` named `name`, if there is one.
pub open spec fn enum_variants(items: Seq<Item>, name: Seq<char>) -> Option<usize>
    decreases items.len(),
{
    if items.len() == 0 {
        None
    } else {
        match items[0].kind {
            ItemKind::Enum { variants } => if items[0].name@ == name {
                Some(variants)
            } else {
                enum_variants(items.drop_first(), name)
            },
            _ => enum_variants(items.drop_first(), name),
        }
    }
}

/// Some public item of `items` is named `symbol`.
pub open spec fn exposes(items: Seq<Item>, symbol: Seq<char>) -> bool {
    exists|i: int| 0 <= i < items.len() && #[trigger] items[i].public && items[i].name@ == symbol
}

/// The assertion concerns the sample's category.
pub open spec fn applies(a: Assertion, s: Sample) -> bool {
    match a.category {
        None => true,
        Some(c) => c@ == s.category@,
    }
}

/// The verdict of assertion `a` on sample `s`, which the parser turned into `r`.
pub open spec fn outcome_of(a: Assertion, s: Sample, r: ParseResult) -> Outcome {
    if !applies(a, s) {
        Outcome::Skipped(SkipReason::NotApplicable)
    } else {
        match a.check {
            Check::ParseExpectation => match r {
                ParseResult::Success(_) => if s.expect_parse_failure {
                    Outcome::Fail(FailReason::UnexpectedSuccess)
                } else {
                    Outcome::Pass
                },
                ParseResult::Failure(_) => if s.expect_parse_failure {
                    Outcome::Pass
                } else {
                    Outcome::Fail(FailReason::UnexpectedFailure)
                },
            },
            Check::VariantCount { enum_name, count } => match r {
                ParseResult::Success(st) => match enum_variants(st.items@, enum_name@) {
                    None => Outcome::Fail(FailReason::MissingEnum),
                    Some(n) => if n == count {
                        Outcome::Pass
                    } else {
                        Outcome::Fail(FailReason::WrongVariantCount { found: n })
                    },
                },
                ParseResult::Failure(_) => structureless(s),
            },
            Check::ExposesSymbol { symbol } => match r {
                ParseResult::Success(st) => if exposes(st.items@, symbol@) {
                    Outcome::Pass
                } else {
                    Outcome::Fail(FailReason::MissingSymbol)
                },
                ParseResult::Failure(_) => structureless(s),
            },
        }
    }
}

/// The verdict of a structural assertion on a sample that did not parse.
pub open spec fn structureless(s: Sample) -> Outcome {
    if s.expect_parse_failure {
        Outcome::Skipped(SkipReason::NoStructure)
    } else {
        Outcome::Fail(FailReason::UnexpectedFailure)
    }
}

/// The verdicts of all `assertions`, in order, on sample `s` parsed into `r`.
pub open spec fn outcomes_of(assertions: Seq<Assertion>, s: Sample, r: ParseResult) -> Seq<Outcome> {
    Seq::new(assertions.len(), |j: int| outcome_of(assertions[j], s, r))
}

fn enum_variant_count(items: &Vec<Item>, name: &String) -> (r: Option<usize>)
    ensures
        r == enum_variants(items@, name@),
{
    let mut i: usize = 0;
    assert(items@.subrange(0, items@.len() as int) =~= items@);
    while i < items.len()
        invariant
            i <= items@.len(),
            enum_variants(items@, name@) == enum_variants(items@.subrange(i as int, items@.len() as int), name@),
        decreases items@.len() - i,
    {
        let ghost rest = items@.subrange(i as int, items@.len() as int);
        assert(rest.drop_first() =~= items@.subrange(i + 1, items@.len() as int));
        let item = &items[i];
        match item.kind {
            ItemKind::Enum { variants } => {
                if item.name == *name {
                    return Some(variants);
                }
            },
            _ => {},
        }
        i = i + 1;
    }
    assert(items@.subrange(i as int, items@.len() as int).len() == 0);
    None
}

fn exposes_symbol(items: &Vec<Item>, symbol: &String) -> (r: bool)
    ensures
        r == exposes(items@, symbol@),
{
    let mut i: usize = 0;
    while i < items.len()
        invariant
            i <= items@.len(),
            forall|k: int| 0 <= k < i ==> !(#[trigger] items@[k].public && items@[k].name@ == symbol@),
        decreases items@.len() - i,
    {
        if items[i].public && items[i].name == *symbol {
            return true;
        }
        i = i + 1;
    }
    false
}

fn applies_to(a: &Assertion, s: &Sample) -> (r: bool)
    ensures
        r == applies(*a, *s),
{
    match &a.category {
        None => true,
        Some(c) => *c == s.category,
    }
}

/// Evaluates one assertion on a parsed sample.
pub fn evaluate(a: &Assertion, s: &Sample, r: &ParseResult) -> (o: Outcome)
    ensures
        o == outcome_of(*a, *s, *r),
{
    if !applies_to(a, s) {
        return Outcome::Skipped(SkipReason::NotApplicable);
    }
    match &a.check {
        Check::ParseExpectation => match r {
            ParseResult::Success(_) => if s.expect_parse_failure {
                Outcome::Fail(FailReason::UnexpectedSuccess)
            } else {
                Outcome::Pass
            },
            ParseResult::Failure(_) => if s.expect_parse_failure {
                Outcome::Pass
            } else {
                Outcome::Fail(FailReason::UnexpectedFailure)
            },
        },
        Check::VariantCount { enum_name, count } => match r {
            ParseResult::Success(st) => match enum_variant_count(&st.items, enum_name) {
                None => Outcome::Fail(FailReason::MissingEnum),
                Some(n) => if n == *count {
                    Outcome::Pass
                } else {
                    Outcome::Fail(FailReason::WrongVariantCount { found: n })
                },
            },
            ParseResult::Failure(_) => structureless_outcome(s),
        },
        Check::ExposesSymbol { symbol } => match r {
            ParseResult::Success(st) => if exposes_symbol(&st.items, symbol) {
                Outcome::Pass
            } else {
                Outcome::Fail(FailReason::MissingSymbol)
            },
            ParseResult::Failure(_) => structureless_outcome(s),
        },
    }
}

fn structureless_outcome(s: &Sample) -> (o: Outcome)
    ensures
        o == structureless(*s),
{
    if s.expect_parse_failure {
        Outcome::Skipped(SkipReason::NoStructure)
    } else {
        Outcome::Fail(FailReason::UnexpectedFailure)
    }
}

/// Evaluates every assertion on a parsed sample, each on its own: one outcome per
/// assertion, in the order of `assertions`, none left out.
pub fn check(r: &ParseResult, s: &Sample, assertions: &Vec<Assertion>) -> (out: Vec<Outcome>)
    ensures
        out@.len() == assertions@.len(),
        out@ == outcomes_of(assertions@, *s, *r),
{
    let mut out: Vec<Outcome> = Vec::new();
    let mut j: usize = 0;
    while j < assertions.len()
        invariant
            j <= assertions@.len(),
            out@ == outcomes_of(assertions@, *s, *r).subrange(0, j as int),
        decreases assertions@.len() - j,
    {
        let o = evaluate(&assertions[j], s, r);
        out.push(o);
        j = j + 1;
        assert(out@ =~= outcomes_of(assertions@, *s, *r).subrange(0, j as int));
    }
    assert(out@ =~= outcomes_of(assertions@, *s, *r));
    out
}

/// A sample declared malformed passes the parse-expectation assertion exactly when the
/// parser rejects it, and fails it when the parser accepts it.
pub proof fn lemma_expected_failure_verdicts(a: Assertion, s: Sample, r: ParseResult)
    requires
        a.check is ParseExpectation,
        applies(a, s),
        s.expect_parse_failure,
    ensures
        r is Failure ==> outcome_of(a, s, r) == Outcome::Pass,
        r is Success ==> outcome_of(a, s, r) == Outcome::Fail(FailReason::UnexpectedSuccess),
{
}

} // verus!
