use sample_harness::harness::{
    check, evaluate, Assertion, Check, Diagnostic, FailReason, Item, ItemKind, Outcome,
    ParseResult, Sample, SkipReason, Structure,
};
use sample_harness::loader::{category_of, contains_text};
use sample_harness::report::{Report, SampleStatus};
use sample_harness::runner::{Action, Runner};

fn sample(path: &str, category: &str, text: &str) -> Sample {
    Sample::read(String::from(path), String::from(category), String::from(text))
}

fn item(name: &str, public: bool, kind: ItemKind) -> Item {
    Item { name: String::from(name), public, kind }
}

fn enums_structure() -> ParseResult {
    ParseResult::Success(Structure {
        items: vec![
            item("Message", true, ItemKind::Enum { variants: 4 }),
            item("Result", true, ItemKind::Enum { variants: 2 }),
            item("process_message", true, ItemKind::Function),
            item("helper", false, ItemKind::Function),
        ],
    })
}

fn failure() -> ParseResult {
    ParseResult::Failure(Diagnostic { line: 3, column: 9, message: String::from("expected `}`") })
}

fn variant_assertion(category: Option<&str>, count: usize) -> Assertion {
    Assertion {
        name: String::from("message_variants"),
        description: String::from("Message declares its variants"),
        category: category.map(String::from),
        check: Check::VariantCount { enum_name: String::from("Message"), count },
    }
}

fn parse_assertion() -> Assertion {
    Assertion {
        name: String::from("parses_as_declared"),
        description: String::from("the parse succeeds unless the sample says otherwise"),
        category: None,
        check: Check::ParseExpectation,
    }
}

fn symbol_assertion(symbol: &str) -> Assertion {
    Assertion {
        name: String::from("exposes_symbol"),
        description: String::from("a public item of this name exists"),
        category: None,
        check: Check::ExposesSymbol { symbol: String::from(symbol) },
    }
}

/// Drives a run, parsing each text with `parse`; cuts it off after `budget` parses.
fn run(
    samples: Vec<Sample>,
    assertions: Vec<Assertion>,
    parse: &dyn Fn(&str) -> ParseResult,
    budget: usize,
    parsed: &mut Vec<usize>,
) -> Report {
    let mut runner = Runner::new();
    runner.start_loading();
    runner.loaded(samples, assertions);
    loop {
        match runner.next_action() {
            Action::Parse(i) => {
                if parsed.len() == budget {
                    runner.time_out();
                    continue;
                }
                parsed.push(i);
                let text = runner.sample(i).text.clone().unwrap();
                runner.submit_parse(parse(&text));
            }
            Action::RecordReadError(_) => runner.submit_read_error(),
            Action::Report => break,
        }
    }
    runner.finish()
}

fn toy_parse(text: &str) -> ParseResult {
    if text.contains("enum Message") {
        enums_structure()
    } else if text.contains("{{") {
        failure()
    } else {
        ParseResult::Success(Structure { items: vec![] })
    }
}

#[test]
fn four_variant_enum_passes_variant_count() {
    let s = sample("rust/EnumsAndPatterns/a.rs", "rust/EnumsAndPatterns", "pub enum Message {}");
    let a = variant_assertion(Some("rust/EnumsAndPatterns"), 4);
    assert_eq!(evaluate(&a, &s, &enums_structure()), Outcome::Pass);
}

#[test]
fn wrong_variant_count_fails_with_found_count() {
    let s = sample("a.rs", "rust/EnumsAndPatterns", "");
    let a = variant_assertion(None, 5);
    assert_eq!(
        evaluate(&a, &s, &enums_structure()),
        Outcome::Fail(FailReason::WrongVariantCount { found: 4 })
    );
}

#[test]
fn missing_enum_fails() {
    let s = sample("a.rs", "rust", "");
    let mut a = variant_assertion(None, 4);
    a.check = Check::VariantCount { enum_name: String::from("Colour"), count: 4 };
    assert_eq!(evaluate(&a, &s, &enums_structure()), Outcome::Fail(FailReason::MissingEnum));
}

#[test]
fn other_category_is_skipped() {
    let s = sample("a.rs", "rust/StructsAndImpls", "");
    let a = variant_assertion(Some("rust/EnumsAndPatterns"), 4);
    assert_eq!(
        evaluate(&a, &s, &enums_structure()),
        Outcome::Skipped(SkipReason::NotApplicable)
    );
}

#[test]
fn expected_failure_passes_on_failure_and_fails_on_success() {
    let s = sample("bad.rs", "rust", "// expect_parse_failure = true\nfn {{");
    assert!(s.expect_parse_failure);
    let a = parse_assertion();
    assert_eq!(evaluate(&a, &s, &failure()), Outcome::Pass);
    assert_eq!(
        evaluate(&a, &s, &enums_structure()),
        Outcome::Fail(FailReason::UnexpectedSuccess)
    );
    assert_eq!(
        evaluate(&variant_assertion(None, 4), &s, &failure()),
        Outcome::Skipped(SkipReason::NoStructure)
    );
}

#[test]
fn unexpected_parse_failure_fails() {
    let s = sample("good.rs", "rust", "fn main() {}");
    assert!(!s.expect_parse_failure);
    assert_eq!(
        evaluate(&parse_assertion(), &s, &failure()),
        Outcome::Fail(FailReason::UnexpectedFailure)
    );
    assert_eq!(
        evaluate(&symbol_assertion("Message"), &s, &failure()),
        Outcome::Fail(FailReason::UnexpectedFailure)
    );
}

#[test]
fn public_symbols_only() {
    let s = sample("a.rs", "rust", "");
    assert_eq!(evaluate(&symbol_assertion("process_message"), &s, &enums_structure()), Outcome::Pass);
    assert_eq!(
        evaluate(&symbol_assertion("helper"), &s, &enums_structure()),
        Outcome::Fail(FailReason::MissingSymbol)
    );
}

#[test]
fn check_gives_one_outcome_per_assertion() {
    let s = sample("a.rs", "rust/EnumsAndPatterns", "");
    let assertions = vec![parse_assertion(), variant_assertion(None, 3), symbol_assertion("Result")];
    let out = check(&enums_structure(), &s, &assertions);
    assert_eq!(
        out,
        vec![
            Outcome::Pass,
            Outcome::Fail(FailReason::WrongVariantCount { found: 4 }),
            Outcome::Pass
        ]
    );
    assert!(check(&enums_structure(), &s, &vec![]).is_empty());
}

#[test]
fn empty_corpus_passes() {
    let mut parsed = Vec::new();
    let report = run(vec![], vec![parse_assertion()], &toy_parse, 10, &mut parsed);
    assert!(report.records.is_empty());
    assert_eq!(report.summary.samples, 0);
    assert!(report.passed());
    assert_eq!(report.exit_code(), 0);
    assert!(parsed.is_empty());
}

fn corpus() -> Vec<Sample> {
    vec![
        sample("rust/EnumsAndPatterns/e.rs", "rust/EnumsAndPatterns", "pub enum Message { A, B, C, D }"),
        Sample::unreadable(String::from("rust/locked.rs"), String::from("rust")),
        sample("rust/bad.rs", "rust", "// expect_parse_failure = true\n{{"),
        sample("rust/plain.rs", "rust", "fn main() {}"),
    ]
}

fn assertions() -> Vec<Assertion> {
    vec![parse_assertion(), variant_assertion(Some("rust/EnumsAndPatterns"), 4)]
}

#[test]
fn full_run_parses_each_readable_sample_once() {
    let mut parsed = Vec::new();
    let report = run(corpus(), assertions(), &toy_parse, 10, &mut parsed);
    assert_eq!(parsed, vec![0, 2, 3]);
    assert_eq!(report.assertion_names, vec![String::from("parses_as_declared"), String::from("message_variants")]);
    assert_eq!(report.records.len(), 4);
    assert_eq!(report.records[0].outcomes, vec![Outcome::Pass, Outcome::Pass]);
    assert_eq!(report.records[1].status, SampleStatus::Unreadable);
    assert_eq!(
        report.records[1].outcomes,
        vec![Outcome::Fail(FailReason::Unreadable), Outcome::Fail(FailReason::Unreadable)]
    );
    assert_eq!(report.records[1].path, "rust/locked.rs");
    assert_eq!(
        report.records[2].outcomes,
        vec![Outcome::Pass, Outcome::Skipped(SkipReason::NotApplicable)]
    );
    assert_eq!(report.summary.samples, 4);
    assert_eq!(report.summary.passed, 3);
    assert_eq!(report.summary.failed, 1);
    assert_eq!(report.summary.timed_out, 0);
    assert!(!report.passed());
    assert_eq!(report.exit_code(), 1);
}

#[test]
fn two_runs_give_the_same_report() {
    let mut p1 = Vec::new();
    let mut p2 = Vec::new();
    let a = run(corpus(), assertions(), &toy_parse, 10, &mut p1);
    let b = run(corpus(), assertions(), &toy_parse, 10, &mut p2);
    assert_eq!(p1, p2);
    assert_eq!(a.summary, b.summary);
    assert_eq!(a.records.len(), b.records.len());
    for (x, y) in a.records.iter().zip(b.records.iter()) {
        assert_eq!(x.path, y.path);
        assert_eq!(x.category, y.category);
        assert_eq!(x.status, y.status);
        assert_eq!(x.outcomes, y.outcomes);
    }
}

#[test]
fn timeout_skips_the_rest_and_fails() {
    let mut parsed = Vec::new();
    let report = run(corpus(), assertions(), &toy_parse, 1, &mut parsed);
    assert_eq!(parsed, vec![0]);
    assert_eq!(report.records[0].status, SampleStatus::Parsed);
    assert_eq!(report.records[1].status, SampleStatus::Unreadable);
    for k in 2..4 {
        assert_eq!(report.records[k].status, SampleStatus::TimedOut);
        assert_eq!(
            report.records[k].outcomes,
            vec![Outcome::Skipped(SkipReason::Timeout), Outcome::Skipped(SkipReason::Timeout)]
        );
    }
    assert_eq!(SkipReason::Timeout.reason_text(), "timeout");
    assert_eq!(report.summary.timed_out, 2);
    assert!(!report.passed());
    assert_ne!(report.exit_code(), 0);
}

#[test]
fn runner_phases() {
    let mut runner = Runner::new();
    runner.start_loading();
    runner.loaded(corpus(), assertions());
    assert_eq!(runner.next_action(), Action::Parse(0));
    runner.submit_parse(enums_structure());
    assert_eq!(runner.next_action(), Action::RecordReadError(1));
    runner.submit_read_error();
    assert_eq!(runner.next_action(), Action::Parse(2));
    runner.time_out();
    assert_eq!(runner.next_action(), Action::Report);
}

#[test]
fn category_joins_directories() {
    let dirs = vec![String::from("rust"), String::from("EnumsAndPatterns")];
    assert_eq!(category_of(&dirs), "rust/EnumsAndPatterns");
    assert_eq!(category_of(&vec![String::from("rust")]), "rust");
    assert_eq!(category_of(&vec![]), "");
}

#[test]
fn marker_search() {
    assert!(contains_text("abc", "bc"));
    assert!(contains_text("abc", ""));
    assert!(!contains_text("ab", "abc"));
    assert!(!contains_text("expect_parse_failure = false", "expect_parse_failure = true"));
    assert!(!sample("a.rs", "rust", "fn main() {}").expect_parse_failure);
}

#[test]
fn category_filter() {
    let s = sample("a.rs", "rust/EnumsAndPatterns", "");
    assert!(sample_harness::loader::in_category(&s, &None));
    assert!(sample_harness::loader::in_category(&s, &Some(String::from("rust/EnumsAndPatterns"))));
    assert!(!sample_harness::loader::in_category(&s, &Some(String::from("rust"))));
}
