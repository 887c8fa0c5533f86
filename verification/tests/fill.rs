use logtea::fill::ingest_lines;
use logtea::ConfigError;
use logtea::FillLogArg;
use logtea::FillLogTea;
use logtea::Ingestor;
use logtea::ParseError;

#[derive(Default, Clone, Debug)]
struct TestLogTea {
    log_type: String,
    datetime: String,
    msg: String,
}

fn test_parser(_input: String) -> Result<TestLogTea, ParseError> {
    Ok(TestLogTea::default())
}

fn identity(line: String) -> Result<String, ParseError> {
    Ok(line)
}

fn reject_bad(line: String) -> Result<String, ParseError> {
    if line == "BAD" {
        Err(ParseError)
    } else {
        Ok(line)
    }
}

fn strings(words: &[&str]) -> Vec<String> {
    words.iter().map(|w| w.to_string()).collect()
}

#[test]
fn create_log_args() {
    let log_args = FillLogArg::new("fixtures/test.csv", 50, test_parser).unwrap();
    assert_eq!(log_args.filepath, "fixtures/test.csv");
    assert_eq!(log_args.batch_size, 50);
}

#[test]
fn create_fill_logtea() {
    let log_args = FillLogArg::new("fixtures/test.csv", 50, test_parser).unwrap();
    let fill_logtea = FillLogTea::new("test_log", "fixture", log_args);
    let sources = vec![fill_logtea];
    assert_eq!(sources.len(), 1);
    assert_eq!(sources[0].name, "test_log");
    assert_eq!(sources[0].source, "fixture");
    let tea = sources[0].params.parser;
    let record = tea(String::from("[INFO] - 2024-01-01T00:00:00 ready")).unwrap();
    assert_eq!(record.log_type, "");
    assert_eq!(record.datetime, "");
    assert_eq!(record.msg, "");
}

#[test]
fn zero_batch_size_is_refused() {
    let refused = FillLogArg::new("fixtures/test.csv", 0, test_parser);
    assert!(matches!(refused, Err(ConfigError::ZeroBatchSize)));
    let ingestor = Ingestor::<String>::new(0);
    assert!(matches!(ingestor, Err(ConfigError::ZeroBatchSize)));
}

#[test]
fn three_lines_batch_two() {
    let lines = strings(&["a", "b", "c"]);
    let (batches, summary) = ingest_lines(&lines, &identity, 2);
    assert_eq!(batches, vec![strings(&["a", "b"]), strings(&["c"])]);
    assert_eq!(summary.lines_read, 3);
    assert_eq!(summary.records_ok, 3);
    assert_eq!(summary.parse_failures, 0);
    assert_eq!(summary.failure, None);
}

#[test]
fn rejected_line_is_skipped_and_counted() {
    let lines = strings(&["ok", "BAD", "ok2"]);
    let (batches, summary) = ingest_lines(&lines, &reject_bad, 2);
    assert_eq!(batches, vec![strings(&["ok", "ok2"])]);
    assert_eq!(summary.lines_read, 3);
    assert_eq!(summary.records_ok, 2);
    assert_eq!(summary.parse_failures, 1);
    assert_eq!(summary.failure, None);
}

#[test]
fn empty_input_dispatches_nothing() {
    let lines: Vec<String> = Vec::new();
    let (batches, summary) = ingest_lines(&lines, &identity, 2);
    assert!(batches.is_empty());
    assert_eq!(summary.lines_read, 0);
    assert_eq!(summary.records_ok, 0);
    assert_eq!(summary.parse_failures, 0);
}

#[test]
fn exact_batch_size_gives_one_full_batch() {
    let lines = strings(&["a", "b"]);
    let (batches, summary) = ingest_lines(&lines, &identity, 2);
    assert_eq!(batches, vec![strings(&["a", "b"])]);
    assert_eq!(summary.records_ok, 2);
}

#[test]
fn one_over_batch_size_gives_full_then_single() {
    let lines = strings(&["a", "b", "c", "d", "e"]);
    let (batches, summary) = ingest_lines(&lines, &identity, 4);
    assert_eq!(batches, vec![strings(&["a", "b", "c", "d"]), strings(&["e"])]);
    assert_eq!(summary.records_ok, 5);
}

#[test]
fn batch_size_one_dispatches_each_record_alone() {
    let lines = strings(&["a", "b", "c"]);
    let (batches, summary) = ingest_lines(&lines, &identity, 1);
    assert_eq!(batches, vec![strings(&["a"]), strings(&["b"]), strings(&["c"])]);
    assert_eq!(summary.records_ok, 3);
}

#[test]
fn batch_size_larger_than_input_gives_one_partial_batch() {
    let lines = strings(&["a", "b", "c"]);
    let (batches, summary) = ingest_lines(&lines, &identity, 50);
    assert_eq!(batches, vec![strings(&["a", "b", "c"])]);
    assert_eq!(summary.records_ok, 3);
}

#[test]
fn all_lines_rejected_dispatches_nothing() {
    let lines = strings(&["BAD", "BAD", "BAD"]);
    let (batches, summary) = ingest_lines(&lines, &reject_bad, 2);
    assert!(batches.is_empty());
    assert_eq!(summary.lines_read, 3);
    assert_eq!(summary.records_ok, 0);
    assert_eq!(summary.parse_failures, 3);
}

#[test]
fn rerun_gives_identical_batches() {
    let lines = strings(&["x", "BAD", "y", "z", "w"]);
    let (batches1, summary1) = ingest_lines(&lines, &reject_bad, 3);
    let (batches2, summary2) = ingest_lines(&lines, &reject_bad, 3);
    assert_eq!(batches1, batches2);
    assert_eq!(summary1, summary2);
}

#[test]
fn ingestor_streams_batches() {
    let mut ingestor = Ingestor::new(2).unwrap();
    assert_eq!(ingestor.accept(Ok(10u64)), None);
    assert_eq!(ingestor.accept(Ok(20u64)), Some(vec![10, 20]));
    assert_eq!(ingestor.accept(Err(ParseError)), None);
    assert_eq!(ingestor.accept(Ok(30u64)), None);
    let last = ingestor.finish();
    assert_eq!(last, Some(vec![30]));
    let summary = ingestor.summary();
    assert_eq!(summary.lines_read, 4);
    assert_eq!(summary.records_ok, 3);
    assert_eq!(summary.parse_failures, 1);
}

#[test]
fn ingestor_final_empty_batch_is_not_emitted() {
    let mut ingestor = Ingestor::new(2).unwrap();
    assert_eq!(ingestor.accept(Ok(1u64)), None);
    assert_eq!(ingestor.accept(Ok(2u64)), Some(vec![1, 2]));
    assert_eq!(ingestor.finish(), None);
    assert_eq!(ingestor.summary().records_ok, 2);
}
