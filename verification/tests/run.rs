use std::sync::mpsc;
use std::sync::Arc;
use std::sync::RwLock;

use logtea::fill::fill_from_log;
use logtea::FillLogArg;
use logtea::FillLogTea;
use logtea::IngestError;
use logtea::Ingestor;
use logtea::ParseError;

use rettle::make_tea;
use rettle::Brewery;
use rettle::Ingredient;

fn identity(line: String) -> Result<String, ParseError> {
    Ok(line)
}

fn empty_recipe() -> Arc<RwLock<Vec<Box<dyn Ingredient<String> + Send + Sync>>>> {
    Arc::new(RwLock::new(Vec::new()))
}

#[test]
fn missing_source_reports_unavailable() {
    let args = FillLogArg::new("fixtures/no_such_file.LOG", 2, identity).unwrap();
    let (batches, summary) = fill_from_log(&args, None);
    assert!(batches.is_empty());
    assert_eq!(summary.lines_read, 0);
    assert_eq!(summary.records_ok, 0);
    assert_eq!(summary.parse_failures, 0);
    assert!(matches!(summary.failure, Some(IngestError::SourceUnavailable)));
}

#[test]
fn run_yields_batches_in_dispatch_order() {
    let args = FillLogArg::new("fixtures/test.csv", 2, identity).unwrap();
    let lines = vec!["a".to_string(), "b".to_string(), "c".to_string()];
    let (batches, summary) = fill_from_log(&args, Some(lines));
    assert_eq!(
        batches,
        vec![vec!["a".to_string(), "b".to_string()], vec!["c".to_string()]]
    );
    assert_eq!(summary.lines_read, 3);
    assert_eq!(summary.records_ok, 3);
    assert_eq!(summary.parse_failures, 0);
    assert_eq!(summary.failure, None);
}

#[test]
fn each_batch_is_submitted_to_the_brewery_once() {
    let brewery = Brewery::new(2);
    let recipe = empty_recipe();
    let args = FillLogArg::new("fixtures/test.csv", 2, identity).unwrap();
    let lines = vec!["a".to_string(), "b".to_string(), "c".to_string()];
    let (batches, _summary) = fill_from_log(&args, Some(lines));

    let (tx, rx) = mpsc::channel();
    for batch in batches {
        let recipe = Arc::clone(&recipe);
        let tx = tx.clone();
        brewery.take_order(move || {
            let processed = batch.len();
            make_tea(batch, recipe);
            tx.send(processed).unwrap();
        });
    }
    drop(tx);

    let mut orders: Vec<usize> = rx.iter().collect();
    orders.sort();
    assert_eq!(orders, vec![1, 2]);
}

#[test]
fn streaming_run_dispatches_batches_as_they_fill() {
    let brewery = Brewery::new(2);
    let recipe = empty_recipe();
    let lines = vec!["a".to_string(), "BAD".to_string(), "b".to_string(), "c".to_string()];

    let mut ingestor = Ingestor::new(2).unwrap();
    let mut submitted: usize = 0;
    for line in lines {
        let parsed = if line == "BAD" { Err(ParseError) } else { Ok(line) };
        if let Some(batch) = ingestor.accept(parsed) {
            let recipe = Arc::clone(&recipe);
            brewery.take_order(move || make_tea(batch, recipe));
            submitted += 1;
        }
    }
    if let Some(batch) = ingestor.finish() {
        let recipe = Arc::clone(&recipe);
        brewery.take_order(move || make_tea(batch, recipe));
        submitted += 1;
    }

    assert_eq!(submitted, 2);
    let summary = ingestor.summary();
    assert_eq!(summary.lines_read, 4);
    assert_eq!(summary.records_ok, 3);
    assert_eq!(summary.parse_failures, 1);
}

#[test]
fn ingestion_unit_runs_its_configuration() {
    let args = FillLogArg::new("fixtures/test.csv", 2, identity).unwrap();
    let unit = FillLogTea::new("test_log", "fixture", args);
    let lines = vec!["a".to_string(), "b".to_string()];
    let (batches, summary) = unit.run(Some(lines));
    assert_eq!(batches, vec![vec!["a".to_string(), "b".to_string()]]);
    assert_eq!(summary.lines_read, 2);
    assert_eq!(summary.records_ok, 2);
    assert_eq!(summary.failure, None);
}
