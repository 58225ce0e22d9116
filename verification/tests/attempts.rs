use hydrocube::config::dataset::DatasetConfig;
use hydrocube::config::dataset::FileFormat;
use hydrocube::db::pool::PoolExhausted;
use hydrocube::ingestion::attempt::IngestionAttempt;
use hydrocube::ingestion::run::EngineReply;

fn dataset(name: &str, format: FileFormat) -> DatasetConfig {
    DatasetConfig {
        name: name.to_string(),
        directory: Some("/data".to_string()),
        pattern: None,
        format,
        kafka: None,
    }
}

#[test]
fn an_attempt_waits_for_its_connection() {
    let attempt = IngestionAttempt::new(dataset("sales", FileFormat::Csv));
    assert_eq!(attempt.next_statement(), None);
    assert!(attempt.report().is_none());
}

#[test]
fn an_exhausted_pool_drops_the_attempt() {
    let mut attempt = IngestionAttempt::new(dataset("sales", FileFormat::Csv));
    attempt.connection(Err(PoolExhausted {
        detail: "timed out waiting for connection".to_string(),
    }));
    assert_eq!(attempt.next_statement(), None);
    let report = attempt.report().unwrap();
    assert!(report.failed);
    assert_eq!(
        report.text,
        "Error getting connection from pool: timed out waiting for connection"
    );
}

#[test]
fn a_successful_attempt_reports_the_dataset() {
    let mut attempt = IngestionAttempt::new(dataset("sales", FileFormat::Csv));
    attempt.connection(Ok(()));
    assert_eq!(
        attempt.next_statement(),
        Some("CREATE TABLE IF NOT EXISTS \"sales\" AS SELECT * FROM read_csv_auto('/data/*.csv');")
    );
    assert!(attempt.report().is_none());
    attempt.record(EngineReply::Done);
    assert_eq!(attempt.next_statement(), None);
    let report = attempt.report().unwrap();
    assert!(!report.failed);
    assert_eq!(report.text, "Successfully ingested CSV dataset sales");
}

#[test]
fn success_reports_name_the_format() {
    let mut parquet = IngestionAttempt::new(dataset("trips", FileFormat::Parquet));
    parquet.connection(Ok(()));
    parquet.record(EngineReply::Done);
    assert_eq!(parquet.report().unwrap().text, "Successfully ingested Parquet dataset trips");

    let mut json = IngestionAttempt::new(dataset("logs", FileFormat::Json));
    json.connection(Ok(()));
    json.record(EngineReply::Done);
    assert!(json.report().is_none());
    json.record(EngineReply::Done);
    assert_eq!(json.report().unwrap().text, "Successfully ingested JSON dataset logs");
}

#[test]
fn a_refused_statement_fails_the_attempt() {
    let mut attempt = IngestionAttempt::new(dataset("trips", FileFormat::Parquet));
    attempt.connection(Ok(()));
    attempt.record(EngineReply::Failed("IO Error: No files found".to_string()));
    assert_eq!(attempt.next_statement(), None);
    let report = attempt.report().unwrap();
    assert!(report.failed);
    assert_eq!(report.text, "Error ingesting Parquet for trips: IO Error: No files found");
}

#[test]
fn a_refused_prelude_keeps_the_table_statement_back() {
    let mut attempt = IngestionAttempt::new(dataset("logs", FileFormat::Json));
    attempt.connection(Ok(()));
    assert_eq!(attempt.next_statement(), Some("INSTALL httpfs; LOAD httpfs;"));
    attempt.record(EngineReply::Failed("no network".to_string()));
    assert_eq!(attempt.next_statement(), None);
    assert_eq!(attempt.report().unwrap().text, "Error ingesting JSON for logs: no network");
}

#[test]
fn a_streaming_dataset_is_reported_and_issues_nothing() {
    let mut attempt = IngestionAttempt::new(dataset("events", FileFormat::Kafka));
    attempt.connection(Ok(()));
    assert_eq!(attempt.next_statement(), None);
    let report = attempt.report().unwrap();
    assert!(report.failed);
    assert_eq!(
        report.text,
        "Error ingesting Kafka for events: ingestion is not implemented for this format"
    );
}

#[test]
fn an_exhausted_pool_comes_before_the_format() {
    let mut attempt = IngestionAttempt::new(dataset("events", FileFormat::Kafka));
    attempt.connection(Err(PoolExhausted { detail: "none left".to_string() }));
    assert_eq!(attempt.report().unwrap().text, "Error getting connection from pool: none left");
}

#[test]
fn a_second_answer_from_the_pool_changes_nothing() {
    let mut attempt = IngestionAttempt::new(dataset("sales", FileFormat::Csv));
    attempt.connection(Ok(()));
    attempt.connection(Err(PoolExhausted { detail: "late".to_string() }));
    assert!(attempt.next_statement().is_some());
    attempt.record(EngineReply::Done);
    assert_eq!(attempt.report().unwrap().text, "Successfully ingested CSV dataset sales");
}

#[test]
fn answers_before_the_connection_are_ignored() {
    let mut attempt = IngestionAttempt::new(dataset("sales", FileFormat::Csv));
    attempt.record(EngineReply::Done);
    attempt.record(EngineReply::Failed("early".to_string()));
    assert!(attempt.report().is_none());
    attempt.connection(Ok(()));
    assert!(attempt.next_statement().is_some());
}
