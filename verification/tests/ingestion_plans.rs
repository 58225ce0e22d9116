use hydrocube::config::dataset::DatasetConfig;
use hydrocube::config::dataset::FileFormat;
use hydrocube::config::dataset::KafkaTopicConfig;
use hydrocube::config::dataset::SchemaField;
use hydrocube::ingestion::handlers::ingest_csv;
use hydrocube::ingestion::handlers::ingest_dataset;
use hydrocube::ingestion::handlers::ingest_json;
use hydrocube::ingestion::handlers::ingest_parquet;
use hydrocube::db::pool::PoolExhausted;
use hydrocube::ingestion::kafka_utils::create_table_if_not_exists;
use hydrocube::ingestion::kafka_utils::CreationError;
use hydrocube::ingestion::kafka_utils::TableCreation;
use hydrocube::ingestion::run::EngineReply;
use hydrocube::ingestion::run::IngestionError;
use hydrocube::ingestion::run::IngestionRun;

fn dataset(
    name: &str,
    directory: Option<&str>,
    pattern: Option<&str>,
    format: FileFormat,
) -> DatasetConfig {
    DatasetConfig {
        name: name.to_string(),
        directory: directory.map(|d| d.to_string()),
        pattern: pattern.map(|p| p.to_string()),
        format,
        kafka: None,
    }
}

fn field(column: &str, field_type: &str) -> SchemaField {
    SchemaField {
        column: column.to_string(),
        field_type: field_type.to_string(),
        json_path: format!("$.{}", column),
    }
}

fn topic(table_name: &str, schema: Vec<SchemaField>) -> KafkaTopicConfig {
    KafkaTopicConfig {
        brokers: "localhost:9092".to_string(),
        group_id: "cube".to_string(),
        topic: "events".to_string(),
        schema,
        table_name: table_name.to_string(),
    }
}

/// Issues every statement of a run against a store that answers `Done`, and
/// gives the statements back.
fn drain(mut run: IngestionRun) -> Vec<String> {
    let mut issued = Vec::new();
    while let Some(sql) = run.next_statement().map(|s| s.to_string()) {
        issued.push(sql);
        run.record(EngineReply::Done);
    }
    assert!(matches!(run.outcome(), Some(Ok(()))));
    issued
}

/// Gives a creation its connection, issues its statements against a store
/// that answers `Done`, and gives the statements back.
fn create(mut creation: TableCreation) -> Vec<String> {
    assert_eq!(creation.next_statement(), None);
    creation.connection(Ok(()));
    let mut issued = Vec::new();
    while let Some(sql) = creation.next_statement().map(|s| s.to_string()) {
        issued.push(sql);
        creation.record(EngineReply::Done);
    }
    assert!(matches!(creation.outcome(), Some(Ok(()))));
    issued
}

#[test]
fn csv_ingestion_issues_one_guarded_statement() {
    let sales = dataset("sales", Some("/data/sales"), Some("*.csv"), FileFormat::Csv);
    assert_eq!(
        drain(ingest_csv(&sales)),
        vec![
            "CREATE TABLE IF NOT EXISTS \"sales\" AS SELECT * FROM read_csv_auto('/data/sales/*.csv');"
                .to_string()
        ]
    );
}

#[test]
fn parquet_ingestion_scans_the_pattern() {
    let trips = dataset("trips", Some("/lake/trips"), Some("2024-*.parquet"), FileFormat::Parquet);
    assert_eq!(
        drain(ingest_parquet(&trips)),
        vec![
            "CREATE TABLE IF NOT EXISTS \"trips\" AS SELECT * FROM parquet_scan('/lake/trips/2024-*.parquet');"
                .to_string()
        ]
    );
}

#[test]
fn json_ingestion_readies_the_store_first() {
    let logs = dataset("logs", Some("/var/logs"), Some("*.ndjson"), FileFormat::Json);
    assert_eq!(
        drain(ingest_json(&logs)),
        vec![
            "INSTALL httpfs; LOAD httpfs;".to_string(),
            "CREATE TABLE IF NOT EXISTS \"logs\" AS SELECT * FROM read_ndjson_auto('/var/logs/*.ndjson');"
                .to_string()
        ]
    );
}

#[test]
fn omitted_pattern_falls_back_to_the_format_default() {
    let csv = dataset("a", Some("/d"), None, FileFormat::Csv);
    let parquet = dataset("b", Some("/d"), None, FileFormat::Parquet);
    let json = dataset("c", Some("/d"), None, FileFormat::Json);
    assert_eq!(
        drain(ingest_csv(&csv)).last().unwrap(),
        "CREATE TABLE IF NOT EXISTS \"a\" AS SELECT * FROM read_csv_auto('/d/*.csv');"
    );
    assert_eq!(
        drain(ingest_parquet(&parquet)).last().unwrap(),
        "CREATE TABLE IF NOT EXISTS \"b\" AS SELECT * FROM parquet_scan('/d/*.parquet');"
    );
    assert_eq!(
        drain(ingest_json(&json)).last().unwrap(),
        "CREATE TABLE IF NOT EXISTS \"c\" AS SELECT * FROM read_ndjson_auto('/d/*.json');"
    );
}

#[test]
fn omitted_directory_falls_back_to_the_current_one() {
    let here = dataset("here", None, None, FileFormat::Csv);
    assert_eq!(
        drain(ingest_csv(&here)),
        vec!["CREATE TABLE IF NOT EXISTS \"here\" AS SELECT * FROM read_csv_auto('./*.csv');"
            .to_string()]
    );
}

#[test]
fn the_loader_decides_the_reader_not_the_declared_format() {
    let odd = dataset("odd", Some("/d"), None, FileFormat::Parquet);
    assert_eq!(
        drain(ingest_csv(&odd)),
        vec!["CREATE TABLE IF NOT EXISTS \"odd\" AS SELECT * FROM read_csv_auto('/d/*.csv');"
            .to_string()]
    );
}

#[test]
fn dispatcher_routes_by_format() {
    let csv = dataset("t", Some("/d"), None, FileFormat::Csv);
    let parquet = dataset("t", Some("/d"), None, FileFormat::Parquet);
    let json = dataset("t", Some("/d"), None, FileFormat::Json);
    assert_eq!(drain(ingest_dataset(&csv).unwrap()), drain(ingest_csv(&csv)));
    assert_eq!(drain(ingest_dataset(&parquet).unwrap()), drain(ingest_parquet(&parquet)));
    assert_eq!(drain(ingest_dataset(&json).unwrap()), drain(ingest_json(&json)));
}

#[test]
fn streaming_format_is_reported_as_not_implemented() {
    let mut events = dataset("events", None, None, FileFormat::Kafka);
    events.kafka = Some(topic("events", vec![field("id", "INTEGER")]));
    match ingest_dataset(&events) {
        Err(IngestionError::NotImplemented) => {}
        Err(other) => panic!("unexpected error {:?}", other),
        Ok(_) => panic!("a streaming dataset must not start a run"),
    }
}

#[test]
fn repeated_ingestion_issues_the_same_guarded_statement() {
    let sales = dataset("sales", Some("/data/sales"), Some("*.csv"), FileFormat::Csv);
    let first = drain(ingest_dataset(&sales).unwrap());
    let second = drain(ingest_dataset(&sales).unwrap());
    assert_eq!(first, second);
    assert_eq!(first.len(), 1);
    assert!(first[0].starts_with("CREATE TABLE IF NOT EXISTS \"sales\""));
}

#[test]
fn topic_table_is_created_from_its_schema() {
    let events = topic(
        "events",
        vec![field("id", "INTEGER"), field("name", "VARCHAR"), field("price", "DOUBLE")],
    );
    assert_eq!(
        create(create_table_if_not_exists(&events)),
        vec!["CREATE TABLE IF NOT EXISTS events (id INTEGER, name VARCHAR, price DOUBLE);"
            .to_string()]
    );
}

#[test]
fn topic_table_with_one_column_has_no_separator() {
    let events = topic("clicks", vec![field("at", "TIMESTAMP")]);
    assert_eq!(
        create(create_table_if_not_exists(&events)),
        vec!["CREATE TABLE IF NOT EXISTS clicks (at TIMESTAMP);".to_string()]
    );
}

#[test]
fn topic_table_without_columns_has_an_empty_list() {
    let events = topic("nothing", Vec::new());
    assert_eq!(
        create(create_table_if_not_exists(&events)),
        vec!["CREATE TABLE IF NOT EXISTS nothing ();".to_string()]
    );
}

#[test]
fn an_exhausted_pool_creates_no_table() {
    let events = topic("events", vec![field("id", "INTEGER")]);
    let mut creation = create_table_if_not_exists(&events);
    creation.connection(Err(PoolExhausted { detail: "timed out".to_string() }));
    assert_eq!(creation.next_statement(), None);
    creation.record(EngineReply::Done);
    creation.connection(Ok(()));
    assert_eq!(creation.next_statement(), None);
    match creation.outcome() {
        Some(Err(CreationError::Pool(exhausted))) => assert_eq!(exhausted.detail, "timed out"),
        other => panic!("unexpected outcome {:?}", other),
    }
}

#[test]
fn a_creation_waits_for_its_connection() {
    let events = topic("events", vec![field("id", "INTEGER")]);
    let mut creation = create_table_if_not_exists(&events);
    creation.record(EngineReply::Failed("early".to_string()));
    assert_eq!(creation.next_statement(), None);
    assert!(creation.outcome().is_none());
}

#[test]
fn a_refused_creation_carries_the_stores_message() {
    let events = topic("events", vec![field("id", "NOTATYPE")]);
    let mut creation = create_table_if_not_exists(&events);
    creation.connection(Ok(()));
    assert_eq!(
        creation.next_statement(),
        Some("CREATE TABLE IF NOT EXISTS events (id NOTATYPE);")
    );
    creation.record(EngineReply::Failed("Catalog Error: Type with name NOTATYPE does not exist!".to_string()));
    assert_eq!(creation.next_statement(), None);
    match creation.outcome() {
        Some(Err(CreationError::Ingestion(IngestionError::Engine(message)))) => {
            assert_eq!(message, "Catalog Error: Type with name NOTATYPE does not exist!")
        }
        other => panic!("unexpected outcome {:?}", other),
    }
}
