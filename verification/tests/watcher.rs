use hydrocube::config::dataset::AppConfig;
use hydrocube::config::dataset::DatasetConfig;
use hydrocube::config::dataset::FileFormat;
use hydrocube::config::security::SecurityConfig;
use hydrocube::ingestion::directory_watcher::directory_watcher;
use hydrocube::ingestion::directory_watcher::watched_datasets;
use hydrocube::ingestion::directory_watcher::WatcherAction;
use hydrocube::ingestion::directory_watcher::WatcherEvent;
use hydrocube::ingestion::directory_watcher::WatcherPhase;
use hydrocube::ingestion::directory_watcher::POLL_INTERVAL_SECS;
use hydrocube::ingestion::directory_watcher::QUEUE_CAPACITY;
use hydrocube::ingestion::run::EngineReply;

fn dataset(name: &str, directory: Option<&str>, format: FileFormat) -> DatasetConfig {
    DatasetConfig {
        name: name.to_string(),
        directory: directory.map(|d| d.to_string()),
        pattern: None,
        format,
        kafka: None,
    }
}

#[test]
fn the_watch_is_recursive_polled_and_bounded() {
    let watcher = directory_watcher("/data/sales", dataset("sales", Some("/data/sales"), FileFormat::Csv));
    let settings = watcher.settings();
    assert_eq!(settings.path, "/data/sales");
    assert!(settings.recursive);
    assert_eq!(settings.poll_interval_secs, 2);
    assert_eq!(settings.queue_capacity, 100);
    assert_eq!(POLL_INTERVAL_SECS, 2);
    assert_eq!(QUEUE_CAPACITY, 100);
}

#[test]
fn a_registered_watch_is_announced() {
    let mut watcher = directory_watcher("/data/sales", dataset("sales", Some("/data/sales"), FileFormat::Csv));
    assert_eq!(watcher.phase(), WatcherPhase::Registering);
    match watcher.on_event(WatcherEvent::Registered) {
        WatcherAction::Announce(line) => {
            assert_eq!(line, "Started watching directory: /data/sales")
        }
        other => panic!("unexpected action {:?}", other),
    }
    assert_eq!(watcher.phase(), WatcherPhase::Idle);
}

#[test]
fn a_failed_registration_stops_the_watcher() {
    let mut watcher = directory_watcher("/missing", dataset("sales", Some("/missing"), FileFormat::Csv));
    match watcher.on_event(WatcherEvent::RegistrationFailed("No such file or directory".to_string())) {
        WatcherAction::Fail(reason) => assert_eq!(reason, "No such file or directory"),
        other => panic!("unexpected action {:?}", other),
    }
    assert_eq!(watcher.phase(), WatcherPhase::Stopped);
    assert!(matches!(watcher.on_event(WatcherEvent::Notification), WatcherAction::Ignore));
    assert!(matches!(watcher.on_event(WatcherEvent::Registered), WatcherAction::Ignore));
    assert_eq!(watcher.phase(), WatcherPhase::Stopped);
}

#[test]
fn two_rapid_notifications_spawn_two_attempts() {
    let mut watcher = directory_watcher("/data/sales", dataset("sales", Some("/data/sales"), FileFormat::Csv));
    watcher.on_event(WatcherEvent::Registered);
    assert!(matches!(watcher.on_event(WatcherEvent::Notification), WatcherAction::SpawnIngestion));
    let mut first = watcher.attempt();
    assert!(matches!(watcher.on_event(WatcherEvent::Notification), WatcherAction::SpawnIngestion));
    let mut second = watcher.attempt();
    assert_eq!(watcher.phase(), WatcherPhase::Idle);

    first.connection(Ok(()));
    second.connection(Ok(()));
    let wanted = "CREATE TABLE IF NOT EXISTS \"sales\" AS SELECT * FROM read_csv_auto('/data/sales/*.csv');";
    assert_eq!(first.next_statement(), Some(wanted));
    assert_eq!(second.next_statement(), Some(wanted));
    second.record(EngineReply::Done);
    first.record(EngineReply::Done);
    assert_eq!(first.report().unwrap().text, "Successfully ingested CSV dataset sales");
    assert_eq!(second.report().unwrap().text, "Successfully ingested CSV dataset sales");
}

#[test]
fn a_burst_is_not_coalesced() {
    let mut watcher = directory_watcher("/d", dataset("d", Some("/d"), FileFormat::Json));
    watcher.on_event(WatcherEvent::Registered);
    let mut spawned = 0;
    for _ in 0..250 {
        if let WatcherAction::SpawnIngestion = watcher.on_event(WatcherEvent::Notification) {
            spawned += 1;
        }
    }
    assert_eq!(spawned, 250);
    assert_eq!(watcher.phase(), WatcherPhase::Idle);
}

#[test]
fn a_failed_attempt_leaves_the_watcher_idle() {
    let mut watcher = directory_watcher("/d", dataset("d", Some("/d"), FileFormat::Csv));
    watcher.on_event(WatcherEvent::Registered);
    watcher.on_event(WatcherEvent::Notification);
    let mut attempt = watcher.attempt();
    attempt.connection(Ok(()));
    attempt.record(EngineReply::Failed("malformed".to_string()));
    assert!(attempt.report().unwrap().failed);
    assert_eq!(watcher.phase(), WatcherPhase::Idle);
    assert!(matches!(watcher.on_event(WatcherEvent::Notification), WatcherAction::SpawnIngestion));
}

#[test]
fn a_closed_queue_finishes_the_watcher() {
    let mut watcher = directory_watcher("/d", dataset("d", Some("/d"), FileFormat::Csv));
    watcher.on_event(WatcherEvent::Registered);
    assert!(matches!(watcher.on_event(WatcherEvent::QueueClosed), WatcherAction::Finish));
    assert_eq!(watcher.phase(), WatcherPhase::Stopped);
    assert!(matches!(watcher.on_event(WatcherEvent::QueueClosed), WatcherAction::Ignore));
}

#[test]
fn notifications_before_registration_are_ignored() {
    let mut watcher = directory_watcher("/d", dataset("d", Some("/d"), FileFormat::Csv));
    assert!(matches!(watcher.on_event(WatcherEvent::Notification), WatcherAction::Ignore));
    assert!(matches!(watcher.on_event(WatcherEvent::QueueClosed), WatcherAction::Ignore));
    assert_eq!(watcher.phase(), WatcherPhase::Registering);
}

#[test]
fn the_watcher_keeps_its_dataset() {
    let watcher = directory_watcher("/d", dataset("orders", Some("/d"), FileFormat::Parquet));
    assert_eq!(watcher.dataset().name, "orders");
    assert_eq!(watcher.dataset().format, FileFormat::Parquet);
}

#[test]
fn datasets_with_a_directory_are_watched() {
    let config = AppConfig {
        datasets: vec![
            dataset("a", Some("/a"), FileFormat::Csv),
            dataset("events", None, FileFormat::Kafka),
            dataset("b", Some("/b"), FileFormat::Json),
            dataset("c", None, FileFormat::Csv),
            dataset("d", Some("/d"), FileFormat::Parquet),
        ],
        security: SecurityConfig::default(),
    };
    assert_eq!(watched_datasets(&config), vec![0, 2, 4]);
}

#[test]
fn a_streaming_dataset_gets_no_watcher() {
    let config = AppConfig {
        datasets: vec![
            dataset("events", Some("/ignored"), FileFormat::Kafka),
            dataset("sales", Some("/data/sales"), FileFormat::Csv),
        ],
        security: SecurityConfig::default(),
    };
    assert_eq!(watched_datasets(&config), vec![1]);
}

#[test]
fn no_dataset_no_watcher() {
    let config = AppConfig { datasets: Vec::new(), security: SecurityConfig::default() };
    assert!(watched_datasets(&config).is_empty());
}
