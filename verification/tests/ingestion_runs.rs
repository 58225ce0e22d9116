use hydrocube::ingestion::run::EngineReply;
use hydrocube::ingestion::run::IngestionError;
use hydrocube::ingestion::run::IngestionRun;

fn run_of(statements: &[&str]) -> IngestionRun {
    IngestionRun::new(statements.iter().map(|s| s.to_string()).collect())
}

#[test]
fn a_fresh_run_offers_its_first_statement() {
    let run = run_of(&["A", "B"]);
    assert_eq!(run.next_statement(), Some("A"));
    assert!(run.outcome().is_none());
}

#[test]
fn statements_are_issued_in_order() {
    let mut run = run_of(&["A", "B", "C"]);
    assert_eq!(run.next_statement(), Some("A"));
    run.record(EngineReply::Done);
    assert_eq!(run.next_statement(), Some("B"));
    assert!(run.outcome().is_none());
    run.record(EngineReply::Done);
    assert_eq!(run.next_statement(), Some("C"));
    run.record(EngineReply::Done);
    assert_eq!(run.next_statement(), None);
    assert!(matches!(run.outcome(), Some(Ok(()))));
}

#[test]
fn a_refusal_ends_the_run_with_the_stores_message() {
    let mut run = run_of(&["A", "B"]);
    run.record(EngineReply::Failed("IO Error: No files found".to_string()));
    assert_eq!(run.next_statement(), None);
    match run.outcome() {
        Some(Err(IngestionError::Engine(message))) => {
            assert_eq!(message, "IO Error: No files found")
        }
        other => panic!("unexpected outcome {:?}", other),
    }
}

#[test]
fn nothing_is_issued_after_a_refusal() {
    let mut run = run_of(&["A", "B"]);
    run.record(EngineReply::Done);
    run.record(EngineReply::Failed("first".to_string()));
    run.record(EngineReply::Done);
    run.record(EngineReply::Failed("second".to_string()));
    assert_eq!(run.next_statement(), None);
    match run.outcome() {
        Some(Err(IngestionError::Engine(message))) => assert_eq!(message, "first"),
        other => panic!("unexpected outcome {:?}", other),
    }
}

#[test]
fn answers_to_a_completed_run_change_nothing() {
    let mut run = run_of(&["A"]);
    run.record(EngineReply::Done);
    run.record(EngineReply::Failed("late".to_string()));
    run.record(EngineReply::Done);
    assert_eq!(run.next_statement(), None);
    assert!(matches!(run.outcome(), Some(Ok(()))));
}

#[test]
fn a_run_without_statements_is_complete_at_once() {
    let run = run_of(&[]);
    assert_eq!(run.next_statement(), None);
    assert!(matches!(run.outcome(), Some(Ok(()))));
}

#[test]
fn errors_describe_themselves() {
    assert_eq!(
        IngestionError::NotImplemented.describe(),
        "ingestion is not implemented for this format"
    );
    assert_eq!(
        IngestionError::Engine("Catalog Error".to_string()).describe(),
        "Catalog Error"
    );
}
