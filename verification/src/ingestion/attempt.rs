use vstd::prelude::*;
use vstd::string::StringExecFns;
use crate::config::dataset::DatasetConfig;
use crate::config::dataset::DatasetView;
use crate::config::dataset::FileFormat;
use crate::db::pool::answer_of;
use crate::db::pool::PoolExhausted;
use crate::ingestion::handlers::ingest_dataset;
use crate::ingestion::handlers::routed;
use crate::ingestion::run::EngineReply;
use crate::ingestion::run::EngineReplyView;
use crate::ingestion::run::Ending;
use crate::ingestion::run::IngestionError;
use crate::ingestion::run::IngestionErrorView;
use crate::ingestion::run::IngestionRun;
use crate::ingestion::run::RunView;

verus! {

/// How a format is called in a report.
pub open spec fn format_label(format: FileFormat) -> Seq<char> {
    match format {
        FileFormat::Csv => "CSV"@,
        FileFormat::Parquet => "Parquet"@,
        FileFormat::Json => "JSON"@,
        FileFormat::Kafka => "Kafka"@,
    }
}

/// How one ingestion attempt ended, in specifications.
pub enum AttemptEnding {
    /// The table is materialized, or was already.
    Ingested,
    /// The pool gave no connection; the text is what it said.
    Unavailable(Seq<char>),
    /// The ingestion failed.
    Failed(IngestionErrorView),
}

/// Where an attempt stands, in specifications.
pub enum AttemptStage {
    /// No connection has been asked for yet, or the answer is outstanding.
    AwaitingConnection,
    /// Statements are being issued on the connection.
    Loading(RunView),
    /// The attempt was given up before any statement was issued.
    Dropped(AttemptEnding),
}

/// An attempt in specifications: the dataset it loads and where it stands.
pub struct AttemptView {
    pub dataset: DatasetView,
    pub stage: AttemptStage,
}

/// One line for the log, in specifications.
pub struct ReportView {
    pub failed: bool,
    pub text: Seq<char>,
}

/// The line that reports how an attempt on `dataset` ended.
pub open spec fn report_of(dataset: DatasetView, ending: AttemptEnding) -> ReportView {
    match ending {
        AttemptEnding::Ingested => ReportView {
            failed: false,
            text: "Successfully ingested "@ + format_label(dataset.format) + " dataset "@
                + dataset.name,
        },
        AttemptEnding::Unavailable(detail) => ReportView {
            failed: true,
            text: "Error getting connection from pool: "@ + detail,
        },
        AttemptEnding::Failed(error) => ReportView {
            failed: true,
            text: "Error ingesting "@ + format_label(dataset.format) + " for "@ + dataset.name
                + ": "@ + IngestionError::text(error),
        },
    }
}

impl AttemptView {
    /// The run of a loading attempt is well formed. Every attempt is well
    /// formed: a fresh one is, and no answer makes it otherwise.
    pub open spec fn well_formed(self) -> bool {
        self.stage matches AttemptStage::Loading(run) ==> run.well_formed()
    }

    /// The attempt after the pool's answer. A connection starts the loading
    /// of the dataset, or ends the attempt where its format has no loader; an
    /// exhausted pool ends it. Outside `AwaitingConnection` nothing changes.
    pub open spec fn after_connection(self, acquired: Result<(), Seq<char>>) -> AttemptView {
        match self.stage {
            AttemptStage::AwaitingConnection => match acquired {
                Err(detail) => AttemptView {
                    stage: AttemptStage::Dropped(AttemptEnding::Unavailable(detail)),
                    ..self
                },
                Ok(()) => match routed(self.dataset) {
                    Ok(run) => AttemptView { stage: AttemptStage::Loading(run), ..self },
                    Err(error) => AttemptView {
                        stage: AttemptStage::Dropped(AttemptEnding::Failed(error)),
                        ..self
                    },
                },
            },
            _ => self,
        }
    }

    /// The statement to issue next, if the attempt is loading and has one.
    pub open spec fn next(self) -> Option<Seq<char>> {
        match self.stage {
            AttemptStage::Loading(run) => run.next(),
            _ => None,
        }
    }

    /// The attempt after the store's answer to the statement that was due.
    pub open spec fn after_reply(self, reply: EngineReplyView) -> AttemptView {
        match self.stage {
            AttemptStage::Loading(run) => AttemptView {
                stage: AttemptStage::Loading(run.after(reply)),
                ..self
            },
            _ => self,
        }
    }

    /// How the attempt ended; `None` while it waits for a connection or has a
    /// statement pending.
    pub open spec fn ending(self) -> Option<AttemptEnding> {
        match self.stage {
            AttemptStage::AwaitingConnection => None,
            AttemptStage::Dropped(ending) => Some(ending),
            AttemptStage::Loading(run) => match run.ending() {
                None => None,
                Some(Ending::Completed) => Some(AttemptEnding::Ingested),
                Some(Ending::Refused(message)) => Some(
                    AttemptEnding::Failed(IngestionErrorView::Engine(message)),
                ),
            },
        }
    }

    /// The line that reports the attempt; `None` until it has ended.
    pub open spec fn report(self) -> Option<ReportView> {
        match self.ending() {
            Some(ending) => Some(report_of(self.dataset, ending)),
            None => None,
        }
    }
}

/// A dataset whose format has no loader is reported, not run: once its
/// attempt holds a connection it has ended as `NotImplemented`, its report is
/// a failure, and it issues no statement.
pub proof fn an_unsupported_format_is_reported_not_run(attempt: AttemptView)
    requires
        attempt.stage is AwaitingConnection,
        !attempt.dataset.format.file_based(),
    ensures
        attempt.after_connection(Ok(())).next() is None,
        attempt.after_connection(Ok(())).ending() == Some(
            AttemptEnding::Failed(IngestionErrorView::NotImplemented),
        ),
        attempt.after_connection(Ok(())).report() matches Some(report) && report.failed,
{
}

/// An exhausted pool ends the attempt at once: it issues no statement, and
/// its report is a failure that carries what the pool said. Nothing waits
/// for a later connection.
pub proof fn an_exhausted_pool_drops_the_attempt(attempt: AttemptView, detail: Seq<char>)
    requires
        attempt.stage is AwaitingConnection,
    ensures
        attempt.after_connection(Err(detail)).next() is None,
        attempt.after_connection(Err(detail)).report() == Some(
            ReportView { failed: true, text: "Error getting connection from pool: "@ + detail },
        ),
{
}

/// An attempt reports exactly when it has nothing left to do: while it waits
/// for its connection or has a statement to issue it has no report, and once
/// it has ended it has one.
pub proof fn an_attempt_reports_once_it_has_ended(attempt: AttemptView)
    requires
        attempt.well_formed(),
    ensures
        attempt.report() is Some <==> !(attempt.stage is AwaitingConnection) && attempt.next()
            is None,
{
}

/// One line for the log.
#[derive(Debug)]
pub struct Report {
    /// Whether the line reports an error.
    pub failed: bool,
    pub text: String,
}

impl View for Report {
    type V = ReportView;

    open spec fn view(&self) -> ReportView {
        ReportView { failed: self.failed, text: self.text@ }
    }
}

enum Progress {
    AwaitingConnection,
    Loading(IngestionRun),
    Unavailable(PoolExhausted),
    Failed(IngestionError),
}

/// One ingestion attempt, as a watcher spawns it for each notification: it
/// asks the pool for a connection, loads the dataset on it, and ends in one
/// line for the log. No ending stops the watcher.
///
/// The caller does the outside work: it asks the pool and tells the attempt
/// the answer, then issues each statement and records the store's answer.
pub struct IngestionAttempt {
    dataset: DatasetConfig,
    progress: Progress,
}

impl View for IngestionAttempt {
    type V = AttemptView;

    closed spec fn view(&self) -> AttemptView {
        AttemptView {
            dataset: self.dataset@,
            stage: match self.progress {
                Progress::AwaitingConnection => AttemptStage::AwaitingConnection,
                Progress::Loading(run) => AttemptStage::Loading(run@),
                Progress::Unavailable(exhausted) => AttemptStage::Dropped(
                    AttemptEnding::Unavailable(exhausted@),
                ),
                Progress::Failed(error) => AttemptStage::Dropped(AttemptEnding::Failed(error@)),
            },
        }
    }
}

fn label_of(format: FileFormat) -> (label: &'static str)
    ensures
        label@ == format_label(format),
{
    match format {
        FileFormat::Csv => "CSV",
        FileFormat::Parquet => "Parquet",
        FileFormat::Json => "JSON",
        FileFormat::Kafka => "Kafka",
    }
}

fn success_report(dataset: &DatasetConfig) -> (report: Report)
    ensures
        report@ == report_of(dataset@, AttemptEnding::Ingested),
{
    let mut text = String::from_str("Successfully ingested ");
    text.append(label_of(dataset.format));
    text.append(" dataset ");
    text.append(dataset.name.as_str());
    assert(text@ =~= report_of(dataset@, AttemptEnding::Ingested).text);
    Report { failed: false, text }
}

fn unavailable_report(dataset: &DatasetConfig, exhausted: &PoolExhausted) -> (report: Report)
    ensures
        report@ == report_of(dataset@, AttemptEnding::Unavailable(exhausted@)),
{
    let mut text = String::from_str("Error getting connection from pool: ");
    text.append(exhausted.detail.as_str());
    Report { failed: true, text }
}

fn failure_report(dataset: &DatasetConfig, error: &IngestionError) -> (report: Report)
    ensures
        report@ == report_of(dataset@, AttemptEnding::Failed(error@)),
{
    let mut text = String::from_str("Error ingesting ");
    text.append(label_of(dataset.format));
    text.append(" for ");
    text.append(dataset.name.as_str());
    text.append(": ");
    let detail = error.describe();
    text.append(detail.as_str());
    assert(text@ =~= report_of(dataset@, AttemptEnding::Failed(error@)).text);
    Report { failed: true, text }
}

impl IngestionAttempt {
    #[verifier::type_invariant]
    spec fn inv(&self) -> bool {
        self.progress matches Progress::Loading(run) ==> run@.well_formed()
    }

    /// An attempt on `dataset` that has not asked for a connection yet.
    pub fn new(dataset: DatasetConfig) -> (attempt: IngestionAttempt)
        ensures
            attempt@ == (AttemptView { dataset: dataset@, stage: AttemptStage::AwaitingConnection }),
            attempt@.well_formed(),
    {
        IngestionAttempt { dataset, progress: Progress::AwaitingConnection }
    }

    /// Takes the pool's answer: `Ok` once a connection is held, the pool's
    /// error where none became available.
    pub fn connection(&mut self, acquired: Result<(), PoolExhausted>)
        ensures
            final(self)@ == old(self)@.after_connection(answer_of(acquired)),
            final(self)@.well_formed(),
    {
        proof {
            use_type_invariant(&*self);
        }
        match self.progress {
            Progress::AwaitingConnection => {
                match acquired {
                    Err(exhausted) => {
                        self.progress = Progress::Unavailable(exhausted);
                    },
                    Ok(()) => {
                        match ingest_dataset(&self.dataset) {
                            Ok(run) => {
                                self.progress = Progress::Loading(run);
                            },
                            Err(error) => {
                                self.progress = Progress::Failed(error);
                            },
                        }
                    },
                }
            },
            _ => {},
        }
    }

    /// The statement to issue next on the connection; `None` where the
    /// attempt has none to issue.
    pub fn next_statement(&self) -> (sql: Option<&str>)
        ensures
            match sql {
                Some(text) => self@.next() == Some(text@),
                None => self@.next() is None,
            },
    {
        match &self.progress {
            Progress::Loading(run) => run.next_statement(),
            _ => None,
        }
    }

    /// Records the store's answer to the statement that was due.
    pub fn record(&mut self, reply: EngineReply)
        ensures
            final(self)@ == old(self)@.after_reply(reply@),
            final(self)@.well_formed(),
    {
        proof {
            use_type_invariant(&*self);
        }
        let mut progress = Progress::AwaitingConnection;
        std::mem::swap(&mut self.progress, &mut progress);
        match progress {
            Progress::Loading(mut run) => {
                run.record(reply);
                self.progress = Progress::Loading(run);
            },
            other => {
                self.progress = other;
            },
        }
    }

    /// The line that reports the attempt; `None` until it has ended.
    pub fn report(&self) -> (line: Option<Report>)
        ensures
            self@.well_formed(),
            match line {
                Some(report) => self@.report() == Some(report@),
                None => self@.report() is None,
            },
    {
        proof {
            use_type_invariant(self);
        }
        match &self.progress {
            Progress::AwaitingConnection => None,
            Progress::Unavailable(exhausted) => Some(unavailable_report(&self.dataset, exhausted)),
            Progress::Failed(error) => Some(failure_report(&self.dataset, error)),
            Progress::Loading(run) => match run.outcome() {
                None => None,
                Some(Ok(())) => Some(success_report(&self.dataset)),
                Some(Err(error)) => Some(failure_report(&self.dataset, &error)),
            },
        }
    }
}

} // verus!
