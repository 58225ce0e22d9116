use vstd::prelude::*;
use vstd::string::StringExecFns;
use crate::config::dataset::DatasetConfig;
use crate::config::dataset::DatasetView;
use crate::config::dataset::FileFormat;
use crate::ingestion::run::IngestionError;
use crate::ingestion::run::IngestionErrorView;
use crate::ingestion::run::IngestionRun;
use crate::ingestion::run::RunView;

verus! {

/// The glob a file-based format loads when the dataset names none.
pub open spec fn default_pattern(format: FileFormat) -> Seq<char> {
    match format {
        FileFormat::Csv => "*.csv"@,
        FileFormat::Parquet => "*.parquet"@,
        FileFormat::Json => "*.json"@,
        FileFormat::Kafka => Seq::empty(),
    }
}

/// The store's table function that reads files of a format.
pub open spec fn reader_function(format: FileFormat) -> Seq<char> {
    match format {
        FileFormat::Csv => "read_csv_auto"@,
        FileFormat::Parquet => "parquet_scan"@,
        FileFormat::Json => "read_ndjson_auto"@,
        FileFormat::Kafka => Seq::empty(),
    }
}

/// Where the files of a dataset are looked for: its directory, or the
/// current one, then `/`, then its pattern, or the format's default.
pub open spec fn source_glob(dataset: DatasetView, format: FileFormat) -> Seq<char> {
    let directory = match dataset.directory {
        Some(d) => d,
        None => "."@,
    };
    let pattern = match dataset.pattern {
        Some(p) => p,
        None => default_pattern(format),
    };
    directory + "/"@ + pattern
}

/// The opening of a statement that creates the table `name` only if the
/// store holds none of that name.
pub open spec fn create_if_absent(name: Seq<char>) -> Seq<char> {
    "CREATE TABLE IF NOT EXISTS \""@ + name + "\""@
}

/// The statement that materializes a dataset's table from its files. It
/// creates the table only if none of that name exists.
pub open spec fn load_statement(dataset: DatasetView, format: FileFormat) -> Seq<char> {
    create_if_absent(dataset.name) + " AS SELECT * FROM "@ + reader_function(format) + "('"@
        + source_glob(dataset, format) + "');"@
}

/// The statement that readies the store for remote JSON sources.
pub open spec fn json_prelude() -> Seq<char> {
    "INSTALL httpfs; LOAD httpfs;"@
}

/// The statements that load a dataset as `format`, in the order of issue.
pub open spec fn load_statements(dataset: DatasetView, format: FileFormat) -> Seq<Seq<char>> {
    match format {
        FileFormat::Json => seq![json_prelude(), load_statement(dataset, format)],
        _ => seq![load_statement(dataset, format)],
    }
}

/// What routing a dataset by its format gives: the fresh run of the format's
/// statements, or `NotImplemented` for a format that is not file-based.
pub open spec fn routed(dataset: DatasetView) -> Result<RunView, IngestionErrorView> {
    if dataset.format.file_based() {
        Ok(RunView::fresh(load_statements(dataset, dataset.format)))
    } else {
        Err(IngestionErrorView::NotImplemented)
    }
}

/// Every plan ends with the statement that loads the dataset, and that
/// statement is guarded: it opens with `CREATE TABLE IF NOT EXISTS` and the
/// dataset's name in double quotes. Whatever stands before it is the
/// statement that readies the store.
pub proof fn every_plan_ends_with_a_guarded_load(dataset: DatasetView, format: FileFormat)
    ensures
        create_if_absent(dataset.name).is_prefix_of(load_statement(dataset, format)),
        load_statements(dataset, format).last() == load_statement(dataset, format),
        forall|i: int|
            0 <= i < load_statements(dataset, format).len() - 1 ==> load_statements(
                dataset,
                format,
            )[i] == json_prelude(),
{
    let opening = create_if_absent(dataset.name);
    assert(opening =~= load_statement(dataset, format).subrange(0, opening.len() as int));
}

fn pattern_of(format: FileFormat) -> (pattern: &'static str)
    requires
        format.file_based(),
    ensures
        pattern@ == default_pattern(format),
{
    match format {
        FileFormat::Csv => "*.csv",
        FileFormat::Parquet => "*.parquet",
        _ => "*.json",
    }
}

fn reader_of(format: FileFormat) -> (reader: &'static str)
    requires
        format.file_based(),
    ensures
        reader@ == reader_function(format),
{
    match format {
        FileFormat::Csv => "read_csv_auto",
        FileFormat::Parquet => "parquet_scan",
        _ => "read_ndjson_auto",
    }
}

fn load_sql(dataset: &DatasetConfig, format: FileFormat) -> (sql: String)
    requires
        format.file_based(),
    ensures
        sql@ == load_statement(dataset@, format),
{
    let mut sql = String::from_str("CREATE TABLE IF NOT EXISTS \"");
    sql.append(dataset.name.as_str());
    sql.append("\"");
    sql.append(" AS SELECT * FROM ");
    sql.append(reader_of(format));
    sql.append("('");
    match &dataset.directory {
        Some(d) => sql.append(d.as_str()),
        None => sql.append("."),
    }
    sql.append("/");
    match &dataset.pattern {
        Some(p) => sql.append(p.as_str()),
        None => sql.append(pattern_of(format)),
    }
    sql.append("');");
    assert(sql@ =~= load_statement(dataset@, format));
    sql
}

fn file_run(dataset: &DatasetConfig, format: FileFormat) -> (run: IngestionRun)
    requires
        format.file_based(),
    ensures
        run@ == RunView::fresh(load_statements(dataset@, format)),
{
    let mut statements: Vec<String> = Vec::new();
    match format {
        FileFormat::Json => {
            statements.push(String::from_str("INSTALL httpfs; LOAD httpfs;"));
        },
        _ => {},
    }
    statements.push(load_sql(dataset, format));
    let run = IngestionRun::new(statements);
    assert(run@.statements =~= load_statements(dataset@, format));
    run
}

/// Starts the ingestion of a dataset's CSV files: one statement, which
/// creates the table from `read_csv_auto` over the dataset's files unless the
/// table exists.
pub fn ingest_csv(dataset: &DatasetConfig) -> (run: IngestionRun)
    ensures
        run@ == RunView::fresh(load_statements(dataset@, FileFormat::Csv)),
{
    file_run(dataset, FileFormat::Csv)
}

/// Starts the ingestion of a dataset's Parquet files: one statement, which
/// creates the table from `parquet_scan` over the dataset's files unless the
/// table exists.
pub fn ingest_parquet(dataset: &DatasetConfig) -> (run: IngestionRun)
    ensures
        run@ == RunView::fresh(load_statements(dataset@, FileFormat::Parquet)),
{
    file_run(dataset, FileFormat::Parquet)
}

/// Starts the ingestion of a dataset's JSON files: the statement that readies
/// the store, then the one that creates the table from `read_ndjson_auto`
/// over the dataset's files unless the table exists.
pub fn ingest_json(dataset: &DatasetConfig) -> (run: IngestionRun)
    ensures
        run@ == RunView::fresh(load_statements(dataset@, FileFormat::Json)),
{
    file_run(dataset, FileFormat::Json)
}

/// Routes a dataset to the loader of its format. A format without a loader is
/// reported as `NotImplemented`; nothing is issued for it.
pub fn ingest_dataset(dataset: &DatasetConfig) -> (started: Result<IngestionRun, IngestionError>)
    ensures
        match started {
            Ok(run) => routed(dataset@) == Ok::<RunView, IngestionErrorView>(run@),
            Err(error) => routed(dataset@) == Err::<RunView, IngestionErrorView>(error@),
        },
{
    match dataset.format {
        FileFormat::Csv => Ok(ingest_csv(dataset)),
        FileFormat::Parquet => Ok(ingest_parquet(dataset)),
        FileFormat::Json => Ok(ingest_json(dataset)),
        FileFormat::Kafka => Err(IngestionError::NotImplemented),
    }
}

} // verus!
