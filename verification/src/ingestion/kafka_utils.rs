use vstd::prelude::*;
use vstd::string::StringExecFns;
use crate::config::dataset::KafkaTopicConfig;
use crate::config::dataset::FieldView;
use crate::config::dataset::TopicView;
use crate::db::pool::answer_of;
use crate::db::pool::PoolExhausted;
use crate::ingestion::run::EngineReply;
use crate::ingestion::run::EngineReplyView;
use crate::ingestion::run::IngestionError;
use crate::ingestion::run::IngestionErrorView;
use crate::ingestion::run::IngestionRun;
use crate::ingestion::run::RunView;

verus! {

/// One column of a table definition: its name, a space, its type.
pub open spec fn column_ddl(field: FieldView) -> Seq<char> {
    field.column + " "@ + field.field_type
}

/// The columns of a table definition, in schema order, separated by `, `.
pub open spec fn columns_ddl(schema: Seq<FieldView>) -> Seq<char>
    decreases schema.len(),
{
    if schema.len() == 0 {
        Seq::empty()
    } else if schema.len() == 1 {
        column_ddl(schema[0])
    } else {
        columns_ddl(schema.drop_last()) + ", "@ + column_ddl(schema.last())
    }
}

/// The statement that creates a topic's destination table unless it exists.
pub open spec fn create_table_statement(topic: TopicView) -> Seq<char> {
    "CREATE TABLE IF NOT EXISTS "@ + topic.table_name + " ("@ + columns_ddl(topic.schema) + ");"@
}

fn create_table_sql(topic_config: &KafkaTopicConfig) -> (sql: String)
    ensures
        sql@ == create_table_statement(topic_config@),
{
    let mut columns = String::new();
    let n = topic_config.schema.len();
    let mut i: usize = 0;
    while i < n
        invariant
            n == topic_config.schema@.len(),
            i <= n,
            columns@ == columns_ddl(topic_config@.schema.subrange(0, i as int)),
        decreases n - i,
    {
        let ghost before = columns@;
        let ghost taken = topic_config@.schema.subrange(0, i + 1);
        if i > 0 {
            columns.append(", ");
        }
        let field = &topic_config.schema[i];
        columns.append(field.column.as_str());
        columns.append(" ");
        columns.append(field.field_type.as_str());
        proof {
            assert(taken.drop_last() =~= topic_config@.schema.subrange(0, i as int));
            assert(taken.last() == topic_config.schema@[i as int]@);
            if i == 0 {
                assert(before =~= Seq::<char>::empty());
                assert(columns@ =~= column_ddl(taken[0]));
            } else {
                assert(columns@ =~= before + ", "@ + column_ddl(taken.last()));
            }
        }
        i = i + 1;
    }
    assert(topic_config@.schema.subrange(0, n as int) =~= topic_config@.schema);
    let mut sql = String::from_str("CREATE TABLE IF NOT EXISTS ");
    sql.append(topic_config.table_name.as_str());
    sql.append(" (");
    sql.append(columns.as_str());
    sql.append(");");
    assert(sql@ =~= create_table_statement(topic_config@));
    sql
}

/// Why a table was not created.
#[derive(Debug)]
pub enum CreationError {
    /// The pool gave no connection; no statement was issued.
    Pool(PoolExhausted),
    /// The store refused the statement.
    Ingestion(IngestionError),
}

/// A creation error in specifications.
pub enum CreationErrorView {
    Pool(Seq<char>),
    Ingestion(IngestionErrorView),
}

impl View for CreationError {
    type V = CreationErrorView;

    open spec fn view(&self) -> CreationErrorView {
        match self {
            CreationError::Pool(exhausted) => CreationErrorView::Pool(exhausted@),
            CreationError::Ingestion(error) => CreationErrorView::Ingestion(error@),
        }
    }
}

/// A table creation in specifications: the pool's answer, once there is one,
/// and the run of the statement.
pub struct CreationView {
    pub connection: Option<Result<(), Seq<char>>>,
    pub run: RunView,
}

impl CreationView {
    /// The run is well formed. Every creation is well formed.
    pub open spec fn well_formed(self) -> bool {
        self.run.well_formed()
    }

    /// The creation after the pool's answer. Only the first answer counts.
    pub open spec fn after_connection(self, acquired: Result<(), Seq<char>>) -> CreationView {
        match self.connection {
            None => CreationView { connection: Some(acquired), ..self },
            Some(_) => self,
        }
    }

    /// The statement to issue next: none before a connection is held, none
    /// after the pool was exhausted.
    pub open spec fn next(self) -> Option<Seq<char>> {
        match self.connection {
            Some(Ok(())) => self.run.next(),
            _ => None,
        }
    }

    /// The creation after the store's answer to the statement that was due.
    pub open spec fn after_reply(self, reply: EngineReplyView) -> CreationView {
        match self.connection {
            Some(Ok(())) => CreationView { run: self.run.after(reply), ..self },
            _ => self,
        }
    }

    /// The result of the creation; `None` while it waits for the pool or for
    /// the store.
    pub open spec fn result(self) -> Option<Result<(), CreationErrorView>> {
        match self.connection {
            None => None,
            Some(Err(detail)) => Some(Err(CreationErrorView::Pool(detail))),
            Some(Ok(())) => match self.run.result() {
                None => None,
                Some(Ok(())) => Some(Ok(())),
                Some(Err(error)) => Some(Err(CreationErrorView::Ingestion(error))),
            },
        }
    }
}

/// An exhausted pool ends the creation with the pool's error, and for good:
/// no statement is offered then or after any further answer, so nothing is
/// executed and no table is created.
pub proof fn an_exhausted_pool_creates_nothing(
    creation: CreationView,
    detail: Seq<char>,
    replies: Seq<EngineReplyView>,
)
    requires
        creation.connection is None,
    ensures
        creation.after_connection(Err(detail)).next() is None,
        creation.after_connection(Err(detail)).result() == Some(
            Err::<(), CreationErrorView>(CreationErrorView::Pool(detail)),
        ),
        forall|i: int|
            0 <= i < replies.len() ==> creation.after_connection(Err(detail)).after_reply(
                #[trigger] replies[i],
            ) == creation.after_connection(Err(detail)),
{
}

/// The creation of a topic's destination table, as one pooled operation:
/// it asks the pool for a connection and issues its one statement on it.
///
/// The caller does the outside work: it asks the pool and tells the creation
/// the answer, then issues the statement and records the store's answer.
pub struct TableCreation {
    connection: Option<Result<(), PoolExhausted>>,
    run: IngestionRun,
}

impl View for TableCreation {
    type V = CreationView;

    closed spec fn view(&self) -> CreationView {
        CreationView {
            connection: match self.connection {
                Some(acquired) => Some(answer_of(acquired)),
                None => None,
            },
            run: self.run@,
        }
    }
}

impl TableCreation {
    /// Takes the pool's answer: `Ok` once a connection is held, the pool's
    /// error where none became available.
    pub fn connection(&mut self, acquired: Result<(), PoolExhausted>)
        ensures
            final(self)@ == old(self)@.after_connection(answer_of(acquired)),
    {
        if self.connection.is_none() {
            self.connection = Some(acquired);
        }
    }

    /// The statement to issue next on the connection; `None` where there is
    /// none to issue.
    pub fn next_statement(&self) -> (sql: Option<&str>)
        ensures
            match sql {
                Some(text) => self@.next() == Some(text@),
                None => self@.next() is None,
            },
    {
        match &self.connection {
            Some(Ok(())) => self.run.next_statement(),
            _ => None,
        }
    }

    /// Records the store's answer to the statement that was due.
    pub fn record(&mut self, reply: EngineReply)
        ensures
            final(self)@ == old(self)@.after_reply(reply@),
    {
        match &self.connection {
            Some(Ok(())) => {
                self.run.record(reply);
            },
            _ => {},
        }
    }

    /// The result of the creation; `None` while it waits for the pool or for
    /// the store.
    pub fn outcome(self) -> (ended: Option<Result<(), CreationError>>)
        ensures
            self@.well_formed(),
            match ended {
                None => self@.result() is None,
                Some(Ok(())) => self@.result() == Some(Ok::<(), CreationErrorView>(())),
                Some(Err(error)) => self@.result() == Some(Err::<(), CreationErrorView>(error@)),
            },
    {
        let ended = self.run.outcome();
        match self.connection {
            None => None,
            Some(Err(exhausted)) => Some(Err(CreationError::Pool(exhausted))),
            Some(Ok(())) => match ended {
                None => None,
                Some(Ok(())) => Some(Ok(())),
                Some(Err(error)) => Some(Err(CreationError::Ingestion(error))),
            },
        }
    }
}

/// Starts the creation of a topic's destination table: one statement, built
/// from the configured schema, which creates the table unless it exists. The
/// creation has not asked for a connection yet.
pub fn create_table_if_not_exists(topic_config: &KafkaTopicConfig) -> (creation: TableCreation)
    ensures
        creation@ == (CreationView {
            connection: None,
            run: RunView::fresh(seq![create_table_statement(topic_config@)]),
        }),
{
    let mut statements: Vec<String> = Vec::new();
    statements.push(create_table_sql(topic_config));
    let run = IngestionRun::new(statements);
    assert(run@.statements =~= seq![create_table_statement(topic_config@)]);
    TableCreation { connection: None, run }
}

} // verus!
