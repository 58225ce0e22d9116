use vstd::prelude::*;
use vstd::string::StringExecFns;

verus! {

/// What the store answered to one statement.
#[derive(Debug)]
pub enum EngineReply {
    /// The statement was carried out.
    Done,
    /// The store refused the statement; the text is its message.
    Failed(String),
}

/// An answer of the store in specifications.
pub enum EngineReplyView {
    Done,
    Failed(Seq<char>),
}

impl View for EngineReply {
    type V = EngineReplyView;

    open spec fn view(&self) -> EngineReplyView {
        match self {
            EngineReply::Done => EngineReplyView::Done,
            EngineReply::Failed(message) => EngineReplyView::Failed(message@),
        }
    }
}

/// Why an ingestion did not materialize its table.
#[derive(Debug)]
pub enum IngestionError {
    /// The dataset's format has no loader.
    NotImplemented,
    /// The store refused a statement: malformed source data, a missing
    /// directory, or an error of the store itself.
    Engine(String),
}

/// An ingestion error in specifications.
pub enum IngestionErrorView {
    NotImplemented,
    Engine(Seq<char>),
}

impl View for IngestionError {
    type V = IngestionErrorView;

    open spec fn view(&self) -> IngestionErrorView {
        match self {
            IngestionError::NotImplemented => IngestionErrorView::NotImplemented,
            IngestionError::Engine(message) => IngestionErrorView::Engine(message@),
        }
    }
}

impl IngestionError {
    /// The error in words: a fixed sentence for a format without a loader,
    /// the store's own message for a refusal.
    pub open spec fn text(error: IngestionErrorView) -> Seq<char> {
        match error {
            IngestionErrorView::NotImplemented => "ingestion is not implemented for this format"@,
            IngestionErrorView::Engine(message) => message,
        }
    }

    /// The error in words.
    pub fn describe(&self) -> (text: String)
        ensures
            text@ == IngestionError::text(self@),
    {
        match self {
            IngestionError::NotImplemented => String::from_str(
                "ingestion is not implemented for this format",
            ),
            IngestionError::Engine(message) => message.clone(),
        }
    }
}

/// How a run ended, in specifications.
pub enum Ending {
    /// Every statement was carried out.
    Completed,
    /// The store refused a statement with this message.
    Refused(Seq<char>),
}

/// A run in specifications: the statements, how many of them the store has
/// carried out, and the message of the refusal that stopped it.
pub struct RunView {
    pub statements: Seq<Seq<char>>,
    pub done: nat,
    pub refusal: Option<Seq<char>>,
}

impl RunView {
    /// A run that has issued nothing yet.
    pub open spec fn fresh(statements: Seq<Seq<char>>) -> RunView {
        RunView { statements, done: 0, refusal: None }
    }

    /// No more statements are done than there are. Every run is well formed:
    /// a fresh one is, and no answer makes it otherwise.
    pub open spec fn well_formed(self) -> bool {
        self.done <= self.statements.len()
    }

    /// A statement is still to be issued.
    pub open spec fn pending(self) -> bool {
        self.refusal is None && self.done < self.statements.len()
    }

    /// The statement to issue next, if any.
    pub open spec fn next(self) -> Option<Seq<char>> {
        if self.pending() {
            Some(self.statements[self.done as int])
        } else {
            None
        }
    }

    /// The run after the store's answer to the statement that was due. An
    /// answer to a run that has nothing pending changes nothing.
    pub open spec fn after(self, reply: EngineReplyView) -> RunView {
        if !self.pending() {
            self
        } else {
            match reply {
                EngineReplyView::Done => RunView { done: self.done + 1, ..self },
                EngineReplyView::Failed(message) => RunView { refusal: Some(message), ..self },
            }
        }
    }

    /// The run after a sequence of answers, taken in order.
    pub open spec fn after_all(self, replies: Seq<EngineReplyView>) -> RunView
        decreases replies.len(),
    {
        if replies.len() == 0 {
            self
        } else {
            self.after(replies[0]).after_all(replies.subrange(1, replies.len() as int))
        }
    }

    /// The result of the run: success once every statement is done, the
    /// store's message once one was refused; `None` while one is pending.
    pub open spec fn result(self) -> Option<Result<(), IngestionErrorView>> {
        match self.ending() {
            None => None,
            Some(Ending::Completed) => Some(Ok(())),
            Some(Ending::Refused(message)) => Some(Err(IngestionErrorView::Engine(message))),
        }
    }

    /// How the run ended; `None` while a statement is pending.
    pub open spec fn ending(self) -> Option<Ending> {
        match self.refusal {
            Some(message) => Some(Ending::Refused(message)),
            None => if self.done < self.statements.len() {
                None
            } else {
                Some(Ending::Completed)
            },
        }
    }
}

/// A refusal is final: whatever the store is said to answer afterwards, the
/// run stays as the refusal left it, and it offers no further statement.
pub proof fn a_refused_run_issues_nothing_more(run: RunView, replies: Seq<EngineReplyView>)
    requires
        run.refusal is Some,
    ensures
        run.after_all(replies) == run,
        run.after_all(replies).next() is None,
    decreases replies.len(),
{
    if replies.len() > 0 {
        a_refused_run_issues_nothing_more(run, replies.subrange(1, replies.len() as int));
    }
}

/// A run completes exactly when the store has carried out each of its
/// statements: after as many `Done` answers as there are statements it has
/// ended as `Completed`, and before that it is still pending.
pub proof fn a_run_completes_once_every_statement_is_done(
    run: RunView,
    replies: Seq<EngineReplyView>,
)
    requires
        run.well_formed(),
        run.refusal is None,
        replies.len() <= run.statements.len() - run.done,
        forall|i: int| 0 <= i < replies.len() ==> replies[i] is Done,
    ensures
        run.after_all(replies) == (RunView { done: run.done + replies.len(), ..run }),
        run.after_all(replies).ending() == if run.done + replies.len() == run.statements.len() {
            Some(Ending::Completed)
        } else {
            None
        },
    decreases replies.len(),
{
    if replies.len() > 0 {
        let rest = replies.subrange(1, replies.len() as int);
        assert(replies[0] is Done);
        assert forall|i: int| 0 <= i < rest.len() implies rest[i] is Done by {
            assert(rest[i] == replies[i + 1]);
        }
        a_run_completes_once_every_statement_is_done(run.after(replies[0]), rest);
    }
}

/// One ingestion in progress: the statements that materialize a table, issued
/// one at a time, in order, until one is refused or all are done.
///
/// The caller issues each statement against the store and records the answer.
pub struct IngestionRun {
    statements: Vec<String>,
    done: usize,
    refusal: Option<String>,
}

impl View for IngestionRun {
    type V = RunView;

    closed spec fn view(&self) -> RunView {
        RunView {
            statements: self.statements.deep_view(),
            done: self.done as nat,
            refusal: match self.refusal {
                Some(message) => Some(message@),
                None => None,
            },
        }
    }
}

impl IngestionRun {
    #[verifier::type_invariant]
    spec fn inv(&self) -> bool {
        self.done <= self.statements@.len()
    }

    /// A run over `statements` that has issued nothing yet.
    pub fn new(statements: Vec<String>) -> (run: IngestionRun)
        ensures
            run@ == RunView::fresh(statements.deep_view()),
            run@.well_formed(),
    {
        IngestionRun { statements, done: 0, refusal: None }
    }

    /// The statement to issue next; `None` once the run has ended.
    pub fn next_statement(&self) -> (sql: Option<&str>)
        ensures
            self@.well_formed(),
            match sql {
                Some(text) => self@.next() == Some(text@),
                None => self@.next() is None,
            },
    {
        proof {
            use_type_invariant(self);
        }
        if self.refusal.is_none() && self.done < self.statements.len() {
            Some(self.statements[self.done].as_str())
        } else {
            None
        }
    }

    /// Records the store's answer to the statement that was due.
    pub fn record(&mut self, reply: EngineReply)
        ensures
            final(self)@ == old(self)@.after(reply@),
            final(self)@.well_formed(),
    {
        proof {
            use_type_invariant(&*self);
        }
        if self.refusal.is_none() && self.done < self.statements.len() {
            match reply {
                EngineReply::Done => {
                    self.done = self.done + 1;
                },
                EngineReply::Failed(message) => {
                    self.refusal = Some(message);
                },
            }
        }
    }

    /// The result of the run; `None` while a statement is pending.
    pub fn outcome(&self) -> (ended: Option<Result<(), IngestionError>>)
        ensures
            self@.well_formed(),
            match ended {
                None => self@.result() is None,
                Some(Ok(())) => self@.result() == Some(Ok::<(), IngestionErrorView>(())),
                Some(Err(error)) => self@.result() == Some(Err::<(), IngestionErrorView>(error@)),
            },
    {
        proof {
            use_type_invariant(self);
        }
        match &self.refusal {
            Some(message) => Some(Err(IngestionError::Engine(message.clone()))),
            None => if self.done < self.statements.len() {
                None
            } else {
                Some(Ok(()))
            },
        }
    }
}

} // verus!
