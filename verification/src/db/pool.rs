use vstd::prelude::*;
use vstd::string::StringExecFns;

verus! {

/// No connection became available within the pool's wait. The operation that
/// asked may try again; the pool never queues without bound.
#[derive(Debug)]
pub struct PoolExhausted {
    /// What the pool said.
    pub detail: String,
}

impl View for PoolExhausted {
    type V = Seq<char>;

    /// In specifications the error is what the pool said.
    open spec fn view(&self) -> Seq<char> {
        self.detail@
    }
}

/// The pool's answer to a request for a connection, in specifications.
pub open spec fn answer_of(acquired: Result<(), PoolExhausted>) -> Result<(), Seq<char>> {
    match acquired {
        Ok(()) => Ok(()),
        Err(exhausted) => Err(exhausted@),
    }
}

/// The one store file, fixed for the life of the process, that holds the
/// tables of every dataset.
pub open spec fn store_path() -> Seq<char> {
    "/tmp/hydrocube.duckdb"@
}

/// The path of the store file that every pooled connection opens.
pub fn backing_store_path() -> (path: String)
    ensures
        path@ == store_path(),
{
    String::from_str("/tmp/hydrocube.duckdb")
}

} // verus!
