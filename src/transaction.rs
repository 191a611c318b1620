//! Transactions: one logical unit of work, finished exactly once.
use vstd::prelude::*;
use crate::error::{DatabaseError, DatabaseResult};
use crate::text::same_text;

verus! {

/// Where a transaction stands.
#[derive(Clone, Copy, Debug, PartialEq, Eq, Structural)]
pub enum TransactionState {
    Active,
    Committed,
    Aborted,
}

/// The two ways of finishing a transaction.
#[derive(Clone, Copy, Debug, PartialEq, Eq, Structural)]
pub enum TransactionOp {
    Commit,
    Abort,
}

/// The state that `op` leads to from `s`, or `None` where it is not allowed:
/// only an active transaction can be finished.
pub open spec fn transition(s: TransactionState, op: TransactionOp) -> Option<TransactionState> {
    match s {
        TransactionState::Active => Some(
            match op {
                TransactionOp::Commit => TransactionState::Committed,
                TransactionOp::Abort => TransactionState::Aborted,
            },
        ),
        _ => None,
    }
}

/// A handle on a unit of work that a backend can commit or abort.
pub trait DatabaseTransactionTrait {
    spec fn state(&self) -> TransactionState;

    /// Whether the transaction lives in process memory, so that finishing an
    /// active one cannot fail.
    spec fn in_process() -> bool;

    /// Aborts the transaction. Refused, with the handle unchanged, unless it is
    /// active.
    fn abort_transaction(&mut self) -> (r: DatabaseResult<()>)
        ensures
            r is Ok ==> transition(old(self).state(), TransactionOp::Abort) == Some(
                final(self).state(),
            ),
            r is Err ==> final(self).state() == old(self).state(),
            transition(old(self).state(), TransactionOp::Abort) is None ==> r is Err
                && r->Err_0 is TransactionError,
            Self::in_process() ==> (r is Ok <==> transition(
                old(self).state(),
                TransactionOp::Abort,
            ) is Some),
    ;

    /// Commits the transaction. Refused, with the handle unchanged, unless it
    /// is active.
    fn commit_transaction(&mut self) -> (r: DatabaseResult<()>)
        ensures
            r is Ok ==> transition(old(self).state(), TransactionOp::Commit) == Some(
                final(self).state(),
            ),
            r is Err ==> final(self).state() == old(self).state(),
            transition(old(self).state(), TransactionOp::Commit) is None ==> r is Err
                && r->Err_0 is TransactionError,
            Self::in_process() ==> (r is Ok <==> transition(
                old(self).state(),
                TransactionOp::Commit,
            ) is Some),
    ;
}

/// Once a transaction has been committed or aborted, neither a commit nor an
/// abort is allowed on it again.
pub proof fn lemma_single_terminal_transition(
    s: TransactionState,
    first: TransactionOp,
    second: TransactionOp,
)
    requires
        transition(s, first) is Some,
    ensures
        transition(transition(s, first)->0, second) is None,
{
}

/// Whether a request with this HTTP method mutates data and so runs inside a
/// transaction: POST, PATCH, DELETE and PUT do.
pub fn needs_transaction(method: &str) -> (r: bool)
    ensures
        r == (method@ == "POST"@ || method@ == "PATCH"@ || method@ == "DELETE"@ || method@
            == "PUT"@),
{
    same_text(method, "POST") || same_text(method, "PATCH") || same_text(method, "DELETE")
        || same_text(method, "PUT")
}

/// How a request's transaction is finished once its response status is
/// known: committed on success (2xx), aborted otherwise.
pub fn finishing_op(status: u16) -> (r: TransactionOp)
    ensures
        r == if 200 <= status < 300 {
            TransactionOp::Commit
        } else {
            TransactionOp::Abort
        },
{
    if 200 <= status && status < 300 {
        TransactionOp::Commit
    } else {
        TransactionOp::Abort
    }
}

/// The status answered for a request that runs inside a transaction: 500
/// when the transaction could not be started (the handler is then not run)
/// or could not be finished; the handler's status otherwise.
pub fn scoped_status(started: bool, handler_status: u16, finished: bool) -> (r: u16)
    ensures
        r == if started && finished {
            handler_status
        } else {
            500u16
        },
{
    if started && finished {
        handler_status
    } else {
        500
    }
}

/// A transaction of the in-memory backend: it only tracks its state.
#[derive(Debug)]
pub struct MemoryDatabaseTransaction {
    state: TransactionState,
}

impl MemoryDatabaseTransaction {
    /// A new, active transaction.
    pub fn new() -> (r: MemoryDatabaseTransaction)
        ensures
            r.state() == TransactionState::Active,
    {
        MemoryDatabaseTransaction { state: TransactionState::Active }
    }

    /// Where the transaction stands.
    pub fn current_state(&self) -> (r: TransactionState)
        ensures
            r == self.state(),
    {
        self.state
    }

    fn finish(&mut self, op: TransactionOp) -> (r: DatabaseResult<()>)
        ensures
            match transition(old(self).state(), op) {
                Some(n) => r is Ok && final(self).state() == n,
                None => r matches Err(DatabaseError::TransactionError(_)) && final(self).state()
                    == old(self).state(),
            },
    {
        match self.state {
            TransactionState::Active => {
                self.state = match op {
                    TransactionOp::Commit => TransactionState::Committed,
                    TransactionOp::Abort => TransactionState::Aborted,
                };
                Ok(())
            },
            TransactionState::Committed => Err(
                DatabaseError::TransactionError("transaction is already committed".to_owned()),
            ),
            TransactionState::Aborted => Err(
                DatabaseError::TransactionError("transaction is already aborted".to_owned()),
            ),
        }
    }
}

impl DatabaseTransactionTrait for MemoryDatabaseTransaction {
    closed spec fn state(&self) -> TransactionState {
        self.state
    }

    open spec fn in_process() -> bool {
        true
    }

    fn abort_transaction(&mut self) -> (r: DatabaseResult<()>) {
        self.finish(TransactionOp::Abort)
    }

    fn commit_transaction(&mut self) -> (r: DatabaseResult<()>) {
        self.finish(TransactionOp::Commit)
    }
}

} // verus!
