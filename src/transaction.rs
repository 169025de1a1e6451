//! The request-scoped unit of work over the catalog.
//!
//! Before the handler runs, the middleware installs a slot holding an
//! unopened transaction in the request's storage. A handler extracts it at
//! most once and opens it on first use. After the handler, the middleware
//! steals what is left and commits it unless the response is of the client-
//! or server-error class, in which case it rolls it back.
use vstd::prelude::*;
use crate::slot::{Slot, SlotState, take_result};

verus! {

#[derive(Debug)]
pub enum TxError {
    /// No unit of work was installed for this request.
    MissingMiddleware,
    /// The transaction was acquired twice in one request.
    MultipleExtractors,
    /// The catalog failed to commit or roll back.
    Database(sqlx::Error),
}

/// A transaction that is begun on first use; `T` is the catalog's transaction.
pub struct LazyTx<T> {
    tx: Option<T>,
}

impl<T> LazyTx<T> {
    pub closed spec fn current(&self) -> Option<T> {
        self.tx
    }

    pub fn new() -> (r: Self)
        ensures
            r.current() is None,
    {
        LazyTx { tx: None }
    }

    pub fn is_begun(&self) -> (r: bool)
        ensures
            r == self.current() is Some,
    {
        self.tx.is_some()
    }

    /// Stores the transaction the catalog just began.
    pub fn begin_with(&mut self, tx: T)
        requires
            old(self).current() is None,
        ensures
            final(self).current() == Some(tx),
    {
        self.tx = Some(tx);
    }

    pub fn tx(self) -> (r: Option<T>)
        ensures
            r == self.current(),
    {
        self.tx
    }
}

/// What a handler extracted: the request's transaction, begun lazily.
pub struct Transaction<T> {
    lazy: LazyTx<T>,
}

impl<T> Transaction<T> {
    pub closed spec fn current(&self) -> Option<T> {
        self.lazy.current()
    }

    /// Whether the catalog must begin a transaction before the first statement.
    pub fn needs_begin(&self) -> (r: bool)
        ensures
            r == self.current() is None,
    {
        !self.lazy.is_begun()
    }

    pub fn begin_with(&mut self, tx: T)
        requires
            old(self).current() is None,
        ensures
            final(self).current() == Some(tx),
    {
        self.lazy.begin_with(tx);
    }

    /// The open transaction, to run statements in.
    pub fn connection(&mut self) -> (r: &mut T)
        requires
            old(self).current() is Some,
        ensures
            Some(*r) == old(self).current(),
            final(self).current() == Some(*final(r)),
    {
        self.lazy.tx.as_mut().unwrap()
    }
}

/// What the handler produced: a built response with its status, or a failure.
#[derive(Clone, Copy, Debug, PartialEq, Eq, Structural)]
pub enum HandlerOutcome {
    Responded(u16),
    Failed,
}

/// Client- and server-error statuses.
pub open spec fn is_error_status(status: u16) -> bool {
    400 <= status < 600
}

/// Whether the unit of work of a request that ended so is committed.
pub open spec fn commits(outcome: HandlerOutcome) -> bool {
    outcome matches HandlerOutcome::Responded(s) && !is_error_status(s)
}

pub fn is_error_status_code(status: u16) -> (r: bool)
    ensures
        r == is_error_status(status),
{
    400 <= status && status < 600
}

/// What the middleware does with the request's transaction.
#[derive(Debug)]
pub enum Finalize<T> {
    /// The handler never opened a transaction, or already finished it.
    Nothing,
    Commit(T),
    Rollback(T),
}

/// What is known of a request's storage: whether a slot is installed, whether
/// a holder has its transaction, whether the slot still holds one, and
/// whether a handler has ever extracted it in this request.
pub ghost struct ScopeState {
    pub installed: bool,
    pub lent: bool,
    pub filled: bool,
    pub extracted: bool,
}

pub ghost enum Extraction {
    Acquired,
    Missing,
    Multiple,
}

pub open spec fn extraction(s: ScopeState) -> Extraction {
    if !s.installed {
        Extraction::Missing
    } else if s.extracted || s.lent || !s.filled {
        Extraction::Multiple
    } else {
        Extraction::Acquired
    }
}

pub open spec fn after_extraction(s: ScopeState) -> ScopeState {
    if extraction(s) is Acquired {
        ScopeState { installed: true, lent: true, filled: false, extracted: true }
    } else {
        s
    }
}

/// A step a handler takes on the request's storage.
pub ghost enum ScopeOp {
    Extract,
    Release,
    Finish,
}

pub open spec fn scope_step(s: ScopeState, op: ScopeOp) -> ScopeState {
    match op {
        ScopeOp::Extract => after_extraction(s),
        ScopeOp::Release => if s.installed && s.lent {
            ScopeState { installed: true, lent: false, filled: true, extracted: s.extracted }
        } else {
            s
        },
        ScopeOp::Finish => if s.installed && s.lent {
            ScopeState { installed: true, lent: false, filled: false, extracted: s.extracted }
        } else {
            s
        },
    }
}

pub open spec fn scope_run(s: ScopeState, ops: Seq<ScopeOp>) -> ScopeState
    decreases ops.len(),
{
    if ops.len() == 0 {
        s
    } else {
        scope_step(scope_run(s, ops.drop_last()), ops.last())
    }
}

/// Within one request, once a handler has extracted the transaction, every
/// later extraction is refused as `MultipleExtractors`, whatever releases
/// and finishes came in between. `s` is any state the storage can be in: a
/// transaction is out with a holder only after an extraction.
pub proof fn lemma_extract_twice(s: ScopeState, between: Seq<ScopeOp>)
    requires
        s.installed,
        s.lent ==> s.extracted,
    ensures
        extraction(s) is Acquired || extraction(s) is Multiple,
        extraction(scope_run(after_extraction(s), between)) is Multiple,
{
    lemma_extract_run(after_extraction(s), between);
}

proof fn lemma_extract_run(s: ScopeState, between: Seq<ScopeOp>)
    requires
        s.installed,
        s.lent ==> s.extracted,
    ensures
        ({
            let t = scope_run(s, between);
            &&& t.installed
            &&& t.lent ==> t.extracted
            &&& s.extracted ==> t.extracted
            &&& !t.extracted ==> t == s || extraction(s) is Acquired
        }),
    decreases between.len(),
{
    if between.len() > 0 {
        lemma_extract_run(s, between.drop_last());
    }
}

/// The request-scoped storage of the unit of work.
pub struct RequestScope<T> {
    slot: Option<Slot<LazyTx<T>>>,
    extracted: bool,
}

impl<T> RequestScope<T> {
    pub closed spec fn state(&self) -> ScopeState {
        match self.slot {
            Some(s) => ScopeState {
                installed: true,
                lent: s.is_lent(),
                filled: s.content() is Some,
                extracted: self.extracted,
            },
            None => ScopeState { installed: false, lent: false, filled: false, extracted: self.extracted },
        }
    }

    /// The transaction the slot holds: `None` when it holds none, else
    /// whether it was begun.
    pub closed spec fn held(&self) -> Option<Option<T>> {
        match self.slot {
            Some(s) => match s.content() {
                Some(lazy) => Some(lazy.current()),
                None => None,
            },
            None => None,
        }
    }

    /// Storage of a request that no middleware has seen yet.
    pub fn new() -> (r: Self)
        ensures
            !r.state().installed,
    {
        RequestScope { slot: None, extracted: false }
    }

    /// Installs a fresh slot with an unopened transaction; reports whether a
    /// slot was already there, which is a misuse of the middleware.
    pub fn install(&mut self) -> (replaced: bool)
        ensures
            replaced == old(self).state().installed,
            final(self).state() == (ScopeState { installed: true, lent: false, filled: true, extracted: false }),
            final(self).held() == Some(None::<T>),
    {
        let replaced = self.slot.is_some();
        self.slot = Some(Slot::new(LazyTx::new()));
        self.extracted = false;
        replaced
    }

    /// Whether a handler holds the request's transaction.
    pub fn is_lent(&self) -> (r: bool)
        ensures
            r == (self.state().installed && self.state().lent),
    {
        match &self.slot {
            Some(slot) => slot.is_out(),
            None => false,
        }
    }

    /// Acquires the request's transaction for a handler.
    pub fn extract(&mut self) -> (r: Result<Transaction<T>, TxError>)
        ensures
            final(self).state() == after_extraction(old(self).state()),
            extraction(old(self).state()) is Missing ==> r matches Err(TxError::MissingMiddleware),
            extraction(old(self).state()) is Multiple ==> r matches Err(TxError::MultipleExtractors),
            extraction(old(self).state()) is Acquired ==> (r matches Ok(t) && Some(t.current()) == old(self).held()),
            !(extraction(old(self).state()) is Acquired) ==> final(self).held() == old(self).held(),
    {
        if self.slot.is_none() {
            return Err(TxError::MissingMiddleware);
        }
        if self.extracted {
            return Err(TxError::MultipleExtractors);
        }
        match &mut self.slot {
            None => Err(TxError::MissingMiddleware),
            Some(slot) => match slot.take() {
                SlotState::Value(lazy) => {
                    self.extracted = true;
                    Ok(Transaction { lazy })
                },
                _ => Err(TxError::MultipleExtractors),
            },
        }
    }

    /// The handler is done with its transaction: it goes back to the slot.
    pub fn release(&mut self, handle: Transaction<T>)
        requires
            old(self).state().installed,
            old(self).state().lent,
        ensures
            final(self).state() == (ScopeState {
                installed: true,
                lent: false,
                filled: true,
                extracted: old(self).state().extracted,
            }),
            final(self).held() == Some(handle.current()),
    {
        match &mut self.slot {
            Some(slot) => slot.give_back(handle.lazy),
            None => {},
        }
    }

    /// The handler finishes the transaction itself (commit or rollback): the
    /// slot is left empty and the transaction, if begun, is handed back to be
    /// finished by the caller.
    pub fn finish(&mut self, handle: Transaction<T>) -> (r: Option<T>)
        requires
            old(self).state().installed,
            old(self).state().lent,
        ensures
            r == handle.current(),
            final(self).state() == (ScopeState {
                installed: true,
                lent: false,
                filled: false,
                extracted: old(self).state().extracted,
            }),
            final(self).held() is None,
    {
        match &mut self.slot {
            Some(slot) => slot.finish(),
            None => {},
        }
        handle.lazy.tx()
    }

    /// After the handler: takes what is left of the transaction and decides
    /// its fate from the handler's outcome.
    pub fn conclude(&mut self, outcome: HandlerOutcome) -> (r: Result<Finalize<T>, TxError>)
        ensures
            !old(self).state().installed ==> r matches Err(TxError::MissingMiddleware),
            old(self).state().installed && old(self).state().lent ==> r matches Err(TxError::MultipleExtractors),
            old(self).state().installed && !old(self).state().lent ==> match old(self).held() {
                Some(Some(tx)) => if commits(outcome) {
                    (r matches Ok(Finalize::Commit(t)) && t == tx)
                } else {
                    (r matches Ok(Finalize::Rollback(t)) && t == tx)
                },
                _ => r matches Ok(Finalize::Nothing),
            },
            old(self).state().installed && !old(self).state().lent ==> final(self).held() is None
                && !final(self).state().lent,
    {
        match &mut self.slot {
            None => Err(TxError::MissingMiddleware),
            Some(slot) => match slot.steal() {
                SlotState::Value(lazy) => match lazy.tx() {
                    Some(tx) => {
                        let rollback = match outcome {
                            HandlerOutcome::Responded(status) => is_error_status_code(status),
                            HandlerOutcome::Failed => true,
                        };
                        if rollback {
                            Ok(Finalize::Rollback(tx))
                        } else {
                            Ok(Finalize::Commit(tx))
                        }
                    },
                    None => Ok(Finalize::Nothing),
                },
                SlotState::Empty => Ok(Finalize::Nothing),
                SlotState::Locked => Err(TxError::MultipleExtractors),
            },
        }
    }
}

} // verus!
