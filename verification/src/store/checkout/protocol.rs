//! The transaction protocol of a checkout and of a return, as a machine.
//!
//! The machine never touches the store. It hands out one statement at a
//! time; whoever drives it runs the statement and hands back the store's
//! answer, until the machine says that the transaction is complete or
//! that it must be rolled back. Both requests open a transaction, raise
//! it to serializable isolation before anything is read, read the state
//! of the book inside it, and write only where that state allows it.
use vstd::prelude::*;
use crate::database::model::checkout::CheckoutStateRow;
use crate::database::statement::{Reply, ReplyView, Statement};
use crate::model::checkout::event::{CreateCheckout, UpdateReturned};
use crate::repository::checkout::{CheckoutFailure, CheckoutRepositoryError};
use crate::store::checkout::state::{
    decide_create, decide_return, spec_decide_create, spec_decide_return,
};

verus! {

/// What a transaction is to do.
#[derive(Clone, Copy, Debug, PartialEq, Eq, Structural)]
pub enum Request {
    Create(CreateCheckout),
    Return(UpdateReturned),
}

/// Which answer the machine waits for.
#[derive(Clone, Copy, Debug, PartialEq, Eq, Structural)]
pub enum Phase {
    /// The answer to `Begin`.
    Beginning,
    /// The answer to `SetTransactionSerializable`.
    Isolating,
    /// The answer to `SelectState`.
    Reading,
    /// The answer to `InsertCheckout`.
    Inserting,
    /// The answer to `InsertReturned`.
    Recording,
    /// The answer to `DeleteCheckout`.
    Deleting,
    /// The answer to `Commit`.
    Committing,
    /// None: the transaction is over.
    Finished,
}

/// What the driver is to do next.
#[derive(Debug)]
pub enum Directive {
    /// Run the statement and hand its answer to `step`.
    Execute(Statement),
    /// Roll the transaction back, if it was opened, and report the error.
    Abort(CheckoutRepositoryError),
    /// The transaction is committed: report success.
    Complete,
}

/// A directive, with its error by its view.
pub enum DirectiveView {
    Execute(Statement),
    Abort(CheckoutFailure),
    Complete,
}

impl View for Directive {
    type V = DirectiveView;

    open spec fn view(&self) -> DirectiveView {
        match *self {
            Directive::Execute(s) => DirectiveView::Execute(s),
            Directive::Abort(e) => DirectiveView::Abort(e@),
            Directive::Complete => DirectiveView::Complete,
        }
    }
}

/// A lending transaction in progress.
#[derive(Clone, Copy, Debug, PartialEq, Eq, Structural)]
pub struct CheckoutTransaction {
    pub request: Request,
    pub phase: Phase,
}

pub open spec fn msg_not_inserted() -> Seq<char> {
    "No checkouts record has been inserted."@
}

pub open spec fn msg_not_recorded() -> Seq<char> {
    "No returned checkouts record has been inserted."@
}

pub open spec fn msg_not_deleted() -> Seq<char> {
    "No checkouts record has been deleted."@
}

pub open spec fn msg_out_of_turn() -> Seq<char> {
    "The store's answer does not fit the statement."@
}

impl Phase {
    /// How many answers the machine can still take, at most.
    pub open spec fn rank(self) -> nat {
        match self {
            Phase::Beginning => 6,
            Phase::Isolating => 5,
            Phase::Reading => 4,
            Phase::Inserting => 2,
            Phase::Recording => 3,
            Phase::Deleting => 2,
            Phase::Committing => 1,
            Phase::Finished => 0,
        }
    }
}

impl Request {
    /// The book that the request is about.
    pub open spec fn book_id(self) -> u128 {
        match self {
            Request::Create(e) => e.book_id@,
            Request::Return(e) => e.book_id@,
        }
    }
}

impl CheckoutTransaction {
    pub open spec fn at(self, phase: Phase) -> CheckoutTransaction {
        CheckoutTransaction { request: self.request, phase }
    }

    /// The machine after a failure, and the order to roll back.
    pub open spec fn fail(self, failure: CheckoutFailure) -> (CheckoutTransaction, DirectiveView) {
        (self.at(Phase::Finished), DirectiveView::Abort(failure))
    }

    /// The machine after a success so far, and the next statement.
    pub open spec fn go(self, phase: Phase, statement: Statement) -> (
        CheckoutTransaction,
        DirectiveView,
    ) {
        (self.at(phase), DirectiveView::Execute(statement))
    }

    /// What follows a state read that allows the request: its first write.
    pub open spec fn first_write(self) -> (CheckoutTransaction, DirectiveView) {
        match self.request {
            Request::Create(e) => self.go(
                Phase::Inserting,
                Statement::InsertCheckout {
                    book_id: e.book_id@,
                    user_id: e.checked_out_by@,
                    checked_out_at: e.checked_out_at.0,
                },
            ),
            Request::Return(e) => self.go(
                Phase::Recording,
                Statement::InsertReturned {
                    checkout_id: e.checkout_id@,
                    book_id: e.book_id@,
                    returned_at: e.returned_at.0,
                },
            ),
        }
    }

    /// The decision on the state read.
    pub open spec fn decide(self, row: Option<CheckoutStateRow>) -> Result<
        (),
        CheckoutFailure,
    > {
        match self.request {
            Request::Create(e) => spec_decide_create(row, e),
            Request::Return(e) => spec_decide_return(row, e),
        }
    }

    /// The machine's whole behaviour: the next machine and the next
    /// directive, from the machine and the store's answer.
    pub open spec fn spec_step(self, reply: ReplyView) -> (CheckoutTransaction, DirectiveView) {
        match (self.phase, reply) {
            (Phase::Finished, _) => self.fail(CheckoutFailure::Unexpected(msg_out_of_turn())),
            (Phase::Beginning, ReplyView::Failed(m)) => self.fail(CheckoutFailure::Transaction(m)),
            (Phase::Committing, ReplyView::Failed(m)) => self.fail(CheckoutFailure::Transaction(m)),
            (_, ReplyView::Failed(m)) => self.fail(CheckoutFailure::Unexpected(m)),
            (Phase::Beginning, ReplyView::Done) => self.go(
                Phase::Isolating,
                Statement::SetTransactionSerializable,
            ),
            (Phase::Isolating, ReplyView::Done) => self.go(
                Phase::Reading,
                Statement::SelectState { book_id: self.request.book_id() },
            ),
            (Phase::Reading, ReplyView::State(row)) => match self.decide(row) {
                Ok(()) => self.first_write(),
                Err(failure) => self.fail(failure),
            },
            (Phase::Inserting, ReplyView::RowsAffected(n)) => match self.request {
                Request::Create(_) => if n < 1 {
                    self.fail(CheckoutFailure::NoResourceAffected(msg_not_inserted()))
                } else {
                    self.go(Phase::Committing, Statement::Commit)
                },
                Request::Return(_) => self.fail(CheckoutFailure::Unexpected(msg_out_of_turn())),
            },
            (Phase::Recording, ReplyView::RowsAffected(n)) => match self.request {
                Request::Return(e) => if n < 1 {
                    self.fail(CheckoutFailure::NoResourceAffected(msg_not_recorded()))
                } else {
                    self.go(
                        Phase::Deleting,
                        Statement::DeleteCheckout {
                            checkout_id: e.checkout_id@,
                            book_id: e.book_id@,
                        },
                    )
                },
                Request::Create(_) => self.fail(CheckoutFailure::Unexpected(msg_out_of_turn())),
            },
            (Phase::Deleting, ReplyView::RowsAffected(n)) => match self.request {
                Request::Return(_) => if n < 1 {
                    self.fail(CheckoutFailure::NoResourceAffected(msg_not_deleted()))
                } else {
                    self.go(Phase::Committing, Statement::Commit)
                },
                Request::Create(_) => self.fail(CheckoutFailure::Unexpected(msg_out_of_turn())),
            },
            (Phase::Committing, ReplyView::Done) => (
                self.at(Phase::Finished),
                DirectiveView::Complete,
            ),
            _ => self.fail(CheckoutFailure::Unexpected(msg_out_of_turn())),
        }
    }

    /// Opens the protocol for a request: the machine, and its first
    /// statement, which is always `Begin`.
    pub fn begin(request: Request) -> (r: (CheckoutTransaction, Statement))
        ensures
            r.0 == (CheckoutTransaction { request, phase: Phase::Beginning }),
            r.1 == Statement::Begin,
    {
        (CheckoutTransaction { request, phase: Phase::Beginning }, Statement::Begin)
    }

    /// Whether the transaction is over.
    pub fn is_finished(&self) -> (r: bool)
        ensures
            r == (self.phase == Phase::Finished),
    {
        match self.phase {
            Phase::Finished => true,
            _ => false,
        }
    }

    fn aborted(self, error: CheckoutRepositoryError) -> (r: (CheckoutTransaction, Directive))
        ensures
            (r.0, r.1@) == self.fail(error@),
    {
        (CheckoutTransaction { request: self.request, phase: Phase::Finished }, Directive::Abort(error))
    }

    fn out_of_turn(self) -> (r: (CheckoutTransaction, Directive))
        ensures
            (r.0, r.1@) == self.fail(CheckoutFailure::Unexpected(msg_out_of_turn())),
    {
        let message = String::from_str("The store's answer does not fit the statement.");
        self.aborted(CheckoutRepositoryError::Unexpected(message))
    }

    fn proceed(self, phase: Phase, statement: Statement) -> (r: (CheckoutTransaction, Directive))
        ensures
            (r.0, r.1@) == self.go(phase, statement),
    {
        (CheckoutTransaction { request: self.request, phase }, Directive::Execute(statement))
    }

    fn unaffected(self, message: &str) -> (r: (CheckoutTransaction, Directive))
        ensures
            (r.0, r.1@) == self.fail(CheckoutFailure::NoResourceAffected(message@)),
    {
        self.aborted(CheckoutRepositoryError::NoResourceAffected(String::from_str(message)))
    }

    /// Takes the store's answer to the statement last handed out, and says
    /// what to do next.
    pub fn step(self, reply: Reply) -> (r: (CheckoutTransaction, Directive))
        ensures
            (r.0, r.1@) == self.spec_step(reply@),
            r.1 is Execute ==> r.0.phase.rank() < self.phase.rank(),
            !(r.1 is Execute) ==> r.0.phase == Phase::Finished,
    {
        match self.phase {
            Phase::Finished => self.out_of_turn(),
            Phase::Beginning => match reply {
                Reply::Failed(m) => self.aborted(CheckoutRepositoryError::Transaction(m)),
                Reply::Done => self.proceed(Phase::Isolating, Statement::SetTransactionSerializable),
                _ => self.out_of_turn(),
            },
            Phase::Isolating => match reply {
                Reply::Failed(m) => self.aborted(CheckoutRepositoryError::Unexpected(m)),
                Reply::Done => {
                    let book_id = match self.request {
                        Request::Create(e) => e.book_id.0,
                        Request::Return(e) => e.book_id.0,
                    };
                    self.proceed(Phase::Reading, Statement::SelectState { book_id })
                },
                _ => self.out_of_turn(),
            },
            Phase::Reading => match reply {
                Reply::Failed(m) => self.aborted(CheckoutRepositoryError::Unexpected(m)),
                Reply::State(row) => match self.request {
                    Request::Create(e) => match decide_create(row, &e) {
                        Ok(()) => self.proceed(
                            Phase::Inserting,
                            Statement::InsertCheckout {
                                book_id: e.book_id.0,
                                user_id: e.checked_out_by.0,
                                checked_out_at: e.checked_out_at.0,
                            },
                        ),
                        Err(error) => self.aborted(error),
                    },
                    Request::Return(e) => match decide_return(row, &e) {
                        Ok(()) => self.proceed(
                            Phase::Recording,
                            Statement::InsertReturned {
                                checkout_id: e.checkout_id.0,
                                book_id: e.book_id.0,
                                returned_at: e.returned_at.0,
                            },
                        ),
                        Err(error) => self.aborted(error),
                    },
                },
                _ => self.out_of_turn(),
            },
            Phase::Inserting => match reply {
                Reply::Failed(m) => self.aborted(CheckoutRepositoryError::Unexpected(m)),
                Reply::RowsAffected(n) => match self.request {
                    Request::Create(_) => if n < 1 {
                        self.unaffected("No checkouts record has been inserted.")
                    } else {
                        self.proceed(Phase::Committing, Statement::Commit)
                    },
                    Request::Return(_) => self.out_of_turn(),
                },
                _ => self.out_of_turn(),
            },
            Phase::Recording => match reply {
                Reply::Failed(m) => self.aborted(CheckoutRepositoryError::Unexpected(m)),
                Reply::RowsAffected(n) => match self.request {
                    Request::Return(e) => if n < 1 {
                        self.unaffected("No returned checkouts record has been inserted.")
                    } else {
                        self.proceed(
                            Phase::Deleting,
                            Statement::DeleteCheckout {
                                checkout_id: e.checkout_id.0,
                                book_id: e.book_id.0,
                            },
                        )
                    },
                    Request::Create(_) => self.out_of_turn(),
                },
                _ => self.out_of_turn(),
            },
            Phase::Deleting => match reply {
                Reply::Failed(m) => self.aborted(CheckoutRepositoryError::Unexpected(m)),
                Reply::RowsAffected(n) => match self.request {
                    Request::Return(_) => if n < 1 {
                        self.unaffected("No checkouts record has been deleted.")
                    } else {
                        self.proceed(Phase::Committing, Statement::Commit)
                    },
                    Request::Create(_) => self.out_of_turn(),
                },
                _ => self.out_of_turn(),
            },
            Phase::Committing => match reply {
                Reply::Failed(m) => self.aborted(CheckoutRepositoryError::Transaction(m)),
                Reply::Done => (
                    CheckoutTransaction { request: self.request, phase: Phase::Finished },
                    Directive::Complete,
                ),
                _ => self.out_of_turn(),
            },
        }
    }
}

} // verus!
