//! The checkout store: lending and returning under a transaction protocol.
use vstd::prelude::*;
use crate::database::memory::{
    closed, msg_already_closed, msg_identifiers_exhausted, msg_transaction_open, Database,
};
use crate::database::statement::Statement;
use crate::database::tables::{
    closed_records, has_book, is_closed, is_out, loan_index, open_loan_of, open_record,
    open_records, DatabaseView, LedgerView, LoanRecord, OpenLoan,
};
use crate::model::book::BookId;
use crate::model::checkout::{Checkout, CheckoutId};
use crate::model::checkout::event::{CreateCheckout, UpdateReturned};
use crate::model::user::UserId;
use crate::repository::checkout::{CheckoutFailure, CheckoutRepositoryError};
use crate::store::checkout::order::{arrange_loans, lemma_arrange_members};
use crate::store::checkout::protocol::{
    msg_out_of_turn, CheckoutTransaction, Directive, DirectiveView, Phase, Request,
};
use crate::store::checkout::query::{
    lemma_select_members, listing_view, load, open_part, select, select_loans, views, Selection,
};
use crate::store::checkout::state::{outcome_view, BookState};

pub mod laws;
pub mod order;
pub mod protocol;
pub mod query;
pub mod state;

verus! {

/// What a transaction makes of the store when it is driven from the given
/// machine and statement to its end: its result, and the store afterwards.
pub open spec fn run(tx: CheckoutTransaction, statement: Statement, db: DatabaseView) -> (
    Result<(), CheckoutFailure>,
    DatabaseView,
)
    decreases tx.phase.rank(),
{
    let (after, reply) = db.execute(statement);
    let (next, directive) = tx.spec_step(reply);
    match directive {
        DirectiveView::Execute(following) => if next.phase.rank() < tx.phase.rank() {
            run(next, following, after)
        } else {
            (Err(CheckoutFailure::Unexpected(msg_out_of_turn())), after.rollback())
        },
        DirectiveView::Abort(failure) => (Err(failure), after.rollback()),
        DirectiveView::Complete => (Ok(()), after),
    }
}

impl DatabaseView {
    /// What a checkout does: it fails, and writes nothing, where the
    /// catalog lacks the book, where the book is out, and where no loan
    /// identifier is left; else it adds the open loan, under the next
    /// identifier. On a store that another transaction holds open it
    /// cannot begin: it fails, and that transaction is rolled back.
    pub open spec fn create(self, event: CreateCheckout) -> (
        Result<(), CheckoutFailure>,
        DatabaseView,
    ) {
        if self.saved is Some {
            (Err(CheckoutFailure::Transaction(msg_transaction_open())), self.rollback())
        } else if !has_book(self.books, event.book_id@) {
            (Err(CheckoutFailure::BookNotFound(event.book_id@)), self)
        } else if is_out(self.ledger.checkouts, event.book_id@) {
            (Err(CheckoutFailure::BookAlreadyCheckedOut(event.book_id@)), self)
        } else if self.ledger.next_checkout_id == u128::MAX {
            (Err(CheckoutFailure::Unexpected(msg_identifiers_exhausted())), self)
        } else {
            (
                Ok(()),
                self.with_ledger(
                    LedgerView {
                        checkouts: self.ledger.checkouts.push(
                            OpenLoan {
                                checkout_id: self.ledger.next_checkout_id,
                                book_id: event.book_id@,
                                user_id: event.checked_out_by@,
                                checked_out_at: event.checked_out_at.0,
                            },
                        ),
                        returned_checkouts: self.ledger.returned_checkouts,
                        next_checkout_id: (self.ledger.next_checkout_id + 1) as u128,
                    },
                ),
            )
        }
    }

    /// The refusal of a return whose loan is not the open loan of its book.
    pub open spec fn cannot_return(self, event: UpdateReturned) -> Result<(), CheckoutFailure> {
        Err(
            CheckoutFailure::CannotReturn(event.book_id@, event.returned_by@, event.checkout_id@),
        )
    }

    /// What a return does. It fails with `BookNotFound`, and writes
    /// nothing, where the catalog lacks the book. It fails with
    /// `CannotReturn`, and writes nothing, where the book is not out, and
    /// where it is out under another loan or to another user than the
    /// return names. Else it removes the open loan and adds the closed
    /// one. It fails too where the closed loans hold the loan already. On
    /// a store that another transaction holds open it cannot begin: it
    /// fails, and that transaction is rolled back.
    pub open spec fn update_returned(self, event: UpdateReturned) -> (
        Result<(), CheckoutFailure>,
        DatabaseView,
    ) {
        if self.saved is Some {
            (Err(CheckoutFailure::Transaction(msg_transaction_open())), self.rollback())
        } else if !has_book(self.books, event.book_id@) {
            (Err(CheckoutFailure::BookNotFound(event.book_id@)), self)
        } else {
            match open_loan_of(self.ledger.checkouts, event.book_id@) {
                None => (self.cannot_return(event), self),
                Some(loan) => if !(loan.checkout_id == event.checkout_id@ && loan.user_id
                    == event.returned_by@) {
                    (self.cannot_return(event), self)
                } else if is_closed(self.ledger.returned_checkouts, event.checkout_id@) {
                    (Err(CheckoutFailure::Unexpected(msg_already_closed())), self)
                } else {
                    (
                        Ok(()),
                        self.with_ledger(
                            LedgerView {
                                checkouts: self.ledger.checkouts.remove(
                                    loan_index(self.ledger.checkouts, event.book_id@),
                                ),
                                returned_checkouts: self.ledger.returned_checkouts.push(
                                    closed(loan, event.returned_at.0),
                                ),
                                next_checkout_id: self.ledger.next_checkout_id,
                            },
                        ),
                    )
                },
            }
        }
    }
}

/// The machine at the start of a request.
pub open spec fn opening(request: Request) -> CheckoutTransaction {
    CheckoutTransaction { request, phase: Phase::Beginning }
}

/// Driving the protocol of a checkout against the store does what
/// `DatabaseView::create` says.
pub proof fn lemma_create_runs(db: DatabaseView, event: CreateCheckout)
    requires
        db.wf(),
    ensures
        run(opening(Request::Create(event)), Statement::Begin, db) == db.create(event),
{
    reveal_with_fuel(run, 7);
}

/// Driving the protocol of a return against the store does what
/// `DatabaseView::update_returned` says.
pub proof fn lemma_update_returned_runs(db: DatabaseView, event: UpdateReturned)
    requires
        db.wf(),
    ensures
        run(opening(Request::Return(event)), Statement::Begin, db) == db.update_returned(event),
{
    reveal_with_fuel(run, 7);
}

/// The checkout store over the tables in memory.
pub struct CheckoutRepositoryImpl {
    db: Database,
}

impl View for CheckoutRepositoryImpl {
    type V = DatabaseView;

    closed spec fn view(&self) -> DatabaseView {
        self.db@
    }
}

impl CheckoutRepositoryImpl {
    /// A store over the given tables.
    pub fn new(db: Database) -> (r: Self)
        ensures
            r@ == db@,
    {
        CheckoutRepositoryImpl { db }
    }

    /// Gives the tables back.
    pub fn into_inner(self) -> (r: Database)
        ensures
            r@ == self@,
    {
        self.db
    }

    /// The lending state of a book: `None` where the catalog lacks it.
    pub fn book_state(&self, book_id: &BookId) -> (r: Option<BookState>)
        ensures
            r == self@.state_of(book_id@),
    {
        if !self.db.contains_book(book_id.0) {
            None
        } else {
            match self.db.open_loan(book_id.0) {
                Some(loan) => Some(
                    BookState::CheckedOut {
                        checkout_id: CheckoutId(loan.checkout_id),
                        borrower: UserId(loan.user_id),
                    },
                ),
                None => Some(BookState::Available),
            }
        }
    }

    /// The open loans, by ascending instant of checkout. Fails with
    /// `InvalidSavedEntity` where a book of theirs does not pass
    /// validation.
    pub fn find_unreturned_all(&self) -> (r: Result<Vec<Checkout>, CheckoutRepositoryError>)
        ensures
            listing_view(r) == self@.unreturned_all(),
    {
        self.db.constraints_hold();
        let loans = arrange_loans(self.db.open_loans(), true);
        proof {
            let given = open_records(self@.ledger.checkouts);
            assert forall|i: int| 0 <= i < loans.len() implies has_book(
                self@.books,
                (#[trigger] loans[i]).book_id,
            ) by {
                lemma_arrange_members(given, true, i);
                let k = choose|k: int| 0 <= k < given.len() && given[k] == loans[i];
                assert(given[k] == open_record(self@.ledger.checkouts[k]));
            }
        }
        load(&self.db, &loans)
    }

    /// The open loans of a user, by ascending instant of checkout. Fails
    /// with `InvalidSavedEntity` where a book of theirs does not pass
    /// validation.
    pub fn find_unreturned_by_user_id(&self, user_id: &UserId) -> (r: Result<
        Vec<Checkout>,
        CheckoutRepositoryError,
    >)
        ensures
            listing_view(r) == self@.unreturned_by_user(user_id@),
    {
        self.db.constraints_hold();
        let all = self.db.open_loans();
        let chosen = select_loans(&all, Selection::LentTo(user_id.0));
        let loans = arrange_loans(chosen, true);
        proof {
            let given = open_records(self@.ledger.checkouts);
            let picked = select(given, Selection::LentTo(user_id@));
            assert forall|i: int| 0 <= i < loans.len() implies has_book(
                self@.books,
                (#[trigger] loans[i]).book_id,
            ) by {
                lemma_arrange_members(picked, true, i);
                let j = choose|j: int| 0 <= j < picked.len() && picked[j] == loans[i];
                lemma_select_members(given, Selection::LentTo(user_id@), j);
                let k = choose|k: int| 0 <= k < given.len() && given[k] == picked[j];
                assert(given[k] == open_record(self@.ledger.checkouts[k]));
            }
        }
        load(&self.db, &loans)
    }

    /// The loans of a book: the open one first, if the book is out, then
    /// the closed ones by descending instant of checkout. Nothing, where
    /// the catalog lacks the book. Fails with `InvalidSavedEntity` where
    /// the book does not pass validation and has a loan.
    pub fn find_history_by_book_id(&self, book_id: &BookId) -> (r: Result<
        Vec<Checkout>,
        CheckoutRepositoryError,
    >)
        ensures
            listing_view(r) == self@.history_by_book(book_id@),
    {
        if !self.db.contains_book(book_id.0) {
            let nothing: Vec<Checkout> = Vec::new();
            assert(views(nothing@) =~= Seq::empty());
            return Ok(nothing);
        }
        let all = self.db.closed_loans();
        let chosen = select_loans(&all, Selection::OfBook(book_id.0));
        let mut closed = arrange_loans(chosen, false);
        let mut loans: Vec<LoanRecord> = Vec::new();
        match self.db.open_loan(book_id.0) {
            Some(loan) => {
                loans.push(
                    LoanRecord {
                        checkout_id: loan.checkout_id,
                        book_id: loan.book_id,
                        user_id: loan.user_id,
                        checked_out_at: loan.checked_out_at,
                        returned_at: None,
                    },
                );
            },
            None => {},
        }
        assert(loans@ =~= open_part(self@.ledger.checkouts, book_id@));
        let ghost first = loans@;
        let ghost rest = closed@;
        loans.append(&mut closed);
        proof {
            let given = closed_records(self@.ledger.returned_checkouts);
            let picked = select(given, Selection::OfBook(book_id@));
            assert forall|i: int| 0 <= i < loans.len() implies has_book(
                self@.books,
                (#[trigger] loans[i]).book_id,
            ) by {
                if i < first.len() {
                    assert(loans[i] == first[i]);
                } else {
                    assert(loans[i] == rest[i - first.len()]);
                    lemma_arrange_members(picked, false, i - first.len());
                    let j = choose|j: int| 0 <= j < picked.len() && picked[j] == loans[i];
                    lemma_select_members(given, Selection::OfBook(book_id@), j);
                }
            }
        }
        load(&self.db, &loans)
    }

    /// Drives the protocol of a request against the tables, statement by
    /// statement, and rolls back where the protocol says so.
    fn transact(&mut self, request: Request) -> (r: Result<(), CheckoutRepositoryError>)
        ensures
            old(self)@.wf(),
            final(self)@.wf(),
            (outcome_view(r), final(self)@) == run(opening(request), Statement::Begin, old(self)@),
    {
        self.db.constraints_hold();
        let (mut tx, mut statement) = CheckoutTransaction::begin(request);
        loop
            invariant
                old(self)@.wf(),
                self@.wf(),
                run(tx, statement, self@) == run(opening(request), Statement::Begin, old(self)@),
            decreases tx.phase.rank(),
        {
            let reply = self.db.execute(statement);
            let (next, directive) = tx.step(reply);
            match directive {
                Directive::Execute(following) => {
                    tx = next;
                    statement = following;
                },
                Directive::Abort(error) => {
                    self.db.rollback();
                    return Err(error);
                },
                Directive::Complete => {
                    return Ok(());
                },
            }
        }
    }

    /// Lends a book: opens a loan of it to the user, at the instant given.
    ///
    /// Fails with `BookNotFound` where the catalog lacks the book and with
    /// `BookAlreadyCheckedOut` where it is out; a store that has no loan
    /// identifier left fails with `Unexpected`. A failure writes nothing.
    /// Where another transaction holds the store open, this one cannot
    /// begin: it fails with `Transaction`, and the other is rolled back.
    pub fn create(&mut self, event: CreateCheckout) -> (r: Result<(), CheckoutRepositoryError>)
        ensures
            old(self)@.wf(),
            final(self)@.wf(),
            final(self)@.idle(),
            (outcome_view(r), final(self)@) == old(self)@.create(event),
    {
        let r = self.transact(Request::Create(event));
        proof {
            lemma_create_runs(old(self)@, event);
        }
        r
    }

    /// Takes a book back: closes the loan that the return names, at the
    /// instant given.
    ///
    /// Fails with `BookNotFound` where the catalog lacks the book, and with
    /// `CannotReturn` where the book is not out, or is out under another
    /// loan or to another user than named. A failure writes nothing.
    /// Where another transaction holds the store open, this one cannot
    /// begin: it fails with `Transaction`, and the other is rolled back.
    pub fn update_returned(&mut self, event: UpdateReturned) -> (r: Result<
        (),
        CheckoutRepositoryError,
    >)
        ensures
            old(self)@.wf(),
            final(self)@.wf(),
            final(self)@.idle(),
            (outcome_view(r), final(self)@) == old(self)@.update_returned(event),
    {
        let r = self.transact(Request::Return(event));
        proof {
            lemma_update_returned_runs(old(self)@, event);
        }
        r
    }
}

} // verus!
