//! What holds of every store and every request.
//!
//! The laws of a single request speak of a store that is idle: one that no
//! transaction holds open, as the store is between requests.
use vstd::prelude::*;
use crate::database::memory::lemma_loan_at;
use crate::database::model::checkout::CheckoutStateRow;
use crate::database::statement::{ReplyView, Statement};
use crate::database::tables::{
    closed_records, has_book, is_out, loan_index, open_loan_of, open_records, ClosedLoan,
    DatabaseView, LoanRecord, OpenLoan,
};
use crate::model::checkout::CheckoutId;
use crate::model::checkout::event::{CreateCheckout, UpdateReturned};
use crate::model::timestamp::Timestamp;
use crate::repository::checkout::CheckoutFailure;
use crate::store::checkout::order::{arrange, lemma_arrange, lemma_arrange_members, may_precede};
use crate::store::checkout::protocol::{CheckoutTransaction, DirectiveView, Phase};
use crate::store::checkout::query::{
    joined, joined_all, lemma_select_members, open_part, read_loans, select, Selection,
};
use crate::store::checkout::state::{spec_decide_return, BookState};

verus! {

/// At most one loan of a book is open: two rows of the open loans never
/// name the same book. Every operation of the store keeps the constraints
/// that this follows from.
pub proof fn lemma_one_open_loan_per_book(db: DatabaseView, i: int, j: int)
    requires
        db.wf(),
        0 <= i < db.ledger.checkouts.len(),
        0 <= j < db.ledger.checkouts.len(),
        i != j,
    ensures
        db.ledger.checkouts[i].book_id != db.ledger.checkouts[j].book_id,
{
    if i < j {
        assert(db.ledger.checkouts[i].book_id != db.ledger.checkouts[j].book_id);
    } else {
        assert(db.ledger.checkouts[j].book_id != db.ledger.checkouts[i].book_id);
    }
}

/// Of two checkouts of the same book, whichever runs first, the second
/// fails with `BookAlreadyCheckedOut` where the first succeeded, and
/// leaves the loan of the first as it is.
pub proof fn lemma_second_checkout_fails(db: DatabaseView, first: CreateCheckout, second: CreateCheckout)
    requires
        db.wf(),
        db.idle(),
        first.book_id == second.book_id,
        db.create(first).0 is Ok,
    ensures
        db.create(first).1.create(second) == (
            Err::<(), CheckoutFailure>(CheckoutFailure::BookAlreadyCheckedOut(second.book_id@)),
            db.create(first).1,
        ),
{
    let after = db.create(first).1;
    let at = db.ledger.checkouts.len() as int;
    assert(after.ledger.checkouts[at].book_id == first.book_id@);
}

/// A checkout of a book that the catalog lacks fails with `BookNotFound`
/// and writes nothing.
pub proof fn lemma_checkout_of_unknown_book(db: DatabaseView, event: CreateCheckout)
    requires
        db.idle(),
        db.state_of(event.book_id@) is None,
    ensures
        db.create(event) == (
            Err::<(), CheckoutFailure>(CheckoutFailure::BookNotFound(event.book_id@)),
            db,
        ),
{
}

/// A checkout of a book that is out fails with `BookAlreadyCheckedOut` and
/// writes nothing: the open loan stays as it is.
pub proof fn lemma_checkout_of_lent_book(db: DatabaseView, event: CreateCheckout)
    requires
        db.idle(),
        db.state_of(event.book_id@) matches Some(BookState::CheckedOut { .. }),
    ensures
        db.create(event) == (
            Err::<(), CheckoutFailure>(CheckoutFailure::BookAlreadyCheckedOut(event.book_id@)),
            db,
        ),
{
}

/// A checkout of an available book succeeds, unless the store has no loan
/// identifier left, and leaves the book out to the borrower.
pub proof fn lemma_checkout_of_available_book(db: DatabaseView, event: CreateCheckout)
    requires
        db.wf(),
        db.idle(),
        db.state_of(event.book_id@) == Some(BookState::Available),
        db.ledger.next_checkout_id < u128::MAX,
    ensures
        db.create(event).0 is Ok,
        db.create(event).1.state_of(event.book_id@) == Some(
            BookState::CheckedOut {
                checkout_id: CheckoutId(db.ledger.next_checkout_id),
                borrower: event.checked_out_by,
            },
        ),
{
    let after = db.create(event).1;
    let at = db.ledger.checkouts.len() as int;
    assert(after.ledger.checkouts[at].book_id == event.book_id@);
    assert forall|a: int, b: int| 0 <= a < b < after.ledger.checkouts.len() implies (
    #[trigger] after.ledger.checkouts[a]).book_id != (
    #[trigger] after.ledger.checkouts[b]).book_id by {
        if b < at {
            assert(db.ledger.checkouts[a].book_id != db.ledger.checkouts[b].book_id);
        } else {
            assert(db.ledger.checkouts[a].book_id != event.book_id@);
        }
    }
    lemma_loan_at(after.ledger.checkouts, event.book_id@, at);
}

/// A return that names another loan, or another user, than the book is out
/// under fails with `CannotReturn` and writes nothing: the loan stays open.
pub proof fn lemma_mismatched_return_fails(db: DatabaseView, event: UpdateReturned)
    requires
        db.idle(),
        db.state_of(event.book_id@) matches Some(
            BookState::CheckedOut { checkout_id, borrower },
        ) && !(checkout_id == event.checkout_id && borrower == event.returned_by),
    ensures
        db.update_returned(event) == (
            Err::<(), CheckoutFailure>(
                CheckoutFailure::CannotReturn(
                    event.book_id@,
                    event.returned_by@,
                    event.checkout_id@,
                ),
            ),
            db,
        ),
{
}

/// A return of a book that the catalog lacks fails with `BookNotFound` and
/// writes nothing.
pub proof fn lemma_return_of_unknown_book(db: DatabaseView, event: UpdateReturned)
    requires
        db.idle(),
        db.state_of(event.book_id@) is None,
    ensures
        db.update_returned(event) == (
            Err::<(), CheckoutFailure>(CheckoutFailure::BookNotFound(event.book_id@)),
            db,
        ),
{
}

/// A successful checkout followed by the return that names its loan and
/// its borrower leaves the book available, the open loans as they were
/// before the checkout, and exactly one more closed loan: that one, with
/// the instant of return.
pub proof fn lemma_checkout_then_return(db: DatabaseView, event: CreateCheckout, returned_at: Timestamp)
    requires
        db.wf(),
        db.idle(),
        db.create(event).0 is Ok,
    ensures
        ({
            let lent = db.create(event).1;
            let back = UpdateReturned {
                checkout_id: CheckoutId(db.ledger.next_checkout_id),
                book_id: event.book_id,
                returned_by: event.checked_out_by,
                returned_at,
            };
            let after = lent.update_returned(back).1;
            &&& lent.update_returned(back).0 is Ok
            &&& after.state_of(event.book_id@) == Some(BookState::Available)
            &&& after.ledger.checkouts == db.ledger.checkouts
            &&& after.ledger.returned_checkouts == db.ledger.returned_checkouts.push(
                ClosedLoan {
                    checkout_id: db.ledger.next_checkout_id,
                    book_id: event.book_id@,
                    user_id: event.checked_out_by@,
                    checked_out_at: event.checked_out_at.0,
                    returned_at: returned_at.0,
                },
            )
            &&& after.books == db.books
        }),
{
    lemma_checkout_of_available_book(db, event);
    let lent = db.create(event).1;
    let at = db.ledger.checkouts.len() as int;
    assert(lent.ledger.checkouts[at].book_id == event.book_id@);
    assert forall|a: int, b: int| 0 <= a < b < lent.ledger.checkouts.len() implies (
    #[trigger] lent.ledger.checkouts[a]).book_id != (#[trigger] lent.ledger.checkouts[b]).book_id by {
        if b < at {
            assert(db.ledger.checkouts[a].book_id != db.ledger.checkouts[b].book_id);
        } else {
            assert(db.ledger.checkouts[a].book_id != event.book_id@);
        }
    }
    lemma_loan_at(lent.ledger.checkouts, event.book_id@, at);
    assert(lent.ledger.checkouts.remove(at) =~= db.ledger.checkouts);
}

/// The protocol's order. Isolation is raised right after the transaction
/// is opened, and before the state is read; a write is issued only on a
/// state read that allows the request, or on a write before it that
/// changed a row; the commit follows a write that changed a row.
pub proof fn lemma_statement_order(tx: CheckoutTransaction, reply: ReplyView)
    ensures
        match tx.spec_step(reply).1 {
            DirectiveView::Execute(Statement::Begin) => false,
            DirectiveView::Execute(Statement::SetTransactionSerializable) => tx.phase
                == Phase::Beginning && reply is Done,
            DirectiveView::Execute(Statement::SelectState { book_id }) => tx.phase
                == Phase::Isolating && reply is Done && book_id == tx.request.book_id(),
            DirectiveView::Execute(Statement::InsertCheckout { .. }) => tx.phase == Phase::Reading
                && tx.request is Create && (reply matches ReplyView::State(row) && tx.decide(row)
                is Ok),
            DirectiveView::Execute(Statement::InsertReturned { .. }) => tx.phase == Phase::Reading
                && tx.request is Return && (reply matches ReplyView::State(row) && tx.decide(row)
                is Ok),
            DirectiveView::Execute(Statement::DeleteCheckout { .. }) => tx.phase
                == Phase::Recording && (reply matches ReplyView::RowsAffected(n) && n >= 1),
            DirectiveView::Execute(Statement::Commit) => (tx.phase == Phase::Inserting || tx.phase
                == Phase::Deleting) && (reply matches ReplyView::RowsAffected(n) && n >= 1),
            DirectiveView::Abort(_) => true,
            DirectiveView::Complete => tx.phase == Phase::Committing && reply is Done,
        },
{
}

/// A failure of the store always ends the transaction with an order to
/// roll back: with `Transaction` where opening or committing failed, and
/// with `Unexpected` anywhere else.
pub proof fn lemma_store_failure_aborts(tx: CheckoutTransaction, message: Seq<char>)
    ensures
        tx.spec_step(ReplyView::Failed(message)).0.phase == Phase::Finished,
        tx.spec_step(ReplyView::Failed(message)).1 matches DirectiveView::Abort(failure) && (
        if tx.phase == Phase::Finished {
            failure is Unexpected
        } else if tx.phase == Phase::Beginning || tx.phase == Phase::Committing {
            failure == CheckoutFailure::Transaction(message)
        } else {
            failure == CheckoutFailure::Unexpected(message)
        }),
{
}

/// A write that changed no row ends the transaction with
/// `NoResourceAffected` and an order to roll back.
pub proof fn lemma_no_row_aborts(tx: CheckoutTransaction)
    requires
        tx.phase == Phase::Inserting || tx.phase == Phase::Recording || tx.phase
            == Phase::Deleting,
        (tx.phase == Phase::Inserting) == (tx.request is Create),
    ensures
        tx.spec_step(ReplyView::RowsAffected(0)).0.phase == Phase::Finished,
        tx.spec_step(ReplyView::RowsAffected(0)).1 matches DirectiveView::Abort(failure)
            && failure is NoResourceAffected,
{
}

/// A loan query that succeeds lists its loans in the order asked for: of
/// two loans, the one listed first was checked out no later, where the
/// order ascends, and no earlier, where it descends.
pub proof fn lemma_listing_ordered(
    db: DatabaseView,
    loans: Seq<LoanRecord>,
    ascending: bool,
    i: int,
    j: int,
)
    requires
        read_loans(db.books, arrange(loans, ascending)) is Ok,
        0 <= i < j < loans.len(),
    ensures
        ({
            let listed = read_loans(db.books, arrange(loans, ascending))->Ok_0;
            &&& listed.len() == loans.len()
            &&& ascending ==> listed[i].checked_out_at <= listed[j].checked_out_at
            &&& !ascending ==> listed[i].checked_out_at >= listed[j].checked_out_at
        }),
{
    lemma_arrange(loans, ascending);
    let arranged = arrange(loans, ascending);
    let listed = read_loans(db.books, arranged)->Ok_0;
    assert(listed == joined_all(db.books, arranged));
    assert(may_precede(arranged[i], arranged[j], ascending));
    assert(listed[i] == joined(db.books, arranged[i]));
    assert(listed[j] == joined(db.books, arranged[j]));
}

/// The open loans come out by ascending instant of checkout, each of them
/// once.
pub proof fn lemma_unreturned_all_ordered(db: DatabaseView, i: int, j: int)
    requires
        db.unreturned_all() is Ok,
        0 <= i < j < db.ledger.checkouts.len(),
    ensures
        ({
            let listed = db.unreturned_all()->Ok_0;
            &&& listed.len() == db.ledger.checkouts.len()
            &&& listed[i].checked_out_at <= listed[j].checked_out_at
            &&& listed[i].returned_at is None
        }),
{
    let given = open_records(db.ledger.checkouts);
    lemma_listing_ordered(db, given, true, i, j);
    lemma_arrange_members(given, true, i);
}

/// The history of a book that is out begins with the open loan; all that
/// follow are closed loans of that book, by descending instant of
/// checkout.
pub proof fn lemma_history_open_first(db: DatabaseView, book_id: u128, i: int, j: int)
    requires
        db.wf(),
        db.history_by_book(book_id) is Ok,
        open_loan_of(db.ledger.checkouts, book_id) is Some,
        has_book(db.books, book_id),
        1 <= i < j < db.history_by_book(book_id)->Ok_0.len(),
    ensures
        ({
            let listed = db.history_by_book(book_id)->Ok_0;
            let open = open_loan_of(db.ledger.checkouts, book_id)->Some_0;
            &&& listed[0].checkout_id == open.checkout_id
            &&& listed[0].returned_at is None
            &&& listed[0].book.book_id == book_id
            &&& listed[i].returned_at is Some
            &&& listed[i].book.book_id == book_id
            &&& listed[i].checked_out_at >= listed[j].checked_out_at
        }),
{
    let picked = select(closed_records(db.ledger.returned_checkouts), Selection::OfBook(book_id));
    let rest = arrange(picked, false);
    let loans = open_part(db.ledger.checkouts, book_id) + rest;
    lemma_arrange(picked, false);
    assert(loans[i] == rest[i - 1]);
    assert(loans[j] == rest[j - 1]);
    lemma_arrange_members(picked, false, i - 1);
    let k = choose|k: int| 0 <= k < picked.len() && picked[k] == rest[i - 1];
    lemma_select_members(closed_records(db.ledger.returned_checkouts), Selection::OfBook(book_id), k);
    let m = choose|m: int|
        0 <= m < closed_records(db.ledger.returned_checkouts).len() && closed_records(
            db.ledger.returned_checkouts,
        )[m] == picked[k];
    assert(may_precede(rest[i - 1], rest[j - 1], false));
    let listed = db.history_by_book(book_id)->Ok_0;
    assert(listed == joined_all(db.books, loans));
    assert(listed[0] == joined(db.books, loans[0]));
    assert(listed[i] == joined(db.books, loans[i]));
    assert(listed[j] == joined(db.books, loans[j]));
    let at = loan_index(db.ledger.checkouts, book_id);
    assert(db.ledger.checkouts[at].book_id == book_id);
}

/// A checkout leaves a settled store settled: its constraints hold, no
/// transaction is open, and no loan is open and closed at once.
pub proof fn lemma_create_keeps_settled(db: DatabaseView, event: CreateCheckout)
    requires
        db.settled(),
    ensures
        db.create(event).1.settled(),
{
    let after = db.create(event).1;
    if db.create(event).0 is Ok {
        assert(after.ledger.checkouts.drop_last() == db.ledger.checkouts);
    }
}

/// A return leaves a settled store settled.
pub proof fn lemma_update_returned_keeps_settled(db: DatabaseView, event: UpdateReturned)
    requires
        db.settled(),
    ensures
        db.update_returned(event).1.settled(),
{
}

/// A return of a book that is not out fails with `CannotReturn` and writes
/// nothing, whatever loan it names: the open loan of another book, which
/// it may name, stays open, and no closed loan is added.
pub proof fn lemma_return_of_available_book(db: DatabaseView, event: UpdateReturned)
    requires
        db.idle(),
        db.state_of(event.book_id@) == Some(BookState::Available),
    ensures
        db.update_returned(event) == (
            Err::<(), CheckoutFailure>(
                CheckoutFailure::CannotReturn(
                    event.book_id@,
                    event.returned_by@,
                    event.checkout_id@,
                ),
            ),
            db,
        ),
{
}

/// On a store where no loan is open and closed at once, a return that
/// names the loan and the borrower of a book that is out succeeds, leaves
/// the book available and adds one closed loan.
pub proof fn lemma_matching_return_succeeds(db: DatabaseView, event: UpdateReturned)
    requires
        db.settled(),
        db.state_of(event.book_id@) == Some(
            BookState::CheckedOut { checkout_id: event.checkout_id, borrower: event.returned_by },
        ),
    ensures
        db.update_returned(event).0 is Ok,
        db.update_returned(event).1.state_of(event.book_id@) == Some(BookState::Available),
        db.update_returned(event).1.ledger.returned_checkouts.len()
            == db.ledger.returned_checkouts.len() + 1,
{
    let at = loan_index(db.ledger.checkouts, event.book_id@);
    let after = db.update_returned(event).1;
    assert(db.ledger.checkouts[at].book_id == event.book_id@);
    if is_out(after.ledger.checkouts, event.book_id@) {
        let k = loan_index(after.ledger.checkouts, event.book_id@);
        assert(after.ledger.checkouts[k].book_id == event.book_id@);
        if k < at {
            assert(db.ledger.checkouts[k].book_id != db.ledger.checkouts[at].book_id);
        } else {
            assert(db.ledger.checkouts[at].book_id != db.ledger.checkouts[k + 1].book_id);
        }
    }
}

/// A return that names the open loan of another book than its own, which
/// is not out, fails with `CannotReturn`; the loan it names stays open.
pub proof fn lemma_return_naming_another_books_loan(
    db: DatabaseView,
    event: UpdateReturned,
    other_book: u128,
)
    requires
        db.idle(),
        db.state_of(event.book_id@) == Some(BookState::Available),
        open_loan_of(db.ledger.checkouts, other_book) matches Some(loan) && loan.checkout_id
            == event.checkout_id@,
    ensures
        db.update_returned(event).0 == Err::<(), CheckoutFailure>(
            CheckoutFailure::CannotReturn(event.book_id@, event.returned_by@, event.checkout_id@),
        ),
        db.update_returned(event).1 == db,
        open_loan_of(db.update_returned(event).1.ledger.checkouts, other_book) == open_loan_of(
            db.ledger.checkouts,
            other_book,
        ),
{
}

/// A return goes on to its writes exactly where the state read shows the
/// book out under the loan and to the user that the return names.
pub proof fn lemma_return_allowed_on_match_only(row: Option<CheckoutStateRow>, event: UpdateReturned)
    ensures
        spec_decide_return(row, event) is Ok <==> (row matches Some(found) && found.checkout_id
            == Some(event.checkout_id@) && found.user_id == Some(event.returned_by@)),
        row is None ==> spec_decide_return(row, event) == Err::<(), CheckoutFailure>(
            CheckoutFailure::BookNotFound(event.book_id@),
        ),
        row is Some && !(spec_decide_return(row, event) is Ok) ==> spec_decide_return(row, event)
            == Err::<(), CheckoutFailure>(
            CheckoutFailure::CannotReturn(event.book_id@, event.returned_by@, event.checkout_id@),
        ),
{
}

/// What a row of checkouts makes of the store when the store runs them
/// one after the other, in the order given: the result of each, and the
/// store after the last.
pub open spec fn create_all(db: DatabaseView, events: Seq<CreateCheckout>) -> (
    Seq<Result<(), CheckoutFailure>>,
    DatabaseView,
)
    decreases events.len(),
{
    if events.len() == 0 {
        (Seq::empty(), db)
    } else {
        let (results, reached) = create_all(db, events.drop_last());
        let (result, after) = reached.create(events.last());
        (results.push(result), after)
    }
}

/// Of any number of checkouts of one available book, in whatever order
/// the store runs them, exactly one succeeds: the one that runs first.
/// Every other fails with `BookAlreadyCheckedOut`, and the store is left
/// as the first one left it, with the one open loan of the book, to the
/// first one's borrower and at its instant.
pub proof fn lemma_one_of_many_checkouts_succeeds(
    db: DatabaseView,
    events: Seq<CreateCheckout>,
    book_id: u128,
)
    requires
        db.wf(),
        db.idle(),
        db.state_of(book_id) == Some(BookState::Available),
        db.ledger.next_checkout_id < u128::MAX,
        events.len() >= 1,
        forall|i: int| 0 <= i < events.len() ==> (#[trigger] events[i]).book_id@ == book_id,
    ensures
        create_all(db, events).0.len() == events.len(),
        create_all(db, events).0[0] is Ok,
        forall|i: int|
            1 <= i < events.len() ==> #[trigger] create_all(db, events).0[i] == Err::<
                (),
                CheckoutFailure,
            >(CheckoutFailure::BookAlreadyCheckedOut(book_id)),
        create_all(db, events).1 == db.create(events[0]).1,
        create_all(db, events).1.state_of(book_id) == Some(
            BookState::CheckedOut {
                checkout_id: CheckoutId(db.ledger.next_checkout_id),
                borrower: events[0].checked_out_by,
            },
        ),
        create_all(db, events).1.ledger.checkouts == db.ledger.checkouts.push(
            OpenLoan {
                checkout_id: db.ledger.next_checkout_id,
                book_id,
                user_id: events[0].checked_out_by@,
                checked_out_at: events[0].checked_out_at.0,
            },
        ),
    decreases events.len(),
{
    let first = events[0];
    lemma_checkout_of_available_book(db, first);
    if events.len() == 1 {
        assert(events.drop_last().len() == 0);
        assert(create_all(db, events.drop_last()) == (
            Seq::<Result<(), CheckoutFailure>>::empty(),
            db,
        ));
        assert(events.last() == first);
    } else {
        let front = events.drop_last();
        assert(front[0] == first);
        assert forall|i: int| 0 <= i < front.len() implies (#[trigger] front[i]).book_id@
            == book_id by {
            assert(front[i] == events[i]);
        }
        lemma_one_of_many_checkouts_succeeds(db, front, book_id);
        let last = events.last();
        assert(last == events[events.len() - 1]);
        lemma_second_checkout_fails(db, first, last);
        let (results, reached) = create_all(db, front);
        assert(reached == db.create(first).1);
        assert forall|i: int| 1 <= i < events.len() implies #[trigger] create_all(db, events).0[i]
            == Err::<(), CheckoutFailure>(CheckoutFailure::BookAlreadyCheckedOut(book_id)) by {
            if i < front.len() {
                assert(create_all(db, events).0[i] == results[i]);
            }
        }
    }
}

/// A request that meets a store which another transaction holds open
/// cannot begin: it fails with `Transaction`, the error of the kind that
/// may be tried again, and leaves nothing of its own behind.
pub proof fn lemma_request_on_held_store_fails(
    db: DatabaseView,
    checkout: CreateCheckout,
    give_back: UpdateReturned,
)
    requires
        !db.idle(),
    ensures
        db.create(checkout).0 matches Err(CheckoutFailure::Transaction(_)),
        db.update_returned(give_back).0 matches Err(CheckoutFailure::Transaction(_)),
        db.create(checkout).1 == db.rollback(),
        db.update_returned(give_back).1 == db.rollback(),
        db.rollback().idle(),
{
}

} // verus!
