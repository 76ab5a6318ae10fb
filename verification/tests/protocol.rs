use book_manager::database::memory::Database;
use book_manager::database::model::checkout::CheckoutStateRow;
use book_manager::database::statement::{Reply, Statement};
use book_manager::database::tables::CatalogEntry;
use book_manager::model::book::BookId;
use book_manager::model::checkout::event::{CreateCheckout, UpdateReturned};
use book_manager::model::checkout::CheckoutId;
use book_manager::model::timestamp::Timestamp;
use book_manager::model::user::UserId;
use book_manager::repository::checkout::{CheckoutRepositoryError, Surface};
use book_manager::store::checkout::protocol::{CheckoutTransaction, Directive, Phase, Request};
use book_manager::store::checkout::state::{decide_create, decide_return};

fn create() -> CreateCheckout {
    CreateCheckout {
        book_id: BookId::new(11),
        checked_out_by: UserId::new(21),
        checked_out_at: Timestamp::from_micros(100),
    }
}

fn give_back() -> UpdateReturned {
    UpdateReturned {
        checkout_id: CheckoutId::new(31),
        book_id: BookId::new(11),
        returned_by: UserId::new(21),
        returned_at: Timestamp::from_micros(200),
    }
}

fn available() -> Option<CheckoutStateRow> {
    Some(CheckoutStateRow { book_id: 11, checkout_id: None, user_id: None })
}

fn out(checkout_id: u128, user_id: u128) -> Option<CheckoutStateRow> {
    Some(CheckoutStateRow { book_id: 11, checkout_id: Some(checkout_id), user_id: Some(user_id) })
}

fn statement(d: Directive) -> Statement {
    match d {
        Directive::Execute(s) => s,
        other => panic!("no statement: {:?}", other),
    }
}

fn failure(d: Directive) -> CheckoutRepositoryError {
    match d {
        Directive::Abort(e) => e,
        other => panic!("no failure: {:?}", other),
    }
}

#[test]
fn checkout_issues_its_statements_in_order() {
    let (tx, first) = CheckoutTransaction::begin(Request::Create(create()));
    assert_eq!(first, Statement::Begin);
    assert_eq!(tx.phase, Phase::Beginning);
    let (tx, d) = tx.step(Reply::Done);
    assert_eq!(statement(d), Statement::SetTransactionSerializable);
    let (tx, d) = tx.step(Reply::Done);
    assert_eq!(statement(d), Statement::SelectState { book_id: 11 });
    let (tx, d) = tx.step(Reply::State(available()));
    assert_eq!(
        statement(d),
        Statement::InsertCheckout { book_id: 11, user_id: 21, checked_out_at: 100 }
    );
    let (tx, d) = tx.step(Reply::RowsAffected(1));
    assert_eq!(statement(d), Statement::Commit);
    assert!(!tx.is_finished());
    let (tx, d) = tx.step(Reply::Done);
    assert!(matches!(d, Directive::Complete));
    assert!(tx.is_finished());
}

#[test]
fn return_issues_its_statements_in_order() {
    let (tx, first) = CheckoutTransaction::begin(Request::Return(give_back()));
    assert_eq!(first, Statement::Begin);
    let (tx, d) = tx.step(Reply::Done);
    assert_eq!(statement(d), Statement::SetTransactionSerializable);
    let (tx, d) = tx.step(Reply::Done);
    assert_eq!(statement(d), Statement::SelectState { book_id: 11 });
    let (tx, d) = tx.step(Reply::State(out(31, 21)));
    assert_eq!(
        statement(d),
        Statement::InsertReturned { checkout_id: 31, book_id: 11, returned_at: 200 }
    );
    let (tx, d) = tx.step(Reply::RowsAffected(1));
    assert_eq!(statement(d), Statement::DeleteCheckout { checkout_id: 31, book_id: 11 });
    let (tx, d) = tx.step(Reply::RowsAffected(1));
    assert_eq!(statement(d), Statement::Commit);
    let (tx, d) = tx.step(Reply::Done);
    assert!(matches!(d, Directive::Complete));
    assert!(tx.is_finished());
}

fn at_reading(request: Request) -> CheckoutTransaction {
    let (tx, _) = CheckoutTransaction::begin(request);
    let (tx, _) = tx.step(Reply::Done);
    let (tx, _) = tx.step(Reply::Done);
    assert_eq!(tx.phase, Phase::Reading);
    tx
}

#[test]
fn checkout_aborts_on_missing_book_and_on_lent_book() {
    let (tx, d) = at_reading(Request::Create(create())).step(Reply::State(None));
    assert!(matches!(failure(d), CheckoutRepositoryError::BookNotFound(b) if b == BookId::new(11)));
    assert!(tx.is_finished());
    let (_, d) = at_reading(Request::Create(create())).step(Reply::State(out(31, 22)));
    assert!(matches!(
        failure(d),
        CheckoutRepositoryError::BookAlreadyCheckedOut(b) if b == BookId::new(11)
    ));
}

#[test]
fn return_aborts_on_missing_book_and_on_mismatch() {
    let (_, d) = at_reading(Request::Return(give_back())).step(Reply::State(None));
    assert!(matches!(failure(d), CheckoutRepositoryError::BookNotFound(_)));
    let (_, d) = at_reading(Request::Return(give_back())).step(Reply::State(out(32, 21)));
    assert!(matches!(failure(d), CheckoutRepositoryError::CannotReturn(_, _, _)));
    let (tx, d) = at_reading(Request::Return(give_back())).step(Reply::State(available()));
    assert!(matches!(failure(d), CheckoutRepositoryError::CannotReturn(_, _, _)));
    assert!(tx.is_finished());
    let (_, d) = at_reading(Request::Return(give_back())).step(Reply::State(out(31, 22)));
    match failure(d) {
        CheckoutRepositoryError::CannotReturn(b, u, c) => {
            assert_eq!((b, u, c), (BookId::new(11), UserId::new(21), CheckoutId::new(31)))
        }
        other => panic!("unexpected failure: {:?}", other),
    }
}

#[test]
fn a_write_that_changes_no_row_aborts() {
    let (tx, _) = at_reading(Request::Create(create())).step(Reply::State(available()));
    let (_, d) = tx.step(Reply::RowsAffected(0));
    match failure(d) {
        CheckoutRepositoryError::NoResourceAffected(m) => {
            assert_eq!(m, "No checkouts record has been inserted.")
        }
        other => panic!("unexpected failure: {:?}", other),
    }
    // the loan was there at the state read and is gone at the write
    let (tx, _) = at_reading(Request::Return(give_back())).step(Reply::State(out(31, 21)));
    let (_, d) = tx.step(Reply::RowsAffected(0));
    match failure(d) {
        CheckoutRepositoryError::NoResourceAffected(m) => {
            assert_eq!(m, "No returned checkouts record has been inserted.")
        }
        other => panic!("unexpected failure: {:?}", other),
    }
    let (tx, _) = at_reading(Request::Return(give_back())).step(Reply::State(out(31, 21)));
    let (tx, _) = tx.step(Reply::RowsAffected(1));
    let (_, d) = tx.step(Reply::RowsAffected(0));
    match failure(d) {
        CheckoutRepositoryError::NoResourceAffected(m) => {
            assert_eq!(m, "No checkouts record has been deleted.")
        }
        other => panic!("unexpected failure: {:?}", other),
    }
}

#[test]
fn store_failures_are_mapped_by_phase() {
    let (tx, _) = CheckoutTransaction::begin(Request::Create(create()));
    let (_, d) = tx.step(Reply::Failed("no connection".to_string()));
    assert!(matches!(failure(d), CheckoutRepositoryError::Transaction(m) if m == "no connection"));

    let (tx, _) = CheckoutTransaction::begin(Request::Create(create()));
    let (tx, _) = tx.step(Reply::Done);
    let (_, d) = tx.step(Reply::Failed("x".to_string()));
    assert!(matches!(failure(d), CheckoutRepositoryError::Unexpected(m) if m == "x"));

    let (_, d) = at_reading(Request::Create(create())).step(Reply::Failed("y".to_string()));
    assert!(matches!(failure(d), CheckoutRepositoryError::Unexpected(m) if m == "y"));

    let (tx, _) = at_reading(Request::Create(create())).step(Reply::State(available()));
    let (tx, _) = tx.step(Reply::RowsAffected(1));
    let (tx, d) =
        tx.step(Reply::Failed("could not serialize access due to concurrent update".to_string()));
    let e = failure(d);
    assert!(e.may_retry());
    assert!(matches!(e, CheckoutRepositoryError::Transaction(_)));
    assert!(tx.is_finished());
}

#[test]
fn an_answer_out_of_turn_aborts() {
    let (tx, _) = CheckoutTransaction::begin(Request::Create(create()));
    let (tx, d) = tx.step(Reply::RowsAffected(1));
    assert!(matches!(failure(d), CheckoutRepositoryError::Unexpected(_)));
    let (_, d) = tx.step(Reply::Done);
    assert!(matches!(failure(d), CheckoutRepositoryError::Unexpected(_)));
}

#[test]
fn decisions_on_the_state_read() {
    assert!(decide_create(available(), &create()).is_ok());
    assert!(matches!(
        decide_create(None, &create()),
        Err(CheckoutRepositoryError::BookNotFound(_))
    ));
    assert!(matches!(
        decide_create(out(1, 2), &create()),
        Err(CheckoutRepositoryError::BookAlreadyCheckedOut(_))
    ));
    assert!(decide_return(out(31, 21), &give_back()).is_ok());
    assert!(matches!(
        decide_return(available(), &give_back()),
        Err(CheckoutRepositoryError::CannotReturn(_, _, _))
    ));
    let half = Some(CheckoutStateRow { book_id: 11, checkout_id: Some(31), user_id: None });
    assert!(matches!(
        decide_return(half, &give_back()),
        Err(CheckoutRepositoryError::CannotReturn(_, _, _))
    ));
    assert!(matches!(
        decide_return(out(30, 21), &give_back()),
        Err(CheckoutRepositoryError::CannotReturn(_, _, _))
    ));
    assert!(matches!(
        decide_return(out(31, 99), &give_back()),
        Err(CheckoutRepositoryError::CannotReturn(_, _, _))
    ));
    assert!(matches!(
        decide_return(None, &give_back()),
        Err(CheckoutRepositoryError::BookNotFound(_))
    ));
}

fn catalog() -> Database {
    let mut db = Database::new();
    assert!(db.add_book(CatalogEntry {
        book_id: 11,
        title: "t".to_string(),
        author: "a".to_string(),
        isbn: "i".to_string(),
    }));
    db
}

#[test]
fn store_in_memory_answers_statements() {
    let mut db = catalog();
    assert!(matches!(db.execute(Statement::Begin), Reply::Done));
    assert!(matches!(db.execute(Statement::Begin), Reply::Failed(_)));
    assert!(matches!(db.execute(Statement::SetTransactionSerializable), Reply::Done));
    assert!(matches!(db.execute(Statement::SelectState { book_id: 12 }), Reply::State(None)));
    assert!(matches!(
        db.execute(Statement::SelectState { book_id: 11 }),
        Reply::State(Some(CheckoutStateRow { book_id: 11, checkout_id: None, user_id: None }))
    ));
    assert!(matches!(
        db.execute(Statement::InsertCheckout { book_id: 12, user_id: 1, checked_out_at: 5 }),
        Reply::Failed(_)
    ));
    assert!(matches!(
        db.execute(Statement::InsertCheckout { book_id: 11, user_id: 1, checked_out_at: 5 }),
        Reply::RowsAffected(1)
    ));
    assert!(matches!(
        db.execute(Statement::InsertCheckout { book_id: 11, user_id: 2, checked_out_at: 6 }),
        Reply::Failed(_)
    ));
    let id = db.open_loan(11).unwrap().checkout_id;
    assert!(matches!(
        db.execute(Statement::SelectState { book_id: 11 }),
        Reply::State(Some(CheckoutStateRow { book_id: 11, checkout_id: Some(c), user_id: Some(1) })) if c == id
    ));
    assert!(matches!(
        db.execute(Statement::InsertReturned { checkout_id: id + 1, book_id: 11, returned_at: 9 }),
        Reply::RowsAffected(0)
    ));
    assert!(matches!(
        db.execute(Statement::InsertReturned { checkout_id: id, book_id: 11, returned_at: 9 }),
        Reply::RowsAffected(1)
    ));
    assert!(matches!(
        db.execute(Statement::InsertReturned { checkout_id: id, book_id: 11, returned_at: 9 }),
        Reply::Failed(_)
    ));
    assert!(matches!(
        db.execute(Statement::DeleteCheckout { checkout_id: id, book_id: 12 }),
        Reply::RowsAffected(0)
    ));
    assert!(matches!(
        db.execute(Statement::DeleteCheckout { checkout_id: id, book_id: 11 }),
        Reply::RowsAffected(1)
    ));
    assert!(matches!(db.execute(Statement::Commit), Reply::Done));
    assert!(db.open_loans().is_empty());
    let closed = db.closed_loans();
    assert_eq!(closed.len(), 1);
    assert_eq!(closed[0].returned_at, Some(9));
    assert_eq!(closed[0].checked_out_at, 5);
}

#[test]
fn rollback_undoes_the_open_transaction() {
    let mut db = catalog();
    assert!(matches!(db.execute(Statement::Begin), Reply::Done));
    assert!(matches!(
        db.execute(Statement::InsertCheckout { book_id: 11, user_id: 1, checked_out_at: 5 }),
        Reply::RowsAffected(1)
    ));
    assert_eq!(db.open_loans().len(), 1);
    db.rollback();
    assert!(db.open_loans().is_empty());
    assert!(db.open_loan(11).is_none());
    // a second rollback changes nothing, and a new transaction can begin
    db.rollback();
    assert!(matches!(db.execute(Statement::Begin), Reply::Done));
}

#[test]
fn removing_a_book_removes_its_open_loan() {
    let mut db = catalog();
    assert!(matches!(
        db.execute(Statement::InsertCheckout { book_id: 11, user_id: 1, checked_out_at: 5 }),
        Reply::RowsAffected(1)
    ));
    assert!(!db.remove_book(12));
    assert!(db.remove_book(11));
    assert!(!db.contains_book(11));
    assert!(db.open_loans().is_empty());
    assert!(!db.remove_book(11));
}

#[test]
fn failures_are_classed_for_the_caller() {
    let id = BookId::new(0xab);
    assert_eq!(CheckoutRepositoryError::BookNotFound(id).surface(), Surface::ClientError);
    assert_eq!(CheckoutRepositoryError::BookAlreadyCheckedOut(id).surface(), Surface::Conflict);
    assert_eq!(
        CheckoutRepositoryError::CannotReturn(id, UserId::new(1), CheckoutId::new(2)).surface(),
        Surface::ClientError
    );
    for e in [
        CheckoutRepositoryError::NoResourceAffected("n".to_string()),
        CheckoutRepositoryError::Transaction("t".to_string()),
        CheckoutRepositoryError::InvalidSavedEntity("i".to_string()),
        CheckoutRepositoryError::Unexpected("u".to_string()),
    ] {
        assert_eq!(e.surface(), Surface::ServerError);
        assert!(e.is_logged());
        assert_eq!(e.may_retry(), matches!(e, CheckoutRepositoryError::Transaction(_)));
    }
    assert!(!CheckoutRepositoryError::BookNotFound(id).is_logged());
}

#[test]
fn failure_messages() {
    let b = BookId::new(0xab);
    assert_eq!(
        CheckoutRepositoryError::BookNotFound(b).message(),
        "book not found: 000000000000000000000000000000ab"
    );
    assert_eq!(
        CheckoutRepositoryError::BookAlreadyCheckedOut(b).message(),
        "book already checked out: 000000000000000000000000000000ab"
    );
    assert_eq!(
        CheckoutRepositoryError::CannotReturn(b, UserId::new(1), CheckoutId::new(2)).message(),
        "cannot return: unable to process a return for a checkout (ID: 00000000000000000000000000000002) of abook (ID: 000000000000000000000000000000ab) to a user (ID: 00000000000000000000000000000001)."
    );
    assert_eq!(
        CheckoutRepositoryError::Unexpected("boom".to_string()).message(),
        "unexpected error occurred: boom"
    );
    assert_eq!(
        CheckoutRepositoryError::InvalidSavedEntity("bad".to_string()).message(),
        "invalid saved entity: bad"
    );
    assert_eq!(
        CheckoutRepositoryError::Transaction("tx".to_string()).message(),
        "transaction error: tx"
    );
    assert_eq!(
        CheckoutRepositoryError::NoResourceAffected("none".to_string()).message(),
        "no resource was affected: none"
    );
}
