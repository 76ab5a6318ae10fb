//! A store in memory that answers the statements of a lending
//! transaction as a relational store does: it checks its constraints on
//! every write, hands out loan identifiers, and can undo a transaction.
use vstd::prelude::*;
use crate::database::model::checkout::CheckoutStateRow;
use crate::database::statement::{Reply, ReplyView, Statement};
use crate::database::tables::{
    book_index, books_unique, closed_records, entry_of, has_book, is_closed, is_out, loan_index,
    open_loan_of, open_records, CatalogEntry, CatalogEntryView, ClosedLoan, DatabaseView,
    LedgerView, LoanRecord, OpenLoan,
};

verus! {

pub open spec fn msg_transaction_open() -> Seq<char> {
    "a transaction is already open"@
}

pub open spec fn msg_no_such_book() -> Seq<char> {
    "insert on checkouts violates the foreign key on book_id"@
}

pub open spec fn msg_book_is_out() -> Seq<char> {
    "duplicate key value violates the unique constraint on checkouts.book_id"@
}

pub open spec fn msg_identifiers_exhausted() -> Seq<char> {
    "no checkout identifier is left"@
}

pub open spec fn msg_already_closed() -> Seq<char> {
    "duplicate key value violates the primary key of returned_checkouts"@
}

/// The closed loan that a return at the given instant makes of an open one.
pub open spec fn closed(loan: OpenLoan, returned_at: i64) -> ClosedLoan {
    ClosedLoan {
        checkout_id: loan.checkout_id,
        book_id: loan.book_id,
        user_id: loan.user_id,
        checked_out_at: loan.checked_out_at,
        returned_at,
    }
}

impl DatabaseView {
    pub open spec fn with_ledger(self, ledger: LedgerView) -> DatabaseView {
        DatabaseView { books: self.books, ledger, saved: self.saved }
    }

    /// What a statement does to the store, and what the store answers.
    pub open spec fn execute(self, statement: Statement) -> (DatabaseView, ReplyView) {
        match statement {
            Statement::Begin => if self.saved is Some {
                (self, ReplyView::Failed(msg_transaction_open()))
            } else {
                (
                    DatabaseView { books: self.books, ledger: self.ledger, saved: Some(self.ledger) },
                    ReplyView::Done,
                )
            },
            Statement::SetTransactionSerializable => (self, ReplyView::Done),
            Statement::SelectState { book_id } => (self, ReplyView::State(self.state_row(book_id))),
            Statement::InsertCheckout { book_id, user_id, checked_out_at } => if !has_book(
                self.books,
                book_id,
            ) {
                (self, ReplyView::Failed(msg_no_such_book()))
            } else if is_out(self.ledger.checkouts, book_id) {
                (self, ReplyView::Failed(msg_book_is_out()))
            } else if self.ledger.next_checkout_id == u128::MAX {
                (self, ReplyView::Failed(msg_identifiers_exhausted()))
            } else {
                (
                    self.with_ledger(
                        LedgerView {
                            checkouts: self.ledger.checkouts.push(
                                OpenLoan {
                                    checkout_id: self.ledger.next_checkout_id,
                                    book_id,
                                    user_id,
                                    checked_out_at,
                                },
                            ),
                            returned_checkouts: self.ledger.returned_checkouts,
                            next_checkout_id: (self.ledger.next_checkout_id + 1) as u128,
                        },
                    ),
                    ReplyView::RowsAffected(1),
                )
            },
            Statement::InsertReturned { checkout_id, book_id, returned_at } => match open_loan_of(
                self.ledger.checkouts,
                book_id,
            ) {
                Some(loan) => if loan.checkout_id != checkout_id {
                    (self, ReplyView::RowsAffected(0))
                } else if is_closed(self.ledger.returned_checkouts, checkout_id) {
                    (self, ReplyView::Failed(msg_already_closed()))
                } else {
                    (
                        self.with_ledger(
                            LedgerView {
                                checkouts: self.ledger.checkouts,
                                returned_checkouts: self.ledger.returned_checkouts.push(
                                    closed(loan, returned_at),
                                ),
                                next_checkout_id: self.ledger.next_checkout_id,
                            },
                        ),
                        ReplyView::RowsAffected(1),
                    )
                },
                None => (self, ReplyView::RowsAffected(0)),
            },
            Statement::DeleteCheckout { checkout_id, book_id } => match open_loan_of(
                self.ledger.checkouts,
                book_id,
            ) {
                Some(loan) => if loan.checkout_id != checkout_id {
                    (self, ReplyView::RowsAffected(0))
                } else {
                    (
                        self.with_ledger(
                            LedgerView {
                                checkouts: self.ledger.checkouts.remove(
                                    loan_index(self.ledger.checkouts, book_id),
                                ),
                                returned_checkouts: self.ledger.returned_checkouts,
                                next_checkout_id: self.ledger.next_checkout_id,
                            },
                        ),
                        ReplyView::RowsAffected(1),
                    )
                },
                None => (self, ReplyView::RowsAffected(0)),
            },
            Statement::Commit => (
                DatabaseView { books: self.books, ledger: self.ledger, saved: None },
                ReplyView::Done,
            ),
        }
    }

    /// The store without a book: the catalog loses it, and, where it is
    /// out, the open loans lose its loan. While a transaction is open the
    /// store stays as it is.
    pub open spec fn without_book(self, book_id: u128) -> DatabaseView {
        if !has_book(self.books, book_id) || self.saved is Some {
            self
        } else {
            DatabaseView {
                books: self.books.remove(book_index(self.books, book_id)),
                ledger: LedgerView {
                    checkouts: if is_out(self.ledger.checkouts, book_id) {
                        self.ledger.checkouts.remove(loan_index(self.ledger.checkouts, book_id))
                    } else {
                        self.ledger.checkouts
                    },
                    returned_checkouts: self.ledger.returned_checkouts,
                    next_checkout_id: self.ledger.next_checkout_id,
                },
                saved: self.saved,
            }
        }
    }

    /// The store after a rollback: the loan tables are as they were when
    /// the transaction began, and no transaction is open.
    pub open spec fn rollback(self) -> DatabaseView {
        match self.saved {
            Some(saved) => DatabaseView { books: self.books, ledger: saved, saved: None },
            None => self,
        }
    }
}

/// Where a book is out, its loan is at the one place that holds a loan of it.
pub proof fn lemma_loan_at(checkouts: Seq<OpenLoan>, book_id: u128, i: int)
    requires
        forall|a: int, b: int|
            0 <= a < b < checkouts.len() ==> (#[trigger] checkouts[a]).book_id != (
            #[trigger] checkouts[b]).book_id,
        0 <= i < checkouts.len(),
        checkouts[i].book_id == book_id,
    ensures
        is_out(checkouts, book_id),
        loan_index(checkouts, book_id) == i,
        open_loan_of(checkouts, book_id) == Some(checkouts[i]),
{
    let k = loan_index(checkouts, book_id);
    assert(0 <= k < checkouts.len() && checkouts[k].book_id == book_id);
    if k < i {
        assert(checkouts[k].book_id != checkouts[i].book_id);
    } else if i < k {
        assert(checkouts[i].book_id != checkouts[k].book_id);
    }
}

/// The catalog's row of a book is at the one place that holds the book.
pub proof fn lemma_entry_at(books: Seq<CatalogEntryView>, book_id: u128, i: int)
    requires
        books_unique(books),
        0 <= i < books.len(),
        books[i].book_id == book_id,
    ensures
        has_book(books, book_id),
        book_index(books, book_id) == i,
        entry_of(books, book_id) == books[i],
{
    let k = book_index(books, book_id);
    assert(0 <= k < books.len() && books[k].book_id == book_id);
    if k < i {
        assert(books[k].book_id != books[i].book_id);
    } else if i < k {
        assert(books[i].book_id != books[k].book_id);
    }
}

/// The loan tables, in memory.
struct Ledger {
    checkouts: Vec<OpenLoan>,
    returned_checkouts: Vec<ClosedLoan>,
    next_checkout_id: u128,
}

impl View for Ledger {
    type V = LedgerView;

    closed spec fn view(&self) -> LedgerView {
        LedgerView {
            checkouts: self.checkouts@,
            returned_checkouts: self.returned_checkouts@,
            next_checkout_id: self.next_checkout_id,
        }
    }
}

impl Ledger {
    fn duplicate(&self) -> (r: Ledger)
        ensures
            r@ == self@,
    {
        let mut checkouts: Vec<OpenLoan> = Vec::new();
        let mut i: usize = 0;
        while i < self.checkouts.len()
            invariant
                i <= self.checkouts.len(),
                checkouts@ == self.checkouts@.take(i as int),
            decreases self.checkouts.len() - i,
        {
            checkouts.push(self.checkouts[i]);
            assert(self.checkouts@.take(i + 1) == self.checkouts@.take(i as int).push(
                self.checkouts@[i as int],
            ));
            i += 1;
        }
        assert(self.checkouts@.take(self.checkouts.len() as int) == self.checkouts@);
        let mut returned_checkouts: Vec<ClosedLoan> = Vec::new();
        let mut j: usize = 0;
        while j < self.returned_checkouts.len()
            invariant
                j <= self.returned_checkouts.len(),
                returned_checkouts@ == self.returned_checkouts@.take(j as int),
            decreases self.returned_checkouts.len() - j,
        {
            returned_checkouts.push(self.returned_checkouts[j]);
            assert(self.returned_checkouts@.take(j + 1) == self.returned_checkouts@.take(
                j as int,
            ).push(self.returned_checkouts@[j as int]));
            j += 1;
        }
        assert(self.returned_checkouts@.take(self.returned_checkouts.len() as int)
            == self.returned_checkouts@);
        Ledger { checkouts, returned_checkouts, next_checkout_id: self.next_checkout_id }
    }
}

/// The tables of the store: what `Database` holds and guards.
struct Tables {
    books: Vec<CatalogEntry>,
    ledger: Ledger,
    saved: Option<Ledger>,
}

impl View for Tables {
    type V = DatabaseView;

    closed spec fn view(&self) -> DatabaseView {
        DatabaseView {
            books: self.books@.map_values(|b: CatalogEntry| b@),
            ledger: self.ledger@,
            saved: match self.saved {
                Some(saved) => Some(saved@),
                None => None,
            },
        }
    }
}

impl Tables {
    /// Empty tables.
    fn new() -> (r: Self)
        ensures
            r@.settled(),
            r@.books.len() == 0,
            r@.ledger.checkouts.len() == 0,
            r@.ledger.returned_checkouts.len() == 0,
            r@.ledger.next_checkout_id == 0,
    {
        Tables::with_first_checkout_id(0)
    }

    /// Empty tables, whose first loan will get the identifier given.
    fn with_first_checkout_id(first: u128) -> (r: Self)
        ensures
            r@.settled(),
            r@.books.len() == 0,
            r@.ledger.checkouts.len() == 0,
            r@.ledger.returned_checkouts.len() == 0,
            r@.ledger.next_checkout_id == first,
    {
        Tables {
            books: Vec::new(),
            ledger: Ledger {
                checkouts: Vec::new(),
                returned_checkouts: Vec::new(),
                next_checkout_id: first,
            },
            saved: None,
        }
    }

    fn find_book(&self, book_id: u128) -> (r: Option<usize>)
        ensures
            r.is_some() == has_book(self@.books, book_id),
            r matches Some(i) ==> i < self.books.len() && self.books[i as int].book_id == book_id,
    {
        let mut i: usize = 0;
        while i < self.books.len()
            invariant
                i <= self.books.len(),
                forall|k: int| 0 <= k < i ==> (#[trigger] self@.books[k]).book_id != book_id,
            decreases self.books.len() - i,
        {
            if self.books[i].book_id == book_id {
                assert(self@.books[i as int].book_id == book_id);
                return Some(i);
            }
            i += 1;
        }
        None
    }

    fn find_loan(&self, book_id: u128) -> (r: Option<usize>)
        ensures
            r.is_some() == is_out(self@.ledger.checkouts, book_id),
            r matches Some(i) ==> i < self@.ledger.checkouts.len()
                && self@.ledger.checkouts[i as int].book_id == book_id,
    {
        let mut i: usize = 0;
        while i < self.ledger.checkouts.len()
            invariant
                i <= self.ledger.checkouts.len(),
                forall|k: int|
                    0 <= k < i ==> (#[trigger] self.ledger.checkouts@[k]).book_id != book_id,
            decreases self.ledger.checkouts.len() - i,
        {
            if self.ledger.checkouts[i].book_id == book_id {
                return Some(i);
            }
            i += 1;
        }
        None
    }

    fn find_closed(&self, checkout_id: u128) -> (r: bool)
        ensures
            r == is_closed(self@.ledger.returned_checkouts, checkout_id),
    {
        let mut j: usize = 0;
        while j < self.ledger.returned_checkouts.len()
            invariant
                j <= self.ledger.returned_checkouts.len(),
                forall|k: int|
                    0 <= k < j ==> (#[trigger] self.ledger.returned_checkouts@[k]).checkout_id
                        != checkout_id,
            decreases self.ledger.returned_checkouts.len() - j,
        {
            if self.ledger.returned_checkouts[j].checkout_id == checkout_id {
                return true;
            }
            j += 1;
        }
        false
    }

    /// Runs one statement, as the store would: the answer and the tables
    /// afterwards are those of `DatabaseView::execute`.
    fn execute(&mut self, statement: Statement) -> (r: Reply)
        requires
            old(self)@.wf(),
        ensures
            final(self)@.wf(),
            (final(self)@, r@) == old(self)@.execute(statement),
    {
        let ghost before = self@;
        match statement {
            Statement::Begin => {
                if self.saved.is_some() {
                    Reply::Failed(String::from_str("a transaction is already open"))
                } else {
                    self.saved = Some(self.ledger.duplicate());
                    Reply::Done
                }
            },
            Statement::SetTransactionSerializable => Reply::Done,
            Statement::SelectState { book_id } => {
                if self.find_book(book_id).is_none() {
                    Reply::State(None)
                } else {
                    match self.find_loan(book_id) {
                        Some(i) => {
                            proof {
                                lemma_loan_at(before.ledger.checkouts, book_id, i as int);
                            }
                            let loan = self.ledger.checkouts[i];
                            Reply::State(
                                Some(
                                    CheckoutStateRow {
                                        book_id,
                                        checkout_id: Some(loan.checkout_id),
                                        user_id: Some(loan.user_id),
                                    },
                                ),
                            )
                        },
                        None => Reply::State(
                            Some(CheckoutStateRow { book_id, checkout_id: None, user_id: None }),
                        ),
                    }
                }
            },
            Statement::InsertCheckout { book_id, user_id, checked_out_at } => {
                if self.find_book(book_id).is_none() {
                    Reply::Failed(
                        String::from_str("insert on checkouts violates the foreign key on book_id"),
                    )
                } else if self.find_loan(book_id).is_some() {
                    Reply::Failed(
                        String::from_str(
                            "duplicate key value violates the unique constraint on checkouts.book_id",
                        ),
                    )
                } else if self.ledger.next_checkout_id == u128::MAX {
                    Reply::Failed(String::from_str("no checkout identifier is left"))
                } else {
                    let loan = OpenLoan {
                        checkout_id: self.ledger.next_checkout_id,
                        book_id,
                        user_id,
                        checked_out_at,
                    };
                    self.ledger.checkouts.push(loan);
                    self.ledger.next_checkout_id = self.ledger.next_checkout_id + 1;
                    Reply::RowsAffected(1)
                }
            },
            Statement::InsertReturned { checkout_id, book_id, returned_at } => {
                match self.find_loan(book_id) {
                    Some(i) => {
                        proof {
                            lemma_loan_at(before.ledger.checkouts, book_id, i as int);
                        }
                        let loan = self.ledger.checkouts[i];
                        if loan.checkout_id != checkout_id {
                            Reply::RowsAffected(0)
                        } else if self.find_closed(checkout_id) {
                            Reply::Failed(
                                String::from_str(
                                    "duplicate key value violates the primary key of returned_checkouts",
                                ),
                            )
                        } else {
                            self.ledger.returned_checkouts.push(
                                ClosedLoan {
                                    checkout_id: loan.checkout_id,
                                    book_id: loan.book_id,
                                    user_id: loan.user_id,
                                    checked_out_at: loan.checked_out_at,
                                    returned_at,
                                },
                            );
                            Reply::RowsAffected(1)
                        }
                    },
                    None => Reply::RowsAffected(0),
                }
            },
            Statement::DeleteCheckout { checkout_id, book_id } => {
                match self.find_loan(book_id) {
                    Some(i) => {
                        proof {
                            lemma_loan_at(before.ledger.checkouts, book_id, i as int);
                        }
                        if self.ledger.checkouts[i].checkout_id != checkout_id {
                            Reply::RowsAffected(0)
                        } else {
                            self.ledger.checkouts.remove(i);
                            Reply::RowsAffected(1)
                        }
                    },
                    None => Reply::RowsAffected(0),
                }
            },
            Statement::Commit => {
                self.saved = None;
                Reply::Done
            },
        }
    }

    /// Undoes the open transaction, if one is open.
    fn rollback(&mut self)
        requires
            old(self)@.wf(),
        ensures
            final(self)@ == old(self)@.rollback(),
            final(self)@.wf(),
    {
        let saved = self.saved.take();
        match saved {
            Some(ledger) => {
                self.ledger = ledger;
            },
            None => {},
        }
    }

    /// Whether the catalog has the book.
    fn contains_book(&self, book_id: u128) -> (r: bool)
        ensures
            r == has_book(self@.books, book_id),
    {
        self.find_book(book_id).is_some()
    }

    /// The catalog's row of a book, if the catalog has the book.
    fn book(&self, book_id: u128) -> (r: Option<CatalogEntry>)
        requires
            self@.wf(),
        ensures
            r.is_some() == has_book(self@.books, book_id),
            r matches Some(entry) ==> entry@ == entry_of(self@.books, book_id),
    {
        match self.find_book(book_id) {
            Some(i) => {
                proof {
                    lemma_entry_at(self@.books, book_id, i as int);
                }
                let found = &self.books[i];
                Some(
                    CatalogEntry {
                        book_id: found.book_id,
                        title: found.title.clone(),
                        author: found.author.clone(),
                        isbn: found.isbn.clone(),
                    },
                )
            },
            None => None,
        }
    }

    /// The loan that a book is out under, if it is out.
    fn open_loan(&self, book_id: u128) -> (r: Option<OpenLoan>)
        requires
            self@.wf(),
        ensures
            r == open_loan_of(self@.ledger.checkouts, book_id),
    {
        match self.find_loan(book_id) {
            Some(i) => {
                proof {
                    lemma_loan_at(self@.ledger.checkouts, book_id, i as int);
                }
                Some(self.ledger.checkouts[i])
            },
            None => None,
        }
    }

    /// The open loans, in the order of the table.
    fn open_loans(&self) -> (r: Vec<LoanRecord>)
        ensures
            r@ == open_records(self@.ledger.checkouts),
    {
        let mut loans: Vec<LoanRecord> = Vec::new();
        let mut i: usize = 0;
        while i < self.ledger.checkouts.len()
            invariant
                i <= self.ledger.checkouts.len(),
                loans@ == open_records(self.ledger.checkouts@.take(i as int)),
            decreases self.ledger.checkouts.len() - i,
        {
            let loan = self.ledger.checkouts[i];
            loans.push(
                LoanRecord {
                    checkout_id: loan.checkout_id,
                    book_id: loan.book_id,
                    user_id: loan.user_id,
                    checked_out_at: loan.checked_out_at,
                    returned_at: None,
                },
            );
            assert(loans@ =~= open_records(self.ledger.checkouts@.take(i + 1)));
            i += 1;
        }
        assert(self.ledger.checkouts@.take(self.ledger.checkouts.len() as int)
            =~= self.ledger.checkouts@);
        loans
    }

    /// The closed loans, in the order of the table.
    fn closed_loans(&self) -> (r: Vec<LoanRecord>)
        ensures
            r@ == closed_records(self@.ledger.returned_checkouts),
    {
        let mut loans: Vec<LoanRecord> = Vec::new();
        let mut i: usize = 0;
        while i < self.ledger.returned_checkouts.len()
            invariant
                i <= self.ledger.returned_checkouts.len(),
                loans@ == closed_records(self.ledger.returned_checkouts@.take(i as int)),
            decreases self.ledger.returned_checkouts.len() - i,
        {
            let loan = self.ledger.returned_checkouts[i];
            loans.push(
                LoanRecord {
                    checkout_id: loan.checkout_id,
                    book_id: loan.book_id,
                    user_id: loan.user_id,
                    checked_out_at: loan.checked_out_at,
                    returned_at: Some(loan.returned_at),
                },
            );
            assert(loans@ =~= closed_records(self.ledger.returned_checkouts@.take(i + 1)));
            i += 1;
        }
        assert(self.ledger.returned_checkouts@.take(self.ledger.returned_checkouts.len() as int)
            =~= self.ledger.returned_checkouts@);
        loans
    }

    /// Adds a book to the catalog, unless the catalog holds one with the
    /// same identifier. Says whether it did.
    fn add_book(&mut self, entry: CatalogEntry) -> (r: bool)
        requires
            old(self)@.wf(),
        ensures
            r == !has_book(old(self)@.books, entry.book_id),
            r ==> final(self)@.books == old(self)@.books.push(entry@),
            !r ==> final(self)@.books == old(self)@.books,
            final(self)@.ledger == old(self)@.ledger,
            final(self)@.saved == old(self)@.saved,
            final(self)@.wf(),
    {
        if self.find_book(entry.book_id).is_some() {
            return false;
        }
        let ghost before = self@;
        self.books.push(entry);
        proof {
            let after = self@;
            assert(after.books =~= before.books.push(entry@));
            assert forall|id: u128| has_book(before.books, id) implies has_book(
                after.books,
                id,
            ) by {
                let i = choose|i: int| 0 <= i < before.books.len() && (#[trigger] before.books[i]).book_id == id;
                assert(after.books[i].book_id == id);
            }
        }
        true
    }
    /// Takes a book out of the catalog, and with it the loan it is out
    /// under, if it is out; closed loans stay. Says whether it did: it does
    /// nothing where the catalog lacks the book, and nothing while a
    /// transaction is open.
    fn remove_book(&mut self, book_id: u128) -> (r: bool)
        requires
            old(self)@.wf(),
        ensures
            r == (has_book(old(self)@.books, book_id) && old(self)@.saved is None),
            final(self)@ == old(self)@.without_book(book_id),
            final(self)@.wf(),
            r ==> !has_book(final(self)@.books, book_id),
    {
        let ghost before = self@;
        if self.saved.is_some() {
            return false;
        }
        let at = match self.find_book(book_id) {
            Some(at) => at,
            None => {
                return false;
            },
        };
        proof {
            lemma_entry_at(before.books, book_id, at as int);
        }
        let lent = self.find_loan(book_id);
        self.books.remove(at);
        match lent {
            Some(i) => {
                proof {
                    lemma_loan_at(before.ledger.checkouts, book_id, i as int);
                }
                self.ledger.checkouts.remove(i);
            },
            None => {},
        }
        proof {
            let after = self@;
            assert(after.books =~= before.books.remove(at as int));
            assert(after == before.without_book(book_id));
            // every book but the one removed is still there
            assert forall|id: u128| id != book_id && has_book(before.books, id) implies has_book(
                after.books,
                id,
            ) by {
                let k = choose|k: int| 0 <= k < before.books.len() && (#[trigger] before.books[k]).book_id == id;
                if k < at {
                    assert(after.books[k].book_id == id);
                } else {
                    assert(after.books[k - 1].book_id == id);
                }
            }
            assert forall|k: int| 0 <= k < after.ledger.checkouts.len() implies has_book(
                after.books,
                (#[trigger] after.ledger.checkouts[k]).book_id,
            ) by {
                let loan = after.ledger.checkouts[k];
                match lent {
                    Some(i) => {
                        if k < i {
                            assert(loan == before.ledger.checkouts[k]);
                            assert(before.ledger.checkouts[k].book_id
                                != before.ledger.checkouts[i as int].book_id);
                        } else {
                            assert(loan == before.ledger.checkouts[k + 1]);
                            assert(before.ledger.checkouts[i as int].book_id
                                != before.ledger.checkouts[k + 1].book_id);
                        }
                    },
                    None => {
                        assert(loan == before.ledger.checkouts[k]);
                    },
                }
            }
            if has_book(after.books, book_id) {
                let k = choose|k: int| 0 <= k < after.books.len() && (#[trigger] after.books[k]).book_id == book_id;
                if k < at {
                    assert(before.books[k].book_id != before.books[at as int].book_id);
                } else {
                    assert(before.books[at as int].book_id != before.books[k + 1].book_id);
                }
            }
        }
        true
    }
}

/// The store in memory. Its constraints hold whenever one looks: nothing
/// that can be done to it breaks them.
pub struct Database {
    tables: Tables,
}

impl View for Database {
    type V = DatabaseView;

    closed spec fn view(&self) -> DatabaseView {
        self.tables@
    }
}

impl Database {
    #[verifier::type_invariant]
    spec fn constrained(self) -> bool {
        self.tables@.wf()
    }

    /// A store with an empty catalog and no loans.
    pub fn new() -> (r: Self)
        ensures
            r@.settled(),
            r@.books.len() == 0,
            r@.ledger.checkouts.len() == 0,
            r@.ledger.returned_checkouts.len() == 0,
            r@.ledger.next_checkout_id == 0,
    {
        Database { tables: Tables::new() }
    }

    /// A store with an empty catalog and no loans, whose first loan will
    /// get the identifier given, the next the one after it, and so on.
    pub fn with_first_checkout_id(first: u128) -> (r: Self)
        ensures
            r@.settled(),
            r@.books.len() == 0,
            r@.ledger.checkouts.len() == 0,
            r@.ledger.returned_checkouts.len() == 0,
            r@.ledger.next_checkout_id == first,
    {
        Database { tables: Tables::with_first_checkout_id(first) }
    }

    /// Says, for proofs, that the constraints hold of this store.
    pub fn constraints_hold(&self)
        ensures
            self@.wf(),
    {
        proof {
            use_type_invariant(self);
        }
    }

    /// Whether the catalog has the book.
    pub fn contains_book(&self, book_id: u128) -> (r: bool)
        ensures
            r == has_book(self@.books, book_id),
    {
        self.tables.contains_book(book_id)
    }

    /// The catalog's row of a book, if the catalog has the book.
    pub fn book(&self, book_id: u128) -> (r: Option<CatalogEntry>)
        ensures
            self@.wf(),
            r.is_some() == has_book(self@.books, book_id),
            r matches Some(entry) ==> entry@ == entry_of(self@.books, book_id),
    {
        proof {
            use_type_invariant(self);
        }
        self.tables.book(book_id)
    }

    /// The loan that a book is out under, if it is out.
    pub fn open_loan(&self, book_id: u128) -> (r: Option<OpenLoan>)
        ensures
            self@.wf(),
            r == open_loan_of(self@.ledger.checkouts, book_id),
    {
        proof {
            use_type_invariant(self);
        }
        self.tables.open_loan(book_id)
    }

    /// The open loans, in the order of the table.
    pub fn open_loans(&self) -> (r: Vec<LoanRecord>)
        ensures
            r@ == open_records(self@.ledger.checkouts),
    {
        self.tables.open_loans()
    }

    /// The closed loans, in the order of the table.
    pub fn closed_loans(&self) -> (r: Vec<LoanRecord>)
        ensures
            r@ == closed_records(self@.ledger.returned_checkouts),
    {
        self.tables.closed_loans()
    }

    /// Runs one statement, as the store would: the answer and the tables
    /// afterwards are those of `DatabaseView::execute`.
    pub fn execute(&mut self, statement: Statement) -> (r: Reply)
        ensures
            old(self)@.wf(),
            final(self)@.wf(),
            (final(self)@, r@) == old(self)@.execute(statement),
    {
        proof {
            use_type_invariant(&*self);
        }
        let mut tables = Tables::new();
        core::mem::swap(&mut self.tables, &mut tables);
        let reply = tables.execute(statement);
        core::mem::swap(&mut self.tables, &mut tables);
        reply
    }

    /// Undoes the open transaction, if one is open.
    pub fn rollback(&mut self)
        ensures
            old(self)@.wf(),
            final(self)@.wf(),
            final(self)@ == old(self)@.rollback(),
    {
        proof {
            use_type_invariant(&*self);
        }
        let mut tables = Tables::new();
        core::mem::swap(&mut self.tables, &mut tables);
        tables.rollback();
        core::mem::swap(&mut self.tables, &mut tables);
    }

    /// Adds a book to the catalog, unless the catalog holds one with the
    /// same identifier. Says whether it did.
    pub fn add_book(&mut self, entry: CatalogEntry) -> (r: bool)
        ensures
            r == !has_book(old(self)@.books, entry.book_id),
            r ==> final(self)@.books == old(self)@.books.push(entry@),
            !r ==> final(self)@.books == old(self)@.books,
            final(self)@.ledger == old(self)@.ledger,
            final(self)@.saved == old(self)@.saved,
            old(self)@.wf(),
            final(self)@.wf(),
    {
        proof {
            use_type_invariant(&*self);
        }
        let mut tables = Tables::new();
        core::mem::swap(&mut self.tables, &mut tables);
        let added = tables.add_book(entry);
        core::mem::swap(&mut self.tables, &mut tables);
        added
    }

    /// Takes a book out of the catalog, and with it the loan it is out
    /// under, if it is out; closed loans stay. Says whether it did: it does
    /// nothing where the catalog lacks the book, and nothing while a
    /// transaction is open.
    pub fn remove_book(&mut self, book_id: u128) -> (r: bool)
        ensures
            r == (has_book(old(self)@.books, book_id) && old(self)@.saved is None),
            final(self)@ == old(self)@.without_book(book_id),
            old(self)@.wf(),
            final(self)@.wf(),
            r ==> !has_book(final(self)@.books, book_id),
    {
        proof {
            use_type_invariant(&*self);
        }
        let mut tables = Tables::new();
        core::mem::swap(&mut self.tables, &mut tables);
        let removed = tables.remove_book(book_id);
        core::mem::swap(&mut self.tables, &mut tables);
        removed
    }
}

} // verus!
