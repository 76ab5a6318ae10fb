//! Tables in memory: the catalog as far as lending reads it, the open
//! loans, the closed loans, and the constraints that the store keeps on
//! them.
use vstd::prelude::*;
use crate::database::model::checkout::CheckoutStateRow;

verus! {

/// A row of the open loans: the book is out.
#[derive(Clone, Copy, Debug, PartialEq, Eq, Structural)]
pub struct OpenLoan {
    pub checkout_id: u128,
    pub book_id: u128,
    pub user_id: u128,
    pub checked_out_at: i64,
}

/// A row of the closed loans: the book came back.
#[derive(Clone, Copy, Debug, PartialEq, Eq, Structural)]
pub struct ClosedLoan {
    pub checkout_id: u128,
    pub book_id: u128,
    pub user_id: u128,
    pub checked_out_at: i64,
    pub returned_at: i64,
}

/// A loan as either loan table holds it; `returned_at` is `None` while it
/// is open.
#[derive(Clone, Copy, Debug, PartialEq, Eq, Structural)]
pub struct LoanRecord {
    pub checkout_id: u128,
    pub book_id: u128,
    pub user_id: u128,
    pub checked_out_at: i64,
    pub returned_at: Option<i64>,
}

/// An open loan as a loan record.
pub open spec fn open_record(loan: OpenLoan) -> LoanRecord {
    LoanRecord {
        checkout_id: loan.checkout_id,
        book_id: loan.book_id,
        user_id: loan.user_id,
        checked_out_at: loan.checked_out_at,
        returned_at: None,
    }
}

/// A closed loan as a loan record.
pub open spec fn closed_record(loan: ClosedLoan) -> LoanRecord {
    LoanRecord {
        checkout_id: loan.checkout_id,
        book_id: loan.book_id,
        user_id: loan.user_id,
        checked_out_at: loan.checked_out_at,
        returned_at: Some(loan.returned_at),
    }
}

/// The open loans as loan records, in the order of the table.
pub open spec fn open_records(checkouts: Seq<OpenLoan>) -> Seq<LoanRecord> {
    checkouts.map_values(|loan: OpenLoan| open_record(loan))
}

/// The closed loans as loan records, in the order of the table.
pub open spec fn closed_records(returned_checkouts: Seq<ClosedLoan>) -> Seq<LoanRecord> {
    returned_checkouts.map_values(|loan: ClosedLoan| closed_record(loan))
}

/// A row of the catalog, as stored: nothing in it has been validated.
#[derive(Debug)]
pub struct CatalogEntry {
    pub book_id: u128,
    pub title: String,
    pub author: String,
    pub isbn: String,
}

/// A row of the catalog, with its texts as sequences.
pub struct CatalogEntryView {
    pub book_id: u128,
    pub title: Seq<char>,
    pub author: Seq<char>,
    pub isbn: Seq<char>,
}

impl View for CatalogEntry {
    type V = CatalogEntryView;

    open spec fn view(&self) -> CatalogEntryView {
        CatalogEntryView {
            book_id: self.book_id,
            title: self.title@,
            author: self.author@,
            isbn: self.isbn@,
        }
    }
}

/// The two loan tables and the next loan identifier to hand out.
pub struct LedgerView {
    pub checkouts: Seq<OpenLoan>,
    pub returned_checkouts: Seq<ClosedLoan>,
    pub next_checkout_id: u128,
}

/// The whole store: the catalog, the loan tables, and, while a
/// transaction is open, the loan tables as they were when it began.
pub struct DatabaseView {
    pub books: Seq<CatalogEntryView>,
    pub ledger: LedgerView,
    pub saved: Option<LedgerView>,
}

/// Whether the catalog holds the book.
pub open spec fn has_book(books: Seq<CatalogEntryView>, book_id: u128) -> bool {
    exists|i: int| 0 <= i < books.len() && (#[trigger] books[i]).book_id == book_id
}

/// Where the catalog holds a book that it has.
pub open spec fn book_index(books: Seq<CatalogEntryView>, book_id: u128) -> int {
    choose|i: int| 0 <= i < books.len() && (#[trigger] books[i]).book_id == book_id
}

/// The catalog's row of a book that it has.
pub open spec fn entry_of(books: Seq<CatalogEntryView>, book_id: u128) -> CatalogEntryView {
    books[book_index(books, book_id)]
}

/// Whether the book is out.
pub open spec fn is_out(checkouts: Seq<OpenLoan>, book_id: u128) -> bool {
    exists|i: int| 0 <= i < checkouts.len() && (#[trigger] checkouts[i]).book_id == book_id
}

/// Where the open loans hold the loan of a book that is out.
pub open spec fn loan_index(checkouts: Seq<OpenLoan>, book_id: u128) -> int {
    choose|i: int| 0 <= i < checkouts.len() && (#[trigger] checkouts[i]).book_id == book_id
}

/// The loan that the book is out under, if it is out.
pub open spec fn open_loan_of(checkouts: Seq<OpenLoan>, book_id: u128) -> Option<OpenLoan> {
    if is_out(checkouts, book_id) {
        Some(checkouts[loan_index(checkouts, book_id)])
    } else {
        None
    }
}

/// The primary key of the catalog: no two books share an identifier.
pub open spec fn books_unique(books: Seq<CatalogEntryView>) -> bool {
    forall|i: int, j: int|
        0 <= i < j < books.len() ==> (#[trigger] books[i]).book_id != (#[trigger] books[j]).book_id
}

/// The constraints that the store keeps on the loan tables after every
/// statement.
pub open spec fn ledger_wf(books: Seq<CatalogEntryView>, ledger: LedgerView) -> bool {
    // the primary key of the open loans
    &&& forall|i: int, j: int|
        0 <= i < j < ledger.checkouts.len() ==> (#[trigger] ledger.checkouts[i]).checkout_id != (
        #[trigger] ledger.checkouts[j]).checkout_id
    // at most one open loan for a book
    &&& forall|i: int, j: int|
        0 <= i < j < ledger.checkouts.len() ==> (#[trigger] ledger.checkouts[i]).book_id != (
        #[trigger] ledger.checkouts[j]).book_id
    // an open loan is of a cataloged book
    &&& forall|i: int|
        0 <= i < ledger.checkouts.len() ==> has_book(
            books,
            (#[trigger] ledger.checkouts[i]).book_id,
        )
    // the primary key of the closed loans
    &&& forall|i: int, j: int|
        0 <= i < j < ledger.returned_checkouts.len() ==> (
        #[trigger] ledger.returned_checkouts[i]).checkout_id != (
        #[trigger] ledger.returned_checkouts[j]).checkout_id
    // identifiers are handed out in increasing order
    &&& forall|i: int|
        0 <= i < ledger.checkouts.len() ==> (#[trigger] ledger.checkouts[i]).checkout_id
            < ledger.next_checkout_id
    &&& forall|i: int|
        0 <= i < ledger.returned_checkouts.len() ==> (
        #[trigger] ledger.returned_checkouts[i]).checkout_id < ledger.next_checkout_id
}

/// No loan is open and closed at once. This holds between transactions;
/// inside a return it fails for a moment, between the two writes.
pub open spec fn ledger_settled(ledger: LedgerView) -> bool {
    forall|i: int, j: int|
        0 <= i < ledger.checkouts.len() && 0 <= j < ledger.returned_checkouts.len() ==> (
        #[trigger] ledger.checkouts[i]).checkout_id != (
        #[trigger] ledger.returned_checkouts[j]).checkout_id
}

/// Whether the closed loans hold a loan with this identifier.
pub open spec fn is_closed(returned_checkouts: Seq<ClosedLoan>, checkout_id: u128) -> bool {
    exists|j: int|
        0 <= j < returned_checkouts.len() && (#[trigger] returned_checkouts[j]).checkout_id
            == checkout_id
}

impl DatabaseView {
    /// The constraints hold, of the tables and of what a rollback would
    /// bring back.
    pub open spec fn wf(self) -> bool {
        &&& books_unique(self.books)
        &&& ledger_wf(self.books, self.ledger)
        &&& self.saved matches Some(saved) ==> ledger_wf(self.books, saved)
    }

    /// No transaction holds the store open.
    pub open spec fn idle(self) -> bool {
        self.saved is None
    }

    /// The store between transactions: the constraints hold, no
    /// transaction is open, and no loan is open and closed at once.
    pub open spec fn settled(self) -> bool {
        &&& self.wf()
        &&& self.idle()
        &&& ledger_settled(self.ledger)
    }

    /// What the state read finds for a book: nothing where the catalog
    /// lacks it; else the book, with its loan where it is out.
    pub open spec fn state_row(self, book_id: u128) -> Option<CheckoutStateRow> {
        if !has_book(self.books, book_id) {
            None
        } else {
            match open_loan_of(self.ledger.checkouts, book_id) {
                Some(loan) => Some(
                    CheckoutStateRow {
                        book_id,
                        checkout_id: Some(loan.checkout_id),
                        user_id: Some(loan.user_id),
                    },
                ),
                None => Some(CheckoutStateRow { book_id, checkout_id: None, user_id: None }),
            }
        }
    }
}

} // verus!
