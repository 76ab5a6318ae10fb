//! Reading loans: choosing them, joining them with the catalog, and
//! validating what was stored.
use vstd::prelude::*;
use crate::database::memory::Database;
use crate::database::model::checkout::{row_loan, CheckoutRow, ReturnedCheckoutRow};
use crate::database::tables::{
    closed_records, entry_of, has_book, open_loan_of, open_record, open_records,
    CatalogEntryView, DatabaseView, LoanRecord, OpenLoan,
};
use crate::model::checkout::{Checkout, CheckoutView};
use crate::repository::checkout::{CheckoutFailure, CheckoutRepositoryError};
use crate::store::checkout::order::arrange;

verus! {

/// Which loans a query asks for.
#[derive(Clone, Copy, Debug, PartialEq, Eq, Structural)]
pub enum Selection {
    /// The loans of one user.
    LentTo(u128),
    /// The loans of one book.
    OfBook(u128),
}

/// Whether a selection takes a loan.
pub open spec fn selects(selection: Selection, loan: LoanRecord) -> bool {
    match selection {
        Selection::LentTo(user_id) => loan.user_id == user_id,
        Selection::OfBook(book_id) => loan.book_id == book_id,
    }
}

/// The loans that a selection takes, in the order given.
pub open spec fn select(s: Seq<LoanRecord>, selection: Selection) -> Seq<LoanRecord>
    decreases s.len(),
{
    if s.len() == 0 {
        Seq::empty()
    } else if selects(selection, s.last()) {
        select(s.drop_last(), selection).push(s.last())
    } else {
        select(s.drop_last(), selection)
    }
}

/// A selection takes loans that it selects, out of those given.
pub proof fn lemma_select_members(s: Seq<LoanRecord>, selection: Selection, i: int)
    requires
        0 <= i < select(s, selection).len(),
    ensures
        selects(selection, select(s, selection)[i]),
        s.contains(select(s, selection)[i]),
    decreases s.len(),
{
    if s.len() > 0 {
        let front = select(s.drop_last(), selection);
        if i < front.len() {
            lemma_select_members(s.drop_last(), selection, i);
            let k = choose|k: int| 0 <= k < s.drop_last().len() && s.drop_last()[k] == front[i];
            assert(s[k] == front[i]);
        } else {
            assert(s[s.len() - 1] == s.last());
        }
    }
}

/// Chooses loans.
pub fn select_loans(loans: &Vec<LoanRecord>, selection: Selection) -> (r: Vec<LoanRecord>)
    ensures
        r@ == select(loans@, selection),
{
    let mut chosen: Vec<LoanRecord> = Vec::new();
    let mut i: usize = 0;
    while i < loans.len()
        invariant
            i <= loans.len(),
            chosen@ == select(loans@.take(i as int), selection),
        decreases loans.len() - i,
    {
        let loan = loans[i];
        let take = match selection {
            Selection::LentTo(user_id) => loan.user_id == user_id,
            Selection::OfBook(book_id) => loan.book_id == book_id,
        };
        proof {
            assert(loans@.take(i + 1).drop_last() =~= loans@.take(i as int));
            assert(loans@.take(i + 1).last() == loan);
        }
        if take {
            chosen.push(loan);
        }
        i += 1;
    }
    assert(loans@.take(loans.len() as int) =~= loans@);
    chosen
}

/// Whether a row of the catalog passes validation: title, author and ISBN
/// must not be empty.
pub open spec fn entry_valid(entry: CatalogEntryView) -> bool {
    entry.title.len() > 0 && entry.author.len() > 0 && entry.isbn.len() > 0
}

/// What is wrong with a row of the catalog that is not valid: the first
/// text that is empty, in the order title, author, ISBN.
pub open spec fn entry_fault(entry: CatalogEntryView) -> Seq<char> {
    if entry.title.len() == 0 {
        "saved title is invalid: "@ + ("invalid "@ + entry.title)
    } else if entry.author.len() == 0 {
        "saved author is invalid: "@ + ("invalid "@ + entry.author)
    } else {
        "saved isbn is invalid: "@ + ("invalid "@ + entry.isbn)
    }
}

/// A loan joined with its book.
pub open spec fn joined(books: Seq<CatalogEntryView>, loan: LoanRecord) -> CheckoutView {
    let entry = entry_of(books, loan.book_id);
    row_loan(
        loan.checkout_id,
        loan.user_id,
        loan.checked_out_at,
        loan.returned_at,
        loan.book_id,
        entry.title,
        entry.author,
        entry.isbn,
    )
}

/// The loans joined with their books, in the order given.
pub open spec fn joined_all(books: Seq<CatalogEntryView>, loans: Seq<LoanRecord>) -> Seq<
    CheckoutView,
> {
    Seq::new(loans.len(), |i: int| joined(books, loans[i]))
}

/// Whether the book of the loan at `i` passes validation.
pub open spec fn valid_at(books: Seq<CatalogEntryView>, loans: Seq<LoanRecord>, i: int) -> bool {
    entry_valid(entry_of(books, loans[i].book_id))
}

/// Whether `k` is the first loan whose book does not pass validation.
pub open spec fn first_invalid(books: Seq<CatalogEntryView>, loans: Seq<LoanRecord>, k: int) -> bool {
    &&& 0 <= k < loans.len()
    &&& !valid_at(books, loans, k)
    &&& forall|j: int| 0 <= j < k ==> valid_at(books, loans, j)
}

/// What reading the given loans yields: each loan joined with its book, in
/// the order given, where every book passes validation; else the fault of
/// the first that does not.
pub open spec fn read_loans(books: Seq<CatalogEntryView>, loans: Seq<LoanRecord>) -> Result<
    Seq<CheckoutView>,
    CheckoutFailure,
> {
    if forall|i: int| 0 <= i < loans.len() ==> valid_at(books, loans, i) {
        Ok(joined_all(books, loans))
    } else {
        let k = choose|k: int| first_invalid(books, loans, k);
        Err(CheckoutFailure::InvalidSavedEntity(entry_fault(entry_of(books, loans[k].book_id))))
    }
}

/// The loans of a list, by their views.
pub open spec fn views(loans: Seq<Checkout>) -> Seq<CheckoutView> {
    loans.map_values(|loan: Checkout| loan@)
}

/// The result of a loan query, by views.
pub open spec fn listing_view(r: Result<Vec<Checkout>, CheckoutRepositoryError>) -> Result<
    Seq<CheckoutView>,
    CheckoutFailure,
> {
    match r {
        Ok(loans) => Ok(views(loans@)),
        Err(e) => Err(e@),
    }
}

/// The loan that a book is out under, as a list of one or none.
pub open spec fn open_part(checkouts: Seq<OpenLoan>, book_id: u128) -> Seq<LoanRecord> {
    match open_loan_of(checkouts, book_id) {
        Some(loan) => seq![open_record(loan)],
        None => Seq::empty(),
    }
}

impl DatabaseView {
    /// The open loans, by ascending instant of checkout.
    pub open spec fn unreturned_all(self) -> Result<Seq<CheckoutView>, CheckoutFailure> {
        read_loans(self.books, arrange(open_records(self.ledger.checkouts), true))
    }

    /// The open loans of a user, by ascending instant of checkout.
    pub open spec fn unreturned_by_user(self, user_id: u128) -> Result<
        Seq<CheckoutView>,
        CheckoutFailure,
    > {
        read_loans(
            self.books,
            arrange(select(open_records(self.ledger.checkouts), Selection::LentTo(user_id)), true),
        )
    }

    /// The loans of a book: the open one first, if the book is out, then
    /// the closed ones by descending instant of checkout. Nothing, where
    /// the catalog lacks the book.
    pub open spec fn history_by_book(self, book_id: u128) -> Result<
        Seq<CheckoutView>,
        CheckoutFailure,
    > {
        if !has_book(self.books, book_id) {
            Ok(Seq::empty())
        } else {
            read_loans(
                self.books,
                open_part(self.ledger.checkouts, book_id) + arrange(
                    select(
                        closed_records(self.ledger.returned_checkouts),
                        Selection::OfBook(book_id),
                    ),
                    false,
                ),
            )
        }
    }
}

/// Joins loans with their books and validates each row.
pub(crate) fn load(db: &Database, loans: &Vec<LoanRecord>) -> (r: Result<
    Vec<Checkout>,
    CheckoutRepositoryError,
>)
    requires
        forall|i: int| 0 <= i < loans.len() ==> has_book(db@.books, (#[trigger] loans[i]).book_id),
    ensures
        listing_view(r) == read_loans(db@.books, loans@),
{
    db.constraints_hold();
    let mut result: Vec<Checkout> = Vec::new();
    let mut i: usize = 0;
    while i < loans.len()
        invariant
            i <= loans.len(),
            db@.wf(),
            forall|k: int|
                0 <= k < loans.len() ==> has_book(db@.books, (#[trigger] loans[k]).book_id),
            forall|k: int| 0 <= k < i ==> valid_at(db@.books, loans@, k),
            result@.len() == i,
            views(result@) == joined_all(db@.books, loans@.take(i as int)),
        decreases loans.len() - i,
    {
        let loan = loans[i];
        let entry = match db.book(loan.book_id) {
            Some(entry) => entry,
            None => {
                assert(has_book(db@.books, loans[i as int].book_id));
                vstd::pervasive::unreached()
            },
        };
        let converted = match loan.returned_at {
            None => {
                let row = CheckoutRow {
                    checkout_id: loan.checkout_id,
                    user_id: loan.user_id,
                    checked_out_at: loan.checked_out_at,
                    book_id: loan.book_id,
                    title: entry.title,
                    author: entry.author,
                    isbn: entry.isbn,
                };
                match Checkout::try_from(row) {
                    Ok(c) => Ok(c),
                    Err(e) => Err(e.message()),
                }
            },
            Some(returned_at) => {
                let row = ReturnedCheckoutRow {
                    checkout_id: loan.checkout_id,
                    user_id: loan.user_id,
                    checked_out_at: loan.checked_out_at,
                    returned_at,
                    book_id: loan.book_id,
                    title: entry.title,
                    author: entry.author,
                    isbn: entry.isbn,
                };
                match Checkout::try_from(row) {
                    Ok(c) => Ok(c),
                    Err(e) => Err(e.message()),
                }
            },
        };
        match converted {
            Ok(c) => {
                assert(c@ == joined(db@.books, loan));
                let ghost before = result@;
                result.push(c);
                proof {
                    let target = joined_all(db@.books, loans@.take(i + 1));
                    assert forall|j: int| 0 <= j < target.len() implies views(result@)[j]
                        == target[j] by {
                        if j < i {
                            assert(views(before)[j] == joined_all(
                                db@.books,
                                loans@.take(i as int),
                            )[j]);
                            assert(result@[j] == before[j]);
                        }
                    }
                    assert(views(result@) =~= target);
                }
            },
            Err(message) => {
                proof {
                    assert(!valid_at(db@.books, loans@, i as int));
                    assert(first_invalid(db@.books, loans@, i as int));
                    let k = choose|k: int| first_invalid(db@.books, loans@, k);
                    assert(first_invalid(db@.books, loans@, k));
                    assert(k == i);
                }
                return Err(CheckoutRepositoryError::InvalidSavedEntity(message));
            },
        }
        i += 1;
    }
    assert(loans@.take(loans.len() as int) =~= loans@);
    Ok(result)
}

/// Whether `k` is the first row that does not pass validation.
pub open spec fn first_invalid_open(rows: Seq<CheckoutRow>, k: int) -> bool {
    &&& 0 <= k < rows.len()
    &&& !rows[k].valid()
    &&& forall|j: int| 0 <= j < k ==> (#[trigger] rows[j]).valid()
}

/// Whether `k` is the first row that does not pass validation.
pub open spec fn first_invalid_closed(rows: Seq<ReturnedCheckoutRow>, k: int) -> bool {
    &&& 0 <= k < rows.len()
    &&& !rows[k].valid()
    &&& forall|j: int| 0 <= j < k ==> (#[trigger] rows[j]).valid()
}

/// Makes the open loans of their rows, in the order given. Succeeds
/// exactly where every row passes validation; else it fails, with
/// `InvalidSavedEntity`, on the first row that does not.
pub fn read_open(rows: Vec<CheckoutRow>) -> (r: Result<Vec<Checkout>, CheckoutRepositoryError>)
    ensures
        r.is_ok() == (forall|i: int| 0 <= i < rows@.len() ==> (#[trigger] rows@[i]).valid()),
        r matches Ok(loans) ==> loans@.len() == rows@.len() && (forall|i: int|
            0 <= i < loans@.len() ==> (#[trigger] loans@[i])@ == rows@[i].loan()),
        r matches Err(e) ==> (e matches CheckoutRepositoryError::InvalidSavedEntity(m) && (exists|
            k: int,
        |
            first_invalid_open(rows@, k) && m@ == rows@[k].fault())),
{
    let mut loans: Vec<Checkout> = Vec::new();
    for row in it: rows
        invariant
            it.seq() == rows@,
            loans@.len() == it.index(),
            forall|i: int| 0 <= i < it.index() ==> (#[trigger] rows@[i]).valid(),
            forall|i: int| 0 <= i < loans@.len() ==> (#[trigger] loans@[i])@ == rows@[i].loan(),
    {
        let ghost i = it.index();
        match Checkout::try_from(row) {
            Ok(loan) => {
                loans.push(loan);
            },
            Err(e) => {
                proof {
                    assert(first_invalid_open(rows@, i));
                }
                return Err(CheckoutRepositoryError::InvalidSavedEntity(e.message()));
            },
        }
    }
    Ok(loans)
}

/// Makes the history of a book of its rows: the open loan first, if there
/// is one, then the closed loans in the order given. Succeeds exactly
/// where every row passes validation; else it fails with
/// `InvalidSavedEntity`: on the open loan's row where that is not valid,
/// else on the first closed loan's row that is not.
pub fn read_history(closed: Vec<ReturnedCheckoutRow>, checking_out: Option<CheckoutRow>) -> (r:
    Result<Vec<Checkout>, CheckoutRepositoryError>)
    ensures
        r.is_ok() == ((checking_out matches Some(row) ==> row.valid()) && (forall|i: int|
            0 <= i < closed@.len() ==> (#[trigger] closed@[i]).valid())),
        r matches Ok(loans) ==> match checking_out {
            Some(row) => {
                &&& loans@.len() == closed@.len() + 1
                &&& loans@[0]@ == row.loan()
                &&& forall|i: int|
                    0 <= i < closed@.len() ==> (#[trigger] loans@[i + 1])@ == closed@[i].loan()
            },
            None => {
                &&& loans@.len() == closed@.len()
                &&& forall|i: int|
                    0 <= i < closed@.len() ==> (#[trigger] loans@[i])@ == closed@[i].loan()
            },
        },
        r matches Err(e) ==> (e matches CheckoutRepositoryError::InvalidSavedEntity(m) && (
        if checking_out matches Some(row) && !row.valid() {
            m@ == checking_out->Some_0.fault()
        } else {
            exists|k: int| first_invalid_closed(closed@, k) && m@ == closed@[k].fault()
        })),
{
    let mut loans: Vec<Checkout> = Vec::new();
    let ghost lead: int = if checking_out is Some {
        1
    } else {
        0
    };
    match checking_out {
        Some(row) => match Checkout::try_from(row) {
            Ok(loan) => {
                loans.push(loan);
            },
            Err(e) => {
                return Err(CheckoutRepositoryError::InvalidSavedEntity(e.message()));
            },
        },
        None => {},
    }
    for row in it: closed
        invariant
            it.seq() == closed@,
            loans@.len() == it.index() + lead,
            lead == (if checking_out is Some {
                1int
            } else {
                0int
            }),
            checking_out matches Some(first) ==> first.valid() && loans@[0]@ == first.loan(),
            forall|i: int| 0 <= i < it.index() ==> (#[trigger] closed@[i]).valid(),
            forall|i: int|
                0 <= i < it.index() ==> (#[trigger] loans@[i + lead])@ == closed@[i].loan(),
    {
        let ghost i = it.index();
        match Checkout::try_from(row) {
            Ok(loan) => {
                loans.push(loan);
            },
            Err(e) => {
                proof {
                    assert(first_invalid_closed(closed@, i));
                }
                return Err(CheckoutRepositoryError::InvalidSavedEntity(e.message()));
            },
        }
    }
    proof {
        if checking_out is None {
            assert forall|i: int| 0 <= i < closed@.len() implies (#[trigger] loans@[i])@
                == closed@[i].loan() by {
                assert(loans@[i + lead]@ == closed@[i].loan());
            }
        }
    }
    Ok(loans)
}

} // verus!
