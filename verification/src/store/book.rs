//! The decisions of the catalog's repository.
use vstd::prelude::*;
use crate::database::model::book::{total_of, BookCheckoutRow, BookRow, PagenatedBookRow};
use crate::model::book::{Book, BookListOptions, Checkout};
use crate::model::list::PaginatedList;
use crate::repository::book::BookRepositoryError;

verus! {

pub open spec fn msg_not_updated() -> Seq<char> {
    "No books record has been updated."@
}

pub open spec fn msg_not_deleted() -> Seq<char> {
    "No books record has been deleted."@
}

/// What the number of rows that an update changed means.
pub fn check_updated(rows_affected: u64) -> (r: Result<(), BookRepositoryError>)
    ensures
        rows_affected >= 1 ==> r is Ok,
        rows_affected < 1 ==> (r matches Err(BookRepositoryError::NoResourceAffected(m)) && m@
            == msg_not_updated()),
{
    if rows_affected < 1 {
        return Err(
            BookRepositoryError::NoResourceAffected(
                String::from_str("No books record has been updated."),
            ),
        );
    }
    Ok(())
}

/// What the number of rows that a removal changed means.
pub fn check_deleted(rows_affected: u64) -> (r: Result<(), BookRepositoryError>)
    ensures
        rows_affected >= 1 ==> r is Ok,
        rows_affected < 1 ==> (r matches Err(BookRepositoryError::NoResourceAffected(m)) && m@
            == msg_not_deleted()),
{
    if rows_affected < 1 {
        return Err(
            BookRepositoryError::NoResourceAffected(
                String::from_str("No books record has been deleted."),
            ),
        );
    }
    Ok(())
}

/// Where the rows of open loans hold the loan of a book: the last row that
/// names the book, if any does.
pub open spec fn loan_row_of(checkouts: Seq<BookCheckoutRow>, book_id: u128) -> Option<int>
    decreases checkouts.len(),
{
    if checkouts.len() == 0 {
        None
    } else if checkouts.last().book_id == book_id {
        Some(checkouts.len() - 1)
    } else {
        loan_row_of(checkouts.drop_last(), book_id)
    }
}

/// Whether a row before the one at `i` names the same book.
pub open spec fn named_before(rows: Seq<BookRow>, i: int) -> bool {
    exists|j: int| 0 <= j < i && (#[trigger] rows[j]).book_id == rows[i].book_id
}

/// Whether the book is the one that the row at `i` stands for, shown with
/// its loan: the loan that the rows of open loans hold for it, and none for
/// a book that an earlier row named already.
pub open spec fn shown_at(
    book: Book,
    rows: Seq<BookRow>,
    checkouts: Seq<BookCheckoutRow>,
    i: int,
) -> bool {
    &&& rows[i].stands_for(book)
    &&& match loan_row_of(checkouts, rows[i].book_id) {
        Some(at) if !named_before(rows, i) => book.checkout matches Some(checkout)
            && checkouts[at].stands_for(checkout),
        _ => book.checkout is None,
    }
}

/// Whether `k` is the first row that does not pass validation.
pub open spec fn first_invalid_row(rows: Seq<BookRow>, k: int) -> bool {
    &&& 0 <= k < rows.len()
    &&& !rows[k].valid()
    &&& forall|j: int| 0 <= j < k ==> (#[trigger] rows[j]).valid()
}

fn find_loan_row(checkouts: &Vec<BookCheckoutRow>, book_id: u128) -> (r: Option<usize>)
    ensures
        r.is_some() == loan_row_of(checkouts@, book_id).is_some(),
        r matches Some(at) ==> at < checkouts@.len() && loan_row_of(checkouts@, book_id) == Some(
            at as int,
        ),
{
    let mut at: usize = checkouts.len();
    assert(checkouts@.take(at as int) =~= checkouts@);
    while at > 0
        invariant
            at <= checkouts.len(),
            loan_row_of(checkouts@, book_id) == loan_row_of(checkouts@.take(at as int), book_id),
        decreases at,
    {
        assert(checkouts@.take(at as int).drop_last() =~= checkouts@.take(at - 1));
        assert(checkouts@.take(at as int).last() == checkouts@[at - 1]);
        if checkouts[at - 1].book_id == book_id {
            return Some(at - 1);
        }
        at -= 1;
    }
    assert(checkouts@.take(0).len() == 0);
    None
}

fn already_named(seen: &Vec<u128>, book_id: u128) -> (r: bool)
    ensures
        r == exists|j: int| 0 <= j < seen@.len() && #[trigger] seen@[j] == book_id,
{
    let mut j: usize = 0;
    while j < seen.len()
        invariant
            j <= seen.len(),
            forall|k: int| 0 <= k < j ==> #[trigger] seen@[k] != book_id,
        decreases seen.len() - j,
    {
        if seen[j] == book_id {
            return true;
        }
        j += 1;
    }
    false
}

/// Makes the books of a page of rows, each shown with the loan it is out
/// under. Succeeds exactly where every row passes validation; else it
/// fails, with `InvalidSavedEntity`, on the first row that does not.
pub fn attach_checkouts(rows: Vec<BookRow>, checkouts: &Vec<BookCheckoutRow>) -> (r: Result<
    Vec<Book>,
    BookRepositoryError,
>)
    ensures
        r.is_ok() == (forall|i: int| 0 <= i < rows@.len() ==> (#[trigger] rows@[i]).valid()),
        r matches Ok(books) ==> books@.len() == rows@.len() && (forall|i: int|
            0 <= i < books@.len() ==> shown_at(#[trigger] books@[i], rows@, checkouts@, i)),
        r matches Err(e) ==> (e matches BookRepositoryError::InvalidSavedEntity(m) && (exists|
            k: int,
        |
            first_invalid_row(rows@, k) && m@ == rows@[k].fault())),
{
    let mut books: Vec<Book> = Vec::new();
    let mut seen: Vec<u128> = Vec::new();
    for row in it: rows
        invariant
            it.seq() == rows@,
            books@.len() == it.index(),
            seen@.len() == it.index(),
            forall|i: int| 0 <= i < seen@.len() ==> #[trigger] seen@[i] == rows@[i].book_id,
            forall|i: int| 0 <= i < it.index() ==> (#[trigger] rows@[i]).valid(),
            forall|i: int|
                0 <= i < books@.len() ==> shown_at(#[trigger] books@[i], rows@, checkouts@, i),
    {
        let ghost i = it.index();
        let book_id = row.book_id;
        let named = already_named(&seen, book_id);
        proof {
            if named {
                let j = choose|j: int| 0 <= j < seen@.len() && #[trigger] seen@[j] == book_id;
                assert(rows@[j].book_id == rows@[i].book_id);
            }
            if named_before(rows@, i) {
                let j = choose|j: int| 0 <= j < i && (#[trigger] rows@[j]).book_id == rows@[i].book_id;
                assert(seen@[j] == book_id);
            }
            assert(named == named_before(rows@, i));
        }
        let checkout = if named {
            None
        } else {
            match find_loan_row(checkouts, book_id) {
                Some(at) => {
                    let found = &checkouts[at];
                    let copy = BookCheckoutRow {
                        checkout_id: found.checkout_id,
                        book_id: found.book_id,
                        user_id: found.user_id,
                        user_name: found.user_name.clone(),
                        checked_out_at: found.checked_out_at,
                    };
                    match Checkout::try_from(copy) {
                        Ok(c) => Some(c),
                        Err(e) => {
                            return Err(BookRepositoryError::InvalidSavedEntity(e.message()));
                        },
                    }
                },
                None => None,
            }
        };
        match row.try_into_book(checkout) {
            Ok(book) => {
                books.push(book);
                seen.push(book_id);
            },
            Err(e) => {
                proof {
                    assert(first_invalid_row(rows@, i));
                }
                return Err(BookRepositoryError::InvalidSavedEntity(e.message()));
            },
        }
    }
    Ok(books)
}

/// The page of the catalog that its rows and its books make: the size of
/// the whole is what the first row says, and none where the page is empty.
pub fn page_of(rows: &Vec<PagenatedBookRow>, options: BookListOptions, items: Vec<Book>) -> (r:
    PaginatedList<Book>)
    ensures
        r.total == (if rows@.len() == 0 {
            0
        } else {
            rows@[0].total
        }),
        r.limit == options.limit,
        r.offset == options.offset,
        r.items == items,
{
    let BookListOptions { limit, offset } = options;
    PaginatedList { total: total_of(rows), limit, offset, items }
}

} // verus!
