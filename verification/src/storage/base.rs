//! Storage errors, and the page arithmetic of a listing: the backend
//! reads one row more than the page holds to learn whether more follow.

use crate::text::join;
use vstd::prelude::*;

verus! {

/// Why a storage operation failed.
#[derive(Clone, Debug, PartialEq)]
pub enum StorageError {
    Database(String),
    Serialization(String),
    NotFound(String),
}

pub enum StorageErrorView {
    Database(Seq<char>),
    Serialization(Seq<char>),
    NotFound(Seq<char>),
}

impl StorageErrorView {
    /// The error as a line of text.
    pub open spec fn message(self) -> Seq<char> {
        match self {
            StorageErrorView::Database(detail) => "Database error: "@ + detail,
            StorageErrorView::Serialization(detail) => "Serialization error: "@ + detail,
            StorageErrorView::NotFound(detail) => "Not found: "@ + detail,
        }
    }
}

impl View for StorageError {
    type V = StorageErrorView;

    open spec fn view(&self) -> StorageErrorView {
        match self {
            StorageError::Database(detail) => StorageErrorView::Database(detail@),
            StorageError::Serialization(detail) => StorageErrorView::Serialization(detail@),
            StorageError::NotFound(detail) => StorageErrorView::NotFound(detail@),
        }
    }
}

impl DeepView for StorageError {
    type V = StorageErrorView;

    open spec fn deep_view(&self) -> StorageErrorView {
        self.view()
    }
}

/// What reading an item by its id gave, with views in place of values.
pub open spec fn fetched_view<T: DeepView>(fetched: Result<Option<T>, StorageError>) -> Result<
    Option<T::V>,
    StorageErrorView,
> {
    match fetched {
        Ok(Some(item)) => Ok(Some(item.deep_view())),
        Ok(None) => Ok(None),
        Err(error) => Err(error@),
    }
}

impl StorageError {
    /// The error as a line of text.
    pub fn message(&self) -> (text: String)
        ensures
            text@ == self@.message(),
    {
        match self {
            StorageError::Database(detail) => join("Database error: ", detail.as_str()),
            StorageError::Serialization(detail) => join("Serialization error: ", detail.as_str()),
            StorageError::NotFound(detail) => join("Not found: ", detail.as_str()),
        }
    }
}

/// How many rows to read for a page of `limit` items: one more, to see
/// whether the page is the last.
pub open spec fn rows_to_read(limit: i64) -> int {
    if limit < i64::MAX {
        limit + 1
    } else {
        i64::MAX as int
    }
}

/// How many of `read` rows belong to a page of `limit` items. A negative
/// limit bounds nothing.
pub open spec fn page_len(read: int, limit: i64) -> int {
    if 0 <= limit < read {
        limit as int
    } else {
        read
    }
}

/// The cursor for the page after `page`: the id of its last row where
/// more rows were read than the page holds, and none otherwise.
pub open spec fn cursor_after<T>(page: Seq<(String, T)>, read: int, limit: i64) -> Option<
    Seq<char>,
> {
    if read > limit && page.len() > 0 {
        Some(page.last().0@)
    } else {
        None
    }
}

/// What a backend reads for the page that begins at position `from` of
/// all rows in ascending order of id: up to one row more than the page
/// holds.
pub open spec fn rows_read<T>(all: Seq<(String, T)>, from: int, limit: i64) -> Seq<(String, T)> {
    let rest = all.skip(from);
    if rows_to_read(limit) < rest.len() {
        rest.take(rows_to_read(limit))
    } else {
        rest
    }
}

/// Pages follow one another without gap or overlap: the page that begins
/// at position `from` holds the next `limit` rows, or the rows that are
/// left; its cursor is the id of its last row, after which the next page
/// begins, and is absent exactly when no row is left for a next page.
pub proof fn lemma_page_after_page<T>(all: Seq<(String, T)>, from: int, limit: i64)
    requires
        0 <= from <= all.len(),
        1 <= limit < i64::MAX,
    ensures
        ({
            let read = rows_read(all, from, limit);
            let page = read.take(page_len(read.len() as int, limit));
            let cursor = cursor_after(page, read.len() as int, limit);
            let end = if from + limit < all.len() {
                from + limit
            } else {
                all.len() as int
            };
            &&& page == all.subrange(from, end)
            &&& from + limit < all.len() ==> cursor == Some(all[end - 1].0@)
            &&& from + limit >= all.len() ==> cursor is None
        }),
{
    let read = rows_read(all, from, limit);
    let page = read.take(page_len(read.len() as int, limit));
    let end = if from + limit < all.len() {
        from + limit
    } else {
        all.len() as int
    };
    assert(page =~= all.subrange(from, end));
    if from + limit < all.len() {
        assert(page.last() == all[end - 1]);
    }
}

/// How many rows to read for a page of `limit` items.
pub fn fetch_size(limit: i64) -> (rows: i64)
    ensures
        rows == rows_to_read(limit),
{
    if limit < i64::MAX {
        limit + 1
    } else {
        i64::MAX
    }
}

/// Splits the rows that were read for a page of `limit` items, each
/// with its id and in ascending order of id, into the page and the
/// cursor for the next page.
pub fn paginate<T>(rows: Vec<(String, T)>, limit: i64) -> (page: (Vec<(String, T)>, Option<String>))
    ensures
        page.0@ == rows@.take(page_len(rows@.len() as int, limit)),
        page.1.deep_view() == cursor_after(page.0@, rows@.len() as int, limit),
{
    let mut items = rows;
    let read = items.len();
    let has_more = limit < 0 || (read as u64) > (limit as u64);
    if limit >= 0 && (read as u64) > (limit as u64) {
        items.truncate(limit as usize);
    }
    assert(items@ =~= rows@.take(page_len(rows@.len() as int, limit)));
    let next_cursor = if has_more && items.len() > 0 {
        Some(items[items.len() - 1].0.clone())
    } else {
        None
    };
    (items, next_cursor)
}

} // verus!
