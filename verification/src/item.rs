//! Work items, the pagination cursor and what a feed promises of a page.

use vstd::prelude::*;

verus! {

/// One snippet pulled from the feed.
#[derive(Debug)]
pub struct WorkItem {
    /// The item's identifier. Newer items have larger identifiers.
    pub id: u64,
    /// The snippet's source text, as the feed transports it.
    pub text: String,
    /// When the item was created, as the feed renders it.
    pub created_at: String,
    /// The account that wrote the item, if the feed names one.
    pub author: Option<String>,
}

/// The mathematical value of a [`WorkItem`].
pub struct ItemView {
    pub id: u64,
    pub text: Seq<char>,
    pub created_at: Seq<char>,
    pub author: Option<Seq<char>>,
}

impl View for WorkItem {
    type V = ItemView;

    open spec fn view(&self) -> ItemView {
        ItemView {
            id: self.id,
            text: self.text@,
            created_at: self.created_at@,
            author: match self.author {
                Some(name) => Some(name@),
                None => None,
            },
        }
    }
}

/// The pagination position: `Some(c)` asks for items strictly older than `c`,
/// `None` asks for the newest page.
pub type Cursor = Option<u64>;

/// The mathematical value of a page of items.
pub open spec fn items_view(items: Seq<WorkItem>) -> Seq<ItemView> {
    Seq::new(items.len(), |i: int| items[i]@)
}

/// Whether an item with identifier `id` may be delivered in answer to
/// `cursor`: any item answers `None`, and only items strictly older than `c`
/// answer `Some(c)`.
pub open spec fn older_than(id: u64, cursor: Cursor) -> bool {
    match cursor {
        Some(c) => id < c,
        None => true,
    }
}

/// Whether the identifiers of `page` fall strictly from each item to the
/// next, largest first.
pub open spec fn strictly_descending(page: Seq<ItemView>) -> bool {
    forall|i: int, j: int| 0 <= i < j < page.len() ==> page[i].id > page[j].id
}

/// What a feed promises of the page that it returns for `cursor`: the items
/// come largest identifier first, without repetition, and each is strictly
/// older than the cursor.
pub open spec fn page_answers(page: Seq<ItemView>, cursor: Cursor) -> bool {
    &&& strictly_descending(page)
    &&& forall|i: int| 0 <= i < page.len() ==> older_than(#[trigger] page[i].id, cursor)
}

/// The cursor value that follows an item with identifier `id`: one less, so
/// that the item is not delivered again. Below zero there is nothing to ask
/// for, so the value stays at zero.
pub open spec fn cursor_after(id: u64) -> u64 {
    if id == 0 {
        0
    } else {
        (id - 1) as u64
    }
}

/// Whether cursor `lower` lies strictly below cursor `upper`. The newest-page
/// cursor `None` lies above every other.
pub open spec fn cursor_below(lower: Cursor, upper: Cursor) -> bool {
    match (lower, upper) {
        (Some(l), Some(u)) => l < u,
        (Some(_), None) => true,
        (None, _) => false,
    }
}

/// What to ask of a feed that bounds a page from above by the largest
/// identifier the page may hold.
#[derive(Debug, Clone, Copy, PartialEq, Eq, Structural)]
pub enum PageRequest {
    /// The newest page, without a bound.
    Newest,
    /// The newest page among the items with this identifier or a smaller
    /// one.
    UpTo(u64),
    /// Nothing: no item can answer the cursor, so the page is empty without
    /// asking.
    Nothing,
}

impl PageRequest {
    /// Whether an item with identifier `id` may be in the page asked for.
    pub open spec fn admits(self, id: u64) -> bool {
        match self {
            PageRequest::Newest => true,
            PageRequest::UpTo(bound) => id <= bound,
            PageRequest::Nothing => false,
        }
    }
}

/// The request that stands for `cursor`: it admits exactly the items that are
/// strictly older than the cursor.
pub open spec fn request_for(cursor: Cursor) -> PageRequest {
    match cursor {
        None => PageRequest::Newest,
        Some(c) => if c == 0 {
            PageRequest::Nothing
        } else {
            PageRequest::UpTo((c - 1) as u64)
        },
    }
}

/// The request for a cursor admits an item exactly if the item is strictly
/// older than the cursor.
pub proof fn law_request_admits_the_older_items(cursor: Cursor, id: u64)
    ensures
        request_for(cursor).admits(id) <==> older_than(id, cursor),
{
}

/// Computes [`request_for`].
pub fn page_request(cursor: Cursor) -> (request: PageRequest)
    ensures
        request == request_for(cursor),
{
    match cursor {
        None => PageRequest::Newest,
        Some(c) => if c == 0 {
            PageRequest::Nothing
        } else {
            PageRequest::UpTo(c - 1)
        },
    }
}

/// Computes [`cursor_after`].
pub fn next_cursor(id: u64) -> (cursor: u64)
    ensures
        cursor == cursor_after(id),
{
    if id == 0 {
        0
    } else {
        id - 1
    }
}

} // verus!
