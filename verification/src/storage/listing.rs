//! What listing the items of a conversation gives, page by page.
//!
//! A database answers a statement with the rows that its condition holds for, in
//! the order of its own `ORDER BY` clause and up to its `LIMIT`. A [`Listing`]
//! runs the steps of a listing against such a database.

use vstd::prelude::*;

use super::condition::{is_decisive, Collation, Row};
use super::conversation::{is_listed_before, KeyView, ListStep, Paging, Statement};
use super::laws::{
    detaching_leaves_the_other_items, lookup_takes_the_owned_item, once_detached,
    page_takes_what_is_listed_later, table_once_detached,
};
use crate::types::conversations::{ItemOrder, ItemResponse, ListItemsResponse};

verus! {

/// At most the first `limit` rows.
pub open spec fn at_most(rows: Seq<Row>, limit: int) -> Seq<Row>
    recommends
        limit >= 0,
{
    if limit < rows.len() {
        rows.take(limit)
    } else {
        rows
    }
}

/// Whether no row comes before an earlier one in the order of a page.
pub open spec fn is_sorted(rows: Seq<Row>, paging: Paging, before: Collation) -> bool {
    forall|i: int, j: int|
        0 <= i < j < rows.len() ==> !paging.puts_before(
            (#[trigger] rows[j]).key(),
            (#[trigger] rows[i]).key(),
            before,
        )
}

/// Whether these are all rows of a table that a statement takes, each once, in
/// the order that the statement asks for.
pub open spec fn is_all_taken(
    rows: Seq<Row>,
    statement: Statement,
    table: Set<Row>,
    before: Collation,
) -> bool {
    &&& rows.no_duplicates()
    &&& forall|row: Row| #[trigger]
        rows.contains(row) <==> table.contains(row) && statement.takes(row, before)
    &&& statement.paging matches Some(paging) ==> is_sorted(rows, paging, before)
}

/// Whether a database may answer a statement with these rows.
pub open spec fn is_answer(
    answer: Seq<Row>,
    statement: Statement,
    table: Set<Row>,
    before: Collation,
) -> bool {
    exists|rows: Seq<Row>| #[trigger]
        is_all_taken(rows, statement, table, before) && answer == match statement.paging {
            Some(paging) => at_most(
                rows,
                statement.bound()[paging.limit.position()]->Integer_0 as int,
            ),
            None => rows,
        }
}

/// The ordering key of the first row, if there is one.
pub open spec fn first_key(rows: Seq<Row>) -> Option<KeyView> {
    if rows.len() > 0 {
        Some(rows[0].key())
    } else {
        None
    }
}

/// A listing of the items of one conversation, in one order, while the table
/// stays as it is.
pub struct Listing {
    pub table: Set<Row>,
    pub before: Collation,
    pub tenant: Seq<char>,
    pub conversation: Seq<char>,
    pub order: ItemOrder,
}

impl Listing {
    /// Identifiers name one row each, and the database tells them apart.
    pub open spec fn is_valid(self) -> bool {
        &&& is_decisive(self.before)
        &&& forall|a: Row, b: Row| #[trigger]
            self.table.contains(a) && #[trigger] self.table.contains(b) && a.id == b.id ==> a == b
    }

    /// Whether a row is an item of the conversation.
    pub open spec fn holds(self, row: Row) -> bool {
        self.table.contains(row) && row.is_owned_by(self.tenant, self.conversation)
    }

    /// Whether each row is listed before all later ones.
    pub open spec fn has_in_order(self, rows: Seq<Row>) -> bool {
        forall|i: int, j: int|
            0 <= i < j < rows.len() ==> is_listed_before(
                (#[trigger] rows[i]).key(),
                (#[trigger] rows[j]).key(),
                self.order,
                self.before,
            )
    }

    /// Whether these are all items of the conversation, in order.
    pub open spec fn is_whole(self, rows: Seq<Row>) -> bool {
        &&& self.has_in_order(rows)
        &&& forall|row: Row| #[trigger] rows.contains(row) <==> self.holds(row)
    }

    /// Whether the steps of a listing, with the statements answered by the
    /// database, lead to this page; `None` stands for the error that the cursor
    /// is not found. `found` answers the lookup of the cursor.
    pub open spec fn leads_to(
        self,
        first: ListStep,
        found: Seq<Row>,
        second: ListStep,
        limit: i64,
        after_id: Option<Seq<char>>,
        page: Option<Seq<Row>>,
    ) -> bool {
        &&& first.starts(self.tenant, self.conversation, limit, after_id, self.order)
        &&& match first {
            ListStep::FetchPage(statement) => self.is_read_by(page, statement),
            ListStep::FindCursor(statement) => {
                &&& is_answer(found, statement, self.table, self.before)
                &&& second.goes_on(
                    self.tenant,
                    self.conversation,
                    limit,
                    first_key(found),
                    self.order,
                )
                &&& match second {
                    ListStep::FetchPage(statement) => self.is_read_by(page, statement),
                    ListStep::FindCursor(_) => false,
                    ListStep::CursorNotFound => page is None,
                }
            },
            ListStep::CursorNotFound => page is None,
        }
    }

    pub open spec fn is_read_by(self, page: Option<Seq<Row>>, statement: Statement) -> bool {
        page matches Some(rows) && is_answer(rows, statement, self.table, self.before)
    }

    /// Whether a listing of at most `limit` items, after the item with an
    /// identifier if one is given, comes to this page, or to the error that the
    /// cursor is not found.
    pub open spec fn gives(
        self,
        limit: i64,
        after_id: Option<Seq<char>>,
        page: Option<Seq<Row>>,
    ) -> bool {
        exists|first: ListStep, found: Seq<Row>, second: ListStep| #[trigger]
            self.leads_to(first, found, second, limit, after_id, page)
    }

    /// Whether a page continues after the last item of a page that is not empty.
    pub open spec fn continues(self, limit: i64, page: Seq<Row>, next: Seq<Row>) -> bool {
        page.len() > 0 && self.gives(limit, Some(page.last().id), Some(next))
    }

    /// Whether the first of these pages has no cursor, each next one continues
    /// after the one before, and the last one is empty.
    pub open spec fn is_walk(self, limit: i64, pages: Seq<Seq<Row>>) -> bool {
        &&& pages.len() > 0
        &&& self.gives(limit, None, Some(pages[0]))
        &&& forall|i: int, j: int|
            0 <= i && j == i + 1 && j < pages.len() ==> self.continues(
                limit,
                #[trigger] pages[i],
                #[trigger] pages[j],
            )
        &&& pages.last().len() == 0
    }
}

/// Two sequences of the same rows, both in listing order, are the same.
proof fn order_fixes_the_sequence(listing: Listing, a: Seq<Row>, b: Seq<Row>)
    requires
        is_decisive(listing.before),
        listing.has_in_order(a),
        listing.has_in_order(b),
        forall|row: Row| #[trigger] a.contains(row) <==> b.contains(row),
    ensures
        a == b,
    decreases a.len(),
{
    if a.len() == 0 {
        if b.len() > 0 {
            assert(b.contains(b[0]));
            assert(a.contains(b[0]));
        }
        assert(a =~= b);
    } else {
        assert(a.contains(a[0]));
        let j = b.index_of(a[0]);
        assert(0 <= j < b.len() && b[j] == a[0]);
        assert(b.contains(b[0]));
        assert(a.contains(b[0]));
        let i = a.index_of(b[0]);
        assert(0 <= i < a.len() && a[i] == b[0]);
        if i > 0 && j > 0 {
            assert(is_listed_before(a[0].key(), a[i].key(), listing.order, listing.before));
            assert(is_listed_before(b[0].key(), b[j].key(), listing.order, listing.before));
            assert(false);
        }
        assert(a[0] == b[0]);
        let a_rest = a.drop_first();
        let b_rest = b.drop_first();
        assert forall|row: Row| #[trigger] a_rest.contains(row) <==> b_rest.contains(row) by {
            if a_rest.contains(row) {
                rest_has_what_is_not_first(listing, a, b, row);
            }
            if b_rest.contains(row) {
                rest_has_what_is_not_first(listing, b, a, row);
            }
        }
        assert forall|i: int, j: int| 0 <= i < j < a_rest.len() implies is_listed_before(
            (#[trigger] a_rest[i]).key(),
            (#[trigger] a_rest[j]).key(),
            listing.order,
            listing.before,
        ) by {
            assert(a_rest[i] == a[i + 1] && a_rest[j] == a[j + 1]);
        }
        assert forall|i: int, j: int| 0 <= i < j < b_rest.len() implies is_listed_before(
            (#[trigger] b_rest[i]).key(),
            (#[trigger] b_rest[j]).key(),
            listing.order,
            listing.before,
        ) by {
            assert(b_rest[i] == b[i + 1] && b_rest[j] == b[j + 1]);
        }
        order_fixes_the_sequence(listing, a_rest, b_rest);
        assert(a =~= seq![a[0]] + a_rest);
        assert(b =~= seq![b[0]] + b_rest);
    }
}

proof fn rest_has_what_is_not_first(listing: Listing, a: Seq<Row>, b: Seq<Row>, row: Row)
    requires
        is_decisive(listing.before),
        listing.has_in_order(a),
        a.len() > 0,
        b.len() > 0,
        a[0] == b[0],
        a.drop_first().contains(row),
        forall|row: Row| #[trigger] a.contains(row) ==> b.contains(row),
    ensures
        b.drop_first().contains(row),
{
    let i = a.drop_first().index_of(row);
    assert(a[i + 1] == row);
    assert(a.contains(row));
    assert(is_listed_before(a[0].key(), a[i + 1].key(), listing.order, listing.before));
    assert(row != b[0]);
    assert(b.contains(row));
    let j = b.index_of(row);
    assert(b.drop_first()[j - 1] == row);
}

/// The answer to a page statement holds what comes next in the listing.
proof fn page_is_answered_with_the_next_items(
    listing: Listing,
    whole: Seq<Row>,
    from: int,
    statement: Statement,
    limit: i64,
    after: Option<KeyView>,
    page: Seq<Row>,
)
    requires
        listing.is_valid(),
        listing.is_whole(whole),
        0 <= from <= whole.len(),
        after == (if from == 0 {
            None
        } else {
            Some(whole[from - 1].key())
        }),
        statement.reads_page(
            listing.tenant,
            listing.conversation,
            limit,
            after,
            listing.order,
        ),
        is_answer(page, statement, listing.table, listing.before),
    ensures
        page == at_most(whole.skip(from), limit as int),
{
    let rows = choose|rows: Seq<Row>| #[trigger]
        is_all_taken(rows, statement, listing.table, listing.before) && page
            == match statement.paging {
            Some(paging) => at_most(
                rows,
                statement.bound()[paging.limit.position()]->Integer_0 as int,
            ),
            None => rows,
        };
    let rest = whole.skip(from);
    taken_rows_are_in_order(listing, statement, limit, after, rows);
    assert forall|i: int, j: int| 0 <= i < j < rest.len() implies is_listed_before(
        (#[trigger] rest[i]).key(),
        (#[trigger] rest[j]).key(),
        listing.order,
        listing.before,
    ) by {
        assert(rest[i] == whole[from + i] && rest[j] == whole[from + j]);
    }
    assert forall|row: Row| #[trigger] rows.contains(row) <==> rest.contains(row) by {
        page_takes_what_is_listed_later(
            statement,
            listing.tenant,
            listing.conversation,
            limit,
            after,
            listing.order,
            row,
            listing.before,
        );
        if rest.contains(row) {
            let i = rest.index_of(row);
            assert(whole[from + i] == row);
            assert(whole.contains(row));
            if from > 0 {
                assert(is_listed_before(
                    whole[from - 1].key(),
                    whole[from + i].key(),
                    listing.order,
                    listing.before,
                ));
            }
        }
        if rows.contains(row) {
            assert(whole.contains(row));
            let i = whole.index_of(row);
            assert(whole[i] == row);
            if i < from - 1 {
                assert(is_listed_before(
                    whole[i].key(),
                    whole[from - 1].key(),
                    listing.order,
                    listing.before,
                ));
            }
            assert(i >= from);
            assert(rest[i - from] == row);
        }
    }
    order_fixes_the_sequence(listing, rows, rest);
}

/// The rows that a page statement takes are strictly in order.
proof fn taken_rows_are_in_order(
    listing: Listing,
    statement: Statement,
    limit: i64,
    after: Option<KeyView>,
    rows: Seq<Row>,
)
    requires
        listing.is_valid(),
        statement.reads_page(
            listing.tenant,
            listing.conversation,
            limit,
            after,
            listing.order,
        ),
        is_all_taken(rows, statement, listing.table, listing.before),
    ensures
        listing.has_in_order(rows),
{
    let paging = statement.paging->Some_0;
    assert forall|i: int, j: int| 0 <= i < j < rows.len() implies is_listed_before(
        (#[trigger] rows[i]).key(),
        (#[trigger] rows[j]).key(),
        listing.order,
        listing.before,
    ) by {
        assert(rows.contains(rows[i]) && rows.contains(rows[j]));
        assert(rows[i].id != rows[j].id);
        assert(!paging.puts_before(rows[j].key(), rows[i].key(), listing.before));
    }
}

/// The first page begins the listing of all items.
proof fn first_page_begins(listing: Listing, limit: i64, page: Option<Seq<Row>>) -> (whole: Seq<
    Row,
>)
    requires
        listing.is_valid(),
        listing.gives(limit, None, page),
    ensures
        listing.is_whole(whole),
        page == Some(at_most(whole, limit as int)),
{
    let (first, found, second) = choose|first: ListStep, found: Seq<Row>, second: ListStep|
        #[trigger] listing.leads_to(first, found, second, limit, None, page);
    let statement = first->FetchPage_0;
    let rows = choose|rows: Seq<Row>| #[trigger]
        is_all_taken(rows, statement, listing.table, listing.before) && page->Some_0
            == match statement.paging {
            Some(paging) => at_most(
                rows,
                statement.bound()[paging.limit.position()]->Integer_0 as int,
            ),
            None => rows,
        };
    taken_rows_are_in_order(listing, statement, limit, None, rows);
    assert forall|row: Row| #[trigger] rows.contains(row) <==> listing.holds(row) by {
        page_takes_what_is_listed_later(
            statement,
            listing.tenant,
            listing.conversation,
            limit,
            None,
            listing.order,
            row,
            listing.before,
        );
    }
    rows
}

/// Without a cursor a listing gives its first items.
pub proof fn first_page_starts_the_listing(
    listing: Listing,
    whole: Seq<Row>,
    limit: i64,
    page: Option<Seq<Row>>,
)
    requires
        listing.is_valid(),
        listing.is_whole(whole),
        limit >= 0,
        listing.gives(limit, None, page),
    ensures
        page == Some(at_most(whole, limit as int)),
{
    let rows = first_page_begins(listing, limit, page);
    order_fixes_the_sequence(listing, rows, whole);
}

/// Looking up an item, or the ordering key of a cursor, finds the item of the
/// conversation with that identifier, and nothing where there is none.
pub proof fn lookup_finds_the_named_item(
    listing: Listing,
    statement: Statement,
    item: Seq<char>,
    found: Seq<Row>,
)
    requires
        listing.is_valid(),
        statement.reads_key(listing.tenant, listing.conversation, item) || statement.reads_item(
            listing.tenant,
            listing.conversation,
            item,
        ),
        is_answer(found, statement, listing.table, listing.before),
    ensures
        forall|row: Row|
            #[trigger] listing.holds(row) && row.id == item ==> found == seq![row],
        (forall|row: Row| #[trigger] listing.holds(row) ==> row.id != item) ==> found.len() == 0,
{
    assert forall|row: Row| #[trigger] found.contains(row) <==> listing.holds(row) && row.id
        == item by {
        lookup_takes_the_owned_item(
            statement,
            listing.tenant,
            listing.conversation,
            item,
            row,
            listing.before,
        );
    }
    assert forall|row: Row| #[trigger] listing.holds(row) && row.id == item implies found
        == seq![row] by {
        assert(found.contains(row));
        assert forall|i: int| 0 <= i < found.len() implies found[i] == row by {
            assert(found.contains(found[i]));
        }
        if found.len() > 1 {
            assert(found[0] != found[1]);
        }
        assert(found =~= seq![row]);
    }
    if found.len() > 0 {
        assert(found.contains(found[0]));
    }
}

/// After an item a listing gives the items that come next: none is skipped and
/// none is repeated.
pub proof fn next_page_continues_the_listing(
    listing: Listing,
    whole: Seq<Row>,
    position: int,
    limit: i64,
    page: Option<Seq<Row>>,
)
    requires
        listing.is_valid(),
        listing.is_whole(whole),
        0 <= position < whole.len(),
        limit >= 0,
        listing.gives(limit, Some(whole[position].id), page),
    ensures
        page == Some(at_most(whole.skip(position + 1), limit as int)),
{
    let cursor = whole[position].id;
    let (first, found, second) = choose|first: ListStep, found: Seq<Row>, second: ListStep|
        #[trigger] listing.leads_to(first, found, second, limit, Some(cursor), page);
    assert(whole.contains(whole[position]));
    assert(listing.holds(whole[position]));
    lookup_finds_the_named_item(listing, first->FindCursor_0, cursor, found);
    assert(found[0] == whole[position]);
    page_is_answered_with_the_next_items(
        listing,
        whole,
        position + 1,
        second->FetchPage_0,
        limit,
        Some(whole[position].key()),
        page->Some_0,
    );
}

/// A listing ends in the error that its cursor is not found exactly where the
/// cursor names no item of the conversation.
pub proof fn only_unknown_cursors_are_not_found(
    listing: Listing,
    limit: i64,
    cursor: Seq<char>,
    page: Option<Seq<Row>>,
)
    requires
        listing.is_valid(),
        listing.gives(limit, Some(cursor), page),
    ensures
        page is None <==> forall|row: Row| #[trigger] listing.holds(row) ==> row.id != cursor,
{
    let (first, found, second) = choose|first: ListStep, found: Seq<Row>, second: ListStep|
        #[trigger] listing.leads_to(first, found, second, limit, Some(cursor), page);
    lookup_finds_the_named_item(listing, first->FindCursor_0, cursor, found);
}

/// The first `count` pages of a walk hold the first items of the listing.
proof fn pages_cover_the_beginning(
    listing: Listing,
    whole: Seq<Row>,
    limit: i64,
    pages: Seq<Seq<Row>>,
    count: int,
)
    requires
        listing.is_valid(),
        listing.is_whole(whole),
        limit >= 1,
        listing.is_walk(limit, pages),
        1 <= count <= pages.len(),
    ensures
        pages.take(count).flatten_alt().len() <= whole.len(),
        pages.take(count).flatten_alt() == whole.take(pages.take(count).flatten_alt().len() as int),
        pages.take(count).flatten_alt() == pages.take(count - 1).flatten_alt() + pages[count - 1],
        pages[count - 1].len() > 0 ==> pages[count - 1].last() == whole[pages.take(
            count,
        ).flatten_alt().len() - 1],
        pages[count - 1].len() == limit || pages.take(count).flatten_alt() == whole,
    decreases count,
{
    let covered = pages.take(count - 1).flatten_alt();
    let page = pages[count - 1];
    assert(pages.take(count).drop_last() =~= pages.take(count - 1));
    assert(pages.take(count).last() == page);
    assert(pages.take(count).flatten_alt() == covered + page);
    if count == 1 {
        assert(covered =~= Seq::<Row>::empty());
        first_page_starts_the_listing(listing, whole, limit, Some(page));
        assert(whole.skip(0) =~= whole);
    } else {
        pages_cover_the_beginning(listing, whole, limit, pages, count - 1);
        assert(listing.continues(limit, pages[count - 2], pages[count - 1]));
        next_page_continues_the_listing(
            listing,
            whole,
            covered.len() - 1,
            limit,
            Some(page),
        );
    }
    assert(page == at_most(whole.skip(covered.len() as int), limit as int));
    assert(covered + page =~= whole.take((covered + page).len() as int));
    if page.len() != limit {
        assert((covered + page).len() == whole.len());
        assert(covered + page =~= whole);
    }
}

/// Paging through a conversation, each page after the last item of the one
/// before until a page is empty, meets each item exactly once and in order: the
/// pages together are the one page that a limit large enough for all items
/// gives. All pages but the last one with items are full.
pub proof fn paging_meets_every_item_once(
    listing: Listing,
    limit: i64,
    pages: Seq<Seq<Row>>,
    large: i64,
    single: Seq<Row>,
)
    requires
        listing.is_valid(),
        limit >= 1,
        listing.is_walk(limit, pages),
        listing.gives(large, None, Some(single)),
        forall|rows: Seq<Row>| #[trigger] listing.is_whole(rows) ==> rows.len() <= large,
    ensures
        pages.flatten() == single,
        listing.is_whole(single),
        single.no_duplicates(),
        forall|k: int| 0 <= k < pages.len() - 2 ==> (#[trigger] pages[k]).len() == limit,
{
    let whole = first_page_begins(listing, large, Some(single));
    assert(single == whole);
    let count = pages.len() as int;
    pages_cover_the_beginning(listing, whole, limit, pages, count);
    assert(pages.take(count) =~= pages);
    pages.lemma_flatten_and_flatten_alt_are_equivalent();
    assert forall|i: int, j: int| 0 <= i < j < single.len() implies single[i] != single[j] by {
        assert(is_listed_before(single[i].key(), single[j].key(), listing.order, listing.before));
    }
    assert forall|k: int| 0 <= k < pages.len() - 2 implies (#[trigger] pages[k]).len() == limit by {
        pages_cover_the_beginning(listing, whole, limit, pages, k + 1);
        pages_cover_the_beginning(listing, whole, limit, pages, k + 2);
        assert(listing.continues(limit, pages[k + 1], pages[k + 2]));
    }
}

/// A list of consecutive items goes on where it ends: the page after its last
/// identifier starts with the next item, and has none of the list again.
pub proof fn a_list_goes_on_after_its_last_item(
    listing: Listing,
    whole: Seq<Row>,
    from: int,
    response: ListItemsResponse,
    data: Seq<ItemResponse>,
    has_more: bool,
    limit: i64,
    next: Option<Seq<Row>>,
)
    requires
        listing.is_valid(),
        listing.is_whole(whole),
        data.len() > 0,
        0 <= from && from + data.len() <= whole.len(),
        forall|i: int| 0 <= i < data.len() ==> (#[trigger] data[i]).id@ == whole[from + i].id,
        response.frames(data, has_more),
        limit >= 0,
        listing.gives(limit, Some(response.last_id->0@), next),
    ensures
        next == Some(at_most(whole.skip(from + data.len()), limit as int)),
        forall|i: int, j: int|
            0 <= i < data.len() && 0 <= j < next->0.len() ==> (#[trigger] next->0[j]).id != (
            #[trigger] data[i]).id@,
{
    let last = from + data.len() - 1;
    assert(data[data.len() - 1].id@ == whole[last].id);
    next_page_continues_the_listing(listing, whole, last, limit, next);
    assert forall|i: int, j: int| 0 <= i < data.len() && 0 <= j < next->0.len() implies (
    #[trigger] next->0[j]).id != (#[trigger] data[i]).id@ by {
        let later = whole[last + 1 + j];
        let earlier = whole[from + i];
        assert(next->0[j] == later);
        assert(is_listed_before(earlier.key(), later.key(), listing.order, listing.before));
        assert(whole.contains(earlier) && whole.contains(later));
    }
}

/// A listing once a detaching statement has run.
pub open spec fn listing_once_detached(statement: Statement, listing: Listing) -> Listing {
    Listing { table: table_once_detached(statement, listing.table, listing.before), ..listing }
}

/// Once an item is detached, the listing has all others and no longer that one;
/// where no item is named, it is empty. It can be paged through as before.
pub proof fn detaching_shortens_the_listing(
    statement: Statement,
    listing: Listing,
    item: Option<Seq<char>>,
    whole: Seq<Row>,
    rest: Seq<Row>,
)
    requires
        statement.detaches(listing.conversation, item),
        listing.is_valid(),
        listing.is_whole(whole),
        listing_once_detached(statement, listing).is_whole(rest),
    ensures
        listing_once_detached(statement, listing).is_valid(),
        forall|row: Row| #[trigger]
            rest.contains(row) <==> whole.contains(row) && item is Some && item != Some(row.id),
{
    let after = listing_once_detached(statement, listing);
    let detach = |row: Row| once_detached(statement, row, listing.before);
    assert forall|a: Row, b: Row| #[trigger]
        after.table.contains(a) && #[trigger] after.table.contains(b) && a.id == b.id implies a
        == b by {
        let x = choose|x: Row| listing.table.contains(x) && a == detach(x);
        let y = choose|y: Row| listing.table.contains(y) && b == detach(y);
        assert(x.id == y.id);
    }
    assert forall|row: Row| #[trigger] rest.contains(row) <==> whole.contains(row) && item is Some
        && item != Some(row.id) by {
        detaching_leaves_the_other_items(
            statement,
            listing.table,
            listing.tenant,
            listing.conversation,
            item,
            row,
            listing.before,
        );
    }
}

} // verus!
