//! What the statements on items promise together.

use vstd::prelude::*;

use super::condition::{
    compared, either, Collation, Column, Comparison, Condition, Datum, Row,
};
use super::conversation::{
    beyond_numbered, beyond_numbered_or_unnumbered, beyond_unnumbered, is_on_later_page, owned,
    KeyView, Statement,
};
use crate::types::conversations::ItemOrder;

verus! {

proof fn owned_names_the_owner(row: Row, bound: Seq<Datum>, before: Collation)
    requires
        bound[0] is Text,
        bound[1] is Text,
    ensures
        owned().truth(row, bound, before) == Some(true) <==> row.is_owned_by(
            bound[1]->Text_0,
            bound[0]->Text_0,
        ),
{
    reveal_with_fuel(Condition::truth, 2);
}

proof fn beyond_numbered_compares_keys(
    beyond: Comparison,
    row: Row,
    bound: Seq<Datum>,
    before: Collation,
)
    requires
        bound[2] is Integer,
        bound[3] is Text,
    ensures
        beyond_numbered(beyond).truth(row, bound, before) == Some(true) <==> {
            &&& row.seq matches Some(seq)
            &&& ({
                ||| compared(Datum::Integer(seq), beyond, bound[2], before) == Some(true)
                ||| seq == bound[2]->Integer_0 && compared(
                    Datum::Text(row.id),
                    beyond,
                    bound[3],
                    before,
                ) == Some(true)
            })
        },
{
    reveal_with_fuel(Condition::truth, 5);
}

proof fn beyond_unnumbered_compares_ids(
    beyond: Comparison,
    row: Row,
    bound: Seq<Datum>,
    before: Collation,
)
    requires
        bound[2] is Text,
    ensures
        beyond_unnumbered(beyond).truth(row, bound, before) == Some(true) <==> {
            &&& row.seq is None
            &&& compared(Datum::Text(row.id), beyond, bound[2], before) == Some(true)
        },
{
    reveal_with_fuel(Condition::truth, 2);
}

/// The page conditions match the ordering keys: a page takes exactly the items
/// of the named conversation, of the named tenant, that the listing has after the
/// key, if there is one.
pub proof fn page_takes_what_is_listed_later(
    statement: Statement,
    tenant: Seq<char>,
    conversation: Seq<char>,
    limit: i64,
    after: Option<KeyView>,
    order: ItemOrder,
    row: Row,
    before: Collation,
)
    requires
        statement.reads_page(tenant, conversation, limit, after, order),
    ensures
        statement.takes(row, before) <==> is_on_later_page(
            row,
            tenant,
            conversation,
            after,
            order,
            before,
        ),
{
    let bound = statement.bound();
    owned_names_the_owner(row, bound, before);
    match (after, order) {
        (Some(KeyView { seq: Some(_), .. }), ItemOrder::Desc) => {
            beyond_numbered_compares_keys(Comparison::Less, row, bound, before);
            let numbered = beyond_numbered(Comparison::Less);
            let unnumbered = Condition::IsNull(Column::ItemsSeq);
            assert(unnumbered.truth(row, bound, before) == Some(row.seq is None));
            let later = beyond_numbered_or_unnumbered(Comparison::Less);
            assert(later.truth(row, bound, before) == either(
                numbered.truth(row, bound, before),
                unnumbered.truth(row, bound, before),
            ));
            let group = Condition::Group(Box::new(later));
            assert(group.truth(row, bound, before) == later.truth(row, bound, before));
            assert(statement.condition == Condition::And(Box::new(owned()), Box::new(group)));
        },
        (Some(KeyView { seq: Some(_), .. }), ItemOrder::Asc) => {
            beyond_numbered_compares_keys(Comparison::Greater, row, bound, before);
            let later = beyond_numbered(Comparison::Greater);
            let group = Condition::Group(Box::new(later));
            assert(group.truth(row, bound, before) == later.truth(row, bound, before));
            assert(statement.condition == Condition::And(Box::new(owned()), Box::new(group)));
        },
        (Some(KeyView { seq: None, .. }), ItemOrder::Desc) => {
            beyond_unnumbered_compares_ids(Comparison::Less, row, bound, before);
        },
        (Some(KeyView { seq: None, .. }), ItemOrder::Asc) => {
            beyond_unnumbered_compares_ids(Comparison::Greater, row, bound, before);
            let unnumbered = Condition::Group(Box::new(beyond_unnumbered(Comparison::Greater)));
            let numbered = Condition::IsNotNull(Column::ItemsSeq);
            assert(numbered.truth(row, bound, before) == Some(row.seq is Some));
            let later = Condition::Or(Box::new(numbered), Box::new(unnumbered));
            assert(later.truth(row, bound, before) == either(
                numbered.truth(row, bound, before),
                unnumbered.truth(row, bound, before),
            ));
            let group = Condition::Group(Box::new(later));
            assert(group.truth(row, bound, before) == later.truth(row, bound, before));
            assert(statement.condition == Condition::And(Box::new(owned()), Box::new(group)));
        },
        (None, _) => {},
    }
}

/// Looking up an item, or its ordering key, takes exactly the item with that
/// identifier in the named conversation of the named tenant.
pub proof fn lookup_takes_the_owned_item(
    statement: Statement,
    tenant: Seq<char>,
    conversation: Seq<char>,
    item: Seq<char>,
    row: Row,
    before: Collation,
)
    requires
        statement.reads_item(tenant, conversation, item) || statement.reads_key(
            tenant,
            conversation,
            item,
        ),
    ensures
        statement.takes(row, before) <==> row.is_owned_by(tenant, conversation) && row.id == item,
{
    reveal_with_fuel(Condition::truth, 4);
}

/// Detaching takes one item of the conversation where an identifier is given,
/// and all of them where none is; items of other conversations stay.
pub proof fn detach_takes_one_or_all(
    statement: Statement,
    conversation: Seq<char>,
    item: Option<Seq<char>>,
    row: Row,
    before: Collation,
)
    requires
        statement.detaches(conversation, item),
    ensures
        statement.takes(row, before) <==> row.conversation == Some(conversation) && (
        item matches Some(id) ==> row.id == id),
{
    reveal_with_fuel(Condition::truth, 5);
}

/// A row once a detaching statement has run.
pub open spec fn once_detached(statement: Statement, row: Row, before: Collation) -> Row {
    if statement.takes(row, before) {
        Row { conversation: None, seq: None, ..row }
    } else {
        row
    }
}

/// Once detached, an item belongs to the conversation no more, and all other
/// items stay as they were. The item itself remains, under its identifier.
pub proof fn detaching_removes_only_from_the_conversation(
    statement: Statement,
    conversation: Seq<char>,
    item: Option<Seq<char>>,
    tenant: Seq<char>,
    row: Row,
    before: Collation,
)
    requires
        statement.detaches(conversation, item),
    ensures
        once_detached(statement, row, before).is_owned_by(tenant, conversation) <==> {
            &&& row.is_owned_by(tenant, conversation)
            &&& item matches Some(id)
            &&& row.id != id
        },
        once_detached(statement, row, before).id == row.id,
        row.conversation != Some(conversation) ==> once_detached(statement, row, before) == row,
        item matches Some(id) && row.id != id ==> once_detached(statement, row, before) == row,
{
    detach_takes_one_or_all(statement, conversation, item, row, before);
}

/// A table once a detaching statement has run.
pub open spec fn table_once_detached(
    statement: Statement,
    table: Set<Row>,
    before: Collation,
) -> Set<Row> {
    table.map(|row: Row| once_detached(statement, row, before))
}

/// Once an item is detached, the others remain in the conversation as they
/// were; where no item is named, none remains.
pub proof fn detaching_leaves_the_other_items(
    statement: Statement,
    table: Set<Row>,
    tenant: Seq<char>,
    conversation: Seq<char>,
    item: Option<Seq<char>>,
    row: Row,
    before: Collation,
)
    requires
        statement.detaches(conversation, item),
    ensures
        table_once_detached(statement, table, before).contains(row) && row.is_owned_by(
            tenant,
            conversation,
        ) <==> {
            &&& table.contains(row) && row.is_owned_by(tenant, conversation)
            &&& item matches Some(id)
            &&& row.id != id
        },
{
    let detach = |r: Row| once_detached(statement, r, before);
    assert forall|r: Row| #[trigger] detach(r).is_owned_by(tenant, conversation) implies detach(r)
        == r by {
        detaching_removes_only_from_the_conversation(
            statement,
            conversation,
            item,
            tenant,
            r,
            before,
        );
    }
    detaching_removes_only_from_the_conversation(
        statement,
        conversation,
        item,
        tenant,
        row,
        before,
    );
    if table.contains(row) {
        assert(table_once_detached(statement, table, before).contains(detach(row)));
    }
}

} // verus!
