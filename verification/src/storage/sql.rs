//! The text that the statements on items reach the database as.
//!
//! The conditions and orders of a statement are values; what a database carries
//! out is text. The laws here give that text in full, whatever values are bound.

use vstd::prelude::*;

use super::condition::{Comparison, Condition, Datum, Slot};
use super::conversation::{
    beyond_numbered, beyond_numbered_or_unnumbered, beyond_unnumbered, owned, Bind, KeyView, Paging,
    Statement,
};
use crate::types::conversations::ItemOrder;

verus! {

/// The values behind the placeholders are the bound ones, as they are: a text is
/// bound as that text, an absent one as `NULL`, and a number as that number.
pub proof fn values_are_bound_as_they_are(statement: Statement, i: int)
    requires
        0 <= i < statement.binds@.len(),
    ensures
        statement.bound().len() == statement.binds@.len(),
        statement.binds@[i] matches Bind::Text(text) ==> statement.bound()[i] == Datum::Text(text@),
        statement.binds@[i] matches Bind::OptionalText(Some(text)) ==> statement.bound()[i]
            == Datum::Text(text@),
        statement.binds@[i] matches Bind::OptionalText(None) ==> statement.bound()[i]
            == Datum::Null,
        statement.binds@[i] matches Bind::Integer(value) ==> statement.bound()[i]
            == Datum::Integer(value),
{
}

/// The bound values never show in the text: statements that do the same, on the
/// same condition and in the same order, have the same text.
pub proof fn text_does_not_depend_on_values(a: Statement, b: Statement)
    requires
        a.task == b.task,
        a.condition == b.condition,
        a.paging == b.paging,
    ensures
        a.text() == b.text(),
{
}

/// A page is the statement without paging, followed by the order that is asked
/// for, newest first or oldest first, and by the placeholder of its limit.
pub proof fn pages_end_in_their_order_and_limit(all: Statement, page: Statement, paging: Paging)
    requires
        all.task == page.task,
        all.condition == page.condition,
        all.paging is None,
        page.paging == Some(paging),
    ensures
        page.text() == all.text() + (match paging.order {
            ItemOrder::Desc => " ORDER BY items.seq DESC NULLS LAST, items.id DESC LIMIT "@,
            ItemOrder::Asc => " ORDER BY items.seq ASC NULLS FIRST, items.id ASC LIMIT "@,
        }) + (match paging.limit {
            Slot::First => "$1"@,
            Slot::Second => "$2"@,
            Slot::Third => "$3"@,
            Slot::Fourth => "$4"@,
            Slot::Fifth => "$5"@,
        }),
{
    assert(page.text() =~= all.text() + paging.text());
    assert(page.text() =~= all.text() + (match paging.order {
        ItemOrder::Desc => " ORDER BY items.seq DESC NULLS LAST, items.id DESC LIMIT "@,
        ItemOrder::Asc => " ORDER BY items.seq ASC NULLS FIRST, items.id ASC LIMIT "@,
    }) + paging.limit.text());
}

proof fn owned_text()
    ensures
        owned().text() == ("conversations.id"@ + " = "@ + "$1"@) + " AND "@
            + ("conversations.tenant_id"@ + " = "@ + "$2"@),
{
    reveal_with_fuel(Condition::text, 3);
}

proof fn beyond_texts()
    ensures
        beyond_numbered_or_unnumbered(Comparison::Less).text() == (("("@ + ("items.seq"@
            + " < "@ + "$3"@) + ")"@) + " OR "@ + ("("@ + (("items.seq"@ + " = "@ + "$3"@)
            + " AND "@ + ("items.id"@ + " < "@ + "$4"@)) + ")"@)) + " OR "@ + ("items.seq"@
            + " IS NULL"@),
        beyond_numbered(Comparison::Greater).text() == ("("@ + ("items.seq"@ + " > "@ + "$3"@)
            + ")"@) + " OR "@ + ("("@ + (("items.seq"@ + " = "@ + "$3"@) + " AND "@
            + ("items.id"@ + " > "@ + "$4"@)) + ")"@),
        beyond_unnumbered(Comparison::Less).text() == ("items.seq"@ + " IS NULL"@) + " AND "@
            + ("items.id"@ + " < "@ + "$3"@),
        beyond_unnumbered(Comparison::Greater).text() == ("items.seq"@ + " IS NULL"@) + " AND "@
            + ("items.id"@ + " > "@ + "$3"@),
{
    reveal_with_fuel(Condition::text, 6);
}

/// The text of a page, whatever the tenant, the conversation, the cursor and the
/// limit: the items of one conversation of one tenant, those beyond the cursor
/// where there is one, in the order asked for and up to the limit.
pub proof fn page_text_is_fixed_by_cursor_and_order(
    statement: Statement,
    tenant: Seq<char>,
    conversation: Seq<char>,
    limit: i64,
    after: Option<KeyView>,
    order: ItemOrder,
)
    requires
        statement.reads_page(tenant, conversation, limit, after, order),
    ensures
        ({
            let owner = ("conversations.id"@ + " = "@ + "$1"@) + " AND "@
                + ("conversations.tenant_id"@ + " = "@ + "$2"@);
            statement.text() == match (after, order) {
                (None, ItemOrder::Desc) => "SELECT items.* FROM items JOIN conversations ON conversations.id = items.conversation_id WHERE "@
                    + owner + (" ORDER BY items.seq DESC NULLS LAST, items.id DESC LIMIT "@
                    + "$3"@),
                (None, ItemOrder::Asc) => "SELECT items.* FROM items JOIN conversations ON conversations.id = items.conversation_id WHERE "@
                    + owner + (" ORDER BY items.seq ASC NULLS FIRST, items.id ASC LIMIT "@
                    + "$3"@),
                (Some(KeyView { seq: Some(_), .. }), ItemOrder::Desc) => "SELECT items.* FROM items JOIN conversations ON conversations.id = items.conversation_id WHERE "@
                    + (owner + " AND "@ + ("("@ + ((("("@ + ("items.seq"@ + " < "@ + "$3"@)
                    + ")"@) + " OR "@ + ("("@ + (("items.seq"@ + " = "@ + "$3"@) + " AND "@
                    + ("items.id"@ + " < "@ + "$4"@)) + ")"@)) + " OR "@ + ("items.seq"@
                    + " IS NULL"@)) + ")"@))
                    + (" ORDER BY items.seq DESC NULLS LAST, items.id DESC LIMIT "@ + "$5"@),
                (Some(KeyView { seq: Some(_), .. }), ItemOrder::Asc) => "SELECT items.* FROM items JOIN conversations ON conversations.id = items.conversation_id WHERE "@
                    + (owner + " AND "@ + ("("@ + (("("@ + ("items.seq"@ + " > "@ + "$3"@)
                    + ")"@) + " OR "@ + ("("@ + (("items.seq"@ + " = "@ + "$3"@) + " AND "@
                    + ("items.id"@ + " > "@ + "$4"@)) + ")"@)) + ")"@))
                    + (" ORDER BY items.seq ASC NULLS FIRST, items.id ASC LIMIT "@ + "$5"@),
                (Some(KeyView { seq: None, .. }), ItemOrder::Desc) => "SELECT items.* FROM items JOIN conversations ON conversations.id = items.conversation_id WHERE "@
                    + (owner + " AND "@ + (("items.seq"@ + " IS NULL"@) + " AND "@
                    + ("items.id"@ + " < "@ + "$3"@)))
                    + (" ORDER BY items.seq DESC NULLS LAST, items.id DESC LIMIT "@ + "$4"@),
                (Some(KeyView { seq: None, .. }), ItemOrder::Asc) => "SELECT items.* FROM items JOIN conversations ON conversations.id = items.conversation_id WHERE "@
                    + (owner + " AND "@ + ("("@ + (("items.seq"@ + " IS NOT NULL"@) + " OR "@
                    + ("("@ + (("items.seq"@ + " IS NULL"@) + " AND "@ + ("items.id"@ + " > "@
                    + "$3"@)) + ")"@)) + ")"@))
                    + (" ORDER BY items.seq ASC NULLS FIRST, items.id ASC LIMIT "@ + "$4"@),
            }
        }),
{
    owned_text();
    beyond_texts();
    reveal_with_fuel(Condition::text, 5);
}

/// A page binds the conversation, the tenant, the ordering key of the cursor
/// where there is one, and the limit, each as it is given.
pub proof fn page_binds_what_is_asked_for(
    statement: Statement,
    tenant: Seq<char>,
    conversation: Seq<char>,
    limit: i64,
    after: Option<KeyView>,
    order: ItemOrder,
)
    requires
        statement.reads_page(tenant, conversation, limit, after, order),
    ensures
        statement.bound()[0] == Datum::Text(conversation),
        statement.bound()[1] == Datum::Text(tenant),
        statement.bound().last() == Datum::Integer(limit),
        after is None ==> statement.bound().len() == 3,
        after matches Some(KeyView { seq: Some(seq), id }) ==> statement.bound().len() == 5
            && statement.bound()[2] == Datum::Integer(seq) && statement.bound()[3] == Datum::Text(id),
        after matches Some(KeyView { seq: None, id }) ==> statement.bound().len() == 4
            && statement.bound()[2] == Datum::Text(id),
{
}

/// The text of a lookup, whatever is looked up: the item, or the ordering key of
/// the item, with one identifier in one conversation of one tenant.
pub proof fn lookup_text_is_fixed(
    statement: Statement,
    tenant: Seq<char>,
    conversation: Seq<char>,
    item: Seq<char>,
)
    ensures
        statement.reads_key(tenant, conversation, item) ==> statement.text()
            == "SELECT items.seq, items.id FROM items JOIN conversations ON conversations.id = items.conversation_id WHERE "@
            + ((("conversations.id"@ + " = "@ + "$1"@) + " AND "@ + ("conversations.tenant_id"@
                + " = "@ + "$2"@)) + " AND "@ + ("items.id"@ + " = "@ + "$3"@)),
        statement.reads_item(tenant, conversation, item) ==> statement.text() == "SELECT items.* FROM items JOIN conversations ON conversations.id = items.conversation_id WHERE "@
            + ((("conversations.id"@ + " = "@ + "$1"@) + " AND "@ + ("conversations.tenant_id"@
            + " = "@ + "$2"@)) + " AND "@ + ("items.id"@ + " = "@ + "$3"@)),
        statement.reads_key(tenant, conversation, item) || statement.reads_item(
            tenant,
            conversation,
            item,
        ) ==> statement.bound() == seq![
            Datum::Text(conversation),
            Datum::Text(tenant),
            Datum::Text(item),
        ],
{
    owned_text();
    reveal_with_fuel(Condition::text, 3);
    if statement.paging is None {
        assert(statement.text() =~= statement.task.text() + statement.condition.text());
    }
}

/// The text of detaching, whether one item is named or none: the reference to
/// the conversation and the sequence number go, and nothing else of the item.
pub proof fn detach_text_is_fixed(
    statement: Statement,
    conversation: Seq<char>,
    item: Option<Seq<char>>,
)
    requires
        statement.detaches(conversation, item),
    ensures
        statement.text() == "UPDATE items SET conversation_id = NULL, seq = NULL WHERE "@ + ((
        "conversation_id"@ + " = "@ + "$1"@) + " AND "@ + ("("@ + (("CAST("@ + "$2"@
            + " AS TEXT) IS NULL"@) + " OR "@ + ("id"@ + " = "@ + "$2"@)) + ")"@)),
        statement.bound().len() == 2,
        statement.bound()[0] == Datum::Text(conversation),
        item is None ==> statement.bound()[1] == Datum::Null,
        item matches Some(id) ==> statement.bound()[1] == Datum::Text(id),
{
    reveal_with_fuel(Condition::text, 5);
    assert(statement.text() =~= statement.task.text() + statement.condition.text());
}

} // verus!
