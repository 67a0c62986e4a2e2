//! Item statements authorized through the owning conversation.
//!
//! Every statement that reads items joins them to their conversation and names
//! both the conversation and its tenant, so an identifier alone never reaches
//! the items of another tenant.

use vstd::prelude::*;

use super::condition::{Collation, Column, Comparison, Condition, Datum, Row, Slot};
use super::sql::{
    detach_text_is_fixed, lookup_text_is_fixed, page_text_is_fixed_by_cursor_and_order,
};
use crate::text::optional_view;
use crate::types::conversations::ItemOrder;

verus! {

/// A value bound to a placeholder.
#[derive(Debug)]
pub enum Bind {
    Text(String),
    OptionalText(Option<String>),
    Integer(i64),
}

impl View for Bind {
    type V = Datum;

    open spec fn view(&self) -> Datum {
        match *self {
            Bind::Text(text) => Datum::Text(text@),
            Bind::OptionalText(Some(text)) => Datum::Text(text@),
            Bind::OptionalText(None) => Datum::Null,
            Bind::Integer(value) => Datum::Integer(value),
        }
    }
}

/// What a statement does with the rows that its condition holds for.
#[derive(Debug, Clone, Copy, PartialEq, Eq, Structural)]
pub enum Task {
    /// Read the ordering key of an item.
    ReadKey,
    /// Read whole items.
    ReadItems,
    /// Take items out of their conversation, keeping the items themselves.
    Detach,
}

impl Task {
    pub open spec fn text(self) -> Seq<char> {
        match self {
            Task::ReadKey => "SELECT items.seq, items.id FROM items JOIN conversations ON conversations.id = items.conversation_id WHERE "@,
            Task::ReadItems => "SELECT items.* FROM items JOIN conversations ON conversations.id = items.conversation_id WHERE "@,
            Task::Detach => "UPDATE items SET conversation_id = NULL, seq = NULL WHERE "@,
        }
    }

    pub fn sql(self) -> (sql: &'static str)
        ensures
            sql@ == self.text(),
    {
        match self {
            Task::ReadKey => "SELECT items.seq, items.id FROM items JOIN conversations ON conversations.id = items.conversation_id WHERE ",
            Task::ReadItems => "SELECT items.* FROM items JOIN conversations ON conversations.id = items.conversation_id WHERE ",
            Task::Detach => "UPDATE items SET conversation_id = NULL, seq = NULL WHERE ",
        }
    }
}

/// Ordering of a page: the direction, and the placeholder of its size.
#[derive(Debug, Clone, Copy, PartialEq, Eq, Structural)]
pub struct Paging {
    pub order: ItemOrder,
    pub limit: Slot,
}

impl Paging {
    pub open spec fn text(self) -> Seq<char> {
        let clause = match self.order {
            ItemOrder::Desc => " ORDER BY items.seq DESC NULLS LAST, items.id DESC LIMIT "@,
            ItemOrder::Asc => " ORDER BY items.seq ASC NULLS FIRST, items.id ASC LIMIT "@,
        };
        clause + self.limit.text()
    }

    /// Whether the page puts one ordering key before another.
    pub open spec fn puts_before(self, a: KeyView, b: KeyView, before: Collation) -> bool {
        is_listed_before(a, b, self.order, before)
    }

    pub fn sql(self) -> (sql: String)
        ensures
            sql@ == self.text(),
    {
        let clause = match self.order {
            ItemOrder::Desc => " ORDER BY items.seq DESC NULLS LAST, items.id DESC LIMIT ",
            ItemOrder::Asc => " ORDER BY items.seq ASC NULLS FIRST, items.id ASC LIMIT ",
        };
        clause.to_owned().concat(self.limit.sql())
    }
}

/// A statement with the values bound to its placeholders.
#[derive(Debug)]
pub struct Statement {
    pub task: Task,
    pub condition: Condition,
    pub paging: Option<Paging>,
    pub binds: Vec<Bind>,
}

impl Statement {
    /// The bound values, in the order of their placeholders.
    pub open spec fn bound(self) -> Seq<Datum> {
        self.binds@.map_values(|bind: Bind| bind@)
    }

    pub open spec fn text(self) -> Seq<char> {
        self.task.text() + self.condition.text() + match self.paging {
            Some(paging) => paging.text(),
            None => Seq::empty(),
        }
    }

    /// Whether the statement reads back as its parts, and binds every placeholder.
    pub open spec fn is_well_formed(self) -> bool {
        &&& self.condition.is_unambiguous()
        &&& self.condition.is_bound_by(self.binds@.len())
        &&& self.paging matches Some(paging) ==> {
            &&& paging.limit.position() == self.binds@.len() - 1
            &&& self.bound().last() is Integer
        }
    }

    /// Whether the statement takes a row.
    pub open spec fn takes(self, row: Row, before: Collation) -> bool {
        self.condition.truth(row, self.bound(), before) == Some(true)
    }

    /// Text of the statement: what it does, the condition, and for a page the
    /// order and the placeholder of its limit.
    pub fn sql(&self) -> (sql: String)
        ensures
            sql@ == self.text(),
            self.paging matches Some(paging) ==> sql@ == self.task.text() + self.condition.text()
                + (match paging.order {
                ItemOrder::Desc => " ORDER BY items.seq DESC NULLS LAST, items.id DESC LIMIT "@,
                ItemOrder::Asc => " ORDER BY items.seq ASC NULLS FIRST, items.id ASC LIMIT "@,
            } + paging.limit.text()),
            self.paging is None ==> sql@ == self.task.text() + self.condition.text(),
    {
        let sql = self.task.sql().to_owned().concat(self.condition.sql().as_str());
        match self.paging {
            Some(paging) => sql.concat(paging.sql().as_str()),
            None => {
                assert(sql@ + Seq::<char>::empty() =~= sql@);
                sql
            },
        }
    }
}

/// Ordering key of an item.
#[derive(Debug)]
pub struct Key {
    pub seq: Option<i64>,
    pub id: String,
}

#[verifier::ext_equal]
pub struct KeyView {
    pub seq: Option<i64>,
    pub id: Seq<char>,
}

impl View for Key {
    type V = KeyView;

    open spec fn view(&self) -> KeyView {
        KeyView { seq: self.seq, id: self.id@ }
    }
}

pub open spec fn key_view(key: Option<Key>) -> Option<KeyView> {
    match key {
        Some(key) => Some(key@),
        None => None,
    }
}

pub open spec fn optional_datum(text: Option<Seq<char>>) -> Datum {
    match text {
        Some(text) => Datum::Text(text),
        None => Datum::Null,
    }
}

impl Row {
    pub open spec fn key(self) -> KeyView {
        KeyView { seq: self.seq, id: self.id }
    }

    /// Whether the item belongs to a conversation of a tenant.
    pub open spec fn is_owned_by(self, tenant: Seq<char>, conversation: Seq<char>) -> bool {
        self.conversation == Some(conversation) && self.tenant == tenant
    }
}

/// Whether one ordering key sorts before another: by sequence number, then by
/// identifier, and items without a sequence number before all others.
pub open spec fn sorts_before(a: KeyView, b: KeyView, before: Collation) -> bool {
    match (a.seq, b.seq) {
        (Some(x), Some(y)) => x < y || x == y && before(a.id, b.id),
        (None, None) => before(a.id, b.id),
        (None, Some(_)) => true,
        (Some(_), None) => false,
    }
}

/// Whether a listing has one ordering key before another.
pub open spec fn is_listed_before(
    a: KeyView,
    b: KeyView,
    order: ItemOrder,
    before: Collation,
) -> bool {
    match order {
        ItemOrder::Asc => sorts_before(a, b, before),
        ItemOrder::Desc => sorts_before(b, a, before),
    }
}

/// The item belongs to the first bound conversation, of the second bound tenant.
pub open spec fn owned() -> Condition {
    Condition::And(
        Box::new(Condition::Compare(Column::ConversationsId, Comparison::Equal, Slot::First)),
        Box::new(Condition::Compare(Column::ConversationsTenant, Comparison::Equal, Slot::Second)),
    )
}

/// An owned item, with the third bound identifier.
pub open spec fn owned_item() -> Condition {
    Condition::And(
        Box::new(owned()),
        Box::new(Condition::Compare(Column::ItemsId, Comparison::Equal, Slot::Third)),
    )
}

/// The sequence number lies beyond the third bound value, or equals it and the
/// identifier lies beyond the fourth.
pub open spec fn beyond_numbered(beyond: Comparison) -> Condition {
    Condition::Or(
        Box::new(
            Condition::Group(Box::new(Condition::Compare(Column::ItemsSeq, beyond, Slot::Third))),
        ),
        Box::new(
            Condition::Group(
                Box::new(
                    Condition::And(
                        Box::new(
                            Condition::Compare(Column::ItemsSeq, Comparison::Equal, Slot::Third),
                        ),
                        Box::new(Condition::Compare(Column::ItemsId, beyond, Slot::Fourth)),
                    ),
                ),
            ),
        ),
    )
}

/// As [`beyond_numbered`], or the item has no sequence number.
pub open spec fn beyond_numbered_or_unnumbered(beyond: Comparison) -> Condition {
    Condition::Or(
        Box::new(beyond_numbered(beyond)),
        Box::new(Condition::IsNull(Column::ItemsSeq)),
    )
}

/// The item has no sequence number, and its identifier lies beyond the third
/// bound value.
pub open spec fn beyond_unnumbered(beyond: Comparison) -> Condition {
    Condition::And(
        Box::new(Condition::IsNull(Column::ItemsSeq)),
        Box::new(Condition::Compare(Column::ItemsId, beyond, Slot::Third)),
    )
}

/// The condition of a page that continues after a key, or of the first page.
pub open spec fn page_condition(after: Option<KeyView>, order: ItemOrder) -> Condition {
    match (after, order) {
        (None, _) => owned(),
        (Some(KeyView { seq: Some(_), .. }), ItemOrder::Desc) => Condition::And(
            Box::new(owned()),
            Box::new(
                Condition::Group(Box::new(beyond_numbered_or_unnumbered(Comparison::Less))),
            ),
        ),
        (Some(KeyView { seq: Some(_), .. }), ItemOrder::Asc) => Condition::And(
            Box::new(owned()),
            Box::new(Condition::Group(Box::new(beyond_numbered(Comparison::Greater)))),
        ),
        (Some(KeyView { seq: None, .. }), ItemOrder::Desc) => Condition::And(
            Box::new(owned()),
            Box::new(beyond_unnumbered(Comparison::Less)),
        ),
        (Some(KeyView { seq: None, .. }), ItemOrder::Asc) => Condition::And(
            Box::new(owned()),
            Box::new(
                Condition::Group(
                    Box::new(
                        Condition::Or(
                            Box::new(Condition::IsNotNull(Column::ItemsSeq)),
                            Box::new(
                                Condition::Group(Box::new(beyond_unnumbered(Comparison::Greater))),
                            ),
                        ),
                    ),
                ),
            ),
        ),
    }
}

/// The item refers to the first bound conversation, and has the second bound
/// identifier unless none is bound.
pub open spec fn detached() -> Condition {
    Condition::And(
        Box::new(Condition::Compare(Column::ConversationId, Comparison::Equal, Slot::First)),
        Box::new(
            Condition::Group(
                Box::new(
                    Condition::Or(
                        Box::new(Condition::Unbound(Slot::Second)),
                        Box::new(Condition::Compare(Column::Id, Comparison::Equal, Slot::Second)),
                    ),
                ),
            ),
        ),
    )
}

/// The values bound by a page: whose items, where it continues, and its size.
pub open spec fn page_bound(
    tenant: Seq<char>,
    conversation: Seq<char>,
    limit: i64,
    after: Option<KeyView>,
) -> Seq<Datum> {
    let owner = seq![Datum::Text(conversation), Datum::Text(tenant)];
    let position = match after {
        None => seq![],
        Some(KeyView { seq: Some(seq), id }) => seq![Datum::Integer(seq), Datum::Text(id)],
        Some(KeyView { seq: None, id }) => seq![Datum::Text(id)],
    };
    owner + position + seq![Datum::Integer(limit)]
}

impl Statement {
    /// The statement that reads the ordering key of an item of a conversation.
    pub open spec fn reads_key(
        self,
        tenant: Seq<char>,
        conversation: Seq<char>,
        item: Seq<char>,
    ) -> bool {
        &&& self.task == Task::ReadKey
        &&& self.condition == owned_item()
        &&& self.bound() == seq![
            Datum::Text(conversation),
            Datum::Text(tenant),
            Datum::Text(item),
        ]
        &&& self.paging is None
    }

    /// The statement that reads an item of a conversation.
    pub open spec fn reads_item(
        self,
        tenant: Seq<char>,
        conversation: Seq<char>,
        item: Seq<char>,
    ) -> bool {
        &&& self.task == Task::ReadItems
        &&& self.condition == owned_item()
        &&& self.bound() == seq![
            Datum::Text(conversation),
            Datum::Text(tenant),
            Datum::Text(item),
        ]
        &&& self.paging is None
    }

    /// The statement that reads a page of items.
    pub open spec fn reads_page(
        self,
        tenant: Seq<char>,
        conversation: Seq<char>,
        limit: i64,
        after: Option<KeyView>,
        order: ItemOrder,
    ) -> bool {
        let limit_slot = match after {
            None => Slot::Third,
            Some(KeyView { seq: None, .. }) => Slot::Fourth,
            Some(KeyView { seq: Some(_), .. }) => Slot::Fifth,
        };
        &&& self.task == Task::ReadItems
        &&& self.condition == page_condition(after, order)
        &&& self.bound() == page_bound(tenant, conversation, limit, after)
        &&& self.paging == Some(Paging { order, limit: limit_slot })
    }

    /// The statement that takes one or all items out of a conversation.
    pub open spec fn detaches(self, conversation: Seq<char>, item: Option<Seq<char>>) -> bool {
        &&& self.task == Task::Detach
        &&& self.condition == detached()
        &&& self.bound() == seq![Datum::Text(conversation), optional_datum(item)]
        &&& self.paging is None
    }
}

/// Whether a row is one that a page takes.
pub open spec fn is_on_later_page(
    row: Row,
    tenant: Seq<char>,
    conversation: Seq<char>,
    after: Option<KeyView>,
    order: ItemOrder,
    before: Collation,
) -> bool {
    &&& row.is_owned_by(tenant, conversation)
    &&& after matches Some(key) ==> is_listed_before(key, row.key(), order, before)
}

fn compare(column: Column, comparison: Comparison, slot: Slot) -> (condition: Box<Condition>)
    ensures
        *condition == Condition::Compare(column, comparison, slot),
{
    Box::new(Condition::Compare(column, comparison, slot))
}

fn where_owned() -> (condition: Box<Condition>)
    ensures
        *condition == owned(),
{
    Box::new(
        Condition::And(
            compare(Column::ConversationsId, Comparison::Equal, Slot::First),
            compare(Column::ConversationsTenant, Comparison::Equal, Slot::Second),
        ),
    )
}

fn where_owned_item() -> (condition: Condition)
    ensures
        condition == owned_item(),
{
    Condition::And(where_owned(), compare(Column::ItemsId, Comparison::Equal, Slot::Third))
}

fn where_beyond_numbered(beyond: Comparison) -> (condition: Box<Condition>)
    ensures
        *condition == beyond_numbered(beyond),
{
    let further = Condition::Group(compare(Column::ItemsSeq, beyond, Slot::Third));
    let same = Condition::Group(
        Box::new(
            Condition::And(
                compare(Column::ItemsSeq, Comparison::Equal, Slot::Third),
                compare(Column::ItemsId, beyond, Slot::Fourth),
            ),
        ),
    );
    Box::new(Condition::Or(Box::new(further), Box::new(same)))
}

fn where_beyond_unnumbered(beyond: Comparison) -> (condition: Box<Condition>)
    ensures
        *condition == beyond_unnumbered(beyond),
{
    Box::new(
        Condition::And(
            Box::new(Condition::IsNull(Column::ItemsSeq)),
            compare(Column::ItemsId, beyond, Slot::Third),
        ),
    )
}

/// What listing the items of a conversation does next.
#[derive(Debug)]
pub enum ListStep {
    /// Look up the ordering key of the item to continue after.
    FindCursor(Statement),
    /// Read the page.
    FetchPage(Statement),
    /// Answer that the cursor is not in the conversation.
    CursorNotFound,
}

impl ListStep {
    /// Whether this step starts a listing: without a cursor the first page is
    /// read, and with one its ordering key is looked up.
    pub open spec fn starts(
        self,
        tenant: Seq<char>,
        conversation: Seq<char>,
        limit: i64,
        after_id: Option<Seq<char>>,
        order: ItemOrder,
    ) -> bool {
        match after_id {
            Some(cursor_id) => self matches ListStep::FindCursor(statement)
                && statement.is_well_formed() && statement.reads_key(
                tenant,
                conversation,
                cursor_id,
            ),
            None => self matches ListStep::FetchPage(statement) && statement.is_well_formed()
                && statement.reads_page(tenant, conversation, limit, None, order),
        }
    }

    /// Whether this step goes on once a cursor has been looked up: after its
    /// ordering key, or with an error where the conversation has no such item.
    pub open spec fn goes_on(
        self,
        tenant: Seq<char>,
        conversation: Seq<char>,
        limit: i64,
        cursor: Option<KeyView>,
        order: ItemOrder,
    ) -> bool {
        match cursor {
            Some(key) => self matches ListStep::FetchPage(statement) && statement.is_well_formed()
                && statement.reads_page(tenant, conversation, limit, Some(key), order),
            None => self is CursorNotFound,
        }
    }
}

fn page(
    tenant_id: &str,
    conversation_id: &str,
    limit: i64,
    after: Option<Key>,
    order: ItemOrder,
) -> (statement: Statement)
    ensures
        statement.is_well_formed(),
        statement.reads_page(
            tenant_id@,
            conversation_id@,
            limit,
            key_view(after),
            order,
        ),
{
    let ghost position = key_view(after);
    let mut binds = Vec::new();
    binds.push(Bind::Text(conversation_id.to_owned()));
    binds.push(Bind::Text(tenant_id.to_owned()));
    let (condition, limit_slot) = match after {
        None => (*where_owned(), Slot::Third),
        Some(Key { seq: Some(seq), id }) => {
            binds.push(Bind::Integer(seq));
            binds.push(Bind::Text(id));
            let later = match order {
                // Unnumbered items come last, so all of those remain too.
                ItemOrder::Desc => Box::new(
                    Condition::Or(
                        where_beyond_numbered(Comparison::Less),
                        Box::new(Condition::IsNull(Column::ItemsSeq)),
                    ),
                ),
                // Unnumbered items come first, so none of those remains.
                ItemOrder::Asc => where_beyond_numbered(Comparison::Greater),
            };
            (Condition::And(where_owned(), Box::new(Condition::Group(later))), Slot::Fifth)
        },
        Some(Key { seq: None, id }) => {
            binds.push(Bind::Text(id));
            let later = match order {
                // Unnumbered items come last, so only those remain.
                ItemOrder::Desc => where_beyond_unnumbered(Comparison::Less),
                // Unnumbered items come first, so all numbered ones remain too.
                ItemOrder::Asc => Box::new(
                    Condition::Group(
                        Box::new(
                            Condition::Or(
                                Box::new(Condition::IsNotNull(Column::ItemsSeq)),
                                Box::new(
                                    Condition::Group(where_beyond_unnumbered(Comparison::Greater)),
                                ),
                            ),
                        ),
                    ),
                ),
            };
            (Condition::And(where_owned(), later), Slot::Fourth)
        },
    };
    binds.push(Bind::Integer(limit));
    let statement = Statement {
        task: Task::ReadItems,
        condition,
        paging: Some(Paging { order, limit: limit_slot }),
        binds,
    };
    proof {
        reveal_with_fuel(Condition::is_unambiguous, 7);
        reveal_with_fuel(Condition::is_bound_by, 7);
        assert(statement.bound() =~= page_bound(tenant_id@, conversation_id@, limit, position));
    }
    statement
}

fn lookup(task: Task, tenant_id: &str, conversation_id: &str, item_id: &str) -> (statement:
    Statement)
    ensures
        statement.is_well_formed(),
        statement.task == task,
        statement.condition == owned_item(),
        statement.bound() == seq![
            Datum::Text(conversation_id@),
            Datum::Text(tenant_id@),
            Datum::Text(item_id@),
        ],
        statement.paging is None,
{
    let mut binds = Vec::new();
    binds.push(Bind::Text(conversation_id.to_owned()));
    binds.push(Bind::Text(tenant_id.to_owned()));
    binds.push(Bind::Text(item_id.to_owned()));
    let statement = Statement { task, condition: where_owned_item(), paging: None, binds };
    proof {
        reveal_with_fuel(Condition::is_unambiguous, 4);
        reveal_with_fuel(Condition::is_bound_by, 4);
    }
    statement
}

/// List a page using keyset pagination with (seq, id) ordering.
///
/// Without a cursor the first page is read. With one, its ordering key is looked
/// up first, within the same conversation and tenant;
/// [`list_after_cursor`] goes on from there.
pub fn list_for_conversation(
    tenant_id: &str,
    conversation_id: &str,
    limit: i64,
    after_id: Option<&str>,
    order: ItemOrder,
) -> (step: ListStep)
    ensures
        step.starts(tenant_id@, conversation_id@, limit, optional_view(after_id), order),
        ({
            let owner = ("conversations.id"@ + " = "@ + "$1"@) + " AND "@ + (
            "conversations.tenant_id"@ + " = "@ + "$2"@);
            match after_id {
                Some(cursor_id) => step matches ListStep::FindCursor(statement) && statement.text()
                    == "SELECT items.seq, items.id FROM items JOIN conversations ON conversations.id = items.conversation_id WHERE "@
                    + (owner + " AND "@ + ("items.id"@ + " = "@ + "$3"@)) && statement.bound()
                    == seq![
                    Datum::Text(conversation_id@),
                    Datum::Text(tenant_id@),
                    Datum::Text(cursor_id@),
                ],
                None => step matches ListStep::FetchPage(statement) && statement.text()
                    == "SELECT items.* FROM items JOIN conversations ON conversations.id = items.conversation_id WHERE "@
                    + owner + (match order {
                    ItemOrder::Desc => " ORDER BY items.seq DESC NULLS LAST, items.id DESC LIMIT "@,
                    ItemOrder::Asc => " ORDER BY items.seq ASC NULLS FIRST, items.id ASC LIMIT "@,
                } + "$3"@) && statement.bound() == seq![
                    Datum::Text(conversation_id@),
                    Datum::Text(tenant_id@),
                    Datum::Integer(limit),
                ],
            }
        }),
{
    match after_id {
        Some(cursor_id) => {
            let statement = lookup(Task::ReadKey, tenant_id, conversation_id, cursor_id);
            proof {
                lookup_text_is_fixed(statement, tenant_id@, conversation_id@, cursor_id@);
            }
            ListStep::FindCursor(statement)
        },
        None => {
            let statement = page(tenant_id, conversation_id, limit, None, order);
            proof {
                page_text_is_fixed_by_cursor_and_order(
                    statement,
                    tenant_id@,
                    conversation_id@,
                    limit,
                    None,
                    order,
                );
                assert(statement.bound() =~= seq![
                    Datum::Text(conversation_id@),
                    Datum::Text(tenant_id@),
                    Datum::Integer(limit),
                ]);
            }
            ListStep::FetchPage(statement)
        },
    }
}

/// Continue a listing once its cursor has been looked up.
///
/// A cursor that is not in the conversation is an error.
pub fn list_after_cursor(
    tenant_id: &str,
    conversation_id: &str,
    limit: i64,
    cursor: Option<Key>,
    order: ItemOrder,
) -> (step: ListStep)
    ensures
        step.goes_on(tenant_id@, conversation_id@, limit, key_view(cursor), order),
        cursor is None ==> step is CursorNotFound,
        cursor matches Some(Key { seq: Some(seq), id }) ==> ({
            let owner = ("conversations.id"@ + " = "@ + "$1"@) + " AND "@ + (
            "conversations.tenant_id"@ + " = "@ + "$2"@);
            let later = match order {
                ItemOrder::Desc => (("("@ + ("items.seq"@ + " < "@ + "$3"@) + ")"@) + " OR "@
                    + ("("@ + (("items.seq"@ + " = "@ + "$3"@) + " AND "@ + ("items.id"@ + " < "@
                    + "$4"@)) + ")"@)) + " OR "@ + ("items.seq"@ + " IS NULL"@),
                ItemOrder::Asc => ("("@ + ("items.seq"@ + " > "@ + "$3"@) + ")"@) + " OR "@
                    + ("("@ + (("items.seq"@ + " = "@ + "$3"@) + " AND "@ + ("items.id"@ + " > "@
                    + "$4"@)) + ")"@),
            };
            step matches ListStep::FetchPage(statement) && statement.text()
                == "SELECT items.* FROM items JOIN conversations ON conversations.id = items.conversation_id WHERE "@
                + (owner + " AND "@ + ("("@ + later + ")"@)) + (match order {
                ItemOrder::Desc => " ORDER BY items.seq DESC NULLS LAST, items.id DESC LIMIT "@,
                ItemOrder::Asc => " ORDER BY items.seq ASC NULLS FIRST, items.id ASC LIMIT "@,
            } + "$5"@) && statement.bound() == seq![
                Datum::Text(conversation_id@),
                Datum::Text(tenant_id@),
                Datum::Integer(seq),
                Datum::Text(id@),
                Datum::Integer(limit),
            ]
        }),
        cursor matches Some(Key { seq: None, id }) ==> ({
            let owner = ("conversations.id"@ + " = "@ + "$1"@) + " AND "@ + (
            "conversations.tenant_id"@ + " = "@ + "$2"@);
            let later = match order {
                ItemOrder::Desc => ("items.seq"@ + " IS NULL"@) + " AND "@ + ("items.id"@ + " < "@
                    + "$3"@),
                ItemOrder::Asc => "("@ + (("items.seq"@ + " IS NOT NULL"@) + " OR "@ + ("("@ + ((
                "items.seq"@ + " IS NULL"@) + " AND "@ + ("items.id"@ + " > "@ + "$3"@)) + ")"@))
                    + ")"@,
            };
            step matches ListStep::FetchPage(statement) && statement.text()
                == "SELECT items.* FROM items JOIN conversations ON conversations.id = items.conversation_id WHERE "@
                + (owner + " AND "@ + later) + (match order {
                ItemOrder::Desc => " ORDER BY items.seq DESC NULLS LAST, items.id DESC LIMIT "@,
                ItemOrder::Asc => " ORDER BY items.seq ASC NULLS FIRST, items.id ASC LIMIT "@,
            } + "$4"@) && statement.bound() == seq![
                Datum::Text(conversation_id@),
                Datum::Text(tenant_id@),
                Datum::Text(id@),
                Datum::Integer(limit),
            ]
        }),
{
    match cursor {
        Some(key) => {
            let ghost after = key@;
            let statement = page(tenant_id, conversation_id, limit, Some(key), order);
            proof {
                page_text_is_fixed_by_cursor_and_order(
                    statement,
                    tenant_id@,
                    conversation_id@,
                    limit,
                    Some(after),
                    order,
                );
                match after.seq {
                    Some(seq) => assert(statement.bound() =~= seq![
                        Datum::Text(conversation_id@),
                        Datum::Text(tenant_id@),
                        Datum::Integer(seq),
                        Datum::Text(after.id),
                        Datum::Integer(limit),
                    ]),
                    None => assert(statement.bound() =~= seq![
                        Datum::Text(conversation_id@),
                        Datum::Text(tenant_id@),
                        Datum::Text(after.id),
                        Datum::Integer(limit),
                    ]),
                }
            }
            ListStep::FetchPage(statement)
        },
        None => ListStep::CursorNotFound,
    }
}

/// Get an item through its conversation, including items written by Responses persistence.
pub fn get_for_conversation(tenant_id: &str, conversation_id: &str, item_id: &str) -> (statement:
    Statement)
    ensures
        statement.is_well_formed(),
        statement.reads_item(tenant_id@, conversation_id@, item_id@),
        ({
            let owner = ("conversations.id"@ + " = "@ + "$1"@) + " AND "@ + (
            "conversations.tenant_id"@ + " = "@ + "$2"@);
            statement.text()
                == "SELECT items.* FROM items JOIN conversations ON conversations.id = items.conversation_id WHERE "@
                + (owner + " AND "@ + ("items.id"@ + " = "@ + "$3"@))
        }),
        statement.bound() == seq![
            Datum::Text(conversation_id@),
            Datum::Text(tenant_id@),
            Datum::Text(item_id@),
        ],
{
    let statement = lookup(Task::ReadItems, tenant_id, conversation_id, item_id);
    proof {
        lookup_text_is_fixed(statement, tenant_id@, conversation_id@, item_id@);
    }
    statement
}

/// Remove one or all items from a locked conversation while preserving stored response history.
pub fn detach_from_conversation_in_tx(conversation_id: &str, item_id: Option<&str>) -> (statement:
    Statement)
    ensures
        statement.is_well_formed(),
        statement.detaches(conversation_id@, optional_view(item_id)),
        statement.text() == "UPDATE items SET conversation_id = NULL, seq = NULL WHERE "@ + ((
        "conversation_id"@ + " = "@ + "$1"@) + " AND "@ + ("("@ + (("CAST("@ + "$2"@
            + " AS TEXT) IS NULL"@) + " OR "@ + ("id"@ + " = "@ + "$2"@)) + ")"@)),
        statement.bound() == seq![
            Datum::Text(conversation_id@),
            match item_id {
                Some(id) => Datum::Text(id@),
                None => Datum::Null,
            },
        ],
{
    let item = match item_id {
        Some(id) => Some(id.to_owned()),
        None => None,
    };
    let mut binds = Vec::new();
    binds.push(Bind::Text(conversation_id.to_owned()));
    binds.push(Bind::OptionalText(item));
    let condition = Condition::And(
        compare(Column::ConversationId, Comparison::Equal, Slot::First),
        Box::new(
            Condition::Group(
                Box::new(
                    Condition::Or(
                        Box::new(Condition::Unbound(Slot::Second)),
                        compare(Column::Id, Comparison::Equal, Slot::Second),
                    ),
                ),
            ),
        ),
    );
    let statement = Statement { task: Task::Detach, condition, paging: None, binds };
    proof {
        reveal_with_fuel(Condition::is_unambiguous, 5);
        reveal_with_fuel(Condition::is_bound_by, 5);
        assert(statement.bound() =~= seq![
            Datum::Text(conversation_id@),
            optional_datum(optional_view(item_id)),
        ]);
        detach_text_is_fixed(statement, conversation_id@, optional_view(item_id));
    }
    statement
}

} // verus!
