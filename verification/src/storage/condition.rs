//! Row conditions: the text that reaches the database and what it means.
//!
//! A [`Condition`] is written once. [`Condition::sql`] turns it into the text of
//! a `WHERE` clause, and [`Condition::truth`] says for which rows that clause
//! holds, in the three-valued logic of SQL: a comparison with `NULL` is neither
//! true nor false, and a row is taken only where the whole clause is true.

use vstd::prelude::*;

verus! {

/// A numbered placeholder of a statement.
#[derive(Debug, Clone, Copy, PartialEq, Eq, Structural)]
pub enum Slot {
    First,
    Second,
    Third,
    Fourth,
    Fifth,
}

impl Slot {
    /// Position of the bound value among all bound values.
    pub open spec fn position(self) -> int {
        match self {
            Slot::First => 0,
            Slot::Second => 1,
            Slot::Third => 2,
            Slot::Fourth => 3,
            Slot::Fifth => 4,
        }
    }

    pub open spec fn text(self) -> Seq<char> {
        match self {
            Slot::First => "$1"@,
            Slot::Second => "$2"@,
            Slot::Third => "$3"@,
            Slot::Fourth => "$4"@,
            Slot::Fifth => "$5"@,
        }
    }

    pub fn sql(self) -> (sql: &'static str)
        ensures
            sql@ == self.text(),
    {
        match self {
            Slot::First => "$1",
            Slot::Second => "$2",
            Slot::Third => "$3",
            Slot::Fourth => "$4",
            Slot::Fifth => "$5",
        }
    }
}

/// A column that a condition reads.
#[derive(Debug, Clone, Copy, PartialEq, Eq, Structural)]
pub enum Column {
    /// Identifier of the conversation joined to the item.
    ConversationsId,
    /// Tenant of the conversation joined to the item.
    ConversationsTenant,
    /// Position of the item in its conversation.
    ItemsSeq,
    /// Identifier of the item.
    ItemsId,
    /// The item's own reference to its conversation, where nothing is joined.
    ConversationId,
    /// Identifier of the item, where nothing is joined.
    Id,
}

impl Column {
    pub open spec fn text(self) -> Seq<char> {
        match self {
            Column::ConversationsId => "conversations.id"@,
            Column::ConversationsTenant => "conversations.tenant_id"@,
            Column::ItemsSeq => "items.seq"@,
            Column::ItemsId => "items.id"@,
            Column::ConversationId => "conversation_id"@,
            Column::Id => "id"@,
        }
    }

    pub fn sql(self) -> (sql: &'static str)
        ensures
            sql@ == self.text(),
    {
        match self {
            Column::ConversationsId => "conversations.id",
            Column::ConversationsTenant => "conversations.tenant_id",
            Column::ItemsSeq => "items.seq",
            Column::ItemsId => "items.id",
            Column::ConversationId => "conversation_id",
            Column::Id => "id",
        }
    }
}

/// How a column is held against a bound value.
#[derive(Debug, Clone, Copy, PartialEq, Eq, Structural)]
pub enum Comparison {
    Equal,
    Less,
    Greater,
}

impl Comparison {
    pub open spec fn text(self) -> Seq<char> {
        match self {
            Comparison::Equal => " = "@,
            Comparison::Less => " < "@,
            Comparison::Greater => " > "@,
        }
    }

    pub fn sql(self) -> (sql: &'static str)
        ensures
            sql@ == self.text(),
    {
        match self {
            Comparison::Equal => " = ",
            Comparison::Less => " < ",
            Comparison::Greater => " > ",
        }
    }
}

/// The condition of a `WHERE` clause.
#[derive(Debug)]
pub enum Condition {
    Compare(Column, Comparison, Slot),
    IsNull(Column),
    IsNotNull(Column),
    /// The bound text is absent.
    Unbound(Slot),
    And(Box<Condition>, Box<Condition>),
    Or(Box<Condition>, Box<Condition>),
    /// A condition in parentheses.
    Group(Box<Condition>),
}

/// A value in a row or behind a placeholder.
pub enum Datum {
    Null,
    Integer(i64),
    Text(Seq<char>),
}

/// What a condition can read of an item and of the conversation that owns it.
#[verifier::ext_equal]
pub struct Row {
    /// Conversation that the item belongs to, if any.
    pub conversation: Option<Seq<char>>,
    /// Tenant of that conversation.
    pub tenant: Seq<char>,
    /// Position of the item in its conversation.
    pub seq: Option<i64>,
    /// Identifier of the item.
    pub id: Seq<char>,
}

impl Row {
    pub open spec fn datum(self, column: Column) -> Datum {
        match column {
            Column::ConversationsId | Column::ConversationId => match self.conversation {
                Some(conversation) => Datum::Text(conversation),
                None => Datum::Null,
            },
            Column::ConversationsTenant => Datum::Text(self.tenant),
            Column::ItemsSeq => match self.seq {
                Some(seq) => Datum::Integer(seq),
                None => Datum::Null,
            },
            Column::ItemsId | Column::Id => Datum::Text(self.id),
        }
    }
}

/// The order in which a database sorts texts: its collation.
pub type Collation = spec_fn(Seq<char>, Seq<char>) -> bool;

/// Whether no text comes before itself, and of two different texts just one
/// comes before the other.
pub open spec fn is_decisive(before: Collation) -> bool {
    forall|a: Seq<char>, b: Seq<char>|
        #![trigger before(a, b)]
        if a == b {
            !before(a, b)
        } else {
            before(a, b) == !before(b, a)
        }
}

/// Truth of a comparison; `None` stands for neither true nor false.
pub open spec fn compared(
    left: Datum,
    comparison: Comparison,
    right: Datum,
    before: Collation,
) -> Option<bool> {
    match (left, right) {
        (Datum::Integer(l), Datum::Integer(r)) => Some(
            match comparison {
                Comparison::Equal => l == r,
                Comparison::Less => l < r,
                Comparison::Greater => l > r,
            },
        ),
        (Datum::Text(l), Datum::Text(r)) => Some(
            match comparison {
                Comparison::Equal => l == r,
                Comparison::Less => before(l, r),
                Comparison::Greater => before(r, l),
            },
        ),
        _ => None,
    }
}

pub open spec fn both(a: Option<bool>, b: Option<bool>) -> Option<bool> {
    if a == Some(false) || b == Some(false) {
        Some(false)
    } else if a == Some(true) && b == Some(true) {
        Some(true)
    } else {
        None
    }
}

pub open spec fn either(a: Option<bool>, b: Option<bool>) -> Option<bool> {
    if a == Some(true) || b == Some(true) {
        Some(true)
    } else if a == Some(false) && b == Some(false) {
        Some(false)
    } else {
        None
    }
}

impl Condition {
    pub open spec fn text(self) -> Seq<char>
        decreases self,
    {
        match self {
            Condition::Compare(column, comparison, slot) => column.text() + comparison.text()
                + slot.text(),
            Condition::IsNull(column) => column.text() + " IS NULL"@,
            Condition::IsNotNull(column) => column.text() + " IS NOT NULL"@,
            Condition::Unbound(slot) => "CAST("@ + slot.text() + " AS TEXT) IS NULL"@,
            Condition::And(a, b) => a.text() + " AND "@ + b.text(),
            Condition::Or(a, b) => a.text() + " OR "@ + b.text(),
            Condition::Group(inner) => "("@ + inner.text() + ")"@,
        }
    }

    /// Truth of the condition on a row, with the values bound to its placeholders.
    pub open spec fn truth(self, row: Row, bound: Seq<Datum>, before: Collation) -> Option<bool>
        decreases self,
    {
        match self {
            Condition::Compare(column, comparison, slot) => compared(
                row.datum(column),
                comparison,
                bound[slot.position()],
                before,
            ),
            Condition::IsNull(column) => Some(row.datum(column) is Null),
            Condition::IsNotNull(column) => Some(row.datum(column) !is Null),
            Condition::Unbound(slot) => Some(bound[slot.position()] is Null),
            Condition::And(a, b) => both(a.truth(row, bound, before), b.truth(row, bound, before)),
            Condition::Or(a, b) => either(a.truth(row, bound, before), b.truth(row, bound, before)),
            Condition::Group(inner) => inner.truth(row, bound, before),
        }
    }

    /// Whether the text reads back as this condition: `OR` stands only in
    /// parentheses or beside another `OR`, since `AND` binds more tightly.
    pub open spec fn is_unambiguous(self) -> bool
        decreases self,
    {
        match self {
            Condition::And(a, b) => {
                &&& a.is_unambiguous()
                &&& b.is_unambiguous()
                &&& *a !is Or
                &&& *b !is Or
            },
            Condition::Or(a, b) => a.is_unambiguous() && b.is_unambiguous(),
            Condition::Group(inner) => inner.is_unambiguous(),
            _ => true,
        }
    }

    /// Whether every placeholder has a value among the first `count`.
    pub open spec fn is_bound_by(self, count: nat) -> bool
        decreases self,
    {
        match self {
            Condition::Compare(_, _, slot) => slot.position() < count,
            Condition::Unbound(slot) => slot.position() < count,
            Condition::And(a, b) => a.is_bound_by(count) && b.is_bound_by(count),
            Condition::Or(a, b) => a.is_bound_by(count) && b.is_bound_by(count),
            Condition::Group(inner) => inner.is_bound_by(count),
            _ => true,
        }
    }

    /// Text of the condition.
    pub fn sql(&self) -> (sql: String)
        ensures
            sql@ == self.text(),
        decreases self,
    {
        match self {
            Condition::Compare(column, comparison, slot) => column.sql().to_owned().concat(
                comparison.sql(),
            ).concat(slot.sql()),
            Condition::IsNull(column) => column.sql().to_owned().concat(" IS NULL"),
            Condition::IsNotNull(column) => column.sql().to_owned().concat(" IS NOT NULL"),
            Condition::Unbound(slot) => "CAST(".to_owned().concat(slot.sql()).concat(
                " AS TEXT) IS NULL",
            ),
            Condition::And(a, b) => a.sql().concat(" AND ").concat(b.sql().as_str()),
            Condition::Or(a, b) => a.sql().concat(" OR ").concat(b.sql().as_str()),
            Condition::Group(inner) => "(".to_owned().concat(inner.sql().as_str()).concat(")"),
        }
    }
}

} // verus!
