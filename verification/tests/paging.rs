//! Statements carried out on a table held in memory.

use std::cmp::Ordering;

use agentic_server::storage::condition::{Column, Comparison, Condition, Slot};
use agentic_server::storage::conversation::{
    detach_from_conversation_in_tx, get_for_conversation, list_after_cursor, list_for_conversation,
    Bind, Key, ListStep, Statement,
};
use agentic_server::types::conversations::ItemOrder;

#[derive(Debug, Clone, PartialEq)]
struct Row {
    conversation: Option<&'static str>,
    tenant: &'static str,
    seq: Option<i64>,
    id: &'static str,
}

#[derive(Debug, Clone, PartialEq)]
enum Datum {
    Null,
    Integer(i64),
    Text(String),
}

fn row(conversation: &'static str, tenant: &'static str, seq: Option<i64>, id: &'static str) -> Row {
    Row {
        conversation: Some(conversation),
        tenant,
        seq,
        id,
    }
}

fn column(row: &Row, column: Column) -> Datum {
    match column {
        Column::ConversationsId | Column::ConversationId => match row.conversation {
            Some(conversation) => Datum::Text(conversation.to_string()),
            None => Datum::Null,
        },
        Column::ConversationsTenant => Datum::Text(row.tenant.to_string()),
        Column::ItemsSeq => row.seq.map_or(Datum::Null, Datum::Integer),
        Column::ItemsId | Column::Id => Datum::Text(row.id.to_string()),
    }
}

fn bound(statement: &Statement, slot: Slot) -> Datum {
    let position = match slot {
        Slot::First => 0,
        Slot::Second => 1,
        Slot::Third => 2,
        Slot::Fourth => 3,
        Slot::Fifth => 4,
    };
    match &statement.binds[position] {
        Bind::Text(text) => Datum::Text(text.clone()),
        Bind::OptionalText(Some(text)) => Datum::Text(text.clone()),
        Bind::OptionalText(None) => Datum::Null,
        Bind::Integer(value) => Datum::Integer(*value),
    }
}

fn truth(condition: &Condition, row: &Row, statement: &Statement) -> Option<bool> {
    match condition {
        Condition::Compare(left, comparison, slot) => {
            let order = match (column(row, *left), bound(statement, *slot)) {
                (Datum::Integer(l), Datum::Integer(r)) => l.cmp(&r),
                (Datum::Text(l), Datum::Text(r)) => l.cmp(&r),
                _ => return None,
            };
            Some(match comparison {
                Comparison::Equal => order == Ordering::Equal,
                Comparison::Less => order == Ordering::Less,
                Comparison::Greater => order == Ordering::Greater,
            })
        }
        Condition::IsNull(left) => Some(column(row, *left) == Datum::Null),
        Condition::IsNotNull(left) => Some(column(row, *left) != Datum::Null),
        Condition::Unbound(slot) => Some(bound(statement, *slot) == Datum::Null),
        Condition::And(a, b) => match (truth(a, row, statement), truth(b, row, statement)) {
            (Some(false), _) | (_, Some(false)) => Some(false),
            (Some(true), Some(true)) => Some(true),
            _ => None,
        },
        Condition::Or(a, b) => match (truth(a, row, statement), truth(b, row, statement)) {
            (Some(true), _) | (_, Some(true)) => Some(true),
            (Some(false), Some(false)) => Some(false),
            _ => None,
        },
        Condition::Group(inner) => truth(inner, row, statement),
    }
}

fn takes(statement: &Statement, row: &Row) -> bool {
    truth(&statement.condition, row, statement) == Some(true)
}

/// Rows taken by a statement, in its order: absent numbers come first where it
/// ascends and last where it descends.
fn answer(statement: &Statement, table: &[Row]) -> Vec<Row> {
    let mut rows: Vec<Row> = table
        .iter()
        .filter(|row| takes(statement, row))
        .cloned()
        .collect();
    if let Some(paging) = statement.paging {
        rows.sort_by(|a, b| match paging.order {
            ItemOrder::Asc => (a.seq, a.id).cmp(&(b.seq, b.id)),
            ItemOrder::Desc => (b.seq, b.id).cmp(&(a.seq, a.id)),
        });
        if let Datum::Integer(limit) = bound(statement, paging.limit) {
            rows.truncate(usize::try_from(limit).unwrap());
        }
    }
    rows
}

#[derive(Debug, PartialEq)]
struct CursorNotFound;

fn list(
    table: &[Row],
    limit: i64,
    after: Option<&str>,
    order: ItemOrder,
) -> Result<Vec<Row>, CursorNotFound> {
    let mut step = list_for_conversation("acme", "c1", limit, after, order);
    loop {
        step = match step {
            ListStep::FindCursor(statement) => {
                let found = answer(&statement, table);
                assert!(found.len() <= 1);
                let cursor = found.first().map(|row| Key {
                    seq: row.seq,
                    id: row.id.to_string(),
                });
                list_after_cursor("acme", "c1", limit, cursor, order)
            }
            ListStep::FetchPage(statement) => return Ok(answer(&statement, table)),
            ListStep::CursorNotFound => return Err(CursorNotFound),
        };
    }
}

fn ids(rows: &[Row]) -> Vec<&'static str> {
    rows.iter().map(|row| row.id).collect()
}

/// All pages with items, each after the last item of the one before.
fn pages(table: &[Row], limit: i64, order: ItemOrder) -> Vec<Vec<&'static str>> {
    let mut pages = Vec::new();
    let mut after: Option<&str> = None;
    loop {
        let page = list(table, limit, after, order).unwrap();
        match page.last() {
            Some(last) => after = Some(last.id),
            None => return pages,
        }
        pages.push(ids(&page));
    }
}

fn walk(table: &[Row], limit: i64, order: ItemOrder) -> Vec<&'static str> {
    pages(table, limit, order).concat()
}

fn table() -> Vec<Row> {
    vec![
        row("c1", "acme", Some(3), "d"),
        row("c2", "acme", Some(1), "other_conversation"),
        row("c1", "acme", Some(1), "a"),
        row("c1", "acme", Some(2), "c"),
        row("c1", "acme", Some(2), "b"),
        row("c1", "acme", Some(9), "e"),
    ]
}

#[test]
fn paging_meets_every_item_exactly_once() {
    for limit in 1..=7 {
        assert_eq!(walk(&table(), limit, ItemOrder::Asc), ["a", "b", "c", "d", "e"]);
        assert_eq!(walk(&table(), limit, ItemOrder::Desc), ["e", "d", "c", "b", "a"]);
    }
}

#[test]
fn all_pages_but_the_last_are_full() {
    assert_eq!(
        pages(&table(), 2, ItemOrder::Asc),
        vec![vec!["a", "b"], vec!["c", "d"], vec!["e"]]
    );
    assert_eq!(
        pages(&table(), 5, ItemOrder::Desc),
        vec![vec!["e", "d", "c", "b", "a"]]
    );
}

#[test]
fn pages_join_into_the_single_large_page() {
    let mut table = table();
    table.push(row("c1", "acme", None, "m"));
    for order in [ItemOrder::Asc, ItemOrder::Desc] {
        let single = ids(&list(&table, 100, None, order).unwrap());
        for limit in 1..=8 {
            assert_eq!(walk(&table, limit, order), single);
        }
    }
}

#[test]
fn ascending_pages_meet_unnumbered_items_first() {
    let mut table = table();
    table.push(row("c1", "acme", None, "y"));
    table.push(row("c1", "acme", None, "x"));
    for limit in 1..=8 {
        assert_eq!(
            walk(&table, limit, ItemOrder::Asc),
            ["x", "y", "a", "b", "c", "d", "e"]
        );
    }
}

#[test]
fn unnumbered_items_alone_are_paged_in_both_orders() {
    let table = vec![
        row("c1", "acme", None, "y"),
        row("c1", "acme", None, "x"),
        row("c1", "acme", None, "z"),
    ];
    for limit in 1..=4 {
        assert_eq!(walk(&table, limit, ItemOrder::Asc), ["x", "y", "z"]);
        assert_eq!(walk(&table, limit, ItemOrder::Desc), ["z", "y", "x"]);
    }
}

#[test]
fn descending_pages_meet_unnumbered_items_last() {
    let mut table = table();
    table.push(row("c1", "acme", None, "x"));
    table.push(row("c1", "acme", None, "y"));
    for limit in 1..=8 {
        assert_eq!(
            walk(&table, limit, ItemOrder::Desc),
            ["e", "d", "c", "b", "a", "y", "x"]
        );
    }
}

#[test]
fn other_tenants_see_nothing() {
    let foreign = vec![row("c1", "globex", Some(1), "a")];
    assert_eq!(list(&foreign, 10, None, ItemOrder::Asc), Ok(Vec::new()));
    assert_eq!(
        list(&foreign, 10, Some("a"), ItemOrder::Asc),
        Err(CursorNotFound)
    );
    assert!(answer(&get_for_conversation("acme", "c1", "a"), &foreign).is_empty());
    assert_eq!(
        answer(&get_for_conversation("globex", "c1", "a"), &foreign),
        foreign
    );
}

#[test]
fn a_cursor_of_another_conversation_is_not_found() {
    for cursor in ["other_conversation", "missing", ""] {
        for order in [ItemOrder::Asc, ItemOrder::Desc] {
            assert_eq!(
                list(&table(), 10, Some(cursor), order),
                Err(CursorNotFound)
            );
        }
    }
    assert_eq!(
        list(&table(), 10, Some("e"), ItemOrder::Asc),
        Ok(Vec::new())
    );
}

#[test]
fn detaching_leaves_the_others_in_place() {
    let one = detach_from_conversation_in_tx("c1", Some("c"));
    let taken: Vec<&str> = table()
        .iter()
        .filter(|row| takes(&one, row))
        .map(|row| row.id)
        .collect();
    assert_eq!(taken, ["c"]);

    let all = detach_from_conversation_in_tx("c1", None);
    let kept: Vec<&str> = table()
        .iter()
        .filter(|row| !takes(&all, row))
        .map(|row| row.id)
        .collect();
    assert_eq!(kept, ["other_conversation"]);
    let loose = Row {
        conversation: None,
        tenant: "",
        seq: None,
        id: "loose",
    };
    assert!(!takes(&all, &loose));
}
