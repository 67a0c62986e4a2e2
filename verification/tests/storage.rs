use agentic_server::storage::conversation::{
    detach_from_conversation_in_tx, get_for_conversation, list_after_cursor, list_for_conversation,
    Bind, Key, ListStep, Statement,
};
use agentic_server::types::conversations::ItemOrder;

const FROM: &str =
    "FROM items JOIN conversations ON conversations.id = items.conversation_id \
     WHERE conversations.id = $1 AND conversations.tenant_id = $2";

fn binds(statement: &Statement) -> Vec<String> {
    statement
        .binds
        .iter()
        .map(|bind| match bind {
            Bind::Text(text) => format!("text {text}"),
            Bind::OptionalText(Some(text)) => format!("optional {text}"),
            Bind::OptionalText(None) => "null".to_string(),
            Bind::Integer(value) => format!("integer {value}"),
        })
        .collect()
}

fn page(cursor: Option<Key>, order: ItemOrder) -> Statement {
    let step = match cursor {
        Some(key) => list_after_cursor("tenant", "conv", 20, Some(key), order),
        None => list_for_conversation("tenant", "conv", 20, None, order),
    };
    match step {
        ListStep::FetchPage(statement) => statement,
        other => panic!("expected a page, got {other:?}"),
    }
}

fn numbered() -> Option<Key> {
    Some(Key {
        seq: Some(5),
        id: "item_5".to_string(),
    })
}

fn unnumbered() -> Option<Key> {
    Some(Key {
        seq: None,
        id: "item_5".to_string(),
    })
}

#[test]
fn the_first_page_has_no_cursor() {
    let statement = page(None, ItemOrder::Desc);
    assert_eq!(
        statement.sql(),
        format!("SELECT items.* {FROM} ORDER BY items.seq DESC NULLS LAST, items.id DESC LIMIT $3")
    );
    assert_eq!(binds(&statement), ["text conv", "text tenant", "integer 20"]);

    let statement = page(None, ItemOrder::Asc);
    assert_eq!(
        statement.sql(),
        format!("SELECT items.* {FROM} ORDER BY items.seq ASC NULLS FIRST, items.id ASC LIMIT $3")
    );
}

#[test]
fn a_cursor_is_resolved_within_its_conversation() {
    let step = list_for_conversation("tenant", "conv", 20, Some("item_5"), ItemOrder::Desc);
    match step {
        ListStep::FindCursor(statement) => {
            assert_eq!(
                statement.sql(),
                format!("SELECT items.seq, items.id {FROM} AND items.id = $3")
            );
            assert_eq!(
                binds(&statement),
                ["text conv", "text tenant", "text item_5"]
            );
        }
        other => panic!("expected a lookup, got {other:?}"),
    }
}

#[test]
fn an_unknown_cursor_is_not_found() {
    for order in [ItemOrder::Asc, ItemOrder::Desc] {
        assert!(matches!(
            list_after_cursor("tenant", "conv", 20, None, order),
            ListStep::CursorNotFound
        ));
    }
}

#[test]
fn a_descending_page_continues_below_a_numbered_cursor() {
    let statement = page(numbered(), ItemOrder::Desc);
    assert_eq!(
        statement.sql(),
        format!(
            "SELECT items.* {FROM} \
             AND ((items.seq < $3) OR (items.seq = $3 AND items.id < $4) OR items.seq IS NULL) \
             ORDER BY items.seq DESC NULLS LAST, items.id DESC LIMIT $5"
        )
    );
    assert_eq!(
        binds(&statement),
        [
            "text conv",
            "text tenant",
            "integer 5",
            "text item_5",
            "integer 20"
        ]
    );
}

#[test]
fn an_ascending_page_continues_above_a_numbered_cursor() {
    let statement = page(numbered(), ItemOrder::Asc);
    assert_eq!(
        statement.sql(),
        format!(
            "SELECT items.* {FROM} \
             AND ((items.seq > $3) OR (items.seq = $3 AND items.id > $4)) \
             ORDER BY items.seq ASC NULLS FIRST, items.id ASC LIMIT $5"
        )
    );
}

#[test]
fn a_descending_page_continues_below_an_unnumbered_cursor() {
    let statement = page(unnumbered(), ItemOrder::Desc);
    assert_eq!(
        statement.sql(),
        format!(
            "SELECT items.* {FROM} AND items.seq IS NULL AND items.id < $3 \
             ORDER BY items.seq DESC NULLS LAST, items.id DESC LIMIT $4"
        )
    );
    assert_eq!(
        binds(&statement),
        ["text conv", "text tenant", "text item_5", "integer 20"]
    );
}

#[test]
fn an_ascending_page_continues_above_an_unnumbered_cursor() {
    let statement = page(unnumbered(), ItemOrder::Asc);
    assert_eq!(
        statement.sql(),
        format!(
            "SELECT items.* {FROM} \
             AND (items.seq IS NOT NULL OR (items.seq IS NULL AND items.id > $3)) \
             ORDER BY items.seq ASC NULLS FIRST, items.id ASC LIMIT $4"
        )
    );
}

#[test]
fn an_item_is_read_through_its_conversation() {
    let statement = get_for_conversation("tenant", "conv", "item_9");
    assert_eq!(
        statement.sql(),
        format!("SELECT items.* {FROM} AND items.id = $3")
    );
    assert_eq!(
        binds(&statement),
        ["text conv", "text tenant", "text item_9"]
    );
}

#[test]
fn detaching_names_one_item_or_none() {
    let sql = "UPDATE items SET conversation_id = NULL, seq = NULL \
               WHERE conversation_id = $1 AND (CAST($2 AS TEXT) IS NULL OR id = $2)";
    let one = detach_from_conversation_in_tx("conv", Some("item_9"));
    assert_eq!(one.sql(), sql);
    assert_eq!(binds(&one), ["text conv", "optional item_9"]);

    let all = detach_from_conversation_in_tx("conv", None);
    assert_eq!(all.sql(), sql);
    assert_eq!(binds(&all), ["text conv", "null"]);
}
