use agentic_server::types::conversations::{
    ConversationItem, ConversationResponse, DeletedResponse, ItemResponse, ListItemsResponse,
};
use agentic_server::types::io::{InputItem, OutputItem};
use serde_json::Value;

fn object(key: &str, value: &str) -> Value {
    let mut members = serde_json::Map::new();
    members.insert(key.to_string(), Value::from(value));
    Value::Object(members)
}

#[test]
fn test_conversation_response_new() {
    let resp = ConversationResponse::new(
        "conv_123".to_string(),
        1704067200,
        Some(object("user", "alice")),
    );

    assert_eq!(resp.id, "conv_123");
    assert_eq!(resp.object, "conversation");
    assert_eq!(resp.created_at, 1704067200);
    assert_eq!(resp.metadata, object("user", "alice"));
}

#[test]
fn test_conversation_response_null_metadata() {
    let resp = ConversationResponse::new("conv_123".to_string(), 1704067200, None);

    assert_eq!(resp.metadata, Value::Null);
}

#[test]
fn test_list_items_response_ids() {
    let items = vec![
        ItemResponse {
            id: "item_1".to_string(),
            object: "conversation.item".to_string(),
            created_at: 1704067200,
            item: ConversationItem::Input(InputItem::Unknown),
        },
        ItemResponse {
            id: "item_2".to_string(),
            object: "conversation.item".to_string(),
            created_at: 1704067300,
            item: ConversationItem::Input(InputItem::Unknown),
        },
    ];

    let resp = ListItemsResponse::new(items, false);

    assert_eq!(resp.object, "list");
    assert_eq!(resp.first_id, Some("item_1".to_string()));
    assert_eq!(resp.last_id, Some("item_2".to_string()));
    assert!(!resp.has_more);
}

#[test]
fn test_deleted_response_conversation() {
    let resp = DeletedResponse::conversation("conv_123".to_string());

    assert_eq!(resp.id, "conv_123");
    assert_eq!(resp.object, "conversation.deleted");
    assert!(resp.deleted);
}

#[test]
fn test_deleted_response_item() {
    let resp = DeletedResponse::item("item_123".to_string());

    assert_eq!(resp.id, "item_123");
    assert_eq!(resp.object, "conversation.item.deleted");
    assert!(resp.deleted);
}

#[test]
fn an_empty_list_has_no_ids() {
    let resp = ListItemsResponse::new(Vec::new(), true);

    assert_eq!(resp.first_id, None);
    assert_eq!(resp.last_id, None);
    assert!(resp.data.is_empty());
    assert!(resp.has_more);
}

#[test]
fn a_list_of_one_item_starts_and_ends_with_it() {
    let item = ItemResponse::new(
        "item_7".to_string(),
        9,
        ConversationItem::Output(OutputItem::Document(object("type", "message"))),
    );
    let resp = ListItemsResponse::new(vec![item], false);

    assert_eq!(resp.first_id, Some("item_7".to_string()));
    assert_eq!(resp.last_id, Some("item_7".to_string()));
    assert_eq!(resp.data.len(), 1);
}

#[test]
fn an_item_response_carries_its_item() {
    let item = ConversationItem::Input(InputItem::Document(object("role", "user")));
    let resp = ItemResponse::new("item_123".to_string(), 1704067200, item.clone());

    assert_eq!(resp.id, "item_123");
    assert_eq!(resp.object, "conversation.item");
    assert_eq!(resp.created_at, 1704067200);
    assert_eq!(resp.item, item);
}
