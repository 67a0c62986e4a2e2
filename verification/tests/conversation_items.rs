use agentic_server::handler::conversation_items::{
    create_item, default_limit, default_order, delete_item, items_created, list_items,
    retrieve_item, ListItemsQuery, ListItemsRejection, ListItemsStep,
};
use agentic_server::types::conversations::{ConversationItem, CreateItemRequest, ItemResponse};
use agentic_server::types::io::InputItem;

fn query(limit: i64, order: &str, included: Option<Vec<String>>) -> ListItemsQuery {
    ListItemsQuery {
        limit,
        after: Some("item_3".to_string()),
        order: order.to_string(),
        included,
    }
}

fn step(query: ListItemsQuery) -> ListItemsStep<u8> {
    list_items(Ok("tenant".to_string()), "conv".to_string(), query)
}

fn rejection(query: ListItemsQuery) -> Option<ListItemsRejection> {
    match step(query) {
        ListItemsStep::Reject(rejection) => Some(rejection),
        ListItemsStep::List(_) => None,
        ListItemsStep::Refuse(error) => panic!("unexpected refusal {error}"),
    }
}

#[test]
fn defaults_are_documented_values() {
    assert_eq!(default_limit(), 20);
    assert_eq!(default_order(), "desc");
    let query = ListItemsQuery::from_params(None, None, None, None);
    assert_eq!(query.limit, 20);
    assert_eq!(query.order, "desc");
    assert_eq!(query.after, None);
    assert_eq!(query.included, None);
    assert_eq!(rejection(query), None);
}

#[test]
fn given_parameters_replace_the_defaults() {
    let query = ListItemsQuery::from_params(
        Some(7),
        Some("item_1".to_string()),
        Some("asc".to_string()),
        Some(Vec::new()),
    );
    assert_eq!(query.limit, 7);
    assert_eq!(query.order, "asc");
    assert_eq!(query.after.as_deref(), Some("item_1"));
    assert_eq!(query.included, Some(Vec::new()));
    assert_eq!(rejection(query), Some(ListItemsRejection::Include));
}

#[test]
fn the_limit_is_bounded() {
    for limit in [i64::MIN, -1, 0, 101, i64::MAX] {
        assert_eq!(
            rejection(query(limit, "asc", None)),
            Some(ListItemsRejection::Limit)
        );
    }
    for limit in [1, 50, 100] {
        assert_eq!(rejection(query(limit, "asc", None)), None);
    }
}

#[test]
fn the_order_is_one_of_two() {
    assert_eq!(rejection(query(1, "desc", None)), None);
    for order in ["", "ASC", "descending", "asc "] {
        assert_eq!(
            rejection(query(1, order, None)),
            Some(ListItemsRejection::Order)
        );
    }
}

#[test]
fn nothing_can_be_sent_along() {
    assert_eq!(rejection(query(1, "asc", None)), None);
    assert_eq!(
        rejection(query(1, "asc", Some(Vec::new()))),
        Some(ListItemsRejection::Include)
    );
    assert_eq!(
        rejection(query(1, "asc", Some(vec!["usage".to_string()]))),
        Some(ListItemsRejection::Include)
    );
}

#[test]
fn the_first_fault_is_reported() {
    let everything = Some(vec!["usage".to_string()]);
    assert_eq!(
        rejection(query(0, "up", everything.clone())),
        Some(ListItemsRejection::Limit)
    );
    assert_eq!(
        rejection(query(1, "up", everything)),
        Some(ListItemsRejection::Order)
    );
    let refused = list_items(Err(7u8), "conv".to_string(), query(0, "up", None));
    assert!(matches!(refused, ListItemsStep::Refuse(7)));
}

#[test]
fn rejections_are_bad_requests() {
    for (rejection, message) in [
        (ListItemsRejection::Limit, "limit must be between 1 and 100"),
        (ListItemsRejection::Order, "order must be 'asc' or 'desc'"),
        (
            ListItemsRejection::Include,
            "include parameter is not currently supported",
        ),
    ] {
        assert_eq!(rejection.status(), 400);
        assert_eq!(rejection.code(), "invalid_request");
        assert_eq!(rejection.message(), message);
    }
}

#[test]
fn an_accepted_listing_keeps_its_parameters() {
    match step(query(30, "asc", None)) {
        ListItemsStep::List(call) => {
            assert_eq!(call.tenant_id, "tenant");
            assert_eq!(call.conversation_id, "conv");
            assert_eq!(call.limit, 30);
            assert_eq!(call.after.as_deref(), Some("item_3"));
            assert_eq!(call.order, "asc");
        }
        other => panic!("expected a listing, got {other:?}"),
    }
}

#[test]
fn single_items_need_a_tenant() {
    let call = retrieve_item::<u8>(
        Ok("tenant".to_string()),
        "conv".to_string(),
        "item".to_string(),
    )
    .unwrap();
    assert_eq!(call.tenant_id, "tenant");
    assert_eq!(call.conversation_id, "conv");
    assert_eq!(call.item_id, "item");
    assert_eq!(
        retrieve_item(Err(3u8), "conv".to_string(), "item".to_string()).unwrap_err(),
        3
    );

    let call = delete_item::<u8>(
        Ok("tenant".to_string()),
        "conv".to_string(),
        "item".to_string(),
    )
    .unwrap();
    assert_eq!(call.item_id, "item");
    assert_eq!(
        delete_item(Err(4u8), "conv".to_string(), "item".to_string()).unwrap_err(),
        4
    );
}

#[test]
fn an_item_is_created_once_its_body_is_parsed() {
    assert_eq!(create_item(Err(5u8), "conv".to_string()).unwrap_err(), 5);

    let pending = create_item::<u8>(Ok("tenant".to_string()), "conv".to_string()).unwrap();
    assert_eq!(pending.parsed(Err(6u8)).unwrap_err(), 6);

    let item = ConversationItem::Input(InputItem::Unknown);
    let pending = create_item::<u8>(Ok("tenant".to_string()), "conv".to_string()).unwrap();
    let call = pending
        .parsed::<u8>(Ok(CreateItemRequest { item: item.clone() }))
        .unwrap();
    assert_eq!(call.tenant_id, "tenant");
    assert_eq!(call.conversation_id, "conv");
    assert_eq!(call.items, vec![item]);
}

#[test]
fn created_items_are_answered_as_a_complete_list() {
    let item = ItemResponse::new(
        "item_1".to_string(),
        1,
        ConversationItem::Input(InputItem::Unknown),
    );
    let response = items_created::<u8>(Ok(vec![item])).unwrap();
    assert_eq!(response.object, "list");
    assert!(!response.has_more);
    assert_eq!(response.first_id.as_deref(), Some("item_1"));
    assert_eq!(items_created(Err(8u8)).unwrap_err(), 8);
}
