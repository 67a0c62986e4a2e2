//! Types for the OpenAI-compatible Conversations API.

use vstd::prelude::*;

use serde_json::Value;

use super::io::{InputItem, OutputItem};

verus! {

/// Order in which the items of a conversation are listed.
#[derive(Debug, Clone, Copy, PartialEq, Eq, Structural)]
pub enum ItemOrder {
    /// Oldest first.
    Asc,
    /// Newest first.
    Desc,
}

/// Any JSON value, carried as it is.
#[verifier::external_type_specification]
#[verifier::external_body]
pub struct ExValue(serde_json::Value);

/// What a JSON value holds, as compact JSON text.
pub uninterp spec fn json_text(value: serde_json::Value) -> Seq<char>;

/// `Value::default` gives the JSON value `null`.
pub assume_specification[ <serde_json::Value as Default>::default ]() -> (value: serde_json::Value)
    ensures
        json_text(value) == "null"@,
;

/// `Value::clone` gives an equal JSON value.
pub assume_specification[ <serde_json::Value as Clone>::clone ](value: &serde_json::Value) -> (copy:
    serde_json::Value)
    ensures
        copy == *value,
;

/// Request to create a new conversation.
#[derive(Debug, Clone)]
pub struct CreateConversationRequest {
    /// Optional metadata as a JSON object.
    pub metadata: Option<Value>,
    /// Optional initial items to add to the conversation.
    pub items: Option<Vec<ConversationItem>>,
}

/// Request to update a conversation's metadata.
#[derive(Debug, Clone)]
pub struct UpdateConversationRequest {
    /// Metadata as a JSON object.
    pub metadata: Value,
}

/// Response for a conversation resource.
#[derive(Debug, Clone)]
pub struct ConversationResponse {
    /// Unique conversation identifier.
    pub id: String,
    /// Object type, always "conversation".
    pub object: String,
    /// Creation timestamp as Unix timestamp in seconds.
    pub created_at: i64,
    /// Metadata as a JSON object.
    pub metadata: Value,
}

/// Request to create a new item in a conversation.
#[derive(Debug, Clone)]
pub struct CreateItemRequest {
    /// The item to add (input or output).
    pub item: ConversationItem,
}

/// Response for listing items with pagination.
#[derive(Debug, Clone)]
pub struct ListItemsResponse {
    /// Object type, always "list".
    pub object: String,
    /// Array of conversation items.
    pub data: Vec<ItemResponse>,
    /// Whether there are more items available.
    pub has_more: bool,
    /// ID of the first item in this page.
    pub first_id: Option<String>,
    /// ID of the last item in this page.
    pub last_id: Option<String>,
}

/// Response for a single conversation item.
#[derive(Debug, Clone)]
pub struct ItemResponse {
    /// Unique item identifier.
    pub id: String,
    /// Object type, always "conversation.item".
    pub object: String,
    /// Creation timestamp as Unix timestamp in seconds.
    pub created_at: i64,
    /// The item content (input or output).
    pub item: ConversationItem,
}

/// A conversation item (input or output).
#[derive(Debug, Clone, PartialEq, Eq)]
pub enum ConversationItem {
    /// Input item (message, tool call, etc.).
    Input(InputItem),
    /// Output item (message, tool result, etc.).
    Output(OutputItem),
}

/// Response for successful deletion.
#[derive(Debug, Clone)]
pub struct DeletedResponse {
    /// ID of the deleted resource.
    pub id: String,
    /// Object type.
    pub object: String,
    /// Whether the deletion was successful.
    pub deleted: bool,
}

impl ConversationResponse {
    /// Create a new conversation response.
    #[must_use]
    pub fn new(id: String, created_at: i64, metadata: Option<Value>) -> (response: Self)
        ensures
            response.id == id,
            response.object@ == "conversation"@,
            response.created_at == created_at,
            match metadata {
                Some(document) => response.metadata == document,
                None => json_text(response.metadata) == "null"@,
            },
    {
        ConversationResponse {
            id,
            object: "conversation".to_owned(),
            created_at,
            metadata: metadata.unwrap_or_default(),
        }
    }
}

impl ItemResponse {
    /// Create a new item response.
    #[must_use]
    pub fn new(id: String, created_at: i64, item: ConversationItem) -> (response: Self)
        ensures
            response.id == id,
            response.object@ == "conversation.item"@,
            response.created_at == created_at,
            response.item == item,
    {
        ItemResponse { id, object: "conversation.item".to_owned(), created_at, item }
    }
}

impl ListItemsResponse {
    /// Whether the response frames a page of items.
    pub open spec fn frames(self, data: Seq<ItemResponse>, has_more: bool) -> bool {
        &&& self.object@ == "list"@
        &&& self.data@ == data
        &&& self.has_more == has_more
        &&& self.first_id == if data.len() > 0 {
            Some(data.first().id)
        } else {
            None
        }
        &&& self.last_id == if data.len() > 0 {
            Some(data.last().id)
        } else {
            None
        }
    }

    /// Create a new list response.
    #[must_use]
    pub fn new(data: Vec<ItemResponse>, has_more: bool) -> (response: Self)
        ensures
            response.frames(data@, has_more),
            response.object@ == "list"@,
            response.data@ == data@,
            response.has_more == has_more,
            data@.len() == 0 ==> response.first_id is None && response.last_id is None,
            data@.len() > 0 ==> response.first_id == Some(data@[0].id) && response.last_id == Some(
                data@[data@.len() - 1].id,
            ),
    {
        let (first_id, last_id) = if data.len() > 0 {
            (Some(data[0].id.clone()), Some(data[data.len() - 1].id.clone()))
        } else {
            (None, None)
        };
        ListItemsResponse { object: "list".to_owned(), data, has_more, first_id, last_id }
    }
}

/// A list says where it starts and ends: its first identifier is that of the
/// item with no item before it, its last one that of the item with no item after
/// it, and an empty list has neither.
pub proof fn list_tells_where_it_starts_and_ends(
    response: ListItemsResponse,
    data: Seq<ItemResponse>,
    has_more: bool,
)
    requires
        response.frames(data, has_more),
    ensures
        response.object@ == "list"@,
        response.data@ == data,
        response.has_more == has_more,
        response.first_id is Some <==> data.len() > 0,
        response.last_id is Some <==> data.len() > 0,
        data.len() > 0 ==> response.first_id == Some(data[0].id),
        data.len() > 0 ==> response.last_id == Some(data[data.len() - 1].id),
{
}

/// A list that goes on with further items ends where those end, and still starts
/// where it started.
pub proof fn lists_join_from_first_to_last(
    head: ListItemsResponse,
    tail: ListItemsResponse,
    joined: ListItemsResponse,
    head_data: Seq<ItemResponse>,
    tail_data: Seq<ItemResponse>,
    has_more: bool,
)
    requires
        head.frames(head_data, true),
        tail.frames(tail_data, has_more),
        joined.frames(head_data + tail_data, has_more),
    ensures
        joined.first_id == if head_data.len() > 0 {
            head.first_id
        } else {
            tail.first_id
        },
        joined.last_id == if tail_data.len() > 0 {
            tail.last_id
        } else {
            head.last_id
        },
        joined.has_more == tail.has_more,
        joined.data@ == head.data@ + tail.data@,
{
    if tail_data.len() == 0 {
        assert(head_data + tail_data =~= head_data);
    }
    if head_data.len() == 0 {
        assert(head_data + tail_data =~= tail_data);
    }
}

/// Continuing after the last identifier repeats no item of the list: where items
/// have identifiers of their own, no item before the last has it.
pub proof fn continuing_after_a_list_repeats_nothing(
    response: ListItemsResponse,
    data: Seq<ItemResponse>,
    has_more: bool,
    i: int,
)
    requires
        response.frames(data, has_more),
        forall|i: int, j: int|
            0 <= i < j < data.len() ==> (#[trigger] data[i]).id != (#[trigger] data[j]).id,
        0 <= i < data.len(),
    ensures
        response.last_id == Some(data[i].id) <==> i == data.len() - 1,
        response.first_id == Some(data[i].id) <==> i == 0,
{
}

impl DeletedResponse {
    /// Create a deleted conversation response.
    #[must_use]
    pub fn conversation(id: String) -> (response: Self)
        ensures
            response.id == id,
            response.object@ == "conversation.deleted"@,
            response.deleted,
    {
        DeletedResponse { id, object: "conversation.deleted".to_owned(), deleted: true }
    }

    /// Create a deleted item response.
    #[must_use]
    pub fn item(id: String) -> (response: Self)
        ensures
            response.id == id,
            response.object@ == "conversation.item.deleted"@,
            response.deleted,
    {
        DeletedResponse { id, object: "conversation.item.deleted".to_owned(), deleted: true }
    }
}

} // verus!
