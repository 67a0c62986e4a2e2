//! Decisions behind the conversation item endpoints.
//!
//! Each endpoint first needs the tenant of the request, and gives up with the
//! error that came in its place. `E` is whatever the transport answers errors
//! with.

use vstd::prelude::*;

use crate::text;
use crate::types::conversations::{
    ConversationItem, CreateItemRequest, ItemResponse, ListItemsResponse,
};

verus! {

/// Query parameters for listing conversation items.
#[derive(Debug)]
pub struct ListItemsQuery {
    /// Maximum number of items to return (default: 20, max: 100).
    pub limit: i64,
    /// Cursor for pagination (item ID to start after).
    pub after: Option<String>,
    /// Sort order for items (default: desc). Ascending order is oldest-first.
    pub order: String,
    /// Additional data to send along in the response. Currently unsupported - will return error if specified.
    pub included: Option<Vec<String>>,
}

pub fn default_limit() -> (limit: i64)
    ensures
        limit == 20,
{
    20
}

pub fn default_order() -> (order: String)
    ensures
        order@ == "desc"@,
{
    "desc".to_owned()
}

/// Why the parameters of a listing are refused.
#[derive(Debug, Clone, Copy, PartialEq, Eq, Structural)]
pub enum ListItemsRejection {
    Limit,
    Order,
    Include,
}

impl ListItemsRejection {
    /// HTTP status of the answer.
    pub fn status(self) -> (status: u16)
        ensures
            status == 400,
    {
        400
    }

    /// Error code of the answer.
    pub fn code(self) -> (code: &'static str)
        ensures
            code@ == "invalid_request"@,
    {
        "invalid_request"
    }

    /// Error message of the answer.
    pub fn message(self) -> (message: &'static str)
        ensures
            message@ == match self {
                ListItemsRejection::Limit => "limit must be between 1 and 100"@,
                ListItemsRejection::Order => "order must be 'asc' or 'desc'"@,
                ListItemsRejection::Include => "include parameter is not currently supported"@,
            },
    {
        match self {
            ListItemsRejection::Limit => "limit must be between 1 and 100",
            ListItemsRejection::Order => "order must be 'asc' or 'desc'",
            ListItemsRejection::Include => "include parameter is not currently supported",
        }
    }
}

impl ListItemsQuery {
    /// Whether this is the query of a request with these parameters.
    pub open spec fn carries(
        self,
        limit: Option<i64>,
        after: Option<String>,
        order: Option<String>,
        included: Option<Vec<String>>,
    ) -> bool {
        &&& self.limit == match limit {
            Some(limit) => limit,
            None => 20,
        }
        &&& self.after == after
        &&& match order {
            Some(order) => self.order == order,
            None => self.order@ == "desc"@,
        }
        &&& self.included == included
    }

    /// The query of a request with these parameters: those left out take their defaults.
    pub fn from_params(
        limit: Option<i64>,
        after: Option<String>,
        order: Option<String>,
        included: Option<Vec<String>>,
    ) -> (query: Self)
        ensures
            query.carries(limit, after, order, included),
            limit matches Some(limit) ==> query.limit == limit,
            limit is None ==> query.limit == 20,
            query.after == after,
            order matches Some(order) ==> query.order == order,
            order is None ==> query.order@ == "desc"@,
            query.included == included,
    {
        ListItemsQuery {
            limit: match limit {
                Some(limit) => limit,
                None => default_limit(),
            },
            after,
            order: match order {
                Some(order) => order,
                None => default_order(),
            },
            included,
        }
    }

    pub open spec fn has_valid_limit(self) -> bool {
        1 <= self.limit <= 100
    }

    pub open spec fn has_valid_order(self) -> bool {
        self.order@ == "asc"@ || self.order@ == "desc"@
    }

    /// Whether additional data is specified, be it none.
    pub open spec fn specifies_inclusions(self) -> bool {
        self.included is Some
    }

    /// The first reason to refuse the query, if any.
    pub open spec fn rejection(self) -> Option<ListItemsRejection> {
        if !self.has_valid_limit() {
            Some(ListItemsRejection::Limit)
        } else if !self.has_valid_order() {
            Some(ListItemsRejection::Order)
        } else if self.specifies_inclusions() {
            Some(ListItemsRejection::Include)
        } else {
            None
        }
    }

    /// Check the parameters: the limit, then the order, then unsupported inclusions.
    pub fn validate(&self) -> (rejection: Option<ListItemsRejection>)
        ensures
            rejection == self.rejection(),
            rejection == Some(ListItemsRejection::Limit) <==> self.limit < 1 || self.limit > 100,
            rejection == Some(ListItemsRejection::Order) <==> 1 <= self.limit <= 100 && self.order@
                != "asc"@ && self.order@ != "desc"@,
            rejection == Some(ListItemsRejection::Include) <==> 1 <= self.limit <= 100 && (
            self.order@ == "asc"@ || self.order@ == "desc"@) && self.included is Some,
    {
        if self.limit < 1 || self.limit > 100 {
            return Some(ListItemsRejection::Limit);
        }
        if !text::same(self.order.as_str(), "asc") && !text::same(self.order.as_str(), "desc") {
            return Some(ListItemsRejection::Order);
        }
        match &self.included {
            Some(_) => Some(ListItemsRejection::Include),
            None => None,
        }
    }
}

/// A listing to carry out.
#[derive(Debug)]
pub struct ListItemsCall {
    pub tenant_id: String,
    pub conversation_id: String,
    pub limit: i64,
    pub after: Option<String>,
    pub order: String,
}

/// What the listing endpoint does.
#[derive(Debug)]
pub enum ListItemsStep<E> {
    /// Answer with the error found in place of the tenant.
    Refuse(E),
    /// Answer that the parameters are not accepted.
    Reject(ListItemsRejection),
    /// List the items, and answer with what comes back.
    List(ListItemsCall),
}

/// List the items of a conversation.
pub fn list_items<E>(
    tenant: Result<String, E>,
    conversation_id: String,
    query: ListItemsQuery,
) -> (step: ListItemsStep<E>)
    ensures
        step == match tenant {
            Err(error) => ListItemsStep::Refuse(error),
            Ok(tenant_id) => match query.rejection() {
                Some(rejection) => ListItemsStep::Reject(rejection),
                None => ListItemsStep::List(
                    ListItemsCall {
                        tenant_id,
                        conversation_id,
                        limit: query.limit,
                        after: query.after,
                        order: query.order,
                    },
                ),
            },
        },
        step is List <==> tenant is Ok && 1 <= query.limit <= 100 && (query.order@ == "asc"@
            || query.order@ == "desc"@) && query.included is None,
        step matches ListItemsStep::Reject(rejection) ==> match rejection {
            ListItemsRejection::Limit => query.limit < 1 || query.limit > 100,
            ListItemsRejection::Order => 1 <= query.limit <= 100 && query.order@ != "asc"@
                && query.order@ != "desc"@,
            ListItemsRejection::Include => 1 <= query.limit <= 100 && (query.order@ == "asc"@
                || query.order@ == "desc"@) && query.included is Some,
        },
{
    let tenant_id = match tenant {
        Ok(id) => id,
        Err(error) => return ListItemsStep::Refuse(error),
    };
    match query.validate() {
        Some(rejection) => ListItemsStep::Reject(rejection),
        None => ListItemsStep::List(
            ListItemsCall {
                tenant_id,
                conversation_id,
                limit: query.limit,
                after: query.after,
                order: query.order,
            },
        ),
    }
}

/// An item of a conversation, to be retrieved or deleted.
#[derive(Debug)]
pub struct ItemCall {
    pub tenant_id: String,
    pub conversation_id: String,
    pub item_id: String,
}

/// Retrieve an item of a conversation.
pub fn retrieve_item<E>(tenant: Result<String, E>, conversation_id: String, item_id: String) -> (call:
    Result<ItemCall, E>)
    ensures
        call == match tenant {
            Ok(tenant_id) => Ok(ItemCall { tenant_id, conversation_id, item_id }),
            Err(error) => Err(error),
        },
{
    match tenant {
        Ok(tenant_id) => Ok(ItemCall { tenant_id, conversation_id, item_id }),
        Err(error) => Err(error),
    }
}

/// Delete an item of a conversation.
pub fn delete_item<E>(tenant: Result<String, E>, conversation_id: String, item_id: String) -> (call:
    Result<ItemCall, E>)
    ensures
        call == match tenant {
            Ok(tenant_id) => Ok(ItemCall { tenant_id, conversation_id, item_id }),
            Err(error) => Err(error),
        },
{
    match tenant {
        Ok(tenant_id) => Ok(ItemCall { tenant_id, conversation_id, item_id }),
        Err(error) => Err(error),
    }
}

/// Items to create.
#[derive(Debug)]
pub struct CreateItemsCall {
    pub tenant_id: String,
    pub conversation_id: String,
    pub items: Vec<ConversationItem>,
}

/// A creation whose tenant is known and whose body is still to be read.
#[derive(Debug)]
pub struct PendingItem {
    pub tenant_id: String,
    pub conversation_id: String,
}

/// Create an item in a conversation.
///
/// The body is read only once the tenant is known; [`PendingItem::parsed`] goes
/// on from there.
pub fn create_item<E>(tenant: Result<String, E>, conversation_id: String) -> (pending: Result<
    PendingItem,
    E,
>)
    ensures
        pending == match tenant {
            Ok(tenant_id) => Ok(PendingItem { tenant_id, conversation_id }),
            Err(error) => Err(error),
        },
{
    match tenant {
        Ok(tenant_id) => Ok(PendingItem { tenant_id, conversation_id }),
        Err(error) => Err(error),
    }
}

impl PendingItem {
    /// Go on once the body has been read and parsed, or one of these has failed.
    pub fn parsed<E>(self, request: Result<CreateItemRequest, E>) -> (call: Result<
        CreateItemsCall,
        E,
    >)
        ensures
            match request {
                Ok(request) => call matches Ok(call) && call.tenant_id == self.tenant_id
                    && call.conversation_id == self.conversation_id && call.items@ == seq![
                    request.item,
                ],
                Err(error) => call == Err::<CreateItemsCall, E>(error),
            },
    {
        match request {
            Ok(request) => {
                let mut items = Vec::new();
                items.push(request.item);
                Ok(
                    CreateItemsCall {
                        tenant_id: self.tenant_id,
                        conversation_id: self.conversation_id,
                        items,
                    },
                )
            },
            Err(error) => Err(error),
        }
    }
}

/// Answer a creation: the created items as a complete list, or the error.
pub fn items_created<E>(created: Result<Vec<ItemResponse>, E>) -> (response: Result<
    ListItemsResponse,
    E,
>)
    ensures
        match created {
            Ok(items) => response matches Ok(response) && response.frames(items@, false)
                && response.object@ == "list"@ && response.data@ == items@ && !response.has_more && (
            items@.len() == 0 ==> response.first_id is None && response.last_id is None) && (
            items@.len() > 0 ==> response.first_id == Some(items@[0].id) && response.last_id == Some(
                items@[items@.len() - 1].id,
            )),
            Err(error) => response == Err::<ListItemsResponse, E>(error),
        },
{
    match created {
        Ok(items) => Ok(ListItemsResponse::new(items, false)),
        Err(error) => Err(error),
    }
}

/// A parameter that is left out is never what a query is refused for: each
/// refusal names a parameter that was given a value of no use.
pub proof fn only_given_parameters_are_refused(
    query: ListItemsQuery,
    limit: Option<i64>,
    after: Option<String>,
    order: Option<String>,
    included: Option<Vec<String>>,
)
    requires
        query.carries(limit, after, order, included),
    ensures
        query.rejection() == Some(ListItemsRejection::Limit) ==> limit is Some && !(1 <= limit->0
            <= 100),
        query.rejection() == Some(ListItemsRejection::Order) ==> order is Some && order->0@
            != "asc"@ && order->0@ != "desc"@,
        query.rejection() == Some(ListItemsRejection::Include) ==> included is Some,
{
}

/// A query is refused for the first fault in it: for its limit whenever that is
/// not from 1 to 100, for its order where only that and later faults are left,
/// and for additional data where nothing else is wrong.
pub proof fn queries_are_refused_for_their_first_fault(query: ListItemsQuery)
    ensures
        query.rejection() == Some(ListItemsRejection::Limit) <==> query.limit < 1 || query.limit
            > 100,
        query.rejection() == Some(ListItemsRejection::Order) <==> 1 <= query.limit <= 100
            && query.order@ != "asc"@ && query.order@ != "desc"@,
        query.rejection() == Some(ListItemsRejection::Include) <==> 1 <= query.limit <= 100 && (
        query.order@ == "asc"@ || query.order@ == "desc"@) && query.included is Some,
{
}

/// A parameter that is given stands as it is, and one that is left out as its
/// default: a limit of 20, newest first, and no cursor.
pub proof fn parameters_left_out_take_their_defaults(
    query: ListItemsQuery,
    limit: Option<i64>,
    after: Option<String>,
    order: Option<String>,
    included: Option<Vec<String>>,
)
    requires
        query.carries(limit, after, order, included),
    ensures
        limit is None ==> query.limit == 20,
        limit is Some ==> Some(query.limit) == limit,
        order is None ==> query.order@ == "desc"@,
        order is Some ==> Some(query.order) == order,
        query.after == after,
        query.included == included,
{
}

/// The accepted queries are those with a limit from 1 to 100, an order that is
/// `asc` or `desc`, and no additional data specified.
pub proof fn accepted_queries_are_the_valid_ones(query: ListItemsQuery)
    ensures
        query.rejection() is None <==> {
            &&& 1 <= query.limit <= 100
            &&& query.order@ == "asc"@ || query.order@ == "desc"@
            &&& query.included is None
        },
{
}

} // verus!
