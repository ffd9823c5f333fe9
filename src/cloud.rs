//! Requests to the remote control plane, which go through a local worker's
//! channel under four fixed actions, and the reading of its session list.
use vstd::prelude::*;
use crate::channel::{json_member, json_member_of, ChannelError, Envelope, Param, Response};

verus! {

/// One of the four queries the remote control plane answers.
#[derive(Debug, Clone)]
pub enum CloudQuery {
    /// List the remote sessions.
    List,
    /// Details of the remote session with this id.
    Info(String),
    /// Stop the remote session with this id.
    Stop(String),
    /// Debug connection URLs of the remote session with this id.
    Debug(String),
}

/// Action name of a query.
pub open spec fn cloud_action(q: CloudQuery) -> Seq<char> {
    match q {
        CloudQuery::List => "bb_session_list"@,
        CloudQuery::Info(_) => "bb_session_get"@,
        CloudQuery::Stop(_) => "bb_session_stop"@,
        CloudQuery::Debug(_) => "bb_session_debug"@,
    }
}

/// The remote session a query names, if any.
pub open spec fn cloud_target(q: CloudQuery) -> Option<String> {
    match q {
        CloudQuery::List => None,
        CloudQuery::Info(id) => Some(id),
        CloudQuery::Stop(id) => Some(id),
        CloudQuery::Debug(id) => Some(id),
    }
}

/// The items of a JSON array; `None` for any other value.
pub uninterp spec fn json_items_of(v: serde_json::Value) -> Option<Seq<serde_json::Value>>;

/// The remote sessions that a successful reply's payload `data` lists: the
/// items of its `sessions` array, or none.
pub open spec fn listed_sessions(data: serde_json::Value) -> Seq<serde_json::Value> {
    match json_member_of(data, "sessions"@) {
        Some(list) => match json_items_of(list) {
            Some(items) => items,
            None => seq![],
        },
        None => seq![],
    }
}

/// Relies on serde_json::Value::as_array, with the items copied: the items
/// of a JSON array.
#[verifier::external_body]
fn json_items(v: &serde_json::Value) -> (r: Option<Vec<serde_json::Value>>)
    ensures
        json_items_of(*v) == match r {
            Some(items) => Some(items@),
            None => None,
        },
{
    v.as_array().cloned()
}

/// The request, with correlation id `id`, that carries query `q`: its action
/// name, and the remote session's id under `sessionId` when it names one.
pub fn cloud_request(id: String, q: CloudQuery) -> (r: Envelope)
    ensures
        r.id == id,
        r.action@ == cloud_action(q),
        cloud_target(q) is None ==> r.params@.len() == 0,
        cloud_target(q) is Some ==> {
            &&& r.params@.len() == 1
            &&& r.params@[0].0@ == "sessionId"@
            &&& r.params@[0].1 == Param::Text(cloud_target(q)->Some_0)
        },
{
    let (action, target) = match q {
        CloudQuery::List => ("bb_session_list".to_owned(), None),
        CloudQuery::Info(s) => ("bb_session_get".to_owned(), Some(s)),
        CloudQuery::Stop(s) => ("bb_session_stop".to_owned(), Some(s)),
        CloudQuery::Debug(s) => ("bb_session_debug".to_owned(), Some(s)),
    };
    let mut params: Vec<(String, Param)> = Vec::new();
    match target {
        None => {},
        Some(s) => {
            params.push(("sessionId".to_owned(), Param::Text(s)));
        },
    }
    Envelope { id, action, params }
}

/// The request, with correlation id `id`, that switches a running worker to
/// a visible window.
pub fn headed_launch_request(id: String) -> (r: Envelope)
    ensures
        r.id == id,
        r.action@ == "launch"@,
        r.params@.len() == 1,
        r.params@[0].0@ == "headless"@,
        r.params@[0].1 == Param::Flag(false),
{
    let mut params: Vec<(String, Param)> = Vec::new();
    params.push(("headless".to_owned(), Param::Flag(false)));
    Envelope { id, action: "launch".to_owned(), params }
}

/// The remote sessions a reply to a list query carries: the items of the
/// `sessions` array of its payload. A failed exchange, a reply that reports
/// failure, or a payload without such an array gives none.
pub fn cloud_sessions(reply: &Result<Response, ChannelError>) -> (r: Vec<serde_json::Value>)
    ensures
        !(reply is Ok && reply->Ok_0.success) ==> r@.len() == 0,
        reply is Ok && reply->Ok_0.data is None ==> r@.len() == 0,
        reply is Ok && reply->Ok_0.success && reply->Ok_0.data is Some ==> r@ == listed_sessions(
            reply->Ok_0.data->Some_0,
        ),
{
    match reply {
        Ok(resp) => {
            if !resp.success {
                return Vec::new();
            }
            match &resp.data {
                None => Vec::new(),
                Some(d) => match json_member(d, "sessions") {
                    None => Vec::new(),
                    Some(list) => match json_items(list) {
                        None => Vec::new(),
                        Some(items) => items,
                    },
                },
            }
        },
        Err(_) => Vec::new(),
    }
}

} // verus!
