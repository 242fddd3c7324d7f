//! The wire-level request and response objects, the events a connection
//! can produce, and the mathematical statement of what handling each of
//! them does to the store.

use vstd::prelude::*;
use vstd::string::StringExecFns;
use crate::basic::ItemModel;
use crate::config::{is_known_peer, PeerAddress};
use crate::store_map::StoreMap;

verus! {

/// One decoded request object.  Every field but the type is optional on
/// the wire; validation happens in the dispatcher.
pub struct Request {
    pub request_type: String,
    pub key: Option<String>,
    pub hash: Option<String>,
    pub timestamp: Option<i64>,
}

/// Mathematical image of a [`Request`].
pub ghost struct RequestModel {
    pub request_type: Seq<char>,
    pub key: Option<Seq<char>>,
    pub hash: Option<Seq<char>>,
    pub timestamp: Option<i64>,
}

impl View for Request {
    type V = RequestModel;

    open spec fn view(&self) -> RequestModel {
        RequestModel {
            request_type: self.request_type@,
            key: match self.key {
                Some(k) => Some(k@),
                None => None,
            },
            hash: match self.hash {
                Some(h) => Some(h@),
                None => None,
            },
            timestamp: self.timestamp,
        }
    }
}

/// What one read from the connection yielded: a decoded request object,
/// or undecodable input.
pub enum ConnectionEvent {
    Decoded(Request),
    DecodeFailure,
}

/// Mathematical image of a [`ConnectionEvent`].
pub ghost enum EventModel {
    Decoded(RequestModel),
    DecodeFailure,
}

impl View for ConnectionEvent {
    type V = EventModel;

    open spec fn view(&self) -> EventModel {
        match self {
            ConnectionEvent::Decoded(r) => EventModel::Decoded(r@),
            ConnectionEvent::DecodeFailure => EventModel::DecodeFailure,
        }
    }
}

/// The response the server sends back for one request.
pub enum Response {
    Success,
    LoadSuccess { requested_key: String, requested_hash: String },
    SnapshotSuccess { storage: StoreMap },
    BadRequest,
    BadArguments,
    KeyNotFound,
    NotANode,
    IrrelevantUpdate,
    ServerInternalError,
}

/// Mathematical image of a [`Response`].
pub ghost enum ResponseModel {
    Success,
    LoadSuccess { requested_key: Seq<char>, requested_hash: Seq<char> },
    SnapshotSuccess { storage: Map<Seq<char>, ItemModel> },
    BadRequest,
    BadArguments,
    KeyNotFound,
    NotANode,
    IrrelevantUpdate,
    ServerInternalError,
}

impl View for Response {
    type V = ResponseModel;

    open spec fn view(&self) -> ResponseModel {
        match self {
            Response::Success => ResponseModel::Success,
            Response::LoadSuccess { requested_key, requested_hash } => ResponseModel::LoadSuccess {
                requested_key: requested_key@,
                requested_hash: requested_hash@,
            },
            Response::SnapshotSuccess { storage } => ResponseModel::SnapshotSuccess {
                storage: storage@,
            },
            Response::BadRequest => ResponseModel::BadRequest,
            Response::BadArguments => ResponseModel::BadArguments,
            Response::KeyNotFound => ResponseModel::KeyNotFound,
            Response::NotANode => ResponseModel::NotANode,
            Response::IrrelevantUpdate => ResponseModel::IrrelevantUpdate,
            Response::ServerInternalError => ResponseModel::ServerInternalError,
        }
    }
}

/// The status string of a response, as it goes on the wire.
pub open spec fn status_of(m: ResponseModel) -> Seq<char> {
    match m {
        ResponseModel::Success => "success"@,
        ResponseModel::LoadSuccess { .. } => "success"@,
        ResponseModel::SnapshotSuccess { .. } => "success"@,
        ResponseModel::BadRequest => "bad request"@,
        ResponseModel::BadArguments => "bad arguments"@,
        ResponseModel::KeyNotFound => "key not found"@,
        ResponseModel::NotANode => "not a node"@,
        ResponseModel::IrrelevantUpdate => "irrelevant update"@,
        ResponseModel::ServerInternalError => "server internal error"@,
    }
}

impl Response {
    /// The status string of this response.
    pub fn status(&self) -> (r: String)
        ensures
            r@ == status_of(self@),
    {
        match self {
            Response::Success => String::from_str("success"),
            Response::LoadSuccess { .. } => String::from_str("success"),
            Response::SnapshotSuccess { .. } => String::from_str("success"),
            Response::BadRequest => String::from_str("bad request"),
            Response::BadArguments => String::from_str("bad arguments"),
            Response::KeyNotFound => String::from_str("key not found"),
            Response::NotANode => String::from_str("not a node"),
            Response::IrrelevantUpdate => String::from_str("irrelevant update"),
            Response::ServerInternalError => String::from_str("server internal error"),
        }
    }
}

/// A `srv_store` message owed to every peer after a locally accepted
/// client write.
pub struct BroadcastStore {
    pub key: String,
    pub hash: String,
    pub timestamp: i64,
}

/// Mathematical image of a [`BroadcastStore`].
pub ghost struct BroadcastModel {
    pub key: Seq<char>,
    pub hash: Seq<char>,
    pub timestamp: i64,
}

impl View for BroadcastStore {
    type V = BroadcastModel;

    open spec fn view(&self) -> BroadcastModel {
        BroadcastModel { key: self.key@, hash: self.hash@, timestamp: self.timestamp }
    }
}

/// Everything the dispatcher decides for one event: the response to send,
/// whether the connection is then closed, and the broadcast owed to the
/// peers, if any.
pub struct Outcome {
    pub response: Response,
    pub close_connection: bool,
    pub broadcast: Option<BroadcastStore>,
}

/// Mathematical image of an [`Outcome`].
pub ghost struct OutcomeModel {
    pub response: ResponseModel,
    pub close_connection: bool,
    pub broadcast: Option<BroadcastModel>,
}

impl View for Outcome {
    type V = OutcomeModel;

    open spec fn view(&self) -> OutcomeModel {
        OutcomeModel {
            response: self.response@,
            close_connection: self.close_connection,
            broadcast: match self.broadcast {
                Some(b) => Some(b@),
                None => None,
            },
        }
    }
}

/// The store after a client write: insert or overwrite, stamped `now`.
pub open spec fn store_result(
    m: Map<Seq<char>, ItemModel>,
    k: Seq<char>,
    h: Seq<char>,
    now: i64,
) -> Map<Seq<char>, ItemModel> {
    m.insert(k, ItemModel { hash: h, pushed: now })
}

/// What a read returns: the stored hash, if the key is present.
pub open spec fn load_result(m: Map<Seq<char>, ItemModel>, k: Seq<char>) -> Option<Seq<char>> {
    if m.contains_key(k) {
        Some(m[k].hash)
    } else {
        None
    }
}

/// The conflict-resolution rule for peer writes: accept exactly when the
/// key is absent or the stored push time is strictly older.  A tie keeps
/// the existing value.
pub open spec fn srv_store_accepts(m: Map<Seq<char>, ItemModel>, k: Seq<char>, ts: i64) -> bool {
    !m.contains_key(k) || m[k].pushed < ts
}

/// The store after a peer write under the conflict-resolution rule.
pub open spec fn srv_store_result(
    m: Map<Seq<char>, ItemModel>,
    k: Seq<char>,
    h: Seq<char>,
    ts: i64,
) -> Map<Seq<char>, ItemModel> {
    if srv_store_accepts(m, k, ts) {
        m.insert(k, ItemModel { hash: h, pushed: ts })
    } else {
        m
    }
}

/// What handling a client `store` request does, for a write stamped `now`.
pub open spec fn store_post(
    pre: Map<Seq<char>, ItemModel>,
    req: RequestModel,
    now: i64,
    post: Map<Seq<char>, ItemModel>,
    out: OutcomeModel,
) -> bool {
    &&& !out.close_connection
    &&& match (req.key, req.hash) {
        (Some(k), Some(h)) => {
            &&& post == store_result(pre, k, h, now)
            &&& out.response == ResponseModel::Success
            &&& out.broadcast == Some(BroadcastModel { key: k, hash: h, timestamp: now })
        },
        _ => {
            &&& post == pre
            &&& out.response == ResponseModel::BadArguments
            &&& out.broadcast is None
        },
    }
}

/// What handling a client `load` request does.
pub open spec fn load_post(
    pre: Map<Seq<char>, ItemModel>,
    req: RequestModel,
    post: Map<Seq<char>, ItemModel>,
    out: OutcomeModel,
) -> bool {
    &&& !out.close_connection
    &&& out.broadcast is None
    &&& post == pre
    &&& match req.key {
        Some(k) => match load_result(pre, k) {
            Some(h) => out.response == (ResponseModel::LoadSuccess {
                requested_key: k,
                requested_hash: h,
            }),
            None => out.response == ResponseModel::KeyNotFound,
        },
        None => out.response == ResponseModel::BadArguments,
    }
}

/// What handling a peer `srv_store` request does, for a request arriving
/// from `remote_ip`.
pub open spec fn srv_store_post(
    pre: Map<Seq<char>, ItemModel>,
    peers: Seq<PeerAddress>,
    remote_ip: Seq<char>,
    req: RequestModel,
    post: Map<Seq<char>, ItemModel>,
    out: OutcomeModel,
) -> bool {
    &&& !out.close_connection
    &&& out.broadcast is None
    &&& if !is_known_peer(peers, remote_ip) {
        &&& post == pre
        &&& out.response == ResponseModel::NotANode
    } else {
        match (req.key, req.hash, req.timestamp) {
            (Some(k), Some(h), Some(ts)) => {
                &&& post == srv_store_result(pre, k, h, ts)
                &&& out.response == if srv_store_accepts(pre, k, ts) {
                    ResponseModel::Success
                } else {
                    ResponseModel::IrrelevantUpdate
                }
            },
            _ => {
                &&& post == pre
                &&& out.response == ResponseModel::BadArguments
            },
        }
    }
}

/// What handling a peer `srv_update` request does.
pub open spec fn srv_update_post(
    pre: Map<Seq<char>, ItemModel>,
    peers: Seq<PeerAddress>,
    remote_ip: Seq<char>,
    post: Map<Seq<char>, ItemModel>,
    out: OutcomeModel,
) -> bool {
    &&& !out.close_connection
    &&& out.broadcast is None
    &&& post == pre
    &&& if is_known_peer(peers, remote_ip) {
        out.response == (ResponseModel::SnapshotSuccess { storage: pre })
    } else {
        out.response == ResponseModel::NotANode
    }
}

/// What one dispatcher step does: undecodable input answers "bad request"
/// and closes the connection; a decoded request is routed by its type; an
/// unknown type answers "bad request" with the connection kept open.
pub open spec fn dispatch_post(
    pre: Map<Seq<char>, ItemModel>,
    peers: Seq<PeerAddress>,
    remote_ip: Seq<char>,
    ev: EventModel,
    now: i64,
    post: Map<Seq<char>, ItemModel>,
    out: OutcomeModel,
) -> bool {
    match ev {
        EventModel::DecodeFailure => {
            &&& post == pre
            &&& out.response == ResponseModel::BadRequest
            &&& out.close_connection
            &&& out.broadcast is None
        },
        EventModel::Decoded(req) => {
            if req.request_type == "store"@ {
                store_post(pre, req, now, post, out)
            } else if req.request_type == "load"@ {
                load_post(pre, req, post, out)
            } else if req.request_type == "srv_store"@ {
                srv_store_post(pre, peers, remote_ip, req, post, out)
            } else if req.request_type == "srv_update"@ {
                srv_update_post(pre, peers, remote_ip, post, out)
            } else {
                &&& post == pre
                &&& out.response == ResponseModel::BadRequest
                &&& !out.close_connection
                &&& out.broadcast is None
            }
        },
    }
}

} // verus!
