//! The service's laws, stated over the same spec functions the
//! dispatcher's contracts use, and proved once and for all.

use vstd::prelude::*;
use crate::basic::ItemModel;
use crate::config::{is_known_peer, is_self_address, retain_peers, PeerAddress};
use crate::protocol::{
    dispatch_post, load_post, load_result, srv_store_accepts, srv_store_post, srv_store_result,
    srv_update_post, store_post, store_result, EventModel, OutcomeModel, RequestModel,
    ResponseModel,
};

verus! {

/// Round-trip: after a client write of `(k, h)`, a load of `k` returns
/// exactly `h`.
pub proof fn lemma_store_then_load(
    m: Map<Seq<char>, ItemModel>,
    k: Seq<char>,
    h: Seq<char>,
    now: i64,
)
    ensures
        load_result(store_result(m, k, h, now), k) == Some(h),
{
}

/// Repeated store: the last local write wins, whatever the two writes'
/// timestamps are, because client writes bypass conflict resolution.
pub proof fn lemma_repeated_store_last_wins(
    m: Map<Seq<char>, ItemModel>,
    k: Seq<char>,
    h1: Seq<char>,
    t1: i64,
    h2: Seq<char>,
    t2: i64,
)
    ensures
        load_result(store_result(store_result(m, k, h1, t1), k, h2, t2), k) == Some(h2),
{
}

/// Round-trip through the handlers: whenever a `store` of `(k, h)`
/// succeeds and a `load` of `k` is handled next, the load answers
/// success carrying exactly `h`.
pub proof fn lemma_handlers_round_trip(
    pre: Map<Seq<char>, ItemModel>,
    store_req: RequestModel,
    now: i64,
    mid: Map<Seq<char>, ItemModel>,
    store_out: OutcomeModel,
    load_req: RequestModel,
    post: Map<Seq<char>, ItemModel>,
    load_out: OutcomeModel,
    k: Seq<char>,
    h: Seq<char>,
)
    requires
        store_post(pre, store_req, now, mid, store_out),
        store_req.key == Some(k),
        store_req.hash == Some(h),
        load_post(mid, load_req, post, load_out),
        load_req.key == Some(k),
    ensures
        load_out.response == (ResponseModel::LoadSuccess { requested_key: k, requested_hash: h }),
        post == mid,
{
}

/// Conflict resolution for peer writes: a write to an absent key is
/// accepted; a write not strictly newer than the stored one is rejected
/// and leaves the store untouched; a strictly newer write overwrites.
pub proof fn lemma_conflict_resolution(
    m: Map<Seq<char>, ItemModel>,
    k: Seq<char>,
    h: Seq<char>,
    ts: i64,
)
    ensures
        !m.contains_key(k) ==> srv_store_accepts(m, k, ts) && srv_store_result(m, k, h, ts)[k]
            == (ItemModel { hash: h, pushed: ts }),
        m.contains_key(k) && ts <= m[k].pushed ==> !srv_store_accepts(m, k, ts)
            && srv_store_result(m, k, h, ts) == m,
        m.contains_key(k) && m[k].pushed < ts ==> srv_store_accepts(m, k, ts)
            && srv_store_result(m, k, h, ts)[k] == (ItemModel { hash: h, pushed: ts }),
{
}

/// Self-exclusion: a configured list in which every entry is a form of
/// the node's own address filters down to an empty peer registry.
pub proof fn lemma_self_exclusion(
    addrs: Seq<PeerAddress>,
    listen_ip: Seq<char>,
    listen_port: u16,
)
    requires
        forall|i: int| 0 <= i < addrs.len() ==> is_self_address(addrs[i], listen_ip, listen_port),
    ensures
        retain_peers(addrs, listen_ip, listen_port) == Seq::<PeerAddress>::empty(),
    decreases addrs.len(),
{
    if addrs.len() == 0 {
        assert(retain_peers(addrs, listen_ip, listen_port) =~= Seq::<PeerAddress>::empty());
    } else {
        assert forall|i: int|
            0 <= i < addrs.drop_last().len() implies is_self_address(
            addrs.drop_last()[i],
            listen_ip,
            listen_port,
        ) by {
            assert(is_self_address(addrs[i], listen_ip, listen_port));
        }
        lemma_self_exclusion(addrs.drop_last(), listen_ip, listen_port);
        assert(is_self_address(addrs[addrs.len() - 1], listen_ip, listen_port));
    }
}

/// An unknown but well-formed request type answers "bad request", keeps
/// the connection open, and leaves the store untouched.
pub proof fn lemma_unknown_request_keeps_connection(
    pre: Map<Seq<char>, ItemModel>,
    peers: Seq<PeerAddress>,
    remote_ip: Seq<char>,
    req: RequestModel,
    now: i64,
    post: Map<Seq<char>, ItemModel>,
    out: OutcomeModel,
)
    requires
        dispatch_post(pre, peers, remote_ip, EventModel::Decoded(req), now, post, out),
        req.request_type != "store"@,
        req.request_type != "load"@,
        req.request_type != "srv_store"@,
        req.request_type != "srv_update"@,
    ensures
        out.response == ResponseModel::BadRequest,
        !out.close_connection,
        post == pre,
{
}

/// Undecodable input answers "bad request" and the connection is then
/// closed, the store untouched.
pub proof fn lemma_malformed_closes_connection(
    pre: Map<Seq<char>, ItemModel>,
    peers: Seq<PeerAddress>,
    remote_ip: Seq<char>,
    now: i64,
    post: Map<Seq<char>, ItemModel>,
    out: OutcomeModel,
)
    requires
        dispatch_post(pre, peers, remote_ip, EventModel::DecodeFailure, now, post, out),
    ensures
        out.response == ResponseModel::BadRequest,
        out.close_connection,
        post == pre,
{
}

/// A load answers "key not found" exactly on an absent key, "bad
/// arguments" on a missing key field, and never changes the store.
pub proof fn lemma_load_errors(
    pre: Map<Seq<char>, ItemModel>,
    req: RequestModel,
    post: Map<Seq<char>, ItemModel>,
    out: OutcomeModel,
)
    requires
        load_post(pre, req, post, out),
    ensures
        post == pre,
        req.key is None ==> out.response == ResponseModel::BadArguments,
        req.key matches Some(k) && !pre.contains_key(k) ==> out.response
            == ResponseModel::KeyNotFound,
{
}

/// A client store with a missing key or hash answers "bad arguments" and
/// changes nothing.
pub proof fn lemma_store_missing_arguments(
    pre: Map<Seq<char>, ItemModel>,
    req: RequestModel,
    now: i64,
    post: Map<Seq<char>, ItemModel>,
    out: OutcomeModel,
)
    requires
        store_post(pre, req, now, post, out),
        req.key is None || req.hash is None,
    ensures
        out.response == ResponseModel::BadArguments,
        post == pre,
        out.broadcast is None,
{
}

/// A peer store from a known peer with a missing key, hash or timestamp
/// answers "bad arguments" and changes nothing.
pub proof fn lemma_srv_store_missing_arguments(
    pre: Map<Seq<char>, ItemModel>,
    peers: Seq<PeerAddress>,
    remote_ip: Seq<char>,
    req: RequestModel,
    post: Map<Seq<char>, ItemModel>,
    out: OutcomeModel,
)
    requires
        srv_store_post(pre, peers, remote_ip, req, post, out),
        is_known_peer(peers, remote_ip),
        req.key is None || req.hash is None || req.timestamp is None,
    ensures
        out.response == ResponseModel::BadArguments,
        post == pre,
{
}

/// Peer-identity check: an inter-node request from a source IP not in the
/// peer registry answers "not a node" and leaves the store unmodified.
pub proof fn lemma_peer_identity_guards_srv_store(
    pre: Map<Seq<char>, ItemModel>,
    peers: Seq<PeerAddress>,
    remote_ip: Seq<char>,
    req: RequestModel,
    post: Map<Seq<char>, ItemModel>,
    out: OutcomeModel,
)
    requires
        srv_store_post(pre, peers, remote_ip, req, post, out),
        !is_known_peer(peers, remote_ip),
    ensures
        out.response == ResponseModel::NotANode,
        post == pre,
{
}

/// Peer-identity check for snapshot requests: from an unknown source the
/// answer is "not a node" and no snapshot is handed out.
pub proof fn lemma_peer_identity_guards_srv_update(
    pre: Map<Seq<char>, ItemModel>,
    peers: Seq<PeerAddress>,
    remote_ip: Seq<char>,
    post: Map<Seq<char>, ItemModel>,
    out: OutcomeModel,
)
    requires
        srv_update_post(pre, peers, remote_ip, post, out),
        !is_known_peer(peers, remote_ip),
    ensures
        out.response == ResponseModel::NotANode,
        post == pre,
{
}

} // verus!
