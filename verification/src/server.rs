//! The request dispatcher.  A server owns a storage backend and the peer
//! registry; the embedding program owns the sockets, reads one request at
//! a time, and performs the actions an [`Outcome`] carries (sending the
//! response, closing the connection, broadcasting to peers, persisting).

use vstd::prelude::*;
use vstd::string::StringExecFns;
use crate::basic::{Storage, StorageItem};
use crate::config::{filter_self_addresses, is_known_peer, retain_peers, Config};
use crate::protocol::{
    dispatch_post, load_post, srv_store_post, srv_update_post, store_post, BroadcastStore,
    ConnectionEvent, Outcome, Request, Response,
};
use crate::store_map::StoreMap;

verus! {

/// Relies on `chrono::Utc::now` and `DateTime::timestamp_millis` for the
/// current wall-clock time in milliseconds since the Unix epoch.  Nothing
/// is promised of the value.
#[verifier::external_body]
fn now_millis() -> i64 {
    chrono::Utc::now().timestamp_millis()
}

/// One node of the hash delivery network: a storage backend plus the
/// process configuration with the filtered peer registry.
pub struct Server<S: Storage> {
    pub storage: S,
    pub config: Config,
}

impl<S: Storage> Server<S> {
    /// Well-formedness: the storage backend's representation is sound.
    pub open spec fn wf(&self) -> bool {
        self.storage.wf()
    }

    /// Build a server, removing every form of the node's own address from
    /// the configured peer list.
    pub fn new(storage: S, config: Config) -> (r: Server<S>)
        requires
            storage.wf(),
        ensures
            r.wf(),
            r.storage == storage,
            r.config.listen_ip == config.listen_ip,
            r.config.listen_port == config.listen_port,
            r.config.student_name == config.student_name,
            r.config.nodes_addrs@ == retain_peers(
                config.nodes_addrs@,
                config.listen_ip@,
                config.listen_port,
            ),
    {
        let peers = filter_self_addresses(&config.nodes_addrs, &config.listen_ip, config.listen_port);
        Server {
            storage,
            config: Config {
                listen_ip: config.listen_ip,
                listen_port: config.listen_port,
                student_name: config.student_name,
                nodes_addrs: peers,
            },
        }
    }

    /// The display name sent in the one-time greeting of a connection.
    pub fn greeting_name(&self) -> (r: String)
        ensures
            r@ == self.config.student_name@,
    {
        self.config.student_name.clone()
    }

    /// The peer-identity check: whether the remote endpoint's IP matches
    /// some entry of the peer registry.
    pub fn check_is_node(&self, remote_ip: &String) -> (r: bool)
        ensures
            r == is_known_peer(self.config.nodes_addrs@, remote_ip@),
    {
        let mut i: usize = 0;
        while i < self.config.nodes_addrs.len()
            invariant
                i <= self.config.nodes_addrs@.len(),
                forall|j: int| 0 <= j < i ==> self.config.nodes_addrs@[j].host@ != remote_ip@,
            decreases self.config.nodes_addrs@.len() - i,
        {
            if self.config.nodes_addrs[i].host == *remote_ip {
                return true;
            }
            i += 1;
        }
        false
    }

    /// Handle a client `store` request whose write is stamped `now`.
    pub fn process_store_at(&mut self, request: Request, now: i64) -> (r: Outcome)
        requires
            old(self).wf(),
        ensures
            final(self).wf(),
            final(self).config == old(self).config,
            store_post(old(self).storage.model(), request@, now, final(self).storage.model(), r@),
    {
        match (request.key, request.hash) {
            (Some(key), Some(hash)) => {
                let item = StorageItem { hash: hash.clone(), pushed: now };
                self.storage.save_storage_item(key.clone(), item);
                Outcome {
                    response: Response::Success,
                    close_connection: false,
                    broadcast: Some(BroadcastStore { key, hash, timestamp: now }),
                }
            },
            _ => Outcome {
                response: Response::BadArguments,
                close_connection: false,
                broadcast: None,
            },
        }
    }

    /// Handle a client `store` request, stamping the write with the
    /// current time.
    pub fn process_store(&mut self, request: Request) -> (r: Outcome)
        requires
            old(self).wf(),
        ensures
            final(self).wf(),
            final(self).config == old(self).config,
            exists|now: i64|
                store_post(
                    old(self).storage.model(),
                    request@,
                    now,
                    final(self).storage.model(),
                    r@,
                ),
    {
        let now = now_millis();
        self.process_store_at(request, now)
    }

    /// Handle a client `load` request.
    pub fn process_load(&self, request: Request) -> (r: Outcome)
        requires
            self.wf(),
        ensures
            load_post(self.storage.model(), request@, self.storage.model(), r@),
    {
        match request.key {
            Some(key) => match self.storage.get_storage_item(&key) {
                Some(item) => {
                    let requested_hash = item.hash.clone();
                    Outcome {
                        response: Response::LoadSuccess { requested_key: key, requested_hash },
                        close_connection: false,
                        broadcast: None,
                    }
                },
                None => Outcome {
                    response: Response::KeyNotFound,
                    close_connection: false,
                    broadcast: None,
                },
            },
            None => Outcome {
                response: Response::BadArguments,
                close_connection: false,
                broadcast: None,
            },
        }
    }

    /// Handle a peer `srv_store` request arriving from `remote_ip`,
    /// applying the conflict-resolution rule.
    pub fn process_srv_store(&mut self, request: Request, remote_ip: &String) -> (r: Outcome)
        requires
            old(self).wf(),
        ensures
            final(self).wf(),
            final(self).config == old(self).config,
            srv_store_post(
                old(self).storage.model(),
                old(self).config.nodes_addrs@,
                remote_ip@,
                request@,
                final(self).storage.model(),
                r@,
            ),
    {
        if !self.check_is_node(remote_ip) {
            return Outcome {
                response: Response::NotANode,
                close_connection: false,
                broadcast: None,
            };
        }
        match (request.key, request.hash, request.timestamp) {
            (Some(key), Some(hash), Some(timestamp)) => {
                let can_update = match self.storage.get_storage_item(&key) {
                    None => true,
                    Some(item) => item.pushed < timestamp,
                };
                if can_update {
                    self.storage.save_storage_item(key, StorageItem { hash, pushed: timestamp });
                    Outcome {
                        response: Response::Success,
                        close_connection: false,
                        broadcast: None,
                    }
                } else {
                    Outcome {
                        response: Response::IrrelevantUpdate,
                        close_connection: false,
                        broadcast: None,
                    }
                }
            },
            _ => Outcome {
                response: Response::BadArguments,
                close_connection: false,
                broadcast: None,
            },
        }
    }

    /// Handle a peer `srv_update` request arriving from `remote_ip`,
    /// answering with a full snapshot of the store.
    pub fn process_srv_update(&self, remote_ip: &String) -> (r: Outcome)
        requires
            self.wf(),
        ensures
            srv_update_post(
                self.storage.model(),
                self.config.nodes_addrs@,
                remote_ip@,
                self.storage.model(),
                r@,
            ),
    {
        if !self.check_is_node(remote_ip) {
            return Outcome {
                response: Response::NotANode,
                close_connection: false,
                broadcast: None,
            };
        }
        Outcome {
            response: Response::SnapshotSuccess { storage: self.storage.get_entire_storage() },
            close_connection: false,
            broadcast: None,
        }
    }

    /// One dispatcher step for a write stamped `now`: route the event and
    /// say what to send, whether to close, and what to broadcast.
    pub fn handle_request_at(
        &mut self,
        event: ConnectionEvent,
        remote_ip: &String,
        now: i64,
    ) -> (r: Outcome)
        requires
            old(self).wf(),
        ensures
            final(self).wf(),
            final(self).config == old(self).config,
            dispatch_post(
                old(self).storage.model(),
                old(self).config.nodes_addrs@,
                remote_ip@,
                event@,
                now,
                final(self).storage.model(),
                r@,
            ),
    {
        match event {
            ConnectionEvent::DecodeFailure => Outcome {
                response: Response::BadRequest,
                close_connection: true,
                broadcast: None,
            },
            ConnectionEvent::Decoded(request) => {
                if request.request_type == String::from_str("store") {
                    self.process_store_at(request, now)
                } else if request.request_type == String::from_str("load") {
                    self.process_load(request)
                } else if request.request_type == String::from_str("srv_store") {
                    self.process_srv_store(request, remote_ip)
                } else if request.request_type == String::from_str("srv_update") {
                    self.process_srv_update(remote_ip)
                } else {
                    Outcome {
                        response: Response::BadRequest,
                        close_connection: false,
                        broadcast: None,
                    }
                }
            },
        }
    }

    /// One dispatcher step, stamping a client write with the current time.
    pub fn handle_request(&mut self, event: ConnectionEvent, remote_ip: &String) -> (r: Outcome)
        requires
            old(self).wf(),
        ensures
            final(self).wf(),
            final(self).config == old(self).config,
            exists|now: i64|
                dispatch_post(
                    old(self).storage.model(),
                    old(self).config.nodes_addrs@,
                    remote_ip@,
                    event@,
                    now,
                    final(self).storage.model(),
                    r@,
                ),
    {
        let now = now_millis();
        self.handle_request_at(event, remote_ip, now)
    }

    /// Apply one peer's snapshot during the startup pull-sync.  The policy
    /// is a faithful replica: each successfully decoded snapshot replaces
    /// the whole local state, so with several peers the last one that
    /// answers is authoritative.
    pub fn apply_peer_snapshot(&mut self, snapshot: StoreMap)
        requires
            old(self).wf(),
            snapshot.wf(),
        ensures
            final(self).wf(),
            final(self).config == old(self).config,
            final(self).storage.model() == snapshot@,
    {
        self.storage.update_storage(snapshot);
    }
}

} // verus!
