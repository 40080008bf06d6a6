//! Building a gateway connection: the frozen identify payload, the
//! websocket URL, and the fresh protocol session.

use vstd::prelude::*;

use crate::event::{IdentifyConnection, IdentifyPayload};
use crate::gateway::{ProtocolState, Session};
use crate::rest::gateway_url_of;
use crate::wire::identify_json;

verus! {

/// Gateway intents: which event families the session asks to receive,
/// as a bit set.
#[derive(Copy, Clone, Hash, Eq, PartialEq, Debug, Default, Structural)]
pub struct Intents(pub u64);

/// Prepares a gateway connection: collects the credential, the shard
/// choice and the intents, and freezes them into the identify payload
/// that the session replays verbatim on every identify.
#[derive(Debug, Clone, PartialEq)]
pub struct ConnectionBuilder {
    /// The gateway URL the connection will be opened against, without the
    /// protocol-version parameter.
    pub base_url: String,
    /// The bearer credential.
    pub token: String,
    /// The shard this connection covers, as `[shard_id, total_shards]`.
    pub shard: Option<[u8; 2]>,
    /// The intents the session asks for.
    pub intents: Option<Intents>,
    /// The client fingerprint announced in the identify payload.
    pub fingerprint: IdentifyConnection,
}

/// The identify payload a builder freezes.
pub open spec fn spec_builder_payload(b: ConnectionBuilder) -> IdentifyPayload {
    IdentifyPayload {
        token: b.token,
        shard: match b.shard {
            Some(s) => Some((s[0], s[1])),
            None => None,
        },
        intents: match b.intents {
            Some(i) => Some(i.0),
            None => None,
        },
        compress: None,
        large_threshold: None,
        fingerprint: b.fingerprint,
    }
}

impl ConnectionBuilder {
    /// A builder for a connection against the given gateway URL with the
    /// given credential, with the library announcing itself in the
    /// fingerprint.
    pub fn new(base_url: String, token: String) -> (r: ConnectionBuilder)
        ensures
            r.base_url@ == base_url@,
            r.token@ == token@,
            r.shard is None,
            r.intents is None,
            r.fingerprint.os@ == "unknown"@,
            r.fingerprint.browser@ == "discord-tokio"@,
            r.fingerprint.device@ == "discord-tokio"@,
    {
        ConnectionBuilder {
            base_url,
            token,
            shard: None,
            intents: None,
            fingerprint: IdentifyConnection {
                os: String::from_str("unknown"),
                browser: String::from_str("discord-tokio"),
                device: String::from_str("discord-tokio"),
            },
        }
    }

    /// Connect to only a specific shard.
    ///
    /// The `shard_id` is indexed at 0 while `total_shards` is indexed at 1.
    pub fn sharding(&mut self, shard_id: u8, total_shards: u8)
        ensures
            *final(self) == (ConnectionBuilder {
                shard: Some([shard_id, total_shards]),
                ..*old(self)
            }),
    {
        self.shard = Some([shard_id, total_shards]);
    }

    /// Ask for the given intents.
    pub fn intents(&mut self, intents: Intents)
        ensures
            *final(self) == (ConnectionBuilder { intents: Some(intents), ..*old(self) }),
    {
        self.intents = Some(intents);
    }

    /// The payload this builder freezes into every identify.
    pub fn identify_payload(&self) -> (r: IdentifyPayload)
        ensures
            r == spec_builder_payload(*self),
    {
        IdentifyPayload {
            token: self.token.clone(),
            shard: match self.shard {
                Some(s) => Some((s[0], s[1])),
                None => None,
            },
            intents: match self.intents {
                Some(i) => Some(i.0),
                None => None,
            },
            compress: None,
            large_threshold: None,
            fingerprint: IdentifyConnection {
                os: self.fingerprint.os.clone(),
                browser: self.fingerprint.browser.clone(),
                device: self.fingerprint.device.clone(),
            },
        }
    }

    /// The websocket URL the connection is opened against.
    pub fn websocket_url(&self) -> (r: String)
        ensures
            r@ == gateway_url_of(self.base_url@),
    {
        crate::rest::build_gateway_url(self.base_url.as_str())
    }

    /// Freeze the identify payload and open a fresh protocol session for
    /// it.
    pub fn session(&self) -> (r: Session)
        ensures
            r.state == ProtocolState::AwaitingHello,
            r.session_id is None,
            r.last_sequence == 0,
            r.heartbeat_live == false,
            r.identify@ == identify_json(spec_builder_payload(*self)),
            r.token@ == self.token@,
            r.url@ == gateway_url_of(self.base_url@),
    {
        let payload = self.identify_payload();
        let identify = crate::wire::identify_frame(&payload);
        let url = self.websocket_url();
        let token = self.token.clone();
        Session::begin(url, token, identify)
    }
}

} // verus!
