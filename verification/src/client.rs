//! The client session: one long-lived signing key and the broadcast channel
//! of session events.
//!
//! The session's network half — dialing seed peers, awaiting the rendezvous,
//! probing the routing view — is outside work; the decisions it takes are the
//! verified functions of [`crate::events`] and the method below, so the loop
//! around them holds no policy of its own.

use vstd::prelude::*;

use crate::address::{NetworkAddress, NetworkAddressView};
use crate::events::{ClientEvent, ClientEventsChannel, ClientEventsReceiver, ChannelView,
    NetworkEvent};

verus! {

#[verifier::external_type_specification]
#[verifier::external_body]
pub struct ExSecretKey(blsttc::SecretKey);

#[verifier::external_type_specification]
#[verifier::external_body]
pub struct ExPublicKey(blsttc::PublicKey);

#[verifier::external_type_specification]
#[verifier::external_body]
pub struct ExSignature(blsttc::Signature);

/// A client session: the signing key it owns for its whole lifetime, and the
/// broadcast channel its events are republished on.
pub struct Client {
    signer: blsttc::SecretKey,
    events_channel: ClientEventsChannel,
}

impl View for Client {
    type V = ChannelView;

    closed spec fn view(&self) -> ChannelView {
        self.events_channel@
    }
}

impl Client {
    /// A fresh session around a signing key, its event channel empty and
    /// open. The session becomes usable only once the bootstrap rendezvous
    /// (see [`crate::events::bootstrap_rendezvous`]) has been reached.
    pub fn new(signer: blsttc::SecretKey) -> (c: Client)
        ensures
            c@.log.len() == 0,
            c@.capacity == crate::events::EVENTS_CHANNEL_CAPACITY,
            !c@.closed,
    {
        Client { signer, events_channel: ClientEventsChannel::default() }
    }

    /// Get the client events channel.
    pub fn events_channel(&self) -> (r: ClientEventsReceiver)
        ensures
            r@ == self@.log.len(),
    {
        self.events_channel.subscribe()
    }

    /// The channel itself, for a receiver to read against.
    pub fn channel(&self) -> (r: &ClientEventsChannel)
        ensures
            r@ == self@,
    {
        &self.events_channel
    }

    /// Sign the given data.
    ///
    /// Relies on `blsttc::SecretKey::sign`: a BLS signature over the message,
    /// a function of the key and the message alone.
    #[verifier::external_body]
    pub fn sign(&self, data: &[u8]) -> blsttc::Signature {
        self.signer.sign(data)
    }

    /// Return the public key of the data signing key.
    ///
    /// Relies on `blsttc::SecretKey::public_key`: the public half matching
    /// the secret key.
    #[verifier::external_body]
    pub fn signer_pk(&self) -> blsttc::PublicKey {
        self.signer.public_key()
    }

    /// Take one event reported by the network layer: a peer entering the
    /// routing view is republished to subscribers as a connection and answers
    /// with that peer's own address, for the caller to probe asynchronously
    /// to warm the routing view; requests and listen addresses concern nodes,
    /// not clients, and are dropped.
    pub fn handle_network_event(&mut self, event: NetworkEvent) -> (probe: Option<NetworkAddress>)
        ensures
            final(self)@.capacity == old(self)@.capacity,
            final(self)@.closed == old(self)@.closed,
            (event matches NetworkEvent::PeerAdded(peer) ==> final(self)@.log == old(
                self,
            )@.log.push(ClientEvent::ConnectedToNetwork) && (probe matches Some(a) && a@
                == NetworkAddressView::Peer(peer@))),
            !(event is PeerAdded) ==> final(self)@.log == old(self)@.log && probe is None,
    {
        match event {
            NetworkEvent::RequestReceived => None,
            NetworkEvent::NewListenAddr => None,
            NetworkEvent::PeerAdded(peer) => {
                self.events_channel.broadcast(ClientEvent::ConnectedToNetwork);
                Some(NetworkAddress::from_peer(peer))
            },
        }
    }
}

} // verus!
