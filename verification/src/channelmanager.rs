//! The eltoo channel manager: what it decides when a peer asks to open a channel.
//!
//! A request to open a channel is accepted when the funding amount, counted in
//! millisatoshis, fits in 64 bits, covers the amount pushed to the accepting side, and the
//! channel type is given. Then an `OpenChannelRequest` event is queued for the user, with
//! the remote party's configuration; otherwise the channel is to be failed.
use vstd::prelude::*;

use std::collections::VecDeque;

use crate::keys::{ChainHash, ChannelId, OutPoint, PublicKey, PublicNonce};
use crate::msgs::{msat_of_sat, MilliSatoshi, OpenChannel};

verus! {

/// What is to be done about a channel after an error in handling a peer's message.
#[derive(Clone, Copy, Debug, PartialEq, Eq, Structural)]
pub struct ChannelErrorAction {
    /// The channel is to be failed.
    pub fail_channel: bool,
    /// The connection to the peer is to be closed.
    pub close_connection: bool,
}

impl ChannelErrorAction {
    /// No action yet.
    pub fn new() -> (r: ChannelErrorAction)
        ensures
            r == (ChannelErrorAction { fail_channel: false, close_connection: false }),
    {
        ChannelErrorAction { fail_channel: false, close_connection: false }
    }

    /// The same action, and the channel is to be failed as well.
    pub fn fail_channel(self) -> (r: ChannelErrorAction)
        ensures
            r == (ChannelErrorAction { fail_channel: true, close_connection: self.close_connection }),
    {
        ChannelErrorAction { fail_channel: true, close_connection: self.close_connection }
    }

    /// The same action, and the connection is to be closed as well.
    pub fn close_connection(self) -> (r: ChannelErrorAction)
        ensures
            r == (ChannelErrorAction { fail_channel: self.fail_channel, close_connection: true }),
    {
        ChannelErrorAction { fail_channel: self.fail_channel, close_connection: true }
    }
}

/// One party of a channel, as the other party knows it.
#[derive(Clone, Debug, PartialEq, Eq)]
pub struct ChannelParty {
    pub funding_pubkey: PublicKey,
    pub settlement_pubkey: PublicKey,
    pub balance: MilliSatoshi,
    pub max_htlc_value_in_flight: MilliSatoshi,
    pub htlc_minimum_value: MilliSatoshi,
    pub max_accepted_htlcs: u16,
    /// Last public nonce received for this channel party and the update number it is valid for
    pub last_nonce: Option<(u64, PublicNonce)>,
}

/// Events that the channel manager hands to its user.
#[derive(Clone, Debug, PartialEq, Eq)]
pub enum Event {
    /// A peer asks to open a channel with us.
    OpenChannelRequest {
        temporary_channel_id: ChannelId,
        counterparty_node_id: PublicKey,
        /// The channel value, in satoshis
        funding_satoshis: u64,
        /// The channel type, as its feature bits in big-endian byte order
        channel_type: Vec<u8>,
        max_htlc_value_in_flight: MilliSatoshi,
        htlc_minimum_value: MilliSatoshi,
        shared_delay: u16,
        max_accepted_htlcs: u16,
        remote_channel_party_config: ChannelParty,
    },
    /// A channel is ready to be used.
    ChannelReady {
        channel_id: ChannelId,
        user_channel_id: u128,
        counterparty_node_id: PublicKey,
        funding_utxo: OutPoint,
        /// The channel type, as its feature bits in big-endian byte order
        channel_type: Vec<u8>,
    },
}

/// What the channel manager keeps of a peer.
pub struct PeerState {
    /// The peer is currently connected.
    pub is_connected: bool,
    /// The peer storage data for the channel partner.
    pub peer_storage: Vec<u8>,
}

/// The eltoo channel manager.
pub struct ChannelManager {
    chain_hash: ChainHash,
    our_network_pubkey: PublicKey,
    per_peer_state: Vec<(PublicKey, PeerState)>,
    pending_events: VecDeque<(Event, Option<()>)>,
}

/// The configuration of the remote party that an `open_channel_eltoo` message announces,
/// with `balance` as the party's balance.
pub open spec fn remote_party_of(msg: OpenChannel, balance: MilliSatoshi) -> ChannelParty {
    ChannelParty {
        funding_pubkey: msg.funding_pubkey,
        settlement_pubkey: msg.settlement_pubkey,
        balance,
        max_htlc_value_in_flight: msg.max_htlc_value_in_flight,
        htlc_minimum_value: msg.htlc_minimum_value,
        max_accepted_htlcs: msg.max_accepted_htlcs,
        last_nonce: Some((0u64, msg.next_nonce)),
    }
}

/// Whether an `open_channel_eltoo` message from `counterparty` is one that the channel
/// manager takes up: its funding amount in millisatoshis fits in a `u64` and covers the push
/// value, and it names a channel type.
pub open spec fn open_channel_acceptable(msg: OpenChannel) -> bool {
    &&& msat_of_sat(msg.funding_amount) matches Some(funding_msat)
    &&& msg.push_value@ <= funding_msat
    &&& msg.channel_type is Some
}

/// Whether `e` is the event that announces the request of `msg` from `counterparty`: all
/// the message's parameters, and the remote party with the funding minus the push value as
/// its balance.
pub open spec fn is_open_channel_request(e: Event, counterparty: PublicKey, msg: OpenChannel) -> bool {
    match e {
        Event::OpenChannelRequest {
            temporary_channel_id,
            counterparty_node_id,
            funding_satoshis,
            channel_type,
            max_htlc_value_in_flight,
            htlc_minimum_value,
            shared_delay,
            max_accepted_htlcs,
            remote_channel_party_config,
        } => {
            &&& temporary_channel_id == msg.temporary_channel_id
            &&& counterparty_node_id == counterparty
            &&& funding_satoshis == msg.funding_amount
            &&& msg.channel_type matches Some(ct) && channel_type@ == ct@
            &&& max_htlc_value_in_flight == msg.max_htlc_value_in_flight
            &&& htlc_minimum_value == msg.htlc_minimum_value
            &&& shared_delay == msg.shared_delay
            &&& max_accepted_htlcs == msg.max_accepted_htlcs
            &&& remote_channel_party_config == remote_party_of(
                msg,
                remote_channel_party_config.balance,
            )
            &&& remote_channel_party_config.balance@ + msg.push_value@ == msg.funding_amount * 1000
        },
        _ => false,
    }
}

/// A request to open a channel is taken up exactly when its funding, counted in
/// millisatoshis, fits in 64 bits and is at least the push value, and it names a channel type.
pub proof fn lemma_open_channel_acceptable(msg: OpenChannel)
    ensures
        open_channel_acceptable(msg) <==> (msg.funding_amount * 1000 <= u64::MAX && msg.push_value@
            <= msg.funding_amount * 1000 && msg.channel_type is Some),
{
}

/// The event that announces a request gives the remote party the funding, in millisatoshis,
/// minus what is pushed to us, and the keys that the request names.
pub proof fn lemma_open_channel_request_balance(e: Event, counterparty: PublicKey, msg: OpenChannel)
    requires
        is_open_channel_request(e, counterparty, msg),
    ensures
        e matches Event::OpenChannelRequest { remote_channel_party_config: party, funding_satoshis, .. }
            && funding_satoshis == msg.funding_amount
            && party.balance@ == msg.funding_amount * 1000 - msg.push_value@
            && party.funding_pubkey == msg.funding_pubkey
            && party.settlement_pubkey == msg.settlement_pubkey
            && party.last_nonce == Some((0u64, msg.next_nonce)),
{
}

impl ChannelManager {
    /// The chain that the channel manager works on.
    pub closed spec fn chain(&self) -> ChainHash {
        self.chain_hash
    }

    /// The node key of the channel manager.
    pub closed spec fn node_key(&self) -> PublicKey {
        self.our_network_pubkey
    }

    /// The node keys of the peers that the channel manager knows, in the order it keeps them.
    pub closed spec fn peers(&self) -> Seq<PublicKey> {
        self.per_peer_state@.map_values(|p: (PublicKey, PeerState)| p.0)
    }

    /// What the channel manager keeps of each peer, in the order it keeps them: the peer's
    /// node key, whether it is connected, and its peer storage data.
    pub closed spec fn peer_states(&self) -> Seq<(Seq<u8>, bool, Seq<u8>)> {
        self.per_peer_state@.map_values(
            |p: (PublicKey, PeerState)| (p.0@, p.1.is_connected, p.1.peer_storage@),
        )
    }

    /// No peer is kept twice: the peers are a map from node keys.
    #[verifier::type_invariant]
    spec fn peers_distinct(&self) -> bool {
        forall|i: int, j: int|
            0 <= i < j < self.per_peer_state@.len() ==> #[trigger] self.per_peer_state@[i].0@
                != #[trigger] self.per_peer_state@[j].0@
    }

    /// The events that wait to be handed to the user, oldest first.
    pub closed spec fn events(&self) -> Seq<(Event, Option<()>)> {
        self.pending_events@
    }

    /// A channel manager for the chain `chain_hash`, whose node key is `our_network_pubkey`,
    /// that knows no peer and has no pending event.
    pub fn new(chain_hash: ChainHash, our_network_pubkey: PublicKey) -> (r: ChannelManager)
        ensures
            r.chain() == chain_hash,
            r.node_key() == our_network_pubkey,
            r.peers().len() == 0,
            r.peer_states().len() == 0,
            r.events().len() == 0,
    {
        ChannelManager {
            chain_hash,
            our_network_pubkey,
            per_peer_state: Vec::new(),
            pending_events: VecDeque::new(),
        }
    }

    /// The events that wait to be handed to the user, oldest first.
    pub fn pending_events(&self) -> (r: &VecDeque<(Event, Option<()>)>)
        ensures
            r@ == self.events(),
    {
        &self.pending_events
    }

    /// Whether the channel manager knows the peer with node key `node_id`.
    pub open spec fn knows_peer(&self, node_id: PublicKey) -> bool {
        exists|i: int| 0 <= i < self.peers().len() && #[trigger] self.peers()[i]@ == node_id@
    }

    /// Handles the `open_channel_eltoo` message `msg` of the peer `counterparty_node_id`: when
    /// the request is acceptable, queues an `OpenChannelRequest` event for the user; otherwise
    /// asks for the channel to be failed.
    pub fn internal_open_channel(&mut self, counterparty_node_id: PublicKey, msg: &OpenChannel) -> (r:
        Result<(), ChannelErrorAction>)
        ensures
            r is Ok <==> open_channel_acceptable(*msg),
            r is Ok <==> (msg.funding_amount * 1000 <= u64::MAX && msg.push_value@
                <= msg.funding_amount * 1000 && msg.channel_type is Some),
            r is Ok ==> (final(self).events().last().0 matches Event::OpenChannelRequest {
                temporary_channel_id,
                counterparty_node_id: node,
                funding_satoshis,
                remote_channel_party_config: party,
                ..
            } && temporary_channel_id == msg.temporary_channel_id && node == counterparty_node_id
                && funding_satoshis == msg.funding_amount && party.balance@
                == msg.funding_amount * 1000 - msg.push_value@ && party.funding_pubkey
                == msg.funding_pubkey && party.settlement_pubkey == msg.settlement_pubkey),
            r is Err ==> r == Err::<(), ChannelErrorAction>(
                ChannelErrorAction { fail_channel: true, close_connection: false },
            ),
            r is Err ==> final(self).events() == old(self).events(),
            r is Ok ==> final(self).events().len() == old(self).events().len() + 1,
            r is Ok ==> final(self).events().drop_last() == old(self).events(),
            r is Ok ==> final(self).events().last().1 is None,
            r is Ok ==> is_open_channel_request(
                final(self).events().last().0,
                counterparty_node_id,
                *msg,
            ),
            final(self).chain() == old(self).chain(),
            final(self).node_key() == old(self).node_key(),
            final(self).peers() == old(self).peers(),
            final(self).peer_states() == old(self).peer_states(),
    {
        proof {
            use_type_invariant(&*self);
        }
        let funding_msat = match MilliSatoshi::try_from_amount(msg.funding_amount) {
            Ok(m) => m,
            Err(_) => return Err(ChannelErrorAction::new().fail_channel()),
        };
        let remote_msat = match funding_msat.checked_sub(msg.push_value) {
            Some(m) => m,
            None => return Err(ChannelErrorAction::new().fail_channel()),
        };
        // Channel type is required
        let channel_type = match &msg.channel_type {
            Some(ct) => ct.clone(),
            None => return Err(ChannelErrorAction::new().fail_channel()),
        };
        let remote_channel_party_config = ChannelParty {
            funding_pubkey: msg.funding_pubkey,
            settlement_pubkey: msg.settlement_pubkey,
            balance: remote_msat,
            max_htlc_value_in_flight: msg.max_htlc_value_in_flight,
            htlc_minimum_value: msg.htlc_minimum_value,
            max_accepted_htlcs: msg.max_accepted_htlcs,
            last_nonce: Some((0, msg.next_nonce)),
        };
        let ghost old_events = self.pending_events@;
        let mut events: VecDeque<(Event, Option<()>)> = VecDeque::new();
        std::mem::swap(&mut events, &mut self.pending_events);
        events.push_back(
            (
                Event::OpenChannelRequest {
                    temporary_channel_id: msg.temporary_channel_id,
                    counterparty_node_id,
                    funding_satoshis: msg.funding_amount,
                    channel_type,
                    max_htlc_value_in_flight: msg.max_htlc_value_in_flight,
                    htlc_minimum_value: msg.htlc_minimum_value,
                    shared_delay: msg.shared_delay,
                    max_accepted_htlcs: msg.max_accepted_htlcs,
                    remote_channel_party_config,
                },
                None,
            ),
        );
        self.pending_events = events;
        assert(self.pending_events@.drop_last() =~= old_events);
        Ok(())
    }

    /// Handles an `accept_channel_eltoo` message from the peer `their_node_id` about the
    /// channel `channel_id`. A peer that the channel manager does not know gets its connection
    /// closed.
    pub fn internal_accept_channel(&mut self, their_node_id: PublicKey, channel_id: ChannelId) -> (r:
        Result<(), ChannelErrorAction>)
        requires
            !old(self).knows_peer(their_node_id),
        ensures
            r == Err::<(), ChannelErrorAction>(
                ChannelErrorAction { fail_channel: false, close_connection: true },
            ),
            final(self).events() == old(self).events(),
            final(self).chain() == old(self).chain(),
            final(self).node_key() == old(self).node_key(),
            final(self).peers() == old(self).peers(),
            final(self).peer_states() == old(self).peer_states(),
    {
        let mut i: usize = 0;
        while i < self.per_peer_state.len()
            invariant
                i <= self.per_peer_state@.len(),
                !self.knows_peer(their_node_id),
            decreases self.per_peer_state@.len() - i,
        {
            if self.per_peer_state[i].0.same_key(&their_node_id) {
                assert(self.peers()[i as int]@ == their_node_id@);
                return unreached();
            }
            i = i + 1;
        }
        Err(ChannelErrorAction::new().close_connection())
    }
}

} // verus!
