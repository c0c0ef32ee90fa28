use eltoo::channelmanager::{ChannelErrorAction, ChannelManager, ChannelParty, Event};
use eltoo::keys::{ChainHash, ChannelId, PublicKey, PublicNonce};
use eltoo::msgs::{MilliSatoshi, OpenChannel};

const G: [u8; 33] = [
    0x02, 0x79, 0xbe, 0x66, 0x7e, 0xf9, 0xdc, 0xbb, 0xac, 0x55, 0xa0, 0x62, 0x95, 0xce, 0x87,
    0x0b, 0x07, 0x02, 0x9b, 0xfc, 0xdb, 0x2d, 0xce, 0x28, 0xd9, 0x59, 0xf2, 0x81, 0x5b, 0x16,
    0xf8, 0x17, 0x98,
];
const G2: [u8; 33] = [
    0x02, 0xc6, 0x04, 0x7f, 0x94, 0x41, 0xed, 0x7d, 0x6d, 0x30, 0x45, 0x40, 0x6e, 0x95, 0xc0,
    0x7c, 0xd8, 0x5c, 0x77, 0x8e, 0x4b, 0x8c, 0xef, 0x3c, 0xa7, 0xab, 0xac, 0x09, 0xb9, 0x5c,
    0x70, 0x9e, 0xe5,
];

fn key(b: &[u8; 33]) -> PublicKey {
    PublicKey::from_slice(b).unwrap()
}

fn nonce() -> PublicNonce {
    let mut b = [0u8; 66];
    b[..33].copy_from_slice(&G);
    b[33..].copy_from_slice(&G2);
    PublicNonce::from_byte_array(&b).unwrap()
}

fn request(funding_sat: u64, push_msat: u64, channel_type: Option<Vec<u8>>) -> OpenChannel {
    OpenChannel {
        chain_hash: ChainHash([0x11; 32]),
        temporary_channel_id: ChannelId([0x22; 32]),
        funding_amount: funding_sat,
        push_value: MilliSatoshi::from_msat(push_msat),
        max_htlc_value_in_flight: MilliSatoshi::from_msat(50_000),
        htlc_minimum_value: MilliSatoshi::from_msat(1),
        shared_delay: 144,
        max_accepted_htlcs: 5,
        funding_pubkey: key(&G),
        settlement_pubkey: key(&G2),
        channel_flags: 0,
        next_nonce: nonce(),
        shutdown_scriptpubkey: None,
        channel_type,
    }
}

fn manager() -> ChannelManager {
    ChannelManager::new(ChainHash([0x11; 32]), key(&G2))
}

#[test]
fn error_actions() {
    let none = ChannelErrorAction::new();
    assert_eq!(none, ChannelErrorAction { fail_channel: false, close_connection: false });
    assert_eq!(none.fail_channel(), ChannelErrorAction { fail_channel: true, close_connection: false });
    assert_eq!(none.close_connection(), ChannelErrorAction { fail_channel: false, close_connection: true });
    assert_eq!(
        none.fail_channel().close_connection(),
        ChannelErrorAction { fail_channel: true, close_connection: true }
    );
}

#[test]
fn open_channel_request_is_queued() {
    let mut cm = manager();
    let peer = key(&G);
    let msg = request(100_000, 30_000_000, Some(vec![0x10]));
    assert_eq!(cm.internal_open_channel(peer, &msg), Ok(()));
    let events = cm.pending_events();
    assert_eq!(events.len(), 1);
    let expected = Event::OpenChannelRequest {
        temporary_channel_id: ChannelId([0x22; 32]),
        counterparty_node_id: peer,
        funding_satoshis: 100_000,
        channel_type: vec![0x10],
        max_htlc_value_in_flight: MilliSatoshi::from_msat(50_000),
        htlc_minimum_value: MilliSatoshi::from_msat(1),
        shared_delay: 144,
        max_accepted_htlcs: 5,
        remote_channel_party_config: ChannelParty {
            funding_pubkey: key(&G),
            settlement_pubkey: key(&G2),
            balance: MilliSatoshi::from_msat(70_000_000),
            max_htlc_value_in_flight: MilliSatoshi::from_msat(50_000),
            htlc_minimum_value: MilliSatoshi::from_msat(1),
            max_accepted_htlcs: 5,
            last_nonce: Some((0, nonce())),
        },
    };
    assert_eq!(events[0], (expected, None));

    // a second request queues a second event behind the first
    assert_eq!(cm.internal_open_channel(peer, &request(1, 1000, Some(vec![]))), Ok(()));
    assert_eq!(cm.pending_events().len(), 2);
}

#[test]
fn open_channel_request_whole_funding_pushed() {
    let mut cm = manager();
    assert_eq!(cm.internal_open_channel(key(&G), &request(5, 5000, Some(vec![]))), Ok(()));
    match &cm.pending_events()[0].0 {
        Event::OpenChannelRequest { remote_channel_party_config, .. } => {
            assert_eq!(remote_channel_party_config.balance, MilliSatoshi::zero())
        },
        _ => panic!("an open channel request was expected"),
    }
}

#[test]
fn open_channel_request_refused() {
    let fail = Err(ChannelErrorAction { fail_channel: true, close_connection: false });
    let mut cm = manager();
    // push value above the funding
    assert_eq!(cm.internal_open_channel(key(&G), &request(5, 5001, Some(vec![]))), fail);
    // no channel type
    assert_eq!(cm.internal_open_channel(key(&G), &request(5, 0, None)), fail);
    // funding in millisatoshis overflows
    assert_eq!(cm.internal_open_channel(key(&G), &request(u64::MAX / 1000 + 1, 0, Some(vec![]))), fail);
    assert_eq!(cm.pending_events().len(), 0);
}

#[test]
fn accept_channel_from_unknown_peer() {
    let mut cm = manager();
    assert_eq!(
        cm.internal_accept_channel(key(&G), ChannelId([1; 32])),
        Err(ChannelErrorAction { fail_channel: false, close_connection: true })
    );
    assert_eq!(cm.pending_events().len(), 0);
}
