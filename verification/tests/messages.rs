use eltoo::keys::{ChainHash, ChannelId, OutPoint, PartialSignature, PublicKey, PublicNonce, Txid};
use eltoo::msgs::{
    AcceptChannel, ChannelReady, ChannelReestablish, ClosingSigned, ClosingSignedFeeRange,
    FundingCreated, FundingSigned, Message, MilliSatoshi, OpenChannel, Shutdown, UpdateSigned,
    UpdateSignedAck,
};
use eltoo::ser::DecodeError;

const G: [u8; 33] = [
    0x02, 0x79, 0xbe, 0x66, 0x7e, 0xf9, 0xdc, 0xbb, 0xac, 0x55, 0xa0, 0x62, 0x95, 0xce, 0x87,
    0x0b, 0x07, 0x02, 0x9b, 0xfc, 0xdb, 0x2d, 0xce, 0x28, 0xd9, 0x59, 0xf2, 0x81, 0x5b, 0x16,
    0xf8, 0x17, 0x98,
];
const G2: [u8; 33] = [
    0x02, 0xc6, 0x04, 0x7f, 0x94, 0x41, 0xed, 0x7d, 0x6d, 0x30, 0x45, 0x40, 0x6e, 0x95, 0xc0,
    0x7c, 0xd8, 0x5c, 0x77, 0x8e, 0x4b, 0x8c, 0xef, 0x3c, 0xa7, 0xab, 0xac, 0x09, 0xb9, 0x5c,
    0x70, 0x9e, 0xe5,
];

fn key(b: &[u8; 33]) -> PublicKey {
    PublicKey::from_slice(b).expect("a point on the curve")
}

fn nonce_bytes() -> [u8; 66] {
    let mut b = [0u8; 66];
    b[..33].copy_from_slice(&G);
    b[33..].copy_from_slice(&G2);
    b
}

fn nonce() -> PublicNonce {
    PublicNonce::from_byte_array(&nonce_bytes()).expect("two points on the curve")
}

fn sig_bytes(last: u8) -> [u8; 32] {
    let mut b = [0u8; 32];
    b[31] = last;
    b
}

fn sig(last: u8) -> PartialSignature {
    PartialSignature::from_byte_array(&sig_bytes(last)).expect("a scalar below the group order")
}

fn open_channel() -> OpenChannel {
    OpenChannel {
        chain_hash: ChainHash([0x11; 32]),
        temporary_channel_id: ChannelId([0x22; 32]),
        funding_amount: 100_000,
        push_value: MilliSatoshi::from_msat(5_000),
        max_htlc_value_in_flight: MilliSatoshi::from_msat(90_000_000),
        htlc_minimum_value: MilliSatoshi::from_msat(1_000),
        shared_delay: 144,
        max_accepted_htlcs: 30,
        funding_pubkey: key(&G),
        settlement_pubkey: key(&G2),
        channel_flags: 1,
        next_nonce: nonce(),
        shutdown_scriptpubkey: Some(vec![0x00, 0x14, 0xaa, 0xbb]),
        channel_type: Some(vec![0x10, 0x00]),
    }
}

fn encode_open(m: &OpenChannel) -> Vec<u8> {
    let mut w = Vec::new();
    m.write(&mut w);
    w
}

#[test]
fn open_channel_layout() {
    let m = open_channel();
    let w = encode_open(&m);
    // fixed part: 32 + 32 + 4 * 8 + 2 * 2 + 2 * 33 + 1 + 66 = 233 bytes
    assert_eq!(&w[0..32], &[0x11; 32]);
    assert_eq!(&w[32..64], &[0x22; 32]);
    assert_eq!(&w[64..72], &100_000u64.to_be_bytes());
    assert_eq!(&w[72..80], &5_000u64.to_be_bytes());
    assert_eq!(&w[96..98], &144u16.to_be_bytes());
    assert_eq!(&w[98..100], &30u16.to_be_bytes());
    assert_eq!(&w[100..133], &G);
    assert_eq!(&w[133..166], &G2);
    assert_eq!(w[166], 1);
    assert_eq!(&w[167..233], &nonce_bytes()[..]);
    // TLV 0: type 0, length 4, the script; TLV 1: type 1, length 2, the features
    assert_eq!(&w[233..], &[0, 4, 0x00, 0x14, 0xaa, 0xbb, 1, 2, 0x10, 0x00]);
}

#[test]
fn open_channel_roundtrip() {
    let m = open_channel();
    let w = encode_open(&m);
    assert_eq!(OpenChannel::read_from_fixed_length_buffer(&w), Ok(m.clone()));

    let mut bare = m.clone();
    bare.shutdown_scriptpubkey = None;
    bare.channel_type = None;
    let w = encode_open(&bare);
    assert_eq!(w.len(), 233);
    assert_eq!(OpenChannel::read_from_fixed_length_buffer(&w), Ok(bare));
}

#[test]
fn open_channel_short_read() {
    let w = encode_open(&open_channel());
    assert_eq!(OpenChannel::read_from_fixed_length_buffer(&w[..232]), Err(DecodeError::ShortRead));
    assert_eq!(OpenChannel::read_from_fixed_length_buffer(&[]), Err(DecodeError::ShortRead));
    // cut in the middle of the last TLV record
    assert_eq!(
        OpenChannel::read_from_fixed_length_buffer(&w[..w.len() - 1]),
        Err(DecodeError::ShortRead)
    );
}

#[test]
fn open_channel_invalid_key() {
    let mut w = encode_open(&open_channel());
    w[100] = 0x05; // no compressed key starts with 0x05
    assert_eq!(OpenChannel::read_from_fixed_length_buffer(&w), Err(DecodeError::InvalidValue));
    // the invalid key is reported before the short buffer
    assert_eq!(OpenChannel::read_from_fixed_length_buffer(&w[..140]), Err(DecodeError::InvalidValue));
}

#[test]
fn open_channel_invalid_nonce() {
    let mut w = encode_open(&open_channel());
    w[167] = 0x07;
    assert_eq!(OpenChannel::read_from_fixed_length_buffer(&w), Err(DecodeError::InvalidValue));
}

#[test]
fn open_channel_tlv_rules() {
    let mut bare = open_channel();
    bare.shutdown_scriptpubkey = None;
    bare.channel_type = None;
    let head = encode_open(&bare);

    // an unknown odd record is skipped
    let mut w = head.clone();
    w.extend_from_slice(&[5, 2, 0xde, 0xad]);
    assert_eq!(OpenChannel::read_from_fixed_length_buffer(&w), Ok(bare.clone()));

    // an unknown even record is refused
    let mut w = head.clone();
    w.extend_from_slice(&[4, 0]);
    assert_eq!(
        OpenChannel::read_from_fixed_length_buffer(&w),
        Err(DecodeError::UnknownRequiredFeature)
    );

    // records out of order are refused
    let mut w = head.clone();
    w.extend_from_slice(&[1, 0, 0, 0]);
    assert_eq!(OpenChannel::read_from_fixed_length_buffer(&w), Err(DecodeError::InvalidValue));

    // a repeated type is refused
    let mut w = head.clone();
    w.extend_from_slice(&[0, 0, 0, 0]);
    assert_eq!(OpenChannel::read_from_fixed_length_buffer(&w), Err(DecodeError::InvalidValue));

    // a type that is not in its shortest form is refused
    let mut w = head.clone();
    w.extend_from_slice(&[0xfd, 0x00, 0x05, 0]);
    assert_eq!(OpenChannel::read_from_fixed_length_buffer(&w), Err(DecodeError::InvalidValue));

    // a record longer than the buffer
    let mut w = head.clone();
    w.extend_from_slice(&[0, 9, 1, 2]);
    assert_eq!(OpenChannel::read_from_fixed_length_buffer(&w), Err(DecodeError::ShortRead));

    // an empty script record reads as an empty script
    let mut w = head.clone();
    w.extend_from_slice(&[0, 0]);
    let mut with_empty = bare.clone();
    with_empty.shutdown_scriptpubkey = Some(vec![]);
    assert_eq!(OpenChannel::read_from_fixed_length_buffer(&w), Ok(with_empty));
}

fn accept_channel() -> AcceptChannel {
    AcceptChannel {
        temporary_channel_id: ChannelId([0x33; 32]),
        max_htlc_value_in_flight: MilliSatoshi::from_msat(7),
        htlc_minimum_value: MilliSatoshi::from_msat(8),
        minimum_depth: 6,
        shared_delay: 12,
        max_accepted_htlcs: 483,
        funding_pubkey: key(&G2),
        settlement_pubkey: key(&G),
        next_nonce: nonce(),
        shutdown_scriptpubkey: None,
        channel_type: Some(vec![0x01]),
    }
}

#[test]
fn accept_channel_roundtrip() {
    let m = accept_channel();
    let mut w = Vec::new();
    m.write(&mut w);
    // 32 + 8 + 8 + 4 + 2 + 2 + 33 + 33 + 66 = 188, then type 1, length 1, one byte
    assert_eq!(w.len(), 188 + 3);
    assert_eq!(&w[48..52], &6u32.to_be_bytes());
    assert_eq!(&w[188..], &[1, 1, 0x01]);
    assert_eq!(AcceptChannel::read_from_fixed_length_buffer(&w), Ok(m));
    assert_eq!(AcceptChannel::read_from_fixed_length_buffer(&w[..100]), Err(DecodeError::ShortRead));
}

#[test]
fn funding_created_roundtrip() {
    let m = FundingCreated {
        temporary_channel_id: ChannelId([0x44; 32]),
        funding_outpoint: OutPoint { txid: Txid([0x55; 32]), vout: 0x0102 },
        update_partial_signature: sig(9),
        next_nonce: nonce(),
    };
    let mut w = Vec::new();
    m.write(&mut w);
    assert_eq!(w.len(), 32 + 32 + 2 + 32 + 66);
    assert_eq!(&w[64..66], &[0x01, 0x02]);
    assert_eq!(FundingCreated::read_from_fixed_length_buffer(&w), Ok(m.clone()));
    // what follows the nonce is ignored, even an unknown even TLV record
    w.extend_from_slice(&[2, 0]);
    assert_eq!(FundingCreated::read_from_fixed_length_buffer(&w), Ok(m));
}

#[test]
fn funding_created_invalid_signature() {
    let m = FundingCreated {
        temporary_channel_id: ChannelId([0x44; 32]),
        funding_outpoint: OutPoint { txid: Txid([0x55; 32]), vout: 3 },
        update_partial_signature: sig(9),
        next_nonce: nonce(),
    };
    let mut w = Vec::new();
    m.write(&mut w);
    // a scalar above the group order
    for b in &mut w[66..98] {
        *b = 0xff;
    }
    assert_eq!(FundingCreated::read_from_fixed_length_buffer(&w), Err(DecodeError::InvalidValue));
}

#[test]
fn signed_updates_roundtrip() {
    let fs = FundingSigned { channel_id: ChannelId([1; 32]), update_partial_signature: sig(1), next_nonce: nonce() };
    let us = UpdateSigned { channel_id: ChannelId([2; 32]), update_partial_signature: sig(2), next_nonce: nonce() };
    let ua = UpdateSignedAck { channel_id: ChannelId([3; 32]), update_partial_signature: sig(3), next_nonce: nonce() };
    let mut w = Vec::new();
    fs.write(&mut w);
    assert_eq!(w.len(), 32 + 32 + 66);
    assert_eq!(FundingSigned::read_from_fixed_length_buffer(&w), Ok(fs));
    let mut w = Vec::new();
    us.write(&mut w);
    assert_eq!(UpdateSigned::read_from_fixed_length_buffer(&w), Ok(us));
    let mut w = Vec::new();
    ua.write(&mut w);
    assert_eq!(UpdateSignedAck::read_from_fixed_length_buffer(&w), Ok(ua.clone()));
    // no TLV record is known to these messages
    w.extend_from_slice(&[0, 0]);
    assert_eq!(
        UpdateSignedAck::read_from_fixed_length_buffer(&w),
        Err(DecodeError::UnknownRequiredFeature)
    );
}

#[test]
fn channel_ready_roundtrip() {
    let m = ChannelReady { channel_id: ChannelId([7; 32]) };
    let mut w = Vec::new();
    m.write(&mut w);
    assert_eq!(w, vec![7u8; 32]);
    assert_eq!(ChannelReady::read_from_fixed_length_buffer(&w), Ok(m.clone()));
    w.extend_from_slice(&[3, 1, 0xff]);
    assert_eq!(ChannelReady::read_from_fixed_length_buffer(&w), Ok(m));
    assert_eq!(ChannelReady::read_from_fixed_length_buffer(&[7; 31]), Err(DecodeError::ShortRead));
}

#[test]
fn shutdown_roundtrip() {
    let m = Shutdown { channel_id: ChannelId([8; 32]), script_pubkey: vec![0x51, 0x20, 0x01], next_nonce: nonce() };
    let mut w = Vec::new();
    m.write(&mut w);
    assert_eq!(&w[32..37], &[0x00, 0x03, 0x51, 0x20, 0x01]);
    assert_eq!(w.len(), 32 + 2 + 3 + 66);
    assert_eq!(Shutdown::read_from_fixed_length_buffer(&w), Ok(m));
}

#[test]
fn shutdown_long_script_length_wraps() {
    // The length of a script is sent in 16 bits: a script of 65536 bytes is announced as empty.
    let m = Shutdown { channel_id: ChannelId([8; 32]), script_pubkey: vec![0xab; 65536], next_nonce: nonce() };
    let mut w = Vec::new();
    m.write(&mut w);
    assert_eq!(&w[32..34], &[0, 0]);
    assert_eq!(w.len(), 32 + 2 + 65536 + 66);
    // read back, the script is empty and the bytes of the script are taken for the nonce
    assert_eq!(Shutdown::read_from_fixed_length_buffer(&w), Err(DecodeError::InvalidValue));
}

#[test]
fn closing_signed_roundtrip() {
    let full = ClosingSigned {
        channel_id: ChannelId([9; 32]),
        fee: 1234,
        fee_range: Some(ClosingSignedFeeRange { min_fee_satoshis: 1000, max_fee_satoshis: 2000 }),
        nonce: Some(nonce()),
        partial_signature: Some(sig(5)),
    };
    let mut w = Vec::new();
    full.write(&mut w);
    assert_eq!(&w[40..44], &[0, 16, 0, 0]);
    assert_eq!(w.len(), 40 + (2 + 16) + (2 + 66) + (2 + 32));
    assert_eq!(ClosingSigned::read_from_fixed_length_buffer(&w), Ok(full));

    let bare = ClosingSigned {
        channel_id: ChannelId([9; 32]),
        fee: 1,
        fee_range: None,
        nonce: None,
        partial_signature: Some(sig(5)),
    };
    let mut w = Vec::new();
    bare.write(&mut w);
    assert_eq!(w.len(), 40 + 34);
    assert_eq!(ClosingSigned::read_from_fixed_length_buffer(&w), Ok(bare));
}

#[test]
fn closing_signed_record_lengths() {
    let mut head = Vec::new();
    ClosingSigned { channel_id: ChannelId([9; 32]), fee: 1, fee_range: None, nonce: None, partial_signature: None }
        .write(&mut head);
    assert_eq!(head.len(), 40);

    // a fee range record shorter than a fee range
    let mut w = head.clone();
    w.extend_from_slice(&[0, 8]);
    w.extend_from_slice(&[0; 8]);
    assert_eq!(ClosingSigned::read_from_fixed_length_buffer(&w), Err(DecodeError::ShortRead));

    // a fee range record longer than a fee range
    let mut w = head.clone();
    w.extend_from_slice(&[0, 17]);
    w.extend_from_slice(&[0; 17]);
    assert_eq!(ClosingSigned::read_from_fixed_length_buffer(&w), Err(DecodeError::InvalidValue));

    // ... and one that claims more bytes than the buffer has
    let mut w = head.clone();
    w.extend_from_slice(&[0, 20]);
    w.extend_from_slice(&[0; 17]);
    assert_eq!(ClosingSigned::read_from_fixed_length_buffer(&w), Err(DecodeError::ShortRead));

    // a partial signature record holding an invalid scalar
    let mut w = head.clone();
    w.extend_from_slice(&[3, 32]);
    w.extend_from_slice(&[0xff; 32]);
    assert_eq!(ClosingSigned::read_from_fixed_length_buffer(&w), Err(DecodeError::InvalidValue));

    // a fee range read from its record
    let mut w = head.clone();
    w.extend_from_slice(&[0, 16]);
    w.extend_from_slice(&5u64.to_be_bytes());
    w.extend_from_slice(&6u64.to_be_bytes());
    let m = ClosingSigned::read_from_fixed_length_buffer(&w).unwrap();
    assert_eq!(m.fee_range, Some(ClosingSignedFeeRange { min_fee_satoshis: 5, max_fee_satoshis: 6 }));
}

#[test]
fn channel_reestablish_roundtrip() {
    let m = ChannelReestablish {
        channel_id: ChannelId([4; 32]),
        last_update_number: 0x0102030405060708,
        update_partial_signature: sig(4),
        fresh_nonce: nonce(),
    };
    let mut w = Vec::new();
    m.write(&mut w);
    assert_eq!(&w[32..40], &[1, 2, 3, 4, 5, 6, 7, 8]);
    assert_eq!(ChannelReestablish::read_from_fixed_length_buffer(&w), Ok(m));
}

#[test]
fn message_type_ids_and_channel_ids() {
    let msgs = vec![
        Message::OpenChannel(open_channel()),
        Message::AcceptChannel(accept_channel()),
        Message::FundingCreated(FundingCreated {
            temporary_channel_id: ChannelId([0x44; 32]),
            funding_outpoint: OutPoint { txid: Txid([0x55; 32]), vout: 0 },
            update_partial_signature: sig(1),
            next_nonce: nonce(),
        }),
        Message::FundingSigned(FundingSigned { channel_id: ChannelId([1; 32]), update_partial_signature: sig(1), next_nonce: nonce() }),
        Message::ChannelReady(ChannelReady { channel_id: ChannelId([5; 32]) }),
        Message::Shutdown(Shutdown { channel_id: ChannelId([6; 32]), script_pubkey: vec![], next_nonce: nonce() }),
        Message::ClosingSigned(ClosingSigned { channel_id: ChannelId([7; 32]), fee: 0, fee_range: None, nonce: None, partial_signature: None }),
        Message::UpdateSigned(UpdateSigned { channel_id: ChannelId([8; 32]), update_partial_signature: sig(1), next_nonce: nonce() }),
        Message::UpdateSignedAck(UpdateSignedAck { channel_id: ChannelId([9; 32]), update_partial_signature: sig(1), next_nonce: nonce() }),
        Message::ChannelReestablish(ChannelReestablish { channel_id: ChannelId([10; 32]), last_update_number: 0, update_partial_signature: sig(1), fresh_nonce: nonce() }),
    ];
    let types: Vec<u16> = msgs.iter().map(|m| m.type_id()).collect();
    assert_eq!(types, vec![32778, 32769, 32770, 32771, 32772, 32773, 32774, 32775, 32776, 32777]);
    let ids: Vec<ChannelId> = msgs.iter().map(|m| m.channel_id()).collect();
    assert_eq!(ids[0], ChannelId([0x22; 32]));
    assert_eq!(ids[1], ChannelId([0x33; 32]));
    assert_eq!(ids[2], ChannelId([0x44; 32]));
    assert_eq!(ids[9], ChannelId([10; 32]));

    // the channel id follows the chain hash in open_channel_eltoo and leads every other message
    for (i, m) in msgs.iter().enumerate() {
        let mut w = Vec::new();
        m.write(&mut w);
        let off = if i == 0 { 32 } else { 0 };
        assert_eq!(&w[off..off + 32], &m.channel_id().0);
    }

    // a message writes the body of the message it holds
    let mut direct = Vec::new();
    open_channel().write(&mut direct);
    let mut through = Vec::new();
    msgs[0].write(&mut through);
    assert_eq!(direct, through);
}

#[test]
fn invalid_keys_are_refused() {
    let mut bad = G;
    bad[0] = 0x05;
    assert!(PublicKey::from_slice(&bad).is_none());
    let mut off_curve = [0xffu8; 33];
    off_curve[0] = 0x02;
    assert!(PublicKey::from_slice(&off_curve).is_none());
    assert!(PublicNonce::from_byte_array(&[0u8; 66]).is_none());
    assert!(PartialSignature::from_byte_array(&[0xff; 32]).is_none());
    assert_eq!(key(&G).serialize(), G);
    assert_eq!(nonce().serialize(), nonce_bytes());
    assert_eq!(sig(3).serialize(), sig_bytes(3));
    assert!(key(&G).same_key(&key(&G)));
    assert!(!key(&G).same_key(&key(&G2)));
}
