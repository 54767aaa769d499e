use exchange_backend::protocol::VOICE_AUDIO_PAYLOAD_TYPE;
use exchange_backend::rtp::RtpL16Packet;

#[test]
fn rtp_l16_uses_network_order_and_the_project_audio_payload_type() {
    let packet = RtpL16Packet {
        marker: true,
        sequence: 41,
        timestamp: 960,
        ssrc: 0x1234_5678,
        samples: vec![-2, 0x1234, i16::MAX],
    };

    let encoded = packet.encode();
    assert_eq!(encoded[0], 0x80);
    assert_eq!(encoded[1], 0x80 | VOICE_AUDIO_PAYLOAD_TYPE);
    assert_eq!(
        &encoded[12..],
        &[
            (-2_i16).to_be_bytes(),
            0x1234_i16.to_be_bytes(),
            i16::MAX.to_be_bytes()
        ]
        .concat()
    );
    assert_eq!(RtpL16Packet::decode(&encoded).unwrap(), packet);
}

#[test]
fn a_plain_rtp_packet_reencodes_to_its_own_bytes() {
    let bytes: Vec<u8> = vec![0x80, 0xe0, 0x01, 0x02, 0, 0, 0, 9, 0xde, 0xad, 0xbe, 0xef, 0xff, 0xfe, 0x00, 0x05];
    let packet = RtpL16Packet::decode(&bytes).unwrap();
    assert!(packet.marker);
    assert_eq!(packet.samples, vec![-2, 5]);
    assert_eq!(packet.encode(), bytes);
}
