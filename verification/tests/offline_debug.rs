use attack_shark_x3_manager::offline_debug::{
    debug_buttons, debug_dpi, debug_prefs, encode_debug_buttons, encode_debug_dpi,
    encode_debug_preferences, encode_debug_prefs, OfflinePacketFraming, OfflinePacketKind,
};
use attack_shark_x3_manager::protocol::{
    DpiFraming, PreferencesFraming, ProtocolError, TransportKind,
};

fn dpi_image() -> Vec<u8> {
    let mut image = vec![
        0x04, 0x38, 0x02, 0x01, 0x01, 0x03, 0x01, 0x00, 0x0f, 0x1f, 0, 0, 0, 0, 0, 0, 0, 0, 0, 0,
        0, 0, 0, 0, 0x02,
    ];
    image.extend(1..=25u8);
    image.extend([0x01, 0x7b]);
    image
}

#[test]
fn dpi_packet_preserves_tail_and_exact_checksum() {
    let packet = encode_debug_dpi(Ok(dpi_image()), TransportKind::Wired).expect("packet");
    assert_eq!(packet.kind, OfflinePacketKind::Dpi);
    assert_eq!(packet.framing, OfflinePacketFraming::Compact);
    assert_eq!(packet.transport, Some(TransportKind::Wired));
    assert_eq!(packet.report_id, 0x04);
    assert_eq!(packet.declared_length, 0x38);
    assert_eq!(packet.len(), 52);
    assert_eq!(
        packet.as_bytes()[..25],
        [
            0x04, 0x38, 0x02, 0x01, 0x01, 0x03, 0x01, 0x00, 0x0f, 0x1f, 0, 0, 0, 0, 0, 0, 0, 0, 0,
            0, 0, 0, 0, 0, 0x02,
        ]
    );
    assert_eq!(
        &packet.as_bytes()[25..50],
        &[
            1, 2, 3, 4, 5, 6, 7, 8, 9, 10, 11, 12, 13, 14, 15, 16, 17, 18, 19, 20, 21, 22, 23, 24,
            25
        ]
    );
    assert_eq!(&packet.as_bytes()[50..], &[0x01, 0x7b]);
}

#[test]
fn dpi_encoder_errors_are_passed_on() {
    let error = ProtocolError::InvalidStageCount { count: 0 };
    assert_eq!(
        encode_debug_dpi(Err(error), TransportKind::Ble),
        Err(ProtocolError::InvalidStageCount { count: 0 })
    );
    assert_eq!(
        debug_dpi(Ok(dpi_image()), TransportKind::Receiver),
        encode_debug_dpi(Ok(dpi_image()), TransportKind::Receiver)
    );
}

#[test]
fn preferences_packet_has_exact_compact_checksum_and_full_length() {
    let image = vec![
        0x05, 0x0f, 0x03, 0x10, 0x21, 0xa8, 0xaa, 0xbb, 0xcc, 4, 2, 0x03, 0x10,
    ];
    let compact = encode_debug_prefs(image.clone(), PreferencesFraming::Compact);
    assert_eq!(compact.len(), 13);
    assert_eq!(
        compact.as_bytes(),
        &[
            0x05, 0x0f, 0x03, 0x10, 0x21, 0xa8, 0xaa, 0xbb, 0xcc, 4, 2, 0x03, 0x10
        ]
    );
    assert_eq!(compact.framing, OfflinePacketFraming::Compact);
    assert_eq!(compact.transport, None);
    let mut padded = image;
    padded.extend([0, 0]);
    let full = encode_debug_prefs(padded.clone(), PreferencesFraming::Full);
    assert_eq!(full.len(), 15);
    assert_eq!(&full.as_bytes()[13..], &[0, 0]);
    assert_eq!(full.as_bytes()[..13], compact.as_bytes()[..]);
    assert_eq!(full.framing, OfflinePacketFraming::Full);
    assert_eq!(
        encode_debug_preferences(padded.clone(), PreferencesFraming::Full),
        full
    );
    assert_eq!(debug_prefs(padded, PreferencesFraming::Full), full);
}

#[test]
fn buttons_packet_contains_complete_table_and_checksum() {
    let mut image = vec![0x08, 0x3b, 0x01, 1, 2, 3];
    image.extend([0; 48]);
    image.extend([4, 5, 6, 0, 0x15]);
    let packet = encode_debug_buttons(image.clone());
    assert_eq!(packet.kind, OfflinePacketKind::Buttons);
    assert_eq!(packet.framing, OfflinePacketFraming::Fixed);
    assert_eq!(packet.len(), 59);
    assert!(!packet.is_empty());
    assert_eq!(&packet.as_bytes()[..6], &[0x08, 0x3b, 0x01, 1, 2, 3]);
    assert_eq!(&packet.as_bytes()[54..], &[4, 5, 6, 0, 0x15]);
    assert_eq!(debug_buttons(image), packet);
}

#[test]
fn framings_convert_without_loss() {
    assert_eq!(
        OfflinePacketFraming::from(DpiFraming::Compact),
        OfflinePacketFraming::Compact
    );
    assert_eq!(
        OfflinePacketFraming::from(DpiFraming::Full),
        OfflinePacketFraming::Full
    );
    assert_eq!(
        OfflinePacketFraming::from(PreferencesFraming::Full),
        OfflinePacketFraming::Full
    );
}
