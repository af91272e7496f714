use hub_remote::codec::{
    AdminPayload, ControlPayload, DecodeError, DeviceCmd, Payload, SettingsPayload, MAX_CALLBACK_LEN,
};

#[test]
fn test_payload_integrity_and_size() {
    let original = Payload::Control(ControlPayload::QuickAction {
        room: 1_000_000,
        device: 2_000_000,
        cmd: DeviceCmd::ShowChart { h: 168, o: -168 },
    });

    let encoded = original.to_string();
    let len = encoded.len();

    println!("Binary/B64 Buffer use: {}/64 bytes", len);
    println!("Encoded String: {}", encoded);

    assert!(len > 0, "Encoded string should not be empty");
    assert!(len <= 64, "🛑 Payload overflow: {} bytes used. Max is 64.", len);

    let restored = Payload::from_string(&encoded)
        .expect("Failed to decode payload from Base64/Binary");

    assert_eq!(restored, original, "Data corruption: restored payload differs from original");
}

#[test]
fn stored_context_text_decodes_to_chart_action() {
    let p = Payload::from_string("AQMENAUYAA").expect("Failed to decode test payload");
    assert_eq!(
        p,
        Payload::Control(ControlPayload::QuickAction {
            room: 2,
            device: 26,
            cmd: DeviceCmd::ShowChart { h: 24, o: 0 },
        })
    );
    assert_eq!(p.to_string(), "AQMENAUYAA");
}

#[test]
fn binary_form_is_tagged_zigzag_varints() {
    assert_eq!(Payload::Home.to_bytes(), vec![0u8]);
    assert_eq!(Payload::InDev.to_bytes(), vec![4u8]);
    assert_eq!(
        Payload::Control(ControlPayload::RoomDetail { room: 5 }).to_bytes(),
        vec![1u8, 1, 10]
    );
    assert_eq!(
        Payload::Control(ControlPayload::RoomDetail { room: -1 }).to_bytes(),
        vec![1u8, 1, 1]
    );
    assert_eq!(
        Payload::Admin(AdminPayload::AddUser { id: 300 }).to_bytes(),
        vec![3u8, 2, 0xAC, 0x02]
    );
    assert_eq!(
        Payload::Control(ControlPayload::QuickAction {
            room: 0,
            device: 0,
            cmd: DeviceCmd::SetTemp(0x41B4_0000),
        })
        .to_bytes(),
        vec![1u8, 3, 0, 0, 4, 0x00, 0x00, 0xB4, 0x41]
    );
    assert_eq!(Payload::Home.to_string(), "AA");
}

fn every_shape() -> Vec<Payload> {
    let big = i64::MAX;
    let small = i64::MIN;
    let mut all = vec![
        Payload::Home,
        Payload::InDev,
        Payload::Control(ControlPayload::ListRooms),
        Payload::Control(ControlPayload::RoomDetail { room: big }),
        Payload::Control(ControlPayload::DeviceControl { room: small, device: big }),
        Payload::Settings(SettingsPayload::ListRooms),
        Payload::Settings(SettingsPayload::RoomDetail { room: small }),
        Payload::Settings(SettingsPayload::DeviceDetail { room: 1, device: 2 }),
        Payload::Settings(SettingsPayload::ToggleNotify { room: 3, device: 4 }),
        Payload::Settings(SettingsPayload::ToggleHide { room: 5, device: 6 }),
        Payload::Settings(SettingsPayload::EditName { room: 7, device: 8 }),
        Payload::Admin(AdminPayload::ListActions),
        Payload::Admin(AdminPayload::ListUsers),
        Payload::Admin(AdminPayload::AddUser { id: u32::MAX }),
        Payload::Admin(AdminPayload::DeleteUser { id: 0 }),
    ];
    for cmd in [
        DeviceCmd::Toggle,
        DeviceCmd::TurnOn,
        DeviceCmd::TurnOff,
        DeviceCmd::SetLevel(255),
        DeviceCmd::SetTemp(u32::MAX),
        DeviceCmd::ShowChart { h: u32::MAX, o: i32::MIN },
        DeviceCmd::ShowChart { h: 168, o: -168 },
        DeviceCmd::EnterManualInput,
    ] {
        all.push(Payload::Control(ControlPayload::QuickAction { room: small, device: big, cmd }));
    }
    all
}

#[test]
fn every_shape_round_trips_within_limit() {
    for p in every_shape() {
        let text = p.to_string();
        assert!(!text.is_empty());
        assert!(text.len() <= MAX_CALLBACK_LEN, "{:?} takes {} bytes", p, text.len());
        assert!(text.chars().all(|c| c.is_ascii_alphanumeric() || c == '-' || c == '_'), "{}", text);
        assert_eq!(Payload::from_string(&text), Ok(p));
        assert_eq!(Payload::from_bytes(&p.to_bytes()), Some(p));
    }
}

#[test]
fn empty_text_is_a_decode_error() {
    assert_eq!(Payload::from_string(""), Err(DecodeError::Malformed));
}

#[test]
fn garbage_text_is_a_decode_error() {
    assert_eq!(Payload::from_string("!!not base64!!"), Err(DecodeError::NotBase64));
    assert_eq!(Payload::from_string("A"), Err(DecodeError::NotBase64));
    assert_eq!(Payload::from_string("_w"), Err(DecodeError::Malformed));
}

#[test]
fn truncated_text_is_a_decode_error() {
    let text = Payload::Control(ControlPayload::QuickAction {
        room: 1_000_000,
        device: 2_000_000,
        cmd: DeviceCmd::ShowChart { h: 168, o: -168 },
    })
    .to_string();
    let mut cut = text.clone();
    while cut.len() > 1 {
        cut.pop();
        assert!(Payload::from_string(&cut).is_err(), "{} decoded", cut);
    }
}

#[test]
fn trailing_and_overlong_bytes_are_rejected() {
    assert_eq!(Payload::from_bytes(&[0u8, 0]), None);
    assert_eq!(Payload::from_bytes(&[1u8, 1, 0x8A, 0x00]), None);
    assert_eq!(Payload::from_bytes(&[9u8]), None);
    assert_eq!(Payload::from_bytes(&[]), None);
    assert_eq!(
        Payload::from_bytes(&[3u8, 2, 0xFF, 0xFF, 0xFF, 0xFF, 0x10]),
        None
    );
}
