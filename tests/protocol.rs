use walrus::commands::parse_frame;
use walrus::commands::Commands;

fn all_sendable() -> Vec<Commands> {
    vec![
        Commands::Categorise { category: "like".to_string() },
        Commands::Next,
        Commands::Pause,
        Commands::Previous,
        Commands::Resume,
        Commands::Shutdown,
        Commands::Reload,
    ]
}

#[test]
fn test_ipc_cmd() {
    let cmd = Commands::Next;
    let frame = cmd.to_frame().unwrap();
    let rx_cmd = parse_frame(&frame).unwrap();
    assert_eq!(cmd.to_bytes(), rx_cmd.to_bytes());
}

#[test]
fn test_ipc_cmd_data() {
    let cmd = Commands::Categorise { category: "Favourites".into() };
    let frame = cmd.to_frame().unwrap();
    let rx_cmd = parse_frame(&frame).unwrap();
    assert_eq!(cmd.to_bytes(), rx_cmd.to_bytes());
}

#[test]
fn test_stream_parsing() {
    let cmds = [
        Commands::Next,
        Commands::Previous,
        Commands::Pause,
        Commands::Resume,
        Commands::Reload,
    ];
    for cmd in cmds {
        let bytes = cmd.to_bytes().unwrap();
        let len = (bytes.len() as u16).to_le_bytes();
        let mut stream = Vec::new();
        stream.extend_from_slice(&len);
        stream.extend_from_slice(&bytes);
        let received = parse_frame(&stream).unwrap();
        assert!(!received.ends_session());
        assert_eq!(cmd.to_bytes(), received.to_bytes());
    }
}

#[test]
fn every_sendable_command_round_trips() {
    for cmd in all_sendable() {
        let bytes = cmd.to_bytes().unwrap();
        assert_eq!(Commands::from_bytes(&bytes), Some(cmd.clone()));
        let frame = cmd.to_frame().unwrap();
        assert_eq!(parse_frame(&frame), Some(cmd));
    }
}

#[test]
fn config_is_never_encoded() {
    assert_eq!(Commands::Config.to_bytes(), None);
    assert_eq!(Commands::Config.to_frame(), None);
}

#[test]
fn payload_bytes_are_bincode_standard() {
    assert_eq!(Commands::Next.to_bytes(), Some(vec![2]));
    assert_eq!(Commands::Reload.to_bytes(), Some(vec![7]));
    assert_eq!(
        Commands::Categorise { category: "ab".to_string() }.to_bytes(),
        Some(vec![0, 2, b'a', b'b'])
    );
    assert_eq!(Commands::Shutdown.to_frame(), Some(vec![1, 0, 6]));
}

#[test]
fn payload_matches_bincode_encoder() {
    let expected = bincode::encode_to_vec(("x".to_string(),), bincode::config::standard()).unwrap();
    let mut tagged = vec![0u8];
    tagged.extend_from_slice(&expected);
    assert_eq!(Commands::Categorise { category: "x".to_string() }.to_bytes(), Some(tagged));
}

#[test]
fn framed_next_is_received_as_next() {
    let frame = Commands::Next.to_frame().unwrap();
    assert_eq!(frame, vec![1, 0, 2]);
    assert_eq!(parse_frame(&frame), Some(Commands::Next));
}

#[test]
fn config_tag_and_unknown_tags_are_dropped() {
    assert_eq!(Commands::from_bytes(&[1]), None);
    assert_eq!(Commands::from_bytes(&[8]), None);
    assert_eq!(Commands::from_bytes(&[200]), None);
    assert_eq!(Commands::from_bytes(&[]), None);
}

#[test]
fn truncated_frames_are_dropped() {
    assert_eq!(parse_frame(&[]), None);
    assert_eq!(parse_frame(&[1]), None);
    assert_eq!(parse_frame(&[2, 0, 2]), None);
    assert_eq!(parse_frame(&[1, 0]), None);
}

#[test]
fn malformed_category_is_dropped() {
    // The string claims five bytes but holds two.
    assert_eq!(Commands::from_bytes(&[0, 5, b'a', b'b']), None);
    // Not UTF-8.
    assert_eq!(Commands::from_bytes(&[0, 1, 0xff]), None);
}

#[test]
fn shutdown_ends_the_session() {
    assert!(Commands::Shutdown.ends_session());
    assert!(!Commands::Next.ends_session());
}

#[test]
fn long_category_uses_wide_length() {
    let name = "c".repeat(300);
    let bytes = Commands::Categorise { category: name.clone() }.to_bytes().unwrap();
    assert_eq!(&bytes[..4], &[0, 251, 44, 1]);
    assert_eq!(bytes.len(), 4 + 300);
    let frame = Commands::Categorise { category: name.clone() }.to_frame().unwrap();
    assert_eq!(parse_frame(&frame), Some(Commands::Categorise { category: name }));
}

#[test]
fn oversized_payload_has_no_frame() {
    let name = "c".repeat(70000);
    let cmd = Commands::Categorise { category: name };
    assert!(cmd.to_bytes().is_some());
    assert_eq!(cmd.to_frame(), None);
}

#[test]
fn huge_length_prefix_is_dropped() {
    let mut frame = vec![10u8, 0, 0, 253];
    frame.extend_from_slice(&[0xff; 8]);
    assert_eq!(parse_frame(&frame), None);
    let mut payload = vec![0u8, 253];
    payload.extend_from_slice(&[0xff, 0xff, 0xff, 0xff, 0xff, 0xff, 0xff, 0x7f]);
    assert_eq!(Commands::from_bytes(&payload), None);
}

#[test]
fn incomplete_payloads_decode_to_nothing() {
    assert_eq!(Commands::from_bytes(&[0]), None);
    assert_eq!(Commands::from_bytes(&[251, 2]), None);
    assert_eq!(Commands::from_bytes(&[255]), None);
    assert_eq!(parse_frame(&[0, 0]), None);
}

#[test]
fn wide_tags_are_read_like_bincode() {
    // A tag written in the two-byte form still names its command.
    assert_eq!(Commands::from_bytes(&[251, 2, 0]), Some(Commands::Next));
    assert_eq!(Commands::from_bytes(&[252, 6, 0, 0, 0]), Some(Commands::Shutdown));
}
