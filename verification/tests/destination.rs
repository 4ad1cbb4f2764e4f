use v2x::destination::{
    parse_destination, unique_destinations, CamEncoding, DestinationConfig, DestinationError,
    MessageType, SocketEndpoint,
};
use v2x::encoding::V2xEncoding;

#[test]
fn parses_message_encoding_and_socket() {
    let fields = parse_destination("cam:uper:127.0.0.1:5000").ok().unwrap();
    assert_eq!(fields.message_type, MessageType::Cam);
    assert_eq!(fields.encoding, CamEncoding::Uper);
    assert_eq!(fields.socket, "127.0.0.1:5000");
}

#[test]
fn names_ignore_ascii_case() {
    let fields = parse_destination("CAM:Jer:[::1]:5001").ok().unwrap();
    assert_eq!(fields.message_type, MessageType::Cam);
    assert_eq!(fields.encoding, CamEncoding::Jer);
    assert_eq!(fields.socket, "[::1]:5001");
    let fields = parse_destination("cAm:XER:host:1").ok().unwrap();
    assert_eq!(fields.encoding, CamEncoding::Xer);
    assert_eq!(MessageType::from_name("Cam"), Some(MessageType::Cam));
    assert_eq!(MessageType::from_name("cams"), None);
    assert_eq!(CamEncoding::from_name("UPER"), Some(CamEncoding::Uper));
    assert_eq!(CamEncoding::from_name("per"), None);
}

#[test]
fn missing_parts_are_a_format_error() {
    for text in ["", "cam", "cam:uper", ":uper:1.2.3.4:5", "cam::1.2.3.4:5", "cam:uper:"] {
        match parse_destination(text) {
            Err(DestinationError::Format { value }) => assert_eq!(value, text),
            _ => panic!("expected a format error for {text:?}"),
        }
    }
    let err = parse_destination("cam:uper").err().unwrap();
    assert_eq!(
        err.message(),
        "invalid destination 'cam:uper': expected format message:encoding:host:port"
    );
}

#[test]
fn unknown_names_are_reported() {
    let err = parse_destination("denm:uper:127.0.0.1:5000").err().unwrap();
    match &err {
        DestinationError::UnknownMessageType { name, value } => {
            assert_eq!(name, "denm");
            assert_eq!(value, "denm:uper:127.0.0.1:5000");
        }
        _ => panic!("expected an unknown message type"),
    }
    assert_eq!(
        err.message(),
        "invalid message type 'denm' in destination 'denm:uper:127.0.0.1:5000'"
    );

    let err = parse_destination("cam:ber:127.0.0.1:5000").err().unwrap();
    match &err {
        DestinationError::UnknownEncoding { name, .. } => assert_eq!(name, "ber"),
        _ => panic!("expected an unknown encoding"),
    }
    assert_eq!(err.message(), "invalid encoding 'ber' in destination 'cam:ber:127.0.0.1:5000'");
}

#[test]
fn the_message_type_is_checked_before_the_encoding() {
    assert!(matches!(
        parse_destination("x:y:z"),
        Err(DestinationError::UnknownMessageType { .. })
    ));
}

#[test]
fn encodings_name_their_rules() {
    assert_eq!(CamEncoding::Uper.to_v2x_encoding(), V2xEncoding::Uper);
    assert_eq!(V2xEncoding::from(CamEncoding::Xer), V2xEncoding::Xer);
    assert_eq!(V2xEncoding::from(CamEncoding::Jer), V2xEncoding::Jer);
}

fn destination(port: u16, encoding: CamEncoding) -> DestinationConfig {
    DestinationConfig {
        socket: SocketEndpoint::V4 { ipv4: 0x7f00_0001, port },
        encoding,
        message_type: MessageType::Cam,
    }
}

#[test]
fn duplicate_destinations_are_kept_once_in_first_order() {
    let a = destination(5000, CamEncoding::Uper);
    let b = destination(5001, CamEncoding::Jer);
    let c = destination(5000, CamEncoding::Jer);
    let unique = unique_destinations(&[a, b, a, c, b, a]);
    assert_eq!(unique, vec![a, b, c]);
    assert_eq!(unique_destinations(&unique), unique);
    assert_eq!(unique_destinations(&[]), Vec::<DestinationConfig>::new());
}

#[test]
fn ipv6_destinations_compare_all_their_parts() {
    let a = DestinationConfig {
        socket: SocketEndpoint::V6 { ipv6: 1, port: 5000, flowinfo: 0, scope_id: 0 },
        encoding: CamEncoding::Uper,
        message_type: MessageType::Cam,
    };
    let b = DestinationConfig {
        socket: SocketEndpoint::V6 { ipv6: 1, port: 5000, flowinfo: 0, scope_id: 2 },
        ..a
    };
    assert_eq!(unique_destinations(&[a, b, a]), vec![a, b]);
}
