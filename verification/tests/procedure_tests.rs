use ndp::addr::Ipv6Address;
use ndp::dad::{build_advertisement, build_dad_probe, decide_dad, DadOutcome};
use ndp::discovery::{
    build_router_solicit_probe, extract_prefix, interpret_discovery_response, PrefixInfo,
};
use ndp::errors::{EncodeError, ProcedureError, TransportError};
use ndp::messages::{decode, encode, NdpMessage};
use ndp::options::{NdpOption, NdpOptionKind};

fn zero_lladdr() -> Vec<u8> {
    vec![0x00, 0x00, 0x00, 0x00, 0x00, 0x00]
}

fn some_source() -> Ipv6Address {
    Ipv6Address::from_segments(0xfe80, 0, 0, 0, 0, 0, 0, 1)
}

/// A router advertisement whose single option is a 32-byte prefix
/// information option advertising 2001:db8::/64.
fn ra_with_prefix_information() -> Vec<u8> {
    let mut data = vec![64u8, 0];
    data.extend_from_slice(&[0; 12]);
    data.extend_from_slice(&[
        0x20, 0x01, 0x0d, 0xb8, 0, 0, 0, 0, 0, 0, 0, 0, 0, 0, 0, 0,
    ]);
    let message = NdpMessage::RouterAdvertisement {
        options: vec![NdpOption {
            kind: NdpOptionKind::PrefixInformation,
            data,
        }],
    };
    encode(&message, &some_source(), &Ipv6Address::all_nodes_multicast()).unwrap()
}

#[test]
fn test_dad_probe_destination_and_frame() {
    let candidate = Ipv6Address::from_segments(0xfe80, 0, 0, 0, 0, 0, 0, 0x1234);
    let lladdr = zero_lladdr();
    let (destination, bytes) = build_dad_probe(&candidate, &lladdr).unwrap();
    // The destination is the solicited-node multicast address of the
    // candidate: ff02::1:ff00:1234.
    assert_eq!(
        destination,
        Ipv6Address::from_segments(0xff02, 0, 0, 0, 0, 1, 0xff00, 0x1234),
    );
    // The frame is the neighbor solicitation for the candidate, sent from
    // the unspecified address.
    let expected_message = NdpMessage::NeighborSolicitation {
        target: candidate,
        options: vec![NdpOption {
            kind: NdpOptionKind::SourceLinkLayerAddress,
            data: zero_lladdr(),
        }],
    };
    let expected = encode(
        &expected_message,
        &Ipv6Address::unspecified(),
        &destination,
    )
    .unwrap();
    assert_eq!(bytes, expected);
    assert_eq!(bytes[0], 135);
}

#[test]
fn test_dad_probe_rejects_oversized_lladdr() {
    let candidate = Ipv6Address::from_segments(0xfe80, 0, 0, 0, 0, 0, 0, 0x1234);
    let lladdr = vec![0u8; 2039];
    assert_eq!(
        build_dad_probe(&candidate, &lladdr),
        Err(EncodeError::OptionTooLong),
    );
}

#[test]
fn test_dad_timeout_means_unique() {
    let verdict = decide_dad(Ok(None));
    assert_eq!(verdict, Ok(DadOutcome::Unique));
}

#[test]
fn test_dad_any_reply_means_duplicate() {
    let packet = (some_source(), vec![0x88, 0, 0, 0]);
    let verdict = decide_dad(Ok(Some(packet)));
    assert_eq!(verdict, Ok(DadOutcome::Duplicate));
}

#[test]
fn test_dad_surfaces_transport_error() {
    let verdict = decide_dad(Err(TransportError {
        message: String::from("channel closed"),
    }));
    match verdict {
        Err(ProcedureError::Transport(e)) => assert_eq!(e.message, "channel closed"),
        other => panic!("expected a transport error, got {:?}", other),
    }
}

#[test]
fn test_advertisement_destination_and_frame() {
    let address = Ipv6Address::from_segments(0xfe80, 0, 0, 0, 0, 0, 0, 0x1234);
    let lladdr = zero_lladdr();
    let (destination, bytes) = build_advertisement(&address, &lladdr).unwrap();
    assert_eq!(destination, Ipv6Address::all_nodes_multicast());
    // The advertisement is sent from the announced address itself.
    let expected_message = NdpMessage::NeighborAdvertisement {
        target: address.clone(),
        options: vec![NdpOption {
            kind: NdpOptionKind::SourceLinkLayerAddress,
            data: zero_lladdr(),
        }],
    };
    let expected = encode(&expected_message, &address, &destination).unwrap();
    assert_eq!(bytes, expected);
    assert_eq!(bytes[0], 136);
}

#[test]
fn test_router_solicit_probe_destination_and_frame() {
    let lladdr = zero_lladdr();
    let (destination, bytes) = build_router_solicit_probe(&lladdr).unwrap();
    assert_eq!(destination, Ipv6Address::all_routers_multicast());
    let expected_message = NdpMessage::RouterSolicitation {
        options: vec![NdpOption {
            kind: NdpOptionKind::SourceLinkLayerAddress,
            data: zero_lladdr(),
        }],
    };
    let expected = encode(
        &expected_message,
        &Ipv6Address::unspecified(),
        &destination,
    )
    .unwrap();
    assert_eq!(bytes, expected);
    assert_eq!(bytes[0], 133);
}

#[test]
fn test_prefix_extraction_from_router_advertisement() {
    let packet = (some_source(), ra_with_prefix_information());
    let info = interpret_discovery_response(Ok(Some(packet))).unwrap();
    assert_eq!(
        info,
        PrefixInfo {
            prefix: Ipv6Address::from_segments(0x2001, 0x0db8, 0, 0, 0, 0, 0, 0),
            prefix_length: 64,
        },
    );
}

#[test]
fn test_prefix_extraction_skips_other_options() {
    let decoded = decode(&ra_with_prefix_information()).unwrap();
    let mut options = vec![NdpOption {
        kind: NdpOptionKind::SourceLinkLayerAddress,
        data: zero_lladdr(),
    }];
    match decoded {
        NdpMessage::RouterAdvertisement { options: parsed } => {
            options.extend(parsed);
        },
        other => panic!("expected a router advertisement, got {:?}", other),
    }
    let info = extract_prefix(&options).unwrap();
    assert_eq!(info.prefix_length, 64);
    assert_eq!(
        info.prefix,
        Ipv6Address::from_segments(0x2001, 0x0db8, 0, 0, 0, 0, 0, 0),
    );
}

#[test]
fn test_missing_prefix_information() {
    let message = NdpMessage::RouterAdvertisement {
        options: vec![NdpOption {
            kind: NdpOptionKind::SourceLinkLayerAddress,
            data: zero_lladdr(),
        }],
    };
    let bytes = encode(&message, &some_source(), &Ipv6Address::all_nodes_multicast()).unwrap();
    let verdict = interpret_discovery_response(Ok(Some((some_source(), bytes))));
    assert!(matches!(
        verdict,
        Err(ProcedureError::MissingPrefixInformation)
    ));
}

#[test]
fn test_short_prefix_information_option_is_malformed() {
    // A prefix information option of a single eight-byte unit: its six
    // payload bytes cannot hold a prefix.
    let message = NdpMessage::RouterAdvertisement {
        options: vec![NdpOption {
            kind: NdpOptionKind::PrefixInformation,
            data: vec![64, 0, 0, 0, 0, 0],
        }],
    };
    let bytes = encode(&message, &some_source(), &Ipv6Address::all_nodes_multicast()).unwrap();
    let verdict = interpret_discovery_response(Ok(Some((some_source(), bytes))));
    assert!(matches!(verdict, Err(ProcedureError::MalformedOption)));
}

#[test]
fn test_discovery_timeout_means_no_response() {
    let verdict = interpret_discovery_response(Ok(None));
    assert!(matches!(verdict, Err(ProcedureError::NoResponse)));
}

#[test]
fn test_discovery_rejects_unexpected_message() {
    // A neighbor advertisement arrives instead of a router advertisement.
    let message = NdpMessage::NeighborAdvertisement {
        target: some_source(),
        options: vec![],
    };
    let bytes = encode(&message, &some_source(), &Ipv6Address::all_nodes_multicast()).unwrap();
    let verdict = interpret_discovery_response(Ok(Some((some_source(), bytes))));
    assert!(matches!(verdict, Err(ProcedureError::UnexpectedMessage)));
}

#[test]
fn test_discovery_rejects_malformed_reply() {
    // A router advertisement whose trailing option overruns the buffer.
    let mut bytes = vec![0x86u8, 0, 0, 0];
    bytes.extend_from_slice(&[0; 12]);
    bytes.extend_from_slice(&[0x03, 0x09, 64, 0, 0, 0, 0, 0]);
    let verdict = interpret_discovery_response(Ok(Some((some_source(), bytes))));
    assert!(matches!(verdict, Err(ProcedureError::MalformedOption)));
}

#[test]
fn test_discovery_surfaces_transport_error() {
    let verdict = interpret_discovery_response(Err(TransportError {
        message: String::from("socket failure"),
    }));
    match verdict {
        Err(ProcedureError::Transport(e)) => assert_eq!(e.message, "socket failure"),
        other => panic!("expected a transport error, got {:?}", other),
    }
}
