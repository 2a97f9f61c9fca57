use ndp::addr::Ipv6Address;
use ndp::checksum::compute_checksum;
use ndp::errors::DecodeError;
use ndp::messages::{decode, encode, NdpMessage};
use ndp::options::{NdpOption, NdpOptionKind};

fn zero_lladdr() -> Vec<u8> {
    vec![0x00, 0x00, 0x00, 0x00, 0x00, 0x00]
}

fn fixture_destination() -> Ipv6Address {
    // ff02::1:ff00:0:0:1234
    Ipv6Address::from_segments(0xff02, 0, 0, 1, 0xff00, 0, 0, 0x1234)
}

#[test]
fn test_gen_neighbor_solicit() {
    let ip_addr = Ipv6Address::from_segments(0xff02, 0, 0, 0, 0, 0, 0, 1);
    let dst = fixture_destination();
    let src = Ipv6Address::unspecified();
    let message = NdpMessage::NeighborSolicitation {
        target: ip_addr,
        options: vec![NdpOption {
            kind: NdpOptionKind::SourceLinkLayerAddress,
            data: zero_lladdr(),
        }],
    };
    assert_eq!(
        encode(&message, &src, &dst).unwrap(),
        vec![
            0x87, 0x00, 0x68, 0x67,
            0x00, 0x00, 0x00, 0x00,
            0xff, 0x02, 0x00, 0x00,
            0x00, 0x00, 0x00, 0x00,
            0x00, 0x00, 0x00, 0x00,
            0x00, 0x00, 0x00, 0x01,
            0x01, 0x01, 0x00, 0x00,
            0x00, 0x00, 0x00, 0x00,
        ],
    );
}

#[test]
fn test_gen_neighbor_advert() {
    let ip_addr = Ipv6Address::from_segments(0xff02, 0, 0, 0, 0, 0, 0, 1);
    let dst = fixture_destination();
    let src = Ipv6Address::unspecified();
    let message = NdpMessage::NeighborAdvertisement {
        target: ip_addr,
        options: vec![NdpOption {
            kind: NdpOptionKind::SourceLinkLayerAddress,
            data: zero_lladdr(),
        }],
    };
    assert_eq!(
        encode(&message, &src, &dst).unwrap(),
        vec![
            0x88, 0x00, 0x67, 0x67,
            0x00, 0x00, 0x00, 0x00,
            0xff, 0x02, 0x00, 0x00,
            0x00, 0x00, 0x00, 0x00,
            0x00, 0x00, 0x00, 0x00,
            0x00, 0x00, 0x00, 0x01,
            0x01, 0x01, 0x00, 0x00,
            0x00, 0x00, 0x00, 0x00,
        ],
    );
}

#[test]
fn test_gen_router_solicit() {
    let dst = fixture_destination();
    let src = Ipv6Address::unspecified();
    let message = NdpMessage::RouterSolicitation {
        options: vec![NdpOption {
            kind: NdpOptionKind::SourceLinkLayerAddress,
            data: zero_lladdr(),
        }],
    };
    assert_eq!(
        encode(&message, &src, &dst).unwrap(),
        vec![
            0x85, 0x00, 0x69, 0x7b,
            0x00, 0x00, 0x00, 0x00,
            0x01, 0x01, 0x00, 0x00,
            0x00, 0x00, 0x00, 0x00,
        ],
    );
}

#[test]
fn test_checksum_known_vector() {
    // The neighbor solicitation fixture with its checksum field zeroed.
    let message = vec![
        0x87, 0x00, 0x00, 0x00,
        0x00, 0x00, 0x00, 0x00,
        0xff, 0x02, 0x00, 0x00,
        0x00, 0x00, 0x00, 0x00,
        0x00, 0x00, 0x00, 0x00,
        0x00, 0x00, 0x00, 0x01,
        0x01, 0x01, 0x00, 0x00,
        0x00, 0x00, 0x00, 0x00,
    ];
    let src = Ipv6Address::unspecified();
    let dst = fixture_destination();
    assert_eq!(compute_checksum(&src, &dst, &message), 0x6867);
}

#[test]
fn test_checksum_odd_length_pads_with_zero() {
    let src = Ipv6Address::unspecified();
    let dst = Ipv6Address::from_segments(0xff02, 0, 0, 0, 0, 0, 0, 1);
    let odd = vec![0x85, 0x00, 0x00];
    let padded = vec![0x85, 0x00, 0x00, 0x00];
    // The odd buffer is one byte shorter, so the pseudo-header length differs
    // by one; apart from that the sums agree.
    let c_odd = compute_checksum(&src, &dst, &odd);
    let c_padded = compute_checksum(&src, &dst, &padded);
    assert_eq!(c_odd, c_padded + 1);
}

#[test]
fn test_round_trip_neighbor_solicitation() {
    let src = Ipv6Address::from_segments(0xfe80, 0, 0, 0, 0, 0, 0, 0x1234);
    let dst = Ipv6Address::from_segments(0xff02, 0, 0, 0, 0, 0, 0, 1);
    let message = NdpMessage::NeighborSolicitation {
        target: Ipv6Address::from_segments(0x2001, 0x0db8, 0, 0, 0, 0, 0, 7),
        options: vec![
            NdpOption {
                kind: NdpOptionKind::SourceLinkLayerAddress,
                data: vec![0xde, 0xad, 0xbe, 0xef, 0x00, 0x01],
            },
            NdpOption {
                kind: NdpOptionKind::Unknown(0xf7),
                data: vec![9, 8, 7, 6, 5, 4, 3, 2, 1, 0, 11, 12, 13, 14],
            },
        ],
    };
    let bytes = encode(&message, &src, &dst).unwrap();
    assert_eq!(decode(&bytes).unwrap(), message);
}

#[test]
fn test_round_trip_neighbor_advertisement() {
    let src = Ipv6Address::from_segments(0xfe80, 0, 0, 0, 0, 0, 0, 0x1234);
    let dst = Ipv6Address::all_nodes_multicast();
    let message = NdpMessage::NeighborAdvertisement {
        target: Ipv6Address::from_segments(0xfe80, 0, 0, 0, 0, 0, 0, 0x1234),
        options: vec![NdpOption {
            kind: NdpOptionKind::TargetLinkLayerAddress,
            data: vec![1, 2, 3, 4, 5, 6],
        }],
    };
    let bytes = encode(&message, &src, &dst).unwrap();
    assert_eq!(decode(&bytes).unwrap(), message);
}

#[test]
fn test_round_trip_router_solicitation() {
    let src = Ipv6Address::unspecified();
    let dst = Ipv6Address::all_routers_multicast();
    let message = NdpMessage::RouterSolicitation {
        options: vec![NdpOption {
            kind: NdpOptionKind::SourceLinkLayerAddress,
            data: vec![1, 2, 3, 4, 5, 6],
        }],
    };
    let bytes = encode(&message, &src, &dst).unwrap();
    assert_eq!(decode(&bytes).unwrap(), message);
}

#[test]
fn test_round_trip_router_advertisement() {
    let src = Ipv6Address::from_segments(0xfe80, 0, 0, 0, 0, 0, 0, 1);
    let dst = Ipv6Address::all_nodes_multicast();
    let mut prefix_option_data = vec![64, 0];
    prefix_option_data.extend_from_slice(&[0; 12]);
    prefix_option_data.extend_from_slice(&[
        0x20, 0x01, 0x0d, 0xb8, 0, 0, 0, 0, 0, 0, 0, 0, 0, 0, 0, 0,
    ]);
    assert_eq!(prefix_option_data.len(), 30);
    let message = NdpMessage::RouterAdvertisement {
        options: vec![NdpOption {
            kind: NdpOptionKind::PrefixInformation,
            data: prefix_option_data,
        }],
    };
    let bytes = encode(&message, &src, &dst).unwrap();
    assert_eq!(decode(&bytes).unwrap(), message);
}

#[test]
fn test_encode_pads_short_option_payload() {
    let src = Ipv6Address::unspecified();
    let dst = Ipv6Address::all_routers_multicast();
    let message = NdpMessage::RouterSolicitation {
        options: vec![NdpOption {
            kind: NdpOptionKind::Unknown(0xf7),
            data: vec![1, 2, 3],
        }],
    };
    let bytes = encode(&message, &src, &dst).unwrap();
    // Fixed header of 8 bytes, then one option padded to 8 bytes.
    assert_eq!(bytes.len(), 16);
    assert_eq!(&bytes[8..], &[0xf7, 0x01, 1, 2, 3, 0, 0, 0]);
    // Parsing hands the padded payload back.
    let reparsed = decode(&bytes).unwrap();
    assert_eq!(
        reparsed,
        NdpMessage::RouterSolicitation {
            options: vec![NdpOption {
                kind: NdpOptionKind::Unknown(0xf7),
                data: vec![1, 2, 3, 0, 0, 0],
            }],
        },
    );
}

#[test]
fn test_option_length_invariant_on_wire() {
    let src = Ipv6Address::unspecified();
    let dst = Ipv6Address::all_routers_multicast();
    for payload_len in [0usize, 1, 3, 6, 7, 14, 20, 30] {
        let message = NdpMessage::RouterSolicitation {
            options: vec![NdpOption {
                kind: NdpOptionKind::Unknown(0xf7),
                data: vec![0xab; payload_len],
            }],
        };
        let bytes = encode(&message, &src, &dst).unwrap();
        let option = &bytes[8..];
        assert_eq!(option.len() % 8, 0);
        assert_eq!(option[1] as usize * 8, option.len());
    }
}

#[test]
fn test_decode_empty_buffer() {
    assert_eq!(decode(&vec![]), Err(DecodeError::TooShort));
}

#[test]
fn test_decode_unknown_type() {
    let bytes = vec![0x63, 0x00, 0x00, 0x00, 0, 0, 0, 0];
    assert_eq!(decode(&bytes), Err(DecodeError::UnknownType));
}

#[test]
fn test_decode_truncated_fixed_header() {
    // A neighbor solicitation needs 24 bytes of fixed header.
    let bytes = vec![0x87, 0x00, 0x00, 0x00, 0, 0, 0, 0];
    assert_eq!(decode(&bytes), Err(DecodeError::TooShort));
}

#[test]
fn test_decode_option_overruns_buffer() {
    // A router solicitation whose option claims two eight-byte units while
    // only one remains.
    let mut bytes = vec![0x85, 0x00, 0x00, 0x00, 0, 0, 0, 0];
    bytes.extend_from_slice(&[0x01, 0x02, 0, 0, 0, 0, 0, 0]);
    assert_eq!(decode(&bytes), Err(DecodeError::MalformedOption));
}

#[test]
fn test_decode_zero_length_option() {
    let mut bytes = vec![0x85, 0x00, 0x00, 0x00, 0, 0, 0, 0];
    bytes.extend_from_slice(&[0x01, 0x00, 0, 0, 0, 0, 0, 0]);
    assert_eq!(decode(&bytes), Err(DecodeError::MalformedOption));
}

#[test]
fn test_decode_lone_trailing_byte() {
    let mut bytes = vec![0x85, 0x00, 0x00, 0x00, 0, 0, 0, 0];
    bytes.push(0x01);
    assert_eq!(decode(&bytes), Err(DecodeError::MalformedOption));
}

#[test]
fn test_solicited_node_multicast() {
    let target = Ipv6Address::from_segments(0xfe80, 0, 0, 0, 0x0123, 0x4567, 0x89ab, 0xcdef);
    let derived = Ipv6Address::solicited_node_multicast(&target);
    assert_eq!(
        derived,
        Ipv6Address::from_segments(0xff02, 0, 0, 0, 0, 1, 0xffab, 0xcdef),
    );
}

#[test]
fn test_with_interface_id() {
    let prefix = Ipv6Address::from_segments(0x2001, 0x0db8, 0, 0, 0, 0, 0, 0);
    let iface_id = vec![0, 0, 0, 0, 0, 0, 0x12, 0x34];
    let addr = Ipv6Address::with_interface_id(&prefix, &iface_id);
    assert_eq!(
        addr,
        Ipv6Address::from_segments(0x2001, 0x0db8, 0, 0, 0, 0, 0, 0x1234),
    );
}

#[test]
fn test_link_local_from_interface_id() {
    let iface_id = vec![0, 0, 0, 0, 0, 0, 0x12, 0x34];
    let addr = Ipv6Address::link_local_from_interface_id(&iface_id);
    assert_eq!(
        addr,
        Ipv6Address::from_segments(0xfe80, 0, 0, 0, 0, 0, 0, 0x1234),
    );
}
