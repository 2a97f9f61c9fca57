use vstd::prelude::*;
use crate::bytes::copy_range;

verus! {

/// An IPv6 address held as its sixteen bytes in network order.
#[derive(Debug, PartialEq, Eq)]
pub struct Ipv6Address {
    bytes: Vec<u8>,
}

impl View for Ipv6Address {
    type V = Seq<u8>;

    closed spec fn view(&self) -> Seq<u8> {
        self.bytes@
    }
}

impl Clone for Ipv6Address {
    fn clone(&self) -> (r: Self)
        ensures
            r@ == self@,
    {
        Ipv6Address { bytes: copy_range(&self.bytes, 0, self.bytes.len()) }
    }
}

/// The sixteen bytes of the address whose eight big-endian segments are the
/// given sixteen-bit values.
pub open spec fn segment_bytes(
    s0: u16, s1: u16, s2: u16, s3: u16, s4: u16, s5: u16, s6: u16, s7: u16,
) -> Seq<u8> {
    seq![
        (s0 / 256) as u8, (s0 % 256) as u8,
        (s1 / 256) as u8, (s1 % 256) as u8,
        (s2 / 256) as u8, (s2 % 256) as u8,
        (s3 / 256) as u8, (s3 % 256) as u8,
        (s4 / 256) as u8, (s4 % 256) as u8,
        (s5 / 256) as u8, (s5 % 256) as u8,
        (s6 / 256) as u8, (s6 % 256) as u8,
        (s7 / 256) as u8, (s7 % 256) as u8,
    ]
}

/// The unspecified address `::`, the source a node probes from while it has
/// no address of its own yet.
pub open spec fn unspecified_bytes() -> Seq<u8> {
    segment_bytes(0, 0, 0, 0, 0, 0, 0, 0)
}

/// The all-nodes link-local multicast address `ff02::1`.
pub open spec fn all_nodes_bytes() -> Seq<u8> {
    segment_bytes(0xff02, 0, 0, 0, 0, 0, 0, 1)
}

/// The all-routers link-local multicast address `ff02::2`.
pub open spec fn all_routers_bytes() -> Seq<u8> {
    segment_bytes(0xff02, 0, 0, 0, 0, 0, 0, 2)
}

/// The solicited-node multicast address of `target`: the fixed 104-bit
/// prefix `ff02::1:ff00:0/104` followed by the low 24 bits of `target`.
pub open spec fn solicited_node_bytes(target: Seq<u8>) -> Seq<u8>
    recommends
        target.len() == 16,
{
    seq![
        0xffu8, 0x02u8, 0u8, 0u8, 0u8, 0u8, 0u8, 0u8,
        0u8, 0u8, 0u8, 0x01u8, 0xffu8, target[13], target[14], target[15],
    ]
}

impl Ipv6Address {
    /// A value is well formed when it holds exactly sixteen bytes.
    pub open spec fn wf(&self) -> bool {
        self@.len() == 16
    }

    /// Wraps sixteen raw bytes, already in network order.
    pub fn from_bytes(bytes: Vec<u8>) -> (a: Ipv6Address)
        requires
            bytes@.len() == 16,
        ensures
            a@ == bytes@,
            a.wf(),
    {
        Ipv6Address { bytes }
    }

    /// The address's sixteen bytes in network order.
    pub fn as_bytes(&self) -> (r: &Vec<u8>)
        ensures
            r@ == self@,
    {
        &self.bytes
    }

    /// Builds an address from its eight big-endian sixteen-bit segments.
    pub fn from_segments(
        s0: u16, s1: u16, s2: u16, s3: u16, s4: u16, s5: u16, s6: u16, s7: u16,
    ) -> (a: Ipv6Address)
        ensures
            a@ == segment_bytes(s0, s1, s2, s3, s4, s5, s6, s7),
            a.wf(),
    {
        let mut bytes: Vec<u8> = Vec::new();
        bytes.push((s0 / 256) as u8);
        bytes.push((s0 % 256) as u8);
        bytes.push((s1 / 256) as u8);
        bytes.push((s1 % 256) as u8);
        bytes.push((s2 / 256) as u8);
        bytes.push((s2 % 256) as u8);
        bytes.push((s3 / 256) as u8);
        bytes.push((s3 % 256) as u8);
        bytes.push((s4 / 256) as u8);
        bytes.push((s4 % 256) as u8);
        bytes.push((s5 / 256) as u8);
        bytes.push((s5 % 256) as u8);
        bytes.push((s6 / 256) as u8);
        bytes.push((s6 % 256) as u8);
        bytes.push((s7 / 256) as u8);
        bytes.push((s7 % 256) as u8);
        proof {
            assert(bytes@ =~= segment_bytes(s0, s1, s2, s3, s4, s5, s6, s7));
        }
        Ipv6Address { bytes }
    }

    /// The unspecified address `::`.
    pub fn unspecified() -> (a: Ipv6Address)
        ensures
            a@ == unspecified_bytes(),
            a.wf(),
    {
        Ipv6Address::from_segments(0, 0, 0, 0, 0, 0, 0, 0)
    }

    /// The all-nodes multicast address `ff02::1`.
    pub fn all_nodes_multicast() -> (a: Ipv6Address)
        ensures
            a@ == all_nodes_bytes(),
            a.wf(),
    {
        Ipv6Address::from_segments(0xff02, 0, 0, 0, 0, 0, 0, 1)
    }

    /// The all-routers multicast address `ff02::2`.
    pub fn all_routers_multicast() -> (a: Ipv6Address)
        ensures
            a@ == all_routers_bytes(),
            a.wf(),
    {
        Ipv6Address::from_segments(0xff02, 0, 0, 0, 0, 0, 0, 2)
    }

    /// Derives the solicited-node multicast address of `target`.
    pub fn solicited_node_multicast(target: &Ipv6Address) -> (a: Ipv6Address)
        requires
            target.wf(),
        ensures
            a@ == solicited_node_bytes(target@),
            a.wf(),
    {
        let mut bytes: Vec<u8> = Vec::new();
        bytes.push(0xff);
        bytes.push(0x02);
        bytes.push(0);
        bytes.push(0);
        bytes.push(0);
        bytes.push(0);
        bytes.push(0);
        bytes.push(0);
        bytes.push(0);
        bytes.push(0);
        bytes.push(0);
        bytes.push(0x01);
        bytes.push(0xff);
        bytes.push(target.bytes[13]);
        bytes.push(target.bytes[14]);
        bytes.push(target.bytes[15]);
        proof {
            assert(bytes@ =~= solicited_node_bytes(target@));
        }
        Ipv6Address { bytes }
    }

    /// Joins the high eight bytes of `prefix` with an eight-byte interface
    /// identifier to form a full address.
    pub fn with_interface_id(prefix: &Ipv6Address, interface_id: &Vec<u8>) -> (a: Ipv6Address)
        requires
            prefix.wf(),
            interface_id@.len() == 8,
        ensures
            a@ == prefix@.subrange(0, 8) + interface_id@,
            a.wf(),
    {
        let mut bytes: Vec<u8> = copy_range(&prefix.bytes, 0, 8);
        let mut i: usize = 0;
        while i < 8
            invariant
                i <= 8,
                interface_id@.len() == 8,
                prefix@.len() == 16,
                bytes@ == prefix@.subrange(0, 8) + interface_id@.subrange(0, i as int),
            decreases 8 - i,
        {
            bytes.push(interface_id[i]);
            i = i + 1;
            proof {
                assert(bytes@ =~= prefix@.subrange(0, 8) + interface_id@.subrange(0, i as int));
            }
        }
        proof {
            assert(bytes@ =~= prefix@.subrange(0, 8) + interface_id@);
        }
        Ipv6Address { bytes }
    }

    /// The link-local address `fe80::` followed by an eight-byte interface
    /// identifier.
    pub fn link_local_from_interface_id(interface_id: &Vec<u8>) -> (a: Ipv6Address)
        requires
            interface_id@.len() == 8,
        ensures
            a@ == segment_bytes(0xfe80, 0, 0, 0, 0, 0, 0, 0).subrange(0, 8) + interface_id@,
            a.wf(),
    {
        let base = Ipv6Address::from_segments(0xfe80, 0, 0, 0, 0, 0, 0, 0);
        Ipv6Address::with_interface_id(&base, interface_id)
    }
}

} // verus!
