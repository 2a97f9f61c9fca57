use vstd::prelude::*;
use crate::addr::{all_nodes_bytes, solicited_node_bytes, unspecified_bytes, Ipv6Address};
use crate::bytes::copy_range;
use crate::errors::{EncodeError, ProcedureError, TransportError};
use crate::messages::{
    encode, message_encodable, spec_encode, spec_encode_zero, NdpMessage, NdpMessageView,
};
use crate::options::{
    lemma_encode_options_singleton, lemma_encoded_option_len, option_encodable, options_view,
    spec_encode_options, NdpOption, NdpOptionKind, NdpOptionView,
};

verus! {

/// The verdict of Duplicate Address Detection.
#[derive(Clone, Copy, Debug, PartialEq, Eq, Structural)]
pub enum DadOutcome {
    /// Nothing answered the probe: no other node uses the address.
    Unique,
    /// Something answered: the address is already in use.
    Duplicate,
}

/// The neighbor solicitation that probes for `target`, carrying the probing
/// node's link-layer address as its single option.
pub open spec fn dad_probe_message(target: Seq<u8>, lladdr: Seq<u8>) -> NdpMessageView {
    NdpMessageView::NeighborSolicitation {
        target,
        options: seq![
            NdpOptionView { kind: NdpOptionKind::SourceLinkLayerAddress, data: lladdr },
        ],
    }
}

/// The neighbor advertisement that announces `address`, carrying the
/// sender's link-layer address as its single option.
pub open spec fn advertisement_message(address: Seq<u8>, lladdr: Seq<u8>) -> NdpMessageView {
    NdpMessageView::NeighborAdvertisement {
        target: address,
        options: seq![
            NdpOptionView { kind: NdpOptionKind::SourceLinkLayerAddress, data: lladdr },
        ],
    }
}

/// Proves that a well-formed message whose single option carries `lladdr`
/// can be encoded exactly when `lladdr` fits the option length field, and
/// bounds its zero-checksum wire size by the fixed header plus one padded
/// option.
pub proof fn lemma_single_option_message(m: NdpMessageView, lladdr: Seq<u8>)
    requires
        crate::messages::message_wf(m),
        crate::messages::message_options(m) == seq![
            NdpOptionView { kind: NdpOptionKind::SourceLinkLayerAddress, data: lladdr },
        ],
    ensures
        message_encodable(m) <==> lladdr.len() <= 2038,
        lladdr.len() <= 2038 ==> spec_encode_zero(m).len() <= 24 + 2040,
{
    let o = NdpOptionView { kind: NdpOptionKind::SourceLinkLayerAddress, data: lladdr };
    let opts = seq![o];
    if lladdr.len() <= 2038 {
        assert forall|i: int| 0 <= i < opts.len() implies option_encodable(
            #[trigger] opts[i],
        ) by {
            assert(opts[i] == o);
        }
        lemma_encode_options_singleton(o);
        lemma_encoded_option_len(o);
        assert(spec_encode_options(opts).len() <= 2040);
        match m {
            NdpMessageView::NeighborSolicitation { target, options } => {
                assert(spec_encode_zero(m).len() == 8 + target.len()
                    + spec_encode_options(options).len());
            },
            NdpMessageView::NeighborAdvertisement { target, options } => {
                assert(spec_encode_zero(m).len() == 8 + target.len()
                    + spec_encode_options(options).len());
            },
            NdpMessageView::RouterSolicitation { options } => {
                assert(spec_encode_zero(m).len() == 8 + spec_encode_options(options).len());
            },
            NdpMessageView::RouterAdvertisement { options } => {
                assert(spec_encode_zero(m).len() == 16 + spec_encode_options(options).len());
            },
        }
    } else {
        assert(!option_encodable(opts[0]));
    }
}

/// Builds the Duplicate Address Detection probe for `candidate`: the
/// solicited-node multicast destination derived from it, and a neighbor
/// solicitation for it carrying `source_lladdr`, encoded with the
/// unspecified source address `::`, as a node that owns no address yet must
/// probe. Fails exactly when `source_lladdr` overflows the option length
/// field.
pub fn build_dad_probe(candidate: &Ipv6Address, source_lladdr: &Vec<u8>) -> (r: Result<
    (Ipv6Address, Vec<u8>),
    EncodeError,
>)
    requires
        candidate.wf(),
    ensures
        match r {
            Ok(p) => source_lladdr@.len() <= 2038 && p.0@ == solicited_node_bytes(candidate@)
                && p.1@ == spec_encode(
                dad_probe_message(candidate@, source_lladdr@),
                unspecified_bytes(),
                solicited_node_bytes(candidate@),
            ),
            Err(e) => e == EncodeError::OptionTooLong && source_lladdr@.len() > 2038,
        },
{
    let destination = Ipv6Address::solicited_node_multicast(candidate);
    let data = copy_range(source_lladdr, 0, source_lladdr.len());
    let mut options: Vec<NdpOption> = Vec::new();
    options.push(NdpOption { kind: NdpOptionKind::SourceLinkLayerAddress, data });
    let target = candidate.clone();
    let message = NdpMessage::NeighborSolicitation { target, options };
    proof {
        assert(source_lladdr@.subrange(0, source_lladdr@.len() as int) =~= source_lladdr@);
        assert(options_view(options@).len() == 1);
        assert(options_view(options@)[0] == options@[0]@);
        assert(options_view(options@) =~= seq![
            NdpOptionView { kind: NdpOptionKind::SourceLinkLayerAddress, data: source_lladdr@ },
        ]);
        assert(message@ == dad_probe_message(candidate@, source_lladdr@));
        lemma_single_option_message(message@, source_lladdr@);
    }
    let source = Ipv6Address::unspecified();
    match encode(&message, &source, &destination) {
        Ok(bytes) => Ok((destination, bytes)),
        Err(e) => Err(e),
    }
}

/// Decides Duplicate Address Detection from the outcome of the bounded wait
/// that followed the probe: silence before the timeout means the candidate
/// is unique, any ICMPv6 packet arriving on the exchange means it is already
/// in use — the reply's content is deliberately not inspected — and a
/// channel failure is surfaced unchanged, never retried.
pub fn decide_dad(event: Result<Option<(Ipv6Address, Vec<u8>)>, TransportError>) -> (r: Result<
    DadOutcome,
    ProcedureError,
>)
    ensures
        match event {
            Ok(None) => r == Ok::<DadOutcome, ProcedureError>(DadOutcome::Unique),
            Ok(Some(p)) => r == Ok::<DadOutcome, ProcedureError>(DadOutcome::Duplicate),
            Err(e) => r == Err::<DadOutcome, ProcedureError>(ProcedureError::Transport(e)),
        },
{
    match event {
        Ok(None) => Ok(DadOutcome::Unique),
        Ok(Some(_)) => Ok(DadOutcome::Duplicate),
        Err(e) => Err(ProcedureError::Transport(e)),
    }
}

/// Builds the fire-and-forget announcement of `address`: a neighbor
/// advertisement for it carrying `source_lladdr`, encoded with `address`
/// itself as source, addressed to the all-nodes multicast group `ff02::1`.
/// Fails exactly when `source_lladdr` overflows the option length field.
pub fn build_advertisement(address: &Ipv6Address, source_lladdr: &Vec<u8>) -> (r: Result<
    (Ipv6Address, Vec<u8>),
    EncodeError,
>)
    requires
        address.wf(),
    ensures
        match r {
            Ok(p) => source_lladdr@.len() <= 2038 && p.0@ == all_nodes_bytes()
                && p.1@ == spec_encode(
                advertisement_message(address@, source_lladdr@),
                address@,
                all_nodes_bytes(),
            ),
            Err(e) => e == EncodeError::OptionTooLong && source_lladdr@.len() > 2038,
        },
{
    let destination = Ipv6Address::all_nodes_multicast();
    let data = copy_range(source_lladdr, 0, source_lladdr.len());
    let mut options: Vec<NdpOption> = Vec::new();
    options.push(NdpOption { kind: NdpOptionKind::SourceLinkLayerAddress, data });
    let target = address.clone();
    let message = NdpMessage::NeighborAdvertisement { target, options };
    proof {
        assert(source_lladdr@.subrange(0, source_lladdr@.len() as int) =~= source_lladdr@);
        assert(options_view(options@).len() == 1);
        assert(options_view(options@)[0] == options@[0]@);
        assert(options_view(options@) =~= seq![
            NdpOptionView { kind: NdpOptionKind::SourceLinkLayerAddress, data: source_lladdr@ },
        ]);
        assert(message@ == advertisement_message(address@, source_lladdr@));
        lemma_single_option_message(message@, source_lladdr@);
    }
    match encode(&message, address, &destination) {
        Ok(bytes) => Ok((destination, bytes)),
        Err(e) => Err(e),
    }
}

} // verus!
