use vstd::prelude::*;
use crate::addr::{all_routers_bytes, unspecified_bytes, Ipv6Address};
use crate::bytes::copy_range;
use crate::dad::lemma_single_option_message;
use crate::errors::{DecodeError, EncodeError, ProcedureError, TransportError};
use crate::messages::{
    decode, encode, spec_decode, spec_encode, NdpMessage, NdpMessageView,
};
use crate::options::{options_view, NdpOption, NdpOptionKind, NdpOptionView};

verus! {

/// An on-link prefix advertised by a router: the prefix bytes and how many
/// of its leading bits are significant.
#[derive(Debug, PartialEq, Eq)]
pub struct PrefixInfo {
    pub prefix: Ipv6Address,
    pub prefix_length: u8,
}

/// The mathematical shape of an advertised prefix.
pub struct PrefixInfoView {
    pub prefix: Seq<u8>,
    pub prefix_length: u8,
}

impl View for PrefixInfo {
    type V = PrefixInfoView;

    open spec fn view(&self) -> PrefixInfoView {
        PrefixInfoView { prefix: self.prefix@, prefix_length: self.prefix_length }
    }
}

/// The router solicitation that asks for an advertisement, carrying the
/// sender's link-layer address as its single option.
pub open spec fn router_solicit_message(lladdr: Seq<u8>) -> NdpMessageView {
    NdpMessageView::RouterSolicitation {
        options: seq![
            NdpOptionView { kind: NdpOptionKind::SourceLinkLayerAddress, data: lladdr },
        ],
    }
}

/// What scanning an option run for the first prefix information option
/// yields. A prefix information option is 32 bytes on the wire; after its
/// two-byte header, 30 payload bytes remain, with the prefix length first
/// and the sixteen prefix bytes last. A first prefix information option
/// shorter than that is malformed; an option run without one misses the
/// information altogether.
pub open spec fn spec_extract_prefix(options: Seq<NdpOptionView>) -> Result<
    PrefixInfoView,
    ProcedureError,
>
    decreases options.len(),
{
    if options.len() == 0 {
        Err(ProcedureError::MissingPrefixInformation)
    } else if options[0].kind == NdpOptionKind::PrefixInformation {
        if options[0].data.len() < 30 {
            Err(ProcedureError::MalformedOption)
        } else {
            Ok(
                PrefixInfoView {
                    prefix: options[0].data.subrange(14, 30),
                    prefix_length: options[0].data[0],
                },
            )
        }
    } else {
        spec_extract_prefix(options.skip(1))
    }
}

/// What the packet that answered a router solicitation yields: if it decodes
/// to a router advertisement, the first advertised prefix; if it decodes to
/// another kind, or not at all, the reason. An ill-formed option run is
/// surfaced as such, never mistaken for a valid reply.
pub open spec fn spec_interpret_response(bytes: Seq<u8>) -> Result<
    PrefixInfoView,
    ProcedureError,
> {
    match spec_decode(bytes) {
        Ok(m) => match m {
            NdpMessageView::RouterAdvertisement { options } => spec_extract_prefix(options),
            _ => Err(ProcedureError::UnexpectedMessage),
        },
        Err(DecodeError::MalformedOption) => Err(ProcedureError::MalformedOption),
        Err(_) => Err(ProcedureError::UnexpectedMessage),
    }
}

/// Builds the router discovery probe: the all-routers multicast destination
/// `ff02::2`, and a router solicitation carrying `source_lladdr`, encoded
/// with the unspecified source address `::`. Fails exactly when
/// `source_lladdr` overflows the option length field.
pub fn build_router_solicit_probe(source_lladdr: &Vec<u8>) -> (r: Result<
    (Ipv6Address, Vec<u8>),
    EncodeError,
>)
    ensures
        match r {
            Ok(p) => source_lladdr@.len() <= 2038 && p.0@ == all_routers_bytes()
                && p.1@ == spec_encode(
                router_solicit_message(source_lladdr@),
                unspecified_bytes(),
                all_routers_bytes(),
            ),
            Err(e) => e == EncodeError::OptionTooLong && source_lladdr@.len() > 2038,
        },
{
    let destination = Ipv6Address::all_routers_multicast();
    let data = copy_range(source_lladdr, 0, source_lladdr.len());
    let mut options: Vec<NdpOption> = Vec::new();
    options.push(NdpOption { kind: NdpOptionKind::SourceLinkLayerAddress, data });
    let message = NdpMessage::RouterSolicitation { options };
    proof {
        assert(source_lladdr@.subrange(0, source_lladdr@.len() as int) =~= source_lladdr@);
        assert(options_view(options@).len() == 1);
        assert(options_view(options@)[0] == options@[0]@);
        assert(options_view(options@) =~= seq![
            NdpOptionView { kind: NdpOptionKind::SourceLinkLayerAddress, data: source_lladdr@ },
        ]);
        assert(message@ == router_solicit_message(source_lladdr@));
        lemma_single_option_message(message@, source_lladdr@);
    }
    let source = Ipv6Address::unspecified();
    match encode(&message, &source, &destination) {
        Ok(bytes) => Ok((destination, bytes)),
        Err(e) => Err(e),
    }
}

/// Scans a decoded option run for the first prefix information option and
/// extracts the advertised prefix and its length from it.
pub fn extract_prefix(options: &Vec<NdpOption>) -> (r: Result<PrefixInfo, ProcedureError>)
    ensures
        match r {
            Ok(p) => spec_extract_prefix(options_view(options@)) == Ok::<
                PrefixInfoView,
                ProcedureError,
            >(p@),
            Err(e) => spec_extract_prefix(options_view(options@)) == Err::<
                PrefixInfoView,
                ProcedureError,
            >(e),
        },
{
    let ghost all = options_view(options@);
    let n: usize = options.len();
    let mut i: usize = 0;
    proof {
        assert(all.skip(0) =~= all);
    }
    while i < n
        invariant
            i <= n,
            n == options@.len(),
            all == options_view(options@),
            spec_extract_prefix(all.skip(i as int)) == spec_extract_prefix(all),
        decreases n - i,
    {
        proof {
            assert(all.skip(i as int)[0] == options@[i as int]@);
        }
        match options[i].kind {
            NdpOptionKind::PrefixInformation => {
                let opt = &options[i];
                if opt.data.len() < 30 {
                    return Err(ProcedureError::MalformedOption);
                }
                let prefix = Ipv6Address::from_bytes(copy_range(&opt.data, 14, 30));
                let prefix_length: u8 = opt.data[0];
                let info = PrefixInfo { prefix, prefix_length };
                return Ok(info);
            },
            _ => {},
        }
        proof {
            assert(all.skip(i as int).skip(1) =~= all.skip(i as int + 1));
        }
        i = i + 1;
    }
    proof {
        assert(all.skip(n as int) =~= Seq::<NdpOptionView>::empty());
    }
    Err(ProcedureError::MissingPrefixInformation)
}

/// Interprets the outcome of the bounded wait that followed a router
/// solicitation: a timeout means no router answered; an arriving packet is
/// decoded and its first advertised prefix extracted; a channel failure is
/// surfaced unchanged, never retried.
pub fn interpret_discovery_response(
    event: Result<Option<(Ipv6Address, Vec<u8>)>, TransportError>,
) -> (r: Result<PrefixInfo, ProcedureError>)
    ensures
        match event {
            Ok(None) => r == Err::<PrefixInfo, ProcedureError>(ProcedureError::NoResponse),
            Ok(Some(p)) => match r {
                Ok(info) => spec_interpret_response(p.1@) == Ok::<
                    PrefixInfoView,
                    ProcedureError,
                >(info@),
                Err(e) => spec_interpret_response(p.1@) == Err::<
                    PrefixInfoView,
                    ProcedureError,
                >(e),
            },
            Err(e) => r == Err::<PrefixInfo, ProcedureError>(ProcedureError::Transport(e)),
        },
{
    match event {
        Ok(None) => Err(ProcedureError::NoResponse),
        Ok(Some(packet)) => {
            let (_, bytes) = packet;
            match decode(&bytes) {
                Ok(m) => match m {
                    NdpMessage::RouterAdvertisement { options } => extract_prefix(&options),
                    _ => Err(ProcedureError::UnexpectedMessage),
                },
                Err(DecodeError::MalformedOption) => Err(ProcedureError::MalformedOption),
                Err(_) => Err(ProcedureError::UnexpectedMessage),
            }
        },
        Err(e) => Err(ProcedureError::Transport(e)),
    }
}

} // verus!
