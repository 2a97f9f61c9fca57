use vstd::prelude::*;
use crate::addr::Ipv6Address;
use crate::bytes::{copy_range, push_all};
use crate::checksum::{compute_checksum, icmpv6_checksum};
use crate::errors::{DecodeError, EncodeError};
use crate::options::{
    encode_option_into, kind_of_code, kind_of_code_of, lemma_encode_options_concat,
    option_code, option_encodable, option_canonical, options_canonical, options_encodable, options_view, spec_encode_option,
    spec_encode_options, zero_bytes, NdpOption, NdpOptionKind, NdpOptionView,
};
use vstd::pervasive::VecAdditionalExecFns;

verus! {

/// ICMPv6 type byte of a router solicitation.
pub const ROUTER_SOLICIT_TYPE: u8 = 133;

/// ICMPv6 type byte of a router advertisement.
pub const ROUTER_ADVERT_TYPE: u8 = 134;

/// ICMPv6 type byte of a neighbor solicitation.
pub const NEIGHBOR_SOLICIT_TYPE: u8 = 135;

/// ICMPv6 type byte of a neighbor advertisement.
pub const NEIGHBOR_ADVERT_TYPE: u8 = 136;

/// One of the four NDP message kinds this library handles. Fields that this
/// system never sets on sending and never reads on reception — the
/// advertisement flags, lifetimes and timers — are not modelled; they encode
/// as zero.
#[derive(Debug, PartialEq, Eq)]
pub enum NdpMessage {
    NeighborSolicitation { target: Ipv6Address, options: Vec<NdpOption> },
    NeighborAdvertisement { target: Ipv6Address, options: Vec<NdpOption> },
    RouterSolicitation { options: Vec<NdpOption> },
    RouterAdvertisement { options: Vec<NdpOption> },
}

/// The mathematical shape of a message.
pub enum NdpMessageView {
    NeighborSolicitation { target: Seq<u8>, options: Seq<NdpOptionView> },
    NeighborAdvertisement { target: Seq<u8>, options: Seq<NdpOptionView> },
    RouterSolicitation { options: Seq<NdpOptionView> },
    RouterAdvertisement { options: Seq<NdpOptionView> },
}

impl View for NdpMessage {
    type V = NdpMessageView;

    open spec fn view(&self) -> NdpMessageView {
        match self {
            NdpMessage::NeighborSolicitation { target, options } =>
                NdpMessageView::NeighborSolicitation {
                    target: target@,
                    options: options_view(options@),
                },
            NdpMessage::NeighborAdvertisement { target, options } =>
                NdpMessageView::NeighborAdvertisement {
                    target: target@,
                    options: options_view(options@),
                },
            NdpMessage::RouterSolicitation { options } =>
                NdpMessageView::RouterSolicitation { options: options_view(options@) },
            NdpMessage::RouterAdvertisement { options } =>
                NdpMessageView::RouterAdvertisement { options: options_view(options@) },
        }
    }
}

/// The options a message carries.
pub open spec fn message_options(m: NdpMessageView) -> Seq<NdpOptionView> {
    match m {
        NdpMessageView::NeighborSolicitation { options, .. } => options,
        NdpMessageView::NeighborAdvertisement { options, .. } => options,
        NdpMessageView::RouterSolicitation { options } => options,
        NdpMessageView::RouterAdvertisement { options } => options,
    }
}

/// A message can be encoded exactly when each of its options fits its
/// length field.
pub open spec fn message_encodable(m: NdpMessageView) -> bool {
    options_encodable(message_options(m))
}

/// The wire form of a message with its checksum field still zero: type byte,
/// code zero, two zero checksum bytes, the fixed fields of the kind, then
/// the options.
pub open spec fn spec_encode_zero(m: NdpMessageView) -> Seq<u8> {
    match m {
        NdpMessageView::NeighborSolicitation { target, options } =>
            seq![NEIGHBOR_SOLICIT_TYPE, 0u8, 0u8, 0u8] + zero_bytes(4) + target
                + spec_encode_options(options),
        NdpMessageView::NeighborAdvertisement { target, options } =>
            seq![NEIGHBOR_ADVERT_TYPE, 0u8, 0u8, 0u8] + zero_bytes(4) + target
                + spec_encode_options(options),
        NdpMessageView::RouterSolicitation { options } =>
            seq![ROUTER_SOLICIT_TYPE, 0u8, 0u8, 0u8] + zero_bytes(4)
                + spec_encode_options(options),
        NdpMessageView::RouterAdvertisement { options } =>
            seq![ROUTER_ADVERT_TYPE, 0u8, 0u8, 0u8] + zero_bytes(12)
                + spec_encode_options(options),
    }
}

/// The full wire form of a message carried from `src` to `dst`: the zero-
/// checksum form with the ICMPv6 checksum written into bytes two and three.
pub open spec fn spec_encode(m: NdpMessageView, src: Seq<u8>, dst: Seq<u8>) -> Seq<u8> {
    let body = spec_encode_zero(m);
    let c = icmpv6_checksum(src, dst, body);
    body.update(2, (c / 256) as u8).update(3, (c % 256) as u8)
}

/// Appends the wire form of each option in turn; fails, without a promise on
/// what was already appended, when some option does not fit its length field.
fn encode_options_into(out: &mut Vec<u8>, options: &Vec<NdpOption>) -> (r: Result<
    (),
    EncodeError,
>)
    ensures
        match r {
            Ok(()) => options_encodable(options_view(options@))
                && final(out)@ == old(out)@ + spec_encode_options(options_view(options@)),
            Err(e) => e == EncodeError::OptionTooLong
                && !options_encodable(options_view(options@)),
        },
{
    let ghost all = options_view(options@);
    let mut i: usize = 0;
    proof {
        assert(all.take(0) =~= Seq::<NdpOptionView>::empty());
    }
    while i < options.len()
        invariant
            i <= options@.len(),
            all == options_view(options@),
            out@ == old(out)@ + spec_encode_options(all.take(i as int)),
            forall|j: int| 0 <= j < i ==> option_encodable(#[trigger] all[j]),
        decreases options@.len() - i,
    {
        match encode_option_into(out, &options[i]) {
            Ok(()) => {},
            Err(e) => {
                proof {
                    assert(all[i as int] == options@[i as int]@);
                    assert(!options_encodable(all)) by {
                        assert(!option_encodable(all[i as int]));
                    }
                }
                return Err(e);
            },
        }
        proof {
            assert(all[i as int] == options@[i as int]@);
            assert(all.take(i + 1) =~= all.take(i as int) + seq![all[i as int]]);
            lemma_encode_options_concat(all.take(i as int), seq![all[i as int]]);
            let single = seq![all[i as int]];
            assert(single.skip(1) =~= Seq::<NdpOptionView>::empty());
            assert(spec_encode_options(single) == spec_encode_option(single[0])
                + spec_encode_options(single.skip(1)));
            assert(spec_encode_options(Seq::<NdpOptionView>::empty()) =~= Seq::<u8>::empty());
            assert(spec_encode_options(single) =~= spec_encode_option(all[i as int]));
        }
        i = i + 1;
    }
    proof {
        assert(all.take(options@.len() as int) =~= all);
    }
    Ok(())
}

/// Serialises a message for transmission from `source` to `destination`:
/// fixed header fields in network order, each option padded to the
/// eight-byte boundary, and the ICMPv6 checksum written into its field.
/// Fails exactly when some option, with its header, would exceed the 2040
/// bytes its length field can describe.
pub fn encode(message: &NdpMessage, source: &Ipv6Address, destination: &Ipv6Address) -> (r:
    Result<Vec<u8>, EncodeError>)
    requires
        source.wf(),
        destination.wf(),
        message_encodable(message@) ==> spec_encode_zero(message@).len() <= 0xffffffff,
    ensures
        match r {
            Ok(bytes) => message_encodable(message@)
                && bytes@ == spec_encode(message@, source@, destination@),
            Err(e) => e == EncodeError::OptionTooLong && !message_encodable(message@),
        },
{
    let mut buf: Vec<u8> = Vec::new();
    match message {
        NdpMessage::NeighborSolicitation { target, options } => {
            buf.push(NEIGHBOR_SOLICIT_TYPE);
            buf.push(0);
            buf.push(0);
            buf.push(0);
            buf.push(0);
            buf.push(0);
            buf.push(0);
            buf.push(0);
            push_all(&mut buf, target.as_bytes());
            match encode_options_into(&mut buf, options) {
                Ok(()) => {},
                Err(e) => {
                    return Err(e);
                },
            }
        },
        NdpMessage::NeighborAdvertisement { target, options } => {
            buf.push(NEIGHBOR_ADVERT_TYPE);
            buf.push(0);
            buf.push(0);
            buf.push(0);
            buf.push(0);
            buf.push(0);
            buf.push(0);
            buf.push(0);
            push_all(&mut buf, target.as_bytes());
            match encode_options_into(&mut buf, options) {
                Ok(()) => {},
                Err(e) => {
                    return Err(e);
                },
            }
        },
        NdpMessage::RouterSolicitation { options } => {
            buf.push(ROUTER_SOLICIT_TYPE);
            buf.push(0);
            buf.push(0);
            buf.push(0);
            buf.push(0);
            buf.push(0);
            buf.push(0);
            buf.push(0);
            match encode_options_into(&mut buf, options) {
                Ok(()) => {},
                Err(e) => {
                    return Err(e);
                },
            }
        },
        NdpMessage::RouterAdvertisement { options } => {
            buf.push(ROUTER_ADVERT_TYPE);
            buf.push(0);
            buf.push(0);
            buf.push(0);
            let mut j: usize = 0;
            while j < 12
                invariant
                    j <= 12,
                    buf@ == seq![ROUTER_ADVERT_TYPE, 0u8, 0u8, 0u8] + zero_bytes(j as nat),
                decreases 12 - j,
            {
                buf.push(0);
                j = j + 1;
                proof {
                    assert(buf@ =~= seq![ROUTER_ADVERT_TYPE, 0u8, 0u8, 0u8]
                        + zero_bytes(j as nat));
                }
            }
            match encode_options_into(&mut buf, options) {
                Ok(()) => {},
                Err(e) => {
                    return Err(e);
                },
            }
        },
    }
    proof {
        assert(buf@ =~= spec_encode_zero(message@));
    }
    let c = compute_checksum(source, destination, &buf);
    buf.set(2, (c / 256) as u8);
    buf.set(3, (c % 256) as u8);
    Ok(buf)
}

/// What parsing a byte sequence as a run of options yields: the options in
/// order, or the error on the first ill-formed one. A lone trailing byte, a
/// zero length field, and a length that overruns the buffer are all
/// malformed.
pub open spec fn spec_decode_options(s: Seq<u8>) -> Result<Seq<NdpOptionView>, DecodeError>
    decreases s.len(),
{
    if s.len() == 0 {
        Ok(Seq::empty())
    } else if s.len() < 2 {
        Err(DecodeError::MalformedOption)
    } else if s[1] == 0 {
        Err(DecodeError::MalformedOption)
    } else if s[1] * 8 > s.len() {
        Err(DecodeError::MalformedOption)
    } else {
        let olen = s[1] * 8;
        match spec_decode_options(s.skip(olen)) {
            Ok(rest) => Ok(
                seq![NdpOptionView { kind: kind_of_code(s[0]), data: s.subrange(2, olen) }]
                    + rest,
            ),
            Err(e) => Err(e),
        }
    }
}

/// The number of bytes in the fixed header of the message kind whose ICMPv6
/// type byte is `t`, counting the four leading type/code/checksum bytes.
pub open spec fn fixed_header_len(t: u8) -> int {
    if t == NEIGHBOR_SOLICIT_TYPE || t == NEIGHBOR_ADVERT_TYPE {
        24
    } else if t == ROUTER_SOLICIT_TYPE {
        8
    } else {
        16
    }
}

/// What parsing a buffer as an NDP message yields: the message, or the first
/// error — too short for even the type byte, an unhandled type byte, too
/// short for the kind's fixed header, or an ill-formed option run.
pub open spec fn spec_decode(s: Seq<u8>) -> Result<NdpMessageView, DecodeError> {
    if s.len() == 0 {
        Err(DecodeError::TooShort)
    } else if s[0] == NEIGHBOR_SOLICIT_TYPE {
        if s.len() < 24 {
            Err(DecodeError::TooShort)
        } else {
            match spec_decode_options(s.skip(24)) {
                Ok(opts) => Ok(
                    NdpMessageView::NeighborSolicitation {
                        target: s.subrange(8, 24),
                        options: opts,
                    },
                ),
                Err(e) => Err(e),
            }
        }
    } else if s[0] == NEIGHBOR_ADVERT_TYPE {
        if s.len() < 24 {
            Err(DecodeError::TooShort)
        } else {
            match spec_decode_options(s.skip(24)) {
                Ok(opts) => Ok(
                    NdpMessageView::NeighborAdvertisement {
                        target: s.subrange(8, 24),
                        options: opts,
                    },
                ),
                Err(e) => Err(e),
            }
        }
    } else if s[0] == ROUTER_SOLICIT_TYPE {
        if s.len() < 8 {
            Err(DecodeError::TooShort)
        } else {
            match spec_decode_options(s.skip(8)) {
                Ok(opts) => Ok(NdpMessageView::RouterSolicitation { options: opts }),
                Err(e) => Err(e),
            }
        }
    } else if s[0] == ROUTER_ADVERT_TYPE {
        if s.len() < 16 {
            Err(DecodeError::TooShort)
        } else {
            match spec_decode_options(s.skip(16)) {
                Ok(opts) => Ok(NdpMessageView::RouterAdvertisement { options: opts }),
                Err(e) => Err(e),
            }
        }
    } else {
        Err(DecodeError::UnknownType)
    }
}

/// Parses the options that start at position `start` of `bytes`.
fn decode_options(bytes: &Vec<u8>, start: usize) -> (r: Result<Vec<NdpOption>, DecodeError>)
    requires
        start <= bytes@.len(),
    ensures
        match r {
            Ok(opts) => spec_decode_options(bytes@.skip(start as int))
                == Ok::<_, DecodeError>(options_view(opts@)),
            Err(e) => spec_decode_options(bytes@.skip(start as int))
                == Err::<Seq<NdpOptionView>, _>(e),
        },
{
    let n: usize = bytes.len();
    let mut opts: Vec<NdpOption> = Vec::new();
    let mut idx: usize = start;
    proof {
        assert(options_view(opts@) =~= Seq::<NdpOptionView>::empty());
    }
    while idx < n
        invariant
            start <= idx <= n,
            n == bytes@.len(),
            match spec_decode_options(bytes@.skip(idx as int)) {
                Ok(rest) => spec_decode_options(bytes@.skip(start as int))
                    == Ok::<_, DecodeError>(options_view(opts@) + rest),
                Err(e) => spec_decode_options(bytes@.skip(start as int))
                    == Err::<Seq<NdpOptionView>, _>(e),
            },
        decreases n - idx,
    {
        let ghost suffix = bytes@.skip(idx as int);
        if n - idx < 2 {
            return Err(DecodeError::MalformedOption);
        }
        let lenf: u8 = bytes[idx + 1];
        if lenf == 0 {
            return Err(DecodeError::MalformedOption);
        }
        let olen: usize = (lenf as usize) * 8;
        if olen > n - idx {
            proof {
                assert(suffix[1] * 8 > suffix.len());
            }
            return Err(DecodeError::MalformedOption);
        }
        let data = copy_range(bytes, idx + 2, idx + olen);
        let kind = kind_of_code_of(bytes[idx]);
        let opt = NdpOption { kind, data };
        proof {
            assert(suffix.skip(olen as int) =~= bytes@.skip(idx + olen));
            assert(suffix.subrange(2, olen as int) =~= bytes@.subrange(idx + 2, idx + olen));
            assert(opt@ == NdpOptionView {
                kind: kind_of_code(suffix[0]),
                data: suffix.subrange(2, olen as int),
            });
            assert(options_view(opts@.push(opt)) =~= options_view(opts@) + seq![opt@]);
            match spec_decode_options(bytes@.skip(idx + olen)) {
                Ok(rest) => {
                    assert(spec_decode_options(suffix) == Ok::<_, DecodeError>(
                        seq![opt@] + rest,
                    ));
                    assert(options_view(opts@) + (seq![opt@] + rest)
                        =~= (options_view(opts@) + seq![opt@]) + rest);
                },
                Err(_) => {},
            }
        }
        opts.push(opt);
        idx = idx + olen;
    }
    proof {
        assert(bytes@.skip(n as int) =~= Seq::<u8>::empty());
        assert(options_view(opts@) + Seq::<NdpOptionView>::empty() =~= options_view(opts@));
    }
    Ok(opts)
}

/// Parses a buffer as an NDP message: the type byte selects the kind, the
/// fixed header follows, and the rest of the buffer is its option run.
/// Each error names what was wrong, as [`spec_decode`] lays down. The
/// checksum field is not re-verified here: the channel below is expected to
/// deliver only validated packets.
pub fn decode(bytes: &Vec<u8>) -> (r: Result<NdpMessage, DecodeError>)
    ensures
        match r {
            Ok(m) => spec_decode(bytes@) == Ok::<_, DecodeError>(m@),
            Err(e) => spec_decode(bytes@) == Err::<NdpMessageView, _>(e),
        },
{
    if bytes.len() == 0 {
        return Err(DecodeError::TooShort);
    }
    let t: u8 = bytes[0];
    if t != NEIGHBOR_SOLICIT_TYPE && t != NEIGHBOR_ADVERT_TYPE && t != ROUTER_SOLICIT_TYPE
        && t != ROUTER_ADVERT_TYPE {
        return Err(DecodeError::UnknownType);
    }
    let fixed: usize = if t == NEIGHBOR_SOLICIT_TYPE || t == NEIGHBOR_ADVERT_TYPE {
        24
    } else if t == ROUTER_SOLICIT_TYPE {
        8
    } else {
        16
    };
    if bytes.len() < fixed {
        return Err(DecodeError::TooShort);
    }
    let options = match decode_options(bytes, fixed) {
        Ok(o) => o,
        Err(e) => {
            return Err(e);
        },
    };
    if t == NEIGHBOR_SOLICIT_TYPE {
        let target = Ipv6Address::from_bytes(copy_range(bytes, 8, 24));
        Ok(NdpMessage::NeighborSolicitation { target, options })
    } else if t == NEIGHBOR_ADVERT_TYPE {
        let target = Ipv6Address::from_bytes(copy_range(bytes, 8, 24));
        Ok(NdpMessage::NeighborAdvertisement { target, options })
    } else if t == ROUTER_SOLICIT_TYPE {
        Ok(NdpMessage::RouterSolicitation { options })
    } else {
        Ok(NdpMessage::RouterAdvertisement { options })
    }
}

/// A message whose addresses have their sixteen bytes.
pub open spec fn message_wf(m: NdpMessageView) -> bool {
    match m {
        NdpMessageView::NeighborSolicitation { target, .. } => target.len() == 16,
        NdpMessageView::NeighborAdvertisement { target, .. } => target.len() == 16,
        NdpMessageView::RouterSolicitation { .. } => true,
        NdpMessageView::RouterAdvertisement { .. } => true,
    }
}

/// A message that is well formed and whose options are all canonical, so
/// that its wire form parses back to it exactly.
pub open spec fn message_canonical(m: NdpMessageView) -> bool {
    message_wf(m) && options_canonical(message_options(m))
}

/// Parsing the wire form of a canonical option run yields that run back.
pub proof fn lemma_options_round_trip(opts: Seq<NdpOptionView>)
    requires
        options_canonical(opts),
    ensures
        spec_decode_options(spec_encode_options(opts)) == Ok::<_, DecodeError>(opts),
    decreases opts.len(),
{
    if opts.len() == 0 {
        assert(spec_encode_options(opts) =~= Seq::<u8>::empty());
        assert(opts =~= Seq::<NdpOptionView>::empty());
    } else {
        let o = opts[0];
        let n = o.data.len();
        let q = (n + 9) / 8;
        assert(option_canonical(o));
        assert(q * 8 == n + 2 && q <= 255 && q >= 1) by (nonlinear_arith)
            requires q == (n + 9) / 8 && n % 8 == 6 && n <= 2038,
        ;
        let e0 = spec_encode_option(o);
        assert(zero_bytes((q * 8 - 2 - n) as nat) =~= Seq::<u8>::empty());
        assert(e0 =~= seq![option_code(o.kind), q as u8] + o.data);
        assert(e0.len() == n + 2);
        let rest = opts.skip(1);
        assert(options_canonical(rest)) by {
            assert forall|i: int| 0 <= i < rest.len() implies option_canonical(
                #[trigger] rest[i],
            ) by {
                assert(rest[i] == opts[i + 1]);
            }
        }
        lemma_options_round_trip(rest);
        let erest = spec_encode_options(rest);
        let s = spec_encode_options(opts);
        assert(s == e0 + erest);
        assert(s[0] == option_code(o.kind));
        assert(s[1] == q as u8);
        assert(s[1] * 8 == n + 2);
        assert(s[1] != 0);
        assert(s[1] * 8 <= s.len());
        assert(s.subrange(2, n + 2 as int) =~= o.data);
        assert(s.skip(n + 2 as int) =~= erest);
        assert(kind_of_code(option_code(o.kind)) == o.kind);
        assert(spec_decode_options(s) == Ok::<_, DecodeError>(
            seq![NdpOptionView { kind: o.kind, data: o.data }] + rest,
        ));
        assert(NdpOptionView { kind: o.kind, data: o.data } == o);
        assert(seq![o] + rest =~= opts);
    }
}

/// Round trip: parsing the wire form of a canonical message yields that
/// message back — same kind, same target, same options — whatever source
/// and destination the checksum was computed for.
pub proof fn lemma_encode_decode_round_trip(m: NdpMessageView, src: Seq<u8>, dst: Seq<u8>)
    requires
        message_canonical(m),
    ensures
        spec_decode(spec_encode(m, src, dst)) == Ok::<_, DecodeError>(m),
{
    let body = spec_encode_zero(m);
    let e = spec_encode(m, src, dst);
    assert(e.len() == body.len());
    match m {
        NdpMessageView::NeighborSolicitation { target, options } => {
            lemma_options_round_trip(options);
            assert(e[0] == NEIGHBOR_SOLICIT_TYPE);
            assert(e.len() >= 24);
            assert(e.subrange(8, 24) =~= target);
            assert(e.skip(24) =~= spec_encode_options(options));
        },
        NdpMessageView::NeighborAdvertisement { target, options } => {
            lemma_options_round_trip(options);
            assert(e[0] == NEIGHBOR_ADVERT_TYPE);
            assert(e.len() >= 24);
            assert(e.subrange(8, 24) =~= target);
            assert(e.skip(24) =~= spec_encode_options(options));
        },
        NdpMessageView::RouterSolicitation { options } => {
            lemma_options_round_trip(options);
            assert(e[0] == ROUTER_SOLICIT_TYPE);
            assert(e.len() >= 8);
            assert(e.skip(8) =~= spec_encode_options(options));
        },
        NdpMessageView::RouterAdvertisement { options } => {
            lemma_options_round_trip(options);
            assert(e[0] == ROUTER_ADVERT_TYPE);
            assert(e.len() >= 16);
            assert(e.skip(16) =~= spec_encode_options(options));
        },
    }
}

} // verus!
