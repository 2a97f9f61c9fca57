use vstd::prelude::*;
use crate::bytes::push_all;
use crate::errors::EncodeError;

verus! {

/// The kind of an NDP option, as named by its type byte on the wire.
#[derive(Clone, Copy, Debug, PartialEq, Eq, Structural)]
pub enum NdpOptionKind {
    /// Type 1: the sender's link-layer address.
    SourceLinkLayerAddress,
    /// Type 2: the target's link-layer address.
    TargetLinkLayerAddress,
    /// Type 3: an on-link prefix advertised by a router.
    PrefixInformation,
    /// Any other type byte, carried through untouched.
    Unknown(u8),
}

/// One NDP option: a kind and the raw payload that follows the two-byte
/// type/length header on the wire.
#[derive(Debug, PartialEq, Eq)]
pub struct NdpOption {
    pub kind: NdpOptionKind,
    pub data: Vec<u8>,
}

/// The mathematical shape of an option: its kind and its payload bytes.
pub struct NdpOptionView {
    pub kind: NdpOptionKind,
    pub data: Seq<u8>,
}

impl View for NdpOption {
    type V = NdpOptionView;

    open spec fn view(&self) -> NdpOptionView {
        NdpOptionView { kind: self.kind, data: self.data@ }
    }
}

/// The views of a sequence of options.
pub open spec fn options_view(opts: Seq<NdpOption>) -> Seq<NdpOptionView> {
    opts.map_values(|o: NdpOption| o@)
}

/// The type byte that encodes a kind.
pub open spec fn option_code(kind: NdpOptionKind) -> u8 {
    match kind {
        NdpOptionKind::SourceLinkLayerAddress => 1,
        NdpOptionKind::TargetLinkLayerAddress => 2,
        NdpOptionKind::PrefixInformation => 3,
        NdpOptionKind::Unknown(c) => c,
    }
}

/// The kind that a type byte decodes to.
pub open spec fn kind_of_code(code: u8) -> NdpOptionKind {
    if code == 1 {
        NdpOptionKind::SourceLinkLayerAddress
    } else if code == 2 {
        NdpOptionKind::TargetLinkLayerAddress
    } else if code == 3 {
        NdpOptionKind::PrefixInformation
    } else {
        NdpOptionKind::Unknown(code)
    }
}

/// The number of bytes an option with `n` payload bytes occupies on the
/// wire: the two-byte header plus the payload, padded up to the next
/// multiple of eight.
pub open spec fn encoded_option_len(n: nat) -> nat {
    ((n + 9) / 8) * 8
}

/// A sequence of `n` zero bytes.
pub open spec fn zero_bytes(n: nat) -> Seq<u8> {
    Seq::new(n, |i: int| 0u8)
}

/// The wire form of one option: type byte, length in eight-byte units,
/// payload, zero padding to the eight-byte boundary.
pub open spec fn spec_encode_option(o: NdpOptionView) -> Seq<u8> {
    let total = encoded_option_len(o.data.len());
    seq![option_code(o.kind), (total / 8) as u8] + o.data
        + zero_bytes((total - 2 - o.data.len()) as nat)
}

/// An option can be encoded exactly when its padded size still fits the
/// one-byte length field, that is, within 255 eight-byte units.
pub open spec fn option_encodable(o: NdpOptionView) -> bool {
    o.data.len() <= 2038
}

/// The wire form of a sequence of options, one after the other.
pub open spec fn spec_encode_options(opts: Seq<NdpOptionView>) -> Seq<u8>
    decreases opts.len(),
{
    if opts.len() == 0 {
        Seq::empty()
    } else {
        spec_encode_option(opts[0]) + spec_encode_options(opts.skip(1))
    }
}

/// Every option of the sequence fits its length field.
pub open spec fn options_encodable(opts: Seq<NdpOptionView>) -> bool {
    forall|i: int| 0 <= i < opts.len() ==> option_encodable(#[trigger] opts[i])
}

/// An option in canonical wire form: its payload already ends exactly on
/// the eight-byte boundary that its two-byte header starts (so encoding
/// adds no padding), it fits the length field, and its kind is the one its
/// own type byte decodes back to.
pub open spec fn option_canonical(o: NdpOptionView) -> bool {
    &&& o.data.len() % 8 == 6
    &&& o.data.len() <= 2038
    &&& match o.kind {
        NdpOptionKind::Unknown(c) => c != 1 && c != 2 && c != 3,
        _ => true,
    }
}

/// Every option of the sequence is canonical.
pub open spec fn options_canonical(opts: Seq<NdpOptionView>) -> bool {
    forall|i: int| 0 <= i < opts.len() ==> option_canonical(#[trigger] opts[i])
}

/// Concatenating option sequences concatenates their encodings.
pub proof fn lemma_encode_options_concat(a: Seq<NdpOptionView>, b: Seq<NdpOptionView>)
    ensures
        spec_encode_options(a + b) == spec_encode_options(a) + spec_encode_options(b),
    decreases a.len(),
{
    if a.len() == 0 {
        assert(a + b =~= b);
        assert(spec_encode_options(a) + spec_encode_options(b) =~= spec_encode_options(b));
    } else {
        assert((a + b).skip(1) =~= a.skip(1) + b);
        lemma_encode_options_concat(a.skip(1), b);
        assert((a + b).len() != 0 && (a + b)[0] == a[0]);
        assert(spec_encode_options(a + b) =~= spec_encode_options(a) + spec_encode_options(b));
    }
}

/// A single option encodes as itself alone.
pub proof fn lemma_encode_options_singleton(o: NdpOptionView)
    ensures
        spec_encode_options(seq![o]) == spec_encode_option(o),
{
    let single = seq![o];
    assert(single.skip(1) =~= Seq::<NdpOptionView>::empty());
    assert(spec_encode_options(single) == spec_encode_option(single[0])
        + spec_encode_options(single.skip(1)));
    assert(spec_encode_options(single) =~= spec_encode_option(o));
}

/// The length of an encoded option is its padded size: at least the header
/// and payload, and, for an option that fits its length field, at most 2040
/// bytes.
pub proof fn lemma_encoded_option_len(o: NdpOptionView)
    ensures
        spec_encode_option(o).len() == encoded_option_len(o.data.len()),
        encoded_option_len(o.data.len()) >= o.data.len() + 2,
        o.data.len() <= 2038 ==> encoded_option_len(o.data.len()) <= 2040,
{
    let n = o.data.len();
    let q = (n + 9) / 8;
    assert(q * 8 >= n + 2 && q * 8 <= n + 9) by (nonlinear_arith)
        requires q == (n + 9) / 8,
    ;
    assert(n <= 2038 ==> q * 8 <= 2040) by (nonlinear_arith)
        requires q == (n + 9) / 8,
    ;
    assert(spec_encode_option(o).len() == 2 + n + (q * 8 - 2 - n));
}

/// Every encoded option occupies a whole number of eight-byte units, and its
/// length byte holds exactly that count.
pub proof fn lemma_option_length_invariant(o: NdpOptionView)
    requires
        option_encodable(o),
    ensures
        spec_encode_option(o).len() % 8 == 0,
        spec_encode_option(o)[1] * 8 == spec_encode_option(o).len(),
{
    let n = o.data.len();
    let q = (n + 9) / 8;
    assert(encoded_option_len(n) == q * 8);
    assert(q * 8 >= n + 2 && q * 8 <= n + 9) by (nonlinear_arith)
        requires q == (n + 9) / 8,
    ;
    assert(q <= 255) by (nonlinear_arith)
        requires q == (n + 9) / 8 && n <= 2038,
    ;
    assert(spec_encode_option(o).len() == 2 + n + (q * 8 - 2 - n));
    assert((q * 8) % 8 == 0) by (nonlinear_arith);
    assert(spec_encode_option(o)[1] == (q * 8 / 8) as u8);
    assert(q * 8 / 8 == q) by (nonlinear_arith);
}

/// The exec mirror of [`option_code`].
pub fn option_code_of(kind: NdpOptionKind) -> (c: u8)
    ensures
        c == option_code(kind),
{
    match kind {
        NdpOptionKind::SourceLinkLayerAddress => 1,
        NdpOptionKind::TargetLinkLayerAddress => 2,
        NdpOptionKind::PrefixInformation => 3,
        NdpOptionKind::Unknown(c) => c,
    }
}

/// The exec mirror of [`kind_of_code`].
pub fn kind_of_code_of(code: u8) -> (k: NdpOptionKind)
    ensures
        k == kind_of_code(code),
{
    if code == 1 {
        NdpOptionKind::SourceLinkLayerAddress
    } else if code == 2 {
        NdpOptionKind::TargetLinkLayerAddress
    } else if code == 3 {
        NdpOptionKind::PrefixInformation
    } else {
        NdpOptionKind::Unknown(code)
    }
}

/// Appends the wire form of one option to `out`; fails, leaving `out`
/// untouched, when the option does not fit its length field.
pub fn encode_option_into(out: &mut Vec<u8>, opt: &NdpOption) -> (r: Result<(), EncodeError>)
    ensures
        match r {
            Ok(()) => option_encodable(opt@) && final(out)@ == old(out)@ + spec_encode_option(opt@),
            Err(e) => e == EncodeError::OptionTooLong && !option_encodable(opt@)
                && final(out)@ == old(out)@,
        },
{
    let n: usize = opt.data.len();
    if n > 2038 {
        return Err(EncodeError::OptionTooLong);
    }
    let total: usize = ((n + 9) / 8) * 8;
    proof {
        assert(total >= n + 2 && total <= n + 9) by (nonlinear_arith)
            requires total == ((n + 9) / 8) * 8,
        ;
        assert(total / 8 <= 255) by (nonlinear_arith)
            requires total == ((n + 9) / 8) * 8 && n <= 2038,
        ;
    }
    out.push(option_code_of(opt.kind));
    out.push((total / 8) as u8);
    push_all(out, &opt.data);
    let pad: usize = total - 2 - n;
    let mut j: usize = 0;
    while j < pad
        invariant
            j <= pad,
            out@ == old(out)@ + seq![option_code(opt@.kind), (encoded_option_len(opt@.data.len()) / 8) as u8]
                + opt@.data + zero_bytes(j as nat),
            pad == encoded_option_len(opt@.data.len()) - 2 - opt@.data.len(),
        decreases pad - j,
    {
        out.push(0);
        j = j + 1;
        proof {
            assert(out@ =~= old(out)@
                + seq![option_code(opt@.kind), (encoded_option_len(opt@.data.len()) / 8) as u8]
                + opt@.data + zero_bytes(j as nat));
        }
    }
    proof {
        assert(out@ =~= old(out)@ + spec_encode_option(opt@));
    }
    Ok(())
}

} // verus!
