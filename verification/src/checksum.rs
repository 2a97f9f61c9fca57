use vstd::prelude::*;
use crate::addr::Ipv6Address;
use crate::bytes::push_all;

verus! {

/// One sixteen-bit word from a big-endian high byte and low byte.
pub open spec fn word16(hi: u8, lo: u8) -> u16 {
    (hi * 256 + lo) as u16
}

/// One's-complement addition of two sixteen-bit words: the end-around carry
/// folds back into the low bit.
pub open spec fn ones_complement_add(a: u16, b: u16) -> u16 {
    if a + b > 0xffff {
        (a + b - 0xffff) as u16
    } else {
        (a + b) as u16
    }
}

/// The one's-complement sum of `s` taken as big-endian sixteen-bit words,
/// folded onto `acc` from the front; an odd trailing byte counts as a word
/// padded with a zero low byte.
pub open spec fn sum_words(s: Seq<u8>, acc: u16) -> u16
    decreases s.len(),
{
    if s.len() == 0 {
        acc
    } else if s.len() == 1 {
        ones_complement_add(acc, word16(s[0], 0))
    } else {
        sum_words(s.skip(2), ones_complement_add(acc, word16(s[0], s[1])))
    }
}

/// The Internet checksum of `s`: the complement of its one's-complement sum.
pub open spec fn internet_checksum(s: Seq<u8>) -> u16 {
    (0xffff - sum_words(s, 0)) as u16
}

/// A 32-bit unsigned value as its four big-endian bytes.
pub open spec fn be32_bytes(n: nat) -> Seq<u8>
    recommends
        n <= 0xffffffff,
{
    seq![
        ((n / 0x1000000) % 256) as u8,
        ((n / 0x10000) % 256) as u8,
        ((n / 0x100) % 256) as u8,
        (n % 256) as u8,
    ]
}

/// The IPv6 pseudo-header that the ICMPv6 checksum covers: source address,
/// destination address, the upper-layer packet length as 32 bits big-endian,
/// three zero bytes, and the next-header value 58.
pub open spec fn pseudo_header_bytes(src: Seq<u8>, dst: Seq<u8>, len: nat) -> Seq<u8> {
    src + dst + be32_bytes(len) + seq![0u8, 0u8, 0u8, 58u8]
}

/// The ICMPv6 checksum of `message` (with its own checksum field zeroed)
/// carried from `src` to `dst`.
pub open spec fn icmpv6_checksum(src: Seq<u8>, dst: Seq<u8>, message: Seq<u8>) -> u16 {
    internet_checksum(pseudo_header_bytes(src, dst, message.len()) + message)
}

/// Folds one big-endian word onto a running one's-complement sum.
fn add_word(acc: u16, hi: u8, lo: u8) -> (r: u16)
    ensures
        r == ones_complement_add(acc, word16(hi, lo)),
{
    let w: u32 = (hi as u32) * 256 + (lo as u32);
    let s: u32 = (acc as u32) + w;
    if s > 0xffff {
        (s - 0xffff) as u16
    } else {
        s as u16
    }
}

/// The one's-complement sum of a whole buffer, starting from zero.
fn sum_buffer(buf: &Vec<u8>) -> (r: u16)
    ensures
        r == sum_words(buf@, 0),
{
    let n: usize = buf.len();
    let mut acc: u16 = 0;
    let mut i: usize = 0;
    proof {
        assert(buf@.skip(0) =~= buf@);
    }
    while n - i >= 2
        invariant
            i <= n,
            n == buf@.len(),
            sum_words(buf@, 0) == sum_words(buf@.skip(i as int), acc),
        decreases n - i,
    {
        let next = add_word(acc, buf[i], buf[i + 1]);
        proof {
            assert(buf@.skip(i as int).skip(2) =~= buf@.skip(i as int + 2));
        }
        acc = next;
        i = i + 2;
    }
    if i < n {
        acc = add_word(acc, buf[i], 0);
    }
    acc
}

/// Computes the ICMPv6 checksum over the pseudo-header for `source` and
/// `destination` followed by `message`, whose own checksum field must
/// already be zero.
pub fn compute_checksum(source: &Ipv6Address, destination: &Ipv6Address, message: &Vec<u8>) -> (c: u16)
    requires
        source.wf(),
        destination.wf(),
        message@.len() <= 0xffffffff,
    ensures
        c == icmpv6_checksum(source@, destination@, message@),
{
    let mut buf: Vec<u8> = Vec::new();
    push_all(&mut buf, source.as_bytes());
    push_all(&mut buf, destination.as_bytes());
    let len32: u32 = message.len() as u32;
    buf.push((len32 / 0x1000000) as u8);
    buf.push(((len32 / 0x10000) % 256) as u8);
    buf.push(((len32 / 0x100) % 256) as u8);
    buf.push((len32 % 256) as u8);
    buf.push(0);
    buf.push(0);
    buf.push(0);
    buf.push(58);
    push_all(&mut buf, message);
    proof {
        assert(buf@ =~= pseudo_header_bytes(source@, destination@, message@.len()) + message@);
    }
    let s = sum_buffer(&buf);
    0xffff - s
}

} // verus!
