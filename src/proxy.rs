//! The proxy-protocol header that the proxy adapter writes as the first bytes
//! of the outbound leg, carrying the inbound client's address.
use vstd::prelude::*;

use crate::endpoint::ProxyVersion;

verus! {

/// The two ends of the inbound connection: the client, and the address it
/// reached. An address is 4 octets (IPv4) or 16 (IPv6), in network order.
#[derive(Debug)]
pub struct PeerPair {
    pub src_ip: Vec<u8>,
    pub src_port: u16,
    pub dst_ip: Vec<u8>,
    pub dst_port: u16,
}

/// Both addresses of one family.
pub open spec fn same_family(p: PeerPair) -> bool {
    (p.src_ip@.len() == 4 && p.dst_ip@.len() == 4) || (p.src_ip@.len() == 16
        && p.dst_ip@.len() == 16)
}

/// ASCII decimal digits of `n`, most significant first.
pub open spec fn decimal(n: nat) -> Seq<u8>
    decreases n,
{
    if n < 10 {
        seq![(48 + n) as u8]
    } else {
        decimal(n / 10).push((48 + n % 10) as u8)
    }
}

/// Dotted-decimal text of four octets.
pub open spec fn dotted(a: Seq<u8>) -> Seq<u8> {
    decimal(a[0] as nat) + seq![46u8] + decimal(a[1] as nat) + seq![46u8] + decimal(a[2] as nat)
        + seq![46u8] + decimal(a[3] as nat)
}

/// Lower-case hex text of an IPv6 address in eight full groups, colon separated.
pub open spec fn hex_groups(a: Seq<u8>, g: nat) -> Seq<u8>
    decreases g,
{
    if g == 0 {
        Seq::empty()
    } else {
        let k = (g - 1) as nat;
        let prev = hex_groups(a, k);
        let sep: Seq<u8> = if k == 0 { Seq::empty() } else { seq![58u8] };
        prev + sep + seq![
            hex_digit(a[(2 * k) as int] as nat / 16),
            hex_digit(a[(2 * k) as int] as nat % 16),
            hex_digit(a[(2 * k + 1) as int] as nat / 16),
            hex_digit(a[(2 * k + 1) as int] as nat % 16),
        ]
    }
}

/// ASCII of a hex digit below 16.
pub open spec fn hex_digit(d: nat) -> u8 {
    if d < 10 {
        (48 + d) as u8
    } else {
        (87 + d) as u8
    }
}

/// Text of an address as the text header writes it.
pub open spec fn addr_text(a: Seq<u8>) -> Seq<u8> {
    if a.len() == 4 {
        dotted(a)
    } else {
        hex_groups(a, 8)
    }
}

/// Two octets of `n`, most significant first.
pub open spec fn be16(n: u16) -> Seq<u8> {
    seq![(n / 256) as u8, (n % 256) as u8]
}

/// The text header (version 1): `PROXY TCP4 src dst sport dport\r\n`, or
/// `TCP6` for IPv6.
pub open spec fn header_v1(p: PeerPair) -> Seq<u8> {
    seq![80u8, 82, 79, 88, 89, 32, 84, 67, 80]
        + (if p.src_ip@.len() == 4 { seq![52u8] } else { seq![54u8] }) + seq![32u8]
        + addr_text(p.src_ip@) + seq![32u8] + addr_text(p.dst_ip@) + seq![32u8]
        + decimal(p.src_port as nat) + seq![32u8] + decimal(p.dst_port as nat)
        + seq![13u8, 10]
}

/// The twelve-octet signature that opens a binary header.
pub open spec fn v2_signature() -> Seq<u8> {
    seq![0x0Du8, 0x0A, 0x0D, 0x0A, 0x00, 0x0D, 0x0A, 0x51, 0x55, 0x49, 0x54, 0x0A]
}

/// The binary header (version 2): signature, `PROXY` command, TCP over the
/// address family, length of the address block, then both addresses and ports.
pub open spec fn header_v2(p: PeerPair) -> Seq<u8> {
    let v4 = p.src_ip@.len() == 4;
    v2_signature() + seq![0x21u8, if v4 { 0x11u8 } else { 0x21u8 }] + be16(
        if v4 { 12u16 } else { 36u16 },
    ) + p.src_ip@ + p.dst_ip@ + be16(p.src_port) + be16(p.dst_port)
}

/// The header of version `v` for the pair `p`.
pub open spec fn header(v: ProxyVersion, p: PeerPair) -> Seq<u8> {
    match v {
        ProxyVersion::V1 => header_v1(p),
        ProxyVersion::V2 => header_v2(p),
    }
}

fn push_decimal(out: &mut Vec<u8>, n: u16)
    ensures
        final(out)@ == old(out)@ + decimal(n as nat),
    decreases n,
{
    if n >= 10 {
        push_decimal(out, n / 10);
    }
    out.push(48 + (n % 10) as u8);
    assert(out@ =~= old(out)@ + decimal(n as nat)) by {
        if n >= 10 {
            assert(decimal(n as nat) == decimal((n / 10) as nat).push((48 + n % 10) as u8));
        }
    }
}

fn push_all(out: &mut Vec<u8>, s: &Vec<u8>)
    ensures
        final(out)@ == old(out)@ + s@,
{
    let mut i: usize = 0;
    while i < s.len()
        invariant
            i <= s.len(),
            out@ == old(out)@ + s@.subrange(0, i as int),
        decreases s.len() - i,
    {
        out.push(s[i]);
        i = i + 1;
        assert(out@ =~= old(out)@ + s@.subrange(0, i as int));
    }
    assert(s@.subrange(0, i as int) =~= s@);
}

fn hex_char(d: u8) -> (r: u8)
    requires
        d < 16,
    ensures
        r == hex_digit(d as nat),
{
    if d < 10 {
        48 + d
    } else {
        87 + d
    }
}

fn push_addr_text(out: &mut Vec<u8>, a: &Vec<u8>)
    requires
        a@.len() == 4 || a@.len() == 16,
    ensures
        final(out)@ == old(out)@ + addr_text(a@),
{
    if a.len() == 4 {
        let mut i: usize = 0;
        while i < 4
            invariant
                i <= 4,
                a@.len() == 4,
                i == 0 ==> out@ == old(out)@,
                i == 1 ==> out@ == old(out)@ + decimal(a@[0] as nat),
                i == 2 ==> out@ == old(out)@ + decimal(a@[0] as nat) + seq![46u8] + decimal(
                    a@[1] as nat,
                ),
                i == 3 ==> out@ == old(out)@ + decimal(a@[0] as nat) + seq![46u8] + decimal(
                    a@[1] as nat,
                ) + seq![46u8] + decimal(a@[2] as nat),
                i == 4 ==> out@ == old(out)@ + dotted(a@),
            decreases 4 - i,
        {
            if i > 0 {
                out.push(46);
            }
            push_decimal(out, a[i] as u16);
            i = i + 1;
            assert(i == 1 ==> out@ =~= old(out)@ + decimal(a@[0] as nat));
            assert(i == 2 ==> out@ =~= old(out)@ + decimal(a@[0] as nat) + seq![46u8]
                + decimal(a@[1] as nat));
            assert(i == 3 ==> out@ =~= old(out)@ + decimal(a@[0] as nat) + seq![46u8] + decimal(
                a@[1] as nat,
            ) + seq![46u8] + decimal(a@[2] as nat));
            assert(i == 4 ==> out@ =~= old(out)@ + dotted(a@));
        }
    } else {
        let mut g: usize = 0;
        while g < 8
            invariant
                g <= 8,
                a@.len() == 16,
                out@ == old(out)@ + hex_groups(a@, g as nat),
            decreases 8 - g,
        {
            if g > 0 {
                out.push(58);
            }
            let hi = a[2 * g];
            let lo = a[2 * g + 1];
            out.push(hex_char(hi / 16));
            out.push(hex_char(hi % 16));
            out.push(hex_char(lo / 16));
            out.push(hex_char(lo % 16));
            assert(out@ =~= old(out)@ + hex_groups(a@, (g + 1) as nat));
            g = g + 1;
        }
    }
}

fn push_be16(out: &mut Vec<u8>, n: u16)
    ensures
        final(out)@ == old(out)@ + be16(n),
{
    out.push((n / 256) as u8);
    out.push((n % 256) as u8);
    assert(out@ =~= old(out)@ + be16(n));
}

/// The header of version `v` for `p`; `None` where the two addresses are not
/// of one family of 4 or 16 octets.
pub fn proxy_header(v: ProxyVersion, p: &PeerPair) -> (r: Option<Vec<u8>>)
    ensures
        same_family(*p) ==> (r matches Some(h) && h@ == header(v, *p)),
        !same_family(*p) ==> r is None,
{
    let n = p.src_ip.len();
    if !((n == 4 && p.dst_ip.len() == 4) || (n == 16 && p.dst_ip.len() == 16)) {
        return None;
    }
    let mut out: Vec<u8> = Vec::new();
    match v {
        ProxyVersion::V1 => {
            push_all(&mut out, &vec![80u8, 82, 79, 88, 89, 32, 84, 67, 80]);
            out.push(if n == 4 { 52 } else { 54 });
            out.push(32);
            push_addr_text(&mut out, &p.src_ip);
            out.push(32);
            push_addr_text(&mut out, &p.dst_ip);
            out.push(32);
            push_decimal(&mut out, p.src_port);
            out.push(32);
            push_decimal(&mut out, p.dst_port);
            out.push(13);
            out.push(10);
            assert(out@ =~= header_v1(*p));
        },
        ProxyVersion::V2 => {
            push_all(
                &mut out,
                &vec![0x0Du8, 0x0A, 0x0D, 0x0A, 0x00, 0x0D, 0x0A, 0x51, 0x55, 0x49, 0x54, 0x0A],
            );
            out.push(0x21);
            out.push(if n == 4 { 0x11 } else { 0x21 });
            push_be16(&mut out, if n == 4 { 12 } else { 36 });
            push_all(&mut out, &p.src_ip);
            push_all(&mut out, &p.dst_ip);
            push_be16(&mut out, p.src_port);
            push_be16(&mut out, p.dst_port);
            assert(out@ =~= header_v2(*p));
        },
    }
    Some(out)
}

} // verus!
