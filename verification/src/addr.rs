use vstd::prelude::*;
use vstd::string::StringExecFns;
use crate::text::{append_dec, dec_seq};

verus! {

/// `n + k` on 32-bit addresses, wrapping around past the top of the
/// address space. Host addresses are derived from a subnet base by plain
/// 32-bit increments; a base too close to the top is not rejected.
pub open spec fn wrap_inc(n: u32, k: u32) -> u32 {
    if n + k > u32::MAX {
        (n + k - 0x1_0000_0000) as u32
    } else {
        (n + k) as u32
    }
}

/// The dotted-quad text of a 32-bit big-endian IPv4 address.
pub open spec fn ipv4_seq(n: u32) -> Seq<char> {
    dec_seq((n as nat) / 0x1000000) + seq!['.'] + dec_seq(((n as nat) / 0x10000) % 256)
        + seq!['.'] + dec_seq(((n as nat) / 256) % 256) + seq!['.'] + dec_seq((n as nat) % 256)
}

/// The CIDR text of an address and prefix length: `a.b.c.d/p`.
pub open spec fn cidr_seq(n: u32, prefix: u8) -> Seq<char> {
    ipv4_seq(n) + seq!['/'] + dec_seq(prefix as nat)
}

fn append_dot(out: &mut String)
    ensures
        final(out)@ == old(out)@ + seq!['.'],
{
    proof {
        reveal_strlit(".");
        assert("."@ =~= seq!['.']);
    }
    out.append(".");
}

/// The dotted-quad text of `n`, appended to `out`.
pub fn append_ipv4(out: &mut String, n: u32)
    ensures
        final(out)@ == old(out)@ + ipv4_seq(n),
{
    append_dec(out, n / 0x1000000);
    append_dot(out);
    append_dec(out, (n / 0x10000) % 256);
    append_dot(out);
    append_dec(out, (n / 256) % 256);
    append_dot(out);
    append_dec(out, n % 256);
    proof {
        assert(final(out)@ =~= old(out)@ + ipv4_seq(n));
    }
}

/// The CIDR text of an address and prefix length, as a fresh string.
pub fn cidr_string(n: u32, prefix: u8) -> (r: String)
    ensures
        r@ == cidr_seq(n, prefix),
{
    let mut out = String::new();
    append_ipv4(&mut out, n);
    proof {
        reveal_strlit("/");
        assert("/"@ =~= seq!['/']);
    }
    out.append("/");
    append_dec(&mut out, prefix as u32);
    proof {
        assert(out@ =~= cidr_seq(n, prefix));
    }
    out
}

/// What `ipnet`'s parser yields on a string: for a well-formed IPv4 CIDR,
/// the written address as a 32-bit big-endian integer together with the
/// prefix length; for anything else (IPv6 included), nothing.
pub uninterp spec fn ipv4_net_of(s: Seq<char>) -> Option<(u32, u8)>;

/// Relies on ipnet's `IpNet: FromStr`, `IpNet::addr` and
/// `IpNet::prefix_len`: parsing is a function of the string alone; an
/// IPv4 network gives its written address and prefix length, and IPv6 or
/// malformed strings are rejected.
#[verifier::external_body]
pub(crate) fn parse_ipv4_net(s: &String) -> (r: Option<(u32, u8)>)
    ensures
        r == ipv4_net_of(s@),
{
    match s.as_str().parse::<ipnet::IpNet>() {
        Ok(ipnet::IpNet::V4(net)) => {
            Some((u32::from_be_bytes(net.addr().octets()), net.prefix_len()))
        },
        _ => None,
    }
}

/// The two endpoint addresses of a point-to-point subnet: base plus one
/// and base plus two, each in CIDR notation with the subnet's prefix
/// length. Whether the prefix leaves room for two hosts is not checked.
pub fn endpoint_cidrs(base: u32, prefix: u8) -> (r: (String, String))
    ensures
        r.0@ == cidr_seq(wrap_inc(base, 1), prefix),
        r.1@ == cidr_seq(wrap_inc(base, 2), prefix),
{
    let a1 = base.wrapping_add(1);
    let a2 = base.wrapping_add(2);
    assert(a1 == wrap_inc(base, 1));
    assert(a2 == wrap_inc(base, 2));
    (cidr_string(a1, prefix), cidr_string(a2, prefix))
}

} // verus!
