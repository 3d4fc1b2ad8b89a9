//! Text rendering for log lines.
//!
//! The bridge's log records name the peer and the destination. This
//! module renders numbers, socket addresses and destinations as text,
//! with the exact character sequence stated in specification functions.

use vstd::prelude::*;

use crate::dest::Destination;
use crate::dest::IpAddress;
use crate::dest::SockAddr;

verus! {

/// The character for one decimal digit.
pub open spec fn dec_digit_char(d: nat) -> char {
    if d == 0 {
        '0'
    } else if d == 1 {
        '1'
    } else if d == 2 {
        '2'
    } else if d == 3 {
        '3'
    } else if d == 4 {
        '4'
    } else if d == 5 {
        '5'
    } else if d == 6 {
        '6'
    } else if d == 7 {
        '7'
    } else if d == 8 {
        '8'
    } else {
        '9'
    }
}

/// The decimal rendering of a number, most significant digit first,
/// without leading zeros; zero renders as a single digit.
pub open spec fn dec_chars(n: nat) -> Seq<char>
    decreases n,
{
    if n < 10 {
        seq![dec_digit_char(n)]
    } else {
        dec_chars(n / 10) + seq![dec_digit_char(n % 10)]
    }
}

/// The character for one hexadecimal digit, lower case.
pub open spec fn hex_digit_char(d: nat) -> char {
    if d < 10 {
        dec_digit_char(d)
    } else if d == 10 {
        'a'
    } else if d == 11 {
        'b'
    } else if d == 12 {
        'c'
    } else if d == 13 {
        'd'
    } else if d == 14 {
        'e'
    } else {
        'f'
    }
}

/// The hexadecimal rendering of a number, most significant digit first,
/// without leading zeros; zero renders as a single digit.
pub open spec fn hex_chars(n: nat) -> Seq<char>
    decreases n,
{
    if n < 16 {
        seq![hex_digit_char(n)]
    } else {
        hex_chars(n / 16) + seq![hex_digit_char(n % 16)]
    }
}

fn dec_digit_str(d: u32) -> (r: &'static str)
    requires
        d < 10,
    ensures
        r@ == seq![dec_digit_char(d as nat)],
{
    proof {
        reveal_strlit("0");
        reveal_strlit("1");
        reveal_strlit("2");
        reveal_strlit("3");
        reveal_strlit("4");
        reveal_strlit("5");
        reveal_strlit("6");
        reveal_strlit("7");
        reveal_strlit("8");
        reveal_strlit("9");
    }
    if d == 0 {
        "0"
    } else if d == 1 {
        "1"
    } else if d == 2 {
        "2"
    } else if d == 3 {
        "3"
    } else if d == 4 {
        "4"
    } else if d == 5 {
        "5"
    } else if d == 6 {
        "6"
    } else if d == 7 {
        "7"
    } else if d == 8 {
        "8"
    } else {
        "9"
    }
}

fn hex_digit_str(d: u32) -> (r: &'static str)
    requires
        d < 16,
    ensures
        r@ == seq![hex_digit_char(d as nat)],
{
    if d < 10 {
        dec_digit_str(d)
    } else {
        proof {
            reveal_strlit("a");
            reveal_strlit("b");
            reveal_strlit("c");
            reveal_strlit("d");
            reveal_strlit("e");
            reveal_strlit("f");
        }
        if d == 10 {
            "a"
        } else if d == 11 {
            "b"
        } else if d == 12 {
            "c"
        } else if d == 13 {
            "d"
        } else if d == 14 {
            "e"
        } else {
            "f"
        }
    }
}

/// Renders a number in decimal.
pub fn u32_to_dec(n: u32) -> (r: String)
    ensures
        r@ == dec_chars(n as nat),
    decreases n,
{
    if n < 10 {
        String::from_str(dec_digit_str(n))
    } else {
        let mut s = u32_to_dec(n / 10);
        s.append(dec_digit_str(n % 10));
        s
    }
}

/// Renders a number in hexadecimal, lower case.
pub fn u32_to_hex(n: u32) -> (r: String)
    ensures
        r@ == hex_chars(n as nat),
    decreases n,
{
    if n < 16 {
        String::from_str(hex_digit_str(n))
    } else {
        let mut s = u32_to_hex(n / 16);
        s.append(hex_digit_str(n % 16));
        s
    }
}

/// The text of an IP address: dotted decimal octets for IPv4, the eight
/// colon-separated hexadecimal groups, unabridged, for IPv6.
pub open spec fn ip_chars(ip: IpAddress) -> Seq<char> {
    match ip {
        IpAddress::V4(a, b, c, d) => dec_chars(a as nat) + seq!['.'] + dec_chars(b as nat)
            + seq!['.'] + dec_chars(c as nat) + seq!['.'] + dec_chars(d as nat),
        IpAddress::V6(g0, g1, g2, g3, g4, g5, g6, g7) => hex_chars(g0 as nat) + seq![':']
            + hex_chars(g1 as nat) + seq![':'] + hex_chars(g2 as nat) + seq![':']
            + hex_chars(g3 as nat) + seq![':'] + hex_chars(g4 as nat) + seq![':']
            + hex_chars(g5 as nat) + seq![':'] + hex_chars(g6 as nat) + seq![':']
            + hex_chars(g7 as nat),
    }
}

/// The text of a socket address: `ip:port`, with the IPv6 address in
/// brackets.
pub open spec fn sock_addr_chars(sa: SockAddr) -> Seq<char> {
    if sa.ip is V4 {
        ip_chars(sa.ip) + seq![':'] + dec_chars(sa.port as nat)
    } else {
        seq!['['] + ip_chars(sa.ip) + seq![']', ':'] + dec_chars(sa.port as nat)
    }
}

/// Renders an IP address.
pub fn format_ip(ip: &IpAddress) -> (r: String)
    ensures
        r@ == ip_chars(*ip),
{
    proof {
        reveal_strlit(".");
        reveal_strlit(":");
    }
    match ip {
        IpAddress::V4(a, b, c, d) => {
            let mut s = u32_to_dec(*a as u32);
            s.append(".");
            let sb = u32_to_dec(*b as u32);
            s.append(sb.as_str());
            s.append(".");
            let sc = u32_to_dec(*c as u32);
            s.append(sc.as_str());
            s.append(".");
            let sd = u32_to_dec(*d as u32);
            s.append(sd.as_str());
            proof {
                assert((".")@ =~= seq!['.']);
            }
            s
        }
        IpAddress::V6(g0, g1, g2, g3, g4, g5, g6, g7) => {
            let mut s = u32_to_hex(*g0 as u32);
            s.append(":");
            let s1 = u32_to_hex(*g1 as u32);
            s.append(s1.as_str());
            s.append(":");
            let s2 = u32_to_hex(*g2 as u32);
            s.append(s2.as_str());
            s.append(":");
            let s3 = u32_to_hex(*g3 as u32);
            s.append(s3.as_str());
            s.append(":");
            let s4 = u32_to_hex(*g4 as u32);
            s.append(s4.as_str());
            s.append(":");
            let s5 = u32_to_hex(*g5 as u32);
            s.append(s5.as_str());
            s.append(":");
            let s6 = u32_to_hex(*g6 as u32);
            s.append(s6.as_str());
            s.append(":");
            let s7 = u32_to_hex(*g7 as u32);
            s.append(s7.as_str());
            proof {
                assert((":")@ =~= seq![':']);
            }
            s
        }
    }
}

/// Renders a socket address.
pub fn format_sock_addr(sa: &SockAddr) -> (r: String)
    ensures
        r@ == sock_addr_chars(*sa),
{
    proof {
        reveal_strlit("[");
        reveal_strlit("]:");
        reveal_strlit(":");
        assert(("[")@ =~= seq!['[']);
        assert(("]:")@ =~= seq![']', ':']);
        assert((":")@ =~= seq![':']);
    }
    let port = u32_to_dec(sa.port as u32);
    match sa.ip {
        IpAddress::V4(_, _, _, _) => {
            let mut s = format_ip(&sa.ip);
            s.append(":");
            s.append(port.as_str());
            s
        }
        IpAddress::V6(_, _, _, _, _, _, _, _) => {
            let mut s = String::from_str("[");
            let ip = format_ip(&sa.ip);
            s.append(ip.as_str());
            s.append("]:");
            s.append(port.as_str());
            s
        }
    }
}

/// The text of a list of socket addresses: comma-and-space separated.
pub open spec fn addr_list_chars(addrs: Seq<SockAddr>) -> Seq<char>
    decreases addrs.len(),
{
    if addrs.len() == 0 {
        Seq::<char>::empty()
    } else if addrs.len() == 1 {
        sock_addr_chars(addrs[0])
    } else {
        sock_addr_chars(addrs[0]) + seq![',', ' '] + addr_list_chars(addrs.drop_first())
    }
}

/// The text a destination logs itself as: the bracketed address list of
/// a TCP target, or the path of a Unix-socket target.
pub open spec fn destination_chars(d: Destination) -> Seq<char> {
    match d {
        Destination::Tcp(addrs) => seq!['['] + addr_list_chars(addrs@) + seq![']'],
        Destination::Unix(p) => p@,
    }
}

fn format_addr_list_from(addrs: &Vec<SockAddr>, i: usize) -> (r: String)
    requires
        i <= addrs@.len(),
    ensures
        r@ == addr_list_chars(addrs@.skip(i as int)),
    decreases addrs@.len() - i,
{
    proof {
        reveal_strlit(", ");
        assert((", ")@ =~= seq![',', ' ']);
    }
    if i == addrs.len() {
        String::new()
    } else if i + 1 == addrs.len() {
        proof {
            assert(addrs@.skip(i as int) =~= seq![addrs@[i as int]]);
        }
        format_sock_addr(&addrs[i])
    } else {
        let mut s = format_sock_addr(&addrs[i]);
        s.append(", ");
        let rest = format_addr_list_from(addrs, i + 1);
        s.append(rest.as_str());
        proof {
            assert(addrs@.skip(i as int).drop_first() =~= addrs@.skip(i as int + 1));
            assert(addrs@.skip(i as int)[0] == addrs@[i as int]);
        }
        s
    }
}

impl Destination {
    /// Renders this destination as the log records name it.
    pub fn describe(&self) -> (r: String)
        ensures
            r@ == destination_chars(*self),
    {
        match self {
            Destination::Tcp(addrs) => {
                proof {
                    reveal_strlit("[");
                    reveal_strlit("]");
                    assert(("[")@ =~= seq!['[']);
                    assert(("]")@ =~= seq![']']);
                }
                let mut s = String::from_str("[");
                let list = format_addr_list_from(addrs, 0);
                s.append(list.as_str());
                s.append("]");
                proof {
                    assert(addrs@.skip(0) =~= addrs@);
                }
                s
            }
            Destination::Unix(p) => p.clone(),
        }
    }
}

} // verus!
