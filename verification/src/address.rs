use vstd::prelude::*;

use crate::text::{decimal_text, hex_text, push_decimal, push_hex};

verus! {

/// A numeric socket address: an IPv4 address and port, or an IPv6 address,
/// port, flow information and scope id; octets in network order.
#[derive(Clone, Copy, Debug)]
pub enum SocketAddr {
    V4([u8; 4], u16),
    V6([u8; 16], u16, u32, u32),
}

/// The target that a client asked the proxy to reach: a numeric socket
/// address, or a domain name that is resolved only when connecting.
#[derive(Clone, Debug)]
pub enum Address {
    SocketAddr(SocketAddr),
    DomainName(String, u16),
}

/// Mathematical model of [`SocketAddr`].
pub enum SocketAddrView {
    V4(Seq<u8>, u16),
    V6(Seq<u8>, u16, u32, u32),
}

/// Mathematical model of [`Address`].
pub enum AddressView {
    SocketAddr(SocketAddrView),
    DomainName(Seq<char>, u16),
}

impl View for SocketAddr {
    type V = SocketAddrView;

    open spec fn view(&self) -> SocketAddrView {
        match self {
            SocketAddr::V4(ip, port) => SocketAddrView::V4(ip@, *port),
            SocketAddr::V6(ip, port, flow, scope) => SocketAddrView::V6(ip@, *port, *flow, *scope),
        }
    }
}

impl View for Address {
    type V = AddressView;

    open spec fn view(&self) -> AddressView {
        match self {
            Address::SocketAddr(a) => AddressView::SocketAddr(a@),
            Address::DomainName(name, port) => AddressView::DomainName(name@, *port),
        }
    }
}

/// Dotted-decimal text of the four IPv4 octets `o`.
pub open spec fn ipv4_text(o: Seq<u8>) -> Seq<char> {
    decimal_text(o[0] as nat) + seq!['.'] + decimal_text(o[1] as nat) + seq!['.'] + decimal_text(
        o[2] as nat,
    ) + seq!['.'] + decimal_text(o[3] as nat)
}

/// Appends the dotted-decimal text of an IPv4 address.
fn push_ipv4(s: &mut String, o: &[u8; 4])
    ensures
        final(s)@ == old(s)@ + ipv4_text(o@),
{
    proof {
        reveal_strlit(".");
    }
    push_decimal(s, o[0] as u64);
    s.append(".");
    push_decimal(s, o[1] as u64);
    s.append(".");
    push_decimal(s, o[2] as u64);
    s.append(".");
    push_decimal(s, o[3] as u64);
    assert(s@ =~= old(s)@ + ipv4_text(o@));
}

/// The `i`-th 16-bit group of the IPv6 octets `o`, in network order.
pub open spec fn segment(o: Seq<u8>, i: int) -> u16 {
    (o[2 * i] * 256 + o[2 * i + 1]) as u16
}

/// The eight 16-bit groups of the IPv6 octets `o`.
pub open spec fn segments(o: Seq<u8>) -> Seq<u16> {
    Seq::new(8, |i: int| segment(o, i))
}

/// Groups written in hexadecimal and separated by colons.
pub open spec fn hex_groups(s: Seq<u16>) -> Seq<char>
    decreases s.len(),
{
    if s.len() == 0 {
        Seq::empty()
    } else if s.len() == 1 {
        hex_text(s[0] as nat)
    } else {
        hex_groups(s.drop_last()) + seq![':'] + hex_text(s.last() as nat)
    }
}

/// `s[start..start + len]` is a run of zero groups.
pub open spec fn is_zero_run(s: Seq<u16>, start: int, len: int) -> bool {
    &&& 0 <= start
    &&& 0 <= len
    &&& start + len <= s.len()
    &&& forall|k: int| start <= k < start + len ==> s[k] == 0
}

/// `s[start..start + len]` is the longest run of zero groups, and the first
/// of the longest ones.
pub open spec fn is_first_longest_zero_run(s: Seq<u16>, start: int, len: int) -> bool {
    &&& is_zero_run(s, start, len)
    &&& forall|st: int, l: int|
        #[trigger] is_zero_run(s, st, l) ==> l <= len && (l == len ==> start <= st)
}

/// The first longest run of zero groups, as (start, length).
pub open spec fn first_longest_zero_run(s: Seq<u16>) -> (int, int) {
    choose|p: (int, int)| is_first_longest_zero_run(s, p.0, p.1)
}

/// An IPv4-mapped IPv6 address: `::ffff:a.b.c.d`.
pub open spec fn is_ipv4_mapped(o: Seq<u8>) -> bool {
    &&& forall|k: int| 0 <= k < 10 ==> o[k] == 0
    &&& o[10] == 0xff
    &&& o[11] == 0xff
}

/// Text of the sixteen IPv6 octets `o`: an IPv4-mapped address as
/// `::ffff:` and its dotted IPv4 part; otherwise the eight groups in
/// hexadecimal, with the first longest run of two or more zero groups
/// written as `::`.
pub open spec fn ipv6_text(o: Seq<u8>) -> Seq<char> {
    if is_ipv4_mapped(o) {
        seq![':', ':', 'f', 'f', 'f', 'f', ':'] + ipv4_text(o.subrange(12, 16))
    } else {
        let s = segments(o);
        let run = first_longest_zero_run(s);
        if run.1 > 1 {
            hex_groups(s.subrange(0, run.0)) + seq![':', ':'] + hex_groups(
                s.subrange(run.0 + run.1, 8),
            )
        } else {
            hex_groups(s)
        }
    }
}

/// There is at most one first longest zero run.
proof fn first_longest_zero_run_unique(s: Seq<u16>, a: int, n: int, b: int, m: int)
    requires
        is_first_longest_zero_run(s, a, n),
        is_first_longest_zero_run(s, b, m),
    ensures
        a == b && n == m,
{
    assert(is_zero_run(s, b, m));
    assert(is_zero_run(s, a, n));
}

/// The eight groups of an IPv6 address.
fn ipv6_segments(o: &[u8; 16]) -> (r: Vec<u16>)
    ensures
        r@ == segments(o@),
{
    let mut v: Vec<u16> = Vec::new();
    let mut i: usize = 0;
    while i < 8
        invariant
            0 <= i <= 8,
            v@.len() == i,
            forall|k: int| 0 <= k < i ==> v@[k] == segment(o@, k),
        decreases 8 - i,
    {
        let hi = o[2 * i] as u16;
        let lo = o[2 * i + 1] as u16;
        v.push(hi * 256 + lo);
        i = i + 1;
    }
    assert(v@ =~= segments(o@));
    v
}

/// Finds the first longest run of zero groups, as (start, length).
fn zero_run(s: &Vec<u16>) -> (r: (usize, usize))
    requires
        s@.len() == 8,
    ensures
        is_first_longest_zero_run(s@, r.0 as int, r.1 as int),
{
    let mut best_start: usize = 0;
    let mut best_len: usize = 0;
    let mut cur_start: usize = 0;
    let mut cur_len: usize = 0;
    let mut i: usize = 0;
    while i < 8
        invariant
            0 <= i <= 8,
            s@.len() == 8,
            is_zero_run(s@, cur_start as int, cur_len as int),
            cur_start + cur_len == i,
            cur_start > 0 ==> s@[cur_start - 1] != 0,
            is_zero_run(s@, best_start as int, best_len as int),
            best_start + best_len <= i,
            best_len == 0 ==> best_start == 0,
            forall|st: int, l: int|
                is_zero_run(s@, st, l) && st + l <= i ==> l <= best_len && (l == best_len
                    ==> best_start <= st),
        decreases 8 - i,
    {
        if s[i] == 0 {
            cur_len = cur_len + 1;
            assert forall|st: int, l: int|
                is_zero_run(s@, st, l) && st + l == i + 1 && l > 0 implies cur_start <= st by {
                if st < cur_start {
                    assert(s@[cur_start - 1] == 0);
                }
            }
            if cur_len > best_len {
                best_start = cur_start;
                best_len = cur_len;
            }
        } else {
            assert forall|st: int, l: int| is_zero_run(s@, st, l) && st + l == i + 1 implies l
                == 0 by {
                if l > 0 {
                    assert(s@[st + l - 1] == 0);
                }
            }
            cur_start = i + 1;
            cur_len = 0;
        }
        i = i + 1;
    }
    (best_start, best_len)
}

/// Appends the groups `segs[from..to]` in hexadecimal, separated by colons.
fn push_hex_groups(s: &mut String, segs: &Vec<u16>, from: usize, to: usize)
    requires
        from <= to <= segs@.len(),
    ensures
        final(s)@ == old(s)@ + hex_groups(segs@.subrange(from as int, to as int)),
{
    proof {
        reveal_strlit(":");
        assert(segs@.subrange(from as int, from as int) =~= Seq::<u16>::empty());
        assert(s@ =~= old(s)@ + hex_groups(segs@.subrange(from as int, from as int)));
    }
    let mut k: usize = from;
    while k < to
        invariant
            from <= k <= to <= segs@.len(),
            s@ == old(s)@ + hex_groups(segs@.subrange(from as int, k as int)),
        decreases to - k,
    {
        let ghost before = segs@.subrange(from as int, k as int);
        let ghost after = segs@.subrange(from as int, k + 1);
        assert(after.drop_last() =~= before);
        assert(after.last() == segs@[k as int]);
        let ghost start = s@;
        proof {
            reveal_strlit(":");
        }
        if k > from {
            s.append(":");
        }
        push_hex(s, segs[k] as u64);
        proof {
            if k > from {
                assert(hex_groups(after) == hex_groups(before) + seq![':'] + hex_text(
                    segs@[k as int] as nat,
                ));
                assert(s@ =~= start + seq![':'] + hex_text(segs@[k as int] as nat));
            } else {
                assert(before =~= Seq::<u16>::empty());
                assert(hex_groups(after) == hex_text(segs@[k as int] as nat));
                assert(s@ =~= start + hex_text(segs@[k as int] as nat));
            }
        }
        k = k + 1;
        assert(s@ =~= old(s)@ + hex_groups(after));
    }
}

/// Appends the text of an IPv6 address.
fn push_ipv6(s: &mut String, o: &[u8; 16])
    ensures
        final(s)@ == old(s)@ + ipv6_text(o@),
{
    proof {
        reveal_strlit("::ffff:");
        reveal_strlit("::");
    }
    if o[0] == 0 && o[1] == 0 && o[2] == 0 && o[3] == 0 && o[4] == 0 && o[5] == 0 && o[6] == 0
        && o[7] == 0 && o[8] == 0 && o[9] == 0 && o[10] == 0xff && o[11] == 0xff {
        assert(is_ipv4_mapped(o@));
        s.append("::ffff:");
        let v4: [u8; 4] = [o[12], o[13], o[14], o[15]];
        assert(v4@ =~= o@.subrange(12, 16));
        push_ipv4(s, &v4);
        assert(s@ =~= old(s)@ + ipv6_text(o@));
    } else {
        assert(!is_ipv4_mapped(o@)) by {
            if is_ipv4_mapped(o@) {
                assert(o@[0] == 0 && o@[1] == 0 && o@[2] == 0 && o@[3] == 0 && o@[4] == 0);
                assert(o@[5] == 0 && o@[6] == 0 && o@[7] == 0 && o@[8] == 0 && o@[9] == 0);
            }
        }
        let segs = ipv6_segments(o);
        let (start, len) = zero_run(&segs);
        proof {
            let run = first_longest_zero_run(segs@);
            assert(is_first_longest_zero_run(segs@, run.0, run.1));
            first_longest_zero_run_unique(segs@, run.0, run.1, start as int, len as int);
        }
        if len > 1 {
            push_hex_groups(s, &segs, 0, start);
            s.append("::");
            push_hex_groups(s, &segs, start + len, 8);
            assert(s@ =~= old(s)@ + ipv6_text(o@));
        } else {
            push_hex_groups(s, &segs, 0, 8);
            assert(segs@.subrange(0, 8) =~= segs@);
        }
    }
}

/// Text of a socket address: `a.b.c.d:port`; `[ipv6]:port`, or
/// `[ipv6%scope]:port` when the scope id is not 0. The flow information is
/// not shown.
pub open spec fn socket_addr_text(a: SocketAddrView) -> Seq<char> {
    match a {
        SocketAddrView::V4(ip, port) => ipv4_text(ip) + seq![':'] + decimal_text(port as nat),
        SocketAddrView::V6(ip, port, _, scope) => seq!['['] + ipv6_text(ip) + (if scope == 0 {
            Seq::empty()
        } else {
            seq!['%'] + decimal_text(scope as nat)
        }) + seq![']', ':'] + decimal_text(port as nat),
    }
}

/// Text of a target address: a socket address as above, or `name:port`.
pub open spec fn address_text(a: AddressView) -> Seq<char> {
    match a {
        AddressView::SocketAddr(sa) => socket_addr_text(sa),
        AddressView::DomainName(name, port) => name + seq![':'] + decimal_text(port as nat),
    }
}

impl SocketAddr {
    /// The text of this socket address, as `a.b.c.d:port`, `[ipv6]:port` or
    /// `[ipv6%scope]:port`.
    pub fn to_string(&self) -> (r: String)
        ensures
            r@ == socket_addr_text(self@),
    {
        proof {
            reveal_strlit(":");
            reveal_strlit("[");
            reveal_strlit("]:");
            reveal_strlit("%");
        }
        let mut s = String::new();
        match self {
            SocketAddr::V4(ip, port) => {
                push_ipv4(&mut s, ip);
                s.append(":");
                push_decimal(&mut s, *port as u64);
            },
            SocketAddr::V6(ip, port, _, scope) => {
                s.append("[");
                push_ipv6(&mut s, ip);
                if *scope != 0 {
                    s.append("%");
                    push_decimal(&mut s, *scope as u64);
                }
                s.append("]:");
                push_decimal(&mut s, *port as u64);
            },
        }
        assert(s@ =~= socket_addr_text(self@));
        s
    }
}

impl Address {
    /// The text of this target: the socket address text, or `name:port`.
    pub fn to_text(&self) -> (r: String)
        ensures
            r@ == address_text(self@),
    {
        match self {
            Address::SocketAddr(a) => a.to_string(),
            Address::DomainName(name, port) => {
                proof {
                    reveal_strlit(":");
                }
                let mut s = String::new();
                s.append(name.as_str());
                s.append(":");
                push_decimal(&mut s, *port as u64);
                assert(s@ =~= address_text(self@));
                s
            },
        }
    }
}

/// The address to connect to for a resolved domain name: the first one the
/// resolver gave, or nothing when it gave none.
pub fn first_resolved(candidates: &[SocketAddr]) -> (r: Option<SocketAddr>)
    ensures
        candidates@.len() == 0 ==> r is None,
        candidates@.len() > 0 ==> r == Some(candidates@[0]),
{
    if candidates.len() == 0 {
        None
    } else {
        Some(candidates[0])
    }
}

} // verus!
