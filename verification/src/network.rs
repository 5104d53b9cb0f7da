//! Network-layer values: canonical textual addresses and the per-frame
//! network descriptor. IPv4 addresses render as dotted decimal; IPv6
//! addresses render in the canonical compressed form, with the longest (and
//! first such) run of two or more zero groups folded into `::`, and the
//! IPv4-mapped range shown with a dotted-decimal tail.

use vstd::prelude::*;
use vstd::string::StringExecFns;
use crate::facts::NetFacts;
use crate::facts::NetFactsView;
use crate::text::push_decimal;
use crate::text::spec_dec;
use crate::text::spec_hex;
use crate::text::u16_to_hex;

verus! {

/// Four bytes as dotted decimal.
pub open spec fn spec_ipv4_text(b: Seq<u8>) -> Seq<char>
    recommends
        b.len() == 4,
{
    spec_dec(b[0] as nat) + seq!['.'] + spec_dec(b[1] as nat) + seq!['.'] + spec_dec(b[2] as nat)
        + seq!['.'] + spec_dec(b[3] as nat)
}

/// Appends the dotted-decimal form of four bytes to `out`.
pub fn push_ipv4(out: &mut String, b0: u8, b1: u8, b2: u8, b3: u8)
    ensures
        final(out)@ == old(out)@ + spec_ipv4_text(seq![b0, b1, b2, b3]),
{
    proof {
        reveal_strlit(".");
    }
    push_decimal(out, b0 as u64);
    out.append(".");
    push_decimal(out, b1 as u64);
    out.append(".");
    push_decimal(out, b2 as u64);
    out.append(".");
    push_decimal(out, b3 as u64);
    proof {
        assert(out@ =~= old(out)@ + spec_ipv4_text(seq![b0, b1, b2, b3]));
    }
}

/// Renders an IPv4 address as dotted decimal.
pub fn ipv4_to_string(b: &[u8; 4]) -> (r: String)
    ensures
        r@ == spec_ipv4_text(b@),
{
    let mut s = String::new();
    push_ipv4(&mut s, b[0], b[1], b[2], b[3]);
    proof {
        assert(seq![b@[0], b@[1], b@[2], b@[3]] =~= b@);
    }
    s
}

/// The eight 16-bit groups of an IPv6 address, in network order.
pub open spec fn spec_segs(b: Seq<u8>) -> Seq<u16>
    recommends
        b.len() == 16,
{
    Seq::new(8, |i: int| ((b[2 * i] as int) * 256 + (b[2 * i + 1] as int)) as u16)
}

/// One scanning step of the zero-run search, mirroring how the canonical form
/// is chosen: the first run of zero groups that is strictly longer than every
/// earlier run wins.
pub open spec fn spec_run_scan(
    s: Seq<u16>,
    i: int,
    cur_start: int,
    cur_len: int,
    best_start: int,
    best_len: int,
) -> (int, int)
    decreases s.len() - i,
{
    if i < 0 || i >= s.len() {
        (best_start, best_len)
    } else if s[i] == 0 {
        let ns = if cur_len == 0 { i } else { cur_start };
        let nl = cur_len + 1;
        if nl > best_len {
            spec_run_scan(s, i + 1, ns, nl, ns, nl)
        } else {
            spec_run_scan(s, i + 1, ns, nl, best_start, best_len)
        }
    } else {
        spec_run_scan(s, i + 1, 0, 0, best_start, best_len)
    }
}

/// The start and length of the zero-group run that the canonical form folds.
pub open spec fn spec_zero_run(s: Seq<u16>) -> (int, int) {
    spec_run_scan(s, 0, 0, 0, 0, 0)
}

/// Hexadecimal groups joined by `:`.
pub open spec fn spec_groups_text(s: Seq<u16>) -> Seq<char>
    decreases s.len(),
{
    if s.len() == 0 {
        Seq::empty()
    } else if s.len() == 1 {
        spec_hex(s[0] as nat)
    } else {
        spec_hex(s[0] as nat) + seq![':'] + spec_groups_text(s.skip(1))
    }
}

/// The canonical text of an IPv6 address given as sixteen bytes.
pub open spec fn spec_ipv6_text(b: Seq<u8>) -> Seq<char>
    recommends
        b.len() == 16,
{
    let s = spec_segs(b);
    if s[0] == 0 && s[1] == 0 && s[2] == 0 && s[3] == 0 && s[4] == 0 && s[5] == 0xffff {
        "::ffff:"@ + spec_ipv4_text(b.subrange(12, 16))
    } else {
        let (start, len) = spec_zero_run(s);
        if len > 1 {
            spec_groups_text(s.subrange(0, start)) + "::"@ + spec_groups_text(
                s.subrange(start + len, 8),
            )
        } else {
            spec_groups_text(s)
        }
    }
}

fn push_groups(out: &mut String, segs: &Vec<u16>, from: usize, to: usize)
    requires
        from <= to <= old(out)@.len() + segs@.len(),
        to <= segs@.len(),
    ensures
        final(out)@ == old(out)@ + spec_groups_text(segs@.subrange(from as int, to as int)),
    decreases to - from,
{
    proof {
        reveal_strlit(":");
    }
    if from == to {
        proof {
            assert(segs@.subrange(from as int, to as int).len() == 0);
            assert(out@ =~= old(out)@ + spec_groups_text(segs@.subrange(from as int, to as int)));
        }
    } else if from + 1 == to {
        let g = u16_to_hex(segs[from]);
        out.append(g.as_str());
        proof {
            assert(segs@.subrange(from as int, to as int) =~= seq![segs@[from as int]]);
            assert(out@ =~= old(out)@ + spec_groups_text(segs@.subrange(from as int, to as int)));
        }
    } else {
        let g = u16_to_hex(segs[from]);
        out.append(g.as_str());
        out.append(":");
        push_groups(out, segs, from + 1, to);
        proof {
            let sub = segs@.subrange(from as int, to as int);
            assert(sub.len() >= 2);
            assert(sub[0] == segs@[from as int]);
            assert(sub.skip(1) =~= segs@.subrange(from as int + 1, to as int));
            assert(out@ =~= old(out)@ + spec_groups_text(sub));
        }
    }
}

/// Renders an IPv6 address in its canonical compressed text form.
pub fn ipv6_to_string(b: &[u8; 16]) -> (r: String)
    ensures
        r@ == spec_ipv6_text(b@),
{
    let mut segs: Vec<u16> = Vec::new();
    let mut i: usize = 0;
    while i < 8
        invariant
            i <= 8,
            segs@.len() == i as int,
            forall|j: int| 0 <= j < i as int ==> segs@[j] == spec_segs(b@)[j],
        decreases 8 - i,
    {
        let hi = b[2 * i];
        let lo = b[2 * i + 1];
        segs.push((hi as u16) * 256 + (lo as u16));
        i = i + 1;
    }
    proof {
        assert(segs@ =~= spec_segs(b@));
    }
    if segs[0] == 0 && segs[1] == 0 && segs[2] == 0 && segs[3] == 0 && segs[4] == 0 && segs[5]
        == 0xffff {
        let mut s = String::from_str("::ffff:");
        push_ipv4(&mut s, b[12], b[13], b[14], b[15]);
        proof {
            assert(seq![b@[12], b@[13], b@[14], b@[15]] =~= b@.subrange(12, 16));
        }
        s
    } else {
        // Scan for the first longest run of zero groups, exactly as
        // `spec_run_scan` walks it.
        let mut cur_start: usize = 0;
        let mut cur_len: usize = 0;
        let mut best_start: usize = 0;
        let mut best_len: usize = 0;
        let mut k: usize = 0;
        while k < 8
            invariant
                k <= 8,
                segs@.len() == 8,
                cur_len <= k,
                cur_start + cur_len == k || cur_len == 0,
                best_start + best_len <= 8,
                best_len <= 8,
                spec_run_scan(
                    segs@,
                    k as int,
                    cur_start as int,
                    cur_len as int,
                    best_start as int,
                    best_len as int,
                ) == spec_zero_run(segs@),
            decreases 8 - k,
        {
            if segs[k] == 0 {
                if cur_len == 0 {
                    cur_start = k;
                }
                cur_len = cur_len + 1;
                if cur_len > best_len {
                    best_start = cur_start;
                    best_len = cur_len;
                }
            } else {
                cur_start = 0;
                cur_len = 0;
            }
            k = k + 1;
        }
        let mut s = String::new();
        if best_len > 1 {
            proof {
                reveal_strlit("::");
            }
            push_groups(&mut s, &segs, 0, best_start);
            s.append("::");
            push_groups(&mut s, &segs, best_start + best_len, 8);
            proof {
                assert(s@ =~= spec_ipv6_text(b@));
            }
            s
        } else {
            push_groups(&mut s, &segs, 0, 8);
            proof {
                assert(segs@.subrange(0, 8) =~= segs@);
                assert(s@ =~= spec_ipv6_text(b@));
            }
            s
        }
    }
}

/// The per-frame network descriptor: the protocol name and both addresses in
/// canonical textual form.
#[derive(Debug)]
pub struct NetworkInfo {
    /// `IPv4` or `IPv6`.
    pub protocol: String,
    /// Source address text.
    pub source_address: String,
    /// Destination address text.
    pub destination_address: String,
}

/// The mathematical shape of a network descriptor.
pub ghost struct NetworkInfoView {
    pub protocol: Seq<char>,
    pub source_address: Seq<char>,
    pub destination_address: Seq<char>,
}

impl View for NetworkInfo {
    type V = NetworkInfoView;

    open spec fn view(&self) -> NetworkInfoView {
        NetworkInfoView {
            protocol: self.protocol@,
            source_address: self.source_address@,
            destination_address: self.destination_address@,
        }
    }
}

/// The network descriptor that `parse_network` builds for given facts.
pub open spec fn spec_network_info(f: NetFactsView) -> NetworkInfoView {
    match f {
        NetFactsView::V4 { source, destination } => NetworkInfoView {
            protocol: "IPv4"@,
            source_address: spec_ipv4_text(source),
            destination_address: spec_ipv4_text(destination),
        },
        NetFactsView::V6 { source, destination } => NetworkInfoView {
            protocol: "IPv6"@,
            source_address: spec_ipv6_text(source),
            destination_address: spec_ipv6_text(destination),
        },
    }
}

/// Builds the network descriptor for a frame whose network layer was
/// recognized as IPv4 or IPv6; anything else yields no descriptor.
pub fn parse_network(ip_value: Option<NetFacts>) -> (r: Option<NetworkInfo>)
    ensures
        match ip_value {
            Some(f) => match r {
                Some(ni) => ni@ == spec_network_info(f@),
                None => false,
            },
            None => r is None,
        },
{
    match ip_value {
        Some(NetFacts::V4(source, destination)) => Some(
            NetworkInfo {
                protocol: String::from_str("IPv4"),
                source_address: ipv4_to_string(&source),
                destination_address: ipv4_to_string(&destination),
            },
        ),
        Some(NetFacts::V6(source, destination)) => Some(
            NetworkInfo {
                protocol: String::from_str("IPv6"),
                source_address: ipv6_to_string(&source),
                destination_address: ipv6_to_string(&destination),
            },
        ),
        None => None,
    }
}

} // verus!
