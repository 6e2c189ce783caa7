//! Direct MX delivery: which domain a recipient belongs to, which domains
//! may be looked up, and the order of the mail servers that a DNS MX
//! answer names.
//!
//! Running the DNS query and speaking SMTP to the servers is the caller's
//! part.

use vstd::prelude::*;
use std::sync::Arc;
use crate::text::{
    chars_of, push_chars, string_of, is_ws, char_is_ws, last_index_of, rfind_in, strip_trailing,
    contains_seq, str_contains, digit_char,
};
use crate::render::text_extractor::{split_lines, split_into_lines};
use crate::send::smtp::web_pki_tls_config;

verus! {

broadcast use vstd::string::group_string_axioms;

// ---------------------------------------------------------------------------
// Domains
// ---------------------------------------------------------------------------

/// A character allowed in a domain name looked up by MX: an ASCII letter or
/// digit, `.` or `-`.
pub open spec fn is_domain_char(c: char) -> bool {
    ('a' <= c && c <= 'z') || ('A' <= c && c <= 'Z') || ('0' <= c && c <= '9') || c == '.' || c == '-'
}

/// A domain that may be passed to the MX lookup: 1 to 253 characters, all
/// of them letters, digits, dots or hyphens.
pub open spec fn valid_mx_domain(d: Seq<char>) -> bool {
    0 < d.len() <= 253 && forall|i: int| 0 <= i < d.len() ==> is_domain_char(#[trigger] d[i])
}

/// Whether a domain may be passed to the MX lookup (which shells out, so
/// nothing else is let through).
pub fn is_valid_mx_domain(domain: &str) -> (b: bool)
    ensures
        b == valid_mx_domain(domain@),
{
    let v = chars_of(domain);
    if v.len() == 0 || v.len() > 253 {
        return false;
    }
    let mut i: usize = 0;
    while i < v.len()
        invariant
            i <= v@.len(),
            v@ == domain@,
            forall|j: int| 0 <= j < i ==> is_domain_char(#[trigger] v@[j]),
        decreases v@.len() - i,
    {
        let c = v[i];
        if !(('a' <= c && c <= 'z') || ('A' <= c && c <= 'Z') || ('0' <= c && c <= '9') || c == '.' || c == '-') {
            assert(!is_domain_char(v@[i as int]));
            return false;
        }
        i = i + 1;
    }
    true
}

/// The domain of an address: what follows its last `@`, or the whole text
/// when it has none.
pub open spec fn domain_of(addr: Seq<char>) -> Seq<char> {
    addr.subrange(last_index_of(addr, '@') + 1, addr.len() as int)
}

/// The domain of a recipient address.
pub fn recipient_domain(addr: &str) -> (d: String)
    ensures
        d@ == domain_of(addr@),
{
    let v = chars_of(addr);
    let start = match rfind_in(&v, 0, v.len(), '@') {
        Some(i) => i + 1,
        None => 0,
    };
    proof {
        assert(v@.subrange(0, v@.len() as int) == v@);
    }
    let mut d = String::new();
    push_chars(&mut d, &v, start, v.len());
    d
}

// ---------------------------------------------------------------------------
// MX answers
// ---------------------------------------------------------------------------

/// The finished words of `s` and the word being read.
pub open spec fn words_acc(s: Seq<char>) -> (Seq<Seq<char>>, Seq<char>)
    decreases s.len(),
{
    if s.len() == 0 {
        (seq![], seq![])
    } else {
        let (done, cur) = words_acc(s.drop_last());
        if is_ws(s.last()) {
            if cur.len() > 0 {
                (done.push(cur), seq![])
            } else {
                (done, cur)
            }
        } else {
            (done, cur.push(s.last()))
        }
    }
}

/// The whitespace-separated words of `s` (`str::split_whitespace`).
pub open spec fn words(s: Seq<char>) -> Seq<Seq<char>> {
    let (done, cur) = words_acc(s);
    if cur.len() > 0 {
        done.push(cur)
    } else {
        done
    }
}

/// The value of a numeral of decimal digits.
pub open spec fn digits_value(d: Seq<char>) -> nat
    decreases d.len(),
{
    if d.len() == 0 {
        0
    } else {
        digits_value(d.drop_last()) * 10 + (d.last() as nat - '0' as nat) as nat
    }
}

/// `c` is a decimal digit.
pub open spec fn is_digit(c: char) -> bool {
    '0' <= c && c <= '9'
}

/// Every character of `d` is a decimal digit.
pub open spec fn all_digits(d: Seq<char>) -> bool {
    forall|i: int| 0 <= i < d.len() ==> is_digit(#[trigger] d[i])
}

/// `s` without one leading `+`.
pub open spec fn unsigned_digits(s: Seq<char>) -> Seq<char> {
    if s.len() > 0 && s[0] == '+' {
        s.skip(1)
    } else {
        s
    }
}

/// The number `str::parse::<u16>` reads from `s`: an optional `+`, then
/// one or more decimal digits, with a value that fits in 16 bits.
pub open spec fn parse_u16(s: Seq<char>) -> Option<u16> {
    let d = unsigned_digits(s);
    if d.len() > 0 && all_digits(d) && digits_value(d) <= 65535 {
        Some(digits_value(d) as u16)
    } else {
        None
    }
}

/// The record a line of `dig +short MX` output gives: exactly two words, a
/// priority and a host (without trailing dots).
pub open spec fn mx_record(line: Seq<char>) -> Option<(u16, Seq<char>)> {
    let w = words(line);
    if w.len() == 2 {
        match parse_u16(w[0]) {
            Some(p) => Some((p, strip_trailing(w[1], '.'))),
            None => None,
        }
    } else {
        None
    }
}

/// The records of some lines, in order, skipping lines that are not
/// records.
pub open spec fn mx_records(lines: Seq<Seq<char>>) -> Seq<(u16, Seq<char>)>
    decreases lines.len(),
{
    if lines.len() == 0 {
        seq![]
    } else {
        let prev = mx_records(lines.drop_last());
        match mx_record(lines.last()) {
            Some(r) => prev.push(r),
            None => prev,
        }
    }
}

/// The hosts of the records of priority `p`, in their order.
pub open spec fn hosts_with_priority(rs: Seq<(u16, Seq<char>)>, p: int) -> Seq<Seq<char>>
    decreases rs.len(),
{
    if rs.len() == 0 {
        seq![]
    } else {
        let prev = hosts_with_priority(rs.drop_last(), p);
        if rs.last().0 == p {
            prev.push(rs.last().1)
        } else {
            prev
        }
    }
}

/// The hosts of the records of priority below `p`, ordered by priority,
/// records of equal priority in their order (a stable sort).
pub open spec fn hosts_by_priority(rs: Seq<(u16, Seq<char>)>, p: int) -> Seq<Seq<char>>
    decreases p,
{
    if p <= 0 {
        seq![]
    } else {
        hosts_by_priority(rs, p - 1) + hosts_with_priority(rs, p - 1)
    }
}

/// The mail servers to try for `domain`, given the output of
/// `dig +short MX domain`: the hosts of its records ordered by priority
/// (stable), or the domain itself when it has none.
pub open spec fn mx_hosts(domain: Seq<char>, output: Seq<char>) -> Seq<Seq<char>> {
    let rs = mx_records(split_lines(output));
    if rs.len() == 0 {
        seq![domain]
    } else {
        hosts_by_priority(rs, 65536)
    }
}

fn words_of(v: &Vec<char>) -> (r: Vec<Vec<char>>)
    ensures
        r@.len() == words(v@).len(),
        forall|i: int| 0 <= i < r@.len() ==> #[trigger] r@[i]@ == words(v@)[i],
{
    let mut done: Vec<Vec<char>> = Vec::new();
    let mut cur: Vec<char> = Vec::new();
    let mut i: usize = 0;
    while i < v.len()
        invariant
            i <= v@.len(),
            done@.len() == words_acc(v@.subrange(0, i as int)).0.len(),
            forall|k: int| 0 <= k < done@.len() ==> #[trigger] done@[k]@ == words_acc(v@.subrange(0, i as int)).0[k],
            cur@ == words_acc(v@.subrange(0, i as int)).1,
        decreases v@.len() - i,
    {
        proof {
            assert(v@.subrange(0, i + 1).drop_last() == v@.subrange(0, i as int));
        }
        let c = v[i];
        if char_is_ws(c) {
            if cur.len() > 0 {
                done.push(cur);
                cur = Vec::new();
            }
        } else {
            cur.push(c);
        }
        i = i + 1;
    }
    proof {
        assert(v@.subrange(0, v@.len() as int) == v@);
    }
    if cur.len() > 0 {
        done.push(cur);
    }
    done
}

/// The number `str::parse::<u16>` reads from the characters `w`.
pub fn parse_priority_chars(w: &Vec<char>) -> (r: Option<u16>)
    ensures
        r == parse_u16(w@),
{
    let start: usize = if w.len() > 0 && w[0] == '+' { 1 } else { 0 };
    let ghost d = w@.skip(start as int);
    proof {
        assert(w@.skip(0) == w@);
        assert(d == unsigned_digits(w@));
    }
    if start >= w.len() {
        return None;
    }
    let mut value: u32 = 0;
    let mut i: usize = start;
    while i < w.len()
        invariant
            start <= i <= w@.len(),
            start < w@.len(),
            d == w@.skip(start as int),
            d == unsigned_digits(w@),
            forall|j: int| 0 <= j < i - start ==> is_digit(#[trigger] d[j]),
            value == digits_value(d.take(i - start)),
            value <= 65535,
        decreases w@.len() - i,
    {
        let c = w[i];
        if !('0' <= c && c <= '9') {
            assert(!is_digit(d[i - start]));
            return None;
        }
        proof {
            assert(d.take(i - start + 1).drop_last() == d.take(i - start));
            assert(d.take(i - start + 1).last() == c);
        }
        let next: u32 = value * 10 + (c as u32 - '0' as u32);
        if next > 65535 {
            proof {
                if all_digits(d) {
                    lemma_digits_value_grows(d, (i - start + 1) as int);
                }
            }
            return None;
        }
        value = next;
        i = i + 1;
    }
    proof {
        assert(d.take(i - start) == d);
    }
    Some(value as u16)
}

proof fn lemma_digits_value_grows(d: Seq<char>, k: int)
    requires
        0 <= k <= d.len(),
        forall|j: int| 0 <= j < d.len() ==> is_digit(#[trigger] d[j]),
    ensures
        digits_value(d) >= digits_value(d.take(k)),
    decreases d.len() - k,
{
    if k < d.len() {
        lemma_digits_value_grows(d, k + 1);
        assert(d.take(k + 1).drop_last() == d.take(k));
    } else {
        assert(d.take(k) == d);
    }
}

fn mx_record_of(line: &Vec<char>) -> (r: Option<(u16, String)>)
    ensures
        match r {
            Some((p, h)) => mx_record(line@) == Some((p, h@)),
            None => mx_record(line@) is None,
        },
{
    let w = words_of(line);
    if w.len() != 2 {
        return None;
    }
    proof {
        assert(w@[0]@ == words(line@)[0]);
        assert(w@[1]@ == words(line@)[1]);
    }
    match parse_priority_chars(&w[0]) {
        Some(p) => {
            let host_chars = &w[1];
            let mut end: usize = host_chars.len();
            proof {
                assert(host_chars@.take(end as int) == host_chars@);
            }
            while end > 0 && host_chars[end - 1] == '.'
                invariant
                    end <= host_chars@.len(),
                    strip_trailing(host_chars@, '.') == strip_trailing(host_chars@.take(end as int), '.'),
                decreases end,
            {
                proof {
                    assert(host_chars@.take(end as int).drop_last() == host_chars@.take(end - 1));
                }
                end = end - 1;
            }
            proof {
                assert(host_chars@.take(end as int) == host_chars@.subrange(0, end as int));
            }
            let mut host = String::new();
            push_chars(&mut host, host_chars, 0, end);
            Some((p, host))
        },
        None => None,
    }
}

/// The mail servers to try for `domain`, from the output of
/// `dig +short MX domain`: record hosts by ascending priority (records of
/// equal priority in the order given), or the domain itself when the output
/// names none.
pub fn parse_mx_hosts(domain: &str, output: &str) -> (r: Vec<String>)
    ensures
        r@.len() == mx_hosts(domain@, output@).len(),
        forall|i: int| 0 <= i < r@.len() ==> #[trigger] r@[i]@ == mx_hosts(domain@, output@)[i],
{
    let v = chars_of(output);
    let lines = split_into_lines(&v);
    let mut prios: Vec<u16> = Vec::new();
    let mut hosts: Vec<String> = Vec::new();
    let mut i: usize = 0;
    while i < lines.len()
        invariant
            i <= lines@.len(),
            v@ == output@,
            lines@.len() == split_lines(v@).len(),
            forall|k: int| 0 <= k < lines@.len() ==> #[trigger] lines@[k]@ == split_lines(v@)[k],
            prios@.len() == hosts@.len(),
            prios@.len() == mx_records(split_lines(v@).take(i as int)).len(),
            forall|k: int| 0 <= k < prios@.len() ==> (#[trigger] prios@[k], hosts@[k]@) == mx_records(split_lines(v@).take(i as int))[k],
        decreases lines@.len() - i,
    {
        proof {
            assert(split_lines(v@).take(i + 1).drop_last() == split_lines(v@).take(i as int));
            assert(lines@[i as int]@ == split_lines(v@)[i as int]);
        }
        match mx_record_of(&lines[i]) {
            Some((p, h)) => {
                prios.push(p);
                hosts.push(h);
            },
            None => {},
        }
        i = i + 1;
    }
    proof {
        assert(split_lines(v@).take(lines@.len() as int) == split_lines(v@));
    }
    let ghost rs = mx_records(split_lines(v@));
    let mut out: Vec<String> = Vec::new();
    if prios.len() == 0 {
        out.push(string_of(domain));
        return out;
    }
    let mut p: u32 = 0;
    while p < 65536
        invariant
            p <= 65536,
            prios@.len() == hosts@.len(),
            prios@.len() == rs.len(),
            rs.len() > 0,
            rs == mx_records(split_lines(output@)),
            forall|k: int| 0 <= k < prios@.len() ==> (#[trigger] prios@[k], hosts@[k]@) == rs[k],
            out@.len() == hosts_by_priority(rs, p as int).len(),
            forall|k: int| 0 <= k < out@.len() ==> #[trigger] out@[k]@ == hosts_by_priority(rs, p as int)[k],
        decreases 65536 - p,
    {
        let ghost before = out@;
        let mut j: usize = 0;
        while j < prios.len()
            invariant
                j <= prios@.len(),
                p < 65536,
                prios@.len() == hosts@.len(),
                prios@.len() == rs.len(),
                forall|k: int| 0 <= k < prios@.len() ==> (#[trigger] prios@[k], hosts@[k]@) == rs[k],
                out@.len() == before.len() + hosts_with_priority(rs.take(j as int), p as int).len(),
                forall|k: int| 0 <= k < before.len() ==> #[trigger] out@[k] == before[k],
                forall|k: int| 0 <= k < hosts_with_priority(rs.take(j as int), p as int).len() ==>
                    #[trigger] out@[before.len() + k]@ == hosts_with_priority(rs.take(j as int), p as int)[k],
            decreases prios@.len() - j,
        {
            proof {
                assert(rs.take(j + 1).drop_last() == rs.take(j as int));
                assert(rs.take(j + 1).last() == rs[j as int]);
                assert((prios@[j as int], hosts@[j as int]@) == rs[j as int]);
            }
            if prios[j] as u32 == p {
                out.push(hosts[j].clone());
            }
            j = j + 1;
        }
        proof {
            assert(rs.take(rs.len() as int) == rs);
            let next = hosts_by_priority(rs, p + 1);
            assert(next == hosts_by_priority(rs, p as int) + hosts_with_priority(rs, p as int));
            assert forall|k: int| 0 <= k < out@.len() implies #[trigger] out@[k]@ == next[k] by {
                if k >= before.len() {
                    assert(out@[before.len() + (k - before.len())]@ == hosts_with_priority(rs, p as int)[k - before.len()]);
                }
            }
        }
        p = p + 1;
    }
    out
}

// ---------------------------------------------------------------------------
// STARTTLS
// ---------------------------------------------------------------------------

/// The upper-case text of `s` (`str::to_uppercase`, full Unicode case
/// mapping).
pub uninterp spec fn uppercase(s: Seq<char>) -> Seq<char>;

/// Upper-cases a string.
///
/// Trusted: calls `str::to_uppercase`. Its result is named, not described.
#[verifier::external_body]
fn to_uppercase(s: &str) -> (r: String)
    ensures
        r@ == uppercase(s@),
{
    s.to_uppercase()
}

/// The server offers STARTTLS: its EHLO reply, upper-cased, mentions it.
pub open spec fn offers_starttls(ehlo_reply: Seq<char>) -> bool {
    contains_seq(uppercase(ehlo_reply), "STARTTLS"@)
}

/// Whether an EHLO reply offers STARTTLS.
pub fn supports_starttls(ehlo_reply: &str) -> (b: bool)
    ensures
        b == offers_starttls(ehlo_reply@),
{
    let upper = to_uppercase(ehlo_reply);
    str_contains(upper.as_str(), "STARTTLS")
}

// ---------------------------------------------------------------------------
// The provider
// ---------------------------------------------------------------------------

/// Direct MX delivery provider: Ferrum's own outbound relay.
///
/// For each recipient domain, resolves MX records via DNS, connects to the
/// highest-priority mail server, upgrades to TLS if available, and
/// delivers.
pub struct DirectMxProvider {
    ehlo_domain: String,
    tls_config: Arc<rustls::ClientConfig>,
}

impl DirectMxProvider {
    /// Create a new direct MX provider; `ehlo_domain` should be the FQDN of
    /// the sending mail server.
    pub fn new(ehlo_domain: &str) -> (p: DirectMxProvider)
        ensures
            p.spec_ehlo_domain() == ehlo_domain@,
    {
        DirectMxProvider { ehlo_domain: string_of(ehlo_domain), tls_config: web_pki_tls_config() }
    }

    /// The EHLO host name.
    pub closed spec fn spec_ehlo_domain(&self) -> Seq<char> {
        self.ehlo_domain@
    }

    /// The EHLO host name.
    pub fn ehlo_domain(&self) -> (d: &str)
        ensures
            d@ == self.spec_ehlo_domain(),
    {
        self.ehlo_domain.as_str()
    }

    /// The TLS client configuration.
    pub fn tls_config(&self) -> Arc<rustls::ClientConfig> {
        self.tls_config.clone()
    }
}

} // verus!
