//! The relay service's decisions: how a request's recipients are grouped
//! by domain, which DNS answer line is an address, and what the request is
//! answered.
//!
//! Receiving requests, resolving names and delivering over SMTP is the
//! caller's part.

use vstd::prelude::*;
use crate::text::{chars_of, push_chars, string_of, join};
use crate::render::text_extractor::{split_lines, split_into_lines};
use crate::send::direct::{domain_of, recipient_domain};

verus! {

broadcast use vstd::string::group_string_axioms;

/// The lower-case text of `s` (`str::to_lowercase`, full Unicode case
/// mapping).
pub uninterp spec fn lowercase(s: Seq<char>) -> Seq<char>;

/// Lower-cases a string.
///
/// Trusted: calls `str::to_lowercase`. Its result is named, not described.
#[verifier::external_body]
fn to_lowercase(s: &str) -> (r: String)
    ensures
        r@ == lowercase(s@),
{
    s.to_lowercase()
}

/// The recipients of one domain.
#[derive(Debug)]
pub struct DomainGroup {
    pub domain: String,
    pub recipients: Vec<String>,
}

/// The value of a group: its domain and its recipients.
pub open spec fn group_view(g: DomainGroup) -> (Seq<char>, Seq<Seq<char>>) {
    (g.domain@, Seq::new(g.recipients@.len(), |i: int| g.recipients@[i]@))
}

/// The domain a recipient is grouped under: its domain, lower-cased.
pub open spec fn group_key(r: Seq<char>) -> Seq<char> {
    lowercase(domain_of(r))
}

/// The position of the group of `key`, or -1.
pub open spec fn group_index(gs: Seq<(Seq<char>, Seq<Seq<char>>)>, key: Seq<char>) -> int
    decreases gs.len(),
{
    if gs.len() == 0 {
        -1
    } else if gs.last().0 == key && group_index(gs.drop_last(), key) == -1 {
        gs.len() - 1
    } else {
        group_index(gs.drop_last(), key)
    }
}

/// The recipients grouped by domain: groups in the order their domains
/// first appear, recipients of a group in their order.
pub open spec fn grouping(rs: Seq<Seq<char>>) -> Seq<(Seq<char>, Seq<Seq<char>>)>
    decreases rs.len(),
{
    if rs.len() == 0 {
        seq![]
    } else {
        let gs = grouping(rs.drop_last());
        let r = rs.last();
        let key = group_key(r);
        let i = group_index(gs, key);
        if i >= 0 {
            gs.update(i, (key, gs[i].1.push(r)))
        } else {
            gs.push((key, seq![r]))
        }
    }
}

pub(crate) proof fn lemma_group_index_bounds(gs: Seq<(Seq<char>, Seq<Seq<char>>)>, key: Seq<char>)
    ensures
        -1 <= group_index(gs, key) < gs.len(),
        group_index(gs, key) >= 0 ==> gs[group_index(gs, key)].0 == key,
        group_index(gs, key) == -1 ==> forall|j: int| 0 <= j < gs.len() ==> gs[j].0 != key,
    decreases gs.len(),
{
    if gs.len() > 0 {
        lemma_group_index_bounds(gs.drop_last(), key);
        assert forall|j: int| 0 <= j < gs.len() - 1 implies gs[j] == gs.drop_last()[j] by {}
    }
}

proof fn lemma_group_index_found(gs: Seq<(Seq<char>, Seq<Seq<char>>)>, key: Seq<char>, k: int)
    requires
        0 <= k < gs.len(),
        gs[k].0 == key,
        forall|j: int| 0 <= j < k ==> gs[j].0 != key,
    ensures
        group_index(gs, key) == k,
    decreases gs.len(),
{
    if k < gs.len() - 1 {
        lemma_group_index_found(gs.drop_last(), key, k);
    } else {
        lemma_group_index_bounds(gs.drop_last(), key);
        if group_index(gs.drop_last(), key) != -1 {
            let m = group_index(gs.drop_last(), key);
            assert(gs[m].0 == key);
        }
    }
}

proof fn lemma_group_index_absent(gs: Seq<(Seq<char>, Seq<Seq<char>>)>, key: Seq<char>)
    requires
        forall|j: int| 0 <= j < gs.len() ==> gs[j].0 != key,
    ensures
        group_index(gs, key) == -1,
    decreases gs.len(),
{
    if gs.len() > 0 {
        lemma_group_index_absent(gs.drop_last(), key);
    }
}

/// Group recipient addresses by their lower-cased domain.
pub fn group_by_domain(to: &Vec<String>) -> (r: Vec<DomainGroup>)
    ensures
        Seq::new(r@.len(), |i: int| group_view(r@[i])) == grouping(Seq::new(to@.len(), |i: int| to@[i]@)),
{
    let ghost rs = Seq::new(to@.len(), |i: int| to@[i]@);
    let mut groups: Vec<DomainGroup> = Vec::new();
    let mut i: usize = 0;
    while i < to.len()
        invariant
            i <= to@.len(),
            rs == Seq::new(to@.len(), |k: int| to@[k]@),
            Seq::new(groups@.len(), |k: int| group_view(groups@[k])) == grouping(rs.take(i as int)),
        decreases to@.len() - i,
    {
        let ghost before = Seq::new(groups@.len(), |k: int| group_view(groups@[k]));
        let domain = recipient_domain(to[i].as_str());
        let key = to_lowercase(domain.as_str());
        let mut j: usize = 0;
        while j < groups.len() && !crate::text::str_eq(groups[j].domain.as_str(), key.as_str())
            invariant
                j <= groups@.len(),
                before == Seq::new(groups@.len(), |k: int| group_view(groups@[k])),
                forall|k: int| 0 <= k < j ==> before[k].0 != key@,
            decreases groups@.len() - j,
        {
            j = j + 1;
        }
        proof {
            assert(rs.take(i + 1).drop_last() == rs.take(i as int));
            assert(rs.take(i + 1).last() == to@[i as int]@);
            assert(key@ == group_key(to@[i as int]@));
        }
        if j < groups.len() {
            proof {
                lemma_group_index_found(before, key@, j as int);
            }
            let r = to[i].clone();
            let ghost old_groups = groups@;
            let mut g = groups.remove(j);
            g.recipients.push(r);
            groups.insert(j, g);
            proof {
                let after = Seq::new(groups@.len(), |k: int| group_view(groups@[k]));
                assert(groups@ == old_groups.update(j as int, groups@[j as int]));
                assert(group_view(groups@[j as int]).1 =~= before[j as int].1.push(to@[i as int]@));
                assert(after =~= before.update(j as int, (key@, before[j as int].1.push(to@[i as int]@))));
            }
        } else {
            proof {
                lemma_group_index_absent(before, key@);
            }
            let mut rec: Vec<String> = Vec::new();
            rec.push(to[i].clone());
            groups.push(DomainGroup { domain: key, recipients: rec });
            proof {
                let after = Seq::new(groups@.len(), |k: int| group_view(groups@[k]));
                assert(group_view(groups@.last()).1 =~= seq![to@[i as int]@]);
                assert(after =~= before.push((key@, seq![to@[i as int]@])));
            }
        }
        i = i + 1;
    }
    proof {
        assert(rs.take(to@.len() as int) == rs);
    }
    groups
}

// ---------------------------------------------------------------------------
// Answers
// ---------------------------------------------------------------------------

/// A line of `dig +short A` output that is an address: made of ASCII
/// digits and dots only.
pub open spec fn is_address_line(l: Seq<char>) -> bool {
    forall|i: int| 0 <= i < l.len() ==> (('0' <= #[trigger] l[i] && l[i] <= '9') || l[i] == '.')
}

/// The first address line of a `dig +short A` output, if there is one.
pub open spec fn first_address(ls: Seq<Seq<char>>) -> Option<Seq<char>>
    decreases ls.len(),
{
    if ls.len() == 0 {
        None
    } else if is_address_line(ls[0]) {
        Some(ls[0])
    } else {
        first_address(ls.skip(1))
    }
}

fn address_line(l: &Vec<char>) -> (b: bool)
    ensures
        b == is_address_line(l@),
{
    let mut i: usize = 0;
    while i < l.len()
        invariant
            i <= l@.len(),
            forall|k: int| 0 <= k < i ==> (('0' <= #[trigger] l@[k] && l@[k] <= '9') || l@[k] == '.'),
        decreases l@.len() - i,
    {
        let c = l[i];
        if !(('0' <= c && c <= '9') || c == '.') {
            return false;
        }
        i = i + 1;
    }
    true
}

/// The IPv4 address a `dig +short A host` output gives: its first line of
/// digits and dots, or an error naming the host.
pub fn ipv4_from_dig(host: &str, output: &str) -> (r: Result<String, String>)
    ensures
        match first_address(split_lines(output@)) {
            Some(a) => r matches Ok(x) && x@ == a,
            None => r matches Err(e) && e@ == "no A record for "@ + host@,
        },
{
    let v = chars_of(output);
    let lines = split_into_lines(&v);
    let ghost ls = split_lines(v@);
    let mut i: usize = 0;
    proof {
        assert(ls.skip(0) == ls);
    }
    while i < lines.len()
        invariant
            i <= lines@.len(),
            ls == split_lines(v@),
            v@ == output@,
            lines@.len() == ls.len(),
            forall|k: int| 0 <= k < lines@.len() ==> #[trigger] lines@[k]@ == ls[k],
            first_address(ls) == first_address(ls.skip(i as int)),
        decreases lines@.len() - i,
    {
        proof {
            assert(ls.skip(i as int)[0] == ls[i as int]);
            assert(ls.skip(i as int).skip(1) == ls.skip(i + 1));
        }
        if address_line(&lines[i]) {
            let mut a = String::new();
            push_chars(&mut a, &lines[i], 0, lines[i].len());
            proof {
                assert(lines@[i as int]@.subrange(0, lines@[i as int]@.len() as int) == lines@[i as int]@);
            }
            return Ok(a);
        }
        i = i + 1;
    }
    proof {
        assert(ls.skip(i as int).len() == 0);
    }
    let mut e = String::from_str("no A record for ");
    e.append(host);
    Err(e)
}

/// The status of a relay request: `sent` when every recipient was
/// delivered, `partial` otherwise.
pub fn relay_status(all_delivered: bool) -> (s: &'static str)
    ensures
        s@ == if all_delivered { "sent"@ } else { "partial"@ },
{
    if all_delivered { "sent" } else { "partial" }
}

/// The failure note of a recipient: the address, a colon and the error.
pub fn failure_note(recipient: &str, error: &str) -> (s: String)
    ensures
        s@ == recipient@ + ": "@ + error@,
{
    let mut s = String::from_str(recipient);
    s.append(": ");
    s.append(error);
    s
}

/// Whether a relay request failed as a whole: nothing was delivered and
/// something failed. The error then lists the failures, joined by `; `.
pub fn relay_error(delivered: usize, failed: &Vec<String>) -> (r: Option<String>)
    ensures
        (delivered == 0 && failed@.len() > 0) <==> r is Some,
        r matches Some(e) ==> e@ == join(Seq::new(failed@.len(), |i: int| failed@[i]@), "; "@),
{
    if delivered == 0 && failed.len() > 0 {
        Some(join_strings(failed, "; "))
    } else {
        None
    }
}

fn join_strings(items: &Vec<String>, sep: &str) -> (s: String)
    ensures
        s@ == join(Seq::new(items@.len(), |i: int| items@[i]@), sep@),
{
    let ghost all = Seq::new(items@.len(), |i: int| items@[i]@);
    let mut s = String::new();
    let mut i: usize = 0;
    while i < items.len()
        invariant
            i <= items@.len(),
            all == Seq::new(items@.len(), |k: int| items@[k]@),
            s@ == join(all.take(i as int), sep@),
        decreases items@.len() - i,
    {
        proof {
            assert(all.take(i + 1).drop_last() == all.take(i as int));
            assert(all.take(i + 1).last() == items@[i as int]@);
            if i == 0 {
                assert(all.take(1) =~= seq![items@[0]@]);
            }
        }
        if i > 0 {
            s.append(sep);
        }
        s.append(items[i].as_str());
        i = i + 1;
    }
    proof {
        assert(all.take(items@.len() as int) == all);
    }
    s
}

} // verus!
