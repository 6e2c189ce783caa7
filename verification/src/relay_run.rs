//! The course of one relay request: for each domain group in turn, look up
//! its mail servers, then for each server its IPv4 address, and deliver to
//! the group's recipients through the first server that accepts them. The
//! request is then answered from what was delivered and what failed.
//!
//! The caller runs the lookups and the dialogues (`mx_session`, relay
//! flavour) and reports each outcome back to `RelayRun`.

use vstd::prelude::*;
use crate::text::{string_of, join};
use crate::relay::{
    DomainGroup, group_view, grouping, group_key, group_index, lemma_group_index_bounds, group_by_domain, ipv4_from_dig,
    first_address, relay_error, relay_status,
};
use crate::render::text_extractor::split_lines;
use crate::send::direct::{valid_mx_domain, is_valid_mx_domain, mx_hosts, parse_mx_hosts};
use crate::send::mx_delivery::Lookup;
use crate::send::mx_session::texts_of;

verus! {

broadcast use {vstd::string::group_string_axioms, vstd::std_specs::vec::group_vec_axioms};

/// What the run waits for.
#[derive(Debug, Clone, Copy, PartialEq, Eq, Structural)]
pub enum RelayStage {
    /// The MX lookup of the current group's domain.
    Resolving,
    /// The address lookup of the current mail server.
    Locating,
    /// The outcome of delivering through the current mail server.
    Delivering,
    /// Nothing: the request is answered.
    Over,
}

/// The answer to a request that delivered something (or failed nothing).
#[derive(Debug)]
pub struct RelayReply {
    pub message_id: String,
    pub status: String,
    pub delivered: usize,
    pub failed: Vec<String>,
}

/// What the caller does next.
#[derive(Debug)]
pub enum RelayAction {
    /// Run `dig @8.8.8.8 +short +time=5 +tries=2 MX` for this domain.
    LookupMx(String),
    /// Run `dig @8.8.8.8 +short +time=5 +tries=2 A` for this host.
    LookupA(String),
    /// Connect to `ip` port 25 and deliver to `recipients` (the relay
    /// dialogue, with `host` as the TLS server name).
    Deliver { ip: String, host: String, recipients: Vec<String> },
    /// Answer the request: the reply, or the error text (a bad gateway).
    Finish(Result<RelayReply, String>),
}

/// The value of an action.
pub enum RelayView {
    LookupMx(Seq<char>),
    LookupA(Seq<char>),
    Deliver(Seq<char>, Seq<char>, Seq<Seq<char>>),
    Reply(Seq<char>, Seq<char>, nat, Seq<Seq<char>>),
    Fail(Seq<char>),
}

impl View for RelayAction {
    type V = RelayView;

    open spec fn view(&self) -> RelayView {
        match self {
            RelayAction::LookupMx(d) => RelayView::LookupMx(d@),
            RelayAction::LookupA(h) => RelayView::LookupA(h@),
            RelayAction::Deliver { ip, host, recipients } => RelayView::Deliver(ip@, host@, texts_of(recipients@)),
            RelayAction::Finish(Ok(r)) => RelayView::Reply(
                r.message_id@,
                r.status@,
                r.delivered as nat,
                texts_of(r.failed@),
            ),
            RelayAction::Finish(Err(e)) => RelayView::Fail(e@),
        }
    }
}

/// The failure notes of a group's recipients: each address, a colon and
/// the error.
pub open spec fn notes(rcpts: Seq<Seq<char>>, err: Seq<char>) -> Seq<Seq<char>> {
    Seq::new(rcpts.len(), |i: int| rcpts[i] + ": "@ + err)
}

/// The answer after every group was tried: a bad gateway listing the
/// failures when nothing was delivered and something failed; otherwise
/// the last message ID, `sent` or `partial`, the number delivered and the
/// failures.
pub open spec fn answer(delivered: nat, failed: Seq<Seq<char>>, last_mid: Seq<char>) -> RelayView {
    if delivered == 0 && failed.len() > 0 {
        RelayView::Fail(join(failed, "; "@))
    } else {
        RelayView::Reply(
            last_mid,
            if failed.len() == 0 { "sent"@ } else { "partial"@ },
            delivered,
            failed,
        )
    }
}

/// Where the run stands after it moves on to group `g`: groups whose domain
/// may not be looked up fail at once; the first one that may be is looked
/// up; after the last group the request is answered. The result is the
/// group reached, the failure notes by then, the stage and the action.
pub open spec fn advance(
    gs: Seq<(Seq<char>, Seq<Seq<char>>)>,
    g: int,
    delivered: nat,
    failed: Seq<Seq<char>>,
    last_mid: Seq<char>,
) -> (int, Seq<Seq<char>>, RelayStage, RelayView)
    decreases gs.len() - g,
{
    if g >= gs.len() || g < 0 {
        (g, failed, RelayStage::Over, answer(delivered, failed, last_mid))
    } else if valid_mx_domain(gs[g].0) {
        (g, failed, RelayStage::Resolving, RelayView::LookupMx(gs[g].0))
    } else {
        advance(gs, g + 1, delivered, failed + notes(gs[g].1, "invalid domain: "@ + gs[g].0), last_mid)
    }
}

/// Gives up on group `g` with error `err`: a note for each of its
/// recipients, then on to the next group.
pub open spec fn give_up(
    gs: Seq<(Seq<char>, Seq<Seq<char>>)>,
    g: int,
    delivered: nat,
    failed: Seq<Seq<char>>,
    last_mid: Seq<char>,
    err: Seq<char>,
) -> (int, Seq<Seq<char>>, RelayStage, RelayView) {
    advance(gs, g + 1, delivered, failed + notes(gs[g].1, err), last_mid)
}

/// Tries mail server `h` of group `g` (its address is looked up first),
/// or gives up on the group with the last server's error when none is left.
pub open spec fn next_host(
    gs: Seq<(Seq<char>, Seq<Seq<char>>)>,
    g: int,
    hosts: Seq<Seq<char>>,
    h: int,
    last_err: Seq<char>,
    delivered: nat,
    failed: Seq<Seq<char>>,
    last_mid: Seq<char>,
) -> (int, Seq<Seq<char>>, RelayStage, RelayView) {
    if h < hosts.len() {
        (g, failed, RelayStage::Locating, RelayView::LookupA(hosts[h]))
    } else {
        give_up(gs, g, delivered, failed, last_mid, "all MX hosts failed: "@ + last_err)
    }
}

/// The number of recipients in the groups before group `g`.
pub open spec fn count_before(gs: Seq<(Seq<char>, Seq<Seq<char>>)>, g: int) -> nat
    decreases g,
{
    if g <= 0 {
        0
    } else {
        count_before(gs, g - 1) + gs[g - 1].1.len()
    }
}

proof fn lemma_count_push(gs: Seq<(Seq<char>, Seq<Seq<char>>)>, x: (Seq<char>, Seq<Seq<char>>), k: int)
    requires
        0 <= k <= gs.len(),
    ensures
        count_before(gs.push(x), k) == count_before(gs, k),
    decreases k,
{
    if k > 0 {
        lemma_count_push(gs, x, k - 1);
    }
}

proof fn lemma_count_update(gs: Seq<(Seq<char>, Seq<Seq<char>>)>, i: int, x: (Seq<char>, Seq<Seq<char>>), k: int)
    requires
        0 <= i < gs.len(),
        0 <= k <= gs.len(),
    ensures
        count_before(gs.update(i, x), k) + (if k > i { gs[i].1.len() } else { 0 }) == count_before(gs, k) + (if k > i {
            x.1.len()
        } else {
            0
        }),
    decreases k,
{
    if k > 0 {
        lemma_count_update(gs, i, x, k - 1);
    }
}

/// Grouping by domain keeps every recipient: the groups hold as many
/// recipients as were given.
pub proof fn lemma_grouping_keeps_everyone(rs: Seq<Seq<char>>)
    ensures
        count_before(grouping(rs), grouping(rs).len() as int) == rs.len(),
    decreases rs.len(),
{
    if rs.len() > 0 {
        let gs = grouping(rs.drop_last());
        lemma_grouping_keeps_everyone(rs.drop_last());
        let r = rs.last();
        let key = group_key(r);
        let i = group_index(gs, key);
        lemma_group_index_bounds(gs, key);
        if i >= 0 {
            lemma_count_update(gs, i, (key, gs[i].1.push(r)), gs.len() as int);
        } else {
            lemma_count_push(gs, (key, seq![r]), gs.len() as int);
        }
    }
}

/// A relay request under way.
pub struct RelayRun {
    groups: Vec<DomainGroup>,
    g: usize,
    hosts: Vec<String>,
    h: usize,
    delivered: Vec<String>,
    failed: Vec<String>,
    last_mid: String,
    last_err: String,
    stage: RelayStage,
}

/// The run has reached group `t.0` with failure notes `t.1`, in stage
/// `t.2`, and `a` is the action `t.3`.
pub open spec fn reaches(r: RelayRun, a: RelayView, t: (int, Seq<Seq<char>>, RelayStage, RelayView)) -> bool {
    &&& r.group() == t.0
    &&& r.failed() == t.1
    &&& r.stage() == t.2
    &&& a == t.3
}

impl RelayRun {
    /// The groups, in order.
    pub closed spec fn groups(&self) -> Seq<(Seq<char>, Seq<Seq<char>>)> {
        Seq::new(self.groups@.len(), |i: int| group_view(self.groups@[i]))
    }

    /// The position of the current group.
    pub closed spec fn group(&self) -> int {
        self.g as int
    }

    /// The mail servers of the current group.
    pub closed spec fn hosts(&self) -> Seq<Seq<char>> {
        texts_of(self.hosts@)
    }

    /// The position of the current mail server.
    pub closed spec fn host(&self) -> int {
        self.h as int
    }

    /// The recipients delivered to so far.
    pub closed spec fn delivered(&self) -> Seq<Seq<char>> {
        texts_of(self.delivered@)
    }

    /// The failure notes so far.
    pub closed spec fn failed(&self) -> Seq<Seq<char>> {
        texts_of(self.failed@)
    }

    /// The message ID of the last delivery.
    pub closed spec fn last_mid(&self) -> Seq<char> {
        self.last_mid@
    }

    /// The error of the last mail server that failed for the current group.
    pub closed spec fn last_err(&self) -> Seq<char> {
        self.last_err@
    }

    /// What the run waits for.
    pub closed spec fn stage(&self) -> RelayStage {
        self.stage
    }

    /// The positions are within the lists, the run is over exactly after
    /// the last group, and every recipient of the groups before the current
    /// one was delivered to or has a failure note.
    pub closed spec fn wf(&self) -> bool {
        &&& self.g <= self.groups.len()
        &&& (self.stage == RelayStage::Over <==> self.g == self.groups.len())
        &&& (self.stage == RelayStage::Locating || self.stage == RelayStage::Delivering) ==> self.h < self.hosts.len()
        &&& self.counted()
    }

    /// Every recipient of the groups before the current one was delivered
    /// to or has a failure note.
    closed spec fn counted(&self) -> bool {
        self.delivered@.len() + self.failed@.len() == count_before(self.groups(), self.g as int)
    }

    /// What the run waits for.
    pub fn waiting_for(&self) -> (s: RelayStage)
        ensures
            s == self.stage(),
    {
        self.stage
    }

    fn answer_now(&self) -> (a: RelayAction)
        ensures
            a@ == answer(self.delivered().len(), self.failed(), self.last_mid()),
    {
        let n = self.delivered.len();
        proof {
            assert(Seq::new(self.failed@.len(), |i: int| self.failed@[i]@) =~= self.failed());
        }
        match relay_error(n, &self.failed) {
            Some(e) => RelayAction::Finish(Err(e)),
            None => {
                let failed = clone_texts(&self.failed);
                let status = relay_status(self.failed.len() == 0);
                RelayAction::Finish(
                    Ok(RelayReply { message_id: self.last_mid.clone(), status: string_of(status), delivered: n, failed }),
                )
            },
        }
    }

    /// Moves on from the current group position: groups whose domain may
    /// not be looked up fail at once (see `advance`).
    fn advance_from(&mut self) -> (a: RelayAction)
        requires
            old(self).g <= old(self).groups.len(),
            old(self).counted(),
        ensures
            final(self).wf(),
            final(self).groups == old(self).groups,
            final(self).delivered == old(self).delivered,
            final(self).last_mid == old(self).last_mid,
            final(self).hosts == old(self).hosts,
            final(self).h == old(self).h,
            final(self).last_err == old(self).last_err,
            reaches(*final(self), a@, advance(
                old(self).groups(),
                old(self).group(),
                old(self).delivered().len(),
                old(self).failed(),
                old(self).last_mid(),
            )),
    {
        let ghost target = advance(
            self.groups(),
            self.group(),
            self.delivered().len(),
            self.failed(),
            self.last_mid(),
        );
        loop
            invariant
                self.g <= self.groups.len(),
                self.groups == old(self).groups,
                self.delivered == old(self).delivered,
                self.last_mid == old(self).last_mid,
                self.hosts == old(self).hosts,
                self.h == old(self).h,
                self.last_err == old(self).last_err,
                self.stage == old(self).stage,
                self.counted(),
                target == advance(self.groups(), self.group(), self.delivered().len(), self.failed(), self.last_mid()),
            ensures
                self.g < self.groups.len() ==> valid_mx_domain(self.groups()[self.g as int].0),
            decreases self.groups.len() - self.g,
        {
            if self.g >= self.groups.len() {
                break;
            }
            let g = self.g;
            proof {
                assert(self.groups()[g as int] == group_view(self.groups@[g as int]));
            }
            if is_valid_mx_domain(self.groups[g].domain.as_str()) {
                break;
            }
            let mut e = string_of("invalid domain: ");
            e.append(self.groups[g].domain.as_str());
            let ghost before = self.failed@.len();
            push_notes(&mut self.failed, &self.groups[g].recipients, e.as_str());
            self.g = g + 1;
            proof {
                assert(texts_of(self.failed@).len() == self.failed@.len());
                assert(self.failed@.len() == before + self.groups@[g as int].recipients@.len());
                assert(self.groups()[g as int].1.len() == self.groups@[g as int].recipients@.len());
                assert(count_before(self.groups(), g + 1) == count_before(self.groups(), g as int) + self.groups()[g as int].1.len());
            }
        }
        if self.g >= self.groups.len() {
            self.stage = RelayStage::Over;
            self.answer_now()
        } else {
            proof {
                assert(self.groups()[self.g as int] == group_view(self.groups@[self.g as int]));
            }
            self.stage = RelayStage::Resolving;
            RelayAction::LookupMx(self.groups[self.g].domain.clone())
        }
    }
}

impl RelayRun {
    fn give_up_now(&mut self, err: &str) -> (a: RelayAction)
        requires
            old(self).g < old(self).groups.len(),
            old(self).counted(),
        ensures
            final(self).wf(),
            final(self).groups == old(self).groups,
            final(self).delivered == old(self).delivered,
            final(self).last_mid == old(self).last_mid,
            final(self).hosts == old(self).hosts,
            final(self).h == old(self).h,
            final(self).last_err == old(self).last_err,
            reaches(*final(self), a@, give_up(
                old(self).groups(),
                old(self).group(),
                old(self).delivered().len(),
                old(self).failed(),
                old(self).last_mid(),
                err@,
            )),
    {
        let g = self.g;
        proof {
            assert(self.groups()[g as int] == group_view(self.groups@[g as int]));
        }
        let ghost before = self.failed@.len();
        push_notes(&mut self.failed, &self.groups[g].recipients, err);
        self.g = g + 1;
        proof {
            assert(texts_of(self.failed@).len() == self.failed@.len());
            assert(self.failed@.len() == before + self.groups@[g as int].recipients@.len());
            assert(self.groups()[g as int].1.len() == self.groups@[g as int].recipients@.len());
            assert(count_before(self.groups(), g + 1) == count_before(self.groups(), g as int) + self.groups()[g as int].1.len());
        }
        self.advance_from()
    }

    fn try_host(&mut self) -> (a: RelayAction)
        requires
            old(self).g < old(self).groups.len(),
            old(self).counted(),
        ensures
            final(self).wf(),
            final(self).groups == old(self).groups,
            final(self).delivered == old(self).delivered,
            final(self).last_mid == old(self).last_mid,
            final(self).stage() == RelayStage::Locating ==> final(self).hosts == old(self).hosts && final(self).h
                == old(self).h && final(self).last_err == old(self).last_err,
            reaches(*final(self), a@, next_host(
                old(self).groups(),
                old(self).group(),
                old(self).hosts(),
                old(self).host(),
                old(self).last_err(),
                old(self).delivered().len(),
                old(self).failed(),
                old(self).last_mid(),
            )),
    {
        if self.h < self.hosts.len() {
            self.stage = RelayStage::Locating;
            proof {
                assert(self.hosts()[self.h as int] == self.hosts@[self.h as int]@);
            }
            RelayAction::LookupA(self.hosts[self.h].clone())
        } else {
            let mut e = string_of("all MX hosts failed: ");
            e.append(self.last_err.as_str());
            self.give_up_now(e.as_str())
        }
    }

    fn host_failed(&mut self, err: String) -> (a: RelayAction)
        requires
            old(self).g < old(self).groups.len(),
            old(self).counted(),
            old(self).h < old(self).hosts.len(),
        ensures
            final(self).wf(),
            final(self).groups() == old(self).groups(),
            final(self).delivered() == old(self).delivered(),
            final(self).last_mid() == old(self).last_mid(),
            reaches(*final(self), a@, next_host(
                old(self).groups(),
                old(self).group(),
                old(self).hosts(),
                old(self).host() + 1,
                err@,
                old(self).delivered().len(),
                old(self).failed(),
                old(self).last_mid(),
            )),
            final(self).stage() == RelayStage::Locating ==> final(self).hosts() == old(self).hosts()
                && final(self).host() == old(self).host() + 1 && final(self).last_err() == err@,
    {
        self.last_err = err;
        self.h = self.h + 1;
        self.try_host()
    }

    /// Start answering a request to deliver to `to`: the recipients are
    /// grouped by lower-cased domain (see `group_by_domain`) and the first
    /// group's domain is looked up.
    pub fn start(to: &Vec<String>) -> (r: (RelayRun, RelayAction))
        ensures
            r.0.wf(),
            r.0.groups() == grouping(texts_of(to@)),
            r.0.delivered().len() == 0,
            r.0.last_mid().len() == 0,
            reaches(r.0, r.1@, advance(grouping(texts_of(to@)), 0, 0, seq![], seq![])),
    {
        let groups = group_by_domain(to);
        proof {
            assert(Seq::new(to@.len(), |i: int| to@[i]@) =~= texts_of(to@));
        }
        let mut run = RelayRun {
            groups,
            g: 0,
            hosts: Vec::new(),
            h: 0,
            delivered: Vec::new(),
            failed: Vec::new(),
            last_mid: String::new(),
            last_err: String::new(),
            stage: RelayStage::Over,
        };
        proof {
            assert(run.failed() =~= Seq::<Seq<char>>::empty());
            assert(run.delivered() =~= Seq::<Seq<char>>::empty());
        }
        let a = run.advance_from();
        (run, a)
    }

    /// Take the outcome of the MX lookup for the current group's domain.
    ///
    /// When the lookup could not run or failed, the group fails; otherwise
    /// its mail servers are tried in order, the first one's address looked
    /// up.
    pub fn on_mx(&mut self, lookup: Lookup) -> (a: RelayAction)
        requires
            old(self).wf(),
            old(self).stage() == RelayStage::Resolving,
        ensures
            final(self).wf(),
            final(self).groups() == old(self).groups(),
            final(self).delivered() == old(self).delivered(),
            final(self).last_mid() == old(self).last_mid(),
            ({
                let gs = old(self).groups();
                let g = old(self).group();
                let d = gs[g].0;
                let n = old(self).delivered().len();
                let f = old(self).failed();
                let m = old(self).last_mid();
                match lookup {
                    Lookup::NotRun(e) => reaches(*final(self), a@, give_up(gs, g, n, f, m, "dig: "@ + e@)),
                    Lookup::Ran { success, output } => if !success {
                        reaches(*final(self), a@, give_up(gs, g, n, f, m, "dig failed for "@ + d))
                    } else {
                        reaches(*final(self), a@, next_host(gs, g, mx_hosts(d, output@), 0, seq![], n, f, m))
                            && (final(self).stage() == RelayStage::Locating ==> final(self).hosts() == mx_hosts(d, output@)
                            && final(self).host() == 0)
                    },
                }
            }),
    {
        let g = self.g;
        proof {
            assert(self.groups()[g as int] == group_view(self.groups@[g as int]));
        }
        match lookup {
            Lookup::NotRun(e) => {
                let mut m = string_of("dig: ");
                m.append(e.as_str());
                self.give_up_now(m.as_str())
            },
            Lookup::Ran { success, output } => {
                if !success {
                    let mut m = string_of("dig failed for ");
                    m.append(self.groups[g].domain.as_str());
                    self.give_up_now(m.as_str())
                } else {
                    let hosts = parse_mx_hosts(self.groups[g].domain.as_str(), output.as_str());
                    proof {
                        assert(texts_of(hosts@) =~= mx_hosts(self.groups()[g as int].0, output@));
                        reveal_strlit("");
                    }
                    self.hosts = hosts;
                    self.h = 0;
                    self.last_err = String::new();
                    proof {
                        assert(self.last_err() =~= Seq::<char>::empty());
                    }
                    self.try_host()
                }
            },
        }
    }

    /// Take the outcome of the address lookup for the current mail server:
    /// deliver through its first address line, or, when the lookup could
    /// not run or named none, move on to the next server.
    pub fn on_address(&mut self, lookup: Lookup) -> (a: RelayAction)
        requires
            old(self).wf(),
            old(self).stage() == RelayStage::Locating,
        ensures
            final(self).wf(),
            final(self).groups() == old(self).groups(),
            final(self).delivered() == old(self).delivered(),
            final(self).last_mid() == old(self).last_mid(),
            ({
                let gs = old(self).groups();
                let g = old(self).group();
                let hs = old(self).hosts();
                let k = old(self).host();
                let host = hs[k];
                let n = old(self).delivered().len();
                let f = old(self).failed();
                let m = old(self).last_mid();
                match lookup {
                    Lookup::NotRun(e) => reaches(*final(self), a@, next_host(gs, g, hs, k + 1, "dig A "@ + host + ": "@ + e@, n, f, m)),
                    Lookup::Ran { output, .. } => match first_address(split_lines(output@)) {
                        Some(ip) => final(self).stage() == RelayStage::Delivering && final(self).group() == g
                            && final(self).hosts() == hs && final(self).host() == k && final(self).failed() == f
                            && a@ == RelayView::Deliver(ip, host, gs[g].1),
                        None => reaches(*final(self), a@, next_host(gs, g, hs, k + 1, "no A record for "@ + host, n, f, m)),
                    },
                }
            }),
    {
        let host = self.hosts[self.h].clone();
        proof {
            assert(self.hosts()[self.h as int] == host@);
        }
        match lookup {
            Lookup::NotRun(e) => {
                let mut m = string_of("dig A ");
                m.append(host.as_str());
                m.append(": ");
                m.append(e.as_str());
                self.host_failed(m)
            },
            Lookup::Ran { output, .. } => {
                match ipv4_from_dig(host.as_str(), output.as_str()) {
                    Ok(ip) => {
                        self.stage = RelayStage::Delivering;
                        let g = self.g;
                        proof {
                            assert(self.groups()[g as int] == group_view(self.groups@[g as int]));
                        }
                        let recipients = clone_texts(&self.groups[g].recipients);
                        RelayAction::Deliver { ip, host, recipients }
                    },
                    Err(e) => self.host_failed(e),
                }
            },
        }
    }

    /// Take the outcome of delivering through the current mail server: on
    /// success the group's recipients count as delivered and the next
    /// group is taken up; on failure the next server is tried.
    pub fn on_delivery(&mut self, outcome: Result<String, String>) -> (a: RelayAction)
        requires
            old(self).wf(),
            old(self).stage() == RelayStage::Delivering,
        ensures
            final(self).wf(),
            final(self).groups() == old(self).groups(),
            ({
                let gs = old(self).groups();
                let g = old(self).group();
                let n = old(self).delivered().len();
                let f = old(self).failed();
                let m = old(self).last_mid();
                match outcome {
                    Ok(mid) => final(self).delivered() == old(self).delivered() + gs[g].1 && final(self).last_mid() == mid@
                        && reaches(*final(self), a@, advance(gs, g + 1, n + gs[g].1.len(), f, mid@)),
                    Err(e) => final(self).delivered() == old(self).delivered() && final(self).last_mid() == m
                        && reaches(*final(self), a@, next_host(gs, g, old(self).hosts(), old(self).host() + 1, e@, n, f, m)),
                }
            }),
    {
        match outcome {
            Ok(mid) => {
                let g = self.g;
                proof {
                    assert(self.groups()[g as int] == group_view(self.groups@[g as int]));
                }
                let ghost before = self.delivered@.len();
                append_texts(&mut self.delivered, &self.groups[g].recipients);
                self.last_mid = mid;
                self.g = g + 1;
                proof {
                    assert(texts_of(self.delivered@).len() == self.delivered@.len());
                    assert(self.delivered@.len() == before + self.groups@[g as int].recipients@.len());
                    assert(self.groups()[g as int].1.len() == self.groups@[g as int].recipients@.len());
                    assert(count_before(self.groups(), g + 1) == count_before(self.groups(), g as int) + self.groups()[g as int].1.len());
                }
                self.advance_from()
            },
            Err(e) => self.host_failed(e),
        }
    }
}

/// Appends copies of the strings of `more`.
fn append_texts(out: &mut Vec<String>, more: &Vec<String>)
    ensures
        texts_of(final(out)@) == texts_of(old(out)@) + texts_of(more@),
{
    let ghost start = texts_of(out@);
    let mut i: usize = 0;
    while i < more.len()
        invariant
            i <= more@.len(),
            texts_of(out@) == start + texts_of(more@).take(i as int),
        decreases more@.len() - i,
    {
        let ghost prev = out@;
        let x = more[i].clone();
        out.push(x);
        proof {
            assert(texts_of(out@) =~= texts_of(prev).push(more@[i as int]@));
            assert(texts_of(more@).take(i + 1) =~= texts_of(more@).take(i as int).push(more@[i as int]@));
        }
        i = i + 1;
    }
    proof {
        assert(texts_of(more@).take(more@.len() as int) =~= texts_of(more@));
    }
}

/// Once a relay request is answered, every recipient it named was either
/// delivered to or has a failure note: the two counts add up to the number
/// of recipients.
pub proof fn lemma_every_recipient_accounted(run: RelayRun, to: Seq<Seq<char>>)
    requires
        run.wf(),
        run.stage() == RelayStage::Over,
        run.groups() == grouping(to),
    ensures
        run.delivered().len() + run.failed().len() == to.len(),
{
    lemma_grouping_keeps_everyone(to);
    assert(run.groups().len() == run.groups@.len());
}

/// Appends a failure note for each recipient.
fn push_notes(out: &mut Vec<String>, rcpts: &Vec<String>, err: &str)
    ensures
        texts_of(final(out)@) == texts_of(old(out)@) + notes(texts_of(rcpts@), err@),
{
    let ghost start = texts_of(out@);
    let mut i: usize = 0;
    while i < rcpts.len()
        invariant
            i <= rcpts@.len(),
            texts_of(out@) == start + notes(texts_of(rcpts@), err@).take(i as int),
        decreases rcpts@.len() - i,
    {
        let mut n = rcpts[i].clone();
        n.append(": ");
        n.append(err);
        let ghost prev = out@;
        out.push(n);
        proof {
            assert(texts_of(out@) =~= texts_of(prev).push(rcpts@[i as int]@ + ": "@ + err@));
            assert(notes(texts_of(rcpts@), err@).take(i + 1) =~= notes(texts_of(rcpts@), err@).take(i as int).push(
                rcpts@[i as int]@ + ": "@ + err@,
            ));
        }
        i = i + 1;
    }
    proof {
        assert(notes(texts_of(rcpts@), err@).take(rcpts@.len() as int) =~= notes(texts_of(rcpts@), err@));
    }
}

/// A copy of a list of strings.
fn clone_texts(v: &Vec<String>) -> (r: Vec<String>)
    ensures
        texts_of(r@) == texts_of(v@),
{
    let mut r: Vec<String> = Vec::new();
    let mut i: usize = 0;
    while i < v.len()
        invariant
            i <= v@.len(),
            texts_of(r@) == texts_of(v@).take(i as int),
        decreases v@.len() - i,
    {
        let ghost prev = r@;
        let x = v[i].clone();
        r.push(x);
        proof {
            assert(x@ == v@[i as int]@);
            assert(texts_of(r@) =~= texts_of(prev).push(v@[i as int]@));
            assert(texts_of(r@) =~= texts_of(v@).take(i + 1));
        }
        i = i + 1;
    }
    proof {
        assert(texts_of(v@).take(v@.len() as int) =~= texts_of(v@));
    }
    r
}

} // verus!
