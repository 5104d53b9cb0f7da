//! The per-connection flow aggregate. Folding packets into an aggregate keeps
//! the earliest and latest timestamp, accumulates the byte count, collects
//! each distinct descriptor once (in order of first appearance), and tracks
//! the most recently observed network protocol.

use vstd::prelude::*;
use vstd::string::StringExecFns;
use crate::link::spec_link_eq;
use crate::link::spec_linkinfo_text;
use crate::link::linkinfo_tostring;
use crate::link::LinkInfo;
use crate::link::LinkInfoView;
use crate::text::push_decimal;
use crate::text::spec_dec;

verus! {

/// What one folded packet contributes to an aggregate.
pub ghost struct PacketObs {
    pub ts: u64,
    pub bytes: u32,
    pub tlp: Seq<char>,
    pub nlp: Seq<char>,
    pub link: LinkInfoView,
    pub icmp: Seq<char>,
    pub dns: Seq<char>,
}

/// The mathematical shape of an aggregate.
pub ghost struct ReportView {
    pub first_ts: u64,
    pub last_ts: u64,
    pub total_bytes: u64,
    pub transport_layer_protocols: Seq<Seq<char>>,
    pub network_layer_protocols: Seq<char>,
    pub link_layer_info: Seq<LinkInfoView>,
    pub icmp_info: Seq<Seq<char>>,
    pub dns_info: Seq<Seq<char>>,
}

/// The views of a list of strings.
pub open spec fn text_views(s: Seq<String>) -> Seq<Seq<char>> {
    s.map_values(|t: String| t@)
}

/// The views of a list of link descriptors.
pub open spec fn link_views(s: Seq<LinkInfo>) -> Seq<LinkInfoView> {
    s.map_values(|l: LinkInfo| l@)
}

/// No text occurs twice.
pub open spec fn distinct_texts(s: Seq<Seq<char>>) -> bool {
    forall|i: int, j: int| 0 <= i < j < s.len() ==> s[i] != s[j]
}

/// No two held link descriptors describe the same link.
pub open spec fn distinct_links(s: Seq<LinkInfoView>) -> bool {
    forall|i: int, j: int| 0 <= i < j < s.len() ==> !spec_link_eq(s[i], s[j])
}

/// A link equivalent to `x` is already held.
pub open spec fn links_contain(s: Seq<LinkInfoView>, x: LinkInfoView) -> bool {
    exists|j: int| 0 <= j < s.len() && spec_link_eq(s[j], x)
}

/// Inserting a text keeps the list unchanged when the text is already there,
/// and appends it otherwise.
pub open spec fn spec_insert_text(s: Seq<Seq<char>>, x: Seq<char>) -> Seq<Seq<char>> {
    if s.contains(x) {
        s
    } else {
        s.push(x)
    }
}

/// Inserting a link descriptor keeps the list unchanged when an equivalent
/// one is already there, and appends it otherwise.
pub open spec fn spec_insert_link(s: Seq<LinkInfoView>, x: LinkInfoView) -> Seq<LinkInfoView> {
    if links_contain(s, x) {
        s
    } else {
        s.push(x)
    }
}

/// Bundles one packet's contribution as a single observation value.
pub open spec fn spec_obs(
    ts: u64,
    bytes: u32,
    tlp: Seq<char>,
    nlp: Seq<char>,
    link: LinkInfoView,
    icmp: Seq<char>,
    dns: Seq<char>,
) -> PacketObs {
    PacketObs { ts, bytes, tlp, nlp, link, icmp, dns }
}

/// The aggregate a first packet creates.
pub open spec fn spec_report_create(o: PacketObs) -> ReportView {
    ReportView {
        first_ts: o.ts,
        last_ts: o.ts,
        total_bytes: o.bytes as u64,
        transport_layer_protocols: seq![o.tlp],
        network_layer_protocols: o.nlp,
        link_layer_info: seq![o.link],
        icmp_info: seq![o.icmp],
        dns_info: seq![o.dns],
    }
}

/// Folding one more packet into an aggregate: timestamps widen, bytes
/// accumulate (saturating at the counter's limit), descriptor sets grow, and
/// the network protocol follows the latest observation.
pub open spec fn spec_report_fold(r: ReportView, o: PacketObs) -> ReportView {
    ReportView {
        first_ts: if o.ts < r.first_ts { o.ts } else { r.first_ts },
        last_ts: if o.ts > r.last_ts { o.ts } else { r.last_ts },
        total_bytes: if r.total_bytes + o.bytes <= u64::MAX {
            (r.total_bytes + o.bytes) as u64
        } else {
            u64::MAX
        },
        transport_layer_protocols: spec_insert_text(r.transport_layer_protocols, o.tlp),
        network_layer_protocols: o.nlp,
        link_layer_info: spec_insert_link(r.link_layer_info, o.link),
        icmp_info: spec_insert_text(r.icmp_info, o.icmp),
        dns_info: spec_insert_text(r.dns_info, o.dns),
    }
}

fn insert_text(list: &mut Vec<String>, x: String)
    ensures
        text_views(final(list)@) == spec_insert_text(text_views(old(list)@), x@),
{
    let n = list.len();
    let mut i: usize = 0;
    while i < n
        invariant
            n == list@.len(),
            i <= n,
            list@ == old(list)@,
            forall|j: int| 0 <= j < i as int ==> text_views(list@)[j] != x@,
        decreases n - i,
    {
        if list[i] == x {
            proof {
                assert(text_views(list@)[i as int] == x@);
                assert(text_views(list@).contains(x@));
            }
            return ;
        }
        i = i + 1;
    }
    proof {
        assert(!text_views(list@).contains(x@));
    }
    list.push(x);
    proof {
        assert(text_views(list@) =~= text_views(old(list)@).push(x@));
    }
}

fn insert_link(list: &mut Vec<LinkInfo>, x: LinkInfo)
    ensures
        link_views(final(list)@) == spec_insert_link(link_views(old(list)@), x@),
{
    let n = list.len();
    let mut i: usize = 0;
    while i < n
        invariant
            n == list@.len(),
            i <= n,
            list@ == old(list)@,
            forall|j: int| 0 <= j < i as int ==> !spec_link_eq(link_views(list@)[j], x@),
        decreases n - i,
    {
        if list[i] == x {
            proof {
                assert(spec_link_eq(link_views(list@)[i as int], x@));
                assert(links_contain(link_views(list@), x@));
            }
            return ;
        }
        i = i + 1;
    }
    proof {
        assert(!links_contain(link_views(list@), x@));
    }
    list.push(x);
    proof {
        assert(link_views(list@) =~= link_views(old(list)@).push(x@));
    }
}

/// The aggregate that a sequence of packets of one connection folds to: the
/// first packet creates it, each later packet is folded in.
pub open spec fn spec_fold_all(obs: Seq<PacketObs>) -> ReportView
    recommends
        obs.len() > 0,
    decreases obs.len(),
{
    if obs.len() <= 1 {
        spec_report_create(obs[0])
    } else {
        spec_report_fold(spec_fold_all(obs.drop_last()), obs.last())
    }
}

/// The total on-wire bytes of a sequence of packets.
pub open spec fn spec_sum_bytes(obs: Seq<PacketObs>) -> int
    decreases obs.len(),
{
    if obs.len() == 0 {
        0
    } else {
        spec_sum_bytes(obs.drop_last()) + obs.last().bytes
    }
}

/// The earliest timestamp of a sequence of packets.
pub open spec fn spec_min_ts(obs: Seq<PacketObs>) -> u64
    recommends
        obs.len() > 0,
    decreases obs.len(),
{
    if obs.len() <= 1 {
        obs[0].ts
    } else {
        let m = spec_min_ts(obs.drop_last());
        if obs.last().ts < m {
            obs.last().ts
        } else {
            m
        }
    }
}

/// The latest timestamp of a sequence of packets.
pub open spec fn spec_max_ts(obs: Seq<PacketObs>) -> u64
    recommends
        obs.len() > 0,
    decreases obs.len(),
{
    if obs.len() <= 1 {
        obs[0].ts
    } else {
        let m = spec_max_ts(obs.drop_last());
        if obs.last().ts > m {
            obs.last().ts
        } else {
            m
        }
    }
}

proof fn lemma_insert_text_membership(s: Seq<Seq<char>>, x: Seq<char>)
    ensures
        forall|t: Seq<char>| #[trigger] spec_insert_text(s, x).contains(t) <==> (s.contains(t)
            || t == x),
{
    let r = spec_insert_text(s, x);
    if s.contains(x) {
        assert(r == s);
    } else {
        assert forall|t: Seq<char>| #[trigger] r.contains(t) implies (s.contains(t) || t == x) by {
            let i = choose|i: int| 0 <= i < r.len() && r[i] == t;
            if i < s.len() {
                assert(s[i] == t);
            }
        }
        assert forall|t: Seq<char>| (s.contains(t) || t == x) implies #[trigger] r.contains(t) by {
            if s.contains(t) {
                let i = choose|i: int| 0 <= i < s.len() && s[i] == t;
                assert(r[i] == t);
            } else {
                assert(r[s.len() as int] == x);
            }
        }
    }
}

proof fn lemma_insert_link_membership(s: Seq<LinkInfoView>, x: LinkInfoView)
    ensures
        forall|t: LinkInfoView| #[trigger] links_contain(spec_insert_link(s, x), t) <==> (
        links_contain(s, t) || spec_link_eq(x, t)),
{
    let r = spec_insert_link(s, x);
    if links_contain(s, x) {
        assert(r == s);
        assert forall|t: LinkInfoView| #[trigger] links_contain(r, t) implies (links_contain(s, t)
            || spec_link_eq(x, t)) by {}
        assert forall|t: LinkInfoView| (links_contain(s, t) || spec_link_eq(x, t)) implies
            #[trigger] links_contain(r, t) by {
            if spec_link_eq(x, t) {
                let j = choose|j: int| 0 <= j < s.len() && spec_link_eq(s[j], x);
                assert(spec_link_eq(s[j], t));
            }
        }
    } else {
        assert forall|t: LinkInfoView| #[trigger] links_contain(r, t) implies (links_contain(s, t)
            || spec_link_eq(x, t)) by {
            let j = choose|j: int| 0 <= j < r.len() && spec_link_eq(r[j], t);
            if j < s.len() {
                assert(spec_link_eq(s[j], t));
            } else {
                assert(r[j] == x);
            }
        }
        assert forall|t: LinkInfoView| (links_contain(s, t) || spec_link_eq(x, t)) implies
            #[trigger] links_contain(r, t) by {
            if links_contain(s, t) {
                let j = choose|j: int| 0 <= j < s.len() && spec_link_eq(s[j], t);
                assert(spec_link_eq(r[j], t));
            } else {
                assert(spec_link_eq(r[s.len() as int], t));
            }
        }
    }
}

/// Aggregation is correct: folding any non-empty sequence of packets of one
/// connection yields the sum of their byte counts (as long as it fits the
/// counter), the least timestamp as `first_ts`, the greatest as `last_ts`,
/// the most recent network protocol label, and descriptor lists that hold
/// each observed transport, link, ICMP and DNS descriptor exactly once,
/// however often it repeats.
pub proof fn lemma_fold_aggregation(obs: Seq<PacketObs>)
    requires
        obs.len() > 0,
        spec_sum_bytes(obs) <= u64::MAX,
    ensures
        spec_fold_all(obs).total_bytes == spec_sum_bytes(obs),
        spec_fold_all(obs).first_ts == spec_min_ts(obs),
        spec_fold_all(obs).last_ts == spec_max_ts(obs),
        spec_fold_all(obs).network_layer_protocols == obs.last().nlp,
        report_well_formed(spec_fold_all(obs)),
        forall|i: int| 0 <= i < obs.len() ==> spec_fold_all(obs).transport_layer_protocols.contains(
            #[trigger] obs[i].tlp,
        ),
        forall|t: Seq<char>| #[trigger] spec_fold_all(obs).transport_layer_protocols.contains(t)
            ==> exists|i: int| 0 <= i < obs.len() && obs[i].tlp == t,
        forall|i: int| 0 <= i < obs.len() ==> spec_fold_all(obs).icmp_info.contains(
            #[trigger] obs[i].icmp,
        ),
        forall|t: Seq<char>| #[trigger] spec_fold_all(obs).icmp_info.contains(t) ==> exists|i: int|
            0 <= i < obs.len() && obs[i].icmp == t,
        forall|i: int| 0 <= i < obs.len() ==> spec_fold_all(obs).dns_info.contains(
            #[trigger] obs[i].dns,
        ),
        forall|t: Seq<char>| #[trigger] spec_fold_all(obs).dns_info.contains(t) ==> exists|i: int|
            0 <= i < obs.len() && obs[i].dns == t,
        forall|i: int| 0 <= i < obs.len() ==> links_contain(
            spec_fold_all(obs).link_layer_info,
            #[trigger] obs[i].link,
        ),
        forall|t: LinkInfoView| #[trigger] links_contain(spec_fold_all(obs).link_layer_info, t)
            ==> exists|i: int| 0 <= i < obs.len() && spec_link_eq(obs[i].link, t),
    decreases obs.len(),
{
    let r = spec_fold_all(obs);
    if obs.len() == 1 {
        assert(obs.drop_last().len() == 0);
        assert(spec_sum_bytes(obs.drop_last()) == 0);
        assert(spec_sum_bytes(obs) == obs[0].bytes);
        assert(r == spec_report_create(obs[0]));
        assert(r.transport_layer_protocols[0] == obs[0].tlp);
        assert(r.icmp_info[0] == obs[0].icmp);
        assert(r.dns_info[0] == obs[0].dns);
        assert(r.link_layer_info[0] == obs[0].link);
        assert forall|t: Seq<char>| #[trigger] r.transport_layer_protocols.contains(t) implies
            exists|i: int| 0 <= i < obs.len() && obs[i].tlp == t by {
            assert(obs[0].tlp == t);
        }
        assert forall|t: Seq<char>| #[trigger] r.icmp_info.contains(t) implies exists|i: int| 0 <= i
            < obs.len() && obs[i].icmp == t by {
            assert(obs[0].icmp == t);
        }
        assert forall|t: Seq<char>| #[trigger] r.dns_info.contains(t) implies exists|i: int| 0 <= i
            < obs.len() && obs[i].dns == t by {
            assert(obs[0].dns == t);
        }
        assert forall|t: LinkInfoView| #[trigger] links_contain(r.link_layer_info, t) implies
            exists|i: int| 0 <= i < obs.len() && spec_link_eq(obs[i].link, t) by {
            let j = choose|j: int| 0 <= j < r.link_layer_info.len() && spec_link_eq(
                r.link_layer_info[j],
                t,
            );
            assert(spec_link_eq(obs[0].link, t));
        }
    } else {
        let dl = obs.drop_last();
        let last = obs.last();
        assert(spec_sum_bytes(dl) <= u64::MAX);
        lemma_fold_aggregation(dl);
        let prev = spec_fold_all(dl);
        lemma_insert_text_membership(prev.transport_layer_protocols, last.tlp);
        lemma_insert_text_membership(prev.icmp_info, last.icmp);
        lemma_insert_text_membership(prev.dns_info, last.dns);
        lemma_insert_link_membership(prev.link_layer_info, last.link);
        lemma_insert_text_distinct(prev.transport_layer_protocols, last.tlp);
        lemma_insert_text_distinct(prev.icmp_info, last.icmp);
        lemma_insert_text_distinct(prev.dns_info, last.dns);
        lemma_insert_link_distinct(prev.link_layer_info, last.link);
        assert(forall|i: int| 0 <= i < dl.len() ==> dl[i] == obs[i]);
        assert forall|i: int| 0 <= i < obs.len() implies r.transport_layer_protocols.contains(
            #[trigger] obs[i].tlp,
        ) by {
            if i < dl.len() {
                assert(prev.transport_layer_protocols.contains(dl[i].tlp));
            }
        }
        assert forall|t: Seq<char>| #[trigger] r.transport_layer_protocols.contains(t) implies
            exists|i: int| 0 <= i < obs.len() && obs[i].tlp == t by {
            if prev.transport_layer_protocols.contains(t) {
                let i = choose|i: int| 0 <= i < dl.len() && dl[i].tlp == t;
                assert(obs[i].tlp == t);
            } else {
                assert(obs[obs.len() - 1].tlp == t);
            }
        }
        assert forall|i: int| 0 <= i < obs.len() implies r.icmp_info.contains(
            #[trigger] obs[i].icmp,
        ) by {
            if i < dl.len() {
                assert(prev.icmp_info.contains(dl[i].icmp));
            }
        }
        assert forall|t: Seq<char>| #[trigger] r.icmp_info.contains(t) implies exists|i: int| 0 <= i
            < obs.len() && obs[i].icmp == t by {
            if prev.icmp_info.contains(t) {
                let i = choose|i: int| 0 <= i < dl.len() && dl[i].icmp == t;
                assert(obs[i].icmp == t);
            } else {
                assert(obs[obs.len() - 1].icmp == t);
            }
        }
        assert forall|i: int| 0 <= i < obs.len() implies r.dns_info.contains(
            #[trigger] obs[i].dns,
        ) by {
            if i < dl.len() {
                assert(prev.dns_info.contains(dl[i].dns));
            }
        }
        assert forall|t: Seq<char>| #[trigger] r.dns_info.contains(t) implies exists|i: int| 0 <= i
            < obs.len() && obs[i].dns == t by {
            if prev.dns_info.contains(t) {
                let i = choose|i: int| 0 <= i < dl.len() && dl[i].dns == t;
                assert(obs[i].dns == t);
            } else {
                assert(obs[obs.len() - 1].dns == t);
            }
        }
        assert forall|i: int| 0 <= i < obs.len() implies links_contain(
            r.link_layer_info,
            #[trigger] obs[i].link,
        ) by {
            if i < dl.len() {
                assert(links_contain(prev.link_layer_info, dl[i].link));
            } else {
                assert(spec_link_eq(last.link, obs[i].link));
            }
        }
        assert forall|t: LinkInfoView| #[trigger] links_contain(r.link_layer_info, t) implies
            exists|i: int| 0 <= i < obs.len() && spec_link_eq(obs[i].link, t) by {
            if links_contain(prev.link_layer_info, t) {
                let i = choose|i: int| 0 <= i < dl.len() && spec_link_eq(dl[i].link, t);
                assert(spec_link_eq(obs[i].link, t));
            } else {
                assert(spec_link_eq(obs[obs.len() - 1].link, t));
            }
        }
    }
}

/// A per-connection flow aggregate.
#[derive(Debug)]
pub struct Report {
    first_ts: u64,
    last_ts: u64,
    total_bytes: u64,
    transport_layer_protocols: Vec<String>,
    network_layer_protocols: String,
    link_layer_info: Vec<LinkInfo>,
    icmp_info: Vec<String>,
    dns_info: Vec<String>,
}

impl View for Report {
    type V = ReportView;

    closed spec fn view(&self) -> ReportView {
        ReportView {
            first_ts: self.first_ts,
            last_ts: self.last_ts,
            total_bytes: self.total_bytes,
            transport_layer_protocols: text_views(self.transport_layer_protocols@),
            network_layer_protocols: self.network_layer_protocols@,
            link_layer_info: link_views(self.link_layer_info@),
            icmp_info: text_views(self.icmp_info@),
            dns_info: text_views(self.dns_info@),
        }
    }
}

/// The aggregate's invariant: time runs forward and each descriptor is held
/// at most once.
pub open spec fn report_well_formed(r: ReportView) -> bool {
    &&& r.first_ts <= r.last_ts
    &&& distinct_texts(r.transport_layer_protocols)
    &&& distinct_links(r.link_layer_info)
    &&& distinct_texts(r.icmp_info)
    &&& distinct_texts(r.dns_info)
}

proof fn lemma_insert_text_distinct(s: Seq<Seq<char>>, x: Seq<char>)
    requires
        distinct_texts(s),
    ensures
        distinct_texts(spec_insert_text(s, x)),
{
    if !s.contains(x) {
        let t = s.push(x);
        assert forall|i: int, j: int| 0 <= i < j < t.len() implies t[i] != t[j] by {
            if j < s.len() {
            } else {
                assert(t[j] == x);
                assert(t[i] == s[i]);
                assert(!s.contains(x));
            }
        }
    }
}

proof fn lemma_insert_link_distinct(s: Seq<LinkInfoView>, x: LinkInfoView)
    requires
        distinct_links(s),
    ensures
        distinct_links(spec_insert_link(s, x)),
{
    if !links_contain(s, x) {
        let t = s.push(x);
        assert forall|i: int, j: int| 0 <= i < j < t.len() implies !spec_link_eq(t[i], t[j]) by {
            if j < s.len() {
            } else {
                assert(t[j] == x);
                assert(t[i] == s[i]);
                if spec_link_eq(s[i], x) {
                    assert(links_contain(s, x));
                }
            }
        }
    }
}

impl Report {
    /// The aggregate's invariant holds of this value.
    pub open spec fn well_formed(&self) -> bool {
        report_well_formed(self@)
    }

    /// Creates the aggregate for the first packet of a connection.
    pub fn new(
        ts: u64,
        bytes: u32,
        tlp: String,
        nlp: String,
        llp: LinkInfo,
        icmp_string: String,
        dns_string: String,
    ) -> (r: Report)
        ensures
            r@ == spec_report_create(spec_obs(ts, bytes, tlp@, nlp@, llp@, icmp_string@, dns_string@)),
            r.well_formed(),
    {
        let mut t_set: Vec<String> = Vec::new();
        t_set.push(tlp);
        let mut l_set: Vec<LinkInfo> = Vec::new();
        l_set.push(llp);
        let mut icmp_set: Vec<String> = Vec::new();
        icmp_set.push(icmp_string);
        let mut dns_set: Vec<String> = Vec::new();
        dns_set.push(dns_string);
        let r = Report {
            first_ts: ts,
            last_ts: ts,
            total_bytes: bytes as u64,
            transport_layer_protocols: t_set,
            network_layer_protocols: nlp,
            link_layer_info: l_set,
            icmp_info: icmp_set,
            dns_info: dns_set,
        };
        proof {
            assert(r@.transport_layer_protocols =~= seq![r.transport_layer_protocols@[0]@]);
            assert(r@.link_layer_info =~= seq![r.link_layer_info@[0]@]);
            assert(r@.icmp_info =~= seq![r.icmp_info@[0]@]);
            assert(r@.dns_info =~= seq![r.dns_info@[0]@]);
        }
        r
    }

    /// Folds one more packet of the same connection into the aggregate.
    pub fn update_report(
        &mut self,
        ts: u64,
        bytes: u32,
        tlp: String,
        nlp: String,
        llp: LinkInfo,
        icmp_inf: String,
        dns_inf: String,
    )
        ensures
            final(self)@ == spec_report_fold(
                old(self)@,
                spec_obs(ts, bytes, tlp@, nlp@, llp@, icmp_inf@, dns_inf@),
            ),
            old(self).well_formed() ==> final(self).well_formed(),
    {
        proof {
            if old(self).well_formed() {
                lemma_insert_text_distinct(old(self)@.transport_layer_protocols, tlp@);
                lemma_insert_link_distinct(old(self)@.link_layer_info, llp@);
                lemma_insert_text_distinct(old(self)@.icmp_info, icmp_inf@);
                lemma_insert_text_distinct(old(self)@.dns_info, dns_inf@);
            }
        }
        if ts < self.first_ts {
            self.first_ts = ts;
        }
        if ts > self.last_ts {
            self.last_ts = ts;
        }
        let add = bytes as u64;
        if self.total_bytes <= u64::MAX - add {
            self.total_bytes = self.total_bytes + add;
        } else {
            self.total_bytes = u64::MAX;
        }
        insert_text(&mut self.transport_layer_protocols, tlp);
        self.network_layer_protocols = nlp;
        insert_link(&mut self.link_layer_info, llp);
        insert_text(&mut self.icmp_info, icmp_inf);
        insert_text(&mut self.dns_info, dns_inf);
    }

    /// The earliest timestamp folded in.
    pub fn first_ts(&self) -> (r: u64)
        ensures
            r == self@.first_ts,
    {
        self.first_ts
    }

    /// The latest timestamp folded in.
    pub fn last_ts(&self) -> (r: u64)
        ensures
            r == self@.last_ts,
    {
        self.last_ts
    }

    /// The accumulated byte count.
    pub fn total_bytes(&self) -> (r: u64)
        ensures
            r == self@.total_bytes,
    {
        self.total_bytes
    }

    /// The distinct transport protocol labels, in order of first appearance.
    pub fn transport_layer_protocols(&self) -> (r: &Vec<String>)
        ensures
            text_views(r@) == self@.transport_layer_protocols,
    {
        &self.transport_layer_protocols
    }

    /// The most recently observed network protocol label.
    pub fn network_layer_protocols(&self) -> (r: &String)
        ensures
            r@ == self@.network_layer_protocols,
    {
        &self.network_layer_protocols
    }

    /// The distinct link descriptors, in order of first appearance.
    pub fn link_layer_info(&self) -> (r: &Vec<LinkInfo>)
        ensures
            link_views(r@) == self@.link_layer_info,
    {
        &self.link_layer_info
    }

    /// The distinct ICMP descriptions, in order of first appearance.
    pub fn icmp_info(&self) -> (r: &Vec<String>)
        ensures
            text_views(r@) == self@.icmp_info,
    {
        &self.icmp_info
    }

    /// The distinct DNS descriptions, in order of first appearance.
    pub fn dns_info(&self) -> (r: &Vec<String>)
        ensures
            text_views(r@) == self@.dns_info,
    {
        &self.dns_info
    }
}

/// Texts joined by `, `, with no trailing separator.
pub open spec fn spec_join_comma(s: Seq<Seq<char>>) -> Seq<char>
    decreases s.len(),
{
    if s.len() == 0 {
        Seq::empty()
    } else if s.len() == 1 {
        s[0]
    } else {
        s[0] + ", "@ + spec_join_comma(s.skip(1))
    }
}

/// Texts concatenated with no separator at all.
pub open spec fn spec_concat_texts(s: Seq<Seq<char>>) -> Seq<char>
    decreases s.len(),
{
    if s.len() == 0 {
        Seq::empty()
    } else {
        s[0] + spec_concat_texts(s.skip(1))
    }
}

fn push_joined_texts(out: &mut String, list: &Vec<String>, from: usize)
    requires
        from <= list@.len(),
    ensures
        final(out)@ == old(out)@ + spec_join_comma(text_views(list@).skip(from as int)),
    decreases list@.len() - from,
{
    proof {
        reveal_strlit(", ");
    }
    if from == list.len() {
        proof {
            assert(text_views(list@).skip(from as int).len() == 0);
            assert(out@ =~= old(out)@ + spec_join_comma(text_views(list@).skip(from as int)));
        }
    } else if from + 1 == list.len() {
        out.append(list[from].as_str());
        proof {
            let tail = text_views(list@).skip(from as int);
            assert(tail.len() == 1);
            assert(tail[0] == text_views(list@)[from as int]);
            assert(out@ =~= old(out)@ + spec_join_comma(tail));
        }
    } else {
        out.append(list[from].as_str());
        out.append(", ");
        push_joined_texts(out, list, from + 1);
        proof {
            let tail = text_views(list@).skip(from as int);
            assert(tail.len() >= 2);
            assert(tail[0] == text_views(list@)[from as int]);
            assert(tail.skip(1) =~= text_views(list@).skip(from as int + 1));
            assert(out@ =~= old(out)@ + spec_join_comma(tail));
        }
    }
}

/// The textual renderings of the held link descriptors.
pub open spec fn link_texts(s: Seq<LinkInfoView>) -> Seq<Seq<char>> {
    s.map_values(|l: LinkInfoView| spec_linkinfo_text(l))
}

#[verifier::rlimit(100)]
fn push_joined_links(out: &mut String, list: &Vec<LinkInfo>, from: usize)
    requires
        from <= list@.len(),
    ensures
        final(out)@ == old(out)@ + spec_join_comma(link_texts(link_views(list@)).skip(from as int)),
    decreases list@.len() - from,
{
    proof {
        reveal_strlit(", ");
    }
    if from == list.len() {
        proof {
            assert(link_texts(link_views(list@)).skip(from as int).len() == 0);
            assert(out@ =~= old(out)@ + spec_join_comma(
                link_texts(link_views(list@)).skip(from as int),
            ));
        }
    } else if from + 1 == list.len() {
        let line = linkinfo_tostring(&list[from]);
        out.append(line.as_str());
        proof {
            let tail = link_texts(link_views(list@)).skip(from as int);
            assert(tail.len() == 1);
            assert(tail[0] == link_texts(link_views(list@))[from as int]);
            assert(out@ =~= old(out)@ + spec_join_comma(tail));
        }
    } else {
        let line = linkinfo_tostring(&list[from]);
        out.append(line.as_str());
        out.append(", ");
        push_joined_links(out, list, from + 1);
        proof {
            let tail = link_texts(link_views(list@)).skip(from as int);
            assert(tail.len() >= 2);
            assert(tail[0] == link_texts(link_views(list@))[from as int]);
            assert(tail.skip(1) =~= link_texts(link_views(list@)).skip(from as int + 1));
            assert(out@ =~= old(out)@ + spec_join_comma(tail));
        }
    }
}

fn push_concat_texts(out: &mut String, list: &Vec<String>, from: usize)
    requires
        from <= list@.len(),
    ensures
        final(out)@ == old(out)@ + spec_concat_texts(text_views(list@).skip(from as int)),
    decreases list@.len() - from,
{
    if from == list.len() {
        proof {
            assert(text_views(list@).skip(from as int).len() == 0);
            assert(out@ =~= old(out)@ + spec_concat_texts(text_views(list@).skip(from as int)));
        }
    } else {
        out.append(list[from].as_str());
        push_concat_texts(out, list, from + 1);
        proof {
            let tail = text_views(list@).skip(from as int);
            assert(tail[0] == text_views(list@)[from as int]);
            assert(tail.skip(1) =~= text_views(list@).skip(from as int + 1));
            assert(out@ =~= old(out)@ + spec_concat_texts(tail));
        }
    }
}

/// The report block of one connection, in the fixed field order of the
/// persisted schema.
pub open spec fn spec_report_block(
    k: (crate::key::EndpointView, crate::key::EndpointView),
    r: ReportView,
) -> Seq<char> {
    "-----Packets info-----\n"@ + "First pair: "@ + k.0.0 + "; "@ + k.0.1 + "\n"@
        + "Second pair: "@ + k.1.0 + "; "@ + k.1.1 + "\n"@ + "First timestamp: "@ + spec_dec(
        r.first_ts as nat,
    ) + "\n"@ + "Last timestamp: "@ + spec_dec(r.last_ts as nat) + "\n"@ + "Total bytes: "@
        + spec_dec(r.total_bytes as nat) + "\n"@ + "Transport layer protocol: "@ + spec_join_comma(
        r.transport_layer_protocols,
    ) + "\n"@ + "Network layer protocol: "@ + r.network_layer_protocols + "\n"@
        + "Link layer info:\n"@ + spec_join_comma(link_texts(r.link_layer_info)) + " \n"@
        + "Icmp info:\n"@ + spec_join_comma(r.icmp_info) + " \n"@ + "Dns info:\n"@
        + spec_concat_texts(r.dns_info) + "\n\n"@
}

/// Renders one connection and its aggregate as a report block.
#[verifier::rlimit(100)]
pub fn parse_report(report: (&crate::key::AddressPortPair, &Report)) -> (r: String)
    ensures
        r@ == spec_report_block(report.0@, report.1@),
{
    let (pair, rep) = report;
    let mut s = String::from_str("-----Packets info-----\n");
    s.append("First pair: ");
    s.append(pair.first_pair.0.as_str());
    s.append("; ");
    s.append(pair.first_pair.1.as_str());
    s.append("\n");
    s.append("Second pair: ");
    s.append(pair.second_pair.0.as_str());
    s.append("; ");
    s.append(pair.second_pair.1.as_str());
    s.append("\n");
    s.append("First timestamp: ");
    push_decimal(&mut s, rep.first_ts);
    s.append("\n");
    s.append("Last timestamp: ");
    push_decimal(&mut s, rep.last_ts);
    s.append("\n");
    s.append("Total bytes: ");
    push_decimal(&mut s, rep.total_bytes);
    s.append("\n");
    s.append("Transport layer protocol: ");
    push_joined_texts(&mut s, &rep.transport_layer_protocols, 0);
    s.append("\n");
    s.append("Network layer protocol: ");
    s.append(rep.network_layer_protocols.as_str());
    s.append("\n");
    s.append("Link layer info:\n");
    push_joined_links(&mut s, &rep.link_layer_info, 0);
    s.append(" \n");
    s.append("Icmp info:\n");
    push_joined_texts(&mut s, &rep.icmp_info, 0);
    s.append(" \n");
    s.append("Dns info:\n");
    push_concat_texts(&mut s, &rep.dns_info, 0);
    s.append("\n\n");
    proof {
        assert(text_views(rep.transport_layer_protocols@).skip(0) =~= rep@
            .transport_layer_protocols);
        assert(link_texts(link_views(rep.link_layer_info@)).skip(0) =~= link_texts(
            rep@.link_layer_info,
        ));
        assert(text_views(rep.icmp_info@).skip(0) =~= rep@.icmp_info);
        assert(text_views(rep.dns_info@).skip(0) =~= rep@.dns_info);
        assert(s@ == spec_report_block(pair@, rep@));
    }
    s
}

} // verus!
