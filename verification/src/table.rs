//! The report table: the mapping from connection key to flow aggregate that
//! one aggregation window accumulates, and the rendering of a drained window
//! as one appended report section.

use vstd::prelude::*;
use vstd::string::StringExecFns;
use crate::key::lemma_wf_key_eq;
use crate::key::spec_endpoint_le;
use crate::key::AddressPortPair;
use crate::key::EndpointView;
use crate::link::LinkInfo;
use crate::report::parse_report;
use crate::report::report_well_formed;
use crate::report::spec_obs;
use crate::report::spec_report_block;
use crate::report::spec_report_create;
use crate::report::spec_report_fold;
use crate::report::Report;
use crate::report::ReportView;

verus! {

/// The mathematical shape of a connection key.
pub type KeyView = (EndpointView, EndpointView);

/// The views of a list of table entries.
pub open spec fn entries_view(s: Seq<(AddressPortPair, Report)>) -> Seq<(KeyView, ReportView)> {
    s.map_values(|e: (AddressPortPair, Report)| (e.0@, e.1@))
}

/// The table's invariant: every key canonical, every aggregate well-formed,
/// and no key held twice.
pub open spec fn table_well_formed(t: Seq<(KeyView, ReportView)>) -> bool {
    &&& forall|i: int| 0 <= i < t.len() ==> spec_endpoint_le((#[trigger] t[i]).0.0, t[i].0.1)
    &&& forall|i: int| 0 <= i < t.len() ==> report_well_formed((#[trigger] t[i]).1)
    &&& forall|i: int, j: int| 0 <= i < j < t.len() ==> t[i].0 != t[j].0
}

/// One aggregation window's mapping from connection key to flow aggregate,
/// in order of each connection's first packet.
pub struct ReportTable {
    entries: Vec<(AddressPortPair, Report)>,
}

impl View for ReportTable {
    type V = Seq<(KeyView, ReportView)>;

    closed spec fn view(&self) -> Seq<(KeyView, ReportView)> {
        entries_view(self.entries@)
    }
}

impl ReportTable {
    /// The table's invariant holds of this value.
    pub open spec fn well_formed(&self) -> bool {
        table_well_formed(self@)
    }

    /// An empty window.
    pub fn new() -> (r: ReportTable)
        ensures
            r@ == Seq::<(KeyView, ReportView)>::empty(),
            r.well_formed(),
    {
        let r = ReportTable { entries: Vec::new() };
        proof {
            assert(r@ =~= Seq::<(KeyView, ReportView)>::empty());
        }
        r
    }

    /// How many connections the window holds.
    pub fn len(&self) -> (r: usize)
        ensures
            r == self@.len(),
    {
        self.entries.len()
    }

    /// Folds one packet's facts into the window: the packet extends its
    /// connection's aggregate, or creates the aggregate if this is the
    /// connection's first packet of the window.
    pub fn fold_packet(
        &mut self,
        pair: AddressPortPair,
        ts: u64,
        bytes: u32,
        tlp: String,
        nlp: String,
        llp: LinkInfo,
        icmp: String,
        dns: String,
    )
        requires
            pair.well_formed(),
            old(self).well_formed(),
        ensures
            final(self).well_formed(),
            forall|i: int|
                0 <= i < old(self)@.len() && (#[trigger] old(self)@[i]).0 == pair@ ==> final(self)@
                    == old(self)@.update(
                    i,
                    (
                        old(self)@[i].0,
                        spec_report_fold(
                            old(self)@[i].1,
                            spec_obs(ts, bytes, tlp@, nlp@, llp@, icmp@, dns@),
                        ),
                    ),
                ),
            (forall|i: int| 0 <= i < old(self)@.len() ==> (#[trigger] old(self)@[i]).0 != pair@)
                ==> final(self)@ == old(self)@.push(
                (pair@, spec_report_create(spec_obs(ts, bytes, tlp@, nlp@, llp@, icmp@, dns@))),
            ),
    {
        let ghost obs = spec_obs(ts, bytes, tlp@, nlp@, llp@, icmp@, dns@);
        let n = self.entries.len();
        let mut i: usize = 0;
        while i < n
            invariant
                n == self.entries@.len(),
                i <= n,
                self.entries@ == old(self).entries@,
                pair.well_formed(),
                old(self).well_formed(),
                obs == spec_obs(ts, bytes, tlp@, nlp@, llp@, icmp@, dns@),
                forall|j: int| 0 <= j < i as int ==> (#[trigger] old(self)@[j]).0 != pair@,
            decreases n - i,
        {
            proof {
                lemma_wf_key_eq(self@[i as int].0, pair@);
            }
            if self.entries[i].0 == pair {
                let removed = self.entries.remove(i);
                proof {
                    assert(removed == old(self).entries@[i as int]);
                }
                let (key_found, mut rep) = removed;
                let ghost rep0 = rep@;
                proof {
                    assert(rep0 == old(self).entries@[i as int].1@);
                }
                rep.update_report(ts, bytes, tlp, nlp, llp, icmp, dns);
                proof {
                    assert(rep@ == spec_report_fold(rep0, obs));
                    assert(rep@ == spec_report_fold(old(self).entries@[i as int].1@, obs));
                }
                let ghost efinal = (key_found, rep);
                self.entries.insert(i, (key_found, rep));
                proof {
                    let t0 = old(self)@;
                    let prev = old(self).entries@;
                    let cur = self.entries@;
                    prev.remove_ensures(i as int);
                    prev.remove(i as int).insert_ensures(i as int, efinal);
                    assert(cur.len() == prev.len());
                    assert forall|j: int| 0 <= j < cur.len() && j != i as int implies cur[j]
                        == prev[j] by {
                        if j < i as int {
                            assert(prev.remove(i as int)[j] == prev[j]);
                        } else {
                            assert(prev.remove(i as int)[j - 1] == prev[j]);
                        }
                    }
                    assert(cur[i as int] == efinal);
                    assert(efinal.0 == prev[i as int].0);
                    assert(efinal.1@ == spec_report_fold(prev[i as int].1@, obs));
                    assert(self@ =~= t0.update(
                        i as int,
                        (t0[i as int].0, spec_report_fold(t0[i as int].1, obs)),
                    ));
                    assert forall|j: int|
                        0 <= j < t0.len() && (#[trigger] t0[j]).0 == pair@ implies self@
                        == t0.update(
                        j,
                        (t0[j].0, spec_report_fold(t0[j].1, obs)),
                    ) by {
                        if j < i as int {
                            assert(t0[j].0 != pair@);
                        } else if j > i as int {
                            assert(t0[i as int].0 == pair@ && t0[j].0 == pair@);
                            assert(t0[i as int].0 != t0[j].0);
                        }
                    }
                    assert forall|a: int| 0 <= a < self@.len() implies spec_endpoint_le(
                        (#[trigger] self@[a]).0.0,
                        self@[a].0.1,
                    ) && report_well_formed(self@[a].1) by {
                        if a != i as int {
                            assert(self@[a] == t0[a]);
                        }
                    }
                    assert forall|a: int, b: int| 0 <= a < b < self@.len() implies self@[a].0
                        != self@[b].0 by {
                        assert(self@[a].0 == t0[a].0);
                        assert(self@[b].0 == t0[b].0);
                    }
                }
                return ;
            }
            i = i + 1;
        }
        self.entries.push((pair, Report::new(ts, bytes, tlp, nlp, llp, icmp, dns)));
        proof {
            let t0 = old(self)@;
            assert(self@ =~= t0.push((pair@, spec_report_create(obs))));
            assert forall|a: int| 0 <= a < self@.len() implies spec_endpoint_le(
                (#[trigger] self@[a]).0.0,
                self@[a].0.1,
            ) && report_well_formed(self@[a].1) by {
                if a < t0.len() {
                    assert(self@[a] == t0[a]);
                }
            }
            assert forall|a: int, b: int| 0 <= a < b < self@.len() implies self@[a].0 != self@[b].0
                by {
                if b < t0.len() {
                    assert(self@[a] == t0[a] && self@[b] == t0[b]);
                } else {
                    assert(self@[b].0 == pair@);
                    assert(self@[a] == t0[a]);
                    assert(t0[a].0 != pair@);
                }
            }
        }
    }

    /// Hands the whole window over and leaves the table empty: the swap that
    /// ends one aggregation window and begins the next.
    pub fn drain(&mut self) -> (r: Vec<(AddressPortPair, Report)>)
        ensures
            final(self)@.len() == 0,
            final(self).well_formed(),
            entries_view(r@) == old(self)@,
    {
        let mut out: Vec<(AddressPortPair, Report)> = Vec::new();
        core::mem::swap(&mut self.entries, &mut out);
        proof {
            assert(self@ =~= Seq::<(KeyView, ReportView)>::empty());
        }
        out
    }
}

/// The report blocks of a window's entries, one after another.
pub open spec fn spec_blocks_text(entries: Seq<(KeyView, ReportView)>) -> Seq<char>
    decreases entries.len(),
{
    if entries.len() == 0 {
        Seq::empty()
    } else {
        spec_report_block(entries[0].0, entries[0].1) + spec_blocks_text(entries.skip(1))
    }
}

/// One appended report section: two rule lines around a timestamped header,
/// then the report blocks of the window's connections.
pub open spec fn spec_section_text(now: Seq<char>, entries: Seq<(KeyView, ReportView)>) -> Seq<
    char,
> {
    "================================================\n"@ + "NEW REPORT: "@ + now + "\n"@
        + "================================================\n\n"@ + spec_blocks_text(entries)
}

fn push_blocks(out: &mut String, entries: &Vec<(AddressPortPair, Report)>, from: usize)
    requires
        from <= entries@.len(),
    ensures
        final(out)@ == old(out)@ + spec_blocks_text(entries_view(entries@).skip(from as int)),
    decreases entries@.len() - from,
{
    if from == entries.len() {
        proof {
            assert(entries_view(entries@).skip(from as int).len() == 0);
            assert(out@ =~= old(out)@ + spec_blocks_text(entries_view(entries@).skip(from as int)));
        }
    } else {
        let e = &entries[from];
        let block = parse_report((&e.0, &e.1));
        out.append(block.as_str());
        push_blocks(out, entries, from + 1);
        proof {
            let tail = entries_view(entries@).skip(from as int);
            assert(tail[0] == entries_view(entries@)[from as int]);
            assert(tail.skip(1) =~= entries_view(entries@).skip(from as int + 1));
            assert(out@ =~= old(out)@ + spec_blocks_text(tail));
        }
    }
}

/// Renders one drained window as the report section appended to the output
/// file, under the given header timestamp text.
pub fn render_report(entries: &Vec<(AddressPortPair, Report)>, now_text: &str) -> (r: String)
    ensures
        r@ == spec_section_text(now_text@, entries_view(entries@)),
{
    let mut s = String::from_str("================================================\n");
    s.append("NEW REPORT: ");
    s.append(now_text);
    s.append("\n");
    s.append("================================================\n\n");
    push_blocks(&mut s, entries, 0);
    proof {
        assert(entries_view(entries@).skip(0) =~= entries_view(entries@));
    }
    s
}

/// Relies on `chrono::Local::now` for the report header's local timestamp;
/// the time depends on the clock and time zone, so nothing is promised of the
/// text.
#[verifier::external_body]
fn local_now_text() -> String {
    format!("{}", chrono::Local::now())
}

/// Ends the current aggregation window: renders it as one report section,
/// stamped with the local time, and leaves the table empty. The caller
/// appends the returned text to the report file.
pub fn empty_report(table: &mut ReportTable) -> (r: String)
    requires
        old(table).well_formed(),
    ensures
        final(table)@.len() == 0,
        final(table).well_formed(),
        exists|now: Seq<char>| r@ == spec_section_text(now, old(table)@),
{
    let drained = table.drain();
    let now = local_now_text();
    let text = render_report(&drained, now.as_str());
    proof {
        assert(text@ == spec_section_text(now@, old(table)@));
    }
    text
}

} // verus!
