//! DNS values: the decoded message summary, its textual rendering, the
//! port-53 rule that decides when a payload is examined as DNS at all, and
//! the one benign parse-failure condition that is silently tolerated.

use vstd::prelude::*;
use vstd::string::StringExecFns;
use crate::text::push_decimal;
use crate::text::spec_dec;
use crate::transport::TransportInfo;
use crate::transport::TransportInfoView;

verus! {

/// A decoded DNS message summary: the header values and the enumerated names
/// and record attributes, all as plain text.
#[derive(Debug)]
pub struct DnsInfo {
    /// Transaction id of the message.
    pub id: u16,
    /// The opcode's name.
    pub opcode: String,
    /// The response code's name.
    pub response_code: String,
    /// The question names.
    pub queries: Vec<String>,
    /// The question types, rendered as one bracketed list.
    pub query_type: String,
    /// The question classes, rendered as one bracketed list.
    pub query_class: String,
    /// The answer names.
    pub responses: Vec<String>,
    /// The answer classes, rendered as one bracketed list.
    pub response_class: String,
}

/// The mathematical shape of a DNS message summary.
#[verifier::ext_equal]
pub ghost struct DnsInfoView {
    pub id: u16,
    pub opcode: Seq<char>,
    pub response_code: Seq<char>,
    pub queries: Seq<Seq<char>>,
    pub query_type: Seq<char>,
    pub query_class: Seq<char>,
    pub responses: Seq<Seq<char>>,
    pub response_class: Seq<char>,
}

impl View for DnsInfo {
    type V = DnsInfoView;

    open spec fn view(&self) -> DnsInfoView {
        DnsInfoView {
            id: self.id,
            opcode: self.opcode@,
            response_code: self.response_code@,
            queries: self.queries@.map_values(|q: String| q@),
            query_type: self.query_type@,
            query_class: self.query_class@,
            responses: self.responses@.map_values(|a: String| a@),
            response_class: self.response_class@,
        }
    }
}

/// Names joined by ` | `, with a trailing separator after each name.
pub open spec fn spec_joined_names(names: Seq<Seq<char>>) -> Seq<char>
    decreases names.len(),
{
    if names.len() == 0 {
        Seq::empty()
    } else {
        names[0] + " | "@ + spec_joined_names(names.skip(1))
    }
}

fn push_names(out: &mut String, names: &Vec<String>, from: usize)
    requires
        from <= names@.len(),
    ensures
        final(out)@ == old(out)@ + spec_joined_names(
            names@.map_values(|q: String| q@).skip(from as int),
        ),
    decreases names@.len() - from,
{
    if from == names.len() {
        proof {
            assert(names@.map_values(|q: String| q@).skip(from as int).len() == 0);
            assert(out@ =~= old(out)@ + spec_joined_names(
                names@.map_values(|q: String| q@).skip(from as int),
            ));
        }
    } else {
        let name = &names[from];
        out.append(name.as_str());
        out.append(" | ");
        push_names(out, names, from + 1);
        proof {
            let mapped = names@.map_values(|q: String| q@);
            assert(mapped.skip(from as int)[0] == mapped[from as int]);
            assert(mapped.skip(from as int).skip(1) =~= mapped.skip(from as int + 1));
            assert(out@ =~= old(out)@ + spec_joined_names(mapped.skip(from as int)));
        }
    }
}

/// The one-line rendering of a DNS message summary.
pub open spec fn spec_dns_text(d: DnsInfoView) -> Seq<char> {
    "Id: "@ + spec_dec(d.id as nat) + "; Opcode: "@ + d.opcode + "; Response code: "@
        + d.response_code + "; Questions name: "@ + spec_joined_names(d.queries)
        + "; Questions type: "@ + d.query_type + "; Questions class: "@ + d.query_class
        + "; Responses name: "@ + spec_joined_names(d.responses) + "; Responses class: "@
        + d.response_class + "\n"@
}

/// The rendering of an absent DNS message summary.
pub open spec fn spec_dns_missing_text() -> Seq<char> {
    "DNS packet not well formatted"@
}

/// Renders a DNS message summary (or its absence) as report text.
pub fn dns_info_to_string(application_level: Option<DnsInfo>) -> (r: String)
    ensures
        match application_level {
            Some(d) => r@ == spec_dns_text(d@),
            None => r@ == spec_dns_missing_text(),
        },
{
    match application_level {
        Some(d) => {
            let mut s = String::from_str("Id: ");
            push_decimal(&mut s, d.id as u64);
            s.append("; Opcode: ");
            s.append(d.opcode.as_str());
            s.append("; Response code: ");
            s.append(d.response_code.as_str());
            s.append("; Questions name: ");
            push_names(&mut s, &d.queries, 0);
            s.append("; Questions type: ");
            s.append(d.query_type.as_str());
            s.append("; Questions class: ");
            s.append(d.query_class.as_str());
            s.append("; Responses name: ");
            push_names(&mut s, &d.responses, 0);
            s.append("; Responses class: ");
            s.append(d.response_class.as_str());
            s.append("\n");
            proof {
                assert(d.queries@.map_values(|q: String| q@).skip(0) =~= d@.queries);
                assert(d.responses@.map_values(|q: String| q@).skip(0) =~= d@.responses);
                assert(s@ =~= spec_dns_text(d@));
            }
            s
        },
        None => String::from_str("DNS packet not well formatted"),
    }
}

/// Whether a transport descriptor admits DNS decoding: UDP traffic where one
/// of the two ports is 53.
pub open spec fn spec_dns_gate(t: TransportInfoView) -> bool {
    t.protocol == "UDP"@ && (t.source_port == Some("53"@) || t.destination_port == Some("53"@))
}

/// Decides whether a packet's payload is examined as DNS: only UDP, and only
/// when one of the ports is 53.
pub fn dns_gate(t: &TransportInfo) -> (r: bool)
    ensures
        r == spec_dns_gate(t@),
{
    if !(t.protocol == String::from_str("UDP")) {
        return false;
    }
    let src53 = match &t.source_port {
        Some(p) => *p == String::from_str("53"),
        None => false,
    };
    let dst53 = match &t.destination_port {
        Some(p) => *p == String::from_str("53"),
        None => false,
    };
    src53 || dst53
}

/// The one parse failure that is known benign and silently dropped.
pub open spec fn spec_dns_failure_benign(msg: Seq<char>) -> bool {
    msg == "Provided QType is invalid: 65"@
}

/// Tests whether a DNS parse failure is the one known-benign condition; any
/// other failure is worth surfacing to a diagnostic hook.
pub fn dns_failure_is_benign(msg: &String) -> (r: bool)
    ensures
        r == spec_dns_failure_benign(msg@),
{
    *msg == String::from_str("Provided QType is invalid: 65")
}

} // verus!
