//! The capture filter description: the endpoint and protocol constraints a
//! caller may ask for, and their composition into a filter expression text.

use vstd::prelude::*;
use vstd::string::StringExecFns;

verus! {

/// The constraints a capture may be narrowed by. Each field is free-form
/// text; only the transport protocol is checked against the supported set.
pub struct Filter {
    host_src: Option<String>,
    port_src: Option<String>,
    host_dst: Option<String>,
    port_dst: Option<String>,
    application_protocol: Option<String>,
    transport_protocol: Option<String>,
    network_protocol: Option<String>,
    link_protocol: Option<String>,
}

/// The mathematical shape of a filter description.
pub ghost struct FilterView {
    pub host_src: Option<Seq<char>>,
    pub port_src: Option<Seq<char>>,
    pub host_dst: Option<Seq<char>>,
    pub port_dst: Option<Seq<char>>,
    pub application_protocol: Option<Seq<char>>,
    pub transport_protocol: Option<Seq<char>>,
    pub network_protocol: Option<Seq<char>>,
    pub link_protocol: Option<Seq<char>>,
}

pub open spec fn opt_text_view(o: Option<String>) -> Option<Seq<char>> {
    match o {
        Some(s) => Some(s@),
        None => None,
    }
}

impl View for Filter {
    type V = FilterView;

    closed spec fn view(&self) -> FilterView {
        FilterView {
            host_src: opt_text_view(self.host_src),
            port_src: opt_text_view(self.port_src),
            host_dst: opt_text_view(self.host_dst),
            port_dst: opt_text_view(self.port_dst),
            application_protocol: opt_text_view(self.application_protocol),
            transport_protocol: opt_text_view(self.transport_protocol),
            network_protocol: opt_text_view(self.network_protocol),
            link_protocol: opt_text_view(self.link_protocol),
        }
    }
}

/// The transport protocols the filter text may name.
pub open spec fn spec_supported_transport(t: Seq<char>) -> bool {
    t == "tcp"@ || t == "udp"@ || t == "icmp4"@ || t == "icmp6"@
}

/// The filter expression text built from a description: one clause per given
/// field, in fixed order, and the transport protocol only when it is one of
/// the supported names.
pub open spec fn spec_filter_text(f: FilterView) -> Seq<char> {
    (match f.host_src {
        Some(h) => "src host "@ + h,
        None => Seq::empty(),
    }) + (match f.port_src {
        Some(p) => "src port "@ + p,
        None => Seq::empty(),
    }) + (match f.host_dst {
        Some(h) => "dst host "@ + h,
        None => Seq::empty(),
    }) + (match f.port_dst {
        Some(p) => "dst port "@ + p,
        None => Seq::empty(),
    }) + (match f.transport_protocol {
        Some(t) => if spec_supported_transport(t) {
            t
        } else {
            Seq::empty()
        },
        None => Seq::empty(),
    })
}

impl Filter {
    /// Bundles the given constraints into a filter description.
    pub fn new(
        host_src: Option<String>,
        port_src: Option<String>,
        host_dst: Option<String>,
        port_dst: Option<String>,
        application_protocol: Option<String>,
        transport_protocol: Option<String>,
        network_protocol: Option<String>,
        link_protocol: Option<String>,
    ) -> (r: Filter)
        ensures
            r@ == (FilterView {
                host_src: opt_text_view(host_src),
                port_src: opt_text_view(port_src),
                host_dst: opt_text_view(host_dst),
                port_dst: opt_text_view(port_dst),
                application_protocol: opt_text_view(application_protocol),
                transport_protocol: opt_text_view(transport_protocol),
                network_protocol: opt_text_view(network_protocol),
                link_protocol: opt_text_view(link_protocol),
            }),
    {
        Filter {
            host_src,
            port_src,
            host_dst,
            port_dst,
            application_protocol,
            transport_protocol,
            network_protocol,
            link_protocol,
        }
    }

    /// Composes the filter expression text that the description stands for.
    pub fn parse_filter(&self) -> (r: String)
        ensures
            r@ == spec_filter_text(self@),
    {
        let mut bpf_filter = String::new();
        match &self.host_src {
            Some(host_ip) => {
                bpf_filter.append("src host ");
                bpf_filter.append(host_ip.as_str());
            },
            None => {},
        }
        match &self.port_src {
            Some(port) => {
                bpf_filter.append("src port ");
                bpf_filter.append(port.as_str());
            },
            None => {},
        }
        match &self.host_dst {
            Some(host_ip) => {
                bpf_filter.append("dst host ");
                bpf_filter.append(host_ip.as_str());
            },
            None => {},
        }
        match &self.port_dst {
            Some(port) => {
                bpf_filter.append("dst port ");
                bpf_filter.append(port.as_str());
            },
            None => {},
        }
        match &self.transport_protocol {
            Some(proto) => {
                let supported = *proto == String::from_str("tcp") || *proto == String::from_str(
                    "udp",
                ) || *proto == String::from_str("icmp4") || *proto == String::from_str("icmp6");
                if supported {
                    bpf_filter.append(proto.as_str());
                }
            },
            None => {},
        }
        proof {
            assert(bpf_filter@ =~= spec_filter_text(self@));
        }
        bpf_filter
    }
}

} // verus!
