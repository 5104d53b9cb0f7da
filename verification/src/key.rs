//! The connection identity: an unordered pair of (address, port) endpoints.
//! The constructor sorts the two endpoints into a canonical order, so that the
//! key built from a packet and the key built from its reply are one value —
//! equality and hashing are then both independent of endpoint order.

use vstd::prelude::*;
use crate::text::lex_le;
use crate::text::lemma_lex_le_antisymmetric;
use crate::text::lemma_lex_le_total;
use crate::text::str_le;

verus! {

/// The mathematical shape of one endpoint: its address text and its port text.
pub type EndpointView = (Seq<char>, Seq<char>);

/// Order on endpoints: by address, then by port.
pub open spec fn spec_endpoint_le(a: EndpointView, b: EndpointView) -> bool {
    if a.0 == b.0 {
        lex_le(a.1, b.1)
    } else {
        lex_le(a.0, b.0)
    }
}

/// The canonical key for two endpoints: the smaller endpoint first.
pub open spec fn spec_key(a: EndpointView, b: EndpointView) -> (EndpointView, EndpointView) {
    if spec_endpoint_le(a, b) {
        (a, b)
    } else {
        (b, a)
    }
}

/// The endpoint order is total.
pub proof fn lemma_endpoint_le_total(a: EndpointView, b: EndpointView)
    ensures
        spec_endpoint_le(a, b) || spec_endpoint_le(b, a),
{
    if a.0 == b.0 {
        lemma_lex_le_total(a.1, b.1);
    } else {
        lemma_lex_le_total(a.0, b.0);
    }
}

/// Endpoints below each other are equal.
pub proof fn lemma_endpoint_le_antisymmetric(a: EndpointView, b: EndpointView)
    requires
        spec_endpoint_le(a, b),
        spec_endpoint_le(b, a),
    ensures
        a == b,
{
    if a.0 == b.0 {
        lemma_lex_le_antisymmetric(a.1, b.1);
        assert(a =~= b);
    } else {
        lemma_lex_le_antisymmetric(a.0, b.0);
        assert(false);
    }
}

/// The key of two endpoints does not depend on the order they are given in.
pub proof fn lemma_key_symmetric(a: EndpointView, b: EndpointView)
    ensures
        spec_key(a, b) == spec_key(b, a),
{
    lemma_endpoint_le_total(a, b);
    if spec_endpoint_le(a, b) && spec_endpoint_le(b, a) {
        lemma_endpoint_le_antisymmetric(a, b);
    }
}

/// For keys in canonical order, the unordered-pair equality coincides with
/// plain value equality.
pub proof fn lemma_wf_key_eq(k1: (EndpointView, EndpointView), k2: (EndpointView, EndpointView))
    requires
        spec_endpoint_le(k1.0, k1.1),
        spec_endpoint_le(k2.0, k2.1),
    ensures
        ((k1.0 == k2.0 && k1.1 == k2.1) || (k1.0 == k2.1 && k1.1 == k2.0)) <==> k1 == k2,
{
    if k1.0 == k2.0 && k1.1 == k2.1 {
        assert(k1 =~~= k2);
    }
    if k1.0 == k2.1 && k1.1 == k2.0 {
        assert(spec_endpoint_le(k1.1, k1.0));
        lemma_endpoint_le_antisymmetric(k1.0, k1.1);
        assert(k1 =~~= k2);
    }
}

/// An unordered pair of (address, port) endpoints, stored in canonical order.
#[derive(Debug, Eq, Hash)]
pub struct AddressPortPair {
    /// The canonically smaller endpoint: its address and port text.
    pub first_pair: (String, String),
    /// The canonically larger endpoint: its address and port text.
    pub second_pair: (String, String),
}

impl View for AddressPortPair {
    type V = (EndpointView, EndpointView);

    open spec fn view(&self) -> (EndpointView, EndpointView) {
        (
            (self.first_pair.0@, self.first_pair.1@),
            (self.second_pair.0@, self.second_pair.1@),
        )
    }
}

impl AddressPortPair {
    /// The stored endpoints stand in canonical order.
    pub open spec fn well_formed(&self) -> bool {
        spec_endpoint_le(self@.0, self@.1)
    }

    /// Builds the key for the two endpoints seen in one packet. The result is
    /// the same whichever endpoint is passed first, so the derived hash is
    /// endpoint-order-independent as well.
    pub fn new(
        first_address: String,
        first_port: String,
        second_address: String,
        second_port: String,
    ) -> (r: AddressPortPair)
        ensures
            r@ == spec_key(
                (first_address@, first_port@),
                (second_address@, second_port@),
            ),
            r.well_formed(),
    {
        let first_le = if first_address == second_address {
            str_le(first_port.as_str(), second_port.as_str())
        } else {
            str_le(first_address.as_str(), second_address.as_str())
        };
        proof {
            lemma_endpoint_le_total(
                (first_address@, first_port@),
                (second_address@, second_port@),
            );
        }
        if first_le {
            AddressPortPair {
                first_pair: (first_address, first_port),
                second_pair: (second_address, second_port),
            }
        } else {
            AddressPortPair {
                first_pair: (second_address, second_port),
                second_pair: (first_address, first_port),
            }
        }
    }
}

impl PartialEq for AddressPortPair {
    /// Two keys are equal when they hold the same unordered pair of endpoints.
    fn eq(&self, other: &Self) -> (r: bool) {
        (self.first_pair.0 == other.first_pair.0 && self.first_pair.1 == other.first_pair.1
            && self.second_pair.0 == other.second_pair.0 && self.second_pair.1
            == other.second_pair.1) || (self.first_pair.0 == other.second_pair.0
            && self.first_pair.1 == other.second_pair.1 && self.second_pair.0
            == other.first_pair.0 && self.second_pair.1 == other.first_pair.1)
    }
}

impl vstd::std_specs::cmp::PartialEqSpecImpl for AddressPortPair {
    open spec fn obeys_eq_spec() -> bool {
        true
    }

    open spec fn eq_spec(&self, other: &Self) -> bool {
        (self@.0 == other@.0 && self@.1 == other@.1) || (self@.0 == other@.1 && self@.1
            == other@.0)
    }
}

} // verus!
