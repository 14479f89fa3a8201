//! The ICE candidate model: protocol and candidate-type enumerations, the
//! serializable candidate record, the wire (init) form, and the conversion
//! plan handed to the external ICE agent.

use vstd::prelude::*;
use vstd::string::*;
use crate::error::Error;
use crate::strutil::{
    chars_to_string, dec_chars, push_all, spec_dec_digits, spec_upper, str_eq_str,
    str_eq_ignore_case, str_to_chars,
};

verus! {

/// ICEProtocol indicates the transport protocol of a candidate.
#[derive(Debug, Copy, Clone, PartialEq, Eq, Structural)]
pub enum ICEProtocol {
    Unspecified,
    /// UDP.
    Udp,
    /// TCP.
    Tcp,
}

impl Default for ICEProtocol {
    fn default() -> (r: Self)
        ensures
            r == ICEProtocol::Unspecified,
    {
        ICEProtocol::Unspecified
    }
}

impl ICEProtocol {
    /// Canonical rendering of each variant; `Unspecified` renders as the
    /// process-wide sentinel token.
    pub open spec fn spec_to_str(self) -> Seq<char> {
        match self {
            ICEProtocol::Udp => "udp"@,
            ICEProtocol::Tcp => "tcp"@,
            ICEProtocol::Unspecified => "Unspecified"@,
        }
    }

    /// The variant whose token matches `s` case-insensitively; any other
    /// string maps to `Unspecified`.
    pub open spec fn spec_from_str(s: Seq<char>) -> ICEProtocol {
        if spec_upper(s) == spec_upper("udp"@) {
            ICEProtocol::Udp
        } else if spec_upper(s) == spec_upper("tcp"@) {
            ICEProtocol::Tcp
        } else {
            ICEProtocol::Unspecified
        }
    }

    /// Parses the protocol token, case-insensitively; any other input
    /// yields `Unspecified`.
    pub fn from(raw: &str) -> (r: ICEProtocol)
        ensures
            r == ICEProtocol::spec_from_str(raw@),
    {
        if str_eq_ignore_case(raw, "udp") {
            ICEProtocol::Udp
        } else if str_eq_ignore_case(raw, "tcp") {
            ICEProtocol::Tcp
        } else {
            ICEProtocol::Unspecified
        }
    }

    /// Renders the canonical token for this protocol.
    pub fn to_string(&self) -> (r: String)
        ensures
            r@ == self.spec_to_str(),
    {
        match *self {
            ICEProtocol::Udp => "udp".to_owned(),
            ICEProtocol::Tcp => "tcp".to_owned(),
            ICEProtocol::Unspecified => crate::UNSPECIFIED_STR.to_owned(),
        }
    }
}

/// Parsing the canonical rendering of any named variant gives the variant
/// back. (The rendering of `Unspecified` is the sentinel token, which is
/// not a protocol, so it parses to `Unspecified` as well.)
pub proof fn lemma_ice_protocol_string_round_trip(v: ICEProtocol)
    ensures
        ICEProtocol::spec_from_str(v.spec_to_str()) == v,
{
    reveal_strlit("udp");
    reveal_strlit("tcp");
    reveal_strlit("Unspecified");
    assert("udp"@.len() == 3);
    assert("tcp"@.len() == 3);
    assert("Unspecified"@.len() == 11);
    assert(spec_upper("udp"@)[0] == 'U');
    assert(spec_upper("tcp"@)[0] == 'T');
    assert(spec_upper("Unspecified"@).len() == 11);
}

/// ICECandidateType represents the type of an ICE candidate.
#[derive(Debug, Copy, Clone, PartialEq, Eq, Structural)]
pub enum ICECandidateType {
    Unspecified,
    /// A host candidate: an address local to the agent.
    Host,
    /// A server-reflexive candidate, learnt from a STUN server.
    Srflx,
    /// A peer-reflexive candidate, learnt from connectivity checks.
    Prflx,
    /// A relay candidate, allocated on a TURN server.
    Relay,
}

impl Default for ICECandidateType {
    fn default() -> (r: Self)
        ensures
            r == ICECandidateType::Unspecified,
    {
        ICECandidateType::Unspecified
    }
}

impl ICECandidateType {
    /// Canonical rendering of each variant; `Unspecified` renders as the
    /// process-wide sentinel token.
    pub open spec fn spec_to_str(self) -> Seq<char> {
        match self {
            ICECandidateType::Host => "host"@,
            ICECandidateType::Srflx => "srflx"@,
            ICECandidateType::Prflx => "prflx"@,
            ICECandidateType::Relay => "relay"@,
            ICECandidateType::Unspecified => "Unspecified"@,
        }
    }

    /// The variant whose canonical token is `s` exactly; any other string
    /// maps to `Unspecified`.
    pub open spec fn spec_from_str(s: Seq<char>) -> ICECandidateType {
        if s == "host"@ {
            ICECandidateType::Host
        } else if s == "srflx"@ {
            ICECandidateType::Srflx
        } else if s == "prflx"@ {
            ICECandidateType::Prflx
        } else if s == "relay"@ {
            ICECandidateType::Relay
        } else {
            ICECandidateType::Unspecified
        }
    }

    /// Parses the canonical lowercase token; any other input yields
    /// `Unspecified`.
    pub fn from(raw: &str) -> (r: ICECandidateType)
        ensures
            r == ICECandidateType::spec_from_str(raw@),
    {
        if str_eq_str(raw, "host") {
            ICECandidateType::Host
        } else if str_eq_str(raw, "srflx") {
            ICECandidateType::Srflx
        } else if str_eq_str(raw, "prflx") {
            ICECandidateType::Prflx
        } else if str_eq_str(raw, "relay") {
            ICECandidateType::Relay
        } else {
            ICECandidateType::Unspecified
        }
    }

    /// Renders the canonical token for this candidate type.
    pub fn to_string(&self) -> (r: String)
        ensures
            r@ == self.spec_to_str(),
    {
        match *self {
            ICECandidateType::Host => "host".to_owned(),
            ICECandidateType::Srflx => "srflx".to_owned(),
            ICECandidateType::Prflx => "prflx".to_owned(),
            ICECandidateType::Relay => "relay".to_owned(),
            ICECandidateType::Unspecified => crate::UNSPECIFIED_STR.to_owned(),
        }
    }
}

/// Parsing the canonical rendering of any variant gives the variant back.
pub proof fn lemma_ice_candidate_type_string_round_trip(v: ICECandidateType)
    ensures
        ICECandidateType::spec_from_str(v.spec_to_str()) == v,
{
    reveal_strlit("host");
    reveal_strlit("srflx");
    reveal_strlit("prflx");
    reveal_strlit("relay");
    reveal_strlit("Unspecified");
    assert("host"@.len() == 4);
    assert("srflx"@.len() == 5);
    assert("prflx"@.len() == 5);
    assert("relay"@.len() == 5);
    assert("Unspecified"@.len() == 11);
    assert("srflx"@[0] == 's' && "prflx"@[0] == 'p' && "relay"@[0] == 'r');
}

/// Any token outside the canonical set parses to `Unspecified`.
pub proof fn lemma_ice_candidate_type_unknown_token(s: Seq<char>)
    requires
        s != "host"@,
        s != "srflx"@,
        s != "prflx"@,
        s != "relay"@,
    ensures
        ICECandidateType::spec_from_str(s) == ICECandidateType::Unspecified,
{
}

/// ICECandidate represents an ICE candidate.
#[derive(Debug)]
pub struct ICECandidate {
    pub stats_id: String,
    pub foundation: String,
    pub priority: u32,
    pub address: String,
    pub protocol: ICEProtocol,
    pub port: u16,
    pub typ: ICECandidateType,
    pub component: u16,
    pub related_address: String,
    pub related_port: u16,
    pub tcp_type: String,
}

/// Mathematical image of an `ICECandidate`.
#[verifier::ext_equal]
pub ghost struct ICECandidateView {
    pub stats_id: Seq<char>,
    pub foundation: Seq<char>,
    pub priority: u32,
    pub address: Seq<char>,
    pub protocol: ICEProtocol,
    pub port: u16,
    pub typ: ICECandidateType,
    pub component: u16,
    pub related_address: Seq<char>,
    pub related_port: u16,
    pub tcp_type: Seq<char>,
}

impl View for ICECandidate {
    type V = ICECandidateView;

    open spec fn view(&self) -> ICECandidateView {
        ICECandidateView {
            stats_id: self.stats_id@,
            foundation: self.foundation@,
            priority: self.priority,
            address: self.address@,
            protocol: self.protocol,
            port: self.port,
            typ: self.typ,
            component: self.component,
            related_address: self.related_address@,
            related_port: self.related_port,
            tcp_type: self.tcp_type@,
        }
    }
}

impl Clone for ICECandidate {
    fn clone(&self) -> (r: Self)
        ensures
            r@ == self@,
    {
        ICECandidate {
            stats_id: self.stats_id.clone(),
            foundation: self.foundation.clone(),
            priority: self.priority,
            address: self.address.clone(),
            protocol: self.protocol,
            port: self.port,
            typ: self.typ,
            component: self.component,
            related_address: self.related_address.clone(),
            related_port: self.related_port,
            tcp_type: self.tcp_type.clone(),
        }
    }
}

impl PartialEq for ICECandidate {
    fn eq(&self, other: &ICECandidate) -> (r: bool) {
        let r = self.stats_id == other.stats_id && self.foundation == other.foundation
            && self.priority == other.priority && self.address == other.address && self.protocol
            == other.protocol && self.port == other.port && self.typ == other.typ
            && self.component == other.component && self.related_address == other.related_address
            && self.related_port == other.related_port && self.tcp_type == other.tcp_type;
        proof {
            if r {
                assert(self@ =~= other@);
            }
        }
        r
    }
}

impl vstd::std_specs::cmp::PartialEqSpecImpl for ICECandidate {
    open spec fn obeys_eq_spec() -> bool {
        true
    }

    open spec fn eq_spec(&self, other: &ICECandidate) -> bool {
        self@ == other@
    }
}

impl ICECandidate {
    /// Builds the candidate record from the plain values an external agent
    /// candidate exposes: the short network name is mapped
    /// case-insensitively to the protocol, and an absent related address
    /// becomes the empty string with port zero.
    pub fn from_agent_fields(
        id: String,
        foundation: String,
        priority: u32,
        address: String,
        network_short: &str,
        port: u16,
        component: u16,
        typ: ICECandidateType,
        tcp_type: String,
        related: Option<(String, u16)>,
    ) -> (r: ICECandidate)
        ensures
            r@.stats_id == id@,
            r@.foundation == foundation@,
            r@.priority == priority,
            r@.address == address@,
            r@.protocol == ICEProtocol::spec_from_str(network_short@),
            r@.port == port,
            r@.typ == typ,
            r@.component == component,
            r@.tcp_type == tcp_type@,
            match related {
                Some(ra) => r@.related_address == ra.0@ && r@.related_port == ra.1,
                None => r@.related_address == Seq::<char>::empty() && r@.related_port == 0,
            },
    {
        let protocol = ICEProtocol::from(network_short);
        let (related_address, related_port): (String, u16) = match related {
            Some(ra) => ra,
            None => (String::new(), 0),
        };
        ICECandidate {
            stats_id: id,
            foundation,
            priority,
            address,
            protocol,
            port,
            typ,
            component,
            related_address,
            related_port,
            tcp_type,
        }
    }

    /// Builds the constructor inputs for the external ICE agent's candidate
    /// of this record's type; a candidate of `Unspecified` type cannot be
    /// converted and fails with `ErrICECandidateTypeUnknown`.
    pub fn to_ice_plan(&self) -> (r: Result<CandidateConfigPlan, Error>)
        ensures
            self@.typ == ICECandidateType::Unspecified <==> r == Err::<
                CandidateConfigPlan,
                Error,
            >(Error::ErrICECandidateTypeUnknown),
            self@.typ != ICECandidateType::Unspecified ==> match r {
                Ok(plan) => {
                    &&& plan@.candidate_id == self@.stats_id
                    &&& plan@.network == self.protocol.spec_to_str()
                    &&& plan@.address == self@.address
                    &&& plan@.port == self@.port
                    &&& plan@.component == self@.component
                    &&& plan@.foundation == self@.foundation
                    &&& plan@.priority == self@.priority
                    &&& plan@.typ == self@.typ
                    &&& if self@.typ == ICECandidateType::Host {
                        plan@.rel_addr == Seq::<char>::empty() && plan@.rel_port == 0
                    } else {
                        plan@.rel_addr == self@.related_address && plan@.rel_port
                            == self@.related_port
                    }
                },
                Err(_) => false,
            },
    {
        match self.typ {
            ICECandidateType::Unspecified => Err(Error::ErrICECandidateTypeUnknown),
            ICECandidateType::Host => Ok(
                CandidateConfigPlan {
                    candidate_id: self.stats_id.clone(),
                    network: self.protocol.to_string(),
                    address: self.address.clone(),
                    port: self.port,
                    component: self.component,
                    foundation: self.foundation.clone(),
                    priority: self.priority,
                    typ: self.typ,
                    rel_addr: String::new(),
                    rel_port: 0,
                },
            ),
            _ => Ok(
                CandidateConfigPlan {
                    candidate_id: self.stats_id.clone(),
                    network: self.protocol.to_string(),
                    address: self.address.clone(),
                    port: self.port,
                    component: self.component,
                    foundation: self.foundation.clone(),
                    priority: self.priority,
                    typ: self.typ,
                    rel_addr: self.related_address.clone(),
                    rel_port: self.related_port,
                },
            ),
        }
    }

    /// The display form `"{protocol} {type} {address}:{port}{related}"`.
    /// The related address is concatenated without a separator; the literal
    /// format is kept for compatibility although it is ambiguous when the
    /// address carries no port.
    pub fn to_display_string(&self) -> (r: String)
        ensures
            r@ == self.protocol.spec_to_str() + seq![' '] + self.typ.spec_to_str() + seq![' ']
                + self@.address + seq![':'] + spec_dec_digits(self@.port as nat)
                + self@.related_address,
    {
        let mut out: Vec<char> = Vec::new();
        let protocol = self.protocol.to_string();
        let protocol_chars = str_to_chars(protocol.as_str());
        push_all(&mut out, &protocol_chars);
        out.push(' ');
        let typ = self.typ.to_string();
        let typ_chars = str_to_chars(typ.as_str());
        push_all(&mut out, &typ_chars);
        out.push(' ');
        let address_chars = str_to_chars(self.address.as_str());
        push_all(&mut out, &address_chars);
        out.push(':');
        let port_chars = dec_chars(self.port as u32);
        push_all(&mut out, &port_chars);
        let related_chars = str_to_chars(self.related_address.as_str());
        push_all(&mut out, &related_chars);
        proof {
            assert(out@ =~= self.protocol.spec_to_str() + seq![' '] + self.typ.spec_to_str()
                + seq![' '] + self@.address + seq![':'] + spec_dec_digits(self@.port as nat)
                + self@.related_address);
        }
        chars_to_string(&out)
    }
}

/// The constructor inputs for an external ICE agent candidate: the base
/// configuration every candidate type takes, the candidate type to build,
/// and the related address pair that the reflexive and relay types carry.
/// (The relay type's relay-client handle is the agent's to supply.)
#[derive(Debug)]
pub struct CandidateConfigPlan {
    pub candidate_id: String,
    pub network: String,
    pub address: String,
    pub port: u16,
    pub component: u16,
    pub foundation: String,
    pub priority: u32,
    pub typ: ICECandidateType,
    pub rel_addr: String,
    pub rel_port: u16,
}

/// Mathematical image of a `CandidateConfigPlan`.
#[verifier::ext_equal]
pub ghost struct CandidateConfigPlanView {
    pub candidate_id: Seq<char>,
    pub network: Seq<char>,
    pub address: Seq<char>,
    pub port: u16,
    pub component: u16,
    pub foundation: Seq<char>,
    pub priority: u32,
    pub typ: ICECandidateType,
    pub rel_addr: Seq<char>,
    pub rel_port: u16,
}

impl View for CandidateConfigPlan {
    type V = CandidateConfigPlanView;

    open spec fn view(&self) -> CandidateConfigPlanView {
        CandidateConfigPlanView {
            candidate_id: self.candidate_id@,
            network: self.network@,
            address: self.address@,
            port: self.port,
            component: self.component,
            foundation: self.foundation@,
            priority: self.priority,
            typ: self.typ,
            rel_addr: self.rel_addr@,
            rel_port: self.rel_port,
        }
    }
}

/// ICECandidateInit is the wire form used to serialize ICE candidates.
#[derive(Debug)]
pub struct ICECandidateInit {
    pub candidate: String,
    pub sdp_mid: String,
    pub sdp_mline_index: u16,
    pub username_fragment: String,
}

impl Clone for ICECandidateInit {
    fn clone(&self) -> (r: Self)
        ensures
            r.candidate@ == self.candidate@,
            r.sdp_mid@ == self.sdp_mid@,
            r.sdp_mline_index == self.sdp_mline_index,
            r.username_fragment@ == self.username_fragment@,
    {
        ICECandidateInit {
            candidate: self.candidate.clone(),
            sdp_mid: self.sdp_mid.clone(),
            sdp_mline_index: self.sdp_mline_index,
            username_fragment: self.username_fragment.clone(),
        }
    }
}

impl PartialEq for ICECandidateInit {
    fn eq(&self, other: &ICECandidateInit) -> (r: bool) {
        self.candidate == other.candidate && self.sdp_mid == other.sdp_mid
            && self.sdp_mline_index == other.sdp_mline_index && self.username_fragment
            == other.username_fragment
    }
}

impl vstd::std_specs::cmp::PartialEqSpecImpl for ICECandidateInit {
    open spec fn obeys_eq_spec() -> bool {
        true
    }

    open spec fn eq_spec(&self, other: &ICECandidateInit) -> bool {
        self.candidate@ == other.candidate@ && self.sdp_mid@ == other.sdp_mid@
            && self.sdp_mline_index == other.sdp_mline_index && self.username_fragment@
            == other.username_fragment@
    }
}

/// Builds the wire form around a candidate already marshaled to its SDP
/// attribute value: the `candidate` field is the literal prefix
/// `candidate:` followed by that value; `sdp_mid`, `sdp_mline_index` and
/// `username_fragment` are left empty for higher layers to fill in from the
/// m-section the candidate is attached to.
pub fn candidate_init_from_marshaled(marshaled: &str) -> (r: ICECandidateInit)
    ensures
        r.candidate@ == "candidate:"@ + marshaled@,
        r.sdp_mid@ == Seq::<char>::empty(),
        r.sdp_mline_index == 0,
        r.username_fragment@ == Seq::<char>::empty(),
{
    let mut candidate = String::from_str("candidate:");
    candidate.append(marshaled);
    ICECandidateInit {
        candidate,
        sdp_mid: String::new(),
        sdp_mline_index: 0,
        username_fragment: String::new(),
    }
}

} // verus!
