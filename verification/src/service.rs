//! The decisions behind the MCP surface of the Actions layer: which methods
//! exist, what an `assess` request reads, and what `pack` builds without a
//! model.

use vstd::prelude::*;

use crate::brief::{packet_of_brief, packet_from_brief, PlanBrief};
use crate::maturity::{
    assess_with, is_mature_under, lemma_ready_iff_mature, missing_fields_under, FujinStrictness,
    Maturity,
};
use crate::packet::{ActionPacket, LinkedItem};
use crate::text::{same_text, string_views};

verus! {

/// The methods the MCP surface dispatches.
#[derive(Clone, Copy, Debug, PartialEq, Eq, Structural)]
pub enum Method {
    /// `fujin.pack`: build and persist an Action Packet.
    Pack,
    /// `fujin.list`: list persisted packets.
    List,
    /// `fujin.list_packets`: alias of `fujin.list`.
    ListPackets,
    /// `fujin.get`: read one persisted packet.
    Get,
    /// `fujin.get_packet`: alias of `fujin.get`.
    GetPacket,
    /// `fujin.assess`: run the maturity gate.
    Assess,
}

/// The wire name of a method.
pub open spec fn method_name(m: Method) -> Seq<char> {
    match m {
        Method::Pack => "fujin.pack"@,
        Method::List => "fujin.list"@,
        Method::ListPackets => "fujin.list_packets"@,
        Method::Get => "fujin.get"@,
        Method::GetPacket => "fujin.get_packet"@,
        Method::Assess => "fujin.assess"@,
    }
}

/// The wire name of a method.
pub fn method_wire_name(m: Method) -> (r: &'static str)
    ensures
        r@ == method_name(m),
{
    match m {
        Method::Pack => "fujin.pack",
        Method::List => "fujin.list",
        Method::ListPackets => "fujin.list_packets",
        Method::Get => "fujin.get",
        Method::GetPacket => "fujin.get_packet",
        Method::Assess => "fujin.assess",
    }
}

/// `s` with its first `from` replaced by `to` (unchanged when `s` holds
/// no `from`).
pub open spec fn replace_first(s: Seq<char>, from: char, to: char) -> Seq<char>
    decreases s.len(),
{
    if s.len() == 0 {
        s
    } else if s[0] == from {
        seq![to] + s.skip(1)
    } else {
        seq![s[0]] + replace_first(s.skip(1), from, to)
    }
}

/// The tool name under which a method is listed in the catalogue: its wire
/// name with the first `.` replaced by `_`; replacing that `_` back by `.`
/// gives the wire name again, so every listed tool is dispatchable.
#[verifier::spinoff_prover]
#[verifier::rlimit(40)]
pub fn tool_name(m: Method) -> (r: &'static str)
    ensures
        r@ == replace_first(method_name(m), '.', '_'),
        replace_first(r@, '_', '.') == method_name(m),
{
    proof {
        reveal_with_fuel(replace_first, 7);
    }
    match m {
        Method::Pack => {
            proof {
                reveal_strlit("fujin.pack");
                reveal_strlit("fujin_pack");
            }
            "fujin_pack"
        },
        Method::List => {
            proof {
                reveal_strlit("fujin.list");
                reveal_strlit("fujin_list");
            }
            "fujin_list"
        },
        Method::ListPackets => {
            proof {
                reveal_strlit("fujin.list_packets");
                reveal_strlit("fujin_list_packets");
            }
            "fujin_list_packets"
        },
        Method::Get => {
            proof {
                reveal_strlit("fujin.get");
                reveal_strlit("fujin_get");
            }
            "fujin_get"
        },
        Method::GetPacket => {
            proof {
                reveal_strlit("fujin.get_packet");
                reveal_strlit("fujin_get_packet");
            }
            "fujin_get_packet"
        },
        Method::Assess => {
            proof {
                reveal_strlit("fujin.assess");
                reveal_strlit("fujin_assess");
            }
            "fujin_assess"
        },
    }
}

/// Every method, in catalogue order.
pub open spec fn method_list() -> Seq<Method> {
    seq![
        Method::Pack,
        Method::Assess,
        Method::List,
        Method::ListPackets,
        Method::Get,
        Method::GetPacket,
    ]
}

/// Every method, in catalogue order, each exactly once.
pub fn all_methods() -> (r: Vec<Method>)
    ensures
        r@ == method_list(),
        forall|m: Method| #[trigger] r@.contains(m),
        forall|i: int, j: int| 0 <= i < j < r@.len() ==> r@[i] != r@[j],
{
    let mut r: Vec<Method> = Vec::new();
    r.push(Method::Pack);
    r.push(Method::Assess);
    r.push(Method::List);
    r.push(Method::ListPackets);
    r.push(Method::Get);
    r.push(Method::GetPacket);
    assert(r@ =~= method_list());
    assert forall|m: Method| #[trigger] r@.contains(m) by {
        match m {
            Method::Pack => assert(r@[0] == m),
            Method::Assess => assert(r@[1] == m),
            Method::List => assert(r@[2] == m),
            Method::ListPackets => assert(r@[3] == m),
            Method::Get => assert(r@[4] == m),
            Method::GetPacket => assert(r@[5] == m),
        }
    }
    r
}

/// The method with the given wire name, if there is one; an unknown name
/// is answered `unknown_method`.
pub fn method_from_name(name: &str) -> (r: Option<Method>)
    ensures
        r matches Some(m) ==> method_name(m) == name@,
        r is None ==> forall|m: Method| method_name(m) != name@,
{
    if same_text(name, "fujin.pack") {
        Some(Method::Pack)
    } else if same_text(name, "fujin.list") {
        Some(Method::List)
    } else if same_text(name, "fujin.list_packets") {
        Some(Method::ListPackets)
    } else if same_text(name, "fujin.get") {
        Some(Method::Get)
    } else if same_text(name, "fujin.get_packet") {
        Some(Method::GetPacket)
    } else if same_text(name, "fujin.assess") {
        Some(Method::Assess)
    } else {
        assert forall|m: Method| method_name(m) != name@ by {
            match m {
                Method::Pack => {},
                Method::List => {},
                Method::ListPackets => {},
                Method::Get => {},
                Method::GetPacket => {},
                Method::Assess => {},
            }
        }
        None
    }
}

/// The number of packets `list` returns when the request names no limit.
pub fn default_limit() -> (r: i64)
    ensures
        r == 100,
{
    100
}

/// Where an `assess` request takes its packet from.
#[derive(Clone, Copy, Debug, PartialEq, Eq, Structural)]
pub enum AssessSource {
    /// The packet in the request body.
    Body,
    /// The packet persisted under the request's id.
    Stored,
    /// Neither was given: the request is `invalid_params`.
    Neither,
}

/// The packet in the body wins over the id; with neither the request is
/// invalid.
pub fn assess_source(has_body: bool, has_id: bool) -> (r: AssessSource)
    ensures
        r == (if has_body {
            AssessSource::Body
        } else if has_id {
            AssessSource::Stored
        } else {
            AssessSource::Neither
        }),
{
    if has_body {
        AssessSource::Body
    } else if has_id {
        AssessSource::Stored
    } else {
        AssessSource::Neither
    }
}

/// The strictness the service judges under, in `fujin.assess` and on the
/// model path of `fujin.pack`: soft strictness, where the provenance trio
/// is valid-or-empty.
pub open spec fn service_strictness() -> FujinStrictness {
    FujinStrictness::Soft
}

/// The strictness the service judges under.
pub fn service_strictness_level() -> (r: FujinStrictness)
    ensures
        r == service_strictness(),
{
    FujinStrictness::Soft
}

/// The answer of `assess`: whether the packet is ready under the service's
/// strictness, and the failing fields (empty when it is ready).
pub fn assess_reply(packet: &ActionPacket) -> (r: (bool, Vec<String>))
    ensures
        r.0 == is_mature_under(*packet, service_strictness()),
        string_views(r.1@) == missing_fields_under(*packet, service_strictness()),
{
    let strictness = service_strictness_level();
    let verdict = assess_with(packet, strictness);
    proof {
        lemma_ready_iff_mature(*packet, strictness, verdict);
    }
    match verdict {
        Maturity::Ready => {
            let none: Vec<String> = Vec::new();
            assert(string_views(none@) =~= missing_fields_under(*packet, strictness));
            (true, none)
        },
        Maturity::NotReady { missing } => (false, missing),
    }
}

/// The packet `pack` builds without a model: the brief's mapping when a
/// brief is given, else an empty packet linked to the source decision.
pub fn packet_without_model(source_ref: &str, brief: Option<PlanBrief>) -> (r: ActionPacket)
    ensures
        brief matches Some(b) ==> packet_of_brief(b, r),
        brief is None ==> {
            &&& r.linked_decisions@.len() == 1
            &&& r.linked_decisions@[0].id@ == source_ref@
            &&& r.linked_decisions@[0].label@ == source_ref@
            &&& r.goal@.len() == 0
            &&& r.context@.len() == 0
            &&& r.do_items@.len() == 0
            &&& r.why@.len() == 0
            &&& r.do_not@.len() == 0
            &&& r.completion_criteria@.len() == 0
            &&& r.constraints@.len() == 0
            &&& r.risks@.len() == 0
            &&& r.dependencies@.len() == 0
            &&& r.required_documents@.len() == 0
            &&& r.linked_knowledge@.len() == 0
            &&& r.linked_rejected@.len() == 0
            &&& r.expected_artifacts@.len() == 0
            &&& r.before_start@.len() == 0
            &&& r.before_complete@.len() == 0
            &&& r.target_files.spec_is_empty()
            &&& r.conflict_policy is None
            &&& r.required_checks@.len() == 0
            &&& r.reviewer_profile is None
        },
{
    match brief {
        Some(brief) => packet_from_brief(&brief),
        None => {
            let mut packet = ActionPacket::empty();
            let mut links: Vec<LinkedItem> = Vec::new();
            links.push(
                LinkedItem { id: String::from_str(source_ref), label: String::from_str(source_ref) },
            );
            packet.linked_decisions = links;
            packet
        },
    }
}

} // verus!
