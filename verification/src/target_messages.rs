//! The responses that a peer sends back to an observer.

use crate::address::{address_of, dotted, lemma_dotted_identifies, Ipv4};
use crate::device_info::{
    lemma_machine_info_round_trip, lemma_machine_usage_round_trip, machine_info_document,
    machine_info_of, machine_usage_document, machine_usage_of, MachineInfo, MachineInfoView,
    MachineUsage, MachineUsageView,
};
use crate::json::{
    field, lemma_view_unfolds, member, parse, parsed_document, render, rendered,
    text_at, text_is, Json, JsonView,
};
use vstd::prelude::*;

verus! {

/// A response, told apart on the wire by its `response` field.
#[derive(Debug)]
pub enum ResponseSchema {
    /// `"spec"`: the descriptor of the machine.
    Spec(SpecResponse),
    /// `"usageOverview"`: one usage sample.
    UsageOverview(UsageOverviewResponse),
}

/// The body of a descriptor response.
#[derive(Debug)]
pub struct SpecResponse {
    pub ip: Ipv4,
    pub spec: MachineInfo,
}

/// The body of a usage response.
#[derive(Debug)]
pub struct UsageOverviewResponse {
    pub ip: Ipv4,
    pub usage: MachineUsage,
}

/// The mathematical value of a response.
pub enum ResponseView {
    Spec { ip: Ipv4, spec: MachineInfoView },
    UsageOverview { ip: Ipv4, usage: MachineUsageView },
}

impl View for ResponseSchema {
    type V = ResponseView;

    open spec fn view(&self) -> ResponseView {
        match self {
            ResponseSchema::Spec(r) => ResponseView::Spec { ip: r.ip, spec: r.spec@ },
            ResponseSchema::UsageOverview(r) => ResponseView::UsageOverview {
                ip: r.ip,
                usage: r.usage@,
            },
        }
    }
}

/// The document that stands for a response on the wire: an object whose
/// member `response` names the kind, whose member `ip` holds the dotted-quad
/// text of the machine's address, and whose member `spec` or `usage` holds
/// what the machine reports.
pub open spec fn response_document(response: ResponseView) -> JsonView {
    match response {
        ResponseView::Spec { ip, spec } => JsonView::Object(
            seq![
                ("response"@, JsonView::Text("spec"@)),
                ("ip"@, JsonView::Text(dotted(ip))),
                ("spec"@, machine_info_document(spec)),
            ],
        ),
        ResponseView::UsageOverview { ip, usage } => JsonView::Object(
            seq![
                ("response"@, JsonView::Text("usageOverview"@)),
                ("ip"@, JsonView::Text(dotted(ip))),
                ("usage"@, machine_usage_document(usage)),
            ],
        ),
    }
}

/// The address that the member `ip` of a document names.
pub open spec fn address_at(document: JsonView) -> Option<Ipv4> {
    match text_at(document, "ip"@) {
        Some(text) => address_of(text),
        None => None,
    }
}

/// The descriptor that the member `spec` of a document stands for.
pub open spec fn spec_at(document: JsonView) -> Option<MachineInfoView> {
    match field(document, "spec"@) {
        Some(inner) => machine_info_of(inner),
        None => None,
    }
}

/// The usage sample that the member `usage` of a document stands for.
pub open spec fn usage_at(document: JsonView) -> Option<MachineUsageView> {
    match field(document, "usage"@) {
        Some(inner) => machine_usage_of(inner),
        None => None,
    }
}

/// The response that a document stands for: the document is an object
/// whose member `response` reads `spec` or `usageOverview`, whose member
/// `ip` is the dotted-quad text of an address, and whose member `spec` or
/// `usage`, as the kind asks, stands for a descriptor or a usage sample.
/// Members that it holds besides are passed over.
pub open spec fn response_of(document: JsonView) -> Option<ResponseView> {
    match (text_at(document, "response"@), address_at(document)) {
        (Some(kind), Some(ip)) => if kind == "spec"@ {
            match spec_at(document) {
                Some(spec) => Some(ResponseView::Spec { ip, spec }),
                None => None,
            }
        } else if kind == "usageOverview"@ {
            match usage_at(document) {
                Some(usage) => Some(ResponseView::UsageOverview { ip, usage }),
                None => None,
            }
        } else {
            None
        },
        _ => None,
    }
}

/// The response that a text stands for: the one that its document stands
/// for, where the text is that of a JSON document.
pub open spec fn decoded_response(bytes: Seq<u8>) -> Option<ResponseView> {
    match parsed_document(bytes) {
        Some(document) => response_of(document),
        None => None,
    }
}

/// The text that stands for a response on the wire: that of its document.
pub open spec fn encoded_response(response: ResponseView) -> Seq<char> {
    rendered(response_document(response))
}

/// A response is read back from its document as it was.
pub proof fn lemma_response_round_trip(response: ResponseView)
    ensures
        response_of(response_document(response)) == Some(response),
{
    reveal_with_fuel(member, 4);
    reveal_strlit("response");
    reveal_strlit("ip");
    reveal_strlit("spec");
    reveal_strlit("usage");
    reveal_strlit("usageOverview");
    assert("response"@.len() == 8 && "ip"@.len() == 2 && "spec"@.len() == 4);
    assert("usage"@.len() == 5 && "usageOverview"@.len() == 13);
    let document = response_document(response);
    match response {
        ResponseView::Spec { ip, spec } => {
            lemma_dotted_identifies(ip, ip);
            lemma_machine_info_round_trip(spec);
            assert(text_at(document, "response"@) == Some("spec"@));
            assert(text_at(document, "ip"@) == Some(dotted(ip)));
            assert(field(document, "spec"@) == Some(machine_info_document(spec)));
        },
        ResponseView::UsageOverview { ip, usage } => {
            lemma_dotted_identifies(ip, ip);
            lemma_machine_usage_round_trip(usage);
            assert(text_at(document, "response"@) == Some("usageOverview"@));
            assert(text_at(document, "ip"@) == Some(dotted(ip)));
            assert(field(document, "usage"@) == Some(machine_usage_document(usage)));
        },
    }
}

impl ResponseSchema {
    /// The address of the machine that responds.
    pub fn ip(&self) -> (ip: Ipv4)
        ensures
            ip == match self@ {
                ResponseView::Spec { ip, spec } => ip,
                ResponseView::UsageOverview { ip, usage } => ip,
            },
    {
        match self {
            ResponseSchema::Spec(r) => r.ip,
            ResponseSchema::UsageOverview(r) => r.ip,
        }
    }

    /// The document that stands for the response.
    pub fn to_document(&self) -> (json: Json)
        ensures
            json@ == response_document(self@),
    {
        let members: Vec<(String, Json)> = match self {
            ResponseSchema::Spec(r) => vec![
                ("response".to_owned(), Json::Text("spec".to_owned())),
                ("ip".to_owned(), Json::Text(r.ip.to_text())),
                ("spec".to_owned(), r.spec.to_document()),
            ],
            ResponseSchema::UsageOverview(r) => vec![
                ("response".to_owned(), Json::Text("usageOverview".to_owned())),
                ("ip".to_owned(), Json::Text(r.ip.to_text())),
                ("usage".to_owned(), r.usage.to_document()),
            ],
        };
        let json = Json::Object(members);
        proof {
            lemma_view_unfolds(json);
            lemma_view_unfolds(members[0].1);
            lemma_view_unfolds(members[1].1);
            assert(json@->Object_0 =~= response_document(self@)->Object_0);
        }
        json
    }

    /// The response that `document` stands for, if it stands for one.
    pub fn from_document(document: &Json) -> (found: Option<ResponseSchema>)
        ensures
            match found {
                Some(response) => response_of(document@) == Some(response@),
                None => response_of(document@) is None,
            },
    {
        let kind = match document.get_text("response") {
            Some(text) => text,
            None => { return None; },
        };
        let ip = match document.get_text("ip") {
            Some(text) => match Ipv4::parse(text.as_str()) {
                Some(ip) => ip,
                None => { return None; },
            },
            None => { return None; },
        };
        if text_is(&kind, "spec") {
            match document.get("spec") {
                Some(inner) => match MachineInfo::from_document(inner) {
                    Some(spec) => Some(ResponseSchema::Spec(SpecResponse { ip, spec })),
                    None => None,
                },
                None => None,
            }
        } else if text_is(&kind, "usageOverview") {
            match document.get("usage") {
                Some(inner) => match MachineUsage::from_document(inner) {
                    Some(usage) => Some(
                        ResponseSchema::UsageOverview(UsageOverviewResponse { ip, usage }),
                    ),
                    None => None,
                },
                None => None,
            }
        } else {
            None
        }
    }

    /// The text that stands for the response on the wire.
    pub fn to_json(&self) -> (text: String)
        ensures
            text@ == encoded_response(self@),
    {
        let document = self.to_document();
        render(&document)
    }

    /// The response that `bytes` stand for; `None` where they are not the
    /// text of a JSON document, or the document stands for no response.
    pub fn from_json(bytes: &[u8]) -> (found: Option<ResponseSchema>)
        ensures
            match found {
                Some(response) => decoded_response(bytes@) == Some(response@),
                None => decoded_response(bytes@) is None,
            },
    {
        match parse(bytes) {
            Some(document) => ResponseSchema::from_document(&document),
            None => None,
        }
    }
}

impl Clone for ResponseSchema {
    fn clone(&self) -> (copy: Self)
        ensures
            copy@ == self@,
    {
        match self {
            ResponseSchema::Spec(r) => ResponseSchema::Spec(
                SpecResponse { ip: r.ip, spec: r.spec.clone() },
            ),
            ResponseSchema::UsageOverview(r) => ResponseSchema::UsageOverview(
                UsageOverviewResponse { ip: r.ip, usage: r.usage.clone() },
            ),
        }
    }
}

impl SpecResponse {
    /// The response that carries the descriptor `spec` of the machine at
    /// `ip`.
    pub fn spec_response(ip: Ipv4, spec: MachineInfo) -> (response: ResponseSchema)
        ensures
            response@ == (ResponseView::Spec { ip, spec: spec@ }),
    {
        ResponseSchema::Spec(SpecResponse { ip, spec })
    }
}

impl UsageOverviewResponse {
    /// The response that carries the sample `usage` of the machine at `ip`.
    pub fn usage_overview_response(ip: Ipv4, usage: MachineUsage) -> (response: ResponseSchema)
        ensures
            response@ == (ResponseView::UsageOverview { ip, usage: usage@ }),
    {
        ResponseSchema::UsageOverview(UsageOverviewResponse { ip, usage })
    }
}

impl SpecResponse {
    /// The text of the response that carries the descriptor `spec` of the
    /// machine at `ip`.
    pub fn spec_response_json(ip: Ipv4, spec: MachineInfo) -> (text: String)
        ensures
            text@ == encoded_response(ResponseView::Spec { ip, spec: spec@ }),
    {
        SpecResponse::spec_response(ip, spec).to_json()
    }
}

impl UsageOverviewResponse {
    /// The text of the response that carries the sample `usage` of the
    /// machine at `ip`.
    pub fn usage_overview_response_json(ip: Ipv4, usage: MachineUsage) -> (text: String)
        ensures
            text@ == encoded_response(ResponseView::UsageOverview { ip, usage: usage@ }),
    {
        UsageOverviewResponse::usage_overview_response(ip, usage).to_json()
    }
}

} // verus!
