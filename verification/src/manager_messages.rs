//! The requests that an observer sends to its peers.

use crate::json::{
    lemma_view_unfolds, member, parse, parsed_document, render, rendered, text_at,
    text_is, Json, JsonView,
};
use vstd::prelude::*;

verus! {

/// A request, told apart on the wire by its `request` field.
#[derive(Debug)]
pub enum ManagerRequestSchema {
    /// `"spec"`: asks for the descriptor of the machine.
    Spec(SpecRequest),
    /// `"usageOverview"`: asks for a usage sample.
    UsageOverview(UsageOverviewRequest),
}

/// The body of a descriptor request.
#[derive(Debug)]
pub struct SpecRequest {
    pub sender_ip: String,
}

/// The body of a usage request.
#[derive(Debug)]
pub struct UsageOverviewRequest {
    pub sender_ip: String,
}

/// The mathematical value of a request: its kind and the sender's address
/// as written.
pub enum RequestView {
    Spec { sender_ip: Seq<char> },
    UsageOverview { sender_ip: Seq<char> },
}

impl View for ManagerRequestSchema {
    type V = RequestView;

    open spec fn view(&self) -> RequestView {
        match self {
            ManagerRequestSchema::Spec(r) => RequestView::Spec { sender_ip: r.sender_ip@ },
            ManagerRequestSchema::UsageOverview(r) => RequestView::UsageOverview {
                sender_ip: r.sender_ip@,
            },
        }
    }
}

impl Clone for ManagerRequestSchema {
    fn clone(&self) -> (copy: Self)
        ensures
            copy@ == self@,
    {
        match self {
            ManagerRequestSchema::Spec(r) => ManagerRequestSchema::Spec(
                SpecRequest { sender_ip: r.sender_ip.clone() },
            ),
            ManagerRequestSchema::UsageOverview(r) => ManagerRequestSchema::UsageOverview(
                UsageOverviewRequest { sender_ip: r.sender_ip.clone() },
            ),
        }
    }
}

/// The document that stands for a request on the wire: an object whose
/// member `request` names the kind and whose member `senderIp` holds the
/// sender's address.
pub open spec fn request_document(request: RequestView) -> JsonView {
    match request {
        RequestView::Spec { sender_ip } => JsonView::Object(
            seq![("request"@, JsonView::Text("spec"@)), ("senderIp"@, JsonView::Text(sender_ip))],
        ),
        RequestView::UsageOverview { sender_ip } => JsonView::Object(
            seq![
                ("request"@, JsonView::Text("usageOverview"@)),
                ("senderIp"@, JsonView::Text(sender_ip)),
            ],
        ),
    }
}

/// The request that a document stands for: the document is an object whose
/// member `request` reads `spec` or `usageOverview` and whose member
/// `senderIp` holds a text. Members that it holds besides are passed over.
pub open spec fn request_of(document: JsonView) -> Option<RequestView> {
    match (text_at(document, "request"@), text_at(document, "senderIp"@)) {
        (Some(kind), Some(sender_ip)) => if kind == "spec"@ {
            Some(RequestView::Spec { sender_ip })
        } else if kind == "usageOverview"@ {
            Some(RequestView::UsageOverview { sender_ip })
        } else {
            None
        },
        _ => None,
    }
}

/// The request that a text stands for: the one that its document stands
/// for, where the text is that of a JSON document.
pub open spec fn decoded_request(bytes: Seq<u8>) -> Option<RequestView> {
    match parsed_document(bytes) {
        Some(document) => request_of(document),
        None => None,
    }
}

/// The text that stands for a request on the wire: that of its document.
pub open spec fn encoded_request(request: RequestView) -> Seq<char> {
    rendered(request_document(request))
}

/// A request is read back from its document as it was.
pub proof fn lemma_request_round_trip(request: RequestView)
    ensures
        request_of(request_document(request)) == Some(request),
{
    reveal_with_fuel(member, 3);
    reveal_strlit("request");
    reveal_strlit("senderIp");
    reveal_strlit("spec");
    reveal_strlit("usageOverview");
    assert("request"@.len() == 7 && "senderIp"@.len() == 8);
    assert("spec"@.len() == 4 && "usageOverview"@.len() == 13);
    let document = request_document(request);
    assert(text_at(document, "senderIp"@) is Some);
    assert(text_at(document, "request"@) is Some);
}

impl ManagerRequestSchema {
    /// The address that the request is signed with.
    pub fn sender_ip(&self) -> (sender_ip: &String)
        ensures
            sender_ip@ == match self@ {
                RequestView::Spec { sender_ip } => sender_ip,
                RequestView::UsageOverview { sender_ip } => sender_ip,
            },
    {
        match self {
            ManagerRequestSchema::Spec(r) => &r.sender_ip,
            ManagerRequestSchema::UsageOverview(r) => &r.sender_ip,
        }
    }

    /// The document that stands for the request.
    pub fn to_document(&self) -> (json: Json)
        ensures
            json@ == request_document(self@),
    {
        let kind = match self {
            ManagerRequestSchema::Spec(_) => "spec",
            ManagerRequestSchema::UsageOverview(_) => "usageOverview",
        };
        let members: Vec<(String, Json)> = vec![
            ("request".to_owned(), Json::Text(kind.to_owned())),
            ("senderIp".to_owned(), Json::Text(self.sender_ip().clone())),
        ];
        let json = Json::Object(members);
        proof {
            lemma_view_unfolds(json);
            lemma_view_unfolds(members[0].1);
            lemma_view_unfolds(members[1].1);
            assert(json@->Object_0 =~= request_document(self@)->Object_0);
        }
        json
    }

    /// The request that `document` stands for, if it stands for one.
    pub fn from_document(document: &Json) -> (found: Option<ManagerRequestSchema>)
        ensures
            match found {
                Some(request) => request_of(document@) == Some(request@),
                None => request_of(document@) is None,
            },
    {
        let kind = match document.get_text("request") {
            Some(text) => text,
            None => { return None; },
        };
        let sender_ip = match document.get_text("senderIp") {
            Some(text) => text,
            None => { return None; },
        };
        if text_is(&kind, "spec") {
            Some(ManagerRequestSchema::Spec(SpecRequest { sender_ip }))
        } else if text_is(&kind, "usageOverview") {
            Some(ManagerRequestSchema::UsageOverview(UsageOverviewRequest { sender_ip }))
        } else {
            None
        }
    }

    /// The text that stands for the request on the wire.
    pub fn to_json(&self) -> (text: String)
        ensures
            text@ == encoded_request(self@),
    {
        let document = self.to_document();
        render(&document)
    }

    /// The request that `bytes` stand for; `None` where they are not the
    /// text of a JSON document, or the document stands for no request.
    pub fn from_json(bytes: &[u8]) -> (found: Option<ManagerRequestSchema>)
        ensures
            match found {
                Some(request) => decoded_request(bytes@) == Some(request@),
                None => decoded_request(bytes@) is None,
            },
    {
        match parse(bytes) {
            Some(document) => ManagerRequestSchema::from_document(&document),
            None => None,
        }
    }
}

/// The source of an observer's requests: it signs each with its own
/// address.
pub struct ManagerRequest {
    ip: String,
}

impl View for ManagerRequest {
    type V = Seq<char>;

    closed spec fn view(&self) -> Seq<char> {
        self.ip@
    }
}

impl ManagerRequest {
    /// The source of requests signed with `ip`.
    pub fn new(ip: String) -> (request: Self)
        ensures
            request@ == ip@,
    {
        Self { ip }
    }

    /// The address that the requests are signed with.
    pub fn ip(&self) -> (ip: &String)
        ensures
            ip@ == self@,
    {
        &self.ip
    }

    /// A descriptor request signed with this observer's address.
    pub fn spec_request(&self) -> (request: ManagerRequestSchema)
        ensures
            request@ == (RequestView::Spec { sender_ip: self@ }),
    {
        ManagerRequestSchema::Spec(SpecRequest { sender_ip: self.ip.clone() })
    }

    /// A usage request signed with this observer's address.
    pub fn usage_overview_request(&self) -> (request: ManagerRequestSchema)
        ensures
            request@ == (RequestView::UsageOverview { sender_ip: self@ }),
    {
        ManagerRequestSchema::UsageOverview(UsageOverviewRequest { sender_ip: self.ip.clone() })
    }

    /// The text of a descriptor request signed with this observer's
    /// address.
    pub fn spec_request_json(&self) -> (text: String)
        ensures
            text@ == encoded_request(RequestView::Spec { sender_ip: self@ }),
    {
        self.spec_request().to_json()
    }

    /// The text of a usage request signed with this observer's address.
    pub fn usage_overview_request_json(&self) -> (text: String)
        ensures
            text@ == encoded_request(RequestView::UsageOverview { sender_ip: self@ }),
    {
        self.usage_overview_request().to_json()
    }
}

} // verus!
