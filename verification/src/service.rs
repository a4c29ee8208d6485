//! The HTTP side of the proxy: where a request goes, what goes there, and what comes back.

use crate::headers::{
    append_field, ascii_text, header_get, header_remove, header_values, is_field_name,
    is_token_char, is_visible, law_field_names, law_visible_values_read_as_text, Fields,
};
use crate::request::{
    backend_head, backend_request, crowded, forwarded, is_method, law_every_other_field_goes_on,
    law_no_fault_is_made_up, law_sound_request_has_a_head, parse_uri, request_contents, text_view,
    uri_parse, visible_values, with_host, Built, UriParts, UriView,
};
use http::header::{HeaderMap, HeaderValue};
use http::{Request, Response};
use vstd::prelude::*;
use vstd::utf8::encode_utf8;

verus! {

/// Whether a request may name its backend.
#[derive(Debug, Clone, Copy, PartialEq, Eq, Structural)]
pub enum Routing {
    /// The `x-backend` field of a request names its backend.
    Dynamic,
    /// Every request goes to the configured backend.
    Fixed,
}

/// Forwards the requests of one HTTP or gRPC listener.
#[derive(Debug, Clone)]
pub struct ProxyService {
    /// The backend of a request that names none.
    pub default_backend: String,
    /// Whether a request may name one.
    pub routing: Routing,
}

/// Status of an answer that the proxy gives by itself.
#[derive(Debug, Clone, Copy, PartialEq, Eq, Structural)]
pub enum Status {
    /// The request cannot be forwarded.
    BadRequest,
    /// The backend did not answer.
    BadGateway,
}

/// An answer that the proxy gives by itself.
#[derive(Debug, Clone)]
pub struct Reply {
    /// What the client is told.
    pub status: Status,
    /// The text of the body.
    pub body: String,
}

/// `http::Response`, opaque: with a text for its body its contents are `response_contents`.
#[verifier::external_type_specification]
#[verifier::external_body]
#[verifier::reject_recursive_types(T)]
pub struct ExResponse<T>(Response<T>);

/// A response as plain data. The version is written as in a status line.
pub struct ResponseView {
    pub version: Seq<char>,
    pub status: u16,
    pub fields: Fields,
    pub body: Seq<char>,
}

/// Version, status, header fields and body of a response.
pub uninterp spec fn response_contents(response: Response<String>) -> ResponseView;

/// Builds a response with `Response::builder`, `Builder::status` and `Builder::body`: it has the
/// status and the body that are given, version 1.1 of HTTP, and no header field. Every status of
/// three digits is accepted.
#[verifier::external_body]
fn build_response(status: u16, body: String) -> (response: Response<String>)
    requires
        100 <= status <= 999,
    ensures
        response_contents(response) == (ResponseView {
            version: "HTTP/1.1"@,
            status,
            fields: Map::empty(),
            body: body@,
        }),
{
    Response::builder().status(status).body(body).unwrap()
}

/// The backend that the fields of a request name: the first `x-backend` value, if it is visible.
pub open spec fn named_backend(fields: Fields) -> Option<Seq<char>> {
    if fields.contains_key("x-backend"@) && is_visible(fields["x-backend"@][0]) {
        Some(ascii_text(fields["x-backend"@][0]))
    } else {
        None
    }
}

/// The address under which the backend gets the request: path and query are kept, and `/` stands
/// for a missing path.
pub open spec fn backend_uri(backend: Seq<char>, path_and_query: Option<Seq<char>>) -> Seq<char> {
    "http://"@ + backend + match path_and_query {
        Some(text) => text,
        None => "/"@,
    }
}

impl Status {
    /// The status code.
    pub open spec fn number(self) -> u16 {
        match self {
            Status::BadRequest => 400,
            Status::BadGateway => 502,
        }
    }

    /// The status code.
    pub fn code(self) -> (code: u16)
        ensures
            code == self.number(),
            self is BadRequest ==> code == 400,
            self is BadGateway ==> code == 502,
    {
        match self {
            Status::BadRequest => 400,
            Status::BadGateway => 502,
        }
    }
}

impl Reply {
    /// The answer to a request that cannot be forwarded, for the given reason.
    pub open spec fn is_bad_request(self, reason: Seq<char>) -> bool {
        self.status == Status::BadRequest && self.body@ == "Bad request: "@ + reason
    }

    /// The answer to a request that the backend did not answer, for the given reason.
    pub open spec fn is_bad_gateway(self, reason: Seq<char>) -> bool {
        self.status == Status::BadGateway && self.body@ == "Bad gateway: "@ + reason
    }

    /// Answers that the request cannot be forwarded.
    pub fn bad_request(reason: &str) -> (reply: Reply)
        ensures
            reply.is_bad_request(reason@),
            reply.status == Status::BadRequest,
            reply.body@ == "Bad request: "@ + reason@,
    {
        let mut body = "Bad request: ".to_owned();
        body.append(reason);
        Reply { status: Status::BadRequest, body }
    }

    /// Answers that the backend did not answer.
    pub fn bad_gateway(reason: &str) -> (reply: Reply)
        ensures
            reply.is_bad_gateway(reason@),
            reply.status == Status::BadGateway,
            reply.body@ == "Bad gateway: "@ + reason@,
    {
        let mut body = "Bad gateway: ".to_owned();
        body.append(reason);
        Reply { status: Status::BadGateway, body }
    }

    /// The response that carries this answer to the client.
    pub fn into_response(self) -> (response: Response<String>)
        ensures
            response_contents(response) == (ResponseView {
                version: "HTTP/1.1"@,
                status: self.status.number(),
                fields: Map::empty(),
                body: self.body@,
            }),
            self.status is BadRequest ==> response_contents(response).status == 400,
            self.status is BadGateway ==> response_contents(response).status == 502,
    {
        build_response(self.status.code(), self.body)
    }
}

/// A borrowed optional text as plain data.
pub open spec fn str_view(text: Option<&str>) -> Option<Seq<char>> {
    match text {
        Some(s) => Some(s@),
        None => None,
    }
}

/// Path and query of a URI.
fn path_of(parts: &UriParts) -> (path_and_query: Option<&str>)
    ensures
        str_view(path_and_query) == text_view(parts.path_and_query),
{
    match &parts.path_and_query {
        Some(text) => Some(text.as_str()),
        None => None,
    }
}

impl ProxyService {
    /// The backend of a request with these fields.
    pub open spec fn backend_of(self, fields: Fields) -> Seq<char> {
        match (self.routing, named_backend(fields)) {
            (Routing::Dynamic, Some(backend)) => backend,
            _ => self.default_backend@,
        }
    }

    /// The head under which a request goes to its backend, or what stops it.
    pub open spec fn head_for(
        self,
        method: Seq<char>,
        path_and_query: Option<Seq<char>>,
        fields: Fields,
    ) -> Built {
        backend_head(method, backend_uri(self.backend_of(fields), path_and_query), fields)
    }

    /// `outcome` is what becomes of a request: it goes to the backend under the head for it, or
    /// the client is told why not. The address of a backend has a host. A request with very many
    /// names may also fail for its size, and none goes on with more than a header map can hold.
    pub open spec fn forwards(
        self,
        method: Seq<char>,
        path_and_query: Option<Seq<char>>,
        fields: Fields,
        outcome: Result<Request<()>, Reply>,
    ) -> bool {
        let head = self.head_for(method, path_and_query, fields);
        match outcome {
            Ok(request) => {
                &&& head == Built::Head(request_contents(request))
                &&& request_contents(request).fields.dom().len() <= 24576
                &&& request_contents(request).uri.host is Some
            },
            Err(reply) => {
                ||| head matches Built::Failed(reason) && reply.is_bad_request(reason)
                ||| {
                    &&& crowded(forwarded(fields))
                    &&& is_method(method)
                    &&& uri_parse(backend_uri(self.backend_of(fields), path_and_query)) is Ok
                    &&& reply.is_bad_request("max size reached"@)
                }
            },
        }
    }

    /// A service whose requests may name their backend, with `default_backend` for the others.
    pub fn new(default_backend: String) -> (service: ProxyService)
        ensures
            service.default_backend == default_backend,
            service.routing == Routing::Dynamic,
    {
        ProxyService { default_backend, routing: Routing::Dynamic }
    }

    /// A service that sends every request to `backend`.
    pub fn fixed(backend: String) -> (service: ProxyService)
        ensures
            service.default_backend == backend,
            service.routing == Routing::Fixed,
    {
        ProxyService { default_backend: backend, routing: Routing::Fixed }
    }

    /// The backend that a request with these headers names, if it may name one.
    pub fn requested_backend(&self, headers: &HeaderMap<HeaderValue>) -> (backend: Option<String>)
        ensures
            text_view(backend) == match self.routing {
                Routing::Dynamic => named_backend(header_values(*headers)),
                Routing::Fixed => None,
            },
    {
        if self.routing == Routing::Dynamic {
            proof {
                reveal_strlit("x-backend");
            }
            if let Some(value) = header_get(headers, "x-backend") {
                if let Ok(text) = value.to_str() {
                    return Some(text.to_owned());
                }
            }
        }
        None
    }

    /// The backend of a request with these headers.
    pub fn extract_backend(&self, headers: &HeaderMap<HeaderValue>) -> (backend: String)
        ensures
            backend@ == self.backend_of(header_values(*headers)),
    {
        match self.requested_backend(headers) {
            Some(backend) => backend,
            None => self.default_backend.clone(),
        }
    }

    /// The address at which the backend of a request gets it.
    pub fn backend_address(
        &self,
        path_and_query: Option<&str>,
        headers: &HeaderMap<HeaderValue>,
    ) -> (address: String)
        ensures
            address@ == backend_uri(
                self.backend_of(header_values(*headers)),
                str_view(path_and_query),
            ),
    {
        let backend = self.extract_backend(headers);
        let mut address = "http://".to_owned();
        address.append(backend.as_str());
        match path_and_query {
            Some(text) => address.append(text),
            None => address.append("/"),
        }
        address
    }

    /// The address at which the backend of a request for the URI `uri` gets it. There is none if
    /// `uri` is no URI.
    pub fn route(&self, uri: &str, headers: &HeaderMap<HeaderValue>) -> (address: Option<String>)
        ensures
            match uri_parse(uri@) {
                Ok(parsed) => address matches Some(text) && text@ == backend_uri(
                    self.backend_of(header_values(*headers)),
                    parsed.path_and_query,
                ),
                Err(_) => address is None,
            },
    {
        match parse_uri(uri) {
            Ok(parts) => Some(self.backend_address(path_of(&parts), headers)),
            Err(_) => None,
        }
    }

    /// Decides what becomes of a request for this path and query.
    pub fn forward(
        &self,
        method: &str,
        path_and_query: Option<&str>,
        headers: HeaderMap<HeaderValue>,
    ) -> (outcome: Result<Request<()>, Reply>)
        ensures
            self.forwards(method@, str_view(path_and_query), header_values(headers), outcome),
    {
        let mut headers = headers;
        let ghost fields = header_values(headers);
        let uri = self.backend_address(path_and_query, &headers);
        proof {
            reveal_strlit("x-backend");
            law_routing_field_stays_behind(fields);
            assert("http://"@.is_prefix_of(uri@));
        }
        header_remove(&mut headers, "x-backend");
        match backend_request(method, uri.as_str(), &headers) {
            Ok(request) => Ok(request),
            Err(message) => Err(Reply::bad_request(message.as_str())),
        }
    }

    /// Decides what becomes of a request for the URI `uri`. There is no outcome if `uri` is no
    /// URI.
    pub fn call(&self, method: &str, uri: &str, headers: HeaderMap<HeaderValue>) -> (outcome:
        Option<Result<Request<()>, Reply>>)
        ensures
            match uri_parse(uri@) {
                Ok(parsed) => outcome matches Some(decided) && self.forwards(
                    method@,
                    parsed.path_and_query,
                    header_values(headers),
                    decided,
                ),
                Err(_) => outcome is None,
            },
    {
        match parse_uri(uri) {
            Ok(parts) => Some(self.forward(method, path_of(&parts), headers)),
            Err(_) => None,
        }
    }

    /// What the client gets once the backend was asked: its response as it is, or the news that
    /// it gave none.
    pub fn conclude<T>(answer: Result<T, String>) -> (outcome: Result<T, Reply>)
        ensures
            match answer {
                Ok(response) => outcome == Ok::<T, Reply>(response),
                Err(reason) => outcome matches Err(reply) && {
                    &&& reply.is_bad_gateway(reason@)
                    &&& reply.status == Status::BadGateway
                    &&& reply.body@ == "Bad gateway: "@ + reason@
                },
            },
    {
        match answer {
            Ok(response) => Ok(response),
            Err(reason) => Err(Reply::bad_gateway(reason.as_str())),
        }
    }
}

/// The fields that go on to the backend are the same with and without the field that names it.
pub proof fn law_routing_field_stays_behind(fields: Fields)
    ensures
        !forwarded(fields).contains_key("x-backend"@),
        forwarded(fields.remove("x-backend"@)) == forwarded(fields),
{
    assert(forwarded(fields.remove("x-backend"@)) =~= forwarded(fields));
}

/// A request that names a backend goes to it, if requests may do so.
pub proof fn law_named_backend_gets_the_request(service: ProxyService, fields: Fields)
    requires
        service.routing is Dynamic,
        fields.contains_key("x-backend"@),
        is_visible(fields["x-backend"@][0]),
    ensures
        service.backend_of(fields) == ascii_text(fields["x-backend"@][0]),
{
}

/// A request that does not name a backend goes to the default one.
pub proof fn law_default_backend_gets_the_rest(service: ProxyService, fields: Fields)
    requires
        !fields.contains_key("x-backend"@) || !is_visible(fields["x-backend"@][0]),
    ensures
        service.backend_of(fields) == service.default_backend@,
{
}

/// The field that names the backend never reaches a backend.
pub proof fn law_proxy_field_never_leaves(
    service: ProxyService,
    method: Seq<char>,
    path_and_query: Option<Seq<char>>,
    fields: Fields,
    request: Request<()>,
)
    requires
        service.forwards(method, path_and_query, fields, Ok(request)),
    ensures
        !request_contents(request).fields.contains_key("x-backend"@),
{
    reveal_strlit("host");
    reveal_strlit("x-backend");
    assert("host"@.len() != "x-backend"@.len());
}

/// A request goes on in version 1.1 of HTTP with its method, with its path and query at the
/// address of its backend, and with the visible values of its fields. No field is added but the
/// host.
pub proof fn law_request_is_kept(
    service: ProxyService,
    method: Seq<char>,
    path_and_query: Option<Seq<char>>,
    fields: Fields,
    request: Request<()>,
    name: Seq<char>,
)
    requires
        service.forwards(method, path_and_query, fields, Ok(request)),
        name != "host"@,
        name != "x-backend"@,
    ensures
        ({
            let sent = request_contents(request);
            let visible = fields[name].filter(
                |value: Seq<u8>|
                    forall|k: int|
                        0 <= k < value.len() ==> (#[trigger] value[k] == 9 || 32 <= value[k]
                            <= 126),
            );
            &&& sent.method == method
            &&& sent.version == "HTTP/1.1"@
            &&& uri_parse(backend_uri(service.backend_of(fields), path_and_query)) == Ok::<
                UriView,
                Seq<char>,
            >(sent.uri)
            &&& sent.fields.contains_key(name) <==> fields.contains_key(name) && visible.len() > 0
            &&& sent.fields.contains_key(name) ==> sent.fields[name] == visible
            &&& sent.fields.dom().len() <= 24576
        }),
{
    let uri = backend_uri(service.backend_of(fields), path_and_query);
    law_every_other_field_goes_on(method, uri, fields, name);
}

/// The host field of every request that goes on names its backend: it is host and port of the
/// address that the request goes to, whatever host the client sent.
pub proof fn law_host_names_the_backend(
    service: ProxyService,
    method: Seq<char>,
    path_and_query: Option<Seq<char>>,
    fields: Fields,
    request: Request<()>,
)
    requires
        service.forwards(method, path_and_query, fields, Ok(request)),
    ensures
        ({
            let sent = request_contents(request);
            &&& sent.uri.authority() is Some
            &&& sent.fields.contains_key("host"@)
            &&& sent.fields["host"@] == seq![encode_utf8(sent.uri.authority()->0)]
        }),
{
}

/// The address of a request at its backend ends in the path and query that the client sent.
pub proof fn law_path_and_query_are_kept(backend: Seq<char>, path_and_query: Seq<char>)
    ensures
        backend_uri(backend, Some(path_and_query)).take(7int + backend.len()) == "http://"@ + backend,
        backend_uri(backend, Some(path_and_query)).skip(7int + backend.len()) == path_and_query,
{
    reveal_strlit("http://");
    let uri = backend_uri(backend, Some(path_and_query));
    assert(uri.take(7int + backend.len()) =~= "http://"@ + backend);
    assert(uri.skip(7int + backend.len()) =~= path_and_query);
}

/// Two requests that differ in nothing but the field that names the backend go on with the same
/// fields, but for the host that goes with their address; a service with a fixed backend does not tell them apart at all.
pub proof fn law_proxy_field_moves_the_address_only(
    service: ProxyService,
    method: Seq<char>,
    path_and_query: Option<Seq<char>>,
    fields: Fields,
    others: Fields,
)
    requires
        fields.remove("x-backend"@) == others.remove("x-backend"@),
    ensures
        forwarded(fields) == forwarded(others),
        service.backend_of(fields) == service.backend_of(others) || service.routing is Fixed
            ==> service.head_for(method, path_and_query, fields) == service.head_for(
            method,
            path_and_query,
            others,
        ),
{
    law_routing_field_stays_behind(fields);
    law_routing_field_stays_behind(others);
}

proof fn lemma_visible_values_again(values: Seq<Seq<u8>>)
    ensures
        visible_values(visible_values(values)) == visible_values(values),
    decreases values.len(),
{
    reveal(Seq::filter);
    if values.len() > 0 {
        lemma_visible_values_again(values.drop_last());
        let rest = visible_values(values.drop_last());
        if is_visible(values.last()) {
            assert(rest.push(values.last()).drop_last() =~= rest);
        }
    }
}

/// The fields of a request that was forwarded once are forwarded as they are the next time, but
/// for the host: a chain of proxies takes no more away than one.
pub proof fn law_forwarding_again_takes_nothing(fields: Fields, host: Option<Seq<char>>)
    ensures
        forwarded(with_host(forwarded(fields), host)) == forwarded(fields),
{
    let once = forwarded(fields);
    let twice = forwarded(with_host(once, host));
    assert forall|name: Seq<char>| #[trigger] once.contains_key(name) implies twice.contains_key(
        name,
    ) && twice[name] == once[name] by {
        lemma_visible_values_again(fields[name]);
    }
    assert(twice =~= once);
}

/// A request that does not go on is answered as a bad request, with the reason in the body.
pub proof fn law_refused_request_is_told_why(
    service: ProxyService,
    method: Seq<char>,
    path_and_query: Option<Seq<char>>,
    fields: Fields,
    reply: Reply,
)
    requires
        service.forwards(method, path_and_query, fields, Err(reply)),
    ensures
        reply.status == Status::BadRequest,
        exists|reason: Seq<char>| reply.body@ == #[trigger] ("Bad request: "@ + reason),
{
}

/// What becomes of a request with fewer than 6554 forwarded names is decided by the request:
/// either it goes on under the one head for it, or the client is told the one reason why not.
pub proof fn law_outcome_is_decided(
    service: ProxyService,
    method: Seq<char>,
    path_and_query: Option<Seq<char>>,
    fields: Fields,
    outcome: Result<Request<()>, Reply>,
)
    requires
        service.forwards(method, path_and_query, fields, outcome),
        forwarded(fields).dom().len() < 6554,
    ensures
        match service.head_for(method, path_and_query, fields) {
            Built::Head(head) => outcome matches Ok(request) && request_contents(request) == head,
            Built::Failed(reason) => outcome matches Err(reply) && reply.is_bad_request(reason),
        },
{
}

/// A request whose head would have more names than a header map can hold does not go on, and the
/// client is told so.
pub proof fn law_oversized_request_is_refused(
    service: ProxyService,
    method: Seq<char>,
    path_and_query: Option<Seq<char>>,
    fields: Fields,
    outcome: Result<Request<()>, Reply>,
)
    requires
        service.forwards(method, path_and_query, fields, outcome),
        service.head_for(method, path_and_query, fields) matches Built::Head(head)
            && head.fields.dom().len() > 24576,
    ensures
        outcome matches Err(reply) && reply.is_bad_request("max size reached"@),
{
}

/// To name a backend in a request does what it does to have it as the default backend, whatever
/// the default was: both may have the same outcomes.
pub proof fn law_naming_is_like_a_default(
    service: ProxyService,
    default_service: ProxyService,
    method: Seq<char>,
    path_and_query: Option<Seq<char>>,
    fields: Fields,
    backend: Seq<u8>,
    outcome: Result<Request<()>, Reply>,
)
    requires
        service.routing is Dynamic,
        is_visible(backend),
        default_service.default_backend@ == ascii_text(backend),
        !fields.contains_key("x-backend"@),
    ensures
        ({
            let naming = append_field(fields, "x-backend"@, backend);
            &&& service.head_for(method, path_and_query, naming) == default_service.head_for(
                method,
                path_and_query,
                fields,
            )
            &&& service.forwards(method, path_and_query, naming, outcome)
                <==> default_service.forwards(method, path_and_query, fields, outcome)
        }),
{
    let naming = append_field(fields, "x-backend"@, backend);
    law_routing_field_stays_behind(naming);
    assert(naming.remove("x-backend"@) =~= fields);
}

/// The outcome of a request that names its backend is the outcome that it has without the name
/// where that backend is the default, whatever the default was: the same head goes on, or the
/// client is told the same. Only a request with 6554 or more forwarded names may be refused for
/// its size in one case and not in the other.
pub proof fn law_naming_has_the_outcome_of_a_default(
    service: ProxyService,
    default_service: ProxyService,
    method: Seq<char>,
    path_and_query: Option<Seq<char>>,
    fields: Fields,
    backend: Seq<u8>,
    outcome: Result<Request<()>, Reply>,
    default_outcome: Result<Request<()>, Reply>,
)
    requires
        service.routing is Dynamic,
        is_visible(backend),
        default_service.default_backend@ == ascii_text(backend),
        !fields.contains_key("x-backend"@),
        service.forwards(
            method,
            path_and_query,
            append_field(fields, "x-backend"@, backend),
            outcome,
        ),
        default_service.forwards(method, path_and_query, fields, default_outcome),
    ensures
        match (outcome, default_outcome) {
            (Ok(sent), Ok(default_sent)) => request_contents(sent) == request_contents(
                default_sent,
            ),
            (Err(reply), Err(default_reply)) => {
                &&& reply.status == default_reply.status
                &&& reply.body@ == default_reply.body@ || forwarded(fields).dom().len() >= 6554
            },
            (Err(reply), Ok(_)) | (Ok(_), Err(reply)) => {
                &&& reply.is_bad_request("max size reached"@)
                &&& forwarded(fields).dom().len() >= 6554
            },
        },
{
    law_naming_is_like_a_default(
        service,
        default_service,
        method,
        path_and_query,
        fields,
        backend,
        outcome,
    );
}

/// The answers that the proxy gives by itself have the status codes of a bad request and of a bad
/// gateway.
pub proof fn law_status_codes()
    ensures
        Status::BadRequest.number() == 400,
        Status::BadGateway.number() == 502,
{
}

/// Whatever the reason, a client whose request cannot be forwarded is told that the request is
/// bad, and why.
pub proof fn law_bad_request_says_so(reply: Reply, reason: Seq<char>)
    ensures
        reply.is_bad_request(reason) <==> reply.status == Status::BadRequest && reply.body@
            == "Bad request: "@ + reason,
{
}

/// Whatever the reason, a client whose backend did not answer is told that the gateway is bad,
/// and why: that is never put down to the client's request.
pub proof fn law_unreachable_backend_is_a_bad_gateway(reply: Reply, reason: Seq<char>)
    ensures
        reply.is_bad_gateway(reason) <==> reply.status == Status::BadGateway && reply.body@
            == "Bad gateway: "@ + reason,
        reply.is_bad_gateway(reason) ==> reply.status.number() == 502,
{
}

/// A borrowed optional text stands for what it holds.
pub proof fn law_borrowed_text_is_taken_as_it_is(text: &str)
    ensures
        str_view(Some(text)) == Some(text@),
        str_view(None) is None,
{
}

/// The backend of a request is the default one, unless the service lets requests name theirs and
/// the first value of `x-backend` is there and visible: then it is that value, character for
/// character.
pub proof fn law_backend_of_a_request(service: ProxyService, fields: Fields)
    ensures
        ({
            let value = fields["x-backend"@][0];
            let named = service.routing is Dynamic && fields.contains_key("x-backend"@) && forall|
                k: int,
            |
                0 <= k < value.len() ==> (#[trigger] value[k] == 9 || 32 <= value[k] <= 126);
            &&& named ==> service.backend_of(fields) == Seq::new(
                value.len(),
                |k: int| value[k] as char,
            )
            &&& !named ==> service.backend_of(fields) == service.default_backend@
        }),
{
    let value = fields["x-backend"@][0];
    law_visible_values_read_as_text(value);
    assert(ascii_text(value) =~= Seq::new(value.len(), |k: int| value[k] as char));
}

/// The backend that a request names is the first value of `x-backend`, if it is visible.
pub proof fn law_named_backend(fields: Fields)
    ensures
        ({
            let value = fields["x-backend"@][0];
            let named = fields.contains_key("x-backend"@) && forall|k: int|
                0 <= k < value.len() ==> (#[trigger] value[k] == 9 || 32 <= value[k] <= 126);
            named_backend(fields) == if named {
                Some(Seq::new(value.len(), |k: int| value[k] as char))
            } else {
                None
            }
        }),
{
    let value = fields["x-backend"@][0];
    law_visible_values_read_as_text(value);
    assert(ascii_text(value) =~= Seq::new(value.len(), |k: int| value[k] as char));
}

/// A request goes to its backend by HTTP, with the path and query that the client sent, and to
/// the root if it sent none.
pub proof fn law_address_of_a_request(backend: Seq<char>, path_and_query: Option<Seq<char>>)
    ensures
        path_and_query matches Some(text) ==> backend_uri(backend, path_and_query) == "http://"@
            + backend + text,
        path_and_query is None ==> backend_uri(backend, path_and_query) == "http://"@ + backend
            + "/"@,
{
}

/// A request must go on if its method is one or more token characters, its backend's address is a
/// URI, each name that has something to hand on is a header name, and there are fewer than 6554
/// of those. It is refused for no other cause.
pub proof fn law_sound_request_goes_on(
    service: ProxyService,
    method: Seq<char>,
    path_and_query: Option<Seq<char>>,
    fields: Fields,
    outcome: Result<Request<()>, Reply>,
)
    requires
        service.forwards(method, path_and_query, fields, outcome),
        method.len() > 0,
        forall|i: int| 0 <= i < method.len() ==> is_token_char(#[trigger] method[i]),
        ({
            let target = match path_and_query {
                Some(text) => text,
                None => "/"@,
            };
            uri_parse("http://"@ + service.backend_of(fields) + target) is Ok
        }),
        forall|name: Seq<char>| #[trigger]
            fields.contains_key(name) && name != "host"@ && name != "x-backend"@
                && visible_values(fields[name]).len() > 0 ==> {
                &&& 0 < name.len() <= 65535
                &&& forall|i: int|
                    0 <= i < name.len() ==> is_token_char(#[trigger] name[i]) && !('A' <= name[i]
                        <= 'Z')
            },
        fields.dom().filter(
            |name: Seq<char>|
                name != "host"@ && name != "x-backend"@ && visible_values(fields[name]).len() > 0,
        ).len() < 6554,
    ensures
        outcome is Ok,
{
    let uri = backend_uri(service.backend_of(fields), path_and_query);
    law_sound_request_has_a_head(method, uri, fields);
    assert(forwarded(fields).dom() =~= fields.dom().filter(
        |name: Seq<char>|
            name != "host"@ && name != "x-backend"@ && visible_values(fields[name]).len() > 0,
    ));
}

/// A request that goes on has a method of one or more token characters, an address that is a URI,
/// and only header names to hand on.
pub proof fn law_only_sound_requests_go_on(
    service: ProxyService,
    method: Seq<char>,
    path_and_query: Option<Seq<char>>,
    fields: Fields,
    request: Request<()>,
    name: Seq<char>,
)
    requires
        service.forwards(method, path_and_query, fields, Ok(request)),
    ensures
        method.len() > 0,
        forall|i: int| 0 <= i < method.len() ==> is_token_char(#[trigger] method[i]),
        request_contents(request).fields.contains_key(name) && name != "host"@ ==> {
            &&& 0 < name.len() <= 65535
            &&& forall|i: int|
                0 <= i < name.len() ==> is_token_char(#[trigger] name[i]) && !('A' <= name[i]
                    <= 'Z')
        },
{
    law_field_names(name);
}

/// A request is refused for a fault that it has: its method, its address, a name, or, from 6554
/// names that are handed on, its size. The body of the answer tells which.
pub proof fn law_refused_only_for_a_cause(
    service: ProxyService,
    method: Seq<char>,
    path_and_query: Option<Seq<char>>,
    fields: Fields,
    reply: Reply,
)
    requires
        service.forwards(method, path_and_query, fields, Err(reply)),
    ensures
        reply.status == Status::BadRequest,
        ({
            let target = match path_and_query {
                Some(text) => text,
                None => "/"@,
            };
            let parsed = uri_parse("http://"@ + service.backend_of(fields) + target);
            let good_method = method.len() > 0 && forall|i: int|
                0 <= i < method.len() ==> is_token_char(#[trigger] method[i]);
            let handed_on = fields.dom().filter(
                |name: Seq<char>|
                    name != "host"@ && name != "x-backend"@ && visible_values(fields[name]).len()
                        > 0,
            );
            if !good_method {
                reply.body@ == "Bad request: "@ + "invalid HTTP method"@
            } else {
                match parsed {
                    Err(reason) => reply.body@ == "Bad request: "@ + reason,
                    Ok(_) => {
                        ||| {
                            &&& reply.body@ == "Bad request: "@ + "invalid HTTP header name"@
                            &&& exists|name: Seq<char>| {
                                &&& #[trigger] handed_on.contains(name)
                                &&& !(0 < name.len() <= 65535 && forall|i: int|
                                    0 <= i < name.len() ==> is_token_char(#[trigger] name[i]) && !(
                                    'A' <= name[i] <= 'Z'))
                            }
                        }
                        ||| {
                            &&& reply.body@ == "Bad request: "@ + "max size reached"@
                            &&& handed_on.len() >= 6554
                        }
                    },
                }
            }
        }),
{
    let uri = backend_uri(service.backend_of(fields), path_and_query);
    let handed_on = fields.dom().filter(
        |name: Seq<char>|
            name != "host"@ && name != "x-backend"@ && visible_values(fields[name]).len() > 0,
    );
    assert(forwarded(fields).dom() =~= handed_on);
    if backend_head(method, uri, fields) is Failed {
        law_no_fault_is_made_up(method, uri, fields);
        if is_method(method) && uri_parse(uri) is Ok {
            let name = choose|name: Seq<char>| #[trigger]
                forwarded(fields).contains_key(name) && !is_field_name(name);
            law_field_names(name);
            assert(handed_on.contains(name));
        }
    }
}

} // verus!
