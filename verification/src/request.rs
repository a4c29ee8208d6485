//! The request that goes to a backend, built with `http::request::Builder`.
//!
//! What a builder holds is modelled as the request so far, or the message of the first error.

use crate::headers::{
    append_field, collect_fields, entries_view, header_entries, header_values, is_field_name,
    is_stored_name, is_token_char, is_visible, is_visible_byte, law_field_names,
    law_visible_values_read_as_text, lemma_append_field_names, lemma_collect_fields_finite,
    lemma_visible_round_trip, value_bytes, Fields,
};
use http::header::{HeaderMap, HeaderValue};
use http::request::Builder;
use http::Request;
use vstd::prelude::*;
use vstd::utf8::encode_utf8;

verus! {

/// `http::request::Builder`, opaque: its contents are `builder_contents`.
#[verifier::external_type_specification]
#[verifier::external_body]
pub struct ExBuilder(Builder);

/// `http::Request`, opaque: without a body its contents are `request_contents`.
#[verifier::external_type_specification]
#[verifier::external_body]
#[verifier::reject_recursive_types(T)]
pub struct ExRequest<T>(Request<T>);

/// A URI as plain data: its text in the form in which it is displayed, its path and query if it
/// has a path, its host if it has an authority, and its port if the authority has one.
pub struct UriView {
    pub text: Seq<char>,
    pub path_and_query: Option<Seq<char>>,
    pub host: Option<Seq<char>>,
    pub port: Option<Seq<char>>,
}

impl UriView {
    /// Host and port, without a user.
    pub open spec fn authority(self) -> Option<Seq<char>> {
        match (self.host, self.port) {
            (Some(host), Some(port)) => Some(host + ":"@ + port),
            (host, _) => host,
        }
    }
}

/// The head of a request as plain data. The version is written as in a request line.
pub struct RequestView {
    pub version: Seq<char>,
    pub method: Seq<char>,
    pub uri: UriView,
    pub fields: Fields,
}

/// What came of building a request: its head, or the message of the first error.
pub enum Built {
    Head(RequestView),
    Failed(Seq<char>),
}

/// What of a URI the proxy reads.
#[derive(Debug, Clone)]
pub struct UriParts {
    /// Path and query as they were sent, if the URI has a path.
    pub path_and_query: Option<String>,
    /// Host without user and port, if the URI has an authority.
    pub host: Option<String>,
    /// Port, if the authority has one.
    pub port: Option<String>,
}

/// An optional text as plain data.
pub open spec fn text_view(text: Option<String>) -> Option<Seq<char>> {
    match text {
        Some(s) => Some(s@),
        None => None,
    }
}

/// The URI that a text denotes, or the message of the error that it gives.
pub uninterp spec fn uri_parse(text: Seq<char>) -> Result<UriView, Seq<char>>;

/// What a request builder holds: the head so far, or the message of the first error.
pub uninterp spec fn builder_contents(builder: Builder) -> Built;

/// The head of a request.
pub uninterp spec fn request_contents(request: Request<()>) -> RequestView;

/// A request method: one or more token characters.
pub open spec fn is_method(method: Seq<char>) -> bool {
    &&& method.len() > 0
    &&& forall|i: int| 0 <= i < method.len() ==> is_token_char(#[trigger] method[i])
}

/// A text that can be a header value: no control character but the tab.
pub open spec fn is_value_text(text: Seq<char>) -> bool {
    forall|i: int|
        0 <= i < text.len() ==> ((#[trigger] text[i] >= ' ' && text[i] != '\u{7f}') || text[i]
            == '\t')
}

/// A header map with so many names that appending to it can fail.
pub open spec fn crowded(fields: Fields) -> bool {
    fields.dom().len() >= 6554
}

/// A header map with so many names that appending to it does fail.
pub open spec fn full(fields: Fields) -> bool {
    fields.dom().len() >= 24576
}

/// What `header` makes of a builder's contents while the map has room.
pub open spec fn header_added(before: Built, name: Seq<char>, value: Seq<char>) -> Built {
    match before {
        Built::Failed(reason) => Built::Failed(reason),
        Built::Head(view) => if !is_field_name(name) {
            Built::Failed("invalid HTTP header name"@)
        } else if !is_value_text(value) {
            Built::Failed("failed to parse header value"@)
        } else {
            Built::Head(
                RequestView { fields: append_field(view.fields, name, encode_utf8(value)), ..view },
            )
        },
    }
}

/// Parses `text` with `Uri::from_str` and reads out `Uri::path_and_query`, `Uri::host` and
/// `Uri::port`. An error is handed out as it is displayed. An authority is made of visible
/// characters, so host and port can stand in a header value. A URI with the scheme `http` has an
/// authority.
#[verifier::external_body]
pub(crate) fn parse_uri(text: &str) -> (parsed: Result<UriParts, String>)
    ensures
        match uri_parse(text@) {
            Ok(uri) => parsed matches Ok(parts) && {
                &&& text_view(parts.path_and_query) == uri.path_and_query
                &&& text_view(parts.host) == uri.host
                &&& text_view(parts.port) == uri.port
            },
            Err(reason) => parsed matches Err(message) && message@ == reason,
        },
        parsed matches Ok(parts) ==> (parts.host matches Some(host) ==> is_value_text(host@)),
        parsed matches Ok(parts) ==> (parts.port matches Some(port) ==> is_value_text(port@)),
        "http://"@.is_prefix_of(text@) ==> (parsed matches Ok(parts) ==> parts.host is Some),
{
    match text.parse::<http::Uri>() {
        Ok(uri) => Ok(UriParts {
            path_and_query: uri.path_and_query().map(|pq| pq.as_str().to_string()),
            host: uri.host().map(|host| host.to_string()),
            port: uri.port().map(|port| port.as_str().to_string()),
        }),
        Err(error) => Err(error.to_string()),
    }
}

/// The head that a new builder holds.
pub open spec fn initial_head() -> RequestView {
    RequestView {
        version: "HTTP/1.1"@,
        method: "GET"@,
        uri: UriView { text: "/"@, path_and_query: Some("/"@), host: None, port: None },
        fields: Map::empty(),
    }
}

/// Calls `Request::builder`: a `GET` of `/` in version 1.1 of HTTP, without header fields.
#[verifier::external_body]
fn request_builder() -> (builder: Builder)
    ensures
        builder_contents(builder) == Built::Head(initial_head()),
{
    Request::builder()
}

/// Calls `Builder::method`: sets the method, or fails if the text is no method. An error that is
/// there already stays.
#[verifier::external_body]
fn builder_method(builder: Builder, method: &str) -> (set: Builder)
    ensures
        builder_contents(set) == match builder_contents(builder) {
            Built::Failed(reason) => Built::Failed(reason),
            Built::Head(view) => if is_method(method@) {
                Built::Head(RequestView { method: method@, ..view })
            } else {
                Built::Failed("invalid HTTP method"@)
            },
        },
{
    builder.method(method)
}

/// Calls `Builder::uri`: sets the URI that the text denotes, or fails with the error that the
/// text gives. An error that is there already stays.
#[verifier::external_body]
fn builder_uri(builder: Builder, uri: &str) -> (set: Builder)
    ensures
        builder_contents(set) == match builder_contents(builder) {
            Built::Failed(reason) => Built::Failed(reason),
            Built::Head(view) => match uri_parse(uri@) {
                Ok(parsed) => Built::Head(RequestView { uri: parsed, ..view }),
                Err(reason) => Built::Failed(reason),
            },
        },
{
    builder.uri(uri)
}

/// Calls `Builder::header`: appends a field, or fails if the name or the value is none. An error
/// that is there already stays. The table behind the map cannot grow without end: appending never
/// fails for that reason while the map is not crowded, and always does when it is full. What
/// happens in between depends on how the names hash and is left open here.
#[verifier::external_body]
fn builder_header(builder: Builder, name: &str, value: &str) -> (set: Builder)
    requires
        is_stored_name(name@),
    ensures
        ({
            let before = builder_contents(builder);
            let added = header_added(before, name@, value@);
            ||| builder_contents(set) == added
            ||| {
                &&& added is Head
                &&& crowded(before->Head_0.fields)
                &&& builder_contents(set) == Built::Failed("max size reached"@)
            }
        }),
        header_added(builder_contents(builder), name@, value@) is Head && full(
            builder_contents(builder)->Head_0.fields,
        ) ==> builder_contents(set) == Built::Failed("max size reached"@),
{
    builder.header(name, value)
}

/// Calls `Builder::body`: the request that the builder holds, or its error as it is displayed.
#[verifier::external_body]
fn builder_body(builder: Builder) -> (built: Result<Request<()>, String>)
    ensures
        match builder_contents(builder) {
            Built::Head(view) => built matches Ok(request) && request_contents(request) == view,
            Built::Failed(reason) => built matches Err(message) && message@ == reason,
        },
{
    builder.body(()).map_err(|error| error.to_string())
}

/// A name under which a field may go on to the backend. `host` is set anew, and `x-backend`
/// speaks to the proxy alone.
pub open spec fn is_forwarded_name(name: Seq<char>) -> bool {
    name != "host"@ && name != "x-backend"@
}

/// The visible ones among `values`, in their order.
pub open spec fn visible_values(values: Seq<Seq<u8>>) -> Seq<Seq<u8>> {
    values.filter(|value: Seq<u8>| is_visible(value))
}

/// The fields that go on to the backend: those under a forwarded name, each with its visible
/// values. A name without a visible value does not occur.
pub open spec fn forwarded(fields: Fields) -> Fields {
    Map::new(
        |name: Seq<char>|
            fields.contains_key(name) && is_forwarded_name(name) && visible_values(
                fields[name],
            ).len() > 0,
        |name: Seq<char>| visible_values(fields[name]),
    )
}

/// `fields` with the host as one more field, if there is one.
pub open spec fn with_host(fields: Fields, host: Option<Seq<char>>) -> Fields {
    match host {
        Some(text) => append_field(fields, "host"@, encode_utf8(text)),
        None => fields,
    }
}

/// A builder that has been given `method`, `uri` and `fields`, in this order.
pub open spec fn filled(method: Seq<char>, uri: Seq<char>, fields: Fields) -> Built {
    if !is_method(method) {
        Built::Failed("invalid HTTP method"@)
    } else {
        match uri_parse(uri) {
            Err(reason) => Built::Failed(reason),
            Ok(parsed) => if exists|name: Seq<char>| #[trigger]
                fields.contains_key(name) && !is_field_name(name) {
                Built::Failed("invalid HTTP header name"@)
            } else {
                Built::Head(RequestView { version: "HTTP/1.1"@, method, uri: parsed, fields })
            },
        }
    }
}

/// The head of the request for the backend at `uri`, or the message of the error that stops it.
/// Its host field names the backend.
pub open spec fn backend_head(method: Seq<char>, uri: Seq<char>, fields: Fields) -> Built {
    match filled(method, uri, forwarded(fields)) {
        Built::Failed(reason) => Built::Failed(reason),
        Built::Head(view) => Built::Head(
            RequestView { fields: with_host(view.fields, view.uri.authority()), ..view },
        ),
    }
}

/// Appending a value and forwarding can change places: what is appended goes on exactly when its
/// name is forwarded and its bytes are visible.
pub proof fn lemma_forwarded_append(fields: Fields, name: Seq<char>, value: Seq<u8>)
    ensures
        forwarded(append_field(fields, name, value)) == if is_forwarded_name(name) && is_visible(
            value,
        ) {
            append_field(forwarded(fields), name, value)
        } else {
            forwarded(fields)
        },
{
    reveal(Seq::filter);
    let all = append_field(fields, name, value);
    let old_values = if fields.contains_key(name) {
        fields[name]
    } else {
        Seq::empty()
    };
    assert(old_values.push(value).drop_last() =~= old_values);
    assert(seq![value] =~= Seq::<Seq<u8>>::empty().push(value));
    assert(all[name] =~= old_values.push(value));
    assert(visible_values(old_values.push(value)) == if is_visible(value) {
        visible_values(old_values).push(value)
    } else {
        visible_values(old_values)
    });
    assert(visible_values(Seq::empty()) =~= Seq::empty());
    let expected = if is_forwarded_name(name) && is_visible(value) {
        append_field(forwarded(fields), name, value)
    } else {
        forwarded(fields)
    };
    if is_forwarded_name(name) && is_visible(value) && !forwarded(fields).contains_key(name) {
        assert(visible_values(old_values) =~= Seq::empty());
        assert(forwarded(all)[name] =~= seq![value]);
    }
    assert(forwarded(all) =~= expected);
}

/// A builder that gets one more field is a builder that was given one more field.
proof fn lemma_filled_append(
    method: Seq<char>,
    uri: Seq<char>,
    fields: Fields,
    name: Seq<char>,
    value: Seq<char>,
)
    requires
        is_value_text(value),
    ensures
        header_added(filled(method, uri, fields), name, value) == filled(
            method,
            uri,
            append_field(fields, name, encode_utf8(value)),
        ),
{
    let more = append_field(fields, name, encode_utf8(value));
    assert(more.contains_key(name));
    assert forall|n: Seq<char>| fields.contains_key(n) implies #[trigger] more.contains_key(n) by {}
    assert forall|n: Seq<char>| #[trigger] more.contains_key(n) && n != name implies
        fields.contains_key(n) by {}
    if exists|n: Seq<char>| #[trigger] fields.contains_key(n) && !is_field_name(n) {
        let n = choose|n: Seq<char>| #[trigger] fields.contains_key(n) && !is_field_name(n);
        assert(more.contains_key(n));
    }
}

/// Forwarding yields no name that was not there.
proof fn lemma_forwarded_names(fields: Fields)
    ensures
        forwarded(fields).dom().subset_of(fields.dom()),
{
}

/// Host and port of a URI, as a host field names them.
fn host_and_port(parts: &UriParts) -> (named: Option<String>)
    requires
        parts.host matches Some(host) ==> is_value_text(host@),
        parts.port matches Some(port) ==> is_value_text(port@),
    ensures
        match (parts.host, parts.port) {
            (Some(host), Some(port)) => named matches Some(text) && text@ == host@ + ":"@ + port@,
            (Some(host), None) => named matches Some(text) && text@ == host@,
            (None, _) => named is None,
        },
        named matches Some(text) ==> is_value_text(text@),
{
    match &parts.host {
        Some(host) => {
            let mut text = host.clone();
            if let Some(port) = &parts.port {
                text.append(":");
                text.append(port.as_str());
                proof {
                    reveal_strlit(":");
                }
            }
            Some(text)
        },
        None => None,
    }
}

/// Builds the request for the backend: `method` and `uri` as they are, the fields that are
/// forwarded, and a host field that names host and port of `uri`.
pub fn backend_request(method: &str, uri: &str, headers: &HeaderMap<HeaderValue>) -> (built: Result<
    Request<()>,
    String,
>)
    ensures
        ({
            let fields = header_values(*headers);
            match built {
                Ok(request) => {
                    &&& backend_head(method@, uri@, fields) == Built::Head(
                        request_contents(request),
                    )
                    &&& request_contents(request).fields.dom().len() <= 24576
                    &&& "http://"@.is_prefix_of(uri@) ==> request_contents(request).uri.host is Some
                },
                Err(message) => {
                    ||| backend_head(method@, uri@, fields) == Built::Failed(message@)
                    ||| {
                        &&& crowded(forwarded(fields))
                        &&& is_method(method@)
                        &&& uri_parse(uri@) is Ok
                        &&& message@ == "max size reached"@
                    }
                },
            }
        }),
{
    let mut builder = builder_uri(builder_method(request_builder(), method), uri);
    let entries = header_entries(headers);
    let host_name = "host".to_owned();
    let proxy_name = "x-backend".to_owned();
    let ghost listed = entries_view(entries@);
    let mut i: usize = 0;
    proof {
        assert(listed.take(0) =~= Seq::empty());
        assert(forwarded(Map::empty()) =~= Map::<Seq<char>, Seq<Seq<u8>>>::empty());
    }
    while i < entries.len()
        invariant
            0 <= i <= entries@.len(),
            listed == entries_view(entries@),
            host_name@ == "host"@,
            proxy_name@ == "x-backend"@,
            forall|j: int| 0 <= j < entries@.len() ==> is_stored_name((#[trigger] entries@[j]).0@),
            ({
                let sent = forwarded(collect_fields(listed.take(i as int)));
                ||| {
                    &&& builder_contents(builder) == filled(method@, uri@, sent)
                    &&& builder_contents(builder) is Head ==> sent.dom().len() <= 24576
                }
                ||| {
                    &&& crowded(sent)
                    &&& is_method(method@)
                    &&& uri_parse(uri@) is Ok
                    &&& builder_contents(builder) == Built::Failed("max size reached"@)
                }
            }),
        decreases entries@.len() - i,
    {
        let ghost before = collect_fields(listed.take(i as int));
        let (name, value) = &entries[i];
        proof {
            let prefix = listed.take(i + 1);
            assert(prefix.drop_last() =~= listed.take(i as int));
            assert(prefix.last() == (name@, value_bytes(*value)));
            lemma_forwarded_append(before, name@, value_bytes(*value));
        }
        if *name != host_name && *name != proxy_name {
            if let Ok(text) = value.to_str() {
                proof {
                    lemma_visible_round_trip(value_bytes(*value));
                    assert forall|j: int| 0 <= j < text@.len() implies (#[trigger] text@[j] >= ' '
                        && text@[j] != '\u{7f}') || text@[j] == '\t' by {
                        assert(is_visible_byte(value_bytes(*value)[j]));
                    }
                    lemma_filled_append(method@, uri@, forwarded(before), name@, text@);
                    lemma_append_field_names(forwarded(before), name@, value_bytes(*value));
                    lemma_collect_fields_finite(listed.take(i as int));
                    lemma_forwarded_names(before);
                    vstd::set_lib::lemma_len_subset(forwarded(before).dom(), before.dom());
                    vstd::set_lib::lemma_len_subset(
                        forwarded(before).dom(),
                        forwarded(before).dom().insert(name@),
                    );
                }
                builder = builder_header(builder, name.as_str(), text);
            }
        }
        i = i + 1;
    }
    proof {
        assert(listed.take(listed.len() as int) =~= listed);
        reveal_strlit("host");
        let fields = header_values(*headers);
        lemma_collect_fields_finite(listed);
        lemma_forwarded_names(fields);
        vstd::set_lib::lemma_len_subset(forwarded(fields).dom(), fields.dom());
    }
    if let Ok(parts) = parse_uri(uri) {
        if let Some(text) = host_and_port(&parts) {
            proof {
                lemma_append_field_names(
                    forwarded(header_values(*headers)),
                    "host"@,
                    encode_utf8(text@),
                );
            }
            builder = builder_header(builder, "host", text.as_str());
        }
    }
    builder_body(builder)
}

/// An optional text stands for what it holds.
pub proof fn law_text_is_taken_as_it_is(text: String)
    ensures
        text_view(Some(text)) == Some(text@),
        text_view(None) is None,
{
}

/// The host field of a URI with a port is host, colon and port; without a port it is the host;
/// and without a host there is none.
pub proof fn law_authority_is_host_and_port(uri: UriView)
    ensures
        match uri.authority() {
            Some(named) => uri.host matches Some(host) && match uri.port {
                Some(port) => named == host + seq![':'] + port,
                None => named == host,
            },
            None => uri.host is None,
        },
{
    reveal_strlit(":");
    assert(":"@ =~= seq![':']);
}

/// Of the values of a field those go on whose bytes all print in ASCII or are tabs. They stay in
/// their order.
pub proof fn law_visible_values_stay_in_order(values: Seq<Seq<u8>>)
    ensures
        visible_values(values) == values.filter(
            |value: Seq<u8>|
                forall|k: int|
                    0 <= k < value.len() ==> (#[trigger] value[k] == 9 || 32 <= value[k] <= 126),
        ),
{
    let printed = |value: Seq<u8>|
        forall|k: int| 0 <= k < value.len() ==> (#[trigger] value[k] == 9 || 32 <= value[k] <= 126);
    let visible = |value: Seq<u8>| is_visible(value);
    assert forall|value: Seq<u8>| #[trigger] printed(value) == visible(value) by {
        law_visible_values_read_as_text(value);
    }
    assert(printed =~= visible);
}

/// No request is held back for its method, its address or its fields if the method is one or more
/// token characters, the address is a URI, and each name that has something to hand on is a
/// header name. The request for the backend then has this method and this address, in version 1.1
/// of HTTP.
pub proof fn law_sound_request_has_a_head(method: Seq<char>, uri: Seq<char>, fields: Fields)
    requires
        method.len() > 0,
        forall|i: int| 0 <= i < method.len() ==> is_token_char(#[trigger] method[i]),
        uri_parse(uri) is Ok,
        forall|name: Seq<char>| #[trigger]
            fields.contains_key(name) && name != "host"@ && name != "x-backend"@
                && visible_values(fields[name]).len() > 0 ==> {
                &&& 0 < name.len() <= 65535
                &&& forall|i: int|
                    0 <= i < name.len() ==> is_token_char(#[trigger] name[i]) && !('A' <= name[i]
                        <= 'Z')
            },
    ensures
        backend_head(method, uri, fields) matches Built::Head(head) && {
            &&& head.method == method
            &&& head.version == "HTTP/1.1"@
            &&& uri_parse(uri) matches Ok(parsed) && head.uri == parsed
        },
{
    assert forall|name: Seq<char>| #[trigger] forwarded(fields).contains_key(name) implies
        is_field_name(name) by {
        assert(fields.contains_key(name));
        law_field_names(name);
    }
}

/// What is wrong with a request is found out in this order: its method is empty or has a
/// character that is no token character, its address is no URI, a name that has something to hand
/// on is no header name. The first fault is the one that is reported.
pub proof fn law_first_fault_is_reported(
    method: Seq<char>,
    uri: Seq<char>,
    fields: Fields,
    i: int,
    name: Seq<char>,
    j: int,
)
    ensures
        ({
            let head = backend_head(method, uri, fields);
            let bad_method = method.len() == 0 || (0 <= i < method.len() && !is_token_char(
                method[i],
            ));
            let bad_name = {
                &&& fields.contains_key(name)
                &&& name != "host"@
                &&& name != "x-backend"@
                &&& visible_values(fields[name]).len() > 0
                &&& {
                    ||| name.len() == 0 || name.len() > 65535
                    ||| 0 <= j < name.len() && (!is_token_char(name[j]) || 'A' <= name[j] <= 'Z')
                }
            };
            &&& bad_method ==> head == Built::Failed("invalid HTTP method"@)
            &&& (uri_parse(uri) matches Err(reason) ==> head == Built::Failed(reason) || head
                == Built::Failed("invalid HTTP method"@))
            &&& bad_name ==> head is Failed
            &&& bad_name && uri_parse(uri) is Ok && method.len() > 0 && (forall|k: int|
                0 <= k < method.len() ==> is_token_char(#[trigger] method[k])) ==> head
                == Built::Failed("invalid HTTP header name"@)
        }),
{
    law_field_names(name);
    assert(forwarded(fields).contains_key(name) ==> fields.contains_key(name));
    if fields.contains_key(name) && name != "host"@ && name != "x-backend"@ && visible_values(
        fields[name],
    ).len() > 0 {
        assert(forwarded(fields).contains_key(name));
    }
}

/// A request that is held back has a fault, and it is the fault that is reported.
pub proof fn law_no_fault_is_made_up(method: Seq<char>, uri: Seq<char>, fields: Fields)
    requires
        backend_head(method, uri, fields) is Failed,
    ensures
        ({
            let reason = backend_head(method, uri, fields)->Failed_0;
            let good_method = method.len() > 0 && forall|i: int|
                0 <= i < method.len() ==> is_token_char(#[trigger] method[i]);
            if !good_method {
                reason == "invalid HTTP method"@
            } else {
                match uri_parse(uri) {
                    Err(message) => reason == message,
                    Ok(_) => reason == "invalid HTTP header name"@ && exists|name: Seq<char>| {
                        &&& #[trigger] fields.contains_key(name)
                        &&& name != "host"@
                        &&& name != "x-backend"@
                        &&& visible_values(fields[name]).len() > 0
                        &&& !(0 < name.len() <= 65535 && forall|i: int|
                            0 <= i < name.len() ==> is_token_char(#[trigger] name[i]) && !('A'
                                <= name[i] <= 'Z'))
                    },
                }
            }
        }),
{
    let sent = forwarded(fields);
    if is_method(method) && uri_parse(uri) is Ok {
        let name = choose|name: Seq<char>| #[trigger]
            sent.contains_key(name) && !is_field_name(name);
        assert(fields.contains_key(name));
        law_field_names(name);
    }
}

/// Every field but `host` and `x-backend` goes on with its visible values in their order, and
/// without any if it has none. `x-backend` does not go on. In the place of the client's `host`
/// stands host and port of the address, if it has a host.
pub proof fn law_every_other_field_goes_on(
    method: Seq<char>,
    uri: Seq<char>,
    fields: Fields,
    name: Seq<char>,
)
    requires
        backend_head(method, uri, fields) is Head,
    ensures
        ({
            let sent = backend_head(method, uri, fields)->Head_0.fields;
            let address = backend_head(method, uri, fields)->Head_0.uri;
            let visible = fields[name].filter(
                |value: Seq<u8>|
                    forall|k: int|
                        0 <= k < value.len() ==> (#[trigger] value[k] == 9 || 32 <= value[k]
                            <= 126),
            );
            &&& name != "host"@ && name != "x-backend"@ ==> {
                &&& sent.contains_key(name) <==> fields.contains_key(name) && visible.len() > 0
                &&& sent.contains_key(name) ==> sent[name] == visible
            }
            &&& !sent.contains_key("x-backend"@)
            &&& match (address.host, address.port) {
                (Some(host), Some(port)) => sent.contains_key("host"@) && sent["host"@] == seq![
                    encode_utf8(host + seq![':'] + port),
                ],
                (Some(host), None) => sent.contains_key("host"@) && sent["host"@] == seq![
                    encode_utf8(host),
                ],
                (None, _) => !sent.contains_key("host"@),
            }
        }),
{
    law_visible_values_stay_in_order(fields[name]);
    let address = backend_head(method, uri, fields)->Head_0.uri;
    law_authority_is_host_and_port(address);
    reveal_strlit("host");
    reveal_strlit("x-backend");
    assert("host"@.len() != "x-backend"@.len());
}

/// The fields that are handed on are those other than `host` and `x-backend` that have a visible
/// value, each with its visible values in their order.
pub proof fn law_fields_that_are_handed_on(fields: Fields, name: Seq<char>)
    ensures
        ({
            let visible = fields[name].filter(
                |value: Seq<u8>|
                    forall|k: int|
                        0 <= k < value.len() ==> (#[trigger] value[k] == 9 || 32 <= value[k]
                            <= 126),
            );
            &&& forwarded(fields).contains_key(name) <==> {
                &&& fields.contains_key(name)
                &&& name != "host"@
                &&& name != "x-backend"@
                &&& visible.len() > 0
            }
            &&& forwarded(fields).contains_key(name) ==> forwarded(fields)[name] == visible
        }),
{
    law_visible_values_stay_in_order(fields[name]);
}

/// Appending to a header map may fail from 6554 names on, and fails from 24576 names on.
pub proof fn law_room_in_a_header_map(fields: Fields)
    ensures
        crowded(fields) <==> fields.dom().len() >= 6554,
        full(fields) <==> fields.dom().len() >= 24576,
{
}

} // verus!
