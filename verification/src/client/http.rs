//! Addresses and requests.
//!
//! What is sent over HTTP, and where to: the paths of the endpoints, the
//! address of a session, the headers of a request, and what a response that is
//! no success means. Parsing and joining addresses is the work of `url`; sending
//! is the work of the driver.

use super::error::ClientError;
use crate::api::id_types::{InstructionSeq, MachineName};
use crate::api::token::{token_text, ApiToken};
use crate::api::wire::{api_error_of, decode_api_error, decoding_of};
use crate::json::JsonValue;
use crate::text::{decimal, push_decimal_i64, str_eq};
use vstd::prelude::*;
use vstd::string::StringExecFns;
use vstd::utf8::encode_utf8;

verus! {

/// `url::Url`: a parsed address.
#[verifier::external_type_specification]
#[verifier::external_body]
pub struct ExUrl(url::Url);

/// `url::ParseError`: why a text is no address.
#[verifier::external_type_specification]
#[verifier::external_body]
pub struct ExParseError(url::ParseError);

/// The scheme of an address, without the colon: what `Url::scheme` returns.
pub uninterp spec fn url_scheme_of(url: url::Url) -> Seq<char>;

/// The host of an address as text, where it has one: what `Url::host` returns,
/// written out.
pub uninterp spec fn url_host_of(url: url::Url) -> Option<Seq<char>>;

/// An address as text: what `Url::to_string` returns.
pub uninterp spec fn url_text_of(url: url::Url) -> Seq<char>;

/// An address under another scheme: what `Url::set_scheme` makes of it, and
/// `None` where it refuses.
pub uninterp spec fn url_with_scheme(url: url::Url, scheme: Seq<char>) -> Option<url::Url>;

/// The address that a reference gives relative to a base: what `Url::join`
/// returns, and `None` where it fails.
pub uninterp spec fn url_joined(base: url::Url, reference: Seq<char>) -> Option<url::Url>;

/// A failure of `url` in words: what `ParseError::to_string` returns.
pub uninterp spec fn url_error_text(error: url::ParseError) -> Seq<char>;

/// `ParseError::to_string`.
#[verifier::external_body]
pub(crate) fn url_error_to_string(error: &url::ParseError) -> (r: String)
    ensures
        r@ == url_error_text(*error),
{
    error.to_string()
}

/// `Url::scheme`.
#[verifier::external_body]
fn url_scheme<'a>(url: &'a url::Url) -> (r: &'a str)
    ensures
        r@ == url_scheme_of(*url),
{
    url.scheme()
}

/// `Url::host`, written out as text.
#[verifier::external_body]
fn url_host(url: &url::Url) -> (r: Option<String>)
    ensures
        match r {
            Some(host) => url_host_of(*url) == Some(host@),
            None => url_host_of(*url) is None,
        },
{
    match url.host() {
        Some(host) => Some(host.to_string()),
        None => None,
    }
}

/// `Url::to_string`.
#[verifier::external_body]
fn url_to_string(url: &url::Url) -> (r: String)
    ensures
        r@ == url_text_of(*url),
{
    url.to_string()
}

/// `Url::set_scheme`: where it succeeds, the address is the one that
/// `url_with_scheme` names; where it refuses, the address is as it was.
#[verifier::external_body]
fn url_set_scheme(url: &mut url::Url, scheme: &str) -> (r: Result<(), ()>)
    requires
        scheme@.len() <= 16,
    ensures
        match r {
            Ok(_) => url_with_scheme(*old(url), scheme@) == Some(*final(url)),
            Err(_) => url_with_scheme(*old(url), scheme@) is None && *final(url) == *old(url),
        },
{
    url.set_scheme(scheme)
}

/// `Url::join`: where it succeeds, the address is the one that `url_joined`
/// names.
#[verifier::external_body]
fn url_join(base: &url::Url, reference: &str) -> (r: Result<url::Url, url::ParseError>)
    ensures
        match r {
            Ok(joined) => url_joined(*base, reference@) == Some(joined),
            Err(_) => url_joined(*base, reference@) is None,
        },
{
    base.join(reference)
}

/// Whether a text can be the value of a header: none of the bytes of its UTF-8
/// form is a control character other than a tab.
pub open spec fn is_header_value(text: Seq<char>) -> bool {
    forall|i: int|
        0 <= i < encode_utf8(text).len() ==> {
            let byte = #[trigger] encode_utf8(text)[i];
            (32 <= byte && byte != 127) || byte == 9
        }
}

/// `HeaderValue::from_str`, asked whether it accepts a text: it refuses a text
/// with a byte below 32 other than a tab, or with the byte 127, and no other.
#[verifier::external_body]
fn header_value_accepts(text: &str) -> (r: bool)
    ensures
        r == is_header_value(text@),
{
    reqwest::header::HeaderValue::from_str(text).is_ok()
}

/// The path of an endpoint under the version of the interface.
pub open spec fn api_path_of(path: Seq<char>) -> Seq<char> {
    "/v1"@ + path
}

/// The path of an endpoint under the version of the interface.
pub fn api_path(path: &str) -> (r: String)
    ensures
        r@ == api_path_of(path@),
{
    let mut text = "/v1".to_owned();
    text.append(path);
    text
}

/// The path under which a machine is addressed.
pub open spec fn machine_path_of(machine_name: Seq<char>) -> Seq<char> {
    "/machine/"@ + machine_name
}

/// The path of the session of a machine.
pub open spec fn repl_path_of(machine_name: Seq<char>) -> Seq<char> {
    api_path_of(machine_path_of(machine_name) + "/repl"@)
}

/// The path to which an instruction for a machine is posted.
pub open spec fn exec_path_of(machine_name: Seq<char>) -> Seq<char> {
    machine_path_of(machine_name) + "/exec"@
}

/// The path of the result of an instruction.
pub open spec fn exec_result_path_of(
    machine_name: Seq<char>,
    instruction: InstructionSeq,
) -> Seq<char> {
    exec_path_of(machine_name) + "/"@ + decimal(instruction.0 as int) + "/result"@
}

/// The path of the result stream of an instruction.
pub open spec fn exec_result_stream_path_of(
    machine_name: Seq<char>,
    instruction: InstructionSeq,
) -> Seq<char> {
    api_path_of(
        exec_path_of(machine_name) + "/"@ + decimal(instruction.0 as int) + "/stream-result"@,
    )
}

/// The path of the session of a machine.
pub fn repl_path(machine_name: &MachineName) -> (r: String)
    ensures
        r@ == repl_path_of(machine_name@),
{
    let mut text = "/v1".to_owned();
    text.append("/machine/");
    text.append(machine_name.0.as_str());
    text.append("/repl");
    assert(text@ =~= repl_path_of(machine_name@));
    text
}

/// The path to which an instruction for a machine is posted.
pub fn exec_path(machine_name: &MachineName) -> (r: String)
    ensures
        r@ == exec_path_of(machine_name@),
{
    let mut text = "/machine/".to_owned();
    text.append(machine_name.0.as_str());
    text.append("/exec");
    text
}

/// The path of the result of an instruction.
pub fn exec_result_path(machine_name: &MachineName, instruction: InstructionSeq) -> (r: String)
    ensures
        r@ == exec_result_path_of(machine_name@, instruction),
{
    let mut text = exec_path(machine_name);
    text.append("/");
    push_decimal_i64(&mut text, instruction.0);
    text.append("/result");
    text
}

/// The path of the result stream of an instruction.
pub fn exec_result_stream_path(machine_name: &MachineName, instruction: InstructionSeq) -> (r:
    String)
    ensures
        r@ == exec_result_stream_path_of(machine_name@, instruction),
{
    let mut text = "/v1".to_owned();
    text.append("/machine/");
    text.append(machine_name.0.as_str());
    text.append("/exec");
    text.append("/");
    push_decimal_i64(&mut text, instruction.0);
    text.append("/stream-result");
    assert(text@ =~= exec_result_stream_path_of(machine_name@, instruction));
    text
}

/// Why no address of a session can be made.
pub enum UrlFailure {
    /// The address of the service is neither `http` nor `https`, or takes no
    /// other scheme.
    InvalidUrl,
    /// The path of the session cannot be joined to the address.
    UrlError,
}

/// The scheme of the socket that belongs to a scheme of HTTP.
pub open spec fn socket_scheme_of(scheme: Seq<char>) -> Option<Seq<char>> {
    if scheme == "http"@ {
        Some("ws"@)
    } else if scheme == "https"@ {
        Some("wss"@)
    } else {
        None
    }
}

/// The address of the session of a machine, for a service at `api_base`: the
/// address of the service under the scheme of the socket, `ws` for `http` and
/// `wss` for `https`, joined with the path of the session.
pub open spec fn repl_url_of(api_base: url::Url, machine_name: Seq<char>) -> Result<
    url::Url,
    UrlFailure,
> {
    match socket_scheme_of(url_scheme_of(api_base)) {
        None => Err(UrlFailure::InvalidUrl),
        Some(scheme) => match url_with_scheme(api_base, scheme) {
            None => Err(UrlFailure::InvalidUrl),
            Some(base) => match url_joined(base, repl_path_of(machine_name)) {
                None => Err(UrlFailure::UrlError),
                Some(url) => Ok(url),
            },
        },
    }
}

/// The address of the session of a machine that has the socket scheme
/// `scheme`: `base_url` under that scheme, joined with the path of the session.
fn repl_url_under(mut base_url: url::Url, scheme: &str, machine_name: &MachineName) -> (r: Result<
    url::Url,
    ClientError,
>)
    requires
        scheme@.len() <= 16,
    ensures
        match r {
            Ok(url) => url_with_scheme(base_url, scheme@) matches Some(base) && url_joined(
                base,
                repl_path_of(machine_name@),
            ) == Some(url),
            Err(ClientError::InvalidUrl) => url_with_scheme(base_url, scheme@) is None,
            Err(ClientError::UrlError(_)) => url_with_scheme(base_url, scheme@) matches Some(base)
                && url_joined(base, repl_path_of(machine_name@)) is None,
            Err(_) => false,
        },
{
    match url_set_scheme(&mut base_url, scheme) {
        Ok(_) => {},
        Err(_) => {
            return Err(ClientError::InvalidUrl);
        },
    }
    let path = repl_path(machine_name);
    match url_join(&base_url, path.as_str()) {
        Ok(url) => Ok(url),
        Err(error) => Err(ClientError::UrlError(error)),
    }
}

/// The address of the session of a machine, for a service at `api_base`.
pub fn repl_url(api_base: url::Url, machine_name: &MachineName) -> (r: Result<
    url::Url,
    ClientError,
>)
    ensures
        match r {
            Ok(url) => repl_url_of(api_base, machine_name@) == Ok::<url::Url, UrlFailure>(url),
            Err(ClientError::InvalidUrl) => repl_url_of(api_base, machine_name@) == Err::<
                url::Url,
                UrlFailure,
            >(UrlFailure::InvalidUrl),
            Err(ClientError::UrlError(_)) => repl_url_of(api_base, machine_name@) == Err::<
                url::Url,
                UrlFailure,
            >(UrlFailure::UrlError),
            Err(_) => false,
        },
{
    proof {
        reveal_strlit("ws");
        reveal_strlit("wss");
    }
    let is_http = str_eq(url_scheme(&api_base), "http");
    let is_https = str_eq(url_scheme(&api_base), "https");
    if is_http {
        repl_url_under(api_base, "ws", machine_name)
    } else if is_https {
        repl_url_under(api_base, "wss", machine_name)
    } else {
        Err(ClientError::InvalidUrl)
    }
}

/// The value of the header by which a request shows its token.
pub open spec fn bearer_of(token: Seq<char>) -> Seq<char> {
    "Bearer "@ + token
}

/// The value of the header by which a request shows its token.
pub fn bearer(token: &ApiToken) -> (r: String)
    ensures
        r@ == bearer_of(token_text(token@)),
{
    let mut text = "Bearer ".to_owned();
    let written = token.to_string();
    text.append(written.as_str());
    text
}

/// A header: its name and its value.
#[derive(Debug, Clone, PartialEq)]
pub struct Header {
    pub name: &'static str,
    pub value: String,
}

/// A header as a mathematical value.
pub struct HeaderView {
    pub name: Seq<char>,
    pub value: Seq<char>,
}

impl View for Header {
    type V = HeaderView;

    open spec fn view(&self) -> HeaderView {
        HeaderView { name: self.name@, value: self.value@ }
    }
}

/// The headers that every request of the client carries: the kind of client,
/// and what runs it, where that is known and can stand in a header.
pub open spec fn headers_of(runner: Option<Seq<char>>) -> Seq<HeaderView> {
    let sdk = HeaderView { name: "x-forevervm-sdk"@, value: "rust"@ };
    match runner {
        Some(value) => if is_header_value(value) {
            seq![sdk, HeaderView { name: "x-forevervm-runner"@, value }]
        } else {
            seq![sdk]
        },
        None => seq![sdk],
    }
}

/// The views of headers, one for one.
pub open spec fn header_views(headers: Seq<Header>) -> Seq<HeaderView> {
    Seq::new(headers.len(), |i: int| headers[i]@)
}

/// The headers that every request of the client carries.
pub fn headers(runner: Option<String>) -> (r: Vec<Header>)
    ensures
        header_views(r@) == headers_of(
            match runner {
                Some(value) => Some(value@),
                None => None,
            },
        ),
{
    let mut list: Vec<Header> = Vec::new();
    list.push(Header { name: "x-forevervm-sdk", value: "rust".to_owned() });
    if let Some(value) = runner {
        if header_value_accepts(value.as_str()) {
            list.push(Header { name: "x-forevervm-runner", value });
        }
    }
    assert(header_views(list@) =~= headers_of(
        match runner {
            Some(value) => Some(value@),
            None => None,
        },
    ));
    list
}

/// The request that opens the socket of a session: where it goes, and the
/// headers that ask for the upgrade.
#[derive(Debug, Clone, PartialEq)]
pub struct UpgradeRequest {
    pub uri: String,
    pub headers: Vec<Header>,
}

/// The headers of the request that opens the socket of a session at `host`:
/// the token, the host, the wish to upgrade to a web socket, the version of the
/// protocol, and the key of the handshake.
pub open spec fn upgrade_headers_of(host: Seq<char>, token: Seq<char>, key: Seq<char>) -> Seq<
    HeaderView,
> {
    seq![
        HeaderView { name: "authorization"@, value: bearer_of(token) },
        HeaderView { name: "host"@, value: host },
        HeaderView { name: "connection"@, value: "Upgrade"@ },
        HeaderView { name: "upgrade"@, value: "websocket"@ },
        HeaderView { name: "sec-websocket-version"@, value: "13"@ },
        HeaderView { name: "sec-websocket-key"@, value: key },
    ]
}

/// The request that opens the socket of a session at `url`, which has to name a
/// host. The key is the random key of the handshake, which the driver makes.
pub fn authorized_request(url: &url::Url, token: &ApiToken, key: String) -> (r: Result<
    UpgradeRequest,
    ClientError,
>)
    ensures
        match r {
            Ok(request) => {
                &&& url_host_of(*url) matches Some(host)
                &&& request.uri@ == url_text_of(*url)
                &&& header_views(request.headers@) == upgrade_headers_of(
                    host,
                    token_text(token@),
                    key@,
                )
            },
            Err(error) => error is InvalidUrl && url_host_of(*url) is None,
        },
{
    let hostname = match url_host(url) {
        Some(hostname) => hostname,
        None => {
            return Err(ClientError::InvalidUrl);
        },
    };
    let mut list: Vec<Header> = Vec::new();
    list.push(Header { name: "authorization", value: bearer(token) });
    list.push(Header { name: "host", value: hostname });
    list.push(Header { name: "connection", value: "Upgrade".to_owned() });
    list.push(Header { name: "upgrade", value: "websocket".to_owned() });
    list.push(Header { name: "sec-websocket-version", value: "13".to_owned() });
    list.push(Header { name: "sec-websocket-key", value: key });
    assert(header_views(list@) =~= upgrade_headers_of(hostname@, token_text(token@), key@));
    Ok(UpgradeRequest { uri: url_to_string(url), headers: list })
}

/// What a response that is no success means: the error that the service
/// reports in the body, or, where the body is no such report, the status and
/// the body as they came.
pub fn parse_error(code: u16, message: String) -> (r: ClientError)
    ensures
        match decoding_of(message@, |document: JsonValue| api_error_of(document)) {
            Ok(report) => r matches ClientError::ApiError(error) && error@ == report,
            Err(_) => r == (ClientError::ServerResponseError { code, message }),
        },
{
    match decode_api_error(message.as_str()) {
        Ok(error) => ClientError::ApiError(error),
        Err(_) => ClientError::ServerResponseError { code, message },
    }
}

} // verus!
