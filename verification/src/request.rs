//! The request that opens a WebSocket, and the parts of the address that go
//! into it.

use vstd::multiset::Multiset;
use vstd::prelude::*;

use crate::text::{chars_of, first_index, lemma_first_index};

verus! {

#[verifier::external_type_specification]
#[verifier::external_body]
pub struct ExBuilder(http::request::Builder);

#[verifier::external_type_specification]
#[verifier::external_body]
#[verifier::reject_recursive_types(T)]
pub struct ExRequest<T>(http::Request<T>);

// Addresses.

/// The authority of an address, which is its user, host and port in the form
/// that the address has once it was read, or why it is no address.
pub uninterp spec fn url_authority(text: Seq<char>) -> Result<Seq<char>, Seq<char>>;

/// The host of an address, if it has one, or why it is no address.
pub uninterp spec fn url_host(text: Seq<char>) -> Result<Option<Seq<char>>, Seq<char>>;

/// Calls `url::Url::parse` and `url::Url::authority`. Whether the text is an
/// address, its authority, and the words of the error otherwise, are taken to
/// be a function of the text.
#[verifier::external_body]
pub(crate) fn parse_authority(text: &str) -> (r: Result<String, String>)
    ensures
        match r {
            Ok(authority) => url_authority(text@) == Ok::<Seq<char>, Seq<char>>(authority@),
            Err(e) => url_authority(text@) == Err::<Seq<char>, Seq<char>>(e@),
        },
{
    match url::Url::parse(text) {
        Ok(url) => Ok(url.authority().to_string()),
        Err(e) => Err(e.to_string()),
    }
}

/// Calls `url::Url::parse` and `url::Url::host_str`. Whether the text is an
/// address, its host, and the words of the error otherwise, are taken to be a
/// function of the text.
#[verifier::external_body]
pub(crate) fn parse_host(text: &str) -> (r: Result<Option<String>, String>)
    ensures
        match r {
            Ok(Some(host)) => url_host(text@) == Ok::<Option<Seq<char>>, Seq<char>>(Some(host@)),
            Ok(None) => url_host(text@) == Ok::<Option<Seq<char>>, Seq<char>>(None),
            Err(e) => url_host(text@) == Err::<Option<Seq<char>>, Seq<char>>(e@),
        },
{
    match url::Url::parse(text) {
        Ok(url) => Ok(url.host_str().map(String::from)),
        Err(e) => Err(e.to_string()),
    }
}

/// What follows the first `@` of an authority, or all of it: the host and the
/// port, without the user.
pub open spec fn without_user(authority: Seq<char>) -> Seq<char> {
    let at = first_index(authority, '@');
    if at < authority.len() {
        authority.skip(at + 1)
    } else {
        authority
    }
}

/// Cuts the user off an authority.
pub fn host_and_port(authority: &str) -> (r: String)
    ensures
        r@ == without_user(authority@),
{
    let chars = chars_of(authority);
    let mut at: usize = 0;
    while at < chars.len() && chars[at] != '@'
        invariant
            at <= chars@.len(),
            forall|i: int| 0 <= i < at ==> chars@[i] != '@',
        decreases chars@.len() - at,
    {
        at = at + 1;
    }
    proof {
        lemma_first_index(chars@, '@', at as int);
    }
    if at < chars.len() {
        assert(authority@.subrange(at + 1, authority@.len() as int) =~= authority@.skip(at + 1));
        authority.substring_char(at + 1, chars.len()).to_string()
    } else {
        authority.to_string()
    }
}

// The key of a handshake.

/// Whether a character occurs in base64.
pub open spec fn base64_char(c: char) -> bool {
    ||| 'A' <= c <= 'Z'
    ||| 'a' <= c <= 'z'
    ||| '0' <= c <= '9'
    ||| c == '+'
    ||| c == '/'
    ||| c == '='
}

/// Whether a text can be the key of a handshake: sixteen bytes in base64.
pub open spec fn handshake_key(key: Seq<char>) -> bool {
    &&& key.len() == 24
    &&& forall|i: int| 0 <= i < key.len() ==> base64_char(#[trigger] key[i])
}

/// Any key of a handshake can be the value of a header.
pub proof fn law_keys_are_header_values(key: Seq<char>)
    requires
        handshake_key(key),
    ensures
        header_value_ok(key),
{
    assert forall|i: int| 0 <= i < key.len() implies (#[trigger] key[i]) >= ' ' && key[i]
        != '\u{7f}' || key[i] == '\t' by {
        assert(base64_char(key[i]));
    }
}

/// A bearer's text can be the value of a header exactly if what it bears can.
pub proof fn lemma_bearer(token: Seq<char>)
    ensures
        header_value_ok("Bearer "@ + token) <==> header_value_ok(token),
{
    reveal_strlit("Bearer ");
    let all = "Bearer "@ + token;
    if header_value_ok(all) {
        assert forall|i: int| 0 <= i < token.len() implies (#[trigger] token[i]) >= ' ' && token[i]
            != '\u{7f}' || token[i] == '\t' by {
            assert(all[i + 7] == token[i]);
        }
    }
}

/// Calls `tungstenite::handshake::client::generate_key`. The key is drawn at
/// random; of every key it is taken that it has the 24 characters of sixteen
/// bytes in base64.
#[verifier::external_body]
pub(crate) fn generate_key() -> (r: String)
    ensures
        handshake_key(r@),
{
    async_tungstenite::tungstenite::handshake::client::generate_key()
}

// Requests.

/// A header of a request.
#[derive(Debug)]
pub struct Header {
    pub name: &'static str,
    pub value: String,
}

impl View for Header {
    type V = (Seq<char>, Seq<char>);

    open spec fn view(&self) -> (Seq<char>, Seq<char>) {
        (self.name@, self.value@)
    }
}

/// What each header of a row holds.
pub open spec fn header_views(headers: Seq<Header>) -> Seq<(Seq<char>, Seq<char>)> {
    headers.map_values(|h: Header| h@)
}

/// Whether a text is the name of a header, written with lower-case letters
/// and dashes alone.
pub open spec fn plain_name(name: Seq<char>) -> bool {
    &&& 0 < name.len() <= 64
    &&& forall|i: int|
        0 <= i < name.len() ==> 'a' <= (#[trigger] name[i]) <= 'z' || name[i] == '-'
}

/// Whether a text can be the value of a header: it holds no control
/// characters but the tab.
pub open spec fn header_value_ok(value: Seq<char>) -> bool {
    forall|i: int|
        0 <= i < value.len() ==> (#[trigger] value[i]) >= ' ' && value[i] != '\u{7f}' || value[i]
            == '\t'
}

/// How a target is written out once it was read, or why it cannot be one.
pub uninterp spec fn parsed_uri(text: Seq<char>) -> Result<Seq<char>, Seq<char>>;

/// The headers that a request under way has so far, names in lower case.
pub uninterp spec fn builder_headers(
    builder: http::request::Builder,
) -> Multiset<(Seq<char>, Seq<char>)>;

/// The target that a request under way has.
pub uninterp spec fn builder_uri(builder: http::request::Builder) -> Seq<char>;

/// Why a request under way cannot be finished, in words.
pub uninterp spec fn builder_error(builder: http::request::Builder) -> Option<Seq<char>>;

/// The headers of a request, names in lower case.
pub uninterp spec fn request_headers(
    request: http::Request<()>,
) -> Multiset<(Seq<char>, Seq<char>)>;

/// The target of a request.
pub uninterp spec fn request_uri(request: http::Request<()>) -> Seq<char>;

/// The method of a request under way.
pub uninterp spec fn builder_method(builder: http::request::Builder) -> Seq<char>;

/// The method of a request.
pub uninterp spec fn request_method(request: http::Request<()>) -> Seq<char>;

/// Whether a text is the name of a method, written with capital letters
/// alone.
pub open spec fn plain_method(method: Seq<char>) -> bool {
    &&& 0 < method.len() <= 64
    &&& forall|i: int| 0 <= i < method.len() ==> 'A' <= (#[trigger] method[i]) <= 'Z'
}

/// Calls `http::Request::builder`. The new request has not failed, and has no
/// headers.
#[verifier::external_body]
fn start_request() -> (r: http::request::Builder)
    ensures
        builder_error(r) is None,
        builder_headers(r) == Multiset::<(Seq<char>, Seq<char>)>::empty(),
{
    http::Request::builder()
}

/// Calls `http::request::Builder::method`. A request that has failed stays as
/// it is; any other gets the method.
#[verifier::external_body]
fn set_method(builder: http::request::Builder, method: &str) -> (r: http::request::Builder)
    requires
        plain_method(method@),
    ensures
        match builder_error(builder) {
            Some(e) => builder_error(r) == Some(e),
            None => {
                &&& builder_error(r) is None
                &&& builder_method(r) == method@
                &&& builder_uri(r) == builder_uri(builder)
                &&& builder_headers(r) == builder_headers(builder)
            },
        },
{
    builder.method(method)
}

/// Calls `http::request::Builder::uri`. A request that has failed stays as it
/// is; otherwise it gets the target if the text can be one, and fails if not.
/// Whether the text can be a target is taken to be a function of the text.
#[verifier::external_body]
fn set_uri(builder: http::request::Builder, uri: &str) -> (r: http::request::Builder)
    ensures
        match builder_error(builder) {
            Some(e) => builder_error(r) == Some(e),
            None => match parsed_uri(uri@) {
                Ok(target) => {
                    &&& builder_error(r) is None
                    &&& builder_method(r) == builder_method(builder)
                    &&& builder_uri(r) == target
                    &&& builder_headers(r) == builder_headers(builder)
                },
                Err(e) => builder_error(r) == Some(e),
            },
        },
{
    builder.uri(uri)
}

/// Calls `http::request::Builder::header`. A request that has failed stays as
/// it is; otherwise the header is added if its value can be one, and the
/// request fails if not.
#[verifier::external_body]
fn add_header(
    builder: http::request::Builder,
    name: &str,
    value: &str,
) -> (r: http::request::Builder)
    requires
        plain_name(name@),
        builder_error(builder) is None ==> builder_headers(builder).len() < 1000,
    ensures
        match builder_error(builder) {
            Some(e) => builder_error(r) == Some(e),
            None => if header_value_ok(value@) {
                &&& builder_error(r) is None
                &&& builder_method(r) == builder_method(builder)
                &&& builder_uri(r) == builder_uri(builder)
                &&& builder_headers(r) == builder_headers(builder).insert((name@, value@))
            } else {
                builder_error(r) == Some("failed to parse header value"@)
            },
        },
{
    builder.header(name, value)
}

/// Calls `http::request::Builder::body`, with an empty body. A request that
/// has failed gives its error, any other the request as it was put together.
#[verifier::external_body]
fn finish_request(builder: http::request::Builder) -> (r: Result<http::Request<()>, String>)
    ensures
        match r {
            Ok(request) => {
                &&& builder_error(builder) is None
                &&& request_method(request) == builder_method(builder)
                &&& request_uri(request) == builder_uri(builder)
                &&& request_headers(request) == builder_headers(builder)
            },
            Err(e) => builder_error(builder) == Some(e@),
        },
{
    builder.body(()).map_err(|e| e.to_string())
}

/// Whether the value of every header can be one.
pub open spec fn values_ok(headers: Seq<(Seq<char>, Seq<char>)>) -> bool {
    forall|i: int| 0 <= i < headers.len() ==> header_value_ok((#[trigger] headers[i]).1)
}

/// A GET request with the given target and headers. It fails where the target
/// cannot be one, or else where the value of some header cannot be one.
pub(crate) fn build_request(uri: &str, headers: &Vec<Header>) -> (r: Result<
    http::Request<()>,
    String,
>)
    requires
        headers@.len() < 1000,
        forall|i: int| 0 <= i < headers@.len() ==> plain_name((#[trigger] headers@[i]).name@),
    ensures
        match r {
            Ok(request) => {
                &&& request_method(request) == "GET"@
                &&& parsed_uri(uri@) == Ok::<Seq<char>, Seq<char>>(request_uri(request))
                &&& values_ok(header_views(headers@))
                &&& request_headers(request) == header_views(headers@).to_multiset()
            },
            Err(e) => match parsed_uri(uri@) {
                Err(cause) => e@ == cause,
                Ok(_) => !values_ok(header_views(headers@)) && e@
                    == "failed to parse header value"@,
            },
        },
{
    proof {
        reveal_strlit("GET");
    }
    let mut builder = set_uri(set_method(start_request(), "GET"), uri);
    let ghost all = header_views(headers@);
    let mut i: usize = 0;
    proof {
        assert(all.take(0).to_multiset() =~= Multiset::<(Seq<char>, Seq<char>)>::empty()) by {
            all.take(0).to_multiset_ensures();
        }
    }
    while i < headers.len()
        invariant
            i <= headers@.len() < 1000,
            all == header_views(headers@),
            forall|j: int| 0 <= j < headers@.len() ==> plain_name((#[trigger] headers@[j]).name@),
            match parsed_uri(uri@) {
                Err(cause) => builder_error(builder) == Some(cause),
                Ok(target) => if values_ok(all.take(i as int)) {
                    &&& builder_error(builder) is None
                    &&& builder_method(builder) == "GET"@
                    &&& builder_uri(builder) == target
                    &&& builder_headers(builder) == all.take(i as int).to_multiset()
                } else {
                    builder_error(builder) == Some("failed to parse header value"@)
                },
            },
        decreases headers@.len() - i,
    {
        let ghost before = all.take(i as int);
        let ghost after = all.take(i + 1);
        proof {
            before.to_multiset_ensures();
            assert(after =~= before.push(all[i as int]));
            assert(values_ok(after) <==> values_ok(before) && header_value_ok(all[i as int].1)) by {
                if values_ok(after) {
                    assert forall|j: int| 0 <= j < before.len() implies header_value_ok(
                        (#[trigger] before[j]).1,
                    ) by {
                        assert(after[j] == before[j]);
                    }
                    assert(after[i as int] == all[i as int]);
                }
            }
        }
        builder = add_header(builder, headers[i].name, headers[i].value.as_str());
        i = i + 1;
    }
    proof {
        assert(all.take(i as int) =~= all);
    }
    finish_request(builder)
}

// Attempts.

/// Why an attempt to connect failed.
#[derive(Debug)]
pub enum AttemptFailure {
    Socket(String),
    TimedOut(String),
}

impl AttemptFailure {
    /// What the failure is called.
    pub open spec fn words(self) -> Seq<char> {
        match self {
            AttemptFailure::Socket(cause) => "WebSocket connection error: "@ + cause@,
            AttemptFailure::TimedOut(cause) => "Connection timeout: "@ + cause@,
        }
    }

    /// What the failure is called.
    pub fn text(&self) -> (r: String)
        ensures
            r@ == self.words(),
    {
        match self {
            AttemptFailure::Socket(cause) => {
                let mut text: String = "WebSocket connection error: ".to_string();
                text.append(cause.as_str());
                text
            },
            AttemptFailure::TimedOut(cause) => {
                let mut text: String = "Connection timeout: ".to_string();
                text.append(cause.as_str());
                text
            },
        }
    }
}

/// What stands before the first `@` of an authority is the user, and is cut
/// off; an authority without one is the host and the port already.
pub proof fn law_user_is_cut_off(user: Seq<char>, host: Seq<char>)
    requires
        !user.contains('@'),
    ensures
        without_user(user.push('@') + host) == host,
        without_user(user) == user,
{
    let all = user.push('@') + host;
    assert forall|i: int| 0 <= i < user.len() implies all[i] != '@' by {
        assert(all[i] == user[i]);
    }
    assert(all[user.len() as int] == '@');
    lemma_first_index(all, '@', user.len() as int);
    assert(all.skip(user.len() as int + 1) =~= host);
    assert forall|i: int| 0 <= i < user.len() implies user[i] != '@' by {
        if user[i] == '@' {
            assert(user.contains('@'));
        }
    }
    lemma_first_index(user, '@', user.len() as int);
}

/// A text can be the value of a header exactly if each of its characters is
/// the tab, or is from number 32 on and not number 127.
pub proof fn law_header_values(value: Seq<char>)
    ensures
        header_value_ok(value) <==> forall|i: int|
            0 <= i < value.len() ==> (#[trigger] value[i]) as int == 9 || (value[i] as int >= 32
                && value[i] as int != 127),
{
    if header_value_ok(value) {
        assert forall|i: int| 0 <= i < value.len() implies (#[trigger] value[i]) as int == 9 || (
        value[i] as int >= 32 && value[i] as int != 127) by {
            assert(value[i] >= ' ' && value[i] != '\u{7f}' || value[i] == '\t');
        }
    }
}

/// One header whose value cannot be one spoils them all, and nothing else
/// does.
pub proof fn law_all_values_count(headers: Seq<(Seq<char>, Seq<char>)>)
    ensures
        !values_ok(headers) <==> exists|i: int|
            0 <= i < headers.len() && !header_value_ok((#[trigger] headers[i]).1),
{
}

/// A failure is told by what failed, followed by its cause.
pub proof fn law_failures_name_their_cause(cause: String)
    ensures
        AttemptFailure::Socket(cause).words() == "WebSocket connection error: "@ + cause@,
        AttemptFailure::TimedOut(cause).words() == "Connection timeout: "@ + cause@,
{
}

/// The host is what is left of an authority without its user.
pub proof fn law_host_and_port(
    authority: &str,
    user: Seq<char>,
    host: Seq<char>,
    result: String,
)
    requires
        !user.contains('@'),
        authority@ == user.push('@') + host || (authority@ == user && host == user),
        call_ensures(host_and_port, (authority,), result),
    ensures
        result@ == host,
{
    law_user_is_cut_off(user, host);
}

/// A header is seen with its name and its value as they are.
pub proof fn law_headers_are_seen_whole(headers: Seq<Header>, i: int)
    requires
        0 <= i < headers.len(),
    ensures
        header_views(headers).len() == headers.len(),
        header_views(headers)[i].0 == headers[i].name@,
        header_views(headers)[i].1 == headers[i].value@,
{
}

} // verus!
