//! Signing in with a Microsoft account: what is read from addresses, requests and
//! answers.

use vstd::prelude::*;
use vstd::string::*;

use crate::address;
use crate::address::{parse_url, query_pairs, MAX_TEXT};
use crate::json;
use crate::json::{read_json, string_member};
use crate::text;
use crate::text::{
    chars_of, concat2, concat3, concat4, decimal_text, parse_number, same_text, split_text, split_words,
    strip_prefix, trim_text,
};

verus! {

/// The value of the last of the first `n` pairs that has the given name.
pub open spec fn last_value(
    pairs: Seq<(Seq<char>, Seq<char>)>,
    name: Seq<char>,
    n: int,
) -> Option<Seq<char>>
    decreases n,
{
    if n <= 0 {
        None
    } else if pairs[n - 1].0 == name {
        Some(pairs[n - 1].1)
    } else {
        last_value(pairs, name, n - 1)
    }
}

/// The authorization code and the state that the pairs of a callback hold. There
/// is none without a code.
pub open spec fn callback_values(pairs: Seq<(Seq<char>, Seq<char>)>) -> Option<
    (Seq<char>, Option<Seq<char>>),
> {
    let n = pairs.len() as int;
    match last_value(pairs, "code"@, n) {
        Some(code) => if code.len() > 0 {
            Some((code, last_value(pairs, "state"@, n)))
        } else {
            None
        },
        None => None,
    }
}

/// The authorization code and the state among the pairs of a callback.
pub fn auth_code_and_state(pairs: &Vec<(String, String)>) -> (r: Option<(String, Option<String>)>)
    ensures
        match callback_values(address::pair_views(pairs@)) {
            Some((code, state)) => r matches Some(found) && found.0@ == code && text::opt_text(
                found.1,
            ) == state,
            None => r is None,
        },
{
    let ghost all = address::pair_views(pairs@);
    proof {
        reveal_strlit("code");
        reveal_strlit("state");
        assert("code"@.len() != "state"@.len());
    }
    let mut code: Option<String> = None;
    let mut state: Option<String> = None;
    let mut i: usize = 0;
    while i < pairs.len()
        invariant
            i <= pairs@.len(),
            all == address::pair_views(pairs@),
            "code"@.len() != "state"@.len(),
            text::opt_text(code) == last_value(all, "code"@, i as int),
            text::opt_text(state) == last_value(all, "state"@, i as int),
        decreases pairs@.len() - i,
    {
        assert(all[i as int] == (pairs@[i as int].0@, pairs@[i as int].1@));
        let pair = &pairs[i];
        if same_text(pair.0.as_str(), "code") {
            code = Some(pair.1.clone());
        } else if same_text(pair.0.as_str(), "state") {
            state = Some(pair.1.clone());
        }
        i = i + 1;
    }
    match code {
        Some(found) => if found.as_str().is_empty() {
            None
        } else {
            Some((found, state))
        },
        None => None,
    }
}

/// Why a callback cannot be used.
#[derive(Debug)]
pub enum CallbackError {
    /// It is no address.
    Malformed(url::ParseError),
    /// It holds no authorization code.
    NoCode,
}

/// The authorization code and the state that a callback address holds.
pub fn parse_auth_code_and_state(callback_url: &str) -> (r: Result<
    (String, Option<String>),
    CallbackError,
>)
    requires
        callback_url@.len() <= MAX_TEXT,
    ensures
        match address::parsed_url(callback_url@) {
            None => r matches Err(CallbackError::Malformed(_)),
            Some((_, pairs)) => match callback_values(pairs) {
                Some((code, state)) => r matches Ok(found) && found.0@ == code && text::opt_text(
                    found.1,
                ) == state,
                None => r matches Err(CallbackError::NoCode),
            },
        },
{
    match parse_url(callback_url) {
        Ok(url) => {
            let pairs = query_pairs(&url);
            match auth_code_and_state(&pairs) {
                Some(found) => Ok(found),
                None => Err(CallbackError::NoCode),
            }
        },
        Err(error) => Err(CallbackError::Malformed(error)),
    }
}

/// The port of a loopback address with an explicit port.
pub open spec fn loopback_port(uri: Seq<char>) -> Option<nat> {
    let rest = match text::after_prefix(uri, "http://localhost:"@) {
        Some(rest) => Some(rest),
        None => text::after_prefix(uri, "http://127.0.0.1:"@),
    };
    match rest {
        Some(rest) => text::parse_unsigned(text::split(rest, '/')[0], 65535),
        None => None,
    }
}

/// The port of a redirect address: the address must be a loopback address with an
/// explicit port.
pub fn parse_loopback_port_from_redirect_uri(uri: &str) -> (r: Option<u16>)
    ensures
        match loopback_port(uri@) {
            Some(port) => r matches Some(p) && p == port,
            None => r is None,
        },
{
    let rest = match strip_prefix(uri, "http://localhost:") {
        Some(rest) => rest,
        None => match strip_prefix(uri, "http://127.0.0.1:") {
            Some(rest) => rest,
            None => {
                return None;
            },
        },
    };
    let pieces = split_text(rest.as_str(), '/');
    proof {
        text::law_split_is_free_of_separator(rest@, '/');
        assert(text::texts(pieces@).len() == pieces@.len());
        assert(text::texts(pieces@)[0] == pieces@[0]@);
    }
    match parse_number(pieces[0].as_str(), 65535) {
        Some(port) => Some(port as u16),
        None => None,
    }
}

/// The redirect address that a setting stands for: the setting, if it says one
/// that can be used, or the default if it says none.
pub open spec fn redirect_uri(setting: Option<Seq<char>>) -> Option<Seq<char>> {
    match setting {
        Some(value) => match text::trimmed(value) {
            Some(uri) => if loopback_port(uri) is Some {
                Some(uri)
            } else {
                None
            },
            None => Some("http://localhost:53682/callback"@),
        },
        None => Some("http://localhost:53682/callback"@),
    }
}

/// What is said about a setting that cannot be used.
pub open spec fn redirect_refusal() -> Seq<char> {
    "LUCENT_MS_REDIRECT_URI must be an http loopback URL with an explicit port, e.g. http://localhost:53682/callback"@
}

/// The redirect address to use.
pub fn resolve_microsoft_redirect_uri(setting: Option<&str>) -> (r: Result<String, String>)
    ensures
        match redirect_uri(text::opt_str(setting)) {
            Some(uri) => r matches Ok(found) && found@ == uri,
            None => r matches Err(error) && error@ == redirect_refusal(),
        },
{
    if let Some(value) = setting {
        let uri = trim_text(value);
        if !uri.as_str().is_empty() {
            if parse_loopback_port_from_redirect_uri(uri.as_str()).is_none() {
                return Err(
                    "LUCENT_MS_REDIRECT_URI must be an http loopback URL with an explicit port, e.g. http://localhost:53682/callback".to_owned(),
                );
            }
            return Ok(uri);
        }
    }
    Ok("http://localhost:53682/callback".to_owned())
}

proof fn lemma_default_rest_port()
    ensures
        text::parse_unsigned("53682"@, 65535) == Some(53682nat),
{
    reveal_strlit("53682");
    reveal_with_fuel(text::digits_value, 6);
    let s = "53682"@;
    assert(text::all_digits(s));
    assert(s.drop_last() =~= seq!['5', '3', '6', '8']);
    assert(s.drop_last().drop_last() =~= seq!['5', '3', '6']);
    assert(s.drop_last().drop_last().drop_last() =~= seq!['5', '3']);
    assert(s.drop_last().drop_last().drop_last().drop_last() =~= seq!['5']);
    assert(s.drop_last().drop_last().drop_last().drop_last().drop_last() =~= seq![]);
}

/// The redirect address always has a port to listen on, whatever the setting
/// says.
pub proof fn law_redirect_has_a_port(setting: Option<Seq<char>>)
    ensures
        redirect_uri(setting) matches Some(uri) ==> loopback_port(uri) is Some,
{
    let uri = "http://localhost:53682/callback"@;
    reveal_strlit("http://localhost:53682/callback");
    reveal_strlit("http://localhost:");
    reveal_strlit("53682");
    let prefix = "http://localhost:"@;
    assert(uri.take(17) =~= prefix);
    let rest = uri.skip(17);
    assert(rest =~= "53682"@ + seq!['/', 'c', 'a', 'l', 'l', 'b', 'a', 'c', 'k']);
    lemma_first_piece("53682"@, seq!['c', 'a', 'l', 'l', 'b', 'a', 'c', 'k'], '/');
    assert("53682"@ + seq!['/'] + seq!['c', 'a', 'l', 'l', 'b', 'a', 'c', 'k'] =~= rest);
    lemma_default_rest_port();
}

proof fn lemma_first_piece(head: Seq<char>, tail: Seq<char>, separator: char)
    requires
        !head.contains(separator),
    ensures
        text::split(head + seq![separator] + tail, separator)[0] == head,
        text::split(head + seq![separator] + tail, separator).len() >= 2,
    decreases tail.len(),
{
    let whole = head + seq![separator] + tail;
    if tail.len() == 0 {
        assert(whole.drop_last() =~= head);
        lemma_no_cut(head, separator);
    } else {
        assert(whole.drop_last() =~= head + seq![separator] + tail.drop_last());
        lemma_first_piece(head, tail.drop_last(), separator);
    }
}

proof fn lemma_no_cut(s: Seq<char>, separator: char)
    requires
        !s.contains(separator),
    ensures
        text::split(s, separator) == seq![s],
    decreases s.len(),
{
    if s.len() > 0 {
        assert(!s.drop_last().contains(separator)) by {
            if s.drop_last().contains(separator) {
                let i = choose|i: int|
                    0 <= i < s.drop_last().len() && s.drop_last()[i] == separator;
                assert(s[i] == separator);
            }
        }
        assert(s[s.len() - 1] == s.last());
        lemma_no_cut(s.drop_last(), separator);
        assert(s.drop_last().push(s.last()) =~= s);
        assert(text::split(s, separator) =~= seq![s]);
    } else {
        assert(s =~= Seq::<char>::empty());
    }
}

/// The text that bytes stand for, with a replacement for what is no UTF-8.
pub uninterp spec fn lossy_text(bytes: Seq<u8>) -> Seq<char>;

/// `String::from_utf8_lossy`: the text that bytes stand for. The result depends on
/// the bytes alone.
#[verifier::external_body]
fn decode_lossy(bytes: &[u8]) -> (r: String)
    ensures
        r@ == lossy_text(bytes@),
{
    String::from_utf8_lossy(bytes).into_owned()
}

/// The path that a request asks for: that of its first line, if it is a `GET`
/// request.
pub open spec fn requested_path(request: Seq<char>) -> Option<Seq<char>> {
    let words = text::words(text::split(request, '\n')[0]);
    if words.len() >= 2 && words[0] == "GET"@ {
        Some(words[1])
    } else {
        None
    }
}

/// The callback address that a request stands for; none if it is to be ignored.
pub fn callback_in_request(request: &str, port: u16) -> (r: Option<String>)
    ensures
        text::opt_text(r) == match requested_path(request@) {
            Some(path) => Some("http://127.0.0.1:"@ + text::decimal(port as nat) + path),
            None => None,
        },
{
    let lines = split_text(request, '\n');
    proof {
        text::law_split_is_free_of_separator(request@, '\n');
        assert(text::texts(lines@).len() == lines@.len());
        assert(text::texts(lines@)[0] == lines@[0]@);
    }
    let words = split_words(lines[0].as_str());
    assert(text::texts(words@).len() == words@.len());
    if words.len() < 2 {
        return None;
    }
    assert(text::texts(words@)[0] == words@[0]@);
    assert(text::texts(words@)[1] == words@[1]@);
    if !same_text(words[0].as_str(), "GET") {
        return None;
    }
    let number = decimal_text(port as u128);
    Some(concat3("http://127.0.0.1:", number.as_str(), words[1].as_str()))
}

/// The callback address that the bytes of a request stand for; none if the
/// request is to be ignored.
pub fn callback_in_bytes(request: &[u8], port: u16) -> (r: Option<String>)
    ensures
        text::opt_text(r) == match requested_path(lossy_text(request@)) {
            Some(path) => Some("http://127.0.0.1:"@ + text::decimal(port as nat) + path),
            None => None,
        },
{
    let text = decode_lossy(request);
    callback_in_request(text.as_str(), port)
}

/// The page that is shown after signing in.
pub open spec fn login_page() -> Seq<char> {
    "<html><body><h2>Login complete</h2><p>You can close this tab and return to Lucent Launcher.</p></body></html>"@
}

/// The answer to the callback request.
pub open spec fn response_text() -> Seq<char> {
    "HTTP/1.1 200 OK\r\nContent-Type: text/html; charset=utf-8\r\nContent-Length: "@
        + text::decimal(login_page().len()) + "\r\nConnection: close\r\n\r\n"@ + login_page()
}

/// The answer to the callback request.
pub fn callback_response() -> (r: String)
    ensures
        r@ == response_text(),
{
    let body = "<html><body><h2>Login complete</h2><p>You can close this tab and return to Lucent Launcher.</p></body></html>";
    let chars = chars_of(body);
    let length = decimal_text(chars.len() as u128);
    concat4(
        "HTTP/1.1 200 OK\r\nContent-Type: text/html; charset=utf-8\r\nContent-Length: ",
        length.as_str(),
        "\r\nConnection: close\r\n\r\n",
        body,
    )
}

/// How long the callback is waited for, in nanoseconds.
pub const CALLBACK_TIMEOUT: u128 = 180_000_000_000;

/// How long a wait without a request pauses, in milliseconds.
pub const CALLBACK_PAUSE: u64 = 100;

/// What the wait for the callback meets with.
#[derive(Debug)]
pub enum WaitEvent {
    /// So many nanoseconds have passed since the wait began.
    Elapsed(u128),
    /// Nobody has connected.
    NoConnection,
    /// A request came.
    Request(Vec<u8>),
    /// A request could not be read.
    ReadFailed(String),
    /// No connection can be taken.
    ListenFailed(String),
}

/// What the wait for the callback asks for.
#[derive(Debug)]
pub enum WaitAction {
    /// Measure the time since the wait began.
    Measure,
    /// Take a connection, and read its request.
    Accept,
    /// Pause for so many milliseconds, then measure the time.
    Pause(u64),
    /// Answer the request. The wait is over: the callback came.
    Answer {
        /// The address of the callback.
        callback: String,
        /// The answer.
        response: String,
    },
    /// The wait is over without a callback.
    Fail(String),
}

/// What the wait for the callback asks for, as plain values.
pub enum WaitView {
    Measure,
    Accept,
    Pause(u64),
    Answer { callback: Seq<char>, response: Seq<char> },
    Fail(Seq<char>),
}

impl View for WaitAction {
    type V = WaitView;

    open spec fn view(&self) -> WaitView {
        match *self {
            WaitAction::Measure => WaitView::Measure,
            WaitAction::Accept => WaitView::Accept,
            WaitAction::Pause(time) => WaitView::Pause(time),
            WaitAction::Answer { callback, response } => WaitView::Answer {
                callback: callback@,
                response: response@,
            },
            WaitAction::Fail(error) => WaitView::Fail(error@),
        }
    }
}

/// How the wait for the callback goes on. It ends when more time than `timeout`
/// has passed, and other requests than the callback are ignored.
pub open spec fn wait_step(event: WaitEvent, port: u16, timeout: u128) -> WaitView {
    match event {
        WaitEvent::Elapsed(time) => if time > timeout {
            WaitView::Fail("Timed out waiting for Microsoft sign-in callback"@)
        } else {
            WaitView::Accept
        },
        WaitEvent::NoConnection => WaitView::Pause(CALLBACK_PAUSE),
        WaitEvent::Request(request) => match requested_path(lossy_text(request@)) {
            Some(path) => WaitView::Answer {
                callback: "http://127.0.0.1:"@ + text::decimal(port as nat) + path,
                response: response_text(),
            },
            None => WaitView::Measure,
        },
        WaitEvent::ReadFailed(error) => WaitView::Fail(
            "failed reading oauth callback request: "@ + error@,
        ),
        WaitEvent::ListenFailed(error) => WaitView::Fail(
            "oauth callback listener failed: "@ + error@,
        ),
    }
}

/// Says how the wait for the callback goes on. It begins with a measurement, on a
/// listener at `port`; the time is in nanoseconds.
pub fn wait_for_oauth_redirect(event: WaitEvent, port: u16, timeout: u128) -> (r: WaitAction)
    ensures
        r@ == wait_step(event, port, timeout),
{
    match event {
        WaitEvent::Elapsed(time) => if time > timeout {
            WaitAction::Fail("Timed out waiting for Microsoft sign-in callback".to_owned())
        } else {
            WaitAction::Accept
        },
        WaitEvent::NoConnection => WaitAction::Pause(CALLBACK_PAUSE),
        WaitEvent::Request(request) => match callback_in_bytes(request.as_slice(), port) {
            Some(callback) => WaitAction::Answer { callback, response: callback_response() },
            None => WaitAction::Measure,
        },
        WaitEvent::ReadFailed(error) => WaitAction::Fail(
            concat2("failed reading oauth callback request: ", error.as_str()),
        ),
        WaitEvent::ListenFailed(error) => WaitAction::Fail(
            concat2("oauth callback listener failed: ", error.as_str()),
        ),
    }
}

/// The identity that a game session is asked for with.
pub fn identity_token(userhash: &str, xsts_token: &str) -> (r: String)
    ensures
        r@ == "XBL3.0 x="@ + userhash@ + ";"@ + xsts_token@,
{
    concat4("XBL3.0 x=", userhash, ";", xsts_token)
}

/// Why an answer of the game's services is refused.
#[derive(Debug, Clone, Copy, PartialEq, Eq, Structural)]
pub enum AnswerError {
    /// The service says that the request failed.
    Refused,
    /// The access token is missing.
    NoAccessToken,
    /// The player's identifier is missing.
    NoId,
    /// The player's name is missing.
    NoName,
}

/// Why an answer cannot be used.
#[derive(Debug)]
pub enum ServiceError {
    /// It is no JSON document.
    Malformed(serde_json::Error),
    /// It does not say what it should, in this document.
    Answer(AnswerError, serde_json::Value),
}

/// The access token of an answer.
pub fn accepted_token(success: bool, token: Option<String>) -> (r: Result<String, AnswerError>)
    ensures
        match token {
            _ if !success => r == Err::<String, AnswerError>(AnswerError::Refused),
            Some(t) if t@.len() > 0 => r == Ok::<String, AnswerError>(t),
            _ => r == Err::<String, AnswerError>(AnswerError::NoAccessToken),
        },
{
    if !success {
        return Err(AnswerError::Refused);
    }
    match token {
        Some(token) => if token.as_str().is_empty() {
            Err(AnswerError::NoAccessToken)
        } else {
            Ok(token)
        },
        None => Err(AnswerError::NoAccessToken),
    }
}

/// The player's identifier and name of an answer.
pub fn accepted_profile(success: bool, id: Option<String>, name: Option<String>) -> (r: Result<
    (String, String),
    AnswerError,
>)
    ensures
        r == if !success {
            Err::<(String, String), AnswerError>(AnswerError::Refused)
        } else {
            match (id, name) {
                (None, _) => Err(AnswerError::NoId),
                (Some(_), None) => Err(AnswerError::NoName),
                (Some(i), Some(n)) => Ok((i, n)),
            }
        },
{
    if !success {
        return Err(AnswerError::Refused);
    }
    match (id, name) {
        (None, _) => Err(AnswerError::NoId),
        (Some(_), None) => Err(AnswerError::NoName),
        (Some(id), Some(name)) => Ok((id, name)),
    }
}

/// A string member of a document.
pub open spec fn member(strings: Map<Seq<char>, Seq<char>>, name: Seq<char>) -> Option<Seq<char>> {
    if strings.dom().contains(name) {
        Some(strings[name])
    } else {
        None
    }
}

/// The access token in the answer to a sign-in at the game's services.
pub fn authenticate_with_minecraft_access_token(success: bool, body: &str) -> (r: Result<
    String,
    ServiceError,
>)
    ensures
        match json::parsed_json(body@) {
            None => r matches Err(ServiceError::Malformed(_)),
            Some((_, strings)) => match member(strings, "access_token"@) {
                _ if !success => r matches Err(ServiceError::Answer(AnswerError::Refused, _)),
                Some(token) if token.len() > 0 => r matches Ok(found) && found@ == token,
                _ => r matches Err(ServiceError::Answer(AnswerError::NoAccessToken, _)),
            },
        },
        r matches Err(ServiceError::Answer(_, document)) ==> json::parsed_json(body@) == Some(
            (json::json_is_array(document), json::json_strings(document)),
        ),
{
    match read_json(body) {
        Ok(document) => {
            let token = string_member(&document, "access_token");
            match accepted_token(success, token) {
                Ok(token) => Ok(token),
                Err(error) => Err(ServiceError::Answer(error, document)),
            }
        },
        Err(error) => Err(ServiceError::Malformed(error)),
    }
}

/// The player's identifier and name in the answer to a lookup of the profile.
pub fn fetch_minecraft_profile(success: bool, body: &str) -> (r: Result<
    (String, String),
    ServiceError,
>)
    ensures
        match json::parsed_json(body@) {
            None => r matches Err(ServiceError::Malformed(_)),
            Some((_, strings)) => match (member(strings, "id"@), member(strings, "name"@)) {
                _ if !success => r matches Err(ServiceError::Answer(AnswerError::Refused, _)),
                (None, _) => r matches Err(ServiceError::Answer(AnswerError::NoId, _)),
                (Some(_), None) => r matches Err(ServiceError::Answer(AnswerError::NoName, _)),
                (Some(id), Some(name)) => r matches Ok(found) && found.0@ == id && found.1@ == name,
            },
        },
        r matches Err(ServiceError::Answer(_, document)) ==> json::parsed_json(body@) == Some(
            (json::json_is_array(document), json::json_strings(document)),
        ),
{
    match read_json(body) {
        Ok(document) => {
            let id = string_member(&document, "id");
            let name = string_member(&document, "name");
            match accepted_profile(success, id, name) {
                Ok(found) => Ok(found),
                Err(error) => Err(ServiceError::Answer(error, document)),
            }
        },
        Err(error) => Err(ServiceError::Malformed(error)),
    }
}

/// Of several pairs with one name the last one counts, and pairs with other names do
/// not matter.
pub proof fn law_last_pair_counts(
    pairs: Seq<(Seq<char>, Seq<char>)>,
    name: Seq<char>,
    other: Seq<char>,
    value: Seq<char>,
)
    ensures
        last_value(Seq::empty(), name, 0) is None,
        last_value(pairs.push((name, value)), name, (pairs.len() + 1) as int) == Some(value),
        other != name ==> last_value(pairs.push((other, value)), name, (pairs.len() + 1) as int)
            == last_value(pairs, name, pairs.len() as int),
{
    lemma_last_value_prefix(pairs, (other, value), name, pairs.len() as int);
}

proof fn lemma_last_value_prefix(
    pairs: Seq<(Seq<char>, Seq<char>)>,
    pair: (Seq<char>, Seq<char>),
    name: Seq<char>,
    n: int,
)
    requires
        0 <= n <= pairs.len(),
    ensures
        last_value(pairs.push(pair), name, n) == last_value(pairs, name, n),
    decreases n,
{
    if n > 0 {
        lemma_last_value_prefix(pairs, pair, name, n - 1);
        assert(pairs.push(pair)[n - 1] == pairs[n - 1]);
    }
}

/// A callback is used only with a code: a `code` that is not empty. It has the state
/// that stands with it, or none.
pub proof fn law_callback_needs_a_code(pairs: Seq<(Seq<char>, Seq<char>)>)
    ensures
        ({
            let code = last_value(pairs, "code"@, pairs.len() as int);
            let state = last_value(pairs, "state"@, pairs.len() as int);
            &&& callback_values(pairs) is Some <==> code is Some && code->0.len() > 0
            &&& callback_values(pairs) matches Some(found) ==> found == (code->0, state)
        }),
{
}

proof fn lemma_decimal_has_digits(port: nat)
    requires
        port <= 65535,
    ensures
        text::parse_unsigned(text::decimal(port), 65535) == Some(port),
        !text::decimal(port).contains('/'),
{
    let digits = text::decimal(port);
    text::law_parse_undoes_decimal(port, 65535);
    text::law_number_is_spelled_by_digits(digits, 65535);
    if digits.contains('/') {
        let i = choose|i: int| 0 <= i < digits.len() && digits[i] == '/';
        assert(digits[i] == '/');
        assert(false);
    }
}

/// Which addresses can be listened on: those of this machine with a port, whatever
/// path follows.
pub proof fn law_loopback_address_has_its_port(port: nat, path: Seq<char>)
    requires
        port <= 65535,
    ensures
        loopback_port("http://localhost:"@ + text::decimal(port)) == Some(port),
        loopback_port("http://localhost:"@ + text::decimal(port) + seq!['/'] + path) == Some(port),
        loopback_port("http://127.0.0.1:"@ + text::decimal(port)) == Some(port),
        loopback_port("http://127.0.0.1:"@ + text::decimal(port) + seq!['/'] + path) == Some(port),
{
    let digits = text::decimal(port);
    lemma_decimal_has_digits(port);
    lemma_no_cut(digits, '/');
    lemma_first_piece(digits, path, '/');
    reveal_strlit("http://localhost:");
    reveal_strlit("http://127.0.0.1:");
    let local = "http://localhost:"@;
    let number = "http://127.0.0.1:"@;
    let longer = digits + seq!['/'] + path;
    assert((local + digits).take(17) =~= local);
    assert((local + digits).skip(17) =~= digits);
    assert(local + digits + seq!['/'] + path =~= local + longer);
    assert((local + longer).take(17) =~= local);
    assert((local + longer).skip(17) =~= longer);
    assert((number + digits).take(17) =~= number);
    assert((number + digits).skip(17) =~= digits);
    assert(number + digits + seq!['/'] + path =~= number + longer);
    assert((number + longer).take(17) =~= number);
    assert((number + longer).skip(17) =~= longer);
    assert(number[7] != local[7]);
    assert((number + digits).take(17)[7] == number[7]);
    assert((number + longer).take(17)[7] == number[7]);
}

/// No other address can be listened on.
pub proof fn law_only_loopback_addresses_have_a_port(uri: Seq<char>)
    ensures
        loopback_port(uri) matches Some(port) ==> port <= 65535 && uri.len() > 17 && (uri.take(17)
            == "http://localhost:"@ || uri.take(17) == "http://127.0.0.1:"@),
{
    reveal_strlit("http://localhost:");
    reveal_strlit("http://127.0.0.1:");
    if let Some(port) = loopback_port(uri) {
        let rest = uri.skip(17);
        let first = text::split(rest, '/')[0];
        text::law_number_is_spelled_by_digits(first, 65535);
        if rest.len() == 0 {
            assert(!rest.contains('/'));
            lemma_no_cut(rest, '/');
        }
    }
}

/// Which redirect address is used: the one of the setting, without outer white space,
/// if it can be listened on; the default one where the setting says nothing. A setting
/// that cannot be used is refused.
pub proof fn law_setting_decides_the_redirect(value: Seq<char>)
    ensures
        redirect_uri(None) == Some("http://localhost:53682/callback"@),
        text::trim(value).len() == 0 ==> redirect_uri(Some(value)) == Some(
            "http://localhost:53682/callback"@,
        ),
        text::trim(value).len() > 0 && loopback_port(text::trim(value)) is Some ==> redirect_uri(
            Some(value),
        ) == Some(text::trim(value)),
        text::trim(value).len() > 0 && loopback_port(text::trim(value)) is None ==> redirect_uri(
            Some(value),
        ) is None,
{
}

/// How the wait goes on: as long as the time lasts, requests are taken; the callback is
/// answered and ends it, at the port that is listened on. Another request is ignored,
/// and a failure is told.
pub proof fn law_wait_lasts_until_the_callback(
    event: WaitEvent,
    port: u16,
    timeout: u128,
)
    ensures
        ({
            let action = wait_step(event, port, timeout);
            &&& event matches WaitEvent::Elapsed(time) ==> (action is Fail <==> time > timeout) && (
            action is Accept <==> time <= timeout)
            &&& event is NoConnection ==> action == WaitView::Pause(100)
            &&& event matches WaitEvent::Request(request) ==> match requested_path(
                lossy_text(request@),
            ) {
                Some(path) => action == WaitView::Answer {
                    callback: "http://127.0.0.1:"@ + text::decimal(port as nat) + path,
                    response: response_text(),
                },
                None => action is Measure,
            }
            &&& event matches WaitEvent::ReadFailed(error) ==> action == WaitView::Fail(
                "failed reading oauth callback request: "@ + error@,
            )
            &&& event matches WaitEvent::ListenFailed(error) ==> action == WaitView::Fail(
                "oauth callback listener failed: "@ + error@,
            )
        }),
        CALLBACK_TIMEOUT == 180 * 1000 * 1000 * 1000,
{
}

/// Which requests are the callback: those whose first line asks with `GET` for a path.
/// What follows the line does not matter, and requests of other kinds are none.
pub proof fn law_first_line_names_the_path(
    method: Seq<char>,
    path: Seq<char>,
    version: Seq<char>,
    rest: Seq<char>,
)
    requires
        method.len() > 0 && path.len() > 0 && version.len() > 0,
        forall|i: int| 0 <= i < method.len() ==> !text::is_space(#[trigger] method[i]),
        forall|i: int| 0 <= i < path.len() ==> !text::is_space(#[trigger] path[i]),
        forall|i: int| 0 <= i < version.len() ==> !text::is_space(#[trigger] version[i]),
    ensures
        ({
            let line = method + seq![' '] + path + seq![' '] + version;
            requested_path(line + seq!['\n'] + rest) == if method == "GET"@ {
                Some(path)
            } else {
                None
            }
        }),
{
    let line = method + seq![' '] + path + seq![' '] + version;
    text::law_ascii_white_space(' ');
    text::law_ascii_white_space('\n');
    if line.contains('\n') {
        let i = choose|i: int| 0 <= i < line.len() && line[i] == '\n';
        if i < method.len() {
            assert(method[i] == '\n');
        } else if method.len() < i < method.len() + 1 + path.len() {
            assert(path[i - method.len() - 1] == '\n');
        } else if i > method.len() + 1 + path.len() {
            assert(version[i - method.len() - path.len() - 2] == '\n');
        }
        assert(false);
    }
    lemma_first_piece(line, rest, '\n');
    let nothing = Seq::<char>::empty();
    text::law_words_stand_between_white_space(nothing, ' ', method);
    text::law_words_stand_between_white_space(method, ' ', path);
    text::law_words_stand_between_white_space(method + seq![' '] + path, ' ', version);
    assert(method.push(' ') + path =~= method + seq![' '] + path);
    assert((method + seq![' '] + path).push(' ') + version =~= line);
    assert(text::words(line) == seq![method].push(path).push(version));
}

/// The answer to the callback announces the length of the page and holds it whole.
pub proof fn law_answer_holds_the_page()
    ensures
        text::closes_with(response_text(), login_page()),
        text::contains_text(
            response_text(),
            "Content-Length: "@ + text::decimal(login_page().len()) + "\r\n"@,
        ),
        text::opens_with(response_text(), "HTTP/1.1 200 OK\r\n"@),
{
    let page = login_page();
    let head = "HTTP/1.1 200 OK\r\nContent-Type: text/html; charset=utf-8\r\nContent-Length: "@;
    let digits = text::decimal(page.len());
    let tail = "\r\nConnection: close\r\n\r\n"@;
    reveal_strlit("HTTP/1.1 200 OK\r\nContent-Type: text/html; charset=utf-8\r\nContent-Length: ");
    reveal_strlit("HTTP/1.1 200 OK\r\n");
    reveal_strlit("Content-Length: ");
    reveal_strlit("\r\n");
    reveal_strlit("\r\nConnection: close\r\n\r\n");
    let whole = response_text();
    assert(whole =~= head + digits + tail + page);
    assert(whole.skip(whole.len() - page.len()) =~= page);
    let length = "Content-Length: "@ + digits + "\r\n"@;
    let at = head.len() - 16;
    assert(whole.subrange(at, at + length.len()) =~= length);
    assert(text::occurs_at(whole, length, at));
    assert(whole.take(17) =~= "HTTP/1.1 200 OK\r\n"@);
}

/// A member of a document is the string that it holds under the name.
pub proof fn law_member_is_looked_up(
    strings: Map<Seq<char>, Seq<char>>,
    name: Seq<char>,
    other: Seq<char>,
    value: Seq<char>,
)
    ensures
        member(strings.insert(name, value), name) == Some(value),
        other != name ==> member(strings.insert(other, value), name) == member(strings, name),
        member(strings.remove(name), name) is None,
{
}

} // verus!
