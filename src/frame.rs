//! Wire framing of the long-polling transport: Engine.IO packet digits,
//! Socket.IO event packets on the `/agent` namespace, and length-prefixed
//! batches in poll responses.

use vstd::prelude::*;
use crate::json::{JsonValue, parse_json, json_parse, field, str_value, int_in};
use crate::text::{
    chars_of, string_of, push_str, sub_chars, starts_with, has_prefix, parse_usize, usize_of_text,
    push_decimal, decimal, index_of, find_char,
};

verus! {

/// Prefix of a Socket.IO event packet on the agent namespace.
pub open spec fn event_prefix() -> Seq<char> {
    "42/agent,"@
}

/// The frame that carries event `name` with JSON `payload`.
pub open spec fn event_frame(name: Seq<char>, payload: Seq<char>) -> Seq<char> {
    "42/agent,[\""@ + name + "\","@ + payload + "]"@
}

/// Builds the frame `42/agent,["<name>",<payload>]`; the name is written as given.
pub fn encode_event(name: &str, payload_json: &str) -> (r: String)
    ensures
        r@ == event_frame(name@, payload_json@),
{
    let mut v: Vec<char> = Vec::new();
    push_str(&mut v, "42/agent,[\"");
    push_str(&mut v, name);
    push_str(&mut v, "\",");
    push_str(&mut v, payload_json);
    push_str(&mut v, "]");
    assert(v@ =~= event_frame(name@, payload_json@));
    string_of(&v)
}

/// The namespace-connect packet for `/agent`.
pub fn namespace_connect_frame() -> (r: String)
    ensures
        r@ == "40/agent,"@,
{
    let mut v: Vec<char> = Vec::new();
    push_str(&mut v, "40/agent,");
    assert(v@ =~= "40/agent,"@);
    string_of(&v)
}

/// Whether a response acknowledges the namespace connect; anything else is tolerated by callers.
pub fn is_namespace_ack(resp: &str) -> (r: bool)
    ensures
        r == has_prefix(resp@, "40/agent,"@),
{
    starts_with(resp, "40/agent,")
}

/// A bare ping packet.
pub fn ping_frame() -> (r: String)
    ensures
        r@ == "2"@,
{
    let mut v: Vec<char> = Vec::new();
    push_str(&mut v, "2");
    assert(v@ =~= "2"@);
    string_of(&v)
}

/// Pong and noop packets carry nothing for the application.
pub open spec fn keepalive(frame: Seq<char>) -> bool {
    frame == "3"@ || frame == "6"@
}

pub fn is_keepalive(frame: &str) -> (r: bool)
    ensures
        r == keepalive(frame@),
{
    crate::text::same_text(frame, "3") || crate::text::same_text(frame, "6")
}

/// Session parameters granted by the server's open packet.
#[derive(Debug)]
pub struct Handshake {
    pub sid: String,
    pub ping_interval: u64,
    pub ping_timeout: u64,
}

/// `sid`, `pingInterval` and `pingTimeout` of an open packet's JSON object.
pub open spec fn handshake_fields(v: JsonValue) -> Option<(Seq<char>, u64, u64)> {
    match (field(v, "sid"@), field(v, "pingInterval"@), field(v, "pingTimeout"@)) {
        (Some(s), Some(a), Some(b)) => match (str_value(s), int_in(a, 0, u64::MAX as int), int_in(b, 0, u64::MAX as int)) {
            (Some(sid), Some(x), Some(y)) => Some((sid, x as u64, y as u64)),
            _ => None,
        },
        _ => None,
    }
}

/// What an open packet's text yields: a `0`, then a JSON object.
pub open spec fn handshake_of(text: Seq<char>) -> Option<(Seq<char>, u64, u64)> {
    if text.len() > 0 && text[0] == '0' {
        match json_parse(text.drop_first()) {
            Some(v) => handshake_fields(v),
            None => None,
        }
    } else {
        None
    }
}

pub open spec fn handshake_view(h: Handshake) -> (Seq<char>, u64, u64) {
    (h.sid@, h.ping_interval, h.ping_timeout)
}

/// Reads the session parameters out of an open packet's JSON object.
pub fn handshake_from_json(v: &JsonValue) -> (r: Option<Handshake>)
    ensures
        match r {
            Some(h) => handshake_fields(*v) == Some(handshake_view(h)),
            None => handshake_fields(*v) is None,
        },
{
    let s = match v.get("sid") {
        Some(x) => x,
        None => return None,
    };
    let a = match v.get("pingInterval") {
        Some(x) => x,
        None => return None,
    };
    let b = match v.get("pingTimeout") {
        Some(x) => x,
        None => return None,
    };
    match (s.as_text(), a.as_u64(), b.as_u64()) {
        (Some(sid), Some(x), Some(y)) => Some(Handshake { sid, ping_interval: x, ping_timeout: y }),
        _ => None,
    }
}

/// Parses the server's answer to the handshake request.
pub fn parse_handshake(text: &str) -> (r: Option<Handshake>)
    ensures
        match r {
            Some(h) => handshake_of(text@) == Some(handshake_view(h)),
            None => handshake_of(text@) is None,
        },
{
    let v = chars_of(text);
    if v.len() == 0 || v[0] != '0' {
        return None;
    }
    let rest = string_of(&sub_chars(&v, 1, v.len()));
    assert(rest@ =~= text@.drop_first());
    match parse_json(rest.as_str()) {
        Some(j) => handshake_from_json(&j),
        None => None,
    }
}

/// The number of bytes that UTF-8 spends on `c`.
pub open spec fn utf8_len(c: char) -> nat {
    let u = c as u32;
    if u < 0x80 {
        1
    } else if u < 0x800 {
        2
    } else if u < 0x10000 {
        3
    } else {
        4
    }
}

pub fn utf8_width(c: char) -> (r: usize)
    ensures
        r as nat == utf8_len(c),
{
    let u = c as u32;
    if u < 0x80 {
        1
    } else if u < 0x800 {
        2
    } else if u < 0x10000 {
        3
    } else {
        4
    }
}

/// How many leading characters of `s` fit in `n` bytes of UTF-8.
pub open spec fn take_bytes(s: Seq<char>, n: nat) -> nat
    decreases s.len(),
{
    if s.len() > 0 && utf8_len(s[0]) <= n {
        1 + take_bytes(s.drop_first(), (n - utf8_len(s[0])) as nat)
    } else {
        0
    }
}

/// Whether `s` opens with a length prefix: decimal digits, then `:`.
pub open spec fn length_prefixed(s: Seq<char>) -> bool {
    match index_of(s, ':') {
        Some(c) => 0 <= c < s.len() && usize_of_text(s.subrange(0, c)) is Some,
        None => false,
    }
}

/// The frames of a poll response: `<len>:<frame>` repeated, where `len` counts
/// UTF-8 bytes; a frame ends with the last whole character that fits, so a
/// length past the end takes the rest. A length that does not end at a frame
/// boundary (the end of the body, or another length prefix) is not trusted:
/// the text after its `:` is then one frame. Text without a valid prefix is one
/// frame by itself.
pub open spec fn batch_frames(s: Seq<char>) -> Seq<Seq<char>>
    decreases s.len(),
{
    if s.len() == 0 {
        Seq::empty()
    } else {
        match index_of(s, ':') {
            Some(c) => if 0 <= c < s.len() {
                match usize_of_text(s.subrange(0, c)) {
                    Some(n) => {
                        let end = c + 1 + take_bytes(s.subrange(c + 1, s.len() as int), n);
                        if end <= s.len() {
                            let rest = s.subrange(end, s.len() as int);
                            if rest.len() == 0 || length_prefixed(rest) {
                                seq![s.subrange(c + 1, end)] + batch_frames(rest)
                            } else {
                                seq![s.subrange(c + 1, s.len() as int)]
                            }
                        } else {
                            seq![s]
                        }
                    },
                    None => seq![s],
                }
            } else {
                seq![s]
            },
            None => seq![s],
        }
    }
}

/// The end of the longest run of characters from `start` that fits in `n` bytes.
fn fit_bytes(v: &Vec<char>, start: usize, n: usize) -> (end: usize)
    requires
        start <= v@.len(),
    ensures
        start <= end <= v@.len(),
        end - start == take_bytes(v@.subrange(start as int, v@.len() as int), n as nat),
{
    let len = v.len();
    let mut j = start;
    let mut budget = n;
    while j < len && utf8_width(v[j]) <= budget
        invariant
            len == v@.len(),
            start <= j <= len,
            take_bytes(v@.subrange(start as int, len as int), n as nat)
                == (j - start) + take_bytes(v@.subrange(j as int, len as int), budget as nat),
        decreases len - j,
    {
        let w = utf8_width(v[j]);
        assert(v@.subrange(j as int, len as int).drop_first() =~= v@.subrange(j + 1, len as int));
        budget = budget - w;
        j = j + 1;
    }
    if j == len {
        assert(v@.subrange(j as int, len as int).len() == 0);
    }
    j
}

/// A body whose first `:` is missing, or is not preceded by a valid length, is
/// one frame by itself: no error, nothing dropped.
pub proof fn law_unprefixed_body_is_one_frame(s: Seq<char>)
    requires
        s.len() > 0,
        match index_of(s, ':') {
            Some(c) => usize_of_text(s.subrange(0, c)) is None,
            None => true,
        },
    ensures
        batch_frames(s) == seq![s],
{
}

/// A length prefix that ends inside the text, short of another prefix, is not
/// trusted: everything after its `:` is one frame.
pub proof fn law_misaligned_length_takes_the_rest(s: Seq<char>, c: int, n: nat)
    requires
        0 <= c < s.len(),
        index_of(s, ':') == Some(c),
        usize_of_text(s.subrange(0, c)) == Some(n),
        c + 1 + take_bytes(s.subrange(c + 1, s.len() as int), n) < s.len(),
        !length_prefixed(s.subrange(c + 1 + take_bytes(s.subrange(c + 1, s.len() as int), n), s.len() as int)),
    ensures
        batch_frames(s) == seq![s.subrange(c + 1, s.len() as int)],
{
}

/// Whether `v` from `from` on opens with a length prefix.
fn has_length_prefix(v: &Vec<char>, from: usize) -> (r: bool)
    requires
        from <= v@.len(),
    ensures
        r == length_prefixed(v@.subrange(from as int, v@.len() as int)),
{
    match find_char(v, from, ':') {
        Some(c) => {
            assert(v@.subrange(from as int, v@.len() as int).subrange(0, c - from) =~= v@.subrange(from as int, c as int));
            parse_usize(v, from, c).is_some()
        },
        None => false,
    }
}

pub open spec fn text_views(v: Seq<String>) -> Seq<Seq<char>> {
    v.map_values(|s: String| s@)
}

/// Splits a poll response into its frames, in order; a length that ends inside
/// a character ends the frame before that character.
pub fn split_batch(body: &str) -> (r: Vec<String>)
    ensures
        text_views(r@) == batch_frames(body@),
{
    let v = chars_of(body);
    let len = v.len();
    let mut out: Vec<String> = Vec::new();
    let mut pos: usize = 0;
    assert(v@.subrange(0, len as int) =~= v@);
    while pos < len
        invariant
            v@ == body@,
            len == v@.len(),
            pos <= len,
            text_views(out@) + batch_frames(v@.subrange(pos as int, len as int)) == batch_frames(v@),
        decreases len - pos,
    {
        let ghost rest = v@.subrange(pos as int, len as int);
        let tail = string_of(&sub_chars(&v, pos, len));
        match find_char(&v, pos, ':') {
            Some(c) => {
                assert(rest.subrange(0, c - pos) =~= v@.subrange(pos as int, c as int));
                match parse_usize(&v, pos, c) {
                    Some(n) => {
                        let start = c + 1;
                        let end = fit_bytes(&v, start, n);
                        assert(rest.subrange(c + 1 - pos, rest.len() as int) =~= v@.subrange(start as int, len as int));
                        assert(rest.subrange(end - pos, rest.len() as int) =~= v@.subrange(end as int, len as int));
                        if end < len && !has_length_prefix(&v, end) {
                            let whole = string_of(&sub_chars(&v, start, len));
                            let ghost before = out@;
                            out.push(whole);
                            assert(text_views(out@) =~= text_views(before) + batch_frames(rest));
                            assert(v@.subrange(len as int, len as int) =~= Seq::<char>::empty());
                            pos = len;
                            continue;
                        }
                        let frame = string_of(&sub_chars(&v, start, end));
                        let ghost e = end - pos;
                        assert(rest.subrange(c + 1 - pos, e) =~= v@.subrange(start as int, end as int));
                        assert(rest.subrange(e, rest.len() as int) =~= v@.subrange(end as int, len as int));
                        assert(batch_frames(rest) == seq![frame@] + batch_frames(v@.subrange(end as int, len as int)));
                        let ghost before = out@;
                        out.push(frame);
                        assert(text_views(out@) =~= text_views(before).push(frame@));
                        assert(text_views(out@) + batch_frames(v@.subrange(end as int, len as int))
                            =~= text_views(before) + batch_frames(rest));
                        pos = end;
                    },
                    None => {
                        let ghost before = out@;
                        out.push(tail);
                        assert(text_views(out@) =~= text_views(before) + batch_frames(rest));
                        assert(v@.subrange(len as int, len as int) =~= Seq::<char>::empty());
                        pos = len;
                    },
                }
            },
            None => {
                let ghost before = out@;
                out.push(tail);
                assert(text_views(out@) =~= text_views(before) + batch_frames(rest));
                assert(v@.subrange(len as int, len as int) =~= Seq::<char>::empty());
                pos = len;
            },
        }
    }
    out
}

/// The event name and data of an event frame: the text after the prefix must be a
/// JSON array whose first item is a string; the data is the second item, or null.
pub open spec fn event_of(frame: Seq<char>) -> Option<(Seq<char>, JsonValue)> {
    if has_prefix(frame, event_prefix()) {
        match json_parse(frame.subrange(event_prefix().len() as int, frame.len() as int)) {
            Some(JsonValue::Array(items)) => if items@.len() > 0 && items@[0] is Str {
                Some((
                    items@[0]->Str_0@,
                    if items@.len() > 1 { items@[1] } else { JsonValue::Null },
                ))
            } else {
                None
            },
            _ => None,
        }
    } else {
        None
    }
}

pub open spec fn event_view(e: (String, JsonValue)) -> (Seq<char>, JsonValue) {
    (e.0@, e.1)
}

/// Decodes one event frame into its name and data.
pub fn decode_event(frame: &str) -> (r: Option<(String, JsonValue)>)
    ensures
        match r {
            Some(e) => event_of(frame@) == Some(event_view(e)),
            None => event_of(frame@) is None,
        },
{
    if !starts_with(frame, "42/agent,") {
        return None;
    }
    let fv = chars_of(frame);
    let pv = chars_of("42/agent,");
    let rest = string_of(&sub_chars(&fv, pv.len(), fv.len()));
    assert(rest@ =~= frame@.subrange(event_prefix().len() as int, frame@.len() as int));
    match parse_json(rest.as_str()) {
        Some(JsonValue::Array(mut items)) => {
            if items.len() == 0 {
                return None;
            }
            let ghost orig = items@;
            let data = if items.len() > 1 { items.swap_remove(1) } else { JsonValue::Null };
            assert(items@[0] == orig[0]);
            match &items[0] {
                JsonValue::Str(name) => Some((name.clone(), data)),
                _ => None,
            }
        },
        _ => None,
    }
}

/// The events carried by a sequence of frames, in order; frames that are not
/// well-formed event frames are dropped.
pub open spec fn events_of(frames: Seq<Seq<char>>) -> Seq<(Seq<char>, JsonValue)>
    decreases frames.len(),
{
    if frames.len() == 0 {
        Seq::empty()
    } else {
        let prev = events_of(frames.drop_last());
        match event_of(frames.last()) {
            Some(e) => prev.push(e),
            None => prev,
        }
    }
}

/// Keep-alive frames never decode as events.
pub proof fn lemma_keepalive_no_event(frame: Seq<char>)
    requires
        keepalive(frame),
    ensures
        event_of(frame) is None,
{
    reveal_strlit("3");
    reveal_strlit("6");
    reveal_strlit("42/agent,");
}

/// The parts of a server URL that the transport reads.
#[derive(Debug)]
pub struct UrlParts {
    pub scheme: String,
    pub host: Option<String>,
    pub port: Option<u16>,
    pub path: String,
}

/// What the url crate parses a URL into, or the text of its parse error.
pub uninterp spec fn url_parts(s: Seq<char>) -> Result<UrlParts, Seq<char>>;

/// Relies on `url::Url::parse` and the `scheme`, `host_str`, `port` and `path`
/// accessors of the parsed URL; on failure, on the parse error's message.
#[verifier::external_body]
pub(crate) fn parse_url(s: &str) -> (r: Result<UrlParts, String>)
    ensures
        match r {
            Ok(p) => url_parts(s@) == Ok::<UrlParts, Seq<char>>(p),
            Err(e) => url_parts(s@) == Err::<UrlParts, Seq<char>>(e@),
        },
{
    match url::Url::parse(s) {
        Ok(u) => Ok(UrlParts {
            scheme: u.scheme().to_string(),
            host: u.host_str().map(|h| h.to_string()),
            port: u.port(),
            path: u.path().to_string(),
        }),
        Err(e) => Err(e.to_string()),
    }
}

/// Where a session lives: `{base_url}{socket_path}/?EIO=4&transport=polling...`.
#[derive(Debug)]
pub struct Endpoint {
    pub base_url: String,
    pub socket_path: String,
}

/// `scheme://host[:port]`, with `localhost` for a URL without a host.
pub open spec fn base_url_of(p: UrlParts) -> Seq<char> {
    p.scheme@ + "://"@ + (match p.host {
        Some(h) => h@,
        None => "localhost"@,
    }) + (match p.port {
        Some(n) => ":"@ + decimal(n as nat),
        None => Seq::empty(),
    })
}

/// `s` without its trailing slashes.
pub open spec fn trim_slashes(s: Seq<char>) -> Seq<char>
    decreases s.len(),
{
    if s.len() > 0 && s.last() == '/' {
        trim_slashes(s.drop_last())
    } else {
        s
    }
}

/// The Socket.IO path under the URL's path: `/socket.io` at the root, else `<path>/socket.io`.
pub open spec fn socket_path_of(path: Seq<char>) -> Seq<char> {
    let t = trim_slashes(path);
    if t.len() == 0 || t == "/"@ {
        "/socket.io"@
    } else {
        t + "/socket.io"@
    }
}

fn trimmed_len(v: &Vec<char>) -> (n: usize)
    ensures
        n <= v@.len(),
        v@.subrange(0, n as int) == trim_slashes(v@),
{
    let mut n = v.len();
    assert(v@.subrange(0, n as int) =~= v@);
    while n > 0 && v[n - 1] == '/'
        invariant
            n <= v@.len(),
            trim_slashes(v@.subrange(0, n as int)) == trim_slashes(v@),
        decreases n,
    {
        assert(v@.subrange(0, n as int).drop_last() =~= v@.subrange(0, n - 1));
        n = n - 1;
    }
    n
}

/// The endpoint that a parsed server URL designates.
pub fn endpoint_of(p: &UrlParts) -> (r: Endpoint)
    ensures
        r.base_url@ == base_url_of(*p),
        r.socket_path@ == socket_path_of(p.path@),
{
    let mut b: Vec<char> = chars_of(p.scheme.as_str());
    push_str(&mut b, "://");
    match &p.host {
        Some(h) => push_str(&mut b, h.as_str()),
        None => push_str(&mut b, "localhost"),
    }
    match p.port {
        Some(n) => {
            push_str(&mut b, ":");
            push_decimal(&mut b, n as u64);
        },
        None => {},
    }
    assert(b@ =~= base_url_of(*p));
    let pv = chars_of(p.path.as_str());
    let n = trimmed_len(&pv);
    let mut sp = sub_chars(&pv, 0, n);
    let t = string_of(&sp);
    if n == 0 || crate::text::same_text(t.as_str(), "/") {
        sp = chars_of("/socket.io");
    } else {
        push_str(&mut sp, "/socket.io");
    }
    Endpoint { base_url: string_of(&b), socket_path: string_of(&sp) }
}

/// `{base_url}{socket_path}/?EIO=4&transport=polling`.
pub open spec fn handshake_url_of(base: Seq<char>, path: Seq<char>) -> Seq<char> {
    base + path + "/?EIO=4&transport=polling"@
}

/// The URL of a session's polls and posts: the handshake URL with `&sid=<sid>`.
pub open spec fn session_url_of(base: Seq<char>, path: Seq<char>, sid: Seq<char>) -> Seq<char> {
    handshake_url_of(base, path) + "&sid="@ + sid
}

impl Endpoint {
    pub fn handshake_url(&self) -> (r: String)
        ensures
            r@ == handshake_url_of(self.base_url@, self.socket_path@),
    {
        let mut v = chars_of(self.base_url.as_str());
        push_str(&mut v, self.socket_path.as_str());
        push_str(&mut v, "/?EIO=4&transport=polling");
        string_of(&v)
    }

    pub fn session_url(&self, sid: &str) -> (r: String)
        ensures
            r@ == session_url_of(self.base_url@, self.socket_path@, sid@),
    {
        let mut v = chars_of(self.base_url.as_str());
        push_str(&mut v, self.socket_path.as_str());
        push_str(&mut v, "/?EIO=4&transport=polling");
        push_str(&mut v, "&sid=");
        push_str(&mut v, sid);
        string_of(&v)
    }
}

} // verus!
