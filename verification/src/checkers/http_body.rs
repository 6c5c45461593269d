//! An HTTP checker that also records (a bounded prefix of) the response body.
use vstd::prelude::*;
use vstd::string::*;
use vstd::utf8::*;
use crate::json::{
    entries_map, keys_distinct, member, string_of_value, u64_of_value, JsonNumber, JsonObject,
    JsonValue,
};
use crate::text::{decimal, is_prefix};
use super::{
    failed_output, is_down_with, is_invalid_config, is_success, is_success_code, labelled_code,
    latency_status, latency_verdict, required_str, CheckOutput, CheckStatus, ConfigError,
};

verus! {

broadcast use vstd::utf8::encode_utf8_decode_utf8;

/// Fetches a URL and keeps the head of its body.
#[derive(Debug)]
pub struct HttpBodyChecker {
    pub url: String,
    pub timeout_ms: u64,
    pub degraded_ms: Option<u64>,
    /// Extra request headers, each name at most once.
    pub headers: Vec<(String, String)>,
    pub body_limit: usize,
}

/// The names in a list of header pairs are pairwise distinct.
pub open spec fn names_distinct(hs: Seq<(String, String)>) -> bool {
    forall|i: int, j: int| 0 <= i < j < hs.len() ==> hs[i].0@ != hs[j].0@
}

/// The map that a list of header pairs denotes.
pub open spec fn header_map(hs: Seq<(String, String)>) -> Map<Seq<char>, Seq<char>> {
    Map::new(
        |k: Seq<char>| exists|i: int| 0 <= i < hs.len() && hs[i].0@ == k,
        |k: Seq<char>| hs[choose|i: int| 0 <= i < hs.len() && hs[i].0@ == k].1@,
    )
}

/// The string-valued members of `v` when it is an object (other members are
/// ignored); nothing otherwise.
pub open spec fn string_members(v: Option<JsonValue>) -> Map<Seq<char>, Seq<char>> {
    match v {
        Some(JsonValue::Object(o)) => Map::new(
            |k: Seq<char>| o.view().dom().contains(k) && o.view()[k] is String,
            |k: Seq<char>| o.view()[k]->String_0@,
        ),
        _ => Map::empty(),
    }
}

fn string_headers(o: &JsonObject) -> (r: Vec<(String, String)>)
    ensures
        names_distinct(r@),
        header_map(r@) == string_members(Some(JsonValue::Object(*o))),
{
    let n = o.len();
    let ghost es = o.entry_seq();
    let mut r: Vec<(String, String)> = Vec::new();
    let ghost mut src: Seq<int> = Seq::empty();
    for i in 0..n
        invariant
            n == es.len(),
            es == o.entry_seq(),
            keys_distinct(es),
            o.view() == entries_map(es),
            src.len() == r@.len(),
            forall|a: int| 0 <= a < src.len() ==> 0 <= #[trigger] src[a] < i,
            forall|a: int, b: int| 0 <= a < b < src.len() ==> src[a] < src[b],
            forall|a: int|
                0 <= a < src.len() ==> r@[a].0@ == es[src[a]].0@ && es[src[a]].1 is String
                    && r@[a].1@ == es[src[a]].1->String_0@,
            forall|j: int|
                0 <= j < i && es[j].1 is String ==> exists|a: int| 0 <= a < src.len() && src[a] == j,
    {
        let (k, v) = o.entry_at(i);
        match v {
            JsonValue::String(s) => {
                let ghost old_r = r@;
                let ghost old_src = src;
                let pair = (k.clone(), s.clone());
                r.push(pair);
                proof {
                    src = src.push(i as int);
                    assert(es[i as int].1 is String);
                    assert(r@[old_r.len() as int].1@ == es[i as int].1->String_0@);
                    assert forall|a: int| 0 <= a < src.len() implies r@[a].0@ == es[src[a]].0@
                        && es[src[a]].1 is String && r@[a].1@ == es[src[a]].1->String_0@ by {
                        if a < old_src.len() {
                            assert(r@[a] == old_r[a]);
                            assert(src[a] == old_src[a]);
                        }
                    }
                    assert forall|j: int| 0 <= j < i + 1 && es[j].1 is String implies exists|a: int|
                        0 <= a < src.len() && src[a] == j by {
                        if j == i {
                            assert(src[old_src.len() as int] == j);
                        } else {
                            let a = choose|a: int| 0 <= a < old_src.len() && old_src[a] == j;
                            assert(src[a] == j);
                        }
                    }
                }
            },
            _ => {
                assert(!(es[i as int].1 is String));
            },
        }
    }
    proof {
        let want = string_members(Some(JsonValue::Object(*o)));
        assert forall|a: int, b: int| 0 <= a < b < r@.len() implies r@[a].0@ != r@[b].0@ by {
            assert(src[a] < src[b]);
        }
        assert forall|k: Seq<char>| header_map(r@).dom().contains(k) == want.dom().contains(k) by {
            if header_map(r@).dom().contains(k) {
                let a = choose|a: int| 0 <= a < r@.len() && r@[a].0@ == k;
                let j = src[a];
                assert(0 <= j < es.len() && es[j].0@ == k);
                let c = choose|c: int| 0 <= c < es.len() && es[c].0@ == k;
                assert(c == j);
            }
            if want.dom().contains(k) {
                let j = choose|j: int| 0 <= j < es.len() && es[j].0@ == k;
                assert(es[j].1 is String);
                let a = choose|a: int| 0 <= a < src.len() && src[a] == j;
                assert(r@[a].0@ == k);
            }
        }
        assert forall|k: Seq<char>| #[trigger] header_map(r@).dom().contains(k) implies header_map(
            r@,
        )[k] == want[k] by {
            let a = choose|a: int| 0 <= a < r@.len() && r@[a].0@ == k;
            let j = src[a];
            assert(0 <= j < es.len() && es[j].0@ == k);
            let c = choose|c: int| 0 <= c < es.len() && es[c].0@ == k;
            assert(c == j);
        }
        assert(header_map(r@) =~= want);
    }
    r
}

/// The response of a fetch that completed.
#[derive(Debug)]
pub struct HttpReply {
    pub http_status: u16,
    pub body: String,
}

/// The body as recorded: unchanged when it has at most `limit` bytes, else
/// its first `limit` bytes followed by `"\n[truncated]"`.
pub open spec fn recorded_body(body: Seq<char>, limit: usize) -> Seq<char> {
    if encode_utf8(body).len() > limit {
        decode_utf8(encode_utf8(body).subrange(0, limit as int)) + "\n[truncated]"@
    } else {
        body
    }
}

/// The body can be cut at `limit` bytes without splitting a character, or
/// need not be cut at all.
pub open spec fn cuttable(body: Seq<char>, limit: usize) -> bool {
    encode_utf8(body).len() > limit ==> is_char_boundary(encode_utf8(body), limit as int)
}

/// Law: the recorded body is the response body itself when it fits in
/// `limit` bytes; otherwise it is the body's leading characters, exactly
/// `limit` bytes of them, followed by the `"\n[truncated]"` marker. So the
/// stored body never exceeds the limit by more than the marker.
pub proof fn lemma_recorded_body_is_head(body: Seq<char>, limit: usize)
    requires
        cuttable(body, limit),
    ensures
        encode_utf8(body).len() <= limit ==> recorded_body(body, limit) == body,
        encode_utf8(body).len() > limit ==> {
            let head = decode_utf8(encode_utf8(body).subrange(0, limit as int));
            &&& recorded_body(body, limit) == head + "\n[truncated]"@
            &&& is_prefix(head, body)
            &&& encode_utf8(head).len() == limit
        },
{
    let bytes = encode_utf8(body);
    if bytes.len() > limit {
        let pre = bytes.subrange(0, limit as int);
        let post = bytes.subrange(limit as int, bytes.len() as int);
        encode_utf8_valid_utf8(body);
        valid_utf8_split(bytes, limit as int);
        decode_utf8_encode_utf8(pre);
        decode_utf8_split(bytes, limit as int);
        encode_utf8_decode_utf8(body);
        let head = decode_utf8(pre);
        assert(body == head + decode_utf8(post));
        assert(body.subrange(0, head.len() as int) =~= head);
    }
}

/// Whether `body` can be cut at `limit` bytes (see `cuttable`).
pub fn cuttable_at(body: &str, limit: usize) -> (r: bool)
    ensures
        r == cuttable(body@, limit),
{
    if body.as_bytes().len() > limit {
        body.is_char_boundary(limit)
    } else {
        true
    }
}

/// Cuts an over-long body down to `limit` bytes and marks it as truncated.
pub fn truncate_body(body: String, limit: usize) -> (r: String)
    requires
        cuttable(body@, limit),
    ensures
        r@ == recorded_body(body@, limit),
{
    let b = body.as_str();
    let bytes = b.as_bytes();
    if bytes.len() > limit {
        let (head, _tail) = b.split_at(limit);
        let mut t = String::from_str(head);
        t.append("\n[truncated]");
        t
    } else {
        body
    }
}

/// Whether `r` is the result of reading a `HttpBodyChecker` configuration from `config`.
pub open spec fn http_body_settings(config: JsonValue, r: Result<HttpBodyChecker, ConfigError>) -> bool {
    match string_of_value(member(config, "url"@)) {
        None => r matches Err(e) && is_invalid_config(e, "http_body checker requires 'url'"@),
        Some(u) => r matches Ok(c) && {
            &&& c.url@ == u
            &&& c.timeout_ms == match u64_of_value(member(config, "timeout_ms"@)) {
                Some(t) => t,
                None => 10_000,
            }
            &&& c.degraded_ms == u64_of_value(member(config, "degraded_ms"@))
            &&& c.body_limit == (match u64_of_value(member(config, "body_limit"@)) {
                Some(b) => b,
                None => 4096,
            }) as usize
            &&& names_distinct(c.headers@)
            &&& header_map(c.headers@) == string_members(member(config, "headers"@))
        },
    }
}

impl HttpBodyChecker {
    /// Reads the checker's settings: `url` (required), `timeout_ms` (default
    /// 10000), `degraded_ms`, `body_limit` (default 4096) and the
    /// string-valued members of `headers`.
    pub fn from_config(config: &JsonValue) -> (r: Result<HttpBodyChecker, ConfigError>)
        ensures
            http_body_settings(*config, r),
    {
        let url = required_str(config, "url", "http_body checker requires 'url'")?;
        let timeout_ms = match config.get_u64("timeout_ms") {
            Some(t) => t,
            None => 10_000,
        };
        let degraded_ms = config.get_u64("degraded_ms");
        let limit: u64 = match config.get_u64("body_limit") {
            Some(b) => b,
            None => 4096,
        };
        let body_limit = limit as usize;
        let headers = match config.get("headers") {
            Some(JsonValue::Object(o)) => string_headers(o),
            _ => {
                let h: Vec<(String, String)> = Vec::new();
                assert(header_map(h@) =~= Map::empty());
                h
            },
        };
        Ok(HttpBodyChecker { url, timeout_ms, degraded_ms, headers, body_limit })
    }

    /// The verdict of one fetch that took `elapsed_ms`: down on a transport
    /// error or a non-2xx status, else by latency; the detail records the
    /// status code and the (possibly truncated) body.
    pub fn outcome(&self, reply: Result<HttpReply, String>, elapsed_ms: u64) -> (r: CheckOutput)
        requires
            reply matches Ok(rep) ==> cuttable(rep.body@, self.body_limit),
        ensures
            match reply {
                Err(e) => is_down_with(r, Some(elapsed_ms), e@),
                Ok(rep) => {
                    &&& r.status == if !is_success_code(rep.http_status) {
                        CheckStatus::Down
                    } else {
                        latency_verdict(self.degraded_ms, elapsed_ms)
                    }
                    &&& r.response_ms == Some(elapsed_ms)
                    &&& r.detail matches Some(JsonValue::Object(d)) && d.view() == map![
                        "http_status"@ => JsonValue::Number(JsonNumber::PosInt(rep.http_status as u64)),
                        "body"@ => JsonValue::String(d.view()["body"@]->String_0),
                    ] && d.view()["body"@]->String_0@ == recorded_body(rep.body@, self.body_limit)
                    &&& if is_success_code(rep.http_status) {
                        r.error_message is None
                    } else {
                        r.error_message matches Some(m) && m@ == "HTTP "@ + decimal(rep.http_status as nat)
                    }
                },
            },
            match reply {
                Ok(rep) => if 200 <= rep.http_status && rep.http_status <= 299 {
                    r.status == latency_verdict(self.degraded_ms, elapsed_ms) && r.error_message is None
                } else {
                    &&& r.status == CheckStatus::Down
                    &&& r.error_message matches Some(m) && m@ == "HTTP "@ + decimal(rep.http_status as nat)
                },
                Err(_) => true,
            },
    {
        match reply {
            Err(e) => failed_output(Some(elapsed_ms), e),
            Ok(rep) => {
                let ok = is_success(rep.http_status);
                let code = rep.http_status;
                let body = truncate_body(rep.body, self.body_limit);
                let ghost body_view = body;
                let status = if !ok {
                    CheckStatus::Down
                } else {
                    latency_status(self.degraded_ms, elapsed_ms)
                };
                let mut d = JsonObject::new();
                d.insert(String::from_str("http_status"), JsonValue::Number(JsonNumber::PosInt(code as u64)));
                d.insert(String::from_str("body"), JsonValue::String(body));
                proof {
                    assert(d.view() =~= map![
                        "http_status"@ => JsonValue::Number(JsonNumber::PosInt(code as u64)),
                        "body"@ => JsonValue::String(body_view),
                    ]);
                }
                let error_message = if !ok {
                    Some(labelled_code("HTTP ", code))
                } else {
                    None
                };
                CheckOutput {
                    status,
                    response_ms: Some(elapsed_ms),
                    detail: Some(JsonValue::Object(d)),
                    error_message,
                }
            },
        }
    }
}

} // verus!
