//! Month-to-date AWS spend, read from the Cost Explorer API with a request
//! signed by AWS Signature Version 4. Dating, signing and preparing the
//! request and finding the amount in the answer are here; reading the clock,
//! the HTTP exchange and the dollar comparisons (floating point) are the
//! caller's.
use vstd::prelude::*;
use vstd::string::*;
use vstd::utf8::*;
use hmac::Mac;
use sha2::Digest;
use crate::json::{member, number_of_value, string_of_value, JsonNumber, JsonValue};
use crate::provider::civil_date;
use crate::text::zero_padded;
use super::{is_invalid_config, required_str, ConfigError};

verus! {

/// Cost Explorer is a global service, always signed against us-east-1.
pub const CE_REGION: &'static str = "us-east-1";
/// The signing name of Cost Explorer.
pub const CE_SERVICE: &'static str = "ce";
/// The Cost Explorer endpoint host.
pub const CE_HOST: &'static str = "ce.us-east-1.amazonaws.com";
/// The operation invoked.
pub const CE_TARGET: &'static str = "AWSInsightsIndexService.GetCostAndUsage";
/// The headers covered by the signature, sorted by name.
pub const SIGNED_HEADERS: &'static str = "content-type;host;x-amz-date;x-amz-target";
/// The strftime pattern of the `X-Amz-Date` timestamp.
pub const AMZ_DATE_FORMAT: &'static str = "%Y%m%dT%H%M%SZ";
/// The strftime pattern of the signing date.
pub const DATE_FORMAT: &'static str = "%Y%m%d";
/// The strftime pattern of the first day of the current month.
pub const MONTH_START_FORMAT: &'static str = "%Y-%m-01";
/// The strftime pattern of the current day.
pub const DAY_FORMAT: &'static str = "%Y-%m-%d";

/// The text `chrono` writes for the UTC instant `secs` seconds after the
/// Unix epoch with the strftime pattern `pattern`, or `None` when `chrono`
/// cannot represent that instant.
pub uninterp spec fn utc_text_of(secs: i64, pattern: Seq<char>) -> Option<Seq<char>>;

/// The SHA-256 digest of `data`, as the `sha2` crate computes it.
pub uninterp spec fn sha256_of(data: Seq<u8>) -> Seq<u8>;

/// HMAC-SHA-256 of `data` under `key`, as the `hmac` crate computes it.
pub uninterp spec fn hmac_sha256_of(key: Seq<u8>, data: Seq<u8>) -> Seq<u8>;

/// The patterns a cost request is dated with.
pub open spec fn is_request_date_pattern(p: Seq<char>) -> bool {
    p == AMZ_DATE_FORMAT@ || p == DATE_FORMAT@ || p == MONTH_START_FORMAT@ || p == DAY_FORMAT@
}

/// The instant `secs` (seconds after the Unix epoch) lies between the epoch
/// and the end of the year 9999, where `chrono` writes `%Y` as four digits.
pub open spec fn in_four_digit_years(secs: i64) -> bool {
    0 <= secs && secs < 253_402_300_800
}

/// The UTC date and time `secs` seconds after the Unix epoch written with
/// one of the request's patterns, each field zero-padded as `chrono` pads
/// `%Y` (four digits) and `%m`, `%d`, `%H`, `%M`, `%S` (two digits).
pub open spec fn utc_date_text(secs: nat, pattern: Seq<char>) -> Seq<char> {
    let date = civil_date((secs / 86400) as int);
    let y = zero_padded(date.0 as nat, 4);
    let mo = zero_padded(date.1 as nat, 2);
    let d = zero_padded(date.2 as nat, 2);
    if pattern == AMZ_DATE_FORMAT@ {
        y + mo + d + seq!['T'] + zero_padded(((secs / 3600) % 24) as nat, 2) + zero_padded(
            ((secs / 60) % 60) as nat,
            2,
        ) + zero_padded((secs % 60) as nat, 2) + seq!['Z']
    } else if pattern == DATE_FORMAT@ {
        y + mo + d
    } else if pattern == MONTH_START_FORMAT@ {
        y + seq!['-'] + mo + seq!['-', '0', '1']
    } else {
        y + seq!['-'] + mo + seq!['-'] + d
    }
}

/// `chrono::DateTime::from_timestamp(secs, 0)` (`None` on an out-of-range
/// number of seconds) written with `format(pattern).to_string()`; the text
/// is named `utc_text_of`. From the epoch up to the year 9999 the instant
/// is in range and the text is `utc_date_text`, by the padding `chrono`
/// documents for these specifiers. Only the request's own patterns are
/// admitted, all made of specifiers `chrono` accepts, so the formatting
/// cannot fail.
#[verifier::external_body]
fn utc_text(secs: i64, pattern: &str) -> (r: Option<String>)
    requires
        is_request_date_pattern(pattern@),
    ensures
        match r {
            Some(t) => utc_text_of(secs, pattern@) == Some(t@) && (in_four_digit_years(secs) ==> t@
                == utc_date_text(secs as nat, pattern@)),
            None => utc_text_of(secs, pattern@) is None && !in_four_digit_years(secs),
        },
{
    match chrono::DateTime::from_timestamp(secs, 0) {
        Some(d) => Some(d.format(pattern).to_string()),
        None => None,
    }
}

/// `sha2::Sha256::digest`: the 32-byte SHA-256 digest of `data`; the result
/// is named `sha256_of`, and its length is the algorithm's fixed output size.
#[verifier::external_body]
fn sha256_digest(data: &[u8]) -> (r: Vec<u8>)
    ensures
        r@ == sha256_of(data@),
        r@.len() == 32,
{
    sha2::Sha256::digest(data).to_vec()
}

/// `hmac::Hmac<Sha256>` keyed with `key` (any key length is accepted),
/// updated with `data` and finalized: the 32-byte tag, named
/// `hmac_sha256_of`.
#[verifier::external_body]
pub(crate) fn hmac_sha256(key: &[u8], data: &[u8]) -> (r: Vec<u8>)
    ensures
        r@ == hmac_sha256_of(key@, data@),
        r@.len() == 32,
{
    let mut mac = <hmac::Hmac<sha2::Sha256> as hmac::Mac>::new_from_slice(key).expect("HMAC accepts any key length");
    mac.update(data);
    mac.finalize().into_bytes().to_vec()
}

/// The lowercase hexadecimal digit of `n` (0..15).
pub open spec fn hex_digit(n: nat) -> char {
    if n < 10 {
        ('0' as nat + n) as char
    } else {
        ('a' as nat + (n - 10)) as char
    }
}

/// Lowercase hexadecimal text of a byte string: two digits per byte, high
/// nibble first.
pub open spec fn hex_lower(bytes: Seq<u8>) -> Seq<char>
    decreases bytes.len(),
{
    if bytes.len() == 0 {
        Seq::empty()
    } else {
        seq![hex_digit((bytes[0] / 16) as nat), hex_digit((bytes[0] % 16) as nat)] + hex_lower(
            bytes.drop_first(),
        )
    }
}

/// `hex::encode`: the lowercase hexadecimal text of `data`.
#[verifier::external_body]
fn hex_encode(data: &[u8]) -> (r: String)
    ensures
        r@ == hex_lower(data@),
{
    hex::encode(data)
}

/// How `serde_json` writes one character inside a string literal: `"` and
/// `\` after a backslash; backspace, tab, line feed, form feed and carriage
/// return as `\b`, `\t`, `\n`, `\f`, `\r`; any other character below U+0020
/// as `\u00` and two lowercase hex digits; every other character as is.
pub open spec fn json_escape(c: char) -> Seq<char> {
    if c == '"' {
        seq!['\\', '"']
    } else if c == '\\' {
        seq!['\\', '\\']
    } else if c == '\u{8}' {
        seq!['\\', 'b']
    } else if c == '\t' {
        seq!['\\', 't']
    } else if c == '\n' {
        seq!['\\', 'n']
    } else if c == '\u{c}' {
        seq!['\\', 'f']
    } else if c == '\r' {
        seq!['\\', 'r']
    } else if (c as int) < 0x20 {
        seq!['\\', 'u', '0', '0', hex_digit(((c as int) / 16) as nat), hex_digit(((c as int) % 16) as nat)]
    } else {
        seq![c]
    }
}

/// The characters of `s`, each written as `json_escape` says.
pub open spec fn json_escaped(s: Seq<char>) -> Seq<char>
    decreases s.len(),
{
    if s.len() == 0 {
        Seq::empty()
    } else {
        json_escape(s[0]) + json_escaped(s.drop_first())
    }
}

/// The JSON string literal of `s`: its escaped characters between quotes.
pub open spec fn json_string_text(s: Seq<char>) -> Seq<char> {
    seq!['"'] + json_escaped(s) + seq!['"']
}

/// `serde_json`'s rendering (`Display` of `Value::String`) of the string
/// `s`: the literal `json_string_text(s)`, by the escape table of
/// `format_escaped_str_contents` and `write_char_escape`.
#[verifier::external_body]
fn json_string(s: &str) -> (r: String)
    ensures
        r@ == json_string_text(s@),
{
    serde_json::Value::String(s.to_string()).to_string()
}

/// The Cost Explorer request body for the period `start`..`end`: monthly
/// granularity of the blended-cost metric, written as compact JSON with the
/// members of each object in sorted order, as `serde_json` writes a map.
pub open spec fn cost_payload_of(start: Seq<char>, end: Seq<char>) -> Seq<char> {
    "{\"Granularity\":\"MONTHLY\",\"Metrics\":[\"BlendedCost\"],\"TimePeriod\":{\"End\":"@ + json_string_text(end)
        + ",\"Start\":"@ + json_string_text(start) + "}}"@
}

/// Writes the request body for the period `start`..`end`.
fn cost_payload(start: &str, end: &str) -> (r: String)
    ensures
        r@ == cost_payload_of(start@, end@),
{
    let mut p = String::from_str("{\"Granularity\":\"MONTHLY\",\"Metrics\":[\"BlendedCost\"],\"TimePeriod\":{\"End\":");
    let e = json_string(end);
    p.append(e.as_str());
    p.append(",\"Start\":");
    let st = json_string(start);
    p.append(st.as_str());
    p.append("}}");
    p
}

/// Lowercase hex of the SHA-256 digest of `data`.
pub fn sha256_hex(data: &[u8]) -> (r: String)
    ensures
        r@ == hex_lower(sha256_of(data@)),
{
    let digest = sha256_digest(data);
    hex_encode(digest.as_slice())
}

/// The SigV4 signing key for `secret` on `date` (`YYYYMMDD`), scoped to
/// Cost Explorer in us-east-1.
pub open spec fn signing_key(secret: Seq<char>, date: Seq<char>) -> Seq<u8> {
    let k_date = hmac_sha256_of(encode_utf8("AWS4"@ + secret), encode_utf8(date));
    let k_region = hmac_sha256_of(k_date, encode_utf8(CE_REGION@));
    let k_service = hmac_sha256_of(k_region, encode_utf8(CE_SERVICE@));
    hmac_sha256_of(k_service, encode_utf8("aws4_request"@))
}

/// Derives the SigV4 signing key: HMAC chain over date, region, service and
/// `aws4_request`, starting from `AWS4<secret>`.
pub fn derive_signing_key(secret: &str, date: &str) -> (r: Vec<u8>)
    ensures
        r@ == signing_key(secret@, date@),
        r@.len() == 32,
{
    let mut k = String::from_str("AWS4");
    k.append(secret);
    let k_date = hmac_sha256(k.as_str().as_bytes(), date.as_bytes());
    let k_region = hmac_sha256(k_date.as_slice(), CE_REGION.as_bytes());
    let k_service = hmac_sha256(k_region.as_slice(), CE_SERVICE.as_bytes());
    hmac_sha256(k_service.as_slice(), "aws4_request".as_bytes())
}

/// The canonical headers, sorted by name, each line ending in a newline.
pub open spec fn canonical_headers(amz_date: Seq<char>) -> Seq<char> {
    "content-type:application/x-amz-json-1.1\nhost:"@ + CE_HOST@ + "\nx-amz-date:"@ + amz_date
        + "\nx-amz-target:"@ + CE_TARGET@ + "\n"@
}

/// The canonical request of a `POST /` with an empty query string.
pub open spec fn canonical_request(amz_date: Seq<char>, payload_hash: Seq<char>) -> Seq<char> {
    "POST\n/\n\n"@ + canonical_headers(amz_date) + "\n"@ + SIGNED_HEADERS@ + "\n"@ + payload_hash
}

/// The credential scope `<date>/us-east-1/ce/aws4_request`.
pub open spec fn credential_scope(date: Seq<char>) -> Seq<char> {
    date + "/"@ + CE_REGION@ + "/"@ + CE_SERVICE@ + "/aws4_request"@
}

/// The string to sign for a request at `amz_date` with body `payload`.
pub open spec fn string_to_sign(amz_date: Seq<char>, date: Seq<char>, payload: Seq<char>) -> Seq<char> {
    let payload_hash = hex_lower(sha256_of(encode_utf8(payload)));
    "AWS4-HMAC-SHA256\n"@ + amz_date + "\n"@ + credential_scope(date) + "\n"@ + hex_lower(
        sha256_of(encode_utf8(canonical_request(amz_date, payload_hash))),
    )
}

/// The `Authorization` header value of a signed Cost Explorer request.
pub open spec fn authorization_value(
    access_key_id: Seq<char>,
    secret: Seq<char>,
    amz_date: Seq<char>,
    date: Seq<char>,
    payload: Seq<char>,
) -> Seq<char> {
    let signature = hex_lower(
        hmac_sha256_of(signing_key(secret, date), encode_utf8(string_to_sign(amz_date, date, payload))),
    );
    "AWS4-HMAC-SHA256 Credential="@ + access_key_id + "/"@ + credential_scope(date) + ", SignedHeaders="@
        + SIGNED_HEADERS@ + ", Signature="@ + signature
}

/// Reads month-to-date spend and compares it with a dollar threshold.
#[derive(Debug)]
pub struct AwsBillingChecker {
    pub access_key_id: String,
    pub secret_access_key: String,
    /// `threshold_usd` as given; when absent the threshold is 100 dollars.
    pub threshold_usd: Option<JsonNumber>,
    /// `degraded_pct` as given; when absent it is 0.8.
    pub degraded_pct: Option<JsonNumber>,
}

/// A signed Cost Explorer request, ready to send.
#[derive(Debug)]
pub struct CostRequest {
    /// The JSON body.
    pub payload: String,
    /// The `X-Amz-Date` header value.
    pub amz_date: String,
    /// The `Authorization` header value.
    pub authorization: String,
}

/// Whether `r` is the result of reading a `AwsBillingChecker` configuration from `config`.
pub open spec fn aws_billing_settings(config: JsonValue, r: Result<AwsBillingChecker, ConfigError>) -> bool {
    match (
        string_of_value(member(config, "access_key_id"@)),
        string_of_value(member(config, "secret_access_key"@)),
    ) {
        (None, _) => r matches Err(e) && is_invalid_config(
            e,
            "aws_billing requires 'access_key_id'"@,
        ),
        (Some(_), None) => r matches Err(e) && is_invalid_config(
            e,
            "aws_billing requires 'secret_access_key'"@,
        ),
        (Some(a), Some(s)) => r matches Ok(c) && {
            &&& c.access_key_id@ == a
            &&& c.secret_access_key@ == s
            &&& c.threshold_usd == number_of_value(member(config, "threshold_usd"@))
            &&& c.degraded_pct == number_of_value(member(config, "degraded_pct"@))
        },
    }
}

/// Whether `r` is the cost request for the period `month_start`..`today`,
/// signed with `c`'s credentials at `amz_date` on `date`.
pub open spec fn is_signed_request(
    c: AwsBillingChecker,
    r: CostRequest,
    amz_date: Seq<char>,
    date: Seq<char>,
    month_start: Seq<char>,
    today: Seq<char>,
) -> bool {
    &&& r.payload@ == cost_payload_of(month_start, today)
    &&& r.amz_date@ == amz_date
    &&& r.authorization@ == authorization_value(
        c.access_key_id@,
        c.secret_access_key@,
        amz_date,
        date,
        r.payload@,
    )
}

impl AwsBillingChecker {
    /// Reads the checker's settings: `access_key_id` and `secret_access_key`
    /// (required), `threshold_usd` and `degraded_pct` (numbers, optional).
    pub fn from_config(config: &JsonValue) -> (r: Result<AwsBillingChecker, ConfigError>)
        ensures
            aws_billing_settings(*config, r),
    {
        let access_key_id = required_str(config, "access_key_id", "aws_billing requires 'access_key_id'")?;
        let secret_access_key = required_str(
            config,
            "secret_access_key",
            "aws_billing requires 'secret_access_key'",
        )?;
        let threshold_usd = config.get_number("threshold_usd");
        let degraded_pct = config.get_number("degraded_pct");
        Ok(AwsBillingChecker { access_key_id, secret_access_key, threshold_usd, degraded_pct })
    }

    /// Prepares the month-to-date cost request for the period
    /// `month_start`..`today`, signed at `amz_date` (`YYYYMMDDTHHMMSSZ`) on
    /// `date` (`YYYYMMDD`).
    pub fn prepare_request(&self, amz_date: &str, date: &str, month_start: &str, today: &str) -> (r: CostRequest)
        ensures
            is_signed_request(*self, r, amz_date@, date@, month_start@, today@),
    {
        let payload = cost_payload(month_start, today);
        let payload_hash = sha256_hex(payload.as_str().as_bytes());

        let mut canonical = String::from_str("POST\n/\n\n");
        canonical.append("content-type:application/x-amz-json-1.1\nhost:");
        canonical.append(CE_HOST);
        canonical.append("\nx-amz-date:");
        canonical.append(amz_date);
        canonical.append("\nx-amz-target:");
        canonical.append(CE_TARGET);
        canonical.append("\n");
        canonical.append("\n");
        canonical.append(SIGNED_HEADERS);
        canonical.append("\n");
        canonical.append(payload_hash.as_str());
        assert(canonical@ =~= canonical_request(amz_date@, payload_hash@));

        let mut scope = String::from_str(date);
        scope.append("/");
        scope.append(CE_REGION);
        scope.append("/");
        scope.append(CE_SERVICE);
        scope.append("/aws4_request");
        assert(scope@ =~= credential_scope(date@));

        let canonical_hash = sha256_hex(canonical.as_str().as_bytes());
        let mut to_sign = String::from_str("AWS4-HMAC-SHA256\n");
        to_sign.append(amz_date);
        to_sign.append("\n");
        to_sign.append(scope.as_str());
        to_sign.append("\n");
        to_sign.append(canonical_hash.as_str());
        assert(to_sign@ =~= string_to_sign(amz_date@, date@, payload@));

        let key = derive_signing_key(self.secret_access_key.as_str(), date);
        let tag = hmac_sha256(key.as_slice(), to_sign.as_str().as_bytes());
        let signature = hex_encode(tag.as_slice());

        let mut authorization = String::from_str("AWS4-HMAC-SHA256 Credential=");
        authorization.append(self.access_key_id.as_str());
        authorization.append("/");
        authorization.append(scope.as_str());
        authorization.append(", SignedHeaders=");
        authorization.append(SIGNED_HEADERS);
        authorization.append(", Signature=");
        authorization.append(signature.as_str());
        assert(authorization@ =~= authorization_value(
            self.access_key_id@,
            self.secret_access_key@,
            amz_date@,
            date@,
            payload@,
        ));
        CostRequest { payload, amz_date: String::from_str(amz_date), authorization }
    }

    /// Prepares the month-to-date cost request at the instant `now_secs`
    /// (seconds since the Unix epoch), dated in UTC by `chrono`: signed at
    /// that instant, for the period from the first of its month to its day;
    /// `None` when `chrono` cannot represent the instant. Between the epoch
    /// and the end of the year 9999 the request is always made, with the
    /// dates `utc_date_text` writes.
    pub fn prepare_request_at(&self, now_secs: i64) -> (r: Option<CostRequest>)
        ensures
            match (
                utc_text_of(now_secs, AMZ_DATE_FORMAT@),
                utc_text_of(now_secs, DATE_FORMAT@),
                utc_text_of(now_secs, MONTH_START_FORMAT@),
                utc_text_of(now_secs, DAY_FORMAT@),
            ) {
                (Some(a), Some(d), Some(m), Some(t)) => r matches Some(req) && is_signed_request(
                    *self,
                    req,
                    a,
                    d,
                    m,
                    t,
                ),
                _ => r is None,
            },
            in_four_digit_years(now_secs) ==> (r matches Some(req) && is_signed_request(
                *self,
                req,
                utc_date_text(now_secs as nat, AMZ_DATE_FORMAT@),
                utc_date_text(now_secs as nat, DATE_FORMAT@),
                utc_date_text(now_secs as nat, MONTH_START_FORMAT@),
                utc_date_text(now_secs as nat, DAY_FORMAT@),
            )),
    {
        let amz_date = utc_text(now_secs, AMZ_DATE_FORMAT);
        let date = utc_text(now_secs, DATE_FORMAT);
        let month_start = utc_text(now_secs, MONTH_START_FORMAT);
        let today = utc_text(now_secs, DAY_FORMAT);
        match (amz_date, date, month_start, today) {
            (Some(a), Some(d), Some(m), Some(t)) => Some(
                self.prepare_request(a.as_str(), d.as_str(), m.as_str(), t.as_str()),
            ),
            _ => None,
        }
    }
}

/// The element at `i` of `v` when it is an array that long.
pub open spec fn element(v: Option<JsonValue>, i: int) -> Option<JsonValue> {
    match v {
        Some(JsonValue::Array(items)) => if 0 <= i < items@.len() {
            Some(items@[i])
        } else {
            None
        },
        _ => None,
    }
}

/// The member `key` of `v` when present.
pub open spec fn field(v: Option<JsonValue>, key: Seq<char>) -> Option<JsonValue> {
    match v {
        Some(x) => member(x, key),
        None => None,
    }
}

/// The amount text at `ResultsByTime[0].Total.BlendedCost.Amount`.
pub open spec fn blended_cost_text(response: JsonValue) -> Option<Seq<char>> {
    string_of_value(
        field(
            field(field(element(member(response, "ResultsByTime"@), 0), "Total"@), "BlendedCost"@),
            "Amount"@,
        ),
    )
}

fn member_of<'a>(v: Option<&'a JsonValue>, key: &str) -> (r: Option<&'a JsonValue>)
    ensures
        match r {
            Some(x) => field(match v { Some(y) => Some(*y), None => None }, key@) == Some(*x),
            None => field(match v { Some(y) => Some(*y), None => None }, key@) is None,
        },
{
    match v {
        Some(x) => x.get(key),
        None => None,
    }
}

/// The month-to-date amount text in a Cost Explorer response, if present.
pub fn blended_cost_amount(response: &JsonValue) -> (r: Option<&str>)
    ensures
        match r {
            Some(s) => blended_cost_text(*response) == Some(s@),
            None => blended_cost_text(*response) is None,
        },
{
    let first = match response.get("ResultsByTime") {
        Some(JsonValue::Array(items)) => if items.len() > 0 {
            Some(&items[0])
        } else {
            None
        },
        _ => None,
    };
    let total = member_of(first, "Total");
    let cost = member_of(total, "BlendedCost");
    let amount = member_of(cost, "Amount");
    match amount {
        Some(JsonValue::String(s)) => Some(s.as_str()),
        _ => None,
    }
}

} // verus!
