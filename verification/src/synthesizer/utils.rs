//! The messages that configure speech synthesis: their headers and bodies.
use vstd::prelude::*;

use super::Config;
use crate::text::{decimal, decimal_string, occurs_at};
use crate::translator::client::pair_views;

verus! {

/// The text that `serde_json` writes for a JSON string holding `s`: `s`
/// between quotes, with the characters that JSON requires escaped.
pub uninterp spec fn json_string(s: Seq<char>) -> Seq<char>;

/// Writes `s` as a JSON string with `serde_json` (the `Display` of
/// `serde_json::Value::String`). The contract claims that the text depends on
/// `s` alone; the escaping is not written out.
#[verifier::external_body]
fn json_string_text(s: &str) -> (r: String)
    ensures
        r@ == json_string(s@),
{
    serde_json::Value::String(s.to_string()).to_string()
}

/// `true` or `false`, as JSON writes a boolean.
pub open spec fn json_bool(b: bool) -> Seq<char> {
    if b {
        "true"@
    } else {
        "false"@
    }
}

fn json_bool_text(b: bool) -> (r: &'static str)
    ensures
        r@ == json_bool(b),
{
    if b {
        "true"
    } else {
        "false"
    }
}

/// The headers of a speech configuration message.
pub open spec fn speech_config_headers_spec(session_id: Seq<char>, timestamp_ms: u128) -> Seq<
    (Seq<char>, Seq<char>),
> {
    seq![
        ("X-RequestId"@, session_id),
        ("Path"@, "speech.config"@),
        ("Content-Type"@, "application/json"@),
        ("X-Timestamp"@, decimal(timestamp_ms as nat)),
    ]
}

/// The headers of a synthesis context message.
pub open spec fn synthesis_context_headers_spec(session_id: Seq<char>, timestamp_ms: u128) -> Seq<
    (Seq<char>, Seq<char>),
> {
    seq![
        ("Content-Type"@, "application/json"@),
        ("X-Timestamp"@, decimal(timestamp_ms as nat)),
        ("X-RequestId"@, session_id),
        ("Path"@, "synthesis.context"@),
    ]
}

/// The headers of an SSML message.
pub open spec fn ssml_headers_spec(session_id: Seq<char>, timestamp_ms: u128) -> Seq<
    (Seq<char>, Seq<char>),
> {
    seq![
        ("Content-Type"@, "application/ssml+xml"@),
        ("X-Timestamp"@, decimal(timestamp_ms as nat)),
        ("X-RequestId"@, session_id),
        ("Path"@, "ssml"@),
    ]
}

/// Each set of headers names the session under `X-RequestId`, the time in
/// decimal under `X-Timestamp`, and its own path and content type: JSON on
/// `speech.config` and `synthesis.context`, SSML on `ssml`.
pub proof fn lemma_header_contents(session_id: Seq<char>, timestamp_ms: u128)
    ensures
        ({
            let h = speech_config_headers_spec(session_id, timestamp_ms);
            &&& h.contains(("X-RequestId"@, session_id))
            &&& h.contains(("Path"@, "speech.config"@))
            &&& h.contains(("Content-Type"@, "application/json"@))
            &&& h.contains(("X-Timestamp"@, decimal(timestamp_ms as nat)))
        }),
        ({
            let h = synthesis_context_headers_spec(session_id, timestamp_ms);
            &&& h.contains(("X-RequestId"@, session_id))
            &&& h.contains(("Path"@, "synthesis.context"@))
            &&& h.contains(("Content-Type"@, "application/json"@))
            &&& h.contains(("X-Timestamp"@, decimal(timestamp_ms as nat)))
        }),
        ({
            let h = ssml_headers_spec(session_id, timestamp_ms);
            &&& h.contains(("X-RequestId"@, session_id))
            &&& h.contains(("Path"@, "ssml"@))
            &&& h.contains(("Content-Type"@, "application/ssml+xml"@))
            &&& h.contains(("X-Timestamp"@, decimal(timestamp_ms as nat)))
        }),
{
    let t = decimal(timestamp_ms as nat);
    let h = speech_config_headers_spec(session_id, timestamp_ms);
    assert(h[0] == ("X-RequestId"@, session_id));
    assert(h[1] == ("Path"@, "speech.config"@));
    assert(h[2] == ("Content-Type"@, "application/json"@));
    assert(h[3] == ("X-Timestamp"@, t));
    let h = synthesis_context_headers_spec(session_id, timestamp_ms);
    assert(h[0] == ("Content-Type"@, "application/json"@));
    assert(h[1] == ("X-Timestamp"@, t));
    assert(h[2] == ("X-RequestId"@, session_id));
    assert(h[3] == ("Path"@, "synthesis.context"@));
    let h = ssml_headers_spec(session_id, timestamp_ms);
    assert(h[0] == ("Content-Type"@, "application/ssml+xml"@));
    assert(h[1] == ("X-Timestamp"@, t));
    assert(h[2] == ("X-RequestId"@, session_id));
    assert(h[3] == ("Path"@, "ssml"@));
}

/// The body of a speech configuration message: the JSON object
/// `{"context":{"os":…,"system":…}}`, its keys in the sorted order in which
/// `serde_json` writes an object.
pub open spec fn speech_config_body(config: Config) -> Seq<char> {
    "{\"context\":{\"os\":"@ + json_string(config.device.os@) + ",\"system\":"@ + json_string(
        config.device.system@,
    ) + "}}"@
}

/// The body of a synthesis context message: the JSON object that asks for
/// the configured metadata, audio format and language detection, its keys in
/// the sorted order in which `serde_json` writes an object.
pub open spec fn synthesis_context_body(config: Config) -> Seq<char> {
    "{\"synthesis\":{\"audio\":{\"metadataOptions\":{\"bookmarkEnabled\":"@ + json_bool(
        config.bookmark_enabled,
    ) + ",\"punctuationBoundaryEnabled\":"@ + json_bool(config.punctuation_boundary_enabled)
        + ",\"sentenceBoundaryEnabled\":"@ + json_bool(config.sentence_boundary_enabled)
        + ",\"sessionEndEnabled\":"@ + json_bool(config.session_end_enabled)
        + ",\"visemeEnabled\":"@ + json_bool(config.viseme_enabled) + ",\"wordBoundaryEnabled\":"@
        + json_bool(config.word_boundary_enabled) + "},\"outputFormat\":"@ + json_string(
        "riff-16khz-16bit-mono-pcm"@,
    ) + "},\"language\":{\"autoDetection\":"@ + json_bool(config.auto_detect_language) + "}}}"@
}

/// A member whose key ends the literal `text`, followed by its value, is
/// found where that key starts.
proof fn lemma_member_at_end(s: Seq<char>, text: Seq<char>, key: Seq<char>, value: Seq<char>)
    requires
        key.len() <= text.len(),
        text.subrange(text.len() - key.len(), text.len() as int) == key,
    ensures
        occurs_at(s + text + value, key + value, s.len() + text.len() - key.len()),
{
    let i = s.len() + text.len() - key.len();
    assert((s + text + value).subrange(i, i + (key + value).len()) =~= key + value);
}

/// What occurs in a text still occurs there when more text follows.
proof fn lemma_occurs_extend(s: Seq<char>, t: Seq<char>, m: Seq<char>, i: int)
    requires
        occurs_at(s, m, i),
    ensures
        occurs_at(s + t, m, i),
{
    assert((s + t).subrange(i, i + m.len()) =~= s.subrange(i, i + m.len()));
}

/// Each metadata option of a synthesis context body carries the field of the
/// configuration of that name: `"bookmarkEnabled":true` stands in the body
/// where bookmarks are asked for, `"bookmarkEnabled":false` where they are
/// not, and so on for punctuation, sentence and word boundaries, the end of
/// the session, visemes and language detection; the output format stands
/// under `outputFormat`.
pub proof fn lemma_synthesis_context_members(config: Config)
    ensures
        config.bookmark_enabled ==> exists|i: int|
            #[trigger] occurs_at(synthesis_context_body(config), "\"bookmarkEnabled\":true"@, i),
        !config.bookmark_enabled ==> exists|i: int|
            #[trigger] occurs_at(synthesis_context_body(config), "\"bookmarkEnabled\":false"@, i),
        config.punctuation_boundary_enabled ==> exists|i: int|
            #[trigger] occurs_at(
                synthesis_context_body(config),
                "\"punctuationBoundaryEnabled\":true"@,
                i,
            ),
        !config.punctuation_boundary_enabled ==> exists|i: int|
            #[trigger] occurs_at(
                synthesis_context_body(config),
                "\"punctuationBoundaryEnabled\":false"@,
                i,
            ),
        config.sentence_boundary_enabled ==> exists|i: int|
            #[trigger] occurs_at(
                synthesis_context_body(config),
                "\"sentenceBoundaryEnabled\":true"@,
                i,
            ),
        !config.sentence_boundary_enabled ==> exists|i: int|
            #[trigger] occurs_at(
                synthesis_context_body(config),
                "\"sentenceBoundaryEnabled\":false"@,
                i,
            ),
        config.session_end_enabled ==> exists|i: int|
            #[trigger] occurs_at(synthesis_context_body(config), "\"sessionEndEnabled\":true"@, i),
        !config.session_end_enabled ==> exists|i: int|
            #[trigger] occurs_at(synthesis_context_body(config), "\"sessionEndEnabled\":false"@, i),
        config.viseme_enabled ==> exists|i: int|
            #[trigger] occurs_at(synthesis_context_body(config), "\"visemeEnabled\":true"@, i),
        !config.viseme_enabled ==> exists|i: int|
            #[trigger] occurs_at(synthesis_context_body(config), "\"visemeEnabled\":false"@, i),
        config.word_boundary_enabled ==> exists|i: int|
            #[trigger] occurs_at(
                synthesis_context_body(config),
                "\"wordBoundaryEnabled\":true"@,
                i,
            ),
        !config.word_boundary_enabled ==> exists|i: int|
            #[trigger] occurs_at(
                synthesis_context_body(config),
                "\"wordBoundaryEnabled\":false"@,
                i,
            ),
        exists|i: int|
            #[trigger] occurs_at(
                synthesis_context_body(config),
                "\"outputFormat\":"@ + json_string("riff-16khz-16bit-mono-pcm"@),
                i,
            ),
        config.auto_detect_language ==> exists|i: int|
            #[trigger] occurs_at(synthesis_context_body(config), "\"autoDetection\":true"@, i),
        !config.auto_detect_language ==> exists|i: int|
            #[trigger] occurs_at(synthesis_context_body(config), "\"autoDetection\":false"@, i),
{
    reveal_strlit("true");
    reveal_strlit("false");
    let p0 = "{\"synthesis\":{\"audio\":{\"metadataOptions\":{\"bookmarkEnabled\":"@;
    let p1 = json_bool(config.bookmark_enabled);
    let p2 = ",\"punctuationBoundaryEnabled\":"@;
    let p3 = json_bool(config.punctuation_boundary_enabled);
    let p4 = ",\"sentenceBoundaryEnabled\":"@;
    let p5 = json_bool(config.sentence_boundary_enabled);
    let p6 = ",\"sessionEndEnabled\":"@;
    let p7 = json_bool(config.session_end_enabled);
    let p8 = ",\"visemeEnabled\":"@;
    let p9 = json_bool(config.viseme_enabled);
    let p10 = ",\"wordBoundaryEnabled\":"@;
    let p11 = json_bool(config.word_boundary_enabled);
    let p12 = "},\"outputFormat\":"@;
    let p13 = json_string("riff-16khz-16bit-mono-pcm"@);
    let p14 = "},\"language\":{\"autoDetection\":"@;
    let p15 = json_bool(config.auto_detect_language);
    let p16 = "}}}"@;
    let t0 = p0;
    let t1 = t0 + p1;
    let t2 = t1 + p2;
    let t3 = t2 + p3;
    let t4 = t3 + p4;
    let t5 = t4 + p5;
    let t6 = t5 + p6;
    let t7 = t6 + p7;
    let t8 = t7 + p8;
    let t9 = t8 + p9;
    let t10 = t9 + p10;
    let t11 = t10 + p11;
    let t12 = t11 + p12;
    let t13 = t12 + p13;
    let t14 = t13 + p14;
    let t15 = t14 + p15;
    let t16 = t15 + p16;
    assert(t16 == synthesis_context_body(config));
    reveal_strlit("{\"synthesis\":{\"audio\":{\"metadataOptions\":{\"bookmarkEnabled\":");
    reveal_strlit("\"bookmarkEnabled\":");
    let key = "\"bookmarkEnabled\":"@;
    assert(p0.subrange(p0.len() - key.len(), p0.len() as int) =~= key);
    lemma_member_at_end(Seq::<char>::empty(), p0, key, p1);
    assert(Seq::<char>::empty() + p0 + p1 =~= t1);
    let i = Seq::<char>::empty().len() + p0.len() - key.len();
    let m = key + p1;
    lemma_occurs_extend(t1, p2, m, i);
    lemma_occurs_extend(t2, p3, m, i);
    lemma_occurs_extend(t3, p4, m, i);
    lemma_occurs_extend(t4, p5, m, i);
    lemma_occurs_extend(t5, p6, m, i);
    lemma_occurs_extend(t6, p7, m, i);
    lemma_occurs_extend(t7, p8, m, i);
    lemma_occurs_extend(t8, p9, m, i);
    lemma_occurs_extend(t9, p10, m, i);
    lemma_occurs_extend(t10, p11, m, i);
    lemma_occurs_extend(t11, p12, m, i);
    lemma_occurs_extend(t12, p13, m, i);
    lemma_occurs_extend(t13, p14, m, i);
    lemma_occurs_extend(t14, p15, m, i);
    lemma_occurs_extend(t15, p16, m, i);
    reveal_strlit("\"bookmarkEnabled\":true");
    reveal_strlit("\"bookmarkEnabled\":false");
    if config.bookmark_enabled {
        assert(m =~= "\"bookmarkEnabled\":true"@);
        assert(occurs_at(t16, "\"bookmarkEnabled\":true"@, i));
    } else {
        assert(m =~= "\"bookmarkEnabled\":false"@);
        assert(occurs_at(t16, "\"bookmarkEnabled\":false"@, i));
    }
    reveal_strlit(",\"punctuationBoundaryEnabled\":");
    reveal_strlit("\"punctuationBoundaryEnabled\":");
    let key = "\"punctuationBoundaryEnabled\":"@;
    assert(p2.subrange(p2.len() - key.len(), p2.len() as int) =~= key);
    lemma_member_at_end(t1, p2, key, p3);
    let i = t1.len() + p2.len() - key.len();
    let m = key + p3;
    lemma_occurs_extend(t3, p4, m, i);
    lemma_occurs_extend(t4, p5, m, i);
    lemma_occurs_extend(t5, p6, m, i);
    lemma_occurs_extend(t6, p7, m, i);
    lemma_occurs_extend(t7, p8, m, i);
    lemma_occurs_extend(t8, p9, m, i);
    lemma_occurs_extend(t9, p10, m, i);
    lemma_occurs_extend(t10, p11, m, i);
    lemma_occurs_extend(t11, p12, m, i);
    lemma_occurs_extend(t12, p13, m, i);
    lemma_occurs_extend(t13, p14, m, i);
    lemma_occurs_extend(t14, p15, m, i);
    lemma_occurs_extend(t15, p16, m, i);
    reveal_strlit("\"punctuationBoundaryEnabled\":true");
    reveal_strlit("\"punctuationBoundaryEnabled\":false");
    if config.punctuation_boundary_enabled {
        assert(m =~= "\"punctuationBoundaryEnabled\":true"@);
        assert(occurs_at(t16, "\"punctuationBoundaryEnabled\":true"@, i));
    } else {
        assert(m =~= "\"punctuationBoundaryEnabled\":false"@);
        assert(occurs_at(t16, "\"punctuationBoundaryEnabled\":false"@, i));
    }
    reveal_strlit(",\"sentenceBoundaryEnabled\":");
    reveal_strlit("\"sentenceBoundaryEnabled\":");
    let key = "\"sentenceBoundaryEnabled\":"@;
    assert(p4.subrange(p4.len() - key.len(), p4.len() as int) =~= key);
    lemma_member_at_end(t3, p4, key, p5);
    let i = t3.len() + p4.len() - key.len();
    let m = key + p5;
    lemma_occurs_extend(t5, p6, m, i);
    lemma_occurs_extend(t6, p7, m, i);
    lemma_occurs_extend(t7, p8, m, i);
    lemma_occurs_extend(t8, p9, m, i);
    lemma_occurs_extend(t9, p10, m, i);
    lemma_occurs_extend(t10, p11, m, i);
    lemma_occurs_extend(t11, p12, m, i);
    lemma_occurs_extend(t12, p13, m, i);
    lemma_occurs_extend(t13, p14, m, i);
    lemma_occurs_extend(t14, p15, m, i);
    lemma_occurs_extend(t15, p16, m, i);
    reveal_strlit("\"sentenceBoundaryEnabled\":true");
    reveal_strlit("\"sentenceBoundaryEnabled\":false");
    if config.sentence_boundary_enabled {
        assert(m =~= "\"sentenceBoundaryEnabled\":true"@);
        assert(occurs_at(t16, "\"sentenceBoundaryEnabled\":true"@, i));
    } else {
        assert(m =~= "\"sentenceBoundaryEnabled\":false"@);
        assert(occurs_at(t16, "\"sentenceBoundaryEnabled\":false"@, i));
    }
    reveal_strlit(",\"sessionEndEnabled\":");
    reveal_strlit("\"sessionEndEnabled\":");
    let key = "\"sessionEndEnabled\":"@;
    assert(p6.subrange(p6.len() - key.len(), p6.len() as int) =~= key);
    lemma_member_at_end(t5, p6, key, p7);
    let i = t5.len() + p6.len() - key.len();
    let m = key + p7;
    lemma_occurs_extend(t7, p8, m, i);
    lemma_occurs_extend(t8, p9, m, i);
    lemma_occurs_extend(t9, p10, m, i);
    lemma_occurs_extend(t10, p11, m, i);
    lemma_occurs_extend(t11, p12, m, i);
    lemma_occurs_extend(t12, p13, m, i);
    lemma_occurs_extend(t13, p14, m, i);
    lemma_occurs_extend(t14, p15, m, i);
    lemma_occurs_extend(t15, p16, m, i);
    reveal_strlit("\"sessionEndEnabled\":true");
    reveal_strlit("\"sessionEndEnabled\":false");
    if config.session_end_enabled {
        assert(m =~= "\"sessionEndEnabled\":true"@);
        assert(occurs_at(t16, "\"sessionEndEnabled\":true"@, i));
    } else {
        assert(m =~= "\"sessionEndEnabled\":false"@);
        assert(occurs_at(t16, "\"sessionEndEnabled\":false"@, i));
    }
    reveal_strlit(",\"visemeEnabled\":");
    reveal_strlit("\"visemeEnabled\":");
    let key = "\"visemeEnabled\":"@;
    assert(p8.subrange(p8.len() - key.len(), p8.len() as int) =~= key);
    lemma_member_at_end(t7, p8, key, p9);
    let i = t7.len() + p8.len() - key.len();
    let m = key + p9;
    lemma_occurs_extend(t9, p10, m, i);
    lemma_occurs_extend(t10, p11, m, i);
    lemma_occurs_extend(t11, p12, m, i);
    lemma_occurs_extend(t12, p13, m, i);
    lemma_occurs_extend(t13, p14, m, i);
    lemma_occurs_extend(t14, p15, m, i);
    lemma_occurs_extend(t15, p16, m, i);
    reveal_strlit("\"visemeEnabled\":true");
    reveal_strlit("\"visemeEnabled\":false");
    if config.viseme_enabled {
        assert(m =~= "\"visemeEnabled\":true"@);
        assert(occurs_at(t16, "\"visemeEnabled\":true"@, i));
    } else {
        assert(m =~= "\"visemeEnabled\":false"@);
        assert(occurs_at(t16, "\"visemeEnabled\":false"@, i));
    }
    reveal_strlit(",\"wordBoundaryEnabled\":");
    reveal_strlit("\"wordBoundaryEnabled\":");
    let key = "\"wordBoundaryEnabled\":"@;
    assert(p10.subrange(p10.len() - key.len(), p10.len() as int) =~= key);
    lemma_member_at_end(t9, p10, key, p11);
    let i = t9.len() + p10.len() - key.len();
    let m = key + p11;
    lemma_occurs_extend(t11, p12, m, i);
    lemma_occurs_extend(t12, p13, m, i);
    lemma_occurs_extend(t13, p14, m, i);
    lemma_occurs_extend(t14, p15, m, i);
    lemma_occurs_extend(t15, p16, m, i);
    reveal_strlit("\"wordBoundaryEnabled\":true");
    reveal_strlit("\"wordBoundaryEnabled\":false");
    if config.word_boundary_enabled {
        assert(m =~= "\"wordBoundaryEnabled\":true"@);
        assert(occurs_at(t16, "\"wordBoundaryEnabled\":true"@, i));
    } else {
        assert(m =~= "\"wordBoundaryEnabled\":false"@);
        assert(occurs_at(t16, "\"wordBoundaryEnabled\":false"@, i));
    }
    reveal_strlit("},\"outputFormat\":");
    reveal_strlit("\"outputFormat\":");
    let key = "\"outputFormat\":"@;
    assert(p12.subrange(p12.len() - key.len(), p12.len() as int) =~= key);
    lemma_member_at_end(t11, p12, key, p13);
    let i = t11.len() + p12.len() - key.len();
    let m = key + p13;
    lemma_occurs_extend(t13, p14, m, i);
    lemma_occurs_extend(t14, p15, m, i);
    lemma_occurs_extend(t15, p16, m, i);
    assert(occurs_at(t16, m, i));
    reveal_strlit("},\"language\":{\"autoDetection\":");
    reveal_strlit("\"autoDetection\":");
    let key = "\"autoDetection\":"@;
    assert(p14.subrange(p14.len() - key.len(), p14.len() as int) =~= key);
    lemma_member_at_end(t13, p14, key, p15);
    let i = t13.len() + p14.len() - key.len();
    let m = key + p15;
    lemma_occurs_extend(t15, p16, m, i);
    reveal_strlit("\"autoDetection\":true");
    reveal_strlit("\"autoDetection\":false");
    if config.auto_detect_language {
        assert(m =~= "\"autoDetection\":true"@);
        assert(occurs_at(t16, "\"autoDetection\":true"@, i));
    } else {
        assert(m =~= "\"autoDetection\":false"@);
        assert(occurs_at(t16, "\"autoDetection\":false"@, i));
    }
}

/// A speech configuration body carries the device's operating system under
/// `os` and its system under `system`, each written as a JSON string.
pub proof fn lemma_speech_config_members(config: Config)
    ensures
        exists|i: int|
            #[trigger] occurs_at(
                speech_config_body(config),
                "\"os\":"@ + json_string(config.device.os@),
                i,
            ),
        exists|i: int|
            #[trigger] occurs_at(
                speech_config_body(config),
                "\"system\":"@ + json_string(config.device.system@),
                i,
            ),
{
    let p0 = "{\"context\":{\"os\":"@;
    let p1 = json_string(config.device.os@);
    let p2 = ",\"system\":"@;
    let p3 = json_string(config.device.system@);
    let p4 = "}}"@;
    let t1 = p0 + p1;
    let t2 = t1 + p2;
    let t3 = t2 + p3;
    let t4 = t3 + p4;
    assert(t4 == speech_config_body(config));
    reveal_strlit("{\"context\":{\"os\":");
    reveal_strlit("\"os\":");
    reveal_strlit(",\"system\":");
    reveal_strlit("\"system\":");
    let key = "\"os\":"@;
    assert(p0.subrange(p0.len() - key.len(), p0.len() as int) =~= key);
    lemma_member_at_end(Seq::<char>::empty(), p0, key, p1);
    assert(Seq::<char>::empty() + p0 + p1 =~= t1);
    let i = p0.len() - key.len();
    lemma_occurs_extend(t1, p2, key + p1, i);
    lemma_occurs_extend(t2, p3, key + p1, i);
    lemma_occurs_extend(t3, p4, key + p1, i);
    assert(occurs_at(t4, key + p1, i));
    let key = "\"system\":"@;
    assert(p2.subrange(p2.len() - key.len(), p2.len() as int) =~= key);
    lemma_member_at_end(t1, p2, key, p3);
    let i = t1.len() + p2.len() - key.len();
    lemma_occurs_extend(t3, p4, key + p3, i);
    assert(occurs_at(t4, key + p3, i));
}

fn header(name: &str, value: String) -> (r: (String, String))
    ensures
        r.0@ == name@,
        r.1 == value,
{
    (String::from_str(name), value)
}

/// The headers of a speech configuration message of the session
/// `session_id`, sent at `timestamp_ms` (milliseconds since the Unix epoch).
pub fn speech_config_headers(session_id: &str, timestamp_ms: u128) -> (r: Vec<(String, String)>)
    ensures
        pair_views(r@) == speech_config_headers_spec(session_id@, timestamp_ms),
{
    let mut headers: Vec<(String, String)> = Vec::new();
    headers.push(header("X-RequestId", String::from_str(session_id)));
    headers.push(header("Path", String::from_str("speech.config")));
    headers.push(header("Content-Type", String::from_str("application/json")));
    headers.push(header("X-Timestamp", decimal_string(timestamp_ms)));
    assert(pair_views(headers@) =~= speech_config_headers_spec(session_id@, timestamp_ms));
    headers
}

/// The headers of a synthesis context message of the session `session_id`,
/// sent at `timestamp_ms`.
pub fn synthesis_context_headers(session_id: &str, timestamp_ms: u128) -> (r: Vec<(String, String)>)
    ensures
        pair_views(r@) == synthesis_context_headers_spec(session_id@, timestamp_ms),
{
    let mut headers: Vec<(String, String)> = Vec::new();
    headers.push(header("Content-Type", String::from_str("application/json")));
    headers.push(header("X-Timestamp", decimal_string(timestamp_ms)));
    headers.push(header("X-RequestId", String::from_str(session_id)));
    headers.push(header("Path", String::from_str("synthesis.context")));
    assert(pair_views(headers@) =~= synthesis_context_headers_spec(session_id@, timestamp_ms));
    headers
}

/// The headers of an SSML message of the session `session_id`, sent at
/// `timestamp_ms`.
pub fn ssml_headers(session_id: &str, timestamp_ms: u128) -> (r: Vec<(String, String)>)
    ensures
        pair_views(r@) == ssml_headers_spec(session_id@, timestamp_ms),
{
    let mut headers: Vec<(String, String)> = Vec::new();
    headers.push(header("Content-Type", String::from_str("application/ssml+xml")));
    headers.push(header("X-Timestamp", decimal_string(timestamp_ms)));
    headers.push(header("X-RequestId", String::from_str(session_id)));
    headers.push(header("Path", String::from_str("ssml")));
    assert(pair_views(headers@) =~= ssml_headers_spec(session_id@, timestamp_ms));
    headers
}

/// The speech configuration message of the session `session_id`, sent at
/// `timestamp_ms`: its headers, and its body, which describes the device.
pub fn speech_config_message(session_id: &str, timestamp_ms: u128, config: &Config) -> (r: (
    Vec<(String, String)>,
    String,
))
    ensures
        pair_views(r.0@) == speech_config_headers_spec(session_id@, timestamp_ms),
        r.1@ == speech_config_body(*config),
{
    let mut body = String::from_str("{\"context\":{\"os\":");
    let os = json_string_text(config.device.os.as_str());
    body.append(os.as_str());
    body.append(",\"system\":");
    let system = json_string_text(config.device.system.as_str());
    body.append(system.as_str());
    body.append("}}");
    (speech_config_headers(session_id, timestamp_ms), body)
}

/// The synthesis context message of the session `session_id`, sent at
/// `timestamp_ms`: its headers, and its body, which asks for the metadata,
/// audio format and language detection of the configuration.
pub fn synthesis_context_message(session_id: &str, timestamp_ms: u128, config: &Config) -> (r: (
    Vec<(String, String)>,
    String,
))
    ensures
        pair_views(r.0@) == synthesis_context_headers_spec(session_id@, timestamp_ms),
        r.1@ == synthesis_context_body(*config),
{
    let mut body = String::from_str("{\"synthesis\":{\"audio\":{\"metadataOptions\":{\"bookmarkEnabled\":");
    body.append(json_bool_text(config.bookmark_enabled));
    body.append(",\"punctuationBoundaryEnabled\":");
    body.append(json_bool_text(config.punctuation_boundary_enabled));
    body.append(",\"sentenceBoundaryEnabled\":");
    body.append(json_bool_text(config.sentence_boundary_enabled));
    body.append(",\"sessionEndEnabled\":");
    body.append(json_bool_text(config.session_end_enabled));
    body.append(",\"visemeEnabled\":");
    body.append(json_bool_text(config.viseme_enabled));
    body.append(",\"wordBoundaryEnabled\":");
    body.append(json_bool_text(config.word_boundary_enabled));
    body.append("},\"outputFormat\":");
    let format = json_string_text(config.output_format.as_str());
    body.append(format.as_str());
    body.append("},\"language\":{\"autoDetection\":");
    body.append(json_bool_text(config.auto_detect_language));
    body.append("}}}");
    (synthesis_context_headers(session_id, timestamp_ms), body)
}

/// The SSML message of the session `session_id`, sent at `timestamp_ms`: its
/// headers, and the SSML document itself as its body.
pub fn ssml_message(session_id: &str, timestamp_ms: u128, ssml: String) -> (r: (
    Vec<(String, String)>,
    String,
))
    ensures
        pair_views(r.0@) == ssml_headers_spec(session_id@, timestamp_ms),
        r.1 == ssml,
{
    (ssml_headers(session_id, timestamp_ms), ssml)
}

} // verus!
