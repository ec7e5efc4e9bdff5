//! The translation client: how service messages become events.
use vstd::prelude::*;

use super::config::{
    mode_name, output_format_name, profanity_name, Config, OutputFormat, Profanity, RecognitionMode,
};
use super::event::{event_request_id, Event, Offset, RawMessage};
use super::messages::{
    AudioEnd, AudioStart, RecognitionStatus, SpeechEndDetected, SpeechStartDetected,
    TranslationHypothesis, TranslationPhrase,
};
use crate::connector::{Data, Message, RequestId};
use crate::error::Error;
use crate::recognizer::message::status_error_spec;
use crate::auth::Auth;
use crate::text::{decimal, decimal_string, join, seq_join, str_eq, string_views};
use crate::utils::{get_azure_hostname_from_region, host_suffix};

verus! {

/// A translation client: a connection to the service and the configuration
/// that the session runs with.
#[derive(Clone)]
pub struct Client<C> {
    pub client: C,
    pub config: Config,
}

impl<C> Client<C> {
    pub fn new(client: C, config: Config) -> (r: Self)
        ensures
            r.client == client,
            r.config == config,
    {
        Client { client, config }
    }
}

/// The query pairs that a connection for the configuration `c` carries, in
/// order.
pub open spec fn connection_query_spec(c: Config) -> Seq<(Seq<char>, Seq<char>)> {
    let base = seq![
        ("language"@, c.recognition_language@),
        ("from"@, c.recognition_language@),
        ("to"@, seq_join(string_views(c.target_languages@), ","@)),
        ("format"@, output_format_name(c.output_format)),
        ("profanity"@, profanity_name(c.profanity)),
        ("storeAudio"@, if c.store_audio { "true"@ } else { "false"@ }),
        ("scenario"@, mode_name(c.mode)),
    ];
    let timeout = match c.initial_silence_timeout {
        Some(ms) => seq![("initialSilenceTimeoutMs"@, decimal(ms as nat))],
        None => Seq::empty(),
    };
    let features = if c.synthesize {
        seq![("features"@, "texttospeech"@)]
    } else {
        Seq::empty()
    };
    let voice = match c.synthesize_voice {
        Some(v) => seq![("voice"@, v@)],
        None => Seq::empty(),
    };
    let timestamps = if c.output_format == OutputFormat::Detailed {
        seq![("wordLevelTimestamps"@, "true"@)]
    } else {
        Seq::empty()
    };
    let connection = match c.connection_id {
        Some(id) => seq![("X-ConnectionId"@, id@)],
        None => Seq::empty(),
    };
    base + timeout + features + voice + timestamps + connection
}

/// The views of a list of string pairs.
pub open spec fn pair_views(pairs: Seq<(String, String)>) -> Seq<(Seq<char>, Seq<char>)> {
    pairs.map_values(|p: (String, String)| (p.0@, p.1@))
}

/// The address of the translation service in `region`.
pub open spec fn translation_endpoint(region: Seq<char>) -> Seq<char> {
    "wss://"@ + region + ".s2s.speech"@ + host_suffix(region)
        + "/speech/translation/cognitiveservices/v1"@
}

/// Writes the address of the translation service in `region`.
pub fn translation_endpoint_url(region: &str) -> (r: String)
    ensures
        r@ == translation_endpoint(region@),
{
    let mut url = String::from_str("wss://");
    url.append(region);
    url.append(".s2s.speech");
    let suffix = get_azure_hostname_from_region(region);
    url.append(suffix.as_str());
    url.append("/speech/translation/cognitiveservices/v1");
    url
}

/// The address of the translation service in a region: `wss://`, the
/// region, then `.s2s.speech` in the region's cloud and the service path;
/// for a public-cloud region `r`, `wss://r.s2s.speech.microsoft.com/speech/
/// translation/cognitiveservices/v1`.
pub proof fn lemma_translation_endpoint_clouds(region: Seq<char>)
    ensures
        host_suffix(region) == ".azure.cn"@ ==> translation_endpoint(region) == "wss://"@ + region
            + ".s2s.speech.azure.cn/speech/translation/cognitiveservices/v1"@,
        host_suffix(region) == ".azure.us"@ ==> translation_endpoint(region) == "wss://"@ + region
            + ".s2s.speech.azure.us/speech/translation/cognitiveservices/v1"@,
        host_suffix(region) == ".microsoft.com"@ ==> translation_endpoint(region) == "wss://"@
            + region + ".s2s.speech.microsoft.com/speech/translation/cognitiveservices/v1"@,
{
    reveal_strlit(".s2s.speech");
    reveal_strlit("/speech/translation/cognitiveservices/v1");
    reveal_strlit(".azure.cn");
    reveal_strlit(".azure.us");
    reveal_strlit(".microsoft.com");
    reveal_strlit(".s2s.speech.azure.cn/speech/translation/cognitiveservices/v1");
    reveal_strlit(".s2s.speech.azure.us/speech/translation/cognitiveservices/v1");
    reveal_strlit(".s2s.speech.microsoft.com/speech/translation/cognitiveservices/v1");
    let head = "wss://"@ + region;
    let path = "/speech/translation/cognitiveservices/v1"@;
    assert(".s2s.speech"@ + ".azure.cn"@ + path
        =~= ".s2s.speech.azure.cn/speech/translation/cognitiveservices/v1"@);
    assert(".s2s.speech"@ + ".azure.us"@ + path
        =~= ".s2s.speech.azure.us/speech/translation/cognitiveservices/v1"@);
    assert(".s2s.speech"@ + ".microsoft.com"@ + path
        =~= ".s2s.speech.microsoft.com/speech/translation/cognitiveservices/v1"@);
    let h = host_suffix(region);
    assert(translation_endpoint(region) =~= head + (".s2s.speech"@ + h + path));
}

/// The longest input, in characters of the base URL and of the query
/// pairs together, that the library hands to the `url` crate. The crate
/// refuses to parse a URL whose text passes `u32::MAX` bytes, and panics when
/// appending to the query makes it pass that size; parsing and appending
/// write well under a thousand bytes for each character given, so inputs up
/// to this length stay far from the limit.
pub const MAX_URL_INPUT: usize = 4000000;

/// The characters of a list of query pairs, with one for each `=` and `&`.
pub open spec fn pairs_len(pairs: Seq<(Seq<char>, Seq<char>)>) -> int
    decreases pairs.len(),
{
    if pairs.len() == 0 {
        0
    } else {
        pairs_len(pairs.drop_last()) + pairs.last().0.len() + pairs.last().1.len() + 2
    }
}

/// The characters of a base URL and of the query pairs appended to it.
pub open spec fn url_input_len(base: Seq<char>, pairs: Seq<(Seq<char>, Seq<char>)>) -> int {
    base.len() + pairs_len(pairs)
}

/// Whether `url::Url::parse` accepts a text as an absolute URL.
pub uninterp spec fn url_parses(input: Seq<char>) -> bool;

/// The text of the URL that `url::Url::parse` makes of `base`, once `pairs`
/// are appended to its query, in order and form-urlencoded, by
/// `Url::query_pairs_mut().extend_pairs(..)`.
pub uninterp spec fn url_with_query(base: Seq<char>, pairs: Seq<(Seq<char>, Seq<char>)>) -> Seq<
    char,
>;

/// Parses `base` with `url::Url::parse` and, when it parses, appends `pairs`
/// with `Url::query_pairs_mut().extend_pairs(..)` and gives the URL's text
/// (`String::from(url)`); when it does not, gives the parse error's text.
/// The contract claims that whether `base` parses, and the text of the URL,
/// depend on the arguments alone; nothing is claimed of the error's text.
/// The `requires` keeps the URL's text well under the size past which the
/// crate panics.
#[verifier::external_body]
fn url_from_parts(base: &str, pairs: &Vec<(String, String)>) -> (r: Result<String, String>)
    requires
        url_input_len(base@, pair_views(pairs@)) <= MAX_URL_INPUT,
    ensures
        r is Ok <==> url_parses(base@),
        r matches Ok(u) ==> u@ == url_with_query(base@, pair_views(pairs@)),
{
    match url::Url::parse(base) {
        Ok(mut url) => {
            url.query_pairs_mut().extend_pairs(pairs.iter());
            Ok(String::from(url))
        },
        Err(e) => Err(e.to_string()),
    }
}

/// Whether a base URL and query pairs are short enough to hand to the `url`
/// crate.
fn url_input_fits(base: &str, pairs: &Vec<(String, String)>) -> (r: bool)
    ensures
        r == (url_input_len(base@, pair_views(pairs@)) <= MAX_URL_INPUT),
{
    let ghost views = pair_views(pairs@);
    let mut total: usize = base.unicode_len();
    if total > MAX_URL_INPUT {
        proof {
            lemma_pairs_len_grows(views, 0);
            assert(views.take(0) =~= Seq::<(Seq<char>, Seq<char>)>::empty());
        }
        return false;
    }
    assert(views.take(0) =~= Seq::<(Seq<char>, Seq<char>)>::empty());
    let mut i: usize = 0;
    while i < pairs.len()
        invariant
            views == pair_views(pairs@),
            views.len() == pairs@.len(),
            i <= pairs@.len(),
            total <= MAX_URL_INPUT,
            total == base@.len() + pairs_len(views.take(i as int)),
        decreases pairs@.len() - i,
    {
        let k: usize = pairs[i].0.as_str().unicode_len();
        let v: usize = pairs[i].1.as_str().unicode_len();
        assert(views.take(i + 1).drop_last() =~= views.take(i as int));
        assert(views.take(i + 1).last() == views[i as int]);
        if k > MAX_URL_INPUT || v > MAX_URL_INPUT || k + v + 2 > MAX_URL_INPUT - total {
            proof {
                lemma_pairs_len_grows(views, i as int + 1);
            }
            return false;
        }
        total = total + k + v + 2;
        i = i + 1;
    }
    assert(views.take(pairs@.len() as int) =~= views);
    true
}

/// Query pairs only add characters.
proof fn lemma_pairs_len_grows(pairs: Seq<(Seq<char>, Seq<char>)>, n: int)
    requires
        0 <= n <= pairs.len(),
    ensures
        pairs_len(pairs.take(n)) <= pairs_len(pairs),
    decreases pairs.len() - n,
{
    if n < pairs.len() {
        lemma_pairs_len_grows(pairs, n + 1);
        assert(pairs.take(n + 1).drop_last() =~= pairs.take(n));
    } else {
        assert(pairs.take(n) =~= pairs);
    }
}

/// The URL that a connection starts from: the translation endpoint of the
/// subscription's region, or the given host.
pub open spec fn connection_base(auth: Auth) -> Seq<char> {
    match auth {
        Auth::Subscription { region, .. } => translation_endpoint(region@),
        Auth::Host { host, .. } => host@,
    }
}

fn push_pair(pairs: &mut Vec<(String, String)>, name: &str, value: String)
    ensures
        pair_views(final(pairs)@) == pair_views(old(pairs)@).push((name@, value@)),
{
    let ghost before = pair_views(pairs@);
    pairs.push((String::from_str(name), value));
    assert(pair_views(pairs@) =~= before.push((name@, value@)));
}

impl<C> Client<C> {
    /// The query pairs of the connection URL for a configuration: languages,
    /// format, profanity, audio storage and scenario, then the settings
    /// that are present or switched on.
    pub fn connection_query(config: &Config) -> (r: Vec<(String, String)>)
        ensures
            pair_views(r@) == connection_query_spec(*config),
    {
        let mut pairs: Vec<(String, String)> = Vec::new();
        assert(pair_views(pairs@) =~= Seq::<(Seq<char>, Seq<char>)>::empty());
        let from = config.recognition_language.as_str();
        push_pair(&mut pairs, "language", String::from_str(from));
        push_pair(&mut pairs, "from", String::from_str(from));
        push_pair(&mut pairs, "to", join(&config.target_languages, ","));
        push_pair(&mut pairs, "format", String::from_str(config.output_format.as_str()));
        push_pair(&mut pairs, "profanity", String::from_str(config.profanity.as_str()));
        let store = if config.store_audio {
            "true"
        } else {
            "false"
        };
        push_pair(&mut pairs, "storeAudio", String::from_str(store));
        push_pair(&mut pairs, "scenario", String::from_str(config.mode.as_str()));
        if let Some(ms) = config.initial_silence_timeout {
            push_pair(&mut pairs, "initialSilenceTimeoutMs", decimal_string(ms as u128));
        }
        if config.synthesize {
            push_pair(&mut pairs, "features", String::from_str("texttospeech"));
        }
        if let Some(voice) = &config.synthesize_voice {
            push_pair(&mut pairs, "voice", String::from_str(voice.as_str()));
        }
        if let OutputFormat::Detailed = config.output_format {
            push_pair(&mut pairs, "wordLevelTimestamps", String::from_str("true"));
        }
        if let Some(id) = &config.connection_id {
            push_pair(&mut pairs, "X-ConnectionId", String::from_str(id.as_str()));
        }
        assert(pair_views(pairs@) =~= connection_query_spec(*config));
        pairs
    }

    /// The text of the URL to connect to: the translation endpoint of the
    /// subscription's region, or the given host, parsed by the `url` crate,
    /// with the query pairs of the configuration appended in order. It fails
    /// when that base is not a valid URL, and when base and pairs together
    /// are longer than `MAX_URL_INPUT` characters.
    pub fn connection_url(auth: &Auth, config: &Config) -> (r: Result<String, Error>)
        ensures
            ({
                let base = connection_base(*auth);
                let pairs = connection_query_spec(*config);
                &&& url_input_len(base, pairs) <= MAX_URL_INPUT ==> {
                    &&& r is Ok <==> url_parses(base)
                    &&& r matches Ok(u) ==> u@ == url_with_query(base, pairs)
                }
                &&& url_input_len(base, pairs) > MAX_URL_INPUT ==> r is Err
            }),
            r matches Err(e) ==> e is InvalidUrl,
    {
        let endpoint: String;
        let base: &str = match auth {
            Auth::Subscription { region, .. } => {
                endpoint = translation_endpoint_url(region.as_str());
                endpoint.as_str()
            },
            Auth::Host { host, .. } => host.as_str(),
        };
        let pairs = Self::connection_query(config);
        if !url_input_fits(base, &pairs) {
            return Err(Error::InvalidUrl(String::from_str("URL too long")));
        }
        match url_from_parts(base, &pairs) {
            Ok(url) => Ok(url),
            Err(e) => Err(Error::InvalidUrl(e)),
        }
    }
}

/// Pairs named `n` in `pre + mid + post` are those of `mid` where neither
/// `pre` nor `post` holds a pair of that name.
proof fn lemma_named_pairs_in_middle(
    pre: Seq<(Seq<char>, Seq<char>)>,
    mid: Seq<(Seq<char>, Seq<char>)>,
    post: Seq<(Seq<char>, Seq<char>)>,
    n: Seq<char>,
)
    requires
        forall|i: int| 0 <= i < pre.len() ==> #[trigger] pre[i].0 != n,
        forall|i: int| 0 <= i < post.len() ==> #[trigger] post[i].0 != n,
    ensures
        forall|v: Seq<char>|
            #[trigger] (pre + mid + post).contains((n, v)) <==> mid.contains((n, v)),
{
    let q = pre + mid + post;
    assert forall|v: Seq<char>| #[trigger] q.contains((n, v)) <==> mid.contains((n, v)) by {
        if q.contains((n, v)) {
            let i = choose|i: int| 0 <= i < q.len() && q[i] == (n, v);
            if i < pre.len() {
                assert(pre[i] == q[i]);
            } else if i < pre.len() + mid.len() {
                assert(mid[i - pre.len()] == q[i]);
            } else {
                assert(post[i - pre.len() - mid.len()] == q[i]);
            }
        }
        if mid.contains((n, v)) {
            let j = choose|j: int| 0 <= j < mid.len() && mid[j] == (n, v);
            assert(q[pre.len() + j] == (n, v));
        }
    }
}

/// The names of the pairs that every connection carries first.
proof fn lemma_base_names(c: Config, n: Seq<char>)
    requires
        n == "features"@ || n == "voice"@ || n == "wordLevelTimestamps"@ || n == "X-ConnectionId"@
            || n == "initialSilenceTimeoutMs"@,
    ensures
        forall|i: int| 0 <= i < 7 ==> #[trigger] connection_query_spec(c)[i].0 != n,
{
    reveal_strlit("language");
    reveal_strlit("from");
    reveal_strlit("to");
    reveal_strlit("format");
    reveal_strlit("profanity");
    reveal_strlit("storeAudio");
    reveal_strlit("scenario");
    reveal_strlit("features");
    reveal_strlit("voice");
    reveal_strlit("wordLevelTimestamps");
    reveal_strlit("X-ConnectionId");
    reveal_strlit("initialSilenceTimeoutMs");
    assert("features"@[0] != "language"@[0]);
    assert("features"@[0] != "scenario"@[0]);
    assert("language"@.len() == 8);
    assert("from"@.len() == 4);
    assert("to"@.len() == 2);
    assert("format"@.len() == 6);
    assert("profanity"@.len() == 9);
    assert("storeAudio"@.len() == 10);
    assert("scenario"@.len() == 8);
    assert("features"@.len() == 8);
    assert("voice"@.len() == 5);
    assert("wordLevelTimestamps"@.len() == 19);
    assert("X-ConnectionId"@.len() == 14);
    assert("initialSilenceTimeoutMs"@.len() == 23);
    let q = connection_query_spec(c);
    assert forall|i: int| 0 <= i < 7 implies #[trigger] q[i].0 != n by {
        if i == 0 {
            assert(q[0].0 == "language"@);
        } else if i == 1 {
            assert(q[1].0 == "from"@);
        } else if i == 2 {
            assert(q[2].0 == "to"@);
        } else if i == 3 {
            assert(q[3].0 == "format"@);
        } else if i == 4 {
            assert(q[4].0 == "profanity"@);
        } else if i == 5 {
            assert(q[5].0 == "storeAudio"@);
        } else {
            assert(q[6].0 == "scenario"@);
        }
    }
}

/// The optional `initialSilenceTimeoutMs` pair of a connection's query.
spec fn query_timeout(c: Config) -> Seq<(Seq<char>, Seq<char>)> {
    match c.initial_silence_timeout {
        Some(ms) => seq![("initialSilenceTimeoutMs"@, decimal(ms as nat))],
        None => Seq::empty(),
    }
}

/// The optional `features` pair of a connection's query.
spec fn query_features(c: Config) -> Seq<(Seq<char>, Seq<char>)> {
    if c.synthesize {
        seq![("features"@, "texttospeech"@)]
    } else {
        Seq::empty()
    }
}

/// The optional `voice` pair of a connection's query.
spec fn query_voice(c: Config) -> Seq<(Seq<char>, Seq<char>)> {
    match c.synthesize_voice {
        Some(v) => seq![("voice"@, v@)],
        None => Seq::empty(),
    }
}

/// The optional `wordLevelTimestamps` pair of a connection's query.
spec fn query_timestamps(c: Config) -> Seq<(Seq<char>, Seq<char>)> {
    if c.output_format == OutputFormat::Detailed {
        seq![("wordLevelTimestamps"@, "true"@)]
    } else {
        Seq::empty()
    }
}

/// The optional `X-ConnectionId` pair of a connection's query.
spec fn query_connection(c: Config) -> Seq<(Seq<char>, Seq<char>)> {
    match c.connection_id {
        Some(id) => seq![("X-ConnectionId"@, id@)],
        None => Seq::empty(),
    }
}

/// A connection's query is its seven fixed pairs, then the optional ones in
/// order.
proof fn lemma_query_split(c: Config)
    ensures
        connection_query_spec(c) =~= connection_query_spec(c).take(7) + query_timeout(c)
            + query_features(c) + query_voice(c) + query_timestamps(c) + query_connection(c),
        connection_query_spec(c).len() >= 7,
        query_timeout(c).len() <= 1,
        query_features(c).len() <= 1,
        query_voice(c).len() <= 1,
        query_timestamps(c).len() <= 1,
        query_connection(c).len() <= 1,
{
}

/// Every optional pair of a connection's query has the name of its slot.
proof fn lemma_query_slot_names(c: Config)
    ensures
        forall|i: int|
            0 <= i < query_timeout(c).len() ==> #[trigger] query_timeout(c)[i].0.len() == 23,
        forall|i: int|
            0 <= i < query_features(c).len() ==> #[trigger] query_features(c)[i].0.len() == 8,
        forall|i: int|
            0 <= i < query_voice(c).len() ==> #[trigger] query_voice(c)[i].0.len() == 5,
        forall|i: int|
            0 <= i < query_timestamps(c).len() ==> #[trigger] query_timestamps(c)[i].0.len() == 19,
        forall|i: int|
            0 <= i < query_connection(c).len() ==> #[trigger] query_connection(c)[i].0.len() == 14,
{
    reveal_strlit("features");
    reveal_strlit("voice");
    reveal_strlit("wordLevelTimestamps");
    reveal_strlit("X-ConnectionId");
    reveal_strlit("initialSilenceTimeoutMs");
}

/// The `initialSilenceTimeoutMs` pairs of a connection's query are those of
/// its slot.
proof fn lemma_query_named_timeout(c: Config)
    ensures
        forall|v: Seq<char>|
            #[trigger] connection_query_spec(c).contains(("initialSilenceTimeoutMs"@, v))
                <==> query_timeout(c).contains(("initialSilenceTimeoutMs"@, v)),
{
    let q = connection_query_spec(c);
    let pre = connection_query_spec(c).take(7);
    let post = query_features(c) + query_voice(c) + query_timestamps(c) + query_connection(c);
    lemma_query_split(c);
    lemma_query_slot_names(c);
    lemma_base_names(c, "initialSilenceTimeoutMs"@);
    reveal_strlit("initialSilenceTimeoutMs");
    assert("initialSilenceTimeoutMs"@.len() == 23);
    assert(q =~= pre + query_timeout(c) + post);
    assert forall|i: int| 0 <= i < pre.len() implies #[trigger] pre[i].0
        != "initialSilenceTimeoutMs"@ by {
        if i < 7 {
            assert(pre[i] == q[i]);
        } else {
            assert(pre[i].0.len() != 23);
        }
    }
    assert forall|i: int| 0 <= i < post.len() implies #[trigger] post[i].0
        != "initialSilenceTimeoutMs"@ by {
        assert(post[i].0.len() != 23);
    }
    lemma_named_pairs_in_middle(pre, query_timeout(c), post, "initialSilenceTimeoutMs"@);
}

/// The `features` pairs of a connection's query are those of its slot.
proof fn lemma_query_named_features(c: Config)
    ensures
        forall|v: Seq<char>|
            #[trigger] connection_query_spec(c).contains(("features"@, v))
                <==> query_features(c).contains(("features"@, v)),
{
    let q = connection_query_spec(c);
    let pre = connection_query_spec(c).take(7) + query_timeout(c);
    let post = query_voice(c) + query_timestamps(c) + query_connection(c);
    lemma_query_split(c);
    lemma_query_slot_names(c);
    lemma_base_names(c, "features"@);
    reveal_strlit("features");
    assert("features"@.len() == 8);
    assert(q =~= pre + query_features(c) + post);
    assert forall|i: int| 0 <= i < pre.len() implies #[trigger] pre[i].0
        != "features"@ by {
        if i < 7 {
            assert(pre[i] == q[i]);
        } else {
            assert(pre[i].0.len() != 8);
        }
    }
    assert forall|i: int| 0 <= i < post.len() implies #[trigger] post[i].0
        != "features"@ by {
        assert(post[i].0.len() != 8);
    }
    lemma_named_pairs_in_middle(pre, query_features(c), post, "features"@);
}

/// The `voice` pairs of a connection's query are those of its slot.
proof fn lemma_query_named_voice(c: Config)
    ensures
        forall|v: Seq<char>|
            #[trigger] connection_query_spec(c).contains(("voice"@, v))
                <==> query_voice(c).contains(("voice"@, v)),
{
    let q = connection_query_spec(c);
    let pre = connection_query_spec(c).take(7) + query_timeout(c) + query_features(c);
    let post = query_timestamps(c) + query_connection(c);
    lemma_query_split(c);
    lemma_query_slot_names(c);
    lemma_base_names(c, "voice"@);
    reveal_strlit("voice");
    assert("voice"@.len() == 5);
    assert(q =~= pre + query_voice(c) + post);
    assert forall|i: int| 0 <= i < pre.len() implies #[trigger] pre[i].0
        != "voice"@ by {
        if i < 7 {
            assert(pre[i] == q[i]);
        } else {
            assert(pre[i].0.len() != 5);
        }
    }
    assert forall|i: int| 0 <= i < post.len() implies #[trigger] post[i].0
        != "voice"@ by {
        assert(post[i].0.len() != 5);
    }
    lemma_named_pairs_in_middle(pre, query_voice(c), post, "voice"@);
}

/// The `wordLevelTimestamps` pairs of a connection's query are those of its
/// slot.
proof fn lemma_query_named_timestamps(c: Config)
    ensures
        forall|v: Seq<char>|
            #[trigger] connection_query_spec(c).contains(("wordLevelTimestamps"@, v))
                <==> query_timestamps(c).contains(("wordLevelTimestamps"@, v)),
{
    let q = connection_query_spec(c);
    let pre = connection_query_spec(c).take(7) + query_timeout(c) + query_features(c)
        + query_voice(c);
    let post = query_connection(c);
    lemma_query_split(c);
    lemma_query_slot_names(c);
    lemma_base_names(c, "wordLevelTimestamps"@);
    reveal_strlit("wordLevelTimestamps");
    assert("wordLevelTimestamps"@.len() == 19);
    assert(q =~= pre + query_timestamps(c) + post);
    assert forall|i: int| 0 <= i < pre.len() implies #[trigger] pre[i].0
        != "wordLevelTimestamps"@ by {
        if i < 7 {
            assert(pre[i] == q[i]);
        } else {
            assert(pre[i].0.len() != 19);
        }
    }
    assert forall|i: int| 0 <= i < post.len() implies #[trigger] post[i].0
        != "wordLevelTimestamps"@ by {
        assert(post[i].0.len() != 19);
    }
    lemma_named_pairs_in_middle(pre, query_timestamps(c), post, "wordLevelTimestamps"@);
}

/// The `X-ConnectionId` pairs of a connection's query are those of its slot.
proof fn lemma_query_named_connection(c: Config)
    ensures
        forall|v: Seq<char>|
            #[trigger] connection_query_spec(c).contains(("X-ConnectionId"@, v))
                <==> query_connection(c).contains(("X-ConnectionId"@, v)),
{
    let q = connection_query_spec(c);
    let pre = connection_query_spec(c).take(7) + query_timeout(c) + query_features(c)
        + query_voice(c) + query_timestamps(c);
    let post = Seq::<(Seq<char>, Seq<char>)>::empty();
    lemma_query_split(c);
    lemma_query_slot_names(c);
    lemma_base_names(c, "X-ConnectionId"@);
    reveal_strlit("X-ConnectionId");
    assert("X-ConnectionId"@.len() == 14);
    assert(q =~= pre + query_connection(c) + post);
    assert forall|i: int| 0 <= i < pre.len() implies #[trigger] pre[i].0
        != "X-ConnectionId"@ by {
        if i < 7 {
            assert(pre[i] == q[i]);
        } else {
            assert(pre[i].0.len() != 14);
        }
    }
    assert forall|i: int| 0 <= i < post.len() implies #[trigger] post[i].0
        != "X-ConnectionId"@ by {
        assert(post[i].0.len() != 14);
    }
    lemma_named_pairs_in_middle(pre, query_connection(c), post, "X-ConnectionId"@);
}

/// The query of a connection, pair by pair: it starts with the recognition
/// language (as `language` and `from`), the target languages joined by
/// commas (`to`), the format, the profanity level, whether audio is stored
/// and the scenario, each under the service's name. Then it holds
/// `initialSilenceTimeoutMs` exactly when a timeout is set, `features` =
/// `texttospeech` exactly when synthesis is switched on, whatever voice is
/// chosen, `voice` exactly when a voice is chosen, with that voice,
/// `wordLevelTimestamps` = `true` exactly for the detailed format, and
/// `X-ConnectionId` exactly when a connection id is set, with that id.
pub proof fn lemma_connection_query_pairs(c: Config)
    ensures
        ({
            let q = connection_query_spec(c);
            &&& q.len() >= 7
            &&& q[0] == ("language"@, c.recognition_language@)
            &&& q[1] == ("from"@, c.recognition_language@)
            &&& q[2] == ("to"@, seq_join(string_views(c.target_languages@), ","@))
            &&& q[3] == ("format"@, match c.output_format {
                OutputFormat::Simple => "simple"@,
                OutputFormat::Detailed => "detailed"@,
            })
            &&& q[4] == ("profanity"@, match c.profanity {
                Profanity::Masked => "masked"@,
                Profanity::Removed => "removed"@,
                Profanity::Raw => "raw"@,
            })
            &&& q[5] == ("storeAudio"@, if c.store_audio { "true"@ } else { "false"@ })
            &&& q[6] == ("scenario"@, match c.mode {
                RecognitionMode::Conversation => "conversation"@,
                RecognitionMode::Interactive => "interactive"@,
                RecognitionMode::Dictation => "dictation"@,
            })
            &&& forall|v: Seq<char>| #[trigger]
                q.contains(("initialSilenceTimeoutMs"@, v)) <==> (
                c.initial_silence_timeout matches Some(ms) && v == decimal(ms as nat))
            &&& q.contains(("features"@, "texttospeech"@)) <==> c.synthesize
            &&& forall|v: Seq<char>| #[trigger]
                q.contains(("features"@, v)) ==> v == "texttospeech"@
            &&& forall|v: Seq<char>| #[trigger]
                q.contains(("voice"@, v)) <==> (c.synthesize_voice matches Some(x) && x@ == v)
            &&& forall|v: Seq<char>| #[trigger]
                q.contains(("wordLevelTimestamps"@, v)) <==> (c.output_format
                    == OutputFormat::Detailed && v == "true"@)
            &&& forall|v: Seq<char>| #[trigger]
                q.contains(("X-ConnectionId"@, v)) <==> (c.connection_id matches Some(id) && id@
                    == v)
        }),
{
    lemma_query_split(c);
    lemma_query_named_timeout(c);
    lemma_query_named_features(c);
    lemma_query_named_voice(c);
    lemma_query_named_timestamps(c);
    lemma_query_named_connection(c);
    if c.synthesize {
        assert(query_features(c)[0] == ("features"@, "texttospeech"@));
    }
    if let Some(ms) = c.initial_silence_timeout {
        assert(query_timeout(c)[0] == ("initialSilenceTimeoutMs"@, decimal(ms as nat)));
    }
    if let Some(x) = c.synthesize_voice {
        assert(query_voice(c)[0] == ("voice"@, x@));
    }
    if c.output_format == OutputFormat::Detailed {
        assert(query_timestamps(c)[0] == ("wordLevelTimestamps"@, "true"@));
    }
    if let Some(id) = c.connection_id {
        assert(query_connection(c)[0] == ("X-ConnectionId"@, id@));
    }
}

/// What `hound` reads from a WAV file as 16-bit samples: `None` where the
/// header is not valid WAV or a sample does not decode as `i16`.
pub uninterp spec fn wav_samples(wav: Seq<u8>) -> Option<Seq<i16>>;

/// Reads a WAV file with `hound::WavReader::new` over the bytes and collects
/// `WavReader::into_samples::<i16>`. The contract claims that the outcome is a
/// function of the bytes alone; what that function is (the WAV format) is
/// not written out.
#[verifier::external_body]
fn decode_wav_samples(audio: Vec<u8>) -> (r: Option<Vec<i16>>)
    ensures
        match r {
            Some(v) => wav_samples(audio@) == Some(v@),
            None => wav_samples(audio@) is None,
        },
{
    match hound::WavReader::new(std::io::Cursor::new(audio)) {
        Ok(reader) => reader.into_samples::<i16>().collect::<Result<Vec<i16>, hound::Error>>().ok(),
        Err(_) => None,
    }
}

/// The messages whose body is JSON that must be decoded before it becomes an
/// event.
#[derive(Debug, Clone, Copy, PartialEq, Eq, Structural)]
pub enum BodyKind {
    SpeechStartDetected,
    SpeechEndDetected,
    TranslationHypothesis,
    TranslationPhrase,
    AudioStart,
    AudioEnd,
}

/// The kinds of message that a translation session tells apart by path.
#[derive(Debug, Clone, Copy, PartialEq, Eq, Structural)]
pub enum MessageKind {
    TurnStart,
    TurnEnd,
    Body(BodyKind),
    Synthesis,
    Other,
}

/// The kind of a message with the given path.
pub open spec fn message_kind(path: Seq<char>) -> MessageKind {
    if path == "turn.start"@ {
        MessageKind::TurnStart
    } else if path == "turn.end"@ {
        MessageKind::TurnEnd
    } else if path == "speech.startdetected"@ {
        MessageKind::Body(BodyKind::SpeechStartDetected)
    } else if path == "speech.enddetected"@ {
        MessageKind::Body(BodyKind::SpeechEndDetected)
    } else if path == "translation.hypothesis"@ {
        MessageKind::Body(BodyKind::TranslationHypothesis)
    } else if path == "translation.phrase"@ {
        MessageKind::Body(BodyKind::TranslationPhrase)
    } else if path == "audio.start"@ {
        MessageKind::Body(BodyKind::AudioStart)
    } else if path == "audio.end"@ {
        MessageKind::Body(BodyKind::AudioEnd)
    } else if path == "translation.synthesis"@ {
        MessageKind::Synthesis
    } else {
        MessageKind::Other
    }
}

/// Tells the kind of a message by its path.
pub fn classify_path(path: &str) -> (r: MessageKind)
    ensures
        r == message_kind(path@),
{
    if str_eq(path, "turn.start") {
        MessageKind::TurnStart
    } else if str_eq(path, "turn.end") {
        MessageKind::TurnEnd
    } else if str_eq(path, "speech.startdetected") {
        MessageKind::Body(BodyKind::SpeechStartDetected)
    } else if str_eq(path, "speech.enddetected") {
        MessageKind::Body(BodyKind::SpeechEndDetected)
    } else if str_eq(path, "translation.hypothesis") {
        MessageKind::Body(BodyKind::TranslationHypothesis)
    } else if str_eq(path, "translation.phrase") {
        MessageKind::Body(BodyKind::TranslationPhrase)
    } else if str_eq(path, "audio.start") {
        MessageKind::Body(BodyKind::AudioStart)
    } else if str_eq(path, "audio.end") {
        MessageKind::Body(BodyKind::AudioEnd)
    } else if str_eq(path, "translation.synthesis") {
        MessageKind::Synthesis
    } else {
        MessageKind::Other
    }
}

/// The first step of turning a message into an event: either the outcome
/// itself, or the JSON text that must be decoded as a body of the given kind.
#[derive(Debug, PartialEq, Eq)]
pub enum Routing {
    Done(Option<Result<Event, Error>>),
    Decode(BodyKind, String),
}

/// Whether `r` is how a message of the request `request_id` is routed: session
/// turns become events at once, synthesized audio is decoded, JSON bodies
/// are handed out to be decoded, and every other message is dropped.
pub open spec fn routes_as(message: Message, request_id: Seq<char>, r: Routing) -> bool {
    match message_kind(message.path@) {
        MessageKind::TurnStart => r matches Routing::Done(Some(Ok(Event::SessionStarted(id))))
            && id@ == request_id,
        MessageKind::TurnEnd => r matches Routing::Done(Some(Ok(Event::SessionEnded(id))))
            && id@ == request_id,
        MessageKind::Body(k) => match message.data {
            Data::Text(Some(t)) => r == Routing::Decode(k, t),
            _ => r == Routing::Done(None),
        },
        MessageKind::Synthesis => match message.data {
            Data::Binary(Some(audio)) => match wav_samples(audio@) {
                Some(s) => r matches Routing::Done(
                    Some(Ok(Event::TranslationSynthesis(id, samples))),
                ) && id@ == request_id && samples@ == s,
                None => r == Routing::Done(None),
            },
            _ => r == Routing::Done(None),
        },
        MessageKind::Other => r == Routing::Done(None),
    }
}

/// Routes a message of the session `request_id` (see `routes_as`); the
/// events it makes carry `request_id`, whatever the message says.
pub fn route_message(message: Message, request_id: &RequestId) -> (r: Routing)
    ensures
        routes_as(message, request_id@, r),
        r matches Routing::Done(Some(Ok(ev))) ==> event_request_id(ev)@ == request_id@,
{
    let kind = classify_path(message.path.as_str());
    match kind {
        MessageKind::TurnStart => Routing::Done(Some(Ok(Event::SessionStarted(request_id.clone())))),
        MessageKind::TurnEnd => Routing::Done(Some(Ok(Event::SessionEnded(request_id.clone())))),
        MessageKind::Body(k) => match message.data {
            Data::Text(Some(t)) => Routing::Decode(k, t),
            _ => Routing::Done(None),
        },
        MessageKind::Synthesis => match message.data {
            Data::Binary(Some(audio)) => match decode_wav_samples(audio) {
                Some(samples) => Routing::Done(
                    Some(Ok(Event::TranslationSynthesis(request_id.clone(), samples))),
                ),
                None => Routing::Done(None),
            },
            _ => Routing::Done(None),
        },
        MessageKind::Other => Routing::Done(None),
    }
}

/// How each path is routed, written out path by path: `turn.start` and
/// `turn.end` start and end the session of `request_id`; a message on each of
/// the six JSON paths that carries text is handed out to be decoded as the
/// body of that path, and one without text is dropped; synthesized audio
/// that decodes becomes samples of the session; every other path is dropped.
pub proof fn lemma_routing_by_path(message: Message, request_id: Seq<char>, r: Routing)
    requires
        routes_as(message, request_id, r),
    ensures
        message.path@ == "turn.start"@ ==> (r matches Routing::Done(
            Some(Ok(Event::SessionStarted(id))),
        ) && id@ == request_id),
        message.path@ == "turn.end"@ ==> (r matches Routing::Done(
            Some(Ok(Event::SessionEnded(id))),
        ) && id@ == request_id),
        message.path@ == "speech.startdetected"@ ==> (message.data matches Data::Text(Some(t))
            ==> r == Routing::Decode(BodyKind::SpeechStartDetected, t)),
        message.path@ == "speech.enddetected"@ ==> (message.data matches Data::Text(Some(t))
            ==> r == Routing::Decode(BodyKind::SpeechEndDetected, t)),
        message.path@ == "translation.hypothesis"@ ==> (message.data matches Data::Text(Some(t))
            ==> r == Routing::Decode(BodyKind::TranslationHypothesis, t)),
        message.path@ == "translation.phrase"@ ==> (message.data matches Data::Text(Some(t))
            ==> r == Routing::Decode(BodyKind::TranslationPhrase, t)),
        message.path@ == "audio.start"@ ==> (message.data matches Data::Text(Some(t))
            ==> r == Routing::Decode(BodyKind::AudioStart, t)),
        message.path@ == "audio.end"@ ==> (message.data matches Data::Text(Some(t))
            ==> r == Routing::Decode(BodyKind::AudioEnd, t)),
        (message.path@ == "speech.startdetected"@ || message.path@ == "speech.enddetected"@
            || message.path@ == "translation.hypothesis"@ || message.path@
            == "translation.phrase"@ || message.path@ == "audio.start"@ || message.path@
            == "audio.end"@) && !(message.data matches Data::Text(Some(_))) ==> r
            == Routing::Done(None),
        message.path@ == "translation.synthesis"@ ==> (message.data matches Data::Binary(
            Some(audio),
        ) ==> match wav_samples(audio@) {
            Some(s) => r matches Routing::Done(Some(Ok(Event::TranslationSynthesis(id, samples))))
                && id@ == request_id && samples@ == s,
            None => r == Routing::Done(None),
        }),
        message.path@ == "translation.synthesis"@ && !(message.data matches Data::Binary(Some(_)))
            ==> r == Routing::Done(None),
        message.path@ != "turn.start"@ && message.path@ != "turn.end"@ && message.path@
            != "speech.startdetected"@ && message.path@ != "speech.enddetected"@ && message.path@
            != "translation.hypothesis"@ && message.path@ != "translation.phrase"@
            && message.path@ != "audio.start"@ && message.path@ != "audio.end"@ && message.path@
            != "translation.synthesis"@ ==> r == Routing::Done(None),
{
    reveal_strlit("turn.start");
    reveal_strlit("turn.end");
    reveal_strlit("speech.startdetected");
    reveal_strlit("speech.enddetected");
    reveal_strlit("translation.hypothesis");
    reveal_strlit("translation.phrase");
    reveal_strlit("audio.start");
    reveal_strlit("audio.end");
    reveal_strlit("translation.synthesis");
    assert("speech.enddetected"@[0] != "translation.phrase"@[0]);
    assert("turn.start"@.len() == 10);
    assert("turn.end"@.len() == 8);
    assert("speech.startdetected"@.len() == 20);
    assert("speech.enddetected"@.len() == 18);
    assert("translation.hypothesis"@.len() == 22);
    assert("translation.phrase"@.len() == 18);
    assert("audio.start"@.len() == 11);
    assert("audio.end"@.len() == 9);
    assert("translation.synthesis"@.len() == 21);
    assert(message_kind("turn.start"@) == MessageKind::TurnStart);
    assert(message_kind("turn.end"@) == MessageKind::TurnEnd);
    assert(message_kind("speech.startdetected"@) == MessageKind::Body(
        BodyKind::SpeechStartDetected,
    ));
    assert(message_kind("speech.enddetected"@) == MessageKind::Body(BodyKind::SpeechEndDetected));
    assert(message_kind("translation.hypothesis"@) == MessageKind::Body(
        BodyKind::TranslationHypothesis,
    ));
    assert(message_kind("translation.phrase"@) == MessageKind::Body(BodyKind::TranslationPhrase));
    assert(message_kind("audio.start"@) == MessageKind::Body(BodyKind::AudioStart));
    assert(message_kind("audio.end"@) == MessageKind::Body(BodyKind::AudioEnd));
    assert(message_kind("translation.synthesis"@) == MessageKind::Synthesis);
}

/// A JSON body decoded as the kind that `route_message` asked for. The
/// start of speech keeps `None` where its body did not decode, the end of
/// speech where the default body stands in; the other kinds keep the
/// decoder's error text.
#[derive(Debug)]
pub enum Decoded {
    SpeechStartDetected(Option<SpeechStartDetected>),
    SpeechEndDetected(Option<SpeechEndDetected>),
    TranslationHypothesis(Result<TranslationHypothesis, String>),
    TranslationPhrase(Result<TranslationPhrase, String>),
    AudioStart(Result<AudioStart, String>),
    AudioEnd(Result<AudioEnd, String>),
}

/// The outcome of a decoded body: the event, if any, and the offset of a
/// hypothesis that the session must record.
#[derive(Debug)]
pub struct Converted {
    pub event: Option<Result<Event, Error>>,
    pub hypothesis_offset: Option<Offset>,
}

/// The text of a final translation: the phrase's text, or empty.
pub open spec fn phrase_text(p: TranslationPhrase) -> Seq<char> {
    match p.text {
        Some(t) => t@,
        None => Seq::empty(),
    }
}

/// Turns a decoded body of the session `request_id` into its event. `raw` is
/// the JSON text the body was decoded from; `audio_offset` is where the
/// session's current audio starts.
pub fn event_from_decoded(
    decoded: Decoded,
    raw: RawMessage,
    request_id: RequestId,
    audio_offset: Offset,
) -> (r: Converted)
    requires
        decoded matches Decoded::TranslationHypothesis(Ok(h)) ==> h.offset + audio_offset
            <= u64::MAX,
    ensures
        r.event matches Some(Ok(ev)) ==> event_request_id(ev) == request_id,
        match decoded {
            Decoded::SpeechStartDetected(Some(v)) => r.event == Some(
                Ok::<Event, Error>(Event::StartDetected(request_id, v.offset)),
            ) && r.hypothesis_offset is None,
            Decoded::SpeechStartDetected(None) => r.event is None && r.hypothesis_offset is None,
            Decoded::SpeechEndDetected(v) => r.event == Some(
                Ok::<Event, Error>(
                    Event::EndDetected(
                        request_id,
                        match v {
                            Some(v) => v.offset,
                            None => 0,
                        },
                    ),
                ),
            ) && r.hypothesis_offset is None,
            Decoded::TranslationHypothesis(Ok(h)) => {
                let offset: u64 = (h.offset + audio_offset) as u64;
                &&& r.event == Some(
                    Ok::<Event, Error>(
                        Event::Translating(request_id, h.text, offset, h.duration, raw),
                    ),
                )
                &&& r.hypothesis_offset == Some(offset)
            },
            Decoded::TranslationHypothesis(Err(e)) => r.event == Some(
                Err::<Event, Error>(Error::ParseError(e)),
            ) && r.hypothesis_offset is None,
            Decoded::TranslationPhrase(Ok(p)) => r.hypothesis_offset is None && match p.recognition_status {
                RecognitionStatus::Success => r.event matches Some(
                    Ok(Event::Translated(id, text, offset, duration, message)),
                ) && id == request_id && text@ == phrase_text(p) && offset == p.offset && duration
                    == p.duration && message == raw,
                RecognitionStatus::NoMatch => r.event == Some(
                    Ok::<Event, Error>(Event::NoMatch(request_id, p.offset, p.duration, raw)),
                ),
                RecognitionStatus::EndOfDictation => r.event is None,
                status => match status_error_spec(status) {
                    Some(e) => r.event == Some(Err::<Event, Error>(e)),
                    None => r.event is None,
                },
            },
            Decoded::TranslationPhrase(Err(e)) => r.event == Some(
                Err::<Event, Error>(Error::ParseError(e)),
            ) && r.hypothesis_offset is None,
            Decoded::AudioStart(Ok(_)) => r.event is None && r.hypothesis_offset is None,
            Decoded::AudioStart(Err(e)) => r.event == Some(
                Err::<Event, Error>(Error::ParseError(e)),
            ) && r.hypothesis_offset is None,
            Decoded::AudioEnd(Ok(_)) => r.event is None && r.hypothesis_offset is None,
            Decoded::AudioEnd(Err(e)) => r.event == Some(
                Err::<Event, Error>(Error::ParseError(e)),
            ) && r.hypothesis_offset is None,
        },
{
    match decoded {
        Decoded::SpeechStartDetected(Some(v)) => Converted {
            event: Some(Ok(Event::StartDetected(request_id, v.offset))),
            hypothesis_offset: None,
        },
        Decoded::SpeechStartDetected(None) => Converted { event: None, hypothesis_offset: None },
        Decoded::SpeechEndDetected(v) => {
            let value = match v {
                Some(v) => v,
                None => SpeechEndDetected::default(),
            };
            Converted {
                event: Some(Ok(Event::EndDetected(request_id, value.offset))),
                hypothesis_offset: None,
            }
        },
        Decoded::TranslationHypothesis(Ok(h)) => {
            let offset: u64 = h.offset + audio_offset;
            Converted {
                event: Some(Ok(Event::Translating(request_id, h.text, offset, h.duration, raw))),
                hypothesis_offset: Some(offset),
            }
        },
        Decoded::TranslationPhrase(Ok(p)) => {
            let event = match p.recognition_status {
                RecognitionStatus::Success => {
                    let text = match p.text {
                        Some(t) => t,
                        None => String::new(),
                    };
                    Some(Ok(Event::Translated(request_id, text, p.offset, p.duration, raw)))
                },
                RecognitionStatus::NoMatch => Some(
                    Ok(Event::NoMatch(request_id, p.offset, p.duration, raw)),
                ),
                RecognitionStatus::EndOfDictation => None,
                status => match status.error() {
                    Some(e) => Some(Err(e)),
                    None => None,
                },
            };
            Converted { event, hypothesis_offset: None }
        },
        Decoded::AudioStart(Ok(_)) => Converted { event: None, hypothesis_offset: None },
        Decoded::AudioEnd(Ok(_)) => Converted { event: None, hypothesis_offset: None },
        Decoded::TranslationHypothesis(Err(e)) | Decoded::TranslationPhrase(Err(e))
        | Decoded::AudioStart(Err(e)) | Decoded::AudioEnd(Err(e)) => Converted {
            event: Some(Err(Error::ParseError(e))),
            hypothesis_offset: None,
        },
    }
}

} // verus!
