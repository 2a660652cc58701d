//! Settings read from the environment, and the defaults for what is not set.
use vstd::prelude::*;
use vstd::string::*;

use crate::text::{chars_of, push_char, split_spec, strings_view};

verus! {

/// The comma as a separator predicate.
pub open spec fn comma_sep() -> spec_fn(char) -> bool {
    |c: char| c == ','
}

/// `s.split(',')`, collected: `k` commas give `k + 1` pieces, some maybe empty.
pub fn split_commas(s: &str) -> (res: Vec<String>)
    ensures
        strings_view(res@) == split_spec(s@, comma_sep()),
{
    let v = chars_of(s);
    let mut res: Vec<String> = Vec::new();
    let mut cur = String::new();
    let mut i: usize = 0;
    assert(v@.take(0) =~= Seq::<char>::empty());
    assert(strings_view(res@).push(cur@) =~= seq![Seq::<char>::empty()]);
    while i < v.len()
        invariant
            i <= v@.len(),
            v@ == s@,
            split_spec(v@.take(i as int), comma_sep()) == strings_view(res@).push(cur@),
        decreases v@.len() - i,
    {
        assert(v@.take(i + 1).drop_last() =~= v@.take(i as int));
        assert(v@.take(i + 1).last() == v@[i as int]);
        let ghost before = strings_view(res@);
        let ghost piece = cur@;
        if v[i] == ',' {
            let done = cur;
            res.push(done);
            cur = String::new();
            assert(strings_view(res@) =~= before.push(piece));
            assert(strings_view(res@).push(cur@) =~= before.push(piece).push(Seq::empty()));
        } else {
            push_char(&mut cur, v[i]);
            assert(strings_view(res@).push(cur@) =~= before.push(piece).update(
                before.push(piece).len() - 1,
                piece.push(v@[i as int]),
            ));
        }
        i += 1;
    }
    assert(v@.take(i as int) =~= v@);
    let ghost before = strings_view(res@);
    let ghost last = cur@;
    res.push(cur);
    assert(strings_view(res@) =~= before.push(last));
    res
}

/// A setting, or the empty text when it is not set.
pub open spec fn or_empty(setting: Option<Seq<char>>) -> Seq<char> {
    match setting {
        Some(s) => s,
        None => Seq::empty(),
    }
}

/// The views of an optional string.
pub open spec fn opt_view(o: Option<&str>) -> Option<Seq<char>> {
    match o {
        Some(s) => Some(s@),
        None => None,
    }
}

/// The Musixmatch user tokens: the setting split at commas.  Two public tokens
/// would stand in for an empty list, but splitting never gives one.
pub fn musixmatch_tokens(setting: Option<&str>) -> (res: Vec<String>)
    ensures
        strings_view(res@) == split_spec(or_empty(opt_view(setting)), comma_sep()),
{
    let text = match setting {
        Some(s) => s,
        None => "",
    };
    proof {
        reveal_strlit("");
    }
    let mut tokens = split_commas(text);
    proof {
        crate::text::lemma_split_nonempty(text@, comma_sep());
    }
    if tokens.len() == 0 {
        tokens.push(String::from_str("21051986b9886beabe1ce01c3ce94c96319411f8f2c122676365e3"));
        tokens.push(String::from_str("2005218b74f939209bda92cb633c7380612e14cb7fe92dcd6a780f"));
    }
    tokens
}

/// The words of a censor list setting: the setting split at commas (an unset
/// list gives one empty word).
pub fn censor_words(setting: Option<&str>) -> (res: Vec<String>)
    ensures
        strings_view(res@) == split_spec(or_empty(opt_view(setting)), comma_sep()),
{
    let text = match setting {
        Some(s) => s,
        None => "",
    };
    proof {
        reveal_strlit("");
    }
    split_commas(text)
}

/// How long found lyrics are cached when not set: a day, in seconds.
pub const DEFAULT_LYRICS_CACHE_TTL: u64 = 86400;

/// The lifetime of cached lyrics.
pub fn lyrics_cache_ttl(setting: Option<u64>) -> (res: u64)
    ensures
        res == match setting {
            Some(t) => t,
            None => DEFAULT_LYRICS_CACHE_TTL,
        },
{
    match setting {
        Some(t) => t,
        None => DEFAULT_LYRICS_CACHE_TTL,
    }
}

/// The address the HTTP server listens on.
pub fn server_http_address(setting: Option<String>) -> (res: String)
    ensures
        res@ == match setting {
            Some(a) => a@,
            None => "0.0.0.0:3000"@,
        },
{
    match setting {
        Some(a) => a,
        None => String::from_str("0.0.0.0:3000"),
    }
}

/// The character replacements of the profanity filter: every ASCII letter, in
/// lower and in upper case, stands for its lower-case self.
pub open spec fn replacements_spec() -> Seq<(char, char)> {
    Seq::new(
        52,
        |i: int|
            if i % 2 == 0 {
                (((i / 2) + 97) as char, ((i / 2) + 97) as char)
            } else {
                (((i / 2) + 65) as char, ((i / 2) + 97) as char)
            },
    )
}

/// See [`replacements_spec`]: the pairs in the order they are inserted.
pub fn replacements() -> (res: Vec<(char, char)>)
    ensures
        res@ == replacements_spec(),
{
    let mut res: Vec<(char, char)> = Vec::new();
    let mut b: u8 = 97;
    while b <= 122
        invariant
            97 <= b <= 123,
            res@.len() == 2 * (b - 97),
            forall|i: int| 0 <= i < res@.len() ==> #[trigger] res@[i] == replacements_spec()[i],
        decreases 123 - b,
    {
        let c = b as char;
        let upper = (b - 32) as char;
        res.push((c, c));
        res.push((upper, c));
        b += 1;
    }
    assert(res@ =~= replacements_spec());
    res
}

/// The settings of the InfluxDB client.
#[derive(Debug, Clone, PartialEq, Eq)]
pub struct InfluxSettings {
    pub api_url: String,
    pub token: String,
    pub bucket: String,
    pub org: String,
    pub instance: Option<String>,
}

/// A missing InfluxDB setting, named as the message names its variable.
#[derive(PartialEq, Eq, Structural, Clone, Copy, Debug)]
pub enum MissingInfluxSetting {
    /// "Cannot obtain INFLUX_TOKEN variable"
    Token,
    /// "Cannot obtain INFLUX_BUCKET variable"
    Bucket,
    /// "Cannot obtain INFLUX_ORG variable"
    Org,
}

/// The InfluxDB settings: none when no (or an empty) API URL is set; else the
/// token, bucket and organisation are needed, in this order.
pub fn influx_settings(
    api_url: Option<String>,
    token: Option<String>,
    bucket: Option<String>,
    org: Option<String>,
    instance: Option<String>,
) -> (res: Result<Option<InfluxSettings>, MissingInfluxSetting>)
    ensures
        (api_url is None || api_url->0@.len() == 0) ==> res == Ok::<
            Option<InfluxSettings>,
            MissingInfluxSetting,
        >(None),
        (api_url is Some && api_url->0@.len() > 0) ==> if token is None {
            res == Err::<Option<InfluxSettings>, MissingInfluxSetting>(MissingInfluxSetting::Token)
        } else if bucket is None {
            res == Err::<Option<InfluxSettings>, MissingInfluxSetting>(MissingInfluxSetting::Bucket)
        } else if org is None {
            res == Err::<Option<InfluxSettings>, MissingInfluxSetting>(MissingInfluxSetting::Org)
        } else {
            res == Ok::<Option<InfluxSettings>, MissingInfluxSetting>(
                Some(
                    InfluxSettings {
                        api_url: api_url->0,
                        token: token->0,
                        bucket: bucket->0,
                        org: org->0,
                        instance,
                    },
                ),
            )
        },
{
    let api_url = match api_url {
        Some(u) => u,
        None => {
            return Ok(None);
        },
    };
    if api_url.as_str().unicode_len() == 0 {
        return Ok(None);
    }
    let token = match token {
        Some(t) => t,
        None => {
            return Err(MissingInfluxSetting::Token);
        },
    };
    let bucket = match bucket {
        Some(b) => b,
        None => {
            return Err(MissingInfluxSetting::Bucket);
        },
    };
    let org = match org {
        Some(o) => o,
        None => {
            return Err(MissingInfluxSetting::Org);
        },
    };
    Ok(Some(InfluxSettings { api_url, token, bucket, org, instance }))
}

/// The settings of the AI model.
#[derive(Debug, Clone, PartialEq, Eq)]
pub struct AiSettings {
    pub api_key: String,
    /// The API base; `None` means the client library's default.
    pub api_base: Option<String>,
    pub model: String,
}

/// The AI settings: none without an API key; the model defaults to "gpt-4o".
pub fn ai_settings(api_key: Option<String>, api_base: Option<String>, model: Option<String>) -> (res: Option<AiSettings>)
    ensures
        api_key is None ==> res is None,
        api_key is Some ==> (res matches Some(a) && a.api_key == api_key->0 && a.api_base == api_base
            && a.model@ == match model {
            Some(m) => m@,
            None => "gpt-4o"@,
        }),
{
    match api_key {
        None => None,
        Some(k) => Some(
            AiSettings {
                api_key: k,
                api_base,
                model: match model {
                    Some(m) => m,
                    None => String::from_str("gpt-4o"),
                },
            },
        ),
    }
}

} // verus!
