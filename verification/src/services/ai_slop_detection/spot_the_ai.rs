//! The "Spot the AI" list of AI artists, keyed by the MD5 of the artist's name.
use vstd::prelude::*;

use vstd::string::*;

use crate::text::push_char;

verus! {

/// The MD5 digest of `data` (the 16 bytes that the `md5` crate computes).
pub uninterp spec fn md5_digest(data: Seq<u8>) -> Seq<u8>;

/// `md5::compute`: the 16-byte MD5 digest of the bytes.
#[verifier::external_body]
fn md5_compute(data: &[u8]) -> (res: Vec<u8>)
    ensures
        res@ == md5_digest(data@),
        res@.len() == 16,
{
    md5::compute(data).0.to_vec()
}

/// Lower-case hex digit of a nibble.
pub open spec fn hex_digit(n: u8) -> char {
    if n < 10 { ((48 + n) as u8) as char } else { ((87 + n) as u8) as char }
}

/// Two lower-case hex digits per byte, as `{:02x}` prints them.
pub open spec fn lower_hex_spec(bytes: Seq<u8>) -> Seq<char>
    decreases bytes.len(),
{
    if bytes.len() == 0 {
        Seq::empty()
    } else {
        lower_hex_spec(bytes.drop_last()) + seq![hex_digit(bytes.last() / 16), hex_digit(bytes.last() % 16)]
    }
}

fn hex_digit_exec(n: u8) -> (c: char)
    requires
        n < 16,
    ensures
        c == hex_digit(n),
{
    if n < 10 { (48u8 + n) as char } else { (87u8 + n) as char }
}

/// The artist key prefix of this provider.
pub open spec fn artist_prefix() -> Seq<char> {
    "rustify:ai_slop:spot_the_ai:artist:"@
}

/// Checks artist names against the "Spot the AI" list, mirrored in redis.
pub struct SpotTheAIProvider {}

impl SpotTheAIProvider {
    /// The redis key marking the list as mirrored.
    pub fn populated_key() -> (key: &'static str)
        ensures
            key@ == "rustify:ai_slop:spot_the_ai:populated"@,
    {
        "rustify:ai_slop:spot_the_ai:populated"
    }

    /// The mirror is refreshed ten minutes before its entries expire: after 23 h 50 min.
    pub fn populated_ttl_secs() -> (secs: u64)
        ensures
            secs == 85800,
    {
        24 * 60 * 60 - 10 * 60
    }

    /// Each mirrored artist lives for a day.
    pub fn artist_ttl_secs() -> (secs: u64)
        ensures
            secs == 86400,
    {
        24 * 60 * 60
    }

    /// The redis key marking an artist, by name, as AI: the prefix and the lower-case hex
    /// MD5 of the name's UTF-8 bytes.
    pub fn artist_key(artist_name: &str) -> (key: String)
        ensures
            key@ == artist_prefix() + lower_hex_spec(md5_digest(artist_name.spec_bytes())),
    {
        let digest = md5_compute(artist_name.as_bytes());
        let mut key = "rustify:ai_slop:spot_the_ai:artist:".to_owned();
        let mut i: usize = 0;
        assert(digest@.take(0) =~= Seq::<u8>::empty());
        while i < digest.len()
            invariant
                i <= digest@.len(),
                key@ == artist_prefix() + lower_hex_spec(digest@.take(i as int)),
            decreases digest@.len() - i,
        {
            let b = digest[i];
            assert(digest@.take(i + 1).drop_last() =~= digest@.take(i as int));
            push_char(&mut key, hex_digit_exec(b / 16));
            push_char(&mut key, hex_digit_exec(b % 16));
            assert(key@ =~= artist_prefix() + lower_hex_spec(digest@.take(i + 1)));
            i += 1;
        }
        assert(digest@.take(digest@.len() as int) =~= digest@);
        key
    }
}

} // verus!
