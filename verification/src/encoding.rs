//! Base64, digests and URL parsing, by the crates that implement them.

use crate::text;
use crate::views;
use base64::Engine;
use vstd::prelude::*;

verus! {

/// The bytes that a text is the standard Base64 of, or the decoder's error text.
pub uninterp spec fn base64_decoded(text: Seq<char>) -> Result<Seq<u8>, Seq<char>>;

/// The standard Base64 of the bytes.
pub uninterp spec fn base64_encoded(bytes: Seq<u8>) -> Seq<char>;

/// `Engine::decode` of base64's `STANDARD` engine: the decoded bytes, or the
/// displayed error.
#[verifier::external_body]
pub(crate) fn base64_decode(text: &str) -> (result: Result<Vec<u8>, String>)
    ensures
        views::bytes_res(result) == base64_decoded(text@),
{
    base64::engine::general_purpose::STANDARD.decode(text).map_err(|e| e.to_string())
}

/// `Engine::encode` of base64's `STANDARD` engine, which its `decode` reads back.
#[verifier::external_body]
pub(crate) fn base64_encode(bytes: &[u8]) -> (result: String)
    ensures
        result@ == base64_encoded(bytes@),
        base64_decoded(result@) is Ok,
        base64_decoded(result@)->Ok_0 == bytes@,
{
    base64::engine::general_purpose::STANDARD.encode(bytes)
}

/// The SHA-256 digest of the bytes.
pub uninterp spec fn sha256_of(bytes: Seq<u8>) -> Seq<u8>;

/// `ring::digest::digest` with `SHA256`: the digest, which has 32 bytes.
#[verifier::external_body]
pub(crate) fn sha256(bytes: &[u8]) -> (digest: Vec<u8>)
    ensures
        digest@ == sha256_of(bytes@),
        digest@.len() == 32,
{
    ring::digest::digest(&ring::digest::SHA256, bytes).as_ref().to_vec()
}

/// What the logic reads of a URL.
#[derive(Debug, Clone, PartialEq, Eq)]
pub struct ParsedUrl {
    pub scheme: String,
    pub host: Option<String>,
    /// The port, explicit or the scheme's own.
    pub port: Option<u16>,
    pub username: String,
    pub password: Option<String>,
}

pub struct ParsedUrlView {
    pub scheme: Seq<char>,
    pub host: Option<Seq<char>>,
    pub port: Option<u16>,
    pub username: Seq<char>,
    pub password: Option<Seq<char>>,
}

impl DeepView for ParsedUrl {
    type V = ParsedUrlView;

    open spec fn deep_view(&self) -> ParsedUrlView {
        ParsedUrlView {
            scheme: self.scheme@,
            host: self.host.deep_view(),
            port: self.port,
            username: self.username@,
            password: self.password.deep_view(),
        }
    }
}

/// The parts of a URL, if the text is one.
pub uninterp spec fn url_parts(text: Seq<char>) -> Option<ParsedUrlView>;

/// `url::Url::parse`: the parts of the URL as its accessors give them, if it
/// parses.
#[verifier::external_body]
pub(crate) fn parse_url(text: &str) -> (result: Option<ParsedUrl>)
    ensures
        result.deep_view() == url_parts(text@),
{
    url::Url::parse(text).ok().map(|url| ParsedUrl {
        scheme: url.scheme().to_owned(),
        host: url.host_str().map(str::to_owned),
        port: url.port_or_known_default(),
        username: url.username().to_owned(),
        password: url.password().map(str::to_owned),
    })
}

/// The URL of a text as the parser writes it, or the parser's error text.
pub uninterp spec fn url_text(text: Seq<char>) -> Result<Seq<char>, Seq<char>>;

/// `url::Url::parse`: the text of the URL, or the displayed error. Both depend on the
/// text alone.
#[verifier::external_body]
pub(crate) fn whole_url(text: &str) -> (result: Result<String, String>)
    ensures
        views::res(result) == url_text(text@),
{
    url::Url::parse(text).map(String::from).map_err(|e| e.to_string())
}

/// The URL with the segments at the end of its path, in place of an empty last
/// one. The error is the parser's text, or nothing where the URL has no segments.
pub uninterp spec fn url_with_segments(base: Seq<char>, segments: Seq<Seq<char>>) -> Result<
    Seq<char>,
    Option<Seq<char>>,
>;

/// What a text that is no URL comes to.
pub open spec fn unparsed(error: Seq<char>) -> Result<Seq<char>, Option<Seq<char>>> {
    Err(Some(error))
}

/// How many bytes the segments can take in a path: a slash each, and three for every
/// byte of a character.
pub open spec fn segments_room(segments: Seq<Seq<char>>) -> nat
    decreases segments.len(),
{
    if segments.len() == 0 {
        0
    } else {
        segments_room(segments.drop_last()) + 1 + 12 * segments.last().len()
    }
}

/// Whether a URL with the segments is sure to have its offsets in 32 bits.
pub open spec fn url_fits(url: Seq<char>, segments: Seq<Seq<char>>) -> bool {
    4 * url.len() + segments_room(segments) + 16 <= u32::MAX
}

/// `url::Url::parse`, then `pop_if_empty` and `extend` of its
/// `path_segments_mut`. What comes out depends on the arguments alone; a text that
/// does not parse is the parser's error. The crate keeps offsets in 32 bits and
/// panics where a path is put back beyond them, so the URL and its segments have to
/// fit. How a segment is escaped is not stated.
#[verifier::external_body]
pub(crate) fn with_segments(base: &str, segments: &Vec<String>) -> (result: Result<
    String,
    Option<String>,
>)
    requires
        url_text(base@) matches Ok(url) ==> url_fits(url, segments.deep_view()),
    ensures
        views::res(result) == url_with_segments(base@, segments.deep_view()),
        url_text(base@) matches Err(error) ==> views::res(result) == unparsed(error),
{
    let mut url = url::Url::parse(base).map_err(|e| Some(e.to_string()))?;
    url.path_segments_mut().map_err(|_| None)?.pop_if_empty().extend(segments);
    Ok(url.into())
}

/// Whether the URL and the segments are sure to fit.
pub(crate) fn fits(url: &str, segments: &Vec<String>) -> (result: bool)
    ensures
        result == url_fits(url@, segments.deep_view()),
{
    let url_chars = text::chars(url);
    let mut room: u128 = 4 * (url_chars.len() as u128) + 16;
    let mut i: usize = 0;
    while i < segments.len()
        invariant
            i <= segments.len(),
            room == 4 * url@.len() + 16 + segments_room(segments.deep_view().take(i as int)),
            i == 0 ==> room <= 0x10_0000_0000_0000_0000,
            i > 0 ==> room <= u32::MAX,
        decreases segments.len() - i,
    {
        let cs = text::chars(&segments[i]);
        room = room + 1 + 12 * (cs.len() as u128);
        proof {
            let seen = segments.deep_view().take(i + 1);
            assert(seen.drop_last() =~= segments.deep_view().take(i as int));
            assert(seen.last() == segments@[i as int]@);
            lemma_room_grows(segments.deep_view(), i + 1);
        }
        if room > u32::MAX as u128 {
            return false;
        }
        i = i + 1;
    }
    assert(segments.deep_view().take(i as int) =~= segments.deep_view());
    room <= u32::MAX as u128
}

proof fn lemma_room_grows(segments: Seq<Seq<char>>, i: int)
    requires
        0 <= i <= segments.len(),
    ensures
        segments_room(segments.take(i)) <= segments_room(segments),
    decreases segments.len() - i,
{
    if i == segments.len() {
        assert(segments.take(i) =~= segments);
    } else {
        assert(segments.take(i + 1).drop_last() =~= segments.take(i));
        lemma_room_grows(segments, i + 1);
    }
}

/// The host of a URL, if the text is one that has a host.
pub open spec fn url_host(text: Seq<char>) -> Option<Seq<char>> {
    match url_parts(text) {
        Some(parts) => parts.host,
        None => None,
    }
}

pub fn host_of(text: &str) -> (result: Option<String>)
    ensures
        result.deep_view() == url_host(text@),
{
    match parse_url(text) {
        Some(parts) => parts.host,
        None => None,
    }
}

} // verus!
