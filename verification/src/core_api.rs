//! The calls this library makes into librespot-core: Spotify URI parsing and
//! rendering, and the hex text of file ids.

use vstd::prelude::*;

use crate::text::{digit_char, has_suffix};

verus! {

#[verifier::external_type_specification]
#[verifier::external_body]
pub struct ExCoreError(librespot_core::Error);

#[verifier::external_type_specification]
#[verifier::external_body]
pub struct ExSpotifyUri(librespot_core::SpotifyUri);

/// A parsed Spotify URI as plain values: its item type (`album`, `artist`,
/// `playlist`, `track`, ...), its id text, and the user of a named playlist.
pub struct UriView {
    pub kind: Seq<char>,
    pub id: Seq<char>,
    pub user: Option<Seq<char>>,
}

/// A parsed Spotify URI: the parser's value, with its item type, id text and
/// playlist user read out as plain values.  Only `parse_spotify_uri` makes
/// one, so the plain values always describe the parsed value.
#[derive(Debug)]
pub struct ParsedUri {
    pub(crate) uri: librespot_core::SpotifyUri,
    pub(crate) kind: String,
    pub(crate) id: String,
    pub(crate) user: Option<String>,
}

impl View for ParsedUri {
    type V = UriView;

    closed spec fn view(&self) -> UriView {
        UriView {
            kind: self.kind@,
            id: self.id@,
            user: match self.user {
                Some(u) => Some(u@),
                None => None,
            },
        }
    }
}

impl ParsedUri {
    /// The item type.
    pub fn kind(&self) -> (r: &str)
        ensures
            r@ == self@.kind,
    {
        self.kind.as_str()
    }

    /// The id text.
    pub fn id(&self) -> (r: &str)
        ensures
            r@ == self@.id,
    {
        self.id.as_str()
    }

    /// The user of a named playlist URI.
    pub fn user(&self) -> (r: Option<&str>)
        ensures
            r is Some <==> self@.user is Some,
            r matches Some(u) ==> self@.user == Some(u@),
    {
        match &self.user {
            Some(u) => Some(u.as_str()),
            None => None,
        }
    }

    /// The parser's value, for requests that take it.
    pub fn spotify_uri(&self) -> &librespot_core::SpotifyUri {
        &self.uri
    }
}

/// What `librespot_core::SpotifyUri::from_uri` makes of the text `uri`, read
/// out through `item_type` and `to_id` (and the user of a named playlist):
/// `None` when the text is refused.  A function of the text alone.
pub uninterp spec fn spotify_uri_of(uri: Seq<char>) -> Option<UriView>;

/// The parser accepts the text.
pub open spec fn spotify_uri_accepts(uri: Seq<char>) -> bool {
    spotify_uri_of(uri) is Some
}

/// The item types whose id is a `SpotifyId`.
pub open spec fn has_spotify_id(kind: Seq<char>) -> bool {
    kind == "album"@ || kind == "artist"@ || kind == "episode"@ || kind == "playlist"@ || kind
        == "show"@ || kind == "track"@
}

/// Calls `librespot_core::SpotifyUri::from_uri`, then reads the result out
/// with `item_type` and `to_id`, and takes the user of a named playlist.
/// Claims that the outcome is `spotify_uri_of` of the text, and what the
/// source shows besides: only a playlist carries a user, and the id of the
/// item types built on a `SpotifyId` is 22 base-62 digits (`to_base62`
/// fills 22 places from the base-62 alphabet).
#[verifier::external_body]
pub(crate) fn parse_spotify_uri(uri: &str) -> (r: Result<ParsedUri, librespot_core::Error>)
    ensures
        r is Ok <==> spotify_uri_of(uri@) is Some,
        r matches Ok(p) ==> spotify_uri_of(uri@) == Some(p@),
        r matches Ok(p) ==> (p@.user is Some ==> p@.kind == "playlist"@),
        r matches Ok(p) ==> (has_spotify_id(p@.kind) ==> is_base62_id(p@.id)),
{
    let u = librespot_core::SpotifyUri::from_uri(uri)?;
    let kind = u.item_type().to_string();
    let id = u.to_id()?;
    let user = match &u {
        librespot_core::SpotifyUri::Playlist { user, .. } => user.clone(),
        _ => None,
    };
    Ok(ParsedUri { uri: u, kind, id, user })
}

/// Calls `<librespot_core::Error as Display>::fmt` through `to_string`.
/// Claims what the source of that `fmt` shows: the text is the error kind,
/// ` { `, the inner error, and ends with ` }`.
#[verifier::external_body]
pub(crate) fn core_error_text(e: &librespot_core::Error) -> (r: String)
    ensures
        has_suffix(r@, " }"@),
{
    e.to_string()
}

/// The canonical text of a parsed URI, as `SpotifyUri::to_uri` writes it:
/// `spotify:user:{user}:{type}:{id}` for a named playlist, else
/// `spotify:{type}:{id}`.
pub open spec fn canonical_text(v: UriView) -> Seq<char> {
    match v.user {
        Some(u) => "spotify:user:"@ + u + ":"@ + v.kind + ":"@ + v.id,
        None => "spotify:"@ + v.kind + ":"@ + v.id,
    }
}

/// Calls `librespot_core::SpotifyUri::to_uri` on the parsed value.  Claims
/// what its source shows: it writes the item type and `to_id` text (the
/// named-playlist form writes the id through `Display`, which is the same
/// base-62 text) in the form of `canonical_text`, and never fails, since
/// `to_id` does not fail on a value the parser made.
#[verifier::external_body]
pub(crate) fn spotify_uri_to_uri(p: &ParsedUri) -> (r: Result<
    String,
    librespot_core::Error,
>)
    ensures
        r is Ok,
        r matches Ok(s) ==> s@ == canonical_text(p@),
{
    p.uri.to_uri()
}

/// A digit of the base-62 alphabet.
pub open spec fn is_base62_digit(c: char) -> bool {
    ('0' <= c <= '9') || ('a' <= c <= 'z') || ('A' <= c <= 'Z')
}

/// The text of a Spotify id: 22 base-62 digits.
pub open spec fn is_base62_id(s: Seq<char>) -> bool {
    s.len() == 22 && forall|i: int| 0 <= i < s.len() ==> is_base62_digit(#[trigger] s[i])
}

/// The lowercase hex digit of a value below 16.
pub open spec fn hex_char(n: int) -> char {
    if n < 10 {
        digit_char(n)
    } else if n == 10 {
        'a'
    } else if n == 11 {
        'b'
    } else if n == 12 {
        'c'
    } else if n == 13 {
        'd'
    } else if n == 14 {
        'e'
    } else {
        'f'
    }
}

/// Lowercase hex text of a byte sequence, high nibble first.
pub open spec fn lower_hex(bytes: Seq<u8>) -> Seq<char>
    decreases bytes.len(),
{
    if bytes.len() == 0 {
        Seq::empty()
    } else {
        seq![hex_char((bytes[0] / 16) as int), hex_char((bytes[0] % 16) as int)] + lower_hex(
            bytes.drop_first(),
        )
    }
}

/// Calls `librespot_core::FileId::to_base16` on the file id with these
/// bytes.  Claims what its source shows: every byte becomes two lowercase
/// hex digits, and the text, being ASCII, always converts, so the result
/// is never an error.
#[verifier::external_body]
pub(crate) fn file_id_base16(id: &[u8; 20]) -> (r: Result<String, librespot_core::Error>)
    ensures
        r is Ok,
        r matches Ok(s) ==> s@ == lower_hex(id@),
{
    librespot_core::FileId(*id).to_base16()
}

} // verus!
