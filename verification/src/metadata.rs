//! Metadata shapes returned to the Kotlin layer and the rules that build them
//! from what the Spotify backend answers: image choice, the assembly of track,
//! album and artist records, context track lists, and the search fallback.

use vstd::prelude::*;
use vstd::string::*;

use crate::album_order::{albums_sorted, has_key, sort_artist_albums};
use crate::core_api::{
    canonical_text, core_error_text, file_id_base16, has_spotify_id, is_base62_id, lower_hex,
    parse_spotify_uri, spotify_uri_accepts, spotify_uri_of, spotify_uri_to_uri, ParsedUri,
};
use crate::error::SidespotError;
use crate::text::{
    concat2, concat3, has_prefix, plus_for_space, replace_spaces, same_text, starts_with,
};

verus! {

/// Top tracks shown on the artist page.
pub const TOP_TRACK_LIMIT: usize = 10;

/// How many search hits the context fallback resolves to full metadata.
pub const SEARCH_FALLBACK_LIMIT: usize = 10;

/// Cap on albums (and separately, singles) shown on the artist page.
pub const ARTIST_ALBUM_LIMIT: usize = 50;

// ---------------------------------------------------------------------------
// Shapes handed to the Kotlin layer
// ---------------------------------------------------------------------------

#[derive(Debug, Clone, PartialEq, Eq)]
pub struct ArtistSummary {
    pub uri: String,
    pub name: String,
}

#[derive(Debug, Clone, PartialEq, Eq)]
pub struct TrackInfo {
    pub uri: String,
    pub name: String,
    pub artists: Vec<ArtistSummary>,
    pub album_name: String,
    pub album_uri: String,
    pub album_art_url: Option<String>,
    pub duration_ms: i32,
    pub track_number: i32,
    pub disc_number: i32,
    pub is_explicit: bool,
}

#[derive(Debug, Clone, PartialEq, Eq)]
pub struct AlbumInfo {
    pub uri: String,
    pub name: String,
    pub artists: Vec<ArtistSummary>,
    pub album_art_url: Option<String>,
    pub tracks: Vec<TrackSummary>,
    pub album_type: String,
    pub label: String,
}

#[derive(Debug, Clone, PartialEq, Eq)]
pub struct TrackSummary {
    pub uri: String,
    pub name: String,
    pub artists: Vec<ArtistSummary>,
    pub duration_ms: i32,
    pub track_number: i32,
    pub disc_number: i32,
    pub is_explicit: bool,
}

#[derive(Debug, Clone, PartialEq, Eq)]
pub struct ArtistAlbum {
    pub uri: String,
    pub name: String,
    pub image_url: Option<String>,
    pub year: i32,
    pub track_count: i32,
}

#[derive(Debug, Clone, PartialEq, Eq)]
pub struct ArtistInfo {
    pub uri: String,
    pub name: String,
    pub image_url: Option<String>,
    pub top_tracks: Vec<TrackInfo>,
    pub albums: Vec<ArtistAlbum>,
    pub singles: Vec<ArtistAlbum>,
}

#[derive(Debug, Clone, PartialEq, Eq)]
pub struct PlaylistInfo {
    pub uri: String,
    pub name: String,
    pub track_uris: Vec<String>,
    pub track_count: i32,
}

#[derive(Debug, Clone, PartialEq, Eq)]
pub struct PlaylistSummary {
    pub uri: String,
    pub name: String,
    pub is_writable: bool,
}

/// Tracks-only search payload; the app fills the other sections from the Web API.
#[derive(Debug, Clone, PartialEq, Eq)]
pub struct SearchResults {
    pub tracks: Vec<TrackInfo>,
    pub total_tracks: i32,
}

impl Default for SearchResults {
    fn default() -> (r: Self)
        ensures
            r.tracks@.len() == 0,
            r.total_tracks == 0,
    {
        SearchResults { tracks: Vec::new(), total_tracks: 0 }
    }
}

// ---------------------------------------------------------------------------
// What the backend answers, as plain values
// ---------------------------------------------------------------------------

/// The size class of a cover or portrait image.
#[derive(Debug, Clone, Copy, PartialEq, Eq, Structural)]
pub enum ImageSize {
    Default,
    Small,
    Large,
    XLarge,
}

/// One image of a cover or portrait group: its size class and file id.
#[derive(Debug, Clone, Copy, PartialEq, Eq)]
pub struct ImageRef {
    pub size: ImageSize,
    pub file_id: [u8; 20],
}

/// A track as the metadata service describes it.
#[derive(Debug, Clone, PartialEq, Eq)]
pub struct TrackRecord {
    pub uri: String,
    pub name: String,
    pub artists: Vec<ArtistSummary>,
    pub album_name: String,
    pub album_uri: String,
    pub album_covers: Vec<ImageRef>,
    pub duration_ms: i32,
    pub track_number: i32,
    pub disc_number: i32,
    pub is_explicit: bool,
}

/// An album as the metadata service describes it.
#[derive(Debug, Clone, PartialEq, Eq)]
pub struct AlbumRecord {
    pub uri: String,
    pub name: String,
    pub artists: Vec<ArtistSummary>,
    pub covers: Vec<ImageRef>,
    pub year: i32,
    pub track_count: usize,
    pub album_type: String,
    pub label: String,
}

// ---------------------------------------------------------------------------
// Image choice
// ---------------------------------------------------------------------------

/// `i` is the first image of size `size`.
pub open spec fn is_first_of_size(s: Seq<ImageRef>, size: ImageSize, i: int) -> bool {
    &&& 0 <= i < s.len()
    &&& s[i].size == size
    &&& forall|j: int| 0 <= j < i ==> s[j].size != size
}

/// Some image has size `size`.
pub open spec fn has_size(s: Seq<ImageRef>, size: ImageSize) -> bool {
    exists|j: int| 0 <= j < s.len() && s[j].size == size
}

/// `i` is the image to show: the first large one, else the first default
/// one, else the first small one, else the first of all.
pub open spec fn is_preferred_image(s: Seq<ImageRef>, i: int) -> bool {
    ||| is_first_of_size(s, ImageSize::Large, i)
    ||| !has_size(s, ImageSize::Large) && is_first_of_size(s, ImageSize::Default, i)
    ||| !has_size(s, ImageSize::Large) && !has_size(s, ImageSize::Default)
        && is_first_of_size(s, ImageSize::Small, i)
    ||| !has_size(s, ImageSize::Large) && !has_size(s, ImageSize::Default) && !has_size(
        s,
        ImageSize::Small,
    ) && i == 0 && s.len() > 0
}

/// The CDN address of an image: its file id in lowercase hex after the
/// image path.
pub open spec fn image_address(file_id: Seq<u8>) -> Seq<char> {
    "https://i.scdn.co/image/"@ + lower_hex(file_id)
}

/// `r` is the address of the preferred image of `s`, and there is none
/// exactly when `s` is empty.
pub open spec fn is_image_url_for(s: Seq<ImageRef>, r: Option<String>) -> bool {
    &&& (r is Some <==> s.len() > 0)
    &&& (r matches Some(u) ==> exists|i: int|
        is_preferred_image(s, i) && u@ == image_address(#[trigger] s[i].file_id@))
}

fn first_of_size(images: &Vec<ImageRef>, size: ImageSize) -> (r: Option<usize>)
    ensures
        r matches Some(i) ==> is_first_of_size(images@, size, i as int),
        r is None ==> !has_size(images@, size),
{
    let mut i: usize = 0;
    while i < images.len()
        invariant
            i <= images@.len(),
            forall|j: int| 0 <= j < i ==> images@[j].size != size,
        decreases images@.len() - i,
    {
        if images[i].size == size {
            return Some(i);
        }
        i = i + 1;
    }
    None
}

fn image_address_of(image: &ImageRef) -> (r: String)
    ensures
        r@ == image_address(image.file_id@),
{
    match file_id_base16(&image.file_id) {
        Ok(hex) => concat2("https://i.scdn.co/image/", hex.as_str()),
        Err(_) => String::new(),
    }
}

/// The CDN address of the preferred image: the largest of the usual sizes
/// (large, then default, then small), falling back to the first image.
pub fn image_url_from_images(images: &Vec<ImageRef>) -> (r: Option<String>)
    ensures
        is_image_url_for(images@, r),
{
    let large = first_of_size(images, ImageSize::Large);
    if let Some(i) = large {
        let u = image_address_of(&images[i]);
        assert(is_preferred_image(images@, i as int));
        return Some(u);
    }
    let default = first_of_size(images, ImageSize::Default);
    if let Some(i) = default {
        let u = image_address_of(&images[i]);
        assert(is_preferred_image(images@, i as int));
        return Some(u);
    }
    let small = first_of_size(images, ImageSize::Small);
    if let Some(i) = small {
        let u = image_address_of(&images[i]);
        assert(is_preferred_image(images@, i as int));
        return Some(u);
    }
    if images.len() > 0 {
        let u = image_address_of(&images[0]);
        assert(is_preferred_image(images@, 0));
        Some(u)
    } else {
        None
    }
}

/// The artist portrait: from the portraits, else from the portrait group.
pub fn artist_image_url(portraits: &Vec<ImageRef>, portrait_group: &Vec<ImageRef>) -> (r: Option<
    String,
>)
    ensures
        portraits@.len() > 0 ==> is_image_url_for(portraits@, r),
        portraits@.len() == 0 ==> is_image_url_for(portrait_group@, r),
{
    let first = image_url_from_images(portraits);
    if first.is_some() {
        first
    } else {
        image_url_from_images(portrait_group)
    }
}

// ---------------------------------------------------------------------------
// Assembling records
// ---------------------------------------------------------------------------

/// The full track shape of a track record, without its cover choice.
pub open spec fn track_info_fields(r: TrackRecord, i: TrackInfo) -> bool {
    &&& i.uri == r.uri
    &&& i.name == r.name
    &&& i.artists == r.artists
    &&& i.album_name == r.album_name
    &&& i.album_uri == r.album_uri
    &&& i.duration_ms == r.duration_ms
    &&& i.track_number == r.track_number
    &&& i.disc_number == r.disc_number
    &&& i.is_explicit == r.is_explicit
}

/// The track shape of a record: its fields, and the preferred album cover.
pub open spec fn is_track_info_of(r: TrackRecord, i: TrackInfo) -> bool {
    track_info_fields(r, i) && is_image_url_for(r.album_covers@, i.album_art_url)
}

/// Builds the full track shape from a track record.
pub fn track_info_from(record: TrackRecord) -> (info: TrackInfo)
    ensures
        is_track_info_of(record, info),
{
    let album_art_url = image_url_from_images(&record.album_covers);
    TrackInfo {
        uri: record.uri,
        name: record.name,
        artists: record.artists,
        album_name: record.album_name,
        album_uri: record.album_uri,
        album_art_url,
        duration_ms: record.duration_ms,
        track_number: record.track_number,
        disc_number: record.disc_number,
        is_explicit: record.is_explicit,
    }
}

/// The album-page shape of a track record.
pub open spec fn track_summary_of(r: TrackRecord) -> TrackSummary {
    TrackSummary {
        uri: r.uri,
        name: r.name,
        artists: r.artists,
        duration_ms: r.duration_ms,
        track_number: r.track_number,
        disc_number: r.disc_number,
        is_explicit: r.is_explicit,
    }
}

/// Builds the album-page shape of a track record.
pub fn track_summary_from(record: TrackRecord) -> (s: TrackSummary)
    ensures
        s == track_summary_of(record),
{
    TrackSummary {
        uri: record.uri,
        name: record.name,
        artists: record.artists,
        duration_ms: record.duration_ms,
        track_number: record.track_number,
        disc_number: record.disc_number,
        is_explicit: record.is_explicit,
    }
}

/// The values present in `s`, in their order.
pub open spec fn somes<T>(s: Seq<Option<T>>) -> Seq<T>
    decreases s.len(),
{
    if s.len() == 0 {
        Seq::empty()
    } else {
        let rest = somes(s.drop_last());
        match s.last() {
            Some(x) => rest.push(x),
            None => rest,
        }
    }
}

/// Keeps the lookups that succeeded, preserving the input order.
pub fn collect_fetched<T>(fetched: Vec<Option<T>>) -> (r: Vec<T>)
    ensures
        r@ == somes(fetched@),
{
    let ghost all = fetched@;
    let mut out: Vec<T> = Vec::new();
    for x in it: fetched
        invariant
            out@ == somes(it.seq().take(it.index() as int)),
            it.seq() == all,
    {
        assert(it.seq().take(it.index() + 1).drop_last() =~= it.seq().take(it.index() as int));
        match x {
            Some(y) => out.push(y),
            None => {},
        }
    }
    assert(all.take(all.len() as int) =~= all);
    out
}

/// Album-page summaries of the tracks that could be fetched, in order.
pub open spec fn summaries_of(s: Seq<Option<TrackRecord>>) -> Seq<TrackSummary> {
    somes(s).map_values(|r: TrackRecord| track_summary_of(r))
}

/// Builds the album page: album fields, preferred cover, and the summaries of
/// the tracks whose metadata could be fetched, in album order.
pub fn album_info_from(album: AlbumRecord, fetched_tracks: Vec<Option<TrackRecord>>) -> (info:
    AlbumInfo)
    ensures
        info.uri == album.uri,
        info.name == album.name,
        info.artists == album.artists,
        is_image_url_for(album.covers@, info.album_art_url),
        info.tracks@ == summaries_of(fetched_tracks@),
        info.album_type == album.album_type,
        info.label == album.label,
{
    let album_art_url = image_url_from_images(&album.covers);
    let records = collect_fetched(fetched_tracks);
    let ghost recs = records@;
    let mut tracks: Vec<TrackSummary> = Vec::new();
    for r in it: records
        invariant
            it.seq() == recs,
            tracks@ == recs.take(it.index() as int).map_values(|r: TrackRecord| track_summary_of(r)),
    {
        assert(recs.take(it.index() + 1) =~= recs.take(it.index() as int).push(r));
        tracks.push(track_summary_from(r));
        assert(tracks@ =~= recs.take(it.index() + 1).map_values(
            |r: TrackRecord| track_summary_of(r),
        ));
    }
    assert(recs.take(recs.len() as int) =~= recs);
    AlbumInfo {
        uri: album.uri,
        name: album.name,
        artists: album.artists,
        album_art_url,
        tracks,
        album_type: album.album_type,
        label: album.label,
    }
}

/// The artist-page entry of an album: its fields, preferred cover, release
/// year and track count (as the 32-bit count the page shows).
pub fn artist_album_from(album: AlbumRecord) -> (a: ArtistAlbum)
    ensures
        a.uri == album.uri,
        a.name == album.name,
        is_image_url_for(album.covers@, a.image_url),
        a.year == album.year,
        a.track_count == album.track_count as i32,
{
    let image_url = image_url_from_images(&album.covers);
    ArtistAlbum {
        uri: album.uri,
        name: album.name,
        image_url,
        year: album.year,
        track_count: album.track_count as i32,
    }
}

/// The first `n` elements of `v` (all of them when it is shorter).
pub fn take_first<T>(v: Vec<T>, n: usize) -> (r: Vec<T>)
    ensures
        n <= v@.len() ==> r@ == v@.take(n as int),
        n > v@.len() ==> r@ == v@,
{
    let mut v = v;
    v.truncate(n);
    v
}

/// Rejects a URI that does not name an artist.
pub fn require_artist_uri(uri: &str, is_artist: bool) -> (r: Result<(), SidespotError>)
    ensures
        is_artist ==> r is Ok,
        !is_artist ==> (r matches Err(SidespotError::Player(m)) && m@ == "not an artist URI: "@
            + uri@),
{
    if is_artist {
        Ok(())
    } else {
        Err(SidespotError::Player(concat2("not an artist URI: ", uri)))
    }
}

/// The error for a URI that the parser refused, with the parser's text.
pub fn invalid_uri_error(uri: &str, detail: &str) -> (e: SidespotError)
    ensures
        e matches SidespotError::Player(m) && m@ == "invalid URI '"@ + uri@ + "': "@ + detail@,
{
    let mut m = String::new();
    m.append("invalid URI '");
    m.append(uri);
    m.append("': ");
    m.append(detail);
    assert(m@ =~= "invalid URI '"@ + uri@ + "': "@ + detail@);
    SidespotError::Player(m)
}

/// A backend request of the metadata module that can fail.
#[derive(Debug, Clone, Copy, PartialEq, Eq, Structural)]
pub enum MetadataRequest {
    Track,
    Artist,
    Album,
    Playlist,
    Rootlist,
    RootlistParse,
    LikedSongs,
    Autoplay,
    Search,
}

/// What a failed request reports, before the backend's own text.
pub open spec fn request_failure_text(req: MetadataRequest) -> Seq<char> {
    match req {
        MetadataRequest::Track => "failed to get track metadata"@,
        MetadataRequest::Artist => "failed to get artist metadata"@,
        MetadataRequest::Album => "failed to get album metadata"@,
        MetadataRequest::Playlist => "failed to get playlist metadata"@,
        MetadataRequest::Rootlist => "failed to get rootlist"@,
        MetadataRequest::RootlistParse => "failed to parse rootlist"@,
        MetadataRequest::LikedSongs => "failed to get liked songs"@,
        MetadataRequest::Autoplay => "failed to get autoplay context"@,
        MetadataRequest::Search => "search failed"@,
    }
}

/// The error for a failed backend request, with the backend's text.
pub fn request_failed(req: MetadataRequest, detail: &str) -> (e: SidespotError)
    ensures
        e matches SidespotError::Player(m) && m@ == request_failure_text(req) + ": "@ + detail@,
{
    let what = match req {
        MetadataRequest::Track => "failed to get track metadata",
        MetadataRequest::Artist => "failed to get artist metadata",
        MetadataRequest::Album => "failed to get album metadata",
        MetadataRequest::Playlist => "failed to get playlist metadata",
        MetadataRequest::Rootlist => "failed to get rootlist",
        MetadataRequest::RootlistParse => "failed to parse rootlist",
        MetadataRequest::LikedSongs => "failed to get liked songs",
        MetadataRequest::Autoplay => "failed to get autoplay context",
        MetadataRequest::Search => "search failed",
    };
    SidespotError::Player(concat3(what, ": ", detail))
}

/// Parses a Spotify URI; a URI the parser refuses becomes a player error
/// that quotes it, followed by the parser's text.
pub fn parse_uri(uri: &str) -> (r: Result<ParsedUri, SidespotError>)
    ensures
        r is Ok <==> spotify_uri_accepts(uri@),
        r matches Ok(p) ==> spotify_uri_of(uri@) == Some(p@),
        r matches Ok(p) ==> (p@.user is Some ==> p@.kind == "playlist"@),
        r matches Ok(p) ==> (has_spotify_id(p@.kind) ==> is_base62_id(p@.id)),
        r is Err ==> (r matches Err(SidespotError::Player(m)) && exists|d: Seq<char>| m@
            == "invalid URI '"@ + uri@ + "': "@ + d),
{
    match parse_spotify_uri(uri) {
        Ok(u) => Ok(u),
        Err(e) => {
            let d = core_error_text(&e);
            Err(invalid_uri_error(uri, d.as_str()))
        },
    }
}

/// Rejects a parsed URI that does not name an artist: it passes exactly
/// when its item type is `artist`.
pub fn check_artist_uri(uri: &str, parsed: &ParsedUri) -> (r: Result<(), SidespotError>)
    ensures
        r is Ok <==> parsed@.kind == "artist"@,
        r is Err ==> (r matches Err(SidespotError::Player(m)) && m@ == "not an artist URI: "@
            + uri@),
{
    require_artist_uri(uri, same_text(parsed.kind(), "artist"))
}

/// The base-62 id of a parsed playlist URI, needed to ask for windows of
/// its items: the URI's id part when it names a playlist, else a refusal.
pub fn playlist_id_text(uri: &str, parsed: &ParsedUri) -> (r: Result<String, SidespotError>)
    ensures
        r is Ok <==> parsed@.kind == "playlist"@,
        r matches Ok(id) ==> id@ == parsed@.id,
        r is Err ==> (r matches Err(SidespotError::Player(m)) && m@ == "not a playlist URI: "@
            + uri@),
{
    if same_text(parsed.kind(), "playlist") {
        Ok(String::from_str(parsed.id()))
    } else {
        Err(SidespotError::Player(concat2("not a playlist URI: ", uri)))
    }
}

/// The canonical text of a parsed URI: `spotify:{type}:{id}`, or
/// `spotify:user:{user}:{type}:{id}` for a named playlist.
pub fn canonical_uri(parsed: &ParsedUri) -> (r: Result<String, SidespotError>)
    ensures
        r matches Ok(s) && s@ == canonical_text(parsed@),
{
    match spotify_uri_to_uri(parsed) {
        Ok(u) => Ok(u),
        Err(e) => Err(SidespotError::Player(core_error_text(&e))),
    }
}

/// The artist page: URI, name, portrait, top tracks as fetched, and the
/// albums and singles each ordered newest first, then by name.
pub fn artist_info_from(
    uri: String,
    name: String,
    image_url: Option<String>,
    top_tracks: Vec<TrackInfo>,
    albums: Vec<ArtistAlbum>,
    singles: Vec<ArtistAlbum>,
) -> (info: ArtistInfo)
    ensures
        info.uri == uri,
        info.name == name,
        info.image_url == image_url,
        info.top_tracks == top_tracks,
        albums_sorted(info.albums@),
        forall|k: (i32, Seq<char>)| #[trigger] info.albums@.filter(has_key(k))
            == albums@.filter(has_key(k)),
        albums_sorted(info.singles@),
        forall|k: (i32, Seq<char>)| #[trigger] info.singles@.filter(has_key(k))
            == singles@.filter(has_key(k)),
{
    let albums = sort_artist_albums(albums);
    let singles = sort_artist_albums(singles);
    ArtistInfo { uri, name, image_url, top_tracks, albums, singles }
}

// ---------------------------------------------------------------------------
// Context track lists (liked songs, autoplay, search)
// ---------------------------------------------------------------------------

/// A context URI is kept when it is non-empty and, where only tracks are
/// wanted, when it names a track.
pub open spec fn keeps_uri(u: Seq<char>, tracks_only: bool) -> bool {
    u.len() > 0 && (tracks_only ==> has_prefix(u, "spotify:track:"@))
}

/// The kept URIs among the first `m` entries of one page.
pub open spec fn kept_in_page(page: Seq<Seq<char>>, m: int, tracks_only: bool) -> Seq<Seq<char>>
    decreases m,
{
    if m <= 0 {
        Seq::empty()
    } else {
        kept_in_page(page, m - 1, tracks_only) + if keeps_uri(page[m - 1], tracks_only) {
            seq![page[m - 1]]
        } else {
            Seq::empty()
        }
    }
}

/// The kept URIs of the first `n` pages, page by page, in order.
pub open spec fn kept_in_pages(pages: Seq<Seq<Seq<char>>>, n: int, tracks_only: bool) -> Seq<
    Seq<char>,
>
    decreases n,
{
    if n <= 0 {
        Seq::empty()
    } else {
        kept_in_pages(pages, n - 1, tracks_only) + kept_in_page(
            pages[n - 1],
            pages[n - 1].len() as int,
            tracks_only,
        )
    }
}

/// The kept URIs of all pages of a resolved context.
pub open spec fn context_uris(pages: Seq<Seq<Seq<char>>>, tracks_only: bool) -> Seq<Seq<char>> {
    kept_in_pages(pages, pages.len() as int, tracks_only)
}

/// Collects the track URIs of a resolved context, page by page: the
/// non-empty ones, and where `tracks_only`, those that name a track.
pub fn context_track_uris(pages: &Vec<Vec<String>>, tracks_only: bool) -> (r: Vec<String>)
    ensures
        r.deep_view() == context_uris(pages.deep_view(), tracks_only),
{
    proof {
        reveal_strlit("spotify:track:");
    }
    let mut out: Vec<String> = Vec::new();
    let ghost pv = pages.deep_view();
    let mut p: usize = 0;
    while p < pages.len()
        invariant
            p <= pages@.len(),
            pv == pages.deep_view(),
            out.deep_view() == kept_in_pages(pv, p as int, tracks_only),
        decreases pages@.len() - p,
    {
        let page = &pages[p];
        let ghost before = out.deep_view();
        let mut t: usize = 0;
        while t < page.len()
            invariant
                t <= page@.len(),
                pv == pages.deep_view(),
                p < pages@.len(),
                page == pages@[p as int],
                out.deep_view() == before + kept_in_page(pv[p as int], t as int, tracks_only),
            decreases page@.len() - t,
        {
            let u = &page[t];
            assert(pv[p as int][t as int] == u@);
            let keep = if u.as_str().is_empty() {
                false
            } else if tracks_only {
                starts_with(u.as_str(), "spotify:track:")
            } else {
                true
            };
            if keep {
                out.push(u.clone());
            }
            proof {
                let k = kept_in_page(pv[p as int], t as int, tracks_only);
                assert(keep == keeps_uri(u@, tracks_only));
                if keep {
                    assert(out.deep_view() =~= before + k + seq![u@]);
                } else {
                    assert(out.deep_view() =~= before + k + Seq::<Seq<char>>::empty());
                }
            }
            t = t + 1;
        }
        assert(out.deep_view() =~= kept_in_pages(pv, p + 1, tracks_only));
        p = p + 1;
    }
    out
}

/// The context URI of the user's liked songs.
pub fn liked_songs_context_uri(username: &str) -> (r: String)
    ensures
        r@ == "spotify:user:"@ + username@ + ":collection"@,
{
    concat3("spotify:user:", username, ":collection")
}

/// The liked songs as a playlist shape: the context URI, the fixed name
/// "Liked Songs", every non-empty track URI of the context, and their count.
pub fn liked_songs_info(context_uri: String, pages: &Vec<Vec<String>>) -> (info: PlaylistInfo)
    ensures
        info.uri == context_uri,
        info.name@ == "Liked Songs"@,
        info.track_uris.deep_view() == context_uris(pages.deep_view(), false),
        info.track_count == info.track_uris@.len() as i32,
{
    let track_uris = context_track_uris(pages, false);
    let track_count = track_uris.len() as i32;
    PlaylistInfo {
        uri: context_uri,
        name: String::from_str("Liked Songs"),
        track_uris,
        track_count,
    }
}

/// The recommended tracks of an autoplay context: its non-empty track URIs.
pub fn autoplay_track_uris(pages: &Vec<Vec<String>>) -> (r: Vec<String>)
    ensures
        r.deep_view() == context_uris(pages.deep_view(), true),
{
    context_track_uris(pages, true)
}

/// The context URI that resolves a search: the query with spaces as `+`.
pub fn search_context_uri(query: &str) -> (r: String)
    ensures
        r@ == "spotify:search:"@ + plus_for_space(query@),
{
    let encoded = replace_spaces(query);
    concat2("spotify:search:", encoded.as_str())
}

/// The search hits to resolve to full metadata: the first
/// `SEARCH_FALLBACK_LIMIT` track URIs of the search context.
pub fn search_candidates(pages: &Vec<Vec<String>>) -> (r: Vec<String>)
    ensures
        r.deep_view() == context_uris(pages.deep_view(), true).take(
            if context_uris(pages.deep_view(), true).len() < SEARCH_FALLBACK_LIMIT {
                context_uris(pages.deep_view(), true).len() as int
            } else {
                SEARCH_FALLBACK_LIMIT as int
            },
        ),
{
    let all = context_track_uris(pages, true);
    let ghost allv = all.deep_view();
    let r = take_first(all, SEARCH_FALLBACK_LIMIT);
    assert(r.deep_view() =~= allv.take(
        if allv.len() < SEARCH_FALLBACK_LIMIT { allv.len() as int } else { SEARCH_FALLBACK_LIMIT as int },
    ));
    r
}

/// The search payload: the resolved tracks and their count.
pub fn search_results(tracks: Vec<TrackInfo>) -> (r: SearchResults)
    ensures
        r.tracks == tracks,
        r.total_tracks == tracks@.len() as i32,
{
    let total_tracks = tracks.len() as i32;
    SearchResults { tracks, total_tracks }
}

/// The search payload from the lookups of the candidates, in candidate
/// order: the tracks whose lookup succeeded, in that order, and their count.
pub fn search_results_from(lookups: Vec<Option<TrackInfo>>) -> (r: SearchResults)
    ensures
        r.tracks@ == somes(lookups@),
        r.total_tracks == somes(lookups@).len() as i32,
{
    search_results(collect_fetched(lookups))
}

/// Each track summary on the album page carries its own record's fields:
/// URI, name, artists, duration, track number, disc number and explicit
/// flag, one summary per fetched record, in album order.
pub proof fn law_album_summaries_keep_fields(fetched: Seq<Option<TrackRecord>>)
    ensures
        summaries_of(fetched).len() == somes(fetched).len(),
        forall|i: int|
            0 <= i < somes(fetched).len() ==> {
                let s = #[trigger] summaries_of(fetched)[i];
                let r = somes(fetched)[i];
                &&& s.uri == r.uri
                &&& s.name == r.name
                &&& s.artists == r.artists
                &&& s.duration_ms == r.duration_ms
                &&& s.track_number == r.track_number
                &&& s.disc_number == r.disc_number
                &&& s.is_explicit == r.is_explicit
            },
{
}

} // verus!
