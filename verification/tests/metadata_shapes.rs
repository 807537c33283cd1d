use sidespot::album_order::sort_artist_albums;
use sidespot::error::SidespotError;
use sidespot::metadata::{
    album_info_from, artist_album_from, artist_image_url, artist_info_from, autoplay_track_uris,
    canonical_uri, check_artist_uri, collect_fetched, context_track_uris, image_url_from_images,
    invalid_uri_error, liked_songs_context_uri, liked_songs_info, parse_uri, playlist_id_text,
    request_failed, require_artist_uri, search_candidates, search_context_uri, search_results,
    search_results_from,
    take_first, track_info_from, AlbumRecord, ArtistAlbum, ArtistSummary, ImageRef, ImageSize,
    MetadataRequest, SearchResults, TrackRecord, ARTIST_ALBUM_LIMIT, SEARCH_FALLBACK_LIMIT,
    TOP_TRACK_LIMIT,
};

fn img(size: ImageSize, first: u8) -> ImageRef {
    let mut id = [0u8; 20];
    id[0] = first;
    id[19] = 0xff;
    ImageRef { size, file_id: id }
}

fn url(first: u8) -> String {
    format!("https://i.scdn.co/image/{:02x}{}ff", first, "00".repeat(18))
}

#[test]
fn image_prefers_large_then_default_then_small() {
    let images = vec![img(ImageSize::Small, 1), img(ImageSize::Default, 2), img(ImageSize::Large, 3), img(ImageSize::Large, 4)];
    assert_eq!(image_url_from_images(&images), Some(url(3)));
    let images = vec![img(ImageSize::Small, 1), img(ImageSize::XLarge, 5), img(ImageSize::Default, 2)];
    assert_eq!(image_url_from_images(&images), Some(url(2)));
    let images = vec![img(ImageSize::XLarge, 5), img(ImageSize::Small, 1)];
    assert_eq!(image_url_from_images(&images), Some(url(1)));
}

#[test]
fn image_falls_back_to_first() {
    let images = vec![img(ImageSize::XLarge, 7), img(ImageSize::XLarge, 8)];
    assert_eq!(image_url_from_images(&images), Some(url(7)));
    assert_eq!(image_url_from_images(&vec![]), None);
}

#[test]
fn image_address_is_lowercase_hex_of_file_id() {
    let id = [0xab, 0xcd, 0xef, 0x01, 0x23, 0x45, 0x67, 0x89, 0x0a, 0xb0, 0x00, 0xff, 0x10, 0x20, 0x30, 0x40, 0x50, 0x60, 0x70, 0x80];
    let images = vec![ImageRef { size: ImageSize::Default, file_id: id }];
    assert_eq!(
        image_url_from_images(&images).unwrap(),
        "https://i.scdn.co/image/abcdef01234567890ab000ff1020304050607080"
    );
}

#[test]
fn artist_portrait_falls_back_to_group() {
    let group = vec![img(ImageSize::Large, 9)];
    assert_eq!(artist_image_url(&vec![], &group), Some(url(9)));
    assert_eq!(artist_image_url(&vec![img(ImageSize::Small, 1)], &group), Some(url(1)));
    assert_eq!(artist_image_url(&vec![], &vec![]), None);
}

fn artist(n: &str) -> ArtistSummary {
    ArtistSummary { uri: format!("spotify:artist:{n}"), name: n.to_string() }
}

fn record(n: &str) -> TrackRecord {
    TrackRecord {
        uri: format!("spotify:track:{n}"),
        name: n.to_string(),
        artists: vec![artist("a")],
        album_name: "Album".into(),
        album_uri: "spotify:album:x".into(),
        album_covers: vec![img(ImageSize::Large, 3)],
        duration_ms: 180000,
        track_number: 2,
        disc_number: 1,
        is_explicit: true,
    }
}

#[test]
fn track_info_copies_record_and_picks_cover() {
    let info = track_info_from(record("t1"));
    assert_eq!(info.uri, "spotify:track:t1");
    assert_eq!(info.name, "t1");
    assert_eq!(info.artists, vec![artist("a")]);
    assert_eq!(info.album_name, "Album");
    assert_eq!(info.album_uri, "spotify:album:x");
    assert_eq!(info.album_art_url, Some(url(3)));
    assert_eq!((info.duration_ms, info.track_number, info.disc_number, info.is_explicit), (180000, 2, 1, true));
}

#[test]
fn fetched_results_keep_input_order() {
    assert_eq!(collect_fetched(vec![Some(3), None, Some(1), None, Some(2)]), vec![3, 1, 2]);
    assert_eq!(collect_fetched::<u8>(vec![None, None]), Vec::<u8>::new());
}

#[test]
fn album_page_skips_failed_tracks() {
    let album = AlbumRecord {
        uri: "spotify:album:x".into(),
        name: "X".into(),
        artists: vec![artist("a")],
        covers: vec![img(ImageSize::Default, 4)],
        year: 1999,
        track_count: 3,
        album_type: "album".into(),
        label: "Label".into(),
    };
    let info = album_info_from(album, vec![Some(record("t1")), None, Some(record("t3"))]);
    assert_eq!(info.uri, "spotify:album:x");
    assert_eq!(info.album_art_url, Some(url(4)));
    assert_eq!(info.tracks.len(), 2);
    assert_eq!(info.tracks[0].uri, "spotify:track:t1");
    assert_eq!(info.tracks[1].name, "t3");
    assert_eq!(info.album_type, "album");
    assert_eq!(info.label, "Label");
}

#[test]
fn artist_album_counts_tracks() {
    let album = AlbumRecord {
        uri: "spotify:album:y".into(),
        name: "Y".into(),
        artists: vec![],
        covers: vec![],
        year: 2001,
        track_count: 12,
        album_type: "single".into(),
        label: String::new(),
    };
    let a = artist_album_from(album);
    assert_eq!((a.uri.as_str(), a.name.as_str(), a.image_url.clone(), a.year, a.track_count), ("spotify:album:y", "Y", None, 2001, 12));
}

fn aa(name: &str, year: i32, uri: &str) -> ArtistAlbum {
    ArtistAlbum { uri: uri.into(), name: name.into(), image_url: None, year, track_count: 1 }
}

#[test]
fn albums_newest_first_then_by_name_stable() {
    let input = vec![
        aa("B", 2001, "1"),
        aa("A", 1999, "2"),
        aa("C", 2005, "3"),
        aa("A", 2001, "4"),
        aa("B", 2001, "5"),
    ];
    let out = sort_artist_albums(input);
    let order: Vec<&str> = out.iter().map(|a| a.uri.as_str()).collect();
    assert_eq!(order, vec!["3", "4", "1", "5", "2"]);
}

#[test]
fn artist_page_sorts_albums_and_singles() {
    let info = artist_info_from(
        "spotify:artist:z".into(),
        "Z".into(),
        None,
        vec![],
        vec![aa("old", 1990, "o"), aa("new", 2020, "n")],
        vec![aa("b", 2000, "sb"), aa("a", 2000, "sa")],
    );
    assert_eq!(info.albums[0].uri, "n");
    assert_eq!(info.singles[0].uri, "sa");
    assert_eq!(info.uri, "spotify:artist:z");
}

#[test]
fn take_first_limits() {
    assert_eq!(take_first(vec![1, 2, 3], 2), vec![1, 2]);
    assert_eq!(take_first(vec![1, 2, 3], 10), vec![1, 2, 3]);
    let many: Vec<u32> = (0..60).collect();
    assert_eq!(take_first(many, ARTIST_ALBUM_LIMIT).len(), 50);
    assert_eq!(TOP_TRACK_LIMIT, 10);
}

#[test]
fn uri_parsing_accepts_and_rejects() {
    let u = parse_uri("spotify:track:4uLU6hMCjMI75M1A2tKUQC").unwrap();
    assert_eq!((u.kind(), u.id(), u.user()), ("track", "4uLU6hMCjMI75M1A2tKUQC", None));
    assert_eq!(canonical_uri(&u).unwrap(), "spotify:track:4uLU6hMCjMI75M1A2tKUQC");
    let named = parse_uri("spotify:user:alice:playlist:37i9dQZF1DXcBWIGoYBM5M").unwrap();
    assert_eq!((named.kind(), named.user()), ("playlist", Some("alice")));
    assert_eq!(canonical_uri(&named).unwrap(), "spotify:user:alice:playlist:37i9dQZF1DXcBWIGoYBM5M");
    assert!(parse_uri("spotify:track:short").is_err());
    match parse_uri("foo") {
        Err(SidespotError::Player(m)) => {
            assert_eq!(m, "invalid URI 'foo': Client specified an invalid argument { URI does not belong to Spotify }")
        }
        other => panic!("unexpected {other:?}"),
    }
}

#[test]
fn artist_and_playlist_uri_checks() {
    let a = parse_uri("spotify:artist:0OdUWJ0sBjDrqHygGUXeCF").unwrap();
    assert!(check_artist_uri("spotify:artist:0OdUWJ0sBjDrqHygGUXeCF", &a).is_ok());
    let t = parse_uri("spotify:track:4uLU6hMCjMI75M1A2tKUQC").unwrap();
    assert_eq!(
        check_artist_uri("spotify:track:4uLU6hMCjMI75M1A2tKUQC", &t),
        Err(SidespotError::Player("not an artist URI: spotify:track:4uLU6hMCjMI75M1A2tKUQC".into()))
    );
    let p = parse_uri("spotify:playlist:37i9dQZF1DXcBWIGoYBM5M").unwrap();
    assert_eq!(playlist_id_text("spotify:playlist:37i9dQZF1DXcBWIGoYBM5M", &p).unwrap(), "37i9dQZF1DXcBWIGoYBM5M");
    assert_eq!(
        playlist_id_text("spotify:track:4uLU6hMCjMI75M1A2tKUQC", &t),
        Err(SidespotError::Player("not a playlist URI: spotify:track:4uLU6hMCjMI75M1A2tKUQC".into()))
    );
    assert_eq!(require_artist_uri("u", true), Ok(()));
}

#[test]
fn request_failures_name_the_request() {
    assert_eq!(request_failed(MetadataRequest::Track, "e"), SidespotError::Player("failed to get track metadata: e".into()));
    assert_eq!(request_failed(MetadataRequest::Rootlist, "e"), SidespotError::Player("failed to get rootlist: e".into()));
    assert_eq!(request_failed(MetadataRequest::RootlistParse, "e"), SidespotError::Player("failed to parse rootlist: e".into()));
    assert_eq!(request_failed(MetadataRequest::Search, "e"), SidespotError::Player("search failed: e".into()));
    assert_eq!(request_failed(MetadataRequest::Autoplay, "e"), SidespotError::Player("failed to get autoplay context: e".into()));
    assert_eq!(invalid_uri_error("x", "d"), SidespotError::Player("invalid URI 'x': d".into()));
}

fn pages() -> Vec<Vec<String>> {
    vec![
        vec!["spotify:track:a".into(), "".into(), "spotify:episode:e".into()],
        vec![],
        vec!["spotify:track:b".into()],
    ]
}

#[test]
fn context_uris_are_collected_in_order() {
    assert_eq!(context_track_uris(&pages(), false), vec!["spotify:track:a", "spotify:episode:e", "spotify:track:b"]);
    assert_eq!(autoplay_track_uris(&pages()), vec!["spotify:track:a", "spotify:track:b"]);
}

#[test]
fn liked_songs_shape() {
    let uri = liked_songs_context_uri("alice");
    assert_eq!(uri, "spotify:user:alice:collection");
    let info = liked_songs_info(uri, &pages());
    assert_eq!(info.name, "Liked Songs");
    assert_eq!(info.track_uris.len(), 3);
    assert_eq!(info.track_count, 3);
    assert_eq!(info.uri, "spotify:user:alice:collection");
}

#[test]
fn search_fallback_resolves_at_most_ten() {
    assert_eq!(search_context_uri("daft punk"), "spotify:search:daft+punk");
    let many: Vec<String> = (0..15).map(|i| format!("spotify:track:{i}")).collect();
    let c = search_candidates(&vec![many]);
    assert_eq!(c.len(), SEARCH_FALLBACK_LIMIT);
    assert_eq!(c[9], "spotify:track:9");
    let r = search_results(vec![track_info_from(record("t1"))]);
    assert_eq!(r.total_tracks, 1);
    let found = search_results_from(vec![None, Some(track_info_from(record("a"))), None, Some(track_info_from(record("b")))]);
    assert_eq!(found.total_tracks, 2);
    assert_eq!((found.tracks[0].name.as_str(), found.tracks[1].name.as_str()), ("a", "b"));
    let d = SearchResults::default();
    assert_eq!((d.tracks.len(), d.total_tracks), (0, 0));
}
