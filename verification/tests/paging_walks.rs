use librespot_protocol::playlist4_external::{Item, ListAttributes, ListItems, MetaItem, SelectedListContent};
use protobuf::{Message, MessageField};
use sidespot::paging::{
    clamp_to_usize, playlist_page_endpoint, PageReply, PlaylistPager, RootlistAttributes,
    RootlistMeta, RootlistPage, RootlistPager, LIST_PAGE_SIZE, MAX_LIST_PAGES,
};

fn uris(r: std::ops::Range<usize>) -> Vec<String> {
    r.map(|i| format!("spotify:track:{i}")).collect()
}

#[test]
fn endpoint_asks_for_a_window() {
    assert_eq!(playlist_page_endpoint("37i9dQZF1DXcBWIGoYBM5M", 100), "/playlist/v2/playlist/37i9dQZF1DXcBWIGoYBM5M?from=100&length=500");
    assert_eq!(LIST_PAGE_SIZE, 500);
    assert_eq!(MAX_LIST_PAGES, 100);
}

#[test]
fn complete_playlist_asks_nothing() {
    let mut p = PlaylistPager::new(uris(0..3), 3);
    assert!(!p.is_truncated());
    assert_eq!(p.next_request(), None);
    let info = p.into_info("spotify:playlist:x".into(), "X".into());
    assert_eq!(info.track_count, 3);
    assert_eq!(info.track_uris, uris(0..3));
}

#[test]
fn truncated_playlist_walks_windows() {
    let mut p = PlaylistPager::new(uris(0..2), 5);
    assert!(p.is_truncated());
    assert_eq!(p.next_request(), Some(2));
    p.accept(PageReply::Page { pos: 2, item_uris: vec!["spotify:track:2".into(), "".into(), "spotify:track:3".into()] });
    assert_eq!(p.next_request(), Some(4));
    p.accept(PageReply::Page { pos: 4, item_uris: uris(4..5) });
    assert_eq!(p.next_request(), None);
    let info = p.into_info("u".into(), "n".into());
    assert_eq!(info.track_uris, uris(0..5));
    assert_eq!(info.track_count, 5);
}

#[test]
fn replayed_window_ends_the_walk() {
    let mut p = PlaylistPager::new(uris(0..2), 10);
    assert_eq!(p.next_request(), Some(2));
    p.accept(PageReply::Page { pos: 0, item_uris: uris(0..2) });
    assert_eq!(p.next_request(), None);
    assert_eq!(p.into_info("u".into(), "n".into()).track_uris, uris(0..2));
}

#[test]
fn failed_or_empty_window_ends_the_walk() {
    let mut p = PlaylistPager::new(vec![], 10);
    assert_eq!(p.next_request(), Some(0));
    p.accept(PageReply::Failed);
    assert_eq!(p.next_request(), None);
    let mut q = PlaylistPager::new(vec![], 10);
    assert_eq!(q.next_request(), Some(0));
    q.accept(PageReply::Page { pos: -3, item_uris: vec!["".into()] });
    assert_eq!(q.next_request(), None);
    assert_eq!(q.into_info("u".into(), "n".into()).track_count, 0);
}

#[test]
fn walk_stops_after_the_request_budget() {
    let mut p = PlaylistPager::new(vec![], 1_000_000);
    let mut requests = 0;
    while let Some(from) = p.next_request() {
        requests += 1;
        p.accept(PageReply::Page { pos: from as i32, item_uris: uris(from..from + 1) });
    }
    assert_eq!(requests, MAX_LIST_PAGES);
    assert_eq!(p.into_info("u".into(), "n".into()).track_count, 100);
}

#[test]
fn negative_length_means_nothing_expected() {
    let p = PlaylistPager::new(vec![], -5);
    assert!(!p.is_truncated());
    assert_eq!(clamp_to_usize(-5), 0);
    assert_eq!(clamp_to_usize(7), 7);
}

fn meta(owner: &str, name: Option<(&str, bool)>) -> RootlistMeta {
    RootlistMeta {
        owner_username: owner.into(),
        attributes: name.map(|(n, c)| RootlistAttributes { name: n.into(), collaborative: c }),
    }
}

#[test]
fn rootlist_keeps_playlists_and_decides_writability() {
    let mut p = RootlistPager::new("alice".into());
    assert_eq!(p.next_request(), Some(0));
    p.accept(RootlistPage {
        pos: 0,
        length: 5,
        item_uris: vec![
            "spotify:playlist:a".into(),
            "spotify:start-group:f".into(),
            "spotify:playlist:b".into(),
            "spotify:playlist:c".into(),
            "spotify:playlist:d".into(),
        ],
        meta_items: vec![
            meta("alice", Some(("Mine", false))),
            meta("", None),
            meta("bob", Some(("Bob's", false))),
            meta("bob", Some(("Shared", true))),
        ],
    });
    assert_eq!(p.next_request(), None);
    let l = p.into_playlists();
    let got: Vec<(&str, &str, bool)> = l.iter().map(|s| (s.uri.as_str(), s.name.as_str(), s.is_writable)).collect();
    assert_eq!(
        got,
        vec![
            ("spotify:playlist:a", "Mine", true),
            ("spotify:playlist:b", "Bob's", false),
            ("spotify:playlist:c", "Shared", true),
            ("spotify:playlist:d", "", true),
        ]
    );
}

#[test]
fn rootlist_pages_until_length_and_guards_replays() {
    let mut p = RootlistPager::new("alice".into());
    assert_eq!(p.next_request(), Some(0));
    // A first window at the wrong position is still read.
    p.accept(RootlistPage { pos: 7, length: 4, item_uris: vec!["spotify:playlist:a".into(), "spotify:playlist:b".into()], meta_items: vec![] });
    assert_eq!(p.next_request(), Some(2));
    // A later window at the wrong position ends the walk unread.
    p.accept(RootlistPage { pos: 0, length: 4, item_uris: vec!["spotify:playlist:a".into()], meta_items: vec![] });
    assert_eq!(p.next_request(), None);
    assert_eq!(p.into_playlists().len(), 2);

    let mut q = RootlistPager::new("alice".into());
    assert_eq!(q.next_request(), Some(0));
    q.accept(RootlistPage { pos: 0, length: 3, item_uris: vec!["spotify:playlist:a".into(), "spotify:playlist:b".into()], meta_items: vec![] });
    assert_eq!(q.next_request(), Some(2));
    q.accept(RootlistPage { pos: 2, length: 3, item_uris: vec!["spotify:playlist:c".into()], meta_items: vec![] });
    assert_eq!(q.next_request(), None);
    assert_eq!(q.into_playlists().len(), 3);
}

#[test]
fn rootlist_empty_window_ends_walk() {
    let mut p = RootlistPager::new("alice".into());
    assert_eq!(p.next_request(), Some(0));
    p.accept(RootlistPage { pos: 0, length: 10, item_uris: vec![], meta_items: vec![] });
    assert_eq!(p.next_request(), None);
    assert!(p.into_playlists().is_empty());
}

fn window_bytes(pos: i32, length: i32, item_uris: &[&str], metas: &[(&str, Option<(&str, bool)>)]) -> Vec<u8> {
    let mut items = ListItems::new();
    items.set_pos(pos);
    items.set_truncated(false);
    for u in item_uris {
        let mut i = Item::new();
        i.set_uri(u.to_string());
        items.items.push(i);
    }
    for (owner, attrs) in metas {
        let mut m = MetaItem::new();
        m.set_owner_username(owner.to_string());
        if let Some((name, collaborative)) = attrs {
            let mut a = ListAttributes::new();
            a.set_name(name.to_string());
            a.set_collaborative(*collaborative);
            m.attributes = MessageField::some(a);
        }
        items.meta_items.push(m);
    }
    let mut c = SelectedListContent::new();
    c.set_length(length);
    c.contents = MessageField::some(items);
    c.write_to_bytes().unwrap()
}

#[test]
fn rootlist_reads_windows_from_bytes() {
    let mut p = RootlistPager::new("alice".into());
    assert_eq!(p.next_request(), Some(0));
    let bytes = window_bytes(
        0,
        2,
        &["spotify:playlist:a", "spotify:start-group:f"],
        &[("bob", Some(("Mix", true))), ("alice", None)],
    );
    assert_eq!(p.accept_response(Ok(&bytes[..])), Ok(()));
    assert_eq!(p.next_request(), None);
    let got = p.into_playlists();
    assert_eq!(got.len(), 1);
    assert_eq!((got[0].uri.as_str(), got[0].name.as_str(), got[0].is_writable), ("spotify:playlist:a", "Mix", true));
}

#[test]
fn rootlist_failures_end_the_listing() {
    let mut p = RootlistPager::new("alice".into());
    p.next_request();
    assert_eq!(
        p.accept_response(Err("boom".into())),
        Err(sidespot::error::SidespotError::Player("failed to get rootlist: boom".into()))
    );
    assert_eq!(p.next_request(), None);
    let mut q = RootlistPager::new("alice".into());
    q.next_request();
    match q.accept_response(Ok(&[0xff, 0xff, 0xff][..])) {
        Err(sidespot::error::SidespotError::Player(m)) => assert!(m.starts_with("failed to parse rootlist: ")),
        other => panic!("unexpected {other:?}"),
    }
    assert_eq!(q.next_request(), None);
}

#[test]
fn playlist_windows_from_bytes() {
    let mut p = PlaylistPager::new(uris(0..2), 4);
    assert_eq!(p.next_request(), Some(2));
    let bytes = window_bytes(2, 4, &["spotify:track:2", "spotify:track:3"], &[]);
    p.accept_response(Some(&bytes[..]));
    assert_eq!(p.next_request(), None);
    assert_eq!(p.into_info("u".into(), "n".into()).track_uris, uris(0..4));
    let mut q = PlaylistPager::new(uris(0..2), 4);
    assert_eq!(q.next_request(), Some(2));
    q.accept_response(None);
    assert_eq!(q.next_request(), None);
    assert_eq!(q.into_info("u".into(), "n".into()).track_count, 2);
}
