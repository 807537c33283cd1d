//! Walking windowed lists: the remainder of a truncated playlist, and the
//! user's root list of playlists.  The backend is asked one window at a time;
//! these state machines decide what to ask next and what to keep.

use vstd::prelude::*;
use vstd::string::*;

use librespot_protocol::playlist4_external::SelectedListContent;
use protobuf::Message;

use crate::error::SidespotError;
use crate::metadata::{
    kept_in_page, request_failed, request_failure_text, MetadataRequest, PlaylistInfo,
    PlaylistSummary,
};
use crate::text::{concat3, decimal, has_prefix, push_decimal, starts_with};

verus! {

/// Number of items requested per page when walking a truncated list.
pub const LIST_PAGE_SIZE: usize = 500;

/// Upper bound on pagination requests, so a server that ignores `from` can
/// never make the walk go on forever.
pub const MAX_LIST_PAGES: usize = 100;

/// A count or position as the backend sends it, negative values read as 0.
pub open spec fn clamp_count(x: i32) -> nat {
    if x < 0 {
        0
    } else {
        x as nat
    }
}

/// Reads a backend count or position, negative values as 0.
pub fn clamp_to_usize(x: i32) -> (r: usize)
    ensures
        r == clamp_count(x),
{
    if x < 0 {
        0
    } else {
        x as usize
    }
}

/// The non-empty URIs of a page, in order.
pub open spec fn nonempty_uris(items: Seq<Seq<char>>) -> Seq<Seq<char>> {
    kept_in_page(items, items.len() as int, false)
}

/// The address of one window of a playlist's items.
pub open spec fn playlist_page_path(id62: Seq<char>, from: nat) -> Seq<char> {
    "/playlist/v2/playlist/"@ + id62 + "?from="@ + decimal(from) + "&length="@ + decimal(
        LIST_PAGE_SIZE as nat,
    )
}

/// The address of the window of a playlist's items that starts at `from`.
pub fn playlist_page_endpoint(id62: &str, from: usize) -> (r: String)
    ensures
        r@ == playlist_page_path(id62@, from as nat),
{
    let mut out = concat3("/playlist/v2/playlist/", id62, "?from=");
    push_decimal(&mut out, from);
    out.append("&length=");
    push_decimal(&mut out, LIST_PAGE_SIZE);
    assert(out@ =~= playlist_page_path(id62@, from as nat));
    out
}

// ---------------------------------------------------------------------------
// The remainder of a truncated playlist
// ---------------------------------------------------------------------------

/// The answer to a request for one window of a playlist.
#[derive(Debug, Clone, PartialEq, Eq)]
pub enum PageReply {
    /// The request failed or its answer could not be read.
    Failed,
    /// A window: the position it starts at, and its items' URIs.
    Page { pos: i32, item_uris: Vec<String> },
}

/// `PageReply` as plain values.
pub enum PageReplyView {
    Failed,
    Page { pos: i32, item_uris: Seq<Seq<char>> },
}

impl View for PageReply {
    type V = PageReplyView;

    open spec fn view(&self) -> PageReplyView {
        match self {
            PageReply::Failed => PageReplyView::Failed,
            PageReply::Page { pos, item_uris } => PageReplyView::Page {
                pos: *pos,
                item_uris: item_uris.deep_view(),
            },
        }
    }
}

/// The state of a playlist walk.
pub struct PlaylistPager {
    track_uris: Vec<String>,
    expected: usize,
    pages_requested: usize,
    pending: Option<usize>,
    finished: bool,
}

/// A playlist walk as plain values: the URIs collected, how many the
/// playlist says it has, the requests made, the window awaited, and whether
/// the walk is over.
#[verifier::ext_equal]
pub struct PlaylistPagerView {
    pub uris: Seq<Seq<char>>,
    pub expected: nat,
    pub pages: nat,
    pub pending: Option<nat>,
    pub finished: bool,
}

impl View for PlaylistPager {
    type V = PlaylistPagerView;

    closed spec fn view(&self) -> PlaylistPagerView {
        PlaylistPagerView {
            uris: self.track_uris.deep_view(),
            expected: self.expected as nat,
            pages: self.pages_requested as nat,
            pending: match self.pending {
                Some(f) => Some(f as nat),
                None => None,
            },
            finished: self.finished,
        }
    }
}

impl PlaylistPagerView {
    /// At most `MAX_LIST_PAGES` requests, and an awaited window starts at
    /// the number of URIs collected.
    pub open spec fn wf(self) -> bool {
        &&& self.pages <= MAX_LIST_PAGES
        &&& (self.pending matches Some(f) ==> f == self.uris.len())
    }

    /// The window asked for next, if any: none once the walk is over, the
    /// request budget is spent, or all items are there; otherwise the one
    /// starting after the URIs collected.
    pub open spec fn next_request(self) -> Option<nat> {
        if self.finished || self.pages >= MAX_LIST_PAGES || self.uris.len() >= self.expected {
            None
        } else {
            Some(self.uris.len())
        }
    }

    /// The walk after deciding on the next request.
    pub open spec fn after_request(self) -> PlaylistPagerView {
        match self.next_request() {
            Some(f) => PlaylistPagerView {
                pages: self.pages + 1,
                pending: Some(f),
                ..self
            },
            None => PlaylistPagerView { pending: None, finished: true, ..self },
        }
    }

    /// The walk after the answer to the awaited window: a failure ends it; a
    /// window that does not start where it was asked for ends it unread;
    /// otherwise its non-empty URIs are appended, and a window that adds
    /// none ends it.
    pub open spec fn after_reply(self, reply: PageReplyView) -> PlaylistPagerView {
        match reply {
            PageReplyView::Failed => PlaylistPagerView { pending: None, finished: true, ..self },
            PageReplyView::Page { pos, item_uris } => if self.pending != Some(clamp_count(pos)) {
                PlaylistPagerView { pending: None, finished: true, ..self }
            } else {
                PlaylistPagerView {
                    uris: self.uris + nonempty_uris(item_uris),
                    pending: None,
                    finished: nonempty_uris(item_uris).len() == 0,
                    ..self
                }
            },
        }
    }
}

impl PlaylistPager {
    /// Starts a walk from the URIs of the first answer and the item count
    /// the playlist reports.
    pub fn new(track_uris: Vec<String>, length: i32) -> (p: Self)
        ensures
            p@.wf(),
            p@.uris == track_uris.deep_view(),
            p@.expected == clamp_count(length),
            p@.pages == 0,
            p@.pending is None,
            !p@.finished,
    {
        PlaylistPager {
            track_uris,
            expected: clamp_to_usize(length),
            pages_requested: 0,
            pending: None,
            finished: false,
        }
    }

    /// Whether the first answer was truncated: fewer URIs than items.
    pub fn is_truncated(&self) -> (r: bool)
        ensures
            r == (self@.uris.len() < self@.expected),
    {
        self.track_uris.len() < self.expected
    }

    /// Decides the next request: the start of the window to ask for, or
    /// `None` when the walk is over.
    pub fn next_request(&mut self) -> (r: Option<usize>)
        requires
            old(self)@.wf(),
            old(self)@.pending is None,
        ensures
            final(self)@.wf(),
            final(self)@ == old(self)@.after_request(),
            r matches Some(f) ==> old(self)@.next_request() == Some(f as nat),
            r is None ==> old(self)@.next_request() is None,
    {
        let n = self.track_uris.len();
        if self.finished || self.pages_requested >= MAX_LIST_PAGES || n >= self.expected {
            self.pending = None;
            self.finished = true;
            None
        } else {
            self.pages_requested = self.pages_requested + 1;
            self.pending = Some(n);
            Some(n)
        }
    }

    /// Takes in the answer to the awaited window.
    pub fn accept(&mut self, reply: PageReply)
        requires
            old(self)@.wf(),
            old(self)@.pending is Some,
        ensures
            final(self)@.wf(),
            final(self)@ == old(self)@.after_reply(reply@),
    {
        let from = match self.pending {
            Some(f) => f,
            None => 0,
        };
        self.pending = None;
        match reply {
            PageReply::Failed => {
                self.finished = true;
            },
            PageReply::Page { pos, item_uris } => {
                if clamp_to_usize(pos) != from {
                    self.finished = true;
                } else {
                    let ghost before = self.track_uris.deep_view();
                    let ghost items = item_uris.deep_view();
                    let before_len = self.track_uris.len();
                    let mut i: usize = 0;
                    while i < item_uris.len()
                        invariant
                            i <= item_uris@.len(),
                            items == item_uris.deep_view(),
                            self.track_uris.deep_view() == before + kept_in_page(
                                items,
                                i as int,
                                false,
                            ),
                            before_len == before.len(),
                            self.pages_requested == old(self)@.pages,
                            self.expected == old(self)@.expected,
                            self.pending is None,
                        decreases item_uris@.len() - i,
                    {
                        let u = &item_uris[i];
                        assert(items[i as int] == u@);
                        let keep = !u.as_str().is_empty();
                        if keep {
                            self.track_uris.push(u.clone());
                        }
                        proof {
                            let k = kept_in_page(items, i as int, false);
                            if keep {
                                assert(self.track_uris.deep_view() =~= before + k + seq![u@]);
                            } else {
                                assert(self.track_uris.deep_view() =~= before + k
                                    + Seq::<Seq<char>>::empty());
                            }
                        }
                        i = i + 1;
                    }
                    self.finished = self.track_uris.len() == before_len;
                }
            },
        }
    }

    /// Takes in the answer to the awaited window as the backend sent it:
    /// `None` when the request failed; bytes that do not read as a list
    /// window count as a failed window.
    pub fn accept_response(&mut self, response: Option<&[u8]>)
        requires
            old(self)@.wf(),
            old(self)@.pending is Some,
        ensures
            final(self)@.wf(),
            final(self)@ == old(self)@.after_reply(
                reply_of(
                    match response {
                        Some(b) => Some(b@),
                        None => None,
                    },
                ),
            ),
    {
        let reply = match response {
            None => PageReply::Failed,
            Some(b) => match parse_selected_list(b) {
                Ok(page) => PageReply::Page { pos: page.pos, item_uris: page.item_uris },
                Err(_) => PageReply::Failed,
            },
        };
        self.accept(reply);
    }

    /// The playlist shape: the URI and name given, the URIs collected and
    /// their count.
    pub fn into_info(self, uri: String, name: String) -> (info: PlaylistInfo)
        ensures
            info.uri == uri,
            info.name == name,
            info.track_uris.deep_view() == self@.uris,
            info.track_count == self@.uris.len() as i32,
    {
        let track_count = self.track_uris.len() as i32;
        PlaylistInfo { uri, name, track_uris: self.track_uris, track_count }
    }
}

/// A playlist walk makes at most `MAX_LIST_PAGES` requests, each for the
/// window that starts after the URIs collected, and once over it asks for
/// nothing more.
pub proof fn law_playlist_walk_bounded(p: PlaylistPagerView)
    requires
        p.wf(),
        p.pending is None,
    ensures
        p.after_request().wf(),
        p.after_request().pages <= MAX_LIST_PAGES,
        p.next_request() matches Some(f) ==> f == p.uris.len() && p.pages < MAX_LIST_PAGES,
        p.finished ==> p.next_request() is None && p.after_request().pages == p.pages,
{
}

/// A window that does not start where it was asked for (a server that
/// ignores `from` and replays items) adds nothing and ends the walk; any
/// answer keeps the URIs already collected as a prefix.
pub proof fn law_playlist_replay_rejected(p: PlaylistPagerView, reply: PageReplyView)
    requires
        p.wf(),
        p.pending is Some,
    ensures
        (reply matches PageReplyView::Page { pos, .. } && p.pending != Some(clamp_count(pos)))
            ==> p.after_reply(reply).uris == p.uris && p.after_reply(reply).finished,
        p.after_reply(reply).uris.subrange(0, p.uris.len() as int) == p.uris,
        p.after_reply(reply).uris.len() >= p.uris.len(),
{
    match reply {
        PageReplyView::Page { pos, item_uris } => {
            assert((p.uris + nonempty_uris(item_uris)).subrange(0, p.uris.len() as int) =~= p.uris);
        },
        PageReplyView::Failed => {
            assert(p.uris.subrange(0, p.uris.len() as int) =~= p.uris);
        },
    }
    if p.after_reply(reply).uris == p.uris {
        assert(p.uris.subrange(0, p.uris.len() as int) =~= p.uris);
    }
}

// ---------------------------------------------------------------------------
// The user's root list of playlists
// ---------------------------------------------------------------------------

/// Attributes of a root-list entry.
#[derive(Debug, Clone, PartialEq, Eq)]
pub struct RootlistAttributes {
    pub name: String,
    pub collaborative: bool,
}

/// Metadata of a root-list entry.
#[derive(Debug, Clone, PartialEq, Eq)]
pub struct RootlistMeta {
    pub owner_username: String,
    pub attributes: Option<RootlistAttributes>,
}

/// One window of the root list: where it starts, the list's total length,
/// the entries' URIs, and the entries' metadata (by index; it may be shorter).
#[derive(Debug, Clone, PartialEq, Eq)]
pub struct RootlistPage {
    pub pos: i32,
    pub length: i32,
    pub item_uris: Vec<String>,
    pub meta_items: Vec<RootlistMeta>,
}

/// A root-list entry's metadata as plain values: its owner, and its name
/// and collaborative flag when it has attributes.
pub type MetaView = (Seq<char>, Option<(Seq<char>, bool)>);

/// The plain values of a root-list entry's metadata.
pub open spec fn meta_view(m: RootlistMeta) -> MetaView {
    (
        m.owner_username@,
        match m.attributes {
            Some(a) => Some((a.name@, a.collaborative)),
            None => None,
        },
    )
}

/// The plain values of a window's metadata.
pub open spec fn metas_view(metas: Seq<RootlistMeta>) -> Seq<MetaView> {
    metas.map_values(|m: RootlistMeta| meta_view(m))
}

/// A root-list entry's name: from its attributes, empty without them.
pub open spec fn meta_name(metas: Seq<MetaView>, i: int) -> Seq<char> {
    if 0 <= i < metas.len() && metas[i].1 is Some {
        metas[i].1->Some_0.0
    } else {
        Seq::empty()
    }
}

/// A root-list entry's owner: empty when unknown.
pub open spec fn meta_owner(metas: Seq<MetaView>, i: int) -> Seq<char> {
    if 0 <= i < metas.len() {
        metas[i].0
    } else {
        Seq::empty()
    }
}

/// Whether a root-list entry is collaborative: false when unknown.
pub open spec fn meta_collaborative(metas: Seq<MetaView>, i: int) -> bool {
    0 <= i < metas.len() && metas[i].1 is Some && metas[i].1->Some_0.1
}

/// A playlist is writable when its owner is unknown, is the user, or when it
/// is collaborative.
pub open spec fn is_writable_for(owner: Seq<char>, username: Seq<char>, collaborative: bool) -> bool {
    owner.len() == 0 || owner == username || collaborative
}

/// The summary of entry `i` as plain values: URI, name, writability.
pub open spec fn entry_summary(
    uris: Seq<Seq<char>>,
    metas: Seq<MetaView>,
    username: Seq<char>,
    i: int,
) -> (Seq<char>, Seq<char>, bool) {
    (
        uris[i],
        meta_name(metas, i),
        is_writable_for(meta_owner(metas, i), username, meta_collaborative(metas, i)),
    )
}

/// The summaries of the playlists among the first `n` entries of a window;
/// other entries (folders and the like) are skipped.
pub open spec fn window_summaries(
    uris: Seq<Seq<char>>,
    metas: Seq<MetaView>,
    username: Seq<char>,
    n: int,
) -> Seq<(Seq<char>, Seq<char>, bool)>
    decreases n,
{
    if n <= 0 {
        Seq::empty()
    } else {
        window_summaries(uris, metas, username, n - 1) + if has_prefix(
            uris[n - 1],
            "spotify:playlist:"@,
        ) {
            seq![entry_summary(uris, metas, username, n - 1)]
        } else {
            Seq::empty()
        }
    }
}

/// A playlist summary as plain values.
pub open spec fn summary_view(s: PlaylistSummary) -> (Seq<char>, Seq<char>, bool) {
    (s.uri@, s.name@, s.is_writable)
}

/// What `SelectedListContent::parse_from_bytes` makes of a window's bytes:
/// the window's position, the list's length, the entries' URIs and their
/// metadata; `None` when the bytes do not read as a window.  A function of
/// the bytes alone.
pub uninterp spec fn selected_list(bytes: Seq<u8>) -> Option<
    (i32, i32, Seq<Seq<char>>, Seq<MetaView>),
>;

/// Calls `librespot_protocol::playlist4_external::SelectedListContent::parse_from_bytes`
/// and reads the window out of it.  Claims that the outcome is
/// `selected_list` of the bytes; a refusal carries protobuf's own text.
#[verifier::external_body]
fn parse_selected_list(bytes: &[u8]) -> (r: Result<RootlistPage, String>)
    ensures
        r is Ok <==> selected_list(bytes@) is Some,
        r matches Ok(p) ==> selected_list(bytes@) == Some(
            (p.pos, p.length, p.item_uris.deep_view(), metas_view(p.meta_items@)),
        ),
{
    let c = SelectedListContent::parse_from_bytes(bytes).map_err(|e| e.to_string())?;
    let item_uris = c.contents.items.iter().map(|i| i.uri().to_string()).collect();
    let meta_items = c.contents.meta_items.iter().map(|m| RootlistMeta {
        owner_username: m.owner_username().to_string(),
        attributes: m.attributes.as_ref().map(|a| RootlistAttributes {
            name: a.name().to_string(),
            collaborative: a.collaborative(),
        }),
    }).collect();
    Ok(RootlistPage { pos: c.contents.pos(), length: c.length(), item_uris, meta_items })
}

/// The answer to a playlist window request as plain values: a failed
/// request, or bytes that do not read as a window, count as a failure.
pub open spec fn reply_of(response: Option<Seq<u8>>) -> PageReplyView {
    match response {
        None => PageReplyView::Failed,
        Some(b) => match selected_list(b) {
            None => PageReplyView::Failed,
            Some(w) => PageReplyView::Page { pos: w.0, item_uris: w.2 },
        },
    }
}

/// A root-list walk ended early.
pub open spec fn ended(v: RootlistPagerView) -> RootlistPagerView {
    RootlistPagerView { pending: false, finished: true, ..v }
}

/// The state of a root-list walk.
pub struct RootlistPager {
    username: String,
    seen: usize,
    pages_requested: usize,
    pending: bool,
    finished: bool,
    playlists: Vec<PlaylistSummary>,
}

/// A root-list walk as plain values.
#[verifier::ext_equal]
pub struct RootlistPagerView {
    pub username: Seq<char>,
    pub seen: nat,
    pub pages: nat,
    pub pending: bool,
    pub finished: bool,
    pub playlists: Seq<(Seq<char>, Seq<char>, bool)>,
}

impl View for RootlistPager {
    type V = RootlistPagerView;

    closed spec fn view(&self) -> RootlistPagerView {
        RootlistPagerView {
            username: self.username@,
            seen: self.seen as nat,
            pages: self.pages_requested as nat,
            pending: self.pending,
            finished: self.finished,
            playlists: self.playlists@.map_values(|s: PlaylistSummary| summary_view(s)),
        }
    }
}

impl RootlistPagerView {
    pub open spec fn wf(self) -> bool {
        self.pages <= MAX_LIST_PAGES
    }

    /// The window asked for next: none once the walk is over or the request
    /// budget is spent, otherwise the one after the entries seen.
    pub open spec fn next_request(self) -> Option<nat> {
        if self.finished || self.pages >= MAX_LIST_PAGES {
            None
        } else {
            Some(self.seen)
        }
    }

    pub open spec fn after_request(self) -> RootlistPagerView {
        match self.next_request() {
            Some(f) => RootlistPagerView { pages: self.pages + 1, pending: true, ..self },
            None => RootlistPagerView { pending: false, finished: true, ..self },
        }
    }

    /// The walk after a window: an empty window ends it; a window that does
    /// not start at the entries seen ends it, unless nothing was seen yet;
    /// otherwise its playlists are appended, its entries counted as seen,
    /// and the walk ends once the list's length is reached.
    pub open spec fn after_page(
        self,
        pos: i32,
        length: i32,
        uris: Seq<Seq<char>>,
        metas: Seq<MetaView>,
    ) -> RootlistPagerView {
        if uris.len() == 0 {
            RootlistPagerView { pending: false, finished: true, ..self }
        } else if clamp_count(pos) != self.seen && self.seen > 0 {
            RootlistPagerView { pending: false, finished: true, ..self }
        } else {
            RootlistPagerView {
                seen: self.seen + uris.len(),
                pending: false,
                finished: self.seen + uris.len() >= clamp_count(length),
                playlists: self.playlists + window_summaries(
                    uris,
                    metas,
                    self.username,
                    uris.len() as int,
                ),
                ..self
            }
        }
    }
}

impl RootlistPager {
    /// Starts a walk of the root list of `username`.
    pub fn new(username: String) -> (p: Self)
        ensures
            p@.wf(),
            p@.username == username@,
            p@.seen == 0,
            p@.pages == 0,
            !p@.pending,
            !p@.finished,
            p@.playlists.len() == 0,
    {
        RootlistPager {
            username,
            seen: 0,
            pages_requested: 0,
            pending: false,
            finished: false,
            playlists: Vec::new(),
        }
    }

    /// Decides the next request: the start of the window to ask for, or
    /// `None` when the walk is over.  Every window asks for
    /// `LIST_PAGE_SIZE` entries.
    pub fn next_request(&mut self) -> (r: Option<usize>)
        requires
            old(self)@.wf(),
            !old(self)@.pending,
        ensures
            final(self)@.wf(),
            final(self)@ == old(self)@.after_request(),
            r matches Some(f) ==> old(self)@.next_request() == Some(f as nat),
            r is None ==> old(self)@.next_request() is None,
    {
        if self.finished || self.pages_requested >= MAX_LIST_PAGES {
            self.pending = false;
            self.finished = true;
            None
        } else {
            self.pages_requested = self.pages_requested + 1;
            self.pending = true;
            Some(self.seen)
        }
    }

    /// Takes in the awaited window.
    pub fn accept(&mut self, page: RootlistPage)
        requires
            old(self)@.wf(),
            old(self)@.pending,
            old(self)@.seen + page.item_uris@.len() <= usize::MAX,
        ensures
            final(self)@.wf(),
            final(self)@ == old(self)@.after_page(
                page.pos,
                page.length,
                page.item_uris.deep_view(),
                metas_view(page.meta_items@),
            ),
    {
        proof {
            reveal_strlit("spotify:playlist:");
        }
        self.pending = false;
        let n = page.item_uris.len();
        if n == 0 {
            self.finished = true;
            return;
        }
        if clamp_to_usize(page.pos) != self.seen && self.seen > 0 {
            self.finished = true;
            return;
        }
        let ghost uris = page.item_uris.deep_view();
        let ghost metas = metas_view(page.meta_items@);
        let ghost before = self.playlists@.map_values(|s: PlaylistSummary| summary_view(s));
        let mut i: usize = 0;
        while i < n
            invariant
                i <= n,
                n == page.item_uris@.len(),
                uris == page.item_uris.deep_view(),
                metas == metas_view(page.meta_items@),
                self.playlists@.map_values(|s: PlaylistSummary| summary_view(s)) == before
                    + window_summaries(uris, metas, self.username@, i as int),
                self.username@ == old(self)@.username,
                self.seen == old(self)@.seen,
                self.seen + n <= usize::MAX,
                self.pages_requested <= MAX_LIST_PAGES,
                self.pages_requested == old(self)@.pages,
                !self.pending,
            decreases n - i,
        {
            let uri = &page.item_uris[i];
            assert(uris[i as int] == uri@);
            if starts_with(uri.as_str(), "spotify:playlist:") {
                let (name, owner, collaborative) = if i < page.meta_items.len() {
                    let m = &page.meta_items[i];
                    match &m.attributes {
                        Some(a) => (a.name.clone(), m.owner_username.clone(), a.collaborative),
                        None => (String::new(), m.owner_username.clone(), false),
                    }
                } else {
                    (String::new(), String::new(), false)
                };
                let is_writable = owner.as_str().is_empty() || owner == self.username
                    || collaborative;
                let s = PlaylistSummary { uri: uri.clone(), name, is_writable };
                let ghost prev = self.playlists@;
                self.playlists.push(s);
                proof {
                    assert(summary_view(s) == entry_summary(uris, metas, self.username@, i as int));
                    assert(self.playlists@ =~= prev.push(s));
                    assert(self.playlists@.map_values(|s: PlaylistSummary| summary_view(s))
                        =~= prev.map_values(|s: PlaylistSummary| summary_view(s)).push(
                        summary_view(s),
                    ));
                    assert(window_summaries(uris, metas, self.username@, i + 1) =~= window_summaries(
                        uris,
                        metas,
                        self.username@,
                        i as int,
                    ).push(entry_summary(uris, metas, self.username@, i as int)));
                }
            } else {
                assert(window_summaries(uris, metas, self.username@, i + 1) =~= window_summaries(
                    uris,
                    metas,
                    self.username@,
                    i as int,
                ));
            }
            i = i + 1;
        }
        self.seen = self.seen + n;
        self.finished = self.seen >= clamp_to_usize(page.length);
    }

    /// Ends the walk.
    fn end_walk(&mut self)
        ensures
            final(self)@ == ended(old(self)@),
    {
        self.pending = false;
        self.finished = true;
    }

    /// Takes in the awaited window as the backend sent it, or the request's
    /// failure text.  A failed request, or bytes that do not read as a list
    /// window, end the walk with the error the listing reports; a window
    /// is otherwise taken in as `accept` does (a window too long to count
    /// ends the walk).
    pub fn accept_response(&mut self, response: Result<&[u8], String>) -> (r: Result<
        (),
        SidespotError,
    >)
        requires
            old(self)@.wf(),
            old(self)@.pending,
        ensures
            final(self)@.wf(),
            response matches Err(e) ==> final(self)@ == ended(old(self)@) && (r matches Err(
                SidespotError::Player(m),
            ) && m@ == request_failure_text(MetadataRequest::Rootlist) + ": "@ + e@),
            response matches Ok(b) ==> match selected_list(b@) {
                None => final(self)@ == ended(old(self)@) && (r matches Err(
                    SidespotError::Player(m),
                ) && exists|d: Seq<char>| m@ == request_failure_text(MetadataRequest::RootlistParse)
                    + ": "@ + d),
                Some(w) => r is Ok && final(self)@ == (if old(self)@.seen + w.2.len()
                    <= usize::MAX {
                    old(self)@.after_page(w.0, w.1, w.2, w.3)
                } else {
                    ended(old(self)@)
                }),
            },
    {
        match response {
            Err(e) => {
                self.end_walk();
                Err(request_failed(MetadataRequest::Rootlist, e.as_str()))
            },
            Ok(b) => match parse_selected_list(b) {
                Err(e) => {
                    self.end_walk();
                    Err(request_failed(MetadataRequest::RootlistParse, e.as_str()))
                },
                Ok(page) => {
                    if page.item_uris.len() > usize::MAX - self.seen {
                        self.end_walk();
                    } else {
                        self.accept(page);
                    }
                    Ok(())
                },
            },
        }
    }

    /// The playlists collected.
    pub fn into_playlists(self) -> (r: Vec<PlaylistSummary>)
        ensures
            r@.map_values(|s: PlaylistSummary| summary_view(s)) == self@.playlists,
    {
        self.playlists
    }
}

/// A root-list walk makes at most `MAX_LIST_PAGES` requests, each for the
/// window after the entries seen; a window that replays the list from a
/// position other than the one asked for ends it once anything was seen;
/// only playlist entries are kept, and an entry is writable exactly when its
/// owner is unknown or the user, or it is collaborative.
pub proof fn law_rootlist_walk(
    p: RootlistPagerView,
    pos: i32,
    length: i32,
    uris: Seq<Seq<char>>,
    metas: Seq<MetaView>,
    i: int,
)
    requires
        p.wf(),
    ensures
        p.after_request().wf(),
        p.next_request() matches Some(f) ==> f == p.seen && p.pages < MAX_LIST_PAGES,
        uris.len() > 0 && p.seen > 0 && clamp_count(pos) != p.seen ==> p.after_page(
            pos,
            length,
            uris,
            metas,
        ).playlists == p.playlists && p.after_page(pos, length, uris, metas).finished,
        0 <= i < uris.len() ==> (window_summaries(uris, metas, p.username, i + 1).len()
            == window_summaries(uris, metas, p.username, i).len() + 1 <==> has_prefix(
            uris[i],
            "spotify:playlist:"@,
        )),
{
}

} // verus!
