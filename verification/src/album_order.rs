//! The order of albums and singles on the artist page: newest first, then by
//! name.  The catalogue's own order is not reliably newest-first.

use vstd::prelude::*;

use crate::metadata::ArtistAlbum;
use crate::text::{lemma_lex_lt_transitive, lemma_lex_lt_trichotomy, lex_lt, str_lt};

verus! {

/// The key an album is ordered by: release year and name.
pub open spec fn album_key(a: ArtistAlbum) -> (i32, Seq<char>) {
    (a.year, a.name@)
}

/// `a` comes strictly before `b`: a later year, or the same year and a name
/// that is smaller in code-point order.
pub open spec fn album_before(a: ArtistAlbum, b: ArtistAlbum) -> bool {
    a.year > b.year || (a.year == b.year && lex_lt(a.name@, b.name@))
}

/// No album comes strictly before one that precedes it.
pub open spec fn albums_sorted(s: Seq<ArtistAlbum>) -> bool {
    forall|i: int, j: int| 0 <= i < j < s.len() ==> !album_before(#[trigger] s[j], #[trigger] s[i])
}

/// The albums with key `k`.
pub open spec fn has_key(k: (i32, Seq<char>)) -> spec_fn(ArtistAlbum) -> bool {
    |a: ArtistAlbum| album_key(a) == k
}

proof fn lemma_before_irreflexive(a: ArtistAlbum)
    ensures
        !album_before(a, a),
{
    lemma_lex_lt_trichotomy(a.name@, a.name@);
}

proof fn lemma_before_transitive(a: ArtistAlbum, b: ArtistAlbum, c: ArtistAlbum)
    requires
        album_before(a, b),
        album_before(b, c),
    ensures
        album_before(a, c),
{
    if a.year == b.year && b.year == c.year {
        lemma_lex_lt_transitive(a.name@, b.name@, c.name@);
    }
}

/// Albums that neither precede the other have the same key.
proof fn lemma_before_total(a: ArtistAlbum, b: ArtistAlbum)
    ensures
        album_before(a, b) || album_before(b, a) || album_key(a) == album_key(b),
        album_key(a) == album_key(b) ==> !album_before(a, b),
{
    lemma_lex_lt_trichotomy(a.name@, b.name@);
}

fn before(a: &ArtistAlbum, b: &ArtistAlbum) -> (r: bool)
    ensures
        r == album_before(*a, *b),
{
    a.year > b.year || (a.year == b.year && str_lt(a.name.as_str(), b.name.as_str()))
}

proof fn lemma_filter_single(x: ArtistAlbum, pred: spec_fn(ArtistAlbum) -> bool)
    ensures
        seq![x].filter(pred) == if pred(x) {
            seq![x]
        } else {
            Seq::<ArtistAlbum>::empty()
        },
{
    reveal_with_fuel(Seq::filter, 2);
    assert(seq![x].drop_last() =~= Seq::<ArtistAlbum>::empty());
    assert(Seq::<ArtistAlbum>::empty().filter(pred) =~= Seq::<ArtistAlbum>::empty());
    if pred(x) {
        assert(seq![x].filter(pred) =~= seq![x]);
    } else {
        assert(seq![x].filter(pred) =~= Seq::<ArtistAlbum>::empty());
    }
}

proof fn lemma_filter_none(s: Seq<ArtistAlbum>, pred: spec_fn(ArtistAlbum) -> bool)
    requires
        forall|i: int| 0 <= i < s.len() ==> !pred(#[trigger] s[i]),
    ensures
        s.filter(pred) == Seq::<ArtistAlbum>::empty(),
{
    assert(s.all(|x: ArtistAlbum| !pred(x)));
    s.lemma_all_neg_filter_empty(pred);
    assert(s.filter(pred) =~= Seq::<ArtistAlbum>::empty());
}

/// Inserting `x` where everything before it does not follow it and
/// everything after it follows it keeps the sequence sorted and adds `x` at
/// the end of its key's group.
proof fn lemma_insert(out: Seq<ArtistAlbum>, p: int, x: ArtistAlbum, k: (i32, Seq<char>))
    requires
        0 <= p <= out.len(),
        albums_sorted(out),
        forall|q: int| 0 <= q < p ==> !album_before(x, #[trigger] out[q]),
        forall|q: int| p <= q < out.len() ==> album_before(x, #[trigger] out[q]),
    ensures
        albums_sorted(out.insert(p, x)),
        out.insert(p, x).filter(has_key(k)) == out.filter(has_key(k)) + seq![x].filter(
            has_key(k),
        ),
{
    let n = out.insert(p, x);
    let pre = out.subrange(0, p);
    let post = out.subrange(p, out.len() as int);
    assert(n =~= pre + seq![x] + post);
    assert(out =~= pre + post);
    assert forall|i: int, j: int| 0 <= i < j < n.len() implies !album_before(
        #[trigger] n[j],
        #[trigger] n[i],
    ) by {
        if i < p && j < p {
            assert(n[i] == out[i] && n[j] == out[j]);
        } else if i < p && j == p {
            assert(n[i] == out[i] && n[j] == x);
            lemma_before_total(x, out[i]);
        } else if i < p && j > p {
            assert(n[i] == out[i] && n[j] == out[j - 1]);
        } else if i == p {
            assert(n[i] == x && n[j] == out[j - 1]);
            if album_before(out[j - 1], x) {
                lemma_before_transitive(out[j - 1], x, out[j - 1]);
                lemma_before_irreflexive(out[j - 1]);
            }
        } else {
            assert(n[i] == out[i - 1] && n[j] == out[j - 1]);
        }
    }
    let pred = has_key(k);
    Seq::<ArtistAlbum>::filter_distributes_over_add(pre + seq![x], post, pred);
    Seq::<ArtistAlbum>::filter_distributes_over_add(pre, seq![x], pred);
    Seq::<ArtistAlbum>::filter_distributes_over_add(pre, post, pred);
    lemma_filter_single(x, pred);
    if pred(x) {
        assert forall|i: int| 0 <= i < post.len() implies !pred(#[trigger] post[i]) by {
            assert(post[i] == out[p + i]);
            lemma_before_total(x, post[i]);
        }
        lemma_filter_none(post, pred);
        assert(n.filter(pred) =~= out.filter(pred) + seq![x].filter(pred));
    } else {
        assert(n.filter(pred) =~= out.filter(pred) + seq![x].filter(pred));
    }
}

/// Orders albums newest first, then by name; albums with the same year and
/// name keep their relative order.
pub fn sort_artist_albums(albums: Vec<ArtistAlbum>) -> (r: Vec<ArtistAlbum>)
    ensures
        albums_sorted(r@),
        forall|k: (i32, Seq<char>)| #[trigger] r@.filter(has_key(k)) == albums@.filter(has_key(k)),
        r@.len() == albums@.len(),
{
    let ghost input = albums@;
    let mut out: Vec<ArtistAlbum> = Vec::new();
    for x in it: albums
        invariant
            it.seq() == input,
            albums_sorted(out@),
            forall|k: (i32, Seq<char>)| #[trigger] out@.filter(has_key(k)) == input.take(
                it.index() as int,
            ).filter(has_key(k)),
            out@.len() == it.index(),
    {
        let mut p: usize = 0;
        while p < out.len() && !before(&x, &out[p])
            invariant
                p <= out@.len(),
                forall|q: int| 0 <= q < p ==> !album_before(x, #[trigger] out@[q]),
            decreases out@.len() - p,
        {
            p = p + 1;
        }
        proof {
            let o = out@;
            if p < o.len() {
                assert(album_before(x, o[p as int]));
                assert forall|q: int| p <= q < o.len() implies album_before(x, #[trigger] o[q]) by {
                    if q > p {
                        lemma_before_total(o[p as int], o[q]);
                        if album_before(o[p as int], o[q]) {
                            lemma_before_transitive(x, o[p as int], o[q]);
                        }
                    }
                }
            }
            let i = it.index() as int;
            assert(input.take(i + 1) =~= input.take(i) + seq![x]);
            assert forall|k: (i32, Seq<char>)| #[trigger] o.insert(p as int, x).filter(has_key(k))
                == input.take(i + 1).filter(has_key(k)) by {
                lemma_insert(o, p as int, x, k);
                Seq::<ArtistAlbum>::filter_distributes_over_add(input.take(i), seq![x], has_key(k));
            }
            lemma_insert(o, p as int, x, (0, Seq::empty()));
        }
        out.insert(p, x);
    }
    proof {
        assert(input.take(input.len() as int) =~= input);
    }
    out
}

} // verus!
