//! The comment normalizer: rewrites documentation markers into a canonical
//! line-oriented form — one marker per source line, with the inner/outer
//! distinction preserved — or removes them outright when the
//! strip-documentation policy is active.  Non-documentation markers pass
//! through unchanged.

use vstd::prelude::*;

use crate::classify::{spec_is_derived, spec_is_test_marker, spec_is_test_only};
use crate::text::{
    has_newline, lemma_split_lines_line_free, lemma_split_lines_whole, split_lines,
    split_lines_seq,
};
use crate::tree::{marker_view, markers_view, Marker, MarkerView};

verus! {

/// One documentation line as a marker.
pub open spec fn doc_line(inner: bool, text: Seq<char>) -> MarkerView {
    MarkerView::Doc { inner, text }
}

/// What one marker becomes: documentation is dropped under the
/// strip-documentation policy and split into one marker per line otherwise;
/// any other marker stays as it is.
pub open spec fn spec_normalize_marker(m: MarkerView, strip_docs: bool) -> Seq<MarkerView> {
    match m {
        MarkerView::Doc { inner, text } => if strip_docs {
            Seq::empty()
        } else {
            split_lines_seq(text).map_values(|l: Seq<char>| doc_line(inner, l))
        },
        _ => seq![m],
    }
}

/// What a marker list becomes, marker by marker, order preserved.
pub open spec fn spec_normalize_markers(ms: Seq<MarkerView>, strip_docs: bool) -> Seq<MarkerView>
    decreases ms.len(),
{
    if ms.len() == 0 {
        Seq::empty()
    } else {
        spec_normalize_marker(ms.first(), strip_docs) + spec_normalize_markers(
            ms.drop_first(),
            strip_docs,
        )
    }
}

pub proof fn lemma_normalize_markers_append(a: Seq<MarkerView>, b: Seq<MarkerView>, strip_docs: bool)
    ensures
        spec_normalize_markers(a + b, strip_docs) == spec_normalize_markers(a, strip_docs)
            + spec_normalize_markers(b, strip_docs),
    decreases a.len(),
{
    if a.len() == 0 {
        assert(a + b =~= b);
        assert(Seq::<MarkerView>::empty() + spec_normalize_markers(b, strip_docs)
            =~= spec_normalize_markers(b, strip_docs));
    } else {
        assert((a + b).first() == a.first());
        assert((a + b).drop_first() =~= a.drop_first() + b);
        lemma_normalize_markers_append(a.drop_first(), b, strip_docs);
        assert(spec_normalize_marker(a.first(), strip_docs) + (spec_normalize_markers(
            a.drop_first(),
            strip_docs,
        ) + spec_normalize_markers(b, strip_docs)) =~= (spec_normalize_marker(
            a.first(),
            strip_docs,
        ) + spec_normalize_markers(a.drop_first(), strip_docs)) + spec_normalize_markers(
            b,
            strip_docs,
        ));
    }
}

pub proof fn lemma_normalize_markers_push(ms: Seq<MarkerView>, m: MarkerView, strip_docs: bool)
    ensures
        spec_normalize_markers(ms.push(m), strip_docs) == spec_normalize_markers(ms, strip_docs)
            + spec_normalize_marker(m, strip_docs),
{
    assert(ms.push(m) =~= ms + seq![m]);
    lemma_normalize_markers_append(ms, seq![m], strip_docs);
    lemma_normalize_markers_singleton(m, strip_docs);
}

proof fn lemma_normalize_markers_singleton(m: MarkerView, strip_docs: bool)
    ensures
        spec_normalize_markers(seq![m], strip_docs) == spec_normalize_marker(m, strip_docs),
{
    let s = seq![m];
    assert(s.len() == 1);
    assert(s.first() == m);
    assert(s.drop_first() =~= Seq::<MarkerView>::empty());
    assert(spec_normalize_markers(s, strip_docs) == spec_normalize_marker(m, strip_docs)
        + spec_normalize_markers(Seq::<MarkerView>::empty(), strip_docs));
    assert(spec_normalize_marker(m, strip_docs) + Seq::<MarkerView>::empty()
        =~= spec_normalize_marker(m, strip_docs));
}

/// Documentation already in canonical line form stays exactly as it is.
proof fn lemma_normalize_doc_lines(inner: bool, lines: Seq<Seq<char>>)
    requires
        forall|j: int| 0 <= j < lines.len() ==> !has_newline(#[trigger] lines[j]),
    ensures
        spec_normalize_markers(
            lines.map_values(|l: Seq<char>| doc_line(inner, l)),
            false,
        ) == lines.map_values(|l: Seq<char>| doc_line(inner, l)),
    decreases lines.len(),
{
    let f = |l: Seq<char>| doc_line(inner, l);
    let ms = lines.map_values(f);
    if lines.len() == 0 {
        assert(ms =~= Seq::<MarkerView>::empty());
    } else {
        assert(ms.first() == doc_line(inner, lines.first()));
        lemma_split_lines_whole(lines.first());
        assert(spec_normalize_marker(ms.first(), false) =~= seq![ms.first()]) by {
            assert(seq![lines.first()].map_values(f) =~= seq![doc_line(inner, lines.first())]);
        }
        assert(ms.drop_first() =~= lines.drop_first().map_values(f));
        lemma_normalize_doc_lines(inner, lines.drop_first());
        assert(spec_normalize_markers(ms, false) =~= ms);
    }
}

/// Normalizing one marker's output again changes nothing.
proof fn lemma_normalize_marker_stable(m: MarkerView, strip_docs: bool)
    ensures
        spec_normalize_markers(
            spec_normalize_marker(m, strip_docs),
            strip_docs,
        ) == spec_normalize_marker(m, strip_docs),
{
    match m {
        MarkerView::Doc { inner, text } => {
            if strip_docs {
                assert(spec_normalize_markers(Seq::<MarkerView>::empty(), strip_docs)
                    =~= Seq::<MarkerView>::empty());
            } else {
                lemma_split_lines_line_free(text);
                lemma_normalize_doc_lines(inner, split_lines_seq(text));
            }
        },
        _ => {
            lemma_normalize_markers_singleton(m, strip_docs);
        },
    }
}

/// A marker list whose documentation is already line-oriented — no text
/// holds a line break — is left exactly as it is by a documentation-keeping
/// pass.
pub proof fn lemma_normalize_markers_single_line(ms: Seq<MarkerView>)
    requires
        forall|i: int|
            0 <= i < ms.len() ==> ((#[trigger] ms[i]) matches MarkerView::Doc { text, .. }
                ==> !has_newline(text)),
    ensures
        spec_normalize_markers(ms, false) == ms,
    decreases ms.len(),
{
    if ms.len() > 0 {
        assert(spec_normalize_marker(ms.first(), false) == seq![ms.first()]) by {
            match ms.first() {
                MarkerView::Doc { inner, text } => {
                    assert(!has_newline(text));
                    lemma_split_lines_whole(text);
                    let f = |l: Seq<char>| doc_line(inner, l);
                    assert(seq![text].map_values(f) =~= seq![doc_line(inner, text)]);
                },
                _ => {},
            }
        }
        assert(forall|i: int|
            0 <= i < ms.drop_first().len() ==> ((#[trigger] ms.drop_first()[i]) matches
                MarkerView::Doc { text, .. } ==> !has_newline(text)));
        lemma_normalize_markers_single_line(ms.drop_first());
        assert(spec_normalize_markers(ms, false) =~= ms);
    }
}

/// Normalization is idempotent: a second pass over an already-normalized
/// marker list reproduces it exactly.
pub proof fn lemma_normalize_markers_idempotent(ms: Seq<MarkerView>, strip_docs: bool)
    ensures
        spec_normalize_markers(
            spec_normalize_markers(ms, strip_docs),
            strip_docs,
        ) == spec_normalize_markers(ms, strip_docs),
    decreases ms.len(),
{
    if ms.len() > 0 {
        lemma_normalize_markers_append(
            spec_normalize_marker(ms.first(), strip_docs),
            spec_normalize_markers(ms.drop_first(), strip_docs),
            strip_docs,
        );
        lemma_normalize_marker_stable(ms.first(), strip_docs);
        lemma_normalize_markers_idempotent(ms.drop_first(), strip_docs);
    }
}

/// Normalization neither adds nor removes test markers: a marker list flags
/// test-only code after normalization iff it did before.  Likewise for
/// derive markers.
pub proof fn lemma_normalize_markers_classification(ms: Seq<MarkerView>, strip_docs: bool)
    ensures
        spec_is_test_only(spec_normalize_markers(ms, strip_docs)) == spec_is_test_only(ms),
        spec_is_derived(spec_normalize_markers(ms, strip_docs)) == spec_is_derived(ms),
    decreases ms.len(),
{
    if ms.len() == 0 {
    } else {
        let head = spec_normalize_marker(ms.first(), strip_docs);
        let rest = spec_normalize_markers(ms.drop_first(), strip_docs);
        lemma_normalize_markers_classification(ms.drop_first(), strip_docs);
        lemma_exists_append(head, rest);
        assert(spec_is_test_only(head) == spec_is_test_marker(ms.first()) && spec_is_derived(head)
            == (ms.first() is Derive)) by {
            match ms.first() {
                MarkerView::Doc { inner, text } => {
                    assert(!spec_is_test_marker(ms.first()));
                    assert(forall|i: int|
                        0 <= i < head.len() ==> (#[trigger] head[i]) is Doc);
                },
                _ => {
                    assert(head =~= seq![ms.first()]);
                    if spec_is_test_marker(ms.first()) {
                        assert(spec_is_test_marker(head[0]));
                    }
                    if ms.first() is Derive {
                        assert(head[0] is Derive);
                    }
                },
            }
        }
        assert(spec_is_test_only(ms) == (spec_is_test_marker(ms.first()) || spec_is_test_only(
            ms.drop_first(),
        ))) by {
            lemma_exists_first(ms);
        }
        assert(spec_is_derived(ms) == ((ms.first() is Derive) || spec_is_derived(
            ms.drop_first(),
        ))) by {
            lemma_exists_first(ms);
        }
    }
}

/// Distributes the classifier's existential predicates over concatenation.
proof fn lemma_exists_append(a: Seq<MarkerView>, b: Seq<MarkerView>)
    ensures
        spec_is_test_only(a + b) == (spec_is_test_only(a) || spec_is_test_only(b)),
        spec_is_derived(a + b) == (spec_is_derived(a) || spec_is_derived(b)),
{
    let c = a + b;
    if spec_is_test_only(a) {
        let i = choose|i: int| 0 <= i < a.len() && spec_is_test_marker(#[trigger] a[i]);
        assert(spec_is_test_marker(c[i]));
    }
    if spec_is_test_only(b) {
        let i = choose|i: int| 0 <= i < b.len() && spec_is_test_marker(#[trigger] b[i]);
        assert(spec_is_test_marker(c[a.len() + i]));
    }
    if spec_is_test_only(c) {
        let i = choose|i: int| 0 <= i < c.len() && spec_is_test_marker(#[trigger] c[i]);
        if i < a.len() {
            assert(spec_is_test_marker(a[i]));
        } else {
            assert(spec_is_test_marker(b[i - a.len()]));
        }
    }
    if spec_is_derived(a) {
        let i = choose|i: int| 0 <= i < a.len() && (#[trigger] a[i]) is Derive;
        assert(c[i] is Derive);
    }
    if spec_is_derived(b) {
        let i = choose|i: int| 0 <= i < b.len() && (#[trigger] b[i]) is Derive;
        assert(c[a.len() + i] is Derive);
    }
    if spec_is_derived(c) {
        let i = choose|i: int| 0 <= i < c.len() && (#[trigger] c[i]) is Derive;
        if i < a.len() {
            assert(a[i] is Derive);
        } else {
            assert(b[i - a.len()] is Derive);
        }
    }
}

/// Splits off the head of the classifier's existential predicates.
proof fn lemma_exists_first(ms: Seq<MarkerView>)
    requires
        ms.len() > 0,
    ensures
        spec_is_test_only(ms) == (spec_is_test_marker(ms.first()) || spec_is_test_only(
            ms.drop_first(),
        )),
        spec_is_derived(ms) == ((ms.first() is Derive) || spec_is_derived(ms.drop_first())),
{
    assert(ms =~= seq![ms.first()] + ms.drop_first());
    lemma_exists_append(seq![ms.first()], ms.drop_first());
    if spec_is_test_only(seq![ms.first()]) {
        let i = choose|i: int|
            0 <= i < 1 && spec_is_test_marker(#[trigger] seq![ms.first()][i]);
        assert(i == 0);
    }
    if spec_is_test_marker(ms.first()) {
        assert(spec_is_test_marker(seq![ms.first()][0]));
    }
    if spec_is_derived(seq![ms.first()]) {
        let i = choose|i: int| 0 <= i < 1 && (#[trigger] seq![ms.first()][i]) is Derive;
        assert(i == 0);
    }
    if ms.first() is Derive {
        assert(seq![ms.first()][0] is Derive);
    }
}

/// Copies a marker; the copy has the same view.
pub fn clone_marker(m: &Marker) -> (r: Marker)
    ensures
        marker_view(r) == marker_view(*m),
{
    match m {
        Marker::Doc { inner, text } => Marker::Doc { inner: *inner, text: text.clone() },
        Marker::Derive { traits } => Marker::Derive {
            traits: crate::tree::clone_strings(traits),
        },
        Marker::Cfg { predicate } => Marker::Cfg { predicate: predicate.clone() },
        Marker::Test => Marker::Test,
        Marker::Other { text } => Marker::Other { text: text.clone() },
    }
}

/// Normalizes or strips a marker list per the strip-documentation policy.
pub fn normalize_markers(markers: &Vec<Marker>, strip_docs: bool) -> (r: Vec<Marker>)
    ensures
        markers_view(r@) == spec_normalize_markers(markers_view(markers@), strip_docs),
{
    let mut r: Vec<Marker> = Vec::new();
    let n = markers.len();
    let mut i: usize = 0;
    proof {
        assert(markers_view(markers@).take(0) =~= Seq::<MarkerView>::empty());
        assert(markers_view(r@) =~= Seq::<MarkerView>::empty());
        assert(spec_normalize_markers(Seq::<MarkerView>::empty(), strip_docs)
            =~= Seq::<MarkerView>::empty());
    }
    while i < n
        invariant
            n == markers@.len(),
            i <= n,
            markers_view(r@) == spec_normalize_markers(
                markers_view(markers@).take(i as int),
                strip_docs,
            ),
        decreases n - i,
    {
        let ghost processed = markers_view(markers@).take(i as int);
        let ghost current = marker_view(markers@[i as int]);
        proof {
            assert(markers_view(markers@).take(i + 1) =~= processed.push(current));
            lemma_normalize_markers_push(processed, current, strip_docs);
        }
        match &markers[i] {
            Marker::Doc { inner, text } => {
                if !strip_docs {
                    let lines = split_lines(text.as_str());
                    let ghost line_views = split_lines_seq(text@);
                    let m = lines.len();
                    let mut j: usize = 0;
                    proof {
                        assert(markers_view(r@) + line_views.take(0).map_values(
                            |l: Seq<char>| doc_line(*inner, l),
                        ) =~= markers_view(r@));
                    }
                    let ghost base = markers_view(r@);
                    while j < m
                        invariant
                            m == lines@.len(),
                            j <= m,
                            lines.deep_view() == line_views,
                            markers_view(r@) == base + line_views.take(j as int).map_values(
                                |l: Seq<char>| doc_line(*inner, l),
                            ),
                        decreases m - j,
                    {
                        let ghost before = markers_view(r@);
                        r.push(Marker::Doc { inner: *inner, text: lines[j].clone() });
                        proof {
                            assert(lines@[j as int]@ == line_views[j as int]);
                            assert(markers_view(r@) =~= before.push(
                                doc_line(*inner, line_views[j as int]),
                            ));
                            assert(line_views.take(j + 1).map_values(
                                |l: Seq<char>| doc_line(*inner, l),
                            ) =~= line_views.take(j as int).map_values(
                                |l: Seq<char>| doc_line(*inner, l),
                            ).push(doc_line(*inner, line_views[j as int])));
                            assert(markers_view(r@) =~= base + line_views.take(j + 1).map_values(
                                |l: Seq<char>| doc_line(*inner, l),
                            ));
                        }
                        j += 1;
                    }
                    proof {
                        assert(line_views.take(m as int) =~= line_views);
                        assert(markers_view(r@) =~= spec_normalize_markers(
                            markers_view(markers@).take(i + 1),
                            strip_docs,
                        ));
                    }
                }
            },
            _ => {
                let ghost before = markers_view(r@);
                r.push(clone_marker(&markers[i]));
                proof {
                    assert(markers_view(r@) =~= before.push(current));
                    assert(spec_normalize_marker(current, strip_docs) =~= seq![current]);
                    assert(before + seq![current] =~= before.push(current));
                }
            },
        }
        proof {
            assert(markers_view(r@) =~= spec_normalize_markers(
                markers_view(markers@).take(i + 1),
                strip_docs,
            ));
        }
        i += 1;
    }
    proof {
        assert(markers_view(markers@).take(n as int) =~= markers_view(markers@));
    }
    r
}

} // verus!
