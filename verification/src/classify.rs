//! The attribute classifier: pure predicates over a declaration's metadata
//! markers.  Test detection is a deliberately coarse textual containment
//! check on conditional-compilation predicates, kept behind these named
//! predicates.

use vstd::prelude::*;

use crate::text::{contains_seq, str_contains};
use crate::tree::{marker_view, markers_view, Declaration, Marker, MarkerView};

verus! {

/// The marker is documentation (item-level or module/crate-level).
pub open spec fn spec_is_documentation(m: MarkerView) -> bool {
    m is Doc
}

/// The marker flags test-only code: either a test marker, or a
/// conditional-compilation marker whose predicate text contains `test`.
pub open spec fn spec_is_test_marker(m: MarkerView) -> bool {
    ||| m is Test
    ||| (m matches MarkerView::Cfg { predicate } && contains_seq(predicate, "test"@))
}

/// Some marker in the list flags test-only code.
pub open spec fn spec_is_test_only(markers: Seq<MarkerView>) -> bool {
    exists|i: int| 0 <= i < markers.len() && spec_is_test_marker(#[trigger] markers[i])
}

/// Some marker in the list is a derive marker.
pub open spec fn spec_is_derived(markers: Seq<MarkerView>) -> bool {
    exists|i: int| 0 <= i < markers.len() && (#[trigger] markers[i]) is Derive
}

/// The implemented trait's textual form contains the given substring.
pub open spec fn spec_implements_trait_named(
    trait_name: Option<Seq<char>>,
    name_substring: Seq<char>,
) -> bool {
    trait_name matches Option::Some(t) && contains_seq(t, name_substring)
}

pub fn is_documentation(m: &Marker) -> (b: bool)
    ensures
        b == spec_is_documentation(marker_view(*m)),
{
    match m {
        Marker::Doc { .. } => true,
        _ => false,
    }
}

fn is_test_marker(m: &Marker) -> (b: bool)
    ensures
        b == spec_is_test_marker(marker_view(*m)),
{
    match m {
        Marker::Test => true,
        Marker::Cfg { predicate } => str_contains(predicate.as_str(), "test"),
        _ => false,
    }
}

/// The declaration is test-only: it carries a test marker or a
/// conditional-compilation marker whose predicate mentions `test`.
pub fn is_test_only(d: &Declaration) -> (b: bool)
    ensures
        b == spec_is_test_only(d.spec_markers()),
{
    let markers = d.markers();
    let n = markers.len();
    let mut i: usize = 0;
    while i < n
        invariant
            n == markers@.len(),
            i <= n,
            markers_view(markers@) == d.spec_markers(),
            forall|k: int|
                0 <= k < i ==> !spec_is_test_marker(#[trigger] markers_view(markers@)[k]),
        decreases n - i,
    {
        if is_test_marker(&markers[i]) {
            assert(spec_is_test_marker(markers_view(markers@)[i as int]));
            return true;
        }
        i += 1;
    }
    false
}

/// The marker list carries a derive marker.
pub fn markers_derived(markers: &Vec<Marker>) -> (b: bool)
    ensures
        b == spec_is_derived(markers_view(markers@)),
{
    let n = markers.len();
    let mut i: usize = 0;
    while i < n
        invariant
            n == markers@.len(),
            i <= n,
            forall|k: int| 0 <= k < i ==> !((#[trigger] markers_view(markers@)[k]) is Derive),
        decreases n - i,
    {
        match &markers[i] {
            Marker::Derive { .. } => {
                assert((markers_view(markers@)[i as int]) is Derive);
                return true;
            },
            _ => {},
        }
        i += 1;
    }
    false
}

/// The declaration carries a derive marker.
pub fn is_derived(d: &Declaration) -> (b: bool)
    ensures
        b == spec_is_derived(d.spec_markers()),
{
    markers_derived(d.markers())
}

/// The implementation block implements a trait whose textual form contains
/// the given substring.
pub fn implements_trait_named(trait_name: &Option<String>, name_substring: &str) -> (b: bool)
    ensures
        b == spec_implements_trait_named(
            crate::tree::opt_string_view(*trait_name),
            name_substring@,
        ),
{
    match trait_name {
        Option::Some(t) => str_contains(t.as_str(), name_substring),
        Option::None => false,
    }
}

} // verus!
