//! What the colour operators of a document's content streams reveal, and which
//! colour remapping applies to a CMYK colour operation.

use vstd::prelude::*;

use lopdf::Document;

use crate::pdf::{decoded_operators, document_pages, page_ids, page_operators};
use crate::text::str_eq;

verus! {

/// The colour make-up of a document's content.
pub enum ColorSpaceKind {
    PureCMYK,
    PureRGB,
    Mixed,
    Unknown,
}

/// `k` or `K`: sets a CMYK fill or stroke colour.
pub open spec fn is_cmyk_operator(op: Seq<char>) -> bool {
    op == "k"@ || op == "K"@
}

/// `rg` or `RG`: sets an RGB fill or stroke colour.
pub open spec fn is_rgb_operator(op: Seq<char>) -> bool {
    op == "rg"@ || op == "RG"@
}

/// The names of a page's operators.
pub open spec fn operator_names(ops: Seq<String>) -> Seq<Seq<char>> {
    ops.map_values(|s: String| s@)
}

/// The operator names of each page, `None` for a page that could not be decoded.
pub open spec fn page_views(pages: Seq<Option<Vec<String>>>) -> Seq<Option<Seq<Seq<char>>>> {
    pages.map_values(|p: Option<Vec<String>>|
        match p {
            Some(ops) => Some(operator_names(ops@)),
            None => None,
        })
}

proof fn lemma_operator_classes_disjoint(op: Seq<char>)
    ensures
        is_cmyk_operator(op) ==> !is_rgb_operator(op),
{
    reveal_strlit("k");
    reveal_strlit("K");
    reveal_strlit("rg");
    reveal_strlit("RG");
    assert("k"@.len() == 1 && "K"@.len() == 1 && "rg"@.len() == 2 && "RG"@.len() == 2);
}

/// Some decodable page holds a CMYK colour operator.
pub open spec fn uses_cmyk(pages: Seq<Option<Seq<Seq<char>>>>) -> bool {
    exists|i: int, j: int|
        0 <= i < pages.len() && pages[i] is Some && 0 <= j < pages[i]->0.len()
            && #[trigger] is_cmyk_operator(pages[i]->0[j])
}

/// Some decodable page holds an RGB colour operator.
pub open spec fn uses_rgb(pages: Seq<Option<Seq<Seq<char>>>>) -> bool {
    exists|i: int, j: int|
        0 <= i < pages.len() && pages[i] is Some && 0 <= j < pages[i]->0.len()
            && #[trigger] is_rgb_operator(pages[i]->0[j])
}

/// The colour make-up of pages whose operators are `pages` (`None` for a page
/// that could not be decoded, which is skipped).
pub open spec fn color_kind(pages: Seq<Option<Seq<Seq<char>>>>) -> ColorSpaceKind {
    if uses_cmyk(pages) && uses_rgb(pages) {
        ColorSpaceKind::Mixed
    } else if uses_cmyk(pages) {
        ColorSpaceKind::PureCMYK
    } else if uses_rgb(pages) {
        ColorSpaceKind::PureRGB
    } else {
        ColorSpaceKind::Unknown
    }
}

/// The operators of each page of `doc`, in page order.
pub open spec fn document_operators(doc: Document) -> Seq<Option<Seq<Seq<char>>>> {
    document_pages(doc).map_values(|p: (u32, u16)| page_operators(doc, p))
}

fn is_cmyk_op(op: &str) -> (b: bool)
    ensures
        b == is_cmyk_operator(op@),
{
    str_eq(op, "k") || str_eq(op, "K")
}

fn is_rgb_op(op: &str) -> (b: bool)
    ensures
        b == is_rgb_operator(op@),
{
    str_eq(op, "rg") || str_eq(op, "RG")
}

/// Folds the operators of one page into the two flags; stops early once both hold.
fn scan_page(
    pages: Ghost<Seq<Option<Seq<Seq<char>>>>>,
    idx: Ghost<int>,
    ops: &Vec<String>,
    has_cmyk: &mut bool,
    has_rgb: &mut bool,
)
    requires
        0 <= idx@ < pages@.len(),
        pages@[idx@] == Some(operator_names(ops@)),
        *old(has_cmyk) ==> uses_cmyk(pages@),
        *old(has_rgb) ==> uses_rgb(pages@),
    ensures
        *final(has_cmyk) ==> uses_cmyk(pages@),
        *final(has_rgb) ==> uses_rgb(pages@),
        *old(has_cmyk) ==> *final(has_cmyk),
        *old(has_rgb) ==> *final(has_rgb),
        !(*final(has_cmyk) && *final(has_rgb)) ==> {
            &&& (forall|j: int| 0 <= j < ops@.len() && is_cmyk_operator(#[trigger] ops@[j]@) ==> *final(has_cmyk))
            &&& (forall|j: int| 0 <= j < ops@.len() && is_rgb_operator(#[trigger] ops@[j]@) ==> *final(has_rgb))
        },
{
    let ghost names = operator_names(ops@);
    let n = ops.len();
    let mut j: usize = 0;
    while j < n
        invariant
            n == ops@.len(),
            j <= n,
            0 <= idx@ < pages@.len(),
            pages@[idx@] == Some(names),
            names == operator_names(ops@),
            *has_cmyk ==> uses_cmyk(pages@),
            *has_rgb ==> uses_rgb(pages@),
            *old(has_cmyk) ==> *has_cmyk,
            *old(has_rgb) ==> *has_rgb,
            forall|k: int| 0 <= k < j && is_cmyk_operator(#[trigger] ops@[k]@) ==> *has_cmyk,
            forall|k: int| 0 <= k < j && is_rgb_operator(#[trigger] ops@[k]@) ==> *has_rgb,
        decreases n - j,
    {
        let op = ops[j].as_str();
        proof { lemma_operator_classes_disjoint(op@); }
        if is_cmyk_op(op) {
            *has_cmyk = true;
            assert(names[j as int] == ops@[j as int]@);
            assert(is_cmyk_operator(pages@[idx@]->0[j as int]));
        } else if is_rgb_op(op) {
            *has_rgb = true;
            assert(names[j as int] == ops@[j as int]@);
            assert(is_rgb_operator(pages@[idx@]->0[j as int]));
        }
        if *has_cmyk && *has_rgb {
            return;
        }
        j = j + 1;
    }
}

/// After the first `i` pages of `all` were scanned: each flag is set only for an
/// operator class that `all` uses, not both are set, and every colour operator on
/// the scanned pages has set its flag.
spec fn scanned(all: Seq<Option<Seq<Seq<char>>>>, i: int, has_cmyk: bool, has_rgb: bool) -> bool {
    &&& has_cmyk ==> uses_cmyk(all)
    &&& has_rgb ==> uses_rgb(all)
    &&& !(has_cmyk && has_rgb)
    &&& forall|k: int, j: int| 0 <= k < i && all[k] is Some && 0 <= j < all[k]->0.len()
        && #[trigger] is_cmyk_operator(all[k]->0[j]) ==> has_cmyk
    &&& forall|k: int, j: int| 0 <= k < i && all[k] is Some && 0 <= j < all[k]->0.len()
        && #[trigger] is_rgb_operator(all[k]->0[j]) ==> has_rgb
}

/// The make-up once every page of `all` was scanned without finding both classes.
fn kind_from_flags(all: Ghost<Seq<Option<Seq<Seq<char>>>>>, has_cmyk: bool, has_rgb: bool) -> (kind: ColorSpaceKind)
    requires
        scanned(all@, all@.len() as int, has_cmyk, has_rgb),
    ensures
        kind == color_kind(all@),
{
    if has_cmyk && !has_rgb {
        ColorSpaceKind::PureCMYK
    } else if !has_cmyk && has_rgb {
        ColorSpaceKind::PureRGB
    } else {
        ColorSpaceKind::Unknown
    }
}

/// The colour make-up of pages whose decoded operators are `pages`; a page that
/// could not be decoded (`None`) is skipped.
pub fn classify_operator_lists(pages: &Vec<Option<Vec<String>>>) -> (kind: ColorSpaceKind)
    ensures
        kind == color_kind(page_views(pages@)),
{
    let ghost all = page_views(pages@);
    let mut has_cmyk = false;
    let mut has_rgb = false;
    let n = pages.len();
    let mut i: usize = 0;
    while i < n
        invariant
            n == pages@.len(),
            all == page_views(pages@),
            all.len() == n,
            i <= n,
            forall|k: int| 0 <= k < n ==> #[trigger] all[k] == match pages@[k] {
                Some(ops) => Some(operator_names(ops@)),
                None => None,
            },
            scanned(all, i as int, has_cmyk, has_rgb),
        decreases n - i,
    {
        match &pages[i] {
            Some(ops) => {
                assert(all[i as int] == Some(operator_names(ops@)));
                scan_page(Ghost(all), Ghost(i as int), ops, &mut has_cmyk, &mut has_rgb);
                if has_cmyk && has_rgb {
                    return ColorSpaceKind::Mixed;
                }
            }
            None => {}
        }
        i = i + 1;
    }
    kind_from_flags(Ghost(all), has_cmyk, has_rgb)
}

/// The colour make-up of `doc`'s content: which of the CMYK (`k`, `K`) and RGB
/// (`rg`, `RG`) colour operators its pages use. Pages whose content cannot be
/// decoded are skipped; the scan stops at the first page that shows both.
pub fn detect_color_space(doc: &Document) -> (kind: ColorSpaceKind)
    ensures
        kind == color_kind(document_operators(*doc)),
{
    let ids = page_ids(doc);
    let ghost all = document_operators(*doc);
    let mut has_cmyk = false;
    let mut has_rgb = false;
    let n = ids.len();
    let mut i: usize = 0;
    while i < n
        invariant
            n == ids@.len(),
            ids@ == document_pages(*doc),
            all == document_operators(*doc),
            all.len() == n,
            i <= n,
            scanned(all, i as int, has_cmyk, has_rgb),
        decreases n - i,
    {
        assert(all[i as int] == page_operators(*doc, ids@[i as int]));
        match decoded_operators(doc, ids[i]) {
            Some(ops) => {
                scan_page(Ghost(all), Ghost(i as int), &ops, &mut has_cmyk, &mut has_rgb);
                if has_cmyk && has_rgb {
                    return ColorSpaceKind::Mixed;
                }
            }
            None => {}
        }
        i = i + 1;
    }
    kind_from_flags(Ghost(all), has_cmyk, has_rgb)
}

/// The operators found on two runs of pages together are those found on either.
pub proof fn lemma_uses_concat(a: Seq<Option<Seq<Seq<char>>>>, b: Seq<Option<Seq<Seq<char>>>>)
    ensures
        uses_cmyk(a + b) == (uses_cmyk(a) || uses_cmyk(b)),
        uses_rgb(a + b) == (uses_rgb(a) || uses_rgb(b)),
{
    let ab = a + b;
    if uses_cmyk(ab) {
        let (i, j) = choose|i: int, j: int|
            0 <= i < ab.len() && ab[i] is Some && 0 <= j < ab[i]->0.len() && #[trigger] is_cmyk_operator(ab[i]->0[j]);
        if i < a.len() {
            assert(is_cmyk_operator(a[i]->0[j]));
        } else {
            assert(is_cmyk_operator(b[i - a.len()]->0[j]));
        }
    }
    if uses_cmyk(a) {
        let (i, j) = choose|i: int, j: int|
            0 <= i < a.len() && a[i] is Some && 0 <= j < a[i]->0.len() && #[trigger] is_cmyk_operator(a[i]->0[j]);
        assert(is_cmyk_operator(ab[i]->0[j]));
    }
    if uses_cmyk(b) {
        let (i, j) = choose|i: int, j: int|
            0 <= i < b.len() && b[i] is Some && 0 <= j < b[i]->0.len() && #[trigger] is_cmyk_operator(b[i]->0[j]);
        assert(is_cmyk_operator(ab[i + a.len()]->0[j]));
    }
    if uses_rgb(ab) {
        let (i, j) = choose|i: int, j: int|
            0 <= i < ab.len() && ab[i] is Some && 0 <= j < ab[i]->0.len() && #[trigger] is_rgb_operator(ab[i]->0[j]);
        if i < a.len() {
            assert(is_rgb_operator(a[i]->0[j]));
        } else {
            assert(is_rgb_operator(b[i - a.len()]->0[j]));
        }
    }
    if uses_rgb(a) {
        let (i, j) = choose|i: int, j: int|
            0 <= i < a.len() && a[i] is Some && 0 <= j < a[i]->0.len() && #[trigger] is_rgb_operator(a[i]->0[j]);
        assert(is_rgb_operator(ab[i]->0[j]));
    }
    if uses_rgb(b) {
        let (i, j) = choose|i: int, j: int|
            0 <= i < b.len() && b[i] is Some && 0 <= j < b[i]->0.len() && #[trigger] is_rgb_operator(b[i]->0[j]);
        assert(is_rgb_operator(ab[i + a.len()]->0[j]));
    }
}

/// The colour make-up of a document does not depend on the order of its pages:
/// two runs of pages give the same make-up in either order.
pub proof fn law_color_kind_order_free(a: Seq<Option<Seq<Seq<char>>>>, b: Seq<Option<Seq<Seq<char>>>>)
    ensures
        color_kind(a + b) == color_kind(b + a),
{
    lemma_uses_concat(a, b);
    lemma_uses_concat(b, a);
}

/// Operator `op` stands somewhere on a decodable page of `pages`.
pub open spec fn occurs(pages: Seq<Option<Seq<Seq<char>>>>, op: Seq<char>) -> bool {
    exists|i: int, j: int|
        0 <= i < pages.len() && pages[i] is Some && 0 <= j < pages[i]->0.len()
            && #[trigger] pages[i]->0[j] == op
}

/// Every colour operator (`k`, `K`, `rg`, `RG`) found in `a` is also found in `b`.
pub open spec fn colour_operators_within(
    a: Seq<Option<Seq<Seq<char>>>>,
    b: Seq<Option<Seq<Seq<char>>>>,
) -> bool {
    forall|op: Seq<char>|
        (is_cmyk_operator(op) || is_rgb_operator(op)) && #[trigger] occurs(a, op) ==> occurs(b, op)
}

proof fn lemma_uses_transfer(a: Seq<Option<Seq<Seq<char>>>>, b: Seq<Option<Seq<Seq<char>>>>)
    requires
        colour_operators_within(a, b),
    ensures
        uses_cmyk(a) ==> uses_cmyk(b),
        uses_rgb(a) ==> uses_rgb(b),
{
    if uses_cmyk(a) {
        let (i, j) = choose|i: int, j: int|
            0 <= i < a.len() && a[i] is Some && 0 <= j < a[i]->0.len() && #[trigger] is_cmyk_operator(a[i]->0[j]);
        let op = a[i]->0[j];
        assert(occurs(a, op));
        let (k, l) = choose|k: int, l: int|
            0 <= k < b.len() && b[k] is Some && 0 <= l < b[k]->0.len() && #[trigger] b[k]->0[l] == op;
        assert(is_cmyk_operator(b[k]->0[l]));
    }
    if uses_rgb(a) {
        let (i, j) = choose|i: int, j: int|
            0 <= i < a.len() && a[i] is Some && 0 <= j < a[i]->0.len() && #[trigger] is_rgb_operator(a[i]->0[j]);
        let op = a[i]->0[j];
        assert(occurs(a, op));
        let (k, l) = choose|k: int, l: int|
            0 <= k < b.len() && b[k] is Some && 0 <= l < b[k]->0.len() && #[trigger] b[k]->0[l] == op;
        assert(is_rgb_operator(b[k]->0[l]));
    }
}

/// The colour make-up depends only on which colour operators occur on decodable
/// pages: two page lists with the same colour operators have the same make-up,
/// whatever the order of pages and operators, the other operators and the pages
/// that cannot be decoded. As `detect_color_space` answers `color_kind` of a
/// document's page operators, two documents whose pages carry the same colour
/// operators are detected alike.
pub proof fn law_color_kind_by_colour_operators(a: Seq<Option<Seq<Seq<char>>>>, b: Seq<Option<Seq<Seq<char>>>>)
    requires
        colour_operators_within(a, b),
        colour_operators_within(b, a),
    ensures
        color_kind(a) == color_kind(b),
{
    lemma_uses_transfer(a, b);
    lemma_uses_transfer(b, a);
}

/// Pages that all stand in `b` (in any order, any number of times) bring no
/// colour operator that `b` lacks.
proof fn lemma_pages_within(a: Seq<Option<Seq<Seq<char>>>>, b: Seq<Option<Seq<Seq<char>>>>)
    requires
        forall|i: int| 0 <= i < a.len() ==> b.contains(#[trigger] a[i]),
    ensures
        colour_operators_within(a, b),
{
    assert forall|op: Seq<char>|
        (is_cmyk_operator(op) || is_rgb_operator(op)) && #[trigger] occurs(a, op) implies occurs(b, op) by {
        let (i, j) = choose|i: int, j: int|
            0 <= i < a.len() && a[i] is Some && 0 <= j < a[i]->0.len() && #[trigger] a[i]->0[j] == op;
        assert(b.contains(a[i]));
        let k = choose|k: int| 0 <= k < b.len() && b[k] == a[i];
        assert(b[k]->0[j] == op);
    }
}

/// Reordering the pages of a document does not change its colour make-up.
pub proof fn law_color_kind_page_order_free(a: Seq<Option<Seq<Seq<char>>>>, b: Seq<Option<Seq<Seq<char>>>>)
    requires
        a.to_multiset() =~= b.to_multiset(),
    ensures
        color_kind(a) == color_kind(b),
{
    a.to_multiset_ensures();
    b.to_multiset_ensures();
    assert forall|i: int| 0 <= i < a.len() implies b.contains(#[trigger] a[i]) by {
        assert(a.contains(a[i]));
        assert(a.to_multiset().count(a[i]) > 0);
    }
    assert forall|i: int| 0 <= i < b.len() implies a.contains(#[trigger] b[i]) by {
        assert(b.contains(b[i]));
        assert(b.to_multiset().count(b[i]) > 0);
    }
    lemma_pages_within(a, b);
    lemma_pages_within(b, a);
    law_color_kind_by_colour_operators(a, b);
}

/// Reordering the operators of one page does not change the colour make-up.
pub proof fn law_color_kind_operator_order_free(
    pages: Seq<Option<Seq<Seq<char>>>>,
    i: int,
    reordered: Seq<Seq<char>>,
)
    requires
        0 <= i < pages.len(),
        pages[i] is Some,
        reordered.to_multiset() =~= pages[i]->0.to_multiset(),
    ensures
        color_kind(pages.update(i, Some(reordered))) == color_kind(pages),
{
    let ops = pages[i]->0;
    let after = pages.update(i, Some(reordered));
    ops.to_multiset_ensures();
    reordered.to_multiset_ensures();
    assert forall|op: Seq<char>|
        (is_cmyk_operator(op) || is_rgb_operator(op)) && #[trigger] occurs(pages, op) implies occurs(after, op) by {
        let (k, j) = choose|k: int, j: int|
            0 <= k < pages.len() && pages[k] is Some && 0 <= j < pages[k]->0.len() && #[trigger] pages[k]->0[j] == op;
        if k == i {
            assert(ops.contains(op));
            assert(ops.to_multiset().count(op) > 0);
            assert(reordered.contains(op));
            let l = choose|l: int| 0 <= l < reordered.len() && reordered[l] == op;
            assert(after[i]->0[l] == op);
        } else {
            assert(after[k]->0[j] == op);
        }
    }
    assert forall|op: Seq<char>|
        (is_cmyk_operator(op) || is_rgb_operator(op)) && #[trigger] occurs(after, op) implies occurs(pages, op) by {
        let (k, j) = choose|k: int, j: int|
            0 <= k < after.len() && after[k] is Some && 0 <= j < after[k]->0.len() && #[trigger] after[k]->0[j] == op;
        if k == i {
            assert(reordered.contains(op));
            assert(reordered.to_multiset().count(op) > 0);
            assert(ops.contains(op));
            let l = choose|l: int| 0 <= l < ops.len() && ops[l] == op;
            assert(pages[i]->0[l] == op);
        } else {
            assert(pages[k]->0[j] == op);
        }
    }
    law_color_kind_by_colour_operators(after, pages);
}

/// An operator other than `k`, `K`, `rg` and `RG`, added anywhere on a decodable
/// page, does not change the colour make-up.
pub proof fn law_other_operator_ignored(
    pages: Seq<Option<Seq<Seq<char>>>>,
    i: int,
    at: int,
    op: Seq<char>,
)
    requires
        0 <= i < pages.len(),
        pages[i] is Some,
        0 <= at <= pages[i]->0.len(),
        !is_cmyk_operator(op),
        !is_rgb_operator(op),
    ensures
        color_kind(pages.update(i, Some(pages[i]->0.insert(at, op)))) == color_kind(pages),
{
    let ops = pages[i]->0;
    let longer = ops.insert(at, op);
    let after = pages.update(i, Some(longer));
    assert forall|o: Seq<char>|
        (is_cmyk_operator(o) || is_rgb_operator(o)) && #[trigger] occurs(pages, o) implies occurs(after, o) by {
        let (k, j) = choose|k: int, j: int|
            0 <= k < pages.len() && pages[k] is Some && 0 <= j < pages[k]->0.len() && #[trigger] pages[k]->0[j] == o;
        if k == i {
            if j < at {
                assert(after[i]->0[j] == o);
            } else {
                assert(after[i]->0[j + 1] == o);
            }
        } else {
            assert(after[k]->0[j] == o);
        }
    }
    assert forall|o: Seq<char>|
        (is_cmyk_operator(o) || is_rgb_operator(o)) && #[trigger] occurs(after, o) implies occurs(pages, o) by {
        let (k, j) = choose|k: int, j: int|
            0 <= k < after.len() && after[k] is Some && 0 <= j < after[k]->0.len() && #[trigger] after[k]->0[j] == o;
        if k == i {
            if j < at {
                assert(pages[i]->0[j] == o);
            } else if j == at {
                assert(longer[j] == op);
            } else {
                assert(pages[i]->0[j - 1] == o);
            }
        } else {
            assert(pages[k]->0[j] == o);
        }
    }
    law_color_kind_by_colour_operators(after, pages);
}

/// A page whose content cannot be decoded, added anywhere, does not change the
/// colour make-up.
pub proof fn law_undecodable_page_ignored(pages: Seq<Option<Seq<Seq<char>>>>, at: int)
    requires
        0 <= at <= pages.len(),
    ensures
        color_kind(pages.insert(at, None)) == color_kind(pages),
{
    let after = pages.insert(at, None);
    assert forall|i: int| 0 <= i < pages.len() implies after.contains(#[trigger] pages[i]) by {
        if i < at {
            assert(after[i] == pages[i]);
        } else {
            assert(after[i + 1] == pages[i]);
        }
    }
    lemma_pages_within(pages, after);
    assert forall|op: Seq<char>|
        (is_cmyk_operator(op) || is_rgb_operator(op)) && #[trigger] occurs(after, op) implies occurs(pages, op) by {
        let (k, j) = choose|k: int, j: int|
            0 <= k < after.len() && after[k] is Some && 0 <= j < after[k]->0.len() && #[trigger] after[k]->0[j] == op;
        if k < at {
            assert(pages[k]->0[j] == op);
        } else {
            assert(k != at);
            assert(pages[k - 1]->0[j] == op);
        }
    }
    law_color_kind_by_colour_operators(after, pages);
}

/// Adding pages never undoes a mixed make-up: when every page of `a` also stands
/// in `b`, and `a` is mixed, so is `b`.
pub proof fn law_mixed_survives_added_pages(a: Seq<Option<Seq<Seq<char>>>>, b: Seq<Option<Seq<Seq<char>>>>)
    requires
        forall|i: int| 0 <= i < a.len() ==> b.contains(#[trigger] a[i]),
        color_kind(a) == ColorSpaceKind::Mixed,
    ensures
        color_kind(b) == ColorSpaceKind::Mixed,
{
    lemma_pages_within(a, b);
    lemma_uses_transfer(a, b);
}

/// A document counts as purely CMYK exactly when some page sets a CMYK colour
/// and no page sets an RGB colour.
pub proof fn law_pure_cmyk_means_no_rgb(pages: Seq<Option<Seq<Seq<char>>>>)
    ensures
        (color_kind(pages) == ColorSpaceKind::PureCMYK) == (uses_cmyk(pages) && !uses_rgb(pages)),
{
}

/// Only the operator names `k` and `K` mark CMYK use, and only `rg` and `RG`
/// mark RGB use: the make-up is decided by which of these four names occur on
/// decodable pages, and every other operator (`g`, `G`, `cs`, `scn`, ...) is
/// ignored.
pub proof fn law_color_kind_by_operator_names(pages: Seq<Option<Seq<Seq<char>>>>)
    ensures
        ({
            let cmyk = occurs(pages, "k"@) || occurs(pages, "K"@);
            let rgb = occurs(pages, "rg"@) || occurs(pages, "RG"@);
            color_kind(pages) == if cmyk && rgb {
                ColorSpaceKind::Mixed
            } else if cmyk {
                ColorSpaceKind::PureCMYK
            } else if rgb {
                ColorSpaceKind::PureRGB
            } else {
                ColorSpaceKind::Unknown
            }
        }),
{
    if uses_cmyk(pages) {
        let (i, j) = choose|i: int, j: int|
            0 <= i < pages.len() && pages[i] is Some && 0 <= j < pages[i]->0.len()
                && #[trigger] is_cmyk_operator(pages[i]->0[j]);
        assert(pages[i]->0[j] == "k"@ || pages[i]->0[j] == "K"@);
    }
    if occurs(pages, "k"@) {
        let (i, j) = choose|i: int, j: int|
            0 <= i < pages.len() && pages[i] is Some && 0 <= j < pages[i]->0.len()
                && #[trigger] pages[i]->0[j] == "k"@;
        assert(is_cmyk_operator(pages[i]->0[j]));
    }
    if occurs(pages, "K"@) {
        let (i, j) = choose|i: int, j: int|
            0 <= i < pages.len() && pages[i] is Some && 0 <= j < pages[i]->0.len()
                && #[trigger] pages[i]->0[j] == "K"@;
        assert(is_cmyk_operator(pages[i]->0[j]));
    }
    if uses_rgb(pages) {
        let (i, j) = choose|i: int, j: int|
            0 <= i < pages.len() && pages[i] is Some && 0 <= j < pages[i]->0.len()
                && #[trigger] is_rgb_operator(pages[i]->0[j]);
        assert(pages[i]->0[j] == "rg"@ || pages[i]->0[j] == "RG"@);
    }
    if occurs(pages, "rg"@) {
        let (i, j) = choose|i: int, j: int|
            0 <= i < pages.len() && pages[i] is Some && 0 <= j < pages[i]->0.len()
                && #[trigger] pages[i]->0[j] == "rg"@;
        assert(is_rgb_operator(pages[i]->0[j]));
    }
    if occurs(pages, "RG"@) {
        let (i, j) = choose|i: int, j: int|
            0 <= i < pages.len() && pages[i] is Some && 0 <= j < pages[i]->0.len()
                && #[trigger] pages[i]->0[j] == "RG"@;
        assert(is_rgb_operator(pages[i]->0[j]));
    }
}

/// Pages none of whose operators is named `k`, `K`, `rg` or `RG` (say only
/// `g`, `G`, `q` and `Q`) have an unknown make-up.
pub proof fn law_no_colour_operator_is_unknown(pages: Seq<Option<Seq<Seq<char>>>>)
    requires
        forall|i: int, j: int| 0 <= i < pages.len() && pages[i] is Some && 0 <= j < pages[i]->0.len() ==> {
            let op = #[trigger] pages[i]->0[j];
            op != "k"@ && op != "K"@ && op != "rg"@ && op != "RG"@
        },
    ensures
        color_kind(pages) == ColorSpaceKind::Unknown,
{
    law_color_kind_by_operator_names(pages);
}

/// Pages with `rg` or `RG` and no `k` or `K` (say grey `g` with RGB `rg`) are
/// purely RGB.
pub proof fn law_rgb_without_k_is_pure_rgb(pages: Seq<Option<Seq<Seq<char>>>>)
    requires
        occurs(pages, "rg"@) || occurs(pages, "RG"@),
        !occurs(pages, "k"@),
        !occurs(pages, "K"@),
    ensures
        color_kind(pages) == ColorSpaceKind::PureRGB,
{
    law_color_kind_by_operator_names(pages);
}

/// A colour operation that remapping may rewrite: `k` or `K` with four operands.
pub open spec fn is_remappable(op: Seq<char>, operand_count: nat) -> bool {
    is_cmyk_operator(op) && operand_count == 4
}

/// The index of the first `true` in `s`, if any.
pub open spec fn first_match(s: Seq<bool>) -> Option<int> {
    if exists|j: int| 0 <= j < s.len() && s[j] {
        Some(choose|j: int| 0 <= j < s.len() && s[j] && forall|k: int| 0 <= k < j ==> !s[k])
    } else {
        None
    }
}

/// Whether an operation with operator `op` and `operand_count` operands is a
/// CMYK colour operation that remapping may rewrite.
pub fn is_remappable_operation(op: &str, operand_count: usize) -> (b: bool)
    ensures
        b == is_remappable(op@, operand_count as nat),
{
    is_cmyk_op(op) && operand_count == 4
}

/// Which remapping rewrites an operation: none unless the operation is
/// remappable; otherwise the first remapping whose source colour matched
/// (`matches[i]` tells whether remapping `i` matched the operation's colour).
pub fn remap_choice(op: &str, operand_count: usize, matches: &Vec<bool>) -> (r: Option<usize>)
    ensures
        !is_remappable(op@, operand_count as nat) ==> r is None,
        is_remappable(op@, operand_count as nat) ==> match r {
            Some(j) => first_match(matches@) == Some(j as int),
            None => first_match(matches@) is None,
        },
{
    if !is_remappable_operation(op, operand_count) {
        return None;
    }
    let n = matches.len();
    let mut i: usize = 0;
    while i < n
        invariant
            n == matches@.len(),
            i <= n,
            is_remappable(op@, operand_count as nat),
            forall|k: int| 0 <= k < i ==> !matches@[k],
        decreases n - i,
    {
        if matches[i] {
            proof {
                let w = choose|j: int| 0 <= j < matches@.len() && matches@[j] && forall|k: int| 0 <= k < j ==> !matches@[k];
                assert(0 <= i < matches@.len() && matches@[i as int] && forall|k: int| 0 <= k < i ==> !matches@[k]);
                assert(w == i) by {
                    if w < i { assert(!matches@[w]); }
                    if w > i { assert(!matches@[i as int]); }
                }
            }
            return Some(i);
        }
        i = i + 1;
    }
    None
}

} // verus!
