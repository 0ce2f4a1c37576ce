//! Photo viewer: which files are images, the images of a folder in order,
//! and stepping through them.

use vstd::prelude::*;
use crate::text::{chars_of, opt_str_view, str_eq, to_lowercase, unicode_lowercase, views};
use vstd::relations::{sorted_by, total_ordering};
use vstd::seq_lib::{lemma_sorted_unique, to_multiset_build, to_multiset_insert};

verus! {

/// The extension of a path as `std::path::Path::extension` computes it: the
/// part of the file name after its last `.`, with `None` for names without
/// one, names starting with their only `.`, and paths without a file name.
pub uninterp spec fn extension_of(path: Seq<char>) -> Option<Seq<char>>;

/// std's `Path::extension` (as text). Its result is named by
/// `extension_of`; the file-name rules are not restated here.
#[verifier::external_body]
pub(crate) fn path_extension(path: &str) -> (res: Option<String>)
    ensures
        opt_str_view(res) == extension_of(path@),
{
    match std::path::Path::new(path).extension() {
        Some(e) => Some(e.to_string_lossy().into_owned()),
        None => None,
    }
}

/// The image extensions the viewer opens (compared in lowercase).
pub open spec fn supported_ext(e: Seq<char>) -> bool {
    e == "png"@ || e == "jpg"@ || e == "jpeg"@ || e == "webp"@ || e == "gif"@
}

/// A path is an image when its lowercased extension is supported.
pub open spec fn is_image_path(path: Seq<char>) -> bool {
    match extension_of(path) {
        Some(e) => supported_ext(unicode_lowercase(e)),
        None => false,
    }
}

/// The viewer opens exactly the files whose extension, lowercased, is one
/// of `png`, `jpg`, `jpeg`, `webp` and `gif`; files without an extension
/// are never images.
pub proof fn lemma_image_extensions(path: Seq<char>)
    ensures
        is_image_path(path) == match extension_of(path) {
            Some(e) => {
                let l = unicode_lowercase(e);
                l == "png"@ || l == "jpg"@ || l == "jpeg"@ || l == "webp"@ || l == "gif"@
            },
            None => false,
        },
{
}

/// Whether a lowercased extension is one the viewer opens.
pub fn is_supported_ext(e: &str) -> (res: bool)
    ensures
        res == supported_ext(e@),
        res == (e@ == "png"@ || e@ == "jpg"@ || e@ == "jpeg"@ || e@ == "webp"@ || e@ == "gif"@),
{
    str_eq(e, "png") || str_eq(e, "jpg") || str_eq(e, "jpeg") || str_eq(e, "webp") || str_eq(e, "gif")
}

/// Whether `path` names an image the viewer opens.
pub fn is_image(path: &str) -> (res: bool)
    ensures
        res == is_image_path(path@),
{
    match path_extension(path) {
        Some(e) => {
            let lowered = to_lowercase(e.as_str());
            is_supported_ext(lowered.as_str())
        },
        None => false,
    }
}

/// The index reached from `idx` by `direction` steps in a list of `len`
/// images, wrapping around at both ends (`rem_euclid`).
pub open spec fn wrapped_index(idx: int, direction: int, len: int) -> int {
    (idx + direction) % len
}

/// The image to show after stepping by `direction` (-1 back, 1 forward):
/// `None` when no image is current or the folder has none.
pub fn navigate_target(current_index: Option<usize>, direction: i32, len: usize) -> (res: Option<usize>)
    requires
        len <= i32::MAX,
        current_index matches Some(i) ==> i < len && i32::MIN <= i + direction <= i32::MAX,
    ensures
        match current_index {
            Some(i) => if len == 0 {
                res is None
            } else {
                res == Some(wrapped_index(i as int, direction as int, len as int) as usize)
            },
            None => res is None,
        },
{
    match current_index {
        Some(idx) => {
            if len == 0 {
                return None;
            }
            let v: i64 = idx as i64 + direction as i64;
            let n: u64 = len as u64;
            let r: u64 = if v >= 0 {
                (v as u64) % n
            } else {
                let a: u64 = ((0 - v) as u64) % n;
                if a == 0 { 0 } else { n - a }
            };
            proof {
                let vi = v as int;
                let ni = n as int;
                if vi < 0 {
                    let m = -vi;
                    let q = m / ni;
                    let a = m % ni;
                    vstd::arithmetic::div_mod::lemma_fundamental_div_mod(m, ni);
                    if a == 0 {
                        assert(vi == (-q) * ni + 0) by (nonlinear_arith)
                            requires m == ni * q + a, a == 0, vi == -m;
                        vstd::arithmetic::div_mod::lemma_fundamental_div_mod_converse(vi, ni, -q, 0);
                    } else {
                        assert(vi == (-q - 1) * ni + (ni - a)) by (nonlinear_arith)
                            requires m == ni * q + a, vi == -m;
                        vstd::arithmetic::div_mod::lemma_fundamental_div_mod_converse(vi, ni, -q - 1, ni - a);
                    }
                }
            }
            Some(r as usize)
        },
        None => None,
    }
}

/// Stepping forward then back returns to the same image.
pub proof fn lemma_forward_back(idx: int, len: int)
    requires
        0 <= idx < len,
    ensures
        wrapped_index(wrapped_index(idx, 1, len), -1, len) == idx,
{
    let f = (idx + 1) % len;
    assert(((idx + 1) % len - 1) % len == idx) by (nonlinear_arith)
        requires 0 <= idx < len;
}


// ---------------------------------------------------------------------
// The folder's images, in order
// ---------------------------------------------------------------------

/// Character-wise (code point) lexicographic order: `a` sorts before `b`
/// or equals it. On the UTF-8 text of two paths of one folder (the same
/// parent, one file name each) this is the order `PathBuf` sorts them in;
/// on paths of different folders it can differ from `PathBuf`'s
/// component-by-component order, which compares one component at a time.
pub open spec fn lex_le(a: Seq<char>, b: Seq<char>) -> bool
    decreases a.len(),
{
    if a.len() == 0 {
        true
    } else if b.len() == 0 {
        false
    } else if a[0] != b[0] {
        a[0] < b[0]
    } else {
        lex_le(a.drop_first(), b.drop_first())
    }
}

/// The order of `lex_le` as a relation.
pub open spec fn path_order() -> spec_fn(Seq<char>, Seq<char>) -> bool {
    |a: Seq<char>, b: Seq<char>| lex_le(a, b)
}

proof fn lemma_lex_reflexive(a: Seq<char>)
    ensures
        lex_le(a, a),
    decreases a.len(),
{
    if a.len() > 0 {
        lemma_lex_reflexive(a.drop_first());
    }
}

proof fn lemma_lex_antisymmetric(a: Seq<char>, b: Seq<char>)
    requires
        lex_le(a, b),
        lex_le(b, a),
    ensures
        a == b,
    decreases a.len(),
{
    if a.len() > 0 && b.len() > 0 {
        if a[0] == b[0] {
            lemma_lex_antisymmetric(a.drop_first(), b.drop_first());
            assert(a =~= seq![a[0]] + a.drop_first());
            assert(b =~= seq![b[0]] + b.drop_first());
        }
    }
}

proof fn lemma_lex_transitive(a: Seq<char>, b: Seq<char>, c: Seq<char>)
    requires
        lex_le(a, b),
        lex_le(b, c),
    ensures
        lex_le(a, c),
    decreases a.len(),
{
    if a.len() > 0 && b.len() > 0 && c.len() > 0 {
        if a[0] == b[0] && b[0] == c[0] {
            lemma_lex_transitive(a.drop_first(), b.drop_first(), c.drop_first());
        }
    }
}

proof fn lemma_lex_total(a: Seq<char>, b: Seq<char>)
    ensures
        lex_le(a, b) || lex_le(b, a),
    decreases a.len(),
{
    if a.len() > 0 && b.len() > 0 && a[0] == b[0] {
        lemma_lex_total(a.drop_first(), b.drop_first());
    }
}

/// `path_order` is a total order.
pub proof fn lemma_path_order_total()
    ensures
        total_ordering(path_order()),
{
    assert forall|x: Seq<char>| #[trigger] path_order()(x, x) by {
        lemma_lex_reflexive(x);
    }
    assert forall|x: Seq<char>, y: Seq<char>| #[trigger] path_order()(x, y) && #[trigger] path_order()(y, x) implies x == y by {
        lemma_lex_antisymmetric(x, y);
    }
    assert forall|x: Seq<char>, y: Seq<char>, z: Seq<char>|
        #[trigger] path_order()(x, y) && #[trigger] path_order()(y, z) implies path_order()(x, z) by {
        lemma_lex_transitive(x, y, z);
    }
    assert forall|x: Seq<char>, y: Seq<char>| #[trigger] path_order()(x, y) || #[trigger] path_order()(y, x) by {
        lemma_lex_total(x, y);
    }
}

/// Whether `a` sorts before `b` or equals it.
fn chars_le(a: &[char], b: &[char]) -> (res: bool)
    ensures
        res == lex_le(a@, b@),
{
    let mut i: usize = 0;
    proof {
        assert(a@.skip(0) =~= a@);
        assert(b@.skip(0) =~= b@);
    }
    loop
        invariant
            i <= a@.len(),
            i <= b@.len(),
            lex_le(a@, b@) == lex_le(a@.skip(i as int), b@.skip(i as int)),
        decreases a@.len() - i,
    {
        if i == a.len() {
            return true;
        }
        if i == b.len() {
            return false;
        }
        if a[i] != b[i] {
            return a[i] < b[i];
        }
        proof {
            assert(a@.skip(i as int).drop_first() =~= a@.skip(i as int + 1));
            assert(b@.skip(i as int).drop_first() =~= b@.skip(i as int + 1));
        }
        i = i + 1;
    }
}

/// Inserts `x` into the sorted `v` after the entries that sort before it
/// or equal it.
fn insert_sorted(v: &mut Vec<String>, x: String)
    requires
        sorted_by(views(old(v)@), path_order()),
    ensures
        sorted_by(views(final(v)@), path_order()),
        views(final(v)@).to_multiset() == views(old(v)@).to_multiset().insert(x@),
{
    proof {
        lemma_path_order_total();
    }
    let xc = chars_of(x.as_str());
    let ghost before = views(v@);
    let mut i: usize = 0;
    while i < v.len()
        invariant_except_break
            i <= v@.len(),
            xc@ == x@,
            views(v@) == before,
            forall|j: int| 0 <= j < i ==> lex_le(before[j], x@),
        ensures
            i <= v@.len(),
            views(v@) == before,
            forall|j: int| 0 <= j < i ==> lex_le(before[j], x@),
            i < v@.len() ==> !lex_le(before[i as int], x@),
        decreases v@.len() - i,
    {
        let vc = chars_of(v[i].as_str());
        assert(before[i as int] == v@[i as int]@);
        if !chars_le(vc.as_slice(), xc.as_slice()) {
            break;
        }
        i = i + 1;
    }
    let ghost pos = i as int;
    v.insert(i, x);
    proof {
        let after = views(v@);
        assert(after =~= before.insert(pos, x@));
        to_multiset_insert(before, pos, x@);
        if pos < before.len() {
            lemma_lex_total(before[pos], x@);
        }
        assert forall|a: int, b: int| 0 <= a < b < after.len() implies #[trigger] path_order()(after[a], after[b]) by {
            if b < pos {
                assert(after[a] == before[a] && after[b] == before[b]);
            } else if b == pos {
                assert(after[a] == before[a]);
            } else if a < pos {
                assert(after[a] == before[a] && after[b] == before[b - 1]);
                lemma_lex_transitive(before[a], x@, before[pos]);
                if b - 1 > pos {
                    assert(path_order()(before[pos], before[b - 1]));
                    lemma_lex_transitive(before[a], before[pos], before[b - 1]);
                }
            } else if a == pos {
                assert(after[b] == before[b - 1]);
                if b - 1 > pos {
                    assert(path_order()(before[pos], before[b - 1]));
                    lemma_lex_transitive(x@, before[pos], before[b - 1]);
                }
            } else {
                assert(after[a] == before[a - 1] && after[b] == before[b - 1]);
                assert(path_order()(before[a - 1], before[b - 1]));
            }
        }
    }
}

/// `paths` in `path_order`.
pub fn sort_paths(paths: &Vec<String>) -> (res: Vec<String>)
    ensures
        views(res@) == views(paths@).sort_by(path_order()),
{
    let mut out: Vec<String> = Vec::new();
    let mut i: usize = 0;
    proof {
        assert(views(paths@.take(0)) =~= Seq::<Seq<char>>::empty());
        assert(views(out@) =~= Seq::<Seq<char>>::empty());
    }
    while i < paths.len()
        invariant
            i <= paths@.len(),
            sorted_by(views(out@), path_order()),
            views(out@).to_multiset() == views(paths@.take(i as int)).to_multiset(),
        decreases paths@.len() - i,
    {
        let p = paths[i].clone();
        insert_sorted(&mut out, p);
        proof {
            assert(views(paths@.take(i as int + 1)) =~= views(paths@.take(i as int)).push(paths@[i as int]@));
            to_multiset_build(views(paths@.take(i as int)), paths@[i as int]@);
        }
        i = i + 1;
    }
    proof {
        assert(paths@.take(paths@.len() as int) =~= paths@);
        lemma_path_order_total();
        views(paths@).lemma_sort_by_ensures(path_order());
        lemma_sorted_unique(views(out@), views(paths@).sort_by(path_order()), path_order());
    }
    out
}

/// The images among `listing`, in the order listed.
pub open spec fn images_in(listing: Seq<Seq<char>>) -> Seq<Seq<char>> {
    listing.filter(|p: Seq<char>| is_image_path(p))
}

/// The images among `listing`, in the order listed.
fn filter_images(listing: &Vec<String>) -> (res: Vec<String>)
    ensures
        views(res@) == images_in(views(listing@)),
{
    let mut out: Vec<String> = Vec::new();
    let mut i: usize = 0;
    while i < listing.len()
        invariant
            i <= listing@.len(),
            views(out@) == images_in(views(listing@.take(i as int))),
        decreases listing@.len() - i,
    {
        let keep = is_image(listing[i].as_str());
        proof {
            let t = views(listing@.take(i as int + 1));
            assert(t.drop_last() =~= views(listing@.take(i as int)));
            assert(t.last() == listing@[i as int]@);
            reveal_with_fuel(Seq::<_>::filter, 1);
        }
        if keep {
            let ghost before = out@;
            out.push(listing[i].clone());
            proof {
                assert(views(out@) =~= views(before).push(listing@[i as int]@));
            }
        }
        i = i + 1;
    }
    proof {
        assert(listing@.take(listing@.len() as int) =~= listing@);
    }
    out
}

/// Whether two texts name the same path (`std::path::Path` equality,
/// which compares the paths component by component).
pub uninterp spec fn same_path(a: Seq<char>, b: Seq<char>) -> bool;

/// std's `==` on two `Path`s. Its result is named by `same_path`.
#[verifier::external_body]
fn path_eq(a: &str, b: &str) -> (res: bool)
    ensures
        res == same_path(a@, b@),
{
    std::path::Path::new(a) == std::path::Path::new(b)
}

/// `i` is the first position of `files` that names the same path as `path`.
pub open spec fn first_same_path(files: Seq<Seq<char>>, path: Seq<char>, i: int) -> bool {
    0 <= i < files.len() && same_path(files[i], path) && forall|j: int| 0 <= j < i ==> !same_path(files[j], path)
}

/// The first position of `files` naming the same path as `path`.
fn first_path_index(files: &Vec<String>, path: &str) -> (res: Option<usize>)
    ensures
        match res {
            Some(i) => first_same_path(views(files@), path@, i as int),
            None => forall|j: int| 0 <= j < files@.len() ==> !same_path(#[trigger] views(files@)[j], path@),
        },
{
    let mut i: usize = 0;
    while i < files.len()
        invariant
            i <= files@.len(),
            forall|j: int| 0 <= j < i ==> !same_path(#[trigger] views(files@)[j], path@),
        decreases files@.len() - i,
    {
        if path_eq(files[i].as_str(), path) {
            return Some(i);
        }
        i = i + 1;
    }
    None
}

/// The images the viewer steps through, and the one it shows.
pub struct Gallery {
    files: Vec<String>,
    current_index: Option<usize>,
}

impl Gallery {
    /// The folder's images, in order.
    pub closed spec fn files_spec(&self) -> Seq<Seq<char>> {
        views(self.files@)
    }

    /// The position of the image shown among them.
    pub closed spec fn index_spec(&self) -> Option<usize> {
        self.current_index
    }

    /// A gallery with no image loaded.
    pub fn new() -> (res: Gallery)
        ensures
            res.files_spec().len() == 0,
            res.index_spec() is None,
    {
        Gallery { files: Vec::new(), current_index: None }
    }

    /// After the image at `path` loaded, from the listing of its folder:
    /// the folder's images in `path_order`, and the position of the first
    /// of them that is the same path as `path` (`None` when none is).
    pub fn load(&mut self, listing: &Vec<String>, path: &str)
        ensures
            final(self).files_spec() == images_in(views(listing@)).sort_by(path_order()),
            match final(self).index_spec() {
                Some(i) => first_same_path(final(self).files_spec(), path@, i as int),
                None => forall|j: int|
                    0 <= j < final(self).files_spec().len() ==> !same_path(#[trigger] final(self).files_spec()[j], path@),
            },
    {
        let images = filter_images(listing);
        let files = sort_paths(&images);
        let found = first_path_index(&files, path);
        self.files = files;
        self.current_index = found;
    }

    /// The images in order.
    pub fn files(&self) -> (res: &Vec<String>)
        ensures
            views(res@) == self.files_spec(),
    {
        &self.files
    }

    /// The position of the image shown.
    pub fn current_index(&self) -> (res: Option<usize>)
        ensures
            res == self.index_spec(),
    {
        self.current_index
    }

    /// The image to show after stepping by `direction` (-1 back, 1
    /// forward), wrapping around the folder; `None` when no image is
    /// shown or the folder has none.
    pub fn navigate(&self, direction: i32) -> (res: Option<String>)
        requires
            self.files_spec().len() <= i32::MAX,
            self.index_spec() matches Some(i) ==> i < self.files_spec().len() && i32::MIN <= i + direction <= i32::MAX,
        ensures
            match self.index_spec() {
                Some(i) => if self.files_spec().len() == 0 {
                    res is None
                } else {
                    res matches Some(p) && p@ == self.files_spec()[wrapped_index(
                        i as int,
                        direction as int,
                        self.files_spec().len() as int,
                    )]
                },
                None => res is None,
            },
    {
        match navigate_target(self.current_index, direction, self.files.len()) {
            Some(k) => Some(self.files[k].clone()),
            None => None,
        }
    }
}

} // verus!
