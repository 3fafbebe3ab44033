//! The documentation location resolver: maps a catalog line (qualified
//! path plus kind) to the generated HTML file and in-page anchor that
//! documents the item, by probing a model of the documentation tree.

use vstd::prelude::*;

use crate::doc::{
    is_file_kind, kind_of_str, kind_str, file_kind_order, ItemType, ParseItemTypeError,
};
use crate::strutil::{find_char, sfind, str_eq};
use vstd::string::*;

verus! {

/// A failure of a single location query.
#[derive(Debug, PartialEq, Eq, Clone, Copy, Structural)]
pub enum LocationError {
    /// Malformed query text.
    InvalidFormat,
    /// Unrecognized kind string in the query.
    ParseItemTypeError(ParseItemTypeError),
    /// No candidate file matched any probe.
    FileNotFound,
    /// The remaining path was too deep to name an item on any page.
    ItemNotFound,
    /// No documentation root holds the crate's directory.
    DocNotFound,
}

/// A model of one candidate documentation root: its absolute path (without
/// a trailing separator) and the directory and file entries under it, each
/// as a list of path segments relative to the root. Resolution only ever
/// reads this model; building it from the real tree is the caller's side.
pub struct DocRoot {
    pub path: String,
    pub dirs: Vec<Vec<String>>,
    pub files: Vec<Vec<String>>,
}

/// The character sequences of a list of strings.
pub open spec fn views_of(v: Seq<String>) -> Seq<Seq<char>> {
    v.map_values(|s: String| s@)
}

/// Whether a relative path is a directory of the root.
pub open spec fn shas_dir(root: DocRoot, p: Seq<Seq<char>>) -> bool {
    exists|k: int| 0 <= k < root.dirs@.len() && views_of((#[trigger] root.dirs@[k])@) == p
}

/// Whether a relative path is a file of the root.
pub open spec fn shas_file(root: DocRoot, p: Seq<Seq<char>>) -> bool {
    exists|k: int| 0 <= k < root.files@.len() && views_of((#[trigger] root.files@[k])@) == p
}

/// The crates documented by the toolchain itself.
pub open spec fn is_std_crate_name(s: Seq<char>) -> bool {
    ||| s == "alloc"@
    ||| s == "core"@
    ||| s == "proc_macro"@
    ||| s == "std"@
    ||| s == "test"@
}

/// The greedy descent: starting from the crate directory, each next
/// segment that names a subdirectory is consumed — except that the final
/// segment is never consumed when the query kind is file-bearing, and for
/// standard-library queries of kind method or associated-constant the
/// second-to-last segment is not consumed either, since those items sit on
/// a sibling page (a primitive's own page) rather than in a module
/// directory.
pub open spec fn sdescend(
    root: DocRoot,
    cur: Seq<Seq<char>>,
    rest: Seq<Seq<char>>,
    kind: ItemType,
    std: bool,
) -> (Seq<Seq<char>>, Seq<Seq<char>>)
    decreases rest.len(),
{
    if rest.len() == 0 {
        (cur, rest)
    } else if rest.len() == 1 && is_file_kind(kind) {
        (cur, rest)
    } else if std && rest.len() == 2 && (kind == ItemType::Method || kind == ItemType::AssocConst) {
        (cur, rest)
    } else if shas_dir(root, cur.push(rest[0])) {
        sdescend(root, cur.push(rest[0]), rest.drop_first(), kind, std)
    } else {
        (cur, rest)
    }
}

/// The candidate file name `<kindstring>.<name>.html`.
pub open spec fn sprobe_name(ft: ItemType, name: Seq<char>) -> Seq<char> {
    kind_str(ft) + "."@ + name + ".html"@
}

/// The generic file probe from priority rank `i` on: the first file-bearing
/// kind whose candidate file exists, with that file's path.
pub open spec fn sprobe_from(root: DocRoot, cur: Seq<Seq<char>>, name: Seq<char>, i: int) -> Option<
    (ItemType, Seq<Seq<char>>),
>
    decreases file_kind_order().len() - i,
{
    if i < 0 || i >= file_kind_order().len() {
        None
    } else {
        let ft = file_kind_order()[i];
        let file = cur.push(sprobe_name(ft, name));
        if shas_file(root, file) {
            Some((ft, file))
        } else {
            sprobe_from(root, cur, name, i + 1)
        }
    }
}

pub open spec fn sprobe(root: DocRoot, cur: Seq<Seq<char>>, name: Seq<char>) -> Option<
    (ItemType, Seq<Seq<char>>),
> {
    sprobe_from(root, cur, name, 0)
}

/// All characters of `s` are decimal digits, and there is at least one.
pub open spec fn sdigits(s: Seq<char>) -> bool {
    s.len() > 0 && forall|k: int| 0 <= k < s.len() ==> 48 <= (#[trigger] s[k]) as int <= 57
}

/// The value of a decimal digit string.
pub open spec fn sdigits_val(s: Seq<char>) -> int
    decreases s.len(),
{
    if s.len() == 0 {
        0
    } else {
        sdigits_val(s.drop_last()) * 10 + (s.last() as int - 48)
    }
}

/// Whether a segment parses as a plain (32-bit signed) integer: an optional
/// sign followed by digits, within range.
pub open spec fn is_plain_int(s: Seq<char>) -> bool {
    if s.len() > 0 && (s[0] == '+' || s[0] == '-') {
        sdigits(s.drop_first()) && sdigits_val(s.drop_first()) <= (if s[0] == '-' {
            2147483648int
        } else {
            2147483647int
        })
    } else {
        sdigits(s) && sdigits_val(s) <= 2147483647
    }
}

/// The in-page anchor for the remaining segments, after the first of them
/// has been resolved to a file of the probed kind. A struct field lives on
/// its parent's page: a named field is anchored through its variant path,
/// and a plain tuple index gets no anchor at all.
pub open spec fn sitem_anchor(rest: Seq<Seq<char>>, probed: ItemType, kind: ItemType) -> Option<
    Seq<char>,
> {
    if rest.len() == 1 {
        if kind == ItemType::StructField && is_plain_int(rest[0]) {
            None
        } else {
            Some(kind_str(probed) + "."@ + rest[0])
        }
    } else if rest.len() == 2 {
        if kind == ItemType::StructField {
            if is_plain_int(rest[1]) {
                None
            } else {
                Some("variant."@ + rest[0] + ".field."@ + rest[1])
            }
        } else {
            Some(kind_str(kind) + "."@ + rest[1])
        }
    } else {
        if kind == ItemType::StructField {
            if is_plain_int(rest[2]) {
                Some("variant."@ + rest[1])
            } else {
                Some("variant."@ + rest[1] + ".field."@ + rest[2])
            }
        } else {
            Some(kind_str(kind) + "."@ + rest[2])
        }
    }
}

/// Resolution against one root: require the crate directory, descend, then
/// either land on a module's `index.html` (anchored `reexport.<s>` for an
/// import), or probe for the file of the first remaining segment and anchor
/// the rest; more than three remaining segments name nothing on any page.
pub open spec fn sresolve_root(root: DocRoot, segs: Seq<Seq<char>>, kind: ItemType) -> Result<
    (Seq<Seq<char>>, Option<Seq<char>>),
    LocationError,
> {
    if segs.len() == 0 {
        Err(LocationError::InvalidFormat)
    } else {
        let krate = segs[0];
        if !shas_dir(root, seq![krate]) {
            Err(LocationError::DocNotFound)
        } else {
            let dr = sdescend(root, seq![krate], segs.drop_first(), kind, is_std_crate_name(krate));
            let cur = dr.0;
            let rest = dr.1;
            if rest.len() == 0 {
                Ok(
                    (
                        cur.push("index.html"@),
                        if kind == ItemType::Import {
                            Some("reexport."@ + segs.last())
                        } else {
                            None
                        },
                    ),
                )
            } else if rest.len() <= 3 {
                match sprobe(root, cur, rest[0]) {
                    None => Err(LocationError::FileNotFound),
                    Some((ft, file)) => Ok((file, sitem_anchor(rest, ft, kind))),
                }
            } else {
                Err(LocationError::ItemNotFound)
            }
        }
    }
}

/// Resolution against a list of candidate roots, tried independently in
/// order: the first root yielding a non-not-found result wins, and a root
/// missing the crate directory is skipped, not fatal. The result carries
/// the index of the winning root. When every root fails, the first error
/// other than DocNotFound is reported, if any root got that far.
pub open spec fn sresolve_multi(roots: Seq<DocRoot>, segs: Seq<Seq<char>>, kind: ItemType) -> Result<
    (int, (Seq<Seq<char>>, Option<Seq<char>>)),
    LocationError,
>
    decreases roots.len(),
{
    if roots.len() == 0 {
        Err(LocationError::DocNotFound)
    } else {
        match sresolve_root(roots[0], segs, kind) {
            Ok(loc) => Ok((0, loc)),
            Err(e) => match sresolve_multi(roots.drop_first(), segs, kind) {
                Ok((i, loc)) => Ok((i + 1, loc)),
                Err(e2) => Err(
                    if e != LocationError::DocNotFound {
                        e
                    } else {
                        e2
                    },
                ),
            },
        }
    }
}

/// The segments joined as an absolute path under the root, each preceded
/// by a separator.
pub open spec fn sjoin(path: Seq<Seq<char>>) -> Seq<char>
    decreases path.len(),
{
    if path.len() == 0 {
        Seq::empty()
    } else {
        sjoin(path.drop_last()) + "/"@ + path.last()
    }
}

/// The printed location: a `file://` URL with an optional fragment.
pub open spec fn surl(rootpath: Seq<char>, file: Seq<Seq<char>>, anchor: Option<Seq<char>>) -> Seq<
    char,
> {
    match anchor {
        None => "file://"@ + rootpath + sjoin(file),
        Some(a) => "file://"@ + rootpath + sjoin(file) + "#"@ + a,
    }
}

// ---------------------------------------------------------------------------
// Executable resolution, proved against the functions above.
// ---------------------------------------------------------------------------

/// Character-wise equality of two segment lists.
fn path_eq(a: &Vec<String>, b: &Vec<String>) -> (r: bool)
    ensures
        r == (views_of(a@) == views_of(b@)),
{
    let n = a.len();
    if n != b.len() {
        proof {
            assert(views_of(a@).len() != views_of(b@).len());
        }
        return false;
    }
    let mut i: usize = 0;
    while i < n
        invariant
            n == a@.len(),
            n == b@.len(),
            i <= n,
            forall|j: int| 0 <= j < i ==> a@[j]@ == b@[j]@,
        decreases n - i,
    {
        if !str_eq(a[i].as_str(), b[i].as_str()) {
            proof {
                assert(views_of(a@)[i as int] == a@[i as int]@);
                assert(views_of(b@)[i as int] == b@[i as int]@);
            }
            return false;
        }
        i += 1;
    }
    proof {
        assert(views_of(a@) =~= views_of(b@));
    }
    true
}

/// A copy of a segment list with the same characters.
fn clone_path(v: &Vec<String>) -> (r: Vec<String>)
    ensures
        views_of(r@) == views_of(v@),
{
    let n = v.len();
    let mut out: Vec<String> = Vec::new();
    let mut i: usize = 0;
    while i < n
        invariant
            n == v@.len(),
            i <= n,
            out@.len() == i,
            forall|j: int| 0 <= j < i ==> (#[trigger] out@[j])@ == v@[j]@,
        decreases n - i,
    {
        out.push(v[i].clone());
        i += 1;
    }
    proof {
        assert(views_of(out@) =~= views_of(v@));
    }
    out
}

/// Whether a relative path is a directory of the root.
fn has_dir(root: &DocRoot, p: &Vec<String>) -> (r: bool)
    ensures
        r == shas_dir(*root, views_of(p@)),
{
    let n = root.dirs.len();
    let mut k: usize = 0;
    while k < n
        invariant
            n == root.dirs@.len(),
            k <= n,
            forall|m: int| 0 <= m < k ==> views_of((#[trigger] root.dirs@[m])@) != views_of(p@),
        decreases n - k,
    {
        if path_eq(&root.dirs[k], p) {
            return true;
        }
        k += 1;
    }
    false
}

/// Whether a relative path is a file of the root.
fn has_file(root: &DocRoot, p: &Vec<String>) -> (r: bool)
    ensures
        r == shas_file(*root, views_of(p@)),
{
    let n = root.files.len();
    let mut k: usize = 0;
    while k < n
        invariant
            n == root.files@.len(),
            k <= n,
            forall|m: int| 0 <= m < k ==> views_of((#[trigger] root.files@[m])@) != views_of(p@),
        decreases n - k,
    {
        if path_eq(&root.files[k], p) {
            return true;
        }
        k += 1;
    }
    false
}

/// Whether a crate is documented by the toolchain itself.
pub fn is_std_krate(name: &str) -> (r: bool)
    ensures
        r == is_std_crate_name(name@),
{
    str_eq(name, "alloc") || str_eq(name, "core") || str_eq(name, "proc_macro") || str_eq(
        name,
        "std",
    ) || str_eq(name, "test")
}

proof fn lemma_digits_val_nonneg(s: Seq<char>)
    requires
        forall|k: int| 0 <= k < s.len() ==> 48 <= (#[trigger] s[k]) as int <= 57,
    ensures
        sdigits_val(s) >= 0,
    decreases s.len(),
{
    if s.len() > 0 {
        assert(forall|k: int|
            0 <= k < s.drop_last().len() ==> 48 <= (#[trigger] s.drop_last()[k]) as int <= 57);
        lemma_digits_val_nonneg(s.drop_last());
    }
}

/// Whether a segment parses as a plain integer, as a tuple field index
/// does.
pub fn is_tuple_index(s: &str) -> (r: bool)
    ensures
        r == is_plain_int(s@),
{
    let n = s.unicode_len();
    if n == 0 {
        return false;
    }
    let c0 = s.get_char(0);
    let start: usize = if c0 == '-' || c0 == '+' {
        1
    } else {
        0
    };
    let bound: u64 = if c0 == '-' {
        2147483648
    } else {
        2147483647
    };
    if start >= n {
        return false;
    }
    let ghost ds: Seq<char> = if start == 1 {
        s@.drop_first()
    } else {
        s@
    };
    proof {
        assert(ds.len() == n - start);
        assert(forall|j: int| 0 <= j < ds.len() ==> ds[j] == s@[j + start]);
    }
    let mut acc: u64 = 0;
    let mut over = false;
    let mut i: usize = start;
    while i < n
        invariant
            n == s@.len(),
            start <= i <= n,
            start <= 1,
            (start as int) < n,
            ds == (if start == 1 {
                s@.drop_first()
            } else {
                s@
            }),
            ds.len() == n - start,
            forall|j: int| 0 <= j < ds.len() ==> ds[j] == s@[j + start],
            forall|j: int| start <= j < i ==> 48 <= (#[trigger] s@[j]) as int <= 57,
            bound == (if s@[0] == '-' {
                2147483648u64
            } else {
                2147483647u64
            }),
            (start == 1) == (s@[0] == '-' || s@[0] == '+'),
            !over ==> acc as int == sdigits_val(ds.subrange(0, i - start)) && acc <= bound,
            over ==> sdigits_val(ds.subrange(0, i - start)) > bound,
        decreases n - i,
    {
        let c = s.get_char(i);
        let cu = c as u32;
        if cu < 48 || cu > 57 {
            proof {
                assert(ds[i - start] == s@[i as int]);
            }
            return false;
        }
        let d: u64 = (cu - 48) as u64;
        proof {
            let pre = ds.subrange(0, i - start);
            let post = ds.subrange(0, i + 1 - start);
            assert(post.drop_last() =~= pre);
            assert(post.last() == s@[i as int]);
            if over {
                assert(forall|k: int| 0 <= k < pre.len() ==> 48 <= (#[trigger] pre[k]) as int <= 57);
                lemma_digits_val_nonneg(pre);
            }
        }
        if !over {
            let na = acc * 10 + d;
            if na > bound {
                over = true;
            } else {
                acc = na;
            }
        }
        i += 1;
    }
    proof {
        assert(ds.subrange(0, ds.len() as int) =~= ds);
    }
    !over
}

/// The greedy descent of `sdescend`, on segment lists.
pub fn step_into_module(
    root: &DocRoot,
    cur: Vec<String>,
    rest: Vec<String>,
    kind: ItemType,
    std: bool,
) -> (r: (Vec<String>, Vec<String>))
    ensures
        ({
            let d = sdescend(*root, views_of(cur@), views_of(rest@), kind, std);
            views_of(r.0@) == d.0 && views_of(r.1@) == d.1
        }),
{
    let mut c = cur;
    let mut t = rest;
    loop
        invariant
            sdescend(*root, views_of(cur@), views_of(rest@), kind, std) == sdescend(
                *root,
                views_of(c@),
                views_of(t@),
                kind,
                std,
            ),
        decreases t@.len(),
    {
        if t.len() == 0 {
            return (c, t);
        }
        if t.len() == 1 && crate::doc::is_file_bearing(kind) {
            return (c, t);
        }
        if std && t.len() == 2 && (kind == ItemType::Method || kind == ItemType::AssocConst) {
            return (c, t);
        }
        let mut cand = clone_path(&c);
        cand.push(t[0].clone());
        proof {
            assert(views_of(cand@) =~= views_of(c@).push(views_of(t@)[0]));
        }
        if !has_dir(root, &cand) {
            return (c, t);
        }
        c = cand;
        let ghost t_old = t@;
        let _ = t.remove(0);
        proof {
            assert(t@ =~= t_old.drop_first());
            assert(views_of(t_old.drop_first()) =~= views_of(t_old).drop_first());
        }
    }
}

/// The generic file probe: the first file-bearing kind, in priority order,
/// whose candidate file `<kindstring>.<name>.html` exists under `cur`.
pub fn find_file(root: &DocRoot, cur: &Vec<String>, name: &str) -> (r: Option<
    (ItemType, Vec<String>),
>)
    ensures
        match r {
            Some(p) => sprobe(*root, views_of(cur@), name@) matches Some(sp) && sp.0 == p.0 && sp.1
                == views_of(p.1@),
            None => sprobe(*root, views_of(cur@), name@) is None,
        },
{
    let fts = crate::doc::file_kinds();
    let n = fts.len();
    let mut i: usize = 0;
    while i < n
        invariant
            fts@ == file_kind_order(),
            n == fts@.len(),
            i <= n,
            sprobe(*root, views_of(cur@), name@) == sprobe_from(
                *root,
                views_of(cur@),
                name@,
                i as int,
            ),
        decreases n - i,
    {
        let mut fname: String = String::from_str(fts[i].as_str());
        fname.append(".");
        fname.append(name);
        fname.append(".html");
        proof {
            assert(fname@ =~= sprobe_name(file_kind_order()[i as int], name@));
        }
        let mut file = clone_path(cur);
        file.push(fname);
        proof {
            assert(views_of(file@) =~= views_of(cur@).push(
                sprobe_name(file_kind_order()[i as int], name@),
            ));
        }
        if has_file(root, &file) {
            return Some((fts[i], file));
        }
        i += 1;
    }
    None
}

/// The in-page anchor for the stopped-at segments, per `sitem_anchor`.
fn item_id(rest: &Vec<String>, probed: ItemType, ty: ItemType) -> (r: Option<String>)
    requires
        1 <= rest@.len() <= 3,
    ensures
        match r {
            Some(a) => sitem_anchor(views_of(rest@), probed, ty) == Some(a@),
            None => sitem_anchor(views_of(rest@), probed, ty) is None,
        },
{
    if rest.len() == 1 {
        if ty == ItemType::StructField && is_tuple_index(rest[0].as_str()) {
            return None;
        }
        let mut a = String::from_str(probed.as_str());
        a.append(".");
        a.append(rest[0].as_str());
        proof {
            assert(a@ =~= kind_str(probed) + "."@ + views_of(rest@)[0]);
        }
        Some(a)
    } else if rest.len() == 2 {
        if ty == ItemType::StructField {
            if is_tuple_index(rest[1].as_str()) {
                return None;
            }
            let mut a = String::from_str("variant.");
            a.append(rest[0].as_str());
            a.append(".field.");
            a.append(rest[1].as_str());
            proof {
                assert(a@ =~= "variant."@ + views_of(rest@)[0] + ".field."@ + views_of(rest@)[1]);
            }
            Some(a)
        } else {
            let mut a = String::from_str(ty.as_str());
            a.append(".");
            a.append(rest[1].as_str());
            proof {
                assert(a@ =~= kind_str(ty) + "."@ + views_of(rest@)[1]);
            }
            Some(a)
        }
    } else {
        if ty == ItemType::StructField {
            if is_tuple_index(rest[2].as_str()) {
                let mut a = String::from_str("variant.");
                a.append(rest[1].as_str());
                proof {
                    assert(a@ =~= "variant."@ + views_of(rest@)[1]);
                }
                Some(a)
            } else {
                let mut a = String::from_str("variant.");
                a.append(rest[1].as_str());
                a.append(".field.");
                a.append(rest[2].as_str());
                proof {
                    assert(a@ =~= "variant."@ + views_of(rest@)[1] + ".field."@ + views_of(
                        rest@,
                    )[2]);
                }
                Some(a)
            }
        } else {
            let mut a = String::from_str(ty.as_str());
            a.append(".");
            a.append(rest[2].as_str());
            proof {
                assert(a@ =~= kind_str(ty) + "."@ + views_of(rest@)[2]);
            }
            Some(a)
        }
    }
}

/// The crate's own directory under a root, required to exist.
pub fn cd_krate_dir(root: &DocRoot, krate: &str) -> (r: Result<Vec<String>, LocationError>)
    ensures
        (r is Ok) == shas_dir(*root, seq![krate@]),
        r matches Ok(v) ==> views_of(v@) == seq![krate@],
        r matches Err(e) ==> e == LocationError::DocNotFound,
{
    let mut v: Vec<String> = Vec::new();
    v.push(krate.to_owned());
    proof {
        assert(views_of(v@) =~= seq![krate@]);
    }
    if has_dir(root, &v) {
        Ok(v)
    } else {
        Err(LocationError::DocNotFound)
    }
}

/// Splits a query path into the crate segment and the remaining segments.
pub fn split_krate(path_components: &Vec<String>) -> (r: Result<
    (String, Vec<String>),
    LocationError,
>)
    ensures
        (r is Ok) == (path_components@.len() >= 1),
        r matches Ok(p) ==> p.0@ == views_of(path_components@)[0] && views_of(p.1@) == views_of(
            path_components@,
        ).drop_first(),
        r matches Err(e) ==> e == LocationError::InvalidFormat,
{
    let n = path_components.len();
    if n == 0 {
        return Err(LocationError::InvalidFormat);
    }
    let name = path_components[0].clone();
    let mut tail: Vec<String> = Vec::new();
    let mut k: usize = 1;
    while k < n
        invariant
            1 <= k <= n,
            n == path_components@.len(),
            tail@.len() == k - 1,
            forall|j: int| 0 <= j < k - 1 ==> (#[trigger] tail@[j])@ == path_components@[j + 1]@,
        decreases n - k,
    {
        tail.push(path_components[k].clone());
        k += 1;
    }
    proof {
        assert(views_of(tail@) =~= views_of(path_components@).drop_first());
    }
    Ok((name, tail))
}

/// The printed `file://` URL of a resolved file and optional anchor.
pub fn item_url(root: &DocRoot, file: &Vec<String>, anchor: Option<String>) -> (r: String)
    ensures
        r@ == surl(
            root.path@,
            views_of(file@),
            match anchor {
                Some(a) => Some(a@),
                None => None,
            },
        ),
{
    let mut u = String::from_str("file://");
    u.append(root.path.as_str());
    let n = file.len();
    let mut k: usize = 0;
    while k < n
        invariant
            n == file@.len(),
            k <= n,
            u@ == "file://"@ + root.path@ + sjoin(views_of(file@).subrange(0, k as int)),
        decreases n - k,
    {
        u.append("/");
        u.append(file[k].as_str());
        proof {
            let vs = views_of(file@);
            assert(vs.subrange(0, k + 1).drop_last() =~= vs.subrange(0, k as int));
            assert(vs.subrange(0, k + 1).last() == vs[k as int]);
        }
        k += 1;
    }
    proof {
        assert(views_of(file@).subrange(0, n as int) =~= views_of(file@));
    }
    match anchor {
        None => u,
        Some(a) => {
            u.append("#");
            u.append(a.as_str());
            u
        },
    }
}

/// Resolution of a split query against one root: the location, printed as
/// a URL, or the error `sresolve_root` gives.
pub fn find(root: &DocRoot, krate: &str, tail: &Vec<String>, ty: ItemType) -> (r: Result<
    String,
    crate::Error,
>)
    ensures
        ({
            let segs = seq![krate@] + views_of(tail@);
            match sresolve_root(*root, segs, ty) {
                Ok(loc) => r matches Ok(u) && u@ == surl(root.path@, loc.0, loc.1),
                Err(e) => r matches Err(crate::Error::Location(e2)) && e2 == e,
            }
        }),
{
    let ghost segs = seq![krate@] + views_of(tail@);
    proof {
        assert(segs.len() >= 1);
        assert(segs[0] == krate@);
        assert(segs.drop_first() =~= views_of(tail@));
    }
    let kdir = match cd_krate_dir(root, krate) {
        Ok(v) => v,
        Err(e) => {
            return Err(crate::Error::Location(e));
        },
    };
    let std = is_std_krate(krate);
    let dr = step_into_module(root, kdir, clone_path(tail), ty, std);
    let cur = dr.0;
    let rest = dr.1;
    if rest.len() == 0 {
        let mut file = cur;
        file.push(String::from_str("index.html"));
        proof {
            assert(views_of(file@) =~= sdescend(
                *root,
                seq![krate@],
                views_of(tail@),
                ty,
                is_std_crate_name(krate@),
            ).0.push("index.html"@));
        }
        let anchor: Option<String> = if ty == ItemType::Import {
            let mut a = String::from_str("reexport.");
            if tail.len() == 0 {
                a.append(krate);
            } else {
                a.append(tail[tail.len() - 1].as_str());
            }
            proof {
                assert(a@ =~= "reexport."@ + segs.last());
            }
            Some(a)
        } else {
            None
        };
        return Ok(item_url(root, &file, anchor));
    }
    if rest.len() > 3 {
        return Err(crate::Error::Location(LocationError::ItemNotFound));
    }
    match find_file(root, &cur, rest[0].as_str()) {
        None => Err(crate::Error::Location(LocationError::FileNotFound)),
        Some((ft, file)) => {
            let anchor = item_id(&rest, ft, ty);
            Ok(item_url(root, &file, anchor))
        },
    }
}

// ---------------------------------------------------------------------------
// Query-line parsing: the first two whitespace-delimited tokens of a
// catalog line are the qualified path and the kind string; trailing text is
// ignored.
// ---------------------------------------------------------------------------

/// The separators recognized between the two tokens of a query line.
pub open spec fn is_space(c: char) -> bool {
    c == ' ' || c == '\t' || c == '\n' || c == '\r'
}

/// First index at or after `i` holding a non-separator, or the length.
pub open spec fn sskip_ws(s: Seq<char>, i: int) -> int
    decreases s.len() - i,
{
    if i < 0 || i >= s.len() {
        s.len() as int
    } else if is_space(s[i]) {
        sskip_ws(s, i + 1)
    } else {
        i
    }
}

/// First index at or after `i` holding a separator, or the length.
pub open spec fn sscan_tok(s: Seq<char>, i: int) -> int
    decreases s.len() - i,
{
    if i < 0 || i >= s.len() {
        s.len() as int
    } else if is_space(s[i]) {
        i
    } else {
        sscan_tok(s, i + 1)
    }
}

/// First index at or after `i` where a `::` separator starts, or -1.
pub open spec fn sfind2(s: Seq<char>, i: int) -> int
    decreases s.len() - i,
{
    if i < 0 || i + 1 >= s.len() {
        -1
    } else if s[i] == ':' && s[i + 1] == ':' {
        i
    } else {
        sfind2(s, i + 1)
    }
}

/// The `::`-separated pieces of `s[start..]`.
pub open spec fn ssplit_from(s: Seq<char>, start: int) -> Seq<Seq<char>>
    decreases s.len() - start,
{
    let i = sfind2(s, start);
    if i < start || i + 2 > s.len() {
        seq![s.subrange(start, s.len() as int)]
    } else {
        seq![s.subrange(start, i)] + ssplit_from(s, i + 2)
    }
}

/// A parsed query: the `::`-split path segments of the first token, and
/// the kind decoded from the second.
pub open spec fn squery(line: Seq<char>) -> Result<(Seq<Seq<char>>, ItemType), LocationError> {
    let t1s = sskip_ws(line, 0);
    if t1s >= line.len() {
        Err(LocationError::InvalidFormat)
    } else {
        let t1e = sscan_tok(line, t1s);
        let t2s = sskip_ws(line, t1e);
        if t2s >= line.len() {
            Err(LocationError::InvalidFormat)
        } else {
            let t2e = sscan_tok(line, t2s);
            match kind_of_str(line.subrange(t2s, t2e)) {
                None => Err(LocationError::ParseItemTypeError(ParseItemTypeError)),
                Some(ty) => Ok((ssplit_from(line.subrange(t1s, t1e), 0), ty)),
            }
        }
    }
}

/// Whether a character separates the query tokens.
fn is_space_char(c: char) -> (r: bool)
    ensures
        r == is_space(c),
{
    c == ' ' || c == '\t' || c == '\n' || c == '\r'
}

/// First index at or after `from` holding a non-separator, or the length.
fn skip_ws(s: &str, from: usize) -> (r: usize)
    requires
        from <= s@.len(),
    ensures
        r == sskip_ws(s@, from as int),
        from <= r <= s@.len(),
{
    let n = s.unicode_len();
    let mut i: usize = from;
    while i < n
        invariant
            n == s@.len(),
            from <= i <= n,
            sskip_ws(s@, from as int) == sskip_ws(s@, i as int),
        decreases n - i,
    {
        if !is_space_char(s.get_char(i)) {
            return i;
        }
        i += 1;
    }
    n
}

/// First index at or after `from` holding a separator, or the length.
fn scan_tok(s: &str, from: usize) -> (r: usize)
    requires
        from <= s@.len(),
    ensures
        r == sscan_tok(s@, from as int),
        from <= r <= s@.len(),
{
    let n = s.unicode_len();
    let mut i: usize = from;
    while i < n
        invariant
            n == s@.len(),
            from <= i <= n,
            sscan_tok(s@, from as int) == sscan_tok(s@, i as int),
        decreases n - i,
    {
        if is_space_char(s.get_char(i)) {
            return i;
        }
        i += 1;
    }
    n
}

/// Splits a path on `::` into its segments.
fn split_path(s: &str) -> (r: Vec<String>)
    ensures
        views_of(r@) == ssplit_from(s@, 0),
{
    let n = s.unicode_len();
    let m: usize = if n == 0 {
        0
    } else {
        n - 1
    };
    let mut out: Vec<String> = Vec::new();
    let mut start: usize = 0;
    let mut i: usize = 0;
    while i < m
        invariant
            n == s@.len(),
            m == (if n == 0 {
                0int
            } else {
                n - 1
            }),
            start <= i,
            i <= n,
            ssplit_from(s@, 0) == views_of(out@) + ssplit_from(s@, start as int),
            sfind2(s@, start as int) == sfind2(s@, i as int),
        decreases n - i,
    {
        if s.get_char(i) == ':' && s.get_char(i + 1) == ':' {
            out.push(s.substring_char(start, i).to_owned());
            proof {
                assert(views_of(out@) =~= views_of(out@.drop_last()).push(s@.subrange(
                    start as int,
                    i as int,
                )));
                assert(views_of(out@.drop_last()) + ssplit_from(s@, start as int) =~= views_of(
                    out@,
                ) + ssplit_from(s@, i + 2));
            }
            start = i + 2;
            i = i + 2;
        } else {
            i += 1;
        }
    }
    out.push(s.substring_char(start, n).to_owned());
    proof {
        assert(sfind2(s@, i as int) == -1);
        assert(views_of(out@) =~= views_of(out@.drop_last()) + ssplit_from(s@, start as int));
    }
    out
}

/// Parses one catalog line into its path segments and its item kind: only
/// the first two separator-delimited tokens are read, and trailing text is
/// ignored.
pub fn parse_line(line: &str) -> (r: Result<(Vec<String>, ItemType), crate::Error>)
    ensures
        match squery(line@) {
            Err(e) => r matches Err(crate::Error::Location(e2)) && e2 == e,
            Ok(q) => r matches Ok(p) && views_of(p.0@) == q.0 && p.1 == q.1,
        },
{
    let n = line.unicode_len();
    let t1s = skip_ws(line, 0);
    if t1s >= n {
        return Err(crate::Error::Location(LocationError::InvalidFormat));
    }
    let t1e = scan_tok(line, t1s);
    let t2s = skip_ws(line, t1e);
    if t2s >= n {
        return Err(crate::Error::Location(LocationError::InvalidFormat));
    }
    let t2e = scan_tok(line, t2s);
    let kindstr: &str = line.substring_char(t2s, t2e);
    let ty = match ItemType::from_str(kindstr) {
        Ok(t) => t,
        Err(e) => {
            return Err(crate::Error::Location(LocationError::ParseItemTypeError(e)));
        },
    };
    let path: &str = line.substring_char(t1s, t1e);
    Ok((split_path(path), ty))
}

/// Resolves one catalog line against the candidate roots, tried
/// independently in order; the first root yielding a non-not-found result
/// wins, and a root missing the crate's directory is skipped, not fatal.
pub fn location_from_line(line: &str, roots: &Vec<DocRoot>) -> (r: Result<String, crate::Error>)
    ensures
        match squery(line@) {
            Err(e) => r matches Err(crate::Error::Location(e2)) && e2 == e,
            Ok(q) => match sresolve_multi(roots@, q.0, q.1) {
                Ok(iloc) => r matches Ok(u) && u@ == surl(
                    roots@[iloc.0].path@,
                    iloc.1.0,
                    iloc.1.1,
                ),
                Err(e) => r matches Err(crate::Error::Location(e2)) && e2 == e,
            },
        },
{
    let parsed = match parse_line(line) {
        Ok(p) => p,
        Err(e) => {
            return Err(e);
        },
    };
    let segs = parsed.0;
    let ty = parsed.1;
    proof {
        assert(views_of(segs@).len() >= 1);
    }
    let kt = match split_krate(&segs) {
        Ok(p) => p,
        Err(_) => {
            return Err(crate::Error::Location(LocationError::InvalidFormat));
        },
    };
    let krate = kt.0;
    let tail = kt.1;
    let ghost sv = views_of(segs@);
    proof {
        assert(seq![krate@] + views_of(tail@) =~= sv);
    }
    let n = roots.len();
    proof {
        assert(roots@.subrange(0, n as int) =~= roots@);
    }
    let mut k: usize = 0;
    let mut fallback: Option<LocationError> = None;
    while k < n
        invariant
            n == roots@.len(),
            k <= n,
            squery(line@) matches Ok(q) && q.0 == sv && q.1 == ty,
            sv == views_of(segs@),
            sv.len() >= 1,
            krate@ == sv[0],
            views_of(tail@) == sv.drop_first(),
            seq![krate@] + views_of(tail@) == sv,
            match fallback {
                Some(fe) => fe != LocationError::DocNotFound,
                None => true,
            },
            ({
                let msub = sresolve_multi(roots@.subrange(k as int, n as int), sv, ty);
                let mfull = sresolve_multi(roots@, sv, ty);
                match msub {
                    Ok(iloc) => mfull == Ok::<_, LocationError>(
                        (iloc.0 + k, iloc.1),
                    ),
                    Err(e2) => mfull == Err::<(int, (Seq<Seq<char>>, Option<Seq<char>>)), _>(
                        match fallback {
                            Some(fe) => fe,
                            None => e2,
                        },
                    ),
                }
            }),
        decreases n - k,
    {
        proof {
            assert(roots@.subrange(k as int, n as int)[0] == roots@[k as int]);
            assert(roots@.subrange(k as int, n as int).drop_first() =~= roots@.subrange(
                k as int + 1,
                n as int,
            ));
        }
        match find(&roots[k], krate.as_str(), &tail, ty) {
            Ok(u) => {
                return Ok(u);
            },
            Err(e) => {
                match e {
                    crate::Error::Location(le) => {
                        if fallback.is_none() && !(matches!(le, LocationError::DocNotFound)) {
                            fallback = Some(le);
                        }
                    },
                    _ => {},
                }
            },
        }
        k += 1;
    }
    proof {
        assert(roots@.subrange(n as int, n as int).len() == 0);
    }
    match fallback {
        Some(fe) => Err(crate::Error::Location(fe)),
        None => Err(crate::Error::Location(LocationError::DocNotFound)),
    }
}

/// Given two roots where only the second contains the crate's directory,
/// resolution succeeds via the second root: the first root is skipped, not
/// fatal, and the second root's own result is returned.
pub proof fn lemma_second_root_wins(r1: DocRoot, r2: DocRoot, segs: Seq<Seq<char>>, kind: ItemType)
    requires
        segs.len() > 0,
        !shas_dir(r1, seq![segs[0]]),
        sresolve_root(r2, segs, kind) is Ok,
    ensures
        sresolve_multi(seq![r1, r2], segs, kind) matches Ok(p) && p.0 == 1 && Ok::<
            _,
            LocationError,
        >(p.1) == sresolve_root(r2, segs, kind),
{
    let rs = seq![r1, r2];
    assert(rs[0] == r1);
    assert(sresolve_root(r1, segs, kind) == Err::<
        (Seq<Seq<char>>, Option<Seq<char>>),
        LocationError,
    >(LocationError::DocNotFound));
    assert(rs.drop_first() =~= seq![r2]);
    assert(seq![r2][0] == r2);
    match sresolve_root(r2, segs, kind) {
        Ok(loc) => {
            assert(sresolve_multi(seq![r2], segs, kind) == Ok::<
                (int, (Seq<Seq<char>>, Option<Seq<char>>)),
                LocationError,
            >((0, loc)));
            assert(sresolve_multi(rs, segs, kind) == Ok::<
                (int, (Seq<Seq<char>>, Option<Seq<char>>)),
                LocationError,
            >((1, loc)));
        },
        Err(_) => {
            assert(false);
        },
    }
}

/// A query whose crate segment is a standard-library crate uses the
/// standard-library probing rule in every root: for a method or an
/// associated constant `c::t::m`, the type segment `t` is never descended
/// into as a module directory — even where the root holds such a directory
/// — and the file is probed beside it, in the crate directory itself.
pub proof fn lemma_std_probing_rule(
    root: DocRoot,
    c: Seq<char>,
    t: Seq<char>,
    m: Seq<char>,
    kind: ItemType,
)
    requires
        is_std_crate_name(c),
        kind == ItemType::Method || kind == ItemType::AssocConst,
        shas_dir(root, seq![c]),
    ensures
        sresolve_root(root, seq![c, t, m], kind) == (match sprobe(root, seq![c], t) {
            None => Err::<(Seq<Seq<char>>, Option<Seq<char>>), LocationError>(
                LocationError::FileNotFound,
            ),
            Some(p) => Ok::<(Seq<Seq<char>>, Option<Seq<char>>), LocationError>(
                (p.1, sitem_anchor(seq![t, m], p.0, kind)),
            ),
        }),
{
    let segs = seq![c, t, m];
    assert(segs[0] == c);
    assert(segs.drop_first() =~= seq![t, m]);
    assert(seq![t, m].len() == 2);
    assert(!is_file_kind(kind)) by {
        assert(forall|k: int|
            0 <= k < file_kind_order().len() ==> file_kind_order()[k] != kind) by {}
    }
    assert(sdescend(root, seq![c], seq![t, m], kind, true) == (seq![c], seq![t, m]));
    assert(seq![t, m][0] == t);
}

} // verus!
