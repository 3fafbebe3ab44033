//! The search-index schema decoder: turns a parsed JSON tree into a
//! `Crate`, accepting any of the three historical encodings of the per-item
//! signature field by structural trial-matching in a fixed order.

use vstd::prelude::*;

use crate::doc::{
    kind_of_code, kind_of_str, parent_of_code, Crate, ItemType, ParentType, ResponseType, Type1_55_0,
    Type1_58_0, Types, Types1_55_0, Types1_58_0, F,
};
use crate::json::Json;
use crate::strutil::str_eq;

verus! {

broadcast use vstd::std_specs::vec::axiom_vec_index_decreases;

// ---------------------------------------------------------------------------
// Shape predicates and decode relations over the JSON tree.
//
// For each piece of the encoding there is an `ok` predicate saying that the
// JSON has the right shape, and a `matches` relation saying that a decoded
// value is the decoding of that JSON. The relations are functional: for one
// JSON tree at most one decoded value matches.
// ---------------------------------------------------------------------------

pub open spec fn is_null(j: Json) -> bool {
    j matches Json::Null
}

pub open spec fn is_num(j: Json) -> bool {
    j matches Json::Num(_)
}

pub open spec fn num_of(j: Json) -> u64 {
    match j {
        Json::Num(u) => u,
        _ => 0,
    }
}

pub open spec fn is_str(j: Json) -> bool {
    j matches Json::Str(_)
}

pub open spec fn str_of(j: Json) -> Seq<char> {
    match j {
        Json::Str(s) => s@,
        _ => Seq::empty(),
    }
}

pub open spec fn is_arr(j: Json) -> bool {
    j matches Json::Arr(_)
}

pub open spec fn arr_of(j: Json) -> Seq<Json> {
    match j {
        Json::Arr(v) => v@,
        _ => Seq::empty(),
    }
}

/// First value in an object member list under the given key, if any.
pub open spec fn slookup(fields: Seq<(String, Json)>, key: Seq<char>) -> Option<Json>
    decreases fields.len(),
{
    if fields.len() == 0 {
        None
    } else if fields[0].0@ == key {
        Some(fields[0].1)
    } else {
        slookup(fields.drop_first(), key)
    }
}

/// A `(name, numeric kind)` pair of the earliest signature encoding.
pub open spec fn spair_ok(j: Json) -> bool {
    &&& is_arr(j)
    &&& arr_of(j).len() == 2
    &&& is_str(arr_of(j)[0])
    &&& is_num(arr_of(j)[1])
    &&& kind_of_code(num_of(arr_of(j)[1])) is Some
}

pub open spec fn spair_matches(p: (String, ItemType), j: Json) -> bool {
    &&& spair_ok(j)
    &&& p.0@ == str_of(arr_of(j)[0])
    &&& Some(p.1) == kind_of_code(num_of(arr_of(j)[1]))
}

pub open spec fn spairs_ok(j: Json) -> bool {
    &&& is_arr(j)
    &&& forall|k: int| 0 <= k < arr_of(j).len() ==> spair_ok(#[trigger] arr_of(j)[k])
}

pub open spec fn spairs_matches(ps: Seq<(String, ItemType)>, j: Json) -> bool {
    &&& spairs_ok(j)
    &&& ps.len() == arr_of(j).len()
    &&& forall|k: int| 0 <= k < ps.len() ==> spair_matches(#[trigger] ps[k], arr_of(j)[k])
}

/// The return part of an earliest-encoding signature: one pair, or a list
/// of pairs; a single pair is tried first.
pub open spec fn sresponse_ok(j: Json) -> bool {
    spair_ok(j) || spairs_ok(j)
}

pub open spec fn sresponse_matches(r: ResponseType, j: Json) -> bool {
    match r {
        ResponseType::Single(p) => spair_matches(p, j),
        ResponseType::Complex(ps) => !spair_ok(j) && spairs_matches(ps@, j),
    }
}

/// A non-null element of the earliest encoding: `[args]` or `[args, ret]`.
pub open spec fn stypes_ok(j: Json) -> bool {
    &&& is_arr(j)
    &&& {
        ||| (arr_of(j).len() == 1 && spairs_ok(arr_of(j)[0]))
        ||| (arr_of(j).len() == 2 && spairs_ok(arr_of(j)[0]) && sresponse_ok(arr_of(j)[1]))
    }
}

pub open spec fn stypes_matches(t: Types, j: Json) -> bool {
    match t {
        Types::OnlyArgs(args) => {
            &&& is_arr(j)
            &&& arr_of(j).len() == 1
            &&& spairs_matches(args@, arr_of(j)[0])
        },
        Types::WithResponse(args, resp) => {
            &&& is_arr(j)
            &&& arr_of(j).len() == 2
            &&& spairs_matches(args@, arr_of(j)[0])
            &&& sresponse_matches(resp, arr_of(j)[1])
        },
    }
}

pub open spec fn sopt_types_ok(j: Json) -> bool {
    is_null(j) || stypes_ok(j)
}

pub open spec fn sopt_types_matches(o: Option<Types>, j: Json) -> bool {
    match o {
        None => is_null(j),
        Some(t) => !is_null(j) && stypes_matches(t, j),
    }
}

/// The whole signature array under the earliest encoding.
pub open spec fn sgen_a_ok(j: Json) -> bool {
    &&& is_arr(j)
    &&& forall|k: int| 0 <= k < arr_of(j).len() ==> sopt_types_ok(#[trigger] arr_of(j)[k])
}

pub open spec fn sgen_a_matches(v: Seq<Option<Types>>, j: Json) -> bool {
    &&& sgen_a_ok(j)
    &&& v.len() == arr_of(j).len()
    &&& forall|k: int| 0 <= k < v.len() ==> sopt_types_matches(#[trigger] v[k], arr_of(j)[k])
}

/// A kind in the two later encodings: a numeric code or a string code.
pub open spec fn skind_ok(j: Json) -> bool {
    ||| (is_num(j) && kind_of_code(num_of(j)) is Some)
    ||| (is_str(j) && kind_of_str(str_of(j)) is Some)
}

pub open spec fn skind_matches(t: ItemType, j: Json) -> bool {
    if is_num(j) {
        Some(t) == kind_of_code(num_of(j))
    } else {
        is_str(j) && Some(t) == kind_of_str(str_of(j))
    }
}

/// A flat list of strings (middle-encoding generic arguments).
pub open spec fn sstrlist_ok(j: Json) -> bool {
    &&& is_arr(j)
    &&& forall|k: int| 0 <= k < arr_of(j).len() ==> is_str(#[trigger] arr_of(j)[k])
}

pub open spec fn sstrlist_matches(v: Seq<String>, j: Json) -> bool {
    &&& sstrlist_ok(j)
    &&& v.len() == arr_of(j).len()
    &&& forall|k: int| 0 <= k < v.len() ==> (#[trigger] v[k])@ == str_of(arr_of(j)[k])
}

/// A middle-encoding type reference: `[name, kind]` or
/// `[name, kind, [generic names]]`.
pub open spec fn stype55_ok(j: Json) -> bool {
    &&& is_arr(j)
    &&& {
        ||| (arr_of(j).len() == 2 && is_str(arr_of(j)[0]) && skind_ok(arr_of(j)[1]))
        ||| (arr_of(j).len() == 3 && is_str(arr_of(j)[0]) && skind_ok(arr_of(j)[1])
            && sstrlist_ok(arr_of(j)[2]))
    }
}

pub open spec fn stype55_matches(t: Type1_55_0, j: Json) -> bool {
    &&& is_arr(j)
    &&& arr_of(j).len() >= 1
    &&& is_str(arr_of(j)[0])
    &&& t.name@ == str_of(arr_of(j)[0])
    &&& arr_of(j).len() >= 2
    &&& skind_matches(t.kind, arr_of(j)[1])
    &&& match t.generics {
        None => arr_of(j).len() == 2,
        Some(g) => arr_of(j).len() == 3 && sstrlist_matches(g@, arr_of(j)[2]),
    }
}

pub open spec fn stype55_list_ok(j: Json) -> bool {
    &&& is_arr(j)
    &&& forall|k: int| 0 <= k < arr_of(j).len() ==> stype55_ok(#[trigger] arr_of(j)[k])
}

pub open spec fn stype55_list_matches(v: Seq<Type1_55_0>, j: Json) -> bool {
    &&& stype55_list_ok(j)
    &&& v.len() == arr_of(j).len()
    &&& forall|k: int| 0 <= k < v.len() ==> stype55_matches(#[trigger] v[k], arr_of(j)[k])
}

/// A non-null element of the middle encoding: `[args]`, or `[args, rets]`
/// with a list of returns tried before a single return.
pub open spec fn stypes55_ok(j: Json) -> bool {
    &&& is_arr(j)
    &&& {
        ||| (arr_of(j).len() == 1 && stype55_list_ok(arr_of(j)[0]))
        ||| (arr_of(j).len() == 2 && stype55_list_ok(arr_of(j)[0]) && (stype55_list_ok(
            arr_of(j)[1],
        ) || stype55_ok(arr_of(j)[1])))
    }
}

pub open spec fn stypes55_matches(t: Types1_55_0, j: Json) -> bool {
    match t {
        Types1_55_0::OnlyArgs(args) => {
            &&& is_arr(j)
            &&& arr_of(j).len() == 1
            &&& stype55_list_matches(args@, arr_of(j)[0])
        },
        Types1_55_0::WithMultiResponse(args, rets) => {
            &&& is_arr(j)
            &&& arr_of(j).len() == 2
            &&& stype55_list_matches(args@, arr_of(j)[0])
            &&& stype55_list_matches(rets@, arr_of(j)[1])
        },
        Types1_55_0::WithResponse(args, ret) => {
            &&& is_arr(j)
            &&& arr_of(j).len() == 2
            &&& stype55_list_matches(args@, arr_of(j)[0])
            &&& !stype55_list_ok(arr_of(j)[1])
            &&& stype55_matches(ret, arr_of(j)[1])
        },
    }
}

pub open spec fn sopt55_ok(j: Json) -> bool {
    is_null(j) || stypes55_ok(j)
}

pub open spec fn sopt55_matches(o: Option<Types1_55_0>, j: Json) -> bool {
    match o {
        None => is_null(j),
        Some(t) => !is_null(j) && stypes55_matches(t, j),
    }
}

/// The whole signature array under the middle encoding.
pub open spec fn sgen_b_ok(j: Json) -> bool {
    &&& is_arr(j)
    &&& forall|k: int| 0 <= k < arr_of(j).len() ==> sopt55_ok(#[trigger] arr_of(j)[k])
}

pub open spec fn sgen_b_matches(v: Seq<Option<Types1_55_0>>, j: Json) -> bool {
    &&& sgen_b_ok(j)
    &&& v.len() == arr_of(j).len()
    &&& forall|k: int| 0 <= k < v.len() ==> sopt55_matches(#[trigger] v[k], arr_of(j)[k])
}

/// A latest-encoding type reference: as the middle encoding, but generic
/// arguments are themselves full type references.
pub open spec fn stype58_ok(j: Json) -> bool
    decreases j,
{
    &&& is_arr(j)
    &&& {
        ||| (arr_of(j).len() == 2 && is_str(arr_of(j)[0]) && skind_ok(arr_of(j)[1]))
        ||| (arr_of(j).len() == 3 && is_str(arr_of(j)[0]) && skind_ok(arr_of(j)[1]) && is_arr(
            arr_of(j)[2],
        ) && (forall|k: int|
            0 <= k < arr_of(arr_of(j)[2]).len() ==> stype58_ok(
                #[trigger] arr_of(arr_of(j)[2])[k],
            )))
    }
}

pub open spec fn stype58_list_ok(j: Json) -> bool {
    &&& is_arr(j)
    &&& forall|k: int| 0 <= k < arr_of(j).len() ==> stype58_ok(#[trigger] arr_of(j)[k])
}

pub open spec fn stype58_matches(t: Type1_58_0, j: Json) -> bool
    decreases t,
{
    &&& is_arr(j)
    &&& arr_of(j).len() >= 2
    &&& is_str(arr_of(j)[0])
    &&& t.name@ == str_of(arr_of(j)[0])
    &&& skind_matches(t.kind, arr_of(j)[1])
    &&& match t.generics {
        None => arr_of(j).len() == 2,
        Some(g) => {
            &&& arr_of(j).len() == 3
            &&& is_arr(arr_of(j)[2])
            &&& g@.len() == arr_of(arr_of(j)[2]).len()
            &&& forall|k: int|
                0 <= k < g@.len() ==> stype58_matches(#[trigger] g@[k], arr_of(arr_of(j)[2])[k])
        },
    }
}

pub open spec fn stype58_list_matches(v: Seq<Type1_58_0>, j: Json) -> bool {
    &&& stype58_list_ok(j)
    &&& v.len() == arr_of(j).len()
    &&& forall|k: int| 0 <= k < v.len() ==> stype58_matches(#[trigger] v[k], arr_of(j)[k])
}

/// A non-null element of the latest encoding.
pub open spec fn stypes58_ok(j: Json) -> bool {
    &&& is_arr(j)
    &&& {
        ||| (arr_of(j).len() == 1 && stype58_list_ok(arr_of(j)[0]))
        ||| (arr_of(j).len() == 2 && stype58_list_ok(arr_of(j)[0]) && (stype58_list_ok(
            arr_of(j)[1],
        ) || stype58_ok(arr_of(j)[1])))
    }
}

pub open spec fn stypes58_matches(t: Types1_58_0, j: Json) -> bool {
    match t {
        Types1_58_0::OnlyArgs(args) => {
            &&& is_arr(j)
            &&& arr_of(j).len() == 1
            &&& stype58_list_matches(args@, arr_of(j)[0])
        },
        Types1_58_0::WithMultiResponse(args, rets) => {
            &&& is_arr(j)
            &&& arr_of(j).len() == 2
            &&& stype58_list_matches(args@, arr_of(j)[0])
            &&& stype58_list_matches(rets@, arr_of(j)[1])
        },
        Types1_58_0::WithResponse(args, ret) => {
            &&& is_arr(j)
            &&& arr_of(j).len() == 2
            &&& stype58_list_matches(args@, arr_of(j)[0])
            &&& !stype58_list_ok(arr_of(j)[1])
            &&& stype58_matches(ret, arr_of(j)[1])
        },
    }
}

pub open spec fn sopt58_ok(j: Json) -> bool {
    is_null(j) || stypes58_ok(j)
}

pub open spec fn sopt58_matches(o: Option<Types1_58_0>, j: Json) -> bool {
    match o {
        None => is_null(j),
        Some(t) => !is_null(j) && stypes58_matches(t, j),
    }
}

/// The whole signature array under the latest encoding.
pub open spec fn sgen_c_ok(j: Json) -> bool {
    &&& is_arr(j)
    &&& forall|k: int| 0 <= k < arr_of(j).len() ==> sopt58_ok(#[trigger] arr_of(j)[k])
}

pub open spec fn sgen_c_matches(v: Seq<Option<Types1_58_0>>, j: Json) -> bool {
    &&& sgen_c_ok(j)
    &&& v.len() == arr_of(j).len()
    &&& forall|k: int| 0 <= k < v.len() ==> sopt58_matches(#[trigger] v[k], arr_of(j)[k])
}

/// The signature field decodes if any of the three generations accepts it;
/// the generations are tried in fixed order, earliest first.
pub open spec fn sf_ok(j: Json) -> bool {
    sgen_a_ok(j) || sgen_b_ok(j) || sgen_c_ok(j)
}

pub open spec fn sf_matches(f: F, j: Json) -> bool {
    match f {
        F::V1_53_0(v) => sgen_a_matches(v@, j),
        F::V1_55_0(v) => !sgen_a_ok(j) && sgen_b_matches(v@, j),
        F::V1_58_0(v) => !sgen_a_ok(j) && !sgen_b_ok(j) && sgen_c_matches(v@, j),
    }
}

/// A parent-table entry: `[numeric parent kind, name]`.
pub open spec fn sparent_ok(j: Json) -> bool {
    &&& is_arr(j)
    &&& arr_of(j).len() == 2
    &&& is_num(arr_of(j)[0])
    &&& parent_of_code(num_of(arr_of(j)[0])) is Some
    &&& is_str(arr_of(j)[1])
}

pub open spec fn sparent_matches(p: (ParentType, String), j: Json) -> bool {
    &&& sparent_ok(j)
    &&& Some(p.0) == parent_of_code(num_of(arr_of(j)[0]))
    &&& p.1@ == str_of(arr_of(j)[1])
}

pub open spec fn sparents_ok(j: Json) -> bool {
    &&& is_arr(j)
    &&& forall|k: int| 0 <= k < arr_of(j).len() ==> sparent_ok(#[trigger] arr_of(j)[k])
}

pub open spec fn sparents_matches(v: Seq<(ParentType, String)>, j: Json) -> bool {
    &&& sparents_ok(j)
    &&& v.len() == arr_of(j).len()
    &&& forall|k: int| 0 <= k < v.len() ==> sparent_matches(#[trigger] v[k], arr_of(j)[k])
}

/// The per-item kind array: numeric codes only.
pub open spec fn skinds_ok(j: Json) -> bool {
    &&& is_arr(j)
    &&& forall|k: int|
        0 <= k < arr_of(j).len() ==> is_num(#[trigger] arr_of(j)[k]) && kind_of_code(
            num_of(arr_of(j)[k]),
        ) is Some
}

pub open spec fn skinds_matches(v: Seq<ItemType>, j: Json) -> bool {
    &&& skinds_ok(j)
    &&& v.len() == arr_of(j).len()
    &&& forall|k: int| 0 <= k < v.len() ==> Some(#[trigger] v[k]) == kind_of_code(num_of(arr_of(j)[k]))
}

/// The parent-index array: numbers that fit the machine's index type.
pub open spec fn sidxs_ok(j: Json) -> bool {
    &&& is_arr(j)
    &&& forall|k: int|
        0 <= k < arr_of(j).len() ==> is_num(#[trigger] arr_of(j)[k]) && num_of(arr_of(j)[k])
            <= usize::MAX
}

pub open spec fn sidxs_matches(v: Seq<usize>, j: Json) -> bool {
    &&& sidxs_ok(j)
    &&& v.len() == arr_of(j).len()
    &&& forall|k: int| 0 <= k < v.len() ==> (#[trigger] v[k]) as u64 == num_of(arr_of(j)[k])
}

/// A whole crate record: an object carrying all of `p`, `t`, `n`, `f`,
/// `q`, `d`, `i` with well-formed values; other members are ignored.
pub open spec fn scrate_ok(j: Json) -> bool {
    match j {
        Json::Obj(fields) => {
            &&& slookup(fields@, "p"@) matches Some(pj) && sparents_ok(pj)
            &&& slookup(fields@, "t"@) matches Some(tj) && skinds_ok(tj)
            &&& slookup(fields@, "n"@) matches Some(nj) && sstrlist_ok(nj)
            &&& slookup(fields@, "f"@) matches Some(fj) && sf_ok(fj)
            &&& slookup(fields@, "q"@) matches Some(qj) && sstrlist_ok(qj)
            &&& slookup(fields@, "d"@) matches Some(dj) && sstrlist_ok(dj)
            &&& slookup(fields@, "i"@) matches Some(ij) && sidxs_ok(ij)
        },
        _ => false,
    }
}

pub open spec fn scrate_matches(c: Crate, j: Json) -> bool {
    match j {
        Json::Obj(fields) => {
            &&& slookup(fields@, "p"@) matches Some(pj) && sparents_matches(c.p@, pj)
            &&& slookup(fields@, "t"@) matches Some(tj) && skinds_matches(c.t@, tj)
            &&& slookup(fields@, "n"@) matches Some(nj) && sstrlist_matches(c.n@, nj)
            &&& slookup(fields@, "f"@) matches Some(fj) && sf_matches(c.f, fj)
            &&& slookup(fields@, "q"@) matches Some(qj) && sstrlist_matches(c.q@, qj)
            &&& slookup(fields@, "d"@) matches Some(dj) && sstrlist_matches(c.d@, dj)
            &&& slookup(fields@, "i"@) matches Some(ij) && sidxs_matches(c.i@, ij)
        },
        _ => false,
    }
}

// ---------------------------------------------------------------------------
// Executable decoders, each proved against its relation above.
// ---------------------------------------------------------------------------

/// First value under the given key in an object's member list.
pub fn lookup<'a>(fields: &'a Vec<(String, Json)>, key: &str) -> (r: Option<&'a Json>)
    ensures
        match r {
            Some(x) => slookup(fields@, key@) == Some(*x),
            None => slookup(fields@, key@) is None,
        },
{
    let n = fields.len();
    proof {
        assert(fields@.subrange(0, n as int) =~= fields@);
    }
    let mut k: usize = 0;
    while k < n
        invariant
            n == fields@.len(),
            k <= n,
            slookup(fields@, key@) == slookup(fields@.subrange(k as int, n as int), key@),
        decreases n - k,
    {
        proof {
            assert(fields@.subrange(k as int, n as int)[0] == fields@[k as int]);
        }
        if str_eq(fields[k].0.as_str(), key) {
            return Some(&fields[k].1);
        }
        proof {
            assert(fields@.subrange(k as int, n as int).drop_first() =~= fields@.subrange(
                k as int + 1,
                n as int,
            ));
        }
        k += 1;
    }
    None
}

pub fn decode_pair(j: &Json) -> (r: Option<(String, ItemType)>)
    ensures
        (r is Some) == spair_ok(*j),
        r matches Some(p) ==> spair_matches(p, *j),
{
    match j {
        Json::Arr(v) => {
            if v.len() != 2 {
                return None;
            }
            let name = match &v[0] {
                Json::Str(s) => s.clone(),
                _ => {
                    return None;
                },
            };
            let code = match &v[1] {
                Json::Num(u) => *u,
                _ => {
                    return None;
                },
            };
            match ItemType::from_code(code) {
                Some(t) => Some((name, t)),
                None => None,
            }
        },
        _ => None,
    }
}

pub fn decode_pairs(j: &Json) -> (r: Option<Vec<(String, ItemType)>>)
    ensures
        (r is Some) == spairs_ok(*j),
        r matches Some(v) ==> spairs_matches(v@, *j),
{
    match j {
        Json::Arr(elems) => {
            let n = elems.len();
            let mut out: Vec<(String, ItemType)> = Vec::new();
            let mut k: usize = 0;
            while k < n
                invariant
                    arr_of(*j) == elems@,
                    is_arr(*j),
                    n == elems@.len(),
                    k <= n,
                    out@.len() == k,
                    forall|m: int| 0 <= m < k ==> spair_ok(#[trigger] elems@[m]),
                    forall|m: int| 0 <= m < k ==> spair_matches(#[trigger] out@[m], elems@[m]),
                decreases n - k,
            {
                match decode_pair(&elems[k]) {
                    Some(p) => out.push(p),
                    None => {
                        return None;
                    },
                }
                k += 1;
            }
            Some(out)
        },
        _ => None,
    }
}

pub fn decode_response(j: &Json) -> (r: Option<ResponseType>)
    ensures
        (r is Some) == sresponse_ok(*j),
        r matches Some(x) ==> sresponse_matches(x, *j),
{
    match decode_pair(j) {
        Some(p) => Some(ResponseType::Single(p)),
        None => match decode_pairs(j) {
            Some(ps) => Some(ResponseType::Complex(ps)),
            None => None,
        },
    }
}

pub fn decode_types(j: &Json) -> (r: Option<Types>)
    ensures
        (r is Some) == stypes_ok(*j),
        r matches Some(t) ==> stypes_matches(t, *j),
{
    match j {
        Json::Arr(v) => {
            if v.len() == 1 {
                match decode_pairs(&v[0]) {
                    Some(args) => Some(Types::OnlyArgs(args)),
                    None => None,
                }
            } else if v.len() == 2 {
                let args = match decode_pairs(&v[0]) {
                    Some(a) => a,
                    None => {
                        return None;
                    },
                };
                match decode_response(&v[1]) {
                    Some(resp) => Some(Types::WithResponse(args, resp)),
                    None => None,
                }
            } else {
                None
            }
        },
        _ => None,
    }
}

pub fn decode_gen_a(j: &Json) -> (r: Option<Vec<Option<Types>>>)
    ensures
        (r is Some) == sgen_a_ok(*j),
        r matches Some(v) ==> sgen_a_matches(v@, *j),
{
    match j {
        Json::Arr(elems) => {
            let n = elems.len();
            let mut out: Vec<Option<Types>> = Vec::new();
            let mut k: usize = 0;
            while k < n
                invariant
                    arr_of(*j) == elems@,
                    is_arr(*j),
                    n == elems@.len(),
                    k <= n,
                    out@.len() == k,
                    forall|m: int| 0 <= m < k ==> sopt_types_ok(#[trigger] elems@[m]),
                    forall|m: int| 0 <= m < k ==> sopt_types_matches(#[trigger] out@[m], elems@[m]),
                decreases n - k,
            {
                match &elems[k] {
                    Json::Null => out.push(None),
                    _ => match decode_types(&elems[k]) {
                        Some(t) => out.push(Some(t)),
                        None => {
                            return None;
                        },
                    },
                }
                k += 1;
            }
            Some(out)
        },
        _ => None,
    }
}

pub fn decode_kind(j: &Json) -> (r: Option<ItemType>)
    ensures
        (r is Some) == skind_ok(*j),
        r matches Some(t) ==> skind_matches(t, *j),
{
    match j {
        Json::Num(u) => ItemType::from_code(*u),
        Json::Str(s) => match ItemType::from_str(s.as_str()) {
            Ok(t) => Some(t),
            Err(_) => None,
        },
        _ => None,
    }
}

pub fn decode_strlist(j: &Json) -> (r: Option<Vec<String>>)
    ensures
        (r is Some) == sstrlist_ok(*j),
        r matches Some(v) ==> sstrlist_matches(v@, *j),
{
    match j {
        Json::Arr(elems) => {
            let n = elems.len();
            let mut out: Vec<String> = Vec::new();
            let mut k: usize = 0;
            while k < n
                invariant
                    arr_of(*j) == elems@,
                    is_arr(*j),
                    n == elems@.len(),
                    k <= n,
                    out@.len() == k,
                    forall|m: int| 0 <= m < k ==> is_str(elems@[m]),
                    forall|m: int| 0 <= m < k ==> (#[trigger] out@[m])@ == str_of(elems@[m]),
                decreases n - k,
            {
                match &elems[k] {
                    Json::Str(s) => out.push(s.clone()),
                    _ => {
                        return None;
                    },
                }
                k += 1;
            }
            Some(out)
        },
        _ => None,
    }
}

pub fn decode_type55(j: &Json) -> (r: Option<Type1_55_0>)
    ensures
        (r is Some) == stype55_ok(*j),
        r matches Some(t) ==> stype55_matches(t, *j),
{
    match j {
        Json::Arr(v) => {
            if v.len() != 2 && v.len() != 3 {
                return None;
            }
            let name = match &v[0] {
                Json::Str(s) => s.clone(),
                _ => {
                    return None;
                },
            };
            let kind = match decode_kind(&v[1]) {
                Some(t) => t,
                None => {
                    return None;
                },
            };
            if v.len() == 2 {
                Some(Type1_55_0 { name, generics: None, kind })
            } else {
                match decode_strlist(&v[2]) {
                    Some(g) => Some(Type1_55_0 { name, generics: Some(g), kind }),
                    None => None,
                }
            }
        },
        _ => None,
    }
}

pub fn decode_type55_list(j: &Json) -> (r: Option<Vec<Type1_55_0>>)
    ensures
        (r is Some) == stype55_list_ok(*j),
        r matches Some(v) ==> stype55_list_matches(v@, *j),
{
    match j {
        Json::Arr(elems) => {
            let n = elems.len();
            let mut out: Vec<Type1_55_0> = Vec::new();
            let mut k: usize = 0;
            while k < n
                invariant
                    arr_of(*j) == elems@,
                    is_arr(*j),
                    n == elems@.len(),
                    k <= n,
                    out@.len() == k,
                    forall|m: int| 0 <= m < k ==> stype55_ok(#[trigger] elems@[m]),
                    forall|m: int| 0 <= m < k ==> stype55_matches(#[trigger] out@[m], elems@[m]),
                decreases n - k,
            {
                match decode_type55(&elems[k]) {
                    Some(t) => out.push(t),
                    None => {
                        return None;
                    },
                }
                k += 1;
            }
            Some(out)
        },
        _ => None,
    }
}

pub fn decode_types55(j: &Json) -> (r: Option<Types1_55_0>)
    ensures
        (r is Some) == stypes55_ok(*j),
        r matches Some(t) ==> stypes55_matches(t, *j),
{
    match j {
        Json::Arr(v) => {
            if v.len() == 1 {
                match decode_type55_list(&v[0]) {
                    Some(args) => Some(Types1_55_0::OnlyArgs(args)),
                    None => None,
                }
            } else if v.len() == 2 {
                let args = match decode_type55_list(&v[0]) {
                    Some(a) => a,
                    None => {
                        return None;
                    },
                };
                if let Some(rets) = decode_type55_list(&v[1]) {
                    return Some(Types1_55_0::WithMultiResponse(args, rets));
                }
                match decode_type55(&v[1]) {
                    Some(ret) => Some(Types1_55_0::WithResponse(args, ret)),
                    None => None,
                }
            } else {
                None
            }
        },
        _ => None,
    }
}

pub fn decode_gen_b(j: &Json) -> (r: Option<Vec<Option<Types1_55_0>>>)
    ensures
        (r is Some) == sgen_b_ok(*j),
        r matches Some(v) ==> sgen_b_matches(v@, *j),
{
    match j {
        Json::Arr(elems) => {
            let n = elems.len();
            let mut out: Vec<Option<Types1_55_0>> = Vec::new();
            let mut k: usize = 0;
            while k < n
                invariant
                    arr_of(*j) == elems@,
                    is_arr(*j),
                    n == elems@.len(),
                    k <= n,
                    out@.len() == k,
                    forall|m: int| 0 <= m < k ==> sopt55_ok(#[trigger] elems@[m]),
                    forall|m: int| 0 <= m < k ==> sopt55_matches(#[trigger] out@[m], elems@[m]),
                decreases n - k,
            {
                match &elems[k] {
                    Json::Null => out.push(None),
                    _ => match decode_types55(&elems[k]) {
                        Some(t) => out.push(Some(t)),
                        None => {
                            return None;
                        },
                    },
                }
                k += 1;
            }
            Some(out)
        },
        _ => None,
    }
}

pub fn decode_type58(j: &Json) -> (r: Option<Type1_58_0>)
    ensures
        (r is Some) == stype58_ok(*j),
        r matches Some(t) ==> stype58_matches(t, *j),
    decreases *j,
{
    match j {
        Json::Arr(v) => {
            if v.len() != 2 && v.len() != 3 {
                return None;
            }
            let name = match &v[0] {
                Json::Str(s) => s.clone(),
                _ => {
                    return None;
                },
            };
            let kind = match decode_kind(&v[1]) {
                Some(t) => t,
                None => {
                    return None;
                },
            };
            if v.len() == 2 {
                Some(Type1_58_0 { name, generics: None, kind })
            } else {
                match decode_type58_list(&v[2]) {
                    Some(g) => Some(Type1_58_0 { name, generics: Some(g), kind }),
                    None => None,
                }
            }
        },
        _ => None,
    }
}

pub fn decode_type58_list(j: &Json) -> (r: Option<Vec<Type1_58_0>>)
    ensures
        (r is Some) == stype58_list_ok(*j),
        r matches Some(v) ==> stype58_list_matches(v@, *j),
    decreases *j,
{
    match j {
        Json::Arr(elems) => {
            let n = elems.len();
            let mut out: Vec<Type1_58_0> = Vec::new();
            let mut k: usize = 0;
            while k < n
                invariant
                    arr_of(*j) == elems@,
                    is_arr(*j),
                    n == elems@.len(),
                    k <= n,
                    out@.len() == k,
                    forall|m: int| 0 <= m < k ==> stype58_ok(#[trigger] elems@[m]),
                    forall|m: int| 0 <= m < k ==> stype58_matches(#[trigger] out@[m], elems@[m]),
                decreases n - k,
            {
                match decode_type58(&elems[k]) {
                    Some(t) => out.push(t),
                    None => {
                        return None;
                    },
                }
                k += 1;
            }
            Some(out)
        },
        _ => None,
    }
}

pub fn decode_types58(j: &Json) -> (r: Option<Types1_58_0>)
    ensures
        (r is Some) == stypes58_ok(*j),
        r matches Some(t) ==> stypes58_matches(t, *j),
{
    match j {
        Json::Arr(v) => {
            if v.len() == 1 {
                match decode_type58_list(&v[0]) {
                    Some(args) => Some(Types1_58_0::OnlyArgs(args)),
                    None => None,
                }
            } else if v.len() == 2 {
                let args = match decode_type58_list(&v[0]) {
                    Some(a) => a,
                    None => {
                        return None;
                    },
                };
                if let Some(rets) = decode_type58_list(&v[1]) {
                    return Some(Types1_58_0::WithMultiResponse(args, rets));
                }
                match decode_type58(&v[1]) {
                    Some(ret) => Some(Types1_58_0::WithResponse(args, ret)),
                    None => None,
                }
            } else {
                None
            }
        },
        _ => None,
    }
}

pub fn decode_gen_c(j: &Json) -> (r: Option<Vec<Option<Types1_58_0>>>)
    ensures
        (r is Some) == sgen_c_ok(*j),
        r matches Some(v) ==> sgen_c_matches(v@, *j),
{
    match j {
        Json::Arr(elems) => {
            let n = elems.len();
            let mut out: Vec<Option<Types1_58_0>> = Vec::new();
            let mut k: usize = 0;
            while k < n
                invariant
                    arr_of(*j) == elems@,
                    is_arr(*j),
                    n == elems@.len(),
                    k <= n,
                    out@.len() == k,
                    forall|m: int| 0 <= m < k ==> sopt58_ok(#[trigger] elems@[m]),
                    forall|m: int| 0 <= m < k ==> sopt58_matches(#[trigger] out@[m], elems@[m]),
                decreases n - k,
            {
                match &elems[k] {
                    Json::Null => out.push(None),
                    _ => match decode_types58(&elems[k]) {
                        Some(t) => out.push(Some(t)),
                        None => {
                            return None;
                        },
                    },
                }
                k += 1;
            }
            Some(out)
        },
        _ => None,
    }
}

/// Decodes the signature field, trying the three generations in fixed
/// order, earliest first.
pub fn decode_f(j: &Json) -> (r: Option<F>)
    ensures
        (r is Some) == sf_ok(*j),
        r matches Some(f) ==> sf_matches(f, *j),
{
    if let Some(v) = decode_gen_a(j) {
        return Some(F::V1_53_0(v));
    }
    if let Some(v) = decode_gen_b(j) {
        return Some(F::V1_55_0(v));
    }
    if let Some(v) = decode_gen_c(j) {
        return Some(F::V1_58_0(v));
    }
    None
}

pub fn decode_parent(j: &Json) -> (r: Option<(ParentType, String)>)
    ensures
        (r is Some) == sparent_ok(*j),
        r matches Some(p) ==> sparent_matches(p, *j),
{
    match j {
        Json::Arr(v) => {
            if v.len() != 2 {
                return None;
            }
            let code = match &v[0] {
                Json::Num(u) => *u,
                _ => {
                    return None;
                },
            };
            let name = match &v[1] {
                Json::Str(s) => s.clone(),
                _ => {
                    return None;
                },
            };
            match ParentType::from_code(code) {
                Some(t) => Some((t, name)),
                None => None,
            }
        },
        _ => None,
    }
}

pub fn decode_parents(j: &Json) -> (r: Option<Vec<(ParentType, String)>>)
    ensures
        (r is Some) == sparents_ok(*j),
        r matches Some(v) ==> sparents_matches(v@, *j),
{
    match j {
        Json::Arr(elems) => {
            let n = elems.len();
            let mut out: Vec<(ParentType, String)> = Vec::new();
            let mut k: usize = 0;
            while k < n
                invariant
                    arr_of(*j) == elems@,
                    is_arr(*j),
                    n == elems@.len(),
                    k <= n,
                    out@.len() == k,
                    forall|m: int| 0 <= m < k ==> sparent_ok(#[trigger] elems@[m]),
                    forall|m: int| 0 <= m < k ==> sparent_matches(#[trigger] out@[m], elems@[m]),
                decreases n - k,
            {
                match decode_parent(&elems[k]) {
                    Some(p) => out.push(p),
                    None => {
                        return None;
                    },
                }
                k += 1;
            }
            Some(out)
        },
        _ => None,
    }
}

pub fn decode_kinds(j: &Json) -> (r: Option<Vec<ItemType>>)
    ensures
        (r is Some) == skinds_ok(*j),
        r matches Some(v) ==> skinds_matches(v@, *j),
{
    match j {
        Json::Arr(elems) => {
            let n = elems.len();
            let mut out: Vec<ItemType> = Vec::new();
            let mut k: usize = 0;
            while k < n
                invariant
                    arr_of(*j) == elems@,
                    is_arr(*j),
                    n == elems@.len(),
                    k <= n,
                    out@.len() == k,
                    forall|m: int|
                        0 <= m < k ==> is_num(#[trigger] elems@[m]) && kind_of_code(
                            num_of(elems@[m]),
                        ) is Some,
                    forall|m: int|
                        0 <= m < k ==> Some(#[trigger] out@[m]) == kind_of_code(num_of(elems@[m])),
                decreases n - k,
            {
                match &elems[k] {
                    Json::Num(u) => match ItemType::from_code(*u) {
                        Some(t) => out.push(t),
                        None => {
                            return None;
                        },
                    },
                    _ => {
                        return None;
                    },
                }
                k += 1;
            }
            Some(out)
        },
        _ => None,
    }
}

pub fn decode_idxs(j: &Json) -> (r: Option<Vec<usize>>)
    ensures
        (r is Some) == sidxs_ok(*j),
        r matches Some(v) ==> sidxs_matches(v@, *j),
{
    match j {
        Json::Arr(elems) => {
            let n = elems.len();
            let mut out: Vec<usize> = Vec::new();
            let mut k: usize = 0;
            while k < n
                invariant
                    arr_of(*j) == elems@,
                    is_arr(*j),
                    n == elems@.len(),
                    k <= n,
                    out@.len() == k,
                    forall|m: int|
                        0 <= m < k ==> is_num(#[trigger] elems@[m]) && num_of(elems@[m])
                            <= usize::MAX,
                    forall|m: int| 0 <= m < k ==> (#[trigger] out@[m]) as u64 == num_of(elems@[m]),
                decreases n - k,
            {
                match &elems[k] {
                    Json::Num(u) => {
                        if *u > usize::MAX as u64 {
                            return None;
                        }
                        out.push(*u as usize);
                    },
                    _ => {
                        return None;
                    },
                }
                k += 1;
            }
            Some(out)
        },
        _ => None,
    }
}

/// Decodes one crate record from its parsed JSON body.
pub fn decode_crate(j: &Json) -> (r: Result<Crate, String>)
    ensures
        (r is Ok) == scrate_ok(*j),
        r matches Ok(c) ==> scrate_matches(c, *j),
{
    let fields = match j {
        Json::Obj(fields) => fields,
        _ => {
            return Err(String::from_str("crate record is not an object"));
        },
    };
    let p = match lookup(fields, "p") {
        Some(x) => match decode_parents(x) {
            Some(v) => v,
            None => {
                return Err(String::from_str("malformed parent table"));
            },
        },
        None => {
            return Err(String::from_str("missing parent table"));
        },
    };
    let t = match lookup(fields, "t") {
        Some(x) => match decode_kinds(x) {
            Some(v) => v,
            None => {
                return Err(String::from_str("malformed item kinds"));
            },
        },
        None => {
            return Err(String::from_str("missing item kinds"));
        },
    };
    let n = match lookup(fields, "n") {
        Some(x) => match decode_strlist(x) {
            Some(v) => v,
            None => {
                return Err(String::from_str("malformed item names"));
            },
        },
        None => {
            return Err(String::from_str("missing item names"));
        },
    };
    let f = match lookup(fields, "f") {
        Some(x) => match decode_f(x) {
            Some(v) => v,
            None => {
                return Err(String::from_str("unrecognized signature encoding"));
            },
        },
        None => {
            return Err(String::from_str("missing signatures"));
        },
    };
    let q = match lookup(fields, "q") {
        Some(x) => match decode_strlist(x) {
            Some(v) => v,
            None => {
                return Err(String::from_str("malformed qualifying paths"));
            },
        },
        None => {
            return Err(String::from_str("missing qualifying paths"));
        },
    };
    let d = match lookup(fields, "d") {
        Some(x) => match decode_strlist(x) {
            Some(v) => v,
            None => {
                return Err(String::from_str("malformed summaries"));
            },
        },
        None => {
            return Err(String::from_str("missing summaries"));
        },
    };
    let i = match lookup(fields, "i") {
        Some(x) => match decode_idxs(x) {
            Some(v) => v,
            None => {
                return Err(String::from_str("malformed parent indices"));
            },
        },
        None => {
            return Err(String::from_str("missing parent indices"));
        },
    };
    Ok(Crate { p, t, n, f, q, d, i })
}

} // verus!
