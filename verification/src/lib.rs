//! Decodes a rustdoc search-index artifact into a catalog of fully
//! qualified, typed item references, and resolves one such reference back
//! into the generated HTML file and in-page anchor that documents it.

pub mod decode;
pub mod dir;
pub mod doc;
pub mod json;
pub mod location;
pub mod strutil;

use vstd::prelude::*;

verus! {

/// The generator version the artifact layout was reverse-engineered from.
pub const RUSTDOC_VERSION: &'static str = "rustdoc 1.53.0-nightly (132b4e5d1 2021-04-13)";

/// A failure of record splitting, schema decoding or location resolution.
#[derive(Debug)]
pub enum Error {
    /// Malformed record or query text.
    InvalidFormat(String),
    /// A per-crate decode failure: the crate's name and the cause.
    Decode(String, String),
    /// A resolver miss.
    Location(crate::location::LocationError),
}

/// A record line with its trailing continuation backslash stripped if
/// present, then its trailing comma stripped if present.
pub open spec fn strip_line(l: Seq<char>) -> Seq<char> {
    let l1 = if l.len() > 0 && l.last() == '\\' {
        l.drop_last()
    } else {
        l
    };
    if l1.len() > 0 && l1.last() == ',' {
        l1.drop_last()
    } else {
        l1
    }
}

/// The generator-version-dependent closing lines of the artifact, discarded
/// by literal match.
pub open spec fn is_closing_line_spec(l: Seq<char>) -> bool {
    ||| l == "}');"@
    ||| l == "initSearch(searchIndex);"@
    ||| l == "if (window.initSearch) {window.initSearch(searchIndex)};"@
}

/// Whether a line is one of the artifact's closing lines.
pub fn is_closing_line(l: &str) -> (r: bool)
    ensures
        r == is_closing_line_spec(l@),
{
    strutil::str_eq(l, "}');") || strutil::str_eq(l, "initSearch(searchIndex);") || strutil::str_eq(
        l,
        "if (window.initSearch) {window.initSearch(searchIndex)};",
    )
}

/// What `parse_line` returns on a record line: after stripping, the line is
/// split at its first colon into a quoted crate name and an escaped JSON
/// body; a missing colon or a malformed escape is an InvalidFormat error, a
/// JSON or schema failure is a per-crate decode error carrying the name,
/// and otherwise the decoded crate record is returned under its name.
pub open spec fn parse_line_post(line: Seq<char>, r: Result<(String, doc::Crate), Error>) -> bool {
    let s = strip_line(line);
    let ci = strutil::sfind(s, ':', 0);
    if ci < 0 {
        r matches Err(Error::InvalidFormat(m)) && m@ == s
    } else {
        let namepart = s.subrange(0, ci);
        let body = s.subrange(ci + 1, s.len() as int);
        if namepart.len() < 2 {
            r matches Err(Error::InvalidFormat(m)) && m@ == s
        } else {
            let name = namepart.subrange(1, namepart.len() - 1);
            match json::unescaped(body) {
                None => r matches Err(Error::InvalidFormat(m)) && m@ == body,
                Some(ub) => match json::json_of(ub) {
                    None => r matches Err(Error::Decode(nm, _)) && nm@ == name,
                    Some(j) => if decode::scrate_ok(j) {
                        r matches Ok(p) && p.0@ == name && decode::scrate_matches(p.1, j)
                    } else {
                        r matches Err(Error::Decode(nm, _)) && nm@ == name
                    },
                },
            }
        }
    }
}

/// Parses one crate record line `"name":<escaped json>` (with an optional
/// trailing continuation backslash and comma) into the crate's name and its
/// decoded record.
pub fn parse_line(line: &str) -> (r: Result<(String, doc::Crate), Error>)
    ensures
        parse_line_post(line@, r),
{
    let m0 = line.unicode_len();
    let s1: &str = if m0 > 0 && line.get_char(m0 - 1) == '\\' {
        line.substring_char(0, m0 - 1)
    } else {
        line
    };
    let m1 = s1.unicode_len();
    let stripped: &str = if m1 > 0 && s1.get_char(m1 - 1) == ',' {
        s1.substring_char(0, m1 - 1)
    } else {
        s1
    };
    proof {
        assert(line@.drop_last() =~= line@.subrange(0, line@.len() - 1));
        assert(s1@.drop_last() =~= s1@.subrange(0, s1@.len() - 1));
        assert(stripped@ == strip_line(line@));
    }
    let sn = stripped.unicode_len();
    let ci = match strutil::find_char(stripped, ':') {
        Some(ci) => ci,
        None => {
            return Err(Error::InvalidFormat(stripped.to_owned()));
        },
    };
    let np: &str = stripped.substring_char(0, ci);
    let body: &str = stripped.substring_char(ci + 1, sn);
    let npl = np.unicode_len();
    if npl < 2 {
        return Err(Error::InvalidFormat(stripped.to_owned()));
    }
    let name: String = np.substring_char(1, npl - 1).to_owned();
    proof {
        assert(name@ =~= strip_line(line@).subrange(0, ci as int).subrange(
            1,
            strip_line(line@).subrange(0, ci as int).len() - 1,
        ));
    }
    let ub: String = match json::unescape_str(body) {
        Some(u) => u,
        None => {
            return Err(Error::InvalidFormat(body.to_owned()));
        },
    };
    let j: json::Json = match json::parse_json(ub.as_str()) {
        Ok(j) => j,
        Err(msg) => {
            return Err(Error::Decode(name, msg));
        },
    };
    match decode::decode_crate(&j) {
        Ok(c) => Ok((name, c)),
        Err(msg) => Err(Error::Decode(name, msg)),
    }
}

/// The record lines of an artifact: everything after the fixed preamble
/// line, except the closing lines.
pub open spec fn record_lines(lines: Seq<String>, upto: int) -> Seq<String>
    decreases upto,
{
    if upto <= 1 {
        Seq::empty()
    } else if is_closing_line_spec(lines[upto - 1]@) {
        record_lines(lines, upto - 1)
    } else {
        record_lines(lines, upto - 1).push(lines[upto - 1])
    }
}

/// Splits a whole artifact, given as its lines, into one decode result per
/// record line: the preamble line and the closing lines are discarded, and
/// each remaining line is parsed on its own, so that one malformed record
/// never discards its siblings.
pub fn split_records(lines: &Vec<String>) -> (r: Vec<
    Result<(String, doc::Crate), Error>,
>)
    ensures
        r@.len() == record_lines(lines@, lines@.len() as int).len(),
        forall|m: int|
            0 <= m < r@.len() ==> parse_line_post(
                record_lines(lines@, lines@.len() as int)[m]@,
                #[trigger] r@[m],
            ),
{
    let n = lines.len();
    let mut out: Vec<Result<(String, doc::Crate), Error>> = Vec::new();
    let mut k: usize = 1;
    if n == 0 {
        return out;
    }
    while k < n
        invariant
            1 <= k <= n,
            n == lines@.len(),
            out@.len() == record_lines(lines@, k as int).len(),
            forall|m: int|
                0 <= m < out@.len() ==> parse_line_post(
                    record_lines(lines@, k as int)[m]@,
                    #[trigger] out@[m],
                ),
        decreases n - k,
    {
        if !is_closing_line(lines[k].as_str()) {
            out.push(parse_line(lines[k].as_str()));
        }
        k += 1;
    }
    out
}

} // verus!
