//! Dependency-manifest extraction: the text the external build system
//! generates — one dependency or search-path instruction per line — is parsed
//! into an ordered, deduplicated sequence of link directives, with relative
//! search paths rewritten against the build-output directory. A strictness
//! flag decides whether an unparseable line is skipped or fatal.
//!
//! The grammar, owned by the external build system, is small: a line is
//! trimmed, and an empty line carries nothing; `-l<name>` links the named
//! library dynamically; `-L<path>` adds a library search path; a path ending
//! in `.a` names a static archive, which contributes the search path of its
//! directory and a static link of its stem (the file name without the `lib`
//! prefix and the `.a` suffix). Anything else is unparseable.

use vstd::prelude::*;

use crate::text::{
    ends_with, spec_ends_with, spec_starts_with, spec_trim, starts_with, str_eq, trim,
};

verus! {

/// Whether a library is linked from a static archive or dynamically.
#[derive(Clone, Copy, PartialEq, Eq, Structural, Debug)]
pub enum LinkKind {
    Static,
    Dynamic,
}

/// One normalized link instruction: search a directory for libraries, or
/// link against a named library.
#[derive(Debug)]
pub enum LinkDirective {
    SearchPath { path: String },
    LinkLibrary { name: String, kind: LinkKind },
}

/// The mathematical value of a link directive.
pub enum DirectiveView {
    SearchPath { path: Seq<char> },
    LinkLibrary { name: Seq<char>, kind: LinkKind },
}

impl View for LinkDirective {
    type V = DirectiveView;

    open spec fn view(&self) -> DirectiveView {
        match self {
            LinkDirective::SearchPath { path } => DirectiveView::SearchPath { path: path@ },
            LinkDirective::LinkLibrary { name, kind } => DirectiveView::LinkLibrary {
                name: name@,
                kind: *kind,
            },
        }
    }
}

impl DeepView for LinkDirective {
    type V = DirectiveView;

    open spec fn deep_view(&self) -> DirectiveView {
        self.view()
    }
}

impl Clone for LinkDirective {
    fn clone(&self) -> (r: Self)
        ensures
            r@ == self@,
    {
        match self {
            LinkDirective::SearchPath { path } => LinkDirective::SearchPath {
                path: path.clone(),
            },
            LinkDirective::LinkLibrary { name, kind } => LinkDirective::LinkLibrary {
                name: name.clone(),
                kind: *kind,
            },
        }
    }
}

/// Structural equality of two directives.
pub fn directive_eq(a: &LinkDirective, b: &LinkDirective) -> (r: bool)
    ensures
        r == (a@ == b@),
{
    match (a, b) {
        (LinkDirective::SearchPath { path: p1 }, LinkDirective::SearchPath { path: p2 }) => str_eq(
            p1.as_str(),
            p2.as_str(),
        ),
        (
            LinkDirective::LinkLibrary { name: n1, kind: k1 },
            LinkDirective::LinkLibrary { name: n2, kind: k2 },
        ) => str_eq(n1.as_str(), n2.as_str()) && *k1 == *k2,
        _ => false,
    }
}

// ------------------------------------------------------------------
// Splitting the manifest into lines.
// ------------------------------------------------------------------
/// The index of the first newline in `s`, or `s.len()` when there is none.
pub open spec fn spec_first_newline(s: Seq<char>) -> int
    decreases s.len(),
{
    if s.len() == 0 {
        0
    } else if s[0] == '\n' {
        0
    } else {
        1 + spec_first_newline(s.skip(1))
    }
}

pub proof fn lemma_first_newline_props(s: Seq<char>)
    ensures
        0 <= spec_first_newline(s) <= s.len(),
        forall|j: int| 0 <= j < spec_first_newline(s) ==> s[j] != '\n',
        spec_first_newline(s) < s.len() ==> s[spec_first_newline(s)] == '\n',
    decreases s.len(),
{
    if s.len() > 0 && s[0] != '\n' {
        lemma_first_newline_props(s.skip(1));
        assert forall|j: int| 0 <= j < spec_first_newline(s) implies s[j] != '\n' by {
            if j > 0 {
                assert(s.skip(1)[j - 1] == s[j]);
            }
        }
        if spec_first_newline(s) < s.len() {
            assert(s.skip(1)[spec_first_newline(s) - 1] == s[spec_first_newline(s)]);
        }
    }
}

/// The lines of `s`, split at every newline; a trailing newline yields a
/// final empty line, and the empty text is one empty line.
pub open spec fn spec_lines(s: Seq<char>) -> Seq<Seq<char>>
    decreases s.len(),
    via spec_lines_decreases
{
    let k = spec_first_newline(s);
    if k >= s.len() {
        seq![s]
    } else {
        seq![s.take(k)] + spec_lines(s.skip(k + 1))
    }
}

#[via_fn]
proof fn spec_lines_decreases(s: Seq<char>) {
    lemma_first_newline_props(s);
}

proof fn lemma_first_newline_is(s: Seq<char>, m: int)
    requires
        0 <= m <= s.len(),
        forall|j: int| 0 <= j < m ==> s[j] != '\n',
        m < s.len() ==> s[m] == '\n',
    ensures
        spec_first_newline(s) == m,
    decreases m,
{
    if m == 0 {
    } else {
        lemma_first_newline_is(s.skip(1), m - 1);
    }
}

/// Splits the manifest text into its lines.
pub fn split_lines(s: &str) -> (r: Vec<String>)
    ensures
        r.deep_view() == spec_lines(s@),
{
    let n = s.unicode_len();
    let mut out: Vec<String> = Vec::new();
    let mut pos: usize = 0;
    proof {
        assert(s@.skip(0) =~= s@);
        assert(out.deep_view() =~= Seq::<Seq<char>>::empty());
        assert(out.deep_view() + spec_lines(s@) =~= spec_lines(s@));
    }
    loop
        invariant_except_break
            n == s@.len(),
            pos <= n,
            spec_lines(s@) == out.deep_view() + spec_lines(s@.skip(pos as int)),
        ensures
            out.deep_view() == spec_lines(s@),
        decreases n - pos,
    {
        let mut k: usize = pos;
        while k < n && s.get_char(k) != '\n'
            invariant
                n == s@.len(),
                pos <= k <= n,
                forall|j: int| pos <= j < k ==> s@[j] != '\n',
            decreases n - k,
        {
            k = k + 1;
        }
        let piece = s.substring_char(pos, k).to_owned();
        let ghost prev_dv = out.deep_view();
        out.push(piece);
        proof {
            let t = s@.skip(pos as int);
            assert forall|j: int| 0 <= j < t.len() && j < k - pos implies t[j] != '\n' by {
                assert(t[j] == s@[pos + j]);
            }
            if k < n {
                assert(t[k - pos] == s@[k as int]);
            }
            lemma_first_newline_is(t, k - pos);
            assert forall|j: int| 0 <= j < out@.len() implies out.deep_view()[j] == prev_dv.push(
                piece@,
            )[j] by {
                assert(out.deep_view()[j] == out@[j]@);
            }
            assert(out.deep_view() =~= prev_dv.push(piece@));
            assert(piece@ =~= t.take(k - pos));
        }
        if k == n {
            proof {
                let t = s@.skip(pos as int);
                assert(spec_lines(t) == seq![t]);
                assert(t.take(k - pos) =~= t);
                assert(out.deep_view() =~= prev_dv + seq![t]);
                assert(out.deep_view() =~= spec_lines(s@));
            }
            break ;
        }
        proof {
            let t = s@.skip(pos as int);
            assert(spec_lines(t) == seq![t.take(k - pos)] + spec_lines(t.skip(k - pos + 1)));
            assert(t.skip(k - pos + 1) =~= s@.skip(k + 1));
            assert(out.deep_view() + spec_lines(s@.skip(k + 1)) =~= (prev_dv + seq![
                t.take(k - pos),
            ]) + spec_lines(t.skip(k - pos + 1)));
            assert((prev_dv + seq![t.take(k - pos)]) + spec_lines(t.skip(k - pos + 1)) =~= prev_dv
                + (seq![t.take(k - pos)] + spec_lines(t.skip(k - pos + 1))));
        }
        pos = k + 1;
    }
    out
}

// ------------------------------------------------------------------
// Parsing one line.
// ------------------------------------------------------------------
/// `p` itself when absolute, else `p` under the build-output directory.
pub open spec fn spec_resolve_path(build_dir: Seq<char>, p: Seq<char>) -> Seq<char> {
    if p.len() > 0 && p[0] == '/' {
        p
    } else {
        build_dir + "/"@ + p
    }
}

pub fn resolve_path(build_dir: &str, p: &str) -> (r: String)
    ensures
        r@ == spec_resolve_path(build_dir@, p@),
{
    let n = p.unicode_len();
    if n > 0 && p.get_char(0) == '/' {
        p.to_owned()
    } else {
        let r = crate::text::concat3(build_dir, "/", p);
        proof {
            assert(r@ =~= spec_resolve_path(build_dir@, p@));
        }
        r
    }
}

/// The index of the last `/` in `s`, or `-1` when there is none.
pub open spec fn spec_last_slash(s: Seq<char>) -> int
    decreases s.len(),
{
    if s.len() == 0 {
        -1
    } else if s.last() == '/' {
        s.len() - 1
    } else {
        spec_last_slash(s.drop_last())
    }
}

proof fn lemma_last_slash_is(s: Seq<char>, m: int)
    requires
        -1 <= m < s.len(),
        m >= 0 ==> s[m] == '/',
        forall|j: int| m < j < s.len() ==> s[j] != '/',
    ensures
        spec_last_slash(s) == m,
    decreases s.len(),
{
    if s.len() > 0 {
        if m == s.len() - 1 {
        } else {
            assert(s.last() != '/');
            lemma_last_slash_is(s.drop_last(), m);
        }
    }
}

/// The directory part of a path: everything before the last `/`, or `.` for
/// a bare file name.
pub open spec fn spec_dir_part(p: Seq<char>) -> Seq<char> {
    if spec_last_slash(p) < 0 {
        "."@
    } else {
        p.take(spec_last_slash(p))
    }
}

/// The file part of a path: everything after the last `/`, or the whole path
/// for a bare file name.
pub open spec fn spec_file_part(p: Seq<char>) -> Seq<char> {
    p.skip(spec_last_slash(p) + 1)
}

/// Splits a path into its directory and file parts.
pub fn split_dir_file(p: &str) -> (r: (String, String))
    ensures
        r.0@ == spec_dir_part(p@),
        r.1@ == spec_file_part(p@),
{
    let n = p.unicode_len();
    match crate::text::last_index_of(p, '/') {
        Some(i) => {
            proof {
                lemma_last_slash_is(p@, i as int);
            }
            let d = p.substring_char(0, i).to_owned();
            let f = p.substring_char(i + 1, n).to_owned();
            proof {
                assert(d@ =~= p@.take(i as int));
                assert(f@ =~= p@.skip(i + 1));
            }
            (d, f)
        },
        None => {
            proof {
                lemma_last_slash_is(p@, -1);
            }
            let f = p.to_owned();
            proof {
                assert(f@ =~= p@.skip(0));
            }
            (".".to_owned(), f)
        },
    }
}

/// The library name of a static archive file: the file name without its
/// `.a` suffix and, when present, its `lib` prefix.
pub open spec fn spec_static_stem(file: Seq<char>) -> Seq<char> {
    let base = file.take(file.len() - 2);
    if spec_starts_with(base, "lib"@) {
        base.skip(3)
    } else {
        base
    }
}

fn static_stem(file: &str) -> (r: String)
    requires
        spec_ends_with(file@, ".a"@),
    ensures
        r@ == spec_static_stem(file@),
{
    proof {
        reveal_strlit(".a");
        reveal_strlit("lib");
    }
    let n = file.unicode_len();
    let base = file.substring_char(0, n - 2);
    proof {
        assert(base@ =~= file@.take(n - 2));
    }
    if starts_with(base, "lib") {
        let r = base.substring_char(3, n - 2).to_owned();
        proof {
            assert(r@ =~= base@.skip(3));
        }
        r
    } else {
        base.to_owned()
    }
}

/// What one manifest line contributes: nothing for a blank line, one or two
/// directives for a recognized instruction, or `None` for an unparseable
/// line.
pub open spec fn spec_parse_line(line: Seq<char>, build_dir: Seq<char>) -> Option<
    Seq<DirectiveView>,
> {
    let t = spec_trim(line);
    if t.len() == 0 {
        Some(seq![])
    } else if spec_starts_with(t, "-l"@) {
        if t.len() > 2 {
            Some(
                seq![
                    DirectiveView::LinkLibrary { name: t.skip(2), kind: LinkKind::Dynamic },
                ],
            )
        } else {
            None
        }
    } else if spec_starts_with(t, "-L"@) {
        if t.len() > 2 {
            Some(
                seq![
                    DirectiveView::SearchPath {
                        path: spec_resolve_path(build_dir, t.skip(2)),
                    },
                ],
            )
        } else {
            None
        }
    } else if spec_ends_with(t, ".a"@) {
        let p = spec_resolve_path(build_dir, t);
        Some(
            seq![
                DirectiveView::SearchPath { path: spec_dir_part(p) },
                DirectiveView::LinkLibrary {
                    name: spec_static_stem(spec_file_part(p)),
                    kind: LinkKind::Static,
                },
            ],
        )
    } else {
        None
    }
}

/// Parses one manifest line.
pub fn parse_line(line: &str, build_dir: &str) -> (r: Option<Vec<LinkDirective>>)
    ensures
        match r {
            Some(v) => spec_parse_line(line@, build_dir@) == Some(v.deep_view()),
            None => spec_parse_line(line@, build_dir@) is None,
        },
{
    proof {
        reveal_strlit("-l");
        reveal_strlit("-L");
        reveal_strlit(".a");
    }
    let t = trim(line);
    let n = t.unicode_len();
    if n == 0 {
        let v: Vec<LinkDirective> = Vec::new();
        proof {
            assert(v.deep_view() =~= Seq::<DirectiveView>::empty());
        }
        return Some(v);
    }
    if starts_with(t, "-l") {
        if n > 2 {
            let name = t.substring_char(2, n).to_owned();
            proof {
                assert(name@ =~= t@.skip(2));
            }
            let mut v: Vec<LinkDirective> = Vec::new();
            v.push(LinkDirective::LinkLibrary { name, kind: LinkKind::Dynamic });
            proof {
                assert(v.deep_view() =~= spec_parse_line(line@, build_dir@)->0);
            }
            Some(v)
        } else {
            None
        }
    } else if starts_with(t, "-L") {
        if n > 2 {
            let rest = t.substring_char(2, n);
            proof {
                assert(rest@ =~= t@.skip(2));
            }
            let path = resolve_path(build_dir, rest);
            let mut v: Vec<LinkDirective> = Vec::new();
            v.push(LinkDirective::SearchPath { path });
            proof {
                assert(v.deep_view() =~= spec_parse_line(line@, build_dir@)->0);
            }
            Some(v)
        } else {
            None
        }
    } else if ends_with(t, ".a") {
        let p = resolve_path(build_dir, t);
        let (dir, file) = split_dir_file(p.as_str());
        proof {
            assert(t@.len() >= 2);
            assert(t@.skip(t@.len() - 2) == ".a"@);
            assert(p@.len() >= t@.len());
            if t@[0] == '/' {
                assert(p@ == t@);
            } else {
                assert(p@ == build_dir@ + "/"@ + t@);
                assert(p@.skip(p@.len() - t@.len()) =~= t@);
            }
            assert(p@.skip(p@.len() - 2) =~= t@.skip(t@.len() - 2));
            assert(spec_ends_with(p@, ".a"@));
            assert(p@[p@.len() - 2] == p@.skip(p@.len() - 2)[0]);
            assert(p@[p@.len() - 1] == p@.skip(p@.len() - 2)[1]);
            assert(p@[p@.len() - 2] == '.');
            assert(p@[p@.len() - 1] == 'a');
            lemma_last_slash_props(p@);
            let ls = spec_last_slash(p@);
            assert(ls < p@.len() - 2);
            let f = spec_file_part(p@);
            assert(f.len() == p@.len() - ls - 1 >= 2);
            assert(f.skip(f.len() - 2) =~= p@.skip(p@.len() - 2));
            assert(spec_ends_with(f, ".a"@));
        }
        let stem = static_stem(file.as_str());
        let mut v: Vec<LinkDirective> = Vec::new();
        v.push(LinkDirective::SearchPath { path: dir });
        v.push(LinkDirective::LinkLibrary { name: stem, kind: LinkKind::Static });
        proof {
            assert(v.deep_view() =~= spec_parse_line(line@, build_dir@)->0);
        }
        Some(v)
    } else {
        None
    }
}

// ------------------------------------------------------------------
// Collecting the directives of every line, then deduplicating.
// ------------------------------------------------------------------
/// An unparseable manifest line, fatal in strict mode.
#[derive(Debug)]
pub struct ParseError {
    pub line_index: usize,
    pub line: String,
}

/// The directives of all lines in order, or the index of the first
/// unparseable line when `strict` demands it; a lenient run skips such
/// lines.
pub open spec fn spec_extract(
    lines: Seq<Seq<char>>,
    build_dir: Seq<char>,
    strict: bool,
) -> Result<Seq<DirectiveView>, int>
    decreases lines.len(),
{
    if lines.len() == 0 {
        Ok(Seq::empty())
    } else {
        match spec_extract(lines.drop_last(), build_dir, strict) {
            Err(i) => Err(i),
            Ok(ds) => match spec_parse_line(lines.last(), build_dir) {
                Some(nd) => Ok(ds + nd),
                None => if strict {
                    Err(lines.len() - 1)
                } else {
                    Ok(ds)
                },
            },
        }
    }
}

/// Collects the directives of every line, in manifest order.
pub fn extract_directives(lines: &Vec<String>, build_dir: &str, strict: bool) -> (r: Result<
    Vec<LinkDirective>,
    ParseError,
>)
    ensures
        match r {
            Ok(v) => spec_extract(lines.deep_view(), build_dir@, strict) == Ok::<_, int>(
                v.deep_view(),
            ),
            Err(e) => spec_extract(lines.deep_view(), build_dir@, strict) == Err::<
                Seq<DirectiveView>,
                _,
            >(e.line_index as int) && e.line_index < lines@.len() && e.line@ == lines@[
                e.line_index as int]@,
        },
{
    let mut out: Vec<LinkDirective> = Vec::new();
    let mut i: usize = 0;
    proof {
        assert(lines.deep_view().take(0) =~= Seq::<Seq<char>>::empty());
        assert(out.deep_view() =~= Seq::<DirectiveView>::empty());
    }
    while i < lines.len()
        invariant
            i <= lines@.len(),
            spec_extract(lines.deep_view().take(i as int), build_dir@, strict) == Ok::<_, int>(
                out.deep_view(),
            ),
        decreases lines@.len() - i,
    {
        let ghost pre = lines.deep_view().take(i as int);
        let ghost cur = lines.deep_view().take(i + 1);
        proof {
            assert(cur.drop_last() =~= pre);
            assert(cur.last() == lines.deep_view()[i as int]);
            assert(lines.deep_view()[i as int] == lines@[i as int]@);
        }
        match parse_line(lines[i].as_str(), build_dir) {
            Some(mut nd) => {
                let ghost out_pre = out.deep_view();
                let ghost nd_dv = nd.deep_view();
                let ghost nd_v = nd@;
                out.append(&mut nd);
                proof {
                    assert forall|j: int| 0 <= j < out@.len() implies out.deep_view()[j] == (
                    out_pre + nd_dv)[j] by {
                        assert(out.deep_view()[j] == out@[j]@);
                        if j < out_pre.len() {
                        } else {
                            assert(out@[j] == nd_v[j - out_pre.len()]);
                            assert(nd_dv[j - out_pre.len()] == nd_v[j - out_pre.len()]@);
                        }
                    }
                    assert(out.deep_view() =~= out_pre + nd_dv);
                }
            },
            None => {
                if strict {
                    proof {
                        lemma_extract_err_persists(lines.deep_view(), build_dir@, strict, i + 1);
                    }
                    return Err(ParseError { line_index: i, line: lines[i].clone() });
                }
            },
        }
        i = i + 1;
    }
    proof {
        assert(lines.deep_view().take(lines@.len() as int) =~= lines.deep_view());
    }
    Ok(out)
}

proof fn lemma_extract_err_persists(
    lines: Seq<Seq<char>>,
    build_dir: Seq<char>,
    strict: bool,
    m: int,
)
    requires
        0 <= m <= lines.len(),
        spec_extract(lines.take(m), build_dir, strict) is Err,
    ensures
        spec_extract(lines, build_dir, strict) == spec_extract(lines.take(m), build_dir, strict),
    decreases lines.len() - m,
{
    if m < lines.len() {
        assert(lines.take(m + 1).drop_last() =~= lines.take(m));
        lemma_extract_err_persists(lines, build_dir, strict, m + 1);
    } else {
        assert(lines.take(m) =~= lines);
    }
}

/// `s` with every repetition of an earlier directive dropped: the first
/// occurrence of each directive survives, in its original position.
pub open spec fn spec_dedup(s: Seq<DirectiveView>) -> Seq<DirectiveView>
    decreases s.len(),
{
    if s.len() == 0 {
        Seq::empty()
    } else {
        let rest = spec_dedup(s.drop_last());
        if rest.contains(s.last()) {
            rest
        } else {
            rest.push(s.last())
        }
    }
}

/// Whether the deduplicated output already holds `d`.
fn contains_directive(v: &Vec<LinkDirective>, d: &LinkDirective) -> (r: bool)
    ensures
        r == v.deep_view().contains(d@),
{
    let mut i: usize = 0;
    while i < v.len()
        invariant
            i <= v@.len(),
            forall|j: int| 0 <= j < i ==> v.deep_view()[j] != d@,
        decreases v@.len() - i,
    {
        if directive_eq(&v[i], d) {
            proof {
                assert(v.deep_view()[i as int] == d@);
            }
            return true;
        }
        proof {
            assert(v.deep_view()[i as int] == v@[i as int]@);
        }
        i = i + 1;
    }
    false
}

/// Drops every directive equal to an earlier one, keeping first occurrences
/// in their original order.
pub fn dedup_directives(v: &Vec<LinkDirective>) -> (r: Vec<LinkDirective>)
    ensures
        r.deep_view() == spec_dedup(v.deep_view()),
{
    let mut out: Vec<LinkDirective> = Vec::new();
    let mut i: usize = 0;
    proof {
        assert(v.deep_view().take(0) =~= Seq::<DirectiveView>::empty());
    }
    while i < v.len()
        invariant
            i <= v@.len(),
            out.deep_view() == spec_dedup(v.deep_view().take(i as int)),
        decreases v@.len() - i,
    {
        let ghost pre = v.deep_view().take(i as int);
        let ghost cur = v.deep_view().take(i + 1);
        proof {
            assert(cur.drop_last() =~= pre);
            assert(cur.last() == v.deep_view()[i as int]);
            assert(v.deep_view()[i as int] == v@[i as int]@);
        }
        if !contains_directive(&out, &v[i]) {
            let d = v[i].clone();
            let ghost out_pre = out.deep_view();
            out.push(d);
            proof {
                assert forall|j: int| 0 <= j < out@.len() implies out.deep_view()[j]
                    == out_pre.push(v.deep_view()[i as int])[j] by {
                    assert(out.deep_view()[j] == out@[j]@);
                }
                assert(out.deep_view() =~= out_pre.push(v.deep_view()[i as int]));
            }
        }
        i = i + 1;
    }
    proof {
        assert(v.deep_view().take(v@.len() as int) =~= v.deep_view());
    }
    out
}

// ------------------------------------------------------------------
// The whole extraction.
// ------------------------------------------------------------------
/// What parsing a manifest yields: the ordered, deduplicated directives of
/// its lines, or the first unparseable line in strict mode.
pub open spec fn spec_parse_deps(
    text: Seq<char>,
    build_dir: Seq<char>,
    strict: bool,
) -> Result<Seq<DirectiveView>, int> {
    match spec_extract(spec_lines(text), build_dir, strict) {
        Ok(ds) => Ok(spec_dedup(ds)),
        Err(i) => Err(i),
    }
}

/// Parses the dependency manifest into ordered, deduplicated link
/// directives, rewriting relative search paths against `build_dir`. In
/// strict mode the first unparseable line is a fatal parse error naming the
/// line; a lenient run ignores such lines.
pub fn parse_deps(text: &str, build_dir: &str, strict: bool) -> (r: Result<
    Vec<LinkDirective>,
    ParseError,
>)
    ensures
        match r {
            Ok(v) => spec_parse_deps(text@, build_dir@, strict) == Ok::<_, int>(v.deep_view()),
            Err(e) => spec_parse_deps(text@, build_dir@, strict) == Err::<Seq<DirectiveView>, _>(
                e.line_index as int,
            ) && e.line_index < spec_lines(text@).len() && e.line@ == spec_lines(text@)[
                e.line_index as int],
        },
{
    let lines = split_lines(text);
    match extract_directives(&lines, build_dir, strict) {
        Ok(ds) => Ok(dedup_directives(&ds)),
        Err(e) => {
            proof {
                assert(lines@[e.line_index as int]@ == lines.deep_view()[e.line_index as int]);
            }
            Err(e)
        },
    }
}

// ------------------------------------------------------------------
// Laws of the extraction.
// ------------------------------------------------------------------
/// Parsing is a pure function of the manifest text, the build-output
/// directory and the strictness flag: identical inputs always yield the
/// identical ordered directive sequence, with no nondeterministic
/// reordering.
pub proof fn lemma_parse_deterministic(
    text1: Seq<char>,
    text2: Seq<char>,
    build_dir1: Seq<char>,
    build_dir2: Seq<char>,
    strict: bool,
)
    requires
        text1 == text2,
        build_dir1 == build_dir2,
    ensures
        spec_parse_deps(text1, build_dir1, strict) == spec_parse_deps(text2, build_dir2, strict),
{
}

proof fn lemma_dedup_no_duplicates(s: Seq<DirectiveView>)
    ensures
        forall|i: int, j: int|
            0 <= i < j < spec_dedup(s).len() ==> spec_dedup(s)[i] != spec_dedup(s)[j],
    decreases s.len(),
{
    if s.len() > 0 {
        lemma_dedup_no_duplicates(s.drop_last());
        let rest = spec_dedup(s.drop_last());
        if !rest.contains(s.last()) {
            let d = spec_dedup(s);
            assert forall|i: int, j: int| 0 <= i < j < d.len() implies d[i] != d[j] by {
                if j == d.len() - 1 {
                    assert(d[j] == s.last());
                    if d[i] == s.last() {
                        assert(rest[i] == s.last());
                        assert(rest.contains(s.last()));
                    }
                }
            }
        }
    }
}

proof fn lemma_dedup_same_members(s: Seq<DirectiveView>)
    ensures
        forall|x: DirectiveView| spec_dedup(s).contains(x) <==> s.contains(x),
    decreases s.len(),
{
    if s.len() > 0 {
        lemma_dedup_same_members(s.drop_last());
        let rest = spec_dedup(s.drop_last());
        let d = spec_dedup(s);
        assert forall|x: DirectiveView| d.contains(x) implies s.contains(x) by {
            let k = choose|k: int| 0 <= k < d.len() && d[k] == x;
            if !rest.contains(s.last()) && k == d.len() - 1 {
                assert(x == s.last());
                assert(s[s.len() - 1] == x);
            } else {
                assert(rest[k] == x);
                assert(rest.contains(x));
                assert(s.drop_last().contains(x));
                let m2 = choose|m2: int|
                    0 <= m2 < s.drop_last().len() && s.drop_last()[m2] == x;
                assert(s[m2] == x);
            }
        }
        assert forall|x: DirectiveView| s.contains(x) implies d.contains(x) by {
            let k = choose|k: int| 0 <= k < s.len() && s[k] == x;
            if k < s.len() - 1 {
                assert(s.drop_last()[k] == x);
                assert(s.drop_last().contains(x));
                assert(rest.contains(x));
                if !rest.contains(s.last()) {
                    let m = choose|m: int| 0 <= m < rest.len() && rest[m] == x;
                    assert(d[m] == x);
                }
            } else {
                assert(x == s.last());
                if rest.contains(x) {
                    let m = choose|m: int| 0 <= m < rest.len() && rest[m] == x;
                    assert(d[m] == x);
                } else {
                    assert(d[d.len() - 1] == x);
                }
            }
        }
    }
}

/// The position of the first occurrence of `x` in `s`; meaningful when `s`
/// contains `x`.
pub open spec fn spec_first_index(s: Seq<DirectiveView>, x: DirectiveView) -> int
    decreases s.len(),
{
    if s.len() == 0 {
        0
    } else if s[0] == x {
        0
    } else {
        1 + spec_first_index(s.skip(1), x)
    }
}

proof fn lemma_first_index_props(s: Seq<DirectiveView>, x: DirectiveView)
    requires
        s.contains(x),
    ensures
        0 <= spec_first_index(s, x) < s.len(),
        s[spec_first_index(s, x)] == x,
        forall|j: int| 0 <= j < spec_first_index(s, x) ==> s[j] != x,
    decreases s.len(),
{
    if s[0] == x {
    } else {
        let k = choose|k: int| 0 <= k < s.len() && s[k] == x;
        assert(s.skip(1)[k - 1] == x);
        assert(s.skip(1).contains(x));
        lemma_first_index_props(s.skip(1), x);
        assert forall|j: int| 0 <= j < spec_first_index(s, x) implies s[j] != x by {
            if j >= 1 {
                assert(s.skip(1)[j - 1] == s[j]);
            }
        }
    }
}

proof fn lemma_first_index_stable(s: Seq<DirectiveView>, x: DirectiveView)
    requires
        s.len() >= 1,
        s.drop_last().contains(x),
    ensures
        spec_first_index(s, x) == spec_first_index(s.drop_last(), x),
    decreases s.len(),
{
    if s[0] == x {
        assert(s.drop_last()[0] == x);
    } else {
        let t = s.skip(1);
        let k = choose|k: int|
            0 <= k < s.drop_last().len() && s.drop_last()[k] == x;
        assert(s.drop_last()[0] == s[0]);
        assert(k >= 1);
        assert(t.drop_last() =~= s.drop_last().skip(1));
        assert(s.drop_last().skip(1)[k - 1] == x);
        assert(t.drop_last().contains(x));
        lemma_first_index_stable(t, x);
        assert(s.drop_last()[0] != x);
        assert(spec_first_index(s.drop_last(), x) == 1 + spec_first_index(
            s.drop_last().skip(1),
            x,
        ));
    }
}

proof fn lemma_dedup_keeps_order(s: Seq<DirectiveView>)
    ensures
        forall|i: int, j: int|
            0 <= i < j < spec_dedup(s).len() ==> spec_first_index(s, spec_dedup(s)[i])
                < spec_first_index(s, spec_dedup(s)[j]),
    decreases s.len(),
{
    if s.len() > 0 {
        lemma_dedup_keeps_order(s.drop_last());
        lemma_dedup_same_members(s.drop_last());
        let rest = spec_dedup(s.drop_last());
        let d = spec_dedup(s);
        assert forall|i: int, j: int| 0 <= i < j < d.len() implies spec_first_index(s, d[i])
            < spec_first_index(s, d[j]) by {
            if !rest.contains(s.last()) && j == d.len() - 1 {
                assert(d[j] == s.last());
                assert(d[i] == rest[i]);
                assert(rest.contains(rest[i]));
                assert(s.drop_last().contains(d[i]));
                lemma_first_index_stable(s, d[i]);
                lemma_first_index_props(s.drop_last(), d[i]);
                assert(spec_first_index(s, d[i]) < s.len() - 1);
                assert(!s.drop_last().contains(s.last()));
                assert(s.contains(s.last())) by {
                    assert(s[s.len() - 1] == s.last());
                }
                lemma_first_index_props(s, s.last());
                let fi = spec_first_index(s, s.last());
                if fi < s.len() - 1 {
                    assert(s.drop_last()[fi] == s.last());
                    assert(s.drop_last().contains(s.last()));
                }
                assert(fi == s.len() - 1);
            } else {
                assert(d[i] == rest[i] && d[j] == rest[j]);
                assert(rest.contains(rest[i]));
                assert(rest.contains(rest[j]));
                assert(s.drop_last().contains(d[i]));
                assert(s.drop_last().contains(d[j]));
                lemma_first_index_stable(s, d[i]);
                lemma_first_index_stable(s, d[j]);
            }
        }
    }
}

/// Deduplication never reorders: any two directives of a successful parse
/// stand in the order of their first occurrences among the directives the
/// manifest's lines contribute.
pub proof fn lemma_parse_preserves_manifest_order(
    text: Seq<char>,
    build_dir: Seq<char>,
    strict: bool,
)
    ensures
        spec_parse_deps(text, build_dir, strict) matches Ok(ds) ==> {
            let all = spec_extract(spec_lines(text), build_dir, strict)->Ok_0;
            forall|i: int, j: int|
                0 <= i < j < ds.len() ==> spec_first_index(all, ds[i]) < spec_first_index(
                    all,
                    ds[j],
                )
        },
{
    if spec_extract(spec_lines(text), build_dir, strict) is Ok {
        let all = spec_extract(spec_lines(text), build_dir, strict)->Ok_0;
        lemma_dedup_keeps_order(all);
    }
}

/// A successful parse holds no duplicate directive — repeated manifest lines
/// collapse to one — and holds a directive exactly when some line of the
/// manifest contributes it.
pub proof fn lemma_parse_collapses_duplicates(
    text: Seq<char>,
    build_dir: Seq<char>,
    strict: bool,
)
    ensures
        spec_parse_deps(text, build_dir, strict) matches Ok(ds) ==> (forall|i: int, j: int|
            0 <= i < j < ds.len() ==> ds[i] != ds[j]),
        spec_parse_deps(text, build_dir, strict) matches Ok(ds) ==> (forall|x: DirectiveView|
            ds.contains(x) <==> spec_extract(spec_lines(text), build_dir, strict)->Ok_0.contains(
                x,
            )),
{
    if spec_extract(spec_lines(text), build_dir, strict) is Ok {
        let all = spec_extract(spec_lines(text), build_dir, strict)->Ok_0;
        lemma_dedup_no_duplicates(all);
        lemma_dedup_same_members(all);
    }
}

proof fn lemma_last_slash_props(s: Seq<char>)
    ensures
        -1 <= spec_last_slash(s) < s.len(),
        spec_last_slash(s) >= 0 ==> s[spec_last_slash(s)] == '/',
        forall|j: int| spec_last_slash(s) < j < s.len() ==> s[j] != '/',
    decreases s.len(),
{
    if s.len() > 0 && s.last() != '/' {
        lemma_last_slash_props(s.drop_last());
        assert forall|j: int| spec_last_slash(s) < j < s.len() implies s[j] != '/' by {
            if j < s.len() - 1 {
                assert(s.drop_last()[j] == s[j]);
            }
        }
        if spec_last_slash(s) >= 0 {
            assert(s.drop_last()[spec_last_slash(s)] == s[spec_last_slash(s)]);
        }
    }
}

} // verus!
