//! The listing parser: turns recursive directory-listing text into an
//! ordered set of link paths, honoring directory-name exclusions.
//!
//! A listing is a sequence of lines. A line containing the directory-header
//! marker opens a new current directory; a line containing the link marker
//! names a link entry inside the current directory. The parse is modeled
//! line by line by `parse_model`, and the executable parser is proved to
//! return exactly that model's output.

use vstd::prelude::*;

use crate::text::append_chars;
use crate::text::contains_seq;
use crate::text::copy_chars;
use crate::text::contains_sub;
use crate::text::find_sub;
use crate::text::first_match;
use crate::text::split_lines;
use crate::text::split_lines_spec;
use crate::text::subrange_vec;
use crate::text::trim_start_chars;
use crate::text::trim_start_spec;
use crate::text::view_lines;

verus! {

/// The marker that announces a new directory in the listing.
pub open spec fn dir_marker() -> Seq<char> {
    seq!['D', 'i', 'r', 'e', 'c', 't', 'o', 'r', 'y', ' ', 'o', 'f', ' ']
}

/// The marker that flags a link entry in the listing.
pub open spec fn link_marker() -> Seq<char> {
    seq!['<', 'S', 'Y', 'M', 'L', 'I', 'N', 'K', '>']
}

/// The start of a bracketed link-target annotation: ` [\\`.
pub open spec fn annot_marker() -> Seq<char> {
    seq![' ', '[', '\\', '\\']
}

fn dir_marker_vec() -> (v: Vec<char>)
    ensures
        v@ == dir_marker(),
{
    let mut v: Vec<char> = Vec::new();
    v.push('D');
    v.push('i');
    v.push('r');
    v.push('e');
    v.push('c');
    v.push('t');
    v.push('o');
    v.push('r');
    v.push('y');
    v.push(' ');
    v.push('o');
    v.push('f');
    v.push(' ');
    proof {
        assert(v@ =~= dir_marker());
    }
    v
}

fn link_marker_vec() -> (v: Vec<char>)
    ensures
        v@ == link_marker(),
{
    let mut v: Vec<char> = Vec::new();
    v.push('<');
    v.push('S');
    v.push('Y');
    v.push('M');
    v.push('L');
    v.push('I');
    v.push('N');
    v.push('K');
    v.push('>');
    proof {
        assert(v@ =~= link_marker());
    }
    v
}

fn annot_marker_vec() -> (v: Vec<char>)
    ensures
        v@ == annot_marker(),
{
    let mut v: Vec<char> = Vec::new();
    v.push(' ');
    v.push('[');
    v.push('\\');
    v.push('\\');
    proof {
        assert(v@ =~= annot_marker());
    }
    v
}

/// A directory is excluded when its path contains any skip entry.
pub open spec fn dir_skipped(dir: Seq<char>, skip: Seq<Seq<char>>) -> bool {
    exists|j: int| 0 <= j < skip.len() && contains_seq(dir, skip[j])
}

/// A directory path always carries a trailing separator.
pub open spec fn normalize_dir(d: Seq<char>) -> Seq<char> {
    if d.len() > 0 && d[d.len() - 1] == '\\' {
        d
    } else {
        d.push('\\')
    }
}

/// An entry name with any bracketed target annotation removed.
pub open spec fn strip_annotation(s: Seq<char>) -> Seq<char> {
    if contains_seq(s, annot_marker()) {
        s.subrange(0, first_match(s, annot_marker()))
    } else {
        s
    }
}

/// One discovered link, as the directory that owns it and the entry name.
pub ghost struct LinkEntry {
    pub dir: Seq<char>,
    pub name: Seq<char>,
}

/// The parser's state after some prefix of the listing's lines.
pub ghost struct ParseModel {
    /// The directory the most recent header opened, with trailing separator;
    /// empty before the first header.
    pub cur_dir: Seq<char>,
    /// Whether the current directory matches a skip entry.
    pub skipping: bool,
    /// Directory headers seen so far.
    pub dirs: nat,
    /// Link entries discovered so far, in listing order.
    pub entries: Seq<LinkEntry>,
    /// Whether a link entry appeared before any directory header.
    pub failed: bool,
}

/// The parser's state before any line.
pub open spec fn init_model() -> ParseModel {
    ParseModel {
        cur_dir: Seq::empty(),
        skipping: false,
        dirs: 0,
        entries: Seq::empty(),
        failed: false,
    }
}

/// How one listing line advances the parse.
pub open spec fn line_step(st: ParseModel, line: Seq<char>, skip: Seq<Seq<char>>) -> ParseModel {
    if contains_seq(line, dir_marker()) {
        let d = normalize_dir(
            line.subrange(
                first_match(line, dir_marker()) + dir_marker().len() as int,
                line.len() as int,
            ),
        );
        ParseModel {
            cur_dir: d,
            skipping: dir_skipped(d, skip),
            dirs: st.dirs + 1,
            entries: st.entries,
            failed: st.failed,
        }
    } else if contains_seq(line, link_marker()) {
        if st.cur_dir.len() == 0 {
            ParseModel {
                cur_dir: st.cur_dir,
                skipping: st.skipping,
                dirs: st.dirs,
                entries: st.entries,
                failed: true,
            }
        } else if st.skipping {
            st
        } else {
            let name = strip_annotation(
                trim_start_spec(
                    line.subrange(
                        first_match(line, link_marker()) + link_marker().len() as int,
                        line.len() as int,
                    ),
                ),
            );
            ParseModel {
                cur_dir: st.cur_dir,
                skipping: st.skipping,
                dirs: st.dirs,
                entries: st.entries.push(LinkEntry { dir: st.cur_dir, name }),
                failed: st.failed,
            }
        }
    } else {
        st
    }
}

/// The parse of a whole listing, line by line.
pub open spec fn parse_model(lines: Seq<Seq<char>>, skip: Seq<Seq<char>>) -> ParseModel
    decreases lines.len(),
{
    if lines.len() == 0 {
        init_model()
    } else {
        line_step(parse_model(lines.drop_last(), skip), lines.last(), skip)
    }
}

/// The discovered link paths: each entry's owning directory followed by its
/// name.
pub open spec fn model_links(m: ParseModel) -> Seq<Seq<char>> {
    Seq::new(m.entries.len(), |i: int| m.entries[i].dir + m.entries[i].name)
}

/// The number of lines that carry the directory-header marker.
pub open spec fn count_dir_headers(lines: Seq<Seq<char>>) -> nat
    decreases lines.len(),
{
    if lines.len() == 0 {
        0
    } else {
        count_dir_headers(lines.drop_last()) + (if contains_seq(lines.last(), dir_marker()) {
            1nat
        } else {
            0nat
        })
    }
}

/// Law: for any listing, the visited-directory count equals the number of
/// directory-header lines, whatever link lines are present.
pub proof fn lemma_dirs_visited_counts_headers(lines: Seq<Seq<char>>, skip: Seq<Seq<char>>)
    ensures
        parse_model(lines, skip).dirs == count_dir_headers(lines),
    decreases lines.len(),
{
    if lines.len() == 0 {
    } else {
        lemma_dirs_visited_counts_headers(lines.drop_last(), skip);
    }
}

/// The visited-directory count never exceeds the number of lines.
pub proof fn lemma_dirs_le_lines(lines: Seq<Seq<char>>, skip: Seq<Seq<char>>)
    ensures
        parse_model(lines, skip).dirs <= lines.len(),
    decreases lines.len(),
{
    if lines.len() == 0 {
    } else {
        lemma_dirs_le_lines(lines.drop_last(), skip);
    }
}

/// The invariant the parse preserves line by line: the skip decision always
/// describes the current directory, and no recorded entry lies in a skipped
/// or empty directory.
pub open spec fn model_wf(st: ParseModel, skip: Seq<Seq<char>>) -> bool {
    &&& (st.cur_dir.len() > 0 ==> st.skipping == dir_skipped(st.cur_dir, skip))
    &&& (forall|k: int|
        0 <= k < st.entries.len() ==> !dir_skipped(#[trigger] st.entries[k].dir, skip)
            && st.entries[k].dir.len() > 0)
}

/// The parse of any listing satisfies `model_wf`.
pub proof fn lemma_model_wf(lines: Seq<Seq<char>>, skip: Seq<Seq<char>>)
    ensures
        model_wf(parse_model(lines, skip), skip),
    decreases lines.len(),
{
    if lines.len() == 0 {
    } else {
        lemma_model_wf(lines.drop_last(), skip);
        let st = parse_model(lines.drop_last(), skip);
        let next = line_step(st, lines.last(), skip);
        assert(forall|k: int|
            0 <= k < st.entries.len() ==> next.entries[k] == #[trigger] st.entries[k]);
    }
}

/// Law: a link entry whose owning directory matches a skip entry never
/// appears in the discovered set, for any listing and any skip entries.
pub proof fn lemma_skip_filters_all(lines: Seq<Seq<char>>, skip: Seq<Seq<char>>)
    ensures
        forall|k: int|
            0 <= k < parse_model(lines, skip).entries.len() ==> !dir_skipped(
                #[trigger] parse_model(lines, skip).entries[k].dir,
                skip,
            ),
{
    lemma_model_wf(lines, skip);
}

/// A failed parse stays failed as more lines are read.
proof fn lemma_failed_sticky(lines: Seq<Seq<char>>, skip: Seq<Seq<char>>, k: int)
    requires
        0 <= k <= lines.len(),
        parse_model(lines.take(k), skip).failed,
    ensures
        parse_model(lines, skip).failed,
    decreases lines.len() - k,
{
    if k == lines.len() {
        assert(lines.take(k) =~= lines);
    } else {
        assert(lines.take(k + 1).drop_last() =~= lines.take(k));
        assert(lines.take(k + 1).last() == lines[k]);
        lemma_failed_sticky(lines, skip, k + 1);
    }
}

/// Why discovery failed before any copying was attempted.
#[derive(Debug, Clone, Copy, PartialEq, Eq, Structural)]
pub enum DiscoveryError {
    /// A link entry appeared before any directory header, so no full path
    /// can be formed for it.
    LinkBeforeDirectory,
}

/// The outcome of discovery: the ordered link paths and the number of
/// directories the listing visited.
#[derive(Debug)]
pub struct Discovered {
    /// Full paths of the discovered links, in listing order.
    pub links: Vec<Vec<char>>,
    /// How many directory headers the listing held.
    pub dirs_visited: usize,
}

/// Does `dir` match any skip entry?
fn dir_is_skipped(dir: &Vec<char>, skip: &Vec<Vec<char>>) -> (r: bool)
    ensures
        r == dir_skipped(dir@, view_lines(skip@)),
{
    let mut i: usize = 0;
    let mut found: bool = false;
    while i < skip.len()
        invariant
            i <= skip@.len(),
            found == (exists|j: int|
                0 <= j < i && contains_seq(dir@, #[trigger] view_lines(skip@)[j])),
        decreases skip@.len() - i,
    {
        if contains_sub(dir, &skip[i]) {
            found = true;
            proof {
                assert(contains_seq(dir@, view_lines(skip@)[i as int]));
            }
        }
        i = i + 1;
    }
    found
}

/// Parse listing lines into the discovered links and directory count,
/// applying the skip entries. Returns an error exactly when a link entry
/// appears before any directory header.
pub fn parse_listing(lines: &Vec<Vec<char>>, skip: &Vec<Vec<char>>) -> (r: Result<
    Discovered,
    DiscoveryError,
>)
    ensures
        ({
            let m = parse_model(view_lines(lines@), view_lines(skip@));
            match r {
                Ok(d) => !m.failed && d.dirs_visited as nat == m.dirs && view_lines(d.links@)
                    == model_links(m),
                Err(e) => m.failed && e == DiscoveryError::LinkBeforeDirectory,
            }
        }),
{
    let ghost lv: Seq<Seq<char>> = view_lines(lines@);
    let ghost sv: Seq<Seq<char>> = view_lines(skip@);
    let dm = dir_marker_vec();
    let lm = link_marker_vec();
    let am = annot_marker_vec();
    let mut cur_dir: Vec<char> = Vec::new();
    let mut skipping: bool = false;
    let mut dirs: usize = 0;
    let mut links: Vec<Vec<char>> = Vec::new();
    let mut j: usize = 0;
    proof {
        assert(lv.take(0) =~= Seq::<Seq<char>>::empty());
        assert(view_lines(links@) =~= model_links(init_model()));
    }
    while j < lines.len()
        invariant
            lv == view_lines(lines@),
            sv == view_lines(skip@),
            dm@ == dir_marker(),
            lm@ == link_marker(),
            am@ == annot_marker(),
            j <= lines@.len(),
            !parse_model(lv.take(j as int), sv).failed,
            cur_dir@ == parse_model(lv.take(j as int), sv).cur_dir,
            skipping == parse_model(lv.take(j as int), sv).skipping,
            dirs as nat == parse_model(lv.take(j as int), sv).dirs,
            view_lines(links@) == model_links(parse_model(lv.take(j as int), sv)),
        decreases lines@.len() - j,
    {
        let ghost st = parse_model(lv.take(j as int), sv);
        let line = &lines[j];
        proof {
            assert(lv.take(j + 1).drop_last() =~= lv.take(j as int));
            assert(lv.take(j + 1).last() == line@);
        }
        let ghost next = parse_model(lv.take(j + 1), sv);
        proof {
            assert(next == line_step(st, line@, sv));
        }
        let n = line.len();
        if let Some(idx) = find_sub(line, &dm) {
            let raw = subrange_vec(line, idx + dm.len(), n);
            let mut nd = raw;
            if nd.len() == 0 || nd[nd.len() - 1] != '\\' {
                nd.push('\\');
            }
            proof {
                assert(nd@ == normalize_dir(
                    line@.subrange(idx + dir_marker().len() as int, line@.len() as int),
                ));
                assert(next.cur_dir == nd@);
                lemma_dirs_le_lines(lv.take(j as int), sv);
            }
            skipping = dir_is_skipped(&nd, skip);
            cur_dir = nd;
            dirs = dirs + 1;
            proof {
                assert(view_lines(links@) == model_links(next));
            }
        } else {
            if let Some(idx) = find_sub(line, &lm) {
                if cur_dir.len() == 0 {
                    proof {
                        assert(next.failed);
                        lemma_failed_sticky(lv, sv, j + 1);
                    }
                    return Err(DiscoveryError::LinkBeforeDirectory);
                }
                if !skipping {
                    let raw = subrange_vec(line, idx + lm.len(), n);
                    let trimmed = trim_start_chars(&raw);
                    let name = match find_sub(&trimmed, &am) {
                        Some(a) => subrange_vec(&trimmed, 0, a),
                        None => trimmed,
                    };
                    proof {
                        assert(name@ == strip_annotation(
                            trim_start_spec(
                                line@.subrange(
                                    idx + link_marker().len() as int,
                                    line@.len() as int,
                                ),
                            ),
                        ));
                    }
                    let mut full = copy_chars(&cur_dir);
                    append_chars(&mut full, &name);
                    proof {
                        assert(view_lines(links@.push(full)) =~= view_lines(links@) + seq![
                            full@,
                        ]);
                        assert(model_links(next) =~= model_links(st) + seq![
                            st.cur_dir + strip_annotation(
                                trim_start_spec(
                                    line@.subrange(
                                        idx + link_marker().len() as int,
                                        line@.len() as int,
                                    ),
                                ),
                            ),
                        ]);
                    }
                    links.push(full);
                }
            }
        }
        j = j + 1;
    }
    proof {
        assert(lv.take(lines@.len() as int) =~= lv);
    }
    Ok(Discovered { links, dirs_visited: dirs })
}

/// Parse a whole listing text: split it into lines, then discover the links
/// and directory count, applying the skip entries.
pub fn discover_links(text: &Vec<char>, skip: &Vec<Vec<char>>) -> (r: Result<
    Discovered,
    DiscoveryError,
>)
    ensures
        ({
            let m = parse_model(split_lines_spec(text@), view_lines(skip@));
            match r {
                Ok(d) => !m.failed && d.dirs_visited as nat == m.dirs && view_lines(d.links@)
                    == model_links(m),
                Err(e) => m.failed && e == DiscoveryError::LinkBeforeDirectory,
            }
        }),
{
    let lines = split_lines(text);
    parse_listing(&lines, skip)
}

} // verus!
