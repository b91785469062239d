//! The change classifier.
//!
//! A diff record line is `status path`, whitespace separated. The
//! classifier extracts the path, derives its folder key (the first path
//! segment, or the sentinel `.` when the path has no `/`), and turns the
//! whole record list into a purge decision: either a list of purge
//! targets, one per contributing record, or a full purge.
//!
//! Policy choices stated here once:
//! - A record whose folder key starts with `.` or equals `archetypes`
//!   is skipped. Because the root sentinel is `.`, a change at the
//!   repository root (a path with no `/`) is skipped as well.
//! - A recognized root (`content` or `static`) purges by its sub-folder:
//!   the second path segment when the path has one (at least two `/`),
//!   else the root name itself.
//! - Any other folder key forces a full purge and ends classification.
//! - A record with no path left after the status token yields the root
//!   sentinel and is therefore skipped; the classifier never panics on
//!   malformed records.

use crate::strutil::{
    find_non_ws, find_slash, find_ws, is_ws_char, lemma_find_non_ws_is, lemma_find_slash_is,
    lemma_find_ws_is, push_char, scan_slash,
};
use vstd::prelude::*;

verus! {

/// The status token of a record line: the first whitespace-delimited token.
pub open spec fn status_of(line: Seq<char>) -> Seq<char> {
    let a = find_non_ws(line);
    let rest = line.skip(a);
    rest.take(find_ws(rest))
}

/// Whitespace removed, back to front.
pub open spec fn strip_ws(s: Seq<char>) -> Seq<char>
    decreases s.len(),
{
    if s.len() == 0 {
        Seq::empty()
    } else if is_ws_char(s.last()) {
        strip_ws(s.drop_last())
    } else {
        strip_ws(s.drop_last()).push(s.last())
    }
}

/// The path of a record line: everything after the status token, with
/// all whitespace removed (tokens rejoined without a separator).
pub open spec fn path_of(line: Seq<char>) -> Seq<char> {
    let a = find_non_ws(line);
    let rest = line.skip(a);
    let b = find_ws(rest);
    strip_ws(rest.skip(b))
}

/// The folder key of a path: the first segment, or the root sentinel `.`
/// when the path has no separator.
pub open spec fn key_of(p: Seq<char>) -> Seq<char> {
    if find_slash(p) < p.len() {
        p.take(find_slash(p))
    } else {
        seq!['.']
    }
}

/// Whether the path has a second segment: a `/` after the first one.
pub open spec fn has_sub_folder(p: Seq<char>) -> bool {
    find_slash(p) < p.len() && find_slash(p.skip(find_slash(p) + 1)) < p.skip(
        find_slash(p) + 1,
    ).len()
}

/// The second path segment: the text between the first and second `/`
/// (or the end of the path).
pub open spec fn sub_folder(p: Seq<char>) -> Seq<char> {
    let rest = p.skip(find_slash(p) + 1);
    rest.take(find_slash(rest))
}

/// The folder a recognized-root path purges by: its sub-folder when it
/// has one, else its folder key.
pub open spec fn folder_for(p: Seq<char>) -> Seq<char> {
    if has_sub_folder(p) {
        sub_folder(p)
    } else {
        key_of(p)
    }
}

/// The skip rule: hidden folders (and the root sentinel) and generated
/// scaffolding contribute nothing.
pub open spec fn skip_rule(k: Seq<char>) -> bool {
    (k.len() > 0 && k[0] == '.') || k == "archetypes"@
}

/// The recognized content roots.
pub open spec fn recognized(k: Seq<char>) -> bool {
    k == "content"@ || k == "static"@
}

/// A record that is neither skipped nor under a recognized root forces a
/// full purge.
pub open spec fn forces_full(line: Seq<char>) -> bool {
    !skip_rule(key_of(path_of(line))) && !recognized(key_of(path_of(line)))
}

/// A record under a recognized root contributes one purge target.
pub open spec fn contributes(line: Seq<char>) -> bool {
    !skip_rule(key_of(path_of(line))) && recognized(key_of(path_of(line)))
}

/// The purge target a contributing record yields.
pub open spec fn target_of(line: Seq<char>, domain: Seq<char>) -> Seq<char> {
    domain + seq!['/'] + folder_for(path_of(line))
}

/// The purge targets of a record list, in record order, one per
/// contributing record.
pub open spec fn targets_of(lines: Seq<Seq<char>>, domain: Seq<char>) -> Seq<Seq<char>>
    decreases lines.len(),
{
    if lines.len() == 0 {
        Seq::empty()
    } else if contributes(lines.last()) {
        targets_of(lines.drop_last(), domain).push(target_of(lines.last(), domain))
    } else {
        targets_of(lines.drop_last(), domain)
    }
}

/// Whether some record forces a full purge.
pub open spec fn any_forces_full(lines: Seq<Seq<char>>) -> bool {
    exists|i: int| 0 <= i < lines.len() && forces_full(lines[i])
}

/// The mathematical purge decision.
pub enum DecisionSpec {
    Targeted(Seq<Seq<char>>),
    Full,
}

/// What `classify` returns: full purge exactly when some record falls
/// outside the recognized roots, else the targets of the contributing
/// records in order.
pub open spec fn classify_spec(lines: Seq<Seq<char>>, domain: Seq<char>) -> DecisionSpec {
    if any_forces_full(lines) {
        DecisionSpec::Full
    } else {
        DecisionSpec::Targeted(targets_of(lines, domain))
    }
}

/// The purge decision: either a list of purge-target URLs or a full purge.
pub enum PurgeDecision {
    Targeted(Vec<String>),
    Full,
}

impl View for PurgeDecision {
    type V = DecisionSpec;

    open spec fn view(&self) -> DecisionSpec {
        match self {
            PurgeDecision::Targeted(v) => DecisionSpec::Targeted(v.deep_view()),
            PurgeDecision::Full => DecisionSpec::Full,
        }
    }
}

/// One decoded change record: a status token and a repository-relative
/// path.
pub struct FileStatus {
    pub status: String,
    pub path: String,
}

/// Scans `s` for the first non-whitespace character, returning `s.len()`
/// when there is none.
fn scan_non_ws(s: &str) -> (r: usize)
    ensures
        r == find_non_ws(s@),
        r <= s@.len(),
{
    let n = s.unicode_len();
    let mut i: usize = 0;
    while i < n
        invariant
            0 <= i <= n,
            n == s@.len(),
            forall|j: int| 0 <= j < i ==> is_ws_char(s@[j]),
        decreases n - i,
    {
        let c = s.get_char(i);
        if !(c == ' ' || c == '\t' || c == '\r' || c == '\n') {
            proof {
                lemma_find_non_ws_is(s@, i as int);
            }
            return i;
        }
        i += 1;
    }
    proof {
        lemma_find_non_ws_is(s@, n as int);
    }
    n
}

/// Scans `s` from `start` for the first whitespace character, returning
/// the absolute index (or `s.len()`).
fn scan_ws_from(s: &str, start: usize) -> (r: usize)
    requires
        start <= s@.len(),
    ensures
        start <= r <= s@.len(),
        r - start == find_ws(s@.skip(start as int)),
{
    let n = s.unicode_len();
    let mut i: usize = start;
    while i < n
        invariant
            start <= i <= n,
            n == s@.len(),
            forall|j: int| start <= j < i ==> !is_ws_char(s@[j]),
        decreases n - i,
    {
        let c = s.get_char(i);
        if c == ' ' || c == '\t' || c == '\r' || c == '\n' {
            proof {
                assert forall|j: int| 0 <= j < i - start implies !is_ws_char(
                    s@.skip(start as int)[j],
                ) by {
                    assert(s@.skip(start as int)[j] == s@[start + j]);
                }
                assert(s@.skip(start as int)[i - start] == s@[i as int]);
                lemma_find_ws_is(s@.skip(start as int), i - start);
            }
            return i;
        }
        i += 1;
    }
    proof {
        assert forall|j: int| 0 <= j < n - start implies !is_ws_char(
            s@.skip(start as int)[j],
        ) by {
            assert(s@.skip(start as int)[j] == s@[start + j]);
        }
        lemma_find_ws_is(s@.skip(start as int), n - start);
    }
    n
}

/// Extracts the path of a record line: drops leading whitespace and the
/// status token, then removes all remaining whitespace.
pub fn extract_path(line: &str) -> (p: String)
    ensures
        p@ == path_of(line@),
{
    let n = line.unicode_len();
    let a = scan_non_ws(line);
    let b = scan_ws_from(line, a);
    let mut out = String::new();
    let mut i: usize = b;
    while i < n
        invariant
            b <= i <= n,
            n == line@.len(),
            out@ == strip_ws(line@.subrange(b as int, i as int)),
        decreases n - i,
    {
        let c = line.get_char(i);
        proof {
            assert(line@.subrange(b as int, i + 1).drop_last() =~= line@.subrange(
                b as int,
                i as int,
            ));
            assert(line@.subrange(b as int, i + 1).last() == line@[i as int]);
        }
        if !(c == ' ' || c == '\t' || c == '\r' || c == '\n') {
            push_char(&mut out, c);
        }
        i += 1;
    }
    proof {
        let rest = line@.skip(a as int);
        assert(rest.skip(find_ws(rest)) =~= line@.subrange(b as int, n as int));
    }
    out
}

impl FileStatus {
    /// Decodes one record line into its status token and path.
    pub fn from_line(line: &str) -> (r: FileStatus)
        ensures
            r.status@ == status_of(line@),
            r.path@ == path_of(line@),
    {
        let a = scan_non_ws(line);
        let b = scan_ws_from(line, a);
        let status = line.substring_char(a, b).to_owned();
        proof {
            let rest = line@.skip(a as int);
            assert(rest.take(find_ws(rest)) =~= line@.subrange(a as int, b as int));
        }
        let path = extract_path(line);
        FileStatus { status, path }
    }

    /// The folder key of this record's path: its first segment, or the
    /// root sentinel `.` when the path has no `/`.
    pub fn get_folder_name(&self) -> (k: String)
        ensures
            k@ == key_of(self.path@),
    {
        folder_key_of(self.path.as_str())
    }

    /// This record's path split at every `/`; a path with no separator
    /// yields the root sentinel followed by the path itself.
    pub fn get_path_vec(&self) -> (v: Vec<String>)
        ensures
            v.deep_view() == path_vec_of(self.path@),
    {
        let p = self.path.as_str();
        let n = p.unicode_len();
        let has = scan_slash(p);
        if has < n {
            let mut done: Vec<String> = Vec::new();
            let mut cur = String::new();
            let mut i: usize = 0;
            proof {
                assert(p@.take(0) =~= Seq::<char>::empty());
                assert(done.deep_view().push(cur@) =~= split_slash_seq(p@.take(0)));
            }
            while i < n
                invariant
                    0 <= i <= n,
                    n == p@.len(),
                    done.deep_view().push(cur@) == split_slash_seq(p@.take(i as int)),
                decreases n - i,
            {
                let c = p.get_char(i);
                proof {
                    assert(p@.take(i + 1).drop_last() =~= p@.take(i as int));
                    assert(p@.take(i + 1).last() == p@[i as int]);
                }
                let ghost old_done = done.deep_view();
                let ghost old_cur = cur@;
                if c == '/' {
                    done.push(cur);
                    cur = String::new();
                    proof {
                        assert(done.deep_view() =~= old_done.push(old_cur));
                        assert(done.deep_view().push(cur@) =~= split_slash_seq(
                            p@.take(i + 1),
                        ));
                    }
                } else {
                    push_char(&mut cur, c);
                    proof {
                        let r = old_done.push(old_cur);
                        assert(r.update(r.len() - 1, r.last().push(p@[i as int])) =~= old_done.push(
                            old_cur.push(p@[i as int]),
                        ));
                        assert(done.deep_view().push(cur@) =~= split_slash_seq(
                            p@.take(i + 1),
                        ));
                    }
                }
                i += 1;
            }
            proof {
                assert(p@.take(n as int) =~= p@);
            }
            done.push(cur);
            proof {
                assert(done.deep_view() =~= split_slash_seq(p@));
            }
            done
        } else {
            let mut v: Vec<String> = Vec::new();
            proof {
                reveal_strlit(".");
                assert("."@ =~= seq!['.']);
            }
            v.push(String::from_str("."));
            v.push(self.path.clone());
            proof {
                assert(v.deep_view() =~= seq![seq!['.'], self.path@]);
            }
            v
        }
    }
}

/// A path split at every `/`, back to front: appending a `/` opens a
/// new (empty) segment, any other character extends the last one.
pub open spec fn split_slash_seq(p: Seq<char>) -> Seq<Seq<char>>
    decreases p.len(),
{
    if p.len() == 0 {
        seq![Seq::<char>::empty()]
    } else if p.last() == '/' {
        split_slash_seq(p.drop_last()).push(Seq::empty())
    } else {
        let r = split_slash_seq(p.drop_last());
        r.update(r.len() - 1, r.last().push(p.last()))
    }
}

/// What `get_path_vec` returns: the path's segments when it has a
/// separator, else the root sentinel followed by the whole path.
pub open spec fn path_vec_of(p: Seq<char>) -> Seq<Seq<char>> {
    if find_slash(p) < p.len() {
        split_slash_seq(p)
    } else {
        seq![seq!['.'], p]
    }
}

/// The folder key of a path string.
pub fn folder_key_of(path: &str) -> (k: String)
    ensures
        k@ == key_of(path@),
{
    let n = path.unicode_len();
    let f = scan_slash(path);
    if f < n {
        proof {
            assert(path@.subrange(0, f as int) =~= path@.take(f as int));
        }
        path.substring_char(0, f).to_owned()
    } else {
        proof {
            reveal_strlit(".");
            assert("."@ =~= seq!['.']);
        }
        String::from_str(".")
    }
}

/// Scans `s` from `start` for the first `/`, returning the absolute
/// index (or `s.len()`).
fn scan_slash_from(s: &str, start: usize) -> (r: usize)
    requires
        start <= s@.len(),
    ensures
        start <= r <= s@.len(),
        r - start == find_slash(s@.skip(start as int)),
{
    let n = s.unicode_len();
    let mut i: usize = start;
    while i < n
        invariant
            start <= i <= n,
            n == s@.len(),
            forall|j: int| start <= j < i ==> s@[j] != '/',
        decreases n - i,
    {
        let c = s.get_char(i);
        if c == '/' {
            proof {
                assert forall|j: int| 0 <= j < i - start implies s@.skip(start as int)[j]
                    != '/' by {
                    assert(s@.skip(start as int)[j] == s@[start + j]);
                }
                assert(s@.skip(start as int)[i - start] == s@[i as int]);
                lemma_find_slash_is(s@.skip(start as int), i - start);
            }
            return i;
        }
        i += 1;
    }
    proof {
        assert forall|j: int| 0 <= j < n - start implies s@.skip(start as int)[j] != '/' by {
            assert(s@.skip(start as int)[j] == s@[start + j]);
        }
        lemma_find_slash_is(s@.skip(start as int), n - start);
    }
    n
}

/// The folder a path purges by: its second segment when it has two
/// separators, else its folder key.
pub fn resolve_folder(path: &str) -> (f: String)
    ensures
        f@ == folder_for(path@),
{
    let n = path.unicode_len();
    let f1 = scan_slash(path);
    if f1 < n {
        let f2 = scan_slash_from(path, f1 + 1);
        if f2 < n {
            proof {
                let rest = path@.skip(f1 + 1);
                assert(rest.take(find_slash(rest)) =~= path@.subrange(f1 + 1, f2 as int));
            }
            path.substring_char(f1 + 1, f2).to_owned()
        } else {
            proof {
                assert(path@.take(f1 as int) =~= path@.subrange(0, f1 as int));
            }
            path.substring_char(0, f1).to_owned()
        }
    } else {
        proof {
            reveal_strlit(".");
            assert("."@ =~= seq!['.']);
        }
        String::from_str(".")
    }
}

/// Builds the purge target `domain + "/" + folder`.
pub fn make_target(domain: &str, folder: &str) -> (t: String)
    ensures
        t@ == domain@ + seq!['/'] + folder@,
{
    proof {
        reveal_strlit("/");
        assert("/"@ =~= seq!['/']);
    }
    let mut t = domain.to_owned();
    t.append("/");
    t.append(folder);
    t
}

/// Classifies a list of raw change-record lines against a site domain.
///
/// Returns `Full` exactly when some record's folder key is neither
/// skipped nor a recognized root; classification stops at the first such
/// record. Otherwise returns the targets of the contributing records,
/// in input order, duplicates kept.
pub fn classify(records: &Vec<String>, domain: &str) -> (d: PurgeDecision)
    ensures
        d@ == classify_spec(records.deep_view(), domain@),
{
    let ghost lines = records.deep_view();
    let arch = String::from_str("archetypes");
    let root_content = String::from_str("content");
    let root_static = String::from_str("static");
    let mut v: Vec<String> = Vec::new();
    let mut i: usize = 0;
    while i < records.len()
        invariant
            0 <= i <= records.len(),
            lines == records.deep_view(),
            lines.len() == records.len(),
            arch@ == "archetypes"@,
            root_content@ == "content"@,
            root_static@ == "static"@,
            forall|j: int| 0 <= j < i ==> !forces_full(lines[j]),
            v.deep_view() == targets_of(lines.take(i as int), domain@),
        decreases records.len() - i,
    {
        proof {
            assert(lines[i as int] == records[i as int]@);
            assert(lines.take(i + 1).drop_last() =~= lines.take(i as int));
            assert(lines.take(i + 1).last() == lines[i as int]);
        }
        let fs = FileStatus::from_line(records[i].as_str());
        let key = fs.get_folder_name();
        let dotted = key.as_str().unicode_len() > 0 && key.as_str().get_char(0) == '.';
        if dotted || key == arch {
            proof {
                assert(skip_rule(key_of(path_of(lines[i as int]))));
            }
        } else if key == root_content || key == root_static {
            let folder = resolve_folder(fs.path.as_str());
            let target = make_target(domain, folder.as_str());
            let ghost old_dv = v.deep_view();
            v.push(target);
            proof {
                assert(v.deep_view() =~= old_dv.push(target@));
                assert(contributes(lines[i as int]));
                assert(target@ == target_of(lines[i as int], domain@));
            }
        } else {
            proof {
                assert(!skip_rule(key_of(path_of(lines[i as int]))));
                assert(forces_full(lines[i as int]));
                assert(any_forces_full(lines));
            }
            return PurgeDecision::Full;
        }
        i += 1;
    }
    proof {
        assert(lines.take(records.len() as int) =~= lines);
        assert(!any_forces_full(lines));
    }
    PurgeDecision::Targeted(v)
}

} // verus!
