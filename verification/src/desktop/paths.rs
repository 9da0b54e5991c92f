//! Path suggestions for the vault picker: which directory entries are offered, how a
//! leading `~` expands, and the order in which suggestions are shown (likely vault files,
//! then directories, then other files, each group by case-insensitive name, at most eight).
use vstd::prelude::*;

use crate::text::{
    ends_with, push_char, spec_ends_with, spec_starts_with, lowercase_of, starts_with,
    to_lowercase,
};

verus! {

/// At most this many suggestions are shown.
pub const MAX_SUGGESTIONS: usize = 8;

/// The separator appended to a directory's path.
pub const PATH_SEPARATOR: char = '/';

/// Whether a suggestion is a directory or a file.
#[derive(Debug, Clone, Copy, PartialEq, Eq, Structural)]
pub enum PathSuggestionKind {
    Directory,
    File,
}

/// One suggestion for the vault picker.
#[derive(Debug, Clone, PartialEq, Eq)]
pub struct PathSuggestionDto {
    pub name: String,
    pub path: String,
    pub kind: PathSuggestionKind,
    pub vault_candidate: bool,
}

/// The mathematical value of a suggestion.
#[verifier::ext_equal]
pub struct SuggestionModel {
    pub name: Seq<char>,
    pub path: Seq<char>,
    pub kind: PathSuggestionKind,
    pub vault_candidate: bool,
}

impl View for PathSuggestionDto {
    type V = SuggestionModel;

    open spec fn view(&self) -> SuggestionModel {
        SuggestionModel {
            name: self.name@,
            path: self.path@,
            kind: self.kind,
            vault_candidate: self.vault_candidate,
        }
    }
}

/// The views of a list of suggestions.
pub open spec fn suggestions_view(v: Seq<PathSuggestionDto>) -> Seq<SuggestionModel> {
    v.map_values(|s: PathSuggestionDto| s@)
}

/// The group of a suggestion: 0 for a likely vault file, 1 for a directory, 2 for any other
/// file.
pub open spec fn rank_of(s: SuggestionModel) -> u8 {
    match s.kind {
        PathSuggestionKind::File => if s.vault_candidate {
            0
        } else {
            2
        },
        PathSuggestionKind::Directory => 1,
    }
}

/// The group of a suggestion: likely vault files first, then directories, then other files.
pub fn suggestion_rank(suggestion: &PathSuggestionDto) -> (r: u8)
    ensures
        r == rank_of(suggestion@),
{
    match (suggestion.kind, suggestion.vault_candidate) {
        (PathSuggestionKind::File, true) => 0,
        (PathSuggestionKind::Directory, _) => 1,
        (PathSuggestionKind::File, false) => 2,
    }
}

/// Whether a file name looks like a vault: it ends in `.arca` or `.kdbx`, in any case.
pub open spec fn looks_like_vault(name: Seq<char>) -> bool {
    spec_ends_with(lowercase_of(name), ".arca"@) || spec_ends_with(
        lowercase_of(name),
        ".kdbx"@,
    )
}

/// Whether a file name looks like a supported vault file.
pub fn is_vault_candidate(name: &str) -> (r: bool)
    ensures
        r == looks_like_vault(name@),
{
    let lower = to_lowercase(name);
    ends_with(lower.as_str(), ".arca") || ends_with(lower.as_str(), ".kdbx")
}

/// `base` followed by `rest`, with one separator between them; an absolute `rest` replaces
/// `base`.
pub open spec fn joined(base: Seq<char>, rest: Seq<char>) -> Seq<char> {
    if rest.len() > 0 && rest[0] == PATH_SEPARATOR {
        rest
    } else if base.len() == 0 || base.last() == PATH_SEPARATOR {
        base + rest
    } else {
        base.push(PATH_SEPARATOR) + rest
    }
}

/// What a typed path means: `~` is the home directory, `~/rest` is `rest` inside it, an
/// absolute path stays as it is, and a relative one is taken inside the home directory.
/// Without a home directory the text stays as it is.
pub open spec fn expanded(value: Seq<char>, home: Option<Seq<char>>) -> Seq<char> {
    if value == "~"@ {
        match home {
            Some(h) => h,
            None => value,
        }
    } else if spec_starts_with(value, "~/"@) {
        match home {
            Some(h) => joined(h, value.subrange(2, value.len() as int)),
            None => value,
        }
    } else if value.len() > 0 && value[0] == PATH_SEPARATOR {
        value
    } else {
        match home {
            Some(h) => joined(h, value),
            None => value,
        }
    }
}

/// `base` joined with `rest`.
fn join(base: &str, rest: &str) -> (r: String)
    ensures
        r@ == joined(base@, rest@),
{
    if rest.unicode_len() > 0 && rest.get_char(0) == PATH_SEPARATOR {
        return String::from_str(rest);
    }
    let n = base.unicode_len();
    let mut out = String::from_str(base);
    if n > 0 && base.get_char(n - 1) != PATH_SEPARATOR {
        push_char(&mut out, PATH_SEPARATOR);
    }
    out.append(rest);
    out
}

/// Expands a leading `~` and anchors a relative path in the home directory.
pub fn expand_path(value: &str, home: Option<&str>) -> (r: String)
    ensures
        r@ == expanded(value@, match home {
            Some(h) => Some(h@),
            None => None,
        }),
{
    proof {
        reveal_strlit("~");
        reveal_strlit("~/");
    }
    let n = value.unicode_len();
    let tilde = n == 1 && value.get_char(0) == '~';
    if tilde {
        assert(value@ =~= "~"@);
        return match home {
            Some(h) => String::from_str(h),
            None => String::from_str(value),
        };
    }
    assert(value@ != "~"@);
    if starts_with(value, "~/") {
        let rest = value.substring_char(2, n);
        return match home {
            Some(h) => join(h, rest),
            None => String::from_str(value),
        };
    }
    if n > 0 && value.get_char(0) == PATH_SEPARATOR {
        return String::from_str(value);
    }
    match home {
        Some(h) => join(h, value),
        None => String::from_str(value),
    }
}

/// The suggestion offered for a directory entry named `raw_name` at `display_path`, or none:
/// only directories and regular files are offered, and only those whose lowercase name starts
/// with `prefix` when one is given. A directory's name and path end with a separator.
pub open spec fn suggestion_for(
    raw_name: Seq<char>,
    is_dir: bool,
    is_file: bool,
    prefix: Seq<char>,
    display_path: Seq<char>,
) -> Option<SuggestionModel> {
    if !is_dir && !is_file {
        None
    } else if prefix.len() > 0 && !spec_starts_with(lowercase_of(raw_name), prefix) {
        None
    } else {
        Some(
            SuggestionModel {
                name: if is_dir {
                    raw_name.push(PATH_SEPARATOR)
                } else {
                    raw_name
                },
                path: if is_dir && !spec_ends_with(display_path, seq![PATH_SEPARATOR]) {
                    display_path.push(PATH_SEPARATOR)
                } else {
                    display_path
                },
                kind: if is_dir {
                    PathSuggestionKind::Directory
                } else {
                    PathSuggestionKind::File
                },
                vault_candidate: !is_dir && looks_like_vault(raw_name),
            },
        )
    }
}

/// The suggestion for one directory entry, from what the file system reported of it.
pub fn path_suggestion(raw_name: &str, is_dir: bool, is_file: bool, prefix: &str, display_path: String) -> (r: Option<PathSuggestionDto>)
    ensures
        match r {
            Some(s) => suggestion_for(raw_name@, is_dir, is_file, prefix@, display_path@) == Some(s@),
            None => suggestion_for(raw_name@, is_dir, is_file, prefix@, display_path@) is None,
        },
{
    if !is_dir && !is_file {
        return None;
    }
    if prefix.unicode_len() > 0 {
        let lower = to_lowercase(raw_name);
        if !starts_with(lower.as_str(), prefix) {
            return None;
        }
    }
    let mut name = String::from_str(raw_name);
    if is_dir {
        push_char(&mut name, PATH_SEPARATOR);
    }
    let mut path = display_path;
    if is_dir {
        let n = path.as_str().unicode_len();
        let ends = n > 0 && path.as_str().get_char(n - 1) == PATH_SEPARATOR;
        proof {
            if n > 0 {
                let tail = path@.subrange(path@.len() - 1, path@.len() as int);
                assert(tail =~= seq![path@.last()]);
                assert(tail[0] == path@.last());
                if tail == seq![PATH_SEPARATOR] {
                    assert(seq![PATH_SEPARATOR][0] == PATH_SEPARATOR);
                }
            }
            assert(ends == spec_ends_with(path@, seq![PATH_SEPARATOR]));
        }
        if !ends {
            push_char(&mut path, PATH_SEPARATOR);
        }
    }
    let vault_candidate = !is_dir && is_vault_candidate(raw_name);
    let suggestion = PathSuggestionDto {
        name,
        path,
        kind: if is_dir {
            PathSuggestionKind::Directory
        } else {
            PathSuggestionKind::File
        },
        vault_candidate,
    };
    proof {
        let expected = suggestion_for(raw_name@, is_dir, is_file, prefix@, display_path@)->0;
        assert(suggestion@.name =~= expected.name);
        assert(suggestion@.path =~= expected.path);
        assert(suggestion@ =~= expected);
    }
    Some(suggestion)
}

/// Whether `a` comes strictly before `b` in code-point order (a proper prefix comes first).
pub open spec fn lex_less(a: Seq<char>, b: Seq<char>) -> bool
    decreases a.len(),
{
    if a.len() == 0 {
        b.len() > 0
    } else if b.len() == 0 {
        false
    } else if a[0] != b[0] {
        (a[0] as int) < (b[0] as int)
    } else {
        lex_less(a.drop_first(), b.drop_first())
    }
}

/// Whether suggestion `a` is shown before `b`: a lower group, or the same group and a
/// lowercase name that comes first.
pub open spec fn shown_before(a: SuggestionModel, b: SuggestionModel) -> bool {
    ||| rank_of(a) < rank_of(b)
    ||| rank_of(a) == rank_of(b) && lex_less(lowercase_of(a.name), lowercase_of(b.name))
}

/// Where a suggestion goes in an ordered list: after every suggestion it is not shown
/// before, so suggestions that tie keep their order.
pub open spec fn insert_position(s: Seq<SuggestionModel>, x: SuggestionModel) -> nat
    decreases s.len(),
{
    if s.len() == 0 {
        0
    } else if shown_before(x, s.last()) {
        insert_position(s.drop_last(), x)
    } else {
        s.len()
    }
}

/// The suggestions in display order: each goes in after those already placed that it does
/// not come before.
pub open spec fn ordered_suggestions(s: Seq<SuggestionModel>) -> Seq<SuggestionModel>
    decreases s.len(),
{
    if s.len() == 0 {
        s
    } else {
        let t = ordered_suggestions(s.drop_last());
        t.insert(insert_position(t, s.last()) as int, s.last())
    }
}

/// The suggestions shown: the first eight in display order.
pub open spec fn shown_suggestions(s: Seq<SuggestionModel>) -> Seq<SuggestionModel> {
    let t = ordered_suggestions(s);
    if t.len() > MAX_SUGGESTIONS {
        t.take(MAX_SUGGESTIONS as int)
    } else {
        t
    }
}

/// Whether `a` comes strictly before `b` in code-point order.
fn lex_lt(a: &str, b: &str) -> (r: bool)
    ensures
        r == lex_less(a@, b@),
{
    let n = a.unicode_len();
    let m = b.unicode_len();
    let mut i: usize = 0;
    proof {
        assert(a@.skip(0) =~= a@);
        assert(b@.skip(0) =~= b@);
    }
    while i < n && i < m
        invariant
            n == a@.len(),
            m == b@.len(),
            i <= n,
            i <= m,
            lex_less(a@, b@) == lex_less(a@.skip(i as int), b@.skip(i as int)),
        decreases n - i,
    {
        let x = a.get_char(i);
        let y = b.get_char(i);
        if x != y {
            return (x as u32) < (y as u32);
        }
        proof {
            assert(a@.skip(i as int).drop_first() =~= a@.skip(i + 1));
            assert(b@.skip(i as int).drop_first() =~= b@.skip(i + 1));
        }
        i = i + 1;
    }
    i < m
}

/// Whether the suggestion with group `rank` and lowercase name `name` is shown before the
/// one with `other_rank` and `other_name`.
fn key_before(rank: u8, name: &String, other_rank: u8, other_name: &String) -> (r: bool)
    ensures
        r == (rank < other_rank || (rank == other_rank && lex_less(name@, other_name@))),
{
    rank < other_rank || (rank == other_rank && lex_lt(name.as_str(), other_name.as_str()))
}

/// Puts suggestions in display order (likely vault files, directories, other files; each
/// group by lowercase name, ties in their given order) and keeps the first eight.
pub fn order_suggestions(suggestions: Vec<PathSuggestionDto>) -> (r: Vec<PathSuggestionDto>)
    ensures
        suggestions_view(r@) == shown_suggestions(suggestions_view(suggestions@)),
{
    let ghost all = suggestions_view(suggestions@);
    let mut input = suggestions;
    let mut out: Vec<PathSuggestionDto> = Vec::new();
    let mut ranks: Vec<u8> = Vec::new();
    let mut names: Vec<String> = Vec::new();
    let mut k: usize = 0;
    let ghost total = all.len();
    assert(total == input.len());
    while input.len() > 0
        invariant
            k + input@.len() == total,
            total <= usize::MAX,
            total == all.len(),
            suggestions_view(input@) == all.skip(k as int),
            suggestions_view(out@) == ordered_suggestions(all.take(k as int)),
            ranks@.len() == out@.len(),
            names@.len() == out@.len(),
            forall|i: int| 0 <= i < out@.len() ==> #[trigger] ranks@[i] == rank_of(out@[i]@),
            forall|i: int|
                0 <= i < out@.len() ==> (#[trigger] names@[i])@ == lowercase_of(out@[i]@.name),
        decreases input@.len(),
    {
        let ghost before_input = input@;
        let x = input.remove(0);
        let ghost xv = x@;
        proof {
            assert(suggestions_view(before_input)[0] == xv);
            assert(all.skip(k as int)[0] == xv);
            assert forall|i: int| 0 <= i < input@.len() implies suggestions_view(input@)[i] == all.skip(
                k + 1,
            )[i] by {
                assert(input@[i] == before_input[i + 1]);
                assert(suggestions_view(before_input)[i + 1] == all.skip(k as int)[i + 1]);
            }
            assert(suggestions_view(input@) =~= all.skip(k + 1));
            assert(all.take(k + 1).drop_last() =~= all.take(k as int));
            assert(all.take(k + 1).last() == xv);
        }
        let rank = suggestion_rank(&x);
        let name = to_lowercase(x.name.as_str());
        let ghost placed = suggestions_view(out@);
        let mut j: usize = out.len();
        proof {
            assert(placed.take(j as int) =~= placed);
        }
        while j > 0 && key_before(rank, &name, ranks[j - 1], &names[j - 1])
            invariant
                j <= out@.len(),
                placed == suggestions_view(out@),
                ranks@.len() == out@.len(),
                names@.len() == out@.len(),
                forall|i: int| 0 <= i < out@.len() ==> #[trigger] ranks@[i] == rank_of(out@[i]@),
                forall|i: int|
                    0 <= i < out@.len() ==> (#[trigger] names@[i])@ == lowercase_of(out@[i]@.name),
                rank == rank_of(xv),
                name@ == lowercase_of(xv.name),
                insert_position(placed, xv) == insert_position(placed.take(j as int), xv),
            decreases j,
        {
            proof {
                assert(placed.take(j as int).drop_last() =~= placed.take(j - 1));
                assert(placed.take(j as int).last() == out@[j - 1]@);
            }
            j = j - 1;
        }
        proof {
            if j > 0 {
                assert(placed.take(j as int).last() == out@[j - 1]@);
            }
            assert(insert_position(placed, xv) == j);
        }
        out.insert(j, x);
        ranks.insert(j, rank);
        names.insert(j, name);
        proof {
            assert(suggestions_view(out@) =~= placed.insert(j as int, xv));
        }
        k = k + 1;
    }
    proof {
        assert(all.take(k as int) =~= all);
    }
    if out.len() > MAX_SUGGESTIONS {
        out.truncate(MAX_SUGGESTIONS);
        proof {
            assert(suggestions_view(out@) =~= ordered_suggestions(all).take(MAX_SUGGESTIONS as int));
        }
    }
    out
}

proof fn lemma_lex_asymmetric(a: Seq<char>, b: Seq<char>)
    requires
        lex_less(a, b),
    ensures
        !lex_less(b, a),
    decreases a.len(),
{
    if a.len() > 0 && b.len() > 0 && a[0] == b[0] {
        lemma_lex_asymmetric(a.drop_first(), b.drop_first());
    }
}

proof fn lemma_lex_transitive(a: Seq<char>, b: Seq<char>, c: Seq<char>)
    requires
        lex_less(a, b),
        lex_less(b, c),
    ensures
        lex_less(a, c),
    decreases a.len(),
{
    if a.len() > 0 && a[0] == b[0] && b[0] == c[0] {
        lemma_lex_transitive(a.drop_first(), b.drop_first(), c.drop_first());
    }
}

proof fn lemma_lex_total(a: Seq<char>, b: Seq<char>)
    requires
        a != b,
    ensures
        lex_less(a, b) || lex_less(b, a),
    decreases a.len(),
{
    if a.len() == 0 && b.len() == 0 {
        assert(a =~= b);
    }
    if a.len() > 0 && b.len() > 0 && a[0] == b[0] {
        if a.drop_first() == b.drop_first() {
            assert(a =~= seq![a[0]] + a.drop_first());
            assert(b =~= seq![b[0]] + b.drop_first());
        }
        lemma_lex_total(a.drop_first(), b.drop_first());
    }
    if a.len() > 0 && b.len() > 0 && a[0] != b[0] {
        assert((a[0] as int) != (b[0] as int));
    }
}

proof fn lemma_shown_before_asymmetric(a: SuggestionModel, b: SuggestionModel)
    requires
        shown_before(a, b),
    ensures
        !shown_before(b, a),
{
    if rank_of(a) == rank_of(b) {
        lemma_lex_asymmetric(lowercase_of(a.name), lowercase_of(b.name));
    }
}

/// Display order is a weak order: if `a` comes before `c`, then any `b` comes after `a` or
/// before `c`.
proof fn lemma_shown_before_split(a: SuggestionModel, b: SuggestionModel, c: SuggestionModel)
    requires
        shown_before(a, c),
    ensures
        shown_before(a, b) || shown_before(b, c),
{
    let la = lowercase_of(a.name);
    let lb = lowercase_of(b.name);
    let lc = lowercase_of(c.name);
    if rank_of(a) == rank_of(b) && rank_of(b) == rank_of(c) && !lex_less(la, lb) {
        if la == lb {
        } else {
            lemma_lex_total(la, lb);
            lemma_lex_transitive(lb, la, lc);
        }
    }
}

/// Whether no suggestion of `t` is shown before an earlier one.
pub open spec fn in_display_order(t: Seq<SuggestionModel>) -> bool {
    forall|i: int, j: int| 0 <= i < j < t.len() ==> !shown_before(#[trigger] t[j], #[trigger] t[i])
}

proof fn lemma_insert_position(t: Seq<SuggestionModel>, x: SuggestionModel)
    ensures
        insert_position(t, x) <= t.len(),
        forall|i: int| insert_position(t, x) <= i < t.len() ==> shown_before(x, #[trigger] t[i]),
        insert_position(t, x) > 0 ==> !shown_before(x, t[insert_position(t, x) - 1]),
    decreases t.len(),
{
    if t.len() > 0 && shown_before(x, t.last()) {
        let u = t.drop_last();
        lemma_insert_position(u, x);
        assert forall|i: int| insert_position(t, x) <= i < t.len() implies shown_before(
            x,
            #[trigger] t[i],
        ) by {
            if i < t.len() - 1 {
                assert(t[i] == u[i]);
            }
        }
        if insert_position(t, x) > 0 {
            assert(t[insert_position(t, x) - 1] == u[insert_position(t, x) - 1]);
        }
    }
}

proof fn lemma_insert_keeps_display_order(t: Seq<SuggestionModel>, x: SuggestionModel)
    requires
        in_display_order(t),
    ensures
        in_display_order(t.insert(insert_position(t, x) as int, x)),
{
    lemma_insert_position(t, x);
    let p = insert_position(t, x) as int;
    let u = t.insert(p, x);
    assert forall|i: int, j: int| 0 <= i < j < u.len() implies !shown_before(
        #[trigger] u[j],
        #[trigger] u[i],
    ) by {
        if j < p {
            assert(u[i] == t[i] && u[j] == t[j]);
        } else if i > p {
            assert(u[i] == t[i - 1] && u[j] == t[j - 1]);
        } else if i < p && j > p {
            assert(u[i] == t[i] && u[j] == t[j - 1]);
        } else if i == p {
            assert(u[j] == t[j - 1]);
            lemma_shown_before_asymmetric(x, t[j - 1]);
        } else {
            assert(j == p && u[i] == t[i]);
            if shown_before(x, t[i]) {
                lemma_shown_before_split(x, t[p - 1], t[i]);
                if i < p - 1 {
                    assert(!shown_before(t[p - 1], t[i]));
                }
            }
        }
    }
}

/// Suggestions in display order never show one before a suggestion it should follow.
pub proof fn ordered_suggestions_are_in_display_order(s: Seq<SuggestionModel>)
    ensures
        in_display_order(ordered_suggestions(s)),
    decreases s.len(),
{
    if s.len() > 0 {
        ordered_suggestions_are_in_display_order(s.drop_last());
        lemma_insert_keeps_display_order(ordered_suggestions(s.drop_last()), s.last());
    }
}

/// Ordering suggestions keeps every suggestion exactly as often as it was given.
pub proof fn ordered_suggestions_keep_every_suggestion(s: Seq<SuggestionModel>)
    ensures
        ordered_suggestions(s).to_multiset() == s.to_multiset(),
    decreases s.len(),
{
    if s.len() > 0 {
        let t = ordered_suggestions(s.drop_last());
        ordered_suggestions_keep_every_suggestion(s.drop_last());
        lemma_insert_position(t, s.last());
        vstd::seq_lib::to_multiset_insert(t, insert_position(t, s.last()) as int, s.last());
        vstd::seq_lib::to_multiset_build(s.drop_last(), s.last());
        assert(s.drop_last().push(s.last()) =~= s);
    }
}

/// Where the picker lists suggestions for a typed path, and the lowercase name prefix it
/// filters them by.
pub struct SuggestionLocation {
    pub directory: String,
    pub prefix: String,
}

/// Whether `text` ends with a path separator of either platform.
pub open spec fn ends_with_separator(text: Seq<char>) -> bool {
    text.len() > 0 && (text.last() == '/' || text.last() == '\\')
}

/// The directory and prefix for the typed text `trimmed` (its leading whitespace removed),
/// given its expansion `expanded` and what the platform's path rules say of the expansion:
/// its parent, whether it is absolute, and its file name. Nothing typed lists the home
/// directory (or the root without one); `~` or a trailing separator lists the expansion
/// itself; anything else lists the expansion's parent (else the root for an absolute path,
/// the home directory, or the current directory) filtered by its lowercase file name.
pub open spec fn location_for(
    trimmed: Seq<char>,
    expanded: Seq<char>,
    home: Option<Seq<char>>,
    parent: Option<Seq<char>>,
    expanded_is_absolute: bool,
    file_name: Option<Seq<char>>,
) -> (Seq<char>, Seq<char>) {
    if trimmed.len() == 0 {
        (
            match home {
                Some(h) => h,
                None => "/"@,
            },
            Seq::empty(),
        )
    } else if trimmed == "~"@ || ends_with_separator(trimmed) {
        (expanded, Seq::empty())
    } else {
        let directory = match parent {
            Some(p) if p.len() > 0 => p,
            _ => if expanded_is_absolute {
                "/"@
            } else {
                match home {
                    Some(h) => h,
                    None => "."@,
                }
            },
        };
        let prefix = match file_name {
            Some(n) => lowercase_of(n),
            None => lowercase_of(Seq::empty()),
        };
        (directory, prefix)
    }
}

/// Decides where to look for suggestions, as [`location_for`] describes.
pub fn suggestion_location(
    trimmed: &str,
    expanded: String,
    home: Option<String>,
    parent: Option<String>,
    expanded_is_absolute: bool,
    file_name: Option<String>,
) -> (r: SuggestionLocation)
    ensures
        (r.directory@, r.prefix@) == location_for(
            trimmed@,
            expanded@,
            crate::text::opt_view(home),
            crate::text::opt_view(parent),
            expanded_is_absolute,
            crate::text::opt_view(file_name),
        ),
{
    proof {
        reveal_strlit("~");
        reveal_strlit("/");
        reveal_strlit(".");
        reveal_strlit("");
    }
    let n = trimmed.unicode_len();
    if n == 0 {
        let directory = match home {
            Some(h) => h,
            None => String::from_str("/"),
        };
        return SuggestionLocation { directory, prefix: String::new() };
    }
    let last = trimmed.get_char(n - 1);
    let tilde = n == 1 && trimmed.get_char(0) == '~';
    proof {
        if tilde {
            assert(trimmed@ =~= "~"@);
        }
        if trimmed@ == "~"@ {
            assert(trimmed@[0] == '~');
        }
    }
    if tilde || last == '/' || last == '\\' {
        return SuggestionLocation { directory: expanded, prefix: String::new() };
    }
    let directory = match parent {
        Some(p) if p.as_str().unicode_len() > 0 => p,
        _ => if expanded_is_absolute {
            String::from_str("/")
        } else {
            match home {
                Some(h) => h,
                None => String::from_str("."),
            }
        },
    };
    let prefix = match file_name {
        Some(name) => to_lowercase(name.as_str()),
        None => to_lowercase(""),
    };
    assert(""@ =~= Seq::<char>::empty());
    SuggestionLocation { directory, prefix }
}

} // verus!
