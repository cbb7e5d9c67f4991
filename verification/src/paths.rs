//! Confining tool paths to the workspace folder.
//!
//! A requested path is split into components, `.` and `..` are resolved
//! lexically, and the result is accepted only if its normalised text lies
//! under the normalised workspace folder.
use vstd::prelude::*;
use vstd::string::StringExecFns;
use crate::text::{chars_of, string_of, string_of_range, chars_equal, chars_start_with, push_char};

verus! {

/// One component of a path, as the standard library splits paths.
#[derive(Debug)]
pub enum PathPart {
    /// A Windows prefix such as `C:` or `\\server\share`.
    Prefix(String),
    /// The root separator.
    Root,
    /// A `.` component.
    Current,
    /// A `..` component.
    Parent,
    /// A plain name.
    Normal(String),
}

/// The mathematical value of a [`PathPart`].
pub enum PartView {
    Prefix(Seq<char>),
    Root,
    Current,
    Parent,
    Normal(Seq<char>),
}

impl View for PathPart {
    type V = PartView;

    open spec fn view(&self) -> PartView {
        match self {
            PathPart::Prefix(s) => PartView::Prefix(s@),
            PathPart::Root => PartView::Root,
            PathPart::Current => PartView::Current,
            PathPart::Parent => PartView::Parent,
            PathPart::Normal(s) => PartView::Normal(s@),
        }
    }
}

impl PathPart {
    /// A copy of this component.
    pub fn duplicate(&self) -> (r: PathPart)
        ensures
            r@ == self@,
    {
        match self {
            PathPart::Prefix(s) => PathPart::Prefix(s.clone()),
            PathPart::Root => PathPart::Root,
            PathPart::Current => PathPart::Current,
            PathPart::Parent => PathPart::Parent,
            PathPart::Normal(s) => PathPart::Normal(s.clone()),
        }
    }
}

/// The views of a sequence of components.
pub open spec fn parts_view(parts: Seq<PathPart>) -> Seq<PartView> {
    parts.map_values(|p: PathPart| p@)
}

/// A plain name: not empty, not `.` and not `..`.
pub open spec fn is_plain_name(n: Seq<char>) -> bool {
    n.len() > 0 && n != seq!['.'] && n != seq!['.', '.']
}

/// Every name in `s` is plain.
pub open spec fn names_plain(s: Seq<PartView>) -> bool {
    forall|i: int| 0 <= i < s.len() ==> (#[trigger] s[i] matches PartView::Normal(n) ==> is_plain_name(n))
}

/// The components that `std::path::Path::components` yields for `path`
/// on the platform the crate is built for.
pub uninterp spec fn std_path_components(path: Seq<char>) -> Seq<PartView>;

/// Whether `std::path::is_separator` counts `c` as a separator of path
/// components on the platform the crate is built for.
pub uninterp spec fn std_is_separator(c: char) -> bool;

/// The result of `str::to_lowercase` on `s`.
pub uninterp spec fn str_lowercase(s: Seq<char>) -> Seq<char>;

/// Splits `path` with `std::path::Path::components`, converting each
/// component one for one. The contract claims that the result is the
/// components std yields for this text, and what std documents of its plain
/// names: `.` and `..` are components of their own kinds and repeated
/// separators are skipped, so a plain name is never empty, `.` or `..`.
#[verifier::external_body]
fn path_components(path: &str) -> (r: Vec<PathPart>)
    ensures
        parts_view(r@) == std_path_components(path@),
        names_plain(parts_view(r@)),
{
    let mut parts = Vec::new();
    for c in std::path::Path::new(path).components() {
        parts.push(match c {
            std::path::Component::Prefix(p) => PathPart::Prefix(p.as_os_str().to_string_lossy().into_owned()),
            std::path::Component::RootDir => PathPart::Root,
            std::path::Component::CurDir => PathPart::Current,
            std::path::Component::ParentDir => PathPart::Parent,
            std::path::Component::Normal(n) => PathPart::Normal(n.to_string_lossy().into_owned()),
        });
    }
    parts
}

/// Asks `std::path::is_separator` whether `c` separates path components;
/// the contract names the answer.
#[verifier::external_body]
fn is_path_separator(c: char) -> (b: bool)
    ensures
        b == std_is_separator(c),
{
    std::path::is_separator(c)
}

/// The separator a path buffer puts between names on this platform.
pub fn main_separator() -> (c: char)
    ensures
        c == platform_separator(),
{
    if is_path_separator('\\') {
        '\\'
    } else {
        '/'
    }
}

/// Lower-cases `s` with `str::to_lowercase`; the contract only names the
/// result, since Unicode case mapping is not restated here.
#[verifier::external_body]
fn to_lowercase(s: &str) -> (r: String)
    ensures
        r@ == str_lowercase(s@),
{
    s.to_lowercase()
}

// ---------------------------------------------------------------------
// Specification
// ---------------------------------------------------------------------

/// Applies one component to a path under construction, as pushing it onto
/// (or, for `..`, popping from) a path buffer does: `..` drops a trailing
/// name, `.` is skipped, a prefix starts over, a root keeps only a prefix.
pub open spec fn resolve_step(acc: Seq<PartView>, p: PartView) -> Seq<PartView> {
    match p {
        PartView::Parent => if acc.len() > 0 && acc.last() is Normal {
            acc.drop_last()
        } else {
            acc
        },
        PartView::Current => acc,
        PartView::Prefix(_) => seq![p],
        PartView::Root => if acc.len() > 0 && acc[0] is Prefix {
            seq![acc[0], p]
        } else {
            seq![p]
        },
        PartView::Normal(_) => acc.push(p),
    }
}

/// Resolves `.` and `..` in a component sequence, left to right.
pub open spec fn resolve_parts(parts: Seq<PartView>) -> Seq<PartView>
    decreases parts.len(),
{
    if parts.len() == 0 {
        seq![]
    } else {
        resolve_step(resolve_parts(parts.drop_last()), parts.last())
    }
}

/// The separator a path buffer puts between names on the platform the
/// crate is built for: a backslash where the backslash separates components
/// (Windows), else `/` (Unix, where `/` is the only separator).
pub open spec fn platform_separator() -> char {
    if std_is_separator('\\') {
        '\\'
    } else {
        '/'
    }
}

/// The text a component adds after the components `prev`: names are
/// separated by `sep`, a root is `sep` itself, a prefix is its own text.
pub open spec fn part_text(prev: Seq<PartView>, p: PartView, sep: char) -> Seq<char> {
    match p {
        PartView::Prefix(s) => s,
        PartView::Root => seq![sep],
        PartView::Normal(s) => if prev.len() > 0 && prev.last() is Normal {
            seq![sep] + s
        } else {
            s
        },
        _ => Seq::empty(),
    }
}

/// The text of a component sequence, with `sep` between names.
pub open spec fn render_with(parts: Seq<PartView>, sep: char) -> Seq<char>
    decreases parts.len(),
{
    if parts.len() == 0 {
        Seq::empty()
    } else {
        render_with(parts.drop_last(), sep) + part_text(parts.drop_last(), parts.last(), sep)
    }
}

/// The text of a component sequence.
pub open spec fn render_parts(parts: Seq<PartView>) -> Seq<char> {
    render_with(parts, platform_separator())
}

/// `s` with every backslash turned into a forward slash.
pub open spec fn forward_slashes(s: Seq<char>) -> Seq<char> {
    s.map_values(|c: char| if c == '\\' { '/' } else { c })
}

/// The form in which paths are compared: forward slashes, lower case.
pub open spec fn normalized(s: Seq<char>) -> Seq<char> {
    str_lowercase(forward_slashes(s))
}

/// The normalised workspace folder, always ending in `/`.
pub open spec fn workspace_prefix(workspace: Seq<char>) -> Seq<char> {
    let w = normalized(workspace);
    if w.len() > 0 && w.last() == '/' {
        w
    } else {
        w.push('/')
    }
}

/// `s` without the leading occurrences of `c`.
pub open spec fn trim_start(s: Seq<char>, c: char) -> Seq<char>
    decreases s.len(),
{
    if s.len() > 0 && s[0] == c {
        trim_start(s.drop_first(), c)
    } else {
        s
    }
}

/// `s` without the trailing occurrences of `c`.
pub open spec fn trim_end(s: Seq<char>, c: char) -> Seq<char>
    decreases s.len(),
{
    if s.len() > 0 && s.last() == c {
        trim_end(s.drop_last(), c)
    } else {
        s
    }
}

/// `p` is a prefix of `s`.
pub open spec fn starts_with(s: Seq<char>, p: Seq<char>) -> bool {
    p.len() <= s.len() && s.take(p.len() as int) == p
}

/// A drive-letter path such as `C:\x`: its second byte is `:`.
pub open spec fn has_drive(path: Seq<char>) -> bool {
    path.len() >= 2 && (path[0] as u32) < 128 && path[1] == ':'
}

/// A UNC path, starting with two backslashes.
pub open spec fn is_unc(path: Seq<char>) -> bool {
    path.len() >= 2 && path[0] == '\\' && path[1] == '\\'
}

/// A path that is taken as it is rather than under the workspace.
pub open spec fn is_true_absolute(path: Seq<char>) -> bool {
    has_drive(path) || is_unc(path)
}

/// A requested path with its leading slashes, then backslashes, removed.
pub open spec fn relative_part(path: Seq<char>) -> Seq<char> {
    trim_start(trim_start(path, '/'), '\\')
}

/// The components of the path that a request names: the path itself when
/// it is truly absolute, else the workspace followed by its relative part.
pub open spec fn target_parts(workspace: Seq<char>, path: Seq<char>) -> Seq<PartView> {
    if is_true_absolute(path) {
        std_path_components(path)
    } else {
        std_path_components(workspace) + std_path_components(relative_part(path))
    }
}

/// A normalised path lies in the workspace: under its prefix, or the
/// workspace folder itself.
pub open spec fn in_workspace(prefix: Seq<char>, norm: Seq<char>) -> bool {
    starts_with(norm, prefix) || norm == trim_end(prefix, '/')
}

/// The message of a refused path.
pub open spec fn denied_message(norm: Seq<char>, prefix: Seq<char>) -> Seq<char> {
    "Access denied: Path '"@ + norm + "' is outside workspace prefix '"@ + prefix + "'"@
}

/// The outcome of confining a resolved component sequence.
pub open spec fn confine_spec(workspace: Seq<char>, parts: Seq<PartView>) -> Result<Seq<char>, Seq<char>> {
    let shown = render_parts(resolve_parts(parts));
    let norm = normalized(shown);
    let prefix = workspace_prefix(workspace);
    if in_workspace(prefix, norm) {
        Ok(shown)
    } else {
        Err(denied_message(norm, prefix))
    }
}

/// The outcome of validating a requested path against a workspace.
pub open spec fn validate_spec(workspace: Seq<char>, path: Seq<char>) -> Result<Seq<char>, Seq<char>> {
    confine_spec(workspace, target_parts(workspace, path))
}

/// The view of a `Result` of two strings.
pub open spec fn result_view(r: Result<String, String>) -> Result<Seq<char>, Seq<char>> {
    match r {
        Ok(s) => Ok(s@),
        Err(e) => Err(e@),
    }
}

/// A component sequence in resolved form: plain names only, except that
/// it may begin with a prefix, a root, or a prefix followed by a root.
pub open spec fn is_resolved(s: Seq<PartView>) -> bool {
    forall|i: int|
        0 <= i < s.len() ==> {
            ||| #[trigger] s[i] is Normal
            ||| i == 0 && (s[0] is Prefix || s[0] is Root)
            ||| i == 1 && s[0] is Prefix && s[1] is Root
        }
}

/// Resolution yields a resolved sequence: no `.` or `..` is left, and a
/// prefix or root can only stand at the front.
pub proof fn lemma_resolve_yields_resolved(parts: Seq<PartView>)
    ensures
        is_resolved(resolve_parts(parts)),
    decreases parts.len(),
{
    if parts.len() > 0 {
        lemma_resolve_yields_resolved(parts.drop_last());
        let acc = resolve_parts(parts.drop_last());
        let r = resolve_parts(parts);
        assert forall|i: int| 0 <= i < r.len() implies {
            ||| #[trigger] r[i] is Normal
            ||| i == 0 && (r[0] is Prefix || r[0] is Root)
            ||| i == 1 && r[0] is Prefix && r[1] is Root
        } by {
            if i < acc.len() && (parts.last() is Normal || parts.last() is Parent || parts.last() is Current) {
                assert(r[i] == acc[i]);
            }
        }
    }
}

/// Resolving an already resolved sequence changes nothing.
pub proof fn lemma_resolve_fixes_resolved(s: Seq<PartView>)
    requires
        is_resolved(s),
    ensures
        resolve_parts(s) == s,
    decreases s.len(),
{
    if s.len() > 0 {
        let init = s.drop_last();
        assert(is_resolved(init)) by {
            assert forall|i: int| 0 <= i < init.len() implies {
                ||| #[trigger] init[i] is Normal
                ||| i == 0 && (init[0] is Prefix || init[0] is Root)
                ||| i == 1 && init[0] is Prefix && init[1] is Root
            } by {
                assert(init[i] == s[i]);
            }
        }
        lemma_resolve_fixes_resolved(init);
        let last = s.last();
        assert(is_resolved(s) ==> (s[s.len() - 1] is Normal || s.len() - 1 == 0 || (s.len() - 1 == 1 && s[0] is Prefix)));
        if last is Normal {
            assert(init.push(last) =~= s);
        } else if s.len() == 1 {
            assert(seq![last] =~= s);
        } else {
            assert(seq![init[0], last] =~= s);
        }
    }
}

/// Resolution is idempotent.
pub proof fn lemma_resolve_idempotent(parts: Seq<PartView>)
    ensures
        resolve_parts(resolve_parts(parts)) == resolve_parts(parts),
{
    lemma_resolve_yields_resolved(parts);
    lemma_resolve_fixes_resolved(resolve_parts(parts));
}

/// Resolution keeps only names it was given: when every name of `parts`
/// is plain (not empty, `.` or `..`), so is every name of the result.
pub proof fn lemma_resolve_keeps_plain_names(parts: Seq<PartView>)
    requires
        names_plain(parts),
    ensures
        names_plain(resolve_parts(parts)),
    decreases parts.len(),
{
    if parts.len() > 0 {
        let init = parts.drop_last();
        assert(names_plain(init)) by {
            assert forall|i: int| 0 <= i < init.len() implies (#[trigger] init[i] matches PartView::Normal(n)
                ==> is_plain_name(n)) by {
                assert(init[i] == parts[i]);
            }
        }
        lemma_resolve_keeps_plain_names(init);
        let acc = resolve_parts(init);
        let r = resolve_parts(parts);
        assert(parts.last() == parts[parts.len() - 1]);
        assert forall|i: int| 0 <= i < r.len() implies (#[trigger] r[i] matches PartView::Normal(n)
            ==> is_plain_name(n)) by {
            if i < acc.len() && (parts.last() is Normal || parts.last() is Parent || parts.last() is Current) {
                assert(r[i] == acc[i]);
            }
        }
    }
}

/// Every path that validation accepts lies in the workspace: its normalised
/// text starts with the normalised workspace folder followed by `/`, or is
/// that folder itself; and it is the text of a resolved sequence: one with
/// no current-directory or parent-directory component, in which a prefix or
/// root can only stand at the front. (That its names are never `.` or `..`
/// either rests on the components std yields, and is stated by
/// `validate_path`.)
pub proof fn lemma_accepted_path_in_workspace(workspace: Seq<char>, path: Seq<char>)
    requires
        validate_spec(workspace, path) is Ok,
    ensures
        in_workspace(workspace_prefix(workspace), normalized(validate_spec(workspace, path)->Ok_0)),
        exists|r: Seq<PartView>|
            is_resolved(r) && validate_spec(workspace, path)->Ok_0 == render_parts(r),
{
    let r = resolve_parts(target_parts(workspace, path));
    lemma_resolve_yields_resolved(target_parts(workspace, path));
    assert(is_resolved(r) && validate_spec(workspace, path)->Ok_0 == render_parts(r));
}

/// Acceptance is exactly the prefix test: a requested path is accepted,
/// with the text of its resolved components as the answer, exactly when the
/// normalised text of that resolved path begins with the normalised
/// workspace folder followed by `/` (whatever comes next), or is the
/// workspace folder itself; otherwise it is refused with the message naming
/// both.
pub proof fn lemma_acceptance_is_prefix_test(workspace: Seq<char>, path: Seq<char>)
    ensures
        ({
            let shown = render_parts(resolve_parts(target_parts(workspace, path)));
            let norm = normalized(shown);
            let prefix = workspace_prefix(workspace);
            let under = prefix.len() <= norm.len() && forall|i: int|
                0 <= i < prefix.len() ==> #[trigger] norm[i] == prefix[i];
            let itself = norm == trim_end(prefix, '/');
            &&& (under || itself) ==> validate_spec(workspace, path) == Ok::<Seq<char>, Seq<char>>(
                shown,
            )
            &&& !(under || itself) ==> validate_spec(workspace, path) == Err::<
                Seq<char>,
                Seq<char>,
            >(denied_message(norm, prefix))
        }),
{
    let shown = render_parts(resolve_parts(target_parts(workspace, path)));
    let norm = normalized(shown);
    let prefix = workspace_prefix(workspace);
    if prefix.len() <= norm.len() {
        if forall|i: int| 0 <= i < prefix.len() ==> #[trigger] norm[i] == prefix[i] {
            assert(norm.take(prefix.len() as int) =~= prefix);
        }
        if norm.take(prefix.len() as int) == prefix {
            assert forall|i: int| 0 <= i < prefix.len() implies #[trigger] norm[i] == prefix[i] by {
                assert(norm.take(prefix.len() as int)[i] == norm[i]);
            }
        }
    }
}

/// A refused path is answered with the refusal message naming the
/// normalised resolved path and the workspace prefix.
pub proof fn lemma_refused_path_message(workspace: Seq<char>, path: Seq<char>)
    requires
        validate_spec(workspace, path) is Err,
    ensures
        ({
            let norm = normalized(render_parts(resolve_parts(target_parts(workspace, path))));
            &&& !in_workspace(workspace_prefix(workspace), norm)
            &&& validate_spec(workspace, path)->Err_0 == denied_message(norm, workspace_prefix(workspace))
        }),
{
}

// ---------------------------------------------------------------------
// Implementation
// ---------------------------------------------------------------------

/// Resolves `.` and `..` in `parts`.
pub fn resolve_path(parts: &Vec<PathPart>) -> (r: Vec<PathPart>)
    ensures
        parts_view(r@) == resolve_parts(parts_view(parts@)),
{
    let mut acc: Vec<PathPart> = Vec::new();
    let mut i: usize = 0;
    while i < parts.len()
        invariant
            i <= parts@.len(),
            parts_view(acc@) == resolve_parts(parts_view(parts@.take(i as int))),
        decreases parts@.len() - i,
    {
        let ghost before = parts_view(acc@);
        assert(parts_view(parts@.take(i + 1)).drop_last() =~= parts_view(parts@.take(i as int)));
        match &parts[i] {
            PathPart::Parent => {
                if acc.len() > 0 && matches!(acc[acc.len() - 1], PathPart::Normal(_)) {
                    acc.pop();
                    assert(parts_view(acc@) =~= before.drop_last());
                }
            },
            PathPart::Current => {},
            PathPart::Prefix(s) => {
                acc = Vec::new();
                acc.push(PathPart::Prefix(s.clone()));
                assert(parts_view(acc@) =~= seq![parts_view(parts@)[i as int]]);
            },
            PathPart::Root => {
                if acc.len() > 0 && matches!(acc[0], PathPart::Prefix(_)) {
                    let first = acc[0].duplicate();
                    acc = Vec::new();
                    acc.push(first);
                    acc.push(PathPart::Root);
                    assert(parts_view(acc@) =~= seq![before[0], PartView::Root]);
                } else {
                    acc = Vec::new();
                    acc.push(PathPart::Root);
                    assert(parts_view(acc@) =~= seq![PartView::Root]);
                }
            },
            PathPart::Normal(s) => {
                acc.push(PathPart::Normal(s.clone()));
                assert(parts_view(acc@) =~= before.push(parts_view(parts@)[i as int]));
            },
        }
        i = i + 1;
    }
    assert(parts@.take(parts@.len() as int) =~= parts@);
    acc
}

/// The text of a resolved component sequence.
pub fn render_path(parts: &Vec<PathPart>) -> (r: String)
    ensures
        r@ == render_parts(parts_view(parts@)),
{
    let sep = main_separator();
    let mut r = String::new();
    let mut i: usize = 0;
    while i < parts.len()
        invariant
            i <= parts@.len(),
            r@ == render_with(parts_view(parts@.take(i as int)), sep),
        decreases parts@.len() - i,
    {
        let ghost prev = parts_view(parts@.take(i as int));
        assert(parts_view(parts@.take(i + 1)).drop_last() =~= prev);
        assert(parts_view(parts@.take(i + 1)).last() == parts@[i as int]@);
        match &parts[i] {
            PathPart::Prefix(s) => {
                r.append(s.as_str());
            },
            PathPart::Root => {
                push_char(&mut r, sep);
                assert(r@ =~= render_with(prev, sep) + seq![sep]);
            },
            PathPart::Normal(s) => {
                if i > 0 && matches!(parts[i - 1], PathPart::Normal(_)) {
                    assert(prev.last() == parts@[i - 1]@);
                    push_char(&mut r, sep);
                    r.append(s.as_str());
                    assert(r@ =~= render_with(prev, sep) + (seq![sep] + s@));
                } else {
                    assert(i > 0 ==> prev.last() == parts@[i - 1]@);
                    r.append(s.as_str());
                }
            },
            _ => {
                assert(r@ =~= render_with(prev, sep) + Seq::<char>::empty());
            },
        }
        i = i + 1;
    }
    assert(parts@.take(parts@.len() as int) =~= parts@);
    r
}

/// `cs` with every backslash turned into a forward slash.
fn forward_slash_chars(cs: &Vec<char>) -> (r: Vec<char>)
    ensures
        r@ == forward_slashes(cs@),
{
    let mut r: Vec<char> = Vec::new();
    let mut i: usize = 0;
    while i < cs.len()
        invariant
            i <= cs@.len(),
            r@ == forward_slashes(cs@.take(i as int)),
        decreases cs@.len() - i,
    {
        let c = cs[i];
        if c == '\\' {
            r.push('/');
        } else {
            r.push(c);
        }
        assert(forward_slashes(cs@.take(i + 1)) =~= forward_slashes(cs@.take(i as int)).push(
            if c == '\\' { '/' } else { c },
        ));
        i = i + 1;
    }
    assert(cs@.take(cs@.len() as int) =~= cs@);
    r
}

/// The normalised form of `s`: forward slashes, lower case.
pub fn normalize_path_text(s: &str) -> (r: String)
    ensures
        r@ == normalized(s@),
{
    let fs = forward_slash_chars(&chars_of(s));
    let t = string_of(fs.as_slice());
    to_lowercase(t.as_str())
}

/// The normalised workspace folder, ending in `/`.
pub fn workspace_prefix_of(workspace: &str) -> (r: String)
    ensures
        r@ == workspace_prefix(workspace@),
{
    let mut w = normalize_path_text(workspace);
    let cs = chars_of(w.as_str());
    if cs.len() > 0 && cs[cs.len() - 1] == '/' {
        w
    } else {
        push_char(&mut w, '/');
        w
    }
}

/// The first index of `cs` at which `c` does not occur, with the fact that
/// trimming `c` from the front leaves what follows it.
fn leading_run_end(cs: &Vec<char>, c: char) -> (k: usize)
    ensures
        k <= cs@.len(),
        trim_start(cs@, c) == cs@.skip(k as int),
{
    let mut k: usize = 0;
    assert(cs@.skip(0) =~= cs@);
    while k < cs.len() && cs[k] == c
        invariant
            k <= cs@.len(),
            trim_start(cs@, c) == trim_start(cs@.skip(k as int), c),
        decreases cs@.len() - k,
    {
        assert(cs@.skip(k as int).drop_first() =~= cs@.skip(k + 1));
        k = k + 1;
    }
    k
}

/// The index after which only occurrences of `c` remain at the end of `cs`,
/// with the fact that trimming `c` from the back leaves what precedes it.
fn trailing_run_start(cs: &Vec<char>, c: char) -> (k: usize)
    ensures
        k <= cs@.len(),
        trim_end(cs@, c) == cs@.take(k as int),
{
    let mut k: usize = cs.len();
    assert(cs@.take(k as int) =~= cs@);
    while k > 0 && cs[k - 1] == c
        invariant
            k <= cs@.len(),
            trim_end(cs@, c) == trim_end(cs@.take(k as int), c),
        decreases k,
    {
        assert(cs@.take(k as int).drop_last() =~= cs@.take(k - 1));
        k = k - 1;
    }
    k
}

/// The relative part of a requested path: leading slashes, then leading
/// backslashes, removed.
fn relative_part_of(path: &str) -> (r: String)
    ensures
        r@ == relative_part(path@),
{
    let cs = chars_of(path);
    let a = leading_run_end(&cs, '/');
    let rest = chars_of(string_of_range(&cs, a, cs.len()).as_str());
    let b = leading_run_end(&rest, '\\');
    string_of_range(&rest, b, rest.len())
}

/// Whether a normalised path lies in the workspace with the given prefix.
pub fn within_workspace(prefix: &str, norm: &str) -> (r: bool)
    ensures
        r == in_workspace(prefix@, norm@),
{
    let p = chars_of(prefix);
    let n = chars_of(norm);
    if chars_start_with(&n, &p) {
        return true;
    }
    let k = trailing_run_start(&p, '/');
    let trimmed = chars_of(string_of_range(&p, 0, k).as_str());
    chars_equal(&n, &trimmed)
}

/// Resolves a target's components and confines the result to the workspace.
/// Returns the resolved path's text, or the refusal message.
pub fn confine_components(workspace: &str, parts: &Vec<PathPart>) -> (r: Result<String, String>)
    ensures
        result_view(r) == confine_spec(workspace@, parts_view(parts@)),
{
    let resolved = resolve_path(parts);
    let shown = render_path(&resolved);
    let norm = normalize_path_text(shown.as_str());
    let prefix = workspace_prefix_of(workspace);
    if within_workspace(prefix.as_str(), norm.as_str()) {
        Ok(shown)
    } else {
        let mut msg = String::from_str("Access denied: Path '");
        msg.append(norm.as_str());
        msg.append("' is outside workspace prefix '");
        msg.append(prefix.as_str());
        msg.append("'");
        Err(msg)
    }
}

/// Resolves a path requested by a tool against the workspace folder and
/// accepts it only if it stays inside that folder.
///
/// A path with a drive letter or a UNC prefix is taken as it is; any other
/// path is taken relative to the workspace, with its leading slashes and
/// backslashes removed. `.` and `..` are resolved lexically. The result is
/// the resolved path's text, which holds no `.` or `..` component; its names
/// are joined by the platform's separator, as a path buffer joins them.
pub fn validate_path(workspace: &str, path: &str) -> (r: Result<String, String>)
    ensures
        result_view(r) == validate_spec(workspace@, path@),
        r is Ok ==> ({
            let q = resolve_parts(target_parts(workspace@, path@));
            &&& r->Ok_0@ == render_parts(q)
            &&& is_resolved(q)
            &&& names_plain(q)
        }),
{
    let pc = chars_of(path);
    let has_drive = pc.len() >= 2 && (pc[0] as u32) < 128 && pc[1] == ':';
    let is_unc = pc.len() >= 2 && pc[0] == '\\' && pc[1] == '\\';
    let parts = if has_drive || is_unc {
        path_components(path)
    } else {
        let mut base = path_components(workspace);
        let rel = relative_part_of(path);
        let mut tail = path_components(rel.as_str());
        let ghost b = base@;
        let ghost t = tail@;
        base.append(&mut tail);
        assert(parts_view(base@) =~= parts_view(b) + parts_view(t));
        assert(names_plain(parts_view(base@))) by {
            let all = parts_view(base@);
            assert forall|i: int| 0 <= i < all.len() implies (#[trigger] all[i] matches PartView::Normal(n)
                ==> is_plain_name(n)) by {
                if i < parts_view(b).len() {
                    assert(all[i] == parts_view(b)[i]);
                } else {
                    assert(all[i] == parts_view(t)[i - parts_view(b).len()]);
                }
            }
        }
        base
    };
    proof {
        lemma_resolve_yields_resolved(parts_view(parts@));
        lemma_resolve_keeps_plain_names(parts_view(parts@));
    }
    confine_components(workspace, &parts)
}

} // verus!
