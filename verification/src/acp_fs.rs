//! File access on behalf of an agent: any path may be read, a path inside the
//! session's working directory may be written, everything else is asked for.
//!
//! Paths are lists of components, as the operating system splits them.

use crate::bus::{PermissionAskOption, PermissionAskReply};
use crate::text;
use vstd::prelude::*;

verus! {

pub open spec fn line_from(line: Option<u32>, count: int) -> int {
    let first = match line {
        Some(n) => if n == 0 {
            0
        } else {
            n - 1
        },
        None => 0,
    };
    if first < count {
        first
    } else {
        count
    }
}

pub open spec fn line_to(from: int, limit: Option<u32>, count: int) -> int {
    match limit {
        Some(n) => if from + n < count {
            from + n
        } else {
            count
        },
        None => count,
    }
}

/// The lines of a text from the `line`-th on (counted from one), at most
/// `limit` of them.
pub open spec fn text_slice(t: Seq<char>, line: Option<u32>, limit: Option<u32>) -> Seq<char> {
    let lines = text::split_on(t, '\n');
    let from = line_from(line, lines.len() as int);
    let to = line_to(from, limit, lines.len() as int);
    text::joined(lines.subrange(from, to), "\n"@)
}

pub fn slice_text(t: &str, line: Option<u32>, limit: Option<u32>) -> (r: String)
    ensures
        r@ == text_slice(t@, line, limit),
        line is None && limit is None ==> r@ == t@,
{
    proof {
        reveal_strlit("\n");
        assert("\n"@ =~= seq!['\n']);
        text::lemma_split_then_join(t@, '\n');
        let lines = text::split_on(t@, '\n');
        assert(lines.subrange(0, lines.len() as int) =~= lines);
    }
    if line.is_none() && limit.is_none() {
        return t.to_owned();
    }
    let lines = text::split(t, '\n');
    let count: usize = lines.len();
    let first: usize = match line {
        Some(n) => if n == 0 {
            0
        } else {
            (n - 1) as usize
        },
        None => 0,
    };
    let from: usize = if first < count {
        first
    } else {
        count
    };
    let to: usize = match limit {
        Some(n) => if (n as usize) < count - from {
            from + n as usize
        } else {
            count
        },
        None => count,
    };
    let mut part: Vec<String> = Vec::new();
    let mut i: usize = from;
    while i < to
        invariant
            from <= i <= to <= lines@.len(),
            text::views(part@) =~= text::views(lines@).subrange(from as int, i as int),
        decreases to - i,
    {
        let ghost before = part@;
        part.push(lines[i].clone());
        assert(text::views(part@) =~= text::views(before).push(text::views(lines@)[i as int]));
        i = i + 1;
    }
    text::join(&part, "\n")
}

/// One component of a path.
#[derive(Debug, PartialEq, Eq)]
pub enum Component<S = String> {
    /// A volume, where the operating system has them.
    Prefix(S),
    RootDir,
    CurDir,
    ParentDir,
    Normal(S),
}

pub type ComponentV = Component<Seq<char>>;

impl View for Component {
    type V = ComponentV;

    open spec fn view(&self) -> ComponentV {
        match *self {
            Component::Prefix(s) => Component::Prefix(s@),
            Component::RootDir => Component::RootDir,
            Component::CurDir => Component::CurDir,
            Component::ParentDir => Component::ParentDir,
            Component::Normal(s) => Component::Normal(s@),
        }
    }
}

pub open spec fn path_view(p: Seq<Component>) -> Seq<ComponentV> {
    p.map_values(|c: Component| c@)
}

impl Component {
    pub fn copy(&self) -> (r: Component)
        ensures
            r == *self,
    {
        match self {
            Component::Prefix(s) => Component::Prefix(s.clone()),
            Component::RootDir => Component::RootDir,
            Component::CurDir => Component::CurDir,
            Component::ParentDir => Component::ParentDir,
            Component::Normal(s) => Component::Normal(s.clone()),
        }
    }

    pub fn same(&self, other: &Component) -> (r: bool)
        ensures
            r == (self@ == other@),
    {
        match (self, other) {
            (Component::Prefix(a), Component::Prefix(b)) => text::same(a.as_str(), b.as_str()),
            (Component::RootDir, Component::RootDir) => true,
            (Component::CurDir, Component::CurDir) => true,
            (Component::ParentDir, Component::ParentDir) => true,
            (Component::Normal(a), Component::Normal(b)) => text::same(a.as_str(), b.as_str()),
            _ => false,
        }
    }
}

/// A path with one more component walked.
pub open spec fn walked(at: Seq<ComponentV>, c: ComponentV) -> Seq<ComponentV> {
    match c {
        Component::Prefix(_) => seq![c],
        Component::RootDir => if at.len() > 0 && at[0] is Prefix {
            seq![at[0], c]
        } else {
            seq![c]
        },
        Component::CurDir => at,
        Component::ParentDir => if at.len() > 0 && at.last() is Normal {
            at.drop_last()
        } else {
            at
        },
        Component::Normal(_) => at.push(c),
    }
}

/// A path without `.` and `..`: each `..` takes back the component before it,
/// and stays at the start where there is none.
pub open spec fn normalized(p: Seq<ComponentV>) -> Seq<ComponentV>
    decreases p.len(),
{
    if p.len() == 0 {
        Seq::empty()
    } else {
        walked(normalized(p.drop_last()), p.last())
    }
}

fn walk(at: &mut Vec<Component>, c: &Component)
    ensures
        path_view(final(at)@) == walked(path_view(old(at)@), c@),
{
    let ghost before = path_view(at@);
    match c {
        Component::Prefix(_) => {
            at.clear();
            at.push(c.copy());
            assert(path_view(at@) =~= seq![c@]);
        },
        Component::RootDir => {
            let mut keep = false;
            if at.len() > 0 {
                assert(before[0] == at@[0]@);
                keep = matches!(at[0], Component::Prefix(_));
            }
            if keep {
                at.truncate(1);
                at.push(c.copy());
                assert(path_view(at@) =~= seq![before[0], c@]);
            } else {
                at.clear();
                at.push(c.copy());
                assert(path_view(at@) =~= seq![c@]);
            }
        },
        Component::CurDir => {},
        Component::ParentDir => {
            if at.len() > 0 {
                let last: usize = at.len() - 1;
                assert(before.last() == at@[last as int]@);
                if matches!(at[last], Component::Normal(_)) {
                    at.truncate(last);
                    assert(path_view(at@) =~= before.drop_last());
                }
            }
        },
        Component::Normal(_) => {
            at.push(c.copy());
            assert(path_view(at@) =~= before.push(c@));
        },
    }
}

/// The path without `.` and `..`; it need not exist.
pub fn normalize_path(path: &Vec<Component>) -> (r: Vec<Component>)
    ensures
        path_view(r@) == normalized(path_view(path@)),
{
    let ghost all = path_view(path@);
    let mut out: Vec<Component> = Vec::new();
    let mut i: usize = 0;
    assert(path_view(out@) =~= normalized(all.take(0)));
    while i < path.len()
        invariant
            i <= path@.len(),
            all == path_view(path@),
            path_view(out@) == normalized(all.take(i as int)),
        decreases path@.len() - i,
    {
        assert(all.take(i as int + 1).drop_last() =~= all.take(i as int));
        walk(&mut out, &path[i]);
        i = i + 1;
    }
    assert(all.take(i as int) =~= all);
    out
}

/// A path as seen from a working directory.
pub open spec fn resolved(path: Seq<ComponentV>, cwd: Seq<ComponentV>) -> Seq<ComponentV> {
    normalized(cwd + path)
}

/// The path as seen from `cwd`. A path with a root does not depend on it.
pub fn resolve_with_cwd(path: &Vec<Component>, cwd: &Vec<Component>) -> (r: Vec<Component>)
    ensures
        path_view(r@) == resolved(path_view(path@), path_view(cwd@)),
{
    let ghost all = path_view(cwd@) + path_view(path@);
    let ghost n = cwd@.len();
    let mut out = normalize_path(cwd);
    let mut i: usize = 0;
    assert(all.take(n as int) =~= path_view(cwd@));
    while i < path.len()
        invariant
            i <= path@.len(),
            n == cwd@.len(),
            all == path_view(cwd@) + path_view(path@),
            path_view(out@) == normalized(all.take(n + i)),
        decreases path@.len() - i,
    {
        assert(all.take(n + i + 1).drop_last() =~= all.take(n + i));
        assert(all.take(n + i + 1).last() == path@[i as int]@);
        walk(&mut out, &path[i]);
        i = i + 1;
    }
    assert(all.take(n + i) =~= all);
    out
}

/// Whether a path is the working directory or lies under it. A working
/// directory that names no place, such as `.`, has nothing inside.
pub open spec fn inside(target: Seq<ComponentV>, cwd: Seq<ComponentV>) -> bool {
    normalized(cwd).len() > 0 && normalized(cwd).is_prefix_of(resolved(target, cwd))
}

pub fn is_inside_cwd(target: &Vec<Component>, cwd: &Vec<Component>) -> (r: bool)
    ensures
        r == inside(path_view(target@), path_view(cwd@)),
{
    let resolved = resolve_with_cwd(target, cwd);
    let root = normalize_path(cwd);
    assert(path_view(root@).len() == root@.len());
    if root.len() == 0 || root.len() > resolved.len() {
        return false;
    }
    let mut i: usize = 0;
    while i < root.len()
        invariant
            i <= root@.len() <= resolved@.len(),
            path_view(resolved@) == self::resolved(path_view(target@), path_view(cwd@)),
            path_view(root@) == normalized(path_view(cwd@)),
            root@.len() > 0,
            forall|k: int| 0 <= k < i ==> path_view(root@)[k] == path_view(resolved@)[k],
        decreases root@.len() - i,
    {
        if !root[i].same(&resolved[i]) {
            assert(path_view(root@)[i as int] != path_view(resolved@)[i as int]);
            return false;
        }
        i = i + 1;
    }
    assert(path_view(root@) =~= path_view(resolved@).subrange(0, root@.len() as int));
    true
}

/// A permission request that the client makes of its own user.
#[derive(Debug, PartialEq, Eq)]
pub struct LocalAsk {
    pub session_id: String,
    pub title: String,
    pub options: Vec<PermissionAskOption>,
}

pub open spec fn local_options(allow: Seq<char>) -> Seq<PermissionAskOption<Seq<char>>> {
    seq![
        PermissionAskOption { option_id: "deny"@, kind: "reject_once"@, name: "Deny"@ },
        PermissionAskOption { option_id: "allow"@, kind: "allow_once"@, name: allow },
    ]
}

pub open spec fn options_view(v: Seq<PermissionAskOption>) -> Seq<PermissionAskOption<Seq<char>>> {
    v.map_values(|o: PermissionAskOption| o@)
}

fn deny_or(allow: &str) -> (r: Vec<PermissionAskOption>)
    ensures
        options_view(r@) == local_options(allow@),
{
    let mut r: Vec<PermissionAskOption> = Vec::new();
    r.push(
        PermissionAskOption {
            option_id: "deny".to_owned(),
            kind: "reject_once".to_owned(),
            name: "Deny".to_owned(),
        },
    );
    r.push(
        PermissionAskOption {
            option_id: "allow".to_owned(),
            kind: "allow_once".to_owned(),
            name: allow.to_owned(),
        },
    );
    assert(options_view(r@) =~= local_options(allow@));
    r
}

/// The request to write a path outside the workspace.
pub fn write_outside_ask(session_id: &str, path: &str) -> (r: LocalAsk)
    ensures
        r.session_id@ == session_id@,
        r.title@ == "write "@ + path@ + " · outside workspace"@,
        options_view(r.options@) == local_options("Allow write"@),
{
    LocalAsk {
        session_id: session_id.to_owned(),
        title: text::concat3("write ", path, " · outside workspace"),
        options: deny_or("Allow write"),
    }
}

/// A command with its arguments behind it.
pub open spec fn command_line(command: Seq<char>, args: Seq<Seq<char>>) -> Seq<char> {
    if args.len() == 0 {
        command
    } else {
        command + " "@ + text::joined(args, " "@)
    }
}

/// The request to start a process. It is made for every command: inside the
/// workspace a process can do as much as outside.
pub fn terminal_spawn_ask(session_id: &str, command: &str, args: &Vec<String>, cwd: &str) -> (r:
    LocalAsk)
    ensures
        r.session_id@ == session_id@,
        r.title@ == "run "@ + command_line(command@, text::views(args@)) + " · in "@ + cwd@,
        options_view(r.options@) == local_options("Allow command"@),
{
    let shown = if args.len() == 0 {
        command.to_owned()
    } else {
        let list = text::join(args, " ");
        text::concat3(command, " ", list.as_str())
    };
    let head = text::concat3("run ", shown.as_str(), " · in ");
    LocalAsk {
        session_id: session_id.to_owned(),
        title: text::concat2(head.as_str(), cwd),
        options: deny_or("Allow command"),
    }
}

/// Whether the reply to such a request grants it: only the choice of `allow`
/// does; closing the request does not.
pub fn is_allowed(reply: &PermissionAskReply) -> (r: bool)
    ensures
        r == (reply@ == PermissionAskReply::Selected("allow"@)),
{
    match reply {
        PermissionAskReply::Selected(id) => text::same(id.as_str(), "allow"),
        PermissionAskReply::Cancelled => false,
    }
}

/// The error code of every failed file operation.
pub const FS_ERROR_CODE: i32 = -32603;

/// The error of a write that the user refused: code and message.
pub fn denied_write() -> (r: (i32, String))
    ensures
        r.0 == -32603,
        r.1@ == "user denied write"@,
{
    (FS_ERROR_CODE, "user denied write".to_owned())
}

// --- laws ---------------------------------------------------------------------

/// Where a component may stand in a path without `.` and `..`.
pub open spec fn plain_path(p: Seq<ComponentV>) -> bool {
    forall|i: int|
        0 <= i < p.len() ==> match #[trigger] p[i] {
            Component::Prefix(_) => i == 0,
            Component::RootDir => i == 0 || (i == 1 && p[0] is Prefix),
            Component::Normal(_) => true,
            _ => false,
        }
}

proof fn lemma_normalized_is_plain(p: Seq<ComponentV>)
    ensures
        plain_path(normalized(p)),
    decreases p.len(),
{
    if p.len() > 0 {
        lemma_normalized_is_plain(p.drop_last());
    }
}

proof fn lemma_plain_is_normalized(p: Seq<ComponentV>)
    requires
        plain_path(p),
    ensures
        normalized(p) == p,
    decreases p.len(),
{
    if p.len() > 0 {
        let init = p.drop_last();
        assert forall|i: int| 0 <= i < init.len() implies match #[trigger] init[i] {
            Component::Prefix(_) => i == 0,
            Component::RootDir => i == 0 || (i == 1 && init[0] is Prefix),
            Component::Normal(_) => true,
            _ => false,
        } by {
            assert(init[i] == p[i]);
            if i >= 1 {
                assert(init[0] == p[0]);
            }
        }
        lemma_plain_is_normalized(init);
        assert(p[p.len() - 1] == p.last());
        assert(p =~= init.push(p.last()));
        match p.last() {
            Component::Prefix(_) => {
                assert(p =~= seq![p.last()]);
            },
            Component::RootDir => {
                if p.len() == 1 {
                    assert(p =~= seq![p.last()]);
                } else {
                    assert(p =~= seq![p[0], p.last()]);
                }
            },
            _ => {},
        }
    }
}

/// A normalized path holds neither `.` nor `..`.
pub proof fn law_normalized_has_no_dots(p: Seq<ComponentV>, i: int)
    requires
        0 <= i < normalized(p).len(),
    ensures
        !(normalized(p)[i] is CurDir),
        !(normalized(p)[i] is ParentDir),
{
    lemma_normalized_is_plain(p);
}

/// Normalizing twice is normalizing once.
pub proof fn law_normalize_is_idempotent(p: Seq<ComponentV>)
    ensures
        normalized(normalized(p)) == normalized(p),
{
    lemma_normalized_is_plain(p);
    lemma_plain_is_normalized(normalized(p));
}

/// A path that starts at a root, behind a volume where it names one.
pub open spec fn rooted(p: Seq<ComponentV>) -> bool {
    p.len() > 0 && (p[0] is RootDir || (p.len() > 1 && p[0] is Prefix && p[1] is RootDir))
}

/// No volume stands behind another component.
pub open spec fn volume_first(p: Seq<ComponentV>) -> bool {
    forall|i: int| 0 < i < p.len() ==> !(#[trigger] p[i] is Prefix)
}

pub open spec fn no_volume(p: Seq<ComponentV>) -> bool {
    forall|i: int| 0 <= i < p.len() ==> !(#[trigger] p[i] is Prefix)
}

proof fn lemma_no_prefix(p: Seq<ComponentV>)
    requires
        no_volume(p),
    ensures
        normalized(p).len() > 0 ==> !(normalized(p)[0] is Prefix),
    decreases p.len(),
{
    if p.len() > 0 {
        assert(no_volume(p.drop_last()));
        lemma_no_prefix(p.drop_last());
        assert(p[p.len() - 1] == p.last());
    }
}

/// A path with a root in front is the same from every working directory, as
/// long as no volume comes from there.
pub proof fn law_rooted_path_ignores_cwd(path: Seq<ComponentV>, cwd: Seq<ComponentV>)
    requires
        rooted(path),
        path[0] is Prefix || no_volume(cwd),
    ensures
        resolved(path, cwd) == normalized(path),
{
    lemma_start_resets(path, cwd);
}

proof fn lemma_start_resets(path: Seq<ComponentV>, cwd: Seq<ComponentV>)
    requires
        path.len() > 0,
        path[0] is Prefix || (path[0] is RootDir && no_volume(cwd)),
    ensures
        resolved(path, cwd) == normalized(path),
    decreases path.len(),
{
    let all = cwd + path;
    assert(all.drop_last() =~= cwd + path.drop_last());
    assert(all.last() == path.last());
    if path.len() > 1 {
        lemma_start_resets(path.drop_last(), cwd);
    } else {
        assert(path.drop_last() =~= Seq::empty());
        assert(all.drop_last() =~= cwd);
        assert(normalized(path.drop_last()) =~= Seq::<ComponentV>::empty());
        if path[0] is RootDir {
            lemma_no_prefix(cwd);
        }
    }
}

proof fn lemma_rooted_stays(p: Seq<ComponentV>)
    requires
        rooted(p),
        volume_first(p),
    ensures
        rooted(normalized(p)),
    decreases p.len(),
{
    let init = p.drop_last();
    assert(p[p.len() - 1] == p.last());
    reveal_with_fuel(normalized, 3);
    if p.len() == 1 {
        assert(init =~= Seq::empty());
    } else if p.len() == 2 && p[0] is Prefix {
        assert(init.drop_last() =~= Seq::empty());
        assert(init =~= seq![p[0]]);
    } else {
        assert(rooted(init)) by {
            assert(init[0] == p[0]);
            if p.len() > 2 {
                assert(init[1] == p[1]);
            }
        }
        assert(volume_first(init)) by {
            assert forall|i: int| 0 < i < init.len() implies !(#[trigger] init[i] is Prefix) by {
                assert(init[i] == p[i]);
            }
        }
        lemma_rooted_stays(init);
    }
}

/// From a working directory with a root every path resolves to one with a root,
/// without `.` and `..`. A path that names a volume and no root behind it is
/// left out: it does not start from the working directory.
pub proof fn law_resolved_path_is_rooted(path: Seq<ComponentV>, cwd: Seq<ComponentV>)
    requires
        rooted(cwd),
        volume_first(cwd),
        volume_first(path),
        path.len() > 0 && path[0] is Prefix ==> rooted(path),
    ensures
        rooted(resolved(path, cwd)),
        plain_path(resolved(path, cwd)),
{
    lemma_normalized_is_plain(cwd + path);
    if path.len() > 0 && path[0] is Prefix {
        lemma_start_resets(path, cwd);
        lemma_rooted_stays(path);
    } else {
        let all = cwd + path;
        assert(all[0] == cwd[0]);
        if cwd.len() > 1 {
            assert(all[1] == cwd[1]);
        }
        assert forall|i: int| 0 < i < all.len() implies !(#[trigger] all[i] is Prefix) by {
            if i < cwd.len() {
                assert(all[i] == cwd[i]);
            } else {
                assert(all[i] == path[i - cwd.len()]);
            }
        }
        lemma_rooted_stays(all);
    }
}

/// What was resolved stays as it is when it is resolved again, from wherever
/// that is: from any directory where it names its volume, from one without a
/// volume otherwise.
pub proof fn law_resolving_again_changes_nothing(
    path: Seq<ComponentV>,
    cwd: Seq<ComponentV>,
    other: Seq<ComponentV>,
)
    requires
        rooted(cwd),
        volume_first(cwd),
        volume_first(path),
        path.len() > 0 && path[0] is Prefix ==> rooted(path),
        resolved(path, cwd)[0] is Prefix || no_volume(other),
    ensures
        resolved(resolved(path, cwd), other) == resolved(path, cwd),
{
    law_resolved_path_is_rooted(path, cwd);
    law_rooted_path_ignores_cwd(resolved(path, cwd), other);
    law_normalize_is_idempotent(cwd + path);
}

/// A relative path that never steps up lies inside the working directory.
pub proof fn law_descending_path_is_inside(target: Seq<ComponentV>, cwd: Seq<ComponentV>)
    requires
        normalized(cwd).len() > 0,
        forall|i: int|
            0 <= i < target.len() ==> (#[trigger] target[i] is Normal) || target[i] is CurDir,
    ensures
        inside(target, cwd),
    decreases target.len(),
{
    if target.len() == 0 {
        assert(cwd + target =~= cwd);
        assert(normalized(cwd).is_prefix_of(normalized(cwd)));
    } else {
        law_descending_path_is_inside(target.drop_last(), cwd);
        assert((cwd + target).drop_last() =~= cwd + target.drop_last());
        assert(target[target.len() - 1] == target.last());
        let before = resolved(target.drop_last(), cwd);
        let after = resolved(target, cwd);
        assert(normalized(cwd) =~= after.subrange(0, normalized(cwd).len() as int));
    }
}

/// One step up from the working directory leaves it.
pub proof fn law_parent_is_outside(cwd: Seq<ComponentV>)
    requires
        normalized(cwd).len() > 0,
        normalized(cwd).last() is Normal,
    ensures
        !inside(seq![Component::ParentDir], cwd),
{
    let all = cwd + seq![Component::<Seq<char>>::ParentDir];
    assert(all.drop_last() =~= cwd);
}

} // verus!
