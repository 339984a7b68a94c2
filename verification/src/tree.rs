//! The plugin inventory as a tree, on the state of the tree widget.

use crate::bus::StaticPluginItem;
use crate::input::KeyCode;
use crate::presets;
use crate::text;
use tui_tree_widget::TreeState;
use vstd::prelude::*;

verus! {

/// The state of a tree of the `tui_tree_widget` crate.
#[verifier::external_type_specification]
#[verifier::external_body]
#[verifier::reject_recursive_types(Identifier)]
pub struct ExTreeState<Identifier>(tui_tree_widget::TreeState<Identifier>);

/// The way from the root of a tree to a node.
pub type NodePath = Seq<Seq<char>>;

/// The nodes that are open.
pub uninterp spec fn opened_nodes(t: TreeState<String>) -> Set<NodePath>;

/// The node that is selected; the empty path where none is.
pub uninterp spec fn selected_node(t: TreeState<String>) -> NodePath;

/// The nodes that could be scrolled to when the tree was last drawn, from top
/// to bottom.
pub uninterp spec fn drawn_nodes(t: TreeState<String>) -> Seq<NodePath>;

/// The number of the last of them.
pub uninterp spec fn last_drawn(t: TreeState<String>) -> usize;

/// The first line of the tree that is shown.
pub uninterp spec fn first_line(t: TreeState<String>) -> usize;

/// Everything about a tree that its keys depend on.
#[verifier::ext_equal]
pub ghost struct TreeV {
    pub opened: Set<NodePath>,
    pub selected: NodePath,
    pub drawn: Seq<NodePath>,
    pub last: usize,
    pub line: usize,
}

pub open spec fn tree(t: TreeState<String>) -> TreeV {
    TreeV {
        opened: opened_nodes(t),
        selected: selected_node(t),
        drawn: drawn_nodes(t),
        last: last_drawn(t),
        line: first_line(t),
    }
}

pub open spec fn new_tree() -> TreeV {
    TreeV { opened: Set::empty(), selected: Seq::empty(), drawn: Seq::empty(), last: 0, line: 0 }
}

/// `TreeState::default`: nothing is open, selected or drawn.
#[verifier::external_body]
fn tree_default() -> (r: TreeState<String>)
    ensures
        opened_nodes(r) == Set::<NodePath>::empty(),
        selected_node(r) == Seq::<Seq<char>>::empty(),
        drawn_nodes(r) == Seq::<NodePath>::empty(),
        last_drawn(r) == 0,
        first_line(r) == 0,
{
    TreeState::default()
}

pub open spec fn with_opened(t: TreeV, path: NodePath) -> TreeV {
    if path.len() == 0 {
        t
    } else {
        TreeV { opened: t.opened.insert(path), ..t }
    }
}

/// `TreeState::open`: opens a node; the empty path names none.
#[verifier::external_body]
fn tree_open(t: &mut TreeState<String>, path: Vec<String>)
    ensures
        tree(*final(t)) == with_opened(tree(*old(t)), text::views(path@)),
{
    let _ = t.open(path);
}

/// `TreeState::select`: selects a node.
#[verifier::external_body]
fn tree_select(t: &mut TreeState<String>, path: Vec<String>)
    ensures
        tree(*final(t)) == (TreeV { selected: text::views(path@), ..tree(*old(t)) }),
{
    let _ = t.select(path);
}

/// Where a path stands among the nodes drawn; nothing where it does not.
pub open spec fn drawn_at(drawn: Seq<NodePath>, path: NodePath) -> Option<int>
    decreases drawn.len(),
{
    if drawn.len() == 0 {
        None
    } else if drawn[0] == path {
        Some(0)
    } else {
        match drawn_at(drawn.skip(1), path) {
            Some(i) => Some(i + 1),
            None => None,
        }
    }
}

/// A tree with the selection on the node with this number, as far as nodes are
/// drawn.
pub open spec fn with_selected_row(t: TreeV, row: int) -> TreeV {
    let i = if row <= t.last {
        row
    } else {
        t.last as int
    };
    TreeV {
        selected: if 0 <= i < t.drawn.len() {
            t.drawn[i]
        } else {
            Seq::empty()
        },
        ..t
    }
}

/// The row that a step leads to from a row, as far as rows can be counted.
pub open spec fn stepped(row: Option<int>, none: int, step: int) -> int {
    match row {
        None => none,
        Some(i) => if i + step < 0 {
            0
        } else if i + step > usize::MAX {
            usize::MAX as int
        } else {
            i + step
        },
    }
}

/// The number of the row that a step leads to from the selected one.
pub open spec fn row_after(t: TreeV, none: int, step: int) -> int {
    stepped(drawn_at(t.drawn, t.selected), none, step)
}

/// `TreeState::key_up`: the row above; from nowhere the last one.
#[verifier::external_body]
fn tree_key_up(t: &mut TreeState<String>)
    ensures
        tree(*final(t)) == with_selected_row(
            tree(*old(t)),
            row_after(tree(*old(t)), usize::MAX as int, -1),
        ),
{
    let _ = t.key_up();
}

/// `TreeState::key_down`: the row below; from nowhere the first one.
#[verifier::external_body]
fn tree_key_down(t: &mut TreeState<String>)
    ensures
        tree(*final(t)) == with_selected_row(tree(*old(t)), row_after(tree(*old(t)), 0, 1)),
{
    let _ = t.key_down();
}

pub open spec fn page_step(page: usize, up: bool) -> int {
    if up {
        -(page as int)
    } else {
        page as int
    }
}

/// The row a page away from a row; the first one from nowhere.
fn page_from(row: Option<usize>, page: usize, up: bool) -> (r: usize)
    ensures
        r == stepped(
            match row {
                Some(i) => Some(i as int),
                None => None,
            },
            0,
            page_step(page, up),
        ),
{
    match row {
        None => 0,
        Some(i) => if up {
            i.saturating_sub(page)
        } else {
            i.saturating_add(page)
        },
    }
}

/// `TreeState::select_relative` with a step of one page: the row that the step
/// leads to.
#[verifier::external_body]
fn tree_page(t: &mut TreeState<String>, page: usize, up: bool)
    ensures
        tree(*final(t)) == with_selected_row(
            tree(*old(t)),
            row_after(tree(*old(t)), 0, page_step(page, up)),
        ),
{
    let _ = t.select_relative(|row| page_from(row, page, up));
}

/// `TreeState::key_left`: closes the selected node, or goes to its parent
/// where it is not open.
#[verifier::external_body]
fn tree_key_left(t: &mut TreeState<String>)
    ensures
        tree(*final(t)) == (if tree(*old(t)).opened.contains(tree(*old(t)).selected) {
            TreeV { opened: tree(*old(t)).opened.remove(tree(*old(t)).selected), ..tree(*old(t)) }
        } else if tree(*old(t)).selected.len() > 0 {
            TreeV { selected: tree(*old(t)).selected.drop_last(), ..tree(*old(t)) }
        } else {
            tree(*old(t))
        }),
{
    let _ = t.key_left();
}

/// `TreeState::toggle_selected`: opens the selected node, or closes it.
#[verifier::external_body]
fn tree_toggle(t: &mut TreeState<String>)
    ensures
        tree(*final(t)) == (if tree(*old(t)).selected.len() == 0 {
            tree(*old(t))
        } else if tree(*old(t)).opened.contains(tree(*old(t)).selected) {
            TreeV { opened: tree(*old(t)).opened.remove(tree(*old(t)).selected), ..tree(*old(t)) }
        } else {
            TreeV { opened: tree(*old(t)).opened.insert(tree(*old(t)).selected), ..tree(*old(t)) }
        }),
{
    let _ = t.toggle_selected();
}

/// `TreeState::select_first`: the first node drawn.
#[verifier::external_body]
fn tree_first(t: &mut TreeState<String>)
    ensures
        tree(*final(t)) == (TreeV {
            selected: if tree(*old(t)).drawn.len() > 0 {
                tree(*old(t)).drawn[0]
            } else {
                Seq::empty()
            },
            ..tree(*old(t))
        }),
{
    let _ = t.select_first();
}

/// `TreeState::select_last`: the last node drawn.
#[verifier::external_body]
fn tree_last(t: &mut TreeState<String>)
    ensures
        tree(*final(t)) == (TreeV {
            selected: if tree(*old(t)).drawn.len() > 0 {
                tree(*old(t)).drawn.last()
            } else {
                Seq::empty()
            },
            ..tree(*old(t))
        }),
{
    let _ = t.select_last();
}

/// `TreeState::scroll_up`: towards the top, and no further.
#[verifier::external_body]
fn tree_scroll_up(t: &mut TreeState<String>, lines: usize)
    ensures
        tree(*final(t)) == (TreeV {
            line: if tree(*old(t)).line < lines {
                0
            } else {
                (tree(*old(t)).line - lines) as usize
            },
            ..tree(*old(t))
        }),
{
    let _ = t.scroll_up(lines);
}

/// `TreeState::scroll_down`: towards the last node drawn, and no further.
#[verifier::external_body]
fn tree_scroll_down(t: &mut TreeState<String>, lines: usize)
    ensures
        tree(*final(t)) == (TreeV {
            line: if tree(*old(t)).line + lines < tree(*old(t)).last {
                (tree(*old(t)).line + lines) as usize
            } else {
                tree(*old(t)).last
            },
            ..tree(*old(t))
        }),
{
    let _ = t.scroll_down(lines);
}

/// The group that a plugin stands under.
pub open spec fn provider_of(module: Seq<char>) -> Seq<char> {
    match text::split_at_char(module, '/') {
        Some((scope, _)) => scope,
        None => "core"@,
    }
}

pub open spec fn plugins_view(v: Seq<StaticPluginItem>) -> Seq<StaticPluginItem<Seq<char>>> {
    v.map_values(|p: StaticPluginItem| p@)
}

/// The tree of an inventory with every group open.
pub open spec fn with_groups_open(plugins: Seq<StaticPluginItem<Seq<char>>>) -> TreeV
    decreases plugins.len(),
{
    if plugins.len() == 0 {
        new_tree()
    } else {
        with_opened(
            with_groups_open(plugins.drop_last()),
            seq![provider_of(plugins.last().module_name)],
        )
    }
}

/// The tree as it is first shown: every group open, the first one selected.
pub open spec fn inventory(plugins: Seq<StaticPluginItem<Seq<char>>>) -> TreeV {
    TreeV {
        selected: if plugins.len() == 0 {
            Seq::empty()
        } else {
            seq![provider_of(plugins[0].module_name)]
        },
        ..with_groups_open(plugins)
    }
}

/// The plugin inventory that is shown.
pub struct PluginTree {
    pub title: String,
    pub state: TreeState<String>,
}

#[verifier::ext_equal]
pub ghost struct PluginTreeV {
    pub title: Seq<char>,
    pub tree: TreeV,
}

impl View for PluginTree {
    type V = PluginTreeV;

    open spec fn view(&self) -> PluginTreeV {
        PluginTreeV { title: self.title@, tree: tree(self.state) }
    }
}

fn single(s: String) -> (r: Vec<String>)
    ensures
        text::views(r@) == seq![s@],
{
    let mut r: Vec<String> = Vec::new();
    r.push(s);
    assert(text::views(r@) =~= seq![s@]);
    r
}

proof fn lemma_groups_keep_selection(plugins: Seq<StaticPluginItem<Seq<char>>>)
    ensures
        with_groups_open(plugins).selected == Seq::<Seq<char>>::empty(),
    decreases plugins.len(),
{
    if plugins.len() > 0 {
        lemma_groups_keep_selection(plugins.drop_last());
    }
}

/// What a key does to the tree. Escape is not among its keys.
pub open spec fn tree_after_key(t: TreeV, code: KeyCode, page: int) -> TreeV {
    match code {
        KeyCode::Up => with_selected_row(t, row_after(t, usize::MAX as int, -1)),
        KeyCode::Down => with_selected_row(t, row_after(t, 0, 1)),
        KeyCode::Left => if t.opened.contains(t.selected) {
            TreeV { opened: t.opened.remove(t.selected), ..t }
        } else if t.selected.len() > 0 {
            TreeV { selected: t.selected.drop_last(), ..t }
        } else {
            t
        },
        KeyCode::Right | KeyCode::Enter => if t.selected.len() == 0 {
            t
        } else if t.opened.contains(t.selected) {
            TreeV { opened: t.opened.remove(t.selected), ..t }
        } else {
            TreeV { opened: t.opened.insert(t.selected), ..t }
        },
        KeyCode::PageUp => with_selected_row(t, row_after(t, 0, -page)),
        KeyCode::PageDown => with_selected_row(t, row_after(t, 0, page)),
        KeyCode::Home => TreeV {
            selected: if t.drawn.len() > 0 {
                t.drawn[0]
            } else {
                Seq::empty()
            },
            ..t
        },
        KeyCode::End => TreeV {
            selected: if t.drawn.len() > 0 {
                t.drawn.last()
            } else {
                Seq::empty()
            },
            ..t
        },
        _ => t,
    }
}

/// The tree with its first line moved by the wheel.
pub open spec fn tree_scrolled(t: TreeV, up: bool, lines: int) -> TreeV {
    TreeV {
        line: if up {
            if t.line < lines {
                0
            } else {
                (t.line - lines) as usize
            }
        } else if t.line + lines < t.last {
            (t.line + lines) as usize
        } else {
            t.last
        },
        ..t
    }
}

impl PluginTree {
    pub fn new(title: String, plugins: &Vec<StaticPluginItem>) -> (r: PluginTree)
        ensures
            r@ == (PluginTreeV { title: title@, tree: inventory(plugins_view(plugins@)) }),
    {
        let ghost all = plugins_view(plugins@);
        let mut state = tree_default();
        let mut i: usize = 0;
        assert(all.take(0) =~= Seq::empty());
        assert(tree(state) =~= new_tree());
        while i < plugins.len()
            invariant
                i <= plugins@.len(),
                all == plugins_view(plugins@),
                tree(state) == with_groups_open(all.take(i as int)),
            decreases plugins@.len() - i,
        {
            assert(all.take(i as int + 1).drop_last() =~= all.take(i as int));
            assert(all.take(i as int + 1).last() == plugins@[i as int]@);
            let provider = presets::plugin_provider(plugins[i].module_name.as_str());
            tree_open(&mut state, single(provider));
            i = i + 1;
        }
        assert(all.take(i as int) =~= all);
        proof {
            lemma_groups_keep_selection(all);
        }
        if plugins.len() > 0 {
            let provider = presets::plugin_provider(plugins[0].module_name.as_str());
            assert(all[0] == plugins@[0]@);
            tree_select(&mut state, single(provider));
        }
        assert(tree(state) =~= inventory(all));
        PluginTree { title, state }
    }

    pub fn key(&mut self, code: KeyCode, page: usize)
        ensures
            final(self)@ == (PluginTreeV {
                tree: tree_after_key(old(self)@.tree, code, page as int),
                ..old(self)@
            }),
    {
        match code {
            KeyCode::Up => tree_key_up(&mut self.state),
            KeyCode::Down => tree_key_down(&mut self.state),
            KeyCode::Left => tree_key_left(&mut self.state),
            KeyCode::Right | KeyCode::Enter => tree_toggle(&mut self.state),
            KeyCode::PageUp => tree_page(&mut self.state, page, true),
            KeyCode::PageDown => tree_page(&mut self.state, page, false),
            KeyCode::Home => tree_first(&mut self.state),
            KeyCode::End => tree_last(&mut self.state),
            _ => {},
        }
    }

    pub fn scroll(&mut self, up: bool, lines: usize)
        ensures
            final(self)@ == (PluginTreeV {
                tree: tree_scrolled(old(self)@.tree, up, lines as int),
                ..old(self)@
            }),
    {
        if up {
            tree_scroll_up(&mut self.state, lines);
        } else {
            tree_scroll_down(&mut self.state, lines);
        }
    }
}

} // verus!
