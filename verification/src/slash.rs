//! The menu that opens on a slash: commands, and the arguments they take.

use crate::app::{self, App, AppV, LocalDesc, PluginCommand, PluginCommandOption, PluginCommandV};
use crate::bus::{AuthMethod, AuthMethodV, CatalogModel, CatalogPreset, PalettePack, SkillInfo, UiPluginItem};
use crate::effect::{self, Locale};
use crate::events;
use crate::lists;
use crate::presets::{self, SlashCommand, Stock};
use crate::seqs;
use crate::session;
use crate::text;
use crate::theme::PackV;
use vstd::prelude::*;

verus! {

/// A line of the menu.
#[derive(Debug, PartialEq, Eq)]
pub struct SlashEntry<S = String> {
    pub disabled: bool,
    pub name: S,
    pub usage: S,
    pub desc: S,
    pub skill: bool,
    pub plugin: bool,
    /// The heading of the group that begins here.
    pub section: Option<S>,
    /// What the draft becomes; a command without arguments has none.
    pub completion: Option<S>,
}

pub type EntryV = SlashEntry<Seq<char>>;

impl View for SlashEntry {
    type V = EntryV;

    open spec fn view(&self) -> EntryV {
        SlashEntry {
            disabled: self.disabled,
            name: self.name@,
            usage: self.usage@,
            desc: self.desc@,
            skill: self.skill,
            plugin: self.plugin,
            section: text::opt_view(self.section),
            completion: text::opt_view(self.completion),
        }
    }
}

impl Clone for SlashEntry {
    fn clone(&self) -> (r: Self)
        ensures
            r@ == self@,
    {
        SlashEntry {
            disabled: self.disabled,
            name: self.name.clone(),
            usage: self.usage.clone(),
            desc: self.desc.clone(),
            skill: self.skill,
            plugin: self.plugin,
            section: text::copy_opt(&self.section),
            completion: text::copy_opt(&self.completion),
        }
    }
}

pub open spec fn entries_view(v: Seq<SlashEntry>) -> Seq<EntryV> {
    v.map_values(|e: SlashEntry| e@)
}

// --- order by name --------------------------------------------------------------------

/// Whether a text stands before another in a dictionary.
pub open spec fn text_before(a: Seq<char>, b: Seq<char>) -> bool
    decreases a.len(),
{
    if b.len() == 0 {
        false
    } else if a.len() == 0 {
        true
    } else if a[0] == b[0] {
        text_before(a.skip(1), b.skip(1))
    } else {
        a[0] < b[0]
    }
}

/// An entry put behind those that do not come after it by name.
pub open spec fn with_entry(s: Seq<EntryV>, e: EntryV) -> Seq<EntryV>
    decreases s.len(),
{
    if s.len() == 0 || !text_before(e.name, s.last().name) {
        s.push(e)
    } else {
        with_entry(s.drop_last(), e).push(s.last())
    }
}

/// The entries by name; those with the same name keep their order.
pub open spec fn by_name(s: Seq<EntryV>) -> Seq<EntryV>
    decreases s.len(),
{
    if s.len() == 0 {
        s
    } else {
        with_entry(by_name(s.drop_last()), s.last())
    }
}

pub open spec fn ordered(s: Seq<EntryV>) -> bool {
    forall|i: int, j: int|
        0 <= i < j < s.len() ==> !text_before((#[trigger] s[j]).name, (#[trigger] s[i]).name)
}

proof fn lemma_before_is_strict(a: Seq<char>)
    ensures
        !text_before(a, a),
    decreases a.len(),
{
    if a.len() > 0 {
        lemma_before_is_strict(a.skip(1));
    }
}

proof fn lemma_before_one_way(a: Seq<char>, b: Seq<char>)
    requires
        text_before(a, b),
    ensures
        !text_before(b, a),
    decreases a.len(),
{
    if a.len() > 0 && b.len() > 0 && a[0] == b[0] {
        lemma_before_one_way(a.skip(1), b.skip(1));
    }
}

proof fn lemma_before_carries(a: Seq<char>, b: Seq<char>, c: Seq<char>)
    requires
        text_before(a, b),
        text_before(b, c),
    ensures
        text_before(a, c),
    decreases a.len(),
{
    if a.len() > 0 && b.len() > 0 && c.len() > 0 && a[0] == b[0] && b[0] == c[0] {
        lemma_before_carries(a.skip(1), b.skip(1), c.skip(1));
    }
}

/// Two texts neither of which stands before the other are the same.
proof fn lemma_before_decides(a: Seq<char>, b: Seq<char>)
    requires
        !text_before(a, b),
        !text_before(b, a),
    ensures
        a == b,
    decreases a.len(),
{
    if a.len() > 0 && b.len() > 0 {
        assert(a[0] == b[0]);
        lemma_before_decides(a.skip(1), b.skip(1));
        assert(a =~= seq![a[0]] + a.skip(1));
        assert(b =~= seq![b[0]] + b.skip(1));
    } else {
        assert(a =~= b);
    }
}

proof fn lemma_with_entry(s: Seq<EntryV>, e: EntryV)
    requires
        ordered(s),
    ensures
        ordered(with_entry(s, e)),
        with_entry(s, e).to_multiset() == s.push(e).to_multiset(),
        with_entry(s, e).len() == s.len() + 1,
    decreases s.len(),
{
    broadcast use vstd::seq_lib::group_to_multiset_ensures;

    let r = with_entry(s, e);
    if s.len() == 0 || !text_before(e.name, s.last().name) {
        assert forall|i: int, j: int| 0 <= i < j < r.len() implies !text_before(
            (#[trigger] r[j]).name,
            (#[trigger] r[i]).name,
        ) by {
            if j == s.len() && text_before(e.name, s[i].name) {
                let l = s.last().name;
                if i < s.len() - 1 {
                    assert(!text_before(s[s.len() - 1].name, s[i].name));
                    if text_before(s[i].name, l) {
                        lemma_before_carries(e.name, s[i].name, l);
                    } else {
                        lemma_before_decides(s[i].name, l);
                    }
                }
            }
        }
    } else {
        let t = s.drop_last();
        let x = s.last();
        lemma_with_entry(t, e);
        let q = with_entry(t, e);
        assert(t.push(x) =~= s);
        assert(q.push(x).to_multiset() =~= s.push(e).to_multiset()) by {
            assert(t.push(x).to_multiset() == t.to_multiset().insert(x));
            assert(t.push(e).to_multiset() == t.to_multiset().insert(e));
            assert(q.push(x).to_multiset() == q.to_multiset().insert(x));
        }
        assert forall|i: int, j: int| 0 <= i < j < r.len() implies !text_before(
            (#[trigger] r[j]).name,
            (#[trigger] r[i]).name,
        ) by {
            if j == q.len() {
                assert(q.to_multiset().count(q[i]) > 0);
                assert(t.push(e).to_multiset().count(q[i]) > 0);
                assert(t.push(e).contains(q[i]));
                let k = choose|k: int| 0 <= k < t.push(e).len() && t.push(e)[k] == q[i];
                if k < t.len() {
                    assert(s[k] == q[i]);
                    assert(!text_before(s[s.len() - 1].name, s[k].name));
                } else {
                    lemma_before_one_way(e.name, x.name);
                }
            }
        }
    }
}

/// Sorting loses nothing, adds nothing and puts the names in order.
pub proof fn law_by_name_sorts(s: Seq<EntryV>)
    ensures
        ordered(by_name(s)),
        by_name(s).to_multiset() == s.to_multiset(),
        by_name(s).len() == s.len(),
    decreases s.len(),
{
    broadcast use vstd::seq_lib::group_to_multiset_ensures;

    if s.len() > 0 {
        law_by_name_sorts(s.drop_last());
        lemma_with_entry(by_name(s.drop_last()), s.last());
        assert(s.drop_last().push(s.last()) =~= s);
        let p = by_name(s.drop_last());
        assert(p.push(s.last()).to_multiset() =~= s.to_multiset()) by {
            assert(p.push(s.last()).to_multiset() == p.to_multiset().insert(s.last()));
            assert(s.drop_last().push(s.last()).to_multiset() == s.drop_last().to_multiset().insert(
                s.last(),
            ));
        }
    }
}

fn comes_before(a: &Vec<char>, b: &Vec<char>) -> (r: bool)
    ensures
        r == text_before(a@, b@),
{
    let mut i: usize = 0;
    assert(a@.skip(0) =~= a@);
    assert(b@.skip(0) =~= b@);
    while i < a.len() && i < b.len() && a[i] == b[i]
        invariant
            i <= a@.len(),
            i <= b@.len(),
            text_before(a@, b@) == text_before(a@.skip(i as int), b@.skip(i as int)),
        decreases a@.len() - i,
    {
        assert(a@.skip(i as int)[0] == a@[i as int]);
        assert(b@.skip(i as int)[0] == b@[i as int]);
        assert(a@.skip(i as int).skip(1) =~= a@.skip(i as int + 1));
        assert(b@.skip(i as int).skip(1) =~= b@.skip(i as int + 1));
        i = i + 1;
    }
    if i >= b.len() {
        false
    } else if i >= a.len() {
        true
    } else {
        assert(a@.skip(i as int)[0] == a@[i as int]);
        assert(b@.skip(i as int)[0] == b@[i as int]);
        a[i] < b[i]
    }
}

proof fn lemma_with_entry_at(s: Seq<EntryV>, e: EntryV, n: int)
    requires
        0 <= n <= s.len(),
        n > 0 ==> !text_before(e.name, s[n - 1].name),
        forall|k: int| n <= k < s.len() ==> text_before(e.name, (#[trigger] s[k]).name),
    ensures
        with_entry(s, e) == s.insert(n, e),
    decreases s.len(),
{
    if n == s.len() {
        assert(s.insert(n, e) =~= s.push(e));
    } else {
        let t = s.drop_last();
        assert(text_before(e.name, s[s.len() - 1].name));
        assert forall|k: int| n <= k < t.len() implies text_before(e.name, (#[trigger] t[k]).name) by {
            assert(t[k] == s[k]);
        }
        lemma_with_entry_at(t, e, n);
        assert(t.insert(n, e).push(s.last()) =~= s.insert(n, e));
    }
}

fn insert_entry(v: &mut Vec<SlashEntry>, e: SlashEntry)
    ensures
        entries_view(final(v)@) == with_entry(entries_view(old(v)@), e@),
{
    let ghost all = entries_view(v@);
    let name = text::chars_of(e.name.as_str());
    let mut i: usize = v.len();
    let mut stop = false;
    while i > 0 && !stop
        invariant
            i <= v@.len(),
            all == entries_view(v@),
            name@ == e.name@,
            stop ==> i > 0 && !text_before(e.name@, all[i - 1].name),
            forall|k: int| i <= k < all.len() ==> text_before(e.name@, (#[trigger] all[k]).name),
        decreases i, if stop { 0int } else { 1int },
    {
        let other = text::chars_of(v[i - 1].name.as_str());
        assert(all[i - 1] == v@[i - 1]@);
        if comes_before(&name, &other) {
            i = i - 1;
        } else {
            stop = true;
        }
    }
    proof {
        lemma_with_entry_at(all, e@, i as int);
    }
    let ghost x = e@;
    v.insert(i, e);
    assert(entries_view(v@) =~= all.insert(i as int, x));
}

fn sort_by_name(v: Vec<SlashEntry>) -> (r: Vec<SlashEntry>)
    ensures
        entries_view(r@) == by_name(entries_view(v@)),
{
    let ghost all = entries_view(v@);
    let mut r: Vec<SlashEntry> = Vec::new();
    let mut i: usize = 0;
    assert(entries_view(r@) =~= by_name(all.take(0)));
    while i < v.len()
        invariant
            i <= v@.len(),
            all == entries_view(v@),
            entries_view(r@) == by_name(all.take(i as int)),
        decreases v@.len() - i,
    {
        proof {
            assert(all.take(i as int + 1).drop_last() =~= all.take(i as int));
            assert(all.take(i as int + 1).last() == v@[i as int]@);
        }
        let e = v[i].clone();
        insert_entry(&mut r, e);
        i = i + 1;
    }
    assert(all.take(i as int) =~= all);
    r
}

// --- names -------------------------------------------------------------------------------

pub open spec fn entry_named(name: Seq<char>) -> spec_fn(EntryV) -> bool {
    |e: EntryV| e.name == name
}

pub open spec fn entry_other(name: Seq<char>) -> spec_fn(EntryV) -> bool {
    |e: EntryV| e.name != name
}

/// The entries with exactly this name first, the others behind them.
pub open spec fn exact_first(s: Seq<EntryV>, name: Seq<char>) -> Seq<EntryV> {
    s.filter(entry_named(name)) + s.filter(entry_other(name))
}

fn put_exact_first(v: &Vec<SlashEntry>, name: &str) -> (r: Vec<SlashEntry>)
    ensures
        entries_view(r@) == exact_first(entries_view(v@), name@),
{
    let ghost all = entries_view(v@);
    let ghost p = entry_named(name@);
    let ghost q = entry_other(name@);
    let mut r: Vec<SlashEntry> = Vec::new();
    let mut rest: Vec<SlashEntry> = Vec::new();
    let mut i: usize = 0;
    proof {
        seqs::lemma_filter_empty(all.take(0), p);
        seqs::lemma_filter_empty(all.take(0), q);
        assert(entries_view(r@) =~= all.take(0).filter(p));
        assert(entries_view(rest@) =~= all.take(0).filter(q));
    }
    while i < v.len()
        invariant
            i <= v@.len(),
            all == entries_view(v@),
            p == entry_named(name@),
            q == entry_other(name@),
            entries_view(r@) == all.take(i as int).filter(p),
            entries_view(rest@) == all.take(i as int).filter(q),
        decreases v@.len() - i,
    {
        let ghost a = entries_view(r@);
        let ghost b = entries_view(rest@);
        proof {
            seqs::lemma_filter_push(all, p, i as int);
            seqs::lemma_filter_push(all, q, i as int);
            assert(all[i as int] == v@[i as int]@);
        }
        let e = v[i].clone();
        if text::same(e.name.as_str(), name) {
            r.push(e);
            assert(entries_view(r@) =~= a.push(all[i as int]));
        } else {
            rest.push(e);
            assert(entries_view(rest@) =~= b.push(all[i as int]));
        }
        i = i + 1;
    }
    assert(all.take(i as int) =~= all);
    let ghost a = entries_view(r@);
    let ghost b = entries_view(rest@);
    r.append(&mut rest);
    assert(entries_view(r@) =~= a + b);
    r
}

pub open spec fn plugin_command(name: Seq<char>) -> spec_fn(PluginCommandV) -> bool {
    |c: PluginCommandV| c.name == name
}

pub(crate) fn find_command(v: &Vec<PluginCommand>, name: &str) -> (r: usize)
    ensures
        r == seqs::first_index(app::commands_view(v@), plugin_command(name@)),
        r <= v@.len(),
{
    let ghost all = app::commands_view(v@);
    let mut i: usize = 0;
    while i < v.len() && !text::same(v[i].name.as_str(), name)
        invariant
            i <= v@.len(),
            all == app::commands_view(v@),
            forall|k: int| 0 <= k < i ==> !plugin_command(name@)(#[trigger] all[k]),
        decreases v@.len() - i,
    {
        assert(all[i as int] == v@[i as int]@);
        i = i + 1;
    }
    proof {
        seqs::lemma_first_index_is(all, plugin_command(name@), i as int);
    }
    i
}

pub type SkillV = SkillInfo<Seq<char>>;

pub open spec fn skill_named(name: Seq<char>) -> spec_fn(SkillV) -> bool {
    |s: SkillV| s.name == name
}

pub open spec fn client_skill(name: Seq<char>) -> spec_fn(SkillV) -> bool {
    |s: SkillV| s.name == name && s.client_command
}

pub(crate) fn find_skill(v: &Vec<SkillInfo>, name: &str) -> (r: usize)
    ensures
        r == seqs::first_index(events::skills_view(v@), skill_named(name@)),
        r <= v@.len(),
{
    let ghost all = events::skills_view(v@);
    let mut i: usize = 0;
    while i < v.len() && !text::same(v[i].name.as_str(), name)
        invariant
            i <= v@.len(),
            all == events::skills_view(v@),
            forall|k: int| 0 <= k < i ==> !skill_named(name@)(#[trigger] all[k]),
        decreases v@.len() - i,
    {
        assert(all[i as int] == v@[i as int]@);
        i = i + 1;
    }
    proof {
        seqs::lemma_first_index_is(all, skill_named(name@), i as int);
    }
    i
}

pub(crate) fn find_client_skill(v: &Vec<SkillInfo>, name: &str) -> (r: usize)
    ensures
        r == seqs::first_index(events::skills_view(v@), client_skill(name@)),
        r <= v@.len(),
{
    let ghost all = events::skills_view(v@);
    let mut i: usize = 0;
    while i < v.len() && !(text::same(v[i].name.as_str(), name) && v[i].client_command)
        invariant
            i <= v@.len(),
            all == events::skills_view(v@),
            forall|k: int| 0 <= k < i ==> !client_skill(name@)(#[trigger] all[k]),
        decreases v@.len() - i,
    {
        assert(all[i as int] == v@[i as int]@);
        i = i + 1;
    }
    proof {
        seqs::lemma_first_index_is(all, client_skill(name@), i as int);
    }
    i
}

// --- the commands -----------------------------------------------------------------------

pub type DescV = LocalDesc<Seq<char>>;

pub open spec fn describes(l: Locale, plugin: bool, name: Seq<char>) -> spec_fn(DescV) -> bool {
    |d: DescV| d.locale == l && d.plugin == plugin && d.name == name
}

/// What a command is described as in a language: in its own words where there
/// are no others.
pub open spec fn described(
    v: Seq<DescV>,
    l: Locale,
    plugin: bool,
    name: Seq<char>,
    own: Seq<char>,
) -> Seq<char> {
    match seqs::first(v, describes(l, plugin, name)) {
        Some(d) => d.text,
        None => own,
    }
}

fn same_locale(a: Locale, b: Locale) -> (r: bool)
    ensures
        r == (a == b),
{
    match (a, b) {
        (Locale::En, Locale::En) => true,
        (Locale::Zh, Locale::Zh) => true,
        _ => false,
    }
}

fn describe(v: &Vec<LocalDesc>, l: Locale, plugin: bool, name: &str, own: &str) -> (r: String)
    ensures
        r@ == described(app::descs_view(v@), l, plugin, name@, own@),
{
    let ghost all = app::descs_view(v@);
    let ghost p = describes(l, plugin, name@);
    let mut i: usize = 0;
    while i < v.len() && !(same_locale(v[i].locale, l) && v[i].plugin == plugin && text::same(
        v[i].name.as_str(),
        name,
    ))
        invariant
            i <= v@.len(),
            all == app::descs_view(v@),
            p == describes(l, plugin, name@),
            forall|k: int| 0 <= k < i ==> !p(#[trigger] all[k]),
        decreases v@.len() - i,
    {
        assert(all[i as int] == v@[i as int]@);
        i = i + 1;
    }
    proof {
        if i < v@.len() {
            assert(all[i as int] == v@[i as int]@);
        }
        seqs::lemma_first_index_is(all, p, i as int);
    }
    if i < v.len() {
        v[i].text.clone()
    } else {
        own.to_owned()
    }
}

pub open spec fn builtin_entry(d: Seq<DescV>, l: Locale) -> spec_fn(SlashCommand<Seq<char>>) -> EntryV {
    |c: SlashCommand<Seq<char>>|
        SlashEntry {
            disabled: false,
            name: c.name,
            usage: c.usage,
            desc: described(d, l, false, c.name, c.desc),
            skill: false,
            plugin: false,
            section: None,
            completion: None,
        }
}

pub open spec fn builtin_offered(prefix: Seq<char>) -> spec_fn(SlashCommand<Seq<char>>) -> bool {
    |c: SlashCommand<Seq<char>>| text::has_prefix(c.name, prefix)
}

pub open spec fn plugin_usage(c: PluginCommandV) -> Seq<char> {
    match c.input {
        Some(i) => "/"@ + c.name + " ["@ + i.hint + "]"@,
        None => "/"@ + c.name,
    }
}

pub open spec fn plugin_entry(d: Seq<DescV>, l: Locale) -> spec_fn(PluginCommandV) -> EntryV {
    |c: PluginCommandV|
        SlashEntry {
            disabled: false,
            name: c.name,
            usage: plugin_usage(c),
            desc: described(d, l, true, c.name, c.description),
            skill: false,
            plugin: true,
            section: None,
            completion: None,
        }
}

pub open spec fn plugin_offered(prefix: Seq<char>) -> spec_fn(PluginCommandV) -> bool {
    |c: PluginCommandV| text::has_prefix(c.name, prefix) && !presets::is_builtin(c.name)
}

pub open spec fn skill_usage(s: SkillV) -> Seq<char> {
    match s.input_hint {
        Some(h) => "/"@ + s.name + " "@ + h,
        None => "/"@ + s.name,
    }
}

pub open spec fn skill_entry() -> spec_fn(SkillV) -> EntryV {
    |s: SkillV|
        SlashEntry {
            disabled: false,
            name: s.name,
            usage: skill_usage(s),
            desc: s.description,
            skill: !s.client_command,
            plugin: s.client_command,
            section: None,
            completion: None,
        }
}

/// The skills that are offered: no command of the client or of a plugin has
/// their name, and signing out is not offered here.
pub open spec fn skill_offered(prefix: Seq<char>, plugins: Seq<PluginCommandV>) -> spec_fn(
    SkillV,
) -> bool {
    |s: SkillV|
        text::ascii_lower(s.name) != text::ascii_lower("logout"@) && text::has_prefix(
            s.name,
            prefix,
        ) && !presets::is_builtin(s.name) && !seqs::some(plugins, plugin_command(s.name))
}

pub open spec fn builtin_entries(d: Seq<DescV>, l: Locale, prefix: Seq<char>) -> Seq<EntryV> {
    presets::slash_table().filter(builtin_offered(prefix)).map_values(builtin_entry(d, l))
}

pub open spec fn plugin_entries(
    v: Seq<PluginCommandV>,
    d: Seq<DescV>,
    l: Locale,
    prefix: Seq<char>,
) -> Seq<EntryV> {
    v.filter(plugin_offered(prefix)).map_values(plugin_entry(d, l))
}

pub open spec fn skill_entries(v: Seq<SkillV>, plugins: Seq<PluginCommandV>, prefix: Seq<char>) -> Seq<
    EntryV,
> {
    v.filter(skill_offered(prefix, plugins)).map_values(skill_entry())
}

fn plain_entry(name: &str, usage: String, desc: &str, skill: bool, plugin: bool) -> (r: SlashEntry)
    ensures
        r@ == (SlashEntry {
            disabled: false,
            name: name@,
            usage: usage@,
            desc: desc@,
            skill,
            plugin,
            section: None,
            completion: None,
        }),
{
    SlashEntry {
        disabled: false,
        name: name.to_owned(),
        usage,
        desc: desc.to_owned(),
        skill,
        plugin,
        section: None,
        completion: None,
    }
}

fn list_builtins(d: &Vec<LocalDesc>, l: Locale, prefix: &str) -> (r: Vec<SlashEntry>)
    ensures
        entries_view(r@) == builtin_entries(app::descs_view(d@), l, prefix@),
{
    let v = presets::slash_commands();
    let ghost all = presets::slash_table();
    let ghost p = builtin_offered(prefix@);
    let ghost f = builtin_entry(app::descs_view(d@), l);
    let mut r: Vec<SlashEntry> = Vec::new();
    let mut i: usize = 0;
    proof {
        seqs::lemma_filter_empty(all.take(0), p);
        assert(entries_view(r@) =~= all.take(0).filter(p).map_values(f));
    }
    while i < v.len()
        invariant
            i <= v@.len(),
            all == presets::commands_view(v@),
            p == builtin_offered(prefix@),
            f == builtin_entry(app::descs_view(d@), l),
            entries_view(r@) == all.take(i as int).filter(p).map_values(f),
        decreases v@.len() - i,
    {
        let c = &v[i];
        let ghost had = entries_view(r@);
        let ghost before = all.take(i as int).filter(p);
        proof {
            seqs::lemma_filter_push(all, p, i as int);
            assert(all[i as int] == c@);
        }
        if text::starts_with(c.name.as_str(), prefix) {
            let desc = describe(d, l, false, c.name.as_str(), c.desc.as_str());
            r.push(plain_entry(c.name.as_str(), c.usage.clone(), desc.as_str(), false, false));
            assert(entries_view(r@) =~= had.push(f(c@)));
            assert(before.push(c@).map_values(f) =~= before.map_values(f).push(f(c@)));
        }
        i = i + 1;
    }
    assert(presets::commands_view(v@).len() == v@.len());
    assert(all.take(i as int) =~= all);
    r
}

fn usage_of_plugin(c: &PluginCommand) -> (r: String)
    ensures
        r@ == plugin_usage(c@),
{
    match &c.input {
        Some(i) => {
            let mut t = text::concat3("/", c.name.as_str(), " [");
            text::push_str(&mut t, i.hint.as_str());
            text::push_str(&mut t, "]");
            t
        },
        None => text::concat2("/", c.name.as_str()),
    }
}

fn list_plugins(
    v: &Vec<PluginCommand>,
    d: &Vec<LocalDesc>,
    l: Locale,
    prefix: &str,
) -> (r: Vec<SlashEntry>)
    ensures
        entries_view(r@) == plugin_entries(
            app::commands_view(v@),
            app::descs_view(d@),
            l,
            prefix@,
        ),
{
    let ghost all = app::commands_view(v@);
    let ghost p = plugin_offered(prefix@);
    let ghost f = plugin_entry(app::descs_view(d@), l);
    let mut r: Vec<SlashEntry> = Vec::new();
    let mut i: usize = 0;
    proof {
        seqs::lemma_filter_empty(all.take(0), p);
        assert(entries_view(r@) =~= all.take(0).filter(p).map_values(f));
    }
    while i < v.len()
        invariant
            i <= v@.len(),
            all == app::commands_view(v@),
            p == plugin_offered(prefix@),
            f == plugin_entry(app::descs_view(d@), l),
            entries_view(r@) == all.take(i as int).filter(p).map_values(f),
        decreases v@.len() - i,
    {
        let c = &v[i];
        let ghost had = entries_view(r@);
        let ghost before = all.take(i as int).filter(p);
        proof {
            seqs::lemma_filter_push(all, p, i as int);
            assert(all[i as int] == c@);
        }
        if text::starts_with(c.name.as_str(), prefix) && !presets::is_builtin_name(
            c.name.as_str(),
        ) {
            let desc = describe(d, l, true, c.name.as_str(), c.description.as_str());
            r.push(
                plain_entry(c.name.as_str(), usage_of_plugin(c), desc.as_str(), false, true),
            );
            assert(entries_view(r@) =~= had.push(f(c@)));
            assert(before.push(c@).map_values(f) =~= before.map_values(f).push(f(c@)));
        }
        i = i + 1;
    }
    assert(all.take(i as int) =~= all);
    r
}

fn usage_of_skill(s: &SkillInfo) -> (r: String)
    ensures
        r@ == skill_usage(s@),
{
    match &s.input_hint {
        Some(h) => {
            let mut t = text::concat3("/", s.name.as_str(), " ");
            text::push_str(&mut t, h.as_str());
            t
        },
        None => text::concat2("/", s.name.as_str()),
    }
}

fn is_offered(s: &SkillInfo, prefix: &str, plugins: &Vec<PluginCommand>) -> (r: bool)
    ensures
        r == skill_offered(prefix@, app::commands_view(plugins@))(s@),
{
    let at = find_command(plugins, s.name.as_str());
    assert(app::commands_view(plugins@).len() == plugins@.len());
    !text::eq_ignore_ascii_case(s.name.as_str(), "logout") && text::starts_with(
        s.name.as_str(),
        prefix,
    ) && !presets::is_builtin_name(s.name.as_str()) && at >= plugins.len()
}

fn list_skills(v: &Vec<SkillInfo>, plugins: &Vec<PluginCommand>, prefix: &str) -> (r: Vec<SlashEntry>)
    ensures
        entries_view(r@) == skill_entries(
            events::skills_view(v@),
            app::commands_view(plugins@),
            prefix@,
        ),
{
    let ghost all = events::skills_view(v@);
    let ghost p = skill_offered(prefix@, app::commands_view(plugins@));
    let ghost f = skill_entry();
    let mut r: Vec<SlashEntry> = Vec::new();
    let mut i: usize = 0;
    proof {
        seqs::lemma_filter_empty(all.take(0), p);
        assert(entries_view(r@) =~= all.take(0).filter(p).map_values(f));
    }
    while i < v.len()
        invariant
            i <= v@.len(),
            all == events::skills_view(v@),
            p == skill_offered(prefix@, app::commands_view(plugins@)),
            f == skill_entry(),
            entries_view(r@) == all.take(i as int).filter(p).map_values(f),
        decreases v@.len() - i,
    {
        let s = &v[i];
        let ghost had = entries_view(r@);
        let ghost before = all.take(i as int).filter(p);
        proof {
            seqs::lemma_filter_push(all, p, i as int);
            assert(all[i as int] == s@);
        }
        if is_offered(s, prefix, plugins) {
            r.push(
                plain_entry(
                    s.name.as_str(),
                    usage_of_skill(s),
                    s.description.as_str(),
                    !s.client_command,
                    s.client_command,
                ),
            );
            assert(entries_view(r@) =~= had.push(f(s@)));
            assert(before.push(s@).map_values(f) =~= before.map_values(f).push(f(s@)));
        }
        i = i + 1;
    }
    assert(all.take(i as int) =~= all);
    r
}

// --- the arguments ------------------------------------------------------------------------

pub open spec fn plain(value: Seq<char>, desc: Seq<char>) -> Stock {
    (value, value, desc)
}

fn make_plain(value: &str, desc: &str) -> (r: (String, String, String))
    ensures
        (r.0@, r.1@, r.2@) == plain(value@, desc@),
{
    (value.to_owned(), value.to_owned(), desc.to_owned())
}

fn add_option(v: &mut Vec<(String, String, String)>, value: &str, desc: &str)
    ensures
        presets::stock_view(final(v)@) == presets::stock_view(old(v)@).push(plain(value@, desc@)),
{
    let o = make_plain(value, desc);
    v.push(o);
    assert(presets::stock_view(v@) =~= presets::stock_view(old(v)@).push(plain(value@, desc@)));
}

pub open spec fn model_options(v: Seq<CatalogModel<Seq<char>>>, current: Seq<char>) -> Seq<Stock> {
    let rows = Seq::new(v.len(), |i: int| (v[i].id, v[i].name, v[i].provider));
    if seqs::some(rows, lists::stock_named(current)) {
        rows
    } else {
        seq![(current, current, Seq::<char>::empty())] + rows
    }
}

pub open spec fn id_options(v: Seq<Seq<char>>) -> Seq<Stock> {
    Seq::new(v.len(), |i: int| plain(v[i], Seq::empty()))
}

pub open spec fn preset_options(v: Seq<CatalogPreset<Seq<char>>>) -> Seq<Stock> {
    Seq::new(v.len(), |i: int| (v[i].id, v[i].name, v[i].description))
}

pub open spec fn effort_options() -> Seq<Stock> {
    seq![
        plain("off"@, "disable extended reasoning"@),
        plain("high"@, "high reasoning effort"@),
        plain("max"@, "maximum reasoning effort"@),
    ]
}

pub open spec fn permission_options() -> Seq<Stock> {
    Seq::new(
        presets::permission_table().len(),
        |i: int| plain(presets::permission_table()[i].0, presets::permission_table()[i].1),
    )
}

pub open spec fn palette_option(p: PackV) -> Stock {
    (
        p.id,
        p.label,
        if p.loaded {
            "theme plugin"@
        } else {
            "theme plugin · stopped"@
        },
    )
}

pub open spec fn theme_options(v: Seq<PackV>, l: Locale) -> Seq<Stock> {
    seq![
        (
            "toggle"@,
            effect::spoken(l, "Toggle dark / light"@, "切换 dark / light"@),
            effect::spoken(l, "switch the current theme mode"@, "切换当前主题的明暗模式"@),
        ),
    ] + Seq::new(v.len(), |i: int| palette_option(v[i]))
}

pub open spec fn ui_options(v: Seq<UiPluginItem<Seq<char>>>) -> Seq<Stock> {
    Seq::new(v.len(), |i: int| (v[i].id, v[i].label, v[i].source + " · "@ + v[i].status))
}

pub open spec fn auth_options(v: Seq<AuthMethodV>) -> Seq<Stock> {
    Seq::new(
        v.len(),
        |i: int| (v[i].id, text::text_or(v[i].name, v[i].id), text::text_or(v[i].description, Seq::empty())),
    )
}

fn list_model_options(v: &Vec<CatalogModel>, current: &str) -> (r: Vec<(String, String, String)>)
    ensures
        presets::stock_view(r@) == model_options(events::models_view(v@), current@),
{
    let ghost all = events::models_view(v@);
    let mut r: Vec<(String, String, String)> = Vec::new();
    let mut i: usize = 0;
    while i < v.len()
        invariant
            i <= v@.len(),
            all == events::models_view(v@),
            r@.len() == i,
            forall|k: int|
                0 <= k < i ==> ((#[trigger] r@[k]).0@, r@[k].1@, r@[k].2@) == (
                    all[k].id,
                    all[k].name,
                    all[k].provider,
                ),
        decreases v@.len() - i,
    {
        assert(all[i as int] == v@[i as int]@);
        r.push((v[i].id.clone(), v[i].name.clone(), v[i].provider.clone()));
        i = i + 1;
    }
    let ghost rows = Seq::new(all.len(), |i: int| (all[i].id, all[i].name, all[i].provider));
    assert(presets::stock_view(r@) =~= rows);
    let at = lists::find_stock(&r, current);
    if at >= r.len() {
        r.insert(0, (current.to_owned(), current.to_owned(), text::empty()));
        assert(presets::stock_view(r@) =~= seq![(current@, current@, Seq::<char>::empty())] + rows);
    }
    r
}

fn list_id_options(v: &Vec<String>) -> (r: Vec<(String, String, String)>)
    ensures
        presets::stock_view(r@) == id_options(text::views(v@)),
{
    let ghost all = text::views(v@);
    let mut r: Vec<(String, String, String)> = Vec::new();
    let mut i: usize = 0;
    while i < v.len()
        invariant
            i <= v@.len(),
            all == text::views(v@),
            r@.len() == i,
            forall|k: int|
                0 <= k < i ==> ((#[trigger] r@[k]).0@, r@[k].1@, r@[k].2@) == plain(
                    all[k],
                    Seq::empty(),
                ),
        decreases v@.len() - i,
    {
        r.push((v[i].clone(), v[i].clone(), text::empty()));
        assert(r@[i as int].2@ =~= Seq::empty());
        i = i + 1;
    }
    assert(presets::stock_view(r@) =~= id_options(all));
    r
}

fn list_preset_options(v: &Vec<CatalogPreset>) -> (r: Vec<(String, String, String)>)
    ensures
        presets::stock_view(r@) == preset_options(events::presets_view(v@)),
{
    let ghost all = events::presets_view(v@);
    let mut r: Vec<(String, String, String)> = Vec::new();
    let mut i: usize = 0;
    while i < v.len()
        invariant
            i <= v@.len(),
            all == events::presets_view(v@),
            r@.len() == i,
            forall|k: int|
                0 <= k < i ==> ((#[trigger] r@[k]).0@, r@[k].1@, r@[k].2@) == (
                    all[k].id,
                    all[k].name,
                    all[k].description,
                ),
        decreases v@.len() - i,
    {
        assert(all[i as int] == v@[i as int]@);
        r.push((v[i].id.clone(), v[i].name.clone(), v[i].description.clone()));
        i = i + 1;
    }
    assert(presets::stock_view(r@) =~= preset_options(all));
    r
}

fn list_permission_options() -> (r: Vec<(String, String, String)>)
    ensures
        presets::stock_view(r@) == permission_options(),
{
    let v = presets::permission_presets();
    let ghost all = presets::permission_table();
    let mut r: Vec<(String, String, String)> = Vec::new();
    let mut i: usize = 0;
    while i < v.len()
        invariant
            i <= v@.len(),
            all == crate::bus::pairs_view(v@),
            r@.len() == i,
            forall|k: int|
                0 <= k < i ==> ((#[trigger] r@[k]).0@, r@[k].1@, r@[k].2@) == plain(
                    all[k].0,
                    all[k].1,
                ),
        decreases v@.len() - i,
    {
        assert(all[i as int] == (v@[i as int].0@, v@[i as int].1@));
        let o = make_plain(v[i].0.as_str(), v[i].1.as_str());
        r.push(o);
        i = i + 1;
    }
    assert(crate::bus::pairs_view(v@).len() == v@.len());
    assert(presets::stock_view(r@) =~= permission_options());
    r
}

fn list_theme_options(v: &Vec<PalettePack>, l: Locale) -> (r: Vec<(String, String, String)>)
    ensures
        presets::stock_view(r@) == theme_options(app::palettes_view(v@), l),
{
    let ghost all = app::palettes_view(v@);
    let mut r: Vec<(String, String, String)> = Vec::new();
    r.push(
        (
            "toggle".to_owned(),
            effect::tr(l, "Toggle dark / light", "切换 dark / light").to_owned(),
            effect::tr(l, "switch the current theme mode", "切换当前主题的明暗模式").to_owned(),
        ),
    );
    let ghost first = (r@[0].0@, r@[0].1@, r@[0].2@);
    let mut i: usize = 0;
    while i < v.len()
        invariant
            i <= v@.len(),
            all == app::palettes_view(v@),
            r@.len() == i + 1,
            (r@[0].0@, r@[0].1@, r@[0].2@) == first,
            forall|k: int|
                0 <= k < i ==> ((#[trigger] r@[k + 1]).0@, r@[k + 1].1@, r@[k + 1].2@)
                    == palette_option(all[k]),
        decreases v@.len() - i,
    {
        assert(all[i as int] == v@[i as int]@);
        let desc = if v[i].loaded {
            "theme plugin"
        } else {
            "theme plugin · stopped"
        };
        r.push((v[i].id.clone(), v[i].label.clone(), desc.to_owned()));
        i = i + 1;
    }
    proof {
        let s = theme_options(all, l);
        let t = presets::stock_view(r@);
        assert forall|k: int| 0 <= k < r@.len() implies t[k] == s[k] by {
            if k > 0 {
                let x = r@[(k - 1) + 1];
                assert((x.0@, x.1@, x.2@) == palette_option(all[k - 1]));
            }
        }
        assert(t =~= s);
    }
    r
}

fn list_ui_options(v: &Vec<UiPluginItem>) -> (r: Vec<(String, String, String)>)
    ensures
        presets::stock_view(r@) == ui_options(app::ui_view(v@)),
{
    let ghost all = app::ui_view(v@);
    let mut r: Vec<(String, String, String)> = Vec::new();
    let mut i: usize = 0;
    while i < v.len()
        invariant
            i <= v@.len(),
            all == app::ui_view(v@),
            r@.len() == i,
            forall|k: int|
                0 <= k < i ==> ((#[trigger] r@[k]).0@, r@[k].1@, r@[k].2@) == (
                    all[k].id,
                    all[k].label,
                    all[k].source + " · "@ + all[k].status,
                ),
        decreases v@.len() - i,
    {
        assert(all[i as int] == v@[i as int]@);
        let desc = text::concat3(v[i].source.as_str(), " · ", v[i].status.as_str());
        r.push((v[i].id.clone(), v[i].label.clone(), desc));
        i = i + 1;
    }
    assert(presets::stock_view(r@) =~= ui_options(all));
    r
}

fn text_or_empty(t: &Option<String>) -> (r: String)
    ensures
        r@ == text::text_or(text::opt_view(*t), Seq::empty()),
{
    match t {
        Some(t) => t.clone(),
        None => text::empty(),
    }
}

fn list_auth_options(v: &Vec<AuthMethod>) -> (r: Vec<(String, String, String)>)
    ensures
        presets::stock_view(r@) == auth_options(crate::auth::methods_view(v@)),
{
    let ghost all = crate::auth::methods_view(v@);
    let mut r: Vec<(String, String, String)> = Vec::new();
    let mut i: usize = 0;
    while i < v.len()
        invariant
            i <= v@.len(),
            all == crate::auth::methods_view(v@),
            r@.len() == i,
            forall|k: int|
                0 <= k < i ==> ((#[trigger] r@[k]).0@, r@[k].1@, r@[k].2@) == (
                    all[k].id,
                    text::text_or(all[k].name, all[k].id),
                    text::text_or(all[k].description, Seq::empty()),
                ),
        decreases v@.len() - i,
    {
        assert(all[i as int] == v@[i as int]@);
        let label = match &v[i].name {
            Some(n) => n.clone(),
            None => v[i].id.clone(),
        };
        let desc = text_or_empty(&v[i].description);
        r.push((v[i].id.clone(), label, desc));
        i = i + 1;
    }
    assert(presets::stock_view(r@) =~= auth_options(all));
    r
}

/// The heading under which an argument stands.
pub open spec fn option_section(l: Locale, name: Seq<char>, value: Seq<char>) -> Option<Seq<char>> {
    if name == "theme"@ && value == "toggle"@ {
        Some(effect::spoken(l, "Appearance"@, "明暗模式"@))
    } else if name == "theme"@ {
        Some("Theme Plugins"@)
    } else {
        None
    }
}

pub open spec fn completion(name: Seq<char>, value: Seq<char>) -> Seq<char> {
    "/"@ + name + " "@ + value
}

fn make_completion(name: &str, value: &str) -> (r: String)
    ensures
        r@ == completion(name@, value@),
{
    let mut t = text::concat3("/", name, " ");
    text::push_str(&mut t, value);
    t
}

pub open spec fn option_entry(l: Locale, name: Seq<char>) -> spec_fn(Stock) -> EntryV {
    |o: Stock|
        SlashEntry {
            disabled: false,
            name,
            usage: o.1,
            desc: o.2,
            skill: false,
            plugin: false,
            section: option_section(l, name, o.0),
            completion: Some(completion(name, o.0)),
        }
}

pub open spec fn option_begins(prefix: Seq<char>) -> spec_fn(Stock) -> bool {
    |o: Stock| text::has_prefix(o.0, prefix)
}

pub type ArgumentV = PluginCommandOption<Seq<char>>;

pub open spec fn argument_entry(name: Seq<char>) -> spec_fn(ArgumentV) -> EntryV {
    |o: ArgumentV|
        SlashEntry {
            disabled: o.disabled,
            name,
            usage: text::text_or(o.label, o.value),
            desc: text::text_or(o.description, Seq::empty()),
            skill: false,
            plugin: true,
            section: None,
            completion: Some(completion(name, o.value)),
        }
}

pub open spec fn argument_begins(prefix: Seq<char>) -> spec_fn(ArgumentV) -> bool {
    |o: ArgumentV| text::has_prefix(o.value, prefix)
}

/// The arguments of a plugin command that begin with a text.
pub open spec fn plugin_arguments(c: PluginCommandV, name: Seq<char>, prefix: Seq<char>) -> Seq<EntryV> {
    match c.input {
        Some(i) => i.options.filter(argument_begins(prefix)).map_values(argument_entry(name)),
        None => Seq::empty(),
    }
}

fn list_plugin_arguments(v: &Vec<PluginCommandOption>, name: &str, prefix: &str) -> (r: Vec<SlashEntry>)
    ensures
        entries_view(r@) == app::arguments_view(v@).filter(argument_begins(prefix@)).map_values(
            argument_entry(name@),
        ),
{
    let ghost all = app::arguments_view(v@);
    let ghost p = argument_begins(prefix@);
    let ghost f = argument_entry(name@);
    let mut r: Vec<SlashEntry> = Vec::new();
    let mut i: usize = 0;
    proof {
        seqs::lemma_filter_empty(all.take(0), p);
        assert(entries_view(r@) =~= all.take(0).filter(p).map_values(f));
    }
    while i < v.len()
        invariant
            i <= v@.len(),
            all == app::arguments_view(v@),
            p == argument_begins(prefix@),
            f == argument_entry(name@),
            entries_view(r@) == all.take(i as int).filter(p).map_values(f),
        decreases v@.len() - i,
    {
        let o = &v[i];
        let ghost had = entries_view(r@);
        let ghost before = all.take(i as int).filter(p);
        proof {
            seqs::lemma_filter_push(all, p, i as int);
            assert(all[i as int] == o@);
        }
        if text::starts_with(o.value.as_str(), prefix) {
            let usage = match &o.label {
                Some(l) => l.clone(),
                None => o.value.clone(),
            };
            let e = SlashEntry {
                disabled: o.disabled,
                name: name.to_owned(),
                usage,
                desc: text_or_empty(&o.description),
                skill: false,
                plugin: true,
                section: None,
                completion: Some(make_completion(name, o.value.as_str())),
            };
            r.push(e);
            assert(entries_view(r@) =~= had.push(f(o@)));
            assert(before.push(o@).map_values(f) =~= before.map_values(f).push(f(o@)));
        }
        i = i + 1;
    }
    assert(all.take(i as int) =~= all);
    r
}

fn section_of(l: Locale, name: &str, value: &str) -> (r: Option<String>)
    ensures
        text::opt_view(r) == option_section(l, name@, value@),
{
    if text::same(name, "theme") {
        if text::same(value, "toggle") {
            Some(effect::tr(l, "Appearance", "明暗模式").to_owned())
        } else {
            Some("Theme Plugins".to_owned())
        }
    } else {
        None
    }
}

fn list_options(v: &Vec<(String, String, String)>, l: Locale, name: &str, prefix: &str) -> (r: Vec<
    SlashEntry,
>)
    ensures
        entries_view(r@) == presets::stock_view(v@).filter(option_begins(prefix@)).map_values(
            option_entry(l, name@),
        ),
{
    let ghost all = presets::stock_view(v@);
    let ghost p = option_begins(prefix@);
    let ghost f = option_entry(l, name@);
    let mut r: Vec<SlashEntry> = Vec::new();
    let mut i: usize = 0;
    proof {
        seqs::lemma_filter_empty(all.take(0), p);
        assert(entries_view(r@) =~= all.take(0).filter(p).map_values(f));
    }
    while i < v.len()
        invariant
            i <= v@.len(),
            all == presets::stock_view(v@),
            p == option_begins(prefix@),
            f == option_entry(l, name@),
            entries_view(r@) == all.take(i as int).filter(p).map_values(f),
        decreases v@.len() - i,
    {
        let o = &v[i];
        let ghost had = entries_view(r@);
        let ghost before = all.take(i as int).filter(p);
        let ghost ov = all[i as int];
        proof {
            seqs::lemma_filter_push(all, p, i as int);
        }
        if text::starts_with(o.0.as_str(), prefix) {
            let e = SlashEntry {
                disabled: false,
                name: name.to_owned(),
                usage: o.1.clone(),
                desc: o.2.clone(),
                skill: false,
                plugin: false,
                section: section_of(l, name, o.0.as_str()),
                completion: Some(make_completion(name, o.0.as_str())),
            };
            r.push(e);
            assert(entries_view(r@) =~= had.push(f(ov)));
            assert(before.push(ov).map_values(f) =~= before.map_values(f).push(f(ov)));
        }
        i = i + 1;
    }
    assert(all.take(i as int) =~= all);
    r
}

pub open spec fn is_white() -> spec_fn(char) -> bool {
    |c: char| text::white_space(c)
}

fn has_white(s: &str) -> (r: bool)
    ensures
        r == seqs::some(s@, is_white()),
{
    let v = text::chars_of(s);
    let mut i: usize = 0;
    while i < v.len() && !text::is_white_space(v[i])
        invariant
            i <= v@.len(),
            v@ == s@,
            forall|k: int| 0 <= k < i ==> !is_white()(#[trigger] s@[k]),
        decreases v@.len() - i,
    {
        i = i + 1;
    }
    proof {
        seqs::lemma_first_index_is(s@, is_white(), i as int);
    }
    i < v.len()
}

pub open spec fn first_line(buf: Seq<char>) -> Seq<char> {
    match text::split_at_char(buf, '\n') {
        Some((line, _)) => line,
        None => buf,
    }
}

fn take_first_line(buf: String) -> (r: String)
    ensures
        r@ == first_line(buf@),
{
    match text::split_once(buf.as_str(), '\n') {
        Some((line, _rest)) => line,
        None => buf,
    }
}

/// The argument that an entry completes to.
pub open spec fn completed_value(e: EntryV) -> Option<Seq<char>> {
    match e.completion {
        Some(c) => text::behind_prefix(c, "/"@ + e.name + " "@),
        None => None,
    }
}

pub open spec fn completes_to(value: Seq<char>) -> spec_fn(EntryV) -> bool {
    |e: EntryV| completed_value(e) == Some(value)
}

fn find_completion(v: &Vec<SlashEntry>, value: &str) -> (r: usize)
    ensures
        r == seqs::first_index(entries_view(v@), completes_to(value@)),
        r <= v@.len(),
{
    let ghost all = entries_view(v@);
    let mut i: usize = 0;
    while i < v.len() && !is_completed_by(&v[i], value)
        invariant
            i <= v@.len(),
            all == entries_view(v@),
            forall|k: int| 0 <= k < i ==> !completes_to(value@)(#[trigger] all[k]),
        decreases v@.len() - i,
    {
        assert(all[i as int] == v@[i as int]@);
        i = i + 1;
    }
    proof {
        seqs::lemma_first_index_is(all, completes_to(value@), i as int);
    }
    i
}

fn value_of_entry(e: &SlashEntry) -> (r: Option<String>)
    ensures
        text::opt_view(r) == completed_value(e@),
{
    match &e.completion {
        Some(c) => {
            let head = text::concat3("/", e.name.as_str(), " ");
            text::strip_prefix(c.as_str(), head.as_str())
        },
        None => None,
    }
}

fn is_completed_by(e: &SlashEntry, value: &str) -> (r: bool)
    ensures
        r == completes_to(value@)(e@),
{
    match value_of_entry(e) {
        Some(v) => text::same(v.as_str(), value),
        None => false,
    }
}

pub open spec fn of_plugin() -> spec_fn(EntryV) -> bool {
    |e: EntryV| e.plugin
}

fn any_plugin(v: &Vec<SlashEntry>) -> (r: bool)
    ensures
        r == seqs::some(entries_view(v@), of_plugin()),
{
    let ghost all = entries_view(v@);
    let mut i: usize = 0;
    while i < v.len() && !v[i].plugin
        invariant
            i <= v@.len(),
            all == entries_view(v@),
            forall|k: int| 0 <= k < i ==> !of_plugin()(#[trigger] all[k]),
        decreases v@.len() - i,
    {
        assert(all[i as int] == v@[i as int]@);
        i = i + 1;
    }
    proof {
        seqs::lemma_first_index_is(all, of_plugin(), i as int);
    }
    i < v.len()
}

impl AppV {
    pub open spec fn knows_command(self, name: Seq<char>) -> bool {
        seqs::some(self.plugins.commands, plugin_command(name))
    }

    /// The arguments that a command of the client takes.
    #[verifier::opaque]
    pub open spec fn options_of(self, name: Seq<char>) -> Seq<Stock> {
        if name == "model"@ {
            if self.live.catalog.models.len() > 0 {
                model_options(self.live.catalog.models, self.model_now())
            } else {
                id_options(self.known_models())
            }
        } else if name == "agent"@ {
            if self.live.catalog.presets.len() > 0 {
                preset_options(self.live.catalog.presets)
            } else {
                presets::agent_mode_table()
            }
        } else if name == "effort"@ {
            if self.live.catalog.efforts.len() > 0 {
                id_options(self.live.catalog.efforts)
            } else {
                effort_options()
            }
        } else if name == "permission"@ {
            if self.live.catalog.permissions.len() > 0 {
                preset_options(self.live.catalog.permissions)
            } else {
                permission_options()
            }
        } else if name == "theme"@ {
            theme_options(self.theme.palettes, self.base.locale)
        } else if name == "ui"@ {
            ui_options(self.plugins.ui)
        } else if name == "auth"@ {
            auth_options(self.conn.auth.methods)
        } else {
            fixed_options(name)
        }
    }

    pub open spec fn argument_entries(self, name: Seq<char>, arg: Seq<char>) -> Seq<EntryV> {
        let prefix = text::trimmed_start(arg);
        if seqs::some(prefix, is_white()) {
            Seq::empty()
        } else if !presets::is_builtin(name) && self.knows_command(name) {
            plugin_arguments(
                self.plugins.commands[seqs::first_index(
                    self.plugins.commands,
                    plugin_command(name),
                )],
                name,
                prefix,
            )
        } else {
            self.options_of(name).filter(option_begins(prefix)).map_values(
                option_entry(self.base.locale, name),
            )
        }
    }

    pub open spec fn command_entries(self, prefix: Seq<char>) -> Seq<EntryV> {
        exact_first(
            builtin_entries(self.cfg.descriptions, self.base.locale, prefix) + by_name(
                plugin_entries(
                    self.plugins.commands,
                    self.cfg.descriptions,
                    self.base.locale,
                    prefix,
                ),
            ) + by_name(
                skill_entries(self.live.catalog.skills, self.plugins.commands, prefix),
            ),
            prefix,
        )
    }

    /// What the menu offers for the draft.
    #[verifier::opaque]
    pub open spec fn slash_menu(self) -> Seq<EntryV> {
        let first = first_line(self.live.draft.input.buf);
        if first.len() == 0 || first[0] != '/' {
            Seq::empty()
        } else {
            match text::split_at_char(first.skip(1), ' ') {
                Some((name, arg)) => self.argument_entries(name, arg),
                None => self.command_entries(first.skip(1)),
            }
        }
    }

    pub open spec fn slash_open(self) -> bool {
        !self.menu.slash_dismissed && self.slash_menu().len() > 0
    }

    /// The value in effect for a list of arguments.
    pub open spec fn value_in_effect(self, menu: Seq<EntryV>) -> Option<Seq<char>> {
        if menu.len() == 0 || menu[0].completion is None || seqs::some(menu, of_plugin()) {
            None
        } else if menu[0].name == "model"@ {
            Some(self.model_now())
        } else if menu[0].name == "effort"@ {
            self.live.modes.effort
        } else if menu[0].name == "agent"@ {
            Some(self.mode_now())
        } else if menu[0].name == "theme"@ {
            Some(self.theme.active)
        } else if menu[0].name == "permission"@ {
            Some(self.permission_now())
        } else {
            None
        }
    }

    /// The line of the menu with the value in effect; the first where there is
    /// none.
    pub open spec fn line_in_effect(self) -> usize {
        match self.value_in_effect(self.slash_menu()) {
            Some(value) => match seqs::position(self.slash_menu(), completes_to(value)) {
                Some(i) => i,
                None => 0,
            },
            None => 0,
        }
    }

    pub open spec fn with_slash_sel(self, sel: usize) -> AppV {
        AppV { menu: app::MenuV { slash_sel: sel, ..self.menu }, ..self }
    }

    #[verifier::opaque]
    pub open spec fn snapped(self) -> AppV {
        self.with_slash_sel(self.line_in_effect())
    }

    /// The highlighted line of the menu.
    pub open spec fn slash_line(self) -> int {
        if self.menu.slash_sel < self.slash_menu().len() {
            self.menu.slash_sel as int
        } else {
            self.slash_menu().len() - 1
        }
    }

    /// The palette under the highlight of the menu.
    #[verifier::opaque]
    pub open spec fn slash_palette(self) -> Option<Seq<char>> {
        if !self.slash_open() {
            None
        } else {
            let e = self.slash_menu()[self.slash_line()];
            if e.plugin || e.skill || e.name != "theme"@ {
                None
            } else {
                match e.completion {
                    Some(c) => text::behind_prefix(c, "/theme "@),
                    None => None,
                }
            }
        }
    }

    #[verifier::opaque]
    pub open spec fn try_slash_theme(self) -> AppV {
        match self.slash_palette() {
            Some(id) => self.try_palette(id),
            None => self,
        }
    }

    /// A palette that is tried out goes when its row is no longer highlighted
    /// and it was not chosen.
    #[verifier::opaque]
    pub open spec fn preview_checked(self) -> AppV {
        match self.theme.preview {
            None => self,
            Some(id) => if self.picker_theme() == Some(id) || self.slash_palette() == Some(id)
                || self.theme.pending == Some(id) {
                self
            } else {
                self.without_preview()
            },
        }
    }
}

impl App {
    pub(crate) fn plugin_command_active(&self, name: &str) -> (r: bool)
        ensures
            r == self@.knows_command(name@),
    {
        let at = find_command(&self.plugins.commands, name);
        assert(self@.plugins.commands.len() == self.plugins.commands@.len());
        at < self.plugins.commands.len()
    }

    fn list_model_choices(&self) -> (r: Vec<(String, String, String)>)
        ensures
            presets::stock_view(r@) == (if self@.live.catalog.models.len() > 0 {
                model_options(self@.live.catalog.models, self@.model_now())
            } else {
                id_options(self@.known_models())
            }),
    {
        proof {
            reveal(session::slot_view);
        }
        let current = self.current_model();
        if self.live.catalog.models.len() > 0 {
            list_model_options(&self.live.catalog.models, current.as_str())
        } else {
            let ids = self.model_ids();
            list_id_options(&ids)
        }
    }

    fn list_agent_choices(&self) -> (r: Vec<(String, String, String)>)
        ensures
            presets::stock_view(r@) == (if self@.live.catalog.presets.len() > 0 {
                preset_options(self@.live.catalog.presets)
            } else {
                presets::agent_mode_table()
            }),
    {
        proof {
            reveal(session::slot_view);
        }
        if self.live.catalog.presets.len() > 0 {
            list_preset_options(&self.live.catalog.presets)
        } else {
            presets::agent_modes()
        }
    }

    fn list_effort_choices(&self) -> (r: Vec<(String, String, String)>)
        ensures
            presets::stock_view(r@) == (if self@.live.catalog.efforts.len() > 0 {
                id_options(self@.live.catalog.efforts)
            } else {
                effort_options()
            }),
    {
        proof {
            reveal(session::slot_view);
        }
        if self.live.catalog.efforts.len() > 0 {
            list_id_options(&self.live.catalog.efforts)
        } else {
            let mut r: Vec<(String, String, String)> = Vec::new();
            add_option(&mut r, "off", "disable extended reasoning");
            add_option(&mut r, "high", "high reasoning effort");
            add_option(&mut r, "max", "maximum reasoning effort");
            assert(presets::stock_view(r@) =~= effort_options());
            r
        }
    }

    fn list_permission_choices(&self) -> (r: Vec<(String, String, String)>)
        ensures
            presets::stock_view(r@) == (if self@.live.catalog.permissions.len() > 0 {
                preset_options(self@.live.catalog.permissions)
            } else {
                permission_options()
            }),
    {
        proof {
            reveal(session::slot_view);
        }
        if self.live.catalog.permissions.len() > 0 {
            list_preset_options(&self.live.catalog.permissions)
        } else {
            list_permission_options()
        }
    }

    /// The arguments that a command of the client takes: value, label and what
    /// they mean.
    pub fn builtin_argument_options(&self, name: &str) -> (r: Vec<(String, String, String)>)
        ensures
            presets::stock_view(r@) == self@.options_of(name@),
    {
        proof {
            reveal(AppV::options_of);
        }
        if text::same(name, "model") {
            return self.list_model_choices();
        }
        if text::same(name, "agent") {
            return self.list_agent_choices();
        }
        if text::same(name, "effort") {
            return self.list_effort_choices();
        }
        if text::same(name, "permission") {
            return self.list_permission_choices();
        }
        if text::same(name, "theme") {
            return list_theme_options(&self.theme.palettes, self.base.locale);
        }
        if text::same(name, "ui") {
            return list_ui_options(&self.plugins.ui);
        }
        if text::same(name, "auth") {
            return list_auth_options(&self.conn.auth.methods);
        }
        list_fixed(name)
    }

    fn list_arguments(&self, name: &str, arg: &str) -> (r: Vec<SlashEntry>)
        ensures
            entries_view(r@) == self@.argument_entries(name@, arg@),
    {
        let prefix = text::trim_start(arg);
        if has_white(prefix.as_str()) {
            let r: Vec<SlashEntry> = Vec::new();
            assert(entries_view(r@) =~= Seq::empty());
            return r;
        }
        let at = find_command(&self.plugins.commands, name);
        assert(self@.plugins.commands.len() == self.plugins.commands@.len());
        if !presets::is_builtin_name(name) && at < self.plugins.commands.len() {
            assert(self@.plugins.commands[at as int] == self.plugins.commands@[at as int]@);
            match &self.plugins.commands[at].input {
                Some(i) => list_plugin_arguments(&i.options, name, prefix.as_str()),
                None => {
                    let r: Vec<SlashEntry> = Vec::new();
                    assert(entries_view(r@) =~= Seq::empty());
                    r
                },
            }
        } else {
            let options = self.builtin_argument_options(name);
            list_options(&options, self.base.locale, name, prefix.as_str())
        }
    }

    fn list_skill_entries(&self, prefix: &str) -> (r: Vec<SlashEntry>)
        ensures
            entries_view(r@) == skill_entries(
                self@.live.catalog.skills,
                self@.plugins.commands,
                prefix@,
            ),
    {
        proof {
            reveal(session::slot_view);
        }
        list_skills(&self.live.catalog.skills, &self.plugins.commands, prefix)
    }

    fn list_commands(&self, prefix: &str) -> (r: Vec<SlashEntry>)
        ensures
            entries_view(r@) == self@.command_entries(prefix@),
    {
        let l = self.base.locale;
        let mut all = list_builtins(&self.cfg.descriptions, l, prefix);
        let mut plugins = sort_by_name(
            list_plugins(&self.plugins.commands, &self.cfg.descriptions, l, prefix),
        );
        let mut skills = sort_by_name(self.list_skill_entries(prefix));
        let ghost a = entries_view(all@);
        let ghost b = entries_view(plugins@);
        let ghost c = entries_view(skills@);
        all.append(&mut plugins);
        all.append(&mut skills);
        assert(entries_view(all@) =~= a + b + c);
        put_exact_first(&all, prefix)
    }

    /// What the menu offers for the draft.
    pub fn slash_matches(&self) -> (r: Vec<SlashEntry>)
        ensures
            entries_view(r@) == self@.slash_menu(),
    {
        proof {
            reveal(AppV::slash_menu);
        }
        let first = take_first_line(self.draft_text());
        let v = text::chars_of(first.as_str());
        if v.len() == 0 || v[0] != '/' {
            let r: Vec<SlashEntry> = Vec::new();
            assert(entries_view(r@) =~= Seq::empty());
            return r;
        }
        let rest = text::string_of_range(&v, 1, v.len());
        assert(rest@ =~= first@.skip(1));
        match text::split_once(rest.as_str(), ' ') {
            Some((name, arg)) => self.list_arguments(name.as_str(), arg.as_str()),
            None => self.list_commands(rest.as_str()),
        }
    }

    /// Whether the menu is open.
    pub fn slash_completion_open(&self) -> (r: bool)
        ensures
            r == self@.slash_open(),
    {
        let v = self.slash_matches();
        assert(entries_view(v@).len() == v@.len());
        !self.menu.slash_dismissed && v.len() > 0
    }

    fn effort_now(&self) -> (r: Option<String>)
        ensures
            text::opt_view(r) == self@.live.modes.effort,
    {
        proof {
            reveal(session::slot_view);
        }
        text::copy_opt(&self.live.modes.effort)
    }

    /// The value in effect for a list of arguments.
    pub fn builtin_option_current(&self, matches: &Vec<SlashEntry>) -> (r: Option<String>)
        ensures
            text::opt_view(r) == self@.value_in_effect(entries_view(matches@)),
    {
        assert(entries_view(matches@).len() == matches@.len());
        if matches.len() == 0 {
            return None;
        }
        assert(entries_view(matches@)[0] == matches@[0]@);
        if matches[0].completion.is_none() || any_plugin(matches) {
            return None;
        }
        let name = matches[0].name.as_str();
        if text::same(name, "model") {
            Some(self.current_model())
        } else if text::same(name, "effort") {
            self.effort_now()
        } else if text::same(name, "agent") {
            Some(self.current_mode())
        } else if text::same(name, "theme") {
            Some(self.theme.active.clone())
        } else if text::same(name, "permission") {
            Some(self.current_permission())
        } else {
            None
        }
    }

    pub(crate) fn set_slash_sel(&mut self, sel: usize)
        ensures
            final(self)@ == old(self)@.with_slash_sel(sel),
    {
        self.menu.slash_sel = sel;
    }

    /// Highlights the value in effect.
    pub(crate) fn snap_slash_sel(&mut self)
        ensures
            final(self)@ == old(self)@.snapped(),
    {
        proof {
            reveal(AppV::snapped);
        }
        let matches = self.slash_matches();
        assert(entries_view(matches@).len() == matches@.len());
        let sel: usize = match self.builtin_option_current(&matches) {
            Some(value) => {
                let at = find_completion(&matches, value.as_str());
                if at < matches.len() {
                    at
                } else {
                    0
                }
            },
            None => 0,
        };
        self.menu.slash_sel = sel;
    }

    /// The highlighted line of the menu.
    pub(crate) fn highlighted_slash(&self) -> (r: Option<SlashEntry>)
        ensures
            self@.slash_menu().len() == 0 ==> r is None,
            self@.slash_menu().len() > 0 ==> r is Some && r->0@
                == self@.slash_menu()[self@.slash_line()],
    {
        let matches = self.slash_matches();
        assert(entries_view(matches@).len() == matches@.len());
        if matches.len() == 0 {
            return None;
        }
        let at: usize = if self.menu.slash_sel < matches.len() {
            self.menu.slash_sel
        } else {
            matches.len() - 1
        };
        assert(entries_view(matches@)[at as int] == matches@[at as int]@);
        Some(matches[at].clone())
    }

    fn slash_theme_candidate(&self) -> (r: Option<String>)
        ensures
            text::opt_view(r) == self@.slash_palette(),
    {
        proof {
            reveal(AppV::slash_palette);
        }
        if self.menu.slash_dismissed {
            return None;
        }
        match self.highlighted_slash() {
            Some(e) => if e.plugin || e.skill || !text::same(e.name.as_str(), "theme") {
                None
            } else {
                match &e.completion {
                    Some(c) => text::strip_prefix(c.as_str(), "/theme "),
                    None => None,
                }
            },
            None => None,
        }
    }

    pub(crate) fn preview_slash_theme(&mut self)
        ensures
            final(self)@ == old(self)@.try_slash_theme(),
    {
        proof {
            reveal(AppV::try_slash_theme);
        }
        if let Some(id) = self.slash_theme_candidate() {
            self.preview_palette(id.as_str());
        }
    }

    /// Gives up a palette that is tried out and no longer highlighted.
    pub(crate) fn reconcile_theme_preview(&mut self)
        ensures
            final(self)@ == old(self)@.preview_checked(),
    {
        proof {
            reveal(AppV::preview_checked);
        }
        let preview = match &self.theme.preview {
            Some(id) => id.clone(),
            None => return ,
        };
        let in_list = match self.highlighted_theme() {
            Some(id) => text::same(id.as_str(), preview.as_str()),
            None => false,
        };
        let in_menu = match self.slash_theme_candidate() {
            Some(id) => text::same(id.as_str(), preview.as_str()),
            None => false,
        };
        let loading = match &self.theme.pending {
            Some(id) => text::same(id.as_str(), preview.as_str()),
            None => false,
        };
        if !in_list && !in_menu && !loading {
            self.clear_theme_preview();
        }
    }
}

/// The arguments that never change.
pub open spec fn fixed_options(name: Seq<char>) -> Seq<Stock> {
    if name == "plan"@ {
        seq![plain("on"@, "enable plan mode"@), plain("off"@, "disable plan mode"@)]
    } else if name == "lang"@ {
        seq![plain("zh"@, "中文"@), plain("en"@, "English"@)]
    } else if name == "liang"@ {
        seq![plain("on"@, "show pet"@), plain("off"@, "hide pet"@)]
    } else if name == "session"@ {
        seq![
            plain("view"@, "show session + runtime info"@),
            plain("prev"@, "switch to the previous session tab"@),
            plain("next"@, "switch to the next session tab"@),
        ]
    } else {
        Seq::empty()
    }
}

fn list_fixed(name: &str) -> (r: Vec<(String, String, String)>)
    ensures
        presets::stock_view(r@) == fixed_options(name@),
{
    let mut r: Vec<(String, String, String)> = Vec::new();
    assert(presets::stock_view(r@) =~= Seq::empty());
    if text::same(name, "plan") {
        add_option(&mut r, "on", "enable plan mode");
        add_option(&mut r, "off", "disable plan mode");
    } else if text::same(name, "lang") {
        add_option(&mut r, "zh", "中文");
        add_option(&mut r, "en", "English");
    } else if text::same(name, "liang") {
        add_option(&mut r, "on", "show pet");
        add_option(&mut r, "off", "hide pet");
    } else if text::same(name, "session") {
        add_option(&mut r, "view", "show session + runtime info");
        add_option(&mut r, "prev", "switch to the previous session tab");
        add_option(&mut r, "next", "switch to the next session tab");
    }
    assert(presets::stock_view(r@) =~= fixed_options(name@));
    r
}

} // verus!
