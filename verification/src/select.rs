//! The single choice that a plugin offers.

use crate::text;
use vstd::prelude::*;

verus! {

#[derive(Debug, PartialEq, Eq)]
pub struct SelectOption<S = String> {
    pub disabled: bool,
    pub deletable: bool,
    pub value: S,
    pub label: S,
    pub description: Option<S>,
    /// A heading shown above the option; it is no option itself.
    pub group: Option<S>,
}

impl View for SelectOption {
    type V = SelectOption<Seq<char>>;

    open spec fn view(&self) -> Self::V {
        SelectOption {
            disabled: self.disabled,
            deletable: self.deletable,
            value: self.value@,
            label: self.label@,
            description: text::opt_view(self.description),
            group: text::opt_view(self.group),
        }
    }
}

pub open spec fn options_view(v: Seq<SelectOption>) -> Seq<SelectOption<Seq<char>>> {
    v.map_values(|o: SelectOption| o@)
}

#[derive(Debug, PartialEq, Eq)]
pub struct SelectOverlay<S = String, L = Vec<SelectOption>> {
    pub id: S,
    pub title: S,
    pub value: S,
    pub options: L,
    pub searchable: bool,
    pub query: S,
    pub sel: usize,
}

pub type SelectV = SelectOverlay<Seq<char>, Seq<SelectOption<Seq<char>>>>;

impl View for SelectOverlay {
    type V = SelectV;

    open spec fn view(&self) -> SelectV {
        SelectOverlay {
            id: self.id@,
            title: self.title@,
            value: self.value@,
            options: options_view(self.options@),
            searchable: self.searchable,
            query: self.query@,
            sel: self.sel,
        }
    }
}

/// Whether every one of the terms occurs in a text.
pub open spec fn has_terms(t: Seq<char>, terms: Seq<Seq<char>>) -> bool {
    forall|i: int| 0 <= i < terms.len() ==> text::contains_text(t, #[trigger] terms[i])
}

pub fn contains_terms(t: &str, terms: &Vec<String>) -> (r: bool)
    ensures
        r == has_terms(t@, text::views(terms@)),
{
    let ghost views = text::views(terms@);
    let mut i: usize = 0;
    while i < terms.len()
        invariant
            i <= terms@.len(),
            views == text::views(terms@),
            forall|k: int| 0 <= k < i ==> text::contains_text(t@, #[trigger] views[k]),
        decreases terms@.len() - i,
    {
        assert(views[i as int] == terms@[i as int]@);
        if !text::contains(t, terms[i].as_str()) {
            assert(!text::contains_text(t@, views[i as int]));
            return false;
        }
        i = i + 1;
    }
    true
}

/// What a search looks at: value, label and description.
pub open spec fn searched_text(o: SelectOption<Seq<char>>) -> Seq<char> {
    o.value + " "@ + o.label + " "@ + (match o.description {
        Some(d) => d,
        None => Seq::empty(),
    })
}

/// Whether an option is shown under a query; case does not matter.
pub open spec fn shown(o: SelectOption<Seq<char>>, searchable: bool, query: Seq<char>) -> bool {
    !searchable || has_terms(
        text::lowercase(searched_text(o)),
        text::words(text::lowercase(query)),
    )
}

pub open spec fn visible_before(s: SelectV, n: int) -> Seq<usize>
    decreases n,
{
    if n <= 0 {
        Seq::empty()
    } else if shown(s.options[n - 1], s.searchable, s.query) {
        visible_before(s, n - 1).push((n - 1) as usize)
    } else {
        visible_before(s, n - 1)
    }
}

/// The numbers of the options that are shown, in their order.
pub open spec fn visible(s: SelectV) -> Seq<usize> {
    visible_before(s, s.options.len() as int)
}

/// The selection moved onto something shown, and the value with it.
pub open spec fn reconciled(s: SelectV) -> SelectV {
    let sel = if visible(s).len() > 0 && !visible(s).contains(s.sel) {
        visible(s)[0]
    } else {
        s.sel
    };
    SelectOverlay {
        sel,
        value: if sel < s.options.len() {
            s.options[sel as int].value
        } else {
            s.value
        },
        ..s
    }
}

/// Every row that is shown is one of the options.
pub proof fn lemma_visible(s: SelectV, n: int, i: int)
    requires
        0 <= n <= s.options.len(),
        0 <= i < visible_before(s, n).len(),
    ensures
        visible_before(s, n)[i] < s.options.len(),
    decreases n,
{
    if n > 0 && i < visible_before(s, n - 1).len() {
        lemma_visible(s, n - 1, i);
    }
}

proof fn lemma_same_visible(s: SelectV, t: SelectV, n: int)
    requires
        0 <= n <= s.options.len(),
        s.options == t.options,
        s.searchable == t.searchable,
        s.query == t.query,
    ensures
        visible_before(s, n) == visible_before(t, n),
    decreases n,
{
    if n > 0 {
        lemma_same_visible(s, t, n - 1);
    }
}

/// After a search the selection is on a row that is shown, where any is, and
/// the same rows are shown.
pub proof fn law_search_selects_what_is_shown(s: SelectV)
    ensures
        visible(reconciled(s)) == visible(s),
        visible(s).len() > 0 ==> visible(reconciled(s)).contains(reconciled(s).sel),
{
    lemma_same_visible(s, reconciled(s), s.options.len() as int);
    if visible(s).len() > 0 {
        assert(visible(s).contains(visible(s)[0]));
    }
}

/// A text that has all of some terms has all of any of them: more terms show
/// fewer rows.
pub proof fn law_more_terms_show_fewer(t: Seq<char>, fewer: Seq<Seq<char>>, more: Seq<Seq<char>>)
    requires
        forall|i: int| 0 <= i < fewer.len() ==> more.contains(#[trigger] fewer[i]),
        has_terms(t, more),
    ensures
        has_terms(t, fewer),
{
    assert forall|i: int| 0 <= i < fewer.len() implies text::contains_text(
        t,
        #[trigger] fewer[i],
    ) by {
        let k = choose|k: int| 0 <= k < more.len() && more[k] == fewer[i];
        assert(text::contains_text(t, more[k]));
    }
}

proof fn lemma_narrower(a: SelectV, b: SelectV, n: int, row: usize)
    requires
        0 <= n <= a.options.len(),
        a.options == b.options,
        forall|i: int|
            0 <= i < b.options.len() && shown(#[trigger] b.options[i], b.searchable, b.query)
                ==> shown(a.options[i], a.searchable, a.query),
        visible_before(b, n).contains(row),
    ensures
        visible_before(a, n).contains(row),
    decreases n,
{
    if n > 0 {
        let before = visible_before(a, n - 1);
        let last = (n - 1) as usize;
        let at = choose|k: int| 0 <= k < visible_before(b, n).len() && visible_before(b, n)[k] == row;
        if at < visible_before(b, n - 1).len() {
            assert(visible_before(b, n - 1)[at] == row);
            lemma_narrower(a, b, n - 1, row);
            let k = choose|k: int| 0 <= k < before.len() && before[k] == row;
            assert(before.push(last)[k] == row);
        } else {
            assert(row == last);
            assert(shown(b.options[n - 1], b.searchable, b.query));
            assert(before.push(last)[before.len() as int] == row);
        }
    }
}

/// Another term behind a query can only narrow what is shown. `rest` is what
/// the lower case of the longer query has behind that of the shorter one.
pub proof fn law_longer_query_shows_fewer(a: SelectV, b: SelectV, rest: Seq<char>, row: usize)
    requires
        a.options == b.options,
        a.searchable == b.searchable,
        text::lowercase(b.query) == text::lowercase(a.query) + " "@ + rest,
        visible(b).contains(row),
    ensures
        visible(a).contains(row),
{
    let fewer = text::words(text::lowercase(a.query));
    let more = text::words(text::lowercase(b.query));
    text::lemma_words_of_parts(text::lowercase(a.query), rest);
    assert forall|i: int| 0 <= i < fewer.len() implies more.contains(#[trigger] fewer[i]) by {
        assert(more[i] == fewer[i]);
    }
    assert forall|i: int|
        0 <= i < b.options.len() && shown(
            #[trigger] b.options[i],
            b.searchable,
            b.query,
        ) implies shown(a.options[i], a.searchable, a.query) by {
        if b.searchable {
            law_more_terms_show_fewer(
                text::lowercase(searched_text(b.options[i])),
                fewer,
                more,
            );
        }
    }
    lemma_narrower(a, b, a.options.len() as int, row);
}

/// The value of the selected option.
pub open spec fn selected_value(s: SelectV) -> Seq<char> {
    if s.sel < s.options.len() {
        s.options[s.sel as int].value
    } else {
        Seq::empty()
    }
}

impl SelectOverlay {
    pub fn current_value(&self) -> (r: String)
        ensures
            r@ == selected_value(self@),
    {
        if self.sel < self.options.len() {
            assert(self@.options[self.sel as int] == self.options@[self.sel as int]@);
            self.options[self.sel].value.clone()
        } else {
            text::empty()
        }
    }

    pub fn visible_indices(&self) -> (r: Vec<usize>)
        ensures
            r@ == visible(self@),
    {
        let query = text::to_lowercase(self.query.as_str());
        let terms = text::split_whitespace(query.as_str());
        let mut r: Vec<usize> = Vec::new();
        let mut i: usize = 0;
        while i < self.options.len()
            invariant
                i <= self.options@.len(),
                text::views(terms@) == text::words(text::lowercase(self.query@)),
                r@ == visible_before(self@, i as int),
            decreases self.options@.len() - i,
        {
            let o = &self.options[i];
            assert(self@.options[i as int] == o@);
            let mut t = text::concat3(o.value.as_str(), " ", o.label.as_str());
            text::push_str(&mut t, " ");
            if let Some(d) = &o.description {
                text::push_str(&mut t, d.as_str());
            }
            assert(t@ =~= searched_text(o@));
            let lower = text::to_lowercase(t.as_str());
            if !self.searchable || contains_terms(lower.as_str(), &terms) {
                r.push(i);
            }
            i = i + 1;
        }
        r
    }

    /// Keeps the selection on something shown.
    pub fn reconcile_search(&mut self)
        ensures
            final(self)@ == reconciled(old(self)@),
    {
        let rows = self.visible_indices();
        let ghost before = self@;
        let mut held = false;
        let mut i: usize = 0;
        while i < rows.len()
            invariant
                i <= rows@.len(),
                *self == *old(self),
                held == rows@.take(i as int).contains(self.sel),
            decreases rows@.len() - i,
        {
            let ghost t = rows@.take(i as int);
            let ghost u = rows@.take(i as int + 1);
            assert(u =~= t.push(rows@[i as int]));
            if rows[i] == self.sel {
                held = true;
                assert(u[i as int] == self.sel);
            } else {
                assert(u.contains(self.sel) == t.contains(self.sel)) by {
                    if u.contains(self.sel) {
                        let k = choose|k: int| 0 <= k < u.len() && u[k] == self.sel;
                        assert(t[k] == self.sel);
                    }
                    if t.contains(self.sel) {
                        let k = choose|k: int| 0 <= k < t.len() && t[k] == self.sel;
                        assert(u[k] == self.sel);
                    }
                }
            }
            i = i + 1;
        }
        assert(rows@.take(i as int) =~= rows@);
        if !held && rows.len() > 0 {
            self.sel = rows[0];
        }
        if self.sel < self.options.len() {
            assert(before.options[self.sel as int] == self.options@[self.sel as int]@);
            self.value = self.options[self.sel].value.clone();
        }
    }
}

pub open spec fn clean_group(g: Option<Seq<char>>) -> bool {
    g matches Some(g) ==> text::trimmed(g).len() > 0 && forall|i: int|
        0 <= i < g.len() ==> !text::control(#[trigger] g[i]) && g[i] != '\u{2028}' && g[i] != '\u{2029}'
}

/// Whether a plugin's select can be shown: everything has a name, no two
/// options the same value, and no heading would break the list.
pub open spec fn well_made(s: SelectV) -> bool {
    &&& s.id.len() > 0
    &&& s.title.len() > 0
    &&& s.options.len() > 0
    &&& forall|i: int|
        0 <= i < s.options.len() ==> {
            &&& (#[trigger] s.options[i]).value.len() > 0
            &&& s.options[i].label.len() > 0
            &&& clean_group(s.options[i].group)
        }
    &&& forall|i: int, j: int|
        0 <= i < j < s.options.len() ==> (#[trigger] s.options[i]).value != (
        #[trigger] s.options[j]).value
}

/// The option whose value is set.
pub open spec fn is_initial(s: SelectV, r: Option<usize>) -> bool {
    match r {
        Some(i) => well_made(s) && i < s.options.len() && s.options[i as int].value == s.value
            && forall|k: int| 0 <= k < i ==> (#[trigger] s.options[k]).value != s.value,
        None => !well_made(s) || forall|k: int|
            0 <= k < s.options.len() ==> (#[trigger] s.options[k]).value != s.value,
    }
}

fn is_clean_group(group: &Option<String>) -> (r: bool)
    ensures
        r == clean_group(text::opt_view(*group)),
{
    match group {
        None => true,
        Some(g) => {
            let t = text::trim(g.as_str());
            if t.as_str().is_empty() {
                return false;
            }
            let v = text::chars_of(g.as_str());
            let mut i: usize = 0;
            while i < v.len()
                invariant
                    i <= v@.len(),
                    v@ == g@,
                    *group == Some(*g),
                    text::trimmed(g@).len() > 0,
                    forall|k: int|
                        0 <= k < i ==> !text::control(#[trigger] g@[k]) && g@[k] != '\u{2028}' && g@[k]
                            != '\u{2029}',
                decreases v@.len() - i,
            {
                if text::is_control(v[i]) || v[i] == '\u{2028}' || v[i] == '\u{2029}' {
                    assert(g@[i as int] == v@[i as int]);
                    return false;
                }
                i = i + 1;
            }
            true
        },
    }
}

/// The row to highlight first; nothing where the select cannot be shown.
pub fn select_initial_index(select: &SelectOverlay) -> (r: Option<usize>)
    ensures
        is_initial(select@, r),
{
    if select.id.as_str().is_empty() || select.title.as_str().is_empty() || select.options.len()
        == 0 {
        return None;
    }
    let ghost all = select@.options;
    let mut i: usize = 0;
    while i < select.options.len()
        invariant
            i <= select.options@.len(),
            all == select@.options,
            all == options_view(select.options@),
            forall|k: int|
                0 <= k < i ==> {
                    &&& (#[trigger] all[k]).value.len() > 0
                    &&& all[k].label.len() > 0
                    &&& clean_group(all[k].group)
                },
            forall|k: int, j: int|
                0 <= k < j < i ==> (#[trigger] all[k]).value != (#[trigger] all[j]).value,
        decreases select.options@.len() - i,
    {
        let o = &select.options[i];
        assert(all[i as int] == o@);
        if o.value.as_str().is_empty() || o.label.as_str().is_empty() || !is_clean_group(&o.group) {
            return None;
        }
        let mut j: usize = 0;
        while j < i
            invariant
                j <= i < select.options@.len(),
                all == select@.options,
                all == options_view(select.options@),
                *o == select.options@[i as int],
                forall|k: int| 0 <= k < j ==> (#[trigger] all[k]).value != o.value@,
            decreases i - j,
        {
            assert(all[j as int] == select.options@[j as int]@);
            if text::same(select.options[j].value.as_str(), o.value.as_str()) {
                assert(all[j as int].value == all[i as int].value);
                return None;
            }
            j = j + 1;
        }
        i = i + 1;
    }
    assert(well_made(select@));
    let mut i: usize = 0;
    while i < select.options.len()
        invariant
            i <= select.options@.len(),
            all == select@.options,
            all == options_view(select.options@),
            well_made(select@),
            forall|k: int| 0 <= k < i ==> (#[trigger] all[k]).value != select.value@,
        decreases select.options@.len() - i,
    {
        assert(all[i as int] == select.options@[i as int]@);
        if text::same(select.options[i].value.as_str(), select.value.as_str()) {
            return Some(i);
        }
        i = i + 1;
    }
    None
}

} // verus!
