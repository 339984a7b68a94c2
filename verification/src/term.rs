//! What the terminal sends, before the editors have looked at it.

use crate::app::{App, AppV};
use crate::effect::{Effect, EffectV};
use crate::input::{self, KeyEvent, KeyEventKind, TermEvent};
use crate::overlays::QUERY_LIMIT;
use crate::select::{self, SelectOverlay};
use crate::seqs;
use crate::session;
use crate::text;
use vstd::prelude::*;

verus! {

/// Every line ending as a line feed.
pub open spec fn line_feeds(s: Seq<char>) -> Seq<char>
    decreases s.len(),
{
    if s.len() == 0 {
        Seq::empty()
    } else if s[0] == '\r' {
        if s.len() > 1 && s[1] == '\n' {
            seq!['\n'] + line_feeds(s.skip(2))
        } else {
            seq!['\n'] + line_feeds(s.skip(1))
        }
    } else {
        seq![s[0]] + line_feeds(s.skip(1))
    }
}

/// Line endings as line feeds: a carriage return on its own counts as one.
pub fn to_line_feeds(s: &str) -> (r: String)
    ensures
        r@ == line_feeds(s@),
{
    let v = text::chars_of(s);
    let mut out = text::empty();
    let mut i: usize = 0;
    assert(v@.skip(0) =~= v@);
    while i < v.len()
        invariant
            i <= v@.len(),
            v@ == s@,
            out@ + line_feeds(v@.skip(i as int)) == line_feeds(s@),
        decreases v@.len() - i,
    {
        let ghost rest = v@.skip(i as int);
        let ghost before = out@;
        assert(rest[0] == v@[i as int]);
        assert(rest.skip(1) =~= v@.skip(i as int + 1));
        if v[i] == '\r' {
            out.push('\n');
            if i + 1 < v.len() && v[i + 1] == '\n' {
                assert(rest[1] == v@[i as int + 1]);
                assert(rest.skip(2) =~= v@.skip(i as int + 2));
                assert(out@ + line_feeds(rest.skip(2)) =~= before + line_feeds(rest));
                i = i + 2;
            } else {
                assert(out@ + line_feeds(rest.skip(1)) =~= before + line_feeds(rest));
                i = i + 1;
            }
        } else {
            out.push(v[i]);
            assert(out@ + line_feeds(rest.skip(1)) =~= before + line_feeds(rest));
            i = i + 1;
        }
    }
    assert(v@.skip(i as int) =~= Seq::empty());
    assert(out@ + line_feeds(Seq::empty()) =~= out@);
    out
}

/// No carriage return is left.
pub proof fn law_line_feeds_only(s: Seq<char>, i: int)
    requires
        0 <= i < line_feeds(s).len(),
    ensures
        line_feeds(s)[i] != '\r',
    decreases s.len(),
{
    if i > 0 {
        if s[0] == '\r' && s.len() > 1 && s[1] == '\n' {
            law_line_feeds_only(s.skip(2), i - 1);
        } else {
            law_line_feeds_only(s.skip(1), i - 1);
        }
    }
}

pub open spec fn printable() -> spec_fn(char) -> bool {
    |c: char| !text::control(c)
}

/// A query with as much of a pasted text as has room: only what is printed.
pub open spec fn query_with(query: Seq<char>, t: Seq<char>) -> Seq<char> {
    let more = t.filter(printable());
    let room = if query.len() < QUERY_LIMIT {
        QUERY_LIMIT - query.len()
    } else {
        0
    };
    query + more.take(if more.len() <= room {
        more.len() as int
    } else {
        room
    })
}

fn extend_query(query: &mut String, t: &str)
    ensures
        final(query)@ == query_with(old(query)@, t@),
{
    let n: usize = text::chars_of(query.as_str()).len();
    let v = text::chars_of(t);
    let mut room: usize = QUERY_LIMIT.saturating_sub(n);
    let ghost start = query@;
    let ghost all = room as int;
    let ghost p = printable();
    let mut i: usize = 0;
    assert(v@.take(0) =~= Seq::empty());
    proof {
        seqs::lemma_filter_empty(v@.take(0), p);
    }
    assert(start + v@.take(0).filter(p) =~= start);
    while i < v.len() && room > 0
        invariant
            i <= v@.len(),
            p == printable(),
            0 <= room <= all,
            v@.take(i as int).filter(p).len() == all - room,
            query@ == start + v@.take(i as int).filter(p),
        decreases v@.len() - i,
    {
        proof {
            seqs::lemma_filter_push(v@, p, i as int);
        }
        if !text::is_control(v[i]) {
            query.push(v[i]);
            assert(query@ =~= start + v@.take(i as int + 1).filter(p));
            room = room - 1;
        }
        i = i + 1;
    }
    proof {
        lemma_filter_take(v@, p, i as int);
        assert(v@.take(v@.len() as int) =~= v@);
        if i == v@.len() {
            assert(v@.filter(p).take(v@.filter(p).len() as int) =~= v@.filter(p));
        } else {
            assert(room == 0);
            assert(v@.filter(p).take(all) =~= v@.take(i as int).filter(p));
        }
    }
}

/// What passes of a beginning is the beginning of what passes.
proof fn lemma_filter_take<A>(s: Seq<A>, p: spec_fn(A) -> bool, i: int)
    requires
        0 <= i <= s.len(),
    ensures
        s.take(i).filter(p).len() <= s.filter(p).len(),
        s.filter(p).take(s.take(i).filter(p).len() as int) == s.take(i).filter(p),
    decreases s.len() - i,
{
    if i == s.len() {
        assert(s.take(i) =~= s);
        assert(s.filter(p).take(s.filter(p).len() as int) =~= s.filter(p));
    } else {
        lemma_filter_take(s, p, i + 1);
        seqs::lemma_filter_push(s, p, i);
        let a = s.take(i).filter(p);
        let b = s.take(i + 1).filter(p);
        assert(b.take(a.len() as int) =~= a);
        assert(s.filter(p).take(b.len() as int).take(a.len() as int) =~= s.filter(p).take(
            a.len() as int,
        ));
    }
}

pub open spec fn pressed() -> spec_fn(KeyEvent) -> bool {
    |k: KeyEvent| k.kind != KeyEventKind::Release
}

pub open spec fn presses(keys: Seq<KeyEvent>) -> Seq<EffectV> {
    keys.filter(pressed()).map_values(|k: KeyEvent| Effect::Press(k))
}

impl AppV {
    pub open spec fn paste_query(self, t: Seq<char>) -> AppV {
        match self.menu.select {
            Some(s) => if s.searchable {
                self.with_select(
                    Some(
                        select::reconciled(
                            SelectOverlay { query: query_with(s.query, t), ..s },
                        ),
                    ),
                ).redrawn()
            } else {
                self
            },
            None => self,
        }
    }

    #[verifier::opaque]
    pub open spec fn paste_draft(self, t: Seq<char>) -> AppV {
        let a = self.dismissing(false);
        a.with_input(
            a.live.draft.input.inserting(line_feeds(t)),
        ).without_input_sel().reconciled_images().redrawn()
    }

    /// A text is pasted: into a form, into the query of a list, or into the
    /// draft. A text that is nothing but key reports is taken for the keys.
    #[verifier::opaque]
    pub open spec fn pasted(self, t: Seq<char>) -> AppV {
        match input::csi_u_keys(t) {
            Some(keys) if t.len() > 0 => self.saying(presses(keys)),
            _ => match self.live.asks.form {
                Some(f) => self.emit(Effect::PasteForm { reply: f.reply, text: t }).redrawn(),
                None => if self.menu.select is Some {
                    self.paste_query(t)
                } else {
                    self.paste_draft(t)
                },
            },
        }
    }

    pub open spec fn term(self, e: TermEvent) -> AppV {
        match e {
            TermEvent::Key(key) => if key.kind != KeyEventKind::Release {
                self.emit(Effect::ReadHostModels).emit(Effect::Press(key))
            } else {
                self
            },
            TermEvent::Mouse(mouse) => self.emit(Effect::Point(mouse)),
            TermEvent::Resize(_, _) => self.redrawn(),
            TermEvent::Paste(t) => self.emit(Effect::ReadHostModels).pasted(t@),
            TermEvent::FocusGained => self,
            TermEvent::FocusLost => self,
        }
    }
}

fn is_release(k: KeyEvent) -> (r: bool)
    ensures
        r == (k.kind == KeyEventKind::Release),
{
    match k.kind {
        KeyEventKind::Release => true,
        _ => false,
    }
}

impl App {
    fn press_all(&mut self, keys: &Vec<KeyEvent>)
        ensures
            final(self)@ == old(self)@.saying(presses(keys@)),
    {
        let ghost before = self@;
        let ghost p = pressed();
        let ghost f = |k: KeyEvent| Effect::<Seq<char>, crate::bus::CmdV, crate::effect::OpV>::Press(k);
        let mut i: usize = 0;
        proof {
            assert(keys@.take(0) =~= Seq::empty());
            seqs::lemma_filter_empty(keys@.take(0), p);
        }
        assert(before.out + keys@.take(0).filter(p).map_values(f) =~= before.out);
        while i < keys.len()
            invariant
                i <= keys@.len(),
                p == pressed(),
                f == (|k: KeyEvent|
                    Effect::<Seq<char>, crate::bus::CmdV, crate::effect::OpV>::Press(k)),
                self@ == before.saying(keys@.take(i as int).filter(p).map_values(f)),
            decreases keys@.len() - i,
        {
            proof {
                seqs::lemma_filter_push(keys@, p, i as int);
            }
            let ghost done = keys@.take(i as int).filter(p).map_values(f);
            let ghost more = keys@.take(i as int + 1).filter(p).map_values(f);
            let k = keys[i];
            if !is_release(k) {
                self.emit(Effect::Press(k));
                assert(more =~= done.push(Effect::Press(k)));
                assert(before.out + more =~= (before.out + done).push(Effect::Press(k)));
            }
            i = i + 1;
        }
        assert(keys@.take(i as int) =~= keys@);
    }

    fn form_reply(&self) -> (r: Option<u64>)
        ensures
            r == (match self@.live.asks.form {
                Some(f) => Some(f.reply),
                None => None,
            }),
    {
        proof {
            reveal(session::slot_view);
        }
        match &self.live.asks.form {
            Some(f) => Some(f.reply),
            None => None,
        }
    }

    fn paste_into_query(&mut self, t: &str)
        ensures
            final(self)@ == old(self)@.paste_query(t@),
    {
        let mut changed = false;
        if let Some(s) = &mut self.menu.select {
            if s.searchable {
                extend_query(&mut s.query, t);
                s.reconcile_search();
                changed = true;
            }
        }
        if changed {
            self.redraw();
        }
    }

    fn paste_into_draft(&mut self, t: &str)
        ensures
            final(self)@ == old(self)@.paste_draft(t@),
    {
        proof {
            reveal(AppV::paste_draft);
        }
        let lines = to_line_feeds(t);
        self.dismiss_slash(false);
        self.insert_text(lines.as_str());
        self.clear_input_sel();
        self.reconcile_attachments();
        self.redraw();
    }

    fn paste(&mut self, t: String)
        ensures
            final(self)@ == old(self)@.pasted(t@),
    {
        proof {
            reveal(AppV::pasted);
        }
        if let Some(keys) = input::decode_leaked_csi_u_keys(t.as_str()) {
            self.press_all(&keys);
            return;
        }
        if let Some(reply) = self.form_reply() {
            self.emit(Effect::PasteForm { reply, text: t });
            self.redraw();
            return;
        }
        if self.menu.select.is_some() {
            self.paste_into_query(t.as_str());
        } else {
            self.paste_into_draft(t.as_str());
        }
    }

    pub(crate) fn handle_term(&mut self, e: TermEvent)
        ensures
            final(self)@ == old(self)@.term(e),
    {
        match e {
            TermEvent::Key(key) => if !is_release(key) {
                self.emit(Effect::ReadHostModels);
                self.emit(Effect::Press(key));
            },
            TermEvent::Mouse(mouse) => self.emit(Effect::Point(mouse)),
            TermEvent::Resize(_, _) => self.redraw(),
            TermEvent::Paste(t) => {
                self.emit(Effect::ReadHostModels);
                self.paste(t);
            },
            TermEvent::FocusGained => {},
            TermEvent::FocusLost => {},
        }
    }
}

} // verus!
