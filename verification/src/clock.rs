//! What happens as time passes.

use crate::agents;
use crate::app::{App, AppV, ClockV, Pointer, StatusV};
use crate::effect::Effect;
use crate::seqs;
use crate::session::{self, RunState, SubagentView};
use crate::text;
use vstd::prelude::*;

verus! {

/// The frames of the mark that turns while the agent works.
pub const SPINNER: &'static str = "⠋⠙⠹⠸⠼⠴⠦⠧⠇⠏";

/// Two presses of Ctrl+C further apart do not belong together.
pub const CTRL_C_QUIT_WINDOW: u64 = 1500;

/// How long a remark stays on the screen.
pub const TIP_TTL: u64 = 4000;

/// How often the branch of the workspace is looked up.
pub const GIT_CHECK_INTERVAL: u64 = 5000;

/// How long a hint stays on the screen before the next one follows.
pub const AMBIENT_TIP_TTL: u64 = 14000;

/// How long ago something was.
pub open spec fn age(now: u64, at: u64) -> int {
    if now >= at {
        now - at
    } else {
        0
    }
}

pub open spec fn at_work() -> spec_fn(SubagentView<Seq<char>>) -> bool {
    |v: SubagentView<Seq<char>>| v.running
}

pub open spec fn wrapped(n: usize) -> usize {
    if n < usize::MAX {
        (n + 1) as usize
    } else {
        0
    }
}

impl AppV {
    pub open spec fn at_time(self, now: u64, micros: u128) -> AppV {
        AppV { clock: ClockV { now, micros, ..self.clock }, ..self }
    }

    /// The branch of the workspace is looked up, unless that was done just
    /// now and nothing suggests that it has changed.
    #[verifier::opaque]
    pub open spec fn branch_sought(self, force: bool) -> AppV {
        if !force && age(self.clock.now, self.clock.git_check_at) < GIT_CHECK_INTERVAL {
            self
        } else {
            AppV {
                clock: ClockV { git_check_at: self.clock.now, ..self.clock },
                ..self
            }.emit(Effect::RefreshBranch)
        }
    }

    pub open spec fn branch_found(self, branch: Option<Seq<char>>) -> AppV {
        if branch == self.status.branch {
            self
        } else {
            AppV { status: StatusV { branch, ..self.status }, ..self }.redrawn()
        }
    }

    /// The mark turns while anything is going on.
    #[verifier::opaque]
    pub open spec fn spun(self, streaming: bool) -> AppV {
        if self.state != RunState::Idle || streaming || seqs::some(
            self.live.agents.views,
            at_work(),
        ) {
            AppV {
                clock: ClockV { spinner_idx: wrapped(self.clock.spinner_idx), ..self.clock },
                ..self
            }.redrawn()
        } else {
            self
        }
    }

    #[verifier::opaque]
    pub open spec fn tip_aged(self) -> AppV {
        match self.clock.tip {
            Some(t) => if age(self.clock.now, t.at) > TIP_TTL {
                AppV { clock: ClockV { tip: None, ..self.clock }, ..self }.redrawn()
            } else {
                self
            },
            None => self,
        }
    }

    #[verifier::opaque]
    pub open spec fn flash_aged(self) -> AppV {
        match self.pointer.flash {
            Some(f) => if self.clock.now >= f.until {
                self.with_pointer(Pointer { flash: None, ..self.pointer }).redrawn()
            } else {
                self
            },
            None => self,
        }
    }

    /// One hint follows the other; `tips` is how many there are.
    #[verifier::opaque]
    pub open spec fn hints_turned(self, tips: usize) -> AppV {
        if age(self.clock.now, self.clock.ambient_at) > AMBIENT_TIP_TTL && tips > 0 {
            let a = AppV {
                clock: ClockV {
                    ambient_at: self.clock.now,
                    ambient_idx: wrapped(self.clock.ambient_idx) % tips,
                    ..self.clock
                },
                ..self
            };
            if self.clock.tip is None {
                a.redrawn()
            } else {
                a
            }
        } else {
            self
        }
    }

    #[verifier::opaque]
    pub open spec fn chord_aged(self) -> AppV {
        match self.clock.ctrl_c {
            Some(c) => if age(self.clock.now, c.started) > CTRL_C_QUIT_WINDOW {
                self.with_chord(None)
            } else {
                self
            },
            None => self,
        }
    }

    /// A moment passes. `streaming` tells that a transcript on the screen
    /// grows.
    #[verifier::opaque]
    pub open spec fn ticked(self, streaming: bool, tips: usize) -> AppV {
        self.branch_sought(false).spun(streaming).tip_aged().flash_aged().hints_turned(
            tips,
        ).chord_aged()
    }
}

fn since(now: u64, at: u64) -> (r: u64)
    ensures
        r == age(now, at),
{
    now.saturating_sub(at)
}

fn next(n: usize) -> (r: usize)
    ensures
        r == wrapped(n),
{
    if n < usize::MAX {
        n + 1
    } else {
        0
    }
}

fn any_at_work(v: &Vec<SubagentView>) -> (r: bool)
    ensures
        r == seqs::some(session::subagents_view(v@), at_work()),
{
    let ghost all = session::subagents_view(v@);
    let mut i: usize = 0;
    while i < v.len() && !v[i].running
        invariant
            i <= v@.len(),
            all == session::subagents_view(v@),
            forall|k: int| 0 <= k < i ==> !at_work()(#[trigger] all[k]),
        decreases v@.len() - i,
    {
        assert(all[i as int] == v@[i as int]@);
        i = i + 1;
    }
    proof {
        if i < v@.len() {
            assert(all[i as int] == v@[i as int]@);
        }
        seqs::lemma_first_index_is(all, at_work(), i as int);
    }
    i < v.len()
}

impl App {
    /// Sets the clocks: milliseconds that only ever grow, and the time of day
    /// in microseconds.
    pub fn set_time(&mut self, now: u64, micros: u128)
        ensures
            final(self)@ == old(self)@.at_time(now, micros),
    {
        self.clock.now = now;
        self.clock.micros = micros;
    }

    /// The frame of the mark that turns while the agent works.
    pub fn spinner(&self) -> (r: char)
        ensures
            r == SPINNER@[self@.clock.spinner_idx as int % 10],
    {
        let v = text::chars_of(SPINNER);
        proof {
            reveal_strlit("⠋⠙⠹⠸⠼⠴⠦⠧⠇⠏");
        }
        v[self.clock.spinner_idx % 10]
    }

    pub(crate) fn refresh_git_branch(&mut self, force: bool)
        ensures
            final(self)@ == old(self)@.branch_sought(force),
    {
        proof {
            reveal(AppV::branch_sought);
        }
        if !force && since(self.clock.now, self.clock.git_check_at) < GIT_CHECK_INTERVAL {
            return;
        }
        self.clock.git_check_at = self.clock.now;
        self.emit(Effect::RefreshBranch);
    }

    pub(crate) fn take_branch(&mut self, branch: Option<String>)
        ensures
            final(self)@ == old(self)@.branch_found(text::opt_view(branch)),
    {
        if !agents::same_text_opt(&branch, &self.status.branch) {
            self.status.branch = branch;
            self.redraw();
        }
    }

    fn agents_work(&self) -> (r: bool)
        ensures
            r == seqs::some(self@.live.agents.views, at_work()),
    {
        proof {
            reveal(session::slot_view);
        }
        any_at_work(&self.live.agents.views)
    }

    fn spin(&mut self, streaming: bool)
        ensures
            final(self)@ == old(self)@.spun(streaming),
    {
        proof {
            reveal(AppV::spun);
        }
        if !matches!(self.state, RunState::Idle) || streaming || self.agents_work() {
            self.clock.spinner_idx = next(self.clock.spinner_idx);
            self.redraw();
        }
    }

    fn age_tip(&mut self)
        ensures
            final(self)@ == old(self)@.tip_aged(),
    {
        proof {
            reveal(AppV::tip_aged);
        }
        let old_tip = match &self.clock.tip {
            Some(t) => since(self.clock.now, t.at) > TIP_TTL,
            None => false,
        };
        if old_tip {
            self.clock.tip = None;
            self.redraw();
        }
    }

    fn age_flash(&mut self)
        ensures
            final(self)@ == old(self)@.flash_aged(),
    {
        proof {
            reveal(AppV::flash_aged);
        }
        if let Some(f) = self.pointer.flash {
            if self.clock.now >= f.until {
                self.pointer.flash = None;
                self.redraw();
            }
        }
    }

    fn turn_hints(&mut self, tips: usize)
        ensures
            final(self)@ == old(self)@.hints_turned(tips),
    {
        proof {
            reveal(AppV::hints_turned);
        }
        if since(self.clock.now, self.clock.ambient_at) > AMBIENT_TIP_TTL && tips > 0 {
            self.clock.ambient_at = self.clock.now;
            self.clock.ambient_idx = next(self.clock.ambient_idx) % tips;
            if self.clock.tip.is_none() {
                self.redraw();
            }
        }
    }

    fn age_chord(&mut self)
        ensures
            final(self)@ == old(self)@.chord_aged(),
    {
        proof {
            reveal(AppV::chord_aged);
        }
        if let Some(c) = self.clock.ctrl_c {
            if since(self.clock.now, c.started) > CTRL_C_QUIT_WINDOW {
                self.clock.ctrl_c = None;
            }
        }
    }

    /// Lets a moment pass. `streaming` tells that a transcript on the screen
    /// grows, `tips` how many hints there are to show in turn.
    pub fn tick(&mut self, streaming: bool, tips: usize)
        ensures
            final(self)@ == old(self)@.ticked(streaming, tips),
    {
        proof {
            reveal(AppV::ticked);
        }
        self.refresh_git_branch(false);
        self.spin(streaming);
        self.age_tip();
        self.age_flash();
        self.turn_hints(tips);
        self.age_chord();
    }
}

} // verus!
