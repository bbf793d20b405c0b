use vstd::prelude::*;

use crate::config::cfg::ZohaCfg;
use crate::ui::registry::TabError;
use crate::ui::registry::Terminals;
use crate::ui::terminal::TerminalModel;

pub mod config;
pub mod hack;
pub mod ui;

verus! {

/// The interface of the signal that asks the window to toggle.
pub const DBUS_INTERFACE: &'static str = "io.koosha.zoha";

/// The member of the signal that asks the window to toggle.
pub const DBUS_MEMBER: &'static str = "zoha";

/// The path of the signal that asks the window to toggle.
pub const DBUS_PATH: &'static str = "/io/koosha/zoha";

/// For how many milliseconds after a change of visibility further requests
/// to toggle are ignored.
pub const TOGGLE_WAIT_MILLIS: i64 = 50;

/// How long before its creation a window counts as last toggled, in
/// milliseconds: one hour.
pub const INITIAL_TOGGLE_AGE_MILLIS: i64 = 3_600_000;

/// Gives each terminal its number: 1 to the first, and to every later one a
/// number greater than all given before. No number is given twice.
pub struct TabCounter {
    next: u64,
}

impl TabCounter {
    /// The number that the next terminal gets.
    pub closed spec fn next_number(&self) -> u64 {
        self.next
    }

    /// A counter that has given no number yet.
    pub fn new() -> (counter: Self)
        ensures
            counter.next_number() == 1,
    {
        TabCounter { next: 1 }
    }

    /// Whether a further number can be given.
    pub fn has_next(&self) -> (some: bool)
        ensures
            some == (self.next_number() < u64::MAX),
    {
        self.next < u64::MAX
    }

    /// The counter after it has given `count` further numbers.
    pub closed spec fn advanced(&self, count: nat) -> TabCounter {
        TabCounter { next: (self.next + count) as u64 }
    }

    /// Gives the next number. The counter has to have one left, which
    /// `has_next` tells.
    pub fn issue(&mut self) -> (number: u64)
        requires
            old(self).next_number() < u64::MAX,
        ensures
            number == old(self).next_number(),
            final(self).next_number() == number + 1,
            *final(self) == old(self).advanced(1),
    {
        let number: u64 = self.next;
        self.next = number + 1;
        number
    }
}

/// Of the numbers that one counter gives, a later one is greater than an
/// earlier one: the number given after `later` others is greater than the
/// number given after `earlier` others.
pub proof fn lemma_later_number_is_greater(counter: TabCounter, earlier: nat, later: nat)
    requires
        earlier < later,
        counter.next_number() + later <= u64::MAX,
    ensures
        counter.advanced(earlier).next_number() < counter.advanced(later).next_number(),
        counter.advanced(earlier).next_number() == counter.next_number() + earlier,
        counter.advanced(earlier).advanced((later - earlier) as nat) == counter.advanced(later),
{
}

/// What is to be done to the window after a toggle.
#[derive(Debug, Clone, Copy, PartialEq, Eq, Structural)]
pub enum ToggleAction {
    Show,
    Hide,
}

/// The time that has passed from `last` to `now`, in milliseconds; none when
/// the clock went backwards.
pub open spec fn elapsed_millis(last: i64, now: i64) -> int {
    if now >= last {
        now - last
    } else {
        0
    }
}

/// Whether a request to toggle at `now` takes effect: not when the window
/// was last toggled less than `TOGGLE_WAIT_MILLIS` before.
pub open spec fn toggle_due(last: i64, now: i64) -> bool {
    elapsed_millis(last, now) >= TOGGLE_WAIT_MILLIS
}

/// Every terminal of `s` has a number below `next`, and no two have the
/// same.
pub open spec fn numbers_issued(s: Seq<TerminalModel>, next: u64) -> bool {
    &&& forall|i: int| 0 <= i < s.len() ==> (#[trigger] s[i]).tab_counter < next
    &&& forall|i: int, j: int|
        0 <= i < j < s.len() ==> (#[trigger] s[i]).tab_counter != (#[trigger] s[j]).tab_counter
}

/// The state of one window: its configuration, its tabs, whether it is
/// shown, whether the window and the notebook that holds the tabs have been
/// set up, and the counter that numbers its terminals.
pub struct ZohaCtx {
    pub cfg: ZohaCfg,
    pub fullscreen: bool,
    pub showing: bool,
    pub terminals: Terminals,
    pub transparency_enabled: bool,
    pub last_toggle: i64,
    pub tab_counter: TabCounter,
    pub window: bool,
    pub notebook: bool,
}

impl ZohaCtx {
    /// The number that the next terminal gets.
    pub open spec fn next_tab_number(&self) -> u64 {
        self.tab_counter.next_number()
    }

    /// The tabs are in order with the titles that the configuration asks
    /// for, and their terminals have different numbers, all given by this
    /// window's counter.
    pub open spec fn wf(&self) -> bool {
        &&& self.terminals.wf()
        &&& self.terminals.max_chars() == self.cfg.display.tab_title_num_characters
        &&& numbers_issued(self.terminals@, self.next_tab_number())
    }

    /// The state of a window created at the time `now`: shown, unless the
    /// configuration asks for a window that starts hidden; without tabs; and
    /// last toggled an hour before its creation.
    pub fn new(cfg: ZohaCfg, now: i64) -> (ctx: Self)
        ensures
            ctx.wf(),
            ctx.cfg == cfg,
            ctx.fullscreen == cfg.display.fullscreen,
            ctx.showing == !cfg.display.start_hidden,
            ctx.transparency_enabled,
            ctx.terminals@.len() == 0,
            ctx.next_tab_number() == 1,
            !ctx.window,
            !ctx.notebook,
            ctx.last_toggle == if now - INITIAL_TOGGLE_AGE_MILLIS >= i64::MIN {
                now - INITIAL_TOGGLE_AGE_MILLIS
            } else {
                i64::MIN as int
            },
    {
        let fullscreen = cfg.display.fullscreen;
        let showing = !cfg.display.start_hidden;
        let terminals = Terminals::new(cfg.display.tab_title_num_characters);
        let last_toggle: i64 = if now >= i64::MIN + INITIAL_TOGGLE_AGE_MILLIS {
            now - INITIAL_TOGGLE_AGE_MILLIS
        } else {
            i64::MIN
        };
        ZohaCtx {
            cfg,
            fullscreen,
            showing,
            terminals,
            transparency_enabled: true,
            last_toggle,
            tab_counter: TabCounter::new(),
            window: false,
            notebook: false,
        }
    }

    /// Records that the window exists. A second window is refused, and
    /// nothing changes.
    pub fn set_window(&mut self) -> (done: Result<(), TabError>)
        ensures
            *final(self) == (ZohaCtx { window: true, ..*old(self) }),
            match done {
                Ok(_) => !old(self).window,
                Err(e) => old(self).window && e == TabError::WindowAlreadySet,
            },
    {
        if self.window {
            return Err(TabError::WindowAlreadySet);
        }
        self.window = true;
        Ok(())
    }

    /// Records that the notebook that holds the tabs exists.
    pub fn set_notebook(&mut self)
        requires
            !old(self).notebook,
        ensures
            *final(self) == (ZohaCtx { notebook: true, ..*old(self) }),
    {
        self.notebook = true;
    }

    /// Whether the window has been set.
    pub fn get_window(&self) -> (set: bool)
        ensures
            set == self.window,
    {
        self.window
    }

    /// Whether the notebook has been set.
    pub fn get_notebook(&self) -> (set: bool)
        ensures
            set == self.notebook,
    {
        self.notebook
    }

    /// Gives the number for a new terminal: greater than the number of every
    /// open tab, and than every number given before. The counter has to have
    /// a number left.
    pub fn issue_tab_number(&mut self) -> (number: u64)
        requires
            old(self).wf(),
            old(self).next_tab_number() < u64::MAX,
        ensures
            final(self).wf(),
            number == old(self).next_tab_number(),
            final(self).next_tab_number() == number + 1,
            forall|i: int|
                0 <= i < old(self).terminals@.len() ==> (#[trigger] old(self).terminals@[i]).tab_counter
                    < number,
            *final(self) == (ZohaCtx { tab_counter: final(self).tab_counter, ..*old(self) }),
    {
        self.tab_counter.issue()
    }
}

impl ZohaCtx {
    /// Answers a request to toggle the window at the time `now`.
    ///
    /// A request that comes less than `TOGGLE_WAIT_MILLIS` after the last
    /// toggle changes nothing and asks for nothing. Any other request turns a
    /// shown window into a hidden one and a hidden one into a shown one,
    /// records `now` as the time of the last toggle, and says what is to be
    /// done to the window.
    pub fn request_toggle(&mut self, now: i64) -> (action: Option<ToggleAction>)
        ensures
            *final(self) == if toggle_due(old(self).last_toggle, now) {
                ZohaCtx { showing: !old(self).showing, last_toggle: now, ..*old(self) }
            } else {
                *old(self)
            },
            action == if !toggle_due(old(self).last_toggle, now) {
                None
            } else if old(self).showing {
                Some(ToggleAction::Hide)
            } else {
                Some(ToggleAction::Show)
            },
    {
        let elapsed: i128 = if now >= self.last_toggle {
            now as i128 - self.last_toggle as i128
        } else {
            0
        };
        if elapsed < TOGGLE_WAIT_MILLIS as i128 {
            return None;
        }
        self.last_toggle = now;
        if self.showing {
            self.showing = false;
            Some(ToggleAction::Hide)
        } else {
            self.showing = true;
            Some(ToggleAction::Show)
        }
    }

    /// Hides the window at the time `now`, however short a time ago it was
    /// last toggled. A window that is hidden already is left as it is.
    pub fn hide_window(&mut self, now: i64) -> (action: Option<ToggleAction>)
        ensures
            *final(self) == if old(self).showing {
                ZohaCtx { showing: false, last_toggle: now, ..*old(self) }
            } else {
                *old(self)
            },
            action == if old(self).showing {
                Some(ToggleAction::Hide)
            } else {
                None
            },
    {
        if self.showing {
            self.showing = false;
            self.last_toggle = now;
            Some(ToggleAction::Hide)
        } else {
            None
        }
    }
}

/// Answers a signal to toggle the window that arrives at the time `now`.
///
/// A signal within the waiting time after the last toggle is ignored. One
/// that would take effect while no window has been set is reported and
/// changes nothing. Any other is answered as `ZohaCtx::request_toggle` says.
pub fn toggle(ctx: &mut ZohaCtx, now: i64) -> (action: Result<Option<ToggleAction>, TabError>)
    ensures
        *final(ctx) == if toggle_due(old(ctx).last_toggle, now) && old(ctx).window {
            ZohaCtx { showing: !old(ctx).showing, last_toggle: now, ..*old(ctx) }
        } else {
            *old(ctx)
        },
        action == if !toggle_due(old(ctx).last_toggle, now) {
            Ok::<Option<ToggleAction>, TabError>(None)
        } else if !old(ctx).window {
            Err(TabError::MissingContainerCollaborator)
        } else if old(ctx).showing {
            Ok(Some(ToggleAction::Hide))
        } else {
            Ok(Some(ToggleAction::Show))
        },
{
    if !ctx.window {
        let elapsed: i128 = if now >= ctx.last_toggle {
            now as i128 - ctx.last_toggle as i128
        } else {
            0
        };
        if elapsed < TOGGLE_WAIT_MILLIS as i128 {
            return Ok(None);
        }
        return Err(TabError::MissingContainerCollaborator);
    }
    Ok(ctx.request_toggle(now))
}

} // verus!
