use vstd::prelude::*;

use crate::config::cfg::LastTabExitBehavior;
use crate::config::cfg::TabMode;
use crate::ui::registry::lemma_insert_keeps_issued;
use crate::ui::registry::lemma_positions_dense;
use crate::ui::registry::lemma_remove_keeps_issued;
use crate::ui::registry::lemma_reorder_keeps_issued;
use crate::ui::registry::move_target;
use crate::ui::registry::move_target_spec;
use crate::ui::registry::renumbered;
use crate::ui::registry::rotated;
use crate::ui::registry::TabError;
use crate::ui::terminal::placed;
use crate::ui::terminal::TerminalModel;
use crate::ui::terminal::ZohaTerminal;
use crate::ZohaCtx;

verus! {

/// What is to be done once the last tab has been closed.
#[derive(Debug, Clone, Copy, PartialEq, Eq, Structural)]
pub struct ExitPlan {
    /// A new tab is to be opened at once.
    pub add_tab: bool,
    /// The terminal of the new tab is to take the keyboard focus.
    pub grab_focus: bool,
    /// The window is to be hidden.
    pub hide: bool,
    /// The window is to be closed, which ends the application.
    pub close_window: bool,
}

/// What the configured behaviour asks for when the last tab has been
/// closed: a new tab that takes the focus; a new tab and a hidden window; or
/// the end of the application, without a new tab.
pub open spec fn exit_plan_spec(behavior: LastTabExitBehavior) -> ExitPlan {
    match behavior {
        LastTabExitBehavior::RestartTerminal => ExitPlan {
            add_tab: true,
            grab_focus: true,
            hide: false,
            close_window: false,
        },
        LastTabExitBehavior::RestartTerminalAndHide => ExitPlan {
            add_tab: true,
            grab_focus: false,
            hide: true,
            close_window: false,
        },
        LastTabExitBehavior::Exit => ExitPlan {
            add_tab: false,
            grab_focus: false,
            hide: false,
            close_window: true,
        },
    }
}

/// Says what is to be done once the last tab has been closed.
pub fn exit_plan(behavior: LastTabExitBehavior) -> (plan: ExitPlan)
    ensures
        plan == exit_plan_spec(behavior),
{
    match behavior {
        LastTabExitBehavior::RestartTerminal => ExitPlan {
            add_tab: true,
            grab_focus: true,
            hide: false,
            close_window: false,
        },
        LastTabExitBehavior::RestartTerminalAndHide => ExitPlan {
            add_tab: true,
            grab_focus: false,
            hide: true,
            close_window: false,
        },
        LastTabExitBehavior::Exit => ExitPlan {
            add_tab: false,
            grab_focus: false,
            hide: false,
            close_window: true,
        },
    }
}

/// Whether the bar of tabs is to be shown or hidden when `pages` tabs are
/// open; `None` where it is to be left as it is. Only the mode `Auto`
/// changes it: the bar is shown for two tabs or more.
pub open spec fn tabs_shown_spec(mode: TabMode, pages: nat) -> Option<bool> {
    if mode == TabMode::Auto {
        Some(pages >= 2)
    } else {
        None
    }
}

/// Says whether the bar of tabs is to be shown or hidden for `pages` tabs.
pub fn tabs_shown(mode: TabMode, pages: u32) -> (shown: Option<bool>)
    ensures
        shown == tabs_shown_spec(mode, pages as nat),
{
    match mode {
        TabMode::Auto => Some(pages >= 2),
        _ => None,
    }
}

/// Whether the bar of tabs is shown in a notebook that has just been
/// created: only in the mode `Always`.
pub fn tabs_shown_at_start(mode: TabMode) -> (shown: bool)
    ensures
        shown == (mode == TabMode::Always),
{
    match mode {
        TabMode::Always => true,
        _ => false,
    }
}

/// What the window is to do after a change in the number of tabs.
#[derive(Debug, Clone, Copy, PartialEq, Eq, Structural)]
pub struct TabBarAdjustment {
    /// Whether to show or to hide the bar of tabs; `None` leaves it.
    pub show_tabs: Option<bool>,
    /// What to do because the last tab was closed; `None` while a tab is
    /// open.
    pub last_tab: Option<ExitPlan>,
}

/// What follows for the window from `pages` open tabs.
pub open spec fn adjustment_spec(
    mode: TabMode,
    behavior: LastTabExitBehavior,
    pages: nat,
) -> TabBarAdjustment {
    TabBarAdjustment {
        show_tabs: tabs_shown_spec(mode, pages),
        last_tab: if pages == 0 {
            Some(exit_plan_spec(behavior))
        } else {
            None
        },
    }
}

/// The window's state after the adjustment for `pages` open tabs at the time
/// `now`: hidden, when no tab is left and the configuration asks for a
/// hidden window then; otherwise as before.
pub open spec fn adjusted(ctx: ZohaCtx, pages: nat, now: i64) -> ZohaCtx {
    if pages == 0 && exit_plan_spec(ctx.cfg.behavior.last_tab_exit_behavior).hide && ctx.showing {
        ZohaCtx { showing: false, last_toggle: now, ..ctx }
    } else {
        ctx
    }
}

/// Adjusts the window to the number of open tabs: says whether the bar of
/// tabs is to be shown, and, when no tab is open, what the configuration
/// asks for then. Where that is a hidden window, the window counts as hidden
/// from `now` on, however short a time ago it was last toggled.
pub fn adjust_tab_bar(ctx: &mut ZohaCtx, now: i64) -> (adjustment: Result<TabBarAdjustment, TabError>)
    requires
        old(ctx).wf(),
    ensures
        final(ctx).wf(),
        match adjustment {
            Ok(a) => {
                &&& old(ctx).notebook
                &&& a == adjustment_spec(
                    old(ctx).cfg.display.tab_mode,
                    old(ctx).cfg.behavior.last_tab_exit_behavior,
                    old(ctx).terminals@.len(),
                )
                &&& *final(ctx) == adjusted(*old(ctx), old(ctx).terminals@.len(), now)
            },
            Err(e) => {
                &&& !old(ctx).notebook
                &&& e == TabError::MissingContainerCollaborator
                &&& *final(ctx) == *old(ctx)
            },
        },
{
    if !ctx.notebook {
        return Err(TabError::MissingContainerCollaborator);
    }
    let pages: u32 = ctx.terminals.len();
    let show_tabs = tabs_shown(ctx.cfg.display.tab_mode, pages);
    if pages == 0 {
        let plan = exit_plan(ctx.cfg.behavior.last_tab_exit_behavior);
        if plan.hide {
            let _ = ctx.hide_window(now);
        }
        Ok(TabBarAdjustment { show_tabs, last_tab: Some(plan) })
    } else {
        Ok(TabBarAdjustment { show_tabs, last_tab: None })
    }
}

/// What the window is to do for a tab that has been added.
#[derive(Debug, Clone, Copy, PartialEq, Eq, Structural)]
pub struct TabAdded {
    /// The number of the new terminal.
    pub tab_counter: u64,
    /// The position of the new tab.
    pub position: u32,
    /// Whether the new terminal is to take the keyboard focus.
    pub grab_focus: bool,
    /// Whether to show or to hide the bar of tabs; `None` leaves it.
    pub show_tabs: Option<bool>,
}

/// Where a new tab goes: behind the tab at `current`, the one that has the
/// focus; at the end where no open tab has the focus, so at position 0 in a
/// window without tabs.
pub open spec fn new_tab_position(len: nat, current: Option<u32>) -> int {
    match current {
        Some(c) => if c < len {
            c + 1
        } else {
            len as int
        },
        None => len as int,
    }
}

/// Adds the tab of a new terminal, after the attempt to start the
/// terminal's process.
///
/// The terminal gets the next number, whatever came of the attempt. Where
/// the process did not start (`spawned` is false), or no notebook has been
/// set, the tabs stay as they are. Otherwise the tab goes behind the one at
/// `current`, with `cwd` as the terminal's working directory.
///
/// The counter has to have a number left, and there has to be room for the
/// tab.
pub fn add_tab(
    ctx: &mut ZohaCtx,
    current: Option<u32>,
    spawned: bool,
    cwd: Option<String>,
    grab_focus: bool,
) -> (added: Result<TabAdded, TabError>)
    requires
        old(ctx).wf(),
        old(ctx).next_tab_number() < u64::MAX,
        old(ctx).terminals@.len() < u32::MAX,
    ensures
        final(ctx).wf(),
        final(ctx).next_tab_number() == old(ctx).next_tab_number() + 1,
        *final(ctx) == (ZohaCtx {
            terminals: final(ctx).terminals,
            tab_counter: final(ctx).tab_counter,
            ..*old(ctx)
        }),
        match added {
            Ok(tab) => {
                &&& spawned
                &&& old(ctx).notebook
                &&& tab.tab_counter == old(ctx).next_tab_number()
                &&& tab.position == new_tab_position(old(ctx).terminals@.len(), current)
                &&& tab.grab_focus == grab_focus
                &&& tab.show_tabs == tabs_shown_spec(
                    old(ctx).cfg.display.tab_mode,
                    old(ctx).terminals@.len() + 1,
                )
                &&& forall|i: int|
                    0 <= i < old(ctx).terminals@.len() ==> (#[trigger] old(ctx).terminals@[i]).tab_counter
                        < tab.tab_counter
                &&& final(ctx).terminals@ == renumbered(
                    old(ctx).terminals@.insert(
                        tab.position as int,
                        TerminalModel {
                            tab_counter: tab.tab_counter,
                            position: tab.position,
                            cwd: match cwd {
                                Some(dir) => Some(dir@),
                                None => None,
                            },
                            label: Seq::empty(),
                        },
                    ),
                    old(ctx).terminals.max_chars(),
                )
            },
            Err(e) => {
                &&& final(ctx).terminals == old(ctx).terminals
                &&& e == if !spawned {
                    TabError::SpawnFailure
                } else {
                    TabError::MissingContainerCollaborator
                }
                &&& !spawned || !old(ctx).notebook
            },
        },
{
    let number: u64 = ctx.issue_tab_number();
    if !spawned {
        return Err(TabError::SpawnFailure);
    }
    if !ctx.notebook {
        return Err(TabError::MissingContainerCollaborator);
    }
    let len: u32 = ctx.terminals.len();
    let position: u32 = match current {
        Some(c) => if c < len {
            c + 1
        } else {
            len
        },
        None => len,
    };
    let term = ZohaTerminal::with_number(number, cwd, ctx.cfg.display.tab_title_num_characters);
    let ghost before = ctx.terminals@;
    let ghost model = TerminalModel {
        tab_counter: number,
        position,
        cwd: term@.cwd,
        label: Seq::empty(),
    };
    proof {
        lemma_insert_keeps_issued(
            before,
            position as int,
            term@,
            ctx.terminals.max_chars(),
            number,
        );
        assert(renumbered(before.insert(position as int, term@), ctx.terminals.max_chars())
            =~= renumbered(before.insert(position as int, model), ctx.terminals.max_chars()));
    }
    let inserted = ctx.terminals.insert_at(position, term);
    assert(inserted.is_ok());
    let show_tabs = tabs_shown(ctx.cfg.display.tab_mode, len + 1);
    Ok(TabAdded { tab_counter: number, position, grab_focus, show_tabs })
}

/// What the window is to do for a tab that has been closed.
#[derive(Debug)]
pub struct PageRemoved {
    /// The terminal of the closed tab.
    pub term: ZohaTerminal,
    /// Whether to show or to hide the bar of tabs; `None` leaves it.
    pub show_tabs: Option<bool>,
    /// What to do because the last tab was closed; `None` while a tab is
    /// left.
    pub last_tab: Option<ExitPlan>,
}

/// Takes the tab at `page` out, after the notebook has lost that page, and
/// closes the gap in the positions.
///
/// What the configuration asks for when the last tab is closed is asked for
/// exactly when this tab was the last one: once for the window's last tab,
/// and never while another tab is left.
pub fn on_page_removed(ctx: &mut ZohaCtx, page: u32, now: i64) -> (removed: Result<
    PageRemoved,
    TabError,
>)
    requires
        old(ctx).wf(),
    ensures
        final(ctx).wf(),
        match removed {
            Ok(r) => {
                &&& old(ctx).notebook
                &&& page < old(ctx).terminals@.len()
                &&& r.term@ == old(ctx).terminals@[page as int]
                &&& final(ctx).terminals@ == renumbered(
                    old(ctx).terminals@.remove(page as int),
                    old(ctx).terminals.max_chars(),
                )
                &&& r.show_tabs == tabs_shown_spec(
                    old(ctx).cfg.display.tab_mode,
                    (old(ctx).terminals@.len() - 1) as nat,
                )
                &&& r.last_tab == if old(ctx).terminals@.len() == 1 {
                    Some(exit_plan_spec(old(ctx).cfg.behavior.last_tab_exit_behavior))
                } else {
                    None
                }
                &&& *final(ctx) == adjusted(
                    ZohaCtx { terminals: final(ctx).terminals, ..*old(ctx) },
                    (old(ctx).terminals@.len() - 1) as nat,
                    now,
                )
            },
            Err(e) => {
                &&& *final(ctx) == *old(ctx)
                &&& e == if !old(ctx).notebook {
                    TabError::MissingContainerCollaborator
                } else {
                    TabError::PositionOutOfRange
                }
                &&& !old(ctx).notebook || page >= old(ctx).terminals@.len()
            },
        },
{
    if !ctx.notebook {
        return Err(TabError::MissingContainerCollaborator);
    }
    proof {
        if page < ctx.terminals@.len() {
            lemma_remove_keeps_issued(
                ctx.terminals@,
                page as int,
                ctx.terminals.max_chars(),
                ctx.next_tab_number(),
            );
        }
    }
    match ctx.terminals.remove(page) {
        Err(e) => Err(e),
        Ok(term) => {
            match adjust_tab_bar(ctx, now) {
                Ok(a) => Ok(PageRemoved { term, show_tabs: a.show_tabs, last_tab: a.last_tab }),
                Err(e) => Err(e),
            }
        },
    }
}

/// The position of the tab that an action on the focused tab is about, or
/// why there is none: no notebook has been set; no tab is open; or the
/// notebook names no open tab as the one that has the focus.
pub open spec fn focus_check(notebook: bool, len: nat, current: Option<u32>) -> Result<
    u32,
    TabError,
> {
    if !notebook {
        Err(TabError::MissingContainerCollaborator)
    } else if len == 0 {
        Err(TabError::EmptyRegistryOperation)
    } else {
        match current {
            Some(c) => if c < len {
                Ok(c)
            } else {
                Err(TabError::PositionOutOfRange)
            },
            None => Err(TabError::PositionOutOfRange),
        }
    }
}

/// Finds the position that an action on the focused tab is about, where
/// `current` is the page that the notebook names as the current one.
pub fn focused_position(ctx: &ZohaCtx, current: Option<u32>) -> (position: Result<u32, TabError>)
    requires
        ctx.wf(),
    ensures
        position == focus_check(ctx.notebook, ctx.terminals@.len(), current),
{
    if !ctx.notebook {
        return Err(TabError::MissingContainerCollaborator);
    }
    let len: u32 = ctx.terminals.len();
    if len == 0 {
        return Err(TabError::EmptyRegistryOperation);
    }
    match current {
        Some(c) => if c < len {
            Ok(c)
        } else {
            Err(TabError::PositionOutOfRange)
        },
        None => Err(TabError::PositionOutOfRange),
    }
}

/// The terminal of the tab that has the focus, for an action on it such as
/// copying or pasting.
pub fn get_term(ctx: &ZohaCtx, current: Option<u32>) -> (term: Result<&ZohaTerminal, TabError>)
    requires
        ctx.wf(),
    ensures
        match term {
            Ok(t) => focus_check(ctx.notebook, ctx.terminals@.len(), current).is_ok() && t@
                == ctx.terminals@[current.unwrap() as int],
            Err(e) => focus_check(ctx.notebook, ctx.terminals@.len(), current) == Err::<
                u32,
                TabError,
            >(e),
        },
{
    match focused_position(ctx, current) {
        Err(e) => Err(e),
        Ok(position) => match ctx.terminals.lookup_by_position(position) {
            Some(term) => Ok(term),
            None => Err(TabError::PositionOutOfRange),
        },
    }
}

/// Closes the tab that has the focus: takes it out as `on_page_removed`
/// does, where `current` names an open tab.
pub fn close_tab(ctx: &mut ZohaCtx, current: Option<u32>, now: i64) -> (closed: Result<
    PageRemoved,
    TabError,
>)
    requires
        old(ctx).wf(),
    ensures
        final(ctx).wf(),
        match closed {
            Ok(r) => {
                &&& focus_check(old(ctx).notebook, old(ctx).terminals@.len(), current).is_ok()
                &&& r.term@ == old(ctx).terminals@[current.unwrap() as int]
                &&& final(ctx).terminals@ == renumbered(
                    old(ctx).terminals@.remove(current.unwrap() as int),
                    old(ctx).terminals.max_chars(),
                )
                &&& r.show_tabs == tabs_shown_spec(
                    old(ctx).cfg.display.tab_mode,
                    (old(ctx).terminals@.len() - 1) as nat,
                )
                &&& r.last_tab == if old(ctx).terminals@.len() == 1 {
                    Some(exit_plan_spec(old(ctx).cfg.behavior.last_tab_exit_behavior))
                } else {
                    None
                }
                &&& *final(ctx) == adjusted(
                    ZohaCtx { terminals: final(ctx).terminals, ..*old(ctx) },
                    (old(ctx).terminals@.len() - 1) as nat,
                    now,
                )
            },
            Err(e) => {
                &&& *final(ctx) == *old(ctx)
                &&& focus_check(old(ctx).notebook, old(ctx).terminals@.len(), current) == Err::<
                    u32,
                    TabError,
                >(e)
            },
        },
{
    match focused_position(ctx, current) {
        Err(e) => Err(e),
        Ok(position) => on_page_removed(ctx, position, now),
    }
}

/// Takes out the tab of the terminal numbered `hbox`, whose process has
/// ended or was killed, as `on_page_removed` does for its position.
pub fn remove_page_by_hbox(ctx: &mut ZohaCtx, hbox: u64, now: i64) -> (removed: Result<
    PageRemoved,
    TabError,
>)
    requires
        old(ctx).wf(),
    ensures
        final(ctx).wf(),
        match removed {
            Ok(r) => {
                &&& old(ctx).notebook
                &&& r.term@.tab_counter == hbox
                &&& r.term@.position < old(ctx).terminals@.len()
                &&& r.term@ == old(ctx).terminals@[r.term@.position as int]
                &&& final(ctx).terminals@ == renumbered(
                    old(ctx).terminals@.remove(r.term@.position as int),
                    old(ctx).terminals.max_chars(),
                )
                &&& r.show_tabs == tabs_shown_spec(
                    old(ctx).cfg.display.tab_mode,
                    (old(ctx).terminals@.len() - 1) as nat,
                )
                &&& r.last_tab == if old(ctx).terminals@.len() == 1 {
                    Some(exit_plan_spec(old(ctx).cfg.behavior.last_tab_exit_behavior))
                } else {
                    None
                }
                &&& *final(ctx) == adjusted(
                    ZohaCtx { terminals: final(ctx).terminals, ..*old(ctx) },
                    (old(ctx).terminals@.len() - 1) as nat,
                    now,
                )
            },
            Err(e) => {
                &&& *final(ctx) == *old(ctx)
                &&& e == if !old(ctx).notebook {
                    TabError::MissingContainerCollaborator
                } else {
                    TabError::PositionOutOfRange
                }
                &&& !old(ctx).notebook || forall|i: int|
                    0 <= i < old(ctx).terminals@.len() ==> (#[trigger] old(ctx).terminals@[i]).tab_counter
                        != hbox
            },
        },
{
    if !ctx.notebook {
        return Err(TabError::MissingContainerCollaborator);
    }
    match ctx.terminals.lookup_by_identity(hbox) {
        None => Err(TabError::PositionOutOfRange),
        Some(page) => {
            proof {
                lemma_positions_dense(ctx.terminals@, ctx.terminals.max_chars());
            }
            on_page_removed(ctx, page, now)
        },
    }
}

/// Moves the tab at `old_position` to `new_position`, as the user dragged
/// it, and gives every tab that moved the title of its new place.
pub fn reorder_drag(ctx: &mut ZohaCtx, old_position: u32, new_position: u32) -> (moved: Result<
    (),
    TabError,
>)
    requires
        old(ctx).wf(),
    ensures
        final(ctx).wf(),
        *final(ctx) == (ZohaCtx { terminals: final(ctx).terminals, ..*old(ctx) }),
        match moved {
            Ok(_) => {
                &&& old_position < old(ctx).terminals@.len()
                &&& new_position < old(ctx).terminals@.len()
                &&& final(ctx).terminals@ == renumbered(
                    rotated(old(ctx).terminals@, old_position as int, new_position as int),
                    old(ctx).terminals.max_chars(),
                )
            },
            Err(e) => {
                &&& final(ctx).terminals == old(ctx).terminals
                &&& e == TabError::PositionOutOfRange
                &&& (old_position >= old(ctx).terminals@.len() || new_position >= old(
                    ctx,
                ).terminals@.len())
            },
        },
{
    proof {
        if old_position < ctx.terminals@.len() && new_position < ctx.terminals@.len() {
            lemma_reorder_keeps_issued(
                ctx.terminals@,
                old_position as int,
                new_position as int,
                ctx.terminals.max_chars(),
                ctx.next_tab_number(),
            );
        }
    }
    ctx.terminals.reorder(old_position, new_position)
}

/// Follows the notebook after it has moved the page of the terminal
/// numbered `child` to `new_position`, and reports the position that the
/// tab had before.
pub fn on_page_reorder(ctx: &mut ZohaCtx, child: u64, new_position: u32) -> (moved: Result<
    u32,
    TabError,
>)
    requires
        old(ctx).wf(),
    ensures
        final(ctx).wf(),
        *final(ctx) == (ZohaCtx { terminals: final(ctx).terminals, ..*old(ctx) }),
        match moved {
            Ok(old_idx) => {
                &&& old_idx < old(ctx).terminals@.len()
                &&& new_position < old(ctx).terminals@.len()
                &&& old(ctx).terminals@[old_idx as int].tab_counter == child
                &&& final(ctx).terminals@ == renumbered(
                    rotated(old(ctx).terminals@, old_idx as int, new_position as int),
                    old(ctx).terminals.max_chars(),
                )
            },
            Err(e) => {
                &&& final(ctx).terminals == old(ctx).terminals
                &&& e == TabError::PositionOutOfRange
                &&& new_position >= old(ctx).terminals@.len() || forall|i: int|
                    0 <= i < old(ctx).terminals@.len() ==> (#[trigger] old(ctx).terminals@[i]).tab_counter
                        != child
            },
        },
{
    match ctx.terminals.lookup_by_identity(child) {
        None => Err(TabError::PositionOutOfRange),
        Some(old_idx) => match reorder_drag(ctx, old_idx, new_position) {
            Ok(_) => Ok(old_idx),
            Err(e) => Err(e),
        },
    }
}

/// Says where the notebook is to move the page that has the focus, for a
/// move of one place forward or backward.
///
/// Forward from the last place leads to the first. Backward from the first
/// place leads to the place one past the last tab: no tab stands there, and
/// it is for the notebook to say where the page ends up.
pub fn move_tab(ctx: &ZohaCtx, current: Option<u32>, fwd: bool) -> (target: Result<u32, TabError>)
    requires
        ctx.wf(),
    ensures
        match target {
            Ok(new_index) => {
                &&& focus_check(ctx.notebook, ctx.terminals@.len(), current).is_ok()
                &&& new_index == move_target_spec(current.unwrap(), ctx.terminals@.len(), fwd)
            },
            Err(e) => focus_check(ctx.notebook, ctx.terminals@.len(), current) == Err::<
                u32,
                TabError,
            >(e),
        },
{
    match focused_position(ctx, current) {
        Err(e) => Err(e),
        Ok(idx) => Ok(move_target(idx, ctx.terminals.len(), fwd)),
    }
}

/// Says where the notebook is to move the focused page for a move of one
/// place backward.
pub fn move_backward(ctx: &ZohaCtx, current: Option<u32>) -> (target: Result<u32, TabError>)
    requires
        ctx.wf(),
    ensures
        match target {
            Ok(new_index) => {
                &&& focus_check(ctx.notebook, ctx.terminals@.len(), current).is_ok()
                &&& new_index == move_target_spec(current.unwrap(), ctx.terminals@.len(), false)
            },
            Err(e) => focus_check(ctx.notebook, ctx.terminals@.len(), current) == Err::<
                u32,
                TabError,
            >(e),
        },
{
    move_tab(ctx, current, false)
}

/// Says where the notebook is to move the focused page for a move of one
/// place forward.
pub fn move_forward(ctx: &ZohaCtx, current: Option<u32>) -> (target: Result<u32, TabError>)
    requires
        ctx.wf(),
    ensures
        match target {
            Ok(new_index) => {
                &&& focus_check(ctx.notebook, ctx.terminals@.len(), current).is_ok()
                &&& new_index == move_target_spec(current.unwrap(), ctx.terminals@.len(), true)
            },
            Err(e) => focus_check(ctx.notebook, ctx.terminals@.len(), current) == Err::<
                u32,
                TabError,
            >(e),
        },
{
    move_tab(ctx, current, true)
}

/// The page that gets the focus when the user asks for the next tab: the
/// one behind the current page, and none when the current page is the last
/// or no open tab has the focus.
pub fn goto_next(ctx: &ZohaCtx, current: Option<u32>) -> (page: Result<Option<u32>, TabError>)
    requires
        ctx.wf(),
    ensures
        page == if !ctx.notebook {
            Err::<Option<u32>, TabError>(TabError::MissingContainerCollaborator)
        } else if current.is_some() && current.unwrap() + 1 < ctx.terminals@.len() {
            Ok(Some((current.unwrap() + 1) as u32))
        } else {
            Ok(None)
        },
{
    if !ctx.notebook {
        return Err(TabError::MissingContainerCollaborator);
    }
    let len: u32 = ctx.terminals.len();
    match current {
        Some(c) => if c < len && c + 1 < len {
            Ok(Some(c + 1))
        } else {
            Ok(None)
        },
        None => Ok(None),
    }
}

/// The page that gets the focus when the user asks for the previous tab:
/// the one before the current page, and none when the current page is the
/// first or no open tab has the focus.
pub fn goto_previous(ctx: &ZohaCtx, current: Option<u32>) -> (page: Result<Option<u32>, TabError>)
    requires
        ctx.wf(),
    ensures
        page == if !ctx.notebook {
            Err::<Option<u32>, TabError>(TabError::MissingContainerCollaborator)
        } else if current.is_some() && 0 < current.unwrap() < ctx.terminals@.len() {
            Ok(Some((current.unwrap() - 1) as u32))
        } else {
            Ok(None)
        },
{
    if !ctx.notebook {
        return Err(TabError::MissingContainerCollaborator);
    }
    let len: u32 = ctx.terminals.len();
    match current {
        Some(c) => if 0 < c && c < len {
            Ok(Some(c - 1))
        } else {
            Ok(None)
        },
        None => Ok(None),
    }
}

/// The page that gets the focus when the user asks for the last tab.
pub fn goto_last(ctx: &ZohaCtx) -> (page: Result<u32, TabError>)
    requires
        ctx.wf(),
    ensures
        page == if !ctx.notebook {
            Err::<u32, TabError>(TabError::MissingContainerCollaborator)
        } else if ctx.terminals@.len() == 0 {
            Err(TabError::EmptyRegistryOperation)
        } else {
            Ok((ctx.terminals@.len() - 1) as u32)
        },
{
    if !ctx.notebook {
        return Err(TabError::MissingContainerCollaborator);
    }
    let pages: u32 = ctx.terminals.len();
    if pages == 0 {
        return Err(TabError::EmptyRegistryOperation);
    }
    Ok(pages - 1)
}

/// The page that gets the focus when the user asks for tab number `n`,
/// counted from one: page `n - 1` where `n` is below the number of open
/// tabs, and none for a greater `n`. There is no tab number zero.
pub fn goto_n(ctx: &ZohaCtx, n: usize) -> (page: Result<Option<u32>, TabError>)
    requires
        ctx.wf(),
    ensures
        page == if !ctx.notebook {
            Err::<Option<u32>, TabError>(TabError::MissingContainerCollaborator)
        } else if n == 0 {
            Err(TabError::PositionOutOfRange)
        } else if n < ctx.terminals@.len() {
            Ok(Some((n - 1) as u32))
        } else {
            Ok(None)
        },
{
    if !ctx.notebook {
        return Err(TabError::MissingContainerCollaborator);
    }
    if n == 0 {
        return Err(TabError::PositionOutOfRange);
    }
    let pages: u32 = ctx.terminals.len();
    if n < pages as usize {
        Ok(Some((n - 1) as u32))
    } else {
        Ok(None)
    }
}

/// Switches the transparency of the terminals on or off, and reports
/// whether it is on now.
pub fn toggle_transparency(ctx: &mut ZohaCtx) -> (enabled: bool)
    ensures
        enabled == !old(ctx).transparency_enabled,
        *final(ctx) == (ZohaCtx { transparency_enabled: enabled, ..*old(ctx) }),
{
    let enabled = !ctx.transparency_enabled;
    ctx.transparency_enabled = enabled;
    enabled
}

/// Records the working directory that was found for the terminal of the
/// tab at `position`, and refreshes the title of that tab.
pub fn set_label(ctx: &mut ZohaCtx, position: u32, cwd: Option<String>) -> (done: Result<(), TabError>)
    requires
        old(ctx).wf(),
    ensures
        final(ctx).wf(),
        *final(ctx) == (ZohaCtx { terminals: final(ctx).terminals, ..*old(ctx) }),
        match done {
            Ok(_) => {
                &&& position < old(ctx).terminals@.len()
                &&& final(ctx).terminals@ == old(ctx).terminals@.update(
                    position as int,
                    placed(
                        TerminalModel {
                            tab_counter: old(ctx).terminals@[position as int].tab_counter,
                            position,
                            cwd: match cwd {
                                Some(dir) => Some(dir@),
                                None => None,
                            },
                            label: Seq::empty(),
                        },
                        position,
                        old(ctx).terminals.max_chars(),
                    ),
                )
            },
            Err(e) => {
                &&& e == TabError::PositionOutOfRange
                &&& position >= old(ctx).terminals@.len()
                &&& final(ctx).terminals == old(ctx).terminals
            },
        },
{
    ctx.terminals.set_cwd(position, cwd)
}

/// The directory in which the terminal of a new tab starts: the working
/// directory of the terminal that has the focus, where that is known, and
/// else the configured one.
pub fn new_tab_dir(ctx: &ZohaCtx, current: Option<u32>) -> (dir: Option<String>)
    requires
        ctx.wf(),
    ensures
        match dir {
            Some(d) => Some(d@),
            None => None,
        } == if current.is_some() && current.unwrap() < ctx.terminals@.len()
            && ctx.terminals@[current.unwrap() as int].cwd.is_some() {
            ctx.terminals@[current.unwrap() as int].cwd
        } else {
            match ctx.cfg.process.working_dir {
                Some(d) => Some(d@),
                None => None,
            }
        },
{
    let focused: Option<String> = match current {
        Some(c) => match ctx.terminals.lookup_by_position(c) {
            Some(term) => term.get_cwd(),
            None => None,
        },
        None => None,
    };
    match focused {
        Some(dir) => Some(dir),
        None => match &ctx.cfg.process.working_dir {
            Some(dir) => Some(dir.clone()),
            None => None,
        },
    }
}

} // verus!
