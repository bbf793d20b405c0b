use vstd::prelude::*;

use crate::config::cfg::text_of;
use crate::config::cfg::CfgKey;

verus! {

/// What a shortcut can ask of the window.
#[derive(Debug, Clone, Copy, PartialEq, Eq, Structural)]
pub enum ZohaAction {
    Quit,
    TabAdd,
    TabClose,
    TabMoveForward,
    TabMoveBackward,
    TabGotoNext,
    TabGotoPrevious,
    TabGotoLast,
    TabGoto01,
    TabGoto02,
    TabGoto03,
    TabGoto04,
    TabGoto05,
    TabGoto06,
    TabGoto07,
    TabGoto08,
    Copy,
    Paste,
    TransparencyToggle,
    FontInc,
    FontDec,
    FontReset,
}

/// Every action, in the order in which the shortcuts are bound.
pub open spec fn all_actions() -> Seq<ZohaAction> {
    seq![
        ZohaAction::Quit,
        ZohaAction::TabAdd,
        ZohaAction::TabClose,
        ZohaAction::TabMoveForward,
        ZohaAction::TabMoveBackward,
        ZohaAction::TabGotoNext,
        ZohaAction::TabGotoPrevious,
        ZohaAction::TabGotoLast,
        ZohaAction::TabGoto01,
        ZohaAction::TabGoto02,
        ZohaAction::TabGoto03,
        ZohaAction::TabGoto04,
        ZohaAction::TabGoto05,
        ZohaAction::TabGoto06,
        ZohaAction::TabGoto07,
        ZohaAction::TabGoto08,
        ZohaAction::Copy,
        ZohaAction::Paste,
        ZohaAction::TransparencyToggle,
        ZohaAction::FontInc,
        ZohaAction::FontDec,
        ZohaAction::FontReset,
    ]
}

impl ZohaAction {
    /// The name under which the window knows the action.
    pub open spec fn spec_name(&self) -> Seq<char> {
        match self {
            ZohaAction::Quit => "quit"@,
            ZohaAction::TabAdd => "zoha.tab_add"@,
            ZohaAction::TabClose => "zoha.tab_close"@,
            ZohaAction::TabMoveForward => "zoha.tab_move_forward"@,
            ZohaAction::TabMoveBackward => "zoha.tab_move_backward"@,
            ZohaAction::TabGotoNext => "zoha.tab_goto_next"@,
            ZohaAction::TabGotoPrevious => "zoha.tab_goto_previous"@,
            ZohaAction::TabGotoLast => "zoha.tab_goto_last"@,
            ZohaAction::TabGoto01 => "zoha.tab_goto_01"@,
            ZohaAction::TabGoto02 => "zoha.tab_goto_02"@,
            ZohaAction::TabGoto03 => "zoha.tab_goto_03"@,
            ZohaAction::TabGoto04 => "zoha.tab_goto_04"@,
            ZohaAction::TabGoto05 => "zoha.tab_goto_05"@,
            ZohaAction::TabGoto06 => "zoha.tab_goto_06"@,
            ZohaAction::TabGoto07 => "zoha.tab_goto_07"@,
            ZohaAction::TabGoto08 => "zoha.tab_goto_08"@,
            ZohaAction::Copy => "zoha.copy"@,
            ZohaAction::Paste => "zoha.paste"@,
            ZohaAction::TransparencyToggle => "zoha.transparency"@,
            ZohaAction::FontInc => "zoha.font_inc"@,
            ZohaAction::FontDec => "zoha.font_dec"@,
            ZohaAction::FontReset => "zoha.font_reset"@,
        }
    }

    /// The name under which the window knows the action.
    pub fn name(&self) -> (name: &'static str)
        ensures
            name@ == self.spec_name(),
    {
        match self {
            ZohaAction::Quit => "quit",
            ZohaAction::TabAdd => "zoha.tab_add",
            ZohaAction::TabClose => "zoha.tab_close",
            ZohaAction::TabMoveForward => "zoha.tab_move_forward",
            ZohaAction::TabMoveBackward => "zoha.tab_move_backward",
            ZohaAction::TabGotoNext => "zoha.tab_goto_next",
            ZohaAction::TabGotoPrevious => "zoha.tab_goto_previous",
            ZohaAction::TabGotoLast => "zoha.tab_goto_last",
            ZohaAction::TabGoto01 => "zoha.tab_goto_01",
            ZohaAction::TabGoto02 => "zoha.tab_goto_02",
            ZohaAction::TabGoto03 => "zoha.tab_goto_03",
            ZohaAction::TabGoto04 => "zoha.tab_goto_04",
            ZohaAction::TabGoto05 => "zoha.tab_goto_05",
            ZohaAction::TabGoto06 => "zoha.tab_goto_06",
            ZohaAction::TabGoto07 => "zoha.tab_goto_07",
            ZohaAction::TabGoto08 => "zoha.tab_goto_08",
            ZohaAction::Copy => "zoha.copy",
            ZohaAction::Paste => "zoha.paste",
            ZohaAction::TransparencyToggle => "zoha.transparency",
            ZohaAction::FontInc => "zoha.font_inc",
            ZohaAction::FontDec => "zoha.font_dec",
            ZohaAction::FontReset => "zoha.font_reset",
        }
    }

    /// The shortcut that the configuration gives the action, if any.
    pub open spec fn spec_key(&self, keys: CfgKey) -> Option<Seq<char>> {
        match self {
            ZohaAction::Quit => text_of(keys.quit),
            ZohaAction::TabAdd => text_of(keys.tab_add),
            ZohaAction::TabClose => text_of(keys.tab_close),
            ZohaAction::TabMoveForward => text_of(keys.tab_move_forward),
            ZohaAction::TabMoveBackward => text_of(keys.tab_move_backward),
            ZohaAction::TabGotoNext => text_of(keys.tab_goto_next),
            ZohaAction::TabGotoPrevious => text_of(keys.tab_goto_previous),
            ZohaAction::TabGotoLast => text_of(keys.tab_goto_last),
            ZohaAction::TabGoto01 => text_of(keys.tab_goto_01),
            ZohaAction::TabGoto02 => text_of(keys.tab_goto_02),
            ZohaAction::TabGoto03 => text_of(keys.tab_goto_03),
            ZohaAction::TabGoto04 => text_of(keys.tab_goto_04),
            ZohaAction::TabGoto05 => text_of(keys.tab_goto_05),
            ZohaAction::TabGoto06 => text_of(keys.tab_goto_06),
            ZohaAction::TabGoto07 => text_of(keys.tab_goto_07),
            ZohaAction::TabGoto08 => text_of(keys.tab_goto_08),
            ZohaAction::Copy => text_of(keys.copy),
            ZohaAction::Paste => text_of(keys.paste),
            ZohaAction::TransparencyToggle => text_of(keys.transparency_toggle),
            ZohaAction::FontInc => text_of(keys.font_size_inc),
            ZohaAction::FontDec => text_of(keys.font_size_dec),
            ZohaAction::FontReset => text_of(keys.font_size_reset),
        }
    }

    /// The shortcut that the configuration gives the action, if any.
    pub fn key(&self, keys: &CfgKey) -> (key: Option<String>)
        ensures
            text_of(key) == self.spec_key(*keys),
    {
        let configured: &Option<String> = match self {
            ZohaAction::Quit => &keys.quit,
            ZohaAction::TabAdd => &keys.tab_add,
            ZohaAction::TabClose => &keys.tab_close,
            ZohaAction::TabMoveForward => &keys.tab_move_forward,
            ZohaAction::TabMoveBackward => &keys.tab_move_backward,
            ZohaAction::TabGotoNext => &keys.tab_goto_next,
            ZohaAction::TabGotoPrevious => &keys.tab_goto_previous,
            ZohaAction::TabGotoLast => &keys.tab_goto_last,
            ZohaAction::TabGoto01 => &keys.tab_goto_01,
            ZohaAction::TabGoto02 => &keys.tab_goto_02,
            ZohaAction::TabGoto03 => &keys.tab_goto_03,
            ZohaAction::TabGoto04 => &keys.tab_goto_04,
            ZohaAction::TabGoto05 => &keys.tab_goto_05,
            ZohaAction::TabGoto06 => &keys.tab_goto_06,
            ZohaAction::TabGoto07 => &keys.tab_goto_07,
            ZohaAction::TabGoto08 => &keys.tab_goto_08,
            ZohaAction::Copy => &keys.copy,
            ZohaAction::Paste => &keys.paste,
            ZohaAction::TransparencyToggle => &keys.transparency_toggle,
            ZohaAction::FontInc => &keys.font_size_inc,
            ZohaAction::FontDec => &keys.font_size_dec,
            ZohaAction::FontReset => &keys.font_size_reset,
        };
        match configured {
            Some(key) => Some(key.clone()),
            None => None,
        }
    }

    /// The number of the tab, counted from one, that the action goes to;
    /// `None` for an action that goes to no numbered tab.
    pub fn goto_page(&self) -> (page: Option<usize>)
        ensures
            page == match self {
                ZohaAction::TabGoto01 => Some(1usize),
                ZohaAction::TabGoto02 => Some(2usize),
                ZohaAction::TabGoto03 => Some(3usize),
                ZohaAction::TabGoto04 => Some(4usize),
                ZohaAction::TabGoto05 => Some(5usize),
                ZohaAction::TabGoto06 => Some(6usize),
                ZohaAction::TabGoto07 => Some(7usize),
                ZohaAction::TabGoto08 => Some(8usize),
                _ => None,
            },
    {
        match self {
            ZohaAction::TabGoto01 => Some(1),
            ZohaAction::TabGoto02 => Some(2),
            ZohaAction::TabGoto03 => Some(3),
            ZohaAction::TabGoto04 => Some(4),
            ZohaAction::TabGoto05 => Some(5),
            ZohaAction::TabGoto06 => Some(6),
            ZohaAction::TabGoto07 => Some(7),
            ZohaAction::TabGoto08 => Some(8),
            _ => None,
        }
    }

    /// Every action, in the order in which the shortcuts are bound.
    pub fn all() -> (actions: Vec<ZohaAction>)
        ensures
            actions@ == all_actions(),
    {
        let actions = vec![
            ZohaAction::Quit,
            ZohaAction::TabAdd,
            ZohaAction::TabClose,
            ZohaAction::TabMoveForward,
            ZohaAction::TabMoveBackward,
            ZohaAction::TabGotoNext,
            ZohaAction::TabGotoPrevious,
            ZohaAction::TabGotoLast,
            ZohaAction::TabGoto01,
            ZohaAction::TabGoto02,
            ZohaAction::TabGoto03,
            ZohaAction::TabGoto04,
            ZohaAction::TabGoto05,
            ZohaAction::TabGoto06,
            ZohaAction::TabGoto07,
            ZohaAction::TabGoto08,
            ZohaAction::Copy,
            ZohaAction::Paste,
            ZohaAction::TransparencyToggle,
            ZohaAction::FontInc,
            ZohaAction::FontDec,
            ZohaAction::FontReset,
        ];
        assert(actions@ =~= all_actions());
        actions
    }
}

/// An action together with the shortcut that asks for it.
#[derive(Debug)]
pub struct Accel {
    pub action: ZohaAction,
    pub key: String,
}

/// The shortcuts of the first `n` of `actions`: of each action that the
/// configuration gives a shortcut, the action and the shortcut, in the order
/// of `actions`.
pub open spec fn bound(keys: CfgKey, actions: Seq<ZohaAction>, n: nat) -> Seq<(ZohaAction, Seq<char>)>
    decreases n,
{
    if n == 0 || n > actions.len() {
        Seq::empty()
    } else {
        let before = bound(keys, actions, (n - 1) as nat);
        match actions[n - 1].spec_key(keys) {
            Some(key) => before.push((actions[n - 1], key)),
            None => before,
        }
    }
}

/// What the contracts read of a list of shortcuts.
pub open spec fn accel_views(accels: Seq<Accel>) -> Seq<(ZohaAction, Seq<char>)> {
    Seq::new(accels.len(), |i: int| (accels[i].action, accels[i].key@))
}

/// The shortcuts that the application is to bind: one for each action that
/// the configuration gives a shortcut, in the order of the actions. An
/// action whose shortcut is switched off is left out.
pub fn set_app_actions(keys: &CfgKey) -> (accels: Vec<Accel>)
    ensures
        accel_views(accels@) == bound(*keys, all_actions(), all_actions().len()),
{
    let actions = ZohaAction::all();
    let mut accels: Vec<Accel> = Vec::new();
    let mut i: usize = 0;
    assert(accel_views(accels@) =~= bound(*keys, all_actions(), 0));
    while i < actions.len()
        invariant
            i <= actions@.len(),
            actions@ == all_actions(),
            accel_views(accels@) == bound(*keys, all_actions(), i as nat),
        decreases actions@.len() - i,
    {
        let ghost before = accel_views(accels@);
        let action = actions[i];
        match action.key(keys) {
            Some(key) => {
                accels.push(Accel { action, key });
                assert(accel_views(accels@) =~= before.push((action, key@)));
            },
            None => {},
        }
        i += 1;
    }
    accels
}

} // verus!
