use zoha::config::cfg::LastTabExitBehavior;
use zoha::config::cfg::TabMode;
use zoha::config::cfg::ZohaCfg;
use zoha::toggle;
use zoha::ui::window::add_tab;
use zoha::ui::window::adjust_tab_bar;
use zoha::ui::window::close_tab;
use zoha::ui::window::exit_plan;
use zoha::ui::window::get_term;
use zoha::ui::window::goto_last;
use zoha::ui::window::goto_n;
use zoha::ui::window::goto_next;
use zoha::ui::window::goto_previous;
use zoha::ui::window::move_backward;
use zoha::ui::window::move_forward;
use zoha::ui::window::move_tab;
use zoha::ui::window::new_tab_dir;
use zoha::ui::window::on_page_removed;
use zoha::ui::window::on_page_reorder;
use zoha::ui::window::remove_page_by_hbox;
use zoha::ui::window::reorder_drag;
use zoha::ui::window::set_label;
use zoha::ui::window::tabs_shown;
use zoha::ui::window::tabs_shown_at_start;
use zoha::ui::window::toggle_transparency;
use zoha::ui::window::ExitPlan;
use zoha::ui::registry::TabError;
use zoha::TabCounter;
use zoha::ToggleAction;
use zoha::ZohaCtx;

fn context(behavior: LastTabExitBehavior) -> ZohaCtx {
    let mut cfg = ZohaCfg::defaults("/bin/sh".to_string());
    cfg.behavior.last_tab_exit_behavior = behavior;
    cfg.display.tab_title_num_characters = None;
    let mut ctx = ZohaCtx::new(cfg, 0);
    ctx.set_window().unwrap();
    ctx.set_notebook();
    ctx
}

fn context_with_tabs(count: u32) -> ZohaCtx {
    let mut ctx = context(LastTabExitBehavior::RestartTerminal);
    for _ in 0..count {
        let last = ctx.terminals.len().checked_sub(1);
        add_tab(&mut ctx, last, true, None, true).unwrap();
    }
    ctx
}

fn numbers(ctx: &ZohaCtx) -> Vec<u64> {
    (0..ctx.terminals.len())
        .map(|position| ctx.terminals.lookup_by_position(position).unwrap().tab_counter)
        .collect()
}

fn positions(ctx: &ZohaCtx) -> Vec<u32> {
    (0..ctx.terminals.len())
        .map(|position| ctx.terminals.lookup_by_position(position).unwrap().position)
        .collect()
}

#[test]
fn tab_numbers_start_at_one_and_grow() {
    let mut counter = TabCounter::new();
    assert!(counter.has_next());
    assert_eq!(counter.issue(), 1);
    assert_eq!(counter.issue(), 2);
    assert_eq!(counter.issue(), 3);
    let mut ctx = context(LastTabExitBehavior::Exit);
    let first = ctx.issue_tab_number();
    let second = ctx.issue_tab_number();
    assert_eq!((first, second), (1, 2));
    assert!(second > first);
}

#[test]
fn tab_numbers_are_not_reused_after_a_close() {
    let mut ctx = context_with_tabs(3);
    assert_eq!(numbers(&ctx), vec![1, 2, 3]);
    close_tab(&mut ctx, Some(0), 10).unwrap();
    let added = add_tab(&mut ctx, Some(1), true, None, true).unwrap();
    assert_eq!(added.tab_counter, 4);
    assert_eq!(numbers(&ctx), vec![2, 3, 4]);
}

#[test]
fn toggle_is_debounced() {
    let mut ctx = context(LastTabExitBehavior::RestartTerminal);
    assert!(ctx.showing);
    assert_eq!(ctx.last_toggle, -3_600_000);
    assert_eq!(ctx.request_toggle(0), Some(ToggleAction::Hide));
    assert!(!ctx.showing);
    assert_eq!(ctx.request_toggle(30), None);
    assert!(!ctx.showing);
    assert_eq!(ctx.last_toggle, 0);
    assert_eq!(ctx.request_toggle(60), Some(ToggleAction::Show));
    assert!(ctx.showing);
    assert_eq!(ctx.last_toggle, 60);
}

#[test]
fn toggle_waits_exactly_fifty_milliseconds() {
    let mut ctx = context(LastTabExitBehavior::RestartTerminal);
    assert_eq!(toggle(&mut ctx, 1_000), Ok(Some(ToggleAction::Hide)));
    assert_eq!(toggle(&mut ctx, 1_049), Ok(None));
    assert_eq!(toggle(&mut ctx, 1_050), Ok(Some(ToggleAction::Show)));
}

#[test]
fn toggle_ignores_a_clock_that_went_backwards() {
    let mut ctx = context(LastTabExitBehavior::RestartTerminal);
    assert_eq!(toggle(&mut ctx, 5_000), Ok(Some(ToggleAction::Hide)));
    assert_eq!(toggle(&mut ctx, 4_000), Ok(None));
    assert_eq!(ctx.last_toggle, 5_000);
    assert!(!ctx.showing);
}

#[test]
fn toggle_copes_with_the_ends_of_time() {
    let cfg = ZohaCfg::defaults("/bin/sh".to_string());
    let mut ctx = ZohaCtx::new(cfg, i64::MIN);
    assert_eq!(ctx.last_toggle, i64::MIN);
    assert_eq!(ctx.request_toggle(i64::MIN), None);
    assert_eq!(ctx.request_toggle(i64::MAX), Some(ToggleAction::Hide));
    assert_eq!(ctx.last_toggle, i64::MAX);
}

#[test]
fn toggle_without_a_window_is_reported() {
    let cfg = ZohaCfg::defaults("/bin/sh".to_string());
    let mut ctx = ZohaCtx::new(cfg, 0);
    assert_eq!(toggle(&mut ctx, 100), Err(TabError::MissingContainerCollaborator));
    assert!(ctx.showing);
    assert!(!ctx.get_window());
    ctx.set_window().unwrap();
    assert!(ctx.get_window());
    assert_eq!(ctx.set_window(), Err(TabError::WindowAlreadySet));
    assert_eq!(toggle(&mut ctx, 100), Ok(Some(ToggleAction::Hide)));
}

#[test]
fn hiding_at_once_ignores_the_debounce() {
    let mut ctx = context(LastTabExitBehavior::RestartTerminal);
    assert_eq!(ctx.request_toggle(100), Some(ToggleAction::Hide));
    assert_eq!(ctx.request_toggle(200), Some(ToggleAction::Show));
    assert_eq!(ctx.hide_window(210), Some(ToggleAction::Hide));
    assert!(!ctx.showing);
    assert_eq!(ctx.last_toggle, 210);
    assert_eq!(ctx.hide_window(400), None);
    assert_eq!(ctx.last_toggle, 210);
}

#[test]
fn exit_policy_has_three_outcomes() {
    assert_eq!(
        exit_plan(LastTabExitBehavior::RestartTerminal),
        ExitPlan { add_tab: true, grab_focus: true, hide: false, close_window: false }
    );
    assert_eq!(
        exit_plan(LastTabExitBehavior::RestartTerminalAndHide),
        ExitPlan { add_tab: true, grab_focus: false, hide: true, close_window: false }
    );
    assert_eq!(
        exit_plan(LastTabExitBehavior::Exit),
        ExitPlan { add_tab: false, grab_focus: false, hide: false, close_window: true }
    );
}

#[test]
fn exit_policy_triggers_only_for_the_last_tab() {
    let mut ctx = context_with_tabs(3);
    let first = close_tab(&mut ctx, Some(1), 10).unwrap();
    assert_eq!(first.term.tab_counter, 2);
    assert_eq!(first.last_tab, None);
    let second = close_tab(&mut ctx, Some(0), 20).unwrap();
    assert_eq!(second.last_tab, None);
    let third = close_tab(&mut ctx, Some(0), 30).unwrap();
    assert_eq!(third.last_tab, Some(exit_plan(LastTabExitBehavior::RestartTerminal)));
    assert!(ctx.terminals.is_empty());
    assert!(ctx.showing);
    assert_eq!(close_tab(&mut ctx, Some(0), 40).err(), Some(TabError::EmptyRegistryOperation));
}

#[test]
fn restart_and_hide_hides_the_window_at_once() {
    let mut ctx = context(LastTabExitBehavior::RestartTerminalAndHide);
    add_tab(&mut ctx, None, true, None, true).unwrap();
    assert_eq!(ctx.request_toggle(100), Some(ToggleAction::Hide));
    assert_eq!(ctx.request_toggle(200), Some(ToggleAction::Show));
    let closed = on_page_removed(&mut ctx, 0, 210).unwrap();
    assert_eq!(closed.last_tab, Some(exit_plan(LastTabExitBehavior::RestartTerminalAndHide)));
    assert!(!ctx.showing);
    assert_eq!(ctx.last_toggle, 210);
}

#[test]
fn exit_leaves_the_window_state_alone() {
    let mut ctx = context(LastTabExitBehavior::Exit);
    add_tab(&mut ctx, None, true, None, true).unwrap();
    let closed = remove_page_by_hbox(&mut ctx, 1, 50).unwrap();
    assert_eq!(closed.term.tab_counter, 1);
    assert_eq!(closed.last_tab.map(|plan| plan.close_window), Some(true));
    assert!(ctx.showing);
    assert_eq!(ctx.last_toggle, -3_600_000);
}

#[test]
fn a_new_tab_goes_behind_the_focused_one() {
    let mut ctx = context_with_tabs(3);
    let added = add_tab(&mut ctx, Some(0), true, Some("/tmp".to_string()), false).unwrap();
    assert_eq!(added.position, 1);
    assert_eq!(added.tab_counter, 4);
    assert!(!added.grab_focus);
    assert_eq!(numbers(&ctx), vec![1, 4, 2, 3]);
    assert_eq!(positions(&ctx), vec![0, 1, 2, 3]);
    assert_eq!(ctx.terminals.lookup_by_position(1).unwrap().label, "[2] - 4@/tmp");
    assert_eq!(ctx.terminals.lookup_by_position(2).unwrap().label, "[3/2]");
}

#[test]
fn a_new_tab_without_a_focused_one_goes_to_the_end() {
    let mut ctx = context(LastTabExitBehavior::RestartTerminal);
    assert_eq!(add_tab(&mut ctx, None, true, None, true).unwrap().position, 0);
    assert_eq!(add_tab(&mut ctx, None, true, None, true).unwrap().position, 1);
    assert_eq!(add_tab(&mut ctx, Some(7), true, None, true).unwrap().position, 2);
    assert_eq!(numbers(&ctx), vec![1, 2, 3]);
}

#[test]
fn a_failed_spawn_adds_no_tab() {
    let mut ctx = context_with_tabs(2);
    let failed = add_tab(&mut ctx, Some(0), false, None, true);
    assert_eq!(failed, Err(TabError::SpawnFailure));
    assert_eq!(numbers(&ctx), vec![1, 2]);
    let added = add_tab(&mut ctx, Some(0), true, None, true).unwrap();
    assert_eq!(added.tab_counter, 4);
}

#[test]
fn tabs_need_a_notebook() {
    let cfg = ZohaCfg::defaults("/bin/sh".to_string());
    let mut ctx = ZohaCtx::new(cfg, 0);
    assert!(!ctx.get_notebook());
    assert_eq!(
        add_tab(&mut ctx, None, true, None, true),
        Err(TabError::MissingContainerCollaborator)
    );
    assert_eq!(
        close_tab(&mut ctx, Some(0), 0).err(),
        Some(TabError::MissingContainerCollaborator)
    );
    assert_eq!(move_tab(&ctx, Some(0), true), Err(TabError::MissingContainerCollaborator));
    assert_eq!(goto_last(&ctx), Err(TabError::MissingContainerCollaborator));
    assert_eq!(adjust_tab_bar(&mut ctx, 0).err(), Some(TabError::MissingContainerCollaborator));
    assert!(ctx.terminals.is_empty());
}

#[test]
fn the_tab_bar_follows_the_number_of_tabs() {
    assert_eq!(tabs_shown(TabMode::Auto, 0), Some(false));
    assert_eq!(tabs_shown(TabMode::Auto, 1), Some(false));
    assert_eq!(tabs_shown(TabMode::Auto, 2), Some(true));
    assert_eq!(tabs_shown(TabMode::Always, 1), None);
    assert_eq!(tabs_shown(TabMode::Never, 5), None);
    assert!(tabs_shown_at_start(TabMode::Always));
    assert!(!tabs_shown_at_start(TabMode::Auto));
    assert!(!tabs_shown_at_start(TabMode::Never));
    let mut ctx = context(LastTabExitBehavior::RestartTerminal);
    assert_eq!(add_tab(&mut ctx, None, true, None, true).unwrap().show_tabs, Some(false));
    assert_eq!(add_tab(&mut ctx, None, true, None, true).unwrap().show_tabs, Some(true));
    assert_eq!(close_tab(&mut ctx, Some(0), 5).unwrap().show_tabs, Some(false));
    let adjustment = adjust_tab_bar(&mut ctx, 6).unwrap();
    assert_eq!(adjustment.show_tabs, Some(false));
    assert_eq!(adjustment.last_tab, None);
}

#[test]
fn a_drag_reorders_by_the_number_of_the_terminal() {
    let mut ctx = context_with_tabs(4);
    assert_eq!(on_page_reorder(&mut ctx, 1, 2), Ok(0));
    assert_eq!(numbers(&ctx), vec![2, 3, 1, 4]);
    assert_eq!(positions(&ctx), vec![0, 1, 2, 3]);
    assert_eq!(on_page_reorder(&mut ctx, 9, 0), Err(TabError::PositionOutOfRange));
    assert_eq!(on_page_reorder(&mut ctx, 1, 4), Err(TabError::PositionOutOfRange));
    assert_eq!(numbers(&ctx), vec![2, 3, 1, 4]);
}

#[test]
fn move_requests_name_the_target_for_the_notebook() {
    let ctx = context_with_tabs(3);
    assert_eq!(move_forward(&ctx, Some(0)), Ok(1));
    assert_eq!(move_forward(&ctx, Some(2)), Ok(0));
    assert_eq!(move_backward(&ctx, Some(2)), Ok(1));
    assert_eq!(move_backward(&ctx, Some(0)), Ok(3));
    assert_eq!(move_tab(&ctx, None, true), Err(TabError::PositionOutOfRange));
    assert_eq!(move_tab(&ctx, Some(3), true), Err(TabError::PositionOutOfRange));
    let empty = context(LastTabExitBehavior::Exit);
    assert_eq!(move_tab(&empty, Some(0), true), Err(TabError::EmptyRegistryOperation));
}

#[test]
fn goto_names_the_page_to_focus() {
    let ctx = context_with_tabs(3);
    assert_eq!(goto_next(&ctx, Some(0)), Ok(Some(1)));
    assert_eq!(goto_next(&ctx, Some(2)), Ok(None));
    assert_eq!(goto_next(&ctx, None), Ok(None));
    assert_eq!(goto_previous(&ctx, Some(2)), Ok(Some(1)));
    assert_eq!(goto_previous(&ctx, Some(0)), Ok(None));
    assert_eq!(goto_last(&ctx), Ok(2));
    assert_eq!(goto_n(&ctx, 1), Ok(Some(0)));
    assert_eq!(goto_n(&ctx, 2), Ok(Some(1)));
    assert_eq!(goto_n(&ctx, 3), Ok(None));
    assert_eq!(goto_n(&ctx, 0), Err(TabError::PositionOutOfRange));
    let empty = context(LastTabExitBehavior::Exit);
    assert_eq!(goto_last(&empty), Err(TabError::EmptyRegistryOperation));
}

#[test]
fn the_focused_terminal_is_found() {
    let ctx = context_with_tabs(2);
    assert_eq!(get_term(&ctx, Some(1)).map(|term| term.tab_counter), Ok(2));
    assert_eq!(get_term(&ctx, Some(2)).err(), Some(TabError::PositionOutOfRange));
    assert_eq!(get_term(&ctx, None).err(), Some(TabError::PositionOutOfRange));
}

#[test]
fn a_new_terminal_starts_where_the_focused_one_is() {
    let mut ctx = context_with_tabs(2);
    ctx.cfg.process.working_dir = Some("/srv".to_string());
    assert_eq!(new_tab_dir(&ctx, Some(0)), Some("/srv".to_string()));
    set_label(&mut ctx, 0, Some("/home/me".to_string())).unwrap();
    assert_eq!(ctx.terminals.lookup_by_position(0).unwrap().label, "[1] - 1@/home/me");
    assert_eq!(new_tab_dir(&ctx, Some(0)), Some("/home/me".to_string()));
    assert_eq!(new_tab_dir(&ctx, Some(1)), Some("/srv".to_string()));
    assert_eq!(new_tab_dir(&ctx, None), Some("/srv".to_string()));
    assert_eq!(set_label(&mut ctx, 2, None), Err(TabError::PositionOutOfRange));
}

#[test]
fn transparency_flips() {
    let mut ctx = context(LastTabExitBehavior::Exit);
    assert!(ctx.transparency_enabled);
    assert!(!toggle_transparency(&mut ctx));
    assert!(!ctx.transparency_enabled);
    assert!(toggle_transparency(&mut ctx));
}

#[test]
fn a_window_starts_hidden_where_the_configuration_says_so() {
    let mut cfg = ZohaCfg::defaults("/bin/sh".to_string());
    cfg.display.start_hidden = true;
    cfg.display.fullscreen = true;
    let mut ctx = ZohaCtx::new(cfg, 1_000);
    assert!(!ctx.showing);
    assert!(ctx.fullscreen);
    assert_eq!(ctx.last_toggle, 1_000 - 3_600_000);
    assert_eq!(ctx.request_toggle(1_000), Some(ToggleAction::Show));
    assert!(ctx.showing);
}

#[test]
fn a_drag_reorders_by_position() {
    let mut ctx = context_with_tabs(4);
    assert_eq!(reorder_drag(&mut ctx, 0, 2), Ok(()));
    assert_eq!(numbers(&ctx), vec![2, 3, 1, 4]);
    assert_eq!(positions(&ctx), vec![0, 1, 2, 3]);
    assert_eq!(reorder_drag(&mut ctx, 3, 0), Ok(()));
    assert_eq!(numbers(&ctx), vec![4, 2, 3, 1]);
    assert_eq!(reorder_drag(&mut ctx, 4, 0), Err(TabError::PositionOutOfRange));
    assert_eq!(reorder_drag(&mut ctx, 0, 4), Err(TabError::PositionOutOfRange));
    assert_eq!(numbers(&ctx), vec![4, 2, 3, 1]);
    let labels: Vec<String> = (0..4)
        .map(|position| ctx.terminals.lookup_by_position(position).unwrap().label.clone())
        .collect();
    assert_eq!(labels, vec!["[1/4]", "[2/2]", "[3/3]", "[4/1]"]);
}

#[test]
fn every_operation_keeps_the_positions_dense() {
    let mut ctx = context_with_tabs(5);
    let steps: [(u32, u32); 6] = [(0, 4), (3, 1), (2, 2), (4, 0), (1, 3), (0, 1)];
    for (from, to) in steps {
        reorder_drag(&mut ctx, from, to).unwrap();
        let count = ctx.terminals.len();
        assert_eq!(positions(&ctx), (0..count).collect::<Vec<u32>>());
        close_tab(&mut ctx, Some(to % count), 0).unwrap();
        let count = ctx.terminals.len();
        assert_eq!(positions(&ctx), (0..count).collect::<Vec<u32>>());
        add_tab(&mut ctx, Some(from % count.max(1)), true, None, false).unwrap();
        let count = ctx.terminals.len();
        assert_eq!(positions(&ctx), (0..count).collect::<Vec<u32>>());
        let mut sorted = numbers(&ctx);
        sorted.sort_unstable();
        sorted.dedup();
        assert_eq!(sorted.len(), count as usize);
    }
}
