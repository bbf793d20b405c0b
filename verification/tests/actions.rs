use zoha::config::cfg::CfgKey;
use zoha::config::cfg::MonitorChoice;
use zoha::config::cfg::ZohaCfg;
use zoha::config::text::cut_before_dash;
use zoha::config::text::read_number;
use zoha::ui::actions::set_app_actions;
use zoha::ui::actions::ZohaAction;

#[test]
fn every_action_has_its_name() {
    let names: Vec<&str> = ZohaAction::all().iter().map(|action| action.name()).collect();
    assert_eq!(
        names,
        vec![
            "quit",
            "zoha.tab_add",
            "zoha.tab_close",
            "zoha.tab_move_forward",
            "zoha.tab_move_backward",
            "zoha.tab_goto_next",
            "zoha.tab_goto_previous",
            "zoha.tab_goto_last",
            "zoha.tab_goto_01",
            "zoha.tab_goto_02",
            "zoha.tab_goto_03",
            "zoha.tab_goto_04",
            "zoha.tab_goto_05",
            "zoha.tab_goto_06",
            "zoha.tab_goto_07",
            "zoha.tab_goto_08",
            "zoha.copy",
            "zoha.paste",
            "zoha.transparency",
            "zoha.font_inc",
            "zoha.font_dec",
            "zoha.font_reset",
        ]
    );
}

#[test]
fn default_shortcuts_are_all_bound() {
    let keys = CfgKey::defaults();
    let accels = set_app_actions(&keys);
    assert_eq!(accels.len(), 22);
    assert_eq!(accels[0].action, ZohaAction::Quit);
    assert_eq!(accels[0].key, "<Ctrl><Shift><Alt>q");
    assert_eq!(accels[3].action, ZohaAction::TabMoveForward);
    assert_eq!(accels[3].key, "<Ctrl><Shift>Page_Down");
    assert_eq!(accels[4].action, ZohaAction::TabMoveBackward);
    assert_eq!(accels[4].key, "<Ctrl><Shift>Page_Up");
    assert_eq!(accels[18].action, ZohaAction::TransparencyToggle);
    assert_eq!(accels[21].key, "<Ctrl><Alt>0");
}

#[test]
fn switched_off_shortcuts_are_left_out() {
    let mut keys = CfgKey::defaults();
    keys.quit = None;
    keys.tab_goto_03 = None;
    keys.paste = Some("<Ctrl>v".to_string());
    let accels = set_app_actions(&keys);
    assert_eq!(accels.len(), 20);
    assert_eq!(accels[0].action, ZohaAction::TabAdd);
    assert!(accels.iter().all(|accel| accel.action != ZohaAction::TabGoto03));
    let paste = accels.iter().find(|accel| accel.action == ZohaAction::Paste).unwrap();
    assert_eq!(paste.key, "<Ctrl>v");
    assert_eq!(ZohaAction::Quit.key(&keys), None);
    assert_eq!(ZohaAction::Copy.key(&keys), Some("<Ctrl><Shift>c".to_string()));
}

#[test]
fn goto_actions_name_their_tab() {
    assert_eq!(ZohaAction::TabGoto01.goto_page(), Some(1));
    assert_eq!(ZohaAction::TabGoto08.goto_page(), Some(8));
    assert_eq!(ZohaAction::TabGotoLast.goto_page(), None);
    assert_eq!(ZohaAction::Copy.goto_page(), None);
}

#[test]
fn numbers_are_read_in_a_base() {
    assert_eq!(read_number("0", 10, 255), Some(0));
    assert_eq!(read_number("255", 10, 255), Some(255));
    assert_eq!(read_number("256", 10, 255), None);
    assert_eq!(read_number("+007", 10, 255), Some(7));
    assert_eq!(read_number("1a", 10, 255), None);
    assert_eq!(read_number("1a", 16, 255), Some(26));
    assert_eq!(read_number("", 10, 255), None);
    assert_eq!(read_number("-1", 10, 255), None);
    assert_eq!(read_number("101", 2, 255), Some(5));
    assert_eq!(read_number("102", 2, 255), None);
}

#[test]
fn monitor_lines_are_cut_before_the_dash() {
    assert_eq!(cut_before_dash("2 - DP-5"), "2");
    assert_eq!(cut_before_dash("DP-5"), "DP-5");
    assert_eq!(cut_before_dash("a - b - c"), "a");
    assert_eq!(cut_before_dash(" - x"), "");
    assert_eq!(cut_before_dash("a -"), "a -");
    assert_eq!(cut_before_dash(""), "");
}

#[test]
fn the_monitor_is_chosen_by_number_or_model() {
    let mut cfg = ZohaCfg::defaults("/bin/sh".to_string());
    assert!(matches!(cfg.display.get_monitor(), MonitorChoice::Primary));
    cfg.display.monitor = Some("2 - DP-5".to_string());
    assert!(matches!(cfg.display.get_monitor(), MonitorChoice::Index(2)));
    cfg.display.monitor = Some("HDMI-1".to_string());
    assert!(matches!(cfg.display.get_monitor(), MonitorChoice::Model(model) if model == "HDMI-1"));
    cfg.display.monitor = Some("300".to_string());
    assert!(matches!(cfg.display.get_monitor(), MonitorChoice::Model(model) if model == "300"));
    cfg.display.monitor = Some("eDP - 1".to_string());
    assert!(matches!(cfg.display.get_monitor(), MonitorChoice::Model(model) if model == "eDP"));
}
