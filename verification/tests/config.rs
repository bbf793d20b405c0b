use zoha::config::args::ZohaArgs;
use zoha::config::cfg::cfg_location;
use zoha::config::cfg::color_from_code;
use zoha::config::cfg::default_key_codes;
use zoha::config::cfg::extent;
use zoha::config::cfg::font_description;
use zoha::config::cfg::sanitize_key;
use zoha::config::cfg::try_parse_color;
use zoha::config::cfg::try_parse_color_or_default;
use zoha::config::cfg::CfgKey;
use zoha::config::cfg::CfgReadError;
use zoha::config::cfg::CfgRgba;
use zoha::config::cfg::CursorShape;
use zoha::config::cfg::EraseBinding;
use zoha::config::cfg::LastTabExitBehavior;
use zoha::config::cfg::RawCfg;
use zoha::config::cfg::ScrollbarPosition;
use zoha::config::cfg::TabMode;
use zoha::config::cfg::TabPosition;
use zoha::config::cfg::TerminalExitBehavior;
use zoha::config::cfg::ZohaCfg;
use zoha::config::cfg::KEY_DEFAULTS;
use zoha::config::color::unpack;
use zoha::config::color::Pallet;
use zoha::config::color::Rgb16;
use zoha::config::text::contains_text;
use zoha::config::text::hex_code;
use zoha::config::text::is_blank;

fn texts(items: &[&str]) -> Vec<String> {
    items.iter().map(|item| item.to_string()).collect()
}

fn parts(color: &CfgRgba) -> Option<Rgb16> {
    match color {
        CfgRgba::Parts(parts) => Some(*parts),
        CfgRgba::Text(_) => None,
    }
}

fn text(color: &CfgRgba) -> Option<String> {
    match color {
        CfgRgba::Parts(_) => None,
        CfgRgba::Text(text) => Some(text.clone()),
    }
}

#[test]
fn all_pallets_are_listed() {
    assert_eq!(
        Pallet::all(),
        vec![
            Pallet::Tango,
            Pallet::Zenburn,
            Pallet::Linux,
            Pallet::XTerm,
            Pallet::RXVT,
            Pallet::SolarizedLight,
            Pallet::SolarizedDark,
            Pallet::Snazzy,
        ]
    );
}

#[test]
fn pallets_have_sixteen_colours() {
    for pallet in Pallet::all() {
        assert_eq!(pallet.colors().len(), 16);
    }
    let tango = Pallet::Tango.colors();
    assert_eq!(tango[0], Rgb16 { red: 0x2e2e, green: 0x3434, blue: 0x3636 });
    assert_eq!(tango[6], Rgb16 { red: 0x0606, green: 0x9820, blue: 0x9a9a });
    assert_eq!(tango[15], Rgb16 { red: 0xeeee, green: 0xeeee, blue: 0xecec });
    let zenburn = Pallet::Zenburn.colors();
    assert_eq!(zenburn[7], Rgb16 { red: 0xffff, green: 0xffff, blue: 0xffff });
    let snazzy = Pallet::Snazzy.colors();
    assert_eq!(snazzy[15], Rgb16 { red: 0xf1f1, green: 0xf1f1, blue: 0xf0f0 });
    assert_eq!(unpack(0x0001_0002_0003), Rgb16 { red: 1, green: 2, blue: 3 });
}

#[test]
fn choices_are_named() {
    assert_eq!(Pallet::SolarizedDark.to_string(), "SolarizedDark");
    assert_eq!(TabMode::Auto.to_string(), "Auto");
    assert_eq!(TabPosition::Bottom.to_string(), "Bottom");
    assert_eq!(CursorShape::IBeam.to_string(), "IBeam");
    assert_eq!(EraseBinding::DeleteSequence.to_string(), "DeleteSequence");
    assert_eq!(ScrollbarPosition::Hidden.to_string(), "Hidden");
    assert_eq!(TerminalExitBehavior::ExitTerminal.to_string(), "ExitTerminal");
    assert_eq!(LastTabExitBehavior::RestartTerminalAndHide.to_string(), "RestartTerminalAndHide");
}

#[test]
fn only_a_missing_home_config_counts_as_no_config() {
    let missing = CfgReadError::NoConfigInHomeDir { location: "/home/me/.zoha.toml".to_string() };
    assert!(missing.is_no_config());
    assert!(!CfgReadError::NoHomeDir.is_no_config());
    let overridden = CfgReadError::OverriddenCfgDoesNotExist { location: "/x".to_string() };
    assert!(!overridden.is_no_config());
    let unreadable = CfgReadError::FileReadError {
        location: "/x".to_string(),
        error: "denied".to_string(),
    };
    assert!(!unreadable.is_no_config());
}

#[test]
fn read_errors_say_what_went_wrong() {
    assert_eq!(
        CfgReadError::OverriddenCfgDoesNotExist { location: "/x".to_string() }.to_string(),
        "overridden config location is specified but it does not exist: /x"
    );
    assert_eq!(
        CfgReadError::NoHomeDir.to_string(),
        "no config location specified and user has no home directory"
    );
    assert_eq!(
        CfgReadError::NoConfigInHomeDir { location: "/h/.zoha.toml".to_string() }.to_string(),
        "overridden config not specified and no config file in user home directory, looked for: /h/.zoha.toml"
    );
    assert_eq!(
        CfgReadError::FileReadError { location: "/x".to_string(), error: "denied".to_string() }
            .to_string(),
        "error reading the config file, tried to read: /x, error: denied"
    );
}

#[test]
fn the_config_location_is_chosen() {
    assert_eq!(cfg_location(Some("/x".to_string()), true, None, false).ok(), Some("/x".to_string()));
    assert!(matches!(
        cfg_location(Some("/x".to_string()), false, Some("/h".to_string()), true),
        Err(CfgReadError::OverriddenCfgDoesNotExist { location }) if location == "/x"
    ));
    assert!(matches!(cfg_location(None, false, None, false), Err(CfgReadError::NoHomeDir)));
    assert!(matches!(
        cfg_location(None, false, Some("/h/.zoha.toml".to_string()), false),
        Err(CfgReadError::NoConfigInHomeDir { location }) if location == "/h/.zoha.toml"
    ));
    assert_eq!(
        cfg_location(None, false, Some("/h/.zoha.toml".to_string()), true).ok(),
        Some("/h/.zoha.toml".to_string())
    );
}

#[test]
fn blank_texts_are_recognised() {
    assert!(is_blank(""));
    assert!(is_blank(" \t\n\u{a0}\u{3000}"));
    assert!(!is_blank(" a "));
    assert!(!is_blank("\u{200b}"));
}

#[test]
fn texts_are_found_in_lists() {
    let list = texts(&["<Ctrl>a", "<Alt>b"]);
    assert!(contains_text(&list, "<Alt>b"));
    assert!(!contains_text(&list, "<alt>b"));
    assert!(!contains_text(&Vec::new(), ""));
}

#[test]
fn hexadecimal_codes_are_read() {
    assert_eq!(hex_code("0"), Some(0));
    assert_eq!(hex_code("ff"), Some(255));
    assert_eq!(hex_code("FfFf"), Some(0xffff));
    assert_eq!(hex_code("+1a"), Some(26));
    assert_eq!(hex_code("00000000000012"), Some(18));
    assert_eq!(hex_code("10000"), None);
    assert_eq!(hex_code("ffffffffff"), None);
    assert_eq!(hex_code(""), None);
    assert_eq!(hex_code("+"), None);
    assert_eq!(hex_code("-1"), None);
    assert_eq!(hex_code("12g"), None);
    assert_eq!(hex_code("1 2"), None);
    assert_eq!(hex_code("fffff1g"), None);
}

#[test]
fn colours_are_read() {
    let accepted = texts(&["red", "rgba(1,2,3,0.5)"]);
    assert!(try_parse_color(None, &accepted).is_none());
    let coded = try_parse_color(Some("#x1234".to_string()), &accepted).unwrap();
    assert_eq!(parts(&coded), Some(Rgb16 { red: 0, green: 0x12, blue: 0x34 }));
    assert_eq!(color_from_code(0xffff), Rgb16 { red: 0, green: 255, blue: 255 });
    assert!(try_parse_color(Some("#x12345".to_string()), &accepted).is_none());
    assert!(try_parse_color(Some("#xzz".to_string()), &accepted).is_none());
    assert!(try_parse_color(Some("#x".to_string()), &accepted).is_none());
    let named = try_parse_color(Some("red".to_string()), &accepted).unwrap();
    assert_eq!(text(&named), Some("red".to_string()));
    assert!(try_parse_color(Some("reddish".to_string()), &accepted).is_none());
    assert!(try_parse_color(Some("#".to_string()), &accepted).is_none());
    let fallback = try_parse_color_or_default(Some("nope".to_string()), "rgba(0,0,0,1.0)", &accepted);
    assert_eq!(text(&fallback), Some("rgba(0,0,0,1.0)".to_string()));
    let kept = try_parse_color_or_default(Some("red".to_string()), "rgba(0,0,0,1.0)", &accepted);
    assert_eq!(text(&kept), Some("red".to_string()));
    assert_eq!(text(&kept.duplicate()), Some("red".to_string()));
}

#[test]
fn shortcuts_are_sanitized() {
    let accepted = texts(&["<Ctrl>a", "<Ctrl>b", "<Ctrl>d"]);
    let mut seen = Vec::new();
    assert_eq!(sanitize_key(None, "<Ctrl>d", &accepted, &mut seen), Some("<Ctrl>d".to_string()));
    assert!(seen.is_empty());
    assert_eq!(sanitize_key(None, "<Ctrl>x", &accepted, &mut seen), None);
    assert_eq!(sanitize_key(Some("  ".to_string()), "<Ctrl>d", &accepted, &mut seen), None);
    assert_eq!(
        sanitize_key(Some("<Ctrl>a".to_string()), "<Ctrl>d", &accepted, &mut seen),
        Some("<Ctrl>a".to_string())
    );
    assert_eq!(seen, texts(&["<Ctrl>a"]));
    assert_eq!(sanitize_key(Some("<Ctrl>a".to_string()), "<Ctrl>d", &accepted, &mut seen), None);
    assert_eq!(
        sanitize_key(Some("bogus".to_string()), "<Ctrl>d", &accepted, &mut seen),
        Some("<Ctrl>d".to_string())
    );
    assert_eq!(sanitize_key(Some("bogus".to_string()), "<Ctrl>x", &accepted, &mut seen), None);
    assert_eq!(seen, texts(&["<Ctrl>a"]));
}

#[test]
fn window_extents_follow_the_monitor() {
    assert_eq!(extent(1920, None, None), 1920);
    assert_eq!(extent(0, None, None), 1);
    assert_eq!(extent(-5, None, Some(10)), 1);
    assert_eq!(extent(1920, None, Some(800)), 800);
    assert_eq!(extent(1920, None, Some(4000)), 1920);
    assert_eq!(extent(1920, Some(100), Some(800)), 1920);
    assert_eq!(extent(1920, Some(99), None), 0);
    assert_eq!(extent(1920, Some(101), None), 1920);
    assert_eq!(extent(i32::MAX, Some(255), None), i32::MAX as u32);
    let mut cfg = ZohaCfg::defaults("/bin/sh".to_string());
    cfg.display.width = Some(640);
    cfg.display.height_percentage = Some(100);
    assert_eq!(cfg.display.get_width(1280), 640);
    assert_eq!(cfg.display.get_height(720), 720);
}

#[test]
fn fonts_are_described() {
    assert_eq!(font_description(None, None), "Monospace Regular 16");
    assert_eq!(font_description(Some("Hack".to_string()), Some(0)), "Hack 1");
    assert_eq!(font_description(Some("Hack Bold".to_string()), Some(255)), "Hack Bold 255");
}

#[test]
fn the_default_toggle_key_is_f1() {
    assert_eq!(default_key_codes(), vec!["F1".to_string()]);
}

#[test]
fn defaults_are_complete() {
    let cfg = ZohaCfg::defaults("/bin/zsh".to_string());
    assert_eq!(cfg.font.font, "Monospace Regular 16");
    assert_eq!(cfg.process.command, "/bin/zsh");
    assert_eq!(cfg.process.working_dir, None);
    assert_eq!(cfg.display.title, "Zoha");
    assert_eq!(cfg.display.monitor, None);
    assert_eq!((cfg.display.x_pos, cfg.display.y_pos), (0, 0));
    assert!(!cfg.display.start_hidden);
    assert!(cfg.display.skip_task_bar);
    assert!(cfg.display.always_on_top);
    assert!(cfg.display.sticky);
    assert!(!cfg.display.fullscreen);
    assert!(cfg.display.tab_scroll_wrap);
    assert_eq!(cfg.display.tab_mode, TabMode::Auto);
    assert_eq!(cfg.display.tab_position, TabPosition::Top);
    assert!(!cfg.display.tab_expand);
    assert_eq!(cfg.display.tab_title_num_characters, Some(25));
    assert_eq!(cfg.display.scrollbar_position, ScrollbarPosition::Hidden);
    assert_eq!(text(&cfg.color.bg), Some("rgba(0,0,0,1.0)".to_string()));
    assert_eq!(text(&cfg.color.fg), Some("rgba(255,255,255,1.0)".to_string()));
    assert_eq!(text(&cfg.color.cursor), Some("rgba(0,0,0,1.0)".to_string()));
    assert_eq!(cfg.color.pallet, Pallet::Tango);
    assert!(cfg.color.color_00.is_none());
    assert!(cfg.color.color_15.is_none());
    assert_eq!(cfg.keys.copy, Some("<Ctrl><Shift>c".to_string()));
    assert_eq!(cfg.keys.tab_goto_08, Some("<Ctrl><Alt>8".to_string()));
    assert_eq!(cfg.keys.font_size_reset, Some("<Ctrl><Alt>0".to_string()));
    assert!(cfg.terminal.allow_hyper_link);
    assert!(!cfg.terminal.audible_bell);
    assert!(!cfg.terminal.cursor_blink);
    assert_eq!(cfg.terminal.cursor_shape, CursorShape::Block);
    assert!(!cfg.terminal.scroll_on_output);
    assert!(cfg.terminal.scroll_on_keystroke);
    assert!(!cfg.terminal.mouse_auto_hide);
    assert_eq!(cfg.terminal.scrollback_lines, -1);
    assert_eq!(cfg.terminal.backspace_binding, EraseBinding::Auto);
    assert_eq!(cfg.terminal.delete_binding, EraseBinding::Auto);
    assert_eq!(cfg.terminal.word_char_exceptions, "-A-Za-z0-9,./?%&#:_");
    assert_eq!(cfg.behavior.terminal_exit_behavior, TerminalExitBehavior::ExitTerminal);
    assert_eq!(cfg.behavior.last_tab_exit_behavior, LastTabExitBehavior::RestartTerminal);
    assert_eq!(cfg.hack.toggle, vec!["F1".to_string()]);
}

#[test]
fn an_empty_file_gives_the_defaults_but_for_the_title_limit() {
    let accelerators: Vec<String> = KEY_DEFAULTS.iter().map(|key| key.to_string()).collect();
    let cfg = ZohaCfg::from_raw(RawCfg::default(), "/bin/sh".to_string(), &accelerators, &Vec::new());
    assert_eq!(cfg.display.tab_title_num_characters, None);
    assert_eq!(cfg.font.font, "Monospace Regular 16");
    assert_eq!(cfg.display.title, "Zoha");
    assert_eq!(cfg.keys.copy, Some("<Ctrl><Shift>c".to_string()));
    assert_eq!(cfg.keys.quit, Some("<Ctrl><Shift><Alt>q".to_string()));
    assert_eq!(cfg.keys.tab_move_backward, Some("<Ctrl><Shift>Page_Up".to_string()));
    assert_eq!(cfg.keys.font_size_inc, Some("<Ctrl><Alt>equal".to_string()));
    assert_eq!(text(&cfg.color.bg), Some("rgba(0,0,0,1.0)".to_string()));
    assert_eq!(cfg.hack.toggle, vec!["F1".to_string()]);
}

#[test]
fn a_file_overrides_the_defaults() {
    let mut raw = RawCfg::default();
    raw.font.font = Some("Hack".to_string());
    raw.font.size = Some(11);
    raw.display.title = Some("Term".to_string());
    raw.display.x_pos = Some(12);
    raw.display.tab_mode = Some(TabMode::Always);
    raw.display.tab_title_num_characters = Some(-8);
    raw.display.monitor = Some("1 - DP-1".to_string());
    raw.color.bg = Some("#x0a0b".to_string());
    raw.color.fg = Some("white".to_string());
    raw.color.cursor = Some("unknown".to_string());
    raw.color.pallet = Some(Pallet::Linux);
    raw.color.color_03 = Some("white".to_string());
    raw.color.color_04 = Some("unknown".to_string());
    raw.process.working_dir = Some("/srv".to_string());
    raw.keys.copy = Some("<Ctrl>c".to_string());
    raw.keys.paste = Some("<Ctrl>c".to_string());
    raw.keys.quit = Some("".to_string());
    raw.keys.tab_add = Some("not a key".to_string());
    raw.terminal.scrollback_lines = Some(500);
    raw.terminal.cursor_shape = Some(CursorShape::Underline);
    raw.terminal.word_char_exceptions = Some("-_".to_string());
    raw.behavior.last_tab_exit_behavior = Some(LastTabExitBehavior::Exit);
    raw.hack.toggle = Some(texts(&["LControl", "F2"]));
    let mut accelerators: Vec<String> = KEY_DEFAULTS.iter().map(|key| key.to_string()).collect();
    accelerators.push("<Ctrl>c".to_string());
    let cfg = ZohaCfg::from_raw(raw, "/bin/fish".to_string(), &accelerators, &texts(&["white"]));
    assert_eq!(cfg.font.font, "Hack 11");
    assert_eq!(cfg.display.title, "Term");
    assert_eq!(cfg.display.x_pos, 12);
    assert_eq!(cfg.display.y_pos, 0);
    assert_eq!(cfg.display.tab_mode, TabMode::Always);
    assert_eq!(cfg.display.tab_title_num_characters, Some(-8));
    assert_eq!(cfg.display.monitor, Some("1 - DP-1".to_string()));
    assert_eq!(parts(&cfg.color.bg), Some(Rgb16 { red: 0, green: 0x0a, blue: 0x0b }));
    assert_eq!(text(&cfg.color.fg), Some("white".to_string()));
    assert_eq!(text(&cfg.color.cursor), Some("rgba(0,0,0,1.0)".to_string()));
    assert_eq!(cfg.color.pallet, Pallet::Linux);
    assert_eq!(cfg.color.color_03.as_ref().and_then(text), Some("white".to_string()));
    assert!(cfg.color.color_04.is_none());
    assert_eq!(cfg.process.command, "/bin/fish");
    assert_eq!(cfg.process.working_dir, Some("/srv".to_string()));
    assert_eq!(cfg.keys.copy, Some("<Ctrl>c".to_string()));
    assert_eq!(cfg.keys.paste, None);
    assert_eq!(cfg.keys.quit, None);
    assert_eq!(cfg.keys.tab_add, Some("<Ctrl><Shift>t".to_string()));
    assert_eq!(cfg.keys.tab_close, Some("<Ctrl><Shift>w".to_string()));
    assert_eq!(cfg.terminal.scrollback_lines, 500);
    assert_eq!(cfg.terminal.cursor_shape, CursorShape::Underline);
    assert_eq!(cfg.terminal.word_char_exceptions, "-_");
    assert_eq!(cfg.behavior.last_tab_exit_behavior, LastTabExitBehavior::Exit);
    assert_eq!(cfg.hack.toggle, texts(&["LControl", "F2"]));
}

#[test]
fn shortcuts_fall_back_only_where_the_toolkit_reads_the_default() {
    let mut raw = RawCfg::default();
    raw.keys.copy = Some("<Ctrl>c".to_string());
    let keys = CfgKey::from_raw(raw.keys, &texts(&["<Ctrl>c", "<Ctrl><Shift>v"]));
    assert_eq!(keys.copy, Some("<Ctrl>c".to_string()));
    assert_eq!(keys.paste, Some("<Ctrl><Shift>v".to_string()));
    assert_eq!(keys.quit, None);
    assert_eq!(keys.font_size_reset, None);
    assert_eq!(CfgKey::defaults().tab_goto_last, Some("<Ctrl><Alt>9".to_string()));
}

#[test]
fn the_user_pallet_takes_the_configured_colours() {
    let mut cfg = ZohaCfg::defaults("/bin/sh".to_string());
    cfg.color.pallet = Pallet::Zenburn;
    cfg.color.color_00 = Some(CfgRgba::Text("red".to_string()));
    cfg.color.color_15 = Some(CfgRgba::Parts(Rgb16 { red: 1, green: 2, blue: 3 }));
    let pallet = cfg.color.user_pallet();
    assert_eq!(pallet.len(), 16);
    assert_eq!(text(&pallet[0]), Some("red".to_string()));
    assert_eq!(parts(&pallet[15]), Some(Rgb16 { red: 1, green: 2, blue: 3 }));
    let zenburn = Pallet::Zenburn.colors();
    for place in 1..15 {
        assert_eq!(parts(&pallet[place]), Some(zenburn[place]));
    }
}

#[test]
fn arguments_are_plain_values() {
    let args = ZohaArgs {
        cfg_file: Some("/etc/zoha.toml".to_string()),
        keypress_grabber: false,
        list_key_grabber_keys: false,
        signal: true,
        list_monitors: false,
        quiet: true,
        dry_run: false,
    };
    assert!(args.signal && args.quiet);
    assert_eq!(args.cfg_file.as_deref(), Some("/etc/zoha.toml"));
}
