use vstd::prelude::*;
use vstd::string::*;

use crate::config::color::Pallet;
use crate::config::color::Rgb16;
use crate::config::text::before_dash;
use crate::config::text::begins_with;
use crate::config::text::cut_before_dash;
use crate::config::text::number_spec;
use crate::config::text::read_number;
use crate::config::text::blank;
use crate::config::text::contains_text;
use crate::config::text::hex_code;
use crate::config::text::hex_code_spec;
use crate::config::text::is_blank;
use crate::config::text::texts;
use crate::ui::terminal::decimal;
use crate::ui::terminal::decimal_string;

verus! {

/// When the bar of tabs is shown.
#[derive(Debug, Clone, Copy, PartialEq, Eq, Structural)]
pub enum TabMode {
    Always,
    Never,
    Auto,
}

impl TabMode {
    /// The name of the choice, as it is written in a configuration.
    pub open spec fn name(&self) -> Seq<char> {
        match self {
            TabMode::Always => "Always"@,
            TabMode::Never => "Never"@,
            TabMode::Auto => "Auto"@,
        }
    }

    /// The name of the choice, as it is written in a configuration.
    pub fn to_string(&self) -> (name: String)
        ensures
            name@ == self.name(),
    {
        match self {
            TabMode::Always => "Always".to_owned(),
            TabMode::Never => "Never".to_owned(),
            TabMode::Auto => "Auto".to_owned(),
        }
    }
}

/// The edge of the window at which the bar of tabs stands.
#[derive(Debug, Clone, Copy, PartialEq, Eq, Structural)]
pub enum TabPosition {
    Left,
    Right,
    Top,
    Bottom,
}

impl TabPosition {
    /// The name of the choice, as it is written in a configuration.
    pub open spec fn name(&self) -> Seq<char> {
        match self {
            TabPosition::Left => "Left"@,
            TabPosition::Right => "Right"@,
            TabPosition::Top => "Top"@,
            TabPosition::Bottom => "Bottom"@,
        }
    }

    /// The name of the choice, as it is written in a configuration.
    pub fn to_string(&self) -> (name: String)
        ensures
            name@ == self.name(),
    {
        match self {
            TabPosition::Left => "Left".to_owned(),
            TabPosition::Right => "Right".to_owned(),
            TabPosition::Top => "Top".to_owned(),
            TabPosition::Bottom => "Bottom".to_owned(),
        }
    }
}

/// The shape of the cursor in a terminal.
#[derive(Debug, Clone, Copy, PartialEq, Eq, Structural)]
pub enum CursorShape {
    Block,
    IBeam,
    Underline,
}

impl CursorShape {
    /// The name of the choice, as it is written in a configuration.
    pub open spec fn name(&self) -> Seq<char> {
        match self {
            CursorShape::Block => "Block"@,
            CursorShape::IBeam => "IBeam"@,
            CursorShape::Underline => "Underline"@,
        }
    }

    /// The name of the choice, as it is written in a configuration.
    pub fn to_string(&self) -> (name: String)
        ensures
            name@ == self.name(),
    {
        match self {
            CursorShape::Block => "Block".to_owned(),
            CursorShape::IBeam => "IBeam".to_owned(),
            CursorShape::Underline => "Underline".to_owned(),
        }
    }
}

/// What a terminal sends for the backspace or the delete key.
#[derive(Debug, Clone, Copy, PartialEq, Eq, Structural)]
pub enum EraseBinding {
    Auto,
    AsciiBackspace,
    AsciiDelete,
    DeleteSequence,
    Tty,
}

impl EraseBinding {
    /// The name of the choice, as it is written in a configuration.
    pub open spec fn name(&self) -> Seq<char> {
        match self {
            EraseBinding::Auto => "Auto"@,
            EraseBinding::AsciiBackspace => "AsciiBackspace"@,
            EraseBinding::AsciiDelete => "AsciiDelete"@,
            EraseBinding::DeleteSequence => "DeleteSequence"@,
            EraseBinding::Tty => "Tty"@,
        }
    }

    /// The name of the choice, as it is written in a configuration.
    pub fn to_string(&self) -> (name: String)
        ensures
            name@ == self.name(),
    {
        match self {
            EraseBinding::Auto => "Auto".to_owned(),
            EraseBinding::AsciiBackspace => "AsciiBackspace".to_owned(),
            EraseBinding::AsciiDelete => "AsciiDelete".to_owned(),
            EraseBinding::DeleteSequence => "DeleteSequence".to_owned(),
            EraseBinding::Tty => "Tty".to_owned(),
        }
    }
}

/// Where the scrollbar of a terminal stands, if it is shown at all.
#[derive(Debug, Clone, Copy, PartialEq, Eq, Structural)]
pub enum ScrollbarPosition {
    Left,
    Right,
    Hidden,
}

impl ScrollbarPosition {
    /// The name of the choice, as it is written in a configuration.
    pub open spec fn name(&self) -> Seq<char> {
        match self {
            ScrollbarPosition::Left => "Left"@,
            ScrollbarPosition::Right => "Right"@,
            ScrollbarPosition::Hidden => "Hidden"@,
        }
    }

    /// The name of the choice, as it is written in a configuration.
    pub fn to_string(&self) -> (name: String)
        ensures
            name@ == self.name(),
    {
        match self {
            ScrollbarPosition::Left => "Left".to_owned(),
            ScrollbarPosition::Right => "Right".to_owned(),
            ScrollbarPosition::Hidden => "Hidden".to_owned(),
        }
    }
}

/// What happens to a tab when the process of its terminal ends.
#[derive(Debug, Clone, Copy, PartialEq, Eq, Structural)]
pub enum TerminalExitBehavior {
    ExitTerminal,
}

impl TerminalExitBehavior {
    /// The name of the choice, as it is written in a configuration.
    pub open spec fn name(&self) -> Seq<char> {
        match self {
            TerminalExitBehavior::ExitTerminal => "ExitTerminal"@,
        }
    }

    /// The name of the choice, as it is written in a configuration.
    pub fn to_string(&self) -> (name: String)
        ensures
            name@ == self.name(),
    {
        match self {
            TerminalExitBehavior::ExitTerminal => "ExitTerminal".to_owned(),
        }
    }
}

/// What happens when the last tab is closed.
#[derive(Debug, Clone, Copy, PartialEq, Eq, Structural)]
pub enum LastTabExitBehavior {
    RestartTerminal,
    RestartTerminalAndHide,
    Exit,
}

impl LastTabExitBehavior {
    /// The name of the choice, as it is written in a configuration.
    pub open spec fn name(&self) -> Seq<char> {
        match self {
            LastTabExitBehavior::RestartTerminal => "RestartTerminal"@,
            LastTabExitBehavior::RestartTerminalAndHide => "RestartTerminalAndHide"@,
            LastTabExitBehavior::Exit => "Exit"@,
        }
    }

    /// The name of the choice, as it is written in a configuration.
    pub fn to_string(&self) -> (name: String)
        ensures
            name@ == self.name(),
    {
        match self {
            LastTabExitBehavior::RestartTerminal => "RestartTerminal".to_owned(),
            LastTabExitBehavior::RestartTerminalAndHide => "RestartTerminalAndHide".to_owned(),
            LastTabExitBehavior::Exit => "Exit".to_owned(),
        }
    }
}

/// A colour of the configuration: either its three parts, or the text by
/// which the toolkit knows it, such as `rgba(0,0,0,1.0)`.
#[derive(Debug)]
pub enum CfgRgba {
    Parts(Rgb16),
    Text(String),
}

/// What the contracts read of a configured colour.
pub enum CfgRgbaModel {
    Parts(Rgb16),
    Text(Seq<char>),
}

impl View for CfgRgba {
    type V = CfgRgbaModel;

    open spec fn view(&self) -> CfgRgbaModel {
        match self {
            CfgRgba::Parts(parts) => CfgRgbaModel::Parts(*parts),
            CfgRgba::Text(text) => CfgRgbaModel::Text(text@),
        }
    }
}

impl CfgRgba {
    /// A copy of the colour.
    pub fn duplicate(&self) -> (copy: CfgRgba)
        ensures
            copy@ == self@,
    {
        match self {
            CfgRgba::Parts(parts) => CfgRgba::Parts(*parts),
            CfgRgba::Text(text) => CfgRgba::Text(text.clone()),
        }
    }
}

/// The command that a terminal runs, and where it starts.
#[derive(Debug)]
pub struct CfgProcess {
    pub command: String,
    pub working_dir: Option<String>,
}

/// The font of the terminals, as the text that describes it to the toolkit:
/// the family and style, a space, and the size.
#[derive(Debug)]
pub struct CfgFont {
    pub font: String,
}

/// The colours of the terminals.
#[derive(Debug)]
pub struct CfgColor {
    pub bg: CfgRgba,
    pub fg: CfgRgba,
    pub cursor: CfgRgba,
    pub pallet: Pallet,
    pub color_00: Option<CfgRgba>,
    pub color_01: Option<CfgRgba>,
    pub color_02: Option<CfgRgba>,
    pub color_03: Option<CfgRgba>,
    pub color_04: Option<CfgRgba>,
    pub color_05: Option<CfgRgba>,
    pub color_06: Option<CfgRgba>,
    pub color_07: Option<CfgRgba>,
    pub color_08: Option<CfgRgba>,
    pub color_09: Option<CfgRgba>,
    pub color_10: Option<CfgRgba>,
    pub color_11: Option<CfgRgba>,
    pub color_12: Option<CfgRgba>,
    pub color_13: Option<CfgRgba>,
    pub color_14: Option<CfgRgba>,
    pub color_15: Option<CfgRgba>,
}

/// Where and how the window is shown.
#[derive(Debug)]
pub struct CfgDisplay {
    pub monitor: Option<String>,
    pub title: String,
    pub x_pos: u32,
    pub y_pos: u32,
    pub width: Option<u32>,
    pub height: Option<u32>,
    pub width_percentage: Option<u8>,
    pub height_percentage: Option<u8>,
    pub start_hidden: bool,
    pub skip_task_bar: bool,
    pub always_on_top: bool,
    pub sticky: bool,
    pub fullscreen: bool,
    pub tab_scroll_wrap: bool,
    pub tab_mode: TabMode,
    pub tab_position: TabPosition,
    pub tab_expand: bool,
    pub tab_title_num_characters: Option<i8>,
    pub scrollbar_position: ScrollbarPosition,
}

/// The keyboard shortcuts. A shortcut that is `None` is switched off.
#[derive(Debug)]
pub struct CfgKey {
    pub copy: Option<String>,
    pub paste: Option<String>,
    pub quit: Option<String>,
    pub transparency_toggle: Option<String>,
    pub tab_add: Option<String>,
    pub tab_close: Option<String>,
    pub tab_move_backward: Option<String>,
    pub tab_move_forward: Option<String>,
    pub tab_goto_next: Option<String>,
    pub tab_goto_previous: Option<String>,
    pub tab_goto_last: Option<String>,
    pub tab_goto_01: Option<String>,
    pub tab_goto_02: Option<String>,
    pub tab_goto_03: Option<String>,
    pub tab_goto_04: Option<String>,
    pub tab_goto_05: Option<String>,
    pub tab_goto_06: Option<String>,
    pub tab_goto_07: Option<String>,
    pub tab_goto_08: Option<String>,
    pub font_size_inc: Option<String>,
    pub font_size_dec: Option<String>,
    pub font_size_reset: Option<String>,
}

/// How a terminal behaves.
#[derive(Debug)]
pub struct CfgTerminal {
    pub allow_hyper_link: bool,
    pub audible_bell: bool,
    pub cursor_blink: bool,
    pub cursor_shape: CursorShape,
    pub scroll_on_output: bool,
    pub scroll_on_keystroke: bool,
    pub mouse_auto_hide: bool,
    pub scrollback_lines: i64,
    pub backspace_binding: EraseBinding,
    pub delete_binding: EraseBinding,
    pub word_char_exceptions: String,
}

/// What happens when a terminal ends and when the last tab is closed.
#[derive(Debug)]
pub struct CfgBehavior {
    pub terminal_exit_behavior: TerminalExitBehavior,
    pub last_tab_exit_behavior: LastTabExitBehavior,
}

/// The keys that, pressed together, toggle the window.
#[derive(Debug)]
pub struct CfgHack {
    pub toggle: Vec<String>,
}

/// The whole configuration.
#[derive(Debug)]
pub struct ZohaCfg {
    pub font: CfgFont,
    pub display: CfgDisplay,
    pub color: CfgColor,
    pub process: CfgProcess,
    pub keys: CfgKey,
    pub terminal: CfgTerminal,
    pub behavior: CfgBehavior,
    pub hack: CfgHack,
}

/// Why the text of the configuration could not be had.
#[derive(Debug)]
pub enum CfgReadError {
    /// A location was given for the configuration, and nothing is there.
    OverriddenCfgDoesNotExist { location: String },
    /// No location was given and the user has no home directory.
    NoHomeDir,
    /// No location was given and the home directory holds no configuration.
    NoConfigInHomeDir { location: String },
    /// The file is there and could not be read; `error` says why.
    FileReadError { location: String, error: String },
}

impl CfgReadError {
    /// Whether the error only says that the user has written no
    /// configuration, so that the defaults apply.
    pub fn is_no_config(&self) -> (none: bool)
        ensures
            none == (self is NoConfigInHomeDir),
    {
        matches!(self, CfgReadError::NoConfigInHomeDir { .. })
    }
}

/// The view of a text that may be missing.
pub open spec fn text_of(text: Option<String>) -> Option<Seq<char>> {
    match text {
        Some(t) => Some(t@),
        None => None,
    }
}

/// The width or height of the window on a monitor whose work area extends
/// over `monitor_extent`.
///
/// The monitor counts as at least 1 wide. A percentage above 100 stands for
/// the whole monitor; any other percentage is divided by 100 in whole
/// numbers before it is applied, so that 100 gives the whole monitor and
/// anything less gives 0. Without a percentage, an absolute extent is cut
/// down to the monitor; without either, the window takes the whole monitor.
pub open spec fn extent_spec(monitor_extent: i32, percentage: Option<u8>, absolute: Option<u32>) -> u32 {
    let full: u32 = if monitor_extent < 1 {
        1u32
    } else {
        monitor_extent as u32
    };
    match percentage {
        Some(p) => if p > 100 {
            full
        } else {
            ((p / 100) * full) as u32
        },
        None => match absolute {
            Some(a) => if a < full {
                a
            } else {
                full
            },
            None => full,
        },
    }
}

/// Computes the width or height of the window.
pub fn extent(monitor_extent: i32, percentage: Option<u8>, absolute: Option<u32>) -> (e: u32)
    ensures
        e == extent_spec(monitor_extent, percentage, absolute),
{
    let full: u32 = if monitor_extent < 1 {
        1
    } else {
        monitor_extent as u32
    };
    match percentage {
        Some(p) => if p > 100 {
            full
        } else {
            let whole: u32 = (p / 100) as u32;
            assert(whole * full <= full) by (nonlinear_arith)
                requires
                    whole <= 1,
            ;
            whole * full
        },
        None => match absolute {
            Some(a) => if a < full {
                a
            } else {
                full
            },
            None => full,
        },
    }
}

impl CfgDisplay {
    /// The width of the window on a monitor whose work area is
    /// `monitor_width` wide.
    pub fn get_width(&self, monitor_width: i32) -> (width: u32)
        ensures
            width == extent_spec(monitor_width, self.width_percentage, self.width),
    {
        extent(monitor_width, self.width_percentage, self.width)
    }

    /// The height of the window on a monitor whose work area is
    /// `monitor_height` high.
    pub fn get_height(&self, monitor_height: i32) -> (height: u32)
        ensures
            height == extent_spec(monitor_height, self.height_percentage, self.height),
    {
        extent(monitor_height, self.height_percentage, self.height)
    }
}

/// The colour that the number `code` stands for in a colour written as `#x`
/// and a hexadecimal number.
pub open spec fn code_color(code: u32) -> Rgb16 {
    Rgb16 {
        red: (code / 65536) as u16,
        green: ((code / 256) % 256) as u16,
        blue: (code % 256) as u16,
    }
}

/// Turns the number of a colour written as `#x` and a hexadecimal number
/// into the colour.
pub fn color_from_code(code: u32) -> (color: Rgb16)
    requires
        code <= 0xffff,
    ensures
        color == code_color(code),
{
    Rgb16 {
        red: (code / 65536) as u16,
        green: ((code / 256) % 256) as u16,
        blue: (code % 256) as u16,
    }
}

/// The colour that a text of the configuration stands for.
///
/// A text that begins with `#x` is read as a hexadecimal number of no more
/// than `0xffff`. Any other text stands for itself where it is among
/// `accepted`, the texts that the toolkit can read as a colour. Everything
/// else is no colour.
pub open spec fn parsed_color(color_spec: Option<Seq<char>>, accepted: Seq<Seq<char>>) -> Option<
    CfgRgbaModel,
> {
    match color_spec {
        None => None,
        Some(s) => if begins_with(s, seq!['#', 'x']) {
            match hex_code_spec(s.subrange(2, s.len() as int)) {
                Some(code) => Some(CfgRgbaModel::Parts(code_color(code))),
                None => None,
            }
        } else if accepted.contains(s) {
            Some(CfgRgbaModel::Text(s))
        } else {
            None
        },
    }
}

/// Reads a colour of the configuration.
pub fn try_parse_color(color_spec: Option<String>, accepted: &Vec<String>) -> (color: Option<CfgRgba>)
    ensures
        match color {
            Some(c) => parsed_color(text_of(color_spec), texts(accepted@)) == Some(c@),
            None => parsed_color(text_of(color_spec), texts(accepted@)).is_none(),
        },
{
    match color_spec {
        None => None,
        Some(text) => {
            let s: &str = text.as_str();
            let len: usize = s.unicode_len();
            if len >= 2 && s.get_char(0) == '#' && s.get_char(1) == 'x' {
                assert(s@.subrange(0, 2) =~= seq!['#', 'x']);
                match hex_code(s.substring_char(2, len)) {
                    Some(code) => Some(CfgRgba::Parts(color_from_code(code))),
                    None => None,
                }
            } else {
                assert(!begins_with(s@, seq!['#', 'x'])) by {
                    if begins_with(s@, seq!['#', 'x']) {
                        assert(s@.subrange(0, 2)[0] == '#');
                        assert(s@.subrange(0, 2)[1] == 'x');
                    }
                }
                if contains_text(accepted, s) {
                    Some(CfgRgba::Text(text))
                } else {
                    None
                }
            }
        },
    }
}

/// Reads a colour of the configuration, and takes the text `default` where
/// it is none.
pub fn try_parse_color_or_default(
    color_spec: Option<String>,
    default: &str,
    accepted: &Vec<String>,
) -> (color: CfgRgba)
    ensures
        color@ == match parsed_color(text_of(color_spec), texts(accepted@)) {
            Some(c) => c,
            None => CfgRgbaModel::Text(default@),
        },
{
    match try_parse_color(color_spec, accepted) {
        Some(color) => color,
        None => CfgRgba::Text(String::from_str(default)),
    }
}

/// The shortcut that comes of the configured text `key`.
///
/// `accepted` holds the texts that the toolkit can read as a shortcut, and
/// `seen` the shortcuts that are taken already. A blank text switches the
/// shortcut off. A text that the toolkit can read is the shortcut, unless it
/// is taken, which switches the shortcut off. In place of a missing text, or
/// of one that the toolkit cannot read, `default` is the shortcut, if the
/// toolkit can read that.
pub open spec fn key_choice(
    key: Option<Seq<char>>,
    default: Seq<char>,
    accepted: Seq<Seq<char>>,
    seen: Seq<Seq<char>>,
) -> Option<Seq<char>> {
    let fallback = if accepted.contains(default) {
        Some(default)
    } else {
        None
    };
    match key {
        Some(k) => if blank(k) {
            None
        } else if accepted.contains(k) {
            if seen.contains(k) {
                None
            } else {
                Some(k)
            }
        } else {
            fallback
        },
        None => fallback,
    }
}

/// The shortcuts that are taken once the configured text `key` has been
/// dealt with: a text that became a shortcut is taken from then on.
pub open spec fn seen_after(key: Option<Seq<char>>, accepted: Seq<Seq<char>>, seen: Seq<Seq<char>>) -> Seq<
    Seq<char>,
> {
    match key {
        Some(k) => if !blank(k) && accepted.contains(k) && !seen.contains(k) {
            seen.push(k)
        } else {
            seen
        },
        None => seen,
    }
}

/// Settles one shortcut of the configuration, and notes it in `seen` where
/// the configured text became the shortcut.
pub fn sanitize_key(
    key: Option<String>,
    default: &str,
    accepted: &Vec<String>,
    seen: &mut Vec<String>,
) -> (shortcut: Option<String>)
    ensures
        text_of(shortcut) == key_choice(text_of(key), default@, texts(accepted@), texts(old(seen)@)),
        texts(final(seen)@) == seen_after(text_of(key), texts(accepted@), texts(old(seen)@)),
{
    let ghost before = texts(seen@);
    match key {
        Some(k) => {
            if is_blank(k.as_str()) {
                None
            } else if contains_text(accepted, k.as_str()) {
                if contains_text(seen, k.as_str()) {
                    None
                } else {
                    seen.push(k.clone());
                    assert(texts(seen@) =~= before.push(k@));
                    Some(k)
                }
            } else if contains_text(accepted, default) {
                Some(String::from_str(default))
            } else {
                None
            }
        },
        None => {
            if contains_text(accepted, default) {
                Some(String::from_str(default))
            } else {
                None
            }
        },
    }
}

/// The keys that toggle the window where the configuration names none.
pub fn default_key_codes() -> (keys: Vec<String>)
    ensures
        keys@.len() == 1,
        keys@[0]@ == "F1"@,
{
    let mut keys: Vec<String> = Vec::new();
    keys.push(String::from_str("F1"));
    keys
}

/// The text that describes a font to the toolkit: the family and style, a
/// space, and the size, which is at least 1.
pub open spec fn font_description_spec(font: Option<Seq<char>>, size: Option<u8>) -> Seq<char> {
    let family = match font {
        Some(f) => f,
        None => "Monospace Regular"@,
    };
    let points: nat = match size {
        Some(s) => if s < 1 {
            1nat
        } else {
            s as nat
        },
        None => 16nat,
    };
    family + seq![' '] + decimal(points)
}

/// Writes the text that describes a font to the toolkit.
pub fn font_description(font: Option<String>, size: Option<u8>) -> (description: String)
    ensures
        description@ == font_description_spec(text_of(font), size),
{
    proof {
        reveal_strlit(" ");
    }
    let mut description: String = match font {
        Some(f) => f,
        None => String::from_str("Monospace Regular"),
    };
    let points: u64 = match size {
        Some(s) => if s < 1 {
            1
        } else {
            s as u64
        },
        None => 16,
    };
    description.append(" ");
    description.append(decimal_string(points).as_str());
    assert(description@ =~= font_description_spec(text_of(font), size));
    description
}

/// Where the configuration is to be read, or why it cannot be.
///
/// A location given on the command line is the one to read, if something is
/// there. Without one, it is the file in the user's home directory, if the
/// user has a home directory and the file is there.
pub fn cfg_location(
    cfg_file: Option<String>,
    cfg_file_exists: bool,
    home_cfg: Option<String>,
    home_cfg_exists: bool,
) -> (location: Result<String, CfgReadError>)
    ensures
        location == match cfg_file {
            Some(file) => if cfg_file_exists {
                Ok::<String, CfgReadError>(file)
            } else {
                Err(CfgReadError::OverriddenCfgDoesNotExist { location: file })
            },
            None => match home_cfg {
                None => Err(CfgReadError::NoHomeDir),
                Some(home) => if home_cfg_exists {
                    Ok(home)
                } else {
                    Err(CfgReadError::NoConfigInHomeDir { location: home })
                },
            },
        },
{
    match cfg_file {
        Some(file) => if cfg_file_exists {
            Ok(file)
        } else {
            Err(CfgReadError::OverriddenCfgDoesNotExist { location: file })
        },
        None => match home_cfg {
            None => Err(CfgReadError::NoHomeDir),
            Some(home) => if home_cfg_exists {
                Ok(home)
            } else {
                Err(CfgReadError::NoConfigInHomeDir { location: home })
            },
        },
    }
}

/// The name of the configuration file in the user's home directory.
pub const CONFIG_FILE_NAME: &'static str = ".zoha.toml";

/// The background colour where none is configured.
pub const BG_COLOR: &'static str = "rgba(0,0,0,1.0)";

/// The foreground colour where none is configured.
pub const FG_COLOR: &'static str = "rgba(255,255,255,1.0)";

/// The colour of the cursor where none is configured.
pub const CURSOR_COLOR: &'static str = "rgba(0,0,0,1.0)";

/// The title of the window where none is configured.
pub const TITLE: &'static str = "Zoha";

/// The characters that count as parts of a word, besides letters and digits,
/// where none are configured.
pub const WORD_CHARS: &'static str = "-A-Za-z0-9,./?%&#:_";

/// How many lines a terminal keeps where no number is configured: all.
pub const SCROLLBACK_LINES: i64 = -1;

/// How many characters of the working directory a tab title shows in the
/// default configuration.
pub const TAB_NUM_CHARS: i8 = 25;

/// The default shortcuts, in the order in which the shortcuts are settled.
pub const KEY_DEFAULTS: [&'static str; 22] = [
    "<Ctrl><Shift>c",
    "<Ctrl><Shift>v",
    "<Ctrl><Shift><Alt>q",
    "<Ctrl><Alt>F12",
    "<Ctrl><Shift>t",
    "<Ctrl><Shift>w",
    "<Ctrl><Shift>Page_Up",
    "<Ctrl><Shift>Page_Down",
    "<Ctrl>Page_Down",
    "<Ctrl>Page_Up",
    "<Ctrl><Alt>9",
    "<Ctrl><Alt>1",
    "<Ctrl><Alt>2",
    "<Ctrl><Alt>3",
    "<Ctrl><Alt>4",
    "<Ctrl><Alt>5",
    "<Ctrl><Alt>6",
    "<Ctrl><Alt>7",
    "<Ctrl><Alt>8",
    "<Ctrl><Alt>equal",
    "<Ctrl><Alt>minus",
    "<Ctrl><Alt>0",
];

/// What the configuration file says of the process.
#[derive(Debug)]
pub struct RawCfgProcess {
    pub command: Option<String>,
    pub working_dir: Option<String>,
}

impl RawCfgProcess {
    /// The section with nothing configured.
    pub open spec fn empty() -> Self {
        RawCfgProcess {
            command: None,
            working_dir: None,
        }
    }
}

impl Default for RawCfgProcess {
    fn default() -> (raw: Self)
        ensures
            raw == Self::empty(),
    {
        RawCfgProcess {
            command: None,
            working_dir: None,
        }
    }
}

/// What the configuration file says of the font.
#[derive(Debug)]
pub struct RawCfgFont {
    pub font: Option<String>,
    pub size: Option<u8>,
}

impl RawCfgFont {
    /// The section with nothing configured.
    pub open spec fn empty() -> Self {
        RawCfgFont {
            font: None,
            size: None,
        }
    }
}

impl Default for RawCfgFont {
    fn default() -> (raw: Self)
        ensures
            raw == Self::empty(),
    {
        RawCfgFont {
            font: None,
            size: None,
        }
    }
}

/// What the configuration file says of the colours.
#[derive(Debug)]
pub struct RawCfgColor {
    pub bg: Option<String>,
    pub fg: Option<String>,
    pub cursor: Option<String>,
    pub pallet: Option<Pallet>,
    pub color_00: Option<String>,
    pub color_01: Option<String>,
    pub color_02: Option<String>,
    pub color_03: Option<String>,
    pub color_04: Option<String>,
    pub color_05: Option<String>,
    pub color_06: Option<String>,
    pub color_07: Option<String>,
    pub color_08: Option<String>,
    pub color_09: Option<String>,
    pub color_10: Option<String>,
    pub color_11: Option<String>,
    pub color_12: Option<String>,
    pub color_13: Option<String>,
    pub color_14: Option<String>,
    pub color_15: Option<String>,
}

impl RawCfgColor {
    /// The section with nothing configured.
    pub open spec fn empty() -> Self {
        RawCfgColor {
            bg: None,
            fg: None,
            cursor: None,
            pallet: None,
            color_00: None,
            color_01: None,
            color_02: None,
            color_03: None,
            color_04: None,
            color_05: None,
            color_06: None,
            color_07: None,
            color_08: None,
            color_09: None,
            color_10: None,
            color_11: None,
            color_12: None,
            color_13: None,
            color_14: None,
            color_15: None,
        }
    }
}

impl Default for RawCfgColor {
    fn default() -> (raw: Self)
        ensures
            raw == Self::empty(),
    {
        RawCfgColor {
            bg: None,
            fg: None,
            cursor: None,
            pallet: None,
            color_00: None,
            color_01: None,
            color_02: None,
            color_03: None,
            color_04: None,
            color_05: None,
            color_06: None,
            color_07: None,
            color_08: None,
            color_09: None,
            color_10: None,
            color_11: None,
            color_12: None,
            color_13: None,
            color_14: None,
            color_15: None,
        }
    }
}

/// What the configuration file says of the window.
#[derive(Debug)]
pub struct RawCfgDisplay {
    pub monitor: Option<String>,
    pub title: Option<String>,
    pub x_pos: Option<u32>,
    pub y_pos: Option<u32>,
    pub width: Option<u32>,
    pub height: Option<u32>,
    pub width_percentage: Option<u8>,
    pub height_percentage: Option<u8>,
    pub start_hidden: Option<bool>,
    pub skip_task_bar: Option<bool>,
    pub always_on_top: Option<bool>,
    pub sticky: Option<bool>,
    pub fullscreen: Option<bool>,
    pub tab_scroll_wrap: Option<bool>,
    pub tab_mode: Option<TabMode>,
    pub tab_position: Option<TabPosition>,
    pub tab_expand: Option<bool>,
    pub tab_title_num_characters: Option<i8>,
    pub scrollbar_position: Option<ScrollbarPosition>,
}

impl RawCfgDisplay {
    /// The section with nothing configured.
    pub open spec fn empty() -> Self {
        RawCfgDisplay {
            monitor: None,
            title: None,
            x_pos: None,
            y_pos: None,
            width: None,
            height: None,
            width_percentage: None,
            height_percentage: None,
            start_hidden: None,
            skip_task_bar: None,
            always_on_top: None,
            sticky: None,
            fullscreen: None,
            tab_scroll_wrap: None,
            tab_mode: None,
            tab_position: None,
            tab_expand: None,
            tab_title_num_characters: None,
            scrollbar_position: None,
        }
    }
}

impl Default for RawCfgDisplay {
    fn default() -> (raw: Self)
        ensures
            raw == Self::empty(),
    {
        RawCfgDisplay {
            monitor: None,
            title: None,
            x_pos: None,
            y_pos: None,
            width: None,
            height: None,
            width_percentage: None,
            height_percentage: None,
            start_hidden: None,
            skip_task_bar: None,
            always_on_top: None,
            sticky: None,
            fullscreen: None,
            tab_scroll_wrap: None,
            tab_mode: None,
            tab_position: None,
            tab_expand: None,
            tab_title_num_characters: None,
            scrollbar_position: None,
        }
    }
}

/// What the configuration file says of the shortcuts.
#[derive(Debug)]
pub struct RawCfgKey {
    pub copy: Option<String>,
    pub paste: Option<String>,
    pub quit: Option<String>,
    pub transparency_toggle: Option<String>,
    pub tab_add: Option<String>,
    pub tab_close: Option<String>,
    pub tab_move_backward: Option<String>,
    pub tab_move_forward: Option<String>,
    pub tab_goto_next: Option<String>,
    pub tab_goto_previous: Option<String>,
    pub tab_goto_last: Option<String>,
    pub tab_goto_01: Option<String>,
    pub tab_goto_02: Option<String>,
    pub tab_goto_03: Option<String>,
    pub tab_goto_04: Option<String>,
    pub tab_goto_05: Option<String>,
    pub tab_goto_06: Option<String>,
    pub tab_goto_07: Option<String>,
    pub tab_goto_08: Option<String>,
    pub font_size_inc: Option<String>,
    pub font_size_dec: Option<String>,
    pub font_size_reset: Option<String>,
}

impl RawCfgKey {
    /// The section with nothing configured.
    pub open spec fn empty() -> Self {
        RawCfgKey {
            copy: None,
            paste: None,
            quit: None,
            transparency_toggle: None,
            tab_add: None,
            tab_close: None,
            tab_move_backward: None,
            tab_move_forward: None,
            tab_goto_next: None,
            tab_goto_previous: None,
            tab_goto_last: None,
            tab_goto_01: None,
            tab_goto_02: None,
            tab_goto_03: None,
            tab_goto_04: None,
            tab_goto_05: None,
            tab_goto_06: None,
            tab_goto_07: None,
            tab_goto_08: None,
            font_size_inc: None,
            font_size_dec: None,
            font_size_reset: None,
        }
    }
}

impl Default for RawCfgKey {
    fn default() -> (raw: Self)
        ensures
            raw == Self::empty(),
    {
        RawCfgKey {
            copy: None,
            paste: None,
            quit: None,
            transparency_toggle: None,
            tab_add: None,
            tab_close: None,
            tab_move_backward: None,
            tab_move_forward: None,
            tab_goto_next: None,
            tab_goto_previous: None,
            tab_goto_last: None,
            tab_goto_01: None,
            tab_goto_02: None,
            tab_goto_03: None,
            tab_goto_04: None,
            tab_goto_05: None,
            tab_goto_06: None,
            tab_goto_07: None,
            tab_goto_08: None,
            font_size_inc: None,
            font_size_dec: None,
            font_size_reset: None,
        }
    }
}

/// What the configuration file says of the terminals.
#[derive(Debug)]
pub struct RawCfgTerminal {
    pub allow_hyper_link: Option<bool>,
    pub audible_bell: Option<bool>,
    pub cursor_blink: Option<bool>,
    pub cursor_shape: Option<CursorShape>,
    pub scroll_on_output: Option<bool>,
    pub scroll_on_keystroke: Option<bool>,
    pub mouse_auto_hide: Option<bool>,
    pub scrollback_lines: Option<i64>,
    pub backspace_binding: Option<EraseBinding>,
    pub delete_binding: Option<EraseBinding>,
    pub word_char_exceptions: Option<String>,
}

impl RawCfgTerminal {
    /// The section with nothing configured.
    pub open spec fn empty() -> Self {
        RawCfgTerminal {
            allow_hyper_link: None,
            audible_bell: None,
            cursor_blink: None,
            cursor_shape: None,
            scroll_on_output: None,
            scroll_on_keystroke: None,
            mouse_auto_hide: None,
            scrollback_lines: None,
            backspace_binding: None,
            delete_binding: None,
            word_char_exceptions: None,
        }
    }
}

impl Default for RawCfgTerminal {
    fn default() -> (raw: Self)
        ensures
            raw == Self::empty(),
    {
        RawCfgTerminal {
            allow_hyper_link: None,
            audible_bell: None,
            cursor_blink: None,
            cursor_shape: None,
            scroll_on_output: None,
            scroll_on_keystroke: None,
            mouse_auto_hide: None,
            scrollback_lines: None,
            backspace_binding: None,
            delete_binding: None,
            word_char_exceptions: None,
        }
    }
}

/// What the configuration file says of the behaviour.
#[derive(Debug)]
pub struct RawCfgBehavior {
    pub terminal_exit_behavior: Option<TerminalExitBehavior>,
    pub last_tab_exit_behavior: Option<LastTabExitBehavior>,
}

impl RawCfgBehavior {
    /// The section with nothing configured.
    pub open spec fn empty() -> Self {
        RawCfgBehavior {
            terminal_exit_behavior: None,
            last_tab_exit_behavior: None,
        }
    }
}

impl Default for RawCfgBehavior {
    fn default() -> (raw: Self)
        ensures
            raw == Self::empty(),
    {
        RawCfgBehavior {
            terminal_exit_behavior: None,
            last_tab_exit_behavior: None,
        }
    }
}

/// What the configuration file says of the keys that toggle the window.
#[derive(Debug)]
pub struct RawCfgHack {
    pub toggle: Option<Vec<String>>,
}

impl RawCfgHack {
    /// The section with nothing configured.
    pub open spec fn empty() -> Self {
        RawCfgHack {
            toggle: None,
        }
    }
}

impl Default for RawCfgHack {
    fn default() -> (raw: Self)
        ensures
            raw == Self::empty(),
    {
        RawCfgHack {
            toggle: None,
        }
    }
}

/// What the configuration file says, section by section. What it leaves out
/// is `None`.
#[derive(Debug)]
pub struct RawCfg {
    pub font: RawCfgFont,
    pub color: RawCfgColor,
    pub display: RawCfgDisplay,
    pub keys: RawCfgKey,
    pub process: RawCfgProcess,
    pub terminal: RawCfgTerminal,
    pub behavior: RawCfgBehavior,
    pub hack: RawCfgHack,
}

impl RawCfg {
    /// The file that configures nothing.
    pub open spec fn empty() -> Self {
        RawCfg {
            font: RawCfgFont::empty(),
            color: RawCfgColor::empty(),
            display: RawCfgDisplay::empty(),
            keys: RawCfgKey::empty(),
            process: RawCfgProcess::empty(),
            terminal: RawCfgTerminal::empty(),
            behavior: RawCfgBehavior::empty(),
            hack: RawCfgHack::empty(),
        }
    }
}

impl Default for RawCfg {
    fn default() -> (raw: Self)
        ensures
            raw == Self::empty(),
    {
        RawCfg {
            font: RawCfgFont::default(),
            color: RawCfgColor::default(),
            display: RawCfgDisplay::default(),
            keys: RawCfgKey::default(),
            process: RawCfgProcess::default(),
            terminal: RawCfgTerminal::default(),
            behavior: RawCfgBehavior::default(),
            hack: RawCfgHack::default(),
        }
    }
}

impl RawCfgKey {
    /// The configured texts, in the order in which the shortcuts are
    /// settled.
    pub open spec fn texts(&self) -> Seq<Option<Seq<char>>> {
        seq![
            text_of(self.copy),
            text_of(self.paste),
            text_of(self.quit),
            text_of(self.transparency_toggle),
            text_of(self.tab_add),
            text_of(self.tab_close),
            text_of(self.tab_move_backward),
            text_of(self.tab_move_forward),
            text_of(self.tab_goto_next),
            text_of(self.tab_goto_previous),
            text_of(self.tab_goto_last),
            text_of(self.tab_goto_01),
            text_of(self.tab_goto_02),
            text_of(self.tab_goto_03),
            text_of(self.tab_goto_04),
            text_of(self.tab_goto_05),
            text_of(self.tab_goto_06),
            text_of(self.tab_goto_07),
            text_of(self.tab_goto_08),
            text_of(self.font_size_inc),
            text_of(self.font_size_dec),
            text_of(self.font_size_reset),
        ]
    }
}

impl CfgKey {
    /// The shortcuts, in the order in which they are settled.
    pub open spec fn shortcuts(&self) -> Seq<Option<Seq<char>>> {
        seq![
            text_of(self.copy),
            text_of(self.paste),
            text_of(self.quit),
            text_of(self.transparency_toggle),
            text_of(self.tab_add),
            text_of(self.tab_close),
            text_of(self.tab_move_backward),
            text_of(self.tab_move_forward),
            text_of(self.tab_goto_next),
            text_of(self.tab_goto_previous),
            text_of(self.tab_goto_last),
            text_of(self.tab_goto_01),
            text_of(self.tab_goto_02),
            text_of(self.tab_goto_03),
            text_of(self.tab_goto_04),
            text_of(self.tab_goto_05),
            text_of(self.tab_goto_06),
            text_of(self.tab_goto_07),
            text_of(self.tab_goto_08),
            text_of(self.font_size_inc),
            text_of(self.font_size_dec),
            text_of(self.font_size_reset),
        ]
    }
}

/// The shortcuts that are taken before the configured text number `n` is
/// dealt with.
pub open spec fn seen_before(raw: Seq<Option<Seq<char>>>, accepted: Seq<Seq<char>>, n: nat) -> Seq<
    Seq<char>,
>
    decreases n,
{
    if n == 0 || n > raw.len() {
        Seq::empty()
    } else {
        seen_after(raw[n - 1], accepted, seen_before(raw, accepted, (n - 1) as nat))
    }
}

/// The shortcuts that come of the configured texts `raw`, settled one after
/// the other, each against its default and the shortcuts taken before it.
pub open spec fn chosen_keys(raw: Seq<Option<Seq<char>>>, accepted: Seq<Seq<char>>) -> Seq<
    Option<Seq<char>>,
> {
    Seq::new(
        raw.len(),
        |i: int| key_choice(raw[i], KEY_DEFAULTS@[i]@, accepted, seen_before(raw, accepted, i as nat)),
    )
}

impl CfgKey {
    /// Settles the shortcuts of the configuration; `accepted` holds the
    /// texts that the toolkit can read as a shortcut.
    pub fn from_raw(raw: RawCfgKey, accepted: &Vec<String>) -> (keys: CfgKey)
        ensures
            keys.shortcuts() == chosen_keys(raw.texts(), texts(accepted@)),
    {
        let ghost list = raw.texts();
        let ghost acc = texts(accepted@);
        let mut seen: Vec<String> = Vec::new();
        assert(texts(seen@) =~= seen_before(list, acc, 0));
        let copy = sanitize_key(raw.copy, KEY_DEFAULTS[0], accepted, &mut seen);
        assert(list[0] == text_of(raw.copy));
        assert(texts(seen@) == seen_before(list, acc, 1));
        let paste = sanitize_key(raw.paste, KEY_DEFAULTS[1], accepted, &mut seen);
        assert(list[1] == text_of(raw.paste));
        assert(texts(seen@) == seen_before(list, acc, 2));
        let quit = sanitize_key(raw.quit, KEY_DEFAULTS[2], accepted, &mut seen);
        assert(list[2] == text_of(raw.quit));
        assert(texts(seen@) == seen_before(list, acc, 3));
        let transparency_toggle = sanitize_key(raw.transparency_toggle, KEY_DEFAULTS[3], accepted, &mut seen);
        assert(list[3] == text_of(raw.transparency_toggle));
        assert(texts(seen@) == seen_before(list, acc, 4));
        let tab_add = sanitize_key(raw.tab_add, KEY_DEFAULTS[4], accepted, &mut seen);
        assert(list[4] == text_of(raw.tab_add));
        assert(texts(seen@) == seen_before(list, acc, 5));
        let tab_close = sanitize_key(raw.tab_close, KEY_DEFAULTS[5], accepted, &mut seen);
        assert(list[5] == text_of(raw.tab_close));
        assert(texts(seen@) == seen_before(list, acc, 6));
        let tab_move_backward = sanitize_key(raw.tab_move_backward, KEY_DEFAULTS[6], accepted, &mut seen);
        assert(list[6] == text_of(raw.tab_move_backward));
        assert(texts(seen@) == seen_before(list, acc, 7));
        let tab_move_forward = sanitize_key(raw.tab_move_forward, KEY_DEFAULTS[7], accepted, &mut seen);
        assert(list[7] == text_of(raw.tab_move_forward));
        assert(texts(seen@) == seen_before(list, acc, 8));
        let tab_goto_next = sanitize_key(raw.tab_goto_next, KEY_DEFAULTS[8], accepted, &mut seen);
        assert(list[8] == text_of(raw.tab_goto_next));
        assert(texts(seen@) == seen_before(list, acc, 9));
        let tab_goto_previous = sanitize_key(raw.tab_goto_previous, KEY_DEFAULTS[9], accepted, &mut seen);
        assert(list[9] == text_of(raw.tab_goto_previous));
        assert(texts(seen@) == seen_before(list, acc, 10));
        let tab_goto_last = sanitize_key(raw.tab_goto_last, KEY_DEFAULTS[10], accepted, &mut seen);
        assert(list[10] == text_of(raw.tab_goto_last));
        assert(texts(seen@) == seen_before(list, acc, 11));
        let tab_goto_01 = sanitize_key(raw.tab_goto_01, KEY_DEFAULTS[11], accepted, &mut seen);
        assert(list[11] == text_of(raw.tab_goto_01));
        assert(texts(seen@) == seen_before(list, acc, 12));
        let tab_goto_02 = sanitize_key(raw.tab_goto_02, KEY_DEFAULTS[12], accepted, &mut seen);
        assert(list[12] == text_of(raw.tab_goto_02));
        assert(texts(seen@) == seen_before(list, acc, 13));
        let tab_goto_03 = sanitize_key(raw.tab_goto_03, KEY_DEFAULTS[13], accepted, &mut seen);
        assert(list[13] == text_of(raw.tab_goto_03));
        assert(texts(seen@) == seen_before(list, acc, 14));
        let tab_goto_04 = sanitize_key(raw.tab_goto_04, KEY_DEFAULTS[14], accepted, &mut seen);
        assert(list[14] == text_of(raw.tab_goto_04));
        assert(texts(seen@) == seen_before(list, acc, 15));
        let tab_goto_05 = sanitize_key(raw.tab_goto_05, KEY_DEFAULTS[15], accepted, &mut seen);
        assert(list[15] == text_of(raw.tab_goto_05));
        assert(texts(seen@) == seen_before(list, acc, 16));
        let tab_goto_06 = sanitize_key(raw.tab_goto_06, KEY_DEFAULTS[16], accepted, &mut seen);
        assert(list[16] == text_of(raw.tab_goto_06));
        assert(texts(seen@) == seen_before(list, acc, 17));
        let tab_goto_07 = sanitize_key(raw.tab_goto_07, KEY_DEFAULTS[17], accepted, &mut seen);
        assert(list[17] == text_of(raw.tab_goto_07));
        assert(texts(seen@) == seen_before(list, acc, 18));
        let tab_goto_08 = sanitize_key(raw.tab_goto_08, KEY_DEFAULTS[18], accepted, &mut seen);
        assert(list[18] == text_of(raw.tab_goto_08));
        assert(texts(seen@) == seen_before(list, acc, 19));
        let font_size_inc = sanitize_key(raw.font_size_inc, KEY_DEFAULTS[19], accepted, &mut seen);
        assert(list[19] == text_of(raw.font_size_inc));
        assert(texts(seen@) == seen_before(list, acc, 20));
        let font_size_dec = sanitize_key(raw.font_size_dec, KEY_DEFAULTS[20], accepted, &mut seen);
        assert(list[20] == text_of(raw.font_size_dec));
        assert(texts(seen@) == seen_before(list, acc, 21));
        let font_size_reset = sanitize_key(raw.font_size_reset, KEY_DEFAULTS[21], accepted, &mut seen);
        assert(list[21] == text_of(raw.font_size_reset));
        assert(texts(seen@) == seen_before(list, acc, 22));
        let keys = CfgKey {
            copy,
            paste,
            quit,
            transparency_toggle,
            tab_add,
            tab_close,
            tab_move_backward,
            tab_move_forward,
            tab_goto_next,
            tab_goto_previous,
            tab_goto_last,
            tab_goto_01,
            tab_goto_02,
            tab_goto_03,
            tab_goto_04,
            tab_goto_05,
            tab_goto_06,
            tab_goto_07,
            tab_goto_08,
            font_size_inc,
            font_size_dec,
            font_size_reset,
        };
        assert(keys.shortcuts() =~= chosen_keys(list, acc));
        keys
    }

    /// The default shortcuts.
    pub fn defaults() -> (keys: CfgKey)
        ensures
            keys.shortcuts() == Seq::new(22, |i: int| Some(KEY_DEFAULTS@[i]@)),
    {
        let keys = CfgKey {
            copy: Some(String::from_str(KEY_DEFAULTS[0])),
            paste: Some(String::from_str(KEY_DEFAULTS[1])),
            quit: Some(String::from_str(KEY_DEFAULTS[2])),
            transparency_toggle: Some(String::from_str(KEY_DEFAULTS[3])),
            tab_add: Some(String::from_str(KEY_DEFAULTS[4])),
            tab_close: Some(String::from_str(KEY_DEFAULTS[5])),
            tab_move_backward: Some(String::from_str(KEY_DEFAULTS[6])),
            tab_move_forward: Some(String::from_str(KEY_DEFAULTS[7])),
            tab_goto_next: Some(String::from_str(KEY_DEFAULTS[8])),
            tab_goto_previous: Some(String::from_str(KEY_DEFAULTS[9])),
            tab_goto_last: Some(String::from_str(KEY_DEFAULTS[10])),
            tab_goto_01: Some(String::from_str(KEY_DEFAULTS[11])),
            tab_goto_02: Some(String::from_str(KEY_DEFAULTS[12])),
            tab_goto_03: Some(String::from_str(KEY_DEFAULTS[13])),
            tab_goto_04: Some(String::from_str(KEY_DEFAULTS[14])),
            tab_goto_05: Some(String::from_str(KEY_DEFAULTS[15])),
            tab_goto_06: Some(String::from_str(KEY_DEFAULTS[16])),
            tab_goto_07: Some(String::from_str(KEY_DEFAULTS[17])),
            tab_goto_08: Some(String::from_str(KEY_DEFAULTS[18])),
            font_size_inc: Some(String::from_str(KEY_DEFAULTS[19])),
            font_size_dec: Some(String::from_str(KEY_DEFAULTS[20])),
            font_size_reset: Some(String::from_str(KEY_DEFAULTS[21])),
        };
        assert(keys.shortcuts() =~= Seq::new(22, |i: int| Some(KEY_DEFAULTS@[i]@)));
        keys
    }
}

/// The configured value, or `default` where nothing is configured.
pub open spec fn value_or<T>(configured: Option<T>, default: T) -> T {
    match configured {
        Some(value) => value,
        None => default,
    }
}

/// The view of a colour that may be missing.
pub open spec fn rgba_of(color: Option<CfgRgba>) -> Option<CfgRgbaModel> {
    match color {
        Some(c) => Some(c@),
        None => None,
    }
}

/// `display` holds what `raw` configures, and the default for everything
/// that `raw` leaves out.
pub open spec fn display_from(raw: RawCfgDisplay, display: CfgDisplay) -> bool {
    &&& display.monitor == raw.monitor
    &&& display.width == raw.width
    &&& display.height == raw.height
    &&& display.width_percentage == raw.width_percentage
    &&& display.height_percentage == raw.height_percentage
    &&& display.tab_title_num_characters == raw.tab_title_num_characters
    &&& display.x_pos == value_or(raw.x_pos, 0u32)
    &&& display.y_pos == value_or(raw.y_pos, 0u32)
    &&& display.start_hidden == value_or(raw.start_hidden, false)
    &&& display.skip_task_bar == value_or(raw.skip_task_bar, true)
    &&& display.always_on_top == value_or(raw.always_on_top, true)
    &&& display.sticky == value_or(raw.sticky, true)
    &&& display.fullscreen == value_or(raw.fullscreen, false)
    &&& display.tab_scroll_wrap == value_or(raw.tab_scroll_wrap, true)
    &&& display.tab_mode == value_or(raw.tab_mode, TabMode::Auto)
    &&& display.tab_position == value_or(raw.tab_position, TabPosition::Top)
    &&& display.tab_expand == value_or(raw.tab_expand, false)
    &&& display.scrollbar_position == value_or(raw.scrollbar_position, ScrollbarPosition::Hidden)
    &&& display.title@ == value_or(text_of(raw.title), TITLE@)
}

/// `color` holds the colours that `raw` configures, as far as they can be
/// read, with black for a background or a cursor and white for a foreground
/// that cannot. `accepted` holds the texts that the toolkit can read as a
/// colour.
pub open spec fn color_from(raw: RawCfgColor, color: CfgColor, accepted: Seq<Seq<char>>) -> bool {
    &&& color.bg@ == value_or(parsed_color(text_of(raw.bg), accepted), CfgRgbaModel::Text(BG_COLOR@))
    &&& color.fg@ == value_or(parsed_color(text_of(raw.fg), accepted), CfgRgbaModel::Text(FG_COLOR@))
    &&& color.cursor@ == value_or(
        parsed_color(text_of(raw.cursor), accepted),
        CfgRgbaModel::Text(CURSOR_COLOR@),
    )
    &&& color.pallet == value_or(raw.pallet, Pallet::Tango)
    &&& rgba_of(color.color_00) == parsed_color(text_of(raw.color_00), accepted)
    &&& rgba_of(color.color_01) == parsed_color(text_of(raw.color_01), accepted)
    &&& rgba_of(color.color_02) == parsed_color(text_of(raw.color_02), accepted)
    &&& rgba_of(color.color_03) == parsed_color(text_of(raw.color_03), accepted)
    &&& rgba_of(color.color_04) == parsed_color(text_of(raw.color_04), accepted)
    &&& rgba_of(color.color_05) == parsed_color(text_of(raw.color_05), accepted)
    &&& rgba_of(color.color_06) == parsed_color(text_of(raw.color_06), accepted)
    &&& rgba_of(color.color_07) == parsed_color(text_of(raw.color_07), accepted)
    &&& rgba_of(color.color_08) == parsed_color(text_of(raw.color_08), accepted)
    &&& rgba_of(color.color_09) == parsed_color(text_of(raw.color_09), accepted)
    &&& rgba_of(color.color_10) == parsed_color(text_of(raw.color_10), accepted)
    &&& rgba_of(color.color_11) == parsed_color(text_of(raw.color_11), accepted)
    &&& rgba_of(color.color_12) == parsed_color(text_of(raw.color_12), accepted)
    &&& rgba_of(color.color_13) == parsed_color(text_of(raw.color_13), accepted)
    &&& rgba_of(color.color_14) == parsed_color(text_of(raw.color_14), accepted)
    &&& rgba_of(color.color_15) == parsed_color(text_of(raw.color_15), accepted)
}

/// `terminal` holds what `raw` configures, and the default for everything
/// that `raw` leaves out.
pub open spec fn terminal_from(raw: RawCfgTerminal, terminal: CfgTerminal) -> bool {
    &&& terminal.allow_hyper_link == value_or(raw.allow_hyper_link, true)
    &&& terminal.audible_bell == value_or(raw.audible_bell, false)
    &&& terminal.cursor_blink == value_or(raw.cursor_blink, false)
    &&& terminal.cursor_shape == value_or(raw.cursor_shape, CursorShape::Block)
    &&& terminal.scroll_on_output == value_or(raw.scroll_on_output, false)
    &&& terminal.scroll_on_keystroke == value_or(raw.scroll_on_keystroke, true)
    &&& terminal.mouse_auto_hide == value_or(raw.mouse_auto_hide, false)
    &&& terminal.scrollback_lines == value_or(raw.scrollback_lines, SCROLLBACK_LINES)
    &&& terminal.backspace_binding == value_or(raw.backspace_binding, EraseBinding::Auto)
    &&& terminal.delete_binding == value_or(raw.delete_binding, EraseBinding::Auto)
    &&& terminal.word_char_exceptions@ == value_or(text_of(raw.word_char_exceptions), WORD_CHARS@)
}

/// `behavior` holds what `raw` configures, and the default for everything
/// that `raw` leaves out.
pub open spec fn behavior_from(raw: RawCfgBehavior, behavior: CfgBehavior) -> bool {
    &&& behavior.terminal_exit_behavior == value_or(
        raw.terminal_exit_behavior,
        TerminalExitBehavior::ExitTerminal,
    )
    &&& behavior.last_tab_exit_behavior == value_or(
        raw.last_tab_exit_behavior,
        LastTabExitBehavior::RestartTerminal,
    )
}

/// `hack` holds the keys that `raw` configures, and `F1` where it
/// configures none.
pub open spec fn hack_from(raw: RawCfgHack, hack: CfgHack) -> bool {
    match raw.toggle {
        Some(keys) => hack.toggle == keys,
        None => hack.toggle@.len() == 1 && hack.toggle@[0]@ == "F1"@,
    }
}

impl CfgDisplay {
    /// Fills in the defaults for what the configuration leaves out.
    pub fn from_raw(raw: RawCfgDisplay) -> (display: CfgDisplay)
        ensures
            display_from(raw, display),
    {
        CfgDisplay {
            monitor: raw.monitor,
            title: match raw.title {
                Some(title) => title,
                None => String::from_str(TITLE),
            },
            width: raw.width,
            height: raw.height,
            width_percentage: raw.width_percentage,
            height_percentage: raw.height_percentage,
            tab_title_num_characters: raw.tab_title_num_characters,
            x_pos: match raw.x_pos {
                Some(value) => value,
                None => 0,
            },
            y_pos: match raw.y_pos {
                Some(value) => value,
                None => 0,
            },
            start_hidden: match raw.start_hidden {
                Some(value) => value,
                None => false,
            },
            skip_task_bar: match raw.skip_task_bar {
                Some(value) => value,
                None => true,
            },
            always_on_top: match raw.always_on_top {
                Some(value) => value,
                None => true,
            },
            sticky: match raw.sticky {
                Some(value) => value,
                None => true,
            },
            fullscreen: match raw.fullscreen {
                Some(value) => value,
                None => false,
            },
            tab_scroll_wrap: match raw.tab_scroll_wrap {
                Some(value) => value,
                None => true,
            },
            tab_mode: match raw.tab_mode {
                Some(value) => value,
                None => TabMode::Auto,
            },
            tab_position: match raw.tab_position {
                Some(value) => value,
                None => TabPosition::Top,
            },
            tab_expand: match raw.tab_expand {
                Some(value) => value,
                None => false,
            },
            scrollbar_position: match raw.scrollbar_position {
                Some(value) => value,
                None => ScrollbarPosition::Hidden,
            },
        }
    }
}

impl CfgColor {
    /// Reads the configured colours; `accepted` holds the texts that the
    /// toolkit can read as a colour.
    pub fn from_raw(raw: RawCfgColor, accepted: &Vec<String>) -> (color: CfgColor)
        ensures
            color_from(raw, color, texts(accepted@)),
    {
        CfgColor {
            bg: try_parse_color_or_default(raw.bg, BG_COLOR, accepted),
            fg: try_parse_color_or_default(raw.fg, FG_COLOR, accepted),
            cursor: try_parse_color_or_default(raw.cursor, CURSOR_COLOR, accepted),
            pallet: match raw.pallet {
                Some(pallet) => pallet,
                None => Pallet::Tango,
            },
            color_00: try_parse_color(raw.color_00, accepted),
            color_01: try_parse_color(raw.color_01, accepted),
            color_02: try_parse_color(raw.color_02, accepted),
            color_03: try_parse_color(raw.color_03, accepted),
            color_04: try_parse_color(raw.color_04, accepted),
            color_05: try_parse_color(raw.color_05, accepted),
            color_06: try_parse_color(raw.color_06, accepted),
            color_07: try_parse_color(raw.color_07, accepted),
            color_08: try_parse_color(raw.color_08, accepted),
            color_09: try_parse_color(raw.color_09, accepted),
            color_10: try_parse_color(raw.color_10, accepted),
            color_11: try_parse_color(raw.color_11, accepted),
            color_12: try_parse_color(raw.color_12, accepted),
            color_13: try_parse_color(raw.color_13, accepted),
            color_14: try_parse_color(raw.color_14, accepted),
            color_15: try_parse_color(raw.color_15, accepted),
        }
    }

    /// The colours that the configuration gives in place of colours of the
    /// pallet, from colour 0 to colour 15.
    pub open spec fn overrides(&self) -> Seq<Option<CfgRgbaModel>> {
        seq![
            rgba_of(self.color_00),
            rgba_of(self.color_01),
            rgba_of(self.color_02),
            rgba_of(self.color_03),
            rgba_of(self.color_04),
            rgba_of(self.color_05),
            rgba_of(self.color_06),
            rgba_of(self.color_07),
            rgba_of(self.color_08),
            rgba_of(self.color_09),
            rgba_of(self.color_10),
            rgba_of(self.color_11),
            rgba_of(self.color_12),
            rgba_of(self.color_13),
            rgba_of(self.color_14),
            rgba_of(self.color_15),
        ]
    }

    /// The sixteen colours of the terminals: each colour of the pallet,
    /// unless the configuration gives another in its place.
    pub open spec fn user_pallet_spec(&self) -> Seq<CfgRgbaModel> {
        Seq::new(
            16,
            |i: int|
                value_or(self.overrides()[i], CfgRgbaModel::Parts(self.pallet.spec_colors()[i])),
        )
    }

    /// The sixteen colours of the terminals, from colour 0 to colour 15.
    pub fn user_pallet(&self) -> (pallet: Vec<CfgRgba>)
        ensures
            rgba_views(pallet@) == self.user_pallet_spec(),
    {
        let base = self.pallet.colors();
        let mut pallet: Vec<CfgRgba> = Vec::new();
        pallet.push(pick(&self.color_00, base[0]));
        pallet.push(pick(&self.color_01, base[1]));
        pallet.push(pick(&self.color_02, base[2]));
        pallet.push(pick(&self.color_03, base[3]));
        pallet.push(pick(&self.color_04, base[4]));
        pallet.push(pick(&self.color_05, base[5]));
        pallet.push(pick(&self.color_06, base[6]));
        pallet.push(pick(&self.color_07, base[7]));
        pallet.push(pick(&self.color_08, base[8]));
        pallet.push(pick(&self.color_09, base[9]));
        pallet.push(pick(&self.color_10, base[10]));
        pallet.push(pick(&self.color_11, base[11]));
        pallet.push(pick(&self.color_12, base[12]));
        pallet.push(pick(&self.color_13, base[13]));
        pallet.push(pick(&self.color_14, base[14]));
        pallet.push(pick(&self.color_15, base[15]));
        assert(rgba_views(pallet@) =~= self.user_pallet_spec());
        pallet
    }
}

/// The views of the colours of `colors`.
pub open spec fn rgba_views(colors: Seq<CfgRgba>) -> Seq<CfgRgbaModel> {
    Seq::new(colors.len(), |i: int| colors[i]@)
}

/// The configured colour, or the colour of the pallet where none is
/// configured.
fn pick(configured: &Option<CfgRgba>, base: Rgb16) -> (color: CfgRgba)
    ensures
        color@ == value_or(rgba_of(*configured), CfgRgbaModel::Parts(base)),
{
    match configured {
        Some(color) => color.duplicate(),
        None => CfgRgba::Parts(base),
    }
}

impl CfgTerminal {
    /// Fills in the defaults for what the configuration leaves out.
    pub fn from_raw(raw: RawCfgTerminal) -> (terminal: CfgTerminal)
        ensures
            terminal_from(raw, terminal),
    {
        CfgTerminal {
            allow_hyper_link: match raw.allow_hyper_link {
                Some(value) => value,
                None => true,
            },
            audible_bell: match raw.audible_bell {
                Some(value) => value,
                None => false,
            },
            cursor_blink: match raw.cursor_blink {
                Some(value) => value,
                None => false,
            },
            cursor_shape: match raw.cursor_shape {
                Some(value) => value,
                None => CursorShape::Block,
            },
            scroll_on_output: match raw.scroll_on_output {
                Some(value) => value,
                None => false,
            },
            scroll_on_keystroke: match raw.scroll_on_keystroke {
                Some(value) => value,
                None => true,
            },
            mouse_auto_hide: match raw.mouse_auto_hide {
                Some(value) => value,
                None => false,
            },
            scrollback_lines: match raw.scrollback_lines {
                Some(value) => value,
                None => SCROLLBACK_LINES,
            },
            backspace_binding: match raw.backspace_binding {
                Some(value) => value,
                None => EraseBinding::Auto,
            },
            delete_binding: match raw.delete_binding {
                Some(value) => value,
                None => EraseBinding::Auto,
            },
            word_char_exceptions: match raw.word_char_exceptions {
                Some(chars) => chars,
                None => String::from_str(WORD_CHARS),
            },
        }
    }
}

impl CfgBehavior {
    /// Fills in the defaults for what the configuration leaves out.
    pub fn from_raw(raw: RawCfgBehavior) -> (behavior: CfgBehavior)
        ensures
            behavior_from(raw, behavior),
    {
        CfgBehavior {
            terminal_exit_behavior: match raw.terminal_exit_behavior {
                Some(value) => value,
                None => TerminalExitBehavior::ExitTerminal,
            },
            last_tab_exit_behavior: match raw.last_tab_exit_behavior {
                Some(value) => value,
                None => LastTabExitBehavior::RestartTerminal,
            },
        }
    }
}

impl ZohaCfg {
    /// Makes the configuration of what the configuration file says.
    ///
    /// Whatever the file leaves out gets its default. `command` is the
    /// command that the terminals run. `accelerators` holds the texts that
    /// the toolkit can read as a shortcut, and `colors` those that it can
    /// read as a colour.
    pub fn from_raw(
        raw: RawCfg,
        command: String,
        accelerators: &Vec<String>,
        colors: &Vec<String>,
    ) -> (cfg: ZohaCfg)
        ensures
            cfg.font.font@ == font_description_spec(text_of(raw.font.font), raw.font.size),
            display_from(raw.display, cfg.display),
            color_from(raw.color, cfg.color, texts(colors@)),
            cfg.process.command == command,
            cfg.process.working_dir == raw.process.working_dir,
            cfg.keys.shortcuts() == chosen_keys(raw.keys.texts(), texts(accelerators@)),
            terminal_from(raw.terminal, cfg.terminal),
            behavior_from(raw.behavior, cfg.behavior),
            hack_from(raw.hack, cfg.hack),
    {
        ZohaCfg {
            font: CfgFont { font: font_description(raw.font.font, raw.font.size) },
            display: CfgDisplay::from_raw(raw.display),
            color: CfgColor::from_raw(raw.color, colors),
            process: CfgProcess { command, working_dir: raw.process.working_dir },
            keys: CfgKey::from_raw(raw.keys, accelerators),
            terminal: CfgTerminal::from_raw(raw.terminal),
            behavior: CfgBehavior::from_raw(raw.behavior),
            hack: CfgHack {
                toggle: match raw.hack.toggle {
                    Some(keys) => keys,
                    None => default_key_codes(),
                },
            },
        }
    }

    /// The configuration that is used where no file can be had: every
    /// default, every default shortcut, and tab titles that show up to
    /// `TAB_NUM_CHARS` characters of the working directory. `command` is the
    /// command that the terminals run.
    pub fn defaults(command: String) -> (cfg: ZohaCfg)
        ensures
            cfg.font.font@ == font_description_spec(None, None),
            display_from(
                RawCfgDisplay { tab_title_num_characters: Some(TAB_NUM_CHARS), ..RawCfgDisplay::empty() },
                cfg.display,
            ),
            color_from(RawCfgColor::empty(), cfg.color, Seq::empty()),
            cfg.process.command == command,
            cfg.process.working_dir.is_none(),
            cfg.keys.shortcuts() == Seq::new(22, |i: int| Some(KEY_DEFAULTS@[i]@)),
            terminal_from(RawCfgTerminal::empty(), cfg.terminal),
            behavior_from(RawCfgBehavior::empty(), cfg.behavior),
            hack_from(RawCfgHack::empty(), cfg.hack),
    {
        let mut display = RawCfgDisplay::default();
        display.tab_title_num_characters = Some(TAB_NUM_CHARS);
        let nothing: Vec<String> = Vec::new();
        assert(texts(nothing@) =~= Seq::<Seq<char>>::empty());
        ZohaCfg {
            font: CfgFont { font: font_description(None, None) },
            display: CfgDisplay::from_raw(display),
            color: CfgColor::from_raw(RawCfgColor::default(), &nothing),
            process: CfgProcess { command, working_dir: None },
            keys: CfgKey::defaults(),
            terminal: CfgTerminal::from_raw(RawCfgTerminal::default()),
            behavior: CfgBehavior::from_raw(RawCfgBehavior::default()),
            hack: CfgHack { toggle: default_key_codes() },
        }
    }
}

impl CfgReadError {
    /// What the error says to the user.
    pub open spec fn message(&self) -> Seq<char> {
        match self {
            CfgReadError::OverriddenCfgDoesNotExist { location } => {
                "overridden config location is specified but it does not exist: "@ + location@
            },
            CfgReadError::NoHomeDir => {
                "no config location specified and user has no home directory"@
            },
            CfgReadError::NoConfigInHomeDir { location } => {
                "overridden config not specified and no config file in user home directory, looked for: "@
                    + location@
            },
            CfgReadError::FileReadError { location, error } => {
                "error reading the config file, tried to read: "@ + location@ + ", error: "@ + error@
            },
        }
    }

    /// Writes what the error says to the user.
    pub fn to_string(&self) -> (message: String)
        ensures
            message@ == self.message(),
    {
        match self {
            CfgReadError::OverriddenCfgDoesNotExist { location } => {
                let mut message = String::from_str(
                    "overridden config location is specified but it does not exist: ",
                );
                message.append(location.as_str());
                message
            },
            CfgReadError::NoHomeDir => {
                String::from_str("no config location specified and user has no home directory")
            },
            CfgReadError::NoConfigInHomeDir { location } => {
                let mut message = String::from_str(
                    "overridden config not specified and no config file in user home directory, looked for: ",
                );
                message.append(location.as_str());
                message
            },
            CfgReadError::FileReadError { location, error } => {
                let mut message = String::from_str("error reading the config file, tried to read: ");
                message.append(location.as_str());
                message.append(", error: ");
                message.append(error.as_str());
                message
            },
        }
    }
}

/// The monitor on which the window is to be shown.
#[derive(Debug)]
pub enum MonitorChoice {
    /// The primary monitor.
    Primary,
    /// The monitor with this number, and the primary one where there is
    /// none.
    Index(u8),
    /// The monitor of this model, and the primary one where there is none.
    Model(String),
}

/// What the contracts read of a choice of monitor.
pub enum MonitorChoiceModel {
    Primary,
    Index(u8),
    Model(Seq<char>),
}

impl View for MonitorChoice {
    type V = MonitorChoiceModel;

    open spec fn view(&self) -> MonitorChoiceModel {
        match self {
            MonitorChoice::Primary => MonitorChoiceModel::Primary,
            MonitorChoice::Index(index) => MonitorChoiceModel::Index(*index),
            MonitorChoice::Model(model) => MonitorChoiceModel::Model(model@),
        }
    }
}

/// The monitor that the configured text stands for.
///
/// A line of the list of monitors, a number, a hyphen between spaces and a
/// model, stands for what is in front of the hyphen. What is left is the
/// number of the monitor where it is a number up to 255, and else its model.
/// Nothing configured stands for the primary monitor.
pub open spec fn monitor_choice(monitor: Option<Seq<char>>) -> MonitorChoiceModel {
    match monitor {
        None => MonitorChoiceModel::Primary,
        Some(text) => match number_spec(before_dash(text), 10, 255) {
            Some(index) => MonitorChoiceModel::Index(index as u8),
            None => MonitorChoiceModel::Model(before_dash(text)),
        },
    }
}

impl CfgDisplay {
    /// Tells which monitor the configuration asks for.
    pub fn get_monitor(&self) -> (choice: MonitorChoice)
        ensures
            choice@ == monitor_choice(text_of(self.monitor)),
    {
        match &self.monitor {
            None => MonitorChoice::Primary,
            Some(index_or_model) => {
                let cfg_model = cut_before_dash(index_or_model.as_str());
                match read_number(cfg_model.as_str(), 10, 255) {
                    Some(index) => MonitorChoice::Index(index as u8),
                    None => MonitorChoice::Model(cfg_model),
                }
            },
        }
    }
}

} // verus!
