use vstd::prelude::*;
use vstd::string::*;

verus! {

/// The character that stands for the decimal digit `d`.
pub open spec fn digit_char(d: int) -> char {
    if d == 0 {
        '0'
    } else if d == 1 {
        '1'
    } else if d == 2 {
        '2'
    } else if d == 3 {
        '3'
    } else if d == 4 {
        '4'
    } else if d == 5 {
        '5'
    } else if d == 6 {
        '6'
    } else if d == 7 {
        '7'
    } else if d == 8 {
        '8'
    } else {
        '9'
    }
}

/// The decimal numeral of `n`, most significant digit first, without
/// leading zeros.
pub open spec fn decimal(n: nat) -> Seq<char>
    decreases n,
{
    if n < 10 {
        seq![digit_char(n as int)]
    } else {
        decimal(n / 10).push(digit_char((n % 10) as int))
    }
}

/// How many characters of a working directory a tab title may show: the
/// magnitude of the configured number.
pub open spec fn location_limit(max: i8) -> nat {
    if max >= 0 {
        max as nat
    } else {
        (-(max as int)) as nat
    }
}

/// The part of the working directory that a tab title shows.
///
/// Without a configured number, with the number zero, or when the directory
/// fits, the whole directory is shown. A longer directory is cut down to its
/// last characters for a positive number and to its first characters for a
/// negative one.
pub open spec fn shown_location(hint: Seq<char>, max: Option<i8>) -> Seq<char> {
    match max {
        None => hint,
        Some(m) => {
            let limit = location_limit(m);
            if m == 0 || hint.len() <= limit {
                hint
            } else if m > 0 {
                hint.subrange(hint.len() - limit, hint.len() as int)
            } else {
                hint.subrange(0, limit as int)
            }
        },
    }
}

/// The title of the tab at 0-based `position` that belongs to the terminal
/// numbered `identity`. The title counts positions from one.
pub open spec fn label_text(
    identity: u64,
    position: u32,
    hint: Option<Seq<char>>,
    max: Option<i8>,
) -> Seq<char> {
    match hint {
        None => seq!['['] + decimal((position + 1) as nat) + seq!['/'] + decimal(identity as nat)
            + seq![']'],
        Some(h) => seq!['['] + decimal((position + 1) as nat) + seq![']', ' ', '-', ' ']
            + decimal(identity as nat) + seq!['@'] + shown_location(h, max),
    }
}

fn digit_str(d: u64) -> (s: &'static str)
    requires
        d < 10,
    ensures
        s@ == seq![digit_char(d as int)],
{
    proof {
        reveal_strlit("0");
        reveal_strlit("1");
        reveal_strlit("2");
        reveal_strlit("3");
        reveal_strlit("4");
        reveal_strlit("5");
        reveal_strlit("6");
        reveal_strlit("7");
        reveal_strlit("8");
        reveal_strlit("9");
    }
    let s: &'static str = if d == 0 {
        "0"
    } else if d == 1 {
        "1"
    } else if d == 2 {
        "2"
    } else if d == 3 {
        "3"
    } else if d == 4 {
        "4"
    } else if d == 5 {
        "5"
    } else if d == 6 {
        "6"
    } else if d == 7 {
        "7"
    } else if d == 8 {
        "8"
    } else {
        "9"
    };
    assert(s@ =~= seq![digit_char(d as int)]);
    s
}

/// Writes `n` as a decimal numeral.
pub fn decimal_string(n: u64) -> (s: String)
    ensures
        s@ == decimal(n as nat),
    decreases n,
{
    if n < 10 {
        String::from_str(digit_str(n))
    } else {
        let mut s = decimal_string(n / 10);
        s.append(digit_str(n % 10));
        assert(s@ =~= decimal(n as nat));
        s
    }
}

/// Cuts a working directory down to what a tab title shows of it.
pub fn shorten_location(hint: &str, max_location_chars: Option<i8>) -> (shown: String)
    ensures
        shown@ == shown_location(hint@, max_location_chars),
{
    match max_location_chars {
        None => String::from_str(hint),
        Some(m) => {
            let limit: usize = if m >= 0 {
                m as usize
            } else {
                (-(m as i16)) as usize
            };
            let len: usize = hint.unicode_len();
            if m == 0 || len <= limit {
                String::from_str(hint)
            } else if m > 0 {
                String::from_str(hint.substring_char(len - limit, len))
            } else {
                String::from_str(hint.substring_char(0, limit))
            }
        },
    }
}

/// Formats the title of a tab.
///
/// A terminal whose working directory is unknown is titled
/// `[position/identity]`; one whose directory is known is titled
/// `[position] - identity@directory`, with the directory cut down as
/// `max_location_chars` asks. The position is shown counted from one.
pub fn format_label(
    identity: u64,
    position: u32,
    location_hint: Option<&str>,
    max_location_chars: Option<i8>,
) -> (label: String)
    ensures
        label@ == label_text(
            identity,
            position,
            match location_hint {
                Some(h) => Some(h@),
                None => None,
            },
            max_location_chars,
        ),
{
    proof {
        reveal_strlit("[");
        reveal_strlit("/");
        reveal_strlit("]");
        reveal_strlit("] - ");
        reveal_strlit("@");
    }
    let shown_position: u64 = position as u64 + 1;
    let mut label = String::from_str("[");
    label.append(decimal_string(shown_position).as_str());
    match location_hint {
        None => {
            label.append("/");
            label.append(decimal_string(identity).as_str());
            label.append("]");
            assert(label@ =~= label_text(identity, position, None, max_location_chars));
        },
        Some(h) => {
            label.append("] - ");
            label.append(decimal_string(identity).as_str());
            label.append("@");
            label.append(shorten_location(h, max_location_chars).as_str());
            assert("] - "@ =~= seq![']', ' ', '-', ' ']);
            assert(label@ =~= label_text(identity, position, Some(h@), max_location_chars));
        },
    }
    label
}

/// What the contracts read of a terminal tab.
pub struct TerminalModel {
    /// The permanent number of the terminal.
    pub tab_counter: u64,
    /// The 0-based place of the tab among the open tabs.
    pub position: u32,
    /// The working directory last reported for the terminal.
    pub cwd: Option<Seq<char>>,
    /// The title of the tab.
    pub label: Seq<char>,
}

/// The terminal `t` as it stands at `position`: the same number and working
/// directory, with the title that belongs to that position.
pub open spec fn placed(t: TerminalModel, position: u32, max: Option<i8>) -> TerminalModel {
    TerminalModel {
        tab_counter: t.tab_counter,
        position,
        cwd: t.cwd,
        label: label_text(t.tab_counter, position, t.cwd, max),
    }
}

/// One terminal tab: a permanent number that is given once and never
/// changes, the tab's current position, the working directory last reported
/// for it, and the title derived from the three.
#[derive(Debug)]
pub struct ZohaTerminal {
    pub tab_counter: u64,
    pub position: u32,
    pub cwd: Option<String>,
    pub label: String,
}

impl View for ZohaTerminal {
    type V = TerminalModel;

    open spec fn view(&self) -> TerminalModel {
        TerminalModel {
            tab_counter: self.tab_counter,
            position: self.position,
            cwd: match self.cwd {
                Some(dir) => Some(dir@),
                None => None,
            },
            label: self.label@,
        }
    }
}

impl ZohaTerminal {
    /// A terminal with the number `tab_counter` at position 0.
    pub fn with_number(tab_counter: u64, cwd: Option<String>, max_location_chars: Option<i8>) -> (term:
        Self)
        ensures
            term@ == placed(
                TerminalModel {
                    tab_counter,
                    position: 0,
                    cwd: match cwd {
                        Some(dir) => Some(dir@),
                        None => None,
                    },
                    label: Seq::empty(),
                },
                0,
                max_location_chars,
            ),
    {
        let label = match &cwd {
            Some(dir) => format_label(tab_counter, 0, Some(dir.as_str()), max_location_chars),
            None => format_label(tab_counter, 0, None, max_location_chars),
        };
        ZohaTerminal { tab_counter, position: 0, cwd, label }
    }

    /// Moves the terminal to position `idx` and gives it the title that
    /// belongs there.
    pub fn set_label(&mut self, idx: u32, max_location_chars: Option<i8>)
        ensures
            final(self)@ == placed(old(self)@, idx, max_location_chars),
    {
        let label = match &self.cwd {
            Some(dir) => format_label(self.tab_counter, idx, Some(dir.as_str()), max_location_chars),
            None => format_label(self.tab_counter, idx, None, max_location_chars),
        };
        self.position = idx;
        self.label = label;
    }

    /// Records a new working directory and refreshes the title.
    pub fn set_cwd(&mut self, cwd: Option<String>, max_location_chars: Option<i8>)
        ensures
            final(self)@ == placed(
                TerminalModel {
                    tab_counter: old(self).tab_counter,
                    position: old(self).position,
                    cwd: match cwd {
                        Some(dir) => Some(dir@),
                        None => None,
                    },
                    label: Seq::empty(),
                },
                old(self).position,
                max_location_chars,
            ),
    {
        let label = match &cwd {
            Some(dir) => format_label(self.tab_counter, self.position, Some(dir.as_str()), max_location_chars),
            None => format_label(self.tab_counter, self.position, None, max_location_chars),
        };
        self.cwd = cwd;
        self.label = label;
    }

    /// The working directory last reported for the terminal.
    pub fn get_cwd(&self) -> (cwd: Option<String>)
        ensures
            match cwd {
                Some(dir) => self@.cwd == Some(dir@),
                None => self@.cwd.is_none(),
            },
    {
        match &self.cwd {
            Some(dir) => Some(dir.clone()),
            None => None,
        }
    }
}

} // verus!
