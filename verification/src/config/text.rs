use vstd::prelude::*;
use vstd::string::*;

verus! {

/// Whether `c` is white space: one of the characters that Unicode gives the
/// property White_Space.
pub open spec fn is_space(c: char) -> bool {
    let n = c as u32;
    ||| 0x09 <= n <= 0x0d
    ||| n == 0x20
    ||| n == 0x85
    ||| n == 0xa0
    ||| n == 0x1680
    ||| 0x2000 <= n <= 0x200a
    ||| n == 0x2028
    ||| n == 0x2029
    ||| n == 0x202f
    ||| n == 0x205f
    ||| n == 0x3000
}

/// Whether `s` holds nothing but white space.
pub open spec fn blank(s: Seq<char>) -> bool {
    forall|i: int| 0 <= i < s.len() ==> is_space(#[trigger] s[i])
}

/// Tells whether a text holds nothing but white space.
pub fn is_blank(s: &str) -> (b: bool)
    ensures
        b == blank(s@),
{
    let len: usize = s.unicode_len();
    let mut i: usize = 0;
    while i < len
        invariant
            i <= len,
            len == s@.len(),
            forall|j: int| 0 <= j < i ==> is_space(#[trigger] s@[j]),
        decreases len - i,
    {
        let n: u32 = s.get_char(i) as u32;
        let space = (0x09 <= n && n <= 0x0d) || n == 0x20 || n == 0x85 || n == 0xa0 || n == 0x1680 || (
        0x2000 <= n && n <= 0x200a) || n == 0x2028 || n == 0x2029 || n == 0x202f || n == 0x205f || n
            == 0x3000;
        if !space {
            return false;
        }
        i += 1;
    }
    true
}

/// The texts of `list`.
pub open spec fn texts(list: Seq<String>) -> Seq<Seq<char>> {
    Seq::new(list.len(), |i: int| list[i]@)
}

/// Tells whether `text` is among the texts of `list`.
pub fn contains_text(list: &Vec<String>, text: &str) -> (found: bool)
    ensures
        found == texts(list@).contains(text@),
{
    let wanted = String::from_str(text);
    let mut i: usize = 0;
    while i < list.len()
        invariant
            i <= list@.len(),
            wanted@ == text@,
            forall|j: int| 0 <= j < i ==> texts(list@)[j] != text@,
        decreases list@.len() - i,
    {
        if list[i] == wanted {
            assert(texts(list@)[i as int] == text@);
            return true;
        }
        i += 1;
    }
    false
}

/// Whether `s` begins with `prefix`.
pub open spec fn begins_with(s: Seq<char>, prefix: Seq<char>) -> bool {
    prefix.len() <= s.len() && s.subrange(0, prefix.len() as int) == prefix
}

/// The value of the hexadecimal digit `c`, in either case.
pub open spec fn hex_digit(c: char) -> Option<nat> {
    let n = c as u32;
    if 0x30 <= n <= 0x39 {
        Some((n - 0x30) as nat)
    } else if 0x61 <= n <= 0x66 {
        Some((n - 0x61 + 10) as nat)
    } else if 0x41 <= n <= 0x46 {
        Some((n - 0x41 + 10) as nat)
    } else {
        None
    }
}

/// The value of the digit `c` in the base `radix`.
pub open spec fn digit_of(c: char, radix: nat) -> Option<nat> {
    match hex_digit(c) {
        Some(d) => if d < radix {
            Some(d)
        } else {
            None
        },
        None => None,
    }
}

/// The number that the digits `s` write in the base `radix`; none where `s`
/// holds anything but such digits.
pub open spec fn digits_value(s: Seq<char>, radix: nat) -> Option<nat>
    decreases s.len(),
{
    if s.len() == 0 {
        Some(0)
    } else {
        match (digits_value(s.drop_last(), radix), digit_of(s.last(), radix)) {
            (Some(v), Some(d)) => Some(radix * v + d),
            _ => None,
        }
    }
}

/// The number that `s` writes in the base `radix`, where it is no more than
/// `limit`. The number is written as one or more digits, with or without a
/// plus sign in front.
pub open spec fn number_spec(s: Seq<char>, radix: nat, limit: u32) -> Option<u32> {
    let digits = if s.len() > 0 && s[0] == '+' {
        s.subrange(1, s.len() as int)
    } else {
        s
    };
    if digits.len() == 0 {
        None
    } else {
        match digits_value(digits, radix) {
            Some(v) => if v <= limit {
                Some(v as u32)
            } else {
                None
            },
            None => None,
        }
    }
}

/// The hexadecimal number that `s` writes, where it is no more than
/// `0xffff`.
pub open spec fn hex_code_spec(s: Seq<char>) -> Option<u32> {
    number_spec(s, 16, 0xffff)
}

proof fn lemma_digits_value_grows(s: Seq<char>, radix: nat, n: int)
    requires
        0 <= n <= s.len(),
        radix >= 1,
    ensures
        digits_value(s, radix).is_some() ==> digits_value(s.subrange(0, n), radix).is_some()
            && digits_value(s.subrange(0, n), radix).unwrap() <= digits_value(s, radix).unwrap(),
    decreases s.len(),
{
    if n == s.len() {
        assert(s.subrange(0, n) =~= s);
    } else {
        lemma_digits_value_grows(s.drop_last(), radix, n);
        assert(s.drop_last().subrange(0, n) =~= s.subrange(0, n));
        if digits_value(s, radix).is_some() {
            let v = digits_value(s.drop_last(), radix).unwrap();
            assert(v <= radix * v) by (nonlinear_arith)
                requires
                    radix >= 1,
                    v >= 0,
            ;
        }
    }
}

/// Reads a number of no more than `limit` in the base `radix`.
pub fn read_number(s: &str, radix: u32, limit: u32) -> (number: Option<u32>)
    requires
        2 <= radix <= 16,
        limit <= 0xff_ffff,
    ensures
        number == number_spec(s@, radix as nat, limit),
{
    let len: usize = s.unicode_len();
    let start: usize = if len > 0 && s.get_char(0) == '+' {
        1
    } else {
        0
    };
    if start == len {
        return None;
    }
    let ghost digits = s@.subrange(start as int, len as int);
    assert(start == 0 ==> digits =~= s@);
    assert(digits_value(digits.subrange(0, 0), radix as nat) == Some(0nat));
    let mut value: u32 = 0;
    let mut i: usize = start;
    while i < len
        invariant
            start <= i <= len,
            len == s@.len(),
            2 <= radix <= 16,
            limit <= 0xff_ffff,
            digits == s@.subrange(start as int, len as int),
            digits.len() > 0,
            digits == if s@.len() > 0 && s@[0] == '+' {
                s@.subrange(1, s@.len() as int)
            } else {
                s@
            },
            digits_value(digits.subrange(0, i - start), radix as nat) == Some(value as nat),
            value <= limit,
        decreases len - i,
    {
        let c: char = s.get_char(i);
        let n: u32 = c as u32;
        let found: Option<u32> = if 0x30 <= n && n <= 0x39 {
            Some(n - 0x30)
        } else if 0x61 <= n && n <= 0x66 {
            Some(n - 0x61 + 10)
        } else if 0x41 <= n && n <= 0x46 {
            Some(n - 0x41 + 10)
        } else {
            None
        };
        let ghost upto = digits.subrange(0, i - start + 1);
        proof {
            assert(upto.drop_last() =~= digits.subrange(0, i - start));
            assert(upto.last() == c);
            lemma_digits_value_grows(digits, radix as nat, i - start + 1);
        }
        let digit: u32 = match found {
            Some(d) => if d < radix {
                d
            } else {
                assert(digits_value(upto, radix as nat).is_none());
                return None;
            },
            None => {
                assert(digits_value(upto, radix as nat).is_none());
                return None;
            },
        };
        assert(radix * value <= 16 * 0xff_ffff) by (nonlinear_arith)
            requires
                radix <= 16,
                value <= 0xff_ffff,
        ;
        let next: u32 = radix * value + digit;
        assert(digits_value(upto, radix as nat) == Some(next as nat));
        if next > limit {
            return None;
        }
        value = next;
        i += 1;
    }
    assert(digits.subrange(0, len - start) =~= digits);
    Some(value)
}

/// Reads a hexadecimal number of no more than `0xffff`.
pub fn hex_code(s: &str) -> (code: Option<u32>)
    ensures
        code == hex_code_spec(s@),
{
    read_number(s, 16, 0xffff)
}

/// Whether the three characters of `s` from place `i` on are a space, a
/// hyphen and a space.
pub open spec fn dash_at(s: Seq<char>, i: int) -> bool {
    0 <= i && i + 3 <= s.len() && s[i] == ' ' && s[i + 1] == '-' && s[i + 2] == ' '
}

/// The first place from `from` on at which a space, a hyphen and a space
/// stand in `s`; the length of `s` where they stand nowhere.
pub open spec fn dash_place(s: Seq<char>, from: int) -> int
    decreases s.len() - from,
{
    if from < 0 || from + 3 > s.len() {
        s.len() as int
    } else if dash_at(s, from) {
        from
    } else {
        dash_place(s, from + 1)
    }
}

/// What stands in `s` before the first space, hyphen and space; all of `s`
/// where they stand nowhere.
pub open spec fn before_dash(s: Seq<char>) -> Seq<char> {
    s.subrange(0, dash_place(s, 0))
}

/// Cuts a text off before the first space, hyphen and space in it.
pub fn cut_before_dash(s: &str) -> (head: String)
    ensures
        head@ == before_dash(s@),
{
    let len: usize = s.unicode_len();
    let mut i: usize = 0;
    while len >= 3 && i <= len - 3
        invariant
            i <= len,
            len == s@.len(),
            dash_place(s@, 0) == dash_place(s@, i as int),
        decreases len - i,
    {
        if s.get_char(i) == ' ' && s.get_char(i + 1) == '-' && s.get_char(i + 2) == ' ' {
            assert(dash_at(s@, i as int));
            return String::from_str(s.substring_char(0, i));
        }
        assert(!dash_at(s@, i as int));
        i += 1;
    }
    assert(s@.subrange(0, len as int) =~= s@);
    String::from_str(s)
}

} // verus!
