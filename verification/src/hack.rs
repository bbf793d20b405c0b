use std::str::FromStr;

use device_query::Keycode;
use vstd::prelude::*;

verus! {

/// The names of the keys that the key listener knows, in the order in which
/// they are listed to the user.
pub const KEYCODE_NAMES: [&'static str; 96] = [
    "Key0",
    "Key1",
    "Key2",
    "Key3",
    "Key4",
    "Key5",
    "Key6",
    "Key7",
    "Key8",
    "Key9",
    "A",
    "B",
    "C",
    "D",
    "E",
    "F",
    "G",
    "H",
    "I",
    "J",
    "K",
    "L",
    "M",
    "N",
    "O",
    "P",
    "Q",
    "R",
    "S",
    "T",
    "U",
    "V",
    "W",
    "X",
    "Y",
    "Z",
    "F1",
    "F2",
    "F3",
    "F4",
    "F5",
    "F6",
    "F7",
    "F8",
    "F9",
    "F10",
    "F11",
    "F12",
    "Escape",
    "Space",
    "LControl",
    "RControl",
    "LShift",
    "RShift",
    "LAlt",
    "RAlt",
    "Meta",
    "Enter",
    "Up",
    "Down",
    "Left",
    "Right",
    "Backspace",
    "CapsLock",
    "Tab",
    "Home",
    "End",
    "PageUp",
    "PageDown",
    "Insert",
    "Delete",
    "Numpad0",
    "Numpad1",
    "Numpad2",
    "Numpad3",
    "Numpad4",
    "Numpad5",
    "Numpad6",
    "Numpad7",
    "Numpad8",
    "Numpad9",
    "NumpadSubtract",
    "NumpadAdd",
    "NumpadDivide",
    "NumpadMultiply",
    "Grave",
    "Minus",
    "Equal",
    "LeftBracket",
    "RightBracket",
    "BackSlash",
    "Semicolon",
    "Apostrophe",
    "Comma",
    "Dot",
    "Slash",
];

/// The names of the keys that can be configured to toggle the window.
pub fn list_keycodes() -> (names: Vec<&'static str>)
    ensures
        names@ == KEYCODE_NAMES@,
{
    let mut names: Vec<&'static str> = Vec::new();
    let mut i: usize = 0;
    while i < KEYCODE_NAMES.len()
        invariant
            i <= KEYCODE_NAMES@.len(),
            names@ == KEYCODE_NAMES@.subrange(0, i as int),
        decreases KEYCODE_NAMES@.len() - i,
    {
        names.push(KEYCODE_NAMES[i]);
        assert(names@ =~= KEYCODE_NAMES@.subrange(0, i + 1));
        i += 1;
    }
    assert(names@ =~= KEYCODE_NAMES@);
    names
}

/// Whether `code` is the number of the key named `name`: the place of the
/// name in `KEYCODE_NAMES`.
pub open spec fn names_code(name: Seq<char>, code: u32) -> bool {
    code < KEYCODE_NAMES@.len() && KEYCODE_NAMES@[code as int]@ == name
}

/// Whether `name` is the name of a key.
pub open spec fn known_key(name: Seq<char>) -> bool {
    exists|code: u32| names_code(name, code)
}

/// Finds the key named `name`, by `device_query`'s `Keycode::from_str`, and
/// gives its number.
///
/// `from_str` knows a key by the name of its variant of `Keycode`, and no
/// other text. The variants are declared in the order of `KEYCODE_NAMES`,
/// each under the name that stands there, so the number of a variant is the
/// place of its name in that list.
#[verifier::external_body]
fn keycode_from_name(name: &str) -> (code: Option<u32>)
    ensures
        match code {
            Some(c) => names_code(name@, c),
            None => !known_key(name@),
        },
{
    match Keycode::from_str(name) {
        Ok(keycode) => Some(keycode as u32),
        Err(_) => None,
    }
}

/// Why the keys that toggle the window could not be set.
#[derive(Debug)]
pub enum KeyError {
    /// The configuration names a key that is not known.
    InvalidKeycode(String),
}

impl KeyError {
    /// What the error says to the user.
    pub open spec fn message(&self) -> Seq<char> {
        match self {
            KeyError::InvalidKeycode(key) => "invalid keycode: "@ + key@,
        }
    }

    /// Writes what the error says to the user.
    pub fn to_string(&self) -> (message: String)
        ensures
            message@ == self.message(),
    {
        match self {
            KeyError::InvalidKeycode(key) => {
                let mut message = "invalid keycode: ".to_owned();
                vstd::string::StringExecFns::append(&mut message, key.as_str());
                message
            },
        }
    }
}

/// The keys among `v`.
pub open spec fn held(v: Seq<u32>) -> Set<u32> {
    Set::new(|code: u32| v.contains(code))
}

/// No key stands twice in `v`.
pub open spec fn distinct(v: Seq<u32>) -> bool {
    forall|i: int, j: int| 0 <= i < j < v.len() ==> v[i] != v[j]
}

fn holds(v: &Vec<u32>, code: u32) -> (found: bool)
    ensures
        found == v@.contains(code),
{
    let mut i: usize = 0;
    while i < v.len()
        invariant
            i <= v@.len(),
            forall|j: int| 0 <= j < i ==> v@[j] != code,
        decreases v@.len() - i,
    {
        if v[i] == code {
            return true;
        }
        i += 1;
    }
    false
}

fn all_held(v: &Vec<u32>, by: &Vec<u32>) -> (all: bool)
    ensures
        all == held(v@).subset_of(held(by@)),
{
    let mut i: usize = 0;
    while i < v.len()
        invariant
            i <= v@.len(),
            forall|j: int| 0 <= j < i ==> by@.contains(#[trigger] v@[j]),
        decreases v@.len() - i,
    {
        if !holds(by, v[i]) {
            assert(held(v@).contains(v@[i as int]));
            return false;
        }
        i += 1;
    }
    assert forall|code: u32| held(v@).contains(code) implies held(by@).contains(code) by {
        let j = choose|j: int| 0 <= j < v@.len() && v@[j] == code;
        assert(by@.contains(v@[j]));
    }
    true
}

/// Watches for the keys that toggle the window: knows which keys are to be
/// pressed together, and which keys are down.
pub struct KeyGrabber {
    keycodes: Vec<u32>,
    pushed: Vec<u32>,
}

impl KeyGrabber {
    /// The keys that toggle the window when they, and no others, are down.
    pub closed spec fn keycodes(&self) -> Set<u32> {
        held(self.keycodes@)
    }

    /// The keys that are down.
    pub closed spec fn pushed(&self) -> Set<u32> {
        held(self.pushed@)
    }

    /// No key is noted twice.
    pub closed spec fn wf(&self) -> bool {
        distinct(self.keycodes@) && distinct(self.pushed@)
    }

    /// A watcher for the keys with the numbers `codes`, with no key down.
    pub fn from_codes(codes: &Vec<u32>) -> (grabber: KeyGrabber)
        ensures
            grabber.wf(),
            grabber.keycodes() == held(codes@),
            grabber.pushed() == Set::<u32>::empty(),
    {
        let mut keycodes: Vec<u32> = Vec::new();
        let mut i: usize = 0;
        while i < codes.len()
            invariant
                i <= codes@.len(),
                distinct(keycodes@),
                held(keycodes@) == held(codes@.subrange(0, i as int)),
            decreases codes@.len() - i,
        {
            let ghost before = keycodes@;
            if !holds(&keycodes, codes[i]) {
                keycodes.push(codes[i]);
            }
            assert(held(keycodes@) =~= held(codes@.subrange(0, i + 1))) by {
                let upto = codes@.subrange(0, i + 1);
                let prev = codes@.subrange(0, i as int);
                assert forall|code: u32| held(keycodes@).contains(code) <==> held(upto).contains(
                    code,
                ) by {
                    if held(keycodes@).contains(code) {
                        let j = choose|j: int| 0 <= j < keycodes@.len() && keycodes@[j] == code;
                        if j < before.len() {
                            assert(before[j] == code);
                            assert(held(before).contains(code));
                            assert(held(prev).contains(code));
                            let k = choose|k: int| 0 <= k < prev.len() && prev[k] == code;
                            assert(upto[k] == code);
                        } else {
                            assert(upto[i as int] == code);
                        }
                    }
                    if held(upto).contains(code) {
                        let k = choose|k: int| 0 <= k < upto.len() && upto[k] == code;
                        if k < i {
                            assert(prev[k] == code);
                            assert(held(prev).contains(code));
                            assert(held(before).contains(code));
                            let j = choose|j: int| 0 <= j < before.len() && before[j] == code;
                            assert(keycodes@[j] == code);
                        } else {
                            assert(code == codes@[i as int]);
                            if before.contains(code) {
                                let j = choose|j: int| 0 <= j < before.len() && before[j] == code;
                                assert(keycodes@[j] == code);
                            } else {
                                assert(keycodes@[before.len() as int] == code);
                            }
                        }
                    }
                }
            }
            i += 1;
        }
        assert(codes@.subrange(0, codes@.len() as int) =~= codes@);
        let grabber = KeyGrabber { keycodes, pushed: Vec::new() };
        assert(grabber.pushed() =~= Set::<u32>::empty());
        grabber
    }

    /// Notes that the key numbered `kc` went down, and tells whether the
    /// window is to be toggled now: it is when the keys that are down are
    /// exactly the keys that toggle it.
    pub fn down(&mut self, kc: u32) -> (send: bool)
        requires
            old(self).wf(),
        ensures
            final(self).wf(),
            final(self).keycodes() == old(self).keycodes(),
            final(self).pushed() == old(self).pushed().insert(kc),
            send == (final(self).pushed() == final(self).keycodes()),
    {
        let ghost before = self.pushed@;
        if !holds(&self.pushed, kc) {
            self.pushed.push(kc);
        }
        assert(held(self.pushed@) =~= held(before).insert(kc)) by {
            assert forall|code: u32| held(self.pushed@).contains(code) <==> held(before).insert(
                kc,
            ).contains(code) by {
                if held(self.pushed@).contains(code) {
                    let j = choose|j: int| 0 <= j < self.pushed@.len() && self.pushed@[j] == code;
                    if j < before.len() {
                        assert(before[j] == code);
                    }
                }
                if held(before).contains(code) {
                    let j = choose|j: int| 0 <= j < before.len() && before[j] == code;
                    assert(self.pushed@[j] == code);
                }
                if code == kc {
                    if before.contains(kc) {
                        let j = choose|j: int| 0 <= j < before.len() && before[j] == kc;
                        assert(self.pushed@[j] == kc);
                    } else {
                        assert(self.pushed@[before.len() as int] == kc);
                    }
                }
            }
        }
        let send = all_held(&self.pushed, &self.keycodes) && all_held(&self.keycodes, &self.pushed);
        assert(send == (held(self.pushed@) =~= held(self.keycodes@)));
        send
    }

    /// Notes that the key numbered `kc` went up.
    pub fn up(&mut self, kc: u32)
        requires
            old(self).wf(),
        ensures
            final(self).wf(),
            final(self).keycodes() == old(self).keycodes(),
            final(self).pushed() == old(self).pushed().remove(kc),
    {
        let ghost before = self.pushed@;
        let mut i: usize = 0;
        while i < self.pushed.len()
            invariant
                i <= self.pushed@.len(),
                self.pushed@ == before,
                before == old(self).pushed@,
                self.keycodes == old(self).keycodes,
                distinct(before),
                distinct(self.keycodes@),
                forall|j: int| 0 <= j < i ==> before[j] != kc,
            decreases self.pushed@.len() - i,
        {
            if self.pushed[i] == kc {
                let _ = self.pushed.remove(i);
                assert(held(self.pushed@) =~= held(before).remove(kc)) by {
                    let after = self.pushed@;
                    assert forall|code: u32| held(after).contains(code) <==> held(before).remove(
                        kc,
                    ).contains(code) by {
                        if held(after).contains(code) {
                            let j = choose|j: int| 0 <= j < after.len() && after[j] == code;
                            if j < i {
                                assert(before[j] == code);
                            } else {
                                assert(before[j + 1] == code);
                                assert(before[i as int] == kc);
                            }
                        }
                        if held(before).contains(code) && code != kc {
                            let j = choose|j: int| 0 <= j < before.len() && before[j] == code;
                            if j < i {
                                assert(after[j] == code);
                            } else {
                                assert(after[j - 1] == code);
                            }
                        }
                    }
                }
                assert(distinct(self.pushed@)) by {
                    let after = self.pushed@;
                    assert forall|a: int, b: int| 0 <= a < b < after.len() implies after[a]
                        != after[b] by {
                        let a0 = if a < i {
                            a
                        } else {
                            a + 1
                        };
                        let b0 = if b < i {
                            b
                        } else {
                            b + 1
                        };
                        assert(after[a] == before[a0]);
                        assert(after[b] == before[b0]);
                    }
                }
                return ;
            }
            i += 1;
        }
        assert(held(before) =~= held(before).remove(kc));
    }

    /// The numbers of the keys that toggle the window, each once.
    pub fn get_keycodes(&self) -> (codes: Vec<u32>)
        ensures
            held(codes@) == self.keycodes(),
            self.wf() ==> distinct(codes@),
    {
        self.keycodes.clone()
    }
}

/// Some key of `codes` has the name `name`.
pub open spec fn key_among(codes: Set<u32>, name: Seq<char>) -> bool {
    exists|code: u32| codes.contains(code) && names_code(name, code)
}

/// Some name of `keys` is the name of the key numbered `code`.
pub open spec fn code_among(keys: Seq<String>, code: u32) -> bool {
    exists|i: int| 0 <= i < keys.len() && names_code(#[trigger] keys[i]@, code)
}

/// Sets the keys that toggle the window by their names.
///
/// Every name has to be the name of a key. The first one that is not is
/// reported, and no watcher is made.
pub fn init_keycode(keys: &Vec<String>) -> (grabber: Result<KeyGrabber, KeyError>)
    ensures
        match grabber {
            Ok(g) => {
                &&& g.wf()
                &&& g.pushed() == Set::<u32>::empty()
                &&& forall|i: int| 0 <= i < keys@.len() ==> known_key(#[trigger] keys@[i]@)
                &&& forall|i: int| 0 <= i < keys@.len() ==> key_among(g.keycodes(), #[trigger] keys@[i]@)
                &&& forall|code: u32| g.keycodes().contains(code) ==> #[trigger] code_among(keys@, code)
            },
            Err(KeyError::InvalidKeycode(key)) => {
                exists|i: int|
                    {
                        &&& 0 <= i < keys@.len()
                        &&& key@ == #[trigger] keys@[i]@
                        &&& !known_key(keys@[i]@)
                        &&& forall|j: int| 0 <= j < i ==> known_key(#[trigger] keys@[j]@)
                    }
            },
        },
{
    let mut codes: Vec<u32> = Vec::new();
    let mut i: usize = 0;
    while i < keys.len()
        invariant
            i <= keys@.len(),
            codes@.len() == i,
            forall|j: int| 0 <= j < i ==> names_code(#[trigger] keys@[j]@, codes@[j]),
        decreases keys@.len() - i,
    {
        match keycode_from_name(keys[i].as_str()) {
            Some(code) => {
                codes.push(code);
            },
            None => {
                assert forall|j: int| 0 <= j < i implies known_key(#[trigger] keys@[j]@) by {
                    assert(names_code(keys@[j]@, codes@[j]));
                }
                return Err(KeyError::InvalidKeycode(keys[i].clone()));
            },
        }
        i += 1;
    }
    let grabber = KeyGrabber::from_codes(&codes);
    assert forall|j: int| 0 <= j < keys@.len() implies known_key(#[trigger] keys@[j]@) by {
        assert(names_code(keys@[j]@, codes@[j]));
    }
    assert forall|j: int| 0 <= j < keys@.len() implies key_among(
        grabber.keycodes(),
        #[trigger] keys@[j]@,
    ) by {
        assert(held(codes@).contains(codes@[j]));
        assert(names_code(keys@[j]@, codes@[j]));
    }
    assert forall|code: u32| grabber.keycodes().contains(code) implies #[trigger] code_among(
        keys@,
        code,
    ) by {
        assert(held(codes@).contains(code));
        let j = choose|j: int| 0 <= j < codes@.len() && codes@[j] == code;
        assert(names_code(keys@[j]@, code));
    }
    Ok(grabber)
}

/// The name of the key numbered `code`.
pub fn keycode_name(code: u32) -> (name: Option<&'static str>)
    ensures
        match name {
            Some(n) => names_code(n@, code),
            None => code >= KEYCODE_NAMES@.len(),
        },
{
    if (code as usize) < KEYCODE_NAMES.len() {
        Some(KEYCODE_NAMES[code as usize])
    } else {
        None
    }
}

} // verus!
