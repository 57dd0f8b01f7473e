use vstd::prelude::*;

verus! {

/// Number of key codes that the name table covers; codes at or above it have no name.
pub const MAX_KEYS: u16 = 127;

/// Event type of a key event.
pub const EV_KEY: u16 = 1;

/// Event value of a key going up.
pub const KEY_RELEASE: i32 = 0;

/// Event value of a key going down.
pub const KEY_PRESS: i32 = 1;

/// Size in bytes of one raw event record on a 64-bit host: two 8-byte time
/// fields, a 2-byte type, a 2-byte code and a 4-byte value.
pub const EVENT_SIZE: usize = 24;

/// The label of a code that has no name.
pub open spec fn unknown_label() -> Seq<char> {
    "<UK>"@
}

/// The key-name table: the label of each key code. Codes below `MAX_KEYS`
/// that are not listed here are deliberately unassigned.
pub open spec fn key_label(code: u16) -> Seq<char> {
    match code {
        1 => "<ESC>"@,
        2 => "1"@,
        3 => "2"@,
        4 => "3"@,
        5 => "4"@,
        6 => "5"@,
        7 => "6"@,
        8 => "7"@,
        9 => "8"@,
        10 => "9"@,
        11 => "0"@,
        12 => "-"@,
        13 => "="@,
        14 => "<Backspace>"@,
        15 => "<Tab>"@,
        16 => "q"@,
        17 => "w"@,
        18 => "e"@,
        19 => "r"@,
        20 => "t"@,
        21 => "y"@,
        22 => "u"@,
        23 => "i"@,
        24 => "o"@,
        25 => "p"@,
        26 => "["@,
        27 => "]"@,
        28 => "<Enter>"@,
        29 => "<LCtrl>"@,
        30 => "a"@,
        31 => "s"@,
        32 => "d"@,
        33 => "f"@,
        34 => "g"@,
        35 => "h"@,
        36 => "j"@,
        37 => "k"@,
        38 => "l"@,
        39 => ";"@,
        40 => "'"@,
        41 => "`"@,
        42 => "<LShift>"@,
        43 => "\\"@,
        44 => "z"@,
        45 => "x"@,
        46 => "c"@,
        47 => "v"@,
        48 => "b"@,
        49 => "n"@,
        50 => "m"@,
        51 => ","@,
        52 => "."@,
        53 => "/"@,
        54 => "<RShift>"@,
        55 => "<KP*>"@,
        56 => "<LAlt>"@,
        57 => "<Space>"@,
        58 => "<CapsLock>"@,
        59 => "<F1>"@,
        60 => "<F2>"@,
        61 => "<F3>"@,
        62 => "<F4>"@,
        63 => "<F5>"@,
        64 => "<F6>"@,
        65 => "<F7>"@,
        66 => "<F8>"@,
        67 => "<F9>"@,
        68 => "<F10>"@,
        69 => "<NumLock>"@,
        70 => "<ScrollLock>"@,
        71 => "<KP7>"@,
        72 => "<KP8>"@,
        73 => "<KP9>"@,
        74 => "<KP->"@,
        75 => "<KP4>"@,
        76 => "<KP5>"@,
        77 => "<KP6>"@,
        78 => "<KP+>"@,
        79 => "<KP1>"@,
        80 => "<KP2>"@,
        81 => "<KP3>"@,
        82 => "<KP0>"@,
        83 => "<KP.>"@,
        86 => "\\"@,
        87 => "<F11>"@,
        88 => "<F12>"@,
        96 => "<KPEnter>"@,
        97 => "<RCtrl>"@,
        98 => "<KP/>"@,
        99 => "<SysRq>"@,
        100 => "<RAlt>"@,
        102 => "<Home>"@,
        103 => "<Up>"@,
        104 => "<PageUp>"@,
        105 => "<Left>"@,
        106 => "<Right>"@,
        107 => "<End>"@,
        108 => "<Down>"@,
        109 => "<PageDown>"@,
        110 => "<Insert>"@,
        111 => "<Delete>"@,
        125 => "<LMod4>"@,
        126 => "<RMod4>"@,
        _ => unknown_label(),
    }
}

/// The codes to which the table assigns a name of their own.
pub open spec fn is_assigned(code: u16) -> bool {
    ||| 1 <= code <= 83
    ||| 86 <= code <= 88
    ||| 96 <= code <= 100
    ||| 102 <= code <= 111
    ||| 125 <= code <= 126
}

/// Converts a key code to its label. Unprintable keys such as escape are named
/// between angle brackets (`<ESC>`); codes without a name give `<UK>`.
pub fn get_key_text(code: u16) -> (r: &'static str)
    ensures
        r@ == key_label(code),
        !is_assigned(code) ==> r@ == unknown_label(),
{
    match code {
        1 => "<ESC>",
        2 => "1",
        3 => "2",
        4 => "3",
        5 => "4",
        6 => "5",
        7 => "6",
        8 => "7",
        9 => "8",
        10 => "9",
        11 => "0",
        12 => "-",
        13 => "=",
        14 => "<Backspace>",
        15 => "<Tab>",
        16 => "q",
        17 => "w",
        18 => "e",
        19 => "r",
        20 => "t",
        21 => "y",
        22 => "u",
        23 => "i",
        24 => "o",
        25 => "p",
        26 => "[",
        27 => "]",
        28 => "<Enter>",
        29 => "<LCtrl>",
        30 => "a",
        31 => "s",
        32 => "d",
        33 => "f",
        34 => "g",
        35 => "h",
        36 => "j",
        37 => "k",
        38 => "l",
        39 => ";",
        40 => "'",
        41 => "`",
        42 => "<LShift>",
        43 => "\\",
        44 => "z",
        45 => "x",
        46 => "c",
        47 => "v",
        48 => "b",
        49 => "n",
        50 => "m",
        51 => ",",
        52 => ".",
        53 => "/",
        54 => "<RShift>",
        55 => "<KP*>",
        56 => "<LAlt>",
        57 => "<Space>",
        58 => "<CapsLock>",
        59 => "<F1>",
        60 => "<F2>",
        61 => "<F3>",
        62 => "<F4>",
        63 => "<F5>",
        64 => "<F6>",
        65 => "<F7>",
        66 => "<F8>",
        67 => "<F9>",
        68 => "<F10>",
        69 => "<NumLock>",
        70 => "<ScrollLock>",
        71 => "<KP7>",
        72 => "<KP8>",
        73 => "<KP9>",
        74 => "<KP->",
        75 => "<KP4>",
        76 => "<KP5>",
        77 => "<KP6>",
        78 => "<KP+>",
        79 => "<KP1>",
        80 => "<KP2>",
        81 => "<KP3>",
        82 => "<KP0>",
        83 => "<KP.>",
        86 => "\\",
        87 => "<F11>",
        88 => "<F12>",
        96 => "<KPEnter>",
        97 => "<RCtrl>",
        98 => "<KP/>",
        99 => "<SysRq>",
        100 => "<RAlt>",
        102 => "<Home>",
        103 => "<Up>",
        104 => "<PageUp>",
        105 => "<Left>",
        106 => "<Right>",
        107 => "<End>",
        108 => "<Down>",
        109 => "<PageDown>",
        110 => "<Insert>",
        111 => "<Delete>",
        125 => "<LMod4>",
        126 => "<RMod4>",
        _ => "<UK>",
    }
}

/// Whether an event of type `type_` is a key event.
pub fn is_key_event(type_: u16) -> (r: bool)
    ensures
        r == (type_ == EV_KEY),
{
    type_ == EV_KEY
}

/// Whether the value of a key event reports a key going down.
pub fn is_key_press(value: i32) -> (r: bool)
    ensures
        r == (value == KEY_PRESS),
{
    value == KEY_PRESS
}

/// Whether the value of a key event reports a key going up.
pub fn is_key_release(value: i32) -> (r: bool)
    ensures
        r == (value == KEY_RELEASE),
{
    value == KEY_RELEASE
}

/// A raw input event as the device reports it.
#[derive(Debug, Clone, Copy)]
pub struct InputEvent {
    pub tv_sec: i64,
    pub tv_usec: i64,
    pub type_: u16,
    pub code: u16,
    pub value: i32,
}

/// The unsigned integer held little-endian in `b[at .. at + n]`.
pub open spec fn le_value(b: Seq<u8>, at: int, n: nat) -> nat
    decreases n,
{
    if n == 0 {
        0
    } else {
        b[at] as nat + 256 * le_value(b, at + 1, (n - 1) as nat)
    }
}

impl InputEvent {
    /// An event with the given type, code and value and a zero time stamp.
    pub fn new(type_: u16, code: u16, value: i32) -> (ev: InputEvent)
        ensures
            ev.tv_sec == 0,
            ev.tv_usec == 0,
            ev.type_ == type_,
            ev.code == code,
            ev.value == value,
    {
        InputEvent { tv_sec: 0, tv_usec: 0, type_, code, value }
    }

    /// Decodes one raw record in the little-endian layout of a 64-bit host.
    pub fn from_bytes(raw: &[u8]) -> (ev: InputEvent)
        requires
            raw@.len() == EVENT_SIZE,
        ensures
            ev.tv_sec == le_value(raw@, 0, 8) as i64,
            ev.tv_usec == le_value(raw@, 8, 8) as i64,
            ev.type_ == le_value(raw@, 16, 2),
            ev.code == le_value(raw@, 18, 2),
            ev.value == le_value(raw@, 20, 4) as i32,
    {
        let sec = read_le(raw, 0, 8);
        let usec = read_le(raw, 8, 8);
        let type_ = read_le(raw, 16, 2);
        let code = read_le(raw, 18, 2);
        let value = read_le(raw, 20, 4);
        proof {
            reveal_with_fuel(pow256, 4);
        }
        InputEvent {
            tv_sec: #[verifier::truncate] (sec as i64),
            tv_usec: #[verifier::truncate] (usec as i64),
            type_: type_ as u16,
            code: code as u16,
            value: #[verifier::truncate] (value as u32 as i32),
        }
    }
}

/// 256 to the power `n`.
pub open spec fn pow256(n: nat) -> nat
    decreases n,
{
    if n == 0 {
        1
    } else {
        256 * pow256((n - 1) as nat)
    }
}

/// Reads the `n`-byte little-endian unsigned integer at `raw[at ..]`.
fn read_le(raw: &[u8], at: usize, n: usize) -> (r: u64)
    requires
        1 <= n <= 8,
        at + n <= raw@.len(),
        at + n <= usize::MAX,
    ensures
        r == le_value(raw@, at as int, n as nat),
        r < pow256(n as nat),
{
    let mut r: u64 = 0;
    let mut k: usize = n;
    while k > 0
        invariant
            0 <= k <= n <= 8,
            at + n <= raw@.len(),
            at + n <= usize::MAX,
            r == le_value(raw@, at + k, (n - k) as nat),
            r < pow256((n - k) as nat),
        decreases k,
    {
        k = k - 1;
        proof {
            lemma_pow256_le7((n - k - 1) as nat);
        }
        let b = raw[at + k];
        r = b as u64 + 256 * r;
    }
    r
}

proof fn lemma_pow256_le7(n: nat)
    requires
        n <= 7,
    ensures
        pow256(n) <= 0x100000000000000,
{
    reveal_with_fuel(pow256, 8);
}

/// Whether a key goes down or up.
#[derive(Debug, Clone, Copy, PartialEq, Eq, Structural)]
pub enum KeyKind {
    Press,
    Release,
}

/// A classified key event: a key code and whether it went down or up.
#[derive(Debug, Clone, Copy, PartialEq, Eq, Structural)]
pub struct KeyEvent {
    pub code: u16,
    pub kind: KeyKind,
}

/// What an event of the given type, code and value means to the logger:
/// nothing unless it is a key press or a key release.
pub open spec fn classify_spec(type_: u16, code: u16, value: i32) -> Option<KeyEvent> {
    if type_ != EV_KEY {
        None
    } else if value == KEY_PRESS {
        Some(KeyEvent { code, kind: KeyKind::Press })
    } else if value == KEY_RELEASE {
        Some(KeyEvent { code, kind: KeyKind::Release })
    } else {
        None
    }
}

/// Classifies a decoded event: key presses and key releases are kept, every
/// other event (other types, key repeats) gives `None`.
pub fn classify_event(ev: &InputEvent) -> (r: Option<KeyEvent>)
    ensures
        r == classify_spec(ev.type_, ev.code, ev.value),
{
    if !is_key_event(ev.type_) {
        None
    } else if is_key_press(ev.value) {
        Some(KeyEvent { code: ev.code, kind: KeyKind::Press })
    } else if is_key_release(ev.value) {
        Some(KeyEvent { code: ev.code, kind: KeyKind::Release })
    } else {
        None
    }
}

/// Classifies one raw record of `EVENT_SIZE` bytes.
pub fn classify(raw: &[u8]) -> (r: Option<KeyEvent>)
    requires
        raw@.len() == EVENT_SIZE,
    ensures
        r == classify_spec(
            le_value(raw@, 16, 2) as u16,
            le_value(raw@, 18, 2) as u16,
            le_value(raw@, 20, 4) as i32,
        ),
{
    let ev = InputEvent::from_bytes(raw);
    classify_event(&ev)
}

} // verus!
