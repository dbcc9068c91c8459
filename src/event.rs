use vstd::prelude::*;

verus! {

/// The kind of the event being handled, decoded from the toolkit's code.
#[derive(Debug, Copy, Clone, PartialEq, Eq, Structural)]
pub enum Event {
    NoEvent,
    Push,
    Released,
    Enter,
    Leave,
    Drag,
    Focus,
    Unfocus,
    KeyDown,
    KeyUp,
    Close,
    Move,
    Shortcut,
    Deactivate,
    Activate,
    Hide,
    Show,
    Paste,
    SelectionClear,
    MouseWheel,
    DndEnter,
    DndDrag,
    DndLeave,
    DndRelease,
    ScreenConfigChanged,
    Fullscreen,
    ZoomGesture,
    ZoomEvent,
    /// A code that the toolkit's numbering does not assign.
    Unknown(i32),
}

/// The toolkit's number for each event kind.
pub open spec fn event_code(e: Event) -> int {
    match e {
        Event::NoEvent => 0,
        Event::Push => 1,
        Event::Released => 2,
        Event::Enter => 3,
        Event::Leave => 4,
        Event::Drag => 5,
        Event::Focus => 6,
        Event::Unfocus => 7,
        Event::KeyDown => 8,
        Event::KeyUp => 9,
        Event::Close => 10,
        Event::Move => 11,
        Event::Shortcut => 12,
        Event::Deactivate => 13,
        Event::Activate => 14,
        Event::Hide => 15,
        Event::Show => 16,
        Event::Paste => 17,
        Event::SelectionClear => 18,
        Event::MouseWheel => 19,
        Event::DndEnter => 20,
        Event::DndDrag => 21,
        Event::DndLeave => 22,
        Event::DndRelease => 23,
        Event::ScreenConfigChanged => 24,
        Event::Fullscreen => 25,
        Event::ZoomGesture => 26,
        Event::ZoomEvent => 27,
        Event::Unknown(c) => c as int,
    }
}

/// The codes that name a known event kind.
pub open spec fn is_known_event_code(code: int) -> bool {
    0 <= code <= 27
}

/// Decodes a native event code; codes outside the toolkit's numbering come
/// back as `Unknown` rather than being reinterpreted.
pub fn event_from_code(code: i32) -> (e: Event)
    ensures
        event_code(e) == code,
        (e is Unknown) <==> !is_known_event_code(code as int),
{
    match code {
        0 => Event::NoEvent,
        1 => Event::Push,
        2 => Event::Released,
        3 => Event::Enter,
        4 => Event::Leave,
        5 => Event::Drag,
        6 => Event::Focus,
        7 => Event::Unfocus,
        8 => Event::KeyDown,
        9 => Event::KeyUp,
        10 => Event::Close,
        11 => Event::Move,
        12 => Event::Shortcut,
        13 => Event::Deactivate,
        14 => Event::Activate,
        15 => Event::Hide,
        16 => Event::Show,
        17 => Event::Paste,
        18 => Event::SelectionClear,
        19 => Event::MouseWheel,
        20 => Event::DndEnter,
        21 => Event::DndDrag,
        22 => Event::DndLeave,
        23 => Event::DndRelease,
        24 => Event::ScreenConfigChanged,
        25 => Event::Fullscreen,
        26 => Event::ZoomGesture,
        27 => Event::ZoomEvent,
        _ => Event::Unknown(code),
    }
}

/// A key, decoded from the toolkit's key code.
#[derive(Debug, Copy, Clone, PartialEq, Eq, Structural)]
pub enum Key {
    BackSpace,
    Tab,
    Enter,
    Escape,
    Home,
    Left,
    Up,
    Right,
    Down,
    PageUp,
    PageDown,
    End,
    Insert,
    Delete,
    /// Any other key, by its code (printable keys carry their character code).
    Other(i32),
}

/// The toolkit's code for each key.
pub open spec fn key_code(k: Key) -> int {
    match k {
        Key::BackSpace => 0xff08,
        Key::Tab => 0xff09,
        Key::Enter => 0xff0d,
        Key::Escape => 0xff1b,
        Key::Home => 0xff50,
        Key::Left => 0xff51,
        Key::Up => 0xff52,
        Key::Right => 0xff53,
        Key::Down => 0xff54,
        Key::PageUp => 0xff55,
        Key::PageDown => 0xff56,
        Key::End => 0xff57,
        Key::Insert => 0xff63,
        Key::Delete => 0xffff,
        Key::Other(c) => c as int,
    }
}

/// The codes that name one of the keys listed by name.
pub open spec fn is_named_key_code(code: int) -> bool {
    code == 0xff08 || code == 0xff09 || code == 0xff0d || code == 0xff1b || (0xff50 <= code
        <= 0xff57) || code == 0xff63 || code == 0xffff
}

/// Decodes a native key code; any code without a name comes back as `Other`.
pub fn key_from_code(code: i32) -> (k: Key)
    ensures
        key_code(k) == code,
        (k is Other) <==> !is_named_key_code(code as int),
{
    match code {
        0xff08 => Key::BackSpace,
        0xff09 => Key::Tab,
        0xff0d => Key::Enter,
        0xff1b => Key::Escape,
        0xff50 => Key::Home,
        0xff51 => Key::Left,
        0xff52 => Key::Up,
        0xff53 => Key::Right,
        0xff54 => Key::Down,
        0xff55 => Key::PageUp,
        0xff56 => Key::PageDown,
        0xff57 => Key::End,
        0xff63 => Key::Insert,
        0xffff => Key::Delete,
        _ => Key::Other(code),
    }
}

/// The modifier state of an event: a set of bits.
#[derive(Debug, Copy, Clone, PartialEq, Eq, Structural)]
pub struct Shortcut {
    pub bits: i32,
}

/// Bit of a held shift key.
pub const SHIFT: i32 = 0x10000;

/// Bit of an engaged caps lock.
pub const CAPS_LOCK: i32 = 0x20000;

/// Bit of a held control key.
pub const CTRL: i32 = 0x40000;

/// Bit of a held alt key.
pub const ALT: i32 = 0x80000;

/// Bit of a held meta key.
pub const META: i32 = 0x400000;

impl Shortcut {
    /// Wraps the native modifier bits.
    pub fn from_bits(bits: i32) -> (r: Shortcut)
        ensures
            r.bits == bits,
    {
        Shortcut { bits }
    }

    /// Whether every bit of `mask` is set.
    pub fn contains(&self, mask: i32) -> (r: bool)
        ensures
            r == (self.bits & mask == mask),
    {
        self.bits & mask == mask
    }
}

/// Decodes a native yes/no answer, where any non-zero value means yes.
pub fn flag_from_code(code: i32) -> (r: bool)
    ensures
        r == (code != 0),
{
    code != 0
}

} // verus!
