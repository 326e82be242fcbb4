//! Translation of local keyboard and pointer input: key codes (the X11 keysym values the
//! windowing layer reports) into remote key events, pointer state into remote pointer
//! events, and raw input into editor events.
use vstd::prelude::*;

verus! {

pub const KEY_SPACE: u16 = 0x0020;
pub const KEY_A: u16 = 0x0041;
pub const KEY_C: u16 = 0x0043;
pub const KEY_V: u16 = 0x0056;
pub const KEY_X: u16 = 0x0058;
pub const KEY_Z: u16 = 0x005a;
pub const KEY_BACKSPACE: u16 = 0xff08;
pub const KEY_TAB: u16 = 0xff09;
pub const KEY_ENTER: u16 = 0xff0d;
pub const KEY_ESCAPE: u16 = 0xff1b;
pub const KEY_HOME: u16 = 0xff50;
pub const KEY_LEFT: u16 = 0xff51;
pub const KEY_UP: u16 = 0xff52;
pub const KEY_RIGHT: u16 = 0xff53;
pub const KEY_DOWN: u16 = 0xff54;
pub const KEY_PAGE_UP: u16 = 0xff55;
pub const KEY_PAGE_DOWN: u16 = 0xff56;
pub const KEY_END: u16 = 0xff57;
pub const KEY_INSERT: u16 = 0xff63;
pub const KEY_F8: u16 = 0xffc5;
pub const KEY_LEFT_CONTROL: u16 = 0xffe3;
pub const KEY_LEFT_ALT: u16 = 0xffe9;
pub const KEY_DELETE: u16 = 0xffff;

/// A key pressed or released on the remote side, by X11 keysym.
#[derive(PartialEq, Eq, Structural, Clone, Copy, Debug)]
pub struct KeyPress {
    pub keycode: u32,
    pub down: bool,
}

/// The keysym sent for a local key: the capital letters `A..=Z` become the lower-case
/// letters (their code plus 0x20); every other code is sent unchanged.
pub open spec fn x11_keysym_spec(code: u16) -> u32 {
    if KEY_A <= code <= KEY_Z {
        (code + 0x20) as u32
    } else {
        code as u32
    }
}

pub fn x11_keysym(code: u16) -> (r: u32)
    ensures
        r == x11_keysym_spec(code),
{
    let key_val = code as u32;
    if KEY_A as u32 <= key_val && key_val <= KEY_Z as u32 {
        key_val + 0x020
    } else {
        key_val
    }
}

/// What the viewer does with a local key event.
#[derive(PartialEq, Eq, Structural, Clone, Copy, Debug)]
pub enum StageKey {
    /// Open the session menu at the pointer.
    OpenMenu,
    /// Send this key event to the remote side.
    Send(KeyPress),
    /// Nothing.
    Ignore,
}

/// A key press: F8 opens the session menu while a session is open; any other key is sent to
/// the remote side as its keysym; without a session nothing is sent.
pub fn key_down_action(code: u16, has_session: bool) -> (r: StageKey)
    ensures
        !has_session ==> r == StageKey::Ignore,
        has_session && code == KEY_F8 ==> r == StageKey::OpenMenu,
        has_session && code != KEY_F8 ==> r == StageKey::Send(
            KeyPress { keycode: x11_keysym_spec(code), down: true },
        ),
{
    if code == KEY_F8 && has_session {
        return StageKey::OpenMenu;
    }
    if has_session {
        StageKey::Send(KeyPress { keycode: x11_keysym(code), down: true })
    } else {
        StageKey::Ignore
    }
}

/// A key release: F8 is swallowed while a session is open; any other key is sent as a
/// release of its keysym; without a session nothing is sent.
pub fn key_up_action(code: u16, has_session: bool) -> (r: StageKey)
    ensures
        !has_session ==> r == StageKey::Ignore,
        has_session && code == KEY_F8 ==> r == StageKey::Ignore,
        has_session && code != KEY_F8 ==> r == StageKey::Send(
            KeyPress { keycode: x11_keysym_spec(code), down: false },
        ),
{
    if code == KEY_F8 && has_session {
        return StageKey::Ignore;
    }
    if has_session {
        StageKey::Send(KeyPress { keycode: x11_keysym(code), down: false })
    } else {
        StageKey::Ignore
    }
}

/// The F8 key typed on the remote side: pressed, then released.
pub fn f8_key_events() -> (r: Vec<KeyPress>)
    ensures
        r@ == seq![
            KeyPress { keycode: KEY_F8 as u32, down: true },
            KeyPress { keycode: KEY_F8 as u32, down: false },
        ],
{
    let mut r = Vec::new();
    r.push(KeyPress { keycode: KEY_F8 as u32, down: true });
    r.push(KeyPress { keycode: KEY_F8 as u32, down: false });
    r
}

/// Ctrl+Alt+Del typed on the remote side: the three keys pressed in that order, then
/// released in the reverse order.
pub fn ctrl_alt_del_events() -> (r: Vec<KeyPress>)
    ensures
        r@ == seq![
            KeyPress { keycode: KEY_LEFT_CONTROL as u32, down: true },
            KeyPress { keycode: KEY_LEFT_ALT as u32, down: true },
            KeyPress { keycode: KEY_DELETE as u32, down: true },
            KeyPress { keycode: KEY_DELETE as u32, down: false },
            KeyPress { keycode: KEY_LEFT_ALT as u32, down: false },
            KeyPress { keycode: KEY_LEFT_CONTROL as u32, down: false },
        ],
{
    let mut r = Vec::new();
    r.push(KeyPress { keycode: KEY_LEFT_CONTROL as u32, down: true });
    r.push(KeyPress { keycode: KEY_LEFT_ALT as u32, down: true });
    r.push(KeyPress { keycode: KEY_DELETE as u32, down: true });
    r.push(KeyPress { keycode: KEY_DELETE as u32, down: false });
    r.push(KeyPress { keycode: KEY_LEFT_ALT as u32, down: false });
    r.push(KeyPress { keycode: KEY_LEFT_CONTROL as u32, down: false });
    r
}

/// A key sequence is nested: it has even length, its first half presses keys and its second
/// half releases the same keys in the reverse order.
pub open spec fn nested_presses(s: Seq<KeyPress>) -> bool {
    &&& s.len() % 2 == 0
    &&& forall|i: int|
        0 <= i < s.len() / 2 ==> {
            &&& (#[trigger] s[i]).down
            &&& !s[s.len() - 1 - i].down
            &&& s[s.len() - 1 - i].keycode == s[i].keycode
        }
}

/// The key sequences of the session menu leave no key held down on the remote side.
pub proof fn law_menu_sequences_release_every_key()
    ensures
        nested_presses(
            seq![
                KeyPress { keycode: KEY_F8 as u32, down: true },
                KeyPress { keycode: KEY_F8 as u32, down: false },
            ],
        ),
        nested_presses(
            seq![
                KeyPress { keycode: KEY_LEFT_CONTROL as u32, down: true },
                KeyPress { keycode: KEY_LEFT_ALT as u32, down: true },
                KeyPress { keycode: KEY_DELETE as u32, down: true },
                KeyPress { keycode: KEY_DELETE as u32, down: false },
                KeyPress { keycode: KEY_LEFT_ALT as u32, down: false },
                KeyPress { keycode: KEY_LEFT_CONTROL as u32, down: false },
            ],
        ),
{
    let s = seq![
        KeyPress { keycode: KEY_LEFT_CONTROL as u32, down: true },
        KeyPress { keycode: KEY_LEFT_ALT as u32, down: true },
        KeyPress { keycode: KEY_DELETE as u32, down: true },
        KeyPress { keycode: KEY_DELETE as u32, down: false },
        KeyPress { keycode: KEY_LEFT_ALT as u32, down: false },
        KeyPress { keycode: KEY_LEFT_CONTROL as u32, down: false },
    ];
    assert forall|i: int| 0 <= i < s.len() / 2 implies {
        &&& (#[trigger] s[i]).down
        &&& !s[s.len() - 1 - i].down
        &&& s[s.len() - 1 - i].keycode == s[i].keycode
    } by {
        assert(i == 0 || i == 1 || i == 2);
    }
    let t = seq![
        KeyPress { keycode: KEY_F8 as u32, down: true },
        KeyPress { keycode: KEY_F8 as u32, down: false },
    ];
    assert forall|i: int| 0 <= i < t.len() / 2 implies {
        &&& (#[trigger] t[i]).down
        &&& !t[t.len() - 1 - i].down
        &&& t[t.len() - 1 - i].keycode == t[i].keycode
    } by {
        assert(i == 0);
    }
}

/// The keysym translation only lowers capital letters, so translating twice changes nothing.
pub proof fn law_keysym_idempotent(code: u16)
    ensures
        KEY_A <= code <= KEY_Z ==> x11_keysym_spec(code) == code + 0x20,
        !(KEY_A <= code <= KEY_Z) ==> x11_keysym_spec(code) == code,
        x11_keysym_spec(code) <= 0xffff ==> x11_keysym_spec(x11_keysym_spec(code) as u16)
            == x11_keysym_spec(code),
{
}

/// The pointer state last reported to the remote side.
#[derive(PartialEq, Eq, Structural, Clone, Copy, Debug)]
pub struct PointerState {
    pub x: u16,
    pub y: u16,
    pub buttons: u8,
}

impl PointerState {
    /// The state before any pointer event: at the origin, no button down.
    pub fn initial() -> (r: Self)
        ensures
            r == (PointerState { x: 0, y: 0, buttons: 0 }),
    {
        PointerState { x: 0, y: 0, buttons: 0 }
    }
}

/// The remote button mask: bit 0 for the primary button, bit 1 for the middle one, bit 2
/// for the secondary one.
pub open spec fn button_mask_spec(primary: bool, middle: bool, secondary: bool) -> u8 {
    ((if primary {
        1u8
    } else {
        0u8
    }) + (if middle {
        2u8
    } else {
        0u8
    }) + (if secondary {
        4u8
    } else {
        0u8
    })) as u8
}

pub fn button_mask(primary: bool, middle: bool, secondary: bool) -> (r: u8)
    ensures
        r == button_mask_spec(primary, middle, secondary),
{
    let mut mask: u8 = 0;
    if primary {
        mask = mask + 1;
    }
    if middle {
        mask = mask + 2;
    }
    if secondary {
        mask = mask + 4;
    }
    mask
}

/// One notch of the mouse wheel.
#[derive(PartialEq, Eq, Structural, Clone, Copy, Debug)]
pub enum WheelStep {
    Up,
    Down,
}

/// The button bit that stands for a wheel notch: 8 for up, 16 for down.
pub open spec fn wheel_bit(step: WheelStep) -> u8 {
    match step {
        WheelStep::Up => 8u8,
        WheelStep::Down => 16u8,
    }
}

/// For each notch, in order: the wheel button pressed together with `buttons`, then
/// `buttons` alone, all at `(x, y)`.
pub open spec fn wheel_events(x: u16, y: u16, buttons: u8, steps: Seq<WheelStep>) -> Seq<
    PointerState,
>
    decreases steps.len(),
{
    if steps.len() == 0 {
        Seq::empty()
    } else {
        wheel_events(x, y, buttons, steps.drop_last()) + seq![
            PointerState { x, y, buttons: buttons | wheel_bit(steps.last()) },
            PointerState { x, y, buttons },
        ]
    }
}

/// The pointer events for one frame in which the pointer is over the remote picture at
/// `(x, y)` with `buttons` down: one event when this differs from the last state sent
/// (which then becomes the last state), followed by the events of the wheel notches.
pub fn pointer_events(
    latest: &mut PointerState,
    x: u16,
    y: u16,
    buttons: u8,
    wheel: &Vec<WheelStep>,
) -> (r: Vec<PointerState>)
    ensures
        *final(latest) == (PointerState { x, y, buttons }),
        r@ == (if *old(latest) != (PointerState { x, y, buttons }) {
            seq![PointerState { x, y, buttons }]
        } else {
            Seq::empty()
        }) + wheel_events(x, y, buttons, wheel@),
{
    let mut r: Vec<PointerState> = Vec::new();
    let state = PointerState { x, y, buttons };
    if state != *latest {
        *latest = state;
        r.push(state);
    }
    let ghost prefix = r@;
    let mut i: usize = 0;
    while i < wheel.len()
        invariant
            i <= wheel@.len(),
            r@ == prefix + wheel_events(x, y, buttons, wheel@.take(i as int)),
        decreases wheel@.len() - i,
    {
        let bit: u8 = match wheel[i] {
            WheelStep::Up => 8,
            WheelStep::Down => 16,
        };
        r.push(PointerState { x, y, buttons: buttons | bit });
        r.push(PointerState { x, y, buttons });
        proof {
            assert(wheel@.take(i + 1).drop_last() =~= wheel@.take(i as int));
            assert(wheel@.take(i + 1).last() == wheel@[i as int]);
        }
        i = i + 1;
    }
    assert(wheel@.take(wheel@.len() as int) =~= wheel@);
    r
}

proof fn lemma_wheel_events_at(x: u16, y: u16, buttons: u8, steps: Seq<WheelStep>, k: int)
    requires
        0 <= k < steps.len(),
    ensures
        wheel_events(x, y, buttons, steps).len() == 2 * steps.len(),
        wheel_events(x, y, buttons, steps)[2 * k] == (PointerState {
            x,
            y,
            buttons: buttons | wheel_bit(steps[k]),
        }),
        wheel_events(x, y, buttons, steps)[2 * k + 1] == (PointerState { x, y, buttons }),
    decreases steps.len(),
{
    lemma_wheel_events_len(x, y, buttons, steps);
    let r = steps.drop_last();
    lemma_wheel_events_len(x, y, buttons, r);
    if k < r.len() {
        lemma_wheel_events_at(x, y, buttons, r, k);
    }
}

proof fn lemma_wheel_events_len(x: u16, y: u16, buttons: u8, steps: Seq<WheelStep>)
    ensures
        wheel_events(x, y, buttons, steps).len() == 2 * steps.len(),
    decreases steps.len(),
{
    if steps.len() > 0 {
        lemma_wheel_events_len(x, y, buttons, steps.drop_last());
    }
}

/// Every wheel notch is sent as a press of the wheel button followed by its release, so
/// the remote side never sees a wheel button left down.
pub proof fn law_wheel_notches_are_released(x: u16, y: u16, buttons: u8, steps: Seq<WheelStep>)
    ensures
        wheel_events(x, y, buttons, steps).len() == 2 * steps.len(),
        forall|k: int|
            0 <= k < steps.len() ==> {
                &&& wheel_events(x, y, buttons, steps)[2 * k].buttons == buttons | wheel_bit(
                    #[trigger] steps[k],
                )
                &&& wheel_events(x, y, buttons, steps)[2 * k + 1] == (PointerState {
                    x,
                    y,
                    buttons,
                })
            },
{
    lemma_wheel_events_len(x, y, buttons, steps);
    assert forall|k: int| 0 <= k < steps.len() implies {
        &&& wheel_events(x, y, buttons, steps)[2 * k].buttons == buttons | wheel_bit(
            #[trigger] steps[k],
        )
        &&& wheel_events(x, y, buttons, steps)[2 * k + 1] == (PointerState { x, y, buttons })
    } by {
        lemma_wheel_events_at(x, y, buttons, steps, k);
    }
}

/// A private-use character, which carries no text (the windowing layer reports some keys
/// this way).
pub open spec fn private_use(c: char) -> bool {
    ||| '\u{e000}' <= c <= '\u{f8ff}'
    ||| '\u{f0000}' <= c <= '\u{ffffd}'
    ||| '\u{100000}' <= c <= '\u{10fffd}'
}

/// An ASCII control character: U+0000 ..= U+001F, or U+007F.
pub open spec fn ascii_control(c: char) -> bool {
    c <= '\u{1f}' || c == '\u{7f}'
}

/// Whether a typed character is handed to the editor as text: not a private-use or an
/// ASCII control character, and typed without Ctrl or Cmd.
pub fn accepts_char(c: char, ctrl: bool, mac_cmd: bool) -> (r: bool)
    ensures
        r == (!private_use(c) && !ascii_control(c) && !ctrl && !mac_cmd),
{
    let private = ('\u{e000}' <= c && c <= '\u{f8ff}') || ('\u{f0000}' <= c && c <= '\u{ffffd}')
        || ('\u{100000}' <= c && c <= '\u{10fffd}');
    let control = c <= '\u{1f}' || c == '\u{7f}';
    !private && !control && !ctrl && !mac_cmd
}

/// The editor's modifier state.
#[derive(PartialEq, Eq, Structural, Clone, Copy, Debug)]
pub struct Modifiers {
    pub alt: bool,
    pub ctrl: bool,
    pub shift: bool,
    pub mac_cmd: bool,
    pub command: bool,
}

/// The editor's modifiers for the keyboard state: `command` is the logo key on macOS and
/// Ctrl elsewhere; `mac_cmd` is the logo key on macOS only.
pub fn modifiers_from(alt: bool, ctrl: bool, shift: bool, logo: bool, macos: bool) -> (r:
    Modifiers)
    ensures
        r == (Modifiers {
            alt,
            ctrl,
            shift,
            mac_cmd: logo && macos,
            command: if macos {
                logo
            } else {
                ctrl
            },
        }),
{
    Modifiers {
        alt,
        ctrl,
        shift,
        mac_cmd: logo && macos,
        command: if macos {
            logo
        } else {
            ctrl
        },
    }
}

/// A key of the editor that has a fixed meaning.
#[derive(PartialEq, Eq, Structural, Clone, Copy, Debug)]
pub enum NamedKey {
    ArrowDown,
    ArrowLeft,
    ArrowRight,
    ArrowUp,
    Escape,
    Tab,
    Backspace,
    Enter,
    Space,
    Insert,
    Delete,
    Home,
    End,
    PageUp,
    PageDown,
}

/// How a local key code is found among the editor's keys.
#[derive(PartialEq, Eq, Structural, Clone, Copy, Debug)]
pub enum EditorKey {
    /// A printable ASCII key, looked up by the character it is named after.
    ByName(char),
    /// A key with a fixed meaning.
    Named(NamedKey),
}

/// The named key a key code stands for, if any.
pub open spec fn named_key_spec(code: u16) -> Option<NamedKey> {
    if code == KEY_DOWN {
        Some(NamedKey::ArrowDown)
    } else if code == KEY_LEFT {
        Some(NamedKey::ArrowLeft)
    } else if code == KEY_RIGHT {
        Some(NamedKey::ArrowRight)
    } else if code == KEY_UP {
        Some(NamedKey::ArrowUp)
    } else if code == KEY_ESCAPE {
        Some(NamedKey::Escape)
    } else if code == KEY_TAB {
        Some(NamedKey::Tab)
    } else if code == KEY_BACKSPACE {
        Some(NamedKey::Backspace)
    } else if code == KEY_ENTER {
        Some(NamedKey::Enter)
    } else if code == KEY_SPACE {
        Some(NamedKey::Space)
    } else if code == KEY_INSERT {
        Some(NamedKey::Insert)
    } else if code == KEY_DELETE {
        Some(NamedKey::Delete)
    } else if code == KEY_HOME {
        Some(NamedKey::Home)
    } else if code == KEY_END {
        Some(NamedKey::End)
    } else if code == KEY_PAGE_UP {
        Some(NamedKey::PageUp)
    } else if code == KEY_PAGE_DOWN {
        Some(NamedKey::PageDown)
    } else {
        None
    }
}

/// The editor key for a local key code: the printable ASCII codes `0x20..=0x7e` by the
/// character of that code, the navigation and editing keys by name, nothing otherwise.
pub open spec fn editor_key_spec(code: u16) -> Option<EditorKey> {
    if 0x20 <= code <= 0x7e {
        Some(EditorKey::ByName(code as char))
    } else {
        match named_key_spec(code) {
            Some(k) => Some(EditorKey::Named(k)),
            None => None,
        }
    }
}

pub fn editor_key(code: u16) -> (r: Option<EditorKey>)
    ensures
        r == editor_key_spec(code),
{
    if 0x20 <= code && code <= 0x7e {
        let byte = code as u8;
        return Some(EditorKey::ByName(byte as char));
    }
    let named = if code == KEY_DOWN {
        NamedKey::ArrowDown
    } else if code == KEY_LEFT {
        NamedKey::ArrowLeft
    } else if code == KEY_RIGHT {
        NamedKey::ArrowRight
    } else if code == KEY_UP {
        NamedKey::ArrowUp
    } else if code == KEY_ESCAPE {
        NamedKey::Escape
    } else if code == KEY_TAB {
        NamedKey::Tab
    } else if code == KEY_BACKSPACE {
        NamedKey::Backspace
    } else if code == KEY_ENTER {
        NamedKey::Enter
    } else if code == KEY_SPACE {
        NamedKey::Space
    } else if code == KEY_INSERT {
        NamedKey::Insert
    } else if code == KEY_DELETE {
        NamedKey::Delete
    } else if code == KEY_HOME {
        NamedKey::Home
    } else if code == KEY_END {
        NamedKey::End
    } else if code == KEY_PAGE_UP {
        NamedKey::PageUp
    } else if code == KEY_PAGE_DOWN {
        NamedKey::PageDown
    } else {
        return None;
    };
    Some(EditorKey::Named(named))
}

/// What a local key event becomes for the editor.
#[derive(PartialEq, Eq, Structural, Clone, Copy, Debug)]
pub enum KeyInput {
    Cut,
    Copy,
    /// Paste the text of the local clipboard.
    Paste,
    Key(EditorKey),
    Ignore,
}

/// A key event for the editor: with the command modifier held, a press of X, C or V is
/// cut, copy or paste and any other press is dropped; otherwise the key is passed on when
/// the editor knows it.
pub fn key_input(code: u16, modifiers: Modifiers, pressed: bool) -> (r: KeyInput)
    ensures
        pressed && modifiers.command ==> r == (if code == KEY_X {
            KeyInput::Cut
        } else if code == KEY_C {
            KeyInput::Copy
        } else if code == KEY_V {
            KeyInput::Paste
        } else {
            KeyInput::Ignore
        }),
        !(pressed && modifiers.command) ==> r == (match editor_key_spec(code) {
            Some(k) => KeyInput::Key(k),
            None => KeyInput::Ignore,
        }),
{
    if pressed && modifiers.command {
        return if code == KEY_X {
            KeyInput::Cut
        } else if code == KEY_C {
            KeyInput::Copy
        } else if code == KEY_V {
            KeyInput::Paste
        } else {
            KeyInput::Ignore
        };
    }
    match editor_key(code) {
        Some(k) => KeyInput::Key(k),
        None => KeyInput::Ignore,
    }
}


/// The local key code of each named key.
pub open spec fn named_key_code(k: NamedKey) -> u16 {
    match k {
        NamedKey::ArrowDown => KEY_DOWN,
        NamedKey::ArrowLeft => KEY_LEFT,
        NamedKey::ArrowRight => KEY_RIGHT,
        NamedKey::ArrowUp => KEY_UP,
        NamedKey::Escape => KEY_ESCAPE,
        NamedKey::Tab => KEY_TAB,
        NamedKey::Backspace => KEY_BACKSPACE,
        NamedKey::Enter => KEY_ENTER,
        NamedKey::Space => KEY_SPACE,
        NamedKey::Insert => KEY_INSERT,
        NamedKey::Delete => KEY_DELETE,
        NamedKey::Home => KEY_HOME,
        NamedKey::End => KEY_END,
        NamedKey::PageUp => KEY_PAGE_UP,
        NamedKey::PageDown => KEY_PAGE_DOWN,
    }
}

/// Every named key is reached from its own key code, and only from it: a code outside the
/// printable range maps to a named key exactly when it is that key's code (Space has the
/// printable code 0x20 and is looked up by its character), so distinct codes never map to
/// the same named key. Printable codes are looked up by the character they encode.
pub proof fn law_named_keys_match_their_codes(code: u16, k: NamedKey)
    ensures
        k != NamedKey::Space ==> editor_key_spec(named_key_code(k)) == Some(EditorKey::Named(k)),
        editor_key_spec(code) == Some(EditorKey::Named(k)) ==> named_key_code(k) == code,
        0x20 <= code <= 0x7e ==> (editor_key_spec(code) matches Some(EditorKey::ByName(c)) && c
            as u32 == code as u32),
{
}

} // verus!
