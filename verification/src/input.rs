//! Input tracking: which keys and pointer buttons are currently held, which
//! were newly pressed this frame ("clicked"), and the last cursor position
//! and scroll delta.
//!
//! The front end decodes raw window events into the plain [`Key`], [`Button`]
//! and [`ElementState`] values consumed here. Cursor and scroll coordinates
//! arrive as the bit patterns of 64-bit floats and are stored unchanged.

use vstd::prelude::*;

verus! {

/// A keyboard key. Keys the demo does not react to arrive as `Other` with
/// the window system's key code.
#[derive(Clone, Copy, Debug, PartialEq, Eq, Structural)]
pub enum Key {
    W,
    A,
    S,
    D,
    Up,
    Down,
    Space,
    Escape,
    Other(u32),
}

/// A pointer button.
#[derive(Clone, Copy, Debug, PartialEq, Eq, Structural)]
pub enum Button {
    Left,
    Right,
    Middle,
    Other(u32),
}

/// Whether an input transition pressed or released its key or button.
#[derive(Clone, Copy, Debug, PartialEq, Eq, Structural)]
pub enum ElementState {
    Pressed,
    Released,
}

/// Either a key or a pointer button.
#[derive(Clone, Copy, Debug, PartialEq, Eq, Structural)]
pub enum KeyOrButton {
    Key(Key),
    Button(Button),
}

/// Anything that can be pressed: a key or a pointer button.
pub trait Pressable: Sized {
    /// The key or button this value stands for.
    spec fn as_spec(self) -> KeyOrButton;

    fn as_button_or_key(self) -> (r: KeyOrButton)
        ensures
            r == self.as_spec(),
    ;
}

impl Pressable for Key {
    open spec fn as_spec(self) -> KeyOrButton {
        KeyOrButton::Key(self)
    }

    fn as_button_or_key(self) -> (r: KeyOrButton) {
        KeyOrButton::Key(self)
    }
}

impl Pressable for Button {
    open spec fn as_spec(self) -> KeyOrButton {
        KeyOrButton::Button(self)
    }

    fn as_button_or_key(self) -> (r: KeyOrButton) {
        KeyOrButton::Button(self)
    }
}

/// The set of values a sequence holds.
pub open spec fn set_of<A>(s: Seq<A>) -> Set<A> {
    Set::new(|x: A| s.contains(x))
}

/// The abstract state of an [`InputHandler`]: four membership sets and the
/// two stored coordinate pairs.
#[verifier::ext_equal]
pub ghost struct InputView {
    pub keys_held: Set<Key>,
    pub keys_clicked: Set<Key>,
    pub buttons_held: Set<Button>,
    pub buttons_clicked: Set<Button>,
    pub cursor: (u64, u64),
    pub scroll: (u64, u64),
}

/// The state after a press of `k` is recorded: `k` is held and clicked.
pub open spec fn press_key(v: InputView, k: Key) -> InputView {
    InputView {
        keys_held: v.keys_held.insert(k),
        keys_clicked: v.keys_clicked.insert(k),
        buttons_held: v.buttons_held,
        buttons_clicked: v.buttons_clicked,
        cursor: v.cursor,
        scroll: v.scroll,
    }
}

/// The state after a release of `k` is recorded: `k` is no longer held; the
/// clicked set keeps its entry until the frame boundary.
pub open spec fn release_key(v: InputView, k: Key) -> InputView {
    InputView {
        keys_held: v.keys_held.remove(k),
        keys_clicked: v.keys_clicked,
        buttons_held: v.buttons_held,
        buttons_clicked: v.buttons_clicked,
        cursor: v.cursor,
        scroll: v.scroll,
    }
}

/// The state after a press of button `b` is recorded.
pub open spec fn press_button(v: InputView, b: Button) -> InputView {
    InputView {
        keys_held: v.keys_held,
        keys_clicked: v.keys_clicked,
        buttons_held: v.buttons_held.insert(b),
        buttons_clicked: v.buttons_clicked.insert(b),
        cursor: v.cursor,
        scroll: v.scroll,
    }
}

/// The state after a release of button `b` is recorded.
pub open spec fn release_button(v: InputView, b: Button) -> InputView {
    InputView {
        keys_held: v.keys_held,
        keys_clicked: v.keys_clicked,
        buttons_held: v.buttons_held.remove(b),
        buttons_clicked: v.buttons_clicked,
        cursor: v.cursor,
        scroll: v.scroll,
    }
}

/// The state after a frame boundary: both clicked sets are empty, everything
/// else is unchanged.
pub open spec fn frame_clear(v: InputView) -> InputView {
    InputView {
        keys_held: v.keys_held,
        keys_clicked: Set::empty(),
        buttons_held: v.buttons_held,
        buttons_clicked: Set::empty(),
        cursor: v.cursor,
        scroll: v.scroll,
    }
}

/// Tracks held and newly-pressed keys and buttons across one frame.
pub struct InputHandler {
    keys_pressed: Vec<Key>,
    keys_clicked: Vec<Key>,
    mouse_pressed: Vec<Button>,
    mouse_clicked: Vec<Button>,
    mouse_pos: (u64, u64),
    mouse_scroll: (u64, u64),
}

impl View for InputHandler {
    type V = InputView;

    closed spec fn view(&self) -> InputView {
        InputView {
            keys_held: set_of(self.keys_pressed@),
            keys_clicked: set_of(self.keys_clicked@),
            buttons_held: set_of(self.mouse_pressed@),
            buttons_clicked: set_of(self.mouse_clicked@),
            cursor: self.mouse_pos,
            scroll: self.mouse_scroll,
        }
    }
}

/// Whether `v` holds `k`.
fn contains_key(v: &Vec<Key>, k: Key) -> (r: bool)
    ensures
        r == v@.contains(k),
{
    let mut i: usize = 0;
    while i < v.len()
        invariant
            i <= v.len(),
            forall|j: int| 0 <= j < i ==> v@[j] != k,
        decreases v.len() - i,
    {
        if v[i] == k {
            return true;
        }
        i = i + 1;
    }
    false
}

/// Whether `v` holds `b`.
fn contains_button(v: &Vec<Button>, b: Button) -> (r: bool)
    ensures
        r == v@.contains(b),
{
    let mut i: usize = 0;
    while i < v.len()
        invariant
            i <= v.len(),
            forall|j: int| 0 <= j < i ==> v@[j] != b,
        decreases v.len() - i,
    {
        if v[i] == b {
            return true;
        }
        i = i + 1;
    }
    false
}

/// Adds `k` if absent, so that membership afterwards is membership before
/// plus `k`.
fn insert_key(v: &mut Vec<Key>, k: Key)
    ensures
        set_of(final(v)@) == set_of(old(v)@).insert(k),
{
    let present = contains_key(v, k);
    if !present {
        v.push(k);
    }
    proof {
        if !present {
            assert(v@ == old(v)@.push(k));
            assert(v@[old(v)@.len() as int] == k);
            assert(v@.contains(k));
            assert forall|x: Key|
                set_of(v@).contains(x) == set_of(old(v)@).insert(k).contains(x) by {
                if old(v)@.contains(x) {
                    let j = choose|j: int| 0 <= j < old(v)@.len() && old(v)@[j] == x;
                    assert(v@[j] == x);
                    assert(v@.contains(x));
                }
                if v@.contains(x) {
                    let j = choose|j: int| 0 <= j < v@.len() && v@[j] == x;
                    if j < old(v)@.len() {
                        assert(old(v)@[j] == x);
                        assert(old(v)@.contains(x));
                    } else {
                        assert(x == k);
                    }
                }
            }
        }
        assert(set_of(v@) =~= set_of(old(v)@).insert(k));
    }
}

/// Adds `b` if absent.
fn insert_button(v: &mut Vec<Button>, b: Button)
    ensures
        set_of(final(v)@) == set_of(old(v)@).insert(b),
{
    let present = contains_button(v, b);
    if !present {
        v.push(b);
    }
    proof {
        if !present {
            assert(v@ == old(v)@.push(b));
            assert(v@[old(v)@.len() as int] == b);
            assert(v@.contains(b));
            assert forall|x: Button|
                set_of(v@).contains(x) == set_of(old(v)@).insert(b).contains(x) by {
                if old(v)@.contains(x) {
                    let j = choose|j: int| 0 <= j < old(v)@.len() && old(v)@[j] == x;
                    assert(v@[j] == x);
                    assert(v@.contains(x));
                }
                if v@.contains(x) {
                    let j = choose|j: int| 0 <= j < v@.len() && v@[j] == x;
                    if j < old(v)@.len() {
                        assert(old(v)@[j] == x);
                        assert(old(v)@.contains(x));
                    } else {
                        assert(x == b);
                    }
                }
            }
        }
        assert(set_of(v@) =~= set_of(old(v)@).insert(b));
    }
}

/// Removes every occurrence of `k`, so that membership afterwards is
/// membership before minus `k`.
fn remove_key(v: &mut Vec<Key>, k: Key)
    ensures
        set_of(final(v)@) == set_of(old(v)@).remove(k),
{
    let mut out: Vec<Key> = Vec::new();
    let mut i: usize = 0;
    while i < v.len()
        invariant
            i <= v.len(),
            forall|x: Key| #[trigger] out@.contains(x) ==> v@.contains(x) && x != k,
            forall|j: int| 0 <= j < i && v@[j] != k ==> out@.contains(v@[j]),
        decreases v.len() - i,
    {
        if v[i] != k {
            let ghost before = out@;
            out.push(v[i]);
            proof {
                assert(out@[before.len() as int] == v@[i as int]);
                assert forall|x: Key| #[trigger] out@.contains(x) implies v@.contains(x) && x != k
                by {
                    let j = choose|j: int| 0 <= j < out@.len() && out@[j] == x;
                    if j < before.len() {
                        assert(before[j] == x);
                        assert(before.contains(x));
                    } else {
                        assert(v@[i as int] == x);
                    }
                }
                assert forall|j: int| 0 <= j < i + 1 && v@[j] != k implies #[trigger] out@.contains(
                    v@[j],
                ) by {
                    if j < i {
                        assert(before.contains(v@[j]));
                        let jj = choose|jj: int| 0 <= jj < before.len() && before[jj] == v@[j];
                        assert(out@[jj] == v@[j]);
                    } else {
                        assert(out@[before.len() as int] == v@[j]);
                    }
                }
            }
        }
        i = i + 1;
    }
    *v = out;
    proof {
        assert forall|x: Key|
            set_of(v@).contains(x) == set_of(old(v)@).remove(k).contains(x) by {}
        assert(set_of(v@) =~= set_of(old(v)@).remove(k));
    }
}

/// Removes every occurrence of `b`.
fn remove_button(v: &mut Vec<Button>, b: Button)
    ensures
        set_of(final(v)@) == set_of(old(v)@).remove(b),
{
    let mut out: Vec<Button> = Vec::new();
    let mut i: usize = 0;
    while i < v.len()
        invariant
            i <= v.len(),
            forall|x: Button| #[trigger] out@.contains(x) ==> v@.contains(x) && x != b,
            forall|j: int| 0 <= j < i && v@[j] != b ==> out@.contains(v@[j]),
        decreases v.len() - i,
    {
        if v[i] != b {
            let ghost before = out@;
            out.push(v[i]);
            proof {
                assert(out@[before.len() as int] == v@[i as int]);
                assert forall|x: Button| #[trigger] out@.contains(x) implies v@.contains(x) && x
                    != b by {
                    let j = choose|j: int| 0 <= j < out@.len() && out@[j] == x;
                    if j < before.len() {
                        assert(before[j] == x);
                        assert(before.contains(x));
                    } else {
                        assert(v@[i as int] == x);
                    }
                }
                assert forall|j: int| 0 <= j < i + 1 && v@[j] != b implies #[trigger] out@.contains(
                    v@[j],
                ) by {
                    if j < i {
                        assert(before.contains(v@[j]));
                        let jj = choose|jj: int| 0 <= jj < before.len() && before[jj] == v@[j];
                        assert(out@[jj] == v@[j]);
                    } else {
                        assert(out@[before.len() as int] == v@[j]);
                    }
                }
            }
        }
        i = i + 1;
    }
    *v = out;
    proof {
        assert forall|x: Button|
            set_of(v@).contains(x) == set_of(old(v)@).remove(b).contains(x) by {}
        assert(set_of(v@) =~= set_of(old(v)@).remove(b));
    }
}

impl InputHandler {
    /// A handler with nothing held, nothing clicked, and zeroed coordinates.
    pub fn new() -> (h: InputHandler)
        ensures
            h@.keys_held == Set::<Key>::empty(),
            h@.keys_clicked == Set::<Key>::empty(),
            h@.buttons_held == Set::<Button>::empty(),
            h@.buttons_clicked == Set::<Button>::empty(),
            h@.cursor == (0u64, 0u64),
            h@.scroll == (0u64, 0u64),
    {
        let h = InputHandler {
            keys_pressed: Vec::new(),
            keys_clicked: Vec::new(),
            mouse_pressed: Vec::new(),
            mouse_clicked: Vec::new(),
            mouse_pos: (0u64, 0u64),
            mouse_scroll: (0u64, 0u64),
        };
        proof {
            assert(set_of(h.keys_pressed@) =~= Set::<Key>::empty());
            assert(set_of(h.keys_clicked@) =~= Set::<Key>::empty());
            assert(set_of(h.mouse_pressed@) =~= Set::<Button>::empty());
            assert(set_of(h.mouse_clicked@) =~= Set::<Button>::empty());
        }
        h
    }

    /// Marks the frame boundary: everything clicked this frame stops being
    /// clicked; held state and coordinates are unchanged.
    pub fn frame(&mut self)
        ensures
            final(self)@ == frame_clear(old(self)@),
    {
        self.keys_clicked = Vec::new();
        self.mouse_clicked = Vec::new();
        proof {
            assert(set_of(self.keys_clicked@) =~= Set::<Key>::empty());
            assert(set_of(self.mouse_clicked@) =~= Set::<Button>::empty());
            assert(self@ =~= frame_clear(old(self)@));
        }
    }

    /// Whether `pressable` was newly pressed this frame.
    pub fn clicked<P: Pressable>(&self, pressable: P) -> (r: bool)
        ensures
            r == match pressable.as_spec() {
                KeyOrButton::Key(k) => self@.keys_clicked.contains(k),
                KeyOrButton::Button(b) => self@.buttons_clicked.contains(b),
            },
    {
        match pressable.as_button_or_key() {
            KeyOrButton::Key(key) => contains_key(&self.keys_clicked, key),
            KeyOrButton::Button(button) => contains_button(&self.mouse_clicked, button),
        }
    }

    /// Whether `pressable` is currently held.
    pub fn down<P: Pressable>(&self, pressable: P) -> (r: bool)
        ensures
            r == match pressable.as_spec() {
                KeyOrButton::Key(k) => self@.keys_held.contains(k),
                KeyOrButton::Button(b) => self@.buttons_held.contains(b),
            },
    {
        match pressable.as_button_or_key() {
            KeyOrButton::Key(key) => contains_key(&self.keys_pressed, key),
            KeyOrButton::Button(button) => contains_button(&self.mouse_pressed, button),
        }
    }

    /// Whether `pressable` is currently not held.
    pub fn up<P: Pressable>(&self, pressable: P) -> (r: bool)
        ensures
            r == match pressable.as_spec() {
                KeyOrButton::Key(k) => !self@.keys_held.contains(k),
                KeyOrButton::Button(b) => !self@.buttons_held.contains(b),
            },
    {
        match pressable.as_button_or_key() {
            KeyOrButton::Key(key) => !contains_key(&self.keys_pressed, key),
            KeyOrButton::Button(button) => !contains_button(&self.mouse_pressed, button),
        }
    }

    /// The last cursor position, as two 64-bit float bit patterns.
    pub fn get_mouse_pos(&self) -> (r: (u64, u64))
        ensures
            r == self@.cursor,
    {
        self.mouse_pos
    }

    /// The last scroll delta, as two 64-bit float bit patterns.
    pub fn get_mouse_scroll(&self) -> (r: (u64, u64))
        ensures
            r == self@.scroll,
    {
        self.mouse_scroll
    }

    /// Records a key transition: a press adds the key to the held and
    /// clicked sets; a release removes it from the held set only.
    pub fn update_key(&mut self, key: Key, state: ElementState)
        ensures
            final(self)@ == match state {
                ElementState::Pressed => press_key(old(self)@, key),
                ElementState::Released => release_key(old(self)@, key),
            },
    {
        match state {
            ElementState::Pressed => {
                insert_key(&mut self.keys_pressed, key);
                insert_key(&mut self.keys_clicked, key);
                proof {
                    assert(self@ =~= press_key(old(self)@, key));
                }
            },
            ElementState::Released => {
                remove_key(&mut self.keys_pressed, key);
                proof {
                    assert(self@ =~= release_key(old(self)@, key));
                }
            },
        }
    }

    /// Records a pointer-button transition, like [`Self::update_key`].
    pub fn update_button(&mut self, button: Button, state: ElementState)
        ensures
            final(self)@ == match state {
                ElementState::Pressed => press_button(old(self)@, button),
                ElementState::Released => release_button(old(self)@, button),
            },
    {
        match state {
            ElementState::Pressed => {
                insert_button(&mut self.mouse_pressed, button);
                insert_button(&mut self.mouse_clicked, button);
                proof {
                    assert(self@ =~= press_button(old(self)@, button));
                }
            },
            ElementState::Released => {
                remove_button(&mut self.mouse_pressed, button);
                proof {
                    assert(self@ =~= release_button(old(self)@, button));
                }
            },
        }
    }

    /// Stores a scroll delta (two 64-bit float bit patterns).
    pub fn update_wheel(&mut self, x_bits: u64, y_bits: u64)
        ensures
            final(self)@ == (InputView { scroll: (x_bits, y_bits), ..old(self)@ }),
    {
        self.mouse_scroll = (x_bits, y_bits);
        proof {
            assert(self@ =~= (InputView { scroll: (x_bits, y_bits), ..old(self)@ }));
        }
    }

    /// Stores a cursor position (two 64-bit float bit patterns).
    pub fn update_cursor(&mut self, x_bits: u64, y_bits: u64)
        ensures
            final(self)@ == (InputView { cursor: (x_bits, y_bits), ..old(self)@ }),
    {
        self.mouse_pos = (x_bits, y_bits);
        proof {
            assert(self@ =~= (InputView { cursor: (x_bits, y_bits), ..old(self)@ }));
        }
    }
}

/// A key registers as clicked exactly in the frame of its press: recording
/// the press makes `clicked` true, the next frame boundary makes it false,
/// and no later release, other-key press or button event brings it back
/// without a new press of the same key.
pub proof fn lemma_clicked_only_in_press_frame(v: InputView, k: Key, k2: Key, b: Button)
    requires
        k2 != k,
    ensures
        press_key(v, k).keys_clicked.contains(k),
        !frame_clear(press_key(v, k)).keys_clicked.contains(k),
        !frame_clear(press_key(v, k)).keys_clicked.contains(k2),
        !release_key(frame_clear(v), k2).keys_clicked.contains(k),
        !press_key(frame_clear(v), k2).keys_clicked.contains(k),
        !press_button(frame_clear(v), b).keys_clicked.contains(k),
        !frame_clear(frame_clear(press_key(v, k))).keys_clicked.contains(k),
{
}

} // verus!
