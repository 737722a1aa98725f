use vstd::prelude::*;

verus! {

/// A mouse button, as numbered by the DOM `MouseEvent.button` property.
#[derive(Clone, Copy, Debug, PartialEq, Eq, Structural, PartialOrd, Ord, Hash)]
pub enum MouseButton {
    Left,
    Middle,
    Right,
    Back,
    Forward,
}

/// All buttons, in the order of their DOM numbers.
pub open spec fn all_buttons() -> Seq<MouseButton> {
    seq![
        MouseButton::Left,
        MouseButton::Middle,
        MouseButton::Right,
        MouseButton::Back,
        MouseButton::Forward,
    ]
}

impl MouseButton {
    /// The button with DOM number `button`, if there is one.
    pub open spec fn spec_from_websys(button: i16) -> Option<MouseButton> {
        if 0 <= button < 5 {
            Some(all_buttons()[button as int])
        } else {
            None
        }
    }

    /// The bit that stands for the button in a [`MouseButtonState`].
    pub open spec fn spec_bitmask(self) -> u16 {
        match self {
            MouseButton::Left => 0x0001,
            MouseButton::Middle => 0x0002,
            MouseButton::Right => 0x0004,
            MouseButton::Back => 0x0008,
            MouseButton::Forward => 0x0010,
        }
    }

    /// All buttons, in the order of their DOM numbers.
    pub fn buttons() -> (r: [MouseButton; 5])
        ensures
            r@ == all_buttons(),
    {
        let r = [
            MouseButton::Left,
            MouseButton::Middle,
            MouseButton::Right,
            MouseButton::Back,
            MouseButton::Forward,
        ];
        assert(r@ =~= all_buttons());
        r
    }

    /// Converts the DOM `MouseEvent.button` number.
    pub fn from_websys(button: i16) -> (r: Option<Self>)
        ensures
            r == Self::spec_from_websys(button),
    {
        match button {
            0 => Some(Self::Left),
            1 => Some(Self::Middle),
            2 => Some(Self::Right),
            3 => Some(Self::Back),
            4 => Some(Self::Forward),
            _ => None,
        }
    }

    /// The bit that stands for the button in a [`MouseButtonState`].
    pub fn bitmask(&self) -> (m: u16)
        ensures
            m == self.spec_bitmask(),
    {
        match self {
            MouseButton::Left => 0x0001,
            MouseButton::Middle => 0x0002,
            MouseButton::Right => 0x0004,
            MouseButton::Back => 0x0008,
            MouseButton::Forward => 0x0010,
        }
    }
}

/// Law: the DOM numbers 0 to 4 name the five buttons, each exactly once, and
/// no other number names a button.
pub proof fn law_from_websys_is_one_to_one(a: i16, b: i16)
    ensures
        MouseButton::spec_from_websys(a) is Some <==> 0 <= a < 5,
        MouseButton::spec_from_websys(a) is Some && MouseButton::spec_from_websys(a)
            == MouseButton::spec_from_websys(b) ==> a == b,
{
}

/// Law: every button is named by some DOM number.
pub proof fn law_from_websys_is_onto(button: MouseButton)
    ensures
        exists|i: i16| 0 <= i < 5 && MouseButton::spec_from_websys(i) == Some(button),
{
    let i: i16 = match button {
        MouseButton::Left => 0,
        MouseButton::Middle => 1,
        MouseButton::Right => 2,
        MouseButton::Back => 3,
        MouseButton::Forward => 4,
    };
    assert(MouseButton::spec_from_websys(i) == Some(button));
}

/// Law: each button owns one bit of its own.
pub proof fn law_bitmasks_are_distinct_bits(a: MouseButton, b: MouseButton)
    ensures
        a.spec_bitmask() != 0,
        a.spec_bitmask() & b.spec_bitmask() == (if a == b { a.spec_bitmask() } else { 0 }),
{
    let x = a.spec_bitmask();
    let y = b.spec_bitmask();
    assert(x == 1 || x == 2 || x == 4 || x == 8 || x == 16);
    assert(y == 1 || y == 2 || y == 4 || y == 8 || y == 16);
    assert((x == 1 || x == 2 || x == 4 || x == 8 || x == 16) && (y == 1 || y == 2 || y == 4 || y
        == 8 || y == 16) ==> x & y == (if x == y { x } else { 0u16 })) by (bit_vector);
}

/// How the deltas of a wheel event are measured.
#[derive(Clone, Copy, Debug, PartialEq, Eq, Structural)]
pub enum WheelDeltaMode {
    Pixel,
    Line,
    Page,
}

impl WheelDeltaMode {
    /// The mode with DOM `WheelEvent.deltaMode` number `mode`, if there is one.
    pub open spec fn spec_from_websys(mode: u32) -> Option<WheelDeltaMode> {
        if mode == 0 {
            Some(WheelDeltaMode::Pixel)
        } else if mode == 1 {
            Some(WheelDeltaMode::Line)
        } else if mode == 2 {
            Some(WheelDeltaMode::Page)
        } else {
            None
        }
    }

    /// Converts the DOM `WheelEvent.deltaMode` number.
    pub fn from_websys(mode: u32) -> (r: Option<Self>)
        ensures
            r == Self::spec_from_websys(mode),
    {
        match mode {
            0x00 => Some(Self::Pixel),
            0x01 => Some(Self::Line),
            0x02 => Some(Self::Page),
            _ => None,
        }
    }
}

proof fn lemma_set_bit(s: u16, a: MouseButton, b: MouseButton)
    ensures
        ((s | a.spec_bitmask()) & b.spec_bitmask() != 0) == ((s & b.spec_bitmask() != 0) || a
            == b),
        ((s & !a.spec_bitmask()) & b.spec_bitmask() != 0) == ((s & b.spec_bitmask() != 0) && a
            != b),
{
    let x = a.spec_bitmask();
    let y = b.spec_bitmask();
    assert(x == 1 || x == 2 || x == 4 || x == 8 || x == 16);
    assert(y == 1 || y == 2 || y == 4 || y == 8 || y == 16);
    assert((x == 1 || x == 2 || x == 4 || x == 8 || x == 16) && (y == 1 || y == 2 || y == 4 || y
        == 8 || y == 16) ==> (((s | x) & y != 0) == ((s & y != 0) || x == y) && ((s & !x) & y
        != 0) == ((s & y != 0) && x != y))) by (bit_vector);
    assert((x == y) == (a == b));
}

/// Which mouse buttons are held down.
#[derive(Clone, Copy)]
pub struct MouseButtonState {
    state: u16,
}

impl MouseButtonState {
    /// The set of buttons that are down.
    pub closed spec fn pressed(self) -> Set<MouseButton> {
        Set::new(|b: MouseButton| self.state & b.spec_bitmask() != 0)
    }

    /// No button down.
    pub fn new() -> (s: Self)
        ensures
            s.pressed() == Set::<MouseButton>::empty(),
    {
        let s = MouseButtonState { state: 0 };
        assert forall|b: MouseButton| !s.pressed().contains(b) by {
            let m = b.spec_bitmask();
            assert(0u16 & m == 0) by (bit_vector);
        }
        assert(s.pressed() =~= Set::<MouseButton>::empty());
        s
    }

    /// Records that `button` was released.
    pub fn set_up(&mut self, button: MouseButton)
        ensures
            final(self).pressed() == old(self).pressed().remove(button),
    {
        self.state = self.state & !button.bitmask();
        assert forall|b: MouseButton|
            #[trigger] self.pressed().contains(b) == old(self).pressed().remove(button).contains(
                b,
            ) by {
            lemma_set_bit(old(self).state, button, b);
        }
        assert(self.pressed() =~= old(self).pressed().remove(button));
    }

    /// Records that `button` was pressed.
    pub fn set_down(&mut self, button: MouseButton)
        ensures
            final(self).pressed() == old(self).pressed().insert(button),
    {
        self.state = self.state | button.bitmask();
        assert forall|b: MouseButton|
            #[trigger] self.pressed().contains(b) == old(self).pressed().insert(button).contains(
                b,
            ) by {
            lemma_set_bit(old(self).state, button, b);
        }
        assert(self.pressed() =~= old(self).pressed().insert(button));
    }

    /// Whether `button` is down.
    pub fn is_down(&self, button: MouseButton) -> (r: bool)
        ensures
            r == self.pressed().contains(button),
    {
        self.state & button.bitmask() != 0
    }

    /// Walks the buttons in DOM order, yielding those that are down.
    pub fn down_iter(&self) -> (it: MouseButtonStateIter)
        ensures
            it.pressed() == self.pressed(),
            it.yields_down(),
            it.remaining() == all_buttons(),
    {
        let it = MouseButtonStateIter { state: *self, position: 0, down: true };
        assert(all_buttons().skip(0) =~= all_buttons());
        it
    }

    /// Walks the buttons in DOM order, yielding those that are up.
    pub fn up_iter(&self) -> (it: MouseButtonStateIter)
        ensures
            it.pressed() == self.pressed(),
            !it.yields_down(),
            it.remaining() == all_buttons(),
    {
        let it = MouseButtonStateIter { state: *self, position: 0, down: false };
        assert(all_buttons().skip(0) =~= all_buttons());
        it
    }
}

impl Default for MouseButtonState {
    fn default() -> (s: Self)
        ensures
            s.pressed() == Set::<MouseButton>::empty(),
    {
        Self::new()
    }
}

/// Law: pressing and then releasing a button leaves the other buttons as
/// they were and the button itself up.
pub proof fn law_press_then_release(pressed: Set<MouseButton>, b: MouseButton)
    ensures
        pressed.insert(b).remove(b) == pressed.remove(b),
        !pressed.insert(b).remove(b).contains(b),
{
    assert(pressed.insert(b).remove(b) =~= pressed.remove(b));
}

/// Walks the five buttons in DOM order. Each step looks at one button and
/// yields it when its state matches (down for [`MouseButtonState::down_iter`],
/// up for [`MouseButtonState::up_iter`]); a step on a button that does not
/// match yields `None`. A loop that stops at the first `None` therefore
/// stops at the first button that does not match; calling `next` again goes
/// on with the following button.
#[derive(Clone, Copy)]
pub struct MouseButtonStateIter {
    state: MouseButtonState,
    position: usize,
    down: bool,
}

impl MouseButtonStateIter {
    #[verifier::type_invariant]
    spec fn inv(self) -> bool {
        self.position <= 5
    }

    /// The buttons of the state walked.
    pub closed spec fn pressed(self) -> Set<MouseButton> {
        self.state.pressed()
    }

    /// Whether buttons that are down are yielded (else those that are up).
    pub closed spec fn yields_down(self) -> bool {
        self.down
    }

    /// The buttons not yet looked at.
    pub closed spec fn remaining(self) -> Seq<MouseButton> {
        all_buttons().skip(self.position as int)
    }

    /// Looks at the next button.
    pub fn next(&mut self) -> (r: Option<MouseButton>)
        ensures
            final(self).pressed() == old(self).pressed(),
            final(self).yields_down() == old(self).yields_down(),
            old(self).remaining().len() == 0 ==> r is None && final(self).remaining().len() == 0,
            old(self).remaining().len() > 0 ==> {
                let b = old(self).remaining()[0];
                &&& final(self).remaining() == old(self).remaining().drop_first()
                &&& r == if old(self).pressed().contains(b) == old(self).yields_down() {
                    Some(b)
                } else {
                    None
                }
            },
    {
        proof {
            use_type_invariant(&*self);
        }
        if self.position >= 5 {
            return None;
        }
        let buttons = MouseButton::buttons();
        let button = buttons[self.position];
        self.position = self.position + 1;
        assert(old(self).remaining().drop_first() =~= self.remaining());
        if self.state.is_down(button) == self.down {
            Some(button)
        } else {
            None
        }
    }
}

} // verus!
