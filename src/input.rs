use vstd::prelude::*;

verus! {

/// The handheld's buttons.
#[derive(Clone, Copy, PartialEq, Eq, Debug, Structural)]
pub enum Button {
    DPadUp,
    DPadDown,
    DPadLeft,
    DPadRight,
    /// The A button.
    East,
    /// The B button.
    South,
    Start,
    Select,
    LeftTrigger,
    RightTrigger,
}

/// One frame of input: the buttons held, pressed this frame and released this frame.
#[derive(Debug)]
pub struct GamepadInput {
    pub pressed: Vec<Button>,
    pub just_pressed: Vec<Button>,
    pub just_released: Vec<Button>,
}

fn contains_button(buttons: &Vec<Button>, b: Button) -> (r: bool)
    ensures
        r == buttons@.contains(b),
{
    let mut i: usize = 0;
    while i < buttons.len()
        invariant
            i <= buttons@.len(),
            forall|k: int| 0 <= k < i ==> buttons@[k] != b,
        decreases buttons@.len() - i,
    {
        if buttons[i] == b {
            assert(buttons@[i as int] == b);
            return true;
        }
        i = i + 1;
    }
    false
}

/// Every button, in a fixed order.
pub open spec fn all_buttons() -> Seq<Button> {
    seq![
        Button::DPadUp,
        Button::DPadDown,
        Button::DPadLeft,
        Button::DPadRight,
        Button::East,
        Button::South,
        Button::Start,
        Button::Select,
        Button::LeftTrigger,
        Button::RightTrigger,
    ]
}

impl GamepadInput {
    /// No button held, pressed or released.
    pub fn idle() -> (r: GamepadInput)
        ensures
            r.pressed@ == Seq::<Button>::empty(),
            r.just_pressed@ == Seq::<Button>::empty(),
            r.just_released@ == Seq::<Button>::empty(),
    {
        GamepadInput { pressed: Vec::new(), just_pressed: Vec::new(), just_released: Vec::new() }
    }

    pub fn is_pressed(&self, b: Button) -> (r: bool)
        ensures
            r == self.pressed@.contains(b),
    {
        contains_button(&self.pressed, b)
    }

    pub fn is_just_pressed(&self, b: Button) -> (r: bool)
        ensures
            r == self.just_pressed@.contains(b),
    {
        contains_button(&self.just_pressed, b)
    }

    pub fn is_just_released(&self, b: Button) -> (r: bool)
        ensures
            r == self.just_released@.contains(b),
    {
        contains_button(&self.just_released, b)
    }

    /// Whether any button at all went down this frame.
    pub fn any_just_pressed(&self) -> (r: bool)
        ensures
            r == exists|k: int| 0 <= k < all_buttons().len() && self.just_pressed@.contains(
                #[trigger] all_buttons()[k],
            ),
    {
        let r = self.is_just_pressed(Button::South) || self.is_just_pressed(Button::East)
            || self.is_just_pressed(Button::DPadUp) || self.is_just_pressed(Button::DPadDown)
            || self.is_just_pressed(Button::DPadLeft) || self.is_just_pressed(Button::DPadRight)
            || self.is_just_pressed(Button::Start) || self.is_just_pressed(Button::Select)
            || self.is_just_pressed(Button::LeftTrigger) || self.is_just_pressed(
            Button::RightTrigger,
        );
        proof {
            let s = all_buttons();
            if r {
                if self.just_pressed@.contains(Button::DPadUp) {
                    assert(s[0] == Button::DPadUp);
                } else if self.just_pressed@.contains(Button::DPadDown) {
                    assert(s[1] == Button::DPadDown);
                } else if self.just_pressed@.contains(Button::DPadLeft) {
                    assert(s[2] == Button::DPadLeft);
                } else if self.just_pressed@.contains(Button::DPadRight) {
                    assert(s[3] == Button::DPadRight);
                } else if self.just_pressed@.contains(Button::East) {
                    assert(s[4] == Button::East);
                } else if self.just_pressed@.contains(Button::South) {
                    assert(s[5] == Button::South);
                } else if self.just_pressed@.contains(Button::Start) {
                    assert(s[6] == Button::Start);
                } else if self.just_pressed@.contains(Button::Select) {
                    assert(s[7] == Button::Select);
                } else if self.just_pressed@.contains(Button::LeftTrigger) {
                    assert(s[8] == Button::LeftTrigger);
                } else {
                    assert(s[9] == Button::RightTrigger);
                }
            }
        }
        r
    }
}

} // verus!
