//! Button state and the button events inferred between two frames.
use vstd::prelude::*;

verus! {

/// Bit of the left arrow on the directional pad in a device button mask.
pub const BUTTON_LEFT: u32 = 1;

/// Bit of the right arrow on the directional pad in a device button mask.
pub const BUTTON_RIGHT: u32 = 2;

/// Bit of the up arrow on the directional pad in a device button mask.
pub const BUTTON_UP: u32 = 4;

/// Bit of the down arrow on the directional pad in a device button mask.
pub const BUTTON_DOWN: u32 = 8;

/// Bit of the B button in a device button mask.
pub const BUTTON_B: u32 = 16;

/// Bit of the A button in a device button mask.
pub const BUTTON_A: u32 = 32;

/// Bit of the accelerometer in the device's mask of enabled peripherals.
pub const PERIPHERAL_ACCELEROMETER: u32 = 1;

/// Whether the accelerometer is enabled in the device's mask of enabled peripherals, so that its
/// last read values can be asked for.
pub fn accelerometer_is_enabled(peripherals_enabled: u32) -> (r: bool)
    ensures
        r == mask_has(peripherals_enabled, PERIPHERAL_ACCELEROMETER),
{
    peripherals_enabled & PERIPHERAL_ACCELEROMETER == PERIPHERAL_ACCELEROMETER
}

/// The set of input buttons.
#[derive(Debug, Copy, Clone, Hash, PartialEq, Eq, Structural)]
pub enum Button {
    /// The up arrow on the directional pad.
    Up,
    /// The down arrow on the directional pad.
    Down,
    /// The left arrow on the directional pad.
    Left,
    /// The right arrow on the directional pad.
    Right,
    /// The B button.
    B,
    /// The A button.
    A,
}

/// The current state of a button, which indicates if the player is holding the button down or not.
#[derive(Debug, Copy, Clone, Hash, PartialEq, Eq, Structural)]
pub enum ButtonState {
    /// The button is being pressed. The active state of a button.
    Pushed,
    /// The button is not being pressed. The neutral state of a button.
    Released,
}

/// Events which describe changes in state for a button.
#[derive(Debug, Copy, Clone, Hash, PartialEq, Eq, Structural)]
pub enum ButtonEvent {
    /// The button was pressed.
    ///
    /// It moved from a `Released` to a `Pushed` state.
    Push,
    /// The button stopped being pressed
    ///
    /// It moved from a `Pushed` to a `Released` state.
    Release,
}

/// The three button masks the device reports for one frame: the buttons held down now, and the
/// buttons pushed and released since the previous frame.
#[derive(Debug, Copy, Clone, PartialEq, Eq, Structural)]
pub struct ButtonsSet {
    pub current: u32,
    pub pushed: u32,
    pub released: u32,
}

/// Whether every bit of `button` is set in `mask`.
pub open spec fn mask_has(mask: u32, button: u32) -> bool {
    mask & button == button
}

/// The events of one button between two frames, from whether it was held down in the last frame,
/// whether it is held down in this frame, and whether the device saw it pushed or released in
/// between.
///
/// The device reports at most one push and one release between frames, so the sequence is
/// reconstructed from the two end states: a push and a release reported between two frames in
/// which the button rests in the same state become a round trip.
pub open spec fn events_between(was_down: bool, is_down: bool, pushed: bool, released: bool) -> Seq<
    ButtonEvent,
> {
    if was_down {
        if !is_down {
            if pushed {
                seq![ButtonEvent::Release, ButtonEvent::Push, ButtonEvent::Release]
            } else {
                seq![ButtonEvent::Release]
            }
        } else {
            if pushed {
                seq![ButtonEvent::Release, ButtonEvent::Push]
            } else {
                seq![]
            }
        }
    } else {
        if is_down {
            if released {
                seq![ButtonEvent::Push, ButtonEvent::Release, ButtonEvent::Push]
            } else {
                seq![ButtonEvent::Push]
            }
        } else {
            if released {
                seq![ButtonEvent::Push, ButtonEvent::Release]
            } else {
                seq![]
            }
        }
    }
}

/// The events of `button` between the frames `frames[1]` (last) and `frames[0]` (current).
pub open spec fn button_events_spec(frames: [ButtonsSet; 2], button: u32) -> Seq<ButtonEvent> {
    events_between(
        mask_has(frames[1].current, button),
        mask_has(frames[0].current, button),
        mask_has(frames[0].pushed, button),
        mask_has(frames[0].released, button),
    )
}

/// The events held in a fixed-size slot array: the present ones, in order.
pub open spec fn present_events(slots: Seq<Option<ButtonEvent>>) -> Seq<ButtonEvent>
    decreases slots.len(),
{
    if slots.len() == 0 {
        seq![]
    } else {
        let rest = present_events(slots.drop_first());
        match slots[0] {
            Some(e) => seq![e] + rest,
            None => rest,
        }
    }
}

/// Whether `events` is a sequence of state changes that a button in state `down` can go through:
/// each event leaves the state the button is in.
pub open spec fn is_transition_sequence(down: bool, events: Seq<ButtonEvent>) -> bool
    decreases events.len(),
{
    if events.len() == 0 {
        true
    } else {
        &&& events[0] == (if down {
            ButtonEvent::Release
        } else {
            ButtonEvent::Push
        })
        &&& is_transition_sequence(!down, events.drop_first())
    }
}

/// The state a button in state `down` is in after `events`.
pub open spec fn state_after(down: bool, events: Seq<ButtonEvent>) -> bool
    decreases events.len(),
{
    if events.len() == 0 {
        down
    } else {
        state_after(
            match events[0] {
                ButtonEvent::Push => true,
                ButtonEvent::Release => false,
            },
            events.drop_first(),
        )
    }
}

/// Infer a sequence of events for a button between 2 frames by combining the button's last pushed
/// state, current pushed state, and whether a push and/or release happened in between frames.
///
/// `frames[0]` is the current frame and `frames[1]` the last one.
pub fn compute_events(frames: &[ButtonsSet; 2], button: u32) -> (r: [Option<ButtonEvent>; 3])
    ensures
        present_events(r@) == button_events_spec(*frames, button),
        forall|i: int, j: int| 0 <= i < j < 3 && r@[i] is None ==> r@[j] is None,
{
    let r = if frames[1].current & button == button {
        if frames[0].current & button != button {
            if frames[0].pushed & button == button {
                [Some(ButtonEvent::Release), Some(ButtonEvent::Push), Some(ButtonEvent::Release)]
            } else {
                [Some(ButtonEvent::Release), None, None]
            }
        } else {
            if frames[0].pushed & button == button {
                [Some(ButtonEvent::Release), Some(ButtonEvent::Push), None]
            } else {
                [None, None, None]
            }
        }
    } else {
        if frames[0].current & button == button {
            if frames[0].released & button == button {
                [Some(ButtonEvent::Push), Some(ButtonEvent::Release), Some(ButtonEvent::Push)]
            } else {
                [Some(ButtonEvent::Push), None, None]
            }
        } else {
            if frames[0].released & button == button {
                [Some(ButtonEvent::Push), Some(ButtonEvent::Release), None]
            } else {
                [None, None, None]
            }
        }
    };
    proof {
        reveal_with_fuel(present_events, 4);
        assert(r@.drop_first().drop_first().drop_first() =~= Seq::<Option<ButtonEvent>>::empty());
    }
    r
}

/// The events of a button depend only on the button's bit in four masks: whether it was held in
/// the last frame, and whether it is held, was pushed and was released in the current frame. What
/// the last frame reported as pushed or released plays no part, and a button held in both frames
/// with no push reported in between has no events.
pub proof fn lemma_events_depend_on_own_bits(f: [ButtonsSet; 2], g: [ButtonsSet; 2], button: u32)
    requires
        f[1].current & button == g[1].current & button,
        f[0].current & button == g[0].current & button,
        f[0].pushed & button == g[0].pushed & button,
        f[0].released & button == g[0].released & button,
    ensures
        button_events_spec(f, button) == button_events_spec(g, button),
        mask_has(f[1].current, button) && mask_has(f[0].current, button) && !mask_has(
            f[0].pushed,
            button,
        ) ==> button_events_spec(f, button).len() == 0,
        !mask_has(f[1].current, button) && !mask_has(f[0].current, button) && !mask_has(
            f[0].released,
            button,
        ) ==> button_events_spec(f, button).len() == 0,
        mask_has(f[1].current, button) != mask_has(f[0].current, button) ==> button_events_spec(
            f,
            button,
        ).len() >= 1,
{
}

/// The events inferred for a button between two frames are a sequence of state changes that a
/// button in its last-frame state can go through, and they leave it in its current-frame state.
pub proof fn lemma_events_lead_to_current_state(
    was_down: bool,
    is_down: bool,
    pushed: bool,
    released: bool,
)
    ensures
        is_transition_sequence(was_down, events_between(was_down, is_down, pushed, released)),
        state_after(was_down, events_between(was_down, is_down, pushed, released)) == is_down,
{
    reveal_with_fuel(is_transition_sequence, 4);
    reveal_with_fuel(state_after, 4);
    let e = events_between(was_down, is_down, pushed, released);
    assert(e.len() <= 3);
    if e.len() >= 1 {
        if e.len() >= 2 {
            if e.len() >= 3 {
                assert(e.drop_first().drop_first().drop_first() =~= Seq::<ButtonEvent>::empty());
            } else {
                assert(e.drop_first().drop_first() =~= Seq::<ButtonEvent>::empty());
            }
        } else {
            assert(e.drop_first() =~= Seq::<ButtonEvent>::empty());
        }
    }
}

/// The device mask bit of each button.
pub open spec fn button_mask(button: Button) -> u32 {
    match button {
        Button::Up => BUTTON_UP,
        Button::Down => BUTTON_DOWN,
        Button::Left => BUTTON_LEFT,
        Button::Right => BUTTON_RIGHT,
        Button::B => BUTTON_B,
        Button::A => BUTTON_A,
    }
}

/// The state of the buttons of `mask` in the device mask `current`: pushed when any of them is
/// held down.
pub open spec fn button_state_spec(current: u32, mask: u32) -> ButtonState {
    if current & mask != 0 {
        ButtonState::Pushed
    } else {
        ButtonState::Released
    }
}

/// The events of `button`, each paired with the button.
pub open spec fn tagged_events(button: Button, events: Seq<ButtonEvent>) -> Seq<(Button, ButtonEvent)> {
    events.map_values(|e: ButtonEvent| (button, e))
}

/// The events of `button` among `tagged`, in order.
pub open spec fn events_of(tagged: Seq<(Button, ButtonEvent)>, button: Button) -> Seq<ButtonEvent>
    decreases tagged.len(),
{
    if tagged.len() == 0 {
        Seq::empty()
    } else if tagged.last().0 == button {
        events_of(tagged.drop_last(), button).push(tagged.last().1)
    } else {
        events_of(tagged.drop_last(), button)
    }
}

proof fn lemma_events_of_concat(a: Seq<(Button, ButtonEvent)>, b: Seq<(Button, ButtonEvent)>, button: Button)
    ensures
        events_of(a + b, button) == events_of(a, button) + events_of(b, button),
    decreases b.len(),
{
    if b.len() == 0 {
        assert(a + b =~= a);
        assert(events_of(a, button) + events_of(b, button) =~= events_of(a, button));
    } else {
        lemma_events_of_concat(a, b.drop_last(), button);
        assert((a + b).drop_last() =~= a + b.drop_last());
        assert((a + b).last() == b.last());
        if b.last().0 == button {
            assert(events_of(a, button) + events_of(b.drop_last(), button).push(b.last().1) =~= (
            events_of(a, button) + events_of(b.drop_last(), button)).push(b.last().1));
        }
    }
}

proof fn lemma_events_of_tagged(tagged_as: Button, events: Seq<ButtonEvent>, button: Button)
    ensures
        events_of(tagged_events(tagged_as, events), button) == if tagged_as == button {
            events
        } else {
            Seq::<ButtonEvent>::empty()
        },
    decreases events.len(),
{
    let t = tagged_events(tagged_as, events);
    if events.len() > 0 {
        lemma_events_of_tagged(tagged_as, events.drop_last(), button);
        assert(t.drop_last() =~= tagged_events(tagged_as, events.drop_last()));
        if tagged_as == button {
            assert(events.drop_last().push(events.last()) =~= events);
        }
    }
}

/// The state of and events that occured since the last frame for all buttons.
#[derive(Debug)]
pub struct Buttons {
    current: u32,
    up_events: [Option<ButtonEvent>; 3],
    down_events: [Option<ButtonEvent>; 3],
    left_events: [Option<ButtonEvent>; 3],
    right_events: [Option<ButtonEvent>; 3],
    b_events: [Option<ButtonEvent>; 3],
    a_events: [Option<ButtonEvent>; 3],
}

/// Copies the present events out of a slot array, in order.
fn present_events_of(slots: &[Option<ButtonEvent>; 3]) -> (r: Vec<ButtonEvent>)
    ensures
        r@ == present_events(slots@),
{
    proof {
        reveal_with_fuel(present_events, 4);
        assert(slots@.drop_first().drop_first().drop_first() =~= Seq::<Option<ButtonEvent>>::empty());
    }
    let mut r: Vec<ButtonEvent> = Vec::new();
    if let Some(e) = slots[0] {
        r.push(e);
    }
    if let Some(e) = slots[1] {
        r.push(e);
    }
    if let Some(e) = slots[2] {
        r.push(e);
    }
    proof {
        assert(r@ =~= present_events(slots@));
    }
    r
}

impl Buttons {
    /// The device mask of the buttons held down in the current frame.
    pub closed spec fn current_mask(&self) -> u32 {
        self.current
    }

    /// The events of `button` since the last frame, in order.
    pub closed spec fn events_spec(&self, button: Button) -> Seq<ButtonEvent> {
        present_events(
            match button {
                Button::Up => self.up_events@,
                Button::Down => self.down_events@,
                Button::Left => self.left_events@,
                Button::Right => self.right_events@,
                Button::B => self.b_events@,
                Button::A => self.a_events@,
            },
        )
    }

    /// The events of every button, each paired with its button: those of `Up`, then `Down`,
    /// `Left`, `Right`, `B` and `A`.
    pub open spec fn all_events_spec(&self) -> Seq<(Button, ButtonEvent)> {
        tagged_events(Button::Up, self.events_spec(Button::Up)) + tagged_events(
            Button::Down,
            self.events_spec(Button::Down),
        ) + tagged_events(Button::Left, self.events_spec(Button::Left)) + tagged_events(
            Button::Right,
            self.events_spec(Button::Right),
        ) + tagged_events(Button::B, self.events_spec(Button::B)) + tagged_events(
            Button::A,
            self.events_spec(Button::A),
        )
    }

    /// Builds the button states and events from the device masks of the current frame
    /// (`button_state_per_frame[0]`) and of the last frame (`button_state_per_frame[1]`).
    pub fn new(button_state_per_frame: &[ButtonsSet; 2]) -> (r: Self)
        ensures
            r.current_mask() == button_state_per_frame[0].current,
            forall|b: Button| #[trigger]
                r.events_spec(b) == button_events_spec(*button_state_per_frame, button_mask(b)),
            r.events_spec(Button::Up) == button_events_spec(*button_state_per_frame, BUTTON_UP),
            r.events_spec(Button::Down) == button_events_spec(*button_state_per_frame, BUTTON_DOWN),
            r.events_spec(Button::Left) == button_events_spec(*button_state_per_frame, BUTTON_LEFT),
            r.events_spec(Button::Right) == button_events_spec(
                *button_state_per_frame,
                BUTTON_RIGHT,
            ),
            r.events_spec(Button::B) == button_events_spec(*button_state_per_frame, BUTTON_B),
            r.events_spec(Button::A) == button_events_spec(*button_state_per_frame, BUTTON_A),
    {
        let r = Buttons {
            current: button_state_per_frame[0].current,
            up_events: compute_events(button_state_per_frame, BUTTON_UP),
            down_events: compute_events(button_state_per_frame, BUTTON_DOWN),
            left_events: compute_events(button_state_per_frame, BUTTON_LEFT),
            right_events: compute_events(button_state_per_frame, BUTTON_RIGHT),
            b_events: compute_events(button_state_per_frame, BUTTON_B),
            a_events: compute_events(button_state_per_frame, BUTTON_A),
        };
        proof {
            assert forall|b: Button|
                #[trigger] r.events_spec(b) == button_events_spec(
                    *button_state_per_frame,
                    button_mask(b),
                ) by {
                match b {
                    Button::Up => {},
                    Button::Down => {},
                    Button::Left => {},
                    Button::Right => {},
                    Button::B => {},
                    Button::A => {},
                }
            }
        }
        r
    }

    /// Helper function to convert the device bitmask to the ButtonState enum for a single button.
    fn current_state(&self, button: u32) -> (r: ButtonState)
        ensures
            r == button_state_spec(self.current_mask(), button),
    {
        if self.current & button != 0 {
            ButtonState::Pushed
        } else {
            ButtonState::Released
        }
    }

    /// Returns all button events that occured since the last frame.
    ///
    /// This reports any buttons which were pressed or released. The device does not report the
    /// order in which buttons were interacted with, so the order of events across buttons is
    /// arbitrary. Events for a single button are in an accurate order.
    pub fn all_events(&self) -> (r: Vec<(Button, ButtonEvent)>)
        ensures
            r@ == self.all_events_spec(),
    {
        let mut r: Vec<(Button, ButtonEvent)> = Vec::new();
        append_tagged(&mut r, Button::Up, &self.up_events());
        append_tagged(&mut r, Button::Down, &self.down_events());
        append_tagged(&mut r, Button::Left, &self.left_events());
        append_tagged(&mut r, Button::Right, &self.right_events());
        append_tagged(&mut r, Button::B, &self.b_events());
        append_tagged(&mut r, Button::A, &self.a_events());
        r
    }

    /// Returns all button events, on the `Up` button, that occred since the last frame.
    pub fn up_events(&self) -> (r: Vec<ButtonEvent>)
        ensures
            r@ == self.events_spec(Button::Up),
    {
        present_events_of(&self.up_events)
    }

    /// Returns all button events, on the `Down` button, that occred since the last frame.
    pub fn down_events(&self) -> (r: Vec<ButtonEvent>)
        ensures
            r@ == self.events_spec(Button::Down),
    {
        present_events_of(&self.down_events)
    }

    /// Returns all button events, on the `Left` button, that occred since the last frame.
    pub fn left_events(&self) -> (r: Vec<ButtonEvent>)
        ensures
            r@ == self.events_spec(Button::Left),
    {
        present_events_of(&self.left_events)
    }

    /// Returns all button events, on the `Right` button, that occred since the last frame.
    pub fn right_events(&self) -> (r: Vec<ButtonEvent>)
        ensures
            r@ == self.events_spec(Button::Right),
    {
        present_events_of(&self.right_events)
    }

    /// Returns all button events, on the `B` button, that occred since the last frame.
    pub fn b_events(&self) -> (r: Vec<ButtonEvent>)
        ensures
            r@ == self.events_spec(Button::B),
    {
        present_events_of(&self.b_events)
    }

    /// Returns all button events, on the `A` button, that occred since the last frame.
    pub fn a_events(&self) -> (r: Vec<ButtonEvent>)
        ensures
            r@ == self.events_spec(Button::A),
    {
        present_events_of(&self.a_events)
    }

    /// Returns the current state of the `Up` button.
    ///
    /// Prefer to use the events functions to track button press and release, as this function
    /// would miss push+release sequences that are faster than a single frame.
    pub fn up_state(&self) -> (r: ButtonState)
        ensures
            r == button_state_spec(self.current_mask(), BUTTON_UP),
    {
        self.current_state(BUTTON_UP)
    }

    /// Returns the current state of the `Down` button.
    ///
    /// Prefer to use the events functions to track button press and release, as this function
    /// would miss push+release sequences that are faster than a single frame.
    pub fn down_state(&self) -> (r: ButtonState)
        ensures
            r == button_state_spec(self.current_mask(), BUTTON_DOWN),
    {
        self.current_state(BUTTON_DOWN)
    }

    /// Returns the current state of the `Left` button.
    ///
    /// Prefer to use the events functions to track button press and release, as this function
    /// would miss push+release sequences that are faster than a single frame.
    pub fn left_state(&self) -> (r: ButtonState)
        ensures
            r == button_state_spec(self.current_mask(), BUTTON_LEFT),
    {
        self.current_state(BUTTON_LEFT)
    }

    /// Returns the current state of the `Right` button.
    ///
    /// Prefer to use the events functions to track button press and release, as this function
    /// would miss push+release sequences that are faster than a single frame.
    pub fn right_state(&self) -> (r: ButtonState)
        ensures
            r == button_state_spec(self.current_mask(), BUTTON_RIGHT),
    {
        self.current_state(BUTTON_RIGHT)
    }

    /// Returns the current state of the `B` button.
    ///
    /// Prefer to use the events functions to track button press and release, as this function
    /// would miss push+release sequences that are faster than a single frame.
    pub fn b_state(&self) -> (r: ButtonState)
        ensures
            r == button_state_spec(self.current_mask(), BUTTON_B),
    {
        self.current_state(BUTTON_B)
    }

    /// Returns the current state of the `A` button.
    ///
    /// Prefer to use the events functions to track button press and release, as this function
    /// would miss push+release sequences that are faster than a single frame.
    pub fn a_state(&self) -> (r: ButtonState)
        ensures
            r == button_state_spec(self.current_mask(), BUTTON_A),
    {
        self.current_state(BUTTON_A)
    }
}

/// The state reported for a button in the current frame is the state that its inferred events lead
/// to from its state in the last frame, and those events are a sequence of state changes.
pub proof fn lemma_state_matches_events(frames: [ButtonsSet; 2], button: Button)
    ensures
        is_transition_sequence(
            mask_has(frames[1].current, button_mask(button)),
            button_events_spec(frames, button_mask(button)),
        ),
        (button_state_spec(frames[0].current, button_mask(button)) == ButtonState::Pushed)
            == state_after(
            mask_has(frames[1].current, button_mask(button)),
            button_events_spec(frames, button_mask(button)),
        ),
{
    let m = button_mask(button);
    let c = frames[0].current;
    assert((c & m != 0) == (c & m == m)) by (bit_vector)
        requires
            m == 1u32 || m == 2u32 || m == 4u32 || m == 8u32 || m == 16u32 || m == 32u32,
    ;
    lemma_events_lead_to_current_state(
        mask_has(frames[1].current, m),
        mask_has(frames[0].current, m),
        mask_has(frames[0].pushed, m),
        mask_has(frames[0].released, m),
    );
}

/// Taking the events of one button out of `all_events()` gives, in order, exactly that button's
/// own events, and `all_events()` holds as many events as all buttons have together.
pub proof fn lemma_all_events_per_button(buttons: Buttons, button: Button)
    ensures
        events_of(buttons.all_events_spec(), button) == buttons.events_spec(button),
        buttons.all_events_spec().len() == buttons.events_spec(Button::Up).len()
            + buttons.events_spec(Button::Down).len() + buttons.events_spec(Button::Left).len()
            + buttons.events_spec(Button::Right).len() + buttons.events_spec(Button::B).len()
            + buttons.events_spec(Button::A).len(),
{
    let up = tagged_events(Button::Up, buttons.events_spec(Button::Up));
    let down = tagged_events(Button::Down, buttons.events_spec(Button::Down));
    let left = tagged_events(Button::Left, buttons.events_spec(Button::Left));
    let right = tagged_events(Button::Right, buttons.events_spec(Button::Right));
    let b = tagged_events(Button::B, buttons.events_spec(Button::B));
    let a = tagged_events(Button::A, buttons.events_spec(Button::A));
    lemma_events_of_concat(up, down, button);
    lemma_events_of_concat(up + down, left, button);
    lemma_events_of_concat(up + down + left, right, button);
    lemma_events_of_concat(up + down + left + right, b, button);
    lemma_events_of_concat(up + down + left + right + b, a, button);
    lemma_events_of_tagged(Button::Up, buttons.events_spec(Button::Up), button);
    lemma_events_of_tagged(Button::Down, buttons.events_spec(Button::Down), button);
    lemma_events_of_tagged(Button::Left, buttons.events_spec(Button::Left), button);
    lemma_events_of_tagged(Button::Right, buttons.events_spec(Button::Right), button);
    lemma_events_of_tagged(Button::B, buttons.events_spec(Button::B), button);
    lemma_events_of_tagged(Button::A, buttons.events_spec(Button::A), button);
    let e = Seq::<ButtonEvent>::empty();
    let mine = buttons.events_spec(button);
    match button {
        Button::Up => { assert(mine + e + e + e + e + e =~= mine); },
        Button::Down => { assert(e + mine + e + e + e + e =~= mine); },
        Button::Left => { assert(e + e + mine + e + e + e =~= mine); },
        Button::Right => { assert(e + e + e + mine + e + e =~= mine); },
        Button::B => { assert(e + e + e + e + mine + e =~= mine); },
        Button::A => { assert(e + e + e + e + e + mine =~= mine); },
    }
}

/// Each button is read from its own bit of the device masks, fixed by the device: left 1, right 2,
/// up 4, down 8, B 16 and A 32. The events reported for a button are the ones inferred from that
/// bit, the same bit its state getter reads, so the reported state of each button is the state
/// its reported events lead to from its last-frame state.
pub proof fn lemma_each_button_reads_its_own_bit(buttons: Buttons, frames: [ButtonsSet; 2])
    requires
        buttons.current_mask() == frames[0].current,
        forall|b: Button| #[trigger]
            buttons.events_spec(b) == button_events_spec(frames, button_mask(b)),
    ensures
        BUTTON_LEFT == 1 && BUTTON_RIGHT == 2 && BUTTON_UP == 4 && BUTTON_DOWN == 8 && BUTTON_B
            == 16 && BUTTON_A == 32,
        buttons.events_spec(Button::Up) == button_events_spec(frames, BUTTON_UP),
        buttons.events_spec(Button::Down) == button_events_spec(frames, BUTTON_DOWN),
        buttons.events_spec(Button::Left) == button_events_spec(frames, BUTTON_LEFT),
        buttons.events_spec(Button::Right) == button_events_spec(frames, BUTTON_RIGHT),
        buttons.events_spec(Button::B) == button_events_spec(frames, BUTTON_B),
        buttons.events_spec(Button::A) == button_events_spec(frames, BUTTON_A),
        (button_state_spec(buttons.current_mask(), BUTTON_UP) == ButtonState::Pushed) == state_after(
            mask_has(frames[1].current, BUTTON_UP),
            buttons.events_spec(Button::Up),
        ),
        (button_state_spec(buttons.current_mask(), BUTTON_DOWN) == ButtonState::Pushed)
            == state_after(mask_has(frames[1].current, BUTTON_DOWN), buttons.events_spec(Button::Down)),
        (button_state_spec(buttons.current_mask(), BUTTON_LEFT) == ButtonState::Pushed)
            == state_after(mask_has(frames[1].current, BUTTON_LEFT), buttons.events_spec(Button::Left)),
        (button_state_spec(buttons.current_mask(), BUTTON_RIGHT) == ButtonState::Pushed)
            == state_after(
            mask_has(frames[1].current, BUTTON_RIGHT),
            buttons.events_spec(Button::Right),
        ),
        (button_state_spec(buttons.current_mask(), BUTTON_B) == ButtonState::Pushed) == state_after(
            mask_has(frames[1].current, BUTTON_B),
            buttons.events_spec(Button::B),
        ),
        (button_state_spec(buttons.current_mask(), BUTTON_A) == ButtonState::Pushed) == state_after(
            mask_has(frames[1].current, BUTTON_A),
            buttons.events_spec(Button::A),
        ),
{
    assert(buttons.events_spec(Button::Up) == button_events_spec(frames, button_mask(Button::Up)));
    assert(buttons.events_spec(Button::Down) == button_events_spec(frames, button_mask(Button::Down)));
    assert(buttons.events_spec(Button::Left) == button_events_spec(frames, button_mask(Button::Left)));
    assert(buttons.events_spec(Button::Right) == button_events_spec(frames, button_mask(Button::Right)));
    assert(buttons.events_spec(Button::B) == button_events_spec(frames, button_mask(Button::B)));
    assert(buttons.events_spec(Button::A) == button_events_spec(frames, button_mask(Button::A)));
    lemma_state_matches_events(frames, Button::Up);
    lemma_state_matches_events(frames, Button::Down);
    lemma_state_matches_events(frames, Button::Left);
    lemma_state_matches_events(frames, Button::Right);
    lemma_state_matches_events(frames, Button::B);
    lemma_state_matches_events(frames, Button::A);
}

/// The device button masks of the current and the last frame, kept so that button events between
/// frames can be inferred.
#[derive(Debug, Copy, Clone)]
pub struct FrameButtonStates {
    frames: [Option<ButtonsSet>; 2],
}

impl FrameButtonStates {
    /// The recorded masks: the current frame's first, then the last frame's.
    pub closed spec fn frames_spec(&self) -> Seq<Option<ButtonsSet>> {
        self.frames@
    }

    /// No frame recorded yet.
    pub fn new() -> (r: Self)
        ensures
            r.frames_spec() == seq![None::<ButtonsSet>, None::<ButtonsSet>],
    {
        FrameButtonStates { frames: [None, None] }
    }

    /// Stores the current frame's button states, and moves the previous frame's states into the
    /// last-frame position. On the first frame, the current states are also used for the last
    /// frame.
    pub fn set_current_frame_button_state(&mut self, buttons_set: ButtonsSet)
        ensures
            final(self).frames_spec() == seq![
                Some(buttons_set),
                match old(self).frames_spec()[0] {
                    Some(last) => Some(last),
                    None => Some(buttons_set),
                },
            ],
    {
        let mut buttons = self.frames;
        if buttons[0].is_none() {
            buttons = [Some(buttons_set), buttons[1]];
        }
        buttons = [Some(buttons_set), buttons[0]];
        self.frames = buttons;
    }

    /// The masks of the current and the last frame, once a frame has been recorded.
    pub fn current_and_last(&self) -> (r: Option<[ButtonsSet; 2]>)
        ensures
            match r {
                Some(pair) => self.frames_spec()[0] == Some(pair[0]) && self.frames_spec()[1]
                    == Some(pair[1]),
                None => self.frames_spec()[0] is None || self.frames_spec()[1] is None,
            },
    {
        match (self.frames[0], self.frames[1]) {
            (Some(current), Some(last)) => Some([current, last]),
            _ => None,
        }
    }
}

/// Once a frame has been recorded, the masks of both the current and the last frame are known,
/// and the current one is the one recorded last.
pub proof fn lemma_recorded_frames_are_known(
    before: FrameButtonStates,
    after: FrameButtonStates,
    set: ButtonsSet,
)
    requires
        before.frames_spec().len() == 2,
        after.frames_spec() == seq![
            Some(set),
            match before.frames_spec()[0] {
                Some(last) => Some(last),
                None => Some(set),
            },
        ],
    ensures
        after.frames_spec()[0] == Some(set),
        after.frames_spec()[1] is Some,
{
}

/// Appends each of `events`, paired with `button`, to `out`.
fn append_tagged(out: &mut Vec<(Button, ButtonEvent)>, button: Button, events: &Vec<ButtonEvent>)
    ensures
        final(out)@ == old(out)@ + tagged_events(button, events@),
{
    let ghost start = out@;
    let mut i: usize = 0;
    while i < events.len()
        invariant
            i <= events.len(),
            out@ == start + tagged_events(button, events@.subrange(0, i as int)),
        decreases events.len() - i,
    {
        out.push((button, events[i]));
        i = i + 1;
        proof {
            assert(tagged_events(button, events@.subrange(0, i as int)) =~= tagged_events(
                button,
                events@.subrange(0, i - 1),
            ).push((button, events@[i - 1])));
        }
    }
    proof {
        assert(events@.subrange(0, i as int) =~= events@);
    }
}

} // verus!
