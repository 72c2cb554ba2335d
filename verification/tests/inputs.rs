use playdate::inputs::{
    accelerometer_is_enabled, compute_events, Button, ButtonEvent, ButtonState, Buttons,
    ButtonsSet, FrameButtonStates, BUTTON_A, BUTTON_B, BUTTON_DOWN, BUTTON_LEFT, BUTTON_RIGHT,
    BUTTON_UP,
};
use ButtonEvent::{Push, Release};

fn set(current: u32, pushed: u32, released: u32) -> ButtonsSet {
    ButtonsSet { current, pushed, released }
}

fn events(last_current: u32, now: ButtonsSet, button: u32) -> [Option<ButtonEvent>; 3] {
    compute_events(&[now, set(last_current, 0, 0)], button)
}

#[test]
fn events_from_pushed() {
    let b = BUTTON_UP;
    assert_eq!(events(b, set(0, b, b), b), [Some(Release), Some(Push), Some(Release)]);
    assert_eq!(events(b, set(0, 0, b), b), [Some(Release), None, None]);
    assert_eq!(events(b, set(b, b, b), b), [Some(Release), Some(Push), None]);
    assert_eq!(events(b, set(b, 0, 0), b), [None, None, None]);
}

#[test]
fn events_from_released() {
    let b = BUTTON_A;
    assert_eq!(events(0, set(b, b, b), b), [Some(Push), Some(Release), Some(Push)]);
    assert_eq!(events(0, set(b, b, 0), b), [Some(Push), None, None]);
    assert_eq!(events(0, set(0, b, b), b), [Some(Push), Some(Release), None]);
    assert_eq!(events(0, set(0, 0, 0), b), [None, None, None]);
}

#[test]
fn events_ignore_other_buttons() {
    assert_eq!(events(BUTTON_B, set(BUTTON_LEFT, BUTTON_LEFT, BUTTON_B), BUTTON_DOWN), [None, None, None]);
}

/// Applying the reported events to the last frame's state gives the current state.
#[test]
fn events_lead_to_current_state() {
    let b = BUTTON_RIGHT;
    for last in [0, b] {
        for current in [0, b] {
            for pushed in [0, b] {
                for released in [0, b] {
                    let frames = [set(current, pushed, released), set(last, 0, 0)];
                    let buttons = Buttons::new(&frames);
                    let mut down = last != 0;
                    for e in buttons.right_events() {
                        match e {
                            Push => assert!(!down),
                            Release => assert!(down),
                        }
                        down = e == Push;
                    }
                    assert_eq!(down, buttons.right_state() == ButtonState::Pushed);
                }
            }
        }
    }
}

#[test]
fn buttons_states_and_events() {
    let frames = [
        set(BUTTON_A | BUTTON_UP, BUTTON_A | BUTTON_B, BUTTON_B | BUTTON_LEFT),
        set(BUTTON_UP | BUTTON_LEFT, 0, 0),
    ];
    let buttons = Buttons::new(&frames);
    assert_eq!(buttons.a_state(), ButtonState::Pushed);
    assert_eq!(buttons.up_state(), ButtonState::Pushed);
    assert_eq!(buttons.b_state(), ButtonState::Released);
    assert_eq!(buttons.left_state(), ButtonState::Released);
    assert_eq!(buttons.right_state(), ButtonState::Released);
    assert_eq!(buttons.down_state(), ButtonState::Released);
    assert_eq!(buttons.a_events(), vec![Push]);
    assert_eq!(buttons.b_events(), vec![Push, Release]);
    assert_eq!(buttons.left_events(), vec![Release]);
    assert_eq!(buttons.up_events(), Vec::<ButtonEvent>::new());
    assert_eq!(buttons.down_events(), Vec::<ButtonEvent>::new());
    assert_eq!(buttons.right_events(), Vec::<ButtonEvent>::new());
    assert_eq!(
        buttons.all_events(),
        vec![
            (Button::Left, Release),
            (Button::B, Push),
            (Button::B, Release),
            (Button::A, Push),
        ]
    );
}

#[test]
fn frame_history_duplicates_first_frame() {
    let mut history = FrameButtonStates::new();
    assert!(history.current_and_last().is_none());
    let first = set(BUTTON_A, BUTTON_A, 0);
    history.set_current_frame_button_state(first);
    assert_eq!(history.current_and_last(), Some([first, first]));
    let second = set(0, 0, BUTTON_A);
    history.set_current_frame_button_state(second);
    assert_eq!(history.current_and_last(), Some([second, first]));
    let third = set(BUTTON_B, BUTTON_B, 0);
    history.set_current_frame_button_state(third);
    assert_eq!(history.current_and_last(), Some([third, second]));
}

#[test]
fn accelerometer_enabled_bit() {
    assert!(accelerometer_is_enabled(1));
    assert!(accelerometer_is_enabled(3));
    assert!(!accelerometer_is_enabled(0));
    assert!(!accelerometer_is_enabled(2));
}

/// Picking one button's events out of all the events gives that button's own events, in order.
#[test]
fn all_events_split_by_button() {
    let last = set(BUTTON_UP | BUTTON_B, 0, 0);
    let now = set(
        BUTTON_A | BUTTON_B | BUTTON_LEFT,
        BUTTON_A | BUTTON_LEFT | BUTTON_B,
        BUTTON_UP | BUTTON_B | BUTTON_LEFT,
    );
    let buttons = Buttons::new(&[now, last]);
    let all = buttons.all_events();
    let of = |b: Button| -> Vec<ButtonEvent> {
        all.iter().filter(|p| p.0 == b).map(|p| p.1).collect()
    };
    assert_eq!(of(Button::Up), buttons.up_events());
    assert_eq!(of(Button::Down), buttons.down_events());
    assert_eq!(of(Button::Left), buttons.left_events());
    assert_eq!(of(Button::Right), buttons.right_events());
    assert_eq!(of(Button::B), buttons.b_events());
    assert_eq!(of(Button::A), buttons.a_events());
    assert_eq!(of(Button::B), vec![Release, Push]);
    let count = buttons.up_events().len()
        + buttons.down_events().len()
        + buttons.left_events().len()
        + buttons.right_events().len()
        + buttons.b_events().len()
        + buttons.a_events().len();
    assert_eq!(all.len(), count);
}
