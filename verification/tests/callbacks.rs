use playdate::callback_builder::{
    AllowNull, CallbackBuilder, CallbackBuilderWithArg, Constructed, NoNull, WithCallacks,
};
use playdate::callbacks::{
    CallbackArguments, CallbackKey, Callbacks, FoundCallback, HeadphoneState,
};

type Cbs = Callbacks<&'static str, &'static str>;

fn keyed(c: &Cbs, args: CallbackArguments) -> Option<&'static str> {
    match c.find(&args) {
        Some(FoundCallback::Keyed(f)) => Some(*f),
        Some(FoundCallback::Headphone(..)) => panic!("not a keyed callback"),
        None => None,
    }
}

#[test]
fn registered_callbacks_are_found() {
    let mut c: Cbs = Callbacks::new();
    let r1 = c.add_sound_source_completion(10, "sound");
    let r2 = c.add_menu_item(10, "menu");
    assert_eq!(r1.key(), CallbackKey::SoundSourceCompletion(10));
    assert_eq!(r2.key(), CallbackKey::MenuItem(10));
    assert_eq!(keyed(&c, CallbackArguments::SoundSourceCompletion(10)), Some("sound"));
    assert_eq!(keyed(&c, CallbackArguments::MenuItem(10)), Some("menu"));
    assert_eq!(keyed(&c, CallbackArguments::MenuItem(11)), None);
    assert_eq!(keyed(&c, CallbackArguments::NoCallback), None);
}

#[test]
fn sequence_finished_closure_is_found_when_its_sequence_finishes() {
    let mut c: Cbs = Callbacks::new();
    let r = c.add_sequence_finished(4, "seq");
    assert_eq!(r.key(), CallbackKey::SequenceFinished(4));
    assert_eq!(keyed(&c, CallbackArguments::SequenceFinished(4)), Some("seq"));
    assert_eq!(keyed(&c, CallbackArguments::SoundSourceCompletion(4)), None);
    // A sound source under the same key has a closure of its own.
    let _ = c.add_sound_source_completion(4, "src");
    assert_eq!(keyed(&c, CallbackArguments::SoundSourceCompletion(4)), Some("src"));
    assert_eq!(keyed(&c, CallbackArguments::SequenceFinished(4)), Some("seq"));
}

#[test]
fn headphone_callback_gets_state() {
    let mut c: Cbs = Callbacks::new();
    assert!(c.find(&CallbackArguments::HeadphoneChanged(HeadphoneState::new(true, false))).is_none());
    let r = c.add_headphone_change("hp");
    assert_eq!(r.key(), CallbackKey::HeadphoneChanged);
    match c.find(&CallbackArguments::HeadphoneChanged(HeadphoneState::new(true, false))) {
        Some(FoundCallback::Headphone(h, s)) => {
            assert_eq!(*h, "hp");
            assert!(s.headphones);
            assert!(!s.microphone);
        }
        _ => panic!("headphone callback not found"),
    }
}

#[test]
fn removed_callbacks_are_collected() {
    let mut c: Cbs = Callbacks::new();
    let a = c.add_sound_source_completion(1, "a");
    let b = c.add_menu_item(2, "b");
    let h = c.add_headphone_change("h");
    c.gc(&vec![a.key(), h.key()]);
    assert_eq!(keyed(&c, CallbackArguments::SoundSourceCompletion(1)), None);
    assert_eq!(keyed(&c, CallbackArguments::MenuItem(2)), Some("b"));
    assert!(c.find(&CallbackArguments::HeadphoneChanged(HeadphoneState::new(false, false))).is_none());
    c.gc(&vec![b.key()]);
    assert_eq!(keyed(&c, CallbackArguments::MenuItem(2)), None);
    // A closure can be registered again under a collected key.
    c.add_sound_source_completion(1, "again");
    assert_eq!(keyed(&c, CallbackArguments::SoundSourceCompletion(1)), Some("again"));
}

#[test]
fn callback_arguments_is_none() {
    assert!(CallbackArguments::NoCallback.is_none());
    assert!(!CallbackArguments::MenuItem(0).is_none());
}

#[test]
fn builder_connects_closure_and_callbacks() {
    let mut c: Cbs = Callbacks::new();
    let b: CallbackBuilder<'_, Cbs, &'static str, NoNull, WithCallacks> =
        CallbackBuilder::with(&mut c);
    let built = b.call("cb");
    let (callbacks, f) = built.into_inner().unwrap();
    assert_eq!(f, "cb");
    callbacks.add_menu_item(1, f);
    assert_eq!(keyed(&c, CallbackArguments::MenuItem(1)), Some("cb"));
}

#[test]
fn null_builder_has_nothing() {
    let none: CallbackBuilder<'_, Cbs, &'static str, AllowNull, Constructed> =
        CallbackBuilder::none();
    assert!(none.into_inner().is_none());
    let none_arg: CallbackBuilderWithArg<'_, u8, Cbs, &'static str, AllowNull, Constructed> =
        CallbackBuilderWithArg::none();
    assert!(none_arg.into_inner().is_none());
}

#[test]
fn builder_with_arg_connects_closure() {
    let mut c: Cbs = Callbacks::new();
    let b: CallbackBuilderWithArg<'_, u8, Cbs, &'static str, AllowNull, WithCallacks> =
        CallbackBuilderWithArg::with(&mut c);
    let (_, f) = b.call("x").into_inner().unwrap();
    assert_eq!(f, "x");
}
