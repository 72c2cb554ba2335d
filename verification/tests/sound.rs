use playdate::callbacks::{CallbackArguments, CallbackKey, Callbacks, FoundCallback};
use playdate::error::Error;
use playdate::sound::{
    sample_data_format_is_accepted, sample_frames_for_millis, sound_format_bytes_per_frame,
    sound_format_is_16_bit, sound_format_is_stereo, FilePlayer, SampleFrames, SamplePlayer, Sound,
    SoundChannel, SoundFormat, SoundSource,
};

#[test]
fn sound_formats() {
    let expected = [
        (0, false, false, 1usize),
        (1, true, false, 2),
        (2, false, true, 2),
        (3, true, true, 4),
        (4, false, true, 2),
        (5, true, true, 4),
    ];
    for (v, stereo, bits16, bytes) in expected {
        let f = SoundFormat(v);
        assert_eq!(sound_format_is_stereo(f), stereo);
        assert_eq!(sound_format_is_16_bit(f), bits16);
        assert_eq!(sound_format_bytes_per_frame(f), bytes);
    }
}

#[test]
fn accepted_sample_formats() {
    for v in 0..5 {
        assert!(sample_data_format_is_accepted(SoundFormat(v)));
    }
    assert!(!sample_data_format_is_accepted(SoundFormat(5)));
    assert!(!sample_data_format_is_accepted(SoundFormat(6)));
}

#[test]
fn millis_to_sample_frames() {
    assert_eq!(sample_frames_for_millis(1000), 44100);
    assert_eq!(sample_frames_for_millis(1), 44);
    assert_eq!(sample_frames_for_millis(0), 0);
    assert_eq!(sample_frames_for_millis(-1), -44);
    assert_eq!(sample_frames_for_millis(250), 11025);
}

#[test]
fn sample_frames() {
    assert_eq!(SampleFrames::from_u32(44100).to_u32(), 44100);
}

#[test]
fn attach_once_and_detach() {
    let mut sound = Sound::new(100);
    let mut other = SoundChannel::new(200);
    let mut source = SoundSource::new(7);
    assert!(sound.default_channel_mut().attach_source(&mut source));
    // Attaching again, to any channel, does nothing.
    assert!(!other.channel_mut().attach_source(&mut source));
    assert!(!sound.default_channel_mut().attach_source(&mut source));
    assert!(matches!(other.channel_mut().detach_source(&mut source), Err(Error::NotFoundError)));
    assert!(sound.default_channel_mut().detach_source(&mut source).is_ok());
    // The source was removed: detaching it again fails, and it can be attached anew.
    assert!(matches!(sound.default_channel_mut().detach_source(&mut source), Err(Error::NotFoundError)));
    assert!(other.channel_mut().attach_source(&mut source));
    assert!(other.channel_mut().detach_source(&mut source).is_ok());
    assert_eq!(sound.default_channel().as_ptr(), 100);
}

#[test]
fn detach_unattached_source_fails() {
    let mut channel = SoundChannel::new(1);
    let mut source = SoundSource::new(2);
    assert!(matches!(channel.channel_mut().detach_source(&mut source), Err(Error::NotFoundError)));
}

#[test]
fn channels_track_being_added() {
    let mut sound = Sound::new(1);
    let mut channel = SoundChannel::new(2);
    assert!(!channel.is_added());
    sound.add_channel(&mut channel);
    assert!(channel.is_added());
    sound.remove_channel(&mut channel);
    assert!(!channel.is_added());
    channel.set_added(true);
    assert!(channel.is_added());
    assert_eq!(channel.channel().as_ptr(), 2);
}

#[test]
fn completion_callbacks_register_by_source_address() {
    let mut callbacks: Callbacks<u32, u32> = Callbacks::new();
    let mut player = FilePlayer::new(55);
    assert_eq!(player.as_ptr(), 55);
    assert_eq!(player.as_source().as_ptr(), 55);
    let replaced = player.as_source_mut().register_completion_callback(&mut callbacks, 1);
    assert!(replaced.is_none());
    match callbacks.find(&CallbackArguments::SoundSourceCompletion(55)) {
        Some(FoundCallback::Keyed(f)) => assert_eq!(*f, 1),
        _ => panic!("completion callback not found"),
    }
    callbacks.gc(&vec![CallbackKey::SoundSourceCompletion(55)]);
    let replaced = player.register_fade_callback(&mut callbacks, 2);
    assert!(replaced.is_none());
    callbacks.gc(&vec![CallbackKey::SoundSourceCompletion(55)]);
    let replaced = player.register_fade_callback(&mut callbacks, 3).unwrap();
    assert_eq!(replaced.key(), CallbackKey::SoundSourceCompletion(55));
}

#[test]
fn sample_player_loop_callback() {
    let mut callbacks: Callbacks<u32, u32> = Callbacks::new();
    let mut player = SamplePlayer::new(80);
    assert_eq!(player.as_source().as_ptr(), 80);
    assert!(player.register_loop_callback(&mut callbacks, 81, 9).is_none());
    match callbacks.find(&CallbackArguments::SoundSourceCompletion(81)) {
        Some(FoundCallback::Keyed(f)) => assert_eq!(*f, 9),
        _ => panic!("loop callback not found"),
    }
    let mut channel = SoundChannel::new(3);
    assert!(channel.channel_mut().attach_source(player.as_source_mut()));
}

#[test]
fn released_source_leaves_its_channel() {
    let mut channel = SoundChannel::new(300);
    let mut source = SoundSource::new(9);
    assert_eq!(source.take_channel(), None);
    assert!(channel.channel_mut().attach_source(&mut source));
    assert_eq!(source.take_channel(), Some(300));
    assert_eq!(source.take_channel(), None);
    assert!(matches!(channel.channel_mut().detach_source(&mut source), Err(Error::NotFoundError)));
    assert_eq!(source.as_ptr(), 9);
}
