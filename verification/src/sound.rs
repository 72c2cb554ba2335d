//! Sound formats, sample frame time, and the bookkeeping of which sound source is attached to
//! which channel and which closures are registered for them.
//!
//! Device objects (channels, sources, players) are identified by the address of their device
//! object; the device calls that act on them are made around these operations.
use vstd::prelude::*;
use crate::callbacks::{Callbacks, CallbackKey, RegisteredCallback, CallbacksView};
use crate::error::Error;

verus! {

/// The number of sample frames the sound engine plays per second.
pub const SAMPLE_FRAMES_PER_SEC: i32 = 44_100;

/// The device's value for 8 bit mono sound.
pub const SOUND_8BIT_MONO: u32 = 0;

/// The device's value for 8 bit stereo sound.
pub const SOUND_8BIT_STEREO: u32 = 1;

/// The device's value for 16 bit mono sound.
pub const SOUND_16BIT_MONO: u32 = 2;

/// The device's value for 16 bit stereo sound.
pub const SOUND_16BIT_STEREO: u32 = 3;

/// The device's value for ADPCM mono sound.
pub const SOUND_ADPCM_MONO: u32 = 4;

/// The device's value for ADPCM stereo sound.
pub const SOUND_ADPCM_STEREO: u32 = 5;

/// The format of sound data, as the device numbers it.
#[derive(Debug, Copy, Clone, PartialEq, Eq, Structural)]
pub struct SoundFormat(pub u32);

/// Returns whether a SoundFormat is stereo. Otherwise, it is mono.
pub fn sound_format_is_stereo(sound_format: SoundFormat) -> (r: bool)
    ensures
        r == (sound_format.0 % 2 == 1),
{
    let v = sound_format.0;
    assert((v & 1 == 1) == (v % 2 == 1)) by (bit_vector);
    v & 1 == 1
}

/// Returns whether a SoundFormat is 16 bit. Otherwise, it is 8 bit.
pub fn sound_format_is_16_bit(sound_format: SoundFormat) -> (r: bool)
    ensures
        r == (sound_format.0 >= SOUND_16BIT_MONO),
{
    sound_format.0 >= SOUND_16BIT_MONO
}

/// Returns the number of bytes per sample frame for the SoundFormat.
pub fn sound_format_bytes_per_frame(sound_format: SoundFormat) -> (r: usize)
    ensures
        r == (if sound_format.0 % 2 == 1 {
            2usize
        } else {
            1usize
        }) * (if sound_format.0 >= SOUND_16BIT_MONO {
            2usize
        } else {
            1usize
        }),
{
    let stereo: usize = if sound_format_is_stereo(sound_format) {
        2
    } else {
        1
    };
    let bytes: usize = if sound_format_is_16_bit(sound_format) {
        2
    } else {
        1
    };
    stereo * bytes
}

/// Whether sample data in `format` can be handed to the device as an audio sample: the 8 and 16
/// bit formats, and ADPCM mono.
pub fn sample_data_format_is_accepted(format: SoundFormat) -> (r: bool)
    ensures
        r == (format.0 == SOUND_8BIT_MONO || format.0 == SOUND_8BIT_STEREO || format.0
            == SOUND_16BIT_MONO || format.0 == SOUND_16BIT_STEREO || format.0 == SOUND_ADPCM_MONO),
{
    format.0 == SOUND_8BIT_MONO || format.0 == SOUND_8BIT_STEREO || format.0 == SOUND_16BIT_MONO
        || format.0 == SOUND_16BIT_STEREO || format.0 == SOUND_ADPCM_MONO
        || format.0 == SOUND_16BIT_STEREO
}

/// The number of sample frames in `millis` milliseconds, truncated toward zero.
pub open spec fn sample_frames_for_millis_spec(millis: int) -> int {
    if millis >= 0 {
        millis * 44100 / 1000
    } else {
        -((-millis) * 44100 / 1000)
    }
}

/// The number of sample frames in `millis` milliseconds, as the sound engine counts time.
pub fn sample_frames_for_millis(millis: i32) -> (r: i32)
    requires
        i32::MIN <= millis * SAMPLE_FRAMES_PER_SEC <= i32::MAX,
    ensures
        r == sample_frames_for_millis_spec(millis as int),
        millis >= 0 ==> r * 1000 <= millis * 44100 < (r + 1) * 1000,
        millis < 0 ==> (r - 1) * 1000 < millis * 44100 <= r * 1000,
{
    proof {
        lemma_frames_for_millis_truncate(millis as int);
    }
    millis * SAMPLE_FRAMES_PER_SEC / 1000
}

/// Milliseconds become sample frames at 44,100 frames per second, truncated toward zero: for a
/// time of zero or more, the frames are the largest whole number whose thousand is at most
/// `millis * 44100`; for a negative time, the smallest whose thousand is at least it.
pub proof fn lemma_frames_for_millis_truncate(millis: int)
    ensures
        millis >= 0 ==> sample_frames_for_millis_spec(millis) * 1000 <= millis * 44100 < (
        sample_frames_for_millis_spec(millis) + 1) * 1000,
        millis < 0 ==> (sample_frames_for_millis_spec(millis) - 1) * 1000 < millis * 44100
            <= sample_frames_for_millis_spec(millis) * 1000,
{
    if millis >= 0 {
        let p = millis * 44100;
        vstd::arithmetic::div_mod::lemma_fundamental_div_mod(p, 1000);
    } else {
        let p = (-millis) * 44100;
        vstd::arithmetic::div_mod::lemma_fundamental_div_mod(p, 1000);
        assert(millis * 44100 == -p);
    }
}

/// SampleFrames is a unit of time in the sound engine, with 44,100 sample frames per second.
#[derive(Debug, Clone, Copy, PartialEq, Eq, Structural, PartialOrd, Ord, Hash)]
pub struct SampleFrames(u32);

impl SampleFrames {
    /// The number of sample frames.
    pub closed spec fn frames_spec(self) -> u32 {
        self.0
    }

    /// A time of `frames` sample frames, as the sound engine reports it.
    pub fn from_u32(frames: u32) -> (r: Self)
        ensures
            r.frames_spec() == frames,
    {
        SampleFrames(frames)
    }

    /// The number of sample frames.
    pub fn to_u32(self) -> (r: u32)
        ensures
            r == self.frames_spec(),
    {
        self.0
    }
}

/// A sound channel, identified by the address of its device object.
#[derive(Debug)]
pub struct SoundChannelRef {
    ptr: usize,
}

impl SoundChannelRef {
    /// The address of the device channel.
    pub closed spec fn ptr_spec(&self) -> usize {
        self.ptr
    }

    /// Refers to the device channel at `ptr`.
    pub fn from_ptr(ptr: usize) -> (r: Self)
        ensures
            r.ptr_spec() == ptr,
    {
        SoundChannelRef { ptr }
    }

    /// The address of the device channel.
    pub fn as_ptr(&self) -> (r: usize)
        ensures
            r == self.ptr_spec(),
    {
        self.ptr
    }

    /// Attaches `source` to this channel if it is not already attached to a channel. Returns
    /// whether it was attached now, in which case the device must add the source to the channel.
    pub fn attach_source(&mut self, source: &mut SoundSource) -> (r: bool)
        ensures
            *final(self) == *old(self),
            r == old(source).channel_spec() is None,
            final(source).ptr_spec() == old(source).ptr_spec(),
            final(source).completion_spec() == old(source).completion_spec(),
            final(source).channel_spec() == if r {
                Some(old(self).ptr_spec())
            } else {
                old(source).channel_spec()
            },
    {
        source.attach_to_channel(self.ptr)
    }

    /// Detaches `source` from this channel, after which it is attached to no channel; the device
    /// must then remove the source from the channel. Returns `Error::NotFoundError`, and changes
    /// nothing, if the source is not attached to this channel.
    pub fn detach_source(&mut self, source: &mut SoundSource) -> (r: Result<(), Error>)
        ensures
            *final(self) == *old(self),
            r is Ok <==> old(source).channel_spec() == Some(old(self).ptr_spec()),
            r matches Err(e) ==> e is NotFoundError && *final(source) == *old(source),
            r is Ok ==> final(source).channel_spec() is None && final(source).ptr_spec()
                == old(source).ptr_spec() && final(source).completion_spec()
                == old(source).completion_spec(),
    {
        source.detach_from_channel(self.ptr)
    }
}

/// A sound channel that the game created, and whether it was added to the sound engine.
#[derive(Debug)]
pub struct SoundChannel {
    cref: SoundChannelRef,
    added: bool,
}

impl SoundChannel {
    /// The channel.
    pub closed spec fn cref_spec(&self) -> &SoundChannelRef {
        &self.cref
    }

    /// Whether the channel was added to the sound engine.
    pub closed spec fn added_spec(&self) -> bool {
        self.added
    }

    /// A new channel at device address `ptr`, not added to the sound engine.
    pub fn new(ptr: usize) -> (r: Self)
        ensures
            r.cref_spec().ptr_spec() == ptr,
            !r.added_spec(),
    {
        SoundChannel { cref: SoundChannelRef { ptr }, added: false }
    }

    /// Records whether the channel is added to the sound engine.
    pub fn set_added(&mut self, added: bool)
        ensures
            final(self).cref_spec() == old(self).cref_spec(),
            final(self).added_spec() == added,
    {
        self.added = added
    }

    /// Whether the channel is added to the sound engine, and must be removed from it before it is
    /// freed.
    pub fn is_added(&self) -> (r: bool)
        ensures
            r == self.added_spec(),
    {
        self.added
    }

    /// The channel.
    pub fn channel(&self) -> (r: &SoundChannelRef)
        ensures
            r == self.cref_spec(),
    {
        &self.cref
    }

    /// The channel, to attach and detach sources.
    pub fn channel_mut(&mut self) -> (r: &mut SoundChannelRef)
        ensures
            *r == *old(self).cref_spec(),
            final(self).added_spec() == old(self).added_spec(),
            *final(self).cref_spec() == *final(r),
    {
        &mut self.cref
    }
}

/// The sound engine, with its default channel.
#[derive(Debug)]
pub struct Sound {
    default_channel: SoundChannelRef,
}

impl Sound {
    /// The default channel.
    pub closed spec fn default_channel_spec(&self) -> &SoundChannelRef {
        &self.default_channel
    }

    /// The sound engine whose default channel is at device address `default_channel_ptr`.
    pub fn new(default_channel_ptr: usize) -> (r: Self)
        ensures
            r.default_channel_spec().ptr_spec() == default_channel_ptr,
    {
        Sound { default_channel: SoundChannelRef { ptr: default_channel_ptr } }
    }

    /// The default channel.
    pub fn default_channel(&self) -> (r: &SoundChannelRef)
        ensures
            r == self.default_channel_spec(),
    {
        &self.default_channel
    }

    /// The default channel, to attach and detach sources.
    pub fn default_channel_mut(&mut self) -> (r: &mut SoundChannelRef)
        ensures
            *r == *old(self).default_channel_spec(),
            *final(self).default_channel_spec() == *final(r),
    {
        &mut self.default_channel
    }

    /// Marks `channel` as added to the sound engine; the device must add it.
    pub fn add_channel(&mut self, channel: &mut SoundChannel)
        ensures
            *final(self) == *old(self),
            final(channel).cref_spec() == old(channel).cref_spec(),
            final(channel).added_spec(),
    {
        channel.set_added(true);
    }

    /// Marks `channel` as removed from the sound engine; the device must remove it.
    pub fn remove_channel(&mut self, channel: &mut SoundChannel)
        ensures
            *final(self) == *old(self),
            final(channel).cref_spec() == old(channel).cref_spec(),
            !final(channel).added_spec(),
    {
        channel.set_added(false);
    }
}

/// A source of sound: the address of its device object, the channel it is attached to, and the
/// registration of its completion closure.
#[derive(Debug)]
pub struct SoundSource {
    ptr: usize,
    channel: Option<usize>,
    completion_callback: Option<RegisteredCallback>,
}

/// The state after `cb` is registered under `key` as a sound source completion closure.
pub open spec fn with_completion<F, H>(v: CallbacksView<F, H>, key: usize, cb: F) -> CallbacksView<F, H> {
    CallbacksView { sound_source_completion: v.sound_source_completion.insert(key, cb), ..v }
}

impl SoundSource {
    /// The address of the device source.
    pub closed spec fn ptr_spec(&self) -> usize {
        self.ptr
    }

    /// The address of the channel the source is attached to, if any.
    pub closed spec fn channel_spec(&self) -> Option<usize> {
        self.channel
    }

    /// The key of the source's registered completion closure, if any.
    pub closed spec fn completion_spec(&self) -> Option<CallbackKey> {
        match self.completion_callback {
            Some(reg) => Some(reg.key_spec()),
            None => None,
        }
    }

    /// The source at device address `ptr`, attached to no channel and with no completion closure.
    pub fn new(ptr: usize) -> (r: Self)
        ensures
            r.ptr_spec() == ptr,
            r.channel_spec() is None,
            r.completion_spec() is None,
    {
        SoundSource { ptr, channel: None, completion_callback: None }
    }

    /// The address of the device source.
    pub fn as_ptr(&self) -> (r: usize)
        ensures
            r == self.ptr_spec(),
    {
        self.ptr
    }

    /// Detaches the source from the channel it is attached to, if any, before the source is
    /// freed, and returns that channel, from which the device must remove the source.
    pub fn take_channel(&mut self) -> (r: Option<usize>)
        ensures
            r == old(self).channel_spec(),
            final(self).channel_spec() is None,
            final(self).ptr_spec() == old(self).ptr_spec(),
            final(self).completion_spec() == old(self).completion_spec(),
    {
        self.channel.take()
    }

    /// Attach the SoundSource to the `channel` if it is not already attached to a channel, as the
    /// device does: attaching a source that is already attached does nothing. Returns whether it
    /// was attached now.
    fn attach_to_channel(&mut self, channel: usize) -> (r: bool)
        ensures
            r == old(self).channel_spec() is None,
            final(self).ptr_spec() == old(self).ptr_spec(),
            final(self).completion_spec() == old(self).completion_spec(),
            final(self).channel_spec() == if r {
                Some(channel)
            } else {
                old(self).channel_spec()
            },
    {
        if self.channel.is_none() {
            self.channel = Some(channel);
            true
        } else {
            false
        }
    }

    /// Removes the SoundSource from the `channel` if it was currently attached, after which it is
    /// attached to no channel.
    ///
    /// If the SoundSource is not attached to `channel`, then `Error::NotFoundError` is returned.
    fn detach_from_channel(&mut self, channel: usize) -> (r: Result<(), Error>)
        ensures
            r is Ok <==> old(self).channel_spec() == Some(channel),
            r matches Err(e) ==> e is NotFoundError && *final(self) == *old(self),
            r is Ok ==> final(self).channel_spec() is None && final(self).ptr_spec()
                == old(self).ptr_spec() && final(self).completion_spec()
                == old(self).completion_spec(),
    {
        match self.channel {
            Some(attached) => {
                if attached == channel {
                    self.channel = None;
                    return Ok(());
                }
            },
            None => {},
        }
        Err(Error::NotFoundError)
    }

    /// Registers `cb` in `callbacks` to run when this source completes, keyed by the source's
    /// address. Returns the registration it replaces, which the caller reports removed.
    pub fn register_completion_callback<F, H>(
        &mut self,
        callbacks: &mut Callbacks<F, H>,
        cb: F,
    ) -> (r: Option<RegisteredCallback>)
        requires
            !old(callbacks)@.sound_source_completion.contains_key(old(self).ptr_spec()),
        ensures
            final(callbacks)@ == with_completion(old(callbacks)@, old(self).ptr_spec(), cb),
            final(self).ptr_spec() == old(self).ptr_spec(),
            final(self).channel_spec() == old(self).channel_spec(),
            final(self).completion_spec() == Some(
                CallbackKey::SoundSourceCompletion(old(self).ptr_spec()),
            ),
            match r {
                Some(reg) => old(self).completion_spec() == Some(reg.key_spec()),
                None => old(self).completion_spec() is None,
            },
    {
        let reg = callbacks.add_sound_source_completion(self.ptr, cb);
        let replaced = self.completion_callback.take();
        self.completion_callback = Some(reg);
        replaced
    }
}

/// FilePlayer is used for streaming audio from a file on disk.
pub struct FilePlayer {
    source: SoundSource,
    fade_callback: Option<RegisteredCallback>,
}

impl FilePlayer {
    /// The player's sound source.
    pub closed spec fn source_spec(&self) -> &SoundSource {
        &self.source
    }

    /// The key of the player's registered fade closure, if any.
    pub closed spec fn fade_spec(&self) -> Option<CallbackKey> {
        match self.fade_callback {
            Some(reg) => Some(reg.key_spec()),
            None => None,
        }
    }

    /// The player at device address `ptr`, whose sound source is the same device object.
    pub fn new(ptr: usize) -> (r: Self)
        ensures
            r.source_spec().ptr_spec() == ptr,
            r.source_spec().channel_spec() is None,
            r.source_spec().completion_spec() is None,
            r.fade_spec() is None,
    {
        FilePlayer { source: SoundSource::new(ptr), fade_callback: None }
    }

    /// The address of the device player.
    pub fn as_ptr(&self) -> (r: usize)
        ensures
            r == self.source_spec().ptr_spec(),
    {
        self.source.ptr
    }

    /// The player's sound source.
    pub fn as_source(&self) -> (r: &SoundSource)
        ensures
            r == self.source_spec(),
    {
        &self.source
    }

    /// The player's sound source, to attach it to a channel or register closures.
    pub fn as_source_mut(&mut self) -> (r: &mut SoundSource)
        ensures
            *r == *old(self).source_spec(),
            final(self).fade_spec() == old(self).fade_spec(),
            *final(self).source_spec() == *final(r),
    {
        &mut self.source
    }

    /// Registers `cb` in `callbacks` to run when a volume fade of this player completes, keyed by
    /// the player's source address. Returns the registration it replaces, which the caller
    /// reports removed.
    pub fn register_fade_callback<F, H>(&mut self, callbacks: &mut Callbacks<F, H>, cb: F) -> (r:
        Option<RegisteredCallback>)
        requires
            !old(callbacks)@.sound_source_completion.contains_key(
                old(self).source_spec().ptr_spec(),
            ),
        ensures
            final(callbacks)@ == with_completion(
                old(callbacks)@,
                old(self).source_spec().ptr_spec(),
                cb,
            ),
            *final(self).source_spec() == *old(self).source_spec(),
            final(self).fade_spec() == Some(
                CallbackKey::SoundSourceCompletion(old(self).source_spec().ptr_spec()),
            ),
            match r {
                Some(reg) => old(self).fade_spec() == Some(reg.key_spec()),
                None => old(self).fade_spec() is None,
            },
    {
        let key = self.source.ptr;
        let reg = callbacks.add_sound_source_completion(key, cb);
        let replaced = self.fade_callback.take();
        self.fade_callback = Some(reg);
        replaced
    }
}

/// SamplePlayer plays an audio sample held in memory.
pub struct SamplePlayer {
    source: SoundSource,
    loop_callback: Option<RegisteredCallback>,
}

impl SamplePlayer {
    /// The player's sound source.
    pub closed spec fn source_spec(&self) -> &SoundSource {
        &self.source
    }

    /// The key of the player's registered loop closure, if any.
    pub closed spec fn loop_spec(&self) -> Option<CallbackKey> {
        match self.loop_callback {
            Some(reg) => Some(reg.key_spec()),
            None => None,
        }
    }

    /// The player at device address `ptr`, whose sound source is the same device object.
    pub fn new(ptr: usize) -> (r: Self)
        ensures
            r.source_spec().ptr_spec() == ptr,
            r.source_spec().channel_spec() is None,
            r.source_spec().completion_spec() is None,
            r.loop_spec() is None,
    {
        SamplePlayer { source: SoundSource::new(ptr), loop_callback: None }
    }

    /// The player's sound source.
    pub fn as_source(&self) -> (r: &SoundSource)
        ensures
            r == self.source_spec(),
    {
        &self.source
    }

    /// The player's sound source, to attach it to a channel or register closures.
    pub fn as_source_mut(&mut self) -> (r: &mut SoundSource)
        ensures
            *r == *old(self).source_spec(),
            final(self).loop_spec() == old(self).loop_spec(),
            *final(self).source_spec() == *final(r),
    {
        &mut self.source
    }

    /// Registers `cb` in `callbacks` to run every time the sample loops, under `key`: a key the
    /// system passes back for this player's loops, distinct from its source's address. Returns
    /// the registration it replaces, which the caller reports removed.
    pub fn register_loop_callback<F, H>(
        &mut self,
        callbacks: &mut Callbacks<F, H>,
        key: usize,
        cb: F,
    ) -> (r: Option<RegisteredCallback>)
        requires
            !old(callbacks)@.sound_source_completion.contains_key(key),
        ensures
            final(callbacks)@ == with_completion(old(callbacks)@, key, cb),
            *final(self).source_spec() == *old(self).source_spec(),
            final(self).loop_spec() == Some(CallbackKey::SoundSourceCompletion(key)),
            match r {
                Some(reg) => old(self).loop_spec() == Some(reg.key_spec()),
                None => old(self).loop_spec() is None,
            },
    {
        let reg = callbacks.add_sound_source_completion(key, cb);
        let replaced = self.loop_callback.take();
        self.loop_callback = Some(reg);
        replaced
    }
}

} // verus!
