//! A registry of the closures registered for system callbacks, keyed by what the system passes
//! back when the callback fires.
//!
//! The system calls a C function, which records which callback fired; the game then looks the
//! closure up here and runs it.
use vstd::prelude::*;
use std::collections::BTreeMap;

verus! {

broadcast use {vstd::std_specs::btree::group_btree_axioms, vstd::laws_cmp::group_laws_cmp};

/// Whether headphones and a microphone are plugged in.
#[derive(Debug, Copy, Clone, PartialEq, Eq, Structural)]
pub struct HeadphoneState {
    pub headphones: bool,
    pub microphone: bool,
}

impl HeadphoneState {
    /// The state with headphones plugged in iff `headphones`, and a microphone iff `microphone`.
    pub fn new(headphones: bool, microphone: bool) -> (r: Self)
        ensures
            r.headphones == headphones,
            r.microphone == microphone,
    {
        HeadphoneState { headphones, microphone }
    }
}

/// The key used for each set of callbacks held in a `Callbacks` collection.
#[derive(Debug, Copy, Clone, PartialEq, Eq, Structural)]
pub enum CallbackKey {
    SoundSourceCompletion(usize),
    MenuItem(usize),
    SequenceFinished(usize),
    HeadphoneChanged,
}

/// The arguments given to the C callback function for each type of function. These are used to
/// find the user-provided closure, or `None` when no callback is active.
#[derive(Debug, Copy, Clone, PartialEq, Eq, Structural)]
pub enum CallbackArguments {
    /// Indicates that no callback is active.
    NoCallback,
    SoundSourceCompletion(usize),
    MenuItem(usize),
    SequenceFinished(usize),
    HeadphoneChanged(HeadphoneState),
}

impl CallbackArguments {
    /// Whether no callback is active.
    pub fn is_none(&self) -> (r: bool)
        ensures
            r == (*self is NoCallback),
    {
        match self {
            CallbackArguments::NoCallback => true,
            _ => false,
        }
    }
}

/// Holds the key of a registered closure. The closure can be called as long as it is not reported
/// removed to the `Callbacks` that holds it.
#[derive(Debug)]
pub struct RegisteredCallback {
    cb_type: CallbackKey,
}

impl RegisteredCallback {
    /// The key the closure was registered under.
    pub closed spec fn key_spec(&self) -> CallbackKey {
        self.cb_type
    }

    /// The key the closure was registered under, to report it removed.
    pub fn key(&self) -> (r: CallbackKey)
        ensures
            r == self.key_spec(),
    {
        self.cb_type
    }
}

/// A closure found for the callback that fired.
pub enum FoundCallback<'a, F, H> {
    /// A closure that is passed only the game's value.
    Keyed(&'a F),
    /// The headphone closure, with the headphone state to pass to it.
    Headphone(&'a H, HeadphoneState),
}

/// The abstract state of a `Callbacks`.
pub ghost struct CallbacksView<F, H> {
    pub sound_source_completion: Map<usize, F>,
    pub menu_item: Map<usize, F>,
    pub sequence_finished: Map<usize, F>,
    pub headphone_changed: Option<H>,
}

impl<F, H> CallbacksView<F, H> {
    /// The state after the closure of `key` is removed.
    pub open spec fn remove_key(self, key: CallbackKey) -> Self {
        match key {
            CallbackKey::SoundSourceCompletion(k) => CallbacksView {
                sound_source_completion: self.sound_source_completion.remove(k),
                ..self
            },
            CallbackKey::MenuItem(k) => CallbacksView { menu_item: self.menu_item.remove(k), ..self },
            CallbackKey::SequenceFinished(k) => CallbacksView {
                sequence_finished: self.sequence_finished.remove(k),
                ..self
            },
            CallbackKey::HeadphoneChanged => CallbacksView { headphone_changed: None, ..self },
        }
    }

    /// The state after the closures of `keys` are removed, in order.
    pub open spec fn remove_keys(self, keys: Seq<CallbackKey>) -> Self
        decreases keys.len(),
    {
        if keys.len() == 0 {
            self
        } else {
            self.remove_keys(keys.drop_last()).remove_key(keys.last())
        }
    }

    /// The closure held for the callback that `args` describes, if any.
    pub open spec fn keyed_closure(self, args: CallbackArguments) -> Option<F> {
        match args {
            CallbackArguments::SoundSourceCompletion(k) => if self.sound_source_completion.contains_key(k) {
                Some(self.sound_source_completion[k])
            } else {
                None
            },
            CallbackArguments::MenuItem(k) => if self.menu_item.contains_key(k) {
                Some(self.menu_item[k])
            } else {
                None
            },
            CallbackArguments::SequenceFinished(k) => if self.sequence_finished.contains_key(k) {
                Some(self.sequence_finished[k])
            } else {
                None
            },
            _ => None,
        }
    }
}

/// A closure registered for a sound source completing, a menu item being chosen or a sequence
/// finishing is the one found when that callback fires, until its registration is reported
/// removed.
pub proof fn lemma_registered_closure_is_found<F, H>(v: CallbacksView<F, H>, key: usize, cb: F)
    ensures
        (CallbacksView {
            sound_source_completion: v.sound_source_completion.insert(key, cb),
            ..v
        }).keyed_closure(CallbackArguments::SoundSourceCompletion(key)) == Some(cb),
        (CallbacksView { menu_item: v.menu_item.insert(key, cb), ..v }).keyed_closure(
            CallbackArguments::MenuItem(key),
        ) == Some(cb),
        (CallbacksView { sequence_finished: v.sequence_finished.insert(key, cb), ..v })
            .keyed_closure(CallbackArguments::SequenceFinished(key)) == Some(cb),
{
}

/// Once the registration of a closure is reported removed and collected, no closure is found for
/// its callback.
pub proof fn lemma_removed_closure_is_not_found<F, H>(v: CallbacksView<F, H>, key: usize)
    ensures
        v.remove_keys(seq![CallbackKey::SoundSourceCompletion(key)]).keyed_closure(
            CallbackArguments::SoundSourceCompletion(key),
        ) is None,
        v.remove_keys(seq![CallbackKey::MenuItem(key)]).keyed_closure(
            CallbackArguments::MenuItem(key),
        ) is None,
        v.remove_keys(seq![CallbackKey::SequenceFinished(key)]).keyed_closure(
            CallbackArguments::SequenceFinished(key),
        ) is None,
        v.remove_keys(seq![CallbackKey::HeadphoneChanged]).headphone_changed is None,
{
    reveal_with_fuel(CallbacksView::remove_keys, 2);
    assert(seq![CallbackKey::SoundSourceCompletion(key)].drop_last() =~= Seq::<CallbackKey>::empty());
    assert(seq![CallbackKey::MenuItem(key)].drop_last() =~= Seq::<CallbackKey>::empty());
    assert(seq![CallbackKey::SequenceFinished(key)].drop_last() =~= Seq::<CallbackKey>::empty());
    assert(seq![CallbackKey::HeadphoneChanged].drop_last() =~= Seq::<CallbackKey>::empty());
}

proof fn lemma_contains_after_drop_last<A>(s: Seq<A>, x: A)
    requires
        s.len() > 0,
    ensures
        s.contains(x) == (s.drop_last().contains(x) || s.last() == x),
{
    if s.drop_last().contains(x) {
        let i = choose|i: int| 0 <= i < s.drop_last().len() && s.drop_last()[i] == x;
        assert(s[i] == x);
    }
    if s.last() == x {
        assert(s[s.len() - 1] == x);
    }
    if s.contains(x) {
        let i = choose|i: int| 0 <= i < s.len() && s[i] == x;
        if i < s.len() - 1 {
            assert(s.drop_last()[i] == x);
        }
    }
}

/// Collecting the closures of the reported keys removes exactly those: the closure of a callback
/// is gone if its key was reported, and every other callback keeps the closure it had.
pub proof fn lemma_collect_removes_only_reported<F, H>(
    v: CallbacksView<F, H>,
    keys: Seq<CallbackKey>,
    k: usize,
)
    ensures
        v.remove_keys(keys).keyed_closure(CallbackArguments::SoundSourceCompletion(k)) == if keys.contains(
            CallbackKey::SoundSourceCompletion(k),
        ) {
            None
        } else {
            v.keyed_closure(CallbackArguments::SoundSourceCompletion(k))
        },
        v.remove_keys(keys).keyed_closure(CallbackArguments::MenuItem(k)) == if keys.contains(
            CallbackKey::MenuItem(k),
        ) {
            None
        } else {
            v.keyed_closure(CallbackArguments::MenuItem(k))
        },
        v.remove_keys(keys).keyed_closure(CallbackArguments::SequenceFinished(k)) == if keys.contains(
            CallbackKey::SequenceFinished(k),
        ) {
            None
        } else {
            v.keyed_closure(CallbackArguments::SequenceFinished(k))
        },
        v.remove_keys(keys).headphone_changed == if keys.contains(CallbackKey::HeadphoneChanged) {
            None
        } else {
            v.headphone_changed
        },
    decreases keys.len(),
{
    if keys.len() > 0 {
        lemma_collect_removes_only_reported(v, keys.drop_last(), k);
        lemma_contains_after_drop_last(keys, CallbackKey::SoundSourceCompletion(k));
        lemma_contains_after_drop_last(keys, CallbackKey::MenuItem(k));
        lemma_contains_after_drop_last(keys, CallbackKey::SequenceFinished(k));
        lemma_contains_after_drop_last(keys, CallbackKey::HeadphoneChanged);
    }
}

/// Provides an API to run a closure tied to a callback when the system reports a callback is
/// ready to be run. `F` is the type of the closures that are passed the game's value, `H` the type
/// of the closure that is also passed the headphone state.
pub struct Callbacks<F, H> {
    sound_source_completion_callbacks: BTreeMap<usize, F>,
    menu_item_callbacks: BTreeMap<usize, F>,
    sequence_finished_callbacks: BTreeMap<usize, F>,
    headphone_changed_callback: Option<H>,
}

impl<F, H> View for Callbacks<F, H> {
    type V = CallbacksView<F, H>;

    closed spec fn view(&self) -> CallbacksView<F, H> {
        CallbacksView {
            sound_source_completion: self.sound_source_completion_callbacks@,
            menu_item: self.menu_item_callbacks@,
            sequence_finished: self.sequence_finished_callbacks@,
            headphone_changed: self.headphone_changed_callback,
        }
    }
}

impl<F, H> Callbacks<F, H> {
    /// Construct a container for callbacks.
    pub fn new() -> (r: Self)
        ensures
            r@.sound_source_completion == Map::<usize, F>::empty(),
            r@.menu_item == Map::<usize, F>::empty(),
            r@.sequence_finished == Map::<usize, F>::empty(),
            r@.headphone_changed is None,
    {
        Callbacks {
            sound_source_completion_callbacks: BTreeMap::new(),
            menu_item_callbacks: BTreeMap::new(),
            sequence_finished_callbacks: BTreeMap::new(),
            headphone_changed_callback: None,
        }
    }

    /// Drops the closure of `key`.
    fn remove(&mut self, key: CallbackKey)
        ensures
            final(self)@ == old(self)@.remove_key(key),
    {
        match key {
            CallbackKey::SoundSourceCompletion(k) => {
                self.sound_source_completion_callbacks.remove(&k);
            },
            CallbackKey::MenuItem(k) => {
                self.menu_item_callbacks.remove(&k);
            },
            CallbackKey::SequenceFinished(k) => {
                self.sequence_finished_callbacks.remove(&k);
            },
            CallbackKey::HeadphoneChanged => {
                self.headphone_changed_callback = None;
            },
        }
    }

    /// Drops the closures whose registrations were reported removed, in order.
    pub fn gc(&mut self, removed: &Vec<CallbackKey>)
        ensures
            final(self)@ == old(self)@.remove_keys(removed@),
    {
        let mut i: usize = 0;
        while i < removed.len()
            invariant
                i <= removed.len(),
                self@ == old(self)@.remove_keys(removed@.subrange(0, i as int)),
            decreases removed.len() - i,
        {
            self.remove(removed[i]);
            i = i + 1;
            proof {
                assert(removed@.subrange(0, i as int).drop_last() =~= removed@.subrange(
                    0,
                    i - 1,
                ));
            }
        }
        proof {
            assert(removed@.subrange(0, i as int) =~= removed@);
        }
    }

    /// Finds the closure to run for the callback that `current` describes.
    pub fn find(&self, current: &CallbackArguments) -> (r: Option<FoundCallback<'_, F, H>>)
        ensures
            match *current {
                CallbackArguments::NoCallback => r is None,
                CallbackArguments::HeadphoneChanged(state) => match self@.headphone_changed {
                    Some(h) => r matches Some(FoundCallback::Headphone(rh, rs)) && *rh == h && rs
                        == state,
                    None => r is None,
                },
                _ => match self@.keyed_closure(*current) {
                    Some(f) => r matches Some(FoundCallback::Keyed(rf)) && *rf == f,
                    None => r is None,
                },
            },
    {
        match current {
            CallbackArguments::NoCallback => None,
            CallbackArguments::SoundSourceCompletion(key) => {
                match self.sound_source_completion_callbacks.get(key) {
                    Some(f) => Some(FoundCallback::Keyed(f)),
                    None => None,
                }
            },
            CallbackArguments::MenuItem(key) => {
                match self.menu_item_callbacks.get(key) {
                    Some(f) => Some(FoundCallback::Keyed(f)),
                    None => None,
                }
            },
            CallbackArguments::SequenceFinished(key) => {
                match self.sequence_finished_callbacks.get(key) {
                    Some(f) => Some(FoundCallback::Keyed(f)),
                    None => None,
                }
            },
            CallbackArguments::HeadphoneChanged(state) => {
                match &self.headphone_changed_callback {
                    Some(h) => Some(FoundCallback::Headphone(h, *state)),
                    None => None,
                }
            },
        }
    }

    /// Registers `cb` to run when the sound source of `key` completes.
    pub fn add_sound_source_completion(&mut self, key: usize, cb: F) -> (r: RegisteredCallback)
        requires
            !old(self)@.sound_source_completion.contains_key(key),
        ensures
            final(self)@ == (CallbacksView {
                sound_source_completion: old(self)@.sound_source_completion.insert(key, cb),
                ..old(self)@
            }),
            r.key_spec() == CallbackKey::SoundSourceCompletion(key),
    {
        self.sound_source_completion_callbacks.insert(key, cb);
        RegisteredCallback { cb_type: CallbackKey::SoundSourceCompletion(key) }
    }

    /// Registers `cb` to run when the menu item of `key` is chosen.
    pub fn add_menu_item(&mut self, key: usize, cb: F) -> (r: RegisteredCallback)
        requires
            !old(self)@.menu_item.contains_key(key),
        ensures
            final(self)@ == (CallbacksView { menu_item: old(self)@.menu_item.insert(key, cb), ..old(self)@ }),
            r.key_spec() == CallbackKey::MenuItem(key),
    {
        self.menu_item_callbacks.insert(key, cb);
        RegisteredCallback { cb_type: CallbackKey::MenuItem(key) }
    }

    /// Registers `cb` to run when the sequence of `key` finishes.
    pub fn add_sequence_finished(&mut self, key: usize, cb: F) -> (r: RegisteredCallback)
        requires
            !old(self)@.sequence_finished.contains_key(key),
        ensures
            final(self)@ == (CallbacksView {
                sequence_finished: old(self)@.sequence_finished.insert(key, cb),
                ..old(self)@
            }),
            r.key_spec() == CallbackKey::SequenceFinished(key),
    {
        self.sequence_finished_callbacks.insert(key, cb);
        RegisteredCallback { cb_type: CallbackKey::SequenceFinished(key) }
    }

    /// Registers `cb` to run when the headphone state changes.
    pub fn add_headphone_change(&mut self, cb: H) -> (r: RegisteredCallback)
        requires
            old(self)@.headphone_changed is None,
        ensures
            final(self)@ == (CallbacksView { headphone_changed: Some(cb), ..old(self)@ }),
            r.key_spec() == CallbackKey::HeadphoneChanged,
    {
        self.headphone_changed_callback = Some(cb);
        RegisteredCallback { cb_type: CallbackKey::HeadphoneChanged }
    }
}

} // verus!
