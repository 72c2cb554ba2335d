//! The drawing context stack, and the bitmaps that were drawn into and are held for the game to
//! take back once their context has been popped.
//!
//! The device calls that push and pop drawing contexts are made around these operations; this
//! type keeps the bookkeeping of which bitmap is where.
use vstd::prelude::*;
use std::collections::BTreeMap;

verus! {

broadcast use {vstd::std_specs::btree::group_btree_axioms, vstd::laws_cmp::group_laws_cmp};

#[derive(Debug)]
struct StackBitmap<B> {
    id: usize,
    bitmap: B,
}

#[derive(Debug)]
struct HeldBitmap<B> {
    refs: usize,
    bitmap: Option<B>,
}

/// Holds a reference on a bitmap that was placed into the context stack. The reference can be
/// used to retrieve that bitmap on a future frame, after it is released.
#[derive(Debug, PartialEq, Eq, Structural, PartialOrd, Ord, Hash)]
pub struct ContextStackId {
    id: usize,
}

impl ContextStackId {
    /// The number that identifies the bitmap.
    pub closed spec fn id_spec(&self) -> usize {
        self.id
    }
}

/// The abstract state of a `ContextStack`.
pub ghost struct ContextStackView<B> {
    /// The contexts, bottom first: `None` draws into the framebuffer, `Some((id, bitmap))` into a
    /// bitmap pushed under `id`.
    pub stack: Seq<Option<(usize, B)>>,
    /// For each id that can still be used to take its bitmap back: how many `ContextStackId`s
    /// refer to it, and the bitmap once its context has been popped.
    pub holding: Map<usize, (usize, Option<B>)>,
    /// The id the next pushed bitmap gets.
    pub next_id: usize,
}

/// The drawing context stack. The top of the stack is where drawing commands are currently being
/// applied. A `None` at the top of the stack refers to the framebuffer, and an empty stack also
/// refers to the framebuffer.
#[derive(Debug)]
pub struct ContextStack<B> {
    stack: Vec<Option<StackBitmap<B>>>,
    /// Bitmaps that were dropped from the stack (at the end of a frame), which are kept around to
    /// be reclaimed. The key is an id referring to the bitmap, which the game can hold. The bitmap
    /// is None until that bitmap is dropped, then it holds the bitmap. If the id is removed from the
    /// map before the bitmap, it will never be held in this map.
    holding: BTreeMap<usize, HeldBitmap<B>>,
    next_id: usize,
}

/// The id of a stack entry that draws into a bitmap.
pub open spec fn entry_id<B>(e: Option<(usize, B)>) -> usize {
    match e {
        Some((id, _)) => id,
        None => 0,
    }
}

impl<B> ContextStackView<B> {
    /// The stack's bookkeeping is consistent: every id in use was handed out, each pushed bitmap
    /// is on the stack once, every held entry has an outstanding reference, and a bitmap is held
    /// only once its context has been popped.
    pub open spec fn wf(self) -> bool {
        &&& forall|i: int|
            0 <= i < self.stack.len() && #[trigger] self.stack[i] is Some ==> 0 < entry_id(self.stack[i])
                < self.next_id
        &&& forall|i: int, j: int|
            0 <= i < j < self.stack.len() && #[trigger] self.stack[i] is Some
                && #[trigger] self.stack[j] is Some ==> entry_id(self.stack[i]) != entry_id(self.stack[j])
        &&& forall|id: usize|
            #[trigger] self.holding.contains_key(id) ==> 0 < id < self.next_id
                && self.holding[id].0 >= 1
        &&& forall|i: int|
            0 <= i < self.stack.len() && #[trigger] self.stack[i] is Some
                && self.holding.contains_key(entry_id(self.stack[i])) ==> self.holding[entry_id(self.stack[i])].1 is None
        &&& self.holding.dom().finite()
        &&& self.next_id > 0
    }
}

impl<B> ContextStackView<B> {
    /// The state after pushing a context that draws into the framebuffer.
    pub open spec fn push_framebuffer(self) -> Self {
        ContextStackView { stack: self.stack.push(None), ..self }
    }

    /// The state after pushing a context that draws into `bitmap`; it gets the id `next_id`.
    pub open spec fn push_bitmap(self, bitmap: B) -> Self {
        ContextStackView {
            stack: self.stack.push(Some((self.next_id, bitmap))),
            holding: self.holding.insert(self.next_id, (1usize, None)),
            next_id: (self.next_id + 1) as usize,
        }
    }

    /// The state after popping the top context, and the id returned for it: a bitmap context whose
    /// id is still held gets its bitmap held and one more reference.
    pub open spec fn pop(self) -> (Self, Option<usize>) {
        if self.stack.len() == 0 {
            (self, None)
        } else {
            let rest = ContextStackView { stack: self.stack.drop_last(), ..self };
            match self.stack.last() {
                None => (rest, None),
                Some((id, bitmap)) => if self.holding.contains_key(id) {
                    (
                        ContextStackView {
                            holding: self.holding.insert(
                                id,
                                ((self.holding[id].0 + 1) as usize, Some(bitmap)),
                            ),
                            ..rest
                        },
                        Some(id),
                    )
                } else {
                    (rest, None)
                },
            }
        }
    }

    /// The state after taking back the bitmap of `id`, and the bitmap taken.
    pub open spec fn take_bitmap(self, id: usize) -> (Self, Option<B>) {
        (
            ContextStackView { holding: self.holding.remove(id), ..self },
            if self.holding.contains_key(id) {
                self.holding[id].1
            } else {
                None
            },
        )
    }

    /// The state after making another reference to the bitmap of `id`.
    pub open spec fn clone_id(self, id: usize) -> Self {
        ContextStackView {
            holding: self.holding.insert(
                id,
                ((self.holding[id].0 + 1) as usize, self.holding[id].1),
            ),
            ..self
        }
    }

    /// The state after giving up a reference to the bitmap of `id`.
    pub open spec fn release_id(self, id: usize) -> Self {
        ContextStackView {
            holding: if !self.holding.contains_key(id) {
                self.holding
            } else if self.holding[id].0 == 1 {
                self.holding.remove(id)
            } else {
                self.holding.insert(id, ((self.holding[id].0 - 1) as usize, self.holding[id].1))
            },
            ..self
        }
    }
}

/// Each id handed out for a bitmap counts as one reference: popping the bitmap's context returns
/// one more id and adds exactly one reference, making a copy of an id adds one, and giving one up
/// takes one away, dropping the bitmap with the last. No other id is touched.
pub proof fn lemma_references_count_ids<B>(v: ContextStackView<B>, id: usize, bitmap: B)
    ensures
        v.stack.len() > 0 && v.stack.last() == Some((id, bitmap)) && v.holding.contains_key(id)
            && v.holding[id].0 < usize::MAX ==> {
            &&& v.pop().1 == Some(id)
            &&& v.pop().0.holding.contains_key(id)
            &&& v.pop().0.holding[id].0 == v.holding[id].0 + 1
            &&& v.pop().0.holding[id].1 == Some(bitmap)
            &&& v.pop().0.holding.remove(id) == v.holding.remove(id)
        },
        v.holding.contains_key(id) && v.holding[id].0 < usize::MAX ==> {
            &&& v.clone_id(id).holding.contains_key(id)
            &&& v.clone_id(id).holding[id].0 == v.holding[id].0 + 1
            &&& v.clone_id(id).holding[id].1 == v.holding[id].1
            &&& v.clone_id(id).holding.remove(id) == v.holding.remove(id)
        },
        v.holding.contains_key(id) && v.holding[id].0 > 1 ==> {
            &&& v.release_id(id).holding.contains_key(id)
            &&& v.release_id(id).holding[id].0 == v.holding[id].0 - 1
            &&& v.release_id(id).holding[id].1 == v.holding[id].1
            &&& v.release_id(id).holding.remove(id) == v.holding.remove(id)
        },
        v.holding.contains_key(id) && v.holding[id].0 == 1 ==> !v.release_id(id).holding.contains_key(
            id,
        ) && v.release_id(id).holding == v.holding.remove(id),
{
    if v.stack.len() > 0 && v.stack.last() == Some((id, bitmap)) && v.holding.contains_key(id)
        && v.holding[id].0 < usize::MAX {
        assert(v.pop().0.holding.remove(id) =~= v.holding.remove(id));
    }
    if v.holding.contains_key(id) && v.holding[id].0 < usize::MAX {
        assert(v.clone_id(id).holding.remove(id) =~= v.holding.remove(id));
    }
    if v.holding.contains_key(id) && v.holding[id].0 > 1 {
        assert(v.release_id(id).holding.remove(id) =~= v.holding.remove(id));
    }
}

/// A popped bitmap stays held while any id handed out for it has not been given up: after pushing
/// a bitmap, copying its id and popping its context, giving up the id that popping returned and
/// the copy still leaves the first id, which takes the bitmap back.
pub proof fn lemma_bitmap_held_while_an_id_remains<B>(v: ContextStackView<B>, bitmap: B)
    requires
        v.wf(),
        v.next_id < usize::MAX,
    ensures
        ({
            let id = v.next_id;
            let (popped_state, popped) = v.push_bitmap(bitmap).clone_id(id).pop();
            &&& popped == Some(id)
            &&& popped_state.release_id(id).release_id(id).take_bitmap(id).1 == Some(bitmap)
        }),
{
    let id = v.next_id;
    let v1 = v.push_bitmap(bitmap);
    let v2 = v1.clone_id(id);
    assert(v2.stack.last() == Some((id, bitmap)));
    lemma_references_count_ids(v2, id, bitmap);
    let v3 = v2.pop().0;
    assert(v3.holding[id].0 == 3);
    lemma_references_count_ids(v3, id, bitmap);
    lemma_references_count_ids(v3.release_id(id), id, bitmap);
}

/// A bitmap pushed as a drawing context is, once its context is popped, held under the id that
/// pushing it returned, and taking it back by that id gives the same bitmap; the stack is back to
/// what it was before the push.
pub proof fn lemma_popped_bitmap_can_be_taken<B>(v: ContextStackView<B>, bitmap: B)
    requires
        v.wf(),
        v.next_id < usize::MAX,
    ensures
        v.push_bitmap(bitmap).pop().1 == Some(v.next_id),
        v.push_bitmap(bitmap).pop().0.stack == v.stack,
        v.push_bitmap(bitmap).pop().0.take_bitmap(v.next_id).1 == Some(bitmap),
{
    let v1 = v.push_bitmap(bitmap);
    assert(v1.stack.drop_last() =~= v.stack);
}

/// A bitmap is kept only as long as an id refers to it: when the only reference is given up while
/// its context is still on the stack, popping the context returns no id and the bitmap can not be
/// taken back.
pub proof fn lemma_unreferenced_bitmap_is_not_held<B>(v: ContextStackView<B>, bitmap: B)
    requires
        v.wf(),
        v.next_id < usize::MAX,
    ensures
        v.push_bitmap(bitmap).release_id(v.next_id).pop().1 is None,
        v.push_bitmap(bitmap).release_id(v.next_id).pop().0.take_bitmap(v.next_id).1 is None,
{
    let v1 = v.push_bitmap(bitmap).release_id(v.next_id);
    assert(!v1.holding.contains_key(v.next_id));
}

/// Pushing a framebuffer context and popping it again returns no id and leaves the state as it
/// was.
pub proof fn lemma_framebuffer_push_pop<B>(v: ContextStackView<B>)
    ensures
        v.push_framebuffer().pop() == (v, None::<usize>),
{
    assert(v.push_framebuffer().stack.drop_last() =~= v.stack);
}

impl<B> View for ContextStack<B> {
    type V = ContextStackView<B>;

    closed spec fn view(&self) -> ContextStackView<B> {
        ContextStackView {
            stack: self.stack@.map_values(
                |e: Option<StackBitmap<B>>|
                    match e {
                        Some(s) => Some((s.id, s.bitmap)),
                        None => None,
                    },
            ),
            holding: self.holding@.map_values(|h: HeldBitmap<B>| (h.refs, h.bitmap)),
            next_id: self.next_id,
        }
    }
}

impl<B> ContextStack<B> {
    /// Whether the stack's bookkeeping is consistent.
    pub open spec fn wf(&self) -> bool {
        self@.wf()
    }

    /// An empty stack, drawing into the framebuffer.
    pub fn new() -> (r: Self)
        ensures
            r.wf(),
            r@.stack == Seq::<Option<(usize, B)>>::empty(),
            r@.holding == Map::<usize, (usize, Option<B>)>::empty(),
            r@.next_id == 1,
    {
        let r = ContextStack { stack: Vec::new(), holding: BTreeMap::new(), next_id: 1 };
        proof {
            assert(r@.holding =~= Map::<usize, (usize, Option<B>)>::empty());
            assert(r@.stack =~= Seq::<Option<(usize, B)>>::empty());
        }
        r
    }

    /// Whether a bitmap can be pushed: the ids are not exhausted.
    pub fn can_push_bitmap(&self) -> (r: bool)
        ensures
            r == (self@.next_id < usize::MAX),
    {
        self.next_id < usize::MAX
    }

    /// Whether the top context can be popped: when it draws into a bitmap whose id is held, the
    /// id's reference count has room for the one that popping adds.
    pub fn can_pop(&self) -> (r: bool)
        ensures
            r == (self@.stack.len() > 0 && self@.stack.last() is Some && self@.holding.contains_key(
                entry_id(self@.stack.last()),
            ) ==> self@.holding[entry_id(self@.stack.last())].0 < usize::MAX),
    {
        let n = self.stack.len();
        if n == 0 {
            return true;
        }
        match &self.stack[n - 1] {
            None => true,
            Some(top) => match self.holding.get(&top.id) {
                None => true,
                Some(held) => held.refs < usize::MAX,
            },
        }
    }

    /// Whether `id` can be cloned: it is still held, and its reference count has room for one
    /// more.
    pub fn can_clone_id(&self, id: &ContextStackId) -> (r: bool)
        ensures
            r == (self@.holding.contains_key(id.id_spec()) && self@.holding[id.id_spec()].0
                < usize::MAX),
    {
        match self.holding.get(&id.id) {
            None => false,
            Some(held) => held.refs < usize::MAX,
        }
    }

    /// Pushes a context that draws into the framebuffer.
    pub fn push_framebuffer(&mut self)
        requires
            old(self).wf(),
        ensures
            final(self).wf(),
            final(self)@ == old(self)@.push_framebuffer(),
    {
        self.stack.push(None);
        proof {
            assert(self@.stack =~= old(self)@.stack.push(None));
        }
    }

    /// Pushes a context that draws into `bitmap`, and returns the id by which the bitmap can be
    /// taken back once its context has been popped.
    pub fn push_bitmap(&mut self, bitmap: B) -> (r: ContextStackId)
        requires
            old(self).wf(),
            old(self)@.next_id < usize::MAX,
        ensures
            final(self).wf(),
            r.id_spec() == old(self)@.next_id,
            final(self)@ == old(self)@.push_bitmap(bitmap),
    {
        let id = self.next_id;
        self.next_id = self.next_id + 1;
        self.stack.push(Some(StackBitmap { id, bitmap }));
        self.holding.insert(id, HeldBitmap { refs: 1, bitmap: None });
        proof {
            assert(self@.stack =~= old(self)@.stack.push(Some((id, bitmap))));
            assert(self@.holding =~= old(self)@.holding.insert(id, (1usize, None::<B>)));
            let v = self@;
            assert forall|i: int|
                0 <= i < v.stack.len() && #[trigger] v.stack[i] is Some implies 0 < entry_id(
                v.stack[i],
            ) < v.next_id by {
                if i < v.stack.len() - 1 {
                    assert(v.stack[i] == old(self)@.stack[i]);
                }
            }
            assert forall|i: int, j: int|
                0 <= i < j < v.stack.len() && #[trigger] v.stack[i] is Some
                    && #[trigger] v.stack[j] is Some implies entry_id(v.stack[i]) != entry_id(
                v.stack[j],
            ) by {
                assert(v.stack[i] == old(self)@.stack[i]);
                if j < v.stack.len() - 1 {
                    assert(v.stack[j] == old(self)@.stack[j]);
                }
            }
            assert forall|k: usize| #[trigger] v.holding.contains_key(k) implies 0 < k < v.next_id
                && v.holding[k].0 >= 1 by {
                if k != id {
                    assert(old(self)@.holding.contains_key(k));
                }
            }
            assert forall|i: int|
                0 <= i < v.stack.len() && #[trigger] v.stack[i] is Some && v.holding.contains_key(
                    entry_id(v.stack[i]),
                ) implies v.holding[entry_id(v.stack[i])].1 is None by {
                if i < v.stack.len() - 1 {
                    assert(v.stack[i] == old(self)@.stack[i]);
                }
            }
        }
        ContextStackId { id }
    }

    /// Pops the top context. When it drew into a bitmap whose id is still referred to, the bitmap
    /// is held to be taken back and another reference to its id is returned; otherwise nothing is
    /// returned (and a bitmap that nothing refers to any more is dropped).
    pub fn pop(&mut self) -> (r: Option<ContextStackId>)
        requires
            old(self).wf(),
            old(self)@.stack.len() > 0 && old(self)@.stack.last() is Some
                && old(self)@.holding.contains_key(entry_id(old(self)@.stack.last()))
                ==> old(self)@.holding[entry_id(old(self)@.stack.last())].0 < usize::MAX,
        ensures
            final(self).wf(),
            final(self)@ == old(self)@.pop().0,
            match old(self)@.pop().1 {
                Some(id) => r matches Some(rid) && rid.id_spec() == id,
                None => r is None,
            },
    {
        let ghost old_view = self@;
        let top = self.stack.pop();
        proof {
            if old_view.stack.len() > 0 {
                assert(self@.stack =~= old_view.stack.drop_last());
            } else {
                assert(self@.stack =~= old_view.stack);
            }
        }
        match top {
            Some(Some(stack_b)) => {
                let id = stack_b.id;
                match self.holding.remove(&id) {
                    None => {
                        proof {
                            assert(self@.holding =~= old_view.holding);
                        }
                        None
                    },
                    Some(held) => {
                        self.holding.insert(
                            id,
                            HeldBitmap { refs: held.refs + 1, bitmap: Some(stack_b.bitmap) },
                        );
                        proof {
                            assert(self@.holding =~= old_view.holding.insert(
                                id,
                                ((old_view.holding[id].0 + 1) as usize, Some(stack_b.bitmap)),
                            ));
                            let v = self@;
                            let last = old_view.stack.len() - 1;
                            assert forall|i: int|
                                0 <= i < v.stack.len() && #[trigger] v.stack[i] is Some
                                    && v.holding.contains_key(
                                    entry_id(v.stack[i]),
                                ) implies v.holding[entry_id(v.stack[i])].1 is None by {
                                assert(v.stack[i] == old_view.stack[i]);
                                assert(old_view.stack[last] is Some);
                                assert(entry_id(old_view.stack[i]) != entry_id(
                                    old_view.stack[last],
                                ));
                            }
                        }
                        Some(ContextStackId { id })
                    },
                }
            },
            _ => {
                proof {
                    assert(self@.holding =~= old_view.holding);
                }
                None
            },
        }
    }

    /// Retrieves the bitmap that was pushed under `id` and whose context has since been popped.
    /// The id can not be used for the bitmap afterwards.
    pub fn take_bitmap(&mut self, id: ContextStackId) -> (r: Option<B>)
        requires
            old(self).wf(),
        ensures
            final(self).wf(),
            (final(self)@, r) == old(self)@.take_bitmap(id.id_spec()),
    {
        let ghost old_view = self@;
        let r = match self.holding.remove(&id.id) {
            Some(held) => held.bitmap,
            None => None,
        };
        proof {
            assert(self@.holding =~= old_view.holding.remove(id.id_spec()));
        }
        r
    }

    /// Makes another reference to the bitmap of `id`, which must still be held.
    pub fn clone_id(&mut self, id: &ContextStackId) -> (r: ContextStackId)
        requires
            old(self).wf(),
            old(self)@.holding.contains_key(id.id_spec()),
            old(self)@.holding[id.id_spec()].0 < usize::MAX,
        ensures
            final(self).wf(),
            r == *id,
            final(self)@ == old(self)@.clone_id(id.id_spec()),
    {
        let ghost old_view = self@;
        match self.holding.remove(&id.id) {
            Some(held) => {
                self.holding.insert(id.id, HeldBitmap { refs: held.refs + 1, bitmap: held.bitmap });
            },
            None => {},
        }
        proof {
            assert(self@.holding =~= old_view.holding.insert(
                id.id_spec(),
                ((old_view.holding[id.id_spec()].0 + 1) as usize, old_view.holding[id.id_spec()].1),
            ));
        }
        ContextStackId { id: id.id }
    }

    /// Gives up a reference to the bitmap of `id`. When it was the last one, the bitmap will not be
    /// held any more: it is dropped if its context was popped, and will be when it is.
    pub fn release_id(&mut self, id: ContextStackId)
        requires
            old(self).wf(),
        ensures
            final(self).wf(),
            final(self)@ == old(self)@.release_id(id.id_spec()),
    {
        let ghost old_view = self@;
        match self.holding.remove(&id.id) {
            Some(held) => {
                if held.refs > 1 {
                    self.holding.insert(
                        id.id,
                        HeldBitmap { refs: held.refs - 1, bitmap: held.bitmap },
                    );
                }
            },
            None => {},
        }
        proof {
            let k = id.id_spec();
            if !old_view.holding.contains_key(k) {
                assert(self@.holding =~= old_view.holding);
            } else if old_view.holding[k].0 == 1 {
                assert(self@.holding =~= old_view.holding.remove(k));
            } else {
                assert(self@.holding =~= old_view.holding.insert(
                    k,
                    ((old_view.holding[k].0 - 1) as usize, old_view.holding[k].1),
                ));
            }
        }
    }

    /// Unwinds the stack back to the framebuffer and forgets every held bitmap, keeping the id
    /// counter so that ids handed out before are never handed out again.
    pub fn reset(&mut self)
        requires
            old(self).wf(),
        ensures
            final(self).wf(),
            final(self)@.stack == Seq::<Option<(usize, B)>>::empty(),
            final(self)@.holding == Map::<usize, (usize, Option<B>)>::empty(),
            final(self)@.next_id == old(self)@.next_id,
    {
        self.stack = Vec::new();
        self.holding = BTreeMap::new();
        proof {
            assert(self@.holding =~= Map::<usize, (usize, Option<B>)>::empty());
            assert(self@.stack =~= Seq::<Option<(usize, B)>>::empty());
        }
    }
}

} // verus!
