//! Shared ownership by counting.
//!
//! A payload lives in a control block together with the number of handles
//! that own it. Control blocks live in an `Arena`; an `Arc` is a handle: the
//! place of a block and the name of one owner. Cloning a handle counts one
//! owner more, dropping one counts one less, and the drop that finds itself
//! the last owner takes the payload out and frees the block. A handle holds
//! no reference to the arena: each step is given the arena that the handle
//! came from.
//!
//! The count is kept beside the set of the owners' names, which exists for
//! the proofs only: the block's invariant is that the two agree.

use vstd::prelude::*;
use std::marker::PhantomData;
use crate::utils::non_null_from;

verus! {

/// What a control block is: the payload, the names of the handles that own
/// it, and how many names were given out so far.
pub struct BlockView<T> {
    pub data: T,
    pub handles: Set<nat>,
    pub minted: nat,
}

impl<T> BlockView<T> {
    /// While a block exists it has an owner, and no owner bears a name that
    /// is still to be given out.
    pub open spec fn wf(self) -> bool {
        &&& self.handles.finite()
        &&& self.handles.len() >= 1
        &&& forall|handle: nat| self.handles.contains(handle) ==> handle < self.minted
    }

    /// The block that a new payload gets: one owner, named 0.
    pub open spec fn fresh(data: T) -> Self {
        BlockView { data, handles: Set::<nat>::empty().insert(0), minted: 1 }
    }

    /// The number of live handles.
    pub open spec fn count(self) -> nat {
        self.handles.len()
    }

    /// Whether exactly one handle is live.
    pub open spec fn is_unique(self) -> bool {
        self.count() == 1
    }

    /// Whether another handle may be made: the count is kept in the lower
    /// half of its range, far from where it would wrap.
    pub open spec fn can_clone(self) -> bool {
        self.count() <= usize::MAX / 2
    }

    /// The block after a handle was cloned: the new handle takes the next
    /// name.
    pub open spec fn cloned(self) -> Self {
        BlockView {
            data: self.data,
            handles: self.handles.insert(self.minted),
            minted: self.minted + 1,
        }
    }

    /// The block with `data` written through its only handle.
    pub open spec fn store(self, data: T) -> Self {
        BlockView { data, handles: self.handles, minted: self.minted }
    }

    /// What is left of the block after `handle` was dropped: nothing, if it
    /// was the last one.
    pub open spec fn dropped(self, handle: nat) -> Option<Self> {
        if self.is_unique() {
            None
        } else {
            Some(
                BlockView {
                    data: self.data,
                    handles: self.handles.remove(handle),
                    minted: self.minted,
                },
            )
        }
    }

    /// The payload that the drop of a handle destroys: the block's, if the
    /// handle was the last one.
    pub open spec fn destroyed(self) -> Option<T> {
        if self.is_unique() {
            Some(self.data)
        } else {
            None
        }
    }
}

/// A control block: a payload and the count of its owners.
pub struct ArcData<T> {
    ref_count: usize,
    data: T,
    handles: Ghost<Set<nat>>,
    minted: Ghost<nat>,
}

impl<T> View for ArcData<T> {
    type V = BlockView<T>;

    closed spec fn view(&self) -> BlockView<T> {
        BlockView { data: self.data, handles: self.handles@, minted: self.minted@ }
    }
}

impl<T> ArcData<T> {
    /// The count is the number of live handles.
    pub closed spec fn wf(&self) -> bool {
        &&& self@.wf()
        &&& self.ref_count == self@.count()
    }

    /// The control block of a payload that has one owner.
    pub fn new(data: T) -> (block: Self)
        ensures
            block.wf(),
            block@ == BlockView::fresh(data),
    {
        ArcData {
            ref_count: 1,
            data,
            handles: Ghost(Set::<nat>::empty().insert(0)),
            minted: Ghost(1),
        }
    }
}

impl<T> Default for ArcData<T> where T: Default {
    fn default() -> (block: Self)
        ensures
            block.wf(),
            block@ == BlockView::fresh(block@.data),
            T::default.ensures((), block@.data),
    {
        ArcData {
            ref_count: 1,
            data: Default::default(),
            handles: Ghost(Set::<nat>::empty().insert(0)),
            minted: Ghost(1),
        }
    }
}

/// The store of control blocks. A place holds a block from the `new` that
/// filled it to the drop of the block's last handle.
pub struct Arena<T> {
    blocks: Vec<Option<ArcData<T>>>,
}

/// A handle that shares in the ownership of a payload. It can go to another
/// thread, or be shared with one, exactly when the payload can do both:
/// whoever has a handle can read the payload and can be the one who
/// destroys it.
pub struct Arc<T> {
    ptr: usize,
    handle: Ghost<nat>,
    payload: PhantomData<std::sync::Arc<T>>,
}

impl<T> View for Arena<T> {
    type V = Seq<Option<BlockView<T>>>;

    closed spec fn view(&self) -> Seq<Option<BlockView<T>>> {
        Seq::new(
            self.blocks@.len(),
            |ptr: int|
                match self.blocks@[ptr] {
                    Some(block) => Some(block@),
                    None => None,
                },
        )
    }
}

impl<T> Arena<T> {
    /// Every block in the arena keeps its count right.
    pub closed spec fn wf(&self) -> bool {
        forall|ptr: int|
            0 <= ptr < self.blocks@.len() ==> (#[trigger] self.blocks@[ptr] matches Some(block)
                ==> block.wf())
    }

    /// Whether `arc` is a live handle of a block in this arena.
    pub open spec fn holds(&self, arc: &Arc<T>) -> bool {
        &&& arc.ptr() < self@.len()
        &&& self@[arc.ptr() as int] matches Some(block) && block.handles.contains(arc.handle())
    }

    /// The block that `arc` points to.
    pub open spec fn block(&self, arc: &Arc<T>) -> BlockView<T>
        recommends
            self.holds(arc),
    {
        self@[arc.ptr() as int]->0
    }

    /// An arena without blocks.
    pub fn new() -> (arena: Self)
        ensures
            arena.wf(),
            arena@ == Seq::<Option<BlockView<T>>>::empty(),
    {
        Arena { blocks: Vec::new() }
    }
}

impl<T> Arc<T> {
    /// The place of the block that this handle points to.
    pub closed spec fn ptr(&self) -> nat {
        self.ptr as nat
    }

    /// The name under which the block knows this handle.
    pub closed spec fn handle(&self) -> nat {
        self.handle@
    }

    /// Puts `data` into a control block of its own and returns its first
    /// handle.
    pub fn new(arena: &mut Arena<T>, data: T) -> (arc: Self)
        requires
            old(arena).wf(),
        ensures
            final(arena).wf(),
            final(arena)@ == old(arena)@.push(Some(BlockView::fresh(data))),
            arc.ptr() == old(arena)@.len(),
            arc.handle() == 0,
            final(arena).holds(&arc),
    {
        let ptr = non_null_from(&mut arena.blocks, ArcData::new(data));
        Arc { ptr, handle: Ghost(0), payload: PhantomData }
    }

    fn data<'a>(&self, arena: &'a Arena<T>) -> (block: &'a ArcData<T>)
        requires
            arena.wf(),
            arena.holds(self),
        ensures
            block.wf(),
            block@ == arena.block(self),
    {
        arena.blocks[self.ptr].as_ref().unwrap()
    }

    /// The number of handles that own the payload.
    pub fn ref_count(&self, arena: &Arena<T>) -> (count: usize)
        requires
            arena.wf(),
            arena.holds(self),
        ensures
            count == arena.block(self).count(),
    {
        self.data(arena).ref_count
    }

    /// Whether this handle may be cloned.
    pub fn can_clone(&self, arena: &Arena<T>) -> (allowed: bool)
        requires
            arena.wf(),
            arena.holds(self),
        ensures
            allowed == arena.block(self).can_clone(),
    {
        self.data(arena).ref_count <= usize::MAX / 2
    }

    /// Exclusive access to the payload, for the handle that owns it alone.
    pub fn get_mut<'a>(arc: &mut Self, arena: &'a mut Arena<T>) -> (unique: Option<&'a mut T>)
        requires
            old(arena).wf(),
            old(arena).holds(old(arc)),
        ensures
            *final(arc) == *old(arc),
            final(arena).wf(),
            unique is Some <==> old(arena).block(old(arc)).is_unique(),
            match unique {
                Some(data) => {
                    &&& *data == old(arena).block(old(arc)).data
                    &&& final(arena)@ == old(arena)@.update(
                        old(arc).ptr() as int,
                        Some(old(arena).block(old(arc)).store(*final(data))),
                    )
                },
                None => final(arena)@ == old(arena)@,
            },
    {
        match &mut arena.blocks[arc.ptr] {
            Some(block) => {
                if block.ref_count == 1 {
                    Some(&mut block.data)
                } else {
                    None
                }
            },
            None => None,
        }
    }

    /// Shared access to the payload.
    pub fn deref<'a>(&self, arena: &'a Arena<T>) -> (data: &'a T)
        requires
            arena.wf(),
            arena.holds(self),
        ensures
            *data == arena.block(self).data,
    {
        &self.data(arena).data
    }

    /// Makes one handle more for the same payload. The caller clones only
    /// while `can_clone` allows it.
    pub fn clone(&self, arena: &mut Arena<T>) -> (arc: Self)
        requires
            old(arena).wf(),
            old(arena).holds(self),
            old(arena).block(self).can_clone(),
        ensures
            final(arena).wf(),
            final(arena)@ == old(arena)@.update(
                self.ptr() as int,
                Some(old(arena).block(self).cloned()),
            ),
            arc.ptr() == self.ptr(),
            arc.handle() == old(arena).block(self).minted,
            final(arena).holds(&arc),
            final(arena).holds(self),
    {
        let ghost before = arena.block(self);
        let ghost name = before.minted;
        match &mut arena.blocks[self.ptr] {
            Some(block) => {
                block.ref_count = block.ref_count + 1;
                block.handles = Ghost(before.handles.insert(name));
                block.minted = Ghost(name + 1);
            },
            None => {},
        }
        Arc { ptr: self.ptr, handle: Ghost(name), payload: PhantomData }
    }

    /// Gives this handle up. The drop of the last handle takes the payload
    /// out of the arena, to be destroyed, and frees the block; any other
    /// drop only counts one owner less.
    pub fn drop(self, arena: &mut Arena<T>) -> (payload: Option<T>)
        requires
            old(arena).wf(),
            old(arena).holds(&self),
        ensures
            final(arena).wf(),
            final(arena)@ == old(arena)@.update(
                self.ptr() as int,
                old(arena).block(&self).dropped(self.handle()),
            ),
            payload == old(arena).block(&self).destroyed(),
    {
        let ghost before = arena.block(&self);
        let mut slot: Option<ArcData<T>> = None;
        std::mem::swap(&mut arena.blocks[self.ptr], &mut slot);
        let block = slot.unwrap();
        if block.ref_count == 1 {
            Some(block.data)
        } else {
            let rest = ArcData {
                ref_count: block.ref_count - 1,
                data: block.data,
                handles: Ghost(before.handles.remove(self.handle@)),
                minted: block.minted,
            };
            arena.blocks[self.ptr] = Some(rest);
            None
        }
    }
}

/// One step in the life of a control block, taken by the handle it names:
/// a clone, a drop, or a write through `get_mut`.
pub enum Step<T> {
    Clone(nat),
    Drop(nat),
    Store(nat, T),
}

impl<T> Step<T> {
    /// The handle that takes the step.
    pub open spec fn handle(self) -> nat {
        match self {
            Step::Clone(handle) => handle,
            Step::Drop(handle) => handle,
            Step::Store(handle, _) => handle,
        }
    }
}

/// Whether `step` can be taken on `block`: the block exists and the handle
/// is one of its owners; for a clone the count has room, and for a write the
/// handle is the only owner.
pub open spec fn enabled<T>(block: Option<BlockView<T>>, step: Step<T>) -> bool {
    &&& block matches Some(live)
    &&& live.handles.contains(step.handle())
    &&& step is Clone ==> live.can_clone()
    &&& step is Store ==> live.is_unique()
}

/// What `step` leaves of `block`.
pub open spec fn after<T>(block: Option<BlockView<T>>, step: Step<T>) -> Option<BlockView<T>> {
    match block {
        Some(live) => match step {
            Step::Clone(_) => Some(live.cloned()),
            Step::Drop(handle) => live.dropped(handle),
            Step::Store(_, data) => Some(live.store(data)),
        },
        None => None,
    }
}

/// The payload that `step` destroys, if it destroys one.
pub open spec fn destroyed_by<T>(block: Option<BlockView<T>>, step: Step<T>) -> Option<T> {
    match block {
        Some(live) => match step {
            Step::Drop(_) => live.destroyed(),
            _ => None,
        },
        None => None,
    }
}

/// Whether `steps` can be taken on `block` one after another.
pub open spec fn possible<T>(block: Option<BlockView<T>>, steps: Seq<Step<T>>) -> bool
    decreases steps.len(),
{
    steps.len() == 0 || (enabled(block, steps[0]) && possible(
        after(block, steps[0]),
        steps.drop_first(),
    ))
}

/// What `steps` leave of `block`.
pub open spec fn run<T>(block: Option<BlockView<T>>, steps: Seq<Step<T>>) -> Option<BlockView<T>>
    decreases steps.len(),
{
    if steps.len() == 0 {
        block
    } else {
        run(after(block, steps[0]), steps.drop_first())
    }
}

/// The payloads that `steps` destroy, in the order in which they do.
pub open spec fn destructions<T>(block: Option<BlockView<T>>, steps: Seq<Step<T>>) -> Seq<T>
    decreases steps.len(),
{
    if steps.len() == 0 {
        Seq::empty()
    } else {
        let rest = destructions(after(block, steps[0]), steps.drop_first());
        match destroyed_by(block, steps[0]) {
            Some(payload) => seq![payload] + rest,
            None => rest,
        }
    }
}

/// The payload as the writes among `steps` leave it, given that it was
/// `data` before.
pub open spec fn written<T>(data: T, steps: Seq<Step<T>>) -> T
    decreases steps.len(),
{
    if steps.len() == 0 {
        data
    } else {
        match steps[0] {
            Step::Store(_, new) => written(new, steps.drop_first()),
            _ => written(data, steps.drop_first()),
        }
    }
}

/// A clone keeps a block well formed and makes its payload shared; a drop
/// that is not the last keeps it well formed too, and the drop that is the
/// last is the drop of the only handle.
pub proof fn steps_keep_the_count_right<T>(block: BlockView<T>, handle: nat)
    requires
        block.wf(),
        block.handles.contains(handle),
    ensures
        block.cloned().wf(),
        block.cloned().count() == block.count() + 1,
        !block.cloned().is_unique(),
        block.dropped(handle) matches Some(left) ==> left.wf() && left.count() + 1
            == block.count(),
        block.dropped(handle) is None <==> block.handles =~= Set::<nat>::empty().insert(handle),
{
    if block.handles =~= Set::<nat>::empty().insert(handle) {
        assert(block.handles.len() == 1);
    }
}

/// Once a block is gone no step can be taken on it.
proof fn nothing_follows_the_last_drop<T>(steps: Seq<Step<T>>)
    requires
        possible(None::<BlockView<T>>, steps),
    ensures
        steps.len() == 0,
{
}

/// In every sequence of clones, drops and writes that live handles can
/// take, in whatever order they take them, the payload is destroyed once, by
/// the drop of the last handle: as long as a handle is left nothing was
/// destroyed, and when none is left the payload was destroyed and nothing
/// else was. The payload is then as the writes left it, each of which was
/// made by a handle that was the only one.
pub proof fn payload_is_destroyed_once_by_the_last_drop<T>(
    block: BlockView<T>,
    steps: Seq<Step<T>>,
)
    requires
        block.wf(),
        possible(Some(block), steps),
    ensures
        match run(Some(block), steps) {
            Some(left) => {
                &&& left.wf()
                &&& left.data == written(block.data, steps)
                &&& destructions(Some(block), steps) == Seq::<T>::empty()
            },
            None => destructions(Some(block), steps) == seq![written(block.data, steps)],
        },
    decreases steps.len(),
{
    if steps.len() > 0 {
        let step = steps[0];
        let rest = steps.drop_first();
        steps_keep_the_count_right(block, step.handle());
        match after(Some(block), step) {
            Some(next) => {
                payload_is_destroyed_once_by_the_last_drop(next, rest);
            },
            None => {
                nothing_follows_the_last_drop::<T>(rest);
                assert(run(None::<BlockView<T>>, rest) is None);
                assert(written(block.data, rest) == block.data);
                assert(seq![block.data] + destructions(None::<BlockView<T>>, rest)
                    =~= seq![block.data]);
            },
        }
    }
}

/// A payload that was just put into its block is owned by one handle, and
/// every drop of the only handle of a block is the drop that destroys.
pub proof fn only_handle_destroys<T>(data: T)
    ensures
        BlockView::fresh(data).wf(),
        BlockView::fresh(data).is_unique(),
        BlockView::fresh(data).destroyed() == Some(data),
        BlockView::fresh(data).dropped(0) is None,
{
}

} // verus!
