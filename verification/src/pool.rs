//! The frame resource pool: a fixed number of slots, each with a position
//! buffer, an offscreen target of the surface's size and a bind group over
//! both, used in rotation so that the CPU never writes what the GPU still
//! reads.

use vstd::prelude::*;
use crate::command::{Command, Resource};
use crate::descriptor::{
    BindGroupDescriptor,
    BindGroupEntry,
    BindingResource,
    BufferDescriptor,
    BufferUsages,
    Extent3d,
    TextureDescriptor,
    TextureDimension,
    TextureUsages,
    POSITIONS_BINDING,
    TARGET_BINDING,
    spec_target_format,
    target_format,
};
use crate::layout::{PointPosition, POINT_COUNT, POSITION_BUFFER_SIZE, encoded_positions};
use crate::surface::SurfaceConfig;

verus! {

/// One frame slot, by the descriptors of what it holds.
#[derive(Clone, Copy, Debug, PartialEq, Eq, Structural)]
pub struct FrameData {
    pub points_position_buffer: BufferDescriptor,
    pub texture: TextureDescriptor,
    pub bind_group: BindGroupDescriptor,
}

/// The position buffer of any slot: exactly as large as the encoded points.
pub open spec fn spec_position_buffer() -> BufferDescriptor {
    BufferDescriptor {
        size: POSITION_BUFFER_SIZE as u64,
        usage: BufferUsages::spec_uniform_upload(),
        mapped_at_creation: false,
    }
}

/// The size of an offscreen target, and of its copy to the surface.
pub open spec fn spec_target_extent(config: SurfaceConfig) -> Extent3d {
    Extent3d { width: config.width, height: config.height, depth_or_array_layers: 1 }
}

/// The offscreen target of any slot under a surface configuration.
pub open spec fn spec_target_texture(config: SurfaceConfig) -> TextureDescriptor {
    TextureDescriptor {
        size: spec_target_extent(config),
        mip_level_count: 1,
        sample_count: 1,
        dimension: TextureDimension::D2,
        format: spec_target_format(),
        usage: TextureUsages::spec_offscreen_target(),
    }
}

/// The bind group of a slot: its own buffer and its own target, nothing of
/// another slot.
pub open spec fn spec_slot_bind_group(slot: usize) -> BindGroupDescriptor {
    BindGroupDescriptor {
        positions: BindGroupEntry {
            binding: POSITIONS_BINDING,
            resource: BindingResource::Buffer { slot },
        },
        target: BindGroupEntry {
            binding: TARGET_BINDING,
            resource: BindingResource::TextureView { slot },
        },
    }
}

/// What a slot holds under a surface configuration.
pub open spec fn spec_frame_data(slot: usize, config: SurfaceConfig) -> FrameData {
    FrameData {
        points_position_buffer: spec_position_buffer(),
        texture: spec_target_texture(config),
        bind_group: spec_slot_bind_group(slot),
    }
}

/// Command `k` of the commands that create a pool: for each slot in turn its
/// buffer, its target, its bind group.
pub open spec fn setup_command(k: int, config: SurfaceConfig) -> Command {
    let slot = (k / 3) as usize;
    if k % 3 == 0 {
        Command::CreateBuffer { slot, descriptor: spec_position_buffer() }
    } else if k % 3 == 1 {
        Command::CreateTexture { slot, descriptor: spec_target_texture(config) }
    } else {
        Command::CreateBindGroup { slot, descriptor: spec_slot_bind_group(slot) }
    }
}

/// The commands that create a pool of `count` slots.
pub open spec fn setup_commands(count: nat, config: SurfaceConfig) -> Seq<Command> {
    Seq::new(3 * count, |k: int| setup_command(k, config))
}

/// Command `k` of the commands that fit a pool to a surface configuration:
/// for each slot in turn a new target and a new bind group.
pub open spec fn regenerate_command(k: int, config: SurfaceConfig) -> Command {
    let slot = (k / 2) as usize;
    if k % 2 == 0 {
        Command::CreateTexture { slot, descriptor: spec_target_texture(config) }
    } else {
        Command::CreateBindGroup { slot, descriptor: spec_slot_bind_group(slot) }
    }
}

/// The commands that fit a pool of `count` slots to a surface configuration.
pub open spec fn regenerate_commands(count: nat, config: SurfaceConfig) -> Seq<Command> {
    Seq::new(2 * count, |k: int| regenerate_command(k, config))
}

/// Command `k` of the commands that give up a pool of `count` slots: the
/// slots from the last to the first, and of each its bind group, its target,
/// its buffer, the reverse of how they came.
pub open spec fn release_command(k: int, count: nat) -> Command {
    let slot = (count - 1 - k / 3) as usize;
    if k % 3 == 0 {
        Command::Release { resource: Resource::BindGroup { slot } }
    } else if k % 3 == 1 {
        Command::Release { resource: Resource::Texture { slot } }
    } else {
        Command::Release { resource: Resource::Buffer { slot } }
    }
}

/// The commands that give up a pool of `count` slots.
pub open spec fn release_commands(count: nat) -> Seq<Command> {
    Seq::new(3 * count, |k: int| release_command(k, count))
}

/// The slot that follows `index` in a pool of `count` slots.
pub open spec fn spec_next_index(index: int, count: int) -> int {
    (index + 1) % count
}

/// The slot that is active `frames` frames after `index` was.
pub open spec fn index_after(index: int, count: int, frames: nat) -> int
    decreases frames,
{
    if frames == 0 {
        index
    } else {
        spec_next_index(index_after(index, count, (frames - 1) as nat), count)
    }
}

/// The pool as a value: what each slot holds, and which slot is active.
pub struct FramePoolView {
    pub slots: Seq<FrameData>,
    pub index: int,
}

impl FramePoolView {
    /// There is a slot, the active one exists, and every slot holds what the
    /// surface configuration asks for.
    pub open spec fn wf(self, config: SurfaceConfig) -> bool {
        &&& 1 <= self.slots.len() <= usize::MAX
        &&& 0 <= self.index < self.slots.len()
        &&& forall|i: int|
            0 <= i < self.slots.len() ==> #[trigger] self.slots[i] == spec_frame_data(
                i as usize,
                config,
            )
    }

    /// A new pool of `count` slots; the first is active.
    pub open spec fn spec_new(count: nat, config: SurfaceConfig) -> FramePoolView {
        FramePoolView {
            slots: Seq::new(count, |i: int| spec_frame_data(i as usize, config)),
            index: 0,
        }
    }

    /// The pool after a frame: the next slot is active.
    pub open spec fn spec_advance(self) -> FramePoolView {
        FramePoolView { index: spec_next_index(self.index, self.slots.len() as int), ..self }
    }

    /// The pool fitted to a surface configuration: every slot has a new target
    /// and a new bind group, and keeps its buffer. The active slot stays.
    pub open spec fn spec_regenerate(self, config: SurfaceConfig) -> FramePoolView {
        FramePoolView {
            slots: Seq::new(
                self.slots.len(),
                |i: int|
                    FrameData {
                        texture: spec_target_texture(config),
                        bind_group: spec_slot_bind_group(i as usize),
                        ..self.slots[i]
                    },
            ),
            ..self
        }
    }
}

pub struct FramePool {
    slots: Vec<FrameData>,
    index: usize,
}

impl View for FramePool {
    type V = FramePoolView;

    closed spec fn view(&self) -> FramePoolView {
        FramePoolView { slots: self.slots@, index: self.index as int }
    }
}

impl FramePool {
    /// What a slot holds when it is created under a surface configuration.
    pub fn allocate_slot(slot: usize, config: &SurfaceConfig) -> (data: FrameData)
        ensures
            data == spec_frame_data(slot, *config),
    {
        FrameData {
            points_position_buffer: BufferDescriptor {
                size: POSITION_BUFFER_SIZE as u64,
                usage: BufferUsages::uniform_upload(),
                mapped_at_creation: false,
            },
            texture: Self::target_texture(config),
            bind_group: Self::slot_bind_group(slot),
        }
    }

    /// The offscreen target that a surface configuration asks for.
    pub fn target_texture(config: &SurfaceConfig) -> (descriptor: TextureDescriptor)
        ensures
            descriptor == spec_target_texture(*config),
    {
        TextureDescriptor {
            size: Extent3d { width: config.width, height: config.height, depth_or_array_layers: 1 },
            mip_level_count: 1,
            sample_count: 1,
            dimension: TextureDimension::D2,
            format: target_format(),
            usage: TextureUsages::offscreen_target(),
        }
    }

    /// The bind group of a slot.
    pub fn slot_bind_group(slot: usize) -> (descriptor: BindGroupDescriptor)
        ensures
            descriptor == spec_slot_bind_group(slot),
    {
        BindGroupDescriptor {
            positions: BindGroupEntry {
                binding: POSITIONS_BINDING,
                resource: BindingResource::Buffer { slot },
            },
            target: BindGroupEntry {
                binding: TARGET_BINDING,
                resource: BindingResource::TextureView { slot },
            },
        }
    }

    /// Creates a pool of `count` slots for a surface configuration, and the
    /// commands that create their resources.
    pub fn new(count: usize, config: &SurfaceConfig) -> (made: (FramePool, Vec<Command>))
        requires
            count >= 1,
        ensures
            made.0@ == FramePoolView::spec_new(count as nat, *config),
            made.0@.wf(*config),
            made.1@ == setup_commands(count as nat, *config),
    {
        let mut slots: Vec<FrameData> = Vec::new();
        let mut plan: Vec<Command> = Vec::new();
        let mut i: usize = 0;
        while i < count
            invariant
                0 <= i <= count,
                slots@ =~= Seq::new(i as nat, |j: int| spec_frame_data(j as usize, *config)),
                plan@ =~= setup_commands(i as nat, *config),
            decreases count - i,
        {
            let data = Self::allocate_slot(i, config);
            slots.push(data);
            plan.push(Command::CreateBuffer { slot: i, descriptor: data.points_position_buffer });
            plan.push(Command::CreateTexture { slot: i, descriptor: data.texture });
            plan.push(Command::CreateBindGroup { slot: i, descriptor: data.bind_group });
            i = i + 1;
        }
        (FramePool { slots, index: 0 }, plan)
    }

    /// Number of slots.
    pub fn len(&self) -> (count: usize)
        ensures
            count == self@.slots.len(),
    {
        self.slots.len()
    }

    /// The slot that the next frame uses.
    pub fn current_slot_index(&self) -> (index: usize)
        ensures
            index == self@.index,
    {
        self.index
    }

    /// What slot `slot` holds.
    pub fn slot(&self, slot: usize) -> (data: FrameData)
        requires
            slot < self@.slots.len(),
        ensures
            data == self@.slots[slot as int],
    {
        self.slots[slot]
    }

    /// Makes the next slot the active one, round-robin.
    pub fn advance(&mut self)
        requires
            old(self)@.slots.len() >= 1,
            0 <= old(self)@.index < old(self)@.slots.len(),
        ensures
            final(self)@ == old(self)@.spec_advance(),
            0 <= final(self)@.index < final(self)@.slots.len(),
    {
        let count = self.slots.len();
        self.index = (self.index + 1) % count;
    }

    /// Gives the pool up, and returns the commands that release what its
    /// slots hold, last slot first.
    pub fn release(self) -> (plan: Vec<Command>)
        ensures
            plan@ == release_commands(self@.slots.len()),
    {
        let mut plan: Vec<Command> = Vec::new();
        let count = self.slots.len();
        let mut i: usize = 0;
        while i < count
            invariant
                0 <= i <= count,
                plan@ =~= Seq::new(3 * (i as nat), |k: int| release_command(k, count as nat)),
            decreases count - i,
        {
            let slot = count - 1 - i;
            plan.push(Command::Release { resource: Resource::BindGroup { slot } });
            plan.push(Command::Release { resource: Resource::Texture { slot } });
            plan.push(Command::Release { resource: Resource::Buffer { slot } });
            i = i + 1;
        }
        plan
    }

    /// Fits every slot to a surface configuration, the active one and the
    /// others, and returns the commands that create the new targets and bind
    /// groups.
    pub fn regenerate(&mut self, config: &SurfaceConfig) -> (plan: Vec<Command>)
        ensures
            final(self)@ == old(self)@.spec_regenerate(*config),
            plan@ == regenerate_commands(old(self)@.slots.len(), *config),
    {
        let mut plan: Vec<Command> = Vec::new();
        let count = self.slots.len();
        let mut i: usize = 0;
        while i < count
            invariant
                0 <= i <= count,
                count == self.slots@.len(),
                self.slots@.len() == old(self).slots@.len(),
                self.index == old(self).index,
                forall|j: int|
                    0 <= j < i ==> #[trigger] self.slots@[j] == old(self)@.spec_regenerate(
                        *config,
                    ).slots[j],
                forall|j: int| i <= j < count ==> #[trigger] self.slots@[j] == old(self).slots@[j],
                plan@ =~= regenerate_commands(i as nat, *config),
            decreases count - i,
        {
            let mut data = self.slots[i];
            data.texture = Self::target_texture(config);
            data.bind_group = Self::slot_bind_group(i);
            self.slots[i] = data;
            plan.push(Command::CreateTexture { slot: i, descriptor: data.texture });
            plan.push(Command::CreateBindGroup { slot: i, descriptor: data.bind_group });
            i = i + 1;
        }
        assert(self.slots@ =~= old(self)@.spec_regenerate(*config).slots);
        plan
    }
}

/// A pool that is fitted to a surface configuration holds in every slot what
/// that configuration asks for, whatever it held before, as long as its
/// buffers were the position buffers.
pub proof fn lemma_regenerate_fits(pool: FramePoolView, before: SurfaceConfig, config: SurfaceConfig)
    requires
        pool.wf(before),
    ensures
        pool.spec_regenerate(config).wf(config),
        pool.spec_regenerate(config) == (FramePoolView {
            index: pool.index,
            ..FramePoolView::spec_new(pool.slots.len(), config)
        }),
{
    let fitted = pool.spec_regenerate(config);
    assert forall|i: int| 0 <= i < fitted.slots.len() implies #[trigger] fitted.slots[i]
        == spec_frame_data(i as usize, config) by {
        assert(pool.slots[i] == spec_frame_data(i as usize, before));
    }
    assert(fitted.slots =~= FramePoolView::spec_new(pool.slots.len(), config).slots);
}

/// The position buffer of a slot is exactly as large as the encoded points: a
/// write of all points fills it and never runs past it.
pub proof fn lemma_buffer_holds_points(points: Seq<PointPosition>)
    requires
        points.len() == POINT_COUNT,
    ensures
        encoded_positions(points).len() == spec_position_buffer().size,
{
}

/// No two slots share a resource: the bind group of a slot names the buffer
/// and the target of that slot, and these are not those of any other slot.
pub proof fn lemma_slots_do_not_share(pool: FramePoolView, config: SurfaceConfig, i: int, j: int)
    requires
        pool.wf(config),
        0 <= i < pool.slots.len(),
        0 <= j < pool.slots.len(),
        i != j,
    ensures
        pool.slots[i].bind_group.positions.resource == (BindingResource::Buffer {
            slot: i as usize,
        }),
        pool.slots[i].bind_group.target.resource == (BindingResource::TextureView {
            slot: i as usize,
        }),
        pool.slots[i].bind_group.positions.resource != pool.slots[j].bind_group.positions.resource,
        pool.slots[i].bind_group.target.resource != pool.slots[j].bind_group.target.resource,
{
}

/// With two slots or more, a frame never uses the slot of the frame before
/// it.
pub proof fn lemma_next_slot_differs(index: int, count: int)
    requires
        count >= 2,
        0 <= index < count,
    ensures
        0 <= spec_next_index(index, count) < count,
        spec_next_index(index, count) != index,
{
    if index + 1 < count {
        assert((index + 1) % count == index + 1) by (nonlinear_arith)
            requires
                0 <= index + 1 < count,
        ;
    } else {
        assert((index + 1) % count == 0) by (nonlinear_arith)
            requires
                index + 1 == count,
                count >= 2,
        ;
    }
}

/// Round-robin: after `frames` frames the active slot has moved on by
/// `frames`, modulo the number of slots.
pub proof fn lemma_index_after(index: int, count: int, frames: nat)
    requires
        count >= 1,
        0 <= index < count,
    ensures
        index_after(index, count, frames) == (index + frames) % count,
    decreases frames,
{
    if frames > 0 {
        lemma_index_after(index, count, (frames - 1) as nat);
        let before = index + frames - 1;
        assert(((before % count) + 1) % count == (before + 1) % count) by (nonlinear_arith)
            requires
                count >= 1,
        ;
    } else {
        assert(index % count == index) by (nonlinear_arith)
            requires
                0 <= index < count,
        ;
    }
}

/// The slot index cycles with the number of slots as its period: after as many
/// frames as there are slots, the slot that was active is active again.
pub proof fn lemma_index_period(index: int, count: int)
    requires
        count >= 1,
        0 <= index < count,
    ensures
        index_after(index, count, count as nat) == index,
{
    lemma_index_after(index, count, count as nat);
    assert((index + count) % count == index) by (nonlinear_arith)
        requires
            count >= 1,
            0 <= index < count,
    ;
}

} // verus!
