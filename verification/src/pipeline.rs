//! The vocabulary in which a filter says what one run of it encodes: which
//! resources go into which binding of the compute kernel, and which commands
//! the compute pass holds.

use vstd::prelude::*;
use crate::buffer::{BufferUsages, TextureUsages};
use crate::utils::{ceil_div, lemma_ceil_div_tight};

verus! {

/// What a binding of a compute kernel takes.
#[derive(Clone, Copy, Debug, PartialEq, Eq, Structural)]
pub enum BindingKind {
    /// A uniform buffer of parameters.
    UniformBuffer,
    /// A storage buffer that the kernel reads.
    StorageBuffer,
    /// A texture that the kernel reads.
    SampledTexture,
    /// A texture that the kernel writes.
    StorageTexture,
}

/// The images that a filter binds.
#[derive(Clone, Copy, Debug, PartialEq, Eq, Structural)]
pub enum ImageSlot {
    /// The image that the caller hands to `run`.
    Input,
    /// The image between the two passes of a separable filter.
    Intermediate,
    /// The image that holds the result after `run`.
    Output,
}

/// The parameter buffers that a filter binds.
#[derive(Clone, Copy, Debug, PartialEq, Eq, Structural)]
pub enum BufferSlot {
    /// The scalar settings of the filter.
    Settings,
    /// The convolution kernel: its sum, then its weights.
    Kernel,
    /// The orientation flag of the vertical pass.
    Vertical,
    /// The orientation flag of the horizontal pass.
    Horizontal,
}

/// A resource of a filter that can go into a binding.
#[derive(Clone, Copy, Debug, PartialEq, Eq, Structural)]
pub enum BindingResource {
    /// The whole of a parameter buffer.
    Buffer(BufferSlot),
    /// A default view of the texture of an image.
    TextureView(ImageSlot),
}

/// One binding of a bind group: its index in the group, what the kernel
/// declares there, and the resource that goes in.
#[derive(Clone, Copy, Debug, PartialEq, Eq, Structural)]
pub struct BindGroupEntry {
    pub binding: u32,
    pub kind: BindingKind,
    pub resource: BindingResource,
}

/// A bind group to create: the group of the pipeline whose layout it takes,
/// and its entries.
#[derive(Clone, Debug, PartialEq, Eq)]
pub struct BindGroupDescriptor {
    pub layout: u32,
    pub entries: Vec<BindGroupEntry>,
}

/// A bind group to create, as a mathematical value.
pub struct BindGroupSpec {
    pub layout: u32,
    pub entries: Seq<BindGroupEntry>,
}

impl View for BindGroupDescriptor {
    type V = BindGroupSpec;

    open spec fn view(&self) -> BindGroupSpec {
        BindGroupSpec { layout: self.layout, entries: self.entries@ }
    }
}

/// A command of a compute pass.
#[derive(Clone, Copy, Debug, PartialEq, Eq, Structural)]
pub enum ComputeCommand {
    /// Use the filter's pipeline for what follows.
    SetPipeline,
    /// Bind, at group `index`, the bind group that stands at place
    /// `bind_group` among those of the pass.
    SetBindGroup { index: u32, bind_group: usize },
    /// Run the kernel on `x` by `y` by `z` workgroups.
    DispatchWorkgroups { x: u32, y: u32, z: u32 },
}

/// What one run of a filter encodes and submits: the bind groups to create,
/// and the commands of the single compute pass of a single command buffer.
#[derive(Clone, Debug, PartialEq, Eq)]
pub struct ComputePass {
    pub bind_groups: Vec<BindGroupDescriptor>,
    pub commands: Vec<ComputeCommand>,
}

/// A compute pass as a mathematical value.
pub struct ComputePassSpec {
    pub bind_groups: Seq<BindGroupSpec>,
    pub commands: Seq<ComputeCommand>,
}

impl View for ComputePass {
    type V = ComputePassSpec;

    open spec fn view(&self) -> ComputePassSpec {
        ComputePassSpec {
            bind_groups: self.bind_groups@.map_values(|group: BindGroupDescriptor| group@),
            commands: self.commands@,
        }
    }
}

/// Whether a texture with the usages `usage` can go into a binding of the
/// kind `kind`.
pub open spec fn texture_supports(usage: TextureUsages, kind: BindingKind) -> bool {
    match kind {
        BindingKind::SampledTexture => usage.texture_binding,
        BindingKind::StorageTexture => usage.storage_binding,
        _ => false,
    }
}

/// Whether a buffer with the usages `usage` can go into a binding of the kind
/// `kind`.
pub open spec fn buffer_supports(usage: BufferUsages, kind: BindingKind) -> bool {
    match kind {
        BindingKind::UniformBuffer => usage.uniform,
        BindingKind::StorageBuffer => usage.storage,
        _ => false,
    }
}

impl BindGroupSpec {
    /// Whether the entries fill the bindings `0`, `1`, ... of the group, each
    /// once and in order.
    pub open spec fn is_dense(self) -> bool {
        forall|i: int| 0 <= i < self.entries.len() ==> (#[trigger] self.entries[i]).binding == i
    }
}

impl ComputePassSpec {
    /// Whether the commands are in order: every bind group that is set is one
    /// of the pass and goes to the group whose layout it was made with, the
    /// pipeline is set first, and the entries of every bind group are dense.
    pub open spec fn well_formed(self) -> bool {
        &&& self.commands.len() > 0
        &&& self.commands[0] == ComputeCommand::SetPipeline
        &&& forall|i: int|
            0 <= i < self.commands.len() ==> (#[trigger] self.commands[i]
                matches ComputeCommand::SetBindGroup { index, bind_group } ==> bind_group
                < self.bind_groups.len() && self.bind_groups[bind_group as int].layout == index)
        &&& forall|g: int|
            0 <= g < self.bind_groups.len() ==> (#[trigger] self.bind_groups[g]).is_dense()
    }

    /// Whether every resource of the pass can go where the pass puts it, for
    /// images and buffers with the usages that `texture_usage` and
    /// `buffer_usage` give.
    pub open spec fn supported_by(
        self,
        texture_usage: spec_fn(ImageSlot) -> TextureUsages,
        buffer_usage: spec_fn(BufferSlot) -> BufferUsages,
    ) -> bool {
        forall|g: int, e: int|
            0 <= g < self.bind_groups.len() && 0 <= e < self.bind_groups[g].entries.len() ==> {
                let entry = #[trigger] self.bind_groups[g].entries[e];
                match entry.resource {
                    BindingResource::Buffer(slot) => buffer_supports(
                        buffer_usage(slot),
                        entry.kind,
                    ),
                    BindingResource::TextureView(slot) => texture_supports(
                        texture_usage(slot),
                        entry.kind,
                    ),
                }
            }
    }
}

/// The entry that binds, at `binding`, the texture of `source` for reading.
pub open spec fn sampled(binding: u32, source: ImageSlot) -> BindGroupEntry {
    BindGroupEntry {
        binding,
        kind: BindingKind::SampledTexture,
        resource: BindingResource::TextureView(source),
    }
}

/// The entry that binds, at `binding`, the texture of `target` for writing.
pub open spec fn stored(binding: u32, target: ImageSlot) -> BindGroupEntry {
    BindGroupEntry {
        binding,
        kind: BindingKind::StorageTexture,
        resource: BindingResource::TextureView(target),
    }
}

/// The entry that binds, at `binding`, the buffer `slot` as a uniform.
pub open spec fn uniform(binding: u32, slot: BufferSlot) -> BindGroupEntry {
    BindGroupEntry {
        binding,
        kind: BindingKind::UniformBuffer,
        resource: BindingResource::Buffer(slot),
    }
}

/// The entry that binds, at `binding`, the buffer `slot` as storage.
pub open spec fn storage(binding: u32, slot: BufferSlot) -> BindGroupEntry {
    BindGroupEntry {
        binding,
        kind: BindingKind::StorageBuffer,
        resource: BindingResource::Buffer(slot),
    }
}

/// The texture pair of a pass: `source` read at binding 0, `target` written
/// at binding 1.
pub open spec fn texture_pair(source: ImageSlot, target: ImageSlot) -> Seq<BindGroupEntry> {
    seq![sampled(0, source), stored(1, target)]
}

/// The entries of the texture pair of a pass: `source` read at binding 0,
/// `target` written at binding 1.
pub fn texture_pair_entries(source: ImageSlot, target: ImageSlot) -> (entries: Vec<BindGroupEntry>)
    ensures
        entries@ == texture_pair(source, target),
{
    let entries = vec![
        BindGroupEntry {
            binding: 0,
            kind: BindingKind::SampledTexture,
            resource: BindingResource::TextureView(source),
        },
        BindGroupEntry {
            binding: 1,
            kind: BindingKind::StorageTexture,
            resource: BindingResource::TextureView(target),
        },
    ];
    assert(entries@ =~= texture_pair(source, target));
    entries
}

/// Width and height, in invocations, of one workgroup of a pointwise kernel.
pub const POINTWISE_WORKGROUP_SIZE: u32 = 16;

/// The single pass of a pointwise filter over an image of `width` by
/// `height` pixels: the pipeline, then the bind groups `0 .. groups` each at
/// its own index, then one dispatch of 16 by 16 tiles that cover the image.
pub open spec fn pointwise_commands(groups: int, width: u32, height: u32) -> Seq<ComputeCommand> {
    seq![ComputeCommand::SetPipeline] + Seq::new(
        groups as nat,
        |i: int| ComputeCommand::SetBindGroup { index: i as u32, bind_group: i as usize },
    ) + seq![
        ComputeCommand::DispatchWorkgroups {
            x: ceil_div(width as int, POINTWISE_WORKGROUP_SIZE as int) as u32,
            y: ceil_div(height as int, POINTWISE_WORKGROUP_SIZE as int) as u32,
            z: 1,
        },
    ]
}

/// The dispatch of a pointwise pass covers every pixel of the image, with no
/// workgroup to spare along either axis.
pub proof fn lemma_pointwise_dispatch_covers(groups: int, width: u32, height: u32)
    requires
        0 <= groups,
    ensures
        pointwise_commands(groups, width, height).last() matches ComputeCommand::DispatchWorkgroups {
            x,
            y,
            z,
        } && x * 16 >= width && (x - 1) * 16 < width && y * 16 >= height && (y - 1) * 16 < height
            && z == 1,
{
    lemma_ceil_div_tight(width as int, 16);
    lemma_ceil_div_tight(height as int, 16);
}

} // verus!
