//! The Gaussian blur filter: a separable convolution in two passes, down the
//! columns into an intermediate image and then along the rows into the
//! filter's output image, both encoded into one compute pass.

use vstd::prelude::*;
use vstd::slice::slice_to_vec;
use crate::buffer::{
    extent_2d, kernel_usage, storage_usage, uniform_usage, BufferUsages, TextureUsages,
    WgImageBuffer,
};
use crate::host::{cast_words, is_memory_of_words};
use crate::kernel::Kernel;
use crate::pipeline::{
    sampled, storage, stored, uniform, BindGroupDescriptor, BindGroupEntry, BindGroupSpec,
    BindingKind, BindingResource, BufferSlot, ComputeCommand, ComputePass, ComputePassSpec,
    ImageSlot,
};
use crate::utils::{ceil_div, compute_work_group_count, lemma_ceil_div_tight};

verus! {

/// Invocations in one workgroup of the blur kernel, which is a line of them.
pub const BLUR_WORKGROUP_LENGTH: u32 = 128;

/// The two stages of the blur, in the order in which they run.
#[derive(Clone, Copy, Debug, PartialEq, Eq, Structural)]
pub enum BlurStage {
    /// The pass down the columns, from the input into the intermediate image.
    Vertical,
    /// The pass along the rows, from the intermediate into the output image.
    Horizontal,
}

impl BlurStage {
    /// The stage that follows, if one does.
    pub open spec fn spec_next(self) -> Option<BlurStage> {
        match self {
            BlurStage::Vertical => Some(BlurStage::Horizontal),
            BlurStage::Horizontal => None,
        }
    }

    /// The stage that follows, if one does.
    pub fn next(self) -> (next: Option<BlurStage>)
        ensures
            next == self.spec_next(),
    {
        match self {
            BlurStage::Vertical => Some(BlurStage::Horizontal),
            BlurStage::Horizontal => None,
        }
    }

    /// The word that tells the kernel which way to sweep.
    pub open spec fn spec_orientation(self) -> u32 {
        match self {
            BlurStage::Vertical => 1,
            BlurStage::Horizontal => 0,
        }
    }

    /// The word that tells the kernel which way to sweep.
    pub fn orientation(self) -> (flag: u32)
        ensures
            flag == self.spec_orientation(),
    {
        match self {
            BlurStage::Vertical => 1,
            BlurStage::Horizontal => 0,
        }
    }

    /// The image that the stage reads.
    pub open spec fn source(self) -> ImageSlot {
        match self {
            BlurStage::Vertical => ImageSlot::Input,
            BlurStage::Horizontal => ImageSlot::Intermediate,
        }
    }

    /// The image that the stage writes.
    pub open spec fn target(self) -> ImageSlot {
        match self {
            BlurStage::Vertical => ImageSlot::Intermediate,
            BlurStage::Horizontal => ImageSlot::Output,
        }
    }

    /// The buffer that holds the orientation of the stage.
    pub open spec fn flag(self) -> BufferSlot {
        match self {
            BlurStage::Vertical => BufferSlot::Vertical,
            BlurStage::Horizontal => BufferSlot::Horizontal,
        }
    }

    /// Width and height of the tile of pixels that one workgroup of the
    /// stage takes.
    pub open spec fn spec_workgroup_size(self) -> (u32, u32) {
        match self {
            BlurStage::Vertical => (BLUR_WORKGROUP_LENGTH, 1),
            BlurStage::Horizontal => (1, BLUR_WORKGROUP_LENGTH),
        }
    }

    /// Width and height of the tile of pixels that one workgroup of the
    /// stage takes.
    pub fn workgroup_size(self) -> (size: (u32, u32))
        ensures
            size == self.spec_workgroup_size(),
    {
        match self {
            BlurStage::Vertical => (BLUR_WORKGROUP_LENGTH, 1),
            BlurStage::Horizontal => (1, BLUR_WORKGROUP_LENGTH),
        }
    }

    /// The bind group of the stage: its source read at binding 0, its target
    /// written at binding 1, its orientation at binding 2; with the layout of
    /// group 1.
    pub open spec fn spec_bind_group(self) -> BindGroupSpec {
        BindGroupSpec {
            layout: 1,
            entries: seq![sampled(0, self.source()), stored(1, self.target()), uniform(
                2,
                self.flag(),
            )],
        }
    }

    /// The bind group of the stage.
    pub fn bind_group(self) -> (group: BindGroupDescriptor)
        ensures
            group@ == self.spec_bind_group(),
    {
        let (source, target, flag) = match self {
            BlurStage::Vertical => (
                ImageSlot::Input,
                ImageSlot::Intermediate,
                BufferSlot::Vertical,
            ),
            BlurStage::Horizontal => (
                ImageSlot::Intermediate,
                ImageSlot::Output,
                BufferSlot::Horizontal,
            ),
        };
        let group = BindGroupDescriptor {
            layout: 1,
            entries: vec![
                BindGroupEntry {
                    binding: 0,
                    kind: BindingKind::SampledTexture,
                    resource: BindingResource::TextureView(source),
                },
                BindGroupEntry {
                    binding: 1,
                    kind: BindingKind::StorageTexture,
                    resource: BindingResource::TextureView(target),
                },
                BindGroupEntry {
                    binding: 2,
                    kind: BindingKind::UniformBuffer,
                    resource: BindingResource::Buffer(flag),
                },
            ],
        };
        assert(group@.entries =~= self.spec_bind_group().entries);
        group
    }

    /// The workgroups that the stage dispatches over an image of `width` by
    /// `height` pixels. The tiles of the stage are counted over the image;
    /// the vertical stage dispatches those counts as they are, the
    /// horizontal stage, which sweeps the other way, with the two exchanged.
    pub open spec fn spec_dispatch(self, width: u32, height: u32) -> ComputeCommand {
        let tile = self.spec_workgroup_size();
        let across = ceil_div(width as int, tile.0 as int) as u32;
        let down = ceil_div(height as int, tile.1 as int) as u32;
        match self {
            BlurStage::Vertical => ComputeCommand::DispatchWorkgroups { x: across, y: down, z: 1 },
            BlurStage::Horizontal => ComputeCommand::DispatchWorkgroups {
                x: down,
                y: across,
                z: 1,
            },
        }
    }

    /// The workgroups that the stage dispatches over an image of `width` by
    /// `height` pixels.
    pub fn dispatch(self, width: u32, height: u32) -> (command: ComputeCommand)
        ensures
            command == self.spec_dispatch(width, height),
    {
        let (across, down) = compute_work_group_count((width, height), self.workgroup_size());
        match self {
            BlurStage::Vertical => ComputeCommand::DispatchWorkgroups { x: across, y: down, z: 1 },
            BlurStage::Horizontal => ComputeCommand::DispatchWorkgroups {
                x: down,
                y: across,
                z: 1,
            },
        }
    }
}

/// What is encoded before any stage: the bind group of the constants, with
/// the layout of group 0, which holds the size of the kernel as a uniform and
/// the kernel as storage; the pipeline; and the constants bound at group 0.
pub open spec fn blur_setup() -> ComputePassSpec {
    ComputePassSpec {
        bind_groups: seq![
            BindGroupSpec {
                layout: 0,
                entries: seq![uniform(0, BufferSlot::Settings), storage(1, BufferSlot::Kernel)],
            },
        ],
        commands: seq![
            ComputeCommand::SetPipeline,
            ComputeCommand::SetBindGroup { index: 0, bind_group: 0 },
        ],
    }
}

/// `pass` with `stage` encoded behind it: the bind group of the stage is
/// created and bound at group 1, and its workgroups are dispatched.
pub open spec fn with_stage(pass: ComputePassSpec, stage: BlurStage, width: u32, height: u32)
    -> ComputePassSpec {
    ComputePassSpec {
        bind_groups: pass.bind_groups.push(stage.spec_bind_group()),
        commands: pass.commands.push(
            ComputeCommand::SetBindGroup { index: 1, bind_group: pass.bind_groups.len() as usize },
        ).push(stage.spec_dispatch(width, height)),
    }
}

/// What is encoded when `stage` comes next, or when none does: the setup,
/// and every stage before `stage` in the order in which the stages run.
pub open spec fn encoded_before(stage: Option<BlurStage>, width: u32, height: u32)
    -> ComputePassSpec {
    match stage {
        Some(BlurStage::Vertical) => blur_setup(),
        Some(BlurStage::Horizontal) => with_stage(
            blur_setup(),
            BlurStage::Vertical,
            width,
            height,
        ),
        None => with_stage(
            with_stage(blur_setup(), BlurStage::Vertical, width, height),
            BlurStage::Horizontal,
            width,
            height,
        ),
    }
}

/// Stages that are still to be encoded when `stage` comes next.
pub open spec fn stages_left(stage: Option<BlurStage>) -> nat {
    match stage {
        Some(BlurStage::Vertical) => 2,
        Some(BlurStage::Horizontal) => 1,
        None => 0,
    }
}

/// The Gaussian blur filter for images of one size and one kernel, over
/// weights of type `W`.
pub struct GaussianBlur<W> {
    /// The image between the two passes.
    pub vertical_pass_image: WgImageBuffer,
    /// The image that holds the result after `run`.
    pub output_image: WgImageBuffer,
    /// What the settings buffer holds: the number of weights, as one word.
    pub settings: Vec<u8>,
    /// What the kernel buffer holds: the sum of the weights, then the
    /// weights.
    pub kernel: Vec<W>,
    /// What the orientation buffer of the vertical pass holds.
    pub vertical: Vec<u8>,
    /// What the orientation buffer of the horizontal pass holds.
    pub horizontal: Vec<u8>,
}

impl<W: Copy> GaussianBlur<W> {
    /// Whether the filter is as `new` makes it for some size and kernel.
    pub open spec fn well_formed(self) -> bool {
        &&& self.vertical_pass_image.texture_usage == storage_usage()
        &&& self.output_image.texture_usage == storage_usage()
        &&& self.vertical_pass_image.texture_extent == self.output_image.texture_extent
        &&& self.output_image.texture_extent.depth_or_array_layers == 1
        &&& self.kernel@.len() >= 1
        &&& self.kernel@.len() - 1 <= u32::MAX
        &&& is_memory_of_words(self.settings@, seq![(self.kernel@.len() - 1) as u32])
        &&& is_memory_of_words(self.vertical@, seq![BlurStage::Vertical.spec_orientation()])
        &&& is_memory_of_words(self.horizontal@, seq![BlurStage::Horizontal.spec_orientation()])
    }

    /// The filter for images of `width` by `height` pixels that convolves
    /// with `kernel`: an intermediate and an output image of that size, and
    /// what its four parameter buffers hold.
    pub fn new(width: u32, height: u32, kernel: &Kernel<W>) -> (filter: GaussianBlur<W>)
        requires
            kernel.values@.len() <= u32::MAX,
        ensures
            filter.vertical_pass_image.texture_extent == extent_2d(width, height),
            filter.output_image.texture_extent == extent_2d(width, height),
            filter.kernel@ == kernel.packed(),
            is_memory_of_words(filter.settings@, seq![kernel.values@.len() as u32]),
            is_memory_of_words(filter.vertical@, seq![1u32]),
            is_memory_of_words(filter.horizontal@, seq![0u32]),
            filter.settings@.len() == 4,
            filter.vertical@.len() == 4,
            filter.horizontal@.len() == 4,
            filter.well_formed(),
    {
        let kernel_size: u32 = kernel.size() as u32;
        let vertical_pass_image = WgImageBuffer::from_size(width, height);
        let horizontal_pass_image = WgImageBuffer::from_size(width, height);
        let settings = word_to_bytes(kernel_size);
        let vertical = word_to_bytes(BlurStage::Vertical.orientation());
        let horizontal = word_to_bytes(BlurStage::Horizontal.orientation());
        GaussianBlur {
            vertical_pass_image,
            output_image: horizontal_pass_image,
            settings,
            kernel: kernel.packed_data(),
            vertical,
            horizontal,
        }
    }

    /// The usages of the buffer that stands in `slot`.
    pub open spec fn spec_buffer_usage() -> spec_fn(BufferSlot) -> BufferUsages {
        |slot: BufferSlot|
            match slot {
                BufferSlot::Kernel => kernel_usage(),
                _ => uniform_usage(),
            }
    }

    /// The usages with which the buffer that stands in `slot` is created:
    /// the kernel as storage that can be written to, the others as uniforms.
    pub fn buffer_usage(slot: BufferSlot) -> (usage: BufferUsages)
        ensures
            usage == Self::spec_buffer_usage()(slot),
    {
        match slot {
            BufferSlot::Kernel => BufferUsages {
                map_read: false,
                copy_dst: true,
                uniform: false,
                storage: true,
            },
            _ => BufferUsages { map_read: false, copy_dst: false, uniform: true, storage: false },
        }
    }

    /// The usages of the texture that stands in `slot` when the filter runs
    /// on `input_image`.
    pub open spec fn texture_usage(self, input_image: WgImageBuffer) -> spec_fn(
        ImageSlot,
    ) -> TextureUsages {
        |slot: ImageSlot|
            match slot {
                ImageSlot::Input => input_image.texture_usage,
                ImageSlot::Intermediate => self.vertical_pass_image.texture_usage,
                ImageSlot::Output => self.output_image.texture_usage,
            }
    }

    /// What one run on `input_image` encodes: the setup, then the vertical
    /// stage, then the horizontal stage, each dispatched over the extent of
    /// the input.
    pub open spec fn spec_run(input_image: WgImageBuffer) -> ComputePassSpec {
        encoded_before(None, input_image.width(), input_image.height())
    }

    /// Whether every texture and buffer can go into the binding that a run
    /// on `input_image` puts it in: a shader can read the input, read and
    /// write the intermediate image, and write the output.
    pub open spec fn accepts(self, input_image: WgImageBuffer) -> bool {
        Self::spec_run(input_image).supported_by(
            self.texture_usage(input_image),
            Self::spec_buffer_usage(),
        )
    }

    /// The pass that one run on `input_image` encodes and submits: both
    /// stages in one compute pass, the vertical one first. There is none
    /// where a texture cannot go into its binding.
    pub fn run(&self, input_image: &WgImageBuffer) -> (pass: Option<ComputePass>)
        ensures
            pass.is_some() <==> self.accepts(*input_image),
            pass matches Some(encoded) ==> encoded@ == Self::spec_run(*input_image),
    {
        proof {
            lemma_blur_accepts(*self, *input_image);
        }
        if !input_image.texture_usage.texture_binding
            || !self.vertical_pass_image.texture_usage.storage_binding
            || !self.vertical_pass_image.texture_usage.texture_binding
            || !self.output_image.texture_usage.storage_binding {
            return None;
        }
        let width = input_image.texture_extent.width;
        let height = input_image.texture_extent.height;
        let compute_constants = BindGroupDescriptor {
            layout: 0,
            entries: vec![
                BindGroupEntry {
                    binding: 0,
                    kind: BindingKind::UniformBuffer,
                    resource: BindingResource::Buffer(BufferSlot::Settings),
                },
                BindGroupEntry {
                    binding: 1,
                    kind: BindingKind::StorageBuffer,
                    resource: BindingResource::Buffer(BufferSlot::Kernel),
                },
            ],
        };
        let mut pass = ComputePass {
            bind_groups: vec![compute_constants],
            commands: vec![
                ComputeCommand::SetPipeline,
                ComputeCommand::SetBindGroup { index: 0, bind_group: 0 },
            ],
        };
        let mut stage = Some(BlurStage::Vertical);
        proof {
            assert(pass@.bind_groups[0].entries =~= blur_setup().bind_groups[0].entries);
            assert(pass@.bind_groups =~= blur_setup().bind_groups);
            assert(pass@.commands =~= blur_setup().commands);
        }
        while stage.is_some()
            invariant
                pass@ == encoded_before(stage, width, height),
            decreases stages_left(stage),
        {
            let current = stage.unwrap();
            let ghost before = pass@;
            let place = pass.bind_groups.len();
            pass.bind_groups.push(current.bind_group());
            pass.commands.push(ComputeCommand::SetBindGroup { index: 1, bind_group: place });
            pass.commands.push(current.dispatch(width, height));
            stage = current.next();
            proof {
                let after = with_stage(before, current, width, height);
                assert(pass@.bind_groups =~= after.bind_groups);
                assert(pass@.commands =~= after.commands);
            }
        }
        Some(pass)
    }
}

/// The four bytes of `word` as they lie in memory: what a uniform of one
/// word holds.
fn word_to_bytes(word: u32) -> (bytes: Vec<u8>)
    ensures
        is_memory_of_words(bytes@, seq![word]),
{
    let words = vec![word];
    assert(words@ =~= seq![word]);
    slice_to_vec(cast_words(words.as_slice()))
}

/// The stages hand the image on: what a stage writes is what the stage after
/// it reads. The first stage reads the input, and the stage that nothing
/// follows writes the output.
pub proof fn lemma_stages_chain(stage: BlurStage)
    ensures
        stage.spec_next() matches Some(next) ==> next.source() == stage.target(),
        stage.spec_next() is None ==> stage.target() == ImageSlot::Output,
        BlurStage::Vertical.source() == ImageSlot::Input,
        stage.target() != stage.source(),
{
}

/// A run of the blur, written out: three bind groups, and in one pass the
/// vertical stage over 128 by 1 tiles of the image, then the horizontal stage
/// over 1 by 128 tiles with the two counts exchanged.
pub proof fn lemma_blur_run_unfolds<W: Copy>(input_image: WgImageBuffer)
    ensures
        GaussianBlur::<W>::spec_run(input_image).bind_groups == seq![
            blur_setup().bind_groups[0],
            BlurStage::Vertical.spec_bind_group(),
            BlurStage::Horizontal.spec_bind_group(),
        ],
        GaussianBlur::<W>::spec_run(input_image).commands == seq![
            ComputeCommand::SetPipeline,
            ComputeCommand::SetBindGroup { index: 0, bind_group: 0 },
            ComputeCommand::SetBindGroup { index: 1, bind_group: 1 },
            ComputeCommand::DispatchWorkgroups {
                x: ceil_div(input_image.width() as int, 128) as u32,
                y: input_image.height(),
                z: 1,
            },
            ComputeCommand::SetBindGroup { index: 1, bind_group: 2 },
            ComputeCommand::DispatchWorkgroups {
                x: ceil_div(input_image.height() as int, 128) as u32,
                y: input_image.width(),
                z: 1,
            },
        ],
{
    let run = GaussianBlur::<W>::spec_run(input_image);
    lemma_ceil_div_tight(input_image.width() as int, 1);
    lemma_ceil_div_tight(input_image.height() as int, 1);
    assert(ceil_div(input_image.width() as int, 1) == input_image.width());
    assert(ceil_div(input_image.height() as int, 1) == input_image.height());
    assert(run.bind_groups =~= seq![
        blur_setup().bind_groups[0],
        BlurStage::Vertical.spec_bind_group(),
        BlurStage::Horizontal.spec_bind_group(),
    ]);
    assert(run.commands =~= seq![
        ComputeCommand::SetPipeline,
        ComputeCommand::SetBindGroup { index: 0, bind_group: 0 },
        ComputeCommand::SetBindGroup { index: 1, bind_group: 1 },
        ComputeCommand::DispatchWorkgroups {
            x: ceil_div(input_image.width() as int, 128) as u32,
            y: input_image.height(),
            z: 1,
        },
        ComputeCommand::SetBindGroup { index: 1, bind_group: 2 },
        ComputeCommand::DispatchWorkgroups {
            x: ceil_div(input_image.height() as int, 128) as u32,
            y: input_image.width(),
            z: 1,
        },
    ]);
}

/// Each stage dispatches enough lines of 128 invocations to reach every
/// pixel, and no line more: along the rows for the vertical stage, and, the
/// axes exchanged, along the columns for the horizontal stage.
pub proof fn lemma_blur_dispatch_covers(stage: BlurStage, width: u32, height: u32)
    ensures
        stage.spec_dispatch(width, height) matches ComputeCommand::DispatchWorkgroups { x, y, z }
            && z == 1 && match stage {
            BlurStage::Vertical => x * 128 >= width && (x - 1) * 128 < width && y == height,
            BlurStage::Horizontal => x * 128 >= height && (x - 1) * 128 < height && y == width,
        },
{
    lemma_ceil_div_tight(width as int, 128);
    lemma_ceil_div_tight(height as int, 128);
    lemma_ceil_div_tight(width as int, 1);
    lemma_ceil_div_tight(height as int, 1);
}

/// The blur accepts an input exactly when a shader can read the input, read
/// and write the intermediate image, and write the output.
pub proof fn lemma_blur_accepts<W: Copy>(filter: GaussianBlur<W>, input_image: WgImageBuffer)
    ensures
        filter.accepts(input_image) <==> input_image.texture_usage.texture_binding
            && filter.vertical_pass_image.texture_usage.storage_binding
            && filter.vertical_pass_image.texture_usage.texture_binding
            && filter.output_image.texture_usage.storage_binding,
{
    let run = GaussianBlur::<W>::spec_run(input_image);
    lemma_blur_run_unfolds::<W>(input_image);
    if filter.accepts(input_image) {
        assert(run.bind_groups[1].entries[0] == sampled(0, ImageSlot::Input));
        assert(run.bind_groups[1].entries[1] == stored(1, ImageSlot::Intermediate));
        assert(run.bind_groups[2].entries[0] == sampled(0, ImageSlot::Intermediate));
        assert(run.bind_groups[2].entries[1] == stored(1, ImageSlot::Output));
    }
}

/// A run of the blur is in order, and a filter as `new` makes it accepts
/// every input that a shader can read.
pub proof fn lemma_blur_run_is_valid<W: Copy>(filter: GaussianBlur<W>, input_image: WgImageBuffer)
    requires
        filter.well_formed(),
        input_image.texture_usage.texture_binding,
    ensures
        GaussianBlur::<W>::spec_run(input_image).well_formed(),
        filter.accepts(input_image),
{
    lemma_blur_run_unfolds::<W>(input_image);
    lemma_blur_accepts(filter, input_image);
}

} // verus!
