//! The threshold filter: one pass that turns every pixel of the input image
//! black or white, by a cutoff, into the filter's output image.

use vstd::prelude::*;
use crate::buffer::{
    extent_2d, no_buffer_usage, storage_usage, uniform_usage, BufferUsages, TextureUsages,
    WgImageBuffer,
};
use crate::pipeline::{
    pointwise_commands, sampled, stored, texture_pair, texture_pair_entries, uniform,
    BindGroupDescriptor, BindGroupEntry, BindGroupSpec, BindingKind, BindingResource,
    BufferSlot, ComputeCommand, ComputePass, ComputePassSpec, ImageSlot,
    POINTWISE_WORKGROUP_SIZE,
};
use crate::utils::compute_work_group_count;

verus! {

/// The channel value that stands for 1 when the cutoff is normalised: the
/// kernel compares against the cutoff divided by this.
pub const CUTOFF_SCALE: u32 = 255;

/// The threshold filter for images of one size and one cutoff.
#[derive(Clone, Copy, Debug, PartialEq, Eq, Structural)]
pub struct Threshold {
    /// The image that holds the result after `run`.
    pub output_image: WgImageBuffer,
    /// The cutoff, on the scale of a channel value.
    pub threshold: u32,
}

impl Threshold {
    /// Whether the output image is as `new` makes it for some size.
    pub open spec fn well_formed(self) -> bool {
        &&& self.output_image.texture_usage == storage_usage()
        &&& self.output_image.texture_extent.depth_or_array_layers == 1
    }

    /// The filter for images of `width` by `height` pixels that cuts at
    /// `threshold` of 255, with an output image of that size that passes can
    /// write and that can be read back.
    pub fn new(width: u32, height: u32, threshold: u32) -> (filter: Threshold)
        ensures
            filter.output_image.texture_extent == extent_2d(width, height),
            filter.output_image.texture_usage == storage_usage(),
            filter.threshold == threshold,
            filter.well_formed(),
    {
        Threshold { output_image: WgImageBuffer::from_size(width, height), threshold }
    }

    /// The usages of the buffer that holds the normalised cutoff: a uniform.
    pub fn settings_usage(&self) -> (usage: BufferUsages)
        ensures
            usage == uniform_usage(),
    {
        BufferUsages { map_read: false, copy_dst: false, uniform: true, storage: false }
    }

    /// What one run on `input_image` encodes: a bind group with the layout of
    /// group 0 that holds the cutoff, a bind group with the layout of group 1
    /// that reads the input and writes the output, and one pass that
    /// dispatches 16 by 16 tiles over the extent of the input.
    pub open spec fn spec_run(input_image: WgImageBuffer) -> ComputePassSpec {
        ComputePassSpec {
            bind_groups: seq![
                BindGroupSpec { layout: 0, entries: seq![uniform(0, BufferSlot::Settings)] },
                BindGroupSpec {
                    layout: 1,
                    entries: texture_pair(ImageSlot::Input, ImageSlot::Output),
                },
            ],
            commands: pointwise_commands(2, input_image.width(), input_image.height()),
        }
    }

    /// The usages of the texture that stands in `slot` when the filter runs
    /// on `input_image`.
    pub open spec fn texture_usage(self, input_image: WgImageBuffer) -> spec_fn(
        ImageSlot,
    ) -> TextureUsages {
        |slot: ImageSlot|
            match slot {
                ImageSlot::Input => input_image.texture_usage,
                _ => self.output_image.texture_usage,
            }
    }

    /// The usages of the buffer that stands in `slot`.
    pub open spec fn buffer_usage() -> spec_fn(BufferSlot) -> BufferUsages {
        |slot: BufferSlot|
            match slot {
                BufferSlot::Settings => uniform_usage(),
                _ => no_buffer_usage(),
            }
    }

    /// Whether every texture and buffer can go into the binding that a run
    /// on `input_image` puts it in: the input can be read by a shader, and
    /// the output written by one.
    pub open spec fn accepts(self, input_image: WgImageBuffer) -> bool {
        Self::spec_run(input_image).supported_by(
            self.texture_usage(input_image),
            Self::buffer_usage(),
        )
    }

    /// The pass that one run on `input_image` encodes and submits, or nothing
    /// where a texture cannot go into its binding.
    pub fn run(&self, input_image: &WgImageBuffer) -> (pass: Option<ComputePass>)
        ensures
            pass.is_some() <==> self.accepts(*input_image),
            pass matches Some(encoded) ==> encoded@ == Self::spec_run(*input_image),
    {
        proof {
            lemma_threshold_accepts(*self, *input_image);
        }
        if !input_image.texture_usage.texture_binding
            || !self.output_image.texture_usage.storage_binding {
            return None;
        }
        let compute_constants = BindGroupDescriptor {
            layout: 0,
            entries: vec![
                BindGroupEntry {
                    binding: 0,
                    kind: BindingKind::UniformBuffer,
                    resource: BindingResource::Buffer(BufferSlot::Settings),
                },
            ],
        };
        let image_bind_group = BindGroupDescriptor {
            layout: 1,
            entries: texture_pair_entries(ImageSlot::Input, ImageSlot::Output),
        };
        let (dispatch_width, dispatch_height) = compute_work_group_count(
            (input_image.texture_extent.width, input_image.texture_extent.height),
            (POINTWISE_WORKGROUP_SIZE, POINTWISE_WORKGROUP_SIZE),
        );
        let pass = ComputePass {
            bind_groups: vec![compute_constants, image_bind_group],
            commands: vec![
                ComputeCommand::SetPipeline,
                ComputeCommand::SetBindGroup { index: 0, bind_group: 0 },
                ComputeCommand::SetBindGroup { index: 1, bind_group: 1 },
                ComputeCommand::DispatchWorkgroups {
                    x: dispatch_width,
                    y: dispatch_height,
                    z: 1,
                },
            ],
        };
        proof {
            let spec = Self::spec_run(*input_image);
            assert(pass@.bind_groups[0].entries =~= spec.bind_groups[0].entries);
            assert(pass@.bind_groups =~= spec.bind_groups);
            assert(pass@.commands =~= spec.commands);
        }
        Some(pass)
    }
}

/// The threshold filter accepts an input exactly when a shader can read the
/// input and write the output.
pub proof fn lemma_threshold_accepts(filter: Threshold, input_image: WgImageBuffer)
    ensures
        filter.accepts(input_image) <==> input_image.texture_usage.texture_binding
            && filter.output_image.texture_usage.storage_binding,
{
    let run = Threshold::spec_run(input_image);
    if filter.accepts(input_image) {
        assert(run.bind_groups[1].entries[0] == sampled(0, ImageSlot::Input));
        assert(run.bind_groups[1].entries[1] == stored(1, ImageSlot::Output));
    }
}

/// A run of the threshold filter is in order, and a filter as `new` makes it
/// accepts every input that a shader can read.
pub proof fn lemma_threshold_run_is_valid(filter: Threshold, input_image: WgImageBuffer)
    requires
        filter.well_formed(),
        input_image.texture_usage.texture_binding,
    ensures
        Threshold::spec_run(input_image).well_formed(),
        filter.accepts(input_image),
{
    lemma_threshold_accepts(filter, input_image);
}

} // verus!
