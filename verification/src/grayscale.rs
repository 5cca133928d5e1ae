//! The grayscale filter: one pass that reads the input image and writes its
//! achromatic version into the filter's output image.

use vstd::prelude::*;
use crate::buffer::{extent_2d, no_buffer_usage, storage_usage, TextureUsages, WgImageBuffer};
use crate::pipeline::{
    pointwise_commands, sampled, stored, texture_pair, texture_pair_entries, BindGroupDescriptor,
    BindGroupSpec, BufferSlot, ComputeCommand, ComputePass, ComputePassSpec, ImageSlot,
    POINTWISE_WORKGROUP_SIZE,
};
use crate::utils::compute_work_group_count;

verus! {

/// The grayscale filter for images of one size.
#[derive(Clone, Copy, Debug, PartialEq, Eq, Structural)]
pub struct GrayScale {
    /// The image that holds the result after `run`.
    pub output_image: WgImageBuffer,
}

impl GrayScale {
    /// Whether the filter is as `new` makes it for some size.
    pub open spec fn well_formed(self) -> bool {
        &&& self.output_image.texture_usage == storage_usage()
        &&& self.output_image.texture_extent.depth_or_array_layers == 1
    }

    /// The filter for images of `width` by `height` pixels, with an output
    /// image of that size that passes can write and that can be read back.
    pub fn new(width: u32, height: u32) -> (filter: GrayScale)
        ensures
            filter.output_image.texture_extent == extent_2d(width, height),
            filter.output_image.texture_usage == storage_usage(),
            filter.well_formed(),
    {
        GrayScale { output_image: WgImageBuffer::from_size(width, height) }
    }

    /// What one run on `input_image` encodes: one bind group with the layout
    /// of group 0, which reads the input and writes the output, and one pass
    /// that dispatches 16 by 16 tiles over the extent of the input.
    pub open spec fn spec_run(input_image: WgImageBuffer) -> ComputePassSpec {
        ComputePassSpec {
            bind_groups: seq![
                BindGroupSpec {
                    layout: 0,
                    entries: texture_pair(ImageSlot::Input, ImageSlot::Output),
                },
            ],
            commands: pointwise_commands(1, input_image.width(), input_image.height()),
        }
    }

    /// The usages of the texture that stands in `slot` when the filter runs
    /// on `input_image`.
    pub open spec fn texture_usage(self, input_image: WgImageBuffer) -> spec_fn(
        ImageSlot,
    ) -> TextureUsages {
        |slot: ImageSlot|
            match slot {
                ImageSlot::Input => input_image.texture_usage,
                _ => self.output_image.texture_usage,
            }
    }

    /// Whether every texture can go into the binding that a run on
    /// `input_image` puts it in: the input can be read by a shader, and the
    /// output written by one.
    pub open spec fn accepts(self, input_image: WgImageBuffer) -> bool {
        Self::spec_run(input_image).supported_by(
            self.texture_usage(input_image),
            |slot: BufferSlot| no_buffer_usage(),
        )
    }

    /// The pass that one run on `input_image` encodes and submits, or nothing
    /// where a texture cannot go into its binding.
    pub fn run(&self, input_image: &WgImageBuffer) -> (pass: Option<ComputePass>)
        ensures
            pass.is_some() <==> self.accepts(*input_image),
            pass matches Some(encoded) ==> encoded@ == Self::spec_run(*input_image),
    {
        proof {
            lemma_grayscale_accepts(*self, *input_image);
        }
        if !input_image.texture_usage.texture_binding
            || !self.output_image.texture_usage.storage_binding {
            return None;
        }
        let (dispatch_width, dispatch_height) = compute_work_group_count(
            (input_image.texture_extent.width, input_image.texture_extent.height),
            (POINTWISE_WORKGROUP_SIZE, POINTWISE_WORKGROUP_SIZE),
        );
        let bind_group = BindGroupDescriptor {
            layout: 0,
            entries: texture_pair_entries(ImageSlot::Input, ImageSlot::Output),
        };
        let pass = ComputePass {
            bind_groups: vec![bind_group],
            commands: vec![
                ComputeCommand::SetPipeline,
                ComputeCommand::SetBindGroup { index: 0, bind_group: 0 },
                ComputeCommand::DispatchWorkgroups {
                    x: dispatch_width,
                    y: dispatch_height,
                    z: 1,
                },
            ],
        };
        proof {
            let spec = Self::spec_run(*input_image);
            assert(pass@.bind_groups =~= spec.bind_groups);
            assert(pass@.commands =~= spec.commands);
        }
        Some(pass)
    }
}

/// The grayscale filter accepts an input exactly when a shader can read the
/// input and write the output.
pub proof fn lemma_grayscale_accepts(filter: GrayScale, input_image: WgImageBuffer)
    ensures
        filter.accepts(input_image) <==> input_image.texture_usage.texture_binding
            && filter.output_image.texture_usage.storage_binding,
{
    let run = GrayScale::spec_run(input_image);
    if filter.accepts(input_image) {
        assert(run.bind_groups[0].entries[0] == sampled(0, ImageSlot::Input));
        assert(run.bind_groups[0].entries[1] == stored(1, ImageSlot::Output));
    }
}

/// A run of the grayscale filter is in order, and a filter as `new` makes it
/// accepts every input that a shader can read.
pub proof fn lemma_grayscale_run_is_valid(filter: GrayScale, input_image: WgImageBuffer)
    requires
        filter.well_formed(),
        input_image.texture_usage.texture_binding,
    ensures
        GrayScale::spec_run(input_image).well_formed(),
        filter.accepts(input_image),
{
    lemma_grayscale_accepts(filter, input_image);
}

} // verus!
