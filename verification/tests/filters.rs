use wgimage::{
    create_kernel, BindGroupDescriptor, BindGroupEntry, BindingKind, BindingResource, BlurStage,
    BufferSlot, BufferUsages, ComputeCommand, Extent3d, GaussianBlur, GrayScale, HostImage,
    ImageSlot, Kernel, TextureUsages, Threshold, WgImageBuffer, CUTOFF_SCALE,
};

fn read(binding: u32, slot: ImageSlot) -> BindGroupEntry {
    BindGroupEntry {
        binding,
        kind: BindingKind::SampledTexture,
        resource: BindingResource::TextureView(slot),
    }
}

fn write(binding: u32, slot: ImageSlot) -> BindGroupEntry {
    BindGroupEntry {
        binding,
        kind: BindingKind::StorageTexture,
        resource: BindingResource::TextureView(slot),
    }
}

fn uniform(binding: u32, slot: BufferSlot) -> BindGroupEntry {
    BindGroupEntry {
        binding,
        kind: BindingKind::UniformBuffer,
        resource: BindingResource::Buffer(slot),
    }
}

fn storage_image() -> TextureUsages {
    TextureUsages { copy_src: true, copy_dst: false, texture_binding: true, storage_binding: true }
}

fn box_kernel(radius: u32) -> Kernel<u32> {
    create_kernel(radius, |_| 1u32, 0u32, |a, b| a + b)
}

#[test]
fn grayscale_output_has_the_size_asked_for() {
    let filter = GrayScale::new(1920, 1080);
    assert_eq!(
        filter.output_image.texture_extent,
        Extent3d { width: 1920, height: 1080, depth_or_array_layers: 1 }
    );
    assert_eq!(filter.output_image.texture_usage, storage_image());
}

#[test]
fn grayscale_runs_one_pass_over_sixteen_by_sixteen_tiles() {
    let filter = GrayScale::new(1920, 1080);
    let pass = filter.run(&WgImageBuffer::from_size(1920, 1080)).unwrap();
    assert_eq!(
        pass.bind_groups,
        vec![BindGroupDescriptor {
            layout: 0,
            entries: vec![read(0, ImageSlot::Input), write(1, ImageSlot::Output)],
        }]
    );
    assert_eq!(
        pass.commands,
        vec![
            ComputeCommand::SetPipeline,
            ComputeCommand::SetBindGroup { index: 0, bind_group: 0 },
            ComputeCommand::DispatchWorkgroups { x: 120, y: 68, z: 1 },
        ]
    );
}

#[test]
fn grayscale_dispatch_follows_the_input() {
    let filter = GrayScale::new(8, 8);
    let image = HostImage::from_raw(33, 17, vec![0; 33 * 17 * 4]).unwrap();
    let pass = filter.run(&WgImageBuffer::from_host_image_readonly(&image)).unwrap();
    assert_eq!(
        pass.commands.last(),
        Some(&ComputeCommand::DispatchWorkgroups { x: 3, y: 2, z: 1 })
    );
}

#[test]
fn grayscale_run_is_the_same_every_time() {
    let filter = GrayScale::new(100, 50);
    let input = WgImageBuffer::from_size(100, 50);
    assert_eq!(filter.run(&input), filter.run(&input));
    assert!(filter.run(&input).is_some());
}

#[test]
fn threshold_keeps_its_cutoff() {
    let filter = Threshold::new(640, 480, 128);
    assert_eq!(filter.threshold, 128);
    assert_eq!(CUTOFF_SCALE, 255);
    assert_eq!(
        filter.output_image.texture_extent,
        Extent3d { width: 640, height: 480, depth_or_array_layers: 1 }
    );
    assert_eq!(filter.output_image.texture_usage, storage_image());
    assert_eq!(
        filter.settings_usage(),
        BufferUsages { map_read: false, copy_dst: false, uniform: true, storage: false }
    );
}

#[test]
fn threshold_binds_the_cutoff_before_the_textures() {
    let filter = Threshold::new(640, 480, 128);
    let pass = filter.run(&WgImageBuffer::from_size(640, 480)).unwrap();
    assert_eq!(
        pass.bind_groups,
        vec![
            BindGroupDescriptor { layout: 0, entries: vec![uniform(0, BufferSlot::Settings)] },
            BindGroupDescriptor {
                layout: 1,
                entries: vec![read(0, ImageSlot::Input), write(1, ImageSlot::Output)],
            },
        ]
    );
    assert_eq!(
        pass.commands,
        vec![
            ComputeCommand::SetPipeline,
            ComputeCommand::SetBindGroup { index: 0, bind_group: 0 },
            ComputeCommand::SetBindGroup { index: 1, bind_group: 1 },
            ComputeCommand::DispatchWorkgroups { x: 40, y: 30, z: 1 },
        ]
    );
}

#[test]
fn threshold_dispatch_rounds_up() {
    let filter = Threshold::new(1, 1, 0);
    let pass = filter.run(&WgImageBuffer::from_size(641, 1)).unwrap();
    assert_eq!(
        pass.commands.last(),
        Some(&ComputeCommand::DispatchWorkgroups { x: 41, y: 1, z: 1 })
    );
}

#[test]
fn blur_stages_run_vertical_then_horizontal() {
    assert_eq!(BlurStage::Vertical.next(), Some(BlurStage::Horizontal));
    assert_eq!(BlurStage::Horizontal.next(), None);
    assert_eq!(BlurStage::Vertical.orientation(), 1);
    assert_eq!(BlurStage::Horizontal.orientation(), 0);
    assert_eq!(BlurStage::Vertical.workgroup_size(), (128, 1));
    assert_eq!(BlurStage::Horizontal.workgroup_size(), (1, 128));
}

#[test]
fn blur_stage_bind_groups_hand_the_image_on() {
    assert_eq!(
        BlurStage::Vertical.bind_group(),
        BindGroupDescriptor {
            layout: 1,
            entries: vec![
                read(0, ImageSlot::Input),
                write(1, ImageSlot::Intermediate),
                uniform(2, BufferSlot::Vertical),
            ],
        }
    );
    assert_eq!(
        BlurStage::Horizontal.bind_group(),
        BindGroupDescriptor {
            layout: 1,
            entries: vec![
                read(0, ImageSlot::Intermediate),
                write(1, ImageSlot::Output),
                uniform(2, BufferSlot::Horizontal),
            ],
        }
    );
}

#[test]
fn blur_stage_dispatch_exchanges_the_counts_for_the_horizontal_sweep() {
    assert_eq!(
        BlurStage::Vertical.dispatch(512, 300),
        ComputeCommand::DispatchWorkgroups { x: 4, y: 300, z: 1 }
    );
    assert_eq!(
        BlurStage::Horizontal.dispatch(512, 300),
        ComputeCommand::DispatchWorkgroups { x: 3, y: 512, z: 1 }
    );
    assert_eq!(
        BlurStage::Vertical.dispatch(129, 1),
        ComputeCommand::DispatchWorkgroups { x: 2, y: 1, z: 1 }
    );
    assert_eq!(
        BlurStage::Horizontal.dispatch(129, 1),
        ComputeCommand::DispatchWorkgroups { x: 1, y: 129, z: 1 }
    );
}

#[test]
fn blur_holds_what_its_buffers_take() {
    let kernel = box_kernel(15);
    let filter = GaussianBlur::new(512, 300, &kernel);
    assert_eq!(filter.settings, 31u32.to_ne_bytes().to_vec());
    assert_eq!(filter.vertical, 1u32.to_ne_bytes().to_vec());
    assert_eq!(filter.horizontal, 0u32.to_ne_bytes().to_vec());
    assert_eq!(filter.kernel.len(), 32);
    assert_eq!(filter.kernel[0], 31);
    assert_eq!(&filter.kernel[1..], &kernel.values[..]);
}

#[test]
fn blur_images_have_the_size_asked_for() {
    let filter = GaussianBlur::new(512, 300, &box_kernel(2));
    let extent = Extent3d { width: 512, height: 300, depth_or_array_layers: 1 };
    assert_eq!(filter.vertical_pass_image.texture_extent, extent);
    assert_eq!(filter.output_image.texture_extent, extent);
    assert_eq!(filter.vertical_pass_image.texture_usage, storage_image());
    assert_eq!(filter.output_image.texture_usage, storage_image());
}

#[test]
fn blur_buffers_are_uniforms_but_for_the_kernel() {
    let uniform = BufferUsages { map_read: false, copy_dst: false, uniform: true, storage: false };
    assert_eq!(GaussianBlur::<u32>::buffer_usage(BufferSlot::Settings), uniform);
    assert_eq!(GaussianBlur::<u32>::buffer_usage(BufferSlot::Vertical), uniform);
    assert_eq!(GaussianBlur::<u32>::buffer_usage(BufferSlot::Horizontal), uniform);
    assert_eq!(
        GaussianBlur::<u32>::buffer_usage(BufferSlot::Kernel),
        BufferUsages { map_read: false, copy_dst: true, uniform: false, storage: true }
    );
}

#[test]
fn blur_runs_both_stages_in_one_pass() {
    let filter = GaussianBlur::new(512, 300, &box_kernel(15));
    let pass = filter.run(&WgImageBuffer::from_size(512, 300)).unwrap();
    assert_eq!(
        pass.bind_groups,
        vec![
            BindGroupDescriptor {
                layout: 0,
                entries: vec![
                    uniform(0, BufferSlot::Settings),
                    BindGroupEntry {
                        binding: 1,
                        kind: BindingKind::StorageBuffer,
                        resource: BindingResource::Buffer(BufferSlot::Kernel),
                    },
                ],
            },
            BlurStage::Vertical.bind_group(),
            BlurStage::Horizontal.bind_group(),
        ]
    );
    assert_eq!(
        pass.commands,
        vec![
            ComputeCommand::SetPipeline,
            ComputeCommand::SetBindGroup { index: 0, bind_group: 0 },
            ComputeCommand::SetBindGroup { index: 1, bind_group: 1 },
            ComputeCommand::DispatchWorkgroups { x: 4, y: 300, z: 1 },
            ComputeCommand::SetBindGroup { index: 1, bind_group: 2 },
            ComputeCommand::DispatchWorkgroups { x: 3, y: 512, z: 1 },
        ]
    );
}

#[test]
fn blur_of_radius_zero_takes_a_single_weight() {
    let kernel = create_kernel(0, |_| 1u32, 0u32, |a, b| a + b);
    let filter = GaussianBlur::new(4, 4, &kernel);
    assert_eq!(filter.settings, 1u32.to_ne_bytes().to_vec());
    assert_eq!(filter.kernel, vec![1, 1]);
}

#[test]
fn blur_dispatch_follows_the_input() {
    let filter = GaussianBlur::new(10, 10, &box_kernel(1));
    let pass = filter.run(&WgImageBuffer::from_size(1, 129)).unwrap();
    assert_eq!(pass.commands[3], ComputeCommand::DispatchWorkgroups { x: 1, y: 129, z: 1 });
    assert_eq!(pass.commands[5], ComputeCommand::DispatchWorkgroups { x: 2, y: 1, z: 1 });
}

fn unreadable(width: u32, height: u32) -> WgImageBuffer {
    let mut buffer = WgImageBuffer::from_size(width, height);
    buffer.texture_usage.texture_binding = false;
    buffer
}

#[test]
fn filters_decline_an_input_that_no_shader_can_read() {
    let input = unreadable(64, 64);
    assert_eq!(GrayScale::new(64, 64).run(&input), None);
    assert_eq!(Threshold::new(64, 64, 128).run(&input), None);
    assert_eq!(GaussianBlur::new(64, 64, &box_kernel(1)).run(&input), None);
}

#[test]
fn filters_decline_an_output_that_no_shader_can_write() {
    let input = WgImageBuffer::from_size(64, 64);
    let mut grayscale = GrayScale::new(64, 64);
    grayscale.output_image.texture_usage.storage_binding = false;
    assert_eq!(grayscale.run(&input), None);
    let mut threshold = Threshold::new(64, 64, 128);
    threshold.output_image.texture_usage.storage_binding = false;
    assert_eq!(threshold.run(&input), None);
    let mut blur = GaussianBlur::new(64, 64, &box_kernel(1));
    blur.output_image.texture_usage.storage_binding = false;
    assert_eq!(blur.run(&input), None);
}

#[test]
fn blur_declines_an_intermediate_image_that_it_cannot_pass_on() {
    let input = WgImageBuffer::from_size(64, 64);
    let mut blur = GaussianBlur::new(64, 64, &box_kernel(1));
    blur.vertical_pass_image.texture_usage.texture_binding = false;
    assert_eq!(blur.run(&input), None);
    let mut blur = GaussianBlur::new(64, 64, &box_kernel(1));
    blur.vertical_pass_image.texture_usage.storage_binding = false;
    assert_eq!(blur.run(&input), None);
}

#[test]
fn filters_accept_a_readonly_upload() {
    let image = HostImage::from_raw(64, 64, vec![0; 64 * 64 * 4]).unwrap();
    let input = WgImageBuffer::from_host_image_readonly(&image);
    assert!(GrayScale::new(64, 64).run(&input).is_some());
    assert!(Threshold::new(64, 64, 128).run(&input).is_some());
    assert!(GaussianBlur::new(64, 64, &box_kernel(1)).run(&input).is_some());
}
