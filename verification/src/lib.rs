//! Host-side logic of GPU image filters: transfer layouts, dispatch sizing and
//! the compute passes of each filter, as plain values for a driver to execute.

pub mod buffer;
pub mod gaussian_blur;
pub mod grayscale;
pub mod host;
pub mod kernel;
pub mod pipeline;
pub mod threshold;
pub mod utils;

pub use buffer::{
    strip_row_padding, BufferDescriptor, BufferUsages, Extent3d, ImageDataLayout, Readback,
    TextureDescriptor, TextureDimension, TextureFormat, TextureUsages, WgImageBuffer,
};
pub use gaussian_blur::{BlurStage, GaussianBlur, BLUR_WORKGROUP_LENGTH};
pub use grayscale::GrayScale;
pub use host::HostImage;
pub use kernel::{create_kernel, kernel_size, Kernel, MAX_KERNEL_RADIUS};
pub use pipeline::{
    BindGroupDescriptor, BindGroupEntry, BindingKind, BindingResource, BufferSlot, ComputeCommand,
    ComputePass, ImageSlot, POINTWISE_WORKGROUP_SIZE,
};
pub use threshold::{Threshold, CUTOFF_SCALE};
pub use utils::{
    compute_work_group_count, padded_bytes_per_row, BYTES_PER_PIXEL,
    COPY_BYTES_PER_ROW_ALIGNMENT, MAX_COPY_WIDTH, MAX_UPLOAD_WIDTH,
};
