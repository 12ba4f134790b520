pub mod encode;
pub mod events;
pub mod gpu;
pub mod group;
pub mod laws;
pub mod pipeline;
pub mod surface;
pub mod uniform;
pub mod wgsl;

pub use events::{handle_input, FrameAction, WindowInput};
pub use group::{group_names, GroupIndex};
pub use pipeline::PipelineBindGroups;
pub use surface::{resize_request, SurfaceSize};
pub use gpu::{DeviceLimits, GroupBinding, GroupLayout, PipelineLayoutBuild, RecordedPass};
pub use uniform::{BindEntry, BindGroup, BufferKind, LayoutEntry, RegistryError, Uniform};
