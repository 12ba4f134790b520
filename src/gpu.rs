use vstd::prelude::*;
use wgpu::util::DeviceExt;
use num_traits::cast::ToPrimitive;
use wgpu::BindGroup as WgpuBindGroup;

use crate::uniform::{BindEntry, BufferKind, LayoutEntry};

verus! {

#[verifier::external_type_specification]
#[verifier::external_body]
pub struct ExDevice(wgpu::Device);

#[verifier::external_type_specification]
#[verifier::external_body]
pub struct ExBuffer(wgpu::Buffer);

#[verifier::external_type_specification]
#[verifier::external_body]
pub struct ExBindGroupLayout(wgpu::BindGroupLayout);

#[verifier::external_type_specification]
#[verifier::external_body]
pub struct ExBindGroup(WgpuBindGroup);

#[verifier::external_type_specification]
#[verifier::external_body]
pub struct ExPipelineLayout(wgpu::PipelineLayout);

#[verifier::external_type_specification]
#[verifier::external_body]
pub struct ExRenderPass<'encoder>(wgpu::RenderPass<'encoder>);

#[verifier::external_type_specification]
#[verifier::external_body]
pub struct ExBindGroupLayoutEntry(wgpu::BindGroupLayoutEntry);

/// The limits that a device was created with, as far as this library needs
/// them.
pub struct DeviceLimits {
    max_buffer_size: u64,
    max_uniform_buffers_per_shader_stage: u32,
    max_bind_groups: u32,
    max_bindings_per_bind_group: u32,
    max_uniform_buffer_binding_size: u32,
    device: Ghost<wgpu::Device>,
}

/// The limits of `device`.
pub ghost struct LimitsView {
    pub max_buffer_size: u64,
    pub max_uniform_buffers_per_shader_stage: u32,
    pub max_bind_groups: u32,
    pub max_bindings_per_bind_group: u32,
    pub max_uniform_buffer_binding_size: u32,
    pub device: wgpu::Device,
}

impl View for DeviceLimits {
    type V = LimitsView;

    closed spec fn view(&self) -> LimitsView {
        LimitsView {
            max_buffer_size: self.max_buffer_size,
            max_uniform_buffers_per_shader_stage: self.max_uniform_buffers_per_shader_stage,
            max_bind_groups: self.max_bind_groups,
            max_bindings_per_bind_group: self.max_bindings_per_bind_group,
            max_uniform_buffer_binding_size: self.max_uniform_buffer_binding_size,
            device: self.device@,
        }
    }
}

/// A group of `n` uniforms fits in one bind group layout under `l`.
pub open spec fn layout_fits(n: int, l: LimitsView) -> bool {
    n <= l.max_uniform_buffers_per_shader_stage && n <= l.max_bindings_per_bind_group
}

impl DeviceLimits {
    /// The limits that `device` was created with.
    pub fn of(device: &wgpu::Device) -> (r: Self)
        ensures
            r@.device == *device,
    {
        device_limits(device)
    }

    pub fn max_buffer_size(&self) -> (r: u64)
        ensures
            r == self@.max_buffer_size,
    {
        self.max_buffer_size
    }

    pub fn max_uniform_buffers_per_shader_stage(&self) -> (r: u32)
        ensures
            r == self@.max_uniform_buffers_per_shader_stage,
    {
        self.max_uniform_buffers_per_shader_stage
    }

    pub fn max_bind_groups(&self) -> (r: u32)
        ensures
            r == self@.max_bind_groups,
    {
        self.max_bind_groups
    }

    pub fn max_bindings_per_bind_group(&self) -> (r: u32)
        ensures
            r == self@.max_bindings_per_bind_group,
    {
        self.max_bindings_per_bind_group
    }

    pub fn max_uniform_buffer_binding_size(&self) -> (r: u32)
        ensures
            r == self@.max_uniform_buffer_binding_size,
    {
        self.max_uniform_buffer_binding_size
    }
}

/// How a buffer may be used.
#[derive(Debug, Clone, Copy, PartialEq, Eq, Structural)]
pub struct BufferUsage {
    pub uniform: bool,
    pub copy_dst: bool,
}

/// A GPU buffer with what it was created with: its bytes, usage, label and
/// device.
pub struct UniformBuffer {
    buffer: wgpu::Buffer,
    contents: Ghost<Seq<u8>>,
    usage: Ghost<BufferUsage>,
    label: Ghost<Seq<char>>,
    device: Ghost<wgpu::Device>,
}

impl UniformBuffer {
    pub closed spec fn bytes(&self) -> Seq<u8> {
        self.contents@
    }

    pub closed spec fn usage(&self) -> BufferUsage {
        self.usage@
    }

    pub closed spec fn label(&self) -> Seq<char> {
        self.label@
    }

    pub closed spec fn device(&self) -> wgpu::Device {
        self.device@
    }

    /// The GPU buffer itself.
    pub fn gpu_buffer(&self) -> &wgpu::Buffer {
        &self.buffer
    }
}

/// A GPU bind group layout with the entries and label it was created from.
pub struct GroupLayout {
    layout: wgpu::BindGroupLayout,
    entries: Ghost<Seq<LayoutEntry>>,
    label: Ghost<Seq<char>>,
    device: Ghost<wgpu::Device>,
}

impl GroupLayout {
    pub closed spec fn entries(&self) -> Seq<LayoutEntry> {
        self.entries@
    }

    pub closed spec fn label(&self) -> Seq<char> {
        self.label@
    }

    pub closed spec fn device(&self) -> wgpu::Device {
        self.device@
    }

    /// The GPU layout itself.
    pub fn gpu_layout(&self) -> &wgpu::BindGroupLayout {
        &self.layout
    }
}

/// A GPU bind group with what it was created from: the layout entries and,
/// slot by slot, each binding and the bytes of its buffer.
pub struct GroupBinding {
    group: WgpuBindGroup,
    layout_entries: Ghost<Seq<LayoutEntry>>,
    bindings: Ghost<Seq<(u32, Seq<u8>)>>,
    label: Ghost<Seq<char>>,
}

impl GroupBinding {
    pub closed spec fn layout_entries(&self) -> Seq<LayoutEntry> {
        self.layout_entries@
    }

    pub closed spec fn bindings(&self) -> Seq<(u32, Seq<u8>)> {
        self.bindings@
    }

    pub closed spec fn label(&self) -> Seq<char> {
        self.label@
    }

    /// The GPU bind group itself.
    pub fn gpu_group(&self) -> &WgpuBindGroup {
        &self.group
    }
}

/// A GPU pipeline layout with the entries of each group layout it holds, in
/// slot order, and its label.
pub struct PipelineLayoutBuild {
    layout: wgpu::PipelineLayout,
    group_layouts: Ghost<Seq<Seq<LayoutEntry>>>,
    label: Ghost<Seq<char>>,
}

impl PipelineLayoutBuild {
    pub closed spec fn group_layouts(&self) -> Seq<Seq<LayoutEntry>> {
        self.group_layouts@
    }

    pub closed spec fn label(&self) -> Seq<char> {
        self.label@
    }

    /// The GPU pipeline layout itself.
    pub fn into_inner(self) -> wgpu::PipelineLayout {
        self.layout
    }
}

/// What was attached to a render pass: the slot, and the bind group's layout
/// entries and bindings.
pub ghost struct AttachedGroup {
    pub index: u32,
    pub layout_entries: Seq<LayoutEntry>,
    pub bindings: Seq<(u32, Seq<u8>)>,
}

/// A render pass with the log of the bind groups attached to it.
pub struct RecordedPass<'encoder> {
    pass: wgpu::RenderPass<'encoder>,
    attached: Ghost<Seq<AttachedGroup>>,
}

impl<'encoder> RecordedPass<'encoder> {
    pub closed spec fn attached(&self) -> Seq<AttachedGroup> {
        self.attached@
    }

    pub fn new(pass: wgpu::RenderPass<'encoder>) -> (r: Self)
        ensures
            r.attached() == Seq::<AttachedGroup>::empty(),
    {
        RecordedPass { pass, attached: Ghost(Seq::empty()) }
    }

    pub fn into_inner(self) -> wgpu::RenderPass<'encoder> {
        self.pass
    }
}

/// Relies on `num_traits::ToPrimitive::to_u32` for `usize`: `Some` of the
/// same number when it fits in a `u32`, `None` otherwise.
#[verifier::external_body]
pub(crate) fn usize_to_u32(n: usize) -> (r: Option<u32>)
    ensures
        n <= u32::MAX ==> r == Some(n as u32),
        n > u32::MAX ==> r.is_none(),
{
    n.to_u32()
}

/// Relies on `wgpu::Device::limits`: the limits the device was created with.
#[verifier::external_body]
pub(crate) fn device_limits(device: &wgpu::Device) -> (r: DeviceLimits)
    ensures
        r@.device == *device,
{
    let l = device.limits();
    DeviceLimits {
        max_buffer_size: l.max_buffer_size,
        max_uniform_buffers_per_shader_stage: l.max_uniform_buffers_per_shader_stage,
        max_bind_groups: l.max_bind_groups,
        max_bindings_per_bind_group: l.max_bindings_per_bind_group,
        max_uniform_buffer_binding_size: l.max_uniform_buffer_binding_size,
        device: Ghost(*device),
    }
}

/// Relies on `Clone` of `wgpu::Device`: a second handle to the same device.
#[verifier::external_body]
pub(crate) fn clone_device(d: &wgpu::Device) -> (r: wgpu::Device)
    ensures
        r == *d,
{
    d.clone()
}

/// Relies on `wgpu::util::DeviceExt::create_buffer_init`: a buffer holding
/// `contents`, padded to a multiple of four bytes, with the given usage and
/// label. A size past the device's limit or an empty usage is a validation
/// error, which wgpu's default error handler turns into a panic.
#[verifier::external_body]
pub(crate) fn create_uniform_buffer(
    device: &wgpu::Device,
    limits: &DeviceLimits,
    label: &str,
    contents: &[u8],
    usage: BufferUsage,
) -> (r: UniformBuffer)
    requires
        limits@.device == *device,
        contents@.len() + 4 <= limits@.max_buffer_size,
        usage.uniform || usage.copy_dst,
    ensures
        r.bytes() == contents@,
        r.usage() == usage,
        r.label() == label@,
        r.device() == *device,
{
    let mut flags = wgpu::BufferUsages::empty();
    flags.set(wgpu::BufferUsages::UNIFORM, usage.uniform);
    flags.set(wgpu::BufferUsages::COPY_DST, usage.copy_dst);
    let desc = wgpu::util::BufferInitDescriptor { label: Some(label), contents, usage: flags };
    let buffer = device.create_buffer_init(&desc);
    let (contents, label, device) = (Ghost(contents@), Ghost(label@), Ghost(*device));
    UniformBuffer { buffer, contents, usage: Ghost(usage), label, device }
}

/// Converts a layout entry field for field into wgpu's form of a single
/// buffer binding (not an array).
#[verifier::external_body]
fn to_wgpu_layout_entry(e: &LayoutEntry) -> (r: wgpu::BindGroupLayoutEntry) {
    let mut visibility = wgpu::ShaderStages::NONE;
    visibility.set(wgpu::ShaderStages::VERTEX, e.vertex);
    visibility.set(wgpu::ShaderStages::FRAGMENT, e.fragment);
    let ty = match e.kind {
        BufferKind::Uniform => wgpu::BufferBindingType::Uniform,
    };
    let min_binding_size = e.min_binding_size.and_then(std::num::NonZeroU64::new);
    let has_dynamic_offset = e.has_dynamic_offset;
    let ty = wgpu::BindingType::Buffer { ty, has_dynamic_offset, min_binding_size };
    wgpu::BindGroupLayoutEntry { binding: e.binding, visibility, ty, count: None }
}

/// Relies on `wgpu::Device::create_bind_group_layout`. Repeated slots, slots
/// past the device's binding limit, dynamic offsets past its limit or more
/// uniform buffers than its per-stage limit are validation errors, which wgpu's default error handler
/// turns into a panic.
#[verifier::external_body]
pub(crate) fn create_layout(
    device: &wgpu::Device,
    limits: &DeviceLimits,
    label: &str,
    entries: &[LayoutEntry],
) -> (r: GroupLayout)
    requires
        limits@.device == *device,
        entries@.len() <= limits@.max_uniform_buffers_per_shader_stage,
        entries@.len() <= limits@.max_bindings_per_bind_group,
        forall|i: int|
            0 <= i < entries@.len() ==> (#[trigger] entries@[i]).binding == i
                && !entries@[i].has_dynamic_offset,
    ensures
        r.entries() == entries@,
        r.label() == label@,
        r.device() == *device,
{
    let converted: Vec<wgpu::BindGroupLayoutEntry> = entries.iter().map(to_wgpu_layout_entry).collect();
    let desc = wgpu::BindGroupLayoutDescriptor { label: Some(label), entries: &converted };
    let layout = device.create_bind_group_layout(&desc);
    GroupLayout { layout, entries: Ghost(entries@), label: Ghost(label@), device: Ghost(*device) }
}

/// Relies on `wgpu::Device::create_bind_group`: binds each entry's whole
/// buffer at its slot under `layout`. Entries that do not match the layout
/// one for one, buffers without uniform usage, an empty buffer, a buffer
/// smaller than a minimum binding size or larger than the device's uniform binding limit, or
/// objects of another device are validation errors.
#[verifier::external_body]
pub(crate) fn create_bind_group(
    device: &wgpu::Device,
    limits: &DeviceLimits,
    label: &str,
    layout: &GroupLayout,
    entries: &[BindEntry],
) -> (r: GroupBinding)
    requires
        limits@.device == *device,
        layout.device() == *device,
        entries@.len() == layout.entries().len(),
        forall|i: int|
            0 <= i < entries@.len() ==> {
                &&& (#[trigger] entries@[i]).binding == layout.entries()[i].binding
                &&& layout.entries()[i].kind == BufferKind::Uniform
                &&& layout.entries()[i].min_binding_size.is_none()
                &&& entries@[i].buffer.device() == *device
                &&& entries@[i].buffer.usage().uniform
                &&& entries@[i].buffer.bytes().len() > 0
                &&& entries@[i].buffer.bytes().len() + 4 <= limits@.max_uniform_buffer_binding_size
            },
    ensures
        r.layout_entries() == layout.entries(),
        r.bindings() == Seq::new(
            entries@.len(),
            |i: int| (entries@[i].binding, entries@[i].buffer.bytes()),
        ),
        r.label() == label@,
{
    let converted: Vec<wgpu::BindGroupEntry> = entries.iter().map(
        |e| wgpu::BindGroupEntry { binding: e.binding, resource: e.buffer.buffer.as_entire_binding() },
    ).collect();
    let desc = wgpu::BindGroupDescriptor { label: Some(label), layout: &layout.layout, entries: &converted };
    let group = device.create_bind_group(&desc);
    let bindings = Ghost(Seq::new(entries@.len(), |i: int| (entries@[i].binding, entries@[i].buffer.contents@)));
    GroupBinding { group, layout_entries: Ghost(layout.entries@), bindings, label: Ghost(label@) }
}

/// Relies on `wgpu::RenderPass::set_bind_group`: attaches `group` at slot
/// `index` for the draw calls that follow, with no dynamic offsets.
#[verifier::external_body]
pub(crate) fn attach_bind_group(pass: &mut RecordedPass, index: u32, group: &GroupBinding)
    ensures
        final(pass).attached() == old(pass).attached().push(
            AttachedGroup {
                index,
                layout_entries: group.layout_entries(),
                bindings: group.bindings(),
            },
        ),
{
    pass.pass.set_bind_group(index, &group.group, &[]);
    let record = AttachedGroup { index, layout_entries: group.layout_entries@, bindings: group.bindings@ };
    pass.attached = Ghost(pass.attached@.push(record));
}

/// Relies on `wgpu::Device::create_pipeline_layout`: a pipeline layout whose
/// group slots are `layouts` in order, with no push constants. More layouts
/// than the device's limit or layouts of another device are validation
/// errors.
#[verifier::external_body]
pub(crate) fn create_pipeline_layout(
    device: &wgpu::Device,
    limits: &DeviceLimits,
    label: &str,
    layouts: &[GroupLayout],
) -> (r: PipelineLayoutBuild)
    requires
        limits@.device == *device,
        layouts@.len() <= limits@.max_bind_groups,
        forall|i: int|
            0 <= i < layouts@.len() ==> (#[trigger] layouts@[i]).device() == *device
                && layouts@[i].entries().len() <= limits@.max_uniform_buffers_per_shader_stage,
    ensures
        r.group_layouts() == Seq::new(layouts@.len(), |i: int| layouts@[i].entries()),
        r.label() == label@,
{
    let refs: Vec<&wgpu::BindGroupLayout> = layouts.iter().map(|l| &l.layout).collect();
    let desc = wgpu::PipelineLayoutDescriptor { label: Some(label), bind_group_layouts: &refs, push_constant_ranges: &[] };
    let layout = device.create_pipeline_layout(&desc);
    let group_layouts = Ghost(Seq::new(layouts@.len(), |i: int| layouts@[i].entries@));
    PipelineLayoutBuild { layout, group_layouts, label: Ghost(label@) }
}

} // verus!
