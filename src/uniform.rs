use vstd::prelude::*;
use vstd::string::StringExecFns;

use crate::encode::{encode_value, value_bytes};
use crate::gpu::{
    attach_bind_group, clone_device, create_bind_group, create_layout, create_uniform_buffer,
    layout_fits, AttachedGroup, BufferUsage, DeviceLimits, LimitsView, GroupBinding,
    GroupLayout, RecordedPass, UniformBuffer,
};
use crate::group::{group_names, GroupIndex};
use crate::wgsl::{declaration, push_declaration};

verus! {

/// Why a GPU object could not be made.
#[derive(Debug, Clone, Copy, PartialEq, Eq, Structural)]
pub enum RegistryError {
    /// The device's largest buffer, or uniform binding, is smaller than a
    /// uniform's buffer.
    BufferTooLarge,
    /// A group holds more uniform buffers than the device allows per stage.
    TooManyUniforms,
    /// More groups hold uniforms than the device allows bind groups.
    TooManyGroups,
}

/// The kind of buffer binding.
#[derive(Debug, Clone, Copy, PartialEq, Eq, Structural)]
pub enum BufferKind {
    Uniform,
}

/// The layout of one binding slot of a group: which shader stages see it,
/// the kind of buffer, whether it takes a dynamic offset and the least size
/// the bound buffer must have.
#[derive(Debug, Clone, Copy, PartialEq, Eq, Structural)]
pub struct LayoutEntry {
    pub binding: u32,
    pub vertex: bool,
    pub fragment: bool,
    pub kind: BufferKind,
    pub has_dynamic_offset: bool,
    pub min_binding_size: Option<u64>,
}

/// The layout entry of a uniform at `binding`: a uniform buffer seen by the
/// fragment stage only, with no dynamic offset and no least size.
pub open spec fn uniform_layout_entry(binding: u32) -> LayoutEntry {
    LayoutEntry {
        binding,
        vertex: false,
        fragment: true,
        kind: BufferKind::Uniform,
        has_dynamic_offset: false,
        min_binding_size: None,
    }
}

/// The usage of a uniform's buffer: bound as a uniform, and a copy target.
pub open spec fn uniform_usage() -> BufferUsage {
    BufferUsage { uniform: true, copy_dst: true }
}

/// The size that a uniform's buffer takes, with room for padding.
pub const UNIFORM_BUFFER_ROOM: u64 = 8;

/// The device admits buffers as large as a uniform's.
pub open spec fn buffers_fit(l: LimitsView) -> bool {
    l.max_buffer_size >= UNIFORM_BUFFER_ROOM
}

/// The device admits uniform bindings as large as a uniform's buffer.
pub open spec fn bindings_fit(l: LimitsView) -> bool {
    l.max_uniform_buffer_binding_size >= UNIFORM_BUFFER_ROOM
}

/// One binding of a bind group: the whole of `buffer` at slot `binding`.
/// `contents` are the bytes that the buffer was filled with.
pub struct BindEntry<'a> {
    pub binding: u32,
    pub buffer: &'a UniformBuffer,
    pub contents: &'a [u8],
}

/// What a uniform is, apart from its GPU buffer.
pub ghost struct UniformView {
    pub name: Seq<char>,
    pub value: i32,
    pub group: GroupIndex,
    pub binding: u32,
    pub contents: Seq<u8>,
    pub device: wgpu::Device,
}

impl UniformView {
    /// The buffer holds the bytes of the current value.
    pub open spec fn wf(self) -> bool {
        self.contents == value_bytes(self.value)
    }

    pub open spec fn layout_entry(self) -> LayoutEntry {
        uniform_layout_entry(self.binding)
    }

    /// The shader declaration line of this uniform.
    pub open spec fn declaration(self) -> Seq<char> {
        declaration(self.group.ordinal(), self.binding as nat, self.name)
    }

    /// This uniform after its value is set to `value` on `device`.
    pub open spec fn with_value(self, value: i32, device: wgpu::Device) -> UniformView {
        UniformView { value, contents: value_bytes(value), device, ..self }
    }
}

/// A named 32-bit signed shader value with the GPU buffer that holds it.
pub struct Uniform {
    name: String,
    value: i32,
    bind_group: GroupIndex,
    binding: u32,
    contents: Vec<u8>,
    buffer: UniformBuffer,
    device: wgpu::Device,
}

impl View for Uniform {
    type V = UniformView;

    closed spec fn view(&self) -> UniformView {
        UniformView {
            name: self.name@,
            value: self.value,
            group: self.bind_group,
            binding: self.binding,
            contents: self.contents@,
            device: self.device,
        }
    }
}

fn uniform_usage_value() -> (r: BufferUsage)
    ensures
        r == uniform_usage(),
{
    BufferUsage { uniform: true, copy_dst: true }
}

impl Uniform {
    /// The buffer was made from this uniform's bytes, name and device, with
    /// uniform usage.
    pub closed spec fn buffer_matches(&self) -> bool {
        &&& self.buffer.bytes() == self.contents@
        &&& self.buffer.device() == self.device
        &&& self.buffer.usage() == uniform_usage()
        &&& self.buffer.label() == self.name@
    }

    pub closed spec fn buffer_spec(&self) -> UniformBuffer {
        self.buffer
    }

    fn make_uniform_buffer(
        device: &wgpu::Device,
        limits: &DeviceLimits,
        label: &str,
        contents: &Vec<u8>,
    ) -> (r: Result<UniformBuffer, RegistryError>)
        requires
            contents@.len() == 4,
            limits@.device == *device,
        ensures
            r is Ok <==> buffers_fit(limits@),
            r matches Ok(b) ==> b.bytes() == contents@ && b.device() == *device && b.usage()
                == uniform_usage() && b.label() == label@,
            r matches Err(e) ==> e == RegistryError::BufferTooLarge,
    {
        if limits.max_buffer_size() < UNIFORM_BUFFER_ROOM {
            return Err(RegistryError::BufferTooLarge);
        }
        Ok(create_uniform_buffer(device, limits, label, contents.as_slice(), uniform_usage_value()))
    }

    /// Creates a uniform and a buffer on `device`, whose limits are `limits`,
    /// that holds `value`, labelled with the name. Fails exactly when the
    /// device's buffers are too small.
    pub fn new(
        name: &str,
        value: i32,
        bind_group: GroupIndex,
        binding: u32,
        device: &wgpu::Device,
        limits: &DeviceLimits,
    ) -> (r: Result<Self, RegistryError>)
        requires
            limits@.device == *device,
        ensures
            r is Ok <==> buffers_fit(limits@),
            r matches Ok(u) ==> u@ == (UniformView {
                name: name@,
                value,
                group: bind_group,
                binding,
                contents: value_bytes(value),
                device: *device,
            }) && u@.wf() && u.buffer_matches(),
            r matches Ok(u) ==> u.buffer_spec().bytes() == value_bytes(value)
                && u.buffer_spec().usage() == uniform_usage() && u.buffer_spec().label() == name@
                && u.buffer_spec().device() == *device,
            r matches Err(e) ==> e == RegistryError::BufferTooLarge,
    {
        let contents = encode_value(value);
        let buffer = match Self::make_uniform_buffer(device, limits, name, &contents) {
            Ok(b) => b,
            Err(e) => return Err(e),
        };
        Ok(
            Uniform {
                name: String::from_str(name),
                value,
                bind_group,
                binding,
                contents,
                buffer,
                device: clone_device(device),
            },
        )
    }

    /// Sets the value, replacing the buffer by a new one on `device` that
    /// holds it. Fails, changing nothing, exactly when the device's buffers
    /// are too small.
    pub fn make_buffer(
        &mut self,
        value: i32,
        device: &wgpu::Device,
        limits: &DeviceLimits,
    ) -> (r: Result<(), RegistryError>)
        requires
            old(self).buffer_matches(),
            limits@.device == *device,
        ensures
            r is Ok <==> buffers_fit(limits@),
            final(self).buffer_matches(),
            r is Ok ==> final(self)@ == old(self)@.with_value(value, *device) && final(self)@.wf(),
            r is Ok ==> final(self).buffer_spec().bytes() == value_bytes(value)
                && final(self).buffer_spec().usage() == uniform_usage()
                && final(self).buffer_spec().label() == old(self)@.name
                && final(self).buffer_spec().device() == *device,
            r matches Err(e) ==> e == RegistryError::BufferTooLarge && final(self)@ == old(self)@,
    {
        let contents = encode_value(value);
        let buffer = match Self::make_uniform_buffer(device, limits, self.name.as_str(), &contents) {
            Ok(b) => b,
            Err(e) => return Err(e),
        };
        self.value = value;
        self.contents = contents;
        self.buffer = buffer;
        self.device = clone_device(device);
        Ok(())
    }

    /// The layout entry of this uniform's slot.
    pub fn make_layout(&self) -> (r: LayoutEntry)
        ensures
            r == self@.layout_entry(),
    {
        LayoutEntry {
            binding: self.binding,
            vertex: false,
            fragment: true,
            kind: BufferKind::Uniform,
            has_dynamic_offset: false,
            min_binding_size: None,
        }
    }

    /// The binding of this uniform's whole buffer at its slot.
    pub fn make_bind(&self) -> (r: BindEntry<'_>)
        requires
            self.buffer_matches(),
        ensures
            r.binding == self@.binding,
            *r.buffer == self.buffer_spec(),
            r.buffer.bytes() == self@.contents,
            r.buffer.device() == self@.device,
            r.buffer.usage() == uniform_usage(),
            r.contents@ == self@.contents,
    {
        BindEntry { binding: self.binding, buffer: &self.buffer, contents: self.contents.as_slice() }
    }

    /// The shader declaration line of this uniform.
    pub fn make_wgsl(&self) -> (r: String)
        ensures
            r@ == self@.declaration(),
    {
        let mut s = String::new();
        push_declaration(&mut s, self.bind_group.index(), self.binding, self.name.as_str());
        assert(s@ =~= self@.declaration());
        s
    }

    pub fn name(&self) -> (r: &str)
        ensures
            r@ == self@.name,
    {
        self.name.as_str()
    }

    pub fn value(&self) -> (r: i32)
        ensures
            r == self@.value,
    {
        self.value
    }

    pub fn group(&self) -> (r: GroupIndex)
        ensures
            r == self@.group,
    {
        self.bind_group
    }

    pub fn binding(&self) -> (r: u32)
        ensures
            r == self@.binding,
    {
        self.binding
    }

    /// The bytes that the buffer was filled with.
    pub fn contents(&self) -> (r: &[u8])
        ensures
            r@ == self@.contents,
    {
        self.contents.as_slice()
    }
}

/// The shader text of a run of uniforms: their declaration lines in order.
pub open spec fn declarations(us: Seq<UniformView>) -> Seq<char>
    decreases us.len(),
{
    if us.len() == 0 {
        Seq::empty()
    } else {
        declarations(us.drop_last()) + us.last().declaration()
    }
}

/// What a bind group is, apart from its GPU buffers.
pub ghost struct BindGroupView {
    pub group: GroupIndex,
    pub uniforms: Seq<UniformView>,
    pub layouts: Seq<LayoutEntry>,
}

impl BindGroupView {
    /// Slots are the positions `0..n`, every uniform belongs to this group and
    /// its buffer holds its value, and `layouts[i]` describes `uniforms[i]`.
    pub open spec fn wf(self) -> bool {
        &&& self.layouts.len() == self.uniforms.len()
        &&& forall|i: int|
            0 <= i < self.uniforms.len() ==> {
                &&& (#[trigger] self.uniforms[i]).wf()
                &&& self.uniforms[i].group == self.group
                &&& self.uniforms[i].binding == i
                &&& self.layouts[i] == self.uniforms[i].layout_entry()
            }
    }

    /// This group after registering a uniform on `device`: it takes the next
    /// slot.
    pub open spec fn registered(self, name: Seq<char>, value: i32, device: wgpu::Device) -> BindGroupView {
        let u = UniformView {
            name,
            value,
            group: self.group,
            binding: self.uniforms.len() as u32,
            contents: value_bytes(value),
            device,
        };
        BindGroupView {
            uniforms: self.uniforms.push(u),
            layouts: self.layouts.push(u.layout_entry()),
            ..self
        }
    }

    /// This group after setting the value of the uniform at `slot` on `device`.
    pub open spec fn with_value(self, slot: int, value: i32, device: wgpu::Device) -> BindGroupView {
        BindGroupView {
            uniforms: self.uniforms.update(slot, self.uniforms[slot].with_value(value, device)),
            ..self
        }
    }

    /// The bindings of a bind group built from this group: slot `i` holds the
    /// bytes of uniform `i`.
    pub open spec fn bindings(self) -> Seq<(u32, Seq<u8>)> {
        Seq::new(self.uniforms.len(), |i: int| (i as u32, self.uniforms[i].contents))
    }

    /// Some uniform of this group has its buffer on another device than
    /// `device`; GPU objects of two devices cannot be bound together.
    pub open spec fn off_device(self, device: wgpu::Device) -> bool {
        exists|i: int| 0 <= i < self.uniforms.len() && (#[trigger] self.uniforms[i]).device != device
    }

    /// What attaching this group to a render pass records.
    pub open spec fn attached(self) -> AttachedGroup {
        AttachedGroup {
            index: self.group.ordinal() as u32,
            layout_entries: self.layouts,
            bindings: self.bindings(),
        }
    }

    /// The shader text of this group.
    pub open spec fn declarations(self) -> Seq<char> {
        declarations(self.uniforms)
    }
}

/// The label of a group's GPU object: the group's name and `suffix`.
pub open spec fn group_label(g: GroupIndex, suffix: Seq<char>) -> Seq<char> {
    g.name_spec() + suffix
}

/// The uniforms of one binding group, in slot order, with the layout entry of
/// each slot.
pub struct BindGroup {
    bind_group: GroupIndex,
    uniforms: Vec<Uniform>,
    layouts: Vec<LayoutEntry>,
}

impl View for BindGroup {
    type V = BindGroupView;

    closed spec fn view(&self) -> BindGroupView {
        BindGroupView {
            group: self.bind_group,
            uniforms: self.uniforms@.map_values(|u: Uniform| u@),
            layouts: self.layouts@,
        }
    }
}

impl BindGroup {
    pub open spec fn wf(&self) -> bool {
        self@.wf() && self.buffers_match()
    }

    /// Every uniform's buffer was made from its bytes, name and device.
    pub closed spec fn buffers_match(&self) -> bool {
        forall|i: int| 0 <= i < self.uniforms@.len() ==> (#[trigger] self.uniforms@[i]).buffer_matches()
    }

    /// The GPU buffer of the uniform at `slot`.
    pub closed spec fn buffer_at(&self, slot: int) -> UniformBuffer {
        self.uniforms@[slot].buffer_spec()
    }

    /// `entries` bind, slot by slot, the buffer of each uniform of this group.
    pub open spec fn binds_all(&self, entries: Seq<BindEntry>) -> bool {
        &&& entries.len() == self@.uniforms.len()
        &&& forall|i: int|
            0 <= i < entries.len() ==> {
                &&& (#[trigger] entries[i]).binding == i
                &&& *entries[i].buffer == self.buffer_at(i)
                &&& entries[i].buffer.bytes() == self@.uniforms[i].contents
                &&& entries[i].buffer.device() == self@.uniforms[i].device
                &&& entries[i].buffer.usage() == uniform_usage()
                &&& entries[i].contents@ == self@.uniforms[i].contents
            }
    }

    /// An empty group.
    pub fn new(bind_group: GroupIndex) -> (r: Self)
        ensures
            r@.group == bind_group,
            r@.uniforms.len() == 0,
            r@.layouts.len() == 0,
            r.wf(),
    {
        let r = BindGroup { bind_group, uniforms: Vec::new(), layouts: Vec::new() };
        assert(r@.uniforms =~= Seq::<UniformView>::empty());
        r
    }

    /// Registers a uniform in the next free slot, with a buffer on `device`
    /// that holds `value`; names need not be unique. Fails, changing nothing,
    /// exactly when the device's buffers are too small.
    pub fn new_uniform(
        &mut self,
        name: &str,
        value: i32,
        device: &wgpu::Device,
        limits: &DeviceLimits,
    ) -> (r: Result<(), RegistryError>)
        requires
            old(self).wf(),
            old(self)@.uniforms.len() <= u32::MAX,
            limits@.device == *device,
        ensures
            final(self).wf(),
            r is Ok <==> buffers_fit(limits@),
            r is Ok ==> final(self)@ == old(self)@.registered(name@, value, *device),
            r matches Err(e) ==> e == RegistryError::BufferTooLarge && final(self)@ == old(self)@,
    {
        let binding = match crate::gpu::usize_to_u32(self.uniforms.len()) {
            Some(b) => b,
            None => {
                assert(false);
                0
            },
        };
        let uniform = match Uniform::new(name, value, self.bind_group, binding, device, limits) {
            Ok(u) => u,
            Err(e) => return Err(e),
        };
        self.layouts.push(uniform.make_layout());
        self.uniforms.push(uniform);
        assert(self@.uniforms =~= old(self)@.registered(name@, value, *device).uniforms);
        assert(self@.layouts =~= old(self)@.registered(name@, value, *device).layouts);
        Ok(())
    }

    /// Sets the value of the uniform at `slot`, replacing its buffer by one on
    /// `device`. Fails, changing nothing, exactly when the device's buffers
    /// are too small.
    pub fn set_value(
        &mut self,
        slot: u32,
        value: i32,
        device: &wgpu::Device,
        limits: &DeviceLimits,
    ) -> (r: Result<(), RegistryError>)
        requires
            old(self).wf(),
            slot < old(self)@.uniforms.len(),
            limits@.device == *device,
        ensures
            final(self).wf(),
            r is Ok <==> buffers_fit(limits@),
            r is Ok ==> final(self)@ == old(self)@.with_value(slot as int, value, *device),
            r matches Err(e) ==> e == RegistryError::BufferTooLarge && final(self)@ == old(self)@,
    {
        let i = slot as usize;
        let mut u = self.uniforms.remove(i);
        let r = u.make_buffer(value, device, limits);
        self.uniforms.insert(i, u);
        assert(self.uniforms@ =~= old(self).uniforms@.update(i as int, u));
        if r.is_ok() {
            assert(self@.uniforms =~= old(self)@.with_value(slot as int, value, *device).uniforms);
        } else {
            assert(self@.uniforms =~= old(self)@.uniforms);
        }
        r
    }

    /// The label of the GPU objects of this group: its name and `suffix`.
    pub fn label(&self, suffix: &str) -> (r: String)
        ensures
            r@ == group_label(self@.group, suffix@),
    {
        let mut s = String::from_str(group_names(self.bind_group));
        s.append(suffix);
        s
    }

    fn build_layout(&self, device: &wgpu::Device, limits: &DeviceLimits) -> (r: GroupLayout)
        requires
            self.wf(),
            limits@.device == *device,
            layout_fits(self@.uniforms.len() as int, limits@),
        ensures
            r.entries() == self@.layouts,
            r.label() == group_label(self@.group, "_bind_group_layout"@),
            r.device() == *device,
    {
        let label = self.label("_bind_group_layout");
        proof {
            assert forall|i: int| 0 <= i < self@.layouts.len() implies (#[trigger] self@.layouts[
                i
            ]).binding == i && !self@.layouts[i].has_dynamic_offset by {
                assert(self@.uniforms[i].wf());
            }
        }
        create_layout(device, limits, label.as_str(), self.layouts.as_slice())
    }

    /// Whether `limits` admit a layout of this group.
    fn layout_fits(&self, limits: &DeviceLimits) -> (r: bool)
        ensures
            r == layout_fits(self@.uniforms.len() as int, limits@),
    {
        let n = self.uniforms.len() as u64;
        n <= limits.max_uniform_buffers_per_shader_stage() as u64 && n
            <= limits.max_bindings_per_bind_group() as u64
    }

    /// Creates the GPU layout of this group on `device`, whose limits are
    /// `limits`, from its layout entries. Fails exactly when the group holds
    /// more uniforms than the device allows per stage or per bind group.
    pub fn make_layout(&self, device: &wgpu::Device, limits: &DeviceLimits) -> (r: Result<
        GroupLayout,
        RegistryError,
    >)
        requires
            self.wf(),
            limits@.device == *device,
        ensures
            r is Ok <==> layout_fits(self@.uniforms.len() as int, limits@),
            r matches Ok(l) ==> l.entries() == self@.layouts && l.label() == group_label(
                self@.group,
                "_bind_group_layout"@,
            ) && l.device() == *device,
            r matches Err(e) ==> e == RegistryError::TooManyUniforms,
    {
        if !self.layout_fits(limits) {
            return Err(RegistryError::TooManyUniforms);
        }
        Ok(self.build_layout(device, limits))
    }

    /// The bindings of all uniforms of this group, in slot order.
    pub fn make_binds(&self) -> (r: Vec<BindEntry<'_>>)
        requires
            self.wf(),
        ensures
            self.binds_all(r@),
    {
        let mut binds: Vec<BindEntry> = Vec::new();
        let mut i: usize = 0;
        while i < self.uniforms.len()
            invariant
                self.wf(),
                i <= self.uniforms@.len(),
                binds@.len() == i,
                forall|j: int|
                    0 <= j < i ==> {
                        &&& (#[trigger] binds@[j]).binding == j
                        &&& *binds@[j].buffer == self.buffer_at(j)
                        &&& binds@[j].buffer.bytes() == self@.uniforms[j].contents
                        &&& binds@[j].buffer.device() == self@.uniforms[j].device
                        &&& binds@[j].buffer.usage() == uniform_usage()
                        &&& binds@[j].contents@ == self@.uniforms[j].contents
                    },
            decreases self.uniforms@.len() - i,
        {
            assert(self.uniforms@[i as int].buffer_matches());
            let e = self.uniforms[i].make_bind();
            assert(self@.uniforms[i as int] == self.uniforms@[i as int]@);
            binds.push(e);
            i += 1;
        }
        binds
    }

    /// Creates a fresh GPU bind group of this group on `device`, the device
    /// of its buffers, with a fresh layout; nothing is cached. Fails exactly
    /// when the device allows fewer uniforms per layout (`TooManyUniforms`) or
    /// smaller uniform bindings (`BufferTooLarge`).
    pub fn make_group(&self, device: &wgpu::Device, limits: &DeviceLimits) -> (r: Result<
        GroupBinding,
        RegistryError,
    >)
        requires
            self.wf(),
            !self@.off_device(*device),
            limits@.device == *device,
        ensures
            r is Ok <==> layout_fits(self@.uniforms.len() as int, limits@) && bindings_fit(limits@),
            r matches Ok(g) ==> {
                &&& g.layout_entries() == self@.layouts
                &&& g.bindings() == self@.bindings()
                &&& g.label() == group_label(self@.group, "_bind_group"@)
            },
            !layout_fits(self@.uniforms.len() as int, limits@) ==> r == Err::<GroupBinding, RegistryError>(
                RegistryError::TooManyUniforms,
            ),
            layout_fits(self@.uniforms.len() as int, limits@) && !bindings_fit(limits@) ==> r
                == Err::<GroupBinding, RegistryError>(RegistryError::BufferTooLarge),
    {
        if !self.layout_fits(limits) {
            return Err(RegistryError::TooManyUniforms);
        }
        if (limits.max_uniform_buffer_binding_size() as u64) < UNIFORM_BUFFER_ROOM {
            return Err(RegistryError::BufferTooLarge);
        }
        let layout = self.build_layout(device, limits);
        let binds = self.make_binds();
        let label = self.label("_bind_group");
        proof {
            assert forall|i: int| 0 <= i < binds@.len() implies {
                &&& (#[trigger] binds@[i]).binding == layout.entries()[i].binding
                &&& layout.entries()[i].kind == BufferKind::Uniform
                &&& layout.entries()[i].min_binding_size.is_none()
                &&& binds@[i].buffer.device() == *device
                &&& binds@[i].buffer.usage().uniform
                &&& binds@[i].buffer.bytes().len() > 0
                &&& binds@[i].buffer.bytes().len() + 4 <= limits@.max_uniform_buffer_binding_size
            } by {
                assert(self@.uniforms[i].wf());
                assert(!(0 <= i < self@.uniforms.len() && self@.uniforms[i].device != *device));
            }
        }
        let g = create_bind_group(device, limits, label.as_str(), &layout, binds.as_slice());
        assert(g.bindings() =~= self@.bindings());
        Ok(g)
    }

    /// Attaches a fresh bind group of this group, made on `device`, the device
    /// of its buffers, to `render_pass` at the group's slot. Fails, attaching
    /// nothing, exactly when `make_group` does.
    pub fn set_render_pass(
        &self,
        device: &wgpu::Device,
        limits: &DeviceLimits,
        render_pass: &mut RecordedPass,
    ) -> (r: Result<(), RegistryError>)
        requires
            self.wf(),
            !self@.off_device(*device),
            limits@.device == *device,
        ensures
            r is Ok <==> layout_fits(self@.uniforms.len() as int, limits@) && bindings_fit(limits@),
            r is Ok ==> final(render_pass).attached() == old(render_pass).attached().push(
                self@.attached(),
            ),
            r is Err ==> final(render_pass).attached() == old(render_pass).attached(),
            !layout_fits(self@.uniforms.len() as int, limits@) ==> r == Err::<(), RegistryError>(
                RegistryError::TooManyUniforms,
            ),
            layout_fits(self@.uniforms.len() as int, limits@) && !bindings_fit(limits@) ==> r
                == Err::<(), RegistryError>(RegistryError::BufferTooLarge),
    {
        let group = match self.make_group(device, limits) {
            Ok(g) => g,
            Err(e) => return Err(e),
        };
        attach_bind_group(render_pass, self.bind_group.index(), &group);
        Ok(())
    }

    /// The declaration lines of all uniforms of this group, in slot order.
    pub fn make_wgsl(&self) -> (r: String)
        ensures
            r@ == self@.declarations(),
    {
        let mut s = String::new();
        let mut i: usize = 0;
        while i < self.uniforms.len()
            invariant
                i <= self.uniforms@.len(),
                s@ == declarations(self@.uniforms.take(i as int)),
            decreases self.uniforms@.len() - i,
        {
            let line = self.uniforms[i].make_wgsl();
            s.append(line.as_str());
            proof {
                let us = self@.uniforms;
                assert(us.take(i + 1).drop_last() =~= us.take(i as int));
                assert(us[i as int] == self.uniforms@[i as int]@);
            }
            i += 1;
        }
        assert(self@.uniforms.take(i as int) =~= self@.uniforms);
        s
    }

    pub fn bind_group(&self) -> (r: GroupIndex)
        ensures
            r == self@.group,
    {
        self.bind_group
    }

    pub fn len(&self) -> (r: usize)
        ensures
            r == self@.uniforms.len(),
    {
        self.uniforms.len()
    }

    pub fn uniform(&self, slot: usize) -> (r: &Uniform)
        requires
            slot < self@.uniforms.len(),
        ensures
            r@ == self@.uniforms[slot as int],
    {
        &self.uniforms[slot]
    }

    pub fn layouts(&self) -> (r: &[LayoutEntry])
        ensures
            r@ == self@.layouts,
    {
        self.layouts.as_slice()
    }
}

} // verus!
