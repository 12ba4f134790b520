use vstd::prelude::*;
use vstd::string::StringExecFns;

use crate::gpu::{
    create_pipeline_layout, layout_fits, DeviceLimits, GroupLayout, LimitsView, PipelineLayoutBuild,
    RecordedPass,
};
use crate::group::GroupIndex;
use crate::uniform::{bindings_fit, buffers_fit, BindGroup, BindGroupView, RegistryError};

verus! {

/// What a pipeline's set of bind groups is, apart from GPU objects.
pub ghost struct PipelineView {
    pub name: Seq<char>,
    pub scalars: BindGroupView,
    pub textures: BindGroupView,
    /// The group of each layout accumulated so far, in order.
    pub layout_groups: Seq<GroupIndex>,
}

impl PipelineView {
    /// Both groups are well formed and each holds its own index.
    pub open spec fn wf(self) -> bool {
        &&& self.scalars.wf()
        &&& self.scalars.group == GroupIndex::Scalars
        &&& self.textures.wf()
        &&& self.textures.group == GroupIndex::Textures
    }

    pub open spec fn group(self, g: GroupIndex) -> BindGroupView {
        match g {
            GroupIndex::Scalars => self.scalars,
            GroupIndex::Textures => self.textures,
        }
    }

    /// This set with group `g` replaced by `v`.
    pub open spec fn with_group(self, g: GroupIndex, v: BindGroupView) -> PipelineView {
        match g {
            GroupIndex::Scalars => PipelineView { scalars: v, ..self },
            GroupIndex::Textures => PipelineView { textures: v, ..self },
        }
    }

    /// The groups that hold at least one uniform, in group order.
    pub open spec fn present_groups(self) -> Seq<GroupIndex> {
        (if self.scalars.uniforms.len() > 0 {
            seq![GroupIndex::Scalars]
        } else {
            Seq::empty()
        }) + (if self.textures.uniforms.len() > 0 {
            seq![GroupIndex::Textures]
        } else {
            Seq::empty()
        })
    }

    /// The shader text of all groups, in group order.
    pub open spec fn declarations(self) -> Seq<char> {
        self.scalars.declarations() + self.textures.declarations()
    }
}

/// Each group fits in one bind group layout under `l`.
pub open spec fn groups_fit(p: PipelineView, l: LimitsView) -> bool {
    layout_fits(p.scalars.uniforms.len() as int, l) && layout_fits(
        p.textures.uniforms.len() as int,
        l,
    )
}

/// Each group fits in a layout and the groups that hold uniforms fit in a
/// pipeline layout under `l`.
pub open spec fn self_fits(p: PipelineView, l: LimitsView) -> bool {
    groups_fit(p, l) && p.present_groups().len() <= l.max_bind_groups
}

/// The label of a pipeline layout of the set named `name`.
pub open spec fn pipeline_label(name: Seq<char>) -> Seq<char> {
    name + "_pipeline_layout"@
}

/// The bind groups of one render pipeline: one per `GroupIndex`, always
/// present, possibly empty, and the GPU layouts of the last pipeline layout
/// built from them.
pub struct PipelineBindGroups {
    name: String,
    scalars: BindGroup,
    textures: BindGroup,
    layouts: Vec<GroupLayout>,
    layout_groups: Vec<GroupIndex>,
}

impl View for PipelineBindGroups {
    type V = PipelineView;

    closed spec fn view(&self) -> PipelineView {
        PipelineView {
            name: self.name@,
            scalars: self.scalars@,
            textures: self.textures@,
            layout_groups: self.layout_groups@,
        }
    }
}

impl PipelineBindGroups {
    pub open spec fn wf(&self) -> bool {
        self@.wf() && self.groups_sound()
    }

    /// Both groups' buffers match their uniforms.
    pub closed spec fn groups_sound(&self) -> bool {
        self.scalars.wf() && self.textures.wf()
    }

    /// A set with both groups empty.
    pub fn new(name: &str) -> (r: Self)
        ensures
            r@.name == name@,
            r@.scalars.uniforms.len() == 0,
            r@.textures.uniforms.len() == 0,
            r@.layout_groups.len() == 0,
            r.wf(),
    {
        PipelineBindGroups {
            name: String::from_str(name),
            scalars: BindGroup::new(GroupIndex::Scalars),
            textures: BindGroup::new(GroupIndex::Textures),
            layouts: Vec::new(),
            layout_groups: Vec::new(),
        }
    }

    /// Registers a uniform in group `group`, in its next free slot, with a
    /// buffer on `device`. Fails, changing nothing, exactly when the device's
    /// buffers are too small.
    pub fn new_uniform(
        &mut self,
        name: &str,
        group: GroupIndex,
        value: i32,
        device: &wgpu::Device,
        limits: &DeviceLimits,
    ) -> (r: Result<(), RegistryError>)
        requires
            old(self).wf(),
            old(self)@.group(group).uniforms.len() <= u32::MAX,
            limits@.device == *device,
        ensures
            final(self).wf(),
            r is Ok <==> buffers_fit(limits@),
            r is Ok ==> final(self)@ == old(self)@.with_group(
                group,
                old(self)@.group(group).registered(name@, value, *device),
            ),
            r matches Err(e) ==> e == RegistryError::BufferTooLarge && final(self)@ == old(self)@,
    {
        match group {
            GroupIndex::Scalars => self.scalars.new_uniform(name, value, device, limits),
            GroupIndex::Textures => self.textures.new_uniform(name, value, device, limits),
        }
    }

    /// Sets the value of the uniform at `slot` of group `group`, replacing its
    /// buffer by one on `device`. Fails, changing nothing, exactly when the
    /// device's buffers are too small.
    pub fn set_value(
        &mut self,
        group: GroupIndex,
        slot: u32,
        value: i32,
        device: &wgpu::Device,
        limits: &DeviceLimits,
    ) -> (r: Result<(), RegistryError>)
        requires
            old(self).wf(),
            slot < old(self)@.group(group).uniforms.len(),
            limits@.device == *device,
        ensures
            final(self).wf(),
            r is Ok <==> buffers_fit(limits@),
            r is Ok ==> final(self)@ == old(self)@.with_group(
                group,
                old(self)@.group(group).with_value(slot as int, value, *device),
            ),
            r matches Err(e) ==> e == RegistryError::BufferTooLarge && final(self)@ == old(self)@,
    {
        match group {
            GroupIndex::Scalars => self.scalars.set_value(slot, value, device, limits),
            GroupIndex::Textures => self.textures.set_value(slot, value, device, limits),
        }
    }

    /// Builds on `device` the layout of each group that holds a uniform, in
    /// group order, keeps them as this set's layouts in place of earlier
    /// ones, and creates a pipeline layout from them. Empty groups take no
    /// slot. Fails, changing nothing, exactly when a group holds more
    /// uniforms than the device allows per layout (`TooManyUniforms`), or
    /// else more groups hold uniforms than it allows bind groups
    /// (`TooManyGroups`).
    pub fn pipeline_layout(&mut self, device: &wgpu::Device, limits: &DeviceLimits) -> (r: Result<
        PipelineLayoutBuild,
        RegistryError,
    >)
        requires
            old(self).wf(),
            limits@.device == *device,
        ensures
            final(self).wf(),
            r is Ok <==> self_fits(old(self)@, limits@),
            r matches Ok(p) ==> {
                &&& final(self)@ == (PipelineView {
                    layout_groups: old(self)@.present_groups(),
                    ..old(self)@
                })
                &&& p.group_layouts() == old(self)@.present_groups().map_values(
                    |g: GroupIndex| old(self)@.group(g).layouts,
                )
                &&& p.label() == pipeline_label(old(self)@.name)
            },
            !groups_fit(old(self)@, limits@) ==> r == Err::<PipelineLayoutBuild, RegistryError>(
                RegistryError::TooManyUniforms,
            ),
            groups_fit(old(self)@, limits@) && !self_fits(old(self)@, limits@) ==> r == Err::<
                PipelineLayoutBuild,
                RegistryError,
            >(RegistryError::TooManyGroups),
            r is Err ==> final(self)@ == old(self)@,
    {
        let mut layouts: Vec<GroupLayout> = Vec::new();
        let mut groups: Vec<GroupIndex> = Vec::new();
        match self.scalars.make_layout(device, limits) {
            Ok(l) => {
                if self.scalars.len() > 0 {
                    layouts.push(l);
                    groups.push(GroupIndex::Scalars);
                }
            },
            Err(e) => return Err(e),
        }
        match self.textures.make_layout(device, limits) {
            Ok(l) => {
                if self.textures.len() > 0 {
                    layouts.push(l);
                    groups.push(GroupIndex::Textures);
                }
            },
            Err(e) => return Err(e),
        }
        if layouts.len() as u64 > limits.max_bind_groups() as u64 {
            return Err(RegistryError::TooManyGroups);
        }
        let ghost present = old(self)@.present_groups();
        assert(groups@ =~= present);
        assert forall|i: int| 0 <= i < layouts@.len() implies (#[trigger] layouts@[i]).device()
            == *device && layouts@[i].entries().len() <= limits@.max_uniform_buffers_per_shader_stage
            && layouts@[i].entries() == old(self)@.group(present[i]).layouts by {}
        let mut label = self.name.clone();
        label.append("_pipeline_layout");
        let p = create_pipeline_layout(device, limits, label.as_str(), layouts.as_slice());
        self.layouts = layouts;
        self.layout_groups = groups;
        assert(p.group_layouts() =~= present.map_values(|g: GroupIndex| old(self)@.group(g).layouts));
        Ok(p)
    }

    /// Attaches a fresh bind group of every group, empty ones too, made on
    /// `device`, the device of the buffers, to `render_pass`: scalars at slot
    /// 0, then textures at slot 1. Fails, attaching nothing, exactly when a
    /// group holds more uniforms than the device allows per layout
    /// (`TooManyUniforms`) or its uniform bindings are too small
    /// (`BufferTooLarge`); the first group that fails gives the error.
    pub fn set_render_pass(
        &mut self,
        device: &wgpu::Device,
        limits: &DeviceLimits,
        render_pass: &mut RecordedPass,
    ) -> (r: Result<(), RegistryError>)
        requires
            old(self).wf(),
            !old(self)@.scalars.off_device(*device),
            !old(self)@.textures.off_device(*device),
            limits@.device == *device,
        ensures
            *final(self) == *old(self),
            r is Ok <==> groups_fit(old(self)@, limits@) && bindings_fit(limits@),
            r is Ok ==> final(render_pass).attached() == old(render_pass).attached().push(
                old(self)@.scalars.attached(),
            ).push(old(self)@.textures.attached()),
            r is Err ==> final(render_pass).attached() == old(render_pass).attached(),
            r == Err::<(), RegistryError>(RegistryError::TooManyUniforms) ==> !groups_fit(
                old(self)@,
                limits@,
            ),
            r == Err::<(), RegistryError>(RegistryError::BufferTooLarge) ==> !bindings_fit(limits@),
            r is Err ==> r == Err::<(), RegistryError>(RegistryError::TooManyUniforms) || r == Err::<
                (),
                RegistryError,
            >(RegistryError::BufferTooLarge),
    {
        let s = match self.scalars.make_group(device, limits) {
            Ok(g) => g,
            Err(e) => return Err(e),
        };
        let t = match self.textures.make_group(device, limits) {
            Ok(g) => g,
            Err(e) => return Err(e),
        };
        crate::gpu::attach_bind_group(render_pass, self.scalars.bind_group().index(), &s);
        crate::gpu::attach_bind_group(render_pass, self.textures.bind_group().index(), &t);
        Ok(())
    }

    /// The declaration lines of all uniforms, group by group.
    pub fn make_wgsl(&self) -> (r: String)
        ensures
            r@ == self@.declarations(),
    {
        let mut s = self.scalars.make_wgsl();
        let t = self.textures.make_wgsl();
        s.append(t.as_str());
        s
    }

    pub fn name(&self) -> (r: &str)
        ensures
            r@ == self@.name,
    {
        self.name.as_str()
    }

    pub fn group(&self, group: GroupIndex) -> (r: &BindGroup)
        requires
            self.wf(),
        ensures
            r@ == self@.group(group),
            r.wf(),
    {
        match group {
            GroupIndex::Scalars => &self.scalars,
            GroupIndex::Textures => &self.textures,
        }
    }

    /// The group of each layout of the last pipeline layout built, in slot
    /// order.
    pub fn layout_groups(&self) -> (r: &[GroupIndex])
        ensures
            r@ == self@.layout_groups,
    {
        self.layout_groups.as_slice()
    }
}

} // verus!
