use vstd::prelude::*;

use crate::encode::{lemma_value_bytes_round_trip, value_of_bytes};
use crate::group::GroupIndex;
use crate::pipeline::PipelineView;
use crate::gpu::{GroupBinding, GroupLayout};
use crate::uniform::{
    declarations, uniform_layout_entry, BindEntry, BindGroup, BindGroupView, UniformView,
};
use crate::wgsl::{declaration, lemma_declaration_is_one_line, no_line_feed};

verus! {

/// A group after a run of registrations, each a name, an initial value and
/// the device of its buffer, made in order.
pub open spec fn register_all(
    g: BindGroupView,
    calls: Seq<(Seq<char>, i32, wgpu::Device)>,
) -> BindGroupView
    decreases calls.len(),
{
    if calls.len() == 0 {
        g
    } else {
        register_all(g, calls.drop_last()).registered(calls.last().0, calls.last().1, calls.last().2)
    }
}

/// The declaration line of each uniform of `us`, written as slot `i` of the
/// group with ordinal `ordinal`.
pub open spec fn declaration_lines(ordinal: nat, us: Seq<UniformView>) -> Seq<Seq<char>> {
    Seq::new(us.len(), |i: int| declaration(ordinal, i as nat, us[i].name))
}

/// Registering a uniform keeps a group well formed.
pub proof fn lemma_registered_wf(
    g: BindGroupView,
    name: Seq<char>,
    value: i32,
    device: wgpu::Device,
)
    requires
        g.wf(),
        g.uniforms.len() <= u32::MAX,
    ensures
        g.registered(name, value, device).wf(),
        g.registered(name, value, device).group == g.group,
        g.registered(name, value, device).uniforms.len() == g.uniforms.len() + 1,
{
    let r = g.registered(name, value, device);
    assert forall|i: int| 0 <= i < r.uniforms.len() implies {
        &&& (#[trigger] r.uniforms[i]).wf()
        &&& r.uniforms[i].group == r.group
        &&& r.uniforms[i].binding == i
        &&& r.layouts[i] == r.uniforms[i].layout_entry()
    } by {
        if i < g.uniforms.len() {
            assert(g.uniforms[i].wf());
        }
    }
}

/// For every run of registrations into an empty group, the uniforms take the
/// binding slots `0..n` in call order, each with its own name and value.
pub proof fn lemma_slots_follow_call_order(
    g: BindGroupView,
    calls: Seq<(Seq<char>, i32, wgpu::Device)>,
)
    requires
        g.wf(),
        g.uniforms.len() == 0,
        calls.len() <= u32::MAX,
    ensures
        register_all(g, calls).wf(),
        register_all(g, calls).group == g.group,
        register_all(g, calls).uniforms.len() == calls.len(),
        forall|i: int|
            0 <= i < calls.len() ==> {
                &&& (#[trigger] register_all(g, calls).uniforms[i]).binding == i
                &&& register_all(g, calls).uniforms[i].name == calls[i].0
                &&& register_all(g, calls).uniforms[i].value == calls[i].1
            },
    decreases calls.len(),
{
    if calls.len() > 0 {
        let prev = calls.drop_last();
        lemma_slots_follow_call_order(g, prev);
        lemma_registered_wf(register_all(g, prev), calls.last().0, calls.last().1, calls.last().2);
        let r = register_all(g, calls);
        assert forall|i: int| 0 <= i < calls.len() implies {
            &&& (#[trigger] r.uniforms[i]).binding == i
            &&& r.uniforms[i].name == calls[i].0
            &&& r.uniforms[i].value == calls[i].1
        } by {
            if i < prev.len() {
                assert(r.uniforms[i] == register_all(g, prev).uniforms[i]);
                assert(prev[i] == calls[i]);
            }
        }
    }
}

proof fn lemma_declarations_are_lines(grp: GroupIndex, us: Seq<UniformView>)
    requires
        forall|i: int|
            0 <= i < us.len() ==> (#[trigger] us[i]).group == grp && us[i].binding == i,
    ensures
        declarations(us) == declaration_lines(grp.ordinal(), us).flatten_alt(),
    decreases us.len(),
{
    let lines = declaration_lines(grp.ordinal(), us);
    if us.len() == 0 {
        assert(lines.len() == 0);
    } else {
        let prev = us.drop_last();
        assert forall|i: int| 0 <= i < prev.len() implies (#[trigger] prev[i]).group == grp
            && prev[i].binding == i by {
            assert(prev[i] == us[i]);
        }
        lemma_declarations_are_lines(grp, prev);
        assert(lines.drop_last() =~= declaration_lines(grp.ordinal(), prev));
        assert(us[us.len() - 1].group == grp);
    }
}

/// The shader text of a group is exactly one declaration line per uniform,
/// in slot order, and line `i` names the group's ordinal and binding slot `i`.
pub proof fn lemma_one_line_per_uniform(g: BindGroupView)
    requires
        g.wf(),
    ensures
        declaration_lines(g.group.ordinal(), g.uniforms).len() == g.uniforms.len(),
        g.declarations() == declaration_lines(g.group.ordinal(), g.uniforms).flatten_alt(),
        forall|i: int|
            0 <= i < g.uniforms.len() ==> #[trigger] declaration_lines(
                g.group.ordinal(),
                g.uniforms,
            )[i] == declaration(g.group.ordinal(), g.uniforms[i].binding as nat, g.uniforms[i].name),
        forall|i: int|
            0 <= i < g.uniforms.len() && no_line_feed(g.uniforms[i].name) ==> {
                &&& (#[trigger] declaration_lines(g.group.ordinal(), g.uniforms)[i]).last() == '\n'
                &&& no_line_feed(declaration_lines(g.group.ordinal(), g.uniforms)[i].drop_last())
            },
{
    assert forall|i: int| 0 <= i < g.uniforms.len() implies (#[trigger] g.uniforms[i]).group
        == g.group && g.uniforms[i].binding == i by {}
    lemma_declarations_are_lines(g.group, g.uniforms);
    assert forall|i: int| 0 <= i < g.uniforms.len() && no_line_feed(g.uniforms[i].name) implies {
        &&& (#[trigger] declaration_lines(g.group.ordinal(), g.uniforms)[i]).last() == '\n'
        &&& no_line_feed(declaration_lines(g.group.ordinal(), g.uniforms)[i].drop_last())
    } by {
        lemma_declaration_is_one_line(g.group.ordinal(), i as nat, g.uniforms[i].name);
    }
}

/// The shader text of a pipeline is the lines of the scalars group under
/// ordinal 0 followed by those of the textures group under ordinal 1.
pub proof fn lemma_pipeline_text_by_group(p: PipelineView)
    requires
        p.wf(),
    ensures
        p.declarations() == declaration_lines(0, p.scalars.uniforms).flatten_alt()
            + declaration_lines(1, p.textures.uniforms).flatten_alt(),
{
    lemma_one_line_per_uniform(p.scalars);
    lemma_one_line_per_uniform(p.textures);
}

/// The layout entries of a group are one per uniform, and entry `i` has the
/// binding slot of uniform `i`, which is `i`.
pub proof fn lemma_layout_matches_uniforms(g: BindGroupView)
    requires
        g.wf(),
    ensures
        g.layouts.len() == g.uniforms.len(),
        forall|i: int|
            0 <= i < g.layouts.len() ==> (#[trigger] g.layouts[i]).binding == g.uniforms[i].binding
                && g.layouts[i].binding == i,
{
    assert forall|i: int| 0 <= i < g.layouts.len() implies (#[trigger] g.layouts[i]).binding
        == g.uniforms[i].binding && g.layouts[i].binding == i by {
        assert(g.uniforms[i].wf());
    }
}

/// Two builds of a group's bindings with no change in between bind the same
/// slots to the same buffers with the same contents.
pub proof fn lemma_rebuilt_binds_agree(g: &BindGroup, first: Seq<BindEntry>, second: Seq<BindEntry>)
    requires
        g.binds_all(first),
        g.binds_all(second),
    ensures
        first.len() == second.len(),
        forall|i: int|
            0 <= i < first.len() ==> {
                &&& (#[trigger] first[i]).binding == second[i].binding
                &&& *first[i].buffer == *second[i].buffer
                &&& first[i].buffer.bytes() == second[i].buffer.bytes()
            },
{
    assert forall|i: int| 0 <= i < first.len() implies {
        &&& (#[trigger] first[i]).binding == second[i].binding
        &&& *first[i].buffer == *second[i].buffer
        &&& first[i].buffer.bytes() == second[i].buffer.bytes()
    } by {
        assert(second[i].binding == i);
    }
}

/// After the value at `slot` is set to `v`, the bind group built from the
/// group binds at that slot a buffer whose bytes read back as `v`.
pub proof fn lemma_set_value_reads_back(
    before: BindGroupView,
    slot: int,
    v: i32,
    device: wgpu::Device,
    built: &GroupBinding,
)
    requires
        before.wf(),
        0 <= slot < before.uniforms.len(),
        built.bindings() == before.with_value(slot, v, device).bindings(),
    ensures
        built.bindings()[slot].0 == slot,
        value_of_bytes(built.bindings()[slot].1) == v,
{
    lemma_value_bytes_round_trip(v);
}

/// The bindings handed out by `make_binds` after a set read back the same
/// way: the buffer at `slot` holds the bytes of `v`.
pub proof fn lemma_set_value_reads_back_through_binds(
    before: BindGroupView,
    g: &BindGroup,
    slot: int,
    v: i32,
    device: wgpu::Device,
    entries: Seq<BindEntry>,
)
    requires
        before.wf(),
        0 <= slot < before.uniforms.len(),
        g@ == before.with_value(slot, v, device),
        g.binds_all(entries),
    ensures
        entries[slot].binding == slot,
        value_of_bytes(entries[slot].buffer.bytes()) == v,
{
    lemma_value_bytes_round_trip(v);
    assert(entries[slot].binding == slot);
}

/// A group layout built from a well-formed group has one entry per uniform,
/// and entry `i` is the fragment-visible uniform-buffer entry of slot `i`,
/// the slot of uniform `i`.
pub proof fn lemma_built_layout_matches(g: BindGroupView, built: &GroupLayout)
    requires
        g.wf(),
        built.entries() == g.layouts,
    ensures
        built.entries().len() == g.uniforms.len(),
        forall|i: int|
            0 <= i < built.entries().len() ==> (#[trigger] built.entries()[i]) == uniform_layout_entry(
                i as u32,
            ) && built.entries()[i].binding == g.uniforms[i].binding,
{
    assert forall|i: int| 0 <= i < built.entries().len() implies (#[trigger] built.entries()[i])
        == uniform_layout_entry(i as u32) && built.entries()[i].binding == g.uniforms[i].binding by {
        assert(g.uniforms[i].wf());
    }
}

/// Two bind groups built from one unchanged group have the same layout
/// entries and the same bindings, slot for slot, with the same bytes.
pub proof fn lemma_rebuilt_groups_agree(g: BindGroupView, first: &GroupBinding, second: &GroupBinding)
    requires
        first.layout_entries() == g.layouts,
        first.bindings() == g.bindings(),
        second.layout_entries() == g.layouts,
        second.bindings() == g.bindings(),
    ensures
        first.layout_entries() == second.layout_entries(),
        first.bindings() == second.bindings(),
        first.bindings().len() == g.uniforms.len(),
{
}

/// A group without uniforms takes no pipeline layout slot and adds no shader
/// text.
pub proof fn lemma_empty_group_left_out(p: PipelineView, g: GroupIndex)
    requires
        p.group(g).uniforms.len() == 0,
    ensures
        !p.present_groups().contains(g),
        p.group(g).declarations().len() == 0,
{
    match g {
        GroupIndex::Scalars => {
            if p.textures.uniforms.len() > 0 {
                assert(p.present_groups() =~= seq![GroupIndex::Textures]);
            } else {
                assert(p.present_groups() =~= Seq::<GroupIndex>::empty());
            }
        },
        GroupIndex::Textures => {
            if p.scalars.uniforms.len() > 0 {
                assert(p.present_groups() =~= seq![GroupIndex::Scalars]);
            } else {
                assert(p.present_groups() =~= Seq::<GroupIndex>::empty());
            }
        },
    }
}

/// A set of groups after a run of registrations, each a name, a group, an
/// initial value and the device of its buffer, made in order.
pub open spec fn pipeline_register_all(
    p: PipelineView,
    calls: Seq<(Seq<char>, GroupIndex, i32, wgpu::Device)>,
) -> PipelineView
    decreases calls.len(),
{
    if calls.len() == 0 {
        p
    } else {
        let q = pipeline_register_all(p, calls.drop_last());
        let c = calls.last();
        q.with_group(c.1, q.group(c.1).registered(c.0, c.2, c.3))
    }
}

/// The registrations of a run that went to group `g`, in call order.
pub open spec fn calls_for(
    calls: Seq<(Seq<char>, GroupIndex, i32, wgpu::Device)>,
    g: GroupIndex,
) -> Seq<(Seq<char>, i32, wgpu::Device)>
    decreases calls.len(),
{
    if calls.len() == 0 {
        Seq::empty()
    } else {
        let prev = calls_for(calls.drop_last(), g);
        let c = calls.last();
        if c.1 == g {
            prev.push((c.0, c.2, c.3))
        } else {
            prev
        }
    }
}

proof fn lemma_pipeline_run_by_group(
    p: PipelineView,
    calls: Seq<(Seq<char>, GroupIndex, i32, wgpu::Device)>,
    g: GroupIndex,
)
    ensures
        pipeline_register_all(p, calls).group(g) == register_all(p.group(g), calls_for(calls, g)),
    decreases calls.len(),
{
    if calls.len() > 0 {
        let prev = calls.drop_last();
        lemma_pipeline_run_by_group(p, prev, g);
        let c = calls.last();
        if c.1 == g {
            let cs = calls_for(calls, g);
            assert(cs.drop_last() =~= calls_for(prev, g));
        }
    }
}

/// For every run of registrations into a fresh set of groups, the uniforms
/// of each group are the registrations made into it, in call order, in slots
/// `0..n`.
pub proof fn lemma_pipeline_slots_follow_call_order(
    p: PipelineView,
    calls: Seq<(Seq<char>, GroupIndex, i32, wgpu::Device)>,
    g: GroupIndex,
)
    requires
        p.wf(),
        p.group(g).uniforms.len() == 0,
        calls_for(calls, g).len() <= u32::MAX,
    ensures
        pipeline_register_all(p, calls).group(g).wf(),
        pipeline_register_all(p, calls).group(g).uniforms.len() == calls_for(calls, g).len(),
        forall|i: int|
            0 <= i < calls_for(calls, g).len() ==> {
                &&& (#[trigger] pipeline_register_all(p, calls).group(g).uniforms[i]).binding == i
                &&& pipeline_register_all(p, calls).group(g).uniforms[i].name == calls_for(
                    calls,
                    g,
                )[i].0
                &&& pipeline_register_all(p, calls).group(g).uniforms[i].value == calls_for(
                    calls,
                    g,
                )[i].1
            },
{
    lemma_pipeline_run_by_group(p, calls, g);
    lemma_slots_follow_call_order(p.group(g), calls_for(calls, g));
}

} // verus!
