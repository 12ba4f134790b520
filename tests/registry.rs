use uniform_registry::encode::{decode_value, encode_value};
use uniform_registry::{
    group_names, handle_input, DeviceLimits, BufferKind, RegistryError, resize_request, BindGroup, FrameAction, GroupIndex, LayoutEntry,
    PipelineBindGroups, SurfaceSize, Uniform, WindowInput,
};

fn device() -> wgpu::Device {
    let (device, _queue) = wgpu::Device::noop(&wgpu::DeviceDescriptor::default());
    device
}

fn entry(binding: u32) -> LayoutEntry {
    LayoutEntry {
        binding,
        vertex: false,
        fragment: true,
        kind: BufferKind::Uniform,
        has_dynamic_offset: false,
        min_binding_size: None,
    }
}

#[test]
fn group_ordinals_are_slot_numbers() {
    assert_eq!(GroupIndex::Scalars.index(), 0);
    assert_eq!(GroupIndex::Textures.index(), 1);
}

#[test]
fn group_names_are_variant_names() {
    assert_eq!(group_names(GroupIndex::Scalars), "Scalars");
    assert_eq!(group_names(GroupIndex::Textures), "Textures");
}

#[test]
fn uniform_declares_its_group_and_slot() {
    let device = device();
    let limits = DeviceLimits::of(&device);
    let u = Uniform::new("time", 7, GroupIndex::Textures, 12, &device, &limits).unwrap();
    assert_eq!(u.make_wgsl(), "@group(1) @binding(12) var<uniform> time: i32;\n");
    assert_eq!(u.name(), "time");
    assert_eq!(u.value(), 7);
    assert_eq!(u.group(), GroupIndex::Textures);
    assert_eq!(u.binding(), 12);
    assert_eq!(u.make_layout(), entry(12));
}

#[test]
fn uniform_buffer_holds_four_bytes() {
    let device = device();
    let limits = DeviceLimits::of(&device);
    let u = Uniform::new("x", 300, GroupIndex::Scalars, 0, &device, &limits).unwrap();
    let bind = u.make_bind();
    assert_eq!(bind.binding, 0);
    assert_eq!(bind.buffer.gpu_buffer().size(), 4);
    assert_eq!(bind.contents, &[44u8, 1, 0, 0][..]);
}

#[test]
fn screen_size_declares_two_lines() {
    let device = device();
    let limits = DeviceLimits::of(&device);
    let mut groups = PipelineBindGroups::new("main");
    groups.new_uniform("screen_x", GroupIndex::Scalars, 800, &device, &limits).unwrap();
    groups.new_uniform("screen_y", GroupIndex::Scalars, 600, &device, &limits).unwrap();
    let text = groups.make_wgsl();
    assert_eq!(
        text,
        "@group(0) @binding(0) var<uniform> screen_x: i32;\n\
         @group(0) @binding(1) var<uniform> screen_y: i32;\n"
    );
    assert_eq!(text.lines().count(), 2);
}

#[test]
fn slots_follow_registration_order() {
    let device = device();
    let limits = DeviceLimits::of(&device);
    let mut g = BindGroup::new(GroupIndex::Scalars);
    let names = ["a", "b", "c", "d", "e", "f", "g", "h", "i", "j", "k"];
    for (n, name) in names.iter().enumerate() {
        g.new_uniform(name, n as i32 * 10, &device, &limits).unwrap();
    }
    assert_eq!(g.len(), names.len());
    for (n, name) in names.iter().enumerate() {
        let u = g.uniform(n);
        assert_eq!(u.binding(), n as u32);
        assert_eq!(u.name(), *name);
        assert_eq!(u.value(), n as i32 * 10);
    }
    assert_eq!(g.make_wgsl().lines().count(), names.len());
    assert!(g.make_wgsl().lines().last().unwrap().contains("@binding(10)"));
}

#[test]
fn layout_entries_match_slots() {
    let device = device();
    let limits = DeviceLimits::of(&device);
    let mut g = BindGroup::new(GroupIndex::Scalars);
    g.new_uniform("a", 1, &device, &limits).unwrap();
    g.new_uniform("b", 2, &device, &limits).unwrap();
    g.new_uniform("c", 3, &device, &limits).unwrap();
    assert_eq!(
        g.layouts(),
        &[entry(0), entry(1), entry(2)][..]
    );
    assert!(g.make_layout(&device, &limits).is_ok());
}

#[test]
fn rebuilt_binds_agree() {
    let device = device();
    let limits = DeviceLimits::of(&device);
    let mut g = BindGroup::new(GroupIndex::Scalars);
    g.new_uniform("a", 5, &device, &limits).unwrap();
    g.new_uniform("b", -5, &device, &limits).unwrap();
    let first = g.make_binds();
    let second = g.make_binds();
    assert_eq!(first.len(), 2);
    assert_eq!(first.len(), second.len());
    for (x, y) in first.iter().zip(second.iter()) {
        assert_eq!(x.binding, y.binding);
        assert!(std::ptr::eq(x.buffer, y.buffer));
        assert_eq!(x.contents, y.contents);
        assert_eq!(x.buffer.gpu_buffer().size(), y.buffer.gpu_buffer().size());
    }
    assert!(g.make_group(&device, &limits).is_ok());
    assert!(g.make_group(&device, &limits).is_ok());
}

#[test]
fn empty_group_is_left_out() {
    let device = device();
    let limits = DeviceLimits::of(&device);
    let mut groups = PipelineBindGroups::new("main");
    groups.new_uniform("screen_x", GroupIndex::Scalars, 800, &device, &limits).unwrap();
    assert!(groups.pipeline_layout(&device, &limits).is_ok());
    assert_eq!(groups.layout_groups(), &[GroupIndex::Scalars][..]);
    assert!(!groups.make_wgsl().contains("@group(1)"));
    assert_eq!(groups.group(GroupIndex::Textures).make_wgsl(), "");
}

#[test]
fn only_textures_takes_first_layout_slot() {
    let device = device();
    let limits = DeviceLimits::of(&device);
    let mut groups = PipelineBindGroups::new("main");
    groups.new_uniform("frame", GroupIndex::Textures, 1, &device, &limits).unwrap();
    assert!(groups.pipeline_layout(&device, &limits).is_ok());
    assert_eq!(groups.layout_groups(), &[GroupIndex::Textures][..]);
    assert_eq!(groups.make_wgsl(), "@group(1) @binding(0) var<uniform> frame: i32;\n");
}

#[test]
fn no_uniforms_no_layouts() {
    let device = device();
    let limits = DeviceLimits::of(&device);
    let mut groups = PipelineBindGroups::new("empty");
    assert!(groups.pipeline_layout(&device, &limits).is_ok());
    assert!(groups.layout_groups().is_empty());
    assert_eq!(groups.make_wgsl(), "");
    assert_eq!(groups.name(), "empty");
}

#[test]
fn layouts_are_rebuilt_not_appended() {
    let device = device();
    let limits = DeviceLimits::of(&device);
    let mut groups = PipelineBindGroups::new("main");
    groups.new_uniform("a", GroupIndex::Scalars, 1, &device, &limits).unwrap();
    assert!(groups.pipeline_layout(&device, &limits).is_ok());
    assert!(groups.pipeline_layout(&device, &limits).is_ok());
    assert_eq!(groups.layout_groups(), &[GroupIndex::Scalars][..]);
    groups.new_uniform("b", GroupIndex::Textures, 2, &device, &limits).unwrap();
    assert!(groups.pipeline_layout(&device, &limits).is_ok());
    assert_eq!(groups.layout_groups(), &[GroupIndex::Scalars, GroupIndex::Textures][..]);
}

#[test]
fn set_value_reads_back_through_binds() {
    let device = device();
    let limits = DeviceLimits::of(&device);
    let mut groups = PipelineBindGroups::new("main");
    groups.new_uniform("screen_x", GroupIndex::Scalars, 800, &device, &limits).unwrap();
    groups.new_uniform("screen_y", GroupIndex::Scalars, 600, &device, &limits).unwrap();
    groups.set_value(GroupIndex::Scalars, 1, -42, &device, &limits).unwrap();
    let g = groups.group(GroupIndex::Scalars);
    assert_eq!(g.uniform(1).value(), -42);
    assert_eq!(g.uniform(0).value(), 800);
    let binds = g.make_binds();
    assert_eq!(binds[1].binding, 1);
    assert_eq!(decode_value(binds[1].contents), Some(-42));
    assert_eq!(decode_value(binds[0].contents), Some(800));
    assert!(g.make_group(&device, &limits).is_ok());
}

#[test]
fn resize_to_zero_is_ignored() {
    assert_eq!(resize_request(0, 0), None);
    assert_eq!(resize_request(0, 600), None);
    assert_eq!(resize_request(800, 0), None);
    assert_eq!(resize_request(800, 600), Some(SurfaceSize { width: 800, height: 600 }));
}

#[test]
fn values_encode_least_significant_byte_first() {
    assert_eq!(encode_value(1), vec![1, 0, 0, 0]);
    assert_eq!(encode_value(-1), vec![255, 255, 255, 255]);
    assert_eq!(encode_value(0x01020304), vec![4, 3, 2, 1]);
    assert_eq!(encode_value(i32::MIN), vec![0, 0, 0, 128]);
    assert_eq!(decode_value(&encode_value(i32::MIN)), Some(i32::MIN));
    assert_eq!(decode_value(&[1, 2]), None);
}

#[test]
fn window_events_choose_actions() {
    assert_eq!(handle_input(true, WindowInput::CloseRequested), FrameAction::Exit);
    assert_eq!(
        handle_input(true, WindowInput::RedrawRequested),
        FrameAction::RenderAndRequestRedraw
    );
    assert_eq!(
        handle_input(true, WindowInput::Resized { width: 1024, height: 768 }),
        FrameAction::Reconfigure(SurfaceSize { width: 1024, height: 768 })
    );
    assert_eq!(handle_input(true, WindowInput::Other), FrameAction::Nothing);
    assert_eq!(handle_input(false, WindowInput::CloseRequested), FrameAction::Nothing);
}

#[test]
fn resize_event_to_zero_reconfigures_nothing() {
    assert_eq!(
        handle_input(true, WindowInput::Resized { width: 0, height: 0 }),
        FrameAction::Nothing
    );
    assert_eq!(
        handle_input(true, WindowInput::Resized { width: 0, height: 480 }),
        FrameAction::Nothing
    );
}

#[test]
fn too_many_uniforms_for_a_layout() {
    let device = device();
    let limits = DeviceLimits::of(&device);
    let limit = device.limits().max_uniform_buffers_per_shader_stage as usize;
    let mut groups = PipelineBindGroups::new("main");
    for n in 0..=limit {
        groups.new_uniform(&format!("u{n}"), GroupIndex::Scalars, n as i32, &device, &limits).unwrap();
    }
    assert!(matches!(groups.pipeline_layout(&device, &limits), Err(RegistryError::TooManyUniforms)));
    assert!(groups.layout_groups().is_empty());
    assert!(matches!(
        groups.group(GroupIndex::Scalars).make_layout(&device, &limits),
        Err(RegistryError::TooManyUniforms)
    ));
}

#[test]
fn both_groups_declare_in_group_order() {
    let device = device();
    let limits = DeviceLimits::of(&device);
    let mut groups = PipelineBindGroups::new("main");
    groups.new_uniform("frame", GroupIndex::Textures, 3, &device, &limits).unwrap();
    groups.new_uniform("screen_x", GroupIndex::Scalars, 800, &device, &limits).unwrap();
    assert_eq!(
        groups.make_wgsl(),
        "@group(0) @binding(0) var<uniform> screen_x: i32;\n\
         @group(1) @binding(0) var<uniform> frame: i32;\n"
    );
    assert!(groups.pipeline_layout(&device, &limits).is_ok());
    assert_eq!(groups.layout_groups(), &[GroupIndex::Scalars, GroupIndex::Textures][..]);
}

#[test]
fn duplicate_names_take_new_slots() {
    let device = device();
    let limits = DeviceLimits::of(&device);
    let mut g = BindGroup::new(GroupIndex::Scalars);
    g.new_uniform("x", 1, &device, &limits).unwrap();
    g.new_uniform("x", 2, &device, &limits).unwrap();
    assert_eq!(g.len(), 2);
    assert_eq!(g.uniform(1).binding(), 1);
    assert_eq!(g.uniform(1).name(), "x");
    assert_eq!(g.uniform(1).value(), 2);
}

#[test]
fn device_limits_match_the_device() {
    let device = device();
    let limits = DeviceLimits::of(&device);
    let expected = device.limits();
    assert_eq!(limits.max_buffer_size(), expected.max_buffer_size);
    assert_eq!(limits.max_bind_groups(), expected.max_bind_groups);
    assert_eq!(
        limits.max_uniform_buffers_per_shader_stage(),
        expected.max_uniform_buffers_per_shader_stage
    );
}
