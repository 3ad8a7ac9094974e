use wgpu::TextureFormat;
use compute_present::commands::Command;
use compute_present::graphics::{after_frame, next_texture_id, FrameError, Graphics, LoopControl};
use compute_present::host::{handle_event, HostAction, HostEvent};
use compute_present::presentation::{RenderTexture, Texture, TextureUsage};
use compute_present::shaders::{Shader, ShaderError, UserShaders, UserShadersBuilder};
use compute_present::surface::{
    choose_surface_format, select_format, PhysicalSize, PresentationMode, SurfaceConfig,
};

fn context(width: u32, height: u32) -> Graphics {
    Graphics::new(PhysicalSize::new(width, height), 0, PresentationMode::Vsync)
}

fn present_pass(texture: u64) -> Vec<Command> {
    vec![
        Command::BeginRenderPass { clear_to_black: true, store: true },
        Command::SetRenderPipeline,
        Command::SetRenderBindGroup { index: 0, texture },
        Command::Draw { vertices: 6, instances: 1 },
        Command::EndRenderPass,
    ]
}

fn count(commands: &[Command], c: Command) -> usize {
    commands.iter().filter(|x| **x == c).count()
}

fn unit(bind_groups: u32, workgroups: (u32, u32, u32)) -> Shader {
    Shader::new("@compute fn main() {}".to_string(), "main".to_string(), bind_groups, workgroups).unwrap()
}

fn two_unit_set() -> UserShaders {
    let mut builder = UserShadersBuilder::new();
    builder.with_shader(unit(2, (8, 4, 1))).with_shader(unit(0, (1, 1, 1)));
    builder.build()
}

#[test]
fn scenario_800_by_600_then_resize() {
    let mut g = context(800, 600);
    assert_eq!(g.prepare_frame(), None);
    let frame = g.render(Ok(())).unwrap();
    assert_eq!(count(&frame, Command::Submit), 1);
    assert_eq!(count(&frame, Command::Present), 1);
    let old_id = g.render_texture().texture.id;

    g.resize(PhysicalSize::new(1024, 768));
    let applied = g.prepare_frame().unwrap();
    assert_eq!((applied.width, applied.height), (1024, 768));
    assert_eq!((g.config().width, g.config().height), (1024, 768));
    let rt = g.render_texture();
    assert_ne!(rt.texture.id, old_id);
    assert_eq!((rt.texture.width, rt.texture.height), (1024, 768));
    let frame = g.render(Ok(())).unwrap();
    let mut expected = present_pass(rt.texture.id);
    expected.push(Command::Submit);
    expected.push(Command::Present);
    assert_eq!(frame, expected);
}

#[test]
fn resize_is_applied_before_acquire() {
    for (w, h) in [(1, 1), (640, 480), (3840, 2160), (u32::MAX, 7)] {
        let mut g = context(800, 600);
        g.resize(PhysicalSize::new(w, h));
        assert!(g.needs_reconfigure());
        let applied = g.prepare_frame().unwrap();
        assert_eq!((applied.width, applied.height), (w, h));
        assert_eq!(g.config().size(), PhysicalSize::new(w, h));
        assert!(!g.needs_reconfigure());
    }
}

#[test]
fn resize_to_the_same_size_needs_no_reconfiguration() {
    let mut g = context(800, 600);
    g.resize(PhysicalSize::new(800, 600));
    assert_eq!(g.prepare_frame(), None);
    assert_eq!(g.render_texture().texture.id, 0);
}

#[test]
fn zero_size_resize_is_ignored() {
    for (w, h) in [(0, 600), (800, 0), (0, 0), (0, u32::MAX)] {
        let mut g = context(800, 600);
        let before = g.config();
        g.resize(PhysicalSize::new(w, h));
        assert_eq!(g.size(), PhysicalSize::new(800, 600));
        assert_eq!(g.config(), before);
        assert_eq!(g.prepare_frame(), None);
    }
}

#[test]
fn empty_shader_set_still_presents() {
    let mut g = context(800, 600);
    g.set_user_shaders(Some(UserShadersBuilder::new().build()));
    let frame = g.render(Ok(())).unwrap();
    let mut expected = vec![Command::BeginComputePass, Command::EndComputePass];
    expected.extend(present_pass(0));
    expected.push(Command::Submit);
    expected.push(Command::Present);
    assert_eq!(frame, expected);
}

#[test]
fn no_shader_set_presents_cleared_texture() {
    let mut g = context(800, 600);
    let frame = g.render(Ok(())).unwrap();
    assert_eq!(frame[0], Command::BeginRenderPass { clear_to_black: true, store: true });
    assert_eq!(count(&frame, Command::BeginComputePass), 0);
    assert_eq!(count(&frame, Command::Present), 1);
}

#[test]
fn execute_records_one_pass_in_insertion_order() {
    let set = two_unit_set();
    assert_eq!(set.len(), 2);
    let mut commands = vec![Command::Submit];
    set.execute(&mut commands);
    assert_eq!(
        commands,
        vec![
            Command::Submit,
            Command::BeginComputePass,
            Command::SetComputePipeline { unit: 0 },
            Command::SetComputeBindGroup { unit: 0, group: 0 },
            Command::SetComputeBindGroup { unit: 0, group: 1 },
            Command::DispatchWorkgroups { x: 8, y: 4, z: 1 },
            Command::SetComputePipeline { unit: 1 },
            Command::DispatchWorkgroups { x: 1, y: 1, z: 1 },
            Command::EndComputePass,
        ]
    );
}

#[test]
fn compute_pass_precedes_presentation() {
    let mut g = context(320, 200);
    g.set_user_shaders(Some(two_unit_set()));
    let frame = g.render(Ok(())).unwrap();
    assert_eq!(frame.len(), 8 + 5 + 2);
    assert_eq!(frame[0], Command::BeginComputePass);
    assert_eq!(frame[7], Command::EndComputePass);
    assert_eq!(frame[8..13].to_vec(), present_pass(0));
    assert_eq!(count(&frame, Command::Submit), 1);
}

#[test]
fn replaced_texture_is_sampled() {
    let mut g = context(800, 600);
    g.resize(PhysicalSize::new(400, 300));
    g.prepare_frame();
    let frame = g.render(Ok(())).unwrap();
    assert_eq!(count(&frame, Command::SetRenderBindGroup { index: 0, texture: 0 }), 0);
    assert_eq!(count(&frame, Command::SetRenderBindGroup { index: 0, texture: 1 }), 1);
    assert_eq!(g.render_texture().texture, Texture::storage(1, 400, 300, 0));
}

#[test]
fn lost_surface_skips_frame_then_reconfigures() {
    let mut g = context(800, 600);
    assert_eq!(g.render(Err(FrameError::Lost)), Err(FrameError::Lost));
    assert!(g.needs_reconfigure());
    let applied = g.prepare_frame().unwrap();
    assert_eq!((applied.width, applied.height), (800, 600));
    assert_eq!(g.render_texture().texture.id, 1);
    assert!(!g.needs_reconfigure());
    assert_eq!(after_frame(Some(FrameError::Lost)), LoopControl::Continue);
}

#[test]
fn out_of_memory_ends_the_loop() {
    let mut g = context(800, 600);
    assert_eq!(g.render(Err(FrameError::OutOfMemory)), Err(FrameError::OutOfMemory));
    assert_eq!(after_frame(Some(FrameError::OutOfMemory)), LoopControl::Exit);
    assert!(!g.needs_reconfigure());
}

#[test]
fn transient_errors_drop_the_frame_only() {
    for e in [FrameError::Timeout, FrameError::Outdated] {
        let mut g = context(800, 600);
        assert_eq!(g.render(Err(e)), Err(e));
        assert!(!g.needs_reconfigure());
        assert_eq!(after_frame(Some(e)), LoopControl::Continue);
    }
    assert_eq!(after_frame(None), LoopControl::Continue);
}

#[test]
fn select_format_prefers_srgb() {
    assert_eq!(select_format(&vec![false, true, true]), Some(1));
    assert_eq!(select_format(&vec![false, false]), Some(0));
    assert_eq!(select_format(&vec![true]), Some(0));
    assert_eq!(select_format(&vec![]), None);
}

#[test]
fn choose_surface_format_reads_wgpu_formats() {
    let formats = vec![TextureFormat::Bgra8Unorm, TextureFormat::Rgba8Unorm, TextureFormat::Bgra8UnormSrgb];
    assert_eq!(choose_surface_format(&formats), Some(2));
    assert_eq!(choose_surface_format(&vec![TextureFormat::Rgba16Float]), Some(0));
    assert_eq!(choose_surface_format(&vec![]), None);
}

#[test]
fn shader_needs_module_and_entry_point() {
    assert!(matches!(Shader::new(String::new(), "main".to_string(), 0, (1, 1, 1)), Err(ShaderError::MissingModule)));
    assert!(matches!(Shader::new("src".to_string(), String::new(), 0, (1, 1, 1)), Err(ShaderError::MissingEntryPoint)));
    let s = unit(3, (2, 3, 4));
    assert_eq!(s.entry_point(), "main");
    assert_eq!(s.bind_groups(), 3);
    assert_eq!(s.workgroups(), (2, 3, 4));
}

#[test]
fn initial_configuration() {
    let g = Graphics::new(PhysicalSize::new(800, 600), 2, PresentationMode::NoVsync);
    let c = g.config();
    assert_eq!(c, SurfaceConfig::new(PhysicalSize::new(800, 600), 2, PresentationMode::NoVsync));
    assert_eq!(c.alpha_mode, 0);
    let rt = g.render_texture();
    assert_eq!(rt, RenderTexture::new(0, &c));
    assert_eq!(rt.texture.usage, TextureUsage::Storage);
    assert!(rt.texture.nearest_filtering && rt.texture.clamp_to_edge);
    assert!(g.user_shaders().is_none());
}

#[test]
fn texture_ids_wrap_without_repeating() {
    assert_eq!(next_texture_id(0), 1);
    assert_eq!(next_texture_id(u64::MAX), 0);
}

#[test]
fn host_event_handling() {
    let size = PhysicalSize::new(10, 20);
    assert_eq!(handle_event(HostEvent::CloseRequested, false), HostAction::Exit);
    assert_eq!(handle_event(HostEvent::KeyPressed { escape: true }, false), HostAction::Exit);
    assert_eq!(handle_event(HostEvent::KeyPressed { escape: false }, false), HostAction::Ignore);
    assert_eq!(handle_event(HostEvent::Resized(size), false), HostAction::Resize(size));
    assert_eq!(handle_event(HostEvent::ScaleFactorChanged(size), false), HostAction::Resize(size));
    assert_eq!(handle_event(HostEvent::CloseRequested, true), HostAction::Ignore);
    assert_eq!(handle_event(HostEvent::Other, false), HostAction::Ignore);
}
