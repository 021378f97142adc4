use aurora::material::TextureManager;
use aurora::renderer::{
    CommandManager, CommandProcessor, FrameAction, GpuCall, InstancePass, LoadOp, RenderCommand,
    RendererInstance, SectionManager, SurfaceConfiguration, TwoDDescription,
};
use aurora::setup::{
    select_backends, select_features, select_power_preference, Backends, PowerPreference,
};
use aurora::start::{on_event, LoopAction, LoopEvent};
use aurora::WindowSize;

#[test]
fn a_surface_that_gives_no_frame_is_asked_twice() {
    let mut renderer = RendererInstance::new(WindowSize { width: 800, height: 600 });
    assert!(!renderer.has_frame());
    assert_eq!(renderer.init_new_frame(false), FrameAction::Reconfigure);
    assert!(!renderer.has_frame());
    assert_eq!(renderer.init_new_frame(false), FrameAction::GiveUp);
    assert!(!renderer.has_frame());
    // the count starts over
    assert_eq!(renderer.init_new_frame(false), FrameAction::Reconfigure);
    assert_eq!(renderer.init_new_frame(true), FrameAction::Render);
    assert!(renderer.has_frame());
    assert_eq!(renderer.init_new_frame(false), FrameAction::Reconfigure);
    assert!(!renderer.has_frame());
    assert_eq!(renderer.init_new_frame(true), FrameAction::Render);
    assert_eq!(renderer.init_new_frame(true), FrameAction::Render);
    assert!(renderer.has_frame());
}

#[test]
fn a_window_without_extent_keeps_a_surface_of_one_pixel() {
    let mut renderer = RendererInstance::new(WindowSize { width: 0, height: 600 });
    assert_eq!(renderer.size(), WindowSize { width: 0, height: 600 });
    assert_eq!(renderer.config(), SurfaceConfiguration { width: 0, height: 600 });
    renderer.resize(WindowSize { width: 0, height: 0 });
    assert_eq!(renderer.size(), WindowSize { width: 0, height: 0 });
    assert_eq!(renderer.config(), SurfaceConfiguration { width: 1, height: 1 });
    renderer.resize(WindowSize { width: 640, height: 0 });
    assert_eq!(renderer.config(), SurfaceConfiguration { width: 640, height: 1 });
    renderer.resize(WindowSize { width: 1, height: 480 });
    assert_eq!(renderer.size(), WindowSize { width: 1, height: 480 });
    assert_eq!(renderer.config(), SurfaceConfiguration { width: 1, height: 480 });
}

#[test]
fn each_frame_starts_with_nothing_in_the_instance_buffers() {
    let mut textures = TextureManager::new();
    let texture = textures.create_texture_from_data(vec![0; 4 * 400 * 2], 400, 2);
    let mut commands = CommandManager::new();
    let mut renderer = RendererInstance::new(WindowSize { width: 800, height: 600 });
    for frame in 0..2 {
        commands.clear();
        let mut sections: SectionManager<u32> = SectionManager::new();
        {
            let mut processor =
                CommandProcessor::create(&mut commands, &mut sections, &mut textures);
            processor.process_cmd(RenderCommand::Draw2D(TwoDDescription {
                texture: Some(texture),
                ..TwoDDescription::default()
            }));
        }
        assert_eq!(renderer.init_new_frame(true), FrameAction::Render);
        let plan = renderer.build_and_submit(&commands, &mut textures);
        assert!(!renderer.has_frame());
        let pass = InstancePass {
            upload: Some((0, 1)),
            start: 0,
            end: 1,
            base: 0,
            load_op: LoadOp::Load,
        };
        if frame == 0 {
            assert_eq!(plan.recreate_texture_slot, Some((400, 256)));
            assert_eq!(plan.texture_uploads.len(), 1);
            assert_eq!(
                plan.calls,
                vec![
                    GpuCall::BindTexture { backing: 0 },
                    GpuCall::Render2D { pass, texture: Some(0) }
                ]
            );
        } else {
            assert_eq!(plan.recreate_texture_slot, None);
            assert_eq!(plan.texture_uploads.len(), 0);
            assert_eq!(plan.calls, vec![GpuCall::Render2D { pass, texture: Some(0) }]);
        }
        assert_eq!(renderer.pipeline_manager().texture_size, (400, 256));
        assert_eq!(renderer.pipeline_manager().bound_texture, Some(0));
    }
}

#[test]
fn backends_go_by_name_in_any_case() {
    assert_eq!(select_backends(None), Some(Backends::Primary));
    assert_eq!(select_backends(Some("vulkan")), Some(Backends::Vulkan));
    assert_eq!(select_backends(Some("VULKAN")), Some(Backends::Vulkan));
    assert_eq!(select_backends(Some("Metal")), Some(Backends::Metal));
    assert_eq!(select_backends(Some("DX12")), Some(Backends::Dx12));
    assert_eq!(select_backends(Some("dx11")), Some(Backends::Dx11));
    assert_eq!(select_backends(Some("gL")), Some(Backends::Gl));
    assert_eq!(select_backends(Some("WebGPU")), Some(Backends::BrowserWebGpu));
    assert_eq!(select_backends(Some("primary")), None);
    assert_eq!(select_backends(Some("")), None);
    assert_eq!(select_backends(Some("vulkan ")), None);
}

#[test]
fn power_preferences_go_by_name_in_any_case() {
    let default = PowerPreference::LowPower;
    assert_eq!(select_power_preference(None, default), Some(PowerPreference::LowPower));
    assert_eq!(
        select_power_preference(None, PowerPreference::HighPerformance),
        Some(PowerPreference::HighPerformance)
    );
    assert_eq!(select_power_preference(Some("low"), default), Some(PowerPreference::LowPower));
    assert_eq!(select_power_preference(Some("LOW"), default), Some(PowerPreference::LowPower));
    assert_eq!(
        select_power_preference(Some("High"), default),
        Some(PowerPreference::HighPerformance)
    );
    assert_eq!(select_power_preference(Some("medium"), default), None);
}

#[test]
fn features_that_are_asked_for() {
    assert_eq!(select_features(0b0110, 0b0001, 0b0101), Some(0b0101));
    assert_eq!(select_features(0b0110, 0b0001, 0b0100), None);
    assert_eq!(select_features(0, 0, 0), Some(0));
    assert_eq!(select_features(u64::MAX, 0, 0b1010), Some(0b1010));
    assert_eq!(select_features(0, 0b11, 0b01), None);
    assert_eq!(select_features(0, 0b11, 0b111), Some(0b11));
}

#[test]
fn what_the_event_loop_does() {
    let size = WindowSize { width: 3, height: 4 };
    assert_eq!(on_event(LoopEvent::MainEventsCleared, 16_000_000), LoopAction::Wait);
    assert_eq!(on_event(LoopEvent::MainEventsCleared, 16_000_001), LoopAction::RequestRedraw);
    assert_eq!(on_event(LoopEvent::MainEventsCleared, 0), LoopAction::Wait);
    assert_eq!(on_event(LoopEvent::Resized(size), 0), LoopAction::Resize(size));
    assert_eq!(on_event(LoopEvent::EscapePressed, 0), LoopAction::Exit);
    assert_eq!(on_event(LoopEvent::CloseRequested, u128::MAX), LoopAction::Exit);
    assert_eq!(on_event(LoopEvent::WindowEvent, 0), LoopAction::HandleInput);
    assert_eq!(on_event(LoopEvent::RedrawRequested, 0), LoopAction::Draw);
    assert_eq!(on_event(LoopEvent::Other, 17_000_000), LoopAction::Wait);
}
