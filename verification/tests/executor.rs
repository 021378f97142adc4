use aurora::material::TextureManager;
use aurora::renderer::{
    instance_passes, instances_to_load, CommandExecutor, CommandManager, CommandProcessor,
    GpuCall, InstancePass, InternalCommands, LineDescription, LoadOp, PipelineManager,
    RenderCommand, SectionManager, TwoDDescription, MAX_INSTANCES,
};
use aurora::{Colour, Point2};

fn shape(texture: Option<usize>) -> RenderCommand<u32> {
    RenderCommand::Draw2D(TwoDDescription { texture, ..TwoDDescription::default() })
}

fn line() -> RenderCommand<u32> {
    RenderCommand::DrawLine(LineDescription {
        start: Point2::new(0, 0),
        end: Point2::new(0, 0),
        width: 0,
        colour: Colour::transparent(),
    })
}

fn blue() -> Colour {
    Colour { r: 0, g: 0, b: 0x3FF0_0000_0000_0000, a: 0x3FF0_0000_0000_0000 }
}

fn file(textures: &mut TextureManager, cmds: Vec<RenderCommand<u32>>) -> CommandManager {
    let mut commands = CommandManager::new();
    let mut sections = SectionManager::new();
    {
        let mut processor = CommandProcessor::create(&mut commands, &mut sections, textures);
        for cmd in cmds {
            processor.process_cmd(cmd);
        }
    }
    commands
}

fn loaded(start: usize, end: usize, draw_end: usize, load_op: LoadOp) -> InstancePass {
    InstancePass { upload: Some((start, end)), start, end: draw_end, base: start, load_op }
}

#[test]
fn the_buffer_capacity() {
    assert_eq!(MAX_INSTANCES, 500);
}

#[test]
fn a_batch_larger_than_the_buffer_is_drawn_in_chunks() {
    let mut textures = TextureManager::new();
    let commands = file(&mut textures, (0..1200).map(|_| shape(None)).collect());
    assert_eq!(
        commands.commands(),
        &vec![InternalCommands::DrawTwoDBatch {
            instance_start: 0,
            instance_end: 1200,
            texture: None
        }]
    );
    let mut pipelines = PipelineManager::new();
    let mut executor = CommandExecutor::new(&commands, &mut pipelines, &mut textures);
    let plan = executor.build_frame();
    assert_eq!(plan.recreate_texture_slot, None);
    assert!(plan.texture_uploads.is_empty());
    assert_eq!(
        plan.calls,
        vec![
            GpuCall::Render2D { pass: loaded(0, 500, 500, LoadOp::Load), texture: None },
            GpuCall::Render2D { pass: loaded(500, 1000, 1000, LoadOp::Load), texture: None },
            GpuCall::Render2D { pass: loaded(1000, 1200, 1200, LoadOp::Load), texture: None },
        ]
    );
    for call in &plan.calls {
        if let GpuCall::Render2D { pass, .. } = call {
            assert_eq!(pass.upload, Some((pass.start, pass.end)));
        }
    }
    assert_eq!(executor.two_d_instances_on_gpu, Some((1000, 1200)));
    assert_eq!(executor.line_instances_on_gpu, None);
}

#[test]
fn sliding_window_of_1200_instances() {
    let mut plan = Vec::new();
    let window = instance_passes(0, 1200, 1200, None, LoadOp::Load, &mut plan);
    assert_eq!(
        plan,
        vec![
            loaded(0, 500, 500, LoadOp::Load),
            loaded(500, 1000, 1000, LoadOp::Load),
            loaded(1000, 1200, 1200, LoadOp::Load),
        ]
    );
    assert_eq!(window, Some((1000, 1200)));
}

#[test]
fn a_resident_range_is_drawn_without_upload() {
    let mut plan = Vec::new();
    let window = instance_passes(100, 200, 1200, Some((0, 500)), LoadOp::Load, &mut plan);
    assert_eq!(
        plan,
        vec![InstancePass { upload: None, start: 100, end: 200, base: 0, load_op: LoadOp::Load }]
    );
    assert_eq!(window, Some((0, 500)));

    let mut plan = Vec::new();
    let window = instance_passes(500, 1000, 1200, Some((500, 1000)), LoadOp::Clear(blue()), &mut plan);
    assert_eq!(
        plan,
        vec![InstancePass {
            upload: None,
            start: 500,
            end: 1000,
            base: 500,
            load_op: LoadOp::Clear(blue())
        }]
    );
    assert_eq!(window, Some((500, 1000)));
}

#[test]
fn a_range_that_sticks_out_of_the_window_is_loaded_anew() {
    let mut plan = vec![loaded(7, 8, 8, LoadOp::Load)];
    let window = instance_passes(400, 600, 2000, Some((0, 500)), LoadOp::Clear(blue()), &mut plan);
    assert_eq!(
        plan,
        vec![loaded(7, 8, 8, LoadOp::Load), loaded(400, 900, 600, LoadOp::Clear(blue()))]
    );
    assert_eq!(window, Some((400, 900)));
}

#[test]
fn only_the_first_pass_of_a_batch_clears() {
    let mut plan = Vec::new();
    let window = instance_passes(10, 1011, 1011, None, LoadOp::Clear(blue()), &mut plan);
    assert_eq!(
        plan,
        vec![
            loaded(10, 510, 510, LoadOp::Clear(blue())),
            loaded(510, 1010, 1010, LoadOp::Load),
            loaded(1010, 1011, 1011, LoadOp::Load),
        ]
    );
    assert_eq!(window, Some((1010, 1011)));
}

#[test]
fn an_empty_range_takes_one_pass() {
    let mut plan = Vec::new();
    let window = instance_passes(3, 3, 10, None, LoadOp::Load, &mut plan);
    assert_eq!(plan, vec![loaded(3, 10, 3, LoadOp::Load)]);
    assert_eq!(window, Some((3, 10)));
}

#[test]
fn the_window_to_load() {
    assert_eq!(instances_to_load((0, 1200), None, 1200), Some((0, 500)));
    assert_eq!(instances_to_load((500, 1200), Some((0, 500)), 1200), Some((500, 1000)));
    assert_eq!(instances_to_load((1000, 1200), Some((500, 1000)), 1200), Some((1000, 1200)));
    assert_eq!(instances_to_load((10, 20), Some((10, 20)), 1200), None);
    assert_eq!(instances_to_load((10, 20), Some((0, 500)), 1200), None);
    assert_eq!(instances_to_load((10, 21), Some((11, 500)), 1200), Some((10, 510)));
    assert_eq!(instances_to_load((10, 501), Some((0, 500)), 1200), Some((10, 510)));
    assert_eq!(instances_to_load((0, 3), None, 3), Some((0, 3)));
    assert_eq!(instances_to_load((usize::MAX - 1, usize::MAX), None, usize::MAX), Some((usize::MAX - 1, usize::MAX)));
    assert_eq!(instances_to_load((7, 9), None, 5), Some((7, 5)));
}

#[test]
fn later_batches_find_their_instances_resident() {
    let mut textures = TextureManager::new();
    let commands = file(&mut textures, vec![line(), line(), shape(None), line(), shape(None)]);
    let mut pipelines = PipelineManager::new();
    let mut executor = CommandExecutor::new(&commands, &mut pipelines, &mut textures);
    let plan = executor.build_frame();
    assert_eq!(
        plan.calls,
        vec![
            GpuCall::RenderLines { pass: loaded(0, 3, 2, LoadOp::Load) },
            GpuCall::Render2D { pass: loaded(0, 2, 1, LoadOp::Load), texture: None },
            GpuCall::RenderLines {
                pass: InstancePass {
                    upload: None,
                    start: 2,
                    end: 3,
                    base: 0,
                    load_op: LoadOp::Load
                }
            },
            GpuCall::Render2D {
                pass: InstancePass {
                    upload: None,
                    start: 1,
                    end: 2,
                    base: 0,
                    load_op: LoadOp::Load
                },
                texture: None
            },
        ]
    );
}

#[test]
fn a_clear_waits_for_the_next_pass() {
    let mut textures = TextureManager::new();
    let commands = file(
        &mut textures,
        vec![
            RenderCommand::Clear(Colour::transparent()),
            RenderCommand::Clear(blue()),
            line(),
            line(),
            RenderCommand::DrawText(1),
            RenderCommand::Clear(blue()),
            RenderCommand::DrawText(2),
            RenderCommand::Clear(Colour::transparent()),
        ],
    );
    let mut pipelines = PipelineManager::new();
    let mut executor = CommandExecutor::new(&commands, &mut pipelines, &mut textures);
    let plan = executor.build_frame();
    assert_eq!(
        plan.calls,
        vec![
            GpuCall::RenderLines { pass: loaded(0, 2, 2, LoadOp::Clear(blue())) },
            GpuCall::RenderSections { section_start: 0, section_end: 1, load_op: LoadOp::Load },
            GpuCall::RenderSections {
                section_start: 1,
                section_end: 2,
                load_op: LoadOp::Clear(blue())
            },
        ]
    );
    assert_eq!(executor.clear_colour, Some(Colour::transparent()));
}

#[test]
fn textures_are_uploaded_and_bound_when_they_change() {
    let mut textures = TextureManager::new();
    let a = textures.create_texture_from_data(vec![1; 4], 1, 1);
    let b = textures.create_texture_from_data(vec![2; 300 * 4], 300, 1);
    let commands = file(
        &mut textures,
        vec![shape(Some(a)), shape(None), shape(Some(b)), line(), shape(Some(b)), shape(Some(a))],
    );
    let mut pipelines = PipelineManager::new();
    {
        let mut executor = CommandExecutor::new(&commands, &mut pipelines, &mut textures);
        let plan = executor.build_frame();
        assert_eq!(plan.recreate_texture_slot, Some((300, 256)));
        assert_eq!(plan.texture_uploads.len(), 2);
        assert_eq!(plan.texture_uploads[0].texture, 0);
        assert_eq!(plan.texture_uploads[0].raw.data, vec![1; 4]);
        assert_eq!(plan.texture_uploads[1].texture, 1);
        assert_eq!(
            plan.calls,
            vec![
                GpuCall::BindTexture { backing: 0 },
                GpuCall::Render2D { pass: loaded(0, 5, 2, LoadOp::Load), texture: Some(0) },
                GpuCall::BindTexture { backing: 1 },
                GpuCall::Render2D {
                    pass: InstancePass {
                        upload: None,
                        start: 2,
                        end: 3,
                        base: 0,
                        load_op: LoadOp::Load
                    },
                    texture: Some(1)
                },
                GpuCall::RenderLines { pass: loaded(0, 1, 1, LoadOp::Load) },
                GpuCall::Render2D {
                    pass: InstancePass {
                        upload: None,
                        start: 3,
                        end: 4,
                        base: 0,
                        load_op: LoadOp::Load
                    },
                    texture: Some(1)
                },
                GpuCall::BindTexture { backing: 0 },
                GpuCall::Render2D {
                    pass: InstancePass {
                        upload: None,
                        start: 4,
                        end: 5,
                        base: 0,
                        load_op: LoadOp::Load
                    },
                    texture: Some(0)
                },
            ]
        );
    }
    assert_eq!(pipelines.texture_size, (300, 256));
    assert_eq!(pipelines.bound_texture, Some(0));
    assert!(!textures.needs_preparing());

    // the next frame starts with the texture still in the slot, and with
    // nothing taken to be in the instance buffers
    let commands = file(&mut textures, vec![shape(Some(a))]);
    let mut executor = CommandExecutor::new(&commands, &mut pipelines, &mut textures);
    let plan = executor.build_frame();
    assert_eq!(plan.recreate_texture_slot, None);
    assert!(plan.texture_uploads.is_empty());
    assert_eq!(
        plan.calls,
        vec![GpuCall::Render2D { pass: loaded(0, 1, 1, LoadOp::Load), texture: Some(0) }]
    );
}

#[test]
fn a_dropped_texture_is_drawn_untextured() {
    let mut textures = TextureManager::new();
    let a = textures.create_texture_from_data(vec![1; 4], 1, 1);
    let commands = file(&mut textures, vec![shape(Some(a))]);
    textures.drop(a);
    let mut pipelines = PipelineManager::new();
    let mut executor = CommandExecutor::new(&commands, &mut pipelines, &mut textures);
    let plan = executor.build_frame();
    assert!(plan.texture_uploads.is_empty());
    assert_eq!(
        plan.calls,
        vec![GpuCall::Render2D { pass: loaded(0, 1, 1, LoadOp::Load), texture: None }]
    );
}

#[test]
fn a_range_of_just_the_capacity_takes_one_pass() {
    let mut plan = Vec::new();
    let window = instance_passes(0, 500, 500, None, LoadOp::Load, &mut plan);
    assert_eq!(plan, vec![loaded(0, 500, 500, LoadOp::Load)]);
    assert_eq!(window, Some((0, 500)));

    let mut plan = Vec::new();
    let window = instance_passes(0, 501, 501, None, LoadOp::Load, &mut plan);
    assert_eq!(plan, vec![loaded(0, 500, 500, LoadOp::Load), loaded(500, 501, 501, LoadOp::Load)]);
    assert_eq!(window, Some((500, 501)));

    let mut plan = Vec::new();
    let window = instance_passes(1, 1001, 1001, Some((0, 500)), LoadOp::Load, &mut plan);
    assert_eq!(
        plan,
        vec![loaded(1, 501, 501, LoadOp::Load), loaded(501, 1001, 1001, LoadOp::Load)]
    );
    assert_eq!(window, Some((501, 1001)));
}

#[test]
fn a_buffer_load_reaches_past_the_batch_but_not_past_the_instances() {
    let mut plan = Vec::new();
    let window = instance_passes(0, 600, 700, None, LoadOp::Load, &mut plan);
    assert_eq!(plan, vec![loaded(0, 500, 500, LoadOp::Load), loaded(500, 700, 600, LoadOp::Load)]);
    assert_eq!(window, Some((500, 700)));
    // what follows in the same buffer load needs no upload
    let mut plan = Vec::new();
    let window = instance_passes(600, 700, 700, window, LoadOp::Load, &mut plan);
    assert_eq!(
        plan,
        vec![InstancePass { upload: None, start: 600, end: 700, base: 500, load_op: LoadOp::Load }]
    );
    assert_eq!(window, Some((500, 700)));
}

#[test]
fn every_pass_draws_what_the_buffer_holds() {
    let mut textures = TextureManager::new();
    let mut cmds: Vec<RenderCommand<u32>> = Vec::new();
    for i in 0..1300 {
        if i % 400 == 399 {
            cmds.push(line());
        }
        cmds.push(shape(None));
    }
    let commands = file(&mut textures, cmds);
    assert!(aurora::renderer::is_drawable(&commands));
    let mut pipelines = PipelineManager::new();
    let mut executor = CommandExecutor::new(&commands, &mut pipelines, &mut textures);
    let plan = executor.build_frame();
    let mut held: Option<(usize, usize)> = None;
    let mut next = 0;
    for call in &plan.calls {
        if let GpuCall::Render2D { pass, .. } = call {
            if let Some(window) = pass.upload {
                assert!(window.1 - window.0 <= MAX_INSTANCES);
                assert!(window.1 <= 1300);
                held = Some(window);
            }
            let window = held.unwrap();
            assert_eq!(pass.base, window.0);
            assert!(window.0 <= pass.start && pass.start <= pass.end && pass.end <= window.1);
            assert_eq!(pass.start, next);
            next = pass.end;
        }
    }
    assert_eq!(next, 1300);
}

#[test]
fn a_batch_list_made_by_hand_is_checked() {
    let mut commands = CommandManager::new();
    assert!(aurora::renderer::is_drawable(&commands));
    commands.push_command(InternalCommands::Nothing);
    commands.push_command(InternalCommands::DrawTextBatch { section_start: 9, section_end: 3 });
    commands.push_command(InternalCommands::DrawLinesBatch {
        line_instance_start: 0,
        line_instance_end: 0,
    });
    assert!(aurora::renderer::is_drawable(&commands));
    commands.push_command(InternalCommands::DrawTwoDBatch {
        instance_start: 0,
        instance_end: 1,
        texture: None,
    });
    assert!(!aurora::renderer::is_drawable(&commands));
    commands.push_two_d_instance(aurora::renderer::TwoDInstance {
        position: Point2::new(0, 0),
        size: aurora::Vector2::new(0, 0),
        colour: Colour::transparent(),
        texture: [0; 4],
        texture_opacity: 0,
        line_width: 0,
        corner_radius: 0,
        rotation: 0,
        shape: 1,
    });
    assert!(aurora::renderer::is_drawable(&commands));
    commands.push_command(InternalCommands::DrawLinesBatch {
        line_instance_start: 1,
        line_instance_end: 0,
    });
    assert!(!aurora::renderer::is_drawable(&commands));
}

#[test]
fn the_slots_that_a_pass_draws() {
    let pass = InstancePass { upload: None, start: 600, end: 700, base: 500, load_op: LoadOp::Load };
    assert_eq!(pass.slots(), Some((100, 200)));
    assert_eq!(loaded(1000, 1200, 1200, LoadOp::Load).slots(), Some((0, 200)));
    assert_eq!(loaded(7, 7, 7, LoadOp::Load).slots(), Some((0, 0)));
    let before = InstancePass { upload: None, start: 4, end: 9, base: 5, load_op: LoadOp::Load };
    assert_eq!(before.slots(), None);
    let inverted = InstancePass { upload: None, start: 9, end: 8, base: 5, load_op: LoadOp::Load };
    assert_eq!(inverted.slots(), None);
    let far = InstancePass {
        upload: None,
        start: 1,
        end: u32::MAX as usize,
        base: 0,
        load_op: LoadOp::Load,
    };
    assert_eq!(far.slots(), Some((1, u32::MAX)));
}
