use lore_render::command::{Command, Mesh, TextureImage, TextureTicket, Vec2, Vertex};
use lore_render::drawing::{ApplyError, DrawingInstance, NativeObject, NativeOutcome, NativeWork};
use lore_render::matrix::{Mat4, Vec3, Vec4};
use lore_render::producer::Instance;
use lore_render::command::TicketKind;

const DEFAULT_TEXTURE: u32 = 900;

fn identity() -> Mat4<f32> {
    Mat4::identity(0.0, 1.0)
}

fn triangle() -> Mesh<f32> {
    let v = |x: f32| Vertex {
        position: Vec3::new(x, 0.0, 0.0),
        normal: Vec3::new(0.0, 1.0, 0.0),
        tex_coords: Vec2 { x: 0.0, y: 0.0 },
    };
    Mesh::new(vec![v(0.0), v(1.0), v(2.0)], vec![0, 1, 2])
}

/// Applies each command the way the render thread does, inventing native ids
/// from `next` for whatever native work a command needs.
fn drain(inst: &mut DrawingInstance<f32>, cmds: Vec<Command<f32>>, next: &mut u32) -> Vec<Result<(), ApplyError>> {
    let mut results = Vec::new();
    for cmd in cmds.iter() {
        let outcome = match inst.prepare(cmd) {
            Ok(NativeWork::Nothing) | Err(_) => NativeOutcome::NoWork,
            Ok(NativeWork::CompileShader) => NativeOutcome::Created(NativeObject::Shader(*next)),
            Ok(NativeWork::LinkProgram { .. }) => NativeOutcome::Created(NativeObject::Program(*next)),
            Ok(NativeWork::UploadMesh) => NativeOutcome::Created(NativeObject::Mesh { vao: *next, vbo: *next + 1, ebo: *next + 2 }),
            Ok(NativeWork::UploadTexture) => NativeOutcome::Created(NativeObject::Texture(*next)),
        };
        *next += 10;
        assert!(inst.has_room());
        results.push(inst.apply(cmd, outcome));
    }
    results
}

#[test]
fn scenario_bind_create_position_draw() {
    let mut producer: Instance<f32> = Instance::new();
    let program = producer.create_shader_program("vs".to_string(), Some("fs".to_string()));
    let mesh = producer.bind_mesh(triangle(), &program);
    let obj = producer.create_rendered_object(&mesh);
    producer.set_position(&obj, Vec3::new(5.0, 0.0, 0.0));
    let cmds = producer.take_commands();
    assert_eq!(cmds.len(), 6);

    let mut inst = DrawingInstance::new(0.0f32, 1.0f32, DEFAULT_TEXTURE);
    let mut next = 1;
    let results = drain(&mut inst, cmds, &mut next);
    assert!(results.iter().all(|r| r.is_ok()));

    let handle = inst.ticket_handle(TicketKind::RenderedObject, obj.id).unwrap();
    let o = inst.rendered_object(handle).unwrap();
    assert_eq!(o.matrix.translation(), Vec3::new(5.0, 0.0, 0.0));
    assert_eq!(o.texture, 0);

    let calls = inst.draw_calls();
    assert_eq!(calls.len(), 1);
    assert_eq!(calls[0].model.w, Vec4 { x: 5.0, y: 0.0, z: 0.0, w: 1.0 });
    assert_eq!(calls[0].texture, DEFAULT_TEXTURE);
    assert_eq!(calls[0].index_count, 3);
}

#[test]
fn scenario_unbound_texture_is_not_ready() {
    let mut producer: Instance<f32> = Instance::new();
    let program = producer.create_shader_program("vs".to_string(), None);
    let mesh = producer.bind_mesh(triangle(), &program);
    let obj = producer.create_rendered_object(&mesh);
    let mut inst = DrawingInstance::new(0.0f32, 1.0f32, DEFAULT_TEXTURE);
    let mut next = 1;
    let results = drain(&mut inst, producer.take_commands(), &mut next);
    assert!(results.iter().all(|r| r.is_ok()));

    let handle = inst.ticket_handle(TicketKind::RenderedObject, obj.id).unwrap();
    let before = inst.rendered_object(handle).unwrap();
    producer.set_texture(&obj, &TextureTicket::new(7));
    let results = drain(&mut inst, producer.take_commands(), &mut next);
    assert_eq!(results, vec![Err(ApplyError::NotReady)]);
    assert_eq!(inst.rendered_object(handle).unwrap(), before);
    assert_eq!(inst.rendered_object(handle).unwrap().texture, 0);
}

#[test]
fn set_texture_after_bind_texture() {
    let mut producer: Instance<f32> = Instance::new();
    let program = producer.create_shader_program("vs".to_string(), None);
    let mesh = producer.bind_mesh(triangle(), &program);
    let obj = producer.create_rendered_object(&mesh);
    let tex = producer.bind_texture(TextureImage { pixels: vec![1, 2, 3], width: 1, height: 1 });
    producer.set_texture(&obj, &tex);
    let mut inst = DrawingInstance::new(0.0f32, 1.0f32, DEFAULT_TEXTURE);
    let mut next = 1;
    let results = drain(&mut inst, producer.take_commands(), &mut next);
    assert!(results.iter().all(|r| r.is_ok()));
    let handle = inst.ticket_handle(TicketKind::RenderedObject, obj.id).unwrap();
    assert_eq!(inst.rendered_object(handle).unwrap().texture, 1);
    let calls = inst.draw_calls();
    assert_eq!(calls.len(), 1);
    assert_ne!(calls[0].texture, DEFAULT_TEXTURE);
    assert_eq!(Some(calls[0].texture), inst.texture(1));
}

#[test]
fn scenario_dangling_program_skipped() {
    let mut producer: Instance<f32> = Instance::new();
    let prog_a = producer.create_shader_program("vs1".to_string(), None);
    let prog_b = producer.create_shader_program("vs2".to_string(), None);
    let m1 = producer.bind_mesh(triangle(), &prog_a);
    let m2 = producer.bind_mesh(triangle(), &prog_b);
    let a = producer.create_rendered_object(&m1);
    let b = producer.create_rendered_object(&m2);
    let c = producer.create_rendered_object(&m1);
    let mut inst = DrawingInstance::new(0.0f32, 1.0f32, DEFAULT_TEXTURE);
    let mut next = 1;
    let results = drain(&mut inst, producer.take_commands(), &mut next);
    assert!(results.iter().all(|r| r.is_ok()));
    assert_eq!(inst.draw_calls().len(), 3);

    let prog_b_handle = inst.ticket_handle(TicketKind::ShaderProgram, prog_b.id).unwrap();
    assert!(inst.delete_shader_program(prog_b_handle).is_some());
    let calls = inst.draw_calls();
    let drawn: Vec<usize> = calls.iter().map(|d| d.object).collect();
    let ha = inst.ticket_handle(TicketKind::RenderedObject, a.id).unwrap();
    let hb = inst.ticket_handle(TicketKind::RenderedObject, b.id).unwrap();
    let hc = inst.ticket_handle(TicketKind::RenderedObject, c.id).unwrap();
    assert_eq!(drawn, vec![ha, hc]);
    assert!(!drawn.contains(&hb));
}

#[test]
fn deleted_mesh_objects_skipped() {
    let mut producer: Instance<f32> = Instance::new();
    let p = producer.create_shader_program("vs".to_string(), None);
    let m1 = producer.bind_mesh(triangle(), &p);
    let m2 = producer.bind_mesh(triangle(), &p);
    producer.create_rendered_object(&m1);
    producer.create_rendered_object(&m2);
    let mut inst = DrawingInstance::new(0.0f32, 1.0f32, DEFAULT_TEXTURE);
    let mut next = 1;
    drain(&mut inst, producer.take_commands(), &mut next);
    let h1 = inst.ticket_handle(TicketKind::LoadedMesh, m1.id).unwrap();
    let removed = inst.delete_mesh(h1).unwrap();
    assert_eq!(removed.index_count, 3);
    assert!(inst.loaded_mesh(h1).is_none());
    let calls = inst.draw_calls();
    assert_eq!(calls.len(), 1);
    assert_eq!(calls[0].object, 1);
}

#[test]
fn draw_order_is_insertion_order() {
    let mut producer: Instance<f32> = Instance::new();
    let p = producer.create_shader_program("vs".to_string(), None);
    let m = producer.bind_mesh(triangle(), &p);
    let objs: Vec<_> = (0..4).map(|_| producer.create_rendered_object(&m)).collect();
    for (i, o) in objs.iter().enumerate() {
        producer.set_position(o, Vec3::new(i as f32, 0.0, 0.0));
    }
    let mut inst = DrawingInstance::new(0.0f32, 1.0f32, DEFAULT_TEXTURE);
    let mut next = 1;
    drain(&mut inst, producer.take_commands(), &mut next);
    let calls = inst.draw_calls();
    let xs: Vec<f32> = calls.iter().map(|d| d.model.w.x).collect();
    assert_eq!(xs, vec![0.0, 1.0, 2.0, 3.0]);
    let handles: Vec<usize> = calls.iter().map(|d| d.object).collect();
    assert_eq!(handles, vec![0, 1, 2, 3]);
}

#[test]
fn position_after_matrix_keeps_rotation() {
    let mut producer: Instance<f32> = Instance::new();
    let p = producer.create_shader_program("vs".to_string(), None);
    let m = producer.bind_mesh(triangle(), &p);
    let o = producer.create_rendered_object(&m);
    let rot = Mat4 {
        x: Vec4 { x: 0.0, y: 1.0, z: 0.0, w: 0.0 },
        y: Vec4 { x: -2.0, y: 0.0, z: 0.0, w: 0.0 },
        z: Vec4 { x: 0.0, y: 0.0, z: 3.0, w: 0.0 },
        w: Vec4 { x: 9.0, y: 9.0, z: 9.0, w: 1.0 },
    };
    producer.set_matrix(&o, rot);
    producer.set_position(&o, Vec3::new(1.0, 2.0, 3.0));
    let mut inst = DrawingInstance::new(0.0f32, 1.0f32, DEFAULT_TEXTURE);
    let mut next = 1;
    drain(&mut inst, producer.take_commands(), &mut next);
    let h = inst.ticket_handle(TicketKind::RenderedObject, o.id).unwrap();
    let after = inst.rendered_object(h).unwrap().matrix;
    assert_eq!(after.x, rot.x);
    assert_eq!(after.y, rot.y);
    assert_eq!(after.z, rot.z);
    assert_eq!(after.w, Vec4 { x: 1.0, y: 2.0, z: 3.0, w: 1.0 });
}

#[test]
fn camera_set_twice_is_last_write() {
    let mut producer: Instance<f32> = Instance::new();
    let c = identity().with_translation(Vec3::new(0.0, -1.0, -5.0));
    producer.set_camera_matrix(c);
    producer.set_camera_matrix(c);
    let mut inst = DrawingInstance::new(0.0f32, 1.0f32, DEFAULT_TEXTURE);
    assert_eq!(inst.camera(), identity());
    let mut next = 1;
    let results = drain(&mut inst, producer.take_commands(), &mut next);
    assert_eq!(results, vec![Ok(()), Ok(())]);
    assert_eq!(inst.camera(), c);
}

#[test]
fn creation_applied_twice_is_double_resolve() {
    let mut producer: Instance<f32> = Instance::new();
    let tex = producer.bind_texture(TextureImage { pixels: vec![0, 0, 0], width: 1, height: 1 });
    let cmds = producer.take_commands();
    let mut inst = DrawingInstance::new(0.0f32, 1.0f32, DEFAULT_TEXTURE);
    let first = inst.apply(&cmds[0], NativeOutcome::Created(NativeObject::Texture(5)));
    assert_eq!(first, Ok(()));
    assert_eq!(inst.prepare(&cmds[0]), Err(ApplyError::DoubleResolve));
    let second = inst.apply(&cmds[0], NativeOutcome::Created(NativeObject::Texture(6)));
    assert_eq!(second, Err(ApplyError::DoubleResolve));
    assert_eq!(inst.ticket_handle(TicketKind::Texture, tex.id), Some(1));
    assert_eq!(inst.texture(1), Some(5));
    assert_eq!(inst.texture(2), None);
}

#[test]
fn failed_compilation_is_reported() {
    let mut producer: Instance<f32> = Instance::new();
    let program = producer.create_shader_program("bad".to_string(), None);
    let cmds = producer.take_commands();
    let mut inst = DrawingInstance::new(0.0f32, 1.0f32, DEFAULT_TEXTURE);
    assert_eq!(inst.prepare(&cmds[0]), Ok(NativeWork::CompileShader));
    let r = inst.apply(&cmds[0], NativeOutcome::Failed("syntax error".to_string()));
    assert_eq!(r, Err(ApplyError::ResourceCreationFailure("syntax error".to_string())));
    assert_eq!(inst.prepare(&cmds[1]), Err(ApplyError::NotReady));
    assert_eq!(inst.ticket_handle(TicketKind::ShaderProgram, program.id), None);
}

#[test]
fn wrong_native_object_is_refused() {
    let mut producer: Instance<f32> = Instance::new();
    producer.create_shader_program("vs".to_string(), None);
    let cmds = producer.take_commands();
    let mut inst = DrawingInstance::new(0.0f32, 1.0f32, DEFAULT_TEXTURE);
    assert_eq!(inst.apply(&cmds[0], NativeOutcome::Created(NativeObject::Texture(3))), Err(ApplyError::NativeMismatch));
    assert_eq!(inst.apply(&cmds[0], NativeOutcome::NoWork), Err(ApplyError::NativeMismatch));
    assert_eq!(inst.apply(&cmds[0], NativeOutcome::Created(NativeObject::Shader(3))), Ok(()));
    assert_eq!(inst.prepare(&cmds[1]), Ok(NativeWork::LinkProgram { vert: 3, frag: None }));
}

#[test]
fn ordered_queue_has_no_not_ready() {
    let mut producer: Instance<f32> = Instance::new();
    let p = producer.create_shader_program("vs".to_string(), Some("fs".to_string()));
    let m = producer.bind_mesh(triangle(), &p);
    let o = producer.create_rendered_object(&m);
    let t = producer.bind_texture(TextureImage { pixels: vec![9, 9, 9], width: 1, height: 1 });
    producer.set_texture(&o, &t);
    producer.set_matrix(&o, identity());
    producer.set_camera_matrix(identity());
    let mut inst = DrawingInstance::new(0.0f32, 1.0f32, DEFAULT_TEXTURE);
    let mut next = 1;
    let results = drain(&mut inst, producer.take_commands(), &mut next);
    assert_eq!(results.len(), 9);
    assert!(results.iter().all(|r| *r == Ok(())));
}

#[test]
fn dependent_before_creation_is_not_ready() {
    let mut producer: Instance<f32> = Instance::new();
    let p = producer.create_shader_program("vs".to_string(), None);
    let m = producer.bind_mesh(triangle(), &p);
    let mut cmds = producer.take_commands();
    cmds.swap(0, 2);
    let mut inst = DrawingInstance::new(0.0f32, 1.0f32, DEFAULT_TEXTURE);
    let mut next = 1;
    let results = drain(&mut inst, cmds, &mut next);
    assert_eq!(results[0], Err(ApplyError::NotReady));
    assert_eq!(inst.ticket_handle(TicketKind::LoadedMesh, m.id), None);
}

#[test]
fn default_texture_stays_at_zero() {
    let mut producer: Instance<f32> = Instance::new();
    let a = producer.bind_texture(TextureImage { pixels: vec![1, 1, 1], width: 1, height: 1 });
    let b = producer.bind_texture(TextureImage { pixels: vec![2, 2, 2], width: 1, height: 1 });
    let mut inst = DrawingInstance::new(0.0f32, 1.0f32, DEFAULT_TEXTURE);
    let mut next = 1;
    drain(&mut inst, producer.take_commands(), &mut next);
    assert_eq!(inst.texture(0), Some(DEFAULT_TEXTURE));
    assert_eq!(inst.ticket_handle(TicketKind::Texture, a.id), Some(1));
    assert_eq!(inst.ticket_handle(TicketKind::Texture, b.id), Some(2));
}
