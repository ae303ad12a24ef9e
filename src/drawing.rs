use vstd::prelude::*;

use crate::command::{Command, TicketKind};
use crate::matrix::{Mat4, identity_of, translated};
use crate::table::{ResourceTable, entry, first_free, live, placed};
use crate::ticket::TicketBoard;

verus! {

/// A mesh living on the GPU: its native buffers, how many indices it draws, and
/// the handle of the shader program that draws it.
#[derive(Clone, Copy, PartialEq, Eq, Structural, Debug)]
pub struct LoadedMesh {
    pub vao: u32,
    pub vbo: u32,
    pub ebo: u32,
    pub index_count: usize,
    pub program: usize,
}

/// A scene entity: the handle of its mesh, its model transform and the handle of
/// its texture.
#[derive(Clone, Copy, PartialEq, Eq, Structural, Debug)]
pub struct RenderedObject<S> {
    pub mesh: usize,
    pub matrix: Mat4<S>,
    pub texture: usize,
}

/// Why a command could not be applied. A refused command changes nothing.
#[derive(Clone, PartialEq, Eq, Debug)]
pub enum ApplyError {
    /// A ticket the command reads has not been resolved yet.
    NotReady,
    /// The ticket the command would resolve is already resolved.
    DoubleResolve,
    /// A handle the command needs no longer names a live entry.
    DanglingReference,
    /// Native creation failed; carries the native diagnostic text.
    ResourceCreationFailure(String),
    /// The native object handed in is not of the kind the command creates.
    NativeMismatch,
}

/// The native work a command needs before it can be applied.
#[derive(Clone, Copy, PartialEq, Eq, Structural, Debug)]
pub enum NativeWork {
    Nothing,
    /// Compile the command's shader source.
    CompileShader,
    /// Link a program from these native shaders.
    LinkProgram { vert: u32, frag: Option<u32> },
    /// Upload the command's mesh.
    UploadMesh,
    /// Upload the command's image.
    UploadTexture,
}

/// A native object created for a command.
#[derive(Clone, Copy, PartialEq, Eq, Structural, Debug)]
pub enum NativeObject {
    Shader(u32),
    Program(u32),
    Mesh { vao: u32, vbo: u32, ebo: u32 },
    Texture(u32),
}

/// The kinds of native object.
#[derive(Clone, Copy, PartialEq, Eq, Structural, Debug)]
pub enum NativeObjectKind {
    Shader,
    Program,
    Mesh,
    Texture,
}

/// What came of the native work for a command.
#[derive(Clone, PartialEq, Eq, Debug)]
pub enum NativeOutcome {
    /// The command needed no native work.
    NoWork,
    Created(NativeObject),
    /// Creation failed, with the native diagnostic text.
    Failed(String),
}

/// The whole render state as values: the five tables, the camera, the transform
/// new objects start with, and the five ticket boards.
pub struct RenderModel<S> {
    pub shaders: Seq<Option<u32>>,
    pub programs: Seq<Option<u32>>,
    pub meshes: Seq<Option<LoadedMesh>>,
    pub textures: Seq<Option<u32>>,
    pub objects: Seq<Option<RenderedObject<S>>>,
    pub camera: Mat4<S>,
    pub identity: Mat4<S>,
    pub shader_tickets: Map<usize, usize>,
    pub program_tickets: Map<usize, usize>,
    pub mesh_tickets: Map<usize, usize>,
    pub texture_tickets: Map<usize, usize>,
    pub object_tickets: Map<usize, usize>,
}

/// The board of `m` that holds tickets of `kind`.
pub open spec fn board<S>(m: RenderModel<S>, kind: TicketKind) -> Map<usize, usize> {
    match kind {
        TicketKind::Shader => m.shader_tickets,
        TicketKind::ShaderProgram => m.program_tickets,
        TicketKind::LoadedMesh => m.mesh_tickets,
        TicketKind::Texture => m.texture_tickets,
        TicketKind::RenderedObject => m.object_tickets,
    }
}

/// Ticket `t` is resolved in `m`.
pub open spec fn resolved<S>(m: RenderModel<S>, t: (TicketKind, usize)) -> bool {
    board(m, t.0).contains_key(t.1)
}

/// The native shader that a resolved shader ticket leads to, if it is live.
pub open spec fn shader_of<S>(m: RenderModel<S>, id: usize) -> Option<u32> {
    entry(m.shaders, m.shader_tickets[id])
}

/// What applying `cmd` to `m` needs first, or why it is refused. Tickets read are
/// checked first, then the handles they lead to, then the ticket to be resolved.
pub open spec fn work_of<S>(m: RenderModel<S>, cmd: Command<S>) -> Result<NativeWork, ApplyError> {
    match cmd {
        Command::ShaderCreate { ticket, .. } => if m.shader_tickets.contains_key(ticket.id) {
            Err(ApplyError::DoubleResolve)
        } else {
            Ok(NativeWork::CompileShader)
        },
        Command::ShaderProgramCreate { ticket, vert, frag } => if !m.shader_tickets.contains_key(
            vert.id,
        ) || (frag is Some && !m.shader_tickets.contains_key(frag->Some_0.id)) {
            Err(ApplyError::NotReady)
        } else if shader_of(m, vert.id) is None || (frag is Some && shader_of(
            m,
            frag->Some_0.id,
        ) is None) {
            Err(ApplyError::DanglingReference)
        } else if m.program_tickets.contains_key(ticket.id) {
            Err(ApplyError::DoubleResolve)
        } else {
            Ok(
                NativeWork::LinkProgram {
                    vert: shader_of(m, vert.id)->Some_0,
                    frag: match frag {
                        Some(f) => Some(shader_of(m, f.id)->Some_0),
                        None => None,
                    },
                },
            )
        },
        Command::MeshCreate { ticket, program, .. } => if !m.program_tickets.contains_key(
            program.id,
        ) {
            Err(ApplyError::NotReady)
        } else if m.mesh_tickets.contains_key(ticket.id) {
            Err(ApplyError::DoubleResolve)
        } else {
            Ok(NativeWork::UploadMesh)
        },
        Command::RenderedObjectCreate { ticket, mesh } => if !m.mesh_tickets.contains_key(mesh.id) {
            Err(ApplyError::NotReady)
        } else if m.object_tickets.contains_key(ticket.id) {
            Err(ApplyError::DoubleResolve)
        } else {
            Ok(NativeWork::Nothing)
        },
        Command::PositionSet { ticket, .. } => if !m.object_tickets.contains_key(ticket.id) {
            Err(ApplyError::NotReady)
        } else if entry(m.objects, m.object_tickets[ticket.id]) is None {
            Err(ApplyError::DanglingReference)
        } else {
            Ok(NativeWork::Nothing)
        },
        Command::MatrixSet { ticket, .. } => if !m.object_tickets.contains_key(ticket.id) {
            Err(ApplyError::NotReady)
        } else if entry(m.objects, m.object_tickets[ticket.id]) is None {
            Err(ApplyError::DanglingReference)
        } else {
            Ok(NativeWork::Nothing)
        },
        Command::CameraMatrixSet { .. } => Ok(NativeWork::Nothing),
        Command::TextureCreate { ticket, .. } => if m.texture_tickets.contains_key(ticket.id) {
            Err(ApplyError::DoubleResolve)
        } else {
            Ok(NativeWork::UploadTexture)
        },
        Command::TextureSet { ticket, texture } => if !m.object_tickets.contains_key(ticket.id)
            || !m.texture_tickets.contains_key(texture.id) {
            Err(ApplyError::NotReady)
        } else if entry(m.objects, m.object_tickets[ticket.id]) is None {
            Err(ApplyError::DanglingReference)
        } else {
            Ok(NativeWork::Nothing)
        },
    }
}

/// The result of a creation command whose native work came out as `out`, when
/// `expected` is the kind of object it creates and `done` the state it leads to.
pub open spec fn created_or<S>(
    m: RenderModel<S>,
    out: NativeOutcome,
    expected: NativeObjectKind,
    done: RenderModel<S>,
) -> (RenderModel<S>, Result<(), ApplyError>) {
    match out {
        NativeOutcome::Created(o) => if kind_of(o) == expected {
            (done, Ok(()))
        } else {
            (m, Err(ApplyError::NativeMismatch))
        },
        NativeOutcome::Failed(msg) => (m, Err(ApplyError::ResourceCreationFailure(msg))),
        NativeOutcome::NoWork => (m, Err(ApplyError::NativeMismatch)),
    }
}

/// The kind of a native object.
pub open spec fn kind_of(o: NativeObject) -> NativeObjectKind {
    match o {
        NativeObject::Shader(_) => NativeObjectKind::Shader,
        NativeObject::Program(_) => NativeObjectKind::Program,
        NativeObject::Mesh { .. } => NativeObjectKind::Mesh,
        NativeObject::Texture(_) => NativeObjectKind::Texture,
    }
}

/// The single native id of a shader, program or texture object.
pub open spec fn native_id(o: NativeOutcome) -> u32 {
    match o {
        NativeOutcome::Created(NativeObject::Shader(n)) => n,
        NativeOutcome::Created(NativeObject::Program(n)) => n,
        NativeOutcome::Created(NativeObject::Texture(n)) => n,
        _ => 0,
    }
}

/// The loaded mesh that a created mesh object becomes.
pub open spec fn loaded_mesh_of(o: NativeOutcome, index_count: usize, program: usize) -> LoadedMesh {
    match o {
        NativeOutcome::Created(NativeObject::Mesh { vao, vbo, ebo }) => LoadedMesh {
            vao,
            vbo,
            ebo,
            index_count,
            program,
        },
        _ => LoadedMesh { vao: 0, vbo: 0, ebo: 0, index_count, program },
    }
}

/// The state after applying `cmd` to `m` with native outcome `out`, and whether it
/// was applied. A refused command leaves `m` as it was.
pub open spec fn apply_spec<S>(m: RenderModel<S>, cmd: Command<S>, out: NativeOutcome) -> (
    RenderModel<S>,
    Result<(), ApplyError>,
) {
    match work_of(m, cmd) {
        Err(e) => (m, Err(e)),
        Ok(_) => match cmd {
            Command::ShaderCreate { ticket, .. } => {
                let h = first_free(m.shaders);
                created_or(
                    m,
                    out,
                    NativeObjectKind::Shader,
                    RenderModel {
                        shaders: placed(m.shaders, h, native_id(out)),
                        shader_tickets: m.shader_tickets.insert(ticket.id, h),
                        ..m
                    },
                )
            },
            Command::ShaderProgramCreate { ticket, .. } => {
                let h = first_free(m.programs);
                created_or(
                    m,
                    out,
                    NativeObjectKind::Program,
                    RenderModel {
                        programs: placed(m.programs, h, native_id(out)),
                        program_tickets: m.program_tickets.insert(ticket.id, h),
                        ..m
                    },
                )
            },
            Command::MeshCreate { ticket, mesh, program } => {
                let h = first_free(m.meshes);
                let lm = loaded_mesh_of(
                    out,
                    mesh.indices@.len() as usize,
                    m.program_tickets[program.id],
                );
                created_or(
                    m,
                    out,
                    NativeObjectKind::Mesh,
                    RenderModel {
                        meshes: placed(m.meshes, h, lm),
                        mesh_tickets: m.mesh_tickets.insert(ticket.id, h),
                        ..m
                    },
                )
            },
            Command::TextureCreate { ticket, .. } => {
                let h = first_free(m.textures);
                created_or(
                    m,
                    out,
                    NativeObjectKind::Texture,
                    RenderModel {
                        textures: placed(m.textures, h, native_id(out)),
                        texture_tickets: m.texture_tickets.insert(ticket.id, h),
                        ..m
                    },
                )
            },
            Command::RenderedObjectCreate { ticket, mesh } => {
                let h = first_free(m.objects);
                let o = RenderedObject {
                    mesh: m.mesh_tickets[mesh.id],
                    matrix: m.identity,
                    texture: 0,
                };
                (
                    RenderModel {
                        objects: placed(m.objects, h, o),
                        object_tickets: m.object_tickets.insert(ticket.id, h),
                        ..m
                    },
                    Ok(()),
                )
            },
            Command::PositionSet { ticket, position } => {
                let h = m.object_tickets[ticket.id];
                let o = entry(m.objects, h)->Some_0;
                let o2 = RenderedObject { matrix: translated(o.matrix, position), ..o };
                (RenderModel { objects: m.objects.update(h as int, Some(o2)), ..m }, Ok(()))
            },
            Command::MatrixSet { ticket, matrix } => {
                let h = m.object_tickets[ticket.id];
                let o = entry(m.objects, h)->Some_0;
                let o2 = RenderedObject { matrix, ..o };
                (RenderModel { objects: m.objects.update(h as int, Some(o2)), ..m }, Ok(()))
            },
            Command::TextureSet { ticket, texture } => {
                let h = m.object_tickets[ticket.id];
                let o = entry(m.objects, h)->Some_0;
                let o2 = RenderedObject { texture: m.texture_tickets[texture.id], ..o };
                (RenderModel { objects: m.objects.update(h as int, Some(o2)), ..m }, Ok(()))
            },
            Command::CameraMatrixSet { matrix } => (RenderModel { camera: matrix, ..m }, Ok(())),
        },
    }
}

/// One draw call of a frame: the object drawn, with the native program, vertex
/// array, index count, texture and model transform it is drawn with.
#[derive(Clone, Copy, PartialEq, Eq, Structural, Debug)]
pub struct DrawCall<S> {
    pub object: usize,
    pub program: u32,
    pub vao: u32,
    pub index_count: usize,
    pub texture: u32,
    pub model: Mat4<S>,
}

/// The draw call for the object under `h`, or none if the object, its mesh, the
/// mesh's program or its texture is not live.
pub open spec fn draw_of<S>(m: RenderModel<S>, h: usize) -> Option<DrawCall<S>> {
    match entry(m.objects, h) {
        None => None,
        Some(o) => match entry(m.meshes, o.mesh) {
            None => None,
            Some(lm) => match entry(m.programs, lm.program) {
                None => None,
                Some(p) => match entry(m.textures, o.texture) {
                    None => None,
                    Some(t) => Some(
                        DrawCall {
                            object: h,
                            program: p,
                            vao: lm.vao,
                            index_count: lm.index_count,
                            texture: t,
                            model: o.matrix,
                        },
                    ),
                },
            },
        },
    }
}

/// The draw calls for the objects under handles below `n`, in handle order.
pub open spec fn draws_upto<S>(m: RenderModel<S>, n: nat) -> Seq<DrawCall<S>>
    decreases n,
{
    if n == 0 {
        Seq::empty()
    } else {
        let prev = draws_upto(m, (n - 1) as nat);
        match draw_of(m, (n - 1) as usize) {
            Some(d) => prev.push(d),
            None => prev,
        }
    }
}

/// The draw calls of a frame: one per drawable object, in handle order.
pub open spec fn draws<S>(m: RenderModel<S>) -> Seq<DrawCall<S>> {
    draws_upto(m, m.objects.len())
}

/// The render thread's state: the five resource tables, the camera, and the
/// tickets that applied commands have resolved.
pub struct DrawingInstance<S> {
    shaders: ResourceTable<u32>,
    shader_programs: ResourceTable<u32>,
    loaded_meshes: ResourceTable<LoadedMesh>,
    loaded_textures: ResourceTable<u32>,
    rendered_objects: ResourceTable<RenderedObject<S>>,
    camera: Mat4<S>,
    identity: Mat4<S>,
    shader_tickets: TicketBoard,
    program_tickets: TicketBoard,
    mesh_tickets: TicketBoard,
    texture_tickets: TicketBoard,
    object_tickets: TicketBoard,
}

impl<S> View for DrawingInstance<S> {
    type V = RenderModel<S>;

    closed spec fn view(&self) -> RenderModel<S> {
        RenderModel {
            shaders: self.shaders@,
            programs: self.shader_programs@,
            meshes: self.loaded_meshes@,
            textures: self.loaded_textures@,
            objects: self.rendered_objects@,
            camera: self.camera,
            identity: self.identity,
            shader_tickets: self.shader_tickets@,
            program_tickets: self.program_tickets@,
            mesh_tickets: self.mesh_tickets@,
            texture_tickets: self.texture_tickets@,
            object_tickets: self.object_tickets@,
        }
    }
}

/// Every table of `m` can take one more entry.
pub open spec fn has_room<S>(m: RenderModel<S>) -> bool {
    &&& m.shaders.len() < usize::MAX
    &&& m.programs.len() < usize::MAX
    &&& m.meshes.len() < usize::MAX
    &&& m.textures.len() < usize::MAX
    &&& m.objects.len() < usize::MAX
}

impl<S: Copy> DrawingInstance<S> {
    /// A fresh instance: empty tables but for the default texture under handle 0,
    /// an identity camera, and no ticket resolved.
    pub fn new(zero: S, one: S, default_texture: u32) -> (r: DrawingInstance<S>)
        ensures
            r@ == (RenderModel {
                shaders: Seq::empty(),
                programs: Seq::empty(),
                meshes: Seq::empty(),
                textures: seq![Some(default_texture)],
                objects: Seq::empty(),
                camera: identity_of(zero, one),
                identity: identity_of(zero, one),
                shader_tickets: Map::empty(),
                program_tickets: Map::empty(),
                mesh_tickets: Map::empty(),
                texture_tickets: Map::empty(),
                object_tickets: Map::empty(),
            }),
    {
        let mut textures = ResourceTable::new();
        let _ = textures.insert(default_texture);
        proof {
            assert(crate::table::is_first_free(Seq::<Option<u32>>::empty(), 0));
        }
        let identity = Mat4::identity(zero, one);
        let r = DrawingInstance {
            shaders: ResourceTable::new(),
            shader_programs: ResourceTable::new(),
            loaded_meshes: ResourceTable::new(),
            loaded_textures: textures,
            rendered_objects: ResourceTable::new(),
            camera: identity,
            identity,
            shader_tickets: TicketBoard::new(),
            program_tickets: TicketBoard::new(),
            mesh_tickets: TicketBoard::new(),
            texture_tickets: TicketBoard::new(),
            object_tickets: TicketBoard::new(),
        };
        assert(r@.textures =~= seq![Some(default_texture)]);
        r
    }

    /// Whether every table can take one more entry, as `apply` needs.
    pub fn has_room(&self) -> (r: bool)
        ensures
            r == has_room(self@),
    {
        self.shaders.slot_count() < usize::MAX && self.shader_programs.slot_count() < usize::MAX
            && self.loaded_meshes.slot_count() < usize::MAX && self.loaded_textures.slot_count()
            < usize::MAX && self.rendered_objects.slot_count() < usize::MAX
    }

    /// The camera's view matrix.
    pub fn camera(&self) -> (r: Mat4<S>)
        ensures
            r == self@.camera,
    {
        self.camera
    }

    /// The rendered object under `handle`, if live.
    pub fn rendered_object(&self, handle: usize) -> (r: Option<RenderedObject<S>>)
        ensures
            r == entry(self@.objects, handle),
    {
        self.rendered_objects.get(handle)
    }

    /// The loaded mesh under `handle`, if live.
    pub fn loaded_mesh(&self, handle: usize) -> (r: Option<LoadedMesh>)
        ensures
            r == entry(self@.meshes, handle),
    {
        self.loaded_meshes.get(handle)
    }

    /// The native texture under `handle`, if live.
    pub fn texture(&self, handle: usize) -> (r: Option<u32>)
        ensures
            r == entry(self@.textures, handle),
    {
        self.loaded_textures.get(handle)
    }

    /// The native shader program under `handle`, if live.
    pub fn shader_program(&self, handle: usize) -> (r: Option<u32>)
        ensures
            r == entry(self@.programs, handle),
    {
        self.shader_programs.get(handle)
    }

    /// The handle that ticket `id` of `kind` was resolved to, if it was.
    pub fn ticket_handle(&self, kind: TicketKind, id: usize) -> (r: Option<usize>)
        ensures
            r == if board(self@, kind).contains_key(id) {
                Some(board(self@, kind)[id])
            } else {
                None
            },
    {
        let b = match kind {
            TicketKind::Shader => &self.shader_tickets,
            TicketKind::ShaderProgram => &self.program_tickets,
            TicketKind::LoadedMesh => &self.mesh_tickets,
            TicketKind::Texture => &self.texture_tickets,
            TicketKind::RenderedObject => &self.object_tickets,
        };
        match b.read(id) {
            Ok(h) => Some(h),
            Err(_) => None,
        }
    }

    /// The native ids of the live shaders, in handle order, for release.
    pub fn live_shaders(&self) -> (r: Vec<u32>)
        ensures
            r@ == live(self@.shaders),
    {
        self.shaders.live_values()
    }

    /// The native ids of the live shader programs, in handle order, for release.
    pub fn live_shader_programs(&self) -> (r: Vec<u32>)
        ensures
            r@ == live(self@.programs),
    {
        self.shader_programs.live_values()
    }

    /// The live loaded meshes, in handle order, for release of their buffers.
    pub fn live_meshes(&self) -> (r: Vec<LoadedMesh>)
        ensures
            r@ == live(self@.meshes),
    {
        self.loaded_meshes.live_values()
    }

    /// Removes the shader program under `handle` and returns its native id; objects
    /// whose mesh used it are skipped by the draw pass from then on.
    pub fn delete_shader_program(&mut self, handle: usize) -> (r: Option<u32>)
        ensures
            r == entry(old(self)@.programs, handle),
            final(self)@ == (RenderModel {
                programs: if r is Some {
                    old(self)@.programs.update(handle as int, None)
                } else {
                    old(self)@.programs
                },
                ..old(self)@
            }),
    {
        self.shader_programs.remove(handle)
    }

    /// Removes the loaded mesh under `handle` and returns it, so that its native
    /// buffers can be released; objects that drew it are skipped from then on.
    pub fn delete_mesh(&mut self, handle: usize) -> (r: Option<LoadedMesh>)
        ensures
            r == entry(old(self)@.meshes, handle),
            final(self)@ == (RenderModel {
                meshes: if r is Some {
                    old(self)@.meshes.update(handle as int, None)
                } else {
                    old(self)@.meshes
                },
                ..old(self)@
            }),
    {
        self.loaded_meshes.remove(handle)
    }

    /// What `cmd` needs before it can be applied: the native work, with the native
    /// shaders a program links resolved; or why it will be refused.
    pub fn prepare(&self, cmd: &Command<S>) -> (r: Result<NativeWork, ApplyError>)
        ensures
            r == work_of(self@, *cmd),
    {
        match cmd {
            Command::ShaderCreate { ticket, .. } => {
                if self.shader_tickets.is_resolved(ticket.id) {
                    Err(ApplyError::DoubleResolve)
                } else {
                    Ok(NativeWork::CompileShader)
                }
            },
            Command::ShaderProgramCreate { ticket, vert, frag } => {
                let v = match self.shader_tickets.read(vert.id) {
                    Ok(h) => h,
                    Err(_) => {
                        return Err(ApplyError::NotReady);
                    },
                };
                let f = match frag {
                    Some(ft) => match self.shader_tickets.read(ft.id) {
                        Ok(h) => Some(h),
                        Err(_) => {
                            return Err(ApplyError::NotReady);
                        },
                    },
                    None => None,
                };
                let vn = match self.shaders.get(v) {
                    Some(n) => n,
                    None => {
                        return Err(ApplyError::DanglingReference);
                    },
                };
                let fnat = match f {
                    Some(fh) => match self.shaders.get(fh) {
                        Some(n) => Some(n),
                        None => {
                            return Err(ApplyError::DanglingReference);
                        },
                    },
                    None => None,
                };
                if self.program_tickets.is_resolved(ticket.id) {
                    Err(ApplyError::DoubleResolve)
                } else {
                    Ok(NativeWork::LinkProgram { vert: vn, frag: fnat })
                }
            },
            Command::MeshCreate { ticket, program, .. } => {
                if !self.program_tickets.is_resolved(program.id) {
                    Err(ApplyError::NotReady)
                } else if self.mesh_tickets.is_resolved(ticket.id) {
                    Err(ApplyError::DoubleResolve)
                } else {
                    Ok(NativeWork::UploadMesh)
                }
            },
            Command::RenderedObjectCreate { ticket, mesh } => {
                if !self.mesh_tickets.is_resolved(mesh.id) {
                    Err(ApplyError::NotReady)
                } else if self.object_tickets.is_resolved(ticket.id) {
                    Err(ApplyError::DoubleResolve)
                } else {
                    Ok(NativeWork::Nothing)
                }
            },
            Command::PositionSet { ticket, .. } => self.check_object(ticket.id),
            Command::MatrixSet { ticket, .. } => self.check_object(ticket.id),
            Command::CameraMatrixSet { .. } => Ok(NativeWork::Nothing),
            Command::TextureCreate { ticket, .. } => {
                if self.texture_tickets.is_resolved(ticket.id) {
                    Err(ApplyError::DoubleResolve)
                } else {
                    Ok(NativeWork::UploadTexture)
                }
            },
            Command::TextureSet { ticket, texture } => {
                if !self.object_tickets.is_resolved(ticket.id) || !self.texture_tickets.is_resolved(
                    texture.id,
                ) {
                    Err(ApplyError::NotReady)
                } else {
                    self.check_object(ticket.id)
                }
            },
        }
    }

    /// Applies `cmd`, whose native work came out as `outcome`: inserts what it creates
    /// and resolves its ticket, or updates the object or camera it names. A refused
    /// command changes nothing.
    pub fn apply(&mut self, cmd: &Command<S>, outcome: NativeOutcome) -> (r: Result<(), ApplyError>)
        requires
            has_room(old(self)@),
        ensures
            (final(self)@, r) == apply_spec(old(self)@, *cmd, outcome),
    {
        match self.prepare(cmd) {
            Err(e) => {
                return Err(e);
            },
            Ok(_) => {},
        }
        match cmd {
            Command::ShaderCreate { ticket, .. } => match outcome {
                NativeOutcome::Created(NativeObject::Shader(n)) => {
                    let h = self.shaders.insert(n);
                    let _ = self.shader_tickets.resolve(ticket.id, h);
                    Ok(())
                },
                NativeOutcome::Failed(msg) => Err(ApplyError::ResourceCreationFailure(msg)),
                _ => Err(ApplyError::NativeMismatch),
            },
            Command::ShaderProgramCreate { ticket, .. } => match outcome {
                NativeOutcome::Created(NativeObject::Program(n)) => {
                    let h = self.shader_programs.insert(n);
                    let _ = self.program_tickets.resolve(ticket.id, h);
                    Ok(())
                },
                NativeOutcome::Failed(msg) => Err(ApplyError::ResourceCreationFailure(msg)),
                _ => Err(ApplyError::NativeMismatch),
            },
            Command::MeshCreate { ticket, mesh, program } => match outcome {
                NativeOutcome::Created(NativeObject::Mesh { vao, vbo, ebo }) => {
                    let p = match self.program_tickets.read(program.id) {
                        Ok(p) => p,
                        Err(_) => {
                            return Err(ApplyError::NotReady);
                        },
                    };
                    let lm = LoadedMesh { vao, vbo, ebo, index_count: mesh.indices.len(), program: p };
                    let h = self.loaded_meshes.insert(lm);
                    let _ = self.mesh_tickets.resolve(ticket.id, h);
                    Ok(())
                },
                NativeOutcome::Failed(msg) => Err(ApplyError::ResourceCreationFailure(msg)),
                _ => Err(ApplyError::NativeMismatch),
            },
            Command::TextureCreate { ticket, .. } => match outcome {
                NativeOutcome::Created(NativeObject::Texture(n)) => {
                    let h = self.loaded_textures.insert(n);
                    let _ = self.texture_tickets.resolve(ticket.id, h);
                    Ok(())
                },
                NativeOutcome::Failed(msg) => Err(ApplyError::ResourceCreationFailure(msg)),
                _ => Err(ApplyError::NativeMismatch),
            },
            Command::RenderedObjectCreate { ticket, mesh } => {
                let m = match self.mesh_tickets.read(mesh.id) {
                    Ok(m) => m,
                    Err(_) => {
                        return Err(ApplyError::NotReady);
                    },
                };
                let o = RenderedObject { mesh: m, matrix: self.identity, texture: 0 };
                let h = self.rendered_objects.insert(o);
                let _ = self.object_tickets.resolve(ticket.id, h);
                Ok(())
            },
            Command::PositionSet { ticket, position } => {
                let (h, o) = self.live_object(ticket.id);
                let o2 = RenderedObject { matrix: o.matrix.with_translation(*position), ..o };
                let _ = self.rendered_objects.replace(h, o2);
                Ok(())
            },
            Command::MatrixSet { ticket, matrix } => {
                let (h, o) = self.live_object(ticket.id);
                let o2 = RenderedObject { matrix: *matrix, ..o };
                let _ = self.rendered_objects.replace(h, o2);
                Ok(())
            },
            Command::TextureSet { ticket, texture } => {
                let (h, o) = self.live_object(ticket.id);
                let t = match self.texture_tickets.read(texture.id) {
                    Ok(t) => t,
                    Err(_) => {
                        return Err(ApplyError::NotReady);
                    },
                };
                let o2 = RenderedObject { texture: t, ..o };
                let _ = self.rendered_objects.replace(h, o2);
                Ok(())
            },
            Command::CameraMatrixSet { matrix } => {
                self.camera = *matrix;
                Ok(())
            },
        }
    }

    /// The handle and value of the live object that ticket `id` names.
    fn live_object(&self, id: usize) -> (r: (usize, RenderedObject<S>))
        requires
            self@.object_tickets.contains_key(id),
            entry(self@.objects, self@.object_tickets[id]) is Some,
        ensures
            r.0 == self@.object_tickets[id],
            entry(self@.objects, r.0) == Some(r.1),
    {
        let h = match self.object_tickets.read(id) {
            Ok(h) => h,
            Err(_) => 0,
        };
        match self.rendered_objects.get(h) {
            Some(o) => (h, o),
            None => (h, RenderedObject { mesh: 0, matrix: self.identity, texture: 0 }),
        }
    }

    /// The draw calls of a frame: one per live object whose mesh, program and
    /// texture are live, in handle order; any other object is skipped.
    pub fn draw_calls(&self) -> (r: Vec<DrawCall<S>>)
        ensures
            r@ == draws(self@),
    {
        let mut r: Vec<DrawCall<S>> = Vec::new();
        let n = self.rendered_objects.slot_count();
        let mut i: usize = 0;
        while i < n
            invariant
                i <= n,
                n == self@.objects.len(),
                r@ == draws_upto(self@, i as nat),
            decreases n - i,
        {
            if let Some(o) = self.rendered_objects.get(i) {
                if let Some(lm) = self.loaded_meshes.get(o.mesh) {
                    if let Some(p) = self.shader_programs.get(lm.program) {
                        if let Some(t) = self.loaded_textures.get(o.texture) {
                            r.push(
                                DrawCall {
                                    object: i,
                                    program: p,
                                    vao: lm.vao,
                                    index_count: lm.index_count,
                                    texture: t,
                                    model: o.matrix,
                                },
                            );
                        }
                    }
                }
            }
            i = i + 1;
        }
        r
    }

    /// The object ticket `id` is resolved to a live object.
    fn check_object(&self, id: usize) -> (r: Result<NativeWork, ApplyError>)
        ensures
            r == if !self@.object_tickets.contains_key(id) {
                Err(ApplyError::NotReady)
            } else if entry(self@.objects, self@.object_tickets[id]) is None {
                Err(ApplyError::DanglingReference)
            } else {
                Ok(NativeWork::Nothing)
            },
    {
        match self.object_tickets.read(id) {
            Err(_) => Err(ApplyError::NotReady),
            Ok(h) => if self.rendered_objects.get(h).is_none() {
                Err(ApplyError::DanglingReference)
            } else {
                Ok(NativeWork::Nothing)
            },
        }
    }
}

} // verus!
