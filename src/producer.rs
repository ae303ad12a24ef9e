use vstd::prelude::*;

use crate::command::{
    Command, LoadedMeshTicket, Mesh, RenderedObjectTicket, ShaderProgramTicket, ShaderStage,
    ShaderTicket, TextureImage, TextureTicket,
};
use crate::matrix::{Mat4, Vec3};

verus! {

/// The producer side as values: the next ticket number of each kind, and the
/// commands queued and not yet taken, oldest first.
pub struct InstanceModel<S> {
    pub next_shader: usize,
    pub next_program: usize,
    pub next_mesh: usize,
    pub next_texture: usize,
    pub next_object: usize,
    pub queue: Seq<Command<S>>,
}

/// What application code holds: every operation hands out fresh tickets at once,
/// queues the command that will resolve or use them, and returns without waiting
/// for the render thread.
pub struct Instance<S> {
    next_shader: usize,
    next_program: usize,
    next_mesh: usize,
    next_texture: usize,
    next_object: usize,
    queue: Vec<Command<S>>,
}

impl<S> View for Instance<S> {
    type V = InstanceModel<S>;

    closed spec fn view(&self) -> InstanceModel<S> {
        InstanceModel {
            next_shader: self.next_shader,
            next_program: self.next_program,
            next_mesh: self.next_mesh,
            next_texture: self.next_texture,
            next_object: self.next_object,
            queue: self.queue@,
        }
    }
}

/// Every ticket counter of `m` can hand out two more numbers.
pub open spec fn can_issue<S>(m: InstanceModel<S>) -> bool {
    &&& m.next_shader < usize::MAX - 1
    &&& m.next_program < usize::MAX
    &&& m.next_mesh < usize::MAX
    &&& m.next_texture < usize::MAX
    &&& m.next_object < usize::MAX
}

impl<S: Copy> Instance<S> {
    /// A producer with no ticket handed out and nothing queued.
    pub fn new() -> (r: Instance<S>)
        ensures
            r@ == (InstanceModel::<S> {
                next_shader: 0,
                next_program: 0,
                next_mesh: 0,
                next_texture: 0,
                next_object: 0,
                queue: Seq::empty(),
            }),
    {
        Instance {
            next_shader: 0,
            next_program: 0,
            next_mesh: 0,
            next_texture: 0,
            next_object: 0,
            queue: Vec::new(),
        }
    }

    /// Whether every ticket counter has room, as each operation needs.
    pub fn can_issue(&self) -> (r: bool)
        ensures
            r == can_issue(self@),
    {
        self.next_shader < usize::MAX - 1 && self.next_program < usize::MAX && self.next_mesh
            < usize::MAX && self.next_texture < usize::MAX && self.next_object < usize::MAX
    }

    /// Queues the upload of `mesh`, drawn with the program of `shader_program_ticket`.
    pub fn bind_mesh(&mut self, mesh: Mesh<S>, shader_program_ticket: &ShaderProgramTicket) -> (r:
        LoadedMeshTicket)
        requires
            can_issue(old(self)@),
        ensures
            r.id == old(self)@.next_mesh,
            final(self)@ == (InstanceModel {
                next_mesh: (old(self)@.next_mesh + 1) as usize,
                queue: old(self)@.queue.push(
                    Command::MeshCreate { ticket: r, mesh, program: *shader_program_ticket },
                ),
                ..old(self)@
            }),
    {
        let t = LoadedMeshTicket::new(self.next_mesh);
        self.next_mesh = self.next_mesh + 1;
        self.queue.push(Command::MeshCreate { ticket: t, mesh, program: *shader_program_ticket });
        t
    }

    /// Queues the creation of an object that draws the mesh of `lmt`.
    pub fn create_rendered_object(&mut self, lmt: &LoadedMeshTicket) -> (r: RenderedObjectTicket)
        requires
            can_issue(old(self)@),
        ensures
            r.id == old(self)@.next_object,
            final(self)@ == (InstanceModel {
                next_object: (old(self)@.next_object + 1) as usize,
                queue: old(self)@.queue.push(
                    Command::RenderedObjectCreate { ticket: r, mesh: *lmt },
                ),
                ..old(self)@
            }),
    {
        let t = RenderedObjectTicket::new(self.next_object);
        self.next_object = self.next_object + 1;
        self.queue.push(Command::RenderedObjectCreate { ticket: t, mesh: *lmt });
        t
    }

    /// Queues setting the translation of the object of `rot` to `position`.
    pub fn set_position(&mut self, rot: &RenderedObjectTicket, position: Vec3<S>)
        ensures
            final(self)@ == (InstanceModel {
                queue: old(self)@.queue.push(Command::PositionSet { ticket: *rot, position }),
                ..old(self)@
            }),
    {
        self.queue.push(Command::PositionSet { ticket: *rot, position });
    }

    /// Queues replacing the whole transform of the object of `rot`.
    pub fn set_matrix(&mut self, rot: &RenderedObjectTicket, matrix: Mat4<S>)
        ensures
            final(self)@ == (InstanceModel {
                queue: old(self)@.queue.push(Command::MatrixSet { ticket: *rot, matrix }),
                ..old(self)@
            }),
    {
        self.queue.push(Command::MatrixSet { ticket: *rot, matrix });
    }

    /// Queues compiling `vert_src` (and `frag_src`, if given) and linking them into
    /// a program: two or three commands, the program's last.
    pub fn create_shader_program(&mut self, vert_src: String, frag_src: Option<String>) -> (r:
        ShaderProgramTicket)
        requires
            can_issue(old(self)@),
        ensures
            r.id == old(self)@.next_program,
            final(self)@ == (InstanceModel {
                next_shader: (old(self)@.next_shader + if frag_src is Some {
                    2usize
                } else {
                    1usize
                }) as usize,
                next_program: (old(self)@.next_program + 1) as usize,
                queue: old(self)@.queue + match frag_src {
                    Some(f) => seq![
                        Command::ShaderCreate {
                            ticket: ShaderTicket { id: old(self)@.next_shader },
                            stage: ShaderStage::Vertex,
                            source: vert_src,
                        },
                        Command::ShaderCreate {
                            ticket: ShaderTicket { id: (old(self)@.next_shader + 1) as usize },
                            stage: ShaderStage::Fragment,
                            source: f,
                        },
                        Command::ShaderProgramCreate {
                            ticket: r,
                            vert: ShaderTicket { id: old(self)@.next_shader },
                            frag: Some(ShaderTicket { id: (old(self)@.next_shader + 1) as usize }),
                        },
                    ],
                    None => seq![
                        Command::ShaderCreate {
                            ticket: ShaderTicket { id: old(self)@.next_shader },
                            stage: ShaderStage::Vertex,
                            source: vert_src,
                        },
                        Command::ShaderProgramCreate {
                            ticket: r,
                            vert: ShaderTicket { id: old(self)@.next_shader },
                            frag: None,
                        },
                    ],
                },
                ..old(self)@
            }),
    {
        let ghost q0 = self.queue@;
        let ghost fsrc = frag_src;
        let vert = ShaderTicket::new(self.next_shader);
        self.next_shader = self.next_shader + 1;
        self.queue.push(
            Command::ShaderCreate { ticket: vert, stage: ShaderStage::Vertex, source: vert_src },
        );
        let frag = match frag_src {
            Some(src) => {
                let f = ShaderTicket::new(self.next_shader);
                self.next_shader = self.next_shader + 1;
                self.queue.push(
                    Command::ShaderCreate { ticket: f, stage: ShaderStage::Fragment, source: src },
                );
                Some(f)
            },
            None => None,
        };
        let t = ShaderProgramTicket::new(self.next_program);
        self.next_program = self.next_program + 1;
        self.queue.push(Command::ShaderProgramCreate { ticket: t, vert, frag });
        proof {
            match fsrc {
                Some(f) => {
                    assert(self.queue@ =~= q0 + seq![
                        Command::ShaderCreate {
                            ticket: vert,
                            stage: ShaderStage::Vertex,
                            source: vert_src,
                        },
                        Command::ShaderCreate {
                            ticket: frag->Some_0,
                            stage: ShaderStage::Fragment,
                            source: f,
                        },
                        Command::ShaderProgramCreate { ticket: t, vert, frag },
                    ]);
                },
                None => {
                    assert(self.queue@ =~= q0 + seq![
                        Command::ShaderCreate {
                            ticket: vert,
                            stage: ShaderStage::Vertex,
                            source: vert_src,
                        },
                        Command::ShaderProgramCreate { ticket: t, vert, frag },
                    ]);
                },
            }
        }
        t
    }

    /// Queues replacing the camera's view matrix with `cam_mat`.
    pub fn set_camera_matrix(&mut self, cam_mat: Mat4<S>)
        ensures
            final(self)@ == (InstanceModel {
                queue: old(self)@.queue.push(Command::CameraMatrixSet { matrix: cam_mat }),
                ..old(self)@
            }),
    {
        self.queue.push(Command::CameraMatrixSet { matrix: cam_mat });
    }

    /// Queues the upload of `texture`.
    pub fn bind_texture(&mut self, texture: TextureImage) -> (r: TextureTicket)
        requires
            can_issue(old(self)@),
        ensures
            r.id == old(self)@.next_texture,
            final(self)@ == (InstanceModel {
                next_texture: (old(self)@.next_texture + 1) as usize,
                queue: old(self)@.queue.push(Command::TextureCreate { ticket: r, image: texture }),
                ..old(self)@
            }),
    {
        let t = TextureTicket::new(self.next_texture);
        self.next_texture = self.next_texture + 1;
        self.queue.push(Command::TextureCreate { ticket: t, image: texture });
        t
    }

    /// Queues drawing the object of `rendered_object` with the texture of `texture`.
    pub fn set_texture(&mut self, rendered_object: &RenderedObjectTicket, texture: &TextureTicket)
        ensures
            final(self)@ == (InstanceModel {
                queue: old(self)@.queue.push(
                    Command::TextureSet { ticket: *rendered_object, texture: *texture },
                ),
                ..old(self)@
            }),
    {
        self.queue.push(Command::TextureSet { ticket: *rendered_object, texture: *texture });
    }

    /// Hands over the queued commands, oldest first, and empties the queue.
    pub fn take_commands(&mut self) -> (r: Vec<Command<S>>)
        ensures
            r@ == old(self)@.queue,
            final(self)@ == (InstanceModel { queue: Seq::empty(), ..old(self)@ }),
    {
        let mut q: Vec<Command<S>> = Vec::new();
        std::mem::swap(&mut q, &mut self.queue);
        q
    }
}

} // verus!
