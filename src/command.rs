use vstd::prelude::*;

use crate::matrix::{Mat4, Vec3};

verus! {

/// A ticket for a rendered object that a queued command will create.
#[derive(Clone, Copy, PartialEq, Eq, Structural, Debug)]
pub struct RenderedObjectTicket {
    pub id: usize,
}

/// A ticket for a compiled shader stage that a queued command will create.
#[derive(Clone, Copy, PartialEq, Eq, Structural, Debug)]
pub struct ShaderTicket {
    pub id: usize,
}

/// A ticket for a linked shader program that a queued command will create.
#[derive(Clone, Copy, PartialEq, Eq, Structural, Debug)]
pub struct ShaderProgramTicket {
    pub id: usize,
}

/// A ticket for a mesh uploaded to the GPU by a queued command.
#[derive(Clone, Copy, PartialEq, Eq, Structural, Debug)]
pub struct LoadedMeshTicket {
    pub id: usize,
}

/// A ticket for a texture uploaded to the GPU by a queued command.
#[derive(Clone, Copy, PartialEq, Eq, Structural, Debug)]
pub struct TextureTicket {
    pub id: usize,
}

impl RenderedObjectTicket {
    pub fn new(id: usize) -> (r: Self)
        ensures
            r.id == id,
    {
        RenderedObjectTicket { id }
    }
}

impl ShaderTicket {
    pub fn new(id: usize) -> (r: Self)
        ensures
            r.id == id,
    {
        ShaderTicket { id }
    }
}

impl ShaderProgramTicket {
    pub fn new(id: usize) -> (r: Self)
        ensures
            r.id == id,
    {
        ShaderProgramTicket { id }
    }
}

impl LoadedMeshTicket {
    pub fn new(id: usize) -> (r: Self)
        ensures
            r.id == id,
    {
        LoadedMeshTicket { id }
    }
}

impl TextureTicket {
    pub fn new(id: usize) -> (r: Self)
        ensures
            r.id == id,
    {
        TextureTicket { id }
    }
}

/// A two-component vector over the scalar type `S`.
#[derive(Clone, Copy, PartialEq, Eq, Structural, Debug)]
pub struct Vec2<S> {
    pub x: S,
    pub y: S,
}

/// One vertex of a mesh: position, normal and texture coordinates.
#[derive(Clone, Copy, PartialEq, Eq, Structural, Debug)]
pub struct Vertex<S> {
    pub position: Vec3<S>,
    pub normal: Vec3<S>,
    pub tex_coords: Vec2<S>,
}

/// Mesh geometry: a vertex list and a triangle index list into it.
#[derive(Clone, Debug)]
pub struct Mesh<S> {
    pub vertices: Vec<Vertex<S>>,
    pub indices: Vec<u32>,
}

impl<S> Mesh<S> {
    pub fn new(vertices: Vec<Vertex<S>>, indices: Vec<u32>) -> (r: Mesh<S>)
        ensures
            r.vertices@ == vertices@,
            r.indices@ == indices@,
    {
        Mesh { vertices, indices }
    }
}

/// A decoded image: RGB pixels, row by row, with its size.
#[derive(Clone, Debug)]
pub struct TextureImage {
    pub pixels: Vec<u8>,
    pub width: u32,
    pub height: u32,
}

/// The stage a shader source is compiled for.
#[derive(Clone, Copy, PartialEq, Eq, Structural, Debug)]
pub enum ShaderStage {
    Vertex,
    Fragment,
}

/// One queued mutation of render state, carrying the tickets it resolves or reads.
#[derive(Clone, Debug)]
pub enum Command<S> {
    /// Compile a shader stage and resolve `ticket` to its handle.
    ShaderCreate { ticket: ShaderTicket, stage: ShaderStage, source: String },
    /// Link a program from resolved shaders and resolve `ticket` to its handle.
    ShaderProgramCreate {
        ticket: ShaderProgramTicket,
        vert: ShaderTicket,
        frag: Option<ShaderTicket>,
    },
    /// Upload `mesh`, to be drawn with the program of `program`; resolve `ticket`.
    MeshCreate { ticket: LoadedMeshTicket, mesh: Mesh<S>, program: ShaderProgramTicket },
    /// Create an object that draws the mesh of `mesh`; resolve `ticket`.
    RenderedObjectCreate { ticket: RenderedObjectTicket, mesh: LoadedMeshTicket },
    /// Set only the translation of the object's transform.
    PositionSet { ticket: RenderedObjectTicket, position: Vec3<S> },
    /// Replace the object's whole transform.
    MatrixSet { ticket: RenderedObjectTicket, matrix: Mat4<S> },
    /// Replace the camera's view matrix.
    CameraMatrixSet { matrix: Mat4<S> },
    /// Upload `image` as a texture; resolve `ticket`.
    TextureCreate { ticket: TextureTicket, image: TextureImage },
    /// Make the object draw with the texture of `texture`.
    TextureSet { ticket: RenderedObjectTicket, texture: TextureTicket },
}

/// The kinds of resource a ticket can stand for.
#[derive(Clone, Copy, PartialEq, Eq, Structural, Debug)]
pub enum TicketKind {
    Shader,
    ShaderProgram,
    LoadedMesh,
    Texture,
    RenderedObject,
}

/// The ticket that `cmd` resolves, if it creates a resource.
pub open spec fn creates<S>(cmd: Command<S>) -> Option<(TicketKind, usize)> {
    match cmd {
        Command::ShaderCreate { ticket, .. } => Some((TicketKind::Shader, ticket.id)),
        Command::ShaderProgramCreate { ticket, .. } => Some((TicketKind::ShaderProgram, ticket.id)),
        Command::MeshCreate { ticket, .. } => Some((TicketKind::LoadedMesh, ticket.id)),
        Command::RenderedObjectCreate { ticket, .. } => Some(
            (TicketKind::RenderedObject, ticket.id),
        ),
        Command::TextureCreate { ticket, .. } => Some((TicketKind::Texture, ticket.id)),
        _ => None,
    }
}

/// `cmd` reads ticket `t`: it needs the resource of `t` to exist.
pub open spec fn reads<S>(cmd: Command<S>, t: (TicketKind, usize)) -> bool {
    match cmd {
        Command::ShaderProgramCreate { vert, frag, .. } => t == (TicketKind::Shader, vert.id) || (
        frag is Some && t == (TicketKind::Shader, frag->Some_0.id)),
        Command::MeshCreate { program, .. } => t == (TicketKind::ShaderProgram, program.id),
        Command::RenderedObjectCreate { mesh, .. } => t == (TicketKind::LoadedMesh, mesh.id),
        Command::PositionSet { ticket, .. } => t == (TicketKind::RenderedObject, ticket.id),
        Command::MatrixSet { ticket, .. } => t == (TicketKind::RenderedObject, ticket.id),
        Command::TextureSet { ticket, texture } => t == (TicketKind::RenderedObject, ticket.id)
            || t == (TicketKind::Texture, texture.id),
        _ => false,
    }
}

} // verus!
