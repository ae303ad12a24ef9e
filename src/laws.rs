use vstd::prelude::*;

use crate::command::{
    Command, RenderedObjectTicket, TextureTicket, TicketKind, creates, reads,
};
use crate::drawing::{
    ApplyError, NativeOutcome, RenderModel, apply_spec, draw_of, draws, draws_upto,
    resolved,
};
use crate::matrix::{Mat4, Vec3, translated};
use crate::table::{
    dense, entry, first_free, is_first_free, lemma_dense_insert_appends, lemma_first_free_exists,
};

verus! {

/// Applies `cmds` in order, each with the native outcome at the same place in
/// `outs`, and stops at the first command refused, as the render thread does.
pub open spec fn run_spec<S>(m: RenderModel<S>, cmds: Seq<Command<S>>, outs: Seq<NativeOutcome>) -> (
    RenderModel<S>,
    Result<(), ApplyError>,
)
    decreases cmds.len(),
{
    if cmds.len() == 0 || outs.len() == 0 {
        (m, Ok(()))
    } else {
        let (m1, r) = apply_spec(m, cmds[0], outs[0]);
        if r is Err {
            (m1, r)
        } else {
            run_spec(m1, cmds.drop_first(), outs.drop_first())
        }
    }
}

/// Ticket `t` is resolved in `m` or created by one of the first `i` commands.
pub open spec fn created_before<S>(
    m: RenderModel<S>,
    cmds: Seq<Command<S>>,
    i: int,
    t: (TicketKind, usize),
) -> bool {
    resolved(m, t) || exists|j: int| 0 <= j < i && creates(#[trigger] cmds[j]) == Some(t)
}

/// Every ticket a command of `cmds` reads is resolved in `m` or created by an
/// earlier command of `cmds`.
pub open spec fn creation_ordered<S>(m: RenderModel<S>, cmds: Seq<Command<S>>) -> bool {
    forall|i: int, t: (TicketKind, usize)|
        0 <= i < cmds.len() && #[trigger] reads(cmds[i], t) ==> created_before(m, cmds, i, t)
}

/// A command all of whose tickets are resolved is never refused as not ready.
pub proof fn lemma_ready_command_not_refused<S>(m: RenderModel<S>, cmd: Command<S>, out: NativeOutcome)
    requires
        forall|t: (TicketKind, usize)| #[trigger] reads(cmd, t) ==> resolved(m, t),
    ensures
        apply_spec(m, cmd, out).1 != Err::<(), ApplyError>(ApplyError::NotReady),
{
    match cmd {
        Command::ShaderProgramCreate { vert, frag, .. } => {
            assert(reads(cmd, (TicketKind::Shader, vert.id)));
            if frag is Some {
                assert(reads(cmd, (TicketKind::Shader, frag->Some_0.id)));
            }
        },
        Command::MeshCreate { program, .. } => {
            assert(reads(cmd, (TicketKind::ShaderProgram, program.id)));
        },
        Command::RenderedObjectCreate { mesh, .. } => {
            assert(reads(cmd, (TicketKind::LoadedMesh, mesh.id)));
        },
        Command::PositionSet { ticket, .. } => {
            assert(reads(cmd, (TicketKind::RenderedObject, ticket.id)));
        },
        Command::MatrixSet { ticket, .. } => {
            assert(reads(cmd, (TicketKind::RenderedObject, ticket.id)));
        },
        Command::TextureSet { ticket, texture } => {
            assert(reads(cmd, (TicketKind::RenderedObject, ticket.id)));
            assert(reads(cmd, (TicketKind::Texture, texture.id)));
        },
        _ => {},
    }
}

/// Applying a command never unresolves a ticket; applying a creation command
/// successfully resolves the ticket it creates.
pub proof fn lemma_apply_resolves<S>(
    m: RenderModel<S>,
    cmd: Command<S>,
    out: NativeOutcome,
    t: (TicketKind, usize),
)
    ensures
        resolved(m, t) ==> resolved(apply_spec(m, cmd, out).0, t),
        apply_spec(m, cmd, out).1 is Ok && creates(cmd) == Some(t) ==> resolved(
            apply_spec(m, cmd, out).0,
            t,
        ),
{
}

/// When every command's tickets are created by earlier commands (or were resolved
/// already), applying the queue in order never meets a ticket that is not ready.
pub proof fn lemma_ordered_queue_never_not_ready<S>(
    m: RenderModel<S>,
    cmds: Seq<Command<S>>,
    outs: Seq<NativeOutcome>,
)
    requires
        creation_ordered(m, cmds),
    ensures
        run_spec(m, cmds, outs).1 != Err::<(), ApplyError>(ApplyError::NotReady),
    decreases cmds.len(),
{
    if cmds.len() == 0 || outs.len() == 0 {
    } else {
        let cmd = cmds[0];
        assert forall|t: (TicketKind, usize)| #[trigger] reads(cmd, t) implies resolved(m, t) by {
            assert(created_before(m, cmds, 0, t));
        }
        lemma_ready_command_not_refused(m, cmd, outs[0]);
        let (m1, r) = apply_spec(m, cmd, outs[0]);
        if r is Ok {
            let rest = cmds.drop_first();
            assert forall|i: int, t: (TicketKind, usize)|
                0 <= i < rest.len() && #[trigger] reads(rest[i], t) implies created_before(
                m1,
                rest,
                i,
                t,
            ) by {
                assert(rest[i] == cmds[i + 1]);
                assert(created_before(m, cmds, i + 1, t));
                lemma_apply_resolves(m, cmd, outs[0], t);
                if !resolved(m1, t) {
                    let j = choose|j: int| 0 <= j < i + 1 && creates(#[trigger] cmds[j]) == Some(t);
                    assert(j != 0);
                    assert(rest[j - 1] == cmds[j]);
                }
            }
            lemma_ordered_queue_never_not_ready(m1, rest, outs.drop_first());
        }
    }
}

/// A ticket is resolved at most once: once a creation command has been applied,
/// applying it again is refused with `DoubleResolve` and changes nothing.
pub proof fn lemma_second_creation_refused<S>(
    m: RenderModel<S>,
    cmd: Command<S>,
    first: NativeOutcome,
    second: NativeOutcome,
)
    requires
        creates(cmd) is Some,
        apply_spec(m, cmd, first).1 is Ok,
    ensures
        apply_spec(apply_spec(m, cmd, first).0, cmd, second) == (
            apply_spec(m, cmd, first).0,
            Err::<(), ApplyError>(ApplyError::DoubleResolve),
        ),
{
}

/// Setting a position after a whole transform keeps the transform's rotation and
/// scale block and its last row entry, and overwrites only the translation.
pub proof fn lemma_position_after_matrix<S>(
    m: RenderModel<S>,
    ticket: RenderedObjectTicket,
    matrix: Mat4<S>,
    position: Vec3<S>,
    o1: NativeOutcome,
    o2: NativeOutcome,
)
    requires
        apply_spec(m, Command::MatrixSet { ticket, matrix }, o1).1 is Ok,
    ensures
        ({
            let m1 = apply_spec(m, Command::MatrixSet { ticket, matrix }, o1).0;
            let (m2, r) = apply_spec(m1, Command::PositionSet { ticket, position }, o2);
            let h = m.object_tickets[ticket.id];
            let after = entry(m2.objects, h)->Some_0.matrix;
            &&& r is Ok
            &&& entry(m2.objects, h) is Some
            &&& after == translated(matrix, position)
            &&& after.x == matrix.x && after.y == matrix.y && after.z == matrix.z
            &&& after.w.w == matrix.w.w
            &&& after.w.x == position.x && after.w.y == position.y && after.w.z == position.z
        }),
{
}

/// A texture assignment whose texture ticket is not resolved is refused as not
/// ready, and the object keeps everything it had, its texture included.
pub proof fn lemma_unready_texture_set_refused<S>(
    m: RenderModel<S>,
    ticket: RenderedObjectTicket,
    texture: TextureTicket,
    out: NativeOutcome,
)
    requires
        !m.texture_tickets.contains_key(texture.id),
    ensures
        apply_spec(m, Command::TextureSet { ticket, texture }, out) == (
            m,
            Err::<(), ApplyError>(ApplyError::NotReady),
        ),
{
}

/// Setting the camera twice to `c` leaves it at `c`, as setting it once does.
pub proof fn lemma_camera_set_idempotent<S>(
    m: RenderModel<S>,
    c: Mat4<S>,
    o1: NativeOutcome,
    o2: NativeOutcome,
)
    ensures
        apply_spec(m, Command::CameraMatrixSet { matrix: c }, o1).0.camera == c,
        apply_spec(apply_spec(m, Command::CameraMatrixSet { matrix: c }, o1).0, Command::CameraMatrixSet { matrix: c }, o2) == (
            apply_spec(m, Command::CameraMatrixSet { matrix: c }, o1).0,
            Ok::<(), ApplyError>(()),
        ),
{
    let m1 = apply_spec(m, Command::CameraMatrixSet { matrix: c }, o1).0;
    assert(apply_spec(m1, Command::CameraMatrixSet { matrix: c }, o2).0 == m1);
}

/// The draw calls list objects in increasing handle order.
pub proof fn lemma_draws_in_handle_order<S>(m: RenderModel<S>, n: nat)
    requires
        n <= usize::MAX,
    ensures
        forall|k: int| 0 <= k < draws_upto(m, n).len() ==> #[trigger] draws_upto(m, n)[k].object < n,
        forall|i: int, j: int|
            0 <= i < j < draws_upto(m, n).len() ==> #[trigger] draws_upto(m, n)[i].object
                < #[trigger] draws_upto(m, n)[j].object,
    decreases n,
{
    if n > 0 {
        lemma_draws_in_handle_order(m, (n - 1) as nat);
        let prev = draws_upto(m, (n - 1) as nat);
        if let Some(d) = draw_of(m, (n - 1) as usize) {
            assert(d.object == n - 1);
            assert(draws_upto(m, n) == prev.push(d));
        }
    }
}

/// Two states whose objects under handles below `n`, and whose meshes, programs and
/// textures, agree, have the same draw calls for those handles.
proof fn lemma_draws_agree<S>(a: RenderModel<S>, b: RenderModel<S>, n: nat)
    requires
        n <= a.objects.len(),
        n <= b.objects.len(),
        forall|h: int| 0 <= h < n ==> #[trigger] a.objects[h] == b.objects[h],
        a.meshes == b.meshes,
        a.programs == b.programs,
        a.textures == b.textures,
    ensures
        draws_upto(a, n) == draws_upto(b, n),
    decreases n,
{
    if n > 0 {
        lemma_draws_agree(a, b, (n - 1) as nat);
        assert(a.objects[n - 1] == b.objects[n - 1]);
        assert(draw_of(a, (n - 1) as usize) == draw_of(b, (n - 1) as usize));
    }
}

/// With no object removed, a newly created object takes the handle after every
/// other object and is drawn after all of them: draw order is creation order.
pub proof fn lemma_new_object_drawn_last<S>(
    m: RenderModel<S>,
    ticket: RenderedObjectTicket,
    mesh: crate::command::LoadedMeshTicket,
    out: NativeOutcome,
)
    requires
        dense(m.objects),
        m.objects.len() < usize::MAX,
        apply_spec(m, Command::RenderedObjectCreate { ticket, mesh }, out).1 is Ok,
    ensures
        ({
            let m1 = apply_spec(m, Command::RenderedObjectCreate { ticket, mesh }, out).0;
            &&& m1.object_tickets[ticket.id] == m.objects.len()
            &&& dense(m1.objects)
            &&& draws(m1) == match draw_of(m1, m.objects.len() as usize) {
                Some(d) => draws(m).push(d),
                None => draws(m),
            }
        }),
{
    let m1 = apply_spec(m, Command::RenderedObjectCreate { ticket, mesh }, out).0;
    let n = m.objects.len();
    let h = n as usize;
    assert(is_first_free(m.objects, h)) by {
        assert forall|j: int| 0 <= j < h implies #[trigger] m.objects[j] is Some by {}
    }
    crate::table::lemma_first_free_unique(m.objects, h);
    assert(first_free(m.objects) == h);
    let o = entry(m1.objects, h)->Some_0;
    lemma_dense_insert_appends(m.objects, h, o);
    assert(m1.objects == m.objects.push(Some(o)));
    lemma_draws_agree(m, m1, n);
}

/// The built-in texture under handle 0 is never replaced or removed by a command.
pub proof fn lemma_default_texture_kept<S>(m: RenderModel<S>, cmd: Command<S>, out: NativeOutcome)
    requires
        entry(m.textures, 0) is Some,
        m.textures.len() < usize::MAX,
    ensures
        entry(apply_spec(m, cmd, out).0.textures, 0) == entry(m.textures, 0),
{
    lemma_first_free_exists(m.textures);
}

} // verus!
