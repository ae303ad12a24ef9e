use lore_render::frame::{frame_budget_nanos, remaining_frame_time, FramePhase};
use lore_render::heightmap::coords_to_inline;
use lore_render::matrix::{Mat4, Vec3, Vec4};
use lore_render::table::ResourceTable;
use lore_render::ticket::{TicketBoard, TicketError, TicketState};

#[test]
fn ticket_resolves_at_most_once() {
    let mut t = TicketState::new();
    assert_eq!(t.read(), Err(TicketError::NotReady));
    assert_eq!(t.resolve(4), Ok(()));
    assert_eq!(t.read(), Ok(4));
    assert_eq!(t.resolve(5), Err(TicketError::DoubleResolve));
    assert_eq!(t.read(), Ok(4));
}

#[test]
fn board_resolves_each_ticket_once() {
    let mut b = TicketBoard::new();
    assert_eq!(b.read(3), Err(TicketError::NotReady));
    assert_eq!(b.resolve(3, 10), Ok(()));
    assert_eq!(b.read(3), Ok(10));
    assert_eq!(b.state(0), TicketState::Pending);
    assert!(b.is_resolved(3));
    assert!(!b.is_resolved(2));
    assert_eq!(b.resolve(3, 11), Err(TicketError::DoubleResolve));
    assert_eq!(b.read(3), Ok(10));
    assert_eq!(b.resolve(0, 1), Ok(()));
    assert_eq!(b.state(0), TicketState::Resolved(1));
}

#[test]
fn table_takes_lowest_free_handle() {
    let mut t: ResourceTable<u32> = ResourceTable::new();
    assert_eq!(t.insert(10), 0);
    assert_eq!(t.insert(11), 1);
    assert_eq!(t.insert(12), 2);
    assert_eq!(t.remove(1), Some(11));
    assert_eq!(t.remove(1), None);
    assert_eq!(t.get(1), None);
    assert_eq!(t.get(2), Some(12));
    assert_eq!(t.insert(13), 1);
    assert_eq!(t.insert(14), 3);
    assert_eq!(t.slot_count(), 4);
    assert!(t.replace(3, 15));
    assert!(!t.replace(7, 16));
    assert_eq!(t.get(3), Some(15));
    assert_eq!(t.get(0), Some(10));
}

#[test]
fn frame_budget_at_sixty() {
    assert_eq!(frame_budget_nanos(60), 16_666_666);
    assert_eq!(remaining_frame_time(0, 60), Some(16_666_666));
    assert_eq!(remaining_frame_time(6_666_666, 60), Some(10_000_000));
    assert_eq!(remaining_frame_time(16_666_666, 60), None);
    assert_eq!(remaining_frame_time(40_000_000, 60), None);
}

#[test]
fn frame_phases_cycle() {
    let mut p = FramePhase::Idle;
    let expected = [
        FramePhase::DrainCommands,
        FramePhase::UpdateDerived,
        FramePhase::Draw,
        FramePhase::Present,
        FramePhase::Pace,
        FramePhase::Idle,
    ];
    for e in expected.iter() {
        p = p.next();
        assert_eq!(p, *e);
    }
}

#[test]
fn heightmap_index() {
    assert_eq!(coords_to_inline(2, 3, 10), 23);
    assert_eq!(coords_to_inline(0, 0, 10), 0);
    assert_eq!(coords_to_inline(1, 0, 4), 4);
}

#[test]
fn translation_keeps_rest_of_matrix() {
    let m: Mat4<i64> = Mat4::identity(0, 1);
    assert_eq!(m.w, Vec4 { x: 0, y: 0, z: 0, w: 1 });
    let t = m.with_translation(Vec3::new(5, 6, 7));
    assert_eq!(t.x, m.x);
    assert_eq!(t.y, m.y);
    assert_eq!(t.z, m.z);
    assert_eq!(t.w, Vec4 { x: 5, y: 6, z: 7, w: 1 });
    assert_eq!(t.translation(), Vec3::new(5, 6, 7));
}

#[test]
fn default_texture_is_grid() {
    let t = lore_render::texture::default_texture();
    assert_eq!((t.width, t.height), (8, 8));
    assert_eq!(t.pixels.len(), 192);
    let px = |x: usize, y: usize| (t.pixels[3 * (8 * y + x)], t.pixels[3 * (8 * y + x) + 1], t.pixels[3 * (8 * y + x) + 2]);
    assert_eq!(px(0, 0), (0, 0, 255));
    assert_eq!(px(1, 0), (0, 0, 255));
    assert_eq!(px(1, 1), (0, 0, 0));
    assert_eq!(px(3, 5), (0, 0, 0));
    assert_eq!(px(3, 4), (0, 0, 255));
    let w = lore_render::texture::white_texture();
    assert_eq!(w.pixels, vec![255, 255, 255]);
}

#[test]
fn live_values_skip_removed() {
    let mut t: ResourceTable<u32> = ResourceTable::new();
    t.insert(7);
    t.insert(8);
    t.insert(9);
    t.remove(1);
    assert_eq!(t.live_values(), vec![7, 9]);
}
