//! Behavior of the bounded region and its coordinate model.

use decor::quad::{Dir, Quad, QuadPosition, QUAD_HEIGHT, QUAD_SIZE};

#[test]
fn new_position_rejects_out_of_bounds_coordinates() {
    assert_eq!(
        QuadPosition::new(5, 10, 5),
        Some(QuadPosition { x: 5, y: 10, z: 5 })
    );
    assert_eq!(QuadPosition::new(QUAD_SIZE, 0, 0), None);
    assert_eq!(QuadPosition::new(0, QUAD_HEIGHT, 0), None);
    assert_eq!(QuadPosition::new(0, 0, QUAD_SIZE), None);
}

#[test]
fn offset_moves_one_step_in_bounds() {
    let p = QuadPosition { x: 5, y: 10, z: 6 };
    assert_eq!(p.offset(Dir::Up), Some(QuadPosition { x: 5, y: 11, z: 6 }));
    assert_eq!(p.offset(Dir::Down), Some(QuadPosition { x: 5, y: 9, z: 6 }));
    assert_eq!(p.offset(Dir::MinusX), Some(QuadPosition { x: 4, y: 10, z: 6 }));
    assert_eq!(p.offset(Dir::PlusX), Some(QuadPosition { x: 6, y: 10, z: 6 }));
    assert_eq!(p.offset(Dir::MinusZ), Some(QuadPosition { x: 5, y: 10, z: 5 }));
    assert_eq!(p.offset(Dir::PlusZ), Some(QuadPosition { x: 5, y: 10, z: 7 }));
}

#[test]
fn offset_signals_out_of_bounds_without_wrapping() {
    let corner = QuadPosition { x: 0, y: 0, z: 0 };
    assert_eq!(corner.offset(Dir::MinusX), None);
    assert_eq!(corner.offset(Dir::Down), None);
    assert_eq!(corner.offset(Dir::MinusZ), None);
    let far = QuadPosition {
        x: QUAD_SIZE - 1,
        y: QUAD_HEIGHT - 1,
        z: QUAD_SIZE - 1,
    };
    assert_eq!(far.offset(Dir::PlusX), None);
    assert_eq!(far.offset(Dir::Up), None);
    assert_eq!(far.offset(Dir::PlusZ), None);
}

#[test]
fn set_immediate_is_visible_to_later_reads() {
    let mut q = Quad::<u32>::new(0);
    let p = QuadPosition { x: 1, y: 2, z: 3 };
    assert_eq!(q.get(p), 0);
    q.set_immediate(p, &9);
    assert_eq!(q.get(p), 9);
    // neighboring voxels are untouched
    assert_eq!(q.get(QuadPosition { x: 2, y: 2, z: 3 }), 0);
    assert_eq!(q.get(QuadPosition { x: 1, y: 3, z: 3 }), 0);
    assert_eq!(q.get(QuadPosition { x: 1, y: 2, z: 4 }), 0);
}
