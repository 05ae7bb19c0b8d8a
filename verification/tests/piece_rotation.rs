//! Tests of the piece catalog, mask decoding, and rotation.

use tetris_core::piece::{Offset, Tetramino, template, template_count, template_piece};
use tetris_core::rgb::Rgb;

fn offsets(p: &Tetramino) -> [Offset; 4] {
    [
        p.block_positions.0,
        p.block_positions.1,
        p.block_positions.2,
        p.block_positions.3,
    ]
}

#[test]
fn catalog_has_seven_templates() {
    assert_eq!(template_count(), 7);
}

#[test]
fn straight_template_decodes_to_top_row() {
    // Mask 0b1111_0000: bits 4..8, blocks (0,1)..(3,1), offsets one quarter
    // cell past each corner.
    let p = template_piece(4);
    assert_eq!(
        offsets(&p),
        [
            Offset { x: 1, y: 5 },
            Offset { x: 5, y: 5 },
            Offset { x: 9, y: 5 },
            Offset { x: 13, y: 5 },
        ]
    );
    assert_eq!(p.color, Rgb::new(93, 173, 226));
}

#[test]
fn square_template_decodes_in_bit_order() {
    // Mask 0b1100_1100: bits 2, 3, 6, 7 => blocks (2,0), (3,0), (2,1), (3,1).
    let p = template_piece(0);
    assert_eq!(
        offsets(&p),
        [
            Offset { x: 9, y: 1 },
            Offset { x: 13, y: 1 },
            Offset { x: 9, y: 5 },
            Offset { x: 13, y: 5 },
        ]
    );
}

#[test]
fn template_colors_are_distinct() {
    for i in 0..7 {
        for j in 0..7 {
            if i != j {
                assert_ne!(template(i).color, template(j).color);
            }
        }
    }
}

#[test]
fn straight_piece_rotates_to_a_column() {
    // Centroid of the straight piece is (7, 5) quarter cells; one clockwise
    // quarter turn maps the row of blocks onto a column.
    let p = template_piece(4);
    let r = p.rotated();
    assert_eq!(
        offsets(&r),
        [
            Offset { x: 7, y: -1 },
            Offset { x: 7, y: 3 },
            Offset { x: 7, y: 7 },
            Offset { x: 7, y: 11 },
        ]
    );
    assert_eq!(r.color, p.color);
}

#[test]
fn four_rotations_return_every_template_to_its_offsets() {
    for t in 0..7 {
        let p = template_piece(t);
        let r = p.rotated().rotated().rotated().rotated();
        assert_eq!(offsets(&r), offsets(&p));
        assert_eq!(r.color, p.color);
    }
}

#[test]
fn two_rotations_differ_from_the_original_for_the_straight_piece() {
    let p = template_piece(4);
    let r2 = p.rotated().rotated();
    assert_ne!(offsets(&r2), offsets(&p));
}

#[test]
fn centroid_is_stable_under_rotation() {
    for t in 0..7 {
        let p = template_piece(t);
        let c = p.get_center();
        let r = p.rotated();
        assert_eq!(r.get_center(), c);
    }
}

#[test]
fn template_build_matches_template_piece() {
    for t in 0..7 {
        let built = template(t).build();
        let direct = template_piece(t);
        assert_eq!(offsets(&built), offsets(&direct));
        assert_eq!(built.color, direct.color);
    }
}
