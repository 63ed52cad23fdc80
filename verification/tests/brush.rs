use shader_sandbox::brush::{
    build_stamp, cell_color, count_disc_cells, covers, BrushColor, BRUSH_RADIUS_SQUARED, DISC_CELLS,
};

const DISC_ROWS: [&str; 11] = [
    "...#####...",
    "..#######..",
    ".#########.",
    "###########",
    "###########",
    "###########",
    "###########",
    "###########",
    ".#########.",
    "..#######..",
    "...#####...",
];

fn color(left: bool, right: bool, middle: bool) -> BrushColor {
    BrushColor { left, right, middle }
}

#[test]
fn mask_matches_the_disc_table() {
    for dx in 0..11u32 {
        for dy in 0..11u32 {
            let expected = DISC_ROWS[dx as usize].as_bytes()[dy as usize] == b'#';
            assert_eq!(covers(dx, dy), expected, "offset ({}, {})", dx, dy);
        }
    }
}

#[test]
fn mask_follows_the_squared_distance() {
    assert_eq!(BRUSH_RADIUS_SQUARED, 30);
    for dx in 0..11i64 {
        for dy in 0..11i64 {
            let inside = (dx - 5) * (dx - 5) + (dy - 5) * (dy - 5) <= 30;
            assert_eq!(covers(dx as u32, dy as u32), inside);
        }
    }
}

#[test]
fn offsets_beyond_the_footprint_are_outside() {
    assert!(!covers(11, 5));
    assert!(!covers(5, 11));
    assert!(!covers(u32::MAX, u32::MAX));
    assert!(!covers(u32::MAX, 5));
}

#[test]
fn stamp_is_eleven_by_eleven() {
    let cells = build_stamp(color(true, false, false));
    assert_eq!(cells.len(), 11);
    for column in &cells {
        assert_eq!(column.len(), 11);
    }
}

#[test]
fn stamp_holds_color_in_disc_and_black_outside() {
    let ink = color(true, false, true);
    let cells = build_stamp(ink);
    for dx in 0..11usize {
        for dy in 0..11usize {
            let inside = DISC_ROWS[dx].as_bytes()[dy] == b'#';
            let expected = if inside { ink } else { color(false, false, false) };
            assert_eq!(cells[dx][dy], expected, "offset ({}, {})", dx, dy);
            assert_eq!(cell_color(ink, dx as u32, dy as u32), expected);
        }
    }
}

#[test]
fn stamp_corners_are_black_and_centre_is_colored() {
    let ink = color(false, true, false);
    let cells = build_stamp(ink);
    for (dx, dy) in [(0usize, 0usize), (0, 10), (10, 0), (10, 10), (2, 0), (0, 2)] {
        assert_eq!(cells[dx][dy], BrushColor::black());
    }
    for (dx, dy) in [(5usize, 5usize), (0, 3), (3, 0), (10, 7), (5, 10), (0, 5)] {
        assert_eq!(cells[dx][dy], ink);
    }
}

#[test]
fn disc_covers_ninety_seven_cells() {
    assert_eq!(DISC_CELLS, 97);
    assert_eq!(count_disc_cells(), 97);
    let ink = color(true, true, true);
    let cells = build_stamp(ink);
    let colored = cells.iter().flatten().filter(|cell| **cell == ink).count();
    assert_eq!(colored, 97);
    let black = cells.iter().flatten().filter(|cell| **cell == BrushColor::black()).count();
    assert_eq!(black, 24);
}

#[test]
fn components_are_zero_or_one() {
    assert_eq!(color(true, false, false).components(), (1, 0, 0));
    assert_eq!(color(true, false, true).components(), (1, 0, 1));
    assert_eq!(color(false, true, false).components(), (0, 1, 0));
    assert_eq!(BrushColor::black().components(), (0, 0, 0));
}
