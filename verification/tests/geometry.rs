use luma11y::geometry::{
    intersect, magnifier_half, magnifier_rect, row_bands, screens_to_refresh, subtract,
    work_buffer_size, Rect,
};

fn r(x: i32, y: i32, w: i32, h: i32) -> Rect {
    Rect { x, y, w, h }
}

fn covers(rects: &[Rect], px: i32, py: i32) -> usize {
    rects.iter().filter(|q| q.x <= px && px < q.x + q.w && q.y <= py && py < q.y + q.h).count()
}

#[test]
fn intersections() {
    assert_eq!(intersect(r(0, 0, 10, 10), r(5, 5, 10, 10)), Some(r(5, 5, 5, 5)));
    assert_eq!(intersect(r(0, 0, 10, 10), r(10, 0, 5, 5)), None);
    assert_eq!(intersect(r(0, 0, 10, 10), r(2, 3, 4, 5)), Some(r(2, 3, 4, 5)));
}

#[test]
fn subtract_disjoint_gives_original() {
    assert_eq!(subtract(r(0, 0, 4, 4), r(10, 10, 2, 2)), vec![r(0, 0, 4, 4)]);
}

#[test]
fn subtract_inner_hole_gives_four_pieces() {
    let pieces = subtract(r(0, 0, 10, 10), r(3, 3, 4, 4));
    assert_eq!(
        pieces,
        vec![r(0, 0, 10, 3), r(0, 7, 10, 3), r(0, 3, 3, 4), r(7, 3, 3, 4)]
    );
}

#[test]
fn subtract_partitions_the_difference() {
    let a = r(2, 1, 9, 7);
    for b in [r(0, 0, 4, 4), r(5, 3, 20, 2), r(2, 1, 9, 7), r(-3, 6, 8, 8), r(20, 20, 1, 1)] {
        let pieces = subtract(a, b);
        assert!(pieces.len() <= 4);
        for py in -5..20 {
            for px in -5..25 {
                let in_a = covers(&[a], px, py) == 1;
                let in_b = covers(&[b], px, py) == 1;
                let n = covers(&pieces, px, py);
                assert_eq!(n, if in_a && !in_b { 1 } else { 0 });
            }
        }
    }
}

#[test]
fn magnifier_box_is_cut_to_the_screen() {
    assert_eq!(magnifier_rect(50, 50, 20, 1920, 1080), r(30, 30, 40, 40));
    assert_eq!(magnifier_rect(5, 1075, 20, 1920, 1080), r(0, 1055, 25, 25));
    assert_eq!(magnifier_rect(5, 5, 20, 0, 0), r(0, 0, 0, 0));
}

#[test]
fn bands_cover_all_rows() {
    // (1000 - 64) / 100 = 9 rows per band.
    let bands = row_bands(25, 100, 1000);
    assert_eq!(bands, vec![(0, 9), (9, 9), (18, 7)]);
    // At least one row per band, whatever the request size.
    assert_eq!(row_bands(3, 5000, 10), vec![(0, 1), (1, 1), (2, 1)]);
    assert_eq!(row_bands(0, 10, 1000), vec![]);
    assert_eq!(row_bands(4, 0, 100), vec![(0, 4)]);
}

#[test]
fn magnifier_half_and_work_buffer() {
    // 15 pixels at zoom 10: ceil(150 / 2) + 20 + 2 * 11 + 6.
    assert_eq!(magnifier_half(15, 10, 20, 11), 123);
    // Odd product rounds up: ceil(9 * 5 / 2) = 23.
    assert_eq!(magnifier_half(9, 5, 20, 11), 71);
    assert_eq!(magnifier_half(u32::MAX, u32::MAX, 0, 0), i32::MAX);
    // 21 pixels at zoom 30: ceil(630 / 2) + 48 = 363, so 363 * 2 + 2.
    assert_eq!(work_buffer_size(30, 20, 11), 728);
    let r = magnifier_rect(500, 400, magnifier_half(21, 30, 20, 11), 2000, 2000);
    assert!(r.w <= 728 && r.h <= 728);
}

#[test]
fn screens_to_redraw() {
    assert_eq!(screens_to_refresh(Some(1), Some(1)), vec![1]);
    assert_eq!(screens_to_refresh(Some(0), Some(2)), vec![0, 2]);
    assert_eq!(screens_to_refresh(None, Some(2)), vec![2]);
    assert_eq!(screens_to_refresh(Some(3), None), vec![3]);
    assert_eq!(screens_to_refresh(None, None), Vec::<usize>::new());
}
