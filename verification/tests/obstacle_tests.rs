use breakout::obstacle::Obstacle;
use breakout::projectile::Point;

#[test]
fn level_1_is_a_step_2_row_at_width_20() {
    let o = Obstacle::new(20, 14, 1);
    let expected: Vec<Point> = (0..10).map(|k| Point::new(1 + 2 * k, 4)).collect();
    assert_eq!(o.body, expected);
    // Exactly the arithmetic sequence 1, 3, 5, ..., 19.
    let xs: Vec<u32> = o.body.iter().map(|p| p.x).collect();
    assert_eq!(xs, vec![1, 3, 5, 7, 9, 11, 13, 15, 17, 19]);
}

#[test]
fn level_2_is_a_centered_pyramid_at_width_20() {
    let o = Obstacle::new(20, 14, 2);
    assert_eq!(o.body.len(), 15);
    let row = |y: u32| -> Vec<u32> {
        o.body.iter().filter(|p| p.y == y).map(|p| p.x).collect()
    };
    // Three rows with block counts {7, 5, 3}, centered at width / 2 = 10.
    assert_eq!(row(5), vec![4, 6, 8, 10, 12, 14, 16]);
    assert_eq!(row(7), vec![6, 8, 10, 12, 14]);
    assert_eq!(row(9), vec![8, 10, 12]);
    assert!(o.body.iter().all(|p| p.y == 5 || p.y == 7 || p.y == 9));
}

#[test]
fn level_1_at_minimum_width() {
    let o = Obstacle::new(14, 10, 1);
    let xs: Vec<u32> = o.body.iter().map(|p| p.x).collect();
    assert_eq!(xs, vec![1, 3, 5, 7, 9, 11, 13]);
    assert!(o.body.iter().all(|p| p.y == 4));
}
