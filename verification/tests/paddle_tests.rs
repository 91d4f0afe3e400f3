use breakout::boundary::Boundary;
use breakout::direction::Direction;
use breakout::paddle::Paddle;

fn boundary() -> Boundary {
    Boundary::new(0, 20, 2, 17)
}

#[test]
fn new_paddle_is_centered() {
    let p = Paddle::new(5, boundary());
    assert_eq!(p.body, vec![8, 9, 10, 11, 12]);
}

#[test]
fn shift_right_moves_one_cell() {
    let mut p = Paddle::new(5, boundary());
    p.shift(Direction::Right);
    assert_eq!(p.body, vec![9, 10, 11, 12, 13]);
}

#[test]
fn shift_left_moves_one_cell() {
    let mut p = Paddle::new(5, boundary());
    p.shift(Direction::Left);
    assert_eq!(p.body, vec![7, 8, 9, 10, 11]);
}

#[test]
fn shift_clamps_at_right_edge() {
    let mut p = Paddle::new(5, boundary());
    for _ in 0..30 {
        p.shift(Direction::Right);
        assert!(*p.body.first().unwrap() >= 0 && *p.body.last().unwrap() <= 20);
    }
    // Clamped: further shifts beyond the edge are idempotent.
    assert_eq!(p.body, vec![16, 17, 18, 19, 20]);
    p.shift(Direction::Right);
    assert_eq!(p.body, vec![16, 17, 18, 19, 20]);
}

#[test]
fn shift_clamps_at_left_edge() {
    let mut p = Paddle::new(5, boundary());
    for _ in 0..30 {
        p.shift(Direction::Left);
        assert!(*p.body.last().unwrap() <= 20);
    }
    assert_eq!(p.body, vec![0, 1, 2, 3, 4]);
    p.shift(Direction::Left);
    assert_eq!(p.body, vec![0, 1, 2, 3, 4]);
}
