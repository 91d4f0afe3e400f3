use breakout::boundary::Boundary;
use breakout::obstacle::Obstacle;
use breakout::paddle::Paddle;
use breakout::projectile::{Point, Projectile};

fn boundary() -> Boundary {
    // A 20-wide field with the score hat: paddle row is 16, bottom is 17.
    Boundary::new(0, 20, 2, 17)
}

fn paddle(cells: Vec<u32>) -> Paddle {
    let n = cells.len();
    Paddle { body: cells, body_length: n, boundary: boundary() }
}

#[test]
fn paddle_bounce_flips_vertical_velocity() {
    // Tentative cell (10, bottom - 1) with the paddle on {8..12}: bounce.
    let pad = paddle(vec![8, 9, 10, 11, 12]);
    let mut obs = Obstacle { body: vec![] };
    let mut proj = Projectile::new(9, 15, 1, 1, boundary());
    let (lost, destroyed) = proj.fly_projectile(&pad, &mut obs);
    assert!(!lost);
    assert!(!destroyed);
    assert_eq!(proj.velocity.y, -1);
    assert_eq!(proj.velocity.x, 1);
    assert_eq!((proj.position.x, proj.position.y), (10, 14));
}

#[test]
fn paddle_miss_reports_loss_and_keeps_velocity() {
    // Tentative cell (10, bottom - 1) with the paddle on {3..7}: lost.
    let pad = paddle(vec![3, 4, 5, 6, 7]);
    let mut obs = Obstacle { body: vec![] };
    let mut proj = Projectile::new(9, 15, 1, 1, boundary());
    let (lost, destroyed) = proj.fly_projectile(&pad, &mut obs);
    assert!(lost);
    assert!(!destroyed);
    assert_eq!(proj.velocity.y, 1);
    assert_eq!(proj.velocity.x, 1);
    assert_eq!((proj.position.x, proj.position.y), (10, 16));
}

#[test]
fn left_wall_reflects_horizontal_velocity() {
    let pad = paddle(vec![8, 9, 10, 11, 12]);
    let mut obs = Obstacle { body: vec![] };
    let mut proj = Projectile::new(1, 8, -1, 1, boundary());
    let (lost, _) = proj.fly_projectile(&pad, &mut obs);
    assert!(!lost);
    assert_eq!(proj.velocity.x, 1);
    assert_eq!((proj.position.x, proj.position.y), (2, 9));
}

#[test]
fn right_wall_reflects_horizontal_velocity() {
    let pad = paddle(vec![8, 9, 10, 11, 12]);
    let mut obs = Obstacle { body: vec![] };
    let mut proj = Projectile::new(19, 8, 1, 1, boundary());
    let (lost, _) = proj.fly_projectile(&pad, &mut obs);
    assert!(!lost);
    assert_eq!(proj.velocity.x, -1);
    assert_eq!((proj.position.x, proj.position.y), (18, 9));
}

#[test]
fn top_wall_reflects_vertical_velocity() {
    let pad = paddle(vec![8, 9, 10, 11, 12]);
    let mut obs = Obstacle { body: vec![] };
    let mut proj = Projectile::new(5, 3, 1, -1, boundary());
    let (lost, _) = proj.fly_projectile(&pad, &mut obs);
    assert!(!lost);
    assert_eq!(proj.velocity.y, 1);
    assert_eq!((proj.position.x, proj.position.y), (6, 4));
}

#[test]
fn destroying_a_block_removes_it_and_bounces() {
    let pad = paddle(vec![8, 9, 10, 11, 12]);
    let mut obs = Obstacle { body: vec![Point::new(6, 6)] };
    let mut proj = Projectile::new(5, 5, 1, 1, boundary());
    let (lost, destroyed) = proj.fly_projectile(&pad, &mut obs);
    assert!(!lost);
    assert!(destroyed);
    assert!(obs.body.is_empty());
    assert_eq!(proj.velocity.y, -1);
    assert_eq!((proj.position.x, proj.position.y), (6, 4));
}

#[test]
fn destroying_removes_exactly_one_matching_block() {
    let pad = paddle(vec![8, 9, 10, 11, 12]);
    let mut obs = Obstacle { body: vec![Point::new(8, 4), Point::new(6, 6), Point::new(4, 6)] };
    let mut proj = Projectile::new(5, 5, 1, 1, boundary());
    let (_, destroyed) = proj.fly_projectile(&pad, &mut obs);
    assert!(destroyed);
    assert_eq!(obs.body.len(), 2);
    assert_eq!(obs.body, vec![Point::new(8, 4), Point::new(4, 6)]);
    // The destroyed cell is gone: flying into the same cell again finds
    // nothing there.
    let mut proj2 = Projectile::new(5, 5, 1, 1, boundary());
    let (_, destroyed_again) = proj2.fly_projectile(&pad, &mut obs);
    assert!(!destroyed_again);
    assert_eq!(obs.body.len(), 2);
}

#[test]
fn position_stays_in_bounds_over_many_ticks() {
    let b = boundary();
    let pad = paddle(vec![8, 9, 10, 11, 12]);
    let mut obs = Obstacle { body: vec![Point::new(6, 6), Point::new(10, 4)] };
    let mut proj = Projectile::new(4, 7, 1, -1, b);
    for _ in 0..500 {
        let (lost, _) = proj.fly_projectile(&pad, &mut obs);
        assert!(proj.position.x <= 20);
        assert!((2..=17).contains(&proj.position.y));
        if lost {
            // The shell would respawn here; restart from mid-field.
            proj = Projectile::new(4, 7, 1, 1, b);
        }
    }
}
