use breakout::boundary::Boundary;
use breakout::command::Command;
use breakout::direction::Direction;
use breakout::game::{Game, Status};
use breakout::obstacle::Obstacle;
use breakout::paddle::Paddle;
use breakout::projectile::{Point, Projectile};

fn boundary() -> Boundary {
    Boundary::new(0, 20, 2, 17)
}

/// A well-formed 20 x 14 session with hand-placed parts, so the tick
/// outcome is deterministic.
fn game(paddle_cells: Vec<u32>, projectile: Projectile, blocks: Vec<Point>, lives: u8, lvl: u8) -> Game {
    let n = paddle_cells.len();
    Game {
        width: 20,
        height: 14,
        boundary: boundary(),
        paddle: Paddle { body: paddle_cells, body_length: n, boundary: boundary() },
        projectile,
        obstacle: Obstacle { body: blocks },
        score: 0,
        lives,
        lvl,
        status: Status::Running,
    }
}

#[test]
fn new_game_starts_running_with_level_1() {
    let g = Game::new(20, 14);
    assert_eq!(g.score, 0);
    assert_eq!(g.lives, 3);
    assert_eq!(g.lvl, 1);
    assert_eq!(g.status, Status::Running);
    assert_eq!(g.paddle.body, vec![8, 9, 10, 11, 12]);
    assert_eq!(g.obstacle.body.len(), 10);
    // The projectile spawn: random column inside the walls, mid-height,
    // moving down.
    assert!((1..=18).contains(&g.projectile.position.x));
    assert_eq!(g.projectile.position.y, 7);
    assert_eq!(g.projectile.velocity.y, 1);
    assert!(g.projectile.velocity.x == 1 || g.projectile.velocity.x == -1);
}

#[test]
fn move_commands_shift_the_paddle() {
    let mut g = Game::new(20, 14);
    let quit = g.apply_command(Command::Move(Direction::Left));
    assert!(!quit);
    assert_eq!(g.paddle.body, vec![7, 8, 9, 10, 11]);
    let quit = g.apply_command(Command::Move(Direction::Right));
    assert!(!quit);
    assert_eq!(g.paddle.body, vec![8, 9, 10, 11, 12]);
}

#[test]
fn quit_command_only_reports() {
    let mut g = Game::new(20, 14);
    let before = g.paddle.body.clone();
    assert!(g.apply_command(Command::Quit));
    assert_eq!(g.paddle.body, before);
    assert_eq!(g.status, Status::Running);
}

#[test]
fn destroyed_block_scores_ten() {
    let proj = Projectile::new(5, 5, 1, 1, boundary());
    let mut g = game(vec![8, 9, 10, 11, 12], proj, vec![Point::new(6, 6), Point::new(8, 4)], 3, 1);
    let (lost, destroyed) = g.tick();
    assert!(!lost);
    assert!(destroyed);
    assert_eq!(g.score, 10);
    assert_eq!(g.obstacle.body, vec![Point::new(8, 4)]);
    assert_eq!(g.lives, 3);
    assert_eq!(g.status, Status::Running);
}

#[test]
fn lost_projectile_costs_a_life_and_respawns() {
    let proj = Projectile::new(9, 15, 1, 1, boundary());
    let mut g = game(vec![3, 4, 5, 6, 7], proj, vec![Point::new(6, 6)], 2, 1);
    let (lost, destroyed) = g.tick();
    assert!(lost);
    assert!(!destroyed);
    assert_eq!(g.lives, 1);
    assert_eq!(g.status, Status::Running);
    // Respawned: random column inside the walls, mid-height, moving down.
    assert!((1..=18).contains(&g.projectile.position.x));
    assert_eq!(g.projectile.position.y, 7);
    assert_eq!(g.projectile.velocity.y, 1);
}

#[test]
fn last_life_lost_is_game_over_exactly_once() {
    let proj = Projectile::new(9, 15, 1, 1, boundary());
    let mut g = game(vec![3, 4, 5, 6, 7], proj, vec![Point::new(6, 6)], 1, 1);
    let (lost, _) = g.tick();
    assert!(lost);
    assert_eq!(g.lives, 0);
    assert_eq!(g.status, Status::GameOver);
    // Terminal: further ticks and input change nothing.
    let score = g.score;
    let pos = (g.projectile.position.x, g.projectile.position.y);
    let (lost2, destroyed2) = g.tick();
    assert!(!lost2 && !destroyed2);
    assert_eq!(g.status, Status::GameOver);
    assert_eq!(g.score, score);
    assert_eq!((g.projectile.position.x, g.projectile.position.y), pos);
    g.apply_command(Command::Move(Direction::Left));
    assert_eq!(g.paddle.body, vec![3, 4, 5, 6, 7]);
}

#[test]
fn clearing_level_1_generates_level_2() {
    let proj = Projectile::new(5, 5, 1, 1, boundary());
    let mut g = game(vec![8, 9, 10, 11, 12], proj, vec![Point::new(6, 6)], 3, 1);
    let (_, destroyed) = g.tick();
    assert!(destroyed);
    assert_eq!(g.lvl, 2);
    assert_eq!(g.score, 10);
    assert_eq!(g.obstacle.body.len(), 15);
    assert_eq!(g.status, Status::Running);
}

#[test]
fn clearing_the_last_level_is_victory_exactly_once() {
    let proj = Projectile::new(5, 5, 1, 1, boundary());
    let mut g = game(vec![8, 9, 10, 11, 12], proj, vec![Point::new(6, 6)], 3, 2);
    let (_, destroyed) = g.tick();
    assert!(destroyed);
    assert_eq!(g.status, Status::Victory);
    assert_eq!(g.score, 10);
    assert!(g.obstacle.body.is_empty());
    // Terminal: the victory state is held and the score is kept.
    let (lost2, destroyed2) = g.tick();
    assert!(!lost2 && !destroyed2);
    assert_eq!(g.status, Status::Victory);
    assert_eq!(g.score, 10);
}

#[test]
fn score_never_decreases_and_projectile_stays_in_bounds() {
    let mut g = Game::new(20, 14);
    let mut last_score = g.score;
    let mut last_lives = g.lives;
    for i in 0..1000 {
        if i % 3 == 0 {
            g.apply_command(Command::Move(Direction::Left));
        } else if i % 3 == 1 {
            g.apply_command(Command::Move(Direction::Right));
        }
        g.tick();
        assert!(g.score >= last_score);
        assert!(g.lives <= last_lives);
        assert!(g.projectile.position.x <= 20);
        assert!((2..=17).contains(&g.projectile.position.y));
        for c in &g.paddle.body {
            assert!(*c <= 20);
        }
        last_score = g.score;
        last_lives = g.lives;
        if g.status != Status::Running {
            break;
        }
    }
}
