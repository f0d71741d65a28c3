use flappy_dragon::obstacle::{
    Obstacle, GAP_ROW_END, GAP_ROW_MIN, NARROWEST_GAP, WALL_SYMBOL, WIDEST_GAP,
};
use flappy_dragon::player::Player;
use flappy_dragon::screen::Draw;

fn wall(x: i32, y: i32) -> Draw {
    Draw::Cell { x, y, fg: (255, 0, 0), bg: (0, 0, 0), glyph: 124 }
}

#[test]
fn gap_constants() {
    assert_eq!(GAP_ROW_MIN, 10);
    assert_eq!(GAP_ROW_END, 40);
    assert_eq!(WIDEST_GAP, 20);
    assert_eq!(NARROWEST_GAP, 2);
    assert_eq!(WALL_SYMBOL, '|');
}

#[test]
fn gap_size_by_score() {
    assert_eq!(Obstacle::new(80, 0).size, 20);
    assert_eq!(Obstacle::new(80, 1).size, 19);
    assert_eq!(Obstacle::new(80, 17).size, 3);
    assert_eq!(Obstacle::new(80, 18).size, 2);
    assert_eq!(Obstacle::new(80, 19).size, 2);
    assert_eq!(Obstacle::new(80, 25).size, 2);
    assert_eq!(Obstacle::new(80, i32::MAX).size, 2);
}

#[test]
fn gap_size_at_a_negative_score() {
    assert_eq!(Obstacle::with_gap(80, 25, -5).size, 25);
    assert_eq!(Obstacle::with_gap(80, 25, 20 - i32::MAX).size, i32::MAX);
}

#[test]
fn new_obstacle_stands_where_it_is_put() {
    assert_eq!(Obstacle::new(80, 0).x, 80);
    assert_eq!(Obstacle::new(-7, 3).x, -7);
    assert_eq!(Obstacle::new(i32::MAX, 3).x, i32::MAX);
}

#[test]
fn gap_centre_is_drawn_from_its_rows() {
    for score in 0..300 {
        let obstacle = Obstacle::new(80, score);
        assert!(obstacle.gap_y >= 10, "gap at {}", obstacle.gap_y);
        assert!(obstacle.gap_y < 40, "gap at {}", obstacle.gap_y);
    }
}

#[test]
fn gap_centre_varies() {
    let first = Obstacle::new(80, 0).gap_y;
    let mut differs = false;
    for _ in 0..300 {
        if Obstacle::new(80, 0).gap_y != first {
            differs = true;
        }
    }
    assert!(differs);
}

#[test]
fn with_gap_takes_the_centre_as_given() {
    assert_eq!(Obstacle::with_gap(80, 25, 0), Obstacle { x: 80, gap_y: 25, size: 20 });
    assert_eq!(Obstacle::with_gap(161, 10, 7), Obstacle { x: 161, gap_y: 10, size: 13 });
    assert_eq!(Obstacle::with_gap(3, -4, 40), Obstacle { x: 3, gap_y: -4, size: 2 });
}

#[test]
fn just_above_the_gap_is_a_hit() {
    let obstacle = Obstacle { x: 80, gap_y: 25, size: 20 };
    let player = Player { x: 80, y: 25 - 20 / 2 - 1, velocity: 0 };
    assert!(obstacle.hit_obstacle(&player));
}

#[test]
fn the_centre_of_the_gap_is_no_hit() {
    let obstacle = Obstacle { x: 80, gap_y: 25, size: 20 };
    assert!(!obstacle.hit_obstacle(&Player { x: 80, y: 25, velocity: 0 }));
    let narrow = Obstacle { x: 80, gap_y: 25, size: 2 };
    assert!(!narrow.hit_obstacle(&Player { x: 80, y: 25, velocity: 0 }));
}

#[test]
fn the_edges_of_the_gap() {
    let obstacle = Obstacle { x: 80, gap_y: 25, size: 20 };
    assert!(!obstacle.hit_obstacle(&Player { x: 80, y: 15, velocity: 0 }));
    assert!(obstacle.hit_obstacle(&Player { x: 80, y: 14, velocity: 0 }));
    assert!(!obstacle.hit_obstacle(&Player { x: 80, y: 35, velocity: 0 }));
    assert!(obstacle.hit_obstacle(&Player { x: 80, y: 36, velocity: 0 }));
}

#[test]
fn an_odd_gap_is_halved_downward() {
    let obstacle = Obstacle { x: 80, gap_y: 25, size: 3 };
    assert!(!obstacle.hit_obstacle(&Player { x: 80, y: 24, velocity: 0 }));
    assert!(obstacle.hit_obstacle(&Player { x: 80, y: 23, velocity: 0 }));
    assert!(!obstacle.hit_obstacle(&Player { x: 80, y: 26, velocity: 0 }));
    assert!(obstacle.hit_obstacle(&Player { x: 80, y: 27, velocity: 0 }));
}

#[test]
fn no_hit_outside_the_column_of_the_wall() {
    let obstacle = Obstacle { x: 80, gap_y: 25, size: 2 };
    assert!(!obstacle.hit_obstacle(&Player { x: 79, y: 0, velocity: 0 }));
    assert!(!obstacle.hit_obstacle(&Player { x: 81, y: 0, velocity: 0 }));
    assert!(!obstacle.hit_obstacle(&Player { x: 79, y: 49, velocity: 0 }));
    assert!(obstacle.hit_obstacle(&Player { x: 80, y: 0, velocity: 0 }));
    assert!(obstacle.hit_obstacle(&Player { x: 80, y: 49, velocity: 0 }));
}

#[test]
fn hit_at_the_ends_of_the_number_range() {
    let obstacle = Obstacle { x: 0, gap_y: i32::MAX, size: i32::MAX };
    assert!(!obstacle.hit_obstacle(&Player { x: 0, y: i32::MAX, velocity: 0 }));
    assert!(obstacle.hit_obstacle(&Player { x: 0, y: 0, velocity: 0 }));
    let low = Obstacle { x: 0, gap_y: i32::MIN, size: 2 };
    assert!(low.hit_obstacle(&Player { x: 0, y: 0, velocity: 0 }));
    assert!(!low.hit_obstacle(&Player { x: 0, y: i32::MIN, velocity: 0 }));
}

#[test]
fn the_wall_leaves_the_gap_open() {
    let obstacle = Obstacle { x: 80, gap_y: 25, size: 20 };
    let cells = obstacle.render(5);
    let mut expected = Vec::new();
    for y in 0..15 {
        expected.push(wall(75, y));
    }
    for y in 35..50 {
        expected.push(wall(75, y));
    }
    assert_eq!(cells, expected);
}

#[test]
fn the_narrowest_gap_on_the_screen() {
    let obstacle = Obstacle { x: 10, gap_y: 10, size: 2 };
    let cells = obstacle.render(10);
    assert_eq!(cells.len(), 9 + 39);
    assert_eq!(cells[0], wall(0, 0));
    assert_eq!(cells[8], wall(0, 8));
    assert_eq!(cells[9], wall(0, 11));
    assert_eq!(cells[47], wall(0, 49));
}

#[test]
fn the_wall_is_drawn_relative_to_the_dragon() {
    let obstacle = Obstacle { x: 80, gap_y: 39, size: 2 };
    assert_eq!(obstacle.render(80)[0], wall(0, 0));
    assert_eq!(obstacle.render(0)[0], wall(80, 0));
    assert_eq!(obstacle.render(81)[0], wall(-1, 0));
    assert_eq!(obstacle.render(-20)[0], wall(100, 0));
}

#[test]
fn a_gap_above_the_screen_has_no_upper_wall() {
    let obstacle = Obstacle { x: 0, gap_y: 2, size: 10 };
    let cells = obstacle.render(0);
    assert_eq!(cells.len(), 43);
    assert_eq!(cells[0], wall(0, 7));
}

#[test]
fn a_gap_below_the_screen_has_no_lower_wall() {
    let obstacle = Obstacle { x: 0, gap_y: 60, size: 4 };
    let cells = obstacle.render(0);
    assert_eq!(cells.len(), 58);
    assert_eq!(cells[57], wall(0, 57));
}
