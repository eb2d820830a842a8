use snake_game::direction::Direction;
use snake_game::food::{Food, FoodState};
use snake_game::game::{Game, GameInput};
use snake_game::snake::Snake;

fn blank_game(head: (i32, i32), dir: Direction, body: Vec<Direction>, paused: bool) -> Game {
    Game {
        snake: Snake { dir, body, pos_x: head.0, pos_y: head.1 },
        snacks: vec![],
        square_size: 40,
        game_paused: paused,
        field_width: 20,
        field_height: 20,
        level: 1,
    }
}

#[test]
fn new_game_initial_state() {
    let g = Game::new(40, (20, 20));
    assert!(g.game_paused);
    assert_eq!(g.snake.pos_x, 10);
    assert_eq!(g.snake.pos_y, 10);
    assert_eq!(g.snake.dir, Direction::Right);
    assert_eq!(g.snake.body.len(), 0);
    assert_eq!(g.snacks.len(), 0);
    assert_eq!(g.level, 0);
    assert_eq!(g.square_size, 40);
    assert_eq!(g.field_width, 20);
    assert_eq!(g.field_height, 20);
}

#[test]
fn advance_level_spawns_level_plus_one() {
    let mut g = Game::new(40, (20, 20));
    g.next_level();
    assert_eq!(g.level, 1);
    assert_eq!(g.snacks.len(), 2);
    for f in &g.snacks {
        assert!(0 <= f.pos_x && f.pos_x < 20);
        assert!(0 <= f.pos_y && f.pos_y < 20);
        assert_eq!(f.state, FoodState::Fresh);
    }
}

#[test]
fn advance_level_again_spawns_three() {
    let mut g = Game::new(40, (20, 20));
    g.next_level();
    g.next_level();
    assert_eq!(g.level, 2);
    assert_eq!(g.snacks.len(), 3);
    for f in &g.snacks {
        assert!(0 <= f.pos_x && f.pos_x < 20);
        assert!(0 <= f.pos_y && f.pos_y < 20);
        assert_eq!(f.state, FoodState::Fresh);
    }
}

#[test]
fn reverse_turn_rejected() {
    let mut g = blank_game((10, 10), Direction::Right, vec![], true);
    g.react_on(GameInput::Turn(Direction::Left));
    assert_eq!(g.snake.dir, Direction::Right);

    let mut g = blank_game((10, 10), Direction::Up, vec![], true);
    g.react_on(GameInput::Turn(Direction::Down));
    assert_eq!(g.snake.dir, Direction::Up);

    let mut g = blank_game((10, 10), Direction::Down, vec![], true);
    g.react_on(GameInput::Turn(Direction::Up));
    assert_eq!(g.snake.dir, Direction::Down);

    let mut g = blank_game((10, 10), Direction::Left, vec![], true);
    g.react_on(GameInput::Turn(Direction::Right));
    assert_eq!(g.snake.dir, Direction::Left);
}

#[test]
fn other_turns_accepted() {
    let mut g = blank_game((10, 10), Direction::Right, vec![], true);
    g.react_on(GameInput::Turn(Direction::Up));
    assert_eq!(g.snake.dir, Direction::Up);
    g.react_on(GameInput::Turn(Direction::Left));
    assert_eq!(g.snake.dir, Direction::Left);
    g.react_on(GameInput::Turn(Direction::Down));
    assert_eq!(g.snake.dir, Direction::Down);
    g.react_on(GameInput::Turn(Direction::Right));
    assert_eq!(g.snake.dir, Direction::Right);
}

#[test]
fn pause_toggles() {
    let mut g = blank_game((10, 10), Direction::Right, vec![], true);
    g.react_on(GameInput::TogglePause);
    assert!(!g.game_paused);
    g.react_on(GameInput::TogglePause);
    assert!(g.game_paused);
}

#[test]
fn unrecognized_input_ignored() {
    let mut g = blank_game((10, 10), Direction::Right, vec![Direction::Right], true);
    g.react_on(GameInput::Unrecognized);
    assert!(g.game_paused);
    assert_eq!(g.snake.dir, Direction::Right);
    assert_eq!(g.snake.body, vec![Direction::Right]);
    assert_eq!(g.snake.pos_x, 10);
    assert_eq!(g.snake.pos_y, 10);
}

#[test]
fn movement_wraps_right_edge() {
    let mut g = blank_game((19, 5), Direction::Right, vec![], false);
    g.move_snake();
    assert_eq!((g.snake.pos_x, g.snake.pos_y), (0, 5));
}

#[test]
fn movement_wraps_left_edge() {
    let mut g = blank_game((0, 5), Direction::Left, vec![], false);
    g.move_snake();
    assert_eq!((g.snake.pos_x, g.snake.pos_y), (19, 5));
}

#[test]
fn movement_wraps_top_and_bottom() {
    let mut g = blank_game((7, 0), Direction::Up, vec![], false);
    g.move_snake();
    assert_eq!((g.snake.pos_x, g.snake.pos_y), (7, 19));

    let mut g = blank_game((7, 19), Direction::Down, vec![], false);
    g.move_snake();
    assert_eq!((g.snake.pos_x, g.snake.pos_y), (7, 0));
}

#[test]
fn movement_records_heading_and_frees_tail() {
    let mut g = blank_game((5, 5), Direction::Up, vec![Direction::Right, Direction::Left], false);
    g.move_snake();
    assert_eq!((g.snake.pos_x, g.snake.pos_y), (5, 4));
    assert_eq!(g.snake.body, vec![Direction::Up, Direction::Right]);
}

#[test]
fn game_over_restocks_playable_state() {
    let mut g = blank_game(
        (3, 4),
        Direction::Down,
        vec![Direction::Down, Direction::Down, Direction::Left],
        false,
    );
    g.level = 7;
    g.snacks = vec![Food { pos_x: 1, pos_y: 1, state: FoodState::Fresh }];
    g.game_over();
    assert!(g.game_paused);
    assert_eq!((g.snake.pos_x, g.snake.pos_y), (10, 10));
    assert_eq!(g.level, 1);
    assert_eq!(g.snake.body.len(), 0);
    assert_eq!(g.snacks.len(), 2);
    for f in &g.snacks {
        assert!(0 <= f.pos_x && f.pos_x < 20);
        assert!(0 <= f.pos_y && f.pos_y < 20);
        assert_eq!(f.state, FoodState::Fresh);
    }
}

#[test]
fn startup_scenario_first_wave() {
    let mut g = Game::new(40, (20, 20));
    assert_eq!(g.level, 0);
    g.next_level();
    assert_eq!(g.level, 1);
    assert_eq!(g.snacks.len(), 2);
    for f in &g.snacks {
        assert!(0 <= f.pos_x && f.pos_x < 20);
        assert!(0 <= f.pos_y && f.pos_y < 20);
        assert_eq!(f.state, FoodState::Fresh);
    }
}

#[test]
fn closed_loop_collides_in_every_rotation() {
    let loops = [
        vec![Direction::Right, Direction::Down, Direction::Left, Direction::Up],
        vec![Direction::Down, Direction::Left, Direction::Up, Direction::Right],
        vec![Direction::Left, Direction::Up, Direction::Right, Direction::Down],
        vec![Direction::Up, Direction::Right, Direction::Down, Direction::Left],
    ];
    for body in loops {
        let g = blank_game((5, 5), Direction::Right, body, true);
        assert!(g.detects_self_collision());
    }
}

#[test]
fn closed_loop_collides_in_reflections() {
    let loops = [
        vec![Direction::Left, Direction::Down, Direction::Right, Direction::Up],
        vec![Direction::Down, Direction::Right, Direction::Up, Direction::Left],
        vec![Direction::Up, Direction::Left, Direction::Down, Direction::Right],
        vec![Direction::Right, Direction::Up, Direction::Left, Direction::Down],
    ];
    for body in loops {
        let g = blank_game((5, 5), Direction::Right, body, true);
        assert!(g.detects_self_collision());
    }
}

#[test]
fn straight_body_does_not_collide() {
    let g = blank_game(
        (5, 5),
        Direction::Right,
        vec![Direction::Right, Direction::Right, Direction::Right],
        true,
    );
    assert!(!g.detects_self_collision());
}

#[test]
fn loop_closing_at_the_tail_collides() {
    let body = vec![
        Direction::Right,
        Direction::Right,
        Direction::Down,
        Direction::Left,
        Direction::Left,
        Direction::Up,
    ];
    let g = blank_game((8, 8), Direction::Right, body, true);
    assert!(g.detects_self_collision());
}

#[test]
fn body_cells_walk_back_from_head() {
    let g = blank_game((5, 5), Direction::Right, vec![Direction::Right, Direction::Down], true);
    assert_eq!(g.body_cells(), vec![(4, 5), (4, 4)]);
}

#[test]
fn body_cells_wrap_at_edges() {
    let g = blank_game((0, 0), Direction::Right, vec![Direction::Right, Direction::Up], true);
    assert_eq!(g.body_cells(), vec![(19, 0), (19, 1)]);
}

#[test]
fn update_consumes_food_at_head_and_grows() {
    let mut g = blank_game((10, 10), Direction::Right, vec![Direction::Up], true);
    g.snacks = vec![
        Food { pos_x: 10, pos_y: 10, state: FoodState::Fresh },
        Food { pos_x: 3, pos_y: 4, state: FoodState::Fresh },
    ];
    g.update();
    assert_eq!(g.snake.body.len(), 2);
    assert_eq!(g.snacks.len(), 2);
    assert_eq!(g.snacks[0], Food { pos_x: 10, pos_y: 10, state: FoodState::Eaten });
    assert_eq!(g.snacks[1], Food { pos_x: 3, pos_y: 4, state: FoodState::Fresh });
    assert_eq!((g.snake.pos_x, g.snake.pos_y), (10, 10));
}

#[test]
fn update_purges_eaten_food() {
    let mut g = blank_game((10, 10), Direction::Right, vec![], true);
    g.snacks = vec![
        Food { pos_x: 1, pos_y: 1, state: FoodState::Eaten },
        Food { pos_x: 2, pos_y: 2, state: FoodState::Fresh },
    ];
    g.update();
    assert_eq!(g.snacks, vec![Food { pos_x: 2, pos_y: 2, state: FoodState::Fresh }]);
}

#[test]
fn update_moves_only_when_unpaused() {
    let mut g = blank_game((5, 5), Direction::Right, vec![], false);
    g.snacks = vec![Food { pos_x: 1, pos_y: 1, state: FoodState::Fresh }];
    g.update();
    assert_eq!((g.snake.pos_x, g.snake.pos_y), (6, 5));
    assert_eq!(g.snake.body, vec![Direction::Right]);

    let mut g = blank_game((5, 5), Direction::Right, vec![], true);
    g.snacks = vec![Food { pos_x: 1, pos_y: 1, state: FoodState::Fresh }];
    g.update();
    assert_eq!((g.snake.pos_x, g.snake.pos_y), (5, 5));
    assert_eq!(g.snake.body.len(), 0);
}

#[test]
fn update_spawns_wave_when_collection_empty() {
    let mut g = blank_game((10, 10), Direction::Right, vec![], true);
    g.level = 0;
    g.update();
    assert_eq!(g.level, 1);
    assert_eq!(g.snacks.len(), 2);
    for f in &g.snacks {
        assert!(0 <= f.pos_x && f.pos_x < 20);
        assert!(0 <= f.pos_y && f.pos_y < 20);
    }
}

#[test]
fn update_resets_on_self_collision() {
    let body = vec![Direction::Right, Direction::Down, Direction::Left, Direction::Up];
    let mut g = blank_game((5, 5), Direction::Right, body, true);
    g.level = 4;
    g.snacks = vec![Food { pos_x: 1, pos_y: 1, state: FoodState::Fresh }];
    g.update();
    assert!(g.game_paused);
    assert_eq!((g.snake.pos_x, g.snake.pos_y), (10, 10));
    assert_eq!(g.level, 1);
    assert_eq!(g.snake.body.len(), 0);
    assert_eq!(g.snacks.len(), 2);
}

#[test]
fn grow_on_empty_body_inserts_heading() {
    let mut s = Snake::new((3, 3));
    s.grow();
    assert_eq!(s.body, vec![Direction::Right]);
    s.grow();
    assert_eq!(s.body, vec![Direction::Right, Direction::Right]);
}

#[test]
fn grow_duplicates_tail_heading() {
    let mut s = Snake::new((3, 3));
    s.body = vec![Direction::Up, Direction::Left];
    s.grow();
    assert_eq!(s.body, vec![Direction::Up, Direction::Left, Direction::Left]);
}

#[test]
fn set_state_marks_food() {
    let mut f = Food { pos_x: 2, pos_y: 9, state: FoodState::Fresh };
    f.set_state(FoodState::Eaten);
    assert_eq!(f, Food { pos_x: 2, pos_y: 9, state: FoodState::Eaten });
}

#[test]
fn opposite_pairs() {
    assert_eq!(Direction::Up.opposite(), Direction::Down);
    assert_eq!(Direction::Down.opposite(), Direction::Up);
    assert_eq!(Direction::Left.opposite(), Direction::Right);
    assert_eq!(Direction::Right.opposite(), Direction::Left);
}
