use snake_engine::{check_food, Battlesnake, Board, Coord, Direction, MoveSet};

fn cell(x: u32, y: u32) -> Coord {
    Coord { x, y }
}

fn head_at(x: u32, y: u32) -> Battlesnake {
    Battlesnake { id: String::from("me"), body: vec![cell(x, y), cell(x, y.wrapping_sub(1))] }
}

fn with_food(food: &[(u32, u32)]) -> Board {
    Board {
        height: 11,
        width: 11,
        food: food.iter().map(|&(x, y)| cell(x, y)).collect(),
        snakes: vec![],
    }
}

fn only(d: Direction) -> MoveSet {
    let mut s = MoveSet::none();
    s.insert(d);
    s
}

#[test]
fn food_above_gives_up() {
    assert_eq!(check_food(&with_food(&[(3, 4)]), &head_at(3, 3)), only(Direction::Up));
}

#[test]
fn food_below_gives_down() {
    // The neck lies there too: the food filter does not ask.
    assert_eq!(check_food(&with_food(&[(3, 2)]), &head_at(3, 3)), only(Direction::Down));
}

#[test]
fn food_left_gives_left() {
    assert_eq!(check_food(&with_food(&[(2, 3)]), &head_at(3, 3)), only(Direction::Left));
}

#[test]
fn food_right_gives_right() {
    assert_eq!(check_food(&with_food(&[(4, 3)]), &head_at(3, 3)), only(Direction::Right));
}

#[test]
fn no_food_gives_nothing() {
    assert_eq!(check_food(&with_food(&[]), &head_at(3, 3)), MoveSet::none());
}

#[test]
fn food_all_round_gives_everything() {
    let board = with_food(&[(3, 4), (3, 2), (2, 3), (4, 3)]);
    assert_eq!(check_food(&board, &head_at(3, 3)), MoveSet::all());
}

#[test]
fn food_two_steps_away_or_diagonal_does_not_count() {
    let board = with_food(&[(3, 5), (4, 4), (2, 2), (5, 3), (3, 3)]);
    assert_eq!(check_food(&board, &head_at(3, 3)), MoveSet::none());
}

#[test]
fn food_listed_twice_counts_once() {
    let board = with_food(&[(3, 4), (3, 4), (9, 9)]);
    assert_eq!(check_food(&board, &head_at(3, 3)), only(Direction::Up));
}

#[test]
fn head_at_origin_finds_nothing_off_the_grid() {
    let board = with_food(&[(0, 0), (5, 5)]);
    let you = Battlesnake { id: String::from("me"), body: vec![cell(0, 0), cell(1, 0)] };
    assert_eq!(check_food(&board, &you), MoveSet::none());
    let fed = with_food(&[(0, 1), (1, 0)]);
    let mut expected = MoveSet::none();
    expected.insert(Direction::Up);
    expected.insert(Direction::Right);
    assert_eq!(check_food(&fed, &you), expected);
}

#[test]
fn head_at_largest_coordinates_finds_nothing_beyond() {
    let m = u32::MAX;
    let board = with_food(&[(m, m - 1), (0, m), (m, 0)]);
    let you = Battlesnake { id: String::from("me"), body: vec![cell(m, m)] };
    assert_eq!(check_food(&board, &you), only(Direction::Down));
}

#[test]
fn snake_without_head_reaches_no_food() {
    let you = Battlesnake { id: String::from("me"), body: vec![] };
    assert_eq!(check_food(&with_food(&[(0, 1), (1, 0)]), &you), MoveSet::none());
}

#[test]
fn food_filter_ignores_walls_and_snakes() {
    let you = Battlesnake { id: String::from("me"), body: vec![cell(3, 3), cell(3, 4)] };
    let board = Board {
        height: 4,
        width: 4,
        food: vec![cell(4, 3), cell(3, 4), cell(2, 3)],
        snakes: vec![Battlesnake { id: String::from("them"), body: vec![cell(2, 3)] }],
    };
    let mut expected = MoveSet::all();
    expected.remove(Direction::Down);
    assert_eq!(check_food(&board, &you), expected);
}

#[test]
fn direction_is_in_iff_its_cell_holds_food() {
    let board = with_food(&[(7, 6), (6, 7), (1, 1), (5, 6), (6, 6)]);
    let you = head_at(6, 6);
    let found = check_food(&board, &you);
    let head = you.body[0];
    for d in [Direction::Up, Direction::Down, Direction::Left, Direction::Right] {
        let reached = head.neighbor(d).unwrap();
        assert_eq!(found.contains(d), board.food.contains(&reached));
    }
    assert!(found.contains(Direction::Up));
    assert!(!found.contains(Direction::Down));
    assert!(found.contains(Direction::Left));
    assert!(found.contains(Direction::Right));
}
