use snake_engine::{remove_suicide, Battlesnake, Board, Coord, Direction, MoveSet};

fn at(x: u32, y: u32) -> Coord {
    Coord { x, y }
}

fn snake(id: &str, cells: &[(u32, u32)]) -> Battlesnake {
    Battlesnake { id: String::from(id), body: cells.iter().map(|&(x, y)| at(x, y)).collect() }
}

fn board_of(width: u32, height: u32, snakes: Vec<Battlesnake>) -> Board {
    Board { height, width, food: vec![], snakes }
}

fn set_of(members: &[Direction]) -> MoveSet {
    let mut s = MoveSet::none();
    for &d in members {
        s.insert(d);
    }
    s
}

#[test]
fn neck_below_rules_out_down() {
    let you = snake("me", &[(3, 3), (3, 2)]);
    let board = board_of(11, 11, vec![you.clone()]);
    let safe = remove_suicide(&board, &you);
    assert!(!safe.contains(Direction::Down));
    assert_eq!(safe, set_of(&[Direction::Up, Direction::Left, Direction::Right]));
}

#[test]
fn neck_above_rules_out_up() {
    let you = snake("me", &[(3, 3), (3, 4)]);
    let board = board_of(11, 11, vec![you.clone()]);
    assert_eq!(
        remove_suicide(&board, &you),
        set_of(&[Direction::Down, Direction::Left, Direction::Right])
    );
}

#[test]
fn neck_left_rules_out_left() {
    let you = snake("me", &[(3, 3), (2, 3)]);
    let board = board_of(11, 11, vec![you.clone()]);
    assert_eq!(
        remove_suicide(&board, &you),
        set_of(&[Direction::Up, Direction::Down, Direction::Right])
    );
}

#[test]
fn neck_right_rules_out_right() {
    let you = snake("me", &[(3, 3), (4, 3)]);
    let board = board_of(11, 11, vec![you.clone()]);
    assert_eq!(
        remove_suicide(&board, &you),
        set_of(&[Direction::Up, Direction::Down, Direction::Left])
    );
}

#[test]
fn left_edge_rules_out_left() {
    let you = snake("me", &[(0, 5), (1, 5)]);
    let board = board_of(11, 11, vec![you.clone()]);
    let safe = remove_suicide(&board, &you);
    assert!(!safe.contains(Direction::Left));
    assert_eq!(safe, set_of(&[Direction::Up, Direction::Down]));
}

#[test]
fn right_edge_rules_out_right() {
    let you = snake("me", &[(10, 5), (9, 5)]);
    let board = board_of(11, 11, vec![you.clone()]);
    assert_eq!(remove_suicide(&board, &you), set_of(&[Direction::Up, Direction::Down]));
}

#[test]
fn bottom_edge_rules_out_down() {
    let you = snake("me", &[(5, 0), (5, 1)]);
    let board = board_of(11, 11, vec![you.clone()]);
    assert_eq!(remove_suicide(&board, &you), set_of(&[Direction::Left, Direction::Right]));
}

#[test]
fn top_edge_rules_out_up() {
    let you = snake("me", &[(5, 10), (5, 9)]);
    let board = board_of(11, 11, vec![you.clone()]);
    assert_eq!(remove_suicide(&board, &you), set_of(&[Direction::Left, Direction::Right]));
}

#[test]
fn corner_leaves_one_move() {
    let you = snake("me", &[(0, 0), (1, 0)]);
    let board = board_of(11, 11, vec![you.clone()]);
    assert_eq!(remove_suicide(&board, &you), set_of(&[Direction::Up]));
}

#[test]
fn edges_follow_width_and_height_separately() {
    let you = snake("me", &[(6, 2), (5, 2)]);
    let board = board_of(7, 20, vec![you.clone()]);
    assert_eq!(remove_suicide(&board, &you), set_of(&[Direction::Up, Direction::Down]));
    let tall = snake("me", &[(2, 6), (2, 5)]);
    let wide = board_of(20, 7, vec![tall.clone()]);
    assert_eq!(remove_suicide(&wide, &tall), set_of(&[Direction::Left, Direction::Right]));
}

#[test]
fn neck_and_opponent_leave_up_and_left() {
    let you = snake("me", &[(3, 3), (3, 2), (3, 1)]);
    let other = snake("them", &[(4, 3)]);
    let board = board_of(11, 11, vec![you.clone(), other]);
    assert_eq!(remove_suicide(&board, &you), set_of(&[Direction::Up, Direction::Left]));
}

#[test]
fn own_body_blocks_moves() {
    // The body curls round the head: up and left are taken by it.
    let you = snake("me", &[(3, 3), (3, 2), (2, 2), (2, 3), (2, 4), (3, 4)]);
    let board = board_of(11, 11, vec![you.clone()]);
    assert_eq!(remove_suicide(&board, &you), set_of(&[Direction::Right]));
}

#[test]
fn own_tail_counts_as_taken() {
    let you = snake("me", &[(3, 3), (3, 2), (4, 2), (4, 3)]);
    let board = board_of(11, 11, vec![you.clone()]);
    let safe = remove_suicide(&board, &you);
    assert!(!safe.contains(Direction::Right));
    assert_eq!(safe, set_of(&[Direction::Up, Direction::Left]));
}

#[test]
fn every_segment_of_an_opponent_blocks() {
    let you = snake("me", &[(5, 5), (5, 4)]);
    let other = snake("them", &[(9, 9), (4, 5), (8, 8), (5, 6)]);
    let board = board_of(11, 11, vec![you.clone(), other]);
    assert_eq!(remove_suicide(&board, &you), set_of(&[Direction::Right]));
}

#[test]
fn several_opponents_all_count() {
    let you = snake("me", &[(5, 5), (5, 4)]);
    let a = snake("a", &[(4, 5)]);
    let b = snake("b", &[(6, 5)]);
    let c = snake("c", &[(0, 0), (0, 1)]);
    let board = board_of(11, 11, vec![a, you.clone(), b, c]);
    assert_eq!(remove_suicide(&board, &you), set_of(&[Direction::Up]));
}

#[test]
fn snake_with_own_id_on_board_is_not_an_opponent() {
    let you = snake("me", &[(5, 5), (5, 4)]);
    // Same id, other cells: the board's entry for one's own id is skipped.
    let stale = snake("me", &[(4, 5), (6, 5), (5, 6)]);
    let board = board_of(11, 11, vec![stale]);
    assert_eq!(
        remove_suicide(&board, &you),
        set_of(&[Direction::Up, Direction::Left, Direction::Right])
    );
}

#[test]
fn boxed_in_snake_has_no_safe_move() {
    let you = snake("me", &[(0, 0), (1, 0)]);
    let other = snake("them", &[(0, 1), (0, 2)]);
    let board = board_of(11, 11, vec![you.clone(), other]);
    let safe = remove_suicide(&board, &you);
    assert!(safe.is_empty());
    assert_eq!(safe, MoveSet::none());
}

#[test]
fn single_cell_board_has_no_safe_move() {
    let you = snake("me", &[(0, 0)]);
    let board = board_of(1, 1, vec![you.clone()]);
    assert_eq!(remove_suicide(&board, &you), MoveSet::none());
}

#[test]
fn snake_without_neck_keeps_all_moves_in_the_open() {
    let you = snake("me", &[(5, 5)]);
    let board = board_of(11, 11, vec![you.clone()]);
    assert_eq!(remove_suicide(&board, &you), MoveSet::all());
}

#[test]
fn neck_under_head_removes_nothing() {
    let you = snake("me", &[(5, 5), (5, 5), (5, 5)]);
    let board = board_of(11, 11, vec![you.clone()]);
    assert_eq!(remove_suicide(&board, &you), MoveSet::all());
}

#[test]
fn snake_without_head_has_no_safe_move() {
    let you = snake("me", &[]);
    let board = board_of(11, 11, vec![snake("them", &[(1, 1)])]);
    assert_eq!(remove_suicide(&board, &you), MoveSet::none());
}

#[test]
fn distant_neck_goes_by_x_before_y() {
    // Neck up and to the left, not next to the head: x decides.
    let you = snake("me", &[(5, 5), (2, 9)]);
    let board = board_of(11, 11, vec![you.clone()]);
    assert_eq!(
        remove_suicide(&board, &you),
        set_of(&[Direction::Up, Direction::Down, Direction::Right])
    );
    let other = snake("me", &[(5, 5), (5, 9)]);
    assert_eq!(
        remove_suicide(&board, &other),
        set_of(&[Direction::Down, Direction::Left, Direction::Right])
    );
}

#[test]
fn board_without_cells_is_handled() {
    let you = snake("me", &[(0, 0), (0, 1)]);
    let board = board_of(0, 0, vec![you.clone()]);
    // Left and down are at the zero edge, up is the neck; no edge is at -1.
    assert_eq!(remove_suicide(&board, &you), set_of(&[Direction::Right]));
}

#[test]
fn largest_coordinates_do_not_overflow() {
    let m = u32::MAX;
    let you = snake("me", &[(m, m), (m, m - 1)]);
    let other = snake("them", &[(m - 1, m), (0, 0)]);
    let board = board_of(m, m, vec![you.clone(), other]);
    // The head stands beyond the last column and row, so no edge is met.
    assert_eq!(remove_suicide(&board, &you), set_of(&[Direction::Up, Direction::Right]));
}

#[test]
fn head_beyond_the_edge_meets_no_edge() {
    let you = snake("me", &[(20, 20), (20, 19)]);
    let board = board_of(11, 11, vec![you.clone()]);
    assert_eq!(
        remove_suicide(&board, &you),
        set_of(&[Direction::Up, Direction::Left, Direction::Right])
    );
}

#[test]
fn safe_moves_never_land_on_a_snake() {
    let you = snake("me", &[(4, 4), (4, 3), (3, 3), (3, 4)]);
    let other = snake("them", &[(5, 4), (5, 5), (4, 5)]);
    let third = snake("third", &[(9, 9)]);
    let board = board_of(11, 11, vec![you.clone(), other, third]);
    let safe = remove_suicide(&board, &you);
    let head = you.body[0];
    for d in safe.to_vec() {
        let next = head.neighbor(d).unwrap();
        assert!(!you.body.contains(&next));
        for s in board.snakes.iter().filter(|s| s.id != you.id) {
            assert!(!s.body.contains(&next));
        }
    }
    assert_eq!(safe, MoveSet::none());
}

#[test]
fn inputs_are_left_as_they_were() {
    let you = snake("me", &[(3, 3), (3, 2), (3, 1)]);
    let board = Board {
        height: 11,
        width: 11,
        food: vec![at(3, 4)],
        snakes: vec![you.clone(), snake("them", &[(4, 3)])],
    };
    let (board_before, you_before) = (board.clone(), you.clone());
    let first = remove_suicide(&board, &you);
    let second = remove_suicide(&board, &you);
    assert_eq!(first, second);
    assert_eq!(board, board_before);
    assert_eq!(you, you_before);
}
