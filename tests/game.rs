use rustycubes::{
    can_fall, can_move, color_for_kind, Block, Direction, Grid, GridCell, GridPosition, Piece,
    PieceKind, PixelRect, Rgb, State, BOARD_COLUMNS, BOARD_ROWS, MILLIS_PER_UPDATE, SPAWN_X,
    SPAWN_Y,
};

const ALL_KINDS: [PieceKind; 7] = [
    PieceKind::I,
    PieceKind::J,
    PieceKind::L,
    PieceKind::O,
    PieceKind::S,
    PieceKind::T,
    PieceKind::Z,
];

fn active_offsets(p: &Piece) -> Vec<(i16, i16)> {
    let mut out = Vec::new();
    for i in 0..4 {
        for j in 0..4 {
            if p.blocks[i][j].active {
                out.push((p.blocks[i][j].offset.x, p.blocks[i][j].offset.y));
            }
        }
    }
    out.sort();
    out
}

fn occupied_cells(g: &Grid) -> Vec<(i16, i16)> {
    let mut out = Vec::new();
    for x in 0..BOARD_COLUMNS as usize {
        for y in 0..BOARD_ROWS as usize {
            if g.cells[x][y].occupied {
                out.push((x as i16, y as i16));
            }
        }
    }
    out
}

fn sorted(mut v: Vec<(i16, i16)>) -> Vec<(i16, i16)> {
    v.sort();
    v
}

#[test]
fn spawn_has_catalog_cells_active() {
    let expected: [Vec<(i16, i16)>; 7] = [
        vec![(0, 0), (1, 0), (2, 0), (3, 0)],
        vec![(0, 0), (0, 1), (1, 1), (2, 1)],
        vec![(2, 0), (0, 1), (1, 1), (2, 1)],
        vec![(0, 0), (0, 1), (1, 0), (1, 1)],
        vec![(1, 0), (2, 0), (0, 1), (1, 1)],
        vec![(1, 0), (0, 1), (1, 1), (2, 1)],
        vec![(0, 0), (1, 0), (1, 1), (2, 1)],
    ];
    for (kind, cells) in ALL_KINDS.iter().zip(expected.iter()) {
        let p = Piece::new(SPAWN_X, SPAWN_Y, *kind);
        assert_eq!(p.position, GridPosition::new(4, 0));
        assert!(p.active);
        let active = active_offsets(&p);
        assert_eq!(active.len(), 4);
        assert_eq!(active, sorted(cells.clone()));
        for i in 0..4 {
            for j in 0..4 {
                let b = p.blocks[i][j];
                assert_eq!(b.active, b.render);
                assert_eq!(b.offset, GridPosition::new(i as i16, j as i16));
                assert_eq!(b.kind, *kind);
            }
        }
    }
}

#[test]
fn positions_follow_anchor_after_moves() {
    let mut p = Piece::new(SPAWN_X, SPAWN_Y, PieceKind::T);
    p.move_right();
    p.move_down();
    p.move_down();
    p.move_left();
    p.move_left();
    p.update_fast();
    assert_eq!(p.position, GridPosition::new(3, 2));
    for i in 0..4 {
        for j in 0..4 {
            let b = p.blocks[i][j];
            assert_eq!(b.position.x, p.position.x + b.offset.x);
            assert_eq!(b.position.y, p.position.y + b.offset.y);
        }
    }
}

#[test]
fn can_move_right_against_wall() {
    let grid = Grid::new();
    // An I piece spanning columns 6..=9 touches the right wall.
    let p = Piece::new(6, 0, PieceKind::I);
    assert!(!can_move(&p, &grid, Direction::Right));
    assert!(can_move(&p, &grid, Direction::Left));
    let q = Piece::new(5, 0, PieceKind::I);
    assert!(can_move(&q, &grid, Direction::Right));
}

#[test]
fn can_move_blocked_by_locked_block() {
    let mut grid = Grid::new();
    grid.place(&Block::new(6, 1, PieceKind::Z));
    let p = Piece::new(4, 0, PieceKind::O);
    assert!(!can_move(&p, &grid, Direction::Right));
    assert!(can_move(&p, &grid, Direction::Left));
    // One row lower the O piece has the locked block to its right only in its top row.
    let mut grid2 = Grid::new();
    grid2.place(&Block::new(3, 0, PieceKind::Z));
    assert!(!can_move(&p, &grid2, Direction::Left));
    assert!(can_move(&p, &grid2, Direction::Right));
}

#[test]
fn can_move_left_at_column_zero() {
    let grid = Grid::new();
    let p = Piece::new(0, 5, PieceKind::L);
    assert!(!can_move(&p, &grid, Direction::Left));
    assert!(can_move(&p, &grid, Direction::Right));
}

#[test]
fn i_piece_falls_nineteen_times_then_stops() {
    let grid = Grid::new();
    let mut p = Piece::new(SPAWN_X, SPAWN_Y, PieceKind::I);
    for _ in 0..19 {
        assert!(can_fall(&p, &grid));
        p.move_down();
    }
    assert_eq!(p.position.y, 19);
    assert!(!can_fall(&p, &grid));
}

#[test]
fn can_fall_blocked_directly_below() {
    let mut grid = Grid::new();
    grid.place(&Block::new(5, 3, PieceKind::S));
    let mut p = Piece::new(4, 0, PieceKind::O);
    assert!(can_fall(&p, &grid));
    p.move_down();
    assert!(!can_fall(&p, &grid));
}

#[test]
fn lock_twice_keeps_the_same_board() {
    let mut grid = Grid::new();
    let mut p = Piece::new(2, 10, PieceKind::S);
    p.lock_into(&mut grid);
    assert!(!p.active);
    let once: Vec<Vec<GridCell>> = grid.cells.clone();
    p.lock_into(&mut grid);
    assert_eq!(grid.cells, once);
    assert_eq!(
        occupied_cells(&grid),
        sorted(vec![(3, 10), (4, 10), (2, 11), (3, 11)])
    );
    let cell = grid.cells[3][10];
    assert_eq!(cell.position, GridPosition::new(3, 10));
    let b = cell.block.unwrap();
    assert!(!b.active);
    assert!(b.render);
    assert_eq!(b.kind, PieceKind::S);
    assert_eq!(b.position, GridPosition::new(3, 10));
}

#[test]
fn scenario_o_piece_locks_at_bottom() {
    let mut state = State::with_kind(PieceKind::O);
    assert_eq!(state.piece.position, GridPosition::new(4, 0));
    for _ in 0..18 {
        state.gravity_tick(PieceKind::T);
    }
    assert_eq!(state.piece.position, GridPosition::new(4, 18));
    assert!(occupied_cells(&state.grid).is_empty());
    state.gravity_tick(PieceKind::T);
    // The O piece locked; a new piece was spawned at the spawn anchor.
    assert_eq!(occupied_cells(&state.grid), vec![(4, 18), (4, 19), (5, 18), (5, 19)]);
    assert_eq!(state.piece.position, GridPosition::new(4, 0));
    assert_eq!(state.piece.kind, PieceKind::T);
    assert!(state.piece.active);
    state.gravity_tick(PieceKind::T);
    assert_eq!(occupied_cells(&state.grid), vec![(4, 18), (4, 19), (5, 18), (5, 19)]);
    assert_eq!(state.piece.position, GridPosition::new(4, 1));
}

#[test]
fn scenario_move_left_stops_at_wall() {
    let mut state = State::with_kind(PieceKind::J);
    for _ in 0..10 {
        state.move_piece(Direction::Left);
    }
    assert_eq!(state.piece.position, GridPosition::new(0, 0));
    assert!(!can_move(&state.piece, &state.grid, Direction::Left));
    for i in 0..4 {
        for j in 0..4 {
            let b = state.piece.blocks[i][j];
            if b.active {
                assert!(b.position.x >= 0);
            }
        }
    }
}

#[test]
fn scenario_second_piece_lands_on_first() {
    let mut state = State::with_kind(PieceKind::O);
    let mut ticks = 0;
    while occupied_cells(&state.grid).is_empty() {
        state.gravity_tick(PieceKind::O);
        ticks += 1;
    }
    assert_eq!(ticks, 19);
    while occupied_cells(&state.grid).len() == 4 {
        state.gravity_tick(PieceKind::O);
    }
    assert_eq!(
        occupied_cells(&state.grid),
        vec![(4, 16), (4, 17), (4, 18), (4, 19), (5, 16), (5, 17), (5, 18), (5, 19)]
    );
}

#[test]
fn move_right_blocked_keeps_position() {
    let mut state = State::with_kind(PieceKind::I);
    for _ in 0..10 {
        state.move_piece(Direction::Right);
    }
    assert_eq!(state.piece.position, GridPosition::new(6, 0));
}

#[test]
fn update_waits_for_a_full_interval() {
    let mut state = State::with_kind(PieceKind::Z);
    state.update(100);
    assert_eq!(state.elapsed_ms, 100);
    assert_eq!(state.piece.position, GridPosition::new(4, 0));
    state.update(MILLIS_PER_UPDATE - 100);
    assert_eq!(state.elapsed_ms, 0);
    assert_eq!(state.piece.position, GridPosition::new(4, 1));
    state.update(u64::MAX);
    assert_eq!(state.elapsed_ms, 0);
    assert_eq!(state.piece.position, GridPosition::new(4, 2));
}

#[test]
fn random_kinds_vary() {
    let mut seen = Vec::new();
    for _ in 0..500 {
        let k = PieceKind::random();
        if !seen.contains(&k) {
            seen.push(k);
        }
    }
    assert!(seen.len() >= 2);
    let p = Piece::new_random();
    assert_eq!(p.position, GridPosition::new(4, 0));
    let s = State::new();
    assert!(s.piece.active);
    assert!(occupied_cells(&s.grid).is_empty());
}

#[test]
fn kinds_by_index() {
    for (i, k) in ALL_KINDS.iter().enumerate() {
        assert_eq!(PieceKind::from_index(i as u8), *k);
    }
}

#[test]
fn occupies_matches_catalog() {
    assert!(PieceKind::L.occupies(2, 0));
    assert!(!PieceKind::L.occupies(0, 0));
    assert!(PieceKind::I.occupies(3, 0));
    assert!(!PieceKind::I.occupies(0, 1));
    assert!(!PieceKind::O.occupies(2, 0));
    assert!(PieceKind::Z.occupies(2, 1));
    assert!(!PieceKind::S.occupies(-1, 0));
}

#[test]
fn colors_per_kind() {
    assert_eq!(
        color_for_kind(PieceKind::I),
        (Rgb { r: 25, g: 175, b: 215 }, Rgb { r: 50, g: 200, b: 240 })
    );
    assert_eq!(
        color_for_kind(PieceKind::O),
        (Rgb { r: 230, g: 195, b: 0 }, Rgb { r: 255, g: 232, b: 25 })
    );
    assert_eq!(
        color_for_kind(PieceKind::Z),
        (Rgb { r: 215, g: 20, b: 25 }, Rgb { r: 255, g: 65, b: 70 })
    );
}

#[test]
fn cell_rect_and_inner() {
    let r = GridPosition::new(2, 3).cell_rect();
    assert_eq!(r, PixelRect { x: 2 * 36 + 251, y: 3 * 36 + 81, w: 36, h: 36 });
    assert_eq!(r.inner(), PixelRect { x: r.x + 2, y: r.y + 2, w: 31, h: 31 });
}

#[test]
fn new_grid_is_empty_and_positioned() {
    let g = Grid::new();
    assert_eq!(g.cells.len(), 10);
    for x in 0..10 {
        assert_eq!(g.cells[x].len(), 20);
        for y in 0..20 {
            assert_eq!(g.cells[x][y].position, GridPosition::new(x as i16, y as i16));
            assert!(!g.cells[x][y].occupied);
            assert!(g.cells[x][y].block.is_none());
            assert!(!g.is_occupied(GridPosition::new(x as i16, y as i16)));
        }
    }
}

#[test]
fn block_helpers() {
    let mut b = Block::empty(PieceKind::T);
    assert_eq!(b.position, GridPosition::new(0, 0));
    assert!(!b.active && !b.render);
    b.set_offset(2, 1);
    assert_eq!(b.offset, GridPosition::new(2, 1));
    b.update(GridPosition::new(5, 7));
    assert_eq!(b.position, GridPosition::new(7, 8));
    b.active_and_render();
    assert!(b.active && b.render);
    b.set_inactive();
    assert!(!b.active && b.render);
    let mut c = GridCell::new();
    c.set_position(3, 4);
    c.set_block(&Block::new(3, 4, PieceKind::J));
    assert!(c.occupied);
    assert_eq!(c.block.unwrap().position, GridPosition::new(3, 4));
}
