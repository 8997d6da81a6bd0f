use conway_asm_fun::Conway;

fn board_with(live: &[usize]) -> Vec<u8> {
    let mut b = vec![0u8; 64];
    for &i in live {
        b[i] = 1;
    }
    b
}

#[test]
fn under_pop_it_dies_1() {
    let board = board_with(&[0]);

    let result = Conway::next_cell_at_index(&board, 0);

    assert_eq!(result, 0);
}

#[test]
fn under_pop_it_dies_2() {
    let board = board_with(&[7 * 8]);

    let result = Conway::next_cell_at_index(&board, 7 * 8);

    assert_eq!(result, 0);
}

#[test]
fn board_constants() {
    assert_eq!(Conway::BOARD_WIDTH, 8);
    assert_eq!(Conway::BOARD_SIZE, 64);
    assert_eq!(Conway::BOARD_SIZE, Conway::BOARD_WIDTH * Conway::BOARD_WIDTH);
}

#[test]
fn solitary_cell_dies_naive() {
    let board = board_with(&[0]);
    assert_eq!(Conway::next_cell_at_index_naive(&board, 0), 0);
}

#[test]
fn corner_cell_with_no_neighbors_dies() {
    let board = board_with(&[63]);
    assert_eq!(Conway::next_cell_at_index(&board, 63), 0);
    assert_eq!(Conway::next_cell_at_index_naive(&board, 63), 0);
}

#[test]
fn edge_neighbors_do_not_wrap() {
    // Live cells at the right edge of rows 0 and 1: under column wraparound
    // the corner cell at index 0 would see two neighbors and survive; with
    // dead boundaries it sees none and dies.
    let board = board_with(&[0, 7, 15]);
    assert_eq!(Conway::next_cell_at_index(&board, 0), 0);
    assert_eq!(Conway::next_cell_at_index_naive(&board, 0), 0);
    // The edge cells themselves see only their one in-row neighbor pair.
    assert_eq!(Conway::next_cell_at_index(&board, 7), 0);
}

#[test]
fn survival_with_two_neighbors() {
    let board = board_with(&[8, 9, 10]);
    assert_eq!(Conway::next_cell_at_index(&board, 9), 1);
    assert_eq!(Conway::next_cell_at_index_naive(&board, 9), 1);
}

#[test]
fn survival_with_three_neighbors() {
    let board = board_with(&[1, 8, 9, 10]);
    assert_eq!(Conway::next_cell_at_index(&board, 9), 1);
    assert_eq!(Conway::next_cell_at_index_naive(&board, 9), 1);
}

#[test]
fn birth_with_three_neighbors() {
    let board = board_with(&[1, 8, 10]);
    assert_eq!(Conway::next_cell_at_index(&board, 9), 1);
    assert_eq!(Conway::next_cell_at_index_naive(&board, 9), 1);
}

#[test]
fn dead_cell_with_two_neighbors_stays_dead() {
    let board = board_with(&[8, 10]);
    assert_eq!(Conway::next_cell_at_index(&board, 9), 0);
}

#[test]
fn overpopulation_dies() {
    let board = board_with(&[0, 1, 2, 8, 9, 10, 16, 17, 18]);
    assert_eq!(Conway::next_cell_at_index(&board, 9), 0);
    assert_eq!(Conway::next_cell_at_index_naive(&board, 9), 0);
}

#[test]
fn overpopulation_with_four_neighbors_dies() {
    let board = board_with(&[0, 1, 2, 8, 9]);
    assert_eq!(Conway::next_cell_at_index(&board, 9), 0);
}

#[test]
fn kernels_agree_on_pseudorandom_boards() {
    let mut state: u64 = 0x9e3779b97f4a7c15;
    for _ in 0..50 {
        let mut board = vec![0u8; 64];
        for cell in board.iter_mut() {
            state = state
                .wrapping_mul(6364136223846793005)
                .wrapping_add(1442695040888963407);
            *cell = ((state >> 33) & 1) as u8;
        }
        for index in 0..64 {
            assert_eq!(
                Conway::next_cell_at_index(&board, index),
                Conway::next_cell_at_index_naive(&board, index),
            );
        }
    }
}

#[test]
fn kernels_agree_on_full_board() {
    let board = vec![1u8; 64];
    for index in 0..64 {
        assert_eq!(
            Conway::next_cell_at_index(&board, index),
            Conway::next_cell_at_index_naive(&board, index),
        );
    }
}

fn seed_from(live: &[usize]) -> Vec<bool> {
    let mut s = vec![false; 64];
    for &i in live {
        s[i] = true;
    }
    s
}

#[test]
fn new_seeds_first_board() {
    let conway = Conway::new(seed_from(&[3, 9, 40]));
    let current = conway.current();
    for i in 0..64 {
        let expected = if i == 3 || i == 9 || i == 40 { 1 } else { 0 };
        assert_eq!(current[i], expected);
    }
}

#[test]
fn blinker_oscillates() {
    let mut conway = Conway::new(seed_from(&[8, 9, 10]));
    conway.next();
    assert_eq!(conway.current(), &board_with(&[1, 9, 17]));
    conway.next();
    assert_eq!(conway.current(), &board_with(&[8, 9, 10]));
}

#[test]
fn advance_matches_scalar_kernel() {
    let mut conway = Conway::new(seed_from(&[0, 1, 8, 27, 28, 29, 35, 36, 63]));
    let before = conway.current().clone();
    conway.next();
    let after = conway.current();
    for index in 0..64 {
        assert_eq!(after[index], Conway::next_cell_at_index_naive(&before, index));
    }
}

#[test]
fn published_generation_is_not_mutated() {
    let mut conway = Conway::new(seed_from(&[8, 9, 10]));
    conway.next();
    let published = conway.current().clone();
    // Reads between advances leave the published generation as it was.
    let _ = conway.render();
    assert_eq!(conway.current(), &published);
    conway.next();
    // The next generation is computed from the published one, untouched.
    let again = conway.current();
    for index in 0..64 {
        assert_eq!(again[index], Conway::next_cell_at_index_naive(&published, index));
    }
}

#[test]
fn render_draws_glyph_rows() {
    let conway = Conway::new(seed_from(&[0, 9, 18, 27, 36, 45, 54, 63]));
    let expected = "X_______\n_X______\n__X_____\n___X____\n____X___\n_____X__\n______X_\n_______X\n";
    assert_eq!(conway.render(), expected);
}

#[test]
fn render_after_advance_shows_new_generation() {
    let mut conway = Conway::new(seed_from(&[8, 9, 10]));
    conway.next();
    let expected = "_X______\n_X______\n_X______\n________\n________\n________\n________\n________\n";
    assert_eq!(conway.render(), expected);
}
