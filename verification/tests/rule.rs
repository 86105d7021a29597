use life_wgpu::life::next_grid;
use life_wgpu::BufferId;
use life_wgpu::GridStore;
use life_wgpu::Role;
use life_wgpu::Session;

fn grid_4x4(live: &[(u32, u32)]) -> Vec<u32> {
    let mut g = vec![0u32; 16];
    for &(x, y) in live {
        g[(y * 4 + x) as usize] = 1;
    }
    g
}

#[test]
fn one_dispatch_writes_rule_applied_once_into_b() {
    // Grid 4x4 at step 0: read=A holds a vertical blinker in column 1,
    // everything else dead. After one compute dispatch, buffer B must hold
    // the rule applied once: the horizontal blinker in row 1.
    let a = grid_4x4(&[(1, 0), (1, 1), (1, 2)]);
    let b = vec![0u32; 16];
    let mut store = GridStore::new(4, 4, a.clone(), b);
    store.apply_step(Role { read: BufferId::A, write: BufferId::B });
    let expected = grid_4x4(&[(0, 1), (1, 1), (2, 1)]);
    assert_eq!(store.cells(BufferId::B), &expected);
    // The read buffer is untouched.
    assert_eq!(store.cells(BufferId::A), &a);
}

#[test]
fn block_is_a_still_life() {
    let a = grid_4x4(&[(0, 0), (1, 0), (0, 1), (1, 1)]);
    let next = next_grid(&a, 4, 4);
    assert_eq!(next, a);
}

#[test]
fn lone_cell_dies_and_empty_grid_stays_empty() {
    let lone = grid_4x4(&[(2, 2)]);
    assert_eq!(next_grid(&lone, 4, 4), vec![0u32; 16]);
    assert_eq!(next_grid(&vec![0u32; 16], 4, 4), vec![0u32; 16]);
}

#[test]
fn birth_on_exactly_three_neighbors() {
    // Three live cells in an L; the corner between them is born, on a
    // bounded grid the border contributes nothing.
    let a = grid_4x4(&[(0, 0), (1, 0), (0, 1)]);
    let next = next_grid(&a, 4, 4);
    let expected = grid_4x4(&[(0, 0), (1, 0), (0, 1), (1, 1)]);
    assert_eq!(next, expected);
}

#[test]
fn rectangular_grid_steps_row_major() {
    // A 3x2 grid: a row of three live cells along y=0; the middle cell of
    // each row has the column neighbors, so the middle column survives and
    // is born below.
    let mut a = vec![0u32; 6];
    a[0] = 1; // (0, 0)
    a[1] = 1; // (1, 0)
    a[2] = 1; // (2, 0)
    let next = next_grid(&a, 3, 2);
    let mut expected = vec![0u32; 6];
    expected[1] = 1; // (1, 0) survives with two neighbors
    expected[4] = 1; // (1, 1) born with three neighbors
    assert_eq!(next, expected);
}

#[test]
fn consecutive_frames_ping_pong_the_rule() {
    // Drive two frames through the session: after frame one, B holds the
    // rule applied once to A; after frame two, A holds it applied twice.
    let mut s = Session::new(4, 4, 100, 100);
    let blinker = grid_4x4(&[(1, 0), (1, 1), (1, 2)]);
    s.store.write_cells(BufferId::A, blinker.clone());
    let once = next_grid(&blinker, 4, 4);
    let twice = next_grid(&once, 4, 4);

    let p0 = s.render_frame();
    assert_eq!(p0.render_read, BufferId::B);
    assert_eq!(s.store.cells(BufferId::B), &once);

    let p1 = s.render_frame();
    assert_eq!(p1.render_read, BufferId::A);
    assert_eq!(s.store.cells(BufferId::A), &twice);
    // A blinker has period two.
    assert_eq!(s.store.cells(BufferId::A), &blinker);
}

#[test]
fn random_fill_is_boolean_per_cell() {
    let cells = life_wgpu::random::random_cells(16, 16);
    assert_eq!(cells.len(), 256);
    assert!(cells.iter().all(|&c| c == 0 || c == 1));
}
