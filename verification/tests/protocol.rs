use life_wgpu::frame::UPDATE_INTERVAL_MS;
use life_wgpu::frame::present_action;
use life_wgpu::frame::tick_due;
use life_wgpu::BufferId;
use life_wgpu::PresentAction;
use life_wgpu::PresentError;
use life_wgpu::Session;

#[test]
fn render_reads_computes_write_target_over_steps() {
    // Trace steps 0..4: the buffer bound at render time must match the
    // compute write target of the same frame and alternate B, A, B, A.
    let mut s = Session::new(4, 4, 100, 100);
    let expected = [BufferId::B, BufferId::A, BufferId::B, BufferId::A];
    for e in expected {
        let plan = s.render_frame();
        assert_eq!(plan.render_read, plan.compute.write);
        assert_eq!(plan.render_read, e);
        assert_ne!(plan.compute.read, plan.compute.write);
    }
}

#[test]
fn compute_roles_alternate_by_parity() {
    let mut s = Session::new(4, 4, 100, 100);
    let p0 = s.render_frame();
    assert_eq!(p0.compute.read, BufferId::A);
    assert_eq!(p0.compute.write, BufferId::B);
    let p1 = s.render_frame();
    assert_eq!(p1.compute.read, BufferId::B);
    assert_eq!(p1.compute.write, BufferId::A);
    // What step 1 reads is what step 0 wrote.
    assert_eq!(p1.compute.read, p0.compute.write);
}

#[test]
fn step_counter_counts_advances() {
    let mut s = Session::new(4, 4, 100, 100);
    assert_eq!(s.step, 0);
    for _ in 0..5 {
        s.render_frame();
    }
    assert_eq!(s.step, 5);
}

#[test]
fn reset_zeroes_step_and_next_write_target() {
    let mut s = Session::new(4, 4, 100, 100);
    for _ in 0..3 {
        s.render_frame();
    }
    assert_eq!(s.step, 3);
    s.reset();
    assert_eq!(s.step, 0);
    // Buffer B is the write target of step 0 and must be all dead.
    let b = s.store.cells(BufferId::B);
    assert_eq!(b.len(), 16);
    assert!(b.iter().all(|&c| c == 0));
    // Buffer A holds the fresh random state: one boolean per cell.
    let a = s.store.cells(BufferId::A);
    assert_eq!(a.len(), 16);
    assert!(a.iter().all(|&c| c == 0 || c == 1));
}

#[test]
fn new_session_starts_at_step_zero_with_dead_b() {
    let s = Session::new(8, 8, 640, 480);
    assert_eq!(s.step, 0);
    assert_eq!(s.surface_width, 640);
    assert_eq!(s.surface_height, 480);
    let a = s.store.cells(BufferId::A);
    assert_eq!(a.len(), 64);
    assert!(a.iter().all(|&c| c == 0 || c == 1));
    let b = s.store.cells(BufferId::B);
    assert_eq!(b.len(), 64);
    assert!(b.iter().all(|&c| c == 0));
}

#[test]
fn new_session_clamps_zero_surface_dimensions() {
    let s = Session::new(4, 4, 0, 0);
    assert_eq!(s.surface_width, 1);
    assert_eq!(s.surface_height, 1);
}

#[test]
fn resize_to_nonzero_updates_surface_and_requests_redraw() {
    let mut s = Session::new(4, 4, 800, 600);
    let redraw = s.resize(1024, 768);
    assert!(redraw);
    assert_eq!(s.surface_width, 1024);
    assert_eq!(s.surface_height, 768);
    assert_eq!(s.step, 0);
}

#[test]
fn resize_to_zero_dimension_is_a_no_op() {
    let mut s = Session::new(4, 4, 800, 600);
    assert!(!s.resize(0, 768));
    assert!(!s.resize(1024, 0));
    assert!(!s.resize(0, 0));
    assert_eq!(s.surface_width, 800);
    assert_eq!(s.surface_height, 600);
}

#[test]
fn present_error_policy() {
    assert_eq!(present_action(PresentError::Lost), PresentAction::Reconfigure);
    assert_eq!(present_action(PresentError::OutOfMemory), PresentAction::Exit);
    assert_eq!(present_action(PresentError::Outdated), PresentAction::SkipFrame);
    assert_eq!(present_action(PresentError::Timeout), PresentAction::SkipFrame);
}

#[test]
fn tick_due_at_update_interval() {
    assert!(!tick_due(0));
    assert!(!tick_due(UPDATE_INTERVAL_MS - 1));
    assert!(tick_due(UPDATE_INTERVAL_MS));
    assert!(tick_due(UPDATE_INTERVAL_MS + 1));
}

#[test]
fn frame_plan_covers_grid_and_draws_every_cell() {
    let mut s = Session::new(64, 64, 100, 100);
    let plan = s.render_frame();
    assert_eq!(plan.workgroups_x, 8);
    assert_eq!(plan.workgroups_y, 8);
    assert_eq!(plan.vertex_count, 6);
    assert_eq!(plan.instance_count, 64 * 64);

    // A grid that is no multiple of the workgroup side rounds up.
    let mut t = Session::new(65, 3, 100, 100);
    let plan = t.render_frame();
    assert_eq!(plan.workgroups_x, 9);
    assert_eq!(plan.workgroups_y, 1);
    assert_eq!(plan.instance_count, 195);
}
