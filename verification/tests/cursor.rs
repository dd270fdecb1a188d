use neovide::editor::{Cursor, CursorShape};
use neovide::redraw_scheduler::RedrawScheduler;
use neovide::renderer::cursor_renderer::{
    BlinkState, BlinkStatus, CursorFrame, CursorRenderer, COMMAND_LINE_DELAY_FRAMES,
};
use neovide::settings::Settings;

fn steady_cursor(column: u64, row: u64) -> Cursor {
    Cursor {
        position: (column, row),
        shape: CursorShape::Block,
        cell_percentage: None,
        blinkwait: None,
        blinkon: None,
        blinkoff: None,
        enabled: true,
    }
}

fn blinking_cursor(wait: u64, on: u64, off: u64) -> Cursor {
    Cursor {
        blinkwait: Some(wait),
        blinkon: Some(on),
        blinkoff: Some(off),
        ..steady_cursor(0, 0)
    }
}

fn idle_scheduler() -> RedrawScheduler {
    let mut scheduler = RedrawScheduler::new();
    assert!(scheduler.should_draw(0));
    scheduler
}

#[test]
fn phases_follow_each_other() {
    assert_eq!(BlinkState::Waiting.next_state(), BlinkState::On);
    assert_eq!(BlinkState::On.next_state(), BlinkState::Off);
    assert_eq!(BlinkState::Off.next_state(), BlinkState::On);
}

#[test]
fn cursor_waits_before_it_is_shown() {
    let mut scheduler = idle_scheduler();
    let mut status = BlinkStatus::new(0);
    let cursor = blinking_cursor(300, 400, 200);
    assert!(!status.update_status(&cursor, 1000, &mut scheduler));
    assert_eq!(scheduler.scheduled_frame(), Some(1300));
    assert!(!status.update_status(&cursor, 1299, &mut scheduler));
    assert!(status.update_status(&cursor, 1300, &mut scheduler));
}

#[test]
fn cursor_waits_long_after_the_delay_too() {
    let mut scheduler = idle_scheduler();
    let mut status = BlinkStatus::new(0);
    let cursor = blinking_cursor(300, 400, 200);
    assert!(!status.update_status(&cursor, 0, &mut scheduler));
    assert!(status.update_status(&cursor, 5000, &mut scheduler));
}

#[test]
fn blinking_goes_on_and_off() {
    let mut scheduler = idle_scheduler();
    let mut status = BlinkStatus::new(0);
    let cursor = blinking_cursor(300, 400, 200);
    assert!(!status.update_status(&cursor, 1000, &mut scheduler));
    assert!(status.update_status(&cursor, 1300, &mut scheduler));
    assert!(status.update_status(&cursor, 1699, &mut scheduler));
    assert!(!status.update_status(&cursor, 1700, &mut scheduler));
    assert!(!status.update_status(&cursor, 1899, &mut scheduler));
    assert!(status.update_status(&cursor, 1900, &mut scheduler));
    assert!(status.update_status(&cursor, 2299, &mut scheduler));
    assert!(!status.update_status(&cursor, 2300, &mut scheduler));
}

#[test]
fn wake_up_is_asked_for_after_the_delay_of_the_phase_found() {
    let cursor = blinking_cursor(300, 400, 200);
    let mut status = BlinkStatus::new(0);
    let mut scheduler = idle_scheduler();
    status.update_status(&cursor, 1000, &mut scheduler);
    assert_eq!(scheduler.scheduled_frame(), Some(1300));

    let mut scheduler = idle_scheduler();
    status.update_status(&cursor, 1100, &mut scheduler);
    assert_eq!(scheduler.scheduled_frame(), Some(1300));

    let mut scheduler = idle_scheduler();
    status.update_status(&cursor, 1350, &mut scheduler);
    assert_eq!(scheduler.scheduled_frame(), Some(1650));

    let mut scheduler = idle_scheduler();
    status.update_status(&cursor, 1400, &mut scheduler);
    assert_eq!(scheduler.scheduled_frame(), Some(1750));

    let mut scheduler = idle_scheduler();
    status.update_status(&cursor, 1750, &mut scheduler);
    assert_eq!(scheduler.scheduled_frame(), Some(2150));
}

#[test]
fn earlier_wake_up_stays_pending() {
    let cursor = blinking_cursor(300, 400, 200);
    let mut status = BlinkStatus::new(0);
    let mut scheduler = idle_scheduler();
    scheduler.schedule(50);
    status.update_status(&cursor, 1000, &mut scheduler);
    assert_eq!(scheduler.scheduled_frame(), Some(50));
}

#[test]
fn a_zero_delay_switches_blinking_off() {
    for cursor in [
        blinking_cursor(0, 400, 200),
        blinking_cursor(300, 0, 200),
        blinking_cursor(300, 400, 0),
        Cursor { blinkon: None, blinkoff: None, ..blinking_cursor(0, 1, 1) },
        Cursor { blinkwait: None, blinkon: None, ..blinking_cursor(1, 1, 0) },
    ] {
        let mut scheduler = idle_scheduler();
        let mut status = BlinkStatus::new(0);
        for now in [0, 1, 299, 300, 301, 700, 900, 1_000_000, u64::MAX] {
            assert!(status.update_status(&cursor, now, &mut scheduler));
        }
        assert_eq!(scheduler.scheduled_frame(), None);
    }
}

#[test]
fn a_cursor_without_delays_is_always_shown() {
    let mut scheduler = idle_scheduler();
    let mut status = BlinkStatus::new(0);
    let cursor = steady_cursor(1, 1);
    for now in [0, 10, 10_000] {
        assert!(status.update_status(&cursor, now, &mut scheduler));
    }
    assert_eq!(scheduler.scheduled_frame(), None);
}

#[test]
fn a_cursor_that_does_not_wait_starts_shown() {
    let mut scheduler = idle_scheduler();
    let mut status = BlinkStatus::new(0);
    let cursor = Cursor { blinkwait: None, ..blinking_cursor(1, 400, 200) };
    assert!(status.update_status(&cursor, 100, &mut scheduler));
    assert_eq!(scheduler.scheduled_frame(), Some(500));
    assert!(!status.update_status(&cursor, 500, &mut scheduler));
}

#[test]
fn a_phase_without_delay_does_not_end() {
    let mut scheduler = idle_scheduler();
    let mut status = BlinkStatus::new(0);
    let cursor = Cursor { blinkon: None, ..blinking_cursor(300, 1, 200) };
    assert!(!status.update_status(&cursor, 0, &mut scheduler));
    assert!(status.update_status(&cursor, 300, &mut scheduler));
    assert!(status.update_status(&cursor, 1_000_000, &mut scheduler));
}

#[test]
fn a_changed_cursor_starts_over() {
    let mut scheduler = idle_scheduler();
    let mut status = BlinkStatus::new(0);
    let cursor = blinking_cursor(300, 400, 200);
    assert!(!status.update_status(&cursor, 0, &mut scheduler));
    assert!(status.update_status(&cursor, 300, &mut scheduler));
    let moved = Cursor { position: (3, 4), ..cursor };
    assert!(!status.update_status(&moved, 310, &mut scheduler));
    assert!(!status.update_status(&moved, 609, &mut scheduler));
    assert!(status.update_status(&moved, 610, &mut scheduler));
    let reshaped = Cursor { shape: CursorShape::Vertical, ..moved };
    assert!(!status.update_status(&reshaped, 620, &mut scheduler));
    let covered = Cursor { cell_percentage: Some(25), ..reshaped };
    assert!(!status.update_status(&covered, 920, &mut scheduler));
    assert!(status.update_status(&covered, 1220, &mut scheduler));
}

#[test]
fn time_that_runs_backwards_changes_no_phase() {
    let mut scheduler = idle_scheduler();
    let mut status = BlinkStatus::new(0);
    let cursor = blinking_cursor(300, 400, 200);
    assert!(!status.update_status(&cursor, 1000, &mut scheduler));
    assert!(!status.update_status(&cursor, 10, &mut scheduler));
}

#[test]
fn a_wake_up_beyond_the_largest_time_is_held_to_it() {
    let mut scheduler = idle_scheduler();
    let mut status = BlinkStatus::new(0);
    let cursor = blinking_cursor(u64::MAX, 400, 200);
    assert!(!status.update_status(&cursor, 10, &mut scheduler));
    assert_eq!(scheduler.scheduled_frame(), Some(u64::MAX));
}

#[test]
fn move_onto_the_command_line_is_held_back() {
    let mut scheduler = idle_scheduler();
    let mut renderer = CursorRenderer::new(0);
    let frame = renderer.draw(&steady_cursor(3, 2), 10, 0, &mut scheduler);
    assert_eq!(frame, CursorFrame { position: (3, 2), render: true });
    let on_command_line = steady_cursor(5, 9);
    for frame_number in 1..=4 {
        let frame = renderer.draw(&on_command_line, 10, frame_number, &mut scheduler);
        assert_eq!(frame.position, (3, 2));
    }
    let frame = renderer.draw(&on_command_line, 10, 5, &mut scheduler);
    assert_eq!(frame.position, (5, 9));
    let frame = renderer.draw(&on_command_line, 10, 6, &mut scheduler);
    assert_eq!(frame.position, (5, 9));
    assert_eq!(COMMAND_LINE_DELAY_FRAMES, 5);
}

#[test]
fn held_back_move_starts_over_when_the_cursor_leaves_the_command_line() {
    let mut scheduler = idle_scheduler();
    let mut renderer = CursorRenderer::new(0);
    renderer.draw(&steady_cursor(3, 2), 10, 0, &mut scheduler);
    for _ in 0..3 {
        assert_eq!(renderer.draw(&steady_cursor(5, 9), 10, 1, &mut scheduler).position, (3, 2));
    }
    assert_eq!(renderer.draw(&steady_cursor(4, 2), 10, 2, &mut scheduler).position, (4, 2));
    for _ in 0..4 {
        assert_eq!(renderer.draw(&steady_cursor(5, 9), 10, 3, &mut scheduler).position, (4, 2));
    }
    assert_eq!(renderer.draw(&steady_cursor(5, 9), 10, 4, &mut scheduler).position, (5, 9));
}

#[test]
fn other_moves_are_taken_at_once() {
    let mut scheduler = idle_scheduler();
    let mut renderer = CursorRenderer::new(0);
    assert_eq!(renderer.draw(&steady_cursor(3, 2), 10, 0, &mut scheduler).position, (3, 2));
    assert_eq!(renderer.draw(&steady_cursor(0, 8), 10, 0, &mut scheduler).position, (0, 8));
    assert_eq!(renderer.draw(&steady_cursor(7, 0), 10, 0, &mut scheduler).position, (7, 0));
    assert_eq!(renderer.draw(&steady_cursor(7, 10), 10, 0, &mut scheduler).position, (7, 10));
    assert_eq!(renderer.draw(&steady_cursor(1, 5), 0, 0, &mut scheduler).position, (1, 5));
}

#[test]
fn moves_along_the_command_line_are_taken_at_once() {
    let mut scheduler = idle_scheduler();
    let mut renderer = CursorRenderer::new(0);
    renderer.draw(&steady_cursor(0, 2), 10, 0, &mut scheduler);
    for _ in 0..5 {
        renderer.draw(&steady_cursor(0, 9), 10, 0, &mut scheduler);
    }
    assert_eq!(renderer.draw(&steady_cursor(1, 9), 10, 0, &mut scheduler).position, (1, 9));
    assert_eq!(renderer.draw(&steady_cursor(2, 9), 10, 0, &mut scheduler).position, (2, 9));
}

#[test]
fn a_new_renderer_stands_on_the_first_row() {
    let mut scheduler = idle_scheduler();
    let mut renderer = CursorRenderer::new(0);
    assert_eq!(renderer.draw(&steady_cursor(4, 0), 1, 0, &mut scheduler).position, (4, 0));
    let mut renderer = CursorRenderer::new(0);
    assert_eq!(renderer.draw(&steady_cursor(4, 1), 2, 0, &mut scheduler).position, (0, 0));
}

#[test]
fn cursor_is_painted_when_enabled_and_shown() {
    let mut scheduler = idle_scheduler();
    let mut renderer = CursorRenderer::new(0);
    let cursor = blinking_cursor(300, 400, 200);
    assert!(!renderer.draw(&cursor, 10, 0, &mut scheduler).render);
    assert!(renderer.draw(&cursor, 10, 300, &mut scheduler).render);
    let disabled = Cursor { enabled: false, ..steady_cursor(0, 0) };
    assert!(!renderer.draw(&disabled, 10, 400, &mut scheduler).render);
    assert!(renderer.draw(&steady_cursor(0, 0), 10, 500, &mut scheduler).render);
}

#[test]
fn blinking_goes_on_while_the_cursor_is_disabled() {
    let mut scheduler = idle_scheduler();
    let mut renderer = CursorRenderer::new(0);
    let hidden = Cursor { enabled: false, ..blinking_cursor(300, 400, 200) };
    assert!(!renderer.draw(&hidden, 10, 0, &mut scheduler).render);
    assert_eq!(scheduler.scheduled_frame(), Some(300));
    assert!(!renderer.draw(&hidden, 10, 300, &mut scheduler).render);
    assert!(scheduler.should_draw(301));
    assert!(!renderer.draw(&hidden, 10, 350, &mut scheduler).render);
    assert_eq!(scheduler.scheduled_frame(), Some(700));
}

#[test]
fn frames_are_granted_while_something_moves() {
    let settings = Settings::new(vec!["neovide".to_string()]);
    let mut scheduler = idle_scheduler();
    let mut renderer = CursorRenderer::new(0);
    renderer.draw(&steady_cursor(3, 2), 10, 0, &mut scheduler);
    assert!(!renderer.keep_animating(false, &mut scheduler, &settings));
    assert_eq!(scheduler.frames_queued(), 0);
    assert!(renderer.keep_animating(true, &mut scheduler, &settings));
    assert_eq!(scheduler.frames_queued(), 1);
    assert!(scheduler.should_draw(0));
    renderer.draw(&steady_cursor(5, 9), 10, 0, &mut scheduler);
    assert!(renderer.keep_animating(false, &mut scheduler, &settings));
    assert_eq!(scheduler.frames_queued(), 1);
}

#[test]
fn a_block_on_a_wide_character_spans_two_cells() {
    let block = steady_cursor(0, 0);
    let bar = Cursor { shape: CursorShape::Vertical, ..block };
    let underline = Cursor { shape: CursorShape::Horizontal, ..block };
    assert_eq!(CursorRenderer::cell_span(&block, Some("")), 2);
    assert_eq!(CursorRenderer::cell_span(&block, Some("a")), 1);
    assert_eq!(CursorRenderer::cell_span(&block, Some(" ")), 1);
    assert_eq!(CursorRenderer::cell_span(&block, None), 1);
    assert_eq!(CursorRenderer::cell_span(&bar, Some("")), 1);
    assert_eq!(CursorRenderer::cell_span(&underline, Some("")), 1);
}

#[test]
fn cursors_are_compared_by_value() {
    let cursor = blinking_cursor(300, 400, 200);
    assert!(cursor.same_as(&blinking_cursor(300, 400, 200)));
    assert!(!cursor.same_as(&blinking_cursor(301, 400, 200)));
    assert!(!cursor.same_as(&blinking_cursor(300, 401, 200)));
    assert!(!cursor.same_as(&blinking_cursor(300, 400, 201)));
    assert!(!cursor.same_as(&Cursor { position: (0, 1), ..cursor }));
    assert!(!cursor.same_as(&Cursor { position: (1, 0), ..cursor }));
    assert!(!cursor.same_as(&Cursor { enabled: false, ..cursor }));
    assert!(!cursor.same_as(&Cursor { shape: CursorShape::Horizontal, ..cursor }));
    assert!(!cursor.same_as(&Cursor { cell_percentage: Some(0), ..cursor }));
}
