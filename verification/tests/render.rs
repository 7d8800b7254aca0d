use storyboard::buffer::{index_buffer_size, index_bytes};
use storyboard::extent::ExtentStandard;
use storyboard::render::frame::{FramePlan, PhysicalRect, ScreenTracker};
use storyboard::render::queue::{ComponentQueue, DrawQueue};
use storyboard::render::task::{frame_work, interrupt_before_switch, must_switch, FrameWork};

fn rect(x: u32, y: u32, width: u32, height: u32) -> PhysicalRect {
    PhysicalRect { x, y, width, height }
}

#[test]
fn nothing_to_draw_skips_the_frame() {
    let mut tracker = ScreenTracker::new();
    let skip = FramePlan { draw: false, update_matrix: false, resize_depth: false };
    assert_eq!(tracker.begin_frame(rect(0, 0, 800, 600), 0), skip);
    assert_eq!(tracker.begin_frame(rect(0, 0, 0, 600), 3), skip);
    assert_eq!(tracker.begin_frame(rect(5, 5, 800, 0), 3), skip);
    assert_eq!(tracker.current_rect(), PhysicalRect::zero());
}

#[test]
fn screen_changes_rebuild_what_depends_on_them() {
    let mut tracker = ScreenTracker::new();
    let first = tracker.begin_frame(rect(0, 0, 800, 600), 1);
    assert_eq!(first, FramePlan { draw: true, update_matrix: true, resize_depth: true });
    let same = tracker.begin_frame(rect(0, 0, 800, 600), 2);
    assert_eq!(same, FramePlan { draw: true, update_matrix: false, resize_depth: false });
    let moved = tracker.begin_frame(rect(10, 20, 800, 600), 2);
    assert_eq!(moved, FramePlan { draw: true, update_matrix: true, resize_depth: false });
    let resized = tracker.begin_frame(rect(10, 20, 1024, 600), 2);
    assert_eq!(resized, FramePlan { draw: true, update_matrix: true, resize_depth: true });
    assert_eq!(tracker.current_rect(), rect(10, 20, 1024, 600));
}

#[test]
fn skipped_frame_keeps_the_last_screen() {
    let mut tracker = ScreenTracker::new();
    tracker.begin_frame(rect(0, 0, 640, 480), 1);
    tracker.begin_frame(rect(0, 0, 320, 240), 0);
    assert_eq!(tracker.current_rect(), rect(0, 0, 640, 480));
    let plan = tracker.begin_frame(rect(0, 0, 640, 480), 1);
    assert!(!plan.update_matrix && !plan.resize_depth);
}

#[test]
fn area_is_width_times_height() {
    assert_eq!(rect(3, 4, 7, 9).area(), 63);
    assert_eq!(PhysicalRect::zero().area(), 0);
}

#[test]
fn drawables_are_prepared_opaque_nearest_first_then_blended_in_order() {
    let mut queue = DrawQueue::new();
    queue.append(true, "a");
    queue.append(false, "b");
    queue.append(true, "c");
    queue.append(false, "d");
    queue.append(true, "e");
    assert_eq!(queue.len(), 5);
    let order = queue.drain_back_first();
    assert_eq!(order, vec![(4, "e"), (2, "c"), (0, "a"), (1, "b"), (3, "d")]);
    assert_eq!(queue.len(), 0);
}

#[test]
fn empty_queue_drains_nothing() {
    let mut queue: DrawQueue<u8> = DrawQueue::with_capacity(8);
    assert!(queue.drain_back_first().is_empty());
}

#[test]
fn render_task_frame_work() {
    assert_eq!(frame_work(false, 3, 2), FrameWork::Idle);
    assert_eq!(frame_work(true, 3, 2), FrameWork::Render);
    assert_eq!(frame_work(true, 1, 0), FrameWork::Render);
    assert_eq!(frame_work(true, 0, 2), FrameWork::SubmitCommands);
    assert_eq!(frame_work(true, 0, 0), FrameWork::Idle);
}

#[test]
fn task_mode_switches() {
    assert!(must_switch(false, false, true));
    assert!(must_switch(false, true, false));
    assert!(!must_switch(false, true, true));
    assert!(!must_switch(true, false, true));
    assert!(interrupt_before_switch(true, false));
    assert!(!interrupt_before_switch(false, true));
    assert!(!interrupt_before_switch(true, true));
}

#[test]
fn index_buffers_are_padded_to_the_copy_alignment() {
    assert_eq!(index_buffer_size(6), (12, 12));
    assert_eq!(index_buffer_size(3), (6, 8));
    assert_eq!(index_buffer_size(0), (0, 0));
    assert_eq!(index_buffer_size(1), (2, 4));
    let bytes = index_bytes(&[0, 1, 2, 3, 0, 2]);
    assert_eq!(bytes.len(), 12);
    assert_eq!(&bytes[2..4], &1u16.to_ne_bytes());
}

#[test]
fn extent_standard_selects_its_measure() {
    assert_eq!(ExtentStandard::Root.select(1, 2, 3), 1);
    assert_eq!(ExtentStandard::Parent.select(1, 2, 3), 2);
    assert_eq!(ExtentStandard::Current.select(1, 2, 3), 3);
}

#[test]
fn components_are_drawn_opaque_last_first_then_blended_in_order() {
    let mut queue = ComponentQueue::new();
    assert!(queue.is_empty());
    queue.push_opaque(1);
    queue.push_transparent(10);
    queue.push_opaque(2);
    queue.push_transparent(20);
    queue.push_opaque(3);
    assert!(!queue.is_empty());
    let (opaque, transparent) = queue.take_render_order();
    assert_eq!(opaque, vec![3, 2, 1]);
    assert_eq!(transparent, vec![10, 20]);
    assert!(queue.is_empty());
}
