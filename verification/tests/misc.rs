use storyboard::batch::VertexBatch;
use storyboard::extent::ExtentStandard;
use storyboard::frame::{dirty_check, DirtyCheck, DirtySet, FrameComponentKey};
use storyboard::primitive::{PrimitiveDraw, PrimitiveType};
use storyboard::tick_task::NonThreadedTask;

#[test]
fn batch_counts_instances_and_bytes() {
    let mut batch: VertexBatch<u32, 4> = VertexBatch::new();
    assert_eq!(batch.instances(), 0);
    batch.append(&[1, 2, 3, 4]);
    batch.append(&[5, 6, 7, 8]);
    let info = batch.commit();
    assert_eq!(info.instances, 2);
    assert_eq!(info.data.len(), 2 * 4 * 4);
    assert_eq!(&info.data[0..4], &1u32.to_ne_bytes());
    batch.finish();
    assert_eq!(batch.instances(), 0);
    assert_eq!(batch.commit().data.len(), 0);
}

#[test]
fn large_batch_finishes_empty() {
    let mut batch: VertexBatch<u8, 1> = VertexBatch::new();
    for i in 0..600u32 {
        batch.append(&[i as u8]);
    }
    assert_eq!(batch.instances(), 600);
    batch.finish();
    assert_eq!(batch.instances(), 0);
    assert!(batch.commit().data.is_empty());
}

#[test]
fn ticks_run_until_interrupted() {
    let mut task = NonThreadedTask::new(0u32, |n: &mut u32| *n += 1);
    task.tick();
    task.tick();
    assert!(!task.interrupted());
    task.interrupt();
    task.tick();
    assert!(task.interrupted());
    assert_eq!(task.join(), 2);
}

#[test]
fn extent_standard_defaults_to_current() {
    assert_eq!(ExtentStandard::default(), ExtentStandard::Current);
}

#[test]
fn primitive_draw_calls() {
    assert_eq!(PrimitiveType::Triangle.draw_call(), PrimitiveDraw::Vertices(3));
    assert_eq!(PrimitiveType::Quad.draw_call(), PrimitiveDraw::Indexed(6));
}

#[test]
fn frame_key_copies_keep_id() {
    let key: FrameComponentKey<String> = FrameComponentKey::from_id(42);
    let copy = key;
    assert_eq!(copy.id(), 42);
    assert_eq!(key.clone().id(), 42);
}

#[test]
fn interrupted_task_keeps_its_item() {
    let mut task = NonThreadedTask::new(10u32, |n: &mut u32| *n *= 2);
    task.tick();
    task.interrupt();
    for _ in 0..5 {
        task.tick();
    }
    assert_eq!(task.join(), 20);
}

#[test]
fn join_gives_the_item_after_the_ticks_before_the_interrupt() {
    let mut task = NonThreadedTask::new(1u32, |n: &mut u32| *n = *n * 3 + 1);
    for _ in 0..3 {
        task.tick();
    }
    task.interrupt();
    for _ in 0..4 {
        task.tick();
    }
    assert_eq!(task.join(), 40);
}

#[test]
fn dirty_ids_are_held_once_and_taken_together() {
    let mut dirty = DirtySet::new();
    assert!(dirty.is_empty());
    dirty.insert(7);
    dirty.insert(3);
    dirty.insert(7);
    assert!(!dirty.is_empty());
    assert!(dirty.contains(7) && dirty.contains(3) && !dirty.contains(4));
    let mut taken: Vec<usize> = dirty.take().into_iter().collect();
    taken.sort();
    assert_eq!(taken, vec![3, 7]);
    assert!(dirty.is_empty());
    assert!(!dirty.contains(7));
}

#[test]
fn dirty_components_are_forgotten_removed_or_updated() {
    assert_eq!(dirty_check(false, true), DirtyCheck::Forget);
    assert_eq!(dirty_check(false, false), DirtyCheck::Forget);
    assert_eq!(dirty_check(true, true), DirtyCheck::Remove);
    assert_eq!(dirty_check(true, false), DirtyCheck::Update);
}
