use storyboard::observable::Observable;
use storyboard::render::frame::PhysicalRect;
use storyboard::render::target::{
    frame_texture_stale, set_target_size, surface_plan, target_needs_rebuild, SurfacePlan,
};
use storyboard::render::task::take_pending;
use storyboard::text::text_needs_layout;

fn rect(width: u32, height: u32) -> PhysicalRect {
    PhysicalRect { x: 0, y: 0, width, height }
}

#[test]
fn changed_configuration_configures_a_visible_surface() {
    let mut config = Observable::new(1u8);
    assert_eq!(surface_plan(&mut config, rect(800, 600)), SurfacePlan { configure: true, set_screen: true });
    assert!(!Observable::changed(&config));
    assert_eq!(surface_plan(&mut config, rect(800, 600)), SurfacePlan { configure: false, set_screen: false });
}

#[test]
fn changed_configuration_on_an_empty_screen_only_sets_the_screen() {
    let mut config = Observable::new(1u8);
    assert_eq!(surface_plan(&mut config, rect(0, 600)), SurfacePlan { configure: false, set_screen: true });
}

#[test]
fn target_is_rebuilt_on_resize_or_when_missing() {
    let mut size = Observable::new_unchanged((64u32, 64u32));
    assert!(!target_needs_rebuild(&mut size, true));
    assert!(target_needs_rebuild(&mut size, false));
    set_target_size(&mut size, 64, 64);
    assert!(!Observable::changed(&size));
    set_target_size(&mut size, 128, 64);
    assert!(Observable::changed(&size));
    assert_eq!(*size, (128, 64));
    assert!(target_needs_rebuild(&mut size, true));
    assert!(!Observable::changed(&size));
}

#[test]
fn pending_configuration_is_taken_once() {
    let mut pending = true;
    assert!(take_pending(&mut pending));
    assert!(!pending);
    assert!(!take_pending(&mut pending));
}

#[test]
fn text_is_laid_out_again_when_font_or_text_changed() {
    let mut font = Observable::new_unchanged(1u8);
    let mut text = Observable::new(String::from("a"));
    assert!(text_needs_layout(&mut font, &mut text));
    assert!(!Observable::changed(&font) && !Observable::changed(&text));
    assert!(!text_needs_layout(&mut font, &mut text));
    Observable::mark(&mut font);
    Observable::mark(&mut text);
    assert!(text_needs_layout(&mut font, &mut text));
    assert!(!Observable::changed(&text));
}

#[test]
fn frame_texture_is_remade_on_resize_or_format_change() {
    assert!(!frame_texture_stale((640, 480), (640, 480), true));
    assert!(frame_texture_stale((640, 480), (640, 481), true));
    assert!(frame_texture_stale((640, 480), (641, 480), true));
    assert!(frame_texture_stale((640, 480), (640, 480), false));
}
