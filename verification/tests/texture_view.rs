use storyboard::render::frame::PhysicalRect;
use storyboard::texture::view::{SizedTexture2D, SizedTextureView2D, TextureView2D, WriteRegion};

fn rect(x: u32, y: u32, width: u32, height: u32) -> PhysicalRect {
    PhysicalRect { x, y, width, height }
}

#[test]
fn whole_view_shows_the_whole_texture() {
    let view: TextureView2D<&str> = SizedTextureView2D::from_view("tex", 256, 128).into();
    assert_eq!(view.origin(), (0, 0));
    assert_eq!(view.size(), (256, 128));
    assert_eq!(view.rect(), rect(0, 0, 256, 128));
    assert_eq!(*view.inner().inner(), "tex");
}

#[test]
fn slicing_a_whole_view_shows_the_part() {
    let view = SizedTextureView2D::from_view(7u8, 256, 128).slice(rect(16, 32, 64, 8));
    assert!(matches!(view, TextureView2D::Partial(_)));
    assert_eq!(view.origin(), (16, 32));
    assert_eq!(view.size(), (64, 8));
    assert_eq!(view.inner().size(), (256, 128));
    let again = TextureView2D::All(SizedTextureView2D::from_view(7u8, 256, 128)).slice(rect(1, 2, 3, 4));
    assert_eq!(again.rect(), rect(1, 2, 3, 4));
}

#[test]
fn slicing_a_partial_view_shows_the_inner_rect() {
    let view = SizedTextureView2D::from_view((), 64, 64).slice(rect(8, 8, 16, 16));
    let sliced = view.slice(rect(2, 3, 4, 5));
    assert_eq!(sliced.rect(), rect(2, 3, 4, 5));
    assert_eq!(sliced.inner().size(), (64, 64));
}

#[test]
fn write_layout_of_a_rect_and_of_the_whole_texture() {
    let texture = SizedTexture2D::from_texture("t", 4u32, 100, 50);
    assert_eq!(texture.size(), (100, 50));
    assert_eq!(texture.format(), 4);
    assert_eq!(
        texture.write_layout(Some(rect(10, 20, 30, 40)), 4),
        WriteRegion { x: 10, y: 20, width: 30, height: 40, bytes_per_row: Some(120), rows_per_image: Some(40) }
    );
    assert_eq!(
        texture.write_layout(None, 1),
        WriteRegion { x: 0, y: 0, width: 100, height: 50, bytes_per_row: Some(100), rows_per_image: Some(50) }
    );
    assert_eq!(
        texture.write_layout(Some(rect(0, 0, 0, 0)), 4),
        WriteRegion { x: 0, y: 0, width: 0, height: 0, bytes_per_row: None, rows_per_image: None }
    );
    assert_eq!(texture.into_inner(), "t");
}

#[test]
fn primitives_without_texture_use_the_empty_one() {
    let resources = storyboard::texture::EmptyTextureResources { empty_texture: "white" };
    let own = "brick";
    assert_eq!(*resources.texture_for(Some(&own)), "brick");
    assert_eq!(*resources.texture_for(None), "white");
}
