use storyboard::text::font::{load_face, FaceError};

#[test]
fn data_without_a_magic_number_is_refused() {
    assert_eq!(load_face(&[], 0).err(), Some(FaceError::UnknownMagic));
    assert_eq!(load_face(b"abcdefgh", 0).err(), Some(FaceError::UnknownMagic));
    assert_eq!(load_face(&[0, 1, 0], 0).err(), Some(FaceError::UnknownMagic));
}

#[test]
fn truncated_font_is_refused() {
    assert!(load_face(b"OTTO", 0).is_err());
    assert!(load_face(&[0, 1, 0, 0, 0, 0], 0).is_err());
}
