use unheic::images::{ImageLoadingState, InputImageState};
use unheic::raster::RgbaImage;

fn heic_header() -> Vec<u8> {
    let mut header = vec![0, 0, 0, 24];
    header.extend_from_slice(b"ftypheic");
    header.extend_from_slice(&[0, 0, 0, 0]);
    header.extend_from_slice(b"mif1heic");
    header
}

fn png_header() -> Vec<u8> {
    vec![137, 80, 78, 71, 13, 10, 26, 10, 0, 0, 0, 13, 73, 72, 68, 82]
}

#[test]
fn adding_the_same_path_twice_lists_it_once() {
    let mut list = InputImageState::new();
    assert!(list.add("/p/a.heic".to_string(), Some("a.heic"), &heic_header()));
    assert!(!list.add("/p/a.heic".to_string(), Some("a.heic"), &heic_header()));
    assert_eq!(list.len(), 1);
    assert_eq!(list.total_count(), 1);
    assert_eq!(list.paths(), vec!["/p/a.heic".to_string()]);
}

#[test]
fn content_that_is_not_heic_is_not_added() {
    let mut list = InputImageState::default();
    assert!(!list.add("/p/a.heic".to_string(), Some("a.heic"), &png_header()));
    assert!(!list.add("/p/b.heic".to_string(), Some("b.heic"), &[]));
    assert!(!list.add("/p/c.heic".to_string(), Some("c.heic"), b"....ftypmif1"));
    assert_eq!(list.len(), 0);
    let mut heix = vec![0, 0, 0, 24];
    heix.extend_from_slice(b"ftypheix");
    assert!(list.add("/p/d.heic".to_string(), Some("d.heic"), &heix));
    assert_eq!(list.len(), 1);
}

#[test]
fn images_are_listed_in_the_order_in_which_they_were_added() {
    let mut list = InputImageState::new();
    for name in ["c", "a", "b"] {
        let file = format!("{name}.1.heic");
        assert!(list.add_sniffed(format!("/in/{file}"), Some(&file), true));
    }
    assert!(!list.add_sniffed("/in/x.heic".to_string(), Some("x.heic"), false));
    assert!(!list.add_sniffed("/in/a.1.heic".to_string(), None, true));
    assert_eq!(list.len(), 3);
    assert_eq!(list.paths(), vec!["/in/c.1.heic", "/in/a.1.heic", "/in/b.1.heic"]);
    let second = list.get_index(1).unwrap();
    assert_eq!(second.path, "/in/a.1.heic");
    assert_eq!(second.name, "a");
    assert!(matches!(second.state, ImageLoadingState::NotStarted));
    assert!(list.get_index(3).is_none());
    assert!(list.contains("/in/b.1.heic"));
    assert!(!list.contains("/in/x.heic"));
}

#[test]
fn image_without_file_name_gets_the_placeholder() {
    let mut list = InputImageState::new();
    assert!(list.add_sniffed("/".to_string(), None, true));
    assert_eq!(list.get_index(0).unwrap().name, "Kein Dateiname");
}

#[test]
fn removal_keeps_the_order_of_the_rest() {
    let mut list = InputImageState::new();
    for name in ["one", "two", "three", "four"] {
        list.add_sniffed(name.to_string(), Some(name), true);
    }
    let removed = list.remove_index(1).unwrap();
    assert_eq!(removed.path, "two");
    assert_eq!(list.paths(), vec!["one", "three", "four"]);
    assert_eq!(list.total_count(), 3);
    assert!(list.remove_index(3).is_none());
    assert_eq!(list.len(), 3);
    assert_eq!(list.remove_index(2).unwrap().path, "four");
    assert_eq!(list.remove_index(0).unwrap().path, "one");
    assert_eq!(list.paths(), vec!["three"]);
    assert!(list.add_sniffed("two".to_string(), Some("two"), true));
    assert_eq!(list.paths(), vec!["three", "two"]);
}

#[test]
fn preview_states_follow_the_decoding() {
    let mut list = InputImageState::new();
    list.add_sniffed("a".to_string(), Some("a"), true);
    list.add_sniffed("b".to_string(), Some("b"), true);
    assert!(list.begin_thumbnail("b"));
    assert!(matches!(list.get_index(0).unwrap().state, ImageLoadingState::NotStarted));
    assert!(matches!(list.get_index(1).unwrap().state, ImageLoadingState::InProgress));
    let preview = RgbaImage::from_raw(1, 1, vec![1, 2, 3, 4]).unwrap();
    assert!(list.finish_thumbnail("b", Ok(preview)));
    match &list.get_index(1).unwrap().state {
        ImageLoadingState::Done(preview) => assert_eq!(preview.as_raw(), &vec![1, 2, 3, 4]),
        other => panic!("not done: {other:?}"),
    }
    assert!(list.begin_thumbnail("a"));
    assert!(list.finish_thumbnail("a", Err("no primary image".to_string())));
    match &list.get_index(0).unwrap().state {
        ImageLoadingState::Failure(message) => assert_eq!(message, "no primary image"),
        other => panic!("not failed: {other:?}"),
    }
    assert_eq!(list.get_index(0).unwrap().name, "a");
    assert_eq!(list.paths(), vec!["a", "b"]);
}

#[test]
fn removing_an_image_while_its_preview_is_decoded_drops_the_outcome() {
    let mut list = InputImageState::new();
    list.add_sniffed("keep".to_string(), Some("keep"), true);
    list.add_sniffed("gone".to_string(), Some("gone"), true);
    assert!(list.begin_thumbnail("gone"));
    list.remove_index(1);
    let preview = RgbaImage::from_raw(1, 1, vec![0, 0, 0, 0]).unwrap();
    assert!(!list.finish_thumbnail("gone", Ok(preview)));
    assert!(!list.finish_thumbnail("gone", Err("late".to_string())));
    assert!(!list.begin_thumbnail("gone"));
    assert_eq!(list.paths(), vec!["keep"]);
    assert!(matches!(list.get_index(0).unwrap().state, ImageLoadingState::NotStarted));
}

#[test]
fn total_count_is_the_length_in_16_bits() {
    let mut list = InputImageState::new();
    assert_eq!(list.total_count(), 0);
    for i in 0..300u32 {
        list.add_sniffed(format!("{i}"), None, true);
    }
    assert_eq!(list.len(), 300);
    assert_eq!(list.total_count(), 300);
}
