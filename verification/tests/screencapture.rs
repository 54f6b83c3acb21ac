use hotcap::screencapture::{capture_screen, collect_captures, Image};

fn frame(width: u32, height: u32, byte: u8) -> Image {
    let data = vec![byte; (4 * width * height) as usize];
    Image::new(width, height, data).unwrap()
}

#[test]
fn image_new_accepts_matching_buffer() {
    let img = Image::new(2, 3, vec![7u8; 24]).unwrap();
    assert_eq!(img.width, 2);
    assert_eq!(img.height, 3);
    assert_eq!(img.data, vec![7u8; 24]);
}

#[test]
fn image_new_refuses_wrong_length() {
    assert!(Image::new(2, 3, vec![7u8; 23]).is_none());
    assert!(Image::new(2, 3, vec![7u8; 25]).is_none());
    assert!(Image::new(1, 1, vec![]).is_none());
}

#[test]
fn three_monitors_two_captures() {
    let outcomes = vec![Some(frame(2, 2, 1)), None, Some(frame(1, 1, 2))];
    let batch = capture_screen(Some(outcomes)).unwrap();
    assert_eq!(batch.len(), 2);
    assert_eq!(batch[0], frame(2, 2, 1));
    assert_eq!(batch[1], frame(1, 1, 2));
}

#[test]
fn enumeration_failure_gives_absent() {
    assert!(capture_screen(None).is_none());
}

#[test]
fn no_monitors_gives_absent() {
    assert!(capture_screen(Some(vec![])).is_none());
}

#[test]
fn all_captures_failed_gives_absent() {
    let outcomes: Vec<Option<Image>> = vec![None, None, None];
    assert!(capture_screen(Some(outcomes)).is_none());
}

#[test]
fn collect_keeps_order_of_successes() {
    let outcomes = vec![None, Some(frame(1, 1, 9)), Some(frame(1, 2, 8)), None, Some(frame(2, 1, 7))];
    let batch = collect_captures(outcomes).unwrap();
    assert_eq!(batch.len(), 3);
    assert_eq!(batch[0], frame(1, 1, 9));
    assert_eq!(batch[1], frame(1, 2, 8));
    assert_eq!(batch[2], frame(2, 1, 7));
}

#[test]
fn collect_never_returns_empty_batch() {
    assert!(collect_captures(vec![]).is_none());
    assert!(collect_captures(vec![None]).is_none());
}
