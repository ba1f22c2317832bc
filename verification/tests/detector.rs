use live_vision_analyzer::text::{contains, find_first, find_last, matches_at, same_text, str_contains};
use live_vision_analyzer::yolo_detector::{count_class, count_classes, initialize_yolo, YoloDetector};

#[test]
fn test_detector_initialization() {
    let mut detector = YoloDetector::new();
    assert!(!detector.is_ready());

    detector.initialize().unwrap();
    assert!(detector.is_ready());
}

#[test]
fn initialize_yolo_loads_the_model() {
    let detector = initialize_yolo().unwrap();
    assert!(detector.is_ready());
}

#[test]
fn frame_is_refused_while_the_model_is_not_loaded() {
    let detector = YoloDetector::new();
    assert_eq!(
        detector.decode_frame("aGVsbG8="),
        Err("YOLO model not loaded".to_string())
    );
}

#[test]
fn frame_is_decoded_from_base64() {
    let detector = initialize_yolo().unwrap();
    assert_eq!(detector.decode_frame("aGVsbG8="), Ok(b"hello".to_vec()));
    assert_eq!(detector.decode_frame(""), Ok(Vec::new()));
    assert_eq!(detector.decode_frame("/9j/4A=="), Ok(vec![0xff, 0xd8, 0xff, 0xe0]));
}

#[test]
fn frame_that_is_no_base64_is_refused_with_the_cause() {
    let detector = initialize_yolo().unwrap();
    assert_eq!(
        detector.decode_frame("not base64!"),
        Err("Failed to decode image: Invalid symbol 32, offset 3.".to_string())
    );
}

#[test]
fn bytes_are_found_where_they_stand() {
    assert!(matches_at(b"hello world", b"world", 6));
    assert!(!matches_at(b"hello world", b"world", 5));
    assert!(matches_at(b"abc", b"", 3));
    assert!(!matches_at(b"abc", b"", 4));
    assert!(!matches_at(b"abc", b"bcd", 1));
    assert!(!matches_at(b"ab", b"abc", 0));
    assert!(contains(b"hello world", b"o w"));
    assert!(contains(b"hello", b""));
    assert!(contains(b"", b""));
    assert!(contains(b"hello", b"hello"));
    assert!(contains(b"hello", b"llo"));
    assert!(!contains(b"hello", b"hello!"));
    assert!(!contains(b"hello", b"lol"));
    assert!(str_contains("caf\u{e9} llava:7b", "llava:"));
    assert!(!str_contains("caf\u{e9}", "e"));
}

#[test]
fn first_and_last_positions_are_found() {
    assert_eq!(find_first(b"a{b{c}d}e", b'{'), Some(1));
    assert_eq!(find_last(b"a{b{c}d}e", b'}'), Some(7));
    assert_eq!(find_first(b"abc", b'{'), None);
    assert_eq!(find_last(b"abc", b'}'), None);
    assert_eq!(find_first(b"", b'{'), None);
    assert_eq!(find_last(b"}", b'}'), Some(0));
}

#[test]
fn texts_are_compared_as_a_whole() {
    assert!(same_text("queue", "queue"));
    assert!(!same_text("queue", "queues"));
    assert!(!same_text("queue", "Queue"));
    assert!(same_text("", ""));
}

fn classes(names: &[&str]) -> Vec<String> {
    names.iter().map(|n| n.to_string()).collect()
}

#[test]
fn people_are_counted_by_their_class() {
    let detected = classes(&["person", "backpack", "person", "handbag", "person"]);
    assert_eq!(count_class(&detected, "person"), 3);
    assert_eq!(count_class(&detected, "backpack"), 1);
    assert_eq!(count_class(&detected, "chair"), 0);
    assert_eq!(count_class(&detected, "Person"), 0);
    assert_eq!(count_class(&Vec::new(), "person"), 0);
}

#[test]
fn classes_are_counted_once_each() {
    let detected = classes(&["person", "backpack", "person", "handbag", "person", "backpack"]);
    let counts = count_classes(&detected);
    let mut pairs: Vec<(&str, usize)> =
        counts.iter().map(|c| (c.class_name.as_str(), c.count)).collect();
    pairs.sort();
    assert_eq!(pairs, vec![("backpack", 2), ("handbag", 1), ("person", 3)]);
    assert!(count_classes(&Vec::new()).is_empty());
}
