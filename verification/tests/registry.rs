use desktop_pet::registry::{is_known_animation, known_meta, list_animations, png_dimensions, SheetFile};
use desktop_pet::types::{AppErrorCode, LoopMode};

fn header(w: u32, h: u32) -> Vec<u8> {
    let mut v = vec![0x89, b'P', b'N', b'G', 0x0d, 0x0a, 0x1a, 0x0a, 0, 0, 0, 13, b'I', b'H', b'D', b'R'];
    v.extend_from_slice(&w.to_be_bytes());
    v.extend_from_slice(&h.to_be_bytes());
    v
}

fn sheet(name: &str, w: u32, h: u32) -> SheetFile {
    SheetFile { name: name.to_string(), header: header(w, h) }
}

#[test]
fn png_header_dimensions() {
    assert_eq!(png_dimensions(&header(1920, 128)), Some((1920, 128)));
    assert_eq!(png_dimensions(&header(u32::MAX, 1)), Some((u32::MAX, 1)));
    assert_eq!(png_dimensions(&header(0x01020304, 0xa0b0c0d0)), Some((0x01020304, 0xa0b0c0d0)));
    assert_eq!(png_dimensions(&header(5, 5)[..23]), None);
    let mut bad = header(5, 5);
    bad[1] = b'X';
    assert_eq!(png_dimensions(&bad), None);
    let mut no_ihdr = header(5, 5);
    no_ihdr[15] = b'X';
    assert_eq!(png_dimensions(&no_ihdr), None);
    assert_eq!(png_dimensions(&[]), None);
}

#[test]
fn meta_of_known_animations() {
    assert_eq!(known_meta("poop"), Some((25, LoopMode::Once)));
    assert_eq!(known_meta("think"), Some((25, LoopMode::Infinite)));
    assert_eq!(known_meta("touch_nose"), Some((25, LoopMode::Infinite)));
    assert_eq!(known_meta("shush"), Some((50, LoopMode::Once)));
    assert_eq!(known_meta("thumbs_up"), Some((20, LoopMode::Once)));
    assert_eq!(known_meta("peek"), Some((20, LoopMode::Infinite)));
    for id in ["nervous", "sleep", "knead", "heartbeat", "cloud"] {
        assert_eq!(known_meta(id), Some((25, LoopMode::Infinite)));
    }
    assert_eq!(known_meta("dance"), None);
    assert_eq!(known_meta("Poop"), None);
}

#[test]
fn listing_sorted_with_frames() {
    let files = vec![
        sheet("think_sheet.png", 1280, 128),
        SheetFile { name: "notes.txt".to_string(), header: header(1, 1) },
        sheet("poop_sheet.png", 500, 100),
        sheet("broken_sheet.png", 0, 100),
        SheetFile { name: "short_sheet.png".to_string(), header: vec![0x89, b'P'] },
        sheet("touch_nose_sheet.png", 100, 200),
    ];
    let list = list_animations(&files).unwrap();
    let ids: Vec<&str> = list.iter().map(|e| e.id.as_str()).collect();
    assert_eq!(ids, vec!["poop", "think", "touch_nose"]);
    assert_eq!(list[0].sheet_path, "/sprites/poop_sheet.png");
    assert_eq!(list[0].frame_count, 5);
    assert_eq!(list[0].frame_width, 100);
    assert_eq!(list[0].frame_height, 100);
    assert_eq!(list[0].loop_mode, LoopMode::Once);
    assert_eq!(list[1].frame_count, 10);
    assert_eq!(list[2].frame_count, 0);
    assert_eq!(list[2].fps, 25);
}

#[test]
fn listing_orders_by_code_point() {
    let files = vec![
        sheet("touch_nose_sheet.png", 1, 1),
        sheet("think_sheet.png", 1, 1),
        sheet("B_sheet.png", 1, 1),
        sheet("thumbs_up_sheet.png", 1, 1),
        sheet("cloud_sheet.png", 1, 1),
        sheet("shush_sheet.png", 1, 1),
        sheet("é_sheet.png", 1, 1),
        sheet("knead_sheet.png", 1, 1),
        sheet("heartbeat_sheet.png", 1, 1),
    ];
    let list = list_animations(&files).unwrap();
    let ids: Vec<String> = list.iter().map(|e| e.id.clone()).collect();
    let mut expected = ids.clone();
    expected.sort();
    assert_eq!(ids, expected);
    assert_eq!(ids, vec!["cloud", "heartbeat", "knead", "shush", "think", "thumbs_up", "touch_nose"]);
}

#[test]
fn duplicate_ids_are_refused() {
    let files = vec![sheet("think_sheet.png", 1, 1), sheet("think_sheet.png_sheet.png", 2, 1)];
    match list_animations(&files) {
        Err(e) => {
            assert_eq!(e.code, AppErrorCode::EInternal);
            assert_eq!(e.message, "duplicate animation id: think");
        }
        Ok(_) => panic!("duplicate accepted"),
    }
    // A skipped file does not count as the first one of its id.
    let files = vec![sheet("think_sheet.png", 0, 1), sheet("think_sheet.png", 3, 1)];
    assert_eq!(list_animations(&files).unwrap().len(), 1);
    // Nor does a sheet without a registration.
    let files = vec![sheet("dance_sheet.png", 1, 1), sheet("dance_sheet.png", 1, 1)];
    assert!(list_animations(&files).unwrap().is_empty());
}

#[test]
fn unregistered_sheets_are_left_out() {
    let files = vec![sheet("unknown_sheet.png", 256, 128), sheet("peek_sheet.png", 640, 128)];
    let list = list_animations(&files).unwrap();
    assert_eq!(list.len(), 1);
    assert_eq!(list[0].id, "peek");
    assert_eq!(list[0].fps, 20);
    assert_eq!(list[0].loop_mode, LoopMode::Infinite);
    assert_eq!(list[0].frame_count, 5);
}

#[test]
fn known_animation_lookup() {
    let list = list_animations(&[sheet("think_sheet.png", 10, 10)]).unwrap();
    assert!(is_known_animation(&list, "think"));
    assert!(!is_known_animation(&list, "poop"));
    assert!(!is_known_animation(&[], "think"));
    assert!(list_animations(&[]).unwrap().is_empty());
}
