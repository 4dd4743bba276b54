//! Tests for the media library and media items.

use vxutil_core::media::{MediaItem, MediaLibrary, MediaType};
use vxutil_core::types::Duration;

#[test]
fn test_media_library_add_remove() {
    let mut library = MediaLibrary::new();

    let item = MediaItem::new("video.mp4".to_string(), MediaType::Video);
    let id = library.add_item(item.clone());

    assert_eq!(library.count(), 1);
    assert!(library.get_item(&id).is_some());

    library.remove_item(&id);
    assert_eq!(library.count(), 0);
}

#[test]
fn test_media_library_filter_by_type() {
    let mut library = MediaLibrary::new();

    library.add_item(MediaItem::new("video1.mp4".to_string(), MediaType::Video));
    library.add_item(MediaItem::new("audio1.mp3".to_string(), MediaType::Audio));
    library.add_item(MediaItem::new("video2.mov".to_string(), MediaType::Video));
    library.add_item(MediaItem::new("image1.png".to_string(), MediaType::Image));

    assert_eq!(library.video_items().len(), 2);
    assert_eq!(library.audio_items().len(), 1);
    assert_eq!(library.image_items().len(), 1);
}

#[test]
fn test_media_library_search() {
    let mut library = MediaLibrary::new();

    library.add_item(MediaItem::new("vacation_2024.mp4".to_string(), MediaType::Video));
    library.add_item(MediaItem::new("interview.mp4".to_string(), MediaType::Video));
    library.add_item(MediaItem::new("vacation_audio.mp3".to_string(), MediaType::Audio));

    let results = library.search("vacation");
    assert_eq!(results.len(), 2);
}

#[test]
fn test_media_library_search_is_case_insensitive() {
    let mut library = MediaLibrary::new();
    library.add_item(MediaItem::new("Vacation_2024.MP4".to_string(), MediaType::Video));
    library.add_item(MediaItem::new("interview.mp4".to_string(), MediaType::Video));

    // Both the names and the query are folded to lower case, so a
    // query in the opposite case still matches.
    assert_eq!(library.search("vAcAtIoN").len(), 1);
    assert_eq!(library.search("VACATION").len(), 1);
    assert_eq!(library.search("meeting").len(), 0);
}

#[test]
fn test_media_item_name_from_path() {
    let item = MediaItem::new("footage/day1/take_3.mov".to_string(), MediaType::Video);
    assert_eq!(item.name, "take_3.mov");
    assert_eq!(item.path, "footage/day1/take_3.mov");

    let plain = MediaItem::new("take_4.mov".to_string(), MediaType::Video);
    assert_eq!(plain.name, "take_4.mov");

    let trailing = MediaItem::new("footage/day1/".to_string(), MediaType::Video);
    assert_eq!(trailing.name, "Untitled");
}

#[test]
fn test_media_item_starts_unprobed() {
    let item = MediaItem::new("a.mp4".to_string(), MediaType::Video);
    assert!(item.metadata.duration.is_none());
    assert!(item.metadata.codec.is_none());
    assert_eq!(item.metadata.file_size, 0);
    assert!(item.thumbnail_path.is_none());
    assert!(item.duration_seconds().is_none());
}

#[test]
fn test_media_item_duration_seconds() {
    let mut item = MediaItem::new("a.mp4".to_string(), MediaType::Video);
    item.metadata.duration = Some(Duration::from_secs(90));
    assert_eq!(item.duration_seconds(), Some(90));
}

#[test]
fn test_media_library_replaces_same_id() {
    let mut library = MediaLibrary::new();
    let mut item = MediaItem::new("a.mp4".to_string(), MediaType::Video);
    let id = library.add_item(item.clone());

    item.name = "renamed".to_string();
    let same_id = library.add_item(item);
    assert_eq!(id, same_id);
    assert_eq!(library.count(), 1);
    assert_eq!(library.get_item(&id).unwrap().name, "renamed");
}

#[test]
fn test_media_library_get_item_mut() {
    let mut library = MediaLibrary::new();
    let id = library.add_item(MediaItem::new("a.mp4".to_string(), MediaType::Video));

    library.get_item_mut(&id).unwrap().metadata.file_size = 42;
    assert_eq!(library.get_item(&id).unwrap().metadata.file_size, 42);
}

#[test]
fn test_media_library_clear_and_items() {
    let mut library = MediaLibrary::new();
    library.add_item(MediaItem::new("a.mp4".to_string(), MediaType::Video));
    library.add_item(MediaItem::new("b.mp4".to_string(), MediaType::Video));
    assert_eq!(library.items().len(), 2);
    assert_eq!(library.items()[0].name, "a.mp4");

    library.clear();
    assert_eq!(library.count(), 0);
}

#[test]
fn test_media_library_verify_files() {
    let mut library = MediaLibrary::new();
    let id_a = library.add_item(MediaItem::new("a.mp4".to_string(), MediaType::Video));
    let _id_b = library.add_item(MediaItem::new("b.mp4".to_string(), MediaType::Video));

    // The caller reports which files exist, item by item in order.
    let present = vec![false, true];
    let missing = library.verify_files(&present);
    assert_eq!(missing.len(), 1);
    assert_eq!(missing[0], id_a);
}
