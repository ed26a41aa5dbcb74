use phototransfer::device::MediaItem;
use phototransfer::paths::{
    date_path, destination_from_pictures_dir, expand_tilde, get_default_destination,
    get_organized_path, join_path,
};

fn item_dated(date: &str) -> MediaItem {
    MediaItem {
        id: "android-0".to_string(),
        name: "IMG_001.jpg".to_string(),
        media_type: "photo".to_string(),
        size: 123,
        date: date.to_string(),
        thumbnail: None,
        full_path: "/DCIM/IMG_001.jpg".to_string(),
    }
}

#[test]
fn organize_by_date_nests_year_month_day() {
    let item = item_dated("2024-01-15T10:00:00Z");
    let organized = get_organized_path("base", &item, true);
    assert_eq!(organized, "base/2024/01/15/IMG_001.jpg");
    let flat = get_organized_path("base", &item, false);
    assert_eq!(flat, "base/IMG_001.jpg");
}

#[test]
fn organize_uses_the_date_as_written_in_its_offset() {
    let item = item_dated("2024-12-31T23:30:00-05:00");
    let organized = get_organized_path("/pics", &item, true);
    assert_eq!(organized, "/pics/2024/12/31/IMG_001.jpg");
}

#[test]
fn organize_unparseable_date_falls_back_to_today() {
    let item = item_dated("not a timestamp");
    let organized = get_organized_path("base", &item, true);
    // base/yyyy/mm/dd/IMG_001.jpg — a real date, never an error.
    let parts: Vec<&str> = organized.split('/').collect();
    assert_eq!(parts.len(), 5);
    assert_eq!(parts[0], "base");
    assert_eq!(parts[1].len(), 4);
    assert_eq!(parts[2].len(), 2);
    assert_eq!(parts[3].len(), 2);
    assert!(parts[1].chars().all(|c| c.is_ascii_digit()));
    assert!(parts[2].chars().all(|c| c.is_ascii_digit()));
    assert!(parts[3].chars().all(|c| c.is_ascii_digit()));
    let month: u32 = parts[2].parse().unwrap();
    let day: u32 = parts[3].parse().unwrap();
    assert!((1..=12).contains(&month));
    assert!((1..=31).contains(&day));
    assert_eq!(parts[4], "IMG_001.jpg");
}

#[test]
fn date_path_zero_pads_components() {
    assert_eq!(date_path("b", 987, 3, 7, "n.jpg"), "b/0987/03/07/n.jpg");
    assert_eq!(date_path("b", 2024, 11, 30, "n.jpg"), "b/2024/11/30/n.jpg");
    assert_eq!(date_path("b", 0, 1, 1, "n.jpg"), "b/0000/01/01/n.jpg");
    assert_eq!(date_path("b", 9999, 12, 31, "n.jpg"), "b/9999/12/31/n.jpg");
}

#[test]
fn tilde_expansion() {
    assert_eq!(expand_tilde("~", "/home/u"), "/home/u");
    assert_eq!(expand_tilde("~/Pictures", "/home/u"), "/home/u/Pictures");
    assert_eq!(expand_tilde("/absolute/path", "/home/u"), "/absolute/path");
    assert_eq!(expand_tilde("~other/x", "/home/u"), "~other/x");
    assert_eq!(expand_tilde("", "/home/u"), "");
}

#[test]
fn default_destination_shape() {
    assert_eq!(
        destination_from_pictures_dir(Some("/home/u/Pictures".to_string())),
        "/home/u/Pictures/PhonePhotos"
    );
    assert_eq!(
        destination_from_pictures_dir(None),
        "~/Pictures/PhonePhotos"
    );
    let d = get_default_destination();
    assert!(d.ends_with("PhonePhotos"));
}

#[test]
fn join_path_single_separator() {
    assert_eq!(join_path("/dest", "a.jpg"), "/dest/a.jpg");
    assert_eq!(join_path("", "a.jpg"), "/a.jpg");
}
