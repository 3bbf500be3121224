use sizes::{new_landscape, new_portrait, new_thumbnail, strip_marker, Orientation, Scale, Size};
use sizes::text::eq_ignore_case;

#[test]
fn thumbnail_is_square() {
    let s = Size::new_thumbnail(64, Scale::SM);
    assert_eq!(
        s,
        Size { scale: Scale::SM, orientation: Orientation::Thumbnail, width: 64, height: 64 }
    );
    assert_eq!(new_thumbnail(64, Scale::SM), s);
}

#[test]
fn landscape_keeps_dimensions() {
    let s = Size::new_landscape(1920, 1080, Scale::LG);
    assert_eq!(
        s,
        Size { scale: Scale::LG, orientation: Orientation::Landscape, width: 1920, height: 1080 }
    );
    assert_eq!(new_landscape(1920, 1080, Scale::LG), s);
}

#[test]
fn portrait_keeps_dimensions_unchecked() {
    let s = Size::new_portrait(800, 1200, Scale::MD);
    assert_eq!(
        s,
        Size { scale: Scale::MD, orientation: Orientation::Portrait, width: 800, height: 1200 }
    );
    assert_eq!(new_portrait(800, 1200, Scale::MD), s);
    let odd = Size::new_portrait(1200, 800, Scale::XXLG);
    assert_eq!(odd.orientation, Orientation::Portrait);
    assert_eq!(odd.width, 1200);
    let negative = Size::new_landscape(-5, i32::MAX, Scale::XSM);
    assert_eq!(negative.width, -5);
    assert_eq!(negative.height, i32::MAX);
}

#[test]
fn default_size_is_empty() {
    assert!(Size::default().is_empty());
    assert_eq!(
        Size::default(),
        Size { scale: Scale::XXSM, orientation: Orientation::Thumbnail, width: 0, height: 0 }
    );
}

#[test]
fn built_sizes_are_not_empty() {
    assert!(!Size::new_portrait(800, 1200, Scale::MD).is_empty());
    assert!(!Size::new_thumbnail(100, Scale::MD).is_empty());
    assert!(!Size::new_thumbnail(0, Scale::SM).is_empty());
    assert!(!Size::new_landscape(0, 0, Scale::XXSM).is_empty());
    assert!(Size::new_thumbnail(0, Scale::XXSM).is_empty());
}

#[test]
fn marker_is_stripped_once() {
    let json = "{\"scale\":\"SM\",\"orientation\":\"THUMBNAIL\",\"width\":64,\"height\":64}";
    let marked = format!("\u{1}{}", json);
    assert_eq!(strip_marker(&marked), json);
    assert_eq!(strip_marker(json), json);
    let other = format!("\u{7}{}", json);
    assert_eq!(strip_marker(&other), strip_marker(json));
    let del = format!("\u{7f}{}", json);
    assert_eq!(strip_marker(&del), json);
    assert_eq!(strip_marker("\u{1}\u{1}x"), "\u{1}x");
    assert_eq!(strip_marker(""), "");
    assert_eq!(strip_marker("\u{1}"), "");
    assert_eq!(strip_marker("é{}"), "é{}");
}

#[test]
fn case_folded_comparison() {
    assert!(eq_ignore_case("PoRtRaIt", "portrait"));
    assert!(eq_ignore_case("", ""));
    assert!(!eq_ignore_case("portrai", "portrait"));
    assert!(!eq_ignore_case("p0rtrait", "portrait"));
    assert!(!eq_ignore_case("[", "{"));
}
