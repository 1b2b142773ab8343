use cleansweep::privacy::PrivacyItem;

#[test]
fn entry_keeps_its_snapshot() {
    let item = PrivacyItem::new(
        String::from("Browser history"),
        String::from("/home/u/.config/browser/History"),
        true,
    );
    assert_eq!(item.name, "Browser history");
    assert_eq!(item.path, "/home/u/.config/browser/History");
    assert!(item.exists);
}

#[test]
fn absent_entry_stays_absent() {
    let item = PrivacyItem::new(String::from("Clipboard"), String::from("/tmp/clip"), false);
    assert!(!item.exists);
}
