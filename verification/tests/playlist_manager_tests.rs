use musicus::playlist_manager::normalize_title;

#[test]
fn playlist_manager_test_normalize_title1() {
    let title = "1 Heyhey";
    let normalized_title = normalize_title(title, 0);
    assert_eq!(&normalized_title, "01 Heyhey")
}

#[test]
fn playlist_manager_test_normalize_title2() {
    let title = "1Heyhey";
    let normalized_title = normalize_title(title, 1);
    assert_eq!(&normalized_title, "01 1Heyhey")
}

#[test]
fn playlists_test_normalize_title1() {
    let title = "1 Heyhey";
    let normalized_title = normalize_title(title, 0);
    assert_eq!(&normalized_title, "01 Heyhey")
}

#[test]
fn playlists_test_normalize_title2() {
    let title = "1Heyhey";
    let normalized_title = normalize_title(title, 1);
    assert_eq!(&normalized_title, "01 1Heyhey")
}

#[test]
fn normalize_title_of_an_empty_title() {
    assert_eq!(normalize_title("", 3), "<no title>");
}

#[test]
fn normalize_title_keeps_a_track_number_of_two_digits() {
    assert_eq!(normalize_title("12 Heyhey", 5), "12 Heyhey");
    assert_eq!(normalize_title("12", 5), "12");
    assert_eq!(normalize_title("7", 5), "07");
}

#[test]
fn normalize_title_numbers_every_other_title() {
    assert_eq!(normalize_title("Heyhey", 5), "05 Heyhey");
    assert_eq!(normalize_title("Heyhey", 12), "12 Heyhey");
    assert_eq!(normalize_title("Heyhey", 123), "123 Heyhey");
    assert_eq!(normalize_title("123 Heyhey", 4), "04 123 Heyhey");
    assert_eq!(normalize_title("12Heyhey", 4), "04 12Heyhey");
    assert_eq!(normalize_title(" 1 Heyhey", 4), "04  1 Heyhey");
    assert_eq!(normalize_title("١ Heyhey", 4), "04 ١ Heyhey");
}
