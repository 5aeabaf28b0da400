use musicus::string_helpers::{cut_str_left, limit_str_right};

#[test]
fn test_limit_str_right() {
    let a = "hey";
    assert_eq!(limit_str_right(a, 2), "he");

    let a = "Jürgen";
    assert_eq!(limit_str_right(a, 2), "Jü");
    assert_eq!(limit_str_right(a, 3), "Jür");
    assert_eq!(limit_str_right(a, 6), "Jürgen");
}

#[test]
fn test_cut_str_left() {
    let a = "hey";
    assert_eq!(cut_str_left(a, 1), "ey");

    let a = "Jürgen";
    assert_eq!(cut_str_left(a, 1), "ürgen");
    assert_eq!(cut_str_left(a, 2), "rgen");
}
