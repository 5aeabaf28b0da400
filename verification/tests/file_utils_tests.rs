use musicus::file_manager::file_utils::{get_common_ends, get_common_ends_of_strings};

#[test]
fn file_utils_test_common_ends() {
    let a = "startINBETWEENend";
    let b = "startSOMETHINGELSEend";
    let (start, end) = get_common_ends_of_strings(a, b, b);
    assert_eq!(start, "start");
    assert_eq!(end, "end");
}

#[test]
fn file_utils_test_multiple_ends1() {
    let vec = vec![
        "startfurtherXfurtherend",
        "startfurtherYfurtherend",
        "startZend",
    ];
    let (begin, end) = get_common_ends(vec).unwrap();
    assert_eq!(begin, "start");
    assert_eq!(end, "end");
}

#[test]
fn file_utils_test_multiple_ends2() {
    let vec = vec![];
    assert!(get_common_ends(vec).is_none());
}

#[test]
fn file_utils_test_multiple_ends3() {
    let vec = vec!["abc"];
    let (begin, end) = get_common_ends(vec).unwrap();
    assert_eq!(begin, "abc");
    assert_eq!(end, "abc");
}

#[test]
fn file_utils_test_multiple_ends4() {
    let vec = vec!["01abcEND", "02defEND", "11ghiEND", "12jklEND"];
    let (begin, end) = get_common_ends(vec).unwrap();
    assert_eq!(begin, "");
    assert_eq!(end, "END");
}

#[test]
fn test_common_ends_utf8() {
    let vec = vec!["èŷß", "èôß"];

    let (begin, end) = get_common_ends(vec).unwrap();
    assert_eq!(begin, "è");
    assert_eq!(end, "ß");
}
