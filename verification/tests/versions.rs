use motorchik::versions::{latest_version, takes_over};

fn versions(texts: &[&str]) -> Vec<String> {
    texts.iter().map(|text| text.to_string()).collect()
}

#[test]
fn latest_of_no_versions_is_none() {
    assert_eq!(None, latest_version(&vec![]));
}

#[test]
fn latest_of_one_version_is_that_one() {
    assert_eq!(Some(0), latest_version(&versions(&["1.2.3"])));
    assert_eq!(Some(0), latest_version(&versions(&["not a version"])));
}

#[test]
fn latest_is_the_highest_version() {
    assert_eq!(Some(2), latest_version(&versions(&["0.1.0", "0.1.1", "0.2.0"])));
    assert_eq!(Some(0), latest_version(&versions(&["0.2.0", "0.1.1", "0.1.0"])));
    assert_eq!(Some(1), latest_version(&versions(&["0.9.0", "0.10.0", "0.2.0"])));
    assert_eq!(Some(1), latest_version(&versions(&["1.0.0-rc.1", "1.0.0", "1.0.0-beta"])));
}

#[test]
fn latest_of_equal_versions_is_the_last_of_them() {
    assert_eq!(Some(2), latest_version(&versions(&["1.0.0", "0.5.0", "1.0.0"])));
    assert_eq!(Some(1), latest_version(&versions(&["2.0.0", "2.0.0", "1.0.0"])));
}

#[test]
fn what_is_no_version_never_takes_over() {
    assert_eq!(Some(0), latest_version(&versions(&["1.0.0", "1.0", "01.0.0", ""])));
    assert_eq!(Some(0), latest_version(&versions(&["nonsense", "1.0.0"])));
}

#[test]
fn takes_over_unless_lower_or_unknown() {
    assert!(takes_over(Some(1)));
    assert!(takes_over(Some(0)));
    assert!(!takes_over(Some(-1)));
    assert!(!takes_over(None));
}
