use wget::outcome::ErrorKind;
use wget::resolve::{check_url, resolve};

#[test]
fn resolves_last_path_segment() {
    assert_eq!(resolve("http://host/a/b/report.csv"), "report.csv");
}

#[test]
fn falls_back_on_trailing_slash() {
    assert_eq!(resolve("http://host/"), "Download");
}

#[test]
fn falls_back_without_path() {
    assert_eq!(resolve("http://host"), "Download");
}

#[test]
fn skips_empty_trailing_segments() {
    assert_eq!(resolve("http://host/a/b//"), "b");
}

#[test]
fn resolves_single_segment_path() {
    assert_eq!(resolve("https://example.org/file.bin"), "file.bin");
}

#[test]
fn path_of_only_slashes_falls_back() {
    assert_eq!(resolve("http://host///"), "Download");
}

#[test]
fn accepts_absolute_url() {
    assert!(check_url("http://host/x").is_ok());
    assert!(check_url("https://example.org").is_ok());
}

#[test]
fn rejects_url_without_scheme() {
    assert_eq!(check_url("host/x"), Err(ErrorKind::InvalidInput));
    assert_eq!(check_url(""), Err(ErrorKind::InvalidInput));
}

#[test]
fn rejects_empty_scheme() {
    assert_eq!(check_url("://host"), Err(ErrorKind::InvalidInput));
}

#[test]
fn rejects_empty_authority() {
    assert_eq!(check_url("http://"), Err(ErrorKind::InvalidInput));
    assert_eq!(check_url("http:///path"), Err(ErrorKind::InvalidInput));
}
