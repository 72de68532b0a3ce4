use gaspifs::paths::{get_file_name_from_path, parse_url, PathError};

#[test]
fn test_parse_url() {
    let url = "https://example.com/path/to/resource%20name.txt?key=123";
    let (parsed_url, file_name) = parse_url(url).unwrap();
    assert_eq!(
        parsed_url,
        "https://example.com/path/to/resource%20name.txt"
    );
    assert_eq!(file_name, "resource name.txt");
}

#[test]
fn test_get_file_name_from_path() {
    let file_path = "/path/to/file.txt";
    let file_name = get_file_name_from_path(file_path).unwrap();
    assert_eq!(file_name, "file.txt");
}

#[test]
fn parse_url_query_removed_and_decoded() {
    let (locator, name) = parse_url("https://x/y/resource%20name.txt?k=1").unwrap();
    assert_eq!(locator, "https://x/y/resource%20name.txt");
    assert_eq!(name, "resource name.txt");
}

#[test]
fn parse_url_without_query() {
    let (locator, name) = parse_url("https://x/data/a%2Bb.vcf.gz").unwrap();
    assert_eq!(locator, "https://x/data/a%2Bb.vcf.gz");
    assert_eq!(name, "a+b.vcf.gz");
}

#[test]
fn parse_url_trailing_slashes_skipped() {
    let (locator, name) = parse_url("https://x/dir/file.txt//?a=b?c").unwrap();
    assert_eq!(locator, "https://x/dir/file.txt//");
    assert_eq!(name, "file.txt");
}

#[test]
fn parse_url_plain_text_unchanged() {
    let (_, name) = parse_url("https://x/plain.txt").unwrap();
    assert_eq!(name, "plain.txt");
}

#[test]
fn parse_url_directory_locator() {
    let (locator, name) = parse_url("https://x/data/dir/").unwrap();
    assert_eq!(locator, "https://x/data/dir/");
    assert_eq!(name, "dir");
}

#[test]
fn file_name_skips_trailing_separators_and_dots() {
    assert_eq!(get_file_name_from_path("dir/file.txt/").unwrap(), "file.txt");
    assert_eq!(get_file_name_from_path("dir/file.txt/.").unwrap(), "file.txt");
    assert_eq!(get_file_name_from_path("a//b").unwrap(), "b");
    assert_eq!(get_file_name_from_path("./report.csv").unwrap(), "report.csv");
    assert_eq!(get_file_name_from_path("name").unwrap(), "name");
}

#[test]
fn file_name_missing() {
    assert_eq!(get_file_name_from_path(""), Err(PathError::InvalidPath));
    assert_eq!(get_file_name_from_path("/"), Err(PathError::InvalidPath));
    assert_eq!(get_file_name_from_path("."), Err(PathError::InvalidPath));
    assert_eq!(get_file_name_from_path("dir/.."), Err(PathError::InvalidPath));
    assert_eq!(get_file_name_from_path("/."), Err(PathError::InvalidPath));
}
