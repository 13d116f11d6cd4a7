use mosaic::content::GitHubContentObject;
use mosaic::content::strip_transport_whitespace;

fn object(body: Option<&str>) -> GitHubContentObject {
    GitHubContentObject {
        name: String::from("file.txt"),
        path: String::from("file.txt"),
        sha: String::from("abc"),
        size: 1,
        url: String::from("https://example.test/u"),
        html_url: String::from("https://example.test/h"),
        git_url: String::from("https://example.test/g"),
        download_url: String::from("https://example.test/d"),
        content_type: String::from("file"),
        content: body.map(|s| s.to_string()),
        encoding: String::from("base64"),
        links: Vec::new(),
    }
}

#[test]
fn transport_whitespace_is_stripped_before_decoding() {
    // "hello world" in base64 is aGVsbG8gd29ybGQ=, here wrapped in the
    // whitespace the gateway inserts.
    let obj = object(Some(" aGVs\nbG8g\td29y\rbGQ=\n"));
    assert_eq!(obj.decoded_content().unwrap(), "hello world");
}

#[test]
fn an_absent_body_decodes_to_nothing() {
    let obj = object(None);
    assert!(obj.decoded_content().is_none());
}

#[test]
fn an_invalid_body_decodes_to_nothing() {
    let obj = object(Some("@@@@"));
    assert!(obj.decoded_content().is_none());
}

#[test]
fn invalid_utf8_is_replaced_not_rejected() {
    // 0xFF 0xFE is not valid UTF-8; lossy decoding replaces each byte.
    let obj = object(Some("//4="));
    let text = obj.decoded_content().unwrap();
    assert_eq!(text, "\u{FFFD}\u{FFFD}");
}

#[test]
fn stripping_removes_exactly_the_six_whitespace_bytes() {
    let input: Vec<u8> = b" a\nb\tc\rd\x0be\x0cf".to_vec();
    let out = strip_transport_whitespace(&input);
    assert_eq!(out, b"abcdef".to_vec());
}
