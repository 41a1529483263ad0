use gofile_tool::error::Error;
use gofile_tool::resolve::{resolve_url, ContentId};

fn code_of(r: Result<ContentId, Error>) -> String {
    match r {
        Ok(ContentId::Code(c)) => c,
        other => panic!("expected a code, got {:?}", other),
    }
}

#[test]
fn uuid_input_is_unique_id() {
    let r = ContentId::parse_content_id("d290f1ee-6c54-4b01-90e6-d701748f0851");
    match r {
        Ok(ContentId::Uuid(id)) => assert_eq!(id, 0xd290f1ee_6c54_4b01_90e6_d701748f0851u128),
        other => panic!("expected a uuid, got {:?}", other),
    }
}

#[test]
fn uuid_wins_over_url() {
    let r = ContentId::parse_content_id("urn:uuid:d290f1ee-6c54-4b01-90e6-d701748f0851");
    assert!(matches!(r, Ok(ContentId::Uuid(_))));
}

#[test]
fn content_url_gives_code() {
    let r = ContentId::parse_content_id("https://gofile.io/d/AbCdEf");
    assert_eq!(code_of(r), "AbCdEf");
}

#[test]
fn content_url_with_extra_segment_rejects() {
    let r = ContentId::parse_content_id("https://gofile.io/d/AbCdEf/more");
    assert!(matches!(r, Err(Error::InvalidContentUrl(_))));
    let r = ContentId::parse_content_id("https://gofile.io/d/AbCdEf/");
    assert!(matches!(r, Err(Error::InvalidContentUrl(_))));
}

#[test]
fn content_url_without_code_rejects() {
    let r = ContentId::parse_content_id("https://gofile.io/d");
    assert!(matches!(r, Err(Error::InvalidContentUrl(_))));
}

#[test]
fn download_url_gives_direct_link() {
    let input = "https://store1.gofile.io/download/d290f1ee-6c54-4b01-90e6-d701748f0851/report.pdf";
    match ContentId::parse_content_id(input) {
        Ok(ContentId::DownloadUrl(url, name)) => {
            assert_eq!(url, input);
            assert_eq!(name, "report.pdf");
        }
        other => panic!("expected a direct link, got {:?}", other),
    }
}

#[test]
fn download_url_with_bad_id_rejects() {
    let r = ContentId::parse_content_id("https://store1.gofile.io/download/notanid/report.pdf");
    assert!(matches!(r, Err(Error::InvalidDownloadUrl(_))));
}

#[test]
fn download_url_without_name_rejects() {
    let r = ContentId::parse_content_id(
        "https://store1.gofile.io/download/d290f1ee-6c54-4b01-90e6-d701748f0851",
    );
    assert!(matches!(r, Err(Error::InvalidDownloadUrl(_))));
}

#[test]
fn download_url_with_extra_segment_rejects() {
    let r = ContentId::parse_content_id(
        "https://store1.gofile.io/download/d290f1ee-6c54-4b01-90e6-d701748f0851/a/b",
    );
    assert!(matches!(r, Err(Error::InvalidDownloadUrl(_))));
}

#[test]
fn other_url_shape_rejects() {
    let r = ContentId::parse_content_id("https://gofile.io/folder/AbCdEf");
    match r {
        Err(Error::InvalidUrl(u)) => assert_eq!(u, "https://gofile.io/folder/AbCdEf"),
        other => panic!("expected an invalid url, got {:?}", other),
    }
    let r = ContentId::parse_content_id("https://gofile.io/");
    assert!(matches!(r, Err(Error::InvalidUrl(_))));
}

#[test]
fn cannot_be_a_base_url_rejects() {
    let r = ContentId::parse_content_id("mailto:someone@example.com");
    assert!(matches!(r, Err(Error::InvalidUrl(_))));
}

#[test]
fn plain_word_is_code() {
    assert_eq!(code_of(ContentId::parse_content_id("plainword")), "plainword");
}

#[test]
fn empty_input_is_code() {
    assert_eq!(code_of(ContentId::parse_content_id("")), "");
}

#[test]
fn resolve_url_on_given_segments() {
    let segs = vec![String::from("d"), String::from("xyz")];
    let r = resolve_url(String::from("https://h/d/xyz"), Some(segs));
    assert_eq!(code_of(r), "xyz");
    let r = resolve_url(String::from("mailto:x"), None);
    assert!(matches!(r, Err(Error::InvalidUrl(_))));
    let r = resolve_url(String::from("https://h/x"), Some(vec![String::from("x")]));
    assert!(matches!(r, Err(Error::InvalidUrl(_))));
}
