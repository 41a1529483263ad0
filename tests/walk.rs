use gofile_tool::error::Error;
use gofile_tool::walk::{check_digest, Entry, Listing, Walker};

fn file(name: &str, md5: u128) -> Entry {
    Entry::File { name: name.to_string(), link: format!("https://h/{}", name), md5 }
}

fn folder(children: Option<Vec<Entry>>) -> Listing {
    Listing::Folder { name: String::from("top"), children }
}

#[test]
fn bare_file_is_refused() {
    let r = Walker::new(Listing::File { name: String::from("a.txt") });
    match r {
        Err(Error::InvalidTopLevelFile(n)) => assert_eq!(n, "a.txt"),
        _ => panic!("expected a refusal of a top-level file"),
    }
}

#[test]
fn absent_children_is_no_content() {
    assert!(matches!(Walker::new(folder(None)), Err(Error::NoContent)));
}

#[test]
fn empty_children_is_no_content() {
    assert!(matches!(Walker::new(folder(Some(vec![]))), Err(Error::NoContent)));
}

#[test]
fn files_are_handed_out_in_order() {
    let mut w = Walker::new(folder(Some(vec![file("a", 1), file("b", 2)]))).ok().unwrap();
    let t = w.next_transfer().ok().unwrap().unwrap();
    assert_eq!((t.name.as_str(), t.link.as_str(), t.expected), ("a", "https://h/a", 1));
    let t = w.next_transfer().ok().unwrap().unwrap();
    assert_eq!((t.name.as_str(), t.link.as_str(), t.expected), ("b", "https://h/b", 2));
    assert!(matches!(w.next_transfer(), Ok(None)));
}

#[test]
fn nested_folder_stops_the_walk() {
    let children = vec![file("a", 1), Entry::Folder { name: String::from("sub") }, file("c", 3)];
    let mut w = Walker::new(folder(Some(children))).ok().unwrap();
    assert!(matches!(w.next_transfer(), Ok(Some(_))));
    assert!(matches!(w.next_transfer(), Err(Error::NotImplementedForSubdir)));
    assert!(matches!(w.next_transfer(), Err(Error::NotImplementedForSubdir)));
}

#[test]
fn matching_digest_passes() {
    assert!(check_digest(0x900150983cd24fb0d6963f7d28e17f72, 0x900150983cd24fb0d6963f7d28e17f72).is_ok());
}

#[test]
fn mismatched_digest_names_both() {
    match check_digest(0xd41d8cd98f00b204e9800998ecf8427e, 0x900150983cd24fb0d6963f7d28e17f72) {
        Err(Error::Md5DigestMismatched(m)) => assert_eq!(
            m,
            "d41d8cd98f00b204e9800998ecf8427e != 900150983cd24fb0d6963f7d28e17f72"
        ),
        _ => panic!("expected a digest mismatch"),
    }
}
