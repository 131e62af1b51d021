use reqwest::Url;
use urlfetch::filename::url_filename;
use urlfetch::FetchError;
use urlfetch::UrlParts;

/// Read the host and path segments of a parsed URL into the library's model.
fn parts_of(url: &Url) -> UrlParts {
    UrlParts {
        host: url.host_str().map(|h| h.to_string()),
        segments: match url.path_segments() {
            Some(segments) => segments.map(|s| s.to_string()).collect(),
            None => Vec::new(),
        },
    }
}

#[test]
fn test_url_filename() {
    println!();
    for (i, (url, filename)) in [
        ("http://some.host.tld/path/to/file.ext", "file.ext"),
        ("http://some.host.tld/path/to/", "to"),
        ("http://some.host.tld/path/to", "to"),
        ("http://some.host.tld/path/", "path"),
        ("http://some.host.tld/path", "path"),
        ("http://some.host.tld/", "some.host.tld.html"),
        ("http://some.host.tld", "some.host.tld.html"),
    ]
    .iter()
    .enumerate()
    {
        println!("{}. {url:?} => {filename:?}", i + 1);
        assert_eq!(
            url_filename(&parts_of(&Url::parse(url).unwrap())).unwrap(),
            *filename
        );
    }
}

#[test]
fn last_nonempty_segment_wins_over_trailing_empties() {
    let u = UrlParts {
        host: Some("h".to_string()),
        segments: vec![
            "a".to_string(),
            "b".to_string(),
            String::new(),
            String::new(),
        ],
    };
    assert_eq!(url_filename(&u).unwrap(), "b");
}

#[test]
fn segment_derivation_needs_no_host() {
    let u = UrlParts {
        host: None,
        segments: vec!["file.ext".to_string()],
    };
    assert_eq!(url_filename(&u).unwrap(), "file.ext");
}

#[test]
fn host_fallback_when_no_segments() {
    let u = UrlParts {
        host: Some("example.com".to_string()),
        segments: Vec::new(),
    };
    assert_eq!(url_filename(&u).unwrap(), "example.com.html");
}

#[test]
fn host_fallback_when_all_segments_empty() {
    let u = UrlParts {
        host: Some("example.com".to_string()),
        segments: vec![String::new(), String::new()],
    };
    assert_eq!(url_filename(&u).unwrap(), "example.com.html");
}

#[test]
fn filename_nonempty_for_every_url_with_a_host() {
    for url in [
        "http://h/",
        "http://h",
        "http://h//",
        "http://h/x/",
        "https://a.b.c/d/e/f",
    ] {
        let name = url_filename(&parts_of(&Url::parse(url).unwrap())).unwrap();
        assert!(!name.is_empty());
    }
}

#[test]
fn url_without_host_is_an_error() {
    let parsed = Url::parse("mailto:someone@example.com").unwrap();
    assert!(parsed.host_str().is_none());
    assert_eq!(url_filename(&parts_of(&parsed)), Err(FetchError::Url));
}

#[test]
fn no_host_and_empty_segments_is_an_error() {
    let u = UrlParts {
        host: None,
        segments: vec![String::new()],
    };
    assert_eq!(url_filename(&u), Err(FetchError::Url));
}
