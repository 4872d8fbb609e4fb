use esm_dev_server::url_path::{request_file, to_root_relative};

fn url(path: &str, root: &str) -> String {
    to_root_relative(path, root).unwrap()
}

#[test]
fn root_is_taken_off_the_front() {
    assert_eq!(
        url("/srv/project/node_modules/left-pad/index.js", "/srv/project"),
        "/node_modules/left-pad/index.js"
    );
    assert_eq!(url("/srv/project/a.js", "/srv/project"), "/a.js");
}

#[test]
fn url_put_behind_the_root_is_the_path_again() {
    let root = "/srv/project";
    for path in ["/srv/project/a.js", "/srv/project/node_modules/@scope/pkg/dist/index.mjs", "/srv/project/"] {
        assert_eq!(format!("{}{}", root, url(path, root)), path);
    }
}

#[test]
fn separators_at_the_end_of_the_root_do_not_count() {
    assert_eq!(url("/srv/project/a.js", "/srv/project/"), "/a.js");
    assert_eq!(url("/srv/project/a.js", "/srv/project//"), "/a.js");
    assert_eq!(url("/a.js", "/"), "/a.js");
    assert_eq!(url("/a.js", ""), "/a.js");
}

#[test]
fn backslashes_become_slashes() {
    assert_eq!(
        url("C:\\project\\node_modules\\left-pad\\index.js", "C:\\project"),
        "/node_modules/left-pad/index.js"
    );
    assert_eq!(url("C:\\project\\a.js", "C:\\project\\"), "/a.js");
    assert_eq!(url("/srv/project/a\\b/c.js", "/srv/project"), "/a/b/c.js");
    assert_eq!(url("/srv/project\\\\a.js", "/srv/project"), "//a.js");
}

#[test]
fn path_beside_the_root_is_out_of_root() {
    let e = to_root_relative("/srv/other/a.js", "/srv/project").unwrap_err();
    assert_eq!(e.path, "/srv/other/a.js");
    assert_eq!(e.root, "/srv/project");
}

#[test]
fn path_that_only_begins_like_the_root_is_out_of_root() {
    assert!(to_root_relative("/srv/project-two/a.js", "/srv/project").is_err());
    assert!(to_root_relative("/srv/projects", "/srv/project").is_err());
}

#[test]
fn root_itself_is_out_of_root() {
    assert!(to_root_relative("/srv/project", "/srv/project").is_err());
    assert!(to_root_relative("/srv/project", "/srv/project/").is_err());
    assert!(to_root_relative("", "").is_err());
}

#[test]
fn path_above_the_root_is_out_of_root() {
    assert!(to_root_relative("/srv", "/srv/project").is_err());
    assert!(to_root_relative("/", "/srv/project").is_err());
    assert!(to_root_relative("relative/a.js", "/srv/project").is_err());
}

#[test]
fn characters_beyond_ascii_are_kept() {
    assert_eq!(url("/srv/prüf/node_modules/ö/ä.js", "/srv/prüf"), "/node_modules/ö/ä.js");
    assert!(to_root_relative("/srv/pruf/a.js", "/srv/prüf").is_err());
}

#[test]
fn request_asks_for_the_file_behind_the_root() {
    assert_eq!(
        request_file("/srv/project", "/node_modules/left-pad/index.js"),
        Some("/srv/project/node_modules/left-pad/index.js".to_string())
    );
    assert_eq!(request_file("/srv/project", "/"), Some("/srv/project/".to_string()));
    assert_eq!(request_file("/srv/project/", "/a.js"), Some("/srv/project/a.js".to_string()));
    assert_eq!(request_file("/", "/a.js"), Some("/a.js".to_string()));
    assert_eq!(request_file("C:\\project\\", "/a.js"), Some("C:\\project/a.js".to_string()));
}

#[test]
fn request_without_a_leading_slash_asks_for_no_file() {
    assert_eq!(request_file("/srv/project", ""), None);
    assert_eq!(request_file("/srv/project", "*"), None);
    assert_eq!(request_file("/srv/project", "a.js"), None);
}

#[test]
fn rewritten_path_asks_for_the_file_it_was_made_from() {
    for root in ["/srv/project", "/srv/project/", "/", ""] {
        for path in ["/srv/project/a.js", "/srv/project/node_modules/ö/index.mjs"] {
            if let Ok(url) = to_root_relative(path, root) {
                assert_eq!(request_file(root, &url), Some(path.to_string()), "{} {}", root, path);
            }
        }
    }
    assert!(to_root_relative("/srv/project/a.js", "/srv/project/").is_ok());
}

#[test]
fn requested_file_is_rewritten_to_the_path_of_the_request() {
    for root in ["/srv/project", "/srv/project//", "/"] {
        for url in ["/a.js", "/node_modules/@scope/pkg/index.js", "/"] {
            let file = request_file(root, url).unwrap();
            assert_eq!(to_root_relative(&file, root).unwrap(), url, "{} {}", root, url);
        }
    }
}
