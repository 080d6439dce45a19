use std::collections::HashMap;

use file_server::handler::{finish, route, Step};
use file_server::method::Method;
use file_server::outcome::FsReport;
use file_server::response::Response;

const ROOT: &[u8] = b"/data/root";
const PAGE: &[u8] = b"<!DOCTYPE html><html><body>files</body></html>";

/// Serves one request against files held in memory, as the server does
/// against the disk.
fn serve(files: &mut HashMap<Vec<u8>, Vec<u8>>, method: &str, url: &str, body: &[u8]) -> Response {
    match route(ROOT, PAGE, Method::from_name(method.as_bytes()), url.as_bytes()) {
        Step::Respond(r) => r,
        Step::Read(p) => {
            let report = FsReport::Read(files.get(&p).cloned());
            finish(&p, report)
        }
        Step::Write(p) => {
            files.insert(p.clone(), body.to_vec());
            finish(&p, FsReport::Write(Ok(())))
        }
        Step::Remove(p) => {
            let removed = files.remove(&p).is_some();
            finish(&p, FsReport::Remove(removed))
        }
    }
}

#[test]
fn put_get_delete_scenario() {
    let mut files = HashMap::new();
    let r = serve(&mut files, "PUT", "/a.txt", b"hello");
    assert_eq!(r.status, 200);
    assert!(r.body.is_empty());
    let r = serve(&mut files, "GET", "/a.txt", b"");
    assert_eq!(r.status, 200);
    assert_eq!(r.body, b"hello".to_vec());
    assert_eq!(r.disposition, Some(b"attachment; filename=\"a.txt\"".to_vec()));
    let r = serve(&mut files, "DELETE", "/a.txt", b"");
    assert_eq!(r.status, 200);
    let r = serve(&mut files, "GET", "/a.txt", b"");
    assert_eq!(r.status, 404);
    let r = serve(&mut files, "GET", "/", b"");
    assert_eq!(r.status, 200);
    assert_eq!(r.body, PAGE.to_vec());
    let r = serve(&mut files, "PATCH", "/a.txt", b"x");
    assert_eq!(r.status, 405);
    assert!(files.is_empty());
}

#[test]
fn get_returns_last_write() {
    let mut files = HashMap::new();
    assert_eq!(serve(&mut files, "POST", "/dir/n.bin", &[0, 1, 2, 255]).status, 200);
    assert_eq!(serve(&mut files, "PUT", "/dir/n.bin", &[9, 8]).status, 200);
    let r = serve(&mut files, "GET", "/dir/n.bin", b"ignored");
    assert_eq!(r.status, 200);
    assert_eq!(r.body, vec![9, 8]);
    assert_eq!(r.disposition, Some(b"attachment; filename=\"n.bin\"".to_vec()));
}

#[test]
fn get_of_unwritten_path_is_not_found() {
    let mut files = HashMap::new();
    serve(&mut files, "PUT", "/other", b"x");
    let r = serve(&mut files, "GET", "/never", b"");
    assert_eq!(r.status, 404);
    assert!(r.body.is_empty());
    assert_eq!(r.disposition, None);
}

#[test]
fn delete_of_missing_path_is_not_found() {
    let mut files = HashMap::new();
    assert_eq!(serve(&mut files, "DELETE", "/missing", b"").status, 404);
    serve(&mut files, "PUT", "/here", b"1");
    assert_eq!(serve(&mut files, "DELETE", "/here", b"").status, 200);
    assert_eq!(serve(&mut files, "DELETE", "/here", b"").status, 404);
    assert_eq!(serve(&mut files, "GET", "/here", b"").status, 404);
}

#[test]
fn post_and_put_store_alike() {
    let mut by_post = HashMap::new();
    let mut by_put = HashMap::new();
    let a = serve(&mut by_post, "POST", "/f", b"same body");
    let b = serve(&mut by_put, "PUT", "/f", b"same body");
    assert_eq!(a.status, b.status);
    assert_eq!(a.body, b.body);
    assert_eq!(by_post, by_put);
    assert_eq!(serve(&mut by_post, "GET", "/f", b"").body, b"same body".to_vec());
}

#[test]
fn root_answers_get_only() {
    let mut files = HashMap::new();
    let r = serve(&mut files, "GET", "/", b"");
    assert_eq!(r.status, 200);
    assert_eq!(r.body, PAGE.to_vec());
    for m in ["POST", "PUT", "DELETE", "PATCH", "HEAD", "OPTIONS"] {
        let r = serve(&mut files, m, "/", b"body");
        assert_eq!(r.status, 405);
        assert!(r.body.is_empty());
    }
    assert!(files.is_empty());
}

#[test]
fn unknown_methods_change_nothing() {
    let mut files = HashMap::new();
    serve(&mut files, "PUT", "/keep", b"kept");
    let before = files.clone();
    for m in ["PATCH", "HEAD", "OPTIONS", "TRACE", "put", "Delete"] {
        let r = serve(&mut files, m, "/keep", b"changed");
        assert_eq!(r.status, 405);
        assert!(r.body.is_empty());
    }
    assert_eq!(files, before);
    assert_eq!(serve(&mut files, "GET", "/keep", b"").body, b"kept".to_vec());
}

#[test]
fn writing_twice_does_not_append() {
    let mut files = HashMap::new();
    serve(&mut files, "PUT", "/twice", b"abc");
    serve(&mut files, "POST", "/twice", b"abc");
    let r = serve(&mut files, "GET", "/twice", b"");
    assert_eq!(r.status, 200);
    assert_eq!(r.body, b"abc".to_vec());
}

#[test]
fn empty_body_writes_empty_file() {
    let mut files = HashMap::new();
    assert_eq!(serve(&mut files, "PUT", "/empty", b"").status, 200);
    let r = serve(&mut files, "GET", "/empty", b"");
    assert_eq!(r.status, 200);
    assert!(r.body.is_empty());
}
