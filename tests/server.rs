use xtask_wasm::command::Program;
use xtask_wasm::http::{response_head, RequestError};
use xtask_wasm::resolve::content_type;
use xtask_wasm::{
    parse_request_path, CommandSpec, DevServer, Entry, EntryKind, FsPath, HeaderReader,
    HeaderStep, IpAddr, Listing, Request, Resolution, ResolveError, Status,
};

fn entry(path: &str, kind: EntryKind) -> Entry {
    Entry { path: FsPath::new(path), kind }
}

fn request(path: &str, not_found: Option<&str>) -> Request {
    Request {
        path: path.to_string(),
        header: format!("GET {} HTTP/1.1\r\n\r\n", path),
        dist_dir_path: FsPath::new("/srv/dist"),
        not_found_path: not_found.map(FsPath::new),
    }
}

fn served() -> Listing {
    Listing {
        entries: vec![
            entry("/srv/dist", EntryKind::Dir),
            entry("/srv/dist/app.js", EntryKind::File { len: 10 }),
            entry("/srv/dist/index.html", EntryKind::File { len: 20 }),
            entry("/srv/dist/app.wasm", EntryKind::File { len: 7 }),
            entry("/srv/dist/docs", EntryKind::Dir),
            entry("/srv/dist/docs/index.htm", EntryKind::File { len: 3 }),
            entry("/srv/dist/empty", EntryKind::Dir),
        ],
    }
}

fn head_of(path: &str, not_found: Option<&str>) -> String {
    request(path, not_found).default_response(&served()).head()
}

#[test]
fn scenario_app_js_index_and_missing() {
    assert_eq!(
        head_of("/app.js", None),
        "HTTP/1.1 200 OK\r\nContent-Length: 10\r\nContent-Type: application/javascript\r\n\r\n"
    );
    assert_eq!(
        head_of("/", None),
        "HTTP/1.1 200 OK\r\nContent-Length: 20\r\nContent-Type: text/html;charset=utf-8\r\n\r\n"
    );
    assert_eq!(head_of("/missing.png", None), "HTTP/1.1 404 NOT FOUND\r\n\r\n");
}

#[test]
fn root_request_sends_index_html() {
    let r = request("/", None).default_response(&served());
    assert!(r.status == Status::Success);
    let (path, len, content_type) = r.body.expect("a body");
    assert_eq!(path.to_text(), "/srv/dist/index.html");
    assert_eq!(len, 20);
    assert_eq!(content_type, "text/html;charset=utf-8");
}

#[test]
fn missing_file_without_fallback_is_not_found() {
    let r = request("/nothing/here.css", None).default_response(&served());
    assert!(r.status == Status::NotFound);
    assert!(r.body.is_none());
}

#[test]
fn missing_file_with_fallback_sends_fallback() {
    let r = request("/some/route", Some("index.html")).default_response(&served());
    assert!(r.status == Status::Success);
    assert_eq!(r.body.unwrap().0.to_text(), "/srv/dist/index.html");
}

#[test]
fn wasm_files_are_application_wasm() {
    let r = request("/app.wasm", None).default_response(&served());
    assert!(r.status == Status::Success);
    assert_eq!(r.body.unwrap().2, "application/wasm");
    assert_eq!(content_type(&FsPath::new("/x/y.wasm")), "application/wasm");
}

#[test]
fn directory_falls_back_to_index_htm() {
    match request("/docs/", None).resolve(&served()) {
        Ok(Resolution::Found { path, len, .. }) => {
            assert_eq!(path.to_text(), "/srv/dist/docs/index.htm");
            assert_eq!(len, 3);
        }
        _ => panic!("expected a file"),
    }
}

#[test]
fn directory_without_index_is_an_error() {
    match request("/empty", None).resolve(&served()) {
        Err(ResolveError::NoIndex { dir }) => assert_eq!(dir.to_text(), "/srv/dist/empty"),
        _ => panic!("expected a missing index"),
    }
    let r = request("/empty", None).default_response(&served());
    assert_eq!(r.head(), "HTTP/1.1 500 INTERNAL SERVER ERROR\r\n\r\n");
}

#[test]
fn climbing_out_is_refused() {
    assert!(matches!(request("/../etc/passwd", None).resolve(&served()), Err(ResolveError::Traversal)));
    assert!(request("/a/../../x", None).default_response(&served()).status == Status::InternalServerError);
}

#[test]
fn probe_paths_name_what_decides() {
    let probes = request("/docs", Some("404.html")).probe_paths();
    let texts: Vec<String> = probes.iter().map(|p| p.to_text()).collect();
    assert_eq!(
        texts,
        vec![
            "/srv/dist/docs".to_string(),
            "/srv/dist/docs/index.html".to_string(),
            "/srv/dist/docs/index.htm".to_string(),
            "/srv/dist/404.html".to_string(),
        ]
    );
    assert_eq!(request("/", None).probe_paths().len(), 3);
}

#[test]
fn content_types_by_extension() {
    assert_eq!(content_type(&FsPath::new("a.html")), "text/html;charset=utf-8");
    assert_eq!(content_type(&FsPath::new("a.css")), "text/css;charset=utf-8");
    assert_eq!(content_type(&FsPath::new("a.js")), "application/javascript");
    assert_eq!(content_type(&FsPath::new("a.png")), "application/octet-stream");
    assert_eq!(content_type(&FsPath::new("Makefile")), "application/octet-stream");
    assert_eq!(content_type(&FsPath::new(".html")), "application/octet-stream");
}

#[test]
fn request_path_is_second_word_without_query() {
    assert_eq!(parse_request_path("GET /index.html HTTP/1.1\r\nHost: x\r\n\r\n").unwrap(), "/index.html");
    assert_eq!(parse_request_path("GET /app.js?v=3 HTTP/1.1\r\n\r\n").unwrap(), "/app.js");
    assert_eq!(parse_request_path("GET   /spaced\tHTTP/1.1\r\n").unwrap(), "/spaced");
    assert!(parse_request_path("GET\r\n/late HTTP/1.1\r\n") == Err(RequestError::MissingPath));
    assert!(parse_request_path("") == Err(RequestError::MissingPath));
}

#[test]
fn header_reader_stops_at_blank_line() {
    let mut reader = HeaderReader::new();
    assert!(reader.step(b"GET / HTTP/1.1\r\nHost: a\r\n") == HeaderStep::More { consume: 25 });
    assert!(reader.step(b"\r\nbody") == HeaderStep::Done { consume: 2 });
    assert_eq!(reader.bytes, b"GET / HTTP/1.1\r\nHost: a\r\n\r\n".to_vec());
}

#[test]
fn header_reader_reports_eof_and_size() {
    let mut reader = HeaderReader::new();
    assert!(reader.step(b"") == HeaderStep::UnexpectedEof);
    let big = vec![b'a'; 65537];
    let mut reader = HeaderReader::new();
    assert!(reader.step(&big) == HeaderStep::TooLarge);
    assert!(reader.bytes.is_empty());
}

#[test]
fn response_heads() {
    assert_eq!(response_head(Status::BadRequest, None), "HTTP/1.1 400 BAD REQUEST\r\n\r\n");
    assert_eq!(
        response_head(Status::Success, Some((1234567, "application/wasm"))),
        "HTTP/1.1 200 OK\r\nContent-Length: 1234567\r\nContent-Type: application/wasm\r\n\r\n"
    );
    assert_eq!(
        response_head(Status::Success, Some((0, "text/css;charset=utf-8"))),
        "HTTP/1.1 200 OK\r\nContent-Length: 0\r\nContent-Type: text/css;charset=utf-8\r\n\r\n"
    );
}

#[test]
fn dev_server_defaults_and_builders() {
    let server = DevServer::new();
    assert!(matches!(server.ip, IpAddr::V4([127, 0, 0, 1])));
    assert_eq!(server.port, 8000);
    assert!(server.command.is_none());

    let server = DevServer::new().address(IpAddr::V4([0, 0, 0, 0]), 9000).arg("dist");
    assert_eq!(server.port, 9000);
    let command = server.command.as_ref().unwrap();
    assert!(matches!(command.program, Program::Xtask));
    assert_eq!(command.args, vec!["dist".to_string()]);
}

#[test]
fn background_watch_excludes_served_directory() {
    let dist = FsPath::new("/srv/dist");
    assert!(DevServer::new().background_watch(&dist).is_none());

    let server = DevServer::new().command(CommandSpec::new("make")).args(vec!["a".to_string(), "b".to_string()]);
    let (watch, command) = server.background_watch(&dist).unwrap();
    assert_eq!(watch.exclude_paths.len(), 1);
    assert_eq!(watch.exclude_paths[0].to_text(), "/srv/dist");
    assert!(matches!(command.program, Program::Named { ref name } if name == "make"));
    assert_eq!(command.args, vec!["a".to_string(), "b".to_string()]);
}

#[test]
fn parent_components_inside_the_root_are_resolved() {
    assert_eq!(head_of("/a/../m", None), "HTTP/1.1 404 NOT FOUND\r\n\r\n");
    assert_eq!(
        head_of("/docs/../app.js", None),
        "HTTP/1.1 200 OK\r\nContent-Length: 10\r\nContent-Type: application/javascript\r\n\r\n"
    );
    match request("/x/../docs/", None).resolve(&served()) {
        Ok(Resolution::Found { path, .. }) => assert_eq!(path.to_text(), "/srv/dist/docs/index.htm"),
        _ => panic!("expected the directory's index"),
    }
    let r = request("/a/../missing", Some("index.html")).default_response(&served());
    assert!(r.status == Status::Success);
    assert_eq!(r.body.unwrap().0.to_text(), "/srv/dist/index.html");
}

#[test]
fn paths_leading_out_have_nothing_to_probe() {
    assert!(request("/a/../../etc/passwd", None).probe_paths().is_empty());
    assert!(request("/a/../b", None).full_path().is_some());
    assert!(request("/..", None).full_path().is_none());
}
