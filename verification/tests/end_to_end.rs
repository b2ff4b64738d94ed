use futures::StreamExt;

use restate_opendal::backend::failure_of;
use restate_opendal::config::{ConfigMap, ProfileTable};
use restate_opendal::copy::{prepare_copy, CopyAction, CopyMachine, CopyRequest};
use restate_opendal::factory::{resolve, OperatorFactory};
use restate_opendal::outcome::{BackendFailure, Outcome};
use restate_opendal::service::{
    EntryMode, Entry, ListResponse, Metadata, PresignRequest, PresignResponse, StatOptions,
};

fn rt() -> tokio::runtime::Runtime {
    tokio::runtime::Builder::new_current_thread().enable_all().build().unwrap()
}

fn memory_profiles() -> OperatorFactory {
    let mut p = ConfigMap::new();
    p.set("type".to_string(), "memory".to_string());
    let mut t = ProfileTable::new();
    t.set("data".to_string(), p);
    OperatorFactory::Profiles(t)
}

fn lib_meta(m: &opendal::Metadata) -> Metadata {
    let mut out = Metadata::with_mode(match m.mode() {
        opendal::EntryMode::FILE => EntryMode::File,
        opendal::EntryMode::DIR => EntryMode::Dir,
        opendal::EntryMode::Unknown => EntryMode::Unknown,
    });
    out.content_length = Some(m.content_length());
    out.content_type = m.content_type().map(|s| s.to_string());
    out.content_disposition = m.content_disposition().map(|s| s.to_string());
    out.etag = m.etag().map(|s| s.to_string());
    out
}

fn stat_event(
    rt: &tokio::runtime::Runtime,
    op: &opendal::Operator,
    path: &str,
) -> Result<Metadata, BackendFailure> {
    match rt.block_on(op.stat(path)) {
        Ok(m) => Ok(lib_meta(&m)),
        Err(e) => Err(failure_of(&e)),
    }
}

/// Drive the copy machine against two real backends, reading the source in
/// one chunk.
fn run_copy(
    rt: &tokio::runtime::Runtime,
    src_op: &opendal::Operator,
    src_path: &str,
    dst_op: &opendal::Operator,
    dst_path: &str,
) -> Result<(), Outcome> {
    let (m, a) = CopyMachine::new(src_path.to_string(), dst_path.to_string());
    assert!(matches!(a, CopyAction::StatSource));
    let (m, a) = m.source_stat(stat_event(rt, src_op, src_path));
    if let CopyAction::Fail { outcome } = a {
        return Err(outcome);
    }
    assert!(matches!(a, CopyAction::StatDestination));
    let (m, a) = m.dest_stat(stat_event(rt, dst_op, dst_path));
    let (real_path, content_type) = match a {
        CopyAction::OpenStreams { real_path, content_type } => (real_path, content_type),
        CopyAction::Fail { outcome } => return Err(outcome),
        _ => panic!("protocol violation"),
    };
    // open the source (read fully, fed as one chunk) and the writer
    let source_bytes = rt.block_on(src_op.read(src_path));
    let mut write_options = opendal::options::WriteOptions::default();
    write_options.content_type = content_type;
    let writer = rt.block_on(dst_op.writer_options(&real_path, write_options));
    let (mut m, mut action, mut writer, mut remaining) = match (source_bytes, writer) {
        (Ok(buf), Ok(w)) => {
            let (m, a) = m.streams_opened(None);
            (m, a, w, Some(buf.to_vec()))
        },
        (Err(e), _) => {
            let (_, a) = m.streams_opened(Some(failure_of(&e)));
            match a {
                CopyAction::Fail { outcome } => return Err(outcome),
                _ => panic!("protocol violation"),
            }
        },
        (_, Err(e)) => {
            let (_, a) = m.streams_opened(Some(failure_of(&e)));
            match a {
                CopyAction::Fail { outcome } => return Err(outcome),
                _ => panic!("protocol violation"),
            }
        },
    };
    loop {
        match action {
            CopyAction::Read => {
                let chunk = remaining.take();
                let (m2, a2) = m.chunk_read(Ok(chunk));
                m = m2;
                action = a2;
            },
            CopyAction::Write { data } => {
                let result = rt.block_on(writer.write(data));
                let event = match result {
                    Ok(()) => None,
                    Err(e) => Some(failure_of(&e)),
                };
                let (m2, a2) = m.chunk_written(event);
                m = m2;
                action = a2;
            },
            CopyAction::CloseWriter => {
                let result = rt.block_on(writer.close());
                let event = match result {
                    Ok(_) => None,
                    Err(e) => Some(failure_of(&e)),
                };
                let (m2, a2) = m.writer_closed(event);
                m = m2;
                action = a2;
            },
            CopyAction::Finish => return Ok(()),
            CopyAction::Fail { outcome } => return Err(outcome),
            _ => panic!("protocol violation"),
        }
    }
}

fn write_object(
    rt: &tokio::runtime::Runtime,
    op: &opendal::Operator,
    path: &str,
    content: &[u8],
    content_type: Option<&str>,
) {
    let mut options = opendal::options::WriteOptions::default();
    options.content_type = content_type.map(|s| s.to_string());
    let mut w = rt.block_on(op.writer_options(path, options)).unwrap();
    rt.block_on(w.write(content.to_vec())).unwrap();
    rt.block_on(w.close()).unwrap();
}

#[test]
fn list_on_an_empty_backend_returns_no_entries() {
    let rt = rt();
    let f = memory_profiles();
    let (path, op) =
        restate_opendal::service::parse_location(&f, "data://host/").expect("resolves");
    assert_eq!(path, "/");
    let mut lister = rt.block_on(op.lister(&path)).expect("root is listable");
    let mut response = ListResponse::new();
    while let Some(next) = rt.block_on(lister.next()) {
        let entry = next.expect("listing an empty backend should not fail");
        response.push_entry(Entry {
            path: entry.path().to_string(),
            metadata: lib_meta(entry.metadata()),
        });
    }
    assert!(response.entries.is_empty());
}

#[test]
fn presign_read_returns_a_get_of_a_nonempty_uri() {
    let rt = rt();
    let f = OperatorFactory::builtin();
    let op = resolve(&f, "http://example.com").expect("http is registered");
    let request: PresignRequest<StatOptions> = PresignRequest::example();
    assert_eq!(request.expiration, 3600);
    let presigned = rt
        .block_on(op.presign_read("/some/file", std::time::Duration::from_secs(request.expiration)))
        .expect("http presign needs no network");
    let response = PresignResponse {
        method: presigned.method().to_string(),
        uri: presigned.uri().to_string(),
        headers: presigned
            .header()
            .iter()
            .map(|(k, v)| (k.as_str().to_string(), v.to_str().unwrap_or_default().to_string()))
            .collect(),
    };
    assert_eq!(response.method, "GET");
    assert!(!response.uri.is_empty());
}

#[test]
fn copy_ten_bytes_preserves_content_and_content_type() {
    let rt = rt();
    let f = memory_profiles();
    let request = CopyRequest {
        source: "data://src/a/b/c.txt".to_string(),
        destination: "data://dst/out.txt".to_string(),
        options: None,
    };
    let prep = prepare_copy(&f, &request).expect("both roots resolve");
    assert_eq!(prep.source_path, "/a/b/c.txt");
    assert_eq!(prep.dest_path, "/out.txt");

    write_object(&rt, &prep.source_op, "/a/b/c.txt", b"0123456789", Some("text/plain"));
    run_copy(&rt, &prep.source_op, &prep.source_path, &prep.dest_op, &prep.dest_path)
        .expect("the copy should succeed");

    let read_back = rt.block_on(prep.dest_op.read("/out.txt")).unwrap().to_vec();
    assert_eq!(read_back, b"0123456789");
    let meta = rt.block_on(prep.dest_op.stat("/out.txt")).unwrap();
    assert_eq!(meta.content_length(), 10);
    assert_eq!(meta.content_type(), Some("text/plain"));
}

#[test]
fn copy_to_missing_and_to_existing_file_read_back_the_same() {
    let rt = rt();
    let f = memory_profiles();
    let src_op = resolve(&f, "data://src").unwrap();
    let dst_op = resolve(&f, "data://dst").unwrap();
    write_object(&rt, &src_op, "s.bin", b"payload-bytes", None);
    // destination path does not exist
    run_copy(&rt, &src_op, "s.bin", &dst_op, "fresh.bin").expect("copy to a fresh path");
    // destination path exists as a file with different content
    write_object(&rt, &dst_op, "taken.bin", b"old-content-here", None);
    run_copy(&rt, &src_op, "s.bin", &dst_op, "taken.bin").expect("copy over a file");

    let fresh = rt.block_on(dst_op.read("fresh.bin")).unwrap().to_vec();
    let taken = rt.block_on(dst_op.read("taken.bin")).unwrap().to_vec();
    assert_eq!(fresh, b"payload-bytes");
    assert_eq!(taken, fresh);
}

#[test]
fn copy_into_the_root_directory_appends_the_file_name() {
    let rt = rt();
    let f = memory_profiles();
    let src_op = resolve(&f, "data://src").unwrap();
    let dst_op = resolve(&f, "data://dst").unwrap();
    write_object(&rt, &src_op, "a/b/c.txt", b"dir-dest", None);
    // the memory backend's root always stats as a directory
    run_copy(&rt, &src_op, "a/b/c.txt", &dst_op, "/").expect("copy into a directory");
    let read_back = rt.block_on(dst_op.read("/c.txt")).unwrap().to_vec();
    assert_eq!(read_back, b"dir-dest");
}

#[test]
fn copying_a_directory_source_fails_permanently() {
    let rt = rt();
    let f = memory_profiles();
    let src_op = resolve(&f, "data://src").unwrap();
    let dst_op = resolve(&f, "data://dst").unwrap();
    match run_copy(&rt, &src_op, "/", &dst_op, "out") {
        Err(Outcome::Permanent { code, message }) => {
            assert_eq!(code, 501);
            assert_eq!(message, "copying directories is not supported");
        },
        _ => panic!("a directory source must fail permanently"),
    }
}

#[test]
fn copying_a_missing_source_classifies_not_found() {
    let rt = rt();
    let f = memory_profiles();
    let src_op = resolve(&f, "data://src").unwrap();
    let dst_op = resolve(&f, "data://dst").unwrap();
    match run_copy(&rt, &src_op, "missing.txt", &dst_op, "out") {
        Err(Outcome::Permanent { code, .. }) => assert_eq!(code, 404),
        _ => panic!("a missing source must classify as not found"),
    }
}
