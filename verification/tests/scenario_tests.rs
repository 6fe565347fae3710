//! End-to-end scenarios driven through the facade and the engine, with an
//! in-memory driver standing in for the host's disk and the real `zip`
//! crate opening nested archives.

use evfs::engine::handle_msg;
use evfs::progress::ProgressSender;
use evfs::{EntryType, Evfs, RecvMsg, SendMsg, VfsDriver, VfsError, ZipFs};

#[derive(Clone)]
struct MemVolume {
    source: String,
    files: Vec<(String, Vec<u8>)>,
    dirs: Vec<String>,
}

/// A deterministic in-memory stand-in for a directory driver: a template
/// knows a set of volumes by source name, an instance is bound to one of
/// them. Like a directory driver it recognizes every extension and cannot
/// open blobs.
#[derive(Clone)]
struct MemDriver {
    volumes: Vec<MemVolume>,
    bound: Option<usize>,
}

impl MemDriver {
    fn template(volumes: Vec<MemVolume>) -> MemDriver {
        MemDriver { volumes, bound: None }
    }
}

impl VfsDriver for MemDriver {
    fn has_entry(&self, path: &str) -> EntryType {
        let b = match self.bound {
            Some(b) => b,
            None => return EntryType::NotFound,
        };
        let v = &self.volumes[b];
        if v.files.iter().any(|(n, _)| n == path) {
            EntryType::File
        } else if v.dirs.iter().any(|d| d == path) {
            EntryType::Directory
        } else {
            EntryType::NotFound
        }
    }

    fn can_decompress(&self, _data: &[u8]) -> bool {
        false
    }

    fn supports_file_ext(&self, _file_ext: &str) -> bool {
        true
    }

    fn can_mount(&self, _target: &str, source: &str) -> Result<(), VfsError> {
        if self.volumes.iter().any(|v| v.source == source) {
            Ok(())
        } else {
            Err(VfsError::UnsupportedMount { mount: source.to_string() })
        }
    }

    fn canonicalize_source(&self, source: &str) -> Result<String, VfsError> {
        Ok(source.to_string())
    }

    fn new_from_path(&self, path: &str) -> Result<MemDriver, VfsError> {
        match self.volumes.iter().position(|v| v.source == path) {
            Some(i) => Ok(MemDriver { volumes: self.volumes.clone(), bound: Some(i) }),
            None => Err(VfsError::UnsupportedMount { mount: path.to_string() }),
        }
    }

    fn new_from_blob(&self, _data: Vec<u8>) -> Result<MemDriver, VfsError> {
        Err(VfsError::UnsupportedMount { mount: String::new() })
    }

    fn load_file(&self, path: &str, progress: &mut ProgressSender) -> Result<Vec<u8>, VfsError> {
        let _ = progress.send_progress(0);
        let b = match self.bound {
            Some(b) => b,
            None => return Err(VfsError::FileError { detail: "unbound".to_string() }),
        };
        match self.volumes[b].files.iter().find(|(n, _)| n == path) {
            Some((_, data)) => Ok(data.clone()),
            None => Err(VfsError::FileError { detail: "no such entry".to_string() }),
        }
    }
}

/// A toy container format recognized by content alone: two magic bytes
/// followed by the payload, which is served under the entry name `inner`.
#[derive(Clone)]
struct MagicDriver {
    payload: Option<Vec<u8>>,
}

const MAGIC: [u8; 2] = [0xAA, 0x55];

impl VfsDriver for MagicDriver {
    fn has_entry(&self, path: &str) -> EntryType {
        if self.payload.is_some() && path == "inner" {
            EntryType::File
        } else {
            EntryType::NotFound
        }
    }

    fn can_decompress(&self, data: &[u8]) -> bool {
        data.len() >= 2 && data[0] == MAGIC[0] && data[1] == MAGIC[1]
    }

    fn supports_file_ext(&self, _file_ext: &str) -> bool {
        false
    }

    fn can_mount(&self, _target: &str, source: &str) -> Result<(), VfsError> {
        Err(VfsError::UnsupportedMount { mount: source.to_string() })
    }

    fn canonicalize_source(&self, source: &str) -> Result<String, VfsError> {
        Ok(source.to_string())
    }

    fn new_from_path(&self, path: &str) -> Result<MagicDriver, VfsError> {
        Err(VfsError::UnsupportedMount { mount: path.to_string() })
    }

    fn new_from_blob(&self, data: Vec<u8>) -> Result<MagicDriver, VfsError> {
        if data.len() >= 2 && data[0] == MAGIC[0] && data[1] == MAGIC[1] {
            Ok(MagicDriver { payload: Some(data[2..].to_vec()) })
        } else {
            Err(VfsError::UnsupportedMount { mount: String::new() })
        }
    }

    fn load_file(&self, path: &str, progress: &mut ProgressSender) -> Result<Vec<u8>, VfsError> {
        let _ = progress.send_progress(0);
        match &self.payload {
            Some(p) if path == "inner" => Ok(p.clone()),
            _ => Err(VfsError::FileError { detail: "no such entry".to_string() }),
        }
    }
}

/// The built-in registry shape: an in-memory "local" driver plus the
/// archive driver, dispatched as one clonable value.
#[derive(Clone)]
enum TestDriver {
    Mem(MemDriver),
    Zip(ZipFs),
    Magic(MagicDriver),
}

impl VfsDriver for TestDriver {
    fn has_entry(&self, path: &str) -> EntryType {
        match self {
            TestDriver::Mem(m) => m.has_entry(path),
            TestDriver::Zip(z) => {
                if z.is_blob_bound() {
                    z.has_entry(path)
                } else {
                    EntryType::NotFound
                }
            }
            TestDriver::Magic(m) => m.has_entry(path),
        }
    }

    fn can_decompress(&self, data: &[u8]) -> bool {
        match self {
            TestDriver::Mem(m) => m.can_decompress(data),
            TestDriver::Zip(z) => z.can_decompress(data),
            TestDriver::Magic(m) => m.can_decompress(data),
        }
    }

    fn supports_file_ext(&self, file_ext: &str) -> bool {
        match self {
            TestDriver::Mem(m) => m.supports_file_ext(file_ext),
            TestDriver::Zip(z) => z.supports_file_ext(file_ext),
            TestDriver::Magic(m) => m.supports_file_ext(file_ext),
        }
    }

    fn can_mount(&self, target: &str, source: &str) -> Result<(), VfsError> {
        match self {
            TestDriver::Mem(m) => m.can_mount(target, source),
            TestDriver::Zip(_) | TestDriver::Magic(_) => {
                Err(VfsError::UnsupportedMount { mount: source.to_string() })
            }
        }
    }

    fn canonicalize_source(&self, source: &str) -> Result<String, VfsError> {
        Ok(source.to_string())
    }

    fn new_from_path(&self, path: &str) -> Result<TestDriver, VfsError> {
        match self {
            TestDriver::Mem(m) => m.new_from_path(path).map(TestDriver::Mem),
            TestDriver::Zip(z) => Ok(TestDriver::Zip(z.new_from_path(path))),
            TestDriver::Magic(m) => m.new_from_path(path).map(TestDriver::Magic),
        }
    }

    fn new_from_blob(&self, data: Vec<u8>) -> Result<TestDriver, VfsError> {
        match self {
            TestDriver::Mem(m) => m.new_from_blob(data).map(TestDriver::Mem),
            TestDriver::Zip(z) => Ok(TestDriver::Zip(z.new_from_blob(data))),
            TestDriver::Magic(m) => m.new_from_blob(data).map(TestDriver::Magic),
        }
    }

    fn load_file(&self, path: &str, progress: &mut ProgressSender) -> Result<Vec<u8>, VfsError> {
        match self {
            TestDriver::Mem(m) => m.load_file(path, progress),
            TestDriver::Zip(z) => {
                if z.is_blob_bound() {
                    z.load_file(path, progress)
                } else {
                    Err(VfsError::FileError { detail: "archive is not bound".to_string() })
                }
            }
            TestDriver::Magic(m) => m.load_file(path, progress),
        }
    }
}

fn new_evfs(
    drivers: Vec<TestDriver>,
) -> (Evfs<TestDriver>, crossbeam_channel::Receiver<SendMsg<TestDriver>>) {
    let (tx, rx) = crossbeam_channel::unbounded();
    (Evfs::new(tx, drivers), rx)
}

/// Enqueue a load, run the dispatched request to completion, and collect
/// everything the handle observes.
fn run_request(
    evfs: &Evfs<TestDriver>,
    rx: &crossbeam_channel::Receiver<SendMsg<TestDriver>>,
    path: &str,
) -> Vec<RecvMsg> {
    let handle = evfs.load_file(path);
    let msg = rx.try_recv().expect("the request should be enqueued");
    let _ = handle_msg(msg);
    let mut out = Vec::new();
    while let Ok(m) = handle.recv.try_recv() {
        out.push(m);
    }
    out
}

/// Every observed stream holds zero or more monotone in-range progress
/// messages followed by exactly one terminal message.
fn assert_stream_shape(msgs: &[RecvMsg]) {
    assert!(!msgs.is_empty(), "a completed request must produce a terminal message");
    let mut last: u32 = 0;
    for (k, m) in msgs.iter().enumerate() {
        if k + 1 < msgs.len() {
            match m {
                RecvMsg::ReadProgress(p) => {
                    assert!(*p <= 100, "progress above 100");
                    assert!(*p >= last, "progress went backwards");
                    last = *p;
                }
                _ => panic!("a terminal message must be the last one"),
            }
        } else {
            assert!(
                !matches!(m, RecvMsg::ReadProgress(_)),
                "the stream must end in a terminal message"
            );
        }
    }
}

fn done_bytes(msgs: &[RecvMsg]) -> &[u8] {
    match msgs.last().expect("terminal expected") {
        RecvMsg::ReadDone(d) => d.as_slice(),
        other => panic!("expected ReadDone, got {:?}", other),
    }
}

fn terminal_error(msgs: &[RecvMsg]) -> &VfsError {
    match msgs.last().expect("terminal expected") {
        RecvMsg::Error(e) => e,
        other => panic!("expected Error, got {:?}", other),
    }
}

fn hello_volume() -> MemVolume {
    MemVolume {
        source: "vol".to_string(),
        files: vec![("hello.txt".to_string(), b"hi\n".to_vec())],
        dirs: vec!["subdir".to_string()],
    }
}

fn zip_bytes(entries: &[(&str, &[u8])]) -> Vec<u8> {
    let mut w = zip::ZipWriter::new(std::io::Cursor::new(Vec::new()));
    for (name, data) in entries {
        w.start_file(*name, zip::write::SimpleFileOptions::default()).unwrap();
        std::io::Write::write_all(&mut w, data).unwrap();
    }
    w.finish().unwrap().into_inner()
}

#[test]
fn local_file_read() {
    let (mut evfs, rx) = new_evfs(vec![TestDriver::Mem(MemDriver::template(vec![
        hello_volume(),
    ]))]);
    evfs.mount("/test", "vol").unwrap();
    let msgs = run_request(&evfs, &rx, "/test/hello.txt");
    assert_stream_shape(&msgs);
    assert_eq!(done_bytes(&msgs), &[0x68, 0x69, 0x0a]);
}

#[test]
fn missing_file_yields_path_not_found() {
    let (mut evfs, rx) = new_evfs(vec![TestDriver::Mem(MemDriver::template(vec![
        hello_volume(),
    ]))]);
    evfs.mount("/test", "vol").unwrap();
    let msgs = run_request(&evfs, &rx, "/test/nope.txt");
    assert_stream_shape(&msgs);
    assert!(matches!(
        terminal_error(&msgs),
        VfsError::PathNotFound { path } if path == "/test/nope.txt"
    ));
}

#[test]
fn no_mount_yields_invalid_mount() {
    let (evfs, rx) = new_evfs(vec![TestDriver::Mem(MemDriver::template(vec![]))]);
    let msgs = run_request(&evfs, &rx, "/x/y");
    assert_stream_shape(&msgs);
    assert_eq!(msgs.len(), 1);
    assert!(matches!(
        terminal_error(&msgs),
        VfsError::InvalidMount { path } if path == "/x/y"
    ));
}

#[test]
fn directory_terminal_yields_not_file() {
    let (mut evfs, rx) = new_evfs(vec![TestDriver::Mem(MemDriver::template(vec![
        hello_volume(),
    ]))]);
    evfs.mount("/test", "vol").unwrap();
    let msgs = run_request(&evfs, &rx, "/test/subdir");
    assert_stream_shape(&msgs);
    assert!(matches!(
        terminal_error(&msgs),
        VfsError::NotFile { path } if path == "/test/subdir"
    ));
}

#[test]
fn nested_archive_load() {
    let bundle = zip_bytes(&[("inner/readme.md", b"ok")]);
    let volume = MemVolume {
        source: "data-dir".to_string(),
        files: vec![("bundle.zip".to_string(), bundle)],
        dirs: vec![],
    };
    let (mut evfs, rx) = new_evfs(vec![
        TestDriver::Mem(MemDriver::template(vec![volume])),
        TestDriver::Zip(ZipFs::new()),
    ]);
    evfs.mount("/data", "data-dir").unwrap();
    let msgs = run_request(&evfs, &rx, "/data/bundle.zip/inner/readme.md");
    assert_stream_shape(&msgs);
    assert_eq!(done_bytes(&msgs), &[0x6f, 0x6b]);
}

#[test]
fn nested_archive_without_archive_driver() {
    let bundle = zip_bytes(&[("inner/readme.md", b"ok")]);
    let volume = MemVolume {
        source: "data-dir".to_string(),
        files: vec![("bundle.zip".to_string(), bundle)],
        dirs: vec![],
    };
    let (mut evfs, rx) = new_evfs(vec![TestDriver::Mem(MemDriver::template(vec![volume]))]);
    evfs.mount("/data", "data-dir").unwrap();
    let msgs = run_request(&evfs, &rx, "/data/bundle.zip/inner/readme.md");
    assert_stream_shape(&msgs);
    assert!(matches!(
        terminal_error(&msgs),
        VfsError::DecompressorNotFound { path } if path == "/data/bundle.zip/inner/readme.md"
    ));
}

#[test]
fn overlay_precedence_uses_later_mount() {
    let volume_a = MemVolume {
        source: "A".to_string(),
        files: vec![("f".to_string(), b"from-a".to_vec())],
        dirs: vec![],
    };
    let volume_b = MemVolume {
        source: "B".to_string(),
        files: vec![("f".to_string(), b"from-b".to_vec())],
        dirs: vec![],
    };
    let (mut evfs, rx) = new_evfs(vec![TestDriver::Mem(MemDriver::template(vec![
        volume_a, volume_b,
    ]))]);
    evfs.mount("/m", "A").unwrap();
    evfs.mount("/m", "B").unwrap();
    let msgs = run_request(&evfs, &rx, "/m/f");
    assert_stream_shape(&msgs);
    assert_eq!(done_bytes(&msgs), b"from-b");
}

#[test]
fn longest_target_wins_over_registration_order() {
    let volume_a = MemVolume {
        source: "A".to_string(),
        files: vec![("b/f".to_string(), b"outer".to_vec())],
        dirs: vec![],
    };
    let volume_b = MemVolume {
        source: "B".to_string(),
        files: vec![("f".to_string(), b"inner".to_vec())],
        dirs: vec![],
    };
    let (mut evfs, rx) = new_evfs(vec![TestDriver::Mem(MemDriver::template(vec![
        volume_a, volume_b,
    ]))]);
    evfs.mount("/m/b", "B").unwrap();
    evfs.mount("/m", "A").unwrap();
    let msgs = run_request(&evfs, &rx, "/m/b/f");
    assert_stream_shape(&msgs);
    assert_eq!(done_bytes(&msgs), b"inner");
}

#[test]
fn mount_snapshot_isolates_request() {
    let volume_a = MemVolume {
        source: "A".to_string(),
        files: vec![("f".to_string(), b"from-a".to_vec())],
        dirs: vec![],
    };
    let volume_b = MemVolume {
        source: "B".to_string(),
        files: vec![("f".to_string(), b"from-b".to_vec())],
        dirs: vec![],
    };
    let (mut evfs, rx) = new_evfs(vec![TestDriver::Mem(MemDriver::template(vec![
        volume_a, volume_b,
    ]))]);
    evfs.mount("/m", "A").unwrap();
    // enqueue against the table as of now...
    let handle = evfs.load_file("/m/f");
    // ...then overlay the target before the request runs
    evfs.mount("/m", "B").unwrap();
    let msg = rx.try_recv().unwrap();
    let _ = handle_msg(msg);
    let mut msgs = Vec::new();
    while let Ok(m) = handle.recv.try_recv() {
        msgs.push(m);
    }
    assert_stream_shape(&msgs);
    assert_eq!(done_bytes(&msgs), b"from-a");
}

#[test]
fn repeated_load_yields_equal_bytes() {
    let (mut evfs, rx) = new_evfs(vec![TestDriver::Mem(MemDriver::template(vec![
        hello_volume(),
    ]))]);
    evfs.mount("/test", "vol").unwrap();
    let first = run_request(&evfs, &rx, "/test/hello.txt");
    let second = run_request(&evfs, &rx, "/test/hello.txt");
    assert_stream_shape(&first);
    assert_stream_shape(&second);
    assert_eq!(done_bytes(&first), done_bytes(&second));
}

#[test]
fn depth_bound_fails_deep_nesting() {
    let mut blob = zip_bytes(&[("f", b"x")]);
    for _ in 0..101 {
        blob = zip_bytes(&[("a.zip", &blob)]);
    }
    let volume = MemVolume {
        source: "deep".to_string(),
        files: vec![("a.zip".to_string(), blob)],
        dirs: vec![],
    };
    let (mut evfs, rx) = new_evfs(vec![
        TestDriver::Mem(MemDriver::template(vec![volume])),
        TestDriver::Zip(ZipFs::new()),
    ]);
    evfs.mount("/m", "deep").unwrap();
    let mut path = String::from("/m/");
    for _ in 0..102 {
        path.push_str("a.zip/");
    }
    path.push_str("f");
    let msgs = run_request(&evfs, &rx, &path);
    assert_stream_shape(&msgs);
    assert!(matches!(terminal_error(&msgs), VfsError::DecompressorNotFound { .. }));
}

#[test]
fn moderate_nesting_still_loads() {
    let mut blob = zip_bytes(&[("f", b"deep-ok")]);
    for _ in 0..5 {
        blob = zip_bytes(&[("a.zip", &blob)]);
    }
    let volume = MemVolume {
        source: "deep".to_string(),
        files: vec![("a.zip".to_string(), blob)],
        dirs: vec![],
    };
    let (mut evfs, rx) = new_evfs(vec![
        TestDriver::Mem(MemDriver::template(vec![volume])),
        TestDriver::Zip(ZipFs::new()),
    ]);
    evfs.mount("/m", "deep").unwrap();
    let mut path = String::from("/m/");
    for _ in 0..6 {
        path.push_str("a.zip/");
    }
    path.push_str("f");
    let msgs = run_request(&evfs, &rx, &path);
    assert_stream_shape(&msgs);
    assert_eq!(done_bytes(&msgs), b"deep-ok");
}

#[test]
fn zero_depth_budget_rejects() {
    // with no nesting budget at all, the walk gives the path up as
    // unresolvable before consulting any driver
    let bound = MemDriver::template(vec![hello_volume()]).new_from_path("vol").unwrap();
    let drivers: Vec<TestDriver> = vec![];
    let (tx, _rx) = crossbeam_channel::unbounded();
    let mut sink = ProgressSender::new(tx);
    let (r, _containers) = evfs::engine::load_file(
        &TestDriver::Mem(bound),
        "hello.txt",
        &drivers,
        0,
        &mut sink,
        "/test/hello.txt",
    );
    assert!(matches!(
        r,
        Err(VfsError::DecompressorNotFound { path }) if path == "/test/hello.txt"
    ));
}

#[test]
fn invalid_root_path_is_rejected() {
    let (mut evfs, _rx) = new_evfs(vec![TestDriver::Mem(MemDriver::template(vec![
        hello_volume(),
    ]))]);
    let r = evfs.mount("no-slash", "vol");
    assert!(matches!(r, Err(VfsError::InvalidRootPath { path }) if path == "no-slash"));
    assert_eq!(evfs.mounts.len(), 0);
}

#[test]
fn unknown_source_yields_no_driver_support() {
    let (mut evfs, _rx) = new_evfs(vec![TestDriver::Mem(MemDriver::template(vec![
        hello_volume(),
    ]))]);
    let r = evfs.mount("/test", "no-such-volume");
    assert!(matches!(r, Err(VfsError::NoDriverSupport)));
    assert_eq!(evfs.mounts.len(), 0);
}

#[test]
fn installed_driver_extends_registry() {
    let bundle = zip_bytes(&[("inner/readme.md", b"ok")]);
    let volume = MemVolume {
        source: "data-dir".to_string(),
        files: vec![("bundle.zip".to_string(), bundle)],
        dirs: vec![],
    };
    let (mut evfs, rx) = new_evfs(vec![TestDriver::Mem(MemDriver::template(vec![volume]))]);
    evfs.install_driver(TestDriver::Zip(ZipFs::new()));
    evfs.mount("/data", "data-dir").unwrap();
    let msgs = run_request(&evfs, &rx, "/data/bundle.zip/inner/readme.md");
    assert_stream_shape(&msgs);
    assert_eq!(done_bytes(&msgs), b"ok");
}

#[test]
fn content_probe_selects_decompressor() {
    // the container is recognized by its magic bytes, not its name; the
    // universal extension match of the in-memory driver is skipped because
    // it cannot bind to a blob
    let container = vec![0xAA, 0x55, 0x01, 0x02, 0x03];
    let volume = MemVolume {
        source: "vol".to_string(),
        files: vec![("c.bin".to_string(), container)],
        dirs: vec![],
    };
    let (mut evfs, rx) = new_evfs(vec![
        TestDriver::Mem(MemDriver::template(vec![volume])),
        TestDriver::Magic(MagicDriver { payload: None }),
    ]);
    evfs.mount("/m", "vol").unwrap();
    let msgs = run_request(&evfs, &rx, "/m/c.bin/inner");
    assert_stream_shape(&msgs);
    assert_eq!(done_bytes(&msgs), &[0x01, 0x02, 0x03]);
}

#[test]
fn root_mount_resolves() {
    // the root target ends in its own separator, so the suffix starts
    // right after it
    let (mut evfs, rx) = new_evfs(vec![TestDriver::Mem(MemDriver::template(vec![
        hello_volume(),
    ]))]);
    evfs.mount("/", "vol").unwrap();
    let msgs = run_request(&evfs, &rx, "/hello.txt");
    assert_stream_shape(&msgs);
    assert_eq!(done_bytes(&msgs), b"hi\n");
}

#[test]
fn mount_target_itself_resolves() {
    // the whole path may equal a mount target; the suffix is then empty
    let volume = MemVolume {
        source: "vol".to_string(),
        files: vec![("".to_string(), b"rooted".to_vec())],
        dirs: vec![],
    };
    let (mut evfs, rx) = new_evfs(vec![TestDriver::Mem(MemDriver::template(vec![volume]))]);
    evfs.mount("/test", "vol").unwrap();
    let msgs = run_request(&evfs, &rx, "/test");
    assert_stream_shape(&msgs);
    assert_eq!(done_bytes(&msgs), b"rooted");
}
