use bflib::logging::{level_from_env, write_outcome, LogBuffer, LogLevel, LogWriteError};

fn level(s: &str) -> LogLevel {
    level_from_env(Some(s.to_string()))
}

#[test]
fn unset_level_is_warn() {
    assert_eq!(level_from_env(None), LogLevel::Warn);
}

#[test]
fn named_levels() {
    assert_eq!(level("trace"), LogLevel::Trace);
    assert_eq!(level("debug"), LogLevel::Debug);
    assert_eq!(level("info"), LogLevel::Info);
    assert_eq!(level("error"), LogLevel::Error);
    assert_eq!(level("warn"), LogLevel::Warn);
    assert_eq!(level("off"), LogLevel::Off);
}

#[test]
fn level_names_ignore_case() {
    assert_eq!(level("TRACE"), LogLevel::Trace);
    assert_eq!(level("Debug"), LogLevel::Debug);
    assert_eq!(level("iNFo"), LogLevel::Info);
    assert_eq!(level("OFF"), LogLevel::Off);
}

#[test]
fn unknown_level_is_warn() {
    assert_eq!(level("verbose"), LogLevel::Warn);
    assert_eq!(level(""), LogLevel::Warn);
    assert_eq!(level(" trace"), LogLevel::Warn);
    assert_eq!(level("traces"), LogLevel::Warn);
}

#[test]
fn staging_hands_out_what_was_written() {
    let mut buf = LogBuffer::new();
    let a = buf.stage(b"first line\n");
    assert_eq!(&a[..], b"first line\n");
    let b = buf.stage(b"second");
    assert_eq!(&b[..], b"second");
    let c = buf.stage(b"");
    assert!(c.is_empty());
}

#[test]
fn write_outcomes() {
    assert_eq!(write_outcome(true, 17), Ok(17));
    assert_eq!(write_outcome(true, 0), Ok(0));
    assert_eq!(write_outcome(false, 17), Err(LogWriteError::BackendDead));
    assert_eq!(LogWriteError::BackendDead.message(), "backend dead");
}

#[test]
fn successive_writes_stay_separate() {
    let mut buf = LogBuffer::new();
    let writes: [&[u8]; 4] = [b"alpha\n", b"", b"beta", b"gamma\n"];
    let chunks: Vec<Vec<u8>> = writes.iter().map(|w| buf.stage(w).to_vec()).collect();
    for (c, w) in chunks.iter().zip(writes.iter()) {
        assert_eq!(&c[..], *w);
    }
    assert_eq!(chunks.concat(), b"alpha\nbetagamma\n".to_vec());
}
