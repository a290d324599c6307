//! The log level that the environment asks for, and the buffer that log
//! lines pass through on their way to the background writer.
use bytes::{Bytes, BytesMut};
use vstd::prelude::*;

verus! {

/// How much the logger records, from nothing to everything.
#[derive(Clone, Copy, Debug, PartialEq, Eq, Structural)]
pub enum LogLevel {
    Off,
    Error,
    Warn,
    Info,
    Debug,
    Trace,
}

/// A character with ASCII upper case letters mapped to lower case.
pub open spec fn ascii_lower(c: char) -> char {
    if 'A' <= c <= 'Z' {
        ((c as u32) + 32) as char
    } else {
        c
    }
}

/// A text with ASCII upper case letters mapped to lower case.
pub open spec fn ascii_lower_text(s: Seq<char>) -> Seq<char> {
    s.map_values(|c: char| ascii_lower(c))
}

/// The level that a `RUST_LOG` value names, ignoring ASCII case. An absent
/// value, or one that names no level, asks for warnings.
pub open spec fn level_named(var: Option<Seq<char>>) -> LogLevel {
    match var {
        None => LogLevel::Warn,
        Some(s) => {
            let l = ascii_lower_text(s);
            if l == "trace"@ {
                LogLevel::Trace
            } else if l == "debug"@ {
                LogLevel::Debug
            } else if l == "info"@ {
                LogLevel::Info
            } else if l == "error"@ {
                LogLevel::Error
            } else if l == "warn"@ {
                LogLevel::Warn
            } else if l == "off"@ {
                LogLevel::Off
            } else {
                LogLevel::Warn
            }
        },
    }
}

/// The six names of log levels, in lower case.
pub open spec fn is_level_name(l: Seq<char>) -> bool {
    l == "trace"@ || l == "debug"@ || l == "info"@ || l == "error"@ || l == "warn"@ || l == "off"@
}

/// A value names a level exactly when its lower case form is that level's
/// name; every other value, and an absent one, asks for warnings. In
/// particular logging is off only for the value `off`, in any case.
pub proof fn lemma_level_named_by_name(var: Option<Seq<char>>)
    ensures
        var is None ==> level_named(var) == LogLevel::Warn,
        var matches Some(s) ==> {
            let l = ascii_lower_text(s);
            &&& (level_named(var) == LogLevel::Trace <==> l == "trace"@)
            &&& (level_named(var) == LogLevel::Debug <==> l == "debug"@)
            &&& (level_named(var) == LogLevel::Info <==> l == "info"@)
            &&& (level_named(var) == LogLevel::Error <==> l == "error"@)
            &&& (level_named(var) == LogLevel::Off <==> l == "off"@)
            &&& (level_named(var) == LogLevel::Warn <==> !is_level_name(l) || l == "warn"@)
        },
{
    reveal_strlit("trace");
    reveal_strlit("debug");
    reveal_strlit("info");
    reveal_strlit("error");
    reveal_strlit("warn");
    reveal_strlit("off");
    assert("trace"@[0] != "debug"@[0] && "trace"@[0] != "error"@[0] && "debug"@[0] != "error"@[0]);
    assert("info"@[0] != "warn"@[0]);
    assert("trace"@ != "debug"@ && "trace"@ != "error"@ && "debug"@ != "error"@);
    assert("info"@ != "warn"@);
    assert("off"@.len() == 3 && "info"@.len() == 4 && "trace"@.len() == 5);
}

/// The level that a `RUST_LOG` value asks for does not depend on the ASCII
/// case of its letters: a value and its lower case form name the same level.
pub proof fn lemma_level_ignores_ascii_case(s: Seq<char>)
    ensures
        level_named(Some(s)) == level_named(Some(ascii_lower_text(s))),
{
    assert(ascii_lower_text(ascii_lower_text(s)) =~= ascii_lower_text(s));
}

/// `str::to_ascii_lowercase`, which std documents as mapping 'A'..='Z' to
/// 'a'..='z' and leaving every other character unchanged.
#[verifier::external_body]
fn to_ascii_lowercase(s: &str) -> (r: String)
    ensures
        r@ == ascii_lower_text(s@),
{
    s.to_ascii_lowercase()
}

/// `<str as PartialEq>::eq`: two texts are equal when their characters are.
#[verifier::external_body]
fn str_eq(a: &str, b: &str) -> (r: bool)
    ensures
        r == (a@ == b@),
{
    a == b
}

/// The level that the value of the `RUST_LOG` variable asks for, `None`
/// when it is unset or not unicode.
pub fn level_from_env(var: Option<String>) -> (level: LogLevel)
    ensures
        level == level_named(
            match var {
                Some(s) => Some(s@),
                None => None,
            },
        ),
        var is None ==> level == LogLevel::Warn,
        var matches Some(s) ==> (level == LogLevel::Trace <==> ascii_lower_text(s@) == "trace"@),
        var matches Some(s) ==> (level == LogLevel::Debug <==> ascii_lower_text(s@) == "debug"@),
        var matches Some(s) ==> (level == LogLevel::Info <==> ascii_lower_text(s@) == "info"@),
        var matches Some(s) ==> (level == LogLevel::Error <==> ascii_lower_text(s@) == "error"@),
        var matches Some(s) ==> (level == LogLevel::Off <==> ascii_lower_text(s@) == "off"@),
        var matches Some(s) ==> (level == LogLevel::Warn <==> !is_level_name(ascii_lower_text(s@))
            || ascii_lower_text(s@) == "warn"@),
{
    proof {
        lemma_level_named_by_name(
            match &var {
                Some(s) => Some(s@),
                None => None,
            },
        );
    }
    match var {
        None => LogLevel::Warn,
        Some(s) => {
            let l = to_ascii_lowercase(s.as_str());
            let l = l.as_str();
            if str_eq(l, "trace") {
                LogLevel::Trace
            } else if str_eq(l, "debug") {
                LogLevel::Debug
            } else if str_eq(l, "info") {
                LogLevel::Info
            } else if str_eq(l, "error") {
                LogLevel::Error
            } else if str_eq(l, "warn") {
                LogLevel::Warn
            } else if str_eq(l, "off") {
                LogLevel::Off
            } else {
                LogLevel::Warn
            }
        },
    }
}

/// A growable byte buffer of the `bytes` crate.
#[verifier::external_type_specification]
#[verifier::external_body]
pub struct ExBytesMut(BytesMut);

/// A shared, immutable byte buffer of the `bytes` crate.
#[verifier::external_type_specification]
#[verifier::external_body]
pub struct ExBytes(Bytes);

/// The bytes that a `BytesMut` holds.
pub uninterp spec fn buffered(b: BytesMut) -> Seq<u8>;

/// The bytes that a `Bytes` holds.
pub uninterp spec fn frozen(b: Bytes) -> Seq<u8>;

/// `BytesMut::new`: a buffer of length 0.
#[verifier::external_body]
fn bytes_mut_new() -> (b: BytesMut)
    ensures
        buffered(b) == Seq::<u8>::empty(),
{
    BytesMut::new()
}

/// `BytesMut::extend_from_slice`: appends the given bytes. It reserves room
/// first, and panics where the new length would overflow; this contract
/// leaves out lengths beyond `isize::MAX`, which no allocation reaches.
#[verifier::external_body]
fn bytes_mut_extend(b: &mut BytesMut, data: &[u8])
    requires
        buffered(*old(b)).len() + data@.len() <= isize::MAX,
    ensures
        buffered(*final(b)) == buffered(*old(b)) + data@,
{
    b.extend_from_slice(data)
}

/// `BytesMut::split`: hands out everything the buffer holds and leaves it empty.
#[verifier::external_body]
fn bytes_mut_split(b: &mut BytesMut) -> (taken: BytesMut)
    ensures
        buffered(taken) == buffered(*old(b)),
        buffered(*final(b)) == Seq::<u8>::empty(),
{
    b.split()
}

/// `BytesMut::freeze`: the same bytes, now immutable.
#[verifier::external_body]
fn bytes_mut_freeze(b: BytesMut) -> (r: Bytes)
    ensures
        frozen(r) == buffered(b),
{
    b.freeze()
}

/// One staging step: from a buffer holding `before`, writing `data` hands out
/// `chunk` and leaves the buffer holding `after`.
pub open spec fn staged(before: Seq<u8>, data: Seq<u8>, chunk: Seq<u8>, after: Seq<u8>) -> bool {
    &&& chunk == before + data
    &&& after == Seq::<u8>::empty()
}

/// Successive staging steps on one buffer that starts empty hand out each
/// write as a chunk of its own: the `j`-th chunk is exactly the `j`-th write,
/// so no byte is lost, duplicated, merged into another chunk or reordered.
pub proof fn lemma_stages_hand_out_each_write(
    states: Seq<Seq<u8>>,
    writes: Seq<Seq<u8>>,
    chunks: Seq<Seq<u8>>,
)
    requires
        states.len() == writes.len() + 1,
        chunks.len() == writes.len(),
        states[0] == Seq::<u8>::empty(),
        forall|j: int|
            0 <= j < writes.len() ==> staged(states[j], #[trigger] writes[j], chunks[j], states[j + 1]),
    ensures
        forall|j: int| 0 <= j < writes.len() ==> #[trigger] chunks[j] == writes[j],
        chunks == writes,
        chunks.flatten() == writes.flatten(),
{
    assert forall|j: int| 0 <= j < writes.len() implies #[trigger] chunks[j] == writes[j] by {
        assert(staged(states[j], writes[j], chunks[j], states[j + 1]));
        if j > 0 {
            assert(staged(states[j - 1], writes[j - 1], chunks[j - 1], states[j]));
        }
        assert(states[j] + writes[j] =~= writes[j]);
    }
    assert(chunks =~= writes);
}

/// The buffer that log output is gathered in before it is handed to the
/// background writer.
pub struct LogBuffer {
    buf: BytesMut,
}

impl View for LogBuffer {
    type V = Seq<u8>;

    closed spec fn view(&self) -> Seq<u8> {
        buffered(self.buf)
    }
}

impl LogBuffer {
    /// An empty buffer.
    pub fn new() -> (b: LogBuffer)
        ensures
            b@ == Seq::<u8>::empty(),
    {
        LogBuffer { buf: bytes_mut_new() }
    }

    /// Appends `data` and takes out everything buffered, so that the chunk
    /// holds what was pending followed by `data`, and the buffer is left empty.
    pub fn stage(&mut self, data: &[u8]) -> (chunk: Bytes)
        requires
            old(self)@.len() + data@.len() <= isize::MAX,
        ensures
            frozen(chunk) == old(self)@ + data@,
            final(self)@ == Seq::<u8>::empty(),
            staged(old(self)@, data@, frozen(chunk), final(self)@),
    {
        bytes_mut_extend(&mut self.buf, data);
        let taken = bytes_mut_split(&mut self.buf);
        bytes_mut_freeze(taken)
    }
}

/// Why log output could not be written.
#[derive(Clone, Copy, Debug, PartialEq, Eq, Structural)]
pub enum LogWriteError {
    /// The background writer no longer receives.
    BackendDead,
}

impl LogWriteError {
    /// The message that the error carries.
    pub fn message(&self) -> (m: &'static str)
        ensures
            m@ == "backend dead"@,
    {
        "backend dead"
    }
}

/// What a write of `len` bytes of log output answers, once the chunk was
/// handed to the background writer (`sent`) or refused: the whole length,
/// or the error that the writer is gone.
pub fn write_outcome(sent: bool, len: usize) -> (r: Result<usize, LogWriteError>)
    ensures
        sent ==> (r matches Ok(n) && n == len),
        !sent ==> (r matches Err(e) && e == LogWriteError::BackendDead),
{
    if sent {
        Ok(len)
    } else {
        Err(LogWriteError::BackendDead)
    }
}

} // verus!
