//! Reading a log stream in chunks: the plan, the look at the file, the
//! window to read and the chunk it gives.
use vstd::prelude::*;
use crate::openclaw::runtime::{
    LogStream, OpenClawError, OpenClawRuntime, bad_stream_error, clamp, is_bad_stream_error,
    log_path_for, log_stream_named, log_stream_of,
};
use vstd::utf8::{decode_utf8, is_ascii_chars, valid_utf8};
use crate::text::{
    append_str, ascii_lowercase, decode_lossy, lowercase, owned, unicode_lowercase, utf8_lossy,
};

verus! {

/// What to read from a log stream.
#[derive(Debug)]
pub struct OpenClawLogQuery {
    pub stream: Option<String>,
    pub cursor: Option<u64>,
    pub max_bytes: Option<usize>,
}

/// A piece of a log file, and where the next piece starts.
#[derive(Debug)]
pub struct OpenClawLogChunkResponse {
    pub stream: String,
    pub path: String,
    pub exists: bool,
    pub cursor: u64,
    pub next_cursor: u64,
    pub file_size: u64,
    pub truncated: bool,
    pub content: String,
}

/// A log read whose stream and limits are settled: the file of `log`,
/// shown as `path`, is to be looked at next.
#[derive(Debug)]
pub struct LogReadPlan {
    pub stream: String,
    pub log: LogStream,
    pub path: String,
    pub requested_cursor: u64,
    pub max_bytes: usize,
}

/// What looking at the log file found.
#[derive(Debug)]
pub enum LogFileStat {
    /// The file exists and holds this many bytes.
    Found(u64),
    /// There is no such file.
    Missing,
    /// Looking failed for another reason, given as text.
    Failed(String),
}

/// The part of a log file to read: `len` bytes from `cursor`, in a file of
/// `file_size` bytes.
#[derive(Debug)]
pub struct LogWindow {
    cursor: u64,
    len: usize,
    file_size: u64,
    truncated: bool,
}

/// What reading a window of the log file gave.
#[derive(Debug)]
pub enum LogReadOutcome {
    /// The bytes of the window.
    Bytes(Vec<u8>),
    /// Opening the file failed, for the reason given.
    OpenFailed(String),
    /// Moving to the cursor failed, for the reason given.
    SeekFailed(String),
    /// Reading failed, for the reason given.
    ReadFailed(String),
}

/// The next thing to do for a log read.
#[derive(Debug)]
pub enum LogReadStep {
    /// The read is over, with this answer.
    Done(Result<OpenClawLogChunkResponse, OpenClawError>),
    /// The window is to be read.
    Read(LogWindow),
}

/// The stream a query names, lower-cased; `gateway` by default.
pub open spec fn requested_stream(query: OpenClawLogQuery) -> Seq<char> {
    unicode_lowercase(asked_stream(query))
}

/// The stream a query names as given; `gateway` by default.
pub open spec fn asked_stream(query: OpenClawLogQuery) -> Seq<char> {
    match query.stream {
        Some(s) => s@,
        None => "gateway"@,
    }
}

/// The cursor a query asks for; the start of the file by default.
pub open spec fn requested_cursor(query: OpenClawLogQuery) -> u64 {
    match query.cursor {
        Some(c) => c,
        None => 0,
    }
}

/// The most bytes a query may get: what it asks (64 KiB by default), held
/// within 1 KiB ..= 256 KiB.
pub open spec fn requested_max_bytes(query: OpenClawLogQuery) -> int {
    clamp(
        match query.max_bytes {
            Some(m) => m as int,
            None => 65536,
        },
        1024,
        262144,
    )
}

/// Where a read starts in a file of `file_size` bytes, how many bytes it
/// takes, and whether the requested cursor lay past the end (the file was
/// truncated since), in which case the read starts over at 0.
pub open spec fn log_window(requested: u64, file_size: u64, max_bytes: nat) -> (nat, nat, bool) {
    let truncated = requested > file_size;
    let cursor: nat = if truncated {
        0
    } else {
        requested as nat
    };
    let rest: nat = (file_size - cursor) as nat;
    let len: nat = if rest < max_bytes {
        rest
    } else {
        max_bytes
    };
    (cursor, len, truncated)
}

/// `r` answers for `stream` and `path` with exactly these values.
pub open spec fn chunk_is(
    r: OpenClawLogChunkResponse,
    stream: Seq<char>,
    path: Seq<char>,
    exists: bool,
    cursor: nat,
    next_cursor: nat,
    file_size: nat,
    truncated: bool,
    content: Seq<char>,
) -> bool {
    &&& r.stream@ == stream
    &&& r.path@ == path
    &&& r.exists == exists
    &&& r.cursor == cursor
    &&& r.next_cursor == next_cursor
    &&& r.file_size == file_size
    &&& r.truncated == truncated
    &&& r.content@ == content
}

/// `e` is an I/O error whose context is `prefix` followed by `path`.
pub open spec fn is_io_error(e: OpenClawError, prefix: Seq<char>, path: Seq<char>, source: Seq<char>) -> bool {
    e matches OpenClawError::Io { context, source: s } && context@ == prefix + path && s@ == source
}

impl View for LogWindow {
    /// `(cursor, len, file_size, truncated)`.
    type V = (nat, nat, nat, bool);

    closed spec fn view(&self) -> (nat, nat, nat, bool) {
        (self.cursor as nat, self.len as nat, self.file_size as nat, self.truncated)
    }
}

impl LogWindow {
    #[verifier::type_invariant]
    spec fn fits(self) -> bool {
        self.cursor + self.len <= self.file_size
    }

    /// Where the window starts.
    pub fn cursor(&self) -> (res: u64)
        ensures
            res == self@.0,
    {
        self.cursor
    }

    /// How many bytes the window holds.
    pub fn len(&self) -> (res: usize)
        ensures
            res == self@.1,
    {
        self.len
    }

    /// The size of the file the window lies in.
    pub fn file_size(&self) -> (res: u64)
        ensures
            res == self@.2,
    {
        self.file_size
    }

    /// Whether the requested cursor lay past the end of the file.
    pub fn truncated(&self) -> (res: bool)
        ensures
            res == self@.3,
    {
        self.truncated
    }
}

impl OpenClawRuntime {
    /// Settles what a log query reads: the stream (lower-cased, `gateway`
    /// by default) and its file, the cursor, and the byte limit.
    pub fn plan_log_read(&self, query: OpenClawLogQuery) -> (res: Result<LogReadPlan, OpenClawError>)
        ensures
            is_ascii_chars(asked_stream(query)) ==> requested_stream(query) == ascii_lowercase(
                asked_stream(query),
            ),
            query.stream is None ==> requested_stream(query) == "gateway"@,
            match log_path_for(self.config(), requested_stream(query)) {
                Some(path) => res matches Ok(plan) && plan.stream@ == requested_stream(query)
                    && log_stream_named(requested_stream(query)) == Some(plan.log)
                    && plan.path@ == path && plan.requested_cursor == requested_cursor(query)
                    && plan.max_bytes == requested_max_bytes(query),
                None => res matches Err(e) && is_bad_stream_error(e),
            },
    {
        let stream = match &query.stream {
            Some(s) => lowercase(s.as_str()),
            None => {
                let lowered = lowercase("gateway");
                proof {
                    reveal_strlit("gateway");
                    assert(ascii_lowercase("gateway"@) =~= "gateway"@);
                }
                lowered
            },
        };
        let log = match log_stream_of(stream.as_str()) {
            Some(log) => log,
            None => return Err(bad_stream_error()),
        };
        let path = self.log_file(log);
        let requested_cursor = match query.cursor {
            Some(c) => c,
            None => 0,
        };
        let asked = match query.max_bytes {
            Some(m) => m,
            None => 65536,
        };
        let max_bytes = if asked < 1024 {
            1024
        } else if asked > 262144 {
            262144
        } else {
            asked
        };
        Ok(LogReadPlan { stream, log, path, requested_cursor, max_bytes })
    }
}

impl LogReadPlan {
    fn chunk(
        &self,
        exists: bool,
        cursor: u64,
        next_cursor: u64,
        file_size: u64,
        truncated: bool,
        content: String,
    ) -> (res: OpenClawLogChunkResponse)
        ensures
            chunk_is(
                res,
                self.stream@,
                self.path@,
                exists,
                cursor as nat,
                next_cursor as nat,
                file_size as nat,
                truncated,
                content@,
            ),
    {
        OpenClawLogChunkResponse {
            stream: self.stream.clone(),
            path: self.path.clone(),
            exists,
            cursor,
            next_cursor,
            file_size,
            truncated,
            content,
        }
    }

    fn io_error(&self, prefix: &str, source: String) -> (res: OpenClawError)
        ensures
            is_io_error(res, prefix@, self.path@, source@),
    {
        let mut context = owned(prefix);
        append_str(&mut context, self.path.as_str());
        OpenClawError::Io { context, source }
    }

    /// What follows looking at the log file: a missing file is an empty
    /// chunk, a failure is an I/O error, and a found file gives the window
    /// to read, or an empty chunk where the window is empty.
    pub fn after_stat(&self, stat: LogFileStat) -> (res: LogReadStep)
        ensures
            stat matches LogFileStat::Found(size) ==> (res matches LogReadStep::Read(w) ==> (w@.0
                + w@.1 <= size && w@.1 <= self.max_bytes && (w@.1 == self.max_bytes || w@.0 + w@.1
                == size))),
            match stat {
                LogFileStat::Missing => res matches LogReadStep::Done(Ok(r)) && chunk_is(
                    r,
                    self.stream@,
                    self.path@,
                    false,
                    self.requested_cursor as nat,
                    self.requested_cursor as nat,
                    0,
                    false,
                    Seq::empty(),
                ),
                LogFileStat::Failed(source) => res matches LogReadStep::Done(Err(e)) && is_io_error(
                    e,
                    "falha ao acessar "@,
                    self.path@,
                    source@,
                ),
                LogFileStat::Found(size) => {
                    let (cursor, len, truncated) = log_window(
                        self.requested_cursor,
                        size,
                        self.max_bytes as nat,
                    );
                    if len == 0 {
                        res matches LogReadStep::Done(Ok(r)) && chunk_is(
                            r,
                            self.stream@,
                            self.path@,
                            true,
                            cursor,
                            cursor,
                            size as nat,
                            truncated,
                            Seq::empty(),
                        )
                    } else {
                        res matches LogReadStep::Read(w) && w@ == (cursor, len, size as nat, truncated)
                    }
                },
            },
    {
        match stat {
            LogFileStat::Missing => LogReadStep::Done(
                Ok(
                    self.chunk(
                        false,
                        self.requested_cursor,
                        self.requested_cursor,
                        0,
                        false,
                        String::new(),
                    ),
                ),
            ),
            LogFileStat::Failed(source) => LogReadStep::Done(
                Err(self.io_error("falha ao acessar ", source)),
            ),
            LogFileStat::Found(file_size) => {
                let truncated = self.requested_cursor > file_size;
                let cursor = if truncated {
                    0
                } else {
                    self.requested_cursor
                };
                let rest = file_size - cursor;
                let len: usize = if rest < self.max_bytes as u64 {
                    rest as usize
                } else {
                    self.max_bytes
                };
                if len == 0 {
                    LogReadStep::Done(
                        Ok(self.chunk(true, cursor, cursor, file_size, truncated, String::new())),
                    )
                } else {
                    LogReadStep::Read(LogWindow { cursor, len, file_size, truncated })
                }
            },
        }
    }

    /// The chunk made of what was read from `window`, or the I/O error of
    /// the step that failed. Bytes that were read fill the whole window, as
    /// an exact read gives them.
    pub fn after_read(&self, window: LogWindow, outcome: LogReadOutcome) -> (res: Result<
        OpenClawLogChunkResponse,
        OpenClawError,
    >)
        requires
            outcome matches LogReadOutcome::Bytes(bytes) ==> bytes@.len() == window@.1,
        ensures
            match outcome {
                LogReadOutcome::Bytes(bytes) => res matches Ok(r) && chunk_is(
                    r,
                    self.stream@,
                    self.path@,
                    true,
                    window@.0,
                    window@.0 + window@.1,
                    window@.2,
                    window@.3,
                    utf8_lossy(bytes@),
                ) && (valid_utf8(bytes@) ==> r.content@ == decode_utf8(bytes@)),
                LogReadOutcome::OpenFailed(source) => res matches Err(e) && is_io_error(
                    e,
                    "falha ao abrir "@,
                    self.path@,
                    source@,
                ),
                LogReadOutcome::SeekFailed(source) => res matches Err(e) && is_io_error(
                    e,
                    "falha ao buscar offset em "@,
                    self.path@,
                    source@,
                ),
                LogReadOutcome::ReadFailed(source) => res matches Err(e) && is_io_error(
                    e,
                    "falha lendo "@,
                    self.path@,
                    source@,
                ),
            },
    {
        proof {
            use_type_invariant(&window);
        }
        match outcome {
            LogReadOutcome::Bytes(bytes) => {
                let content = decode_lossy(bytes.as_slice());
                let next_cursor = window.cursor + window.len as u64;
                Ok(
                    self.chunk(
                        true,
                        window.cursor,
                        next_cursor,
                        window.file_size,
                        window.truncated,
                        content,
                    ),
                )
            },
            LogReadOutcome::OpenFailed(source) => Err(self.io_error("falha ao abrir ", source)),
            LogReadOutcome::SeekFailed(source) => Err(
                self.io_error("falha ao buscar offset em ", source),
            ),
            LogReadOutcome::ReadFailed(source) => Err(self.io_error("falha lendo ", source)),
        }
    }
}

/// A log read never goes past the end of the file nor over its limit; it
/// starts over at 0 exactly when the cursor lay past the end, and else
/// starts at the cursor.
pub proof fn lemma_log_window_bounds(requested: u64, file_size: u64, max_bytes: nat)
    ensures
        ({
            let (cursor, len, truncated) = log_window(requested, file_size, max_bytes);
            &&& cursor + len <= file_size
            &&& len <= max_bytes
            &&& truncated <==> requested > file_size
            &&& truncated ==> cursor == 0
            &&& !truncated ==> cursor == requested
            &&& len == max_bytes || cursor + len == file_size
            &&& file_size - cursor >= max_bytes ==> len == max_bytes
        }),
{
}

/// A log read from before the end of the file, with room for at least one
/// byte, makes progress.
pub proof fn lemma_log_window_progress(requested: u64, file_size: u64, max_bytes: nat)
    requires
        max_bytes > 0,
        requested < file_size,
    ensures
        log_window(requested, file_size, max_bytes).1 > 0,
{
}

/// Reading again from where a read ended, in a file of the same size,
/// continues there: nothing is skipped and nothing is read twice.
pub proof fn lemma_log_window_resume(
    requested: u64,
    file_size: u64,
    max_bytes: nat,
    next_max_bytes: nat,
)
    ensures
        ({
            let (cursor, len, _) = log_window(requested, file_size, max_bytes);
            let next = (cursor + len) as u64;
            let (cursor2, _, truncated2) = log_window(next, file_size, next_max_bytes);
            cursor2 == cursor + len && !truncated2
        }),
{
}

/// A log query's byte limit lies within 1 KiB ..= 256 KiB.
pub proof fn lemma_requested_max_bytes_range(query: OpenClawLogQuery)
    ensures
        1024 <= requested_max_bytes(query) <= 262144,
        query.max_bytes matches Some(m) ==> (1024 <= m <= 262144 ==> requested_max_bytes(query)
            == m),
        query.max_bytes matches Some(m) ==> (m < 1024 ==> requested_max_bytes(query) == 1024),
        query.max_bytes matches Some(m) ==> (m > 262144 ==> requested_max_bytes(query) == 262144),
        query.max_bytes is None ==> requested_max_bytes(query) == 65536,
{
}

} // verus!
