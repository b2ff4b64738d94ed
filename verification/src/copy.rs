//! The cross-backend copy: destination-path decision and the copy state
//! machine.
//!
//! Copy resolves source and destination independently, stats the source
//! (directories cannot be copied), stats the destination to decide the
//! real destination path, then streams the source into a writer on that
//! path chunk by chunk, in order, and closes the writer before the
//! operation counts as done. The machine here makes every one of those
//! decisions; a driver performs the storage I/O and feeds the results
//! back as plain values.

use vstd::prelude::*;
use vstd::string::StrSliceExecFns;
use vstd::string::StringExecFns;

use crate::factory::{spec_decide, Decision, OperatorFactory, ResolveError};
use crate::location::{first_at_from, has_uri_root, lemma_first_at_from, uri_path, uri_root};
use crate::outcome::{
    classify, outcome_permanent_with, spec_classify, BackendFailure, FailureKind, Outcome,
};
use crate::service::{parse_location, resolve_error_matches_decision, EntryMode, Metadata};

verus! {

/// Index of the last occurrence of `c` in `s` before `i`, or `-1`.
pub open spec fn last_at_before(s: Seq<char>, c: char, i: int) -> int
    decreases i,
{
    if i <= 0 || i > s.len() {
        -1
    } else if s[i - 1] == c {
        i - 1
    } else {
        last_at_before(s, c, i - 1)
    }
}

/// The file name of a path: everything after its last `/` (the whole path
/// when it has none); empty when the path ends in `/` or is empty.
pub open spec fn spec_file_name(path: Seq<char>) -> Seq<char> {
    path.subrange(last_at_before(path, '/', path.len() as int) + 1, path.len() as int)
}

/// `dir` and `name` joined with exactly one `/` between them.
pub open spec fn spec_join(dir: Seq<char>, name: Seq<char>) -> Seq<char> {
    if dir.len() > 0 && dir[dir.len() - 1] == '/' {
        dir + name
    } else {
        dir + "/"@ + name
    }
}

/// `suffix` is the tail of `s`.
pub open spec fn ends_with(s: Seq<char>, suffix: Seq<char>) -> bool {
    suffix.len() <= s.len() && s.subrange(s.len() - suffix.len(), s.len() as int) == suffix
}

/// The file name of a path.
pub fn file_name(path: &str) -> (r: String)
    ensures
        r@ == spec_file_name(path@),
{
    let n = path.unicode_len();
    let mut start: usize = 0;
    let mut k: usize = 0;
    while k < n
        invariant
            0 <= k <= n,
            n == path@.len(),
            start as int == last_at_before(path@, '/', k as int) + 1,
            start <= k,
        decreases n - k,
    {
        if path.get_char(k) == '/' {
            start = k + 1;
        }
        k += 1;
    }
    path.substring_char(start, n).to_owned()
}

/// Join a directory path and a file name with exactly one `/`.
pub fn join_path(dir: &str, name: &str) -> (r: String)
    ensures
        r@ == spec_join(dir@, name@),
{
    let n = dir.unicode_len();
    let mut out = dir.to_owned();
    if n == 0 || dir.get_char(n - 1) != '/' {
        out.append("/");
    }
    out.append(name);
    out
}

/// First index at or after `i` where `pat` occurs as a substring of `s`,
/// or `-1`.
pub open spec fn first_match_from(s: Seq<char>, pat: Seq<char>, i: int) -> int
    decreases s.len() - i,
{
    if i < 0 || pat.len() <= 0 || i + pat.len() > s.len() {
        -1
    } else if s.subrange(i, i + pat.len() as int) == pat {
        i
    } else {
        first_match_from(s, pat, i + 1)
    }
}

/// Characterizes [`first_match_from`]: the result is in range and marks an
/// occurrence.
pub proof fn lemma_first_match_from(s: Seq<char>, pat: Seq<char>, i: int)
    requires
        0 <= i,
    ensures
        ({
            let r = first_match_from(s, pat, i);
            r != -1 ==> i <= r && r + pat.len() <= s.len() && s.subrange(r, r + pat.len() as int)
                == pat
        }),
    decreases s.len() - i,
{
    if pat.len() > 0 && i + pat.len() <= s.len() && s.subrange(i, i + pat.len() as int) != pat {
        lemma_first_match_from(s, pat, i + 1);
    }
}

/// Skipping a match-free prefix does not change the first occurrence.
proof fn lemma_first_match_skip(s: Seq<char>, pat: Seq<char>, a: int, b: int)
    requires
        0 <= a <= b,
        forall|j: int| a <= j < b ==> #[trigger] s.subrange(j, j + pat.len() as int) != pat,
    ensures
        first_match_from(s, pat, a) == first_match_from(s, pat, b),
    decreases b - a,
{
    if a < b {
        lemma_first_match_skip(s, pat, a + 1, b);
    }
}

/// Whether `pat` occurs in `s` at exactly position `i`.
fn match_at(s: &str, pat: &str, i: usize) -> (r: bool)
    requires
        i + pat@.len() <= s@.len(),
    ensures
        r == (s@.subrange(i as int, i as int + pat@.len() as int) == pat@),
{
    let n = s.unicode_len();
    let np = pat.unicode_len();
    let mut j: usize = 0;
    while j < np
        invariant
            0 <= j <= np,
            n == s@.len(),
            np == pat@.len(),
            i + np <= s@.len(),
            forall|l: int| 0 <= l < j ==> s@[i + l] == pat@[l],
        decreases np - j,
    {
        if s.get_char(i + j) != pat.get_char(j) {
            assert(s@.subrange(i as int, i as int + pat@.len() as int)[j as int] != pat@[j as int]);
            return false;
        }
        j += 1;
    }
    assert(s@.subrange(i as int, i as int + pat@.len() as int) =~= pat@);
    true
}

/// First position where `pat` occurs as a substring of `s`.
pub fn find_substring(s: &str, pat: &str) -> (r: Option<usize>)
    ensures
        match r {
            Some(i) => i as int == first_match_from(s@, pat@, 0),
            None => first_match_from(s@, pat@, 0) == -1,
        },
{
    let n = s.unicode_len();
    let np = pat.unicode_len();
    if np == 0 || np > n {
        return None;
    }
    let mut i: usize = 0;
    while i <= n - np
        invariant
            0 <= i,
            i <= n - np + 1,
            n == s@.len(),
            np == pat@.len(),
            0 < np <= n,
            forall|j: int| 0 <= j < i ==> #[trigger] s@.subrange(j, j + pat@.len() as int) != pat@,
        decreases n - i,
    {
        if match_at(s, pat, i) {
            proof {
                lemma_first_match_skip(s@, pat@, 0, i as int);
            }
            return Some(i);
        }
        i += 1;
    }
    proof {
        lemma_first_match_skip(s@, pat@, 0, i as int);
    }
    None
}

/// The file name carried by a `Content-Disposition` header value: the text
/// after the first `filename=`, quoted (up to the closing quote, which
/// must be present) or bare (up to the next `;` or the end).
pub open spec fn spec_cd_filename(h: Seq<char>) -> Option<Seq<char>> {
    let pat = "filename="@;
    let m = first_match_from(h, pat, 0);
    if m == -1 {
        None
    } else {
        let v = m + pat.len();
        if v < h.len() && h[v] == '"' {
            let q = first_at_from(h, '"', v + 1);
            if q == -1 {
                None
            } else {
                Some(h.subrange(v + 1, q))
            }
        } else {
            let e = first_at_from(h, ';', v);
            if e == -1 {
                Some(h.subrange(v, h.len() as int))
            } else {
                Some(h.subrange(v, e))
            }
        }
    }
}

/// Extract the file name from a `Content-Disposition` header value.
pub fn content_disposition_filename(header: &str) -> (r: Option<String>)
    ensures
        match r {
            Some(name) => spec_cd_filename(header@) == Some(name@),
            None => spec_cd_filename(header@) is None,
        },
{
    let pat = "filename=";
    let n = header.unicode_len();
    let m = match find_substring(header, pat) {
        None => {
            return None;
        },
        Some(m) => m,
    };
    proof {
        lemma_first_match_from(header@, pat@, 0);
    }
    let np = pat.unicode_len();
    let v = m + np;
    if v < n && header.get_char(v) == '"' {
        match crate::location::find_char_from(header, '"', v + 1) {
            None => None,
            Some(q) => {
                proof {
                    lemma_first_at_from(header@, '"', v as int + 1);
                }
                Some(header.substring_char(v + 1, q).to_owned())
            },
        }
    } else {
        match crate::location::find_char_from(header, ';', v) {
            None => Some(header.substring_char(v, n).to_owned()),
            Some(e) => {
                proof {
                    lemma_first_at_from(header@, ';', v as int);
                }
                Some(header.substring_char(v, e).to_owned())
            },
        }
    }
}

/// What the destination stat decides: the real destination path to write
/// to, a no-filename business failure, or an abort on a real stat failure.
pub enum DestDecision {
    UseReal { path: Seq<char> },
    NoFilename,
    Aborted,
}

/// The real-destination-path decision. A destination that stats as a
/// directory takes the source's file name — from the source path's last
/// segment, else from the source's `Content-Disposition` header — joined
/// under the destination path, and with no name derivable the copy fails;
/// a destination that stats as a file (or unknown), or does not exist, is
/// used as given (overwrite semantics); any other stat failure aborts.
pub open spec fn spec_dest_decision(
    dst_path: Seq<char>,
    src_path: Seq<char>,
    source_cd: Option<String>,
    result: Result<Metadata, BackendFailure>,
) -> DestDecision {
    match result {
        Ok(meta) => {
            if meta.mode == EntryMode::Dir {
                let name = spec_file_name(src_path);
                if name.len() > 0 {
                    DestDecision::UseReal { path: spec_join(dst_path, name) }
                } else {
                    match source_cd {
                        Some(h) => match spec_cd_filename(h@) {
                            Some(n) => if n.len() > 0 {
                                DestDecision::UseReal { path: spec_join(dst_path, n) }
                            } else {
                                DestDecision::NoFilename
                            },
                            None => DestDecision::NoFilename,
                        },
                        None => DestDecision::NoFilename,
                    }
                }
            } else {
                DestDecision::UseReal { path: dst_path }
            }
        },
        Err(f) => {
            if f.kind == FailureKind::NotFound {
                DestDecision::UseReal { path: dst_path }
            } else {
                DestDecision::Aborted
            }
        },
    }
}

/// A joined path ends in the joined name.
pub proof fn lemma_join_ends_with(dir: Seq<char>, name: Seq<char>)
    ensures
        ends_with(spec_join(dir, name), name),
{
    let j = spec_join(dir, name);
    if dir.len() > 0 && dir[dir.len() - 1] == '/' {
        assert(j.subrange(j.len() - name.len(), j.len() as int) =~= name);
    } else {
        assert(j.subrange(j.len() - name.len(), j.len() as int) =~= name);
    }
}

/// A destination that stats as a directory takes the source's last path
/// segment as the file name: the decided real path is the join, and it
/// ends in that segment.
pub proof fn lemma_dir_destination_uses_filename(
    dst_path: Seq<char>,
    src_path: Seq<char>,
    source_cd: Option<String>,
    meta: Metadata,
)
    requires
        meta.mode == EntryMode::Dir,
        spec_file_name(src_path).len() > 0,
    ensures
        spec_dest_decision(dst_path, src_path, source_cd, Ok(meta)) == (DestDecision::UseReal {
            path: spec_join(dst_path, spec_file_name(src_path)),
        }),
        ends_with(spec_join(dst_path, spec_file_name(src_path)), spec_file_name(src_path)),
{
    lemma_join_ends_with(dst_path, spec_file_name(src_path));
}

/// With no file name derivable — no last path segment, and no (nonempty)
/// `Content-Disposition` file name — a directory destination makes the
/// copy fail.
pub proof fn lemma_dir_destination_no_filename(
    dst_path: Seq<char>,
    src_path: Seq<char>,
    source_cd: Option<String>,
    meta: Metadata,
)
    requires
        meta.mode == EntryMode::Dir,
        spec_file_name(src_path).len() == 0,
        match source_cd {
            None => true,
            Some(h) => match spec_cd_filename(h@) {
                None => true,
                Some(n) => n.len() == 0,
            },
        },
    ensures
        spec_dest_decision(dst_path, src_path, source_cd, Ok(meta)) == DestDecision::NoFilename,
{
}

/// Copy into a non-existent destination path decides the same real path as
/// copy into an existing destination file at that path: the destination
/// path as given.
pub proof fn lemma_copy_overwrite_equivalent(
    dst_path: Seq<char>,
    src_path: Seq<char>,
    source_cd: Option<String>,
    meta: Metadata,
    f: BackendFailure,
)
    requires
        meta.mode != EntryMode::Dir,
        f.kind == FailureKind::NotFound,
    ensures
        spec_dest_decision(dst_path, src_path, source_cd, Ok(meta)) == spec_dest_decision(
            dst_path,
            src_path,
            source_cd,
            Err(f),
        ),
        spec_dest_decision(dst_path, src_path, source_cd, Err(f)) == (DestDecision::UseReal {
            path: dst_path,
        }),
{
}

/// Where the copy stands.
pub enum CopyState {
    /// Waiting for the source stat.
    AwaitSourceStat,
    /// Waiting for the destination stat; the source's content type and
    /// content disposition are kept for the decision.
    AwaitDestStat { content_type: Option<String>, content_disposition: Option<String> },
    /// Waiting for reader and writer to open.
    AwaitOpen,
    /// Waiting for the next chunk read.
    Reading,
    /// Waiting for the pending chunk's write to be accepted.
    Writing,
    /// Waiting for the writer to close.
    Closing,
    /// The copy is complete.
    Done,
    /// The copy failed; the failing step's action carried the outcome.
    Failed,
}

/// What the driver must do next.
pub enum CopyAction {
    /// Stat the source path on the source backend.
    StatSource,
    /// Stat the destination path on the destination backend.
    StatDestination,
    /// Open a reader on the source path and a writer on `real_path`,
    /// propagating `content_type` to the writer if present.
    OpenStreams { real_path: String, content_type: Option<String> },
    /// Read the next chunk from the reader.
    Read,
    /// Write this chunk, then report back.
    Write { data: Vec<u8> },
    /// Close the writer to finalize the write.
    CloseWriter,
    /// The copy is complete.
    Finish,
    /// The copy failed with this classified outcome.
    Fail { outcome: Outcome },
}

/// The copy state machine. The driver performs each returned action and
/// feeds its result to the matching step method; every decision in
/// between is fixed by the contracts. The ghost `transferred`, `written`
/// and `pending` sequences record the bytes read, the bytes whose writes
/// were accepted, and the chunk in flight: the machine reaches `Done` only
/// with `written == transferred`, every chunk forwarded unchanged and in
/// order, after the writer was closed.
pub struct CopyMachine {
    pub state: CopyState,
    pub source_path: String,
    pub dest_path: String,
    pub transferred: Ghost<Seq<u8>>,
    pub written: Ghost<Seq<u8>>,
    pub pending: Ghost<Seq<u8>>,
}

impl CopyMachine {
    /// The byte accounting that holds in every reachable state.
    pub open spec fn inv(&self) -> bool {
        match self.state {
            CopyState::Writing => self.transferred@ == self.written@ + self.pending@,
            CopyState::Reading => self.transferred@ == self.written@ && self.pending@.len() == 0,
            CopyState::Closing => self.transferred@ == self.written@ && self.pending@.len() == 0,
            CopyState::Done => self.transferred@ == self.written@ && self.pending@.len() == 0,
            CopyState::Failed => true,
            _ => self.transferred@ == Seq::<u8>::empty() && self.written@ == Seq::<u8>::empty()
                && self.pending@ == Seq::<u8>::empty(),
        }
    }

    /// Start a copy of `source_path` to `dest_path`: the first step is to
    /// stat the source.
    pub fn new(source_path: String, dest_path: String) -> (r: (CopyMachine, CopyAction))
        ensures
            r.0.inv(),
            r.0.state == CopyState::AwaitSourceStat,
            r.0.source_path == source_path,
            r.0.dest_path == dest_path,
            r.1 == CopyAction::StatSource,
    {
        let m = CopyMachine {
            state: CopyState::AwaitSourceStat,
            source_path,
            dest_path,
            transferred: Ghost(Seq::empty()),
            written: Ghost(Seq::empty()),
            pending: Ghost(Seq::empty()),
        };
        (m, CopyAction::StatSource)
    }

    /// Feed the source stat's result. A source that stats as a directory
    /// fails permanently (directory copy is not supported); a stat failure
    /// is classified; otherwise the destination is statted next, keeping
    /// the source's content type and content disposition.
    pub fn source_stat(self, result: Result<Metadata, BackendFailure>) -> (r: (
        CopyMachine,
        CopyAction,
    ))
        requires
            self.inv(),
            self.state == CopyState::AwaitSourceStat,
        ensures
            r.0.inv(),
            r.0.source_path == self.source_path,
            r.0.dest_path == self.dest_path,
            match result {
                Err(f) => r.0.state == CopyState::Failed && (r.1 matches CopyAction::Fail {
                    outcome,
                } && outcome == spec_classify(f)),
                Ok(meta) => {
                    if meta.mode == EntryMode::Dir {
                        r.0.state == CopyState::Failed && (r.1 matches CopyAction::Fail { outcome }
                            && outcome_permanent_with(
                            outcome,
                            501,
                            "copying directories is not supported"@,
                        ))
                    } else {
                        r.0.state == (CopyState::AwaitDestStat {
                            content_type: meta.content_type,
                            content_disposition: meta.content_disposition,
                        }) && r.1 == CopyAction::StatDestination
                    }
                },
            },
    {
        let CopyMachine { state: _, source_path, dest_path, transferred, written, pending } = self;
        match result {
            Err(f) => {
                let m = CopyMachine {
                    state: CopyState::Failed,
                    source_path,
                    dest_path,
                    transferred,
                    written,
                    pending,
                };
                (m, CopyAction::Fail { outcome: classify(f) })
            },
            Ok(meta) => {
                if matches!(meta.mode, EntryMode::Dir) {
                    let m = CopyMachine {
                        state: CopyState::Failed,
                        source_path,
                        dest_path,
                        transferred,
                        written,
                        pending,
                    };
                    let outcome = Outcome::Permanent {
                        code: 501,
                        message: "copying directories is not supported".to_owned(),
                    };
                    (m, CopyAction::Fail { outcome })
                } else {
                    let m = CopyMachine {
                        state: CopyState::AwaitDestStat {
                            content_type: meta.content_type,
                            content_disposition: meta.content_disposition,
                        },
                        source_path,
                        dest_path,
                        transferred,
                        written,
                        pending,
                    };
                    (m, CopyAction::StatDestination)
                }
            },
        }
    }

    /// Feed the destination stat's result: decide the real destination
    /// path per [`spec_dest_decision`] and open the streams, or fail.
    pub fn dest_stat(self, result: Result<Metadata, BackendFailure>) -> (r: (
        CopyMachine,
        CopyAction,
    ))
        requires
            self.inv(),
            self.state matches CopyState::AwaitDestStat { .. },
        ensures
            r.0.inv(),
            r.0.source_path == self.source_path,
            r.0.dest_path == self.dest_path,
            match self.state {
                CopyState::AwaitDestStat { content_type, content_disposition } => match
                    spec_dest_decision(
                    self.dest_path@,
                    self.source_path@,
                    content_disposition,
                    result,
                ) {
                    DestDecision::UseReal { path } => r.0.state == CopyState::AwaitOpen && (r.1
                        matches CopyAction::OpenStreams { real_path, content_type: ct }
                        && real_path@ == path && ct == content_type),
                    DestDecision::NoFilename => r.0.state == CopyState::Failed && (r.1 matches
                        CopyAction::Fail { outcome } && outcome_permanent_with(
                        outcome,
                        400,
                        "source has no filename"@,
                    )),
                    DestDecision::Aborted => r.0.state == CopyState::Failed && (r.1 matches
                        CopyAction::Fail { outcome } && (result matches Err(f) && outcome
                        == spec_classify(f))),
                },
                _ => false,
            },
    {
        let CopyMachine { state, source_path, dest_path, transferred, written, pending } = self;
        let (content_type, content_disposition) = match state {
            CopyState::AwaitDestStat { content_type, content_disposition } => (
                content_type,
                content_disposition,
            ),
            _ => {
                proof {
                    assert(false);
                }
                (None, None)
            },
        };
        match result {
            Err(f) => {
                if matches!(f.kind, FailureKind::NotFound) {
                    let real_path = dest_path.clone();
                    let m = CopyMachine {
                        state: CopyState::AwaitOpen,
                        source_path,
                        dest_path,
                        transferred,
                        written,
                        pending,
                    };
                    (m, CopyAction::OpenStreams { real_path, content_type })
                } else {
                    let m = CopyMachine {
                        state: CopyState::Failed,
                        source_path,
                        dest_path,
                        transferred,
                        written,
                        pending,
                    };
                    (m, CopyAction::Fail { outcome: classify(f) })
                }
            },
            Ok(meta) => {
                if matches!(meta.mode, EntryMode::Dir) {
                    let name = file_name(source_path.as_str());
                    let derived: Option<String> = if name.as_str().unicode_len() > 0 {
                        Some(join_path(dest_path.as_str(), name.as_str()))
                    } else {
                        match &content_disposition {
                            Some(h) => match content_disposition_filename(h.as_str()) {
                                Some(n) => {
                                    if n.as_str().unicode_len() > 0 {
                                        Some(join_path(dest_path.as_str(), n.as_str()))
                                    } else {
                                        None
                                    }
                                },
                                None => None,
                            },
                            None => None,
                        }
                    };
                    match derived {
                        Some(real_path) => {
                            let m = CopyMachine {
                                state: CopyState::AwaitOpen,
                                source_path,
                                dest_path,
                                transferred,
                                written,
                                pending,
                            };
                            (m, CopyAction::OpenStreams { real_path, content_type })
                        },
                        None => {
                            let m = CopyMachine {
                                state: CopyState::Failed,
                                source_path,
                                dest_path,
                                transferred,
                                written,
                                pending,
                            };
                            let outcome = Outcome::Permanent {
                                code: 400,
                                message: "source has no filename".to_owned(),
                            };
                            (m, CopyAction::Fail { outcome })
                        },
                    }
                } else {
                    let real_path = dest_path.clone();
                    let m = CopyMachine {
                        state: CopyState::AwaitOpen,
                        source_path,
                        dest_path,
                        transferred,
                        written,
                        pending,
                    };
                    (m, CopyAction::OpenStreams { real_path, content_type })
                }
            },
        }
    }

    /// Feed the result of opening the reader and writer.
    pub fn streams_opened(self, result: Option<BackendFailure>) -> (r: (CopyMachine, CopyAction))
        requires
            self.inv(),
            self.state == CopyState::AwaitOpen,
        ensures
            r.0.inv(),
            r.0.source_path == self.source_path,
            r.0.dest_path == self.dest_path,
            match result {
                Some(f) => r.0.state == CopyState::Failed && (r.1 matches CopyAction::Fail {
                    outcome,
                } && outcome == spec_classify(f)),
                None => r.0.state == CopyState::Reading && r.1 == CopyAction::Read,
            },
    {
        let CopyMachine { state: _, source_path, dest_path, transferred, written, pending } = self;
        match result {
            Some(f) => {
                let m = CopyMachine {
                    state: CopyState::Failed,
                    source_path,
                    dest_path,
                    transferred,
                    written,
                    pending,
                };
                (m, CopyAction::Fail { outcome: classify(f) })
            },
            None => {
                let m = CopyMachine {
                    state: CopyState::Reading,
                    source_path,
                    dest_path,
                    transferred,
                    written,
                    pending,
                };
                (m, CopyAction::Read)
            },
        }
    }

    /// Feed the next chunk read: a chunk is forwarded unchanged to the
    /// writer; exhaustion closes the writer; a read failure aborts.
    pub fn chunk_read(self, result: Result<Option<Vec<u8>>, BackendFailure>) -> (r: (
        CopyMachine,
        CopyAction,
    ))
        requires
            self.inv(),
            self.state == CopyState::Reading,
        ensures
            r.0.inv(),
            r.0.source_path == self.source_path,
            r.0.dest_path == self.dest_path,
            match result {
                Ok(Some(data)) => {
                    &&& r.0.state == CopyState::Writing
                    &&& r.0.transferred@ == self.transferred@ + data@
                    &&& r.0.written@ == self.written@
                    &&& r.0.pending@ == data@
                    &&& (r.1 matches CopyAction::Write { data: d } && d == data)
                },
                Ok(None) => {
                    &&& r.0.state == CopyState::Closing
                    &&& r.0.transferred@ == self.transferred@
                    &&& r.0.written@ == self.written@
                    &&& r.1 == CopyAction::CloseWriter
                },
                Err(f) => r.0.state == CopyState::Failed && (r.1 matches CopyAction::Fail {
                    outcome,
                } && outcome == spec_classify(f)),
            },
    {
        let CopyMachine { state: _, source_path, dest_path, transferred, written, pending: _ } =
            self;
        match result {
            Ok(Some(data)) => {
                let m = CopyMachine {
                    state: CopyState::Writing,
                    source_path,
                    dest_path,
                    transferred: Ghost(transferred@ + data@),
                    written,
                    pending: Ghost(data@),
                };
                (m, CopyAction::Write { data })
            },
            Ok(None) => {
                let m = CopyMachine {
                    state: CopyState::Closing,
                    source_path,
                    dest_path,
                    transferred,
                    written,
                    pending: Ghost(Seq::empty()),
                };
                (m, CopyAction::CloseWriter)
            },
            Err(f) => {
                let m = CopyMachine {
                    state: CopyState::Failed,
                    source_path,
                    dest_path,
                    transferred,
                    written,
                    pending: Ghost(Seq::empty()),
                };
                (m, CopyAction::Fail { outcome: classify(f) })
            },
        }
    }

    /// Feed the pending write's result: acceptance appends the chunk to
    /// the written bytes, in order, and asks for the next read.
    pub fn chunk_written(self, result: Option<BackendFailure>) -> (r: (CopyMachine, CopyAction))
        requires
            self.inv(),
            self.state == CopyState::Writing,
        ensures
            r.0.inv(),
            r.0.source_path == self.source_path,
            r.0.dest_path == self.dest_path,
            match result {
                None => {
                    &&& r.0.state == CopyState::Reading
                    &&& r.0.written@ == self.written@ + self.pending@
                    &&& r.0.transferred@ == self.transferred@
                    &&& r.1 == CopyAction::Read
                },
                Some(f) => r.0.state == CopyState::Failed && (r.1 matches CopyAction::Fail {
                    outcome,
                } && outcome == spec_classify(f)),
            },
    {
        let CopyMachine { state: _, source_path, dest_path, transferred, written, pending } = self;
        match result {
            None => {
                let m = CopyMachine {
                    state: CopyState::Reading,
                    source_path,
                    dest_path,
                    transferred,
                    written: Ghost(written@ + pending@),
                    pending: Ghost(Seq::empty()),
                };
                (m, CopyAction::Read)
            },
            Some(f) => {
                let m = CopyMachine {
                    state: CopyState::Failed,
                    source_path,
                    dest_path,
                    transferred,
                    written,
                    pending,
                };
                (m, CopyAction::Fail { outcome: classify(f) })
            },
        }
    }

    /// Feed the writer close's result: only a successful close completes
    /// the copy, and then every transferred byte was written, in order.
    pub fn writer_closed(self, result: Option<BackendFailure>) -> (r: (CopyMachine, CopyAction))
        requires
            self.inv(),
            self.state == CopyState::Closing,
        ensures
            r.0.inv(),
            r.0.source_path == self.source_path,
            r.0.dest_path == self.dest_path,
            match result {
                None => {
                    &&& r.0.state == CopyState::Done
                    &&& r.1 == CopyAction::Finish
                    &&& r.0.written@ == self.transferred@
                },
                Some(f) => r.0.state == CopyState::Failed && (r.1 matches CopyAction::Fail {
                    outcome,
                } && outcome == spec_classify(f)),
            },
    {
        let CopyMachine { state: _, source_path, dest_path, transferred, written, pending } = self;
        match result {
            None => {
                let m = CopyMachine {
                    state: CopyState::Done,
                    source_path,
                    dest_path,
                    transferred,
                    written,
                    pending,
                };
                (m, CopyAction::Finish)
            },
            Some(f) => {
                let m = CopyMachine {
                    state: CopyState::Failed,
                    source_path,
                    dest_path,
                    transferred,
                    written,
                    pending,
                };
                (m, CopyAction::Fail { outcome: classify(f) })
            },
        }
    }
}

/// Options for a copy request; an absent field means the driver's default.
pub struct CopyOptions {
    /// Preferred chunk size for the streaming transfer.
    pub chunk: Option<usize>,
}

/// A copy request: source and destination locations, each a full URI.
pub struct CopyRequest {
    pub source: String,
    pub destination: String,
    pub options: Option<CopyOptions>,
}

/// Source and destination, each resolved independently.
pub struct CopyPrep {
    pub source_op: opendal::Operator,
    pub source_path: String,
    pub dest_op: opendal::Operator,
    pub dest_path: String,
}

/// Parse both of a copy request's locations and resolve each root
/// independently; the object paths are the locations' path components, and
/// any parse or resolution failure aborts the copy before any I/O.
pub fn prepare_copy(factory: &OperatorFactory, request: &CopyRequest) -> (r: Result<
    CopyPrep,
    ResolveError,
>)
    requires
        factory.wf(),
    ensures
        match r {
            Ok(p) => {
                &&& has_uri_root(request.source@)
                &&& has_uri_root(request.destination@)
                &&& p.source_path@ == uri_path(request.source@)
                &&& p.dest_path@ == uri_path(request.destination@)
                &&& !(spec_decide(*factory, uri_root(request.source@)) matches Decision::Refuse {
                    ..
                })
                &&& !(spec_decide(*factory, uri_root(request.destination@))
                    matches Decision::Refuse { .. })
            },
            Err(e) => {
                ||| (!has_uri_root(request.source@) && e matches ResolveError::InvalidLocation)
                ||| (has_uri_root(request.source@) && resolve_error_matches_decision(
                    spec_decide(*factory, uri_root(request.source@)),
                    e,
                ))
                ||| (!has_uri_root(request.destination@) && e matches ResolveError::InvalidLocation)
                ||| (has_uri_root(request.destination@) && resolve_error_matches_decision(
                    spec_decide(*factory, uri_root(request.destination@)),
                    e,
                ))
            },
        },
{
    let (source_path, source_op) = match parse_location(factory, request.source.as_str()) {
        Err(e) => {
            return Err(e);
        },
        Ok(p) => p,
    };
    let (dest_path, dest_op) = match parse_location(factory, request.destination.as_str()) {
        Err(e) => {
            return Err(e);
        },
        Ok(p) => p,
    };
    Ok(CopyPrep { source_op, source_path, dest_op, dest_path })
}

} // verus!
