//! The observable side of a launched sync process: what its invocation was,
//! how a non-blocking wait call came back, how that is classified into a
//! terminal outcome, and how its structured log stream is decoded into a
//! progress sample.

use vstd::prelude::*;

use crate::strutil::{clone_strings, join_lines, spec_join};

verus! {

/// Why a command failed, with the invocation retained for diagnostics.
#[derive(Clone, Debug)]
pub enum CommandError {
    /// The operating system refused to start the process.
    Launched { program: String, args: Vec<String>, raw: String },
    /// The process ran and exited with a nonzero code; any buffered output
    /// is attached when non-empty.
    Exited {
        program: String,
        args: Vec<String>,
        code: i32,
        stdout: Option<String>,
        stderr: Option<String>,
    },
    /// The process ended without a usable exit code, or its status could
    /// not be retrieved.
    Terminated { program: String, args: Vec<String> },
}

/// What a single non-blocking wait on the child observed.
#[derive(Clone, Copy, Debug)]
pub enum ProcessPoll {
    /// The process has not terminated yet.
    Running,
    /// The process terminated, with an exit code when the platform
    /// provided one.
    Exited(Option<i32>),
    /// The wait call itself failed; the process is presumed dead.
    WaitFailed,
}

impl ProcessPoll {
    /// Whether this observation is terminal: anything but a still-running
    /// process.
    pub open spec fn is_terminal(&self) -> bool {
        !(self is Running)
    }
}

/// The invocation of one launched process, retained while it is monitored
/// so that a failure can report what was run.
#[derive(Clone, Debug)]
pub struct ProcessInfo {
    pub program: String,
    pub args: Vec<String>,
}

/// The diagnostic text attached for one captured stream: the buffered
/// lines joined by newlines, or nothing when no line was buffered.
pub open spec fn spec_diag(lines: Seq<Seq<char>>) -> Option<Seq<char>> {
    if lines.len() == 0 {
        None
    } else {
        Some(spec_join(lines))
    }
}

/// Whether an optional diagnostic string matches the buffered lines it
/// was drawn from.
pub open spec fn diag_matches(d: Option<String>, lines: Seq<Seq<char>>) -> bool {
    match d {
        None => lines.len() == 0,
        Some(s) => lines.len() > 0 && s@ == spec_join(lines),
    }
}

impl ProcessInfo {
    /// Classifies a wait observation: nothing while the process still
    /// runs; success exactly on exit code zero; a nonzero code carries the
    /// buffered output; a missing code or a failed wait is abnormal
    /// termination.
    pub fn succeeded(
        &self,
        poll: &ProcessPoll,
        stdout_lines: &Vec<String>,
        stderr_lines: &Vec<String>,
    ) -> (r: Option<Result<(), CommandError>>)
        ensures
            r is None <==> poll is Running,
            *poll matches ProcessPoll::Exited(c) ==> match c {
                Some(code) => if code == 0 {
                    r == Some(Ok::<(), CommandError>(()))
                } else {
                    r matches Some(Err(e)) && self.is_exit_error(
                        e,
                        code,
                        stdout_lines.deep_view(),
                        stderr_lines.deep_view(),
                    )
                },
                None => r matches Some(Err(e)) && self.is_terminated_error(e),
            },
            poll is WaitFailed ==> (r matches Some(Err(e)) && self.is_terminated_error(e)),
    {
        match poll {
            ProcessPoll::Running => None,
            ProcessPoll::Exited(Some(code)) => {
                if *code == 0 {
                    Some(Ok(()))
                } else {
                    let stdout = join_lines(stdout_lines);
                    let stderr = join_lines(stderr_lines);
                    Some(
                        Err(
                            CommandError::Exited {
                                program: self.program.clone(),
                                args: clone_strings(&self.args),
                                code: *code,
                                stdout,
                                stderr,
                            },
                        ),
                    )
                }
            },
            ProcessPoll::Exited(None) => Some(Err(self.terminated_error())),
            ProcessPoll::WaitFailed => Some(Err(self.terminated_error())),
        }
    }

    /// Whether `e` is the nonzero-exit error this invocation produces for
    /// exit code `code` and the given buffered output.
    pub open spec fn is_exit_error(
        &self,
        e: CommandError,
        code: i32,
        stdout_lines: Seq<Seq<char>>,
        stderr_lines: Seq<Seq<char>>,
    ) -> bool {
        &&& e matches CommandError::Exited {
            program,
            args,
            code: ecode,
            stdout,
            stderr,
        }
        &&& program@ == self.program@
        &&& args.deep_view() == self.args.deep_view()
        &&& ecode == code
        &&& diag_matches(stdout, stdout_lines)
        &&& diag_matches(stderr, stderr_lines)
    }

    /// Whether `e` is the abnormal-termination error for this invocation.
    pub open spec fn is_terminated_error(&self, e: CommandError) -> bool {
        &&& e matches CommandError::Terminated { program, args }
        &&& program@ == self.program@
        &&& args.deep_view() == self.args.deep_view()
    }

    fn terminated_error(&self) -> (e: CommandError)
        ensures
            self.is_terminated_error(e),
    {
        CommandError::Terminated {
            program: self.program.clone(),
            args: clone_strings(&self.args),
        }
    }
}

/// What the sync tool's structured log line carries: the decoded
/// `(bytes transferred, bytes total)` statistics of one line, or nothing
/// for a line that is not such a record. The decoding is a function of the
/// line's characters alone.
pub uninterp spec fn stats_of(line: Seq<char>) -> Option<(u64, u64)>;

/// Relies on serde_json: decodes one log line as a JSON object and reads
/// the `bytes` and `totalBytes` numbers of its `stats` object; any line
/// without them decodes to nothing. The parse is deterministic in the
/// line's text.
#[verifier::external_body]
fn parse_stats_line(line: &str) -> (r: Option<(u64, u64)>)
    ensures
        r == stats_of(line@),
{
    let value: serde_json::Value = serde_json::from_str(line).ok()?;
    let stats = value.get("stats")?;
    let bytes = stats.get("bytes")?.as_u64()?;
    let total_bytes = stats.get("totalBytes")?.as_u64()?;
    Some((bytes, total_bytes))
}

/// The first progress sample decodable from the available lines; lines
/// that do not decode are passed over.
pub open spec fn first_stats(lines: Seq<Seq<char>>) -> Option<(u64, u64)>
    decreases lines.len(),
{
    if lines.len() == 0 {
        None
    } else if stats_of(lines[0]) is Some {
        stats_of(lines[0])
    } else {
        first_stats(lines.drop_first())
    }
}

/// Decodes the first available structured progress sample from the lines
/// currently buffered on the process's error stream. Malformed or
/// irrelevant lines are passed over silently; nothing is returned when no
/// line decodes, which is not an error.
pub fn progress(stderr_lines: &Vec<String>) -> (r: Option<(u64, u64)>)
    ensures
        r == first_stats(stderr_lines.deep_view()),
{
    let ghost dv = stderr_lines.deep_view();
    let mut i: usize = 0;
    proof {
        assert(dv.skip(0) =~= dv);
    }
    while i < stderr_lines.len()
        invariant
            dv == stderr_lines.deep_view(),
            dv.len() == stderr_lines@.len(),
            i <= dv.len(),
            first_stats(dv) == first_stats(dv.skip(i as int)),
            forall|j: int| 0 <= j < i ==> stats_of(dv[j]) is None,
        decreases dv.len() - i,
    {
        let parsed = parse_stats_line(stderr_lines[i].as_str());
        proof {
            assert(dv[i as int] == stderr_lines@[i as int]@);
        }
        if let Some(sample) = parsed {
            proof {
                lemma_first_stats_skip_head(dv, i as int);
            }
            return Some(sample);
        }
        proof {
            lemma_first_stats_skip_head(dv, i as int);
        }
        i += 1;
    }
    proof {
        assert(dv.skip(dv.len() as int).len() == 0);
    }
    None
}

/// Unfolds `first_stats` at position `i`: on the suffix starting at `i`,
/// the first sample is the one of line `i` when that line decodes, and the
/// first sample of the remaining suffix otherwise.
proof fn lemma_first_stats_skip_head(lines: Seq<Seq<char>>, i: int)
    requires
        0 <= i < lines.len(),
    ensures
        stats_of(lines[i]) is Some ==> first_stats(lines.skip(i)) == stats_of(lines[i]),
        stats_of(lines[i]) is None ==> first_stats(lines.skip(i)) == first_stats(
            lines.skip(i + 1),
        ),
{
    assert(lines.skip(i).len() == lines.len() - i);
    assert(lines.skip(i)[0] == lines[i]);
    assert(lines.skip(i).drop_first() =~= lines.skip(i + 1));
}

/// Lines that do not decode are skipped without error: when every line
/// before position `i` fails to decode and line `i` decodes, the first
/// available sample is exactly that of line `i`.
pub proof fn lemma_progress_skips_malformed(lines: Seq<Seq<char>>, i: int)
    requires
        0 <= i < lines.len(),
        forall|j: int| 0 <= j < i ==> stats_of(lines[j]) is None,
        stats_of(lines[i]) is Some,
    ensures
        first_stats(lines) == stats_of(lines[i]),
    decreases i,
{
    if i == 0 {
        assert(first_stats(lines) == stats_of(lines[0]));
    } else {
        assert(lines.drop_first() =~= lines.skip(1));
        lemma_progress_skips_malformed(lines.drop_first(), i - 1);
    }
}

} // verus!
