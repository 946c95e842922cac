use vstd::prelude::*;

verus! {

/// The most characters a reply may hold.
pub const MAX_REPLY_CHARS: usize = 1500;

/// What one execution request came to.
#[derive(Debug, PartialEq, Eq)]
pub enum ExecutionOutcome {
    /// The program exited with status zero.
    Success { stdout: String },
    /// A build step exited with a non-zero status.
    CompileFailure { stderr: String },
    /// The program exited with a non-zero status.
    RuntimeFailure { stderr: String, stdout: String },
    /// The program outlived its time budget and was killed. Output it
    /// produced before that is not kept.
    TimedOut,
    /// The workspace or a process could not be set up.
    InfrastructureError { cause: String },
}

/// The reply to a run that printed nothing.
pub open spec fn no_output_text() -> Seq<char> {
    "(출력 없음)"@
}

/// The first line of every diagnostic reply.
pub open spec fn error_prefix() -> Seq<char> {
    "오류가 발생했습니다.\n"@
}

/// The reply text for `o` before truncation.
pub open spec fn full_text(o: ExecutionOutcome) -> Seq<char> {
    match o {
        ExecutionOutcome::Success { stdout } => if stdout@.len() == 0 {
            no_output_text()
        } else {
            stdout@
        },
        ExecutionOutcome::CompileFailure { stderr } => error_prefix() + stderr@,
        ExecutionOutcome::RuntimeFailure { stderr, stdout } => error_prefix() + stderr@ + stdout@,
        ExecutionOutcome::TimedOut => error_prefix(),
        ExecutionOutcome::InfrastructureError { cause } => error_prefix() + cause@,
    }
}

/// The first `n` characters of `s`, or all of it if it is shorter.
pub open spec fn truncated(s: Seq<char>, n: int) -> Seq<char> {
    if s.len() <= n {
        s
    } else {
        s.subrange(0, n)
    }
}

/// The reply text for `o`.
pub open spec fn reply_text(o: ExecutionOutcome) -> Seq<char> {
    truncated(full_text(o), MAX_REPLY_CHARS as int)
}

/// A reply never exceeds the budget: it holds exactly the first
/// `MAX_REPLY_CHARS` characters of the full text, or all of it if that is
/// shorter; a diagnostic keeps its prefix.
pub proof fn lemma_reply_within_budget(o: ExecutionOutcome)
    ensures
        reply_text(o).len() == (if full_text(o).len() <= MAX_REPLY_CHARS {
            full_text(o).len()
        } else {
            MAX_REPLY_CHARS as nat
        }),
        reply_text(o) == full_text(o).subrange(0, reply_text(o).len() as int),
        !(o is Success) ==> reply_text(o).subrange(0, error_prefix().len() as int) == error_prefix(),
{
    reveal_strlit("오류가 발생했습니다.\n");
    let f = full_text(o);
    assert(f.subrange(0, f.len() as int) =~= f);
    if !(o is Success) {
        assert(f.subrange(0, error_prefix().len() as int) =~= error_prefix());
        assert(reply_text(o).subrange(0, error_prefix().len() as int) =~= error_prefix());
    }
}

/// The first `max` characters of `s`.
pub fn truncate_chars(s: &str, max: usize) -> (r: String)
    ensures
        r@ == truncated(s@, max as int),
{
    let n = s.unicode_len();
    if n <= max {
        String::from_str(s)
    } else {
        String::from_str(s.substring_char(0, max))
    }
}

/// The text shown to the user for `o`, cut to `MAX_REPLY_CHARS` characters.
pub fn assemble(o: &ExecutionOutcome) -> (r: String)
    ensures
        r@ == reply_text(*o),
{
    let full = match o {
        ExecutionOutcome::Success { stdout } => {
            if stdout.as_str().unicode_len() == 0 {
                String::from_str("(출력 없음)")
            } else {
                String::from_str(stdout.as_str())
            }
        },
        ExecutionOutcome::CompileFailure { stderr } => {
            let mut t = String::from_str("오류가 발생했습니다.\n");
            t.append(stderr.as_str());
            t
        },
        ExecutionOutcome::RuntimeFailure { stderr, stdout } => {
            let mut t = String::from_str("오류가 발생했습니다.\n");
            t.append(stderr.as_str());
            t.append(stdout.as_str());
            t
        },
        ExecutionOutcome::TimedOut => String::from_str("오류가 발생했습니다.\n"),
        ExecutionOutcome::InfrastructureError { cause } => {
            let mut t = String::from_str("오류가 발생했습니다.\n");
            t.append(cause.as_str());
            t
        },
    };
    truncate_chars(full.as_str(), MAX_REPLY_CHARS)
}

} // verus!
