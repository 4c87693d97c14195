use vstd::prelude::*;
use vstd::string::StringExecFns;

verus! {

/// The line written to the error stream when the arguments are unusable.
pub open spec fn argument_problem_line(message: Seq<char>) -> Seq<char> {
    "Problem parsing arguments: "@ + message
}

/// The line written to the error stream when the file cannot be read.
pub open spec fn application_error_line(reason: Seq<char>) -> Seq<char> {
    "Application error: "@ + reason
}

/// What standard output receives once the file has been read.
pub open spec fn with_text_report(contents: Seq<char>) -> Seq<char> {
    "With text:\n"@ + contents
}

/// How one invocation ends: text for standard output and exit code 0, or a
/// diagnostic line for the error stream and exit code 1.
pub enum Outcome {
    Success(String),
    Failure(String),
}

impl Outcome {
    /// The process exit code that belongs to this outcome.
    pub open spec fn code(&self) -> i32 {
        match self {
            Outcome::Success(_) => 0,
            Outcome::Failure(_) => 1,
        }
    }

    /// The text that this outcome writes, to standard output on success and
    /// to the error stream on failure.
    pub open spec fn message(&self) -> Seq<char> {
        match self {
            Outcome::Success(t) => t@,
            Outcome::Failure(t) => t@,
        }
    }

    pub fn exit_code(&self) -> (r: i32)
        ensures
            r == self.code(),
    {
        match self {
            Outcome::Success(_) => 0,
            Outcome::Failure(_) => 1,
        }
    }

    pub fn text(&self) -> (r: &str)
        ensures
            r@ == self.message(),
    {
        match self {
            Outcome::Success(t) => t.as_str(),
            Outcome::Failure(t) => t.as_str(),
        }
    }
}

/// Builds the report of a successful read: a label line, then the contents.
pub fn with_text(contents: &str) -> (r: String)
    ensures
        r@ == with_text_report(contents@),
{
    let mut r = String::from_str("With text:\n");
    r.append(contents);
    r
}

/// The outcome of an invocation whose arguments were refused with `message`.
pub fn argument_problem(message: &str) -> (r: Outcome)
    ensures
        r is Failure,
        r.code() == 1,
        r.message() == argument_problem_line(message@),
{
    let mut line = String::from_str("Problem parsing arguments: ");
    line.append(message);
    Outcome::Failure(line)
}

/// The outcome of an invocation once the file has been read, or has failed
/// to be read for the given reason.
pub fn read_outcome(read: Result<String, String>) -> (r: Outcome)
    ensures
        match read {
            Ok(contents) => r is Success && r.message() == with_text_report(contents@),
            Err(reason) => r is Failure && r.message() == application_error_line(reason@),
        },
        r.code() == (if read is Ok { 0i32 } else { 1i32 }),
{
    match read {
        Ok(contents) => Outcome::Success(with_text(contents.as_str())),
        Err(reason) => {
            let mut line = String::from_str("Application error: ");
            line.append(reason.as_str());
            Outcome::Failure(line)
        },
    }
}

} // verus!
