use crate::platform::views_of;
use crate::platform::Platform;
use vstd::prelude::*;
use vstd::string::StringExecFns;

verus! {

/// The help text printed for `--help`/`-h`.
pub const HELP: &'static str = "browse - CLI tool to open an URL in your browser\nUSAGE:\n    browse <URL>\nFLAGS:\n    -h, --help       Prints help information\nPARAMETERS:\n    <URL>            An URL like https://crates.io\n\nGitHub repo: https://github.com/otaviopace/browse\n";

/// A parsed command line: either show the help text, or open a URL.
pub enum Cmd {
    Help,
    /// The URL to open, accepted verbatim from the command line:
    /// no syntax check, no scheme check, no decoding.
    Open(String),
}

/// What the operating system reported of a finished child process:
/// whether it counted as successful, and the status rendered as text
/// for display.
pub struct ExitStatus {
    pub success: bool,
    pub description: String,
}

/// Everything the tool can fail with.
pub enum CmdError {
    /// The command line was malformed; carries the usage message.
    Parse(String),
    /// The child process could not be launched at all; carries the
    /// operating system's error text.
    Command(String),
    /// The child process ran but terminated unsuccessfully.
    ExitCode(ExitStatus),
}

/// A child process to launch: the program's name and its argument list,
/// in order.
pub struct Invocation {
    pub program: String,
    pub args: Vec<String>,
}

/// What executing a command asks of the process's surroundings: write a
/// text to standard output, or launch a child process and wait for it.
///
/// The binary around the library performs the action: `Print` always
/// succeeds, and what a `Launch` came to is judged by [`open_outcome`].
pub enum Action {
    Print(String),
    Launch(Invocation),
}

/// Turns the process's argument list (the program's own name already
/// stripped) into a command.
///
/// Exactly one argument is accepted. `--help` and `-h`, matched exactly
/// and case-sensitively, ask for the help text; any other single
/// argument is taken verbatim as the URL to open. Any other argument
/// count is a usage error, zero arguments included.
pub fn parse_args(args: &[String]) -> (r: Result<Cmd, CmdError>)
    ensures
        args@.len() != 1 ==> (r matches Err(CmdError::Parse(m))
            && m@ == "There should be only one argument to `browse`, either `--help`/`-h` or an `URL`"@),
        args@.len() == 1 && (args@[0]@ == "--help"@ || args@[0]@ == "-h"@)
            ==> r == Ok::<Cmd, CmdError>(Cmd::Help),
        args@.len() == 1 && args@[0]@ != "--help"@ && args@[0]@ != "-h"@
            ==> (r matches Ok(Cmd::Open(url)) && url@ == args@[0]@),
{
    if args.len() != 1 {
        return Err(CmdError::Parse(
            "There should be only one argument to `browse`, either `--help`/`-h` or an `URL`"
                .to_owned(),
        ));
    }

    let arg = &args[0];
    if *arg == "--help".to_owned() || *arg == "-h".to_owned() {
        return Ok(Cmd::Help);
    }

    Ok(Cmd::Open(arg.clone()))
}

impl Cmd {
    /// Turns the command into the action that executes it on the given
    /// platform.
    pub fn execute(self, platform: Platform) -> (a: Action)
        ensures
            self matches Cmd::Help ==> (a matches Action::Print(t) && t@ == HELP@),
            self matches Cmd::Open(url) ==> (a matches Action::Launch(inv)
                && inv.program@ == platform.spec_executable()
                && views_of(inv.args@) == platform.spec_fixed_args().push(url@)),
    {
        match self {
            Cmd::Help => Action::Print(Self::help()),
            Cmd::Open(url) => Action::Launch(Self::open(&url, platform)),
        }
    }

    /// The help text. Showing it always succeeds.
    pub fn help() -> (t: String)
        ensures
            t@ == HELP@,
    {
        HELP.to_owned()
    }

    /// The invocation that opens `url` on `platform`: the platform's
    /// executable, its fixed arguments first and the URL appended last.
    pub fn open(url: &String, platform: Platform) -> (inv: Invocation)
        ensures
            inv.program@ == platform.spec_executable(),
            views_of(inv.args@) == platform.spec_fixed_args().push(url@),
    {
        let target = platform.target();
        let mut args = target.fixed_args;
        args.push(url.clone());
        proof {
            assert(views_of(args@) =~= platform.spec_fixed_args().push(url@));
        }
        Invocation { program: target.executable, args }
    }
}

/// Judges what an attempted launch came to: `Err` with the operating
/// system's text when the child could not be launched at all, the
/// child's exit status otherwise.
///
/// A launch failure is reported as [`CmdError::Command`], an
/// unsuccessful exit status as [`CmdError::ExitCode`], and a successful
/// one as success.
pub fn open_outcome(outcome: Result<ExitStatus, String>) -> (r: Result<(), CmdError>)
    ensures
        (match outcome {
            Err(m) => r matches Err(CmdError::Command(e)) && e == m,
            Ok(st) => if st.success {
                r is Ok
            } else {
                r matches Err(CmdError::ExitCode(e)) && e == st
            },
        }),
{
    match outcome {
        Err(error) => Err(CmdError::Command(error)),
        Ok(status) => {
            if !status.success {
                Err(CmdError::ExitCode(status))
            } else {
                Ok(())
            }
        },
    }
}

impl CmdError {
    /// The error's display text: the carried message, or for an
    /// unsuccessful exit the status's rendering.
    pub open spec fn spec_message(self) -> Seq<char> {
        match self {
            CmdError::Parse(s) => s@,
            CmdError::Command(s) => s@,
            CmdError::ExitCode(st) => st.description@,
        }
    }

    /// The error's display text.
    pub fn message(&self) -> (r: String)
        ensures
            r@ == self.spec_message(),
    {
        match self {
            CmdError::Parse(s) => s.clone(),
            CmdError::Command(s) => s.clone(),
            CmdError::ExitCode(st) => st.description.clone(),
        }
    }
}

/// The diagnostic line written to standard error when the tool fails.
pub open spec fn spec_failure_report(message: Option<Seq<char>>) -> Seq<char> {
    match message {
        Some(m) => "Failed to open browser, error message: "@ + m,
        None => "Failed to open browser"@,
    }
}

/// Every failure report begins with the fixed failure text, whether or
/// not a message was supplied and whatever the message says.
pub proof fn lemma_failure_report_prefix(message: Option<Seq<char>>)
    ensures
        spec_failure_report(message).len() >= "Failed to open browser"@.len(),
        spec_failure_report(message).subrange(0, "Failed to open browser"@.len() as int)
            == "Failed to open browser"@,
{
    reveal_strlit("Failed to open browser");
    reveal_strlit("Failed to open browser, error message: ");
    assert(spec_failure_report(message).subrange(0, "Failed to open browser"@.len() as int)
        =~= "Failed to open browser"@);
}

/// Renders the diagnostic line for a failure: the fixed failure text,
/// followed by the error's message when one was supplied.
pub fn failure_report(message: Option<&String>) -> (r: String)
    ensures
        message matches Some(m) ==> r@ == spec_failure_report(Some(m@)),
        message is None ==> r@ == spec_failure_report(None),
{
    match message {
        Some(m) => {
            let mut line = "Failed to open browser, error message: ".to_owned();
            line.append(m.as_str());
            line
        },
        None => "Failed to open browser".to_owned(),
    }
}

} // verus!
