//! The processes the launcher runs: which program, with which arguments, and how its answer is read.
use crate::text::{append_decimal, decimal, lemma_decimal_injective, texts};
use vstd::prelude::*;
use vstd::string::*;
use vstd::utf8::{decode_utf8, valid_utf8};

verus! {

/// The family of operating system the launcher runs on.
#[derive(Clone, Copy, Debug, PartialEq, Eq, Structural)]
pub enum Platform {
    Windows,
    Unix,
}

/// What one of a process's standard streams is connected to.
#[derive(Clone, Copy, Debug, PartialEq, Eq, Structural)]
pub enum Stream {
    /// The launcher's own stream.
    Inherit,
    /// Nothing.
    Null,
    /// A pipe that the launcher reads.
    Piped,
}

/// A process to start.
#[derive(Debug, PartialEq, Eq)]
pub struct CommandSpec {
    pub program: String,
    pub args: Vec<String>,
    /// Start without a visible console window (Windows only).
    pub no_window: bool,
    /// Start at the head of a new process group, which its own children join (Unix only).
    pub own_group: bool,
    pub stdin: Stream,
    pub stdout: Stream,
    pub stderr: Stream,
}

/// The contents of a [`CommandSpec`].
#[verifier::ext_equal]
pub struct CommandView {
    pub program: Seq<char>,
    pub args: Seq<Seq<char>>,
    pub no_window: bool,
    pub own_group: bool,
    pub stdin: Stream,
    pub stdout: Stream,
    pub stderr: Stream,
}

impl View for CommandSpec {
    type V = CommandView;

    open spec fn view(&self) -> CommandView {
        CommandView {
            program: self.program@,
            args: texts(self.args@),
            no_window: self.no_window,
            own_group: self.own_group,
            stdin: self.stdin,
            stdout: self.stdout,
            stderr: self.stderr,
        }
    }
}

impl CommandView {
    /// The same command with its standard streams connected as given.
    pub open spec fn with_streams(self, stdin: Stream, stdout: Stream, stderr: Stream) -> CommandView {
        CommandView { stdin, stdout, stderr, ..self }
    }
}

/// The command that starts the web service.
///
/// On Windows `npx` is a script that only the command interpreter can run. On Unix the service gets
/// a process group of its own, by which all of its processes can be ended.
pub open spec fn service_command(platform: Platform) -> CommandView {
    match platform {
        Platform::Windows => CommandView {
            program: "cmd"@,
            args: seq!["/C"@, "npx @deepseek-ai/dsh web"@],
            no_window: true,
            own_group: false,
            stdin: Stream::Inherit,
            stdout: Stream::Inherit,
            stderr: Stream::Inherit,
        },
        Platform::Unix => CommandView {
            program: "npx"@,
            args: seq!["@deepseek-ai/dsh"@, "web"@],
            no_window: false,
            own_group: true,
            stdin: Stream::Inherit,
            stdout: Stream::Inherit,
            stderr: Stream::Inherit,
        },
    }
}

/// The command that starts the web service with its output piped to the launcher.
pub open spec fn piped_service_command(platform: Platform) -> CommandView {
    service_command(platform).with_streams(Stream::Null, Stream::Piped, Stream::Piped)
}

/// The command that runs a command line in the platform's shell and captures its output.
pub open spec fn shell_command(platform: Platform, cmdline: Seq<char>) -> CommandView {
    match platform {
        Platform::Windows => CommandView {
            program: "cmd"@,
            args: seq!["/C"@, cmdline],
            no_window: true,
            own_group: false,
            stdin: Stream::Null,
            stdout: Stream::Piped,
            stderr: Stream::Null,
        },
        Platform::Unix => CommandView {
            program: "sh"@,
            args: seq!["-c"@, cmdline],
            no_window: false,
            own_group: false,
            stdin: Stream::Null,
            stdout: Stream::Piped,
            stderr: Stream::Null,
        },
    }
}

fn two_args(first: &str, second: &str) -> (args: Vec<String>)
    ensures
        texts(args@) == seq![first@, second@],
{
    let mut args: Vec<String> = Vec::new();
    args.push(first.to_owned());
    args.push(second.to_owned());
    assert(texts(args@) =~= seq![first@, second@]);
    args
}

/// The command that starts the web service.
pub fn build_command(platform: Platform) -> (command: CommandSpec)
    ensures
        command@ == service_command(platform),
{
    match platform {
        Platform::Windows => CommandSpec {
            program: "cmd".to_owned(),
            args: two_args("/C", "npx @deepseek-ai/dsh web"),
            no_window: true,
            own_group: false,
            stdin: Stream::Inherit,
            stdout: Stream::Inherit,
            stderr: Stream::Inherit,
        },
        Platform::Unix => CommandSpec {
            program: "npx".to_owned(),
            args: two_args("@deepseek-ai/dsh", "web"),
            no_window: false,
            own_group: true,
            stdin: Stream::Inherit,
            stdout: Stream::Inherit,
            stderr: Stream::Inherit,
        },
    }
}

/// The command that starts the web service with its output piped to the launcher.
pub fn build_piped_command(platform: Platform) -> (command: CommandSpec)
    ensures
        command@ == piped_service_command(platform),
{
    let command: CommandSpec = build_command(platform);
    CommandSpec {
        program: command.program,
        args: command.args,
        no_window: command.no_window,
        own_group: command.own_group,
        stdin: Stream::Null,
        stdout: Stream::Piped,
        stderr: Stream::Piped,
    }
}

/// The command that runs `cmdline` in the platform's shell and captures its standard output.
pub fn run_output(platform: Platform, cmdline: &str) -> (command: CommandSpec)
    ensures
        command@ == shell_command(platform, cmdline@),
{
    match platform {
        Platform::Windows => CommandSpec {
            program: "cmd".to_owned(),
            args: two_args("/C", cmdline),
            no_window: true,
            own_group: false,
            stdin: Stream::Null,
            stdout: Stream::Piped,
            stderr: Stream::Null,
        },
        Platform::Unix => CommandSpec {
            program: "sh".to_owned(),
            args: two_args("-c", cmdline),
            no_window: false,
            own_group: false,
            stdin: Stream::Null,
            stdout: Stream::Piped,
            stderr: Stream::Null,
        },
    }
}

/// What a finished process left behind.
#[derive(Debug, PartialEq, Eq)]
pub struct CommandOutput {
    /// Whether the process reported success.
    pub success: bool,
    /// The bytes it wrote to its standard output.
    pub stdout: Vec<u8>,
}

/// The contents of a [`CommandOutput`].
pub struct CommandOutputView {
    pub success: bool,
    pub stdout: Seq<u8>,
}

impl View for CommandOutput {
    type V = CommandOutputView;

    open spec fn view(&self) -> CommandOutputView {
        CommandOutputView { success: self.success, stdout: self.stdout@ }
    }
}

/// The contents of the output of a process that may not have run.
pub open spec fn output_view(output: Option<CommandOutput>) -> Option<CommandOutputView> {
    match output {
        Some(o) => Some(o@),
        None => None,
    }
}

/// A process ran and reported success.
pub open spec fn succeeded(output: Option<CommandOutputView>) -> bool {
    match output {
        Some(o) => o.success,
        None => false,
    }
}

/// The text a process wrote, if it ran.
pub open spec fn stdout_text(output: Option<CommandOutputView>) -> Option<Seq<char>> {
    match output {
        Some(o) => Some(lossy_text(o.stdout)),
        None => None,
    }
}

/// The text that `String::from_utf8_lossy` makes of a byte sequence.
pub uninterp spec fn lossy_text(bytes: Seq<u8>) -> Seq<char>;

/// Calls `String::from_utf8_lossy`.
///
/// Claims that the text is a function of the bytes, and that bytes which are valid UTF-8 are
/// decoded as such. How many replacement characters stand for an invalid sequence is left unsaid.
#[verifier::external_body]
fn decode_lossy(bytes: &[u8]) -> (text: String)
    ensures
        text@ == lossy_text(bytes@),
        valid_utf8(bytes@) ==> text@ == decode_utf8(bytes@),
{
    String::from_utf8_lossy(bytes).into_owned()
}

/// Whether a command line ran and reported success; `output` is `None` if it could not be run.
pub fn run_ok(output: &Option<CommandOutput>) -> (ok: bool)
    ensures
        ok == succeeded(output_view(*output)),
{
    match output {
        Some(o) => o.success,
        None => false,
    }
}

/// The text a command line wrote; `output` is `None` if it could not be run.
pub fn stdout_of(output: &Option<CommandOutput>) -> (text: Option<String>)
    ensures
        text is Some <==> output is Some,
        text matches Some(t) ==> stdout_text(output_view(*output)) == Some(t@),
        output matches Some(o) ==> valid_utf8(o.stdout@) ==> text->0@ == decode_utf8(o.stdout@),
{
    match output {
        Some(o) => Some(decode_lossy(o.stdout.as_slice())),
        None => None,
    }
}

/// How a running child process is ended, before it is waited for.
#[derive(Debug, PartialEq, Eq)]
pub enum Termination {
    /// Run a command that ends the whole process tree.
    KillTree(CommandSpec),
    /// Kill the child itself.
    Kill,
}

/// The contents of a [`Termination`].
pub enum TerminationView {
    KillTree(CommandView),
    Kill,
}

impl View for Termination {
    type V = TerminationView;

    open spec fn view(&self) -> TerminationView {
        match self {
            Termination::KillTree(command) => TerminationView::KillTree(command@),
            Termination::Kill => TerminationView::Kill,
        }
    }
}

/// How the child with the given process identifier is ended.
pub open spec fn termination(platform: Platform, pid: u32) -> TerminationView {
    match platform {
        Platform::Windows => TerminationView::KillTree(
            CommandView {
                program: "taskkill"@,
                args: seq!["/F"@, "/T"@, "/PID"@, decimal(pid as nat)],
                no_window: true,
                own_group: false,
                stdin: Stream::Null,
                stdout: Stream::Null,
                stderr: Stream::Null,
            },
        ),
        Platform::Unix => TerminationView::KillTree(
            CommandView {
                program: "kill"@,
                args: seq!["-s"@, "KILL"@, "--"@, "-"@ + decimal(pid as nat)],
                no_window: false,
                own_group: false,
                stdin: Stream::Null,
                stdout: Stream::Null,
                stderr: Stream::Null,
            },
        ),
    }
}

/// The numeral of a process identifier behind `sign`.
fn numeral(sign: &str, pid: u32) -> (text: String)
    ensures
        text@ == sign@ + decimal(pid as nat),
{
    let mut text: String = sign.to_owned();
    append_decimal(&mut text, pid as u64);
    text
}

fn four_args(first: &str, second: &str, third: &str, fourth: String) -> (args: Vec<String>)
    ensures
        texts(args@) == seq![first@, second@, third@, fourth@],
{
    let mut args: Vec<String> = Vec::new();
    args.push(first.to_owned());
    args.push(second.to_owned());
    args.push(third.to_owned());
    args.push(fourth);
    assert(texts(args@) =~= seq![first@, second@, third@, fourth@]);
    args
}

/// How the child with the given process identifier is ended, so that none of its own children
/// survive: on Windows the tree below it is ended, on Unix the process group that it heads, as a
/// child started with `own_group` does.
pub fn terminate_child(platform: Platform, pid: u32) -> (how: Termination)
    ensures
        how@ == termination(platform, pid),
{
    match platform {
        Platform::Windows => {
            let number: String = numeral("", pid);
            proof {
                reveal_strlit("");
            }
            assert(number@ =~= decimal(pid as nat));
            Termination::KillTree(
                CommandSpec {
                    program: "taskkill".to_owned(),
                    args: four_args("/F", "/T", "/PID", number),
                    no_window: true,
                    own_group: false,
                    stdin: Stream::Null,
                    stdout: Stream::Null,
                    stderr: Stream::Null,
                },
            )
        },
        Platform::Unix => Termination::KillTree(
            CommandSpec {
                program: "kill".to_owned(),
                args: four_args("-s", "KILL", "--", numeral("-", pid)),
                no_window: false,
                own_group: false,
                stdin: Stream::Null,
                stdout: Stream::Null,
                stderr: Stream::Null,
            },
        ),
    }
}

/// What is left to do, before the child is waited for, once the command that ends the process tree
/// was run; `ended` tells whether it ran and reported success. On Unix the child itself is killed
/// where the command failed, so that the wait ends.
pub fn after_kill_tree(platform: Platform, ended: bool) -> (rest: Option<Termination>)
    ensures
        rest is Some <==> platform == Platform::Unix && !ended,
        rest matches Some(how) ==> how@ == TerminationView::Kill,
{
    if platform == Platform::Unix && !ended {
        Some(Termination::Kill)
    } else {
        None
    }
}

/// On every platform the child's whole process tree is ended by a command that names that child and
/// no other. Where that command names a process group, the service was started as the head
/// of one, and the command itself is not part of it.
pub proof fn law_whole_tree_is_ended(platform: Platform, pid: u32, other: u32)
    ensures
        termination(platform, pid) matches TerminationView::KillTree(command) && {
            &&& command.args.last() == (match platform {
                Platform::Windows => decimal(pid as nat),
                Platform::Unix => "-"@ + decimal(pid as nat),
            })
            &&& !command.own_group
        },
        platform == Platform::Unix ==> piped_service_command(platform).own_group,
        termination(platform, pid) == termination(platform, other) ==> pid == other,
{
    if termination(platform, pid) == termination(platform, other) {
        let a = termination(platform, pid)->KillTree_0.args.last();
        let b = termination(platform, other)->KillTree_0.args.last();
        if platform == Platform::Unix {
            assert(a.skip("-"@.len() as int) =~= decimal(pid as nat));
            assert(b.skip("-"@.len() as int) =~= decimal(other as nat));
        }
        lemma_decimal_injective(pid as nat, other as nat);
    }
}

/// Words with a space between each two.
pub open spec fn spaced(words: Seq<Seq<char>>) -> Seq<char>
    decreases words.len(),
{
    if words.len() == 0 {
        Seq::empty()
    } else if words.len() == 1 {
        words[0]
    } else {
        spaced(words.drop_last()) + " "@ + words.last()
    }
}

/// Both platforms run the same service: what Windows hands to its command interpreter is the
/// program and the arguments of the Unix command, with spaces between them. No console window is
/// opened on Windows, and on Unix the service heads a process group.
pub proof fn law_platforms_run_the_same_service()
    ensures
        ({
            let windows = service_command(Platform::Windows);
            let unix = service_command(Platform::Unix);
            &&& unix.program == "npx"@
            &&& unix.args.len() == 2 && unix.args[0] == "@deepseek-ai/dsh"@ && unix.args[1]
                == "web"@
            &&& windows.program == "cmd"@
            &&& windows.args.len() == 2 && windows.args[0] == "/C"@
            &&& windows.args[1] == spaced(seq![unix.program] + unix.args)
            &&& windows.no_window && !windows.own_group
            &&& unix.own_group && !unix.no_window
        }),
{
    reveal_strlit("npx @deepseek-ai/dsh web");
    reveal_strlit("npx");
    reveal_strlit("@deepseek-ai/dsh");
    reveal_strlit("web");
    reveal_strlit(" ");
    let unix = service_command(Platform::Unix);
    let words = seq![unix.program] + unix.args;
    reveal_with_fuel(spaced, 4);
    assert(words.drop_last().drop_last() =~= seq!["npx"@]);
    assert(words.drop_last().last() == "@deepseek-ai/dsh"@);
    assert(words.last() == "web"@);
    assert(spaced(words) =~= "npx @deepseek-ai/dsh web"@);
}

/// Piping changes nothing of a command but its streams: nothing is typed into the service, and both
/// of its outputs are read.
pub proof fn law_piping_changes_only_streams(platform: Platform)
    ensures
        ({
            let plain = service_command(platform);
            let piped = piped_service_command(platform);
            &&& piped.program == plain.program
            &&& piped.args == plain.args
            &&& piped.no_window == plain.no_window
            &&& piped.own_group == plain.own_group
            &&& piped.stdin == Stream::Null
            &&& piped.stdout == Stream::Piped
            &&& piped.stderr == Stream::Piped
            &&& plain.stdin == Stream::Inherit
            &&& plain.stdout == Stream::Inherit
            &&& plain.stderr == Stream::Inherit
        }),
{
}

/// A command line reaches the platform's shell as it is, in one piece, and makes no other
/// difference: two command lines run in the same way. Only what the shell writes to its standard
/// output is captured.
pub proof fn law_shell_gets_the_command_line(
    platform: Platform,
    cmdline: Seq<char>,
    other: Seq<char>,
)
    ensures
        ({
            let command = shell_command(platform, cmdline);
            &&& command.args.len() == 2
            &&& command.args[1] == cmdline
            &&& command.stdin == Stream::Null
            &&& command.stdout == Stream::Piped
            &&& command.stderr == Stream::Null
            &&& !command.own_group
            &&& command.no_window <==> platform == Platform::Windows
            &&& platform == Platform::Windows ==> command.program == "cmd"@ && command.args[0]
                == "/C"@
            &&& platform == Platform::Unix ==> command.program == "sh"@ && command.args[0] == "-c"@
            &&& shell_command(platform, other) == (CommandView {
                args: seq![command.args[0], other],
                ..command
            })
        }),
{
    assert(shell_command(platform, other).args =~= seq![
        shell_command(platform, cmdline).args[0],
        other,
    ]);
}

/// The command that ends a process tree is the same for every child but for the last argument,
/// which names the child. It is forced, covers the tree, and is neither read from nor written to.
pub proof fn law_ending_differs_only_in_the_child(platform: Platform, pid: u32, other: u32)
    ensures
        ({
            let command = termination(platform, pid)->KillTree_0;
            let another = termination(platform, other)->KillTree_0;
            &&& termination(platform, pid) is KillTree
            &&& command.args.len() == 4
            &&& another == (CommandView {
                args: command.args.update(3, another.args[3]),
                ..command
            })
            &&& command.stdin == Stream::Null
            &&& command.stdout == Stream::Null
            &&& command.stderr == Stream::Null
            &&& command.no_window <==> platform == Platform::Windows
            &&& platform == Platform::Windows ==> command.program == "taskkill"@
                && command.args.take(3) == seq!["/F"@, "/T"@, "/PID"@]
            &&& platform == Platform::Unix ==> command.program == "kill"@ && command.args.take(3)
                == seq!["-s"@, "KILL"@, "--"@]
        }),
{
    let command = termination(platform, pid)->KillTree_0;
    let another = termination(platform, other)->KillTree_0;
    assert(another.args =~= command.args.update(3, another.args[3]));
    if platform == Platform::Windows {
        assert(command.args.take(3) =~= seq!["/F"@, "/T"@, "/PID"@]);
    } else {
        assert(command.args.take(3) =~= seq!["-s"@, "KILL"@, "--"@]);
    }
}

/// What a process wrote is read alike whether or not it reported success, and a process that did
/// not run neither succeeded nor wrote anything.
pub proof fn law_output_is_read_alike(bytes: Seq<u8>, success: bool)
    ensures
        stdout_text(Some(CommandOutputView { success, stdout: bytes })) == Some(lossy_text(bytes)),
        succeeded(Some(CommandOutputView { success, stdout: bytes })) == success,
        stdout_text(None) is None,
        !succeeded(None),
{
}

} // verus!
