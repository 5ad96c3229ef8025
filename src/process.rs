//! Launching a process in a pseudo console, waiting for it, and tearing the
//! session down.
use vstd::prelude::*;
use vstd::string::*;
use crate::error::Error;
use windows::Win32::System::Console::COORD;
use crate::wide::{build_commandline, command_line, env_block, environment_block_unicode, to_wide_nul, utf16_of};

verus! {

/// Wait event: the process has exited.
pub const WAIT_OBJECT_0: u32 = 0;
/// Wait event: the time limit passed first.
pub const WAIT_TIMEOUT: u32 = 0x102;
/// A wait time that never runs out.
pub const INFINITE: u32 = 0xFFFF_FFFF;

/// Creation flag: the startup information carries an attribute list.
pub const EXTENDED_STARTUPINFO_PRESENT: u32 = 0x0008_0000;
/// Creation flag: the environment block is UTF-16.
pub const CREATE_UNICODE_ENVIRONMENT: u32 = 0x0000_0400;
/// The flags a process is created with.
pub const CREATION_FLAGS: u32 = EXTENDED_STARTUPINFO_PRESENT | CREATE_UNICODE_ENVIRONMENT;
/// Startup flag: the standard handles given in the startup information are used.
pub const STARTF_USESTDHANDLES: u32 = 0x0000_0100;
/// The attribute that binds a pseudo console to a new process.
pub const PROC_THREAD_ATTRIBUTE_PSEUDOCONSOLE: usize = 0x0002_0016;

/// The time a wait may take: the given number of milliseconds, or no limit.
pub open spec fn wait_time(timeout: Option<u32>) -> u32 {
    match timeout {
        Some(t) => t,
        None => INFINITE,
    }
}

/// The number of milliseconds to hand to the wait call.
pub fn wait_interval(timeout: Option<u32>) -> (r: u32)
    ensures
        r == wait_time(timeout),
{
    match timeout {
        Some(t) => t,
        None => INFINITE,
    }
}

/// What a wait on the process decides: with a time limit, only running out
/// of time is an error; without one, anything but the exit of the process is.
pub open spec fn wait_verdict(timeout: Option<u32>, event: u32) -> Result<(), Error> {
    match timeout {
        Some(t) => if event == WAIT_TIMEOUT {
            Err(Error::Timeout(t))
        } else {
            Ok(())
        },
        None => if event == WAIT_OBJECT_0 {
            Ok(())
        } else {
            Err(Error::WaitFailed(event))
        },
    }
}

/// Decides from the event that a wait returned whether the exit code is to be
/// read (`Ok`) or the wait failed.
pub fn wait_outcome(timeout: Option<u32>, event: u32) -> (r: Result<(), Error>)
    ensures
        r == wait_verdict(timeout, event),
{
    match timeout {
        Some(t) => if event == WAIT_TIMEOUT {
            Err(Error::Timeout(t))
        } else {
            Ok(())
        },
        None => if event == WAIT_OBJECT_0 {
            Ok(())
        } else {
            Err(Error::WaitFailed(event))
        },
    }
}

/// Whether the process still runs, from the event of a wait with no time
/// to spare: it does exactly when that wait timed out.
pub fn alive_after_poll(event: u32) -> (r: bool)
    ensures
        r == (event == WAIT_TIMEOUT),
{
    event == WAIT_TIMEOUT
}

/// Once the process has exited every wait lets the exit code be read, with or
/// without a time limit: waits after the exit, from any number of callers,
/// all take the same course.
pub proof fn waits_after_exit_agree(first: Option<u32>, second: Option<u32>)
    ensures
        wait_verdict(first, WAIT_OBJECT_0) == Ok::<(), Error>(()),
        wait_verdict(first, WAIT_OBJECT_0) == wait_verdict(second, WAIT_OBJECT_0),
{
}

/// The size of the attribute-list buffer, from the sizing call made with no
/// buffer. That call must fail and report a size; `None` where it succeeded
/// or reported none.
pub fn attribute_list_size(sizing_call_succeeded: bool, reported: usize) -> (r: Option<usize>)
    ensures
        r == (if sizing_call_succeeded || reported == 0 {
            None::<usize>
        } else {
            Some(reported)
        }),
{
    if sizing_call_succeeded || reported == 0 {
        None
    } else {
        Some(reported)
    }
}

/// The command line that runs `command` through `cmd.exe`.
pub open spec fn shell_line(command: Seq<char>) -> Seq<char> {
    "cmd /C "@ + command
}

/// Runs a command string through the command interpreter: `cmd /C ` followed
/// by the command.
pub fn shell_command(command: &str) -> (r: String)
    ensures
        r@ == shell_line(command@),
{
    let mut s = String::from_str("cmd /C ");
    s.append(command);
    s
}

/// The environment handed to process creation: the encoded block where at
/// least one variable is set, else none, so that the parent's is inherited.
pub open spec fn launch_env(env: Seq<(String, String)>) -> Option<Seq<u16>> {
    if env.len() == 0 {
        None
    } else {
        Some(env_block(env))
    }
}

/// What process creation is given.
pub struct LaunchPlan {
    /// The NUL-terminated command line.
    pub command_line: Vec<u16>,
    /// The NUL-terminated working directory, if one was set.
    pub current_dir: Option<Vec<u16>>,
    /// The environment block, if any variable was set.
    pub environment: Option<Vec<u16>>,
    /// The creation flags.
    pub creation_flags: u32,
    /// The startup flags.
    pub startup_flags: u32,
}

/// Gathers what process creation is given for a program, its arguments, an
/// optional working directory and the environment variables to set.
pub fn launch_plan(
    program: &str,
    args: &Vec<String>,
    current_dir: Option<&str>,
    env: &Vec<(String, String)>,
) -> (r: LaunchPlan)
    ensures
        r.command_line@ == utf16_of(command_line(program@, args@)).push(0),
        r.current_dir matches Some(d) ==> current_dir matches Some(c) && d@ == utf16_of(c@).push(0),
        r.current_dir is None <==> current_dir is None,
        r.environment matches Some(e) ==> launch_env(env@) == Some(e@),
        r.environment is None <==> launch_env(env@) is None,
        r.creation_flags == CREATION_FLAGS,
        r.startup_flags == STARTF_USESTDHANDLES,
{
    let line = build_commandline(program, args);
    let command_line = to_wide_nul(line.as_str());
    let current_dir = match current_dir {
        Some(d) => Some(to_wide_nul(d)),
        None => None,
    };
    let environment = if env.len() == 0 {
        None
    } else {
        Some(environment_block_unicode(env))
    };
    LaunchPlan {
        command_line,
        current_dir,
        environment,
        creation_flags: CREATION_FLAGS,
        startup_flags: STARTF_USESTDHANDLES,
    }
}

/// Options for spawning a process in a new pseudo console.
pub struct ProcessOptions {
    console_size: Option<COORD>,
}

impl ProcessOptions {
    /// Options with no console size set: the size is then inherited from the
    /// current console, or the default one is used.
    pub fn new() -> (r: ProcessOptions)
        ensures
            r.console_size() is None,
    {
        ProcessOptions { console_size: None }
    }

    /// The console size that was set, as columns and rows.
    pub closed spec fn console_size(&self) -> Option<COORD> {
        self.console_size
    }

    /// The console size that was set, as columns and rows.
    pub fn size(&self) -> (r: Option<COORD>)
        ensures
            r == self.console_size(),
    {
        self.console_size
    }

    /// Sets the size (columns, rows) of the new pseudo console, or, with
    /// `None`, lets it be inherited.
    pub fn set_console_size(&mut self, size_xy: Option<(i16, i16)>) -> (r: &mut Self)
        ensures
            r.console_size() == match size_xy {
                Some((x, y)) => Some(COORD { X: x, Y: y }),
                None => None,
            },
            *final(self) == *final(r),
    {
        self.console_size = match size_xy {
            Some((x, y)) => Some(COORD { X: x, Y: y }),
            None => None,
        };
        self
    }
}

/// A resource of a pseudo-console session that must be released once.
#[derive(Debug, Clone, Copy, PartialEq, Eq, Structural)]
pub enum Resource {
    /// The pseudo console.
    PseudoConsole,
    /// The native handle of the process.
    Process,
    /// The native handle of the process's main thread.
    Thread,
    /// The attribute-list buffer handed to process creation.
    AttributeList,
    /// The master end that reads the child's output.
    Output,
    /// The master end that writes the child's input.
    Input,
}

/// The place of a resource in the teardown order: the pseudo console first,
/// then the process and thread handles, then the attribute list, and the two
/// master ends last.
pub open spec fn rank(r: Resource) -> int {
    match r {
        Resource::PseudoConsole => 0,
        Resource::Process => 1,
        Resource::Thread => 2,
        Resource::AttributeList => 3,
        Resource::Output => 4,
        Resource::Input => 5,
    }
}

/// The held resource that comes first in the teardown order, if any.
pub open spec fn first_held(held: Set<Resource>) -> Option<Resource> {
    if held.contains(Resource::PseudoConsole) {
        Some(Resource::PseudoConsole)
    } else if held.contains(Resource::Process) {
        Some(Resource::Process)
    } else if held.contains(Resource::Thread) {
        Some(Resource::Thread)
    } else if held.contains(Resource::AttributeList) {
        Some(Resource::AttributeList)
    } else if held.contains(Resource::Output) {
        Some(Resource::Output)
    } else if held.contains(Resource::Input) {
        Some(Resource::Input)
    } else {
        None
    }
}

/// The resources that a session holds, each until it is released.
pub struct SessionResources {
    pseudo_console: bool,
    process: bool,
    thread: bool,
    attribute_list: bool,
    output: bool,
    input: bool,
}

impl View for SessionResources {
    type V = Set<Resource>;

    closed spec fn view(&self) -> Set<Resource> {
        Set::new(|r: Resource| match r {
            Resource::PseudoConsole => self.pseudo_console,
            Resource::Process => self.process,
            Resource::Thread => self.thread,
            Resource::AttributeList => self.attribute_list,
            Resource::Output => self.output,
            Resource::Input => self.input,
        })
    }
}

impl SessionResources {
    /// A session that holds nothing yet.
    pub fn new() -> (r: SessionResources)
        ensures
            r@ == Set::<Resource>::empty(),
    {
        let r = SessionResources {
            pseudo_console: false,
            process: false,
            thread: false,
            attribute_list: false,
            output: false,
            input: false,
        };
        assert(r@ =~= Set::<Resource>::empty());
        r
    }

    /// Whether the resource is held.
    pub fn holds(&self, r: Resource) -> (b: bool)
        ensures
            b == self@.contains(r),
    {
        match r {
            Resource::PseudoConsole => self.pseudo_console,
            Resource::Process => self.process,
            Resource::Thread => self.thread,
            Resource::AttributeList => self.attribute_list,
            Resource::Output => self.output,
            Resource::Input => self.input,
        }
    }

    fn set(&mut self, r: Resource, on: bool)
        ensures
            final(self)@ == (if on {
                old(self)@.insert(r)
            } else {
                old(self)@.remove(r)
            }),
    {
        match r {
            Resource::PseudoConsole => self.pseudo_console = on,
            Resource::Process => self.process = on,
            Resource::Thread => self.thread = on,
            Resource::AttributeList => self.attribute_list = on,
            Resource::Output => self.output = on,
            Resource::Input => self.input = on,
        }
        assert(final(self)@ =~= (if on {
            old(self)@.insert(r)
        } else {
            old(self)@.remove(r)
        }));
    }

    /// Records that a resource was created and is now held.
    pub fn acquire(&mut self, r: Resource)
        requires
            !old(self)@.contains(r),
        ensures
            final(self)@ == old(self)@.insert(r),
    {
        self.set(r, true);
    }

    /// Records that a held resource was released; it cannot be released again.
    pub fn release(&mut self, r: Resource)
        requires
            old(self)@.contains(r),
        ensures
            final(self)@ == old(self)@.remove(r),
    {
        self.set(r, false);
    }

    /// The resource to release next: the held one that comes first in the
    /// teardown order; `None` once nothing is held.
    pub fn next_release(&self) -> (r: Option<Resource>)
        ensures
            r == first_held(self@),
            r is None <==> self@ == Set::<Resource>::empty(),
    {
        proof {
            if first_held(self@) is None {
                assert(self@ =~= Set::<Resource>::empty());
            }
        }
        if self.pseudo_console {
            Some(Resource::PseudoConsole)
        } else if self.process {
            Some(Resource::Process)
        } else if self.thread {
            Some(Resource::Thread)
        } else if self.attribute_list {
            Some(Resource::AttributeList)
        } else if self.output {
            Some(Resource::Output)
        } else if self.input {
            Some(Resource::Input)
        } else {
            None
        }
    }
}

/// Releasing resources one by one, each time the one that `next_release`
/// names, releases every held resource exactly once and in the teardown
/// order: the one released comes before all that remain, so none of them can
/// come up again, and the holdings shrink by one each step.
pub proof fn teardown_follows_order(held: Set<Resource>, r: Resource)
    requires
        first_held(held) == Some(r),
    ensures
        held.contains(r),
        forall|q: Resource| #[trigger] held.remove(r).contains(q) ==> rank(r) < rank(q),
        !held.remove(r).contains(r),
        held.finite() ==> held.remove(r).len() + 1 == held.len(),
{
}

} // verus!
