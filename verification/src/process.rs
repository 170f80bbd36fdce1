//! Spawning processes and reading back how they ended.
//!
//! A [`Command`] gathers everything a spawn needs — program path,
//! arguments, initial handles, flags — as plain values; the runtime half
//! serialises it and performs the spawn.  An [`ExitStatus`] decodes the
//! three ways a process can end: a normal exit code, an unmanaged
//! exception, or a kill.  [`process_join_decision`] is the decision half of
//! the join loop: it classifies each result of the join call into a final
//! status, a retry, or an error.

use crate::fs::PathBuf;
use crate::result::{Error, spec_error_of};
use crate::sys::except::ExceptionStatusInfo;
use crate::sys::fs::FileHandle;
use crate::sys::handle::{Handle, HandlePtr};
use crate::sys::io::IOHandle;
use crate::sys::isolation::NamespaceHandle;
use crate::sys::permission::SecurityContext;
use crate::sys::process::{EnvironmentMapHandle, ProcessHandle};
use crate::sys::result::{INTERRUPTED, KILLED, SIGNALED, SysResult, TIMEOUT};
use core::marker::PhantomData;
use vstd::prelude::*;

verus! {

/// A pending spawn: the program, its arguments and the environment it
/// starts in.  The first three initial handles are standard input, output
/// and error.
pub struct Command {
    /// The directory the program path is resolved against, or null.
    pub resolution_base: HandlePtr<FileHandle>,
    /// The program to run.
    pub cmd: PathBuf,
    /// The environment map, or null for a copy of the current one.
    pub env: HandlePtr<EnvironmentMapHandle>,
    /// The device namespace to spawn into, or null.
    pub namespace: HandlePtr<NamespaceHandle>,
    /// The security context to start under, or null.
    pub start_security_context: HandlePtr<SecurityContext>,
    /// The argument list, starting with the program name.
    pub args: Vec<String>,
    /// The handles passed to the new process.
    pub init_handles: Vec<HandlePtr<Handle>>,
    /// The process label.
    pub label: String,
    /// The spawn flag bits.
    pub flags: i64,
}

/// An I/O handle destined for one of the three standard streams of a
/// spawned process; null selects no stream.
pub struct Stdio(pub HandlePtr<IOHandle>, pub PhantomData<()>);

impl Stdio {
    /// The null stream.
    pub fn null() -> (r: Stdio)
        ensures
            r.0.addr == 0,
    {
        Stdio(HandlePtr::null(), PhantomData)
    }
}

impl Command {
    /// A spawn of `cmd` with default settings: no resolution base, a copy
    /// of the current environment, no namespace or security-context
    /// override, the program path as the one argument, and the three given
    /// handles as standard input, output and error.  The runtime half
    /// passes the calling thread's own standard streams here.
    pub fn new(
        cmd: PathBuf,
        stdin: HandlePtr<IOHandle>,
        stdout: HandlePtr<IOHandle>,
        stderr: HandlePtr<IOHandle>,
    ) -> (r: Command)
        ensures
            r.cmd == cmd,
            r.resolution_base.addr == 0,
            r.env.addr == 0,
            r.namespace.addr == 0,
            r.start_security_context.addr == 0,
            r.args@.len() == 1,
            r.args@[0]@ == cmd@,
            r.init_handles@ == seq![stdin.cast::<Handle>(), stdout.cast::<Handle>(), stderr.cast::<Handle>()],
            r.label@.len() == 0,
            r.flags == 0,
    {
        Self::new_in(HandlePtr::null(), cmd, stdin, stdout, stderr)
    }

    /// As [`Command::new`], resolving the program path against the given
    /// base directory.
    pub fn new_in(
        resolution_base: HandlePtr<FileHandle>,
        cmd: PathBuf,
        stdin: HandlePtr<IOHandle>,
        stdout: HandlePtr<IOHandle>,
        stderr: HandlePtr<IOHandle>,
    ) -> (r: Command)
        ensures
            r.cmd == cmd,
            r.resolution_base == resolution_base,
            r.env.addr == 0,
            r.namespace.addr == 0,
            r.start_security_context.addr == 0,
            r.args@.len() == 1,
            r.args@[0]@ == cmd@,
            r.init_handles@ == seq![stdin.cast::<Handle>(), stdout.cast::<Handle>(), stderr.cast::<Handle>()],
            r.label@.len() == 0,
            r.flags == 0,
    {
        let arg0 = cmd.as_path().to_path_buf().into_string();
        let mut args: Vec<String> = Vec::new();
        args.push(arg0);
        let mut init_handles: Vec<HandlePtr<Handle>> = Vec::new();
        init_handles.push(stdin.cast());
        init_handles.push(stdout.cast());
        init_handles.push(stderr.cast());
        proof {
            assert(init_handles@ =~= seq![stdin.cast::<Handle>(), stdout.cast::<Handle>(), stderr.cast::<Handle>()]);
        }
        Command {
            resolution_base,
            cmd,
            env: HandlePtr::null(),
            namespace: HandlePtr::null(),
            start_security_context: HandlePtr::null(),
            args,
            init_handles,
            label: String::new(),
            flags: 0,
        }
    }

    /// Adds one more initial handle.
    pub fn init_handle(&mut self, hdl: HandlePtr<Handle>)
        ensures
            final(self).init_handles@ == old(self).init_handles@.push(hdl),
            final(self).args == old(self).args,
            final(self).cmd == old(self).cmd,
            final(self).flags == old(self).flags,
    {
        self.init_handles.push(hdl);
    }

    /// Replaces the standard-input handle.
    pub fn stdin(&mut self, hdl: HandlePtr<IOHandle>)
        requires
            old(self).init_handles@.len() >= 1,
        ensures
            final(self).init_handles@ == old(self).init_handles@.update(0, hdl.cast()),
            final(self).args == old(self).args,
    {
        let h: HandlePtr<Handle> = hdl.cast();
        self.init_handles.set(0, h);
    }

    /// Replaces the standard-output handle.
    pub fn stdout(&mut self, hdl: HandlePtr<IOHandle>)
        requires
            old(self).init_handles@.len() >= 2,
        ensures
            final(self).init_handles@ == old(self).init_handles@.update(1, hdl.cast()),
            final(self).args == old(self).args,
    {
        let h: HandlePtr<Handle> = hdl.cast();
        self.init_handles.set(1, h);
    }

    /// Replaces the standard-error handle.
    pub fn stderr(&mut self, hdl: HandlePtr<IOHandle>)
        requires
            old(self).init_handles@.len() >= 3,
        ensures
            final(self).init_handles@ == old(self).init_handles@.update(2, hdl.cast()),
            final(self).args == old(self).args,
    {
        let h: HandlePtr<Handle> = hdl.cast();
        self.init_handles.set(2, h);
    }
}

/// How a joined process ended.
#[derive(Copy, Clone, PartialEq, Eq, Debug, Structural)]
pub enum CommandStatus {
    /// A normal exit with the given code.
    Normal(i32),
    /// Terminated by an exception no handler managed.
    UnmanagedException(ExceptionStatusInfo),
    /// Killed outright.
    Killed,
}

/// What the join loop does with one result of the join call.
#[derive(Copy, Clone, PartialEq, Eq, Debug, Structural)]
pub enum JoinStep {
    /// The process ended; stop with this status.
    Finished(CommandStatus),
    /// The join was interrupted; call again.
    Retry,
    /// A stale blocking timeout fired; clear it, then call again.
    RetryClearTimeout,
    /// The join itself failed.
    Fail(Error),
}

/// Classifies one result of the join call.  A non-negative code is the
/// exit code; the signalled and killed codes are final statuses of their
/// own; interruption and a stale timeout are absorbed by retrying; any
/// other error is the join's own failure.
pub fn process_join_decision(code: SysResult, except: ExceptionStatusInfo) -> (r: JoinStep)
    requires
        code <= i32::MAX,
    ensures
        code >= 0 ==> r == JoinStep::Finished(CommandStatus::Normal(code as i32)),
        code == SIGNALED ==> r == JoinStep::Finished(CommandStatus::UnmanagedException(except)),
        code == KILLED ==> r == JoinStep::Finished(CommandStatus::Killed),
        code == INTERRUPTED ==> r is Retry,
        code == TIMEOUT ==> r is RetryClearTimeout,
        code < 0 && code != SIGNALED && code != KILLED && code != INTERRUPTED && code != TIMEOUT
            ==> r == JoinStep::Fail(spec_error_of(code)),
{
    if code >= 0 {
        JoinStep::Finished(CommandStatus::Normal(code as i32))
    } else if code == SIGNALED {
        JoinStep::Finished(CommandStatus::UnmanagedException(except))
    } else if code == KILLED {
        JoinStep::Finished(CommandStatus::Killed)
    } else if code == INTERRUPTED {
        JoinStep::Retry
    } else if code == TIMEOUT {
        JoinStep::RetryClearTimeout
    } else {
        match Error::from_code(code) {
            Ok(_) => JoinStep::Retry,
            Err(e) => JoinStep::Fail(e),
        }
    }
}

/// How a process ended.
#[derive(Copy, Clone, PartialEq, Eq, Debug, Structural)]
pub struct ExitStatus(pub CommandStatus);

impl ExitStatus {
    /// Success, or this status wrapped as the error.
    pub fn exit_ok(&self) -> (r: Result<(), ExitStatusError>)
        ensures
            self.0 == CommandStatus::Normal(0i32) <==> r is Ok,
            r is Err ==> r == Result::<(), ExitStatusError>::Err(ExitStatusError(self.0)),
    {
        if matches!(self.0, CommandStatus::Normal(0i32)) {
            Ok(())
        } else {
            Err(ExitStatusError(self.0))
        }
    }

    /// Whether the process exited normally with code zero.
    pub fn success(&self) -> (r: bool)
        ensures
            r == (self.0 == CommandStatus::Normal(0i32)),
    {
        matches!(self.0, CommandStatus::Normal(0i32))
    }

    /// The exit code of a normal exit.
    pub fn exit_code(&self) -> (r: Option<i32>)
        ensures
            r == match self.0 {
                CommandStatus::Normal(status) => Some(status),
                _ => None::<i32>,
            },
    {
        if let CommandStatus::Normal(status) = self.0 {
            Some(status)
        } else {
            None
        }
    }

    /// The exception of an exceptional termination.
    pub fn exception(&self) -> (r: Option<&ExceptionStatusInfo>)
        ensures
            match r {
                Some(e) => self.0 == CommandStatus::UnmanagedException(*e),
                None => !(self.0 is UnmanagedException),
            },
    {
        if let CommandStatus::UnmanagedException(except) = &self.0 {
            Some(except)
        } else {
            None
        }
    }

    /// Whether the process was killed outright.
    pub fn killed(&self) -> (r: bool)
        ensures
            r == (self.0 is Killed),
    {
        matches!(self.0, CommandStatus::Killed)
    }

    /// Whether the process ended any way but a normal exit.
    pub fn abnormal(&self) -> (r: bool)
        ensures
            r == !(self.0 is Normal),
    {
        matches!(self.0, CommandStatus::Killed | CommandStatus::UnmanagedException(_))
    }
}

impl Default for ExitStatus {
    /// A normal exit with code zero.
    fn default() -> (r: Self)
        ensures
            r.0 == CommandStatus::Normal(0i32),
    {
        ExitStatus(CommandStatus::Normal(0))
    }
}

/// How a process ended, when that was not a normal exit with code zero.
#[derive(Copy, Clone, PartialEq, Eq, Debug, Structural)]
pub struct ExitStatusError(pub CommandStatus);

impl ExitStatusError {
    /// The exit code of a normal (but nonzero) exit.
    pub fn exit_code(&self) -> (r: Option<i32>)
        ensures
            r == match self.0 {
                CommandStatus::Normal(status) => Some(status),
                _ => None::<i32>,
            },
    {
        if let CommandStatus::Normal(status) = self.0 {
            Some(status)
        } else {
            None
        }
    }

    /// The exception of an exceptional termination.
    pub fn exception(&self) -> (r: Option<&ExceptionStatusInfo>)
        ensures
            match r {
                Some(e) => self.0 == CommandStatus::UnmanagedException(*e),
                None => !(self.0 is UnmanagedException),
            },
    {
        if let CommandStatus::UnmanagedException(except) = &self.0 {
            Some(except)
        } else {
            None
        }
    }

    /// Whether the process was killed outright.
    pub fn killed(&self) -> (r: bool)
        ensures
            r == (self.0 is Killed),
    {
        matches!(self.0, CommandStatus::Killed)
    }

    /// Whether the process ended any way but a normal exit.
    pub fn abnormal(&self) -> (r: bool)
        ensures
            r == !(self.0 is Normal),
    {
        matches!(self.0, CommandStatus::Killed | CommandStatus::UnmanagedException(_))
    }
}

} // verus!
