//! Lifecycle state of a spawned child and the decisions made about it: how a
//! reap observation updates the cached status, and the graceful-then-forced
//! termination sequence.

use vstd::prelude::*;

use crate::error::TtyError;
use crate::io::IoChunk;
use crate::io::IoDirection;

verus! {

/// The identifier the OS assigned to a spawned child.
pub type ProcessId = u32;

/// Two-state lifecycle tag of a spawned child. Transitions only ever go from
/// `Running` to `Exited`, never back. `Exited(-1)` is the sentinel for a
/// child terminated by an uncaught signal or whose status could not be
/// determined after a forced kill; real exit codes are non-negative.
#[derive(Debug, Clone, Copy, PartialEq, Eq, Structural)]
pub enum ProcessStatus {
    Running,
    Exited(i32),
}

/// What one reap attempt (one `waitpid` call) observed about the child.
#[derive(Debug, Clone, Copy, PartialEq, Eq, Structural)]
pub enum ReapOutcome {
    /// The child exited on its own; the payload is its exit code.
    ExitedNormally(i32),
    /// The child was killed by an uncaught signal.
    Signaled,
    /// The child is alive, or changed state in some way that is not an exit.
    StillAlive,
    /// The wait itself failed — typically because another reaper already
    /// collected this child.
    Indeterminate,
}

/// The status a handle carries the moment a spawn succeeds: the child is
/// running until some reap observes otherwise.
pub fn initial_status() -> (r: ProcessStatus)
    ensures
        r == ProcessStatus::Running,
{
    ProcessStatus::Running
}

/// How one non-blocking reap observation updates a cached status. An exit,
/// once recorded, is final; while running, only a normally-observed exit is
/// recorded. A signal-death observation is consumed without recording — the
/// reap that saw it has already collected the child, so no later reap can
/// see it again, and the cache stays `Running` until a stop resolves it to
/// the sentinel through its catch-all for indeterminate reaps.
pub open spec fn status_after_poll(current: ProcessStatus, seen: ReapOutcome) -> ProcessStatus {
    match current {
        ProcessStatus::Exited(_) => current,
        ProcessStatus::Running => match seen {
            ReapOutcome::ExitedNormally(code) => ProcessStatus::Exited(code),
            _ => ProcessStatus::Running,
        },
    }
}

/// Applies one reap observation to a cached status, exactly as
/// `status_after_poll` describes. This is the single update path shared by
/// every reaping call site, so no two of them can disagree about how an
/// observation lands.
pub fn apply_status_poll(current: ProcessStatus, seen: ReapOutcome) -> (r: ProcessStatus)
    ensures
        r == status_after_poll(current, seen),
{
    match current {
        ProcessStatus::Exited(code) => ProcessStatus::Exited(code),
        ProcessStatus::Running => match seen {
            ReapOutcome::ExitedNormally(code) => ProcessStatus::Exited(code),
            _ => ProcessStatus::Running,
        },
    }
}

/// A recorded exit is never overwritten: whatever a later reap observes, the
/// status moves only from `Running` to `Exited`, and while it stays
/// `Running` it is unchanged.
pub proof fn lemma_status_never_reverses(current: ProcessStatus, seen: ReapOutcome)
    ensures
        current is Exited ==> status_after_poll(current, seen) == current,
        status_after_poll(current, seen) is Running ==> status_after_poll(current, seen)
            == current,
{
}

/// Relies on nix::sys::wait::waitpid with WNOHANG: observes whether the
/// child exited, died from a signal, or is still alive, without blocking.
/// Which outcome comes back depends on the child and on concurrent reapers,
/// so nothing is claimed of it.
#[verifier::external_body]
fn reap_nonblocking(pid: i32) -> (r: ReapOutcome) {
    match nix::sys::wait::waitpid(
        nix::unistd::Pid::from_raw(pid),
        Some(nix::sys::wait::WaitPidFlag::WNOHANG),
    ) {
        Ok(nix::sys::wait::WaitStatus::Exited(_, code)) => ReapOutcome::ExitedNormally(code),
        Ok(nix::sys::wait::WaitStatus::Signaled(_, _, _)) => ReapOutcome::Signaled,
        Ok(_) => ReapOutcome::StillAlive,
        Err(_) => ReapOutcome::Indeterminate,
    }
}

/// Relies on nix::sys::wait::waitpid with no flags: blocks until the child
/// changes state, then reports the same observations as the non-blocking
/// form. Nothing is claimed of the outcome.
#[verifier::external_body]
fn reap_blocking(pid: i32) -> (r: ReapOutcome) {
    match nix::sys::wait::waitpid(nix::unistd::Pid::from_raw(pid), None) {
        Ok(nix::sys::wait::WaitStatus::Exited(_, code)) => ReapOutcome::ExitedNormally(code),
        Ok(nix::sys::wait::WaitStatus::Signaled(_, _, _)) => ReapOutcome::Signaled,
        Ok(_) => ReapOutcome::StillAlive,
        Err(_) => ReapOutcome::Indeterminate,
    }
}

/// Relies on nix::sys::signal::kill: requests that the child exit on its own
/// (SIGTERM). Delivery failure is deliberately ignored — the child may have
/// exited between a status check and the send.
#[verifier::external_body]
fn send_term(pid: i32) {
    let _ = nix::sys::signal::kill(
        nix::unistd::Pid::from_raw(pid),
        nix::sys::signal::Signal::SIGTERM,
    );
}

/// Relies on nix::sys::signal::kill: terminates the child unconditionally
/// (SIGKILL). Delivery failure is deliberately ignored.
#[verifier::external_body]
fn send_kill(pid: i32) {
    let _ = nix::sys::signal::kill(
        nix::unistd::Pid::from_raw(pid),
        nix::sys::signal::Signal::SIGKILL,
    );
}

/// Relies on nix::poll::poll with an empty descriptor set: blocks the
/// calling thread until the timeout elapses, i.e. sleeps for about `ms`
/// milliseconds.
#[verifier::external_body]
fn sleep_millis(ms: i32) {
    let mut fds: [nix::poll::PollFd; 0] = [];
    let _ = nix::poll::poll(&mut fds, ms);
}

/// One non-blocking status poll: reaps without blocking and folds the
/// observation into the cached status. The status can only move from
/// `Running` to `Exited`; an already-exited status is returned unchanged,
/// and a `Running` result means nothing new was observed. The pid must be a
/// real process identifier — zero and negative values address process
/// groups, and a wait on them could collect an unrelated child.
pub fn poll_status(pid: i32, current: ProcessStatus) -> (r: ProcessStatus)
    requires
        pid > 0,
    ensures
        current is Exited ==> r == current,
        r is Running ==> r == current,
{
    let seen = reap_nonblocking(pid);
    apply_status_poll(current, seen)
}

/// How many times the stop sequence polls during the graceful window.
pub const GRACEFUL_POLLS: usize = 20;

/// How long the stop sequence sleeps between graceful polls, in
/// milliseconds.
pub const POLL_INTERVAL_MILLIS: i32 = 100;

/// What one graceful-window poll decides: a normally-observed exit resolves
/// the stop with the child's own code, a signal death resolves it with the
/// sentinel, and anything else keeps waiting.
pub open spec fn poll_decision(seen: ReapOutcome) -> Option<ProcessStatus> {
    match seen {
        ReapOutcome::ExitedNormally(code) => Some(ProcessStatus::Exited(code)),
        ReapOutcome::Signaled => Some(ProcessStatus::Exited(-1i32)),
        ReapOutcome::StillAlive => None,
        ReapOutcome::Indeterminate => None,
    }
}

fn decide_poll(seen: ReapOutcome) -> (r: Option<ProcessStatus>)
    ensures
        r == poll_decision(seen),
{
    match seen {
        ReapOutcome::ExitedNormally(code) => Some(ProcessStatus::Exited(code)),
        ReapOutcome::Signaled => Some(ProcessStatus::Exited(-1i32)),
        ReapOutcome::StillAlive => None,
        ReapOutcome::Indeterminate => None,
    }
}

/// What the forced phase resolves to once the blocking reap returns: the
/// child's own code when the exit was observed normally, the sentinel for
/// everything else (killed, or status under-determined).
pub open spec fn final_decision(seen: ReapOutcome) -> ProcessStatus {
    match seen {
        ReapOutcome::ExitedNormally(code) => ProcessStatus::Exited(code),
        _ => ProcessStatus::Exited(-1i32),
    }
}

fn decide_final(seen: ReapOutcome) -> (r: ProcessStatus)
    ensures
        r == final_decision(seen),
{
    match seen {
        ReapOutcome::ExitedNormally(code) => ProcessStatus::Exited(code),
        _ => ProcessStatus::Exited(-1i32),
    }
}

/// Every graceful-window resolution is a definite exit, and so is the forced
/// one: the stop sequence has no path that ends `Running`. A child that
/// ignores the graceful signal yields no decision during the window
/// (`StillAlive` polls decide nothing), and once the forced phase reaps it,
/// anything short of a normally-observed exit — killed, or already collected
/// elsewhere — resolves to the sentinel.
pub proof fn lemma_stop_always_resolves(seen: ReapOutcome)
    ensures
        final_decision(seen) is Exited,
        poll_decision(seen) matches Some(st) ==> st is Exited,
        poll_decision(ReapOutcome::StillAlive) is None,
        !(seen is ExitedNormally) ==> final_decision(seen) == ProcessStatus::Exited(-1i32),
{
}

/// The whole termination sequence, from an already-polled status to a
/// definite exit. If the status already records an exit, that same value is
/// returned at once and nothing is signalled — stopping twice in succession
/// yields the same `Exited(code)` both times. Otherwise: request a graceful
/// exit, poll up to `GRACEFUL_POLLS` times at `POLL_INTERVAL_MILLIS`
/// intervals, and if the child still has not gone, kill it unconditionally
/// and block until it is reaped. The result is always `Exited`; it is never
/// `Running`. The pid must be a real process identifier — zero and negative
/// values address process groups, and signalling or waiting on them reaches
/// beyond the one child this sequence is meant to resolve.
pub fn run_stop_sequence(pid: i32, current: ProcessStatus) -> (r: ProcessStatus)
    requires
        pid > 0,
    ensures
        r is Exited,
        current is Exited ==> r == current,
{
    match current {
        ProcessStatus::Exited(code) => {
            return ProcessStatus::Exited(code);
        }
        ProcessStatus::Running => {}
    }

    send_term(pid);

    let mut polls: usize = 0;
    while polls < GRACEFUL_POLLS
        invariant
            polls <= GRACEFUL_POLLS,
            current is Running,
        decreases GRACEFUL_POLLS - polls,
    {
        sleep_millis(POLL_INTERVAL_MILLIS);
        let seen = reap_nonblocking(pid);
        if let Some(resolved) = decide_poll(seen) {
            return resolved;
        }
        polls = polls + 1;
    }

    send_kill(pid);
    let seen = reap_blocking(pid);
    decide_final(seen)
}

/// Stopping is idempotent: whatever the stop sequence returns is a definite
/// exit, and a second stop that starts from that recorded value returns the
/// same `Exited(code)` again.
pub proof fn lemma_stop_idempotent(
    pid1: i32,
    pid2: i32,
    current: ProcessStatus,
    r1: ProcessStatus,
    r2: ProcessStatus,
)
    requires
        call_ensures(run_stop_sequence, (pid1, current), r1),
        call_ensures(run_stop_sequence, (pid2, r1), r2),
    ensures
        r2 == r1,
        r1 is Exited,
{
}

/// Relies on nix::unistd::write: hands the bytes of `data` from `offset`
/// onward to descriptor `fd` and returns how many of them the OS accepted —
/// never more than were offered — or the errno on failure.
#[verifier::external_body]
fn write_fd(fd: i32, data: &[u8], offset: usize) -> (r: Result<usize, i32>)
    requires
        offset <= data@.len(),
    ensures
        r matches Ok(n) ==> offset + n <= data@.len(),
{
    match nix::unistd::write(fd, &data[offset..]) {
        Ok(n) => Ok(n),
        Err(e) => Err(e as i32),
    }
}

/// Writes the whole payload to the descriptor, retrying after short writes.
/// A write that accepts no bytes, or any OS failure, surfaces as an I/O
/// error to the immediate caller; it is never retried and never panics. An
/// empty payload asks nothing of the OS and always succeeds.
pub fn write_all_fd(fd: i32, data: &[u8]) -> (r: Result<(), TtyError>)
    ensures
        r matches Err(e) ==> e is Io,
        data@.len() == 0 ==> r is Ok,
{
    let mut offset: usize = 0;
    while offset < data.len()
        invariant
            offset <= data@.len(),
        decreases data@.len() - offset,
    {
        match write_fd(fd, data, offset) {
            Ok(n) => {
                if n == 0 {
                    return Err(TtyError::Io(0));
                }
                offset = offset + n;
            },
            Err(e) => {
                return Err(TtyError::Io(e));
            },
        }
    }
    Ok(())
}

/// The compute-and-record core of a stdin write: sends the whole payload to
/// the caller's duplicate of the master descriptor and, on success, hands
/// back the one Stdin chunk to dispatch, its payload byte-identical to what
/// was written. A failed write hands back no chunk and alters nothing; an
/// empty payload always succeeds, with an empty chunk.
pub fn write_stdin_bytes(fd: i32, data: Vec<u8>) -> (r: Result<IoChunk, TtyError>)
    ensures
        r matches Ok(chunk) ==> chunk.direction == IoDirection::Stdin && chunk.data@ == data@,
        r matches Err(e) ==> e is Io,
        data@.len() == 0 ==> r is Ok,
{
    match write_all_fd(fd, data.as_slice()) {
        Ok(_) => Ok(IoChunk::new(IoDirection::Stdin, data)),
        Err(e) => Err(e),
    }
}

/// Relies on nix::unistd::dup: returns a fresh descriptor referring to the
/// same open terminal, so the caller gets a file cursor of its own, or the
/// errno when the OS refuses.
#[verifier::external_body]
fn dup_fd(fd: i32) -> (r: Result<i32, i32>) {
    match nix::unistd::dup(fd) {
        Ok(new_fd) => Ok(new_fd),
        Err(e) => Err(e as i32),
    }
}

/// Relies on nix::unistd::close: releases a descriptor this library
/// duplicated. Failure is ignored; the descriptor is spent either way.
#[verifier::external_body]
fn close_fd(fd: i32) {
    let _ = nix::unistd::close(fd);
}

/// One whole stdin write against the master descriptor: takes a private
/// duplicate — so no two threads ever share one descriptor's write cursor —
/// writes the whole payload through it, releases the duplicate, and on
/// success hands back the one Stdin chunk to dispatch, its payload
/// byte-identical to the input. Every failure, a refused duplicate included,
/// surfaces as an I/O error, and no chunk is handed back.
pub fn write_stdin_on_master(master_fd: i32, data: Vec<u8>) -> (r: Result<IoChunk, TtyError>)
    ensures
        r matches Ok(chunk) ==> chunk.direction == IoDirection::Stdin && chunk.data@ == data@,
        r matches Err(e) ==> e is Io,
{
    match dup_fd(master_fd) {
        Ok(fd) => {
            let result = write_stdin_bytes(fd, data);
            close_fd(fd);
            result
        },
        Err(e) => Err(TtyError::Io(e)),
    }
}

/// Whether the byte string holds a NUL, which the OS exec interface cannot
/// carry inside a string.
pub open spec fn has_nul(s: Seq<u8>) -> bool {
    exists|i: int| 0 <= i < s.len() && s[i] == 0u8
}

/// The program invoked in place of a command string that cannot be carried:
/// a plain shell, `sh`.
pub open spec fn fallback_shell() -> Seq<u8> {
    seq![115u8, 104u8]
}

/// The program the child execs: the requested command, or the fallback
/// shell when the request cannot be carried.
pub open spec fn chosen_command(command: Seq<u8>) -> Seq<u8> {
    if has_nul(command) {
        fallback_shell()
    } else {
        command
    }
}

/// The argument strings that survive sanitization — those without a NUL —
/// in their given order.
pub open spec fn clean_args(args: Seq<Seq<u8>>) -> Seq<Seq<u8>>
    decreases args.len(),
{
    if args.len() == 0 {
        Seq::empty()
    } else {
        clean_args(args.drop_last()) + if has_nul(args.last()) {
            Seq::<Seq<u8>>::empty()
        } else {
            seq![args.last()]
        }
    }
}

/// The byte strings of a sequence of owned byte vectors.
pub open spec fn byte_views(s: Seq<Vec<u8>>) -> Seq<Seq<u8>> {
    Seq::new(s.len(), |i: int| s[i]@)
}

/// Nothing that survives sanitization holds a NUL.
proof fn lemma_clean_args_nul_free(args: Seq<Seq<u8>>)
    ensures
        forall|i: int| 0 <= i < clean_args(args).len() ==> !has_nul(clean_args(args)[i]),
    decreases args.len(),
{
    if args.len() > 0 {
        lemma_clean_args_nul_free(args.drop_last());
        let pre = clean_args(args.drop_last());
        assert forall|i: int| 0 <= i < clean_args(args).len() implies !has_nul(
            clean_args(args)[i],
        ) by {
            if i < pre.len() {
                assert(clean_args(args)[i] == pre[i]);
            } else {
                assert(clean_args(args)[i] == args.last());
            }
        }
    }
}

/// Whether the byte string holds a NUL, decided exactly as `has_nul` says.
pub fn contains_nul(bytes: &Vec<u8>) -> (r: bool)
    ensures
        r == has_nul(bytes@),
{
    let mut i: usize = 0;
    while i < bytes.len()
        invariant
            i <= bytes@.len(),
            forall|j: int| 0 <= j < i ==> bytes@[j] != 0u8,
        decreases bytes@.len() - i,
    {
        if bytes[i] == 0 {
            return true;
        }
        i = i + 1;
    }
    false
}

/// Builds the string list handed to exec: the program first — the requested
/// command, or the fallback shell when the command cannot be carried —
/// followed by every argument that can be carried, in the given order.
/// Everything returned is NUL-free, so the OS interface accepts each string
/// as it stands.
pub fn build_exec_args(command: Vec<u8>, args: Vec<Vec<u8>>) -> (r: Vec<Vec<u8>>)
    ensures
        byte_views(r@) == seq![chosen_command(command@)] + clean_args(byte_views(args@)),
        forall|i: int| 0 <= i < r@.len() ==> !has_nul(#[trigger] r@[i]@),
{
    let ghost all: Seq<Seq<u8>> = byte_views(args@);
    let mut out: Vec<Vec<u8>> = Vec::new();
    if contains_nul(&command) {
        let mut sh: Vec<u8> = Vec::new();
        sh.push(115u8);
        sh.push(104u8);
        proof {
            assert(sh@ =~= fallback_shell());
        }
        out.push(sh);
    } else {
        out.push(command);
    }
    proof {
        assert(byte_views(out@) =~= seq![chosen_command(command@)]);
        assert(byte_views(out@) =~= seq![chosen_command(command@)] + clean_args(all.take(0)));
    }
    let mut rest = args;
    let ghost k: int = 0;
    while rest.len() > 0
        invariant
            0 <= k && k + rest@.len() == all.len(),
            byte_views(rest@) =~= all.skip(k),
            byte_views(out@) =~= seq![chosen_command(command@)] + clean_args(all.take(k)),
        decreases rest@.len(),
    {
        let ghost old_rest = rest@;
        let arg = rest.remove(0);
        proof {
            assert(arg@ == byte_views(old_rest)[0]);
            assert(arg@ == all[k]);
            assert(rest@ =~= old_rest.skip(1));
            assert(byte_views(rest@) =~= all.skip(k + 1)) by {
                assert forall|i: int| 0 <= i < rest@.len() implies byte_views(rest@)[i] == all.skip(
                    k + 1,
                )[i] by {
                    assert(rest@[i] == old_rest[i + 1]);
                    assert(byte_views(old_rest)[i + 1] == all.skip(k)[i + 1]);
                }
            }
            assert(all.take(k + 1).drop_last() =~= all.take(k));
            assert(all.take(k + 1).last() == all[k]);
        }
        let keep = !contains_nul(&arg);
        if keep {
            let ghost old_out = out@;
            out.push(arg);
            proof {
                assert(byte_views(out@) =~= byte_views(old_out).push(all[k]));
                assert(clean_args(all.take(k + 1)) =~= clean_args(all.take(k)) + seq![all[k]]);
                assert(byte_views(out@) =~= seq![chosen_command(command@)] + clean_args(
                    all.take(k + 1),
                ));
            }
        } else {
            proof {
                assert(clean_args(all.take(k + 1)) =~= clean_args(all.take(k)));
            }
        }
        proof {
            k = k + 1;
        }
    }
    proof {
        assert(all.take(k) =~= all);
        assert(byte_views(out@) == seq![chosen_command(command@)] + clean_args(all));
        lemma_clean_args_nul_free(all);
        assert forall|i: int| 0 <= i < out@.len() implies !has_nul(#[trigger] out@[i]@) by {
            assert(out@[i]@ == byte_views(out@)[i]);
        }
    }
    out
}

} // verus!
