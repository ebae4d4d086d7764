use moco_tty::capture::append_output;
use moco_tty::capture::capture_read;
use moco_tty::capture::take_output;
use moco_tty::io::combine_nanos;
use moco_tty::error::TtyError;
use moco_tty::io::IoChunk;
use moco_tty::io::IoDirection;
use moco_tty::process::apply_status_poll;
use moco_tty::process::build_exec_args;
use moco_tty::process::contains_nul;
use moco_tty::process::initial_status;
use moco_tty::process::poll_status;
use moco_tty::process::run_stop_sequence;
use moco_tty::process::write_stdin_bytes;
use moco_tty::process::write_stdin_on_master;
use moco_tty::process::ProcessStatus;
use moco_tty::process::ReapOutcome;
use moco_tty::QueryProcessStatus;
use moco_tty::ReadStdout;
use moco_tty::SpawnProcess;
use moco_tty::StopProcess;
use moco_tty::TtyCell;
use moco_tty::WriteStdin;

#[test]
fn test_io_chunk_creation() {
    let chunk = IoChunk::new(IoDirection::Stdin, b"test data".to_vec());
    assert_eq!(chunk.direction, IoDirection::Stdin);
    assert_eq!(chunk.data, b"test data");

    let chunk2 = IoChunk::new(IoDirection::Stdout, b"output".to_vec());
    assert_eq!(chunk2.direction, IoDirection::Stdout);
    assert_eq!(chunk2.data, b"output");

    // Timestamps should be monotonically increasing
    assert!(chunk2.timestamp >= chunk.timestamp);
}

#[test]
fn test_cell_spec() {
    assert_eq!(TtyCell::record().name, "tty");
    assert_eq!(TtyCell::record().version, "0.1.0-dev");
    assert_eq!(TtyCell::record().title, "TTY Cell");
}

#[test]
fn test_func_specs() {
    assert_eq!(SpawnProcess::record().name, "spawn_process");
    assert_eq!(StopProcess::record().name, "stop_process");
    assert_eq!(QueryProcessStatus::record().name, "process_status");
    assert_eq!(WriteStdin::record().name, "write_stdin");
    assert_eq!(ReadStdout::record().name, "read_stdout");
}

#[test]
fn test_initial_status_is_running() {
    assert_eq!(initial_status(), ProcessStatus::Running);
}

#[test]
fn test_apply_status_poll_table() {
    assert_eq!(
        apply_status_poll(ProcessStatus::Running, ReapOutcome::ExitedNormally(0)),
        ProcessStatus::Exited(0)
    );
    assert_eq!(
        apply_status_poll(ProcessStatus::Running, ReapOutcome::StillAlive),
        ProcessStatus::Running
    );
    assert_eq!(
        apply_status_poll(ProcessStatus::Running, ReapOutcome::Signaled),
        ProcessStatus::Running
    );
    // A recorded exit is never overwritten.
    assert_eq!(
        apply_status_poll(ProcessStatus::Exited(2), ReapOutcome::ExitedNormally(9)),
        ProcessStatus::Exited(2)
    );
}

#[test]
fn test_poll_status_without_child() {
    // No child of this test process has that identifier: the reap observes
    // nothing and the cached status is returned unchanged.
    assert_eq!(
        poll_status(i32::MAX, ProcessStatus::Running),
        ProcessStatus::Running
    );
    assert_eq!(
        poll_status(i32::MAX, ProcessStatus::Exited(3)),
        ProcessStatus::Exited(3)
    );
}

#[test]
fn test_stop_idempotent_when_exited() {
    // Stop on an already-exited status returns at once with the same code,
    // whatever process identifier the handle carries.
    let first = run_stop_sequence(i32::MAX, ProcessStatus::Exited(7));
    assert_eq!(first, ProcessStatus::Exited(7));
    let second = run_stop_sequence(i32::MAX, first);
    assert_eq!(second, ProcessStatus::Exited(7));
}

#[test]
fn test_stop_resolves_to_sentinel_without_child() {
    // With no such child the graceful window observes nothing and the forced
    // reap is indeterminate: the sequence still converges, to the sentinel.
    let status = run_stop_sequence(i32::MAX, ProcessStatus::Running);
    assert_eq!(status, ProcessStatus::Exited(-1));
}

#[test]
fn test_take_output_drains_fully() {
    let mut buffer: Vec<u8> = Vec::new();
    append_output(&mut buffer, b"hello");
    append_output(&mut buffer, b" world");
    assert_eq!(buffer, b"hello world");

    let first = take_output(&mut buffer);
    assert_eq!(first, b"hello world");
    let second = take_output(&mut buffer);
    assert!(second.is_empty());
}

#[test]
fn test_capture_read_appends_and_reports() {
    let mut buffer: Vec<u8> = b"early".to_vec();
    let chunk = capture_read(&mut buffer, b" late".to_vec());
    assert_eq!(buffer, b"early late");
    assert_eq!(chunk.direction, IoDirection::Stdout);
    assert_eq!(chunk.data, b" late");
}

#[test]
fn test_write_stdin_bytes_through_a_pipe() {
    let (read_end, write_end) = nix::unistd::pipe().expect("pipe failed");
    let chunk = write_stdin_bytes(write_end, b"hello\n".to_vec()).expect("write failed");
    assert_eq!(chunk.direction, IoDirection::Stdin);
    assert_eq!(chunk.data, b"hello\n");

    let mut buf = [0u8; 16];
    let n = nix::unistd::read(read_end, &mut buf).expect("read failed");
    assert_eq!(&buf[..n], b"hello\n");
    nix::unistd::close(read_end).ok();
    nix::unistd::close(write_end).ok();
}

#[test]
fn test_write_stdin_on_master_duplicates_and_writes() {
    let (read_end, write_end) = nix::unistd::pipe().expect("pipe failed");
    let chunk = write_stdin_on_master(write_end, b"ping\n".to_vec()).expect("write failed");
    assert_eq!(chunk.direction, IoDirection::Stdin);
    assert_eq!(chunk.data, b"ping\n");

    let mut buf = [0u8; 16];
    let n = nix::unistd::read(read_end, &mut buf).expect("read failed");
    assert_eq!(&buf[..n], b"ping\n");

    // The write went through a private duplicate: the original descriptor is
    // still open and usable afterwards.
    assert!(nix::unistd::write(write_end, b"x").is_ok());
    nix::unistd::close(read_end).ok();
    nix::unistd::close(write_end).ok();
}

#[test]
fn test_write_stdin_on_master_bad_descriptor() {
    let result = write_stdin_on_master(-1, b"data".to_vec());
    assert!(matches!(result, Err(TtyError::Io(_))));
}

#[test]
fn test_write_stdin_bytes_bad_descriptor() {
    let result = write_stdin_bytes(-1, b"data".to_vec());
    assert!(matches!(result, Err(TtyError::Io(_))));
}

#[test]
fn test_write_stdin_bytes_empty_payload_succeeds() {
    // An empty payload asks nothing of the OS, so even a bad descriptor
    // cannot fail it.
    let chunk = write_stdin_bytes(-1, Vec::new()).expect("empty write failed");
    assert_eq!(chunk.direction, IoDirection::Stdin);
    assert!(chunk.data.is_empty());
}

#[test]
fn test_contains_nul() {
    assert!(!contains_nul(&b"cat".to_vec()));
    assert!(contains_nul(&b"ca\0t".to_vec()));
    assert!(!contains_nul(&Vec::new()));
}

#[test]
fn test_build_exec_args_passthrough() {
    let argv = build_exec_args(b"cat".to_vec(), vec![b"-n".to_vec(), b"file".to_vec()]);
    assert_eq!(argv, vec![b"cat".to_vec(), b"-n".to_vec(), b"file".to_vec()]);
}

#[test]
fn test_build_exec_args_fallback_shell() {
    let argv = build_exec_args(b"ca\0t".to_vec(), vec![b"-n".to_vec()]);
    assert_eq!(argv, vec![b"sh".to_vec(), b"-n".to_vec()]);
}

#[test]
fn test_build_exec_args_filters_bad_arguments() {
    let argv = build_exec_args(
        b"echo".to_vec(),
        vec![b"a\0".to_vec(), b"b".to_vec(), b"\0".to_vec()],
    );
    assert_eq!(argv, vec![b"echo".to_vec(), b"b".to_vec()]);
}

#[test]
fn test_combine_nanos_exact() {
    assert_eq!(combine_nanos(1, 500), 1_000_000_500);
    assert_eq!(combine_nanos(0, 0), 0);
    assert_eq!(combine_nanos(-1, 5), 0);
    assert_eq!(combine_nanos(3, -1), 0);
    assert_eq!(combine_nanos(i64::MAX, 0), u64::MAX);
}
