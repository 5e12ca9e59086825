use mpv_web_client::api_servers::{
    advance_stop, after_writers_wait, command_line, local_address, signal_target, ApiServersErr, ApiServersService, ServerArguments,
    SpawnOutcome, StopProgress, StopStep,
};

fn started(handle: u64, writer: u64) -> SpawnOutcome {
    SpawnOutcome::Started { handle, writer }
}

#[test]
fn command_line_lists_address_directories_and_watch_flag() {
    let dirs = vec!["/media/a".to_string(), "/media/b".to_string()];
    let args = ServerArguments { port: 4000, dir: &dirs, watch_dir: true };
    assert_eq!(
        command_line(&args),
        vec!["--addr", "127.0.0.1:4000", "--dir", "/media/a", "--dir", "/media/b", "--watch-dir"]
    );
    let args = ServerArguments { port: 3001, dir: &dirs[..1], watch_dir: false };
    assert_eq!(command_line(&args), vec!["--addr", "127.0.0.1:3001", "--dir", "/media/a"]);
    let none: Vec<String> = Vec::new();
    let args = ServerArguments { port: 0, dir: &none, watch_dir: false };
    assert_eq!(command_line(&args), vec!["--addr", "127.0.0.1:0"]);
    assert_eq!(local_address(65535), "127.0.0.1:65535");
}

#[test]
fn spawn_plan_names_program_and_log_files() {
    let dirs = vec!["/media".to_string()];
    let args = ServerArguments { port: 4000, dir: &dirs, watch_dir: false };
    let plan = ApiServersService::new("/var/logs".to_string()).plan_spawn("w1", &args);
    assert_eq!(plan.program, "mpv-web-api");
    assert_eq!(plan.arguments, vec!["--addr", "127.0.0.1:4000", "--dir", "/media"]);
    assert_eq!(plan.address, "127.0.0.1:4000");
    assert_eq!(plan.stdout_file, "/var/logs/w1_stdout");
    assert_eq!(plan.stderr_file, "/var/logs/w1_stderr");
    assert_eq!(ApiServersService::get_archive_filename("w1"), "w1_logs_archive.tar.gz");
    assert_eq!(
        ApiServersService::get_output_stream_filenames("a b"),
        ("a b_stdout".to_string(), "a b_stderr".to_string())
    );
}

#[test]
fn spawn_registers_under_the_name() {
    let dirs = vec!["/media".to_string()];
    let args = ServerArguments { port: 4000, dir: &dirs, watch_dir: false };
    let mut service = ApiServersService::new("/logs".to_string());
    assert!(service.server_instances().is_empty());
    let orphan = service.spawn("w1".to_string(), &args, started(1, 10)).unwrap();
    assert!(orphan.is_none());
    let found = service.server_instance(&"w1".to_string()).unwrap();
    assert!(found.local);
    assert_eq!(found.address, "127.0.0.1:4000");
    assert_eq!(found.handle, 1);
    assert!(service.server_instance(&"w2".to_string()).is_none());
}

#[test]
fn a_second_spawn_under_one_name_takes_the_entry_over() {
    let dirs = vec!["/media".to_string()];
    let first = ServerArguments { port: 4000, dir: &dirs, watch_dir: false };
    let second = ServerArguments { port: 4001, dir: &dirs, watch_dir: false };
    let mut service = ApiServersService::new("/logs".to_string());
    service.spawn("w1".to_string(), &first, started(1, 10)).unwrap();
    service.spawn("other".to_string(), &first, started(2, 20)).unwrap();
    let orphan = service.spawn("w1".to_string(), &second, started(3, 30)).unwrap().unwrap();
    assert_eq!(orphan.handle, 1);
    assert_eq!(orphan.address, "127.0.0.1:4000");
    let listing = service.server_instances();
    assert_eq!(listing.iter().filter(|i| i.name == "w1").count(), 1);
    assert_eq!(listing.len(), 2);
    assert_eq!(service.server_instance(&"w1".to_string()).unwrap().handle, 3);
    assert_eq!(service.server_instance(&"w1".to_string()).unwrap().address, "127.0.0.1:4001");
    let wait = service.shutdown(30);
    assert_eq!(wait.writers, vec![10, 20, 30]);
    assert_eq!(wait.timeout_seconds, 30);
}

#[test]
fn a_failed_spawn_registers_nothing() {
    let dirs = vec!["/media".to_string()];
    let args = ServerArguments { port: 4000, dir: &dirs, watch_dir: false };
    let mut service = ApiServersService::new("/logs".to_string());
    let err = service.spawn("w1".to_string(), &args, SpawnOutcome::LaunchFailed("no such file".to_string())).unwrap_err();
    assert_eq!(err.message(), "could not spawn an api instance on address 127.0.0.1:4000: no such file");
    let err = service
        .spawn("w1".to_string(), &args, SpawnOutcome::LogOpenFailed("/logs/w1_stdout".to_string(), "denied".to_string()))
        .unwrap_err();
    assert_eq!(err.message(), "could not open file for stdout writing /logs/w1_stdout: denied");
    assert!(service.server_instances().is_empty());
    assert!(service.shutdown(30).writers.is_empty());
}

#[test]
fn stop_takes_the_name_out_of_the_listing() {
    let dirs = vec!["/media".to_string()];
    let args = ServerArguments { port: 4000, dir: &dirs, watch_dir: false };
    let mut service = ApiServersService::new("/logs".to_string());
    service.spawn("w1".to_string(), &args, started(1, 10)).unwrap();
    service.spawn("w2".to_string(), &args, started(2, 20)).unwrap();
    let stopped = service.stop(&"w1".to_string()).unwrap();
    assert_eq!(stopped.handle, 1);
    let listing = service.server_instances();
    assert_eq!(listing.len(), 1);
    assert_eq!(listing[0].name, "w2");
    match service.stop(&"w1".to_string()) {
        Err(ApiServersErr::NotFound(name)) => assert_eq!(name, "w1"),
        _ => panic!("stopped twice"),
    }
    assert_eq!(
        service.stop(&"nobody".to_string()).unwrap_err().message(),
        "could not find api server instance with name nobody"
    );
}

#[test]
fn spawn_list_stop_list() {
    let dirs = vec!["/srv/content".to_string()];
    let args = ServerArguments { port: 4000, dir: &dirs, watch_dir: false };
    let mut service = ApiServersService::new("/logs".to_string());
    service.spawn("a".to_string(), &args, started(7, 70)).unwrap();
    let listing = service.server_instances();
    assert_eq!(listing.len(), 1);
    assert_eq!(listing[0].name, "a");
    assert_eq!(listing[0].address, "127.0.0.1:4000");
    assert!(listing[0].local);
    let instance = service.stop(&"a".to_string()).unwrap();
    assert_eq!(signal_target(&"a".to_string(), Some(4321)).unwrap(), 4321);
    assert_eq!(instance.handle, 7);
    let mut step = StopStep::Signal;
    let mut made = vec![step];
    loop {
        match advance_stop(step, Ok(())) {
            StopProgress::Continue(next) => {
                step = next;
                made.push(step);
            }
            StopProgress::Finished(result) => {
                result.unwrap();
                break;
            }
        }
    }
    assert_eq!(
        made,
        vec![StopStep::Signal, StopStep::Wait, StopStep::Compress, StopStep::RemoveStdout, StopStep::RemoveStderr]
    );
    assert!(service.server_instances().is_empty());
    assert_eq!(ApiServersService::get_archive_filename("a"), "a_logs_archive.tar.gz");
}

#[test]
fn a_process_that_has_ended_is_not_signalled() {
    let err = signal_target(&"w1".to_string(), None).unwrap_err();
    assert_eq!(err.message(), "instance with name w1 has already finished");
}

#[test]
fn each_failed_stop_step_has_its_own_error() {
    let cases = [
        (StopStep::Signal, "could not send the termination signal: why"),
        (StopStep::Wait, "could not await on instance closure: why"),
        (StopStep::Compress, "could not compress archive: why"),
        (StopStep::RemoveStdout, "could not remove stdout output: why"),
        (StopStep::RemoveStderr, "could not remove stderr output: why"),
    ];
    for (step, text) in cases {
        match advance_stop(step, Err("why".to_string())) {
            StopProgress::Finished(Err(err)) => assert_eq!(err.message(), text),
            _ => panic!("{:?} went on after a failure", step),
        }
    }
}

#[test]
fn shutdown_hands_out_the_writers_once() {
    let dirs = vec!["/media".to_string()];
    let args = ServerArguments { port: 4000, dir: &dirs, watch_dir: false };
    let mut service = ApiServersService::new("/logs".to_string());
    service.spawn("w1".to_string(), &args, started(1, 10)).unwrap();
    service.stop(&"w1".to_string()).unwrap();
    assert_eq!(service.shutdown(5).writers, vec![10]);
    assert!(service.shutdown(5).writers.is_empty());
}

#[test]
fn logs_are_read_only_of_known_workers() {
    let dirs = vec!["/media".to_string()];
    let args = ServerArguments { port: 4000, dir: &dirs, watch_dir: false };
    let mut service = ApiServersService::new("/logs".to_string());
    assert_eq!(
        service.get_logs_readers(&"w1".to_string()).unwrap_err(),
        "No api server instance with name w1 exists"
    );
    service.spawn("w1".to_string(), &args, started(1, 10)).unwrap();
    assert_eq!(
        service.get_logs_readers(&"w1".to_string()).unwrap(),
        ("/logs/w1_stdout".to_string(), "/logs/w1_stderr".to_string())
    );
}

#[test]
fn logs_are_archived_in_the_logs_directory() {
    let service = ApiServersService::new("/logs".to_string());
    let plan = service.archive_logs("w1");
    assert_eq!(plan.stdout_path, "/logs/w1_stdout");
    assert_eq!(plan.stderr_path, "/logs/w1_stderr");
    assert_eq!(plan.archive_path, "/logs/w1_logs_archive.tar.gz");
}

#[test]
fn a_wait_for_the_writers_that_times_out_is_a_warning() {
    assert_eq!(after_writers_wait(true, 30), Ok(()));
    assert_eq!(
        after_writers_wait(false, 30),
        Err("forcing shutdown due to timeout on waiting for all streams of 30 seconds".to_string())
    );
}
