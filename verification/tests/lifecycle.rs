use proxy_control::lifecycle::{
    on_hosts_read, on_hosts_written, on_spawned, on_terminated, start, Command, Progress,
    ReadWait, SpawnOutcome, TerminateWait, WriteWait,
};
use proxy_control::report::{Ack, InitReport, Payload, StatusReport};
use proxy_control::supervisor::{ProcessHandle, ProxyState};

const ENTRY: &str = "127.0.0.1 server.self-serve.windsurf.com";

/// A stand-in for the machine: the hosts file in memory, a proxy that can be
/// spawned or not, and a record of what was asked of it.
struct Machine {
    hosts: Result<String, String>,
    write_error: Option<String>,
    spawn: Vec<SpawnOutcome<String>>,
    terminated: Vec<u32>,
    spawned_for: Vec<String>,
    writes: usize,
}

impl Machine {
    fn with_hosts(hosts: &str) -> Machine {
        Machine {
            hosts: Ok(hosts.to_string()),
            write_error: None,
            spawn: Vec::new(),
            terminated: Vec::new(),
            spawned_for: Vec::new(),
            writes: 0,
        }
    }

    fn table(&self) -> &str {
        self.hosts.as_ref().unwrap()
    }

    fn run_to_end(
        &mut self,
        state: &mut ProxyState,
        command: Command<String>,
    ) -> Result<Payload, String> {
        let mut progress = start(command, state);
        loop {
            progress = match progress {
                Progress::ReadHosts(wait) => on_hosts_read(wait, state, self.hosts.clone()),
                Progress::WriteHosts(table, wait) => {
                    let result = match &self.write_error {
                        Some(reason) => Err(reason.clone()),
                        None => {
                            self.hosts = Ok(table);
                            self.writes += 1;
                            Ok(())
                        }
                    };
                    on_hosts_written(wait, state, result)
                }
                Progress::Terminate(handle, wait) => {
                    self.terminated.push(handle.pid);
                    on_terminated(wait, state)
                }
                Progress::Spawn { gateway_url } => {
                    self.spawned_for.push(gateway_url);
                    let outcome = if self.spawn.is_empty() {
                        SpawnOutcome::ScriptMissing
                    } else {
                        self.spawn.remove(0)
                    };
                    on_spawned(state, outcome)
                }
                Progress::Done(reply) => return reply,
            };
        }
    }
}

fn run(url: &str) -> Command<String> {
    Command::Run { gateway_url: url.to_string() }
}

fn started(pid: u32) -> SpawnOutcome<String> {
    SpawnOutcome::Started(ProcessHandle { pid })
}

fn status(hosts_modified: bool, proxy_running: bool, process_supervised: bool) -> Payload {
    Payload::Status(StatusReport { hosts_modified, proxy_running, process_supervised })
}

#[test]
fn new_state_runs_nothing() {
    let state = ProxyState::new();
    assert!(!state.is_running());
    assert!(!state.is_supervised());
    assert_eq!(state.handle(), None);
}

#[test]
fn initialize_ignores_a_commented_out_entry() {
    let mut state = ProxyState::new();
    let mut machine = Machine::with_hosts("# 127.0.0.1 server.self-serve.windsurf.com");
    let reply = machine.run_to_end(&mut state, Command::Initialize);
    assert_eq!(
        reply,
        Ok(Payload::Initialized(InitReport {
            hosts_modified: false,
            proxy_running: false,
            cert_installed: true
        }))
    );
    assert_eq!(machine.writes, 0);
}

#[test]
fn initialize_reports_the_table_and_never_the_running_flag() {
    let mut state = ProxyState::new();
    let mut machine = Machine::with_hosts("");
    machine.spawn.push(started(11));
    assert_eq!(machine.run_to_end(&mut state, run("https://gw.example")), Ok(Payload::Done(Ack::Started)));
    assert!(state.is_running());
    let reply = machine.run_to_end(&mut state, Command::Initialize);
    assert_eq!(
        reply,
        Ok(Payload::Initialized(InitReport {
            hosts_modified: true,
            proxy_running: false,
            cert_installed: true
        }))
    );
    assert!(state.is_running());
    assert_eq!(state.handle(), Some(ProcessHandle { pid: 11 }));
}

#[test]
fn initialize_surfaces_a_read_failure() {
    let mut state = ProxyState::new();
    let mut machine = Machine::with_hosts("");
    machine.hosts = Err("permission denied".to_string());
    assert_eq!(
        machine.run_to_end(&mut state, Command::Initialize),
        Err("Failed to read hosts: permission denied".to_string())
    );
}

#[test]
fn run_on_empty_table_without_script_reports_running() {
    let mut state = ProxyState::new();
    let mut machine = Machine::with_hosts("");
    let reply = machine.run_to_end(&mut state, run("https://gw.example"));
    assert_eq!(reply, Ok(Payload::Done(Ack::Started)));
    assert_eq!(machine.table(), "\n127.0.0.1 server.self-serve.windsurf.com\n");
    assert_eq!(machine.spawned_for, vec!["https://gw.example".to_string()]);
    assert_eq!(machine.run_to_end(&mut state, Command::Status), Ok(status(true, true, false)));
    assert!(state.is_running());
    assert!(!state.is_supervised());
}

#[test]
fn restore_after_run_clears_table_and_process() {
    let mut state = ProxyState::new();
    let mut machine = Machine::with_hosts("127.0.0.1 localhost\n");
    machine.spawn.push(started(4711));
    assert_eq!(machine.run_to_end(&mut state, run("https://gw.example")), Ok(Payload::Done(Ack::Started)));
    assert_eq!(machine.table(), format!("127.0.0.1 localhost\n{}\n", ENTRY));
    assert_eq!(machine.run_to_end(&mut state, Command::Status), Ok(status(true, true, true)));
    assert!(machine.terminated.is_empty());

    assert_eq!(machine.run_to_end(&mut state, Command::Restore), Ok(Payload::Done(Ack::Restored)));
    assert_eq!(machine.terminated, vec![4711]);
    assert_eq!(machine.table(), "127.0.0.1 localhost\n");
    assert_eq!(machine.run_to_end(&mut state, Command::Status), Ok(status(false, false, false)));
    assert_eq!(state.handle(), None);
}

#[test]
fn restore_after_run_without_script_terminates_nothing() {
    let mut state = ProxyState::new();
    let mut machine = Machine::with_hosts("");
    assert_eq!(machine.run_to_end(&mut state, run("u")), Ok(Payload::Done(Ack::Started)));
    assert_eq!(machine.run_to_end(&mut state, Command::Restore), Ok(Payload::Done(Ack::Restored)));
    assert!(machine.terminated.is_empty());
    assert_eq!(machine.table(), "\n");
    assert_eq!(machine.run_to_end(&mut state, Command::Status), Ok(status(false, false, false)));
}

#[test]
fn run_skips_the_write_when_the_line_is_there() {
    let mut state = ProxyState::new();
    let table = "127.0.0.1 localhost\n127.0.0.1 server.self-serve.windsurf.com\n\n";
    let mut machine = Machine::with_hosts(table);
    machine.write_error = Some("read-only file system".to_string());
    assert_eq!(machine.run_to_end(&mut state, run("u")), Ok(Payload::Done(Ack::Started)));
    assert_eq!(machine.table(), table);
    assert_eq!(machine.writes, 0);
    assert!(state.is_running());
}

#[test]
fn run_surfaces_a_read_failure_and_changes_nothing() {
    let mut state = ProxyState::new();
    let mut machine = Machine::with_hosts("");
    machine.hosts = Err("No such file or directory (os error 2)".to_string());
    assert_eq!(
        machine.run_to_end(&mut state, run("u")),
        Err("Read hosts failed: No such file or directory (os error 2)".to_string())
    );
    assert!(!state.is_running());
    assert!(machine.spawned_for.is_empty());
}

#[test]
fn run_surfaces_a_write_failure_and_does_not_spawn() {
    let mut state = ProxyState::new();
    let mut machine = Machine::with_hosts("127.0.0.1 localhost\n");
    machine.write_error = Some("Permission denied (os error 13)".to_string());
    machine.spawn.push(started(5));
    assert_eq!(
        machine.run_to_end(&mut state, run("u")),
        Err("Write hosts failed: Permission denied (os error 13)".to_string())
    );
    assert!(!state.is_running());
    assert!(!state.is_supervised());
    assert!(machine.spawned_for.is_empty());
    assert_eq!(machine.table(), "127.0.0.1 localhost\n");
}

#[test]
fn run_surfaces_a_refused_spawn_and_leaves_the_flag() {
    let mut state = ProxyState::new();
    let mut machine = Machine::with_hosts("");
    machine.spawn.push(SpawnOutcome::Failed("program not found".to_string()));
    assert_eq!(
        machine.run_to_end(&mut state, run("u")),
        Err("Failed to start proxy: program not found".to_string())
    );
    assert!(!state.is_running());
    assert!(!state.is_supervised());
    assert_eq!(machine.run_to_end(&mut state, Command::Status), Ok(status(true, false, false)));
}

#[test]
fn run_surfaces_an_unknown_install_directory_as_it_is() {
    let mut state = ProxyState::new();
    let mut machine = Machine::with_hosts("");
    machine.spawn.push(SpawnOutcome::NoInstallDir("no parent dir".to_string()));
    assert_eq!(machine.run_to_end(&mut state, run("u")), Err("no parent dir".to_string()));
    assert!(!state.is_running());
}

#[test]
fn second_run_terminates_the_first_process_before_it_spawns() {
    let mut state = ProxyState::new();
    let mut machine = Machine::with_hosts("");
    machine.spawn.push(started(1));
    machine.spawn.push(started(2));
    assert_eq!(machine.run_to_end(&mut state, run("first")), Ok(Payload::Done(Ack::Started)));

    let progress = start(run("second"), &mut state);
    let progress = match progress {
        Progress::ReadHosts(wait) => on_hosts_read(wait, &mut state, machine.hosts.clone()),
        other => panic!("unexpected {:?}", other),
    };
    assert_eq!(
        progress,
        Progress::Terminate(
            ProcessHandle { pid: 1 },
            TerminateWait::BeforeSpawn { gateway_url: "second".to_string() }
        )
    );
    assert!(!state.is_supervised());
    assert!(state.is_running());
    let progress = on_terminated(
        TerminateWait::BeforeSpawn { gateway_url: "second".to_string() },
        &mut state,
    );
    assert_eq!(progress, Progress::Spawn { gateway_url: "second".to_string() });
    assert_eq!(on_spawned(&mut state, started(2)), Progress::Done(Ok(Payload::Done(Ack::Started))));
    assert_eq!(state.handle(), Some(ProcessHandle { pid: 2 }));
}

#[test]
fn second_run_without_script_keeps_flag_and_drops_old_process() {
    let mut state = ProxyState::new();
    let mut machine = Machine::with_hosts("");
    machine.spawn.push(started(1));
    assert_eq!(machine.run_to_end(&mut state, run("first")), Ok(Payload::Done(Ack::Started)));
    assert_eq!(machine.run_to_end(&mut state, run("second")), Ok(Payload::Done(Ack::Started)));
    assert_eq!(machine.terminated, vec![1]);
    assert!(state.is_running());
    assert!(!state.is_supervised());
    assert_eq!(machine.writes, 1);
}

#[test]
fn stop_terminates_and_leaves_the_table() {
    let mut state = ProxyState::new();
    let mut machine = Machine::with_hosts("");
    machine.spawn.push(started(9));
    assert_eq!(machine.run_to_end(&mut state, run("u")), Ok(Payload::Done(Ack::Started)));
    let table = machine.table().to_string();
    assert_eq!(machine.run_to_end(&mut state, Command::Stop), Ok(Payload::Done(Ack::Stopped)));
    assert_eq!(machine.terminated, vec![9]);
    assert_eq!(machine.table(), table);
    assert_eq!(machine.run_to_end(&mut state, Command::Status), Ok(status(true, false, false)));
}

#[test]
fn stop_with_nothing_running_is_a_no_op() {
    let mut state = ProxyState::new();
    assert_eq!(start(Command::Stop, &mut state), Progress::Done(Ok(Payload::Done(Ack::Stopped))));
    assert_eq!(start(Command::Stop, &mut state), Progress::Done(Ok(Payload::Done(Ack::Stopped))));
    assert!(!state.is_running());
    assert!(!state.is_supervised());
}

#[test]
fn stop_never_fails_on_an_unreadable_table() {
    let mut state = ProxyState::new();
    let mut machine = Machine::with_hosts("");
    machine.spawn.push(started(3));
    assert_eq!(machine.run_to_end(&mut state, run("u")), Ok(Payload::Done(Ack::Started)));
    machine.hosts = Err("gone".to_string());
    assert_eq!(machine.run_to_end(&mut state, Command::Stop), Ok(Payload::Done(Ack::Stopped)));
    assert_eq!(machine.terminated, vec![3]);
}

#[test]
fn restore_cleans_the_process_even_when_the_table_cannot_be_read() {
    let mut state = ProxyState::new();
    let mut machine = Machine::with_hosts("");
    machine.spawn.push(started(3));
    assert_eq!(machine.run_to_end(&mut state, run("u")), Ok(Payload::Done(Ack::Started)));
    machine.hosts = Err("gone".to_string());
    assert_eq!(
        machine.run_to_end(&mut state, Command::Restore),
        Err("Read hosts failed: gone".to_string())
    );
    assert_eq!(machine.terminated, vec![3]);
    assert!(!state.is_running());
    assert!(!state.is_supervised());
}

#[test]
fn restore_surfaces_a_write_failure_after_the_process_is_gone() {
    let mut state = ProxyState::new();
    let mut machine = Machine::with_hosts("");
    machine.spawn.push(started(3));
    assert_eq!(machine.run_to_end(&mut state, run("u")), Ok(Payload::Done(Ack::Started)));
    machine.write_error = Some("denied".to_string());
    assert_eq!(
        machine.run_to_end(&mut state, Command::Restore),
        Err("Write hosts failed: denied".to_string())
    );
    assert_eq!(machine.terminated, vec![3]);
    assert!(!state.is_running());
    assert!(has_entry(machine.table()));
    machine.write_error = None;
    assert_eq!(machine.run_to_end(&mut state, Command::Restore), Ok(Payload::Done(Ack::Restored)));
    assert!(!has_entry(machine.table()));
}

fn has_entry(table: &str) -> bool {
    proxy_control::hosts::has_redirect_entry(table)
}

#[test]
fn restore_writes_even_when_nothing_mentions_the_domain() {
    let mut state = ProxyState::new();
    let mut machine = Machine::with_hosts("a\r\nb");
    assert_eq!(machine.run_to_end(&mut state, Command::Restore), Ok(Payload::Done(Ack::Restored)));
    assert_eq!(machine.writes, 1);
    assert_eq!(machine.table(), "a\nb\n");
}

#[test]
fn status_surfaces_a_read_failure() {
    let mut state = ProxyState::new();
    let mut machine = Machine::with_hosts("");
    machine.hosts = Err("denied".to_string());
    assert_eq!(
        machine.run_to_end(&mut state, Command::Status),
        Err("Read hosts failed: denied".to_string())
    );
}

#[test]
fn status_reports_the_flags_as_they_stood_when_it_began() {
    let mut state = ProxyState::new();
    let wait = match start(Command::Status, &mut state) {
        Progress::ReadHosts(wait) => wait,
        other => panic!("unexpected {:?}", other),
    };
    assert_eq!(wait, ReadWait::Status { proxy_running: false, process_supervised: false });
    assert_eq!(on_spawned(&mut state, started(8)), Progress::Done(Ok(Payload::Done(Ack::Started))));
    assert_eq!(
        on_hosts_read(wait, &mut state, Ok(ENTRY.to_string())),
        Progress::Done(Ok(status(true, false, false)))
    );
    assert!(state.is_running());
}

#[test]
fn stop_between_the_steps_of_run_leaves_a_consistent_state() {
    let mut state = ProxyState::new();
    let progress = start(run("u"), &mut state);
    let progress = match progress {
        Progress::ReadHosts(wait) => on_hosts_read(wait, &mut state, Ok(String::new())),
        other => panic!("unexpected {:?}", other),
    };
    let progress = match progress {
        Progress::WriteHosts(table, wait) => {
            assert_eq!(table, format!("\n{}\n", ENTRY));
            assert_eq!(wait, WriteWait::Run { gateway_url: "u".to_string() });
            on_hosts_written(wait, &mut state, Ok(()))
        }
        other => panic!("unexpected {:?}", other),
    };
    assert_eq!(progress, Progress::Spawn { gateway_url: "u".to_string() });

    assert_eq!(start(Command::Stop, &mut state), Progress::Done(Ok(Payload::Done(Ack::Stopped))));
    assert!(!state.is_running() && !state.is_supervised());

    assert_eq!(on_spawned(&mut state, started(21)), Progress::Done(Ok(Payload::Done(Ack::Started))));
    assert!(state.is_running() && state.is_supervised());

    assert_eq!(
        start(Command::Stop, &mut state),
        Progress::Terminate(ProcessHandle { pid: 21 }, TerminateWait::Stop)
    );
    assert!(!state.is_running() && !state.is_supervised());
    assert_eq!(
        on_terminated(TerminateWait::Stop, &mut state),
        Progress::Done(Ok(Payload::Done(Ack::Stopped)))
    );
}

#[test]
fn two_runs_at_once_leave_one_process() {
    let mut state = ProxyState::new();
    assert_eq!(on_spawned(&mut state, started(1)), Progress::Done(Ok(Payload::Done(Ack::Started))));
    assert_eq!(
        on_spawned(&mut state, started(2)),
        Progress::Terminate(ProcessHandle { pid: 1 }, TerminateWait::AfterSpawn)
    );
    assert_eq!(state.handle(), Some(ProcessHandle { pid: 2 }));
    assert_eq!(
        on_terminated(TerminateWait::AfterSpawn, &mut state),
        Progress::Done(Ok(Payload::Done(Ack::Started)))
    );
    assert_eq!(on_spawned(&mut state, started(2)), Progress::Done(Ok(Payload::Done(Ack::Started))));
    assert_eq!(state.handle(), Some(ProcessHandle { pid: 2 }));
}

#[test]
fn missing_script_keeps_a_process_that_another_run_started() {
    let mut state = ProxyState::new();
    assert_eq!(on_spawned(&mut state, started(1)), Progress::Done(Ok(Payload::Done(Ack::Started))));
    assert_eq!(
        on_spawned(&mut state, SpawnOutcome::ScriptMissing),
        Progress::Done(Ok(Payload::Done(Ack::Started)))
    );
    assert_eq!(state.handle(), Some(ProcessHandle { pid: 1 }));
    assert!(state.is_running());
}

#[test]
fn restore_with_a_process_reads_the_table_after_the_termination() {
    let mut state = ProxyState::new();
    assert_eq!(on_spawned(&mut state, started(1)), Progress::Done(Ok(Payload::Done(Ack::Started))));
    assert_eq!(
        start(Command::Restore, &mut state),
        Progress::Terminate(ProcessHandle { pid: 1 }, TerminateWait::Restore)
    );
    assert_eq!(
        on_terminated(TerminateWait::Restore, &mut state),
        Progress::ReadHosts(ReadWait::Restore)
    );
    assert_eq!(
        on_hosts_read(ReadWait::Restore, &mut state, Ok(format!("x\n{}\n", ENTRY))),
        Progress::WriteHosts("x\n".to_string(), WriteWait::Restore)
    );
    assert_eq!(
        on_hosts_written(WriteWait::Restore, &mut state, Ok(())),
        Progress::Done(Ok(Payload::Done(Ack::Restored)))
    );
}

#[test]
fn acknowledgments_carry_their_messages() {
    assert_eq!(Ack::Started.message(), "Proxy started");
    assert_eq!(Ack::Stopped.message(), "Proxy stopped");
    assert_eq!(Ack::Restored.message(), "Restored");
}
