use ptnexus_runtime::error::BootstrapError;
use ptnexus_runtime::probe::{log_tail, readiness_step, split_log_lines, ProcessState, Readiness};
use ptnexus_runtime::startup::{
    ensure_ports_available, required_ports, ProcessGroup, Service, Startup, StartupAction,
};

#[test]
fn ready_as_soon_as_port_is_open() {
    assert_eq!(readiness_step(true, ProcessState::Running, 0, 30000), Readiness::Ready);
    assert_eq!(readiness_step(true, ProcessState::Exited, 99999, 30000), Readiness::Ready);
}

#[test]
fn exited_is_reported_before_timeout() {
    assert_eq!(readiness_step(false, ProcessState::Exited, 10, 30000), Readiness::Exited);
    assert_eq!(readiness_step(false, ProcessState::Exited, 40000, 30000), Readiness::Exited);
    assert_eq!(readiness_step(false, ProcessState::CheckFailed, 10, 30000), Readiness::ProbeError);
    assert_eq!(readiness_step(false, ProcessState::Running, 30000, 30000), Readiness::Polling);
    assert_eq!(readiness_step(false, ProcessState::Running, 30001, 30000), Readiness::TimedOut);
}

#[test]
fn log_tail_keeps_last_lines() {
    assert_eq!(log_tail("a\nb\nc\n", 2), "b\nc");
    assert_eq!(log_tail("a\r\nb\r\n", 5), "a\nb");
    assert_eq!(log_tail("a\r", 40), "a\r");
    assert_eq!(log_tail("a\r\nb\r", 40), "a\nb\r");
    assert_eq!(split_log_lines("x\r\n\r\n"), vec!["x".to_string(), String::new()]);
    assert_eq!(log_tail("", 40), "");
    assert_eq!(log_tail("only", 40), "only");
    assert_eq!(log_tail("x\n\ny", 0), "");
    let text: String = (1..=50).map(|i| format!("line {}\n", i)).collect();
    let tail = log_tail(&text, 40);
    assert!(tail.starts_with("line 11\n"));
    assert!(tail.ends_with("line 50"));
    assert_eq!(split_log_lines("a\n\nb"), vec!["a".to_string(), String::new(), "b".to_string()]);
}

#[test]
fn service_ports_and_names() {
    assert_eq!(Service::Server.port(), 5275);
    assert_eq!(Service::Batch.port(), 5276);
    assert_eq!(Service::Updater.port(), 5274);
    assert_eq!(Service::Batch.name(), "batch");
    assert_eq!(required_ports(), vec![5274, 5275, 5276]);
}

#[test]
fn all_services_ready_in_order() {
    let mut st = Startup::new();
    let mut spawned = Vec::new();
    loop {
        match st.next_action() {
            StartupAction::Spawn(s) => {
                spawned.push(s);
                st.on_spawned(true);
            }
            StartupAction::Probe(_) => st.on_probed(Readiness::Ready),
            StartupAction::Finished => break,
            StartupAction::Aborted => panic!("aborted"),
        }
    }
    assert_eq!(spawned, vec![Service::Server, Service::Batch, Service::Updater]);
    assert_eq!(st.ready(), &vec![Service::Server, Service::Batch, Service::Updater]);
}

#[test]
fn batch_exit_stops_before_updater() {
    let mut st = Startup::new();
    let mut spawned = Vec::new();
    loop {
        match st.next_action() {
            StartupAction::Spawn(s) => {
                spawned.push(s);
                st.on_spawned(true);
            }
            StartupAction::Probe(Service::Batch) => st.on_probed(Readiness::Exited),
            StartupAction::Probe(_) => {
                st.on_probed(Readiness::Polling);
                st.on_probed(Readiness::Ready);
            }
            StartupAction::Finished => panic!("finished"),
            StartupAction::Aborted => break,
        }
    }
    assert_eq!(spawned, vec![Service::Server, Service::Batch]);
    assert_eq!(st.ready(), &vec![Service::Server]);
}

#[test]
fn spawn_failure_aborts() {
    let mut st = Startup::new();
    st.on_spawned(false);
    assert_eq!(st.next_action(), StartupAction::Aborted);
    assert!(st.ready().is_empty());
}

#[test]
fn busy_port_fails_first() {
    let ports = required_ports();
    assert_eq!(
        ensure_ports_available(&ports, &vec![true, false, true]),
        Err(BootstrapError::PortUnavailable { port: 5275 })
    );
    assert_eq!(ensure_ports_available(&ports, &vec![true, true, true]), Ok(()));
}

#[test]
fn group_shutdown_is_idempotent() {
    let mut g: ProcessGroup<u32> = ProcessGroup::new();
    g.add(1);
    g.add(2);
    assert_eq!(g.members(), &vec![1, 2]);
    assert_eq!(g.take_all(), vec![1, 2]);
    assert_eq!(g.len(), 0);
    assert_eq!(g.take_all(), Vec::<u32>::new());
    assert_eq!(g.len(), 0);
}
