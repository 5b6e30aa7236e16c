use vm_launcher::addr::Ipv4Address;
use vm_launcher::addr::MacAddr;
use vm_launcher::network::TapUser;
use vm_launcher::qemu::LaunchConfiguration;
use vm_launcher::qemu::QemuError;
use vm_launcher::qemu::QemuProcessHandle;
use vm_launcher::qemu::STOP_TIMEOUT_SECONDS;
use vm_launcher::qemu::QUIT_COMMAND;
use vm_launcher::qemu::ShutdownStep;
use vm_launcher::qemu::StopPlan;
use vm_launcher::qemu::after_graceful_wait;
use vm_launcher::qemu::classify_kill;
use vm_launcher::qemu::classify_liveness;
use vm_launcher::qemu::parse_pid_bytes;
use vm_launcher::qemu::plan_stop;
use vm_launcher::shell::ShellError;
use vm_launcher::shell::ShellErrorEnum;

fn handle() -> QemuProcessHandle {
    QemuProcessHandle::new(LaunchConfiguration {
        tap: TapUser {
            device_name: "tap3".to_string(),
            mac_addr: MacAddr::from_bytes([0x00, 0x60, 0x2f, 1, 2, 3]),
            ip_addr: Ipv4Address::from_octets(10, 0, 0, 5),
        },
        image_path: "/img".to_string(),
        temp_dir: "/work/vm3".to_string(),
        firmware: vec![],
        num_cores: None,
        memory_in_mega_bytes: None,
    })
}

#[test]
fn pidfile_with_decimal_pid_parses() {
    let buf = b"1234\n".to_vec();
    assert!(matches!(parse_pid_bytes(&buf, 5), Ok(1234)));
}

#[test]
fn pidfile_with_garbage_number_is_a_distinct_error() {
    let buf = b"12a4\n".to_vec();
    assert!(matches!(parse_pid_bytes(&buf, 5), Err(QemuError::PidFileNonNumeric)));
    let empty = b"\n".to_vec();
    assert!(matches!(parse_pid_bytes(&empty, 1), Err(QemuError::PidFileNonNumeric)));
    let nothing_read = Vec::new();
    assert!(matches!(parse_pid_bytes(&nothing_read, 0), Err(QemuError::PidFileNonNumeric)));
    let huge = b"99999999999999999999999\n".to_vec();
    assert!(matches!(parse_pid_bytes(&huge, 24), Err(QemuError::PidFileNonNumeric)));
}

#[test]
fn pidfile_with_non_text_bytes_is_a_distinct_error() {
    let buf = vec![0xff, 0xfe, b'\n'];
    assert!(matches!(parse_pid_bytes(&buf, 3), Err(QemuError::PidFileNonUtf)));
}

#[test]
fn missing_pidfile_stops_without_monitor_contact() {
    let liveness = classify_liveness(Err(QemuError::NotRunning));
    assert!(matches!(liveness, Ok(None)));
    let plan = plan_stop(Ok(false));
    assert!(matches!(plan, StopPlan::AlreadyStopped));
}

#[test]
fn running_guest_gets_the_quit_command_then_escalation() {
    assert!(matches!(classify_liveness(Ok(42)), Ok(Some(42))));
    assert!(matches!(plan_stop(Ok(true)), StopPlan::SendQuit));
    assert!(matches!(after_graceful_wait(Some(Ok(()))), Ok(ShutdownStep::Finished)));
    assert!(matches!(after_graceful_wait(None), Ok(ShutdownStep::ForceKill)));
    assert!(matches!(classify_kill(Ok(true)), Ok(())));
    assert!(matches!(classify_kill(Ok(false)), Err(QemuError::CouldNotKill)));
    let e = ShellError::new(ShellErrorEnum::IOFailed("probe".to_string()));
    assert!(matches!(classify_kill(Err(e)), Err(QemuError::Shell(_))));
}

#[test]
fn failures_of_the_running_check_propagate() {
    let e = QemuError::IO("gone".to_string(), "reading pidfile".to_string());
    assert!(matches!(classify_liveness(Err(e)), Err(QemuError::IO(_, _))));
    let e2 = QemuError::PidFileNonUtf;
    assert!(matches!(plan_stop(Err(e2)), StopPlan::Fail(QemuError::PidFileNonUtf)));
}

#[test]
fn protocol_constants_are_fixed() {
    assert_eq!(QUIT_COMMAND, "q\n");
    assert_eq!(STOP_TIMEOUT_SECONDS, 2);
}

#[test]
fn handle_paths_live_under_the_temp_dir() {
    let h = handle();
    assert_eq!(h.monitor_path(), "/work/vm3/monitor.socket");
    assert_eq!(h.serial_path(), "/work/vm3/serial.socket");
    assert_eq!(h.pid_file_path(), "/work/vm3/pidfile");
    assert_eq!(h.status_line(), "TapDevice: tap3, Ip: 10.0.0.5");
}

#[test]
fn taking_the_configuration_empties_the_handle() {
    let mut h = handle();
    let lc = h.take_configuration();
    assert!(h.lc.is_none());
    assert_eq!(lc.temp_dir, "/work/vm3");
}
