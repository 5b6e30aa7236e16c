use vm_launcher::addr::Ipv4Address;
use vm_launcher::addr::MacAddr;
use vm_launcher::network::TapUser;
use vm_launcher::qemu::LaunchConfiguration;
use vm_launcher::qemu::MountedFilesystem;
use vm_launcher::qemu::QemuFirmwareConfig;
use vm_launcher::qemu::bool_option;
use vm_launcher::qemu::create_qemu_arguments;

fn tap7() -> TapUser {
    TapUser {
        device_name: "tap7".to_string(),
        mac_addr: MacAddr::from_bytes([0x00, 0x60, 0x2f, 0xab, 0xcd, 0xef]),
        ip_addr: Ipv4Address::from_octets(10, 0, 0, 9),
    }
}

fn value_after<'a>(args: &'a [String], flag: &str) -> Option<&'a str> {
    let mut i = 0;
    while i + 1 < args.len() {
        if args[i] == flag {
            return Some(args[i + 1].as_str());
        }
        i += 1;
    }
    None
}

#[test]
fn composed_command_line_names_sizing_tap_and_image() {
    let lc = LaunchConfiguration {
        tap: tap7(),
        image_path: "/tmp/x/img".to_string(),
        temp_dir: "/tmp/x".to_string(),
        firmware: vec![],
        num_cores: Some(4),
        memory_in_mega_bytes: Some(2048),
    };
    let args = create_qemu_arguments(&lc);

    assert_eq!(value_after(&args, "-smp"), Some("4"));
    assert_eq!(value_after(&args, "-m"), Some("2048m"));
    assert_eq!(
        value_after(&args, "-netdev"),
        Some("tap,id=eth0,ifname=tap7,script=no,downscript=no")
    );
    assert_eq!(value_after(&args, "-drive"), Some("if=virtio,file=/tmp/x/img"));
    assert!(!args.iter().any(|a| a == "-fw_cfg"));
    assert!(args.iter().any(|a| a == "virtio-net-pci,netdev=eth0,mac=00:60:2f:ab:cd:ef"));
}

#[test]
fn composed_command_line_keeps_the_fixed_order_and_defaults() {
    let lc = LaunchConfiguration {
        tap: tap7(),
        image_path: "/img.iso".to_string(),
        temp_dir: "/work/vm0".to_string(),
        firmware: vec![QemuFirmwareConfig {
            name: "opt/org.flatcar-linux/config".to_string(),
            path: "/work/vm0/ignition.json".to_string(),
        }],
        num_cores: None,
        memory_in_mega_bytes: None,
    };
    let args = create_qemu_arguments(&lc);

    let head: Vec<&str> = args.iter().take(21).map(|s| s.as_str()).collect();
    assert_eq!(
        head,
        vec![
            "-monitor",
            "unix:/work/vm0/monitor.socket,server,nowait",
            "-serial",
            "unix:/work/vm0/serial.socket,server,nowait",
            "-daemonize",
            "-pidfile",
            "/work/vm0/pidfile",
            "-display",
            "none",
            "-vga",
            "none",
            "-machine",
            "q35",
            "-cpu",
            "host",
            "-enable-kvm",
            "-machine",
            "accel=kvm",
            "-drive",
            "if=virtio,file=/img.iso",
            "-fsdev",
        ]
    );
    assert_eq!(value_after(&args, "-smp"), Some("8"));
    assert_eq!(value_after(&args, "-m"), Some("16384m"));
    assert_eq!(
        value_after(&args, "-fw_cfg"),
        Some("name=opt/org.flatcar-linux/config,file=/work/vm0/ignition.json")
    );
    let fsdev = value_after(&args, "-fsdev").unwrap();
    assert!(fsdev.starts_with("local,id=f"));
    assert!(fsdev.ends_with(",security_model=none,readonly=on,path=/work/vm0"));
    assert!(args.iter().any(|a| a == "-object"));
    assert!(args.iter().any(|a| a == "rng-random,filename=/dev/urandom,id=rng0"));
}

#[test]
fn firmware_fragment_renders_name_and_file() {
    let fw = QemuFirmwareConfig { name: "blob".to_string(), path: "/a/b".to_string() };
    assert_eq!(fw.as_args(), vec!["-fw_cfg".to_string(), "name=blob,file=/a/b".to_string()]);
}

#[test]
fn mounted_filesystem_fragment_uses_its_node_id() {
    let fs = MountedFilesystem {
        mount_tag: "config-2".to_string(),
        readonly: true,
        path: "/work".to_string(),
    };
    assert_eq!(
        fs.as_args(17),
        vec![
            "-fsdev".to_string(),
            "local,id=f17,security_model=none,readonly=on,path=/work".to_string(),
            "-device".to_string(),
            "virtio-9p-pci,fsdev=f17,mount_tag=config-2".to_string(),
        ]
    );
}

#[test]
fn bool_option_marks_exactly_true() {
    assert_eq!(bool_option(true), Some(()));
    assert_eq!(bool_option(false), None);
}
