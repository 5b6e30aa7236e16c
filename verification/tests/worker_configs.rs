use vm_launcher::addr::Ipv4Address;
use vm_launcher::addr::MacAddr;
use vm_launcher::flatcar;
use vm_launcher::nanos::UnikernelWorkerConfig;
use vm_launcher::nanos::NanosError;
use vm_launcher::nanos::build_ops_args;
use vm_launcher::nanos::dest_image_path;
use vm_launcher::nanos::usage_not_a_file;
use vm_launcher::nes::Format;
use vm_launcher::nes::TCPSourceConfigBuilder;
use vm_launcher::nes::WorkerQueryProcessingConfigurationBuilder;
use vm_launcher::nes::default_host_ip;
use vm_launcher::network::TapUser;

fn items(config: &[vm_launcher::nes::ConfigItem]) -> Vec<(String, String)> {
    config.iter().map(|c| (c.key.clone(), c.value.clone())).collect()
}

fn tap() -> TapUser {
    TapUser {
        device_name: "tap2".to_string(),
        mac_addr: MacAddr::from_bytes([0x00, 0x60, 0x2f, 9, 9, 9]),
        ip_addr: Ipv4Address::from_octets(10, 0, 0, 4),
    }
}

#[test]
fn query_processing_settings_render_in_fixed_order() {
    let settings = WorkerQueryProcessingConfigurationBuilder::new()
        .buffer_size(8192)
        .total_number_of_buffers(4096)
        .number_of_source_buffers(32)
        .number_of_buffers_per_thread(128)
        .number_of_worker_threads(8)
        .build();
    let internal = settings.into_internal();
    assert_eq!(
        items(&internal.config),
        vec![
            ("numWorkerThreads".to_string(), "8".to_string()),
            ("bufferSizeInBytes".to_string(), "8192".to_string()),
            ("numberOfBuffersPerWorker".to_string(), "128".to_string()),
            ("numberOfBuffersInGlobalBufferManager".to_string(), "4096".to_string()),
            ("numberOfBuffersInSourceLocalBufferPool".to_string(), "32".to_string()),
        ]
    );
}

#[test]
fn absent_settings_yield_no_items() {
    let internal = WorkerQueryProcessingConfigurationBuilder::new().build().into_internal();
    assert!(internal.config.is_empty());
}

#[test]
fn csv_source_renders_endpoint_and_framing() {
    let source = TCPSourceConfigBuilder::new()
        .logical_source_name("bid".to_string())
        .socket_port(8080)
        .build()
        .unwrap()
        .into_source();
    assert_eq!(source.source_type, "TCP_SOURCE");
    assert_eq!(source.logical_source_name, "bid");
    assert_eq!(source.physical_source_name, "bid_phy");
    assert_eq!(
        items(&source.config),
        vec![
            ("socketHost".to_string(), "10.0.0.1".to_string()),
            ("socketPort".to_string(), "8080".to_string()),
            ("socketDomain".to_string(), "AF_INET".to_string()),
            ("socketType".to_string(), "SOCK_STREAM".to_string()),
            ("flushIntervalMS".to_string(), "100".to_string()),
            ("inputFormat".to_string(), "CSV".to_string()),
            ("decideMessageSize".to_string(), "TUPLE_SEPARATOR".to_string()),
        ]
    );
}

#[test]
fn native_format_source_names_its_size_bytes() {
    let source = TCPSourceConfigBuilder::new()
        .logical_source_name("bid".to_string())
        .physical_source_name("bid_phy_3".to_string())
        .socket_host("10.0.0.7".to_string())
        .socket_port(8074)
        .flush_interval_ms(1)
        .format(Format::NES(8))
        .build()
        .unwrap()
        .into_source();
    assert_eq!(source.physical_source_name, "bid_phy_3");
    assert_eq!(
        items(&source.config),
        vec![
            ("socketHost".to_string(), "10.0.0.7".to_string()),
            ("socketPort".to_string(), "8074".to_string()),
            ("socketDomain".to_string(), "AF_INET".to_string()),
            ("socketType".to_string(), "SOCK_STREAM".to_string()),
            ("flushIntervalMS".to_string(), "1".to_string()),
            ("inputFormat".to_string(), "NES".to_string()),
            ("decideMessageSize".to_string(), "BUFFER_SIZE_FROM_SOCKET".to_string()),
            ("bytesUsedForSocketBufferSizeTransfer".to_string(), "8".to_string()),
        ]
    );
}

#[test]
fn builder_without_required_fields_yields_nothing() {
    assert!(TCPSourceConfigBuilder::new().socket_port(1).build().is_none());
    assert!(TCPSourceConfigBuilder::new()
        .logical_source_name("bid".to_string())
        .build()
        .is_none());
    assert_eq!(default_host_ip(), "10.0.0.1");
}

#[test]
fn flatcar_configuration_wires_the_rendered_texts() {
    let config = flatcar::create_configuration(
        "unit".to_string(),
        "network".to_string(),
        "worker".to_string(),
        "daemon".to_string(),
    );
    assert_eq!(config.variant, "flatcar");
    assert_eq!(config.version, "1.0.0");
    assert_eq!(config.systemd.units.len(), 1);
    assert_eq!(config.systemd.units[0].name, "nesWorker.service");
    assert!(config.systemd.units[0].enabled);
    assert_eq!(config.systemd.units[0].contents, "unit");
    let files = &config.storage.files;
    assert_eq!(files.len(), 3);
    assert_eq!(files[0].path, "/etc/systemd/network/00-eth0.network");
    assert_eq!(files[0].contents.inline, "network");
    assert_eq!(files[1].path, "/config/worker_config.yaml");
    assert_eq!(files[1].contents.inline, "worker");
    assert_eq!(files[2].path, "/etc/docker/daemon.json");
    assert_eq!(files[2].contents.inline, "daemon");
}

#[test]
fn flatcar_launch_configuration_injects_the_ignition_blob() {
    let args = flatcar::Args { flatcar_fresh_image: "./flatcar_fresh.iso".to_string(), number_of_cores: Some(4) };
    let lc = flatcar::assemble_launch_configuration(tap(), "/work/w1".to_string(), &args);
    assert_eq!(lc.image_path, "/work/w1/flatcar_fresh.iso");
    assert_eq!(lc.temp_dir, "/work/w1");
    assert_eq!(lc.firmware.len(), 1);
    assert_eq!(lc.firmware[0].name, "opt/org.flatcar-linux/config");
    assert_eq!(lc.firmware[0].path, "/work/w1/ignition.json");
    assert_eq!(lc.num_cores, Some(4));
    assert_eq!(lc.memory_in_mega_bytes, None);
}

#[test]
fn unikernel_image_name_derives_from_query_and_node() {
    let wc = UnikernelWorkerConfig {
        query_id: 3,
        node_id: 7,
        elf_binary: "/bin/q".to_string(),
        args: None,
        ip: None,
    };
    assert_eq!(wc.image_name(), "unikernel_3_7");
}

#[test]
fn ops_build_arguments_carry_each_word() {
    let extra = vec!["--a".to_string(), "1".to_string()];
    let args = build_ops_args("/bin/q", "/cfg.json", "10.0.0.4", "unikernel_3_7", &extra);
    assert_eq!(
        args,
        vec![
            "build".to_string(),
            "/bin/q".to_string(),
            "-c".to_string(),
            "/cfg.json".to_string(),
            "--ip-address".to_string(),
            "10.0.0.4".to_string(),
            "-i".to_string(),
            "unikernel_3_7".to_string(),
            "--args".to_string(),
            "--a".to_string(),
            "--args".to_string(),
            "1".to_string(),
        ]
    );
}

#[test]
fn argument_lines_split_at_spaces_keeping_empty_words() {
    assert_eq!(
        vm_launcher::nanos::split_args("--a 1  b"),
        vec!["--a".to_string(), "1".to_string(), "".to_string(), "b".to_string()]
    );
    assert_eq!(vm_launcher::nanos::split_args(""), vec!["".to_string()]);
    assert_eq!(vm_launcher::nanos::split_args("grün blau"), vec!["grün".to_string(), "blau".to_string()]);
}

#[test]
fn unikernel_launch_configuration_is_small_and_fixed() {
    assert_eq!(
        dest_image_path("/work/u1", "unikernel_3_7"),
        "/work/u1/.ops/images/unikernel_3_7"
    );
    let lc = vm_launcher::nanos::assemble_launch_configuration(
        tap(),
        "/work/u1".to_string(),
        "/work/u1/.ops/images/unikernel_3_7".to_string(),
    );
    assert_eq!(lc.num_cores, Some(1));
    assert_eq!(lc.memory_in_mega_bytes, Some(512));
    assert!(lc.firmware.is_empty());
    match usage_not_a_file("/bin/q") {
        NanosError::UsageError(s) => assert_eq!(s, "/bin/q is not a file"),
        _ => panic!("expected the usage error"),
    }
}
