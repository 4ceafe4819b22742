//! Configuration of a VM.

use krun::api::builder::{
    check_vm_config, generate_mac, map_vm_config_error, vd_suffix, VmBuilder, VmConfigError,
};
use krun::api::builders::{
    CacheMode, DiskImageFormat, FsBuilder, FsConfig, HostCpuId, MachineBuilder, NetTarget, PortConfig,
    SyncMode,
};
use krun::api::command::validate_cmdline_env;
use krun::api::error::{BuildError, ConfigError, Error};
use krun::api::smoke::{
    format_mac, parse_bool_env, smoke_disk_config_from_lookup, smoke_fs_config_from_lookup,
    summarize_ethernet_frame, DEFAULT_DISK_ID, DEFAULT_FS_TAG,
};
use krun::block::device::{CacheType, ImageType};
use krun::host::HostOs;

#[test]
fn build_rejects_invalid_machine_config() {
    let err = match VmBuilder::new()
        .machine(|machine| machine.vcpus(3).hyperthreading(true))
        .build(HostOs::Linux)
    {
        Ok(_) => panic!("odd vCPU count with hyperthreading should fail"),
        Err(err) => err,
    };

    match err {
        Error::Config(ConfigError::InvalidVcpuCount(3)) => {}
        other => panic!("unexpected error: {other:?}"),
    }
}

#[test]
fn build_rejects_max_vcpus_below_effective_count() {
    let err = match VmBuilder::new()
        .machine(|machine| machine.vcpus(4).max_vcpus(2))
        .build(HostOs::Linux)
    {
        Ok(_) => panic!("max vCPUs below the effective count should fail"),
        Err(err) => err,
    };

    match err {
        Error::Config(ConfigError::InvalidMaxVcpuCount(2)) => {}
        other => panic!("unexpected error: {other:?}"),
    }
}

#[test]
fn build_rejects_max_memory_below_effective_size() {
    let err = match VmBuilder::new()
        .machine(|machine| machine.memory_mib(2048).max_memory_mib(1024))
        .build(HostOs::Linux)
    {
        Ok(_) => panic!("max memory below the effective size should fail"),
        Err(err) => err,
    };

    match err {
        Error::Config(ConfigError::InvalidMaxMemorySize(1024)) => {}
        other => panic!("unexpected error: {other:?}"),
    }
}

#[test]
fn validate_cmdline_env_rejects_uncarryable_values() {
    assert!(validate_cmdline_env("PATH", "/usr/local/bin:/usr/bin").is_ok());
    assert!(validate_cmdline_env("GREETING", "hello world").is_ok());

    assert!(validate_cmdline_env("GPG_KEYS", "B215C163\t B3C42148").is_err());

    assert!(validate_cmdline_env("MOTD", "héllo").is_err());
    assert!(validate_cmdline_env("Q", "say \"hi\"").is_err());
    assert!(validate_cmdline_env("BAD KEY", "v").is_err());
    assert!(validate_cmdline_env("NL", "a\nb").is_err());
}

#[test]
fn build_rejects_affinity_that_does_not_cover_max_vcpus() {
    let err = match VmBuilder::new()
        .machine(|machine| {
            machine
                .vcpus(2)
                .max_vcpus(4)
                .vcpu_affinity(vec![HostCpuId::new(0), HostCpuId::new(1)])
        })
        .build(HostOs::Linux)
    {
        Ok(_) => panic!("partial vCPU affinity map should fail"),
        Err(err) => err,
    };

    match err {
        Error::Config(ConfigError::InvalidVcpuAffinityLength { expected: 4, actual: 2 }) => {}
        other => panic!("unexpected error: {other:?}"),
    }
}

#[test]
fn build_rejects_vcpu_affinity_on_unsupported_hosts() {
    let err = match VmBuilder::new()
        .machine(|machine| machine.vcpu_affinity(vec![HostCpuId::new(0)]))
        .build(HostOs::Macos)
    {
        Ok(_) => panic!("vCPU affinity should fail on unsupported hosts"),
        Err(err) => err,
    };

    match err {
        Error::Config(ConfigError::VcpuAffinityUnsupported) => {}
        other => panic!("unexpected error: {other:?}"),
    }
}

#[test]
fn build_rejects_nonzero_processor_group_on_linux() {
    let err = match VmBuilder::new()
        .machine(|machine| machine.vcpu_affinity(vec![HostCpuId::in_group(1, 0)]))
        .build(HostOs::Linux)
    {
        Ok(_) => panic!("nonzero processor group should fail on Linux"),
        Err(err) => err,
    };

    match err {
        Error::Config(ConfigError::InvalidHostCpuGroup(1)) => {}
        other => panic!("unexpected error: {other:?}"),
    }
}

#[test]
fn vd_suffix_matches_kernel_scheme() {
    assert_eq!(vd_suffix(0), "a");
    assert_eq!(vd_suffix(25), "z");
    assert_eq!(vd_suffix(26), "aa");
    assert_eq!(vd_suffix(27), "ab");
    assert_eq!(vd_suffix(51), "az");
    assert_eq!(vd_suffix(52), "ba");
    assert_eq!(vd_suffix(701), "zz");
    assert_eq!(vd_suffix(702), "aaa");
}

#[test]
fn disk_builder_preserves_insertion_order() {
    let builder = VmBuilder::new()
        .disk(|d| d.path("/a.raw"))
        .disk(|d| d.path("/b.qcow2").format(DiskImageFormat::Qcow2))
        .disk(|d| d.path("/c.vmdk").format(DiskImageFormat::Vmdk).read_only(true));

    let paths: Vec<_> = builder.disk.configs.iter().map(|c| c.path.clone()).collect();
    assert_eq!(paths, vec!["/a.raw", "/b.qcow2", "/c.vmdk"]);
    assert_eq!(builder.disk.configs[1].format, DiskImageFormat::Qcow2);
    assert!(builder.disk.configs[2].read_only);
}

#[test]
fn disk_builder_auto_id_then_custom() {
    let builder = VmBuilder::new()
        .disk(|d| d.path("/a.raw"))
        .disk(|d| d.path("/b.raw").id("data"))
        .disk(|d| d.path("/c.raw"));

    assert!(builder.disk.configs[0].id.is_none());
    assert_eq!(builder.disk.configs[1].id.as_deref(), Some("data"));
    assert!(builder.disk.configs[2].id.is_none());
}

#[test]
fn disk_builder_per_disk_settings_dont_leak() {
    let builder = VmBuilder::new()
        .disk(|d| {
            d.path("/a.raw")
                .read_only(true)
                .cache(CacheMode::Unsafe)
                .direct_io(true)
                .sync(SyncMode::Off)
        })
        .disk(|d| d.path("/b.raw"));

    assert!(builder.disk.configs[0].read_only);
    assert_eq!(builder.disk.configs[0].cache, CacheMode::Unsafe);
    assert!(builder.disk.configs[0].direct_io);
    assert_eq!(builder.disk.configs[0].sync, SyncMode::Off);

    assert!(!builder.disk.configs[1].read_only);
    assert_eq!(builder.disk.configs[1].cache, CacheMode::Writeback);
    assert!(!builder.disk.configs[1].direct_io);
    assert_eq!(builder.disk.configs[1].sync, SyncMode::Full);
}

#[test]
fn settings_do_not_leak_within_one_description() {
    let builder = VmBuilder::new()
        .disk(|d| d.path("/a.raw").read_only(true).id("a").path("/b.raw"));
    assert_eq!(builder.disk.configs.len(), 2);
    assert!(builder.disk.configs[0].read_only);
    assert!(!builder.disk.configs[1].read_only);
    assert!(builder.disk.configs[1].id.is_none());
}

#[test]
fn built_vm_has_what_was_configured() {
    let parts = VmBuilder::new()
        .machine(|m| m.vcpus(2).memory_mib(1024).max_vcpus(4).max_memory_mib(2048))
        .kernel(|k| k.cmdline("quiet").cmdline("debug").init_path("/init"))
        .fs(|f| f.root("/root"))
        .fs(|f| f.path("/data").tag("logs").shm_size(4096).path("/logs").custom())
        .net(|n| n.tap("tap0").mac([1, 2, 3, 4, 5, 6]).unixgram_path("/net.sock", true))
        .disk(|d| d.path("/a.raw").path("/b.qcow2").format(DiskImageFormat::Qcow2).id("data"))
        .console(|c| c.output("/log").port("agent", 3, 4).port_tty("tty", 5))
        .execution(|e| {
            e.path("/bin/app")
                .args(&["--flag", "a b"])
                .env("HOME", "/root")
                .envs(&[("LANG", "C")])
                .rlimit("NOFILE", 1024, 4096)
                .rlimit("NPROC", 1, 2)
        })
        .build(HostOs::Linux)
        .unwrap();

    let resources = &parts.resources;
    assert_eq!(parts.kernel_cmdline.as_deref(), Some("quiet debug"));
    assert_eq!(parts.init_path.as_deref(), Some("/init"));
    assert_eq!(parts.exec_path.as_deref(), Some("/bin/app"));
    assert_eq!(parts.args.as_deref(), Some("\"--flag\" \"a b\""));
    assert_eq!(parts.env.as_deref(), Some(" HOME=\"/root\" LANG=\"C\""));
    assert_eq!(parts.rlimits.as_deref(), Some("NOFILE:1024:4096,NPROC:1:2"));
    let cpu = resources.cpu_device.unwrap();
    assert_eq!((cpu.possible, cpu.online), (4, 2));
    assert!(resources.mem_device);
    assert_eq!(resources.fs.len(), 3);
    assert_eq!(resources.fs[0].fs_id, "/dev/root");
    assert_eq!(resources.fs[1].fs_id, "fs0");
    assert_eq!(resources.fs[2].fs_id, "logs");
    assert_eq!(resources.fs[2].shm_size, Some(4096));
    assert_eq!(resources.custom_fs[0].fs_id, "fs2");
    assert_eq!(resources.net[0].iface_id, "eth0");
    assert_eq!(resources.net[0].mac, [0x52, 0x54, 0x00, 0x12, 0x34, 0x56]);
    assert_eq!(resources.net[1].mac, [1, 2, 3, 4, 5, 6]);
    assert!(matches!(resources.net[1].backend, NetTarget::UnixgramPath { .. }));
    assert_eq!(resources.block[0].block_id, "vda");
    assert_eq!(resources.block[1].block_id, "data");
    assert_eq!(resources.block[1].disk_image_format, ImageType::Qcow2);
    assert_eq!(resources.block[0].cache_type, CacheType::Writeback);
    let ports = resources.console_ports.as_ref().unwrap();
    assert!(matches!(ports[1], PortConfig::Tty { tty_fd: 5, .. }));
    assert!(!resources.disable_implicit_console);
}

#[test]
fn empty_settings_give_no_text() {
    let parts = VmBuilder::default().build(HostOs::Other).unwrap();
    assert_eq!(parts.args, None);
    assert_eq!(parts.env, None);
    assert_eq!(parts.rlimits, None);
    assert!(parts.resources.console_ports.is_none());
    assert!(parts.resources.cpu_device.is_none());
    assert!(parts.resources.enable_balloon);
    assert_eq!(parts.resources.balloon_stats_interval, Some(1_000_000_000));
}

#[test]
fn uncarryable_variable_is_named() {
    let result = VmBuilder::new().execution(|e| e.env("TAB\"", "a\tb")).build(HostOs::Linux);
    match result {
        Err(Error::Build(BuildError::Start(text))) => assert_eq!(
            text,
            "guest env var \"TAB\\\"\" cannot be carried on the kernel command line \
             (it contains control or non-ASCII bytes); sanitize or drop this variable"
        ),
        _ => panic!("expected the variable to be refused"),
    }
}

#[test]
fn device_errors_come_before_the_variables() {
    let plan = VmBuilder::new()
        .execution(|e| e.env("BAD KEY", "v"))
        .plan(HostOs::Linux)
        .unwrap();
    match plan.finish(Err(ConfigError::Network("taken".to_string()))) {
        Err(Error::Config(ConfigError::Network(text))) => assert_eq!(text, "taken"),
        _ => panic!("expected the device's error"),
    }
}

#[test]
fn machines_are_checked() {
    let machine = MachineBuilder::new();
    assert_eq!(check_vm_config(&machine), Ok(()));
    let zero = MachineBuilder::new().vcpus(0);
    assert_eq!(check_vm_config(&zero), Err(VmConfigError::InvalidVcpuCount));
    assert!(matches!(
        VmBuilder::new().machine(|m| m.vcpus(0)).build(HostOs::Linux),
        Err(Error::Config(ConfigError::InvalidVcpuCount(0)))
    ));
    assert!(matches!(
        VmBuilder::new().machine(|m| m.memory_mib(0)).build(HostOs::Linux),
        Err(Error::Config(ConfigError::InvalidMemorySize(0)))
    ));
    assert!(matches!(
        map_vm_config_error(&machine, VmConfigError::MaxCapacityUnsupported),
        Error::Config(ConfigError::MaxCapacityUnsupported)
    ));
    assert!(VmBuilder::new()
        .machine(|m| m.hyperthreading(true).vcpus(1))
        .build(HostOs::Linux)
        .is_ok());
}

#[test]
fn addresses_count_up() {
    assert_eq!(generate_mac(0), [0x52, 0x54, 0x00, 0x12, 0x34, 0x56]);
    assert_eq!(generate_mac(256), generate_mac(0));
    assert_eq!(generate_mac(0xaa)[5], 0x00);
}

#[test]
fn tags_count_mounts() {
    let builder = VmBuilder::new().fs(|f| f.path("/a").path("/b"));
    match &builder.fs.configs[1] {
        FsConfig::Path { tag, path, .. } => assert_eq!((tag.as_str(), path.as_str()), ("fs1", "/b")),
        _ => panic!("expected a path"),
    }
}

fn text(s: &str) -> Option<String> {
    Some(s.to_string())
}

#[test]
fn disk_env_is_optional() {
    assert!(smoke_disk_config_from_lookup(None, None, None, None).unwrap().is_none());
}

#[test]
fn disk_env_parses_qcow2() {
    let config =
        smoke_disk_config_from_lookup(text("disk.qcow2"), text("qcow2"), None, text("data"))
            .unwrap()
            .unwrap();

    assert_eq!(config.path, "disk.qcow2");
    assert_eq!(config.id, "data");
    assert_eq!(config.format, DiskImageFormat::Qcow2);
    assert_eq!(config.format_name(), "qcow2");
    assert!(!config.read_only);
}

#[test]
fn disk_env_defaults_vmdk_to_read_only() {
    let config = smoke_disk_config_from_lookup(text("disk.vmdk"), text(" VMDK "), None, None)
        .unwrap()
        .unwrap();

    assert_eq!(config.format, DiskImageFormat::Vmdk);
    assert!(config.read_only);
    assert_eq!(config.id, DEFAULT_DISK_ID);
}

#[test]
fn disk_env_rejects_writable_vmdk() {
    match smoke_disk_config_from_lookup(text("disk.vmdk"), text("vmdk"), text("0"), None) {
        Err(Error::Config(ConfigError::Block(text))) => {
            assert!(text.contains("KRUN_DISK_READ_ONLY=0 cannot be used"))
        }
        _ => panic!("expected the disk to be refused"),
    }
}

#[test]
fn disk_env_requires_format_with_path() {
    match smoke_disk_config_from_lookup(text("disk.raw"), None, None, None) {
        Err(Error::Config(ConfigError::Block(text))) => {
            assert!(text.contains("KRUN_DISK_FORMAT must be set"))
        }
        _ => panic!("expected the disk to be refused"),
    }
}

#[test]
fn fs_env_defaults_tag() {
    assert!(smoke_fs_config_from_lookup(None, None, None).unwrap().is_none());
    let config = smoke_fs_config_from_lookup(text("share"), None, None).unwrap().unwrap();

    assert_eq!(config.path, "share");
    assert_eq!(config.tag, DEFAULT_FS_TAG);
    assert_eq!(config.shm_size, None);
}

#[test]
fn fs_env_parses_shm_size() {
    let config = smoke_fs_config_from_lookup(text("share"), text("data"), text("536870912"))
        .unwrap()
        .unwrap();
    assert_eq!(config.tag, "data");
    assert_eq!(config.shm_size, Some(536_870_912));
    for bad in ["0", "-1", "x", "", "99999999999999999999999"] {
        match smoke_fs_config_from_lookup(text("share"), None, text(bad)) {
            Err(Error::Config(ConfigError::Filesystem(text))) => {
                assert_eq!(text, "KRUN_FS_SHM_SIZE must be a positive integer")
            }
            _ => panic!("expected {bad:?} to be refused"),
        }
    }
    assert!(smoke_fs_config_from_lookup(text("share"), text("  "), None).is_err());
}

#[test]
fn switches_have_many_names() {
    assert_eq!(parse_bool_env("X", "Yes").unwrap(), true);
    assert_eq!(parse_bool_env("X", " off ").unwrap(), false);
    match parse_bool_env("X", "maybe") {
        Err(Error::Config(ConfigError::Block(text))) => {
            assert_eq!(text, "X must be 1/0, true/false, yes/no, or on/off")
        }
        _ => panic!("expected the value to be refused"),
    }
}

#[test]
fn frames_are_summarized() {
    let frame = [1, 2, 3, 4, 5, 6, 0xa, 0xb, 0xc, 0xd, 0xe, 0xf, 0x08, 0x06, 0xff];
    let summary = summarize_ethernet_frame(&frame);
    assert_eq!(summary.len, 15);
    assert_eq!(summary.ethertype, 0x0806);
    assert_eq!(format_mac(summary.dst_mac), "01:02:03:04:05:06");
    assert_eq!(format_mac(summary.src_mac), "0a:0b:0c:0d:0e:0f");
    assert_eq!(summarize_ethernet_frame(&frame[..13]).dst_mac, [0u8; 6]);
}

#[test]
fn root_takes_the_shared_memory_size() {
    let builder = FsBuilder::new().shm_size(1 << 30).root("/r").tag("data").path("/d");
    assert_eq!(builder.configs.len(), 2);
    match &builder.configs[0] {
        FsConfig::Path { tag, path, shm_size } => {
            assert_eq!((tag.as_str(), path.as_str()), ("/dev/root", "/r"));
            assert_eq!(*shm_size, Some(1 << 30));
        }
        _ => panic!("expected a path"),
    }
    match &builder.configs[1] {
        FsConfig::Path { tag, path, shm_size } => {
            assert_eq!((tag.as_str(), path.as_str(), *shm_size), ("data", "/d", None));
        }
        _ => panic!("expected a path"),
    }
}
