use capsa::cli::{
    finish_share, parse_cpus, parse_existing_file, parse_memory, platform_name, render_json,
    render_text, split_share, yes_no, BackendInfo,
};
use capsa::config::{macos_virtualization_capabilities, HostPlatform, MountMode};
use capsa::kvm::KvmBackend;

#[test]
fn yes_no_words() {
    assert_eq!(yes_no(true), "yes");
    assert_eq!(yes_no(false), "no");
    assert_eq!(platform_name(HostPlatform::MacOs), "macos");
    assert_eq!(platform_name(HostPlatform::Linux), "linux");
}

#[test]
fn cpu_counts() {
    assert_eq!(parse_cpus("4"), Ok(4));
    assert_eq!(parse_cpus("256"), Ok(256));
    assert_eq!(parse_cpus("+8"), Ok(8));
    assert_eq!(parse_cpus("0"), Err("cpus must be at least 1".to_string()));
    assert_eq!(parse_cpus("257"), Err("cpus cannot exceed 256".to_string()));
    assert_eq!(parse_cpus("four"), Err("'four' is not a valid number".to_string()));
    assert_eq!(parse_cpus("-1"), Err("'-1' is not a valid number".to_string()));
}

#[test]
fn memory_sizes() {
    assert_eq!(parse_memory("512"), Ok(512));
    assert_eq!(parse_memory("1048576"), Ok(1048576));
    assert_eq!(parse_memory("0"), Err("memory must be at least 1 MB".to_string()));
    assert_eq!(parse_memory("1048577"), Err("memory cannot exceed 1048576 MB".to_string()));
    assert_eq!(parse_memory("99999999999"), Err("'99999999999' is not a valid number".to_string()));
}

#[test]
fn existing_files() {
    assert_eq!(parse_existing_file("/k", true, true), Ok("/k".to_string()));
    assert_eq!(parse_existing_file("/k", false, false), Err("file not found: /k".to_string()));
    assert_eq!(parse_existing_file("/d", true, false), Err("not a file: /d".to_string()));
}

#[test]
fn share_specifications() {
    let parts = split_share("/host:/mnt").unwrap();
    assert_eq!(parts.host, "/host");
    assert_eq!(parts.guest, "/mnt");
    assert!(parts.mode.is_none());
    let share = finish_share(parts, true).unwrap();
    assert_eq!(share.mode, MountMode::ReadOnly);

    let rw = finish_share(split_share("/h:/g:rw").unwrap(), true).unwrap();
    assert_eq!(rw.mode, MountMode::ReadWrite);
    assert_eq!(
        finish_share(split_share("/h:/g:xx").unwrap(), true).err(),
        Some("invalid mount mode 'xx', expected 'ro' or 'rw'".to_string())
    );
    assert_eq!(
        finish_share(split_share("/h:/g").unwrap(), false).err(),
        Some("share host path not found: /h".to_string())
    );
    assert_eq!(
        split_share("/h").err(),
        Some("share format must be 'host:guest' or 'host:guest:mode'".to_string())
    );
    assert_eq!(split_share("/a:/b:ro:x").err(), Some("too many colons in share format".to_string()));
    assert_eq!(split_share(":/b").err(), Some("host path cannot be empty".to_string()));
    assert_eq!(split_share("/a:").err(), Some("guest path cannot be empty".to_string()));
}

fn kvm_info(available: bool) -> BackendInfo {
    let backend = KvmBackend::new();
    BackendInfo {
        name: backend.name().to_string(),
        platform: backend.platform(),
        available,
        capabilities: backend.capabilities().clone(),
    }
}

#[test]
fn text_report() {
    assert_eq!(render_text(&[]), "No backends available.\n");
    let text = render_text(&[kvm_info(true)]);
    assert_eq!(
        text,
        "Available backends:\n\n  kvm (linux)\n    Status: Available\n    Guest OS: Linux=yes\n    Boot methods: direct=yes\n    Disk formats: raw=yes, qcow2=no\n    Network: none=yes, nat=no\n    Shares: virtio-fs=no, 9p=no\n\n"
    );
    let mut limited = kvm_info(false);
    limited.capabilities.max_cpus = Some(8);
    limited.capabilities.max_memory_mb = Some(4096);
    let text = render_text(&[limited]);
    assert!(text.contains("    Status: Not available\n"));
    assert!(text.contains("    Limits: cpus=8, memory=4096 MB\n"));
}

#[test]
fn json_report() {
    let mac = BackendInfo {
        name: "vz".to_string(),
        platform: HostPlatform::MacOs,
        available: false,
        capabilities: macos_virtualization_capabilities(),
    };
    let json = render_json(&[kvm_info(true), mac]);
    let expected_kvm = "    {\n      \"name\": \"kvm\",\n      \"platform\": \"linux\",\n      \"available\": true,\n      \"capabilities\": {\n        \"guest_os\": {\n          \"linux\": true\n        },\n        \"boot_methods\": {\n          \"linux_direct\": true\n        },\n        \"image_formats\": {\n          \"raw\": true,\n          \"qcow2\": false\n        },\n        \"network_modes\": {\n          \"none\": true,\n          \"nat\": false\n        },\n        \"share_mechanisms\": {\n          \"virtio_fs\": false,\n          \"virtio_9p\": false\n        },\n        \"max_cpus\": null,\n        \"max_memory_mb\": null\n      }\n    },\n";
    assert!(json.starts_with("{\n  \"backends\": [\n"));
    assert!(json.contains(expected_kvm));
    assert!(json.ends_with("      }\n    }\n  ]\n}\n"));
    assert_eq!(render_json(&[]), "{\n  \"backends\": [\n  ]\n}\n");
}
