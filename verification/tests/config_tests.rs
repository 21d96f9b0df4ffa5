use capsa::config::{
    macos_cmdline_defaults, macos_virtualization_capabilities, DiskImage, ImageFormat,
    LinuxDirectBootConfig, MountMode, ResourceConfig, ShareMechanism, SharedDir, UefiBootConfig,
    VirtioFsConfig, VsockConfig, VsockPortConfig, DEFAULT_ROOT_DEVICE,
};

#[test]
fn new_creates_config_without_root_disk() {
    let config = LinuxDirectBootConfig::new("/path/to/kernel", "/path/to/initrd");
    assert_eq!(config.kernel, "/path/to/kernel");
    assert_eq!(config.initrd, "/path/to/initrd");
    assert!(config.root_disk.is_none());
}

#[test]
fn with_root_disk_adds_root_disk() {
    let config = LinuxDirectBootConfig::new("/path/to/kernel", "/path/to/initrd")
        .with_root_disk(DiskImage::new("/path/to/disk.raw"));
    assert!(config.root_disk.is_some());
    assert_eq!(config.root_disk.as_ref().unwrap().path, "/path/to/disk.raw");
}

#[test]
fn uefi_new_creates_config_with_disk() {
    let config = UefiBootConfig::new("/path/to/disk.raw");
    assert_eq!(config.disk.path, "/path/to/disk.raw");
    assert!(config.efi_variable_store.is_none());
}

#[test]
fn uefi_with_efi_variable_store_sets_path_and_create() {
    let config = UefiBootConfig::new("/path/to/disk.raw")
        .with_efi_variable_store("/path/to/store.efivarstore");
    let store = config.efi_variable_store.unwrap();
    assert_eq!(store.path, "/path/to/store.efivarstore");
    assert!(store.create_if_missing);
}

#[test]
fn uefi_with_existing_efi_variable_store_sets_no_create() {
    let config = UefiBootConfig::new("/path/to/disk.raw")
        .with_existing_efi_variable_store("/path/to/store.efivarstore");
    let store = config.efi_variable_store.unwrap();
    assert_eq!(store.path, "/path/to/store.efivarstore");
    assert!(!store.create_if_missing);
}

#[test]
fn supports_linux_guest() {
    let caps = macos_virtualization_capabilities();
    assert!(caps.guest_os.linux);
}

#[test]
fn supports_linux_direct_boot() {
    let caps = macos_virtualization_capabilities();
    assert!(caps.boot_methods.linux_direct);
}

#[test]
fn supports_uefi_boot() {
    let caps = macos_virtualization_capabilities();
    assert!(caps.boot_methods.uefi);
}

#[test]
fn supports_raw_images_not_qcow2() {
    let caps = macos_virtualization_capabilities();
    assert!(caps.image_formats.raw);
    assert!(!caps.image_formats.qcow2);
}

#[test]
fn supports_none_and_nat_networking() {
    let caps = macos_virtualization_capabilities();
    assert!(caps.network_modes.none);
    assert!(caps.network_modes.nat);
}

#[test]
fn supports_virtio_fs_not_9p() {
    let caps = macos_virtualization_capabilities();
    assert!(caps.share_mechanisms.virtio_fs);
    assert!(!caps.share_mechanisms.virtio_9p);
}

#[test]
fn no_resource_limits() {
    let caps = macos_virtualization_capabilities();
    assert!(caps.max_cpus.is_none());
    assert!(caps.max_memory_mb.is_none());
}

#[test]
fn supports_vsock() {
    let caps = macos_virtualization_capabilities();
    assert!(caps.devices.vsock);
}

#[test]
fn sets_console_to_hvc0() {
    let cmdline = macos_cmdline_defaults();
    assert_eq!(cmdline.get("console"), Some("hvc0"));
}

#[test]
fn sets_reboot_to_t() {
    let cmdline = macos_cmdline_defaults();
    assert_eq!(cmdline.get("reboot"), Some("t"));
}

#[test]
fn sets_panic_to_minus_one() {
    let cmdline = macos_cmdline_defaults();
    assert_eq!(cmdline.get("panic"), Some("-1"));
}

#[test]
fn default_is_vda() {
    assert_eq!(DEFAULT_ROOT_DEVICE, "/dev/vda");
}

#[test]
fn macos_defaults_build_in_order() {
    let cmdline = macos_cmdline_defaults();
    assert_eq!(cmdline.build(), "console=hvc0 reboot=t panic=-1");
}

#[test]
fn from_extension_raw() {
    assert_eq!(ImageFormat::from_extension("disk.raw"), Some(ImageFormat::Raw));
}

#[test]
fn from_extension_img() {
    assert_eq!(ImageFormat::from_extension("disk.img"), Some(ImageFormat::Raw));
}

#[test]
fn from_extension_qcow2() {
    assert_eq!(ImageFormat::from_extension("disk.qcow2"), Some(ImageFormat::Qcow2));
}

#[test]
fn from_extension_unknown() {
    assert_eq!(ImageFormat::from_extension("disk.vmdk"), None);
}

#[test]
fn from_extension_no_extension() {
    assert_eq!(ImageFormat::from_extension("disk"), None);
}

#[test]
fn from_extension_case_insensitive() {
    assert_eq!(ImageFormat::from_extension("disk.RAW"), Some(ImageFormat::Raw));
    assert_eq!(ImageFormat::from_extension("disk.QCOW2"), Some(ImageFormat::Qcow2));
}

#[test]
fn from_extension_uses_last_extension_only() {
    assert_eq!(ImageFormat::from_extension("disk.qcow2.raw"), Some(ImageFormat::Raw));
    assert_eq!(ImageFormat::from_extension(".raw"), None);
}

#[test]
fn default_is_raw() {
    assert_eq!(ImageFormat::default(), ImageFormat::Raw);
}

#[test]
fn new_infers_raw_format() {
    let disk = DiskImage::new("/path/to/disk.raw");
    assert_eq!(disk.path, "/path/to/disk.raw");
    assert_eq!(disk.format, ImageFormat::Raw);
    assert!(!disk.read_only);
}

#[test]
fn new_infers_qcow2_format() {
    let disk = DiskImage::new("/path/to/disk.qcow2");
    assert_eq!(disk.format, ImageFormat::Qcow2);
    assert!(!disk.read_only);
}

#[test]
fn new_defaults_to_raw_for_unknown() {
    let disk = DiskImage::new("/path/to/disk.unknown");
    assert_eq!(disk.format, ImageFormat::Raw);
}

#[test]
fn with_format_overrides_inference() {
    let disk = DiskImage::with_format("/path/to/disk.raw", ImageFormat::Qcow2);
    assert_eq!(disk.path, "/path/to/disk.raw");
    assert_eq!(disk.format, ImageFormat::Qcow2);
    assert!(!disk.read_only);
}

#[test]
fn read_only_sets_flag() {
    let disk = DiskImage::new("/path/to/disk.raw").read_only();
    assert!(disk.read_only);
}

#[test]
fn read_only_chains_with_format() {
    let disk = DiskImage::with_format("/path/to/disk.raw", ImageFormat::Qcow2).read_only();
    assert_eq!(disk.format, ImageFormat::Qcow2);
    assert!(disk.read_only);
}

#[test]
fn default_values() {
    let config = ResourceConfig::default();
    assert_eq!(config.cpus, 1);
    assert_eq!(config.memory_mb, 512);
}

#[test]
fn default_is_read_only() {
    assert_eq!(MountMode::default(), MountMode::ReadOnly);
}

#[test]
fn default_is_auto() {
    assert!(matches!(ShareMechanism::default(), ShareMechanism::Auto));
}

#[test]
fn new_creates_with_auto_mechanism() {
    let share = SharedDir::new("/host/path", "/guest/path", MountMode::ReadWrite);
    assert_eq!(share.host_path, "/host/path");
    assert_eq!(share.guest_path, "/guest/path");
    assert_eq!(share.mode, MountMode::ReadWrite);
    assert!(matches!(share.mechanism, ShareMechanism::Auto));
}

#[test]
fn with_mechanism_sets_mechanism() {
    let share = SharedDir::with_mechanism(
        "/host/path",
        "/guest/path",
        MountMode::ReadOnly,
        ShareMechanism::VirtioFs(VirtioFsConfig::default()),
    );
    assert!(matches!(share.mechanism, ShareMechanism::VirtioFs(_)));
}

#[test]
fn vsock_port_config_listen() {
    let config = VsockPortConfig::listen(1024, "/tmp/test.sock");
    assert_eq!(config.port(), 1024);
    assert!(!config.is_connect());
    assert!(!config.auto_cleanup());
}

#[test]
fn vsock_port_config_connect() {
    let config = VsockPortConfig::connect(1024, "/tmp/test.sock");
    assert_eq!(config.port(), 1024);
    assert!(config.is_connect());
    assert!(!config.auto_cleanup());
}

#[test]
fn vsock_port_config_with_auto_cleanup() {
    let config = VsockPortConfig::listen(1024, "/tmp/test.sock").with_auto_cleanup();
    assert!(config.auto_cleanup());
}

#[test]
fn vsock_config_is_enabled() {
    let mut config = VsockConfig::new();
    assert!(!config.is_enabled());

    config.add_port(VsockPortConfig::listen(1024, "/tmp/test.sock"));
    assert!(config.is_enabled());
}

#[test]
fn vsock_config_auto_cleanup_paths() {
    let mut config = VsockConfig::new();
    config.add_port(VsockPortConfig::listen(1024, "/tmp/user.sock"));
    config.add_port(VsockPortConfig::listen(1025, "/tmp/auto.sock").with_auto_cleanup());
    config.add_port(VsockPortConfig::listen(1026, "/tmp/auto2.sock").with_auto_cleanup());

    let cleanup_paths: Vec<_> = config.auto_cleanup_paths();
    assert_eq!(cleanup_paths.len(), 2);
    assert!(cleanup_paths.iter().any(|p| p.ends_with("auto.sock")));
    assert!(cleanup_paths.iter().any(|p| p.ends_with("auto2.sock")));
}

#[test]
fn listen_auto_has_no_path_and_cleans_up() {
    let config = VsockPortConfig::listen_auto(2048);
    assert_eq!(config.port(), 2048);
    assert_eq!(config.socket_path(), "");
    assert!(!config.is_connect());
    assert!(config.auto_cleanup());
}

#[test]
fn port_number_converts_like_listen_auto() {
    let a = VsockPortConfig::listen_auto(1024);
    let b = VsockPortConfig::from(1024u32);
    assert_eq!(a.port(), b.port());
    assert_eq!(b.port(), 1024);
    assert_eq!(a.socket_path(), b.socket_path());
    assert_eq!(b.socket_path(), "");
    assert!(!a.is_connect() && !b.is_connect());
    assert!(a.auto_cleanup() && b.auto_cleanup());
}
