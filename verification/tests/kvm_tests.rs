use capsa::config::HostPlatform;
use capsa::config::{BootMethod, ResourceConfig, VmConfig};
use capsa::error::Error;
use capsa::kvm::{
    format_mmio_device, kernel_entry_64, linux_boot_plan, vcpu_action, KvmBackend, VcpuAction, VcpuEvent,
    EAGAIN, EINTR,
};
use capsa::network::NetworkMode;

#[test]
fn kvm_backend_describes_itself() {
    let backend = KvmBackend::new();
    assert_eq!(backend.name(), "kvm");
    assert_eq!(backend.platform(), HostPlatform::Linux);
    assert_eq!(backend.default_root_device(), "/dev/vda");
    let caps = backend.capabilities();
    assert!(caps.guest_os.linux);
    assert!(caps.boot_methods.linux_direct);
    assert!(!caps.boot_methods.uefi);
    assert!(caps.network_modes.user_nat);
    assert!(!caps.network_modes.nat);
    assert!(!caps.devices.vsock);
}

#[test]
fn kvm_default_cmdline() {
    let backend = KvmBackend::default();
    let cmdline = backend.kernel_cmdline_defaults();
    assert_eq!(
        cmdline.build(),
        "console=hvc0 reboot=t panic=-1 quiet virtio_mmio.device=0x200@0xd0000000:5 virtio_mmio.device=0x200@0xd0000200:6"
    );
}

#[test]
fn mmio_device_argument_format() {
    assert_eq!(format_mmio_device(0x200, 0xd000_0000, 5), "0x200@0xd0000000:5");
    assert_eq!(format_mmio_device(0, 0, 0), "0x0@0x0:0");
}

#[test]
fn vcpu_halt_and_shutdown_exit_cleanly() {
    assert_eq!(vcpu_action(VcpuEvent::Halt), VcpuAction::Exit(0));
    assert_eq!(vcpu_action(VcpuEvent::Shutdown), VcpuAction::Exit(0));
    assert_eq!(vcpu_action(VcpuEvent::Stopped), VcpuAction::Exit(-1));
}

#[test]
fn vcpu_unanswered_reads_and_errors() {
    assert_eq!(vcpu_action(VcpuEvent::PortRead { handled: false }), VcpuAction::FillAndResume(0xff));
    assert_eq!(vcpu_action(VcpuEvent::PortRead { handled: true }), VcpuAction::Resume);
    assert_eq!(vcpu_action(VcpuEvent::MmioRead), VcpuAction::FillAndResume(0));
    assert_eq!(vcpu_action(VcpuEvent::MmioWrite), VcpuAction::Resume);
    assert_eq!(vcpu_action(VcpuEvent::RunError(EAGAIN)), VcpuAction::Resume);
    assert_eq!(vcpu_action(VcpuEvent::RunError(EINTR)), VcpuAction::Resume);
    assert_eq!(vcpu_action(VcpuEvent::RunError(14)), VcpuAction::Exit(1));
}

fn vm_config(boot: BootMethod) -> VmConfig {
    VmConfig {
        boot,
        root_disk: None,
        disks: vec![],
        resources: ResourceConfig { cpus: 2, memory_mb: 512 },
        shares: vec![],
        network: NetworkMode::Disabled,
        console_enabled: true,
    }
}

#[test]
fn boot_plan_direct_and_uefi() {
    let boot = BootMethod::LinuxDirect {
        kernel: "/k".to_string(),
        initrd: "/i".to_string(),
        cmdline: "console=hvc0".to_string(),
    };
    let plan = linux_boot_plan(&vm_config(boot)).unwrap();
    assert_eq!(plan.kernel, "/k");
    assert_eq!(plan.initrd, "/i");
    assert_eq!(plan.cmdline, "console=hvc0");
    assert_eq!(plan.cpus, 2);
    assert_eq!(plan.memory_bytes, 512 * 1024 * 1024);
    assert!(plan.console_enabled);
    let uefi = BootMethod::Uefi { efi_variable_store: "/v".to_string(), create_variable_store: true };
    match linux_boot_plan(&vm_config(uefi)) {
        Err(Error::UnsupportedFeature(m)) => assert_eq!(m, "UEFI boot not yet supported on KVM backend"),
        other => panic!("unexpected {:?}", other),
    }
    assert_eq!(kernel_entry_64(0x100_0000), 0x100_0200);
}

#[test]
fn kvm_default_cmdline_announces_console_and_net_devices() {
    let c = KvmBackend::new().kernel_cmdline_defaults();
    assert_eq!(c.get("console"), Some("hvc0"));
    assert_eq!(c.get("reboot"), Some("t"));
    assert_eq!(c.get("panic"), Some("-1"));
    assert!(c.contains("quiet"));
    let built = c.build();
    assert!(built.contains("virtio_mmio.device=0x200@0xd0000000:5"));
    assert!(built.contains("virtio_mmio.device=0x200@0xd0000200:6"));
    assert!(!c.is_overridden());
}
