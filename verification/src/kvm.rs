//! The KVM backend's description of itself: its capabilities, its device placement and the
//! kernel command line it boots guests with.
use vstd::prelude::*;
use crate::cmdline::{ArgView, KernelCmdline, lemma_with_fresh_arg};
use crate::config::{
    BackendCapabilities, BootMethodSupport, DeviceSupport, GuestOsSupport, HostPlatform,
    ImageFormatSupport, NetworkModeSupport, ShareMechanismSupport,
};
use crate::config::{BootMethod, VmConfig};
use crate::error::Error;
use crate::text::{concat2, concat3, hex, decimal, owned, u64_to_hex, u64_to_decimal};

verus! {

/// First I/O port of the 8250 serial port.
pub const SERIAL_PORT_BASE: u16 = 0x3f8;
/// Last I/O port of the serial port.
pub const SERIAL_PORT_END: u16 = 0x3ff;
/// IRQ of the serial port.
pub const SERIAL_IRQ: u32 = 4;
/// MMIO window of the console device.
pub const VIRTIO_MMIO_BASE: u64 = 0xd000_0000;
/// Size of each device's MMIO window.
pub const VIRTIO_MMIO_SIZE: u64 = 0x200;
/// IRQ of the console device.
pub const VIRTIO_CONSOLE_IRQ: u32 = 5;
/// MMIO window of the network device.
pub const VIRTIO_NET_MMIO_BASE: u64 = 0xd000_0200;
/// IRQ of the network device.
pub const VIRTIO_NET_IRQ: u32 = 6;

/// The kernel's description of an MMIO device: `0x<size>@0x<base>:<irq>`.
pub open spec fn mmio_device_arg(size: u64, base: u64, irq: u32) -> Seq<char> {
    "0x"@ + hex(size as nat) + "@0x"@ + hex(base as nat) + ":"@ + decimal(irq as nat)
}

/// Writes the kernel's description of an MMIO device.
pub fn format_mmio_device(size: u64, base: u64, irq: u32) -> (r: String)
    ensures
        r@ == mmio_device_arg(size, base, irq),
{
    let s = u64_to_hex(size);
    let b = u64_to_hex(base);
    let i = u64_to_decimal(irq as u64);
    let head = concat3("0x", s.as_str(), "@0x");
    let mid = concat3(head.as_str(), b.as_str(), ":");
    concat2(mid.as_str(), i.as_str())
}

/// The arguments of the default command line, in order: console on the virtio console,
/// reboot and panic behaviour, `quiet`, and one MMIO device entry for the console and one
/// for the network device (both under the key `virtio_mmio.device`).
pub open spec fn kvm_default_args() -> Seq<ArgView> {
    seq![
        ArgView::KeyValue("console"@, "hvc0"@),
        ArgView::KeyValue("reboot"@, "t"@),
        ArgView::KeyValue("panic"@, "-1"@),
        ArgView::Flag("quiet"@),
        ArgView::KeyValue("virtio_mmio.device"@, mmio_device_arg(VIRTIO_MMIO_SIZE, VIRTIO_MMIO_BASE, VIRTIO_CONSOLE_IRQ)),
        ArgView::KeyValue("virtio_mmio.device"@, mmio_device_arg(VIRTIO_MMIO_SIZE, VIRTIO_NET_MMIO_BASE, VIRTIO_NET_IRQ)),
    ]
}

/// `EAGAIN`: the run was interrupted before it started and is simply resumed.
pub const EAGAIN: i32 = 11;
/// `EINTR`: the run was interrupted by a signal and is simply resumed.
pub const EINTR: i32 = 4;

/// What came back from one step of a vCPU's run loop.
#[derive(Debug, Clone, Copy, PartialEq, Eq, Structural)]
pub enum VcpuEvent {
    /// The VM's running flag was found cleared before the run.
    Stopped,
    /// The guest halted.
    Halt,
    /// The guest shut down.
    Shutdown,
    /// The guest read an I/O port; `handled` says whether a device answered.
    PortRead { handled: bool },
    /// The guest wrote an I/O port (answered or not).
    PortWrite,
    /// The guest read an MMIO address no device claims.
    MmioRead,
    /// The guest wrote an MMIO address no device claims.
    MmioWrite,
    /// Any other exit.
    Other,
    /// The run failed with this `errno`.
    RunError(i32),
}

/// What the run loop does next.
#[derive(Debug, Clone, Copy, PartialEq, Eq, Structural)]
pub enum VcpuAction {
    /// Run the vCPU again.
    Resume,
    /// Fill the exit's data buffer with this byte, then run again.
    FillAndResume(u8),
    /// Leave the loop, reporting this exit code (0: the guest stopped, 1: a run error,
    /// -1: the VM was stopped from outside), and clear the running flag.
    Exit(i32),
}

/// The run loop's decision for one event.
pub open spec fn vcpu_action_spec(e: VcpuEvent) -> VcpuAction {
    match e {
        VcpuEvent::Stopped => VcpuAction::Exit(-1i32),
        VcpuEvent::Halt | VcpuEvent::Shutdown => VcpuAction::Exit(0),
        VcpuEvent::PortRead { handled } => if handled { VcpuAction::Resume } else { VcpuAction::FillAndResume(0xff) },
        VcpuEvent::MmioRead => VcpuAction::FillAndResume(0),
        VcpuEvent::PortWrite | VcpuEvent::MmioWrite | VcpuEvent::Other => VcpuAction::Resume,
        VcpuEvent::RunError(errno) => if errno == EAGAIN || errno == EINTR { VcpuAction::Resume } else { VcpuAction::Exit(1) },
    }
}

/// Decides what a vCPU does after `e`: halt and shutdown end the VM with code 0, a failed
/// run with code 1 (unless merely interrupted), a stop from outside with -1; an unanswered
/// port read reads as all ones (a floating bus), an unclaimed MMIO read as zeros.
pub fn vcpu_action(e: VcpuEvent) -> (r: VcpuAction)
    ensures
        r == vcpu_action_spec(e),
        e == VcpuEvent::Stopped <==> r == VcpuAction::Exit(-1i32),
        r == VcpuAction::Exit(0) <==> (e == VcpuEvent::Halt || e == VcpuEvent::Shutdown),
{
    match e {
        VcpuEvent::Stopped => VcpuAction::Exit(-1i32),
        VcpuEvent::Halt | VcpuEvent::Shutdown => VcpuAction::Exit(0),
        VcpuEvent::PortRead { handled } => {
            if handled {
                VcpuAction::Resume
            } else {
                VcpuAction::FillAndResume(0xff)
            }
        },
        VcpuEvent::MmioRead => VcpuAction::FillAndResume(0),
        VcpuEvent::PortWrite | VcpuEvent::MmioWrite | VcpuEvent::Other => VcpuAction::Resume,
        VcpuEvent::RunError(errno) => {
            if errno == EAGAIN || errno == EINTR {
                VcpuAction::Resume
            } else {
                VcpuAction::Exit(1)
            }
        },
    }
}

/// What a directly booted VM is started from: kernel, initrd and command line, the number
/// of vCPUs, the guest memory size in bytes, and whether it has a console.
#[derive(Debug)]
pub struct LinuxBootPlan {
    pub kernel: String,
    pub initrd: String,
    pub cmdline: String,
    pub cpus: u32,
    pub memory_bytes: u64,
    pub console_enabled: bool,
}

/// The boot plan of `config`: direct boot takes its kernel, initrd and command line as
/// given; UEFI boot is refused.
pub fn linux_boot_plan(config: &VmConfig) -> (r: Result<LinuxBootPlan, Error>)
    ensures
        match config.boot {
            BootMethod::LinuxDirect { kernel, initrd, cmdline } => r matches Ok(p) && {
                &&& p.kernel@ == kernel@
                &&& p.initrd@ == initrd@
                &&& p.cmdline@ == cmdline@
                &&& p.cpus == config.resources.cpus
                &&& p.memory_bytes == config.resources.memory_mb as int * 1024 * 1024
                &&& p.console_enabled == config.console_enabled
            },
            BootMethod::Uefi { .. } => r matches Err(Error::UnsupportedFeature(m))
                && m@ == "UEFI boot not yet supported on KVM backend"@,
        },
{
    match &config.boot {
        BootMethod::LinuxDirect { kernel, initrd, cmdline } => {
            let memory_bytes = (config.resources.memory_mb as u64) * 1024 * 1024;
            Ok(LinuxBootPlan {
                kernel: owned(kernel.as_str()),
                initrd: owned(initrd.as_str()),
                cmdline: owned(cmdline.as_str()),
                cpus: config.resources.cpus,
                memory_bytes,
                console_enabled: config.console_enabled,
            })
        },
        BootMethod::Uefi { .. } => Err(Error::UnsupportedFeature(owned("UEFI boot not yet supported on KVM backend"))),
    }
}

/// The 64-bit entry point of a kernel loaded at `kernel_load`: 0x200 bytes in.
pub fn kernel_entry_64(kernel_load: u64) -> (r: u64)
    requires
        kernel_load + 0x200 <= u64::MAX,
    ensures
        r == kernel_load + 0x200,
{
    kernel_load + 0x200
}

/// Whether `/dev/kvm` exists on this host (`Path::exists`).
#[verifier::external_body]
fn kvm_available() -> bool {
    std::path::Path::new("/dev/kvm").exists()
}

/// The KVM hypervisor backend.
pub struct KvmBackend {
    capabilities: BackendCapabilities,
}

/// What the KVM backend supports: Linux guests booted directly from raw images, no
/// network or user-space NAT networking (not platform NAT), no shared directories or
/// sockets, no resource limits.
pub open spec fn kvm_capabilities(c: BackendCapabilities) -> bool {
    &&& c.guest_os.linux
    &&& c.boot_methods.linux_direct && !c.boot_methods.uefi
    &&& c.image_formats.raw && !c.image_formats.qcow2
    &&& c.network_modes.none && !c.network_modes.nat && c.network_modes.user_nat
    &&& !c.share_mechanisms.virtio_fs && !c.share_mechanisms.virtio_9p
    &&& !c.devices.vsock
    &&& c.max_cpus is None && c.max_memory_mb is None
}

impl KvmBackend {
    pub fn new() -> (r: KvmBackend)
        ensures
            kvm_capabilities(r.spec_capabilities()),
    {
        KvmBackend {
            capabilities: BackendCapabilities {
                guest_os: GuestOsSupport { linux: true },
                boot_methods: BootMethodSupport { linux_direct: true, uefi: false },
                image_formats: ImageFormatSupport { raw: true, qcow2: false },
                network_modes: NetworkModeSupport { none: true, nat: false, user_nat: true },
                share_mechanisms: ShareMechanismSupport { virtio_fs: false, virtio_9p: false },
                devices: DeviceSupport { vsock: false },
                max_cpus: None,
                max_memory_mb: None,
            },
        }
    }

    /// The capabilities this backend reports.
    pub closed spec fn spec_capabilities(&self) -> BackendCapabilities {
        self.capabilities
    }

    /// The backend's name.
    pub fn name(&self) -> (r: &'static str)
        ensures
            r@ == "kvm"@,
    {
        "kvm"
    }

    /// The host platform the backend runs on.
    pub fn platform(&self) -> (r: HostPlatform)
        ensures
            r == HostPlatform::Linux,
    {
        HostPlatform::Linux
    }

    /// The capabilities this backend reports.
    pub fn capabilities(&self) -> (r: &BackendCapabilities)
        ensures
            *r == self.spec_capabilities(),
    {
        &self.capabilities
    }

    /// Whether the host offers KVM. What it returns depends on the host.
    pub fn is_available(&self) -> bool {
        kvm_available()
    }

    /// The command line guests boot with unless the configuration overrides it.
    pub fn kernel_cmdline_defaults(&self) -> (r: KernelCmdline)
        ensures
            r@.override_value is None,
            r@.args == kvm_default_args(),
    {
        proof {
            reveal_strlit("console");
            reveal_strlit("reboot");
            reveal_strlit("panic");
            reveal_strlit("quiet");
            reveal_strlit("virtio_mmio.device");
        }
        let mut cmdline = KernelCmdline::new();
        assert(cmdline@.args =~= Seq::<ArgView>::empty());
        cmdline.console("hvc0");
        proof { lemma_with_fresh_arg(Seq::empty(), ArgView::KeyValue("console"@, "hvc0"@)); }
        let ghost a1 = cmdline@.args;
        assert(a1 =~= seq![ArgView::KeyValue("console"@, "hvc0"@)]);
        assert("console"@.len() != "reboot"@.len());
        cmdline.arg("reboot", "t");
        proof { lemma_with_fresh_arg(a1, ArgView::KeyValue("reboot"@, "t"@)); }
        let ghost a2 = cmdline@.args;
        assert(a2 =~= seq![ArgView::KeyValue("console"@, "hvc0"@), ArgView::KeyValue("reboot"@, "t"@)]);
        assert("console"@.len() != "panic"@.len() && "reboot"@.len() != "panic"@.len());
        cmdline.arg("panic", "-1");
        proof { lemma_with_fresh_arg(a2, ArgView::KeyValue("panic"@, "-1"@)); }
        let ghost a3 = cmdline@.args;
        assert(a3 =~= seq![ArgView::KeyValue("console"@, "hvc0"@), ArgView::KeyValue("reboot"@, "t"@), ArgView::KeyValue("panic"@, "-1"@)]);
        assert("console"@.len() != "quiet"@.len() && "reboot"@.len() != "quiet"@.len());
        cmdline.flag("quiet");
        proof {
            assert("quiet"@[0] != "panic"@[0]);
            lemma_with_fresh_arg(a3, ArgView::Flag("quiet"@));
        }
        let ghost a4 = cmdline@.args;
        assert(a4 =~= seq![ArgView::KeyValue("console"@, "hvc0"@), ArgView::KeyValue("reboot"@, "t"@),
            ArgView::KeyValue("panic"@, "-1"@), ArgView::Flag("quiet"@)]);
        assert("console"@.len() != "virtio_mmio.device"@.len() && "reboot"@.len() != "virtio_mmio.device"@.len()
            && "panic"@.len() != "virtio_mmio.device"@.len() && "quiet"@.len() != "virtio_mmio.device"@.len());
        let console_dev = format_mmio_device(VIRTIO_MMIO_SIZE, VIRTIO_MMIO_BASE, VIRTIO_CONSOLE_IRQ);
        cmdline.arg("virtio_mmio.device", console_dev.as_str());
        proof { lemma_with_fresh_arg(a4, ArgView::KeyValue("virtio_mmio.device"@, console_dev@)); }
        let net_dev = format_mmio_device(VIRTIO_MMIO_SIZE, VIRTIO_NET_MMIO_BASE, VIRTIO_NET_IRQ);
        cmdline.append_arg("virtio_mmio.device", net_dev.as_str());
        assert(cmdline@.args =~= kvm_default_args());
        cmdline
    }

    /// The device the guest's root file system is on by default.
    pub fn default_root_device(&self) -> (r: &'static str)
        ensures
            r@ == "/dev/vda"@,
    {
        "/dev/vda"
    }
}

impl Default for KvmBackend {
    fn default() -> (r: KvmBackend)
        ensures
            kvm_capabilities(r.spec_capabilities()),
    {
        KvmBackend::new()
    }
}

} // verus!
