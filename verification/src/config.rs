//! Virtual machine configuration: guests, resources, disks, shared directories, boot
//! methods, vsock ports and backend capabilities.
use vstd::prelude::*;
use crate::cmdline::{CmdlineArg, KernelCmdline, with_arg, ArgView};
use crate::text::owned;

verus! {

/// Guest operating systems.
#[derive(Debug, Clone, Copy, PartialEq, Eq, Structural)]
pub enum GuestOs {
    Linux,
}

/// Host platform a backend runs on.
#[derive(Debug, Clone, Copy, PartialEq, Eq, Structural)]
pub enum HostPlatform {
    MacOs,
    Linux,
}

/// CPU and memory given to a VM.
#[derive(Debug, Clone, Copy, PartialEq, Eq, Structural)]
pub struct ResourceConfig {
    pub cpus: u32,
    pub memory_mb: u32,
}

impl Default for ResourceConfig {
    /// One CPU and 512 MB.
    fn default() -> (r: Self)
        ensures
            r.cpus == 1 && r.memory_mb == 512,
    {
        ResourceConfig { cpus: 1, memory_mb: 512 }
    }
}

/// Disk image formats.
#[derive(Debug, Clone, Copy, PartialEq, Eq, Structural)]
pub enum ImageFormat {
    Raw,
    Qcow2,
}

impl Default for ImageFormat {
    /// Raw.
    fn default() -> (r: Self)
        ensures
            r == ImageFormat::Raw,
    {
        ImageFormat::Raw
    }
}

/// The extension (text after the last `.` of the file name) of a path, as `Path::extension`
/// gives it.
pub uninterp spec fn path_extension(path: Seq<char>) -> Option<Seq<char>>;

/// The lower-case form of a string, as `str::to_lowercase` gives it.
pub uninterp spec fn lowercase(s: Seq<char>) -> Seq<char>;

/// `Path::extension` of `path`, as text.
#[verifier::external_body]
fn extension_of(path: &str) -> (r: Option<String>)
    ensures
        match r {
            Some(e) => path_extension(path@) == Some(e@),
            None => path_extension(path@) is None,
        },
{
    std::path::Path::new(path).extension().and_then(|e| e.to_str()).map(|e| e.to_string())
}

/// `str::to_lowercase`.
#[verifier::external_body]
pub(crate) fn to_lowercase(s: &str) -> (r: String)
    ensures
        r@ == lowercase(s@),
{
    s.to_lowercase()
}

/// The format named by an already lower-cased extension.
pub open spec fn format_for(ext: Seq<char>) -> Option<ImageFormat> {
    if ext == "raw"@ || ext == "img"@ {
        Some(ImageFormat::Raw)
    } else if ext == "qcow2"@ {
        Some(ImageFormat::Qcow2)
    } else {
        None
    }
}

/// The format a path's extension names, ignoring case.
pub open spec fn format_of_path(path: Seq<char>) -> Option<ImageFormat> {
    match path_extension(path) {
        Some(e) => format_for(lowercase(e)),
        None => None,
    }
}

impl ImageFormat {
    /// The format for a lower-case extension: `raw` and `img` are raw, `qcow2` is qcow2.
    pub fn from_lowercase_extension(ext: &str) -> (r: Option<ImageFormat>)
        ensures
            r == format_for(ext@),
    {
        proof {
            reveal_strlit("raw");
            reveal_strlit("img");
            reveal_strlit("qcow2");
        }
        if crate::text::str_eq(ext, "raw") || crate::text::str_eq(ext, "img") {
            Some(ImageFormat::Raw)
        } else if crate::text::str_eq(ext, "qcow2") {
            Some(ImageFormat::Qcow2)
        } else {
            None
        }
    }

    /// The format named by the path's extension, ignoring case; `None` without a known one.
    pub fn from_extension(path: &str) -> (r: Option<ImageFormat>)
        ensures
            r == format_of_path(path@),
    {
        match extension_of(path) {
            Some(e) => {
                let lower = to_lowercase(e.as_str());
                ImageFormat::from_lowercase_extension(lower.as_str())
            },
            None => None,
        }
    }
}

/// A disk image attached to a VM.
#[derive(Debug, Clone)]
pub struct DiskImage {
    pub path: String,
    pub format: ImageFormat,
    pub read_only: bool,
}

impl DiskImage {
    /// A writable disk whose format is inferred from the extension, raw when unknown.
    pub fn new(path: &str) -> (r: DiskImage)
        ensures
            r.path@ == path@,
            r.format == (match format_of_path(path@) {
                Some(f) => f,
                None => ImageFormat::Raw,
            }),
            !r.read_only,
    {
        let format = match ImageFormat::from_extension(path) {
            Some(f) => f,
            None => ImageFormat::Raw,
        };
        DiskImage { path: owned(path), format, read_only: false }
    }

    /// A writable disk of the given format.
    pub fn with_format(path: &str, format: ImageFormat) -> (r: DiskImage)
        ensures
            r.path@ == path@,
            r.format == format,
            !r.read_only,
    {
        DiskImage { path: owned(path), format, read_only: false }
    }

    /// The same disk, read-only.
    pub fn read_only(self) -> (r: DiskImage)
        ensures
            r.path == self.path,
            r.format == self.format,
            r.read_only,
    {
        let mut s = self;
        s.read_only = true;
        s
    }
}

/// Access mode of a shared directory.
#[derive(Debug, Clone, Copy, PartialEq, Eq, Structural)]
pub enum MountMode {
    ReadOnly,
    ReadWrite,
}

impl Default for MountMode {
    /// Read-only.
    fn default() -> (r: Self)
        ensures
            r == MountMode::ReadOnly,
    {
        MountMode::ReadOnly
    }
}

/// virtio-fs options.
#[derive(Debug, Clone, Default)]
pub struct VirtioFsConfig {
    pub tag: Option<String>,
    pub cache: Option<String>,
}

/// virtio-9p options.
#[derive(Debug, Clone, Default)]
pub struct Virtio9pConfig {
    pub tag: Option<String>,
    pub msize: Option<u32>,
}

/// How a directory is shared with the guest.
#[derive(Debug, Clone)]
pub enum ShareMechanism {
    /// The best available mechanism.
    Auto,
    VirtioFs(VirtioFsConfig),
    Virtio9p(Virtio9pConfig),
}

impl Default for ShareMechanism {
    /// Auto.
    fn default() -> (r: Self)
        ensures
            r is Auto,
    {
        ShareMechanism::Auto
    }
}

impl ShareMechanism {
    /// virtio-fs with no tag or cache setting.
    pub fn virtio_fs() -> (r: ShareMechanism)
        ensures
            r matches ShareMechanism::VirtioFs(c) && c.tag is None && c.cache is None,
    {
        ShareMechanism::VirtioFs(VirtioFsConfig { tag: None, cache: None })
    }

    /// virtio-9p with no tag or msize setting.
    pub fn virtio_9p() -> (r: ShareMechanism)
        ensures
            r matches ShareMechanism::Virtio9p(c) && c.tag is None && c.msize is None,
    {
        ShareMechanism::Virtio9p(Virtio9pConfig { tag: None, msize: None })
    }
}

/// A host directory shared with the guest.
#[derive(Debug, Clone)]
pub struct SharedDir {
    pub host_path: String,
    pub guest_path: String,
    pub mode: MountMode,
    pub mechanism: ShareMechanism,
}

impl SharedDir {
    /// A share using the automatically chosen mechanism.
    pub fn new(host_path: &str, guest_path: &str, mode: MountMode) -> (r: SharedDir)
        ensures
            r.host_path@ == host_path@,
            r.guest_path@ == guest_path@,
            r.mode == mode,
            r.mechanism is Auto,
    {
        SharedDir {
            host_path: owned(host_path),
            guest_path: owned(guest_path),
            mode,
            mechanism: ShareMechanism::Auto,
        }
    }

    /// A share using `mechanism`.
    pub fn with_mechanism(host_path: &str, guest_path: &str, mode: MountMode, mechanism: ShareMechanism) -> (r: SharedDir)
        ensures
            r.host_path@ == host_path@,
            r.guest_path@ == guest_path@,
            r.mode == mode,
            r.mechanism == mechanism,
    {
        SharedDir { host_path: owned(host_path), guest_path: owned(guest_path), mode, mechanism }
    }
}

/// Direct Linux kernel boot: kernel and initrd images, optional root disk.
#[derive(Debug, Clone)]
pub struct LinuxDirectBootConfig {
    pub kernel: String,
    pub initrd: String,
    pub root_disk: Option<DiskImage>,
    pub cmdline: KernelCmdline,
}

impl LinuxDirectBootConfig {
    /// Boots `kernel` with `initrd`, no root disk and an empty command line.
    pub fn new(kernel: &str, initrd: &str) -> (r: LinuxDirectBootConfig)
        ensures
            r.kernel@ == kernel@,
            r.initrd@ == initrd@,
            r.root_disk is None,
            r.cmdline@.args.len() == 0,
            r.cmdline@.override_value is None,
    {
        LinuxDirectBootConfig {
            kernel: owned(kernel),
            initrd: owned(initrd),
            root_disk: None,
            cmdline: KernelCmdline::new(),
        }
    }

    /// The same configuration with `disk` as root disk.
    pub fn with_root_disk(self, disk: DiskImage) -> (r: LinuxDirectBootConfig)
        ensures
            r.kernel == self.kernel,
            r.initrd == self.initrd,
            r.root_disk == Some(disk),
            r.cmdline == self.cmdline,
    {
        let mut s = self;
        s.root_disk = Some(disk);
        s
    }
}

/// Location of the EFI variable store.
#[derive(Debug, Clone)]
pub struct EfiVariableStore {
    pub path: String,
    pub create_if_missing: bool,
}

/// UEFI boot from a disk with an EFI boot loader.
#[derive(Debug, Clone)]
pub struct UefiBootConfig {
    pub disk: DiskImage,
    pub efi_variable_store: Option<EfiVariableStore>,
}

impl UefiBootConfig {
    /// Boots from the disk at `disk`, without a variable store.
    pub fn new(disk: &str) -> (r: UefiBootConfig)
        ensures
            r.disk.path@ == disk@,
            r.disk.format == (match format_of_path(disk@) {
                Some(f) => f,
                None => ImageFormat::Raw,
            }),
            !r.disk.read_only,
            r.efi_variable_store is None,
    {
        UefiBootConfig { disk: DiskImage::new(disk), efi_variable_store: None }
    }

    /// Uses a variable store at `path`, created when missing.
    pub fn with_efi_variable_store(self, path: &str) -> (r: UefiBootConfig)
        ensures
            r.disk == self.disk,
            r.efi_variable_store matches Some(s) && s.path@ == path@ && s.create_if_missing,
    {
        let mut s = self;
        s.efi_variable_store = Some(EfiVariableStore { path: owned(path), create_if_missing: true });
        s
    }

    /// Uses an existing variable store at `path`.
    pub fn with_existing_efi_variable_store(self, path: &str) -> (r: UefiBootConfig)
        ensures
            r.disk == self.disk,
            r.efi_variable_store matches Some(s) && s.path@ == path@ && !s.create_if_missing,
    {
        let mut s = self;
        s.efi_variable_store = Some(EfiVariableStore { path: owned(path), create_if_missing: false });
        s
    }
}

/// How a VM boots.
#[derive(Debug, Clone)]
pub enum BootMethod {
    LinuxDirect { kernel: String, initrd: String, cmdline: String },
    Uefi { efi_variable_store: String, create_variable_store: bool },
}

/// Everything a backend needs to start a VM.
#[derive(Debug)]
pub struct VmConfig {
    pub boot: BootMethod,
    pub root_disk: Option<DiskImage>,
    pub disks: Vec<DiskImage>,
    pub resources: ResourceConfig,
    pub shares: Vec<SharedDir>,
    pub network: crate::network::NetworkMode,
    pub console_enabled: bool,
}

/// One vsock port mapped to a Unix socket on the host.
#[derive(Debug, Clone)]
pub struct VsockPortConfig {
    port: u32,
    socket_path: String,
    connect: bool,
    auto_cleanup: bool,
}

impl VsockPortConfig {
    pub closed spec fn spec_port(&self) -> u32 {
        self.port
    }

    pub closed spec fn spec_socket_path(&self) -> Seq<char> {
        self.socket_path@
    }

    pub closed spec fn spec_connect(&self) -> bool {
        self.connect
    }

    pub closed spec fn spec_auto_cleanup(&self) -> bool {
        self.auto_cleanup
    }

    /// The guest connects to `port`; the host listens on `socket_path`.
    pub fn listen(port: u32, socket_path: &str) -> (r: VsockPortConfig)
        ensures
            r.spec_port() == port,
            r.spec_socket_path() == socket_path@,
            !r.spec_connect(),
            !r.spec_auto_cleanup(),
    {
        VsockPortConfig { port, socket_path: owned(socket_path), connect: false, auto_cleanup: false }
    }

    /// Listening with a socket path chosen later and removed when the VM stops.
    pub fn listen_auto(port: u32) -> (r: VsockPortConfig)
        ensures
            r.spec_port() == port,
            r.spec_socket_path().len() == 0,
            !r.spec_connect(),
            r.spec_auto_cleanup(),
    {
        VsockPortConfig { port, socket_path: String::new(), connect: false, auto_cleanup: true }
    }

    /// The host connects to the guest's `port` through `socket_path`.
    pub fn connect(port: u32, socket_path: &str) -> (r: VsockPortConfig)
        ensures
            r.spec_port() == port,
            r.spec_socket_path() == socket_path@,
            r.spec_connect(),
            !r.spec_auto_cleanup(),
    {
        VsockPortConfig { port, socket_path: owned(socket_path), connect: true, auto_cleanup: false }
    }

    /// The same mapping, with the socket removed when the VM stops.
    pub fn with_auto_cleanup(self) -> (r: VsockPortConfig)
        ensures
            r.spec_port() == self.spec_port(),
            r.spec_socket_path() == self.spec_socket_path(),
            r.spec_connect() == self.spec_connect(),
            r.spec_auto_cleanup(),
    {
        let mut s = self;
        s.auto_cleanup = true;
        s
    }

    pub fn port(&self) -> (r: u32)
        ensures
            r == self.spec_port(),
    {
        self.port
    }

    pub fn socket_path(&self) -> (r: &str)
        ensures
            r@ == self.spec_socket_path(),
    {
        self.socket_path.as_str()
    }

    /// Whether the host initiates the connection.
    pub fn is_connect(&self) -> (r: bool)
        ensures
            r == self.spec_connect(),
    {
        self.connect
    }

    /// Whether the socket is removed when the VM stops.
    pub fn auto_cleanup(&self) -> (r: bool)
        ensures
            r == self.spec_auto_cleanup(),
    {
        self.auto_cleanup
    }
}

/// A port number alone configures a listening port whose socket path is chosen later and
/// removed when the VM stops, as `listen_auto` does.
impl From<u32> for VsockPortConfig {
    fn from(port: u32) -> (r: VsockPortConfig)
        ensures
            r.spec_port() == port,
            r.spec_socket_path().len() == 0,
            !r.spec_connect(),
            r.spec_auto_cleanup(),
    {
        VsockPortConfig::listen_auto(port)
    }
}

/// What `from` gives is described by its own contract above (a `String` value cannot be
/// written in a spec function).
impl vstd::std_specs::convert::FromSpecImpl<u32> for VsockPortConfig {
    open spec fn obeys_from_spec() -> bool {
        false
    }

    open spec fn from_spec(v: u32) -> VsockPortConfig {
        vstd::pervasive::arbitrary()
    }
}

/// The vsock device's port mappings.
#[derive(Debug, Clone, Default)]
pub struct VsockConfig {
    pub ports: Vec<VsockPortConfig>,
}

/// The socket paths of the ports marked for cleanup, in order.
pub open spec fn cleanup_paths(ports: Seq<VsockPortConfig>) -> Seq<Seq<char>>
    decreases ports.len(),
{
    if ports.len() == 0 {
        Seq::empty()
    } else {
        let rest = cleanup_paths(ports.drop_last());
        if ports.last().spec_auto_cleanup() {
            rest.push(ports.last().spec_socket_path())
        } else {
            rest
        }
    }
}

impl VsockConfig {
    /// No ports.
    pub fn new() -> (r: VsockConfig)
        ensures
            r.ports@.len() == 0,
    {
        VsockConfig { ports: Vec::new() }
    }

    /// Whether any port is configured.
    pub fn is_enabled(&self) -> (r: bool)
        ensures
            r == (self.ports@.len() > 0),
    {
        self.ports.len() > 0
    }

    /// Adds a port mapping at the end.
    pub fn add_port(&mut self, config: VsockPortConfig)
        ensures
            final(self).ports@ == old(self).ports@.push(config),
    {
        self.ports.push(config);
    }

    /// The socket paths to remove when the VM stops, in port order.
    pub fn auto_cleanup_paths(&self) -> (r: Vec<&str>)
        ensures
            r@.map_values(|p: &str| p@) == cleanup_paths(self.ports@),
    {
        let mut r: Vec<&str> = Vec::new();
        let mut i: usize = 0;
        while i < self.ports.len()
            invariant
                i <= self.ports@.len(),
                r@.map_values(|p: &str| p@) == cleanup_paths(self.ports@.subrange(0, i as int)),
            decreases self.ports@.len() - i,
        {
            let p = &self.ports[i];
            proof {
                let s = self.ports@.subrange(0, i + 1);
                assert(s.drop_last() =~= self.ports@.subrange(0, i as int));
            }
            if p.auto_cleanup() {
                let ghost before = r@;
                r.push(p.socket_path());
                proof {
                    assert(r@.map_values(|p: &str| p@) =~= before.map_values(|p: &str| p@).push(self.ports@[i as int].spec_socket_path()));
                }
            }
            i = i + 1;
        }
        proof {
            assert(self.ports@.subrange(0, i as int) =~= self.ports@);
        }
        r
    }
}

/// Which guest operating systems a backend runs.
#[derive(Debug, Clone, Default)]
pub struct GuestOsSupport {
    pub linux: bool,
}

/// Which boot methods a backend supports.
#[derive(Debug, Clone, Default)]
pub struct BootMethodSupport {
    pub linux_direct: bool,
    pub uefi: bool,
}

/// Which disk image formats a backend supports.
#[derive(Debug, Clone, Default)]
pub struct ImageFormatSupport {
    pub raw: bool,
    pub qcow2: bool,
}

/// Which network modes a backend supports.
#[derive(Debug, Clone, Default)]
pub struct NetworkModeSupport {
    pub none: bool,
    pub nat: bool,
    pub user_nat: bool,
}

/// Which directory sharing mechanisms a backend supports.
#[derive(Debug, Clone, Default)]
pub struct ShareMechanismSupport {
    pub virtio_fs: bool,
    pub virtio_9p: bool,
}

/// Which extra devices a backend supports.
#[derive(Debug, Clone, Default)]
pub struct DeviceSupport {
    pub vsock: bool,
}

/// What a hypervisor backend can do.
#[derive(Debug, Clone, Default)]
pub struct BackendCapabilities {
    pub guest_os: GuestOsSupport,
    pub boot_methods: BootMethodSupport,
    pub image_formats: ImageFormatSupport,
    pub network_modes: NetworkModeSupport,
    pub share_mechanisms: ShareMechanismSupport,
    pub devices: DeviceSupport,
    /// No limit when `None`.
    pub max_cpus: Option<u32>,
    /// In MB; no limit when `None`.
    pub max_memory_mb: Option<u32>,
}

/// Root device a guest boots from by default.
pub const DEFAULT_ROOT_DEVICE: &'static str = "/dev/vda";

/// Capabilities of the macOS Virtualization.framework backend.
pub fn macos_virtualization_capabilities() -> (r: BackendCapabilities)
    ensures
        r.guest_os.linux,
        r.boot_methods.linux_direct && r.boot_methods.uefi,
        r.image_formats.raw && !r.image_formats.qcow2,
        r.network_modes.none && r.network_modes.nat && !r.network_modes.user_nat,
        r.share_mechanisms.virtio_fs && !r.share_mechanisms.virtio_9p,
        r.devices.vsock,
        r.max_cpus is None && r.max_memory_mb is None,
{
    BackendCapabilities {
        guest_os: GuestOsSupport { linux: true },
        boot_methods: BootMethodSupport { linux_direct: true, uefi: true },
        image_formats: ImageFormatSupport { raw: true, qcow2: false },
        network_modes: NetworkModeSupport { none: true, nat: true, user_nat: false },
        share_mechanisms: ShareMechanismSupport { virtio_fs: true, virtio_9p: false },
        devices: DeviceSupport { vsock: true },
        max_cpus: None,
        max_memory_mb: None,
    }
}

/// Kernel command line defaults on macOS: `console=hvc0 reboot=t panic=-1`.
pub fn macos_cmdline_defaults() -> (r: KernelCmdline)
    ensures
        r@.override_value is None,
        r@.args == with_arg(
            with_arg(with_arg(Seq::empty(), ArgView::KeyValue("console"@, "hvc0"@)), ArgView::KeyValue("reboot"@, "t"@)),
            ArgView::KeyValue("panic"@, "-1"@),
        ),
{
    let mut cmdline = KernelCmdline::new();
    assert(cmdline@.args =~= Seq::<ArgView>::empty());
    cmdline.console("hvc0");
    cmdline.arg("reboot", "t");
    cmdline.arg("panic", "-1");
    cmdline
}

} // verus!
