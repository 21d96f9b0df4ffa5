//! The command-line front end's logic: argument values, share specifications, and the
//! backend report in text and JSON.
use vstd::prelude::*;
use crate::config::{BackendCapabilities, HostPlatform, MountMode};
use crate::text::{chars_of, find_char, sub_chars, string_of, first_index_of, lemma_first_index_of, owned, concat2, concat3, decimal, parse_u32, parses_as_u32, digits_value, unsigned_digits, u64_to_decimal, str_eq};

verus! {

/// Most CPUs a VM may have.
pub const MAX_CPUS: u32 = 256;
/// Most memory a VM may have, in MB (1 TB).
pub const MAX_MEMORY_MB: u32 = 1024 * 1024;

/// Options of the `backends` command.
#[derive(Debug, Clone, Copy, Default)]
pub struct BackendsArgs {
    /// Output in JSON.
    pub json: bool,
}

/// Options of the `version` command (there are none).
#[derive(Debug, Clone, Copy, Default)]
pub struct VersionArgs {}

/// "yes" or "no".
pub open spec fn yes_no_spec(b: bool) -> Seq<char> {
    if b { "yes"@ } else { "no"@ }
}

pub fn yes_no(b: bool) -> (r: &'static str)
    ensures
        r@ == yes_no_spec(b),
{
    if b { "yes" } else { "no" }
}

/// The lower-case name of a platform.
pub open spec fn platform_name_spec(p: HostPlatform) -> Seq<char> {
    match p {
        HostPlatform::MacOs => "macos"@,
        HostPlatform::Linux => "linux"@,
    }
}

pub fn platform_name(platform: HostPlatform) -> (r: &'static str)
    ensures
        r@ == platform_name_spec(platform),
{
    match platform {
        HostPlatform::MacOs => "macos",
        HostPlatform::Linux => "linux",
    }
}

/// The value `u32::from_str` reads from `s`, when it reads one.
pub open spec fn u32_value(s: Seq<char>) -> nat {
    digits_value(unsigned_digits(s))
}

/// Parses a CPU count: a number from 1 to 256.
pub fn parse_cpus(s: &str) -> (r: Result<u32, String>)
    ensures
        !parses_as_u32(s@) ==> r is Err && r->Err_0@ == "'"@ + s@ + "' is not a valid number"@,
        parses_as_u32(s@) && u32_value(s@) == 0 ==> r is Err && r->Err_0@ == "cpus must be at least 1"@,
        parses_as_u32(s@) && u32_value(s@) > MAX_CPUS ==> r is Err && r->Err_0@ == "cpus cannot exceed 256"@,
        parses_as_u32(s@) && 1 <= u32_value(s@) <= MAX_CPUS ==> r == Ok::<u32, String>(u32_value(s@) as u32),
{
    let cpus = match parse_u32(s) {
        Some(v) => v,
        None => return Err(concat3("'", s, "' is not a valid number")),
    };
    if cpus == 0 {
        return Err(owned("cpus must be at least 1"));
    }
    if cpus > MAX_CPUS {
        return Err(owned("cpus cannot exceed 256"));
    }
    Ok(cpus)
}

/// Parses a memory size in MB: a number from 1 to 1048576.
pub fn parse_memory(s: &str) -> (r: Result<u32, String>)
    ensures
        !parses_as_u32(s@) ==> r is Err && r->Err_0@ == "'"@ + s@ + "' is not a valid number"@,
        parses_as_u32(s@) && u32_value(s@) == 0 ==> r is Err && r->Err_0@ == "memory must be at least 1 MB"@,
        parses_as_u32(s@) && u32_value(s@) > MAX_MEMORY_MB ==> r is Err && r->Err_0@ == "memory cannot exceed 1048576 MB"@,
        parses_as_u32(s@) && 1 <= u32_value(s@) <= MAX_MEMORY_MB ==> r == Ok::<u32, String>(u32_value(s@) as u32),
{
    let memory = match parse_u32(s) {
        Some(v) => v,
        None => return Err(concat3("'", s, "' is not a valid number")),
    };
    if memory == 0 {
        return Err(owned("memory must be at least 1 MB"));
    }
    if memory > MAX_MEMORY_MB {
        return Err(owned("memory cannot exceed 1048576 MB"));
    }
    Ok(memory)
}

/// Accepts the path `s` of an existing regular file; `exists` and `is_file` are what the
/// host's file system says of it.
pub fn parse_existing_file(s: &str, exists: bool, is_file: bool) -> (r: Result<String, String>)
    ensures
        !exists ==> r is Err && r->Err_0@ == "file not found: "@ + s@,
        exists && !is_file ==> r is Err && r->Err_0@ == "not a file: "@ + s@,
        exists && is_file ==> r is Ok && r->Ok_0@ == s@,
{
    if !exists {
        return Err(concat2("file not found: ", s));
    }
    if !is_file {
        return Err(concat2("not a file: ", s));
    }
    Ok(owned(s))
}

/// `s` split at every `c`.
pub open spec fn split_on(s: Seq<char>, c: char) -> Seq<Seq<char>>
    decreases s.len(),
{
    match first_index_of(s, c) {
        Some(i) => {
            proof { lemma_first_index_of(s, c); }
            seq![s.subrange(0, i)] + split_on(s.subrange(i + 1, s.len() as int), c)
        },
        None => seq![s],
    }
}

/// The pieces of `v[start..]` split at every `c`.
fn split_from(v: &[char], start: usize, c: char) -> (r: Vec<Vec<char>>)
    requires
        start <= v@.len(),
    ensures
        r@.map_values(|p: Vec<char>| p@) == split_on(v@.subrange(start as int, v@.len() as int), c),
    decreases v@.len() - start,
{
    let rest = sub_chars(v, start, v.len());
    proof { lemma_first_index_of(rest@, c); }
    match find_char(rest.as_slice(), c) {
        None => {
            let mut r: Vec<Vec<char>> = Vec::new();
            r.push(rest);
            assert(r@.map_values(|p: Vec<char>| p@) =~= seq![v@.subrange(start as int, v@.len() as int)]);
            r
        },
        Some(i) => {
            let head = sub_chars(rest.as_slice(), 0, i);
            let mut r = split_from(v, start + i + 1, c);
            let ghost tail = r@;
            assert(v@.subrange(start + i + 1, v@.len() as int) =~= rest@.subrange(i + 1, rest@.len() as int));
            r.insert(0, head);
            assert(r@.map_values(|p: Vec<char>| p@) =~= seq![rest@.subrange(0, i as int)] + tail.map_values(|p: Vec<char>| p@));
            r
        },
    }
}

/// The text of `s` split at every `c`.
pub fn split_str(s: &str, c: char) -> (r: Vec<Vec<char>>)
    ensures
        r@.map_values(|p: Vec<char>| p@) == split_on(s@, c),
{
    let cs = chars_of(s);
    let r = split_from(cs.as_slice(), 0, c);
    assert(cs@.subrange(0, cs@.len() as int) =~= s@);
    r
}

/// A directory to share with the guest, as given on the command line.
#[derive(Debug, Clone)]
pub struct Share {
    pub host: String,
    pub guest: String,
    pub mode: MountMode,
}

/// The parts of a share specification `host:guest[:mode]`.
#[derive(Debug, Clone)]
pub struct ShareParts {
    pub host: String,
    pub guest: String,
    pub mode: Option<String>,
}

/// Splits `host:guest` or `host:guest:mode` and checks that both paths are given.
pub fn split_share(s: &str) -> (r: Result<ShareParts, String>)
    ensures
        ({
            let parts = split_on(s@, ':');
            &&& parts.len() < 2 ==> r is Err && r->Err_0@ == "share format must be 'host:guest' or 'host:guest:mode'"@
            &&& parts.len() > 3 ==> r is Err && r->Err_0@ == "too many colons in share format"@
            &&& 2 <= parts.len() <= 3 && parts[0].len() == 0 ==> r is Err && r->Err_0@ == "host path cannot be empty"@
            &&& 2 <= parts.len() <= 3 && parts[0].len() > 0 && parts[1].len() == 0 ==> r is Err && r->Err_0@ == "guest path cannot be empty"@
            &&& 2 <= parts.len() <= 3 && parts[0].len() > 0 && parts[1].len() > 0 ==> r is Ok
                && r->Ok_0.host@ == parts[0] && r->Ok_0.guest@ == parts[1]
                && (parts.len() == 3 ==> r->Ok_0.mode is Some && r->Ok_0.mode->0@ == parts[2])
                && (parts.len() == 2 ==> r->Ok_0.mode is None)
        }),
{
    let parts = split_str(s, ':');
    let ghost pv = parts@.map_values(|p: Vec<char>| p@);
    if parts.len() < 2 {
        return Err(owned("share format must be 'host:guest' or 'host:guest:mode'"));
    }
    if parts.len() > 3 {
        return Err(owned("too many colons in share format"));
    }
    assert(pv[0] == parts@[0]@ && pv[1] == parts@[1]@);
    if parts[0].len() == 0 {
        return Err(owned("host path cannot be empty"));
    }
    if parts[1].len() == 0 {
        return Err(owned("guest path cannot be empty"));
    }
    let host = string_of(parts[0].as_slice());
    let guest = string_of(parts[1].as_slice());
    let mode = if parts.len() == 3 {
        assert(pv[2] == parts@[2]@);
        Some(string_of(parts[2].as_slice()))
    } else {
        None
    };
    Ok(ShareParts { host, guest, mode })
}

/// Finishes a share once the host path has been looked up: the host path must exist, and
/// the mode, when given, must be `ro` or `rw` (read-only when not given).
pub fn finish_share(parts: ShareParts, host_exists: bool) -> (r: Result<Share, String>)
    ensures
        !host_exists ==> r is Err && r->Err_0@ == "share host path not found: "@ + parts.host@,
        host_exists && parts.mode is None ==> r is Ok && r->Ok_0.host@ == parts.host@
            && r->Ok_0.guest@ == parts.guest@ && r->Ok_0.mode == MountMode::ReadOnly,
        host_exists && parts.mode is Some && parts.mode->0@ == "ro"@ ==> r is Ok && r->Ok_0.host@ == parts.host@
            && r->Ok_0.guest@ == parts.guest@ && r->Ok_0.mode == MountMode::ReadOnly,
        host_exists && parts.mode is Some && parts.mode->0@ == "rw"@ ==> r is Ok && r->Ok_0.host@ == parts.host@
            && r->Ok_0.guest@ == parts.guest@ && r->Ok_0.mode == MountMode::ReadWrite,
        host_exists && parts.mode is Some && parts.mode->0@ != "ro"@ && parts.mode->0@ != "rw"@ ==> r is Err
            && r->Err_0@ == "invalid mount mode '"@ + parts.mode->0@ + "', expected 'ro' or 'rw'"@,
{
    if !host_exists {
        return Err(concat2("share host path not found: ", parts.host.as_str()));
    }
    proof {
        reveal_strlit("ro");
        reveal_strlit("rw");
        assert("ro"@[1] != "rw"@[1]);
    }
    let mode = match &parts.mode {
        None => MountMode::ReadOnly,
        Some(m) => {
            if str_eq(m.as_str(), "ro") {
                MountMode::ReadOnly
            } else if str_eq(m.as_str(), "rw") {
                MountMode::ReadWrite
            } else {
                return Err(concat3("invalid mount mode '", m.as_str(), "', expected 'ro' or 'rw'"));
            }
        },
    };
    Ok(Share { host: parts.host, guest: parts.guest, mode })
}


/// What the report shows of one backend.
#[derive(Debug, Clone)]
pub struct BackendInfo {
    pub name: String,
    pub platform: HostPlatform,
    pub available: bool,
    pub capabilities: BackendCapabilities,
}

/// `true` or `false`.
pub open spec fn bool_text(b: bool) -> Seq<char> {
    if b { "true"@ } else { "false"@ }
}

/// A limit's text: its decimal value, or `none` when there is no limit.
pub open spec fn limit_text(o: Option<u32>, none: Seq<char>) -> Seq<char> {
    match o {
        Some(n) => decimal(n as nat),
        None => none,
    }
}

/// The memory limit's text in the text report.
pub open spec fn memory_limit_text(o: Option<u32>) -> Seq<char> {
    match o {
        Some(n) => decimal(n as nat) + " MB"@,
        None => "unlimited"@,
    }
}

/// The first lines of a backend's block: name, platform and status.
pub open spec fn text_head(b: BackendInfo) -> Seq<char> {
    "  "@ + b.name@ + " ("@ + platform_name_spec(b.platform) + ")\n"@
        + "    Status: "@ + (if b.available { "Available"@ } else { "Not available"@ }) + "\n"@
}

/// The guest OS and boot method lines.
pub open spec fn text_os_boot(c: BackendCapabilities) -> Seq<char> {
    "    Guest OS: Linux="@ + yes_no_spec(c.guest_os.linux) + "\n"@
        + "    Boot methods: direct="@ + yes_no_spec(c.boot_methods.linux_direct) + "\n"@
}

/// The disk format line.
pub open spec fn text_disk(c: BackendCapabilities) -> Seq<char> {
    "    Disk formats: raw="@ + yes_no_spec(c.image_formats.raw) + ", qcow2="@ + yes_no_spec(c.image_formats.qcow2) + "\n"@
}

/// The network line.
pub open spec fn text_net(c: BackendCapabilities) -> Seq<char> {
    "    Network: none="@ + yes_no_spec(c.network_modes.none) + ", nat="@ + yes_no_spec(c.network_modes.nat) + "\n"@
}

/// The share mechanism line.
pub open spec fn text_shares(c: BackendCapabilities) -> Seq<char> {
    "    Shares: virtio-fs="@ + yes_no_spec(c.share_mechanisms.virtio_fs) + ", 9p="@ + yes_no_spec(c.share_mechanisms.virtio_9p) + "\n"@
}

/// The limits line, shown only when there is a limit.
pub open spec fn text_limits(c: BackendCapabilities) -> Seq<char> {
    if c.max_cpus is Some || c.max_memory_mb is Some {
        "    Limits: cpus="@ + limit_text(c.max_cpus, "unlimited"@) + ", memory="@ + memory_limit_text(c.max_memory_mb) + "\n"@
    } else {
        Seq::empty()
    }
}

/// The text report's block for one backend, followed by an empty line.
pub open spec fn text_entry(b: BackendInfo) -> Seq<char> {
    text_head(b) + text_os_boot(b.capabilities) + text_disk(b.capabilities) + text_net(b.capabilities) + text_shares(b.capabilities)
        + text_limits(b.capabilities) + "\n"@
}

/// The blocks of the first `n` backends.
pub open spec fn text_entries(bs: Seq<BackendInfo>, n: nat) -> Seq<char>
    decreases n,
{
    if n == 0 || n > bs.len() {
        Seq::empty()
    } else {
        text_entries(bs, (n - 1) as nat) + text_entry(bs[n - 1])
    }
}

/// The text report of the backends.
pub open spec fn text_report(bs: Seq<BackendInfo>) -> Seq<char> {
    if bs.len() == 0 {
        "No backends available.\n"@
    } else {
        "Available backends:\n\n"@ + text_entries(bs, bs.len())
    }
}

/// The start of a backend's JSON object: name, platform, availability.
pub open spec fn json_head(b: BackendInfo) -> Seq<char> {
    "    {\n"@
        + "      \"name\": \""@ + b.name@ + "\",\n"@
        + "      \"platform\": \""@ + platform_name_spec(b.platform) + "\",\n"@
        + "      \"available\": "@ + bool_text(b.available) + ",\n"@
}

/// The start of the capabilities and the guest OS object.
pub open spec fn json_os(c: BackendCapabilities) -> Seq<char> {
    "      \"capabilities\": {\n"@
        + "        \"guest_os\": {\n"@
        + "          \"linux\": "@ + bool_text(c.guest_os.linux) + "\n"@
        + "        },\n"@
}

/// The boot method object.
pub open spec fn json_boot(c: BackendCapabilities) -> Seq<char> {
    "        \"boot_methods\": {\n"@
        + "          \"linux_direct\": "@ + bool_text(c.boot_methods.linux_direct) + "\n"@
        + "        },\n"@
}

/// The image format object.
pub open spec fn json_formats(c: BackendCapabilities) -> Seq<char> {
    "        \"image_formats\": {\n"@
        + "          \"raw\": "@ + bool_text(c.image_formats.raw) + ",\n"@
        + "          \"qcow2\": "@ + bool_text(c.image_formats.qcow2) + "\n"@
        + "        },\n"@
}

/// The network mode object.
pub open spec fn json_network(c: BackendCapabilities) -> Seq<char> {
    "        \"network_modes\": {\n"@
        + "          \"none\": "@ + bool_text(c.network_modes.none) + ",\n"@
        + "          \"nat\": "@ + bool_text(c.network_modes.nat) + "\n"@
        + "        },\n"@
}

/// The share mechanism object.
pub open spec fn json_shares(c: BackendCapabilities) -> Seq<char> {
    "        \"share_mechanisms\": {\n"@
        + "          \"virtio_fs\": "@ + bool_text(c.share_mechanisms.virtio_fs) + ",\n"@
        + "          \"virtio_9p\": "@ + bool_text(c.share_mechanisms.virtio_9p) + "\n"@
        + "        },\n"@
}

/// The limits and the closing of the object; `last` says whether it closes the list.
pub open spec fn json_tail(c: BackendCapabilities, last: bool) -> Seq<char> {
    "        \"max_cpus\": "@ + limit_text(c.max_cpus, "null"@) + ",\n"@
        + "        \"max_memory_mb\": "@ + limit_text(c.max_memory_mb, "null"@) + "\n"@
        + "      }\n"@
        + (if last { "    }\n"@ } else { "    },\n"@ })
}

/// The JSON object of one backend; `last` says whether it closes the list.
pub open spec fn json_entry(b: BackendInfo, last: bool) -> Seq<char> {
    json_head(b) + json_os(b.capabilities) + json_boot(b.capabilities) + json_formats(b.capabilities) + json_network(b.capabilities)
        + json_shares(b.capabilities) + json_tail(b.capabilities, last)
}

/// The JSON objects of the first `n` backends of `bs`.
pub open spec fn json_entries(bs: Seq<BackendInfo>, n: nat) -> Seq<char>
    decreases n,
{
    if n == 0 || n > bs.len() {
        Seq::empty()
    } else {
        json_entries(bs, (n - 1) as nat) + json_entry(bs[n - 1], n == bs.len())
    }
}

/// The JSON report of the backends.
pub open spec fn json_report(bs: Seq<BackendInfo>) -> Seq<char> {
    "{\n"@ + "  \"backends\": [\n"@ + json_entries(bs, bs.len()) + "  ]\n"@ + "}\n"@
}

/// Appends `s` to `out`.
fn push_str(out: &mut String, s: &str)
    ensures
        final(out)@ == old(out)@ + s@,
{
    out.append(s);
}

fn bool_str(b: bool) -> (r: &'static str)
    ensures
        r@ == bool_text(b),
{
    if b { "true" } else { "false" }
}

fn push_limit(out: &mut String, o: Option<u32>, none: &str)
    ensures
        final(out)@ == old(out)@ + limit_text(o, none@),
{
    match o {
        Some(n) => {
            let t = u64_to_decimal(n as u64);
            push_str(out, t.as_str());
        },
        None => push_str(out, none),
    }
}

fn push_text_head(out: &mut String, b: &BackendInfo)
    ensures
        final(out)@ == old(out)@ + text_head(*b),
{
    let ghost o0 = out@;
    push_str(out, "  ");
    push_str(out, b.name.as_str());
    push_str(out, " (");
    push_str(out, platform_name(b.platform));
    push_str(out, ")\n");
    push_str(out, "    Status: ");
    push_str(out, if b.available { "Available" } else { "Not available" });
    push_str(out, "\n");
    assert(out@ =~= o0 + text_head(*b));
}

fn push_text_os_boot(out: &mut String, c: &BackendCapabilities)
    ensures
        final(out)@ == old(out)@ + text_os_boot(*c),
{
    let ghost o0 = out@;
    push_str(out, "    Guest OS: Linux=");
    push_str(out, yes_no(c.guest_os.linux));
    push_str(out, "\n");
    push_str(out, "    Boot methods: direct=");
    push_str(out, yes_no(c.boot_methods.linux_direct));
    push_str(out, "\n");
    assert(out@ =~= o0 + text_os_boot(*c));
}

fn push_text_disk(out: &mut String, c: &BackendCapabilities)
    ensures
        final(out)@ == old(out)@ + text_disk(*c),
{
    let ghost o0 = out@;
    push_str(out, "    Disk formats: raw=");
    push_str(out, yes_no(c.image_formats.raw));
    push_str(out, ", qcow2=");
    push_str(out, yes_no(c.image_formats.qcow2));
    push_str(out, "\n");
    assert(out@ =~= o0 + text_disk(*c));
}

fn push_text_net(out: &mut String, c: &BackendCapabilities)
    ensures
        final(out)@ == old(out)@ + text_net(*c),
{
    let ghost o0 = out@;
    push_str(out, "    Network: none=");
    push_str(out, yes_no(c.network_modes.none));
    push_str(out, ", nat=");
    push_str(out, yes_no(c.network_modes.nat));
    push_str(out, "\n");
    assert(out@ =~= o0 + text_net(*c));
}

fn push_text_shares(out: &mut String, c: &BackendCapabilities)
    ensures
        final(out)@ == old(out)@ + text_shares(*c),
{
    let ghost o0 = out@;
    push_str(out, "    Shares: virtio-fs=");
    push_str(out, yes_no(c.share_mechanisms.virtio_fs));
    push_str(out, ", 9p=");
    push_str(out, yes_no(c.share_mechanisms.virtio_9p));
    push_str(out, "\n");
    assert(out@ =~= o0 + text_shares(*c));
}

fn push_text_limits(out: &mut String, c: &BackendCapabilities)
    ensures
        final(out)@ == old(out)@ + text_limits(*c),
{
    let ghost o0 = out@;
    if c.max_cpus.is_some() || c.max_memory_mb.is_some() {
        push_str(out, "    Limits: cpus=");
        push_limit(out, c.max_cpus, "unlimited");
        push_str(out, ", memory=");
        match c.max_memory_mb {
            Some(n) => {
                let t = u64_to_decimal(n as u64);
                push_str(out, t.as_str());
                push_str(out, " MB");
            },
            None => push_str(out, "unlimited"),
        }
        push_str(out, "\n");
    }
    assert(out@ =~= o0 + text_limits(*c));
}

fn push_text_entry(out: &mut String, b: &BackendInfo)
    ensures
        final(out)@ == old(out)@ + text_entry(*b),
{
    let ghost o0 = out@;
    push_text_head(out, b);
    push_text_os_boot(out, &b.capabilities);
    push_text_disk(out, &b.capabilities);
    push_text_net(out, &b.capabilities);
    push_text_shares(out, &b.capabilities);
    push_text_limits(out, &b.capabilities);
    push_str(out, "\n");
    assert(out@ =~= o0 + text_entry(*b));
}

/// The text report of the backends.
pub fn render_text(backends: &[BackendInfo]) -> (r: String)
    ensures
        r@ == text_report(backends@),
{
    if backends.len() == 0 {
        return owned("No backends available.\n");
    }
    let mut out = owned("Available backends:\n\n");
    let mut i: usize = 0;
    while i < backends.len()
        invariant
            i <= backends@.len(),
            backends@.len() > 0,
            out@ == "Available backends:\n\n"@ + text_entries(backends@, i as nat),
        decreases backends@.len() - i,
    {
        push_text_entry(&mut out, &backends[i]);
        i = i + 1;
        assert(out@ =~= "Available backends:\n\n"@ + text_entries(backends@, i as nat));
    }
    out
}

fn push_json_head(out: &mut String, b: &BackendInfo)
    ensures
        final(out)@ == old(out)@ + json_head(*b),
{
    let ghost o0 = out@;
    push_str(out, "    {\n");
    push_str(out, "      \"name\": \"");
    push_str(out, b.name.as_str());
    push_str(out, "\",\n");
    push_str(out, "      \"platform\": \"");
    push_str(out, platform_name(b.platform));
    push_str(out, "\",\n");
    push_str(out, "      \"available\": ");
    push_str(out, bool_str(b.available));
    push_str(out, ",\n");
    assert(out@ =~= o0 + json_head(*b));
}

fn push_json_os(out: &mut String, c: &BackendCapabilities)
    ensures
        final(out)@ == old(out)@ + json_os(*c),
{
    let ghost o0 = out@;
    push_str(out, "      \"capabilities\": {\n");
    push_str(out, "        \"guest_os\": {\n");
    push_str(out, "          \"linux\": ");
    push_str(out, bool_str(c.guest_os.linux));
    push_str(out, "\n");
    push_str(out, "        },\n");
    assert(out@ =~= o0 + json_os(*c));
}

fn push_json_boot(out: &mut String, c: &BackendCapabilities)
    ensures
        final(out)@ == old(out)@ + json_boot(*c),
{
    let ghost o0 = out@;
    push_str(out, "        \"boot_methods\": {\n");
    push_str(out, "          \"linux_direct\": ");
    push_str(out, bool_str(c.boot_methods.linux_direct));
    push_str(out, "\n");
    push_str(out, "        },\n");
    assert(out@ =~= o0 + json_boot(*c));
}

fn push_json_formats(out: &mut String, c: &BackendCapabilities)
    ensures
        final(out)@ == old(out)@ + json_formats(*c),
{
    let ghost o0 = out@;
    push_str(out, "        \"image_formats\": {\n");
    push_str(out, "          \"raw\": ");
    push_str(out, bool_str(c.image_formats.raw));
    push_str(out, ",\n");
    push_str(out, "          \"qcow2\": ");
    push_str(out, bool_str(c.image_formats.qcow2));
    push_str(out, "\n");
    push_str(out, "        },\n");
    assert(out@ =~= o0 + json_formats(*c));
}

fn push_json_network(out: &mut String, c: &BackendCapabilities)
    ensures
        final(out)@ == old(out)@ + json_network(*c),
{
    let ghost o0 = out@;
    push_str(out, "        \"network_modes\": {\n");
    push_str(out, "          \"none\": ");
    push_str(out, bool_str(c.network_modes.none));
    push_str(out, ",\n");
    push_str(out, "          \"nat\": ");
    push_str(out, bool_str(c.network_modes.nat));
    push_str(out, "\n");
    push_str(out, "        },\n");
    assert(out@ =~= o0 + json_network(*c));
}

fn push_json_shares(out: &mut String, c: &BackendCapabilities)
    ensures
        final(out)@ == old(out)@ + json_shares(*c),
{
    let ghost o0 = out@;
    push_str(out, "        \"share_mechanisms\": {\n");
    push_str(out, "          \"virtio_fs\": ");
    push_str(out, bool_str(c.share_mechanisms.virtio_fs));
    push_str(out, ",\n");
    push_str(out, "          \"virtio_9p\": ");
    push_str(out, bool_str(c.share_mechanisms.virtio_9p));
    push_str(out, "\n");
    push_str(out, "        },\n");
    assert(out@ =~= o0 + json_shares(*c));
}

fn push_json_tail(out: &mut String, c: &BackendCapabilities, last: bool)
    ensures
        final(out)@ == old(out)@ + json_tail(*c, last),
{
    let ghost o0 = out@;
    push_str(out, "        \"max_cpus\": ");
    push_limit(out, c.max_cpus, "null");
    push_str(out, ",\n");
    push_str(out, "        \"max_memory_mb\": ");
    push_limit(out, c.max_memory_mb, "null");
    push_str(out, "\n");
    push_str(out, "      }\n");
    push_str(out, if last { "    }\n" } else { "    },\n" });
    assert(out@ =~= o0 + json_tail(*c, last));
}

fn push_json_entry(out: &mut String, b: &BackendInfo, last: bool)
    ensures
        final(out)@ == old(out)@ + json_entry(*b, last),
{
    let ghost o0 = out@;
    push_json_head(out, b);
    push_json_os(out, &b.capabilities);
    push_json_boot(out, &b.capabilities);
    push_json_formats(out, &b.capabilities);
    push_json_network(out, &b.capabilities);
    push_json_shares(out, &b.capabilities);
    push_json_tail(out, &b.capabilities, last);
    assert(out@ =~= o0 + json_entry(*b, last));
}

/// The JSON report of the backends.
pub fn render_json(backends: &[BackendInfo]) -> (r: String)
    ensures
        r@ == json_report(backends@),
{
    let mut out = owned("{\n");
    push_str(&mut out, "  \"backends\": [\n");
    let mut i: usize = 0;
    while i < backends.len()
        invariant
            i <= backends@.len(),
            out@ == "{\n"@ + "  \"backends\": [\n"@ + json_entries(backends@, i as nat),
        decreases backends@.len() - i,
    {
        push_json_entry(&mut out, &backends[i], i + 1 == backends.len());
        i = i + 1;
        assert(out@ =~= "{\n"@ + "  \"backends\": [\n"@ + json_entries(backends@, i as nat));
    }
    push_str(&mut out, "  ]\n");
    push_str(&mut out, "}\n");
    out
}


/// The byte (Ctrl+]) that detaches the console and stops the VM.
pub const CONSOLE_ESCAPE: u8 = 0x1d;

/// What the console does with a byte typed on the terminal.
#[derive(Debug, Clone, Copy, PartialEq, Eq, Structural)]
pub enum ConsoleInput {
    /// Detach and stop the VM.
    Detach,
    /// Send the byte to the guest.
    Forward(u8),
}

/// Ctrl+] detaches; every other byte goes to the guest.
pub fn console_input(byte: u8) -> (r: ConsoleInput)
    ensures
        byte == CONSOLE_ESCAPE ==> r == ConsoleInput::Detach,
        byte != CONSOLE_ESCAPE ==> r == ConsoleInput::Forward(byte),
{
    if byte == CONSOLE_ESCAPE {
        ConsoleInput::Detach
    } else {
        ConsoleInput::Forward(byte)
    }
}

/// What ended an interactive console session.
#[derive(Debug, Clone, Copy, PartialEq, Eq, Structural)]
pub enum ConsoleEnd {
    /// The VM exited by itself.
    VmExited,
    /// The user pressed the escape byte.
    Detached,
    /// Reading the terminal ended.
    InputClosed,
    /// The guest's output ended.
    OutputClosed,
}

/// Whether the VM must be killed when a session ends this way, and the message shown
/// (if any): the VM is left alone only when it exited by itself.
pub fn console_end_action(end: ConsoleEnd) -> (r: (bool, Option<&'static str>))
    ensures
        end == ConsoleEnd::VmExited ==> !r.0 && r.1 is Some && r.1->0@ == "\r\nVM exited.\r"@,
        end == ConsoleEnd::Detached ==> r.0 && r.1 is Some && r.1->0@ == "\r\nStopping VM...\r"@,
        (end == ConsoleEnd::InputClosed || end == ConsoleEnd::OutputClosed) ==> r.0 && r.1 is None,
{
    match end {
        ConsoleEnd::VmExited => (false, Some("\r\nVM exited.\r")),
        ConsoleEnd::Detached => (true, Some("\r\nStopping VM...\r")),
        ConsoleEnd::InputClosed => (true, None),
        ConsoleEnd::OutputClosed => (true, None),
    }
}

} // verus!
