use capsa::cmdline::{CmdlineArg, KernelCmdline};

#[test]
fn parse_key_value() {
    let arg = CmdlineArg::parse("root=/dev/vda");
    assert_eq!(
        arg,
        CmdlineArg::KeyValue {
            key: "root".to_string(),
            value: "/dev/vda".to_string()
        }
    );
}

#[test]
fn parse_flag() {
    let arg = CmdlineArg::parse("quiet");
    assert_eq!(arg, CmdlineArg::Flag("quiet".to_string()));
}

#[test]
fn parse_key_value_with_multiple_equals() {
    let arg = CmdlineArg::parse("init=/bin/sh -c echo=test");
    assert_eq!(
        arg,
        CmdlineArg::KeyValue {
            key: "init".to_string(),
            value: "/bin/sh -c echo=test".to_string()
        }
    );
}

#[test]
fn kv_constructor() {
    let arg = CmdlineArg::kv("console", "ttyS0");
    assert_eq!(
        arg,
        CmdlineArg::KeyValue {
            key: "console".to_string(),
            value: "ttyS0".to_string()
        }
    );
}

#[test]
fn flag_constructor() {
    let arg = CmdlineArg::flag("ro");
    assert_eq!(arg, CmdlineArg::Flag("ro".to_string()));
}

#[test]
fn key_returns_key_for_key_value() {
    let arg = CmdlineArg::kv("root", "/dev/vda");
    assert_eq!(arg.key(), "root");
}

#[test]
fn key_returns_name_for_flag() {
    let arg = CmdlineArg::flag("quiet");
    assert_eq!(arg.key(), "quiet");
}

#[test]
fn display_key_value() {
    let arg = CmdlineArg::kv("root", "/dev/vda");
    assert_eq!(arg.to_string(), "root=/dev/vda");
}

#[test]
fn display_flag() {
    let arg = CmdlineArg::flag("quiet");
    assert_eq!(arg.to_string(), "quiet");
}

#[test]
fn new_creates_empty_cmdline() {
    let cmdline = KernelCmdline::new();
    assert_eq!(cmdline.build(), "");
}

#[test]
fn arg_adds_key_value() {
    let mut cmdline = KernelCmdline::new();
    cmdline.arg("root", "/dev/vda");
    assert_eq!(cmdline.build(), "root=/dev/vda");
}

#[test]
fn flag_adds_flag() {
    let mut cmdline = KernelCmdline::new();
    cmdline.flag("quiet");
    assert_eq!(cmdline.build(), "quiet");
}

#[test]
fn multiple_args_joined_with_space() {
    let mut cmdline = KernelCmdline::new();
    cmdline
        .arg("root", "/dev/vda")
        .flag("quiet")
        .arg("console", "ttyS0");
    assert_eq!(cmdline.build(), "root=/dev/vda quiet console=ttyS0");
}

#[test]
fn arg_replaces_existing_key() {
    let mut cmdline = KernelCmdline::new();
    cmdline.arg("root", "/dev/vda").arg("root", "/dev/vdb");
    assert_eq!(cmdline.build(), "root=/dev/vdb");
}

#[test]
fn flag_replaces_existing_flag() {
    let mut cmdline = KernelCmdline::new();
    cmdline.flag("quiet").flag("quiet");
    assert_eq!(cmdline.build(), "quiet");
}

#[test]
fn root_sets_root_arg() {
    let mut cmdline = KernelCmdline::new();
    cmdline.root("/dev/vda");
    assert_eq!(cmdline.build(), "root=/dev/vda");
}

#[test]
fn console_sets_console_arg() {
    let mut cmdline = KernelCmdline::new();
    cmdline.console("hvc0");
    assert_eq!(cmdline.build(), "console=hvc0");
}

#[test]
fn override_with_replaces_entire_cmdline() {
    let mut cmdline = KernelCmdline::new();
    cmdline
        .arg("root", "/dev/vda")
        .flag("quiet")
        .override_with("custom=cmdline");
    assert_eq!(cmdline.build(), "custom=cmdline");
}

#[test]
fn is_overridden_false_by_default() {
    let cmdline = KernelCmdline::new();
    assert!(!cmdline.is_overridden());
}

#[test]
fn is_overridden_true_after_override() {
    let mut cmdline = KernelCmdline::new();
    cmdline.override_with("test");
    assert!(cmdline.is_overridden());
}

#[test]
fn contains_returns_true_for_existing_key() {
    let mut cmdline = KernelCmdline::new();
    cmdline.arg("root", "/dev/vda");
    assert!(cmdline.contains("root"));
}

#[test]
fn contains_returns_false_for_missing_key() {
    let cmdline = KernelCmdline::new();
    assert!(!cmdline.contains("root"));
}

#[test]
fn contains_works_for_flags() {
    let mut cmdline = KernelCmdline::new();
    cmdline.flag("quiet");
    assert!(cmdline.contains("quiet"));
}

#[test]
fn get_returns_value_for_key_value() {
    let mut cmdline = KernelCmdline::new();
    cmdline.arg("root", "/dev/vda");
    assert_eq!(cmdline.get("root"), Some("/dev/vda"));
}

#[test]
fn get_returns_none_for_flag() {
    let mut cmdline = KernelCmdline::new();
    cmdline.flag("quiet");
    assert_eq!(cmdline.get("quiet"), None);
}

#[test]
fn get_returns_none_for_missing_key() {
    let cmdline = KernelCmdline::new();
    assert_eq!(cmdline.get("root"), None);
}

#[test]
fn remove_removes_and_returns_arg() {
    let mut cmdline = KernelCmdline::new();
    cmdline.arg("root", "/dev/vda").flag("quiet");
    let removed = cmdline.remove("root");
    assert_eq!(
        removed,
        Some(CmdlineArg::KeyValue {
            key: "root".to_string(),
            value: "/dev/vda".to_string()
        })
    );
    assert_eq!(cmdline.build(), "quiet");
}

#[test]
fn remove_returns_none_for_missing_key() {
    let mut cmdline = KernelCmdline::new();
    assert_eq!(cmdline.remove("root"), None);
}

#[test]
fn add_accepts_cmdline_arg() {
    let mut cmdline = KernelCmdline::new();
    cmdline.add(CmdlineArg::kv("root", "/dev/vda"));
    assert_eq!(cmdline.build(), "root=/dev/vda");
}

#[test]
fn merge_combines_cmdlines() {
    let mut cmdline1 = KernelCmdline::new();
    cmdline1.arg("root", "/dev/vda").flag("quiet");

    let mut cmdline2 = KernelCmdline::new();
    cmdline2.arg("console", "ttyS0").flag("ro");

    cmdline1.merge(&cmdline2);
    assert!(cmdline1.contains("root"));
    assert!(cmdline1.contains("quiet"));
    assert!(cmdline1.contains("console"));
    assert!(cmdline1.contains("ro"));
}

#[test]
fn merge_overwrites_existing_keys() {
    let mut cmdline1 = KernelCmdline::new();
    cmdline1.arg("root", "/dev/vda");

    let mut cmdline2 = KernelCmdline::new();
    cmdline2.arg("root", "/dev/vdb");

    cmdline1.merge(&cmdline2);
    assert_eq!(cmdline1.get("root"), Some("/dev/vdb"));
}

#[test]
fn replacing_a_key_keeps_other_arguments_in_order() {
    let mut cmdline = KernelCmdline::new();
    cmdline.arg("root", "/dev/vda").flag("quiet").arg("root", "/dev/vdb");
    assert_eq!(cmdline.build(), "quiet root=/dev/vdb");
    assert_eq!(cmdline.get("root"), Some("/dev/vdb"));
}

#[test]
fn override_survives_later_arguments() {
    let mut cmdline = KernelCmdline::new();
    cmdline.override_with("custom=1").arg("root", "/dev/vda");
    assert_eq!(cmdline.build(), "custom=1");
    assert!(cmdline.contains("root"));
}

#[test]
fn append_arg_keeps_the_same_key() {
    let mut c = KernelCmdline::new();
    c.arg("dev", "a");
    c.append_arg("dev", "b");
    assert_eq!(c.build(), "dev=a dev=b");
    assert_eq!(c.get("dev"), Some("a"));
    c.arg("dev", "c");
    assert_eq!(c.build(), "dev=c");
}

#[test]
fn merge_does_not_take_the_other_override() {
    let mut other = KernelCmdline::new();
    other.arg("a", "1");
    other.override_with("x");
    let mut c = KernelCmdline::new();
    c.merge(&other);
    assert!(!c.is_overridden());
    assert_eq!(c.build(), "a=1");
    c.override_with("test");
    assert!(c.is_overridden());
}
