use wasm_shim::error::ErrorKind;
use wasm_shim::error::ShimError;
use wasm_shim::metrics::cgroup_file_of_pid;
use wasm_shim::metrics::decimal_text;
use wasm_shim::metrics::get_cgroups_v2_path_by_pid;
use wasm_shim::metrics::parse_cgroups_v2_path;
use wasm_shim::metrics::trim_trailing_newlines;
use wasm_shim::text::join;
use wasm_shim::text::starts_with;
use wasm_shim::text::str_eq;
use wasm_shim::text::tail_from;

fn refused(r: Result<String, ShimError>) -> (ErrorKind, String) {
    let e = r.unwrap_err();
    (e.get_kind(), e.get_message().clone())
}

#[test]
fn a_unified_entry_gives_the_path_below_the_cgroup_root() {
    assert_eq!(
        parse_cgroups_v2_path("0::/user.slice/user-1000.slice/session-1.scope").unwrap(),
        "/sys/fs/cgroup/user.slice/user-1000.slice/session-1.scope"
    );
    assert_eq!(parse_cgroups_v2_path("0::relative/path").unwrap(), "/sys/fs/cgroup/relative/path");
    assert_eq!(parse_cgroups_v2_path("0::/").unwrap(), "/sys/fs/cgroup/");
    assert_eq!(parse_cgroups_v2_path("0::").unwrap(), "/sys/fs/cgroup/");
    assert_eq!(parse_cgroups_v2_path("0:://double").unwrap(), "/sys/fs/cgroup//double");
    assert_eq!(parse_cgroups_v2_path("0::/a:b:c").unwrap(), "/sys/fs/cgroup/a:b:c");
    assert_eq!(parse_cgroups_v2_path("0::/pod\u{e9}/x").unwrap(), "/sys/fs/cgroup/pod\u{e9}/x");
}

#[test]
fn an_entry_of_another_hierarchy_is_not_found() {
    let not_found = (ErrorKind::Others, "cgroup path not found".to_string());
    assert_eq!(refused(parse_cgroups_v2_path("1:cpu:/user.slice")), not_found);
    assert_eq!(refused(parse_cgroups_v2_path("0:cpu:/user.slice")), not_found);
    assert_eq!(refused(parse_cgroups_v2_path("00::/user.slice")), not_found);
    assert_eq!(refused(parse_cgroups_v2_path("::/user.slice")), not_found);
    assert_eq!(refused(parse_cgroups_v2_path("::")), not_found);
    assert_eq!(refused(parse_cgroups_v2_path("12:memory,cpu:/a\n0::/b")), not_found);
}

#[test]
fn an_entry_with_fewer_than_three_parts_is_invalid() {
    assert_eq!(
        refused(parse_cgroups_v2_path("nonsense")),
        (ErrorKind::Others, "invalid cgroup path: nonsense".to_string())
    );
    assert_eq!(
        refused(parse_cgroups_v2_path("0:/user.slice")),
        (ErrorKind::Others, "invalid cgroup path: 0:/user.slice".to_string())
    );
    assert_eq!(
        refused(parse_cgroups_v2_path("")),
        (ErrorKind::Others, "invalid cgroup path: ".to_string())
    );
}

#[test]
fn line_feeds_at_the_end_of_the_description_are_dropped() {
    assert_eq!(
        get_cgroups_v2_path_by_pid("0::/system.slice/containerd.service\n").unwrap(),
        "/sys/fs/cgroup/system.slice/containerd.service"
    );
    assert_eq!(get_cgroups_v2_path_by_pid("0::/a\n\n\n").unwrap(), "/sys/fs/cgroup/a");
    assert_eq!(get_cgroups_v2_path_by_pid("0::/a").unwrap(), "/sys/fs/cgroup/a");
    assert_eq!(get_cgroups_v2_path_by_pid("0::/a\n/b\n").unwrap(), "/sys/fs/cgroup/a\n/b");
    assert_eq!(
        refused(get_cgroups_v2_path_by_pid("1:name=systemd:/\n")),
        (ErrorKind::Others, "cgroup path not found".to_string())
    );
    assert_eq!(
        refused(get_cgroups_v2_path_by_pid("\n\n")),
        (ErrorKind::Others, "invalid cgroup path: ".to_string())
    );
    assert_eq!(trim_trailing_newlines("a\nb\n\n"), "a\nb");
    assert_eq!(trim_trailing_newlines("\n"), "");
    assert_eq!(trim_trailing_newlines(""), "");
    assert_eq!(trim_trailing_newlines("a \n "), "a \n ");
}

#[test]
fn the_description_of_a_process_is_named_by_its_id() {
    assert_eq!(cgroup_file_of_pid(1234), "/proc/1234/cgroup");
    assert_eq!(cgroup_file_of_pid(0), "/proc/0/cgroup");
    assert_eq!(cgroup_file_of_pid(7), "/proc/7/cgroup");
    assert_eq!(cgroup_file_of_pid(u32::MAX), "/proc/4294967295/cgroup");
    assert_eq!(decimal_text(0), "0");
    assert_eq!(decimal_text(10), "10");
    assert_eq!(decimal_text(909), "909");
    assert_eq!(decimal_text(4294967295), "4294967295");
}

#[test]
fn text_helpers_compare_and_cut_by_characters() {
    assert!(str_eq("", ""));
    assert!(str_eq("wasm", "wasm"));
    assert!(!str_eq("wasm", "wasi"));
    assert!(!str_eq("wasm", "wasm "));
    assert!(str_eq("\u{e9}t\u{e9}", "\u{e9}t\u{e9}"));
    assert!(starts_with("application/x", "application/"));
    assert!(starts_with("abc", ""));
    assert!(starts_with("abc", "abc"));
    assert!(!starts_with("ab", "abc"));
    assert!(!starts_with("xbc", "ab"));
    assert_eq!(join("ab", "cd"), "abcd");
    assert_eq!(join("", ""), "");
    assert_eq!(tail_from("h\u{e9}llo", 2), "llo");
    assert_eq!(tail_from("abc", 3), "");
    assert_eq!(tail_from("abc", 0), "abc");
}
