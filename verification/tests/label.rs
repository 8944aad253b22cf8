use trace_wrapper::label::{command_label, join_with_spaces};

fn strings(items: &[&str]) -> Vec<String> {
    items.iter().map(|s| s.to_string()).collect()
}

#[test]
fn join_of_nothing_is_empty() {
    assert_eq!(join_with_spaces(&strings(&[])), "");
}

#[test]
fn join_of_one_part_is_the_part() {
    assert_eq!(join_with_spaces(&strings(&["hello"])), "hello");
}

#[test]
fn join_puts_one_space_between_parts() {
    assert_eq!(join_with_spaces(&strings(&["hello", "world"])), "hello world");
    assert_eq!(join_with_spaces(&strings(&["a", "", "b"])), "a  b");
    assert_eq!(join_with_spaces(&strings(&["", ""])), " ");
}

#[test]
fn join_agrees_with_the_slice_join() {
    let cases = [
        strings(&[]),
        strings(&["x"]),
        strings(&["-n", "3", "--", "a b"]),
        strings(&["é", "ü", "日本"]),
    ];
    for parts in cases {
        assert_eq!(join_with_spaces(&parts), parts.join(" "));
    }
}

#[test]
fn label_is_basename_space_arguments() {
    assert_eq!(command_label("/bin/echo", &strings(&["hello", "world"])), "echo hello world");
    assert_eq!(command_label("cargo", &strings(&["build", "--release"])), "cargo build --release");
}

#[test]
fn label_without_arguments_keeps_the_space() {
    assert_eq!(command_label("false", &strings(&[])), "false ");
    assert_eq!(command_label("/usr/bin/true", &strings(&[])), "true ");
}

#[test]
fn label_of_a_path_that_ends_in_a_separator_starts_with_the_space() {
    assert_eq!(command_label("/opt/tool/", &strings(&["x"])), " x");
}
