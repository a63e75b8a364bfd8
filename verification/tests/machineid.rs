use machine_uuid::{
    get, get_via_linux_shell, get_via_macos_shell, get_via_windows_shell,
    transform_windows_output, CommandRunner, MachineIdError, Platform,
};

/// A runner that answers every command with one canned outcome, standing
/// in for a host whose identifier source does not change.
struct CannedRunner {
    outcome: Result<Vec<u8>, String>,
    calls: usize,
}

impl CannedRunner {
    fn ok(bytes: &[u8]) -> CannedRunner {
        CannedRunner { outcome: Ok(bytes.to_vec()), calls: 0 }
    }

    fn fail(msg: &str) -> CannedRunner {
        CannedRunner { outcome: Err(String::from(msg)), calls: 0 }
    }
}

impl CommandRunner for CannedRunner {
    fn run(&mut self, _program: &str, _args: &Vec<String>) -> Result<Vec<u8>, String> {
        self.calls += 1;
        self.outcome.clone()
    }
}

fn is_lower_hex(c: char) -> bool {
    ('0'..='9').contains(&c) || ('a'..='f').contains(&c)
}

/// The canonical UUID shape: xxxxxxxx-xxxx-xxxx-xxxx-xxxxxxxxxxxx over
/// lowercase hexadecimal digits.
fn matches_uuid_pattern(s: &str) -> bool {
    let groups = [8usize, 4, 4, 4, 12];
    let parts: Vec<&str> = s.split('-').collect();
    parts.len() == groups.len()
        && parts
            .iter()
            .zip(groups.iter())
            .all(|(p, n)| p.len() == *n && p.chars().all(is_lower_hex))
}

#[test]
fn transform_extracts_uuid_token() {
    let raw = String::from("UUID  \r\n140EF834-2DB3-0F7A-27B4-4CEDFB73167C\r\n");
    let r = transform_windows_output(raw);
    assert_eq!(r.unwrap(), "140EF834-2DB3-0F7A-27B4-4CEDFB73167C");
}

#[test]
fn transform_handles_tab_padding() {
    let raw = String::from("UUID \tABC-123\n");
    let r = transform_windows_output(raw);
    assert_eq!(r.unwrap(), "ABC-123");
}

#[test]
fn transform_of_empty_input_is_malformed() {
    let r = transform_windows_output(String::new());
    assert!(matches!(r, Err(MachineIdError::MalformedOutputError)));
}

#[test]
fn transform_without_space_is_malformed() {
    let r = transform_windows_output(String::from("NOHEADER"));
    assert!(matches!(r, Err(MachineIdError::MalformedOutputError)));
}

#[test]
fn linux_retrieval_returns_file_verbatim() {
    let mut runner = CannedRunner::ok(b"92cc698195f84d3b85f1cfb0a09e957f\n");
    let s = get_via_linux_shell(&mut runner).unwrap();
    assert_eq!(s, "92cc698195f84d3b85f1cfb0a09e957f\n");
    assert_eq!(s.chars().count(), 33);
    let trimmed = s.trim();
    assert_eq!(trimmed.chars().count(), 32);
    assert!(trimmed.chars().all(is_lower_hex));
}

#[test]
fn macos_retrieval_matches_uuid_pattern() {
    let mut runner = CannedRunner::ok(b"F7FA2B78-F7D4-5B1B-A4E3-BACB1BBD95A1\n");
    let s = get_via_macos_shell(&mut runner).unwrap();
    let normalized = s.to_lowercase();
    assert!(matches_uuid_pattern(normalized.trim()));
}

#[test]
fn get_on_windows_equals_transform_of_raw_retrieval() {
    let canned: &[u8] = b"UUID  \r\n140EF834-2DB3-0F7A-27B4-4CEDFB73167C\r\n";
    let mut r1 = CannedRunner::ok(canned);
    let mut r2 = CannedRunner::ok(canned);
    let combined = get(&mut r1, Platform::Windows).unwrap();
    let raw = get_via_windows_shell(&mut r2).unwrap();
    let transformed = transform_windows_output(raw).unwrap();
    assert_eq!(combined, transformed);
    assert_eq!(combined, "140EF834-2DB3-0F7A-27B4-4CEDFB73167C");
}

#[test]
fn get_on_windows_without_header_is_malformed() {
    let mut runner = CannedRunner::ok(b"NOHEADER");
    let r = get(&mut runner, Platform::Windows);
    assert!(matches!(r, Err(MachineIdError::MalformedOutputError)));
}

#[test]
fn launch_failure_surfaces_process_launch_error() {
    let mut runner = CannedRunner::fail("No such file or directory");
    let r = get(&mut runner, Platform::Linux);
    match r {
        Err(MachineIdError::ProcessLaunchError(msg)) => {
            assert_eq!(msg, "No such file or directory");
        },
        other => panic!("expected a process launch error, got {:?}", other),
    }
}

#[test]
fn invalid_utf8_surfaces_decode_error_with_position() {
    let mut runner = CannedRunner::ok(b"abc\xff");
    let r = get_via_linux_shell(&mut runner);
    assert!(matches!(r, Err(MachineIdError::DecodeError(3))));
}

#[test]
fn multibyte_output_is_decoded_not_passed_through() {
    let mut runner = CannedRunner::ok(b"\xc3\xa9\n");
    let s = get_via_linux_shell(&mut runner).unwrap();
    assert_eq!(s, "\u{e9}\n");
    assert_eq!(s.chars().count(), 2);
}

#[test]
fn unsupported_platform_is_reported_without_running_anything() {
    let mut runner = CannedRunner::ok(b"irrelevant");
    let r = get(&mut runner, Platform::Other);
    assert!(matches!(r, Err(MachineIdError::UnsupportedPlatformError)));
    assert_eq!(runner.calls, 0);
}

#[test]
fn repeated_retrievals_return_identical_strings() {
    let mut runner = CannedRunner::ok(b"92cc698195f84d3b85f1cfb0a09e957f\n");
    let first = get_via_linux_shell(&mut runner).unwrap();
    let second = get_via_linux_shell(&mut runner).unwrap();
    assert_eq!(first, second);
    assert_eq!(runner.calls, 2);
    let mut w1 = CannedRunner::ok(b"UUID  ABC\n");
    let mut w2 = CannedRunner::ok(b"UUID  ABC\n");
    assert_eq!(
        get(&mut w1, Platform::Windows).unwrap(),
        get(&mut w2, Platform::Windows).unwrap(),
    );
}

#[test]
fn error_messages_name_the_failure() {
    let launch = MachineIdError::ProcessLaunchError(String::from("boom"));
    assert_eq!(launch.message(), "Failed to execute process: boom");
    let decode = MachineIdError::DecodeError(3);
    assert_eq!(
        decode.message(),
        "Failed to retrieve UUID from shell: output is not valid UTF-8",
    );
}
