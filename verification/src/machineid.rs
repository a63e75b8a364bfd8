//! Retrieval of the machine identifier: the supported platforms, the
//! command runner capability, the Windows output transform, and the
//! per-platform retrieval routines behind the single entry point [`get`].

use vstd::prelude::*;
use vstd::string::StrSliceExecFns;
use vstd::string::StringExecFns;
use vstd::utf8::{decode_utf8, valid_utf8};

use crate::decode::{decode_output, decode_post, is_valid_up_to, outcome_view};
use crate::error::MachineIdError;
use crate::text::{
    lemma_first_space_at, spec_first_space, spec_has_space, spec_trim, trim_str,
};

verus! {

/// The closed set of platform families the library can retrieve an
/// identifier for, plus a marker for every other host. The caller picks
/// the variant once, at the entry point.
#[derive(Clone, Copy, Debug, PartialEq, Eq, Structural)]
pub enum Platform {
    Windows,
    MacOs,
    Linux,
    Other,
}

/// The capability to run an external command and hand back its captured
/// standard-output bytes, or the message of the error that kept the
/// command from being launched or awaited.
///
/// Standard error and the exit status are deliberately not inspected:
/// whatever the command wrote to its standard output counts as output.
/// Implementations live outside the library — a real one spawns a child
/// process; a test one returns canned bytes.
pub trait CommandRunner {
    fn run(&mut self, program: &str, args: &Vec<String>) -> Result<Vec<u8>, String>;
}

/// The token the raw Windows query output is transformed to: everything
/// behind the first space, trimmed of whitespace on both ends.
pub open spec fn spec_windows_transform(s: Seq<char>) -> Seq<char> {
    spec_trim(s.subrange(spec_first_space(s) + 1, s.len() as int))
}

/// What transforming raw Windows query output returns: the extracted
/// identifier token when the output holds a space, and a malformed-output
/// error when it does not.
pub open spec fn transform_post(s: Seq<char>, r: Result<String, MachineIdError>) -> bool {
    if spec_has_space(s) {
        r matches Ok(t) && t@ == spec_windows_transform(s)
    } else {
        r matches Err(e) && e is MalformedOutputError
    }
}

/// Transforms the raw two-token Windows query output (a header token, a
/// space, then the identifier) into the bare identifier token.
///
/// Output without any space cannot hold both tokens and is reported as
/// [`MachineIdError::MalformedOutputError`] rather than answered with a
/// crash or an arbitrary substring.
pub fn transform_windows_output(output: String) -> (r: Result<String, MachineIdError>)
    ensures
        transform_post(output@, r),
        r is Ok <==> spec_has_space(output@),
{
    let s: &str = output.as_str();
    let n: usize = s.unicode_len();
    let mut i: usize = 0;
    while i < n && s.get_char(i) != ' '
        invariant
            i <= n,
            n == s@.len(),
            s@ == output@,
            forall|j: int| 0 <= j < i ==> s@[j] != ' ',
        decreases n - i,
    {
        i = i + 1;
    }
    if i == n {
        return Err(MachineIdError::MalformedOutputError);
    }
    proof {
        lemma_first_space_at(s@, i as int);
    }
    let rest: &str = s.substring_char(i + 1, n);
    let trimmed: String = trim_str(rest);
    Ok(trimmed)
}

/// What the full Windows retrieval returns for a given command outcome:
/// the transformed decode of the captured bytes, or the first error the
/// pipeline hit.
pub open spec fn windows_get_post(
    outcome: Result<Seq<u8>, Seq<char>>,
    r: Result<String, MachineIdError>,
) -> bool {
    match outcome {
        Ok(bytes) => {
            if !valid_utf8(bytes) {
                r matches Err(e) && e matches MachineIdError::DecodeError(pos) && is_valid_up_to(
                    bytes,
                    pos as int,
                )
            } else if !spec_has_space(decode_utf8(bytes)) {
                r matches Err(e) && e is MalformedOutputError
            } else {
                r matches Ok(t) && t@ == spec_windows_transform(decode_utf8(bytes))
            }
        },
        Err(msg) => r matches Err(e) && e matches MachineIdError::ProcessLaunchError(m) && m@
            == msg,
    }
}

/// What [`get`] returns on each platform, for a given command outcome: on
/// Windows the decoded and transformed output, on macOS and Linux the
/// decoded output verbatim, and on an unrecognized platform an explicit
/// error (never a silent empty identifier).
pub open spec fn get_post(
    platform: Platform,
    outcome: Result<Seq<u8>, Seq<char>>,
    r: Result<String, MachineIdError>,
) -> bool {
    match platform {
        Platform::Windows => windows_get_post(outcome, r),
        Platform::MacOs => decode_post(outcome, r),
        Platform::Linux => decode_post(outcome, r),
        Platform::Other => r matches Err(e) && e is UnsupportedPlatformError,
    }
}

/// Composition law: the Windows retrieval behaves as the raw Windows
/// retrieval followed by the output transform — whoever decodes the same
/// command outcome and transforms the decoded text lands on the result of
/// the combined routine.
pub proof fn lemma_windows_get_composes(
    o: Result<Seq<u8>, Seq<char>>,
    raw: Result<String, MachineIdError>,
    r: Result<String, MachineIdError>,
)
    requires
        decode_post(o, raw),
        raw matches Ok(text) ==> transform_post(text@, r),
        raw matches Err(e) ==> r == Result::<String, MachineIdError>::Err(e),
    ensures
        windows_get_post(o, r),
{
}

/// Runs the fixed Windows query (`cmd /C wmic csproduct get UUID`) through
/// the given runner and returns the decoded raw output, header line and
/// all. Nothing is promised of the bytes the host hands back; whatever
/// they are, the result is exactly their decode.
pub fn get_via_windows_shell<R: CommandRunner>(runner: &mut R) -> (r: Result<
    String,
    MachineIdError,
>)
    ensures
        exists|o: Result<Seq<u8>, Seq<char>>| decode_post(o, r),
{
    let mut args: Vec<String> = Vec::new();
    args.push(String::from_str("/C"));
    args.push(String::from_str("wmic csproduct get UUID"));
    let outcome = runner.run("cmd", &args);
    let ghost o = outcome_view(outcome);
    let r = decode_output(outcome);
    proof {
        assert(decode_post(o, r));
    }
    r
}

/// Runs the fixed macOS query (`ioreg` piped through `awk`, under `sh -c`)
/// through the given runner and returns the decoded output untrimmed.
pub fn get_via_macos_shell<R: CommandRunner>(runner: &mut R) -> (r: Result<
    String,
    MachineIdError,
>)
    ensures
        exists|o: Result<Seq<u8>, Seq<char>>| decode_post(o, r),
{
    let mut args: Vec<String> = Vec::new();
    args.push(String::from_str("-c"));
    args.push(
        String::from_str(
            "ioreg -d2 -c IOPlatformExpertDevice | awk -F\\\" '/IOPlatformUUID/{print $(NF-1)}'",
        ),
    );
    let outcome = runner.run("sh", &args);
    let ghost o = outcome_view(outcome);
    let r = decode_output(outcome);
    proof {
        assert(decode_post(o, r));
    }
    r
}

/// Runs the fixed Linux query (`sh -c cat /etc/machine-id`) through the
/// given runner and returns the decoded output untrimmed, trailing newline
/// included.
pub fn get_via_linux_shell<R: CommandRunner>(runner: &mut R) -> (r: Result<
    String,
    MachineIdError,
>)
    ensures
        exists|o: Result<Seq<u8>, Seq<char>>| decode_post(o, r),
{
    let mut args: Vec<String> = Vec::new();
    args.push(String::from_str("-c"));
    args.push(String::from_str("cat /etc/machine-id"));
    let outcome = runner.run("sh", &args);
    let ghost o = outcome_view(outcome);
    let r = decode_output(outcome);
    proof {
        assert(decode_post(o, r));
    }
    r
}

/// Retrieves the machine identifier for the given platform: exactly one
/// retrieval routine runs, and only the Windows path is transformed. On a
/// platform outside the supported set the call fails with
/// [`MachineIdError::UnsupportedPlatformError`].
pub fn get<R: CommandRunner>(runner: &mut R, platform: Platform) -> (r: Result<
    String,
    MachineIdError,
>)
    ensures
        exists|o: Result<Seq<u8>, Seq<char>>| get_post(platform, o, r),
{
    match platform {
        Platform::Windows => {
            let raw = get_via_windows_shell(runner);
            let ghost o = choose|o: Result<Seq<u8>, Seq<char>>| decode_post(o, raw);
            let ghost raw_snapshot = raw;
            let r = match raw {
                Ok(text) => transform_windows_output(text),
                Err(e) => Err(e),
            };
            proof {
                lemma_windows_get_composes(o, raw_snapshot, r);
                assert(get_post(platform, o, r));
            }
            r
        },
        Platform::MacOs => {
            let r = get_via_macos_shell(runner);
            proof {
                let o = choose|o: Result<Seq<u8>, Seq<char>>| decode_post(o, r);
                assert(get_post(platform, o, r));
            }
            r
        },
        Platform::Linux => {
            let r = get_via_linux_shell(runner);
            proof {
                let o = choose|o: Result<Seq<u8>, Seq<char>>| decode_post(o, r);
                assert(get_post(platform, o, r));
            }
            r
        },
        Platform::Other => {
            let r = Err(MachineIdError::UnsupportedPlatformError);
            proof {
                let o = Result::<Seq<u8>, Seq<char>>::Ok(Seq::empty());
                assert(get_post(platform, o, r));
            }
            r
        },
    }
}

} // verus!
