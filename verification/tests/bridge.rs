use spotdl_bridge::download::{
    download_invocation, download_start, download_step, install_message, next_invocation,
    run_error_message, success_message, tool_error_message, DownloadRequest, DownloadState,
};
use spotdl_bridge::host::system_info;
use spotdl_bridge::presence::{probe_invocation, tool_available};
use spotdl_bridge::process::{Invocation, ProcessOutcome};

fn exited(exit_zero: bool, stderr: &str) -> ProcessOutcome {
    ProcessOutcome::Exited {
        exit_zero,
        stdout: String::new(),
        stderr: stderr.to_string(),
    }
}

fn launch_failure(detail: &str) -> ProcessOutcome {
    ProcessOutcome::LaunchFailure {
        detail: detail.to_string(),
    }
}

/// Runs one download operation the way a host would: ask what to run,
/// pretend to run it by taking the next mocked outcome, and feed the
/// outcome back. Returns the final result and every invocation that was
/// issued along the way.
fn drive(
    req: &DownloadRequest,
    mut outcomes: Vec<ProcessOutcome>,
) -> (Result<spotdl_bridge::download::DownloadResponse, String>, Vec<Invocation>) {
    let mut issued: Vec<Invocation> = Vec::new();
    let mut state = download_start();
    loop {
        match next_invocation(&state, req) {
            Some(inv) => {
                issued.push(inv);
                let outcome = outcomes.remove(0);
                state = download_step(state, outcome);
            }
            None => break,
        }
    }
    match state {
        DownloadState::Done(result) => (result, issued),
        _ => panic!("operation stopped in a non-terminal state"),
    }
}

fn request(url: &str, path: &str) -> DownloadRequest {
    DownloadRequest {
        url: url.to_string(),
        path: path.to_string(),
    }
}

#[test]
fn download_exit_zero_succeeds_with_fixed_message() {
    let req = request("https://example.com/track", "/tmp/out");
    let (result, issued) = drive(&req, vec![exited(true, ""), exited(true, "")]);
    let response = result.expect("a zero exit must succeed");
    assert!(response.success);
    assert_eq!(response.message, "Descarga completada exitosamente");
    assert_eq!(issued.len(), 2);
}

#[test]
fn download_succeeds_regardless_of_url_and_path_content() {
    let req = request("not a url at all", "relative/dir");
    let (result, _) = drive(&req, vec![exited(true, ""), exited(true, "")]);
    let response = result.expect("a zero exit must succeed");
    assert!(response.success);
    assert_eq!(response.message, "Descarga completada exitosamente");
}

#[test]
fn probe_launch_failure_short_circuits_before_download_arguments() {
    let req = request("https://example.com/track", "/tmp/out");
    let (result, issued) = drive(&req, vec![launch_failure("program not found")]);
    let message = result.expect_err("a launch failure must fail the download");
    assert!(message.contains("Por favor instala spotdl primero"));
    assert_eq!(message, "spotdl no está instalado. Por favor instala spotdl primero.");
    // Only the probe was issued: nothing with the download arguments.
    assert_eq!(issued.len(), 1);
    assert_eq!(issued[0].args, vec!["--version".to_string()]);
    assert!(!issued[0].args.iter().any(|a| a == "--output"));
}

#[test]
fn download_nonzero_exit_reports_stderr_verbatim() {
    let req = request("https://example.com/track", "/tmp/out");
    let (result, _) = drive(&req, vec![exited(true, ""), exited(false, "Unsupported URL")]);
    let message = result.expect_err("a nonzero exit must fail the download");
    assert!(message.contains("Unsupported URL"));
    assert_eq!(message, "Error en spotdl: Unsupported URL");
}

#[test]
fn download_launch_failure_after_probe_reports_run_error() {
    let req = request("https://example.com/track", "/tmp/out");
    let (result, _) = drive(
        &req,
        vec![exited(true, ""), launch_failure("permission denied")],
    );
    let message = result.expect_err("a launch failure must fail the download");
    assert_eq!(message, "Error al ejecutar spotdl: permission denied");
}

#[test]
fn probe_nonzero_exit_still_reaches_the_download_run() {
    // The presence probe tolerates a nonzero version-query exit: the tool
    // ran, so the download is still attempted.
    let req = request("https://example.com/track", "/tmp/out");
    let (result, issued) = drive(&req, vec![exited(false, "odd tool"), exited(true, "")]);
    let response = result.expect("the download must still run and succeed");
    assert!(response.success);
    assert_eq!(issued.len(), 2);
    assert!(issued[1].args.iter().any(|a| a == "--output"));
}

#[test]
fn presence_check_yields_a_boolean_for_every_outcome() {
    assert!(!tool_available(&launch_failure("no such file")));
    assert!(tool_available(&exited(true, "")));
    assert!(tool_available(&exited(false, "version query failed")));
}

#[test]
fn probe_invocation_is_a_version_query() {
    let inv = probe_invocation();
    assert_eq!(inv.program, "spotdl");
    assert_eq!(inv.args, vec!["--version".to_string()]);
}

#[test]
fn download_invocation_arguments_are_exact() {
    let req = request("https://example.com/track", "/tmp/out");
    let inv = download_invocation(&req);
    assert_eq!(inv.program, "spotdl");
    assert_eq!(
        inv.args,
        vec![
            "https://example.com/track".to_string(),
            "--output".to_string(),
            "/tmp/out".to_string(),
            "--format".to_string(),
            "mp3".to_string(),
            "--bitrate".to_string(),
            "320k".to_string(),
        ]
    );
}

#[test]
fn message_builders_give_exact_text() {
    assert_eq!(success_message(), "Descarga completada exitosamente");
    assert_eq!(
        install_message(),
        "spotdl no está instalado. Por favor instala spotdl primero."
    );
    assert_eq!(run_error_message("boom"), "Error al ejecutar spotdl: boom");
    assert_eq!(tool_error_message("bad input"), "Error en spotdl: bad input");
}

#[test]
fn system_info_is_exact_and_deterministic() {
    let first = system_info("linux", "x86_64");
    let second = system_info("linux", "x86_64");
    assert_eq!(first, "OS: linux, Arch: x86_64");
    assert_eq!(first, second);
}
