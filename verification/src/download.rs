//! The download operation: one request to fetch an audio track or playlist
//! through the external tool, run as a two-phase protocol.
//!
//! A download first re-probes tool presence (a fresh version query, never a
//! cached answer), and only then runs the download command line. The caller
//! owns the subprocesses: it asks [`next_invocation`] what to run, runs it,
//! and feeds the [`ProcessOutcome`] back through [`download_step`] until the
//! state is `Done`.

use vstd::prelude::*;
use vstd::string::StringExecFns;

use crate::presence::{probe_invocation, spec_probe_invocation, spec_tool_program};
use crate::process::{Invocation, InvocationView, ProcessOutcome, ProcessOutcomeView};

verus! {

/// One download request: a source URL and a destination directory. Both are
/// forwarded to the external tool unvalidated; the tool is the source of
/// truth for whether a URL is supported.
#[derive(Debug)]
pub struct DownloadRequest {
    pub url: String,
    pub path: String,
}

/// Mathematical model of a [`DownloadRequest`].
pub ghost struct DownloadRequestView {
    pub url: Seq<char>,
    pub path: Seq<char>,
}

impl DownloadRequestView {
    /// A well-formed request has a non-empty URL and a non-empty
    /// destination path.
    pub open spec fn wf(self) -> bool {
        self.url.len() > 0 && self.path.len() > 0
    }
}

impl View for DownloadRequest {
    type V = DownloadRequestView;

    open spec fn view(&self) -> DownloadRequestView {
        DownloadRequestView { url: self.url@, path: self.path@ }
    }
}

/// A successful download's result: `success` is true and `message` carries
/// the fixed confirmation text. Failures travel on the error side of the
/// protocol's `Result` instead.
#[derive(Debug)]
pub struct DownloadResponse {
    pub success: bool,
    pub message: String,
}

/// Mathematical model of a [`DownloadResponse`].
pub ghost struct DownloadResponseView {
    pub success: bool,
    pub message: Seq<char>,
}

impl View for DownloadResponse {
    type V = DownloadResponseView;

    open spec fn view(&self) -> DownloadResponseView {
        DownloadResponseView { success: self.success, message: self.message@ }
    }
}

/// The fixed confirmation text of a completed download.
pub open spec fn spec_success_message() -> Seq<char> {
    "Descarga completada exitosamente"@
}

/// The error text when the presence probe shows the tool cannot be
/// launched: it tells the user the remedy is to install the tool.
pub open spec fn spec_install_message() -> Seq<char> {
    "spotdl no está instalado. Por favor instala spotdl primero."@
}

/// The error text when the download invocation itself could not run, with
/// the host's description of the launch failure appended.
pub open spec fn spec_run_error_message(detail: Seq<char>) -> Seq<char> {
    "Error al ejecutar spotdl: "@ + detail
}

/// The error text when the tool ran and exited nonzero, with the tool's own
/// captured standard-error text appended verbatim.
pub open spec fn spec_tool_error_message(stderr: Seq<char>) -> Seq<char> {
    "Error en spotdl: "@ + stderr
}

/// The fixed confirmation text as an owned string.
pub fn success_message() -> (message: String)
    ensures
        message@ == spec_success_message(),
{
    "Descarga completada exitosamente".to_owned()
}

/// The tool-not-installed error text as an owned string.
pub fn install_message() -> (message: String)
    ensures
        message@ == spec_install_message(),
{
    "spotdl no está instalado. Por favor instala spotdl primero.".to_owned()
}

/// The launch-failure error text for the host's description `detail`.
pub fn run_error_message(detail: &str) -> (message: String)
    ensures
        message@ == spec_run_error_message(detail@),
{
    "Error al ejecutar spotdl: ".to_owned().concat(detail)
}

/// The tool-reported error text for captured standard-error `stderr`.
pub fn tool_error_message(stderr: &str) -> (message: String)
    ensures
        message@ == spec_tool_error_message(stderr@),
{
    "Error en spotdl: ".to_owned().concat(stderr)
}

/// The download command line for a request: the URL as the positional
/// argument, then the destination directory, the output format fixed to a
/// lossy audio format, and the bitrate fixed to a constant high quality.
/// These four choices are policy, not configurable.
pub open spec fn spec_download_invocation(req: DownloadRequestView) -> InvocationView {
    InvocationView {
        program: spec_tool_program(),
        args: seq![
            req.url,
            "--output"@,
            req.path,
            "--format"@,
            "mp3"@,
            "--bitrate"@,
            "320k"@,
        ],
    }
}

/// Build the download command line for `req`.
pub fn download_invocation(req: &DownloadRequest) -> (inv: Invocation)
    ensures
        inv@ == spec_download_invocation(req@),
{
    let mut args: Vec<String> = Vec::new();
    args.push(req.url.clone());
    args.push("--output".to_owned());
    args.push(req.path.clone());
    args.push("--format".to_owned());
    args.push("mp3".to_owned());
    args.push("--bitrate".to_owned());
    args.push("320k".to_owned());
    let inv = Invocation { program: crate::presence::tool_program(), args };
    proof {
        assert(inv@.args =~= spec_download_invocation(req@).args);
    }
    inv
}

/// Where one download operation stands. Each request starts at `NeedProbe`
/// and moves forward only; `Done` is terminal and carries the operation's
/// result.
#[derive(Debug)]
pub enum DownloadState {
    /// The presence probe has not run yet.
    NeedProbe,
    /// The probe produced a process, so the tool is launchable; the real
    /// download run is next.
    NeedDownload,
    /// The operation is finished with this result.
    Done(Result<DownloadResponse, String>),
}

/// Mathematical model of a [`DownloadState`].
pub ghost enum DownloadStateView {
    NeedProbe,
    NeedDownload,
    Done(Result<DownloadResponseView, Seq<char>>),
}

impl View for DownloadState {
    type V = DownloadStateView;

    open spec fn view(&self) -> DownloadStateView {
        match self {
            DownloadState::NeedProbe => DownloadStateView::NeedProbe,
            DownloadState::NeedDownload => DownloadStateView::NeedDownload,
            DownloadState::Done(result) => DownloadStateView::Done(
                match result {
                    Ok(response) => Ok(response@),
                    Err(message) => Err(message@),
                },
            ),
        }
    }
}

/// The command line to run in a state: the probe first, then the download
/// command built from the request; a finished operation runs nothing.
pub open spec fn spec_next_invocation(
    state: DownloadStateView,
    req: DownloadRequestView,
) -> Option<InvocationView> {
    match state {
        DownloadStateView::NeedProbe => Some(spec_probe_invocation()),
        DownloadStateView::NeedDownload => Some(spec_download_invocation(req)),
        DownloadStateView::Done(_) => None,
    }
}

/// How one process outcome advances the operation.
///
/// From `NeedProbe`: a launch failure finishes at once with the
/// installation message — the download command line is never reached; any
/// exit, zero or nonzero, counts as "tool present" and moves on to the
/// download run. From `NeedDownload`: a launch failure fails with the
/// host's description, a zero exit succeeds with the fixed confirmation,
/// and a nonzero exit fails with the tool's standard-error text appended.
/// `Done` is terminal and absorbs any further outcome unchanged.
pub open spec fn spec_download_step(
    state: DownloadStateView,
    outcome: ProcessOutcomeView,
) -> DownloadStateView {
    match state {
        DownloadStateView::NeedProbe => match outcome {
            ProcessOutcomeView::LaunchFailure { .. } => DownloadStateView::Done(
                Err(spec_install_message()),
            ),
            ProcessOutcomeView::Exited { .. } => DownloadStateView::NeedDownload,
        },
        DownloadStateView::NeedDownload => match outcome {
            ProcessOutcomeView::LaunchFailure { detail } => DownloadStateView::Done(
                Err(spec_run_error_message(detail)),
            ),
            ProcessOutcomeView::Exited { exit_zero, stdout, stderr } => if exit_zero {
                DownloadStateView::Done(
                    Ok(DownloadResponseView { success: true, message: spec_success_message() }),
                )
            } else {
                DownloadStateView::Done(Err(spec_tool_error_message(stderr)))
            },
        },
        DownloadStateView::Done(result) => DownloadStateView::Done(result),
    }
}

/// The state a fresh download operation starts in.
pub fn download_start() -> (state: DownloadState)
    ensures
        state@ == DownloadStateView::NeedProbe,
{
    DownloadState::NeedProbe
}

/// The command line to run next for `req`, or `None` once the operation is
/// finished.
pub fn next_invocation(state: &DownloadState, req: &DownloadRequest) -> (inv: Option<Invocation>)
    ensures
        ({
            let planned = spec_next_invocation(state@, req@);
            match inv {
                Some(i) => planned == Some(i@),
                None => planned is None,
            }
        }),
{
    match state {
        DownloadState::NeedProbe => Some(probe_invocation()),
        DownloadState::NeedDownload => Some(download_invocation(req)),
        DownloadState::Done(_) => None,
    }
}

/// Advance the operation by one process outcome.
pub fn download_step(state: DownloadState, outcome: ProcessOutcome) -> (next: DownloadState)
    ensures
        next@ == spec_download_step(state@, outcome@),
{
    match state {
        DownloadState::NeedProbe => match outcome {
            ProcessOutcome::LaunchFailure { .. } => DownloadState::Done(Err(install_message())),
            ProcessOutcome::Exited { .. } => DownloadState::NeedDownload,
        },
        DownloadState::NeedDownload => match outcome {
            ProcessOutcome::LaunchFailure { detail } => DownloadState::Done(
                Err(run_error_message(detail.as_str())),
            ),
            ProcessOutcome::Exited { exit_zero, stdout: _, stderr } => if exit_zero {
                DownloadState::Done(
                    Ok(DownloadResponse { success: true, message: success_message() }),
                )
            } else {
                DownloadState::Done(Err(tool_error_message(stderr.as_str())))
            },
        },
        DownloadState::Done(result) => DownloadState::Done(result),
    }
}

/// Law: for every well-formed request, when the probe produces a process —
/// whatever its exit status — and the download run exits zero, the
/// operation finishes successfully with the fixed confirmation message,
/// regardless of the URL and path content; and the run between the two
/// outcomes is exactly the download command line built from the request.
pub proof fn lemma_download_success(
    req: DownloadRequestView,
    probe: ProcessOutcomeView,
    run: ProcessOutcomeView,
)
    requires
        req.wf(),
        probe is Exited,
        run matches ProcessOutcomeView::Exited { exit_zero: true, .. },
    ensures
        spec_download_step(DownloadStateView::NeedProbe, probe) == DownloadStateView::NeedDownload,
        spec_next_invocation(DownloadStateView::NeedDownload, req) == Some(
            spec_download_invocation(req),
        ),
        spec_download_step(DownloadStateView::NeedDownload, run) == DownloadStateView::Done(
            Ok::<DownloadResponseView, Seq<char>>(
                (DownloadResponseView { success: true, message: spec_success_message() }),
            ),
        ),
{
}

/// Law: a probe that could not be launched finishes the operation at once
/// with the installation message, and the finished state issues no further
/// command line — in particular, the download arguments are never built.
pub proof fn lemma_probe_short_circuit(req: DownloadRequestView, probe: ProcessOutcomeView)
    requires
        probe is LaunchFailure,
    ensures
        spec_download_step(DownloadStateView::NeedProbe, probe) == DownloadStateView::Done(
            Err::<DownloadResponseView, Seq<char>>(spec_install_message()),
        ),
        spec_next_invocation(
            spec_download_step(DownloadStateView::NeedProbe, probe),
            req,
        ) is None,
{
}

/// Law: when the download run exits nonzero with captured standard-error
/// text `stderr`, the operation fails and the error message carries that
/// text verbatim — it is exactly the final part of the message.
pub proof fn lemma_tool_error_verbatim(stdout: Seq<char>, stderr: Seq<char>)
    ensures
        spec_download_step(
            DownloadStateView::NeedDownload,
            (ProcessOutcomeView::Exited { exit_zero: false, stdout, stderr }),
        ) == DownloadStateView::Done(
            Err::<DownloadResponseView, Seq<char>>(spec_tool_error_message(stderr)),
        ),
        spec_tool_error_message(stderr).len() >= stderr.len(),
        spec_tool_error_message(stderr).subrange(
            spec_tool_error_message(stderr).len() - stderr.len(),
            spec_tool_error_message(stderr).len() as int,
        ) == stderr,
{
    assert(spec_tool_error_message(stderr).subrange(
        spec_tool_error_message(stderr).len() - stderr.len(),
        spec_tool_error_message(stderr).len() as int,
    ) =~= stderr);
}

} // verus!
