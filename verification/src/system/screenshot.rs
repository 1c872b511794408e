//! Screenshot capture and text extraction on Linux: which tools are tried
//! and in what order, how the outcome of each run is read, and where the
//! text recognition script and interpreter are looked for.
//!
//! Running the tools and probing the file system are left to the caller,
//! which reports each outcome and asks for the next step.
use vstd::prelude::*;

use crate::model::Platform;
use crate::paths::{join_path, path_join};
use crate::text;
use crate::text::{push_chars, skip_ws_back, string_of, string_of_range, to_chars, trim_chars};

verus! {

/// A screenshot tool: its command and the arguments that come before the
/// output path.
#[derive(Debug, Clone)]
pub struct ScreenshotTool {
    pub name: String,
    pub args: Vec<String>,
}

/// A way to capture a region.
#[derive(Debug, Clone)]
pub enum CaptureMethod {
    /// Run the tool with the output path appended.
    Tool(ScreenshotTool),
    /// Select the region with `slurp`, then capture it with `grim`.
    GrimSlurp,
}

/// A method by its command and arguments (`None` for grim and slurp).
pub open spec fn method_view(m: CaptureMethod) -> Option<(Seq<char>, Seq<Seq<char>>)> {
    match m {
        CaptureMethod::Tool(t) => Some((t.name@, t.args@.map_values(|a: String| a@))),
        CaptureMethod::GrimSlurp => None,
    }
}

/// The capture methods in order of preference: flameshot, maim, grim with
/// slurp, scrot, gnome-screenshot, spectacle.
pub open spec fn capture_plan() -> Seq<Option<(Seq<char>, Seq<Seq<char>>)>> {
    seq![
        Some(("flameshot"@, seq!["gui"@, "--path"@])),
        Some(("maim"@, seq!["-s"@])),
        None,
        Some(("scrot"@, seq!["-s"@])),
        Some(("gnome-screenshot"@, seq!["-a"@, "--file"@])),
        Some(("spectacle"@, seq!["-r"@, "-b"@, "-o"@])),
    ]
}

fn tool(name: &str, args: Vec<String>) -> (t: CaptureMethod)
    ensures
        method_view(t) == Some((name@, args@.map_values(|a: String| a@))),
{
    CaptureMethod::Tool(ScreenshotTool { name: name.to_owned(), args })
}

/// The capture methods, in the order they are tried.
pub fn capture_methods() -> (r: Vec<CaptureMethod>)
    ensures
        r@.map_values(|m: CaptureMethod| method_view(m)) == capture_plan(),
{
    let mut r: Vec<CaptureMethod> = Vec::new();
    let a1 = vec!["gui".to_owned(), "--path".to_owned()];
    assert(a1@.map_values(|a: String| a@) =~= seq!["gui"@, "--path"@]);
    r.push(tool("flameshot", a1));
    let a2 = vec!["-s".to_owned()];
    assert(a2@.map_values(|a: String| a@) =~= seq!["-s"@]);
    r.push(tool("maim", a2));
    r.push(CaptureMethod::GrimSlurp);
    let a3 = vec!["-s".to_owned()];
    assert(a3@.map_values(|a: String| a@) =~= seq!["-s"@]);
    r.push(tool("scrot", a3));
    let a4 = vec!["-a".to_owned(), "--file".to_owned()];
    assert(a4@.map_values(|a: String| a@) =~= seq!["-a"@, "--file"@]);
    r.push(tool("gnome-screenshot", a4));
    let a5 = vec!["-r".to_owned(), "-b".to_owned(), "-o".to_owned()];
    assert(a5@.map_values(|a: String| a@) =~= seq!["-r"@, "-b"@, "-o"@]);
    r.push(tool("spectacle", a5));
    assert(r@.map_values(|m: CaptureMethod| method_view(m)) =~= capture_plan());
    r
}

/// How a run of a tool went.
#[derive(Debug, Clone)]
pub enum ToolRun {
    /// The tool is not installed (`--version` could not be run).
    Unavailable,
    /// The tool could not be started.
    LaunchFailed,
    /// The tool ran: whether it succeeded, its exit code, and whether the
    /// output file exists afterwards.
    Finished { success: bool, exit_code: Option<i32>, file_exists: bool },
}

pub open spec fn cancelled_text() -> Seq<char> {
    "Screenshot selection cancelled"@
}

/// What a tool run gives: the path of the screenshot, the cancellation
/// (exit code 1), or nothing, in which case the next method is tried.
pub open spec fn spec_tool_attempt(run: ToolRun, output_path: Seq<char>) -> Option<Result<Seq<char>, Seq<char>>> {
    match run {
        ToolRun::Finished { success, exit_code, file_exists } => if !success {
            if exit_code == Some(1i32) { Some(Err(cancelled_text())) } else { None }
        } else if file_exists {
            Some(Ok(output_path))
        } else {
            None
        },
        _ => None,
    }
}

/// An attempt's outcome as values.
pub open spec fn attempt_view(r: Option<Result<String, String>>) -> Option<Result<Seq<char>, Seq<char>>> {
    match r {
        Some(Ok(p)) => Some(Ok(p@)),
        Some(Err(m)) => Some(Err(m@)),
        None => None,
    }
}

/// What a run of a single-command tool gives (see [`spec_tool_attempt`]).
pub fn tool_attempt(run: ToolRun, output_path: &str) -> (r: Option<Result<String, String>>)
    ensures
        attempt_view(r) == spec_tool_attempt(run, output_path@),
{
    match run {
        ToolRun::Finished { success, exit_code, file_exists } => {
            if !success {
                if exit_code == Some(1i32) {
                    Some(Err("Screenshot selection cancelled".to_owned()))
                } else {
                    None
                }
            } else if file_exists {
                Some(Ok(output_path.to_owned()))
            } else {
                None
            }
        },
        _ => None,
    }
}

/// What the region selection with `slurp` gave.
#[derive(Debug, Clone)]
pub enum SlurpOutcome {
    /// Try the next method.
    Skip,
    /// The user cancelled the selection.
    Cancelled,
    /// Capture this region with `grim`.
    Region(String),
}

/// How a run of `slurp` went.
#[derive(Debug, Clone)]
pub enum SlurpRun {
    /// `grim` or `slurp` is not installed.
    Unavailable,
    /// `slurp` could not be started.
    LaunchFailed,
    /// `slurp` ran: whether it succeeded, its exit code and its output.
    Finished { success: bool, exit_code: Option<i32>, stdout: String },
}

/// What the `slurp` run means: cancelled on exit code 1, another failure
/// or an empty selection skips to the next method, otherwise the trimmed
/// output is the region.
pub fn slurp_region(run: SlurpRun) -> (r: SlurpOutcome)
    ensures
        match run {
            SlurpRun::Finished { success, exit_code, stdout } => if !success {
                if exit_code == Some(1i32) { r is Cancelled } else { r is Skip }
            } else if text::trim(stdout@).len() == 0 {
                r is Skip
            } else {
                r matches SlurpOutcome::Region(g) && g@ == text::trim(stdout@)
            },
            _ => r is Skip,
        },
{
    match run {
        SlurpRun::Finished { success, exit_code, stdout } => {
            if !success {
                if exit_code == Some(1i32) {
                    SlurpOutcome::Cancelled
                } else {
                    SlurpOutcome::Skip
                }
            } else {
                let t = trim_chars(to_chars(stdout.as_str()).as_slice());
                if t.len() == 0 {
                    SlurpOutcome::Skip
                } else {
                    SlurpOutcome::Region(string_of(t.as_slice()))
                }
            }
        },
        _ => SlurpOutcome::Skip,
    }
}

/// What the grim and slurp method gives, from the `slurp` outcome and,
/// for a region, the `grim` run: the path when `grim` succeeded and wrote
/// the file, the cancellation, or nothing.
pub fn grim_slurp_attempt(slurp: SlurpOutcome, grim: ToolRun, output_path: &str) -> (r: Option<Result<String, String>>)
    ensures
        attempt_view(r) == match slurp {
            SlurpOutcome::Skip => None,
            SlurpOutcome::Cancelled => Some(Err(cancelled_text())),
            SlurpOutcome::Region(_) => match grim {
                ToolRun::Finished { success, exit_code: _, file_exists } => if success && file_exists {
                    Some(Ok(output_path@))
                } else {
                    None
                },
                _ => None,
            },
        },
{
    match slurp {
        SlurpOutcome::Skip => None,
        SlurpOutcome::Cancelled => Some(Err("Screenshot selection cancelled".to_owned())),
        SlurpOutcome::Region(_) => match grim {
            ToolRun::Finished { success, exit_code: _, file_exists } => {
                if success && file_exists {
                    Some(Ok(output_path.to_owned()))
                } else {
                    None
                }
            },
            _ => None,
        },
    }
}

/// The next step of a capture.
#[derive(Debug)]
pub enum CaptureStep {
    /// Try the method with this index in [`capture_methods`].
    Try(usize),
    /// The capture is over: the screenshot's path, or the error.
    Finished(Result<String, String>),
}

pub open spec fn no_tools_text() -> Seq<char> {
    "No screenshot tools available. Please install flameshot, maim, grim+slurp, scrot, gnome-screenshot, or spectacle"@
}

/// The next step of capturing a region, after `attempts` methods were tried
/// and the last one gave `last`: a method that gave an outcome ends the
/// capture with it; otherwise the next method is tried, and when none is
/// left the capture fails.
pub fn capture_region(attempts: usize, last: Option<Result<String, String>>) -> (r: CaptureStep)
    ensures
        last is Some ==> (r matches CaptureStep::Finished(x) && Some(x) == last),
        last is None && attempts < capture_plan().len() ==> r == CaptureStep::Try(attempts),
        last is None && attempts >= capture_plan().len() ==> (r matches CaptureStep::Finished(Err(m))
            && m@ == no_tools_text()),
{
    match last {
        Some(x) => CaptureStep::Finished(x),
        None => if attempts < 6 {
            CaptureStep::Try(attempts)
        } else {
            CaptureStep::Finished(Err("No screenshot tools available. Please install flameshot, maim, grim+slurp, scrot, gnome-screenshot, or spectacle".to_owned()))
        },
    }
}

/// How a region is captured on a platform.
#[derive(Debug, Clone, Copy, PartialEq, Eq, Structural)]
pub enum CaptureBackend {
    /// macOS: `screencapture -i` (see [`screencapture_result`]).
    Screencapture,
    /// Linux: the screenshot tools of [`capture_methods`], in order (see
    /// [`capture_region`]).
    Tools,
}

pub open spec fn unsupported_capture_text() -> Seq<char> {
    "Screenshot region selection is only supported on macOS and Linux"@
}

/// How a screen region is captured on `platform`: with `screencapture` on
/// macOS, with the screenshot tools on Linux; elsewhere region selection is
/// not supported and this is the error.
pub fn capture_backend(platform: Platform) -> (r: Result<CaptureBackend, String>)
    ensures
        platform == Platform::MacOs ==> r == Ok::<CaptureBackend, String>(CaptureBackend::Screencapture),
        platform == Platform::Linux ==> r == Ok::<CaptureBackend, String>(CaptureBackend::Tools),
        platform == Platform::Windows ==> (r matches Err(m) && m@ == unsupported_capture_text()),
{
    match platform {
        Platform::MacOs => Ok(CaptureBackend::Screencapture),
        Platform::Linux => Ok(CaptureBackend::Tools),
        Platform::Windows => Err("Screenshot region selection is only supported on macOS and Linux".to_owned()),
    }
}

// ----------------------------------------------------------------------------
// Text extraction
// ----------------------------------------------------------------------------

pub open spec fn script_name() -> Seq<char> {
    "extract_text_from_image.py"@
}

/// Where the text recognition script is looked for, in order: beside the
/// executable, in the directory above it, in the application's "bin"
/// directory under the data directory, and in "install" under the working
/// directory.
pub open spec fn spec_script_candidates(
    exe_dir: Option<String>,
    exe_parent_dir: Option<String>,
    data_dir: Option<String>,
) -> Seq<Seq<char>> {
    (match exe_dir {
        Some(d) => seq![path_join(d@, script_name())],
        None => seq![],
    }) + (match exe_parent_dir {
        Some(d) => seq![path_join(d@, script_name())],
        None => seq![],
    }) + (match data_dir {
        Some(d) => seq![path_join(path_join(path_join(d@, "insight-reader"@), "bin"@), script_name())],
        None => seq![],
    }) + seq!["install/extract_text_from_image.py"@]
}

/// The places to look for the text recognition script, in order.
pub fn script_candidates(
    exe_dir: &Option<String>,
    exe_parent_dir: &Option<String>,
    data_dir: &Option<String>,
) -> (r: Vec<String>)
    ensures
        r@.map_values(|s: String| s@) == spec_script_candidates(*exe_dir, *exe_parent_dir, *data_dir),
{
    let mut r: Vec<String> = Vec::new();
    if let Some(d) = exe_dir {
        r.push(join_path(d.as_str(), "extract_text_from_image.py"));
    }
    if let Some(d) = exe_parent_dir {
        r.push(join_path(d.as_str(), "extract_text_from_image.py"));
    }
    if let Some(d) = data_dir {
        let a = join_path(d.as_str(), "insight-reader");
        let b = join_path(a.as_str(), "bin");
        r.push(join_path(b.as_str(), "extract_text_from_image.py"));
    }
    r.push("install/extract_text_from_image.py".to_owned());
    assert(r@.map_values(|s: String| s@) =~= spec_script_candidates(*exe_dir, *exe_parent_dir, *data_dir));
    r
}

/// Where the virtual environment's Python is looked for, in order: under
/// the working directory, then under the application's data directory.
/// When neither exists, "python3" is used.
pub open spec fn spec_python_candidates(cwd: Option<String>, data_dir: Option<String>) -> Seq<Seq<char>> {
    (match cwd {
        Some(c) => seq![path_join(path_join(path_join(c@, "venv"@), "bin"@), "python"@)],
        None => seq![],
    }) + (match data_dir {
        Some(d) => seq![path_join(path_join(path_join(path_join(d@, "insight-reader"@), "venv"@), "bin"@), "python"@)],
        None => seq![],
    })
}

fn venv_python_under(base: &str) -> (r: String)
    ensures
        r@ == path_join(path_join(path_join(base@, "venv"@), "bin"@), "python"@),
{
    let a = join_path(base, "venv");
    let b = join_path(a.as_str(), "bin");
    join_path(b.as_str(), "python")
}

/// The places to look for the virtual environment's Python, in order.
pub fn python_candidates(cwd: &Option<String>, data_dir: &Option<String>) -> (r: Vec<String>)
    ensures
        r@.map_values(|s: String| s@) == spec_python_candidates(*cwd, *data_dir),
{
    let mut r: Vec<String> = Vec::new();
    if let Some(c) = cwd {
        r.push(venv_python_under(c.as_str()));
    }
    if let Some(d) = data_dir {
        let a = join_path(d.as_str(), "insight-reader");
        r.push(venv_python_under(a.as_str()));
    }
    assert(r@.map_values(|s: String| s@) =~= spec_python_candidates(*cwd, *data_dir));
    r
}

/// How the text recognition script ran.
#[derive(Debug, Clone)]
pub enum OcrRun {
    /// The interpreter could not be started (the system's message).
    LaunchFailed(String),
    /// The script ran: whether it succeeded, its exit code, and what it
    /// printed.
    Finished { success: bool, exit_code: Option<i32>, stdout: String, stderr: String },
}

/// How far text extraction got.
#[derive(Debug, Clone)]
pub enum OcrStep {
    /// The image file does not exist.
    ImageMissing,
    /// No text recognition script was found.
    ScriptMissing,
    /// The script was run.
    Ran(OcrRun),
}

pub open spec fn no_text_text() -> Seq<char> {
    "No text found in image"@
}

/// The name of the text recognition script on a platform.
pub open spec fn platform_script(platform: Platform) -> Seq<char> {
    if platform == Platform::MacOs { "extract_text_from_image.swift"@ } else { script_name() }
}

/// The recognized text kept from the script's output: trailing whitespace
/// (the script's final line break) is dropped; everything before it,
/// leading whitespace and inner line breaks included, is kept.
pub open spec fn kept_output(platform: Platform, stdout: Seq<char>) -> Seq<char> {
    text::trim_end(stdout)
}

pub open spec fn unsupported_ocr_text() -> Seq<char> {
    "Text extraction from images is only supported on macOS and Linux"@
}

/// The text recognized in an image, or the error: extraction is not
/// supported on Windows; otherwise the checks before the run, a failed
/// start, a failed run (exit code 1 with no error output means no text was
/// found), or empty output.
pub open spec fn spec_extract_text(platform: Platform, image_path: Seq<char>, step: OcrStep) -> Result<Seq<char>, Seq<char>> {
    if platform == Platform::Windows {
        Err(unsupported_ocr_text())
    } else {
        match step {
            OcrStep::ImageMissing => Err("Image file does not exist: "@ + image_path),
            OcrStep::ScriptMissing => Err(platform_script(platform) + " script not found"@),
            OcrStep::Ran(OcrRun::LaunchFailed(e)) => Err("Failed to execute text extraction: "@ + e@),
            OcrStep::Ran(OcrRun::Finished { success, exit_code, stdout, stderr }) => if !success {
                if exit_code == Some(1i32) && text::trim(stderr@).len() == 0 {
                    Err(no_text_text())
                } else {
                    Err("Text extraction failed: "@ + text::trim(stderr@))
                }
            } else if kept_output(platform, stdout@).len() == 0 {
                Err(no_text_text())
            } else {
                Ok(kept_output(platform, stdout@))
            },
        }
    }
}

/// The text recognized in the image `image_path` on `platform`, from how
/// far extraction got (see [`spec_extract_text`]).
pub fn extract_text_from_image(platform: Platform, image_path: &str, step: OcrStep) -> (r: Result<String, String>)
    ensures
        r is Ok <==> spec_extract_text(platform, image_path@, step) is Ok,
        r is Ok ==> r->Ok_0@ == spec_extract_text(platform, image_path@, step)->Ok_0,
        r is Err ==> r->Err_0@ == spec_extract_text(platform, image_path@, step)->Err_0,
{
    if platform == Platform::Windows {
        return Err("Text extraction from images is only supported on macOS and Linux".to_owned());
    }
    match step {
        OcrStep::ImageMissing => {
            let mut m = "Image file does not exist: ".to_owned();
            push_chars(&mut m, to_chars(image_path).as_slice());
            Err(m)
        },
        OcrStep::ScriptMissing => {
            let mut m = if platform == Platform::MacOs {
                "extract_text_from_image.swift".to_owned()
            } else {
                "extract_text_from_image.py".to_owned()
            };
            push_chars(&mut m, to_chars(" script not found").as_slice());
            Err(m)
        },
        OcrStep::Ran(OcrRun::LaunchFailed(e)) => {
            let mut m = "Failed to execute text extraction: ".to_owned();
            push_chars(&mut m, to_chars(e.as_str()).as_slice());
            Err(m)
        },
        OcrStep::Ran(OcrRun::Finished { success, exit_code, stdout, stderr }) => {
            if !success {
                let err = trim_chars(to_chars(stderr.as_str()).as_slice());
                if exit_code == Some(1i32) && err.len() == 0 {
                    return Err("No text found in image".to_owned());
                }
                let mut m = "Text extraction failed: ".to_owned();
                push_chars(&mut m, err.as_slice());
                return Err(m);
            }
            let out = to_chars(stdout.as_str());
            let j = skip_ws_back(out.as_slice(), 0, out.len());
            assert(out@.subrange(0, out@.len() as int) =~= out@);
            let t = string_of_range(out.as_slice(), 0, j);
            let kept = to_chars(t.as_str());
            if kept.len() == 0 {
                return Err("No text found in image".to_owned());
            }
            Ok(string_of(kept.as_slice()))
        },
    }
}

/// The lines that are not blank, in order.
pub open spec fn nonblank_lines(lines: Seq<Seq<char>>) -> Seq<Seq<char>>
    decreases lines.len(),
{
    if lines.len() == 0 {
        seq![]
    } else if text::trim(lines.last()).len() > 0 {
        nonblank_lines(lines.drop_last()).push(lines.last())
    } else {
        nonblank_lines(lines.drop_last())
    }
}

/// The text of the lines a native recognizer returned: the lines that are
/// not blank, joined by line breaks; an error when none is left.
pub open spec fn spec_text_from_lines(lines: Seq<Seq<char>>) -> Result<Seq<char>, Seq<char>> {
    let joined = text::join(nonblank_lines(lines), seq!['\n']);
    if text::trim(joined).len() == 0 {
        Err(no_text_text())
    } else {
        Ok(joined)
    }
}

/// The text of the lines a native recognizer returned (see
/// [`spec_text_from_lines`]).
pub fn text_from_ocr_lines(lines: &Vec<String>) -> (r: Result<String, String>)
    ensures
        r is Ok <==> spec_text_from_lines(lines@.map_values(|l: String| l@)) is Ok,
        r is Ok ==> r->Ok_0@ == spec_text_from_lines(lines@.map_values(|l: String| l@))->Ok_0,
        r is Err ==> r->Err_0@ == spec_text_from_lines(lines@.map_values(|l: String| l@))->Err_0,
{
    let ghost views = lines@.map_values(|l: String| l@);
    let mut kept: Vec<Vec<char>> = Vec::new();
    let mut i: usize = 0;
    while i < lines.len()
        invariant
            i <= lines@.len(),
            views == lines@.map_values(|l: String| l@),
            kept@.map_values(|p: Vec<char>| p@) == nonblank_lines(views.take(i as int)),
        decreases lines.len() - i,
    {
        let c = to_chars(lines[i].as_str());
        let t = trim_chars(c.as_slice());
        let ghost before = kept@;
        assert(views.take(i + 1).drop_last() =~= views.take(i as int));
        assert(views[i as int] == c@);
        if t.len() > 0 {
            kept.push(c);
            assert(kept@.map_values(|p: Vec<char>| p@) =~= before.map_values(|p: Vec<char>| p@).push(views[i as int]));
        }
        i += 1;
    }
    assert(views.take(lines@.len() as int) =~= views);
    let sep = ['\n'];
    assert(sep@ =~= seq!['\n']);
    let joined = text::join_chars(&kept, &sep);
    let check = trim_chars(joined.as_slice());
    if check.len() == 0 {
        return Err("No text found in image".to_owned());
    }
    Ok(string_of(joined.as_slice()))
}

/// How a run of the interactive capture command `screencapture -i`
/// (macOS) went.
#[derive(Debug, Clone)]
pub enum ScreencaptureRun {
    /// It could not be started (the system's message).
    LaunchFailed(String),
    /// It ran: whether it succeeded, its exit code, its error output, and
    /// whether the screenshot file exists afterwards.
    Finished { success: bool, exit_code: Option<i32>, stderr: String, file_exists: bool },
}

/// The screenshot taken by `screencapture -i`, or the error:
/// a failed start, the cancellation (exit code 1), another failure, or a
/// missing file.
pub open spec fn spec_screencapture_result(run: ScreencaptureRun, output_path: Seq<char>) -> Result<Seq<char>, Seq<char>> {
    match run {
        ScreencaptureRun::LaunchFailed(e) => Err("Failed to execute screenshot command: "@ + e@),
        ScreencaptureRun::Finished { success, exit_code, stderr, file_exists } => if !success {
            if exit_code == Some(1i32) {
                Err(cancelled_text())
            } else {
                Err("Screenshot failed: "@ + text::trim(stderr@))
            }
        } else if !file_exists {
            Err("Screenshot file was not created"@)
        } else {
            Ok(output_path)
        },
    }
}

/// The screenshot taken by `screencapture -i` (see
/// [`spec_screencapture_result`]).
pub fn screencapture_result(run: ScreencaptureRun, output_path: &str) -> (r: Result<String, String>)
    ensures
        r is Ok <==> spec_screencapture_result(run, output_path@) is Ok,
        r is Ok ==> r->Ok_0@ == spec_screencapture_result(run, output_path@)->Ok_0,
        r is Err ==> r->Err_0@ == spec_screencapture_result(run, output_path@)->Err_0,
{
    match run {
        ScreencaptureRun::LaunchFailed(e) => {
            let mut m = "Failed to execute screenshot command: ".to_owned();
            push_chars(&mut m, to_chars(e.as_str()).as_slice());
            Err(m)
        },
        ScreencaptureRun::Finished { success, exit_code, stderr, file_exists } => {
            if !success {
                if exit_code == Some(1i32) {
                    return Err("Screenshot selection cancelled".to_owned());
                }
                let mut m = "Screenshot failed: ".to_owned();
                push_chars(&mut m, trim_chars(to_chars(stderr.as_str()).as_slice()).as_slice());
                return Err(m);
            }
            if !file_exists {
                return Err("Screenshot file was not created".to_owned());
            }
            Ok(output_path.to_owned())
        },
    }
}

} // verus!
