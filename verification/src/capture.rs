//! The decision-and-bookkeeping half of the screenshot-capture pipeline: the
//! window-info fallback, the capture timestamp and file name, the closed
//! error taxonomy, and the assembly of the result record. The pipeline's
//! outside work — querying the foreground window, creating the destination
//! directory, grabbing and saving the frame — is done by the caller around
//! these functions; the local wall-clock reading comes from `chrono` behind
//! one trusted wrapper.

use chrono::Datelike;
use chrono::Timelike;
use vstd::prelude::*;
use vstd::string::StringExecFns;

use crate::categorize::{categorize_activity, lower_of, spec_categorize};
use crate::digits::{push_pad2, push_pad4, spec_pad2, spec_pad4};

verus! {

/// A local wall-clock reading broken into its calendar fields.
#[derive(Clone, Copy, Debug)]
pub struct LocalTime {
    pub year: i32,
    pub month: u32,
    pub day: u32,
    pub hour: u32,
    pub minute: u32,
    pub second: u32,
}

impl LocalTime {
    /// The field ranges of a calendar reading.
    pub open spec fn wf(self) -> bool {
        &&& 1 <= self.month <= 12
        &&& 1 <= self.day <= 31
        &&& self.hour <= 23
        &&& self.minute <= 59
        &&& self.second <= 59
    }
}

/// Relies on `chrono::Local::now` and chrono's `Datelike`/`Timelike`
/// accessors: `month()` ranges over 1 to 12, `day()` over 1 to 31, `hour()`
/// over 0 to 23, and `minute()` and `second()` over 0 to 59.
#[verifier::external_body]
fn local_now() -> (t: LocalTime)
    ensures
        t.wf(),
{
    let now = chrono::Local::now();
    LocalTime {
        year: now.year(),
        month: now.month(),
        day: now.day(),
        hour: now.hour(),
        minute: now.minute(),
        second: now.second(),
    }
}

/// The year field of the timestamp: four digits zero-padded, growing beyond
/// four for larger years, with a leading minus sign for years before year
/// zero.
pub open spec fn spec_year(y: int) -> Seq<char> {
    if y < 0 {
        seq!['-'] + spec_pad4((-y) as nat)
    } else {
        spec_pad4(y as nat)
    }
}

/// The capture timestamp rendering `YYYY-MM-DD_HH-MM-SS` of a calendar
/// reading, every field zero-padded.
pub open spec fn spec_timestamp(t: LocalTime) -> Seq<char> {
    spec_year(t.year as int) + seq!['-'] + spec_pad2(t.month as nat) + seq!['-'] + spec_pad2(
        t.day as nat,
    ) + seq!['_'] + spec_pad2(t.hour as nat) + seq!['-'] + spec_pad2(t.minute as nat) + seq!['-']
        + spec_pad2(t.second as nat)
}

/// Renders a calendar reading as the capture timestamp `YYYY-MM-DD_HH-MM-SS`.
/// The rendering has one-second resolution: two readings within the same
/// wall-clock second render identically.
pub fn format_timestamp(t: &LocalTime) -> (r: String)
    ensures
        r@ == spec_timestamp(*t),
{
    let mut r = String::new();
    let y: i64 = t.year as i64;
    if y < 0 {
        r.append("-");
        proof {
            reveal_strlit("-");
        }
        push_pad4(&mut r, (-y) as u64);
        proof {
            assert(r@ =~= spec_year(t.year as int));
        }
    } else {
        push_pad4(&mut r, y as u64);
    }
    r.append("-");
    push_pad2(&mut r, t.month as u64);
    r.append("-");
    push_pad2(&mut r, t.day as u64);
    r.append("_");
    push_pad2(&mut r, t.hour as u64);
    r.append("-");
    push_pad2(&mut r, t.minute as u64);
    r.append("-");
    push_pad2(&mut r, t.second as u64);
    proof {
        reveal_strlit("-");
        reveal_strlit("_");
        assert(r@ =~= spec_timestamp(*t));
    }
    r
}

/// The name of the file a capture is persisted under, for a given timestamp.
pub open spec fn spec_filename(timestamp: Seq<char>) -> Seq<char> {
    "screenshot_"@ + timestamp + ".png"@
}

/// Builds the capture file name `screenshot_<timestamp>.png`.
pub fn screenshot_filename(timestamp: &str) -> (r: String)
    ensures
        r@ == spec_filename(timestamp@),
{
    let mut r = String::from_str("screenshot_");
    r.append(timestamp);
    r.append(".png");
    r
}

/// The foreground window as the OS reports it: application name and title.
#[derive(Debug)]
pub struct WindowInfo {
    pub app_name: String,
    pub title: String,
}

/// The application name the capture is categorized under: the queried one,
/// or the sentinel when the window query failed.
pub open spec fn window_app(win: Option<WindowInfo>) -> Seq<char> {
    if win is Some {
        win.unwrap().app_name@
    } else {
        "Unknown"@
    }
}

/// The window title the capture is categorized under: the queried one, or
/// the sentinel when the window query failed.
pub open spec fn window_title(win: Option<WindowInfo>) -> Seq<char> {
    if win is Some {
        win.unwrap().title@
    } else {
        "Unknown"@
    }
}

/// Substitutes the sentinel `("Unknown", "Unknown")` when the window query
/// came back empty, so a failed query degrades the input instead of failing
/// the capture.
pub fn window_or_unknown(win: Option<WindowInfo>) -> (r: WindowInfo)
    ensures
        r.app_name@ == window_app(win),
        r.title@ == window_title(win),
{
    match win {
        Some(w) => w,
        None => WindowInfo {
            app_name: String::from_str("Unknown"),
            title: String::from_str("Unknown"),
        },
    }
}

/// Why a capture invocation failed, one variant per stage: resolving or
/// creating the destination directory, finding a display, grabbing the
/// frame, writing the file, or joining the offloaded worker. Each variant
/// but `NoDisplay` carries the underlying cause's message.
#[derive(Debug)]
pub enum CaptureError {
    Directory(String),
    NoDisplay,
    Capture(String),
    Save(String),
    Join(String),
}

impl CaptureError {
    /// The message reported to the caller for this failure.
    pub open spec fn spec_message(self) -> Seq<char> {
        match self {
            CaptureError::Directory(m) => m@,
            CaptureError::NoDisplay => "No screen found"@,
            CaptureError::Capture(m) => m@,
            CaptureError::Save(m) => m@,
            CaptureError::Join(m) => m@,
        }
    }

    /// Renders the failure as the string handed to the caller.
    pub fn message(&self) -> (r: String)
        ensures
            r@ == self.spec_message(),
    {
        match self {
            CaptureError::Directory(m) => m.clone(),
            CaptureError::NoDisplay => String::from_str("No screen found"),
            CaptureError::Capture(m) => m.clone(),
            CaptureError::Save(m) => m.clone(),
            CaptureError::Join(m) => m.clone(),
        }
    }
}

/// What one capture invocation settles synchronously, before any pixel is
/// read: the category, the timestamp, and the file name derived from it.
#[derive(Debug)]
pub struct CapturePlan {
    pub category: String,
    pub timestamp: String,
    pub filename: String,
}

/// The record returned to the caller for one successful capture; the backend
/// does not retain it.
#[derive(Debug)]
pub struct ScreenshotResult {
    pub path: String,
    pub category: String,
    pub timestamp: String,
}

/// Plans a capture from the window-query outcome and a wall-clock reading:
/// the category of the (possibly sentinel) window fields, the timestamp, and
/// the file name `screenshot_<timestamp>.png`.
pub fn plan_capture(win: Option<WindowInfo>, t: &LocalTime) -> (p: CapturePlan)
    ensures
        p.category@ == spec_categorize(lower_of(window_app(win)), lower_of(window_title(win))),
        p.timestamp@ == spec_timestamp(*t),
        p.filename@ == spec_filename(p.timestamp@),
{
    let w = window_or_unknown(win);
    let category = categorize_activity(w.app_name.as_str(), w.title.as_str());
    let timestamp = format_timestamp(t);
    let filename = screenshot_filename(timestamp.as_str());
    CapturePlan { category, timestamp, filename }
}

/// Plans a capture at the current local wall-clock time. The timestamp is
/// that of some well-formed calendar reading; the category and file name are
/// pinned as in [`plan_capture`].
pub fn plan_capture_now(win: Option<WindowInfo>) -> (p: CapturePlan)
    ensures
        p.category@ == spec_categorize(lower_of(window_app(win)), lower_of(window_title(win))),
        exists|t: LocalTime| t.wf() && p.timestamp@ == spec_timestamp(t),
        p.filename@ == spec_filename(p.timestamp@),
{
    let t = local_now();
    plan_capture(win, &t)
}

/// Settles one capture invocation from the worker's outcome: on success the
/// result record carries the destination path and the plan's category and
/// timestamp; any failure is handed through unchanged, and no partial record
/// is produced.
pub fn finish_capture(plan: CapturePlan, path: String, worker: Result<(), CaptureError>) -> (r:
    Result<ScreenshotResult, CaptureError>)
    ensures
        worker is Ok ==> r is Ok && r.unwrap().path@ == path@ && r.unwrap().category@
            == plan.category@ && r.unwrap().timestamp@ == plan.timestamp@,
        worker is Err ==> r is Err && r.unwrap_err() == worker.unwrap_err(),
{
    match worker {
        Ok(()) => Ok(
            ScreenshotResult { path, category: plan.category, timestamp: plan.timestamp },
        ),
        Err(e) => Err(e),
    }
}

} // verus!
