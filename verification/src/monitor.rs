//! What the tools outside report about the windows on the machine: the list
//! that window discovery prints, and the status of one monitored instance.

use crate::json::{
    json_i64, json_of, json_parse, json_u64, member, parse_value, value_as_array, value_as_i64,
    value_as_u64, value_get, Json,
};
use crate::session::{read_string, string_member};
use vstd::prelude::*;
use vstd::string::*;

verus! {

/// One window that discovery found.
#[derive(Debug)]
pub struct ScanResult {
    pub window_title: String,
    pub window_handle: i64,
    pub process_id: u32,
}

/// Mathematical value of a [`ScanResult`].
pub struct ScanResultView {
    pub window_title: Seq<char>,
    pub window_handle: i64,
    pub process_id: u32,
}

impl View for ScanResult {
    type V = ScanResultView;

    open spec fn view(&self) -> ScanResultView {
        ScanResultView {
            window_title: self.window_title@,
            window_handle: self.window_handle,
            process_id: self.process_id,
        }
    }
}

/// Status of one monitored instance.
#[derive(Debug)]
pub struct InstanceStatus {
    pub status: String,
    pub current_issue: u32,
    pub total_issues: u32,
    pub retry_count: u32,
    pub last_activity: u64,
    pub step_count: u32,
}

/// Mathematical value of an [`InstanceStatus`].
pub struct InstanceStatusView {
    pub status: Seq<char>,
    pub current_issue: u32,
    pub total_issues: u32,
    pub retry_count: u32,
    pub last_activity: u64,
    pub step_count: u32,
}

impl View for InstanceStatus {
    type V = InstanceStatusView;

    open spec fn view(&self) -> InstanceStatusView {
        InstanceStatusView {
            status: self.status@,
            current_issue: self.current_issue,
            total_issues: self.total_issues,
            retry_count: self.retry_count,
            last_activity: self.last_activity,
            step_count: self.step_count,
        }
    }
}

impl InstanceStatus {
    /// The status of an instance that does nothing: all counters at zero.
    /// `now` is the time of the report, in milliseconds since the epoch.
    pub fn idle(now: u64) -> (r: InstanceStatus)
        ensures
            r@ == (InstanceStatusView {
                status: "idle"@,
                current_issue: 0,
                total_issues: 0,
                retry_count: 0,
                last_activity: now,
                step_count: 0,
            }),
    {
        InstanceStatus {
            status: String::from_str("idle"),
            current_issue: 0,
            total_issues: 0,
            retry_count: 0,
            last_activity: now,
            step_count: 0,
        }
    }
}

/// What `str::trim` leaves of a text: the text without the white space at
/// its two ends.
pub uninterp spec fn trimmed(text: Seq<char>) -> Seq<char>;

/// Calls `str::trim`. The result is the text named [`trimmed`].
#[verifier::external_body]
fn trim(text: &str) -> (r: &str)
    ensures
        r@ == trimmed(text@),
{
    text.trim()
}

/// Whether `pattern` occurs in `text` as a run of adjoining characters.
pub open spec fn occurs_in(pattern: Seq<char>, text: Seq<char>) -> bool {
    exists|i: int|
        0 <= i && i + pattern.len() <= text.len() && #[trigger] text.subrange(
            i,
            i + pattern.len(),
        ) == pattern
}

/// Calls `str::contains` with a string as the pattern: whether the pattern
/// occurs somewhere in the text.
#[verifier::external_body]
fn contains(text: &str, pattern: &str) -> (r: bool)
    ensures
        r == occurs_in(pattern@, text@),
{
    text.contains(pattern)
}

/// Whether a window with this title is one to bring to the front for the
/// workspace named: its title holds the workspace's name, unless that is
/// empty, or the name of one of the two editors.
pub open spec fn is_target(title: Seq<char>, workspace: Seq<char>) -> bool {
    (workspace.len() > 0 && occurs_in(workspace, title)) || occurs_in("Antigravity"@, title)
        || occurs_in("Visual Studio Code"@, title)
}

/// Tells whether a window with this title is one to bring to the front for
/// the workspace named.
pub fn is_target_window(title: &str, workspace: &str) -> (r: bool)
    ensures
        r == is_target(title@, workspace@),
{
    (!workspace.is_empty() && contains(title, workspace)) || contains(title, "Antigravity")
        || contains(title, "Visual Studio Code")
}

/// The number under `key` in a JSON object, as `Value::as_i64` reads it.
pub open spec fn i64_member(doc: Json, key: Seq<char>) -> Option<i64> {
    match member(doc, key) {
        Some(number) => json_i64(number),
        None => None,
    }
}

/// The number under `key` in a JSON object, as `Value::as_u64` reads it,
/// where it fits in 32 bits.
pub open spec fn u32_member(doc: Json, key: Seq<char>) -> Option<u32> {
    match member(doc, key) {
        Some(number) => match json_u64(number) {
            Some(n) => if n <= u32::MAX {
                Some(n as u32)
            } else {
                None
            },
            None => None,
        },
        None => None,
    }
}

/// The window that a JSON document describes: an object with a string
/// `windowTitle`, an integer `windowHandle` and a 32-bit `processId`.
pub open spec fn window_of(doc: Json) -> Option<ScanResultView> {
    match (
        string_member(doc, "windowTitle"@),
        i64_member(doc, "windowHandle"@),
        u32_member(doc, "processId"@),
    ) {
        (Some(window_title), Some(window_handle), Some(process_id)) => Some(
            ScanResultView { window_title, window_handle, process_id },
        ),
        _ => None,
    }
}

/// Why the output of window discovery could not be read.
#[derive(Debug, Clone, Copy, PartialEq, Eq, Structural)]
pub enum ScanError {
    /// The output starts like a list but is not a list of windows.
    NotAList,
    /// The output is not the description of one window.
    NotAWindow,
}

/// The form that the output of window discovery takes.
#[derive(Debug, Clone, Copy, PartialEq, Eq, Structural)]
pub enum ScanShape {
    /// Nothing but white space: no window was found.
    Empty,
    /// A list of windows.
    List,
    /// One window, not wrapped in a list.
    Single,
}

/// The form of an output: by what is left of it without the white space
/// around it, and by whether that starts with `[`.
pub open spec fn shape_of(output: Seq<char>) -> ScanShape {
    let rest = trimmed(output);
    if rest.len() == 0 {
        ScanShape::Empty
    } else if rest[0] == '[' {
        ScanShape::List
    } else {
        ScanShape::Single
    }
}

/// The windows that a list of JSON documents describes, if each describes one.
pub open spec fn windows_of(items: Seq<Json>) -> Option<Seq<ScanResultView>> {
    if forall|i: int| 0 <= i < items.len() ==> window_of(#[trigger] items[i]) is Some {
        Some(Seq::new(items.len(), |i: int| window_of(items[i])->0))
    } else {
        None
    }
}

/// What an output of window discovery means, given what the JSON parser
/// makes of it: no window for an empty output, the windows of a list, or the
/// one window of an output that is no list.
pub open spec fn scan_of(output: Seq<char>) -> Result<Seq<ScanResultView>, ScanError> {
    match shape_of(output) {
        ScanShape::Empty => Ok(Seq::empty()),
        ScanShape::List => match json_parse(output) {
            Some(Json::Array(items)) => match windows_of(items) {
                Some(windows) => Ok(windows),
                None => Err(ScanError::NotAList),
            },
            _ => Err(ScanError::NotAList),
        },
        ScanShape::Single => match json_parse(output) {
            Some(doc) => match window_of(doc) {
                Some(window) => Ok(seq![window]),
                None => Err(ScanError::NotAWindow),
            },
            None => Err(ScanError::NotAWindow),
        },
    }
}

/// The values of a list of windows.
pub open spec fn windows_view(windows: Seq<ScanResult>) -> Seq<ScanResultView> {
    windows.map_values(|w: ScanResult| w@)
}

impl ScanResult {
    /// Reads one window from a parsed JSON document.
    pub fn from_json(doc: &serde_json::Value) -> (r: Option<ScanResult>)
        ensures
            match r {
                Some(window) => window_of(json_of(*doc)) == Some(window@),
                None => window_of(json_of(*doc)).is_none(),
            },
    {
        let window_title = read_string(doc, "windowTitle");
        let window_handle = match value_get(doc, "windowHandle") {
            Some(member) => value_as_i64(member),
            None => None,
        };
        let process_id = match value_get(doc, "processId") {
            Some(member) => match value_as_u64(member) {
                Some(n) => if n <= 0xffff_ffff {
                    Some(n as u32)
                } else {
                    None
                },
                None => None,
            },
            None => None,
        };
        match (window_title, window_handle, process_id) {
            (Some(window_title), Some(window_handle), Some(process_id)) => Some(
                ScanResult { window_title, window_handle, process_id },
            ),
            _ => None,
        }
    }

    /// Reads a list of windows from the elements of a parsed JSON array.
    pub fn list_from_json(items: &Vec<serde_json::Value>) -> (r: Option<Vec<ScanResult>>)
        ensures
            match r {
                Some(windows) => windows_of(
                    items@.map_values(|item: serde_json::Value| json_of(item)),
                ) == Some(windows_view(windows@)),
                None => windows_of(
                    items@.map_values(|item: serde_json::Value| json_of(item)),
                ).is_none(),
            },
    {
        let ghost docs = items@.map_values(|item: serde_json::Value| json_of(item));
        let mut out: Vec<ScanResult> = Vec::new();
        let mut i: usize = 0;
        while i < items.len()
            invariant
                i <= items.len(),
                docs == items@.map_values(|item: serde_json::Value| json_of(item)),
                out@.len() == i,
                forall|j: int| 0 <= j < i ==> window_of(#[trigger] docs[j]) == Some(out@[j]@),
            decreases items.len() - i,
        {
            match ScanResult::from_json(&items[i]) {
                Some(window) => {
                    out.push(window);
                },
                None => {
                    assert(window_of(docs[i as int]).is_none());
                    return None;
                },
            }
            i += 1;
        }
        assert(windows_of(docs)->0 =~= windows_view(out@));
        Some(out)
    }
}

/// Tells which form an output of window discovery has.
pub fn scan_shape(output: &str) -> (r: ScanShape)
    ensures
        r == shape_of(output@),
{
    let rest = trim(output);
    if rest.is_empty() {
        ScanShape::Empty
    } else if rest.get_char(0) == '[' {
        ScanShape::List
    } else {
        ScanShape::Single
    }
}

/// Reads the output of window discovery: no window where it is empty, the
/// windows of a list, or the one window of an output that is no list.
pub fn parse_scan_output(output: &str) -> (r: Result<Vec<ScanResult>, ScanError>)
    ensures
        match r {
            Ok(windows) => scan_of(output@) == Ok::<Seq<ScanResultView>, ScanError>(
                windows_view(windows@),
            ),
            Err(e) => scan_of(output@) == Err::<Seq<ScanResultView>, ScanError>(e),
        },
{
    match scan_shape(output) {
        ScanShape::Empty => {
            let windows: Vec<ScanResult> = Vec::new();
            assert(windows_view(windows@) =~= Seq::<ScanResultView>::empty());
            Ok(windows)
        },
        ScanShape::List => {
            let doc = match parse_value(output) {
                Some(doc) => doc,
                None => { return Err(ScanError::NotAList); },
            };
            match value_as_array(&doc) {
                Some(items) => match ScanResult::list_from_json(items) {
                    Some(windows) => Ok(windows),
                    None => Err(ScanError::NotAList),
                },
                None => Err(ScanError::NotAList),
            }
        },
        ScanShape::Single => {
            let doc = match parse_value(output) {
                Some(doc) => doc,
                None => { return Err(ScanError::NotAWindow); },
            };
            match ScanResult::from_json(&doc) {
                Some(window) => {
                    let mut windows: Vec<ScanResult> = Vec::new();
                    windows.push(window);
                    assert(windows_view(windows@) =~= seq![window@]);
                    Ok(windows)
                },
                None => Err(ScanError::NotAWindow),
            }
        },
    }
}

} // verus!
