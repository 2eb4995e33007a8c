//! Which windows are listed, which window or monitor a request picks, and the
//! information reported about them.

use vstd::prelude::*;

use crate::text::{
    ascii_lowercase, contains_text, decimal, decimal_text, is_ascii_text, is_substring, lowercase,
    to_lowercase,
};

verus! {

/// Window information returned by `list_windows`.
#[derive(Debug)]
pub struct WindowInfo {
    pub id: u32,
    pub title: String,
    pub app_name: String,
    pub width: u32,
    pub height: u32,
    pub is_focused: bool,
}

/// Monitor information reported with a screen capture.
#[derive(Debug)]
pub struct MonitorInfo {
    pub id: u32,
    pub name: String,
    pub width: u32,
    pub height: u32,
    pub is_primary: bool,
}

/// What the platform reported about one window: each property is `None` where
/// the platform failed to report it.
#[derive(Debug)]
pub struct WindowRecord {
    pub id: Option<u32>,
    pub title: Option<String>,
    pub app_name: Option<String>,
    pub width: Option<u32>,
    pub height: Option<u32>,
    pub is_minimized: Option<bool>,
    pub is_focused: Option<bool>,
}

/// What the platform reported about one monitor: each property is `None` where
/// the platform failed to report it.
#[derive(Debug)]
pub struct MonitorRecord {
    pub id: Option<u32>,
    pub name: Option<String>,
    pub width: Option<u32>,
    pub height: Option<u32>,
    pub is_primary: Option<bool>,
}

/// A reported number, or 0 where none was reported.
pub open spec fn or_zero(o: Option<u32>) -> u32 {
    match o {
        Some(v) => v,
        None => 0,
    }
}

/// A reported flag, or `false` where none was reported.
pub open spec fn or_false(o: Option<bool>) -> bool {
    match o {
        Some(v) => v,
        None => false,
    }
}

/// A reported text, or the empty text where none was reported.
pub open spec fn or_empty(o: Option<String>) -> Seq<char> {
    match o {
        Some(s) => s@,
        None => seq![],
    }
}

/// `info` reports the window `w`, with defaults where `w` lacks a property.
pub open spec fn describes_window(info: WindowInfo, w: WindowRecord) -> bool {
    &&& info.id == or_zero(w.id)
    &&& info.title@ == or_empty(w.title)
    &&& info.app_name@ == or_empty(w.app_name)
    &&& info.width == or_zero(w.width)
    &&& info.height == or_zero(w.height)
    &&& info.is_focused == or_false(w.is_focused)
}

/// `info` reports the monitor `m`, with defaults where `m` lacks a property.
pub open spec fn describes_monitor(info: MonitorInfo, m: MonitorRecord) -> bool {
    &&& info.id == or_zero(m.id)
    &&& info.name@ == or_empty(m.name)
    &&& info.width == or_zero(m.width)
    &&& info.height == or_zero(m.height)
    &&& info.is_primary == or_false(m.is_primary)
}

/// A window is listed when it has a non-empty title, is not minimized and has
/// a non-zero width and height.
pub open spec fn is_listed(w: WindowRecord) -> bool {
    &&& or_empty(w.title).len() > 0
    &&& !or_false(w.is_minimized)
    &&& or_zero(w.width) != 0
    &&& or_zero(w.height) != 0
}

/// The window has a non-empty title, is not minimized and has a non-zero
/// width and height, each read from what the platform reported.
pub open spec fn visible(w: WindowRecord) -> bool {
    &&& or_empty(w.title).len() > 0
    &&& !or_false(w.is_minimized)
    &&& or_zero(w.width) != 0
    &&& or_zero(w.height) != 0
}

/// The listed windows among `ws`, in their order.
pub open spec fn listed_windows(ws: Seq<WindowRecord>) -> Seq<WindowRecord>
    decreases ws.len(),
{
    if ws.len() == 0 {
        seq![]
    } else {
        let rest = listed_windows(ws.drop_last());
        if is_listed(ws.last()) {
            rest.push(ws.last())
        } else {
            rest
        }
    }
}

/// The listed windows are the visible windows, in their order.
pub proof fn lemma_listed_is_visible_filter(ws: Seq<WindowRecord>)
    ensures
        listed_windows(ws) == ws.filter(|w: WindowRecord| visible(w)),
    decreases ws.len(),
{
    reveal(Seq::filter);
    if ws.len() > 0 {
        lemma_listed_is_visible_filter(ws.drop_last());
    }
}

/// Every visible window stands somewhere among the listed windows.
pub proof fn lemma_visible_window_is_kept(ws: Seq<WindowRecord>, j: int)
    requires
        0 <= j < ws.len(),
        visible(ws[j]),
    ensures
        exists|k: int| 0 <= k < listed_windows(ws).len() && #[trigger] listed_windows(ws)[k] == ws[j],
{
    lemma_listed_is_visible_filter(ws);
    ws.lemma_filter_contains(|w: WindowRecord| visible(w), j);
}

fn number_or_zero(o: &Option<u32>) -> (r: u32)
    ensures
        r == or_zero(*o),
{
    match o {
        Some(v) => *v,
        None => 0,
    }
}

fn flag_or_false(o: &Option<bool>) -> (r: bool)
    ensures
        r == or_false(*o),
{
    match o {
        Some(v) => *v,
        None => false,
    }
}

fn text_or_empty(o: &Option<String>) -> (r: String)
    ensures
        r@ == or_empty(*o),
{
    match o {
        Some(s) => s.clone(),
        None => String::new(),
    }
}

/// The information reported for a window; a property the platform failed to
/// report becomes 0, the empty text or `false`.
pub fn window_to_info(w: &WindowRecord) -> (r: WindowInfo)
    ensures
        describes_window(r, *w),
        r.id == or_zero(w.id),
        r.title@ == or_empty(w.title),
        r.app_name@ == or_empty(w.app_name),
        r.width == or_zero(w.width),
        r.height == or_zero(w.height),
        r.is_focused == or_false(w.is_focused),
{
    WindowInfo {
        id: number_or_zero(&w.id),
        title: text_or_empty(&w.title),
        app_name: text_or_empty(&w.app_name),
        width: number_or_zero(&w.width),
        height: number_or_zero(&w.height),
        is_focused: flag_or_false(&w.is_focused),
    }
}

/// The information reported for a monitor; a property the platform failed to
/// report becomes 0, the empty text or `false`.
pub fn monitor_to_info(m: &MonitorRecord) -> (r: MonitorInfo)
    ensures
        describes_monitor(r, *m),
        r.id == or_zero(m.id),
        r.name@ == or_empty(m.name),
        r.width == or_zero(m.width),
        r.height == or_zero(m.height),
        r.is_primary == or_false(m.is_primary),
{
    MonitorInfo {
        id: number_or_zero(&m.id),
        name: text_or_empty(&m.name),
        width: number_or_zero(&m.width),
        height: number_or_zero(&m.height),
        is_primary: flag_or_false(&m.is_primary),
    }
}

fn listed(w: &WindowRecord) -> (r: bool)
    ensures
        r == is_listed(*w),
{
    let has_title = match &w.title {
        Some(t) => !t.as_str().is_empty(),
        None => false,
    };
    has_title && !flag_or_false(&w.is_minimized) && number_or_zero(&w.width) != 0
        && number_or_zero(&w.height) != 0
}

/// All visible windows with non-empty titles: the listed windows, in the
/// order the platform reported them.
pub fn list_windows(windows: &Vec<WindowRecord>) -> (r: Vec<WindowInfo>)
    ensures
        r@.len() == listed_windows(windows@).len(),
        forall|k: int|
            0 <= k < r@.len() ==> describes_window(#[trigger] r@[k], listed_windows(windows@)[k]),
        forall|k: int|
            0 <= k < r@.len() ==> #[trigger] r@[k].title@.len() > 0 && r@[k].width > 0
                && r@[k].height > 0,
        r@.len() == windows@.filter(|w: WindowRecord| visible(w)).len(),
        forall|j: int|
            0 <= j < windows@.len() && visible(#[trigger] windows@[j]) ==> exists|k: int|
                0 <= k < r@.len() && describes_window(#[trigger] r@[k], windows@[j]),
{
    proof {
        lemma_listed_is_visible_filter(windows@);
    }
    let mut infos: Vec<WindowInfo> = Vec::new();
    let n = windows.len();
    let mut i: usize = 0;
    while i < n
        invariant
            n == windows@.len(),
            i <= n,
            infos@.len() == listed_windows(windows@.take(i as int)).len(),
            forall|k: int|
                0 <= k < infos@.len() ==> describes_window(
                    #[trigger] infos@[k],
                    listed_windows(windows@.take(i as int))[k],
                ),
            forall|k: int|
                0 <= k < infos@.len() ==> #[trigger] infos@[k].title@.len() > 0
                    && infos@[k].width > 0 && infos@[k].height > 0,
        decreases n - i,
    {
        let w = &windows[i];
        proof {
            assert(windows@.take(i + 1).drop_last() =~= windows@.take(i as int));
            assert(windows@.take(i + 1).last() == windows@[i as int]);
        }
        if listed(w) {
            let info = window_to_info(w);
            infos.push(info);
        }
        i = i + 1;
    }
    proof {
        assert(windows@.take(n as int) =~= windows@);
        assert forall|j: int|
            0 <= j < windows@.len() && visible(#[trigger] windows@[j]) implies exists|k: int|
                0 <= k < infos@.len() && describes_window(#[trigger] infos@[k], windows@[j]) by {
            lemma_visible_window_is_kept(windows@, j);
            let k = choose|k: int|
                0 <= k < listed_windows(windows@).len() && #[trigger] listed_windows(windows@)[k]
                    == windows@[j];
            assert(describes_window(infos@[k], listed_windows(windows@)[k]));
        }
    }
    infos
}


/// Why a window or monitor could not be found or captured.
#[derive(Debug)]
pub enum CaptureError {
    /// The platform could not list the windows; the text says why.
    WindowEnumeration(String),
    /// No window has the requested id.
    NoWindowWithId(u32),
    /// No window title holds the requested text.
    NoWindowMatchingTitle(String),
    /// Neither a title nor an id was given, and no window has the focus.
    NoFocusedWindow,
    /// The platform could not capture the window; the text says why.
    WindowCapture(String),
    /// The platform could not list the monitors; the text says why.
    MonitorEnumeration(String),
    /// No monitor has the requested id.
    NoMonitorWithId(u32),
    /// No monitor id was given, and no monitor is the primary one.
    NoPrimaryMonitor,
    /// The platform could not capture the monitor; the text says why.
    ScreenCapture(String),
}

/// The error's text, as it is reported to the client.
pub open spec fn capture_message(e: CaptureError) -> Seq<char> {
    match e {
        CaptureError::WindowEnumeration(d) => "Failed to enumerate windows: "@ + d@
            + ". On macOS, grant Screen Recording permission in System Settings → Privacy & Security → Screen Recording."@,
        CaptureError::NoWindowWithId(id) => "No window found with id "@ + decimal(id as nat),
        CaptureError::NoWindowMatchingTitle(t) => "No window found matching title \""@ + t@ + "\""@,
        CaptureError::NoFocusedWindow => "No focused window found. Specify a title or id."@,
        CaptureError::WindowCapture(d) => "Failed to capture window: "@ + d@,
        CaptureError::MonitorEnumeration(d) => "Failed to enumerate monitors: "@ + d@,
        CaptureError::NoMonitorWithId(id) => "No monitor found with id "@ + decimal(id as nat),
        CaptureError::NoPrimaryMonitor => "No primary monitor found"@,
        CaptureError::ScreenCapture(d) => "Failed to capture screen: "@ + d@,
    }
}

impl CaptureError {
    pub fn message(&self) -> (r: String)
        ensures
            r@ == capture_message(*self),
    {
        match self {
            CaptureError::WindowEnumeration(d) => {
                let mut s = "Failed to enumerate windows: ".to_owned();
                s.append(d.as_str());
                s.append(
                    ". On macOS, grant Screen Recording permission in System Settings → Privacy & Security → Screen Recording.",
                );
                s
            },
            CaptureError::NoWindowWithId(id) => {
                let mut s = "No window found with id ".to_owned();
                s.append(decimal_text(*id).as_str());
                s
            },
            CaptureError::NoWindowMatchingTitle(t) => {
                let mut s = "No window found matching title \"".to_owned();
                s.append(t.as_str());
                s.append("\"");
                s
            },
            CaptureError::NoFocusedWindow => "No focused window found. Specify a title or id.".to_owned(),
            CaptureError::WindowCapture(d) => {
                let mut s = "Failed to capture window: ".to_owned();
                s.append(d.as_str());
                s
            },
            CaptureError::MonitorEnumeration(d) => {
                let mut s = "Failed to enumerate monitors: ".to_owned();
                s.append(d.as_str());
                s
            },
            CaptureError::NoMonitorWithId(id) => {
                let mut s = "No monitor found with id ".to_owned();
                s.append(decimal_text(*id).as_str());
                s
            },
            CaptureError::NoPrimaryMonitor => "No primary monitor found".to_owned(),
            CaptureError::ScreenCapture(d) => {
                let mut s = "Failed to capture screen: ".to_owned();
                s.append(d.as_str());
                s
            },
        }
    }
}

/// `i` is the first position of `s` whose item satisfies `p`.
pub open spec fn is_first_match<T>(s: Seq<T>, i: int, p: spec_fn(T) -> bool) -> bool {
    &&& 0 <= i < s.len()
    &&& p(s[i])
    &&& forall|j: int| 0 <= j < i ==> !p(#[trigger] s[j])
}

/// No item of `s` satisfies `p`.
pub open spec fn no_match<T>(s: Seq<T>, p: spec_fn(T) -> bool) -> bool {
    forall|j: int| 0 <= j < s.len() ==> !p(#[trigger] s[j])
}

/// The window reports the id `id` (a window whose id is unknown counts as id 0).
pub open spec fn has_window_id(w: WindowRecord, id: u32) -> bool {
    or_zero(w.id) == id
}

/// The window's title, folded to lower case, holds the lower-cased query.
pub open spec fn title_matches(w: WindowRecord, lowered_query: Seq<char>) -> bool {
    is_substring(lowered_query, lowercase(or_empty(w.title)))
}

/// The window reports that it has the focus.
pub open spec fn is_focused_window(w: WindowRecord) -> bool {
    or_false(w.is_focused)
}

fn first_window_with_id(windows: &Vec<WindowRecord>, id: u32) -> (r: Option<usize>)
    ensures
        match r {
            Some(i) => is_first_match(windows@, i as int, |w: WindowRecord| has_window_id(w, id)),
            None => no_match(windows@, |w: WindowRecord| has_window_id(w, id)),
        },
{
    let n = windows.len();
    let mut i: usize = 0;
    while i < n
        invariant
            n == windows@.len(),
            i <= n,
            forall|j: int| 0 <= j < i ==> !has_window_id(#[trigger] windows@[j], id),
        decreases n - i,
    {
        if number_or_zero(&windows[i].id) == id {
            return Some(i);
        }
        i = i + 1;
    }
    None
}

fn first_focused_window(windows: &Vec<WindowRecord>) -> (r: Option<usize>)
    ensures
        match r {
            Some(i) => is_first_match(windows@, i as int, |w: WindowRecord| is_focused_window(w)),
            None => no_match(windows@, |w: WindowRecord| is_focused_window(w)),
        },
{
    let n = windows.len();
    let mut i: usize = 0;
    while i < n
        invariant
            n == windows@.len(),
            i <= n,
            forall|j: int| 0 <= j < i ==> !is_focused_window(#[trigger] windows@[j]),
        decreases n - i,
    {
        if flag_or_false(&windows[i].is_focused) {
            return Some(i);
        }
        i = i + 1;
    }
    None
}

/// The position of the first title, among titles already folded to lower case,
/// that holds the lower-cased query.
pub fn first_title_match(lowered_titles: &Vec<String>, lowered_query: &str) -> (r: Option<usize>)
    ensures
        match r {
            Some(i) => is_first_match(
                lowered_titles@,
                i as int,
                |t: String| is_substring(lowered_query@, t@),
            ),
            None => no_match(lowered_titles@, |t: String| is_substring(lowered_query@, t@)),
        },
{
    let n = lowered_titles.len();
    let mut i: usize = 0;
    while i < n
        invariant
            n == lowered_titles@.len(),
            i <= n,
            forall|j: int|
                0 <= j < i ==> !is_substring(lowered_query@, #[trigger] lowered_titles@[j]@),
        decreases n - i,
    {
        if contains_text(lowered_titles[i].as_str(), lowered_query) {
            return Some(i);
        }
        i = i + 1;
    }
    None
}

/// Finds a window: by exact id when one is given; else by title, as a
/// substring compared without regard to case; else the focused window. The
/// first window that qualifies is taken. Returns its position and information.
pub fn find_window(windows: &Vec<WindowRecord>, id: Option<u32>, title: Option<&str>) -> (r: Result<
    (usize, WindowInfo),
    CaptureError,
>)
    ensures
        match id {
            Some(target) => match r {
                Ok((i, info)) => is_first_match(
                    windows@,
                    i as int,
                    |w: WindowRecord| has_window_id(w, target),
                ) && describes_window(info, windows@[i as int]),
                Err(e) => no_match(windows@, |w: WindowRecord| has_window_id(w, target))
                    && e == CaptureError::NoWindowWithId(target),
            },
            None => match title {
                Some(q) => match r {
                    Ok((i, info)) => is_first_match(
                        windows@,
                        i as int,
                        |w: WindowRecord| title_matches(w, lowercase(q@)),
                    ) && describes_window(info, windows@[i as int]),
                    Err(e) => no_match(windows@, |w: WindowRecord| title_matches(w, lowercase(q@)))
                        && (e matches CaptureError::NoWindowMatchingTitle(t) && t@ == q@),
                },
                None => match r {
                    Ok((i, info)) => is_first_match(
                        windows@,
                        i as int,
                        |w: WindowRecord| is_focused_window(w),
                    ) && describes_window(info, windows@[i as int]),
                    Err(e) => no_match(windows@, |w: WindowRecord| is_focused_window(w))
                        && e == CaptureError::NoFocusedWindow,
                },
            },
        },
        id matches Some(target) ==> (r matches Ok((_, info)) ==> info.id == target),
        id is None && title is None ==> (r matches Ok((_, info)) ==> info.is_focused),
        title matches Some(q) ==> (id is None && is_ascii_text(q@) ==> match r {
            Ok((i, _)) => is_first_match(
                windows@,
                i as int,
                |w: WindowRecord| title_matches(w, ascii_lowercase(q@)),
            ),
            Err(_) => no_match(windows@, |w: WindowRecord| title_matches(w, ascii_lowercase(q@))),
        }),
        title matches Some(q) ==> (id is None ==> match r {
            Ok((i, _)) => {
                &&& 0 <= i < windows@.len()
                &&& is_substring(lowercase(q@), lowercase(or_empty(windows@[i as int].title)))
                &&& forall|j: int|
                    0 <= j < i ==> !is_substring(
                        lowercase(q@),
                        lowercase(or_empty(#[trigger] windows@[j].title)),
                    )
            },
            Err(_) => forall|j: int|
                0 <= j < windows@.len() ==> !is_substring(
                    lowercase(q@),
                    lowercase(or_empty(#[trigger] windows@[j].title)),
                ),
        }),
        id matches Some(t) ==> match r {
            Ok((i, _)) => 0 <= i < windows@.len() && or_zero(windows@[i as int].id) == t
                && forall|j: int| 0 <= j < i ==> or_zero(#[trigger] windows@[j].id) != t,
            Err(_) => forall|j: int| 0 <= j < windows@.len() ==> or_zero(#[trigger] windows@[j].id) != t,
        },
        id is None && title is None ==> match r {
            Ok((i, _)) => 0 <= i < windows@.len() && or_false(windows@[i as int].is_focused)
                && forall|j: int| 0 <= j < i ==> !or_false(#[trigger] windows@[j].is_focused),
            Err(_) => forall|j: int|
                0 <= j < windows@.len() ==> !or_false(#[trigger] windows@[j].is_focused),
        },
        r matches Ok((i, info)) ==> {
            &&& 0 <= i < windows@.len()
            &&& info.id == or_zero(windows@[i as int].id)
            &&& info.title@ == or_empty(windows@[i as int].title)
            &&& info.app_name@ == or_empty(windows@[i as int].app_name)
            &&& info.width == or_zero(windows@[i as int].width)
            &&& info.height == or_zero(windows@[i as int].height)
            &&& info.is_focused == or_false(windows@[i as int].is_focused)
        },
{
    match id {
        Some(target) => match first_window_with_id(windows, target) {
            Some(i) => Ok((i, window_to_info(&windows[i]))),
            None => Err(CaptureError::NoWindowWithId(target)),
        },
        None => match title {
            Some(q) => {
                let lowered_query = to_lowercase(q);
                let n = windows.len();
                let mut lowered: Vec<String> = Vec::new();
                let mut k: usize = 0;
                while k < n
                    invariant
                        n == windows@.len(),
                        k <= n,
                        lowered@.len() == k,
                        forall|j: int|
                            0 <= j < k ==> #[trigger] lowered@[j]@ == lowercase(
                                or_empty(windows@[j].title),
                            ),
                    decreases n - k,
                {
                    let t = text_or_empty(&windows[k].title);
                    lowered.push(to_lowercase(t.as_str()));
                    k = k + 1;
                }
                match first_title_match(&lowered, lowered_query.as_str()) {
                    Some(i) => {
                        proof {
                            assert forall|j: int| 0 <= j < i implies !title_matches(
                                #[trigger] windows@[j],
                                lowercase(q@),
                            ) by {
                                assert(!is_substring(lowered_query@, lowered@[j]@));
                            }
                            assert(is_substring(lowered_query@, lowered@[i as int]@));
                        }
                        Ok((i, window_to_info(&windows[i])))
                    },
                    None => {
                        proof {
                            assert forall|j: int| 0 <= j < windows@.len() implies !title_matches(
                                #[trigger] windows@[j],
                                lowercase(q@),
                            ) by {
                                assert(!is_substring(lowered_query@, lowered@[j]@));
                            }
                        }
                        Err(CaptureError::NoWindowMatchingTitle(q.to_owned()))
                    },
                }
            },
            None => match first_focused_window(windows) {
                Some(i) => Ok((i, window_to_info(&windows[i]))),
                None => Err(CaptureError::NoFocusedWindow),
            },
        },
    }
}

/// The monitor reports the id `id` (a monitor whose id is unknown counts as id 0).
pub open spec fn has_monitor_id(m: MonitorRecord, id: u32) -> bool {
    or_zero(m.id) == id
}

/// The monitor reports that it is the primary one.
pub open spec fn is_primary_monitor(m: MonitorRecord) -> bool {
    or_false(m.is_primary)
}

fn first_monitor_with_id(monitors: &Vec<MonitorRecord>, id: u32) -> (r: Option<usize>)
    ensures
        match r {
            Some(i) => is_first_match(monitors@, i as int, |m: MonitorRecord| has_monitor_id(m, id)),
            None => no_match(monitors@, |m: MonitorRecord| has_monitor_id(m, id)),
        },
{
    let n = monitors.len();
    let mut i: usize = 0;
    while i < n
        invariant
            n == monitors@.len(),
            i <= n,
            forall|j: int| 0 <= j < i ==> !has_monitor_id(#[trigger] monitors@[j], id),
        decreases n - i,
    {
        if number_or_zero(&monitors[i].id) == id {
            return Some(i);
        }
        i = i + 1;
    }
    None
}

fn first_primary_monitor(monitors: &Vec<MonitorRecord>) -> (r: Option<usize>)
    ensures
        match r {
            Some(i) => is_first_match(monitors@, i as int, |m: MonitorRecord| is_primary_monitor(m)),
            None => no_match(monitors@, |m: MonitorRecord| is_primary_monitor(m)),
        },
{
    let n = monitors.len();
    let mut i: usize = 0;
    while i < n
        invariant
            n == monitors@.len(),
            i <= n,
            forall|j: int| 0 <= j < i ==> !is_primary_monitor(#[trigger] monitors@[j]),
        decreases n - i,
    {
        if flag_or_false(&monitors[i].is_primary) {
            return Some(i);
        }
        i = i + 1;
    }
    None
}

/// Picks the monitor to capture: the first with the given id, or, when no id
/// is given, the first primary monitor. Returns its position and information.
pub fn select_monitor(monitors: &Vec<MonitorRecord>, monitor_id: Option<u32>) -> (r: Result<
    (usize, MonitorInfo),
    CaptureError,
>)
    ensures
        match monitor_id {
            Some(target) => match r {
                Ok((i, info)) => is_first_match(
                    monitors@,
                    i as int,
                    |m: MonitorRecord| has_monitor_id(m, target),
                ) && describes_monitor(info, monitors@[i as int]),
                Err(e) => no_match(monitors@, |m: MonitorRecord| has_monitor_id(m, target))
                    && e == CaptureError::NoMonitorWithId(target),
            },
            None => match r {
                Ok((i, info)) => is_first_match(
                    monitors@,
                    i as int,
                    |m: MonitorRecord| is_primary_monitor(m),
                ) && describes_monitor(info, monitors@[i as int]),
                Err(e) => no_match(monitors@, |m: MonitorRecord| is_primary_monitor(m))
                    && e == CaptureError::NoPrimaryMonitor,
            },
        },
        monitor_id matches Some(target) ==> (r matches Ok((_, info)) ==> info.id == target),
        monitor_id is None ==> (r matches Ok((_, info)) ==> info.is_primary),
        monitor_id matches Some(t) ==> match r {
            Ok((i, _)) => 0 <= i < monitors@.len() && or_zero(monitors@[i as int].id) == t
                && forall|j: int| 0 <= j < i ==> or_zero(#[trigger] monitors@[j].id) != t,
            Err(_) => forall|j: int| 0 <= j < monitors@.len() ==> or_zero(#[trigger] monitors@[j].id) != t,
        },
        monitor_id is None ==> match r {
            Ok((i, _)) => 0 <= i < monitors@.len() && or_false(monitors@[i as int].is_primary)
                && forall|j: int| 0 <= j < i ==> !or_false(#[trigger] monitors@[j].is_primary),
            Err(_) => forall|j: int|
                0 <= j < monitors@.len() ==> !or_false(#[trigger] monitors@[j].is_primary),
        },
        r matches Ok((i, info)) ==> {
            &&& 0 <= i < monitors@.len()
            &&& info.id == or_zero(monitors@[i as int].id)
            &&& info.name@ == or_empty(monitors@[i as int].name)
            &&& info.width == or_zero(monitors@[i as int].width)
            &&& info.height == or_zero(monitors@[i as int].height)
            &&& info.is_primary == or_false(monitors@[i as int].is_primary)
        },
{
    match monitor_id {
        Some(target) => match first_monitor_with_id(monitors, target) {
            Some(i) => Ok((i, monitor_to_info(&monitors[i]))),
            None => Err(CaptureError::NoMonitorWithId(target)),
        },
        None => match first_primary_monitor(monitors) {
            Some(i) => Ok((i, monitor_to_info(&monitors[i]))),
            None => Err(CaptureError::NoPrimaryMonitor),
        },
    }
}

} // verus!
