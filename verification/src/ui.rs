//! The control panel's state and the decisions behind what it shows: the
//! capture mode, the area selected on screen, the window's minimizing while
//! recording, the messages and the labels.
use vstd::prelude::*;
use vstd::string::*;

use crate::recorder::{
    clock_failure_text, stopped, start_plan, Phase, Plan, Recorder, RecorderState, StartAction,
    StartEvent,
};
use crate::timestamp::{recording_file_name_text, Timestamp};
use crate::text::{
    decimal, digits_value, law_padded_denotes, lemma_decimal_len_bound, lemma_padded_len, padded,
    push_decimal, push_two_digits,
};

verus! {

/// What the panel records.
#[derive(Clone, Copy, Debug, PartialEq, Eq, Structural)]
pub enum SelectedMode {
    Fullscreen,
    Region,
}

/// A rectangle of the screen, in pixels.
#[derive(Clone, Copy, Debug, PartialEq, Eq, Structural)]
pub struct RecordingRegion {
    pub x: u32,
    pub y: u32,
    pub width: u32,
    pub height: u32,
}

impl RecordingRegion {
    pub fn new(x: u32, y: u32, width: u32, height: u32) -> (r: Self)
        ensures
            r == (RecordingRegion { x, y, width, height }),
    {
        RecordingRegion { x, y, width, height }
    }
}

/// The smallest width and height, in pixels, of a selected area.
pub const MIN_REGION_SIDE: u32 = 20;

/// The area spanned by a drag whose corners, clamped at zero and truncated to
/// whole pixels, are `(min_x, min_y)` and `(max_x, max_y)`: kept only when
/// it is at least `MIN_REGION_SIDE` pixels wide and high.
pub open spec fn selected_area(min_x: u32, min_y: u32, max_x: u32, max_y: u32) -> Option<
    RecordingRegion,
> {
    let w = if max_x >= min_x { (max_x - min_x) as u32 } else { 0u32 };
    let h = if max_y >= min_y { (max_y - min_y) as u32 } else { 0u32 };
    if w >= MIN_REGION_SIDE && h >= MIN_REGION_SIDE {
        Some(RecordingRegion { x: min_x, y: min_y, width: w, height: h })
    } else {
        None
    }
}

/// The area spanned by a drag; see `selected_area`.
pub fn selection_region(min_x: u32, min_y: u32, max_x: u32, max_y: u32) -> (r: Option<
    RecordingRegion,
>)
    ensures
        r == selected_area(min_x, min_y, max_x, max_y),
{
    let w = max_x.saturating_sub(min_x);
    let h = max_y.saturating_sub(min_y);
    if w >= MIN_REGION_SIDE && h >= MIN_REGION_SIDE {
        Some(RecordingRegion::new(min_x, min_y, w, h))
    } else {
        None
    }
}

/// The area spanned by a drag from `start` to `end`, whichever way it went:
/// its corners are the smaller and the larger coordinates of the two points.
pub open spec fn dragged_area(start: (u32, u32), end: (u32, u32)) -> Option<RecordingRegion> {
    let min_x = if start.0 <= end.0 { start.0 } else { end.0 };
    let max_x = if start.0 <= end.0 { end.0 } else { start.0 };
    let min_y = if start.1 <= end.1 { start.1 } else { end.1 };
    let max_y = if start.1 <= end.1 { end.1 } else { start.1 };
    selected_area(min_x, min_y, max_x, max_y)
}

/// The area spanned by a drag from `start` to `end`; see `dragged_area`.
pub fn drag_region(start: (u32, u32), end: (u32, u32)) -> (r: Option<RecordingRegion>)
    ensures
        r == dragged_area(start, end),
{
    let (min_x, max_x) = if start.0 <= end.0 { (start.0, end.0) } else { (end.0, start.0) };
    let (min_y, max_y) = if start.1 <= end.1 { (start.1, end.1) } else { (end.1, start.1) };
    selection_region(min_x, min_y, max_x, max_y)
}

/// A pixel count rounded down to an even number, as the size badge shows it.
pub fn even_floor(n: u32) -> (r: u32)
    ensures
        r == n - n % 2,
{
    let r = n & !1u32;
    assert(n & !1u32 == n - n % 2) by (bit_vector);
    r
}

/// The badge shown beside a selection: ` W × H px `.
pub open spec fn badge_text(width: u32, height: u32) -> Seq<char> {
    " "@ + decimal(width as nat) + " × "@ + decimal(height as nat) + " px "@
}

/// The badge shown beside a selection of `width` by `height` pixels.
pub fn selection_badge(width: u32, height: u32) -> (s: String)
    ensures
        s@ == badge_text(width, height),
{
    let mut s = " ".to_owned();
    push_decimal(&mut s, width as u64);
    s.append(" × ");
    push_decimal(&mut s, height as u64);
    s.append(" px ");
    s
}

/// The label of a selected area: `Area: W×H px`.
pub open spec fn area_label_text(r: RecordingRegion) -> Seq<char> {
    "Area: "@ + decimal(r.width as nat) + "×"@ + decimal(r.height as nat) + " px"@
}

/// The label of a selected area.
pub fn area_label(r: &RecordingRegion) -> (s: String)
    ensures
        s@ == area_label_text(*r),
{
    let mut s = "Area: ".to_owned();
    push_decimal(&mut s, r.width as u64);
    s.append("×");
    push_decimal(&mut s, r.height as u64);
    s.append(" px");
    s
}

/// The running time of a recording as `MM:SS`: whole minutes and the
/// remaining seconds, each zero-padded to two digits (minutes may take more).
pub open spec fn timer_text_of(elapsed_secs: u64) -> Seq<char> {
    padded((elapsed_secs / 60) as nat, 2) + ":"@ + padded((elapsed_secs % 60) as nat, 2)
}

/// The running time of a recording, shown while recording.
pub fn timer_text(elapsed_secs: u64) -> (s: String)
    ensures
        s@ == timer_text_of(elapsed_secs),
{
    let mut s = String::new();
    push_two_digits(&mut s, elapsed_secs / 60);
    s.append(":");
    push_two_digits(&mut s, elapsed_secs % 60);
    assert(s@ =~= timer_text_of(elapsed_secs));
    s
}

/// The line under the record button: the frame rate, the format, and what is
/// captured.
pub open spec fn summary_text_of(mode: SelectedMode, region: Option<RecordingRegion>) -> Seq<char> {
    match (mode, region) {
        (SelectedMode::Region, Some(r)) => "30 FPS  ·  MP4  ·  "@ + decimal(r.width as nat) + "×"@
            + decimal(r.height as nat),
        _ => "30 FPS  ·  MP4  ·  Fullscreen"@,
    }
}

/// What becomes of the window when the recording state is looked at again.
#[derive(Clone, Copy, Debug, PartialEq, Eq, Structural)]
pub enum WindowChange {
    /// Nothing changes.
    Keep,
    /// A recording began: minimize the window so that it is not captured.
    Minimize,
    /// A recording ended: restore the window and focus it.
    Restore,
}

/// The window's change when the recorder is `recording` and the panel last
/// saw `was_recording`.
pub open spec fn window_change(recording: bool, was_recording: bool) -> WindowChange {
    if recording && !was_recording {
        WindowChange::Minimize
    } else if !recording && was_recording {
        WindowChange::Restore
    } else {
        WindowChange::Keep
    }
}

/// A message under the controls.
pub enum Notice {
    /// Why the last recording could not start.
    Error(String),
    /// Where the last recording was saved: `Saved: PATH`.
    Saved(String),
}

/// A `Notice` by the text it shows.
pub enum NoticeText {
    Error(Seq<char>),
    Saved(Seq<char>),
}

impl View for Notice {
    type V = NoticeText;

    open spec fn view(&self) -> NoticeText {
        match self {
            Notice::Error(s) => NoticeText::Error(s@),
            Notice::Saved(s) => NoticeText::Saved(s@),
        }
    }
}

/// The panel's state. The recorder is kept whole, its start time included.
pub struct Panel {
    pub recorder: Recorder,
    pub mode: SelectedMode,
    pub region: Option<RecordingRegion>,
    pub selecting: bool,
    pub error: Option<Seq<char>>,
    pub was_recording: bool,
    pub launching: bool,
}

/// A selected area is never smaller than `MIN_REGION_SIDE` in either
/// direction.
pub open spec fn region_is_large_enough(region: Option<RecordingRegion>) -> bool {
    region matches Some(r) ==> r.width >= MIN_REGION_SIDE && r.height >= MIN_REGION_SIDE
}

/// The message shown for a pending error and a recorder phase, if any: the
/// error first, else the saved file.
pub open spec fn notice_for(error: Option<Seq<char>>, phase: Phase) -> Option<NoticeText> {
    match error {
        Some(e) => Some(NoticeText::Error(e)),
        None => match phase {
            Phase::Finished(path) => Some(NoticeText::Saved("Saved: "@ + path)),
            _ => None,
        },
    }
}

/// The message the panel shows, if any.
pub open spec fn notice_of(p: Panel) -> Option<NoticeText> {
    notice_for(p.error, p.recorder@)
}

/// The control panel: the recorder, the capture mode, the selected area,
/// whether an area is being selected, the last start error, whether the
/// panel last saw a recording running (or hid its window for one), and
/// whether a launch is under way with the window hidden.
pub struct RecMiApp {
    recorder: Recorder,
    mode: SelectedMode,
    region: Option<RecordingRegion>,
    is_selecting_region: bool,
    error_msg: Option<String>,
    was_recording: bool,
    launching: bool,
}

impl View for RecMiApp {
    type V = Panel;

    closed spec fn view(&self) -> Panel {
        Panel {
            recorder: self.recorder,
            mode: self.mode,
            region: self.region,
            selecting: self.is_selecting_region,
            error: match self.error_msg {
                Some(e) => Some(e@),
                None => None,
            },
            was_recording: self.was_recording,
            launching: self.launching,
        }
    }
}

impl RecMiApp {
    #[verifier::type_invariant]
    closed spec fn regions_are_large_enough(self) -> bool {
        region_is_large_enough(self.region)
    }

    /// A panel in full-screen mode, with no area, no message, and an idle
    /// recorder.
    pub fn new() -> (app: Self)
        ensures
            app@.recorder@ == Phase::Idle,
            app@ == (Panel {
                recorder: app@.recorder,
                mode: SelectedMode::Fullscreen,
                region: None,
                selecting: false,
                error: None,
                was_recording: false,
                launching: false,
            }),
    {
        RecMiApp {
            recorder: Recorder::new(),
            mode: SelectedMode::Fullscreen,
            region: None,
            is_selecting_region: false,
            error_msg: None,
            was_recording: false,
            launching: false,
        }
    }

    /// Enters area selection.
    pub fn start_region_selection(&mut self)
        ensures
            final(self)@ == (Panel { selecting: true, ..old(self)@ }),
    {
        proof {
            use_type_invariant(&*self);
        }
        self.is_selecting_region = true;
    }

    /// Leaves area selection. Where a drag was made (`ends` holds its start
    /// and end points, clamped at zero and truncated to whole pixels) and the
    /// rectangle they span is large enough, it becomes the selected area and
    /// the mode becomes `Region`; otherwise the area and the mode stay as they
    /// were.
    pub fn finish_region_selection(&mut self, ends: Option<((u32, u32), (u32, u32))>)
        ensures
            ({
                let picked = match ends {
                    Some(e) => dragged_area(e.0, e.1),
                    None => None,
                };
                final(self)@ == match picked {
                    Some(r) => Panel {
                        region: Some(r),
                        mode: SelectedMode::Region,
                        selecting: false,
                        ..old(self)@
                    },
                    None => Panel { selecting: false, ..old(self)@ },
                }
            }),
    {
        proof {
            use_type_invariant(&*self);
        }
        if let Some((start, end)) = ends {
            if let Some(r) = drag_region(start, end) {
                self.region = Some(r);
                self.mode = SelectedMode::Region;
            }
        }
        self.is_selecting_region = false;
    }
    /// Leaves area selection without changing the area or the mode.
    pub fn cancel_region_selection(&mut self)
        ensures
            final(self)@ == (Panel { selecting: false, ..old(self)@ }),
    {
        proof {
            use_type_invariant(&*self);
        }
        self.is_selecting_region = false;
    }

    /// Compares the recorder's state with the one the panel last saw: the
    /// window is minimized when a recording has begun and restored when it
    /// has ended. While a launch is under way, the window stays hidden and
    /// nothing changes.
    pub fn sync_window(&mut self) -> (change: WindowChange)
        ensures
            old(self)@.launching ==> change == WindowChange::Keep && final(self)@ == old(self)@,
            !old(self)@.launching ==> final(self)@ == (Panel {
                was_recording: old(self)@.recorder@ is Recording,
                ..old(self)@
            }) && change == window_change(
                old(self)@.recorder@ is Recording,
                old(self)@.was_recording,
            ),
    {
        proof {
            use_type_invariant(&*self);
        }
        if self.launching {
            return WindowChange::Keep;
        }
        let is_recording = self.recorder.is_recording();
        let change = if is_recording && !self.was_recording {
            WindowChange::Minimize
        } else if !is_recording && self.was_recording {
            WindowChange::Restore
        } else {
            WindowChange::Keep
        };
        self.was_recording = is_recording;
        change
    }

    /// The full-screen button.
    pub fn choose_fullscreen(&mut self)
        ensures
            final(self)@ == (Panel { mode: SelectedMode::Fullscreen, ..old(self)@ }),
    {
        proof {
            use_type_invariant(&*self);
        }
        self.mode = SelectedMode::Fullscreen;
    }

    /// The region button: region mode, entering area selection when no area
    /// has been selected yet. Returns whether selection was entered.
    pub fn choose_region(&mut self) -> (selecting: bool)
        ensures
            selecting == old(self)@.region is None,
            final(self)@ == (Panel {
                mode: SelectedMode::Region,
                selecting: selecting || old(self)@.selecting,
                ..old(self)@
            }),
    {
        proof {
            use_type_invariant(&*self);
        }
        self.mode = SelectedMode::Region;
        if self.region.is_none() {
            self.start_region_selection();
            true
        } else {
            false
        }
    }

    /// One step of starting a recording from the record button (see
    /// `Recorder::start`). The request clears the last error; a failure
    /// shows its message. When the window is to be hidden before capture,
    /// the panel takes note that it has hidden it for a recording, so that
    /// it does not minimize it again once the recording runs, and that a
    /// launch is under way until the dialogue ends.
    pub fn record(&mut self, event: StartEvent) -> (action: StartAction)
        ensures
            action.plan() == start_plan(old(self)@.recorder@ is Recording, event) || (start_plan(
                old(self)@.recorder@ is Recording,
                event,
            ) is HideWindow && action.plan() == Plan::Finish(Err(clock_failure_text()))),
            action matches StartAction::HideWindow { output_filename, .. } ==> exists|t: Timestamp|
                t.is_valid() && output_filename@ == recording_file_name_text(t),
            match event {
                StartEvent::Launched(name) => final(self)@.recorder@ == Phase::Recording(name@),
                _ => final(self)@.recorder == old(self)@.recorder,
            },
            final(self)@.error == match action.plan() {
                Plan::Finish(Err(e)) => Some(e),
                _ => if event is Requested {
                    None
                } else {
                    old(self)@.error
                },
            },
            final(self)@.mode == old(self)@.mode,
            final(self)@.region == old(self)@.region,
            final(self)@.selecting == old(self)@.selecting,
            final(self)@.was_recording == (action is HideWindow || old(self)@.was_recording),
            final(self)@.launching == (action is HideWindow || action is Launch),
    {
        proof {
            use_type_invariant(&*self);
        }
        if let StartEvent::Requested = event {
            self.error_msg = None;
        }
        let mut recorder = Recorder::new();
        std::mem::swap(&mut recorder, &mut self.recorder);
        let action = recorder.start(event);
        self.recorder = recorder;
        match &action {
            StartAction::Finish(Err(e)) => {
                self.error_msg = Some(e.clone());
            },
            _ => {},
        }
        match &action {
            StartAction::HideWindow { .. } => {
                self.was_recording = true;
                self.launching = true;
            },
            StartAction::Launch { .. } => {
                self.launching = true;
            },
            _ => {
                self.launching = false;
            },
        }
        action
    }

    /// The stop button, once the app has stopped the pipeline. A stop also
    /// ends any launch under way.
    pub fn stop_recording(&mut self)
        ensures
            final(self)@ == (Panel {
                recorder: final(self)@.recorder,
                launching: false,
                ..old(self)@
            }),
            final(self)@.recorder@ == stopped(old(self)@.recorder@),
            !(old(self)@.recorder@ is Recording) ==> final(self)@.recorder == old(self)@.recorder,
    {
        proof {
            use_type_invariant(&*self);
        }
        let mut recorder = Recorder::new();
        std::mem::swap(&mut recorder, &mut self.recorder);
        recorder.stop();
        self.recorder = recorder;
        self.launching = false;
    }

    /// The message to show under the controls.
    pub fn notice(&self) -> (n: Option<Notice>)
        ensures
            match n {
                Some(n) => notice_of(self@) == Some(n@),
                None => notice_of(self@) is None,
            },
    {
        match &self.error_msg {
            Some(e) => Some(Notice::Error(e.clone())),
            None => match self.recorder.state() {
                RecorderState::Finished { saved_path } => {
                    let mut s = "Saved: ".to_owned();
                    s.append(saved_path.as_str());
                    Some(Notice::Saved(s))
                },
                _ => None,
            },
        }
    }

    /// The line under the record button.
    pub fn summary_text(&self) -> (s: String)
        ensures
            s@ == summary_text_of(self@.mode, self@.region),
    {
        match (self.mode, self.region) {
            (SelectedMode::Region, Some(r)) => {
                let mut s = "30 FPS  ·  MP4  ·  ".to_owned();
                push_decimal(&mut s, r.width as u64);
                s.append("×");
                push_decimal(&mut s, r.height as u64);
                s
            },
            _ => "30 FPS  ·  MP4  ·  Fullscreen".to_owned(),
        }
    }

    /// The recorder.
    pub fn recorder(&self) -> (r: &Recorder)
        ensures
            *r == self@.recorder,
    {
        &self.recorder
    }

    /// The capture mode.
    pub fn mode(&self) -> (m: SelectedMode)
        ensures
            m == self@.mode,
    {
        self.mode
    }

    /// The selected area; never smaller than `MIN_REGION_SIDE` either way.
    pub fn region(&self) -> (r: Option<RecordingRegion>)
        ensures
            r == self@.region,
            region_is_large_enough(r),
    {
        proof {
            use_type_invariant(self);
        }
        self.region
    }

    /// Whether an area is being selected.
    pub fn is_selecting_region(&self) -> (b: bool)
        ensures
            b == self@.selecting,
    {
        self.is_selecting_region
    }

    /// Whether a launch is under way with the window hidden.
    pub fn is_launching(&self) -> (b: bool)
        ensures
            b == self@.launching,
    {
        self.launching
    }

    /// The last start error, if it has not been cleared.
    pub fn error_msg(&self) -> (e: Option<String>)
        ensures
            match e {
                Some(s) => self@.error == Some(s@),
                None => self@.error is None,
            },
    {
        match &self.error_msg {
            Some(s) => Some(s.clone()),
            None => None,
        }
    }

    /// Whether the panel last saw a recording running.
    pub fn was_recording(&self) -> (b: bool)
        ensures
            b == self@.was_recording,
    {
        self.was_recording
    }
}

/// Looking at the recorder twice in a row changes the window at most once:
/// once the panel has seen the recording state, it keeps the window as it is.
pub proof fn law_window_settles(recording: bool)
    ensures
        window_change(recording, recording) == WindowChange::Keep,
{
}

/// The window is minimized exactly when a recording begins and restored
/// exactly when it ends.
pub proof fn law_window_follows_recording(recording: bool, was_recording: bool)
    ensures
        (window_change(recording, was_recording) == WindowChange::Minimize) <==> (recording
            && !was_recording),
        (window_change(recording, was_recording) == WindowChange::Restore) <==> (!recording
            && was_recording),
{
}

/// With no error pending, stopping a recording makes the panel show where it
/// was saved.
pub proof fn law_stop_shows_saved_file(name: Seq<char>)
    ensures
        notice_for(None, stopped(Phase::Recording(name))) == Some(
            NoticeText::Saved("Saved: "@ + name),
        ),
{
}

/// A pending error is shown whatever the recorder's state.
pub proof fn law_error_shown_first(e: Seq<char>, phase: Phase)
    ensures
        notice_for(Some(e), phase) == Some(NoticeText::Error(e)),
{
}

/// A selected area is at least `MIN_REGION_SIDE` pixels each way, starts at
/// the drag's top-left corner, and spans the drag exactly.
pub proof fn law_selected_area(min_x: u32, min_y: u32, max_x: u32, max_y: u32)
    ensures
        selected_area(min_x, min_y, max_x, max_y) matches Some(r) ==> {
            &&& region_is_large_enough(Some(r))
            &&& r.x == min_x && r.y == min_y
            &&& r.x + r.width == max_x && r.y + r.height == max_y
        },
        (min_x + MIN_REGION_SIDE <= max_x && min_y + MIN_REGION_SIDE <= max_y) ==> selected_area(
            min_x,
            min_y,
            max_x,
            max_y,
        ) is Some,
{
}

/// The timer reads back as the elapsed time: the digits before the colon are
/// whole minutes, the two after it the remaining seconds.
pub proof fn law_timer_reads_back(elapsed_secs: u64)
    ensures
        ({
            let text = timer_text_of(elapsed_secs);
            let k = padded((elapsed_secs / 60) as nat, 2).len();
            &&& k >= 2
            &&& text.len() == k + 3
            &&& text[k as int] == ':'
            &&& digits_value(text.subrange(0, k as int)) * 60 + digits_value(
                text.subrange(k + 1int, k + 3int),
            ) == elapsed_secs
        }),
{
    reveal_strlit(":");
    let m = (elapsed_secs / 60) as nat;
    let sec = (elapsed_secs % 60) as nat;
    law_padded_denotes(m, 2);
    law_padded_denotes(sec, 2);
    lemma_decimal_len_bound(sec);
    lemma_padded_len(sec, 2);
    let text = timer_text_of(elapsed_secs);
    let k = padded(m, 2).len();
    assert(text.subrange(0, k as int) =~= padded(m, 2));
    assert(text.subrange(k + 1int, k + 3int) =~= padded(sec, 2));
}

/// A drag selects the same area whichever corner it starts from.
pub proof fn law_drag_direction(start: (u32, u32), end: (u32, u32))
    ensures
        dragged_area(start, end) == dragged_area(end, start),
        dragged_area(start, end) == dragged_area((start.0, end.1), (end.0, start.1)),
{
}

/// After a stop, the next look at the recorder restores the window that the
/// recording hid, and with no error pending the panel shows where the file
/// was saved: from a panel that saw a recording into `name`, stopping it and
/// syncing the window restores it, clears the recording seen, and shows
/// `Saved: name`.
pub proof fn law_stop_restores_and_shows_saved(before: Panel, stopped_panel: Panel, name: Seq<char>)
    requires
        before.recorder@ == Phase::Recording(name),
        before.was_recording,
        before.error is None,
        stopped_panel == (Panel {
            recorder: stopped_panel.recorder,
            launching: false,
            ..before
        }),
        stopped_panel.recorder@ == stopped(before.recorder@),
    ensures
        !stopped_panel.launching,
        window_change(stopped_panel.recorder@ is Recording, stopped_panel.was_recording)
            == WindowChange::Restore,
        !(stopped_panel.recorder@ is Recording),
        notice_of(stopped_panel) == Some(NoticeText::Saved("Saved: "@ + name)),
{
}

/// With no error pending, a message is shown only for a finished
/// recording, and it names the saved file: nothing is shown before any
/// recording or while one runs.
pub proof fn law_saved_only_when_finished(phase: Phase)
    ensures
        notice_for(None, phase) is Some <==> phase is Finished,
        phase matches Phase::Finished(path) ==> notice_for(None, phase) == Some(
            NoticeText::Saved("Saved: "@ + path),
        ),
{
}

} // verus!
