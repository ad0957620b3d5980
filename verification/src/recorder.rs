//! The recording lifecycle: idle, recording to a file, finished with a saved
//! file. Starting a recording is a dialogue with the caller, who lists the
//! monitors and launches the capture and encoder pipeline; this module makes
//! every decision in between.
use std::time::Instant;
use vstd::prelude::*;
use vstd::string::*;

use crate::clock::{duration_whole_secs, instant_elapsed, instant_now, wall_clock_secs};
use crate::timestamp::{
    is_local_time_of, names_a_recording, recording_file_name_at, recording_file_name_text,
    Timestamp,
};

verus! {

/// What the recorder is doing.
pub enum RecorderState {
    Idle,
    Recording { start_time: Instant, output_filename: String },
    Finished { saved_path: String },
    Error(String),
}

/// The recorder's state without its start time.
pub enum Phase {
    Idle,
    Recording(Seq<char>),
    Finished(Seq<char>),
    Error(Seq<char>),
}

impl View for RecorderState {
    type V = Phase;

    open spec fn view(&self) -> Phase {
        match self {
            RecorderState::Idle => Phase::Idle,
            RecorderState::Recording { output_filename, .. } => Phase::Recording(output_filename@),
            RecorderState::Finished { saved_path } => Phase::Finished(saved_path@),
            RecorderState::Error(msg) => Phase::Error(msg@),
        }
    }
}

/// The phase after a stop: a recording becomes a finished file under the
/// same name; any other phase stays as it is.
pub open spec fn stopped(p: Phase) -> Phase {
    match p {
        Phase::Recording(name) => Phase::Finished(name),
        _ => p,
    }
}

/// A call that changes the recorder, as far as its phase goes: a start
/// event that commits a recording into a file, any other start event, or a
/// stop.
pub enum Step {
    Launched(Seq<char>),
    OtherStartEvent,
    Stop,
}

/// The step that a start event is.
pub open spec fn step_of(event: StartEvent) -> Step {
    match event {
        StartEvent::Launched(name) => Step::Launched(name@),
        _ => Step::OtherStartEvent,
    }
}

/// The phase after one step.
pub open spec fn after_step(p: Phase, step: Step) -> Phase {
    match step {
        Step::Launched(name) => Phase::Recording(name),
        Step::OtherStartEvent => p,
        Step::Stop => stopped(p),
    }
}

/// The phase of a new recorder after a sequence of steps.
pub open spec fn run_steps(steps: Seq<Step>) -> Phase
    decreases steps.len(),
{
    if steps.len() == 0 {
        Phase::Idle
    } else {
        after_step(run_steps(steps.drop_last()), steps.last())
    }
}

/// What the app reads of one monitor: whether it is the primary one (`None`
/// where the query failed) and its size in pixels, or the query's error.
pub struct MonitorInfo {
    pub primary: Option<bool>,
    pub width: Result<u32, String>,
    pub height: Result<u32, String>,
}

/// A monitor counts as primary only where the query said so.
pub open spec fn reported_primary(m: MonitorInfo) -> bool {
    m.primary == Some(true)
}

/// The index of the first monitor reported as primary, at or after `i`.
pub open spec fn first_primary_from(ms: Seq<MonitorInfo>, i: nat) -> Option<nat>
    decreases ms.len() - i,
{
    if i >= ms.len() {
        None
    } else if reported_primary(ms[i as int]) {
        Some(i)
    } else {
        first_primary_from(ms, i + 1)
    }
}

/// A step of the dialogue that starts a recording, reported by the app.
pub enum StartEvent {
    /// The user asked for a recording.
    Requested,
    /// The first listing of the monitors.
    MonitorsListed(Result<Vec<MonitorInfo>, String>),
    /// The second listing, asked for when no monitor was reported primary.
    MonitorsRelisted(Result<Vec<MonitorInfo>, String>),
    /// The window has been hidden, as `HideWindow` asked; the values are
    /// those of that action.
    WindowHidden { width: u32, height: u32, output_filename: String },
    /// The capture and encoder pipeline runs and writes to this file.
    Launched(String),
}

/// What the app does next.
pub enum StartAction {
    /// The dialogue is over, with this outcome.
    Finish(Result<(), String>),
    /// List the monitors and report `MonitorsListed`.
    ListMonitors,
    /// List the monitors again and report `MonitorsRelisted`.
    ListMonitorsAgain,
    /// Hide the window so that it is not captured, then report
    /// `WindowHidden` with these values.
    HideWindow { width: u32, height: u32, output_filename: String },
    /// Start capturing at this size, encode into this file, then report
    /// `Launched` with the file name.
    Launch { width: u32, height: u32, output_filename: String },
}

/// A `StartAction` by its values; the name of the file to record into is
/// left out of `HideWindow`, where it comes from the clock.
pub enum Plan {
    Finish(Result<(), Seq<char>>),
    ListMonitors,
    ListMonitorsAgain,
    HideWindow { width: u32, height: u32 },
    Launch { width: u32, height: u32, output_filename: Seq<char> },
}

/// The error with which a start ends where the wall clock cannot name the
/// recording.
pub open spec fn clock_failure_text() -> Seq<char> {
    "Failed to read the local time"@
}

impl StartAction {
    pub open spec fn plan(&self) -> Plan {
        match self {
            StartAction::Finish(Ok(())) => Plan::Finish(Ok(())),
            StartAction::Finish(Err(e)) => Plan::Finish(Err(e@)),
            StartAction::ListMonitors => Plan::ListMonitors,
            StartAction::ListMonitorsAgain => Plan::ListMonitorsAgain,
            StartAction::HideWindow { width, height, .. } => Plan::HideWindow {
                width: *width,
                height: *height,
            },
            StartAction::Launch { width, height, output_filename } => Plan::Launch {
                width: *width,
                height: *height,
                output_filename: output_filename@,
            },
        }
    }
}

/// Launching on a monitor needs its width, then its height; the first error
/// read ends the dialogue with that error's text.
pub open spec fn plan_for_monitor(m: MonitorInfo) -> Plan {
    match m.width {
        Err(e) => Plan::Finish(Err(e@)),
        Ok(w) => match m.height {
            Err(e) => Plan::Finish(Err(e@)),
            Ok(h) => Plan::HideWindow { width: w, height: h },
        },
    }
}

/// The decision taken on each event of the start dialogue.
pub open spec fn start_plan(recording: bool, event: StartEvent) -> Plan {
    match event {
        StartEvent::Requested => if recording {
            Plan::Finish(Ok(()))
        } else {
            Plan::ListMonitors
        },
        StartEvent::MonitorsListed(Err(e)) => Plan::Finish(Err("Failed to list monitors: "@ + e@)),
        StartEvent::MonitorsListed(Ok(ms)) => if ms@.len() == 0 {
            Plan::Finish(Err("No active monitors found"@))
        } else {
            match first_primary_from(ms@, 0) {
                Some(i) => plan_for_monitor(ms@[i as int]),
                None => Plan::ListMonitorsAgain,
            }
        },
        StartEvent::MonitorsRelisted(Ok(ms)) => if ms@.len() > 0 {
            plan_for_monitor(ms@[0])
        } else {
            Plan::Finish(Err("Primary monitor unavailable"@))
        },
        StartEvent::MonitorsRelisted(Err(_)) => Plan::Finish(Err("Primary monitor unavailable"@)),
        StartEvent::WindowHidden { width, height, output_filename } => Plan::Launch {
            width,
            height,
            output_filename: output_filename@,
        },
        StartEvent::Launched(_) => Plan::Finish(Ok(())),
    }
}

/// The index of the first monitor reported as primary.
pub fn first_primary(monitors: &Vec<MonitorInfo>) -> (i: Option<usize>)
    ensures
        match i {
            Some(i) => i < monitors@.len() && first_primary_from(monitors@, 0) == Some(i as nat),
            None => first_primary_from(monitors@, 0) is None,
        },
{
    let mut k: usize = 0;
    while k < monitors.len()
        invariant
            k <= monitors@.len(),
            first_primary_from(monitors@, 0) == first_primary_from(monitors@, k as nat),
        decreases monitors.len() - k,
    {
        let primary = match monitors[k].primary {
            Some(p) => p,
            None => false,
        };
        if primary {
            return Some(k);
        }
        k = k + 1;
    }
    None
}

/// The action for recording `m` when the wall clock reads `clock_secs`
/// (seconds since the Unix epoch, `None` before it): hide the window, then
/// record at the monitor's size into a file named after the local time of
/// that reading; or the error of reading the size; or, where the reading
/// cannot name a recording, the clock's error.
pub fn capture_step(m: &MonitorInfo, clock_secs: Option<u64>) -> (action: StartAction)
    ensures
        names_a_recording(clock_secs) || !(plan_for_monitor(*m) is HideWindow) ==> action.plan()
            == plan_for_monitor(*m),
        !names_a_recording(clock_secs) && plan_for_monitor(*m) is HideWindow ==> action.plan()
            == Plan::Finish(Err(clock_failure_text())),
        action matches StartAction::HideWindow { output_filename, .. } ==> exists|t: Timestamp|
            t.is_valid() && output_filename@ == recording_file_name_text(t),
        action matches StartAction::HideWindow { width, height, output_filename } ==> {
            &&& m.width == Ok::<u32, String>(width)
            &&& m.height == Ok::<u32, String>(height)
            &&& clock_secs matches Some(secs) && exists|t: Timestamp|
                t.is_valid() && is_local_time_of(t, secs as int) && output_filename@
                    == recording_file_name_text(t)
        },
{
    let width = match &m.width {
        Ok(w) => *w,
        Err(e) => {
            return StartAction::Finish(Err(e.clone()));
        },
    };
    let height = match &m.height {
        Ok(h) => *h,
        Err(e) => {
            return StartAction::Finish(Err(e.clone()));
        },
    };
    let named = match clock_secs {
        Some(secs) => recording_file_name_at(secs),
        None => None,
    };
    match named {
        Some(output_filename) => StartAction::HideWindow { width, height, output_filename },
        None => StartAction::Finish(Err("Failed to read the local time".to_owned())),
    }
}

/// A message made of a fixed prefix and a detail.
fn message(prefix: &str, detail: &str) -> (msg: String)
    ensures
        msg@ == prefix@ + detail@,
{
    let mut msg = prefix.to_owned();
    msg.append(detail);
    msg
}

/// The screen recorder's lifecycle.
pub struct Recorder {
    state: RecorderState,
}

impl View for Recorder {
    type V = Phase;

    closed spec fn view(&self) -> Phase {
        self.state@
    }
}

impl Recorder {
    /// A recorder that is not recording and has recorded nothing.
    pub fn new() -> (r: Self)
        ensures
            r@ == Phase::Idle,
    {
        Recorder { state: RecorderState::Idle }
    }

    /// Whether a recording is running.
    pub fn is_recording(&self) -> (b: bool)
        ensures
            b == self@ is Recording,
    {
        match self.state {
            RecorderState::Recording { .. } => true,
            _ => false,
        }
    }

    /// Whole seconds since the running recording started; 0 when none runs.
    /// While recording, the value is read from the clock (`Instant::elapsed`,
    /// `Duration::as_secs`) and is not stated.
    pub fn elapsed_secs(&self) -> (secs: u64)
        ensures
            !(self@ is Recording) ==> secs == 0,
    {
        match &self.state {
            RecorderState::Recording { start_time, .. } => duration_whole_secs(
                &instant_elapsed(start_time),
            ),
            _ => 0,
        }
    }

    /// The current state.
    pub fn state(&self) -> (s: &RecorderState)
        ensures
            s@ == self@,
    {
        &self.state
    }

    /// One step of starting a recording. `Launched` commits: the recorder is
    /// then recording into the launched file. Every other event leaves the
    /// recorder as it was and answers with the next action: a request while
    /// recording succeeds at once; otherwise the monitors are listed, the
    /// first one reported primary is chosen (else the first one of a second
    /// listing), the window is hidden, and only then is capture launched, at
    /// the monitor's size, into a file named after the local time; each
    /// failure ends the dialogue with its message. Where the window would be
    /// hidden, the wall clock is read (see `capture_step`): a reading before
    /// the Unix epoch or beyond `MAX_NAMED_SECS` ends the dialogue with
    /// "Failed to read the local time" instead.
    pub fn start(&mut self, event: StartEvent) -> (action: StartAction)
        ensures
            action.plan() == start_plan(old(self)@ is Recording, event) || (start_plan(
                old(self)@ is Recording,
                event,
            ) is HideWindow && action.plan() == Plan::Finish(Err(clock_failure_text()))),
            action matches StartAction::HideWindow { output_filename, .. } ==> exists|t: Timestamp|
                t.is_valid() && output_filename@ == recording_file_name_text(t),
            match event {
                StartEvent::Launched(name) => final(self)@ == Phase::Recording(name@),
                _ => *final(self) == *old(self),
            },
            final(self)@ == after_step(old(self)@, step_of(event)),
    {
        match event {
            StartEvent::Requested => {
                if self.is_recording() {
                    StartAction::Finish(Ok(()))
                } else {
                    StartAction::ListMonitors
                }
            },
            StartEvent::MonitorsListed(Err(e)) => {
                StartAction::Finish(Err(message("Failed to list monitors: ", e.as_str())))
            },
            StartEvent::MonitorsListed(Ok(monitors)) => {
                if monitors.len() == 0 {
                    return StartAction::Finish(Err("No active monitors found".to_owned()));
                }
                match first_primary(&monitors) {
                    Some(i) => capture_step(&monitors[i], wall_clock_secs()),
                    None => StartAction::ListMonitorsAgain,
                }
            },
            StartEvent::MonitorsRelisted(Ok(monitors)) => {
                if monitors.len() > 0 {
                    capture_step(&monitors[0], wall_clock_secs())
                } else {
                    StartAction::Finish(Err("Primary monitor unavailable".to_owned()))
                }
            },
            StartEvent::MonitorsRelisted(Err(_)) => {
                StartAction::Finish(Err("Primary monitor unavailable".to_owned()))
            },
            StartEvent::WindowHidden { width, height, output_filename } => {
                StartAction::Launch { width, height, output_filename }
            },
            StartEvent::Launched(output_filename) => {
                let start_time = instant_now();
                self.state = RecorderState::Recording { start_time, output_filename };
                StartAction::Finish(Ok(()))
            },
        }
    }

    /// Ends a running recording, once the app has stopped the pipeline: the
    /// recording becomes a finished file under the same name. Any other state
    /// is left as it is.
    pub fn stop(&mut self)
        ensures
            final(self)@ == stopped(old(self)@),
            final(self)@ == after_step(old(self)@, Step::Stop),
            !(old(self)@ is Recording) ==> *final(self) == *old(self),
    {
        let saved_path = match &self.state {
            RecorderState::Recording { output_filename, .. } => output_filename.clone(),
            _ => {
                return ;
            },
        };
        self.state = RecorderState::Finished { saved_path };
    }
}

/// Stopping a recording started into `name` saves it under `name`.
pub proof fn law_stop_saves_started_file(name: Seq<char>)
    ensures
        stopped(Phase::Recording(name)) == Phase::Finished(name),
{
}

/// After a stop nothing is recording, and stopping again changes nothing.
pub proof fn law_stop_is_final(p: Phase)
    ensures
        !(stopped(p) is Recording),
        stopped(stopped(p)) == stopped(p),
{
}

/// The lifecycle never enters the error state: a new recorder is idle, a
/// committed start records, and a stop turns a recording into a finished
/// file; none of them produces an error from a state that was not one.
pub proof fn law_error_never_entered(p: Phase, name: Seq<char>)
    requires
        !(p is Error),
    ensures
        !(stopped(p) is Error),
        !(Phase::Recording(name) is Error),
{
}

/// A request while recording succeeds at once; while not recording it asks
/// for the monitors. Every event but `Launched` that succeeds is such a
/// request while recording.
pub proof fn law_start_request(recording: bool, event: StartEvent)
    ensures
        start_plan(true, StartEvent::Requested) == Plan::Finish(Ok(())),
        start_plan(false, StartEvent::Requested) == Plan::ListMonitors,
        start_plan(recording, event) == Plan::Finish(Ok(())) ==> (event is Launched || (
        event is Requested && recording)),
{
    match event {
        StartEvent::MonitorsListed(Ok(ms)) => {
            if ms@.len() != 0 {
                match first_primary_from(ms@, 0) {
                    Some(i) => {
                        lemma_plan_for_monitor_not_ok(ms@[i as int]);
                    },
                    None => {},
                }
            }
        },
        StartEvent::MonitorsRelisted(Ok(ms)) => {
            if ms@.len() > 0 {
                lemma_plan_for_monitor_not_ok(ms@[0]);
            }
        },
        _ => {},
    }
}

proof fn lemma_plan_for_monitor_not_ok(m: MonitorInfo)
    ensures
        plan_for_monitor(m) != Plan::Finish(Ok(())),
{
}

/// The monitor captured from the first listing is the first one reported
/// primary: it is reported primary and no monitor before it is. Where none
/// is, the monitors are listed again.
pub proof fn law_first_primary(ms: Seq<MonitorInfo>, from: nat)
    ensures
        match first_primary_from(ms, from) {
            Some(i) => from <= i < ms.len() && reported_primary(ms[i as int]) && forall|j: int|
                from <= j < i ==> !reported_primary(#[trigger] ms[j]),
            None => forall|j: int| from <= j < ms.len() ==> !reported_primary(#[trigger] ms[j]),
        },
    decreases ms.len() - from,
{
    if from < ms.len() {
        law_first_primary(ms, from + 1);
    }
}

/// The window is hidden before capture starts: capture is launched only in
/// reply to the report that the window has been hidden, and with the size and
/// file of the request to hide it. No listing of the monitors launches capture
/// directly.
pub proof fn law_hide_before_capture(recording: bool, event: StartEvent, width: u32, height: u32, name: String)
    ensures
        start_plan(recording, event) is Launch ==> event is WindowHidden,
        start_plan(
            recording,
            StartEvent::WindowHidden { width, height, output_filename: name },
        ) == (Plan::Launch { width, height, output_filename: name@ }),
{
    match event {
        StartEvent::MonitorsListed(Ok(ms)) => {
            if ms@.len() != 0 {
                match first_primary_from(ms@, 0) {
                    Some(i) => {
                        lemma_plan_for_monitor_not_launch(ms@[i as int]);
                    },
                    None => {},
                }
            }
        },
        StartEvent::MonitorsRelisted(Ok(ms)) => {
            if ms@.len() > 0 {
                lemma_plan_for_monitor_not_launch(ms@[0]);
            }
        },
        _ => {},
    }
}

proof fn lemma_plan_for_monitor_not_launch(m: MonitorInfo)
    ensures
        !(plan_for_monitor(m) is Launch),
{
}

/// Over any sequence of starts and stops from a new recorder: the recorder is
/// never in the error state; it is idle only while no recording has been
/// committed; it records into a file only after a start committed that file;
/// and it has finished a file only after a stop ended a recording into it.
pub proof fn law_lifecycle(steps: Seq<Step>)
    ensures
        !(run_steps(steps) is Error),
        run_steps(steps) is Idle ==> forall|i: int| 0 <= i < steps.len() ==> !(
        #[trigger] steps[i] is Launched),
        run_steps(steps) matches Phase::Recording(name) ==> exists|i: int|
            0 <= i < steps.len() && #[trigger] steps[i] == Step::Launched(name),
        run_steps(steps) matches Phase::Finished(name) ==> exists|i: int|
            0 <= i < steps.len() && #[trigger] steps[i] == Step::Stop && run_steps(steps.take(i))
                == Phase::Recording(name),
    decreases steps.len(),
{
    if steps.len() > 0 {
        let prefix = steps.drop_last();
        law_lifecycle(prefix);
        let last = (steps.len() - 1) as int;
        assert(steps[last] == steps.last());
        assert(forall|i: int| 0 <= i < prefix.len() ==> prefix[i] == steps[i]);
        assert(steps.take(last) =~= prefix);
        match run_steps(steps) {
            Phase::Recording(name) => {
                if steps.last() is Launched {
                } else {
                    let i = choose|i: int| 0 <= i < prefix.len() && #[trigger] prefix[i] == Step::Launched(name);
                    assert(steps[i] == Step::Launched(name));
                }
            },
            Phase::Finished(name) => {
                if steps.last() is Stop && run_steps(prefix) is Recording {
                    assert(steps[last] == Step::Stop);
                } else {
                    let i = choose|i: int|
                        0 <= i < prefix.len() && #[trigger] prefix[i] == Step::Stop && run_steps(
                            prefix.take(i),
                        ) == Phase::Recording(name);
                    assert(prefix.take(i) =~= steps.take(i));
                    assert(steps[i] == Step::Stop);
                }
            },
            _ => {},
        }
    }
}

/// A recording is made at the size that its monitor reports: where a monitor
/// leads to hiding the window, both its width and its height were read
/// without error, and they are the size carried on.
pub proof fn law_records_reported_size(m: MonitorInfo)
    ensures
        plan_for_monitor(m) matches Plan::HideWindow { width, height } ==> m.width == Ok::<
            u32,
            String,
        >(width) && m.height == Ok::<u32, String>(height),
        (m.width is Ok && m.height is Ok) <==> plan_for_monitor(m) is HideWindow,
{
}

/// The first listing leads to recording the first monitor reported primary,
/// at its reported size; a second listing, to its first monitor at its
/// reported size.
pub proof fn law_listing_records_chosen_monitor(recording: bool, ms: Vec<MonitorInfo>)
    ensures
        start_plan(recording, StartEvent::MonitorsListed(Ok(ms))) matches Plan::HideWindow {
            width,
            height,
        } ==> exists|i: int|
            0 <= i < ms@.len() && reported_primary(#[trigger] ms@[i]) && (forall|j: int|
                0 <= j < i ==> !reported_primary(ms@[j])) && ms@[i].width == Ok::<u32, String>(
                width,
            ) && ms@[i].height == Ok::<u32, String>(height),
        start_plan(recording, StartEvent::MonitorsRelisted(Ok(ms))) matches Plan::HideWindow {
            width,
            height,
        } ==> ms@.len() > 0 && ms@[0].width == Ok::<u32, String>(width) && ms@[0].height == Ok::<
            u32,
            String,
        >(height),
{
    law_first_primary(ms@, 0);
    match first_primary_from(ms@, 0) {
        Some(i) => {
            assert(reported_primary(ms@[i as int]));
        },
        None => {},
    }
}

} // verus!
