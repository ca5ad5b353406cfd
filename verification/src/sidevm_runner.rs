//! The driver of one run of the JS sidecar.
//!
//! The sidecar is a child instance that runs beside the host. The host waits
//! for the instance to exit and for its events at once. The first event that
//! carries an output ends the wait. Where the instance exits first, the
//! events that are still queued are looked through for a late output. What
//! to do on each observation is decided here, one observation at a time; the
//! waiting itself is the caller's.

use vstd::prelude::*;
use crate::js::{decode_js_value, decoded_js_value, JsValue, JsValueView};

verus! {

/// The gas that the sidecar may use between two calls into the host.
pub const VITAL_CAPACITY: u64 = 100_000_000_000;

/// The memory that the sidecar may use, in pages of 64 KiB.
pub const MAX_MEMORY_PAGES: u32 = 256;

/// The time that one evaluation may take, in seconds.
pub const TIMEOUT_SECS: u64 = 10;

/// How many events the channel from the instance can hold.
pub const EVENT_CHANNEL_CAPACITY: usize = 1;

/// A failure of a call from the instance into the host.
#[derive(Debug, Clone, Copy, PartialEq, Eq, Structural)]
pub struct OcallError;

/// The cache that an instance of the JS runtime sees: one that never holds
/// anything.
#[derive(Debug, Clone, Copy, PartialEq, Eq, Structural)]
pub struct NoCache;

impl NoCache {
    /// Looks up `key`: nothing is ever found.
    pub fn get(&self, contract: &[u8], key: &[u8]) -> (r: Result<Option<Vec<u8>>, OcallError>)
        ensures
            r matches Ok(None),
    {
        Ok(None)
    }

    /// Stores `value` under `key`: accepted and forgotten.
    pub fn set(&self, contract: &[u8], key: &[u8], value: &[u8]) -> (r: Result<(), OcallError>)
        ensures
            r is Ok,
    {
        Ok(())
    }

    /// Sets the expiration of `key`: accepted and forgotten.
    pub fn set_expiration(&self, contract: &[u8], key: &[u8], expire_after_secs: u64) -> (r:
        Result<(), OcallError>)
        ensures
            r is Ok,
    {
        Ok(())
    }

    /// Drops `key`: nothing was ever there.
    pub fn remove(&self, contract: &[u8], key: &[u8]) -> (r: Result<Option<Vec<u8>>, OcallError>)
        ensures
            r matches Ok(None),
    {
        Ok(None)
    }
}

/// The cache of every instance.
pub fn no_cache() -> (r: NoCache)
    ensures
        r == NoCache,
{
    NoCache
}

/// How an instance of the JS runtime is set up.
#[derive(Debug, Clone, Copy, PartialEq, Eq, Structural)]
pub struct InstanceConfig {
    /// The memory that the instance may use, in pages.
    pub max_memory_pages: u32,
    /// The gas that the instance may use between two calls into the host.
    pub gas_per_breath: u64,
    /// The cache that the instance sees.
    pub cache_ops: NoCache,
    /// Whether the instance runs under a scheduler.
    pub scheduled: bool,
    /// The weight of the instance for a scheduler.
    pub weight: u32,
    /// How many events the channel to the host holds.
    pub event_capacity: usize,
    /// Whether the log of the instance is handed on.
    pub logged: bool,
}

/// The setup of the instance for one evaluation: the given limits, no
/// cache, no scheduler, weight zero, a channel for a single event, no log.
pub fn instance_config(vital_capacity: u64, max_memory_pages: u32) -> (r: InstanceConfig)
    ensures
        r == (InstanceConfig {
            max_memory_pages,
            gas_per_breath: vital_capacity,
            cache_ops: NoCache,
            scheduled: false,
            weight: 0,
            event_capacity: EVENT_CHANNEL_CAPACITY,
            logged: false,
        }),
{
    InstanceConfig {
        max_memory_pages,
        gas_per_breath: vital_capacity,
        cache_ops: no_cache(),
        scheduled: false,
        weight: 0,
        event_capacity: EVENT_CHANNEL_CAPACITY,
        logged: false,
    }
}

/// An event that the instance sent to the host.
#[derive(Debug, Clone, PartialEq, Eq)]
pub enum OutgoingRequest {
    /// The result of the program.
    Output(Vec<u8>),
    /// Any other request; a run takes no notice of it.
    Other,
}

/// What the host observed while it waited on a run.
#[derive(Debug, Clone, PartialEq, Eq)]
pub enum RunEvent {
    /// The instance exited, in whichever way.
    Exited,
    /// An event came out of the channel.
    Received(OutgoingRequest),
    /// The channel had nothing to give: it is closed, or nothing is queued.
    Exhausted,
}

impl RunEvent {
    /// The output that the observation carries, if it carries one.
    pub open spec fn output(self) -> Option<Seq<u8>> {
        match self {
            RunEvent::Received(OutgoingRequest::Output(bytes)) => Some(bytes@),
            _ => None,
        }
    }
}

/// Where a run stands.
#[derive(Debug, Clone, PartialEq, Eq)]
pub enum RunState {
    /// The host waits for the exit of the instance and for its events.
    Racing,
    /// The wait is over without an output; the host takes what is queued.
    Draining,
    /// The run is over, with the output if there was one.
    Finished(Option<Vec<u8>>),
}

/// The mathematical content of a [`RunState`].
pub enum RunStateView {
    Racing,
    Draining,
    Finished(Option<Seq<u8>>),
}

impl View for RunState {
    type V = RunStateView;

    open spec fn view(&self) -> RunStateView {
        match self {
            RunState::Racing => RunStateView::Racing,
            RunState::Draining => RunStateView::Draining,
            RunState::Finished(Some(bytes)) => RunStateView::Finished(Some(bytes@)),
            RunState::Finished(None) => RunStateView::Finished(None),
        }
    }
}

impl RunStateView {
    /// The state after one more observation.
    ///
    /// An output ends the run wherever it arrives. During the wait any other
    /// event changes nothing, while the exit of the instance or the end of
    /// the channel opens the look through the queue. There any other event
    /// is passed over and an empty queue ends the run without output. A run
    /// that is over stays as it is.
    pub open spec fn after(self, event: RunEvent) -> RunStateView {
        match self {
            RunStateView::Finished(_) => self,
            RunStateView::Racing => match event {
                RunEvent::Received(OutgoingRequest::Output(bytes)) => RunStateView::Finished(
                    Some(bytes@),
                ),
                RunEvent::Received(OutgoingRequest::Other) => RunStateView::Racing,
                RunEvent::Exited => RunStateView::Draining,
                RunEvent::Exhausted => RunStateView::Draining,
            },
            RunStateView::Draining => match event {
                RunEvent::Received(OutgoingRequest::Output(bytes)) => RunStateView::Finished(
                    Some(bytes@),
                ),
                RunEvent::Received(OutgoingRequest::Other) => RunStateView::Draining,
                RunEvent::Exited => RunStateView::Draining,
                RunEvent::Exhausted => RunStateView::Finished(None),
            },
        }
    }

    /// The state after a run of observations, taken in order.
    pub open spec fn after_all(self, events: Seq<RunEvent>) -> RunStateView
        decreases events.len(),
    {
        if events.len() == 0 {
            self
        } else {
            self.after_all(events.drop_last()).after(events.last())
        }
    }
}

/// The state in which every run starts.
pub fn start() -> (r: RunState)
    ensures
        r@ == RunStateView::Racing,
{
    RunState::Racing
}

/// Advances a run by one observation.
pub fn run(state: RunState, event: RunEvent) -> (r: RunState)
    ensures
        r@ == state@.after(event),
{
    match state {
        RunState::Finished(output) => RunState::Finished(output),
        RunState::Racing => match event {
            RunEvent::Received(OutgoingRequest::Output(bytes)) => RunState::Finished(Some(bytes)),
            RunEvent::Received(OutgoingRequest::Other) => RunState::Racing,
            RunEvent::Exited => RunState::Draining,
            RunEvent::Exhausted => RunState::Draining,
        },
        RunState::Draining => match event {
            RunEvent::Received(OutgoingRequest::Output(bytes)) => RunState::Finished(Some(bytes)),
            RunEvent::Received(OutgoingRequest::Other) => RunState::Draining,
            RunEvent::Exited => RunState::Draining,
            RunEvent::Exhausted => RunState::Finished(None),
        },
    }
}

/// Whether the host has to go on observing.
pub fn is_over(state: &RunState) -> (r: bool)
    ensures
        r == (state@ is Finished),
{
    match state {
        RunState::Finished(_) => true,
        _ => false,
    }
}

/// Why a run gave no value.
#[derive(Debug, Clone, PartialEq, Eq)]
pub enum RunError {
    /// The runtime blob did not compile; the text is the failure's rendering.
    Compile(String),
    /// The instance did not start; the text is the failure's rendering.
    Start(String),
    /// The output did not decode; the text is the failure's rendering.
    Decode(String),
    /// The run ended without an output.
    NoOutput,
}

/// The text with which a run without output is reported.
pub open spec fn no_output_text() -> Seq<char> {
    "No output"@
}

impl RunError {
    /// The rendering of the failure.
    pub open spec fn rendering(self) -> Seq<char> {
        match self {
            RunError::Compile(text) => text@,
            RunError::Start(text) => text@,
            RunError::Decode(text) => text@,
            RunError::NoOutput => no_output_text(),
        }
    }

    /// The rendering of the failure.
    pub fn render(self) -> (r: String)
        ensures
            r@ == self.rendering(),
    {
        match self {
            RunError::Compile(text) => text,
            RunError::Start(text) => text,
            RunError::Decode(text) => text,
            RunError::NoOutput => "No output".to_string(),
        }
    }
}

/// What a run that is over with `output` amounts to: the decoded value where
/// there is an output and it decodes.
pub open spec fn conclusion(output: Option<Seq<u8>>) -> Option<JsValueView> {
    match output {
        Some(bytes) => decoded_js_value(bytes),
        None => None,
    }
}

/// Turns the output of a finished run into its value.
///
/// Gives the value where there is an output and it decodes, the decoding
/// failure where it does not, and `NoOutput` where there is none.
pub fn conclude(output: Option<Vec<u8>>) -> (r: Result<JsValue, RunError>)
    ensures
        match r {
            Ok(value) => output matches Some(bytes) && decoded_js_value(bytes@) == Some(value@),
            Err(RunError::Decode(_)) => output matches Some(bytes) && decoded_js_value(bytes@)
                is None,
            Err(RunError::NoOutput) => output is None,
            Err(_) => false,
        },
{
    match output {
        Some(bytes) => match decode_js_value(bytes.as_slice()) {
            Ok(value) => Ok(value),
            Err(text) => Err(RunError::Decode(text)),
        },
        None => Err(RunError::NoOutput),
    }
}

/// A run that is over takes no notice of further observations.
pub proof fn lemma_finished_is_final(state: RunStateView, events: Seq<RunEvent>)
    requires
        state is Finished,
    ensures
        state.after_all(events) == state,
    decreases events.len(),
{
    if events.len() > 0 {
        lemma_finished_is_final(state, events.drop_last());
    }
}

/// A run ends with an output only if some observation carried it, and then
/// it is the first output among the observations: the first output wins.
pub proof fn lemma_first_output_wins(events: Seq<RunEvent>)
    ensures
        RunStateView::Racing.after_all(events) matches RunStateView::Finished(Some(bytes))
            ==> exists|i: int|
            0 <= i < events.len() && events[i].output() == Some(bytes) && forall|j: int|
                0 <= j < i ==> (#[trigger] events[j]).output() is None,
    decreases events.len(),
{
    if events.len() > 0 {
        let before = events.drop_last();
        lemma_first_output_wins(before);
        let state = RunStateView::Racing.after_all(before);
        if let RunStateView::Finished(Some(bytes)) = RunStateView::Racing.after_all(events) {
            if state is Finished {
                let i = choose|i: int|
                    0 <= i < before.len() && before[i].output() == Some(bytes) && forall|j: int|
                        0 <= j < i ==> (#[trigger] before[j]).output() is None;
                assert(events[i] == before[i]);
                assert forall|j: int| 0 <= j < i implies (#[trigger] events[j]).output()
                    is None by {
                    assert(events[j] == before[j]);
                }
            } else {
                lemma_no_output_so_far(before);
                let i = events.len() - 1;
                assert(events[i].output() == Some(bytes));
                assert forall|j: int| 0 <= j < i implies (#[trigger] events[j]).output()
                    is None by {
                    assert(events[j] == before[j]);
                }
            }
        }
    }
}

/// While a run is not over, no observation so far carried an output.
pub proof fn lemma_no_output_so_far(events: Seq<RunEvent>)
    requires
        !(RunStateView::Racing.after_all(events) is Finished),
    ensures
        forall|j: int| 0 <= j < events.len() ==> (#[trigger] events[j]).output() is None,
    decreases events.len(),
{
    if events.len() > 0 {
        let before = events.drop_last();
        lemma_no_output_so_far(before);
        assert forall|j: int| 0 <= j < events.len() implies (#[trigger] events[j]).output()
            is None by {
            if j < before.len() {
                assert(events[j] == before[j]);
            }
        }
    }
}

/// A run in which no observation carries an output never yields a value.
pub proof fn lemma_silent_run_has_no_value(events: Seq<RunEvent>)
    requires
        forall|j: int| 0 <= j < events.len() ==> (#[trigger] events[j]).output() is None,
    ensures
        !(RunStateView::Racing.after_all(events) matches RunStateView::Finished(Some(_))),
        RunStateView::Racing.after_all(events) matches RunStateView::Finished(output)
            ==> conclusion(output) is None,
{
    lemma_first_output_wins(events);
}

} // verus!
