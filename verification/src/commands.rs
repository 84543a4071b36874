//! # Command dispatch
//!
//! The control window writes commands into shared state; once per frame the
//! application takes them out and carries them out on the input manager and
//! the output windows. This module holds the state those commands act on
//! and the decisions around each outside call: which command is taken, what
//! the state becomes after the call reports success or failure, and when an
//! output is started or stopped.

use vstd::prelude::*;
use crate::text::{decimal, decimal_string, lowercase, to_lowercase, text_contains, contains_text};

verus! {

broadcast use vstd::string::group_string_axioms;

/// A request for one input slot.
#[derive(Debug, Clone, PartialEq)]
pub enum InputCommand {
    Idle,
    StartWebcam { device_index: usize, width: u32, height: u32, fps: u32 },
    StartNdi { source_name: String },
    StartObs { source_name: String },
    StartSyphon { server_name: String },
    StopInput,
    RefreshDevices,
}

/// Status of one input slot as shown in the control window.
#[derive(Debug, Clone, PartialEq)]
pub struct InputState {
    pub is_active: bool,
    pub source_name: String,
    pub width: u32,
    pub height: u32,
}

/// The part of the shared state that input commands act on.
#[derive(Debug, Clone, PartialEq)]
pub struct SharedInputs {
    pub input1_command: InputCommand,
    pub input2_command: InputCommand,
    pub ndi_input1: InputState,
    pub ndi_input2: InputState,
}

/// Return a mutable reference to the input state for the given slot
/// (slot 1 is the first input, any other slot the second).
pub fn input_state_mut(state: &mut SharedInputs, slot: u8) -> (inp: &mut InputState)
    ensures
        slot == 1 ==> *inp == old(state).ndi_input1 && final(state).ndi_input1 == *final(inp)
            && final(state).ndi_input2 == old(state).ndi_input2,
        slot != 1 ==> *inp == old(state).ndi_input2 && final(state).ndi_input2 == *final(inp)
            && final(state).ndi_input1 == old(state).ndi_input1,
        final(state).input1_command == old(state).input1_command,
        final(state).input2_command == old(state).input2_command,
{
    if slot == 1 {
        &mut state.ndi_input1
    } else {
        &mut state.ndi_input2
    }
}

/// Take the pending commands of both slots, leaving `None` in their place.
pub fn take_input_commands(state: &mut SharedInputs) -> (cmds: (InputCommand, InputCommand))
    ensures
        cmds.0 == old(state).input1_command,
        cmds.1 == old(state).input2_command,
        final(state).input1_command == InputCommand::Idle,
        final(state).input2_command == InputCommand::Idle,
        final(state).ndi_input1 == old(state).ndi_input1,
        final(state).ndi_input2 == old(state).ndi_input2,
{
    let mut c1 = InputCommand::Idle;
    let mut c2 = InputCommand::Idle;
    std::mem::swap(&mut c1, &mut state.input1_command);
    std::mem::swap(&mut c2, &mut state.input2_command);
    (c1, c2)
}

/// Place `cmd` as the pending command of input `input_num` (1 for the first
/// input, any other number for the second).
pub fn request_input(state: &mut SharedInputs, input_num: i32, cmd: InputCommand)
    ensures
        input_num == 1 ==> final(state).input1_command == cmd && final(state).input2_command
            == old(state).input2_command,
        input_num != 1 ==> final(state).input2_command == cmd && final(state).input1_command
            == old(state).input1_command,
        final(state).ndi_input1 == old(state).ndi_input1,
        final(state).ndi_input2 == old(state).ndi_input2,
{
    if input_num == 1 {
        state.input1_command = cmd;
    } else {
        state.input2_command = cmd;
    }
}

/// The request to start webcam `device_index` at 1920×1080, 30 fps.
pub fn webcam_request(device_index: usize) -> (cmd: InputCommand)
    ensures
        cmd == (InputCommand::StartWebcam { device_index, width: 1920, height: 1080, fps: 30 }),
{
    InputCommand::StartWebcam { device_index, width: 1920, height: 1080, fps: 30 }
}

/// How the input manager answered a command.
#[derive(Debug, Clone, PartialEq)]
pub enum CallOutcome {
    /// There is no input manager yet; nothing was called.
    NoManager,
    /// The call succeeded.
    Succeeded,
    /// The call failed (the failure is logged).
    Failed,
}

/// The name shown for an input started by `cmd`: `Webcam <index>` for a
/// webcam, the source or server name otherwise.
pub open spec fn started_source_name(cmd: InputCommand) -> Seq<char> {
    match cmd {
        InputCommand::StartWebcam { device_index, .. } => "Webcam "@ + decimal(device_index as nat),
        InputCommand::StartNdi { source_name } => source_name@,
        InputCommand::StartObs { source_name } => source_name@,
        InputCommand::StartSyphon { server_name } => server_name@,
        _ => seq![],
    }
}

/// Whether `cmd` starts a source.
pub open spec fn is_start(cmd: InputCommand) -> bool {
    ||| cmd is StartWebcam
    ||| cmd is StartNdi
    ||| cmd is StartObs
    ||| cmd is StartSyphon
}

/// The state of a slot after `cmd` was carried out with `outcome`.
pub open spec fn input_state_after(s: InputState, cmd: InputCommand, outcome: CallOutcome) -> (
    bool,
    Seq<char>,
) {
    if is_start(cmd) && outcome is Succeeded {
        (true, started_source_name(cmd))
    } else if cmd is StopInput {
        (false, seq![])
    } else {
        (s.is_active, s.source_name@)
    }
}

/// The state of the slot that a command addressed.
pub open spec fn slot_state(state: SharedInputs, slot: u8) -> InputState {
    if slot == 1 {
        state.ndi_input1
    } else {
        state.ndi_input2
    }
}

/// Record in the slot's state what carrying out `cmd` led to.
///
/// A start that succeeded makes the slot active under the source's name; a
/// stop makes it inactive with an empty name whatever the manager answered
/// (or when there is none); anything else leaves the slot as it was.
pub fn apply_input_outcome(
    state: &mut SharedInputs,
    slot: u8,
    cmd: InputCommand,
    outcome: CallOutcome,
)
    ensures
        ({
            let before = slot_state(*old(state), slot);
            let after = slot_state(*final(state), slot);
            &&& (after.is_active, after.source_name@) == input_state_after(before, cmd, outcome)
            &&& after.width == before.width
            &&& after.height == before.height
        }),
        slot == 1 ==> final(state).ndi_input2 == old(state).ndi_input2,
        slot != 1 ==> final(state).ndi_input1 == old(state).ndi_input1,
        final(state).input1_command == old(state).input1_command,
        final(state).input2_command == old(state).input2_command,
{
    let succeeded = match outcome {
        CallOutcome::Succeeded => true,
        _ => false,
    };
    match cmd {
        InputCommand::StartWebcam { device_index, .. } => {
            if succeeded {
                let inp = input_state_mut(state, slot);
                inp.is_active = true;
                let mut name = "Webcam ".to_string();
                let digits = decimal_string(device_index);
                name.append(digits.as_str());
                inp.source_name = name;
            }
        },
        InputCommand::StartNdi { source_name } => {
            if succeeded {
                let inp = input_state_mut(state, slot);
                inp.is_active = true;
                inp.source_name = source_name;
            }
        },
        InputCommand::StartObs { source_name } => {
            if succeeded {
                let inp = input_state_mut(state, slot);
                inp.is_active = true;
                inp.source_name = source_name;
            }
        },
        InputCommand::StartSyphon { server_name } => {
            if succeeded {
                let inp = input_state_mut(state, slot);
                inp.is_active = true;
                inp.source_name = server_name;
            }
        },
        InputCommand::StopInput => {
            let inp = input_state_mut(state, slot);
            inp.is_active = false;
            inp.source_name = String::new();
        },
        InputCommand::RefreshDevices => {},
        InputCommand::Idle => {},
    }
}

/// What carrying out each input command does to the addressed slot: a
/// webcam, NDI, OBS or Syphon start that succeeded makes the slot active
/// under the started source's name (`Webcam <index>` for a webcam, the
/// source or server name otherwise); a start that failed, or for which
/// there was no input manager, leaves the slot as it was; a stop makes the
/// slot inactive with an empty name whatever the outcome; an idle or
/// refresh command leaves the slot as it was.
pub proof fn law_input_outcomes(
    s: InputState,
    device_index: usize,
    width: u32,
    height: u32,
    fps: u32,
    name: String,
    outcome: CallOutcome,
)
    ensures
        input_state_after(
            s,
            InputCommand::StartWebcam { device_index, width, height, fps },
            CallOutcome::Succeeded,
        ) == (true, "Webcam "@ + decimal(device_index as nat)),
        input_state_after(s, InputCommand::StartNdi { source_name: name }, CallOutcome::Succeeded)
            == (true, name@),
        input_state_after(s, InputCommand::StartObs { source_name: name }, CallOutcome::Succeeded)
            == (true, name@),
        input_state_after(
            s,
            InputCommand::StartSyphon { server_name: name },
            CallOutcome::Succeeded,
        ) == (true, name@),
        !(outcome is Succeeded) ==> {
            &&& input_state_after(
                s,
                InputCommand::StartWebcam { device_index, width, height, fps },
                outcome,
            ) == (s.is_active, s.source_name@)
            &&& input_state_after(s, InputCommand::StartNdi { source_name: name }, outcome) == (
            s.is_active,
            s.source_name@,
            )
            &&& input_state_after(s, InputCommand::StartObs { source_name: name }, outcome) == (
            s.is_active,
            s.source_name@,
            )
            &&& input_state_after(s, InputCommand::StartSyphon { server_name: name }, outcome)
                == (s.is_active, s.source_name@)
        },
        input_state_after(s, InputCommand::StopInput, outcome) == (false, Seq::<char>::empty()),
        input_state_after(s, InputCommand::Idle, outcome) == (s.is_active, s.source_name@),
        input_state_after(s, InputCommand::RefreshDevices, outcome) == (
            s.is_active,
            s.source_name@,
        ),
{
}

/// A start or stop request for an NDI output.
#[derive(Debug, Clone, Copy, PartialEq, Eq, Structural)]
pub enum NdiOutputCommand {
    Idle,
    Start,
    Stop,
}

/// Take the pending NDI output command, leaving `None`.
pub fn take_ndi_command(cmd: &mut NdiOutputCommand) -> (taken: NdiOutputCommand)
    ensures
        taken == *old(cmd),
        *final(cmd) == NdiOutputCommand::Idle,
{
    let taken = *cmd;
    *cmd = NdiOutputCommand::Idle;
    taken
}

/// The NDI output's status and settings in the shared state.
#[derive(Debug, Clone, PartialEq)]
pub struct NdiOutputState {
    pub stream_name: String,
    pub include_alpha: bool,
    pub is_active: bool,
}

/// The Output tab's NDI button: while the output is inactive it requests a
/// start under the stream name typed in the tab; while active it requests a
/// stop and keeps the stream name.
pub fn request_ndi_output(state: &mut NdiOutputState, command: &mut NdiOutputCommand, name: &String)
    ensures
        !old(state).is_active ==> *final(command) == NdiOutputCommand::Start
            && final(state).stream_name@ == name@,
        old(state).is_active ==> *final(command) == NdiOutputCommand::Stop
            && final(state).stream_name == old(state).stream_name,
        final(state).include_alpha == old(state).include_alpha,
        final(state).is_active == old(state).is_active,
{
    if !state.is_active {
        state.stream_name = name.clone();
        *command = NdiOutputCommand::Start;
    } else {
        *command = NdiOutputCommand::Stop;
    }
}

/// The Syphon output request in the shared state.
#[derive(Debug, Clone, PartialEq)]
pub struct SyphonOutputState {
    pub enabled: bool,
    pub server_name: String,
}

/// The Output tab's Syphon button: while not requested it requests the
/// output under the server name typed in the tab; while requested it
/// withdraws the request and keeps the name.
pub fn request_syphon_output(state: &mut SyphonOutputState, name: &String)
    ensures
        final(state).enabled == !old(state).enabled,
        !old(state).enabled ==> final(state).server_name@ == name@,
        old(state).enabled ==> final(state).server_name == old(state).server_name,
{
    if !state.enabled {
        state.server_name = name.clone();
        state.enabled = true;
    } else {
        state.enabled = false;
    }
}

/// What to do with an output window for an NDI command.
#[derive(Debug, Clone, Copy, PartialEq, Eq, Structural)]
pub enum NdiOutputAction {
    Nothing,
    /// Start a sender on the window.
    Start,
    /// Stop the window's sender.
    Stop,
}

/// The action for `cmd` when the output window exists (`has_output`).
pub fn ndi_output_action(cmd: NdiOutputCommand, has_output: bool) -> (a: NdiOutputAction)
    ensures
        a == (match cmd {
            NdiOutputCommand::Start => if has_output {
                NdiOutputAction::Start
            } else {
                NdiOutputAction::Nothing
            },
            NdiOutputCommand::Stop => if has_output {
                NdiOutputAction::Stop
            } else {
                NdiOutputAction::Nothing
            },
            NdiOutputCommand::Idle => NdiOutputAction::Nothing,
        }),
{
    match cmd {
        NdiOutputCommand::Start => if has_output {
            NdiOutputAction::Start
        } else {
            NdiOutputAction::Nothing
        },
        NdiOutputCommand::Stop => if has_output {
            NdiOutputAction::Stop
        } else {
            NdiOutputAction::Nothing
        },
        NdiOutputCommand::Idle => NdiOutputAction::Nothing,
    }
}

/// Whether the NDI output counts as active after `cmd`, given whether a
/// start was attempted and succeeded (`started`): a successful start makes
/// it active, a stop makes it inactive (with or without a window), and
/// anything else leaves it.
pub fn ndi_active_after(cmd: NdiOutputCommand, was_active: bool, started: bool) -> (active: bool)
    ensures
        active == (match cmd {
            NdiOutputCommand::Start => was_active || started,
            NdiOutputCommand::Stop => false,
            NdiOutputCommand::Idle => was_active,
        }),
{
    match cmd {
        NdiOutputCommand::Start => was_active || started,
        NdiOutputCommand::Stop => false,
        NdiOutputCommand::Idle => was_active,
    }
}

/// What to do with a window's Syphon server.
#[derive(Debug, Clone, Copy, PartialEq, Eq, Structural)]
pub enum SyphonAction {
    Keep,
    Start,
    Stop,
}

/// Bring a window's Syphon server in line with the request: start it when
/// requested, not running, and the GPU device and queue exist; stop it when
/// not requested but running; otherwise keep it.
pub fn syphon_action(requested: bool, active: bool, has_gpu: bool) -> (a: SyphonAction)
    ensures
        a == (if requested && !active {
            if has_gpu {
                SyphonAction::Start
            } else {
                SyphonAction::Keep
            }
        } else if !requested && active {
            SyphonAction::Stop
        } else {
            SyphonAction::Keep
        }),
{
    if requested && !active {
        if has_gpu {
            SyphonAction::Start
        } else {
            SyphonAction::Keep
        }
    } else if !requested && active {
        SyphonAction::Stop
    } else {
        SyphonAction::Keep
    }
}

/// Whether a discovered NDI source is an OBS source: its lower-case name
/// contains `obs`.
pub open spec fn is_obs_source(name: Seq<char>) -> bool {
    contains_text(lowercase(name), "obs"@)
}

/// The names among the first `n` of `all` that are OBS sources (`obs`
/// true) or plain NDI sources (`obs` false), in order.
pub open spec fn sources_of_kind(all: Seq<String>, obs: bool, n: int) -> Seq<Seq<char>>
    decreases n,
{
    if n <= 0 {
        seq![]
    } else {
        let prev = sources_of_kind(all, obs, n - 1);
        if is_obs_source(all[n - 1]@) == obs {
            prev.push(all[n - 1]@)
        } else {
            prev
        }
    }
}

/// The views of a list of strings.
pub open spec fn string_views(v: Seq<String>) -> Seq<Seq<char>> {
    v.map_values(|s: String| s@)
}

/// Split discovered NDI sources into plain NDI sources and OBS sources,
/// keeping their order.
pub fn split_ndi_sources(all: &Vec<String>) -> (r: (Vec<String>, Vec<String>))
    ensures
        string_views(r.0@) == sources_of_kind(all@, false, all@.len() as int),
        string_views(r.1@) == sources_of_kind(all@, true, all@.len() as int),
{
    let mut ndi: Vec<String> = Vec::new();
    let mut obs: Vec<String> = Vec::new();
    let mut i: usize = 0;
    proof {
        reveal_strlit("obs");
    }
    while i < all.len()
        invariant
            i <= all@.len(),
            string_views(ndi@) == sources_of_kind(all@, false, i as int),
            string_views(obs@) == sources_of_kind(all@, true, i as int),
        decreases all@.len() - i,
    {
        let lower = to_lowercase(all[i].as_str());
        let is_obs = text_contains(lower.as_str(), "obs");
        let name = all[i].clone();
        if is_obs {
            let ghost before = obs@;
            obs.push(name);
            assert(string_views(obs@) =~= string_views(before).push(all@[i as int]@));
        } else {
            let ghost before = ndi@;
            ndi.push(name);
            assert(string_views(ndi@) =~= string_views(before).push(all@[i as int]@));
        }
        i = i + 1;
    }
    (ndi, obs)
}

/// The index shown as selected in a source list of `len` entries when the
/// stored selection is `selected` (as `usize`, capped at the last entry).
pub open spec fn clamped_selection(selected: i32, len: nat) -> nat {
    let s = selected as usize as nat;
    let last: nat = if len == 0 {
        0
    } else {
        (len - 1) as nat
    };
    if s < last {
        s
    } else {
        last
    }
}

/// The selection shown for a source list and the name it picks (empty when
/// the list is empty).
pub fn pick_source(list: &Vec<String>, selected: i32) -> (r: (usize, String))
    ensures
        r.0 == clamped_selection(selected, list@.len()),
        r.0 < list@.len() ==> r.1@ == list@[r.0 as int]@,
        r.0 >= list@.len() ==> r.1@ == Seq::<char>::empty(),
{
    let last = if list.len() == 0 {
        0
    } else {
        list.len() - 1
    };
    let s = selected as usize;
    let idx = if s < last {
        s
    } else {
        last
    };
    let name = if idx < list.len() {
        list[idx].clone()
    } else {
        String::new()
    };
    (idx, name)
}

} // verus!
