use rusty_mapper::commands::{
    apply_input_outcome, input_state_mut, ndi_active_after, ndi_output_action, pick_source,
    request_input, split_ndi_sources, syphon_action, take_input_commands, take_ndi_command,
    webcam_request, request_ndi_output, request_syphon_output, CallOutcome, NdiOutputState,
    SyphonOutputState, InputCommand, InputState, NdiOutputAction, NdiOutputCommand,
    SharedInputs, SyphonAction,
};

fn idle_state() -> InputState {
    InputState { is_active: false, source_name: String::new(), width: 0, height: 0 }
}

fn shared() -> SharedInputs {
    SharedInputs {
        input1_command: InputCommand::Idle,
        input2_command: InputCommand::Idle,
        ndi_input1: idle_state(),
        ndi_input2: idle_state(),
    }
}

#[test]
fn input_state_by_slot() {
    let mut s = shared();
    input_state_mut(&mut s, 1).width = 5;
    input_state_mut(&mut s, 2).width = 7;
    input_state_mut(&mut s, 9).height = 3;
    assert_eq!(s.ndi_input1.width, 5);
    assert_eq!(s.ndi_input2.width, 7);
    assert_eq!(s.ndi_input2.height, 3);
}

#[test]
fn commands_are_taken_once() {
    let mut s = shared();
    request_input(&mut s, 1, webcam_request(3));
    request_input(&mut s, 2, InputCommand::StopInput);
    let (c1, c2) = take_input_commands(&mut s);
    assert_eq!(c1, InputCommand::StartWebcam { device_index: 3, width: 1920, height: 1080, fps: 30 });
    assert_eq!(c2, InputCommand::StopInput);
    assert_eq!(s.input1_command, InputCommand::Idle);
    assert_eq!(s.input2_command, InputCommand::Idle);
}

#[test]
fn successful_webcam_start_names_the_slot() {
    let mut s = shared();
    apply_input_outcome(&mut s, 1, webcam_request(12), CallOutcome::Succeeded);
    assert!(s.ndi_input1.is_active);
    assert_eq!(s.ndi_input1.source_name, "Webcam 12");
    assert!(!s.ndi_input2.is_active);
}

#[test]
fn named_sources_and_failures() {
    let mut s = shared();
    let ndi = InputCommand::StartNdi { source_name: "STUDIO (Cam)".to_string() };
    apply_input_outcome(&mut s, 2, ndi, CallOutcome::Succeeded);
    assert_eq!(s.ndi_input2.source_name, "STUDIO (Cam)");
    let obs = InputCommand::StartObs { source_name: "OBS".to_string() };
    apply_input_outcome(&mut s, 2, obs, CallOutcome::Failed);
    assert_eq!(s.ndi_input2.source_name, "STUDIO (Cam)");
    let syphon = InputCommand::StartSyphon { server_name: "Resolume".to_string() };
    apply_input_outcome(&mut s, 1, syphon, CallOutcome::NoManager);
    assert!(!s.ndi_input1.is_active);
}

#[test]
fn stop_always_deactivates() {
    let mut s = shared();
    apply_input_outcome(&mut s, 1, webcam_request(0), CallOutcome::Succeeded);
    s.ndi_input1.width = 640;
    apply_input_outcome(&mut s, 1, InputCommand::StopInput, CallOutcome::NoManager);
    assert!(!s.ndi_input1.is_active);
    assert_eq!(s.ndi_input1.source_name, "");
    assert_eq!(s.ndi_input1.width, 640);
    apply_input_outcome(&mut s, 1, InputCommand::RefreshDevices, CallOutcome::Succeeded);
    assert!(!s.ndi_input1.is_active);
}

#[test]
fn ndi_output_commands() {
    let mut c = NdiOutputCommand::Start;
    assert_eq!(take_ndi_command(&mut c), NdiOutputCommand::Start);
    assert_eq!(c, NdiOutputCommand::Idle);
    assert_eq!(ndi_output_action(NdiOutputCommand::Start, true), NdiOutputAction::Start);
    assert_eq!(ndi_output_action(NdiOutputCommand::Start, false), NdiOutputAction::Nothing);
    assert_eq!(ndi_output_action(NdiOutputCommand::Stop, true), NdiOutputAction::Stop);
    assert_eq!(ndi_output_action(NdiOutputCommand::Idle, true), NdiOutputAction::Nothing);
    assert!(ndi_active_after(NdiOutputCommand::Start, false, true));
    assert!(!ndi_active_after(NdiOutputCommand::Start, false, false));
    assert!(!ndi_active_after(NdiOutputCommand::Stop, true, false));
    assert!(ndi_active_after(NdiOutputCommand::Idle, true, false));
}

#[test]
fn syphon_follows_the_request() {
    assert_eq!(syphon_action(true, false, true), SyphonAction::Start);
    assert_eq!(syphon_action(true, false, false), SyphonAction::Keep);
    assert_eq!(syphon_action(false, true, true), SyphonAction::Stop);
    assert_eq!(syphon_action(true, true, true), SyphonAction::Keep);
    assert_eq!(syphon_action(false, false, true), SyphonAction::Keep);
}

#[test]
fn obs_sources_are_split_off_case_insensitively() {
    let all = vec![
        "HOST (OBS Studio)".to_string(),
        "HOST (Camera)".to_string(),
        "obsidian".to_string(),
        "Main".to_string(),
    ];
    let (ndi, obs) = split_ndi_sources(&all);
    assert_eq!(ndi, vec!["HOST (Camera)", "Main"]);
    assert_eq!(obs, vec!["HOST (OBS Studio)", "obsidian"]);
}

#[test]
fn source_selection_is_capped() {
    let list = vec!["a".to_string(), "b".to_string(), "c".to_string()];
    assert_eq!(pick_source(&list, 1), (1, "b".to_string()));
    assert_eq!(pick_source(&list, 7), (2, "c".to_string()));
    assert_eq!(pick_source(&list, -1), (2, "c".to_string()));
    assert_eq!(pick_source(&Vec::new(), 3), (0, String::new()));
}

#[test]
fn output_tab_requests() {
    let mut ndi = NdiOutputState { stream_name: "old".to_string(), include_alpha: true, is_active: false };
    let mut cmd = NdiOutputCommand::Idle;
    request_ndi_output(&mut ndi, &mut cmd, &"Mapper".to_string());
    assert_eq!(cmd, NdiOutputCommand::Start);
    assert_eq!(ndi.stream_name, "Mapper");
    ndi.is_active = true;
    request_ndi_output(&mut ndi, &mut cmd, &"Other".to_string());
    assert_eq!(cmd, NdiOutputCommand::Stop);
    assert_eq!(ndi.stream_name, "Mapper");
    assert!(ndi.include_alpha);

    let mut syphon = SyphonOutputState { enabled: false, server_name: String::new() };
    request_syphon_output(&mut syphon, &"RustJay".to_string());
    assert!(syphon.enabled);
    assert_eq!(syphon.server_name, "RustJay");
    request_syphon_output(&mut syphon, &"X".to_string());
    assert!(!syphon.enabled);
    assert_eq!(syphon.server_name, "RustJay");
}
