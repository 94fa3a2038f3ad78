use cogniscribe::platform::{Arch, Platform};
use cogniscribe::process_manager::{
    api_answers, api_binary_name, deepfilter_binary_name, deepfilternet_paths, port_verdict,
    preferred_ports, wait_step, DeepFilterNetPaths, GenerateOutcome, OllamaStart, PortVerdict,
    ProcessManager, ServiceProbe, ServiceStatus, StartAnswer, StartStep, WaitStep,
    API_HEALTH_ATTEMPTS, OLLAMA_HEALTH_ATTEMPTS,
};

fn nothing_runs() -> ServiceProbe {
    ServiceProbe {
        ollama_child_running: false,
        ollama_port_listening: false,
        api_child_running: false,
        api_port_listening: false,
    }
}

#[test]
fn test_process_manager_creation() {
    let manager = ProcessManager::new();
    assert_eq!(manager.ollama_port(), 11436);
    assert!(!manager.uses_port_checks());
}

#[test]
fn test_service_status_default() {
    let mut manager = ProcessManager::new();
    let status = manager.get_status(nothing_runs());

    assert_eq!(status.ollama_running, false);
    assert_eq!(status.api_running, false);
    assert_eq!(status.whisper_loaded, false);
    assert_eq!(status.deepfilter_available, false);
}

#[test]
fn listening_ports_count_only_after_start() {
    let mut manager = ProcessManager::new();
    let ports_only = ServiceProbe {
        ollama_child_running: false,
        ollama_port_listening: true,
        api_child_running: false,
        api_port_listening: true,
    };
    let before = manager.get_status(ports_only);
    assert!(!before.ollama_running);
    assert!(!before.api_running);
    manager.start_all();
    let after = manager.get_status(ports_only);
    assert!(after.ollama_running);
    assert!(after.api_running);
    assert!(after.whisper_loaded);
    let children = ServiceProbe {
        ollama_child_running: true,
        ollama_port_listening: false,
        api_child_running: false,
        api_port_listening: false,
    };
    let status = manager.get_status(children);
    assert!(status.ollama_running);
    assert!(!status.api_running);
    assert!(!status.whisper_loaded);
}

#[test]
fn status_reports_deepfilter() {
    let mut manager = ProcessManager::new();
    manager.set_ollama_port(11440);
    assert_eq!(manager.ollama_port(), 11440);
    manager.set_deepfilter(Some(DeepFilterNetPaths {
        bin_name: "deep-filter".to_string(),
        model_name: "DeepFilterNet3_onnx.tar.gz".to_string(),
    }));
    let status = manager.get_status(nothing_runs());
    assert_eq!(
        status,
        ServiceStatus {
            ollama_running: false,
            api_running: false,
            whisper_loaded: false,
            deepfilter_available: true,
            deepfilter_binary: Some("deep-filter".to_string()),
            deepfilter_model: Some("DeepFilterNet3_onnx.tar.gz".to_string()),
        }
    );
    manager.set_deepfilter(None);
    let status = manager.get_status(nothing_runs());
    assert!(!status.deepfilter_available);
    assert_eq!(status.deepfilter_binary, None);
    assert_eq!(status.deepfilter_model, None);
}

#[test]
fn ollama_ports_are_tried_in_order() {
    assert_eq!(
        preferred_ports(),
        vec![11436, 11434, 11437, 11438, 11439, 11440, 11441, 11442, 11443, 11444, 11445, 11446]
    );
}

#[test]
fn existing_server_is_used_only_if_it_works() {
    assert_eq!(port_verdict(true, GenerateOutcome::Success), PortVerdict::UseExisting);
    assert_eq!(port_verdict(true, GenerateOutcome::TimedOut), PortVerdict::UseExisting);
    assert_eq!(port_verdict(true, GenerateOutcome::Rejected), PortVerdict::TryNext);
    assert_eq!(port_verdict(true, GenerateOutcome::Failed), PortVerdict::TryNext);
    assert_eq!(port_verdict(false, GenerateOutcome::Success), PortVerdict::TryNext);
}

#[test]
fn health_is_waited_for_a_bounded_time() {
    assert_eq!(OLLAMA_HEALTH_ATTEMPTS, 30);
    assert_eq!(API_HEALTH_ATTEMPTS, 60);
    assert_eq!(wait_step(1, 30, true), WaitStep::Ready);
    assert_eq!(wait_step(30, 30, true), WaitStep::Ready);
    assert_eq!(wait_step(1, 30, false), WaitStep::Retry);
    assert_eq!(wait_step(29, 30, false), WaitStep::Retry);
    assert_eq!(wait_step(30, 30, false), WaitStep::GiveUp);
    assert!(api_answers(200));
    assert!(api_answers(503));
    assert!(!api_answers(500));
    assert!(!api_answers(404));
}

#[test]
fn deepfilter_needs_directory_binary_and_model() {
    let found = deepfilternet_paths(Platform::MacOs, Arch::Aarch64, true, true, true).unwrap();
    assert_eq!(found.bin_name, "deep-filter-0.5.6-aarch64-apple-darwin");
    assert_eq!(found.model_name, "DeepFilterNet3_onnx.tar.gz");
    assert_eq!(deepfilternet_paths(Platform::MacOs, Arch::Aarch64, false, true, true), None);
    assert_eq!(deepfilternet_paths(Platform::MacOs, Arch::Aarch64, true, false, true), None);
    assert_eq!(deepfilternet_paths(Platform::MacOs, Arch::Aarch64, true, true, false), None);
    assert_eq!(deepfilternet_paths(Platform::Linux, Arch::X86_64, true, true, true), None);
    assert_eq!(
        deepfilter_binary_name(Platform::Windows, Arch::X86_64),
        Some("deep-filter-0.5.6-x86_64-pc-windows-msvc.exe")
    );
    assert_eq!(
        deepfilter_binary_name(Platform::MacOs, Arch::X86_64),
        Some("deep-filter-0.5.6-x86_64-apple-darwin")
    );
    assert_eq!(deepfilter_binary_name(Platform::Linux, Arch::Aarch64), None);
    assert_eq!(api_binary_name(Platform::Windows), "cogniscribe-api.exe");
    assert_eq!(api_binary_name(Platform::Linux), "cogniscribe-api");
}

#[test]
fn free_port_gets_the_bundled_server() {
    let mut start = OllamaStart::new();
    assert_eq!(start.step(), StartStep::Probe(11436));
    assert_eq!(start.answer(StartAnswer::Listening(false)), StartStep::Spawn(11436));
    assert_eq!(start.answer(StartAnswer::Spawned(true)), StartStep::AwaitHealth(11436));
    assert_eq!(start.answer(StartAnswer::Healthy(true)), StartStep::Started(11436));
    assert_eq!(start.answer(StartAnswer::Healthy(false)), StartStep::Started(11436));
    assert_eq!(start.step(), StartStep::Started(11436));
}

#[test]
fn working_server_is_taken_over() {
    let mut start = OllamaStart::new();
    assert_eq!(start.answer(StartAnswer::Listening(true)), StartStep::AskTags(11436));
    assert_eq!(start.answer(StartAnswer::Tags(true)), StartStep::AskGenerate(11436));
    assert_eq!(
        start.answer(StartAnswer::Generate(GenerateOutcome::TimedOut)),
        StartStep::UseExisting(11436)
    );
}

#[test]
fn unusable_ports_are_passed_over() {
    let mut start = OllamaStart::new();
    assert_eq!(start.answer(StartAnswer::Listening(true)), StartStep::AskTags(11436));
    assert_eq!(start.answer(StartAnswer::Tags(false)), StartStep::Probe(11434));
    assert_eq!(start.answer(StartAnswer::Listening(true)), StartStep::AskTags(11434));
    assert_eq!(start.answer(StartAnswer::Tags(true)), StartStep::AskGenerate(11434));
    assert_eq!(
        start.answer(StartAnswer::Generate(GenerateOutcome::Rejected)),
        StartStep::Probe(11437)
    );
    assert_eq!(start.answer(StartAnswer::Listening(false)), StartStep::Spawn(11437));
    assert_eq!(start.answer(StartAnswer::Spawned(true)), StartStep::AwaitHealth(11437));
    assert_eq!(start.answer(StartAnswer::Healthy(false)), StartStep::Abandon(11437));
    assert_eq!(start.answer(StartAnswer::Abandoned), StartStep::Probe(11438));
    assert_eq!(start.answer(StartAnswer::Listening(false)), StartStep::Spawn(11438));
    assert_eq!(start.answer(StartAnswer::Spawned(false)), StartStep::SpawnFailed);
}

#[test]
fn answer_to_another_question_changes_nothing() {
    let mut start = OllamaStart::new();
    assert_eq!(start.answer(StartAnswer::Healthy(true)), StartStep::Probe(11436));
    assert_eq!(start.answer(StartAnswer::Abandoned), StartStep::Probe(11436));
    assert_eq!(start.answer(StartAnswer::Tags(true)), StartStep::Probe(11436));
}

#[test]
fn start_gives_up_when_the_ports_are_used_up() {
    let mut start = OllamaStart::new();
    let mut step = start.step();
    let mut probed = Vec::new();
    while let StartStep::Probe(port) = step {
        probed.push(port);
        assert_eq!(start.answer(StartAnswer::Listening(true)), StartStep::AskTags(port));
        step = start.answer(StartAnswer::Tags(false));
    }
    assert_eq!(step, StartStep::NoPortLeft);
    assert_eq!(probed, preferred_ports());
    assert_eq!(start.answer(StartAnswer::Listening(false)), StartStep::NoPortLeft);
}
