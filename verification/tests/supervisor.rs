use live_vision_analyzer::http::{is_success, Reply};
use live_vision_analyzer::ollama_manager::{
    lists_vision_model, DownloadPlan, OllamaManager, Platform, PullPlan, StartAction, StartEvent,
    StartPhase,
};

fn answered(status: u16, status_text: &str, body: &str) -> Reply {
    Reply::Answered {
        status,
        status_text: status_text.to_string(),
        body: Ok(body.to_string()),
    }
}

fn manager() -> OllamaManager {
    OllamaManager::new(Some("/home/ada".to_string()))
}

#[test]
fn success_codes_are_the_two_hundreds() {
    assert!(!is_success(199));
    assert!(is_success(200));
    assert!(is_success(204));
    assert!(is_success(299));
    assert!(!is_success(300));
    assert!(!is_success(404));
    assert!(!is_success(500));
}

#[test]
fn status_of_a_timeout_is_not_running_with_a_cause() {
    let status = OllamaManager::check_status(&Reply::Unreachable {
        cause: "operation timed out".to_string(),
    });
    assert!(!status.running);
    assert!(!status.model_ready);
    assert_eq!(
        status.error,
        Some("Ollama server not responding: operation timed out".to_string())
    );
}

#[test]
fn status_of_a_timeout_without_a_cause_still_has_an_error() {
    let status = OllamaManager::check_status(&Reply::Unreachable { cause: String::new() });
    assert!(!status.running);
    assert!(!status.error.unwrap().is_empty());
}

#[test]
fn status_of_a_failing_server_names_the_status() {
    let status = OllamaManager::check_status(&answered(
        503,
        "503 Service Unavailable",
        "{\"models\":[{\"name\":\"llava:7b\"}]}",
    ));
    assert!(!status.running);
    assert!(!status.model_ready);
    assert_eq!(
        status.error,
        Some("Ollama server returned: 503 Service Unavailable".to_string())
    );
}

#[test]
fn status_with_the_model_is_ready() {
    let status = OllamaManager::check_status(&answered(
        200,
        "200 OK",
        "{\"models\":[{\"name\":\"llava:7b\"}]}",
    ));
    assert!(status.running);
    assert!(status.model_ready);
    assert_eq!(status.error, None);
}

#[test]
fn status_without_the_model_is_running_but_not_ready() {
    let status = OllamaManager::check_status(&answered(
        200,
        "200 OK",
        "{\"models\":[{\"name\":\"mistral:7b\"}]}",
    ));
    assert!(status.running);
    assert!(!status.model_ready);
    assert_eq!(status.error, None);
}

#[test]
fn status_with_an_unreadable_catalog_is_running_with_an_error() {
    let status = OllamaManager::check_status(&Reply::Answered {
        status: 200,
        status_text: "200 OK".to_string(),
        body: Err("error decoding response body".to_string()),
    });
    assert!(status.running);
    assert!(!status.model_ready);
    assert_eq!(
        status.error,
        Some("Ollama response could not be read: error decoding response body".to_string())
    );
}

#[test]
fn status_of_a_failing_server_with_an_unreadable_body_is_not_running() {
    let status = OllamaManager::check_status(&Reply::Answered {
        status: 500,
        status_text: "500 Internal Server Error".to_string(),
        body: Err("reset".to_string()),
    });
    assert!(!status.running);
    assert!(!status.model_ready);
    assert_eq!(
        status.error,
        Some("Ollama server returned: 500 Internal Server Error".to_string())
    );
}

#[test]
fn download_succeeds_only_on_a_status_of_success_with_a_body() {
    assert_eq!(OllamaManager::download_result(&answered(200, "200 OK", "")), Ok(()));
    assert_eq!(
        OllamaManager::download_result(&answered(404, "404 Not Found", "Not Found")),
        Err("Failed to download Ollama: 404 Not Found".to_string())
    );
    assert_eq!(
        OllamaManager::download_result(&answered(302, "302 Found", "")),
        Err("Failed to download Ollama: 302 Found".to_string())
    );
    assert_eq!(
        OllamaManager::download_result(&Reply::Unreachable { cause: "no route".to_string() }),
        Err("Failed to download Ollama: no route".to_string())
    );
    assert_eq!(
        OllamaManager::download_result(&Reply::Answered {
            status: 200,
            status_text: "200 OK".to_string(),
            body: Err("connection closed".to_string()),
        }),
        Err("Failed to read download: connection closed".to_string())
    );
}

#[test]
fn every_marker_of_the_vision_family_counts() {
    assert!(lists_vision_model("llava:7b"));
    assert!(lists_vision_model("xx llava:13b yy"));
    assert!(lists_vision_model("name: llama3.2-vision:11b"));
    assert!(!lists_vision_model("llava"));
    assert!(!lists_vision_model("llama3.2"));
    assert!(!lists_vision_model(""));
    assert!(!lists_vision_model("LLAVA:7B"));
}

#[test]
fn new_manager_keeps_its_files_under_home() {
    let manager = manager();
    assert_eq!(manager.process_id(), None);
    assert_eq!(manager.start_phase(), StartPhase::Idle);
    assert_eq!(manager.models_dir(), "/home/ada/.live-vision-analyzer/ollama/models");
    assert_eq!(
        manager.binary_path(Platform::Linux),
        "/home/ada/.live-vision-analyzer/ollama/bin/ollama"
    );
    assert_eq!(
        manager.binary_path(Platform::Windows),
        "/home/ada/.live-vision-analyzer/ollama/bin/ollama.exe"
    );
    assert_eq!(
        manager.manifest_path("llava:7b"),
        "/home/ada/.live-vision-analyzer/ollama/models/manifests/registry.ollama.ai/library/llava:7b"
    );
}

#[test]
fn probes_go_to_the_fixed_address_with_a_short_timeout() {
    let liveness = OllamaManager::liveness_probe();
    assert_eq!(liveness.url, "http://127.0.0.1:11434/api/version");
    assert_eq!(liveness.timeout_ms, 2000);
    let catalog = OllamaManager::catalog_probe();
    assert_eq!(catalog.url, "http://127.0.0.1:11434/api/tags");
    assert_eq!(catalog.timeout_ms, 2000);
}

#[test]
fn server_is_alive_only_when_it_answers_with_success() {
    assert!(OllamaManager::is_alive(&answered(200, "200 OK", "{\"version\":\"0.4.7\"}")));
    assert!(!OllamaManager::is_alive(&answered(500, "500 Internal Server Error", "")));
    assert!(!OllamaManager::is_alive(&Reply::Unreachable { cause: "refused".to_string() }));
}

#[test]
fn server_is_spawned_with_its_models_directory_and_address() {
    let manager = manager();
    assert_eq!(manager.data_directory(), "/home/ada/.live-vision-analyzer/ollama");
    let command = manager.spawn_command("/opt/ollama".to_string());
    assert_eq!(command.program, "/opt/ollama");
    assert_eq!(command.argument, "serve");
    assert_eq!(command.models_dir, "/home/ada/.live-vision-analyzer/ollama/models");
    assert_eq!(command.host, "127.0.0.1:11434");
}

#[test]
fn new_manager_without_home_uses_tmp() {
    let manager = OllamaManager::new(None);
    assert_eq!(manager.models_dir(), "/tmp/.live-vision-analyzer/ollama/models");
}

#[test]
fn present_binary_is_not_fetched() {
    match manager().download_ollama(Platform::Linux, true) {
        DownloadPlan::Present { path } => {
            assert_eq!(path, "/home/ada/.live-vision-analyzer/ollama/bin/ollama")
        }
        DownloadPlan::Fetch { .. } => panic!("a present binary was to be fetched"),
    }
}

#[test]
fn absent_binary_is_fetched_for_the_platform() {
    let cases = [
        (
            Platform::MacOs,
            "https://github.com/ollama/ollama/releases/download/v0.4.7/ollama-darwin",
        ),
        (
            Platform::Windows,
            "https://github.com/ollama/ollama/releases/download/v0.4.7/ollama-windows-amd64.exe",
        ),
        (
            Platform::Linux,
            "https://github.com/ollama/ollama/releases/download/v0.4.7/ollama-linux-amd64",
        ),
    ];
    for (platform, expected) in cases {
        match manager().download_ollama(platform, false) {
            DownloadPlan::Fetch { url, path, mode } => {
                assert_eq!(url, expected);
                assert_eq!(path, manager().binary_path(platform));
                assert_eq!(mode, 0o755);
            }
            DownloadPlan::Present { .. } => panic!("an absent binary was taken as present"),
        }
    }
}

#[test]
fn start_walks_through_every_step() {
    let mut manager = manager();
    assert!(matches!(manager.start(StartEvent::Requested), StartAction::Probe));
    assert_eq!(manager.start_phase(), StartPhase::Probing);
    assert!(matches!(
        manager.start(StartEvent::Probed { alive: false }),
        StartAction::EnsureBinary
    ));
    assert!(matches!(
        manager.start(StartEvent::BinaryReady { failure: None }),
        StartAction::CreateModelsDir
    ));
    assert!(matches!(
        manager.start(StartEvent::DirectoryReady { failure: None }),
        StartAction::Spawn
    ));
    assert_eq!(manager.process_id(), None);
    assert!(matches!(
        manager.start(StartEvent::Spawned { outcome: Ok(4242) }),
        StartAction::Settle { seconds: 2 }
    ));
    assert_eq!(manager.process_id(), Some(4242));
    assert!(matches!(manager.start(StartEvent::Settled), StartAction::Finished));
    assert_eq!(manager.start_phase(), StartPhase::Idle);
    assert_eq!(manager.process_id(), Some(4242));
}

#[test]
fn second_start_spawns_nothing() {
    let mut manager = manager();
    manager.start(StartEvent::Requested);
    manager.start(StartEvent::Probed { alive: false });
    manager.start(StartEvent::BinaryReady { failure: None });
    manager.start(StartEvent::DirectoryReady { failure: None });
    manager.start(StartEvent::Spawned { outcome: Ok(7) });
    manager.start(StartEvent::Settled);
    assert!(matches!(manager.start(StartEvent::Requested), StartAction::Finished));
    assert_eq!(manager.start_phase(), StartPhase::Idle);
    assert_eq!(manager.process_id(), Some(7));
    assert!(matches!(
        manager.start(StartEvent::Spawned { outcome: Ok(8) }),
        StartAction::Ignored
    ));
    assert_eq!(manager.process_id(), Some(7));
}

#[test]
fn answering_server_is_used_as_it_is() {
    let mut manager = manager();
    assert!(matches!(manager.start(StartEvent::Requested), StartAction::Probe));
    assert!(matches!(
        manager.start(StartEvent::Probed { alive: true }),
        StartAction::Finished
    ));
    assert_eq!(manager.process_id(), None);
    assert_eq!(manager.start_phase(), StartPhase::Idle);
}

#[test]
fn start_fails_with_the_reason_of_the_step() {
    let mut manager = manager();
    manager.start(StartEvent::Requested);
    manager.start(StartEvent::Probed { alive: false });
    match manager.start(StartEvent::BinaryReady {
        failure: Some("Failed to download Ollama: no route".to_string()),
    }) {
        StartAction::Failed { reason } => assert_eq!(reason, "Failed to download Ollama: no route"),
        _ => panic!("a failed download did not fail the start"),
    }
    assert_eq!(manager.start_phase(), StartPhase::Idle);

    manager.start(StartEvent::Requested);
    manager.start(StartEvent::Probed { alive: false });
    manager.start(StartEvent::BinaryReady { failure: None });
    match manager.start(StartEvent::DirectoryReady { failure: Some("read-only".to_string()) }) {
        StartAction::Failed { reason } => assert_eq!(reason, "read-only"),
        _ => panic!("a failed directory did not fail the start"),
    }

    manager.start(StartEvent::Requested);
    manager.start(StartEvent::Probed { alive: false });
    manager.start(StartEvent::BinaryReady { failure: None });
    manager.start(StartEvent::DirectoryReady { failure: None });
    match manager.start(StartEvent::Spawned { outcome: Err("exec format error".to_string()) }) {
        StartAction::Failed { reason } => {
            assert_eq!(reason, "Failed to start Ollama: exec format error")
        }
        _ => panic!("a failed spawn did not fail the start"),
    }
    assert_eq!(manager.process_id(), None);
    assert_eq!(manager.start_phase(), StartPhase::Idle);
}

#[test]
fn event_out_of_turn_is_ignored() {
    let mut manager = manager();
    assert!(matches!(manager.start(StartEvent::Settled), StartAction::Ignored));
    assert!(matches!(
        manager.start(StartEvent::Probed { alive: true }),
        StartAction::Ignored
    ));
    assert_eq!(manager.start_phase(), StartPhase::Idle);
    manager.start(StartEvent::Requested);
    assert!(matches!(manager.start(StartEvent::Settled), StartAction::Ignored));
    assert!(matches!(
        manager.start(StartEvent::Spawned { outcome: Ok(5) }),
        StartAction::Ignored
    ));
    assert_eq!(manager.process_id(), None);
    assert_eq!(manager.start_phase(), StartPhase::Probing);
}

#[test]
fn request_begins_a_start_afresh() {
    let mut manager = manager();
    manager.start(StartEvent::Requested);
    manager.start(StartEvent::Probed { alive: false });
    assert_eq!(manager.start_phase(), StartPhase::Fetching);
    assert!(matches!(manager.start(StartEvent::Requested), StartAction::Probe));
    assert_eq!(manager.start_phase(), StartPhase::Probing);

    manager.start(StartEvent::Probed { alive: false });
    manager.start(StartEvent::BinaryReady { failure: None });
    manager.start(StartEvent::DirectoryReady { failure: None });
    manager.start(StartEvent::Spawned { outcome: Ok(11) });
    assert_eq!(manager.start_phase(), StartPhase::Settling);
    assert!(matches!(manager.start(StartEvent::Requested), StartAction::Finished));
    assert_eq!(manager.start_phase(), StartPhase::Idle);
    assert_eq!(manager.process_id(), Some(11));
}

#[test]
fn stop_hands_out_the_process_once() {
    let mut manager = manager();
    assert_eq!(manager.stop(), None);
    manager.start(StartEvent::Requested);
    manager.start(StartEvent::Probed { alive: false });
    manager.start(StartEvent::BinaryReady { failure: None });
    manager.start(StartEvent::DirectoryReady { failure: None });
    manager.start(StartEvent::Spawned { outcome: Ok(99) });
    manager.start(StartEvent::Settled);
    assert_eq!(manager.stop(), Some(99));
    assert_eq!(manager.process_id(), None);
    assert_eq!(manager.stop(), None);
    assert!(matches!(manager.start(StartEvent::Requested), StartAction::Probe));
}

#[test]
fn model_on_disk_needs_no_request() {
    let manager = manager();
    assert!(matches!(manager.pull_model("x", false), PullPlan::Request { .. }));
    assert!(matches!(manager.pull_model("x", true), PullPlan::AlreadyPresent));
}

#[test]
fn model_not_on_disk_is_pulled_without_streaming() {
    match manager().pull_model("llava:7b", false) {
        PullPlan::Request { url, name, stream } => {
            assert_eq!(url, "http://127.0.0.1:11434/api/pull");
            assert_eq!(name, "llava:7b");
            assert!(!stream);
        }
        PullPlan::AlreadyPresent => panic!("an absent model was taken as present"),
    }
}

#[test]
fn pull_succeeds_only_on_a_status_of_success() {
    assert_eq!(OllamaManager::pull_result(&answered(200, "200 OK", "{}")), Ok(()));
    assert_eq!(
        OllamaManager::pull_result(&answered(404, "404 Not Found", "")),
        Err("Failed to pull model: 404 Not Found".to_string())
    );
    assert_eq!(
        OllamaManager::pull_result(&Reply::Unreachable {
            cause: "connection refused".to_string()
        }),
        Err("Failed to pull model: connection refused".to_string())
    );
}
