use live_vision_analyzer::analysis::AnalysisResult;
use live_vision_analyzer::comparison::{analyze_ab_test, dispatch_comparison, Comparison, Launch};
use live_vision_analyzer::dispatch::ProviderKind;
use live_vision_analyzer::moondream_manager::{MoondreamManager, Operation, ProviderRequest};
use live_vision_analyzer::ollama_manager::OllamaStatus;

fn fine(provider: &str, text: &str, elapsed_ms: u64) -> AnalysisResult {
    AnalysisResult::success(provider, text.to_string(), None, elapsed_ms, None)
}

fn failed(provider: &str, error: &str, elapsed_ms: u64) -> AnalysisResult {
    AnalysisResult::failure(provider, elapsed_ms, error.to_string())
}

fn two() -> Comparison {
    Comparison::begin(&vec!["fast".to_string(), "slow".to_string()])
}

#[test]
fn failing_provider_stays_in_the_report() {
    let report = analyze_ab_test(failed("llava", "Ollama not ready", 3), fine("cloud", "a room", 250), 260);
    assert_eq!(report.entries.len(), 2);
    assert_eq!(report.entries[0].provider, "llava");
    assert_eq!(report.entries[0].result.error, Some("Ollama not ready".to_string()));
    assert_eq!(report.entries[0].result.response, "");
    assert_eq!(report.entries[0].result.processing_time_ms, 3);
    assert_eq!(report.entries[1].provider, "cloud");
    assert_eq!(report.entries[1].result.error, None);
    assert_eq!(report.entries[1].result.response, "a room");
    assert_eq!(report.entries[1].result.processing_time_ms, 250);
    assert_eq!(report.total_comparison_time_ms, 260);
}

#[test]
fn report_carries_a_fresh_identifier_and_the_time() {
    let first = analyze_ab_test(fine("llava", "a", 1), fine("cloud", "b", 2), 5);
    let second = analyze_ab_test(fine("llava", "a", 1), fine("cloud", "b", 2), 5);
    assert_eq!(first.test_id.len(), 36);
    assert_eq!(first.test_id.matches('-').count(), 4);
    assert!(uuid::Uuid::parse_str(&first.test_id).is_ok());
    assert_ne!(first.test_id, second.test_id);
    assert!(chrono::DateTime::parse_from_rfc3339(&first.timestamp).is_ok());
}

#[test]
fn total_time_is_never_less_than_the_slower_branch() {
    let report = analyze_ab_test(fine("llava", "a", 900), fine("cloud", "b", 40), 100);
    assert_eq!(report.total_comparison_time_ms, 900);
    let report = analyze_ab_test(fine("llava", "a", 900), fine("cloud", "b", 1200), 100);
    assert_eq!(report.total_comparison_time_ms, 1200);
    let report = analyze_ab_test(fine("llava", "a", 900), fine("cloud", "b", 40), 901);
    assert_eq!(report.total_comparison_time_ms, 901);
    let report = analyze_ab_test(fine("llava", "a", 0), fine("cloud", "b", 0), 0);
    assert_eq!(report.total_comparison_time_ms, 0);
}

#[test]
fn comparison_is_complete_only_when_all_have_settled() {
    let mut comparison = two();
    assert_eq!(comparison.len(), 2);
    assert!(!comparison.is_complete());
    assert!(comparison.settle(1, failed("slow", "timed out", 5000)));
    assert!(!comparison.is_complete());
    assert!(comparison.settle(0, fine("fast", "done", 20)));
    assert!(comparison.is_complete());
}

#[test]
fn unfinished_comparison_makes_no_report() {
    let mut comparison = two();
    assert!(comparison.settle(0, fine("fast", "done", 20)));
    let comparison = match comparison.finish(30, "id".to_string(), "now".to_string()) {
        Err(unfinished) => unfinished,
        Ok(_) => panic!("a report was made with a call under way"),
    };
    assert_eq!(comparison.len(), 2);
    assert!(!comparison.is_complete());
}

#[test]
fn call_settles_once_and_only_in_its_place() {
    let mut comparison = two();
    assert!(comparison.settle(0, fine("fast", "first", 20)));
    assert!(!comparison.settle(0, fine("fast", "second", 25)));
    assert!(!comparison.settle(2, fine("nobody", "x", 1)));
    assert!(comparison.settle(1, failed("slow", "timed out", 5000)));
    let report = comparison.finish(5001, "id-1".to_string(), "2024-01-01T00:00:00+00:00".to_string());
    let report = report.ok().unwrap();
    assert_eq!(report.test_id, "id-1");
    assert_eq!(report.timestamp, "2024-01-01T00:00:00+00:00");
    assert_eq!(report.entries.len(), 2);
    assert_eq!(report.entries[0].provider, "fast");
    assert_eq!(report.entries[0].result.response, "first");
    assert_eq!(report.entries[0].result.processing_time_ms, 20);
    assert_eq!(report.entries[1].provider, "slow");
    assert_eq!(report.entries[1].result.error, Some("timed out".to_string()));
    assert_eq!(report.total_comparison_time_ms, 5001);
}

#[test]
fn entries_keep_the_order_of_the_providers() {
    let names = vec!["a".to_string(), "b".to_string(), "c".to_string(), "d".to_string()];
    let mut comparison = Comparison::begin(&names);
    for index in [2usize, 0, 3, 1] {
        assert!(comparison.settle(index, fine(&names[index], &names[index], index as u64 * 10)));
    }
    let report = comparison.finish(0, String::new(), String::new()).ok().unwrap();
    let providers: Vec<&str> = report.entries.iter().map(|e| e.provider.as_str()).collect();
    assert_eq!(providers, vec!["a", "b", "c", "d"]);
    let texts: Vec<&str> = report.entries.iter().map(|e| e.result.response.as_str()).collect();
    assert_eq!(texts, vec!["a", "b", "c", "d"]);
    assert_eq!(report.total_comparison_time_ms, 30);
}

#[test]
fn comparison_of_no_providers_is_complete_at_once() {
    let comparison = Comparison::begin(&Vec::new());
    assert!(comparison.is_complete());
    let report = comparison.finish(12, "id".to_string(), "t".to_string()).ok().unwrap();
    assert!(report.entries.is_empty());
    assert_eq!(report.total_comparison_time_ms, 12);
}

fn query() -> ProviderRequest {
    ProviderRequest {
        operation: Operation::Query,
        image_base64: "QUJD".to_string(),
        parameter: Some("What is here?".to_string()),
        timeout_ms: None,
    }
}

#[test]
fn provider_that_is_not_ready_fails_fast_and_the_other_is_called() {
    let cloud = MoondreamManager::new("k".to_string());
    let down = OllamaStatus { running: false, model_ready: false, error: Some("down".to_string()) };
    let kinds = vec![ProviderKind::Local, ProviderKind::Cloud];
    let (mut comparison, launches) = dispatch_comparison(&query(), &kinds, Some(&down), &cloud);
    assert_eq!(comparison.len(), 2);
    assert_eq!(launches.len(), 2);
    assert!(matches!(launches[0], Launch::Settled));
    match &launches[1] {
        Launch::Cloud(call) => {
            assert_eq!(call.url, "https://api.moondream.ai/v1/query");
            assert_eq!(call.value, "What is here?");
        }
        _ => panic!("the cloud provider was not called"),
    }
    assert!(!comparison.is_complete());
    assert!(!comparison.settle(0, fine("llava", "late", 1)));
    assert!(comparison.settle(1, fine("cloud", "a desk", 70)));
    let report = comparison.finish(75, "id".to_string(), "t".to_string()).ok().unwrap();
    assert_eq!(report.entries.len(), 2);
    assert_eq!(report.entries[0].provider, "llava");
    assert_eq!(report.entries[0].result.error, Some("Ollama not ready".to_string()));
    assert_eq!(report.entries[0].result.response, "");
    assert_eq!(report.entries[1].provider, "cloud");
    assert_eq!(report.entries[1].result.error, None);
    assert_eq!(report.entries[1].result.response, "a desk");
    assert_eq!(report.total_comparison_time_ms, 75);
}

#[test]
fn ready_providers_are_all_called() {
    let cloud = MoondreamManager::new("k".to_string());
    let up = OllamaStatus { running: true, model_ready: true, error: None };
    let kinds = vec![ProviderKind::Cloud, ProviderKind::Local, ProviderKind::Cloud];
    let (comparison, launches) = dispatch_comparison(&query(), &kinds, Some(&up), &cloud);
    assert_eq!(comparison.len(), 3);
    assert!(matches!(launches[0], Launch::Cloud(_)));
    match &launches[1] {
        Launch::Local(call) => {
            assert_eq!(call.prompt, "What is here?");
            assert_eq!(call.timeout_ms, 30000);
        }
        _ => panic!("the local provider was not called"),
    }
    assert!(matches!(launches[2], Launch::Cloud(_)));
    assert!(!comparison.is_complete());
}

#[test]
fn local_provider_without_a_status_is_not_called() {
    let cloud = MoondreamManager::new("k".to_string());
    let (comparison, launches) =
        dispatch_comparison(&query(), &vec![ProviderKind::Local], None, &cloud);
    assert!(matches!(launches[0], Launch::Settled));
    assert!(comparison.is_complete());
}
