use health_check::descriptor::EndpointDescriptor;
use health_check::evaluator::{classify, evaluate, evaluate_batch};

#[test]
fn classify_matching_status_is_healthy() {
    let d = EndpointDescriptor::new("https://example.com".to_string(), 200).unwrap();
    let r = classify(&d, Ok(200));
    assert_eq!(r.url, "https://example.com");
    assert!(r.is_healthy);
    assert_eq!(r.actual_status_code, 200);
    assert!(r.error.is_none());
}

#[test]
fn classify_mismatched_status_is_unhealthy() {
    let d = EndpointDescriptor::new("https://example.com/missing".to_string(), 200).unwrap();
    let r = classify(&d, Ok(404));
    assert!(!r.is_healthy);
    assert_eq!(r.actual_status_code, 404);
    assert!(r.error.is_none());
}

#[test]
fn classify_transport_failure_is_code_zero_with_error() {
    let d = EndpointDescriptor::new("https://nonexistent.invalid".to_string(), 200).unwrap();
    let r = classify(&d, Err("dns error: name not found".to_string()));
    assert!(!r.is_healthy);
    assert_eq!(r.actual_status_code, 0);
    assert_eq!(r.error.as_deref(), Some("dns error: name not found"));
}

#[test]
fn repeated_classification_agrees() {
    let d = EndpointDescriptor::new("https://example.com".to_string(), 204).unwrap();
    let first = classify(&d, Ok(204));
    let second = classify(&d, Ok(204));
    assert_eq!(first.is_healthy, second.is_healthy);
    assert_eq!(first.actual_status_code, second.actual_status_code);
    assert_eq!(first.url, second.url);
}

#[test]
fn evaluate_unreachable_host_recovers() {
    // Port 9 on the loopback interface is not listening, so the connection
    // is refused and no response is obtained.
    let d = EndpointDescriptor::new("http://127.0.0.1:9/".to_string(), 200).unwrap();
    let r = evaluate(&d);
    assert!(!r.is_healthy);
    assert_eq!(r.actual_status_code, 0);
    assert!(r.error.is_some());
    assert_eq!(r.url, "http://127.0.0.1:9/");
}

#[test]
fn evaluate_batch_preserves_count_and_order() {
    let descriptors = vec![
        EndpointDescriptor::new("http://127.0.0.1:9/a".to_string(), 200).unwrap(),
        EndpointDescriptor::new("http://127.0.0.1:9/b".to_string(), 404).unwrap(),
        EndpointDescriptor::new("http://127.0.0.1:9/c".to_string(), 503).unwrap(),
    ];
    let results = evaluate_batch(&descriptors);
    assert_eq!(results.len(), 3);
    assert_eq!(results[0].url, "http://127.0.0.1:9/a");
    assert_eq!(results[1].url, "http://127.0.0.1:9/b");
    assert_eq!(results[2].url, "http://127.0.0.1:9/c");
    for r in &results {
        assert!(!r.is_healthy);
        assert_eq!(r.actual_status_code, 0);
        assert!(r.error.is_some());
    }
}

#[test]
fn evaluate_batch_of_none_returns_none() {
    let descriptors: Vec<EndpointDescriptor> = Vec::new();
    let results = evaluate_batch(&descriptors);
    assert!(results.is_empty());
}

#[test]
fn batch_of_three_with_one_transport_failure() {
    let descriptors = vec![
        EndpointDescriptor::new("https://example.com".to_string(), 200).unwrap(),
        EndpointDescriptor::new("https://nonexistent.invalid".to_string(), 200).unwrap(),
        EndpointDescriptor::new("https://example.com/health".to_string(), 204).unwrap(),
    ];
    let outcomes = vec![
        Ok(200),
        Err("connection failed".to_string()),
        Ok(204),
    ];
    let mut results = Vec::new();
    for (d, o) in descriptors.iter().zip(outcomes) {
        results.push(classify(d, o));
    }
    assert_eq!(results.len(), 3);
    assert!(results[0].is_healthy);
    assert_eq!(results[0].actual_status_code, 200);
    assert!(!results[1].is_healthy);
    assert_eq!(results[1].actual_status_code, 0);
    assert!(results[1].error.is_some());
    assert!(results[2].is_healthy);
    assert_eq!(results[2].actual_status_code, 204);
}
