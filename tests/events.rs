use api::coordinator::{plan_invalidation, Mutation, Resource};
use api::events::{decimal_string, frame_event, invalidation_event, invalidation_message, CacheInvalidationEvent};

#[test]
fn decimal_formats() {
    assert_eq!(decimal_string(0), "0");
    assert_eq!(decimal_string(7), "7");
    assert_eq!(decimal_string(1700000000), "1700000000");
    assert_eq!(decimal_string(-42), "-42");
    assert_eq!(decimal_string(i64::MIN), "-9223372036854775808");
    assert_eq!(decimal_string(i64::MAX), "9223372036854775807");
}

#[test]
fn frame_event_layout() {
    assert_eq!(
        frame_event("\"a\"", "\"b\"", 5),
        "{\"event_type\":\"a\",\"resource_id\":\"b\",\"timestamp\":5}"
    );
}

#[test]
fn payload_escapes_strings() {
    let e = CacheInvalidationEvent {
        event_type: "lesson_updated".to_string(),
        resource_id: "L\"1".to_string(),
        timestamp: 1700000000,
    };
    assert_eq!(
        e.payload().unwrap(),
        "{\"event_type\":\"lesson_updated\",\"resource_id\":\"L\\\"1\",\"timestamp\":1700000000}"
    );
}

#[test]
fn message_goes_to_invalidation_topic() {
    let e = CacheInvalidationEvent { event_type: "course_deleted".to_string(), resource_id: "C1".to_string(), timestamp: 3 };
    let m = invalidation_message(&e).unwrap();
    assert_eq!(m.topic, "cache-invalidation");
    assert_eq!(m.key, "C1");
    assert_eq!(m.timeout_seconds, 15);
    assert_eq!(m.payload, "{\"event_type\":\"course_deleted\",\"resource_id\":\"C1\",\"timestamp\":3}");
}

#[test]
fn event_is_stamped_now() {
    let e = invalidation_event("module_created", "M1");
    assert_eq!(e.event_type, "module_created");
    assert_eq!(e.resource_id, "M1");
    assert!(e.timestamp > 1_600_000_000);
}

#[test]
fn plans_invalidate_embedding_families() {
    let p = plan_invalidation(Resource::Lesson, Mutation::Updated, "L1");
    assert_eq!(p.event_type, "lesson_updated");
    assert_eq!(p.resource_id, "L1");
    assert_eq!(p.patterns, vec!["lessons:*".to_string(), "modules:*".to_string(), "programs:*".to_string()]);
    let p = plan_invalidation(Resource::Module, Mutation::Deleted, "M1");
    assert_eq!(p.event_type, "module_deleted");
    assert_eq!(p.patterns, vec!["modules:*".to_string(), "programs:*".to_string()]);
    let p = plan_invalidation(Resource::Course, Mutation::Created, "C1");
    assert_eq!(p.event_type, "course_created");
    assert_eq!(p.patterns, vec!["programs:*".to_string()]);
    let p = plan_invalidation(Resource::Lesson, Mutation::Completed, "L2");
    assert_eq!(p.event_type, "lesson_completed");
    assert_eq!(p.patterns.len(), 3);
}

#[test]
fn payload_escapes_control_characters() {
    let e = CacheInvalidationEvent {
        event_type: "a\\b\n\u{1}".to_string(),
        resource_id: "x\ty".to_string(),
        timestamp: -1,
    };
    assert_eq!(
        e.payload().unwrap(),
        "{\"event_type\":\"a\\\\b\\n\\u0001\",\"resource_id\":\"x\\ty\",\"timestamp\":-1}"
    );
}
