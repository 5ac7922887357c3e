use th_commit::decode::{decode_legacy, decode_outcome, decode_result, decode_structured, StructuredPayload};
use th_commit::protocol::{ActorId, ActorOutcome};

fn payload_with_status_msg(msg: &str) -> StructuredPayload {
    StructuredPayload {
        success: None,
        message: None,
        commit_hash: None,
        commit_message: None,
        files_changed: None,
        insertions: None,
        deletions: None,
        pushed: None,
        error: None,
        status_msg: Some(msg.to_string()),
    }
}

#[test]
fn legacy_full_record() {
    let r = decode_legacy("STATUS:true|HASH:abc123|COMMIT_MSG:test commit|FILES:2|INS:10|DELS:5");
    assert!(r.success);
    assert_eq!(r.commit_hash, Some("abc123".to_string()));
    assert_eq!(r.commit_message, Some("test commit".to_string()));
    assert_eq!(r.files_changed, 2);
    assert_eq!(r.insertions, 10);
    assert_eq!(r.deletions, 5);
    assert_eq!(r.message, None);
    assert_eq!(r.pushed, None);
    assert_eq!(r.error, None);
}

#[test]
fn legacy_hash_none_is_absent() {
    let r = decode_legacy("STATUS:true|HASH:none|FILES:0");
    assert!(r.success);
    assert_eq!(r.commit_hash, None);
    assert_eq!(r.files_changed, 0);
}

#[test]
fn legacy_none_sentinels_stay_absent() {
    // The absent-value sentinel is defined for HASH and COMMIT_MSG
    // alone; a MESSAGE field carries its value verbatim.
    let r = decode_legacy("HASH:none|COMMIT_MSG:none|MESSAGE:none|STATUS:true");
    assert!(r.success);
    assert_eq!(r.commit_hash, None);
    assert_eq!(r.commit_message, None);
    assert_eq!(r.message, Some("none".to_string()));
}

#[test]
fn legacy_status_anything_but_true_fails() {
    assert!(!decode_legacy("STATUS:false").success);
    assert!(!decode_legacy("STATUS:TRUE").success);
    assert!(!decode_legacy("STATUS:").success);
    assert!(!decode_legacy("").success);
    assert!(decode_legacy("STATUS:true").success);
}

#[test]
fn legacy_unparsable_counters_read_zero() {
    let r = decode_legacy("STATUS:true|FILES:abc|INS:-3|DELS:99999999999999999999999");
    assert!(r.success);
    assert_eq!(r.files_changed, 0);
    assert_eq!(r.insertions, 0);
    assert_eq!(r.deletions, 0);
}

#[test]
fn legacy_counter_edge_forms() {
    assert_eq!(decode_legacy("FILES:+5").files_changed, 5);
    assert_eq!(decode_legacy("INS:000010").insertions, 10);
    assert_eq!(decode_legacy("DELS:18446744073709551615").deletions, u64::MAX);
    assert_eq!(decode_legacy("DELS:18446744073709551616").deletions, 0);
    assert_eq!(decode_legacy("FILES:5 ").files_changed, 0);
    assert_eq!(decode_legacy("FILES:+").files_changed, 0);
}

#[test]
fn legacy_malformed_fields_are_skipped() {
    let r = decode_legacy("STATUS:true|garbage|FILES:2");
    assert!(r.success);
    assert_eq!(r.files_changed, 2);
}

#[test]
fn legacy_last_field_wins() {
    assert!(!decode_legacy("STATUS:true|STATUS:false").success);
    assert_eq!(decode_legacy("FILES:1|FILES:2").files_changed, 2);
}

#[test]
fn legacy_value_may_contain_colon() {
    let r = decode_legacy("HASH:ab:cd|STATUS:true");
    assert_eq!(r.commit_hash, Some("ab:cd".to_string()));
}

#[test]
fn legacy_values_may_hold_unicode() {
    let r = decode_legacy("COMMIT_MSG:héllo wörld ✓|STATUS:true");
    assert!(r.success);
    assert_eq!(r.commit_message, Some("héllo wörld ✓".to_string()));
}

#[test]
fn legacy_unknown_keys_are_ignored() {
    let r = decode_legacy("WHATEVER:1|STATUS:true|X:");
    assert!(r.success);
    assert_eq!(r.message, None);
}

#[test]
fn structured_error_record() {
    let bytes = br#"{"success":false,"error":"no changes"}"#.to_vec();
    let r = decode_result(Some(bytes));
    assert!(!r.success);
    assert_eq!(r.error, Some("no changes".to_string()));
    assert_eq!(r.commit_hash, None);
}

#[test]
fn structured_full_record() {
    let bytes = br#"{"success":true,"message":"done","commit_hash":"ff00","commit_message":"msg","files_changed":3,"insertions":7,"deletions":1,"pushed":true}"#.to_vec();
    let r = decode_result(Some(bytes));
    assert!(r.success);
    assert_eq!(r.message, Some("done".to_string()));
    assert_eq!(r.commit_hash, Some("ff00".to_string()));
    assert_eq!(r.commit_message, Some("msg".to_string()));
    assert_eq!(r.files_changed, 3);
    assert_eq!(r.insertions, 7);
    assert_eq!(r.deletions, 1);
    assert_eq!(r.pushed, Some(true));
}

#[test]
fn structured_missing_keys_take_defaults() {
    let r = decode_result(Some(b"{}".to_vec()));
    assert!(!r.success);
    assert_eq!(r.message, None);
    assert_eq!(r.files_changed, 0);
    assert_eq!(r.pushed, None);
}

#[test]
fn structured_wrong_types_read_as_absent() {
    let bytes = br#"{"success":"yes","files_changed":-2,"message":5}"#.to_vec();
    let r = decode_result(Some(bytes));
    assert!(!r.success);
    assert_eq!(r.files_changed, 0);
    assert_eq!(r.message, None);
}

#[test]
fn status_msg_overrides_structured_fields() {
    let bytes =
        br#"{"success":true,"commit_hash":"zzz","pushed":true,"error":"old","status_msg":"STATUS:false|MESSAGE:boom"}"#
            .to_vec();
    let r = decode_result(Some(bytes));
    assert!(!r.success);
    assert_eq!(r.message, Some("boom".to_string()));
    assert_eq!(r.commit_hash, None);
    assert_eq!(r.pushed, None);
    assert_eq!(r.error, None);
}

#[test]
fn status_msg_override_on_payload_value() {
    let r = decode_structured(payload_with_status_msg("STATUS:true|FILES:4"));
    assert!(r.success);
    assert_eq!(r.files_changed, 4);
}

#[test]
fn missing_payload_reports_no_data() {
    let r = decode_result(None);
    assert!(!r.success);
    assert_eq!(r.message, Some("no data returned".to_string()));
}

#[test]
fn unparsable_payload_degrades_softly() {
    let r = decode_result(Some(b"not json at all".to_vec()));
    assert!(!r.success);
    assert_eq!(r.message, Some("unable to parse actor result".to_string()));
}

#[test]
fn non_object_payload_degrades_softly() {
    let r = decode_result(Some(b"[1,2,3]".to_vec()));
    assert!(!r.success);
    assert_eq!(r.message, Some("unable to parse actor result".to_string()));
}

#[test]
fn outcome_failure_keeps_reported_error() {
    let o = ActorOutcome::Failure {
        actor_id: ActorId { text: "a1".to_string() },
        error: "actor crashed".to_string(),
    };
    let r = decode_outcome(o);
    assert!(!r.success);
    assert_eq!(r.error, Some("actor crashed".to_string()));
}

#[test]
fn outcome_success_decodes_payload() {
    let o = ActorOutcome::Success {
        actor_id: ActorId { text: "a1".to_string() },
        payload: Some(br#"{"success":true,"files_changed":1}"#.to_vec()),
    };
    let r = decode_outcome(o);
    assert!(r.success);
    assert_eq!(r.files_changed, 1);
}

#[test]
fn outcome_success_without_payload_reports_no_data() {
    let o = ActorOutcome::Success { actor_id: ActorId { text: "a1".to_string() }, payload: None };
    let r = decode_outcome(o);
    assert!(!r.success);
    assert_eq!(r.message, Some("no data returned".to_string()));
}
