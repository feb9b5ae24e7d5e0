use ola_core::protocol::{
    plan_request, process_line, response_for_reply, response_too_large, response_timed_out,
    response_worker_died, response_worker_dropped, method_timeout_secs, LineAction, Request,
    Response, ResultVal,
};
use ola_core::wire::encode_response;
use ola_core::worker::{drain_queue, execute_work, WorkUnit, WorkReply, VERIFY_BUDGET_MS};
use ola_core::camera::{cameras_from_paths, capture_thumbnail, verify_once, CameraInfo};

const VERSION: &str = "0.1.0";
const SOCKET: &str = "/run/ola/ola.sock";

fn respond_text(action: LineAction) -> String {
    match action {
        LineAction::Respond(resp) => encode_response(&resp),
        LineAction::Offload { .. } => panic!("expected an immediate response"),
    }
}

#[test]
fn ping_line_yields_exact_response() {
    let action = process_line("{\"id\":1,\"method\":\"ping\"}", VERSION, SOCKET);
    assert_eq!(
        respond_text(action),
        "{\"id\":1,\"result\":{\"ok\":true,\"version\":\"0.1.0\"},\"error\":null}"
    );
}

#[test]
fn unknown_method_yields_exact_error() {
    let action = process_line("{\"id\":3,\"method\":\"nope\"}", VERSION, SOCKET);
    assert_eq!(
        respond_text(action),
        "{\"id\":3,\"result\":null,\"error\":\"Unknown method: nope\"}"
    );
}

#[test]
fn status_line_yields_exact_response() {
    let action = process_line("{\"id\":9,\"method\":\"status\"}", VERSION, SOCKET);
    assert_eq!(
        respond_text(action),
        "{\"id\":9,\"result\":{\"backend\":\"stubbed\",\"socket\":\"/run/ola/ola.sock\",\"status\":\"running\",\"version\":\"0.1.0\"},\"error\":null}"
    );
}

#[test]
fn capture_thumbnail_request_is_offloaded_with_index_and_deadline() {
    let action = process_line(
        "{\"id\":2,\"method\":\"capture_thumbnail\",\"params\":{\"index\":3}}",
        VERSION,
        SOCKET,
    );
    match action {
        LineAction::Offload { id, unit, timeout_secs } => {
            assert_eq!(id, Some(2));
            assert_eq!(timeout_secs, 15);
            match unit {
                WorkUnit::CaptureThumbnail(idx) => assert_eq!(idx, 3),
                _ => panic!("wrong work unit"),
            }
        }
        LineAction::Respond(_) => panic!("expected an offload"),
    }
}

#[test]
fn capture_reply_carries_device_layer_image() {
    let reply = execute_work(&WorkUnit::CaptureThumbnail(3));
    let resp = response_for_reply(Some(2), reply);
    let text = encode_response(&resp);
    assert!(text.starts_with("{\"id\":2,\"result\":{\"image\":\"iVBOR"));
    assert!(text.ends_with("\"},\"error\":null}"));
    let direct = capture_thumbnail(3).unwrap();
    assert!(text.contains(&direct));
}

#[test]
fn capture_index_defaults_to_zero() {
    let action = process_line("{\"method\":\"capture_thumbnail\"}", VERSION, SOCKET);
    match action {
        LineAction::Offload { id, unit, timeout_secs } => {
            assert_eq!(id, None);
            assert_eq!(timeout_secs, 15);
            assert!(matches!(unit, WorkUnit::CaptureThumbnail(0)));
        }
        LineAction::Respond(_) => panic!("expected an offload"),
    }
}

#[test]
fn oversized_line_is_rejected_without_parsing() {
    // Not JSON at all: the length check must answer before any decode.
    let line = "x".repeat(512 * 1024 + 1);
    let action = process_line(&line, VERSION, SOCKET);
    assert_eq!(
        respond_text(action),
        "{\"id\":null,\"result\":null,\"error\":\"Payload too large\"}"
    );
}

#[test]
fn line_at_the_ceiling_is_still_parsed() {
    let line = "x".repeat(512 * 1024);
    let action = process_line(&line, VERSION, SOCKET);
    let text = respond_text(action);
    assert!(text.starts_with("{\"id\":null,\"result\":null,\"error\":\"Invalid JSON: "));
}

#[test]
fn malformed_line_reports_decode_error_and_null_id() {
    let action = process_line("{not json", VERSION, SOCKET);
    let text = respond_text(action);
    assert!(text.starts_with("{\"id\":null,\"result\":null,\"error\":\"Invalid JSON: "));
}

#[test]
fn missing_method_is_a_decode_error() {
    let action = process_line("{\"id\":4}", VERSION, SOCKET);
    let text = respond_text(action);
    assert_eq!(
        text,
        "{\"id\":null,\"result\":null,\"error\":\"Invalid JSON: missing field `method`\"}"
    );
}

#[test]
fn null_id_is_accepted() {
    let action = process_line("{\"id\":null,\"method\":\"ping\"}", VERSION, SOCKET);
    assert_eq!(
        respond_text(action),
        "{\"id\":null,\"result\":{\"ok\":true,\"version\":\"0.1.0\"},\"error\":null}"
    );
}

#[test]
fn verify_once_request_is_offloaded_and_replies_ok() {
    let action = process_line("{\"id\":7,\"method\":\"verify_once\"}", VERSION, SOCKET);
    match action {
        LineAction::Offload { id, unit, timeout_secs } => {
            assert_eq!(id, Some(7));
            assert_eq!(timeout_secs, 10);
            assert!(matches!(unit, WorkUnit::VerifyOnce(v) if v == VERIFY_BUDGET_MS));
            let resp = response_for_reply(id, execute_work(&unit));
            assert_eq!(
                encode_response(&resp),
                "{\"id\":7,\"result\":{\"ok\":true,\"reason\":null},\"error\":null}"
            );
        }
        LineAction::Respond(_) => panic!("expected an offload"),
    }
    let direct = verify_once(VERIFY_BUDGET_MS).unwrap();
    assert!(direct.ok);
    assert!(direct.reason.is_none());
}

#[test]
fn worker_failure_responses_are_exact() {
    assert_eq!(
        encode_response(&response_timed_out(Some(5))),
        "{\"id\":5,\"result\":null,\"error\":\"Request timed out\"}"
    );
    assert_eq!(
        encode_response(&response_worker_dropped(None)),
        "{\"id\":null,\"result\":null,\"error\":\"Worker dropped response\"}"
    );
    assert_eq!(
        encode_response(&response_worker_died(Some(8), "channel closed")),
        "{\"id\":8,\"result\":null,\"error\":\"Worker died: channel closed\"}"
    );
    assert_eq!(
        encode_response(&response_too_large()),
        "{\"id\":null,\"result\":null,\"error\":\"Payload too large\"}"
    );
}

#[test]
fn method_deadlines_match_the_table() {
    assert_eq!(method_timeout_secs("ping"), 5);
    assert_eq!(method_timeout_secs("status"), 5);
    assert_eq!(method_timeout_secs("list_cameras"), 5);
    assert_eq!(method_timeout_secs("capture_thumbnail"), 15);
    assert_eq!(method_timeout_secs("verify_once"), 10);
    assert_eq!(method_timeout_secs("nope"), 5);
}

#[test]
fn plan_preserves_request_id_for_every_method() {
    for (method, id) in [("ping", 11u64), ("status", 12), ("nope", 13)] {
        let action = plan_request(
            Request { id: Some(id), method: method.to_string(), params_index: None },
            VERSION,
            SOCKET,
        );
        match action {
            LineAction::Respond(resp) => assert_eq!(resp.id, Some(id)),
            LineAction::Offload { .. } => panic!("expected a response"),
        }
    }
    for (method, id) in [("list_cameras", 14u64), ("capture_thumbnail", 15), ("verify_once", 16)] {
        let action = plan_request(
            Request { id: Some(id), method: method.to_string(), params_index: None },
            VERSION,
            SOCKET,
        );
        match action {
            LineAction::Offload { id: oid, .. } => assert_eq!(oid, Some(id)),
            LineAction::Respond(_) => panic!("expected an offload"),
        }
    }
}

#[test]
fn worker_serves_units_in_submission_order() {
    let units = vec![
        WorkUnit::CaptureThumbnail(0),
        WorkUnit::VerifyOnce(VERIFY_BUDGET_MS),
        WorkUnit::CaptureThumbnail(1),
    ];
    let replies = drain_queue(&units);
    assert_eq!(replies.len(), 3);
    assert!(matches!(&replies[0], WorkReply::Image(Ok(_))));
    assert!(matches!(&replies[1], WorkReply::Verify(Ok(_))));
    assert!(matches!(&replies[2], WorkReply::Image(Ok(_))));
}

#[test]
fn camera_enumeration_keeps_valid_paths_in_order() {
    let paths: Vec<String> = vec![
        "/dev/video0".to_string(),
        "/dev/video12".to_string(),
        "/dev/videoX".to_string(),
        "/tmp/other".to_string(),
        "/dev/video".to_string(),
        "/dev/video007".to_string(),
    ];
    let cams = cameras_from_paths(paths);
    assert_eq!(cams.len(), 3);
    assert_eq!(cams[0].path, "/dev/video0");
    assert_eq!(cams[0].name, "Camera Device 0");
    assert_eq!(cams[0].index, 0);
    assert_eq!(cams[1].path, "/dev/video12");
    assert_eq!(cams[1].name, "Camera Device 12");
    assert_eq!(cams[1].index, 12);
    assert_eq!(cams[2].path, "/dev/video007");
    assert_eq!(cams[2].name, "Camera Device 7");
    assert_eq!(cams[2].index, 7);
}

#[test]
fn camera_list_encodes_as_json_array() {
    let cams = vec![CameraInfo {
        path: "/dev/video0".to_string(),
        name: "Camera Device 0".to_string(),
        index: 0,
    }];
    let resp = Response { id: Some(4), result: ResultVal::Cameras(cams), error: None };
    assert_eq!(
        encode_response(&resp),
        "{\"id\":4,\"result\":[{\"index\":0,\"name\":\"Camera Device 0\",\"path\":\"/dev/video0\"}],\"error\":null}"
    );
    let empty = Response { id: None, result: ResultVal::Cameras(Vec::new()), error: None };
    assert_eq!(encode_response(&empty), "{\"id\":null,\"result\":[],\"error\":null}");
}

#[test]
fn string_escaping_matches_json() {
    let action = process_line("{\"id\":1,\"method\":\"a\\\"b\\\\c\\nd\"}", VERSION, SOCKET);
    assert_eq!(
        respond_text(action),
        "{\"id\":1,\"result\":null,\"error\":\"Unknown method: a\\\"b\\\\c\\nd\"}"
    );
}

#[test]
fn encoded_responses_parse_back_as_json() {
    // A method name exercising quote, backslash, tab and a raw control
    // character: the encoded error text must be JSON that decodes back to
    // the same string.
    let line = "{\"id\":6,\"method\":\"q\\\"b\\\\s\\tt\\u0001e\"}";
    let text = respond_text(process_line(line, VERSION, SOCKET));
    let value: serde_json::Value = serde_json::from_str(&text).expect("encoder emits JSON");
    assert_eq!(value.get("id").and_then(|v| v.as_u64()), Some(6));
    assert_eq!(
        value.get("error").and_then(|v| v.as_str()),
        Some("Unknown method: q\"b\\s\tt\u{1}e")
    );
    assert!(value.get("result").map(|v| v.is_null()).unwrap_or(false));

    let ping = respond_text(process_line("{\"id\":1,\"method\":\"ping\"}", VERSION, SOCKET));
    let value: serde_json::Value = serde_json::from_str(&ping).expect("encoder emits JSON");
    assert_eq!(
        value.get("result").and_then(|r| r.get("version")).and_then(|v| v.as_str()),
        Some("0.1.0")
    );
}
