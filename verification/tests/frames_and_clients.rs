//! Frame classification, signal delivery answers, the IPC client's
//! timeout, event timestamps and fresh identifiers.

use avix_core::atp::{classify_frame, AtpEvent, AtpEventKind, AtpFrameError, FrameType};
use avix_core::error::AvixError;
use avix_core::ipc_message::IpcClient;
use avix_core::json::Json;
use avix_core::resource::{KernelResourceHandler, PipeDirection, ResourceGrant, ResourceItem, ResourceRequest};
use avix_core::signals::delivery_result;
use avix_core::token::CapabilityToken;

#[test]
fn parse_unknown_type_returns_error() {
    // { "type": "unknown" }
    match classify_frame(Some("unknown")) {
        Err(AtpFrameError::UnknownType(t)) => assert_eq!(t, "unknown"),
        other => panic!("expected UnknownType, got {other:?}"),
    }
}

#[test]
fn parse_missing_type_returns_error() {
    // { "id": "x" }
    assert!(matches!(classify_frame(None), Err(AtpFrameError::Parse(_))));
}

#[test]
fn frame_types_are_recognised() {
    assert!(matches!(classify_frame(Some("cmd")), Ok(FrameType::Cmd)));
    assert!(matches!(classify_frame(Some("subscribe")), Ok(FrameType::Subscribe)));
}

#[test]
fn delivered_signal_is_ok_and_undelivered_is_not_found() {
    assert!(delivery_result(42, true).is_ok());
    match delivery_result(42, false) {
        Err(AvixError::NotFound(m)) => assert_eq!(m, "no signal channel for pid 42"),
        other => panic!("expected NotFound, got {other:?}"),
    }
}

#[test]
fn ipc_client_defaults_to_five_seconds() {
    let c = IpcClient::new(std::path::PathBuf::from("/run/avix/kernel.sock"));
    assert_eq!(c.call_timeout(), 5_000);
    let c = c.with_timeout(250);
    assert_eq!(c.call_timeout(), 250);
    assert_eq!(c.target_path(), &std::path::PathBuf::from("/run/avix/kernel.sock"));
}

#[test]
fn event_timestamp_is_utc_rfc3339() {
    let ev = AtpEvent::new(AtpEventKind::SysAlert, "sess-1", Json::empty_object());
    assert!(ev.ts.len() >= 20);
    assert!(ev.ts.ends_with('Z'));
    assert_eq!(&ev.ts[10..11], "T");
}

#[test]
fn pipe_id_is_prefixed_lower_case_v4_uuid() {
    let req = ResourceRequest::new(
        42,
        "sig".to_string(),
        vec![ResourceItem::Pipe { target_pid: 7, direction: PipeDirection::Out, buffer_tokens: 8192, reason: "share".into() }],
    );
    let token = CapabilityToken {
        granted_tools: vec![],
        issued_to: None,
        issued_at: 0,
        expires_at: 3600,
        signature: "sig".to_string(),
    };
    let sign = |_k: &Vec<u8>, _t: &CapabilityToken| "sig".to_string();
    let resp = KernelResourceHandler::new(vec![1, 2, 3]).handle(&req, &token, true, &sign).unwrap();
    match &resp.grants[0] {
        ResourceGrant::Pipe { pipe_id: Some(p), .. } => {
            assert_eq!(p.len(), 41);
            assert!(p.starts_with("pipe-"));
            let u = &p[5..];
            for (i, c) in u.chars().enumerate() {
                if i == 8 || i == 13 || i == 18 || i == 23 {
                    assert_eq!(c, '-');
                } else {
                    assert!(c.is_ascii_digit() || ('a'..='f').contains(&c), "{u}");
                }
            }
            assert_eq!(u.chars().nth(14), Some('4'));
        }
        other => panic!("expected a pipe grant, got {other:?}"),
    }
}
