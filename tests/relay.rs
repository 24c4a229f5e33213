use chat_relay::messages::{ChatChunk, ChatMessage, Notification};
use chat_relay::registry::StreamRegistry;
use chat_relay::relay::RelayDriver;

fn parse(line: &str) -> Option<ChatChunk> {
    let v: serde_json::Value = serde_json::from_str(line).ok()?;
    let done = v.get("done")?.as_bool()?;
    let message = match v.get("message") {
        Some(m) => Some(ChatMessage {
            role: m.get("role")?.as_str()?.to_string(),
            content: m.get("content")?.as_str()?.to_string(),
        }),
        None => None,
    };
    Some(ChatChunk {
        message,
        done,
        total_duration: v.get("total_duration").and_then(|x| x.as_u64()),
        load_duration: None,
        prompt_eval_count: None,
        prompt_eval_duration: None,
        eval_count: v.get("eval_count").and_then(|x| x.as_i64()).map(|x| x as i32),
        eval_duration: None,
    })
}

/// Runs the driver over the fragments as the application would; `cancel_after`
/// sets every flag once that many fragments have been handled (possibly all).
fn run(
    fragments: &[&[u8]],
    cancel_after: Option<usize>,
    registry: &mut StreamRegistry,
) -> (Vec<Notification>, chat_relay::messages::ChatResponse, String) {
    let mut d = RelayDriver::new("s1".to_string(), registry);
    let mut notes = d.stream_started();
    for (i, frag) in fragments.iter().enumerate() {
        if cancel_after == Some(i) {
            registry.cancel_all();
        }
        let (n, lines) = d.on_fragment(frag, registry);
        notes.extend(n);
        for line in lines {
            if d.is_ended() {
                break;
            }
            notes.extend(d.on_record(parse(&line)));
        }
        if d.is_ended() {
            break;
        }
    }
    if !d.is_ended() {
        if cancel_after == Some(fragments.len()) {
            registry.cancel_all();
        }
        notes.extend(d.on_end(registry));
    }
    if let Some(rest) = d.take_remainder() {
        notes.extend(d.on_record(parse(&rest)));
    }
    let (n, result) = d.finish();
    notes.extend(n);
    let id = d.session_id().clone();
    assert!(registry.contains(&id));
    d.close(registry);
    (notes, result, id)
}

fn describe(n: &Notification) -> String {
    match n {
        Notification::StreamStart { .. } => "start".to_string(),
        Notification::Chunk { chunk, .. } => format!(
            "chunk({},{})",
            chunk.message.as_ref().map(|m| m.content.clone()).unwrap_or_default(),
            chunk.done
        ),
        Notification::Cancelled { .. } => "cancelled".to_string(),
        Notification::Error { message, .. } => format!("error({})", message),
        Notification::Complete { completed, .. } => format!("complete({})", completed),
    }
}

#[test]
fn two_lines_without_trailing_newline() {
    let mut reg = StreamRegistry::new();
    let body = b"{\"message\":{\"role\":\"assistant\",\"content\":\"he\"},\"done\":false}\n{\"done\":true}";
    let (notes, result, id) = run(&[body], None, &mut reg);
    let seen: Vec<String> = notes.iter().map(describe).collect();
    assert_eq!(seen, vec!["start", "chunk(he,false)", "chunk(,true)", "complete(true)"]);
    assert!(result.success);
    assert_eq!(result.error, None);
    assert!(!reg.contains(&id));
}

#[test]
fn trailing_done_record_completes() {
    let mut reg = StreamRegistry::new();
    let (notes, result, _) = run(&[b"{\"done\":false}\n{\"do", b"ne\":true}"], None, &mut reg);
    let seen: Vec<String> = notes.iter().map(describe).collect();
    assert_eq!(seen, vec!["start", "chunk(,false)", "chunk(,true)", "complete(true)"]);
    assert!(result.success);
}

#[test]
fn trailing_unfinished_record_fails() {
    let mut reg = StreamRegistry::new();
    let (notes, result, _) = run(&[b"{\"done\":false}\n{\"done\":fal"], None, &mut reg);
    let seen: Vec<String> = notes.iter().map(describe).collect();
    assert_eq!(seen, vec!["start", "chunk(,false)", "complete(false)"]);
    assert!(!result.success);
    assert_eq!(result.error, Some("Stream incomplete".to_string()));
}

#[test]
fn malformed_line_between_records_is_skipped() {
    let mut reg = StreamRegistry::new();
    let body = b"{\"message\":{\"role\":\"assistant\",\"content\":\"a\"},\"done\":false}\nnot json\n{\"message\":{\"role\":\"assistant\",\"content\":\"b\"},\"done\":true}\n";
    let (notes, result, _) = run(&[body], None, &mut reg);
    let seen: Vec<String> = notes.iter().map(describe).collect();
    assert_eq!(seen, vec!["start", "chunk(a,false)", "chunk(b,true)", "complete(true)"]);
    assert!(result.success);
}

#[test]
fn nothing_after_done_record_is_processed() {
    let mut reg = StreamRegistry::new();
    let (notes, _, _) = run(&[b"{\"done\":true}\n{\"done\":false}\n", b"{\"done\":false}\n"], None, &mut reg);
    let seen: Vec<String> = notes.iter().map(describe).collect();
    assert_eq!(seen, vec!["start", "chunk(,true)", "complete(true)"]);
}

#[test]
fn cancel_between_fragments() {
    let mut reg = StreamRegistry::new();
    let first = b"{\"message\":{\"role\":\"assistant\",\"content\":\"x\"},\"done\":false}\n";
    let (notes, result, id) = run(&[first, b"{\"done\":true}\n"], Some(1), &mut reg);
    let seen: Vec<String> = notes.iter().map(describe).collect();
    assert_eq!(seen, vec!["start", "chunk(x,false)", "cancelled", "complete(false)"]);
    assert!(!result.success);
    assert!(!reg.contains(&id));
}

#[test]
fn cancel_skips_leftover_text() {
    let mut reg = StreamRegistry::new();
    let (notes, _, _) = run(&[b"{\"done\":", b"true}"], Some(1), &mut reg);
    let seen: Vec<String> = notes.iter().map(describe).collect();
    assert_eq!(seen, vec!["start", "cancelled", "complete(false)"]);
}

#[test]
fn cancel_then_end_of_stream_skips_leftover() {
    let mut reg = StreamRegistry::new();
    let first = b"{\"message\":{\"role\":\"assistant\",\"content\":\"x\"},\"done\":false}\n{\"done\":true}";
    let (notes, result, id) = run(&[first], Some(1), &mut reg);
    let seen: Vec<String> = notes.iter().map(describe).collect();
    assert_eq!(seen, vec!["start", "chunk(x,false)", "cancelled", "complete(false)"]);
    assert!(!result.success);
    assert!(!reg.contains(&id));
}

#[test]
fn cancel_then_transport_error_reports_cancel() {
    let mut reg = StreamRegistry::new();
    let mut d = RelayDriver::new("s".to_string(), &mut reg);
    d.stream_started();
    reg.cancel_all();
    let n = d.on_transport_error("reset".to_string(), &reg);
    assert_eq!(n.len(), 1);
    assert_eq!(describe(&n[0]), "cancelled");
    assert_eq!(d.take_remainder(), None);
    let (n, result) = d.finish();
    assert_eq!(describe(&n[0]), "complete(false)");
    assert!(!result.success);
    d.close(&mut reg);
    assert!(!reg.contains(&"s".to_string()));
}

#[test]
fn cancel_all_reaches_every_session() {
    let mut reg = StreamRegistry::new();
    let mut a = RelayDriver::new("a".to_string(), &mut reg);
    let mut b = RelayDriver::new("b".to_string(), &mut reg);
    assert_eq!(reg.cancel_all(), 2);
    let (n, lines) = a.on_fragment(b"{\"done\":true}\n", &reg);
    assert!(lines.is_empty());
    assert!(matches!(n.as_slice(), [Notification::Cancelled { .. }]));
    let n = b.on_end(&reg);
    assert!(matches!(n.as_slice(), [Notification::Cancelled { .. }]));
    for mut d in [a, b] {
        assert_eq!(d.take_remainder(), None);
        let (n, result) = d.finish();
        assert!(matches!(n.as_slice(), [Notification::Complete { completed: false, .. }]));
        assert!(!result.success);
        d.close(&mut reg);
    }
    assert!(!reg.contains(&"a".to_string()));
    assert!(!reg.contains(&"b".to_string()));
}

#[test]
fn transport_error_is_published() {
    let mut reg = StreamRegistry::new();
    let mut d = RelayDriver::new("s".to_string(), &mut reg);
    d.stream_started();
    let (_, lines) = d.on_fragment(b"{\"done\":false}\n{\"done\":true}", &reg);
    assert_eq!(lines.len(), 1);
    let n = d.on_transport_error("timed out".to_string(), &reg);
    assert_eq!(n.len(), 1);
    assert_eq!(describe(&n[0]), "error(timed out)");
    let rest = d.take_remainder();
    assert_eq!(rest, Some("{\"done\":true}".to_string()));
    d.on_record(parse(&rest.unwrap()));
    let (n, result) = d.finish();
    assert_eq!(describe(&n[0]), "complete(true)");
    assert!(result.success);
    d.close(&mut reg);
}

#[test]
fn http_error_status_fails_without_chunks() {
    let mut reg = StreamRegistry::new();
    let mut d = RelayDriver::new("s".to_string(), &mut reg);
    let (n, result) = d.rejected("500 Internal Server Error");
    d.close(&mut reg);
    assert_eq!(n.len(), 1);
    assert_eq!(describe(&n[0]), "complete(false)");
    assert!(!result.success);
    assert_eq!(result.error, Some("HTTP error: 500 Internal Server Error".to_string()));
    assert!(!reg.contains(&"s".to_string()));
}

#[test]
fn open_registers_a_fresh_id() {
    let mut reg = StreamRegistry::new();
    let a = RelayDriver::open(&mut reg);
    let b = RelayDriver::open(&mut reg);
    assert_eq!(a.session_id().len(), 36);
    assert_ne!(a.session_id(), b.session_id());
    assert!(reg.contains(a.session_id()));
    assert!(!reg.is_cancelled(b.session_id()));
}
