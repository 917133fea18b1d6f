use trasy::bail;
use trasy::wrap;
use trasy::BacktraceSnapshot;
use trasy::ContextSnapshot;
use trasy::ErrorMessage;
use trasy::TrasyError;

#[test]
fn render_contains_message() {
    let w = TrasyError::new(String::from("file not found"));
    let out = w.render();
    assert!(out.contains("file not found"));
    assert!(out.starts_with("Error: file not found\nContext: "));
}

#[test]
fn render_without_backtrace_has_no_backtrace_line() {
    let w = TrasyError::new(String::from("file not found"));
    let out = w.render();
    assert!(!out.contains("Backtrace: "));
}

#[test]
fn render_without_backtrace_exact() {
    let ctx = ContextSnapshot::from_text(String::from("in app::open"));
    let w = TrasyError::from_parts(String::from("file not found"), ctx);
    assert_eq!(w.render(), "Error: file not found\nContext: in app::open\n");
}

#[test]
fn render_with_backtrace_exact_and_ordered() {
    let ctx = ContextSnapshot::from_text(String::from("in app::open"));
    let bt = BacktraceSnapshot::from_text(String::from("frame 0: open"));
    let w = TrasyError::from_parts(String::from("file not found"), ctx).with_backtrace(bt);
    let out = w.render();
    assert_eq!(
        out,
        "Error: file not found\nContext: in app::open\nBacktrace: frame 0: open\n"
    );
    let ctx_pos = out.find("Context: ").unwrap();
    let bt_pos = out.find("Backtrace: ").unwrap();
    assert!(ctx_pos < bt_pos);
    assert!(out.contains("file not found"));
}

#[test]
fn cause_message_is_exactly_the_inner_message() {
    let w = TrasyError::new(String::from("file not found"));
    let cause = w.source().unwrap();
    assert_eq!(cause.message(), "file not found");
}

#[test]
fn wrap_matches_manual_construction() {
    let by_helper = wrap(String::from("boom"));
    let by_hand =
        TrasyError::new(String::from("boom")).with_backtrace(BacktraceSnapshot::capture());
    let out_helper = by_helper.render();
    let out_hand = by_hand.render();
    assert!(out_helper.starts_with("Error: boom\nContext: "));
    assert!(out_hand.starts_with("Error: boom\nContext: "));
    assert!(out_helper.contains("Backtrace: "));
    assert!(out_hand.contains("Backtrace: "));
}

#[test]
fn bail_yields_the_same_wrapper_as_a_failure() {
    let r: Result<u32, TrasyError<String>> = bail(String::from("boom"));
    let w = match r {
        Ok(_) => panic!("bail must yield a failure"),
        Err(w) => w,
    };
    assert_eq!(w.source().unwrap().message(), "boom");
    assert!(w.render().contains("Backtrace: "));
}

#[test]
fn second_backtrace_overwrites_first() {
    let ctx = ContextSnapshot::from_text(String::from("ctx"));
    let first = BacktraceSnapshot::from_text(String::from("first trace"));
    let second = BacktraceSnapshot::from_text(String::from("second trace"));
    let w = TrasyError::from_parts(String::from("boom"), ctx)
        .with_backtrace(first)
        .with_backtrace(second);
    let out = w.render();
    assert!(out.contains("Backtrace: second trace"));
    assert!(!out.contains("first trace"));
    assert_eq!(out.matches("Backtrace: ").count(), 1);
}

#[test]
fn file_not_found_scenario_line_counts() {
    let ctx = ContextSnapshot::from_text(String::from("in app::open"));
    let plain = TrasyError::from_parts(String::from("file not found"), ctx);
    let out = plain.render();
    let lines: Vec<&str> = out.lines().collect();
    assert_eq!(lines.len(), 2);
    assert!(lines[0].starts_with("Error: "));
    assert!(lines[1].starts_with("Context: "));

    let ctx = ContextSnapshot::from_text(String::from("in app::open"));
    let bt = BacktraceSnapshot::from_text(String::from("frame 0: open"));
    let traced =
        TrasyError::from_parts(String::from("file not found"), ctx).with_backtrace(bt);
    let out = traced.render();
    let lines: Vec<&str> = out.lines().collect();
    assert_eq!(lines.len(), 3);
    assert!(lines[0].starts_with("Error: "));
    assert!(lines[1].starts_with("Context: "));
    assert!(lines[2].starts_with("Backtrace: "));
}

#[test]
fn snapshot_text_round_trips() {
    let ctx = ContextSnapshot::from_text(String::from("somewhere"));
    assert_eq!(ctx.text(), "somewhere");
    let bt = BacktraceSnapshot::from_text(String::from("a frame"));
    assert_eq!(bt.text(), "a frame");
}

#[test]
fn ambient_captures_render_their_sections() {
    let w = TrasyError::new(String::from("boom")).with_backtrace(BacktraceSnapshot::capture());
    let out = w.render();
    assert!(out.starts_with("Error: boom\nContext: "));
    assert!(out.contains("\nBacktrace: "));

    let ctx = ContextSnapshot::capture();
    let w = TrasyError::from_parts(String::from("boom"), ctx);
    assert!(w.render().starts_with("Error: boom\nContext: "));
}

#[test]
fn string_message_is_itself() {
    let e = String::from("exact message");
    assert_eq!(e.message(), "exact message");
}
