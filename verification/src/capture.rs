use vstd::prelude::*;

verus! {

/// Relies on `tracing_error::SpanTrace::capture` and its `Display` impl:
/// captures the span active on this thread at the call and renders the
/// trace of spans, one block per span. The result depends on ambient
/// subscriber state, so nothing is promised of it.
#[verifier::external_body]
fn capture_span_trace_text() -> String {
    format!("{}", tracing_error::SpanTrace::capture())
}

/// Relies on `std::backtrace::Backtrace::capture` and its `Debug` impl:
/// captures the call stack at the call and renders its frames, or a
/// placeholder when capture is disabled for the process. The result
/// depends on the ambient stack and environment, so nothing is promised
/// of it.
#[verifier::external_body]
fn capture_backtrace_text() -> String {
    format!("{:?}", std::backtrace::Backtrace::capture())
}

/// A snapshot of the logical call context (the hierarchy of spans in
/// progress) at some moment, held as its displayable text.
pub struct ContextSnapshot {
    text: String,
}

impl View for ContextSnapshot {
    type V = Seq<char>;

    closed spec fn view(&self) -> Seq<char> {
        self.text@
    }
}

impl ContextSnapshot {
    /// Snapshots the logical context active right now. Capture cannot
    /// fail; with no subscriber installed the text is simply empty.
    pub fn capture() -> (r: ContextSnapshot) {
        ContextSnapshot { text: capture_span_trace_text() }
    }

    /// Builds a snapshot from already-rendered context text.
    pub fn from_text(text: String) -> (r: ContextSnapshot)
        ensures
            r@ == text@,
    {
        ContextSnapshot { text }
    }

    /// The snapshot's displayable text.
    pub fn text(&self) -> (r: &str)
        ensures
            r@ == self@,
    {
        self.text.as_str()
    }
}

/// A snapshot of the physical call stack at some moment, held as its
/// debug-rendered text.
pub struct BacktraceSnapshot {
    text: String,
}

impl View for BacktraceSnapshot {
    type V = Seq<char>;

    closed spec fn view(&self) -> Seq<char> {
        self.text@
    }
}

impl BacktraceSnapshot {
    /// Snapshots the stack right now. Capture cannot fail; a degraded
    /// capture (stack walking disabled or unsupported) is passed through
    /// unchanged as whatever placeholder text it renders to.
    pub fn capture() -> (r: BacktraceSnapshot) {
        BacktraceSnapshot { text: capture_backtrace_text() }
    }

    /// Builds a snapshot from already-rendered backtrace text.
    pub fn from_text(text: String) -> (r: BacktraceSnapshot)
        ensures
            r@ == text@,
    {
        BacktraceSnapshot { text }
    }

    /// The snapshot's displayable text.
    pub fn text(&self) -> (r: &str)
        ensures
            r@ == self@,
    {
        self.text.as_str()
    }
}

} // verus!
