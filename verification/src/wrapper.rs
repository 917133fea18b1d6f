use vstd::prelude::*;
use vstd::string::*;

use crate::capture::BacktraceSnapshot;
use crate::capture::ContextSnapshot;
use crate::message::ErrorMessage;

verus! {

/// The text a wrapper renders to, from its three parts: a line with the
/// inner error's message, a line with the captured context, and, if and
/// only if a backtrace was attached, a line with the backtrace.
pub open spec fn rendered(msg: Seq<char>, ctx: Seq<char>, bt: Option<Seq<char>>) -> Seq<char> {
    let head = "Error: "@ + msg + "\nContext: "@ + ctx + "\n"@;
    match bt {
        Some(b) => head + "Backtrace: "@ + b + "\n"@,
        None => head,
    }
}

/// `needle` occurs contiguously somewhere in `hay`.
pub open spec fn contains_substring(hay: Seq<char>, needle: Seq<char>) -> bool {
    exists|i: int|
        0 <= i && i + needle.len() <= hay.len() && #[trigger] hay.subrange(
            i,
            i + needle.len() as int,
        ) == needle
}

/// An error value decorated with the logical context captured when it was
/// created and, optionally, a captured stack backtrace. A pure decorator:
/// the inner value is moved in, never inspected or changed.
pub struct TrasyError<T> {
    context: ContextSnapshot,
    backtrace: Option<BacktraceSnapshot>,
    inner: T,
}

impl<T> TrasyError<T> {
    /// The wrapped inner error value.
    pub closed spec fn spec_inner(&self) -> T {
        self.inner
    }

    /// The text of the context captured at construction.
    pub closed spec fn spec_context(&self) -> Seq<char> {
        self.context@
    }

    /// The text of the attached backtrace, if one was attached.
    pub closed spec fn spec_backtrace(&self) -> Option<Seq<char>> {
        match self.backtrace {
            Some(b) => Some(b@),
            None => None,
        }
    }

    /// Wraps `inner`, capturing the logical context active right now.
    /// Cannot fail; the backtrace starts absent.
    pub fn new(inner: T) -> (r: Self)
        ensures
            r.spec_inner() == inner,
            r.spec_backtrace() is None,
    {
        TrasyError { context: ContextSnapshot::capture(), backtrace: None, inner }
    }

    /// Wraps `inner` with a context snapshot the caller already holds.
    /// The backtrace starts absent.
    pub fn from_parts(inner: T, context: ContextSnapshot) -> (r: Self)
        ensures
            r.spec_inner() == inner,
            r.spec_context() == context@,
            r.spec_backtrace() is None,
    {
        TrasyError { context, backtrace: None, inner }
    }

    /// Attaches a backtrace snapshot, consuming and returning the wrapper.
    /// A second attachment overwrites the first: the result carries exactly
    /// the snapshot given here, whatever was attached before.
    pub fn with_backtrace(self, backtrace: BacktraceSnapshot) -> (r: Self)
        ensures
            r.spec_inner() == self.spec_inner(),
            r.spec_context() == self.spec_context(),
            r.spec_backtrace() == Some(backtrace@),
    {
        let mut updated = self;
        updated.backtrace = Some(backtrace);
        updated
    }
}

impl<T: ErrorMessage> TrasyError<T> {
    /// The wrapper's cause: a view of the wrapped inner error, unchanged.
    /// Generic chain-walking sees through the wrapper to the original error.
    pub fn source(&self) -> (r: Option<&T>)
        ensures
            r matches Some(cause) && *cause == self.spec_inner(),
    {
        Some(&self.inner)
    }

    /// Renders the wrapper: the message line, the context line, and, only
    /// when a backtrace is attached, the backtrace line. Never fails.
    pub fn render(&self) -> (r: String)
        ensures
            r@ == rendered(self.spec_inner().message_spec(), self.spec_context(), self.spec_backtrace()),
    {
        let mut out = String::from_str("Error: ");
        let msg = self.inner.message();
        out.append(msg.as_str());
        out.append("\nContext: ");
        out.append(self.context.text());
        out.append("\n");
        match &self.backtrace {
            Some(bt) => {
                out.append("Backtrace: ");
                out.append(bt.text());
                out.append("\n");
            },
            None => {},
        }
        out
    }
}

/// Decorates `inner` with the context active right now and a backtrace
/// captured right now: the one-step helper over `new` and `with_backtrace`.
pub fn wrap<T>(inner: T) -> (r: TrasyError<T>)
    ensures
        r.spec_inner() == inner,
        r.spec_backtrace() is Some,
{
    TrasyError::new(inner).with_backtrace(BacktraceSnapshot::capture())
}

/// Decorates `inner` exactly as `wrap` does, but yields it as a failure
/// value, ready to be returned from a fallible operation.
pub fn bail<U, T>(inner: T) -> (r: Result<U, TrasyError<T>>)
    ensures
        r matches Err(w) && w.spec_inner() == inner && w.spec_backtrace() is Some,
{
    Err(wrap(inner))
}

/// Rendering always contains the inner error's message: it sits right
/// after the opening `Error: ` prefix, whether or not a backtrace is
/// attached.
pub proof fn lemma_rendered_contains_message(msg: Seq<char>, ctx: Seq<char>, bt: Option<Seq<char>>)
    ensures
        contains_substring(rendered(msg, ctx, bt), msg),
        rendered(msg, ctx, bt).subrange(
            "Error: "@.len() as int,
            ("Error: "@.len() + msg.len()) as int,
        ) == msg,
{
    reveal_strlit("Error: ");
    let r = rendered(msg, ctx, bt);
    assert(r.subrange(7, 7 + msg.len() as int) =~= msg);
    assert(contains_substring(r, msg)) by {
        assert(0 <= 7 && 7 + msg.len() <= r.len() && r.subrange(7, 7 + msg.len() as int) == msg);
    }
}

/// Without a backtrace the rendering is exactly the message line followed
/// by the context line: no backtrace section, no placeholder, nothing
/// appended after the context.
pub proof fn lemma_rendered_without_backtrace(msg: Seq<char>, ctx: Seq<char>)
    ensures
        rendered(msg, ctx, None) == "Error: "@ + msg + "\nContext: "@ + ctx + "\n"@,
{
}

/// With a backtrace attached the rendering is exactly the no-backtrace
/// rendering followed by a single backtrace section: the backtrace comes
/// strictly after the context, and the message is still contained.
pub proof fn lemma_rendered_with_backtrace(msg: Seq<char>, ctx: Seq<char>, bt: Seq<char>)
    ensures
        rendered(msg, ctx, Some(bt)) == rendered(msg, ctx, None) + "Backtrace: "@ + bt + "\n"@,
        contains_substring(rendered(msg, ctx, Some(bt)), msg),
{
    lemma_rendered_contains_message(msg, ctx, Some(bt));
}

/// Chain-walking preserves the message: the cause of a wrapper holds
/// exactly the value that was wrapped, so its message is that value's
/// message, with no mutation or truncation.
pub proof fn lemma_cause_message<T: ErrorMessage>(w: TrasyError<T>, e: T)
    requires
        w.spec_inner() == e,
    ensures
        w.spec_inner().message_spec() == e.message_spec(),
{
}

/// The helpers are observationally equivalent to manual construction:
/// two wrappers agreeing on inner message, context text and backtrace
/// text render to the same text, however they were built.
pub proof fn lemma_equal_parts_render_equal<T: ErrorMessage>(a: TrasyError<T>, b: TrasyError<T>)
    requires
        a.spec_inner().message_spec() == b.spec_inner().message_spec(),
        a.spec_context() == b.spec_context(),
        a.spec_backtrace() == b.spec_backtrace(),
    ensures
        rendered(a.spec_inner().message_spec(), a.spec_context(), a.spec_backtrace()) == rendered(
            b.spec_inner().message_spec(),
            b.spec_context(),
            b.spec_backtrace(),
        ),
{
}

} // verus!
