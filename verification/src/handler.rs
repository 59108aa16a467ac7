//! The request flow: from phase outcomes to the final response.
//!
//! A page request runs through four phases — obtain a session, navigate it to
//! the target address, retrieve the rendered markup, reset the session — and
//! the remote call of each phase is made by an unverified driver loop. The
//! [`Flow`] state machine here makes every decision: which phase comes next,
//! which failure aborts the request with which error text, and that a failed
//! reset never spoils an answer already computed.

use vstd::prelude::*;
use vstd::string::StringExecFns;

verus! {

/// An HTTP-level answer: a status code and a body.
pub struct Reply {
    pub status: u16,
    pub body: String,
}

/// Where a page request stands: which remote call its driver loop must make
/// next, or the answer it ends with.
pub enum Flow {
    /// Obtain a live session from the session manager.
    NeedSession,
    /// Navigate the session to the target address.
    NeedNavigate,
    /// Retrieve the rendered page markup.
    NeedSource,
    /// Reset the session; the markup already retrieved rides along.
    NeedReset(String),
    /// The request is answered.
    Done(Reply),
}

/// The outcome of the remote call a [`Flow`] state asked for. Failures carry
/// the underlying error's description.
pub enum Event {
    SessionOk,
    SessionFailed(String),
    NavigateOk,
    NavigateFailed(String),
    SourceOk(String),
    SourceFailed(String),
    /// The reset finished; whether it succeeded does not change the answer.
    ResetFinished(bool),
}

/// The fixed text served at the root path.
pub open spec fn greeting_text() -> Seq<char> {
    "Nyari apa bg?"@
}

/// The body answering a failure to obtain a session.
pub open spec fn session_error_text(detail: Seq<char>) -> Seq<char> {
    "WebDriver error: "@ + detail
}

/// The body answering a failed navigation.
pub open spec fn navigation_error_text(detail: Seq<char>) -> Seq<char> {
    "Navigation error: "@ + detail
}

/// The body answering a failed markup retrieval.
pub open spec fn source_error_text(detail: Seq<char>) -> Seq<char> {
    "Source error: "@ + detail
}

/// The greeting, as an owned string.
pub fn greeting() -> (r: String)
    ensures
        r@ == greeting_text(),
{
    String::from_str("Nyari apa bg?")
}

/// The answer to a request for the root path.
pub fn index_reply() -> (r: Reply)
    ensures
        r.status == 200,
        r.body@ == greeting_text(),
{
    Reply { status: 200, body: greeting() }
}

/// The internal-error answer for a failure to obtain a session.
pub fn session_error_reply(detail: &str) -> (r: Reply)
    ensures
        r.status == 500,
        r.body@ == session_error_text(detail@),
{
    Reply { status: 500, body: String::from_str("WebDriver error: ").concat(detail) }
}

/// The internal-error answer for a failed navigation.
pub fn navigation_error_reply(detail: &str) -> (r: Reply)
    ensures
        r.status == 500,
        r.body@ == navigation_error_text(detail@),
{
    Reply { status: 500, body: String::from_str("Navigation error: ").concat(detail) }
}

/// The internal-error answer for a failed markup retrieval.
pub fn source_error_reply(detail: &str) -> (r: Reply)
    ensures
        r.status == 500,
        r.body@ == source_error_text(detail@),
{
    Reply { status: 500, body: String::from_str("Source error: ").concat(detail) }
}

/// The successful answer: the rendered markup, verbatim.
pub fn success_reply(html: String) -> (r: Reply)
    ensures
        r.status == 200,
        r.body@ == html@,
{
    Reply { status: 200, body: html }
}

/// Whether `e` is an outcome of the remote call that state `f` asked for.
pub open spec fn fits(f: Flow, e: Event) -> bool {
    match (f, e) {
        (Flow::NeedSession, Event::SessionOk) => true,
        (Flow::NeedSession, Event::SessionFailed(_)) => true,
        (Flow::NeedNavigate, Event::NavigateOk) => true,
        (Flow::NeedNavigate, Event::NavigateFailed(_)) => true,
        (Flow::NeedSource, Event::SourceOk(_)) => true,
        (Flow::NeedSource, Event::SourceFailed(_)) => true,
        (Flow::NeedReset(_), Event::ResetFinished(_)) => true,
        _ => false,
    }
}

/// Advance a request by one phase outcome.
///
/// A failure in any of the first three phases ends the request at once with
/// an internal-error answer naming that phase and carrying the underlying
/// description; no retry happens within the request. A retrieved markup is
/// answered with status 200 exactly as retrieved, once the reset has been
/// attempted — whether or not the reset succeeded.
pub fn step(f: Flow, e: Event) -> (r: Flow)
    requires
        fits(f, e),
    ensures
        e is SessionOk ==> r is NeedNavigate,
        e matches Event::SessionFailed(d) ==> (r matches Flow::Done(rep) && rep.status == 500
            && rep.body@ == session_error_text(d@)),
        e is NavigateOk ==> r is NeedSource,
        e matches Event::NavigateFailed(d) ==> (r matches Flow::Done(rep) && rep.status == 500
            && rep.body@ == navigation_error_text(d@)),
        e matches Event::SourceOk(h) ==> (r matches Flow::NeedReset(kept) && kept@ == h@),
        e matches Event::SourceFailed(d) ==> (r matches Flow::Done(rep) && rep.status == 500
            && rep.body@ == source_error_text(d@)),
        e is ResetFinished ==> (f matches Flow::NeedReset(h) && r matches Flow::Done(rep)
            && rep.status == 200 && rep.body@ == h@),
{
    match (f, e) {
        (Flow::NeedSession, Event::SessionOk) => Flow::NeedNavigate,
        (Flow::NeedSession, Event::SessionFailed(d)) => Flow::Done(
            session_error_reply(d.as_str()),
        ),
        (Flow::NeedNavigate, Event::NavigateOk) => Flow::NeedSource,
        (Flow::NeedNavigate, Event::NavigateFailed(d)) => Flow::Done(
            navigation_error_reply(d.as_str()),
        ),
        (Flow::NeedSource, Event::SourceOk(h)) => Flow::NeedReset(h),
        (Flow::NeedSource, Event::SourceFailed(d)) => Flow::Done(source_error_reply(d.as_str())),
        (Flow::NeedReset(h), Event::ResetFinished(_)) => Flow::Done(success_reply(h)),
        _ => unreached(),
    }
}

/// Every navigation-failure body names the failed phase: it begins with the
/// words `Navigation error`, whatever description follows.
pub proof fn lemma_navigation_error_mentions_phase(detail: Seq<char>)
    ensures
        navigation_error_text(detail).len() >= "Navigation error"@.len(),
        navigation_error_text(detail).subrange(0, "Navigation error"@.len() as int)
            == "Navigation error"@,
{
    reveal_strlit("Navigation error: ");
    reveal_strlit("Navigation error");
    assert(navigation_error_text(detail).subrange(0, "Navigation error"@.len() as int)
        =~= "Navigation error"@);
}


} // verus!
