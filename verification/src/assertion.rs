//! Property assertions as a debug build decides them.
//!
//! Each assertion answers with the violation it found at the site, if any: the text of the report,
//! for the caller to raise.

use core::fmt::{Debug, Write};
use vstd::prelude::*;
use vstd::string::*;

verus! {

/// The properties that a site can assert.
pub enum Property {
    /// The condition holds every time the site runs, and the site is hit at least once.
    Always,
    /// As `Always`, but the site may never be hit.
    AlwaysOrUnreachable,
    /// The condition holds at least once across the run.
    Sometimes,
    /// The site is reached at least once across the run.
    Reachable,
    /// The site is never reached.
    Unreachable,
}

impl Property {
    /// Whether one pass through a site, which sees `condition`, by itself refutes the property.
    /// What needs the whole run ("at least once") cannot be refuted at a single site. The
    /// reachability properties have no condition and ignore it.
    pub open spec fn refuted_by(self, condition: bool) -> bool {
        match self {
            Property::Always | Property::AlwaysOrUnreachable => !condition,
            Property::Sometimes | Property::Reachable => false,
            Property::Unreachable => true,
        }
    }

    /// The first words of a report on the property. Those that no site refutes have none.
    pub open spec fn headline(self) -> Seq<char> {
        match self {
            Property::Always | Property::AlwaysOrUnreachable => always_headline(),
            Property::Sometimes | Property::Reachable => Seq::empty(),
            Property::Unreachable => unreachable_headline(),
        }
    }

    /// Whether `violation` is what a site that asserts the property may answer: a report exactly
    /// where the pass refutes the property, on this message and with a rendering of these details.
    pub open spec fn answered_by(
        self,
        condition: bool,
        message: Seq<char>,
        details: Option<&dyn Debug>,
        violation: Option<String>,
    ) -> bool {
        &&& violation is Some <==> self.refuted_by(condition)
        &&& violation matches Some(text) ==> reports(text@, self.headline(), message, details)
    }
}

/// The first words of a report on an `always` property.
pub open spec fn always_headline() -> Seq<char> {
    "dst: `always` property violated: "@
}

/// The first words of a report on an `unreachable` site.
pub open spec fn unreachable_headline() -> Seq<char> {
    "dst: `unreachable` site reached: "@
}

/// Details as their `Debug` impl wrote them.
#[derive(Debug, PartialEq, Eq)]
pub struct Rendering {
    /// What the impl wrote.
    pub text: String,
    /// Whether it wrote all it had to: `false` where it gave up with an error.
    pub finished: bool,
}

impl View for Rendering {
    type V = (Seq<char>, bool);

    open spec fn view(&self) -> (Seq<char>, bool) {
        (self.text@, self.finished)
    }
}

/// The text of a report: headline and message, then the details in brackets where there are any.
/// Where the rendering of the details broke off, so does the report, and no bracket closes it.
pub open spec fn report_text(
    headline: Seq<char>,
    message: Seq<char>,
    details: Option<(Seq<char>, bool)>,
) -> Seq<char> {
    match details {
        None => headline + message,
        Some((text, true)) => headline + message + " (details: "@ + text + ")"@,
        Some((text, false)) => headline + message + " (details: "@ + text,
    }
}

/// Whether `rendering` is what one rendering of the details can come to. Rendering need not be
/// deterministic, so there may be several.
pub closed spec fn renders(details: Option<&dyn Debug>, rendering: (Seq<char>, bool)) -> bool {
    exists|r: Rendering| r@ == rendering && #[trigger] call_ensures(render, (details,), r)
}

/// Whether `text` is a report with these words and, where there are details, a rendering of them.
pub open spec fn reports(
    text: Seq<char>,
    headline: Seq<char>,
    message: Seq<char>,
    details: Option<&dyn Debug>,
) -> bool {
    match details {
        None => text == report_text(headline, message, None),
        Some(_) => exists|r: (Seq<char>, bool)| #[trigger]
            renders(details, r) && text == report_text(headline, message, Some(r)),
    }
}

/// A rendering that may be missing, by its view.
pub open spec fn optional_rendering(details: Option<&Rendering>) -> Option<(Seq<char>, bool)> {
    match details {
        None => None,
        Some(r) => Some(r@),
    }
}

/// Renders details through `core::fmt`, by writing them with `{:?}` into a `String`; `finished`
/// is whether that write succeeded. Nothing is claimed of the text: it is whatever the caller's
/// `Debug` impl writes, which is not a function of anything that is known of the value here.
#[verifier::external_body]
fn render(details: Option<&dyn Debug>) -> Rendering
    requires
        details is Some,
{
    let mut text = String::new();
    let finished = write!(text, "{:?}", details.unwrap()).is_ok();
    Rendering { text, finished }
}

/// Calls `f` on `argument`. The result is one that `f` gives on this very argument, which a
/// function without an `ensures` does not say of itself.
fn apply<A, R, F: Fn(A) -> R>(f: F, argument: A) -> (result: R)
    requires
        call_requires(f, (argument,)),
    ensures
        call_ensures(f, (argument,), result),
{
    f(argument)
}

/// Renders the details, if there are any.
fn render_given(details: Option<&dyn Debug>) -> (rendering: Option<Rendering>)
    ensures
        rendering is Some <==> details is Some,
        rendering matches Some(r) ==> renders(details, r@),
{
    if details.is_some() {
        Some(apply(render, details))
    } else {
        None
    }
}

/// Composes a report.
fn compose(headline: &str, message: &str, details: Option<&Rendering>) -> (text: String)
    ensures
        text@ == report_text(headline@, message@, optional_rendering(details)),
{
    let mut text = headline.to_owned();
    text.append(message);
    if let Some(rendering) = details {
        text.append(" (details: ");
        text.append(rendering.text.as_str());
        if rendering.finished {
            text.append(")");
        }
    }
    text
}

/// The report on a violated `always` property, with the details already rendered.
pub fn always_report(message: &str, details: Option<&Rendering>) -> (text: String)
    ensures
        text@ == report_text(always_headline(), message@, optional_rendering(details)),
{
    compose("dst: `always` property violated: ", message, details)
}

/// The report on a reached `unreachable` site, with the details already rendered.
pub fn unreachable_report(message: &str, details: Option<&Rendering>) -> (text: String)
    ensures
        text@ == report_text(unreachable_headline(), message@, optional_rendering(details)),
{
    compose("dst: `unreachable` site reached: ", message, details)
}

/// Backing for [`assert_always`] and [`assert_always_or_unreachable`]: a violation if the invariant
/// is false when the site runs. (That the site is hit at least once is not decided here.)
///
/// The details are rendered only for a report, so a site that passes cannot unwind, whatever their
/// `Debug` impl would do. What they read is up to that impl, and [`always_report`] says what
/// becomes of it.
pub fn __dst_debug_invariant(
    condition: bool,
    message: &str,
    details: Option<&dyn Debug>,
) -> (violation: Option<String>)
    ensures
        violation is Some <==> !condition,
        violation matches Some(text) ==> reports(text@, always_headline(), message@, details),
    no_unwind when condition
{
    if condition {
        return None;
    }
    let rendering = render_given(details);
    Some(always_report(message, rendering.as_ref()))
}

/// Backing for [`assert_sometimes`]: existential ("holds at least once across the run"). A single
/// false observation is not a violation, so there is never one to report.
pub fn __dst_debug_existential(
    condition: bool,
    message: &str,
    details: Option<&dyn Debug>,
) -> (violation: Option<String>)
    ensures
        violation is None,
    no_unwind
{
    let _ = (condition, message, details);
    None
}

/// Backing for [`assert_reachable`]: reaching the site is the success condition, so there is
/// nothing to report.
pub fn __dst_debug_reachable(message: &str, details: Option<&dyn Debug>) -> (violation: Option<
    String,
>)
    ensures
        violation is None,
    no_unwind
{
    let _ = (message, details);
    None
}

/// Backing for [`assert_unreachable`]: reaching the site *is* the violation.
///
/// What the details read is up to their `Debug` impl, and [`unreachable_report`] says what becomes
/// of it.
pub fn __dst_debug_unreachable(message: &str, details: Option<&dyn Debug>) -> (violation: Option<
    String,
>)
    ensures
        violation matches Some(text) && reports(
            text@,
            unreachable_headline(),
            message@,
            details,
        ),
{
    let rendering = render_given(details);
    Some(unreachable_report(message, rendering.as_ref()))
}

/// Asserts that `condition` holds every time this site runs and that it is hit at least once. A
/// violation where the condition is false; a site that passes cannot unwind.
pub fn assert_always(
    condition: bool,
    message: &str,
    details: Option<&dyn Debug>,
) -> (violation: Option<String>)
    ensures
        Property::Always.answered_by(condition, message@, details, violation),
    no_unwind when condition
{
    __dst_debug_invariant(condition, message, details)
}

/// Like [`assert_always`], but the property still passes if the site is never hit. A violation
/// where the condition is false; a site that passes cannot unwind.
pub fn assert_always_or_unreachable(
    condition: bool,
    message: &str,
    details: Option<&dyn Debug>,
) -> (violation: Option<String>)
    ensures
        Property::AlwaysOrUnreachable.answered_by(condition, message@, details, violation),
    no_unwind when condition
{
    __dst_debug_invariant(condition, message, details)
}

/// Asserts that `condition` holds at least once across the run. Never a violation at one site.
pub fn assert_sometimes(
    condition: bool,
    message: &str,
    details: Option<&dyn Debug>,
) -> (violation: Option<String>)
    ensures
        violation is None,
        Property::Sometimes.answered_by(condition, message@, details, violation),
    no_unwind
{
    __dst_debug_existential(condition, message, details)
}

/// Asserts that this site is reached at least once across the run. Never a violation.
pub fn assert_reachable(message: &str, details: Option<&dyn Debug>) -> (violation: Option<String>)
    ensures
        violation is None,
        forall|c: bool| #[trigger]
            Property::Reachable.answered_by(c, message@, details, violation),
    no_unwind
{
    __dst_debug_reachable(message, details)
}

/// Asserts that this site is never reached. Reaching it is the violation.
pub fn assert_unreachable(message: &str, details: Option<&dyn Debug>) -> (violation: Option<String>)
    ensures
        violation is Some,
        violation matches Some(text) && reports(
            text@,
            unreachable_headline(),
            message@,
            details,
        ),
        forall|c: bool| #[trigger]
            Property::Unreachable.answered_by(c, message@, details, violation),
{
    __dst_debug_unreachable(message, details)
}

/// Locally the two `always` properties are one: they differ only in what a site that is never hit
/// means, which no single site can tell. What one may answer the other may, the text included, and
/// both answer as the backing function does.
pub proof fn law_always_variants_agree(
    condition: bool,
    message: Seq<char>,
    details: Option<&dyn Debug>,
    violation: Option<String>,
)
    ensures
        Property::AlwaysOrUnreachable.answered_by(condition, message, details, violation)
            <==> Property::Always.answered_by(condition, message, details, violation),
        Property::Always.answered_by(condition, message, details, violation) <==> {
            &&& violation is Some <==> !condition
            &&& violation matches Some(text) ==> reports(
                text@,
                always_headline(),
                message,
                details,
            )
        },
{
}

/// On the same inputs the two `always` properties both pass, or both report the same text, as long
/// as the details read the same every time they are rendered. Without details nothing is asked.
pub proof fn law_always_variants_report_alike(
    condition: bool,
    message: Seq<char>,
    details: Option<&dyn Debug>,
    always: Option<String>,
    always_or_unreachable: Option<String>,
)
    requires
        Property::Always.answered_by(condition, message, details, always),
        Property::AlwaysOrUnreachable.answered_by(
            condition,
            message,
            details,
            always_or_unreachable,
        ),
        details is Some ==> forall|a: (Seq<char>, bool), b: (Seq<char>, bool)|
            renders(details, a) && renders(details, b) ==> a == b,
    ensures
        always is Some <==> always_or_unreachable is Some,
        always is Some <==> !condition,
        always matches Some(a) ==> (always_or_unreachable matches Some(b) ==> a@ == b@),
{
}

/// An `always` property stands or falls with its condition, while no condition makes a `sometimes`
/// or a `reachable` site fail or an `unreachable` site pass.
pub proof fn law_what_a_site_decides(condition: bool)
    ensures
        Property::Always.refuted_by(condition) <==> !condition,
        !Property::Sometimes.refuted_by(condition),
        !Property::Reachable.refuted_by(condition),
        Property::Unreachable.refuted_by(condition),
{
}

/// Every report, with details or without, starts with its headline and then the message.
pub proof fn law_report_leads_with_message(
    text: Seq<char>,
    headline: Seq<char>,
    message: Seq<char>,
    details: Option<&dyn Debug>,
)
    requires
        reports(text, headline, message, details),
    ensures
        (headline + message).is_prefix_of(text),
{
    let lead = headline + message;
    assert(text.len() >= lead.len());
    assert(lead =~= text.subrange(0, lead.len() as int));
}

/// A rendering comes out of a call of `render` on these very details, text and end alike.
proof fn lemma_renders_is_render(
    details: Option<&dyn Debug>,
    written: Seq<char>,
    finished: bool,
)
    requires
        renders(details, (written, finished)),
    ensures
        exists|r: Rendering|
            {
                &&& r.text@ == written
                &&& r.finished == finished
                &&& #[trigger] call_ensures(render, (details,), r)
            },
{
}

/// A report holds the whole rendering of its details, however long, in its place: after headline
/// and message, and closed by a bracket exactly where the rendering finished. Without details it
/// ends with the message.
pub proof fn law_report_holds_details(
    text: Seq<char>,
    headline: Seq<char>,
    message: Seq<char>,
    details: Option<&dyn Debug>,
)
    requires
        reports(text, headline, message, details),
    ensures
        details is None ==> text == headline + message,
        details is Some ==> exists|written: Seq<char>, finished: bool| #[trigger]
            renders(details, (written, finished)) && text == headline + message + " (details: "@
                + written + (if finished {
                ")"@
            } else {
                Seq::empty()
            }),
{
    if details is Some {
        let r = choose|r: (Seq<char>, bool)| #[trigger]
            renders(details, r) && text == report_text(headline, message, Some(r));
        lemma_renders_is_render(details, r.0, r.1);
        assert(renders(details, (r.0, r.1)));
        assert(text =~= headline + message + " (details: "@ + r.0 + (if r.1 {
            ")"@
        } else {
            Seq::empty()
        }));
    }
}

/// An `always` site, through either assertion or their backing, answers with a report exactly where
/// the condition is false, and the report reads: headline, message, and the rendering of these
/// details in brackets where there are details.
pub proof fn law_always_site_answers(
    condition: bool,
    message: &str,
    details: Option<&dyn Debug>,
    violation: Option<String>,
)
    requires
        ({
            ||| call_ensures(assert_always, (condition, message, details), violation)
            ||| call_ensures(assert_always_or_unreachable, (condition, message, details), violation)
            ||| call_ensures(__dst_debug_invariant, (condition, message, details), violation)
        }),
    ensures
        violation is Some <==> !condition,
        details is None ==> (violation matches Some(text) ==> text@ == "dst: `always` property violated: "@ + message@),
        details is Some ==> (violation matches Some(text) ==> exists|
            written: Seq<char>,
            finished: bool,
        | #[trigger]
            renders(details, (written, finished)) && text@ == "dst: `always` property violated: "@ + message@
                + " (details: "@ + written + (if finished {
                ")"@
            } else {
                Seq::empty()
            })),
{
    if let Some(text) = violation {
        law_report_holds_details(text@, "dst: `always` property violated: "@, message@, details);
    }
}

/// An `unreachable` site, through the assertion or its backing, always answers with a report, and
/// the report reads: headline, message, and the rendering of these details in brackets where there
/// are details.
pub proof fn law_unreachable_site_answers(
    message: &str,
    details: Option<&dyn Debug>,
    violation: Option<String>,
)
    requires
        ({
            ||| call_ensures(assert_unreachable, (message, details), violation)
            ||| call_ensures(__dst_debug_unreachable, (message, details), violation)
        }),
    ensures
        violation is Some,
        details is None ==> (violation matches Some(text) ==> text@ == "dst: `unreachable` site reached: "@ + message@),
        details is Some ==> (violation matches Some(text) ==> exists|
            written: Seq<char>,
            finished: bool,
        | #[trigger]
            renders(details, (written, finished)) && text@ == "dst: `unreachable` site reached: "@ + message@
                + " (details: "@ + written + (if finished {
                ")"@
            } else {
                Seq::empty()
            })),
{
    if let Some(text) = violation {
        law_report_holds_details(text@, "dst: `unreachable` site reached: "@, message@, details);
    }
}

/// What an `unreachable` site may answer is a report on the message and these details and nothing
/// else, whatever the condition; what a `sometimes` or a `reachable` site may answer is nothing.
pub proof fn law_other_answers(
    condition: bool,
    message: Seq<char>,
    details: Option<&dyn Debug>,
    violation: Option<String>,
)
    ensures
        Property::Unreachable.answered_by(condition, message, details, violation) <==> (
        violation matches Some(text) && reports(
            text@,
            "dst: `unreachable` site reached: "@,
            message,
            details,
        )),
        Property::Sometimes.answered_by(condition, message, details, violation)
            <==> violation is None,
        Property::Reachable.answered_by(condition, message, details, violation)
            <==> violation is None,
{
}

/// A `sometimes` or a `reachable` site, through the assertion or its backing, answers with nothing,
/// whatever it is given.
pub proof fn law_existential_site_is_silent(
    condition: bool,
    message: &str,
    details: Option<&dyn Debug>,
    violation: Option<String>,
)
    requires
        ({
            ||| call_ensures(assert_sometimes, (condition, message, details), violation)
            ||| call_ensures(__dst_debug_existential, (condition, message, details), violation)
            ||| call_ensures(assert_reachable, (message, details), violation)
            ||| call_ensures(__dst_debug_reachable, (message, details), violation)
        }),
    ensures
        violation is None,
{
}

/// Two sites that are refuted with the same message and without details, one `always` and one
/// `unreachable`, differ in the headline and in nothing else.
pub proof fn law_reports_differ_in_headline(
    message: &str,
    always: Option<String>,
    unreachable: Option<String>,
)
    requires
        call_ensures(assert_always, (false, message, None::<&dyn Debug>), always),
        call_ensures(assert_unreachable, (message, None::<&dyn Debug>), unreachable),
    ensures
        always matches Some(a) && (unreachable matches Some(u) && {
            &&& a@ == "dst: `always` property violated: "@ + message@
            &&& u@ == "dst: `unreachable` site reached: "@ + message@
        }),
{
    law_always_site_answers(false, message, None, always);
    law_unreachable_site_answers(message, None, unreachable);
}

/// The reports on rendered details read: headline, message, and the whole rendering in brackets,
/// which are left open where it did not finish.
pub proof fn law_reports_hold_rendering(message: &str, rendering: &Rendering, text: String)
    ensures
        call_ensures(always_report, (message, Some(rendering)), text) ==> text@ == "dst: `always` property violated: "@ + message@
            + " (details: "@ + rendering.text@ + (if rendering.finished {
            ")"@
        } else {
            Seq::empty()
        }),
        call_ensures(unreachable_report, (message, Some(rendering)), text) ==> text@ == "dst: `unreachable` site reached: "@
            + message@ + " (details: "@ + rendering.text@ + (if rendering.finished {
            ")"@
        } else {
            Seq::empty()
        }),
        call_ensures(always_report, (message, None::<&Rendering>), text) ==> text@ == "dst: `always` property violated: "@ + message@,
        call_ensures(unreachable_report, (message, None::<&Rendering>), text) ==> text@ == "dst: `unreachable` site reached: "@
            + message@,
{
}

} // verus!
