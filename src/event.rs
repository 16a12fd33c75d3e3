use crate::text::{dec, is_digit, lemma_dec_digits, push_decimal, push_signed, signed_dec};
use vstd::prelude::*;
use vstd::string::StringExecFns;

verus! {

/// An event received from the display server, reduced to the fields that
/// are reported. Window ids are the server's numeric identifiers, and
/// `state` is the raw key-and-button modifier mask of the event.
#[derive(Clone, Debug)]
pub enum Event {
    Exposure { window: u32, x: u16, y: u16, width: u16, height: u16 },
    ButtonPress { window: u32, detail: u8, x: i16, y: i16, state: u16 },
    ButtonRelease { window: u32, detail: u8, x: i16, y: i16, state: u16 },
    PointerMotion { window: u32, x: i16, y: i16 },
    PointerEnter { window: u32, x: i16, y: i16 },
    PointerLeave { window: u32, x: i16, y: i16 },
    KeyPress { window: u32, state: u16 },
    KeyRelease { window: u32, state: u16 },
    /// Any other kind of event, with a description of it.
    Unrecognized { description: String },
}

/// What handling one event comes to: the lines to report, in order, and
/// whether the event loop ends.
pub struct Step {
    pub lines: Vec<String>,
    pub stop: bool,
}

pub struct StepView {
    pub lines: Seq<Seq<char>>,
    pub stop: bool,
}

impl View for Step {
    type V = StepView;

    open spec fn view(&self) -> StepView {
        StepView { lines: self.lines@.map_values(|s: String| s@), stop: self.stop }
    }
}

/// The text that x11rb's alternate `Debug` form gives a key-and-button mask.
pub uninterp spec fn key_but_mask_debug(state: u16) -> Seq<char>;

/// Relies on the `Debug` impl of x11rb's `KeyButMask`, in its alternate form
/// (`{:#?}`): it names the bits that are set, and depends on the mask alone.
#[verifier::external_body]
fn modifier_text(state: u16) -> (r: String)
    ensures
        r@ == key_but_mask_debug(state),
{
    format!("{:#?}", x11rb::protocol::xproto::KeyButMask::from(state))
}

/// The primary button ends the event loop; nothing else does.
pub open spec fn stops(e: Event) -> bool {
    match e {
        Event::ButtonPress { detail, .. } => detail == 1,
        _ => false,
    }
}

/// The modifier mask that an event reports before its own line, if any.
pub open spec fn modifier_state(e: Event) -> Option<u16> {
    match e {
        Event::ButtonPress { state, .. } => Some(state),
        Event::ButtonRelease { state, .. } => Some(state),
        Event::KeyPress { state, .. } => Some(state),
        Event::KeyRelease { state, .. } => Some(state),
        _ => None,
    }
}

pub open spec fn coords_text(x: int, y: int) -> Seq<char> {
    "("@ + signed_dec(x) + ","@ + signed_dec(y) + ")"@
}

/// `lead`, the window id, `sep`, then the coordinates in parentheses.
pub open spec fn window_at(lead: Seq<char>, w: u32, sep: Seq<char>, x: i16, y: i16) -> Seq<char> {
    lead + dec(w as nat) + sep + coords_text(x as int, y as int)
}

/// The line that reports an event; a press of the primary button has none.
pub open spec fn message(e: Event) -> Seq<char> {
    match e {
        Event::Exposure { window, x, y, width, height } => "Window "@ + dec(window as nat)
            + " exposed. Region to be redrawn at location ("@ + dec(x as nat) + ","@ + dec(
            y as nat,
        ) + ") with dimensions ("@ + dec(width as nat) + ","@ + dec(height as nat) + ")"@,
        Event::ButtonPress { window, detail, x, y, .. } => {
            if detail == 4 {
                window_at("Wheel Button up in window "@, window, ", at coordinates "@, x, y)
            } else if detail == 5 {
                window_at("Wheel Button down in window "@, window, ", at coordinates "@, x, y)
            } else {
                window_at(
                    "Button "@ + dec(detail as nat) + " pressed in window "@,
                    window,
                    ", at coordinates "@,
                    x,
                    y,
                )
            }
        },
        Event::ButtonRelease { window, detail, x, y, .. } => window_at(
            "Button "@ + dec(detail as nat) + " released in window "@,
            window,
            ", at coordinates "@,
            x,
            y,
        ),
        Event::PointerMotion { window, x, y } => window_at(
            "Mouse moved in window "@,
            window,
            " at coordinates "@,
            x,
            y,
        ),
        Event::PointerEnter { window, x, y } => window_at(
            "Mouse entered window "@,
            window,
            " at coordinates "@,
            x,
            y,
        ),
        Event::PointerLeave { window, x, y } => window_at(
            "Mouse left window "@,
            window,
            " at coordinates "@,
            x,
            y,
        ),
        Event::KeyPress { window, .. } => "Key pressed in window "@ + dec(window as nat),
        Event::KeyRelease { window, .. } => "Key released in window "@ + dec(window as nat),
        Event::Unrecognized { description } => "Unknown event: "@ + description@,
    }
}

/// The lines reported for an event, given the text of its modifier mask:
/// that text first for an event that carries a mask, then the event's own
/// line unless the event ends the loop.
pub open spec fn report_lines(e: Event, modifiers: Seq<char>) -> Seq<Seq<char>> {
    let body = if stops(e) {
        Seq::<Seq<char>>::empty()
    } else {
        seq![message(e)]
    };
    if modifier_state(e) is Some {
        seq![modifiers] + body
    } else {
        body
    }
}

pub open spec fn step_of(e: Event, modifiers: Seq<char>) -> StepView {
    StepView { lines: report_lines(e, modifiers), stop: stops(e) }
}

/// The modifier text that `dispatch` reports for an event.
pub open spec fn modifier_text_of(e: Event) -> Seq<char> {
    match modifier_state(e) {
        Some(state) => key_but_mask_debug(state),
        None => Seq::empty(),
    }
}

fn push_coords(s: &mut String, x: i16, y: i16)
    ensures
        final(s)@ == old(s)@ + coords_text(x as int, y as int),
{
    s.append("(");
    push_signed(s, x);
    s.append(",");
    push_signed(s, y);
    s.append(")");
    assert(s@ =~= old(s)@ + coords_text(x as int, y as int));
}

fn push_window_at(s: &mut String, w: u32, sep: &str, x: i16, y: i16)
    ensures
        final(s)@ == window_at(old(s)@, w, sep@, x, y),
{
    push_decimal(s, w);
    s.append(sep);
    push_coords(s, x, y);
}

fn message_text(e: &Event) -> (r: String)
    requires
        !stops(*e),
    ensures
        r@ == message(*e),
{
    match e {
        Event::Exposure { window, x, y, width, height } => {
            let mut s = String::from_str("Window ");
            push_decimal(&mut s, *window);
            s.append(" exposed. Region to be redrawn at location (");
            push_decimal(&mut s, *x as u32);
            s.append(",");
            push_decimal(&mut s, *y as u32);
            s.append(") with dimensions (");
            push_decimal(&mut s, *width as u32);
            s.append(",");
            push_decimal(&mut s, *height as u32);
            s.append(")");
            s
        },
        Event::ButtonPress { window, detail, x, y, .. } => {
            if *detail == 4 {
                let mut s = String::from_str("Wheel Button up in window ");
                push_window_at(&mut s, *window, ", at coordinates ", *x, *y);
                s
            } else if *detail == 5 {
                let mut s = String::from_str("Wheel Button down in window ");
                push_window_at(&mut s, *window, ", at coordinates ", *x, *y);
                s
            } else {
                let mut s = String::from_str("Button ");
                push_decimal(&mut s, *detail as u32);
                s.append(" pressed in window ");
                push_window_at(&mut s, *window, ", at coordinates ", *x, *y);
                s
            }
        },
        Event::ButtonRelease { window, detail, x, y, .. } => {
            let mut s = String::from_str("Button ");
            push_decimal(&mut s, *detail as u32);
            s.append(" released in window ");
            push_window_at(&mut s, *window, ", at coordinates ", *x, *y);
            s
        },
        Event::PointerMotion { window, x, y } => {
            let mut s = String::from_str("Mouse moved in window ");
            push_window_at(&mut s, *window, " at coordinates ", *x, *y);
            s
        },
        Event::PointerEnter { window, x, y } => {
            let mut s = String::from_str("Mouse entered window ");
            push_window_at(&mut s, *window, " at coordinates ", *x, *y);
            s
        },
        Event::PointerLeave { window, x, y } => {
            let mut s = String::from_str("Mouse left window ");
            push_window_at(&mut s, *window, " at coordinates ", *x, *y);
            s
        },
        Event::KeyPress { window, .. } => {
            let mut s = String::from_str("Key pressed in window ");
            push_decimal(&mut s, *window);
            s
        },
        Event::KeyRelease { window, .. } => {
            let mut s = String::from_str("Key released in window ");
            push_decimal(&mut s, *window);
            s
        },
        Event::Unrecognized { description } => {
            let mut s = String::from_str("Unknown event: ");
            s.append(description.as_str());
            s
        },
    }
}

/// Handles one event, given the text of its modifier mask: the lines to
/// report and whether the loop ends. Only a press of button 1 ends it.
pub fn dispatch_with_modifiers(event: &Event, modifiers: &str) -> (r: Step)
    ensures
        r@ == step_of(*event, modifiers@),
        r.stop <==> (event is ButtonPress && event->ButtonPress_detail == 1),
{
    let mut lines: Vec<String> = Vec::new();
    let carries_mask = match event {
        Event::ButtonPress { .. } | Event::ButtonRelease { .. } | Event::KeyPress { .. }
        | Event::KeyRelease { .. } => true,
        _ => false,
    };
    if carries_mask {
        lines.push(String::from_str(modifiers));
    }
    let stop = match event {
        Event::ButtonPress { detail, .. } => *detail == 1,
        _ => false,
    };
    if !stop {
        lines.push(message_text(event));
    }
    assert(lines@.map_values(|s: String| s@) =~= report_lines(*event, modifiers@));
    Step { lines, stop }
}

/// Handles one event: reports its modifier mask as x11rb formats it, where
/// the event carries one, then the event's own line; a press of button 1
/// ends the loop and reports no line of its own.
pub fn dispatch(event: &Event) -> (r: Step)
    ensures
        r@ == step_of(*event, modifier_text_of(*event)),
        r.stop <==> (event is ButtonPress && event->ButtonPress_detail == 1),
{
    let modifiers = match event {
        Event::ButtonPress { state, .. } | Event::ButtonRelease { state, .. } | Event::KeyPress {
            state,
            ..
        } | Event::KeyRelease { state, .. } => modifier_text(*state),
        _ => String::new(),
    };
    dispatch_with_modifiers(event, modifiers.as_str())
}

/// The formats in which events are reported.
#[derive(Clone, Copy, Debug, PartialEq, Eq, Structural)]
pub enum ReportKind {
    Exposure,
    Termination,
    WheelUp,
    WheelDown,
    ButtonPressed,
    ButtonReleased,
    Motion,
    Enter,
    Leave,
    KeyPressed,
    KeyReleased,
    Unrecognized,
}

pub open spec fn report_kind(e: Event) -> ReportKind {
    match e {
        Event::Exposure { .. } => ReportKind::Exposure,
        Event::ButtonPress { detail, .. } => {
            if detail == 1 {
                ReportKind::Termination
            } else if detail == 4 {
                ReportKind::WheelUp
            } else if detail == 5 {
                ReportKind::WheelDown
            } else {
                ReportKind::ButtonPressed
            }
        },
        Event::ButtonRelease { .. } => ReportKind::ButtonReleased,
        Event::PointerMotion { .. } => ReportKind::Motion,
        Event::PointerEnter { .. } => ReportKind::Enter,
        Event::PointerLeave { .. } => ReportKind::Leave,
        Event::KeyPress { .. } => ReportKind::KeyPressed,
        Event::KeyRelease { .. } => ReportKind::KeyReleased,
        Event::Unrecognized { .. } => ReportKind::Unrecognized,
    }
}

/// The number of digits at the start of `s`.
pub open spec fn leading_digits(s: Seq<char>) -> nat
    decreases s.len(),
{
    if s.len() > 0 && is_digit(s[0]) {
        1 + leading_digits(s.drop_first())
    } else {
        0
    }
}

/// Reads back from a report line the kind of event it reports.
pub open spec fn kind_of_line(l: Seq<char>) -> ReportKind {
    if l[0] == 'W' {
        if l[1] == 'i' {
            ReportKind::Exposure
        } else if l[13] == 'u' {
            ReportKind::WheelUp
        } else {
            ReportKind::WheelDown
        }
    } else if l[0] == 'B' {
        if l[7 + leading_digits(l.skip(7)) as int + 1] == 'p' {
            ReportKind::ButtonPressed
        } else {
            ReportKind::ButtonReleased
        }
    } else if l[0] == 'M' {
        if l[6] == 'm' {
            ReportKind::Motion
        } else if l[6] == 'e' {
            ReportKind::Enter
        } else {
            ReportKind::Leave
        }
    } else if l[0] == 'K' {
        if l[4] == 'p' {
            ReportKind::KeyPressed
        } else {
            ReportKind::KeyReleased
        }
    } else {
        ReportKind::Unrecognized
    }
}

proof fn lemma_leading_digits(a: Seq<char>, b: Seq<char>)
    requires
        forall|i: int| 0 <= i < a.len() ==> is_digit(#[trigger] a[i]),
        b.len() > 0,
        !is_digit(b[0]),
    ensures
        leading_digits(a + b) == a.len(),
    decreases a.len(),
{
    if a.len() == 0 {
        assert(a + b =~= b);
    } else {
        assert((a + b).drop_first() =~= a.drop_first() + b);
        lemma_leading_digits(a.drop_first(), b);
    }
}

proof fn lemma_button_line(d: u8, verb: Seq<char>, rest: Seq<char>)
    requires
        verb.len() > 1,
        verb[0] == ' ',
    ensures
        ({
            let l = "Button "@ + dec(d as nat) + verb + rest;
            l[0] == 'B' && l[7 + leading_digits(l.skip(7)) as int + 1] == verb[1]
        }),
{
    reveal_strlit("Button ");
    let l = "Button "@ + dec(d as nat) + verb + rest;
    lemma_dec_digits(d as nat);
    assert(l.skip(7) =~= dec(d as nat) + (verb + rest));
    lemma_leading_digits(dec(d as nat), verb + rest);
}

proof fn lemma_kind_of_message(e: Event)
    requires
        !stops(e),
    ensures
        kind_of_line(message(e)) == report_kind(e),
{
    reveal_strlit("Window ");
    reveal_strlit("Wheel Button up in window ");
    reveal_strlit("Wheel Button down in window ");
    reveal_strlit(" pressed in window ");
    reveal_strlit(" released in window ");
    reveal_strlit("Mouse moved in window ");
    reveal_strlit("Mouse entered window ");
    reveal_strlit("Mouse left window ");
    reveal_strlit("Key pressed in window ");
    reveal_strlit("Key released in window ");
    reveal_strlit("Unknown event: ");
    match e {
        Event::ButtonPress { window, detail, x, y, .. } => {
            if detail != 4 && detail != 5 {
                let rest = dec(window as nat) + ", at coordinates "@ + coords_text(x as int, y as int);
                lemma_button_line(detail, " pressed in window "@, rest);
                assert(message(e) =~= "Button "@ + dec(detail as nat) + " pressed in window "@ + rest);
            }
        },
        Event::ButtonRelease { window, detail, x, y, .. } => {
            let rest = dec(window as nat) + ", at coordinates "@ + coords_text(x as int, y as int);
            lemma_button_line(detail, " released in window "@, rest);
            assert(message(e) =~= "Button "@ + dec(detail as nat) + " released in window "@ + rest);
        },
        _ => {},
    }
}

/// Every kind of event has a report of its own: two events of different
/// kinds never come to the same step, whatever their modifier texts. The
/// catch-all kind is among them, and `dispatch` handles every event.
pub proof fn lemma_reports_distinct(e1: Event, e2: Event, m1: Seq<char>, m2: Seq<char>)
    requires
        report_kind(e1) != report_kind(e2),
    ensures
        step_of(e1, m1) != step_of(e2, m2),
{
    if !stops(e1) && !stops(e2) {
        lemma_kind_of_message(e1);
        lemma_kind_of_message(e2);
        let l1 = report_lines(e1, m1);
        let l2 = report_lines(e2, m2);
        assert(l1.last() == message(e1));
        assert(l2.last() == message(e2));
    }
}

/// Whether some event of `events` ends the loop.
pub open spec fn ends_loop(events: Seq<Event>) -> bool {
    exists|i: int| 0 <= i < events.len() && stops(#[trigger] events[i])
}

/// What a session reports for the events it receives, in order: the lines
/// of each event as `dispatch` gives them, up to the event that ends the
/// loop; what would come after it is never received.
pub open spec fn transcript(events: Seq<Event>) -> Seq<Seq<char>>
    decreases events.len(),
{
    if events.len() == 0 {
        Seq::empty()
    } else {
        let prior = events.drop_last();
        if ends_loop(prior) {
            transcript(prior)
        } else {
            transcript(prior) + step_of(events.last(), modifier_text_of(events.last())).lines
        }
    }
}

/// Events are handled independently: after any history that has not ended
/// the loop, an event adds to the session's report exactly the lines it
/// reports on its own, so what came before never changes how it is handled.
/// Once the loop has ended, nothing more is reported.
pub proof fn lemma_no_state_leakage(h1: Seq<Event>, h2: Seq<Event>, e: Event)
    ensures
        !ends_loop(h1) ==> transcript(h1.push(e)) == transcript(h1) + step_of(
            e,
            modifier_text_of(e),
        ).lines,
        !ends_loop(h1) && !ends_loop(h2) ==> transcript(h1.push(e)).skip(transcript(h1).len() as int)
            == transcript(h2.push(e)).skip(transcript(h2).len() as int),
        ends_loop(h1) ==> transcript(h1.push(e)) == transcript(h1),
{
    assert(h1.push(e).drop_last() =~= h1);
    assert(h2.push(e).drop_last() =~= h2);
    let lines = step_of(e, modifier_text_of(e)).lines;
    assert((transcript(h1) + lines).skip(transcript(h1).len() as int) =~= lines);
    assert((transcript(h2) + lines).skip(transcript(h2).len() as int) =~= lines);
}

} // verus!
