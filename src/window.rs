use vstd::prelude::*;

verus! {

/// What the window needs of the screen it opens on.
#[derive(Clone, Copy, Debug, PartialEq, Eq, Structural)]
pub struct Screen {
    pub root: u32,
    pub root_visual: u32,
}

/// Identifiers allocated from the server's id space for the window, the
/// cursor font and the cursor.
#[derive(Clone, Copy, Debug, PartialEq, Eq, Structural)]
pub struct ResourceIds {
    pub window: u32,
    pub font: u32,
    pub cursor: u32,
}

/// The categories of events that a window asks the server for.
#[derive(Clone, Copy, Debug, PartialEq, Eq, Structural)]
pub struct EventInterest {
    pub exposure: bool,
    pub button_press: bool,
    pub button_release: bool,
    pub pointer_motion: bool,
    pub enter_window: bool,
    pub leave_window: bool,
    pub key_press: bool,
    pub key_release: bool,
}

#[derive(Clone, Copy, Debug, PartialEq, Eq, Structural)]
pub enum GrabMode {
    Sync,
    Async,
}

/// The attributes of the window: an input-output window whose depth is
/// copied from its parent.
#[derive(Clone, Copy, Debug, PartialEq, Eq, Structural)]
pub struct WindowConfig {
    pub id: u32,
    pub parent: u32,
    pub visual: u32,
    pub x: i16,
    pub y: i16,
    pub width: u16,
    pub height: u16,
    pub border_width: u16,
    pub override_redirect: bool,
    pub background_pixel: u32,
    pub events: EventInterest,
}

/// One request to the display server. Every request that names a time
/// uses the server's current time.
#[derive(Clone, Copy, Debug, PartialEq, Eq, Structural)]
pub enum Request {
    CreateWindow { config: WindowConfig },
    MapWindow { window: u32 },
    /// Sends all queued requests to the server.
    Flush,
    /// Gives the window the input focus, which reverts to its parent.
    SetInputFocus { window: u32 },
    GrabKeyboard {
        window: u32,
        owner_events: bool,
        pointer_mode: GrabMode,
        keyboard_mode: GrabMode,
    },
    /// Opens the server's standard cursor font, named "cursor".
    OpenCursorFont { font: u32 },
    /// A black cursor made of two glyphs of a font.
    CreateGlyphCursor { cursor: u32, font: u32, source_char: u16, mask_char: u16 },
    GrabPointer {
        window: u32,
        owner_events: bool,
        events: EventInterest,
        pointer_mode: GrabMode,
        keyboard_mode: GrabMode,
        confine_to: u32,
        cursor: u32,
    },
    /// Releases the keyboard grab; the server's answer is checked, and an
    /// error in it is fatal.
    UngrabKeyboard,
    /// Releases the pointer grab; the server's answer is checked, and an
    /// error in it is fatal.
    UngrabPointer,
}

/// Which input grabs are held.
#[derive(Clone, Copy, Debug, PartialEq, Eq, Structural)]
pub struct GrabState {
    pub keyboard: bool,
    pub pointer: bool,
}

pub open spec fn no_grabs() -> GrabState {
    GrabState { keyboard: false, pointer: false }
}

pub open spec fn both_grabs() -> GrabState {
    GrabState { keyboard: true, pointer: true }
}

pub open spec fn all_window_events() -> EventInterest {
    EventInterest {
        exposure: true,
        button_press: true,
        button_release: true,
        pointer_motion: true,
        enter_window: true,
        leave_window: true,
        key_press: true,
        key_release: true,
    }
}

pub open spec fn no_events() -> EventInterest {
    EventInterest {
        exposure: false,
        button_press: false,
        button_release: false,
        pointer_motion: false,
        enter_window: false,
        leave_window: false,
        key_press: false,
        key_release: false,
    }
}

/// The window: 1000 by 800 at (455, 140) on the root, with no border,
/// placed without the window manager, on background pixel 31, and asking
/// for exposure, button, motion, crossing and key events.
pub open spec fn window_config(screen: Screen, id: u32) -> WindowConfig {
    WindowConfig {
        id,
        parent: screen.root,
        visual: screen.root_visual,
        x: 455,
        y: 140,
        width: 1000,
        height: 800,
        border_width: 0,
        override_redirect: true,
        background_pixel: 31,
        events: all_window_events(),
    }
}

/// The requests that open the window and take the input: create and map
/// it, flush, focus it, grab the keyboard, make the crosshair cursor
/// (glyphs 58 and 59 of the cursor font), grab the pointer with it, flush.
pub open spec fn setup_plan(screen: Screen, ids: ResourceIds) -> Seq<Request> {
    seq![
        Request::CreateWindow { config: window_config(screen, ids.window) },
        Request::MapWindow { window: ids.window },
        Request::Flush,
        Request::SetInputFocus { window: ids.window },
        Request::GrabKeyboard {
            window: ids.window,
            owner_events: true,
            pointer_mode: GrabMode::Async,
            keyboard_mode: GrabMode::Async,
        },
        Request::OpenCursorFont { font: ids.font },
        Request::CreateGlyphCursor {
            cursor: ids.cursor,
            font: ids.font,
            source_char: 58,
            mask_char: 59,
        },
        Request::GrabPointer {
            window: ids.window,
            owner_events: true,
            events: no_events(),
            pointer_mode: GrabMode::Async,
            keyboard_mode: GrabMode::Async,
            confine_to: ids.window,
            cursor: ids.cursor,
        },
        Request::Flush,
    ]
}

/// The requests that release the grabs held in `g`: the keyboard's, then
/// the pointer's, then a flush if anything was released.
pub open spec fn release_plan(g: GrabState) -> Seq<Request> {
    (if g.keyboard {
        seq![Request::UngrabKeyboard]
    } else {
        Seq::empty()
    }) + (if g.pointer {
        seq![Request::UngrabPointer]
    } else {
        Seq::empty()
    }) + (if g.keyboard || g.pointer {
        seq![Request::Flush]
    } else {
        Seq::empty()
    })
}

/// The grabs held after request `r`, or `None` where `r` takes a grab that
/// is held already or releases one that is not held.
pub open spec fn grab_step(g: GrabState, r: Request) -> Option<GrabState> {
    match r {
        Request::GrabKeyboard { .. } => if g.keyboard {
            None
        } else {
            Some(GrabState { keyboard: true, ..g })
        },
        Request::GrabPointer { .. } => if g.pointer {
            None
        } else {
            Some(GrabState { pointer: true, ..g })
        },
        Request::UngrabKeyboard => if g.keyboard {
            Some(GrabState { keyboard: false, ..g })
        } else {
            None
        },
        Request::UngrabPointer => if g.pointer {
            Some(GrabState { pointer: false, ..g })
        } else {
            None
        },
        _ => Some(g),
    }
}

/// The grabs held after the first `n` requests of `reqs`, starting from `g`.
pub open spec fn apply_prefix(g: GrabState, reqs: Seq<Request>, n: nat) -> Option<GrabState>
    decreases n,
{
    if n == 0 {
        Some(g)
    } else {
        match apply_prefix(g, reqs, (n - 1) as nat) {
            Some(h) => grab_step(h, reqs[n - 1]),
            None => None,
        }
    }
}

/// The grabs held after all of `reqs`, or `None` where one of them takes a
/// held grab or releases one that is not held.
pub open spec fn apply_requests(g: GrabState, reqs: Seq<Request>) -> Option<GrabState> {
    apply_prefix(g, reqs, reqs.len())
}

/// The one window of a session, and the input grabs it holds.
pub struct Window {
    id: u32,
    grabs: GrabState,
}

pub struct WindowView {
    pub id: u32,
    pub grabs: GrabState,
}

impl View for Window {
    type V = WindowView;

    closed spec fn view(&self) -> WindowView {
        WindowView { id: self.id, grabs: self.grabs }
    }
}

impl Window {
    /// The window, holding both grabs, and the requests that open it and
    /// take them, in the order they are to be sent.
    pub fn create(screen: &Screen, ids: &ResourceIds) -> (r: (Window, Vec<Request>))
        ensures
            r.0@ == (WindowView { id: ids.window, grabs: both_grabs() }),
            r.1@ == setup_plan(*screen, *ids),
    {
        let events = EventInterest {
            exposure: true,
            button_press: true,
            button_release: true,
            pointer_motion: true,
            enter_window: true,
            leave_window: true,
            key_press: true,
            key_release: true,
        };
        let config = WindowConfig {
            id: ids.window,
            parent: screen.root,
            visual: screen.root_visual,
            x: 455,
            y: 140,
            width: 1000,
            height: 800,
            border_width: 0,
            override_redirect: true,
            background_pixel: 31,
            events,
        };
        let no_events = EventInterest {
            exposure: false,
            button_press: false,
            button_release: false,
            pointer_motion: false,
            enter_window: false,
            leave_window: false,
            key_press: false,
            key_release: false,
        };
        let requests = vec![
            Request::CreateWindow { config },
            Request::MapWindow { window: ids.window },
            Request::Flush,
            Request::SetInputFocus { window: ids.window },
            Request::GrabKeyboard {
                window: ids.window,
                owner_events: true,
                pointer_mode: GrabMode::Async,
                keyboard_mode: GrabMode::Async,
            },
            Request::OpenCursorFont { font: ids.font },
            Request::CreateGlyphCursor {
                cursor: ids.cursor,
                font: ids.font,
                source_char: 58,
                mask_char: 59,
            },
            Request::GrabPointer {
                window: ids.window,
                owner_events: true,
                events: no_events,
                pointer_mode: GrabMode::Async,
                keyboard_mode: GrabMode::Async,
                confine_to: ids.window,
                cursor: ids.cursor,
            },
            Request::Flush,
        ];
        assert(requests@ =~= setup_plan(*screen, *ids));
        (Window { id: ids.window, grabs: GrabState { keyboard: true, pointer: true } }, requests)
    }

    /// Releases the grabs the window holds: the requests that do so, which
    /// are none once they are released. The window then holds no grab.
    pub fn teardown(&mut self) -> (r: Vec<Request>)
        ensures
            r@ == release_plan(old(self)@.grabs),
            final(self)@ == (WindowView { id: old(self)@.id, grabs: no_grabs() }),
    {
        let mut requests: Vec<Request> = Vec::new();
        if self.grabs.keyboard {
            requests.push(Request::UngrabKeyboard);
        }
        if self.grabs.pointer {
            requests.push(Request::UngrabPointer);
        }
        if self.grabs.keyboard || self.grabs.pointer {
            requests.push(Request::Flush);
        }
        assert(requests@ =~= release_plan(old(self)@.grabs));
        self.grabs = GrabState { keyboard: false, pointer: false };
        requests
    }

    /// The server's identifier of the window.
    pub fn id(&self) -> (r: u32)
        ensures
            r == self@.id,
    {
        self.id
    }

    /// The grabs the window holds.
    pub fn grabs(&self) -> (r: GrabState)
        ensures
            r == self@.grabs,
    {
        self.grabs
    }
}

/// A window's grabs are taken once and released once: opening it takes
/// each grab exactly once from none, tearing it down releases each exactly
/// once, the whole session never takes a held grab nor releases one that is
/// not held, and a second teardown sends nothing.
pub proof fn lemma_grab_symmetry(screen: Screen, ids: ResourceIds)
    ensures
        apply_requests(no_grabs(), setup_plan(screen, ids)) == Some(both_grabs()),
        apply_requests(both_grabs(), release_plan(both_grabs())) == Some(no_grabs()),
        apply_requests(no_grabs(), setup_plan(screen, ids) + release_plan(both_grabs())) == Some(
            no_grabs(),
        ),
        release_plan(no_grabs()) == Seq::<Request>::empty(),
{
    reveal_with_fuel(apply_prefix, 13);
    let rel = release_plan(both_grabs());
    assert(rel =~= seq![Request::UngrabKeyboard, Request::UngrabPointer, Request::Flush]);
    assert(release_plan(no_grabs()) =~= Seq::<Request>::empty());
}

} // verus!
