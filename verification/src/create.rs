//! Creating a context: the resolution protocol and its accounting.
//!
//! Creation talks to the display server in turns. The library decides; the
//! embedding program performs. Each step hands back a batch of effects to
//! perform against the server, and the outcome of the last effect in the
//! batch comes back as the next event. The protocol is: open a display
//! connection, try to resolve the specification as a multi-byte font set,
//! fall back to loading a single-byte font, and on total failure close the
//! connection before reporting the error — so that no failure path ever
//! leaks the connection.

use vstd::prelude::*;
use crate::context::Context;
use crate::context::FontData;
use crate::error::XError;
use crate::error::XErrorView;
use crate::text::has_nul;
use crate::text::str_has_nul;

verus! {

/// Where a creation attempt stands. The states carry everything a later
/// decision needs: the font specification until resolution is settled, and
/// the display connection once one is open.
#[derive(Debug, PartialEq, Eq)]
pub enum CreateState {
    /// The specification passed validation; a display connection was
    /// requested and its outcome is awaited.
    DisplayPending { pattern: String },
    /// A connection is open; font-set resolution was requested.
    FontSetPending { pattern: String, display: u64 },
    /// Font-set resolution failed; single-font loading was requested.
    FontPending { pattern: String, display: u64 },
    /// Creation succeeded; the context owns the connection and the resource.
    Ready { ctx: Context },
    /// Creation failed; nothing is held.
    Failed { err: XError },
}

/// The outcome of the pending server call, as the embedding program reports
/// it. A zero handle stands for the null result of a failed call. For
/// font-set resolution, `missing` says whether the call handed out a list of
/// missing charsets that must be released.
#[derive(Debug, Clone, Copy, PartialEq, Eq)]
pub enum CreateEvent {
    DisplayResult { display: u64 },
    FontSetResult { fontset: u64, missing: bool },
    FontResult { xfont: u64 },
}

/// One call the embedding program is asked to make against the server.
#[derive(Debug, Clone, Copy, PartialEq, Eq)]
pub enum CreateEffect {
    /// Open a display connection; report the handle as `DisplayResult`.
    OpenDisplay,
    /// Try to resolve the specification as a font set on this connection;
    /// report the handle and the missing-charset flag as `FontSetResult`.
    ResolveFontSet { display: u64 },
    /// Release the missing-charset list the font-set call handed out.
    FreeMissingList,
    /// Try to load the specification as a single-byte font on this
    /// connection; report the handle as `FontResult`.
    LoadFont { display: u64 },
    /// Close this display connection.
    CloseDisplay { display: u64 },
}

/// A creation state with the specification seen as its character sequence.
pub enum CreateStateView {
    DisplayPending { pattern: Seq<char> },
    FontSetPending { pattern: Seq<char>, display: u64 },
    FontPending { pattern: Seq<char>, display: u64 },
    Ready { ctx: Context },
    Failed { err: XErrorView },
}

impl View for CreateState {
    type V = CreateStateView;

    open spec fn view(&self) -> CreateStateView {
        match self {
            CreateState::DisplayPending { pattern } => CreateStateView::DisplayPending {
                pattern: pattern@,
            },
            CreateState::FontSetPending { pattern, display } => CreateStateView::FontSetPending {
                pattern: pattern@,
                display: *display,
            },
            CreateState::FontPending { pattern, display } => CreateStateView::FontPending {
                pattern: pattern@,
                display: *display,
            },
            CreateState::Ready { ctx } => CreateStateView::Ready { ctx: *ctx },
            CreateState::Failed { err } => CreateStateView::Failed { err: err@ },
        }
    }
}

/// How a creation attempt begins: a specification with an embedded NUL is
/// rejected outright, with no effect requested; any other specification
/// leads to opening a display connection.
pub open spec fn spec_begin(pattern: Seq<char>) -> (CreateStateView, Seq<CreateEffect>) {
    if has_nul(pattern) {
        (CreateStateView::Failed { err: XErrorView::NulError }, Seq::<CreateEffect>::empty())
    } else {
        (CreateStateView::DisplayPending { pattern }, seq![CreateEffect::OpenDisplay])
    }
}

/// The event a state awaits. Terminal states await none.
pub open spec fn expects(s: CreateStateView, e: CreateEvent) -> bool {
    match (s, e) {
        (CreateStateView::DisplayPending { .. }, CreateEvent::DisplayResult { .. }) => true,
        (CreateStateView::FontSetPending { .. }, CreateEvent::FontSetResult { .. }) => true,
        (CreateStateView::FontPending { .. }, CreateEvent::FontResult { .. }) => true,
        _ => false,
    }
}

/// Every display handle a non-terminal state carries is live, and a ready
/// context is well-formed.
pub open spec fn wf_state(s: CreateStateView) -> bool {
    match s {
        CreateStateView::DisplayPending { .. } => true,
        CreateStateView::FontSetPending { display, .. } => display != 0,
        CreateStateView::FontPending { display, .. } => display != 0,
        CreateStateView::Ready { ctx } => ctx.wf(),
        CreateStateView::Failed { .. } => true,
    }
}

/// One decision of the creation protocol, as a function of the state and the
/// reported event:
/// - a null display handle ends the attempt with `DisplayOpen`;
/// - a resolved font set ends it in the font-set variant, never trying the
///   single font; a missing-charset list is released either way;
/// - a failed font-set resolution falls back to loading a single font;
/// - a loaded font ends the attempt in the single-font variant, and a failed
///   load closes the connection before reporting `CouldNotLoadFont`.
pub open spec fn spec_step(s: CreateStateView, e: CreateEvent) -> (CreateStateView, Seq<
    CreateEffect,
>)
    recommends
        expects(s, e),
{
    match (s, e) {
        (
            CreateStateView::DisplayPending { pattern },
            CreateEvent::DisplayResult { display },
        ) => if display == 0 {
            (
                CreateStateView::Failed { err: XErrorView::DisplayOpen },
                Seq::<CreateEffect>::empty(),
            )
        } else {
            (
                CreateStateView::FontSetPending { pattern, display },
                seq![CreateEffect::ResolveFontSet { display }],
            )
        },
        (
            CreateStateView::FontSetPending { pattern, display },
            CreateEvent::FontSetResult { fontset, missing },
        ) => {
            let free = if missing {
                seq![CreateEffect::FreeMissingList]
            } else {
                Seq::<CreateEffect>::empty()
            };
            if fontset != 0 {
                (
                    CreateStateView::Ready {
                        ctx: Context { data: FontData::FontSet { display, fontset } },
                    },
                    free,
                )
            } else {
                (
                    CreateStateView::FontPending { pattern, display },
                    free + seq![CreateEffect::LoadFont { display }],
                )
            }
        },
        (
            CreateStateView::FontPending { pattern, display },
            CreateEvent::FontResult { xfont },
        ) => if xfont == 0 {
            (
                CreateStateView::Failed { err: XErrorView::CouldNotLoadFont(pattern) },
                seq![CreateEffect::CloseDisplay { display }],
            )
        } else {
            (
                CreateStateView::Ready {
                    ctx: Context { data: FontData::XFont { display, xfont } },
                },
                Seq::<CreateEffect>::empty(),
            )
        },
        _ => (s, Seq::<CreateEffect>::empty()),
    }
}

/// Begins a creation attempt for the font specification `pattern`; see
/// [`spec_begin`]. On a specification with an embedded NUL the attempt fails
/// as `NulError` before any server effect is requested.
pub fn begin_create(pattern: &str) -> (r: (CreateState, Vec<CreateEffect>))
    ensures
        r.0@ == spec_begin(pattern@).0,
        r.1@ == spec_begin(pattern@).1,
{
    if str_has_nul(pattern) {
        (CreateState::Failed { err: XError::NulError }, Vec::new())
    } else {
        let mut effs: Vec<CreateEffect> = Vec::new();
        effs.push(CreateEffect::OpenDisplay);
        proof {
            assert(effs@ =~= spec_begin(pattern@).1);
        }
        (CreateState::DisplayPending { pattern: pattern.to_owned() }, effs)
    }
}

/// Takes one decision of the creation protocol; see [`spec_step`]. The event
/// must be the one the state awaits; terminal states await none.
pub fn create_step(state: CreateState, event: CreateEvent) -> (r: (CreateState, Vec<CreateEffect>))
    requires
        expects(state@, event),
    ensures
        r.0@ == spec_step(state@, event).0,
        r.1@ == spec_step(state@, event).1,
{
    let ghost s0 = state@;
    match (state, event) {
        (CreateState::DisplayPending { pattern }, CreateEvent::DisplayResult { display }) => {
            if display == 0 {
                (CreateState::Failed { err: XError::DisplayOpen }, Vec::new())
            } else {
                let mut effs: Vec<CreateEffect> = Vec::new();
                effs.push(CreateEffect::ResolveFontSet { display });
                proof {
                    assert(effs@ =~= spec_step(s0, event).1);
                }
                (CreateState::FontSetPending { pattern, display }, effs)
            }
        },
        (
            CreateState::FontSetPending { pattern, display },
            CreateEvent::FontSetResult { fontset, missing },
        ) => {
            let mut effs: Vec<CreateEffect> = Vec::new();
            if missing {
                effs.push(CreateEffect::FreeMissingList);
            }
            if fontset != 0 {
                proof {
                    assert(effs@ =~= spec_step(s0, event).1);
                }
                (
                    CreateState::Ready {
                        ctx: Context { data: FontData::FontSet { display, fontset } },
                    },
                    effs,
                )
            } else {
                effs.push(CreateEffect::LoadFont { display });
                proof {
                    assert(effs@ =~= spec_step(s0, event).1);
                }
                (CreateState::FontPending { pattern, display }, effs)
            }
        },
        (CreateState::FontPending { pattern, display }, CreateEvent::FontResult { xfont }) => {
            if xfont == 0 {
                let mut effs: Vec<CreateEffect> = Vec::new();
                effs.push(CreateEffect::CloseDisplay { display });
                proof {
                    assert(effs@ =~= spec_step(s0, event).1);
                }
                (CreateState::Failed { err: XError::CouldNotLoadFont(pattern) }, effs)
            } else {
                (
                    CreateState::Ready {
                        ctx: Context { data: FontData::XFont { display, xfont } },
                    },
                    Vec::new(),
                )
            }
        },
        _ => vstd::pervasive::unreached(),
    }
}

/// The known-good fallback font specification: the misc-fixed pattern, used
/// for a default context when no other specification is at hand.
pub fn misc_font_spec() -> (r: String)
    ensures
        r@ == "-misc-fixed-*-*-*-*-*-*-*-*-*-*-*-*"@,
        !has_nul(r@),
{
    proof {
        reveal_strlit("-misc-fixed-*-*-*-*-*-*-*-*-*-*-*-*");
    }
    "-misc-fixed-*-*-*-*-*-*-*-*-*-*-*-*".to_owned()
}

/// A specification the server resolves as a font set yields a ready context
/// in the font-set variant, on that very connection and handle — and
/// single-font loading is never requested.
pub proof fn lemma_font_set_preferred(
    pattern: Seq<char>,
    display: u64,
    fontset: u64,
    missing: bool,
)
    requires
        fontset != 0,
    ensures
        ({
            let r = spec_step(
                CreateStateView::FontSetPending { pattern, display },
                CreateEvent::FontSetResult { fontset, missing },
            );
            &&& r.0 == (CreateStateView::Ready {
                ctx: Context { data: FontData::FontSet { display, fontset } },
            })
            &&& forall|i: int| 0 <= i < r.1.len() ==> !(r.1[i] is LoadFont)
        }),
{
}

/// A specification the server resolves only as a single-byte font yields a
/// ready context in the single-font variant: the failed font-set resolution
/// leads to a load request on the same connection, and a successful load
/// completes the context.
pub proof fn lemma_single_font_fallback(pattern: Seq<char>, display: u64, xfont: u64, missing: bool)
    requires
        xfont != 0,
    ensures
        spec_step(
            CreateStateView::FontSetPending { pattern, display },
            CreateEvent::FontSetResult { fontset: 0, missing },
        ).0 == (CreateStateView::FontPending { pattern, display }),
        spec_step(
            CreateStateView::FontSetPending { pattern, display },
            CreateEvent::FontSetResult { fontset: 0, missing },
        ).1.last() == (CreateEffect::LoadFont { display }),
        spec_step(
            CreateStateView::FontPending { pattern, display },
            CreateEvent::FontResult { xfont },
        ).0 == (CreateStateView::Ready {
            ctx: Context { data: FontData::XFont { display, xfont } },
        }),
{
}

} // verus!
