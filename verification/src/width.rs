//! Planning a width query against the font resource a context holds.

use vstd::prelude::*;
use crate::context::Context;
use crate::context::FontData;
use crate::error::XError;
use crate::text::has_nul;
use crate::text::str_has_nul;

verus! {

/// The measurement a width query needs: nothing at all for empty text, or
/// one extents call against the held resource, on the text's UTF-8 bytes.
#[derive(Debug, Clone, Copy, PartialEq, Eq)]
pub enum WidthPlan {
    /// The width is already known; no server call is needed.
    Immediate { width: u64 },
    /// Measure `byte_len` bytes of the text with the multi-byte extents
    /// query against this font set.
    FontSetExtents { fontset: u64, byte_len: usize },
    /// Measure `byte_len` bytes of the text with the single-byte width
    /// query against this font.
    FontTextWidth { xfont: u64, byte_len: usize },
}

/// What a width query does, as a function of the context and the text alone:
/// empty text measures zero without touching the server; any other text is
/// measured by the query matching the held variant, over the text's UTF-8
/// byte length.
pub open spec fn spec_width_plan(ctx: Context, text: Seq<char>) -> WidthPlan {
    if text.len() == 0 {
        WidthPlan::Immediate { width: 0 }
    } else {
        match ctx.data {
            FontData::FontSet { display: _, fontset } => WidthPlan::FontSetExtents {
                fontset,
                byte_len: vstd::utf8::encode_utf8(text).len() as usize,
            },
            FontData::XFont { display: _, xfont } => WidthPlan::FontTextWidth {
                xfont,
                byte_len: vstd::utf8::encode_utf8(text).len() as usize,
            },
        }
    }
}

/// Plans the width query for `text` under `ctx`. Fails exactly when the text
/// holds an embedded NUL; otherwise the returned plan is the one measurement
/// `spec_width_plan` prescribes. The context is only read: a query can never
/// change or invalidate it.
pub fn plan_text_width(ctx: &Context, text: &str) -> (r: Result<WidthPlan, XError>)
    ensures
        r is Err <==> has_nul(text@),
        r matches Err(e) ==> e == XError::NulError,
        r matches Ok(p) ==> p == spec_width_plan(*ctx, text@),
{
    if str_has_nul(text) {
        Err(XError::NulError)
    } else if text.is_empty() {
        Ok(WidthPlan::Immediate { width: 0 })
    } else {
        match ctx.data {
            FontData::FontSet { display: _, fontset } => Ok(
                WidthPlan::FontSetExtents { fontset, byte_len: text.len() },
            ),
            FontData::XFont { display: _, xfont } => Ok(
                WidthPlan::FontTextWidth { xfont, byte_len: text.len() },
            ),
        }
    }
}

impl Context {
    /// Plans the width query for `text` under this context; see
    /// [`plan_text_width`].
    pub fn width_plan(&self, text: &str) -> (r: Result<WidthPlan, XError>)
        ensures
            r is Err <==> has_nul(text@),
            r matches Err(e) ==> e == XError::NulError,
            r matches Ok(p) ==> p == spec_width_plan(*self, text@),
    {
        plan_text_width(self, text)
    }
}

/// Empty text is measured as width zero under every context, whichever
/// variant the context holds, and without any server call.
pub proof fn lemma_empty_text_width_zero(ctx: Context)
    ensures
        spec_width_plan(ctx, Seq::<char>::empty()) == (WidthPlan::Immediate { width: 0 }),
{
}

/// A width query is a pure function of the context and the text: two plans
/// computed from the same context and the same text are equal.
pub proof fn lemma_width_plan_idempotent(ctx: Context, text: Seq<char>, r1: WidthPlan, r2: WidthPlan)
    requires
        r1 == spec_width_plan(ctx, text),
        r2 == spec_width_plan(ctx, text),
    ensures
        r1 == r2,
{
}

/// For non-empty text the plan delegates to the query matching the held
/// variant, on the handle the context holds and on the text's UTF-8 byte
/// length.
pub proof fn lemma_width_plan_matches_variant(ctx: Context, text: Seq<char>)
    requires
        text.len() > 0,
    ensures
        ctx.data matches FontData::FontSet { fontset, .. } ==> spec_width_plan(ctx, text)
            == (WidthPlan::FontSetExtents {
            fontset,
            byte_len: vstd::utf8::encode_utf8(text).len() as usize,
        }),
        ctx.data matches FontData::XFont { xfont, .. } ==> spec_width_plan(ctx, text)
            == (WidthPlan::FontTextWidth {
            xfont,
            byte_len: vstd::utf8::encode_utf8(text).len() as usize,
        }),
{
}

} // verus!
