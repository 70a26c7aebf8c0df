//! The font context: one display connection and exactly one font resource.

use vstd::prelude::*;

verus! {

/// The one font resource a context holds: either a locale-aware multi-byte
/// font set or a single-byte fallback font, each together with the display
/// connection it was resolved on. Handles are the server-side identifiers as
/// plain numbers; `0` stands for the null handle and never occurs in a
/// well-formed context.
#[derive(Debug, Clone, Copy, PartialEq, Eq)]
pub enum FontData {
    FontSet { display: u64, fontset: u64 },
    XFont { display: u64, xfont: u64 },
}

/// A context, holding the data required to measure a string: a display
/// connection and one font resource resolved on it.
#[derive(Debug, PartialEq, Eq)]
pub struct Context {
    pub data: FontData,
}

impl Context {
    /// A well-formed context holds a live display connection and a non-null
    /// font resource; the two stand or fall together.
    pub open spec fn wf(&self) -> bool {
        match self.data {
            FontData::FontSet { display, fontset } => display != 0 && fontset != 0,
            FontData::XFont { display, xfont } => display != 0 && xfont != 0,
        }
    }

    /// The display connection this context owns.
    pub open spec fn display_id(&self) -> u64 {
        match self.data {
            FontData::FontSet { display, .. } => display,
            FontData::XFont { display, .. } => display,
        }
    }

    /// Whether the context holds the multi-byte font-set variant.
    pub fn is_font_set(&self) -> (b: bool)
        ensures
            b == (self.data is FontSet),
    {
        match self.data {
            FontData::FontSet { .. } => true,
            FontData::XFont { .. } => false,
        }
    }

    /// The raw resource data, for the embedding program to act on.
    pub fn data(&self) -> (d: FontData)
        ensures
            d == self.data,
    {
        self.data
    }
}

/// One step of releasing a context: free the held font resource, or close the
/// display connection.
#[derive(Debug, Clone, Copy, PartialEq, Eq)]
pub enum TeardownEffect {
    FreeFontSet { display: u64, fontset: u64 },
    FreeFont { display: u64, xfont: u64 },
    CloseDisplay { display: u64 },
}

/// The release schedule of a context: first the font resource that matches
/// the held variant, then the display connection.
pub open spec fn spec_teardown(data: FontData) -> Seq<TeardownEffect> {
    match data {
        FontData::FontSet { display, fontset } => seq![
            TeardownEffect::FreeFontSet { display, fontset },
            TeardownEffect::CloseDisplay { display },
        ],
        FontData::XFont { display, xfont } => seq![
            TeardownEffect::FreeFont { display, xfont },
            TeardownEffect::CloseDisplay { display },
        ],
    }
}

/// Consumes a context and returns the effects that release it, in order:
/// the font resource first, the display connection last. Taking the context
/// by value makes a second teardown of the same context impossible.
pub fn teardown_plan(ctx: Context) -> (r: Vec<TeardownEffect>)
    ensures
        r@ == spec_teardown(ctx.data),
{
    let mut effs: Vec<TeardownEffect> = Vec::new();
    match ctx.data {
        FontData::FontSet { display, fontset } => {
            effs.push(TeardownEffect::FreeFontSet { display, fontset });
            effs.push(TeardownEffect::CloseDisplay { display });
        },
        FontData::XFont { display, xfont } => {
            effs.push(TeardownEffect::FreeFont { display, xfont });
            effs.push(TeardownEffect::CloseDisplay { display });
        },
    }
    proof {
        assert(effs@ =~= spec_teardown(ctx.data));
    }
    effs
}

/// Teardown releases everything the context holds: exactly one free of the
/// font resource matching the held variant, then exactly one close of the
/// owned display connection, and nothing else.
pub proof fn lemma_teardown_order(ctx: Context)
    ensures
        spec_teardown(ctx.data).len() == 2,
        spec_teardown(ctx.data)[1] == (TeardownEffect::CloseDisplay { display: ctx.display_id() }),
        ctx.data matches FontData::FontSet { display, fontset } ==> spec_teardown(ctx.data)[0]
            == (TeardownEffect::FreeFontSet { display, fontset }),
        ctx.data matches FontData::XFont { display, xfont } ==> spec_teardown(ctx.data)[0]
            == (TeardownEffect::FreeFont { display, xfont }),
{
}

} // verus!
