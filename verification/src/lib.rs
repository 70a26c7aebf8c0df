//! Measuring the pixel width of text under an X11 font.
//!
//! The library holds the decision logic of a small font wrapper: validating
//! font specifications and query text, choosing between a multi-byte font set
//! and a single-byte fallback font at creation time, planning width queries,
//! and releasing the font resource and the display connection in the right
//! order. The calls into the display server itself are left to the embedding
//! program, which performs each requested effect and reports its outcome back
//! as an event.

pub mod account;
pub mod context;
pub mod create;
pub mod error;
pub mod text;
pub mod width;

pub use context::Context;
pub use context::FontData;
pub use context::TeardownEffect;
pub use context::teardown_plan;
pub use create::CreateEffect;
pub use create::CreateEvent;
pub use create::CreateState;
pub use create::begin_create;
pub use create::create_step;
pub use create::misc_font_spec;
pub use error::XError;
pub use text::str_has_nul;
pub use width::WidthPlan;
pub use width::plan_text_width;
