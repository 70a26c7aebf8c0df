use textwidth::Context;
use textwidth::FontData;
use textwidth::WidthPlan;
use textwidth::XError;
use textwidth::plan_text_width;

fn font_set_ctx() -> Context {
    Context { data: FontData::FontSet { display: 5, fontset: 7 } }
}

fn single_font_ctx() -> Context {
    Context { data: FontData::XFont { display: 5, xfont: 9 } }
}

#[test]
fn empty_text_width_zero_font_set() {
    let plan = plan_text_width(&font_set_ctx(), "").unwrap();
    assert_eq!(plan, WidthPlan::Immediate { width: 0 });
}

#[test]
fn empty_text_width_zero_single_font() {
    let plan = plan_text_width(&single_font_ctx(), "").unwrap();
    assert_eq!(plan, WidthPlan::Immediate { width: 0 });
}

#[test]
fn nul_text_rejected() {
    let r = plan_text_width(&font_set_ctx(), "a\0b");
    assert_eq!(r, Err(XError::NulError));
}

#[test]
fn font_set_plan_uses_extents_query() {
    let plan = plan_text_width(&font_set_ctx(), "Hello World").unwrap();
    assert_eq!(plan, WidthPlan::FontSetExtents { fontset: 7, byte_len: 11 });
}

#[test]
fn single_font_plan_uses_text_width_query() {
    let plan = plan_text_width(&single_font_ctx(), "Hello World").unwrap();
    assert_eq!(plan, WidthPlan::FontTextWidth { xfont: 9, byte_len: 11 });
}

#[test]
fn byte_length_counts_utf8_bytes() {
    let plan = plan_text_width(&font_set_ctx(), "h\u{e9}llo").unwrap();
    assert_eq!(plan, WidthPlan::FontSetExtents { fontset: 7, byte_len: 6 });
}

#[test]
fn width_plan_idempotent() {
    let ctx = font_set_ctx();
    let first = plan_text_width(&ctx, "Hello World");
    let second = plan_text_width(&ctx, "Hello World");
    assert_eq!(first, second);
}

#[test]
fn method_agrees_with_free_function() {
    let ctx = single_font_ctx();
    assert_eq!(ctx.width_plan("abc"), plan_text_width(&ctx, "abc"));
}
