use textwidth::Context;
use textwidth::FontData;
use textwidth::TeardownEffect;
use textwidth::teardown_plan;

#[test]
fn teardown_font_set_frees_resource_then_display() {
    let ctx = Context { data: FontData::FontSet { display: 5, fontset: 7 } };
    let effects = teardown_plan(ctx);
    assert_eq!(
        effects,
        vec![
            TeardownEffect::FreeFontSet { display: 5, fontset: 7 },
            TeardownEffect::CloseDisplay { display: 5 },
        ]
    );
}

#[test]
fn teardown_single_font_frees_resource_then_display() {
    let ctx = Context { data: FontData::XFont { display: 5, xfont: 9 } };
    let effects = teardown_plan(ctx);
    assert_eq!(
        effects,
        vec![
            TeardownEffect::FreeFont { display: 5, xfont: 9 },
            TeardownEffect::CloseDisplay { display: 5 },
        ]
    );
}

#[test]
fn context_reports_its_variant() {
    let set = Context { data: FontData::FontSet { display: 5, fontset: 7 } };
    let single = Context { data: FontData::XFont { display: 5, xfont: 9 } };
    assert!(set.is_font_set());
    assert!(!single.is_font_set());
    assert_eq!(set.data(), FontData::FontSet { display: 5, fontset: 7 });
}
