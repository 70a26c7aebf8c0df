use textwidth::CreateEffect;
use textwidth::CreateEvent;
use textwidth::CreateState;
use textwidth::FontData;
use textwidth::XError;
use textwidth::begin_create;
use textwidth::create_step;
use textwidth::misc_font_spec;
use textwidth::teardown_plan;

const MISC: &str = "-misc-fixed-*-*-*-*-*-*-*-*-*-*-*-*";

#[test]
fn begin_on_valid_spec_requests_open() {
    let (state, effects) = begin_create(MISC);
    match state {
        CreateState::DisplayPending { pattern } => assert_eq!(pattern, MISC),
        other => panic!("unexpected state: {:?}", other),
    }
    assert_eq!(effects, vec![CreateEffect::OpenDisplay]);
}

#[test]
fn begin_on_nul_spec_fails_without_effects() {
    let (state, effects) = begin_create("bad\0spec");
    assert_eq!(state, CreateState::Failed { err: XError::NulError });
    assert!(effects.is_empty());
}

#[test]
fn misc_font_spec_is_the_fixed_pattern() {
    assert_eq!(misc_font_spec(), MISC);
}

#[test]
fn font_set_resolution_preferred() {
    let (state, effects) = begin_create(MISC);
    assert_eq!(effects, vec![CreateEffect::OpenDisplay]);
    let (state, effects) = create_step(state, CreateEvent::DisplayResult { display: 11 });
    assert_eq!(effects, vec![CreateEffect::ResolveFontSet { display: 11 }]);
    let (state, effects) =
        create_step(state, CreateEvent::FontSetResult { fontset: 22, missing: true });
    assert_eq!(effects, vec![CreateEffect::FreeMissingList]);
    match state {
        CreateState::Ready { ctx } => {
            assert_eq!(ctx.data, FontData::FontSet { display: 11, fontset: 22 });
        }
        other => panic!("unexpected state: {:?}", other),
    }
}

#[test]
fn single_font_fallback() {
    let (state, _) = begin_create(MISC);
    let (state, _) = create_step(state, CreateEvent::DisplayResult { display: 11 });
    let (state, effects) =
        create_step(state, CreateEvent::FontSetResult { fontset: 0, missing: false });
    assert_eq!(effects, vec![CreateEffect::LoadFont { display: 11 }]);
    match state {
        CreateState::FontPending { ref pattern, display } => {
            assert_eq!(pattern, MISC);
            assert_eq!(display, 11);
        }
        ref other => panic!("unexpected state: {:?}", other),
    }
    let (state, effects) = create_step(state, CreateEvent::FontResult { xfont: 33 });
    assert!(effects.is_empty());
    match state {
        CreateState::Ready { ctx } => {
            assert_eq!(ctx.data, FontData::XFont { display: 11, xfont: 33 });
        }
        other => panic!("unexpected state: {:?}", other),
    }
}

#[test]
fn missing_charset_list_freed_before_fallback() {
    let (state, _) = begin_create(MISC);
    let (state, _) = create_step(state, CreateEvent::DisplayResult { display: 11 });
    let (_, effects) =
        create_step(state, CreateEvent::FontSetResult { fontset: 0, missing: true });
    assert_eq!(
        effects,
        vec![CreateEffect::FreeMissingList, CreateEffect::LoadFont { display: 11 }]
    );
}

#[test]
fn unresolvable_spec_fails_and_closes_display() {
    let (state, _) = begin_create("this-is-not-a-font");
    let (state, _) = create_step(state, CreateEvent::DisplayResult { display: 7 });
    let (state, _) = create_step(state, CreateEvent::FontSetResult { fontset: 0, missing: false });
    let (state, effects) = create_step(state, CreateEvent::FontResult { xfont: 0 });
    assert_eq!(effects, vec![CreateEffect::CloseDisplay { display: 7 }]);
    assert_eq!(
        state,
        CreateState::Failed { err: XError::CouldNotLoadFont("this-is-not-a-font".to_string()) }
    );
}

#[test]
fn display_unavailable_fails_clean() {
    let (state, _) = begin_create(MISC);
    let (state, effects) = create_step(state, CreateEvent::DisplayResult { display: 0 });
    assert_eq!(state, CreateState::Failed { err: XError::DisplayOpen });
    assert!(effects.is_empty());
}

#[test]
fn recreate_after_teardown() {
    let (state, _) = begin_create(MISC);
    let (state, _) = create_step(state, CreateEvent::DisplayResult { display: 5 });
    let (state, _) = create_step(state, CreateEvent::FontSetResult { fontset: 6, missing: false });
    let ctx = match state {
        CreateState::Ready { ctx } => ctx,
        other => panic!("unexpected state: {:?}", other),
    };
    let release = teardown_plan(ctx);
    assert_eq!(release.len(), 2);

    let (state, effects) = begin_create(MISC);
    assert_eq!(effects, vec![CreateEffect::OpenDisplay]);
    let (state, _) = create_step(state, CreateEvent::DisplayResult { display: 5 });
    let (state, _) = create_step(state, CreateEvent::FontSetResult { fontset: 6, missing: false });
    match state {
        CreateState::Ready { ctx } => {
            assert_eq!(ctx.data, FontData::FontSet { display: 5, fontset: 6 });
        }
        other => panic!("unexpected state: {:?}", other),
    }
}
