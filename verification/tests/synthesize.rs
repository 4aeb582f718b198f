use midjourney_prompt::state::{Algorithm, FormState, DEFAULT_STYLIZE};
use midjourney_prompt::synth::synthesize;

fn base_state() -> FormState {
    FormState {
        text: "a cat".to_string(),
        suffixes: vec![("realistic".to_string(), true)],
        algorithm: Algorithm::V3,
        aspect_w: 1,
        aspect_h: 1,
        stylize: DEFAULT_STYLIZE,
        video: false,
        copy_on_change: true,
        use_seed: false,
        seed: 0,
        copied_command: String::new(),
    }
}

#[test]
fn synthesize_is_pure() {
    let state = base_state();
    let first = synthesize(&state);
    let second = synthesize(&state);
    assert_eq!(first, second);
}

#[test]
fn prompt_and_suffix_only() {
    let state = base_state();
    assert_eq!(synthesize(&state), "/imagine prompt: a cat, realistic");
}

#[test]
fn stylize_clause_after_suffixes() {
    let mut state = base_state();
    state.stylize = 5000;
    assert_eq!(
        synthesize(&state),
        "/imagine prompt: a cat, realistic --stylize 5000"
    );
}

#[test]
fn stylize_comes_before_all_later_clauses() {
    let mut state = base_state();
    state.stylize = 5000;
    state.aspect_w = 16;
    state.aspect_h = 9;
    state.video = true;
    state.use_seed = true;
    state.seed = 7;
    state.algorithm = Algorithm::Test;
    assert_eq!(
        synthesize(&state),
        "/imagine prompt: a cat, realistic --stylize 5000 --ar 16:9 --video --sameseed 7 --test"
    );
}

#[test]
fn aspect_clause_present_when_not_square() {
    let mut state = base_state();
    state.aspect_w = 16;
    state.aspect_h = 9;
    assert!(synthesize(&state).contains(" --ar 16:9"));
}

#[test]
fn square_aspect_emits_nothing() {
    let state = base_state();
    assert!(!synthesize(&state).contains("--ar"));
}

#[test]
fn seed_clause_when_enabled() {
    let mut state = base_state();
    state.use_seed = true;
    state.seed = 42;
    state.algorithm = Algorithm::Test;
    let command = synthesize(&state);
    assert_eq!(
        command,
        "/imagine prompt: a cat, realistic --sameseed 42 --test"
    );
}

#[test]
fn stored_seed_ignored_when_disabled() {
    let mut state = base_state();
    state.use_seed = false;
    state.seed = 42;
    assert!(!synthesize(&state).contains("--sameseed"));
    assert!(!synthesize(&state).contains("42"));
}

#[test]
fn algorithm_tokens() {
    let mut state = base_state();
    state.algorithm = Algorithm::TestPhoto;
    assert!(synthesize(&state).contains(" --testp"));
    state.algorithm = Algorithm::V3;
    assert!(!synthesize(&state).contains("--"));
}

#[test]
fn disabled_suffix_never_appears() {
    let mut state = base_state();
    state.suffixes = vec![
        ("first".to_string(), true),
        ("hidden".to_string(), false),
        ("last".to_string(), true),
    ];
    assert_eq!(synthesize(&state), "/imagine prompt: a cat, first, last");
}

#[test]
fn blank_suffix_never_appears() {
    let mut state = base_state();
    state.suffixes = vec![
        ("   ".to_string(), true),
        ("kept".to_string(), true),
        ("".to_string(), true),
    ];
    assert_eq!(synthesize(&state), "/imagine prompt: a cat, kept");
}

#[test]
fn suffix_labels_are_trimmed() {
    let mut state = base_state();
    state.suffixes = vec![("  photo real  ".to_string(), true)];
    assert_eq!(synthesize(&state), "/imagine prompt: a cat, photo real");
}

#[test]
fn prompt_text_is_trimmed() {
    let mut state = base_state();
    state.text = "  a cat  ".to_string();
    assert_eq!(synthesize(&state), "/imagine prompt: a cat, realistic");
}

#[test]
fn unicode_whitespace_is_trimmed() {
    let mut state = base_state();
    state.text = "\u{3000}\u{2003}a cat\u{00a0}\r\n".to_string();
    state.suffixes = vec![];
    assert_eq!(synthesize(&state), "/imagine prompt: a cat");
}

#[test]
fn empty_prompt_still_has_prefix() {
    let mut state = base_state();
    state.text = "   ".to_string();
    state.suffixes = vec![];
    assert_eq!(synthesize(&state), "/imagine prompt: ");
}

#[test]
fn numeric_rendering_edges() {
    let mut state = base_state();
    state.use_seed = true;
    state.seed = 0;
    assert_eq!(
        synthesize(&state),
        "/imagine prompt: a cat, realistic --sameseed 0"
    );
    state.seed = u32::MAX;
    assert_eq!(
        synthesize(&state),
        "/imagine prompt: a cat, realistic --sameseed 4294967295"
    );
    state.use_seed = false;
    state.stylize = 60000;
    state.aspect_w = 21;
    state.aspect_h = 10;
    assert_eq!(
        synthesize(&state),
        "/imagine prompt: a cat, realistic --stylize 60000 --ar 21:10"
    );
}
