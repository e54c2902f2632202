use nightshade_worker_leptos::picking::{
    PickState, apply, awaiting_readback, pick_name, request, take_message,
};

#[test]
fn hit_after_request_is_reported_once() {
    let mut state: PickState<u32> = PickState::new();
    request(&mut state);
    assert!(awaiting_readback(&state));
    apply(&mut state, None);
    assert!(awaiting_readback(&state));
    apply(&mut state, Some(Some(7)));
    assert!(!awaiting_readback(&state));
    apply(&mut state, Some(Some(8)));
    assert_eq!(take_message(&mut state), Some(Some(7)));
    assert_eq!(take_message(&mut state), None);
}

#[test]
fn miss_is_reported_as_no_hit() {
    let mut state: PickState<u32> = PickState::new();
    request(&mut state);
    apply(&mut state, Some(None));
    assert_eq!(take_message(&mut state), Some(None));
}

#[test]
fn readback_without_request_is_ignored() {
    let mut state: PickState<u32> = PickState::new();
    apply(&mut state, Some(Some(1)));
    assert!(!state.pending);
    assert_eq!(take_message(&mut state), None);
}

#[test]
fn hit_names_follow_the_subject_on_screen() {
    assert_eq!(pick_name(false), "Cube");
    assert_eq!(pick_name(true), "Helmet");
}
