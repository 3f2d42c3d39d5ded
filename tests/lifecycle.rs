use transparente::catalog::{get_model_config, ModelType};
use transparente::lifecycle::{
    begin_acquisition, check_downloaded_weights, check_http_status, plan_weights, ModelState, SessionSlot, WeightError,
    WeightPlan, MIN_WEIGHT_BYTES,
};

#[test]
fn missing_weights_are_downloaded() {
    assert_eq!(plan_weights(None), WeightPlan::Download);
}

#[test]
fn undersized_weights_are_downloaded_again() {
    assert_eq!(MIN_WEIGHT_BYTES, 1024 * 1024);
    assert_eq!(plan_weights(Some(0)), WeightPlan::Download);
    assert_eq!(plan_weights(Some(1024 * 1024 - 1)), WeightPlan::Download);
}

#[test]
fn valid_weights_are_used_without_network() {
    assert_eq!(plan_weights(Some(1024 * 1024)), WeightPlan::UseCached);
    assert_eq!(plan_weights(Some(170 * 1024 * 1024)), WeightPlan::UseCached);
}

#[test]
fn second_acquisition_is_a_cache_hit() {
    // first call: nothing on disk, a full download is written and accepted
    assert_eq!(plan_weights(None), WeightPlan::Download);
    let written: u64 = 4 * 1024 * 1024;
    assert_eq!(check_downloaded_weights(written), Ok(()));
    // second call sees the written file
    assert_eq!(plan_weights(Some(written)), WeightPlan::UseCached);
}

#[test]
fn undersized_download_is_rejected() {
    assert_eq!(check_downloaded_weights(1500), Err(WeightError::TooSmall(1500)));
}

#[test]
fn http_status_check() {
    assert_eq!(check_http_status(200), Ok(()));
    assert_eq!(check_http_status(299), Ok(()));
    assert_eq!(check_http_status(404), Err(WeightError::HttpStatus(404)));
    assert_eq!(check_http_status(302), Err(WeightError::HttpStatus(302)));
}

#[test]
fn ready_state_names_the_model() {
    let c = get_model_config(ModelType::IsNetAnime);
    assert_eq!(ModelState::ready(&c), ModelState::Ready("isnet-anime".to_string()));
    assert!(ModelState::Loading.is_loading());
    assert!(!ModelState::Unloaded.is_loading());
}

fn serve(slot: &mut SessionSlot<u32>, model: ModelType, built: &mut u32) {
    if slot.needs_construction(model) {
        *built += 1;
        slot.install(model, *built);
    }
}

#[test]
fn same_model_twice_builds_once() {
    let mut slot: SessionSlot<u32> = SessionSlot::new();
    let mut built = 0;
    serve(&mut slot, ModelType::U2Net, &mut built);
    serve(&mut slot, ModelType::U2Net, &mut built);
    assert_eq!(built, 1);
    assert_eq!(slot.loaded(), Some(ModelType::U2Net));
}

#[test]
fn switching_models_replaces_the_session() {
    let mut slot: SessionSlot<u32> = SessionSlot::new();
    let mut built = 0;
    serve(&mut slot, ModelType::U2Net, &mut built);
    serve(&mut slot, ModelType::BriaRmbg, &mut built);
    assert_eq!(built, 2);
    assert_eq!(slot.loaded(), Some(ModelType::BriaRmbg));
    assert_eq!(slot.current, Some((ModelType::BriaRmbg, 2)));
}

#[test]
fn download_marks_the_model_loading() {
    let mut state = ModelState::Unloaded;
    assert_eq!(begin_acquisition(Some(10), &mut state), WeightPlan::Download);
    assert_eq!(state, ModelState::Loading);
}

#[test]
fn cache_hit_keeps_the_status() {
    let mut state = ModelState::Ready("u2net".to_string());
    assert_eq!(begin_acquisition(Some(2 * 1024 * 1024), &mut state), WeightPlan::UseCached);
    assert_eq!(state, ModelState::Ready("u2net".to_string()));
}

#[test]
fn session_request_sets_loading_only_when_building() {
    let mut slot: SessionSlot<u32> = SessionSlot::new();
    let mut state = ModelState::Unloaded;
    assert!(slot.begin_request(ModelType::Silueta, &mut state));
    assert_eq!(state, ModelState::Loading);
    slot.install(ModelType::Silueta, 7);
    state = ModelState::ready(&get_model_config(ModelType::Silueta));
    assert!(!slot.begin_request(ModelType::Silueta, &mut state));
    assert_eq!(state, ModelState::Ready("silueta".to_string()));
}

#[test]
fn failure_status_follows_the_cache() {
    let mut slot: SessionSlot<u32> = SessionSlot::new();
    assert_eq!(slot.status_after_failure(), ModelState::Unloaded);
    slot.install(ModelType::U2NetP, 1);
    assert_eq!(slot.status_after_failure(), ModelState::Ready("u2netp".to_string()));
}
