use transparente::catalog::ModelType;
use transparente::lang::{get_model_description_localized, LanguageManager};

#[test]
fn unknown_key_stands_for_itself() {
    let lm = LanguageManager::default();
    assert_eq!(lm.t("status_ready"), "status_ready");
    assert_eq!(lm.current_lang(), "en");
}

#[test]
fn loaded_table_translates() {
    let mut lm = LanguageManager::default();
    lm.load_language("es", r#"{"status_ready": "Listo", "desc_sam": "Segmenta todo"}"#);
    assert_eq!(lm.current_lang(), "es");
    assert_eq!(lm.t("status_ready"), "Listo");
    assert_eq!(lm.t("missing"), "missing");
    assert_eq!(get_model_description_localized(&lm, ModelType::Sam), "Segmenta todo");
    assert_eq!(get_model_description_localized(&lm, ModelType::U2Net), "desc_u2net");
}

#[test]
fn invalid_table_is_ignored() {
    let mut lm = LanguageManager::default();
    lm.load_language("eu", r#"{"status_ready": "Prest"}"#);
    lm.load_language("la", "not json");
    lm.load_language("xx", r#"{"status_ready": 3}"#);
    assert_eq!(lm.current_lang(), "eu");
    assert_eq!(lm.t("status_ready"), "Prest");
}

#[test]
fn lite_model_shares_the_general_description() {
    let mut lm = LanguageManager::default();
    lm.load_language("en", r#"{"desc_birefnet_general": "General"}"#);
    assert_eq!(get_model_description_localized(&lm, ModelType::BiRefNetGeneralLite), "General");
}
