use transparente::catalog::ModelType;
use transparente::processing::{output_file_name, OutputKind, ProcessingConfig};

fn config() -> ProcessingConfig {
    ProcessingConfig {
        input: "in/cat.jpg".to_string(),
        output: "out".to_string(),
        custom_filename: String::new(),
        gen_alpha: false,
        gen_gray: false,
        gen_halftone: false,
        gen_lineart: false,
        gen_logo: false,
        gen_illus: false,
        gen_thumbnail: false,
        selected_model: ModelType::default(),
    }
}

#[test]
fn base_name_prefers_custom_name() {
    let mut c = config();
    assert_eq!(c.base_name("cat"), "cat");
    c.custom_filename = "kitty".to_string();
    assert_eq!(c.base_name("cat"), "kitty");
}

#[test]
fn output_names_carry_their_suffix() {
    assert_eq!(output_file_name("cat", OutputKind::Alpha), "cat_alpha.png");
    assert_eq!(output_file_name("cat", OutputKind::Illustration), "cat_illustration.svg");
    assert_eq!(output_file_name("cat", OutputKind::Thumbnail), "cat_thumb.png");
}

#[test]
fn vector_outputs_need_background_removal() {
    let mut c = config();
    assert!(!c.needs_alpha());
    c.gen_thumbnail = true;
    assert!(!c.needs_alpha());
    c.gen_lineart = true;
    assert!(c.needs_alpha());
}

#[test]
fn steps_run_in_fixed_order() {
    let mut c = config();
    assert!(c.derived_steps().is_empty());
    c.gen_thumbnail = true;
    c.gen_gray = true;
    c.gen_logo = true;
    assert_eq!(
        c.derived_steps(),
        vec![OutputKind::Gray, OutputKind::Logo, OutputKind::Thumbnail]
    );
}
