use transparente::catalog::{get_model_config, ModelType};

#[test]
fn default_model_is_general_purpose() {
    assert_eq!(ModelType::default(), ModelType::U2Net);
}

#[test]
fn catalog_entry_of_u2net() {
    let c = get_model_config(ModelType::U2Net);
    assert_eq!(c.name, "u2net");
    assert_eq!(
        c.url,
        "https://github.com/danielgatis/rembg/releases/download/v0.0.0/u2net.onnx"
    );
    assert_eq!(c.filename, "u2net.onnx");
    assert_eq!(c.resolution, 320);
    assert_eq!(c.size_mb, 170);
}

#[test]
fn catalog_entry_of_sam_uses_its_own_file_name() {
    let c = get_model_config(ModelType::Sam);
    assert_eq!(c.name, "sam");
    assert_eq!(c.filename, "sam-encoder.onnx");
    assert!(c.url.ends_with("vit_b-encoder-quant.onnx"));
    assert_eq!(c.resolution, 1024);
    assert_eq!(c.size_mb, 358);
}

#[test]
fn catalog_entry_of_bria() {
    let c = get_model_config(ModelType::BriaRmbg);
    assert_eq!(c.name, "bria-rmbg");
    assert_eq!(c.filename, "bria-rmbg.onnx");
    assert_eq!(c.resolution, 1024);
    assert_eq!(c.size_mb, 72);
}

#[test]
fn every_model_has_a_square_side_of_320_or_1024() {
    let all = [
        ModelType::U2Net,
        ModelType::U2NetP,
        ModelType::U2NetHumanSeg,
        ModelType::U2NetClothSeg,
        ModelType::Silueta,
        ModelType::IsNetGeneralUse,
        ModelType::IsNetAnime,
        ModelType::Sam,
        ModelType::BiRefNetGeneral,
        ModelType::BiRefNetGeneralLite,
        ModelType::BiRefNetPortrait,
        ModelType::BiRefNetDis,
        ModelType::BiRefNetHrsod,
        ModelType::BiRefNetCod,
        ModelType::BiRefNetMassive,
        ModelType::BriaRmbg,
    ];
    for m in all {
        let c = get_model_config(m);
        assert!(c.resolution == 320 || c.resolution == 1024);
        assert!(c.filename.ends_with(".onnx"));
        assert!(c.url.starts_with("https://"));
    }
}
