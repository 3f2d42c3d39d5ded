//! The fixed catalog of background-removal models and their descriptors.
use vstd::prelude::*;

verus! {

/// The closed set of supported saliency / segmentation models.
#[derive(Clone, Copy, PartialEq, Eq, Debug, Structural)]
pub enum ModelType {
    U2Net,
    U2NetP,
    U2NetHumanSeg,
    U2NetClothSeg,
    Silueta,
    IsNetGeneralUse,
    IsNetAnime,
    Sam,
    BiRefNetGeneral,
    BiRefNetGeneralLite,
    BiRefNetPortrait,
    BiRefNetDis,
    BiRefNetHrsod,
    BiRefNetCod,
    BiRefNetMassive,
    BriaRmbg,
}

impl Default for ModelType {
    /// The general-purpose model is the default selection.
    fn default() -> (r: Self)
        ensures
            r == ModelType::U2Net,
    {
        ModelType::U2Net
    }
}

/// Static metadata of one model: display name, download location, local file
/// name, square input side in pixels, and approximate size in megabytes.
pub struct ModelConfig {
    pub name: String,
    pub url: String,
    pub filename: String,
    pub resolution: u32,
    pub size_mb: u32,
}

/// Display name of a model.
pub open spec fn model_name(m: ModelType) -> Seq<char> {
    match m {
        ModelType::U2Net => "u2net"@,
        ModelType::U2NetP => "u2netp"@,
        ModelType::U2NetHumanSeg => "u2net_human_seg"@,
        ModelType::U2NetClothSeg => "u2net_cloth_seg"@,
        ModelType::Silueta => "silueta"@,
        ModelType::IsNetGeneralUse => "isnet-general-use"@,
        ModelType::IsNetAnime => "isnet-anime"@,
        ModelType::Sam => "sam"@,
        ModelType::BiRefNetGeneral => "birefnet-general"@,
        ModelType::BiRefNetGeneralLite => "birefnet-general-lite"@,
        ModelType::BiRefNetPortrait => "birefnet-portrait"@,
        ModelType::BiRefNetDis => "birefnet-dis"@,
        ModelType::BiRefNetHrsod => "birefnet-hrsod"@,
        ModelType::BiRefNetCod => "birefnet-cod"@,
        ModelType::BiRefNetMassive => "birefnet-massive"@,
        ModelType::BriaRmbg => "bria-rmbg"@,
    }
}

/// Remote location of a model's weight file.
pub open spec fn model_url(m: ModelType) -> Seq<char> {
    match m {
        ModelType::U2Net => "https://github.com/danielgatis/rembg/releases/download/v0.0.0/u2net.onnx"@,
        ModelType::U2NetP => "https://github.com/danielgatis/rembg/releases/download/v0.0.0/u2netp.onnx"@,
        ModelType::U2NetHumanSeg => "https://github.com/danielgatis/rembg/releases/download/v0.0.0/u2net_human_seg.onnx"@,
        ModelType::U2NetClothSeg => "https://github.com/danielgatis/rembg/releases/download/v0.0.0/u2net_cloth_seg.onnx"@,
        ModelType::Silueta => "https://github.com/danielgatis/rembg/releases/download/v0.0.0/silueta.onnx"@,
        ModelType::IsNetGeneralUse => "https://github.com/danielgatis/rembg/releases/download/v0.0.0/isnet-general-use.onnx"@,
        ModelType::IsNetAnime => "https://github.com/danielgatis/rembg/releases/download/v0.0.0/isnet-anime.onnx"@,
        ModelType::Sam => "https://github.com/danielgatis/rembg/releases/download/v0.0.0/vit_b-encoder-quant.onnx"@,
        ModelType::BiRefNetGeneral => "https://github.com/danielgatis/rembg/releases/download/v0.0.0/BiRefNet-general-epoch_244.onnx"@,
        ModelType::BiRefNetGeneralLite => "https://github.com/danielgatis/rembg/releases/download/v0.0.0/BiRefNet-general-bb_swin_v1_tiny-epoch_232.onnx"@,
        ModelType::BiRefNetPortrait => "https://github.com/danielgatis/rembg/releases/download/v0.0.0/BiRefNet-portrait-epoch_150.onnx"@,
        ModelType::BiRefNetDis => "https://github.com/danielgatis/rembg/releases/download/v0.0.0/BiRefNet-DIS-epoch_590.onnx"@,
        ModelType::BiRefNetHrsod => "https://github.com/danielgatis/rembg/releases/download/v0.0.0/BiRefNet-HRSOD_DHU-epoch_115.onnx"@,
        ModelType::BiRefNetCod => "https://github.com/danielgatis/rembg/releases/download/v0.0.0/BiRefNet-COD-epoch_125.onnx"@,
        ModelType::BiRefNetMassive => "https://github.com/danielgatis/rembg/releases/download/v0.0.0/BiRefNet-massive-TR_DIS5K_TR_TEs-epoch_420.onnx"@,
        ModelType::BriaRmbg => "https://github.com/danielgatis/rembg/releases/download/v0.0.0/bria-rmbg-2.0.onnx"@,
    }
}

/// File name of a model's weights in the local cache directory.
pub open spec fn model_filename(m: ModelType) -> Seq<char> {
    match m {
        ModelType::U2Net => "u2net.onnx"@,
        ModelType::U2NetP => "u2netp.onnx"@,
        ModelType::U2NetHumanSeg => "u2net_human_seg.onnx"@,
        ModelType::U2NetClothSeg => "u2net_cloth_seg.onnx"@,
        ModelType::Silueta => "silueta.onnx"@,
        ModelType::IsNetGeneralUse => "isnet-general-use.onnx"@,
        ModelType::IsNetAnime => "isnet-anime.onnx"@,
        ModelType::Sam => "sam-encoder.onnx"@,
        ModelType::BiRefNetGeneral => "birefnet-general.onnx"@,
        ModelType::BiRefNetGeneralLite => "birefnet-general-lite.onnx"@,
        ModelType::BiRefNetPortrait => "birefnet-portrait.onnx"@,
        ModelType::BiRefNetDis => "birefnet-dis.onnx"@,
        ModelType::BiRefNetHrsod => "birefnet-hrsod.onnx"@,
        ModelType::BiRefNetCod => "birefnet-cod.onnx"@,
        ModelType::BiRefNetMassive => "birefnet-massive.onnx"@,
        ModelType::BriaRmbg => "bria-rmbg.onnx"@,
    }
}

/// Side of the square input the model expects, in pixels.
pub open spec fn model_resolution(m: ModelType) -> u32 {
    match m {
        ModelType::U2Net => 320,
        ModelType::U2NetP => 320,
        ModelType::U2NetHumanSeg => 320,
        ModelType::U2NetClothSeg => 320,
        ModelType::Silueta => 320,
        ModelType::IsNetGeneralUse => 1024,
        ModelType::IsNetAnime => 1024,
        ModelType::Sam => 1024,
        ModelType::BiRefNetGeneral => 1024,
        ModelType::BiRefNetGeneralLite => 1024,
        ModelType::BiRefNetPortrait => 1024,
        ModelType::BiRefNetDis => 1024,
        ModelType::BiRefNetHrsod => 1024,
        ModelType::BiRefNetCod => 1024,
        ModelType::BiRefNetMassive => 1024,
        ModelType::BriaRmbg => 1024,
    }
}

/// Approximate download size in megabytes.
pub open spec fn model_size_mb(m: ModelType) -> u32 {
    match m {
        ModelType::U2Net => 170,
        ModelType::U2NetP => 4,
        ModelType::U2NetHumanSeg => 170,
        ModelType::U2NetClothSeg => 170,
        ModelType::Silueta => 43,
        ModelType::IsNetGeneralUse => 176,
        ModelType::IsNetAnime => 176,
        ModelType::Sam => 358,
        ModelType::BiRefNetGeneral => 290,
        ModelType::BiRefNetGeneralLite => 145,
        ModelType::BiRefNetPortrait => 290,
        ModelType::BiRefNetDis => 290,
        ModelType::BiRefNetHrsod => 290,
        ModelType::BiRefNetCod => 290,
        ModelType::BiRefNetMassive => 290,
        ModelType::BriaRmbg => 72,
    }
}

/// `c` is the catalog entry of `m`.
pub open spec fn describes(c: ModelConfig, m: ModelType) -> bool {
    &&& c.name@ == model_name(m)
    &&& c.url@ == model_url(m)
    &&& c.filename@ == model_filename(m)
    &&& c.resolution == model_resolution(m)
    &&& c.size_mb == model_size_mb(m)
}

/// Returns the catalog entry of `model`; every model has one.
pub fn get_model_config(model: ModelType) -> (r: ModelConfig)
    ensures
        describes(r, model),
{
    match model {
        ModelType::U2Net => ModelConfig {
            name: "u2net".to_string(),
            url: "https://github.com/danielgatis/rembg/releases/download/v0.0.0/u2net.onnx".to_string(),
            filename: "u2net.onnx".to_string(),
            resolution: 320,
            size_mb: 170,
        },
        ModelType::U2NetP => ModelConfig {
            name: "u2netp".to_string(),
            url: "https://github.com/danielgatis/rembg/releases/download/v0.0.0/u2netp.onnx".to_string(),
            filename: "u2netp.onnx".to_string(),
            resolution: 320,
            size_mb: 4,
        },
        ModelType::U2NetHumanSeg => ModelConfig {
            name: "u2net_human_seg".to_string(),
            url: "https://github.com/danielgatis/rembg/releases/download/v0.0.0/u2net_human_seg.onnx".to_string(),
            filename: "u2net_human_seg.onnx".to_string(),
            resolution: 320,
            size_mb: 170,
        },
        ModelType::U2NetClothSeg => ModelConfig {
            name: "u2net_cloth_seg".to_string(),
            url: "https://github.com/danielgatis/rembg/releases/download/v0.0.0/u2net_cloth_seg.onnx".to_string(),
            filename: "u2net_cloth_seg.onnx".to_string(),
            resolution: 320,
            size_mb: 170,
        },
        ModelType::Silueta => ModelConfig {
            name: "silueta".to_string(),
            url: "https://github.com/danielgatis/rembg/releases/download/v0.0.0/silueta.onnx".to_string(),
            filename: "silueta.onnx".to_string(),
            resolution: 320,
            size_mb: 43,
        },
        ModelType::IsNetGeneralUse => ModelConfig {
            name: "isnet-general-use".to_string(),
            url: "https://github.com/danielgatis/rembg/releases/download/v0.0.0/isnet-general-use.onnx".to_string(),
            filename: "isnet-general-use.onnx".to_string(),
            resolution: 1024,
            size_mb: 176,
        },
        ModelType::IsNetAnime => ModelConfig {
            name: "isnet-anime".to_string(),
            url: "https://github.com/danielgatis/rembg/releases/download/v0.0.0/isnet-anime.onnx".to_string(),
            filename: "isnet-anime.onnx".to_string(),
            resolution: 1024,
            size_mb: 176,
        },
        ModelType::Sam => ModelConfig {
            name: "sam".to_string(),
            url: "https://github.com/danielgatis/rembg/releases/download/v0.0.0/vit_b-encoder-quant.onnx".to_string(),
            filename: "sam-encoder.onnx".to_string(),
            resolution: 1024,
            size_mb: 358,
        },
        ModelType::BiRefNetGeneral => ModelConfig {
            name: "birefnet-general".to_string(),
            url: "https://github.com/danielgatis/rembg/releases/download/v0.0.0/BiRefNet-general-epoch_244.onnx".to_string(),
            filename: "birefnet-general.onnx".to_string(),
            resolution: 1024,
            size_mb: 290,
        },
        ModelType::BiRefNetGeneralLite => ModelConfig {
            name: "birefnet-general-lite".to_string(),
            url: "https://github.com/danielgatis/rembg/releases/download/v0.0.0/BiRefNet-general-bb_swin_v1_tiny-epoch_232.onnx".to_string(),
            filename: "birefnet-general-lite.onnx".to_string(),
            resolution: 1024,
            size_mb: 145,
        },
        ModelType::BiRefNetPortrait => ModelConfig {
            name: "birefnet-portrait".to_string(),
            url: "https://github.com/danielgatis/rembg/releases/download/v0.0.0/BiRefNet-portrait-epoch_150.onnx".to_string(),
            filename: "birefnet-portrait.onnx".to_string(),
            resolution: 1024,
            size_mb: 290,
        },
        ModelType::BiRefNetDis => ModelConfig {
            name: "birefnet-dis".to_string(),
            url: "https://github.com/danielgatis/rembg/releases/download/v0.0.0/BiRefNet-DIS-epoch_590.onnx".to_string(),
            filename: "birefnet-dis.onnx".to_string(),
            resolution: 1024,
            size_mb: 290,
        },
        ModelType::BiRefNetHrsod => ModelConfig {
            name: "birefnet-hrsod".to_string(),
            url: "https://github.com/danielgatis/rembg/releases/download/v0.0.0/BiRefNet-HRSOD_DHU-epoch_115.onnx".to_string(),
            filename: "birefnet-hrsod.onnx".to_string(),
            resolution: 1024,
            size_mb: 290,
        },
        ModelType::BiRefNetCod => ModelConfig {
            name: "birefnet-cod".to_string(),
            url: "https://github.com/danielgatis/rembg/releases/download/v0.0.0/BiRefNet-COD-epoch_125.onnx".to_string(),
            filename: "birefnet-cod.onnx".to_string(),
            resolution: 1024,
            size_mb: 290,
        },
        ModelType::BiRefNetMassive => ModelConfig {
            name: "birefnet-massive".to_string(),
            url: "https://github.com/danielgatis/rembg/releases/download/v0.0.0/BiRefNet-massive-TR_DIS5K_TR_TEs-epoch_420.onnx".to_string(),
            filename: "birefnet-massive.onnx".to_string(),
            resolution: 1024,
            size_mb: 290,
        },
        ModelType::BriaRmbg => ModelConfig {
            name: "bria-rmbg".to_string(),
            url: "https://github.com/danielgatis/rembg/releases/download/v0.0.0/bria-rmbg-2.0.onnx".to_string(),
            filename: "bria-rmbg.onnx".to_string(),
            resolution: 1024,
            size_mb: 72,
        },
    }
}

} // verus!
