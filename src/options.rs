//! Render configuration: the options that the debug UI edits, and the typed options
//! that the rendering features read, copied from them once per frame.
use vstd::prelude::*;

verus! {

/// How the pipeline maps HDR colour to the display.
#[derive(Clone, Copy, Debug, PartialEq, Eq, Structural)]
pub enum TonemapperType {
    /// No tonemapping.
    Off,
    AutoExposureOld,
}

/// The render options that the user can toggle.
#[derive(Clone, Copy, Debug, PartialEq, Eq, Structural)]
pub struct RenderOptions {
    pub enable_msaa: bool,
    pub enable_hdr: bool,
    pub enable_bloom: bool,
    pub enable_textures: bool,
    pub enable_lighting: bool,
    pub show_surfaces: bool,
    pub show_wireframes: bool,
    pub show_debug3d: bool,
    pub show_text: bool,
    pub show_skybox: bool,
    pub show_feature_toggles: bool,
    pub show_shadows: bool,
    pub blur_pass_count: usize,
    pub tonemapper_type: TonemapperType,
    pub enable_visibility_update: bool,
}

/// The options of the basic render pipeline.
#[derive(Clone, Copy, Debug, PartialEq, Eq, Structural)]
pub struct BasicPipelineRenderOptions {
    pub enable_msaa: bool,
    pub enable_hdr: bool,
    pub enable_bloom: bool,
    pub enable_textures: bool,
    pub show_surfaces: bool,
    pub show_wireframes: bool,
    pub show_debug3d: bool,
    pub show_text: bool,
    pub show_skybox: bool,
    pub show_feature_toggles: bool,
    pub blur_pass_count: usize,
    pub tonemapper_type: TonemapperType,
    pub enable_visibility_update: bool,
}

/// The options of the mesh feature.
#[derive(Clone, Copy, Debug, PartialEq, Eq, Structural)]
pub struct MeshBasicRenderOptions {
    pub show_surfaces: bool,
    pub show_shadows: bool,
    pub enable_lighting: bool,
}

/// Which debug windows are open.
#[derive(Clone, Copy, Debug, PartialEq, Eq, Structural)]
pub struct DebugUiState {
    pub show_render_options: bool,
    pub show_asset_list: bool,
    pub show_tonemap_debug: bool,
}

impl Default for DebugUiState {
    fn default() -> (r: DebugUiState)
        ensures
            !r.show_render_options,
            !r.show_asset_list,
            !r.show_tonemap_debug,
    {
        DebugUiState { show_render_options: false, show_asset_list: false, show_tonemap_debug: false }
    }
}

/// Everything that the rendering side reads from the options in one frame.
#[derive(Clone, Copy, Debug, PartialEq, Eq, Structural)]
pub struct RenderSettings {
    pub pipeline: BasicPipelineRenderOptions,
    pub mesh: MeshBasicRenderOptions,
    /// Whether the renderer recomputes visibility.
    pub enable_visibility_update: bool,
    /// Whether the tonemapper collects its debug histogram.
    pub collect_tonemap_debug_data: bool,
}

impl RenderOptions {
    /// Defaults for 2D content: no MSAA, HDR or bloom, and no tonemapping.
    pub fn default_2d() -> (r: Self)
        ensures
            r == (RenderOptions {
                enable_msaa: false,
                enable_hdr: false,
                enable_bloom: false,
                enable_textures: true,
                enable_lighting: true,
                show_surfaces: true,
                show_wireframes: false,
                show_debug3d: true,
                show_text: true,
                show_skybox: true,
                show_feature_toggles: false,
                show_shadows: true,
                blur_pass_count: 0,
                tonemapper_type: TonemapperType::Off,
                enable_visibility_update: true,
            }),
    {
        RenderOptions {
            enable_msaa: false,
            enable_hdr: false,
            enable_bloom: false,
            enable_textures: true,
            enable_lighting: true,
            show_surfaces: true,
            show_wireframes: false,
            show_debug3d: true,
            show_text: true,
            show_skybox: true,
            show_shadows: true,
            show_feature_toggles: false,
            blur_pass_count: 0,
            tonemapper_type: TonemapperType::Off,
            enable_visibility_update: true,
        }
    }

    /// Defaults for 3D content: MSAA and bloom with five blur passes, feature toggles
    /// shown, and the auto-exposure tonemapper.
    pub fn default_3d() -> (r: Self)
        ensures
            r == (RenderOptions {
                enable_msaa: true,
                enable_hdr: false,
                enable_bloom: true,
                enable_textures: true,
                enable_lighting: true,
                show_surfaces: true,
                show_wireframes: false,
                show_debug3d: true,
                show_text: true,
                show_skybox: true,
                show_feature_toggles: true,
                show_shadows: true,
                blur_pass_count: 5,
                tonemapper_type: TonemapperType::AutoExposureOld,
                enable_visibility_update: true,
            }),
    {
        RenderOptions {
            enable_msaa: true,
            enable_hdr: false,
            enable_bloom: true,
            enable_textures: true,
            enable_lighting: true,
            show_surfaces: true,
            show_wireframes: false,
            show_debug3d: true,
            show_text: true,
            show_skybox: true,
            show_shadows: true,
            show_feature_toggles: true,
            blur_pass_count: 5,
            tonemapper_type: TonemapperType::AutoExposureOld,
            enable_visibility_update: true,
        }
    }

    /// The pipeline's options, each the option of the same name.
    pub open spec fn pipeline_options_of(&self) -> BasicPipelineRenderOptions {
        BasicPipelineRenderOptions {
            enable_msaa: self.enable_msaa,
            enable_hdr: self.enable_hdr,
            enable_bloom: self.enable_bloom,
            enable_textures: self.enable_textures,
            show_surfaces: self.show_surfaces,
            show_wireframes: self.show_wireframes,
            show_debug3d: self.show_debug3d,
            show_text: self.show_text,
            show_skybox: self.show_skybox,
            show_feature_toggles: self.show_feature_toggles,
            blur_pass_count: self.blur_pass_count,
            tonemapper_type: self.tonemapper_type,
            enable_visibility_update: self.enable_visibility_update,
        }
    }

    /// The mesh feature's options, each the option of the same name.
    pub open spec fn mesh_options_of(&self) -> MeshBasicRenderOptions {
        MeshBasicRenderOptions {
            show_surfaces: self.show_surfaces,
            show_shadows: self.show_shadows,
            enable_lighting: self.enable_lighting,
        }
    }

    pub fn pipeline_options(&self) -> (r: BasicPipelineRenderOptions)
        ensures
            r == self.pipeline_options_of(),
    {
        BasicPipelineRenderOptions {
            enable_msaa: self.enable_msaa,
            enable_hdr: self.enable_hdr,
            enable_bloom: self.enable_bloom,
            enable_textures: self.enable_textures,
            show_surfaces: self.show_surfaces,
            show_wireframes: self.show_wireframes,
            show_debug3d: self.show_debug3d,
            show_text: self.show_text,
            show_skybox: self.show_skybox,
            show_feature_toggles: self.show_feature_toggles,
            blur_pass_count: self.blur_pass_count,
            tonemapper_type: self.tonemapper_type,
            enable_visibility_update: self.enable_visibility_update,
        }
    }

    pub fn mesh_options(&self) -> (r: MeshBasicRenderOptions)
        ensures
            r == self.mesh_options_of(),
    {
        MeshBasicRenderOptions {
            show_surfaces: self.show_surfaces,
            show_shadows: self.show_shadows,
            enable_lighting: self.enable_lighting,
        }
    }
}

/// The settings of one frame: the typed options copied from `options`, visibility
/// updates as `options` has them, and tonemap debug data collected while its window is
/// open.
pub fn render_settings(options: &RenderOptions, debug_ui: &DebugUiState) -> (r: RenderSettings)
    ensures
        r.pipeline == options.pipeline_options_of(),
        r.mesh == options.mesh_options_of(),
        r.enable_visibility_update == options.enable_visibility_update,
        r.collect_tonemap_debug_data == debug_ui.show_tonemap_debug,
{
    RenderSettings {
        pipeline: options.pipeline_options(),
        mesh: options.mesh_options(),
        enable_visibility_update: options.enable_visibility_update,
        collect_tonemap_debug_data: debug_ui.show_tonemap_debug,
    }
}

} // verus!
