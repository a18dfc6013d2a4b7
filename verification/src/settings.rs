//! The graphics settings window, as data.
//!
//! The window is a fixed list of labels, pick lists and toggles over the
//! renderer's setting values.  Which entries appear, in which order, and
//! with which options and current values is decided here; the interface
//! layer outside turns each entry into its widget.  The frame-rate block is
//! shown only where the presentation engine can switch modes at all.

use vstd::prelude::*;

use crate::blitter::Msaa;

verus! {

/// How scene lighting is computed.
#[derive(Clone, Copy, PartialEq, Eq, Structural, Debug)]
pub enum LightingMode {
    Classic,
    Enhanced,
}

/// How textures are sampled.
#[derive(Clone, Copy, PartialEq, Eq, Structural, Debug)]
pub enum TextureSamplerType {
    Nearest,
    Linear,
    Anisotropic(u32),
}

/// How textures are compressed on upload.
#[derive(Clone, Copy, PartialEq, Eq, Structural, Debug)]
pub enum TextureCompression {
    Off,
    UltraFast,
    VeryFast,
    Fast,
    Normal,
}

/// Supersampling factor of the scene render target.
#[derive(Clone, Copy, PartialEq, Eq, Structural, Debug)]
pub enum Ssaa {
    Off,
    X2,
    X3,
    X4,
}

/// Screen-space anti-aliasing pass.
#[derive(Clone, Copy, PartialEq, Eq, Structural, Debug)]
pub enum ScreenSpaceAntiAliasing {
    Off,
    Fxaa,
}

/// Resolution of the shadow maps.
#[derive(Clone, Copy, PartialEq, Eq, Structural, Debug)]
pub enum ShadowDetail {
    Low,
    Medium,
    High,
}

/// Filtering of the shadow maps.
#[derive(Clone, Copy, PartialEq, Eq, Structural, Debug)]
pub enum ShadowQuality {
    Hard,
    Soft,
}

/// Upper bound on the frame rate.
#[derive(Clone, Copy, PartialEq, Eq, Structural, Debug)]
pub enum LimitFramerate {
    Unlimited,
    Limit(u16),
}

/// What the presentation engine supports; the frame-rate entries only make
/// sense where a non-synchronized mode exists.
#[derive(Clone, Copy, PartialEq, Eq, Structural, Debug)]
pub struct PresentModeInfo {
    pub supports_immediate: bool,
    pub supports_mailbox: bool,
}

/// A value one of the window's pick lists offers.
#[derive(Clone, Copy, PartialEq, Eq, Structural, Debug)]
pub enum SettingOption {
    Lighting(LightingMode),
    Filtering(TextureSamplerType),
    Compression(TextureCompression),
    Multisample(Msaa),
    Supersample(Ssaa),
    ScreenAa(ScreenSpaceAntiAliasing),
    ShadowRes(ShadowDetail),
    ShadowMode(ShadowQuality),
    Framerate(LimitFramerate),
}

/// The caption of an entry; the interface layer renders the wording.
#[derive(Clone, Copy, PartialEq, Eq, Structural, Debug)]
pub enum SettingsLabel {
    LightingMode,
    EnableVsync,
    LimitFramerate,
    TripleBuffering,
    TextureFiltering,
    TextureCompression,
    Multisampling,
    Supersampling,
    ScreenSpaceAa,
    ShadowDetail,
    ShadowQuality,
    HighQualityInterface,
}

/// One entry of the settings window, top to bottom.
#[derive(PartialEq, Eq, Debug)]
pub enum SettingsElement {
    /// A caption above or beside a pick list.
    Label(SettingsLabel),
    /// A pick list offering `options` with `selected` current.
    Choice { options: Vec<SettingOption>, selected: SettingOption },
    /// A checkbox showing a boolean setting.
    Toggle { label: SettingsLabel, value: bool },
    /// The embedded interface-settings element.
    ApplicationSettings,
}

/// The graphics settings window: the current value of every setting it
/// edits, and what the device supports.
pub struct GraphicsSettingsWindow {
    pub present_mode_info: PresentModeInfo,
    /// The multisample modes the device offers.
    pub supported_msaa: Vec<Msaa>,
    pub lighting_mode: LightingMode,
    pub vsync: bool,
    pub limit_framerate: LimitFramerate,
    pub triple_buffering: bool,
    pub texture_filtering: TextureSamplerType,
    pub msaa: Msaa,
    pub ssaa: Ssaa,
    pub screen_space_anti_aliasing: ScreenSpaceAntiAliasing,
    pub shadow_detail: ShadowDetail,
    pub shadow_quality: ShadowQuality,
    pub high_quality_interface: bool,
    pub texture_compression: TextureCompression,
}

impl GraphicsSettingsWindow {
    /// Class name under which the window is cached.
    pub const WINDOW_CLASS: &'static str = "graphics_settings";

    /// A settings window over the given setting values.
    pub fn new(
        present_mode_info: PresentModeInfo,
        supported_msaa: Vec<Msaa>,
        lighting_mode: LightingMode,
        vsync: bool,
        limit_framerate: LimitFramerate,
        triple_buffering: bool,
        texture_filtering: TextureSamplerType,
        msaa: Msaa,
        ssaa: Ssaa,
        screen_space_anti_aliasing: ScreenSpaceAntiAliasing,
        shadow_detail: ShadowDetail,
        shadow_quality: ShadowQuality,
        high_quality_interface: bool,
        texture_compression: TextureCompression,
    ) -> (r: GraphicsSettingsWindow)
        ensures
            r.present_mode_info == present_mode_info,
            r.supported_msaa == supported_msaa,
            r.lighting_mode == lighting_mode,
            r.vsync == vsync,
            r.limit_framerate == limit_framerate,
            r.triple_buffering == triple_buffering,
            r.texture_filtering == texture_filtering,
            r.msaa == msaa,
            r.ssaa == ssaa,
            r.screen_space_anti_aliasing == screen_space_anti_aliasing,
            r.shadow_detail == shadow_detail,
            r.shadow_quality == shadow_quality,
            r.high_quality_interface == high_quality_interface,
            r.texture_compression == texture_compression,
    {
        GraphicsSettingsWindow {
            present_mode_info,
            supported_msaa,
            lighting_mode,
            vsync,
            limit_framerate,
            triple_buffering,
            texture_filtering,
            msaa,
            ssaa,
            screen_space_anti_aliasing,
            shadow_detail,
            shadow_quality,
            high_quality_interface,
            texture_compression,
        }
    }

    /// The window's class name.
    pub fn window_class(&self) -> (r: Option<&'static str>)
        ensures
            r == Some(Self::WINDOW_CLASS),
    {
        Some(Self::WINDOW_CLASS)
    }

    /// Whether the frame-rate entries are shown: only where the
    /// presentation engine offers a mode besides strict synchronization.
    pub open spec fn spec_vsync_entries_shown(&self) -> bool {
        self.present_mode_info.supports_immediate || self.present_mode_info.supports_mailbox
    }

    /// The window's entries, top to bottom.
    ///
    /// The fixed part is nineteen entries: lighting mode, triple
    /// buffering, texture filtering, texture compression, multisampling,
    /// supersampling, screen-space anti-aliasing, shadow detail, shadow
    /// quality, the interface-quality toggle, and the embedded application
    /// settings.  Where the presentation engine supports an immediate or a
    /// mailbox mode, a vsync toggle and the frame-rate pick list are
    /// inserted after the lighting entries.
    pub fn settings_elements(&self) -> (r: Vec<SettingsElement>)
        ensures
            ({
                let shift: int = if self.spec_vsync_entries_shown() {
                    3
                } else {
                    0
                };
                &&& r@.len() == 19 + shift
                &&& r@[0] == SettingsElement::Label(SettingsLabel::LightingMode)
                &&& (r@[1] matches SettingsElement::Choice { options, selected }
                    && options@ =~= seq![
                    SettingOption::Lighting(LightingMode::Classic),
                    SettingOption::Lighting(LightingMode::Enhanced),
                ] && selected == SettingOption::Lighting(self.lighting_mode))
                &&& self.spec_vsync_entries_shown() ==> {
                    &&& r@[2] == (SettingsElement::Toggle {
                        label: SettingsLabel::EnableVsync,
                        value: self.vsync,
                    })
                    &&& r@[3] == SettingsElement::Label(SettingsLabel::LimitFramerate)
                    &&& (r@[4] matches SettingsElement::Choice { options, selected }
                        && options@ =~= seq![
                        SettingOption::Framerate(LimitFramerate::Unlimited),
                        SettingOption::Framerate(LimitFramerate::Limit(30)),
                        SettingOption::Framerate(LimitFramerate::Limit(60)),
                        SettingOption::Framerate(LimitFramerate::Limit(120)),
                        SettingOption::Framerate(LimitFramerate::Limit(144)),
                        SettingOption::Framerate(LimitFramerate::Limit(240)),
                    ] && selected == SettingOption::Framerate(self.limit_framerate))
                }
                &&& r@[2 + shift] == (SettingsElement::Toggle {
                    label: SettingsLabel::TripleBuffering,
                    value: self.triple_buffering,
                })
                &&& r@[3 + shift] == SettingsElement::Label(SettingsLabel::TextureFiltering)
                &&& (r@[4 + shift] matches SettingsElement::Choice { options, selected }
                    && options@ =~= seq![
                    SettingOption::Filtering(TextureSamplerType::Nearest),
                    SettingOption::Filtering(TextureSamplerType::Linear),
                    SettingOption::Filtering(TextureSamplerType::Anisotropic(4)),
                    SettingOption::Filtering(TextureSamplerType::Anisotropic(8)),
                    SettingOption::Filtering(TextureSamplerType::Anisotropic(16)),
                ] && selected == SettingOption::Filtering(self.texture_filtering))
                &&& r@[5 + shift] == SettingsElement::Label(SettingsLabel::TextureCompression)
                &&& (r@[6 + shift] matches SettingsElement::Choice { options, selected }
                    && options@ =~= seq![
                    SettingOption::Compression(TextureCompression::Off),
                    SettingOption::Compression(TextureCompression::UltraFast),
                    SettingOption::Compression(TextureCompression::VeryFast),
                    SettingOption::Compression(TextureCompression::Fast),
                    SettingOption::Compression(TextureCompression::Normal),
                ] && selected == SettingOption::Compression(self.texture_compression))
                &&& r@[7 + shift] == SettingsElement::Label(SettingsLabel::Multisampling)
                &&& (r@[8 + shift] matches SettingsElement::Choice { options, selected }
                    && options@ =~= self.supported_msaa@.map_values(
                    |m: Msaa| SettingOption::Multisample(m),
                ) && selected == SettingOption::Multisample(self.msaa))
                &&& r@[9 + shift] == SettingsElement::Label(SettingsLabel::Supersampling)
                &&& (r@[10 + shift] matches SettingsElement::Choice { options, selected }
                    && options@ =~= seq![
                    SettingOption::Supersample(Ssaa::Off),
                    SettingOption::Supersample(Ssaa::X2),
                    SettingOption::Supersample(Ssaa::X3),
                    SettingOption::Supersample(Ssaa::X4),
                ] && selected == SettingOption::Supersample(self.ssaa))
                &&& r@[11 + shift] == SettingsElement::Label(SettingsLabel::ScreenSpaceAa)
                &&& (r@[12 + shift] matches SettingsElement::Choice { options, selected }
                    && options@ =~= seq![
                    SettingOption::ScreenAa(ScreenSpaceAntiAliasing::Off),
                    SettingOption::ScreenAa(ScreenSpaceAntiAliasing::Fxaa),
                ] && selected == SettingOption::ScreenAa(self.screen_space_anti_aliasing))
                &&& r@[13 + shift] == SettingsElement::Label(SettingsLabel::ShadowDetail)
                &&& (r@[14 + shift] matches SettingsElement::Choice { options, selected }
                    && options@ =~= seq![
                    SettingOption::ShadowRes(ShadowDetail::Low),
                    SettingOption::ShadowRes(ShadowDetail::Medium),
                    SettingOption::ShadowRes(ShadowDetail::High),
                ] && selected == SettingOption::ShadowRes(self.shadow_detail))
                &&& r@[15 + shift] == SettingsElement::Label(SettingsLabel::ShadowQuality)
                &&& (r@[16 + shift] matches SettingsElement::Choice { options, selected }
                    && options@ =~= seq![
                    SettingOption::ShadowMode(ShadowQuality::Hard),
                    SettingOption::ShadowMode(ShadowQuality::Soft),
                ] && selected == SettingOption::ShadowMode(self.shadow_quality))
                &&& r@[17 + shift] == (SettingsElement::Toggle {
                    label: SettingsLabel::HighQualityInterface,
                    value: self.high_quality_interface,
                })
                &&& r@[18 + shift] == SettingsElement::ApplicationSettings
            }),
    {
        let mut elements: Vec<SettingsElement> = Vec::new();

        elements.push(SettingsElement::Label(SettingsLabel::LightingMode));
        let mut lighting_options: Vec<SettingOption> = Vec::new();
        lighting_options.push(SettingOption::Lighting(LightingMode::Classic));
        lighting_options.push(SettingOption::Lighting(LightingMode::Enhanced));
        elements.push(
            SettingsElement::Choice {
                options: lighting_options,
                selected: SettingOption::Lighting(self.lighting_mode),
            },
        );

        if self.present_mode_info.supports_immediate || self.present_mode_info.supports_mailbox {
            elements.push(
                SettingsElement::Toggle { label: SettingsLabel::EnableVsync, value: self.vsync },
            );
            elements.push(SettingsElement::Label(SettingsLabel::LimitFramerate));
            let mut framerate_options: Vec<SettingOption> = Vec::new();
            framerate_options.push(SettingOption::Framerate(LimitFramerate::Unlimited));
            framerate_options.push(SettingOption::Framerate(LimitFramerate::Limit(30)));
            framerate_options.push(SettingOption::Framerate(LimitFramerate::Limit(60)));
            framerate_options.push(SettingOption::Framerate(LimitFramerate::Limit(120)));
            framerate_options.push(SettingOption::Framerate(LimitFramerate::Limit(144)));
            framerate_options.push(SettingOption::Framerate(LimitFramerate::Limit(240)));
            elements.push(
                SettingsElement::Choice {
                    options: framerate_options,
                    selected: SettingOption::Framerate(self.limit_framerate),
                },
            );
        }

        elements.push(
            SettingsElement::Toggle {
                label: SettingsLabel::TripleBuffering,
                value: self.triple_buffering,
            },
        );

        elements.push(SettingsElement::Label(SettingsLabel::TextureFiltering));
        let mut filtering_options: Vec<SettingOption> = Vec::new();
        filtering_options.push(SettingOption::Filtering(TextureSamplerType::Nearest));
        filtering_options.push(SettingOption::Filtering(TextureSamplerType::Linear));
        filtering_options.push(SettingOption::Filtering(TextureSamplerType::Anisotropic(4)));
        filtering_options.push(SettingOption::Filtering(TextureSamplerType::Anisotropic(8)));
        filtering_options.push(SettingOption::Filtering(TextureSamplerType::Anisotropic(16)));
        elements.push(
            SettingsElement::Choice {
                options: filtering_options,
                selected: SettingOption::Filtering(self.texture_filtering),
            },
        );

        elements.push(SettingsElement::Label(SettingsLabel::TextureCompression));
        let mut compression_options: Vec<SettingOption> = Vec::new();
        compression_options.push(SettingOption::Compression(TextureCompression::Off));
        compression_options.push(SettingOption::Compression(TextureCompression::UltraFast));
        compression_options.push(SettingOption::Compression(TextureCompression::VeryFast));
        compression_options.push(SettingOption::Compression(TextureCompression::Fast));
        compression_options.push(SettingOption::Compression(TextureCompression::Normal));
        elements.push(
            SettingsElement::Choice {
                options: compression_options,
                selected: SettingOption::Compression(self.texture_compression),
            },
        );

        elements.push(SettingsElement::Label(SettingsLabel::Multisampling));
        let mut msaa_options: Vec<SettingOption> = Vec::new();
        let mut i: usize = 0;
        while i < self.supported_msaa.len()
            invariant
                i <= self.supported_msaa@.len(),
                msaa_options@.len() == i,
                forall|k: int|
                    0 <= k < i ==> msaa_options@[k] == SettingOption::Multisample(
                        self.supported_msaa@[k],
                    ),
            decreases self.supported_msaa@.len() - i,
        {
            msaa_options.push(SettingOption::Multisample(self.supported_msaa[i]));
            i = i + 1;
        }
        proof {
            assert(msaa_options@ =~= self.supported_msaa@.map_values(
                |m: Msaa| SettingOption::Multisample(m),
            ));
        }
        elements.push(
            SettingsElement::Choice {
                options: msaa_options,
                selected: SettingOption::Multisample(self.msaa),
            },
        );

        elements.push(SettingsElement::Label(SettingsLabel::Supersampling));
        let mut ssaa_options: Vec<SettingOption> = Vec::new();
        ssaa_options.push(SettingOption::Supersample(Ssaa::Off));
        ssaa_options.push(SettingOption::Supersample(Ssaa::X2));
        ssaa_options.push(SettingOption::Supersample(Ssaa::X3));
        ssaa_options.push(SettingOption::Supersample(Ssaa::X4));
        elements.push(
            SettingsElement::Choice {
                options: ssaa_options,
                selected: SettingOption::Supersample(self.ssaa),
            },
        );

        elements.push(SettingsElement::Label(SettingsLabel::ScreenSpaceAa));
        let mut screen_aa_options: Vec<SettingOption> = Vec::new();
        screen_aa_options.push(SettingOption::ScreenAa(ScreenSpaceAntiAliasing::Off));
        screen_aa_options.push(SettingOption::ScreenAa(ScreenSpaceAntiAliasing::Fxaa));
        elements.push(
            SettingsElement::Choice {
                options: screen_aa_options,
                selected: SettingOption::ScreenAa(self.screen_space_anti_aliasing),
            },
        );

        elements.push(SettingsElement::Label(SettingsLabel::ShadowDetail));
        let mut shadow_detail_options: Vec<SettingOption> = Vec::new();
        shadow_detail_options.push(SettingOption::ShadowRes(ShadowDetail::Low));
        shadow_detail_options.push(SettingOption::ShadowRes(ShadowDetail::Medium));
        shadow_detail_options.push(SettingOption::ShadowRes(ShadowDetail::High));
        elements.push(
            SettingsElement::Choice {
                options: shadow_detail_options,
                selected: SettingOption::ShadowRes(self.shadow_detail),
            },
        );

        elements.push(SettingsElement::Label(SettingsLabel::ShadowQuality));
        let mut shadow_quality_options: Vec<SettingOption> = Vec::new();
        shadow_quality_options.push(SettingOption::ShadowMode(ShadowQuality::Hard));
        shadow_quality_options.push(SettingOption::ShadowMode(ShadowQuality::Soft));
        elements.push(
            SettingsElement::Choice {
                options: shadow_quality_options,
                selected: SettingOption::ShadowMode(self.shadow_quality),
            },
        );

        elements.push(
            SettingsElement::Toggle {
                label: SettingsLabel::HighQualityInterface,
                value: self.high_quality_interface,
            },
        );
        elements.push(SettingsElement::ApplicationSettings);

        elements
    }
}

} // verus!
