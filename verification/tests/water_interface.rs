use render_batch::settings::{
    GraphicsSettingsWindow, LightingMode, LimitFramerate, PresentModeInfo, ScreenSpaceAntiAliasing,
    SettingOption, SettingsElement, SettingsLabel, ShadowDetail, ShadowQuality, Ssaa,
    TextureCompression, TextureSamplerType,
};
use render_batch::blitter::Msaa;
use render_batch::water::{generate_water_grid, WaterGridVertex};
use render_batch::widget::{
    ClickAction, DimensionBound, DragButton, ElementEvent, HoverInformation, MouseInputMode,
    ScreenPosition, ScreenSize, StateButton, StateSelector,
};

#[test]
fn water_grid_keeps_only_submerged_tiles() {
    let submerged = vec![true, false, true];
    let (vertices, indices) = generate_water_grid(&submerged, 2);

    assert_eq!(vertices.len(), 8);
    assert_eq!(indices.len(), 12);

    // tile 0 sits at column 0, row 0
    assert_eq!(vertices[0], WaterGridVertex { grid_u: 0, grid_v: 0, east: false, north: false });
    assert_eq!(vertices[3], WaterGridVertex { grid_u: 0, grid_v: 0, east: true, north: true });
    // tile 2 sits at column 0, row 1
    assert_eq!(vertices[4], WaterGridVertex { grid_u: 0, grid_v: 1, east: false, north: false });

    assert_eq!(&indices[0..6], &[0, 1, 2, 1, 3, 2]);
    assert_eq!(&indices[6..12], &[4, 5, 6, 5, 7, 6]);
    for index in indices {
        assert!((index as usize) < vertices.len());
    }
}

#[test]
fn water_grid_of_dry_map_is_empty() {
    let (vertices, indices) = generate_water_grid(&vec![false, false, false, false], 2);
    assert!(vertices.is_empty());
    assert!(indices.is_empty());
}

struct ToggleEvent {
    triggered: bool,
}

impl ElementEvent for ToggleEvent {
    fn trigger(&mut self) -> Vec<ClickAction> {
        self.triggered = true;
        vec![ClickAction::FocusElement]
    }
}

#[test]
fn state_button_builders_set_one_field_each() {
    let button: StateButton<&str, ToggleEvent> = StateButton::default()
        .with_text("Enable VSYNC")
        .with_selector(StateSelector { state_key: 3 })
        .with_event(ToggleEvent { triggered: false })
        .with_transparent_background()
        .with_width(DimensionBound::Relative(100));

    assert_eq!(button.text, Some("Enable VSYNC"));
    assert_eq!(button.selector, Some(StateSelector { state_key: 3 }));
    assert!(button.event.is_some());
    assert!(button.transparent_background);
    assert_eq!(button.width_bound, Some(DimensionBound::Relative(100)));
}

#[test]
fn state_button_click_triggers_its_event() {
    let mut button: StateButton<&str, ToggleEvent> =
        StateButton::default().with_event(ToggleEvent { triggered: false });
    let mut force_update = false;
    let actions = button.left_click(&mut force_update);
    assert_eq!(actions, vec![ClickAction::FocusElement]);
    assert!(button.event.as_ref().unwrap().triggered);

    let mut bare: StateButton<&str, ToggleEvent> = StateButton::default();
    assert!(bare.left_click(&mut force_update).is_empty());
}

#[test]
fn state_button_hover_needs_idle_mouse() {
    let mut button: StateButton<&str, ToggleEvent> = StateButton::default();
    button.resolve(
        ScreenPosition { left: 10, top: 20 },
        ScreenSize { width: 100, height: 16 },
    );
    let inside = ScreenPosition { left: 50, top: 30 };
    assert_eq!(button.hovered_element(inside, &MouseInputMode::Idle), HoverInformation::Hovered);
    assert_eq!(
        button.hovered_element(inside, &MouseInputMode::DragItem),
        HoverInformation::Missed
    );
    let outside = ScreenPosition { left: 110, top: 30 };
    assert_eq!(button.hovered_element(outside, &MouseInputMode::Idle), HoverInformation::Missed);
}

#[test]
fn drag_button_always_moves_the_window() {
    let mut button = DragButton::new(String::from("Inventory"));
    assert!(!button.is_focusable());
    let mut force_update = false;
    assert_eq!(button.left_click(&mut force_update), Some(ClickAction::MoveInterface));

    button.resolve(ScreenPosition { left: 0, top: 0 }, ScreenSize { width: 60, height: 12 });
    assert_eq!(
        button.hovered_element(ScreenPosition { left: 59, top: 11 }),
        HoverInformation::Hovered
    );
    assert_eq!(
        button.hovered_element(ScreenPosition { left: 60, top: 11 }),
        HoverInformation::Missed
    );
}

fn settings_window(present_mode_info: PresentModeInfo) -> GraphicsSettingsWindow {
    GraphicsSettingsWindow::new(
        present_mode_info,
        vec![Msaa::Off, Msaa::X4],
        LightingMode::Enhanced,
        true,
        LimitFramerate::Limit(60),
        false,
        TextureSamplerType::Anisotropic(8),
        Msaa::X4,
        Ssaa::Off,
        ScreenSpaceAntiAliasing::Fxaa,
        ShadowDetail::Medium,
        ShadowQuality::Soft,
        false,
        TextureCompression::Fast,
    )
}

#[test]
fn settings_window_shows_framerate_entries_when_supported() {
    let window = settings_window(PresentModeInfo { supports_immediate: true, supports_mailbox: false });
    let elements = window.settings_elements();
    assert_eq!(elements.len(), 22);

    assert_eq!(elements[0], SettingsElement::Label(SettingsLabel::LightingMode));
    assert_eq!(
        elements[2],
        SettingsElement::Toggle { label: SettingsLabel::EnableVsync, value: true }
    );
    assert_eq!(elements[3], SettingsElement::Label(SettingsLabel::LimitFramerate));
    match &elements[4] {
        SettingsElement::Choice { options, selected } => {
            assert_eq!(options.len(), 6);
            assert_eq!(options[0], SettingOption::Framerate(LimitFramerate::Unlimited));
            assert_eq!(*selected, SettingOption::Framerate(LimitFramerate::Limit(60)));
        }
        _ => panic!("expected the frame-rate pick list"),
    }
    assert_eq!(
        elements[5],
        SettingsElement::Toggle { label: SettingsLabel::TripleBuffering, value: false }
    );
    assert_eq!(elements[21], SettingsElement::ApplicationSettings);
}

#[test]
fn settings_window_hides_framerate_entries_otherwise() {
    let window = settings_window(PresentModeInfo { supports_immediate: false, supports_mailbox: false });
    let elements = window.settings_elements();
    assert_eq!(elements.len(), 19);
    assert_eq!(
        elements[2],
        SettingsElement::Toggle { label: SettingsLabel::TripleBuffering, value: false }
    );
    match &elements[8] {
        SettingsElement::Choice { options, selected } => {
            assert_eq!(
                options,
                &vec![SettingOption::Multisample(Msaa::Off), SettingOption::Multisample(Msaa::X4)]
            );
            assert_eq!(*selected, SettingOption::Multisample(Msaa::X4));
        }
        _ => panic!("expected the multisampling pick list"),
    }
    assert_eq!(
        elements[17],
        SettingsElement::Toggle { label: SettingsLabel::HighQualityInterface, value: false }
    );
    assert_eq!(elements[18], SettingsElement::ApplicationSettings);
    assert!(window.window_class().is_some());
}
