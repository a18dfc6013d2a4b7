//! Data side of a few interface widgets.
//!
//! The layout engine and the renderer live outside; a widget here carries
//! its configuration (built through chainable setters), its cached screen
//! rectangle, and the decisions that are pure data: what a click triggers
//! and whether a point hits the cached rectangle.

use vstd::prelude::*;

verus! {

/// A point on screen, in pixels from the top-left corner.
#[derive(Clone, Copy, PartialEq, Eq, Structural, Debug)]
pub struct ScreenPosition {
    pub left: u32,
    pub top: u32,
}

/// A size on screen, in pixels.
#[derive(Clone, Copy, PartialEq, Eq, Structural, Debug)]
pub struct ScreenSize {
    pub width: u32,
    pub height: u32,
}

/// Width constraint of an element within its parent.
#[derive(Clone, Copy, PartialEq, Eq, Structural, Debug)]
pub enum DimensionBound {
    /// A percentage of the parent's width.
    Relative(u32),
    /// A fixed pixel width.
    Absolute(u32),
    /// Whatever width remains in the parent.
    Remaining,
}

/// What the interface does in response to a click.
#[derive(Clone, Copy, PartialEq, Eq, Structural, Debug)]
pub enum ClickAction {
    /// Begin moving the clicked window.
    MoveInterface,
    /// Give the clicked element the focus.
    FocusElement,
    /// Close the clicked window.
    CloseWindow,
}

/// Result of asking an element whether the mouse hovers it.
#[derive(Clone, Copy, PartialEq, Eq, Structural, Debug)]
pub enum HoverInformation {
    Hovered,
    Missed,
}

/// What the mouse is currently doing; elements only report hover when no
/// interaction is in progress.
#[derive(Clone, Copy, PartialEq, Eq, Structural, Debug)]
pub enum MouseInputMode {
    Idle,
    MoveInterface,
    ResizeInterface,
    DragItem,
}

/// An event a widget triggers when clicked.  Implemented outside by the
/// application's event types; nothing is assumed of what a trigger does.
pub trait ElementEvent {
    fn trigger(&mut self) -> Vec<ClickAction>;
}

/// Selects the piece of boolean interface state a state button displays.
#[derive(Clone, Copy, PartialEq, Eq, Structural, Debug)]
pub struct StateSelector {
    /// Key of the boolean state, as the state provider numbers them.
    pub state_key: u64,
}

/// Whether `position` lies within the rectangle at `origin` of `size`.
pub open spec fn position_inside(
    origin: ScreenPosition,
    size: ScreenSize,
    position: ScreenPosition,
) -> bool {
    &&& origin.left <= position.left < origin.left + size.width
    &&& origin.top <= position.top < origin.top + size.height
}

/// The layout state of an element nothing has resolved yet: an empty
/// rectangle at the origin.
pub open spec fn empty_element_state() -> ElementState {
    ElementState {
        cached_position: ScreenPosition { left: 0, top: 0 },
        cached_size: ScreenSize { width: 0, height: 0 },
    }
}

/// Per-element layout state: the screen rectangle the element was resolved
/// to this layout pass.
#[derive(Clone, Copy, PartialEq, Eq, Structural, Debug)]
pub struct ElementState {
    pub cached_position: ScreenPosition,
    pub cached_size: ScreenSize,
}

impl core::default::Default for ElementState {
    /// An unresolved element: an empty rectangle at the origin.
    fn default() -> (r: ElementState)
        ensures
            r.cached_position == (ScreenPosition { left: 0, top: 0 }),
            r.cached_size == (ScreenSize { width: 0, height: 0 }),
    {
        ElementState {
            cached_position: ScreenPosition { left: 0, top: 0 },
            cached_size: ScreenSize { width: 0, height: 0 },
        }
    }
}

impl ElementState {
    /// Caches the rectangle the layout pass assigned to the element.
    pub fn resolve(&mut self, position: ScreenPosition, size: ScreenSize)
        ensures
            final(self).cached_position == position,
            final(self).cached_size == size,
    {
        self.cached_position = position;
        self.cached_size = size;
    }

    /// Whether the mouse hits the cached rectangle.
    pub fn hovered_element(&self, mouse_position: ScreenPosition) -> (r: HoverInformation)
        ensures
            r == (if position_inside(self.cached_position, self.cached_size, mouse_position) {
                HoverInformation::Hovered
            } else {
                HoverInformation::Missed
            }),
    {
        let position = self.cached_position;
        let size = self.cached_size;
        if mouse_position.left >= position.left && mouse_position.left - position.left < size.width
            && mouse_position.top >= position.top && mouse_position.top - position.top
            < size.height {
            HoverInformation::Hovered
        } else {
            HoverInformation::Missed
        }
    }
}

/// The title-bar button a window is dragged by.
pub struct DragButton {
    /// Title shown in the bar.
    pub window_title: String,
    /// Cached layout rectangle.
    pub state: ElementState,
}

impl DragButton {
    /// A drag button titled `window_title`, not yet resolved.
    pub fn new(window_title: String) -> (r: DragButton)
        ensures
            r.window_title == window_title,
            r.state == empty_element_state(),
    {
        DragButton { window_title, state: ElementState::default() }
    }

    /// The element's layout state.
    pub fn get_state(&self) -> (r: &ElementState)
        ensures
            r == self.state,
    {
        &self.state
    }

    /// The element's layout state, for the layout pass to update.
    pub fn get_state_mut(&mut self) -> (r: &mut ElementState)
        ensures
            *r == old(self).state,
            final(self).state == *final(r),
            final(self).window_title == old(self).window_title,
    {
        &mut self.state
    }

    /// Caches the rectangle the layout pass assigned to the button.
    pub fn resolve(&mut self, position: ScreenPosition, size: ScreenSize)
        ensures
            final(self).window_title == old(self).window_title,
            final(self).state.cached_position == position,
            final(self).state.cached_size == size,
    {
        self.state.resolve(position, size);
    }

    /// A drag button never takes keyboard focus.
    pub fn is_focusable(&self) -> (r: bool)
        ensures
            r == false,
    {
        false
    }

    /// Whether the mouse hits the button.
    pub fn hovered_element(&self, mouse_position: ScreenPosition) -> (r: HoverInformation)
        ensures
            r == (if position_inside(
                self.state.cached_position,
                self.state.cached_size,
                mouse_position,
            ) {
                HoverInformation::Hovered
            } else {
                HoverInformation::Missed
            }),
    {
        self.state.hovered_element(mouse_position)
    }

    /// Clicking the title bar always starts moving the window.
    pub fn left_click(&mut self, force_update: &mut bool) -> (r: Option<ClickAction>)
        ensures
            r == Some(ClickAction::MoveInterface),
            *final(self) == *old(self),
            *final(force_update) == *old(force_update),
    {
        Some(ClickAction::MoveInterface)
    }
}

/// A checkbox-style button displaying a boolean piece of interface state
/// and triggering an event when clicked.  Configured through chainable
/// setters starting from `Default`.
pub struct StateButton<T, E> {
    /// Text shown beside the checkbox.
    pub text: Option<T>,
    /// Which boolean state the checkbox displays.
    pub selector: Option<StateSelector>,
    /// Event triggered by a click.
    pub event: Option<E>,
    /// Width constraint; a missing one means the full parent width.
    pub width_bound: Option<DimensionBound>,
    /// Whether the button draws no background.
    pub transparent_background: bool,
    /// Cached layout rectangle.
    pub state: ElementState,
}

impl<T, E> core::default::Default for StateButton<T, E> {
    /// A button with nothing configured.
    fn default() -> (r: StateButton<T, E>)
        ensures
            r.text is None,
            r.selector is None,
            r.event is None,
            r.width_bound is None,
            r.transparent_background == false,
            r.state == empty_element_state(),
    {
        StateButton {
            text: Option::None,
            selector: Option::None,
            event: Option::None,
            width_bound: Option::None,
            transparent_background: false,
            state: ElementState::default(),
        }
    }
}

impl<T, E> StateButton<T, E> {
    /// The button with its text set.
    pub fn with_text(self, text: T) -> (r: StateButton<T, E>)
        ensures
            r.text == Some(text),
            r.selector == self.selector,
            r.event == self.event,
            r.width_bound == self.width_bound,
            r.transparent_background == self.transparent_background,
            r.state == self.state,
    {
        StateButton { text: Some(text), ..self }
    }

    /// The button with its state selector set.
    pub fn with_selector(self, selector: StateSelector) -> (r: StateButton<T, E>)
        ensures
            r.selector == Some(selector),
            r.text == self.text,
            r.event == self.event,
            r.width_bound == self.width_bound,
            r.transparent_background == self.transparent_background,
            r.state == self.state,
    {
        StateButton { selector: Some(selector), ..self }
    }

    /// The button with its click event set.
    pub fn with_event(self, event: E) -> (r: StateButton<T, E>)
        ensures
            r.event == Some(event),
            r.text == self.text,
            r.selector == self.selector,
            r.width_bound == self.width_bound,
            r.transparent_background == self.transparent_background,
            r.state == self.state,
    {
        StateButton { event: Some(event), ..self }
    }

    /// The button drawn without a background.
    pub fn with_transparent_background(self) -> (r: StateButton<T, E>)
        ensures
            r.transparent_background == true,
            r.text == self.text,
            r.selector == self.selector,
            r.event == self.event,
            r.width_bound == self.width_bound,
            r.state == self.state,
    {
        StateButton { transparent_background: true, ..self }
    }

    /// The button with its width constraint set.
    pub fn with_width(self, width_bound: DimensionBound) -> (r: StateButton<T, E>)
        ensures
            r.width_bound == Some(width_bound),
            r.text == self.text,
            r.selector == self.selector,
            r.event == self.event,
            r.transparent_background == self.transparent_background,
            r.state == self.state,
    {
        StateButton { width_bound: Some(width_bound), ..self }
    }

    /// The element's layout state.
    pub fn get_state(&self) -> (r: &ElementState)
        ensures
            r == self.state,
    {
        &self.state
    }

    /// Caches the rectangle the layout pass assigned to the button.
    pub fn resolve(&mut self, position: ScreenPosition, size: ScreenSize)
        ensures
            final(self).state.cached_position == position,
            final(self).state.cached_size == size,
            final(self).text == old(self).text,
            final(self).selector == old(self).selector,
            final(self).event == old(self).event,
            final(self).width_bound == old(self).width_bound,
            final(self).transparent_background == old(self).transparent_background,
    {
        self.state.resolve(position, size);
    }

    /// Whether the mouse hits the button: only when no mouse interaction
    /// is in progress.
    pub fn hovered_element(&self, mouse_position: ScreenPosition, mouse_mode: &MouseInputMode) -> (r:
        HoverInformation)
        ensures
            r == (if mouse_mode == MouseInputMode::Idle && position_inside(
                self.state.cached_position,
                self.state.cached_size,
                mouse_position,
            ) {
                HoverInformation::Hovered
            } else {
                HoverInformation::Missed
            }),
    {
        match mouse_mode {
            MouseInputMode::Idle => self.state.hovered_element(mouse_position),
            _ => HoverInformation::Missed,
        }
    }
}

impl<T, E: ElementEvent> StateButton<T, E> {
    /// Triggers the configured event; a button without one does nothing.
    pub fn left_click(&mut self, force_update: &mut bool) -> (r: Vec<ClickAction>)
        ensures
            old(self).event is None ==> r@.len() == 0 && *final(self) == *old(self),
            final(self).text == old(self).text,
            final(self).selector == old(self).selector,
            final(self).width_bound == old(self).width_bound,
            final(self).transparent_background == old(self).transparent_background,
            final(self).state == old(self).state,
            *final(force_update) == *old(force_update),
    {
        match &mut self.event {
            Some(event) => event.trigger(),
            Option::None => Vec::new(),
        }
    }
}

/// A window editing one bounded numeric value.  The widget tree itself is
/// wired up by the interface layer outside.
pub struct NumberWindow<T> {
    /// Title of the window.
    pub name: String,
    /// Smallest value the slider may set.
    pub minimum_value: T,
    /// Largest value the slider may set.
    pub maximum_value: T,
}

impl<T> NumberWindow<T> {
    /// A number window for a value between the two bounds.
    pub fn new(name: String, minimum_value: T, maximum_value: T) -> (r: NumberWindow<T>)
        ensures
            r.name == name,
            r.minimum_value == minimum_value,
            r.maximum_value == maximum_value,
    {
        NumberWindow { name, minimum_value, maximum_value }
    }
}

} // verus!
