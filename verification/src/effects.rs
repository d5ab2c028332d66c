//! The state behind the window-effect controls: the background opacity and
//! the glass tint, and what each control event does to them.

use vstd::prelude::*;
use crate::text::decimal;
use crate::style::{
    lemma_background_writes_tint_channels, lemma_swatch_writes_preset_channels, opacity_text, preset_class,
    preset_css,
    background_css, background_style, black, border_css, border_style, display_stylesheet,
    lemma_stylesheet_paints_background, opacity_label, percent_label, preset_rgb, stylesheet, Preset,
    Rgb,
};

verus! {

/// Largest opacity, in hundredths, that the terminal background is given;
/// a fully opaque background does not render well, so the slider's top
/// value is held just below it.
pub const MAX_OPACITY_HUNDREDTHS: u32 = 99;

/// The opacity, in hundredths, that the window starts with.
pub const INITIAL_OPACITY_HUNDREDTHS: u32 = 70;

/// The opacity and tint the window starts with.
pub open spec fn initial_effects() -> (nat, Rgb) {
    (INITIAL_OPACITY_HUNDREDTHS as nat, black())
}

/// The opacity, in hundredths, that the opacity slider asks for at `value`
/// percent: the value itself, held at most at the maximum.
pub open spec fn clamp_opacity(value: nat) -> nat {
    if value <= MAX_OPACITY_HUNDREDTHS { value } else { MAX_OPACITY_HUNDREDTHS as nat }
}

/// An input of the effect controls.
#[derive(Clone, Copy, Debug, PartialEq, Eq, Structural)]
pub enum EffectsEvent {
    /// The opacity slider moved to a value in percent.
    OpacitySlider(u32),
    /// A colour was picked in the colour button.
    TintPicked(Rgb),
    /// A preset button was clicked.
    PresetClicked(Preset),
}

/// The opacity (in hundredths) and tint after an event, from those before.
pub open spec fn next_effects(state: (nat, Rgb), event: EffectsEvent) -> (nat, Rgb) {
    match event {
        EffectsEvent::OpacitySlider(value) => (clamp_opacity(value as nat), state.1),
        EffectsEvent::TintPicked(c) => (state.0, c),
        EffectsEvent::PresetClicked(p) => (state.0, preset_rgb(p)),
    }
}

/// What the window has to change after an event.
pub struct Restyle {
    /// The new style of the terminal background.
    pub background_css: String,
    /// The new style of the terminal frame.
    pub border_css: String,
    /// The new text of the opacity label, where it changes.
    pub opacity_label: Option<String>,
    /// The preset whose tint the colour button is to show, where it changes.
    pub color_button: Option<Preset>,
}

/// The current opacity and tint of the terminal background.
pub struct EffectsState {
    opacity: u32,
    tint: Rgb,
}

impl View for EffectsState {
    type V = (nat, Rgb);

    closed spec fn view(&self) -> (nat, Rgb) {
        (self.opacity as nat, self.tint)
    }
}

impl EffectsState {
    #[verifier::type_invariant]
    spec fn opacity_in_range(self) -> bool {
        self.opacity <= MAX_OPACITY_HUNDREDTHS
    }

    /// The state the window starts in: 70 hundredths opacity, black tint.
    pub fn new() -> (res: EffectsState)
        ensures
            res@ == initial_effects(),
    {
        EffectsState { opacity: INITIAL_OPACITY_HUNDREDTHS, tint: Rgb::black() }
    }

    /// The opacity of the background, in hundredths.
    pub fn opacity(&self) -> (res: u32)
        ensures
            res as nat == self@.0,
            res <= MAX_OPACITY_HUNDREDTHS,
    {
        proof {
            use_type_invariant(self);
        }
        self.opacity
    }

    /// The tint of the background.
    pub fn tint(&self) -> (res: Rgb)
        ensures
            res == self@.1,
    {
        self.tint
    }

    /// The style sheet of the whole display, its terminal background painted
    /// as this state asks.
    pub fn stylesheet(&self) -> (res: String)
        ensures
            res@ == stylesheet(self@.1, self@.0),
    {
        proof {
            use_type_invariant(self);
        }
        display_stylesheet(self.tint, self.opacity)
    }

    /// Takes an event of the controls: updates the opacity or the tint and
    /// says how the window is to be restyled.
    pub fn apply(&mut self, event: EffectsEvent) -> (res: Restyle)
        ensures
            final(self)@ == next_effects(old(self)@, event),
            res.background_css@ == background_css(final(self)@.1, final(self)@.0),
            res.border_css@ == border_css(final(self)@.1),
            match event {
                EffectsEvent::OpacitySlider(value) => res.opacity_label matches Some(l)
                    && l@ == percent_label(value as nat),
                _ => res.opacity_label is None,
            },
            match event {
                EffectsEvent::PresetClicked(p) => res.color_button == Some(p),
                _ => res.color_button is None,
            },
    {
        proof {
            use_type_invariant(&*self);
        }
        let mut label: Option<String> = None;
        let mut button: Option<Preset> = None;
        match event {
            EffectsEvent::OpacitySlider(value) => {
                let o: u32 = if value <= MAX_OPACITY_HUNDREDTHS {
                    value
                } else {
                    MAX_OPACITY_HUNDREDTHS
                };
                self.opacity = o;
                label = Some(opacity_label(value));
            },
            EffectsEvent::TintPicked(c) => {
                self.tint = c;
            },
            EffectsEvent::PresetClicked(p) => {
                let c = p.rgb();
                self.tint = c;
                button = Some(p);
            },
        }
        let background_css = background_style(self.tint, self.opacity);
        let border_css = border_style(self.tint);
        Restyle { background_css, border_css, opacity_label: label, color_button: button }
    }
}

/// The style sheet the window starts with paints the terminal background
/// with the declaration of the start state's background style, so the
/// window looks from the start as its controls say.
pub proof fn lemma_start_look_matches_start_state()
    ensures
        ({
            let (opacity, tint) = initial_effects();
            let declaration = crate::style::background_declaration(tint, opacity);
            &&& stylesheet(tint, opacity).subrange(
                crate::style::STYLESHEET_HEAD@.len() as int,
                (crate::style::STYLESHEET_HEAD@.len() + declaration.len()) as int,
            ) == declaration
            &&& background_css(tint, opacity) == ".terminal-background { "@ + declaration + " }"@
        }),
{
    let (opacity, tint) = initial_effects();
    lemma_stylesheet_paints_background(tint, opacity);
}

/// Whatever the events, the opacity never exceeds the maximum.
pub proof fn lemma_opacity_bounded(state: (nat, Rgb), event: EffectsEvent)
    requires
        state.0 <= MAX_OPACITY_HUNDREDTHS,
    ensures
        next_effects(state, event).0 <= MAX_OPACITY_HUNDREDTHS,
{
}

/// A higher slider value never gives a lower opacity.
pub proof fn lemma_opacity_monotone(low: nat, high: nat)
    requires
        low <= high,
    ensures
        clamp_opacity(low) <= clamp_opacity(high),
{
}

/// Below the maximum, the opacity is exactly the slider's percentage.
pub proof fn lemma_opacity_exact_below_max(value: nat)
    requires
        value <= MAX_OPACITY_HUNDREDTHS,
    ensures
        clamp_opacity(value) == value,
{
}

/// Repeating an event changes nothing more.
pub proof fn lemma_event_idempotent(state: (nat, Rgb), event: EffectsEvent)
    ensures
        next_effects(next_effects(state, event), event) == next_effects(state, event),
{
}

/// Of two opacity moves, or two tint choices, the later one wins.
pub proof fn lemma_last_event_wins(state: (nat, Rgb), first: EffectsEvent, second: EffectsEvent)
    requires
        (first is OpacitySlider) == (second is OpacitySlider),
    ensures
        next_effects(next_effects(state, first), second) == next_effects(state, second),
{
}

/// The opacity control and the tint controls are independent: the order in
/// which an opacity move and a tint choice come does not matter, and each
/// leaves the other's value as it was.
pub proof fn lemma_controls_independent(state: (nat, Rgb), opacity_event: EffectsEvent, tint_event: EffectsEvent)
    requires
        opacity_event is OpacitySlider,
        !(tint_event is OpacitySlider),
    ensures
        next_effects(next_effects(state, opacity_event), tint_event)
            == next_effects(next_effects(state, tint_event), opacity_event),
        next_effects(state, opacity_event).1 == state.1,
        next_effects(state, tint_event).0 == state.0,
{
}

/// Each event sets exactly the value it names and nothing else: the opacity
/// slider sets the opacity to its value held at the maximum, a picked colour
/// becomes the tint unchanged, and a preset makes its own colour the tint.
pub proof fn lemma_event_sets_its_value(state: (nat, Rgb), event: EffectsEvent)
    ensures
        match event {
            EffectsEvent::OpacitySlider(v) => next_effects(state, event) == (
                if v <= MAX_OPACITY_HUNDREDTHS { v as nat } else { MAX_OPACITY_HUNDREDTHS as nat },
                state.1,
            ),
            EffectsEvent::TintPicked(c) => next_effects(state, event) == (state.0, c),
            EffectsEvent::PresetClicked(p) => next_effects(state, event) == (state.0, preset_rgb(p)),
        },
{
}

/// After a colour is picked, the terminal background is written with that
/// colour's channels, red, green and blue in that order, at the opacity the
/// state had.
pub proof fn lemma_picked_colour_is_painted(state: (nat, Rgb), c: Rgb)
    ensures
        ({
            let after = next_effects(state, EffectsEvent::TintPicked(c));
            background_css(after.1, after.0) == ".terminal-background { background: rgba("@
                + decimal(c.red as nat) + ", "@ + decimal(c.green as nat) + ", "@ + decimal(c.blue as nat)
                + ", "@ + opacity_text(state.0) + "); }"@
        }),
{
    lemma_background_writes_tint_channels(c, state.0);
}

/// A preset's swatch shows the very colour that clicking the preset gives
/// the terminal background, whatever the state before the click.
pub proof fn lemma_swatch_shows_clicked_colour(state: (nat, Rgb), p: Preset)
    ensures
        ({
            let tint = next_effects(state, EffectsEvent::PresetClicked(p)).1;
            preset_css(p) == "."@ + preset_class(p) + " { background: rgb("@ + decimal(tint.red as nat) + ", "@
                + decimal(tint.green as nat) + ", "@ + decimal(tint.blue as nat)
                + "); min-width: 20px; min-height: 20px; border-radius: 10px; }"@
        }),
{
    lemma_swatch_writes_preset_channels(p);
}

} // verus!
