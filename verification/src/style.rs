//! Colours, presets, labels and the style sheets that the control panel
//! hands to the window.

use vstd::prelude::*;
use vstd::string::*;
use crate::text::{
    ascii_lowercase, decimal, decimal_string, digit_char, digits_value, is_digit, lemma_decimal_denotes, lower,
    push_decimal,
};

verus! {

/// The display style sheet up to the terminal background's declaration.
pub const STYLESHEET_HEAD: &'static str = "window {
            background: transparent;
        }
        .terminal-viewport {
            border: 1px solid rgba(0, 255, 255, 0.3);
        }
        .terminal-background {
            /* This will handle the background with opacity and color */
            ";

/// The display style sheet after the terminal background's declaration.
pub const STYLESHEET_TAIL: &'static str = " /* Start with 70% opacity (30% transparency) */
        }
        .terminal-text {
            font-family: 'SF Mono', Monaco, Menlo, 'DejaVu Sans Mono', 'Bitstream Vera Sans Mono', monospace;
            font-size: 14px;
        }
        .terminal-text.gray {
            color: #888;
        }
        .terminal-text.white {
            color: #fff;
        }
        .terminal-text.cyan {
            color: #00ffff;
        }
        .terminal-text.green {
            color: #00ff00;
        }
        .controls-panel {
            background: rgba(38, 38, 51, 1.0);
            padding: 12px;
        }
        .controls-title {
            color: white;
            font-family: 'SF Mono', Monaco, Menlo, 'DejaVu Sans Mono', 'Bitstream Vera Sans Mono', monospace;
            font-size: 16px;
            font-weight: bold;
        }
        .control-label {
            color: white;
            font-family: 'SF Mono', Monaco, Menlo, 'DejaVu Sans Mono', 'Bitstream Vera Sans Mono', monospace;
            font-size: 12px;
        }
        .control-value {
            color: #00ff00;
            font-family: 'SF Mono', Monaco, Menlo, 'DejaVu Sans Mono', 'Bitstream Vera Sans Mono', monospace;
            font-size: 12px;
        }
        .preset-label {
            color: #888;
            font-family: 'SF Mono', Monaco, Menlo, 'DejaVu Sans Mono', 'Bitstream Vera Sans Mono', monospace;
            font-size: 10px;
        }
        .info-title {
            color: #00ffff;
            font-family: 'SF Mono', Monaco, Menlo, 'DejaVu Sans Mono', 'Bitstream Vera Sans Mono', monospace;
            font-size: 11px;
            font-weight: bold;
        }
        .info-text {
            color: rgba(255, 255, 255, 0.8);
            font-family: 'SF Mono', Monaco, Menlo, 'DejaVu Sans Mono', 'Bitstream Vera Sans Mono', monospace;
            font-size: 10px;
        }
        .warning-text {
            color: #ff0000;
            font-family: 'SF Mono', Monaco, Menlo, 'DejaVu Sans Mono', 'Bitstream Vera Sans Mono', monospace;
            font-size: 10px;
            font-weight: 600;
            margin-top: 6px;
        }";

/// A colour as three channels from 0 to 255, the units in which the style
/// sheets write it.
#[derive(Clone, Copy, Debug, PartialEq, Eq, Structural)]
pub struct Rgb {
    pub red: u8,
    pub green: u8,
    pub blue: u8,
}

/// The colour the glass tint starts with.
pub open spec fn black() -> Rgb {
    Rgb { red: 0, green: 0, blue: 0 }
}

impl Rgb {
    /// Black, the tint the window starts with.
    pub fn black() -> (res: Rgb)
        ensures
            res == black(),
    {
        Rgb { red: 0, green: 0, blue: 0 }
    }
}

/// The quick tint choices of the control panel, in the order they are shown.
#[derive(Clone, Copy, Debug, PartialEq, Eq, Structural)]
pub enum Preset {
    Black,
    White,
    Red,
    Green,
    Blue,
    Purple,
}

/// The name of a preset, shown as its tooltip.
pub open spec fn preset_name(p: Preset) -> Seq<char> {
    match p {
        Preset::Black => "Black"@,
        Preset::White => "White"@,
        Preset::Red => "Red"@,
        Preset::Green => "Green"@,
        Preset::Blue => "Blue"@,
        Preset::Purple => "Purple"@,
    }
}

/// The tint of a preset, each channel in hundredths of full intensity.
pub open spec fn preset_tint(p: Preset) -> (nat, nat, nat) {
    match p {
        Preset::Black => (0, 0, 0),
        Preset::White => (100, 100, 100),
        Preset::Red => (80, 20, 20),
        Preset::Green => (20, 80, 20),
        Preset::Blue => (20, 40, 90),
        Preset::Purple => (60, 20, 80),
    }
}

/// A channel given in hundredths of full intensity, scaled to 0..=255 and
/// truncated.
pub open spec fn channel_of(hundredths: nat) -> u8 {
    (hundredths * 255 / 100) as u8
}

/// The colour of a preset: its tint scaled to 0..=255, channel by channel.
pub open spec fn preset_rgb(p: Preset) -> Rgb {
    let t = preset_tint(p);
    Rgb { red: channel_of(t.0), green: channel_of(t.1), blue: channel_of(t.2) }
}

/// All presets, in the order the panel shows them.
pub open spec fn all_presets() -> Seq<Preset> {
    seq![Preset::Black, Preset::White, Preset::Red, Preset::Green, Preset::Blue, Preset::Purple]
}

/// The CSS class of a preset's button: `preset-` and the lower-case name.
pub open spec fn preset_class(p: Preset) -> Seq<char> {
    "preset-"@ + lower(preset_name(p))
}

/// The three channels of a colour as CSS function arguments: `R, G, B`.
pub open spec fn rgb_args(c: Rgb) -> Seq<char> {
    decimal(c.red as nat) + ", "@ + decimal(c.green as nat) + ", "@ + decimal(c.blue as nat)
}

/// The style of a preset's button: a round swatch of its colour.
pub open spec fn preset_css(p: Preset) -> Seq<char> {
    "."@ + preset_class(p) + " { background: rgb("@ + rgb_args(preset_rgb(p))
        + "); min-width: 20px; min-height: 20px; border-radius: 10px; }"@
}

/// An opacity given in hundredths, written as the shortest decimal
/// fraction of one: `0`, `0.05`, `0.5`, `0.75`.
pub open spec fn opacity_text(h: nat) -> Seq<char>
    recommends
        h < 100,
{
    if h == 0 {
        seq!['0']
    } else if h % 10 == 0 {
        seq!['0', '.', digit_char((h / 10) as int)]
    } else if h < 10 {
        seq!['0', '.', '0', digit_char(h as int)]
    } else {
        seq!['0', '.', digit_char((h / 10) as int), digit_char((h % 10) as int)]
    }
}

/// The declaration that paints the terminal background: the tint at the
/// given opacity.
pub open spec fn background_declaration(tint: Rgb, opacity: nat) -> Seq<char> {
    "background: rgba("@ + rgb_args(tint) + ", "@ + opacity_text(opacity) + ");"@
}

/// The style of the terminal background: the tint at the given opacity.
pub open spec fn background_css(tint: Rgb, opacity: nat) -> Seq<char> {
    ".terminal-background { "@ + background_declaration(tint, opacity) + " }"@
}

/// The style sheet of the whole display, its terminal background painted
/// with the tint at the given opacity.
pub open spec fn stylesheet(tint: Rgb, opacity: nat) -> Seq<char> {
    STYLESHEET_HEAD@ + background_declaration(tint, opacity) + STYLESHEET_TAIL@
}

/// The style of the terminal frame: the tint at half opacity.
pub open spec fn border_css(tint: Rgb) -> Seq<char> {
    ".terminal-viewport { border: 1px solid rgba("@ + rgb_args(tint) + ", 0.5); }"@
}

/// The label beside the opacity slider: the slider's value and `%`.
pub open spec fn percent_label(value: nat) -> Seq<char> {
    decimal(value) + "%"@
}

/// The label beside the blur slider: the radius and ` px`.
pub open spec fn radius_label(value: nat) -> Seq<char> {
    decimal(value) + " px"@
}

impl Preset {
    /// The name of the preset.
    pub fn name(&self) -> (res: &'static str)
        ensures
            res@ == preset_name(*self),
    {
        match self {
            Preset::Black => "Black",
            Preset::White => "White",
            Preset::Red => "Red",
            Preset::Green => "Green",
            Preset::Blue => "Blue",
            Preset::Purple => "Purple",
        }
    }

    /// The tint of the preset, each channel in hundredths of full intensity.
    pub fn tint(&self) -> (res: (u32, u32, u32))
        ensures
            (res.0 as nat, res.1 as nat, res.2 as nat) == preset_tint(*self),
            res.0 <= 100 && res.1 <= 100 && res.2 <= 100,
    {
        match self {
            Preset::Black => (0, 0, 0),
            Preset::White => (100, 100, 100),
            Preset::Red => (80, 20, 20),
            Preset::Green => (20, 80, 20),
            Preset::Blue => (20, 40, 90),
            Preset::Purple => (60, 20, 80),
        }
    }

    /// The colour of the preset.
    pub fn rgb(&self) -> (res: Rgb)
        ensures
            res == preset_rgb(*self),
    {
        let (r, g, b) = self.tint();
        Rgb { red: scale_channel(r), green: scale_channel(g), blue: scale_channel(b) }
    }

    /// The CSS class of the preset's button.
    pub fn css_class(&self) -> (res: String)
        ensures
            res@ == preset_class(*self),
    {
        let mut s = String::from_str("preset-");
        let lowered = ascii_lowercase(self.name());
        s.append(lowered.as_str());
        s
    }

    /// The style sheet of the preset's button.
    pub fn css(&self) -> (res: String)
        ensures
            res@ == preset_css(*self),
    {
        let mut s = String::from_str(".");
        let class = self.css_class();
        s.append(class.as_str());
        s.append(" { background: rgb(");
        push_rgb_args(&mut s, self.rgb());
        s.append("); min-width: 20px; min-height: 20px; border-radius: 10px; }");
        assert(s@ =~= preset_css(*self));
        s
    }
}

/// The presets, in the order the panel shows them.
pub fn presets() -> (res: Vec<Preset>)
    ensures
        res@ == all_presets(),
{
    let res = vec![Preset::Black, Preset::White, Preset::Red, Preset::Green, Preset::Blue, Preset::Purple];
    assert(res@ =~= all_presets());
    res
}

/// Appends the channels of `c` as CSS function arguments.
fn push_rgb_args(s: &mut String, c: Rgb)
    ensures
        final(s)@ == old(s)@ + rgb_args(c),
{
    push_decimal(s, c.red as u32);
    s.append(", ");
    push_decimal(s, c.green as u32);
    s.append(", ");
    push_decimal(s, c.blue as u32);
    assert(final(s)@ =~= old(s)@ + rgb_args(c));
}

/// Appends an opacity given in hundredths as a decimal fraction of one.
fn push_opacity(s: &mut String, hundredths: u32)
    requires
        hundredths < 100,
    ensures
        final(s)@ == old(s)@ + opacity_text(hundredths as nat),
{
    let ghost start = s@;
    if hundredths == 0 {
        push_decimal(s, 0);
    } else {
        s.append("0.");
        proof {
            reveal_strlit("0.");
        }
        if hundredths < 10 {
            push_decimal(s, 0);
            push_decimal(s, hundredths);
        } else if hundredths % 10 == 0 {
            push_decimal(s, hundredths / 10);
        } else {
            push_decimal(s, hundredths / 10);
            push_decimal(s, hundredths % 10);
        }
    }
    assert(s@ =~= start + opacity_text(hundredths as nat));
}

/// Appends the declaration that paints the terminal background.
fn push_background_declaration(s: &mut String, tint: Rgb, opacity: u32)
    requires
        opacity < 100,
    ensures
        final(s)@ == old(s)@ + background_declaration(tint, opacity as nat),
{
    let ghost start = s@;
    s.append("background: rgba(");
    push_rgb_args(s, tint);
    s.append(", ");
    push_opacity(s, opacity);
    s.append(");");
    assert(s@ =~= start + background_declaration(tint, opacity as nat));
}

/// The style of the terminal background for a tint and an opacity in
/// hundredths.
pub fn background_style(tint: Rgb, opacity: u32) -> (res: String)
    requires
        opacity < 100,
    ensures
        res@ == background_css(tint, opacity as nat),
{
    let mut s = String::from_str(".terminal-background { ");
    push_background_declaration(&mut s, tint, opacity);
    s.append(" }");
    assert(s@ =~= background_css(tint, opacity as nat));
    s
}

/// The style sheet of the whole display for a tint and an opacity in
/// hundredths.
pub fn display_stylesheet(tint: Rgb, opacity: u32) -> (res: String)
    requires
        opacity < 100,
    ensures
        res@ == stylesheet(tint, opacity as nat),
{
    let mut s = String::from_str(STYLESHEET_HEAD);
    push_background_declaration(&mut s, tint, opacity);
    s.append(STYLESHEET_TAIL);
    assert(s@ =~= stylesheet(tint, opacity as nat));
    s
}

/// A channel given in hundredths, scaled to 0..=255 and truncated.
fn scale_channel(hundredths: u32) -> (res: u8)
    requires
        hundredths <= 100,
    ensures
        res == channel_of(hundredths as nat),
{
    (hundredths * 255 / 100) as u8
}

/// The display style sheet's terminal background is painted by the same
/// declaration as the background style of that tint and opacity: the look
/// that the sheet gives is the look of the state it was written for.
pub proof fn lemma_stylesheet_paints_background(tint: Rgb, opacity: nat)
    ensures
        stylesheet(tint, opacity).subrange(
            STYLESHEET_HEAD@.len() as int,
            (STYLESHEET_HEAD@.len() + background_declaration(tint, opacity).len()) as int,
        ) == background_declaration(tint, opacity),
        background_css(tint, opacity) == ".terminal-background { "@ + background_declaration(tint, opacity)
            + " }"@,
{
    let d = background_declaration(tint, opacity);
    assert(stylesheet(tint, opacity).subrange(STYLESHEET_HEAD@.len() as int, (STYLESHEET_HEAD@.len() + d.len()) as int) =~= d);
}

/// The style of the terminal frame for a tint.
pub fn border_style(tint: Rgb) -> (res: String)
    ensures
        res@ == border_css(tint),
{
    let mut s = String::from_str(".terminal-viewport { border: 1px solid rgba(");
    push_rgb_args(&mut s, tint);
    s.append(", 0.5); }");
    assert(s@ =~= border_css(tint));
    s
}

/// The text beside the opacity slider.
pub fn opacity_label(value: u32) -> (res: String)
    ensures
        res@ == percent_label(value as nat),
{
    let mut s = decimal_string(value);
    s.append("%");
    s
}

/// The text beside the blur slider.
pub fn blur_label(value: u32) -> (res: String)
    ensures
        res@ == radius_label(value as nat),
{
    let mut s = decimal_string(value);
    s.append(" px");
    s
}

/// The opacity text denotes the opacity: `0` for none, otherwise `0.`
/// followed by one or two digits without a trailing zero which, read as
/// hundredths, give the opacity.
pub proof fn lemma_opacity_text_denotes(h: nat)
    requires
        h < 100,
    ensures
        h == 0 ==> opacity_text(h) == seq!['0'],
        h > 0 ==> ({
            let t = opacity_text(h);
            let f = t.subrange(2, t.len() as int);
            &&& t[0] == '0' && t[1] == '.'
            &&& 1 <= f.len() <= 2
            &&& forall|i: int| 0 <= i < f.len() ==> is_digit(#[trigger] f[i])
            &&& f.last() != '0'
            &&& (if f.len() == 1 { digits_value(f) * 10 == h } else { digits_value(f) == h })
        }),
{
    if h > 0 {
        let t = opacity_text(h);
        let f = t.subrange(2, t.len() as int);
        lemma_decimal_denotes(h / 10);
        lemma_decimal_denotes(h % 10);
        if h % 10 == 0 {
            assert(f =~= decimal(h / 10));
        } else if h < 10 {
            assert(f =~= seq!['0'] + decimal(h));
            assert(f.drop_last() =~= seq!['0']);
            assert(seq!['0'].drop_last() =~= Seq::<char>::empty());
        } else {
            assert(f =~= decimal(h / 10) + decimal(h % 10));
            assert(f.drop_last() =~= decimal(h / 10));
        }
    }
}

/// The terminal background's style writes the tint's own channels, red,
/// green and blue in that order, as decimal numerals, then the opacity.
pub proof fn lemma_background_writes_tint_channels(tint: Rgb, opacity: nat)
    ensures
        background_declaration(tint, opacity) == "background: rgba("@ + decimal(tint.red as nat) + ", "@
            + decimal(tint.green as nat) + ", "@ + decimal(tint.blue as nat) + ", "@ + opacity_text(opacity)
            + ");"@,
        background_css(tint, opacity) == ".terminal-background { background: rgba("@ + decimal(tint.red as nat)
            + ", "@ + decimal(tint.green as nat) + ", "@ + decimal(tint.blue as nat) + ", "@ + opacity_text(opacity)
            + "); }"@,
{
    reveal_strlit(".terminal-background { ");
    reveal_strlit("background: rgba(");
    reveal_strlit(".terminal-background { background: rgba(");
    reveal_strlit(");");
    reveal_strlit(" }");
    reveal_strlit("); }");
    let r = decimal(tint.red as nat);
    let g = decimal(tint.green as nat);
    let b = decimal(tint.blue as nat);
    let o = opacity_text(opacity);
    assert(background_declaration(tint, opacity) =~= "background: rgba("@ + r + ", "@ + g + ", "@ + b + ", "@ + o
        + ");"@);
    assert(background_css(tint, opacity) =~= ".terminal-background { background: rgba("@ + r + ", "@ + g + ", "@
        + b + ", "@ + o + "); }"@);
}

/// The terminal frame's style writes the tint's own channels, red, green
/// and blue in that order, at half opacity.
pub proof fn lemma_border_writes_tint_channels(tint: Rgb)
    ensures
        border_css(tint) == ".terminal-viewport { border: 1px solid rgba("@ + decimal(tint.red as nat) + ", "@
            + decimal(tint.green as nat) + ", "@ + decimal(tint.blue as nat) + ", 0.5); }"@,
{
    assert(border_css(tint) =~= ".terminal-viewport { border: 1px solid rgba("@ + decimal(tint.red as nat) + ", "@
        + decimal(tint.green as nat) + ", "@ + decimal(tint.blue as nat) + ", 0.5); }"@);
}

/// A preset's swatch is painted with the preset's own colour, its channels
/// red, green and blue in that order.
pub proof fn lemma_swatch_writes_preset_channels(p: Preset)
    ensures
        preset_css(p) == "."@ + preset_class(p) + " { background: rgb("@ + decimal(preset_rgb(p).red as nat)
            + ", "@ + decimal(preset_rgb(p).green as nat) + ", "@ + decimal(preset_rgb(p).blue as nat)
            + "); min-width: 20px; min-height: 20px; border-radius: 10px; }"@,
        preset_rgb(p).red == channel_of(preset_tint(p).0),
        preset_rgb(p).green == channel_of(preset_tint(p).1),
        preset_rgb(p).blue == channel_of(preset_tint(p).2),
{
    let c = preset_rgb(p);
    assert(preset_css(p) =~= "."@ + preset_class(p) + " { background: rgb("@ + decimal(c.red as nat) + ", "@
        + decimal(c.green as nat) + ", "@ + decimal(c.blue as nat)
        + "); min-width: 20px; min-height: 20px; border-radius: 10px; }"@);
}

/// A label made of a numeral and a fixed suffix denotes `value`: all
/// characters before the suffix are digits, and they spell `value`.
pub open spec fn labels_value(label: Seq<char>, suffix: Seq<char>, value: nat) -> bool {
    let n = label.len() - suffix.len();
    &&& n >= 1
    &&& label.subrange(n, label.len() as int) == suffix
    &&& forall|i: int| 0 <= i < n ==> is_digit(#[trigger] label[i])
    &&& digits_value(label.subrange(0, n)) == value
}

/// The slider labels show the slider's own value: the blur label is the
/// value's numeral followed by ` px`, the opacity label the value's numeral
/// followed by `%`, whatever the value.
pub proof fn lemma_labels_show_slider_value(value: nat)
    ensures
        labels_value(radius_label(value), " px"@, value),
        labels_value(percent_label(value), "%"@, value),
{
    lemma_decimal_denotes(value);
    let d = decimal(value);
    let r = radius_label(value);
    let q = percent_label(value);
    assert(r.subrange(0, d.len() as int) =~= d);
    assert(r.subrange(d.len() as int, r.len() as int) =~= " px"@);
    assert(q.subrange(0, d.len() as int) =~= d);
    assert(q.subrange(d.len() as int, q.len() as int) =~= "%"@);
    assert forall|i: int| 0 <= i < d.len() implies is_digit(#[trigger] r[i]) by {
        assert(r[i] == d[i]);
    }
    assert forall|i: int| 0 <= i < d.len() implies is_digit(#[trigger] q[i]) by {
        assert(q[i] == d[i]);
    }
}

} // verus!
