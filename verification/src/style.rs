//! The utility-class style rule engine.
//!
//! Each whitespace-delimited token of a `class` attribute resolves to at
//! most one style mutation.  Resolution tries, in order: a static table of
//! exact utility tokens, then a chain of dynamic prefix rules (hex colors,
//! lengths with a unit).  A token that matches nothing is ignored and the
//! element is left unchanged.

use crate::chars::{
    chars_from, chars_range, has_prefix, seq_views, spec_has_prefix, spec_split_ws, split_ws,
    str_eq, str_to_chars, token_eq,
};
use crate::color::{hex_chars_to_rgba, spec_hex_to_rgba, Rgba};
use crate::length::{extract_length_chars, spec_extract_length, AbsoluteLength};
use vstd::prelude::*;

verus! {

/// One edge of a box.
#[derive(Clone, Copy, Debug, PartialEq, Eq, Structural)]
pub enum Side {
    Top,
    Right,
    Bottom,
    Left,
}

/// A side selection for spacing: all sides, one axis, or one edge.
#[derive(Clone, Copy, Debug, PartialEq, Eq, Structural)]
pub enum BoxSide {
    All,
    X,
    Y,
    Top,
    Right,
    Bottom,
    Left,
}

/// A corner selection for radii.
#[derive(Clone, Copy, Debug, PartialEq, Eq, Structural)]
pub enum CornerSet {
    All,
    Top,
    Right,
    Bottom,
    Left,
    TopLeft,
    TopRight,
    BottomRight,
    BottomLeft,
}

/// The dimension a sizing token applies to.
#[derive(Clone, Copy, Debug, PartialEq, Eq, Structural)]
pub enum SizeTarget {
    Width,
    Height,
    MinWidth,
    MinHeight,
    MaxWidth,
    MaxHeight,
    Both,
}

/// A step on the shared spacing / sizing scale.
#[derive(Clone, Copy, Debug, PartialEq, Eq, Structural)]
pub enum ScaleStep {
    S0,
    S1,
    S2,
    S3,
    S4,
    S5,
    S6,
    S8,
    S10,
    S12,
    S16,
    S20,
    S24,
    S32,
    S40,
    S48,
    S56,
    S64,
    S72,
    S80,
    S96,
    Auto,
    Full,
    D05,
    D15,
    D25,
    D35,
    F1_2,
    F1_3,
    F2_3,
    F1_4,
    F2_4,
    F3_4,
    F1_5,
    F2_5,
    F3_5,
    F4_5,
    F1_6,
    F5_6,
    F1_12,
}

/// A step on the border-width scale; `Bare` is the unsuffixed token.
#[derive(Clone, Copy, Debug, PartialEq, Eq, Structural)]
pub enum BorderStep {
    Bare,
    W0,
    W1,
    W2,
    W3,
    W4,
    W5,
    W6,
    W8,
    W10,
    W12,
    W16,
    W20,
    W24,
    W32,
}

/// A named corner-radius size.
#[derive(Clone, Copy, Debug, PartialEq, Eq, Structural)]
pub enum RadiusSize {
    NoRound,
    Sm,
    Md,
    Lg,
    Xl,
    Xl2,
    Xl3,
    Full,
}

/// A shadow elevation step.
#[derive(Clone, Copy, Debug, PartialEq, Eq, Structural)]
pub enum ShadowSize {
    Sm,
    Md,
    Lg,
    Xl,
    Xl2,
}

/// A text size step.
#[derive(Clone, Copy, Debug, PartialEq, Eq, Structural)]
pub enum TextSizeStep {
    Xs,
    Sm,
    Base,
    Lg,
    Xl,
    Xl2,
    Xl3,
}

/// A font weight.
#[derive(Clone, Copy, Debug, PartialEq, Eq, Structural)]
pub enum FontWeightName {
    Thin,
    ExtraLight,
    Light,
    Normal,
    Medium,
    SemiBold,
    Bold,
    ExtraBold,
    Black,
}

/// A parameterless layout, position, visibility or overflow flag.
#[derive(Clone, Copy, Debug, PartialEq, Eq, Structural)]
pub enum LayoutFlag {
    Flex,
    FlexGrow,
    FlexShrink,
    FlexShrink0,
    FlexWrap,
    FlexWrapReverse,
    FlexNowrap,
    Block,
    Absolute,
    Relative,
    Visible,
    Invisible,
    OverflowHidden,
    OverflowXHidden,
    OverflowYHidden,
    FlexCol,
    FlexRow,
    FlexColReverse,
    FlexRowReverse,
    Flex1,
    FlexAuto,
    FlexInitial,
    FlexNone,
}

/// An align-content kind.
#[derive(Clone, Copy, Debug, PartialEq, Eq, Structural)]
pub enum ContentAlign {
    Normal,
    Center,
    Start,
    End,
    Between,
    Around,
    Evenly,
    Stretch,
}

/// An align-items kind.
#[derive(Clone, Copy, Debug, PartialEq, Eq, Structural)]
pub enum ItemsAlign {
    Start,
    End,
    Center,
}

/// A justify-content kind.
#[derive(Clone, Copy, Debug, PartialEq, Eq, Structural)]
pub enum JustifyKind {
    Center,
    Between,
    Around,
    Start,
    End,
}

/// A cursor kind.
#[derive(Clone, Copy, Debug, PartialEq, Eq, Structural)]
pub enum CursorKind {
    Default,
    Pointer,
    Text,
    Move,
    NotAllowed,
    ContextMenu,
    Crosshair,
    VerticalText,
    Alias,
    Copy,
    NoDrop,
    Grab,
    Grabbing,
    ColResize,
    RowResize,
    NResize,
    EResize,
    SResize,
    WResize,
}

/// One atomic change to an element's visual or layout state.
#[derive(Clone, Copy, Debug, PartialEq, Eq, Structural)]
pub enum StyleMutation {
    BackgroundColor(Rgba),
    TextColor(Rgba),
    BorderColor(Rgba),
    CornerRadius(CornerSet, AbsoluteLength),
    BorderWidth(Side, AbsoluteLength),
    FontWeight(FontWeightName),
    Layout(LayoutFlag),
    AlignContent(ContentAlign),
    AlignItems(ItemsAlign),
    JustifyContent(JustifyKind),
    Cursor(CursorKind),
    Inset(Side, ScaleStep),
    Padding(BoxSide, ScaleStep),
    Margin(BoxSide, ScaleStep),
    Sizing(SizeTarget, ScaleStep),
    BorderWidthStep(BoxSide, BorderStep),
    CornerRadiusStep(CornerSet, RadiusSize),
    Shadow(ShadowSize),
    TextSize(TextSizeStep),
}

// ------------------------------------------------------------------
// Scale vocabularies.
// ------------------------------------------------------------------

/// The scale step named by a token suffix, if any.
pub open spec fn spec_scale(u: Seq<char>) -> Option<ScaleStep> {
    if u == "0"@ {
        Some(ScaleStep::S0)
    } else if u == "1"@ {
        Some(ScaleStep::S1)
    } else if u == "2"@ {
        Some(ScaleStep::S2)
    } else if u == "3"@ {
        Some(ScaleStep::S3)
    } else if u == "4"@ {
        Some(ScaleStep::S4)
    } else if u == "5"@ {
        Some(ScaleStep::S5)
    } else if u == "6"@ {
        Some(ScaleStep::S6)
    } else if u == "8"@ {
        Some(ScaleStep::S8)
    } else if u == "10"@ {
        Some(ScaleStep::S10)
    } else if u == "12"@ {
        Some(ScaleStep::S12)
    } else if u == "16"@ {
        Some(ScaleStep::S16)
    } else if u == "20"@ {
        Some(ScaleStep::S20)
    } else if u == "24"@ {
        Some(ScaleStep::S24)
    } else if u == "32"@ {
        Some(ScaleStep::S32)
    } else if u == "40"@ {
        Some(ScaleStep::S40)
    } else if u == "48"@ {
        Some(ScaleStep::S48)
    } else if u == "56"@ {
        Some(ScaleStep::S56)
    } else if u == "64"@ {
        Some(ScaleStep::S64)
    } else if u == "72"@ {
        Some(ScaleStep::S72)
    } else if u == "80"@ {
        Some(ScaleStep::S80)
    } else if u == "96"@ {
        Some(ScaleStep::S96)
    } else if u == "auto"@ {
        Some(ScaleStep::Auto)
    } else if u == "full"@ {
        Some(ScaleStep::Full)
    } else if u == "0.5"@ {
        Some(ScaleStep::D05)
    } else if u == "1.5"@ {
        Some(ScaleStep::D15)
    } else if u == "2.5"@ {
        Some(ScaleStep::D25)
    } else if u == "3.5"@ {
        Some(ScaleStep::D35)
    } else if u == "1/2"@ {
        Some(ScaleStep::F1_2)
    } else if u == "1/3"@ {
        Some(ScaleStep::F1_3)
    } else if u == "2/3"@ {
        Some(ScaleStep::F2_3)
    } else if u == "1/4"@ {
        Some(ScaleStep::F1_4)
    } else if u == "2/4"@ {
        Some(ScaleStep::F2_4)
    } else if u == "3/4"@ {
        Some(ScaleStep::F3_4)
    } else if u == "1/5"@ {
        Some(ScaleStep::F1_5)
    } else if u == "2/5"@ {
        Some(ScaleStep::F2_5)
    } else if u == "3/5"@ {
        Some(ScaleStep::F3_5)
    } else if u == "4/5"@ {
        Some(ScaleStep::F4_5)
    } else if u == "1/6"@ {
        Some(ScaleStep::F1_6)
    } else if u == "5/6"@ {
        Some(ScaleStep::F5_6)
    } else if u == "1/12"@ {
        Some(ScaleStep::F1_12)
    } else {
        None
    }
}

fn scale_of(u: &Vec<char>) -> (r: Option<ScaleStep>)
    ensures
        r == spec_scale(u@),
{
    if token_eq(u, "0") {
        Some(ScaleStep::S0)
    } else if token_eq(u, "1") {
        Some(ScaleStep::S1)
    } else if token_eq(u, "2") {
        Some(ScaleStep::S2)
    } else if token_eq(u, "3") {
        Some(ScaleStep::S3)
    } else if token_eq(u, "4") {
        Some(ScaleStep::S4)
    } else if token_eq(u, "5") {
        Some(ScaleStep::S5)
    } else if token_eq(u, "6") {
        Some(ScaleStep::S6)
    } else if token_eq(u, "8") {
        Some(ScaleStep::S8)
    } else if token_eq(u, "10") {
        Some(ScaleStep::S10)
    } else if token_eq(u, "12") {
        Some(ScaleStep::S12)
    } else if token_eq(u, "16") {
        Some(ScaleStep::S16)
    } else if token_eq(u, "20") {
        Some(ScaleStep::S20)
    } else if token_eq(u, "24") {
        Some(ScaleStep::S24)
    } else if token_eq(u, "32") {
        Some(ScaleStep::S32)
    } else if token_eq(u, "40") {
        Some(ScaleStep::S40)
    } else if token_eq(u, "48") {
        Some(ScaleStep::S48)
    } else if token_eq(u, "56") {
        Some(ScaleStep::S56)
    } else if token_eq(u, "64") {
        Some(ScaleStep::S64)
    } else if token_eq(u, "72") {
        Some(ScaleStep::S72)
    } else if token_eq(u, "80") {
        Some(ScaleStep::S80)
    } else if token_eq(u, "96") {
        Some(ScaleStep::S96)
    } else if token_eq(u, "auto") {
        Some(ScaleStep::Auto)
    } else if token_eq(u, "full") {
        Some(ScaleStep::Full)
    } else if token_eq(u, "0.5") {
        Some(ScaleStep::D05)
    } else if token_eq(u, "1.5") {
        Some(ScaleStep::D15)
    } else if token_eq(u, "2.5") {
        Some(ScaleStep::D25)
    } else if token_eq(u, "3.5") {
        Some(ScaleStep::D35)
    } else if token_eq(u, "1/2") {
        Some(ScaleStep::F1_2)
    } else if token_eq(u, "1/3") {
        Some(ScaleStep::F1_3)
    } else if token_eq(u, "2/3") {
        Some(ScaleStep::F2_3)
    } else if token_eq(u, "1/4") {
        Some(ScaleStep::F1_4)
    } else if token_eq(u, "2/4") {
        Some(ScaleStep::F2_4)
    } else if token_eq(u, "3/4") {
        Some(ScaleStep::F3_4)
    } else if token_eq(u, "1/5") {
        Some(ScaleStep::F1_5)
    } else if token_eq(u, "2/5") {
        Some(ScaleStep::F2_5)
    } else if token_eq(u, "3/5") {
        Some(ScaleStep::F3_5)
    } else if token_eq(u, "4/5") {
        Some(ScaleStep::F4_5)
    } else if token_eq(u, "1/6") {
        Some(ScaleStep::F1_6)
    } else if token_eq(u, "5/6") {
        Some(ScaleStep::F5_6)
    } else if token_eq(u, "1/12") {
        Some(ScaleStep::F1_12)
    } else {
        None
    }
}

/// Numbered steps of the shared scale.
pub open spec fn is_num_step(st: ScaleStep) -> bool {
    match st {
        ScaleStep::S0 | ScaleStep::S1 | ScaleStep::S2 | ScaleStep::S3 | ScaleStep::S4
        | ScaleStep::S5 | ScaleStep::S6 | ScaleStep::S8 | ScaleStep::S10 | ScaleStep::S12
        | ScaleStep::S16 | ScaleStep::S20 | ScaleStep::S24 | ScaleStep::S32 | ScaleStep::S40
        | ScaleStep::S48 | ScaleStep::S56 | ScaleStep::S64 | ScaleStep::S72 | ScaleStep::S80
        | ScaleStep::S96 => true,
        _ => false,
    }
}

/// The nine fractions shared by the inset scale.
pub open spec fn is_frac9_step(st: ScaleStep) -> bool {
    match st {
        ScaleStep::F1_2 | ScaleStep::F1_3 | ScaleStep::F2_3 | ScaleStep::F1_4 | ScaleStep::F2_4
        | ScaleStep::F3_4 | ScaleStep::F1_5 | ScaleStep::F2_5 | ScaleStep::F3_5 => true,
        _ => false,
    }
}

/// The thirteen fractions of the sizing and spacing scales.
pub open spec fn is_frac13_step(st: ScaleStep) -> bool {
    match st {
        ScaleStep::F1_2 | ScaleStep::F1_3 | ScaleStep::F2_3 | ScaleStep::F1_4 | ScaleStep::F2_4
        | ScaleStep::F3_4 | ScaleStep::F1_5 | ScaleStep::F2_5 | ScaleStep::F3_5
        | ScaleStep::F4_5 | ScaleStep::F1_6 | ScaleStep::F5_6 | ScaleStep::F1_12 => true,
        _ => false,
    }
}

/// The half steps (`0.5` .. `3.5`) of the unified size scale.
pub open spec fn is_half_step(st: ScaleStep) -> bool {
    match st {
        ScaleStep::D05 | ScaleStep::D15 | ScaleStep::D25 | ScaleStep::D35 => true,
        _ => false,
    }
}

/// Steps admitted by the inset (`top-` .. `left-`) vocabulary.
pub open spec fn inset_ok(st: ScaleStep) -> bool {
    is_num_step(st) || st == ScaleStep::Auto || st == ScaleStep::Full || is_frac9_step(st)
}

/// Steps admitted by the width / height vocabulary.
pub open spec fn wh_ok(st: ScaleStep) -> bool {
    is_num_step(st) || st == ScaleStep::Auto || st == ScaleStep::Full || is_frac13_step(st)
}

/// Steps admitted by the padding vocabulary (no `auto`).
pub open spec fn pad_ok(st: ScaleStep) -> bool {
    is_num_step(st) || st == ScaleStep::Full || is_frac13_step(st)
}

/// Steps admitted by the margin vocabulary.
pub open spec fn margin_ok(st: ScaleStep) -> bool {
    is_num_step(st) || st == ScaleStep::Auto || st == ScaleStep::Full || is_frac13_step(st)
}

/// Steps admitted by the unified `size-` vocabulary: the whole scale.
pub open spec fn size_ok(st: ScaleStep) -> bool {
    is_num_step(st) || st == ScaleStep::Auto || st == ScaleStep::Full || is_half_step(st)
        || is_frac13_step(st)
}

fn inset_ok_exec(st: ScaleStep) -> (b: bool)
    ensures
        b == inset_ok(st),
{
    match st {
        ScaleStep::Auto | ScaleStep::Full => true,
        ScaleStep::D05 | ScaleStep::D15 | ScaleStep::D25 | ScaleStep::D35 => false,
        ScaleStep::F4_5 | ScaleStep::F1_6 | ScaleStep::F5_6 | ScaleStep::F1_12 => false,
        _ => true,
    }
}

fn wh_ok_exec(st: ScaleStep) -> (b: bool)
    ensures
        b == wh_ok(st),
{
    match st {
        ScaleStep::D05 | ScaleStep::D15 | ScaleStep::D25 | ScaleStep::D35 => false,
        _ => true,
    }
}

fn pad_ok_exec(st: ScaleStep) -> (b: bool)
    ensures
        b == pad_ok(st),
{
    match st {
        ScaleStep::Auto => false,
        ScaleStep::D05 | ScaleStep::D15 | ScaleStep::D25 | ScaleStep::D35 => false,
        _ => true,
    }
}

fn margin_ok_exec(st: ScaleStep) -> (b: bool)
    ensures
        b == margin_ok(st),
{
    match st {
        ScaleStep::D05 | ScaleStep::D15 | ScaleStep::D25 | ScaleStep::D35 => false,
        _ => true,
    }
}

fn size_ok_exec(st: ScaleStep) -> (b: bool)
    ensures
        b == size_ok(st),
{
    let _ = st;
    true
}

// ------------------------------------------------------------------
// Small vocabularies.
// ------------------------------------------------------------------

/// The border-width step named by a token suffix, if any.
pub open spec fn spec_border_step(u: Seq<char>) -> Option<BorderStep> {
    if u == "0"@ {
        Some(BorderStep::W0)
    } else if u == "1"@ {
        Some(BorderStep::W1)
    } else if u == "2"@ {
        Some(BorderStep::W2)
    } else if u == "3"@ {
        Some(BorderStep::W3)
    } else if u == "4"@ {
        Some(BorderStep::W4)
    } else if u == "5"@ {
        Some(BorderStep::W5)
    } else if u == "6"@ {
        Some(BorderStep::W6)
    } else if u == "8"@ {
        Some(BorderStep::W8)
    } else if u == "10"@ {
        Some(BorderStep::W10)
    } else if u == "12"@ {
        Some(BorderStep::W12)
    } else if u == "16"@ {
        Some(BorderStep::W16)
    } else if u == "20"@ {
        Some(BorderStep::W20)
    } else if u == "24"@ {
        Some(BorderStep::W24)
    } else if u == "32"@ {
        Some(BorderStep::W32)
    } else {
        None
    }
}

fn border_step_of(u: &Vec<char>) -> (r: Option<BorderStep>)
    ensures
        r == spec_border_step(u@),
{
    if token_eq(u, "0") {
        Some(BorderStep::W0)
    } else if token_eq(u, "1") {
        Some(BorderStep::W1)
    } else if token_eq(u, "2") {
        Some(BorderStep::W2)
    } else if token_eq(u, "3") {
        Some(BorderStep::W3)
    } else if token_eq(u, "4") {
        Some(BorderStep::W4)
    } else if token_eq(u, "5") {
        Some(BorderStep::W5)
    } else if token_eq(u, "6") {
        Some(BorderStep::W6)
    } else if token_eq(u, "8") {
        Some(BorderStep::W8)
    } else if token_eq(u, "10") {
        Some(BorderStep::W10)
    } else if token_eq(u, "12") {
        Some(BorderStep::W12)
    } else if token_eq(u, "16") {
        Some(BorderStep::W16)
    } else if token_eq(u, "20") {
        Some(BorderStep::W20)
    } else if token_eq(u, "24") {
        Some(BorderStep::W24)
    } else if token_eq(u, "32") {
        Some(BorderStep::W32)
    } else {
        None
    }
}

/// The named radius size of a token suffix, if any.
pub open spec fn spec_radius_size(u: Seq<char>) -> Option<RadiusSize> {
    if u == "none"@ {
        Some(RadiusSize::NoRound)
    } else if u == "sm"@ {
        Some(RadiusSize::Sm)
    } else if u == "md"@ {
        Some(RadiusSize::Md)
    } else if u == "lg"@ {
        Some(RadiusSize::Lg)
    } else if u == "xl"@ {
        Some(RadiusSize::Xl)
    } else if u == "2xl"@ {
        Some(RadiusSize::Xl2)
    } else if u == "3xl"@ {
        Some(RadiusSize::Xl3)
    } else if u == "full"@ {
        Some(RadiusSize::Full)
    } else {
        None
    }
}

fn radius_size_of(u: &Vec<char>) -> (r: Option<RadiusSize>)
    ensures
        r == spec_radius_size(u@),
{
    if token_eq(u, "none") {
        Some(RadiusSize::NoRound)
    } else if token_eq(u, "sm") {
        Some(RadiusSize::Sm)
    } else if token_eq(u, "md") {
        Some(RadiusSize::Md)
    } else if token_eq(u, "lg") {
        Some(RadiusSize::Lg)
    } else if token_eq(u, "xl") {
        Some(RadiusSize::Xl)
    } else if token_eq(u, "2xl") {
        Some(RadiusSize::Xl2)
    } else if token_eq(u, "3xl") {
        Some(RadiusSize::Xl3)
    } else if token_eq(u, "full") {
        Some(RadiusSize::Full)
    } else {
        None
    }
}

/// The align-content mutation of a `content-` suffix.
pub open spec fn spec_content(u: Seq<char>) -> Option<StyleMutation> {
    if u == "normal"@ {
        Some(StyleMutation::AlignContent(ContentAlign::Normal))
    } else if u == "center"@ {
        Some(StyleMutation::AlignContent(ContentAlign::Center))
    } else if u == "start"@ {
        Some(StyleMutation::AlignContent(ContentAlign::Start))
    } else if u == "end"@ {
        Some(StyleMutation::AlignContent(ContentAlign::End))
    } else if u == "between"@ {
        Some(StyleMutation::AlignContent(ContentAlign::Between))
    } else if u == "around"@ {
        Some(StyleMutation::AlignContent(ContentAlign::Around))
    } else if u == "evenly"@ {
        Some(StyleMutation::AlignContent(ContentAlign::Evenly))
    } else if u == "stretch"@ {
        Some(StyleMutation::AlignContent(ContentAlign::Stretch))
    } else {
        None
    }
}

fn content_of(u: &Vec<char>) -> (r: Option<StyleMutation>)
    ensures
        r == spec_content(u@),
{
    if token_eq(u, "normal") {
        Some(StyleMutation::AlignContent(ContentAlign::Normal))
    } else if token_eq(u, "center") {
        Some(StyleMutation::AlignContent(ContentAlign::Center))
    } else if token_eq(u, "start") {
        Some(StyleMutation::AlignContent(ContentAlign::Start))
    } else if token_eq(u, "end") {
        Some(StyleMutation::AlignContent(ContentAlign::End))
    } else if token_eq(u, "between") {
        Some(StyleMutation::AlignContent(ContentAlign::Between))
    } else if token_eq(u, "around") {
        Some(StyleMutation::AlignContent(ContentAlign::Around))
    } else if token_eq(u, "evenly") {
        Some(StyleMutation::AlignContent(ContentAlign::Evenly))
    } else if token_eq(u, "stretch") {
        Some(StyleMutation::AlignContent(ContentAlign::Stretch))
    } else {
        None
    }
}

/// The align-items mutation of an `items-` suffix.
pub open spec fn spec_items(u: Seq<char>) -> Option<StyleMutation> {
    if u == "start"@ {
        Some(StyleMutation::AlignItems(ItemsAlign::Start))
    } else if u == "end"@ {
        Some(StyleMutation::AlignItems(ItemsAlign::End))
    } else if u == "center"@ {
        Some(StyleMutation::AlignItems(ItemsAlign::Center))
    } else {
        None
    }
}

fn items_of(u: &Vec<char>) -> (r: Option<StyleMutation>)
    ensures
        r == spec_items(u@),
{
    if token_eq(u, "start") {
        Some(StyleMutation::AlignItems(ItemsAlign::Start))
    } else if token_eq(u, "end") {
        Some(StyleMutation::AlignItems(ItemsAlign::End))
    } else if token_eq(u, "center") {
        Some(StyleMutation::AlignItems(ItemsAlign::Center))
    } else {
        None
    }
}

/// The justify-content mutation of a `justify-` suffix.
pub open spec fn spec_justify(u: Seq<char>) -> Option<StyleMutation> {
    if u == "center"@ {
        Some(StyleMutation::JustifyContent(JustifyKind::Center))
    } else if u == "between"@ {
        Some(StyleMutation::JustifyContent(JustifyKind::Between))
    } else if u == "around"@ {
        Some(StyleMutation::JustifyContent(JustifyKind::Around))
    } else if u == "start"@ {
        Some(StyleMutation::JustifyContent(JustifyKind::Start))
    } else if u == "end"@ {
        Some(StyleMutation::JustifyContent(JustifyKind::End))
    } else {
        None
    }
}

fn justify_of(u: &Vec<char>) -> (r: Option<StyleMutation>)
    ensures
        r == spec_justify(u@),
{
    if token_eq(u, "center") {
        Some(StyleMutation::JustifyContent(JustifyKind::Center))
    } else if token_eq(u, "between") {
        Some(StyleMutation::JustifyContent(JustifyKind::Between))
    } else if token_eq(u, "around") {
        Some(StyleMutation::JustifyContent(JustifyKind::Around))
    } else if token_eq(u, "start") {
        Some(StyleMutation::JustifyContent(JustifyKind::Start))
    } else if token_eq(u, "end") {
        Some(StyleMutation::JustifyContent(JustifyKind::End))
    } else {
        None
    }
}

/// The shadow mutation of a `shadow-` suffix.
pub open spec fn spec_shadow(u: Seq<char>) -> Option<StyleMutation> {
    if u == "sm"@ {
        Some(StyleMutation::Shadow(ShadowSize::Sm))
    } else if u == "md"@ {
        Some(StyleMutation::Shadow(ShadowSize::Md))
    } else if u == "lg"@ {
        Some(StyleMutation::Shadow(ShadowSize::Lg))
    } else if u == "xl"@ {
        Some(StyleMutation::Shadow(ShadowSize::Xl))
    } else if u == "2xl"@ {
        Some(StyleMutation::Shadow(ShadowSize::Xl2))
    } else {
        None
    }
}

fn shadow_of(u: &Vec<char>) -> (r: Option<StyleMutation>)
    ensures
        r == spec_shadow(u@),
{
    if token_eq(u, "sm") {
        Some(StyleMutation::Shadow(ShadowSize::Sm))
    } else if token_eq(u, "md") {
        Some(StyleMutation::Shadow(ShadowSize::Md))
    } else if token_eq(u, "lg") {
        Some(StyleMutation::Shadow(ShadowSize::Lg))
    } else if token_eq(u, "xl") {
        Some(StyleMutation::Shadow(ShadowSize::Xl))
    } else if token_eq(u, "2xl") {
        Some(StyleMutation::Shadow(ShadowSize::Xl2))
    } else {
        None
    }
}

/// The font-weight mutation of a `font-` suffix.
pub open spec fn spec_weight(u: Seq<char>) -> Option<StyleMutation> {
    if u == "thin"@ {
        Some(StyleMutation::FontWeight(FontWeightName::Thin))
    } else if u == "extralight"@ {
        Some(StyleMutation::FontWeight(FontWeightName::ExtraLight))
    } else if u == "light"@ {
        Some(StyleMutation::FontWeight(FontWeightName::Light))
    } else if u == "normal"@ {
        Some(StyleMutation::FontWeight(FontWeightName::Normal))
    } else if u == "medium"@ {
        Some(StyleMutation::FontWeight(FontWeightName::Medium))
    } else if u == "semibold"@ {
        Some(StyleMutation::FontWeight(FontWeightName::SemiBold))
    } else if u == "bold"@ {
        Some(StyleMutation::FontWeight(FontWeightName::Bold))
    } else if u == "extrabold"@ {
        Some(StyleMutation::FontWeight(FontWeightName::ExtraBold))
    } else if u == "black"@ {
        Some(StyleMutation::FontWeight(FontWeightName::Black))
    } else {
        None
    }
}

fn weight_of(u: &Vec<char>) -> (r: Option<StyleMutation>)
    ensures
        r == spec_weight(u@),
{
    if token_eq(u, "thin") {
        Some(StyleMutation::FontWeight(FontWeightName::Thin))
    } else if token_eq(u, "extralight") {
        Some(StyleMutation::FontWeight(FontWeightName::ExtraLight))
    } else if token_eq(u, "light") {
        Some(StyleMutation::FontWeight(FontWeightName::Light))
    } else if token_eq(u, "normal") {
        Some(StyleMutation::FontWeight(FontWeightName::Normal))
    } else if token_eq(u, "medium") {
        Some(StyleMutation::FontWeight(FontWeightName::Medium))
    } else if token_eq(u, "semibold") {
        Some(StyleMutation::FontWeight(FontWeightName::SemiBold))
    } else if token_eq(u, "bold") {
        Some(StyleMutation::FontWeight(FontWeightName::Bold))
    } else if token_eq(u, "extrabold") {
        Some(StyleMutation::FontWeight(FontWeightName::ExtraBold))
    } else if token_eq(u, "black") {
        Some(StyleMutation::FontWeight(FontWeightName::Black))
    } else {
        None
    }
}

/// The text-size mutation of a `text-` suffix.
pub open spec fn spec_textsize(u: Seq<char>) -> Option<StyleMutation> {
    if u == "xs"@ {
        Some(StyleMutation::TextSize(TextSizeStep::Xs))
    } else if u == "sm"@ {
        Some(StyleMutation::TextSize(TextSizeStep::Sm))
    } else if u == "base"@ {
        Some(StyleMutation::TextSize(TextSizeStep::Base))
    } else if u == "lg"@ {
        Some(StyleMutation::TextSize(TextSizeStep::Lg))
    } else if u == "xl"@ {
        Some(StyleMutation::TextSize(TextSizeStep::Xl))
    } else if u == "2xl"@ {
        Some(StyleMutation::TextSize(TextSizeStep::Xl2))
    } else if u == "3xl"@ {
        Some(StyleMutation::TextSize(TextSizeStep::Xl3))
    } else {
        None
    }
}

fn textsize_of(u: &Vec<char>) -> (r: Option<StyleMutation>)
    ensures
        r == spec_textsize(u@),
{
    if token_eq(u, "xs") {
        Some(StyleMutation::TextSize(TextSizeStep::Xs))
    } else if token_eq(u, "sm") {
        Some(StyleMutation::TextSize(TextSizeStep::Sm))
    } else if token_eq(u, "base") {
        Some(StyleMutation::TextSize(TextSizeStep::Base))
    } else if token_eq(u, "lg") {
        Some(StyleMutation::TextSize(TextSizeStep::Lg))
    } else if token_eq(u, "xl") {
        Some(StyleMutation::TextSize(TextSizeStep::Xl))
    } else if token_eq(u, "2xl") {
        Some(StyleMutation::TextSize(TextSizeStep::Xl2))
    } else if token_eq(u, "3xl") {
        Some(StyleMutation::TextSize(TextSizeStep::Xl3))
    } else {
        None
    }
}

/// The cursor mutation of a `cursor-` suffix.
pub open spec fn spec_cursor(u: Seq<char>) -> Option<StyleMutation> {
    if u == "default"@ {
        Some(StyleMutation::Cursor(CursorKind::Default))
    } else if u == "pointer"@ {
        Some(StyleMutation::Cursor(CursorKind::Pointer))
    } else if u == "text"@ {
        Some(StyleMutation::Cursor(CursorKind::Text))
    } else if u == "move"@ {
        Some(StyleMutation::Cursor(CursorKind::Move))
    } else if u == "not-allowed"@ {
        Some(StyleMutation::Cursor(CursorKind::NotAllowed))
    } else if u == "context-menu"@ {
        Some(StyleMutation::Cursor(CursorKind::ContextMenu))
    } else if u == "crosshair"@ {
        Some(StyleMutation::Cursor(CursorKind::Crosshair))
    } else if u == "vertical-text"@ {
        Some(StyleMutation::Cursor(CursorKind::VerticalText))
    } else if u == "alias"@ {
        Some(StyleMutation::Cursor(CursorKind::Alias))
    } else if u == "copy"@ {
        Some(StyleMutation::Cursor(CursorKind::Copy))
    } else if u == "no-drop"@ {
        Some(StyleMutation::Cursor(CursorKind::NoDrop))
    } else if u == "grab"@ {
        Some(StyleMutation::Cursor(CursorKind::Grab))
    } else if u == "grabbing"@ {
        Some(StyleMutation::Cursor(CursorKind::Grabbing))
    } else if u == "col-resize"@ {
        Some(StyleMutation::Cursor(CursorKind::ColResize))
    } else if u == "row-resize"@ {
        Some(StyleMutation::Cursor(CursorKind::RowResize))
    } else if u == "n-resize"@ {
        Some(StyleMutation::Cursor(CursorKind::NResize))
    } else if u == "e-resize"@ {
        Some(StyleMutation::Cursor(CursorKind::EResize))
    } else if u == "s-resize"@ {
        Some(StyleMutation::Cursor(CursorKind::SResize))
    } else if u == "w-resize"@ {
        Some(StyleMutation::Cursor(CursorKind::WResize))
    } else {
        None
    }
}

fn cursor_of(u: &Vec<char>) -> (r: Option<StyleMutation>)
    ensures
        r == spec_cursor(u@),
{
    if token_eq(u, "default") {
        Some(StyleMutation::Cursor(CursorKind::Default))
    } else if token_eq(u, "pointer") {
        Some(StyleMutation::Cursor(CursorKind::Pointer))
    } else if token_eq(u, "text") {
        Some(StyleMutation::Cursor(CursorKind::Text))
    } else if token_eq(u, "move") {
        Some(StyleMutation::Cursor(CursorKind::Move))
    } else if token_eq(u, "not-allowed") {
        Some(StyleMutation::Cursor(CursorKind::NotAllowed))
    } else if token_eq(u, "context-menu") {
        Some(StyleMutation::Cursor(CursorKind::ContextMenu))
    } else if token_eq(u, "crosshair") {
        Some(StyleMutation::Cursor(CursorKind::Crosshair))
    } else if token_eq(u, "vertical-text") {
        Some(StyleMutation::Cursor(CursorKind::VerticalText))
    } else if token_eq(u, "alias") {
        Some(StyleMutation::Cursor(CursorKind::Alias))
    } else if token_eq(u, "copy") {
        Some(StyleMutation::Cursor(CursorKind::Copy))
    } else if token_eq(u, "no-drop") {
        Some(StyleMutation::Cursor(CursorKind::NoDrop))
    } else if token_eq(u, "grab") {
        Some(StyleMutation::Cursor(CursorKind::Grab))
    } else if token_eq(u, "grabbing") {
        Some(StyleMutation::Cursor(CursorKind::Grabbing))
    } else if token_eq(u, "col-resize") {
        Some(StyleMutation::Cursor(CursorKind::ColResize))
    } else if token_eq(u, "row-resize") {
        Some(StyleMutation::Cursor(CursorKind::RowResize))
    } else if token_eq(u, "n-resize") {
        Some(StyleMutation::Cursor(CursorKind::NResize))
    } else if token_eq(u, "e-resize") {
        Some(StyleMutation::Cursor(CursorKind::EResize))
    } else if token_eq(u, "s-resize") {
        Some(StyleMutation::Cursor(CursorKind::SResize))
    } else if token_eq(u, "w-resize") {
        Some(StyleMutation::Cursor(CursorKind::WResize))
    } else {
        None
    }
}

/// The layout-flag mutation of an exact token.
pub open spec fn spec_flag(s: Seq<char>) -> Option<StyleMutation> {
    if s == "flex"@ {
        Some(StyleMutation::Layout(LayoutFlag::Flex))
    } else if s == "flex-grow"@ {
        Some(StyleMutation::Layout(LayoutFlag::FlexGrow))
    } else if s == "flex-shrink"@ {
        Some(StyleMutation::Layout(LayoutFlag::FlexShrink))
    } else if s == "flex-shrink-0"@ {
        Some(StyleMutation::Layout(LayoutFlag::FlexShrink0))
    } else if s == "flex-wrap"@ {
        Some(StyleMutation::Layout(LayoutFlag::FlexWrap))
    } else if s == "flex-wrap-reverse"@ {
        Some(StyleMutation::Layout(LayoutFlag::FlexWrapReverse))
    } else if s == "flex-nowrap"@ {
        Some(StyleMutation::Layout(LayoutFlag::FlexNowrap))
    } else if s == "block"@ {
        Some(StyleMutation::Layout(LayoutFlag::Block))
    } else if s == "absolute"@ {
        Some(StyleMutation::Layout(LayoutFlag::Absolute))
    } else if s == "relative"@ {
        Some(StyleMutation::Layout(LayoutFlag::Relative))
    } else if s == "visible"@ {
        Some(StyleMutation::Layout(LayoutFlag::Visible))
    } else if s == "invisible"@ {
        Some(StyleMutation::Layout(LayoutFlag::Invisible))
    } else if s == "overflow-hidden"@ {
        Some(StyleMutation::Layout(LayoutFlag::OverflowHidden))
    } else if s == "overflow-x-hidden"@ {
        Some(StyleMutation::Layout(LayoutFlag::OverflowXHidden))
    } else if s == "overflow-y-hidden"@ {
        Some(StyleMutation::Layout(LayoutFlag::OverflowYHidden))
    } else if s == "flex-col"@ {
        Some(StyleMutation::Layout(LayoutFlag::FlexCol))
    } else if s == "flex-row"@ {
        Some(StyleMutation::Layout(LayoutFlag::FlexRow))
    } else if s == "flex-col_reverse"@ {
        Some(StyleMutation::Layout(LayoutFlag::FlexColReverse))
    } else if s == "flex-row_reverse"@ {
        Some(StyleMutation::Layout(LayoutFlag::FlexRowReverse))
    } else if s == "flex-1"@ {
        Some(StyleMutation::Layout(LayoutFlag::Flex1))
    } else if s == "flex-auto"@ {
        Some(StyleMutation::Layout(LayoutFlag::FlexAuto))
    } else if s == "flex-initial"@ {
        Some(StyleMutation::Layout(LayoutFlag::FlexInitial))
    } else if s == "flex-none"@ {
        Some(StyleMutation::Layout(LayoutFlag::FlexNone))
    } else {
        None
    }
}

fn flag_of(t: &Vec<char>) -> (r: Option<StyleMutation>)
    ensures
        r == spec_flag(t@),
{
    if token_eq(t, "flex") {
        Some(StyleMutation::Layout(LayoutFlag::Flex))
    } else if token_eq(t, "flex-grow") {
        Some(StyleMutation::Layout(LayoutFlag::FlexGrow))
    } else if token_eq(t, "flex-shrink") {
        Some(StyleMutation::Layout(LayoutFlag::FlexShrink))
    } else if token_eq(t, "flex-shrink-0") {
        Some(StyleMutation::Layout(LayoutFlag::FlexShrink0))
    } else if token_eq(t, "flex-wrap") {
        Some(StyleMutation::Layout(LayoutFlag::FlexWrap))
    } else if token_eq(t, "flex-wrap-reverse") {
        Some(StyleMutation::Layout(LayoutFlag::FlexWrapReverse))
    } else if token_eq(t, "flex-nowrap") {
        Some(StyleMutation::Layout(LayoutFlag::FlexNowrap))
    } else if token_eq(t, "block") {
        Some(StyleMutation::Layout(LayoutFlag::Block))
    } else if token_eq(t, "absolute") {
        Some(StyleMutation::Layout(LayoutFlag::Absolute))
    } else if token_eq(t, "relative") {
        Some(StyleMutation::Layout(LayoutFlag::Relative))
    } else if token_eq(t, "visible") {
        Some(StyleMutation::Layout(LayoutFlag::Visible))
    } else if token_eq(t, "invisible") {
        Some(StyleMutation::Layout(LayoutFlag::Invisible))
    } else if token_eq(t, "overflow-hidden") {
        Some(StyleMutation::Layout(LayoutFlag::OverflowHidden))
    } else if token_eq(t, "overflow-x-hidden") {
        Some(StyleMutation::Layout(LayoutFlag::OverflowXHidden))
    } else if token_eq(t, "overflow-y-hidden") {
        Some(StyleMutation::Layout(LayoutFlag::OverflowYHidden))
    } else if token_eq(t, "flex-col") {
        Some(StyleMutation::Layout(LayoutFlag::FlexCol))
    } else if token_eq(t, "flex-row") {
        Some(StyleMutation::Layout(LayoutFlag::FlexRow))
    } else if token_eq(t, "flex-col_reverse") {
        Some(StyleMutation::Layout(LayoutFlag::FlexColReverse))
    } else if token_eq(t, "flex-row_reverse") {
        Some(StyleMutation::Layout(LayoutFlag::FlexRowReverse))
    } else if token_eq(t, "flex-1") {
        Some(StyleMutation::Layout(LayoutFlag::Flex1))
    } else if token_eq(t, "flex-auto") {
        Some(StyleMutation::Layout(LayoutFlag::FlexAuto))
    } else if token_eq(t, "flex-initial") {
        Some(StyleMutation::Layout(LayoutFlag::FlexInitial))
    } else if token_eq(t, "flex-none") {
        Some(StyleMutation::Layout(LayoutFlag::FlexNone))
    } else {
        None
    }
}

// ------------------------------------------------------------------
// Spacing, sizing and inset groups.
// ------------------------------------------------------------------

/// The inset mutation for one edge, given the token suffix.
pub open spec fn spec_inset_mut(u: Seq<char>, side: Side) -> Option<StyleMutation> {
    match spec_scale(u) {
        Some(st) => if inset_ok(st) {
            Some(StyleMutation::Inset(side, st))
        } else {
            None
        },
        None => None,
    }
}

/// The padding mutation for one side selection, given the token suffix.
pub open spec fn spec_pad_mut(u: Seq<char>, side: BoxSide) -> Option<StyleMutation> {
    match spec_scale(u) {
        Some(st) => if pad_ok(st) {
            Some(StyleMutation::Padding(side, st))
        } else {
            None
        },
        None => None,
    }
}

/// The margin mutation for one side selection, given the token suffix.
pub open spec fn spec_margin_mut(u: Seq<char>, side: BoxSide) -> Option<StyleMutation> {
    match spec_scale(u) {
        Some(st) => if margin_ok(st) {
            Some(StyleMutation::Margin(side, st))
        } else {
            None
        },
        None => None,
    }
}

/// The width / height mutation, given the token suffix.
pub open spec fn spec_wh_mut(u: Seq<char>, target: SizeTarget) -> Option<StyleMutation> {
    match spec_scale(u) {
        Some(st) => if wh_ok(st) {
            Some(StyleMutation::Sizing(target, st))
        } else {
            None
        },
        None => None,
    }
}

/// The unified size mutation (width and height together).
pub open spec fn spec_size_mut(u: Seq<char>) -> Option<StyleMutation> {
    match spec_scale(u) {
        Some(st) => if size_ok(st) {
            Some(StyleMutation::Sizing(SizeTarget::Both, st))
        } else {
            None
        },
        None => None,
    }
}

/// Static border-width tokens: a bare or numbered width, whole box or one edge.
pub open spec fn spec_border_static(u: Seq<char>) -> Option<StyleMutation> {
    if u == "t"@ {
        Some(StyleMutation::BorderWidthStep(BoxSide::Top, BorderStep::Bare))
    } else if u == "r"@ {
        Some(StyleMutation::BorderWidthStep(BoxSide::Right, BorderStep::Bare))
    } else if u == "b"@ {
        Some(StyleMutation::BorderWidthStep(BoxSide::Bottom, BorderStep::Bare))
    } else if u == "l"@ {
        Some(StyleMutation::BorderWidthStep(BoxSide::Left, BorderStep::Bare))
    } else if spec_has_prefix(u, "t-"@) {
        match spec_border_step(u.skip(2)) {
            Some(w) => Some(StyleMutation::BorderWidthStep(BoxSide::Top, w)),
            None => None,
        }
    } else if spec_has_prefix(u, "r-"@) {
        match spec_border_step(u.skip(2)) {
            Some(w) => Some(StyleMutation::BorderWidthStep(BoxSide::Right, w)),
            None => None,
        }
    } else if spec_has_prefix(u, "b-"@) {
        match spec_border_step(u.skip(2)) {
            Some(w) => Some(StyleMutation::BorderWidthStep(BoxSide::Bottom, w)),
            None => None,
        }
    } else if spec_has_prefix(u, "l-"@) {
        match spec_border_step(u.skip(2)) {
            Some(w) => Some(StyleMutation::BorderWidthStep(BoxSide::Left, w)),
            None => None,
        }
    } else {
        match spec_border_step(u) {
            Some(w) => Some(StyleMutation::BorderWidthStep(BoxSide::All, w)),
            None => None,
        }
    }
}

/// Static corner-radius tokens: a named size, whole box, one side or corner.
pub open spec fn spec_rounded_static(u: Seq<char>) -> Option<StyleMutation> {
    if spec_has_prefix(u, "tl-"@) {
        match spec_radius_size(u.skip(3)) {
            Some(z) => Some(StyleMutation::CornerRadiusStep(CornerSet::TopLeft, z)),
            None => None,
        }
    } else if spec_has_prefix(u, "tr-"@) {
        match spec_radius_size(u.skip(3)) {
            Some(z) => Some(StyleMutation::CornerRadiusStep(CornerSet::TopRight, z)),
            None => None,
        }
    } else if spec_has_prefix(u, "br-"@) {
        match spec_radius_size(u.skip(3)) {
            Some(z) => Some(StyleMutation::CornerRadiusStep(CornerSet::BottomRight, z)),
            None => None,
        }
    } else if spec_has_prefix(u, "bl-"@) {
        match spec_radius_size(u.skip(3)) {
            Some(z) => Some(StyleMutation::CornerRadiusStep(CornerSet::BottomLeft, z)),
            None => None,
        }
    } else if spec_has_prefix(u, "t-"@) {
        match spec_radius_size(u.skip(2)) {
            Some(z) => Some(StyleMutation::CornerRadiusStep(CornerSet::Top, z)),
            None => None,
        }
    } else if spec_has_prefix(u, "r-"@) {
        match spec_radius_size(u.skip(2)) {
            Some(z) => Some(StyleMutation::CornerRadiusStep(CornerSet::Right, z)),
            None => None,
        }
    } else if spec_has_prefix(u, "b-"@) {
        match spec_radius_size(u.skip(2)) {
            Some(z) => Some(StyleMutation::CornerRadiusStep(CornerSet::Bottom, z)),
            None => None,
        }
    } else if spec_has_prefix(u, "l-"@) {
        match spec_radius_size(u.skip(2)) {
            Some(z) => Some(StyleMutation::CornerRadiusStep(CornerSet::Left, z)),
            None => None,
        }
    } else {
        match spec_radius_size(u) {
            Some(z) => Some(StyleMutation::CornerRadiusStep(CornerSet::All, z)),
            None => None,
        }
    }
}

/// The exact-match static table, organized by token family.
pub open spec fn spec_static(s: Seq<char>) -> Option<StyleMutation> {
    if spec_flag(s) is Some {
        spec_flag(s)
    } else if s == "border"@ {
        Some(StyleMutation::BorderWidthStep(BoxSide::All, BorderStep::Bare))
    } else if s == "min-h-0"@ {
        Some(StyleMutation::Sizing(SizeTarget::MinHeight, ScaleStep::S0))
    } else if s == "min-h-full"@ {
        Some(StyleMutation::Sizing(SizeTarget::MinHeight, ScaleStep::Full))
    } else if s == "min-w-0"@ {
        Some(StyleMutation::Sizing(SizeTarget::MinWidth, ScaleStep::S0))
    } else if s == "min-w-full"@ {
        Some(StyleMutation::Sizing(SizeTarget::MinWidth, ScaleStep::Full))
    } else if s == "max-h-0"@ {
        Some(StyleMutation::Sizing(SizeTarget::MaxHeight, ScaleStep::S0))
    } else if s == "max-h-full"@ {
        Some(StyleMutation::Sizing(SizeTarget::MaxHeight, ScaleStep::Full))
    } else if s == "max-w-0"@ {
        Some(StyleMutation::Sizing(SizeTarget::MaxWidth, ScaleStep::S0))
    } else if s == "max-w-full"@ {
        Some(StyleMutation::Sizing(SizeTarget::MaxWidth, ScaleStep::Full))
    } else if spec_has_prefix(s, "content-"@) {
        spec_content(s.skip(8))
    } else if spec_has_prefix(s, "items-"@) {
        spec_items(s.skip(6))
    } else if spec_has_prefix(s, "cursor-"@) {
        spec_cursor(s.skip(7))
    } else if spec_has_prefix(s, "justify-"@) {
        spec_justify(s.skip(8))
    } else if spec_has_prefix(s, "shadow-"@) {
        spec_shadow(s.skip(7))
    } else if spec_has_prefix(s, "font-"@) {
        spec_weight(s.skip(5))
    } else if spec_has_prefix(s, "text-"@) {
        spec_textsize(s.skip(5))
    } else if spec_has_prefix(s, "top-"@) {
        spec_inset_mut(s.skip(4), Side::Top)
    } else if spec_has_prefix(s, "right-"@) {
        spec_inset_mut(s.skip(6), Side::Right)
    } else if spec_has_prefix(s, "bottom-"@) {
        spec_inset_mut(s.skip(7), Side::Bottom)
    } else if spec_has_prefix(s, "left-"@) {
        spec_inset_mut(s.skip(5), Side::Left)
    } else if spec_has_prefix(s, "size-"@) {
        spec_size_mut(s.skip(5))
    } else if spec_has_prefix(s, "h-"@) {
        spec_wh_mut(s.skip(2), SizeTarget::Height)
    } else if spec_has_prefix(s, "w-"@) {
        spec_wh_mut(s.skip(2), SizeTarget::Width)
    } else if spec_has_prefix(s, "px-"@) {
        spec_pad_mut(s.skip(3), BoxSide::X)
    } else if spec_has_prefix(s, "py-"@) {
        spec_pad_mut(s.skip(3), BoxSide::Y)
    } else if spec_has_prefix(s, "pt-"@) {
        spec_pad_mut(s.skip(3), BoxSide::Top)
    } else if spec_has_prefix(s, "pr-"@) {
        spec_pad_mut(s.skip(3), BoxSide::Right)
    } else if spec_has_prefix(s, "pb-"@) {
        spec_pad_mut(s.skip(3), BoxSide::Bottom)
    } else if spec_has_prefix(s, "pl-"@) {
        spec_pad_mut(s.skip(3), BoxSide::Left)
    } else if spec_has_prefix(s, "p-"@) {
        spec_pad_mut(s.skip(2), BoxSide::All)
    } else if spec_has_prefix(s, "mx-"@) {
        spec_margin_mut(s.skip(3), BoxSide::X)
    } else if spec_has_prefix(s, "my-"@) {
        spec_margin_mut(s.skip(3), BoxSide::Y)
    } else if spec_has_prefix(s, "mt-"@) {
        spec_margin_mut(s.skip(3), BoxSide::Top)
    } else if spec_has_prefix(s, "mr-"@) {
        spec_margin_mut(s.skip(3), BoxSide::Right)
    } else if spec_has_prefix(s, "mb-"@) {
        spec_margin_mut(s.skip(3), BoxSide::Bottom)
    } else if spec_has_prefix(s, "ml-"@) {
        spec_margin_mut(s.skip(3), BoxSide::Left)
    } else if spec_has_prefix(s, "m-"@) {
        spec_margin_mut(s.skip(2), BoxSide::All)
    } else if spec_has_prefix(s, "rounded-"@) {
        spec_rounded_static(s.skip(8))
    } else if spec_has_prefix(s, "border-"@) {
        spec_border_static(s.skip(7))
    } else {
        None
    }
}

// ------------------------------------------------------------------
// Dynamic prefix rules.
// ------------------------------------------------------------------

/// Index of the first `-` of `s`, or `s.len()` if there is none.
pub open spec fn first_dash(s: Seq<char>) -> int
    decreases s.len(),
{
    if s.len() == 0 {
        0
    } else if s[0] == '-' {
        0
    } else {
        1 + first_dash(s.skip(1))
    }
}

/// The side code of a suffix: everything before its first `-`.
pub open spec fn spec_head(u: Seq<char>) -> Seq<char> {
    u.take(first_dash(u))
}

/// The text after a suffix's side code and its dash; empty when the
/// suffix has no dash.
pub open spec fn spec_side_rest(u: Seq<char>) -> Seq<char> {
    if first_dash(u) < u.len() {
        u.skip(first_dash(u) + 1)
    } else {
        Seq::<char>::empty()
    }
}

/// The corner set selected by a side code (`t`, `r`, `b`, `l`, `tl`, `tr`,
/// `br`, `bl`); anything unrecognized selects all corners.
pub open spec fn spec_corner_of(h: Seq<char>) -> CornerSet {
    if h.len() == 1 {
        if h[0] == 't' {
            CornerSet::Top
        } else if h[0] == 'r' {
            CornerSet::Right
        } else if h[0] == 'b' {
            CornerSet::Bottom
        } else if h[0] == 'l' {
            CornerSet::Left
        } else {
            CornerSet::All
        }
    } else if h.len() == 2 {
        if h[0] == 't' && h[1] == 'l' {
            CornerSet::TopLeft
        } else if h[0] == 't' && h[1] == 'r' {
            CornerSet::TopRight
        } else if h[0] == 'b' && h[1] == 'r' {
            CornerSet::BottomRight
        } else if h[0] == 'b' && h[1] == 'l' {
            CornerSet::BottomLeft
        } else {
            CornerSet::All
        }
    } else {
        CornerSet::All
    }
}

/// The edge selected by a side code (`t`, `r`, `b`, `l`), if it names one.
pub open spec fn spec_edge_of(h: Seq<char>) -> Option<Side> {
    if h.len() == 1 {
        if h[0] == 't' {
            Some(Side::Top)
        } else if h[0] == 'r' {
            Some(Side::Right)
        } else if h[0] == 'b' {
            Some(Side::Bottom)
        } else if h[0] == 'l' {
            Some(Side::Left)
        } else {
            None
        }
    } else {
        None
    }
}

/// The hex color embedded in a `...-[#HEX]` token: the characters after the
/// prefix with the closing bracket (the final character) removed.
pub open spec fn spec_hex_mut(s: Seq<char>, p: int) -> Option<Rgba> {
    if s.len() > p {
        spec_hex_to_rgba(s.subrange(p, s.len() - 1))
    } else {
        None
    }
}

/// The dynamic prefix rules, tried when no exact token matches.
///
/// A recognized side code selects the corners or edge, and the length is
/// parsed from the remaining numeric+unit text after it; with no
/// recognized side code the whole suffix is the length.  Note: a
/// `border-` suffix whose side code is not an edge falls back to a
/// uniform corner radius, not a border width; the behaviour is
/// intentional here.
pub open spec fn spec_dynamic(s: Seq<char>) -> Option<StyleMutation> {
    if spec_has_prefix(s, "bg-[#"@) {
        match spec_hex_mut(s, 5) {
            Some(c) => Some(StyleMutation::BackgroundColor(c)),
            None => None,
        }
    } else if spec_has_prefix(s, "text-color-[#"@) {
        match spec_hex_mut(s, 13) {
            Some(c) => Some(StyleMutation::TextColor(c)),
            None => None,
        }
    } else if spec_has_prefix(s, "border-[#"@) {
        match spec_hex_mut(s, 9) {
            Some(c) => Some(StyleMutation::BorderColor(c)),
            None => None,
        }
    } else if spec_has_prefix(s, "rounded-"@) {
        let u = s.skip(8);
        let corner = spec_corner_of(spec_head(u));
        if corner == CornerSet::All {
            Some(StyleMutation::CornerRadius(CornerSet::All, spec_extract_length(u)))
        } else {
            Some(StyleMutation::CornerRadius(corner, spec_extract_length(spec_side_rest(u))))
        }
    } else if spec_has_prefix(s, "border-"@) {
        let u = s.skip(7);
        match spec_edge_of(spec_head(u)) {
            Some(side) => Some(
                StyleMutation::BorderWidth(side, spec_extract_length(spec_side_rest(u))),
            ),
            None => Some(StyleMutation::CornerRadius(CornerSet::All, spec_extract_length(u))),
        }
    } else {
        None
    }
}

/// Resolution of one utility-class token: the static table first, then the
/// dynamic prefix rules; `None` means the token is unrecognized and the
/// element is left unchanged.
pub open spec fn spec_resolve(s: Seq<char>) -> Option<StyleMutation> {
    if spec_static(s) is Some {
        spec_static(s)
    } else {
        spec_dynamic(s)
    }
}

fn dash_pos(u: &Vec<char>) -> (d: usize)
    ensures
        d as int == first_dash(u@),
        d <= u@.len(),
{
    let n = u.len();
    let mut d: usize = 0;
    proof {
        assert(u@.skip(0) =~= u@);
    }
    while d < n && u[d] != '-'
        invariant
            0 <= d <= n,
            n == u@.len(),
            first_dash(u@) == d + first_dash(u@.skip(d as int)),
        decreases n - d,
    {
        proof {
            assert(u@.skip(d as int)[0] == u@[d as int]);
            assert(u@.skip(d as int).skip(1) =~= u@.skip(d as int + 1));
        }
        d = d + 1;
    }
    proof {
        if d < n {
            assert(u@.skip(d as int)[0] == u@[d as int]);
        }
    }
    d
}

fn corner_of_head(u: &Vec<char>) -> (c: CornerSet)
    ensures
        c == spec_corner_of(spec_head(u@)),
{
    let d = dash_pos(u);
    let ghost h = spec_head(u@);
    proof {
        assert(h.len() == d as int);
    }
    if d == 1 {
        let c0 = u[0];
        proof {
            assert(h =~= seq![u@[0]]);
        }
        if c0 == 't' {
            CornerSet::Top
        } else if c0 == 'r' {
            CornerSet::Right
        } else if c0 == 'b' {
            CornerSet::Bottom
        } else if c0 == 'l' {
            CornerSet::Left
        } else {
            CornerSet::All
        }
    } else if d == 2 {
        let c0 = u[0];
        let c1 = u[1];
        proof {
            assert(h =~= seq![u@[0], u@[1]]);
        }
        if c0 == 't' && c1 == 'l' {
            CornerSet::TopLeft
        } else if c0 == 't' && c1 == 'r' {
            CornerSet::TopRight
        } else if c0 == 'b' && c1 == 'r' {
            CornerSet::BottomRight
        } else if c0 == 'b' && c1 == 'l' {
            CornerSet::BottomLeft
        } else {
            CornerSet::All
        }
    } else {
        CornerSet::All
    }
}

fn edge_of_head(u: &Vec<char>) -> (e: Option<Side>)
    ensures
        e == spec_edge_of(spec_head(u@)),
{
    let d = dash_pos(u);
    let ghost h = spec_head(u@);
    proof {
        assert(h.len() == d as int);
    }
    if d == 1 {
        let c0 = u[0];
        proof {
            assert(h =~= seq![u@[0]]);
        }
        if c0 == 't' {
            Some(Side::Top)
        } else if c0 == 'r' {
            Some(Side::Right)
        } else if c0 == 'b' {
            Some(Side::Bottom)
        } else if c0 == 'l' {
            Some(Side::Left)
        } else {
            None
        }
    } else {
        None
    }
}

fn side_rest(u: &Vec<char>) -> (r: Vec<char>)
    ensures
        r@ == spec_side_rest(u@),
{
    let d = dash_pos(u);
    if d < u.len() {
        chars_from(u, d + 1)
    } else {
        let r: Vec<char> = Vec::new();
        proof {
            assert(r@ =~= spec_side_rest(u@));
        }
        r
    }
}

fn static_lookup(t: &Vec<char>) -> (r: Option<StyleMutation>)
    ensures
        r == spec_static(t@),
{
    let f = flag_of(t);
    if f.is_some() {
        return f;
    }
    if token_eq(t, "border") {
        return Some(StyleMutation::BorderWidthStep(BoxSide::All, BorderStep::Bare));
    }
    if token_eq(t, "min-h-0") {
        return Some(StyleMutation::Sizing(SizeTarget::MinHeight, ScaleStep::S0));
    }
    if token_eq(t, "min-h-full") {
        return Some(StyleMutation::Sizing(SizeTarget::MinHeight, ScaleStep::Full));
    }
    if token_eq(t, "min-w-0") {
        return Some(StyleMutation::Sizing(SizeTarget::MinWidth, ScaleStep::S0));
    }
    if token_eq(t, "min-w-full") {
        return Some(StyleMutation::Sizing(SizeTarget::MinWidth, ScaleStep::Full));
    }
    if token_eq(t, "max-h-0") {
        return Some(StyleMutation::Sizing(SizeTarget::MaxHeight, ScaleStep::S0));
    }
    if token_eq(t, "max-h-full") {
        return Some(StyleMutation::Sizing(SizeTarget::MaxHeight, ScaleStep::Full));
    }
    if token_eq(t, "max-w-0") {
        return Some(StyleMutation::Sizing(SizeTarget::MaxWidth, ScaleStep::S0));
    }
    if token_eq(t, "max-w-full") {
        return Some(StyleMutation::Sizing(SizeTarget::MaxWidth, ScaleStep::Full));
    }
    if has_prefix(t, "content-") {
        proof {
            reveal_strlit("content-");
        }
        return content_of(&chars_from(t, 8));
    }
    if has_prefix(t, "items-") {
        proof {
            reveal_strlit("items-");
        }
        return items_of(&chars_from(t, 6));
    }
    if has_prefix(t, "cursor-") {
        proof {
            reveal_strlit("cursor-");
        }
        return cursor_of(&chars_from(t, 7));
    }
    if has_prefix(t, "justify-") {
        proof {
            reveal_strlit("justify-");
        }
        return justify_of(&chars_from(t, 8));
    }
    if has_prefix(t, "shadow-") {
        proof {
            reveal_strlit("shadow-");
        }
        return shadow_of(&chars_from(t, 7));
    }
    if has_prefix(t, "font-") {
        proof {
            reveal_strlit("font-");
        }
        return weight_of(&chars_from(t, 5));
    }
    if has_prefix(t, "text-") {
        proof {
            reveal_strlit("text-");
        }
        return textsize_of(&chars_from(t, 5));
    }
    if has_prefix(t, "top-") {
        proof {
            reveal_strlit("top-");
        }
        return scaled_inset(&chars_from(t, 4), Side::Top);
    }
    if has_prefix(t, "right-") {
        proof {
            reveal_strlit("right-");
        }
        return scaled_inset(&chars_from(t, 6), Side::Right);
    }
    if has_prefix(t, "bottom-") {
        proof {
            reveal_strlit("bottom-");
        }
        return scaled_inset(&chars_from(t, 7), Side::Bottom);
    }
    if has_prefix(t, "left-") {
        proof {
            reveal_strlit("left-");
        }
        return scaled_inset(&chars_from(t, 5), Side::Left);
    }
    if has_prefix(t, "size-") {
        proof {
            reveal_strlit("size-");
        }
        return scaled_size(&chars_from(t, 5));
    }
    if has_prefix(t, "h-") {
        proof {
            reveal_strlit("h-");
        }
        return scaled_wh(&chars_from(t, 2), SizeTarget::Height);
    }
    if has_prefix(t, "w-") {
        proof {
            reveal_strlit("w-");
        }
        return scaled_wh(&chars_from(t, 2), SizeTarget::Width);
    }
    if has_prefix(t, "px-") {
        proof {
            reveal_strlit("px-");
        }
        return scaled_pad(&chars_from(t, 3), BoxSide::X);
    }
    if has_prefix(t, "py-") {
        proof {
            reveal_strlit("py-");
        }
        return scaled_pad(&chars_from(t, 3), BoxSide::Y);
    }
    if has_prefix(t, "pt-") {
        proof {
            reveal_strlit("pt-");
        }
        return scaled_pad(&chars_from(t, 3), BoxSide::Top);
    }
    if has_prefix(t, "pr-") {
        proof {
            reveal_strlit("pr-");
        }
        return scaled_pad(&chars_from(t, 3), BoxSide::Right);
    }
    if has_prefix(t, "pb-") {
        proof {
            reveal_strlit("pb-");
        }
        return scaled_pad(&chars_from(t, 3), BoxSide::Bottom);
    }
    if has_prefix(t, "pl-") {
        proof {
            reveal_strlit("pl-");
        }
        return scaled_pad(&chars_from(t, 3), BoxSide::Left);
    }
    if has_prefix(t, "p-") {
        proof {
            reveal_strlit("p-");
        }
        return scaled_pad(&chars_from(t, 2), BoxSide::All);
    }
    if has_prefix(t, "mx-") {
        proof {
            reveal_strlit("mx-");
        }
        return scaled_margin(&chars_from(t, 3), BoxSide::X);
    }
    if has_prefix(t, "my-") {
        proof {
            reveal_strlit("my-");
        }
        return scaled_margin(&chars_from(t, 3), BoxSide::Y);
    }
    if has_prefix(t, "mt-") {
        proof {
            reveal_strlit("mt-");
        }
        return scaled_margin(&chars_from(t, 3), BoxSide::Top);
    }
    if has_prefix(t, "mr-") {
        proof {
            reveal_strlit("mr-");
        }
        return scaled_margin(&chars_from(t, 3), BoxSide::Right);
    }
    if has_prefix(t, "mb-") {
        proof {
            reveal_strlit("mb-");
        }
        return scaled_margin(&chars_from(t, 3), BoxSide::Bottom);
    }
    if has_prefix(t, "ml-") {
        proof {
            reveal_strlit("ml-");
        }
        return scaled_margin(&chars_from(t, 3), BoxSide::Left);
    }
    if has_prefix(t, "m-") {
        proof {
            reveal_strlit("m-");
        }
        return scaled_margin(&chars_from(t, 2), BoxSide::All);
    }
    if has_prefix(t, "rounded-") {
        proof {
            reveal_strlit("rounded-");
        }
        return rounded_static(&chars_from(t, 8));
    }
    if has_prefix(t, "border-") {
        proof {
            reveal_strlit("border-");
        }
        return border_static(&chars_from(t, 7));
    }
    None
}

fn scaled_inset(u: &Vec<char>, side: Side) -> (r: Option<StyleMutation>)
    ensures
        r == spec_inset_mut(u@, side),
{
    match scale_of(u) {
        Some(st) => if inset_ok_exec(st) {
            Some(StyleMutation::Inset(side, st))
        } else {
            None
        },
        None => None,
    }
}

fn scaled_pad(u: &Vec<char>, side: BoxSide) -> (r: Option<StyleMutation>)
    ensures
        r == spec_pad_mut(u@, side),
{
    match scale_of(u) {
        Some(st) => if pad_ok_exec(st) {
            Some(StyleMutation::Padding(side, st))
        } else {
            None
        },
        None => None,
    }
}

fn scaled_margin(u: &Vec<char>, side: BoxSide) -> (r: Option<StyleMutation>)
    ensures
        r == spec_margin_mut(u@, side),
{
    match scale_of(u) {
        Some(st) => if margin_ok_exec(st) {
            Some(StyleMutation::Margin(side, st))
        } else {
            None
        },
        None => None,
    }
}

fn scaled_wh(u: &Vec<char>, target: SizeTarget) -> (r: Option<StyleMutation>)
    ensures
        r == spec_wh_mut(u@, target),
{
    match scale_of(u) {
        Some(st) => if wh_ok_exec(st) {
            Some(StyleMutation::Sizing(target, st))
        } else {
            None
        },
        None => None,
    }
}

fn scaled_size(u: &Vec<char>) -> (r: Option<StyleMutation>)
    ensures
        r == spec_size_mut(u@),
{
    match scale_of(u) {
        Some(st) => if size_ok_exec(st) {
            Some(StyleMutation::Sizing(SizeTarget::Both, st))
        } else {
            None
        },
        None => None,
    }
}

fn border_static(u: &Vec<char>) -> (r: Option<StyleMutation>)
    ensures
        r == spec_border_static(u@),
{
    if token_eq(u, "t") {
        return Some(StyleMutation::BorderWidthStep(BoxSide::Top, BorderStep::Bare));
    }
    if token_eq(u, "r") {
        return Some(StyleMutation::BorderWidthStep(BoxSide::Right, BorderStep::Bare));
    }
    if token_eq(u, "b") {
        return Some(StyleMutation::BorderWidthStep(BoxSide::Bottom, BorderStep::Bare));
    }
    if token_eq(u, "l") {
        return Some(StyleMutation::BorderWidthStep(BoxSide::Left, BorderStep::Bare));
    }
    if has_prefix(u, "t-") {
        proof {
            reveal_strlit("t-");
        }
        return match border_step_of(&chars_from(u, 2)) {
            Some(w) => Some(StyleMutation::BorderWidthStep(BoxSide::Top, w)),
            None => None,
        };
    }
    if has_prefix(u, "r-") {
        proof {
            reveal_strlit("r-");
        }
        return match border_step_of(&chars_from(u, 2)) {
            Some(w) => Some(StyleMutation::BorderWidthStep(BoxSide::Right, w)),
            None => None,
        };
    }
    if has_prefix(u, "b-") {
        proof {
            reveal_strlit("b-");
        }
        return match border_step_of(&chars_from(u, 2)) {
            Some(w) => Some(StyleMutation::BorderWidthStep(BoxSide::Bottom, w)),
            None => None,
        };
    }
    if has_prefix(u, "l-") {
        proof {
            reveal_strlit("l-");
        }
        return match border_step_of(&chars_from(u, 2)) {
            Some(w) => Some(StyleMutation::BorderWidthStep(BoxSide::Left, w)),
            None => None,
        };
    }
    match border_step_of(u) {
        Some(w) => Some(StyleMutation::BorderWidthStep(BoxSide::All, w)),
        None => None,
    }
}

fn rounded_static(u: &Vec<char>) -> (r: Option<StyleMutation>)
    ensures
        r == spec_rounded_static(u@),
{
    if has_prefix(u, "tl-") {
        proof {
            reveal_strlit("tl-");
        }
        return match radius_size_of(&chars_from(u, 3)) {
            Some(z) => Some(StyleMutation::CornerRadiusStep(CornerSet::TopLeft, z)),
            None => None,
        };
    }
    if has_prefix(u, "tr-") {
        proof {
            reveal_strlit("tr-");
        }
        return match radius_size_of(&chars_from(u, 3)) {
            Some(z) => Some(StyleMutation::CornerRadiusStep(CornerSet::TopRight, z)),
            None => None,
        };
    }
    if has_prefix(u, "br-") {
        proof {
            reveal_strlit("br-");
        }
        return match radius_size_of(&chars_from(u, 3)) {
            Some(z) => Some(StyleMutation::CornerRadiusStep(CornerSet::BottomRight, z)),
            None => None,
        };
    }
    if has_prefix(u, "bl-") {
        proof {
            reveal_strlit("bl-");
        }
        return match radius_size_of(&chars_from(u, 3)) {
            Some(z) => Some(StyleMutation::CornerRadiusStep(CornerSet::BottomLeft, z)),
            None => None,
        };
    }
    if has_prefix(u, "t-") {
        proof {
            reveal_strlit("t-");
        }
        return match radius_size_of(&chars_from(u, 2)) {
            Some(z) => Some(StyleMutation::CornerRadiusStep(CornerSet::Top, z)),
            None => None,
        };
    }
    if has_prefix(u, "r-") {
        proof {
            reveal_strlit("r-");
        }
        return match radius_size_of(&chars_from(u, 2)) {
            Some(z) => Some(StyleMutation::CornerRadiusStep(CornerSet::Right, z)),
            None => None,
        };
    }
    if has_prefix(u, "b-") {
        proof {
            reveal_strlit("b-");
        }
        return match radius_size_of(&chars_from(u, 2)) {
            Some(z) => Some(StyleMutation::CornerRadiusStep(CornerSet::Bottom, z)),
            None => None,
        };
    }
    if has_prefix(u, "l-") {
        proof {
            reveal_strlit("l-");
        }
        return match radius_size_of(&chars_from(u, 2)) {
            Some(z) => Some(StyleMutation::CornerRadiusStep(CornerSet::Left, z)),
            None => None,
        };
    }
    match radius_size_of(u) {
        Some(z) => Some(StyleMutation::CornerRadiusStep(CornerSet::All, z)),
        None => None,
    }
}

fn dynamic_lookup(t: &Vec<char>) -> (m: Option<StyleMutation>)
    ensures
        m == spec_dynamic(t@),
{
    if has_prefix(t, "bg-[#") {
        proof {
            reveal_strlit("bg-[#");
        }
        if t.len() > 5 {
            let inner = chars_range(t, 5, t.len() - 1);
            return match hex_chars_to_rgba(&inner) {
                Some(c) => Some(StyleMutation::BackgroundColor(c)),
                None => None,
            };
        }
        return None;
    }
    if has_prefix(t, "text-color-[#") {
        proof {
            reveal_strlit("text-color-[#");
        }
        if t.len() > 13 {
            let inner = chars_range(t, 13, t.len() - 1);
            return match hex_chars_to_rgba(&inner) {
                Some(c) => Some(StyleMutation::TextColor(c)),
                None => None,
            };
        }
        return None;
    }
    if has_prefix(t, "border-[#") {
        proof {
            reveal_strlit("border-[#");
        }
        if t.len() > 9 {
            let inner = chars_range(t, 9, t.len() - 1);
            return match hex_chars_to_rgba(&inner) {
                Some(c) => Some(StyleMutation::BorderColor(c)),
                None => None,
            };
        }
        return None;
    }
    if has_prefix(t, "rounded-") {
        proof {
            reveal_strlit("rounded-");
        }
        let u = chars_from(t, 8);
        let corner = corner_of_head(&u);
        return match corner {
            CornerSet::All => Some(
                StyleMutation::CornerRadius(CornerSet::All, extract_length_chars(&u)),
            ),
            _ => Some(
                StyleMutation::CornerRadius(corner, extract_length_chars(&side_rest(&u))),
            ),
        };
    }
    if has_prefix(t, "border-") {
        proof {
            reveal_strlit("border-");
        }
        let u = chars_from(t, 7);
        return match edge_of_head(&u) {
            Some(side) => Some(
                StyleMutation::BorderWidth(side, extract_length_chars(&side_rest(&u))),
            ),
            None => Some(StyleMutation::CornerRadius(CornerSet::All, extract_length_chars(&u))),
        };
    }
    None
}

/// Resolves one utility-class token to its style mutation, if it has one.
pub fn resolve_token(t: &Vec<char>) -> (m: Option<StyleMutation>)
    ensures
        m == spec_resolve(t@),
{
    let st = static_lookup(t);
    if st.is_some() {
        return st;
    }
    dynamic_lookup(t)
}

/// Maps one utility-class token to the style operation it names on the
/// element abstraction, if any.
pub fn tailwind_to_gpui(class_name: &str) -> (m: Option<StyleMutation>)
    ensures
        m == spec_resolve(class_name@),
{
    let t = str_to_chars(class_name);
    resolve_token(&t)
}

// ------------------------------------------------------------------
// Applying a node's attributes to an element's style state.
// ------------------------------------------------------------------

/// The model of an element's style state: an explicit font, if one was set,
/// and the ordered style mutations applied so far.
#[verifier::ext_equal]
pub ghost struct StyleModel {
    pub font: Option<Seq<char>>,
    pub mutations: Seq<StyleMutation>,
}

/// An element's builder-style style state.
#[derive(Debug, PartialEq)]
pub struct ElementStyle {
    pub font: Option<String>,
    pub mutations: Vec<StyleMutation>,
}

impl View for ElementStyle {
    type V = StyleModel;

    open spec fn view(&self) -> StyleModel {
        StyleModel {
            font: match self.font {
                Some(f) => Some(f@),
                None => None,
            },
            mutations: self.mutations@,
        }
    }
}

/// The style state of a freshly constructed element.
pub open spec fn spec_empty_style() -> StyleModel {
    StyleModel { font: None, mutations: Seq::empty() }
}

impl ElementStyle {
    /// A fresh, unstyled state.
    pub fn new() -> (s: ElementStyle)
        ensures
            s@ == spec_empty_style(),
    {
        let s = ElementStyle { font: None, mutations: Vec::new() };
        proof {
            assert(s@ =~= spec_empty_style());
        }
        s
    }
}

/// The views of a sequence of attribute pairs.
pub open spec fn spec_attrs_views(a: Seq<(String, String)>) -> Seq<(Seq<char>, Seq<char>)> {
    a.map_values(|p: (String, String)| (p.0@, p.1@))
}

/// The value of the first attribute named `name`, if any.
pub open spec fn spec_find_attr(attrs: Seq<(Seq<char>, Seq<char>)>, name: Seq<char>) -> Option<
    Seq<char>,
>
    decreases attrs.len(),
{
    if attrs.len() == 0 {
        None
    } else if attrs[0].0 == name {
        Some(attrs[0].1)
    } else {
        spec_find_attr(attrs.skip(1), name)
    }
}

/// The mutations contributed by a token list, in token order; unrecognized
/// tokens contribute nothing.
pub open spec fn spec_mutations_of_tokens(ts: Seq<Seq<char>>) -> Seq<StyleMutation>
    decreases ts.len(),
{
    if ts.len() == 0 {
        Seq::empty()
    } else {
        (match spec_resolve(ts[0]) {
            Some(m) => seq![m],
            None => Seq::<StyleMutation>::empty(),
        }) + spec_mutations_of_tokens(ts.skip(1))
    }
}

/// The mutations contributed by a whole `class` attribute value.
pub open spec fn spec_class_mutations(v: Seq<char>) -> Seq<StyleMutation> {
    spec_mutations_of_tokens(spec_split_ws(v))
}

/// The style state after applying a node's attributes: a `font` attribute
/// replaces the font, and every recognized token of the `class` attribute
/// appends its mutation, in order.
pub open spec fn spec_apply_attrs(
    st: StyleModel,
    attrs: Seq<(Seq<char>, Seq<char>)>,
) -> StyleModel {
    StyleModel {
        font: match spec_find_attr(attrs, "font"@) {
            Some(v) => Some(v),
            None => st.font,
        },
        mutations: st.mutations + match spec_find_attr(attrs, "class"@) {
            Some(v) => spec_class_mutations(v),
            None => Seq::<StyleMutation>::empty(),
        },
    }
}

/// The value of the first attribute with the given name, if any.
pub fn find_attr(attrs: &Vec<(String, String)>, name: &str) -> (r: Option<String>)
    ensures
        (match r {
            Some(v) => Some(v@),
            None => None,
        }) == spec_find_attr(spec_attrs_views(attrs@), name@),
{
    let ghost views = spec_attrs_views(attrs@);
    let n = attrs.len();
    let mut i: usize = 0;
    proof {
        assert(views.skip(0) =~= views);
    }
    while i < n
        invariant
            0 <= i <= n,
            n == attrs@.len(),
            views == spec_attrs_views(attrs@),
            views.len() == n,
            spec_find_attr(views, name@) == spec_find_attr(views.skip(i as int), name@),
        decreases n - i,
    {
        proof {
            assert(views.skip(i as int)[0] == views[i as int]);
            assert(views.skip(i as int).skip(1) =~= views.skip(i as int + 1));
        }
        if str_eq(attrs[i].0.as_str(), name) {
            return Some(attrs[i].1.clone());
        }
        i = i + 1;
    }
    None
}

/// Applies a node's attributes to an element's style state: the `font`
/// passthrough first, then each token of the `class` attribute in order.
pub fn set_attributes(style: &mut ElementStyle, attributes: &Vec<(String, String)>)
    ensures
        final(style)@ == spec_apply_attrs(old(style)@, spec_attrs_views(attributes@)),
{
    let ghost attrs = spec_attrs_views(attributes@);
    let fa = find_attr(attributes, "font");
    match fa {
        Some(f) => {
            style.font = Some(f);
        },
        None => {},
    }
    let ghost fsnap = style.font;
    let ca = find_attr(attributes, "class");
    match ca {
        Some(cv) => {
            let cchars = str_to_chars(cv.as_str());
            let toks = split_ws(&cchars);
            let ghost tviews = seq_views(toks@);
            let ghost base = style.mutations@;
            let n = toks.len();
            let mut i: usize = 0;
            proof {
                assert(tviews.skip(0) =~= tviews);
                assert(base.take(base.len() as int) =~= base);
                assert(base.skip(base.len() as int) =~= Seq::<StyleMutation>::empty());
            }
            while i < n
                invariant
                    0 <= i <= n,
                    n == toks@.len(),
                    tviews == seq_views(toks@),
                    tviews.len() == n,
                    style.font == fsnap,
                    style.mutations@.len() >= base.len(),
                    style.mutations@.take(base.len() as int) == base,
                    spec_mutations_of_tokens(tviews) == style.mutations@.skip(base.len() as int)
                        + spec_mutations_of_tokens(tviews.skip(i as int)),
                decreases n - i,
            {
                proof {
                    assert(tviews.skip(i as int)[0] == tviews[i as int]);
                    assert(tviews[i as int] == toks@[i as int]@);
                    assert(tviews.skip(i as int).skip(1) =~= tviews.skip(i as int + 1));
                }
                let m = resolve_token(&toks[i]);
                match m {
                    Some(mu) => {
                        let ghost pre = style.mutations@;
                        style.mutations.push(mu);
                        proof {
                            let b = base.len() as int;
                            let rest = spec_mutations_of_tokens(tviews.skip(i as int + 1));
                            assert(style.mutations@.take(b) =~= base);
                            assert(style.mutations@.skip(b) =~= pre.skip(b) + seq![mu]);
                            assert(pre.skip(b) + (seq![mu] + rest) =~= (pre.skip(b) + seq![mu])
                                + rest);
                        }
                    },
                    None => {},
                }
                i = i + 1;
            }
            proof {
                let b = base.len() as int;
                assert(spec_mutations_of_tokens(tviews.skip(n as int)) =~= Seq::<
                    StyleMutation,
                >::empty());
                assert(style.mutations@.skip(b) + Seq::<StyleMutation>::empty() =~= style.mutations@.skip(
                    b,
                ));
                assert(style.mutations@ =~= base + style.mutations@.skip(b));
                assert(style@ =~= spec_apply_attrs(old(style)@, attrs));
            }
        },
        None => {
            proof {
                assert(style.mutations@ + Seq::<StyleMutation>::empty() =~= style.mutations@);
                assert(style@ =~= spec_apply_attrs(old(style)@, attrs));
            }
        },
    }
}

} // verus!
