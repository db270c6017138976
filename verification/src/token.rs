//! The fixed tokens of the schema: each enumerated value is written as one
//! upper-case token, and nothing else names it.

use vstd::prelude::*;
use crate::error::{plain_of, type_mismatch, unknown_variant, DecodeError, Decoded};
use crate::field::{read_required, required};
use crate::file::{
    AlignItems, BlendMode, ConstraintKind, EasingType, HorizontalLayoutConstraint, LayoutAlign,
    LayoutGridPattern, LayoutMode, LineHeightUnit, NodeKind, PaintKind, ScaleMode, SizingMode,
    StrokeAlign, TextAutoResizeType, TextCase, TextHorizontalAlignment, TextVerticalAlignment,
    VerticalLayoutConstraint,
};
use crate::raw::{same_text, Json, Raw};

verus! {

/// A type whose values are written as fixed tokens.
pub trait Token: Sized {
    /// The value that `token` names, if it names one.
    spec fn named(token: Seq<char>) -> Option<Self>;

    /// The name by which errors speak of the type.
    spec fn label() -> Seq<char>;

    /// The value that `token` names.
    fn from_token(token: &str) -> (r: Option<Self>)
        ensures
            r == Self::named(token@),
    ;

    /// The name by which errors speak of the type.
    fn name() -> (r: &'static str)
        ensures
            r@ == Self::label(),
    ;
}

/// The value that a token standing at `field` names.
pub open spec fn token_of<T: Token>(v: Json, field: Seq<char>) -> Decoded<T> {
    match v {
        Json::String(s) => match T::named(s) {
            Some(t) => Ok(t),
            None => Err(type_mismatch(field, T::label(), v)),
        },
        _ => Err(type_mismatch(field, T::label(), v)),
    }
}

/// The token at the required field `key`.
pub open spec fn token_field<T: Token>(
    obj: Json,
    key: Seq<char>,
    container: Seq<char>,
) -> Decoded<T> {
    match required(obj, key, container) {
        Ok(v) => token_of::<T>(v, key),
        Err(e) => Err(e),
    }
}

/// A token that stands for `default` where the field is absent.
pub open spec fn token_field_or<T: Token>(obj: Json, key: Seq<char>, default: T) -> Decoded<T> {
    match obj.field(key) {
        Some(v) => token_of::<T>(v, key),
        None => Ok(default),
    }
}

/// The variant that the discriminant of `obj`, its field `type`, selects
/// in the union `T`.
pub open spec fn tag_of<T: Token>(obj: Json) -> Decoded<T> {
    match required(obj, "type"@, T::label()) {
        Ok(Json::String(s)) => match T::named(s) {
            Some(t) => Ok(t),
            None => Err(unknown_variant(s, T::label())),
        },
        Ok(v) => Err(type_mismatch("type"@, "string"@, v)),
        Err(e) => Err(e),
    }
}

/// Reads the token standing at `field`.
pub fn read_token<T: Token>(v: &Raw, field: &str) -> (r: Result<T, DecodeError>)
    ensures
        plain_of(r) == token_of::<T>(v@, field@),
{
    match v {
        Raw::String(s) => match T::from_token(s.as_str()) {
            Some(t) => Ok(t),
            None => Err(DecodeError::mismatch(field, T::name(), v)),
        },
        _ => Err(DecodeError::mismatch(field, T::name(), v)),
    }
}

/// Reads the token at the required field `key`.
pub fn read_token_field<T: Token>(obj: &Raw, key: &str, container: &str) -> (r: Result<T, DecodeError>)
    ensures
        plain_of(r) == token_field::<T>(obj@, key@, container@),
{
    read_token(read_required(obj, key, container)?, key)
}

/// Reads the token at `key`, or takes `default` where the field is absent.
pub fn read_token_field_or<T: Token>(obj: &Raw, key: &str, default: T) -> (r: Result<T, DecodeError>)
    ensures
        plain_of(r) == token_field_or::<T>(obj@, key@, default),
{
    match obj.get(key) {
        Some(v) => read_token(v, key),
        None => Ok(default),
    }
}

/// Reads the discriminant of a union, the field `type` of `obj`.
pub fn read_tag<T: Token>(obj: &Raw) -> (r: Result<T, DecodeError>)
    ensures
        plain_of(r) == tag_of::<T>(obj@),
{
    let v = read_required(obj, "type", T::name())?;
    match v {
        Raw::String(s) => match T::from_token(s.as_str()) {
            Some(t) => Ok(t),
            None => Err(DecodeError::unknown(s.as_str(), T::name())),
        },
        _ => Err(DecodeError::mismatch("type", "string", v)),
    }
}

/// A token outside the fixed set of its type is refused as a mismatch,
/// whether or not the field has a default: no value is put in its place.
pub proof fn lemma_foreign_token_is_refused<T: Token>(
    obj: Json,
    key: Seq<char>,
    container: Seq<char>,
    token: Seq<char>,
    default: T,
)
    requires
        obj.field(key) == Some(Json::String(token)),
        T::named(token) is None,
    ensures
        token_of::<T>(Json::String(token), key) == Err::<T, _>(
            type_mismatch(key, T::label(), Json::String(token)),
        ),
        token_field::<T>(obj, key, container) == Err::<T, _>(
            type_mismatch(key, T::label(), Json::String(token)),
        ),
        token_field_or::<T>(obj, key, default) == Err::<T, _>(
            type_mismatch(key, T::label(), Json::String(token)),
        ),
{
}

/// A discriminant that names no variant of the union is refused as an
/// unknown variant.
pub proof fn lemma_foreign_tag_is_refused<T: Token>(obj: Json, tag: Seq<char>)
    requires
        obj.field("type"@) == Some(Json::String(tag)),
        T::named(tag) is None,
    ensures
        tag_of::<T>(obj) == Err::<T, _>(unknown_variant(tag, T::label())),
{
}

impl Token for TextAutoResizeType {
    open spec fn named(token: Seq<char>) -> Option<Self> {
        if token == "HEIGHT"@ {
            Some(TextAutoResizeType::Height)
        } else if token == "WIDTH_AND_HEIGHT"@ {
            Some(TextAutoResizeType::WidthAndHeight)
        } else if token == "NONE"@ {
            Some(TextAutoResizeType::NoResize)
        } else {
            None
        }
    }

    open spec fn label() -> Seq<char> {
        "TextAutoResizeType"@
    }

    fn from_token(token: &str) -> (r: Option<Self>) {
        if same_text(token, "HEIGHT") {
            Some(TextAutoResizeType::Height)
        } else if same_text(token, "WIDTH_AND_HEIGHT") {
            Some(TextAutoResizeType::WidthAndHeight)
        } else if same_text(token, "NONE") {
            Some(TextAutoResizeType::NoResize)
        } else {
            None
        }
    }

    fn name() -> (r: &'static str) {
        "TextAutoResizeType"
    }
}

impl Token for TextHorizontalAlignment {
    open spec fn named(token: Seq<char>) -> Option<Self> {
        if token == "LEFT"@ {
            Some(TextHorizontalAlignment::Left)
        } else if token == "RIGHT"@ {
            Some(TextHorizontalAlignment::Right)
        } else if token == "CENTER"@ {
            Some(TextHorizontalAlignment::Center)
        } else if token == "JUSTIFIED"@ {
            Some(TextHorizontalAlignment::Justified)
        } else {
            None
        }
    }

    open spec fn label() -> Seq<char> {
        "TextHorizontalAlignment"@
    }

    fn from_token(token: &str) -> (r: Option<Self>) {
        if same_text(token, "LEFT") {
            Some(TextHorizontalAlignment::Left)
        } else if same_text(token, "RIGHT") {
            Some(TextHorizontalAlignment::Right)
        } else if same_text(token, "CENTER") {
            Some(TextHorizontalAlignment::Center)
        } else if same_text(token, "JUSTIFIED") {
            Some(TextHorizontalAlignment::Justified)
        } else {
            None
        }
    }

    fn name() -> (r: &'static str) {
        "TextHorizontalAlignment"
    }
}

impl Token for TextVerticalAlignment {
    open spec fn named(token: Seq<char>) -> Option<Self> {
        if token == "TOP"@ {
            Some(TextVerticalAlignment::Top)
        } else if token == "CENTER"@ {
            Some(TextVerticalAlignment::Center)
        } else if token == "BOTTOM"@ {
            Some(TextVerticalAlignment::Bottom)
        } else {
            None
        }
    }

    open spec fn label() -> Seq<char> {
        "TextVerticalAlignment"@
    }

    fn from_token(token: &str) -> (r: Option<Self>) {
        if same_text(token, "TOP") {
            Some(TextVerticalAlignment::Top)
        } else if same_text(token, "CENTER") {
            Some(TextVerticalAlignment::Center)
        } else if same_text(token, "BOTTOM") {
            Some(TextVerticalAlignment::Bottom)
        } else {
            None
        }
    }

    fn name() -> (r: &'static str) {
        "TextVerticalAlignment"
    }
}

impl Token for LineHeightUnit {
    open spec fn named(token: Seq<char>) -> Option<Self> {
        if token == "PIXELS"@ {
            Some(LineHeightUnit::Pixels)
        } else if token == "FONT_SIZE_%"@ {
            Some(LineHeightUnit::FontSize)
        } else if token == "INTRINSIC_%"@ {
            Some(LineHeightUnit::Intrinsic)
        } else {
            None
        }
    }

    open spec fn label() -> Seq<char> {
        "LineHeightUnit"@
    }

    fn from_token(token: &str) -> (r: Option<Self>) {
        if same_text(token, "PIXELS") {
            Some(LineHeightUnit::Pixels)
        } else if same_text(token, "FONT_SIZE_%") {
            Some(LineHeightUnit::FontSize)
        } else if same_text(token, "INTRINSIC_%") {
            Some(LineHeightUnit::Intrinsic)
        } else {
            None
        }
    }

    fn name() -> (r: &'static str) {
        "LineHeightUnit"
    }
}

impl Token for TextCase {
    open spec fn named(token: Seq<char>) -> Option<Self> {
        if token == "UPPER"@ {
            Some(TextCase::Upper)
        } else if token == "LOWER"@ {
            Some(TextCase::Lower)
        } else if token == "TITLE"@ {
            Some(TextCase::Title)
        } else if token == "SMALL_CAPS"@ {
            Some(TextCase::SmallCaps)
        } else if token == "SMALL_CAPS_FORCED"@ {
            Some(TextCase::SmallCapsForced)
        } else if token == "ORIGINAL"@ {
            Some(TextCase::Original)
        } else {
            None
        }
    }

    open spec fn label() -> Seq<char> {
        "TextCase"@
    }

    fn from_token(token: &str) -> (r: Option<Self>) {
        if same_text(token, "UPPER") {
            Some(TextCase::Upper)
        } else if same_text(token, "LOWER") {
            Some(TextCase::Lower)
        } else if same_text(token, "TITLE") {
            Some(TextCase::Title)
        } else if same_text(token, "SMALL_CAPS") {
            Some(TextCase::SmallCaps)
        } else if same_text(token, "SMALL_CAPS_FORCED") {
            Some(TextCase::SmallCapsForced)
        } else if same_text(token, "ORIGINAL") {
            Some(TextCase::Original)
        } else {
            None
        }
    }

    fn name() -> (r: &'static str) {
        "TextCase"
    }
}

impl Token for BlendMode {
    open spec fn named(token: Seq<char>) -> Option<Self> {
        if token == "PASS_THROUGH"@ {
            Some(BlendMode::PassThrough)
        } else if token == "NORMAL"@ {
            Some(BlendMode::Normal)
        } else if token == "DARKEN"@ {
            Some(BlendMode::Darken)
        } else if token == "MULTIPLY"@ {
            Some(BlendMode::Multiply)
        } else if token == "LINEAR_BURN"@ {
            Some(BlendMode::LinearBurn)
        } else if token == "COLOR_BURN"@ {
            Some(BlendMode::ColorBurn)
        } else if token == "LIGHTEN"@ {
            Some(BlendMode::Lighten)
        } else if token == "SCREEN"@ {
            Some(BlendMode::Screen)
        } else if token == "LINEAR_DODGE"@ {
            Some(BlendMode::LinearDodge)
        } else if token == "COLOR_DODGE"@ {
            Some(BlendMode::ColorDodge)
        } else if token == "OVERLAY"@ {
            Some(BlendMode::Overlay)
        } else if token == "SOFT_LIGHT"@ {
            Some(BlendMode::SoftLight)
        } else if token == "HARD_LIGHT"@ {
            Some(BlendMode::HardLight)
        } else if token == "DIFFERENCE"@ {
            Some(BlendMode::Difference)
        } else if token == "EXCLUSION"@ {
            Some(BlendMode::Exclusion)
        } else if token == "HUE"@ {
            Some(BlendMode::Hue)
        } else if token == "SATURATION"@ {
            Some(BlendMode::Saturation)
        } else if token == "COLOR"@ {
            Some(BlendMode::Color)
        } else if token == "LUMINOSITY"@ {
            Some(BlendMode::Luminosity)
        } else {
            None
        }
    }

    open spec fn label() -> Seq<char> {
        "BlendMode"@
    }

    fn from_token(token: &str) -> (r: Option<Self>) {
        if same_text(token, "PASS_THROUGH") {
            Some(BlendMode::PassThrough)
        } else if same_text(token, "NORMAL") {
            Some(BlendMode::Normal)
        } else if same_text(token, "DARKEN") {
            Some(BlendMode::Darken)
        } else if same_text(token, "MULTIPLY") {
            Some(BlendMode::Multiply)
        } else if same_text(token, "LINEAR_BURN") {
            Some(BlendMode::LinearBurn)
        } else if same_text(token, "COLOR_BURN") {
            Some(BlendMode::ColorBurn)
        } else if same_text(token, "LIGHTEN") {
            Some(BlendMode::Lighten)
        } else if same_text(token, "SCREEN") {
            Some(BlendMode::Screen)
        } else if same_text(token, "LINEAR_DODGE") {
            Some(BlendMode::LinearDodge)
        } else if same_text(token, "COLOR_DODGE") {
            Some(BlendMode::ColorDodge)
        } else if same_text(token, "OVERLAY") {
            Some(BlendMode::Overlay)
        } else if same_text(token, "SOFT_LIGHT") {
            Some(BlendMode::SoftLight)
        } else if same_text(token, "HARD_LIGHT") {
            Some(BlendMode::HardLight)
        } else if same_text(token, "DIFFERENCE") {
            Some(BlendMode::Difference)
        } else if same_text(token, "EXCLUSION") {
            Some(BlendMode::Exclusion)
        } else if same_text(token, "HUE") {
            Some(BlendMode::Hue)
        } else if same_text(token, "SATURATION") {
            Some(BlendMode::Saturation)
        } else if same_text(token, "COLOR") {
            Some(BlendMode::Color)
        } else if same_text(token, "LUMINOSITY") {
            Some(BlendMode::Luminosity)
        } else {
            None
        }
    }

    fn name() -> (r: &'static str) {
        "BlendMode"
    }
}

impl Token for ScaleMode {
    open spec fn named(token: Seq<char>) -> Option<Self> {
        if token == "FILL"@ {
            Some(ScaleMode::Fill)
        } else if token == "FIT"@ {
            Some(ScaleMode::Fit)
        } else if token == "TILE"@ {
            Some(ScaleMode::Tile)
        } else if token == "STRETCH"@ {
            Some(ScaleMode::Stretch)
        } else {
            None
        }
    }

    open spec fn label() -> Seq<char> {
        "ScaleMode"@
    }

    fn from_token(token: &str) -> (r: Option<Self>) {
        if same_text(token, "FILL") {
            Some(ScaleMode::Fill)
        } else if same_text(token, "FIT") {
            Some(ScaleMode::Fit)
        } else if same_text(token, "TILE") {
            Some(ScaleMode::Tile)
        } else if same_text(token, "STRETCH") {
            Some(ScaleMode::Stretch)
        } else {
            None
        }
    }

    fn name() -> (r: &'static str) {
        "ScaleMode"
    }
}

impl Token for StrokeAlign {
    open spec fn named(token: Seq<char>) -> Option<Self> {
        if token == "INSIDE"@ {
            Some(StrokeAlign::Inside)
        } else if token == "OUTSIDE"@ {
            Some(StrokeAlign::Outside)
        } else if token == "CENTER"@ {
            Some(StrokeAlign::Center)
        } else {
            None
        }
    }

    open spec fn label() -> Seq<char> {
        "StrokeAlign"@
    }

    fn from_token(token: &str) -> (r: Option<Self>) {
        if same_text(token, "INSIDE") {
            Some(StrokeAlign::Inside)
        } else if same_text(token, "OUTSIDE") {
            Some(StrokeAlign::Outside)
        } else if same_text(token, "CENTER") {
            Some(StrokeAlign::Center)
        } else {
            None
        }
    }

    fn name() -> (r: &'static str) {
        "StrokeAlign"
    }
}

impl Token for VerticalLayoutConstraint {
    open spec fn named(token: Seq<char>) -> Option<Self> {
        if token == "TOP"@ {
            Some(VerticalLayoutConstraint::Top)
        } else if token == "BOTTOM"@ {
            Some(VerticalLayoutConstraint::Bottom)
        } else if token == "CENTER"@ {
            Some(VerticalLayoutConstraint::Center)
        } else if token == "TOP_BOTTOM"@ {
            Some(VerticalLayoutConstraint::TopBottom)
        } else if token == "SCALE"@ {
            Some(VerticalLayoutConstraint::Scale)
        } else {
            None
        }
    }

    open spec fn label() -> Seq<char> {
        "VerticalLayoutConstraint"@
    }

    fn from_token(token: &str) -> (r: Option<Self>) {
        if same_text(token, "TOP") {
            Some(VerticalLayoutConstraint::Top)
        } else if same_text(token, "BOTTOM") {
            Some(VerticalLayoutConstraint::Bottom)
        } else if same_text(token, "CENTER") {
            Some(VerticalLayoutConstraint::Center)
        } else if same_text(token, "TOP_BOTTOM") {
            Some(VerticalLayoutConstraint::TopBottom)
        } else if same_text(token, "SCALE") {
            Some(VerticalLayoutConstraint::Scale)
        } else {
            None
        }
    }

    fn name() -> (r: &'static str) {
        "VerticalLayoutConstraint"
    }
}

impl Token for HorizontalLayoutConstraint {
    open spec fn named(token: Seq<char>) -> Option<Self> {
        if token == "LEFT"@ {
            Some(HorizontalLayoutConstraint::Left)
        } else if token == "RIGHT"@ {
            Some(HorizontalLayoutConstraint::Right)
        } else if token == "CENTER"@ {
            Some(HorizontalLayoutConstraint::Center)
        } else if token == "LEFT_RIGHT"@ {
            Some(HorizontalLayoutConstraint::LeftRight)
        } else if token == "SCALE"@ {
            Some(HorizontalLayoutConstraint::Scale)
        } else {
            None
        }
    }

    open spec fn label() -> Seq<char> {
        "HorizontalLayoutConstraint"@
    }

    fn from_token(token: &str) -> (r: Option<Self>) {
        if same_text(token, "LEFT") {
            Some(HorizontalLayoutConstraint::Left)
        } else if same_text(token, "RIGHT") {
            Some(HorizontalLayoutConstraint::Right)
        } else if same_text(token, "CENTER") {
            Some(HorizontalLayoutConstraint::Center)
        } else if same_text(token, "LEFT_RIGHT") {
            Some(HorizontalLayoutConstraint::LeftRight)
        } else if same_text(token, "SCALE") {
            Some(HorizontalLayoutConstraint::Scale)
        } else {
            None
        }
    }

    fn name() -> (r: &'static str) {
        "HorizontalLayoutConstraint"
    }
}

impl Token for LayoutAlign {
    open spec fn named(token: Seq<char>) -> Option<Self> {
        if token == "INHERIT"@ {
            Some(LayoutAlign::Inherit)
        } else if token == "STRETCH"@ {
            Some(LayoutAlign::Stretch)
        } else if token == "MIN"@ {
            Some(LayoutAlign::Min)
        } else if token == "CENTER"@ {
            Some(LayoutAlign::Center)
        } else if token == "MAX"@ {
            Some(LayoutAlign::Max)
        } else {
            None
        }
    }

    open spec fn label() -> Seq<char> {
        "LayoutAlign"@
    }

    fn from_token(token: &str) -> (r: Option<Self>) {
        if same_text(token, "INHERIT") {
            Some(LayoutAlign::Inherit)
        } else if same_text(token, "STRETCH") {
            Some(LayoutAlign::Stretch)
        } else if same_text(token, "MIN") {
            Some(LayoutAlign::Min)
        } else if same_text(token, "CENTER") {
            Some(LayoutAlign::Center)
        } else if same_text(token, "MAX") {
            Some(LayoutAlign::Max)
        } else {
            None
        }
    }

    fn name() -> (r: &'static str) {
        "LayoutAlign"
    }
}

impl Token for LayoutMode {
    open spec fn named(token: Seq<char>) -> Option<Self> {
        if token == "NONE"@ {
            Some(LayoutMode::NoLayout)
        } else if token == "HORIZONTAL"@ {
            Some(LayoutMode::Horizontal)
        } else if token == "VERTICAL"@ {
            Some(LayoutMode::Vertical)
        } else {
            None
        }
    }

    open spec fn label() -> Seq<char> {
        "LayoutMode"@
    }

    fn from_token(token: &str) -> (r: Option<Self>) {
        if same_text(token, "NONE") {
            Some(LayoutMode::NoLayout)
        } else if same_text(token, "HORIZONTAL") {
            Some(LayoutMode::Horizontal)
        } else if same_text(token, "VERTICAL") {
            Some(LayoutMode::Vertical)
        } else {
            None
        }
    }

    fn name() -> (r: &'static str) {
        "LayoutMode"
    }
}

impl Token for LayoutGridPattern {
    open spec fn named(token: Seq<char>) -> Option<Self> {
        if token == "COLUMNS"@ {
            Some(LayoutGridPattern::Columns)
        } else if token == "ROWS"@ {
            Some(LayoutGridPattern::Rows)
        } else if token == "GRID"@ {
            Some(LayoutGridPattern::Grid)
        } else {
            None
        }
    }

    open spec fn label() -> Seq<char> {
        "LayoutGridPattern"@
    }

    fn from_token(token: &str) -> (r: Option<Self>) {
        if same_text(token, "COLUMNS") {
            Some(LayoutGridPattern::Columns)
        } else if same_text(token, "ROWS") {
            Some(LayoutGridPattern::Rows)
        } else if same_text(token, "GRID") {
            Some(LayoutGridPattern::Grid)
        } else {
            None
        }
    }

    fn name() -> (r: &'static str) {
        "LayoutGridPattern"
    }
}

impl Token for EasingType {
    open spec fn named(token: Seq<char>) -> Option<Self> {
        if token == "EASE_IN"@ {
            Some(EasingType::EaseIn)
        } else if token == "EASE_OUT"@ {
            Some(EasingType::EaseOut)
        } else if token == "EASE_IN_AND_OUT"@ {
            Some(EasingType::EaseInAndOut)
        } else if token == "LINEAR"@ {
            Some(EasingType::Linear)
        } else {
            None
        }
    }

    open spec fn label() -> Seq<char> {
        "EasingType"@
    }

    fn from_token(token: &str) -> (r: Option<Self>) {
        if same_text(token, "EASE_IN") {
            Some(EasingType::EaseIn)
        } else if same_text(token, "EASE_OUT") {
            Some(EasingType::EaseOut)
        } else if same_text(token, "EASE_IN_AND_OUT") {
            Some(EasingType::EaseInAndOut)
        } else if same_text(token, "LINEAR") {
            Some(EasingType::Linear)
        } else {
            None
        }
    }

    fn name() -> (r: &'static str) {
        "EasingType"
    }
}

impl Token for SizingMode {
    open spec fn named(token: Seq<char>) -> Option<Self> {
        if token == "FIXED"@ {
            Some(SizingMode::Fixed)
        } else if token == "AUTO"@ {
            Some(SizingMode::Auto)
        } else {
            None
        }
    }

    open spec fn label() -> Seq<char> {
        "SizingMode"@
    }

    fn from_token(token: &str) -> (r: Option<Self>) {
        if same_text(token, "FIXED") {
            Some(SizingMode::Fixed)
        } else if same_text(token, "AUTO") {
            Some(SizingMode::Auto)
        } else {
            None
        }
    }

    fn name() -> (r: &'static str) {
        "SizingMode"
    }
}

impl Token for AlignItems {
    open spec fn named(token: Seq<char>) -> Option<Self> {
        if token == "MIN"@ {
            Some(AlignItems::Min)
        } else if token == "CENTER"@ {
            Some(AlignItems::Center)
        } else if token == "MAX"@ {
            Some(AlignItems::Max)
        } else if token == "SPACE_BETWEEN"@ {
            Some(AlignItems::SpaceBetween)
        } else {
            None
        }
    }

    open spec fn label() -> Seq<char> {
        "AlignItems"@
    }

    fn from_token(token: &str) -> (r: Option<Self>) {
        if same_text(token, "MIN") {
            Some(AlignItems::Min)
        } else if same_text(token, "CENTER") {
            Some(AlignItems::Center)
        } else if same_text(token, "MAX") {
            Some(AlignItems::Max)
        } else if same_text(token, "SPACE_BETWEEN") {
            Some(AlignItems::SpaceBetween)
        } else {
            None
        }
    }

    fn name() -> (r: &'static str) {
        "AlignItems"
    }
}

impl Token for PaintKind {
    open spec fn named(token: Seq<char>) -> Option<Self> {
        if token == "SOLID"@ {
            Some(PaintKind::Solid)
        } else if token == "GRADIENT_LINEAR"@ {
            Some(PaintKind::GradientLinear)
        } else if token == "GRADIENT_RADIAL"@ {
            Some(PaintKind::GradientRadial)
        } else if token == "GRADIENT_ANGULAR"@ {
            Some(PaintKind::GradientAngular)
        } else if token == "GRADIENT_DIAMOND"@ {
            Some(PaintKind::GradientDiamond)
        } else if token == "IMAGE"@ {
            Some(PaintKind::Image)
        } else {
            None
        }
    }

    open spec fn label() -> Seq<char> {
        "Paint"@
    }

    fn from_token(token: &str) -> (r: Option<Self>) {
        if same_text(token, "SOLID") {
            Some(PaintKind::Solid)
        } else if same_text(token, "GRADIENT_LINEAR") {
            Some(PaintKind::GradientLinear)
        } else if same_text(token, "GRADIENT_RADIAL") {
            Some(PaintKind::GradientRadial)
        } else if same_text(token, "GRADIENT_ANGULAR") {
            Some(PaintKind::GradientAngular)
        } else if same_text(token, "GRADIENT_DIAMOND") {
            Some(PaintKind::GradientDiamond)
        } else if same_text(token, "IMAGE") {
            Some(PaintKind::Image)
        } else {
            None
        }
    }

    fn name() -> (r: &'static str) {
        "Paint"
    }
}

impl Token for ConstraintKind {
    open spec fn named(token: Seq<char>) -> Option<Self> {
        if token == "SCALE"@ {
            Some(ConstraintKind::Scale)
        } else if token == "WIDTH"@ {
            Some(ConstraintKind::Width)
        } else if token == "HEIGHT"@ {
            Some(ConstraintKind::Height)
        } else {
            None
        }
    }

    open spec fn label() -> Seq<char> {
        "Constraint"@
    }

    fn from_token(token: &str) -> (r: Option<Self>) {
        if same_text(token, "SCALE") {
            Some(ConstraintKind::Scale)
        } else if same_text(token, "WIDTH") {
            Some(ConstraintKind::Width)
        } else if same_text(token, "HEIGHT") {
            Some(ConstraintKind::Height)
        } else {
            None
        }
    }

    fn name() -> (r: &'static str) {
        "Constraint"
    }
}

impl Token for NodeKind {
    open spec fn named(token: Seq<char>) -> Option<Self> {
        if token == "DOCUMENT"@ {
            Some(NodeKind::Document)
        } else if token == "CANVAS"@ {
            Some(NodeKind::Canvas)
        } else if token == "FRAME"@ {
            Some(NodeKind::Frame)
        } else if token == "GROUP"@ {
            Some(NodeKind::Group)
        } else if token == "VECTOR"@ {
            Some(NodeKind::Vector)
        } else if token == "BOOLEAN_OPERATION"@ {
            Some(NodeKind::BooleanOperation)
        } else if token == "STAR"@ {
            Some(NodeKind::Star)
        } else if token == "LINE"@ {
            Some(NodeKind::Line)
        } else if token == "ELLIPSE"@ {
            Some(NodeKind::Ellipse)
        } else if token == "REGULAR_POLYGON"@ {
            Some(NodeKind::RegularPolygon)
        } else if token == "RECTANGLE"@ {
            Some(NodeKind::Rectangle)
        } else if token == "TEXT"@ {
            Some(NodeKind::Text)
        } else if token == "SLICE"@ {
            Some(NodeKind::Slice)
        } else if token == "COMPONENT"@ {
            Some(NodeKind::Component)
        } else if token == "COMPONENT_SET"@ {
            Some(NodeKind::ComponentSet)
        } else if token == "INSTANCE"@ {
            Some(NodeKind::Instance)
        } else {
            None
        }
    }

    open spec fn label() -> Seq<char> {
        "Node"@
    }

    fn from_token(token: &str) -> (r: Option<Self>) {
        if same_text(token, "DOCUMENT") {
            Some(NodeKind::Document)
        } else if same_text(token, "CANVAS") {
            Some(NodeKind::Canvas)
        } else if same_text(token, "FRAME") {
            Some(NodeKind::Frame)
        } else if same_text(token, "GROUP") {
            Some(NodeKind::Group)
        } else if same_text(token, "VECTOR") {
            Some(NodeKind::Vector)
        } else if same_text(token, "BOOLEAN_OPERATION") {
            Some(NodeKind::BooleanOperation)
        } else if same_text(token, "STAR") {
            Some(NodeKind::Star)
        } else if same_text(token, "LINE") {
            Some(NodeKind::Line)
        } else if same_text(token, "ELLIPSE") {
            Some(NodeKind::Ellipse)
        } else if same_text(token, "REGULAR_POLYGON") {
            Some(NodeKind::RegularPolygon)
        } else if same_text(token, "RECTANGLE") {
            Some(NodeKind::Rectangle)
        } else if same_text(token, "TEXT") {
            Some(NodeKind::Text)
        } else if same_text(token, "SLICE") {
            Some(NodeKind::Slice)
        } else if same_text(token, "COMPONENT") {
            Some(NodeKind::Component)
        } else if same_text(token, "COMPONENT_SET") {
            Some(NodeKind::ComponentSet)
        } else if same_text(token, "INSTANCE") {
            Some(NodeKind::Instance)
        } else {
            None
        }
    }

    fn name() -> (r: &'static str) {
        "Node"
    }
}

} // verus!
