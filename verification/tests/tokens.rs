use figma_api::file::{
    AlignItems, BlendMode, ConstraintKind, EasingType, HorizontalLayoutConstraint, LayoutAlign,
    LayoutGridPattern, LayoutMode, LineHeightUnit, NodeKind, PaintKind, ScaleMode, SizingMode,
    StrokeAlign, TextAutoResizeType, TextCase, TextHorizontalAlignment, TextVerticalAlignment,
    VerticalLayoutConstraint,
};
use figma_api::token::Token;

fn check<T: Token + PartialEq + std::fmt::Debug + Copy>(table: &[(&str, T)]) {
    for (token, value) in table {
        assert_eq!(T::from_token(token), Some(*value));
        assert_eq!(T::from_token(&token.to_lowercase()), None);
        assert_eq!(T::from_token(&format!("{} ", token)), None);
        assert_eq!(T::from_token(&format!("{}S", token)), None);
    }
    assert_eq!(T::from_token(""), None);
    assert_eq!(T::from_token("UNKNOWN"), None);
}

#[test]
fn text_tokens() {
    check(&[
        ("HEIGHT", TextAutoResizeType::Height),
        ("WIDTH_AND_HEIGHT", TextAutoResizeType::WidthAndHeight),
        ("NONE", TextAutoResizeType::NoResize),
    ]);
    check(&[
        ("LEFT", TextHorizontalAlignment::Left),
        ("RIGHT", TextHorizontalAlignment::Right),
        ("CENTER", TextHorizontalAlignment::Center),
        ("JUSTIFIED", TextHorizontalAlignment::Justified),
    ]);
    check(&[
        ("TOP", TextVerticalAlignment::Top),
        ("CENTER", TextVerticalAlignment::Center),
        ("BOTTOM", TextVerticalAlignment::Bottom),
    ]);
    check(&[
        ("PIXELS", LineHeightUnit::Pixels),
        ("FONT_SIZE_%", LineHeightUnit::FontSize),
        ("INTRINSIC_%", LineHeightUnit::Intrinsic),
    ]);
    assert_eq!(LineHeightUnit::from_token("FONT_SIZE"), None);
    assert_eq!(LineHeightUnit::from_token("INTRINSIC"), None);
    check(&[
        ("UPPER", TextCase::Upper),
        ("LOWER", TextCase::Lower),
        ("TITLE", TextCase::Title),
        ("SMALL_CAPS", TextCase::SmallCaps),
        ("SMALL_CAPS_FORCED", TextCase::SmallCapsForced),
        ("ORIGINAL", TextCase::Original),
    ]);
}

#[test]
fn paint_tokens() {
    check(&[
        ("PASS_THROUGH", BlendMode::PassThrough),
        ("NORMAL", BlendMode::Normal),
        ("DARKEN", BlendMode::Darken),
        ("MULTIPLY", BlendMode::Multiply),
        ("LINEAR_BURN", BlendMode::LinearBurn),
        ("COLOR_BURN", BlendMode::ColorBurn),
        ("LIGHTEN", BlendMode::Lighten),
        ("SCREEN", BlendMode::Screen),
        ("LINEAR_DODGE", BlendMode::LinearDodge),
        ("COLOR_DODGE", BlendMode::ColorDodge),
        ("OVERLAY", BlendMode::Overlay),
        ("SOFT_LIGHT", BlendMode::SoftLight),
        ("HARD_LIGHT", BlendMode::HardLight),
        ("DIFFERENCE", BlendMode::Difference),
        ("EXCLUSION", BlendMode::Exclusion),
        ("HUE", BlendMode::Hue),
        ("SATURATION", BlendMode::Saturation),
        ("COLOR", BlendMode::Color),
        ("LUMINOSITY", BlendMode::Luminosity),
    ]);
    check(&[
        ("FILL", ScaleMode::Fill),
        ("FIT", ScaleMode::Fit),
        ("TILE", ScaleMode::Tile),
        ("STRETCH", ScaleMode::Stretch),
    ]);
    check(&[
        ("INSIDE", StrokeAlign::Inside),
        ("OUTSIDE", StrokeAlign::Outside),
        ("CENTER", StrokeAlign::Center),
    ]);
    check(&[
        ("SOLID", PaintKind::Solid),
        ("GRADIENT_LINEAR", PaintKind::GradientLinear),
        ("GRADIENT_RADIAL", PaintKind::GradientRadial),
        ("GRADIENT_ANGULAR", PaintKind::GradientAngular),
        ("GRADIENT_DIAMOND", PaintKind::GradientDiamond),
        ("IMAGE", PaintKind::Image),
    ]);
}

#[test]
fn layout_tokens() {
    check(&[
        ("TOP", VerticalLayoutConstraint::Top),
        ("BOTTOM", VerticalLayoutConstraint::Bottom),
        ("CENTER", VerticalLayoutConstraint::Center),
        ("TOP_BOTTOM", VerticalLayoutConstraint::TopBottom),
        ("SCALE", VerticalLayoutConstraint::Scale),
    ]);
    check(&[
        ("LEFT", HorizontalLayoutConstraint::Left),
        ("RIGHT", HorizontalLayoutConstraint::Right),
        ("CENTER", HorizontalLayoutConstraint::Center),
        ("LEFT_RIGHT", HorizontalLayoutConstraint::LeftRight),
        ("SCALE", HorizontalLayoutConstraint::Scale),
    ]);
    check(&[
        ("INHERIT", LayoutAlign::Inherit),
        ("STRETCH", LayoutAlign::Stretch),
        ("MIN", LayoutAlign::Min),
        ("CENTER", LayoutAlign::Center),
        ("MAX", LayoutAlign::Max),
    ]);
    check(&[
        ("NONE", LayoutMode::NoLayout),
        ("HORIZONTAL", LayoutMode::Horizontal),
        ("VERTICAL", LayoutMode::Vertical),
    ]);
    check(&[
        ("COLUMNS", LayoutGridPattern::Columns),
        ("ROWS", LayoutGridPattern::Rows),
        ("GRID", LayoutGridPattern::Grid),
    ]);
    check(&[
        ("EASE_IN", EasingType::EaseIn),
        ("EASE_OUT", EasingType::EaseOut),
        ("EASE_IN_AND_OUT", EasingType::EaseInAndOut),
        ("LINEAR", EasingType::Linear),
    ]);
    check(&[("FIXED", SizingMode::Fixed), ("AUTO", SizingMode::Auto)]);
    check(&[
        ("MIN", AlignItems::Min),
        ("CENTER", AlignItems::Center),
        ("MAX", AlignItems::Max),
        ("SPACE_BETWEEN", AlignItems::SpaceBetween),
    ]);
    check(&[
        ("SCALE", ConstraintKind::Scale),
        ("WIDTH", ConstraintKind::Width),
        ("HEIGHT", ConstraintKind::Height),
    ]);
}

#[test]
fn node_tokens() {
    check(&[
        ("DOCUMENT", NodeKind::Document),
        ("CANVAS", NodeKind::Canvas),
        ("FRAME", NodeKind::Frame),
        ("GROUP", NodeKind::Group),
        ("VECTOR", NodeKind::Vector),
        ("BOOLEAN_OPERATION", NodeKind::BooleanOperation),
        ("STAR", NodeKind::Star),
        ("LINE", NodeKind::Line),
        ("ELLIPSE", NodeKind::Ellipse),
        ("REGULAR_POLYGON", NodeKind::RegularPolygon),
        ("RECTANGLE", NodeKind::Rectangle),
        ("TEXT", NodeKind::Text),
        ("SLICE", NodeKind::Slice),
        ("COMPONENT", NodeKind::Component),
        ("COMPONENT_SET", NodeKind::ComponentSet),
        ("INSTANCE", NodeKind::Instance),
    ]);
}

#[test]
fn errors_speak_of_each_type_by_its_name() {
    assert_eq!(BlendMode::name(), "BlendMode");
    assert_eq!(TextCase::name(), "TextCase");
    assert_eq!(LineHeightUnit::name(), "LineHeightUnit");
    assert_eq!(NodeKind::name(), "Node");
    assert_eq!(PaintKind::name(), "Paint");
    assert_eq!(ConstraintKind::name(), "Constraint");
}
