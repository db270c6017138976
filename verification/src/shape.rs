//! Decoding the plain records of the schema: geometry, colours, layout
//! metadata, export settings and component metadata.
//!
//! Every decoder reads its fields in the order in which the record lists
//! them and stops at the first failure.

use vstd::prelude::*;
use crate::error::{plain_of, type_mismatch, view_of, DecodeError, Decoded};
use crate::field::{
    expect_object, flag_field, int_field, number_field, read_flag_field, read_int_field,
    read_number_field, read_required, read_text_field, required, text_field,
};
use crate::file::{
    Color, ColorStop, Component, ComponentView, Constraint, ConstraintKind, ExportSetting,
    ExportSettingView, HorizontalLayoutConstraint, LayoutAlign, LayoutConstraint, LayoutGrid,
    LayoutGridPattern, Padding, Rectangle, Size, Style, StyleView, Vector,
    VerticalLayoutConstraint,
};
use crate::raw::{Json, Raw};
use crate::token::{read_tag, read_token_field, tag_of, token_field};

verus! {

/// A point or an offset: the integers `x` and `y`.
pub open spec fn vector_of(raw: Json, field: Seq<char>) -> Decoded<Vector> {
    let x = int_field(raw, "x"@, "Vector"@);
    let y = int_field(raw, "y"@, "Vector"@);
    if !(raw is Object) {
        Err(type_mismatch(field, "object"@, raw))
    } else if x is Err {
        Err(x->Err_0)
    } else if y is Err {
        Err(y->Err_0)
    } else {
        Ok(
            Vector {
                x: x->Ok_0,
                y: y->Ok_0,
            },
        )
    }
}

impl Vector {
    /// Decodes the object standing at `field`.
    pub fn decode(raw: &Raw, field: &str) -> (r: Result<Vector, DecodeError>)
        ensures
            plain_of(r) == vector_of(raw@, field@),
    {
        expect_object(raw, field)?;
        let x = read_int_field(raw, "x", "Vector")?;
        let y = read_int_field(raw, "y", "Vector")?;
        Ok(Vector { x, y })
    }
}

/// An extent: the integers `width` and `height`.
pub open spec fn size_of(raw: Json, field: Seq<char>) -> Decoded<Size> {
    let width = int_field(raw, "width"@, "Size"@);
    let height = int_field(raw, "height"@, "Size"@);
    if !(raw is Object) {
        Err(type_mismatch(field, "object"@, raw))
    } else if width is Err {
        Err(width->Err_0)
    } else if height is Err {
        Err(height->Err_0)
    } else {
        Ok(
            Size {
                width: width->Ok_0,
                height: height->Ok_0,
            },
        )
    }
}

impl Size {
    /// Decodes the object standing at `field`.
    pub fn decode(raw: &Raw, field: &str) -> (r: Result<Size, DecodeError>)
        ensures
            plain_of(r) == size_of(raw@, field@),
    {
        expect_object(raw, field)?;
        let width = read_int_field(raw, "width", "Size")?;
        let height = read_int_field(raw, "height", "Size")?;
        Ok(Size { width, height })
    }
}

/// A bounding box: the integers `x`, `y`, `width` and `height`.
pub open spec fn rectangle_of(raw: Json, field: Seq<char>) -> Decoded<Rectangle> {
    let x = int_field(raw, "x"@, "Rectangle"@);
    let y = int_field(raw, "y"@, "Rectangle"@);
    let width = int_field(raw, "width"@, "Rectangle"@);
    let height = int_field(raw, "height"@, "Rectangle"@);
    if !(raw is Object) {
        Err(type_mismatch(field, "object"@, raw))
    } else if x is Err {
        Err(x->Err_0)
    } else if y is Err {
        Err(y->Err_0)
    } else if width is Err {
        Err(width->Err_0)
    } else if height is Err {
        Err(height->Err_0)
    } else {
        Ok(
            Rectangle {
                x: x->Ok_0,
                y: y->Ok_0,
                width: width->Ok_0,
                height: height->Ok_0,
            },
        )
    }
}

impl Rectangle {
    /// Decodes the object standing at `field`.
    pub fn decode(raw: &Raw, field: &str) -> (r: Result<Rectangle, DecodeError>)
        ensures
            plain_of(r) == rectangle_of(raw@, field@),
    {
        expect_object(raw, field)?;
        let x = read_int_field(raw, "x", "Rectangle")?;
        let y = read_int_field(raw, "y", "Rectangle")?;
        let width = read_int_field(raw, "width", "Rectangle")?;
        let height = read_int_field(raw, "height", "Rectangle")?;
        Ok(Rectangle { x, y, width, height })
    }
}

/// A colour: the numbers `r`, `g`, `b` and `a`.
pub open spec fn color_of(raw: Json, field: Seq<char>) -> Decoded<Color> {
    let r = number_field(raw, "r"@, "Color"@);
    let g = number_field(raw, "g"@, "Color"@);
    let b = number_field(raw, "b"@, "Color"@);
    let a = number_field(raw, "a"@, "Color"@);
    if !(raw is Object) {
        Err(type_mismatch(field, "object"@, raw))
    } else if r is Err {
        Err(r->Err_0)
    } else if g is Err {
        Err(g->Err_0)
    } else if b is Err {
        Err(b->Err_0)
    } else if a is Err {
        Err(a->Err_0)
    } else {
        Ok(
            Color {
                r: r->Ok_0,
                g: g->Ok_0,
                b: b->Ok_0,
                a: a->Ok_0,
            },
        )
    }
}

impl Color {
    /// Decodes the object standing at `field`.
    pub fn decode(raw: &Raw, field: &str) -> (r: Result<Color, DecodeError>)
        ensures
            plain_of(r) == color_of(raw@, field@),
    {
        expect_object(raw, field)?;
        let r = read_number_field(raw, "r", "Color")?;
        let g = read_number_field(raw, "g", "Color")?;
        let b = read_number_field(raw, "b", "Color")?;
        let a = read_number_field(raw, "a", "Color")?;
        Ok(Color { r, g, b, a })
    }
}

/// A stop of a gradient: the number `position` and the colour `color`.
pub open spec fn color_stop_of(raw: Json, field: Seq<char>) -> Decoded<ColorStop> {
    let position = number_field(raw, "position"@, "ColorStop"@);
    let color = match required(raw, "color"@, "ColorStop"@) {
        Ok(v) => color_of(v, "color"@),
        Err(e) => Err(e),
    };
    if !(raw is Object) {
        Err(type_mismatch(field, "object"@, raw))
    } else if position is Err {
        Err(position->Err_0)
    } else if color is Err {
        Err(color->Err_0)
    } else {
        Ok(
            ColorStop {
                position: position->Ok_0,
                color: color->Ok_0,
            },
        )
    }
}

impl ColorStop {
    /// Decodes the object standing at `field`.
    pub fn decode(raw: &Raw, field: &str) -> (r: Result<ColorStop, DecodeError>)
        ensures
            plain_of(r) == color_stop_of(raw@, field@),
    {
        expect_object(raw, field)?;
        let position = read_number_field(raw, "position", "ColorStop")?;
        let color = Color::decode(read_required(raw, "color", "ColorStop")?, "color")?;
        Ok(ColorStop { position, color })
    }
}

/// The four paddings of a frame, each an integer.
pub open spec fn padding_of(raw: Json, field: Seq<char>) -> Decoded<Padding> {
    let padding_left = int_field(raw, "paddingLeft"@, "Padding"@);
    let padding_right = int_field(raw, "paddingRight"@, "Padding"@);
    let padding_top = int_field(raw, "paddingTop"@, "Padding"@);
    let padding_bottom = int_field(raw, "paddingBottom"@, "Padding"@);
    if !(raw is Object) {
        Err(type_mismatch(field, "object"@, raw))
    } else if padding_left is Err {
        Err(padding_left->Err_0)
    } else if padding_right is Err {
        Err(padding_right->Err_0)
    } else if padding_top is Err {
        Err(padding_top->Err_0)
    } else if padding_bottom is Err {
        Err(padding_bottom->Err_0)
    } else {
        Ok(
            Padding {
                padding_left: padding_left->Ok_0,
                padding_right: padding_right->Ok_0,
                padding_top: padding_top->Ok_0,
                padding_bottom: padding_bottom->Ok_0,
            },
        )
    }
}

impl Padding {
    /// Decodes the object standing at `field`.
    pub fn decode(raw: &Raw, field: &str) -> (r: Result<Padding, DecodeError>)
        ensures
            plain_of(r) == padding_of(raw@, field@),
    {
        expect_object(raw, field)?;
        let padding_left = read_int_field(raw, "paddingLeft", "Padding")?;
        let padding_right = read_int_field(raw, "paddingRight", "Padding")?;
        let padding_top = read_int_field(raw, "paddingTop", "Padding")?;
        let padding_bottom = read_int_field(raw, "paddingBottom", "Padding")?;
        Ok(Padding { padding_left, padding_right, padding_top, padding_bottom })
    }
}

/// How a node follows its parent: the tokens `vertical` and `horizontal`.
pub open spec fn layout_constraint_of(raw: Json, field: Seq<char>) -> Decoded<LayoutConstraint> {
    let vertical = token_field::<VerticalLayoutConstraint>(raw, "vertical"@, "LayoutConstraint"@);
    let horizontal = token_field::<HorizontalLayoutConstraint>(raw, "horizontal"@, "LayoutConstraint"@);
    if !(raw is Object) {
        Err(type_mismatch(field, "object"@, raw))
    } else if vertical is Err {
        Err(vertical->Err_0)
    } else if horizontal is Err {
        Err(horizontal->Err_0)
    } else {
        Ok(
            LayoutConstraint {
                vertical: vertical->Ok_0,
                horizontal: horizontal->Ok_0,
            },
        )
    }
}

impl LayoutConstraint {
    /// Decodes the object standing at `field`.
    pub fn decode(raw: &Raw, field: &str) -> (r: Result<LayoutConstraint, DecodeError>)
        ensures
            plain_of(r) == layout_constraint_of(raw@, field@),
    {
        expect_object(raw, field)?;
        let vertical = read_token_field::<VerticalLayoutConstraint>(raw, "vertical", "LayoutConstraint")?;
        let horizontal = read_token_field::<HorizontalLayoutConstraint>(raw, "horizontal", "LayoutConstraint")?;
        Ok(LayoutConstraint { vertical, horizontal })
    }
}

/// A layout grid of a frame.
pub open spec fn layout_grid_of(raw: Json, field: Seq<char>) -> Decoded<LayoutGrid> {
    let pattern = token_field::<LayoutGridPattern>(raw, "pattern"@, "LayoutGrid"@);
    let section_size = int_field(raw, "sectionSize"@, "LayoutGrid"@);
    let visible = flag_field(raw, "visible"@, "LayoutGrid"@);
    let color = match required(raw, "color"@, "LayoutGrid"@) {
        Ok(v) => color_of(v, "color"@),
        Err(e) => Err(e),
    };
    let alignment = token_field::<LayoutAlign>(raw, "alignment"@, "LayoutGrid"@);
    let gutter_size = int_field(raw, "gutterSize"@, "LayoutGrid"@);
    let offset = int_field(raw, "offset"@, "LayoutGrid"@);
    let count = int_field(raw, "count"@, "LayoutGrid"@);
    if !(raw is Object) {
        Err(type_mismatch(field, "object"@, raw))
    } else if pattern is Err {
        Err(pattern->Err_0)
    } else if section_size is Err {
        Err(section_size->Err_0)
    } else if visible is Err {
        Err(visible->Err_0)
    } else if color is Err {
        Err(color->Err_0)
    } else if alignment is Err {
        Err(alignment->Err_0)
    } else if gutter_size is Err {
        Err(gutter_size->Err_0)
    } else if offset is Err {
        Err(offset->Err_0)
    } else if count is Err {
        Err(count->Err_0)
    } else {
        Ok(
            LayoutGrid {
                pattern: pattern->Ok_0,
                section_size: section_size->Ok_0,
                visible: visible->Ok_0,
                color: color->Ok_0,
                alignment: alignment->Ok_0,
                gutter_size: gutter_size->Ok_0,
                offset: offset->Ok_0,
                count: count->Ok_0,
            },
        )
    }
}

impl LayoutGrid {
    /// Decodes the object standing at `field`.
    pub fn decode(raw: &Raw, field: &str) -> (r: Result<LayoutGrid, DecodeError>)
        ensures
            plain_of(r) == layout_grid_of(raw@, field@),
    {
        expect_object(raw, field)?;
        let pattern = read_token_field::<LayoutGridPattern>(raw, "pattern", "LayoutGrid")?;
        let section_size = read_int_field(raw, "sectionSize", "LayoutGrid")?;
        let visible = read_flag_field(raw, "visible", "LayoutGrid")?;
        let color = Color::decode(read_required(raw, "color", "LayoutGrid")?, "color")?;
        let alignment = read_token_field::<LayoutAlign>(raw, "alignment", "LayoutGrid")?;
        let gutter_size = read_int_field(raw, "gutterSize", "LayoutGrid")?;
        let offset = read_int_field(raw, "offset", "LayoutGrid")?;
        let count = read_int_field(raw, "count", "LayoutGrid")?;
        Ok(LayoutGrid { pattern, section_size, visible, color, alignment, gutter_size, offset, count })
    }
}

/// A constraint of an export: the discriminant `type` selects the variant,
/// and each variant holds the integer `value`.
pub open spec fn constraint_of(raw: Json, field: Seq<char>) -> Decoded<Constraint> {
    let kind = tag_of::<ConstraintKind>(raw);
    let value = int_field(raw, "value"@, "Constraint"@);
    if !(raw is Object) {
        Err(type_mismatch(field, "object"@, raw))
    } else if kind is Err {
        Err(kind->Err_0)
    } else if value is Err {
        Err(value->Err_0)
    } else {
        Ok(
            match kind->Ok_0 {
                ConstraintKind::Scale => Constraint::Scale { value: value->Ok_0 },
                ConstraintKind::Width => Constraint::Width { value: value->Ok_0 },
                ConstraintKind::Height => Constraint::Height { value: value->Ok_0 },
            },
        )
    }
}

impl Constraint {
    /// Decodes the object standing at `field`.
    pub fn decode(raw: &Raw, field: &str) -> (r: Result<Constraint, DecodeError>)
        ensures
            plain_of(r) == constraint_of(raw@, field@),
    {
        expect_object(raw, field)?;
        let kind = read_tag::<ConstraintKind>(raw)?;
        let value = read_int_field(raw, "value", "Constraint")?;
        Ok(
            match kind {
                ConstraintKind::Scale => Constraint::Scale { value },
                ConstraintKind::Width => Constraint::Width { value },
                ConstraintKind::Height => Constraint::Height { value },
            },
        )
    }
}

/// An export setting: the strings `suffix` and `format` and the constraint `constraint`.
pub open spec fn export_setting_of(raw: Json, field: Seq<char>) -> Decoded<ExportSettingView> {
    let suffix = text_field(raw, "suffix"@, "ExportSetting"@);
    let format = text_field(raw, "format"@, "ExportSetting"@);
    let constraint = match required(raw, "constraint"@, "ExportSetting"@) {
        Ok(v) => constraint_of(v, "constraint"@),
        Err(e) => Err(e),
    };
    if !(raw is Object) {
        Err(type_mismatch(field, "object"@, raw))
    } else if suffix is Err {
        Err(suffix->Err_0)
    } else if format is Err {
        Err(format->Err_0)
    } else if constraint is Err {
        Err(constraint->Err_0)
    } else {
        Ok(
            ExportSettingView {
                suffix: suffix->Ok_0,
                format: format->Ok_0,
                constraint: constraint->Ok_0,
            },
        )
    }
}

impl ExportSetting {
    /// Decodes the object standing at `field`.
    pub fn decode(raw: &Raw, field: &str) -> (r: Result<ExportSetting, DecodeError>)
        ensures
            view_of(r) == export_setting_of(raw@, field@),
    {
        expect_object(raw, field)?;
        let suffix = read_text_field(raw, "suffix", "ExportSetting")?;
        let format = read_text_field(raw, "format", "ExportSetting")?;
        let constraint = Constraint::decode(read_required(raw, "constraint", "ExportSetting")?, "constraint")?;
        Ok(ExportSetting { suffix, format, constraint })
    }
}

/// The metadata of a component: the strings `key`, `name` and `description`.
pub open spec fn component_of(raw: Json, field: Seq<char>) -> Decoded<ComponentView> {
    let key = text_field(raw, "key"@, "Component"@);
    let name = text_field(raw, "name"@, "Component"@);
    let description = text_field(raw, "description"@, "Component"@);
    if !(raw is Object) {
        Err(type_mismatch(field, "object"@, raw))
    } else if key is Err {
        Err(key->Err_0)
    } else if name is Err {
        Err(name->Err_0)
    } else if description is Err {
        Err(description->Err_0)
    } else {
        Ok(
            ComponentView {
                key: key->Ok_0,
                name: name->Ok_0,
                description: description->Ok_0,
            },
        )
    }
}

impl Component {
    /// Decodes the object standing at `field`.
    pub fn decode(raw: &Raw, field: &str) -> (r: Result<Component, DecodeError>)
        ensures
            view_of(r) == component_of(raw@, field@),
    {
        expect_object(raw, field)?;
        let key = read_text_field(raw, "key", "Component")?;
        let name = read_text_field(raw, "name", "Component")?;
        let description = read_text_field(raw, "description", "Component")?;
        Ok(Component { key, name, description })
    }
}

/// The metadata of a style: the strings `key`, `name` and `description`.
pub open spec fn style_of(raw: Json, field: Seq<char>) -> Decoded<StyleView> {
    let key = text_field(raw, "key"@, "Style"@);
    let name = text_field(raw, "name"@, "Style"@);
    let description = text_field(raw, "description"@, "Style"@);
    if !(raw is Object) {
        Err(type_mismatch(field, "object"@, raw))
    } else if key is Err {
        Err(key->Err_0)
    } else if name is Err {
        Err(name->Err_0)
    } else if description is Err {
        Err(description->Err_0)
    } else {
        Ok(
            StyleView {
                key: key->Ok_0,
                name: name->Ok_0,
                description: description->Ok_0,
            },
        )
    }
}

impl Style {
    /// Decodes the object standing at `field`.
    pub fn decode(raw: &Raw, field: &str) -> (r: Result<Style, DecodeError>)
        ensures
            view_of(r) == style_of(raw@, field@),
    {
        expect_object(raw, field)?;
        let key = read_text_field(raw, "key", "Style")?;
        let name = read_text_field(raw, "name", "Style")?;
        let description = read_text_field(raw, "description", "Style")?;
        Ok(Style { key, name, description })
    }
}

} // verus!
