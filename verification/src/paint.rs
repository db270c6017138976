//! Decoding paints: solid colours, the four gradients and images.

use vstd::prelude::*;
use crate::error::{plain_of, type_mismatch, view_of, DecodeError, DecodeErrorView, Decoded};
use crate::field::{
    each, expect_object, int_of, lemma_each_keeps_first_error, list_field, optional_flag,
    optional_number, optional_text, present, read_int, read_items_field, read_optional_flag,
    read_optional_number, read_optional_text, read_present, read_required, required,
};
use crate::file::{BlendMode, Color, ColorStop, Paint, PaintKind, PaintView, ScaleMode, Transform, Vector};
use crate::raw::{items_view, lemma_array_view, Json, Number, Raw};
use crate::shape::{color_of, color_stop_of, vector_of};
use crate::token::{read_tag, read_token_field, tag_of, token_field};

verus! {

/// How one handle position of the list at `field` is decoded.
pub open spec fn vector_at(field: Seq<char>) -> spec_fn(Json) -> Decoded<Vector> {
    |v: Json| vector_of(v, field)
}

/// How one colour stop of the list at `field` is decoded.
pub open spec fn color_stop_at(field: Seq<char>) -> spec_fn(Json) -> Decoded<ColorStop> {
    |v: Json| color_stop_of(v, field)
}

/// Decodes a list of points, the items of the array at `field`.
pub fn decode_vectors(items: &Vec<Raw>, field: &str) -> (r: Result<Vec<Vector>, DecodeError>)
    ensures
        match r {
            Ok(out) => each(items_view(items@), vector_at(field@)) == Ok::<_, DecodeErrorView>(out@),
            Err(e) => each(items_view(items@), vector_at(field@)) == Err::<Seq<Vector>, _>(e@),
        },
{
    let ghost all = items_view(items@);
    let ghost f = vector_at(field@);
    let mut out: Vec<Vector> = Vec::new();
    let mut i: usize = 0;
    assert(all.take(0) =~= Seq::<Json>::empty());
    while i < items.len()
        invariant
            i <= items.len(),
            all == items_view(items@),
            f == vector_at(field@),
            each(all.take(i as int), f) == Ok::<_, DecodeErrorView>(out@),
        decreases items.len() - i,
    {
        proof {
            assert(all.take(i + 1).drop_last() =~= all.take(i as int));
            assert(all.take(i + 1).last() == items@[i as int]@);
        }
        match Vector::decode(&items[i], field) {
            Ok(v) => {
                out.push(v);
            },
            Err(e) => {
                proof {
                    lemma_each_keeps_first_error(all, f, i + 1);
                }
                return Err(e);
            },
        }
        i += 1;
    }
    assert(all.take(i as int) =~= all);
    Ok(out)
}

/// Decodes a list of colour stops, the items of the array at `field`.
pub fn decode_color_stops(items: &Vec<Raw>, field: &str) -> (r: Result<Vec<ColorStop>, DecodeError>)
    ensures
        match r {
            Ok(out) => each(items_view(items@), color_stop_at(field@)) == Ok::<_, DecodeErrorView>(
                out@,
            ),
            Err(e) => each(items_view(items@), color_stop_at(field@)) == Err::<Seq<ColorStop>, _>(
                e@,
            ),
        },
{
    let ghost all = items_view(items@);
    let ghost f = color_stop_at(field@);
    let mut out: Vec<ColorStop> = Vec::new();
    let mut i: usize = 0;
    assert(all.take(0) =~= Seq::<Json>::empty());
    while i < items.len()
        invariant
            i <= items.len(),
            all == items_view(items@),
            f == color_stop_at(field@),
            each(all.take(i as int), f) == Ok::<_, DecodeErrorView>(out@),
        decreases items.len() - i,
    {
        proof {
            assert(all.take(i + 1).drop_last() =~= all.take(i as int));
            assert(all.take(i + 1).last() == items@[i as int]@);
        }
        match ColorStop::decode(&items[i], field) {
            Ok(v) => {
                out.push(v);
            },
            Err(e) => {
                proof {
                    lemma_each_keeps_first_error(all, f, i + 1);
                }
                return Err(e);
            },
        }
        i += 1;
    }
    assert(all.take(i as int) =~= all);
    Ok(out)
}

/// One row of a transform: an array of exactly three integers.
pub open spec fn row_of(v: Json, field: Seq<char>) -> Decoded<[i32; 3]> {
    match v {
        Json::Array(items) if items.len() == 3 => {
            let a = int_of(items[0], field);
            let b = int_of(items[1], field);
            let c = int_of(items[2], field);
            if a is Err {
                Err(a->Err_0)
            } else if b is Err {
                Err(b->Err_0)
            } else if c is Err {
                Err(c->Err_0)
            } else {
                Ok([a->Ok_0, b->Ok_0, c->Ok_0])
            }
        },
        _ => Err(type_mismatch(field, "array of 3 integers"@, v)),
    }
}

/// A transform: an array of exactly two rows.
pub open spec fn transform_of(v: Json, field: Seq<char>) -> Decoded<Transform> {
    match v {
        Json::Array(rows) if rows.len() == 2 => {
            let top = row_of(rows[0], field);
            let bottom = row_of(rows[1], field);
            if top is Err {
                Err(top->Err_0)
            } else if bottom is Err {
                Err(bottom->Err_0)
            } else {
                Ok([top->Ok_0, bottom->Ok_0])
            }
        },
        _ => Err(type_mismatch(field, "array of 2 rows"@, v)),
    }
}

/// The transform at the optional field `key`.
pub open spec fn optional_transform(obj: Json, key: Seq<char>) -> Decoded<Option<Transform>> {
    match present(obj, key) {
        Some(v) => match transform_of(v, key) {
            Ok(t) => Ok(Some(t)),
            Err(e) => Err(e),
        },
        None => Ok(None),
    }
}

/// Reads one row of a transform.
pub fn read_row(v: &Raw, field: &str) -> (r: Result<[i32; 3], DecodeError>)
    ensures
        plain_of(r) == row_of(v@, field@),
{
    match v {
        Raw::Array(items) => {
            proof {
                lemma_array_view(*items);
            }
            if items.len() == 3 {
                let a = read_int(&items[0], field)?;
                let b = read_int(&items[1], field)?;
                let c = read_int(&items[2], field)?;
                Ok([a, b, c])
            } else {
                Err(DecodeError::mismatch(field, "array of 3 integers", v))
            }
        },
        _ => Err(DecodeError::mismatch(field, "array of 3 integers", v)),
    }
}

/// Reads a transform.
pub fn read_transform(v: &Raw, field: &str) -> (r: Result<Transform, DecodeError>)
    ensures
        plain_of(r) == transform_of(v@, field@),
{
    match v {
        Raw::Array(rows) => {
            proof {
                lemma_array_view(*rows);
            }
            if rows.len() == 2 {
                let top = read_row(&rows[0], field)?;
                let bottom = read_row(&rows[1], field)?;
                Ok([top, bottom])
            } else {
                Err(DecodeError::mismatch(field, "array of 2 rows", v))
            }
        },
        _ => Err(DecodeError::mismatch(field, "array of 2 rows", v)),
    }
}

/// Reads the transform at the optional field `key`.
pub fn read_optional_transform(obj: &Raw, key: &str) -> (r: Result<Option<Transform>, DecodeError>)
    ensures
        plain_of(r) == optional_transform(obj@, key@),
{
    match read_present(obj, key) {
        Some(v) => Ok(Some(read_transform(v, key)?)),
        None => Ok(None),
    }
}

/// What the four gradients hold besides visibility and opacity: the blend
/// mode, the handle positions and the colour stops.
pub open spec fn gradient_of(raw: Json) -> Decoded<(BlendMode, Seq<Vector>, Seq<ColorStop>)> {
    let blend_mode = token_field::<BlendMode>(raw, "blendMode"@, "Paint"@);
    let positions = list_field(
        raw,
        "gradientHandlePositions"@,
        "Paint"@,
        vector_at("gradientHandlePositions"@),
    );
    let stops = list_field(raw, "gradientStops"@, "Paint"@, color_stop_at("gradientStops"@));
    if blend_mode is Err {
        Err(blend_mode->Err_0)
    } else if positions is Err {
        Err(positions->Err_0)
    } else if stops is Err {
        Err(stops->Err_0)
    } else {
        Ok((blend_mode->Ok_0, positions->Ok_0, stops->Ok_0))
    }
}

/// An image paint, once its visibility and opacity are known.
pub open spec fn image_of(
    raw: Json,
    visible: Option<bool>,
    opacity: Option<Number>,
) -> Decoded<PaintView> {
    let blend_mode = token_field::<BlendMode>(raw, "blendMode"@, "Paint"@);
    let scale_mode = token_field::<ScaleMode>(raw, "scaleMode"@, "Paint"@);
    let image_transform = optional_transform(raw, "imageTransform"@);
    let scaling_factor = optional_number(raw, "scalingFactor"@);
    let rotation = optional_number(raw, "rotation"@);
    let image_ref = optional_text(raw, "imageRef"@);
    let gif_ref = optional_text(raw, "gifRef"@);
    if blend_mode is Err {
        Err(blend_mode->Err_0)
    } else if scale_mode is Err {
        Err(scale_mode->Err_0)
    } else if image_transform is Err {
        Err(image_transform->Err_0)
    } else if scaling_factor is Err {
        Err(scaling_factor->Err_0)
    } else if rotation is Err {
        Err(rotation->Err_0)
    } else if image_ref is Err {
        Err(image_ref->Err_0)
    } else if gif_ref is Err {
        Err(gif_ref->Err_0)
    } else {
        Ok(
            PaintView::Image {
                visible,
                opacity,
                blend_mode: blend_mode->Ok_0,
                scale_mode: scale_mode->Ok_0,
                image_transform: image_transform->Ok_0,
                scaling_factor: scaling_factor->Ok_0,
                rotation: rotation->Ok_0,
                image_ref: image_ref->Ok_0,
                gif_ref: gif_ref->Ok_0,
            },
        )
    }
}

/// A paint. The discriminant `type` selects the variant; visibility and
/// opacity are optional in each; the fields of the variant follow.
pub open spec fn paint_of(raw: Json, field: Seq<char>) -> Decoded<PaintView> {
    let kind = tag_of::<PaintKind>(raw);
    let visible = optional_flag(raw, "visible"@);
    let opacity = optional_number(raw, "opacity"@);
    if !(raw is Object) {
        Err(type_mismatch(field, "object"@, raw))
    } else if kind is Err {
        Err(kind->Err_0)
    } else if visible is Err {
        Err(visible->Err_0)
    } else if opacity is Err {
        Err(opacity->Err_0)
    } else {
        match kind->Ok_0 {
            PaintKind::Solid => match required(raw, "color"@, "Paint"@) {
                Ok(v) => match color_of(v, "color"@) {
                    Ok(color) => Ok(
                        PaintView::Solid { visible: visible->Ok_0, opacity: opacity->Ok_0, color },
                    ),
                    Err(e) => Err(e),
                },
                Err(e) => Err(e),
            },
            PaintKind::Image => image_of(raw, visible->Ok_0, opacity->Ok_0),
            gradient => match gradient_of(raw) {
                Ok((blend_mode, gradient_handle_positions, gradient_stops)) => Ok(
                    PaintView::Gradient {
                        kind: gradient,
                        visible: visible->Ok_0,
                        opacity: opacity->Ok_0,
                        blend_mode,
                        gradient_handle_positions,
                        gradient_stops,
                    },
                ),
                Err(e) => Err(e),
            },
        }
    }
}

/// Reads what the four gradients share.
fn read_gradient(raw: &Raw) -> (r: Result<(BlendMode, Vec<Vector>, Vec<ColorStop>), DecodeError>)
    ensures
        match r {
            Ok((blend_mode, positions, stops)) => gradient_of(raw@) == Ok::<_, DecodeErrorView>(
                (blend_mode, positions@, stops@),
            ),
            Err(e) => gradient_of(raw@) == Err::<(BlendMode, Seq<Vector>, Seq<ColorStop>), _>(e@),
        },
{
    let blend_mode = read_token_field::<BlendMode>(raw, "blendMode", "Paint")?;
    let positions = decode_vectors(
        read_items_field(raw, "gradientHandlePositions", "Paint")?,
        "gradientHandlePositions",
    )?;
    let stops = decode_color_stops(read_items_field(raw, "gradientStops", "Paint")?, "gradientStops")?;
    Ok((blend_mode, positions, stops))
}

impl Paint {
    /// Decodes the object standing at `field`.
    pub fn decode(raw: &Raw, field: &str) -> (r: Result<Paint, DecodeError>)
        ensures
            view_of(r) == paint_of(raw@, field@),
    {
        expect_object(raw, field)?;
        let kind = read_tag::<PaintKind>(raw)?;
        let visible = read_optional_flag(raw, "visible")?;
        let opacity = read_optional_number(raw, "opacity")?;
        match kind {
            PaintKind::Solid => {
                let color = Color::decode(read_required(raw, "color", "Paint")?, "color")?;
                Ok(Paint::Solid { visible, opacity, color })
            },
            PaintKind::GradientLinear => {
                let (blend_mode, gradient_handle_positions, gradient_stops) = read_gradient(raw)?;
                Ok(
                    Paint::GradientLinear {
                        visible,
                        opacity,
                        blend_mode,
                        gradient_handle_positions,
                        gradient_stops,
                    },
                )
            },
            PaintKind::GradientRadial => {
                let (blend_mode, gradient_handle_positions, gradient_stops) = read_gradient(raw)?;
                Ok(
                    Paint::GradientRadial {
                        visible,
                        opacity,
                        blend_mode,
                        gradient_handle_positions,
                        gradient_stops,
                    },
                )
            },
            PaintKind::GradientAngular => {
                let (blend_mode, gradient_handle_positions, gradient_stops) = read_gradient(raw)?;
                Ok(
                    Paint::GradientAngular {
                        visible,
                        opacity,
                        blend_mode,
                        gradient_handle_positions,
                        gradient_stops,
                    },
                )
            },
            PaintKind::GradientDiamond => {
                let (blend_mode, gradient_handle_positions, gradient_stops) = read_gradient(raw)?;
                Ok(
                    Paint::GradientDiamond {
                        visible,
                        opacity,
                        blend_mode,
                        gradient_handle_positions,
                        gradient_stops,
                    },
                )
            },
            PaintKind::Image => {
                let blend_mode = read_token_field::<BlendMode>(raw, "blendMode", "Paint")?;
                let scale_mode = read_token_field::<ScaleMode>(raw, "scaleMode", "Paint")?;
                let image_transform = read_optional_transform(raw, "imageTransform")?;
                let scaling_factor = read_optional_number(raw, "scalingFactor")?;
                let rotation = read_optional_number(raw, "rotation")?;
                let image_ref = read_optional_text(raw, "imageRef")?;
                let gif_ref = read_optional_text(raw, "gifRef")?;
                Ok(
                    Paint::Image {
                        visible,
                        opacity,
                        blend_mode,
                        scale_mode,
                        image_transform,
                        scaling_factor,
                        rotation,
                        image_ref,
                        gif_ref,
                    },
                )
            },
        }
    }
}

} // verus!
