//! Decoding text styles.

use vstd::prelude::*;
use crate::error::{type_mismatch, view_of, DecodeError, Decoded};
use crate::field::{
    expect_object, flag_field_or, int_field, int_field_or, number_field, optional_text,
    read_flag_field_or, read_int_field, read_int_field_or, read_number_field, read_optional_text,
    read_text_field, text_field,
};
use crate::file::{
    LineHeightUnit, TextAutoResizeType, TextCase, TextHorizontalAlignment, TextVerticalAlignment,
    TypeStyle, TypeStyleView,
};
use crate::raw::{Json, Raw};
use crate::token::{read_token_field, read_token_field_or, token_field, token_field_or};

verus! {

/// The style of a text. The font family, the weight, the size, the two
/// alignments, the letter spacing and the three line-height fields are
/// required. The PostScript name is optional. Where they are absent, the
/// paragraph spacing and indent are 0, `italic` is false, the auto-resize
/// mode is `NONE` and the text case is `ORIGINAL`.
pub open spec fn type_style_of(raw: Json, field: Seq<char>) -> Decoded<TypeStyleView> {
    let font_family = text_field(raw, "fontFamily"@, "TypeStyle"@);
    let font_post_script_name = optional_text(raw, "fontPostScriptName"@);
    let paragraph_spacing = int_field_or(raw, "paragraphSpacing"@, 0);
    let paragraph_indent = int_field_or(raw, "paragraphIndent"@, 0);
    let italic = flag_field_or(raw, "italic"@, false);
    let font_weight = int_field(raw, "fontWeight"@, "TypeStyle"@);
    let text_auto_resize = token_field_or::<TextAutoResizeType>(
        raw,
        "textAutoResize"@,
        TextAutoResizeType::NoResize,
    );
    let font_size = number_field(raw, "fontSize"@, "TypeStyle"@);
    let text_case = token_field_or::<TextCase>(raw, "textCase"@, TextCase::Original);
    let text_align_horizontal = token_field::<TextHorizontalAlignment>(
        raw,
        "textAlignHorizontal"@,
        "TypeStyle"@,
    );
    let text_align_vertical = token_field::<TextVerticalAlignment>(
        raw,
        "textAlignVertical"@,
        "TypeStyle"@,
    );
    let letter_spacing = number_field(raw, "letterSpacing"@, "TypeStyle"@);
    let line_height_px = number_field(raw, "lineHeightPx"@, "TypeStyle"@);
    let line_height_percent = number_field(raw, "lineHeightPercent"@, "TypeStyle"@);
    let line_height_unit = token_field::<LineHeightUnit>(raw, "lineHeightUnit"@, "TypeStyle"@);
    if !(raw is Object) {
        Err(type_mismatch(field, "object"@, raw))
    } else if font_family is Err {
        Err(font_family->Err_0)
    } else if font_post_script_name is Err {
        Err(font_post_script_name->Err_0)
    } else if paragraph_spacing is Err {
        Err(paragraph_spacing->Err_0)
    } else if paragraph_indent is Err {
        Err(paragraph_indent->Err_0)
    } else if italic is Err {
        Err(italic->Err_0)
    } else if font_weight is Err {
        Err(font_weight->Err_0)
    } else if text_auto_resize is Err {
        Err(text_auto_resize->Err_0)
    } else if font_size is Err {
        Err(font_size->Err_0)
    } else if text_case is Err {
        Err(text_case->Err_0)
    } else if text_align_horizontal is Err {
        Err(text_align_horizontal->Err_0)
    } else if text_align_vertical is Err {
        Err(text_align_vertical->Err_0)
    } else if letter_spacing is Err {
        Err(letter_spacing->Err_0)
    } else if line_height_px is Err {
        Err(line_height_px->Err_0)
    } else if line_height_percent is Err {
        Err(line_height_percent->Err_0)
    } else if line_height_unit is Err {
        Err(line_height_unit->Err_0)
    } else {
        Ok(
            TypeStyleView {
                font_family: font_family->Ok_0,
                font_post_script_name: font_post_script_name->Ok_0,
                paragraph_spacing: paragraph_spacing->Ok_0,
                paragraph_indent: paragraph_indent->Ok_0,
                italic: italic->Ok_0,
                font_weight: font_weight->Ok_0,
                text_auto_resize: text_auto_resize->Ok_0,
                font_size: font_size->Ok_0,
                text_case: text_case->Ok_0,
                text_align_horizontal: text_align_horizontal->Ok_0,
                text_align_vertical: text_align_vertical->Ok_0,
                letter_spacing: letter_spacing->Ok_0,
                line_height_px: line_height_px->Ok_0,
                line_height_percent: line_height_percent->Ok_0,
                line_height_unit: line_height_unit->Ok_0,
            },
        )
    }
}

impl TypeStyle {
    /// Decodes the object standing at `field`.
    pub fn decode(raw: &Raw, field: &str) -> (r: Result<TypeStyle, DecodeError>)
        ensures
            view_of(r) == type_style_of(raw@, field@),
    {
        expect_object(raw, field)?;
        let font_family = read_text_field(raw, "fontFamily", "TypeStyle")?;
        let font_post_script_name = read_optional_text(raw, "fontPostScriptName")?;
        let paragraph_spacing = read_int_field_or(raw, "paragraphSpacing", 0)?;
        let paragraph_indent = read_int_field_or(raw, "paragraphIndent", 0)?;
        let italic = read_flag_field_or(raw, "italic", false)?;
        let font_weight = read_int_field(raw, "fontWeight", "TypeStyle")?;
        let text_auto_resize = read_token_field_or::<TextAutoResizeType>(
            raw,
            "textAutoResize",
            TextAutoResizeType::default(),
        )?;
        let font_size = read_number_field(raw, "fontSize", "TypeStyle")?;
        let text_case = read_token_field_or::<TextCase>(raw, "textCase", TextCase::default())?;
        let text_align_horizontal = read_token_field::<TextHorizontalAlignment>(
            raw,
            "textAlignHorizontal",
            "TypeStyle",
        )?;
        let text_align_vertical = read_token_field::<TextVerticalAlignment>(
            raw,
            "textAlignVertical",
            "TypeStyle",
        )?;
        let letter_spacing = read_number_field(raw, "letterSpacing", "TypeStyle")?;
        let line_height_px = read_number_field(raw, "lineHeightPx", "TypeStyle")?;
        let line_height_percent = read_number_field(raw, "lineHeightPercent", "TypeStyle")?;
        let line_height_unit = read_token_field::<LineHeightUnit>(raw, "lineHeightUnit", "TypeStyle")?;
        Ok(
            TypeStyle {
                font_family,
                font_post_script_name,
                paragraph_spacing,
                paragraph_indent,
                italic,
                font_weight,
                text_auto_resize,
                font_size,
                text_case,
                text_align_horizontal,
                text_align_vertical,
                letter_spacing,
                line_height_px,
                line_height_percent,
                line_height_unit,
            },
        )
    }
}

/// A style that lacks `textCase` decodes, if at all, with the case `ORIGINAL`.
pub proof fn lemma_text_case_defaults_to_original(raw: Json, field: Seq<char>)
    requires
        raw.field("textCase"@) is None,
    ensures
        type_style_of(raw, field) matches Ok(style) ==> style.text_case == TextCase::Original,
{
}

/// The other defaults of a style: absent spacing and indent are 0, an absent
/// `italic` is false, and an absent auto-resize mode is `NONE`.
pub proof fn lemma_style_defaults(raw: Json, field: Seq<char>)
    ensures
        type_style_of(raw, field) matches Ok(style) ==> {
            &&& raw.field("paragraphSpacing"@) is None ==> style.paragraph_spacing == 0
            &&& raw.field("paragraphIndent"@) is None ==> style.paragraph_indent == 0
            &&& raw.field("italic"@) is None ==> !style.italic
            &&& raw.field("textAutoResize"@) is None ==> style.text_auto_resize
                == TextAutoResizeType::NoResize
        },
{
}

} // verus!
