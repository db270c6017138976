//! The typed document model: a `File`, its tree of `Node`s, and the value
//! types that describe paints, text styles, geometry and layout.

use vstd::prelude::*;
use crate::raw::{Json, Number, Raw};

verus! {

/// A 2x3 affine matrix, row by row.
pub type Transform = [[i32; 3]; 2];

#[derive(Clone, Copy, Debug, PartialEq, Eq)]
pub struct Vector {
    pub x: i32,
    pub y: i32,
}

#[derive(Clone, Copy, Debug, PartialEq, Eq)]
pub struct Size {
    pub width: i32,
    pub height: i32,
}

#[derive(Clone, Copy, Debug, PartialEq, Eq)]
pub struct Rectangle {
    pub x: i32,
    pub y: i32,
    pub width: i32,
    pub height: i32,
}

/// A colour; each channel is a number between 0 and 1, kept as it was read.
#[derive(Clone, Copy, Debug, PartialEq, Eq)]
pub struct Color {
    pub r: Number,
    pub g: Number,
    pub b: Number,
    pub a: Number,
}

#[derive(Clone, Copy, Debug, PartialEq, Eq)]
pub struct ColorStop {
    pub position: Number,
    pub color: Color,
}

#[derive(Clone, Copy, Debug, PartialEq, Eq)]
pub enum TextAutoResizeType {
    Height,
    WidthAndHeight,
    /// The box keeps its size; the token is `NONE`.
    NoResize,
}

impl TextAutoResizeType {
    /// The mode of a text whose style names none.
    pub fn default() -> (r: Self)
        ensures
            r == TextAutoResizeType::NoResize,
    {
        TextAutoResizeType::NoResize
    }
}

#[derive(Clone, Copy, Debug, PartialEq, Eq)]
pub enum TextHorizontalAlignment {
    Left,
    Right,
    Center,
    Justified,
}

#[derive(Clone, Copy, Debug, PartialEq, Eq)]
pub enum TextVerticalAlignment {
    Top,
    Center,
    Bottom,
}

#[derive(Clone, Copy, Debug, PartialEq, Eq)]
pub enum LineHeightUnit {
    Pixels,
    FontSize,
    Intrinsic,
}

#[derive(Clone, Copy, Debug, PartialEq, Eq)]
pub enum TextCase {
    Upper,
    Lower,
    Title,
    SmallCaps,
    SmallCapsForced,
    Original,
}

impl TextCase {
    /// The case of a text whose style names none.
    pub fn default() -> (r: Self)
        ensures
            r == TextCase::Original,
    {
        TextCase::Original
    }
}

#[derive(Debug, PartialEq, Eq)]
pub struct TypeStyle {
    pub font_family: String,
    pub font_post_script_name: Option<String>,
    pub paragraph_spacing: i32,
    pub paragraph_indent: i32,
    pub italic: bool,
    pub font_weight: i32,
    pub text_auto_resize: TextAutoResizeType,
    pub font_size: Number,
    pub text_case: TextCase,
    pub text_align_horizontal: TextHorizontalAlignment,
    pub text_align_vertical: TextVerticalAlignment,
    pub letter_spacing: Number,
    pub line_height_px: Number,
    pub line_height_percent: Number,
    pub line_height_unit: LineHeightUnit,
}

/// The model of a `TypeStyle`.
pub struct TypeStyleView {
    pub font_family: Seq<char>,
    pub font_post_script_name: Option<Seq<char>>,
    pub paragraph_spacing: i32,
    pub paragraph_indent: i32,
    pub italic: bool,
    pub font_weight: i32,
    pub text_auto_resize: TextAutoResizeType,
    pub font_size: Number,
    pub text_case: TextCase,
    pub text_align_horizontal: TextHorizontalAlignment,
    pub text_align_vertical: TextVerticalAlignment,
    pub letter_spacing: Number,
    pub line_height_px: Number,
    pub line_height_percent: Number,
    pub line_height_unit: LineHeightUnit,
}

/// The view of an optional string.
pub open spec fn text_view(s: Option<String>) -> Option<Seq<char>> {
    match s {
        Some(s) => Some(s@),
        None => None,
    }
}

impl View for TypeStyle {
    type V = TypeStyleView;

    open spec fn view(&self) -> TypeStyleView {
        TypeStyleView {
            font_family: self.font_family@,
            font_post_script_name: text_view(self.font_post_script_name),
            paragraph_spacing: self.paragraph_spacing,
            paragraph_indent: self.paragraph_indent,
            italic: self.italic,
            font_weight: self.font_weight,
            text_auto_resize: self.text_auto_resize,
            font_size: self.font_size,
            text_case: self.text_case,
            text_align_horizontal: self.text_align_horizontal,
            text_align_vertical: self.text_align_vertical,
            letter_spacing: self.letter_spacing,
            line_height_px: self.line_height_px,
            line_height_percent: self.line_height_percent,
            line_height_unit: self.line_height_unit,
        }
    }
}

#[derive(Clone, Copy, Debug, PartialEq, Eq)]
pub enum BlendMode {
    PassThrough,
    Normal,
    Darken,
    Multiply,
    LinearBurn,
    ColorBurn,
    Lighten,
    Screen,
    LinearDodge,
    ColorDodge,
    Overlay,
    SoftLight,
    HardLight,
    Difference,
    Exclusion,
    Hue,
    Saturation,
    Color,
    Luminosity,
}

#[derive(Clone, Copy, Debug, PartialEq, Eq)]
pub enum ScaleMode {
    Fill,
    Fit,
    Tile,
    Stretch,
}

#[derive(Clone, Copy, Debug, PartialEq, Eq)]
pub enum StrokeAlign {
    Inside,
    Outside,
    Center,
}

#[derive(Clone, Copy, Debug, PartialEq, Eq)]
pub enum VerticalLayoutConstraint {
    Top,
    Bottom,
    Center,
    TopBottom,
    Scale,
}

#[derive(Clone, Copy, Debug, PartialEq, Eq)]
pub enum HorizontalLayoutConstraint {
    Left,
    Right,
    Center,
    LeftRight,
    Scale,
}

#[derive(Clone, Copy, Debug, PartialEq, Eq)]
pub struct LayoutConstraint {
    pub vertical: VerticalLayoutConstraint,
    pub horizontal: HorizontalLayoutConstraint,
}

#[derive(Clone, Copy, Debug, PartialEq, Eq)]
pub enum LayoutAlign {
    Inherit,
    Stretch,
    Min,
    Center,
    Max,
}

#[derive(Clone, Copy, Debug, PartialEq, Eq)]
pub enum LayoutMode {
    /// No automatic layout; the token is `NONE`.
    NoLayout,
    Horizontal,
    Vertical,
}

#[derive(Clone, Copy, Debug, PartialEq, Eq)]
pub enum LayoutGridPattern {
    Columns,
    Rows,
    Grid,
}

#[derive(Clone, Copy, Debug, PartialEq, Eq)]
pub struct LayoutGrid {
    pub pattern: LayoutGridPattern,
    pub section_size: i32,
    pub visible: bool,
    pub color: Color,
    pub alignment: LayoutAlign,
    pub gutter_size: i32,
    pub offset: i32,
    pub count: i32,
}

#[derive(Clone, Copy, Debug, PartialEq, Eq)]
pub enum EasingType {
    EaseIn,
    EaseOut,
    EaseInAndOut,
    Linear,
}

#[derive(Clone, Copy, Debug, PartialEq, Eq)]
pub enum SizingMode {
    Fixed,
    Auto,
}

#[derive(Clone, Copy, Debug, PartialEq, Eq)]
pub enum AlignItems {
    Min,
    Center,
    Max,
    SpaceBetween,
}

/// Which of the six paints a `Paint` is: the discriminant of the union.
#[derive(Clone, Copy, Debug, PartialEq, Eq)]
pub enum PaintKind {
    Solid,
    GradientLinear,
    GradientRadial,
    GradientAngular,
    GradientDiamond,
    Image,
}

#[derive(Debug, PartialEq, Eq)]
pub enum Paint {
    Solid { visible: Option<bool>, opacity: Option<Number>, color: Color },
    GradientLinear {
        visible: Option<bool>,
        opacity: Option<Number>,
        blend_mode: BlendMode,
        gradient_handle_positions: Vec<Vector>,
        gradient_stops: Vec<ColorStop>,
    },
    GradientRadial {
        visible: Option<bool>,
        opacity: Option<Number>,
        blend_mode: BlendMode,
        gradient_handle_positions: Vec<Vector>,
        gradient_stops: Vec<ColorStop>,
    },
    GradientAngular {
        visible: Option<bool>,
        opacity: Option<Number>,
        blend_mode: BlendMode,
        gradient_handle_positions: Vec<Vector>,
        gradient_stops: Vec<ColorStop>,
    },
    GradientDiamond {
        visible: Option<bool>,
        opacity: Option<Number>,
        blend_mode: BlendMode,
        gradient_handle_positions: Vec<Vector>,
        gradient_stops: Vec<ColorStop>,
    },
    Image {
        visible: Option<bool>,
        opacity: Option<Number>,
        blend_mode: BlendMode,
        scale_mode: ScaleMode,
        image_transform: Option<Transform>,
        scaling_factor: Option<Number>,
        rotation: Option<Number>,
        image_ref: Option<String>,
        gif_ref: Option<String>,
    },
}

/// The model of a `Paint`. The four gradients share one shape and are told
/// apart by `kind`.
pub enum PaintView {
    Solid { visible: Option<bool>, opacity: Option<Number>, color: Color },
    Gradient {
        kind: PaintKind,
        visible: Option<bool>,
        opacity: Option<Number>,
        blend_mode: BlendMode,
        gradient_handle_positions: Seq<Vector>,
        gradient_stops: Seq<ColorStop>,
    },
    Image {
        visible: Option<bool>,
        opacity: Option<Number>,
        blend_mode: BlendMode,
        scale_mode: ScaleMode,
        image_transform: Option<Transform>,
        scaling_factor: Option<Number>,
        rotation: Option<Number>,
        image_ref: Option<Seq<char>>,
        gif_ref: Option<Seq<char>>,
    },
}

impl View for Paint {
    type V = PaintView;

    open spec fn view(&self) -> PaintView {
        match *self {
            Paint::Solid { visible, opacity, color } => PaintView::Solid { visible, opacity, color },
            Paint::GradientLinear {
                visible,
                opacity,
                blend_mode,
                gradient_handle_positions,
                gradient_stops,
            } => PaintView::Gradient {
                kind: PaintKind::GradientLinear,
                visible,
                opacity,
                blend_mode,
                gradient_handle_positions: gradient_handle_positions@,
                gradient_stops: gradient_stops@,
            },
            Paint::GradientRadial {
                visible,
                opacity,
                blend_mode,
                gradient_handle_positions,
                gradient_stops,
            } => PaintView::Gradient {
                kind: PaintKind::GradientRadial,
                visible,
                opacity,
                blend_mode,
                gradient_handle_positions: gradient_handle_positions@,
                gradient_stops: gradient_stops@,
            },
            Paint::GradientAngular {
                visible,
                opacity,
                blend_mode,
                gradient_handle_positions,
                gradient_stops,
            } => PaintView::Gradient {
                kind: PaintKind::GradientAngular,
                visible,
                opacity,
                blend_mode,
                gradient_handle_positions: gradient_handle_positions@,
                gradient_stops: gradient_stops@,
            },
            Paint::GradientDiamond {
                visible,
                opacity,
                blend_mode,
                gradient_handle_positions,
                gradient_stops,
            } => PaintView::Gradient {
                kind: PaintKind::GradientDiamond,
                visible,
                opacity,
                blend_mode,
                gradient_handle_positions: gradient_handle_positions@,
                gradient_stops: gradient_stops@,
            },
            Paint::Image {
                visible,
                opacity,
                blend_mode,
                scale_mode,
                image_transform,
                scaling_factor,
                rotation,
                image_ref,
                gif_ref,
            } => PaintView::Image {
                visible,
                opacity,
                blend_mode,
                scale_mode,
                image_transform,
                scaling_factor,
                rotation,
                image_ref: text_view(image_ref),
                gif_ref: text_view(gif_ref),
            },
        }
    }
}

/// Which of the three constraints a `Constraint` is: the discriminant of the union.
#[derive(Clone, Copy, Debug, PartialEq, Eq)]
pub enum ConstraintKind {
    Scale,
    Width,
    Height,
}

#[derive(Clone, Copy, Debug, PartialEq, Eq)]
pub enum Constraint {
    Scale { value: i32 },
    Width { value: i32 },
    Height { value: i32 },
}

#[derive(Debug, PartialEq, Eq)]
pub struct ExportSetting {
    pub suffix: String,
    pub format: String,
    pub constraint: Constraint,
}

/// The model of a `ExportSetting`.
pub struct ExportSettingView {
    pub suffix: Seq<char>,
    pub format: Seq<char>,
    pub constraint: Constraint,
}

impl View for ExportSetting {
    type V = ExportSettingView;

    open spec fn view(&self) -> ExportSettingView {
        ExportSettingView { suffix: self.suffix@, format: self.format@, constraint: self.constraint }
    }
}

/// What every node holds, whatever its kind.
#[derive(Debug, PartialEq, Eq)]
pub struct BaseNode {
    pub id: String,
    pub name: String,
    pub visible: bool,
    pub plugin_data: Option<Raw>,
}

/// The model of a `BaseNode`.
pub struct BaseNodeView {
    pub id: Seq<char>,
    pub name: Seq<char>,
    pub visible: bool,
    pub plugin_data: Option<Json>,
}

impl View for BaseNode {
    type V = BaseNodeView;

    open spec fn view(&self) -> BaseNodeView {
        BaseNodeView {
            id: self.id@,
            name: self.name@,
            visible: self.visible,
            plugin_data: match self.plugin_data {
                Some(data) => Some(data@),
                None => None,
            },
        }
    }
}

#[derive(Clone, Copy, Debug, PartialEq, Eq)]
pub struct Padding {
    pub padding_left: i32,
    pub padding_right: i32,
    pub padding_top: i32,
    pub padding_bottom: i32,
}

#[derive(Debug, PartialEq, Eq)]
pub struct Component {
    pub key: String,
    pub name: String,
    pub description: String,
}

/// The model of a `Component`.
pub struct ComponentView {
    pub key: Seq<char>,
    pub name: Seq<char>,
    pub description: Seq<char>,
}

impl View for Component {
    type V = ComponentView;

    open spec fn view(&self) -> ComponentView {
        ComponentView { key: self.key@, name: self.name@, description: self.description@ }
    }
}

#[derive(Debug, PartialEq, Eq)]
pub struct Style {
    pub key: String,
    pub name: String,
    pub description: String,
}

/// The model of a `Style`.
pub struct StyleView {
    pub key: Seq<char>,
    pub name: Seq<char>,
    pub description: Seq<char>,
}

impl View for Style {
    type V = StyleView;

    open spec fn view(&self) -> StyleView {
        StyleView { key: self.key@, name: self.name@, description: self.description@ }
    }
}

/// Which of the sixteen shapes a node is: the discriminant of the union.
#[derive(Clone, Copy, Debug, PartialEq, Eq)]
pub enum NodeKind {
    Document,
    Canvas,
    Frame,
    Group,
    Vector,
    BooleanOperation,
    Star,
    Line,
    Ellipse,
    RegularPolygon,
    Rectangle,
    Text,
    Slice,
    Component,
    ComponentSet,
    Instance,
}

impl NodeKind {
    /// Whether nodes of this kind carry children.
    pub open spec fn is_container(self) -> bool {
        match self {
            NodeKind::Document
            | NodeKind::Canvas
            | NodeKind::Frame
            | NodeKind::Group
            | NodeKind::BooleanOperation
            | NodeKind::Component
            | NodeKind::ComponentSet
            | NodeKind::Instance => true,
            _ => false,
        }
    }
}

/// One element of the document tree. A parent owns its children, in the
/// order in which the document lists them. Nothing keeps a document node
/// from standing among the children of another node; rendering passes
/// through such a node to its children.
#[derive(Debug, PartialEq, Eq)]
pub enum Node {
    Document { children: Vec<Node>, node: BaseNode },
    Canvas {
        children: Vec<Node>,
        background_color: Color,
        prototype_start_node_id: Option<String>,
        export_settings: Vec<ExportSetting>,
        node: BaseNode,
    },
    Frame { children: Vec<Node>, node: BaseNode },
    Group { children: Vec<Node>, node: BaseNode },
    Vector { node: BaseNode },
    BooleanOperation { children: Vec<Node>, node: BaseNode },
    Star { node: BaseNode },
    Line { node: BaseNode },
    Ellipse { node: BaseNode },
    RegularPolygon { node: BaseNode },
    Rectangle { corner_radius: Option<Number>, rectangle_corner_radii: Option<[i32; 4]>, node: BaseNode },
    Text { characters: String, style: TypeStyle, node: BaseNode },
    Slice { characters: String, node: BaseNode },
    Component { children: Vec<Node>, node: BaseNode },
    ComponentSet { children: Vec<Node>, node: BaseNode },
    Instance { children: Vec<Node>, node: BaseNode },
}

/// What a node holds beyond the common fields and its children.
pub enum NodeDetailView {
    Plain,
    Canvas {
        background_color: Color,
        prototype_start_node_id: Option<Seq<char>>,
        export_settings: Seq<ExportSettingView>,
    },
    Rectangle { corner_radius: Option<Number>, rectangle_corner_radii: Option<[i32; 4]> },
    Text { characters: Seq<char>, style: TypeStyleView },
    Slice { characters: Seq<char> },
}

/// The model of a `Node`: its kind, the common fields, its children (none
/// for a leaf) and what is particular to the kind.
pub struct NodeView {
    pub kind: NodeKind,
    pub node: BaseNodeView,
    pub children: Seq<NodeView>,
    pub detail: NodeDetailView,
}

impl NodeView {
    /// Whether this is the model of some node: only a container has
    /// children, the detail is that of the kind, and the same holds of
    /// every child.
    pub open spec fn well_formed(self) -> bool
        decreases self,
    {
        &&& self.kind.is_container() || self.children.len() == 0
        &&& match self.kind {
            NodeKind::Canvas => self.detail is Canvas,
            NodeKind::Rectangle => self.detail is Rectangle,
            NodeKind::Text => self.detail is Text,
            NodeKind::Slice => self.detail is Slice,
            _ => self.detail is Plain,
        }
        &&& forall|i: int| 0 <= i < self.children.len() ==> (#[trigger] self.children[i]).well_formed()
    }
}

/// The views of a list of export settings, item by item.
pub open spec fn export_settings_view(settings: Seq<ExportSetting>) -> Seq<ExportSettingView> {
    Seq::new(settings.len(), |i: int| settings[i]@)
}

/// The model of a node.
pub open spec fn node_view(n: Node) -> NodeView
    decreases n,
{
    match n {
        Node::Document { children, node } => NodeView {
            kind: NodeKind::Document,
            node: node@,
            children: nodes_view(children),
            detail: NodeDetailView::Plain,
        },
        Node::Canvas { children, background_color, prototype_start_node_id, export_settings, node } => NodeView {
            kind: NodeKind::Canvas,
            node: node@,
            children: nodes_view(children),
            detail: NodeDetailView::Canvas {
                background_color,
                prototype_start_node_id: text_view(prototype_start_node_id),
                export_settings: export_settings_view(export_settings@),
            },
        },
        Node::Frame { children, node } => NodeView {
            kind: NodeKind::Frame,
            node: node@,
            children: nodes_view(children),
            detail: NodeDetailView::Plain,
        },
        Node::Group { children, node } => NodeView {
            kind: NodeKind::Group,
            node: node@,
            children: nodes_view(children),
            detail: NodeDetailView::Plain,
        },
        Node::Vector { node } => NodeView {
            kind: NodeKind::Vector,
            node: node@,
            children: Seq::empty(),
            detail: NodeDetailView::Plain,
        },
        Node::BooleanOperation { children, node } => NodeView {
            kind: NodeKind::BooleanOperation,
            node: node@,
            children: nodes_view(children),
            detail: NodeDetailView::Plain,
        },
        Node::Star { node } => NodeView {
            kind: NodeKind::Star,
            node: node@,
            children: Seq::empty(),
            detail: NodeDetailView::Plain,
        },
        Node::Line { node } => NodeView {
            kind: NodeKind::Line,
            node: node@,
            children: Seq::empty(),
            detail: NodeDetailView::Plain,
        },
        Node::Ellipse { node } => NodeView {
            kind: NodeKind::Ellipse,
            node: node@,
            children: Seq::empty(),
            detail: NodeDetailView::Plain,
        },
        Node::RegularPolygon { node } => NodeView {
            kind: NodeKind::RegularPolygon,
            node: node@,
            children: Seq::empty(),
            detail: NodeDetailView::Plain,
        },
        Node::Rectangle { corner_radius, rectangle_corner_radii, node } => NodeView {
            kind: NodeKind::Rectangle,
            node: node@,
            children: Seq::empty(),
            detail: NodeDetailView::Rectangle { corner_radius, rectangle_corner_radii },
        },
        Node::Text { characters, style, node } => NodeView {
            kind: NodeKind::Text,
            node: node@,
            children: Seq::empty(),
            detail: NodeDetailView::Text { characters: characters@, style: style@ },
        },
        Node::Slice { characters, node } => NodeView {
            kind: NodeKind::Slice,
            node: node@,
            children: Seq::empty(),
            detail: NodeDetailView::Slice { characters: characters@ },
        },
        Node::Component { children, node } => NodeView {
            kind: NodeKind::Component,
            node: node@,
            children: nodes_view(children),
            detail: NodeDetailView::Plain,
        },
        Node::ComponentSet { children, node } => NodeView {
            kind: NodeKind::ComponentSet,
            node: node@,
            children: nodes_view(children),
            detail: NodeDetailView::Plain,
        },
        Node::Instance { children, node } => NodeView {
            kind: NodeKind::Instance,
            node: node@,
            children: nodes_view(children),
            detail: NodeDetailView::Plain,
        },
    }
}

/// The models of a list of nodes, item by item.
pub open spec fn nodes_view(nodes: Vec<Node>) -> Seq<NodeView>
    decreases nodes,
{
    Seq::new(nodes@.len(), |i: int| if 0 <= i < nodes@.len() { node_view(nodes@[i]) } else { arbitrary() })
}

/// The model of every node is well formed.
pub proof fn lemma_node_view_is_well_formed(n: Node)
    ensures
        node_view(n).well_formed(),
    decreases n,
{
    let v = node_view(n);
    assert forall|i: int| 0 <= i < v.children.len() implies (#[trigger] v.children[i]).well_formed() by {
        match n {
            Node::Document { children, .. }
            | Node::Canvas { children, .. }
            | Node::Frame { children, .. }
            | Node::Group { children, .. }
            | Node::BooleanOperation { children, .. }
            | Node::Component { children, .. }
            | Node::ComponentSet { children, .. }
            | Node::Instance { children, .. } => {
                assert(v.children[i] == node_view(children@[i]));
                lemma_node_view_is_well_formed(children@[i]);
            },
            _ => {},
        }
    }
}

impl View for Node {
    type V = NodeView;

    open spec fn view(&self) -> NodeView {
        node_view(*self)
    }
}

impl Node {
    /// Which of the sixteen shapes this node is.
    pub fn kind(&self) -> (r: NodeKind)
        ensures
            r == self@.kind,
    {
        match self {
            Node::Document { .. } => NodeKind::Document,
            Node::Canvas { .. } => NodeKind::Canvas,
            Node::Frame { .. } => NodeKind::Frame,
            Node::Group { .. } => NodeKind::Group,
            Node::Vector { .. } => NodeKind::Vector,
            Node::BooleanOperation { .. } => NodeKind::BooleanOperation,
            Node::Star { .. } => NodeKind::Star,
            Node::Line { .. } => NodeKind::Line,
            Node::Ellipse { .. } => NodeKind::Ellipse,
            Node::RegularPolygon { .. } => NodeKind::RegularPolygon,
            Node::Rectangle { .. } => NodeKind::Rectangle,
            Node::Text { .. } => NodeKind::Text,
            Node::Slice { .. } => NodeKind::Slice,
            Node::Component { .. } => NodeKind::Component,
            Node::ComponentSet { .. } => NodeKind::ComponentSet,
            Node::Instance { .. } => NodeKind::Instance,
        }
    }

    /// The fields that every node holds.
    pub fn base(&self) -> (r: &BaseNode)
        ensures
            r@ == self@.node,
    {
        match self {
            Node::Document { node, .. } => node,
            Node::Canvas { node, .. } => node,
            Node::Frame { node, .. } => node,
            Node::Group { node, .. } => node,
            Node::Vector { node, .. } => node,
            Node::BooleanOperation { node, .. } => node,
            Node::Star { node, .. } => node,
            Node::Line { node, .. } => node,
            Node::Ellipse { node, .. } => node,
            Node::RegularPolygon { node, .. } => node,
            Node::Rectangle { node, .. } => node,
            Node::Text { node, .. } => node,
            Node::Slice { node, .. } => node,
            Node::Component { node, .. } => node,
            Node::ComponentSet { node, .. } => node,
            Node::Instance { node, .. } => node,
        }
    }

    /// The children of a container, in document order; `None` for a leaf.
    pub fn children(&self) -> (r: Option<&Vec<Node>>)
        ensures
            match r {
                Some(children) => self@.kind.is_container() && nodes_view(*children) == self@.children,
                None => !self@.kind.is_container() && self@.children == Seq::<NodeView>::empty(),
            },
    {
        match self {
            Node::Document { children, .. } => Some(children),
            Node::Canvas { children, .. } => Some(children),
            Node::Frame { children, .. } => Some(children),
            Node::Group { children, .. } => Some(children),
            Node::BooleanOperation { children, .. } => Some(children),
            Node::Component { children, .. } => Some(children),
            Node::ComponentSet { children, .. } => Some(children),
            Node::Instance { children, .. } => Some(children),
            _ => None,
        }
    }
}

/// A whole design document: its metadata, the tree of nodes under
/// `document`, and the components it defines, keyed by component key in the
/// order in which the document lists them.
#[derive(Debug, PartialEq, Eq)]
pub struct File {
    pub name: String,
    pub role: String,
    pub last_modified: String,
    pub thumbnail_url: String,
    pub version: String,
    pub document: Node,
    pub components: Vec<(String, Component)>,
    pub schema_version: i32,
}

/// The model of a `File`.
pub struct FileView {
    pub name: Seq<char>,
    pub role: Seq<char>,
    pub last_modified: Seq<char>,
    pub thumbnail_url: Seq<char>,
    pub version: Seq<char>,
    pub document: NodeView,
    pub components: Seq<(Seq<char>, ComponentView)>,
    pub schema_version: i32,
}

/// The views of a list of keyed components, item by item.
pub open spec fn components_view(
    components: Seq<(String, Component)>,
) -> Seq<(Seq<char>, ComponentView)> {
    Seq::new(components.len(), |i: int| (components[i].0@, components[i].1@))
}

impl View for File {
    type V = FileView;

    open spec fn view(&self) -> FileView {
        FileView {
            name: self.name@,
            role: self.role@,
            last_modified: self.last_modified@,
            thumbnail_url: self.thumbnail_url@,
            version: self.version@,
            document: self.document@,
            components: components_view(self.components@),
            schema_version: self.schema_version,
        }
    }
}

} // verus!
