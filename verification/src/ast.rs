//! The plain model of an already-parsed type declaration.
//!
//! The host compiler's parser delivers the subject type as structured data;
//! this module holds that structure as plain values: attribute trees with
//! their source text, field types with their rendered text and, for plain
//! path types, their path segments, and the declaration's shape.

use vstd::prelude::*;
use crate::strings::{join_sep, join_strings, str_eq, dup_strings};

verus! {

/// A `::`-separated path of identifiers, as it stands in an attribute or in
/// a field's type.
pub struct IdentPath {
    pub segments: Vec<String>,
}

/// The joined text of a path, `::` between segments.
pub open spec fn path_text(p: IdentPath) -> Seq<char> {
    join_sep(p.segments.deep_view(), "::"@)
}

/// Whether the path is the single identifier `name`.
pub open spec fn path_is(p: IdentPath, name: Seq<char>) -> bool {
    p.segments.len() == 1 && p.segments[0]@ == name
}

/// Whether the path's last segment is the identifier `name`.
pub open spec fn path_last_is(p: IdentPath, name: Seq<char>) -> bool {
    p.segments.len() >= 1 && p.segments[p.segments.len() - 1]@ == name
}

/// Renders a path as source text, `::` between segments.
pub fn path_to_string(p: &IdentPath) -> (r: String)
    ensures
        r@ == path_text(*p),
{
    join_strings(&p.segments, "::")
}

/// Whether `p` is the single identifier `name`.
pub fn ident_path_is(p: &IdentPath, name: &str) -> (r: bool)
    ensures
        r == path_is(*p, name@),
{
    p.segments.len() == 1 && str_eq(p.segments[0].as_str(), name)
}

/// Whether the last segment of `p` is the identifier `name`.
pub fn ident_path_last_is(p: &IdentPath, name: &str) -> (r: bool)
    ensures
        r == path_last_is(*p, name@),
{
    let n = p.segments.len();
    n >= 1 && str_eq(p.segments[n - 1].as_str(), name)
}

/// The segment texts of a path.
pub open spec fn path_view(p: IdentPath) -> Seq<Seq<char>> {
    p.segments.deep_view()
}

/// Duplicates a path.
pub fn dup_path(p: &IdentPath) -> (r: IdentPath)
    ensures
        path_view(r) == path_view(*p),
{
    let segments = dup_strings(&p.segments);
    proof {
        assert(segments.deep_view() =~= p.segments.deep_view());
    }
    IdentPath { segments }
}

/// The value of a key–value attribute entry: a string literal, or any other
/// expression.
pub enum MetaValue {
    Str(String),
    Other,
}

/// One attribute entry: a bare path marker, a list `path(...)` whose
/// arguments may or may not parse as a comma-separated entry list, or a
/// key–value pair `path = value`.
pub enum Meta {
    Path(IdentPath),
    List(IdentPath, Option<Vec<Meta>>),
    NameValue(IdentPath, MetaValue),
}

/// The path under which an entry stands.
pub open spec fn meta_path(m: Meta) -> IdentPath {
    match m {
        Meta::Path(p) => p,
        Meta::List(p, _) => p,
        Meta::NameValue(p, _) => p,
    }
}

/// The path under which an entry stands.
pub fn meta_path_ref(m: &Meta) -> (r: &IdentPath)
    ensures
        *r == meta_path(*m),
{
    match m {
        Meta::Path(p) => p,
        Meta::List(p, _) => p,
        Meta::NameValue(p, _) => p,
    }
}

/// Whether the attribute stands before the item (`#[...]`) or inside it
/// (`#![...]`).
pub enum AttrStyle {
    Outer,
    Inner,
}

/// One raw attribute: its placement, its parsed entry, and its full source
/// text (kept so recognized attributes can be carried over verbatim).
pub struct Attr {
    pub style: AttrStyle,
    pub meta: Meta,
    pub text: String,
}

/// A field's declared type: its source text and, when the type is a plain
/// path (no qualified self), its path.
pub struct FieldType {
    pub text: String,
    pub path: Option<IdentPath>,
}

/// The mathematical value of a field type.
pub struct FieldTypeModel {
    pub text: Seq<char>,
    pub path: Option<Seq<Seq<char>>>,
}

impl View for FieldType {
    type V = FieldTypeModel;

    open spec fn view(&self) -> FieldTypeModel {
        FieldTypeModel {
            text: self.text@,
            path: match self.path {
                Some(p) => Some(path_view(p)),
                None => None,
            },
        }
    }
}

/// Duplicates a field type.
pub fn dup_field_type(t: &FieldType) -> (r: FieldType)
    ensures
        r@ == t@,
{
    let path = match &t.path {
        Some(p) => Some(dup_path(p)),
        None => None,
    };
    FieldType { text: t.text.clone(), path }
}

/// One member of a constructible shape.
pub struct Field {
    /// The declared name; present exactly for named-shape fields.
    pub ident: Option<String>,
    pub ty: FieldType,
    pub attrs: Vec<Attr>,
}

/// The structural shape of a variant's field list: identifier-addressed,
/// index-addressed, or absent.
pub enum FieldsShape {
    Named(Vec<Field>),
    Unnamed(Vec<Field>),
    Unit,
}

/// One arm of an enum.
pub struct VariantDecl {
    pub ident: String,
    pub fields: FieldsShape,
    /// Whether the arm carries an explicit discriminant (unsupported).
    pub has_discriminant: bool,
}

/// The shape of the subject type.
pub enum TypeShape {
    Struct(FieldsShape),
    Enum(Vec<VariantDecl>),
    Union,
}

/// The subject type declaration.  The generic parameter lists and the where
/// clause are carried verbatim as source text, split as they appear on the
/// implementation, on the type, and after it.
pub struct TypeDecl {
    pub ident: String,
    pub impl_generics: String,
    pub ty_generics: String,
    pub where_clause: String,
    pub attrs: Vec<Attr>,
    pub shape: TypeShape,
}

/// The fields of a shape, in declaration order.
pub open spec fn shape_fields(fs: FieldsShape) -> Seq<Field> {
    match fs {
        FieldsShape::Named(v) => v@,
        FieldsShape::Unnamed(v) => v@,
        FieldsShape::Unit => Seq::empty(),
    }
}

/// Whether the shape addresses its fields by identifier.
pub open spec fn shape_named(fs: FieldsShape) -> bool {
    fs is Named
}

/// Model validity: in a named shape every field carries its declared name.
pub open spec fn wf_fields(fields: Seq<Field>, named: bool) -> bool {
    named ==> forall|i: int| 0 <= i < fields.len() ==> (#[trigger] fields[i]).ident is Some
}

pub open spec fn wf_shape(fs: FieldsShape) -> bool {
    wf_fields(shape_fields(fs), shape_named(fs))
}

pub open spec fn wf_type_decl(d: TypeDecl) -> bool {
    match d.shape {
        TypeShape::Struct(fs) => wf_shape(fs),
        TypeShape::Enum(vs) => forall|i: int|
            0 <= i < vs.len() ==> wf_shape((#[trigger] vs[i]).fields),
        TypeShape::Union => true,
    }
}

} // verus!
