use derive_demo::ast::{Attr, AttrStyle, Field, FieldType, FieldsShape, IdentPath, Meta, MetaValue,
    TypeDecl, TypeShape, VariantDecl};
use derive_demo::render::render;
use derive_demo::synth::{GeneratedConstructor, ShapeKind};

fn path(segs: &[&str]) -> IdentPath {
    IdentPath { segments: segs.iter().map(|s| s.to_string()).collect() }
}

fn ty(text: &str) -> FieldType {
    FieldType { text: text.to_string(), path: None }
}

fn ty_path(text: &str, segs: &[&str]) -> FieldType {
    FieldType { text: text.to_string(), path: Some(path(segs)) }
}

fn named_field(name: &str, t: FieldType, attrs: Vec<Attr>) -> Field {
    Field { ident: Some(name.to_string()), ty: t, attrs }
}

fn pos_field(t: FieldType, attrs: Vec<Attr>) -> Field {
    Field { ident: None, ty: t, attrs }
}

fn demo_marker(name: &str) -> Attr {
    Attr {
        style: AttrStyle::Outer,
        meta: Meta::List(path(&["Demo"]), Some(vec![Meta::Path(path(&[name]))])),
        text: format!("#[Demo({})]", name),
    }
}

fn demo_kv(key: &str, val: &str) -> Attr {
    Attr {
        style: AttrStyle::Outer,
        meta: Meta::List(
            path(&["Demo"]),
            Some(vec![Meta::NameValue(path(&[key]), MetaValue::Str(val.to_string()))]),
        ),
        text: format!("#[Demo({} = {:?})]", key, val),
    }
}

fn struct_decl(name: &str, fields: FieldsShape, attrs: Vec<Attr>) -> TypeDecl {
    TypeDecl {
        ident: name.to_string(),
        impl_generics: String::new(),
        ty_generics: String::new(),
        where_clause: String::new(),
        attrs,
        shape: TypeShape::Struct(fields),
    }
}

fn generic_struct_decl(
    name: &str,
    ig: &str,
    tg: &str,
    wc: &str,
    fields: FieldsShape,
    attrs: Vec<Attr>,
) -> TypeDecl {
    TypeDecl {
        ident: name.to_string(),
        impl_generics: ig.to_string(),
        ty_generics: tg.to_string(),
        where_clause: wc.to_string(),
        attrs,
        shape: TypeShape::Struct(fields),
    }
}

fn variant(name: &str, fields: FieldsShape) -> VariantDecl {
    VariantDecl { ident: name.to_string(), fields, has_discriminant: false }
}

fn strs(v: &[&str]) -> Vec<String> {
    v.iter().map(|s| s.to_string()).collect()
}

fn one(decl: &TypeDecl) -> GeneratedConstructor {
    let mut gs = derive_demo::synth::derive(decl).unwrap();
    assert_eq!(gs.len(), 1);
    gs.remove(0)
}

#[test]
fn test_empty_struct() {
    // pub struct Foo {}
    let decl = struct_decl("Foo", FieldsShape::Named(vec![]), vec![]);
    let g = one(&decl);
    assert_eq!(g.fn_name, "demo");
    assert_eq!(g.visibility, "pub");
    assert!(g.params.is_empty());
    assert!(g.inits.is_empty());
    assert!(matches!(g.shape, ShapeKind::Named));
    assert_eq!(
        render(&g),
        r#"impl Foo { #[doc = "Constructs a demo `Foo`."] pub fn demo() -> Self { Foo {} } }"#
    );
}

#[test]
fn test_unit_struct() {
    // pub struct Baz;
    let decl = struct_decl("Baz", FieldsShape::Unit, vec![]);
    let g = one(&decl);
    assert_eq!(g.fn_name, "demo");
    assert!(g.params.is_empty());
    assert!(matches!(g.shape, ShapeKind::Unit));
    assert_eq!(
        render(&g),
        r#"impl Baz { #[doc = "Constructs a demo `Baz`."] pub fn demo() -> Self { Baz } }"#
    );
}

#[test]
fn test_simple_struct() {
    // #[Demo(visibility = "pub(crate)")] pub struct Bar { pub x: i32, pub y: String }
    // Bar::demo(42, "Hello".to_owned()) == Bar { x: 42, y: "Hello".to_owned() }
    let decl = struct_decl(
        "Bar",
        FieldsShape::Named(vec![
            named_field("x", ty("i32"), vec![]),
            named_field("y", ty("String"), vec![]),
        ]),
        vec![demo_kv("visibility", "pub(crate)")],
    );
    let g = one(&decl);
    assert_eq!(g.fn_name, "demo");
    assert_eq!(g.visibility, "pub(crate)");
    assert_eq!(g.params, strs(&["x: i32", "y: String"]));
    assert_eq!(g.inits, strs(&["x: x", "y: y"]));
    assert_eq!(
        render(&g),
        r#"impl Bar { #[doc = "Constructs a demo `Bar`."] pub(crate) fn demo(x: i32, y: String) -> Self { Bar { x: x, y: y } } }"#
    );
}

#[test]
fn test_struct_with_lifetime() {
    // pub struct Intersection<'scene> { object: &'scene Bar, normal: Foo, point: Foo, t: f64 }
    let decl = generic_struct_decl(
        "Intersection",
        "<'scene>",
        "<'scene>",
        "",
        FieldsShape::Named(vec![
            named_field("object", ty("&'scene Bar"), vec![]),
            named_field("normal", ty_path("Foo", &["Foo"]), vec![]),
            named_field("point", ty_path("Foo", &["Foo"]), vec![]),
            named_field("t", ty("f64"), vec![]),
        ]),
        vec![],
    );
    let g = one(&decl);
    assert_eq!(g.params, strs(&["object: &'scene Bar", "normal: Foo", "point: Foo", "t: f64"]));
    assert_eq!(g.inits, strs(&["object: object", "normal: normal", "point: point", "t: t"]));
    assert!(render(&g).starts_with("impl<'scene> Intersection<'scene> { "));
}

#[test]
fn test_struct_with_bounds() {
    // pub struct Qux<T: Debug + PartialEq, U: Debug + PartialEq> { f1: T, f2: Vec<U>, f3: i32 }
    let decl = generic_struct_decl(
        "Qux",
        "<T: Debug + PartialEq, U: Debug + PartialEq>",
        "<T, U>",
        "",
        FieldsShape::Named(vec![
            named_field("f1", ty_path("T", &["T"]), vec![]),
            named_field("f2", ty_path("Vec<U>", &["Vec"]), vec![]),
            named_field("f3", ty("i32"), vec![]),
        ]),
        vec![],
    );
    let g = one(&decl);
    assert_eq!(g.params, strs(&["f1: T", "f2: Vec<U>", "f3: i32"]));
    assert_eq!(g.inits, strs(&["f1: f1", "f2: f2", "f3: f3"]));
    assert!(render(&g).starts_with(
        "impl<T: Debug + PartialEq, U: Debug + PartialEq> Qux<T, U> { "
    ));
}

#[test]
fn test_struct_lifetime_bounds() {
    // pub struct FooBar<'a, T, U> where T: ..., U: ... { f1: Box<T>, f2: Vec<&'a U>, f3: i32 }
    let decl = generic_struct_decl(
        "FooBar",
        "<'a, T, U>",
        "<'a, T, U>",
        "where T: 'a + PartialEq + Debug, U: Sized + Send + 'a + PartialEq + Debug",
        FieldsShape::Named(vec![
            named_field("f1", ty_path("Box<T>", &["Box"]), vec![]),
            named_field("f2", ty_path("Vec<&'a U>", &["Vec"]), vec![]),
            named_field("f3", ty("i32"), vec![]),
        ]),
        vec![],
    );
    let g = one(&decl);
    assert_eq!(g.params, strs(&["f1: Box<T>", "f2: Vec<&'a U>", "f3: i32"]));
    assert!(render(&g).starts_with(
        "impl<'a, T, U> FooBar<'a, T, U> where T: 'a + PartialEq + Debug, U: Sized + Send + 'a + PartialEq + Debug { "
    ));
}

#[test]
fn test_simple_tuple_struct() {
    // pub struct Tuple(pub i32, pub i32); demo(5, 6) == Tuple(5, 6)
    let decl = struct_decl(
        "Tuple",
        FieldsShape::Unnamed(vec![pos_field(ty("i32"), vec![]), pos_field(ty("i32"), vec![])]),
        vec![],
    );
    let g = one(&decl);
    assert_eq!(g.params, strs(&["f0: i32", "f1: i32"]));
    assert_eq!(g.inits, strs(&["f0", "f1"]));
    assert!(matches!(g.shape, ShapeKind::Positional));
    assert_eq!(
        render(&g),
        r#"impl Tuple { #[doc = "Constructs a demo `Tuple`."] pub fn demo(f0: i32, f1: i32) -> Self { Tuple(f0, f1) } }"#
    );
}

#[test]
fn test_tuple_struct_lifetime() {
    // pub struct TupleWithLifetime<'a>(pub &'a str); demo("Hello")
    let decl = generic_struct_decl(
        "TupleWithLifetime",
        "<'a>",
        "<'a>",
        "",
        FieldsShape::Unnamed(vec![pos_field(ty("&'a str"), vec![])]),
        vec![],
    );
    let g = one(&decl);
    assert_eq!(g.params, strs(&["f0: &'a str"]));
    assert_eq!(g.inits, strs(&["f0"]));
}

#[test]
fn test_struct_with_defaults() {
    // pub struct Waldo<T: PartialEq + Debug + Default> {
    //     #[Demo(default)] x: i32, y: u8, #[Demo(default)] z: T }
    // Waldo::<Vec<String>>::demo(42) == Waldo { x: 0, y: 42, z: vec![] }
    let decl = generic_struct_decl(
        "Waldo",
        "<T: PartialEq + Debug + Default>",
        "<T>",
        "",
        FieldsShape::Named(vec![
            named_field("x", ty("i32"), vec![demo_marker("default")]),
            named_field("y", ty("u8"), vec![]),
            named_field("z", ty_path("T", &["T"]), vec![demo_marker("default")]),
        ]),
        vec![],
    );
    let g = one(&decl);
    assert_eq!(g.params, strs(&["y: u8"]));
    assert_eq!(
        g.inits,
        strs(&[
            "x: ::core::default::Default::default()",
            "y: y",
            "z: ::core::default::Default::default()",
        ])
    );
}

#[test]
fn test_struct_with_into() {
    // pub struct Foo { #[Demo(into)] value: String }; Foo::demo("bar")
    let decl = struct_decl(
        "Foo",
        FieldsShape::Named(vec![named_field("value", ty("String"), vec![demo_marker("into")])]),
        vec![],
    );
    let g = one(&decl);
    assert_eq!(g.params, strs(&["value: impl ::core::convert::Into<String>"]));
    assert_eq!(g.inits, strs(&["value: ::core::convert::Into::into(value)"]));
}

#[test]
fn test_struct_with_into_iter() {
    // pub struct Foo { #[Demo(into_iter = "bool")] values: Vec<bool> }
    // Foo::demo([true, false, true]); Foo::demo(Some(false)); Foo::demo(None)
    let decl = struct_decl(
        "Foo",
        FieldsShape::Named(vec![
            named_field("values", ty_path("Vec<bool>", &["Vec"]), vec![demo_kv(
                "into_iter", "bool",
            )]),
        ]),
        vec![],
    );
    let g = one(&decl);
    assert_eq!(g.params, strs(&["values: impl ::core::iter::IntoIterator<Item = bool>"]));
    assert_eq!(
        g.inits,
        strs(&["values: ::core::iter::Iterator::collect(::core::iter::IntoIterator::into_iter(values))"])
    );
}

#[test]
fn test_struct_with_values() {
    // pub struct Fred { #[Demo(value = "1 + 2")] x: i32, y: String,
    //                   #[Demo(value = "vec![-42, 42]")] z: Vec<i8> }
    // Fred::demo("Fred".to_owned()) == Fred { x: 3, y: "Fred".to_owned(), z: vec![-42, 42] }
    let decl = struct_decl(
        "Fred",
        FieldsShape::Named(vec![
            named_field("x", ty("i32"), vec![demo_kv("value", "1 + 2")]),
            named_field("y", ty("String"), vec![]),
            named_field("z", ty_path("Vec<i8>", &["Vec"]), vec![demo_kv("value", "vec![-42, 42]")]),
        ]),
        vec![],
    );
    let g = one(&decl);
    assert_eq!(g.params, strs(&["y: String"]));
    assert_eq!(g.inits, strs(&["x: 1 + 2", "y: y", "z: vec![-42, 42]"]));
    assert_eq!(
        render(&g),
        r#"impl Fred { #[doc = "Constructs a demo `Fred`."] pub fn demo(y: String) -> Self { Fred { x: 1 + 2, y: y, z: vec![-42, 42] } } }"#
    );
}

#[test]
fn test_struct_mixed_defaults() {
    // pub struct Thud { #[Demo(value = r#""Thud".to_owned()"#)] x: String,
    //                   #[Demo(default)] y: String }
    let decl = struct_decl(
        "Thud",
        FieldsShape::Named(vec![
            named_field("x", ty("String"), vec![demo_kv("value", "\"Thud\".to_owned()")]),
            named_field("y", ty("String"), vec![demo_marker("default")]),
        ]),
        vec![],
    );
    let g = one(&decl);
    assert!(g.params.is_empty());
    assert_eq!(
        g.inits,
        strs(&["x: \"Thud\".to_owned()", "y: ::core::default::Default::default()"])
    );
}

#[test]
fn test_struct_phantom_data() {
    // pub struct Bob<T: PartialEq + Debug> { a: i32, b: PhantomData<T> }
    // Bob::<i32>::demo(42) == Bob { a: 42, b: PhantomData }
    let decl = generic_struct_decl(
        "Bob",
        "<T: PartialEq + Debug>",
        "<T>",
        "",
        FieldsShape::Named(vec![
            named_field("a", ty("i32"), vec![]),
            named_field("b", ty_path("PhantomData<T>", &["PhantomData"]), vec![]),
        ]),
        vec![],
    );
    let g = one(&decl);
    assert_eq!(g.params, strs(&["a: i32"]));
    assert_eq!(g.inits, strs(&["a: a", "b: ::core::marker::PhantomData"]));
}

#[test]
fn test_tuple_with_defaults() {
    // pub struct Boom<T: PartialEq + Debug + Default>(
    //     #[Demo(default)] pub i32, pub u8, #[Demo(default)] pub T);
    let decl = generic_struct_decl(
        "Boom",
        "<T: PartialEq + Debug + Default>",
        "<T>",
        "",
        FieldsShape::Unnamed(vec![
            pos_field(ty("i32"), vec![demo_marker("default")]),
            pos_field(ty("u8"), vec![]),
            pos_field(ty_path("T", &["T"]), vec![demo_marker("default")]),
        ]),
        vec![],
    );
    let g = one(&decl);
    assert_eq!(g.params, strs(&["f1: u8"]));
    assert_eq!(
        g.inits,
        strs(&[
            "::core::default::Default::default()",
            "f1",
            "::core::default::Default::default()",
        ])
    );
}

#[test]
fn test_tuple_with_values() {
    // pub struct Moog(#[Demo(value = "1 + 2")] pub i32, pub String,
    //                 #[Demo(value = "vec![-42, 42]")] pub Vec<i8>);
    // Moog::demo("Fred".to_owned()) == Moog(3, "Fred".to_owned(), vec![-42, 42])
    let decl = struct_decl(
        "Moog",
        FieldsShape::Unnamed(vec![
            pos_field(ty("i32"), vec![demo_kv("value", "1 + 2")]),
            pos_field(ty("String"), vec![]),
            pos_field(ty_path("Vec<i8>", &["Vec"]), vec![demo_kv("value", "vec![-42, 42]")]),
        ]),
        vec![],
    );
    let g = one(&decl);
    assert_eq!(g.params, strs(&["f1: String"]));
    assert_eq!(g.inits, strs(&["1 + 2", "f1", "vec![-42, 42]"]));
    assert_eq!(
        render(&g),
        r#"impl Moog { #[doc = "Constructs a demo `Moog`."] pub fn demo(f1: String) -> Self { Moog(1 + 2, f1, vec![-42, 42]) } }"#
    );
}

#[test]
fn test_tuple_mixed_defaults() {
    // pub struct Crab(#[Demo(value = r#""Thud".to_owned()"#)] pub String,
    //                 #[Demo(default)] pub String);
    let decl = struct_decl(
        "Crab",
        FieldsShape::Unnamed(vec![
            pos_field(ty("String"), vec![demo_kv("value", "\"Thud\".to_owned()")]),
            pos_field(ty("String"), vec![demo_marker("default")]),
        ]),
        vec![],
    );
    let g = one(&decl);
    assert!(g.params.is_empty());
    assert_eq!(
        g.inits,
        strs(&["\"Thud\".to_owned()", "::core::default::Default::default()"])
    );
}

#[test]
fn test_tuple_phantom_data() {
    // pub struct Sponge<T: PartialEq + Debug>(pub i32, pub PhantomData<T>);
    let decl = generic_struct_decl(
        "Sponge",
        "<T: PartialEq + Debug>",
        "<T>",
        "",
        FieldsShape::Unnamed(vec![
            pos_field(ty("i32"), vec![]),
            pos_field(ty_path("PhantomData<T>", &["PhantomData"]), vec![]),
        ]),
        vec![],
    );
    let g = one(&decl);
    assert_eq!(g.params, strs(&["f0: i32"]));
    assert_eq!(g.inits, strs(&["f0", "::core::marker::PhantomData"]));
}

#[test]
fn test_enum_unit_variants() {
    // pub enum Fizz { ThisISNotADrill, BiteMe }
    // Fizz::demo_this_is_not_a_drill() == Fizz::ThisISNotADrill
    // Fizz::demo_bite_me() == Fizz::BiteMe
    let decl = TypeDecl {
        ident: "Fizz".to_string(),
        impl_generics: String::new(),
        ty_generics: String::new(),
        where_clause: String::new(),
        attrs: vec![],
        shape: TypeShape::Enum(vec![
            variant("ThisISNotADrill", FieldsShape::Unit),
            variant("BiteMe", FieldsShape::Unit),
        ]),
    };
    let gs = derive_demo::synth::derive(&decl).unwrap();
    assert_eq!(gs.len(), 2);
    assert_eq!(gs[0].fn_name, "demo_this_is_not_a_drill");
    assert_eq!(gs[1].fn_name, "demo_bite_me");
    assert_eq!(
        render(&gs[0]),
        r#"impl Fizz { #[doc = "Constructs a demo `Fizz::ThisISNotADrill`."] pub fn demo_this_is_not_a_drill() -> Self { Fizz::ThisISNotADrill } }"#
    );
    assert_eq!(
        render(&gs[1]),
        r#"impl Fizz { #[doc = "Constructs a demo `Fizz::BiteMe`."] pub fn demo_bite_me() -> Self { Fizz::BiteMe } }"#
    );
}

#[test]
fn test_more_involved_enum() {
    // pub enum Enterprise<T: PartialEq + Debug + Default> {
    //     Picard,
    //     Data(#[Demo(value = "\"fascinating\".to_owned()")] String, #[Demo(default)] T),
    //     Spock { x: PhantomData<T>, y: i32 },
    // }
    let decl = TypeDecl {
        ident: "Enterprise".to_string(),
        impl_generics: "<T: PartialEq + Debug + Default>".to_string(),
        ty_generics: "<T>".to_string(),
        where_clause: String::new(),
        attrs: vec![],
        shape: TypeShape::Enum(vec![
            variant("Picard", FieldsShape::Unit),
            variant(
                "Data",
                FieldsShape::Unnamed(vec![
                    pos_field(ty("String"), vec![demo_kv("value", "\"fascinating\".to_owned()")]),
                    pos_field(ty_path("T", &["T"]), vec![demo_marker("default")]),
                ]),
            ),
            variant(
                "Spock",
                FieldsShape::Named(vec![
                    named_field("x", ty_path("PhantomData<T>", &["PhantomData"]), vec![]),
                    named_field("y", ty("i32"), vec![]),
                ]),
            ),
        ]),
    };
    let gs = derive_demo::synth::derive(&decl).unwrap();
    assert_eq!(gs.len(), 3);
    assert_eq!(gs[0].fn_name, "demo_picard");
    assert!(gs[0].params.is_empty());
    assert_eq!(gs[1].fn_name, "demo_data");
    assert!(gs[1].params.is_empty());
    assert_eq!(
        gs[1].inits,
        strs(&["\"fascinating\".to_owned()", "::core::default::Default::default()"])
    );
    assert_eq!(gs[2].fn_name, "demo_spock");
    assert_eq!(gs[2].params, strs(&["y: i32"]));
    assert_eq!(gs[2].inits, strs(&["x: ::core::marker::PhantomData", "y: y"]));
    assert!(render(&gs[2]).starts_with(
        "impl<T: PartialEq + Debug + Default> Enterprise<T> { "
    ));
}

#[test]
fn test_many_positional_fields() {
    // synthesized positional names keep counting past one digit
    let fields: Vec<Field> = (0..12).map(|_| pos_field(ty("u8"), vec![])).collect();
    let decl = struct_decl("Wide", FieldsShape::Unnamed(fields), vec![]);
    let g = one(&decl);
    assert_eq!(g.params.len(), 12);
    assert_eq!(g.params[0], "f0: u8");
    assert_eq!(g.params[9], "f9: u8");
    assert_eq!(g.params[10], "f10: u8");
    assert_eq!(g.params[11], "f11: u8");
    assert_eq!(g.inits[11], "f11");
}

#[test]
fn test_plain_two_field_struct() {
    // struct Bar { a: i32, b: String } with no attributes:
    // Bar::demo(42, "Hello".to_owned()) == Bar { a: 42, b: "Hello".to_owned() }
    let decl = struct_decl(
        "Bar",
        FieldsShape::Named(vec![
            named_field("a", ty("i32"), vec![]),
            named_field("b", ty("String"), vec![]),
        ]),
        vec![],
    );
    let g = one(&decl);
    assert_eq!(g.params, strs(&["a: i32", "b: String"]));
    assert_eq!(g.inits, strs(&["a: a", "b: b"]));
    assert_eq!(
        render(&g),
        r#"impl Bar { #[doc = "Constructs a demo `Bar`."] pub fn demo(a: i32, b: String) -> Self { Bar { a: a, b: b } } }"#
    );
}
