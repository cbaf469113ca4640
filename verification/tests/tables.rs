use jswt::ident::{Ident, Identifier};
use jswt::span::Span;
use jswt::symbols::bindings::{BindingsTable, ClassBinding, FieldBinding};
use jswt::symbols::semantic::{FunctionSignature, SemanticSymbolTable, TypeSignature};
use jswt::symbols::wast_table::{WastSymbol, WastSymbolTable};
use jswt::text::{decimal_string, digit_str};
use jswt::types::{PrimitiveType, Type};
use jswt::wast::ValueType;

fn key(value: &str) -> String {
    value.to_string()
}

#[test]
fn test_new_table_has_no_scope() {
    let table = WastSymbolTable::new();
    assert_eq!(table.depth(), 0);
    assert_eq!(table.lookup(&key("a")), None);
    assert_eq!(table.lookup_current(&key("a")), None);
    assert_eq!(table.lookup_global(&key("a")), None);
    assert!(table.symbols_in_current_scope().is_empty());
}

#[test]
fn test_inner_scope_shadows_outer_scopes() {
    let mut table = WastSymbolTable::new();
    table.push_scope();
    table.define(key("a"), WastSymbol::Global(ValueType::I32));
    table.define(key("g"), WastSymbol::Global(ValueType::F32));
    table.push_scope();
    table.define(key("a"), WastSymbol::Param(0, ValueType::I32));
    table.push_scope();
    table.define(key("a"), WastSymbol::Local(ValueType::F32));
    assert_eq!(table.depth(), 3);

    assert_eq!(table.lookup(&key("a")), Some(WastSymbol::Local(ValueType::F32)));
    assert_eq!(table.lookup_current(&key("a")), Some(WastSymbol::Local(ValueType::F32)));
    assert_eq!(table.lookup_global(&key("a")), Some(WastSymbol::Global(ValueType::I32)));
    // A lookup walks outward, the other two do not
    assert_eq!(table.lookup(&key("g")), Some(WastSymbol::Global(ValueType::F32)));
    assert_eq!(table.lookup_current(&key("g")), None);
    assert_eq!(table.lookup_global(&key("g")), Some(WastSymbol::Global(ValueType::F32)));

    table.pop_scope();
    assert_eq!(table.lookup(&key("a")), Some(WastSymbol::Param(0, ValueType::I32)));
    table.pop_scope();
    assert_eq!(table.lookup(&key("a")), Some(WastSymbol::Global(ValueType::I32)));
    assert_eq!(table.depth(), 1);
    table.pop_scope();
    assert_eq!(table.depth(), 0);
    assert_eq!(table.lookup(&key("a")), None);
}

#[test]
fn test_symbols_come_in_the_order_of_their_first_definition() {
    let mut table = WastSymbolTable::new();
    table.push_scope();
    table.define(key("outer"), WastSymbol::Global(ValueType::I32));
    table.push_scope();
    table.define(key("z"), WastSymbol::Param(0, ValueType::I32));
    table.define(key("a"), WastSymbol::Local(ValueType::I32));
    table.define(key("m"), WastSymbol::Local(ValueType::F32));
    // A second definition changes the symbol and keeps the place
    table.define(key("z"), WastSymbol::Local(ValueType::F32));
    // A lookup changes nothing
    assert_eq!(table.lookup(&key("m")), Some(WastSymbol::Local(ValueType::F32)));
    assert_eq!(
        table.symbols_in_current_scope(),
        vec![
            (key("z"), WastSymbol::Local(ValueType::F32)),
            (key("a"), WastSymbol::Local(ValueType::I32)),
            (key("m"), WastSymbol::Local(ValueType::F32)),
        ]
    );
}

#[test]
fn test_synthetic_locals_are_numbered() {
    let mut table = WastSymbolTable::new();
    table.push_scope();
    assert_eq!(table.define_synthetic_local(ValueType::I32), Some(key("#r0")));
    assert_eq!(table.define_synthetic_local(ValueType::F32), Some(key("#r1")));
    table.synthetic = 1234;
    assert_eq!(table.define_synthetic_local(ValueType::I32), Some(key("#r1234")));
    assert_eq!(table.synthetic, 1235);
    assert_eq!(table.lookup_current(&key("#r1")), Some(WastSymbol::Local(ValueType::F32)));
    assert_eq!(table.symbols_in_current_scope().len(), 3);

    table.synthetic = usize::MAX;
    assert_eq!(table.define_synthetic_local(ValueType::I32), None);
    assert_eq!(table.synthetic, usize::MAX);
    assert_eq!(table.symbols_in_current_scope().len(), 3);
}

#[test]
fn test_decimal_strings() {
    assert_eq!(decimal_string(0), "0");
    assert_eq!(decimal_string(9), "9");
    assert_eq!(decimal_string(10), "10");
    assert_eq!(decimal_string(109), "109");
    assert_eq!(decimal_string(4_294_967_295), "4294967295");
    assert_eq!(decimal_string(usize::MAX), usize::MAX.to_string());
    for digit in 0..10 {
        assert_eq!(digit_str(digit), digit.to_string());
    }
}

fn i32_type() -> Type {
    Type::Primitive(PrimitiveType::I32)
}

fn span(start: usize) -> Span {
    Span::new(2, start, start + 10)
}

#[test]
fn test_semantic_scopes_are_found_by_their_span() {
    let mut table = SemanticSymbolTable::new();
    assert_eq!(table.depth(), 0);
    table.push_global_scope();
    table.define(key("g"), Type::String);
    table.push_scope(span(0), Some(i32_type()));
    table.define(key("a"), i32_type());
    table.define(key("g"), Type::Void);
    assert_eq!(table.depth(), 2);
    assert_eq!(table.lookup(&key("a")), Some(&i32_type()));
    assert_eq!(table.lookup(&key("g")), Some(&Type::Void));
    assert_eq!(table.lookup(&key("x")), None);
    table.pop_scope();
    assert_eq!(table.lookup(&key("a")), None);
    assert_eq!(table.lookup(&key("g")), Some(&Type::String));
    table.pop_scope();
    assert_eq!(table.depth(), 0);
    assert_eq!(table.lookup(&key("g")), None);

    // The scope is entered again with what it held
    table.push_scope(span(0), None);
    assert_eq!(table.lookup(&key("a")), Some(&i32_type()));
    assert_eq!(table.get_scope(span(0)).unwrap().returns, Some(i32_type()));
    table.pop_scope();
    // A result type that is named replaces the one that is known
    table.push_scope(span(0), Some(Type::Void));
    table.pop_scope();
    assert_eq!(table.get_scope(span(0)).unwrap().returns, Some(Type::Void));
    assert_eq!(table.get_scope(span(0)).unwrap().symbols.len(), 2);
    assert!(table.get_scope(span(1)).is_none());
    assert_eq!(table.scopes.len(), 2);
}

#[test]
fn test_semantic_scope_of_an_unknown_span_is_made_empty() {
    let mut table = SemanticSymbolTable::new();
    table.push_scope(span(0), None);
    table.push_scope(span(5), Some(Type::Unknown));
    table.define(key("a"), i32_type());
    table.define(key("a"), Type::String);
    assert_eq!(table.lookup(&key("a")), Some(&Type::String));
    table.pop_scope();
    table.pop_scope();
    assert_eq!(table.get_scope(span(0)).unwrap().symbols.len(), 0);
    assert_eq!(table.get_scope(span(0)).unwrap().returns, None);
    assert_eq!(table.get_scope(span(5)).unwrap().symbols.len(), 1);
    // A synthetic span is a key like any other
    table.push_scope(Span::synthetic(), None);
    assert!(table.get_scope(Span::synthetic()).is_some());
}

fn point() -> ClassBinding {
    ClassBinding {
        name: key("Point"),
        size: 12,
        fields: vec![
            FieldBinding { name: key("x"), offset: 0, ty: i32_type() },
            FieldBinding { name: key("y"), offset: 4, ty: i32_type() },
            FieldBinding { name: key("z"), offset: 8, ty: Type::Primitive(PrimitiveType::F32) },
        ],
        methods: vec![key("add")],
    }
}

#[test]
fn test_bindings_give_sizes_and_offsets() {
    let mut bindings = BindingsTable::new();
    assert_eq!(bindings.size_of(&key("Point")), None);
    bindings.insert(point());
    bindings.insert(ClassBinding { name: key("Empty"), size: 0, fields: vec![], methods: vec![] });
    // Of two classes with one name the first is found
    bindings.insert(ClassBinding { name: key("Point"), size: 99, fields: vec![], methods: vec![] });

    assert_eq!(bindings.size_of(&key("Point")), Some(12));
    assert_eq!(bindings.size_of(&key("Empty")), Some(0));
    assert_eq!(bindings.size_of(&key("Line")), None);
    assert_eq!(bindings.offset_of(&key("Point"), &key("x")), Some(0));
    assert_eq!(bindings.offset_of(&key("Point"), &key("z")), Some(8));
    assert_eq!(bindings.offset_of(&key("Point"), &key("w")), None);
    assert_eq!(bindings.offset_of(&key("Empty"), &key("x")), None);
    assert_eq!(bindings.offset_of(&key("Line"), &key("x")), None);
    assert_eq!(bindings.lookup(&key("Point")).unwrap().methods, vec![key("add")]);
    assert_eq!(point().field(&key("y")).unwrap().offset, 4);
    assert!(point().field(&key("add")).is_none());
}

#[test]
fn test_type_names() {
    assert_eq!(i32_type().name(), "i32");
    assert_eq!(Type::Primitive(PrimitiveType::U32).name(), "u32");
    assert_eq!(Type::Primitive(PrimitiveType::F32).name(), "f32");
    assert_eq!(Type::Primitive(PrimitiveType::Boolean).name(), "bool");
    assert_eq!(Type::Array(Box::new(Type::String)).name(), "Array");
    assert_eq!(Type::String.name(), "string");
    assert_eq!(Type::Object(key("Point")).name(), "Point");
    assert_eq!(Type::Function(vec![], Box::new(Type::Void)).name(), "function");
    assert_eq!(Type::Void.name(), "void");
    assert_eq!(Type::Unknown.name(), "unknown");
}

#[test]
fn test_types_are_copied_and_classified() {
    let nested = Type::Function(
        vec![Type::Array(Box::new(Type::Object(key("Point")))), i32_type()],
        Box::new(Type::Function(vec![], Box::new(Type::String))),
    );
    assert_eq!(nested.duplicate(), nested);
    assert_eq!(nested.primitive(), None);
    assert_eq!(i32_type().primitive(), Some(PrimitiveType::I32));
    assert_eq!(ValueType::from_type(&Type::Primitive(PrimitiveType::F32)), ValueType::F32);
    for ty in [i32_type(), Type::Primitive(PrimitiveType::Boolean), Type::String, nested] {
        assert_eq!(ValueType::from_type(&ty), ValueType::I32);
    }
}

#[test]
fn test_spans_and_names() {
    let span = Span::new(3, 5, 8);
    assert_eq!(span, Span { file: 3, start: 5, end: 8, synthetic: false });
    assert!(!span.is_synthetic());
    assert!(Span::synthetic().is_synthetic());
    assert_eq!(Span::synthetic(), Span::synthetic());

    let ident = Ident::new("main", span);
    assert_eq!(ident, Ident { span, value: key("main") });
    assert_eq!(ident.duplicate(), ident);
    assert_eq!(Ident::from_string(key("main"), span), ident);
    let identifier = Identifier::new("x", Span::synthetic());
    assert_eq!(identifier.value, "x");
    assert!(identifier.span.is_synthetic());
    assert_eq!(identifier.duplicate(), Identifier::from_string(key("x"), Span::synthetic()));
}

#[test]
fn test_signatures() {
    let signature = FunctionSignature {
        params: vec![i32_type(), Type::Object(key("Point"))],
        returns: Type::Void,
    };
    assert_eq!(
        signature.ty(),
        Type::Function(vec![i32_type(), Type::Object(key("Point"))], Box::new(Type::Void))
    );
    let variable = TypeSignature { ty: Type::String };
    assert_eq!(variable.ty.name(), "string");
}
