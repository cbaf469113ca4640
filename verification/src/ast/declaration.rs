use crate::ast::expression::{ExprView, SingleExpression};
use crate::ast::statement::{StatementElement, StatementView};
use crate::ident::{Ident, IdentView};
use crate::span::Span;
use crate::wast::views;
use vstd::prelude::*;

verus! {

#[derive(Debug, Clone, Copy, PartialEq, Eq, Structural)]
pub enum Primitive {
    I32,
    U32,
    F32,
    Boolean,
}

/// A type as the source names it.
#[derive(Debug, PartialEq)]
pub enum PrimaryTypeAnnotation {
    /// A class, by its name.
    Reference(Ident),
    Primitive(Primitive),
    Array(Box<PrimaryTypeAnnotation>),
}

pub enum PrimaryTypeAnnotationView {
    Reference(IdentView),
    Primitive(Primitive),
    Array(Box<PrimaryTypeAnnotationView>),
}

#[derive(Debug, PartialEq)]
pub enum TypeAnnotation {
    Primary(PrimaryTypeAnnotation),
}

pub enum TypeAnnotationView {
    Primary(PrimaryTypeAnnotationView),
}

impl PrimaryTypeAnnotation {
    /// The node as the contracts see it.
    pub open spec fn model(self) -> PrimaryTypeAnnotationView
        decreases self,
    {
        match self {
            PrimaryTypeAnnotation::Reference(ident) => PrimaryTypeAnnotationView::Reference(ident@),
            PrimaryTypeAnnotation::Primitive(p) => PrimaryTypeAnnotationView::Primitive(p),
            PrimaryTypeAnnotation::Array(inner) => PrimaryTypeAnnotationView::Array(
                Box::new((*inner).model()),
            ),
        }
    }

    /// A copy of the annotation.
    pub fn duplicate(&self) -> (copy: Self)
        ensures
            copy@ == self@,
        decreases self,
    {
        match self {
            PrimaryTypeAnnotation::Reference(ident) => PrimaryTypeAnnotation::Reference(
                ident.duplicate(),
            ),
            PrimaryTypeAnnotation::Primitive(p) => PrimaryTypeAnnotation::Primitive(*p),
            PrimaryTypeAnnotation::Array(inner) => PrimaryTypeAnnotation::Array(
                Box::new(inner.duplicate()),
            ),
        }
    }
}

impl View for PrimaryTypeAnnotation {
    type V = PrimaryTypeAnnotationView;

    open spec fn view(&self) -> PrimaryTypeAnnotationView {
        self.model()
    }
}

impl View for TypeAnnotation {
    type V = TypeAnnotationView;

    open spec fn view(&self) -> TypeAnnotationView {
        match self {
            TypeAnnotation::Primary(primary) => TypeAnnotationView::Primary(primary@),
        }
    }
}

impl TypeAnnotation {
    /// A copy of the annotation.
    pub fn duplicate(&self) -> (copy: Self)
        ensures
            copy@ == self@,
    {
        match self {
            TypeAnnotation::Primary(primary) => TypeAnnotation::Primary(primary.duplicate()),
        }
    }
}

/// The view of an optional type annotation.
pub open spec fn returns_view(returns: Option<TypeAnnotation>) -> Option<TypeAnnotationView> {
    match returns {
        Some(annotation) => Some(annotation@),
        None => None,
    }
}

#[derive(Debug, PartialEq)]
pub struct FormalParameterArg {
    pub ident: Ident,
    pub type_annotation: TypeAnnotation,
}

pub struct ParameterView {
    pub ident: IdentView,
    pub type_annotation: TypeAnnotationView,
}

impl View for FormalParameterArg {
    type V = ParameterView;

    open spec fn view(&self) -> ParameterView {
        ParameterView { ident: self.ident@, type_annotation: self.type_annotation@ }
    }
}

impl FormalParameterArg {
    /// A copy of the parameter.
    pub fn duplicate(&self) -> (copy: Self)
        ensures
            copy@ == self@,
    {
        FormalParameterArg {
            ident: self.ident.duplicate(),
            type_annotation: self.type_annotation.duplicate(),
        }
    }
}

#[derive(Debug, PartialEq)]
pub struct FormalParameterList {
    pub parameters: Vec<FormalParameterArg>,
}

impl View for FormalParameterList {
    type V = Seq<ParameterView>;

    open spec fn view(&self) -> Seq<ParameterView> {
        views(self.parameters)
    }
}

/// An annotation in front of a function: `@name` or `@name(expr)`.
#[derive(Debug, PartialEq)]
pub struct Annotation {
    pub span: Span,
    pub name: Ident,
    pub expr: Option<SingleExpression>,
}

pub struct AnnotationView {
    pub span: Span,
    pub name: IdentView,
    pub expr: Option<ExprView>,
}

impl View for Annotation {
    type V = AnnotationView;

    open spec fn view(&self) -> AnnotationView {
        AnnotationView {
            span: self.span,
            name: self.name@,
            expr: match self.expr {
                Some(e) => Some(e@),
                None => None,
            },
        }
    }
}

#[derive(Debug, PartialEq)]
pub struct FunctionDecorators {
    pub annotations: Vec<Annotation>,
    pub export: bool,
}

pub struct DecoratorsView {
    pub annotations: Seq<AnnotationView>,
    pub export: bool,
}

impl View for FunctionDecorators {
    type V = DecoratorsView;

    open spec fn view(&self) -> DecoratorsView {
        DecoratorsView { annotations: views(self.annotations), export: self.export }
    }
}

#[derive(Debug, PartialEq)]
pub enum SourceElement {
    FunctionDeclaration(FunctionDeclarationElement),
    Statement(StatementElement),
    ClassDeclaration(ClassDeclarationElement),
}

pub enum SourceElementView {
    FunctionDeclaration(FunctionDeclView),
    Statement(StatementView),
    ClassDeclaration(ClassView),
}

#[derive(Debug, PartialEq)]
pub struct SourceElements {
    pub source_elements: Vec<SourceElement>,
}

#[derive(Debug, PartialEq)]
pub struct FunctionBody {
    pub span: Span,
    pub source_elements: SourceElements,
}

pub struct BodyView {
    pub span: Span,
    pub source_elements: Seq<SourceElementView>,
}

#[derive(Debug, PartialEq)]
pub struct FunctionDeclarationElement {
    pub span: Span,
    pub decorators: FunctionDecorators,
    pub ident: Ident,
    pub params: FormalParameterList,
    pub returns: Option<TypeAnnotation>,
    pub body: FunctionBody,
}

pub struct FunctionDeclView {
    pub span: Span,
    pub decorators: DecoratorsView,
    pub ident: IdentView,
    pub params: Seq<ParameterView>,
    pub returns: Option<TypeAnnotationView>,
    pub body: BodyView,
}

#[derive(Debug, PartialEq)]
pub struct ClassDeclarationElement {
    pub span: Span,
    pub ident: Ident,
    pub body: ClassBody,
}

pub struct ClassView {
    pub span: Span,
    pub ident: IdentView,
    pub body: ClassBodyView,
}

#[derive(Debug, PartialEq)]
pub struct ClassBody {
    pub span: Span,
    pub class_elements: Vec<ClassElement>,
}

pub struct ClassBodyView {
    pub span: Span,
    pub class_elements: Seq<ClassElementView>,
}

#[derive(Debug, PartialEq)]
pub enum ClassElement {
    Constructor(ClassConstructorElement),
    Method(ClassMethodElement),
    Field(ClassFieldElement),
}

pub enum ClassElementView {
    Constructor(ConstructorView),
    Method(MethodView),
    Field(FieldView),
}

#[derive(Debug, PartialEq)]
pub struct ClassConstructorElement {
    pub span: Span,
    pub params: FormalParameterList,
    pub body: FunctionBody,
}

pub struct ConstructorView {
    pub span: Span,
    pub params: Seq<ParameterView>,
    pub body: BodyView,
}

#[derive(Debug, PartialEq)]
pub struct ClassMethodElement {
    pub span: Span,
    pub ident: Ident,
    pub params: FormalParameterList,
    pub returns: Option<TypeAnnotation>,
    pub body: FunctionBody,
}

pub struct MethodView {
    pub span: Span,
    pub ident: IdentView,
    pub params: Seq<ParameterView>,
    pub returns: Option<TypeAnnotationView>,
    pub body: BodyView,
}

#[derive(Debug, PartialEq)]
pub struct ClassFieldElement {
    pub span: Span,
    pub ident: Ident,
    pub type_annotation: TypeAnnotation,
}

pub struct FieldView {
    pub span: Span,
    pub ident: IdentView,
    pub type_annotation: TypeAnnotationView,
}

/// The views of a list of source elements, in order.
pub open spec fn source_element_views(list: Vec<SourceElement>) -> Seq<SourceElementView>
    decreases list,
{
    Seq::new(
        list.len() as nat,
        |i: int|
            if 0 <= i < list.len() {
                list[i].model()
            } else {
                SourceElementView::Statement(StatementView::Empty(Span::synthetic_span()))
            },
    )
}

/// The views of the elements of a class, in order.
pub open spec fn class_element_views(list: Vec<ClassElement>) -> Seq<ClassElementView>
    decreases list,
{
    Seq::new(
        list.len() as nat,
        |i: int|
            if 0 <= i < list.len() {
                list[i].model()
            } else {
                ClassElementView::Field(
                    FieldView {
                        span: Span::synthetic_span(),
                        ident: IdentView { span: Span::synthetic_span(), value: Seq::empty() },
                        type_annotation: TypeAnnotationView::Primary(
                            PrimaryTypeAnnotationView::Primitive(Primitive::I32),
                        ),
                    },
                )
            },
    )
}

impl SourceElements {
    /// The node as the contracts see it.
    pub open spec fn model(self) -> Seq<SourceElementView>
        decreases self,
    {
        source_element_views(self.source_elements)
    }
}

impl FunctionBody {
    /// The node as the contracts see it.
    pub open spec fn model(self) -> BodyView
        decreases self,
    {
        BodyView { span: self.span, source_elements: self.source_elements.model() }
    }
}

impl FunctionDeclarationElement {
    /// The node as the contracts see it.
    pub open spec fn model(self) -> FunctionDeclView
        decreases self,
    {
        FunctionDeclView {
            span: self.span,
            decorators: self.decorators@,
            ident: self.ident@,
            params: self.params@,
            returns: returns_view(self.returns),
            body: self.body.model(),
        }
    }
}

impl ClassConstructorElement {
    /// The node as the contracts see it.
    pub open spec fn model(self) -> ConstructorView
        decreases self,
    {
        ConstructorView { span: self.span, params: self.params@, body: self.body.model() }
    }
}

impl ClassMethodElement {
    /// The node as the contracts see it.
    pub open spec fn model(self) -> MethodView
        decreases self,
    {
        MethodView {
            span: self.span,
            ident: self.ident@,
            params: self.params@,
            returns: returns_view(self.returns),
            body: self.body.model(),
        }
    }
}

impl ClassElement {
    /// The node as the contracts see it.
    pub open spec fn model(self) -> ClassElementView
        decreases self,
    {
        match self {
            ClassElement::Constructor(e) => ClassElementView::Constructor(e.model()),
            ClassElement::Method(e) => ClassElementView::Method(e.model()),
            ClassElement::Field(e) => ClassElementView::Field(e@),
        }
    }
}

impl ClassBody {
    /// The node as the contracts see it.
    pub open spec fn model(self) -> ClassBodyView
        decreases self,
    {
        ClassBodyView { span: self.span, class_elements: class_element_views(self.class_elements) }
    }
}

impl ClassDeclarationElement {
    /// The node as the contracts see it.
    pub open spec fn model(self) -> ClassView
        decreases self,
    {
        ClassView { span: self.span, ident: self.ident@, body: self.body.model() }
    }
}

impl SourceElement {
    /// The node as the contracts see it.
    pub open spec fn model(self) -> SourceElementView
        decreases self,
    {
        match self {
            SourceElement::FunctionDeclaration(e) => SourceElementView::FunctionDeclaration(
                e.model(),
            ),
            SourceElement::Statement(e) => SourceElementView::Statement(e@),
            SourceElement::ClassDeclaration(e) => SourceElementView::ClassDeclaration(e.model()),
        }
    }
}

impl View for ClassFieldElement {
    type V = FieldView;

    open spec fn view(&self) -> FieldView {
        FieldView { span: self.span, ident: self.ident@, type_annotation: self.type_annotation@ }
    }
}

impl View for SourceElements {
    type V = Seq<SourceElementView>;

    open spec fn view(&self) -> Seq<SourceElementView> {
        self.model()
    }
}

impl View for FunctionBody {
    type V = BodyView;

    open spec fn view(&self) -> BodyView {
        self.model()
    }
}

impl View for FunctionDeclarationElement {
    type V = FunctionDeclView;

    open spec fn view(&self) -> FunctionDeclView {
        self.model()
    }
}

impl View for ClassConstructorElement {
    type V = ConstructorView;

    open spec fn view(&self) -> ConstructorView {
        self.model()
    }
}

impl View for ClassMethodElement {
    type V = MethodView;

    open spec fn view(&self) -> MethodView {
        self.model()
    }
}

impl View for ClassElement {
    type V = ClassElementView;

    open spec fn view(&self) -> ClassElementView {
        self.model()
    }
}

impl View for ClassBody {
    type V = ClassBodyView;

    open spec fn view(&self) -> ClassBodyView {
        self.model()
    }
}

impl View for ClassDeclarationElement {
    type V = ClassView;

    open spec fn view(&self) -> ClassView {
        self.model()
    }
}

impl View for SourceElement {
    type V = SourceElementView;

    open spec fn view(&self) -> SourceElementView {
        self.model()
    }
}

/// A whole source file.
#[derive(Debug, PartialEq)]
pub struct Program {
    pub source_elements: SourceElements,
}

impl View for Program {
    type V = Seq<SourceElementView>;

    open spec fn view(&self) -> Seq<SourceElementView> {
        self.source_elements@
    }
}

/// The tree that the passes work on.
#[derive(Debug)]
pub struct Ast {
    pub program: Program,
}

impl View for Ast {
    type V = Seq<SourceElementView>;

    open spec fn view(&self) -> Seq<SourceElementView> {
        self.program@
    }
}

impl Ast {
    /// The tree of a program.
    pub fn new(program: Program) -> (ast: Self)
        ensures
            ast.program == program,
    {
        Self { program }
    }
}

} // verus!
