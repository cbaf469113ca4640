use crate::ast::declaration::{
    class_element_views, source_element_views, Annotation, Ast, ClassConstructorElement,
    ClassDeclarationElement, ClassElement, ClassMethodElement, FormalParameterArg, FunctionBody,
    FunctionDeclarationElement, FunctionDecorators, Program, SourceElement, SourceElementView,
    SourceElements,
};
use crate::ident::Ident;
use crate::lowering::builders::{
    duplicate_returns, extend_parameters, make_allocation_statement, make_class_annotation,
    make_member_name, make_plain_decorators, make_return_this_statement, make_this_parameter,
};
use crate::lowering::error::{LoweringError, LoweringErrorKind};
use crate::lowering::expressions::{agrees, AstLowering};
use crate::lowering::laws::{
    elements_lowered, lemma_constructor_shape, lemma_desugared_program, lemma_desugaring_succeeds,
    program_lowered,
};
use crate::lowering::model::{
    allocation_statement, lower_annotations, lower_body, lower_class, lower_class_elements,
    lower_constructor, lower_element, lower_elements, lower_function, lower_method, lower_program,
    return_this_statement, LowerCtx,
};
use crate::symbols::bindings::size_of_class;
use crate::wast::views;
use vstd::prelude::*;

verus! {

/// A list of source elements agrees with the model.
pub open spec fn elements_agree(
    expected: Result<Seq<SourceElementView>, LoweringError>,
    r: Result<Vec<SourceElement>, LoweringError>,
) -> bool {
    match expected {
        Ok(v) => r matches Ok(x) && source_element_views(x) == v,
        Err(e) => r matches Err(x) && x == e,
    }
}

impl<'a> AstLowering<'a> {
    /// The pass is as it was: the same class in work, the same tables.
    pub open spec fn same_as(&self, before: &Self) -> bool {
        &&& self.ctx() == before.ctx()
        &&& *self.bindings == *before.bindings
        &&& *self.symbols == *before.symbols
    }

    /// The annotations of a function with their expressions desugared.
    #[verifier::loop_isolation(false)]
    pub fn visit_annotations(&self, list: &Vec<Annotation>) -> (r: Result<
        Vec<Annotation>,
        LoweringError,
    >)
        ensures
            match lower_annotations(self.ctx(), views(*list), 0, Seq::empty()) {
                Ok(v) => r matches Ok(x) && views(x) == v,
                Err(e) => r matches Err(x) && x == e,
            },
    {
        let ghost all = views(*list);
        let mut lowered: Vec<Annotation> = Vec::new();
        assert(views(lowered) =~= Seq::empty());
        let mut k: usize = 0;
        while k < list.len()
            invariant
                k <= list.len(),
                lower_annotations(self.ctx(), all, 0, Seq::empty()) == lower_annotations(
                    self.ctx(),
                    all,
                    k as nat,
                    views(lowered),
                ),
            decreases list.len() - k,
        {
            let ghost acc = views(lowered);
            let annotation = &list[k];
            assert(all[k as int] == annotation@);
            let expr = match &annotation.expr {
                Some(expr) => match self.visit_single_expression(expr) {
                    Ok(expr) => Some(expr),
                    Err(e) => {
                        return Err(e);
                    },
                },
                None => None,
            };
            let copy = Annotation { span: annotation.span, name: annotation.name.duplicate(), expr };
            lowered.push(copy);
            assert(views(lowered) =~= acc.push(copy@));
            k += 1;
        }
        Ok(lowered)
    }

    /// Desugars a function: see `lower_function`.
    pub fn visit_function_declaration(&mut self, node: &FunctionDeclarationElement) -> (r: Result<
        FunctionDeclarationElement,
        LoweringError,
    >)
        ensures
            final(self).same_as(old(self)),
            agrees(lower_function(old(self).ctx(), node@), r),
        decreases node,
    {
        let annotations = match self.visit_annotations(&node.decorators.annotations) {
            Ok(annotations) => annotations,
            Err(e) => {
                return Err(e);
            },
        };
        let body = match self.visit_function_body(&node.body) {
            Ok(body) => body,
            Err(e) => {
                return Err(e);
            },
        };
        let lowered = FunctionDeclarationElement {
            span: node.span,
            decorators: FunctionDecorators { annotations, export: node.decorators.export },
            ident: node.ident.duplicate(),
            params: extend_parameters(Vec::new(), &node.params),
            returns: duplicate_returns(&node.returns),
            body,
        };
        assert(lowered@.params =~= node@.params);
        assert(lowered@.body == body@);
        Ok(lowered)
    }

    /// Desugars the body of a function.
    pub fn visit_function_body(&mut self, node: &FunctionBody) -> (r: Result<
        FunctionBody,
        LoweringError,
    >)
        ensures
            final(self).same_as(old(self)),
            agrees(lower_body(old(self).ctx(), node@), r),
        decreases node,
    {
        match self.visit_source_elements(&node.source_elements) {
            Ok(source_elements) => {
                let lowered = FunctionBody { span: node.span, source_elements };
                assert(lowered@.source_elements == source_elements@);
                Ok(lowered)
            },
            Err(e) => Err(e),
        }
    }

    /// Desugars source elements in order: see `lower_elements`.
    #[verifier::loop_isolation(false)]
    pub fn visit_source_elements(&mut self, node: &SourceElements) -> (r: Result<
        SourceElements,
        LoweringError,
    >)
        ensures
            final(self).same_as(old(self)),
            agrees(lower_elements(old(self).ctx(), node@, 0, Seq::empty()), r),
        decreases node,
    {
        let ghost ctx = self.ctx();
        let ghost all = node@;
        let mut lowered: Vec<SourceElement> = Vec::new();
        assert(source_element_views(lowered) =~= Seq::empty());
        let mut k: usize = 0;
        while k < node.source_elements.len()
            invariant
                self.same_as(old(self)),
                k <= node.source_elements.len(),
                all == source_element_views(node.source_elements),
                lower_elements(ctx, all, 0, Seq::empty()) == lower_elements(
                    ctx,
                    all,
                    k as nat,
                    source_element_views(lowered),
                ),
            decreases node.source_elements.len() - k,
        {
            let ghost acc = source_element_views(lowered);
            match self.visit_source_element(&node.source_elements[k]) {
                Ok(elements) => {
                    let mut elements = elements;
                    let ghost added = source_element_views(elements);
                    lowered.append(&mut elements);
                    assert(source_element_views(lowered) =~= acc + added);
                },
                Err(e) => {
                    return Err(e);
                },
            }
            k += 1;
        }
        let elements = SourceElements { source_elements: lowered };
        assert(elements@ == source_element_views(lowered));
        Ok(elements)
    }

    /// A source element after desugaring: the elements that take its place.
    pub fn visit_source_element(&mut self, node: &SourceElement) -> (r: Result<
        Vec<SourceElement>,
        LoweringError,
    >)
        ensures
            final(self).same_as(old(self)),
            elements_agree(lower_element(old(self).ctx(), node@), r),
        decreases node,
    {
        match node {
            SourceElement::FunctionDeclaration(function) => {
                match self.visit_function_declaration(function) {
                    Ok(lowered) => {
                        let mut elements: Vec<SourceElement> = Vec::new();
                        let element = SourceElement::FunctionDeclaration(lowered);
                        assert(element@ == SourceElementView::FunctionDeclaration(lowered@));
                        elements.push(element);
                        assert(source_element_views(elements) =~= seq![element@]);
                        Ok(elements)
                    },
                    Err(e) => Err(e),
                }
            },
            SourceElement::Statement(statement) => {
                match self.visit_statement_element(statement) {
                    Ok(lowered) => {
                        let mut elements: Vec<SourceElement> = Vec::new();
                        let element = SourceElement::Statement(lowered);
                        elements.push(element);
                        assert(source_element_views(elements) =~= seq![element@]);
                        Ok(elements)
                    },
                    Err(e) => Err(e),
                }
            },
            SourceElement::ClassDeclaration(class) => self.visit_class_declaration(class),
        }
    }

    /// A class after desugaring: one function for each constructor and each
    /// method, in the order of the members.
    #[verifier::loop_isolation(false)]
    pub fn visit_class_declaration(&mut self, node: &ClassDeclarationElement) -> (r: Result<
        Vec<SourceElement>,
        LoweringError,
    >)
        ensures
            final(self).same_as(old(self)),
            elements_agree(lower_class(old(self).ctx(), node@), r),
        decreases node,
    {
        let ghost members = node@.body.class_elements;
        // The class is the one in work while its members are desugared
        let previous = match &self.binding_context {
            Some(name) => Some(name.clone()),
            None => None,
        };
        self.binding_context = Some(node.ident.value.clone());
        let ghost ctx = self.ctx();
        assert(ctx == LowerCtx { class: Some(node@.ident.value), ..old(self).ctx() });
        let ghost inside = *self;

        let mut lowered: Vec<SourceElement> = Vec::new();
        assert(source_element_views(lowered) =~= Seq::empty());
        let mut failure: Option<LoweringError> = None;
        let mut k: usize = 0;
        while k < node.body.class_elements.len() && failure.is_none()
            invariant
                self.same_as(&inside),
                k <= node.body.class_elements.len(),
                members == class_element_views(node.body.class_elements),
                match failure {
                    None => lower_class_elements(ctx, node@.ident, members, 0, Seq::empty())
                        == lower_class_elements(
                        ctx,
                        node@.ident,
                        members,
                        k as nat,
                        source_element_views(lowered),
                    ),
                    Some(e) => lower_class_elements(ctx, node@.ident, members, 0, Seq::empty())
                        == Err::<Seq<SourceElementView>, LoweringError>(e),
                },
            decreases node.body.class_elements.len() - k, if failure is None { 1nat } else { 0nat },
        {
            let ghost acc = source_element_views(lowered);
            let function = match &node.body.class_elements[k] {
                ClassElement::Constructor(constructor) => {
                    match self.visit_class_constructor_declaration(&node.ident, constructor) {
                        Ok(function) => Some(function),
                        Err(e) => {
                            failure = Some(e);
                            None
                        },
                    }
                },
                ClassElement::Method(method) => {
                    match self.visit_class_method_declaration(&node.ident, method) {
                        Ok(function) => Some(function),
                        Err(e) => {
                            failure = Some(e);
                            None
                        },
                    }
                },
                // A field shows in the layout of the class alone
                ClassElement::Field(_) => None,
            };
            if failure.is_none() {
                if let Some(function) = function {
                    let element = SourceElement::FunctionDeclaration(function);
                    assert(element@ == SourceElementView::FunctionDeclaration(function@));
                    lowered.push(element);
                    assert(source_element_views(lowered) =~= acc.push(element@));
                }
                k += 1;
            }
        }
        self.binding_context = previous;
        match failure {
            Some(e) => Err(e),
            None => Ok(lowered),
        }
    }

    /// The function that a constructor of `class` becomes. Its body first
    /// binds `this` to a new instance of the size that the bindings give,
    /// and last returns `this`; in between nothing is left to desugar.
    pub fn visit_class_constructor_declaration(
        &mut self,
        class: &Ident,
        node: &ClassConstructorElement,
    ) -> (r: Result<FunctionDeclarationElement, LoweringError>)
        ensures
            final(self).same_as(old(self)),
            agrees(lower_constructor(old(self).ctx(), class@, node@), r),
            r matches Ok(f) ==> {
                &&& size_of_class(old(self).ctx().bindings, class@.value) matches Some(size)
                &&& f@.body.source_elements.len() >= 2
                &&& f@.body.source_elements.first() == allocation_statement(class@.value, size)
                &&& f@.body.source_elements.last() == return_this_statement(class@.value)
                &&& elements_lowered(f@.body.source_elements)
            },
        decreases node,
    {
        proof {
            lemma_constructor_shape(self.ctx(), class@, node@);
        }
        let size = match self.bindings.size_of(&class.value) {
            Some(size) => size,
            None => {
                return Err(LoweringError::new(LoweringErrorKind::UnknownClass, node.span));
            },
        };
        let body = match self.visit_function_body(&node.body) {
            Ok(body) => body,
            Err(e) => {
                return Err(e);
            },
        };
        // Allocate the instance, run the body, return the instance
        let ghost inner = body@.source_elements;
        let mut source_elements: Vec<SourceElement> = Vec::new();
        let allocation = make_allocation_statement(&class.value, size);
        source_elements.push(allocation);
        let mut rest = body.source_elements.source_elements;
        source_elements.append(&mut rest);
        let tail = make_return_this_statement(&class.value);
        source_elements.push(tail);
        assert(source_element_views(source_elements) =~= seq![allocation@] + inner + seq![tail@]);

        let elements = SourceElements { source_elements };
        assert(elements@ == source_element_views(source_elements));
        let wrapped = FunctionBody { span: body.span, source_elements: elements };
        assert(wrapped@.source_elements == elements@);
        let lowered = FunctionDeclarationElement {
            span: node.span,
            decorators: make_plain_decorators(),
            ident: Ident::from_string(make_member_name(&class.value, "constructor"), class.span),
            params: extend_parameters(Vec::new(), &node.params),
            returns: Some(make_class_annotation(class)),
            body: wrapped,
        };
        assert(lowered@.params =~= node@.params);
        assert(lowered@.body == wrapped@);
        Ok(lowered)
    }

    /// The function that a method of `class` becomes.
    pub fn visit_class_method_declaration(&mut self, class: &Ident, node: &ClassMethodElement) -> (r:
        Result<FunctionDeclarationElement, LoweringError>)
        ensures
            final(self).same_as(old(self)),
            agrees(lower_method(old(self).ctx(), class@, node@), r),
        decreases node,
    {
        let body = match self.visit_function_body(&node.body) {
            Ok(body) => body,
            Err(e) => {
                return Err(e);
            },
        };
        // The instance is the first parameter
        let mut first: Vec<FormalParameterArg> = Vec::new();
        let this = make_this_parameter(class);
        first.push(this);
        assert(views(first) =~= seq![this@]);
        let lowered = FunctionDeclarationElement {
            span: node.span,
            decorators: make_plain_decorators(),
            ident: Ident::from_string(
                make_member_name(&class.value, node.ident.value.as_str()),
                node.ident.span,
            ),
            params: extend_parameters(first, &node.params),
            returns: duplicate_returns(&node.returns),
            body,
        };
        assert(lowered@.body == body@);
        Ok(lowered)
    }

    /// Desugars a program: see `lower_program`.
    pub fn visit_program(&mut self, node: &Program) -> (r: Result<Program, LoweringError>)
        ensures
            final(self).same_as(old(self)),
            agrees(lower_program(old(self).ctx(), node@), r),
    {
        match self.visit_source_elements(&node.source_elements) {
            Ok(source_elements) => Ok(Program { source_elements }),
            Err(e) => Err(e),
        }
    }

    /// Desugars the tree in place. On success the program is what
    /// `lower_program` gives, and no class, no `this`, no `new` and no
    /// member access is left in it. On failure the tree is as it was. A
    /// tree in which nothing is left to desugar never fails.
    pub fn desugar(&mut self, ast: &mut Ast) -> (r: Result<(), LoweringError>)
        ensures
            final(self).same_as(old(self)),
            program_lowered(old(ast)@) ==> r is Ok,
            match lower_program(old(self).ctx(), old(ast)@) {
                Ok(program) => r is Ok && final(ast)@ == program && program_lowered(final(ast)@),
                Err(e) => r matches Err(x) && x == e && *final(ast) == *old(ast),
            },
    {
        proof {
            lemma_desugared_program(self.ctx(), ast@);
            if program_lowered(ast@) {
                lemma_desugaring_succeeds(self.ctx(), ast@);
            }
        }
        match self.visit_program(&ast.program) {
            Ok(program) => {
                ast.program = program;
                Ok(())
            },
            Err(e) => Err(e),
        }
    }
}

} // verus!
