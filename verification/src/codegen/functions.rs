use crate::ast::declaration::{
    source_element_views, Annotation, Ast, FormalParameterList, FunctionBody,
    FunctionDeclarationElement, Program, SourceElement, SourceElements,
};
use crate::ast::expression::{Literal, SingleExpression};
use crate::codegen::error::{CodegenError, CodegenErrorKind};
use crate::codegen::generator::{append_top, statement_outcome, CodeGenerator};
use crate::codegen::model::{
    annotation_text, enter_function, finish_function, function_result, gen_annotations, gen_element,
    gen_elements, gen_function, gen_function_parts, gen_params, gen_program, local_declarations,
    wrap_body, FunctionParts, GenState, Inlined,
};
use crate::codegen::laws::{
    declared_signatures, distinct_loop_labels, grows, labels_below_counter, lemma_generation_grows,
    lemma_labels_stay_below, lemma_type_count, lemma_types_stay_closed, types_closed,
};
use crate::codegen::handover::lemma_desugared_is_accepted;
use crate::codegen::statements::lemma_append_top_twice;
use crate::lowering::laws::program_lowered;
use crate::symbols::wast_table::{scope_view, WastSymbol};
use crate::wast::{
    instruction_views, param_views, views, Export, Function, FunctionExport, FunctionImport,
    FunctionType, Import, Instruction, InstructionView, Module, ValueType,
};
use vstd::prelude::*;
use vstd::string::StringExecFns;

verus! {

/// What the first part of a function has settled, but for the content of
/// the function's frame, which the generator holds.
pub struct FunctionSetup {
    pub type_idx: usize,
    pub result: Option<ValueType>,
    pub has_inlined_body: bool,
    pub is_predefined: bool,
}

impl FunctionSetup {
    /// The setup with the frame `frame`.
    pub open spec fn parts(self, frame: Seq<InstructionView>) -> FunctionParts {
        FunctionParts {
            type_idx: self.type_idx as nat,
            result: self.result,
            has_inlined_body: self.has_inlined_body,
            is_predefined: self.is_predefined,
            frame,
        }
    }
}

/// What a visit of a function declaration owes: as many scopes and frames
/// as before, and on success the state that the model gives, with every
/// frame as it was, on failure the model's error.
pub open spec fn function_outcome(
    frames_before: Seq<Seq<InstructionView>>,
    frames_after: Seq<Seq<InstructionView>>,
    before: GenState,
    after: GenState,
    expected: Result<GenState, CodegenError>,
    r: Result<(), CodegenError>,
) -> bool {
    &&& after.symbols.depth() == before.symbols.depth()
    &&& after.semantic.depth() == before.semantic.depth()
    &&& frames_after.len() == frames_before.len()
    &&& match expected {
        Ok(s) => r is Ok && after == s && frames_after == frames_before,
        Err(e) => r matches Err(x) && x == e,
    }
}

impl CodeGenerator {
    /// Generates a program: see `gen_program`.
    pub fn visit_program(&mut self, node: &Program) -> (r: Result<(), CodegenError>)
        requires
            old(self).wf(),
        ensures
            final(self).wf(),
            statement_outcome(
                old(self).frames(),
                final(self).frames(),
                old(self)@,
                final(self)@,
                gen_program(old(self)@, node@, old(self).frames().len() > 0),
                r,
            ),
        decreases node, 0nat,
    {
        self.visit_source_elements(&node.source_elements)
    }

    /// Generates source elements in order: see `gen_elements`.
    #[verifier::loop_isolation(false)]
    pub fn visit_source_elements(&mut self, node: &SourceElements) -> (r: Result<
        (),
        CodegenError,
    >)
        requires
            old(self).wf(),
        ensures
            final(self).wf(),
            statement_outcome(
                old(self).frames(),
                final(self).frames(),
                old(self)@,
                final(self)@,
                gen_elements(old(self)@, node@, 0, Seq::empty(), old(self).frames().len() > 0),
                r,
            ),
        decreases node, 0nat,
    {
        let ghost list = node@;
        let ghost start = self@;
        let ghost in_scope = self.frames().len() > 0;
        let ghost acc: Seq<InstructionView> = Seq::empty();
        assert(append_top(self.frames(), acc) =~= self.frames());
        let mut k: usize = 0;
        while k < node.source_elements.len()
            invariant
                self.wf(),
                list == source_element_views(node.source_elements),
                k <= node.source_elements.len(),
                gen_elements(start, list, 0, Seq::empty(), in_scope) == gen_elements(
                    self@,
                    list,
                    k as nat,
                    acc,
                    in_scope,
                ),
                self.frames() == append_top(old(self).frames(), acc),
                start.symbols.depth() == self@.symbols.depth(),
                start.semantic.depth() == self@.semantic.depth(),
            decreases node.source_elements.len() - k,
        {
            let ghost state = self@;
            match self.visit_source_element(&node.source_elements[k]) {
                Ok(()) => {
                    proof {
                        let out = gen_element(state, list[k as int], in_scope)->Ok_0.1;
                        lemma_append_top_twice(old(self).frames(), acc, out);
                        acc = acc + out;
                    }
                },
                Err(e) => {
                    return Err(e);
                },
            }
            k += 1;
        }
        Ok(())
    }

    /// Generates a source element: see `gen_element`.
    pub fn visit_source_element(&mut self, node: &SourceElement) -> (r: Result<(), CodegenError>)
        requires
            old(self).wf(),
        ensures
            final(self).wf(),
            statement_outcome(
                old(self).frames(),
                final(self).frames(),
                old(self)@,
                final(self)@,
                gen_element(old(self)@, node@, old(self).frames().len() > 0),
                r,
            ),
        decreases node, 0nat,
    {
        match node {
            SourceElement::FunctionDeclaration(function) => {
                let r = self.visit_function_declaration(function);
                assert(append_top(old(self).frames(), Seq::empty()) =~= old(self).frames());
                r
            },
            SourceElement::Statement(statement) => self.visit_statement_element(statement),
            SourceElement::ClassDeclaration(class) => Err(
                CodegenError::new(CodegenErrorKind::NotLowered, class.span),
            ),
        }
    }

    /// Generates the source elements of a function body.
    pub fn visit_function_body(&mut self, node: &FunctionBody) -> (r: Result<(), CodegenError>)
        requires
            old(self).wf(),
        ensures
            final(self).wf(),
            statement_outcome(
                old(self).frames(),
                final(self).frames(),
                old(self)@,
                final(self)@,
                gen_elements(
                    old(self)@,
                    node@.source_elements,
                    0,
                    Seq::empty(),
                    old(self).frames().len() > 0,
                ),
                r,
            ),
        decreases node, 0nat,
    {
        self.visit_source_elements(&node.source_elements)
    }

    /// Defines the parameters of a function in the innermost scope and
    /// returns them with their run-time types: see `gen_params`.
    #[verifier::loop_isolation(false)]
    pub fn define_parameters(&mut self, params: &FormalParameterList) -> (r: Result<
        Vec<(String, ValueType)>,
        CodegenError,
    >)
        requires
            old(self).wf(),
        ensures
            final(self).wf(),
            final(self).frames() == old(self).frames(),
            final(self)@.symbols.depth() == old(self)@.symbols.depth(),
            final(self)@.semantic.depth() == old(self)@.semantic.depth(),
            match gen_params(old(self)@, params@, 0, Seq::empty()) {
                Ok((s, types)) => r matches Ok(list) && param_views(list) == types && final(self)@
                    == s,
                Err(e) => r matches Err(x) && x == e,
            },
    {
        let ghost start = self@;
        let ghost list = params@;
        let mut type_params: Vec<(String, ValueType)> = Vec::new();
        assert(param_views(type_params) =~= Seq::empty());
        let mut index: usize = 0;
        while index < params.parameters.len()
            invariant
                self.wf(),
                self.frames() == old(self).frames(),
                index <= params.parameters.len(),
                gen_params(start, list, 0, Seq::empty()) == gen_params(
                    self@,
                    list,
                    index as nat,
                    param_views(type_params),
                ),
                start.symbols.depth() == self@.symbols.depth(),
                start.semantic.depth() == self@.semantic.depth(),
            decreases params.parameters.len() - index,
        {
            let arg = &params.parameters[index];
            assert(list[index as int] == arg@);
            let ty = match self.semantic_symbols.lookup(&arg.ident.value) {
                Some(ty) => ValueType::from_type(ty),
                None => {
                    return Err(CodegenError::new(CodegenErrorKind::UndefinedSymbol, arg.ident.span));
                },
            };
            let ghost before = param_views(type_params);
            type_params.push((arg.ident.value.clone(), ty));
            assert(param_views(type_params) =~= before.push((arg.ident.value@, ty)));
            self.wast_symbols.define(arg.ident.value.clone(), WastSymbol::Param(index, ty));
            index += 1;
        }
        Ok(type_params)
    }

    /// Reads the annotations of a function: see `gen_annotations`. The
    /// instructions of `wast` annotations go to the innermost frame.
    #[verifier::loop_isolation(false)]
    pub fn visit_annotations(&mut self, node: &FunctionDeclarationElement, type_idx: usize) -> (r:
        Result<(bool, bool), CodegenError>)
        requires
            old(self).wf(),
            old(self).frames().len() > 0,
        ensures
            final(self).wf(),
            final(self).frames().len() == old(self).frames().len(),
            final(self)@.symbols.depth() == old(self)@.symbols.depth(),
            final(self)@.semantic.depth() == old(self)@.semantic.depth(),
            match gen_annotations(
                old(self)@,
                node@.decorators.annotations,
                0,
                Inlined::none(),
                node@.ident.value,
                type_idx as nat,
            ) {
                Ok((s, inlined)) => {
                    &&& r matches Ok(flags)
                    &&& flags.0 == inlined.has_inlined_body
                    &&& flags.1 == inlined.is_predefined
                    &&& final(self)@ == s
                    &&& final(self).frames() == append_top(old(self).frames(), inlined.instructions)
                },
                Err(e) => r matches Err(x) && x == e,
            },
    {
        let ghost start = self@;
        let ghost list = node@.decorators.annotations;
        let ghost acc = Inlined::none();
        assert(append_top(self.frames(), acc.instructions) =~= self.frames());
        let wast = String::from_str("wast");
        let native = String::from_str("native");
        let mut has_inlined_body = false;
        let mut is_predefined_function = false;
        let mut k: usize = 0;
        while k < node.decorators.annotations.len()
            invariant
                self.wf(),
                k <= node.decorators.annotations.len(),
                list == views(node.decorators.annotations),
                gen_annotations(
                    start,
                    list,
                    0,
                    Inlined::none(),
                    node@.ident.value,
                    type_idx as nat,
                ) == gen_annotations(self@, list, k as nat, acc, node@.ident.value, type_idx as nat),
                acc.has_inlined_body == has_inlined_body,
                acc.is_predefined == is_predefined_function,
                self.frames() == append_top(old(self).frames(), acc.instructions),
                start.symbols.depth() == self@.symbols.depth(),
                start.semantic.depth() == self@.semantic.depth(),
            decreases node.decorators.annotations.len() - k,
        {
            let annotation = &node.decorators.annotations[k];
            assert(list[k as int] == annotation@);
            if annotation.name.value == wast {
                match Self::annotation_string(annotation) {
                    Some(text) => {
                        has_inlined_body = true;
                        let raw = Instruction::RawWast(text.clone());
                        assert(raw@ == InstructionView::RawWast(text@));
                        self.append_instruction(raw);
                        proof {
                            lemma_append_top_twice(old(self).frames(), acc.instructions, seq![raw@]);
                            assert(acc.instructions + seq![raw@] =~= acc.instructions.push(raw@));
                            acc =
                            Inlined {
                                instructions: acc.instructions.push(raw@),
                                has_inlined_body: true,
                                ..acc
                            };
                        }
                    },
                    None => {
                        return Err(
                            CodegenError::new(
                                CodegenErrorKind::UnsupportedAnnotation,
                                annotation.span,
                            ),
                        );
                    },
                }
            } else if annotation.name.value == native {
                match Self::annotation_string(annotation) {
                    Some(module) => {
                        has_inlined_body = true;
                        is_predefined_function = true;
                        self.push_import(
                            Import::Function(
                                FunctionImport {
                                    name: node.ident.value.clone(),
                                    type_idx,
                                    module: module.clone(),
                                },
                            ),
                        );
                        proof {
                            acc = Inlined { has_inlined_body: true, is_predefined: true, ..acc };
                        }
                    },
                    None => {
                        return Err(
                            CodegenError::new(
                                CodegenErrorKind::UnsupportedAnnotation,
                                annotation.span,
                            ),
                        );
                    },
                }
            }
            k += 1;
        }
        Ok((has_inlined_body, is_predefined_function))
    }

    /// The string literal that an annotation holds, if it holds one.
    pub fn annotation_string(annotation: &Annotation) -> (text: Option<&String>)
        ensures
            match text {
                Some(text) => annotation_text(annotation@) == Some(text@),
                None => annotation_text(annotation@) is None,
            },
    {
        match &annotation.expr {
            Some(SingleExpression::Literal(Literal::String(string_lit))) => Some(&string_lit.value),
            _ => None,
        }
    }

    /// The first part of a function: see `gen_function_parts`. What the
    /// annotations and the body emit goes to the innermost frame.
    pub fn visit_function_parts(&mut self, node: &FunctionDeclarationElement) -> (r: Result<
        FunctionSetup,
        CodegenError,
    >)
        requires
            old(self).wf(),
            old(self).frames().len() > 0,
        ensures
            final(self).wf(),
            final(self).frames().len() == old(self).frames().len(),
            final(self)@.symbols.depth() == old(self)@.symbols.depth(),
            final(self)@.semantic.depth() == old(self)@.semantic.depth(),
            match gen_function_parts(old(self)@, node@) {
                Ok((s, parts)) => {
                    &&& r matches Ok(setup)
                    &&& setup.parts(parts.frame) == parts
                    &&& final(self)@ == s
                    &&& final(self).frames() == append_top(old(self).frames(), parts.frame)
                },
                Err(e) => r matches Err(x) && x == e,
            },
        decreases node, 0nat,
    {
        let type_params = match self.define_parameters(&node.params) {
            Ok(type_params) => type_params,
            Err(e) => {
                return Err(e);
            },
        };
        // The type of the result, as semantic analysis left it
        let return_type = match self.semantic_symbols.get_scope(node.span) {
            Some(scope) => match &scope.returns {
                Some(ty) => Some(ValueType::from_type(ty)),
                None => None,
            },
            None => None,
        };
        assert(return_type == function_result(self@.semantic, node@.span));
        let ty = FunctionType { params: type_params, ret: return_type };
        let type_idx = self.push_type(ty);

        let ghost annotated = self@;
        let (has_inlined_body, is_predefined) = match self.visit_annotations(node, type_idx) {
            Ok(flags) => flags,
            Err(e) => {
                return Err(e);
            },
        };
        let ghost inlined = gen_annotations(
            annotated,
            node@.decorators.annotations,
            0,
            Inlined::none(),
            node@.ident.value,
            type_idx as nat,
        )->Ok_0.1;
        if !has_inlined_body {
            let ghost state = self@;
            match self.visit_function_body(&node.body) {
                Ok(()) => {
                    proof {
                        let emitted = gen_elements(
                            state,
                            node@.body.source_elements,
                            0,
                            Seq::empty(),
                            true,
                        )->Ok_0.1;
                        lemma_append_top_twice(old(self).frames(), inlined.instructions, emitted);
                    }
                },
                Err(e) => {
                    return Err(e);
                },
            }
        }
        Ok(FunctionSetup { type_idx, result: return_type, has_inlined_body, is_predefined })
    }

    /// The declarations of the locals of the innermost scope, in the order
    /// in which they were defined.
    pub fn local_declarations(&self) -> (locals: Vec<Instruction>)
        ensures
            instruction_views(locals) == local_declarations(
                self@.symbols.current(),
                self@.symbols.current().len(),
            ),
    {
        let symbols = self.wast_symbols.symbols_in_current_scope();
        let ghost scope = self@.symbols.current();
        let mut locals: Vec<Instruction> = Vec::new();
        assert(instruction_views(locals) =~= Seq::empty());
        let mut k: usize = 0;
        while k < symbols.len()
            invariant
                k <= symbols.len(),
                scope == scope_view(symbols),
                instruction_views(locals) == local_declarations(scope, k as nat),
            decreases symbols.len() - k,
        {
            let ghost before = instruction_views(locals);
            assert(scope[k as int] == (symbols[k as int].0@, symbols[k as int].1));
            match symbols[k].1 {
                WastSymbol::Local(ty) => {
                    let declaration = Instruction::Local(symbols[k].0.clone(), ty);
                    assert(declaration@ == InstructionView::Local(symbols[k as int].0@, ty));
                    locals.push(declaration);
                    assert(instruction_views(locals) =~= before.push(declaration@));
                },
                _ => {},
            }
            k += 1;
        }
        locals
    }

    /// The second part of a function, with the content of its frame: see
    /// `finish_function`.
    pub fn finish_function(
        &mut self,
        node: &FunctionDeclarationElement,
        setup: FunctionSetup,
        frame: Vec<Instruction>,
    )
        requires
            old(self).wf(),
        ensures
            final(self).wf(),
            final(self).frames() == old(self).frames(),
            final(self)@ == finish_function(
                old(self)@,
                node@,
                setup.parts(instruction_views(frame)),
            ),
            final(self)@.symbols.depth() == old(self)@.symbols.depth(),
            final(self)@.semantic.depth() == old(self)@.semantic.depth(),
    {
        let ghost parts = setup.parts(instruction_views(frame));
        let mut instructions: Vec<Instruction> = Vec::new();
        if !setup.has_inlined_body {
            let block = Instruction::Block(0, frame);
            assert(block@ == InstructionView::Block(0, parts.frame));
            instructions.push(block);
            // The tail that every `return` of the body reaches
            if let Some(return_type) = setup.result {
                self.wast_symbols.define(String::from_str("return"), WastSymbol::Local(return_type));
                let tail = Instruction::SynthReturn;
                assert(tail@ == InstructionView::SynthReturn);
                instructions.push(tail);
                assert(instruction_views(instructions) =~= seq![
                    InstructionView::Block(0, parts.frame),
                    InstructionView::SynthReturn,
                ]);
            } else {
                assert(instruction_views(instructions) =~= seq![
                    InstructionView::Block(0, parts.frame),
                ]);
            }
        } else {
            // The body is what the annotations gave
            instructions = frame;
        }
        assert((self@, instruction_views(instructions)) == wrap_body(old(self)@, parts));
        let ghost wrapped = instruction_views(instructions);
        let mut all = self.local_declarations();
        let ghost locals = instruction_views(all);
        all.append(&mut instructions);
        assert(instruction_views(all) =~= locals + wrapped);

        if !setup.is_predefined {
            let function = Function {
                name: node.ident.value.clone(),
                type_idx: setup.type_idx,
                instructions: all,
            };
            let function_idx = self.push_function(function);
            if node.decorators.export {
                let desc = FunctionExport { function_idx, name: node.ident.value.clone() };
                self.push_export(Export::Function(desc));
            }
        }
    }

    /// Generates a function: see `gen_function`. The scopes and the frame that
    /// it opens are closed again, whatever happens in between.
    pub fn visit_function_declaration(&mut self, node: &FunctionDeclarationElement) -> (r: Result<
        (),
        CodegenError,
    >)
        requires
            old(self).wf(),
        ensures
            final(self).wf(),
            function_outcome(
                old(self).frames(),
                final(self).frames(),
                old(self)@,
                final(self)@,
                gen_function(old(self)@, node@),
                r,
            ),
        decreases node, 1nat,
    {
        let ghost frames = self.frames();
        // The scope of the function, which semantic analysis has filled
        self.semantic_symbols.push_scope(node.span, None);
        self.wast_symbols.push_scope();
        // A frame for the instructions of the function
        self.push_instruction_scope();
        assert(self@ == enter_function(old(self)@, node@.span));

        let setup = self.visit_function_parts(node);
        let frame = self.pop_instruction_scope().unwrap();
        assert(self.frames().len() == frames.len());
        let r = match setup {
            Ok(setup) => {
                assert(self.frames() =~= frames);
                self.finish_function(node, setup, frame.instructions);
                Ok(())
            },
            Err(e) => Err(e),
        };
        // Leave the scope of the function in both tables
        self.wast_symbols.pop_scope();
        self.semantic_symbols.pop_scope();
        assert(self.frames() =~= old(self).frames() || r is Err);
        r
    }

    /// Generates the module of a program. The source elements are taken in
    /// order; what they define is added to the module as it stands.
    ///
    /// On success the state is what `gen_program` gives, and its module is
    /// returned. Every function that was added has loops with labels of
    /// their own; no signature comes twice among the types; and where the
    /// types were the signatures of the functions and imports before, they
    /// are so afterwards, as many as those have different signatures. On
    /// failure the error is what `gen_program` gives.
    ///
    /// Either way as many scopes and frames are left as there were: a
    /// generator that was at rest, with the global scope alone and no frame,
    /// is at rest again. A desugared program is never refused as not
    /// desugared. Where every label of the module was below the counter, it
    /// is so afterwards: the label that the next loop takes is new.
    pub fn generate_module(&mut self, ast: &Ast) -> (r: Result<&Module, CodegenError>)
        requires
            old(self).wf(),
        ensures
            final(self).wf(),
            final(self)@.symbols.depth() == old(self)@.symbols.depth(),
            final(self)@.semantic.depth() == old(self)@.semantic.depth(),
            final(self).frames().len() == old(self).frames().len(),
            old(self).at_rest() ==> final(self).at_rest(),
            labels_below_counter(old(self)@) ==> (r is Ok ==> labels_below_counter(final(self)@)),
            program_lowered(ast@) ==> (r matches Err(e) ==> e.kind != CodegenErrorKind::NotLowered),
            match gen_program(old(self)@, ast@, old(self).frames().len() > 0) {
                Ok((s, emitted)) => {
                    &&& r matches Ok(module)
                    &&& module@ == s.module
                    &&& final(self)@ == s
                    &&& final(self).frames() == append_top(old(self).frames(), emitted)
                    &&& grows(old(self)@, final(self)@)
                    &&& forall|i: int|
                        old(self)@.module.functions.len() <= i < s.module.functions.len()
                            ==> distinct_loop_labels(#[trigger] s.module.functions[i])
                    &&& s.module.types.no_duplicates()
                    &&& types_closed(old(self)@.module) ==> types_closed(s.module)
                        && s.module.types.len() == declared_signatures(s.module).len()
                },
                Err(e) => r matches Err(x) && x == e,
            },
    {
        proof {
            let in_scope = self.frames().len() > 0;
            lemma_generation_grows(self@, ast@, in_scope);
            if program_lowered(ast@) {
                lemma_desugared_is_accepted(self@, ast@, in_scope);
            }
            if let Ok((s, emitted)) = gen_program(self@, ast@, in_scope) {
                if types_closed(self@.module) {
                    lemma_types_stay_closed(self@, s);
                }
                if labels_below_counter(self@) {
                    lemma_labels_stay_below(self@, s);
                }
            }
        }
        match self.visit_program(&ast.program) {
            Ok(()) => {
                proof {
                    if types_closed(old(self)@.module) {
                        lemma_type_count(self@.module);
                    }
                }
                Ok(&self.module)
            },
            Err(e) => Err(e),
        }
    }
}

} // verus!
