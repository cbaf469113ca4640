use vstd::prelude::*;
use vstd::string::StringExecFns;

verus! {

/// The primitive types of the source language.
#[derive(Debug, Clone, Copy, PartialEq, Eq, Structural)]
pub enum PrimitiveType {
    I32,
    U32,
    F32,
    Boolean,
}

/// The type that semantic analysis gives to an expression or a name.
#[derive(Debug, PartialEq)]
pub enum Type {
    Primitive(PrimitiveType),
    Array(Box<Type>),
    String,
    /// An instance of the class with this name.
    Object(String),
    /// A function from the parameter types to the result type.
    Function(Vec<Type>, Box<Type>),
    Void,
    Unknown,
}

/// A type as the contracts see it.
pub enum TypeView {
    Primitive(PrimitiveType),
    Array(Box<TypeView>),
    String,
    Object(Seq<char>),
    Function(Seq<TypeView>, Box<TypeView>),
    Void,
    Unknown,
}

/// The name under which a type's operators are looked up: a primitive by
/// its keyword, an array as the class `Array`, an object by its class.
pub open spec fn name_of_type(ty: TypeView) -> Seq<char> {
    match ty {
        TypeView::Primitive(PrimitiveType::I32) => "i32"@,
        TypeView::Primitive(PrimitiveType::U32) => "u32"@,
        TypeView::Primitive(PrimitiveType::F32) => "f32"@,
        TypeView::Primitive(PrimitiveType::Boolean) => "bool"@,
        TypeView::Array(_) => "Array"@,
        TypeView::String => "string"@,
        TypeView::Object(class) => class,
        TypeView::Function(_, _) => "function"@,
        TypeView::Void => "void"@,
        TypeView::Unknown => "unknown"@,
    }
}

/// The primitive that a type is, if it is one.
pub open spec fn primitive_of(ty: TypeView) -> Option<PrimitiveType> {
    match ty {
        TypeView::Primitive(p) => Some(p),
        _ => None,
    }
}

impl Type {
    /// The type as the contracts see it.
    pub open spec fn model(self) -> TypeView
        decreases self,
    {
        match self {
            Type::Primitive(p) => TypeView::Primitive(p),
            Type::Array(inner) => TypeView::Array(Box::new((*inner).model())),
            Type::String => TypeView::String,
            Type::Object(class) => TypeView::Object(class@),
            Type::Function(params, ret) => TypeView::Function(
                Seq::new(
                    params.len() as nat,
                    |i: int|
                        if 0 <= i < params.len() {
                            params[i].model()
                        } else {
                            TypeView::Unknown
                        },
                ),
                Box::new((*ret).model()),
            ),
            Type::Void => TypeView::Void,
            Type::Unknown => TypeView::Unknown,
        }
    }
}

impl View for Type {
    type V = TypeView;

    open spec fn view(&self) -> TypeView {
        self.model()
    }
}

/// The views of a list of types.
pub open spec fn type_views(tys: Seq<Type>) -> Seq<TypeView> {
    Seq::new(tys.len(), |i: int| tys[i]@)
}

impl Type {
    /// A copy of the type.
    pub fn duplicate(&self) -> (copy: Type)
        ensures
            copy@ == self@,
        decreases self,
    {
        match self {
            Type::Primitive(p) => Type::Primitive(*p),
            Type::Array(inner) => Type::Array(Box::new(inner.duplicate())),
            Type::String => Type::String,
            Type::Object(class) => Type::Object(class.clone()),
            Type::Function(params, ret) => {
                let mut copies: Vec<Type> = Vec::new();
                let mut k: usize = 0;
                while k < params.len()
                    invariant
                        k <= params.len(),
                        copies.len() == k,
                        *self matches Type::Function(ps, _) && ps == *params,
                        forall|i: int| 0 <= i < k ==> (#[trigger] copies[i])@ == params[i]@,
                    decreases params.len() - k,
                {
                    copies.push(params[k].duplicate());
                    k += 1;
                }
                let copy = Type::Function(copies, Box::new(ret.duplicate()));
                assert(copy@->Function_0 =~= self@->Function_0);
                copy
            },
            Type::Void => Type::Void,
            Type::Unknown => Type::Unknown,
        }
    }

    /// The primitive that this type is; `None` for every other type.
    pub fn primitive(&self) -> (p: Option<PrimitiveType>)
        ensures
            p == primitive_of(self@),
    {
        match self {
            Type::Primitive(p) => Some(*p),
            _ => None,
        }
    }

    /// The name of the type, as `name_of_type` gives it.
    pub fn name(&self) -> (name: String)
        ensures
            name@ == name_of_type(self@),
    {
        match self {
            Type::Primitive(PrimitiveType::I32) => String::from_str("i32"),
            Type::Primitive(PrimitiveType::U32) => String::from_str("u32"),
            Type::Primitive(PrimitiveType::F32) => String::from_str("f32"),
            Type::Primitive(PrimitiveType::Boolean) => String::from_str("bool"),
            Type::Array(_) => String::from_str("Array"),
            Type::String => String::from_str("string"),
            Type::Object(class) => class.clone(),
            Type::Function(_, _) => String::from_str("function"),
            Type::Void => String::from_str("void"),
            Type::Unknown => String::from_str("unknown"),
        }
    }
}

} // verus!
