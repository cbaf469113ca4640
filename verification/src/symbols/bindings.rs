use crate::types::{Type, TypeView};
use vstd::prelude::*;

verus! {

/// A field of a class: where it lies in an instance, in bytes from the
/// start, and its type.
#[derive(Debug, PartialEq)]
pub struct FieldBinding {
    pub name: String,
    pub offset: i32,
    pub ty: Type,
}

pub struct FieldBindingView {
    pub name: Seq<char>,
    pub offset: i32,
    pub ty: TypeView,
}

impl View for FieldBinding {
    type V = FieldBindingView;

    open spec fn view(&self) -> FieldBindingView {
        FieldBindingView { name: self.name@, offset: self.offset, ty: self.ty@ }
    }
}

/// The layout of a class: the size of an instance in bytes, its fields, and
/// the names of its methods.
#[derive(Debug, PartialEq)]
pub struct ClassBinding {
    pub name: String,
    pub size: i32,
    pub fields: Vec<FieldBinding>,
    pub methods: Vec<String>,
}

pub struct ClassBindingView {
    pub name: Seq<char>,
    pub size: i32,
    pub fields: Seq<FieldBindingView>,
    pub methods: Seq<Seq<char>>,
}

impl View for ClassBinding {
    type V = ClassBindingView;

    open spec fn view(&self) -> ClassBindingView {
        ClassBindingView {
            name: self.name@,
            size: self.size,
            fields: Seq::new(self.fields.len() as nat, |i: int| self.fields[i]@),
            methods: Seq::new(self.methods.len() as nat, |i: int| self.methods[i]@),
        }
    }
}

/// The first position at or after `k` of a field with the name `name`.
pub open spec fn field_from(fields: Seq<FieldBindingView>, name: Seq<char>, k: int) -> Option<int>
    decreases fields.len() - k,
{
    if k < 0 || k >= fields.len() {
        None
    } else if fields[k].name == name {
        Some(k)
    } else {
        field_from(fields, name, k + 1)
    }
}

/// The first position at or after `k` of a class with the name `name`.
pub open spec fn class_from(classes: Seq<ClassBindingView>, name: Seq<char>, k: int) -> Option<int>
    decreases classes.len() - k,
{
    if k < 0 || k >= classes.len() {
        None
    } else if classes[k].name == name {
        Some(k)
    } else {
        class_from(classes, name, k + 1)
    }
}

impl ClassBindingView {
    /// The field with the name `name`.
    pub open spec fn field(self, name: Seq<char>) -> Option<FieldBindingView> {
        match field_from(self.fields, name, 0) {
            Some(i) => Some(self.fields[i]),
            None => None,
        }
    }
}

/// The classes of a program, in the order in which they were bound.
pub type BindingsView = Seq<ClassBindingView>;

/// The class with the name `name`.
pub open spec fn class_of(bindings: BindingsView, name: Seq<char>) -> Option<ClassBindingView> {
    match class_from(bindings, name, 0) {
        Some(i) => Some(bindings[i]),
        None => None,
    }
}

/// The size in bytes of an instance of the class `class`.
pub open spec fn size_of_class(bindings: BindingsView, class: Seq<char>) -> Option<i32> {
    match class_of(bindings, class) {
        Some(binding) => Some(binding.size),
        None => None,
    }
}

/// The offset in bytes of the field `field` in an instance of `class`.
pub open spec fn offset_of_field(bindings: BindingsView, class: Seq<char>, field: Seq<char>) -> Option<
    i32,
> {
    match class_of(bindings, class) {
        Some(binding) => match binding.field(field) {
            Some(f) => Some(f.offset),
            None => None,
        },
        None => None,
    }
}

impl ClassBinding {
    /// The field with the name `name`.
    pub fn field(&self, name: &String) -> (found: Option<&FieldBinding>)
        ensures
            match found {
                Some(f) => self@.field(name@) == Some(f@),
                None => self@.field(name@) is None,
            },
    {
        let mut k: usize = 0;
        while k < self.fields.len()
            invariant
                k <= self.fields.len(),
                field_from(self@.fields, name@, 0) == field_from(self@.fields, name@, k as int),
            decreases self.fields.len() - k,
        {
            if self.fields[k].name == *name {
                return Some(&self.fields[k]);
            }
            k += 1;
        }
        None
    }
}

/// What semantic analysis knows of the classes: for each its layout.
#[derive(Debug, PartialEq)]
pub struct BindingsTable {
    pub classes: Vec<ClassBinding>,
}

impl View for BindingsTable {
    type V = BindingsView;

    open spec fn view(&self) -> BindingsView {
        Seq::new(self.classes.len() as nat, |i: int| self.classes[i]@)
    }
}

impl BindingsTable {
    /// The table without classes.
    pub fn new() -> (table: Self)
        ensures
            table@ == Seq::<ClassBindingView>::empty(),
    {
        let table = BindingsTable { classes: Vec::new() };
        assert(table@ =~= Seq::empty());
        table
    }

    /// Adds the layout of a class. Of two classes with one name the one
    /// bound first is the one that is found.
    pub fn insert(&mut self, binding: ClassBinding)
        ensures
            final(self)@ == old(self)@.push(binding@),
    {
        self.classes.push(binding);
        assert(self@ =~= old(self)@.push(binding@));
    }

    /// The class with the name `name`.
    pub fn lookup(&self, name: &String) -> (found: Option<&ClassBinding>)
        ensures
            match found {
                Some(binding) => class_of(self@, name@) == Some(binding@),
                None => class_of(self@, name@) is None,
            },
    {
        let mut k: usize = 0;
        while k < self.classes.len()
            invariant
                k <= self.classes.len(),
                class_from(self@, name@, 0) == class_from(self@, name@, k as int),
            decreases self.classes.len() - k,
        {
            if self.classes[k].name == *name {
                return Some(&self.classes[k]);
            }
            k += 1;
        }
        None
    }

    /// The size in bytes of an instance of the class `class`.
    pub fn size_of(&self, class: &String) -> (size: Option<i32>)
        ensures
            size == size_of_class(self@, class@),
    {
        match self.lookup(class) {
            Some(binding) => Some(binding.size),
            None => None,
        }
    }

    /// The offset in bytes of the field `field` in an instance of `class`.
    pub fn offset_of(&self, class: &String, field: &String) -> (offset: Option<i32>)
        ensures
            offset == offset_of_field(self@, class@, field@),
    {
        match self.lookup(class) {
            Some(binding) => match binding.field(field) {
                Some(f) => Some(f.offset),
                None => None,
            },
            None => None,
        }
    }
}

} // verus!
