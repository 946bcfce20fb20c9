//! Declarations as the generator reads them, and the extraction of the
//! descriptor of a wrapper from one.

use crate::capability::Mode;
use vstd::prelude::*;

verus! {

/// A field of a structure: its name, if it has one, and the text of its
/// type.
#[derive(Clone, Debug)]
pub struct FieldDecl {
    pub name: Option<String>,
    pub ty: String,
}

/// The model of a [`FieldDecl`].
pub struct FieldView {
    pub name: Option<Seq<char>>,
    pub ty: Seq<char>,
}

impl View for FieldDecl {
    type V = FieldView;

    open spec fn view(&self) -> FieldView {
        FieldView {
            name: match self.name {
                Some(name) => Some(name@),
                None => None,
            },
            ty: self.ty@,
        }
    }
}

/// The kind of item that was declared.
#[derive(Clone, Debug)]
pub enum Shape {
    /// A structure with named fields, in the order in which they are written.
    NamedStruct(Vec<FieldDecl>),
    /// A structure with unnamed fields.
    TupleStruct,
    /// A structure without fields.
    UnitStruct,
    Enum,
    Union,
}

/// The model of a [`Shape`].
pub enum ShapeView {
    NamedStruct(Seq<FieldView>),
    TupleStruct,
    UnitStruct,
    Enum,
    Union,
}

/// The views of a vector of fields.
pub open spec fn field_views(fields: Seq<FieldDecl>) -> Seq<FieldView> {
    Seq::new(fields.len(), |i: int| fields[i]@)
}

impl View for Shape {
    type V = ShapeView;

    open spec fn view(&self) -> ShapeView {
        match *self {
            Shape::NamedStruct(fields) => ShapeView::NamedStruct(field_views(fields@)),
            Shape::TupleStruct => ShapeView::TupleStruct,
            Shape::UnitStruct => ShapeView::UnitStruct,
            Shape::Enum => ShapeView::Enum,
            Shape::Union => ShapeView::Union,
        }
    }
}

/// A declaration: the name of the item, the option names written in its
/// configuration blocks, and its shape.
#[derive(Clone, Debug)]
pub struct Declaration {
    pub name: String,
    pub options: Vec<String>,
    pub shape: Shape,
}

/// The model of a [`Declaration`].
pub struct DeclarationView {
    pub name: Seq<char>,
    pub options: Seq<Seq<char>>,
    pub shape: ShapeView,
}

impl View for Declaration {
    type V = DeclarationView;

    open spec fn view(&self) -> DeclarationView {
        DeclarationView {
            name: self.name@,
            options: crate::capability::name_views(self.options@),
            shape: self.shape@,
        }
    }
}

/// What every emitter needs to know of a wrapper.
#[derive(Clone, Debug)]
pub struct WrapperDescriptor {
    /// The name of the wrapper.
    pub name: String,
    /// The text of the type of the wrapped value.
    pub inner_type: String,
    /// The name of the field that holds the wrapped value.
    pub field: String,
    pub mode: Mode,
}

/// The model of a [`WrapperDescriptor`].
pub struct DescriptorView {
    pub name: Seq<char>,
    pub inner_type: Seq<char>,
    pub field: Seq<char>,
    pub mode: Mode,
}

impl View for WrapperDescriptor {
    type V = DescriptorView;

    open spec fn view(&self) -> DescriptorView {
        DescriptorView {
            name: self.name@,
            inner_type: self.inner_type@,
            field: self.field@,
            mode: self.mode,
        }
    }
}

/// Why a declaration cannot be a wrapper.
#[derive(Clone, Copy, Debug, PartialEq, Eq, Structural)]
pub enum StructuralError {
    /// The item is not a structure with named fields.
    NotNamedStruct,
    /// The structure has named fields, but none is written.
    NoFields,
    /// The first field has no name.
    UnnamedField,
}

impl StructuralError {
    /// The text of the diagnostic.
    pub open spec fn message_text(self) -> Seq<char> {
        match self {
            StructuralError::NotNamedStruct => "Only structs with named fields are supported"@,
            StructuralError::NoFields => "Struct must have at least one field"@,
            StructuralError::UnnamedField => "Field must be named"@,
        }
    }

    /// The diagnostic that is reported at the declaration.
    pub fn message(&self) -> (text: &'static str)
        ensures
            text@ == self.message_text(),
    {
        match self {
            StructuralError::NotNamedStruct => "Only structs with named fields are supported",
            StructuralError::NoFields => "Struct must have at least one field",
            StructuralError::UnnamedField => "Field must be named",
        }
    }
}

/// The descriptor that a declaration gives in `mode`, or the reason why it
/// gives none. Of the named fields only the first is read.
pub open spec fn extracted(decl: DeclarationView, mode: Mode) -> Result<
    DescriptorView,
    StructuralError,
> {
    match decl.shape {
        ShapeView::NamedStruct(fields) => if fields.len() == 0 {
            Err(StructuralError::NoFields)
        } else {
            match fields[0].name {
                Some(field) => Ok(
                    DescriptorView {
                        name: decl.name,
                        inner_type: fields[0].ty,
                        field: field,
                        mode: mode,
                    },
                ),
                None => Err(StructuralError::UnnamedField),
            }
        },
        _ => Err(StructuralError::NotNamedStruct),
    }
}

/// Reduces a declaration to the descriptor of a wrapper.
///
/// A structure with at least one named field is a wrapper of its first
/// field; further fields are not read and are no error. Anything else is
/// rejected: an item that is no structure with named fields, a structure
/// without a field, a first field without a name.
pub fn extract(decl: &Declaration, mode: Mode) -> (r: Result<WrapperDescriptor, StructuralError>)
    ensures
        match r {
            Ok(d) => extracted(decl@, mode) == Ok::<DescriptorView, StructuralError>(d@),
            Err(e) => extracted(decl@, mode) == Err::<DescriptorView, StructuralError>(e),
        },
{
    match &decl.shape {
        Shape::NamedStruct(fields) => {
            if fields.len() == 0 {
                Err(StructuralError::NoFields)
            } else {
                let first = &fields[0];
                match &first.name {
                    Some(field) => Ok(
                        WrapperDescriptor {
                            name: decl.name.clone(),
                            inner_type: first.ty.clone(),
                            field: field.clone(),
                            mode,
                        },
                    ),
                    None => Err(StructuralError::UnnamedField),
                }
            }
        },
        _ => Err(StructuralError::NotNamedStruct),
    }
}

} // verus!
