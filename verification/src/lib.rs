//! A generator of the conventional operations of a newtype wrapper.
//!
//! A declaration of a structure that holds one named value is reduced to a
//! [`WrapperDescriptor`]; the suppression options that stand on it are
//! resolved to a [`CapabilitySet`]; and each operation of the wrapper is
//! emitted as Rust source text, in a fixed order.

pub mod capability;
pub mod declaration;
pub mod emit;
pub mod generate;
pub mod syntax;
pub mod texts;

pub use capability::{resolve, Capability, CapabilitySet, Mode, SuppressionOptions};
pub use declaration::{
    extract, Declaration, DeclarationView, DescriptorView, FieldDecl, FieldView, Shape,
    ShapeView, StructuralError, WrapperDescriptor,
};
pub use emit::Operation;
pub use generate::{expand, generate, holda_derive, string_holda_derive, string_holder_derive};
pub use syntax::{
    declare, declare_unconfigured, derive_from_source, expand_parsed, gather_options,
    parse_declaration, parse_unconfigured, read_item, AttributeDecl, AttributeView, DeriveError,
    DeriveErrorView, ItemDecl, ItemView, SyntaxError,
};
