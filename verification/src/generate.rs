//! The assembler, and the entry points of the generator.

use crate::capability::{
    names_suppress, options_of, resolve, resolved, suppressed_by, Capability, CapabilitySet,
    Mode, SuppressionOptions,
};
use crate::declaration::{
    extract, extracted, Declaration, DeclarationView, DescriptorView, StructuralError,
    WrapperDescriptor,
};
use crate::emit::{
    emit_construction,
    emit_reference_conversion,
    emit_ownership_conversion,
    emit_dereference_read,
    emit_dereference_write,
    emit_textual_display,
    emit_debug_rendering,
    emit_parse_from_text,
    emit_equality,
    emit_order,
    emit_hashing,
    emit_duplication,
    emit_serialization_encode,
    emit_serialization_decode,
    fragment, Operation,
};
use vstd::prelude::*;
use vstd::string::*;

verus! {

/// The generated output: the fragments of the fourteen operations, joined
/// in the order of emission.
pub open spec fn generated(d: DescriptorView, caps: CapabilitySet) -> Seq<char> {
    fragment(Operation::Construction, d, caps)
        + fragment(Operation::ReferenceConversion, d, caps)
        + fragment(Operation::OwnershipConversion, d, caps)
        + fragment(Operation::DereferenceRead, d, caps)
        + fragment(Operation::DereferenceWrite, d, caps)
        + fragment(Operation::TextualDisplay, d, caps)
        + fragment(Operation::DebugRendering, d, caps)
        + fragment(Operation::ParseFromText, d, caps)
        + fragment(Operation::Equality, d, caps)
        + fragment(Operation::Order, d, caps)
        + fragment(Operation::Hashing, d, caps)
        + fragment(Operation::Duplication, d, caps)
        + fragment(Operation::SerializationEncode, d, caps)
        + fragment(Operation::SerializationDecode, d, caps)
}

/// What the generator returns for a declaration in `mode`: the output for
/// its descriptor under its resolved options, or the reason why the
/// declaration is no wrapper.
pub open spec fn expansion(decl: DeclarationView, mode: Mode) -> Result<
    Seq<char>,
    StructuralError,
> {
    match extracted(decl, mode) {
        Ok(d) => Ok(generated(d, resolved(mode, options_of(decl.options)))),
        Err(e) => Err(e),
    }
}

/// Joins the fragments of all operations, in the order of emission.
pub fn generate(d: &WrapperDescriptor, caps: &CapabilitySet) -> (out: String)
    ensures
        out@ == generated(d@, *caps),
{
    let mut out = emit_construction(d, caps);
    let part = emit_reference_conversion(d, caps);
    out.append(part.as_str());
    let part = emit_ownership_conversion(d, caps);
    out.append(part.as_str());
    let part = emit_dereference_read(d, caps);
    out.append(part.as_str());
    let part = emit_dereference_write(d, caps);
    out.append(part.as_str());
    let part = emit_textual_display(d, caps);
    out.append(part.as_str());
    let part = emit_debug_rendering(d, caps);
    out.append(part.as_str());
    let part = emit_parse_from_text(d, caps);
    out.append(part.as_str());
    let part = emit_equality(d, caps);
    out.append(part.as_str());
    let part = emit_order(d, caps);
    out.append(part.as_str());
    let part = emit_hashing(d, caps);
    out.append(part.as_str());
    let part = emit_duplication(d, caps);
    out.append(part.as_str());
    let part = emit_serialization_encode(d, caps);
    out.append(part.as_str());
    let part = emit_serialization_decode(d, caps);
    out.append(part.as_str());
    out
}

/// Generates the operations of the wrapper that `decl` declares, in `mode`.
///
/// Fails exactly when the declaration is no structure with named fields,
/// has no field, or has a first field without a name; nothing else is
/// checked here. That the inner type has
/// what an emitted operation asks of it is found out where the output is
/// compiled.
pub fn expand(decl: &Declaration, mode: Mode) -> (r: Result<String, StructuralError>)
    ensures
        match r {
            Ok(text) => expansion(decl@, mode) == Ok::<Seq<char>, StructuralError>(text@),
            Err(e) => expansion(decl@, mode) == Err::<Seq<char>, StructuralError>(e),
        },
{
    match extract(decl, mode) {
        Ok(d) => {
            let options = SuppressionOptions::from_names(&decl.options);
            let caps = resolve(mode, options);
            Ok(generate(&d, &caps))
        },
        Err(e) => Err(e),
    }
}

/// The generic entry point: honours the suppression options of the
/// declaration and emits no text parsing.
pub fn holda_derive(decl: &Declaration) -> (r: Result<String, StructuralError>)
    ensures
        match r {
            Ok(text) => expansion(decl@, Mode::Generic) == Ok::<Seq<char>, StructuralError>(
                text@,
            ),
            Err(e) => expansion(decl@, Mode::Generic) == Err::<Seq<char>, StructuralError>(e),
        },
{
    expand(decl, Mode::Generic)
}

/// The string-specialized entry point: every capability, text parsing and
/// construction from a text slice, whatever options the declaration has.
pub fn string_holda_derive(decl: &Declaration) -> (r: Result<String, StructuralError>)
    ensures
        match r {
            Ok(text) => expansion(decl@, Mode::StringSpecialized) == Ok::<
                Seq<char>,
                StructuralError,
            >(text@),
            Err(e) => expansion(decl@, Mode::StringSpecialized) == Err::<
                Seq<char>,
                StructuralError,
            >(e),
        },
{
    expand(decl, Mode::StringSpecialized)
}

/// The string-specialized entry point under its second name. It returns
/// what [`string_holda_derive`] returns.
pub fn string_holder_derive(decl: &Declaration) -> (r: Result<String, StructuralError>)
    ensures
        match r {
            Ok(text) => expansion(decl@, Mode::StringSpecialized) == Ok::<
                Seq<char>,
                StructuralError,
            >(text@),
            Err(e) => expansion(decl@, Mode::StringSpecialized) == Err::<
                Seq<char>,
                StructuralError,
            >(e),
        },
{
    expand(decl, Mode::StringSpecialized)
}

/// Only the first named field is read: two declarations of the same name
/// and options whose first fields agree expand to the same output,
/// whatever fields follow.
pub proof fn lemma_only_first_field_is_read(
    a: DeclarationView,
    b: DeclarationView,
    mode: Mode,
)
    requires
        a.name == b.name,
        a.options == b.options,
        a.shape is NamedStruct,
        b.shape is NamedStruct,
        a.shape->NamedStruct_0.len() > 0,
        b.shape->NamedStruct_0.len() > 0,
        a.shape->NamedStruct_0[0] == b.shape->NamedStruct_0[0],
    ensures
        extracted(a, mode) == extracted(b, mode),
        expansion(a, mode) == expansion(b, mode),
{
}

/// In string-specialized mode the options are not read: the output is that
/// of the full capability set, with text parsing and construction from a
/// text slice in it.
pub proof fn lemma_string_mode_ignores_options(decl: DeclarationView, other: Seq<Seq<char>>)
    requires
        extracted(decl, Mode::StringSpecialized) is Ok,
    ensures
        expansion(decl, Mode::StringSpecialized) == expansion(
            DeclarationView { options: other, ..decl },
            Mode::StringSpecialized,
        ),
        expansion(decl, Mode::StringSpecialized) == Ok::<Seq<char>, StructuralError>(
            generated(
                extracted(decl, Mode::StringSpecialized)->Ok_0,
                CapabilitySet::full(),
            ),
        ),
{
}

/// A name that is no recognized option changes nothing.
pub proof fn lemma_unrecognized_option_is_ignored(
    decl: DeclarationView,
    name: Seq<char>,
    mode: Mode,
)
    requires
        suppressed_by(name) is None,
    ensures
        expansion(DeclarationView { options: decl.options.push(name), ..decl }, mode)
            == expansion(decl, mode),
{
    let more = decl.options.push(name);
    assert forall|c: Capability| names_suppress(more, c) == names_suppress(decl.options, c) by {
        if names_suppress(decl.options, c) {
            let j = choose|j: int|
                0 <= j < decl.options.len() && suppressed_by(
                    #[trigger] decl.options[j],
                ) == Some(c);
            assert(more[j] == decl.options[j]);
        }
        if names_suppress(more, c) {
            let j = choose|j: int|
                0 <= j < more.len() && suppressed_by(#[trigger] more[j])
                    == Some(c);
            if j < decl.options.len() {
                assert(more[j] == decl.options[j]);
            }
        }
    }
}

} // verus!
