//! The fourteen operations of a wrapper and their emitters.
//!
//! An emitter is a function of the descriptor and the capability set alone.
//! It returns the text of its operation, or the empty text where the
//! operation is not emitted.

use crate::capability::{Capability, CapabilitySet, Mode};
use crate::declaration::{DescriptorView, WrapperDescriptor};
use crate::texts::{
    construction_text, debug_rendering_text, dereference_read_text, dereference_write_text,
    duplication_text, equality_text, from_inner_text, from_text_slice_text, hashing_text,
    into_inner_text, order_text, parse_from_text_text, reference_conversion_text,
    serialization_decode_text, serialization_encode_text, textual_display_text,
    write_construction, write_debug_rendering, write_dereference_read, write_dereference_write,
    write_duplication, write_equality, write_from_inner, write_from_text_slice, write_hashing,
    write_into_inner, write_order, write_parse_from_text, write_reference_conversion,
    write_serialization_decode, write_serialization_encode, write_textual_display,
};
use vstd::prelude::*;
use vstd::string::*;

verus! {

/// An operation that the generator can emit, in the order of emission.
#[derive(Clone, Copy, Debug, PartialEq, Eq, Structural)]
pub enum Operation {
    /// `new`, from any value that converts into the inner type.
    Construction,
    /// `AsRef`: borrowed access to the inner value.
    ReferenceConversion,
    /// `From` the inner type and `Into` it; in string-specialized mode
    /// also `From<&str>`.
    OwnershipConversion,
    /// `Deref`: the wrapper stands where a shared inner value is wanted.
    DereferenceRead,
    /// `DerefMut`: the wrapper stands where a mutable inner value is wanted.
    DereferenceWrite,
    /// `Display`, as the inner type renders itself.
    TextualDisplay,
    /// `Debug`, as the inner type renders itself. No option suppresses it.
    DebugRendering,
    /// `FromStr`, in string-specialized mode only. The policy is to keep
    /// the text: it is converted into the inner type as it is given, nothing
    /// is validated, and parsing never fails.
    ParseFromText,
    /// `PartialEq` and `Eq`, by the inner value.
    Equality,
    /// `PartialOrd` and `Ord`, by the inner value.
    Order,
    /// `Hash`, by the inner value.
    Hashing,
    /// `Clone`, by the inner value.
    Duplication,
    /// `Serialize`: the wrapper is encoded as its inner value.
    SerializationEncode,
    /// `Deserialize`: an inner value is decoded and wrapped; the error is
    /// the inner type's own.
    SerializationDecode,
}

/// The capability on which an operation depends, if it depends on one.
pub open spec fn governing(op: Operation) -> Option<Capability> {
    match op {
        Operation::TextualDisplay => Some(Capability::Display),
        Operation::Equality => Some(Capability::Equality),
        Operation::Order => Some(Capability::Order),
        Operation::Hashing => Some(Capability::Hashing),
        Operation::Duplication => Some(Capability::Duplication),
        Operation::SerializationEncode => Some(Capability::Serialization),
        Operation::SerializationDecode => Some(Capability::Serialization),
        _ => None,
    }
}

/// Whether an operation is emitted in `mode` under `caps`.
pub open spec fn emitted(op: Operation, mode: Mode, caps: CapabilitySet) -> bool {
    match governing(op) {
        Some(c) => caps.has(c),
        None => op == Operation::ParseFromText ==> mode == Mode::StringSpecialized,
    }
}

/// The text of an operation where it is emitted.
pub open spec fn operation_text(op: Operation, d: DescriptorView) -> Seq<char> {
    match op {
        Operation::Construction => construction_text(d),
        Operation::ReferenceConversion => reference_conversion_text(d),
        Operation::OwnershipConversion => from_inner_text(d) + (if d.mode
            == Mode::StringSpecialized {
            from_text_slice_text(d)
        } else {
            Seq::empty()
        }) + into_inner_text(d),
        Operation::DereferenceRead => dereference_read_text(d),
        Operation::DereferenceWrite => dereference_write_text(d),
        Operation::TextualDisplay => textual_display_text(d),
        Operation::DebugRendering => debug_rendering_text(d),
        Operation::ParseFromText => parse_from_text_text(d),
        Operation::Equality => equality_text(d),
        Operation::Order => order_text(d),
        Operation::Hashing => hashing_text(d),
        Operation::Duplication => duplication_text(d),
        Operation::SerializationEncode => serialization_encode_text(d),
        Operation::SerializationDecode => serialization_decode_text(d),
    }
}

/// What the emitter of `op` returns: the text of the operation, or nothing.
pub open spec fn fragment(op: Operation, d: DescriptorView, caps: CapabilitySet) -> Seq<char> {
    if emitted(op, d.mode, caps) {
        operation_text(op, d)
    } else {
        Seq::empty()
    }
}

/// Whether the emitter of `op` returns its text in `mode` under `caps`.
pub fn is_emitted(op: Operation, mode: Mode, caps: &CapabilitySet) -> (r: bool)
    ensures
        r == emitted(op, mode, *caps),
{
    match op {
        Operation::TextualDisplay => caps.display,
        Operation::Equality => caps.equality,
        Operation::Order => caps.order,
        Operation::Hashing => caps.hashing,
        Operation::Duplication => caps.duplication,
        Operation::SerializationEncode => caps.serialization,
        Operation::SerializationDecode => caps.serialization,
        Operation::ParseFromText => match mode {
            Mode::StringSpecialized => true,
            Mode::Generic => false,
        },
        _ => true,
    }
}

/// The emitter of [`Operation::Construction`]. Always emitted.
#[allow(unused_variables)]
pub fn emit_construction(d: &WrapperDescriptor, caps: &CapabilitySet) -> (out: String)
    ensures
        out@ == fragment(Operation::Construction, d@, *caps),
{
    write_construction(d)
}

/// The emitter of [`Operation::ReferenceConversion`]. Always emitted.
#[allow(unused_variables)]
pub fn emit_reference_conversion(d: &WrapperDescriptor, caps: &CapabilitySet) -> (out: String)
    ensures
        out@ == fragment(Operation::ReferenceConversion, d@, *caps),
{
    write_reference_conversion(d)
}

/// The emitter of [`Operation::OwnershipConversion`].
/// Always emitted; in string-specialized mode with construction from a text
/// slice between the two directions.
#[allow(unused_variables)]
pub fn emit_ownership_conversion(d: &WrapperDescriptor, caps: &CapabilitySet) -> (out: String)
    ensures
        out@ == fragment(Operation::OwnershipConversion, d@, *caps),
{
    let mut out = write_from_inner(d);
    match d.mode {
        Mode::StringSpecialized => {
            let slice = write_from_text_slice(d);
            out.append(slice.as_str());
        },
        Mode::Generic => {
            assert(out@ + Seq::<char>::empty() =~= out@);
        },
    }
    let back = write_into_inner(d);
    out.append(back.as_str());
    out
}

/// The emitter of [`Operation::DereferenceRead`]. Always emitted.
#[allow(unused_variables)]
pub fn emit_dereference_read(d: &WrapperDescriptor, caps: &CapabilitySet) -> (out: String)
    ensures
        out@ == fragment(Operation::DereferenceRead, d@, *caps),
{
    write_dereference_read(d)
}

/// The emitter of [`Operation::DereferenceWrite`]. Always emitted.
#[allow(unused_variables)]
pub fn emit_dereference_write(d: &WrapperDescriptor, caps: &CapabilitySet) -> (out: String)
    ensures
        out@ == fragment(Operation::DereferenceWrite, d@, *caps),
{
    write_dereference_write(d)
}

/// The emitter of [`Operation::TextualDisplay`]. Emitted unless display is
/// suppressed.
pub fn emit_textual_display(d: &WrapperDescriptor, caps: &CapabilitySet) -> (out: String)
    ensures
        out@ == fragment(Operation::TextualDisplay, d@, *caps),
{
    if caps.display {
        write_textual_display(d)
    } else {
        String::new()
    }
}

/// The emitter of [`Operation::DebugRendering`].
/// Always emitted: no option suppresses it.
#[allow(unused_variables)]
pub fn emit_debug_rendering(d: &WrapperDescriptor, caps: &CapabilitySet) -> (out: String)
    ensures
        out@ == fragment(Operation::DebugRendering, d@, *caps),
{
    write_debug_rendering(d)
}

/// The emitter of [`Operation::ParseFromText`].
/// Emitted in string-specialized mode only.
#[allow(unused_variables)]
pub fn emit_parse_from_text(d: &WrapperDescriptor, caps: &CapabilitySet) -> (out: String)
    ensures
        out@ == fragment(Operation::ParseFromText, d@, *caps),
{
    match d.mode {
        Mode::StringSpecialized => write_parse_from_text(d),
        Mode::Generic => String::new(),
    }
}

/// The emitter of [`Operation::Equality`]. Emitted unless equality is suppressed.
pub fn emit_equality(d: &WrapperDescriptor, caps: &CapabilitySet) -> (out: String)
    ensures
        out@ == fragment(Operation::Equality, d@, *caps),
{
    if caps.equality {
        write_equality(d)
    } else {
        String::new()
    }
}

/// The emitter of [`Operation::Order`]. Emitted unless order is suppressed.
pub fn emit_order(d: &WrapperDescriptor, caps: &CapabilitySet) -> (out: String)
    ensures
        out@ == fragment(Operation::Order, d@, *caps),
{
    if caps.order {
        write_order(d)
    } else {
        String::new()
    }
}

/// The emitter of [`Operation::Hashing`]. Emitted unless hashing is suppressed.
pub fn emit_hashing(d: &WrapperDescriptor, caps: &CapabilitySet) -> (out: String)
    ensures
        out@ == fragment(Operation::Hashing, d@, *caps),
{
    if caps.hashing {
        write_hashing(d)
    } else {
        String::new()
    }
}

/// The emitter of [`Operation::Duplication`].
/// Emitted unless duplication is suppressed.
pub fn emit_duplication(d: &WrapperDescriptor, caps: &CapabilitySet) -> (out: String)
    ensures
        out@ == fragment(Operation::Duplication, d@, *caps),
{
    if caps.duplication {
        write_duplication(d)
    } else {
        String::new()
    }
}

/// The emitter of [`Operation::SerializationEncode`].
/// Emitted unless serialization is suppressed.
pub fn emit_serialization_encode(d: &WrapperDescriptor, caps: &CapabilitySet) -> (out: String)
    ensures
        out@ == fragment(Operation::SerializationEncode, d@, *caps),
{
    if caps.serialization {
        write_serialization_encode(d)
    } else {
        String::new()
    }
}

/// The emitter of [`Operation::SerializationDecode`].
/// Emitted unless serialization is suppressed.
pub fn emit_serialization_decode(d: &WrapperDescriptor, caps: &CapabilitySet) -> (out: String)
    ensures
        out@ == fragment(Operation::SerializationDecode, d@, *caps),
{
    if caps.serialization {
        write_serialization_decode(d)
    } else {
        String::new()
    }
}
/// The emitter of `op`.
pub fn emit(op: Operation, d: &WrapperDescriptor, caps: &CapabilitySet) -> (out: String)
    ensures
        out@ == fragment(op, d@, *caps),
{
    match op {
        Operation::Construction => emit_construction(d, caps),
        Operation::ReferenceConversion => emit_reference_conversion(d, caps),
        Operation::OwnershipConversion => emit_ownership_conversion(d, caps),
        Operation::DereferenceRead => emit_dereference_read(d, caps),
        Operation::DereferenceWrite => emit_dereference_write(d, caps),
        Operation::TextualDisplay => emit_textual_display(d, caps),
        Operation::DebugRendering => emit_debug_rendering(d, caps),
        Operation::ParseFromText => emit_parse_from_text(d, caps),
        Operation::Equality => emit_equality(d, caps),
        Operation::Order => emit_order(d, caps),
        Operation::Hashing => emit_hashing(d, caps),
        Operation::Duplication => emit_duplication(d, caps),
        Operation::SerializationEncode => emit_serialization_encode(d, caps),
        Operation::SerializationDecode => emit_serialization_decode(d, caps),
    }
}

/// Suppressing a capability changes no fragment but those of the
/// operations that depend on it: every other emitter returns what it
/// returned before.
pub proof fn lemma_suppression_is_independent(
    op: Operation,
    d: DescriptorView,
    caps: CapabilitySet,
    others: CapabilitySet,
    c: Capability,
)
    requires
        governing(op) != Some(c),
        forall|o: Capability| o != c ==> caps.has(o) == others.has(o),
    ensures
        fragment(op, d, caps) == fragment(op, d, others),
{
    match governing(op) {
        Some(o) => {
            assert(o != c);
            assert(caps.has(o) == others.has(o));
        },
        None => {},
    }
}

/// No capability set suppresses the rendering for debugging, and none
/// touches the operations that depend on no capability.
pub proof fn lemma_ungoverned_is_always_emitted(
    op: Operation,
    d: DescriptorView,
    caps: CapabilitySet,
)
    requires
        governing(op) is None,
        op != Operation::ParseFromText,
    ensures
        fragment(op, d, caps) == operation_text(op, d),
        fragment(Operation::DebugRendering, d, caps) == debug_rendering_text(d),
{
}

/// Text parsing and construction from a text slice are emitted in
/// string-specialized mode, whatever the capability set, and never in
/// generic mode.
pub proof fn lemma_text_paths_follow_the_mode(d: DescriptorView, caps: CapabilitySet)
    ensures
        d.mode == Mode::StringSpecialized ==> fragment(Operation::ParseFromText, d, caps)
            == parse_from_text_text(d) && fragment(Operation::OwnershipConversion, d, caps)
            == from_inner_text(d) + from_text_slice_text(d) + into_inner_text(d),
        d.mode == Mode::Generic ==> fragment(Operation::ParseFromText, d, caps) == Seq::<
            char,
        >::empty() && fragment(Operation::OwnershipConversion, d, caps) == from_inner_text(d)
            + into_inner_text(d),
{
    assert(from_inner_text(d) + Seq::<char>::empty() =~= from_inner_text(d));
}

/// A fragment is all or nothing: with its capability present it is the
/// text that the full set gives, and without it it is empty.
pub proof fn lemma_fragment_all_or_nothing(
    op: Operation,
    d: DescriptorView,
    caps: CapabilitySet,
    c: Capability,
)
    requires
        governing(op) == Some(c),
    ensures
        caps.has(c) ==> fragment(op, d, caps) == fragment(op, d, CapabilitySet::full()),
        !caps.has(c) ==> fragment(op, d, caps) == Seq::<char>::empty(),
{
}

} // verus!
