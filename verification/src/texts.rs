//! The text of each generated item, as a function of the descriptor.
//!
//! Every text ends with an empty line, so that texts can be joined as they
//! are.

use crate::declaration::{DescriptorView, WrapperDescriptor};
use vstd::prelude::*;
use vstd::string::*;

verus! {

/// The text of the constructor `new`, which takes any value that converts
/// into the inner type.
pub open spec fn construction_text(d: DescriptorView) -> Seq<char> {
    "impl "@
        + d.name
        + " {\n    pub fn new(value: impl Into<"@
        + d.inner_type
        + ">) -> Self {\n        Self { "@
        + d.field
        + ": value.into() }\n    }\n}\n\n"@
}

/// Writes the constructor `new`, which takes any value that converts into
/// the inner type.
pub fn write_construction(d: &WrapperDescriptor) -> (out: String)
    ensures
        out@ == construction_text(d@),
{
    let mut out = String::from_str("impl ");
    out.append(d.name.as_str());
    out.append(" {\n    pub fn new(value: impl Into<");
    out.append(d.inner_type.as_str());
    out.append(">) -> Self {\n        Self { ");
    out.append(d.field.as_str());
    out.append(": value.into() }\n    }\n}\n\n");
    out
}

/// The text of `AsRef`: borrowed access to the inner value.
pub open spec fn reference_conversion_text(d: DescriptorView) -> Seq<char> {
    "impl AsRef<"@
        + d.inner_type
        + "> for "@
        + d.name
        + " {\n    fn as_ref(&self) -> &"@
        + d.inner_type
        + " {\n        &self."@
        + d.field
        + "\n    }\n}\n\n"@
}

/// Writes `AsRef`: borrowed access to the inner value.
pub fn write_reference_conversion(d: &WrapperDescriptor) -> (out: String)
    ensures
        out@ == reference_conversion_text(d@),
{
    let mut out = String::from_str("impl AsRef<");
    out.append(d.inner_type.as_str());
    out.append("> for ");
    out.append(d.name.as_str());
    out.append(" {\n    fn as_ref(&self) -> &");
    out.append(d.inner_type.as_str());
    out.append(" {\n        &self.");
    out.append(d.field.as_str());
    out.append("\n    }\n}\n\n");
    out
}

/// The text of `From` the inner type: wrapping.
pub open spec fn from_inner_text(d: DescriptorView) -> Seq<char> {
    "impl From<"@
        + d.inner_type
        + "> for "@
        + d.name
        + " {\n    fn from(value: "@
        + d.inner_type
        + ") -> Self {\n        Self { "@
        + d.field
        + ": value }\n    }\n}\n\n"@
}

/// Writes `From` the inner type: wrapping.
pub fn write_from_inner(d: &WrapperDescriptor) -> (out: String)
    ensures
        out@ == from_inner_text(d@),
{
    let mut out = String::from_str("impl From<");
    out.append(d.inner_type.as_str());
    out.append("> for ");
    out.append(d.name.as_str());
    out.append(" {\n    fn from(value: ");
    out.append(d.inner_type.as_str());
    out.append(") -> Self {\n        Self { ");
    out.append(d.field.as_str());
    out.append(": value }\n    }\n}\n\n");
    out
}

/// The text of `From<&str>`: construction from a text slice.
pub open spec fn from_text_slice_text(d: DescriptorView) -> Seq<char> {
    "impl From<&str> for "@
        + d.name
        + " {\n    fn from(value: &str) -> Self {\n        Self { "@
        + d.field
        + ": value.into() }\n    }\n}\n\n"@
}

/// Writes `From<&str>`: construction from a text slice.
pub fn write_from_text_slice(d: &WrapperDescriptor) -> (out: String)
    ensures
        out@ == from_text_slice_text(d@),
{
    let mut out = String::from_str("impl From<&str> for ");
    out.append(d.name.as_str());
    out.append(" {\n    fn from(value: &str) -> Self {\n        Self { ");
    out.append(d.field.as_str());
    out.append(": value.into() }\n    }\n}\n\n");
    out
}

/// The text of `Into` the inner type: unwrapping.
pub open spec fn into_inner_text(d: DescriptorView) -> Seq<char> {
    "impl Into<"@
        + d.inner_type
        + "> for "@
        + d.name
        + " {\n    fn into(self) -> "@
        + d.inner_type
        + " {\n        self."@
        + d.field
        + "\n    }\n}\n\n"@
}

/// Writes `Into` the inner type: unwrapping.
pub fn write_into_inner(d: &WrapperDescriptor) -> (out: String)
    ensures
        out@ == into_inner_text(d@),
{
    let mut out = String::from_str("impl Into<");
    out.append(d.inner_type.as_str());
    out.append("> for ");
    out.append(d.name.as_str());
    out.append(" {\n    fn into(self) -> ");
    out.append(d.inner_type.as_str());
    out.append(" {\n        self.");
    out.append(d.field.as_str());
    out.append("\n    }\n}\n\n");
    out
}

/// The text of `Deref` to the inner type.
pub open spec fn dereference_read_text(d: DescriptorView) -> Seq<char> {
    "impl std::ops::Deref for "@
        + d.name
        + " {\n    type Target = "@
        + d.inner_type
        + ";\n\n    fn deref(&self) -> &Self::Target {\n        &self."@
        + d.field
        + "\n    }\n}\n\n"@
}

/// Writes `Deref` to the inner type.
pub fn write_dereference_read(d: &WrapperDescriptor) -> (out: String)
    ensures
        out@ == dereference_read_text(d@),
{
    let mut out = String::from_str("impl std::ops::Deref for ");
    out.append(d.name.as_str());
    out.append(" {\n    type Target = ");
    out.append(d.inner_type.as_str());
    out.append(";\n\n    fn deref(&self) -> &Self::Target {\n        &self.");
    out.append(d.field.as_str());
    out.append("\n    }\n}\n\n");
    out
}

/// The text of `DerefMut` to the inner type.
pub open spec fn dereference_write_text(d: DescriptorView) -> Seq<char> {
    "impl std::ops::DerefMut for "@
        + d.name
        + " {\n    fn deref_mut(&mut self) -> &mut Self::Target {\n        &mut self."@
        + d.field
        + "\n    }\n}\n\n"@
}

/// Writes `DerefMut` to the inner type.
pub fn write_dereference_write(d: &WrapperDescriptor) -> (out: String)
    ensures
        out@ == dereference_write_text(d@),
{
    let mut out = String::from_str("impl std::ops::DerefMut for ");
    out.append(d.name.as_str());
    out.append(" {\n    fn deref_mut(&mut self) -> &mut Self::Target {\n        &mut self.");
    out.append(d.field.as_str());
    out.append("\n    }\n}\n\n");
    out
}

/// The text of `Display`, which renders the inner value and nothing else.
pub open spec fn textual_display_text(d: DescriptorView) -> Seq<char> {
    "impl std::fmt::Display for "@
        + d.name
        + "\nwhere\n    "@
        + d.inner_type
        + ": std::fmt::Display,\n{\n    fn fmt(&self, f: &mut std::fmt::Formatter<'_>) -> std::fmt::Result {\n        write!(f, \"{}\", self."@
        + d.field
        + ")\n    }\n}\n\n"@
}

/// Writes `Display`, which renders the inner value and nothing else.
pub fn write_textual_display(d: &WrapperDescriptor) -> (out: String)
    ensures
        out@ == textual_display_text(d@),
{
    let mut out = String::from_str("impl std::fmt::Display for ");
    out.append(d.name.as_str());
    out.append("\nwhere\n    ");
    out.append(d.inner_type.as_str());
    out.append(": std::fmt::Display,\n{\n    fn fmt(&self, f: &mut std::fmt::Formatter<'_>) -> std::fmt::Result {\n        write!(f, \"{}\", self.");
    out.append(d.field.as_str());
    out.append(")\n    }\n}\n\n");
    out
}

/// The text of `Debug`, which renders the inner value and nothing else.
pub open spec fn debug_rendering_text(d: DescriptorView) -> Seq<char> {
    "impl std::fmt::Debug for "@
        + d.name
        + "\nwhere\n    "@
        + d.inner_type
        + ": std::fmt::Debug,\n{\n    fn fmt(&self, f: &mut std::fmt::Formatter<'_>) -> std::fmt::Result {\n        write!(f, \"{:?}\", self."@
        + d.field
        + ")\n    }\n}\n\n"@
}

/// Writes `Debug`, which renders the inner value and nothing else.
pub fn write_debug_rendering(d: &WrapperDescriptor) -> (out: String)
    ensures
        out@ == debug_rendering_text(d@),
{
    let mut out = String::from_str("impl std::fmt::Debug for ");
    out.append(d.name.as_str());
    out.append("\nwhere\n    ");
    out.append(d.inner_type.as_str());
    out.append(": std::fmt::Debug,\n{\n    fn fmt(&self, f: &mut std::fmt::Formatter<'_>) -> std::fmt::Result {\n        write!(f, \"{:?}\", self.");
    out.append(d.field.as_str());
    out.append(")\n    }\n}\n\n");
    out
}

/// The text of `FromStr`, which keeps the text as it is given and never
/// fails.
pub open spec fn parse_from_text_text(d: DescriptorView) -> Seq<char> {
    "impl std::str::FromStr for "@
        + d.name
        + " {\n    type Err = eyre::Error;\n\n    fn from_str(s: &str) -> Result<Self, Self::Err> {\n        let value = s.to_string().into();\n        Ok(Self { "@
        + d.field
        + ": value })\n    }\n}\n\n"@
}

/// Writes `FromStr`, which keeps the text as it is given and never fails.
pub fn write_parse_from_text(d: &WrapperDescriptor) -> (out: String)
    ensures
        out@ == parse_from_text_text(d@),
{
    let mut out = String::from_str("impl std::str::FromStr for ");
    out.append(d.name.as_str());
    out.append(" {\n    type Err = eyre::Error;\n\n    fn from_str(s: &str) -> Result<Self, Self::Err> {\n        let value = s.to_string().into();\n        Ok(Self { ");
    out.append(d.field.as_str());
    out.append(": value })\n    }\n}\n\n");
    out
}

/// The text of `PartialEq` and `Eq`, by the inner value.
pub open spec fn equality_text(d: DescriptorView) -> Seq<char> {
    "impl PartialEq for "@
        + d.name
        + "\nwhere\n    "@
        + d.inner_type
        + ": PartialEq,\n{\n    fn eq(&self, other: &Self) -> bool {\n        self."@
        + d.field
        + " == other."@
        + d.field
        + "\n    }\n}\n\nimpl Eq for "@
        + d.name
        + " where "@
        + d.inner_type
        + ": Eq {}\n\n"@
}

/// Writes `PartialEq` and `Eq`, by the inner value.
pub fn write_equality(d: &WrapperDescriptor) -> (out: String)
    ensures
        out@ == equality_text(d@),
{
    let mut out = String::from_str("impl PartialEq for ");
    out.append(d.name.as_str());
    out.append("\nwhere\n    ");
    out.append(d.inner_type.as_str());
    out.append(": PartialEq,\n{\n    fn eq(&self, other: &Self) -> bool {\n        self.");
    out.append(d.field.as_str());
    out.append(" == other.");
    out.append(d.field.as_str());
    out.append("\n    }\n}\n\nimpl Eq for ");
    out.append(d.name.as_str());
    out.append(" where ");
    out.append(d.inner_type.as_str());
    out.append(": Eq {}\n\n");
    out
}

/// The text of `PartialOrd` and `Ord`, by the inner value.
pub open spec fn order_text(d: DescriptorView) -> Seq<char> {
    "impl PartialOrd for "@
        + d.name
        + "\nwhere\n    "@
        + d.inner_type
        + ": PartialOrd,\n{\n    fn partial_cmp(&self, other: &Self) -> Option<std::cmp::Ordering> {\n        self."@
        + d.field
        + ".partial_cmp(&other."@
        + d.field
        + ")\n    }\n}\n\nimpl Ord for "@
        + d.name
        + "\nwhere\n    "@
        + d.inner_type
        + ": Ord,\n{\n    fn cmp(&self, other: &Self) -> std::cmp::Ordering {\n        self."@
        + d.field
        + ".cmp(&other."@
        + d.field
        + ")\n    }\n}\n\n"@
}

/// Writes `PartialOrd` and `Ord`, by the inner value.
pub fn write_order(d: &WrapperDescriptor) -> (out: String)
    ensures
        out@ == order_text(d@),
{
    let mut out = String::from_str("impl PartialOrd for ");
    out.append(d.name.as_str());
    out.append("\nwhere\n    ");
    out.append(d.inner_type.as_str());
    out.append(": PartialOrd,\n{\n    fn partial_cmp(&self, other: &Self) -> Option<std::cmp::Ordering> {\n        self.");
    out.append(d.field.as_str());
    out.append(".partial_cmp(&other.");
    out.append(d.field.as_str());
    out.append(")\n    }\n}\n\nimpl Ord for ");
    out.append(d.name.as_str());
    out.append("\nwhere\n    ");
    out.append(d.inner_type.as_str());
    out.append(": Ord,\n{\n    fn cmp(&self, other: &Self) -> std::cmp::Ordering {\n        self.");
    out.append(d.field.as_str());
    out.append(".cmp(&other.");
    out.append(d.field.as_str());
    out.append(")\n    }\n}\n\n");
    out
}

/// The text of `Hash`, which feeds the inner value to the hasher.
pub open spec fn hashing_text(d: DescriptorView) -> Seq<char> {
    "impl std::hash::Hash for "@
        + d.name
        + "\nwhere\n    "@
        + d.inner_type
        + ": std::hash::Hash,\n{\n    fn hash<H: std::hash::Hasher>(&self, state: &mut H) {\n        self."@
        + d.field
        + ".hash(state);\n    }\n}\n\n"@
}

/// Writes `Hash`, which feeds the inner value to the hasher.
pub fn write_hashing(d: &WrapperDescriptor) -> (out: String)
    ensures
        out@ == hashing_text(d@),
{
    let mut out = String::from_str("impl std::hash::Hash for ");
    out.append(d.name.as_str());
    out.append("\nwhere\n    ");
    out.append(d.inner_type.as_str());
    out.append(": std::hash::Hash,\n{\n    fn hash<H: std::hash::Hasher>(&self, state: &mut H) {\n        self.");
    out.append(d.field.as_str());
    out.append(".hash(state);\n    }\n}\n\n");
    out
}

/// The text of `Clone`, which clones the inner value.
pub open spec fn duplication_text(d: DescriptorView) -> Seq<char> {
    "impl Clone for "@
        + d.name
        + "\nwhere\n    "@
        + d.inner_type
        + ": Clone,\n{\n    fn clone(&self) -> Self {\n        Self {\n            "@
        + d.field
        + ": self."@
        + d.field
        + ".clone(),\n        }\n    }\n}\n\n"@
}

/// Writes `Clone`, which clones the inner value.
pub fn write_duplication(d: &WrapperDescriptor) -> (out: String)
    ensures
        out@ == duplication_text(d@),
{
    let mut out = String::from_str("impl Clone for ");
    out.append(d.name.as_str());
    out.append("\nwhere\n    ");
    out.append(d.inner_type.as_str());
    out.append(": Clone,\n{\n    fn clone(&self) -> Self {\n        Self {\n            ");
    out.append(d.field.as_str());
    out.append(": self.");
    out.append(d.field.as_str());
    out.append(".clone(),\n        }\n    }\n}\n\n");
    out
}

/// The text of `Serialize`, which encodes the inner value in place of the
/// wrapper. The item is compiled only where the crate that holds the
/// wrapper has its feature `serde` switched on.
pub open spec fn serialization_encode_text(d: DescriptorView) -> Seq<char> {
    "#[cfg(feature = \"serde\")]\nimpl serde::Serialize for "@
        + d.name
        + "\nwhere\n    "@
        + d.inner_type
        + ": serde::Serialize,\n{\n    fn serialize<S>(&self, serializer: S) -> Result<S::Ok, S::Error>\n    where\n        S: serde::Serializer,\n    {\n        self."@
        + d.field
        + ".serialize(serializer)\n    }\n}\n\n"@
}

/// Writes `Serialize`, which encodes the inner value in place of the
/// wrapper. The item is compiled only where the crate that holds the
/// wrapper has its feature `serde` switched on.
pub fn write_serialization_encode(d: &WrapperDescriptor) -> (out: String)
    ensures
        out@ == serialization_encode_text(d@),
{
    let mut out = String::from_str("#[cfg(feature = \"serde\")]\nimpl serde::Serialize for ");
    out.append(d.name.as_str());
    out.append("\nwhere\n    ");
    out.append(d.inner_type.as_str());
    out.append(": serde::Serialize,\n{\n    fn serialize<S>(&self, serializer: S) -> Result<S::Ok, S::Error>\n    where\n        S: serde::Serializer,\n    {\n        self.");
    out.append(d.field.as_str());
    out.append(".serialize(serializer)\n    }\n}\n\n");
    out
}

/// The text of `Deserialize`, which decodes an inner value and wraps it;
/// where the payload is no inner value, the inner type's own error is
/// returned. The item is compiled only where the crate that holds the
/// wrapper has its feature `serde` switched on.
pub open spec fn serialization_decode_text(d: DescriptorView) -> Seq<char> {
    "#[cfg(feature = \"serde\")]\nimpl<'de> serde::Deserialize<'de> for "@
        + d.name
        + "\nwhere\n    "@
        + d.inner_type
        + ": serde::Deserialize<'de>,\n{\n    fn deserialize<D>(deserializer: D) -> Result<Self, D::Error>\n    where\n        D: serde::Deserializer<'de>,\n    {\n        let value = <"@
        + d.inner_type
        + " as serde::Deserialize>::deserialize(deserializer)?;\n        Ok(Self { "@
        + d.field
        + ": value })\n    }\n}\n\n"@
}

/// Writes `Deserialize`, which decodes an inner value and wraps it; where
/// the payload is no inner value, the inner type's own error is returned.
/// The item is compiled only where the crate that holds the wrapper has its
/// feature `serde` switched on.
pub fn write_serialization_decode(d: &WrapperDescriptor) -> (out: String)
    ensures
        out@ == serialization_decode_text(d@),
{
    let mut out = String::from_str("#[cfg(feature = \"serde\")]\nimpl<'de> serde::Deserialize<'de> for ");
    out.append(d.name.as_str());
    out.append("\nwhere\n    ");
    out.append(d.inner_type.as_str());
    out.append(": serde::Deserialize<'de>,\n{\n    fn deserialize<D>(deserializer: D) -> Result<Self, D::Error>\n    where\n        D: serde::Deserializer<'de>,\n    {\n        let value = <");
    out.append(d.inner_type.as_str());
    out.append(" as serde::Deserialize>::deserialize(deserializer)?;\n        Ok(Self { ");
    out.append(d.field.as_str());
    out.append(": value })\n    }\n}\n\n");
    out
}

} // verus!
