use holda::{string_holda_derive, parse_declaration};

const DECLARATION: &str = "struct MyStringWrapper {\n    inner: String,\n}";

fn output() -> String {
    string_holda_derive(&parse_declaration(DECLARATION).unwrap()).unwrap()
}

#[test]
fn string_wrapper_test_new() {
    let expected = "impl MyStringWrapper {\n    pub fn new(value: impl Into<String>) -> Self {\n        Self { inner: value.into() }\n    }\n}\n\n";
    assert!(output().contains(expected));
}

#[test]
fn string_wrapper_test_as_ref() {
    let expected = "impl AsRef<String> for MyStringWrapper {\n    fn as_ref(&self) -> &String {\n        &self.inner\n    }\n}\n\n";
    assert!(output().contains(expected));
}

#[test]
fn string_wrapper_test_from() {
    let expected = "impl From<&str> for MyStringWrapper {\n    fn from(value: &str) -> Self {\n        Self { inner: value.into() }\n    }\n}\n\n";
    assert!(output().contains(expected));
}

#[test]
fn string_wrapper_test_into() {
    let expected = "impl Into<String> for MyStringWrapper {\n    fn into(self) -> String {\n        self.inner\n    }\n}\n\n";
    assert!(output().contains(expected));
}

#[test]
fn string_wrapper_test_deref() {
    let expected = "impl std::ops::Deref for MyStringWrapper {\n    type Target = String;\n\n    fn deref(&self) -> &Self::Target {\n        &self.inner\n    }\n}\n\n";
    assert!(output().contains(expected));
}

#[test]
fn string_wrapper_test_deref_mut() {
    let expected = "impl std::ops::DerefMut for MyStringWrapper {\n    fn deref_mut(&mut self) -> &mut Self::Target {\n        &mut self.inner\n    }\n}\n\n";
    assert!(output().contains(expected));
}

#[test]
fn string_wrapper_test_display() {
    let expected = "impl std::fmt::Display for MyStringWrapper\nwhere\n    String: std::fmt::Display,\n{\n    fn fmt(&self, f: &mut std::fmt::Formatter<'_>) -> std::fmt::Result {\n        write!(f, \"{}\", self.inner)\n    }\n}\n\n";
    assert!(output().contains(expected));
}

#[test]
fn string_wrapper_test_from_str() {
    let expected = "impl std::str::FromStr for MyStringWrapper {\n    type Err = eyre::Error;\n\n    fn from_str(s: &str) -> Result<Self, Self::Err> {\n        let value = s.to_string().into();\n        Ok(Self { inner: value })\n    }\n}\n\n";
    assert!(output().contains(expected));
}

#[test]
fn string_wrapper_test_partial_eq() {
    let out = output();
    assert!(out.contains("impl PartialEq for MyStringWrapper\nwhere\n    String: PartialEq,\n{\n    fn eq(&self, other: &Self) -> bool {\n        self.inner == other.inner\n    }\n}\n\n"));
    assert!(out.contains("        self.inner == other.inner\n"));
}

#[test]
fn string_wrapper_test_eq() {
    let expected = "impl Eq for MyStringWrapper where String: Eq {}\n\n";
    assert!(output().contains(expected));
}

#[test]
fn string_wrapper_test_partial_ord() {
    let expected = "impl PartialOrd for MyStringWrapper\nwhere\n    String: PartialOrd,\n{\n    fn partial_cmp(&self, other: &Self) -> Option<std::cmp::Ordering> {\n        self.inner.partial_cmp(&other.inner)\n    }\n}\n\n";
    assert!(output().contains(expected));
}

#[test]
fn string_wrapper_test_ord() {
    let expected = "impl Ord for MyStringWrapper\nwhere\n    String: Ord,\n{\n    fn cmp(&self, other: &Self) -> std::cmp::Ordering {\n        self.inner.cmp(&other.inner)\n    }\n}\n\n";
    assert!(output().contains(expected));
}

#[test]
fn string_wrapper_test_hash() {
    let expected = "impl std::hash::Hash for MyStringWrapper\nwhere\n    String: std::hash::Hash,\n{\n    fn hash<H: std::hash::Hasher>(&self, state: &mut H) {\n        self.inner.hash(state);\n    }\n}\n\n";
    assert!(output().contains(expected));
}

#[test]
fn string_wrapper_test_clone() {
    let expected = "impl Clone for MyStringWrapper\nwhere\n    String: Clone,\n{\n    fn clone(&self) -> Self {\n        Self {\n            inner: self.inner.clone(),\n        }\n    }\n}\n\n";
    assert!(output().contains(expected));
}

#[test]
fn string_wrapper_test_serde() {
    let expected = "#[cfg(feature = \"serde\")]\nimpl serde::Serialize for MyStringWrapper\nwhere\n    String: serde::Serialize,\n{\n    fn serialize<S>(&self, serializer: S) -> Result<S::Ok, S::Error>\n    where\n        S: serde::Serializer,\n    {\n        self.inner.serialize(serializer)\n    }\n}\n\n#[cfg(feature = \"serde\")]\nimpl<'de> serde::Deserialize<'de> for MyStringWrapper\nwhere\n    String: serde::Deserialize<'de>,\n{\n    fn deserialize<D>(deserializer: D) -> Result<Self, D::Error>\n    where\n        D: serde::Deserializer<'de>,\n    {\n        let value = <String as serde::Deserialize>::deserialize(deserializer)?;\n        Ok(Self { inner: value })\n    }\n}\n\n";
    assert!(output().contains(expected));
}
