use holda::{string_holda_derive, parse_declaration, Shape};

const DECLARATION: &str = "struct MyArcWrapper {\n    inner: Arc<str>,\n}";

fn output() -> String {
    string_holda_derive(&parse_declaration(DECLARATION).unwrap()).unwrap()
}

/// The text of the inner type as it was read; its spacing is the printer's.
fn inner_type() -> String {
    match parse_declaration(DECLARATION).unwrap().shape {
        Shape::NamedStruct(fields) => fields[0].ty.clone(),
        _ => panic!("no structure with named fields"),
    }
}

#[test]
fn arc_wrapper_inner_type_is_read() {
    assert_eq!(inner_type().replace(' ', ""), "Arc<str>");
}

#[test]
fn arc_wrapper_test_new() {
    let expected = "impl MyArcWrapper {\n    pub fn new(value: impl Into<Arc<str>>) -> Self {\n        Self { inner: value.into() }\n    }\n}\n\n".replace("Arc<str>", &inner_type());
    assert!(output().contains(&expected));
}

#[test]
fn arc_wrapper_test_as_ref() {
    let expected = "impl AsRef<Arc<str>> for MyArcWrapper {\n    fn as_ref(&self) -> &Arc<str> {\n        &self.inner\n    }\n}\n\n".replace("Arc<str>", &inner_type());
    assert!(output().contains(&expected));
}

#[test]
fn arc_wrapper_test_from() {
    let expected = "impl From<&str> for MyArcWrapper {\n    fn from(value: &str) -> Self {\n        Self { inner: value.into() }\n    }\n}\n\n".replace("Arc<str>", &inner_type());
    assert!(output().contains(&expected));
}

#[test]
fn arc_wrapper_test_into() {
    let expected = "impl Into<Arc<str>> for MyArcWrapper {\n    fn into(self) -> Arc<str> {\n        self.inner\n    }\n}\n\n".replace("Arc<str>", &inner_type());
    assert!(output().contains(&expected));
}

#[test]
fn arc_wrapper_test_deref() {
    let expected = "impl std::ops::Deref for MyArcWrapper {\n    type Target = Arc<str>;\n\n    fn deref(&self) -> &Self::Target {\n        &self.inner\n    }\n}\n\n".replace("Arc<str>", &inner_type());
    assert!(output().contains(&expected));
}

#[test]
fn arc_wrapper_test_deref_mut() {
    let expected = "impl std::ops::DerefMut for MyArcWrapper {\n    fn deref_mut(&mut self) -> &mut Self::Target {\n        &mut self.inner\n    }\n}\n\n".replace("Arc<str>", &inner_type());
    assert!(output().contains(&expected));
}

#[test]
fn arc_wrapper_test_display() {
    let expected = "impl std::fmt::Display for MyArcWrapper\nwhere\n    Arc<str>: std::fmt::Display,\n{\n    fn fmt(&self, f: &mut std::fmt::Formatter<'_>) -> std::fmt::Result {\n        write!(f, \"{}\", self.inner)\n    }\n}\n\n".replace("Arc<str>", &inner_type());
    assert!(output().contains(&expected));
}

#[test]
fn arc_wrapper_test_from_str() {
    let expected = "impl std::str::FromStr for MyArcWrapper {\n    type Err = eyre::Error;\n\n    fn from_str(s: &str) -> Result<Self, Self::Err> {\n        let value = s.to_string().into();\n        Ok(Self { inner: value })\n    }\n}\n\n".replace("Arc<str>", &inner_type());
    assert!(output().contains(&expected));
}

#[test]
fn arc_wrapper_test_partial_eq() {
    let out = output();
    assert!(out.contains(&"impl PartialEq for MyArcWrapper\nwhere\n    Arc<str>: PartialEq,\n{\n    fn eq(&self, other: &Self) -> bool {\n        self.inner == other.inner\n    }\n}\n\n".replace("Arc<str>", &inner_type())));
    assert!(out.contains(&"        self.inner == other.inner\n".replace("Arc<str>", &inner_type())));
}

#[test]
fn arc_wrapper_test_eq() {
    let expected = "impl Eq for MyArcWrapper where Arc<str>: Eq {}\n\n".replace("Arc<str>", &inner_type());
    assert!(output().contains(&expected));
}

#[test]
fn arc_wrapper_test_partial_ord() {
    let expected = "impl PartialOrd for MyArcWrapper\nwhere\n    Arc<str>: PartialOrd,\n{\n    fn partial_cmp(&self, other: &Self) -> Option<std::cmp::Ordering> {\n        self.inner.partial_cmp(&other.inner)\n    }\n}\n\n".replace("Arc<str>", &inner_type());
    assert!(output().contains(&expected));
}

#[test]
fn arc_wrapper_test_ord() {
    let expected = "impl Ord for MyArcWrapper\nwhere\n    Arc<str>: Ord,\n{\n    fn cmp(&self, other: &Self) -> std::cmp::Ordering {\n        self.inner.cmp(&other.inner)\n    }\n}\n\n".replace("Arc<str>", &inner_type());
    assert!(output().contains(&expected));
}

#[test]
fn arc_wrapper_test_hash() {
    let expected = "impl std::hash::Hash for MyArcWrapper\nwhere\n    Arc<str>: std::hash::Hash,\n{\n    fn hash<H: std::hash::Hasher>(&self, state: &mut H) {\n        self.inner.hash(state);\n    }\n}\n\n".replace("Arc<str>", &inner_type());
    assert!(output().contains(&expected));
}

#[test]
fn arc_wrapper_test_clone() {
    let expected = "impl Clone for MyArcWrapper\nwhere\n    Arc<str>: Clone,\n{\n    fn clone(&self) -> Self {\n        Self {\n            inner: self.inner.clone(),\n        }\n    }\n}\n\n".replace("Arc<str>", &inner_type());
    assert!(output().contains(&expected));
}

#[test]
fn arc_wrapper_test_serde() {
    let expected = "#[cfg(feature = \"serde\")]\nimpl serde::Serialize for MyArcWrapper\nwhere\n    Arc<str>: serde::Serialize,\n{\n    fn serialize<S>(&self, serializer: S) -> Result<S::Ok, S::Error>\n    where\n        S: serde::Serializer,\n    {\n        self.inner.serialize(serializer)\n    }\n}\n\n#[cfg(feature = \"serde\")]\nimpl<'de> serde::Deserialize<'de> for MyArcWrapper\nwhere\n    Arc<str>: serde::Deserialize<'de>,\n{\n    fn deserialize<D>(deserializer: D) -> Result<Self, D::Error>\n    where\n        D: serde::Deserializer<'de>,\n    {\n        let value = <Arc<str> as serde::Deserialize>::deserialize(deserializer)?;\n        Ok(Self { inner: value })\n    }\n}\n\n".replace("Arc<str>", &inner_type());
    assert!(output().contains(&expected));
}
