use holda::{holda_derive, parse_declaration};

const DECLARATION: &str = "struct MyUuidWrapper {\n    inner: Uuid,\n}";

fn output() -> String {
    holda_derive(&parse_declaration(DECLARATION).unwrap()).unwrap()
}

#[test]
fn test_uuid_wrapper() {
    let out = output();
    assert!(out.contains("impl MyUuidWrapper {\n    pub fn new(value: impl Into<Uuid>) -> Self {\n        Self { inner: value.into() }\n    }\n}\n\n"));
    assert!(out.contains("impl std::ops::Deref for MyUuidWrapper {\n    type Target = Uuid;\n\n    fn deref(&self) -> &Self::Target {\n        &self.inner\n    }\n}\n\n"));
}

#[test]
fn test_uuid_serde() {
    let expected = "#[cfg(feature = \"serde\")]\nimpl serde::Serialize for MyUuidWrapper\nwhere\n    Uuid: serde::Serialize,\n{\n    fn serialize<S>(&self, serializer: S) -> Result<S::Ok, S::Error>\n    where\n        S: serde::Serializer,\n    {\n        self.inner.serialize(serializer)\n    }\n}\n\n#[cfg(feature = \"serde\")]\nimpl<'de> serde::Deserialize<'de> for MyUuidWrapper\nwhere\n    Uuid: serde::Deserialize<'de>,\n{\n    fn deserialize<D>(deserializer: D) -> Result<Self, D::Error>\n    where\n        D: serde::Deserializer<'de>,\n    {\n        let value = <Uuid as serde::Deserialize>::deserialize(deserializer)?;\n        Ok(Self { inner: value })\n    }\n}\n\n";
    assert!(output().contains(expected));
}
