use holda::{holda_derive, parse_declaration};

const DECLARATION: &str = "struct MyCustomStructWrapper {\n    inner: MyCustomStruct,\n}";

fn output() -> String {
    holda_derive(&parse_declaration(DECLARATION).unwrap()).unwrap()
}

#[test]
fn test_custom_struct_wrapper() {
    let out = output();
    assert!(out.contains("impl MyCustomStructWrapper {\n    pub fn new(value: impl Into<MyCustomStruct>) -> Self {\n        Self { inner: value.into() }\n    }\n}\n\n"));
    assert!(out.contains("impl std::ops::Deref for MyCustomStructWrapper {\n    type Target = MyCustomStruct;\n\n    fn deref(&self) -> &Self::Target {\n        &self.inner\n    }\n}\n\n"));
}

#[test]
fn test_custom_struct_serde() {
    let expected = "#[cfg(feature = \"serde\")]\nimpl serde::Serialize for MyCustomStructWrapper\nwhere\n    MyCustomStruct: serde::Serialize,\n{\n    fn serialize<S>(&self, serializer: S) -> Result<S::Ok, S::Error>\n    where\n        S: serde::Serializer,\n    {\n        self.inner.serialize(serializer)\n    }\n}\n\n#[cfg(feature = \"serde\")]\nimpl<'de> serde::Deserialize<'de> for MyCustomStructWrapper\nwhere\n    MyCustomStruct: serde::Deserialize<'de>,\n{\n    fn deserialize<D>(deserializer: D) -> Result<Self, D::Error>\n    where\n        D: serde::Deserializer<'de>,\n    {\n        let value = <MyCustomStruct as serde::Deserialize>::deserialize(deserializer)?;\n        Ok(Self { inner: value })\n    }\n}\n\n";
    assert!(output().contains(expected));
}
