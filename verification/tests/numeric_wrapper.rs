use holda::{holda_derive, parse_declaration, Declaration};

fn i32_wrapper() -> Declaration {
    parse_declaration("#[holda(NoEq, NoOrd, NoHash)]\nstruct MyI32Wrapper {\n    inner: i32,\n}").unwrap()
}

fn f64_wrapper() -> Declaration {
    parse_declaration("#[holda(NoDisplay, NoEq, NoOrd, NoHash)]\nstruct MyF64Wrapper {\n    inner: f64,\n}").unwrap()
}

#[test]
fn test_i32_wrapper() {
    let out = holda_derive(&i32_wrapper()).unwrap();
    assert!(out.starts_with("impl MyI32Wrapper {\n    pub fn new(value: impl Into<i32>) -> Self {\n        Self { inner: value.into() }\n    }\n}\n\n"));
}

#[test]
fn test_f64_wrapper() {
    let out = holda_derive(&f64_wrapper()).unwrap();
    assert!(out.starts_with("impl MyF64Wrapper {\n    pub fn new(value: impl Into<f64>) -> Self {\n        Self { inner: value.into() }\n    }\n}\n\n"));
}

#[test]
fn i32_wrapper_cannot_be_compared() {
    let out = holda_derive(&i32_wrapper()).unwrap();
    assert!(!out.contains("PartialEq"));
    assert!(!out.contains("impl Eq"));
    assert!(!out.contains("PartialOrd"));
    assert!(!out.contains("impl Ord"));
    assert!(!out.contains("std::hash::Hash"));
    assert!(out.contains("impl std::fmt::Display for MyI32Wrapper\nwhere\n    i32: std::fmt::Display,\n{\n    fn fmt(&self, f: &mut std::fmt::Formatter<'_>) -> std::fmt::Result {\n        write!(f, \"{}\", self.inner)\n    }\n}\n\n"));
    assert!(out.contains("impl Clone for MyI32Wrapper\nwhere\n    i32: Clone,\n{\n    fn clone(&self) -> Self {\n        Self {\n            inner: self.inner.clone(),\n        }\n    }\n}\n\n"));
    assert!(out.contains("impl std::ops::Deref for MyI32Wrapper {\n    type Target = i32;\n\n    fn deref(&self) -> &Self::Target {\n        &self.inner\n    }\n}\n\n"));
}

#[test]
fn f64_wrapper_has_no_display() {
    let out = holda_derive(&f64_wrapper()).unwrap();
    assert!(!out.contains("std::fmt::Display"));
    assert!(!out.contains("PartialEq"));
    assert!(!out.contains("PartialOrd"));
    assert!(!out.contains("std::hash::Hash"));
    assert!(out.contains("impl std::fmt::Debug for MyF64Wrapper\nwhere\n    f64: std::fmt::Debug,\n{\n    fn fmt(&self, f: &mut std::fmt::Formatter<'_>) -> std::fmt::Result {\n        write!(f, \"{:?}\", self.inner)\n    }\n}\n\n"));
    assert!(out.contains("impl Clone for MyF64Wrapper\nwhere\n    f64: Clone,\n{\n    fn clone(&self) -> Self {\n        Self {\n            inner: self.inner.clone(),\n        }\n    }\n}\n\n"));
}
