use holda::{string_holder_derive, parse_declaration, Shape};

const DECLARATION: &str = "struct MyStringWrapper {\n    inner: Rc<str>,\n}";

fn output() -> String {
    string_holder_derive(&parse_declaration(DECLARATION).unwrap()).unwrap()
}

/// The text of the inner type as it was read; its spacing is the printer's.
fn inner_type() -> String {
    match parse_declaration(DECLARATION).unwrap().shape {
        Shape::NamedStruct(fields) => fields[0].ty.clone(),
        _ => panic!("no structure with named fields"),
    }
}

#[test]
fn string_holder_inner_type_is_read() {
    assert_eq!(inner_type().replace(' ', ""), "Rc<str>");
}

#[test]
fn main() {
    let out = output();
    assert!(out.contains(&"impl MyStringWrapper {\n    pub fn new(value: impl Into<Rc<str>>) -> Self {\n        Self { inner: value.into() }\n    }\n}\n\n".replace("Rc<str>", &inner_type())));
    assert!(out.contains(&"impl std::fmt::Display for MyStringWrapper\nwhere\n    Rc<str>: std::fmt::Display,\n{\n    fn fmt(&self, f: &mut std::fmt::Formatter<'_>) -> std::fmt::Result {\n        write!(f, \"{}\", self.inner)\n    }\n}\n\n".replace("Rc<str>", &inner_type())));
    assert!(out.contains(&"impl std::fmt::Debug for MyStringWrapper\nwhere\n    Rc<str>: std::fmt::Debug,\n{\n    fn fmt(&self, f: &mut std::fmt::Formatter<'_>) -> std::fmt::Result {\n        write!(f, \"{:?}\", self.inner)\n    }\n}\n\n".replace("Rc<str>", &inner_type())));
    assert!(out.contains(&"impl std::str::FromStr for MyStringWrapper {\n    type Err = eyre::Error;\n\n    fn from_str(s: &str) -> Result<Self, Self::Err> {\n        let value = s.to_string().into();\n        Ok(Self { inner: value })\n    }\n}\n\n".replace("Rc<str>", &inner_type())));
    println!("{}", out);
}
