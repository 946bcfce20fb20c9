//! Reading a declaration from source text.
//!
//! The text is parsed by `syn`, and what the parser finds is carried, one
//! for one, to an [`ItemDecl`] of plain values. What `syn` reads in a text
//! has a name, [`item_read`], and no definition here. What declaration an
//! item makes is decided by [`declare`], and everything after that is
//! stated over the [`Declaration`].

use crate::capability::{name_views, Mode};
use crate::declaration::{
    Declaration, DeclarationView, FieldDecl, Shape, ShapeView, StructuralError,
};
use crate::generate::{expand, expansion};
use quote::ToTokens;
use vstd::prelude::*;
use vstd::string::*;

verus! {

/// The text is no declaration of a structure, an enumeration or a union, or
/// one of its configuration blocks is malformed.
#[derive(Clone, Debug, PartialEq, Eq)]
pub struct SyntaxError {
    /// The parser's message.
    pub message: String,
}

/// An attribute of an item, as far as the generator reads it.
#[derive(Debug)]
pub struct AttributeDecl {
    /// The path of the attribute, as text.
    pub path: String,
    /// The entries of the attribute, each as text, or the reason why the
    /// attribute is no parenthesized list of paths.
    pub entries: Result<Vec<String>, SyntaxError>,
}

/// The model of an [`AttributeDecl`].
pub struct AttributeView {
    pub path: Seq<char>,
    pub entries: Result<Seq<Seq<char>>, Seq<char>>,
}

impl View for AttributeDecl {
    type V = AttributeView;

    open spec fn view(&self) -> AttributeView {
        AttributeView {
            path: self.path@,
            entries: match self.entries {
                Ok(entries) => Ok(name_views(entries@)),
                Err(error) => Err(error.message@),
            },
        }
    }
}

/// The views of a vector of attributes.
pub open spec fn attribute_views(attributes: Seq<AttributeDecl>) -> Seq<AttributeView> {
    Seq::new(attributes.len(), |i: int| attributes[i]@)
}

/// Why no output was generated from a source text.
#[derive(Clone, Debug, PartialEq, Eq)]
pub enum DeriveError {
    /// The text could not be read as a declaration.
    Syntax(SyntaxError),
    /// The declaration was read and is no wrapper.
    Structure(StructuralError),
}

/// The model of a [`DeriveError`].
pub enum DeriveErrorView {
    Syntax(Seq<char>),
    Structure(StructuralError),
}

impl View for DeriveError {
    type V = DeriveErrorView;

    open spec fn view(&self) -> DeriveErrorView {
        match *self {
            DeriveError::Syntax(error) => DeriveErrorView::Syntax(error.message@),
            DeriveError::Structure(error) => DeriveErrorView::Structure(error),
        }
    }
}

/// An item as the parser reads it: its name, its attributes and its shape,
/// in plain values.
#[derive(Debug)]
pub struct ItemDecl {
    pub name: String,
    /// The attributes, in the order in which they are written.
    pub attributes: Vec<AttributeDecl>,
    pub shape: Shape,
}

/// The model of an [`ItemDecl`].
pub struct ItemView {
    pub name: Seq<char>,
    pub attributes: Seq<AttributeView>,
    pub shape: ShapeView,
}

impl View for ItemDecl {
    type V = ItemView;

    open spec fn view(&self) -> ItemView {
        ItemView {
            name: self.name@,
            attributes: attribute_views(self.attributes@),
            shape: self.shape@,
        }
    }
}

/// What `syn` reads in a source text: the item, or the parser's message
/// where the text is no structure, enumeration or union.
pub uninterp spec fn item_read(source: Seq<char>) -> Result<ItemView, Seq<char>>;

/// `syn::parse_str` at `syn::DeriveInput`, and of the item the identifier,
/// as text. The contract claims that the result is the name of the item
/// that [`item_read`] stands for, or, where the parser fails, its message.
///
/// That the result is a function of the text alone rests on the first line
/// of the body. `proc_macro2` lexes and prints with the compiler's routines
/// inside a process that hosts a procedural macro and with its own
/// elsewhere. After `proc_macro2::fallback::force` it uses its own in every
/// process.
#[verifier::external_body]
fn read_name(source: &str) -> (r: Result<String, SyntaxError>)
    ensures
        match r {
            Ok(name) => item_read(source@) is Ok && item_read(source@)->Ok_0.name == name@,
            Err(error) => item_read(source@) == Err::<ItemView, Seq<char>>(error.message@),
        },
{
    proc_macro2::fallback::force();
    match syn::parse_str::<syn::DeriveInput>(source) {
        Ok(item) => Ok(item.ident.to_string()),
        Err(error) => Err(SyntaxError { message: error.to_string() }),
    }
}

/// `syn::parse_str` at `syn::DeriveInput`, and of the item the attributes,
/// one for one and in order: of each the path, printed as text, and from
/// `syn::Attribute::parse_nested_meta` the paths of its entries, printed as
/// text, or the parser's message where the attribute is no parenthesized
/// list of paths. The contract claims that the result is the attributes of
/// the item that [`item_read`] stands for, or, where the parser fails on
/// the item, its message. The printer is `proc_macro2`'s own, as in
/// `read_name`.
#[verifier::external_body]
fn read_attributes(source: &str) -> (r: Result<Vec<AttributeDecl>, SyntaxError>)
    ensures
        match r {
            Ok(attributes) => item_read(source@) is Ok && item_read(source@)->Ok_0.attributes
                == attribute_views(attributes@),
            Err(error) => item_read(source@) == Err::<ItemView, Seq<char>>(error.message@),
        },
{
    proc_macro2::fallback::force();
    let item = syn::parse_str::<syn::DeriveInput>(source)
        .map_err(|e| SyntaxError { message: e.to_string() })?;
    Ok(item.attrs.iter().map(|a| {
        let mut entries = Vec::new();
        let read = a.parse_nested_meta(|m| Ok(entries.push(m.path.to_token_stream().to_string())));
        AttributeDecl {
            path: a.path().to_token_stream().to_string(),
            entries: read.map(|_| entries).map_err(|e| SyntaxError { message: e.to_string() }),
        }
    }).collect())
}

/// `syn::parse_str` at `syn::DeriveInput`, and of the item the data, told
/// apart by the variants of `syn::Data` and `syn::Fields`; the named fields
/// of a structure one for one and in order, each by its identifier and by
/// its type, printed as text. The contract claims that the result is the
/// shape of the item that [`item_read`] stands for, or, where the parser
/// fails, its message. The printer is `proc_macro2`'s own, as in
/// `read_name`.
#[verifier::external_body]
fn read_shape(source: &str) -> (r: Result<Shape, SyntaxError>)
    ensures
        match r {
            Ok(shape) => item_read(source@) is Ok && item_read(source@)->Ok_0.shape == shape@,
            Err(error) => item_read(source@) == Err::<ItemView, Seq<char>>(error.message@),
        },
{
    proc_macro2::fallback::force();
    let item = syn::parse_str::<syn::DeriveInput>(source)
        .map_err(|e| SyntaxError { message: e.to_string() })?;
    Ok(match item.data {
        syn::Data::Struct(data) => match data.fields {
            syn::Fields::Named(fields) => Shape::NamedStruct(fields.named.iter().map(|f| FieldDecl {
                name: f.ident.as_ref().map(|i| i.to_string()),
                ty: f.ty.to_token_stream().to_string(),
            }).collect()),
            syn::Fields::Unnamed(_) => Shape::TupleStruct,
            syn::Fields::Unit => Shape::UnitStruct,
        },
        syn::Data::Enum(_) => Shape::Enum,
        syn::Data::Union(_) => Shape::Union,
    })
}

/// Reads the text of one item: its name, its attributes and its shape, as
/// `syn` finds them.
pub fn read_item(source: &str) -> (r: Result<ItemDecl, SyntaxError>)
    ensures
        match r {
            Ok(item) => item_read(source@) == Ok::<ItemView, Seq<char>>(item@),
            Err(error) => item_read(source@) == Err::<ItemView, Seq<char>>(error.message@),
        },
{
    match read_name(source) {
        Err(error) => Err(error),
        Ok(name) => match read_attributes(source) {
            Err(error) => Err(error),
            Ok(attributes) => match read_shape(source) {
                Err(error) => Err(error),
                Ok(shape) => Ok(ItemDecl { name, attributes, shape }),
            },
        },
    }
}

/// The error of this module that carries `message`.
fn syntax_error(message: String) -> (error: SyntaxError)
    ensures
        error.message == message,
{
    SyntaxError { message }
}

/// Whether an attribute is a configuration block of the generator: its
/// path is the single identifier `holda`.
pub open spec fn is_configuration(attribute: AttributeView) -> bool {
    attribute.path == "holda"@
}

/// The option names that a list of attributes configures: the entries of
/// its configuration blocks, in the order in which they are written. What
/// another attribute holds is not read. The first configuration block that
/// is malformed makes the whole list an error.
pub open spec fn gathered(attributes: Seq<AttributeView>) -> Result<Seq<Seq<char>>, Seq<char>>
    decreases attributes.len(),
{
    if attributes.len() == 0 {
        Ok(Seq::empty())
    } else {
        let last = attributes.last();
        match gathered(attributes.drop_last()) {
            Err(message) => Err(message),
            Ok(names) => if is_configuration(last) {
                match last.entries {
                    Ok(entries) => Ok(names + entries),
                    Err(message) => Err(message),
                }
            } else {
                Ok(names)
            },
        }
    }
}

/// An error among the first attributes is the error of the whole list.
pub proof fn lemma_first_error_stands(attributes: Seq<AttributeView>, n: int)
    requires
        0 <= n <= attributes.len(),
        gathered(attributes.take(n)) is Err,
    ensures
        gathered(attributes) == gathered(attributes.take(n)),
    decreases attributes.len() - n,
{
    if n == attributes.len() {
        assert(attributes.take(n) =~= attributes);
    } else {
        let next = attributes.take(n + 1);
        assert(next.drop_last() =~= attributes.take(n));
        assert(gathered(next) == gathered(attributes.take(n)));
        lemma_first_error_stands(attributes, n + 1);
    }
}

/// The views of two lists of names, joined, are the views of the joined
/// list.
proof fn lemma_name_views_join(a: Seq<String>, b: Seq<String>)
    ensures
        name_views(a + b) =~= name_views(a) + name_views(b),
{
}

/// Gathers the option names of the configuration blocks among
/// `attributes`.
pub fn gather_options(attributes: &Vec<AttributeDecl>) -> (r: Result<Vec<String>, SyntaxError>)
    ensures
        match r {
            Ok(names) => gathered(attribute_views(attributes@)) == Ok::<
                Seq<Seq<char>>,
                Seq<char>,
            >(name_views(names@)),
            Err(error) => gathered(attribute_views(attributes@)) == Err::<
                Seq<Seq<char>>,
                Seq<char>,
            >(error.message@),
        },
{
    let ghost all = attribute_views(attributes@);
    let mut options: Vec<String> = Vec::new();
    let mut i: usize = 0;
    assert(all.take(0) =~= Seq::<AttributeView>::empty());
    assert(name_views(options@) =~= Seq::<Seq<char>>::empty());
    while i < attributes.len()
        invariant
            i <= attributes.len(),
            all == attribute_views(attributes@),
            gathered(all.take(i as int)) == Ok::<Seq<Seq<char>>, Seq<char>>(
                name_views(options@),
            ),
        decreases attributes.len() - i,
    {
        let attribute = &attributes[i];
        proof {
            assert(all.take(i + 1).drop_last() =~= all.take(i as int));
            assert(all.take(i + 1).last() == attribute@);
        }
        if attribute.path == String::from_str("holda") {
            match &attribute.entries {
                Ok(entries) => {
                    let ghost before = options@;
                    let mut more = entries.clone();
                    proof {
                        assert(more@ =~= entries@) by {
                            assert(more@.len() == entries@.len());
                            assert forall|k: int| 0 <= k < more@.len() implies more@[k]
                                == entries@[k] by {
                                assert(cloned(entries@[k], more@[k]));
                            }
                        }
                    }
                    options.append(&mut more);
                    proof {
                        lemma_name_views_join(before, entries@);
                    }
                },
                Err(error) => {
                    proof {
                        lemma_first_error_stands(all, i + 1);
                    }
                    return Err(syntax_error(error.message.clone()));
                },
            }
        }
        i += 1;
    }
    assert(all.take(i as int) =~= all);
    Ok(options)
}

/// The declaration that a name, a list of attributes and a shape make,
/// or the message of the first malformed configuration block.
pub open spec fn declared(
    name: Seq<char>,
    attributes: Seq<AttributeView>,
    shape: ShapeView,
) -> Result<DeclarationView, Seq<char>> {
    match gathered(attributes) {
        Ok(options) => Ok(DeclarationView { name: name, options: options, shape: shape }),
        Err(message) => Err(message),
    }
}

/// Makes a declaration of the parts of an item: the options are those that
/// the attributes configure, the name and the shape are kept as they are.
pub fn declare(name: String, attributes: &Vec<AttributeDecl>, shape: Shape) -> (r: Result<
    Declaration,
    SyntaxError,
>)
    ensures
        match r {
            Ok(decl) => declared(name@, attribute_views(attributes@), shape@) == Ok::<
                DeclarationView,
                Seq<char>,
            >(decl@),
            Err(error) => declared(name@, attribute_views(attributes@), shape@) == Err::<
                DeclarationView,
                Seq<char>,
            >(error.message@),
        },
{
    match gather_options(attributes) {
        Ok(options) => Ok(Declaration { name, options, shape }),
        Err(error) => Err(error),
    }
}

/// The declaration without options that a name and a shape make.
pub fn declare_unconfigured(name: String, shape: Shape) -> (decl: Declaration)
    ensures
        decl@ == (DeclarationView { name: name@, options: Seq::empty(), shape: shape@ }),
{
    let decl = Declaration { name, options: Vec::new(), shape };
    assert(name_views(decl.options@) =~= Seq::<Seq<char>>::empty());
    decl
}

/// The declaration that a source text holds for the generic mode: that of
/// the item that is read in it, with the options that its attributes
/// configure.
pub open spec fn read_declaration(source: Seq<char>) -> Result<DeclarationView, Seq<char>> {
    match item_read(source) {
        Ok(item) => declared(item.name, item.attributes, item.shape),
        Err(message) => Err(message),
    }
}

/// The declaration that a source text holds for the string-specialized
/// mode: that of the item that is read in it, without options. The
/// attributes are not read, so a malformed configuration block is no error.
pub open spec fn read_unconfigured(source: Seq<char>) -> Result<DeclarationView, Seq<char>> {
    match item_read(source) {
        Ok(item) => Ok(
            DeclarationView { name: item.name, options: Seq::empty(), shape: item.shape },
        ),
        Err(message) => Err(message),
    }
}

/// The declaration that a source text holds for `mode`.
pub open spec fn read_for(source: Seq<char>, mode: Mode) -> Result<DeclarationView, Seq<char>> {
    match mode {
        Mode::Generic => read_declaration(source),
        Mode::StringSpecialized => read_unconfigured(source),
    }
}

/// Reads the text of one item as a declaration, with the options that its
/// attributes configure.
///
/// Fails where the text is no structure, enumeration or union, and where an
/// attribute named `holda` is no parenthesized list of paths.
pub fn parse_declaration(source: &str) -> (r: Result<Declaration, SyntaxError>)
    ensures
        match r {
            Ok(decl) => read_declaration(source@) == Ok::<DeclarationView, Seq<char>>(decl@),
            Err(error) => read_declaration(source@) == Err::<DeclarationView, Seq<char>>(
                error.message@,
            ),
        },
{
    match read_item(source) {
        Ok(item) => declare(item.name, &item.attributes, item.shape),
        Err(error) => Err(error),
    }
}

/// Reads the text of one item as a declaration without options: the
/// attributes of the item are not read.
///
/// Fails only where the text is no structure, enumeration or union.
pub fn parse_unconfigured(source: &str) -> (r: Result<Declaration, SyntaxError>)
    ensures
        match r {
            Ok(decl) => read_unconfigured(source@) == Ok::<DeclarationView, Seq<char>>(decl@),
            Err(error) => read_unconfigured(source@) == Err::<DeclarationView, Seq<char>>(
                error.message@,
            ),
        },
{
    match read_item(source) {
        Ok(item) => Ok(declare_unconfigured(item.name, item.shape)),
        Err(error) => Err(error),
    }
}

/// What is generated once the text has been read: for a declaration its
/// expansion in `mode`, and for a text that could not be read the error of
/// the reading.
pub open spec fn outcome(parsed: Result<Declaration, SyntaxError>, mode: Mode) -> Result<
    Seq<char>,
    DeriveError,
> {
    match parsed {
        Ok(decl) => match expansion(decl@, mode) {
            Ok(text) => Ok(text),
            Err(e) => Err(DeriveError::Structure(e)),
        },
        Err(e) => Err(DeriveError::Syntax(e)),
    }
}

/// Generates from the result of reading a source text.
pub fn expand_parsed(parsed: Result<Declaration, SyntaxError>, mode: Mode) -> (r: Result<
    String,
    DeriveError,
>)
    ensures
        match r {
            Ok(text) => outcome(parsed, mode) == Ok::<Seq<char>, DeriveError>(text@),
            Err(e) => outcome(parsed, mode) == Err::<Seq<char>, DeriveError>(e),
        },
{
    match parsed {
        Ok(decl) => match expand(&decl, mode) {
            Ok(text) => Ok(text),
            Err(e) => Err(DeriveError::Structure(e)),
        },
        Err(e) => Err(DeriveError::Syntax(e)),
    }
}

/// What is generated from a source text in `mode`.
pub open spec fn derived(source: Seq<char>, mode: Mode) -> Result<Seq<char>, DeriveErrorView> {
    match read_for(source, mode) {
        Ok(decl) => match expansion(decl, mode) {
            Ok(text) => Ok(text),
            Err(e) => Err(DeriveErrorView::Structure(e)),
        },
        Err(message) => Err(DeriveErrorView::Syntax(message)),
    }
}

/// Generates the operations of the wrapper that a source text declares.
///
/// In generic mode the text is read by [`parse_declaration`]. In
/// string-specialized mode it is read by [`parse_unconfigured`]: the
/// configuration is not read at all, so that only a text that is no item
/// and a declaration that is no wrapper fail.
pub fn derive_from_source(source: &str, mode: Mode) -> (r: Result<String, DeriveError>)
    ensures
        match r {
            Ok(text) => derived(source@, mode) == Ok::<Seq<char>, DeriveErrorView>(text@),
            Err(e) => derived(source@, mode) == Err::<Seq<char>, DeriveErrorView>(e@),
        },
{
    let parsed = match mode {
        Mode::Generic => parse_declaration(source),
        Mode::StringSpecialized => parse_unconfigured(source),
    };
    expand_parsed(parsed, mode)
}

} // verus!
