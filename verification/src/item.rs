//! The decorator form: a constant or static declaration whose initializer is
//! replaced by a literal made from the value found under its key.

use vstd::prelude::*;
use vstd::string::*;
use vstd::pervasive::unreached;
use crate::classify::classify_spec;
use crate::engine::{materialize_spec, value_to_literal};
use crate::env::ReadEnv;
use crate::error::{text_result, Error, ErrorKind, Site};
use crate::key::{extract_var_name, var_name_spec};
use crate::syntax::{
    const_item, const_item_with, parse_const_item, parse_static_item, parsed_expr,
    replace_const_initializer, replace_static_initializer, static_item, static_item_with, ItemParts,
    ItemPartsView,
};

verus! {

/// The two forms of declaration that the decorator accepts.
#[derive(Clone, Copy, Debug, PartialEq, Eq, Structural)]
pub enum ItemKind {
    Const,
    Static,
}

/// A declaration as the decorator reads it: its form, the identifier it declares,
/// and its initializer as token text.
#[derive(Clone, Debug, PartialEq, Eq)]
pub struct Declaration {
    pub kind: ItemKind,
    pub name: String,
    pub initializer: String,
}

/// `Declaration` with its texts as sequences of characters.
pub struct DeclarationView {
    pub kind: ItemKind,
    pub name: Seq<char>,
    pub initializer: Seq<char>,
}

impl DeepView for Declaration {
    type V = DeclarationView;

    open spec fn deep_view(&self) -> DeclarationView {
        DeclarationView { kind: self.kind, name: self.name@, initializer: self.initializer@ }
    }
}

/// The declaration that the parts of a constant and of a static make: the constant
/// where the text is one, else the static where it is one, else none.
pub open spec fn declaration_from(
    as_const: Option<ItemPartsView>,
    as_static: Option<ItemPartsView>,
) -> Option<DeclarationView> {
    match as_const {
        Some(parts) => Some(
            DeclarationView {
                kind: ItemKind::Const,
                name: parts.name,
                initializer: parts.initializer,
            },
        ),
        None => match as_static {
            Some(parts) => Some(
                DeclarationView {
                    kind: ItemKind::Static,
                    name: parts.name,
                    initializer: parts.initializer,
                },
            ),
            None => None,
        },
    }
}

/// The declaration that `item` is, or `None` where it is neither a constant nor a
/// static.
pub open spec fn declaration_spec(item: Seq<char>) -> Option<DeclarationView> {
    declaration_from(const_item(item), static_item(item))
}

/// The declaration `item` with `expr` as its initializer, or `None` where the two
/// do not make a declaration of the form `kind`.
pub open spec fn with_initializer(kind: ItemKind, item: Seq<char>, expr: Seq<char>) -> Option<
    Seq<char>,
> {
    match kind {
        ItemKind::Const => const_item_with(item, expr),
        ItemKind::Static => static_item_with(item, expr),
    }
}

/// An item that is no declaration is refused, and the refusal is reported at the
/// argument of the decorator.
pub open spec fn not_a_declaration() -> Error {
    Error { kind: ErrorKind::NotADeclaration, site: Site::Attribute }
}

/// The key that the decorator looks up for `item` under the argument `attr`: the
/// explicit key, or the name that the declaration gives. Text that is no declaration
/// fails first.
pub open spec fn item_key_spec(attr: Seq<char>, item: Seq<char>) -> Result<Seq<char>, Error> {
    match declaration_spec(item) {
        Some(decl) => match var_name_spec(attr, decl.name) {
            Ok(key) => Ok(key),
            Err(kind) => Err(Error { kind, site: Site::Attribute }),
        },
        None => Err(not_a_declaration()),
    }
}

/// What the decorator makes of the declaration `item` once the lookup has answered
/// `value`. Nothing found leaves the text as it was written. A value found replaces
/// the initializer by the literal made from it, all else of the declaration staying
/// in place; where no literal can be made the attempt fails, and there is no falling
/// back to the text as written. A literal that was made is always taken: it is an
/// expression, and the text is a declaration.
pub open spec fn rewrite_spec(item: Seq<char>, value: Option<Seq<char>>) -> Result<
    Seq<char>,
    Error,
> {
    match declaration_spec(item) {
        Some(decl) => match value {
            None => Ok(item),
            Some(raw) => match materialize_spec(decl.initializer, raw, Site::Declaration) {
                Ok(lit) => Ok(with_initializer(decl.kind, item, lit.tokens).unwrap()),
                Err(e) => Err(e),
            },
        },
        None => Err(not_a_declaration()),
    }
}

/// What the decorator makes of `item` under the argument `attr`, once the lookup has
/// answered `value`.
pub open spec fn env_item_spec(attr: Seq<char>, item: Seq<char>, value: Option<Seq<char>>) -> Result<
    Seq<char>,
    Error,
> {
    match item_key_spec(attr, item) {
        Ok(_) => rewrite_spec(item, value),
        Err(e) => Err(e),
    }
}

/// Whether `r` is what the decorator makes of `item` with the source `source`: the
/// error of the declaration or of the key where there is one, and else what it makes
/// of an answer that the source may give for the key.
pub open spec fn env_item_outcome<E: ReadEnv>(
    attr: Seq<char>,
    item: Seq<char>,
    source: E,
    r: Result<Seq<char>, Error>,
) -> bool {
    match item_key_spec(attr, item) {
        Ok(key) => exists|value: Option<Seq<char>>| #[trigger]
            env_item_answer(attr, item, source, key, value, r),
        Err(e) => r == Err::<Seq<char>, _>(e),
    }
}

/// Whether the source may answer `value` for `key`, and `r` is what the decorator
/// makes of that answer.
pub open spec fn env_item_answer<E: ReadEnv>(
    attr: Seq<char>,
    item: Seq<char>,
    source: E,
    key: Seq<char>,
    value: Option<Seq<char>>,
    r: Result<Seq<char>, Error>,
) -> bool {
    source.answers(key, value) && r == env_item_spec(attr, item, value)
}

/// Chooses between the two readings of a declaration's text.
pub fn declaration_of(as_const: Option<ItemParts>, as_static: Option<ItemParts>) -> (r: Option<
    Declaration,
>)
    ensures
        r.deep_view() == declaration_from(as_const.deep_view(), as_static.deep_view()),
{
    match as_const {
        Some(parts) => Some(
            Declaration { kind: ItemKind::Const, name: parts.name, initializer: parts.initializer },
        ),
        None => match as_static {
            Some(parts) => Some(
                Declaration {
                    kind: ItemKind::Static,
                    name: parts.name,
                    initializer: parts.initializer,
                },
            ),
            None => None,
        },
    }
}

/// Reads `item` as a constant or a static declaration.
pub fn parse_declaration(item: &str) -> (r: Option<Declaration>)
    ensures
        r.deep_view() == declaration_spec(item@),
{
    let as_const = parse_const_item(item);
    let as_static = if as_const.is_none() {
        parse_static_item(item)
    } else {
        None
    };
    declaration_of(as_const, as_static)
}

/// Puts the expression `expr` in the place of the initializer of the declaration
/// `item`.
fn put_initializer(kind: ItemKind, item: &str, expr: &str) -> (r: String)
    requires
        declaration_spec(item@) matches Some(decl) && decl.kind == kind,
        parsed_expr(expr@) is Some,
    ensures
        with_initializer(kind, item@, expr@) == Some(r@),
{
    let replaced = match kind {
        ItemKind::Const => replace_const_initializer(item, expr),
        ItemKind::Static => replace_static_initializer(item, expr),
    };
    match replaced {
        Some(text) => text,
        None => unreached(),
    }
}

/// Completes the decorator for the declaration `decl`, read from `item`.
fn rewrite_declaration(decl: &Declaration, item: &str, value: Option<String>) -> (r: Result<
    String,
    Error,
>)
    requires
        declaration_spec(item@) == Some(decl.deep_view()),
    ensures
        text_result(r) == rewrite_spec(item@, value.deep_view()),
{
    match value {
        None => Ok(String::from_str(item)),
        Some(raw) => match value_to_literal(
            raw.as_str(),
            decl.initializer.as_str(),
            Site::Declaration,
        ) {
            Ok(lit) => {
                assert(classify_spec(lit.tokens@) is Ok);
                Ok(put_initializer(decl.kind, item, lit.tokens.as_str()))
            },
            Err(e) => Err(e),
        },
    }
}

/// Completes the decorator for `item` once the lookup has answered `value`.
pub fn rewrite_item(item: &str, value: Option<String>) -> (r: Result<String, Error>)
    ensures
        text_result(r) == rewrite_spec(item@, value.deep_view()),
        value is None && declaration_spec(item@) is Some ==> text_result(r) == Ok::<_, Error>(item@),
{
    match parse_declaration(item) {
        Some(decl) => rewrite_declaration(&decl, item, value),
        None => Err(Error { kind: ErrorKind::NotADeclaration, site: Site::Attribute }),
    }
}

/// Applies the decorator to `item` under the argument `attr`, asking `read_env` once
/// for the key, and only where the declaration and the key are in order.
pub fn try_from_env<E: ReadEnv>(attr: &str, item: &str, read_env: E) -> (r: Result<String, Error>)
    ensures
        env_item_outcome(attr@, item@, read_env, text_result(r)),
{
    match parse_declaration(item) {
        Some(decl) => match extract_var_name(attr, decl.name.clone()) {
            Ok(var_name) => {
                let value = read_env.read_env(&var_name);
                let r = rewrite_declaration(&decl, item, value);
                assert(env_item_answer(
                    attr@,
                    item@,
                    read_env,
                    var_name@,
                    value.deep_view(),
                    text_result(r),
                ));
                assert(exists|v: Option<Seq<char>>| #[trigger]
                    env_item_answer(attr@, item@, read_env, var_name@, v, text_result(r)));
                assert(item_key_spec(attr@, item@) matches Ok(key) && key == var_name@);
                r
            },
            Err(kind) => {
                let r = Err(Error { kind, site: Site::Attribute });
                assert(env_item_outcome(attr@, item@, read_env, text_result(r)));
                r
            },
        },
        None => {
            let r = Err(Error { kind: ErrorKind::NotADeclaration, site: Site::Attribute });
            assert(env_item_outcome(attr@, item@, read_env, text_result(r)));
            r
        },
    }
}

/// Configures a constant or static declaration from the key-value source: see
/// `try_from_env`.
pub fn env_item<E: ReadEnv>(attr: &str, item: &str, read_env: E) -> (r: Result<String, Error>)
    ensures
        env_item_outcome(attr@, item@, read_env, text_result(r)),
{
    try_from_env(attr, item, read_env)
}

/// The older name of `env_item`.
pub fn from_env<E: ReadEnv>(attr: &str, item: &str, read_env: E) -> (r: Result<String, Error>)
    ensures
        env_item_outcome(attr@, item@, read_env, text_result(r)),
{
    env_item(attr, item, read_env)
}

/// Where the lookup finds nothing, the decorator gives back the declaration exactly
/// as it was written. This holds of every declaration whose key resolves; text that
/// is no declaration, or whose key does not resolve, fails before any lookup.
pub proof fn miss_keeps_declaration(attr: Seq<char>, item: Seq<char>)
    requires
        item_key_spec(attr, item) is Ok,
    ensures
        env_item_spec(attr, item, None) == Ok::<_, Error>(item),
{
}

/// With a source that has nothing under the key, whatever the decorator returns is
/// the declaration exactly as it was written.
pub proof fn silent_source_keeps_declaration<E: ReadEnv>(
    attr: Seq<char>,
    item: Seq<char>,
    source: E,
    r: Result<Seq<char>, Error>,
)
    requires
        env_item_outcome(attr, item, source, r),
        item_key_spec(attr, item) matches Ok(key) && forall|value: Option<Seq<char>>|
            source.answers(key, value) ==> value is None,
    ensures
        r == Ok::<_, Error>(item),
{
    let key = item_key_spec(attr, item)->Ok_0;
    let value = choose|value: Option<Seq<char>>| #[trigger]
        env_item_answer(attr, item, source, key, value, r);
    assert(source.answers(key, value));
}

/// Where a value is found and no literal can be made from it, the decorator fails:
/// it never falls back to the declaration as written. Where a literal can be made,
/// the decorator succeeds.
pub proof fn hit_follows_the_literal(attr: Seq<char>, item: Seq<char>, raw: Seq<char>)
    requires
        item_key_spec(attr, item) is Ok,
    ensures
        declaration_spec(item) matches Some(decl) && (env_item_spec(attr, item, Some(raw)) is Ok
            <==> materialize_spec(decl.initializer, raw, Site::Declaration) is Ok),
{
}

} // verus!
