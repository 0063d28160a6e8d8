//! The inline form: a key and a default expression, replaced as a whole by a
//! literal made from the value found under the key, or by the default.

use vstd::prelude::*;
use vstd::string::*;
use crate::engine::{materialize_spec, value_to_literal};
use crate::env::ReadEnv;
use crate::error::{text_result, Error, ErrorKind, Site};
use crate::key::{key_of_literal, key_result, key_within};
use crate::syntax::{argument_list, parse_arguments, parse_expr, parse_str_literal, ExprForm};

verus! {

/// The arguments of the inline form: the key to look up, and the default expression
/// as token text.
#[derive(Clone, Debug, PartialEq, Eq)]
pub struct MacroInput {
    pub env_var_name: String,
    pub default_value: String,
}

/// `MacroInput` with its texts as sequences of characters.
pub struct MacroInputView {
    pub env_var_name: Seq<char>,
    pub default_value: Seq<char>,
}

impl DeepView for MacroInput {
    type V = MacroInputView;

    open spec fn deep_view(&self) -> MacroInputView {
        MacroInputView { env_var_name: self.env_var_name@, default_value: self.default_value@ }
    }
}

/// The key that the first argument `arg` of the inline form denotes: the decoded
/// value of a plain string literal. Parentheses are not opened here.
pub open spec fn inline_key(arg: Seq<char>) -> Result<Seq<char>, ErrorKind> {
    key_within(arg, 0)
}

/// The input that a list of arguments makes: exactly two are wanted, whatever they
/// are, and the first of the two has to be a plain string literal. `None` stands for
/// text that is no list of expressions, which counts as a wrong number of arguments.
pub open spec fn input_from(args: Option<Seq<Seq<char>>>) -> Result<MacroInputView, Error> {
    match args {
        Some(args) => if args.len() != 2 {
            Err(Error { kind: ErrorKind::ArgumentCount, site: Site::Arguments })
        } else {
            match inline_key(args[0]) {
                Ok(key) => Ok(MacroInputView { env_var_name: key, default_value: args[1] }),
                Err(kind) => Err(Error { kind, site: Site::Key }),
            }
        },
        None => Err(Error { kind: ErrorKind::ArgumentCount, site: Site::Arguments }),
    }
}

/// The input of the inline form that `tokens` holds.
pub open spec fn macro_input_spec(tokens: Seq<char>) -> Result<MacroInputView, Error> {
    input_from(argument_list(tokens))
}

/// What the inline form gives for `input` once the lookup has answered `value`: the
/// default expression as written where nothing was found, and else the literal made
/// from the value found, of the category that the default expression establishes.
pub open spec fn expand_spec(input: MacroInputView, value: Option<Seq<char>>) -> Result<
    Seq<char>,
    Error,
> {
    match value {
        None => Ok(input.default_value),
        Some(raw) => match materialize_spec(input.default_value, raw, Site::Key) {
            Ok(lit) => Ok(lit.tokens),
            Err(e) => Err(e),
        },
    }
}

/// Whether the source may answer `value` for the key of `input`, and `r` is what the
/// inline form makes of that answer.
pub open spec fn env_lit_answer<E: ReadEnv>(
    input: MacroInputView,
    source: E,
    value: Option<Seq<char>>,
    r: Result<Seq<char>, Error>,
) -> bool {
    source.answers(input.env_var_name, value) && r == expand_spec(input, value)
}

/// Whether `r` is what the inline form makes of `tokens` with the source `source`:
/// the error of the arguments where there is one, and else what it makes of an
/// answer that the source may give for the key.
pub open spec fn env_lit_outcome<E: ReadEnv>(
    tokens: Seq<char>,
    source: E,
    r: Result<Seq<char>, Error>,
) -> bool {
    match macro_input_spec(tokens) {
        Ok(input) => exists|value: Option<Seq<char>>| #[trigger]
            env_lit_answer(input, source, value, r),
        Err(e) => r == Err::<Seq<char>, _>(e),
    }
}

/// An input, or its error, with the texts as sequences of characters.
pub open spec fn input_result(r: Result<MacroInput, Error>) -> Result<MacroInputView, Error> {
    match r {
        Ok(input) => Ok(input.deep_view()),
        Err(e) => Err(e),
    }
}

/// Resolves the key that the first argument `arg` of the inline form denotes.
pub fn plain_key(arg: &str) -> (r: Result<String, ErrorKind>)
    ensures
        key_result(r) == inline_key(arg@),
{
    match parse_expr(arg) {
        Some(parsed) => match parsed.form {
            ExprForm::Literal { tokens } => key_of_literal(parse_str_literal(tokens.as_str())),
            _ => Err(ErrorKind::Resolution),
        },
        None => Err(ErrorKind::Resolution),
    }
}

impl MacroInput {
    /// Makes the input from a list of arguments, given as `None` where the text was
    /// no list of expressions.
    pub fn from_arguments(args: Option<Vec<String>>) -> (r: Result<MacroInput, Error>)
        ensures
            input_result(r) == input_from(args.deep_view()),
    {
        match args {
            Some(args) => {
                if args.len() != 2 {
                    return Err(Error { kind: ErrorKind::ArgumentCount, site: Site::Arguments });
                }
                assert(args.deep_view()[0] == args@[0]@);
                assert(args.deep_view()[1] == args@[1]@);
                match plain_key(args[0].as_str()) {
                    Ok(env_var_name) => Ok(
                        MacroInput { env_var_name, default_value: args[1].clone() },
                    ),
                    Err(kind) => Err(Error { kind, site: Site::Key }),
                }
            },
            None => Err(Error { kind: ErrorKind::ArgumentCount, site: Site::Arguments }),
        }
    }

    /// Reads the arguments of the inline form from `tokens`.
    pub fn parse(tokens: &str) -> (r: Result<MacroInput, Error>)
        ensures
            input_result(r) == macro_input_spec(tokens@),
    {
        MacroInput::from_arguments(parse_arguments(tokens))
    }
}

/// Completes the inline form for `input` once the lookup has answered `value`.
pub fn expand(input: &MacroInput, value: Option<String>) -> (r: Result<String, Error>)
    ensures
        text_result(r) == expand_spec(input.deep_view(), value.deep_view()),
{
    match value {
        None => Ok(input.default_value.clone()),
        Some(raw) => match value_to_literal(
            raw.as_str(),
            input.default_value.as_str(),
            Site::Key,
        ) {
            Ok(lit) => Ok(lit.tokens),
            Err(e) => Err(e),
        },
    }
}

/// Expands the inline form `tokens`, asking `read_env` once for the key, and only
/// where the arguments are in order.
pub fn env_lit<E: ReadEnv>(tokens: &str, read_env: E) -> (r: Result<String, Error>)
    ensures
        env_lit_outcome(tokens@, read_env, text_result(r)),
{
    match MacroInput::parse(tokens) {
        Ok(input) => {
            let value = read_env.read_env(&input.env_var_name);
            let r = expand(&input, value);
            assert(env_lit_answer(input.deep_view(), read_env, value.deep_view(), text_result(r)));
            assert(exists|v: Option<Seq<char>>| #[trigger]
                env_lit_answer(input.deep_view(), read_env, v, text_result(r)));
            assert(macro_input_spec(tokens@) matches Ok(parsed) && parsed == input.deep_view());
            r
        },
        Err(e) => {
            let r = Err(e);
            assert(env_lit_outcome(tokens@, read_env, text_result(r)));
            r
        },
    }
}

/// Where the lookup finds nothing, the inline form gives the default expression
/// exactly as it stands among the arguments, and does not classify it.
pub proof fn miss_keeps_default(input: MacroInputView)
    ensures
        expand_spec(input, None) == Ok::<_, Error>(input.default_value),
{
}

/// With a source that has nothing under the key, whatever the inline form returns is
/// the default expression.
pub proof fn silent_source_keeps_default<E: ReadEnv>(
    tokens: Seq<char>,
    source: E,
    r: Result<Seq<char>, Error>,
)
    requires
        env_lit_outcome(tokens, source, r),
        macro_input_spec(tokens) matches Ok(input) && forall|value: Option<Seq<char>>|
            source.answers(input.env_var_name, value) ==> value is None,
    ensures
        macro_input_spec(tokens) matches Ok(input) && r == Ok::<_, Error>(input.default_value),
{
    let input = macro_input_spec(tokens)->Ok_0;
    let value = choose|value: Option<Seq<char>>| #[trigger] env_lit_answer(input, source, value, r);
    assert(source.answers(input.env_var_name, value));
}

/// A list of arguments of any length but two is an argument-count error, whatever
/// the arguments are, and whatever the source holds.
pub proof fn wrong_arity_is_argument_count<E: ReadEnv>(
    tokens: Seq<char>,
    source: E,
    r: Result<Seq<char>, Error>,
)
    requires
        argument_list(tokens) matches Some(args) && args.len() != 2,
    ensures
        macro_input_spec(tokens) == Err::<MacroInputView, _>(
            Error { kind: ErrorKind::ArgumentCount, site: Site::Arguments },
        ),
        env_lit_outcome(tokens, source, r) ==> r == Err::<Seq<char>, _>(
            Error { kind: ErrorKind::ArgumentCount, site: Site::Arguments },
        ),
{
}

} // verus!
