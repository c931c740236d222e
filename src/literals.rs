use vstd::prelude::*;
use vstd::string::*;

use crate::annotation::{is_word, Token};
use crate::error::SchemaError;
use crate::text::{decimal_of, push_decimal, push_quoted, sql_quoted, text_is};

verus! {

/// A column default value.
#[derive(Clone, Debug, PartialEq, Eq)]
pub enum DefaultValues {
    CurrentTimestamp,
    CurrentDate,
    CurrentTime,
    True,
    False,
    IntLiteral(i64),
    StrLiteral(String),
}

/// A foreign-key action.
#[derive(Clone, Copy, Debug, PartialEq, Eq, Structural)]
pub enum FKAction {
    NoAction,
    Restrict,
    SetNull,
    SetDefault,
    Cascade,
}

/// Whether `t` is the bare word `w`.
pub fn token_is_word(t: &Token, w: &str) -> (r: bool)
    ensures
        r == is_word(*t, w@),
{
    match t {
        Token::Ident(s) => text_is(s, w),
        _ => false,
    }
}

/// The default value a `default` payload denotes.
pub open spec fn default_spec(toks: Seq<Token>) -> Result<DefaultValues, SchemaError> {
    if toks.len() != 1 {
        Err(SchemaError::UnrecognizedDefault)
    } else {
        match toks[0] {
            Token::Ident(w) => if w@ == "CURRENT_TIMESTAMP"@ {
                Ok(DefaultValues::CurrentTimestamp)
            } else if w@ == "CURRENT_DATE"@ {
                Ok(DefaultValues::CurrentDate)
            } else if w@ == "CURRENT_TIME"@ {
                Ok(DefaultValues::CurrentTime)
            } else if w@ == "TRUE"@ {
                Ok(DefaultValues::True)
            } else if w@ == "FALSE"@ {
                Ok(DefaultValues::False)
            } else {
                Err(SchemaError::UnrecognizedDefault)
            },
            Token::Int(n) => Ok(DefaultValues::IntLiteral(n)),
            Token::Str(s) => Ok(DefaultValues::StrLiteral(s)),
            _ => Err(SchemaError::UnrecognizedDefault),
        }
    }
}

/// The SQL text of a default value.
pub open spec fn default_sql(v: DefaultValues) -> Seq<char> {
    match v {
        DefaultValues::CurrentTimestamp => "CURRENT_TIMESTAMP"@,
        DefaultValues::CurrentDate => "CURRENT_DATE"@,
        DefaultValues::CurrentTime => "CURRENT_TIME"@,
        DefaultValues::True => "TRUE"@,
        DefaultValues::False => "FALSE"@,
        DefaultValues::IntLiteral(n) => decimal_of(n as int),
        DefaultValues::StrLiteral(s) => sql_quoted(s@),
    }
}

impl DefaultValues {
    /// Reads a `default` payload: one of the keywords `CURRENT_TIMESTAMP`,
    /// `CURRENT_DATE`, `CURRENT_TIME`, `TRUE`, `FALSE` (case-sensitive), or a
    /// single integer or string literal.
    pub fn parse(tokens: &Vec<Token>) -> (r: Result<DefaultValues, SchemaError>)
        ensures
            r == default_spec(tokens@),
    {
        if tokens.len() != 1 {
            return Err(SchemaError::UnrecognizedDefault);
        }
        match &tokens[0] {
            Token::Ident(w) => {
                if text_is(w, "CURRENT_TIMESTAMP") {
                    Ok(DefaultValues::CurrentTimestamp)
                } else if text_is(w, "CURRENT_DATE") {
                    Ok(DefaultValues::CurrentDate)
                } else if text_is(w, "CURRENT_TIME") {
                    Ok(DefaultValues::CurrentTime)
                } else if text_is(w, "TRUE") {
                    Ok(DefaultValues::True)
                } else if text_is(w, "FALSE") {
                    Ok(DefaultValues::False)
                } else {
                    Err(SchemaError::UnrecognizedDefault)
                }
            },
            Token::Int(n) => Ok(DefaultValues::IntLiteral(*n)),
            Token::Str(s) => Ok(DefaultValues::StrLiteral(s.clone())),
            _ => Err(SchemaError::UnrecognizedDefault),
        }
    }

    /// Appends the SQL text of the value.
    pub fn push_sql(&self, out: &mut String)
        ensures
            final(out)@ == old(out)@ + default_sql(*self),
    {
        match self {
            DefaultValues::CurrentTimestamp => out.append("CURRENT_TIMESTAMP"),
            DefaultValues::CurrentDate => out.append("CURRENT_DATE"),
            DefaultValues::CurrentTime => out.append("CURRENT_TIME"),
            DefaultValues::True => out.append("TRUE"),
            DefaultValues::False => out.append("FALSE"),
            DefaultValues::IntLiteral(n) => push_decimal(out, *n),
            DefaultValues::StrLiteral(s) => push_quoted(out, s.as_str()),
        }
    }

    /// The SQL text of the value: a keyword, a decimal integer, or a quoted
    /// string literal.
    pub fn to_sql(&self) -> (r: String)
        ensures
            r@ == default_sql(*self),
    {
        let mut out = String::new();
        self.push_sql(&mut out);
        out
    }
}

/// Lower-case mapping of a string, as `str::to_lowercase` computes it.
pub uninterp spec fn lower_of(s: Seq<char>) -> Seq<char>;

/// Relies on `str::to_lowercase`: its result depends on the characters alone.
#[verifier::external_body]
fn lowercase(s: &str) -> (r: String)
    ensures
        r@ == lower_of(s@),
{
    s.to_lowercase()
}

/// The action named by a lower-case phrase.
pub open spec fn phrase_action(p: Seq<char>) -> Result<FKAction, SchemaError> {
    if p == "no action"@ {
        Ok(FKAction::NoAction)
    } else if p == "restrict"@ {
        Ok(FKAction::Restrict)
    } else if p == "set null"@ {
        Ok(FKAction::SetNull)
    } else if p == "set default"@ {
        Ok(FKAction::SetDefault)
    } else if p == "cascade"@ {
        Ok(FKAction::Cascade)
    } else {
        Err(SchemaError::UnknownAction)
    }
}

/// The action an action payload denotes: the bare phrases `NO ACTION`,
/// `RESTRICT`, `SET NULL`, `SET DEFAULT`, `CASCADE`, or one string literal
/// whose lower-cased value is one of the canonical phrases.
pub open spec fn action_spec(toks: Seq<Token>) -> Result<FKAction, SchemaError> {
    if toks.len() == 1 {
        match toks[0] {
            Token::Str(s) => phrase_action(lower_of(s@)),
            _ => if is_word(toks[0], "RESTRICT"@) {
                Ok(FKAction::Restrict)
            } else if is_word(toks[0], "CASCADE"@) {
                Ok(FKAction::Cascade)
            } else {
                Err(SchemaError::UnknownAction)
            },
        }
    } else if toks.len() == 2 {
        if is_word(toks[0], "NO"@) && is_word(toks[1], "ACTION"@) {
            Ok(FKAction::NoAction)
        } else if is_word(toks[0], "SET"@) && is_word(toks[1], "NULL"@) {
            Ok(FKAction::SetNull)
        } else if is_word(toks[0], "SET"@) && is_word(toks[1], "DEFAULT"@) {
            Ok(FKAction::SetDefault)
        } else {
            Err(SchemaError::UnknownAction)
        }
    } else {
        Err(SchemaError::UnknownAction)
    }
}

/// The SQL text of an action.
pub open spec fn action_sql(a: FKAction) -> Seq<char> {
    match a {
        FKAction::NoAction => "NO ACTION"@,
        FKAction::Restrict => "RESTRICT"@,
        FKAction::SetNull => "SET NULL"@,
        FKAction::SetDefault => "SET DEFAULT"@,
        FKAction::Cascade => "CASCADE"@,
    }
}

impl FKAction {
    /// The action named by an already lower-cased phrase.
    pub fn from_phrase(p: &str) -> (r: Result<FKAction, SchemaError>)
        ensures
            r == phrase_action(p@),
    {
        let s = String::from_str(p);
        if text_is(&s, "no action") {
            Ok(FKAction::NoAction)
        } else if text_is(&s, "restrict") {
            Ok(FKAction::Restrict)
        } else if text_is(&s, "set null") {
            Ok(FKAction::SetNull)
        } else if text_is(&s, "set default") {
            Ok(FKAction::SetDefault)
        } else if text_is(&s, "cascade") {
            Ok(FKAction::Cascade)
        } else {
            Err(SchemaError::UnknownAction)
        }
    }

    /// Reads the action payload `tokens[lo..hi]`.
    pub fn parse_range(tokens: &Vec<Token>, lo: usize, hi: usize) -> (r: Result<FKAction, SchemaError>)
        requires
            lo <= hi <= tokens@.len(),
        ensures
            r == action_spec(tokens@.subrange(lo as int, hi as int)),
    {
        if hi - lo == 1 {
            match &tokens[lo] {
                Token::Str(s) => {
                    let low = lowercase(s.as_str());
                    FKAction::from_phrase(low.as_str())
                },
                t => {
                    if token_is_word(t, "RESTRICT") {
                        Ok(FKAction::Restrict)
                    } else if token_is_word(t, "CASCADE") {
                        Ok(FKAction::Cascade)
                    } else {
                        Err(SchemaError::UnknownAction)
                    }
                },
            }
        } else if hi - lo == 2 {
            let a = &tokens[lo];
            let b = &tokens[lo + 1];
            if token_is_word(a, "NO") && token_is_word(b, "ACTION") {
                Ok(FKAction::NoAction)
            } else if token_is_word(a, "SET") && token_is_word(b, "NULL") {
                Ok(FKAction::SetNull)
            } else if token_is_word(a, "SET") && token_is_word(b, "DEFAULT") {
                Ok(FKAction::SetDefault)
            } else {
                Err(SchemaError::UnknownAction)
            }
        } else {
            Err(SchemaError::UnknownAction)
        }
    }

    /// Reads an action payload.
    pub fn parse(tokens: &Vec<Token>) -> (r: Result<FKAction, SchemaError>)
        ensures
            r == action_spec(tokens@),
    {
        let r = FKAction::parse_range(tokens, 0, tokens.len());
        assert(tokens@.subrange(0, tokens@.len() as int) =~= tokens@);
        r
    }

    /// The SQL text of the action.
    pub fn to_sql(self) -> (r: &'static str)
        ensures
            r@ == action_sql(self),
    {
        match self {
            FKAction::NoAction => "NO ACTION",
            FKAction::Restrict => "RESTRICT",
            FKAction::SetNull => "SET NULL",
            FKAction::SetDefault => "SET DEFAULT",
            FKAction::Cascade => "CASCADE",
        }
    }
}

} // verus!
