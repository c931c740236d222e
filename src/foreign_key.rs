use vstd::prelude::*;
use vstd::string::*;

use crate::annotation::{ident_text, is_word, Token};
use crate::error::SchemaError;
use crate::literals::{action_spec, token_is_word, FKAction};

verus! {

/// A parsed `foreign_key` annotation.
#[derive(Clone, Debug, PartialEq, Eq)]
pub struct ForeignKeyAttr {
    /// The referenced table type, as its path text (`a::b::User`).
    pub table: String,
    /// The referenced column.
    pub foreign_field: String,
    pub on_delete: FKAction,
    pub on_update: FKAction,
}

/// What a `foreign_key` annotation states.
pub struct ForeignKeyView {
    pub table: Seq<char>,
    pub foreign_field: Seq<char>,
    pub on_delete: FKAction,
    pub on_update: FKAction,
}

impl View for ForeignKeyAttr {
    type V = ForeignKeyView;

    open spec fn view(&self) -> ForeignKeyView {
        ForeignKeyView {
            table: self.table@,
            foreign_field: self.foreign_field@,
            on_delete: self.on_delete,
            on_update: self.on_update,
        }
    }
}

/// Index just past the path whose first segment is at `i`: segments sit at
/// `i, i + 2, ...` and are joined by `::` tokens.
pub open spec fn path_end(toks: Seq<Token>, i: int) -> int
    decreases toks.len() - i,
{
    if 0 <= i && i + 1 < toks.len() && toks[i + 1] is PathSep {
        path_end(toks, i + 2)
    } else {
        i + 1
    }
}

/// Whether the path starting at 0 is well formed with at least `min_segments`
/// segments, each one an identifier.
pub open spec fn path_ok(toks: Seq<Token>, min_segments: int) -> bool {
    let e = path_end(toks, 0);
    &&& e <= toks.len()
    &&& e >= 2 * min_segments - 1
    &&& forall|k: int| 0 <= k < e && k % 2 == 0 ==> #[trigger] toks[k] is Ident
}

/// The text of the path segments at `0, 2, ..., k`, joined by `::`.
pub open spec fn path_text(toks: Seq<Token>, k: int) -> Seq<char>
    decreases k,
{
    if k < 2 {
        ident_text(toks[0])
    } else {
        path_text(toks, k - 2) + "::"@ + ident_text(toks[k])
    }
}

/// Index of the first comma at or after `i`, or the length.
pub open spec fn next_comma(toks: Seq<Token>, i: int) -> int
    decreases toks.len() - i,
{
    if i < 0 || i >= toks.len() || toks[i] is Comma {
        i
    } else {
        next_comma(toks, i + 1)
    }
}

/// The `(on_delete, on_update)` actions of the options from `i` on, given the
/// actions read so far; a later option overrides an earlier one.
pub open spec fn fk_options(toks: Seq<Token>, i: int, del: FKAction, upd: FKAction) -> Result<
    (FKAction, FKAction),
    SchemaError,
>
    decreases toks.len() - i
    via fk_options_decreases
{
    if i < 0 || i >= toks.len() {
        Ok((del, upd))
    } else if !(toks[i] is Comma) || i + 2 >= toks.len() || !(toks[i + 2] is Eq) || !(
    is_word(toks[i + 1], "on_delete"@) || is_word(toks[i + 1], "on_update"@)) {
        Err(SchemaError::MalformedAnnotation)
    } else {
        let j = next_comma(toks, i + 3);
        match action_spec(toks.subrange(i + 3, j)) {
            Err(e) => Err(e),
            Ok(a) => if is_word(toks[i + 1], "on_delete"@) {
                fk_options(toks, j, a, upd)
            } else {
                fk_options(toks, j, del, a)
            },
        }
    }
}

/// What a `foreign_key` payload `Table::field, on_delete = A, on_update = B`
/// denotes; both actions default to `NO ACTION`.
pub open spec fn foreign_key_spec(toks: Seq<Token>) -> Result<ForeignKeyView, SchemaError> {
    let e = path_end(toks, 0);
    if !path_ok(toks, 2) {
        Err(SchemaError::MalformedForeignKeyTarget)
    } else {
        match fk_options(toks, e, FKAction::NoAction, FKAction::NoAction) {
            Err(err) => Err(err),
            Ok((d, u)) => Ok(
                ForeignKeyView {
                    table: path_text(toks, e - 3),
                    foreign_field: ident_text(toks[e - 1]),
                    on_delete: d,
                    on_update: u,
                },
            ),
        }
    }
}

#[via_fn]
proof fn fk_options_decreases(toks: Seq<Token>, i: int, del: FKAction, upd: FKAction) {
    if 0 <= i && i + 3 <= toks.len() {
        lemma_next_comma_bounds(toks, i + 3);
    }
}

proof fn lemma_next_comma_bounds(toks: Seq<Token>, i: int)
    requires
        0 <= i <= toks.len(),
    ensures
        i <= next_comma(toks, i) <= toks.len(),
        forall|k: int| i <= k < next_comma(toks, i) ==> !(#[trigger] toks[k] is Comma),
        next_comma(toks, i) < toks.len() ==> toks[next_comma(toks, i)] is Comma,
    decreases toks.len() - i,
{
    if i < toks.len() && !(toks[i] is Comma) {
        lemma_next_comma_bounds(toks, i + 1);
    }
}

/// Finds the end `e` of the path starting at 0.
pub fn find_path_end(tokens: &Vec<Token>) -> (e: usize)
    ensures
        e == path_end(tokens@, 0),
        e % 2 == 1,
        e <= tokens@.len() + 1,
{
    let mut i: usize = 0;
    while i + 1 < tokens.len() && matches!(tokens[i + 1], Token::PathSep)
        invariant
            path_end(tokens@, 0) == path_end(tokens@, i as int),
            i % 2 == 0,
            i <= tokens@.len(),
        decreases tokens@.len() - i,
    {
        i = i + 2;
    }
    i + 1
}

/// Checks that the segments of the path before its last one are
/// identifiers, and builds their text, joined by `::`.
pub(crate) fn path_prefix_text(tokens: &Vec<Token>, e: usize) -> (r: Option<String>)
    requires
        e % 2 == 1,
        e >= 3,
        e <= tokens@.len(),
    ensures
        r is Some <==> (forall|k: int| 0 <= k < e - 1 && k % 2 == 0 ==> #[trigger] tokens@[k] is Ident),
        r matches Some(s) ==> s@ == path_text(tokens@, e - 3),
{
    proof {
        reveal_strlit("::");
    }
    let mut out = String::new();
    let mut k: usize = 0;
    while k + 1 < e
        invariant
            e <= tokens@.len(),
            e % 2 == 1,
            e >= 3,
            k % 2 == 0,
            k <= e - 1,
            forall|j: int| 0 <= j < k && j % 2 == 0 ==> #[trigger] tokens@[j] is Ident,
            k == 0 ==> out@ == Seq::<char>::empty(),
            k >= 2 ==> out@ == path_text(tokens@, k - 2),
        decreases e - k,
    {
        match &tokens[k] {
            Token::Ident(s) => {
                if k > 0 {
                    out.append("::");
                }
                out.append(s.as_str());
                proof {
                    if k > 0 {
                        assert(out@ =~= path_text(tokens@, k as int));
                    } else {
                        assert(out@ =~= path_text(tokens@, 0));
                    }
                }
            },
            _ => {
                return None;
            },
        }
        k = k + 2;
    }
    Some(out)
}

impl ForeignKeyAttr {
    /// Reads a `foreign_key` payload: a path of at least two segments whose
    /// last segment is the referenced column and whose prefix is the
    /// referenced table, then options `, on_delete = <action>` and
    /// `, on_update = <action>`.
    pub fn parse(tokens: &Vec<Token>) -> (r: Result<ForeignKeyAttr, SchemaError>)
        ensures
            match (r, foreign_key_spec(tokens@)) {
                (Ok(a), Ok(v)) => a@ == v,
                (Err(e), Err(f)) => e == f,
                _ => false,
            },
    {
        let e = find_path_end(tokens);
        if e > tokens.len() || e < 3 {
            return Err(SchemaError::MalformedForeignKeyTarget);
        }
        let table = match path_prefix_text(tokens, e) {
            None => {
                return Err(SchemaError::MalformedForeignKeyTarget);
            },
            Some(t) => t,
        };
        let foreign_field = match &tokens[e - 1] {
            Token::Ident(s) => s.clone(),
            _ => {
                return Err(SchemaError::MalformedForeignKeyTarget);
            },
        };
        let mut on_delete = FKAction::NoAction;
        let mut on_update = FKAction::NoAction;
        let mut i: usize = e;
        let n = tokens.len();
        while i < n
            invariant
                n == tokens@.len(),
                e <= i <= n,
                path_ok(tokens@, 2),
                e == path_end(tokens@, 0),
                fk_options(tokens@, e as int, FKAction::NoAction, FKAction::NoAction) == fk_options(
                    tokens@,
                    i as int,
                    on_delete,
                    on_update,
                ),
            decreases n - i,
        {
            if !matches!(tokens[i], Token::Comma) || n - i <= 2 || !matches!(
                tokens[i + 2],
                Token::Eq
            ) {
                assert(fk_options(tokens@, i as int, on_delete, on_update) == Err::<
                    (FKAction, FKAction),
                    SchemaError,
                >(SchemaError::MalformedAnnotation));
                return Err(SchemaError::MalformedAnnotation);
            }
            let is_delete = token_is_word(&tokens[i + 1], "on_delete");
            let is_update = token_is_word(&tokens[i + 1], "on_update");
            if !is_delete && !is_update {
                assert(fk_options(tokens@, i as int, on_delete, on_update) == Err::<
                    (FKAction, FKAction),
                    SchemaError,
                >(SchemaError::MalformedAnnotation));
                return Err(SchemaError::MalformedAnnotation);
            }
            let mut j: usize = i + 3;
            while j < n && !matches!(tokens[j], Token::Comma)
                invariant
                    n == tokens@.len(),
                    i + 3 <= j <= n,
                    next_comma(tokens@, i + 3) == next_comma(tokens@, j as int),
                decreases n - j,
            {
                j = j + 1;
            }
            let a = FKAction::parse_range(tokens, i + 3, j)?;
            if is_delete {
                on_delete = a;
            } else {
                on_update = a;
            }
            i = j;
        }
        Ok(ForeignKeyAttr { table, foreign_field, on_delete, on_update })
    }
}

} // verus!
