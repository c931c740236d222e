use vstd::prelude::*;
use vstd::string::*;

use crate::annotation::{
    find_attrs, ident_text, is_word, payload, payloads_of, str_text, AttrKind, Attribute, Token,
};
use crate::error::SchemaError;
use crate::foreign_key::{find_path_end, path_end, path_ok, path_prefix_text, path_text};
use crate::literals::token_is_word;
use crate::schema::{FieldDescriptor, TableDescriptor};
use crate::text::{digits_of, join, join_strings, push_digits, views};
use crate::types::FieldType;

verus! {

/// A parsed `param(Table::field as "alias", "predicate")` annotation.
#[derive(Clone, Debug, PartialEq, Eq)]
pub struct CteFieldParam {
    /// The source table type, as its path text.
    pub table: String,
    /// The alias of the source table inside the subquery.
    pub table_shorthand: String,
    /// The source column.
    pub field_name: String,
    /// The correlation predicate, as SQL text.
    pub val: String,
}

pub struct CteFieldParamView {
    pub table: Seq<char>,
    pub table_shorthand: Seq<char>,
    pub field_name: Seq<char>,
    pub val: Seq<char>,
}

impl View for CteFieldParam {
    type V = CteFieldParamView;

    open spec fn view(&self) -> CteFieldParamView {
        CteFieldParamView {
            table: self.table@,
            table_shorthand: self.table_shorthand@,
            field_name: self.field_name@,
            val: self.val@,
        }
    }
}

/// The parameter names of a `cte_params("a", "b", ...)` annotation.
#[derive(Clone, Debug, PartialEq, Eq)]
pub struct CteTableParams {
    pub param_list: Vec<String>,
}

/// A projected field: its name, type and raw annotations.
#[derive(Clone, Debug, PartialEq, Eq)]
pub struct CteFieldInfo {
    pub name: String,
    pub ty: FieldType,
    pub attributes: Vec<Attribute>,
}

/// A projection: its name, projected fields and annotations.
#[derive(Clone, Debug, PartialEq, Eq)]
pub struct CteInfo {
    pub name: String,
    pub fields: Vec<CteFieldInfo>,
    pub attributes: Vec<Attribute>,
}

/// What a `param` payload `Table::field as "alias", "predicate"` denotes.
pub open spec fn cte_param_spec(toks: Seq<Token>) -> Result<CteFieldParamView, SchemaError> {
    let e = path_end(toks, 0);
    if !path_ok(toks, 2) || toks.len() != e + 4 || !is_word(toks[e], "as"@) || !(toks[e
        + 1] is Str) || !(toks[e + 2] is Comma) || !(toks[e + 3] is Str) {
        Err(SchemaError::MalformedAnnotation)
    } else {
        Ok(
            CteFieldParamView {
                table: path_text(toks, e - 3),
                table_shorthand: str_text(toks[e + 1]),
                field_name: ident_text(toks[e - 1]),
                val: str_text(toks[e + 3]),
            },
        )
    }
}

/// Whether a `cte_params` payload is string literals separated by commas,
/// with an optional trailing comma.
pub open spec fn cte_params_ok(toks: Seq<Token>) -> bool {
    forall|k: int|
        0 <= k < toks.len() ==> if k % 2 == 0 {
            #[trigger] toks[k] is Str
        } else {
            toks[k] is Comma
        }
}

/// The parameter names of a well-formed `cte_params` payload.
pub open spec fn cte_param_names(toks: Seq<Token>) -> Seq<Seq<char>> {
    Seq::new(((toks.len() + 1) / 2) as nat, |i: int| str_text(toks[2 * i]))
}

/// The select items `?1 AS a`, `?2 AS b`, ...
pub open spec fn param_items(names: Seq<Seq<char>>) -> Seq<Seq<char>> {
    Seq::new(names.len(), |i: int| seq!['?'] + digits_of((i + 1) as nat) + " AS "@ + names[i])
}

/// The `WITH params AS (SELECT ?1 AS a, ...)` prefix, ending in a newline;
/// empty when the projection declares no `cte_params`.
pub open spec fn params_prefix_spec(attrs: Seq<Attribute>) -> Result<Seq<char>, SchemaError> {
    let ps = payloads_of(attrs, AttrKind::CteParams);
    if ps.len() > 1 {
        Err(SchemaError::DuplicateCteParams)
    } else if ps.len() == 0 {
        Ok(Seq::empty())
    } else if !cte_params_ok(ps[0]) {
        Err(SchemaError::MalformedAnnotation)
    } else {
        Ok(
            "WITH params AS (SELECT "@ + join(param_items(cte_param_names(ps[0])), ", "@)
                + ")\n"@,
        )
    }
}

/// The type of column `field` in the first table named `table`.
pub open spec fn find_column(fs: Seq<FieldDescriptor>, field: Seq<char>) -> Option<FieldType>
    decreases fs.len(),
{
    if fs.len() == 0 {
        None
    } else if fs[0].name@ == field {
        Some(fs[0].ty)
    } else {
        find_column(fs.skip(1), field)
    }
}

pub open spec fn find_source(ts: Seq<TableDescriptor>, table: Seq<char>, field: Seq<char>) -> Option<
    FieldType,
>
    decreases ts.len(),
{
    if ts.len() == 0 {
        None
    } else if ts[0].name@ == table {
        find_column(ts[0].fields@, field)
    } else {
        find_source(ts.skip(1), table, field)
    }
}

/// A projected field may declare its source column's type, or the optional
/// of it, since a correlated subquery that finds no row yields NULL.
pub open spec fn compatible(projected: FieldType, source: FieldType) -> bool {
    projected == source || projected == FieldType::Optional(source.spec_scalar())
}

/// `(SELECT a.col FROM Table AS a, params WHERE <predicate>) AS name`
pub open spec fn subquery_text(p: CteFieldParamView, name: Seq<char>) -> Seq<char> {
    "(SELECT "@ + p.table_shorthand + "."@ + p.field_name + " FROM "@ + p.table + " AS "@
        + p.table_shorthand + ", params WHERE "@ + p.val + ") AS "@ + name
}

/// The subquery of a projected field, checked against the declared tables.
pub open spec fn projection_spec(f: CteFieldInfo, tables: Seq<TableDescriptor>) -> Result<
    Seq<char>,
    SchemaError,
> {
    let ps = payloads_of(f.attributes@, AttrKind::Param);
    if ps.len() > 1 {
        Err(SchemaError::DuplicateParam)
    } else if ps.len() == 0 {
        Err(SchemaError::MissingParam)
    } else {
        match cte_param_spec(ps[0]) {
            Err(e) => Err(e),
            Ok(p) => match find_source(tables, p.table, p.field_name) {
                None => Err(SchemaError::UnknownProjectionSource),
                Some(src) => if !compatible(f.ty, src) {
                    Err(SchemaError::ProjectionTypeMismatch)
                } else {
                    Ok(subquery_text(p, f.name@))
                },
            },
        }
    }
}

/// The subqueries of the first `n` projected fields, or the first error.
pub open spec fn projections(fs: Seq<CteFieldInfo>, tables: Seq<TableDescriptor>, n: int) -> Result<
    Seq<Seq<char>>,
    SchemaError,
>
    decreases n,
{
    if n <= 0 {
        Ok(Seq::empty())
    } else {
        match projections(fs, tables, n - 1) {
            Err(e) => Err(e),
            Ok(s) => match projection_spec(fs[n - 1], tables) {
                Err(e) => Err(e),
                Ok(x) => Ok(s.push(x)),
            },
        }
    }
}

/// The full projection text: the parameter relation, then one subquery per
/// projected field.
pub open spec fn cte_spec(c: CteInfo, tables: Seq<TableDescriptor>) -> Result<
    Seq<char>,
    SchemaError,
> {
    match params_prefix_spec(c.attributes@) {
        Err(e) => Err(e),
        Ok(prefix) => match projections(c.fields@, tables, c.fields@.len() as int) {
            Err(e) => Err(e),
            Ok(items) => Ok(prefix + "SELECT "@ + join(items, ",\n"@) + ";"@),
        },
    }
}


impl CteFieldParam {
    /// Reads a `param` payload `Table::field as "alias", "predicate"`.
    pub fn parse(tokens: &Vec<Token>) -> (r: Result<CteFieldParam, SchemaError>)
        ensures
            match (r, cte_param_spec(tokens@)) {
                (Ok(p), Ok(v)) => p@ == v,
                (Err(e), Err(f)) => e == f,
                _ => false,
            },
    {
        let e = find_path_end(tokens);
        let n = tokens.len();
        if e > n || e < 3 || n - e != 4 {
            return Err(SchemaError::MalformedAnnotation);
        }
        let table = match path_prefix_text(tokens, e) {
            None => {
                return Err(SchemaError::MalformedAnnotation);
            },
            Some(t) => t,
        };
        let field_name = match &tokens[e - 1] {
            Token::Ident(s) => s.clone(),
            _ => {
                return Err(SchemaError::MalformedAnnotation);
            },
        };
        if !token_is_word(&tokens[e], "as") || !matches!(tokens[e + 2], Token::Comma) {
            return Err(SchemaError::MalformedAnnotation);
        }
        let table_shorthand = match &tokens[e + 1] {
            Token::Str(s) => s.clone(),
            _ => {
                return Err(SchemaError::MalformedAnnotation);
            },
        };
        let val = match &tokens[e + 3] {
            Token::Str(s) => s.clone(),
            _ => {
                return Err(SchemaError::MalformedAnnotation);
            },
        };
        Ok(CteFieldParam { table, table_shorthand, field_name, val })
    }

    /// The type of the source column among `tables`, if it is declared.
    pub fn source_type(&self, tables: &Vec<TableDescriptor>) -> (r: Option<FieldType>)
        ensures
            r == find_source(tables@, self.table@, self.field_name@),
    {
        let ghost ts = tables@;
        let mut i: usize = 0;
        assert(ts.skip(0) =~= ts);
        while i < tables.len()
            invariant
                ts == tables@,
                i <= ts.len(),
                find_source(ts, self.table@, self.field_name@) == find_source(
                    ts.skip(i as int),
                    self.table@,
                    self.field_name@,
                ),
            decreases ts.len() - i,
        {
            assert(ts.skip(i as int)[0] == ts[i as int]);
            assert(ts.skip(i as int).skip(1) =~= ts.skip(i + 1));
            if tables[i].name == self.table {
                let fs = &tables[i].fields;
                let ghost f = fs@;
                let mut j: usize = 0;
                assert(f.skip(0) =~= f);
                assert(find_source(ts, self.table@, self.field_name@) == find_column(
                    f,
                    self.field_name@,
                ));
                while j < fs.len()
                    invariant
                        f == fs@,
                        ts == tables@,
                        find_source(ts, self.table@, self.field_name@) == find_column(
                            f,
                            self.field_name@,
                        ),
                        j <= f.len(),
                        find_column(f, self.field_name@) == find_column(
                            f.skip(j as int),
                            self.field_name@,
                        ),
                    decreases f.len() - j,
                {
                    assert(f.skip(j as int)[0] == f[j as int]);
                    assert(f.skip(j as int).skip(1) =~= f.skip(j + 1));
                    if fs[j].name == self.field_name {
                        return Some(fs[j].ty);
                    }
                    j = j + 1;
                }
                return None;
            }
            i = i + 1;
        }
        None
    }

    /// Checks the projected type `ty` against the source column's type.
    pub fn validity_check(&self, ty: FieldType, tables: &Vec<TableDescriptor>) -> (r: Result<
        (),
        SchemaError,
    >)
        ensures
            match find_source(tables@, self.table@, self.field_name@) {
                None => r == Err::<(), SchemaError>(SchemaError::UnknownProjectionSource),
                Some(src) => if compatible(ty, src) {
                    r is Ok
                } else {
                    r == Err::<(), SchemaError>(SchemaError::ProjectionTypeMismatch)
                },
            },
    {
        match self.source_type(tables) {
            None => Err(SchemaError::UnknownProjectionSource),
            Some(src) => {
                if ty == src || ty == FieldType::Optional(src.scalar()) {
                    Ok(())
                } else {
                    Err(SchemaError::ProjectionTypeMismatch)
                }
            },
        }
    }
}

impl CteTableParams {
    /// Reads a `cte_params` payload: string literals separated by commas.
    pub fn parse(tokens: &Vec<Token>) -> (r: Result<CteTableParams, SchemaError>)
        ensures
            r is Ok <==> cte_params_ok(tokens@),
            r matches Ok(p) ==> views(p.param_list@) == cte_param_names(tokens@),
            r matches Err(e) ==> e == SchemaError::MalformedAnnotation,
    {
        let ghost toks = tokens@;
        let mut names: Vec<String> = Vec::new();
        let mut k: usize = 0;
        while k < tokens.len()
            invariant
                toks == tokens@,
                k <= toks.len(),
                forall|j: int|
                    0 <= j < k ==> if j % 2 == 0 {
                        #[trigger] toks[j] is Str
                    } else {
                        toks[j] is Comma
                    },
                names@.len() == (k + 1) / 2,
                forall|j: int| 0 <= j < names@.len() ==> #[trigger] names@[j]@ == str_text(toks[2 * j]),
            decreases toks.len() - k,
        {
            if k % 2 == 0 {
                match &tokens[k] {
                    Token::Str(s) => {
                        names.push(s.clone());
                    },
                    _ => {
                        return Err(SchemaError::MalformedAnnotation);
                    },
                }
            } else if !matches!(tokens[k], Token::Comma) {
                return Err(SchemaError::MalformedAnnotation);
            }
            k = k + 1;
        }
        assert(views(names@) =~= cte_param_names(toks));
        Ok(CteTableParams { param_list: names })
    }
}

impl CteFieldInfo {
    /// The field's `param` annotation: exactly one is required.
    pub fn param(&self) -> (r: Result<CteFieldParam, SchemaError>)
        ensures
            ({
                let ps = payloads_of(self.attributes@, AttrKind::Param);
                if ps.len() > 1 {
                    r == Err::<CteFieldParam, SchemaError>(SchemaError::DuplicateParam)
                } else if ps.len() == 0 {
                    r == Err::<CteFieldParam, SchemaError>(SchemaError::MissingParam)
                } else {
                    match (r, cte_param_spec(ps[0])) {
                        (Ok(p), Ok(v)) => p@ == v,
                        (Err(e), Err(f)) => e == f,
                        _ => false,
                    }
                }
            }),
    {
        let (count, first) = find_attrs(&self.attributes, AttrKind::Param);
        if count > 1 {
            return Err(SchemaError::DuplicateParam);
        }
        if count == 0 {
            return Err(SchemaError::MissingParam);
        }
        match payload(&self.attributes[first]) {
            Some(toks) => CteFieldParam::parse(toks),
            None => Err(SchemaError::MissingParam),
        }
    }

    /// The correlated subquery of the field, after its type check.
    pub fn select_stmt(&self, tables: &Vec<TableDescriptor>) -> (r: Result<String, SchemaError>)
        ensures
            match (r, projection_spec(*self, tables@)) {
                (Ok(s), Ok(v)) => s@ == v,
                (Err(e), Err(f)) => e == f,
                _ => false,
            },
    {
        let p = self.param()?;
        p.validity_check(self.ty, tables)?;
        let mut out = String::from_str("(SELECT ");
        out.append(p.table_shorthand.as_str());
        out.append(".");
        out.append(p.field_name.as_str());
        out.append(" FROM ");
        out.append(p.table.as_str());
        out.append(" AS ");
        out.append(p.table_shorthand.as_str());
        out.append(", params WHERE ");
        out.append(p.val.as_str());
        out.append(") AS ");
        out.append(self.name.as_str());
        Ok(out)
    }
}

impl CteInfo {
    /// The parameter relation `WITH params AS (SELECT ?1 AS a, ...)`, one
    /// placeholder per declared parameter in order.
    pub fn cte_str_params(&self) -> (r: Result<String, SchemaError>)
        ensures
            match (r, params_prefix_spec(self.attributes@)) {
                (Ok(s), Ok(v)) => s@ == v,
                (Err(e), Err(f)) => e == f,
                _ => false,
            },
    {
        let (count, first) = find_attrs(&self.attributes, AttrKind::CteParams);
        if count > 1 {
            return Err(SchemaError::DuplicateCteParams);
        }
        if count == 0 {
            return Ok(String::new());
        }
        let toks = match payload(&self.attributes[first]) {
            Some(t) => t,
            None => {
                return Ok(String::new());
            },
        };
        let params = CteTableParams::parse(toks)?;
        let ghost names = views(params.param_list@);
        let mut items: Vec<String> = Vec::new();
        let mut i: usize = 0;
        while i < params.param_list.len()
            invariant
                names == views(params.param_list@),
                i <= names.len(),
                views(items@) == param_items(names).take(i as int),
            decreases names.len() - i,
        {
            let mut item = String::from_str("?");
            proof {
                reveal_strlit("?");
                assert(item@ =~= seq!['?']);
            }
            push_digits(&mut item, (i + 1) as u64);
            item.append(" AS ");
            item.append(params.param_list[i].as_str());
            let ghost iv = item@;
            let ghost before = items@;
            items.push(item);
            assert(views(items@) =~= views(before).push(iv));
            assert(names[i as int] == params.param_list@[i as int]@);
            assert(views(items@) =~= param_items(names).take(i + 1));
            i = i + 1;
        }
        assert(param_items(names).take(names.len() as int) =~= param_items(names));
        let mut out = String::from_str("WITH params AS (SELECT ");
        let j = join_strings(&items, ", ");
        out.append(j.as_str());
        out.append(")\n");
        Ok(out)
    }

    /// The projection text; `tables` declares the source tables that the
    /// projected fields are checked against.
    pub fn cte_str(&self, tables: &Vec<TableDescriptor>) -> (r: Result<String, SchemaError>)
        ensures
            match (r, cte_spec(*self, tables@)) {
                (Ok(s), Ok(v)) => s@ == v,
                (Err(e), Err(f)) => e == f,
                _ => false,
            },
    {
        let prefix = self.cte_str_params()?;
        let ghost fs = self.fields@;
        let mut items: Vec<String> = Vec::new();
        let mut i: usize = 0;
        assert(views(items@) =~= Seq::<Seq<char>>::empty());
        while i < self.fields.len()
            invariant
                fs == self.fields@,
                i <= fs.len(),
                params_prefix_spec(self.attributes@) == Ok::<_, SchemaError>(prefix@),
                projections(fs, tables@, i as int) == Ok::<_, SchemaError>(views(items@)),
            decreases fs.len() - i,
        {
            let s = self.fields[i].select_stmt(tables);
            match s {
                Ok(line) => {
                    let ghost before = items@;
                    let ghost lv = line@;
                    items.push(line);
                    assert(views(items@) =~= views(before).push(lv));
                },
                Err(e) => {
                    proof {
                        assert(projections(fs, tables@, i + 1) == Err::<Seq<Seq<char>>, SchemaError>(e));
                        lemma_projections_stop(fs, tables@, i + 1);
                    }
                    return Err(e);
                },
            }
            i = i + 1;
        }
        let mut out = prefix;
        out.append("SELECT ");
        let j = join_strings(&items, ",\n");
        out.append(j.as_str());
        out.append(";");
        Ok(out)
    }

    /// The query-plan request for the projection.
    pub fn query_plan_str(&self, tables: &Vec<TableDescriptor>) -> (r: Result<String, SchemaError>)
        ensures
            match (r, cte_spec(*self, tables@)) {
                (Ok(s), Ok(v)) => s@ == "EXPLAIN QUERY PLAN "@ + v,
                (Err(e), Err(f)) => e == f,
                _ => false,
            },
    {
        let q = self.cte_str(tables)?;
        let mut out = String::from_str("EXPLAIN QUERY PLAN ");
        out.append(q.as_str());
        Ok(out)
    }
}

/// Once the first `n` projected fields fail, so do all of them.
proof fn lemma_projections_stop(fs: Seq<CteFieldInfo>, tables: Seq<TableDescriptor>, n: int)
    requires
        0 <= n <= fs.len(),
        projections(fs, tables, n) is Err,
    ensures
        projections(fs, tables, fs.len() as int) == projections(fs, tables, n),
    decreases fs.len() - n,
{
    if n < fs.len() {
        lemma_projections_stop(fs, tables, n + 1);
    }
}

} // verus!
