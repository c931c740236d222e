use vstd::prelude::*;
use vstd::string::*;

use crate::schema::{FieldDescriptor, TableDescriptor};
use crate::text::{decimal_of, digits_of, join, join_strings, push_decimal, push_digits, text_is, views};

verus! {

/// A partially constructed row: one optional value per declared column.
/// Unset columns are left out of the insert, so storage-side defaults apply.
#[derive(Clone, Debug)]
pub struct RecordBuilder<V> {
    pub table: String,
    pub columns: Vec<String>,
    pub values: Vec<Option<V>>,
}

/// An insert statement and its positional parameters, in order.
#[derive(Clone, Debug)]
pub struct InsertStatement<V> {
    pub sql: String,
    pub params: Vec<V>,
}

/// Insert-and-fetch found a number of rows other than one for the new row.
#[derive(Clone, Copy, Debug, PartialEq, Eq, Structural)]
pub struct FetchBackError {
    pub rows: usize,
}

/// Whether column `i` is the first one named `name`.
pub open spec fn is_first_column(cols: Seq<String>, name: Seq<char>, i: int) -> bool {
    &&& 0 <= i < cols.len()
    &&& cols[i]@ == name
    &&& forall|j: int| 0 <= j < i ==> #[trigger] cols[j]@ != name
}

/// Names of the first `n` columns that hold a value.
pub open spec fn set_columns<V>(cols: Seq<String>, vals: Seq<Option<V>>, n: int) -> Seq<Seq<char>>
    decreases n,
{
    if n <= 0 {
        Seq::empty()
    } else if vals[n - 1] is Some {
        set_columns(cols, vals, n - 1).push(cols[n - 1]@)
    } else {
        set_columns(cols, vals, n - 1)
    }
}

/// The values held among the first `n` columns.
pub open spec fn set_values<V>(vals: Seq<Option<V>>, n: int) -> Seq<V>
    decreases n,
{
    if n <= 0 {
        Seq::empty()
    } else if vals[n - 1] is Some {
        set_values(vals, n - 1).push(vals[n - 1]->Some_0)
    } else {
        set_values(vals, n - 1)
    }
}

/// The placeholders `?1`, ..., `?k`.
pub open spec fn placeholders(k: nat) -> Seq<Seq<char>> {
    Seq::new(k, |i: int| seq!['?'] + digits_of((i + 1) as nat))
}

/// `INSERT INTO <table> (<cols>) VALUES (?1,...,?n)`.
pub open spec fn insert_sql(table: Seq<char>, cols: Seq<Seq<char>>) -> Seq<char> {
    "INSERT INTO "@ + table + " ("@ + join(cols, ","@) + ") VALUES ("@ + join(
        placeholders(cols.len()),
        ","@,
    ) + ")"@
}

/// `SELECT * FROM <table> WHERE ROWID = <id>`.
pub open spec fn fetch_back_spec(table: Seq<char>, rowid: int) -> Seq<char> {
    "SELECT * FROM "@ + table + " WHERE ROWID = "@ + decimal_of(rowid)
}

impl<V> RecordBuilder<V> {
    pub open spec fn wf(&self) -> bool {
        self.columns@.len() == self.values@.len()
    }

    /// Sets the first column named `field` to `value`; a name that no
    /// column has leaves the builder unchanged.
    pub fn with(self, field: &str, value: V) -> (r: Self)
        requires
            self.wf(),
        ensures
            r.wf(),
            r.table == self.table,
            r.columns == self.columns,
            (exists|i: int|
                is_first_column(self.columns@, field@, i) && r.values@ == self.values@.update(
                    i,
                    Some(value),
                )) || ((forall|j: int|
                0 <= j < self.columns@.len() ==> #[trigger] self.columns@[j]@ != field@)
                && r.values@ == self.values@),
    {
        let mut b = self;
        let mut i: usize = 0;
        while i < b.columns.len()
            invariant
                b == self,
                b.columns@.len() == b.values@.len(),
                i <= b.columns@.len(),
                forall|j: int| 0 <= j < i ==> #[trigger] b.columns@[j]@ != field@,
            decreases b.columns@.len() - i,
        {
            if text_is(&b.columns[i], field) {
                b.values.set(i, Some(value));
                assert(is_first_column(self.columns@, field@, i as int));
                return b;
            }
            i = i + 1;
        }
        b
    }

    /// The insert statement for the columns that hold a value, in
    /// declaration order, with their values as positional parameters.
    pub fn insert_statement(self) -> (r: InsertStatement<V>)
        requires
            self.wf(),
        ensures
            r.params@ == set_values(self.values@, self.values@.len() as int),
            r.sql@ == insert_sql(
                self.table@,
                set_columns(self.columns@, self.values@, self.values@.len() as int),
            ),
    {
        let RecordBuilder { table, columns, values } = self;
        let ghost orig = values@;
        let n = values.len();
        let mut vals = values;
        let mut names: Vec<String> = Vec::new();
        let mut holders: Vec<String> = Vec::new();
        let mut params: Vec<V> = Vec::new();
        let mut i: usize = 0;
        while i < n
            invariant
                n == orig.len(),
                columns@.len() == n,
                i <= n,
                vals@ == orig.skip(i as int),
                views(names@) == set_columns(columns@, orig, i as int),
                params@ == set_values(orig, i as int),
                params@.len() == names@.len(),
                params@.len() <= i,
                views(holders@) == placeholders(names@.len()),
            decreases n - i,
        {
            assert(vals@[0] == orig[i as int]);
            let v = vals.remove(0);
            assert(vals@ =~= orig.skip(i + 1));
            match v {
                Some(x) => {
                    let ghost nb = names@;
                    let ghost hb = holders@;
                    names.push(columns[i].clone());
                    params.push(x);
                    let mut h = String::from_str("?");
                    proof {
                        reveal_strlit("?");
                        assert(h@ =~= seq!['?']);
                    }
                    push_digits(&mut h, params.len() as u64);
                    let ghost hv = h@;
                    holders.push(h);
                    assert(views(names@) =~= views(nb).push(columns@[i as int]@));
                    assert(views(holders@) =~= views(hb).push(hv));
                    assert(hv == seq!['?'] + digits_of(names@.len() as nat));
                    assert(placeholders(names@.len()) =~= placeholders(nb.len()).push(hv));
                    assert(views(holders@) =~= placeholders(names@.len()));
                },
                None => {},
            }
            i = i + 1;
        }
        let mut sql = String::from_str("INSERT INTO ");
        sql.append(table.as_str());
        sql.append(" (");
        let c = join_strings(&names, ",");
        sql.append(c.as_str());
        sql.append(") VALUES (");
        let p = join_strings(&holders, ",");
        sql.append(p.as_str());
        sql.append(")");
        InsertStatement { sql, params }
    }
}

impl TableDescriptor {
    /// A builder for rows of the table with no column set.
    pub fn builder<V>(&self) -> (r: RecordBuilder<V>)
        ensures
            r.wf(),
            r.table@ == self.name@,
            views(r.columns@) == self.fields@.map_values(|f: FieldDescriptor| f.name@),
            forall|i: int| 0 <= i < r.values@.len() ==> #[trigger] r.values@[i] is None,
    {
        let mut columns: Vec<String> = Vec::new();
        let mut values: Vec<Option<V>> = Vec::new();
        let mut i: usize = 0;
        while i < self.fields.len()
            invariant
                i <= self.fields@.len(),
                columns@.len() == i,
                values@.len() == i,
                views(columns@) == self.fields@.take(i as int).map_values(
                    |f: FieldDescriptor| f.name@,
                ),
                forall|j: int| 0 <= j < values@.len() ==> #[trigger] values@[j] is None,
            decreases self.fields@.len() - i,
        {
            let ghost cb = columns@;
            columns.push(self.fields[i].name.clone());
            values.push(None);
            assert(views(columns@) =~= views(cb).push(self.fields@[i as int].name@));
            assert(self.fields@.take(i + 1).map_values(|f: FieldDescriptor| f.name@)
                =~= self.fields@.take(i as int).map_values(|f: FieldDescriptor| f.name@).push(
                self.fields@[i as int].name@,
            ));
            i = i + 1;
        }
        assert(self.fields@.take(self.fields@.len() as int) =~= self.fields@);
        RecordBuilder { table: self.name.clone(), columns, values }
    }
}

/// The query that reads back the row with the given row identity.
pub fn fetch_back_sql(table: &str, rowid: i64) -> (r: String)
    ensures
        r@ == fetch_back_spec(table@, rowid as int),
{
    let mut out = String::from_str("SELECT * FROM ");
    out.append(table);
    out.append(" WHERE ROWID = ");
    push_decimal(&mut out, rowid);
    out
}

/// The single row that the fetch-back query returned; any other number of
/// rows is a `FetchBackError`.
pub fn fetch_back_row<R>(rows: Vec<R>) -> (r: Result<R, FetchBackError>)
    ensures
        rows@.len() == 1 ==> r == Ok::<R, FetchBackError>(rows@[0]),
        rows@.len() != 1 ==> r == Err::<R, FetchBackError>(FetchBackError { rows: rows@.len() as usize }),
{
    let mut rows = rows;
    if rows.len() != 1 {
        return Err(FetchBackError { rows: rows.len() });
    }
    Ok(rows.remove(0))
}

} // verus!
