use vstd::prelude::*;
use vstd::string::*;

use crate::schema::{FieldDescriptor, TableDescriptor};
use crate::text::{join, join_strings, views};

verus! {

/// The column names of a table, comma-separated.
pub open spec fn column_list(t: TableDescriptor) -> Seq<char> {
    join(t.fields@.map_values(|f: FieldDescriptor| f.name@), ","@)
}

impl TableDescriptor {
    /// The column names in declaration order.
    pub fn column_names(&self) -> (r: Vec<String>)
        ensures
            views(r@) == self.fields@.map_values(|f: FieldDescriptor| f.name@),
    {
        let mut out: Vec<String> = Vec::new();
        let mut i: usize = 0;
        while i < self.fields.len()
            invariant
                i <= self.fields@.len(),
                views(out@) == self.fields@.take(i as int).map_values(|f: FieldDescriptor| f.name@),
            decreases self.fields@.len() - i,
        {
            let ghost before = out@;
            out.push(self.fields[i].name.clone());
            assert(views(out@) =~= views(before).push(self.fields@[i as int].name@));
            assert(self.fields@.take(i + 1).map_values(|f: FieldDescriptor| f.name@)
                =~= self.fields@.take(i as int).map_values(|f: FieldDescriptor| f.name@).push(
                self.fields@[i as int].name@,
            ));
            i = i + 1;
        }
        assert(self.fields@.take(self.fields@.len() as int) =~= self.fields@);
        out
    }

    /// The column names, comma-separated.
    pub fn column_getters(&self) -> (r: String)
        ensures
            r@ == column_list(*self),
    {
        let names = self.column_names();
        join_strings(&names, ",")
    }

    /// `SELECT <columns> FROM <table> <where_clause>`.
    pub fn select_sql(&self, where_clause: &str) -> (r: String)
        ensures
            r@ == "SELECT "@ + column_list(*self) + " FROM "@ + self.name@ + " "@ + where_clause@,
    {
        let mut out = String::from_str("SELECT ");
        let cols = self.column_getters();
        out.append(cols.as_str());
        out.append(" FROM ");
        out.append(self.name.as_str());
        out.append(" ");
        out.append(where_clause);
        out
    }

    /// `SELECT <columns> FROM <table> <where_clause> LIMIT 1`.
    pub fn select_one_sql(&self, where_clause: &str) -> (r: String)
        ensures
            r@ == "SELECT "@ + column_list(*self) + " FROM "@ + self.name@ + " "@ + where_clause@
                + " LIMIT 1"@,
    {
        let mut out = self.select_sql(where_clause);
        out.append(" LIMIT 1");
        out
    }

    /// `DELETE FROM <table> <where_clause>`.
    pub fn delete_sql(&self, where_clause: &str) -> (r: String)
        ensures
            r@ == "DELETE FROM "@ + self.name@ + " "@ + where_clause@,
    {
        let mut out = String::from_str("DELETE FROM ");
        out.append(self.name.as_str());
        out.append(" ");
        out.append(where_clause);
        out
    }

    /// `DROP TABLE IF EXISTS <table>`.
    pub fn drop_table_sql(&self) -> (r: String)
        ensures
            r@ == "DROP TABLE IF EXISTS "@ + self.name@,
    {
        let mut out = String::from_str("DROP TABLE IF EXISTS ");
        out.append(self.name.as_str());
        out
    }
}

} // verus!
