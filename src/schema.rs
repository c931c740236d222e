use vstd::prelude::*;
use vstd::string::*;

use crate::error::SchemaError;
use crate::foreign_key::ForeignKeyAttr;
use crate::literals::{action_sql, default_sql, DefaultValues, FKAction};
use crate::text::{add_part, join, join_strings, push_part, views};
use crate::types::{storage_class, FieldType};

verus! {

/// The structured constraints of one column.
#[derive(Clone, Debug, PartialEq, Eq)]
pub struct FieldDescriptor {
    pub name: String,
    pub ty: FieldType,
    pub primary_key: bool,
    pub composite_key: bool,
    pub unique: bool,
    pub default: Option<DefaultValues>,
    pub foreign_key: Option<ForeignKeyAttr>,
}

/// A table: its name and its columns in declaration order.
#[derive(Clone, Debug, PartialEq, Eq)]
pub struct TableDescriptor {
    pub name: String,
    pub fields: Vec<FieldDescriptor>,
}

/// The constraint text of a column: `NOT NULL` unless optional, then
/// `PRIMARY KEY`, `UNIQUE` and `DEFAULT <value>` where they apply.
pub open spec fn constraints_spec(f: FieldDescriptor) -> Seq<char> {
    let nn = if f.ty.spec_is_optional() {
        Seq::empty()
    } else {
        "NOT NULL"@
    };
    let pk = if f.primary_key {
        "PRIMARY KEY"@
    } else {
        Seq::empty()
    };
    let uq = if f.unique {
        "UNIQUE"@
    } else {
        Seq::empty()
    };
    let df = match f.default {
        Some(v) => "DEFAULT "@ + default_sql(v),
        None => Seq::empty(),
    };
    add_part(add_part(add_part(add_part(Seq::empty(), nn), pk), uq), df)
}

/// The column line `name <storage class> <constraints>`.
pub open spec fn column_line(f: FieldDescriptor) -> Seq<char> {
    add_part(f.name@ + " "@ + storage_class(f.ty.spec_scalar()), constraints_spec(f))
}

/// Number of fields flagged `primary_key`.
pub open spec fn primary_key_count(fs: Seq<FieldDescriptor>) -> nat
    decreases fs.len(),
{
    if fs.len() == 0 {
        0
    } else {
        primary_key_count(fs.drop_last()) + if fs.last().primary_key {
            1nat
        } else {
            0nat
        }
    }
}

/// Names of the fields flagged `composite_key`, in declaration order.
pub open spec fn composite_names(fs: Seq<FieldDescriptor>) -> Seq<Seq<char>>
    decreases fs.len(),
{
    if fs.len() == 0 {
        Seq::empty()
    } else if fs.last().composite_key {
        composite_names(fs.drop_last()).push(fs.last().name@)
    } else {
        composite_names(fs.drop_last())
    }
}

/// The trailing `PRIMARY KEY (f1, f2, ...)` line.
pub open spec fn composite_line(fs: Seq<FieldDescriptor>) -> Seq<char> {
    "PRIMARY KEY ("@ + join(composite_names(fs), ", "@) + ")"@
}

/// The table a field references, if any.
pub open spec fn fk_target(f: FieldDescriptor) -> Option<Seq<char>> {
    match f.foreign_key {
        Some(a) => Some(a.table@),
        None => None,
    }
}

/// The referenced tables, each once, in the order of their first reference.
pub open spec fn targets(fs: Seq<FieldDescriptor>) -> Seq<Seq<char>>
    decreases fs.len(),
{
    if fs.len() == 0 {
        Seq::empty()
    } else {
        let t = targets(fs.drop_last());
        match fk_target(fs.last()) {
            Some(x) => if t.contains(x) {
                t
            } else {
                t.push(x)
            },
            None => t,
        }
    }
}

/// The fields that reference table `t`, in declaration order.
pub open spec fn group(fs: Seq<FieldDescriptor>, t: Seq<char>) -> Seq<FieldDescriptor>
    decreases fs.len(),
{
    if fs.len() == 0 {
        Seq::empty()
    } else if fk_target(fs.last()) == Some(t) {
        group(fs.drop_last(), t).push(fs.last())
    } else {
        group(fs.drop_last(), t)
    }
}

/// The `(on_update, on_delete)` actions of a referencing field.
pub open spec fn fk_actions(f: FieldDescriptor) -> (FKAction, FKAction) {
    match f.foreign_key {
        Some(a) => (a.on_update, a.on_delete),
        None => (FKAction::NoAction, FKAction::NoAction),
    }
}

/// Whether all fields of a group declare the same actions.
pub open spec fn group_agrees(g: Seq<FieldDescriptor>) -> bool {
    forall|i: int| 0 <= i < g.len() ==> #[trigger] fk_actions(g[i]) == fk_actions(g[0])
}

/// Whether, for every referenced table, its fields declare the same actions.
pub open spec fn fk_actions_agree(fs: Seq<FieldDescriptor>) -> bool {
    forall|k: int| 0 <= k < targets(fs).len() ==> group_agrees(#[trigger] group(fs, targets(fs)[k]))
}

pub open spec fn local_names(g: Seq<FieldDescriptor>) -> Seq<Seq<char>> {
    g.map_values(|f: FieldDescriptor| f.name@)
}

pub open spec fn remote_names(g: Seq<FieldDescriptor>) -> Seq<Seq<char>> {
    g.map_values(|f: FieldDescriptor| f.foreign_key->Some_0.foreign_field@)
}

/// The clause `FOREIGN KEY (l1, l2) REFERENCES T(r1, r2) ON UPDATE a ON DELETE b`
/// for the fields that reference `t`, paired positionally.
pub open spec fn fk_clause(fs: Seq<FieldDescriptor>, t: Seq<char>) -> Seq<char> {
    let g = group(fs, t);
    "FOREIGN KEY ("@ + join(local_names(g), ", "@) + ") REFERENCES "@ + t + "("@ + join(
        remote_names(g),
        ", "@,
    ) + ") ON UPDATE "@ + action_sql(fk_actions(g[0]).0) + " ON DELETE "@ + action_sql(
        fk_actions(g[0]).1,
    )
}

/// The foreign-key clauses, one per referenced table.
pub open spec fn fk_clauses(fs: Seq<FieldDescriptor>) -> Seq<Seq<char>> {
    targets(fs).map_values(|t: Seq<char>| fk_clause(fs, t))
}

/// The lines inside `CREATE TABLE`: columns, the composite key, foreign keys.
pub open spec fn ddl_lines(fs: Seq<FieldDescriptor>) -> Seq<Seq<char>> {
    fs.map_values(|f: FieldDescriptor| column_line(f)) + (if composite_names(fs).len() > 0 {
        seq![composite_line(fs)]
    } else {
        Seq::empty()
    }) + fk_clauses(fs)
}

/// The DDL of a table, or the first violated key rule.
pub open spec fn ddl_spec(t: TableDescriptor) -> Result<Seq<char>, SchemaError> {
    let fs = t.fields@;
    if primary_key_count(fs) > 1 {
        Err(SchemaError::MultiplePrimaryKeys)
    } else if primary_key_count(fs) == 1 && composite_names(fs).len() > 0 {
        Err(SchemaError::PrimaryAndCompositeKeyConflict)
    } else if !fk_actions_agree(fs) {
        Err(SchemaError::ConflictingForeignKeyActions)
    } else {
        Ok(
            "CREATE TABLE IF NOT EXISTS "@ + t.name@ + " (\n  "@ + join(ddl_lines(fs), ",\n  "@)
                + "\n)"@,
        )
    }
}

impl FieldDescriptor {
    /// The constraint text of the column.
    pub fn constraints_sql(&self) -> (r: String)
        ensures
            r@ == constraints_spec(*self),
    {
        let mut out = String::new();
        if !self.ty.is_optional() {
            push_part(&mut out, "NOT NULL");
        }
        if self.primary_key {
            push_part(&mut out, "PRIMARY KEY");
        }
        if self.unique {
            push_part(&mut out, "UNIQUE");
        }
        match &self.default {
            Some(v) => {
                let mut d = String::from_str("DEFAULT ");
                v.push_sql(&mut d);
                push_part(&mut out, d.as_str());
            },
            None => {},
        }
        proof {
            assert(add_part(Seq::empty(), Seq::empty()) =~= Seq::<char>::empty());
        }
        out
    }

    /// The column line of the field.
    pub fn column_sql(&self) -> (r: String)
        ensures
            r@ == column_line(*self),
    {
        let mut out = self.name.clone();
        out.append(" ");
        out.append(self.ty.storage_type());
        let c = self.constraints_sql();
        push_part(&mut out, c.as_str());
        out
    }
}


proof fn lemma_target_has_group(fs: Seq<FieldDescriptor>, t: Seq<char>)
    requires
        targets(fs).contains(t),
    ensures
        group(fs, t).len() > 0,
    decreases fs.len(),
{
    if fs.len() > 0 {
        let p = fs.drop_last();
        if targets(p).contains(t) {
            lemma_target_has_group(p, t);
        }
    }
}

impl TableDescriptor {
    /// Number of fields flagged `primary_key`.
    pub fn primary_key_count(&self) -> (r: usize)
        ensures
            r == primary_key_count(self.fields@),
    {
        let mut count: usize = 0;
        let mut i: usize = 0;
        while i < self.fields.len()
            invariant
                i <= self.fields@.len(),
                count <= i,
                count == primary_key_count(self.fields@.take(i as int)),
            decreases self.fields@.len() - i,
        {
            assert(self.fields@.take(i + 1).drop_last() =~= self.fields@.take(i as int));
            if self.fields[i].primary_key {
                count = count + 1;
            }
            i = i + 1;
        }
        assert(self.fields@.take(self.fields@.len() as int) =~= self.fields@);
        count
    }

    /// Names of the fields flagged `composite_key`, in declaration order.
    pub fn composite_key_names(&self) -> (r: Vec<String>)
        ensures
            views(r@) == composite_names(self.fields@),
    {
        let mut out: Vec<String> = Vec::new();
        let mut i: usize = 0;
        while i < self.fields.len()
            invariant
                i <= self.fields@.len(),
                views(out@) == composite_names(self.fields@.take(i as int)),
            decreases self.fields@.len() - i,
        {
            assert(self.fields@.take(i + 1).drop_last() =~= self.fields@.take(i as int));
            if self.fields[i].composite_key {
                let ghost before = out@;
                out.push(self.fields[i].name.clone());
                assert(views(out@) =~= views(before).push(self.fields@[i as int].name@));
            }
            i = i + 1;
        }
        assert(self.fields@.take(self.fields@.len() as int) =~= self.fields@);
        out
    }

    /// The referenced tables, each once, in the order of their first reference.
    pub fn fk_targets(&self) -> (r: Vec<String>)
        ensures
            views(r@) == targets(self.fields@),
    {
        let mut out: Vec<String> = Vec::new();
        let mut i: usize = 0;
        while i < self.fields.len()
            invariant
                i <= self.fields@.len(),
                views(out@) == targets(self.fields@.take(i as int)),
            decreases self.fields@.len() - i,
        {
            assert(self.fields@.take(i + 1).drop_last() =~= self.fields@.take(i as int));
            match &self.fields[i].foreign_key {
                Some(a) => {
                    let mut found = false;
                    let mut k: usize = 0;
                    while k < out.len()
                        invariant
                            k <= out@.len(),
                            found <==> exists|m: int| 0 <= m < k && #[trigger] out@[m]@ == a.table@,
                        decreases out@.len() - k,
                    {
                        if out[k] == a.table {
                            found = true;
                        }
                        k = k + 1;
                    }
                    proof {
                        if found {
                            let m = choose|m: int| 0 <= m < k && #[trigger] out@[m]@ == a.table@;
                            assert(views(out@)[m] == a.table@);
                        } else {
                            assert forall|m: int| 0 <= m < views(out@).len() implies views(
                                out@,
                            )[m] != a.table@ by {
                                assert(out@[m]@ != a.table@);
                            }
                        }
                    }
                    if !found {
                        let ghost before = out@;
                        out.push(a.table.clone());
                        assert(views(out@) =~= views(before).push(a.table@));
                    }
                },
                None => {},
            }
            i = i + 1;
        }
        assert(self.fields@.take(self.fields@.len() as int) =~= self.fields@);
        out
    }

    /// The foreign-key clause for the fields that reference `t`, or
    /// `ConflictingForeignKeyActions` when they declare differing actions.
    pub fn fk_clause_sql(&self, t: &String) -> (r: Result<String, SchemaError>)
        requires
            targets(self.fields@).contains(t@),
        ensures
            r is Ok <==> group_agrees(group(self.fields@, t@)),
            r matches Ok(s) ==> s@ == fk_clause(self.fields@, t@),
            r matches Err(e) ==> e == SchemaError::ConflictingForeignKeyActions,
    {
        proof {
            lemma_target_has_group(self.fields@, t@);
        }
        let ghost fs = self.fields@;
        let mut locals: Vec<String> = Vec::new();
        let mut remotes: Vec<String> = Vec::new();
        let mut first: (FKAction, FKAction) = (FKAction::NoAction, FKAction::NoAction);
        let mut ok = true;
        let mut i: usize = 0;
        while i < self.fields.len()
            invariant
                fs == self.fields@,
                i <= fs.len(),
                views(locals@) == local_names(group(fs.take(i as int), t@)),
                views(remotes@) == remote_names(group(fs.take(i as int), t@)),
                group(fs.take(i as int), t@).len() > 0 ==> first == fk_actions(
                    group(fs.take(i as int), t@)[0],
                ),
                ok <==> group_agrees(group(fs.take(i as int), t@)),
            decreases fs.len() - i,
        {
            let ghost g = group(fs.take(i as int), t@);
            assert(fs.take(i + 1).drop_last() =~= fs.take(i as int));
            let f = &self.fields[i];
            match &f.foreign_key {
                Some(a) => {
                    if a.table == *t {
                        let ghost g2 = g.push(fs[i as int]);
                        assert(group(fs.take(i + 1), t@) == g2);
                        let acts = (a.on_update, a.on_delete);
                        if locals.len() == 0 {
                            first = acts;
                        }
                        proof {
                            assert(views(locals@).len() == g.len());
                        }
                        if acts.0 != first.0 || acts.1 != first.1 {
                            ok = false;
                        }
                        proof {
                            if g.len() > 0 {
                                assert(g2[0] == g[0]);
                            }
                            if group_agrees(g2) {
                                assert(fk_actions(g2[g.len() as int]) == fk_actions(g2[0]));
                                assert forall|j: int| 0 <= j < g.len() implies #[trigger] fk_actions(
                                    g[j],
                                ) == fk_actions(g[0]) by {
                                    assert(g2[j] == g[j]);
                                    assert(fk_actions(g2[j]) == fk_actions(g2[0]));
                                }
                            }
                            if ok {
                                assert forall|j: int| 0 <= j < g2.len() implies #[trigger] fk_actions(
                                    g2[j],
                                ) == fk_actions(g2[0]) by {
                                    if j < g.len() {
                                        assert(g2[j] == g[j]);
                                    }
                                }
                            }
                        }
                        let ghost lb = locals@;
                        let ghost rb = remotes@;
                        locals.push(f.name.clone());
                        remotes.push(a.foreign_field.clone());
                        assert(views(locals@) =~= views(lb).push(f.name@));
                        assert(views(remotes@) =~= views(rb).push(a.foreign_field@));
                        assert(local_names(g2) =~= local_names(g).push(f.name@));
                        assert(remote_names(g2) =~= remote_names(g).push(a.foreign_field@));
                    } else {
                        assert(group(fs.take(i + 1), t@) == g);
                    }
                },
                None => {
                    assert(group(fs.take(i + 1), t@) == g);
                },
            }
            i = i + 1;
        }
        assert(fs.take(fs.len() as int) =~= fs);
        if !ok {
            return Err(SchemaError::ConflictingForeignKeyActions);
        }
        let mut out = String::from_str("FOREIGN KEY (");
        let l = join_strings(&locals, ", ");
        out.append(l.as_str());
        out.append(") REFERENCES ");
        out.append(t.as_str());
        out.append("(");
        let r = join_strings(&remotes, ", ");
        out.append(r.as_str());
        out.append(") ON UPDATE ");
        out.append(first.0.to_sql());
        out.append(" ON DELETE ");
        out.append(first.1.to_sql());
        Ok(out)
    }
}


impl TableDescriptor {
    /// The foreign-key clauses, one per referenced table in the order of
    /// first reference; fails when fields grouped under one table declare
    /// differing actions.
    pub fn foreign_keys(&self) -> (r: Result<Vec<String>, SchemaError>)
        ensures
            r is Ok <==> fk_actions_agree(self.fields@),
            r matches Ok(v) ==> views(v@) == fk_clauses(self.fields@),
            r matches Err(e) ==> e == SchemaError::ConflictingForeignKeyActions,
    {
        let ghost fs = self.fields@;
        let tables = self.fk_targets();
        let mut out: Vec<String> = Vec::new();
        let mut k: usize = 0;
        while k < tables.len()
            invariant
                fs == self.fields@,
                views(tables@) == targets(fs),
                k <= tables@.len(),
                forall|j: int| 0 <= j < k ==> group_agrees(#[trigger] group(fs, targets(fs)[j])),
                views(out@) == fk_clauses(fs).take(k as int),
            decreases tables@.len() - k,
        {
            assert(views(tables@)[k as int] == tables@[k as int]@);
            assert(targets(fs).contains(tables@[k as int]@));
            let c = self.fk_clause_sql(&tables[k]);
            match c {
                Ok(line) => {
                    let ghost before = out@;
                    let ghost lv = line@;
                    out.push(line);
                    assert(views(out@) =~= views(before).push(lv));
                    assert(fk_clauses(fs)[k as int] == lv);
                    assert(views(out@) =~= fk_clauses(fs).take(k + 1));
                },
                Err(e) => {
                    assert(!group_agrees(group(fs, targets(fs)[k as int])));
                    return Err(e);
                },
            }
            k = k + 1;
        }
        assert(fk_clauses(fs).take(k as int) =~= fk_clauses(fs));
        Ok(out)
    }

    /// The `CREATE TABLE IF NOT EXISTS` text of the table. Fails with
    /// `MultiplePrimaryKeys` when two fields are primary keys, then with
    /// `PrimaryAndCompositeKeyConflict` when a primary key and composite-key
    /// fields are both present, then with `ConflictingForeignKeyActions`.
    pub fn creation_sql(&self) -> (r: Result<String, SchemaError>)
        ensures
            match (r, ddl_spec(*self)) {
                (Ok(s), Ok(v)) => s@ == v,
                (Err(e), Err(f)) => e == f,
                _ => false,
            },
    {
        let ghost fs = self.fields@;
        let pk = self.primary_key_count();
        let composite = self.composite_key_names();
        if pk > 1 {
            return Err(SchemaError::MultiplePrimaryKeys);
        }
        if pk == 1 && composite.len() > 0 {
            return Err(SchemaError::PrimaryAndCompositeKeyConflict);
        }
        let fks = self.foreign_keys()?;
        let mut lines: Vec<String> = Vec::new();
        let mut i: usize = 0;
        while i < self.fields.len()
            invariant
                fs == self.fields@,
                i <= fs.len(),
                views(lines@) == fs.take(i as int).map_values(|f: FieldDescriptor| column_line(f)),
            decreases fs.len() - i,
        {
            let line = self.fields[i].column_sql();
            let ghost before = lines@;
            let ghost lv = line@;
            lines.push(line);
            assert(views(lines@) =~= views(before).push(lv));
            assert(fs.take(i + 1).map_values(|f: FieldDescriptor| column_line(f)) =~= fs.take(
                i as int,
            ).map_values(|f: FieldDescriptor| column_line(f)).push(column_line(fs[i as int])));
            assert(views(lines@) =~= fs.take(i + 1).map_values(|f: FieldDescriptor| column_line(f)));
            i = i + 1;
        }
        assert(fs.take(fs.len() as int) =~= fs);
        let ghost cols = views(lines@);
        if composite.len() > 0 {
            let mut c = String::from_str("PRIMARY KEY (");
            let j = join_strings(&composite, ", ");
            c.append(j.as_str());
            c.append(")");
            lines.push(c);
        }
        let ghost mid = views(lines@);
        assert(mid =~= cols + (if composite_names(fs).len() > 0 {
            seq![composite_line(fs)]
        } else {
            Seq::empty()
        }));
        let mut k: usize = 0;
        while k < fks.len()
            invariant
                views(fks@) == fk_clauses(fs),
                k <= fks@.len(),
                views(lines@) == mid + fk_clauses(fs).take(k as int),
            decreases fks@.len() - k,
        {
            let ghost before = lines@;
            lines.push(fks[k].clone());
            assert(views(lines@) =~= views(before).push(fks@[k as int]@));
            assert(views(fks@)[k as int] == fks@[k as int]@);
            assert(views(lines@) =~= mid + fk_clauses(fs).take(k + 1));
            k = k + 1;
        }
        assert(views(lines@) =~= ddl_lines(fs));
        let mut out = String::from_str("CREATE TABLE IF NOT EXISTS ");
        out.append(self.name.as_str());
        out.append(" (\n  ");
        let body = join_strings(&lines, ",\n  ");
        out.append(body.as_str());
        out.append("\n)");
        Ok(out)
    }
}

} // verus!
