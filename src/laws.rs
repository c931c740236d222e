use vstd::prelude::*;

use crate::error::SchemaError;
use crate::schema::{
    column_line, composite_names, ddl_spec, fk_clause, fk_clauses, fk_target, group, local_names,
    primary_key_count, remote_names, targets, FieldDescriptor, TableDescriptor,
};
use crate::text::join;

verus! {

proof fn lemma_no_keys(fs: Seq<FieldDescriptor>)
    requires
        forall|i: int|
            0 <= i < fs.len() ==> !(#[trigger] fs[i]).primary_key && !fs[i].composite_key
                && fs[i].foreign_key is None,
    ensures
        primary_key_count(fs) == 0,
        composite_names(fs).len() == 0,
        targets(fs).len() == 0,
    decreases fs.len(),
{
    if fs.len() > 0 {
        let p = fs.drop_last();
        assert forall|i: int| 0 <= i < p.len() implies !(#[trigger] p[i]).primary_key
            && !p[i].composite_key && p[i].foreign_key is None by {
            assert(p[i] == fs[i]);
        }
        lemma_no_keys(p);
        assert(!fs[fs.len() - 1].primary_key);
    }
}

/// With no key or foreign-key annotations, the table's DDL lists exactly one
/// column line per field, in declaration order, and each line starts with
/// its field's name.
pub proof fn lemma_columns_follow_declaration(t: TableDescriptor)
    requires
        forall|i: int|
            0 <= i < t.fields@.len() ==> !(#[trigger] t.fields@[i]).primary_key
                && !t.fields@[i].composite_key && t.fields@[i].foreign_key is None,
    ensures
        ddl_spec(t) == Ok::<Seq<char>, SchemaError>(
            "CREATE TABLE IF NOT EXISTS "@ + t.name@ + " (\n  "@ + join(
                t.fields@.map_values(|f: FieldDescriptor| column_line(f)),
                ",\n  "@,
            ) + "\n)"@,
        ),
        forall|i: int|
            0 <= i < t.fields@.len() ==> (#[trigger] column_line(t.fields@[i])).take(
                t.fields@[i].name@.len() as int,
            ) == t.fields@[i].name@,
{
    let fs = t.fields@;
    lemma_no_keys(fs);
    assert(fk_clauses(fs) =~= Seq::<Seq<char>>::empty());
    assert(crate::schema::ddl_lines(fs) =~= fs.map_values(|f: FieldDescriptor| column_line(f)));
    assert forall|i: int| 0 <= i < fs.len() implies (#[trigger] column_line(fs[i])).take(
        fs[i].name@.len() as int,
    ) == fs[i].name@ by {
        let n = fs[i].name@;
        let head = n + " "@ + crate::types::storage_class(fs[i].ty.spec_scalar());
        assert(head.take(n.len() as int) =~= n);
        let c = crate::schema::constraints_spec(fs[i]);
        if c.len() > 0 && head.len() > 0 {
            assert((head + " "@ + c).take(n.len() as int) =~= n);
        } else if c.len() > 0 {
            assert(n.len() == 0);
            assert(c.take(0) =~= n);
        }
    }
}

proof fn lemma_count_two(fs: Seq<FieldDescriptor>, i: int, j: int)
    requires
        0 <= i < j < fs.len(),
        fs[i].primary_key,
        fs[j].primary_key,
    ensures
        primary_key_count(fs) >= 2,
    decreases fs.len(),
{
    let p = fs.drop_last();
    if j < fs.len() - 1 {
        assert(p[i] == fs[i] && p[j] == fs[j]);
        lemma_count_two(p, i, j);
    } else {
        assert(p[i] == fs[i]);
        lemma_count_one(p, i);
    }
}

proof fn lemma_count_one(fs: Seq<FieldDescriptor>, i: int)
    requires
        0 <= i < fs.len(),
        fs[i].primary_key,
    ensures
        primary_key_count(fs) >= 1,
    decreases fs.len(),
{
    let p = fs.drop_last();
    if i < fs.len() - 1 {
        assert(p[i] == fs[i]);
        lemma_count_one(p, i);
    }
}

proof fn lemma_composite_present(fs: Seq<FieldDescriptor>, i: int)
    requires
        0 <= i < fs.len(),
        fs[i].composite_key,
    ensures
        composite_names(fs).len() > 0,
    decreases fs.len(),
{
    let p = fs.drop_last();
    if i < fs.len() - 1 {
        assert(p[i] == fs[i]);
        lemma_composite_present(p, i);
    }
}

/// Two fields flagged `primary_key` make generation fail.
pub proof fn lemma_two_primary_keys_rejected(t: TableDescriptor, i: int, j: int)
    requires
        0 <= i < t.fields@.len(),
        0 <= j < t.fields@.len(),
        i != j,
        t.fields@[i].primary_key,
        t.fields@[j].primary_key,
    ensures
        ddl_spec(t) == Err::<Seq<char>, SchemaError>(SchemaError::MultiplePrimaryKeys),
{
    if i < j {
        lemma_count_two(t.fields@, i, j);
    } else {
        lemma_count_two(t.fields@, j, i);
    }
}

/// A `primary_key` field beside any `composite_key` field makes generation
/// fail; with a single primary key the error is the key-policy conflict.
pub proof fn lemma_primary_and_composite_rejected(t: TableDescriptor, i: int, j: int)
    requires
        0 <= i < t.fields@.len(),
        0 <= j < t.fields@.len(),
        t.fields@[i].primary_key,
        t.fields@[j].composite_key,
    ensures
        ddl_spec(t) is Err,
        primary_key_count(t.fields@) == 1 ==> ddl_spec(t) == Err::<Seq<char>, SchemaError>(
            SchemaError::PrimaryAndCompositeKeyConflict,
        ),
{
    lemma_count_one(t.fields@, i);
    lemma_composite_present(t.fields@, j);
}

proof fn lemma_targets_contain(fs: Seq<FieldDescriptor>, i: int, tt: Seq<char>)
    requires
        0 <= i < fs.len(),
        fk_target(fs[i]) == Some(tt),
    ensures
        targets(fs).contains(tt),
    decreases fs.len(),
{
    let p = fs.drop_last();
    if i < fs.len() - 1 {
        assert(p[i] == fs[i]);
        lemma_targets_contain(p, i, tt);
        assert(targets(p).contains(tt));
        let t = targets(p);
        let k = choose|k: int| 0 <= k < t.len() && t[k] == tt;
        match fk_target(fs.last()) {
            Some(x) => if !t.contains(x) {
                assert(t.push(x)[k] == tt);
            },
            None => {},
        }
    } else {
        let t = targets(p);
        if !t.contains(tt) {
            assert(t.push(tt)[t.len() as int] == tt);
        }
    }
}

proof fn lemma_targets_distinct(fs: Seq<FieldDescriptor>)
    ensures
        targets(fs).no_duplicates(),
    decreases fs.len(),
{
    if fs.len() > 0 {
        lemma_targets_distinct(fs.drop_last());
    }
}

proof fn lemma_group_prefix(fs: Seq<FieldDescriptor>, tt: Seq<char>, n: int)
    requires
        0 <= n <= fs.len(),
    ensures
        group(fs.take(n), tt).len() <= group(fs, tt).len(),
        group(fs, tt).take(group(fs.take(n), tt).len() as int) == group(fs.take(n), tt),
    decreases fs.len(),
{
    if n == fs.len() {
        assert(fs.take(n) =~= fs);
        assert(group(fs, tt).take(group(fs, tt).len() as int) =~= group(fs, tt));
    } else {
        let p = fs.drop_last();
        assert(p.take(n) =~= fs.take(n));
        lemma_group_prefix(p, tt, n);
        let g = group(p, tt);
        let h = group(fs.take(n), tt);
        if fk_target(fs.last()) == Some(tt) {
            assert(g.push(fs.last()).take(h.len() as int) =~= g.take(h.len() as int));
        }
    }
}

proof fn lemma_group_member(fs: Seq<FieldDescriptor>, tt: Seq<char>, i: int)
    requires
        0 <= i < fs.len(),
        fk_target(fs[i]) == Some(tt),
    ensures
        group(fs.take(i), tt).len() < group(fs, tt).len(),
        group(fs, tt)[group(fs.take(i), tt).len() as int] == fs[i],
        group(fs.take(i + 1), tt).len() == group(fs.take(i), tt).len() + 1,
{
    assert(fs.take(i + 1).drop_last() =~= fs.take(i));
    lemma_group_prefix(fs, tt, i + 1);
    let a = group(fs.take(i), tt).len() as int;
    assert(group(fs, tt).take(a + 1)[a] == fs[i]);
}

/// Two fields that reference the same table yield exactly one foreign-key
/// clause for that table, and it lists both local columns and both remote
/// columns, paired positionally in declaration order.
pub proof fn lemma_shared_target_single_clause(t: TableDescriptor, i: int, j: int, tt: Seq<char>)
    requires
        0 <= i < j < t.fields@.len(),
        fk_target(t.fields@[i]) == Some(tt),
        fk_target(t.fields@[j]) == Some(tt),
    ensures
        exists|k: int|
            #![trigger targets(t.fields@)[k]]
            0 <= k < targets(t.fields@).len() && targets(t.fields@)[k] == tt && fk_clauses(
                t.fields@,
            )[k] == fk_clause(t.fields@, tt) && forall|m: int|
                0 <= m < targets(t.fields@).len() && #[trigger] targets(t.fields@)[m] == tt
                    ==> m == k,
        exists|a: int, b: int|
            0 <= a < b < group(t.fields@, tt).len() && local_names(group(t.fields@, tt))[a]
                == t.fields@[i].name@ && local_names(group(t.fields@, tt))[b] == t.fields@[j].name@
                && remote_names(group(t.fields@, tt))[a]
                == t.fields@[i].foreign_key->Some_0.foreign_field@ && remote_names(
                group(t.fields@, tt),
            )[b] == t.fields@[j].foreign_key->Some_0.foreign_field@,
{
    let fs = t.fields@;
    lemma_targets_contain(fs, i, tt);
    lemma_targets_distinct(fs);
    let ts = targets(fs);
    let k = choose|k: int| 0 <= k < ts.len() && ts[k] == tt;
    assert(fk_clauses(fs)[k] == fk_clause(fs, tt));
    assert forall|m: int| 0 <= m < ts.len() && #[trigger] ts[m] == tt implies m == k by {
        if m != k {
            assert(ts[m] != ts[k]);
        }
    }
    lemma_group_member(fs, tt, i);
    lemma_group_member(fs, tt, j);
    let a = group(fs.take(i), tt).len() as int;
    let b = group(fs.take(j), tt).len() as int;
    let fj = fs.take(j);
    assert(fj.take(i + 1) =~= fs.take(i + 1));
    lemma_group_prefix(fj, tt, i + 1);
    assert(a < b);
    let g = group(fs, tt);
    assert(local_names(g)[a] == fs[i].name@);
    assert(local_names(g)[b] == fs[j].name@);
    assert(remote_names(g)[a] == fs[i].foreign_key->Some_0.foreign_field@);
    assert(remote_names(g)[b] == fs[j].foreign_key->Some_0.foreign_field@);
}


/// Every DDL text the assembler produces opens with the guarded
/// `CREATE TABLE IF NOT EXISTS` form.
pub proof fn lemma_ddl_guarded(t: TableDescriptor)
    requires
        ddl_spec(t) is Ok,
    ensures
        ddl_spec(t)->Ok_0.take(27) == "CREATE TABLE IF NOT EXISTS "@,
{
    reveal_strlit("CREATE TABLE IF NOT EXISTS ");
    let fs = t.fields@;
    let body = t.name@ + " (\n  "@ + join(crate::schema::ddl_lines(fs), ",\n  "@) + "\n)"@;
    assert(ddl_spec(t)->Ok_0 =~= "CREATE TABLE IF NOT EXISTS "@ + body);
    assert(("CREATE TABLE IF NOT EXISTS "@ + body).take(27) =~= "CREATE TABLE IF NOT EXISTS "@);
}

} // verus!
