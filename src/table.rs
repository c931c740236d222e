use vstd::prelude::*;
use vstd::string::*;

use crate::annotation::{find_attrs, has_attr, payload, payloads_of, AttrKind, Attribute};
use crate::error::SchemaError;
use crate::foreign_key::{foreign_key_spec, ForeignKeyAttr};
use crate::literals::{default_spec, DefaultValues};
use crate::schema::{column_line, ddl_spec, FieldDescriptor, TableDescriptor};
use crate::text::{join, join_strings, views};
use crate::types::FieldType;

verus! {

/// A declared field: its name, type and raw annotations.
#[derive(Clone, Debug, PartialEq, Eq)]
pub struct FieldInfo {
    pub name: String,
    pub ty: FieldType,
    pub attributes: Vec<Attribute>,
}

/// A declared table: its name and fields in declaration order.
#[derive(Clone, Debug, PartialEq, Eq)]
pub struct TableInfo {
    pub name: String,
    pub fields: Vec<FieldInfo>,
}

/// The default-value error of a field, if any.
pub open spec fn default_error(f: FieldInfo) -> Option<SchemaError> {
    let d = payloads_of(f.attributes@, AttrKind::Default);
    if d.len() > 1 {
        Some(SchemaError::DuplicateDefault)
    } else if d.len() == 1 && default_spec(d[0]) is Err {
        Some(default_spec(d[0])->Err_0)
    } else {
        None
    }
}

/// The foreign-key error of a field, if any.
pub open spec fn foreign_key_error(f: FieldInfo) -> Option<SchemaError> {
    let k = payloads_of(f.attributes@, AttrKind::ForeignKey);
    if k.len() > 1 {
        Some(SchemaError::DuplicateForeignKey)
    } else if k.len() == 1 && foreign_key_spec(k[0]) is Err {
        Some(foreign_key_spec(k[0])->Err_0)
    } else {
        None
    }
}

/// The first error of a field's annotations: default errors come first.
pub open spec fn field_error(f: FieldInfo) -> Option<SchemaError> {
    if default_error(f) is Some {
        default_error(f)
    } else {
        foreign_key_error(f)
    }
}

/// Whether `d` is the descriptor that the annotations of `f` give.
pub open spec fn describes(f: FieldInfo, d: FieldDescriptor) -> bool {
    let ds = payloads_of(f.attributes@, AttrKind::Default);
    let ks = payloads_of(f.attributes@, AttrKind::ForeignKey);
    &&& d.name@ == f.name@
    &&& d.ty == f.ty
    &&& d.primary_key == has_attr(f.attributes@, AttrKind::PrimaryKey)
    &&& d.composite_key == has_attr(f.attributes@, AttrKind::CompositeKey)
    &&& d.unique == has_attr(f.attributes@, AttrKind::Unique)
    &&& d.default == (if ds.len() == 1 {
        Some(default_spec(ds[0])->Ok_0)
    } else {
        None
    })
    &&& (ks.len() == 0 ==> d.foreign_key is None)
    &&& (ks.len() == 1 ==> (d.foreign_key matches Some(a) && foreign_key_spec(ks[0]) == Ok::<
        _,
        SchemaError,
    >(a@)))
}

/// The first field error in declaration order.
pub open spec fn first_field_error(fs: Seq<FieldInfo>) -> Option<SchemaError>
    decreases fs.len(),
{
    if fs.len() == 0 {
        None
    } else if field_error(fs[0]) is Some {
        field_error(fs[0])
    } else {
        first_field_error(fs.skip(1))
    }
}

/// Whether `t` is the table descriptor that the declaration `ti` gives.
pub open spec fn table_describes(ti: TableInfo, t: TableDescriptor) -> bool {
    &&& t.name@ == ti.name@
    &&& t.fields@.len() == ti.fields@.len()
    &&& forall|i: int| 0 <= i < ti.fields@.len() ==> describes(ti.fields@[i], #[trigger] t.fields@[i])
}

impl FieldInfo {
    pub fn is_primary_key(&self) -> (r: bool)
        ensures
            r == has_attr(self.attributes@, AttrKind::PrimaryKey),
    {
        find_attrs(&self.attributes, AttrKind::PrimaryKey).0 > 0
    }

    pub fn is_composite_key(&self) -> (r: bool)
        ensures
            r == has_attr(self.attributes@, AttrKind::CompositeKey),
    {
        find_attrs(&self.attributes, AttrKind::CompositeKey).0 > 0
    }

    pub fn is_unique(&self) -> (r: bool)
        ensures
            r == has_attr(self.attributes@, AttrKind::Unique),
    {
        find_attrs(&self.attributes, AttrKind::Unique).0 > 0
    }

    /// Whether the column may hold NULL, which exempts it from `NOT NULL`.
    pub fn is_optional(&self) -> (r: bool)
        ensures
            r == self.ty.spec_is_optional(),
    {
        self.ty.is_optional()
    }

    /// The field's default value: at most one `default` annotation is allowed.
    pub fn default_value(&self) -> (r: Result<Option<DefaultValues>, SchemaError>)
        ensures
            r is Err <==> default_error(*self) is Some,
            r matches Err(e) ==> default_error(*self) == Some(e),
            r matches Ok(v) ==> v == (if payloads_of(self.attributes@, AttrKind::Default).len()
                == 1 {
                Some(default_spec(payloads_of(self.attributes@, AttrKind::Default)[0])->Ok_0)
            } else {
                None
            }),
    {
        let (count, first) = find_attrs(&self.attributes, AttrKind::Default);
        if count > 1 {
            return Err(SchemaError::DuplicateDefault);
        }
        if count == 0 {
            return Ok(None);
        }
        match payload(&self.attributes[first]) {
            Some(toks) => {
                let v = DefaultValues::parse(toks)?;
                Ok(Some(v))
            },
            None => Ok(None),
        }
    }

    /// The field's foreign key: at most one `foreign_key` annotation is allowed.
    pub fn foreign_key(&self) -> (r: Result<Option<ForeignKeyAttr>, SchemaError>)
        ensures
            r is Err <==> foreign_key_error(*self) is Some,
            r matches Err(e) ==> foreign_key_error(*self) == Some(e),
            r matches Ok(v) ==> {
                let ks = payloads_of(self.attributes@, AttrKind::ForeignKey);
                &&& (ks.len() == 0 ==> v is None)
                &&& (ks.len() == 1 ==> (v matches Some(a) && foreign_key_spec(ks[0]) == Ok::<
                    _,
                    SchemaError,
                >(a@)))
            },
    {
        let (count, first) = find_attrs(&self.attributes, AttrKind::ForeignKey);
        if count > 1 {
            return Err(SchemaError::DuplicateForeignKey);
        }
        if count == 0 {
            return Ok(None);
        }
        match payload(&self.attributes[first]) {
            Some(toks) => {
                let a = ForeignKeyAttr::parse(toks);
                match a {
                    Ok(a) => Ok(Some(a)),
                    Err(e) => Err(e),
                }
            },
            None => Ok(None),
        }
    }

    /// The structured descriptor of the field.
    pub fn descriptor(&self) -> (r: Result<FieldDescriptor, SchemaError>)
        ensures
            r is Err <==> field_error(*self) is Some,
            r matches Err(e) ==> field_error(*self) == Some(e),
            r matches Ok(d) ==> describes(*self, d),
    {
        let default = self.default_value()?;
        let foreign_key = self.foreign_key()?;
        Ok(
            FieldDescriptor {
                name: self.name.clone(),
                ty: self.ty,
                primary_key: self.is_primary_key(),
                composite_key: self.is_composite_key(),
                unique: self.is_unique(),
                default,
                foreign_key,
            },
        )
    }

    /// The column line of the field.
    pub fn as_txt(&self) -> (r: Result<String, SchemaError>)
        ensures
            r is Err <==> field_error(*self) is Some,
            r matches Err(e) ==> field_error(*self) == Some(e),
            r matches Ok(s) ==> exists|d: FieldDescriptor| describes(*self, d) && s@ == column_line(d),
    {
        let d = self.descriptor()?;
        Ok(d.column_sql())
    }
}

impl TableInfo {
    /// The column names in declaration order.
    pub fn fields_str(&self) -> (r: Vec<String>)
        ensures
            views(r@) == self.fields@.map_values(|f: FieldInfo| f.name@),
    {
        let mut out: Vec<String> = Vec::new();
        let mut i: usize = 0;
        while i < self.fields.len()
            invariant
                i <= self.fields@.len(),
                views(out@) == self.fields@.take(i as int).map_values(|f: FieldInfo| f.name@),
            decreases self.fields@.len() - i,
        {
            let ghost before = out@;
            out.push(self.fields[i].name.clone());
            assert(views(out@) =~= views(before).push(self.fields@[i as int].name@));
            assert(self.fields@.take(i + 1).map_values(|f: FieldInfo| f.name@) =~= self.fields@.take(
                i as int,
            ).map_values(|f: FieldInfo| f.name@).push(self.fields@[i as int].name@));
            i = i + 1;
        }
        assert(self.fields@.take(self.fields@.len() as int) =~= self.fields@);
        out
    }

    /// The column names joined by `sep`.
    pub fn separated_fields(&self, sep: &str) -> (r: String)
        ensures
            r@ == join(self.fields@.map_values(|f: FieldInfo| f.name@), sep@),
    {
        let names = self.fields_str();
        join_strings(&names, sep)
    }

    /// The name of the table's partial-construction builder.
    pub fn builder_name(&self) -> (r: String)
        ensures
            r@ == self.name@ + "Builder"@,
    {
        let mut out = self.name.clone();
        out.append("Builder");
        out
    }

    /// The table descriptor of the declaration, or the first field error.
    pub fn descriptor(&self) -> (r: Result<TableDescriptor, SchemaError>)
        ensures
            r is Err <==> first_field_error(self.fields@) is Some,
            r matches Err(e) ==> first_field_error(self.fields@) == Some(e),
            r matches Ok(t) ==> table_describes(*self, t),
    {
        let ghost fs = self.fields@;
        let mut out: Vec<FieldDescriptor> = Vec::new();
        let mut i: usize = 0;
        assert(fs.skip(0) =~= fs);
        while i < self.fields.len()
            invariant
                fs == self.fields@,
                i <= fs.len(),
                out@.len() == i,
                first_field_error(fs) == first_field_error(fs.skip(i as int)),
                forall|j: int| 0 <= j < i ==> describes(fs[j], #[trigger] out@[j]),
            decreases fs.len() - i,
        {
            assert(fs.skip(i as int)[0] == fs[i as int]);
            assert(fs.skip(i as int).skip(1) =~= fs.skip(i + 1));
            let d = self.fields[i].descriptor()?;
            out.push(d);
            i = i + 1;
        }
        Ok(TableDescriptor { name: self.name.clone(), fields: out })
    }

    /// The foreign-key clauses of the table.
    pub fn foreign_keys(&self) -> (r: Result<Vec<String>, SchemaError>)
        ensures
            match first_field_error(self.fields@) {
                Some(e) => r == Err::<Vec<String>, SchemaError>(e),
                None => exists|t: TableDescriptor|
                    table_describes(*self, t) && match r {
                        Ok(v) => crate::schema::fk_actions_agree(t.fields@) && views(v@)
                            == crate::schema::fk_clauses(t.fields@),
                        Err(e) => !crate::schema::fk_actions_agree(t.fields@) && e
                            == SchemaError::ConflictingForeignKeyActions,
                    },
            },
    {
        let t = self.descriptor()?;
        t.foreign_keys()
    }

    /// The `CREATE TABLE IF NOT EXISTS` text of the declaration: the first
    /// annotation error in field order, else the table's key and
    /// foreign-key rules as `TableDescriptor::creation_sql` states them.
    pub fn creation_str(&self) -> (r: Result<String, SchemaError>)
        ensures
            match first_field_error(self.fields@) {
                Some(e) => r == Err::<String, SchemaError>(e),
                None => exists|t: TableDescriptor|
                    table_describes(*self, t) && match (r, ddl_spec(t)) {
                        (Ok(s), Ok(v)) => s@ == v,
                        (Err(e), Err(f)) => e == f,
                        _ => false,
                    },
            },
    {
        let t = self.descriptor()?;
        t.creation_sql()
    }
}

} // verus!
