//! The data-object compiler: the type that holds one row of an entity, its
//! primary-identifier accessor, its conflict predicate and its row form.

use vstd::prelude::*;
use crate::naming::dao_from_name;
use crate::schema::{key_positions, lemma_primary_key_indices, primary_key_indices, FieldDescriptor};

verus! {

#[verifier::external_type_specification]
pub struct ExValue(msi::Value);

/// One field of a data-object type.
#[derive(Clone, Debug)]
pub struct DaoField {
    pub name: String,
    pub value_type: String,
}

/// The description of an entity's data-object type.
#[derive(Clone, Debug)]
pub struct DaoArtifact {
    /// The name of the data-object type.
    pub type_ident: String,
    /// Its fields, all private, in declaration order; the constructor takes
    /// one value convertible into each.
    pub fields: Vec<DaoField>,
    /// The field whose value is the row's identifier, if any.
    pub primary_identifier: Option<String>,
    /// The positions of the fields that two conflicting rows share.
    pub conflict_fields: Vec<usize>,
    /// The fields whose values make up the row, in order.
    pub row_fields: Vec<String>,
}

pub struct DaoModel {
    pub type_ident: Seq<char>,
    /// Name and value type of each field.
    pub fields: Seq<(Seq<char>, Seq<char>)>,
    pub primary_identifier: Option<Seq<char>>,
    pub conflict_fields: Seq<usize>,
    pub row_fields: Seq<Seq<char>>,
}

pub open spec fn dao_fields_view(fs: Seq<DaoField>) -> Seq<(Seq<char>, Seq<char>)> {
    fs.map_values(|f: DaoField| (f.name@, f.value_type@))
}

pub open spec fn names_view(ns: Seq<String>) -> Seq<Seq<char>> {
    ns.map_values(|n: String| n@)
}

impl View for DaoArtifact {
    type V = DaoModel;

    open spec fn view(&self) -> DaoModel {
        DaoModel {
            type_ident: self.type_ident@,
            fields: dao_fields_view(self.fields@),
            primary_identifier: match self.primary_identifier {
                Some(p) => Some(p@),
                None => None,
            },
            conflict_fields: self.conflict_fields@,
            row_fields: names_view(self.row_fields@),
        }
    }
}

/// The name and value type of each field, in declaration order.
pub open spec fn struct_fields_of(fields: Seq<FieldDescriptor>) -> Seq<(Seq<char>, Seq<char>)> {
    fields.map_values(|f: FieldDescriptor| (f.name@, f.value_type@))
}

/// The names of the fields, in declaration order.
pub open spec fn field_names_of(fields: Seq<FieldDescriptor>) -> Seq<Seq<char>> {
    fields.map_values(|f: FieldDescriptor| f.name@)
}

/// The data-object type of the entity named `target`.
pub open spec fn dao_model(
    target: Seq<char>,
    primary_identifier: Option<FieldDescriptor>,
    fields: Seq<FieldDescriptor>,
) -> DaoModel {
    DaoModel {
        type_ident: target + "Dao"@,
        fields: struct_fields_of(fields),
        primary_identifier: match primary_identifier {
            Some(p) => Some(p.name@),
            None => None,
        },
        conflict_fields: key_positions(fields),
        row_fields: field_names_of(fields),
    }
}

/// Whether two row values are equal.
pub open spec fn same_value(a: msi::Value, b: msi::Value) -> bool {
    match (a, b) {
        (msi::Value::Null, msi::Value::Null) => true,
        (msi::Value::Int(x), msi::Value::Int(y)) => x == y,
        (msi::Value::Str(s), msi::Value::Str(t)) => s@ == t@,
        _ => false,
    }
}

/// Whether rows `a` and `b` agree at every one of the positions `keys`.
pub open spec fn agree_at(keys: Seq<usize>, a: Seq<msi::Value>, b: Seq<msi::Value>) -> bool {
    forall|k: int| 0 <= k < keys.len() ==> same_value(a[#[trigger] keys[k] as int], b[keys[k] as int])
}

/// Whether two row values are equal.
pub fn values_equal(a: &msi::Value, b: &msi::Value) -> (r: bool)
    ensures
        r == same_value(*a, *b),
{
    match (a, b) {
        (msi::Value::Null, msi::Value::Null) => true,
        (msi::Value::Int(x), msi::Value::Int(y)) => *x == *y,
        (msi::Value::Str(s), msi::Value::Str(t)) => s.eq(t),
        _ => false,
    }
}

impl DaoArtifact {
    /// Every conflict field is a field of the type.
    pub open spec fn wf(&self) -> bool {
        forall|k: int| 0 <= k < self.conflict_fields@.len() ==> self.conflict_fields@[k] < self.fields@.len()
    }

    /// Whether two rows of this type conflict: they agree on every conflict
    /// field. Two rows of a type with no conflict field always conflict.
    pub fn conflicts_with(&self, a: &Vec<msi::Value>, b: &Vec<msi::Value>) -> (r: bool)
        requires
            self.wf(),
            a@.len() == self.fields@.len(),
            b@.len() == self.fields@.len(),
        ensures
            r == agree_at(self.conflict_fields@, a@, b@),
    {
        let keys = &self.conflict_fields;
        let mut i: usize = 0;
        while i < keys.len()
            invariant
                self.wf(),
                keys == &self.conflict_fields,
                a@.len() == self.fields@.len(),
                b@.len() == self.fields@.len(),
                i <= keys@.len(),
                agree_at(keys@.take(i as int), a@, b@),
            decreases keys@.len() - i,
        {
            let k = keys[i];
            if !values_equal(&a[k], &b[k]) {
                return false;
            }
            proof {
                assert forall|j: int| 0 <= j < i + 1 implies same_value(
                    a@[#[trigger] keys@.take(i + 1)[j] as int],
                    b@[keys@.take(i + 1)[j] as int],
                ) by {
                    if j < i {
                        assert(keys@.take(i + 1)[j] == keys@.take(i as int)[j]);
                    }
                }
            }
            i += 1;
        }
        proof {
            assert(keys@.take(keys@.len() as int) =~= keys@);
        }
        true
    }
}

/// The fields of the data-object type: each field's name and value type.
fn generate_dao_struct_definition(fields: &Vec<FieldDescriptor>) -> (r: Vec<DaoField>)
    ensures
        r@.len() == fields@.len(),
        dao_fields_view(r@) == struct_fields_of(fields@),
{
    let mut out: Vec<DaoField> = Vec::new();
    let mut i: usize = 0;
    while i < fields.len()
        invariant
            i <= fields@.len(),
            out@.len() == i,
            dao_fields_view(out@) =~= struct_fields_of(fields@).take(i as int),
        decreases fields@.len() - i,
    {
        let f = &fields[i];
        out.push(DaoField { name: f.name.clone(), value_type: f.value_type.clone() });
        proof {
            assert(dao_fields_view(out@)[i as int] == struct_fields_of(fields@)[i as int]);
        }
        i += 1;
    }
    out
}

/// The field read by the primary-identifier accessor: the primary
/// identifier's, or none.
fn generate_primary_identifier_impl_definition(
    primary_identifier: Option<&FieldDescriptor>,
) -> (r: Option<String>)
    ensures
        r is Some == primary_identifier is Some,
        r matches Some(n) ==> n@ == primary_identifier->0.name@,
{
    match primary_identifier {
        Some(p) => Some(p.name.clone()),
        None => None,
    }
}

/// The fields whose values make up a row, in declaration order.
fn generate_msi_dao_to_row_definition(fields: &Vec<FieldDescriptor>) -> (r: Vec<String>)
    ensures
        names_view(r@) == field_names_of(fields@),
{
    let mut out: Vec<String> = Vec::new();
    let mut i: usize = 0;
    while i < fields.len()
        invariant
            i <= fields@.len(),
            out@.len() == i,
            names_view(out@) =~= field_names_of(fields@).take(i as int),
        decreases fields@.len() - i,
    {
        out.push(fields[i].name.clone());
        proof {
            assert(names_view(out@)[i as int] == field_names_of(fields@)[i as int]);
        }
        i += 1;
    }
    out
}

/// Derives the data-object type of the entity named `target_name`: its
/// fields, its primary-identifier accessor, the fields that its conflict
/// predicate compares (the primary-key fields) and the fields of its row.
pub fn generate_dao_tokens(
    target_name: &str,
    primary_identifier: Option<&FieldDescriptor>,
    fields: &Vec<FieldDescriptor>,
) -> (r: DaoArtifact)
    ensures
        r@ == dao_model(
            target_name@,
            match primary_identifier {
                Some(p) => Some(*p),
                None => None,
            },
            fields@,
        ),
        r.wf(),
{
    let field_count = fields.len();
    proof {
        lemma_primary_key_indices(fields@);
    }
    let fields_out = generate_dao_struct_definition(fields);
    assert(fields_out@.len() == field_count);
    let row_fields = generate_msi_dao_to_row_definition(fields);
    let accessor = generate_primary_identifier_impl_definition(primary_identifier);
    let r = DaoArtifact {
        type_ident: dao_from_name(target_name),
        fields: fields_out,
        primary_identifier: accessor,
        conflict_fields: primary_key_indices(fields),
        row_fields,
    };
    assert(r.wf());
    r
}

/// Two rows of an entity conflict exactly when they agree on every
/// primary-key field; rows of an entity without primary-key fields always
/// conflict.
pub proof fn lemma_conflicts_are_key_equality(
    fields: Seq<FieldDescriptor>,
    a: Seq<msi::Value>,
    b: Seq<msi::Value>,
)
    requires
        fields.len() <= usize::MAX,
        a.len() == fields.len(),
        b.len() == fields.len(),
    ensures
        agree_at(key_positions(fields), a, b) <==> forall|i: int| 0 <= i < fields.len() && #[trigger] fields[i].primary_key
            ==> same_value(a[i], b[i]),
        (forall|i: int| 0 <= i < fields.len() ==> !(#[trigger] fields[i].primary_key)) ==> agree_at(key_positions(fields), a, b),
{
    lemma_primary_key_indices(fields);
    let ks = key_positions(fields);
    if agree_at(ks, a, b) {
        assert forall|i: int| 0 <= i < fields.len() && #[trigger] fields[i].primary_key implies same_value(a[i], b[i]) by {
            let k = choose|k: int| 0 <= k < ks.len() && ks[k] == i;
            assert(same_value(a[ks[k] as int], b[ks[k] as int]));
        }
    }
    if forall|i: int| 0 <= i < fields.len() && #[trigger] fields[i].primary_key ==> same_value(a[i], b[i]) {
        assert forall|k: int| 0 <= k < ks.len() implies same_value(a[#[trigger] ks[k] as int], b[ks[k] as int]) by {
            assert(fields[ks[k] as int].primary_key);
        }
    }
}

} // verus!
