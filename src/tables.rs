//! The schema orchestrator: compiles one entity into all of its artifacts,
//! and a group of variant entities into theirs and a tagged union over
//! their tables.

use vstd::prelude::*;
use crate::dao::{dao_model, generate_dao_tokens, DaoArtifact, DaoModel};
use crate::identifier::{generate_identifier_tokens, identifier_model, IdentifierArtifact, IdentifierModel};
use crate::naming::{capitalize, capitalized, dao_from_name};
use crate::schema::{
    find_primary_identifier, identifier_positions, identifier_positions_upto,
    is_primary_identifier, primary_identifier_position, CompileError, EntityDescriptor,
    FieldDescriptor, SchemaInput,
};
use crate::table::{first_field_error, generate_table_tokens, table_model, TableArtifact, TableModel};

verus! {

/// Everything derived from one entity.
#[derive(Debug)]
pub struct EntityArtifact {
    /// The entity's name, capitalized; every derived name starts with it.
    pub name: String,
    /// The identifier type, when the entity has a primary identifier.
    pub identifier: Option<IdentifierArtifact>,
    pub dao: DaoArtifact,
    pub table: TableArtifact,
}

pub struct EntityModel {
    pub name: Seq<char>,
    pub identifier: Option<IdentifierModel>,
    pub dao: DaoModel,
    pub table: TableModel,
}

impl View for EntityArtifact {
    type V = EntityModel;

    open spec fn view(&self) -> EntityModel {
        EntityModel {
            name: self.name@,
            identifier: match self.identifier {
                Some(i) => Some(i@),
                None => None,
            },
            dao: self.dao@,
            table: self.table@,
        }
    }
}

pub open spec fn entity_result_view(r: Result<EntityArtifact, CompileError>) -> Result<EntityModel, CompileError> {
    match r {
        Ok(a) => Ok(a@),
        Err(e) => Err(e),
    }
}

/// The field that is the primary identifier, if exactly one qualifies.
pub open spec fn primary_identifier_of(fields: Seq<FieldDescriptor>) -> Option<FieldDescriptor> {
    match primary_identifier_position(fields) {
        Some(p) => Some(fields[p as int]),
        None => None,
    }
}

/// What compiling the entity named `base_name` with `fields` yields: an
/// error when several fields qualify as primary identifier, else the first
/// field error, else the artifacts, all named after the capitalized name.
pub open spec fn compiled_entity(base_name: Seq<char>, fields: Seq<FieldDescriptor>) -> Result<EntityModel, CompileError> {
    let target = capitalized(base_name);
    let primary = primary_identifier_of(fields);
    if identifier_positions(fields).len() > 1 {
        Err(CompileError::AmbiguousPrimaryIdentifier)
    } else if first_field_error(fields) is Some {
        Err(first_field_error(fields)->0)
    } else {
        Ok(EntityModel {
            name: target,
            identifier: match primary {
                Some(f) => Some(identifier_model(target, f)),
                None => None,
            },
            dao: dao_model(target, primary, fields),
            table: table_model(target, primary, fields),
        })
    }
}

proof fn lemma_identifier_positions_qualify(fields: Seq<FieldDescriptor>, n: nat)
    requires
        n <= fields.len(),
        n <= usize::MAX,
    ensures
        forall|k: int| 0 <= k < identifier_positions_upto(fields, n).len() ==> {
            &&& #[trigger] identifier_positions_upto(fields, n)[k] < n
            &&& is_primary_identifier(fields[identifier_positions_upto(fields, n)[k] as int])
        },
    decreases n,
{
    if n > 0 {
        lemma_identifier_positions_qualify(fields, (n - 1) as nat);
        let prev = identifier_positions_upto(fields, (n - 1) as nat);
        let cur = identifier_positions_upto(fields, n);
        if is_primary_identifier(fields[n - 1]) {
            assert(cur == prev.push((n - 1) as usize));
        } else {
            assert(cur == prev);
        }
        assert forall|k: int| 0 <= k < cur.len() implies cur[k] < n && is_primary_identifier(
            fields[cur[k] as int],
        ) by {
            if k < prev.len() {
                assert(cur[k] == prev[k]);
                assert(prev[k] < n - 1);
            }
        }
    }
}

/// Compiles one entity, named `base_name` once capitalized: its identifier
/// type (when it has a primary identifier), its data-object type and its
/// table type.
pub fn gen_tables_for_fields(base_name: &str, fields: &Vec<FieldDescriptor>) -> (r: Result<
    EntityArtifact,
    CompileError,
>)
    ensures
        entity_result_view(r) == compiled_entity(base_name@, fields@),
{
    let target_name = capitalize(base_name);
    let field_count = fields.len();
    let position = match find_primary_identifier(fields) {
        Ok(p) => p,
        Err(e) => return Err(e),
    };
    proof {
        lemma_identifier_positions_qualify(fields@, field_count as nat);
    }
    let primary: Option<&FieldDescriptor> = match position {
        Some(p) => Some(&fields[p]),
        None => None,
    };
    let identifier = match primary {
        Some(f) => match generate_identifier_tokens(target_name.as_str(), f) {
            Ok(a) => Some(a),
            Err(e) => return Err(e),
        },
        None => None,
    };
    let dao = generate_dao_tokens(target_name.as_str(), primary, fields);
    let table = match generate_table_tokens(target_name.as_str(), primary, fields) {
        Ok(t) => t,
        Err(e) => return Err(e),
    };
    Ok(EntityArtifact { name: target_name, identifier, dao, table })
}

/// One case of the union over a group's tables.
#[derive(Clone, Debug)]
pub struct UnionCase {
    /// The name of the case: the variant's name as declared.
    pub variant: String,
    /// The table type that the case holds.
    pub table_type: String,
    /// The data-object type that the matching case of the row union holds.
    pub dao_type: String,
}

/// The tagged union over the tables of a group, and the matching union over
/// their rows.
#[derive(Clone, Debug)]
pub struct TableUnion {
    /// The name of the table union: the group's name.
    pub type_ident: String,
    /// The name of the row union.
    pub dao_type: String,
    pub cases: Vec<UnionCase>,
}

/// Everything derived from one schema: the union, for a group of variants,
/// and the artifacts of each entity in order.
#[derive(Debug)]
pub struct SchemaArtifact {
    pub union: Option<TableUnion>,
    pub entities: Vec<EntityArtifact>,
}

pub struct UnionCaseModel {
    pub variant: Seq<char>,
    pub table_type: Seq<char>,
    pub dao_type: Seq<char>,
}

pub struct TableUnionModel {
    pub type_ident: Seq<char>,
    pub dao_type: Seq<char>,
    pub cases: Seq<UnionCaseModel>,
}

pub struct SchemaModel {
    pub union: Option<TableUnionModel>,
    pub entities: Seq<EntityModel>,
}

impl View for UnionCase {
    type V = UnionCaseModel;

    open spec fn view(&self) -> UnionCaseModel {
        UnionCaseModel {
            variant: self.variant@,
            table_type: self.table_type@,
            dao_type: self.dao_type@,
        }
    }
}

pub open spec fn cases_view(cs: Seq<UnionCase>) -> Seq<UnionCaseModel> {
    cs.map_values(|c: UnionCase| c@)
}

impl View for TableUnion {
    type V = TableUnionModel;

    open spec fn view(&self) -> TableUnionModel {
        TableUnionModel {
            type_ident: self.type_ident@,
            dao_type: self.dao_type@,
            cases: cases_view(self.cases@),
        }
    }
}

pub open spec fn entities_view(es: Seq<EntityArtifact>) -> Seq<EntityModel> {
    es.map_values(|e: EntityArtifact| e@)
}

impl View for SchemaArtifact {
    type V = SchemaModel;

    open spec fn view(&self) -> SchemaModel {
        SchemaModel {
            union: match self.union {
                Some(u) => Some(u@),
                None => None,
            },
            entities: entities_view(self.entities@),
        }
    }
}

pub open spec fn schema_result_view(r: Result<SchemaArtifact, CompileError>) -> Result<SchemaModel, CompileError> {
    match r {
        Ok(a) => Ok(a@),
        Err(e) => Err(e),
    }
}

/// What compiling one variant yields.
pub open spec fn compiled_variant(v: EntityDescriptor) -> Result<EntityModel, CompileError> {
    compiled_entity(v.name@, v.fields@)
}

/// The first error among the first `n` variants, in order.
pub open spec fn first_variant_error_upto(variants: Seq<EntityDescriptor>, n: nat) -> Option<CompileError>
    decreases n,
{
    if n == 0 {
        None
    } else {
        match first_variant_error_upto(variants, (n - 1) as nat) {
            Some(e) => Some(e),
            None => match compiled_variant(variants[n - 1]) {
                Err(e) => Some(e),
                Ok(_) => None,
            },
        }
    }
}

pub open spec fn first_variant_error(variants: Seq<EntityDescriptor>) -> Option<CompileError> {
    first_variant_error_upto(variants, variants.len())
}

/// The case of the union for variant `v`: it holds the variant's table.
pub open spec fn case_model(v: EntityDescriptor) -> UnionCaseModel {
    UnionCaseModel {
        variant: v.name@,
        table_type: capitalized(v.name@) + "Table"@,
        dao_type: capitalized(v.name@) + "Dao"@,
    }
}

/// What compiling the group `name` of `variants` yields: the first error of
/// a variant, else the union and each variant compiled on its own.
pub open spec fn compiled_group(name: Seq<char>, variants: Seq<EntityDescriptor>) -> Result<SchemaModel, CompileError> {
    match first_variant_error(variants) {
        Some(e) => Err(e),
        None => Ok(SchemaModel {
            union: Some(TableUnionModel {
                type_ident: name,
                dao_type: name + "Dao"@,
                cases: variants.map_values(|v: EntityDescriptor| case_model(v)),
            }),
            entities: variants.map_values(|v: EntityDescriptor| compiled_variant(v)->Ok_0),
        }),
    }
}

/// What compiling `input` yields.
pub open spec fn compiled_schema(input: SchemaInput) -> Result<SchemaModel, CompileError> {
    match input {
        SchemaInput::Entity(e) => match compiled_variant(e) {
            Ok(m) => Ok(SchemaModel { union: None, entities: seq![m] }),
            Err(err) => Err(err),
        },
        SchemaInput::Variants { name, variants } => compiled_group(name@, variants@),
    }
}

proof fn lemma_first_variant_error_sticks(variants: Seq<EntityDescriptor>, a: nat, b: nat)
    requires
        a <= b <= variants.len(),
        first_variant_error_upto(variants, a) is Some,
    ensures
        first_variant_error_upto(variants, b) == first_variant_error_upto(variants, a),
    decreases b - a,
{
    if a < b {
        lemma_first_variant_error_sticks(variants, a, (b - 1) as nat);
    }
}

/// Compiles a group of variant entities: each variant on its own, in order,
/// and the union whose cases hold their tables. The first variant that does
/// not compile stops the whole group.
pub fn gen_tables_for_enum(name: &str, variants: &Vec<EntityDescriptor>) -> (r: Result<
    SchemaArtifact,
    CompileError,
>)
    ensures
        schema_result_view(r) == compiled_group(name@, variants@),
{
    let mut entities: Vec<EntityArtifact> = Vec::new();
    let mut cases: Vec<UnionCase> = Vec::new();
    let mut i: usize = 0;
    while i < variants.len()
        invariant
            i <= variants@.len(),
            first_variant_error_upto(variants@, i as nat) is None,
            entities@.len() == i,
            cases@.len() == i,
            forall|k: int| 0 <= k < i ==> compiled_variant(variants@[k]) == Ok::<EntityModel, CompileError>(#[trigger] entities@[k]@),
            forall|k: int| 0 <= k < i ==> #[trigger] cases@[k]@ == case_model(variants@[k]),
        decreases variants@.len() - i,
    {
        let v = &variants[i];
        let entity = match gen_tables_for_fields(v.name.as_str(), &v.fields) {
            Ok(e) => e,
            Err(e) => {
                proof {
                    lemma_first_variant_error_sticks(variants@, (i + 1) as nat, variants@.len());
                }
                return Err(e);
            },
        };
        cases.push(UnionCase {
            variant: v.name.clone(),
            table_type: entity.table.type_ident.clone(),
            dao_type: entity.dao.type_ident.clone(),
        });
        entities.push(entity);
        i += 1;
    }
    let union = TableUnion {
        type_ident: String::from_str(name),
        dao_type: dao_from_name(name),
        cases,
    };
    let r = SchemaArtifact { union: Some(union), entities };
    proof {
        assert(cases_view(r.union->0.cases@) =~= variants@.map_values(|v: EntityDescriptor| case_model(v)));
        assert(entities_view(r.entities@) =~= variants@.map_values(|v: EntityDescriptor| compiled_variant(v)->Ok_0));
    }
    Ok(r)
}

/// Compiles a schema: one entity, or a group of variants with their union.
pub fn gen_tables_impl(input: &SchemaInput) -> (r: Result<SchemaArtifact, CompileError>)
    ensures
        schema_result_view(r) == compiled_schema(*input),
{
    match input {
        SchemaInput::Entity(e) => match gen_tables_for_fields(e.name.as_str(), &e.fields) {
            Ok(a) => {
                let r = SchemaArtifact { union: None, entities: vec![a] };
                proof {
                    assert(entities_view(r.entities@) =~= seq![r.entities@[0]@]);
                }
                Ok(r)
            },
            Err(err) => Err(err),
        },
        SchemaInput::Variants { name, variants } => gen_tables_for_enum(name.as_str(), variants),
    }
}

/// Compiling the same entity twice gives the same artifacts, character for
/// character.
pub proof fn lemma_compilation_is_deterministic(
    base_name: Seq<char>,
    fields: Seq<FieldDescriptor>,
    first: Result<EntityArtifact, CompileError>,
    second: Result<EntityArtifact, CompileError>,
)
    requires
        entity_result_view(first) == compiled_entity(base_name, fields),
        entity_result_view(second) == compiled_entity(base_name, fields),
    ensures
        entity_result_view(first) == entity_result_view(second),
{
}

/// An entity compiles only if at most one field qualifies as its primary
/// identifier; with two or more it fails as ambiguous.
pub proof fn lemma_primary_identifier_unique(base_name: Seq<char>, fields: Seq<FieldDescriptor>)
    ensures
        compiled_entity(base_name, fields) is Ok ==> identifier_positions(fields).len() <= 1,
        identifier_positions(fields).len() >= 2 ==> compiled_entity(base_name, fields)
            == Err::<EntityModel, CompileError>(CompileError::AmbiguousPrimaryIdentifier),
{
}

/// A group that compiles has a union with one case per variant, in order,
/// each holding the table of its variant, and each variant is compiled from
/// its own fields alone.
pub proof fn lemma_group_union(name: Seq<char>, variants: Seq<EntityDescriptor>)
    requires
        compiled_group(name, variants) is Ok,
    ensures
        ({
            let s = compiled_group(name, variants)->Ok_0;
            &&& s.union is Some
            &&& s.union->0.cases.len() == variants.len()
            &&& s.entities.len() == variants.len()
            &&& forall|i: int| 0 <= i < variants.len() ==> {
                &&& compiled_variant(variants[i]) == Ok::<EntityModel, CompileError>(#[trigger] s.entities[i])
                &&& s.union->0.cases[i].variant == variants[i].name@
                &&& s.union->0.cases[i].table_type == s.entities[i].table.type_ident
                &&& s.union->0.cases[i].dao_type == s.entities[i].dao.type_ident
            }
        }),
{
    lemma_variants_compile(variants, variants.len());
}

proof fn lemma_variants_compile(variants: Seq<EntityDescriptor>, n: nat)
    requires
        n <= variants.len(),
        first_variant_error_upto(variants, n) is None,
    ensures
        forall|i: int| 0 <= i < n ==> (#[trigger] compiled_variant(variants[i])) is Ok,
    decreases n,
{
    if n > 0 {
        lemma_variants_compile(variants, (n - 1) as nat);
    }
}

} // verus!
