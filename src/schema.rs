//! The description of an entity that the compilers read: its name and its
//! fields, in declaration order, and the errors that compilation can raise.

use vstd::prelude::*;

verus! {

/// The options of a field that holds an identifier.
#[derive(Clone, Debug)]
pub struct IdentifierOptions {
    /// Whether a generator of fresh identifiers is derived for the entity.
    pub generated: bool,
    /// The entity whose table this identifier refers to, if any.
    pub foreign_key: Option<String>,
}

/// One field of an entity, and so one column of its table.
#[derive(Clone, Debug)]
pub struct FieldDescriptor {
    /// The field's name, unique within its entity.
    pub name: String,
    /// The field's value type, as written.
    pub value_type: String,
    /// Whether the value type is optional-wrapped.
    pub optional: bool,
    /// The name of the storage category.
    pub category: String,
    /// The maximum length of a string value.
    pub length: Option<usize>,
    /// A column name that replaces the one derived from the field's name.
    pub column_name: Option<String>,
    pub primary_key: bool,
    pub identifier_options: Option<IdentifierOptions>,
    pub localizable: bool,
}

/// An entity: a kind of row, with its fields in declaration order.
#[derive(Clone, Debug)]
pub struct EntityDescriptor {
    pub name: String,
    pub fields: Vec<FieldDescriptor>,
}

/// What is compiled: one entity, or a group of entities that are the
/// variants of one named schema.
#[derive(Clone, Debug)]
pub enum SchemaInput {
    Entity(EntityDescriptor),
    Variants { name: String, variants: Vec<EntityDescriptor> },
}

/// Why compilation stopped. A field is given by its position in its entity.
#[derive(Clone, Copy, Debug, PartialEq, Eq, Structural)]
pub enum CompileError {
    /// More than one field qualifies as the primary identifier.
    AmbiguousPrimaryIdentifier,
    /// An identifier type was asked for a field without identifier options.
    InconsistentIdentifierConfiguration,
    /// The field's name could not be turned into a column name.
    InvalidColumnName { field: usize },
    /// The field's category names no category.
    InvalidCategory { field: usize },
    /// The field's category stores strings and the field declares no length.
    MissingLength { field: usize },
}

/// The diagnostic of an error.
pub open spec fn message_of(e: CompileError) -> Seq<char> {
    match e {
        CompileError::AmbiguousPrimaryIdentifier => "ambiguous primary identifier"@,
        CompileError::InconsistentIdentifierConfiguration => "inconsistent identifier configuration"@,
        CompileError::InvalidColumnName { .. } => "invalid column name"@,
        CompileError::InvalidCategory { .. } => "invalid category"@,
        CompileError::MissingLength { .. } => "missing required length"@,
    }
}

impl CompileError {
    /// A short diagnostic.
    pub fn message(&self) -> (r: &'static str)
        ensures
            r@ == message_of(*self),
    {
        match self {
            CompileError::AmbiguousPrimaryIdentifier => "ambiguous primary identifier",
            CompileError::InconsistentIdentifierConfiguration => "inconsistent identifier configuration",
            CompileError::InvalidColumnName { .. } => "invalid column name",
            CompileError::InvalidCategory { .. } => "invalid category",
            CompileError::MissingLength { .. } => "missing required length",
        }
    }
}

/// A field that is a primary key, holds an identifier and refers to no
/// other table: the field that names the rows of its entity.
pub open spec fn is_primary_identifier(f: FieldDescriptor) -> bool {
    &&& f.primary_key
    &&& f.identifier_options is Some
    &&& f.identifier_options->0.foreign_key is None
}

/// The positions among the first `n` fields of the primary-key fields, in order.
pub open spec fn key_positions_upto(fields: Seq<FieldDescriptor>, n: nat) -> Seq<usize>
    decreases n,
{
    if n == 0 {
        seq![]
    } else if fields[n - 1].primary_key {
        key_positions_upto(fields, (n - 1) as nat).push((n - 1) as usize)
    } else {
        key_positions_upto(fields, (n - 1) as nat)
    }
}

/// The positions of the primary-key fields, in declaration order.
pub open spec fn key_positions(fields: Seq<FieldDescriptor>) -> Seq<usize> {
    key_positions_upto(fields, fields.len())
}

/// The positions among the first `n` fields of those that qualify as the
/// primary identifier, in order.
pub open spec fn identifier_positions_upto(fields: Seq<FieldDescriptor>, n: nat) -> Seq<usize>
    decreases n,
{
    if n == 0 {
        seq![]
    } else if is_primary_identifier(fields[n - 1]) {
        identifier_positions_upto(fields, (n - 1) as nat).push((n - 1) as usize)
    } else {
        identifier_positions_upto(fields, (n - 1) as nat)
    }
}

/// The positions of the fields that qualify as the primary identifier.
pub open spec fn identifier_positions(fields: Seq<FieldDescriptor>) -> Seq<usize> {
    identifier_positions_upto(fields, fields.len())
}

/// The position of the primary identifier, if exactly one field qualifies.
pub open spec fn primary_identifier_position(fields: Seq<FieldDescriptor>) -> Option<usize> {
    if identifier_positions(fields).len() == 1 {
        Some(identifier_positions(fields)[0])
    } else {
        None
    }
}

proof fn lemma_identifier_positions_grow(fields: Seq<FieldDescriptor>, a: nat, b: nat)
    requires
        a <= b <= fields.len(),
    ensures
        identifier_positions_upto(fields, a).len() <= identifier_positions_upto(fields, b).len(),
        identifier_positions_upto(fields, a).len() > 0 ==> identifier_positions_upto(fields, b)[0]
            == identifier_positions_upto(fields, a)[0],
    decreases b - a,
{
    if a < b {
        lemma_identifier_positions_grow(fields, a, (b - 1) as nat);
    }
}

/// Whether `f` qualifies as the primary identifier.
pub fn field_is_primary_identifier(f: &FieldDescriptor) -> (r: bool)
    ensures
        r == is_primary_identifier(*f),
{
    f.primary_key && match &f.identifier_options {
        Some(o) => o.foreign_key.is_none(),
        None => false,
    }
}

/// Finds the primary identifier of an entity: `None` when no field
/// qualifies, the position of the field when one does, and an error when
/// several do.
pub fn find_primary_identifier(fields: &Vec<FieldDescriptor>) -> (r: Result<Option<usize>, CompileError>)
    ensures
        r is Err <==> identifier_positions(fields@).len() > 1,
        r matches Err(e) ==> e == CompileError::AmbiguousPrimaryIdentifier,
        r matches Ok(p) ==> p == primary_identifier_position(fields@),
{
    let mut found: Option<usize> = None;
    let mut i: usize = 0;
    while i < fields.len()
        invariant
            i <= fields@.len(),
            identifier_positions_upto(fields@, i as nat).len() <= 1,
            found is None <==> identifier_positions_upto(fields@, i as nat).len() == 0,
            found matches Some(p) ==> p == identifier_positions_upto(fields@, i as nat)[0],
        decreases fields@.len() - i,
    {
        if field_is_primary_identifier(&fields[i]) {
            if found.is_some() {
                proof {
                    lemma_identifier_positions_grow(fields@, (i + 1) as nat, fields@.len());
                }
                return Err(CompileError::AmbiguousPrimaryIdentifier);
            }
            found = Some(i);
        }
        i += 1;
    }
    Ok(found)
}

/// The positions of the primary-key fields, in declaration order.
pub fn primary_key_indices(fields: &Vec<FieldDescriptor>) -> (r: Vec<usize>)
    ensures
        r@ == key_positions(fields@),
{
    let mut out: Vec<usize> = Vec::new();
    let mut i: usize = 0;
    while i < fields.len()
        invariant
            i <= fields@.len(),
            out@ == key_positions_upto(fields@, i as nat),
        decreases fields@.len() - i,
    {
        if fields[i].primary_key {
            out.push(i);
        }
        i += 1;
    }
    out
}

/// The primary-key indices are the positions of exactly the primary-key
/// fields, each once, in declaration order.
pub proof fn lemma_primary_key_indices(fields: Seq<FieldDescriptor>)
    requires
        fields.len() <= usize::MAX,
    ensures
        forall|k: int| 0 <= k < key_positions(fields).len() ==> {
            &&& #[trigger] key_positions(fields)[k] < fields.len()
            &&& fields[key_positions(fields)[k] as int].primary_key
        },
        forall|k1: int, k2: int| 0 <= k1 < k2 < key_positions(fields).len()
            ==> #[trigger] key_positions(fields)[k1] < #[trigger] key_positions(fields)[k2],
        forall|i: int| 0 <= i < fields.len() && #[trigger] fields[i].primary_key
            ==> exists|k: int| 0 <= k < key_positions(fields).len() && key_positions(fields)[k] == i,
{
    lemma_key_positions_upto(fields, fields.len());
}

proof fn lemma_key_positions_upto(fields: Seq<FieldDescriptor>, n: nat)
    requires
        n <= fields.len(),
        n <= usize::MAX,
    ensures
        forall|k: int| 0 <= k < key_positions_upto(fields, n).len() ==> {
            &&& #[trigger] key_positions_upto(fields, n)[k] < n
            &&& fields[key_positions_upto(fields, n)[k] as int].primary_key
        },
        forall|k1: int, k2: int| 0 <= k1 < k2 < key_positions_upto(fields, n).len()
            ==> #[trigger] key_positions_upto(fields, n)[k1] < #[trigger] key_positions_upto(fields, n)[k2],
        forall|i: int| 0 <= i < n && #[trigger] fields[i].primary_key
            ==> exists|k: int| 0 <= k < key_positions_upto(fields, n).len() && key_positions_upto(fields, n)[k] == i,
    decreases n,
{
    if n > 0 {
        lemma_key_positions_upto(fields, (n - 1) as nat);
        let prev = key_positions_upto(fields, (n - 1) as nat);
        let cur = key_positions_upto(fields, n);
        if fields[n - 1].primary_key {
            assert(cur == prev.push((n - 1) as usize));
            assert(cur[prev.len() as int] == n - 1);
        } else {
            assert(cur == prev);
        }
        assert forall|k: int| 0 <= k < cur.len() implies cur[k] < n && fields[cur[k] as int].primary_key by {
            if k < prev.len() {
                assert(cur[k] == prev[k]);
                assert(prev[k] < n - 1);
            }
        }
        assert forall|k1: int, k2: int| 0 <= k1 < k2 < cur.len() implies cur[k1] < cur[k2] by {
            if k2 < prev.len() {
                assert(cur[k1] == prev[k1] && cur[k2] == prev[k2]);
            } else {
                assert(cur[k1] == prev[k1]);
                assert(prev[k1] < n - 1);
            }
        }
        assert forall|i: int| 0 <= i < n && #[trigger] fields[i].primary_key implies exists|k: int|
            0 <= k < cur.len() && cur[k] == i by {
            if i < n - 1 {
                let k = choose|k: int| 0 <= k < prev.len() && prev[k] == i;
                assert(cur[k] == prev[k]);
            } else {
                assert(cur[prev.len() as int] == i);
            }
        }
    }
}

/// The positions that qualify as primary identifier are those of exactly
/// the fields that qualify, in declaration order.
pub proof fn lemma_identifier_positions(fields: Seq<FieldDescriptor>)
    requires
        fields.len() <= usize::MAX,
    ensures
        forall|k: int| 0 <= k < identifier_positions(fields).len() ==> {
            &&& #[trigger] identifier_positions(fields)[k] < fields.len()
            &&& is_primary_identifier(fields[identifier_positions(fields)[k] as int])
        },
        forall|k1: int, k2: int| 0 <= k1 < k2 < identifier_positions(fields).len()
            ==> #[trigger] identifier_positions(fields)[k1] < #[trigger] identifier_positions(fields)[k2],
        forall|i: int| 0 <= i < fields.len() && is_primary_identifier(#[trigger] fields[i])
            ==> exists|k: int| 0 <= k < identifier_positions(fields).len() && identifier_positions(fields)[k] == i,
{
    lemma_identifier_positions_upto(fields, fields.len());
    let ps = identifier_positions(fields);
    assert forall|i: int| 0 <= i < fields.len() && is_primary_identifier(#[trigger] fields[i]) implies exists|k: int|
        0 <= k < ps.len() && ps[k] == i by {
        let k = choose|k: int| 0 <= k < ps.len() && ps[k] == i;
        assert(ps[k] == i);
    }
}

proof fn lemma_identifier_positions_upto(fields: Seq<FieldDescriptor>, n: nat)
    requires
        n <= fields.len(),
        n <= usize::MAX,
    ensures
        forall|k: int| 0 <= k < identifier_positions_upto(fields, n).len() ==> {
            &&& #[trigger] identifier_positions_upto(fields, n)[k] < n
            &&& is_primary_identifier(fields[identifier_positions_upto(fields, n)[k] as int])
        },
        forall|k1: int, k2: int| 0 <= k1 < k2 < identifier_positions_upto(fields, n).len()
            ==> #[trigger] identifier_positions_upto(fields, n)[k1] < #[trigger] identifier_positions_upto(fields, n)[k2],
        forall|i: int| 0 <= i < n && is_primary_identifier(#[trigger] fields[i])
            ==> exists|k: int| 0 <= k < identifier_positions_upto(fields, n).len() && identifier_positions_upto(fields, n)[k] == i,
    decreases n,
{
    if n > 0 {
        lemma_identifier_positions_upto(fields, (n - 1) as nat);
        let prev = identifier_positions_upto(fields, (n - 1) as nat);
        let cur = identifier_positions_upto(fields, n);
        if is_primary_identifier(fields[n - 1]) {
            assert(cur == prev.push((n - 1) as usize));
            assert(cur[prev.len() as int] == n - 1);
        } else {
            assert(cur == prev);
        }
        assert forall|k: int| 0 <= k < cur.len() implies cur[k] < n && is_primary_identifier(
            fields[cur[k] as int],
        ) by {
            if k < prev.len() {
                assert(cur[k] == prev[k]);
                assert(prev[k] < n - 1);
            }
        }
        assert forall|k1: int, k2: int| 0 <= k1 < k2 < cur.len() implies cur[k1] < cur[k2] by {
            if k2 < prev.len() {
                assert(cur[k1] == prev[k1] && cur[k2] == prev[k2]);
            } else {
                assert(cur[k1] == prev[k1]);
                assert(prev[k1] < n - 1);
            }
        }
        assert forall|i: int| 0 <= i < n && is_primary_identifier(#[trigger] fields[i]) implies exists|k: int|
            0 <= k < cur.len() && cur[k] == i by {
            if i < n - 1 {
                let k = choose|k: int| 0 <= k < prev.len() && prev[k] == i;
                assert(cur[k] == prev[k]);
            } else {
                assert(cur[prev.len() as int] == i);
            }
        }
    }
}

} // verus!
