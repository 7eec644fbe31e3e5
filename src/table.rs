//! The table compiler: the per-column schema of an entity and the
//! description of its table type.

use vstd::prelude::*;
use crate::category::{category_named, resolve_category, storage_width, width_for, ColumnWidth};
use crate::naming::{
    dao_from_name, identifier_generator_from_name, inner_split_succeeds, pascal_case,
    snake_case_to_pascal_case, table_from_name,
};
use crate::schema::{
    key_positions, primary_key_indices, CompileError, FieldDescriptor,
};

verus! {

/// A link from a column to a column of another entity's table.
#[derive(Clone, Debug)]
pub struct ForeignKey {
    /// The referenced entity.
    pub table: String,
    /// The referenced column's position.
    pub column: usize,
}

/// The schema of one column.
#[derive(Debug)]
pub struct ColumnSpec {
    pub name: String,
    pub category: msi::Category,
    pub width: ColumnWidth,
    pub primary_key: bool,
    pub nullable: bool,
    pub localizable: bool,
    pub foreign_key: Option<ForeignKey>,
}

pub struct ColumnModel {
    pub name: Seq<char>,
    pub category: msi::Category,
    pub width: ColumnWidth,
    pub primary_key: bool,
    pub nullable: bool,
    pub localizable: bool,
    /// The referenced entity and column.
    pub foreign_key: Option<(Seq<char>, usize)>,
}

impl View for ColumnSpec {
    type V = ColumnModel;

    open spec fn view(&self) -> ColumnModel {
        ColumnModel {
            name: self.name@,
            category: self.category,
            width: self.width,
            primary_key: self.primary_key,
            nullable: self.nullable,
            localizable: self.localizable,
            foreign_key: match self.foreign_key {
                Some(k) => Some((k.table@, k.column)),
                None => None,
            },
        }
    }
}

/// The description of an entity's table type.
#[derive(Debug)]
pub struct TableArtifact {
    /// The name of the table type.
    pub type_ident: String,
    /// The entity's display name.
    pub name: String,
    /// The type of the rows.
    pub dao_type: String,
    /// The type of the identifier generator the table owns, if any.
    pub generator_type: Option<String>,
    pub primary_key_indices: Vec<usize>,
    pub columns: Vec<ColumnSpec>,
}

pub struct TableModel {
    pub type_ident: Seq<char>,
    pub name: Seq<char>,
    pub dao_type: Seq<char>,
    pub generator_type: Option<Seq<char>>,
    pub primary_key_indices: Seq<usize>,
    pub columns: Seq<ColumnModel>,
}

pub open spec fn columns_view(cs: Seq<ColumnSpec>) -> Seq<ColumnModel> {
    cs.map_values(|c: ColumnSpec| c@)
}

impl View for TableArtifact {
    type V = TableModel;

    open spec fn view(&self) -> TableModel {
        TableModel {
            type_ident: self.type_ident@,
            name: self.name@,
            dao_type: self.dao_type@,
            generator_type: match self.generator_type {
                Some(g) => Some(g@),
                None => None,
            },
            primary_key_indices: self.primary_key_indices@,
            columns: columns_view(self.columns@),
        }
    }
}

/// The column name of a field: its override, else its name in Pascal case.
pub open spec fn column_name_of(f: FieldDescriptor) -> Seq<char> {
    match f.column_name {
        Some(n) => n@,
        None => pascal_case(f.name@),
    }
}

/// The referenced entity of a field, linked to the first column of that
/// entity's table.
pub open spec fn foreign_key_of(f: FieldDescriptor) -> Option<(Seq<char>, usize)> {
    match f.identifier_options {
        Some(o) => match o.foreign_key {
            Some(t) => Some((t@, 0usize)),
            None => None,
        },
        None => None,
    }
}

/// What stops the column of field `f`, at position `i`, from compiling.
pub open spec fn field_error(f: FieldDescriptor, i: usize) -> Option<CompileError> {
    if f.column_name is None && !inner_split_succeeds(f.name@) {
        Some(CompileError::InvalidColumnName { field: i })
    } else if category_named(f.category@) is None {
        Some(CompileError::InvalidCategory { field: i })
    } else if width_for(category_named(f.category@)->0, f.length) is None {
        Some(CompileError::MissingLength { field: i })
    } else {
        None
    }
}

/// The first error among the first `n` fields, in declaration order.
pub open spec fn first_field_error_upto(fields: Seq<FieldDescriptor>, n: nat) -> Option<CompileError>
    decreases n,
{
    if n == 0 {
        None
    } else {
        match first_field_error_upto(fields, (n - 1) as nat) {
            Some(e) => Some(e),
            None => field_error(fields[n - 1], (n - 1) as usize),
        }
    }
}

/// The first error among the fields, in declaration order.
pub open spec fn first_field_error(fields: Seq<FieldDescriptor>) -> Option<CompileError> {
    first_field_error_upto(fields, fields.len())
}

/// The column of a field that compiles.
pub open spec fn column_model(f: FieldDescriptor) -> ColumnModel {
    let c = category_named(f.category@)->0;
    ColumnModel {
        name: column_name_of(f),
        category: c,
        width: width_for(c, f.length)->0,
        primary_key: f.primary_key,
        nullable: f.optional,
        localizable: f.localizable,
        foreign_key: foreign_key_of(f),
    }
}

/// The columns of the first `n` fields.
pub open spec fn column_models_upto(fields: Seq<FieldDescriptor>, n: nat) -> Seq<ColumnModel>
    decreases n,
{
    if n == 0 {
        seq![]
    } else {
        column_models_upto(fields, (n - 1) as nat).push(column_model(fields[n - 1]))
    }
}

/// The columns of the fields, in declaration order.
pub open spec fn column_models(fields: Seq<FieldDescriptor>) -> Seq<ColumnModel> {
    column_models_upto(fields, fields.len())
}

/// The table of an entity named `target` whose fields compile; the table owns
/// a generator when its primary identifier asks for generated values.
pub open spec fn table_model(
    target: Seq<char>,
    primary_identifier: Option<FieldDescriptor>,
    fields: Seq<FieldDescriptor>,
) -> TableModel {
    TableModel {
        type_ident: target + "Table"@,
        name: target,
        dao_type: target + "Dao"@,
        generator_type: match primary_identifier {
            Some(p) => if p.identifier_options matches Some(o) && o.generated {
                Some(target + "Identifier"@ + "Generator"@)
            } else {
                None
            },
            None => None,
        },
        primary_key_indices: key_positions(fields),
        columns: column_models(fields),
    }
}

/// The category and width of the column of field `f`, at position `index`:
/// an error when the category is unknown, or stores strings and the field
/// declares no length.
pub fn generate_finish_build_for_field(f: &FieldDescriptor, index: usize) -> (r: Result<
    (msi::Category, ColumnWidth),
    CompileError,
>)
    ensures
        r matches Ok((c, w)) ==> category_named(f.category@) == Some(c) && width_for(c, f.length)
            == Some(w),
        r is Err <==> category_named(f.category@) is None || width_for(
            category_named(f.category@)->0,
            f.length,
        ) is None,
        r matches Err(e) ==> e == if category_named(f.category@) is None {
            CompileError::InvalidCategory { field: index }
        } else {
            CompileError::MissingLength { field: index }
        },
{
    let category = match resolve_category(f.category.as_str()) {
        Some(c) => c,
        None => return Err(CompileError::InvalidCategory { field: index }),
    };
    match storage_width(category, f.length) {
        Some(w) => Ok((category, w)),
        None => Err(CompileError::MissingLength { field: index }),
    }
}

/// The column of field `f`, at position `index`.
pub fn generate_column(f: &FieldDescriptor, index: usize) -> (r: Result<ColumnSpec, CompileError>)
    ensures
        r is Err <==> field_error(*f, index) is Some,
        r matches Err(e) ==> field_error(*f, index) == Some(e),
        r matches Ok(c) ==> c@ == column_model(*f),
{
    let name = match &f.column_name {
        Some(n) => n.clone(),
        None => match snake_case_to_pascal_case(f.name.as_str()) {
            Some(n) => n,
            None => return Err(CompileError::InvalidColumnName { field: index }),
        },
    };
    let (category, width) = match generate_finish_build_for_field(f, index) {
        Ok(cw) => cw,
        Err(e) => return Err(e),
    };
    let foreign_key = match &f.identifier_options {
        Some(o) => match &o.foreign_key {
            Some(t) => Some(ForeignKey { table: t.clone(), column: 0 }),
            None => None,
        },
        None => None,
    };
    Ok(ColumnSpec {
        name,
        category,
        width,
        primary_key: f.primary_key,
        nullable: f.optional,
        localizable: f.localizable,
        foreign_key,
    })
}

/// The columns of an entity, one per field in declaration order; the error
/// of the first field that does not compile otherwise.
pub fn generate_columns(fields: &Vec<FieldDescriptor>) -> (r: Result<Vec<ColumnSpec>, CompileError>)
    ensures
        r is Err <==> first_field_error(fields@) is Some,
        r matches Err(e) ==> first_field_error(fields@) == Some(e),
        r matches Ok(cs) ==> columns_view(cs@) == column_models(fields@),
{
    let mut out: Vec<ColumnSpec> = Vec::new();
    let mut i: usize = 0;
    while i < fields.len()
        invariant
            i <= fields@.len(),
            first_field_error_upto(fields@, i as nat) is None,
            columns_view(out@) == column_models_upto(fields@, i as nat),
        decreases fields@.len() - i,
    {
        match generate_column(&fields[i], i) {
            Ok(c) => {
                out.push(c);
                proof {
                    assert(columns_view(out@) =~= column_models_upto(fields@, (i + 1) as nat));
                }
            },
            Err(e) => {
                proof {
                    lemma_first_error_sticks(fields@, (i + 1) as nat, fields@.len());
                }
                return Err(e);
            },
        }
        i += 1;
    }
    Ok(out)
}

proof fn lemma_first_error_sticks(fields: Seq<FieldDescriptor>, a: nat, b: nat)
    requires
        a <= b <= fields.len(),
        first_field_error_upto(fields, a) is Some,
    ensures
        first_field_error_upto(fields, b) == first_field_error_upto(fields, a),
    decreases b - a,
{
    if a < b {
        lemma_first_error_sticks(fields, a, (b - 1) as nat);
    }
}

/// Derives the table type of the entity named `target_name`: its name, the
/// type of its rows, the generator it owns when `primary_identifier` asks
/// for generated values, its primary-key positions and its columns.
pub fn generate_table_tokens(
    target_name: &str,
    primary_identifier: Option<&FieldDescriptor>,
    fields: &Vec<FieldDescriptor>,
) -> (r: Result<TableArtifact, CompileError>)
    ensures
        r is Err <==> first_field_error(fields@) is Some,
        r matches Err(e) ==> first_field_error(fields@) == Some(e),
        r matches Ok(t) ==> t@ == table_model(
            target_name@,
            match primary_identifier {
                Some(p) => Some(*p),
                None => None,
            },
            fields@,
        ),
{
    let columns = match generate_columns(fields) {
        Ok(cs) => cs,
        Err(e) => return Err(e),
    };
    let generator_type = match primary_identifier {
        Some(p) => match &p.identifier_options {
            Some(o) => if o.generated {
                Some(identifier_generator_from_name(target_name))
            } else {
                None
            },
            None => None,
        },
        None => None,
    };
    Ok(TableArtifact {
        type_ident: table_from_name(target_name),
        name: String::from_str(target_name),
        dao_type: dao_from_name(target_name),
        generator_type,
        primary_key_indices: primary_key_indices(fields),
        columns,
    })
}

proof fn lemma_column_models_upto(fields: Seq<FieldDescriptor>, n: nat)
    requires
        n <= fields.len(),
    ensures
        column_models_upto(fields, n).len() == n,
        forall|i: int| 0 <= i < n ==> #[trigger] column_models_upto(fields, n)[i] == column_model(fields[i]),
    decreases n,
{
    if n > 0 {
        lemma_column_models_upto(fields, (n - 1) as nat);
    }
}

proof fn lemma_first_field_error_upto(fields: Seq<FieldDescriptor>, n: nat)
    requires
        n <= fields.len(),
        n <= usize::MAX,
    ensures
        first_field_error_upto(fields, n) is None <==> forall|i: int| 0 <= i < n ==> (#[trigger] field_error(fields[i], i as usize)) is None,
    decreases n,
{
    if n > 0 {
        lemma_first_field_error_upto(fields, (n - 1) as nat);
        if first_field_error_upto(fields, (n - 1) as nat) is Some {
            let i = choose|i: int| 0 <= i < n - 1 && (#[trigger] field_error(fields[i], i as usize)) is Some;
            assert(field_error(fields[i], i as usize) is Some);
        }
    }
}

/// Each column is nullable exactly when its field's value type is
/// optional-wrapped.
pub proof fn lemma_nullability(fields: Seq<FieldDescriptor>)
    ensures
        column_models(fields).len() == fields.len(),
        forall|i: int| 0 <= i < fields.len() ==> #[trigger] column_models(fields)[i].nullable == fields[i].optional,
{
    lemma_column_models_upto(fields, fields.len());
}

/// A column of an integer category is a 16-bit integer, one of a
/// double-integer category a 32-bit integer, and any other a string of the
/// length its field declares. A field whose category is unknown, or stores
/// strings without a declared length, stops compilation.
pub proof fn lemma_category_width(fields: Seq<FieldDescriptor>)
    requires
        fields.len() <= usize::MAX,
    ensures
        first_field_error(fields) is None ==> forall|i: int| 0 <= i < fields.len() ==> {
            let c = category_named(fields[i].category@);
            let w = (#[trigger] column_models(fields)[i]).width;
            &&& c is Some
            &&& c == Some(msi::Category::Integer) ==> w == ColumnWidth::Int16
            &&& c == Some(msi::Category::DoubleInteger) ==> w == ColumnWidth::Int32
            &&& c != Some(msi::Category::Integer) && c != Some(msi::Category::DoubleInteger)
                ==> fields[i].length is Some && w == ColumnWidth::Text(fields[i].length->0)
        },
        forall|i: int| 0 <= i < fields.len() && (#[trigger] category_named(fields[i].category@)) is None
            ==> first_field_error(fields) is Some,
        forall|i: int| 0 <= i < fields.len() && fields[i].length is None
            && (#[trigger] category_named(fields[i].category@)) != Some(msi::Category::Integer)
            && category_named(fields[i].category@) != Some(msi::Category::DoubleInteger)
            ==> first_field_error(fields) is Some,
{
    lemma_column_models_upto(fields, fields.len());
    lemma_first_field_error_upto(fields, fields.len());
    assert forall|i: int| 0 <= i < fields.len() && (#[trigger] category_named(fields[i].category@)) is None
        implies first_field_error(fields) is Some by {
        assert(field_error(fields[i], i as usize) is Some);
    }
    assert forall|i: int| 0 <= i < fields.len() && fields[i].length is None
        && (#[trigger] category_named(fields[i].category@)) != Some(msi::Category::Integer)
        && category_named(fields[i].category@) != Some(msi::Category::DoubleInteger)
        implies first_field_error(fields) is Some by {
        assert(field_error(fields[i], i as usize) is Some);
    }
    if first_field_error(fields) is None {
        assert forall|i: int| 0 <= i < fields.len() implies category_named(fields[i].category@) is Some by {
            assert(field_error(fields[i], i as usize) is None);
        }
    }
}

} // verus!
