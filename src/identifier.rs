//! The identifier compiler: the wrapper type around the opaque identifier
//! of an entity's rows, and the generator of fresh identifiers.

use vstd::prelude::*;
use crate::naming::{
    identifier_from_name, identifier_generator_from_name, str_upper, table_from_name, uppercase,
};
use crate::schema::{CompileError, FieldDescriptor};

verus! {

/// The description of a generator of fresh identifiers.
#[derive(Clone, Debug)]
pub struct GeneratorArtifact {
    /// The name of the generator type.
    pub type_ident: String,
    /// The prefix of the identifiers it issues: the entity name upper-cased.
    pub id_prefix: String,
}

/// The description of an entity's identifier type.
#[derive(Clone, Debug)]
pub struct IdentifierArtifact {
    /// The name of the identifier type.
    pub type_ident: String,
    /// The name of the table type whose rows it names.
    pub table_ident: String,
    /// The generator, when the primary identifier asks for generated values.
    pub generator: Option<GeneratorArtifact>,
}

pub struct GeneratorModel {
    pub type_ident: Seq<char>,
    pub id_prefix: Seq<char>,
}

pub struct IdentifierModel {
    pub type_ident: Seq<char>,
    pub table_ident: Seq<char>,
    pub generator: Option<GeneratorModel>,
}

impl View for GeneratorArtifact {
    type V = GeneratorModel;

    open spec fn view(&self) -> GeneratorModel {
        GeneratorModel { type_ident: self.type_ident@, id_prefix: self.id_prefix@ }
    }
}

impl View for IdentifierArtifact {
    type V = IdentifierModel;

    open spec fn view(&self) -> IdentifierModel {
        IdentifierModel {
            type_ident: self.type_ident@,
            table_ident: self.table_ident@,
            generator: match self.generator {
                Some(g) => Some(g@),
                None => None,
            },
        }
    }
}

/// The generator of the entity named `target`.
pub open spec fn generator_model(target: Seq<char>) -> GeneratorModel {
    GeneratorModel {
        type_ident: target + "Identifier"@ + "Generator"@,
        id_prefix: str_upper(target),
    }
}

/// The identifier type of the entity named `target`, whose primary
/// identifier is `f`.
pub open spec fn identifier_model(target: Seq<char>, f: FieldDescriptor) -> IdentifierModel {
    IdentifierModel {
        type_ident: target + "Identifier"@,
        table_ident: target + "Table"@,
        generator: if f.identifier_options matches Some(o) && o.generated {
            Some(generator_model(target))
        } else {
            None
        },
    }
}

/// The generator of the entity named `target_name`.
pub fn generate_generator_definition(target_name: &str) -> (r: GeneratorArtifact)
    ensures
        r@ == generator_model(target_name@),
{
    GeneratorArtifact {
        type_ident: identifier_generator_from_name(target_name),
        id_prefix: uppercase(target_name),
    }
}

/// The identifier type of the entity named `target_name`, without generator.
fn generate_identifier_definition(target_name: &str) -> (r: IdentifierArtifact)
    ensures
        r@.type_ident == target_name@ + "Identifier"@,
        r@.table_ident == target_name@ + "Table"@,
        r.generator is None,
{
    IdentifierArtifact {
        type_ident: identifier_from_name(target_name),
        table_ident: table_from_name(target_name),
        generator: None,
    }
}

/// Derives the identifier type of the entity named `target_name` from its
/// primary identifier field, with a generator when that field asks for
/// generated values. The field must carry identifier options.
pub fn generate_identifier_tokens(
    target_name: &str,
    primary_identifier: &FieldDescriptor,
) -> (r: Result<IdentifierArtifact, CompileError>)
    ensures
        r is Err <==> primary_identifier.identifier_options is None,
        r matches Err(e) ==> e == CompileError::InconsistentIdentifierConfiguration,
        r matches Ok(a) ==> a@ == identifier_model(target_name@, *primary_identifier),
{
    let options = match &primary_identifier.identifier_options {
        Some(o) => o,
        None => return Err(CompileError::InconsistentIdentifierConfiguration),
    };
    let mut artifact = generate_identifier_definition(target_name);
    if options.generated {
        artifact.generator = Some(generate_generator_definition(target_name));
    }
    Ok(artifact)
}

} // verus!
