//! The lookup engine of `oxc_resolver`, as far as this library uses it.
//!
//! Engines are built here, and what a lookup came back with is read here
//! into plain values. The lookup itself is not made here: the engine walks
//! the file system, and what it meets there can make it panic, which no
//! demand on a caller could rule out. The caller makes the lookup, with
//! the engine and the arguments that the resolver names.

use oxc_resolver::{
    AliasValue, EnforceExtension, FileSystem, Resolution, ResolveError, ResolverGeneric,
    TsconfigOptions, TsconfigReferences,
};
use vstd::prelude::*;
use crate::options::{
    extensions_well_formed, EngineConfig, ExtensionPolicy, ProjectReferences, Tsconfig,
};
use crate::outcome::{EngineFailure, Outcome, Resolved};

verus! {

/// `oxc_resolver::ResolverGeneric`: an engine on a file system. Nothing of
/// it is read here.
#[verifier::external_type_specification]
#[verifier::external_body]
#[verifier::reject_recursive_types(Fs)]
pub struct ExResolverGeneric<Fs>(oxc_resolver::ResolverGeneric<Fs>);

/// `oxc_resolver::Resolution`: what a lookup found. It is read by
/// `read_resolution` alone.
#[verifier::external_type_specification]
#[verifier::external_body]
pub struct ExResolution(oxc_resolver::Resolution);

/// `oxc_resolver::ResolveError`: why a lookup found nothing. It is read by
/// `read_lookup_failure` and `read_configuration_failure` alone and handed
/// on to the caller as it is.
#[verifier::external_type_specification]
#[verifier::external_body]
pub struct ExResolveError(oxc_resolver::ResolveError);

/// `oxc_resolver::ResolveOptions`: the options an engine is built with.
#[verifier::external_type_specification]
#[verifier::external_body]
pub struct ExEngineOptions(oxc_resolver::ResolveOptions);

/// An `oxc_resolver::ResolveOptions` that holds the lists and the symlink
/// flag of `config`. Every option that a configuration does not speak of
/// is what `ResolveOptions::default` gives. Nothing is claimed of the
/// result.
#[verifier::external_body]
fn list_options(config: &EngineConfig) -> oxc_resolver::ResolveOptions {
    oxc_resolver::ResolveOptions {
        alias_fields: config.alias_fields.clone(),
        condition_names: config.condition_names.clone(),
        description_files: config.description_files.clone(),
        exports_fields: config.exports_fields.clone(),
        imports_fields: config.imports_fields.clone(),
        main_fields: config.main_fields.clone(),
        main_files: config.main_files.clone(),
        modules: config.modules.clone(),
        symlinks: config.symlinks,
        ..oxc_resolver::ResolveOptions::default()
    }
}

/// `ResolveOptions::with_force_extension`: `options` with `policy` as its
/// extension policy. Nothing is claimed of the result.
#[verifier::external_body]
fn with_extension_policy(
    options: oxc_resolver::ResolveOptions,
    policy: ExtensionPolicy,
) -> oxc_resolver::ResolveOptions {
    options.with_force_extension(
        match policy {
            ExtensionPolicy::Auto => EnforceExtension::Auto,
            ExtensionPolicy::Enabled => EnforceExtension::Enabled,
            ExtensionPolicy::Disabled => EnforceExtension::Disabled,
        },
    )
}

/// `options` with `alias` as its alias mapping, each target an
/// `AliasValue::Path`. Nothing is claimed of the result.
#[verifier::external_body]
fn with_alias(
    options: oxc_resolver::ResolveOptions,
    alias: &Vec<(String, Vec<String>)>,
) -> oxc_resolver::ResolveOptions {
    let alias = alias.iter().map(
        |entry| (entry.0.clone(), entry.1.iter().cloned().map(AliasValue::Path).collect()),
    ).collect();
    oxc_resolver::ResolveOptions { alias, ..options }
}

/// `options` with a `TsconfigOptions` made of `tsconfig` as the source of
/// its path mapping. Nothing is claimed of the result.
#[verifier::external_body]
fn with_tsconfig(
    options: oxc_resolver::ResolveOptions,
    tsconfig: &Tsconfig,
) -> oxc_resolver::ResolveOptions {
    let references = match tsconfig.references {
        ProjectReferences::Disabled => TsconfigReferences::Disabled,
        ProjectReferences::Auto => TsconfigReferences::Auto,
    };
    let config_file = tsconfig.config_file.as_str().into();
    oxc_resolver::ResolveOptions {
        tsconfig: Some(TsconfigOptions { config_file, references }),
        ..options
    }
}

/// `ResolverGeneric::new_with_file_system`, with `extensions` as the
/// extension list of `options`. The engine asserts that every extension
/// that is not empty starts with a dot, so no other list is admitted.
/// Nothing is claimed of the engine that is built.
#[verifier::external_body]
fn new_engine<Fs: FileSystem>(
    file_system: Fs,
    options: oxc_resolver::ResolveOptions,
    extensions: &Vec<String>,
) -> (engine: ResolverGeneric<Fs>)
    requires
        extensions_well_formed(extensions.deep_view()),
{
    let options = oxc_resolver::ResolveOptions { extensions: extensions.clone(), ..options };
    ResolverGeneric::new_with_file_system(file_system, options)
}

/// `ResolverGeneric::clone_with_options`, with `extensions` as the
/// extension list of `options`: an engine with these options that shares
/// what `base` has read. The same assertion on extensions is made here.
#[verifier::external_body]
fn derive_engine<Fs: FileSystem>(
    base: &ResolverGeneric<Fs>,
    options: oxc_resolver::ResolveOptions,
    extensions: &Vec<String>,
) -> (engine: ResolverGeneric<Fs>)
    requires
        extensions_well_formed(extensions.deep_view()),
{
    let options = oxc_resolver::ResolveOptions { extensions: extensions.clone(), ..options };
    base.clone_with_options(options)
}

/// What a resolution reads of a `Resolution`: `Resolution::path`,
/// `Resolution::full_path`, and the string under `manifest_key` in
/// `PackageJson::raw_json` of `Resolution::package_json`. The values are
/// handed on as they are; nothing is claimed of them.
#[verifier::external_body]
fn read_resolution(found: &Resolution, manifest_key: &str) -> (read: Resolved) {
    Resolved {
        path: found.path().to_str().map(str::to_owned),
        full_path: found.full_path().to_str().map(str::to_owned),
        manifest_type: found.package_json().and_then(|manifest| manifest.raw_json().get(manifest_key))
            .and_then(|value| value.as_str()).map(str::to_owned),
    }
}

/// Which variant a `ResolveError` is, for the variants that speak of the
/// lookup itself, and the path of `ResolveError::Ignored`; `None` for any
/// other variant. Nothing is claimed of the result.
#[verifier::external_body]
fn read_lookup_failure(error: &ResolveError) -> (read: Option<EngineFailure>) {
    match error {
        ResolveError::Ignored(p) => Some(EngineFailure::Ignored(p.to_str().map(str::to_owned))),
        ResolveError::NotFound(_) => Some(EngineFailure::NotFound),
        ResolveError::MatchedAliasNotFound(..) => Some(EngineFailure::MatchedAliasNotFound),
        ResolveError::IOError(_) => Some(EngineFailure::IOError),
        ResolveError::Builtin(_) => Some(EngineFailure::Builtin),
        ResolveError::ExtensionAlias(..) => Some(EngineFailure::ExtensionAlias),
        ResolveError::Specifier(_) => Some(EngineFailure::Specifier),
        ResolveError::Restriction(..) => Some(EngineFailure::Restriction),
        ResolveError::Unimplemented(_) => Some(EngineFailure::Unimplemented),
        ResolveError::Recursion => Some(EngineFailure::Recursion),
        _ => None,
    }
}

/// Which variant a `ResolveError` is, for the variants that speak of a
/// tsconfig file, of a file that is not valid JSON (with the `path` of
/// its `JSONError`) or of a package's manifest; `None` for any other
/// variant. Nothing is claimed of the result.
#[verifier::external_body]
fn read_configuration_failure(error: &ResolveError) -> (read: Option<EngineFailure>) {
    match error {
        ResolveError::TsconfigNotFound(_) => Some(EngineFailure::TsconfigNotFound),
        ResolveError::TsconfigSelfReference(_) => Some(EngineFailure::TsconfigSelfReference),
        ResolveError::JSON(e) => Some(EngineFailure::JSON(e.path.to_str().map(str::to_owned))),
        ResolveError::InvalidModuleSpecifier(..) => Some(EngineFailure::InvalidModuleSpecifier),
        ResolveError::InvalidPackageTarget(..) => Some(EngineFailure::InvalidPackageTarget),
        ResolveError::PackagePathNotExported(..) => Some(EngineFailure::PackagePathNotExported),
        ResolveError::InvalidPackageConfig(_) => Some(EngineFailure::InvalidPackageConfig),
        ResolveError::InvalidPackageConfigDefault(_) => Some(EngineFailure::InvalidPackageConfigDefault),
        ResolveError::InvalidPackageConfigDirectory(_) => Some(EngineFailure::InvalidPackageConfigDirectory),
        ResolveError::PackageImportNotDefined(..) => Some(EngineFailure::PackageImportNotDefined),
        _ => None,
    }
}

/// The engine's options for a configuration, but for its extensions.
fn engine_options(config: &EngineConfig) -> oxc_resolver::ResolveOptions {
    let options = with_extension_policy(list_options(config), config.enforce_extension);
    let options = with_alias(options, &config.alias);
    match &config.tsconfig {
        Some(tsconfig) => with_tsconfig(options, tsconfig),
        None => options,
    }
}

/// Builds the first engine of a resolver on a file system.
pub(crate) fn build_engine<Fs: FileSystem>(file_system: Fs, config: &EngineConfig) -> (engine:
    ResolverGeneric<Fs>)
    requires
        extensions_well_formed(config@.extensions),
{
    new_engine(file_system, engine_options(config), &config.extensions)
}

/// Builds a further engine that shares what `base` has read.
pub(crate) fn build_derived_engine<Fs: FileSystem>(
    base: &ResolverGeneric<Fs>,
    config: &EngineConfig,
) -> (engine: ResolverGeneric<Fs>)
    requires
        extensions_well_formed(config@.extensions),
{
    derive_engine(base, engine_options(config), &config.extensions)
}

/// Reads what a lookup of the engine came back with.
///
/// A `Resolution` is read as a file that was found, a `ResolveError` as a
/// failure that carries the error itself. What is read of either is the
/// engine's to say.
pub fn read_outcome(found: Result<Resolution, ResolveError>) -> (outcome: Outcome)
    ensures
        found is Ok <==> outcome is Found,
        found matches Err(error) ==> outcome matches Outcome::Failed(_, detail) && detail == error,
{
    match found {
        Ok(found) => Outcome::Found(read_resolution(&found, "type")),
        Err(error) => {
            let failure = match read_lookup_failure(&error) {
                Some(failure) => failure,
                None => match read_configuration_failure(&error) {
                    Some(failure) => failure,
                    None => EngineFailure::Unlisted,
                },
            };
            Outcome::Failed(failure, error)
        },
    }
}

} // verus!
