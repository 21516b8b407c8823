//! What a lookup came back with, and what a resolution reports for it.

use vstd::prelude::*;
use crate::module_type::{calc_module_type, classify};
use crate::paths::{extension_of, file_name_of, path_extension, path_file_name};
use crate::text::same_text;
use crate::types::{ModuleType, ResolveReturn, ResolvedPath};

verus! {

/// What the engine found, as far as a resolution reads it. A path is `None`
/// where it is not valid text.
#[derive(Debug)]
pub struct Resolved {
    /// The file, without query and fragment.
    pub path: Option<String>,
    /// The file, with the query and the fragment of the specifier.
    pub full_path: Option<String>,
    /// The `"type"` of the nearest `package.json`, where there is such a
    /// manifest and its `"type"` is a string.
    pub manifest_type: Option<String>,
}

/// Why a lookup found no file to load.
#[derive(Clone, Copy, Debug, PartialEq, Eq, Structural)]
pub enum ErrorKind {
    /// No file matches the specifier.
    NotFound,
    /// A package's `exports` or `imports` gives the specifier no target
    /// under the conditions in use.
    NotExported,
    /// A tsconfig file or a package's `exports` is not usable as configured.
    InvalidConfiguration,
    /// A governing `package.json` is not valid JSON.
    ManifestJson,
    /// The file found lies outside what the configuration allows.
    Restricted,
    Other,
}

/// Why the engine found no file: one variant for each kind of error the
/// engine has, and `Unlisted` for a kind it may yet get. A path is `None`
/// where it is not valid text.
#[derive(Debug)]
pub enum EngineFailure {
    /// A manifest maps the specifier to "do not load"; the path is the one
    /// that the specifier was mapped from.
    Ignored(Option<String>),
    NotFound,
    MatchedAliasNotFound,
    TsconfigNotFound,
    TsconfigSelfReference,
    IOError,
    Builtin,
    ExtensionAlias,
    Specifier,
    /// A file is not valid JSON; the path is that file's.
    JSON(Option<String>),
    Restriction,
    InvalidModuleSpecifier,
    InvalidPackageTarget,
    PackagePathNotExported,
    InvalidPackageConfig,
    InvalidPackageConfigDefault,
    InvalidPackageConfigDirectory,
    PackageImportNotDefined,
    Unimplemented,
    Recursion,
    Unlisted,
}

/// The outcome of one lookup.
#[derive(Debug)]
pub enum Outcome {
    Found(Resolved),
    Failed(EngineFailure, oxc_resolver::ResolveError),
}

/// The name of the file that describes a package.
pub open spec fn manifest_file_name() -> Seq<char> {
    "package.json"@
}

/// The kind of a failure. A file that is not valid JSON is a manifest
/// where its name is that of a package's manifest, and part of the
/// configuration otherwise; where its path is not valid text, its kind is
/// not known.
pub open spec fn error_kind(failure: EngineFailure) -> ErrorKind {
    match failure {
        EngineFailure::NotFound
        | EngineFailure::MatchedAliasNotFound
        | EngineFailure::ExtensionAlias => ErrorKind::NotFound,
        EngineFailure::PackagePathNotExported
        | EngineFailure::PackageImportNotDefined => ErrorKind::NotExported,
        EngineFailure::TsconfigNotFound
        | EngineFailure::TsconfigSelfReference
        | EngineFailure::InvalidPackageTarget
        | EngineFailure::InvalidPackageConfig
        | EngineFailure::InvalidPackageConfigDefault
        | EngineFailure::InvalidPackageConfigDirectory => ErrorKind::InvalidConfiguration,
        EngineFailure::JSON(Some(path)) => if path_file_name(path@) == Some(manifest_file_name()) {
            ErrorKind::ManifestJson
        } else {
            ErrorKind::InvalidConfiguration
        },
        EngineFailure::Restriction => ErrorKind::Restricted,
        _ => ErrorKind::Other,
    }
}

/// Tells the kind of a failure.
pub fn classify_failure(failure: &EngineFailure) -> (kind: ErrorKind)
    ensures
        kind == error_kind(*failure),
{
    match failure {
        EngineFailure::NotFound
        | EngineFailure::MatchedAliasNotFound
        | EngineFailure::ExtensionAlias => ErrorKind::NotFound,
        EngineFailure::PackagePathNotExported
        | EngineFailure::PackageImportNotDefined => ErrorKind::NotExported,
        EngineFailure::TsconfigNotFound
        | EngineFailure::TsconfigSelfReference
        | EngineFailure::InvalidPackageTarget
        | EngineFailure::InvalidPackageConfig
        | EngineFailure::InvalidPackageConfigDefault
        | EngineFailure::InvalidPackageConfigDirectory => ErrorKind::InvalidConfiguration,
        EngineFailure::JSON(Some(path)) => {
            let is_manifest = match file_name_of(path.as_str()) {
                Some(name) => same_text(name.as_str(), "package.json"),
                None => false,
            };
            if is_manifest {
                ErrorKind::ManifestJson
            } else {
                ErrorKind::InvalidConfiguration
            }
        },
        EngineFailure::Restriction => ErrorKind::Restricted,
        _ => ErrorKind::Other,
    }
}

/// A specifier that could not be resolved: the kind of failure, and the
/// engine's own error for the caller to format.
#[derive(Debug)]
pub struct ResolutionError {
    pub kind: ErrorKind,
    pub detail: oxc_resolver::ResolveError,
}

/// A failure that no caller can be expected to handle.
#[derive(Clone, Copy, Debug, PartialEq, Eq, Structural)]
pub enum Unhandleable {
    /// The engine reported a path that is not valid text.
    PathNotText,
}

/// The result of an operation that may fail beyond handling.
pub type UnhandleableResult<T> = Result<T, Unhandleable>;

/// Whether `result` is what a resolution reports for `outcome`.
///
/// A file that was found is a success: its full path, not ignored, with the
/// module type that its extension and its manifest give. An ignored
/// specifier is a success too: the path it was mapped from, marked ignored,
/// of unknown module type. Any other failure is an error that carries the
/// engine's error and the kind that `error_kind` gives it. A path that is
/// not valid text cannot be reported: the resolution fails beyond handling.
pub open spec fn settles_to(
    outcome: Outcome,
    result: UnhandleableResult<Result<ResolveReturn, ResolutionError>>,
) -> bool {
    match outcome {
        Outcome::Found(found) => match (found.path, found.full_path) {
            (Some(path), Some(full_path)) => {
                &&& result matches Ok(Ok(ret))
                &&& ret.path.path@ == full_path@
                &&& !ret.path.ignored
                &&& ret.module_type == classify(
                    path_extension(path@),
                    found.manifest_type.deep_view(),
                )
            },
            _ => result matches Err(Unhandleable::PathNotText),
        },
        Outcome::Failed(EngineFailure::Ignored(Some(path)), _) => {
            &&& result matches Ok(Ok(ret))
            &&& ret.path.path@ == path@
            &&& ret.path.ignored
            &&& ret.module_type == ModuleType::Unknown
        },
        Outcome::Failed(EngineFailure::Ignored(None), _) => result matches Err(
            Unhandleable::PathNotText,
        ),
        Outcome::Failed(failure, detail) => {
            &&& result matches Ok(Err(error))
            &&& error.kind == error_kind(failure)
            &&& error.detail == detail
        },
    }
}

/// Puts a success together.
pub fn build_resolve_ret(path: String, ignored: bool, module_type: ModuleType) -> (ret:
    ResolveReturn)
    ensures
        ret.path.path@ == path@,
        ret.path.ignored == ignored,
        ret.module_type == module_type,
{
    ResolveReturn { path: ResolvedPath { path, ignored }, module_type }
}

/// Reports the outcome of a resolution's last lookup.
pub fn settle(outcome: Outcome) -> (result: UnhandleableResult<
    Result<ResolveReturn, ResolutionError>,
>)
    ensures
        settles_to(outcome, result),
{
    match outcome {
        Outcome::Found(found) => match (found.path, found.full_path) {
            (Some(path), Some(full_path)) => {
                let extension = extension_of(path.as_str());
                let module_type = calc_module_type(&extension, &found.manifest_type);
                Ok(Ok(build_resolve_ret(full_path, false, module_type)))
            },
            _ => Err(Unhandleable::PathNotText),
        },
        Outcome::Failed(EngineFailure::Ignored(Some(path)), _) => Ok(
            Ok(build_resolve_ret(path, true, ModuleType::Unknown)),
        ),
        Outcome::Failed(EngineFailure::Ignored(None), _) => Err(Unhandleable::PathNotText),
        Outcome::Failed(failure, detail) => {
            let kind = classify_failure(&failure);
            Ok(Err(ResolutionError { kind, detail }))
        },
    }
}

/// An ignored specifier whose path is valid text is reported as a success,
/// marked ignored and of unknown module type, and never as an error.
pub proof fn law_ignored_is_success(
    path: String,
    detail: oxc_resolver::ResolveError,
    result: UnhandleableResult<Result<ResolveReturn, ResolutionError>>,
)
    requires
        settles_to(Outcome::Failed(EngineFailure::Ignored(Some(path)), detail), result),
    ensures
        result matches Ok(Ok(ret)) && ret.path.ignored && ret.module_type == ModuleType::Unknown
            && ret.path.path@ == path@,
{
}

/// A success that is marked ignored is of unknown module type, whatever the
/// lookup came back with.
pub proof fn law_ignored_has_unknown_type(
    outcome: Outcome,
    result: UnhandleableResult<Result<ResolveReturn, ResolutionError>>,
)
    requires
        settles_to(outcome, result),
    ensures
        result matches Ok(Ok(ret)) ==> (ret.path.ignored ==> ret.module_type
            == ModuleType::Unknown),
        result matches Ok(Ok(ret)) ==> (ret.path.ignored <==> outcome is Failed),
        result matches Ok(Err(error)) ==> (outcome matches Outcome::Failed(failure, _)
            && failure !is Ignored && error.kind == error_kind(failure)),
{
}

} // verus!
