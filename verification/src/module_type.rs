//! Classification of a resolved file as an ECMAScript or a CommonJS module.

use vstd::prelude::*;
use crate::text::same_text;
use crate::types::ModuleType;

verus! {

/// The module system of a file, given its extension (without the dot) and
/// the value of `"type"` in the nearest `package.json`, where each exists.
/// The extension decides first; the manifest is consulted only for a file
/// that is neither `.mjs` nor `.cjs`.
pub open spec fn classify(extension: Option<Seq<char>>, manifest_type: Option<Seq<char>>) -> ModuleType {
    if extension == Some("mjs"@) {
        ModuleType::EsmMjs
    } else if extension == Some("cjs"@) {
        ModuleType::CJS
    } else if manifest_type == Some("module"@) {
        ModuleType::EsmPackageJson
    } else if manifest_type == Some("commonjs"@) {
        ModuleType::CjsPackageJson
    } else {
        ModuleType::Unknown
    }
}

/// The module type depends on the extension and on the manifest's `"type"`
/// alone. A `.mjs` file is an ECMAScript module and a `.cjs` file a
/// CommonJS module whatever the manifest says; any other file is what its
/// manifest's `"type"` says, `module` or `commonjs`, and unknown where it
/// says neither.
pub proof fn law_classification(extension: Option<Seq<char>>, manifest_type: Option<Seq<char>>)
    ensures
        extension == Some("mjs"@) ==> classify(extension, manifest_type) == ModuleType::EsmMjs,
        extension == Some("cjs"@) ==> classify(extension, manifest_type) == ModuleType::CJS,
        extension != Some("mjs"@) && extension != Some("cjs"@) ==> classify(
            extension,
            manifest_type,
        ) == classify(None, manifest_type),
        classify(None, Some("module"@)) == ModuleType::EsmPackageJson,
        classify(None, Some("commonjs"@)) == ModuleType::CjsPackageJson,
        manifest_type != Some("module"@) && manifest_type != Some("commonjs"@) ==> classify(
            None,
            manifest_type,
        ) == ModuleType::Unknown,
        classify(extension, manifest_type) == ModuleType::Unknown <==> (extension != Some("mjs"@)
            && extension != Some("cjs"@) && manifest_type != Some("module"@) && manifest_type
            != Some("commonjs"@)),
{
    reveal_strlit("mjs");
    reveal_strlit("cjs");
    reveal_strlit("module");
    reveal_strlit("commonjs");
    assert("mjs"@ != "cjs"@) by {
        assert("mjs"@[0] == 'm' && "cjs"@[0] == 'c');
    }
    assert("module"@ != "commonjs"@) by {
        assert("module"@[0] == 'm' && "commonjs"@[0] == 'c');
    }
}

/// Whether an optional string is present and holds exactly `word`.
fn holds(value: &Option<String>, word: &str) -> (yes: bool)
    ensures
        yes == (value.deep_view() == Some(word@)),
{
    match value {
        Some(s) => same_text(s.as_str(), word),
        None => false,
    }
}

/// Classifies a resolved file by its extension and its manifest's `"type"`.
pub fn calc_module_type(extension: &Option<String>, manifest_type: &Option<String>) -> (kind: ModuleType)
    ensures
        kind == classify(extension.deep_view(), manifest_type.deep_view()),
{
    if holds(extension, "mjs") {
        ModuleType::EsmMjs
    } else if holds(extension, "cjs") {
        ModuleType::CJS
    } else if holds(manifest_type, "module") {
        ModuleType::EsmPackageJson
    } else if holds(manifest_type, "commonjs") {
        ModuleType::CjsPackageJson
    } else {
        ModuleType::Unknown
    }
}

} // verus!
