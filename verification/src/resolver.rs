//! The resolver: three engines that share one configuration but for their
//! condition lists, and the working directory that entry points are
//! resolved against.

use oxc_resolver::{FileSystem, ResolverGeneric};
use vstd::prelude::*;
use crate::attempts::{
    attempt_view, first_attempt, follows, next_step, plan_first_attempt, Attempt, ConditionSet,
    Stage, Step,
};
use crate::conditions::{import_conditions, require_conditions};
use crate::engine::{build_derived_engine, build_engine};
use crate::options::{
    base_config, extensions_well_formed, normalize_options, with_condition_names, EngineConfig,
    EngineConfigView, EngineConfigs,
};
use crate::outcome::Outcome;
use crate::paths::path_parent;
use crate::types::{Platform, RawResolveOptions};

verus! {

/// What specifiers are resolved with: the engines, one for each condition
/// list, and the working directory. Nothing in a resolver changes once it
/// is built, so one resolver serves any number of resolutions.
#[derive(Debug)]
#[verifier::reject_recursive_types(Fs)]
pub struct Resolver<Fs> {
    cwd: String,
    configs: EngineConfigs,
    default_resolver: ResolverGeneric<Fs>,
    import_resolver: ResolverGeneric<Fs>,
    require_resolver: ResolverGeneric<Fs>,
}

impl<Fs> Resolver<Fs> {
    /// What holds of every resolver that `new` builds: the import and the
    /// require configuration are the default one with their own condition
    /// lists, and every extension has its dot.
    pub closed spec fn well_formed(&self) -> bool {
        let base = self.configs.default_config@;
        &&& self.configs.import_config@ == with_condition_names(
            base,
            import_conditions(base.condition_names),
        )
        &&& self.configs.require_config@ == with_condition_names(
            base,
            require_conditions(base.condition_names),
        )
        &&& extensions_well_formed(base.extensions)
    }

    /// The working directory, by its characters.
    pub closed spec fn working_directory(&self) -> Seq<char> {
        self.cwd@
    }

    /// The configuration of the engine that a condition list governs.
    pub closed spec fn config_view(&self, set: ConditionSet) -> EngineConfigView {
        match set {
            ConditionSet::Default => self.configs.default_config@,
            ConditionSet::Import => self.configs.import_config@,
            ConditionSet::Require => self.configs.require_config@,
        }
    }

    /// The engine that a condition list governs.
    pub closed spec fn engine_of(&self, set: ConditionSet) -> ResolverGeneric<Fs> {
        match set {
            ConditionSet::Default => self.default_resolver,
            ConditionSet::Import => self.import_resolver,
            ConditionSet::Require => self.require_resolver,
        }
    }

    /// In every resolver the three configurations differ in their condition
    /// lists alone: the import and the require list are derived from the
    /// default list, all else is the default configuration's.
    pub proof fn law_configurations_agree(&self)
        requires
            self.well_formed(),
        ensures
            self.config_view(ConditionSet::Import) == with_condition_names(
                self.config_view(ConditionSet::Default),
                import_conditions(self.config_view(ConditionSet::Default).condition_names),
            ),
            self.config_view(ConditionSet::Require) == with_condition_names(
                self.config_view(ConditionSet::Default),
                require_conditions(self.config_view(ConditionSet::Default).condition_names),
            ),
            extensions_well_formed(self.config_view(ConditionSet::Default).extensions),
    {
    }
}

impl<Fs: FileSystem + Default> Resolver<Fs> {
    /// Builds a resolver for a platform from the user's options, on a file
    /// system and with a working directory.
    ///
    /// The default engine is built on the file system; the other two are
    /// derived from it and share what it reads.
    pub fn new(raw_resolve: RawResolveOptions, platform: Platform, cwd: String, fs: Fs) -> (resolver:
        Self)
        requires
            raw_resolve@.extensions matches Some(extensions) ==> extensions_well_formed(extensions),
        ensures
            resolver.well_formed(),
            resolver.working_directory() == cwd@,
            resolver.config_view(ConditionSet::Default) == base_config(raw_resolve@, platform),
            resolver.config_view(ConditionSet::Import) == with_condition_names(
                base_config(raw_resolve@, platform),
                import_conditions(base_config(raw_resolve@, platform).condition_names),
            ),
            resolver.config_view(ConditionSet::Require) == with_condition_names(
                base_config(raw_resolve@, platform),
                require_conditions(base_config(raw_resolve@, platform).condition_names),
            ),
    {
        proof {
            reveal_strlit(".jsx");
            reveal_strlit(".js");
        }
        let configs = normalize_options(raw_resolve, platform);
        let default_resolver = build_engine(fs, &configs.default_config);
        let import_resolver = build_derived_engine(&default_resolver, &configs.import_config);
        let require_resolver = build_derived_engine(&default_resolver, &configs.require_config);
        Resolver { cwd, configs, default_resolver, import_resolver, require_resolver }
    }

    /// The working directory.
    pub fn cwd(&self) -> (cwd: &String)
        ensures
            cwd@ == self.working_directory(),
    {
        &self.cwd
    }

    /// The configuration of the engine that a condition list governs.
    pub fn config(&self, set: ConditionSet) -> (config: &EngineConfig)
        ensures
            config@ == self.config_view(set),
    {
        match set {
            ConditionSet::Default => &self.configs.default_config,
            ConditionSet::Import => &self.configs.import_config,
            ConditionSet::Require => &self.configs.require_config,
        }
    }

    /// The engine that a condition list governs. A resolution makes its
    /// lookups with the engine of `select_condition_set` of its kind.
    pub fn engine(&self, set: ConditionSet) -> (engine: &ResolverGeneric<Fs>)
        ensures
            *engine == self.engine_of(set),
    {
        match set {
            ConditionSet::Default => &self.default_resolver,
            ConditionSet::Import => &self.import_resolver,
            ConditionSet::Require => &self.require_resolver,
        }
    }

    /// The first lookup for `specifier` as `importer` names it, or as an
    /// entry point where there is no importer. There is none for an
    /// importer without a parent directory.
    pub fn first_lookup(&self, importer: Option<&str>, specifier: &str) -> (attempt: Option<Attempt>)
        ensures
            attempt_view(attempt) == first_attempt(
                self.working_directory(),
                importer.deep_view(),
                specifier@,
            ),
            attempt is None <==> (importer matches Some(file) && path_parent(file@) is None),
    {
        plan_first_attempt(self.cwd.as_str(), importer, specifier)
    }

    /// The step that follows the outcome of a lookup: the fallback lookup,
    /// after a first lookup that has one, and else the report.
    pub fn after_lookup(
        &self,
        importer: Option<&str>,
        specifier: &str,
        stage: Stage,
        outcome: Outcome,
    ) -> (step: Step)
        ensures
            follows(
                self.working_directory(),
                importer.deep_view(),
                specifier@,
                stage,
                outcome,
                step,
            ),
    {
        next_step(self.cwd.as_str(), importer, specifier, stage, outcome)
    }
}

} // verus!
