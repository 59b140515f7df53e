//! The options that a verification with the Silicon backend takes.

use super::common::{
    copy_of, lemma_with_switch_appends, lemma_with_value_appends, push_switch, push_value,
    with_switch, with_value,
};
use crate::text::{render_spaced, spaced};
use vstd::prelude::*;

verus! {

/// The options of one verification with the Silicon backend.
#[derive(Debug)]
pub struct SiliconOpts {
    /// `--alternativeFunctionVerificationOrder`
    ///
    /// Calculate the order in which functions are verified and function axioms become available
    /// in an alternative way that takes dependencies between functions through predicate
    /// unfoldings into account. This is more complete in some cases (see Silicon issue #355)
    /// but less complete in others (see test all/issues/silicon/unofficial007).
    pub alternative_function_verification_order: Option<bool>,
    /// `--assertionMode  <arg>...`
    ///
    /// Determines how assertion checks are encoded in SMTLIB. Options are 'pp' (push-pop) and
    /// 'sc' (soft constraints) (default: pp).
    pub assertion_mode: Option<String>,
    /// `--assertTimeout  <arg>`
    ///
    /// Timeout (in ms) per SMT solver assertion (default: 0, i.e. no timeout). Ignored when
    /// using the cvc5 prover.
    pub assert_timeout: Option<String>,
    /// `--assumeInjectivityOnInhale`
    ///
    /// Assumes injectivity of the receiver expression when inhaling quantified permissions,
    /// instead of checking it.
    pub assume_injectivity_on_inhale: Option<bool>,
    /// `--checkTimeout  <arg>`
    ///
    /// Timeout (in ms) per SMT solver check. Solver checks differ from solver asserts in that a
    /// failing assert always yields a verification error whereas a failing check doesn't, at
    /// least not directly. However, failing checks might result in performance degradation,
    /// e.g. when a dead program path is nevertheless explored, and indirectly in verification
    /// failures due to incompletenesses, e.g. when the held permission amount is too coarsely
    /// underapproximated (default: 10). Ignored when using the cvc5 prover.
    pub check_timeout: Option<String>,
    /// `--conditionalizePermissions`
    ///
    /// Potentially reduces the number of symbolic execution paths, by conditionalising
    /// permission expressions. E.g. rewrite "b ==> acc(x.f, p)" to "acc(x.f, b ? p :
    /// none)".This is an experimental feature; report problems if you observe any.
    pub conditionalize_permissions: Option<bool>,
    /// `--counterexample  <arg>`
    ///
    /// Return counterexample for errors. Pass 'native' for returning the native model from the
    /// backend, 'variables' for returning a model of all local Viper variables, or 'mapped'
    /// (only available on Silicon) for returning a model with Ref variables resolved to
    /// object-like structures.
    pub counterexample: Option<String>,
    /// `--cvc5Exe  <arg>`
    ///
    /// cvc5 executable. The environment variable CVC5_EXE can also be used to specify the path
    /// of the executable.
    pub cvc5_exe: Option<String>,
    /// `--disableCaches`
    ///
    /// Disables various caches in Silicon's state.
    pub disable_caches: Option<bool>,
    /// `--disableCatchingExceptions`
    ///
    /// Don't catch exceptions (can be useful for debugging problems with Silicon)
    pub disable_catching_exceptions: Option<bool>,
    /// `--disableChunkOrderHeuristics`
    ///
    /// Disable heuristic ordering of quantified chunks (context: iterated separating
    /// conjunctions).
    pub disable_chunk_order_heuristics: Option<bool>,
    /// `--disableFunctionUnfoldTrigger`
    ///
    /// Disables automatic triggering of function definitions when unfolding predicates they
    /// depend on.
    pub disable_function_unfold_trigger: Option<bool>,
    /// `--disableHavocHack407`
    ///
    /// A Viper method call to ___silicon_hack407_havoc_all_R, where R is a field or predicate,
    /// results in Silicon havocking all instances of R. See also Silicon issue #407.
    pub disable_havoc_hack407: Option<bool>,
    /// `--disableISCTriggers`
    ///
    /// Don't pick triggers for quantifiers, let the SMT solver do it (context: iterated
    /// separating conjunctions).
    pub disable_isc_triggers: Option<bool>,
    /// `--disableShortCircuitingEvaluations`
    ///
    /// Disable short-circuiting evaluation of AND, OR. If disabled, evaluating e.g., i > 0 &&
    /// f(i), will fail if f's precondition requires i > 0.
    pub disable_short_circuiting_evaluations: Option<bool>,
    /// `--disableSubsumption`
    ///
    /// Don't add assumptions gained by verifying an assert statement
    pub disable_subsumption: Option<bool>,
    /// `--disableTempDirectory`
    ///
    /// Disable the creation of temporary data (default: ./tmp)
    pub disable_temp_directory: Option<bool>,
    /// `--disableValueMapCaching`
    ///
    /// Disable caching of value maps (context: iterated separating conjunctions).
    pub disable_value_map_caching: Option<bool>,
    /// `--enableBranchconditionReporting`
    ///
    /// Report branch conditions (can be useful for assertions that fail on multiple branches)
    pub enable_branchcondition_reporting: Option<bool>,
    /// `--enableMoreCompleteExhale`
    ///
    /// Enable a more complete exhale version.
    pub enable_more_complete_exhale: Option<bool>,
    /// `--enablePredicateTriggersOnInhale`
    ///
    /// Emit predicate-based function trigger on each inhale of a predicate instance (context:
    /// heap-dependent functions).
    pub enable_predicate_triggers_on_inhale: Option<bool>,
    /// `--excludeMethods  <arg>`
    ///
    /// Exclude methods from verification (default: ''). Is applied after the include pattern.
    pub exclude_methods: Option<String>,
    /// `--handlePureConjunctsIndividually`
    ///
    /// Handle pure conjunction individually.Increases precision of error reporting, but may
    /// slow down verification.
    pub handle_pure_conjuncts_individually: Option<bool>,
    /// `--includeMethods  <arg>`
    ///
    /// Include methods in verification (default: '*'). Wildcard characters are '?' and '*'.
    /// -Llogger=level [logger=level]...                 Set level of certain internal loggers
    pub include_methods: Option<String>,
    /// `--logConfig  <arg>`
    ///
    /// Path to config file specifying SymbExLogger options
    pub log_config: Option<String>,
    /// `--logLevel  <arg>`
    ///
    /// One of the log levels ALL, TRACE, DEBUG, INFO, WARN, ERROR, OFF
    pub log_level: Option<String>,
    /// `--mapAxiomatizationFile  <arg>`
    ///
    /// Source file with map axiomatisation. If omitted, built-in one is used.
    pub map_axiomatization_file: Option<String>,
    /// `--maxHeuristicsDepth  <arg>`
    ///
    /// Maximal number of nested heuristics applications (default: 3)
    pub max_heuristics_depth: Option<String>,
    /// `--multisetAxiomatizationFile  <arg>`
    ///
    /// Source file with multiset axiomatisation. If omitted, built-in one is used.
    pub multiset_axiomatization_file: Option<String>,
    /// `--numberOfErrorsToReport  <arg>`
    ///
    /// Number of errors per member before the verifier stops. If this number is set to 0, all
    /// errors are reported.
    pub number_of_errors_to_report: Option<String>,
    /// `--numberOfParallelVerifiers  <arg>`
    ///
    /// Number of verifiers run in parallel. This number plus one is the number of provers run
    /// in parallel (default: 10)
    pub number_of_parallel_verifiers: Option<String>,
    /// `--parallelizeBranches`
    ///
    /// Verify different branches in parallel.
    pub parallelize_branches: Option<bool>,
    /// `--plugin  <arg>`
    ///
    /// Load plugin(s) with given class name(s). Several plugins can be separated by ':'. The
    /// fully qualified class name of the plugin should be specified.
    pub plugin: Option<String>,
    /// `--printMethodCFGs`
    ///
    /// Print a DOT (Graphviz) representation of the CFG of each method to verify to a file
    /// '<tempDirectory>/<methodName>.dot'.
    pub print_method_cf_gs: Option<bool>,
    /// `--printTranslatedProgram`
    ///
    /// Print the final program that is going to be verified to stdout.
    pub print_translated_program: Option<bool>,
    /// `--prover  <arg>`
    ///
    /// One of the provers Z3, cvc5, Z3-API. (default: Z3).
    pub prover: Option<String>,
    /// `--proverArgs  <arg>`
    ///
    /// Command-line arguments which should be forwarded to the prover. The expected format is
    /// "<opt> <opt> ... <opt>", excluding the quotation marks.
    pub prover_args: Option<String>,
    /// `--proverConfigArgs  <arg>...`
    ///
    /// Configuration options which should be forwarded to the prover. The expected format is
    /// "<key>=<val> <key>=<val> ... <key>=<val>", excluding the quotation marks. The
    /// configuration options given here will override those from Silicon's prover preamble.
    pub prover_config_args: Option<String>,
    /// `--proverEnableResourceBounds`
    ///
    /// Use prover's resource bounds instead of timeouts
    pub prover_enable_resource_bounds: Option<bool>,
    /// `--proverLogFile  <arg>`
    ///
    /// Log file containing the interaction with the prover, extension smt2 will be appended.
    /// (default: <tempDirectory>/logfile.smt2)
    pub prover_log_file: Option<String>,
    /// `--proverRandomizeSeeds`
    ///
    /// Set various random seeds of the prover to random values
    pub prover_randomize_seeds: Option<bool>,
    /// `--proverResourcesPerMillisecond  <arg>`
    ///
    /// Prover resources per milliseconds. Is used to convert timeouts to resource bounds.
    pub prover_resources_per_millisecond: Option<String>,
    /// `--proverSaturationTimeout  <arg>`
    ///
    /// Timeout (in ms) used for the prover's state saturation calls (default: 100). A timeout
    /// of 0 disables all saturation checks.Note that for the cvc5 prover, state saturation
    /// calls can either be disabled (weights or base timeout of 0) or forced with no timeout
    /// (positive weight and base timeout).
    pub prover_saturation_timeout: Option<String>,
    /// `--proverSaturationTimeoutWeights  <arg>...`
    ///
    /// Weights used to compute the effective timeout for the prover's state saturation calls,
    /// which are made at various points during a symbolic execution. The effective timeouts for
    /// a particular saturation call is computed by multiplying the corresponding weight with
    /// the base timeout for saturation calls. Defaults to the following weights: after program
    /// preamble: 1.0 after inhaling contracts: 0.5 after unfold: 0.4 after inhale: 0.2 before
    /// repeated prover queries: 0.02 Weights must be non-negative, a weight of 0 disables the
    /// corresponding saturation call and a minimal timeout of 10ms is enforced.Note that for
    /// the cvc5 prover, state saturation calls can either be disabled (weights or base timeout
    /// of 0) or forced with no timeout (positive weight and base timeout).
    pub prover_saturation_timeout_weights: Option<String>,
    /// `--pushTimeout  <arg>`
    ///
    /// Timeout (in ms) per push operation in the SMT solver. (default: 0, i.e. no timeout).
    /// Ignored when using the cvc5 prover.
    pub push_timeout: Option<String>,
    /// `--qpSplitTimeout  <arg>`
    ///
    /// Timeout (in ms) used by QP's split algorithm when 1) checking if a chunk holds no
    /// further permissions, and 2) checking if sufficiently many permissions have already been
    /// split off.
    pub qp_split_timeout: Option<String>,
    /// `--recursivePredicateUnfoldings  <arg>`
    ///
    /// Evaluate n unfolding expressions in the body of predicates that (transitively) unfold
    /// other instances of themselves (default: 1)
    pub recursive_predicate_unfoldings: Option<String>,
    /// `--sequenceAxiomatizationFile  <arg>`
    ///
    /// Source file with sequence axiomatisation. If omitted, built-in one is used.
    pub sequence_axiomatization_file: Option<String>,
    /// `--setAxiomatizationFile  <arg>`
    ///
    /// Source file with set axiomatisation. If omitted, built-in one is used.
    pub set_axiomatization_file: Option<String>,
    /// `--stateConsolidationMode  <arg>`
    ///
    /// One of the following modes: 0: Minimal work, many incompletenesses 1: Most work, fewest
    /// incompletenesses 2: Similar to 1, but less eager 3: Less eager and less complete than 1
    /// 4: Intended for use with
    pub state_consolidation_mode: Option<String>,
    /// `--moreCompleteExhale`
    pub more_complete_exhale: Option<bool>,
    /// `--tempDirectory  <arg>`
    ///
    /// Path to which all temporary data will be written (default: ./tmp)
    pub temp_directory: Option<String>,
    /// `--timeout  <arg>`
    ///
    /// Time out after approx. n seconds. The timeout is for the whole verification, not per
    /// method or proof obligation (default: 0, i.e. no timeout).
    pub timeout: Option<String>,
    /// `--z3Args  <arg>`
    ///
    /// Warning: This option is deprecated due to standardization in option naming. Please use
    /// 'proverArgs' instead... Command-line arguments which should be forwarded to Z3. The
    /// expected format is "<opt> <opt> ... <opt>", excluding the quotation marks.
    pub z3_args: Option<String>,
    /// `--z3ConfigArgs  <arg>...`
    ///
    /// Warning: This option is deprecated due to standardization in option naming. Please use
    /// 'proverConfigArgs' instead... Configuration options which should be forwarded to Z3. The
    /// expected format is "<key>=<val> <key>=<val> ... <key>=<val>", excluding the quotation
    /// marks. The configuration options given here will override those from Silicon's Z3
    /// preamble.
    pub z3_config_args: Option<String>,
    /// `--z3EnableResourceBounds`
    ///
    /// Warning: This option is deprecated due to standardization in option naming. Please use
    /// 'proverEnableResourceBounds' instead... Use Z3's resource bounds instead of timeouts
    pub z3_enable_resource_bounds: Option<bool>,
    /// `--z3Exe  <arg>`
    ///
    /// Z3 executable. The environment variable Z3_EXE can also be used to specify the path of
    /// the executable.
    pub z3_exe: Option<String>,
    /// `--z3LogFile  <arg>`
    ///
    /// Warning: This option is deprecated due to standardization in option naming. Please use
    /// 'proverLogFile' instead... Log file containing the interaction with the prover,
    /// extension smt2 will be appended. (default: <tempDirectory>/logfile.smt2).
    pub z3_log_file: Option<String>,
    /// `--z3RandomizeSeeds`
    ///
    /// Warning: This option is deprecated due to standardization in option naming. Please use
    /// 'proverRandomizeSeeds' instead... Set various Z3 random seeds to random values
    pub z3_randomize_seeds: Option<bool>,
    /// `--z3ResourcesPerMillisecond  <arg>`
    ///
    /// Warning: This option is deprecated due to standardization in option naming. Please use
    /// 'proverResourcesPerMillisecond' instead... Z3 resources per milliseconds. Is used to
    /// convert timeouts to resource bounds.
    pub z3_resources_per_millisecond: Option<String>,
    /// `--z3SaturationTimeout  <arg>`
    ///
    /// Warning: This option is deprecated due to standardization in option naming. Please use
    /// 'proverSaturationTimeout' instead... Timeout (in ms) used for Z3 state saturation calls
    /// (default: 100). A timeout of 0 disables all saturation checks.
    pub z3_saturation_timeout: Option<String>,
    /// `--z3SaturationTimeoutWeights  <arg>...`
    ///
    /// Warning: This option is deprecated due to standardization in option naming. Please use
    /// 'proverSaturationTimeoutWeights' instead... Weights used to compute the effective
    /// timeout for Z3 state saturation calls, which are made at various points during a
    /// symbolic execution. The effective timeouts for a particular saturation call is computed
    /// by multiplying the corresponding weight with the base timeout for saturation calls.
    /// Defaults to the following weights: after program preamble: 1.0 after inhaling contracts:
    /// 0.5 after unfold: 0.4 after inhale: 0.2 before repeated Z3 queries: 0.02 Weights must be
    /// non-negative, a weight of 0 disables the corresponding saturation call and a minimal
    /// timeout of 10ms is enforced.
    pub z3_saturation_timeout_weights: Option<String>,
}

impl Default for SiliconOpts {
    /// The options with none of them set.
    fn default() -> (r: Self)
        ensures
            r == Self::unset(),
    {
        SiliconOpts {
            alternative_function_verification_order: None,
            assertion_mode: None,
            assert_timeout: None,
            assume_injectivity_on_inhale: None,
            check_timeout: None,
            conditionalize_permissions: None,
            counterexample: None,
            cvc5_exe: None,
            disable_caches: None,
            disable_catching_exceptions: None,
            disable_chunk_order_heuristics: None,
            disable_function_unfold_trigger: None,
            disable_havoc_hack407: None,
            disable_isc_triggers: None,
            disable_short_circuiting_evaluations: None,
            disable_subsumption: None,
            disable_temp_directory: None,
            disable_value_map_caching: None,
            enable_branchcondition_reporting: None,
            enable_more_complete_exhale: None,
            enable_predicate_triggers_on_inhale: None,
            exclude_methods: None,
            handle_pure_conjuncts_individually: None,
            include_methods: None,
            log_config: None,
            log_level: None,
            map_axiomatization_file: None,
            max_heuristics_depth: None,
            multiset_axiomatization_file: None,
            number_of_errors_to_report: None,
            number_of_parallel_verifiers: None,
            parallelize_branches: None,
            plugin: None,
            print_method_cf_gs: None,
            print_translated_program: None,
            prover: None,
            prover_args: None,
            prover_config_args: None,
            prover_enable_resource_bounds: None,
            prover_log_file: None,
            prover_randomize_seeds: None,
            prover_resources_per_millisecond: None,
            prover_saturation_timeout: None,
            prover_saturation_timeout_weights: None,
            push_timeout: None,
            qp_split_timeout: None,
            recursive_predicate_unfoldings: None,
            sequence_axiomatization_file: None,
            set_axiomatization_file: None,
            state_consolidation_mode: None,
            more_complete_exhale: None,
            temp_directory: None,
            timeout: None,
            z3_args: None,
            z3_config_args: None,
            z3_enable_resource_bounds: None,
            z3_exe: None,
            z3_log_file: None,
            z3_randomize_seeds: None,
            z3_resources_per_millisecond: None,
            z3_saturation_timeout: None,
            z3_saturation_timeout_weights: None,
        }
    }
}

impl Clone for SiliconOpts {
    fn clone(&self) -> (r: Self)
        ensures
            r == *self,
    {
        SiliconOpts {
            alternative_function_verification_order: self.alternative_function_verification_order,
            assertion_mode: copy_of(&self.assertion_mode),
            assert_timeout: copy_of(&self.assert_timeout),
            assume_injectivity_on_inhale: self.assume_injectivity_on_inhale,
            check_timeout: copy_of(&self.check_timeout),
            conditionalize_permissions: self.conditionalize_permissions,
            counterexample: copy_of(&self.counterexample),
            cvc5_exe: copy_of(&self.cvc5_exe),
            disable_caches: self.disable_caches,
            disable_catching_exceptions: self.disable_catching_exceptions,
            disable_chunk_order_heuristics: self.disable_chunk_order_heuristics,
            disable_function_unfold_trigger: self.disable_function_unfold_trigger,
            disable_havoc_hack407: self.disable_havoc_hack407,
            disable_isc_triggers: self.disable_isc_triggers,
            disable_short_circuiting_evaluations: self.disable_short_circuiting_evaluations,
            disable_subsumption: self.disable_subsumption,
            disable_temp_directory: self.disable_temp_directory,
            disable_value_map_caching: self.disable_value_map_caching,
            enable_branchcondition_reporting: self.enable_branchcondition_reporting,
            enable_more_complete_exhale: self.enable_more_complete_exhale,
            enable_predicate_triggers_on_inhale: self.enable_predicate_triggers_on_inhale,
            exclude_methods: copy_of(&self.exclude_methods),
            handle_pure_conjuncts_individually: self.handle_pure_conjuncts_individually,
            include_methods: copy_of(&self.include_methods),
            log_config: copy_of(&self.log_config),
            log_level: copy_of(&self.log_level),
            map_axiomatization_file: copy_of(&self.map_axiomatization_file),
            max_heuristics_depth: copy_of(&self.max_heuristics_depth),
            multiset_axiomatization_file: copy_of(&self.multiset_axiomatization_file),
            number_of_errors_to_report: copy_of(&self.number_of_errors_to_report),
            number_of_parallel_verifiers: copy_of(&self.number_of_parallel_verifiers),
            parallelize_branches: self.parallelize_branches,
            plugin: copy_of(&self.plugin),
            print_method_cf_gs: self.print_method_cf_gs,
            print_translated_program: self.print_translated_program,
            prover: copy_of(&self.prover),
            prover_args: copy_of(&self.prover_args),
            prover_config_args: copy_of(&self.prover_config_args),
            prover_enable_resource_bounds: self.prover_enable_resource_bounds,
            prover_log_file: copy_of(&self.prover_log_file),
            prover_randomize_seeds: self.prover_randomize_seeds,
            prover_resources_per_millisecond: copy_of(&self.prover_resources_per_millisecond),
            prover_saturation_timeout: copy_of(&self.prover_saturation_timeout),
            prover_saturation_timeout_weights: copy_of(&self.prover_saturation_timeout_weights),
            push_timeout: copy_of(&self.push_timeout),
            qp_split_timeout: copy_of(&self.qp_split_timeout),
            recursive_predicate_unfoldings: copy_of(&self.recursive_predicate_unfoldings),
            sequence_axiomatization_file: copy_of(&self.sequence_axiomatization_file),
            set_axiomatization_file: copy_of(&self.set_axiomatization_file),
            state_consolidation_mode: copy_of(&self.state_consolidation_mode),
            more_complete_exhale: self.more_complete_exhale,
            temp_directory: copy_of(&self.temp_directory),
            timeout: copy_of(&self.timeout),
            z3_args: copy_of(&self.z3_args),
            z3_config_args: copy_of(&self.z3_config_args),
            z3_enable_resource_bounds: self.z3_enable_resource_bounds,
            z3_exe: copy_of(&self.z3_exe),
            z3_log_file: copy_of(&self.z3_log_file),
            z3_randomize_seeds: self.z3_randomize_seeds,
            z3_resources_per_millisecond: copy_of(&self.z3_resources_per_millisecond),
            z3_saturation_timeout: copy_of(&self.z3_saturation_timeout),
            z3_saturation_timeout_weights: copy_of(&self.z3_saturation_timeout_weights),
        }
    }
}

impl SiliconOpts {
    /// The options with none of them set.
    pub open spec fn unset() -> Self {
        SiliconOpts {
            alternative_function_verification_order: None,
            assertion_mode: None,
            assert_timeout: None,
            assume_injectivity_on_inhale: None,
            check_timeout: None,
            conditionalize_permissions: None,
            counterexample: None,
            cvc5_exe: None,
            disable_caches: None,
            disable_catching_exceptions: None,
            disable_chunk_order_heuristics: None,
            disable_function_unfold_trigger: None,
            disable_havoc_hack407: None,
            disable_isc_triggers: None,
            disable_short_circuiting_evaluations: None,
            disable_subsumption: None,
            disable_temp_directory: None,
            disable_value_map_caching: None,
            enable_branchcondition_reporting: None,
            enable_more_complete_exhale: None,
            enable_predicate_triggers_on_inhale: None,
            exclude_methods: None,
            handle_pure_conjuncts_individually: None,
            include_methods: None,
            log_config: None,
            log_level: None,
            map_axiomatization_file: None,
            max_heuristics_depth: None,
            multiset_axiomatization_file: None,
            number_of_errors_to_report: None,
            number_of_parallel_verifiers: None,
            parallelize_branches: None,
            plugin: None,
            print_method_cf_gs: None,
            print_translated_program: None,
            prover: None,
            prover_args: None,
            prover_config_args: None,
            prover_enable_resource_bounds: None,
            prover_log_file: None,
            prover_randomize_seeds: None,
            prover_resources_per_millisecond: None,
            prover_saturation_timeout: None,
            prover_saturation_timeout_weights: None,
            push_timeout: None,
            qp_split_timeout: None,
            recursive_predicate_unfoldings: None,
            sequence_axiomatization_file: None,
            set_axiomatization_file: None,
            state_consolidation_mode: None,
            more_complete_exhale: None,
            temp_directory: None,
            timeout: None,
            z3_args: None,
            z3_config_args: None,
            z3_enable_resource_bounds: None,
            z3_exe: None,
            z3_log_file: None,
            z3_randomize_seeds: None,
            z3_resources_per_millisecond: None,
            z3_saturation_timeout: None,
            z3_saturation_timeout_weights: None,
        }
    }

    /// `acc` followed by the arguments that stand for these options: for each option
    /// that is set, in the order of the fields, a switch contributes its name and a
    /// valued option its name and then its value.
    pub open spec fn applied(&self, acc: Seq<Seq<char>>) -> Seq<Seq<char>> {
        let acc = with_switch(
            acc,
            "--alternativeFunctionVerificationOrder"@,
            self.alternative_function_verification_order,
        );
        let acc = with_value(acc, "--assertionMode"@, self.assertion_mode);
        let acc = with_value(acc, "--assertTimeout"@, self.assert_timeout);
        let acc = with_switch(
            acc,
            "--assumeInjectivityOnInhale"@,
            self.assume_injectivity_on_inhale,
        );
        let acc = with_value(acc, "--checkTimeout"@, self.check_timeout);
        let acc = with_switch(acc, "--conditionalizePermissions"@, self.conditionalize_permissions);
        let acc = with_value(acc, "--counterexample"@, self.counterexample);
        let acc = with_value(acc, "--cvc5Exe"@, self.cvc5_exe);
        let acc = with_switch(acc, "--disableCaches"@, self.disable_caches);
        let acc = with_switch(
            acc,
            "--disableCatchingExceptions"@,
            self.disable_catching_exceptions,
        );
        let acc = with_switch(
            acc,
            "--disableChunkOrderHeuristics"@,
            self.disable_chunk_order_heuristics,
        );
        let acc = with_switch(
            acc,
            "--disableFunctionUnfoldTrigger"@,
            self.disable_function_unfold_trigger,
        );
        let acc = with_switch(acc, "--disableHavocHack407"@, self.disable_havoc_hack407);
        let acc = with_switch(acc, "--disableISCTriggers"@, self.disable_isc_triggers);
        let acc = with_switch(
            acc,
            "--disableShortCircuitingEvaluations"@,
            self.disable_short_circuiting_evaluations,
        );
        let acc = with_switch(acc, "--disableSubsumption"@, self.disable_subsumption);
        let acc = with_switch(acc, "--disableTempDirectory"@, self.disable_temp_directory);
        let acc = with_switch(acc, "--disableValueMapCaching"@, self.disable_value_map_caching);
        let acc = with_switch(
            acc,
            "--enableBranchconditionReporting"@,
            self.enable_branchcondition_reporting,
        );
        let acc = with_switch(acc, "--enableMoreCompleteExhale"@, self.enable_more_complete_exhale);
        let acc = with_switch(
            acc,
            "--enablePredicateTriggersOnInhale"@,
            self.enable_predicate_triggers_on_inhale,
        );
        let acc = with_value(acc, "--excludeMethods"@, self.exclude_methods);
        let acc = with_switch(
            acc,
            "--handlePureConjunctsIndividually"@,
            self.handle_pure_conjuncts_individually,
        );
        let acc = with_value(acc, "--includeMethods"@, self.include_methods);
        let acc = with_value(acc, "--logConfig"@, self.log_config);
        let acc = with_value(acc, "--logLevel"@, self.log_level);
        let acc = with_value(acc, "--mapAxiomatizationFile"@, self.map_axiomatization_file);
        let acc = with_value(acc, "--maxHeuristicsDepth"@, self.max_heuristics_depth);
        let acc = with_value(
            acc,
            "--multisetAxiomatizationFile"@,
            self.multiset_axiomatization_file,
        );
        let acc = with_value(acc, "--numberOfErrorsToReport"@, self.number_of_errors_to_report);
        let acc = with_value(
            acc,
            "--numberOfParallelVerifiers"@,
            self.number_of_parallel_verifiers,
        );
        let acc = with_switch(acc, "--parallelizeBranches"@, self.parallelize_branches);
        let acc = with_value(acc, "--plugin"@, self.plugin);
        let acc = with_switch(acc, "--printMethodCFGs"@, self.print_method_cf_gs);
        let acc = with_switch(acc, "--printTranslatedProgram"@, self.print_translated_program);
        let acc = with_value(acc, "--prover"@, self.prover);
        let acc = with_value(acc, "--proverArgs"@, self.prover_args);
        let acc = with_value(acc, "--proverConfigArgs"@, self.prover_config_args);
        let acc = with_switch(
            acc,
            "--proverEnableResourceBounds"@,
            self.prover_enable_resource_bounds,
        );
        let acc = with_value(acc, "--proverLogFile"@, self.prover_log_file);
        let acc = with_switch(acc, "--proverRandomizeSeeds"@, self.prover_randomize_seeds);
        let acc = with_value(
            acc,
            "--proverResourcesPerMillisecond"@,
            self.prover_resources_per_millisecond,
        );
        let acc = with_value(acc, "--proverSaturationTimeout"@, self.prover_saturation_timeout);
        let acc = with_value(
            acc,
            "--proverSaturationTimeoutWeights"@,
            self.prover_saturation_timeout_weights,
        );
        let acc = with_value(acc, "--pushTimeout"@, self.push_timeout);
        let acc = with_value(acc, "--qpSplitTimeout"@, self.qp_split_timeout);
        let acc = with_value(
            acc,
            "--recursivePredicateUnfoldings"@,
            self.recursive_predicate_unfoldings,
        );
        let acc = with_value(
            acc,
            "--sequenceAxiomatizationFile"@,
            self.sequence_axiomatization_file,
        );
        let acc = with_value(acc, "--setAxiomatizationFile"@, self.set_axiomatization_file);
        let acc = with_value(acc, "--stateConsolidationMode"@, self.state_consolidation_mode);
        let acc = with_switch(acc, "--moreCompleteExhale"@, self.more_complete_exhale);
        let acc = with_value(acc, "--tempDirectory"@, self.temp_directory);
        let acc = with_value(acc, "--timeout"@, self.timeout);
        let acc = with_value(acc, "--z3Args"@, self.z3_args);
        let acc = with_value(acc, "--z3ConfigArgs"@, self.z3_config_args);
        let acc = with_switch(acc, "--z3EnableResourceBounds"@, self.z3_enable_resource_bounds);
        let acc = with_value(acc, "--z3Exe"@, self.z3_exe);
        let acc = with_value(acc, "--z3LogFile"@, self.z3_log_file);
        let acc = with_switch(acc, "--z3RandomizeSeeds"@, self.z3_randomize_seeds);
        let acc = with_value(
            acc,
            "--z3ResourcesPerMillisecond"@,
            self.z3_resources_per_millisecond,
        );
        let acc = with_value(acc, "--z3SaturationTimeout"@, self.z3_saturation_timeout);
        let acc = with_value(
            acc,
            "--z3SaturationTimeoutWeights"@,
            self.z3_saturation_timeout_weights,
        );
        acc
    }

    /// The argument vector that stands for these options.
    pub open spec fn args(&self) -> Seq<Seq<char>> {
        self.applied(Seq::empty())
    }

    /// Appends to `out` the arguments that stand for these options.
    pub fn apply(&self, out: &mut Vec<String>)
        ensures
            final(out).deep_view() == self.applied(old(out).deep_view()),
    {
        push_switch(
            out,
            "--alternativeFunctionVerificationOrder",
            &self.alternative_function_verification_order,
        );
        push_value(out, "--assertionMode", &self.assertion_mode);
        push_value(out, "--assertTimeout", &self.assert_timeout);
        push_switch(out, "--assumeInjectivityOnInhale", &self.assume_injectivity_on_inhale);
        push_value(out, "--checkTimeout", &self.check_timeout);
        push_switch(out, "--conditionalizePermissions", &self.conditionalize_permissions);
        push_value(out, "--counterexample", &self.counterexample);
        push_value(out, "--cvc5Exe", &self.cvc5_exe);
        push_switch(out, "--disableCaches", &self.disable_caches);
        push_switch(out, "--disableCatchingExceptions", &self.disable_catching_exceptions);
        push_switch(out, "--disableChunkOrderHeuristics", &self.disable_chunk_order_heuristics);
        push_switch(out, "--disableFunctionUnfoldTrigger", &self.disable_function_unfold_trigger);
        push_switch(out, "--disableHavocHack407", &self.disable_havoc_hack407);
        push_switch(out, "--disableISCTriggers", &self.disable_isc_triggers);
        push_switch(
            out,
            "--disableShortCircuitingEvaluations",
            &self.disable_short_circuiting_evaluations,
        );
        push_switch(out, "--disableSubsumption", &self.disable_subsumption);
        push_switch(out, "--disableTempDirectory", &self.disable_temp_directory);
        push_switch(out, "--disableValueMapCaching", &self.disable_value_map_caching);
        push_switch(
            out,
            "--enableBranchconditionReporting",
            &self.enable_branchcondition_reporting,
        );
        push_switch(out, "--enableMoreCompleteExhale", &self.enable_more_complete_exhale);
        push_switch(
            out,
            "--enablePredicateTriggersOnInhale",
            &self.enable_predicate_triggers_on_inhale,
        );
        push_value(out, "--excludeMethods", &self.exclude_methods);
        push_switch(
            out,
            "--handlePureConjunctsIndividually",
            &self.handle_pure_conjuncts_individually,
        );
        push_value(out, "--includeMethods", &self.include_methods);
        push_value(out, "--logConfig", &self.log_config);
        push_value(out, "--logLevel", &self.log_level);
        push_value(out, "--mapAxiomatizationFile", &self.map_axiomatization_file);
        push_value(out, "--maxHeuristicsDepth", &self.max_heuristics_depth);
        push_value(out, "--multisetAxiomatizationFile", &self.multiset_axiomatization_file);
        push_value(out, "--numberOfErrorsToReport", &self.number_of_errors_to_report);
        push_value(out, "--numberOfParallelVerifiers", &self.number_of_parallel_verifiers);
        push_switch(out, "--parallelizeBranches", &self.parallelize_branches);
        push_value(out, "--plugin", &self.plugin);
        push_switch(out, "--printMethodCFGs", &self.print_method_cf_gs);
        push_switch(out, "--printTranslatedProgram", &self.print_translated_program);
        push_value(out, "--prover", &self.prover);
        push_value(out, "--proverArgs", &self.prover_args);
        push_value(out, "--proverConfigArgs", &self.prover_config_args);
        push_switch(out, "--proverEnableResourceBounds", &self.prover_enable_resource_bounds);
        push_value(out, "--proverLogFile", &self.prover_log_file);
        push_switch(out, "--proverRandomizeSeeds", &self.prover_randomize_seeds);
        push_value(out, "--proverResourcesPerMillisecond", &self.prover_resources_per_millisecond);
        push_value(out, "--proverSaturationTimeout", &self.prover_saturation_timeout);
        push_value(
            out,
            "--proverSaturationTimeoutWeights",
            &self.prover_saturation_timeout_weights,
        );
        push_value(out, "--pushTimeout", &self.push_timeout);
        push_value(out, "--qpSplitTimeout", &self.qp_split_timeout);
        push_value(out, "--recursivePredicateUnfoldings", &self.recursive_predicate_unfoldings);
        push_value(out, "--sequenceAxiomatizationFile", &self.sequence_axiomatization_file);
        push_value(out, "--setAxiomatizationFile", &self.set_axiomatization_file);
        push_value(out, "--stateConsolidationMode", &self.state_consolidation_mode);
        push_switch(out, "--moreCompleteExhale", &self.more_complete_exhale);
        push_value(out, "--tempDirectory", &self.temp_directory);
        push_value(out, "--timeout", &self.timeout);
        push_value(out, "--z3Args", &self.z3_args);
        push_value(out, "--z3ConfigArgs", &self.z3_config_args);
        push_switch(out, "--z3EnableResourceBounds", &self.z3_enable_resource_bounds);
        push_value(out, "--z3Exe", &self.z3_exe);
        push_value(out, "--z3LogFile", &self.z3_log_file);
        push_switch(out, "--z3RandomizeSeeds", &self.z3_randomize_seeds);
        push_value(out, "--z3ResourcesPerMillisecond", &self.z3_resources_per_millisecond);
        push_value(out, "--z3SaturationTimeout", &self.z3_saturation_timeout);
        push_value(out, "--z3SaturationTimeoutWeights", &self.z3_saturation_timeout_weights);
    }

    /// Applying the options to a list appends their argument vector to it.
    pub proof fn lemma_applied_appends(&self, acc: Seq<Seq<char>>)
        ensures
            self.applied(acc) == acc + self.args(),
    {
        let none = Seq::<Seq<char>>::empty();
        let a = acc;
        let b = none;
        assert(a =~= acc + b);
        lemma_with_switch_appends(
            acc,
            b,
            "--alternativeFunctionVerificationOrder"@,
            self.alternative_function_verification_order,
        );
        let a = with_switch(
            a,
            "--alternativeFunctionVerificationOrder"@,
            self.alternative_function_verification_order,
        );
        let b = with_switch(
            b,
            "--alternativeFunctionVerificationOrder"@,
            self.alternative_function_verification_order,
        );
        assert(a == acc + b);
        lemma_with_value_appends(acc, b, "--assertionMode"@, self.assertion_mode);
        let a = with_value(a, "--assertionMode"@, self.assertion_mode);
        let b = with_value(b, "--assertionMode"@, self.assertion_mode);
        assert(a == acc + b);
        lemma_with_value_appends(acc, b, "--assertTimeout"@, self.assert_timeout);
        let a = with_value(a, "--assertTimeout"@, self.assert_timeout);
        let b = with_value(b, "--assertTimeout"@, self.assert_timeout);
        assert(a == acc + b);
        lemma_with_switch_appends(
            acc,
            b,
            "--assumeInjectivityOnInhale"@,
            self.assume_injectivity_on_inhale,
        );
        let a = with_switch(a, "--assumeInjectivityOnInhale"@, self.assume_injectivity_on_inhale);
        let b = with_switch(b, "--assumeInjectivityOnInhale"@, self.assume_injectivity_on_inhale);
        assert(a == acc + b);
        lemma_with_value_appends(acc, b, "--checkTimeout"@, self.check_timeout);
        let a = with_value(a, "--checkTimeout"@, self.check_timeout);
        let b = with_value(b, "--checkTimeout"@, self.check_timeout);
        assert(a == acc + b);
        lemma_with_switch_appends(
            acc,
            b,
            "--conditionalizePermissions"@,
            self.conditionalize_permissions,
        );
        let a = with_switch(a, "--conditionalizePermissions"@, self.conditionalize_permissions);
        let b = with_switch(b, "--conditionalizePermissions"@, self.conditionalize_permissions);
        assert(a == acc + b);
        lemma_with_value_appends(acc, b, "--counterexample"@, self.counterexample);
        let a = with_value(a, "--counterexample"@, self.counterexample);
        let b = with_value(b, "--counterexample"@, self.counterexample);
        assert(a == acc + b);
        lemma_with_value_appends(acc, b, "--cvc5Exe"@, self.cvc5_exe);
        let a = with_value(a, "--cvc5Exe"@, self.cvc5_exe);
        let b = with_value(b, "--cvc5Exe"@, self.cvc5_exe);
        assert(a == acc + b);
        lemma_with_switch_appends(acc, b, "--disableCaches"@, self.disable_caches);
        let a = with_switch(a, "--disableCaches"@, self.disable_caches);
        let b = with_switch(b, "--disableCaches"@, self.disable_caches);
        assert(a == acc + b);
        lemma_with_switch_appends(
            acc,
            b,
            "--disableCatchingExceptions"@,
            self.disable_catching_exceptions,
        );
        let a = with_switch(a, "--disableCatchingExceptions"@, self.disable_catching_exceptions);
        let b = with_switch(b, "--disableCatchingExceptions"@, self.disable_catching_exceptions);
        assert(a == acc + b);
        lemma_with_switch_appends(
            acc,
            b,
            "--disableChunkOrderHeuristics"@,
            self.disable_chunk_order_heuristics,
        );
        let a = with_switch(
            a,
            "--disableChunkOrderHeuristics"@,
            self.disable_chunk_order_heuristics,
        );
        let b = with_switch(
            b,
            "--disableChunkOrderHeuristics"@,
            self.disable_chunk_order_heuristics,
        );
        assert(a == acc + b);
        lemma_with_switch_appends(
            acc,
            b,
            "--disableFunctionUnfoldTrigger"@,
            self.disable_function_unfold_trigger,
        );
        let a = with_switch(
            a,
            "--disableFunctionUnfoldTrigger"@,
            self.disable_function_unfold_trigger,
        );
        let b = with_switch(
            b,
            "--disableFunctionUnfoldTrigger"@,
            self.disable_function_unfold_trigger,
        );
        assert(a == acc + b);
        lemma_with_switch_appends(acc, b, "--disableHavocHack407"@, self.disable_havoc_hack407);
        let a = with_switch(a, "--disableHavocHack407"@, self.disable_havoc_hack407);
        let b = with_switch(b, "--disableHavocHack407"@, self.disable_havoc_hack407);
        assert(a == acc + b);
        lemma_with_switch_appends(acc, b, "--disableISCTriggers"@, self.disable_isc_triggers);
        let a = with_switch(a, "--disableISCTriggers"@, self.disable_isc_triggers);
        let b = with_switch(b, "--disableISCTriggers"@, self.disable_isc_triggers);
        assert(a == acc + b);
        lemma_with_switch_appends(
            acc,
            b,
            "--disableShortCircuitingEvaluations"@,
            self.disable_short_circuiting_evaluations,
        );
        let a = with_switch(
            a,
            "--disableShortCircuitingEvaluations"@,
            self.disable_short_circuiting_evaluations,
        );
        let b = with_switch(
            b,
            "--disableShortCircuitingEvaluations"@,
            self.disable_short_circuiting_evaluations,
        );
        assert(a == acc + b);
        lemma_with_switch_appends(acc, b, "--disableSubsumption"@, self.disable_subsumption);
        let a = with_switch(a, "--disableSubsumption"@, self.disable_subsumption);
        let b = with_switch(b, "--disableSubsumption"@, self.disable_subsumption);
        assert(a == acc + b);
        lemma_with_switch_appends(acc, b, "--disableTempDirectory"@, self.disable_temp_directory);
        let a = with_switch(a, "--disableTempDirectory"@, self.disable_temp_directory);
        let b = with_switch(b, "--disableTempDirectory"@, self.disable_temp_directory);
        assert(a == acc + b);
        lemma_with_switch_appends(
            acc,
            b,
            "--disableValueMapCaching"@,
            self.disable_value_map_caching,
        );
        let a = with_switch(a, "--disableValueMapCaching"@, self.disable_value_map_caching);
        let b = with_switch(b, "--disableValueMapCaching"@, self.disable_value_map_caching);
        assert(a == acc + b);
        lemma_with_switch_appends(
            acc,
            b,
            "--enableBranchconditionReporting"@,
            self.enable_branchcondition_reporting,
        );
        let a = with_switch(
            a,
            "--enableBranchconditionReporting"@,
            self.enable_branchcondition_reporting,
        );
        let b = with_switch(
            b,
            "--enableBranchconditionReporting"@,
            self.enable_branchcondition_reporting,
        );
        assert(a == acc + b);
        lemma_with_switch_appends(
            acc,
            b,
            "--enableMoreCompleteExhale"@,
            self.enable_more_complete_exhale,
        );
        let a = with_switch(a, "--enableMoreCompleteExhale"@, self.enable_more_complete_exhale);
        let b = with_switch(b, "--enableMoreCompleteExhale"@, self.enable_more_complete_exhale);
        assert(a == acc + b);
        lemma_with_switch_appends(
            acc,
            b,
            "--enablePredicateTriggersOnInhale"@,
            self.enable_predicate_triggers_on_inhale,
        );
        let a = with_switch(
            a,
            "--enablePredicateTriggersOnInhale"@,
            self.enable_predicate_triggers_on_inhale,
        );
        let b = with_switch(
            b,
            "--enablePredicateTriggersOnInhale"@,
            self.enable_predicate_triggers_on_inhale,
        );
        assert(a == acc + b);
        lemma_with_value_appends(acc, b, "--excludeMethods"@, self.exclude_methods);
        let a = with_value(a, "--excludeMethods"@, self.exclude_methods);
        let b = with_value(b, "--excludeMethods"@, self.exclude_methods);
        assert(a == acc + b);
        lemma_with_switch_appends(
            acc,
            b,
            "--handlePureConjunctsIndividually"@,
            self.handle_pure_conjuncts_individually,
        );
        let a = with_switch(
            a,
            "--handlePureConjunctsIndividually"@,
            self.handle_pure_conjuncts_individually,
        );
        let b = with_switch(
            b,
            "--handlePureConjunctsIndividually"@,
            self.handle_pure_conjuncts_individually,
        );
        assert(a == acc + b);
        lemma_with_value_appends(acc, b, "--includeMethods"@, self.include_methods);
        let a = with_value(a, "--includeMethods"@, self.include_methods);
        let b = with_value(b, "--includeMethods"@, self.include_methods);
        assert(a == acc + b);
        lemma_with_value_appends(acc, b, "--logConfig"@, self.log_config);
        let a = with_value(a, "--logConfig"@, self.log_config);
        let b = with_value(b, "--logConfig"@, self.log_config);
        assert(a == acc + b);
        lemma_with_value_appends(acc, b, "--logLevel"@, self.log_level);
        let a = with_value(a, "--logLevel"@, self.log_level);
        let b = with_value(b, "--logLevel"@, self.log_level);
        assert(a == acc + b);
        lemma_with_value_appends(acc, b, "--mapAxiomatizationFile"@, self.map_axiomatization_file);
        let a = with_value(a, "--mapAxiomatizationFile"@, self.map_axiomatization_file);
        let b = with_value(b, "--mapAxiomatizationFile"@, self.map_axiomatization_file);
        assert(a == acc + b);
        lemma_with_value_appends(acc, b, "--maxHeuristicsDepth"@, self.max_heuristics_depth);
        let a = with_value(a, "--maxHeuristicsDepth"@, self.max_heuristics_depth);
        let b = with_value(b, "--maxHeuristicsDepth"@, self.max_heuristics_depth);
        assert(a == acc + b);
        lemma_with_value_appends(
            acc,
            b,
            "--multisetAxiomatizationFile"@,
            self.multiset_axiomatization_file,
        );
        let a = with_value(a, "--multisetAxiomatizationFile"@, self.multiset_axiomatization_file);
        let b = with_value(b, "--multisetAxiomatizationFile"@, self.multiset_axiomatization_file);
        assert(a == acc + b);
        lemma_with_value_appends(
            acc,
            b,
            "--numberOfErrorsToReport"@,
            self.number_of_errors_to_report,
        );
        let a = with_value(a, "--numberOfErrorsToReport"@, self.number_of_errors_to_report);
        let b = with_value(b, "--numberOfErrorsToReport"@, self.number_of_errors_to_report);
        assert(a == acc + b);
        lemma_with_value_appends(
            acc,
            b,
            "--numberOfParallelVerifiers"@,
            self.number_of_parallel_verifiers,
        );
        let a = with_value(a, "--numberOfParallelVerifiers"@, self.number_of_parallel_verifiers);
        let b = with_value(b, "--numberOfParallelVerifiers"@, self.number_of_parallel_verifiers);
        assert(a == acc + b);
        lemma_with_switch_appends(acc, b, "--parallelizeBranches"@, self.parallelize_branches);
        let a = with_switch(a, "--parallelizeBranches"@, self.parallelize_branches);
        let b = with_switch(b, "--parallelizeBranches"@, self.parallelize_branches);
        assert(a == acc + b);
        lemma_with_value_appends(acc, b, "--plugin"@, self.plugin);
        let a = with_value(a, "--plugin"@, self.plugin);
        let b = with_value(b, "--plugin"@, self.plugin);
        assert(a == acc + b);
        lemma_with_switch_appends(acc, b, "--printMethodCFGs"@, self.print_method_cf_gs);
        let a = with_switch(a, "--printMethodCFGs"@, self.print_method_cf_gs);
        let b = with_switch(b, "--printMethodCFGs"@, self.print_method_cf_gs);
        assert(a == acc + b);
        lemma_with_switch_appends(
            acc,
            b,
            "--printTranslatedProgram"@,
            self.print_translated_program,
        );
        let a = with_switch(a, "--printTranslatedProgram"@, self.print_translated_program);
        let b = with_switch(b, "--printTranslatedProgram"@, self.print_translated_program);
        assert(a == acc + b);
        lemma_with_value_appends(acc, b, "--prover"@, self.prover);
        let a = with_value(a, "--prover"@, self.prover);
        let b = with_value(b, "--prover"@, self.prover);
        assert(a == acc + b);
        lemma_with_value_appends(acc, b, "--proverArgs"@, self.prover_args);
        let a = with_value(a, "--proverArgs"@, self.prover_args);
        let b = with_value(b, "--proverArgs"@, self.prover_args);
        assert(a == acc + b);
        lemma_with_value_appends(acc, b, "--proverConfigArgs"@, self.prover_config_args);
        let a = with_value(a, "--proverConfigArgs"@, self.prover_config_args);
        let b = with_value(b, "--proverConfigArgs"@, self.prover_config_args);
        assert(a == acc + b);
        lemma_with_switch_appends(
            acc,
            b,
            "--proverEnableResourceBounds"@,
            self.prover_enable_resource_bounds,
        );
        let a = with_switch(a, "--proverEnableResourceBounds"@, self.prover_enable_resource_bounds);
        let b = with_switch(b, "--proverEnableResourceBounds"@, self.prover_enable_resource_bounds);
        assert(a == acc + b);
        lemma_with_value_appends(acc, b, "--proverLogFile"@, self.prover_log_file);
        let a = with_value(a, "--proverLogFile"@, self.prover_log_file);
        let b = with_value(b, "--proverLogFile"@, self.prover_log_file);
        assert(a == acc + b);
        lemma_with_switch_appends(acc, b, "--proverRandomizeSeeds"@, self.prover_randomize_seeds);
        let a = with_switch(a, "--proverRandomizeSeeds"@, self.prover_randomize_seeds);
        let b = with_switch(b, "--proverRandomizeSeeds"@, self.prover_randomize_seeds);
        assert(a == acc + b);
        lemma_with_value_appends(
            acc,
            b,
            "--proverResourcesPerMillisecond"@,
            self.prover_resources_per_millisecond,
        );
        let a = with_value(
            a,
            "--proverResourcesPerMillisecond"@,
            self.prover_resources_per_millisecond,
        );
        let b = with_value(
            b,
            "--proverResourcesPerMillisecond"@,
            self.prover_resources_per_millisecond,
        );
        assert(a == acc + b);
        lemma_with_value_appends(
            acc,
            b,
            "--proverSaturationTimeout"@,
            self.prover_saturation_timeout,
        );
        let a = with_value(a, "--proverSaturationTimeout"@, self.prover_saturation_timeout);
        let b = with_value(b, "--proverSaturationTimeout"@, self.prover_saturation_timeout);
        assert(a == acc + b);
        lemma_with_value_appends(
            acc,
            b,
            "--proverSaturationTimeoutWeights"@,
            self.prover_saturation_timeout_weights,
        );
        let a = with_value(
            a,
            "--proverSaturationTimeoutWeights"@,
            self.prover_saturation_timeout_weights,
        );
        let b = with_value(
            b,
            "--proverSaturationTimeoutWeights"@,
            self.prover_saturation_timeout_weights,
        );
        assert(a == acc + b);
        lemma_with_value_appends(acc, b, "--pushTimeout"@, self.push_timeout);
        let a = with_value(a, "--pushTimeout"@, self.push_timeout);
        let b = with_value(b, "--pushTimeout"@, self.push_timeout);
        assert(a == acc + b);
        lemma_with_value_appends(acc, b, "--qpSplitTimeout"@, self.qp_split_timeout);
        let a = with_value(a, "--qpSplitTimeout"@, self.qp_split_timeout);
        let b = with_value(b, "--qpSplitTimeout"@, self.qp_split_timeout);
        assert(a == acc + b);
        lemma_with_value_appends(
            acc,
            b,
            "--recursivePredicateUnfoldings"@,
            self.recursive_predicate_unfoldings,
        );
        let a = with_value(
            a,
            "--recursivePredicateUnfoldings"@,
            self.recursive_predicate_unfoldings,
        );
        let b = with_value(
            b,
            "--recursivePredicateUnfoldings"@,
            self.recursive_predicate_unfoldings,
        );
        assert(a == acc + b);
        lemma_with_value_appends(
            acc,
            b,
            "--sequenceAxiomatizationFile"@,
            self.sequence_axiomatization_file,
        );
        let a = with_value(a, "--sequenceAxiomatizationFile"@, self.sequence_axiomatization_file);
        let b = with_value(b, "--sequenceAxiomatizationFile"@, self.sequence_axiomatization_file);
        assert(a == acc + b);
        lemma_with_value_appends(acc, b, "--setAxiomatizationFile"@, self.set_axiomatization_file);
        let a = with_value(a, "--setAxiomatizationFile"@, self.set_axiomatization_file);
        let b = with_value(b, "--setAxiomatizationFile"@, self.set_axiomatization_file);
        assert(a == acc + b);
        lemma_with_value_appends(
            acc,
            b,
            "--stateConsolidationMode"@,
            self.state_consolidation_mode,
        );
        let a = with_value(a, "--stateConsolidationMode"@, self.state_consolidation_mode);
        let b = with_value(b, "--stateConsolidationMode"@, self.state_consolidation_mode);
        assert(a == acc + b);
        lemma_with_switch_appends(acc, b, "--moreCompleteExhale"@, self.more_complete_exhale);
        let a = with_switch(a, "--moreCompleteExhale"@, self.more_complete_exhale);
        let b = with_switch(b, "--moreCompleteExhale"@, self.more_complete_exhale);
        assert(a == acc + b);
        lemma_with_value_appends(acc, b, "--tempDirectory"@, self.temp_directory);
        let a = with_value(a, "--tempDirectory"@, self.temp_directory);
        let b = with_value(b, "--tempDirectory"@, self.temp_directory);
        assert(a == acc + b);
        lemma_with_value_appends(acc, b, "--timeout"@, self.timeout);
        let a = with_value(a, "--timeout"@, self.timeout);
        let b = with_value(b, "--timeout"@, self.timeout);
        assert(a == acc + b);
        lemma_with_value_appends(acc, b, "--z3Args"@, self.z3_args);
        let a = with_value(a, "--z3Args"@, self.z3_args);
        let b = with_value(b, "--z3Args"@, self.z3_args);
        assert(a == acc + b);
        lemma_with_value_appends(acc, b, "--z3ConfigArgs"@, self.z3_config_args);
        let a = with_value(a, "--z3ConfigArgs"@, self.z3_config_args);
        let b = with_value(b, "--z3ConfigArgs"@, self.z3_config_args);
        assert(a == acc + b);
        lemma_with_switch_appends(
            acc,
            b,
            "--z3EnableResourceBounds"@,
            self.z3_enable_resource_bounds,
        );
        let a = with_switch(a, "--z3EnableResourceBounds"@, self.z3_enable_resource_bounds);
        let b = with_switch(b, "--z3EnableResourceBounds"@, self.z3_enable_resource_bounds);
        assert(a == acc + b);
        lemma_with_value_appends(acc, b, "--z3Exe"@, self.z3_exe);
        let a = with_value(a, "--z3Exe"@, self.z3_exe);
        let b = with_value(b, "--z3Exe"@, self.z3_exe);
        assert(a == acc + b);
        lemma_with_value_appends(acc, b, "--z3LogFile"@, self.z3_log_file);
        let a = with_value(a, "--z3LogFile"@, self.z3_log_file);
        let b = with_value(b, "--z3LogFile"@, self.z3_log_file);
        assert(a == acc + b);
        lemma_with_switch_appends(acc, b, "--z3RandomizeSeeds"@, self.z3_randomize_seeds);
        let a = with_switch(a, "--z3RandomizeSeeds"@, self.z3_randomize_seeds);
        let b = with_switch(b, "--z3RandomizeSeeds"@, self.z3_randomize_seeds);
        assert(a == acc + b);
        lemma_with_value_appends(
            acc,
            b,
            "--z3ResourcesPerMillisecond"@,
            self.z3_resources_per_millisecond,
        );
        let a = with_value(a, "--z3ResourcesPerMillisecond"@, self.z3_resources_per_millisecond);
        let b = with_value(b, "--z3ResourcesPerMillisecond"@, self.z3_resources_per_millisecond);
        assert(a == acc + b);
        lemma_with_value_appends(acc, b, "--z3SaturationTimeout"@, self.z3_saturation_timeout);
        let a = with_value(a, "--z3SaturationTimeout"@, self.z3_saturation_timeout);
        let b = with_value(b, "--z3SaturationTimeout"@, self.z3_saturation_timeout);
        assert(a == acc + b);
        lemma_with_value_appends(
            acc,
            b,
            "--z3SaturationTimeoutWeights"@,
            self.z3_saturation_timeout_weights,
        );
        let a = with_value(a, "--z3SaturationTimeoutWeights"@, self.z3_saturation_timeout_weights);
        let b = with_value(b, "--z3SaturationTimeoutWeights"@, self.z3_saturation_timeout_weights);
        assert(a == acc + b);
    }

    /// The options as they are written on a command line: each argument followed by
    /// one space.
    pub fn to_string(&self) -> (r: String)
        ensures
            r@ == spaced(self.args()),
    {
        let mut args: Vec<String> = Vec::new();
        assert(args.deep_view() =~= Seq::<Seq<char>>::empty());
        self.apply(&mut args);
        render_spaced(&args)
    }
}

/// Why [`SiliconOptsBuilder::build`] refused to build.
#[derive(Debug)]
pub enum SiliconOptsBuilderError {
    /// A field that has no default was never set.
    UninitializedField(String),
    /// The values that were set do not go together.
    ValidationError(String),
}

/// Collects the settings of [`SiliconOpts`] one call at a time.
#[derive(Debug)]
pub struct SiliconOptsBuilder {
    opts: SiliconOpts,
}

impl Default for SiliconOptsBuilder {
    /// A builder in which nothing is set yet.
    fn default() -> (r: Self)
        ensures
            r.pending() == SiliconOpts::unset(),
    {
        SiliconOptsBuilder { opts: SiliconOpts::default() }
    }
}

impl Clone for SiliconOptsBuilder {
    fn clone(&self) -> (r: Self)
        ensures
            r == *self,
    {
        SiliconOptsBuilder { opts: self.opts.clone() }
    }
}

impl SiliconOptsBuilder {
    /// The options as they have been set so far.
    pub closed spec fn pending(&self) -> SiliconOpts {
        self.opts
    }

    /// `--alternativeFunctionVerificationOrder`
    ///
    /// Calculate the order in which functions are verified and function axioms become available
    /// in an alternative way that takes dependencies between functions through predicate
    /// unfoldings into account. This is more complete in some cases (see Silicon issue #355)
    /// but less complete in others (see test all/issues/silicon/unofficial007).
    pub fn alternative_function_verification_order(&mut self, value: bool) -> (ret: &mut Self)
        ensures
            ret.pending() == (SiliconOpts {
                alternative_function_verification_order: Some(value),
                ..old(self).pending()
            }),
            *final(self) == *final(ret),
    {
        self.opts.alternative_function_verification_order = Some(value);
        self
    }

    /// `--assertionMode  <arg>...`
    ///
    /// Determines how assertion checks are encoded in SMTLIB. Options are 'pp' (push-pop) and
    /// 'sc' (soft constraints) (default: pp).
    pub fn assertion_mode(&mut self, value: &str) -> (ret: &mut Self)
        ensures
            ret.pending().assertion_mode matches Some(text) && text@ == value@,
            ret.pending() == (SiliconOpts {
                assertion_mode: ret.pending().assertion_mode,
                ..old(self).pending()
            }),
            *final(self) == *final(ret),
    {
        self.opts.assertion_mode = Some(value.to_string());
        self
    }

    /// `--assertTimeout  <arg>`
    ///
    /// Timeout (in ms) per SMT solver assertion (default: 0, i.e. no timeout). Ignored when
    /// using the cvc5 prover.
    pub fn assert_timeout(&mut self, value: &str) -> (ret: &mut Self)
        ensures
            ret.pending().assert_timeout matches Some(text) && text@ == value@,
            ret.pending() == (SiliconOpts {
                assert_timeout: ret.pending().assert_timeout,
                ..old(self).pending()
            }),
            *final(self) == *final(ret),
    {
        self.opts.assert_timeout = Some(value.to_string());
        self
    }

    /// `--assumeInjectivityOnInhale`
    ///
    /// Assumes injectivity of the receiver expression when inhaling quantified permissions,
    /// instead of checking it.
    pub fn assume_injectivity_on_inhale(&mut self, value: bool) -> (ret: &mut Self)
        ensures
            ret.pending() == (SiliconOpts {
                assume_injectivity_on_inhale: Some(value),
                ..old(self).pending()
            }),
            *final(self) == *final(ret),
    {
        self.opts.assume_injectivity_on_inhale = Some(value);
        self
    }

    /// `--checkTimeout  <arg>`
    ///
    /// Timeout (in ms) per SMT solver check. Solver checks differ from solver asserts in that a
    /// failing assert always yields a verification error whereas a failing check doesn't, at
    /// least not directly. However, failing checks might result in performance degradation,
    /// e.g. when a dead program path is nevertheless explored, and indirectly in verification
    /// failures due to incompletenesses, e.g. when the held permission amount is too coarsely
    /// underapproximated (default: 10). Ignored when using the cvc5 prover.
    pub fn check_timeout(&mut self, value: &str) -> (ret: &mut Self)
        ensures
            ret.pending().check_timeout matches Some(text) && text@ == value@,
            ret.pending() == (SiliconOpts {
                check_timeout: ret.pending().check_timeout,
                ..old(self).pending()
            }),
            *final(self) == *final(ret),
    {
        self.opts.check_timeout = Some(value.to_string());
        self
    }

    /// `--conditionalizePermissions`
    ///
    /// Potentially reduces the number of symbolic execution paths, by conditionalising
    /// permission expressions. E.g. rewrite "b ==> acc(x.f, p)" to "acc(x.f, b ? p :
    /// none)".This is an experimental feature; report problems if you observe any.
    pub fn conditionalize_permissions(&mut self, value: bool) -> (ret: &mut Self)
        ensures
            ret.pending() == (SiliconOpts {
                conditionalize_permissions: Some(value),
                ..old(self).pending()
            }),
            *final(self) == *final(ret),
    {
        self.opts.conditionalize_permissions = Some(value);
        self
    }

    /// `--counterexample  <arg>`
    ///
    /// Return counterexample for errors. Pass 'native' for returning the native model from the
    /// backend, 'variables' for returning a model of all local Viper variables, or 'mapped'
    /// (only available on Silicon) for returning a model with Ref variables resolved to
    /// object-like structures.
    pub fn counterexample(&mut self, value: &str) -> (ret: &mut Self)
        ensures
            ret.pending().counterexample matches Some(text) && text@ == value@,
            ret.pending() == (SiliconOpts {
                counterexample: ret.pending().counterexample,
                ..old(self).pending()
            }),
            *final(self) == *final(ret),
    {
        self.opts.counterexample = Some(value.to_string());
        self
    }

    /// `--cvc5Exe  <arg>`
    ///
    /// cvc5 executable. The environment variable CVC5_EXE can also be used to specify the path
    /// of the executable.
    pub fn cvc5_exe(&mut self, value: &str) -> (ret: &mut Self)
        ensures
            ret.pending().cvc5_exe matches Some(text) && text@ == value@,
            ret.pending() == (SiliconOpts {
                cvc5_exe: ret.pending().cvc5_exe,
                ..old(self).pending()
            }),
            *final(self) == *final(ret),
    {
        self.opts.cvc5_exe = Some(value.to_string());
        self
    }

    /// `--disableCaches`
    ///
    /// Disables various caches in Silicon's state.
    pub fn disable_caches(&mut self, value: bool) -> (ret: &mut Self)
        ensures
            ret.pending() == (SiliconOpts {
                disable_caches: Some(value),
                ..old(self).pending()
            }),
            *final(self) == *final(ret),
    {
        self.opts.disable_caches = Some(value);
        self
    }

    /// `--disableCatchingExceptions`
    ///
    /// Don't catch exceptions (can be useful for debugging problems with Silicon)
    pub fn disable_catching_exceptions(&mut self, value: bool) -> (ret: &mut Self)
        ensures
            ret.pending() == (SiliconOpts {
                disable_catching_exceptions: Some(value),
                ..old(self).pending()
            }),
            *final(self) == *final(ret),
    {
        self.opts.disable_catching_exceptions = Some(value);
        self
    }

    /// `--disableChunkOrderHeuristics`
    ///
    /// Disable heuristic ordering of quantified chunks (context: iterated separating
    /// conjunctions).
    pub fn disable_chunk_order_heuristics(&mut self, value: bool) -> (ret: &mut Self)
        ensures
            ret.pending() == (SiliconOpts {
                disable_chunk_order_heuristics: Some(value),
                ..old(self).pending()
            }),
            *final(self) == *final(ret),
    {
        self.opts.disable_chunk_order_heuristics = Some(value);
        self
    }

    /// `--disableFunctionUnfoldTrigger`
    ///
    /// Disables automatic triggering of function definitions when unfolding predicates they
    /// depend on.
    pub fn disable_function_unfold_trigger(&mut self, value: bool) -> (ret: &mut Self)
        ensures
            ret.pending() == (SiliconOpts {
                disable_function_unfold_trigger: Some(value),
                ..old(self).pending()
            }),
            *final(self) == *final(ret),
    {
        self.opts.disable_function_unfold_trigger = Some(value);
        self
    }

    /// `--disableHavocHack407`
    ///
    /// A Viper method call to ___silicon_hack407_havoc_all_R, where R is a field or predicate,
    /// results in Silicon havocking all instances of R. See also Silicon issue #407.
    pub fn disable_havoc_hack407(&mut self, value: bool) -> (ret: &mut Self)
        ensures
            ret.pending() == (SiliconOpts {
                disable_havoc_hack407: Some(value),
                ..old(self).pending()
            }),
            *final(self) == *final(ret),
    {
        self.opts.disable_havoc_hack407 = Some(value);
        self
    }

    /// `--disableISCTriggers`
    ///
    /// Don't pick triggers for quantifiers, let the SMT solver do it (context: iterated
    /// separating conjunctions).
    pub fn disable_isc_triggers(&mut self, value: bool) -> (ret: &mut Self)
        ensures
            ret.pending() == (SiliconOpts {
                disable_isc_triggers: Some(value),
                ..old(self).pending()
            }),
            *final(self) == *final(ret),
    {
        self.opts.disable_isc_triggers = Some(value);
        self
    }

    /// `--disableShortCircuitingEvaluations`
    ///
    /// Disable short-circuiting evaluation of AND, OR. If disabled, evaluating e.g., i > 0 &&
    /// f(i), will fail if f's precondition requires i > 0.
    pub fn disable_short_circuiting_evaluations(&mut self, value: bool) -> (ret: &mut Self)
        ensures
            ret.pending() == (SiliconOpts {
                disable_short_circuiting_evaluations: Some(value),
                ..old(self).pending()
            }),
            *final(self) == *final(ret),
    {
        self.opts.disable_short_circuiting_evaluations = Some(value);
        self
    }

    /// `--disableSubsumption`
    ///
    /// Don't add assumptions gained by verifying an assert statement
    pub fn disable_subsumption(&mut self, value: bool) -> (ret: &mut Self)
        ensures
            ret.pending() == (SiliconOpts {
                disable_subsumption: Some(value),
                ..old(self).pending()
            }),
            *final(self) == *final(ret),
    {
        self.opts.disable_subsumption = Some(value);
        self
    }

    /// `--disableTempDirectory`
    ///
    /// Disable the creation of temporary data (default: ./tmp)
    pub fn disable_temp_directory(&mut self, value: bool) -> (ret: &mut Self)
        ensures
            ret.pending() == (SiliconOpts {
                disable_temp_directory: Some(value),
                ..old(self).pending()
            }),
            *final(self) == *final(ret),
    {
        self.opts.disable_temp_directory = Some(value);
        self
    }

    /// `--disableValueMapCaching`
    ///
    /// Disable caching of value maps (context: iterated separating conjunctions).
    pub fn disable_value_map_caching(&mut self, value: bool) -> (ret: &mut Self)
        ensures
            ret.pending() == (SiliconOpts {
                disable_value_map_caching: Some(value),
                ..old(self).pending()
            }),
            *final(self) == *final(ret),
    {
        self.opts.disable_value_map_caching = Some(value);
        self
    }

    /// `--enableBranchconditionReporting`
    ///
    /// Report branch conditions (can be useful for assertions that fail on multiple branches)
    pub fn enable_branchcondition_reporting(&mut self, value: bool) -> (ret: &mut Self)
        ensures
            ret.pending() == (SiliconOpts {
                enable_branchcondition_reporting: Some(value),
                ..old(self).pending()
            }),
            *final(self) == *final(ret),
    {
        self.opts.enable_branchcondition_reporting = Some(value);
        self
    }

    /// `--enableMoreCompleteExhale`
    ///
    /// Enable a more complete exhale version.
    pub fn enable_more_complete_exhale(&mut self, value: bool) -> (ret: &mut Self)
        ensures
            ret.pending() == (SiliconOpts {
                enable_more_complete_exhale: Some(value),
                ..old(self).pending()
            }),
            *final(self) == *final(ret),
    {
        self.opts.enable_more_complete_exhale = Some(value);
        self
    }

    /// `--enablePredicateTriggersOnInhale`
    ///
    /// Emit predicate-based function trigger on each inhale of a predicate instance (context:
    /// heap-dependent functions).
    pub fn enable_predicate_triggers_on_inhale(&mut self, value: bool) -> (ret: &mut Self)
        ensures
            ret.pending() == (SiliconOpts {
                enable_predicate_triggers_on_inhale: Some(value),
                ..old(self).pending()
            }),
            *final(self) == *final(ret),
    {
        self.opts.enable_predicate_triggers_on_inhale = Some(value);
        self
    }

    /// `--excludeMethods  <arg>`
    ///
    /// Exclude methods from verification (default: ''). Is applied after the include pattern.
    pub fn exclude_methods(&mut self, value: &str) -> (ret: &mut Self)
        ensures
            ret.pending().exclude_methods matches Some(text) && text@ == value@,
            ret.pending() == (SiliconOpts {
                exclude_methods: ret.pending().exclude_methods,
                ..old(self).pending()
            }),
            *final(self) == *final(ret),
    {
        self.opts.exclude_methods = Some(value.to_string());
        self
    }

    /// `--handlePureConjunctsIndividually`
    ///
    /// Handle pure conjunction individually.Increases precision of error reporting, but may
    /// slow down verification.
    pub fn handle_pure_conjuncts_individually(&mut self, value: bool) -> (ret: &mut Self)
        ensures
            ret.pending() == (SiliconOpts {
                handle_pure_conjuncts_individually: Some(value),
                ..old(self).pending()
            }),
            *final(self) == *final(ret),
    {
        self.opts.handle_pure_conjuncts_individually = Some(value);
        self
    }

    /// `--includeMethods  <arg>`
    ///
    /// Include methods in verification (default: '*'). Wildcard characters are '?' and '*'.
    /// -Llogger=level [logger=level]...                 Set level of certain internal loggers
    pub fn include_methods(&mut self, value: &str) -> (ret: &mut Self)
        ensures
            ret.pending().include_methods matches Some(text) && text@ == value@,
            ret.pending() == (SiliconOpts {
                include_methods: ret.pending().include_methods,
                ..old(self).pending()
            }),
            *final(self) == *final(ret),
    {
        self.opts.include_methods = Some(value.to_string());
        self
    }

    /// `--logConfig  <arg>`
    ///
    /// Path to config file specifying SymbExLogger options
    pub fn log_config(&mut self, value: &str) -> (ret: &mut Self)
        ensures
            ret.pending().log_config matches Some(text) && text@ == value@,
            ret.pending() == (SiliconOpts {
                log_config: ret.pending().log_config,
                ..old(self).pending()
            }),
            *final(self) == *final(ret),
    {
        self.opts.log_config = Some(value.to_string());
        self
    }

    /// `--logLevel  <arg>`
    ///
    /// One of the log levels ALL, TRACE, DEBUG, INFO, WARN, ERROR, OFF
    pub fn log_level(&mut self, value: &str) -> (ret: &mut Self)
        ensures
            ret.pending().log_level matches Some(text) && text@ == value@,
            ret.pending() == (SiliconOpts {
                log_level: ret.pending().log_level,
                ..old(self).pending()
            }),
            *final(self) == *final(ret),
    {
        self.opts.log_level = Some(value.to_string());
        self
    }

    /// `--mapAxiomatizationFile  <arg>`
    ///
    /// Source file with map axiomatisation. If omitted, built-in one is used.
    pub fn map_axiomatization_file(&mut self, value: &str) -> (ret: &mut Self)
        ensures
            ret.pending().map_axiomatization_file matches Some(text) && text@ == value@,
            ret.pending() == (SiliconOpts {
                map_axiomatization_file: ret.pending().map_axiomatization_file,
                ..old(self).pending()
            }),
            *final(self) == *final(ret),
    {
        self.opts.map_axiomatization_file = Some(value.to_string());
        self
    }

    /// `--maxHeuristicsDepth  <arg>`
    ///
    /// Maximal number of nested heuristics applications (default: 3)
    pub fn max_heuristics_depth(&mut self, value: &str) -> (ret: &mut Self)
        ensures
            ret.pending().max_heuristics_depth matches Some(text) && text@ == value@,
            ret.pending() == (SiliconOpts {
                max_heuristics_depth: ret.pending().max_heuristics_depth,
                ..old(self).pending()
            }),
            *final(self) == *final(ret),
    {
        self.opts.max_heuristics_depth = Some(value.to_string());
        self
    }

    /// `--multisetAxiomatizationFile  <arg>`
    ///
    /// Source file with multiset axiomatisation. If omitted, built-in one is used.
    pub fn multiset_axiomatization_file(&mut self, value: &str) -> (ret: &mut Self)
        ensures
            ret.pending().multiset_axiomatization_file matches Some(text) && text@ == value@,
            ret.pending() == (SiliconOpts {
                multiset_axiomatization_file: ret.pending().multiset_axiomatization_file,
                ..old(self).pending()
            }),
            *final(self) == *final(ret),
    {
        self.opts.multiset_axiomatization_file = Some(value.to_string());
        self
    }

    /// `--numberOfErrorsToReport  <arg>`
    ///
    /// Number of errors per member before the verifier stops. If this number is set to 0, all
    /// errors are reported.
    pub fn number_of_errors_to_report(&mut self, value: &str) -> (ret: &mut Self)
        ensures
            ret.pending().number_of_errors_to_report matches Some(text) && text@ == value@,
            ret.pending() == (SiliconOpts {
                number_of_errors_to_report: ret.pending().number_of_errors_to_report,
                ..old(self).pending()
            }),
            *final(self) == *final(ret),
    {
        self.opts.number_of_errors_to_report = Some(value.to_string());
        self
    }

    /// `--numberOfParallelVerifiers  <arg>`
    ///
    /// Number of verifiers run in parallel. This number plus one is the number of provers run
    /// in parallel (default: 10)
    pub fn number_of_parallel_verifiers(&mut self, value: &str) -> (ret: &mut Self)
        ensures
            ret.pending().number_of_parallel_verifiers matches Some(text) && text@ == value@,
            ret.pending() == (SiliconOpts {
                number_of_parallel_verifiers: ret.pending().number_of_parallel_verifiers,
                ..old(self).pending()
            }),
            *final(self) == *final(ret),
    {
        self.opts.number_of_parallel_verifiers = Some(value.to_string());
        self
    }

    /// `--parallelizeBranches`
    ///
    /// Verify different branches in parallel.
    pub fn parallelize_branches(&mut self, value: bool) -> (ret: &mut Self)
        ensures
            ret.pending() == (SiliconOpts {
                parallelize_branches: Some(value),
                ..old(self).pending()
            }),
            *final(self) == *final(ret),
    {
        self.opts.parallelize_branches = Some(value);
        self
    }

    /// `--plugin  <arg>`
    ///
    /// Load plugin(s) with given class name(s). Several plugins can be separated by ':'. The
    /// fully qualified class name of the plugin should be specified.
    pub fn plugin(&mut self, value: &str) -> (ret: &mut Self)
        ensures
            ret.pending().plugin matches Some(text) && text@ == value@,
            ret.pending() == (SiliconOpts {
                plugin: ret.pending().plugin,
                ..old(self).pending()
            }),
            *final(self) == *final(ret),
    {
        self.opts.plugin = Some(value.to_string());
        self
    }

    /// `--printMethodCFGs`
    ///
    /// Print a DOT (Graphviz) representation of the CFG of each method to verify to a file
    /// '<tempDirectory>/<methodName>.dot'.
    pub fn print_method_cf_gs(&mut self, value: bool) -> (ret: &mut Self)
        ensures
            ret.pending() == (SiliconOpts {
                print_method_cf_gs: Some(value),
                ..old(self).pending()
            }),
            *final(self) == *final(ret),
    {
        self.opts.print_method_cf_gs = Some(value);
        self
    }

    /// `--printTranslatedProgram`
    ///
    /// Print the final program that is going to be verified to stdout.
    pub fn print_translated_program(&mut self, value: bool) -> (ret: &mut Self)
        ensures
            ret.pending() == (SiliconOpts {
                print_translated_program: Some(value),
                ..old(self).pending()
            }),
            *final(self) == *final(ret),
    {
        self.opts.print_translated_program = Some(value);
        self
    }

    /// `--prover  <arg>`
    ///
    /// One of the provers Z3, cvc5, Z3-API. (default: Z3).
    pub fn prover(&mut self, value: &str) -> (ret: &mut Self)
        ensures
            ret.pending().prover matches Some(text) && text@ == value@,
            ret.pending() == (SiliconOpts {
                prover: ret.pending().prover,
                ..old(self).pending()
            }),
            *final(self) == *final(ret),
    {
        self.opts.prover = Some(value.to_string());
        self
    }

    /// `--proverArgs  <arg>`
    ///
    /// Command-line arguments which should be forwarded to the prover. The expected format is
    /// "<opt> <opt> ... <opt>", excluding the quotation marks.
    pub fn prover_args(&mut self, value: &str) -> (ret: &mut Self)
        ensures
            ret.pending().prover_args matches Some(text) && text@ == value@,
            ret.pending() == (SiliconOpts {
                prover_args: ret.pending().prover_args,
                ..old(self).pending()
            }),
            *final(self) == *final(ret),
    {
        self.opts.prover_args = Some(value.to_string());
        self
    }

    /// `--proverConfigArgs  <arg>...`
    ///
    /// Configuration options which should be forwarded to the prover. The expected format is
    /// "<key>=<val> <key>=<val> ... <key>=<val>", excluding the quotation marks. The
    /// configuration options given here will override those from Silicon's prover preamble.
    pub fn prover_config_args(&mut self, value: &str) -> (ret: &mut Self)
        ensures
            ret.pending().prover_config_args matches Some(text) && text@ == value@,
            ret.pending() == (SiliconOpts {
                prover_config_args: ret.pending().prover_config_args,
                ..old(self).pending()
            }),
            *final(self) == *final(ret),
    {
        self.opts.prover_config_args = Some(value.to_string());
        self
    }

    /// `--proverEnableResourceBounds`
    ///
    /// Use prover's resource bounds instead of timeouts
    pub fn prover_enable_resource_bounds(&mut self, value: bool) -> (ret: &mut Self)
        ensures
            ret.pending() == (SiliconOpts {
                prover_enable_resource_bounds: Some(value),
                ..old(self).pending()
            }),
            *final(self) == *final(ret),
    {
        self.opts.prover_enable_resource_bounds = Some(value);
        self
    }

    /// `--proverLogFile  <arg>`
    ///
    /// Log file containing the interaction with the prover, extension smt2 will be appended.
    /// (default: <tempDirectory>/logfile.smt2)
    pub fn prover_log_file(&mut self, value: &str) -> (ret: &mut Self)
        ensures
            ret.pending().prover_log_file matches Some(text) && text@ == value@,
            ret.pending() == (SiliconOpts {
                prover_log_file: ret.pending().prover_log_file,
                ..old(self).pending()
            }),
            *final(self) == *final(ret),
    {
        self.opts.prover_log_file = Some(value.to_string());
        self
    }

    /// `--proverRandomizeSeeds`
    ///
    /// Set various random seeds of the prover to random values
    pub fn prover_randomize_seeds(&mut self, value: bool) -> (ret: &mut Self)
        ensures
            ret.pending() == (SiliconOpts {
                prover_randomize_seeds: Some(value),
                ..old(self).pending()
            }),
            *final(self) == *final(ret),
    {
        self.opts.prover_randomize_seeds = Some(value);
        self
    }

    /// `--proverResourcesPerMillisecond  <arg>`
    ///
    /// Prover resources per milliseconds. Is used to convert timeouts to resource bounds.
    pub fn prover_resources_per_millisecond(&mut self, value: &str) -> (ret: &mut Self)
        ensures
            ret.pending().prover_resources_per_millisecond matches Some(text) && text@ == value@,
            ret.pending() == (SiliconOpts {
                prover_resources_per_millisecond: ret.pending().prover_resources_per_millisecond,
                ..old(self).pending()
            }),
            *final(self) == *final(ret),
    {
        self.opts.prover_resources_per_millisecond = Some(value.to_string());
        self
    }

    /// `--proverSaturationTimeout  <arg>`
    ///
    /// Timeout (in ms) used for the prover's state saturation calls (default: 100). A timeout
    /// of 0 disables all saturation checks.Note that for the cvc5 prover, state saturation
    /// calls can either be disabled (weights or base timeout of 0) or forced with no timeout
    /// (positive weight and base timeout).
    pub fn prover_saturation_timeout(&mut self, value: &str) -> (ret: &mut Self)
        ensures
            ret.pending().prover_saturation_timeout matches Some(text) && text@ == value@,
            ret.pending() == (SiliconOpts {
                prover_saturation_timeout: ret.pending().prover_saturation_timeout,
                ..old(self).pending()
            }),
            *final(self) == *final(ret),
    {
        self.opts.prover_saturation_timeout = Some(value.to_string());
        self
    }

    /// `--proverSaturationTimeoutWeights  <arg>...`
    ///
    /// Weights used to compute the effective timeout for the prover's state saturation calls,
    /// which are made at various points during a symbolic execution. The effective timeouts for
    /// a particular saturation call is computed by multiplying the corresponding weight with
    /// the base timeout for saturation calls. Defaults to the following weights: after program
    /// preamble: 1.0 after inhaling contracts: 0.5 after unfold: 0.4 after inhale: 0.2 before
    /// repeated prover queries: 0.02 Weights must be non-negative, a weight of 0 disables the
    /// corresponding saturation call and a minimal timeout of 10ms is enforced.Note that for
    /// the cvc5 prover, state saturation calls can either be disabled (weights or base timeout
    /// of 0) or forced with no timeout (positive weight and base timeout).
    pub fn prover_saturation_timeout_weights(&mut self, value: &str) -> (ret: &mut Self)
        ensures
            ret.pending().prover_saturation_timeout_weights matches Some(text) && text@ == value@,
            ret.pending() == (SiliconOpts {
                prover_saturation_timeout_weights: ret.pending().prover_saturation_timeout_weights,
                ..old(self).pending()
            }),
            *final(self) == *final(ret),
    {
        self.opts.prover_saturation_timeout_weights = Some(value.to_string());
        self
    }

    /// `--pushTimeout  <arg>`
    ///
    /// Timeout (in ms) per push operation in the SMT solver. (default: 0, i.e. no timeout).
    /// Ignored when using the cvc5 prover.
    pub fn push_timeout(&mut self, value: &str) -> (ret: &mut Self)
        ensures
            ret.pending().push_timeout matches Some(text) && text@ == value@,
            ret.pending() == (SiliconOpts {
                push_timeout: ret.pending().push_timeout,
                ..old(self).pending()
            }),
            *final(self) == *final(ret),
    {
        self.opts.push_timeout = Some(value.to_string());
        self
    }

    /// `--qpSplitTimeout  <arg>`
    ///
    /// Timeout (in ms) used by QP's split algorithm when 1) checking if a chunk holds no
    /// further permissions, and 2) checking if sufficiently many permissions have already been
    /// split off.
    pub fn qp_split_timeout(&mut self, value: &str) -> (ret: &mut Self)
        ensures
            ret.pending().qp_split_timeout matches Some(text) && text@ == value@,
            ret.pending() == (SiliconOpts {
                qp_split_timeout: ret.pending().qp_split_timeout,
                ..old(self).pending()
            }),
            *final(self) == *final(ret),
    {
        self.opts.qp_split_timeout = Some(value.to_string());
        self
    }

    /// `--recursivePredicateUnfoldings  <arg>`
    ///
    /// Evaluate n unfolding expressions in the body of predicates that (transitively) unfold
    /// other instances of themselves (default: 1)
    pub fn recursive_predicate_unfoldings(&mut self, value: &str) -> (ret: &mut Self)
        ensures
            ret.pending().recursive_predicate_unfoldings matches Some(text) && text@ == value@,
            ret.pending() == (SiliconOpts {
                recursive_predicate_unfoldings: ret.pending().recursive_predicate_unfoldings,
                ..old(self).pending()
            }),
            *final(self) == *final(ret),
    {
        self.opts.recursive_predicate_unfoldings = Some(value.to_string());
        self
    }

    /// `--sequenceAxiomatizationFile  <arg>`
    ///
    /// Source file with sequence axiomatisation. If omitted, built-in one is used.
    pub fn sequence_axiomatization_file(&mut self, value: &str) -> (ret: &mut Self)
        ensures
            ret.pending().sequence_axiomatization_file matches Some(text) && text@ == value@,
            ret.pending() == (SiliconOpts {
                sequence_axiomatization_file: ret.pending().sequence_axiomatization_file,
                ..old(self).pending()
            }),
            *final(self) == *final(ret),
    {
        self.opts.sequence_axiomatization_file = Some(value.to_string());
        self
    }

    /// `--setAxiomatizationFile  <arg>`
    ///
    /// Source file with set axiomatisation. If omitted, built-in one is used.
    pub fn set_axiomatization_file(&mut self, value: &str) -> (ret: &mut Self)
        ensures
            ret.pending().set_axiomatization_file matches Some(text) && text@ == value@,
            ret.pending() == (SiliconOpts {
                set_axiomatization_file: ret.pending().set_axiomatization_file,
                ..old(self).pending()
            }),
            *final(self) == *final(ret),
    {
        self.opts.set_axiomatization_file = Some(value.to_string());
        self
    }

    /// `--stateConsolidationMode  <arg>`
    ///
    /// One of the following modes: 0: Minimal work, many incompletenesses 1: Most work, fewest
    /// incompletenesses 2: Similar to 1, but less eager 3: Less eager and less complete than 1
    /// 4: Intended for use with
    pub fn state_consolidation_mode(&mut self, value: &str) -> (ret: &mut Self)
        ensures
            ret.pending().state_consolidation_mode matches Some(text) && text@ == value@,
            ret.pending() == (SiliconOpts {
                state_consolidation_mode: ret.pending().state_consolidation_mode,
                ..old(self).pending()
            }),
            *final(self) == *final(ret),
    {
        self.opts.state_consolidation_mode = Some(value.to_string());
        self
    }

    /// `--moreCompleteExhale`
    pub fn more_complete_exhale(&mut self, value: bool) -> (ret: &mut Self)
        ensures
            ret.pending() == (SiliconOpts {
                more_complete_exhale: Some(value),
                ..old(self).pending()
            }),
            *final(self) == *final(ret),
    {
        self.opts.more_complete_exhale = Some(value);
        self
    }

    /// `--tempDirectory  <arg>`
    ///
    /// Path to which all temporary data will be written (default: ./tmp)
    pub fn temp_directory(&mut self, value: &str) -> (ret: &mut Self)
        ensures
            ret.pending().temp_directory matches Some(text) && text@ == value@,
            ret.pending() == (SiliconOpts {
                temp_directory: ret.pending().temp_directory,
                ..old(self).pending()
            }),
            *final(self) == *final(ret),
    {
        self.opts.temp_directory = Some(value.to_string());
        self
    }

    /// `--timeout  <arg>`
    ///
    /// Time out after approx. n seconds. The timeout is for the whole verification, not per
    /// method or proof obligation (default: 0, i.e. no timeout).
    pub fn timeout(&mut self, value: &str) -> (ret: &mut Self)
        ensures
            ret.pending().timeout matches Some(text) && text@ == value@,
            ret.pending() == (SiliconOpts {
                timeout: ret.pending().timeout,
                ..old(self).pending()
            }),
            *final(self) == *final(ret),
    {
        self.opts.timeout = Some(value.to_string());
        self
    }

    /// `--z3Args  <arg>`
    ///
    /// Warning: This option is deprecated due to standardization in option naming. Please use
    /// 'proverArgs' instead... Command-line arguments which should be forwarded to Z3. The
    /// expected format is "<opt> <opt> ... <opt>", excluding the quotation marks.
    pub fn z3_args(&mut self, value: &str) -> (ret: &mut Self)
        ensures
            ret.pending().z3_args matches Some(text) && text@ == value@,
            ret.pending() == (SiliconOpts {
                z3_args: ret.pending().z3_args,
                ..old(self).pending()
            }),
            *final(self) == *final(ret),
    {
        self.opts.z3_args = Some(value.to_string());
        self
    }

    /// `--z3ConfigArgs  <arg>...`
    ///
    /// Warning: This option is deprecated due to standardization in option naming. Please use
    /// 'proverConfigArgs' instead... Configuration options which should be forwarded to Z3. The
    /// expected format is "<key>=<val> <key>=<val> ... <key>=<val>", excluding the quotation
    /// marks. The configuration options given here will override those from Silicon's Z3
    /// preamble.
    pub fn z3_config_args(&mut self, value: &str) -> (ret: &mut Self)
        ensures
            ret.pending().z3_config_args matches Some(text) && text@ == value@,
            ret.pending() == (SiliconOpts {
                z3_config_args: ret.pending().z3_config_args,
                ..old(self).pending()
            }),
            *final(self) == *final(ret),
    {
        self.opts.z3_config_args = Some(value.to_string());
        self
    }

    /// `--z3EnableResourceBounds`
    ///
    /// Warning: This option is deprecated due to standardization in option naming. Please use
    /// 'proverEnableResourceBounds' instead... Use Z3's resource bounds instead of timeouts
    pub fn z3_enable_resource_bounds(&mut self, value: bool) -> (ret: &mut Self)
        ensures
            ret.pending() == (SiliconOpts {
                z3_enable_resource_bounds: Some(value),
                ..old(self).pending()
            }),
            *final(self) == *final(ret),
    {
        self.opts.z3_enable_resource_bounds = Some(value);
        self
    }

    /// `--z3Exe  <arg>`
    ///
    /// Z3 executable. The environment variable Z3_EXE can also be used to specify the path of
    /// the executable.
    pub fn z3_exe(&mut self, value: &str) -> (ret: &mut Self)
        ensures
            ret.pending().z3_exe matches Some(text) && text@ == value@,
            ret.pending() == (SiliconOpts {
                z3_exe: ret.pending().z3_exe,
                ..old(self).pending()
            }),
            *final(self) == *final(ret),
    {
        self.opts.z3_exe = Some(value.to_string());
        self
    }

    /// `--z3LogFile  <arg>`
    ///
    /// Warning: This option is deprecated due to standardization in option naming. Please use
    /// 'proverLogFile' instead... Log file containing the interaction with the prover,
    /// extension smt2 will be appended. (default: <tempDirectory>/logfile.smt2).
    pub fn z3_log_file(&mut self, value: &str) -> (ret: &mut Self)
        ensures
            ret.pending().z3_log_file matches Some(text) && text@ == value@,
            ret.pending() == (SiliconOpts {
                z3_log_file: ret.pending().z3_log_file,
                ..old(self).pending()
            }),
            *final(self) == *final(ret),
    {
        self.opts.z3_log_file = Some(value.to_string());
        self
    }

    /// `--z3RandomizeSeeds`
    ///
    /// Warning: This option is deprecated due to standardization in option naming. Please use
    /// 'proverRandomizeSeeds' instead... Set various Z3 random seeds to random values
    pub fn z3_randomize_seeds(&mut self, value: bool) -> (ret: &mut Self)
        ensures
            ret.pending() == (SiliconOpts {
                z3_randomize_seeds: Some(value),
                ..old(self).pending()
            }),
            *final(self) == *final(ret),
    {
        self.opts.z3_randomize_seeds = Some(value);
        self
    }

    /// `--z3ResourcesPerMillisecond  <arg>`
    ///
    /// Warning: This option is deprecated due to standardization in option naming. Please use
    /// 'proverResourcesPerMillisecond' instead... Z3 resources per milliseconds. Is used to
    /// convert timeouts to resource bounds.
    pub fn z3_resources_per_millisecond(&mut self, value: &str) -> (ret: &mut Self)
        ensures
            ret.pending().z3_resources_per_millisecond matches Some(text) && text@ == value@,
            ret.pending() == (SiliconOpts {
                z3_resources_per_millisecond: ret.pending().z3_resources_per_millisecond,
                ..old(self).pending()
            }),
            *final(self) == *final(ret),
    {
        self.opts.z3_resources_per_millisecond = Some(value.to_string());
        self
    }

    /// `--z3SaturationTimeout  <arg>`
    ///
    /// Warning: This option is deprecated due to standardization in option naming. Please use
    /// 'proverSaturationTimeout' instead... Timeout (in ms) used for Z3 state saturation calls
    /// (default: 100). A timeout of 0 disables all saturation checks.
    pub fn z3_saturation_timeout(&mut self, value: &str) -> (ret: &mut Self)
        ensures
            ret.pending().z3_saturation_timeout matches Some(text) && text@ == value@,
            ret.pending() == (SiliconOpts {
                z3_saturation_timeout: ret.pending().z3_saturation_timeout,
                ..old(self).pending()
            }),
            *final(self) == *final(ret),
    {
        self.opts.z3_saturation_timeout = Some(value.to_string());
        self
    }

    /// `--z3SaturationTimeoutWeights  <arg>...`
    ///
    /// Warning: This option is deprecated due to standardization in option naming. Please use
    /// 'proverSaturationTimeoutWeights' instead... Weights used to compute the effective
    /// timeout for Z3 state saturation calls, which are made at various points during a
    /// symbolic execution. The effective timeouts for a particular saturation call is computed
    /// by multiplying the corresponding weight with the base timeout for saturation calls.
    /// Defaults to the following weights: after program preamble: 1.0 after inhaling contracts:
    /// 0.5 after unfold: 0.4 after inhale: 0.2 before repeated Z3 queries: 0.02 Weights must be
    /// non-negative, a weight of 0 disables the corresponding saturation call and a minimal
    /// timeout of 10ms is enforced.
    pub fn z3_saturation_timeout_weights(&mut self, value: &str) -> (ret: &mut Self)
        ensures
            ret.pending().z3_saturation_timeout_weights matches Some(text) && text@ == value@,
            ret.pending() == (SiliconOpts {
                z3_saturation_timeout_weights: ret.pending().z3_saturation_timeout_weights,
                ..old(self).pending()
            }),
            *final(self) == *final(ret),
    {
        self.opts.z3_saturation_timeout_weights = Some(value.to_string());
        self
    }

    /// The options that were set, every other one left unset. Each option has a
    /// default, so this succeeds whatever was set.
    pub fn build(&self) -> (r: Result<SiliconOpts, SiliconOptsBuilderError>)
        ensures
            r is Ok,
            r->Ok_0 == self.pending(),
    {
        Ok(self.opts.clone())
    }
}


} // verus!
