//! The options that the server process takes on its command line.

use super::common::{
    copy_of, lemma_with_switch_appends, lemma_with_value_appends, push_switch, push_value,
    with_switch, with_value,
};
use crate::text::{render_spaced, spaced};
use vstd::prelude::*;

verus! {

/// The options of the server process itself.
#[derive(Debug)]
pub struct ViperServerOpts {
    /// `--backendSpecificCache`
    ///
    /// Use a separate cache for each backend?
    pub backend_specific_cache: Option<bool>,
    /// `--cacheFile  <arg>`
    ///
    /// Specifies the file from which the cache gets initialized on startup and to which the
    /// resulting cache gets written to.If it is not set, the cache will be initially empty and
    /// is only kept in memory, so it is not persisted during runs
    pub cache_file: Option<String>,
    /// `--disableVersionCheck`
    ///
    /// Disables the client's version check.
    pub disable_version_check: Option<bool>,
    /// `--logFile  <arg>`
    ///
    /// Specifies the location of the log file to be used by ViperServer and the verification
    /// backends it creates.
    pub log_file: Option<String>,
    /// `--logLevel  <arg>`
    ///
    /// One of the log levels: ALL,TRACE,DEBUG,INFO,WARN,ERROR,OFF.
    pub log_level: Option<String>,
    /// `-m, --maximumActiveJobs  <arg>`
    ///
    /// Specifies the maximal amount of jobs that may run concurrently.The number must be
    /// positive integer.If the option is omitted, a default number of 3 jobs will be set.
    pub maximum_active_jobs: Option<String>,
    /// `--nThreads  <arg>`
    ///
    /// Maximal number of threads that should be used (not taking threads used by backend into
    /// account) Values below 3 (the minimum) will be set to the minimum. The default value is
    /// the maximum of 3 and the number of available processors
    pub n_threads: Option<String>,
    /// `-p, --port  <arg>`
    ///
    /// Specifies the port on which ViperServer will be started.The port must be an integer in
    /// range [1100-65535]If the option is omitted, an available port will be selected
    /// automatically.
    pub port: Option<String>,
    /// `--serverMode  <arg>`
    ///
    /// One of the supported protocols: LSP,HTTP.
    pub server_mode: Option<String>,
    /// `--singleClient`
    ///
    /// Handles only a single client in LSP mode and terminates automatically afterwards
    pub single_client: Option<bool>,
}

impl Default for ViperServerOpts {
    /// The options with none of them set.
    fn default() -> (r: Self)
        ensures
            r == Self::unset(),
    {
        ViperServerOpts {
            backend_specific_cache: None,
            cache_file: None,
            disable_version_check: None,
            log_file: None,
            log_level: None,
            maximum_active_jobs: None,
            n_threads: None,
            port: None,
            server_mode: None,
            single_client: None,
        }
    }
}

impl Clone for ViperServerOpts {
    fn clone(&self) -> (r: Self)
        ensures
            r == *self,
    {
        ViperServerOpts {
            backend_specific_cache: self.backend_specific_cache,
            cache_file: copy_of(&self.cache_file),
            disable_version_check: self.disable_version_check,
            log_file: copy_of(&self.log_file),
            log_level: copy_of(&self.log_level),
            maximum_active_jobs: copy_of(&self.maximum_active_jobs),
            n_threads: copy_of(&self.n_threads),
            port: copy_of(&self.port),
            server_mode: copy_of(&self.server_mode),
            single_client: self.single_client,
        }
    }
}

impl ViperServerOpts {
    /// The options with none of them set.
    pub open spec fn unset() -> Self {
        ViperServerOpts {
            backend_specific_cache: None,
            cache_file: None,
            disable_version_check: None,
            log_file: None,
            log_level: None,
            maximum_active_jobs: None,
            n_threads: None,
            port: None,
            server_mode: None,
            single_client: None,
        }
    }

    /// `acc` followed by the arguments that stand for these options: for each option
    /// that is set, in the order of the fields, a switch contributes its name and a
    /// valued option its name and then its value.
    pub open spec fn applied(&self, acc: Seq<Seq<char>>) -> Seq<Seq<char>> {
        let acc = with_switch(acc, "--backendSpecificCache"@, self.backend_specific_cache);
        let acc = with_value(acc, "--cacheFile"@, self.cache_file);
        let acc = with_switch(acc, "--disableVersionCheck"@, self.disable_version_check);
        let acc = with_value(acc, "--logFile"@, self.log_file);
        let acc = with_value(acc, "--logLevel"@, self.log_level);
        let acc = with_value(acc, "--maximumActiveJobs"@, self.maximum_active_jobs);
        let acc = with_value(acc, "--nThreads"@, self.n_threads);
        let acc = with_value(acc, "--port"@, self.port);
        let acc = with_value(acc, "--serverMode"@, self.server_mode);
        let acc = with_switch(acc, "--singleClient"@, self.single_client);
        acc
    }

    /// The argument vector that stands for these options.
    pub open spec fn args(&self) -> Seq<Seq<char>> {
        self.applied(Seq::empty())
    }

    /// Appends to `out` the arguments that stand for these options.
    pub fn apply(&self, out: &mut Vec<String>)
        ensures
            final(out).deep_view() == self.applied(old(out).deep_view()),
    {
        push_switch(out, "--backendSpecificCache", &self.backend_specific_cache);
        push_value(out, "--cacheFile", &self.cache_file);
        push_switch(out, "--disableVersionCheck", &self.disable_version_check);
        push_value(out, "--logFile", &self.log_file);
        push_value(out, "--logLevel", &self.log_level);
        push_value(out, "--maximumActiveJobs", &self.maximum_active_jobs);
        push_value(out, "--nThreads", &self.n_threads);
        push_value(out, "--port", &self.port);
        push_value(out, "--serverMode", &self.server_mode);
        push_switch(out, "--singleClient", &self.single_client);
    }

    /// Applying the options to a list appends their argument vector to it.
    pub proof fn lemma_applied_appends(&self, acc: Seq<Seq<char>>)
        ensures
            self.applied(acc) == acc + self.args(),
    {
        let none = Seq::<Seq<char>>::empty();
        let a = acc;
        let b = none;
        assert(a =~= acc + b);
        lemma_with_switch_appends(acc, b, "--backendSpecificCache"@, self.backend_specific_cache);
        let a = with_switch(a, "--backendSpecificCache"@, self.backend_specific_cache);
        let b = with_switch(b, "--backendSpecificCache"@, self.backend_specific_cache);
        assert(a == acc + b);
        lemma_with_value_appends(acc, b, "--cacheFile"@, self.cache_file);
        let a = with_value(a, "--cacheFile"@, self.cache_file);
        let b = with_value(b, "--cacheFile"@, self.cache_file);
        assert(a == acc + b);
        lemma_with_switch_appends(acc, b, "--disableVersionCheck"@, self.disable_version_check);
        let a = with_switch(a, "--disableVersionCheck"@, self.disable_version_check);
        let b = with_switch(b, "--disableVersionCheck"@, self.disable_version_check);
        assert(a == acc + b);
        lemma_with_value_appends(acc, b, "--logFile"@, self.log_file);
        let a = with_value(a, "--logFile"@, self.log_file);
        let b = with_value(b, "--logFile"@, self.log_file);
        assert(a == acc + b);
        lemma_with_value_appends(acc, b, "--logLevel"@, self.log_level);
        let a = with_value(a, "--logLevel"@, self.log_level);
        let b = with_value(b, "--logLevel"@, self.log_level);
        assert(a == acc + b);
        lemma_with_value_appends(acc, b, "--maximumActiveJobs"@, self.maximum_active_jobs);
        let a = with_value(a, "--maximumActiveJobs"@, self.maximum_active_jobs);
        let b = with_value(b, "--maximumActiveJobs"@, self.maximum_active_jobs);
        assert(a == acc + b);
        lemma_with_value_appends(acc, b, "--nThreads"@, self.n_threads);
        let a = with_value(a, "--nThreads"@, self.n_threads);
        let b = with_value(b, "--nThreads"@, self.n_threads);
        assert(a == acc + b);
        lemma_with_value_appends(acc, b, "--port"@, self.port);
        let a = with_value(a, "--port"@, self.port);
        let b = with_value(b, "--port"@, self.port);
        assert(a == acc + b);
        lemma_with_value_appends(acc, b, "--serverMode"@, self.server_mode);
        let a = with_value(a, "--serverMode"@, self.server_mode);
        let b = with_value(b, "--serverMode"@, self.server_mode);
        assert(a == acc + b);
        lemma_with_switch_appends(acc, b, "--singleClient"@, self.single_client);
        let a = with_switch(a, "--singleClient"@, self.single_client);
        let b = with_switch(b, "--singleClient"@, self.single_client);
        assert(a == acc + b);
    }

    /// The options as they are written on a command line: each argument followed by
    /// one space.
    pub fn to_string(&self) -> (r: String)
        ensures
            r@ == spaced(self.args()),
    {
        let mut args: Vec<String> = Vec::new();
        assert(args.deep_view() =~= Seq::<Seq<char>>::empty());
        self.apply(&mut args);
        render_spaced(&args)
    }
}

/// Why [`ViperServerOptsBuilder::build`] refused to build.
#[derive(Debug)]
pub enum ViperServerOptsBuilderError {
    /// A field that has no default was never set.
    UninitializedField(String),
    /// The values that were set do not go together.
    ValidationError(String),
}

/// Collects the settings of [`ViperServerOpts`] one call at a time.
#[derive(Debug)]
pub struct ViperServerOptsBuilder {
    opts: ViperServerOpts,
}

impl Default for ViperServerOptsBuilder {
    /// A builder in which nothing is set yet.
    fn default() -> (r: Self)
        ensures
            r.pending() == ViperServerOpts::unset(),
    {
        ViperServerOptsBuilder { opts: ViperServerOpts::default() }
    }
}

impl Clone for ViperServerOptsBuilder {
    fn clone(&self) -> (r: Self)
        ensures
            r == *self,
    {
        ViperServerOptsBuilder { opts: self.opts.clone() }
    }
}

impl ViperServerOptsBuilder {
    /// The options as they have been set so far.
    pub closed spec fn pending(&self) -> ViperServerOpts {
        self.opts
    }

    /// `--backendSpecificCache`
    ///
    /// Use a separate cache for each backend?
    pub fn backend_specific_cache(&mut self, value: bool) -> (ret: &mut Self)
        ensures
            ret.pending() == (ViperServerOpts {
                backend_specific_cache: Some(value),
                ..old(self).pending()
            }),
            *final(self) == *final(ret),
    {
        self.opts.backend_specific_cache = Some(value);
        self
    }

    /// `--cacheFile  <arg>`
    ///
    /// Specifies the file from which the cache gets initialized on startup and to which the
    /// resulting cache gets written to.If it is not set, the cache will be initially empty and
    /// is only kept in memory, so it is not persisted during runs
    pub fn cache_file(&mut self, value: &str) -> (ret: &mut Self)
        ensures
            ret.pending().cache_file matches Some(text) && text@ == value@,
            ret.pending() == (ViperServerOpts {
                cache_file: ret.pending().cache_file,
                ..old(self).pending()
            }),
            *final(self) == *final(ret),
    {
        self.opts.cache_file = Some(value.to_string());
        self
    }

    /// `--disableVersionCheck`
    ///
    /// Disables the client's version check.
    pub fn disable_version_check(&mut self, value: bool) -> (ret: &mut Self)
        ensures
            ret.pending() == (ViperServerOpts {
                disable_version_check: Some(value),
                ..old(self).pending()
            }),
            *final(self) == *final(ret),
    {
        self.opts.disable_version_check = Some(value);
        self
    }

    /// `--logFile  <arg>`
    ///
    /// Specifies the location of the log file to be used by ViperServer and the verification
    /// backends it creates.
    pub fn log_file(&mut self, value: &str) -> (ret: &mut Self)
        ensures
            ret.pending().log_file matches Some(text) && text@ == value@,
            ret.pending() == (ViperServerOpts {
                log_file: ret.pending().log_file,
                ..old(self).pending()
            }),
            *final(self) == *final(ret),
    {
        self.opts.log_file = Some(value.to_string());
        self
    }

    /// `--logLevel  <arg>`
    ///
    /// One of the log levels: ALL,TRACE,DEBUG,INFO,WARN,ERROR,OFF.
    pub fn log_level(&mut self, value: &str) -> (ret: &mut Self)
        ensures
            ret.pending().log_level matches Some(text) && text@ == value@,
            ret.pending() == (ViperServerOpts {
                log_level: ret.pending().log_level,
                ..old(self).pending()
            }),
            *final(self) == *final(ret),
    {
        self.opts.log_level = Some(value.to_string());
        self
    }

    /// `-m, --maximumActiveJobs  <arg>`
    ///
    /// Specifies the maximal amount of jobs that may run concurrently.The number must be
    /// positive integer.If the option is omitted, a default number of 3 jobs will be set.
    pub fn maximum_active_jobs(&mut self, value: &str) -> (ret: &mut Self)
        ensures
            ret.pending().maximum_active_jobs matches Some(text) && text@ == value@,
            ret.pending() == (ViperServerOpts {
                maximum_active_jobs: ret.pending().maximum_active_jobs,
                ..old(self).pending()
            }),
            *final(self) == *final(ret),
    {
        self.opts.maximum_active_jobs = Some(value.to_string());
        self
    }

    /// `--nThreads  <arg>`
    ///
    /// Maximal number of threads that should be used (not taking threads used by backend into
    /// account) Values below 3 (the minimum) will be set to the minimum. The default value is
    /// the maximum of 3 and the number of available processors
    pub fn n_threads(&mut self, value: &str) -> (ret: &mut Self)
        ensures
            ret.pending().n_threads matches Some(text) && text@ == value@,
            ret.pending() == (ViperServerOpts {
                n_threads: ret.pending().n_threads,
                ..old(self).pending()
            }),
            *final(self) == *final(ret),
    {
        self.opts.n_threads = Some(value.to_string());
        self
    }

    /// `-p, --port  <arg>`
    ///
    /// Specifies the port on which ViperServer will be started.The port must be an integer in
    /// range [1100-65535]If the option is omitted, an available port will be selected
    /// automatically.
    pub fn port(&mut self, value: &str) -> (ret: &mut Self)
        ensures
            ret.pending().port matches Some(text) && text@ == value@,
            ret.pending() == (ViperServerOpts {
                port: ret.pending().port,
                ..old(self).pending()
            }),
            *final(self) == *final(ret),
    {
        self.opts.port = Some(value.to_string());
        self
    }

    /// `--serverMode  <arg>`
    ///
    /// One of the supported protocols: LSP,HTTP.
    pub fn server_mode(&mut self, value: &str) -> (ret: &mut Self)
        ensures
            ret.pending().server_mode matches Some(text) && text@ == value@,
            ret.pending() == (ViperServerOpts {
                server_mode: ret.pending().server_mode,
                ..old(self).pending()
            }),
            *final(self) == *final(ret),
    {
        self.opts.server_mode = Some(value.to_string());
        self
    }

    /// `--singleClient`
    ///
    /// Handles only a single client in LSP mode and terminates automatically afterwards
    pub fn single_client(&mut self, value: bool) -> (ret: &mut Self)
        ensures
            ret.pending() == (ViperServerOpts {
                single_client: Some(value),
                ..old(self).pending()
            }),
            *final(self) == *final(ret),
    {
        self.opts.single_client = Some(value);
        self
    }

    /// The options that were set, every other one left unset. Each option has a
    /// default, so this succeeds whatever was set.
    pub fn build(&self) -> (r: Result<ViperServerOpts, ViperServerOptsBuilderError>)
        ensures
            r is Ok,
            r->Ok_0 == self.pending(),
    {
        Ok(self.opts.clone())
    }
}


} // verus!
