//! The options that a verification with the Carbon backend takes.

use super::common::{
    copy_of, lemma_with_switch_appends, lemma_with_value_appends, push_switch, push_value,
    with_switch, with_value,
};
use crate::text::{render_spaced, spaced};
use vstd::prelude::*;

verus! {

/// The options of one verification with the Carbon backend.
#[derive(Debug)]
pub struct CarbonOpts {
    /// `--assumeInjectivityOnInhale`
    ///
    /// Assumes injectivity of the receiver expression when inhaling quantified permissions,
    /// instead of checking it.
    pub assume_injectivity_on_inhale: Option<bool>,
    /// `--boogieExe  <arg>`
    ///
    /// Manually-specified full path to Boogie.exe executable (default: ${BOOGIE_EXE})
    pub boogie_exe: Option<String>,
    /// `--boogieOpt  <arg>`
    ///
    /// Option(s) to pass-through as options to Boogie (changing the output generated by Boogie
    /// is not supported) (default: none)
    pub boogie_opt: Option<String>,
    /// `--counterexample  <arg>`
    ///
    /// Return counterexample for errors. Pass 'native' for returning the native model from the
    /// backend, 'variables' for returning a model of all local Viper variables, or 'mapped'
    /// (only available on Silicon) for returning a model with Ref variables resolved to
    /// object-like structures.
    pub counterexample: Option<String>,
    /// `--disableAllocEncoding`
    ///
    /// Disable Allocation-related assumptions (default: enabled)
    pub disable_alloc_encoding: Option<bool>,
    /// `--plugin  <arg>`
    ///
    /// Load plugin(s) with given class name(s). Several plugins can be separated by ':'. The
    /// fully qualified class name of the plugin should be specified.
    pub plugin: Option<String>,
    /// `--print  <arg>`
    ///
    /// Write the Boogie output file to the provided filename (default: none)
    pub print: Option<String>,
    /// `--proverLog  <arg>`
    ///
    /// Prover log file written by Boogie (default: none)
    pub prover_log: Option<String>,
    /// `--z3Exe  <arg>`
    ///
    /// Manually-specified full path to Z3.exe executable (default: ${Z3_EXE})
    pub z3_exe: Option<String>,
}

impl Default for CarbonOpts {
    /// The options with none of them set.
    fn default() -> (r: Self)
        ensures
            r == Self::unset(),
    {
        CarbonOpts {
            assume_injectivity_on_inhale: None,
            boogie_exe: None,
            boogie_opt: None,
            counterexample: None,
            disable_alloc_encoding: None,
            plugin: None,
            print: None,
            prover_log: None,
            z3_exe: None,
        }
    }
}

impl Clone for CarbonOpts {
    fn clone(&self) -> (r: Self)
        ensures
            r == *self,
    {
        CarbonOpts {
            assume_injectivity_on_inhale: self.assume_injectivity_on_inhale,
            boogie_exe: copy_of(&self.boogie_exe),
            boogie_opt: copy_of(&self.boogie_opt),
            counterexample: copy_of(&self.counterexample),
            disable_alloc_encoding: self.disable_alloc_encoding,
            plugin: copy_of(&self.plugin),
            print: copy_of(&self.print),
            prover_log: copy_of(&self.prover_log),
            z3_exe: copy_of(&self.z3_exe),
        }
    }
}

impl CarbonOpts {
    /// The options with none of them set.
    pub open spec fn unset() -> Self {
        CarbonOpts {
            assume_injectivity_on_inhale: None,
            boogie_exe: None,
            boogie_opt: None,
            counterexample: None,
            disable_alloc_encoding: None,
            plugin: None,
            print: None,
            prover_log: None,
            z3_exe: None,
        }
    }

    /// `acc` followed by the arguments that stand for these options: for each option
    /// that is set, in the order of the fields, a switch contributes its name and a
    /// valued option its name and then its value.
    pub open spec fn applied(&self, acc: Seq<Seq<char>>) -> Seq<Seq<char>> {
        let acc = with_switch(
            acc,
            "--assumeInjectivityOnInhale"@,
            self.assume_injectivity_on_inhale,
        );
        let acc = with_value(acc, "--boogieExe"@, self.boogie_exe);
        let acc = with_value(acc, "--boogieOpt"@, self.boogie_opt);
        let acc = with_value(acc, "--counterexample"@, self.counterexample);
        let acc = with_switch(acc, "--disableAllocEncoding"@, self.disable_alloc_encoding);
        let acc = with_value(acc, "--plugin"@, self.plugin);
        let acc = with_value(acc, "--print"@, self.print);
        let acc = with_value(acc, "--proverLog"@, self.prover_log);
        let acc = with_value(acc, "--z3Exe"@, self.z3_exe);
        acc
    }

    /// The argument vector that stands for these options.
    pub open spec fn args(&self) -> Seq<Seq<char>> {
        self.applied(Seq::empty())
    }

    /// Appends to `out` the arguments that stand for these options.
    pub fn apply(&self, out: &mut Vec<String>)
        ensures
            final(out).deep_view() == self.applied(old(out).deep_view()),
    {
        push_switch(out, "--assumeInjectivityOnInhale", &self.assume_injectivity_on_inhale);
        push_value(out, "--boogieExe", &self.boogie_exe);
        push_value(out, "--boogieOpt", &self.boogie_opt);
        push_value(out, "--counterexample", &self.counterexample);
        push_switch(out, "--disableAllocEncoding", &self.disable_alloc_encoding);
        push_value(out, "--plugin", &self.plugin);
        push_value(out, "--print", &self.print);
        push_value(out, "--proverLog", &self.prover_log);
        push_value(out, "--z3Exe", &self.z3_exe);
    }

    /// Applying the options to a list appends their argument vector to it.
    pub proof fn lemma_applied_appends(&self, acc: Seq<Seq<char>>)
        ensures
            self.applied(acc) == acc + self.args(),
    {
        let none = Seq::<Seq<char>>::empty();
        let a = acc;
        let b = none;
        assert(a =~= acc + b);
        lemma_with_switch_appends(
            acc,
            b,
            "--assumeInjectivityOnInhale"@,
            self.assume_injectivity_on_inhale,
        );
        let a = with_switch(a, "--assumeInjectivityOnInhale"@, self.assume_injectivity_on_inhale);
        let b = with_switch(b, "--assumeInjectivityOnInhale"@, self.assume_injectivity_on_inhale);
        assert(a == acc + b);
        lemma_with_value_appends(acc, b, "--boogieExe"@, self.boogie_exe);
        let a = with_value(a, "--boogieExe"@, self.boogie_exe);
        let b = with_value(b, "--boogieExe"@, self.boogie_exe);
        assert(a == acc + b);
        lemma_with_value_appends(acc, b, "--boogieOpt"@, self.boogie_opt);
        let a = with_value(a, "--boogieOpt"@, self.boogie_opt);
        let b = with_value(b, "--boogieOpt"@, self.boogie_opt);
        assert(a == acc + b);
        lemma_with_value_appends(acc, b, "--counterexample"@, self.counterexample);
        let a = with_value(a, "--counterexample"@, self.counterexample);
        let b = with_value(b, "--counterexample"@, self.counterexample);
        assert(a == acc + b);
        lemma_with_switch_appends(acc, b, "--disableAllocEncoding"@, self.disable_alloc_encoding);
        let a = with_switch(a, "--disableAllocEncoding"@, self.disable_alloc_encoding);
        let b = with_switch(b, "--disableAllocEncoding"@, self.disable_alloc_encoding);
        assert(a == acc + b);
        lemma_with_value_appends(acc, b, "--plugin"@, self.plugin);
        let a = with_value(a, "--plugin"@, self.plugin);
        let b = with_value(b, "--plugin"@, self.plugin);
        assert(a == acc + b);
        lemma_with_value_appends(acc, b, "--print"@, self.print);
        let a = with_value(a, "--print"@, self.print);
        let b = with_value(b, "--print"@, self.print);
        assert(a == acc + b);
        lemma_with_value_appends(acc, b, "--proverLog"@, self.prover_log);
        let a = with_value(a, "--proverLog"@, self.prover_log);
        let b = with_value(b, "--proverLog"@, self.prover_log);
        assert(a == acc + b);
        lemma_with_value_appends(acc, b, "--z3Exe"@, self.z3_exe);
        let a = with_value(a, "--z3Exe"@, self.z3_exe);
        let b = with_value(b, "--z3Exe"@, self.z3_exe);
        assert(a == acc + b);
    }

    /// The options as they are written on a command line: each argument followed by
    /// one space.
    pub fn to_string(&self) -> (r: String)
        ensures
            r@ == spaced(self.args()),
    {
        let mut args: Vec<String> = Vec::new();
        assert(args.deep_view() =~= Seq::<Seq<char>>::empty());
        self.apply(&mut args);
        render_spaced(&args)
    }
}

/// Why [`CarbonOptsBuilder::build`] refused to build.
#[derive(Debug)]
pub enum CarbonOptsBuilderError {
    /// A field that has no default was never set.
    UninitializedField(String),
    /// The values that were set do not go together.
    ValidationError(String),
}

/// Collects the settings of [`CarbonOpts`] one call at a time.
#[derive(Debug)]
pub struct CarbonOptsBuilder {
    opts: CarbonOpts,
}

impl Default for CarbonOptsBuilder {
    /// A builder in which nothing is set yet.
    fn default() -> (r: Self)
        ensures
            r.pending() == CarbonOpts::unset(),
    {
        CarbonOptsBuilder { opts: CarbonOpts::default() }
    }
}

impl Clone for CarbonOptsBuilder {
    fn clone(&self) -> (r: Self)
        ensures
            r == *self,
    {
        CarbonOptsBuilder { opts: self.opts.clone() }
    }
}

impl CarbonOptsBuilder {
    /// The options as they have been set so far.
    pub closed spec fn pending(&self) -> CarbonOpts {
        self.opts
    }

    /// `--assumeInjectivityOnInhale`
    ///
    /// Assumes injectivity of the receiver expression when inhaling quantified permissions,
    /// instead of checking it.
    pub fn assume_injectivity_on_inhale(&mut self, value: bool) -> (ret: &mut Self)
        ensures
            ret.pending() == (CarbonOpts {
                assume_injectivity_on_inhale: Some(value),
                ..old(self).pending()
            }),
            *final(self) == *final(ret),
    {
        self.opts.assume_injectivity_on_inhale = Some(value);
        self
    }

    /// `--boogieExe  <arg>`
    ///
    /// Manually-specified full path to Boogie.exe executable (default: ${BOOGIE_EXE})
    pub fn boogie_exe(&mut self, value: &str) -> (ret: &mut Self)
        ensures
            ret.pending().boogie_exe matches Some(text) && text@ == value@,
            ret.pending() == (CarbonOpts {
                boogie_exe: ret.pending().boogie_exe,
                ..old(self).pending()
            }),
            *final(self) == *final(ret),
    {
        self.opts.boogie_exe = Some(value.to_string());
        self
    }

    /// `--boogieOpt  <arg>`
    ///
    /// Option(s) to pass-through as options to Boogie (changing the output generated by Boogie
    /// is not supported) (default: none)
    pub fn boogie_opt(&mut self, value: &str) -> (ret: &mut Self)
        ensures
            ret.pending().boogie_opt matches Some(text) && text@ == value@,
            ret.pending() == (CarbonOpts {
                boogie_opt: ret.pending().boogie_opt,
                ..old(self).pending()
            }),
            *final(self) == *final(ret),
    {
        self.opts.boogie_opt = Some(value.to_string());
        self
    }

    /// `--counterexample  <arg>`
    ///
    /// Return counterexample for errors. Pass 'native' for returning the native model from the
    /// backend, 'variables' for returning a model of all local Viper variables, or 'mapped'
    /// (only available on Silicon) for returning a model with Ref variables resolved to
    /// object-like structures.
    pub fn counterexample(&mut self, value: &str) -> (ret: &mut Self)
        ensures
            ret.pending().counterexample matches Some(text) && text@ == value@,
            ret.pending() == (CarbonOpts {
                counterexample: ret.pending().counterexample,
                ..old(self).pending()
            }),
            *final(self) == *final(ret),
    {
        self.opts.counterexample = Some(value.to_string());
        self
    }

    /// `--disableAllocEncoding`
    ///
    /// Disable Allocation-related assumptions (default: enabled)
    pub fn disable_alloc_encoding(&mut self, value: bool) -> (ret: &mut Self)
        ensures
            ret.pending() == (CarbonOpts {
                disable_alloc_encoding: Some(value),
                ..old(self).pending()
            }),
            *final(self) == *final(ret),
    {
        self.opts.disable_alloc_encoding = Some(value);
        self
    }

    /// `--plugin  <arg>`
    ///
    /// Load plugin(s) with given class name(s). Several plugins can be separated by ':'. The
    /// fully qualified class name of the plugin should be specified.
    pub fn plugin(&mut self, value: &str) -> (ret: &mut Self)
        ensures
            ret.pending().plugin matches Some(text) && text@ == value@,
            ret.pending() == (CarbonOpts {
                plugin: ret.pending().plugin,
                ..old(self).pending()
            }),
            *final(self) == *final(ret),
    {
        self.opts.plugin = Some(value.to_string());
        self
    }

    /// `--print  <arg>`
    ///
    /// Write the Boogie output file to the provided filename (default: none)
    pub fn print(&mut self, value: &str) -> (ret: &mut Self)
        ensures
            ret.pending().print matches Some(text) && text@ == value@,
            ret.pending() == (CarbonOpts {
                print: ret.pending().print,
                ..old(self).pending()
            }),
            *final(self) == *final(ret),
    {
        self.opts.print = Some(value.to_string());
        self
    }

    /// `--proverLog  <arg>`
    ///
    /// Prover log file written by Boogie (default: none)
    pub fn prover_log(&mut self, value: &str) -> (ret: &mut Self)
        ensures
            ret.pending().prover_log matches Some(text) && text@ == value@,
            ret.pending() == (CarbonOpts {
                prover_log: ret.pending().prover_log,
                ..old(self).pending()
            }),
            *final(self) == *final(ret),
    {
        self.opts.prover_log = Some(value.to_string());
        self
    }

    /// `--z3Exe  <arg>`
    ///
    /// Manually-specified full path to Z3.exe executable (default: ${Z3_EXE})
    pub fn z3_exe(&mut self, value: &str) -> (ret: &mut Self)
        ensures
            ret.pending().z3_exe matches Some(text) && text@ == value@,
            ret.pending() == (CarbonOpts {
                z3_exe: ret.pending().z3_exe,
                ..old(self).pending()
            }),
            *final(self) == *final(ret),
    {
        self.opts.z3_exe = Some(value.to_string());
        self
    }

    /// The options that were set, every other one left unset. Each option has a
    /// default, so this succeeds whatever was set.
    pub fn build(&self) -> (r: Result<CarbonOpts, CarbonOptsBuilderError>)
        ensures
            r is Ok,
            r->Ok_0 == self.pending(),
    {
        Ok(self.opts.clone())
    }
}


} // verus!
