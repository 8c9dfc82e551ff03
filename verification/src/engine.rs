//! The engine and its builder: configuration of resource-limit policy and
//! I/O-inheritance flags, validation, and one-time compilation of the guest
//! module.
//!
//! An engine is immutable after construction and safe to reuse across any
//! number of independent calls: calls never mutate shared engine state. A
//! time limit whose tick budget computes to zero is rejected here, at
//! configuration time, never at call time.

use vstd::prelude::*;

use crate::errors::ConfigurationError;
use crate::time::TimeLimit;

verus! {

#[verifier::external_type_specification]
#[verifier::external_body]
pub struct ExEngine(wasmtime::Engine);

#[verifier::external_type_specification]
#[verifier::external_body]
pub struct ExModule(wasmtime::Module);

/// Relies on wasmtime::Config::epoch_interruption and wasmtime::Engine::new:
/// builds a runtime engine from the default configuration with epoch
/// interruption switched as given, or reports why the configuration was
/// refused.
#[verifier::external_body]
fn new_engine(epoch_interruption: bool) -> (r: Result<wasmtime::Engine, String>) {
    wasmtime::Engine::new(wasmtime::Config::default().epoch_interruption(epoch_interruption))
        .map_err(|e| e.to_string())
}

/// Relies on wasmtime::Module::from_binary: compiles guest module bytes
/// against the engine into an immutable artifact shared read-only across
/// calls, or reports why the bytes did not compile.
#[verifier::external_body]
fn compile_module(engine: &wasmtime::Engine, binary: &[u8]) -> (r: Result<wasmtime::Module, String>) {
    wasmtime::Module::from_binary(engine, binary).map_err(|e| e.to_string())
}

/// A running instance of the script engine: the compiled guest module
/// together with its configuration options.
///
/// Immutable after construction; one engine serves any number of
/// independent calls, each with its own fresh session.
pub struct QuickJS {
    engine: wasmtime::Engine,
    module: wasmtime::Module,
    inherit_stdout: bool,
    inherit_stderr: bool,
    memory_limit: Option<u32>,
    time_limit: Option<TimeLimit>,
}

impl QuickJS {
    /// The runtime engine the guest module was compiled against.
    pub closed spec fn spec_engine(self) -> wasmtime::Engine {
        self.engine
    }

    /// The compiled guest module.
    pub closed spec fn spec_module(self) -> wasmtime::Module {
        self.module
    }

    /// Whether calls inherit the host's standard output.
    pub closed spec fn spec_inherit_stdout(self) -> bool {
        self.inherit_stdout
    }

    /// Whether calls inherit the host's standard error.
    pub closed spec fn spec_inherit_stderr(self) -> bool {
        self.inherit_stderr
    }

    /// The configured memory ceiling in bytes, before page rounding.
    pub closed spec fn spec_memory_limit(self) -> Option<u32> {
        self.memory_limit
    }

    /// The configured time ceiling.
    pub closed spec fn spec_time_limit(self) -> Option<TimeLimit> {
        self.time_limit
    }

    /// A built engine's configuration is valid: a configured time limit
    /// affords a positive tick budget that fits the 32-bit counter.
    pub open spec fn wf(self) -> bool {
        match self.spec_time_limit() {
            None => true,
            Some(tl) => tl.spec_accepted(),
        }
    }

    /// Creates an engine from compiled guest module bytes and the given
    /// policy.
    ///
    /// The time limit is validated first — a limit affording zero ticks is
    /// rejected here and can never reach a call. Then the runtime engine is
    /// created (with epoch interruption exactly when a time limit is set)
    /// and the module bytes are compiled. There is no embedded default
    /// module: `None` fails with [`ConfigurationError::MissingModule`], and
    /// a caller loading a module by path reads the file into bytes first.
    pub fn try_new(
        module: Option<&[u8]>,
        inherit_stdout: bool,
        inherit_stderr: bool,
        memory_limit: Option<u32>,
        time_limit: Option<TimeLimit>,
    ) -> (r: Result<QuickJS, ConfigurationError>)
        ensures
            (time_limit matches Some(tl) && tl.spec_tick_budget() == 0) ==> r
                == Err::<QuickJS, ConfigurationError>(ConfigurationError::ZeroTickBudget),
            (time_limit matches Some(tl) && tl.spec_tick_budget() > u32::MAX) ==> r
                == Err::<QuickJS, ConfigurationError>(ConfigurationError::TickBudgetTooLarge),
            (match time_limit {
                None => true,
                Some(tl) => tl.spec_accepted(),
            }) && module is None ==> r == Err::<QuickJS, ConfigurationError>(
                ConfigurationError::MissingModule,
            ),
            r matches Ok(q) ==> {
                &&& q.wf()
                &&& module is Some
                &&& q.spec_inherit_stdout() == inherit_stdout
                &&& q.spec_inherit_stderr() == inherit_stderr
                &&& q.spec_memory_limit() == memory_limit
                &&& q.spec_time_limit() == time_limit
            },
            r == Err::<QuickJS, ConfigurationError>(ConfigurationError::ZeroTickBudget) ==> (
            time_limit matches Some(tl) && tl.spec_tick_budget() == 0),
            r == Err::<QuickJS, ConfigurationError>(ConfigurationError::TickBudgetTooLarge) ==> (
            time_limit matches Some(tl) && tl.spec_tick_budget() > u32::MAX),
            r == Err::<QuickJS, ConfigurationError>(ConfigurationError::MissingModule)
                ==> module is None,
            (r matches Err(e) && (e is Engine || e is InvalidModule)) ==> ((match time_limit {
                None => true,
                Some(tl) => tl.spec_accepted(),
            }) && module is Some),
    {
        if let Some(tl) = &time_limit {
            match tl.tick_budget() {
                Err(e) => {
                    return Err(e);
                },
                Ok(_) => {},
            }
        }
        let module_bytes = match module {
            None => {
                return Err(ConfigurationError::MissingModule);
            },
            Some(b) => b,
        };
        let engine = match new_engine(time_limit.is_some()) {
            Ok(e) => e,
            Err(m) => {
                return Err(ConfigurationError::Engine(m));
            },
        };
        let compiled = match compile_module(&engine, module_bytes) {
            Ok(m) => m,
            Err(m) => {
                return Err(ConfigurationError::InvalidModule(m));
            },
        };
        Ok(
            QuickJS {
                engine,
                module: compiled,
                inherit_stdout,
                inherit_stderr,
                memory_limit,
                time_limit,
            },
        )
    }

    /// The runtime engine, for the plumbing that drives a call.
    pub fn engine(&self) -> (r: &wasmtime::Engine)
        ensures
            *r == self.spec_engine(),
    {
        &self.engine
    }

    /// The compiled guest module, for the plumbing that drives a call.
    pub fn module(&self) -> (r: &wasmtime::Module)
        ensures
            *r == self.spec_module(),
    {
        &self.module
    }

    /// Whether calls inherit the host's standard output.
    pub fn inherit_stdout(&self) -> (r: bool)
        ensures
            r == self.spec_inherit_stdout(),
    {
        self.inherit_stdout
    }

    /// Whether calls inherit the host's standard error.
    pub fn inherit_stderr(&self) -> (r: bool)
        ensures
            r == self.spec_inherit_stderr(),
    {
        self.inherit_stderr
    }

    /// The configured memory ceiling in bytes, before page rounding.
    pub fn memory_limit(&self) -> (r: Option<u32>)
        ensures
            r == self.spec_memory_limit(),
    {
        self.memory_limit
    }

    /// The configured time ceiling.
    pub fn time_limit(&self) -> (r: Option<TimeLimit>)
        ensures
            r == self.spec_time_limit(),
    {
        self.time_limit
    }
}

/// A builder for a [`QuickJS`] engine: collects the guest module bytes, the
/// I/O-inheritance flags and the resource ceilings, then validates and
/// builds.
///
/// The library ships no embedded default module: the compiled guest module
/// must always be supplied as bytes (a path-based caller reads the file
/// first), and building without one fails with
/// [`ConfigurationError::MissingModule`].
pub struct QuickJSBuilder {
    module: Option<Vec<u8>>,
    inherit_stdout: Option<bool>,
    inherit_stderr: Option<bool>,
    memory_limit: Option<u32>,
    time_limit: Option<TimeLimit>,
}

impl QuickJSBuilder {
    /// The collected guest module bytes, if any.
    pub closed spec fn spec_module(self) -> Option<Seq<u8>> {
        match self.module {
            None => None,
            Some(b) => Some(b@),
        }
    }

    /// The collected stdout-inheritance choice, if any.
    pub closed spec fn spec_inherit_stdout(self) -> Option<bool> {
        self.inherit_stdout
    }

    /// The collected stderr-inheritance choice, if any.
    pub closed spec fn spec_inherit_stderr(self) -> Option<bool> {
        self.inherit_stderr
    }

    /// The collected memory ceiling, if any.
    pub closed spec fn spec_memory_limit(self) -> Option<u32> {
        self.memory_limit
    }

    /// The collected time ceiling, if any.
    pub closed spec fn spec_time_limit(self) -> Option<TimeLimit> {
        self.time_limit
    }

    /// A builder with nothing configured yet.
    pub fn new() -> (r: Self)
        ensures
            r.spec_module() is None,
            r.spec_inherit_stdout() is None,
            r.spec_inherit_stderr() is None,
            r.spec_memory_limit() is None,
            r.spec_time_limit() is None,
    {
        QuickJSBuilder {
            module: None,
            inherit_stdout: None,
            inherit_stderr: None,
            memory_limit: None,
            time_limit: None,
        }
    }

    /// Supplies the guest module as compiled wasm bytes.
    pub fn with_module(self, module: Vec<u8>) -> (r: Self)
        ensures
            r.spec_module() == Some(module@),
            r.spec_inherit_stdout() == self.spec_inherit_stdout(),
            r.spec_inherit_stderr() == self.spec_inherit_stderr(),
            r.spec_memory_limit() == self.spec_memory_limit(),
            r.spec_time_limit() == self.spec_time_limit(),
    {
        QuickJSBuilder { module: Some(module), ..self }
    }

    /// Controls whether calls inherit the host's standard output.
    pub fn with_inherit_stdout(self, inherit: bool) -> (r: Self)
        ensures
            r.spec_inherit_stdout() == Some(inherit),
            r.spec_module() == self.spec_module(),
            r.spec_inherit_stderr() == self.spec_inherit_stderr(),
            r.spec_memory_limit() == self.spec_memory_limit(),
            r.spec_time_limit() == self.spec_time_limit(),
    {
        QuickJSBuilder { inherit_stdout: Some(inherit), ..self }
    }

    /// Controls whether calls inherit the host's standard error.
    pub fn with_inherit_stderr(self, inherit: bool) -> (r: Self)
        ensures
            r.spec_inherit_stderr() == Some(inherit),
            r.spec_module() == self.spec_module(),
            r.spec_inherit_stdout() == self.spec_inherit_stdout(),
            r.spec_memory_limit() == self.spec_memory_limit(),
            r.spec_time_limit() == self.spec_time_limit(),
    {
        QuickJSBuilder { inherit_stderr: Some(inherit), ..self }
    }

    /// Sets the memory ceiling in bytes. The effective ceiling is this
    /// value rounded up to whole pages (at least one page): never silently
    /// below the request.
    pub fn with_memory_limit(self, limit: u32) -> (r: Self)
        ensures
            r.spec_memory_limit() == Some(limit),
            r.spec_module() == self.spec_module(),
            r.spec_inherit_stdout() == self.spec_inherit_stdout(),
            r.spec_inherit_stderr() == self.spec_inherit_stderr(),
            r.spec_time_limit() == self.spec_time_limit(),
    {
        QuickJSBuilder { memory_limit: Some(limit), ..self }
    }

    /// Sets the time ceiling used to interrupt long-running scripts.
    pub fn with_time_limit(self, limit: TimeLimit) -> (r: Self)
        ensures
            r.spec_time_limit() == Some(limit),
            r.spec_module() == self.spec_module(),
            r.spec_inherit_stdout() == self.spec_inherit_stdout(),
            r.spec_inherit_stderr() == self.spec_inherit_stderr(),
            r.spec_memory_limit() == self.spec_memory_limit(),
    {
        QuickJSBuilder { time_limit: Some(limit), ..self }
    }

    /// Builds an engine from the collected settings; inheritance flags
    /// default to false. Validation is as in [`QuickJS::try_new`]: a time
    /// limit affording zero ticks, a missing module and module bytes that do
    /// not compile each fail construction.
    pub fn build(&self) -> (r: Result<QuickJS, ConfigurationError>)
        ensures
            (self.spec_time_limit() matches Some(tl) && tl.spec_tick_budget() == 0) ==> r
                == Err::<QuickJS, ConfigurationError>(ConfigurationError::ZeroTickBudget),
            (self.spec_time_limit() matches Some(tl) && tl.spec_tick_budget() > u32::MAX) ==> r
                == Err::<QuickJS, ConfigurationError>(ConfigurationError::TickBudgetTooLarge),
            (match self.spec_time_limit() {
                None => true,
                Some(tl) => tl.spec_accepted(),
            }) && self.spec_module() is None ==> r == Err::<QuickJS, ConfigurationError>(
                ConfigurationError::MissingModule,
            ),
            r matches Ok(q) ==> {
                &&& q.wf()
                &&& self.spec_module() is Some
                &&& q.spec_inherit_stdout() == (match self.spec_inherit_stdout() {
                    None => false,
                    Some(b) => b,
                })
                &&& q.spec_inherit_stderr() == (match self.spec_inherit_stderr() {
                    None => false,
                    Some(b) => b,
                })
                &&& q.spec_memory_limit() == self.spec_memory_limit()
                &&& q.spec_time_limit() == self.spec_time_limit()
            },
            r == Err::<QuickJS, ConfigurationError>(ConfigurationError::ZeroTickBudget) ==> (
            self.spec_time_limit() matches Some(tl) && tl.spec_tick_budget() == 0),
            r == Err::<QuickJS, ConfigurationError>(ConfigurationError::TickBudgetTooLarge) ==> (
            self.spec_time_limit() matches Some(tl) && tl.spec_tick_budget() > u32::MAX),
            r == Err::<QuickJS, ConfigurationError>(ConfigurationError::MissingModule)
                ==> self.spec_module() is None,
            (r matches Err(e) && (e is Engine || e is InvalidModule)) ==> ((match
            self.spec_time_limit() {
                None => true,
                Some(tl) => tl.spec_accepted(),
            }) && self.spec_module() is Some),
    {
        QuickJS::try_new(
            match &self.module {
                None => None,
                Some(b) => Some(b.as_slice()),
            },
            match self.inherit_stdout {
                None => false,
                Some(b) => b,
            },
            match self.inherit_stderr {
                None => false,
                Some(b) => b,
            },
            self.memory_limit,
            self.time_limit,
        )
    }
}

} // verus!
