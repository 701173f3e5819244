//! The execution context manager and the render pipeline.
//!
//! One `Renderer` manages the engine of one concurrency unit: it constructs
//! the engine lazily on the first render request, evaluates the bootstrap
//! sources into it exactly once, and either caches the ready instance for the
//! unit's remaining lifetime or captures the failure and replays it on every
//! later request.

use vstd::prelude::*;

use crate::error::Error;
use crate::js_engine::Engine;
use crate::opts::Opts;
use crate::value::Value;

verus! {

/// The glue definition evaluated after the two bootstrap blobs: it exposes
/// the typesetting library's entry point under one fixed global name.
const GLUE_SRC: &'static str =
    "function renderToString(input, opts) { return katex.renderToString(input, opts); }";

/// The lifecycle of one concurrency unit's engine.
pub enum EngineState {
    /// No initialization attempt has been made yet.
    Uninitialized,
    /// The engine was constructed and every bootstrap source ran, in order;
    /// the instance is cached for reuse.
    Ready(Engine),
    /// Construction or bootstrap failed once; the captured failure is
    /// replayed, never retried, for the unit's remaining lifetime.
    Poisoned(Error),
}

/// Recasts a bootstrap-time failure as a `JsInitError` with the same
/// diagnostic: a failure while evaluating bootstrap sources is permanent for
/// the owning unit, whatever kind the engine reported.
fn to_init_error(e: Error) -> (r: Error)
    ensures
        (r matches Error::JsInitError(m) && m@ == e.message_spec()),
{
    match e {
        Error::JsInitError(m) => Error::JsInitError(m),
        Error::JsExecError(m) => Error::JsInitError(m),
        Error::JsValueError(m) => Error::JsInitError(m),
    }
}

/// Constructs a fresh engine and evaluates the bootstrap sources into it, in
/// their fixed order: core typesetting library, chemistry-notation extension,
/// then the glue definition.
fn bootstrap(core_src: &str, ext_src: &str) -> (r: Result<Engine, Error>)
    ensures
        r matches Err(e) ==> e matches Error::JsInitError(_),
{
    let engine = match Engine::new() {
        Ok(en) => en,
        Err(e) => {
            return Err(e);
        },
    };
    match engine.eval(core_src) {
        Ok(_) => {},
        Err(e) => {
            return Err(to_init_error(e));
        },
    }
    match engine.eval(ext_src) {
        Ok(_) => {},
        Err(e) => {
            return Err(to_init_error(e));
        },
    }
    match engine.eval(GLUE_SRC) {
        Ok(_) => {},
        Err(e) => {
            return Err(to_init_error(e));
        },
    }
    Ok(engine)
}

/// Runs one render request against a ready engine: marshal the input string
/// and the configuration, invoke the glue entry point, and convert the result
/// back to a native string.
fn render_ready(engine: &Engine, input: &str, opts: &Opts) -> (r: Result<String, Error>)
    ensures
        r matches Err(e) ==> (e matches Error::JsExecError(_) || e matches Error::JsValueError(
            _,
        )),
{
    let input_value = engine.from_string(input.to_owned());
    let opts_value = opts.to_js_value();
    let mut args: Vec<Value> = Vec::new();
    args.push(input_value);
    args.push(opts_value);
    match engine.call_function("renderToString", args) {
        Ok(v) => v.into_string(),
        Err(e) => Err(e),
    }
}

/// The execution context manager of one concurrency unit.
///
/// It holds the unit's engine lifecycle state together with the two bootstrap
/// source blobs it will evaluate on first use, and a ghost count of how many
/// bootstrap attempts have ever been made.
pub struct Renderer {
    state: EngineState,
    core_src: String,
    ext_src: String,
    boots: Ghost<nat>,
}

impl Renderer {
    /// Whether an initialization attempt has been made.
    pub closed spec fn inited(&self) -> bool {
        !(self.state matches EngineState::Uninitialized)
    }

    /// Whether the unit holds a ready, bootstrapped engine.
    pub closed spec fn ready(&self) -> bool {
        self.state matches EngineState::Ready(_)
    }

    /// Whether the unit is poisoned by a captured initialization failure.
    pub closed spec fn poisoned(&self) -> bool {
        self.state matches EngineState::Poisoned(_)
    }

    /// The captured failure of a poisoned unit.
    pub closed spec fn poison_error(&self) -> Error {
        self.state->Poisoned_0
    }

    /// How many bootstrap attempts have ever been made on this unit.
    pub closed spec fn boot_attempts(&self) -> nat {
        self.boots@
    }

    /// The core typesetting source this unit bootstraps with.
    pub closed spec fn core_source(&self) -> Seq<char> {
        self.core_src@
    }

    /// The extension source this unit bootstraps with.
    pub closed spec fn ext_source(&self) -> Seq<char> {
        self.ext_src@
    }

    /// Well-formedness: before the first attempt no bootstrap has run, and a
    /// poisoned unit always replays an initialization failure.
    pub closed spec fn wf(&self) -> bool {
        &&& (!self.inited() ==> self.boots@ == 0)
        &&& (self.poisoned() ==> self.state->Poisoned_0 matches Error::JsInitError(_))
    }

    /// Creates the manager for one concurrency unit, holding the two
    /// bootstrap blobs. Nothing is evaluated yet.
    pub fn new(core_src: String, ext_src: String) -> (r: Renderer)
        ensures
            r.wf(),
            !r.inited(),
            r.boot_attempts() == 0,
            r.core_source() == core_src@,
            r.ext_source() == ext_src@,
    {
        Renderer {
            state: EngineState::Uninitialized,
            core_src,
            ext_src,
            boots: Ghost(0nat),
        }
    }

    /// Makes the one allowed initialization attempt if none was made yet:
    /// afterwards the unit is Ready or Poisoned, and stays what it is.
    fn ensure_inited(&mut self)
        requires
            old(self).wf(),
        ensures
            final(self).wf(),
            final(self).inited(),
            old(self).inited() ==> *final(self) == *old(self),
            !old(self).inited() ==> final(self).boot_attempts() == old(self).boot_attempts()
                + 1,
            old(self).inited() ==> final(self).boot_attempts() == old(self).boot_attempts(),
            final(self).core_source() == old(self).core_source(),
            final(self).ext_source() == old(self).ext_source(),
    {
        if matches!(&self.state, EngineState::Uninitialized) {
            let outcome = bootstrap(self.core_src.as_str(), self.ext_src.as_str());
            self.boots = Ghost(self.boots@ + 1);
            match outcome {
                Ok(engine) => {
                    self.state = EngineState::Ready(engine);
                },
                Err(e) => {
                    self.state = EngineState::Poisoned(e);
                },
            }
        }
    }

    /// Runs one render request against the already-initialized unit: a
    /// poisoned unit replays its captured failure verbatim, a ready one
    /// renders.
    fn render_once(&self, input: &str, opts: &Opts) -> (r: Result<String, Error>)
        requires
            self.inited(),
            self.wf(),
        ensures
            self.poisoned() ==> (r matches Err(e) && e == self.poison_error()),
            self.ready() ==> (r matches Ok(_) || (r matches Err(e) && (e
                matches Error::JsExecError(_) || e matches Error::JsValueError(_)))),
    {
        match &self.state {
            EngineState::Uninitialized => unreached(),
            EngineState::Ready(engine) => render_ready(engine, input, opts),
            EngineState::Poisoned(e) => Err(e.clone()),
        }
    }
}

/// Renders the given equation markup to an HTML string with the given
/// options, using (and on first use initializing) the unit's engine.
///
/// The first request triggers the unit's one bootstrap attempt; every later
/// request reuses its outcome. A poisoned unit replays its captured
/// `JsInitError` verbatim; a ready unit stays ready, and a request on it can
/// fail only inside the script or when converting its result.
pub fn render_with_opts(renderer: &mut Renderer, input: &str, opts: &Opts) -> (r: Result<
    String,
    Error,
>)
    requires
        old(renderer).wf(),
    ensures
        final(renderer).wf(),
        final(renderer).inited(),
        !old(renderer).inited() ==> final(renderer).boot_attempts() == old(
            renderer,
        ).boot_attempts() + 1,
        old(renderer).inited() ==> final(renderer).boot_attempts() == old(
            renderer,
        ).boot_attempts(),
        old(renderer).ready() ==> *final(renderer) == *old(renderer),
        old(renderer).poisoned() ==> *final(renderer) == *old(renderer),
        final(renderer).poisoned() ==> (r matches Err(e) && e == final(renderer).poison_error()
            && e matches Error::JsInitError(_)),
        final(renderer).ready() ==> (r matches Ok(_) || (r matches Err(e) && (e
            matches Error::JsExecError(_) || e matches Error::JsValueError(_)))),
        final(renderer).core_source() == old(renderer).core_source(),
        final(renderer).ext_source() == old(renderer).ext_source(),
{
    renderer.ensure_inited();
    renderer.render_once(input, opts)
}

/// Renders the given equation markup to an HTML string with the default
/// options; otherwise exactly `render_with_opts`.
pub fn render(renderer: &mut Renderer, input: &str) -> (r: Result<String, Error>)
    requires
        old(renderer).wf(),
    ensures
        final(renderer).wf(),
        final(renderer).inited(),
        !old(renderer).inited() ==> final(renderer).boot_attempts() == old(
            renderer,
        ).boot_attempts() + 1,
        old(renderer).inited() ==> final(renderer).boot_attempts() == old(
            renderer,
        ).boot_attempts(),
        old(renderer).ready() ==> *final(renderer) == *old(renderer),
        old(renderer).poisoned() ==> *final(renderer) == *old(renderer),
        final(renderer).poisoned() ==> (r matches Err(e) && e == final(renderer).poison_error()
            && e matches Error::JsInitError(_)),
        final(renderer).ready() ==> (r matches Ok(_) || (r matches Err(e) && (e
            matches Error::JsExecError(_) || e matches Error::JsValueError(_)))),
        final(renderer).core_source() == old(renderer).core_source(),
        final(renderer).ext_source() == old(renderer).ext_source(),
{
    let opts = Opts::default();
    render_with_opts(renderer, input, &opts)
}

} // verus!
