//! The runtime for WebAssembly guests: its setup, the runs of its guests, and the surface that it
//! hands to them.
use vstd::prelude::*;

verus! {

/// The settings from which `wasmtime` makes an engine.
#[verifier::external_type_specification]
#[verifier::external_body]
pub struct ExConfig(wasmtime::Config);

/// The engine of `wasmtime`, which compiles and runs guests.
#[verifier::external_type_specification]
#[verifier::external_body]
pub struct ExEngine(wasmtime::Engine);

/// The error of `wasmtime`, which is that of `anyhow`.
#[verifier::external_type_specification]
#[verifier::external_body]
pub struct ExError(anyhow::Error);

/// What `Config::wasm_component_model` has last been told; `None` while the default counts.
pub uninterp spec fn component_model_setting(config: wasmtime::Config) -> Option<bool>;

/// What `Config::async_support` has last been told, or the default.
pub uninterp spec fn async_setting(config: wasmtime::Config) -> bool;

/// Whether an engine takes components.
pub uninterp spec fn takes_components(engine: wasmtime::Engine) -> bool;

/// Whether an engine runs guests asynchronously.
pub uninterp spec fn runs_async(engine: wasmtime::Engine) -> bool;

/// Calls `wasmtime::Config::default`.
///
/// Claimed: the component model is left to the default, and asynchronous support is off.
#[verifier::external_body]
fn config_new() -> (config: wasmtime::Config)
    ensures
        component_model_setting(config) is None,
        !async_setting(config),
{
    wasmtime::Config::default()
}

/// Calls `wasmtime::Config::wasm_component_model`.
///
/// Claimed: this setting changes, and that for asynchronous support does not.
#[verifier::external_body]
fn config_wasm_component_model(config: &mut wasmtime::Config, enable: bool)
    ensures
        component_model_setting(*final(config)) == Some(enable),
        async_setting(*final(config)) == async_setting(*old(config)),
{
    config.wasm_component_model(enable);
}

/// Calls `wasmtime::Config::async_support`.
///
/// Claimed: this setting changes, and that for the component model does not.
#[verifier::external_body]
fn config_async_support(config: &mut wasmtime::Config, enable: bool)
    ensures
        async_setting(*final(config)) == enable,
        component_model_setting(*final(config)) == component_model_setting(*old(config)),
{
    config.async_support(enable);
}

/// Calls `wasmtime::Engine::new`.
///
/// Claimed: an engine that comes back follows the settings. Whether one comes back depends on
/// the machine, so nothing is said of that.
#[verifier::external_body]
fn engine_new(config: &wasmtime::Config) -> (engine: Result<wasmtime::Engine, anyhow::Error>)
    ensures
        engine is Ok ==> runs_async(engine->Ok_0) == async_setting(*config),
        engine is Ok && component_model_setting(*config) is Some ==> takes_components(
            engine->Ok_0,
        ) == component_model_setting(*config)->0,
{
    wasmtime::Engine::new(config)
}

/// What a guest can import from the browser.
#[derive(Clone, Copy, Debug, PartialEq, Eq, Structural)]
pub enum Interface {
    WebGpu,
    GraphicsContext,
    Surface,
    Wasi,
}

/// How far the runtime is.
#[derive(Clone, Copy, Debug, PartialEq, Eq, Structural)]
pub enum Phase {
    /// This interface is to be linked next.
    Linking(Interface),
    /// An interface could not be linked.
    Broken,
    /// A guest can be run.
    Ready,
    /// The guest's component is to be read from its file.
    Loading,
    /// The component is to be instantiated.
    Instantiating,
    /// The guest's `run` function is to be called.
    Running,
}

/// Why there is no runtime, or no run.
pub enum WasmError {
    /// The engine could not be made, or an interface not be linked.
    Setup(anyhow::Error),
    /// The component of a guest could not be read.
    ComponentNotFound(anyhow::Error),
}

impl WasmError {
    /// What to say before the cause, if anything.
    pub fn context(&self) -> (r: Option<String>)
        ensures
            self is Setup ==> r is None,
            self is ComponentNotFound ==> r is Some && r->0@ == "Component file not found"@,
    {
        match self {
            WasmError::Setup(_) => None,
            WasmError::ComponentNotFound(_) => Some("Component file not found".to_string()),
        }
    }
}

impl Phase {
    /// Whether all the interfaces are linked.
    pub open spec fn is_linked(self) -> bool {
        !(self is Linking) && !(self is Broken)
    }

    /// The phase in which the run of a guest begins. A run that was given up on its way does not
    /// stand in the way of another.
    pub open spec fn started(self) -> Phase {
        if self.is_linked() {
            Phase::Loading
        } else {
            self
        }
    }

    /// The phase after what the phase asks for was tried, with the given success.
    pub open spec fn next(self, success: bool) -> Phase {
        match self {
            Phase::Linking(interface) => if !success {
                Phase::Broken
            } else {
                match interface {
                    Interface::WebGpu => Phase::Linking(Interface::GraphicsContext),
                    Interface::GraphicsContext => Phase::Linking(Interface::Surface),
                    Interface::Surface => Phase::Linking(Interface::Wasi),
                    Interface::Wasi => Phase::Ready,
                }
            },
            Phase::Loading => if success {
                Phase::Instantiating
            } else {
                Phase::Ready
            },
            Phase::Instantiating => if success {
                Phase::Running
            } else {
                self
            },
            Phase::Running => if success {
                Phase::Ready
            } else {
                self
            },
            Phase::Broken => self,
            Phase::Ready => self,
        }
    }
}

/// The runtime.
pub struct Wasm {
    engine: wasmtime::Engine,
    phase: Phase,
}

/// The mathematical value of a [`Wasm`].
pub struct WasmView {
    pub engine: wasmtime::Engine,
    pub phase: Phase,
}

impl View for Wasm {
    type V = WasmView;

    closed spec fn view(&self) -> WasmView {
        WasmView { engine: self.engine, phase: self.phase }
    }
}

impl WasmView {
    /// The same runtime in another phase.
    pub open spec fn in_phase(self, phase: Phase) -> WasmView {
        WasmView { phase, ..self }
    }
}

impl Wasm {
    /// A runtime whose engine takes components and runs them asynchronously, with all the
    /// interfaces still to be linked.
    ///
    /// This is [`with_engine`](Self::with_engine) of the engine made with
    /// [`settings`](Self::settings). Whether `wasmtime` can make one depends on the machine.
    pub fn new() -> (r: Result<Wasm, WasmError>)
        ensures
            r is Ok ==> {
                &&& takes_components(r->Ok_0@.engine)
                &&& runs_async(r->Ok_0@.engine)
                &&& r->Ok_0@.phase == Phase::Linking(Interface::WebGpu)
            },
            r is Err ==> r->Err_0 is Setup,
    {
        Wasm::with_engine(engine_new(&Wasm::settings()))
    }

    /// The settings that the engine is made with: it takes components and runs them
    /// asynchronously.
    pub fn settings() -> (config: wasmtime::Config)
        ensures
            component_model_setting(config) == Some(true),
            async_setting(config),
    {
        let mut config = config_new();
        config_wasm_component_model(&mut config, true);
        config_async_support(&mut config, true);
        config
    }

    /// A runtime for the engine that was made, with all the interfaces still to be linked; or the
    /// reason why none was made.
    pub fn with_engine(made: Result<wasmtime::Engine, anyhow::Error>) -> (r: Result<
        Wasm,
        WasmError,
    >)
        ensures
            made is Ok ==> r is Ok && r->Ok_0@ == (WasmView {
                engine: made->Ok_0,
                phase: Phase::Linking(Interface::WebGpu),
            }),
            made is Err ==> r == Err::<Wasm, WasmError>(WasmError::Setup(made->Err_0)),
    {
        match made {
            Ok(engine) => Ok(Wasm { engine, phase: Phase::Linking(Interface::WebGpu) }),
            Err(cause) => Err(WasmError::Setup(cause)),
        }
    }

    /// The engine, for what is linked and run with it.
    pub fn engine(&self) -> (engine: &wasmtime::Engine)
        ensures
            *engine == self@.engine,
    {
        &self.engine
    }

    /// What to do next.
    pub fn phase(&self) -> (phase: Phase)
        ensures
            phase == self@.phase,
    {
        self.phase
    }

    /// The interface that was to be linked has been, or could not be. The first that could not
    /// be is the last that is tried.
    pub fn finish_linking(&mut self, outcome: Result<(), anyhow::Error>) -> (r: Result<
        (),
        WasmError,
    >)
        requires
            old(self)@.phase is Linking,
        ensures
            r == match outcome {
                Ok(_) => Ok(()),
                Err(cause) => Err(WasmError::Setup(cause)),
            },
            final(self)@ == old(self)@.in_phase(old(self)@.phase.next(outcome is Ok)),
    {
        match outcome {
            Ok(_) => {
                self.phase = match self.phase {
                    Phase::Linking(Interface::WebGpu) => Phase::Linking(Interface::GraphicsContext),
                    Phase::Linking(Interface::GraphicsContext) => Phase::Linking(Interface::Surface),
                    Phase::Linking(Interface::Surface) => Phase::Linking(Interface::Wasi),
                    _ => Phase::Ready,
                };
                Ok(())
            },
            Err(cause) => {
                self.phase = Phase::Broken;
                Err(WasmError::Setup(cause))
            },
        }
    }

    /// Begins the run of a guest for the given surface: leaves the surface where the guest will
    /// ask for it, in place of any left there before, and says which file to read.
    pub fn run_wasm<S>(
        &mut self,
        wasm_path: String,
        surface: S,
        slot: &mut SurfaceSlot<S>,
    ) -> (path: String)
        requires
            old(self)@.phase.is_linked(),
        ensures
            final(self)@ == old(self)@.in_phase(old(self)@.phase.started()),
            final(slot)@ == old(slot)@.replaced(surface),
            path@ == wasm_path@,
    {
        slot.replace(surface);
        self.phase = Phase::Loading;
        wasm_path
    }

    /// The component of the guest has been read, or not. A guest without a component ends its
    /// run here.
    pub fn finish_loading(&mut self, outcome: Result<(), anyhow::Error>) -> (r: Result<
        (),
        WasmError,
    >)
        requires
            old(self)@.phase == Phase::Loading,
        ensures
            r == match outcome {
                Ok(_) => Ok(()),
                Err(cause) => Err(WasmError::ComponentNotFound(cause)),
            },
            final(self)@ == old(self)@.in_phase(old(self)@.phase.next(outcome is Ok)),
    {
        match outcome {
            Ok(_) => {
                self.phase = Phase::Instantiating;
                Ok(())
            },
            Err(cause) => {
                self.phase = Phase::Ready;
                Err(WasmError::ComponentNotFound(cause))
            },
        }
    }

    /// The component has been instantiated.
    pub fn finish_instantiating(&mut self)
        requires
            old(self)@.phase == Phase::Instantiating,
        ensures
            final(self)@ == old(self)@.in_phase(old(self)@.phase.next(true)),
    {
        self.phase = Phase::Running;
    }

    /// The guest's `run` function has returned.
    pub fn finish_running(&mut self)
        requires
            old(self)@.phase == Phase::Running,
        ensures
            final(self)@ == old(self)@.in_phase(old(self)@.phase.next(true)),
    {
        self.phase = Phase::Ready;
    }
}

/// Where the surface for the next guest is left, until the guest asks for it.
pub struct SurfaceSlot<S> {
    surface: Option<S>,
}

/// The mathematical value of a [`SurfaceSlot`].
pub struct SlotView<S> {
    pub surface: Option<S>,
}

impl<S> View for SurfaceSlot<S> {
    type V = SlotView<S>;

    closed spec fn view(&self) -> SlotView<S> {
        SlotView { surface: self.surface }
    }
}

impl<S> SlotView<S> {
    /// The slot after a surface was left in it.
    pub open spec fn replaced(self, surface: S) -> SlotView<S> {
        SlotView { surface: Some(surface) }
    }

    /// The surface that a guest gets when it asks.
    pub open spec fn canvas(self) -> S
        recommends
            self.surface is Some,
    {
        self.surface->0
    }

    /// The slot after a guest has asked for its surface.
    pub open spec fn given_out(self) -> SlotView<S> {
        SlotView { surface: None }
    }
}

impl<S> SurfaceSlot<S> {
    /// A slot with no surface in it.
    pub fn new() -> (slot: SurfaceSlot<S>)
        ensures
            slot@.surface is None,
    {
        SurfaceSlot { surface: None }
    }

    /// Leaves a surface, in place of any left before.
    pub fn replace(&mut self, surface: S)
        ensures
            final(self)@ == old(self)@.replaced(surface),
    {
        self.surface = Some(surface);
    }

    /// Whether a surface is left.
    pub fn holds_surface(&self) -> (r: bool)
        ensures
            r == self@.surface is Some,
    {
        self.surface.is_some()
    }

    /// The guest asks for its surface. Each surface is given out once.
    pub fn create_canvas(&mut self) -> (surface: S)
        requires
            old(self)@.surface is Some,
        ensures
            surface == old(self)@.canvas(),
            final(self)@ == old(self)@.given_out(),
    {
        self.surface.take().unwrap()
    }
}

} // verus!
