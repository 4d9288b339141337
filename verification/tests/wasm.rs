use browser::wasm::{Interface, Phase, SurfaceSlot, Wasm, WasmError};

fn runtime() -> Wasm {
    match Wasm::new() {
        Ok(wasm) => wasm,
        Err(_) => panic!("no engine"),
    }
}

fn ready() -> Wasm {
    let mut wasm = runtime();
    for _ in 0..4 {
        assert!(wasm.finish_linking(Ok(())).is_ok());
    }
    wasm
}

#[test]
fn engine_runs_components_asynchronously() {
    let wasm = runtime();
    assert!(wasm.engine().is_async());
    let empty: [u8; 8] = [0, 97, 115, 109, 13, 0, 1, 0];
    assert!(wasmtime::component::Component::new(wasm.engine(), empty).is_ok());
}

#[test]
fn settings_make_an_engine_for_components() {
    match wasmtime::Engine::new(&Wasm::settings()) {
        Ok(engine) => {
            assert!(engine.is_async());
            match Wasm::with_engine(Ok(engine)) {
                Ok(wasm) => assert_eq!(wasm.phase(), Phase::Linking(Interface::WebGpu)),
                Err(_) => panic!("an engine makes a runtime"),
            }
        }
        Err(_) => panic!("no engine"),
    }
}

#[test]
fn failed_engine_is_reported_with_its_cause() {
    match Wasm::with_engine(Err(anyhow::Error::msg("no memory"))) {
        Err(WasmError::Setup(cause)) => assert_eq!(cause.to_string(), "no memory"),
        _ => panic!("a failed engine must be reported"),
    }
}

#[test]
fn run_that_was_given_up_does_not_block_another() {
    let mut wasm = ready();
    let mut slot: SurfaceSlot<u32> = SurfaceSlot::new();
    wasm.run_wasm("a.wasm".to_string(), 1, &mut slot);
    assert!(wasm.finish_loading(Ok(())).is_ok());
    assert_eq!(wasm.run_wasm("b.wasm".to_string(), 2, &mut slot), "b.wasm");
    assert_eq!(wasm.phase(), Phase::Loading);
    assert_eq!(slot.create_canvas(), 2);
}

#[test]
fn interfaces_are_linked_in_order() {
    let mut wasm = runtime();
    for interface in [
        Interface::WebGpu,
        Interface::GraphicsContext,
        Interface::Surface,
        Interface::Wasi,
    ] {
        assert_eq!(wasm.phase(), Phase::Linking(interface));
        assert!(wasm.finish_linking(Ok(())).is_ok());
    }
    assert_eq!(wasm.phase(), Phase::Ready);
}

#[test]
fn first_failed_link_is_the_last() {
    let mut wasm = runtime();
    assert!(wasm.finish_linking(Ok(())).is_ok());
    match wasm.finish_linking(Err(anyhow::Error::msg("taken"))) {
        Err(error @ WasmError::Setup(_)) => {
            assert_eq!(error.context(), None);
            match error {
                WasmError::Setup(cause) => assert_eq!(cause.to_string(), "taken"),
                _ => unreachable!(),
            }
        }
        _ => panic!("a failed link must be reported"),
    }
    assert_eq!(wasm.phase(), Phase::Broken);
}

#[test]
fn run_goes_through_its_phases() {
    let mut wasm = ready();
    let mut slot: SurfaceSlot<u32> = SurfaceSlot::new();
    assert_eq!(wasm.run_wasm("downloaded.wasm".to_string(), 7, &mut slot), "downloaded.wasm");
    assert_eq!(wasm.phase(), Phase::Loading);
    assert!(wasm.finish_loading(Ok(())).is_ok());
    assert_eq!(wasm.phase(), Phase::Instantiating);
    wasm.finish_instantiating();
    assert_eq!(wasm.phase(), Phase::Running);
    assert_eq!(slot.create_canvas(), 7);
    wasm.finish_running();
    assert_eq!(wasm.phase(), Phase::Ready);
}

#[test]
fn missing_component_ends_the_run() {
    let mut wasm = ready();
    let mut slot: SurfaceSlot<u32> = SurfaceSlot::new();
    wasm.run_wasm("none.wasm".to_string(), 7, &mut slot);
    match wasm.finish_loading(Err(anyhow::Error::msg("no such file"))) {
        Err(error @ WasmError::ComponentNotFound(_)) => {
            assert_eq!(error.context(), Some("Component file not found".to_string()));
        }
        _ => panic!("a missing component must be reported"),
    }
    assert_eq!(wasm.phase(), Phase::Ready);
    assert!(slot.holds_surface());
}

#[test]
fn slot_gives_the_last_surface_once() {
    let mut slot: SurfaceSlot<&str> = SurfaceSlot::new();
    assert!(!slot.holds_surface());
    slot.replace("first");
    slot.replace("second");
    assert!(slot.holds_surface());
    assert_eq!(slot.create_canvas(), "second");
    assert!(!slot.holds_surface());
}
