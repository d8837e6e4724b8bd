use tagua_vm::engine::{Engine, ErrorKind};
use tagua_vm::module::Module;
use tagua_vm::options::{CodeModel, NativeOptions, OptimizationLevel, Options};

const LEVELS: [OptimizationLevel; 4] = [
    OptimizationLevel::NoOptimizations,
    OptimizationLevel::Level1,
    OptimizationLevel::Level2,
    OptimizationLevel::Level3,
];

const CODE_MODELS: [CodeModel; 6] = [
    CodeModel::Default,
    CodeModel::JITDefault,
    CodeModel::Kernel,
    CodeModel::Large,
    CodeModel::Medium,
    CodeModel::Small,
];

#[test]
fn case_ownership() {
    let mut module = Module::new(String::from("foobar"), 0x1000);
    let request = Engine::prepare(
        &mut module,
        &Options {
            level: OptimizationLevel::NoOptimizations,
            code_model: CodeModel::Default,
        },
    );
    assert_eq!(request.module_ref, 0x1000);
    let result = Engine::new(0, 0x2000, String::new());

    match result {
        Ok(engine) => assert!(engine.is_owned()),
        Err(_) => assert!(false),
    }
}

#[test]
fn module_keeps_its_name() {
    let module = Module::new(String::from("foobar"), 1);
    assert_eq!(module.name(), "foobar");
    assert_eq!(module.to_ref(), 1);
    assert!(module.owns_resource());
}

#[test]
fn ordinals_of_levels() {
    let ordinals: Vec<u32> = LEVELS.iter().map(|l| l.ordinal()).collect();
    assert_eq!(ordinals, vec![0, 1, 2, 3]);
}

#[test]
fn native_values_of_code_models() {
    let values: Vec<u32> = CODE_MODELS.iter().map(|c| c.native_value()).collect();
    assert_eq!(values, vec![0, 1, 4, 6, 5, 3]);
}

#[test]
fn native_record_fixes_the_flags() {
    let options = Options { level: OptimizationLevel::Level3, code_model: CodeModel::Large };
    assert_eq!(
        options.to_native(),
        NativeOptions { opt_level: 3, code_model: 6, no_frame_pointer_elim: 0, enable_fast_isel: 1 }
    );
}

#[test]
fn every_combination_gives_an_owning_engine() {
    let mut handle: usize = 16;
    for level in LEVELS {
        for code_model in CODE_MODELS {
            let options = Options { level, code_model };
            let mut module = Module::new(String::from("unit"), handle);
            let request = Engine::prepare(&mut module, &options);
            assert_eq!(request.options, options.to_native());
            assert!(!module.owns_resource());
            let engine = Engine::new(0, handle + 8, String::new()).unwrap();
            assert!(engine.is_owned());
            assert_eq!(engine.to_ref(), handle + 8);
            handle += 16;
        }
    }
}

#[test]
fn engine_disposes_once() {
    let mut engine = Engine::new(0, 42, String::new()).unwrap();
    assert!(engine.release());
    assert!(!engine.is_owned());
    assert!(!engine.release());
    assert_eq!(engine.to_ref(), 42);
}

#[test]
fn module_teardown_is_a_no_op_after_hand_over() {
    let mut module = Module::new(String::from("foobar"), 7);
    let options = Options { level: OptimizationLevel::Level1, code_model: CodeModel::Small };
    Engine::prepare(&mut module, &options);
    let mut engine = Engine::new(0, 9, String::new()).unwrap();
    assert!(!module.release());
    assert!(engine.release());
}

#[test]
fn module_teardown_releases_when_still_owned() {
    let mut module = Module::new(String::from("foobar"), 7);
    assert!(module.release());
    assert!(!module.release());
}

#[test]
fn module_is_handed_over_even_on_failure() {
    let mut module = Module::new(String::from("broken"), 7);
    let options = Options { level: OptimizationLevel::Level2, code_model: CodeModel::Medium };
    Engine::prepare(&mut module, &options);
    let result = Engine::new(1, 0, String::from("invalid module"));
    assert!(result.is_err());
    assert!(!module.release());
}

#[test]
fn failed_creation_carries_the_diagnostic() {
    let result = Engine::new(1, 0, String::from("Broken module found, compilation aborted!"));
    match result {
        Ok(_) => assert!(false),
        Err(ErrorKind::EngineCreationFailed(message)) => {
            assert!(!message.is_empty());
            assert_eq!(message, "Broken module found, compilation aborted!");
        }
    }
}

#[test]
fn any_nonzero_status_is_a_failure() {
    let result = Engine::new(-1, 5, String::from("out of memory"));
    assert_eq!(result.err(), Some(ErrorKind::EngineCreationFailed(String::from("out of memory"))));
}

#[test]
fn two_engines_in_either_order() {
    let mut a = Engine::new(0, 100, String::new()).unwrap();
    let mut b = Engine::new(0, 200, String::new()).unwrap();
    assert!(b.release());
    assert!(a.is_owned());
    assert!(a.release());
    assert!(!a.release() && !b.release());

    let mut c = Engine::new(0, 300, String::new()).unwrap();
    let mut d = Engine::new(0, 400, String::new()).unwrap();
    assert!(c.release());
    assert!(d.is_owned());
    assert!(d.release());
    assert_eq!((c.to_ref(), d.to_ref()), (300, 400));
}
