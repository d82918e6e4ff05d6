use cmcursor::errors::{EngineError, Tool};
use cmcursor::invoke::{compiler_command, converter_command, interpret_exit};
use cmcursor::pipeline::{Materialization, Stage, StepEvent};

#[test]
fn converter_command_shape() {
    let cmd = converter_command(&String::from("/tmp/busy.gif"), &String::from("/theme/cursor.png"));
    assert_eq!(
        cmd,
        vec![
            "convert".to_string(),
            "/tmp/busy.gif".to_string(),
            "/theme/cursor.png".to_string()
        ]
    );
}

#[test]
fn compiler_command_shape() {
    let cmd = compiler_command(&String::from("/theme"), &String::from("/theme/cursors/pointer"));
    assert_eq!(
        cmd,
        vec![
            "xcursorgen".to_string(),
            "-p".to_string(),
            "/theme".to_string(),
            "-".to_string(),
            "/theme/cursors/pointer".to_string()
        ]
    );
}

#[test]
fn exit_status_interpretation() {
    assert_eq!(interpret_exit(Tool::RasterConverter, Some(0)), Ok(()));
    assert_eq!(
        interpret_exit(Tool::RasterConverter, Some(1)),
        Err(EngineError::ExternalToolError(Tool::RasterConverter))
    );
    assert_eq!(
        interpret_exit(Tool::CursorCompiler, None),
        Err(EngineError::ExternalToolError(Tool::CursorCompiler))
    );
}

#[test]
fn happy_path_runs_every_stage_and_cleans_up() {
    let mut m = Materialization::new();
    assert_eq!(m.stage, Stage::ConvertingRaster);
    m.step(StepEvent::ConverterExited(Some(0)));
    assert_eq!(m.stage, Stage::CompilingCursor);
    m.step(StepEvent::CompilerExited(Some(0)));
    assert_eq!(m.stage, Stage::InstallingArtifacts);
    m.step(StepEvent::InstallOutcome(true));
    assert_eq!(m.stage, Stage::NotifyingDesktop);
    m.step(StepEvent::NotifyOutcome(true));
    assert_eq!(m.stage, Stage::CleaningUp);
    m.step(StepEvent::CleanupDone);
    assert_eq!(m.stage, Stage::Finished);
    assert_eq!(m.outcome, None);
}

#[test]
fn failed_converter_still_cleans_up() {
    let mut m = Materialization::new();
    m.step(StepEvent::ConverterExited(Some(1)));
    assert_eq!(m.stage, Stage::CleaningUp);
    assert_eq!(m.outcome, Some(EngineError::ExternalToolError(Tool::RasterConverter)));
    m.step(StepEvent::CleanupDone);
    assert_eq!(m.stage, Stage::Finished);
}

#[test]
fn killed_compiler_names_the_compiler() {
    let mut m = Materialization::new();
    m.step(StepEvent::ConverterExited(Some(0)));
    m.step(StepEvent::CompilerExited(None));
    assert_eq!(m.stage, Stage::CleaningUp);
    assert_eq!(m.outcome, Some(EngineError::ExternalToolError(Tool::CursorCompiler)));
}

#[test]
fn failed_install_is_a_filesystem_error() {
    let mut m = Materialization::new();
    m.step(StepEvent::ConverterExited(Some(0)));
    m.step(StepEvent::CompilerExited(Some(0)));
    m.step(StepEvent::InstallOutcome(false));
    assert_eq!(m.stage, Stage::CleaningUp);
    assert_eq!(m.outcome, Some(EngineError::FilesystemError));
}

#[test]
fn unsupported_desktop_is_the_only_error_and_cleanup_still_runs() {
    let mut m = Materialization::new();
    m.step(StepEvent::ConverterExited(Some(0)));
    m.step(StepEvent::CompilerExited(Some(0)));
    m.step(StepEvent::InstallOutcome(true));
    m.step(StepEvent::NotifyOutcome(false));
    assert_eq!(m.stage, Stage::CleaningUp);
    assert_eq!(m.outcome, Some(EngineError::UnsupportedEnvironment));
    m.step(StepEvent::CleanupDone);
    assert_eq!(m.stage, Stage::Finished);
    assert_eq!(m.outcome, Some(EngineError::UnsupportedEnvironment));
}
