use umbrella::commands::{deregister_all_commands, get_commands_info, register_all_commands};
use umbrella::error::UmbrellaError;
use umbrella::ffi::maya_bindings_available;
use umbrella::ffi::types::{MObject, MStatus, MString};
use umbrella::wrapper::command::{BaseCommand, Command, CommandRegistry};
use umbrella::wrapper::plugin::Plugin;
use umbrella::wrapper::{check_status, safe_maya_call, safe_maya_call_with_result};
use umbrella::UmbrellaResult;

struct TestCommand {
    name: String,
}

impl TestCommand {
    fn new(name: &str) -> Self {
        TestCommand {
            name: name.to_string(),
        }
    }
}

impl Command for TestCommand {
    fn name(&self) -> &str {
        &self.name
    }

    fn execute(&mut self, args: &[String]) -> Result<String, UmbrellaError> {
        Ok(format!("TestCommand '{}' executed with args: {:?}", self.name, args))
    }
}

#[test]
fn test_register_all_commands() {
    let mut registry = CommandRegistry::new();
    let result = register_all_commands(&mut registry);
    assert!(result.is_ok());
}

#[test]
fn test_deregister_all_commands() {
    let mut registry = CommandRegistry::new();
    let result = deregister_all_commands(&mut registry);
    assert!(result.is_ok());
}

#[test]
fn test_get_commands_info() {
    let registry = CommandRegistry::new();
    let info = get_commands_info(&registry);
    assert!(info.contains("Umbrella Maya Plugin Commands"));
    assert!(info.contains("No commands are currently registered"));
}

#[test]
fn test_maya_bindings_availability() {
    // This test passes whether or not bindings are available
    let available = maya_bindings_available();
    println!("Maya bindings available: {}", available);
}

#[test]
fn test_mstatus() {
    let success = MStatus::success();
    assert!(success.is_success());
    assert!(!success.is_error());

    let error = MStatus::error(1);
    assert!(!error.is_success());
    assert!(error.is_error());
    assert_eq!(error.code(), 1);
}

#[test]
fn test_mstring() {
    let empty = MString::empty();
    assert!(empty.is_empty());
    assert_eq!(empty.len(), 0);

    let hello = MString::new("Hello, Maya!");
    assert!(!hello.is_empty());
    assert_eq!(hello.as_str(), "Hello, Maya!");
    assert_eq!(hello.len(), 12);

    let from_str: MString = "Test".into();
    assert_eq!(from_str.as_str(), "Test");
}

#[test]
fn test_mobject() {
    let obj = MObject::null();
    assert!(obj.is_null());
}

#[test]
fn test_base_command() {
    let mut cmd = BaseCommand::new("test", "A test command");
    assert_eq!(cmd.name(), "test");
    assert_eq!(cmd.description(), "A test command");

    let result = cmd.execute(&[]).unwrap();
    assert!(result.contains("test"));
}

#[test]
fn test_command_registry() {
    let mut registry = CommandRegistry::new();

    // Register a command
    let cmd = TestCommand::new("testcmd");
    assert!(registry.register(cmd).is_ok());

    // Check it's in the list
    let commands = registry.list_commands();
    assert!(commands.contains(&"testcmd".to_string()));

    // Execute the command
    let result = registry.execute("testcmd", &["arg1".to_string()]).unwrap();
    assert!(result.contains("testcmd"));
    assert!(result.contains("arg1"));

    // Deregister the command
    assert!(registry.deregister("testcmd").is_ok());

    // Check it's no longer in the list
    let commands = registry.list_commands();
    assert!(!commands.contains(&"testcmd".to_string()));
}

#[test]
fn test_duplicate_registration() {
    let mut registry = CommandRegistry::new();

    let cmd1 = TestCommand::new("duplicate");
    let cmd2 = TestCommand::new("duplicate");

    assert!(registry.register(cmd1).is_ok());
    assert!(registry.register(cmd2).is_err());
}

#[test]
fn test_check_status() {
    assert!(check_status(MStatus::success()).is_ok());
    assert!(check_status(MStatus::error(1)).is_err());
}

#[test]
fn test_safe_maya_call() {
    let result = safe_maya_call(|| MStatus::success());
    assert!(result.is_ok());

    let result = safe_maya_call(|| MStatus::error(1));
    assert!(result.is_err());
}

#[test]
fn test_plugin_creation() {
    let mobject = MObject::null();
    let result = Plugin::new(mobject, "TestPlugin", "1.0.0", "Test Vendor");

    // This fails because the handle is null
    assert!(result.is_err());
}

#[test]
fn test_plugin_info() {
    // A valid plugin needs the host application; the format is checked here.
    let name = "TestPlugin";
    let version = "1.0.0";
    let vendor = "Test Vendor";

    let expected = format!("Plugin: {} v{} by {}", name, version, vendor);

    assert_eq!(
        format!("Plugin: {} v{} by {}", name, version, vendor),
        expected
    );
}

#[test]
fn status_error_message_carries_code() {
    match check_status(MStatus::error(-3)) {
        Err(UmbrellaError::MayaApi(m)) => assert_eq!(m, "Maya operation failed with code: -3"),
        other => panic!("unexpected {:?}", other),
    }
    match check_status(MStatus::error(1207)) {
        Err(e) => assert_eq!(e.message(), "Maya API error: Maya operation failed with code: 1207"),
        other => panic!("unexpected {:?}", other),
    }
}

#[test]
fn call_with_result_checks_status() {
    assert_eq!(safe_maya_call_with_result(|| (5, MStatus::success())).unwrap(), 5);
    assert!(safe_maya_call_with_result(|| (5, MStatus::error(2))).is_err());
}

#[test]
fn registry_errors_and_help() {
    let mut registry: CommandRegistry = CommandRegistry::new();
    assert!(registry.register(Box::new(BaseCommand::new("scan", "Scan a scene")) as Box<dyn Command>).is_ok());
    assert!(matches!(registry.deregister("nope"), Err(UmbrellaError::CommandExecution(_))));
    assert!(matches!(registry.execute("nope", &[]), Err(UmbrellaError::CommandExecution(_))));
    assert!(registry.get_help("nope").is_err());
    assert_eq!(registry.get_help("scan").unwrap(), "scan: Scan a scene");
    assert_eq!(registry.execute("scan", &[]).unwrap(), "Base command 'scan' executed");
    assert_eq!(registry.get_all_help(), "Available commands:\n  scan: Scan a scene\n");
    let info = get_commands_info(&registry);
    assert_eq!(
        info,
        "Umbrella Maya Plugin Commands:\n=====================================\n\nAvailable commands:\n  scan: Scan a scene\n"
    );
    assert!(deregister_all_commands(&mut registry).is_ok());
    assert!(registry.list_commands().is_empty());
}

#[test]
fn default_help_and_undo() {
    let mut cmd = TestCommand::new("t");
    assert_eq!(cmd.help(), "Help for command: t");
    assert!(!cmd.is_undoable());
    assert!(matches!(cmd.undo(), Err(UmbrellaError::CommandExecution(_))));
}

#[test]
fn plugin_results_and_errors() {
    assert_eq!(UmbrellaResult::success(), UmbrellaResult { success: true, error_code: 0 });
    assert_eq!(UmbrellaResult::failure(4).error_code, 4);
    assert!(matches!(UmbrellaError::maya_api("m"), UmbrellaError::MayaApi(ref s) if s == "m"));
    assert!(matches!(UmbrellaError::ffi("f"), UmbrellaError::Ffi(_)));
    assert!(matches!(UmbrellaError::plugin_init("p"), UmbrellaError::PluginInit(_)));
    assert_eq!(UmbrellaError::command_execution("c").message(), "Command execution error: c");
    assert_eq!(UmbrellaError::NotFound("x".to_string()).message(), "Not found: x");
}

#[test]
fn test_status_conversion() {
    let success = MStatus::success();
    let result: Result<(), UmbrellaError> = success.into();
    assert!(result.is_ok());

    let error = MStatus::error(1);
    let result: Result<(), UmbrellaError> = error.into();
    assert!(result.is_err());
}
