//! The library's error type.
use vstd::prelude::*;

verus! {

/// Errors that the library reports, each with a message.
#[derive(Debug, Clone)]
pub enum UmbrellaError {
    /// Host API related errors.
    MayaApi(String),
    /// Foreign-interface related errors.
    Ffi(String),
    /// A null pointer was handed over.
    NullPointer(String),
    /// A string could not be converted.
    StringConversion(String),
    /// Plugin initialization failed.
    PluginInit(String),
    /// A command could not be executed.
    CommandExecution(String),
    /// A scan or clean could not proceed.
    Antivirus(String),
    /// A path or file does not exist.
    NotFound(String),
    /// A file could not be read or is not text.
    ReadError(String),
    /// A backup or an output file could not be written.
    WriteError(String),
    /// Scan or clean options are malformed.
    ConfigError(String),
    /// An I/O operation failed.
    Io(String),
    /// Any other error.
    Generic(String),
}

fn prefixed_message(prefix: &str, msg: &String) -> (r: String)
    ensures
        r@ == prefix@ + msg@,
{
    let mut s = prefix.to_string();
    s.append(msg.as_str());
    s
}

impl UmbrellaError {
    /// The message that this error carries.
    pub open spec fn detail(&self) -> Seq<char> {
        match self {
            UmbrellaError::MayaApi(m) => m@,
            UmbrellaError::Ffi(m) => m@,
            UmbrellaError::NullPointer(m) => m@,
            UmbrellaError::StringConversion(m) => m@,
            UmbrellaError::PluginInit(m) => m@,
            UmbrellaError::CommandExecution(m) => m@,
            UmbrellaError::Antivirus(m) => m@,
            UmbrellaError::NotFound(m) => m@,
            UmbrellaError::ReadError(m) => m@,
            UmbrellaError::WriteError(m) => m@,
            UmbrellaError::ConfigError(m) => m@,
            UmbrellaError::Io(m) => m@,
            UmbrellaError::Generic(m) => m@,
        }
    }

    /// The heading that the error's text starts with.
    pub open spec fn heading(&self) -> Seq<char> {
        match self {
            UmbrellaError::MayaApi(_) => "Maya API error: "@,
            UmbrellaError::Ffi(_) => "FFI error: "@,
            UmbrellaError::NullPointer(_) => "Null pointer error: "@,
            UmbrellaError::StringConversion(_) => "String conversion error: "@,
            UmbrellaError::PluginInit(_) => "Plugin initialization error: "@,
            UmbrellaError::CommandExecution(_) => "Command execution error: "@,
            UmbrellaError::Antivirus(_) => "Antivirus operation error: "@,
            UmbrellaError::NotFound(_) => "Not found: "@,
            UmbrellaError::ReadError(_) => "Read error: "@,
            UmbrellaError::WriteError(_) => "Write error: "@,
            UmbrellaError::ConfigError(_) => "Configuration error: "@,
            UmbrellaError::Io(_) => "IO error: "@,
            UmbrellaError::Generic(_) => "Error: "@,
        }
    }

    /// Create a host API error.
    pub fn maya_api(msg: &str) -> (r: Self)
        ensures
            r matches UmbrellaError::MayaApi(m) && m@ == msg@,
    {
        UmbrellaError::MayaApi(msg.to_string())
    }

    /// Create a foreign-interface error.
    pub fn ffi(msg: &str) -> (r: Self)
        ensures
            r matches UmbrellaError::Ffi(m) && m@ == msg@,
    {
        UmbrellaError::Ffi(msg.to_string())
    }

    /// Create a plugin initialization error.
    pub fn plugin_init(msg: &str) -> (r: Self)
        ensures
            r matches UmbrellaError::PluginInit(m) && m@ == msg@,
    {
        UmbrellaError::PluginInit(msg.to_string())
    }

    /// Create a command execution error.
    pub fn command_execution(msg: &str) -> (r: Self)
        ensures
            r matches UmbrellaError::CommandExecution(m) && m@ == msg@,
    {
        UmbrellaError::CommandExecution(msg.to_string())
    }

    /// The error's text: its heading followed by its message.
    pub fn message(&self) -> (r: String)
        ensures
            r@ == self.heading() + self.detail(),
    {
        match self {
            UmbrellaError::MayaApi(m) => prefixed_message("Maya API error: ", m),
            UmbrellaError::Ffi(m) => prefixed_message("FFI error: ", m),
            UmbrellaError::NullPointer(m) => prefixed_message("Null pointer error: ", m),
            UmbrellaError::StringConversion(m) => prefixed_message("String conversion error: ", m),
            UmbrellaError::PluginInit(m) => prefixed_message("Plugin initialization error: ", m),
            UmbrellaError::CommandExecution(m) => prefixed_message("Command execution error: ", m),
            UmbrellaError::Antivirus(m) => prefixed_message("Antivirus operation error: ", m),
            UmbrellaError::NotFound(m) => prefixed_message("Not found: ", m),
            UmbrellaError::ReadError(m) => prefixed_message("Read error: ", m),
            UmbrellaError::WriteError(m) => prefixed_message("Write error: ", m),
            UmbrellaError::ConfigError(m) => prefixed_message("Configuration error: ", m),
            UmbrellaError::Io(m) => prefixed_message("IO error: ", m),
            UmbrellaError::Generic(m) => prefixed_message("Error: ", m),
        }
    }
}

} // verus!
