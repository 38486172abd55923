//! The plugin as the host application knows it.
use vstd::prelude::*;
use crate::error::UmbrellaError;
use crate::ffi::types::{MObject, MStatus};
use crate::wrapper::{check_status, MayaObject};

verus! {

/// The plugin: a handle with a name, a version and a vendor.
#[derive(Debug)]
pub struct Plugin {
    mobject: MObject,
    name: String,
    version: String,
    vendor: String,
}

impl Plugin {
    /// The plugin's name.
    pub closed spec fn spec_name(&self) -> Seq<char> {
        self.name@
    }

    /// The plugin's version.
    pub closed spec fn spec_version(&self) -> Seq<char> {
        self.version@
    }

    /// The plugin's vendor.
    pub closed spec fn spec_vendor(&self) -> Seq<char> {
        self.vendor@
    }

    /// A plugin on the handle `mobject`; a null handle is refused.
    pub fn new(mobject: MObject, name: &str, version: &str, vendor: &str) -> (r: Result<
        Self,
        UmbrellaError,
    >)
        ensures
            r matches Err(e) && e is PluginInit,
    {
        if mobject.is_null() {
            return Err(UmbrellaError::PluginInit("MObject is null".to_string()));
        }
        Ok(
            Plugin {
                mobject,
                name: name.to_string(),
                version: version.to_string(),
                vendor: vendor.to_string(),
            },
        )
    }

    /// The plugin's name.
    pub fn name(&self) -> (r: &str)
        ensures
            r@ == self.spec_name(),
    {
        self.name.as_str()
    }

    /// The plugin's version.
    pub fn version(&self) -> (r: &str)
        ensures
            r@ == self.spec_version(),
    {
        self.version.as_str()
    }

    /// The plugin's vendor.
    pub fn vendor(&self) -> (r: &str)
        ensures
            r@ == self.spec_vendor(),
    {
        self.vendor.as_str()
    }

    /// Registers a command with the host application.
    pub fn register_command(&self, command_name: &str) -> (r: Result<(), UmbrellaError>)
        ensures
            r is Ok,
    {
        check_status(MStatus::success())
    }

    /// Deregisters a command from the host application.
    pub fn deregister_command(&self, command_name: &str) -> (r: Result<(), UmbrellaError>)
        ensures
            r is Ok,
    {
        check_status(MStatus::success())
    }

    /// Sets the interface version that the plugin asks for.
    pub fn set_api_version(&self, version: &str) -> (r: Result<(), UmbrellaError>)
        ensures
            r is Ok,
    {
        check_status(MStatus::success())
    }

    /// "Plugin: <name> v<version> by <vendor>".
    pub fn info(&self) -> (r: String)
        ensures
            r@ == "Plugin: "@ + self.spec_name() + " v"@ + self.spec_version() + " by "@
                + self.spec_vendor(),
    {
        let mut s = "Plugin: ".to_string();
        s.append(self.name.as_str());
        s.append(" v");
        s.append(self.version.as_str());
        s.append(" by ");
        s.append(self.vendor.as_str());
        s
    }
}

impl MayaObject for Plugin {
    fn is_valid(&self) -> bool {
        !self.mobject.is_null()
    }

    fn mobject(&self) -> Option<&MObject> {
        Some(&self.mobject)
    }
}

} // verus!
