use vstd::prelude::*;

verus! {

/// The kind of plugin project to create from a template.
#[derive(Debug, Clone, Copy, PartialEq, Eq, Structural)]
pub enum PluginTemplate {
    /// The extension plugin template.
    Ext,
    /// The VST plugin template.
    Vst,
}

impl PluginTemplate {
    /// The name under which the template is chosen on the command line.
    pub fn name(&self) -> (r: &'static str)
        ensures
            r@ == match *self {
                PluginTemplate::Ext => "ext"@,
                PluginTemplate::Vst => "vst"@,
            },
    {
        match self {
            PluginTemplate::Ext => "ext",
            PluginTemplate::Vst => "vst",
        }
    }
}

/// How one standard stream of a spawned process is wired.
#[derive(Debug, Clone, Copy, PartialEq, Eq, Structural)]
pub enum Stdio {
    /// A new pipe to the supervising process.
    Piped,
    /// The supervising process's own stream.
    Inherit,
    /// Discarded.
    Null,
}

} // verus!
