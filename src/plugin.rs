//! How a plugin's dynamic library is named on each platform.
use vstd::prelude::*;

use crate::platform::Platform;

verus! {

/// The file extension of a dynamic library.
pub open spec fn spec_plugin_ext(platform: Platform) -> Seq<char> {
    if platform.is_windows() {
        ".dll"@
    } else if platform == Platform::MacOs {
        ".dylib"@
    } else {
        ".so"@
    }
}

/// The file extension of a dynamic library on `platform`.
pub fn plugin_ext(platform: Platform) -> (r: &'static str)
    ensures
        r@ == spec_plugin_ext(platform),
{
    match platform {
        Platform::Linux => ".so",
        Platform::MacOs => ".dylib",
        _ => ".dll",
    }
}

/// The file name that the compiler gives to the library `lib_name`: with a
/// `lib` prefix, except on Windows.
pub fn from_plugin_file_name(platform: Platform, lib_name: &str) -> (r: String)
    ensures
        r@ == if platform.is_windows() {
            lib_name@
        } else {
            "lib"@ + lib_name@
        },
{
    if matches!(platform, Platform::WindowsX64 | Platform::WindowsX86 | Platform::WindowsArm64) {
        lib_name.to_owned()
    } else {
        let mut r = "lib".to_owned();
        r.append(lib_name);
        r
    }
}

/// `lib_name` with the platform's dynamic library extension.
pub fn add_plugin_ext(platform: Platform, lib_name: &str) -> (r: String)
    ensures
        r@ == lib_name@ + spec_plugin_ext(platform),
{
    let mut r = lib_name.to_owned();
    r.append(plugin_ext(platform));
    r
}

/// `items` with `sep` between each two neighbours.
pub open spec fn joined(items: Seq<Seq<char>>, sep: Seq<char>) -> Seq<char>
    decreases items.len(),
{
    if items.len() == 0 {
        Seq::empty()
    } else if items.len() == 1 {
        items[0]
    } else {
        joined(items.drop_last(), sep) + sep + items.last()
    }
}

/// A plugin package's manifest information.
#[derive(Debug, Clone, PartialEq, Eq, PartialOrd, Ord)]
pub struct PluginManifest {
    pub name: String,
    pub version: String,
    pub authors: Vec<String>,
    pub description: Option<String>,
}

impl PluginManifest {
    pub fn new(
        name: String,
        version: String,
        authors: Vec<String>,
        description: Option<String>,
    ) -> (m: PluginManifest)
        ensures
            m.name == name,
            m.version == version,
            m.authors == authors,
            m.description == description,
    {
        PluginManifest { name, version, authors, description }
    }

    /// The one-paragraph text of [`PluginManifest::summary`].
    pub open spec fn spec_summary(&self) -> Seq<char> {
        let head = self.name@ + " v"@ + self.version@;
        let with_description = match self.description {
            Some(d) => head + " -- "@ + d@,
            None => head,
        };
        if self.authors.len() == 0 {
            with_description
        } else {
            with_description + "\n\nAuthored by: "@ + joined(
                self.authors@.map_values(|a: String| a@),
                ", "@,
            )
        }
    }

    /// `name vVERSION`, then ` -- DESCRIPTION` if there is one, then a blank
    /// line and the comma-separated authors if there are any.
    pub fn summary(&self) -> (r: String)
        ensures
            r@ == self.spec_summary(),
    {
        let mut r = self.name.clone();
        r.append(" v");
        r.append(self.version.as_str());
        match &self.description {
            Some(d) => {
                r.append(" -- ");
                r.append(d.as_str());
            },
            None => {},
        }
        if self.authors.len() > 0 {
            r.append("\n\nAuthored by: ");
            let ghost prefix = r@;
            let ghost texts = self.authors@.map_values(|a: String| a@);
            r.append(self.authors[0].as_str());
            let mut i: usize = 1;
            assert(texts.take(1) =~= seq![texts[0]]);
            while i < self.authors.len()
                invariant
                    1 <= i <= self.authors.len(),
                    texts == self.authors@.map_values(|a: String| a@),
                    r@ == prefix + joined(texts.take(i as int), ", "@),
                decreases self.authors.len() - i,
            {
                r.append(", ");
                r.append(self.authors[i].as_str());
                assert(texts.take(i + 1).drop_last() =~= texts.take(i as int));
                i = i + 1;
            }
            assert(texts.take(i as int) =~= texts);
        }
        r
    }
}

} // verus!
