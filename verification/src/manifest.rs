//! The earlier, addon-centric manifest model: an addon's declared metadata
//! and optional packaging information, with its display rendering.  Loading
//! the manifest file happens outside the library.

use vstd::prelude::*;

use crate::moxen::manifest::author_lines;
use crate::moxen::manifest::optional_line;
use crate::moxen::manifest::render_author_items;
use crate::moxen::manifest::render_optional_line;
use crate::moxen::manifest::render_version;
use crate::moxen::manifest::version_block;

verus! {

/// An addon's manifest: its metadata and optional packaging information.
#[derive(Debug, Clone)]
pub struct Addon {
    pub addon: AddonMetadata,
    pub package: Option<PackageInformation>,
}

/// The addon's declared metadata.
#[derive(Debug, Clone)]
pub struct AddonMetadata {
    pub name: String,
    pub version: Option<String>,
    pub wow_version: String,
    pub description: String,
    pub authors: Vec<String>,
    pub homepage: Option<String>,
    pub repository: Option<String>,
}

/// Packaging information: the declared ignore list, when any.
#[derive(Debug, Clone)]
pub struct PackageInformation {
    pub ignore_list: Option<Vec<String>>,
}

impl Addon {
    /// The fixed, human-readable rendering of the addon: every populated
    /// optional field in a fixed order, absent fields omitted entirely.
    pub open spec fn display_spec(&self) -> Seq<char> {
        "Name: "@ + self.addon.name@ + "\n"@ + version_block(self.addon.version.deep_view())
            + "World of Warcraft Version: "@ + self.addon.wow_version@ + "\n"@
            + "Addon Description: \""@ + self.addon.description@ + "\"\n"@ + "Authors:\n"@
            + author_lines(self.addon.authors.deep_view()) + optional_line(
            "Home: "@,
            self.addon.homepage.deep_view(),
        ) + optional_line("Source Code: "@, self.addon.repository.deep_view())
    }

    /// Renders the addon for display.
    pub fn describe(&self) -> (r: String)
        ensures
            r@ == self.display_spec(),
    {
        let mut out = String::from_str("Name: ");
        out.append(self.addon.name.as_str());
        out.append("\n");
        render_version(&self.addon.version, &mut out);
        out.append("World of Warcraft Version: ");
        out.append(self.addon.wow_version.as_str());
        out.append("\n");
        out.append("Addon Description: \"");
        out.append(self.addon.description.as_str());
        out.append("\"\n");
        out.append("Authors:\n");
        render_author_items(&self.addon.authors, &mut out);
        render_optional_line("Home: ", &self.addon.homepage, &mut out);
        render_optional_line("Source Code: ", &self.addon.repository, &mut out);
        out
    }
}

} // verus!
