//! The build manifest of the plugin, as far as the plugin reads it: the
//! package section, and below its metadata the section `wasm-plugin` that
//! describes the plugin to the host.
//!
//! The embedding program parses the manifest file; these types hold what it
//! found.

use crate::plugin::{PluginCapabilitiesView, PluginInfoView, PluginSourceView, PluginType};
use vstd::prelude::*;

verus! {

/// A parsed manifest.
#[derive(Debug)]
pub struct CargoToml {
    pub package: CargoPackage,
}

/// The package section of a manifest.
#[derive(Debug)]
pub struct CargoPackage {
    pub name: String,
    pub version: String,
    pub authors: Vec<String>,
    pub description: String,
    pub homepage: Option<String>,
    pub repository: Option<String>,
    pub license: Option<String>,
    pub keywords: Option<Vec<String>>,
    pub categories: Option<Vec<String>>,
    pub metadata: Option<PackageMetadata>,
}

/// The metadata of a package that the plugin reads.
#[derive(Debug)]
pub struct PackageMetadata {
    pub wasm_plugin: WasmPluginConfig,
}

/// The section `wasm-plugin`.
#[derive(Debug)]
pub struct WasmPluginConfig {
    pub name: String,
    pub extensions: Vec<String>,
    pub entry_files: Vec<String>,
    pub capabilities: WasmPluginCapabilities,
    pub dependencies: WasmPluginDependencies,
}

/// The capability flags of the section `wasm-plugin`.
#[derive(Debug)]
pub struct WasmPluginCapabilities {
    pub compile_wasm: bool,
    pub compile_webapp: bool,
    pub live_reload: bool,
    pub optimization: bool,
    pub custom_targets: Vec<String>,
}

/// The external tools that the section `wasm-plugin` declares.
#[derive(Debug)]
pub struct WasmPluginDependencies {
    pub tools: Vec<String>,
}

/// Why a manifest does not describe a plugin.
#[derive(Debug, Clone, Copy, PartialEq, Eq, Structural)]
pub enum ManifestError {
    /// The package has no metadata section `wasm-plugin`.
    MissingPluginSection,
}

/// A `WasmPluginConfig` with its texts as sequences of characters.
pub struct WasmPluginConfigView {
    pub name: Seq<char>,
    pub extensions: Seq<Seq<char>>,
    pub entry_files: Seq<Seq<char>>,
    pub capabilities: PluginCapabilitiesView,
    pub tools: Seq<Seq<char>>,
}

impl View for WasmPluginConfig {
    type V = WasmPluginConfigView;

    open spec fn view(&self) -> WasmPluginConfigView {
        WasmPluginConfigView {
            name: self.name@,
            extensions: self.extensions.deep_view(),
            entry_files: self.entry_files.deep_view(),
            capabilities: PluginCapabilitiesView {
                compile_wasm: self.capabilities.compile_wasm,
                compile_webapp: self.capabilities.compile_webapp,
                live_reload: self.capabilities.live_reload,
                optimization: self.capabilities.optimization,
                custom_targets: self.capabilities.custom_targets.deep_view(),
            },
            tools: self.dependencies.tools.deep_view(),
        }
    }
}

/// A `CargoToml` with its texts as sequences of characters.
pub struct CargoTomlView {
    pub name: Seq<char>,
    pub version: Seq<char>,
    pub authors: Seq<Seq<char>>,
    pub description: Seq<char>,
    pub homepage: Option<Seq<char>>,
    pub repository: Option<Seq<char>>,
    pub license: Option<Seq<char>>,
    pub keywords: Option<Seq<Seq<char>>>,
    pub categories: Option<Seq<Seq<char>>>,
    pub wasm_plugin: Option<WasmPluginConfigView>,
}

impl View for CargoToml {
    type V = CargoTomlView;

    open spec fn view(&self) -> CargoTomlView {
        CargoTomlView {
            name: self.package.name@,
            version: self.package.version@,
            authors: self.package.authors.deep_view(),
            description: self.package.description@,
            homepage: self.package.homepage.deep_view(),
            repository: self.package.repository.deep_view(),
            license: self.package.license.deep_view(),
            keywords: self.package.keywords.deep_view(),
            categories: self.package.categories.deep_view(),
            wasm_plugin: match self.package.metadata {
                Some(metadata) => Some(metadata.wasm_plugin@),
                None => None,
            },
        }
    }
}

/// The author that a plugin is given: the first author of the package, or
/// `Unknown` where the package names none.
pub open spec fn author_of(authors: Seq<Seq<char>>) -> Seq<char> {
    if authors.len() > 0 {
        authors[0]
    } else {
        "Unknown"@
    }
}

/// The description of the plugin that a manifest stands for. The plugin has
/// its name, file extensions, entry files, tools and capabilities from the
/// section `wasm-plugin`, and its version, description and author from the
/// package; it is an external plugin that comes from the registry under the
/// package's name and version.
pub open spec fn plugin_info_of(manifest: CargoTomlView) -> PluginInfoView
    recommends
        manifest.wasm_plugin is Some,
{
    let wasm_plugin = manifest.wasm_plugin->0;
    PluginInfoView {
        name: wasm_plugin.name,
        version: manifest.version,
        description: manifest.description,
        author: author_of(manifest.authors),
        extensions: wasm_plugin.extensions,
        entry_files: wasm_plugin.entry_files,
        plugin_type: PluginType::External,
        source: Some(PluginSourceView::CratesIo { name: manifest.name, version: manifest.version }),
        dependencies: wasm_plugin.tools,
        capabilities: wasm_plugin.capabilities,
    }
}

} // verus!
