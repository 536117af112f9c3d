//! The configuration store's path layout inside the application data
//! directory. Where that directory lives is OS-specific and probed
//! outside; reading and writing the file is filesystem work done
//! outside too.

use vstd::prelude::*;

verus! {

use vstd::string::StringExecFns;

/// TOML-based configuration store: the path layout under the data
/// directory.
pub struct TomlConfigStore {
    data_dir: String,
}

impl TomlConfigStore {
    /// The application data directory.
    pub closed spec fn spec_data_dir(&self) -> Seq<char> {
        self.data_dir@
    }

    /// A store rooted at the given (existing) data directory.
    pub fn new(data_dir: String) -> (r: TomlConfigStore)
        ensures
            r.spec_data_dir() == data_dir@,
    {
        TomlConfigStore { data_dir }
    }

    /// The path of the configuration file: `config.toml` in the data
    /// directory.
    pub fn config_path(&self) -> (r: String)
        ensures
            r@ == self.spec_data_dir() + "/config.toml"@,
    {
        let mut out = self.data_dir.clone();
        out.append("/config.toml");
        out
    }

    /// The application data directory.
    pub fn data_dir(&self) -> (r: String)
        ensures
            r@ == self.spec_data_dir(),
    {
        self.data_dir.clone()
    }

    /// The log directory: `logs` in the data directory.
    pub fn logs_dir(&self) -> (r: String)
        ensures
            r@ == self.spec_data_dir() + "/logs"@,
    {
        let mut out = self.data_dir.clone();
        out.append("/logs");
        out
    }

    /// The models directory: `models` in the data directory.
    pub fn models_dir(&self) -> (r: String)
        ensures
            r@ == self.spec_data_dir() + "/models"@,
    {
        let mut out = self.data_dir.clone();
        out.append("/models");
        out
    }

    /// The application paths, bundled for the front-end.
    pub fn app_paths(&self) -> (r: AppPaths)
        ensures
            r.data_dir@ == self.spec_data_dir(),
            r.logs_dir@ == self.spec_data_dir() + "/logs"@,
            r.config_path@ == self.spec_data_dir() + "/config.toml"@,
    {
        AppPaths { data_dir: self.data_dir(), logs_dir: self.logs_dir(), config_path: self.config_path() }
    }
}

/// Application paths information, as handed to the front-end.
#[derive(Debug, Clone)]
pub struct AppPaths {
    pub data_dir: String,
    pub logs_dir: String,
    pub config_path: String,
}

} // verus!
