use vstd::prelude::*;
use vstd::string::StringExecFns;

verus! {

pub const DEFAULT_MOD_FILES_URL: &'static str = "http://serveur-arthur.tk/mod_files/mod_files.zip";

pub const DEFAULT_MINECRAFT_FOLDER_PATH: &'static str = "%appdata%\\.minecraft";

/// Where the archive is fetched from when nothing else is configured.
pub open spec fn default_url() -> Seq<char> {
    "http://serveur-arthur.tk/mod_files/mod_files.zip"@
}

/// The install root used when nothing else is configured.
pub open spec fn default_root() -> Seq<char> {
    "%appdata%\\.minecraft"@
}

/// The managed subdirectories used when nothing else is configured.
pub open spec fn default_folders() -> Seq<Seq<char>> {
    seq!["mods"@, "config"@]
}

/// What one install or remove run works from.
#[derive(Debug)]
pub struct Config {
    pub mod_files_url: String,
    pub minecraft_folder_path: String,
    pub modified_folders: Vec<String>,
}

impl Config {
    /// The folder names, as character sequences.
    pub open spec fn folders(&self) -> Seq<Seq<char>> {
        self.modified_folders@.map_values(|f: String| f@)
    }

    /// Whether this is the default configuration.
    pub open spec fn is_default(&self) -> bool {
        &&& self.mod_files_url@ == default_url()
        &&& self.minecraft_folder_path@ == default_root()
        &&& self.folders() == default_folders()
    }

    /// The default configuration.
    pub fn new() -> (r: Config)
        ensures
            r.is_default(),
    {
        let mut folders: Vec<String> = Vec::new();
        folders.push(String::from_str("mods"));
        folders.push(String::from_str("config"));
        let r = Config {
            mod_files_url: String::from_str(DEFAULT_MOD_FILES_URL),
            minecraft_folder_path: String::from_str(DEFAULT_MINECRAFT_FOLDER_PATH),
            modified_folders: folders,
        };
        proof {
            reveal_strlit("mods");
            reveal_strlit("config");
            assert(r.folders() =~= default_folders());
        }
        r
    }

    /// Resets every field to its default.
    pub fn default(&mut self)
        ensures
            final(self).is_default(),
    {
        let d = Config::new();
        self.mod_files_url = d.mod_files_url;
        self.minecraft_folder_path = d.minecraft_folder_path;
        self.modified_folders = d.modified_folders;
    }

    /// A configuration from its three fields, in declaration order.
    pub fn from(args: (String, String, Vec<String>)) -> (r: Config)
        ensures
            r.mod_files_url == args.0,
            r.minecraft_folder_path == args.1,
            r.modified_folders == args.2,
    {
        Config { mod_files_url: args.0, minecraft_folder_path: args.1, modified_folders: args.2 }
    }
}

/// The default configuration, as `Config::new` gives it. The contract stays
/// on `Config::new`: in a clause here, `Config::default` would name the
/// inherent method that resets a value.
impl Default for Config {
    fn default() -> Config {
        Config::new()
    }
}

} // verus!
