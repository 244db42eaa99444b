use vstd::prelude::*;

verus! {

/// Wire protocol spoken with the game.
#[derive(Debug, Clone, Copy, PartialEq, Eq, Structural)]
pub enum Protocol {
    /// One HTTP request per message (`PUT` to push, `DELETE` to remove).
    Rest,
    /// JSON-RPC messages broadcast over an open websocket.
    Rpc,
}

/// Settings of one synchronisation session.
#[derive(Debug, Clone)]
pub struct Config {
    /// Set to true to synchronize deletions
    pub allow_deleting_files: bool,
    /// Bitburner websocket port
    pub port: u16,
    /// Path to target scripts
    pub scripts_folder: String,
    /// Log output
    pub quiet: bool,
    /// Set true to simulate actions
    pub dry: bool,
    /// Synchronize on start
    pub push_all_on_connection: bool,
    /// Filetypes to synchronize
    pub allowed_filetypes: Vec<String>,
    pub definitions_file: DefinitionsFile,
    /// Protocol used to reach the game
    pub protocol: Protocol,
}

/// Where the game's type definitions are kept.
#[derive(Debug, Clone)]
pub struct DefinitionsFile {
    /// Update definitions file on start
    pub update: bool,
    /// Path to definitions file
    pub location: String,
}

impl Config {
    /// The extensions that the filter accepts, as character sequences.
    pub open spec fn allowed_extensions(&self) -> Seq<Seq<char>> {
        self.allowed_filetypes.deep_view()
    }
}

/// Port on which the game connects by default.
pub const DEFAULT_PORT: u16 = 12525;

impl Default for Config {
    fn default() -> (r: Config)
        ensures
            r.allowed_extensions() == seq!["script"@, "js"@, "ns"@, "txt"@],
            !r.allow_deleting_files,
            r.port == DEFAULT_PORT,
            r.scripts_folder@ == "."@,
            !r.quiet,
            !r.dry,
            !r.push_all_on_connection,
            r.definitions_file.update,
            r.definitions_file.location@ == "NetScriptDefinitions.d.ts"@,
            r.protocol == Protocol::Rpc,
    {
        let allowed_filetypes = vec![
            String::from_str("script"),
            String::from_str("js"),
            String::from_str("ns"),
            String::from_str("txt"),
        ];
        let r = Config {
            allowed_filetypes,
            allow_deleting_files: false,
            port: DEFAULT_PORT,
            scripts_folder: String::from_str("."),
            quiet: false,
            dry: false,
            definitions_file: DefinitionsFile::default(),
            push_all_on_connection: false,
            protocol: Protocol::Rpc,
        };
        assert(r.allowed_extensions() =~= seq!["script"@, "js"@, "ns"@, "txt"@]);
        r
    }
}

impl Default for DefinitionsFile {
    fn default() -> (r: DefinitionsFile)
        ensures
            r.update,
            r.location@ == "NetScriptDefinitions.d.ts"@,
    {
        DefinitionsFile { update: true, location: String::from_str("NetScriptDefinitions.d.ts") }
    }
}

} // verus!
