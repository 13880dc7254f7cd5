use vstd::prelude::*;

use crate::server::opt_view;
use crate::test::TestDirection;

verus! {

/// Raw command-line flags.
pub struct CliArgs {
    /// List available servers sorted by distance.
    pub list: bool,
    /// A specific server id to use.
    pub server: Option<String>,
    /// Perform a download speed test.
    pub down: bool,
    /// Perform an upload speed test.
    pub up: bool,
}

/// The resolved run configuration.
pub struct Config {
    pub(crate) list: bool,
    pub(crate) server: Option<String>,
    pub(crate) direction: TestDirection,
}

/// Direction chosen by the two flags: exactly one of them picks that
/// direction alone, any other combination runs both.
pub open spec fn direction_of(down: bool, up: bool) -> TestDirection {
    if down && !up {
        TestDirection::Download
    } else if !down && up {
        TestDirection::Upload
    } else {
        TestDirection::Both
    }
}

impl Config {
    pub closed spec fn spec_list(&self) -> bool {
        self.list
    }

    pub closed spec fn spec_server(&self) -> Option<String> {
        self.server
    }

    pub closed spec fn server_id_spec(&self) -> Option<&String> {
        match self.server {
            Some(s) => Some(&s),
            None => None,
        }
    }

    pub closed spec fn spec_direction(&self) -> TestDirection {
        self.direction
    }

    /// Whether the configuration asks for the server list.
    pub fn has_list(&self) -> (r: bool)
        ensures
            r == self.spec_list(),
    {
        self.list
    }

    /// The explicit server id, if one was given.
    pub fn server_id(&self) -> (r: Option<&String>)
        ensures
            r == self.server_id_spec(),
            opt_view(r) == match self.spec_server() {
                Some(s) => Some(s@),
                None => None,
            },
    {
        self.server.as_ref()
    }

    /// The direction of the test.
    pub fn direction(&self) -> (r: TestDirection)
        ensures
            r == self.spec_direction(),
    {
        self.direction
    }
}

impl Default for Config {
    /// No listing, no explicit server, both directions.
    fn default() -> (r: Self)
        ensures
            !r.spec_list(),
            r.spec_server() is None,
            r.spec_direction() == TestDirection::Both,
    {
        Config { list: false, server: None, direction: TestDirection::Both }
    }
}

/// Builder for `Config` from command-line flags.
pub struct ConfigBuilder {
    /// Whether to list servers.
    pub(crate) list: bool,
    /// Optional server id to use.
    pub(crate) server: Option<String>,
    /// Whether to run the download test.
    pub(crate) down: bool,
    /// Whether to run the upload test.
    pub(crate) up: bool,
}

impl ConfigBuilder {
    pub closed spec fn spec_list(&self) -> bool {
        self.list
    }

    pub closed spec fn spec_server(&self) -> Option<String> {
        self.server
    }

    pub closed spec fn spec_down(&self) -> bool {
        self.down
    }

    pub closed spec fn spec_up(&self) -> bool {
        self.up
    }

    /// Takes the flags over as they were given.
    pub fn from_args(args: CliArgs) -> (r: Self)
        ensures
            r.spec_list() == args.list,
            r.spec_server() == args.server,
            r.spec_down() == args.down,
            r.spec_up() == args.up,
    {
        ConfigBuilder { list: args.list, server: args.server, down: args.down, up: args.up }
    }

    /// Resolves the direction from the two flags.
    pub fn build(self) -> (r: Config)
        ensures
            r.spec_list() == self.spec_list(),
            r.spec_server() == self.spec_server(),
            r.spec_direction() == direction_of(self.spec_down(), self.spec_up()),
    {
        let direction = match (self.down, self.up) {
            (true, false) => TestDirection::Download,
            (false, true) => TestDirection::Upload,
            _ => TestDirection::Both,
        };
        Config { list: self.list, server: self.server, direction }
    }
}

/// Building from `down` alone gives a download-only run, from `up` alone an
/// upload-only run, and from both flags or neither a run in both directions.
pub proof fn lemma_direction_from_flags(down: bool, up: bool)
    ensures
        (down && !up) ==> direction_of(down, up) == TestDirection::Download,
        (!down && up) ==> direction_of(down, up) == TestDirection::Upload,
        (down == up) ==> direction_of(down, up) == TestDirection::Both,
{
}

} // verus!
