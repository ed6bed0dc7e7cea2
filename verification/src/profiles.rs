//! Profiles, and the servers and channels they are bound to.

use vstd::prelude::*;
use vstd::string::*;

use crate::consts::{
    ASSETS_DIR, ASSETS_VAR, DOWNLOAD_FILE, LOG_VAR, PROFILES_DIR, SCREENSHOTS_DIR, SCREENSHOT_VAR,
    USERDATA_DIR, USERDATA_VAR,
};
use crate::error::Error;
use crate::launch::{
    map_verbosity, spec_map_verbosity, EnvValue, EnvValueView, EnvVar, EnvVarView, LaunchSpec,
    LaunchSpecView,
};
use crate::path::StoragePath;
use crate::platform::Platform;
use crate::text::{decode, spec_decode, trimmed};
use vstd::utf8::{decode_utf8, valid_utf8};

verus! {

/// A distribution endpoint.
#[derive(Debug, Clone, Copy, PartialEq, Eq, Structural)]
pub enum Server {
    Prod,
    Staging,
    Test,
}

impl Server {
    /// The base address of this server, without a trailing slash.
    pub fn url(&self) -> (address: &'static str)
        ensures
            address@ == self.spec_url(),
    {
        match self {
            Server::Prod => "https://download.veloren.net",
            Server::Staging => "https://download.staging.veloren.net",
            Server::Test => "https://download.test.veloren.net",
        }
    }

    /// The base address of each server.
    pub open spec fn spec_url(&self) -> Seq<char> {
        match self {
            Server::Prod => "https://download.veloren.net"@,
            Server::Staging => "https://download.staging.veloren.net"@,
            Server::Test => "https://download.test.veloren.net"@,
        }
    }

    /// The name under which this server is shown.
    pub fn name(&self) -> (name: &'static str)
        ensures
            name@ == self.spec_name(),
    {
        match self {
            Server::Prod => "Prod",
            Server::Staging => "Staging",
            Server::Test => "Test",
        }
    }

    /// The name under which each server is shown.
    pub open spec fn spec_name(&self) -> Seq<char> {
        match self {
            Server::Prod => "Prod"@,
            Server::Staging => "Staging"@,
            Server::Test => "Test"@,
        }
    }

    /// Every server, in the order in which they are offered.
    pub fn all() -> (servers: Vec<Server>)
        ensures
            servers@ == seq![Server::Prod, Server::Staging, Server::Test],
    {
        let mut servers: Vec<Server> = Vec::new();
        servers.push(Server::Prod);
        servers.push(Server::Staging);
        servers.push(Server::Test);
        assert(servers@ =~= seq![Server::Prod, Server::Staging, Server::Test]);
        servers
    }
}

/// A release track.
#[derive(Debug, Clone, Copy, PartialEq, Eq, Structural)]
pub enum Channel {
    Nightly,
}

impl Channel {
    /// The name of this channel as it stands in an address.
    pub fn name(&self) -> (name: &'static str)
        ensures
            name@ == self.spec_name(),
    {
        match self {
            Channel::Nightly => "nightly",
        }
    }

    /// The name of each channel as it stands in an address.
    pub open spec fn spec_name(&self) -> Seq<char> {
        match self {
            Channel::Nightly => "nightly"@,
        }
    }
}

/// One named installation of the client, bound to a server and a channel.
///
/// Where the installation lives is not stored: it follows from the name
/// alone, see [`Profile::directory`].
#[derive(Debug, Clone, PartialEq, Eq)]
pub struct Profile {
    pub name: String,
    pub server: Server,
    pub channel: Channel,
    /// The version that was installed last, if any was.
    pub version: Option<String>,
}

/// What a [`Profile`] holds, as mathematical values.
pub struct ProfileView {
    pub name: Seq<char>,
    pub server: Server,
    pub channel: Channel,
    pub version: Option<Seq<char>>,
}

impl View for Profile {
    type V = ProfileView;

    open spec fn view(&self) -> ProfileView {
        ProfileView {
            name: self.name@,
            server: self.server,
            channel: self.channel,
            version: match self.version {
                Some(v) => Some(v@),
                None => None,
            },
        }
    }
}

impl ProfileView {
    /// The directory of the profile: `profiles/<name>` below the storage root.
    pub open spec fn directory(self) -> Seq<Seq<char>> {
        seq![PROFILES_DIR@, self.name]
    }

    /// The client executable inside the profile's directory.
    pub open spec fn voxygen_path(self, platform: Platform) -> Seq<Seq<char>> {
        self.directory().push(platform.spec_voxygen_file())
    }

    /// The command line server inside the profile's directory.
    pub open spec fn server_cli_path(self, platform: Platform) -> Seq<Seq<char>> {
        self.directory().push(platform.spec_server_cli_file())
    }

    /// Where the archive is downloaded to.
    pub open spec fn download_path(self) -> Seq<Seq<char>> {
        self.directory().push(DOWNLOAD_FILE@)
    }

    /// `<server>/<what>/<os>/<channel>`.
    pub open spec fn address(self, what: Seq<char>, os: Seq<char>) -> Seq<char> {
        self.server.spec_url() + "/"@ + what + "/"@ + os + "/"@ + self.channel.spec_name()
    }

    /// The address that serves the newest archive for `os`.
    pub open spec fn url(self, os: Seq<char>) -> Seq<char> {
        self.address("latest"@, os)
    }

    /// The address that serves the newest version's name for `os`.
    pub open spec fn version_url(self, os: Seq<char>) -> Seq<char> {
        self.address("version"@, os)
    }

    /// Ready to be started: the client executable is there and a version is
    /// recorded.
    pub open spec fn installed(self, binary_exists: bool) -> bool {
        binary_exists && self.version is Some
    }

    /// The profile is installed and records exactly the version `remote`.
    pub open spec fn up_to_date(self, remote: Seq<char>, binary_exists: bool) -> bool {
        self.installed(binary_exists) && self.version == Some(remote)
    }

    /// What a version check answers to the server's response.
    pub open spec fn update(
        self,
        response: Result<Seq<u8>, Error>,
        binary_exists: bool,
    ) -> Result<Option<Seq<char>>, Error> {
        match response {
            Err(e) => Err(e),
            Ok(body) => match spec_decode(body) {
                Err(e) => Err(e),
                Ok(remote) => if self.up_to_date(remote, binary_exists) {
                    Ok(None)
                } else {
                    Ok(Some(remote))
                },
            },
        }
    }

    /// How the client of this profile is started: the executable, run in the
    /// profile's directory, told where its screenshots, user data and assets
    /// go and how much to log.
    pub open spec fn launch(self, verbosity: i32, platform: Platform) -> LaunchSpecView {
        LaunchSpecView {
            program: self.voxygen_path(platform),
            working_dir: self.directory(),
            env: seq![
                EnvVarView {
                    name: SCREENSHOT_VAR@,
                    value: EnvValueView::Dir(self.directory().push(SCREENSHOTS_DIR@)),
                },
                EnvVarView {
                    name: USERDATA_VAR@,
                    value: EnvValueView::Dir(self.directory().push(USERDATA_DIR@)),
                },
                EnvVarView {
                    name: ASSETS_VAR@,
                    value: EnvValueView::Dir(self.directory().push(ASSETS_DIR@)),
                },
                EnvVarView {
                    name: LOG_VAR@,
                    value: EnvValueView::Text(spec_map_verbosity(verbosity)),
                },
            ],
        }
    }

    /// The same profile with `version` recorded as installed.
    pub open spec fn with_version(self, version: Seq<char>) -> ProfileView {
        ProfileView { version: Some(version), ..self }
    }

    /// What an installation yields, given how the work on disk ended.
    pub open spec fn install(
        self,
        version: Seq<char>,
        outcome: Result<(), Error>,
    ) -> Result<ProfileView, Error> {
        match outcome {
            Ok(_) => Ok(self.with_version(version)),
            Err(e) => Err(e),
        }
    }
}

/// A server's response as mathematical values.
pub open spec fn response_view(response: Result<Vec<u8>, Error>) -> Result<Seq<u8>, Error> {
    match response {
        Ok(body) => Ok(body@),
        Err(e) => Err(e),
    }
}

/// The answer of a version check as mathematical values.
pub open spec fn verdict_view(verdict: Result<Option<String>, Error>) -> Result<
    Option<Seq<char>>,
    Error,
> {
    match verdict {
        Ok(Some(version)) => Ok(Some(version@)),
        Ok(None) => Ok(None),
        Err(e) => Err(e),
    }
}

/// The result of an installation as mathematical values.
pub open spec fn installed_view(result: Result<Profile, Error>) -> Result<ProfileView, Error> {
    match result {
        Ok(profile) => Ok(profile@),
        Err(e) => Err(e),
    }
}

impl Profile {
    /// A profile that has nothing installed yet.
    pub fn new(name: String, server: Server, channel: Channel) -> (profile: Profile)
        ensures
            profile@ == (ProfileView { name: name@, server, channel, version: None }),
    {
        Profile { name, server, channel, version: None }
    }

    /// The directory of this profile, which depends on its name alone.
    pub fn directory(&self) -> (path: StoragePath)
        ensures
            path@ == self@.directory(),
    {
        let path = StoragePath::root().join(PROFILES_DIR).join(self.name.as_str());
        assert(path@ =~= self@.directory());
        path
    }

    /// The path of the client executable.
    pub fn voxygen_path(&self, platform: Platform) -> (path: StoragePath)
        ensures
            path@ == self@.voxygen_path(platform),
    {
        self.directory().join(platform.voxygen_file())
    }

    /// The path of the command line server.
    pub fn server_cli_path(&self, platform: Platform) -> (path: StoragePath)
        ensures
            path@ == self@.server_cli_path(platform),
    {
        self.directory().join(platform.server_cli_file())
    }

    /// The path that the archive is downloaded to.
    pub fn download_path(&self) -> (path: StoragePath)
        ensures
            path@ == self@.download_path(),
    {
        self.directory().join(DOWNLOAD_FILE)
    }

    fn address(&self, what: &str, os: &str) -> (address: String)
        ensures
            address@ == self@.address(what@, os@),
    {
        String::from_str(self.server.url()).concat("/").concat(what).concat("/").concat(os).concat(
            "/",
        ).concat(self.channel.name())
    }

    /// The address from which the newest archive for `os` is downloaded.
    pub fn url(&self, os: &str) -> (address: String)
        ensures
            address@ == self@.url(os@),
    {
        self.address("latest", os)
    }

    /// The address that tells the newest version for `os`.
    pub fn version_url(&self, os: &str) -> (address: String)
        ensures
            address@ == self@.version_url(os@),
    {
        self.address("version", os)
    }

    /// Says how to start the client of `profile`; it starts nothing, and does
    /// not ask whether the profile is installed.
    pub fn start(profile: &Profile, verbosity: i32, platform: Platform) -> (spec: LaunchSpec)
        ensures
            spec@ == profile@.launch(verbosity, platform),
    {
        let directory = profile.directory();
        let mut env: Vec<EnvVar> = Vec::new();
        env.push(
            EnvVar {
                name: String::from_str(SCREENSHOT_VAR),
                value: EnvValue::Dir(directory.join(SCREENSHOTS_DIR)),
            },
        );
        env.push(
            EnvVar {
                name: String::from_str(USERDATA_VAR),
                value: EnvValue::Dir(directory.join(USERDATA_DIR)),
            },
        );
        env.push(
            EnvVar {
                name: String::from_str(ASSETS_VAR),
                value: EnvValue::Dir(directory.join(ASSETS_DIR)),
            },
        );
        env.push(
            EnvVar {
                name: String::from_str(LOG_VAR),
                value: EnvValue::Text(String::from_str(map_verbosity(verbosity))),
            },
        );
        let spec = LaunchSpec {
            program: profile.voxygen_path(platform),
            working_dir: directory,
            env,
        };
        assert(spec@.env =~= profile@.launch(verbosity, platform).env);
        spec
    }

    /// Whether the profile is ready to be started, given whether the file at
    /// [`Profile::voxygen_path`] exists.
    pub fn installed(&self, binary_exists: bool) -> (ready: bool)
        ensures
            ready == self@.installed(binary_exists),
    {
        binary_exists && self.version.is_some()
    }

    /// Whether nothing is to be done for a server that announces `remote`.
    pub fn up_to_date(&self, remote: &String, binary_exists: bool) -> (same: bool)
        ensures
            same == self@.up_to_date(remote@, binary_exists),
    {
        match &self.version {
            Some(version) => binary_exists && *version == *remote,
            None => false,
        }
    }

    /// Decides from the server's response to a request to
    /// [`Profile::version_url`] whether there is something to install.
    ///
    /// The answer is the announced version, unless the profile is installed
    /// and records that very version. Versions are compared as texts, not by
    /// any order: a different version is a new one. A failed request is
    /// handed back as it came, and a body that is no text is a `DecodeError`.
    pub fn update(profile: Profile, response: Result<Vec<u8>, Error>, binary_exists: bool) -> (verdict:
        Result<Option<String>, Error>)
        ensures
            verdict_view(verdict) == profile@.update(response_view(response), binary_exists),
    {
        match response {
            Err(e) => Err(e),
            Ok(body) => match decode(body) {
                Err(e) => Err(e),
                Ok(remote) => if profile.up_to_date(&remote, binary_exists) {
                    Ok(None)
                } else {
                    Ok(Some(remote))
                },
            },
        }
    }

    /// Concludes an installation: records `version` if the work on disk
    /// succeeded, and hands the failure back if it did not.
    pub fn install(profile: Profile, version: String, outcome: Result<(), Error>) -> (result: Result<
        Profile,
        Error,
    >)
        ensures
            installed_view(result) == profile@.install(version@, outcome),
    {
        match outcome {
            Ok(_) => Ok(
                Profile {
                    name: profile.name,
                    server: profile.server,
                    channel: profile.channel,
                    version: Some(version),
                },
            ),
            Err(e) => Err(e),
        }
    }
}

impl Default for Profile {
    /// The profile named `default`, on the production server's nightly channel.
    fn default() -> (profile: Profile)
        ensures
            profile@ == (ProfileView {
                name: "default"@,
                server: Server::Prod,
                channel: Channel::Nightly,
                version: None,
            }),
    {
        Profile::new(String::from_str("default"), Server::Prod, Channel::Nightly)
    }
}

/// Two profiles share a directory exactly where they share a name.
pub proof fn lemma_directory_follows_name(p: ProfileView, q: ProfileView)
    ensures
        p.directory() == q.directory() <==> p.name == q.name,
{
    if p.directory() == q.directory() {
        assert(p.directory()[1] == q.directory()[1]);
    }
}

/// A version check is silent exactly where the profile is installed and
/// records the version that the server announces. In every other case it
/// names the announced version, also where the profile records none.
pub proof fn lemma_update_answers(p: ProfileView, body: Seq<u8>, binary_exists: bool)
    requires
        valid_utf8(body),
    ensures
        p.update(Ok(body), binary_exists) == Ok::<Option<Seq<char>>, Error>(None) <==> p.installed(
            binary_exists,
        ) && p.version == Some(trimmed(decode_utf8(body))),
        !(p.installed(binary_exists) && p.version == Some(trimmed(decode_utf8(body))))
            ==> p.update(Ok(body), binary_exists) == Ok::<Option<Seq<char>>, Error>(
            Some(trimmed(decode_utf8(body))),
        ),
        p.version is None ==> p.update(Ok(body), binary_exists) == Ok::<Option<Seq<char>>, Error>(
            Some(trimmed(decode_utf8(body))),
        ),
{
}

/// An installation that succeeded yields the same profile with the new
/// version recorded, which is installed as soon as the client executable is
/// there. One that failed yields the failure and no profile.
pub proof fn lemma_install_records_version(
    p: ProfileView,
    version: Seq<char>,
    error: Error,
    binary_exists: bool,
)
    ensures
        p.install(version, Ok(())) == Ok::<ProfileView, Error>(p.with_version(version)),
        p.with_version(version).version == Some(version),
        p.with_version(version).name == p.name,
        p.with_version(version).server == p.server,
        p.with_version(version).channel == p.channel,
        p.with_version(version).installed(binary_exists) == binary_exists,
        p.install(version, Err(error)) == Err::<ProfileView, Error>(error),
{
}

/// The client is started with exactly four variables, no two of the same
/// name, and the three directories among them lie in the profile's directory.
pub proof fn lemma_launch_environment(p: ProfileView, verbosity: i32, platform: Platform)
    ensures
        p.launch(verbosity, platform).env.len() == 4,
        p.launch(verbosity, platform).names_distinct(),
        p.launch(verbosity, platform).working_dir == p.directory(),
        p.launch(verbosity, platform).env[0].value == EnvValueView::Dir(
            p.directory().push(SCREENSHOTS_DIR@),
        ),
        p.launch(verbosity, platform).env[1].value == EnvValueView::Dir(
            p.directory().push(USERDATA_DIR@),
        ),
        p.launch(verbosity, platform).env[2].value == EnvValueView::Dir(
            p.directory().push(ASSETS_DIR@),
        ),
{
    reveal_strlit("VOXYGEN_SCREENSHOT");
    reveal_strlit("VELOREN_USERDATA");
    reveal_strlit("VELOREN_ASSETS");
    reveal_strlit("RUST_LOG");
    let env = p.launch(verbosity, platform).env;
    assert(env[0].name.len() == 18);
    assert(env[1].name.len() == 16);
    assert(env[2].name.len() == 14);
    assert(env[3].name.len() == 8);
}

} // verus!
