//! Configuration: the identity server's own settings, the settings of the
//! bootstrap itself with their defaults, and where the server's settings are
//! looked for.
use vstd::prelude::*;

use crate::error::{wraps, AppError, AppResult};

verus! {

/// The settings of the identity server (its `server.toml`) that the
/// bootstrap reads.
#[derive(Debug, Clone)]
pub struct KanidmConfig {
    pub version: String,
    pub bindaddress: String,
    pub db_path: String,
    pub tls_chain: String,
    pub tls_key: String,
    pub domain: String,
    pub origin: String,
}

/// The settings of the bootstrap: the first administrator to create, the
/// OAuth2 application to register, and where the setup instructions go.
#[derive(Debug, Clone)]
pub struct BootstrapConfig {
    pub person: String,
    pub display_person_name: String,
    pub app_name: String,
    pub display_app_name: String,
    pub callback_url: String,
    pub scopes: Vec<String>,
    pub readme_dir: String,
}

/// The bootstrap settings as a setup file gives them: each one may be
/// missing, and a missing one takes its default.
#[derive(Debug)]
pub struct BootstrapSettings {
    pub person: Option<String>,
    pub display_person_name: Option<String>,
    pub app_name: Option<String>,
    pub display_app_name: Option<String>,
    pub callback_url: Option<String>,
    pub scopes: Option<Vec<String>>,
    pub readme_dir: Option<String>,
}

/// The bootstrap settings as values.
pub struct BootstrapConfigView {
    pub person: Seq<char>,
    pub display_person_name: Seq<char>,
    pub app_name: Seq<char>,
    pub display_app_name: Seq<char>,
    pub callback_url: Seq<char>,
    pub scopes: Seq<Seq<char>>,
    pub readme_dir: Seq<char>,
}

/// A setup file's settings as values.
pub struct BootstrapSettingsView {
    pub person: Option<Seq<char>>,
    pub display_person_name: Option<Seq<char>>,
    pub app_name: Option<Seq<char>>,
    pub display_app_name: Option<Seq<char>>,
    pub callback_url: Option<Seq<char>>,
    pub scopes: Option<Seq<Seq<char>>>,
    pub readme_dir: Option<Seq<char>>,
}

/// An optional text as a value.
pub open spec fn opt_text(o: Option<String>) -> Option<Seq<char>> {
    match o {
        Some(s) => Some(s@),
        None => None,
    }
}

/// An optional list of texts as a value.
pub open spec fn opt_texts(o: Option<Vec<String>>) -> Option<Seq<Seq<char>>> {
    match o {
        Some(v) => Some(v.deep_view()),
        None => None,
    }
}

impl View for BootstrapConfig {
    type V = BootstrapConfigView;

    open spec fn view(&self) -> BootstrapConfigView {
        BootstrapConfigView {
            person: self.person@,
            display_person_name: self.display_person_name@,
            app_name: self.app_name@,
            display_app_name: self.display_app_name@,
            callback_url: self.callback_url@,
            scopes: self.scopes.deep_view(),
            readme_dir: self.readme_dir@,
        }
    }
}

impl View for BootstrapSettings {
    type V = BootstrapSettingsView;

    open spec fn view(&self) -> BootstrapSettingsView {
        BootstrapSettingsView {
            person: opt_text(self.person),
            display_person_name: opt_text(self.display_person_name),
            app_name: opt_text(self.app_name),
            display_app_name: opt_text(self.display_app_name),
            callback_url: opt_text(self.callback_url),
            scopes: opt_texts(self.scopes),
            readme_dir: opt_text(self.readme_dir),
        }
    }
}

/// The default scopes granted to the OAuth2 application.
pub open spec fn default_scope_texts() -> Seq<Seq<char>> {
    seq!["email"@, "profile"@, "openid"@]
}

/// The bootstrap settings used when the setup file says nothing.
pub open spec fn default_settings() -> BootstrapConfigView {
    BootstrapConfigView {
        person: "default_idm_admin"@,
        display_person_name: "Default Administrator"@,
        app_name: "internal_admin_portal"@,
        display_app_name: "Internal Admin Portal"@,
        callback_url: "https://admin.idm.example.internal/callback"@,
        scopes: default_scope_texts(),
        readme_dir: "/data"@,
    }
}

/// The value given, or the default.
pub open spec fn or_default<A>(o: Option<A>, d: A) -> A {
    match o {
        Some(v) => v,
        None => d,
    }
}

/// The bootstrap settings that a setup file gives: each setting it names,
/// and the default of each one it leaves out.
pub open spec fn settings_applied(s: BootstrapSettingsView) -> BootstrapConfigView {
    let d = default_settings();
    BootstrapConfigView {
        person: or_default(s.person, d.person),
        display_person_name: or_default(s.display_person_name, d.display_person_name),
        app_name: or_default(s.app_name, d.app_name),
        display_app_name: or_default(s.display_app_name, d.display_app_name),
        callback_url: or_default(s.callback_url, d.callback_url),
        scopes: or_default(s.scopes, d.scopes),
        readme_dir: or_default(s.readme_dir, d.readme_dir),
    }
}

/// The default directory for the setup instructions.
pub fn default_readme_dir() -> (r: String)
    ensures
        r@ == default_settings().readme_dir,
{
    String::from_str("/data")
}

/// The default display name of the first administrator.
pub fn default_display_person_name() -> (r: String)
    ensures
        r@ == default_settings().display_person_name,
{
    String::from_str("Default Administrator")
}

/// The default name of the OAuth2 application.
pub fn default_app_name() -> (r: String)
    ensures
        r@ == default_settings().app_name,
{
    String::from_str("internal_admin_portal")
}

/// The default display name of the OAuth2 application.
pub fn default_display_app_name() -> (r: String)
    ensures
        r@ == default_settings().display_app_name,
{
    String::from_str("Internal Admin Portal")
}

/// The default redirect URL of the OAuth2 application.
pub fn default_callback_url() -> (r: String)
    ensures
        r@ == default_settings().callback_url,
{
    String::from_str("https://admin.idm.example.internal/callback")
}

/// The default scopes of the OAuth2 application: email, profile, openid.
pub fn default_scopes() -> (r: Vec<String>)
    ensures
        r.deep_view() == default_settings().scopes,
{
    let mut v: Vec<String> = Vec::new();
    v.push(String::from_str("email"));
    v.push(String::from_str("profile"));
    v.push(String::from_str("openid"));
    assert(v.deep_view() =~= default_scope_texts());
    v
}

/// The default name of the first administrator.
pub fn default_person() -> (r: String)
    ensures
        r@ == default_settings().person,
{
    String::from_str("default_idm_admin")
}

impl Default for BootstrapConfig {
    fn default() -> (r: BootstrapConfig)
        ensures
            r@ == default_settings(),
    {
        BootstrapConfig {
            person: default_person(),
            display_person_name: default_display_person_name(),
            app_name: default_app_name(),
            display_app_name: default_display_app_name(),
            callback_url: default_callback_url(),
            scopes: default_scopes(),
            readme_dir: default_readme_dir(),
        }
    }
}

fn text_or(o: Option<String>, d: String) -> (r: String)
    ensures
        r@ == or_default(opt_text(o), d@),
{
    match o {
        Some(v) => v,
        None => d,
    }
}

impl BootstrapConfig {
    /// The settings that a setup file gives, each missing one replaced by its
    /// default.
    pub fn from_settings(s: BootstrapSettings) -> (r: BootstrapConfig)
        ensures
            r@ == settings_applied(s@),
    {
        let scopes = match s.scopes {
            Some(v) => v,
            None => default_scopes(),
        };
        BootstrapConfig {
            person: text_or(s.person, default_person()),
            display_person_name: text_or(s.display_person_name, default_display_person_name()),
            app_name: text_or(s.app_name, default_app_name()),
            display_app_name: text_or(s.display_app_name, default_display_app_name()),
            callback_url: text_or(s.callback_url, default_callback_url()),
            scopes,
            readme_dir: text_or(s.readme_dir, default_readme_dir()),
        }
    }
}

/// A setup file that names no setting gives exactly the defaults.
pub proof fn lemma_empty_settings_are_defaults(s: BootstrapSettingsView)
    requires
        s.person is None,
        s.display_person_name is None,
        s.app_name is None,
        s.display_app_name is None,
        s.callback_url is None,
        s.scopes is None,
        s.readme_dir is None,
    ensures
        settings_applied(s) == default_settings(),
{
}

/// A setting that the setup file names is used as given.
pub proof fn lemma_named_setting_wins(s: BootstrapSettingsView, person: Seq<char>)
    requires
        s.person == Some(person),
    ensures
        settings_applied(s).person == person,
{
}

/// Every setting that the setup file names is used exactly as given, and
/// every setting it leaves out takes its documented default.
pub proof fn lemma_every_named_setting_wins(s: BootstrapSettingsView)
    ensures
        s.person matches Some(v) ==> settings_applied(s).person == v,
        s.display_person_name matches Some(v) ==> settings_applied(s).display_person_name == v,
        s.app_name matches Some(v) ==> settings_applied(s).app_name == v,
        s.display_app_name matches Some(v) ==> settings_applied(s).display_app_name == v,
        s.callback_url matches Some(v) ==> settings_applied(s).callback_url == v,
        s.scopes matches Some(v) ==> settings_applied(s).scopes == v,
        s.readme_dir matches Some(v) ==> settings_applied(s).readme_dir == v,
        s.person is None ==> settings_applied(s).person == "default_idm_admin"@,
        s.display_person_name is None ==> settings_applied(s).display_person_name
            == "Default Administrator"@,
        s.app_name is None ==> settings_applied(s).app_name == "internal_admin_portal"@,
        s.display_app_name is None ==> settings_applied(s).display_app_name
            == "Internal Admin Portal"@,
        s.callback_url is None ==> settings_applied(s).callback_url
            == "https://admin.idm.example.internal/callback"@,
        s.scopes is None ==> settings_applied(s).scopes == seq!["email"@, "profile"@, "openid"@],
        s.readme_dir is None ==> settings_applied(s).readme_dir == "/data"@,
{
}

/// The server settings file used when none is given and none of the usual
/// places holds one.
pub open spec fn primary_config_path() -> Seq<char> {
    "/data/server.toml"@
}

/// The usual place of the server settings file on an installed system.
pub open spec fn system_config_path() -> Seq<char> {
    "/etc/kanidm/server.toml"@
}

/// Which server settings file to use: the one given; else the first of the
/// usual places that exists; else the primary place.
pub open spec fn chosen_config_path(given: Option<Seq<char>>, primary_exists: bool, system_exists: bool) -> Seq<char> {
    match given {
        Some(p) => p,
        None => if primary_exists {
            primary_config_path()
        } else if system_exists {
            system_config_path()
        } else {
            primary_config_path()
        },
    }
}

/// That the disk, asked whether something exists at `path`, answered
/// `present`. This is a relation, not a function: the disk may answer
/// differently at another moment, so nothing links two answers.
pub uninterp spec fn disk_reported(path: Seq<char>, present: bool) -> bool;

/// `std::path::Path::exists` on a path given as text: whether something
/// exists at that path on disk. Claimed only that the answer is the disk's
/// answer for that very path ([`disk_reported`]); what the disk holds at the
/// moment of the call is left unsaid.
#[verifier::external_body]
pub(crate) fn path_exists(path: &str) -> (r: bool)
    ensures
        disk_reported(path@, r),
{
    std::path::Path::new(path).exists()
}

/// Which server settings file to use, once it is known whether each of the
/// usual places holds one.
pub fn select_config_path(opt_path: Option<String>, primary_exists: bool, system_exists: bool) -> (r: String)
    ensures
        r@ == chosen_config_path(opt_text(opt_path), primary_exists, system_exists),
{
    match opt_path {
        Some(p) => p,
        None => if primary_exists {
            String::from_str("/data/server.toml")
        } else if system_exists {
            String::from_str("/etc/kanidm/server.toml")
        } else {
            String::from_str("/data/server.toml")
        },
    }
}

/// The server settings file to use: the one given, else the first of the
/// usual places that exists on disk, else the primary place.
pub fn determine_config_path(opt_path: Option<String>) -> (r: String)
    ensures
        opt_path matches Some(p) ==> r@ == p@,
        opt_path is None ==> r@ == primary_config_path() || r@ == system_config_path(),
        exists|primary_exists: bool, system_exists: bool|
            r@ == chosen_config_path(opt_text(opt_path), primary_exists, system_exists),
        opt_path is None ==> exists|primary_exists: bool, system_exists: bool|
            #![trigger chosen_config_path(None, primary_exists, system_exists)]
            disk_reported(primary_config_path(), primary_exists) && (primary_exists
                || disk_reported(system_config_path(), system_exists)) && r@ == chosen_config_path(
                None,
                primary_exists,
                system_exists,
            ),
{
    match opt_path {
        Some(p) => {
            let r = select_config_path(Some(p), false, false);
            r
        },
        None => {
            let primary_exists = path_exists("/data/server.toml");
            let system_exists = if primary_exists {
                false
            } else {
                path_exists("/etc/kanidm/server.toml")
            };
            let r = select_config_path(None, primary_exists, system_exists);
            assert(disk_reported(primary_config_path(), primary_exists) && (primary_exists
                || disk_reported(system_config_path(), system_exists)));
            r
        },
    }
}

/// Why a configuration file could not be loaded: it could not be read (with
/// the operating system's message), or it is not valid for its shape (with
/// the parser's message).
#[derive(Debug)]
pub enum LoadFailure {
    Read(String),
    Parse(String),
}

/// The result of loading the server settings from `path`, given what reading
/// and parsing the file gave.
pub fn kanidm_config_loaded(path: &str, loaded: Result<KanidmConfig, LoadFailure>) -> (r: AppResult<
    KanidmConfig,
>)
    ensures
        loaded matches Ok(c) ==> r == Ok::<KanidmConfig, AppError>(c),
        loaded matches Err(LoadFailure::Read(m)) ==> (r matches Err(e) && wraps(
            e,
            "Failed to read server config: "@ + path@,
            AppError::Io(m),
        )),
        loaded matches Err(LoadFailure::Parse(m)) ==> (r matches Err(e) && wraps(
            e,
            "Failed to parse server TOML"@,
            AppError::Toml(m),
        )),
{
    match loaded {
        Ok(c) => Ok(c),
        Err(LoadFailure::Read(m)) => {
            let message = String::from_str("Failed to read server config: ").concat(path);
            Err(AppError::Io(m).context(message.as_str()))
        },
        Err(LoadFailure::Parse(m)) => Err(AppError::Toml(m).context("Failed to parse server TOML")),
    }
}

/// The result of loading the bootstrap settings, given what became of the
/// setup file: `None` when no file exists at its path, else what reading and
/// parsing it gave. Without a file the defaults apply.
pub fn bootstrap_config_loaded(loaded: Option<Result<BootstrapSettings, LoadFailure>>) -> (r: AppResult<
    BootstrapConfig,
>)
    ensures
        loaded is None ==> (r matches Ok(c) && c@ == default_settings()),
        loaded matches Some(Ok(s)) ==> (r matches Ok(c) && c@ == settings_applied(s@)),
        loaded matches Some(Err(LoadFailure::Read(m))) ==> (r matches Err(e) && wraps(
            e,
            "Failed to read bootstrap config"@,
            AppError::Io(m),
        )),
        loaded matches Some(Err(LoadFailure::Parse(m))) ==> (r matches Err(e) && wraps(
            e,
            "Failed to parse bootstrap TOML"@,
            AppError::Toml(m),
        )),
{
    match loaded {
        None => Ok(BootstrapConfig::default()),
        Some(Ok(s)) => Ok(BootstrapConfig::from_settings(s)),
        Some(Err(LoadFailure::Read(m))) => Err(
            AppError::Io(m).context("Failed to read bootstrap config"),
        ),
        Some(Err(LoadFailure::Parse(m))) => Err(
            AppError::Toml(m).context("Failed to parse bootstrap TOML"),
        ),
    }
}

} // verus!
