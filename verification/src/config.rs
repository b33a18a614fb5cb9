//! Settings: what the command line says, what the environment says where it does not, and what the program
//! exits with.

use std::path::PathBuf;
use vstd::prelude::*;
use vstd::string::*;

use crate::keys::{is_ascii_letter, is_letter};
use crate::text::{
    chars_of, decimal, eq_ignore_ascii_case, joined3, law_integers_are_read, lowered, number_text, parse_integer,
    parsed_integer, text_eq,
};

verus! {

/// The name of the program.
pub const APP_NAME: &'static str = "RustShell";

/// The version of the program, which has nothing to do with that of the protocol.
pub const APP_VERSION: &'static str = "0.5.4";

/// The port of a rendezvous server where none is named.
pub const DEFAULT_PORT: u16 = 21116;

/// The letter that ends a terminal session where none is named.
pub const DEFAULT_QUIT_KEY: char = 'q';

/// `std::path::PathBuf`, a path of the local file system.
#[verifier::external_type_specification]
#[verifier::external_body]
pub struct ExPathBuf(PathBuf);

/// What the command line says. A text that is not given is empty.
pub struct CliArgs {
    pub id: String,
    pub server: String,
    pub port: Option<u16>,
    pub key: String,
    pub password: String,
    pub debug: bool,
    pub quit_key: Option<char>,
}

/// What the environment says.
pub struct EnvVars {
    pub id: Option<String>,
    pub server: Option<String>,
    pub port: Option<String>,
    pub key: Option<String>,
    pub password: Option<String>,
    pub debug: Option<String>,
    pub quit_key: Option<String>,
}

/// The settings of a connection. An empty password is to be asked for.
pub struct Settings {
    pub id: String,
    pub server: String,
    pub port: u16,
    pub key: String,
    pub password: String,
    pub debug: bool,
    pub quit_key: char,
}

/// The settings of a connection, as a value.
pub struct SettingsView {
    pub id: Seq<char>,
    pub server: Seq<char>,
    pub port: u16,
    pub key: Seq<char>,
    pub password: Seq<char>,
    pub debug: bool,
    pub quit_key: char,
}

impl View for Settings {
    type V = SettingsView;

    open spec fn view(&self) -> SettingsView {
        SettingsView {
            id: self.id@,
            server: self.server@,
            port: self.port,
            key: self.key@,
            password: self.password@,
            debug: self.debug,
            quit_key: self.quit_key,
        }
    }
}

/// The text of the command line, or where that is empty the environment's, or where that has none nothing.
pub open spec fn chosen_text(cli: Seq<char>, env: Option<String>) -> Seq<char> {
    if cli.len() > 0 {
        cli
    } else {
        match env {
            Some(text) => text@,
            None => Seq::empty(),
        }
    }
}

fn choose_text(cli: String, env: Option<String>) -> (text: String)
    ensures
        text@ == chosen_text(cli@, env),
{
    if !cli.as_str().is_empty() {
        cli
    } else {
        match env {
            Some(text) => text,
            None => String::new(),
        }
    }
}

/// The port of the command line, or the environment's where that is one, or the default.
pub open spec fn chosen_port(cli: Option<u16>, env: Option<String>) -> u16 {
    match cli {
        Some(port) => port,
        None => match env {
            Some(text) => match parsed_integer(text@, 0, u16::MAX as int) {
                Some(port) => port as u16,
                None => DEFAULT_PORT,
            },
            None => DEFAULT_PORT,
        },
    }
}

fn choose_port(cli: Option<u16>, env: &Option<String>) -> (port: u16)
    ensures
        port == chosen_port(cli, *env),
{
    match cli {
        Some(port) => port,
        None => match env {
            Some(text) => match parse_integer(&chars_of(text.as_str()), 0, u16::MAX as i64) {
                Some(port) => port as u16,
                None => DEFAULT_PORT,
            },
            None => DEFAULT_PORT,
        },
    }
}

/// The quit letter of the command line, or the first character of the environment's, or the default.
pub open spec fn chosen_quit_key(cli: Option<char>, env: Option<String>) -> char {
    match cli {
        Some(c) => c,
        None => match env {
            Some(text) => if text@.len() > 0 {
                text@[0]
            } else {
                DEFAULT_QUIT_KEY
            },
            None => DEFAULT_QUIT_KEY,
        },
    }
}

fn choose_quit_key(cli: Option<char>, env: &Option<String>) -> (c: char)
    ensures
        c == chosen_quit_key(cli, *env),
{
    match cli {
        Some(c) => c,
        None => match env {
            Some(text) => {
                let chars = chars_of(text.as_str());
                if chars.len() > 0 {
                    chars[0]
                } else {
                    DEFAULT_QUIT_KEY
                }
            },
            None => DEFAULT_QUIT_KEY,
        },
    }
}

/// A variable that switches something on: `1`, or `true` in letters of either case.
pub open spec fn switched_on(env: Option<String>) -> bool {
    env matches Some(text) && (text@ == "1"@ || lowered(text@) == lowered("true"@))
}

fn is_switched_on(env: &Option<String>) -> (r: bool)
    ensures
        r == switched_on(*env),
{
    match env {
        Some(text) => text_eq(text.as_str(), "1") || eq_ignore_ascii_case(text.as_str(), "true"),
        None => false,
    }
}

/// The settings that the command line and the environment give, complete or not.
pub open spec fn chosen(cli: CliArgs, env: EnvVars) -> SettingsView {
    SettingsView {
        id: chosen_text(cli.id@, env.id),
        server: chosen_text(cli.server@, env.server),
        port: chosen_port(cli.port, env.port),
        key: chosen_text(cli.key@, env.key),
        password: chosen_text(cli.password@, env.password),
        debug: cli.debug || switched_on(env.debug),
        quit_key: chosen_quit_key(cli.quit_key, env.quit_key),
    }
}

/// The settings, or what is missing or wrong.
pub open spec fn resolved(cli: CliArgs, env: EnvVars) -> Result<SettingsView, Seq<char>> {
    let settings = chosen(cli, env);
    if settings.id.len() == 0 {
        Err("--id or RUSTSHELL_ID is required"@)
    } else if settings.server.len() == 0 {
        Err("--server or RUSTSHELL_SERVER is required"@)
    } else if !is_letter(settings.quit_key) {
        Err("--quit-key must be an ASCII letter a-z"@)
    } else {
        Ok(settings)
    }
}

/// Settings as a value.
pub open spec fn settings_told(r: Result<Settings, String>) -> Result<SettingsView, Seq<char>> {
    match r {
        Ok(settings) => Ok(settings@),
        Err(e) => Err(e@),
    }
}

/// Puts the settings together: each from the command line, else from the environment. A device and a server
/// are needed, and the quit key must be a letter.
pub fn resolve(cli: CliArgs, env: EnvVars) -> (r: Result<Settings, String>)
    ensures
        settings_told(r) == resolved(cli, env),
{
    let port = choose_port(cli.port, &env.port);
    let debug = cli.debug || is_switched_on(&env.debug);
    let quit_key = choose_quit_key(cli.quit_key, &env.quit_key);
    let settings = Settings {
        id: choose_text(cli.id, env.id),
        server: choose_text(cli.server, env.server),
        port,
        key: choose_text(cli.key, env.key),
        password: choose_text(cli.password, env.password),
        debug,
        quit_key,
    };
    if settings.id.as_str().is_empty() {
        return Err("--id or RUSTSHELL_ID is required".to_owned());
    }
    if settings.server.as_str().is_empty() {
        return Err("--server or RUSTSHELL_SERVER is required".to_owned());
    }
    if !is_ascii_letter(settings.quit_key) {
        return Err("--quit-key must be an ASCII letter a-z".to_owned());
    }
    Ok(settings)
}

/// The command line takes precedence: what it gives, the environment cannot change.
pub proof fn law_command_line_takes_precedence(cli: CliArgs, env: EnvVars)
    ensures
        cli.id@.len() > 0 ==> chosen(cli, env).id == cli.id@,
        cli.server@.len() > 0 ==> chosen(cli, env).server == cli.server@,
        cli.port matches Some(port) ==> chosen(cli, env).port == port,
        cli.key@.len() > 0 ==> chosen(cli, env).key == cli.key@,
        cli.password@.len() > 0 ==> chosen(cli, env).password == cli.password@,
        cli.debug ==> chosen(cli, env).debug,
        cli.quit_key matches Some(c) ==> chosen(cli, env).quit_key == c,
{
}

/// The environment fills in what the command line leaves out.
pub proof fn law_environment_fills_in(cli: CliArgs, env: EnvVars)
    ensures
        cli.id@.len() == 0 ==> (env.id matches Some(text) ==> chosen(cli, env).id == text@),
        cli.server@.len() == 0 ==> (env.server matches Some(text) ==> chosen(cli, env).server == text@),
        cli.key@.len() == 0 ==> (env.key matches Some(text) ==> chosen(cli, env).key == text@),
        cli.password@.len() == 0 ==> (env.password matches Some(text) ==> chosen(cli, env).password == text@),
        cli.port is None ==> (env.port matches Some(text) ==> (parsed_integer(text@, 0, u16::MAX as int)
            matches Some(port) ==> chosen(cli, env).port == port)),
        cli.quit_key is None ==> (env.quit_key matches Some(text) ==> (text@.len() > 0 ==> chosen(
            cli,
            env,
        ).quit_key == text@[0])),
        switched_on(env.debug) ==> chosen(cli, env).debug,
{
    if env.port is Some {
        let text = env.port->0@;
        assert(parsed_integer(text, 0, u16::MAX as int) matches Some(port) ==> 0 <= port <= u16::MAX);
    }
}

// ---------------------------------------------------------------------------
// The rendezvous server
// ---------------------------------------------------------------------------

/// `server` names a port itself: something, one colon and a port number.
pub open spec fn names_port(server: Seq<char>) -> bool {
    exists|at: int| #[trigger] splits_at(server, at)
}

/// `server` splits at `at` into something without a colon and a port number.
pub open spec fn splits_at(server: Seq<char>, at: int) -> bool {
    &&& 0 < at < server.len()
    &&& server[at] == ':'
    &&& forall|i: int| 0 <= i < at ==> #[trigger] server[i] != ':'
    &&& parsed_integer(server.skip(at + 1), 0, u16::MAX as int) is Some
}

/// The address of a rendezvous server: as it is where it names its port, else with the port added.
pub open spec fn server_address(server: Seq<char>, port: u16) -> Seq<char> {
    if names_port(server) {
        server
    } else {
        server + ":"@ + decimal(port as nat)
    }
}

fn has_port(server: &str) -> (r: bool)
    ensures
        r == names_port(server@),
{
    let chars = chars_of(server);
    let mut at: usize = 0;
    while at < chars.len() && chars[at] != ':'
        invariant
            at <= chars@.len(),
            chars@ == server@,
            forall|i: int| 0 <= i < at ==> #[trigger] server@[i] != ':',
        decreases chars@.len() - at,
    {
        at = at + 1;
    }
    if at == 0 || at == chars.len() {
        assert(!names_port(server@)) by {
            if names_port(server@) {
                let other = choose|other: int| splits_at(server@, other);
                if at == 0 {
                    assert(server@[0] != ':');
                }
            }
        }
        return false;
    }
    let rest = chars_of(crate::text::text_of(&chars, at + 1, chars.len()).as_str());
    assert(rest@ =~= server@.skip(at + 1));
    let port = parse_integer(&rest, 0, u16::MAX as i64);
    proof {
        if port is Some {
            assert(splits_at(server@, at as int));
        } else if names_port(server@) {
            let other = choose|other: int| splits_at(server@, other);
            assert(other == at) by {
                if other < at {
                    assert(server@[other] != ':');
                } else if at < other {
                    assert(server@[at as int] != ':');
                }
            }
        }
    }
    port.is_some()
}

/// The address of a rendezvous server. `server` may be a host, an IP address, or a host with a port.
pub fn rendezvous_address(server: &str, port: u16) -> (address: String)
    ensures
        address@ == server_address(server@, port),
{
    if has_port(server) {
        server.to_owned()
    } else {
        joined3(server, ":", number_text(port as u64).as_str())
    }
}

// ---------------------------------------------------------------------------
// The program
// ---------------------------------------------------------------------------

/// The level from which on messages are logged.
pub fn log_level(debug: bool) -> (level: &'static str)
    ensures
        level@ == (if debug {
            "debug"@
        } else {
            "info"@
        }),
{
    if debug {
        "debug"
    } else {
        "info"
    }
}

/// What the program exits with after a remote command: the command's exit code where a process can exit
/// with it, else 1.
pub fn process_exit_code(exit_code: i32) -> (code: i32)
    ensures
        0 <= exit_code <= 255 ==> code == exit_code,
        !(0 <= exit_code <= 255) ==> code == 1,
{
    if 0 <= exit_code && exit_code <= 255 {
        exit_code
    } else {
        1
    }
}

/// The wrapper script: that of the command line, else the environment's, else the default.
pub fn wrapper_path(given: Option<PathBuf>, env: Option<PathBuf>, default: PathBuf) -> (path: PathBuf)
    ensures
        path == (match given {
            Some(path) => path,
            None => match env {
                Some(path) => path,
                None => default,
            },
        }),
{
    match given {
        Some(path) => path,
        None => match env {
            Some(path) => path,
            None => default,
        },
    }
}

// ---------------------------------------------------------------------------
// Laws
// ---------------------------------------------------------------------------

/// The settings are what was asked for: they are complete exactly where a device and a server are named and the
/// quit key is a letter, and then each is the command line's, or where that says nothing the environment's, or
/// where neither does the default: the port 21116, the letter q, no licence key and no password.
pub proof fn law_settings_are_what_was_asked_for(cli: CliArgs, env: EnvVars)
    ensures
        ({
            let text = |given: String, variable: Option<String>|
                if given@.len() > 0 {
                    given@
                } else {
                    match variable {
                        Some(other) => other@,
                        None => Seq::<char>::empty(),
                    }
                };
            let quit = match cli.quit_key {
                Some(c) => c,
                None => match env.quit_key {
                    Some(variable) => if variable@.len() > 0 {
                        variable@[0]
                    } else {
                        'q'
                    },
                    None => 'q',
                },
            };
            let complete = text(cli.id, env.id).len() > 0 && text(cli.server, env.server).len() > 0 && (('a' <= quit
                <= 'z') || ('A' <= quit <= 'Z'));
            &&& complete <==> resolved(cli, env) is Ok
            &&& resolved(cli, env) matches Ok(settings) ==> {
                &&& settings.id == text(cli.id, env.id)
                &&& settings.server == text(cli.server, env.server)
                &&& settings.key == text(cli.key, env.key)
                &&& settings.password == text(cli.password, env.password)
                &&& settings.quit_key == quit
                &&& cli.port matches Some(port) ==> settings.port == port
                &&& cli.port is None && env.port is None ==> settings.port == 21116
                &&& cli.port is None ==> (env.port matches Some(variable) ==> match parsed_integer(
                    variable@,
                    0,
                    0xffff,
                ) {
                    Some(port) => settings.port == port,
                    None => settings.port == 21116,
                })
                &&& cli.debug ==> settings.debug
                &&& !cli.debug && env.debug is None ==> !settings.debug
            }
            &&& resolved(cli, env) matches Err(words) ==> words == if text(cli.id, env.id).len() == 0 {
                "--id or RUSTSHELL_ID is required"@
            } else if text(cli.server, env.server).len() == 0 {
                "--server or RUSTSHELL_SERVER is required"@
            } else {
                "--quit-key must be an ASCII letter a-z"@
            }
        }),
{
}

/// A switch is on where its variable is 1 or true, in letters of either case, and off where it is anything else.
pub proof fn law_switches(cli: CliArgs, env: EnvVars, value: String)
    requires
        !cli.debug,
        env.debug == Some(value),
        resolved(cli, env) is Ok,
    ensures
        value@ == "1"@ ==> resolved(cli, env)->Ok_0.debug,
        value@ == "true"@ || value@ == "TRUE"@ || value@ == "True"@ ==> resolved(cli, env)->Ok_0.debug,
        value@.len() != 1 && value@.len() != 4 ==> !resolved(cli, env)->Ok_0.debug,
        value@ == "0"@ ==> !resolved(cli, env)->Ok_0.debug,
{
    reveal_strlit("1");
    reveal_strlit("0");
    reveal_strlit("true");
    reveal_strlit("TRUE");
    reveal_strlit("True");
    assert(lowered("TRUE"@) =~= lowered("true"@));
    assert(lowered("True"@) =~= lowered("true"@));
    assert(lowered("true"@).len() == 4);
    assert("0"@[0] != "1"@[0]);
}

/// The address of a server that names its port is that server as it is; that of one that does not is the server and
/// the port that was chosen. A server with more than one colon, as the address of a network of its own kind, does
/// not name a port.
pub proof fn law_server_addresses(host: Seq<char>, named: u16, port: u16, i: int, j: int)
    ensures
        host.len() > 0 && !host.contains(':') ==> server_address(host + seq![':'] + decimal(named as nat), port) == host
            + seq![':'] + decimal(named as nat),
        !host.contains(':') ==> server_address(host, port) == host + seq![':'] + decimal(port as nat),
        0 <= i < j < host.len() && host[i] == ':' && host[j] == ':' ==> server_address(host, port) == host + seq![':']
            + decimal(port as nat),
{
    reveal_strlit(":");
    assert(":"@ =~= seq![':']);
    if host.len() > 0 && !host.contains(':') {
        let full = host + seq![':'] + decimal(named as nat);
        law_integers_are_read(named as nat, full, 0, 0xffff);
        let at = host.len() as int;
        assert(full.skip(at + 1) =~= decimal(named as nat));
        assert forall|k: int| 0 <= k < at implies #[trigger] full[k] != ':' by {
            assert(host.contains(host[k]));
        }
        assert(splits_at(full, at));
    }
    if !host.contains(':') {
        assert forall|at: int| !splits_at(host, at) by {
            if 0 < at < host.len() {
                assert(host.contains(host[at]));
            }
        }
    }
    if 0 <= i < j < host.len() && host[i] == ':' && host[j] == ':' {
        assert forall|at: int| !splits_at(host, at) by {
            if splits_at(host, at) {
                if i < at {
                    assert(host[i] != ':');
                }
                if j < at {
                    assert(host[j] != ':');
                }
                let rest = host.skip(at + 1);
                law_integers_are_read(0, rest, 0, 0xffff);
                let k = if i > at {
                    i - at - 1
                } else {
                    j - at - 1
                };
                assert(rest[k] == ':');
            }
        }
    }
}

/// Settings are seen as what they hold.
pub proof fn law_settings_are_seen_as_they_are(s: Settings)
    ensures
        s@.id == s.id@ && s@.server == s.server@ && s@.port == s.port && s@.key == s.key@ && s@.password == s.password@
            && s@.debug == s.debug && s@.quit_key == s.quit_key,
{
}

/// What the resolving of settings gives is seen as what it is.
pub proof fn law_resolved_settings_are_seen_as_they_are(s: Settings, words: String)
    ensures
        settings_told(Ok(s)) == Ok::<SettingsView, Seq<char>>(s@),
        settings_told(Err(words)) == Err::<SettingsView, Seq<char>>(words@),
{
}

}
