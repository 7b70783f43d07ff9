//! Where the daemon is found: its data directory, its socket, its port.

use vstd::prelude::*;
use vstd::string::*;

use crate::text::{chars_of, trim_chars, trimmed};

verus! {

/// The platforms on which the daemon runs.
#[derive(Debug, Clone, Copy, PartialEq, Eq, Structural)]
pub enum Platform {
    Linux,
    MacOs,
    Windows,
}

/// The variables of the environment that say where the daemon is found. One that is
/// not set, or that is no Unicode text, is `None`.
#[derive(Debug, Clone, PartialEq)]
pub struct Environment {
    pub jarvis_data_dir: Option<String>,
    pub jarvis_socket: Option<String>,
    pub xdg_data_home: Option<String>,
    pub home: Option<String>,
    pub local_app_data: Option<String>,
    pub user_profile: Option<String>,
}

/// The content of an environment.
pub struct EnvironmentView {
    pub jarvis_data_dir: Option<Seq<char>>,
    pub jarvis_socket: Option<Seq<char>>,
    pub xdg_data_home: Option<Seq<char>>,
    pub home: Option<Seq<char>>,
    pub local_app_data: Option<Seq<char>>,
    pub user_profile: Option<Seq<char>>,
}

impl View for Environment {
    type V = EnvironmentView;

    open spec fn view(&self) -> EnvironmentView {
        EnvironmentView {
            jarvis_data_dir: self.jarvis_data_dir.deep_view(),
            jarvis_socket: self.jarvis_socket.deep_view(),
            xdg_data_home: self.xdg_data_home.deep_view(),
            home: self.home.deep_view(),
            local_app_data: self.local_app_data.deep_view(),
            user_profile: self.user_profile.deep_view(),
        }
    }
}

/// A text, or what stands in where there is none.
pub open spec fn text_else(text: Option<Seq<char>>, default: Seq<char>) -> Seq<char> {
    match text {
        Some(t) => t,
        None => default,
    }
}

/// The character between the parts of a path.
pub open spec fn separator(platform: Platform) -> Seq<char> {
    match platform {
        Platform::Linux => "/"@,
        Platform::MacOs => "/"@,
        Platform::Windows => "\\"@,
    }
}

/// The data directory that the daemon shares with its clients.
pub open spec fn data_dir(platform: Platform, env: EnvironmentView) -> Seq<char> {
    match env.jarvis_data_dir {
        Some(dir) => dir,
        None => match platform {
            Platform::Linux => text_else(
                env.xdg_data_home,
                text_else(env.home, "/tmp"@) + "/.local/share"@,
            ) + "/jarvis"@,
            Platform::MacOs => text_else(env.home, "/tmp"@) + "/Library/Application Support/jarvis"@,
            Platform::Windows => text_else(
                env.local_app_data,
                text_else(env.user_profile, "C:\\Users\\Default"@) + "\\AppData\\Local"@,
            ) + "\\jarvis"@,
        },
    }
}

/// The socket where nothing else is said.
pub open spec fn default_socket(platform: Platform, env: EnvironmentView) -> Seq<char> {
    data_dir(platform, env) + separator(platform) + "jarvis.sock"@
}

/// The socket of the daemon.
pub open spec fn socket(platform: Platform, env: EnvironmentView) -> Seq<char> {
    text_else(env.jarvis_socket, default_socket(platform, env))
}

fn text_or_else(text: &Option<String>, default: &str) -> (chosen: String)
    ensures
        chosen@ == text_else(text.deep_view(), default@),
{
    match text {
        Some(text) => text.clone(),
        None => default.to_owned(),
    }
}

/// The data directory that the daemon shares with its clients.
///
/// It is the one that the environment names, or else the platform's usual place.
pub fn jarvis_data_dir(platform: Platform, env: &Environment) -> (dir: String)
    ensures
        dir@ == data_dir(platform, env@),
{
    if let Some(dir) = &env.jarvis_data_dir {
        return dir.clone();
    }
    match platform {
        Platform::Linux => {
            let home_share: String = text_or_else(&env.home, "/tmp").concat("/.local/share");
            text_or_else(&env.xdg_data_home, home_share.as_str()).concat("/jarvis")
        },
        Platform::MacOs => {
            text_or_else(&env.home, "/tmp").concat("/Library/Application Support/jarvis")
        },
        Platform::Windows => {
            let profile_local: String = text_or_else(&env.user_profile, "C:\\Users\\Default").concat(
                "\\AppData\\Local",
            );
            text_or_else(&env.local_app_data, profile_local.as_str()).concat("\\jarvis")
        },
    }
}

/// The socket in the data directory.
pub fn default_socket_path(platform: Platform, env: &Environment) -> (path: String)
    ensures
        path@ == default_socket(platform, env@),
{
    let separator: &str = match platform {
        Platform::Linux => "/",
        Platform::MacOs => "/",
        Platform::Windows => "\\",
    };
    jarvis_data_dir(platform, env).concat(separator).concat("jarvis.sock")
}

/// The socket of the daemon: the one that the environment names, or else the one in
/// the data directory.
pub fn socket_path(platform: Platform, env: &Environment) -> (path: String)
    ensures
        path@ == socket(platform, env@),
{
    match &env.jarvis_socket {
        Some(path) => path.clone(),
        None => default_socket_path(platform, env),
    }
}

/// How the daemon is reached.
#[derive(Debug, PartialEq)]
pub enum Endpoint {
    /// Through the socket at a path.
    Socket(String),
    /// On this machine, at the TCP port that a file holds.
    PortFile(String),
}

/// How the daemon is reached: through its socket, but on Windows at the port that the
/// file beside the socket's path holds.
pub fn daemon_endpoint(platform: Platform, env: &Environment) -> (endpoint: Endpoint)
    ensures
        match endpoint {
            Endpoint::Socket(path) => platform != Platform::Windows && path@ == socket(
                platform,
                env@,
            ),
            Endpoint::PortFile(path) => platform == Platform::Windows && path@ == socket(
                platform,
                env@,
            ) + ".port"@,
        },
{
    let path: String = socket_path(platform, env);
    match platform {
        Platform::Linux => Endpoint::Socket(path),
        Platform::MacOs => Endpoint::Socket(path),
        Platform::Windows => Endpoint::PortFile(path.concat(".port")),
    }
}

/// Whether a character is a decimal digit.
pub open spec fn is_digit(c: char) -> bool {
    '0' <= c <= '9'
}

/// The number that decimal digits stand for.
pub open spec fn decimal(digits: Seq<char>) -> nat
    decreases digits.len(),
{
    if digits.len() == 0 {
        0
    } else {
        10 * decimal(digits.drop_last()) + ((digits.last() as int) - ('0' as int)) as nat
    }
}

/// Whether a text is made of decimal digits.
pub open spec fn all_digits(text: Seq<char>) -> bool {
    forall|i: int| 0 <= i < text.len() ==> is_digit(#[trigger] text[i])
}

/// The number that decimal digits stand for, at least one of them, where sixteen bits
/// hold it.
pub open spec fn digits_number(digits: Seq<char>) -> Option<u16> {
    if digits.len() > 0 && all_digits(digits) && decimal(digits) <= u16::MAX {
        Some(decimal(digits) as u16)
    } else {
        None
    }
}

/// The number that a text stands for: decimal digits, after a plus sign or none.
pub open spec fn number_of(text: Seq<char>) -> Option<u16> {
    if text.len() > 0 && text[0] == '+' {
        digits_number(text.drop_first())
    } else {
        digits_number(text)
    }
}

/// The first digits of a number stand for no more than the number.
proof fn lemma_decimal_grows(digits: Seq<char>, n: int)
    requires
        0 <= n <= digits.len(),
        all_digits(digits),
    ensures
        decimal(digits.take(n)) <= decimal(digits),
    decreases digits.len(),
{
    if n < digits.len() {
        let front = digits.drop_last();
        assert(front.take(n) =~= digits.take(n));
        assert(all_digits(front)) by {
            assert(forall|i: int| 0 <= i < front.len() ==> front[i] == digits[i]);
        }
        lemma_decimal_grows(front, n);
    } else {
        assert(digits.take(n) =~= digits);
    }
}

/// Reads decimal digits, from `start` on.
fn parse_digits(chars: &Vec<char>, start: usize) -> (number: Option<u16>)
    requires
        start <= chars.len(),
    ensures
        number == digits_number(chars@.skip(start as int)),
{
    let ghost digits = chars@.skip(start as int);
    if start == chars.len() {
        return None;
    }
    let mut value: u32 = 0;
    let mut i: usize = start;
    assert(digits.take(0) =~= Seq::empty());
    while i < chars.len()
        invariant
            start <= i <= chars.len(),
            digits == chars@.skip(start as int),
            forall|j: int| 0 <= j < i - start ==> is_digit(#[trigger] digits[j]),
            value == decimal(digits.take(i - start)),
            value <= u16::MAX,
        decreases chars.len() - i,
    {
        let c: char = chars[i];
        assert(digits[i - start] == c);
        if c < '0' || c > '9' {
            assert(!is_digit(digits[i - start]));
            return None;
        }
        proof {
            assert(digits.take(i - start + 1).drop_last() =~= digits.take(i - start));
            assert(digits.take(i - start + 1).last() == c);
        }
        value = value * 10 + (c as u32 - '0' as u32);
        i += 1;
        if value > u16::MAX as u32 {
            proof {
                if all_digits(digits) {
                    lemma_decimal_grows(digits, i - start);
                }
            }
            return None;
        }
    }
    assert(digits.take(i - start) =~= digits);
    Some(value as u16)
}

/// The port that the contents of a port file name, white space around it aside.
pub fn parse_port(contents: &str) -> (port: Option<u16>)
    ensures
        port == number_of(trimmed(contents@)),
{
    let chars: Vec<char> = trim_chars(chars_of(contents));
    if chars.len() > 0 && chars[0] == '+' {
        assert(chars@.skip(1) =~= chars@.drop_first());
        parse_digits(&chars, 1)
    } else {
        assert(chars@.skip(0) =~= chars@);
        parse_digits(&chars, 0)
    }
}

/// What the environment says goes before all else: a data directory that it names is
/// the data directory, and a socket that it names is the socket, on every platform.
pub proof fn law_environment_decides(platform: Platform, env: EnvironmentView)
    ensures
        env.jarvis_data_dir matches Some(dir) ==> data_dir(platform, env) == dir,
        env.jarvis_socket matches Some(path) ==> socket(platform, env) == path,
        env.jarvis_socket is None ==> socket(platform, env) == data_dir(platform, env) + separator(
            platform,
        ) + "jarvis.sock"@,
{
}

/// The data directory of each platform, where the environment names none: on Linux it is in
/// the directory for data that is named, or else in the user's own; on macOS in the user's
/// application support; on Windows in the directory for local data that is named, or else in
/// that of the user's profile. Where there is no user either, a common place stands in.
pub proof fn law_each_platform_has_its_place(env: EnvironmentView, dir: Seq<char>)
    requires
        env.jarvis_data_dir is None,
    ensures
        env.xdg_data_home == Some(dir) ==> data_dir(Platform::Linux, env) == dir + "/jarvis"@,
        env.xdg_data_home is None && env.home == Some(dir) ==> data_dir(Platform::Linux, env) == dir
            + "/.local/share/jarvis"@,
        env.xdg_data_home is None && env.home is None ==> data_dir(Platform::Linux, env)
            == "/tmp/.local/share/jarvis"@,
        env.home == Some(dir) ==> data_dir(Platform::MacOs, env) == dir
            + "/Library/Application Support/jarvis"@,
        env.home is None ==> data_dir(Platform::MacOs, env)
            == "/tmp/Library/Application Support/jarvis"@,
        env.local_app_data == Some(dir) ==> data_dir(Platform::Windows, env) == dir + "\\jarvis"@,
        env.local_app_data is None && env.user_profile == Some(dir) ==> data_dir(
            Platform::Windows,
            env,
        ) == dir + "\\AppData\\Local\\jarvis"@,
        env.local_app_data is None && env.user_profile is None ==> data_dir(Platform::Windows, env)
            == "C:\\Users\\Default\\AppData\\Local\\jarvis"@,
{
    reveal_strlit("/jarvis");
    reveal_strlit("/tmp");
    reveal_strlit("/.local/share");
    reveal_strlit("/.local/share/jarvis");
    reveal_strlit("/tmp/.local/share/jarvis");
    reveal_strlit("/Library/Application Support/jarvis");
    reveal_strlit("/tmp/Library/Application Support/jarvis");
    reveal_strlit("\\jarvis");
    reveal_strlit("\\AppData\\Local");
    reveal_strlit("\\AppData\\Local\\jarvis");
    reveal_strlit("C:\\Users\\Default");
    reveal_strlit("C:\\Users\\Default\\AppData\\Local\\jarvis");
    assert(dir + "/.local/share"@ + "/jarvis"@ =~= dir + "/.local/share/jarvis"@);
    assert("/tmp"@ + "/.local/share"@ + "/jarvis"@ =~= "/tmp/.local/share/jarvis"@);
    assert("/tmp"@ + "/Library/Application Support/jarvis"@
        =~= "/tmp/Library/Application Support/jarvis"@);
    assert(dir + "\\AppData\\Local"@ + "\\jarvis"@ =~= dir + "\\AppData\\Local\\jarvis"@);
    assert("C:\\Users\\Default"@ + "\\AppData\\Local"@ + "\\jarvis"@
        =~= "C:\\Users\\Default\\AppData\\Local\\jarvis"@);
}

/// The socket is a file of its own name in the data directory, unless the environment names
/// another.
pub proof fn law_the_socket_is_in_the_data_directory(env: EnvironmentView)
    ensures
        default_socket(Platform::Linux, env) == data_dir(Platform::Linux, env) + "/jarvis.sock"@,
        default_socket(Platform::MacOs, env) == data_dir(Platform::MacOs, env) + "/jarvis.sock"@,
        default_socket(Platform::Windows, env) == data_dir(Platform::Windows, env)
            + "\\jarvis.sock"@,
        forall|platform: Platform|
            env.jarvis_socket is None ==> #[trigger] socket(platform, env) == default_socket(
                platform,
                env,
            ),
{
    reveal_strlit("/");
    reveal_strlit("\\");
    reveal_strlit("jarvis.sock");
    reveal_strlit("/jarvis.sock");
    reveal_strlit("\\jarvis.sock");
    assert("/"@ + "jarvis.sock"@ =~= "/jarvis.sock"@);
    assert("\\"@ + "jarvis.sock"@ =~= "\\jarvis.sock"@);
    assert(default_socket(Platform::Linux, env) =~= data_dir(Platform::Linux, env)
        + "/jarvis.sock"@);
    assert(default_socket(Platform::MacOs, env) =~= data_dir(Platform::MacOs, env)
        + "/jarvis.sock"@);
    assert(default_socket(Platform::Windows, env) =~= data_dir(Platform::Windows, env)
        + "\\jarvis.sock"@);
}

/// The environment is seen as it is.
pub proof fn law_the_environment_is_seen_as_it_is(env: Environment)
    ensures
        env@.jarvis_data_dir == env.jarvis_data_dir.deep_view(),
        env@.jarvis_socket == env.jarvis_socket.deep_view(),
        env@.xdg_data_home == env.xdg_data_home.deep_view(),
        env@.home == env.home.deep_view(),
        env@.local_app_data == env.local_app_data.deep_view(),
        env@.user_profile == env.user_profile.deep_view(),
{
}

/// A number is read digit by digit: one digit is its own value, one digit more is ten times
/// the number and the digit, as far as sixteen bits hold it, and what is too large stays too
/// large. A plus sign before the digits changes nothing. Anything else is no number.
pub proof fn law_numbers_are_read_in_decimal(text: Seq<char>, c: char)
    ensures
        '0' <= c <= '9' ==> number_of(seq![c]) == Some(((c as int) - ('0' as int)) as u16),
        number_of(text) matches Some(n) ==> ('0' <= c <= '9' ==> number_of(text.push(c)) == (if 10
            * n + ((c as int) - ('0' as int)) <= 65535 {
            Some((10 * n + ((c as int) - ('0' as int))) as u16)
        } else {
            None
        })),
        number_of(text) is None && text.len() > 0 && text != seq!['+'] ==> number_of(text.push(c))
            is None,
        !('0' <= c <= '9') ==> number_of(text.push(c)) is None,
        text.len() > 0 && text[0] != '+' ==> number_of(seq!['+'] + text) == number_of(text),
        number_of(Seq::empty()) is None,
        number_of(seq!['+']) is None,
{
    if text.len() > 0 && text[0] == '+' {
        lemma_one_digit_more(text.drop_first(), c);
        assert(text.push(c).drop_first() =~= text.drop_first().push(c));
        if text.drop_first().len() == 0 {
            assert(text =~= seq!['+']);
        }
    } else {
        lemma_one_digit_more(text, c);
        if text.len() > 0 {
            assert(text.push(c)[0] == text[0]);
        } else {
            assert(text.push(c) =~= seq![c]);
            assert(seq![c].drop_first() =~= Seq::empty());
        }
        assert((seq!['+'] + text).drop_first() =~= text);
    }
    lemma_one_digit_more(Seq::empty(), c);
    assert(Seq::empty().push(c) =~= seq![c]);
    assert(seq!['+'].drop_first() =~= Seq::empty());
}

/// Digits with one character more.
proof fn lemma_one_digit_more(digits: Seq<char>, c: char)
    ensures
        !is_digit(c) ==> digits_number(digits.push(c)) is None,
        is_digit(c) && digits.len() == 0 ==> digits_number(digits.push(c)) == Some(
            ((c as int) - ('0' as int)) as u16,
        ),
        digits_number(digits) matches Some(n) ==> (is_digit(c) ==> digits_number(digits.push(c))
            == (if 10 * n + ((c as int) - ('0' as int)) <= 65535 {
            Some((10 * n + ((c as int) - ('0' as int))) as u16)
        } else {
            None
        })),
        digits_number(digits) is None && digits.len() > 0 ==> digits_number(digits.push(c)) is None,
{
    let more = digits.push(c);
    assert(more.drop_last() =~= digits);
    assert(more[digits.len() as int] == c);
    assert(forall|i: int| 0 <= i < digits.len() ==> more[i] == digits[i]);
    if all_digits(digits) && is_digit(c) {
        assert(all_digits(more));
    }
    if all_digits(more) {
        assert forall|i: int| 0 <= i < digits.len() implies is_digit(#[trigger] digits[i]) by {
            assert(is_digit(more[i]));
        }
    }
    if digits.len() == 0 {
        assert(decimal(digits) == 0);
    }
}

} // verus!
