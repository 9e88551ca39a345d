use vstd::prelude::*;

use pad::PadStr;

verus! {

/// Settings of the portal, fixed at startup.
#[derive(Clone, Debug)]
pub struct Config {
    pub interface: Option<String>,
    pub ssid: String,
    pub passphrase: Option<String>,
    pub gateway: [u8; 4],
    pub dhcp_range: String,
    pub listening_at: String,
    pub activity_timeout: u64,
}

/// Mathematical model of the settings.
pub struct ConfigModel {
    pub interface: Option<Seq<char>>,
    pub ssid: Seq<char>,
    pub passphrase: Option<Seq<char>>,
    pub gateway: [u8; 4],
    pub dhcp_range: Seq<char>,
    pub listening_at: Seq<char>,
    pub activity_timeout: u64,
}

pub open spec fn text_option(o: Option<String>) -> Option<Seq<char>> {
    match o {
        Some(s) => Some(s@),
        None => None,
    }
}

impl View for Config {
    type V = ConfigModel;

    open spec fn view(&self) -> ConfigModel {
        ConfigModel {
            interface: text_option(self.interface),
            ssid: self.ssid@,
            passphrase: text_option(self.passphrase),
            gateway: self.gateway,
            dhcp_range: self.dhcp_range@,
            listening_at: self.listening_at@,
            activity_timeout: self.activity_timeout,
        }
    }
}

/// Why the portal's settings could not be derived.
#[derive(Clone, Copy, Debug, PartialEq, Eq, Structural)]
pub enum ConfigError {
    /// No device identity is set.
    MissingDeviceIdentity,
    /// The device identity has fewer characters than the name takes.
    ShortDeviceIdentity,
    /// No pairing code is set.
    MissingPairingCode,
}

pub const DEFAULT_GATEWAY: &'static str = "192.168.42.1";

pub const DEFAULT_DHCP_RANGE: &'static str = "192.168.42.2,192.168.42.254";

pub const DEFAULT_ACTIVITY_TIMEOUT: &'static str = "0";

pub const DEFAULT_LISTENING: &'static str = "0.0.0.0:80";

/// Characters of the device identity that the portal's name carries.
pub const SSID_SUFFIX_LEN: usize = 12;

/// Shortest portal passphrase, in display columns.
pub const MIN_PASSPHRASE_LEN: usize = 8;

pub open spec fn ssid_prefix() -> Seq<char> {
    seq!['H', 'a', 'l', 'l', 'e', 'y', 'H', 'u', 'b', '-']
}

/// Every character is printable ASCII, one display column wide.
pub open spec fn printable_ascii(s: Seq<char>) -> bool {
    forall|i: int| 0 <= i < s.len() ==> ' ' <= #[trigger] s[i] && s[i] <= '~'
}

pub open spec fn at_least(n: int, width: int) -> int {
    if n >= width {
        n
    } else {
        width
    }
}

/// What pad makes of `s` when it fills it on the right with `fill` up to
/// `width` display columns.
pub uninterp spec fn padded_to(s: Seq<char>, width: usize, fill: char) -> Seq<char>;

/// Relies on pad's `PadStr::pad_to_width_with_char` (left alignment, no
/// truncation): the text is kept whole, and only `fill` follows it, up to the
/// display width asked for.
#[verifier::external_body]
fn pad_to_width(s: &String, width: usize, fill: char) -> (r: String)
    ensures
        r@ == padded_to(s@, width, fill),
        s@.len() <= r@.len(),
        r@.subrange(0, s@.len() as int) == s@,
        forall|i: int| s@.len() <= i < r@.len() ==> r@[i] == fill,
        printable_ascii(s@) ==> r@.len() == at_least(s@.len() as int, width as int),
{
    s.as_str().pad_to_width_with_char(width, fill)
}

/// A setting given by flag, else by environment, else its default.
pub fn resolve_setting(flag: Option<String>, env: Option<String>, default: &str) -> (r: String)
    ensures
        r@ == match flag {
            Some(f) => f@,
            None => match env {
                Some(e) => e@,
                None => default@,
            },
        },
{
    match flag {
        Some(f) => f,
        None => match env {
            Some(e) => e,
            None => String::from_str(default),
        },
    }
}

/// The portal's name: the one given by flag, else the prefix, then the first
/// characters of the device identity, taken from the first of the two
/// sources that is set.
pub fn portal_ssid(flag: &Option<String>, identity: &Option<String>, fallback: &Option<String>) -> (r: Result<String, ConfigError>)
    ensures
        flag matches Some(f) ==> r matches Ok(s) && s@ == f@,
        flag is None ==> ({
            let chosen = if identity is Some { *identity } else { *fallback };
            match chosen {
                None => r == Err::<String, ConfigError>(ConfigError::MissingDeviceIdentity),
                Some(id) => if id@.len() < SSID_SUFFIX_LEN {
                    r == Err::<String, ConfigError>(ConfigError::ShortDeviceIdentity)
                } else {
                    r matches Ok(s) && s@ == ssid_prefix() + id@.take(SSID_SUFFIX_LEN as int)
                },
            }
        }),
{
    if let Some(f) = flag {
        return Ok(f.clone());
    }
    let chosen = match identity {
        Some(id) => id,
        None => match fallback {
            Some(id) => id,
            None => {
                return Err(ConfigError::MissingDeviceIdentity);
            },
        },
    };
    if chosen.unicode_len() < SSID_SUFFIX_LEN {
        return Err(ConfigError::ShortDeviceIdentity);
    }
    proof { reveal_strlit("HalleyHub-"); }
    let mut s = String::from_str("HalleyHub-");
    assert(s@ =~= ssid_prefix());
    let suffix = chosen.substring_char(0, SSID_SUFFIX_LEN);
    s.append(suffix);
    assert(suffix@ =~= chosen@.take(SSID_SUFFIX_LEN as int));
    Ok(s)
}

/// The portal's passphrase: the one given by flag, else the pairing code,
/// filled on the right with `_` to the shortest passphrase width.
pub fn portal_passphrase(flag: &Option<String>, code: &Option<String>) -> (r: Result<String, ConfigError>)
    ensures
        match flag {
            Some(f) => r matches Ok(p) && p@ == f@,
            None => match code {
                None => r == Err::<String, ConfigError>(ConfigError::MissingPairingCode),
                Some(c) => r matches Ok(p) && p@ == padded_to(c@, MIN_PASSPHRASE_LEN, '_')
                    && c@.len() <= p@.len() && p@.subrange(0, c@.len() as int) == c@
                    && (forall|i: int| c@.len() <= i < p@.len() ==> p@[i] == '_')
                    && (printable_ascii(c@) ==> p@.len() == at_least(c@.len() as int, MIN_PASSPHRASE_LEN as int)),
            },
        },
{
    match flag {
        Some(f) => Ok(f.clone()),
        None => match code {
            Some(c) => Ok(pad_to_width(c, MIN_PASSPHRASE_LEN, '_')),
            None => Err(ConfigError::MissingPairingCode),
        },
    }
}

/// The idle timer runs only for a timeout other than zero.
pub fn activity_timer_armed(activity_timeout: u64) -> (r: bool)
    ensures
        r == (activity_timeout != 0),
{
    activity_timeout != 0
}

} // verus!
