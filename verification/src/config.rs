use vstd::prelude::*;
use vstd::string::StringExecFns;
use std::path::PathBuf;

verus! {

/// The settings of the program, as they are kept in the config file.
#[derive(Debug)]
pub struct Config {
    pub port: String,
    pub baud_rate: u32,
    pub config_dir: String,
    pub send_interval_ms: u32,
    pub auto_reconnect: bool,
    pub reconnect_interval_ms: u32,
    pub cmd_lower_a: String,
    pub cmd_lower_b: String,
    pub cmd_raise_a: String,
    pub cmd_raise_b: String,
}

/// The mathematical value of a `Config`: its texts as character sequences.
pub struct ConfigView {
    pub port: Seq<char>,
    pub baud_rate: u32,
    pub config_dir: Seq<char>,
    pub send_interval_ms: u32,
    pub auto_reconnect: bool,
    pub reconnect_interval_ms: u32,
    pub cmd_lower_a: Seq<char>,
    pub cmd_lower_b: Seq<char>,
    pub cmd_raise_a: Seq<char>,
    pub cmd_raise_b: Seq<char>,
}

impl View for Config {
    type V = ConfigView;

    open spec fn view(&self) -> ConfigView {
        ConfigView {
            port: self.port@,
            baud_rate: self.baud_rate,
            config_dir: self.config_dir@,
            send_interval_ms: self.send_interval_ms,
            auto_reconnect: self.auto_reconnect,
            reconnect_interval_ms: self.reconnect_interval_ms,
            cmd_lower_a: self.cmd_lower_a@,
            cmd_lower_b: self.cmd_lower_b@,
            cmd_raise_a: self.cmd_raise_a@,
            cmd_raise_b: self.cmd_raise_b@,
        }
    }
}

impl Clone for Config {
    fn clone(&self) -> (r: Self)
        ensures
            r@ == self@,
    {
        Config {
            port: self.port.clone(),
            baud_rate: self.baud_rate,
            config_dir: self.config_dir.clone(),
            send_interval_ms: self.send_interval_ms,
            auto_reconnect: self.auto_reconnect,
            reconnect_interval_ms: self.reconnect_interval_ms,
            cmd_lower_a: self.cmd_lower_a.clone(),
            cmd_lower_b: self.cmd_lower_b.clone(),
            cmd_raise_a: self.cmd_raise_a.clone(),
            cmd_raise_b: self.cmd_raise_b.clone(),
        }
    }
}

/// The defaults of every setting, with the given config directory.
pub open spec fn default_config_view(config_dir: Seq<char>) -> ConfigView {
    ConfigView {
        port: "COM4"@,
        baud_rate: 9600,
        config_dir: config_dir,
        send_interval_ms: 100,
        auto_reconnect: true,
        reconnect_interval_ms: 3000,
        cmd_lower_a: "a"@,
        cmd_lower_b: "b"@,
        cmd_raise_a: "A"@,
        cmd_raise_b: "B"@,
    }
}

impl Config {
    /// The default settings: port `COM4` at 9600 baud, a byte every 100 ms,
    /// auto-reconnect every 3000 ms, commands `a`, `b` (lower) and `A`, `B`
    /// (raise), kept in `config_dir`.
    pub fn with_config_dir(config_dir: String) -> (c: Config)
        ensures
            c@ == default_config_view(config_dir@),
    {
        Config {
            port: String::from_str("COM4"),
            baud_rate: 9600,
            config_dir,
            send_interval_ms: 100,
            auto_reconnect: true,
            reconnect_interval_ms: 3000,
            cmd_lower_a: String::from_str("a"),
            cmd_lower_b: String::from_str("b"),
            cmd_raise_a: String::from_str("A"),
            cmd_raise_b: String::from_str("B"),
        }
    }
}

/// The path that joining `file` onto the directory `dir` gives.
pub uninterp spec fn joined_path(dir: Seq<char>, file: Seq<char>) -> PathBuf;

#[verifier::external_type_specification]
#[verifier::external_body]
pub struct ExPathBuf(PathBuf);

/// Joins a file name onto a directory.
/// Calls std's `Path::join` on the directory made a path; the result depends
/// on the two texts alone (for one target platform), which the contract names
/// `joined_path`. What the joined path holds is left unsaid.
#[verifier::external_body]
fn path_join(dir: &str, file: &str) -> (p: PathBuf)
    ensures
        p == joined_path(dir@, file@),
{
    PathBuf::from(dir).join(file)
}

/// The file that the settings are saved to and loaded from:
/// `config.json` in the config directory.
pub fn config_path(cfg: &Config) -> (p: PathBuf)
    ensures
        p == joined_path(cfg.config_dir@, "config.json"@),
{
    path_join(cfg.config_dir.as_str(), "config.json")
}

/// A command is one printable ASCII character: a single character from
/// space (0x20) to `~` (0x7e).
pub open spec fn command_ok(s: Seq<char>) -> bool {
    s.len() == 1 && 0x20 <= (s[0] as u32) && (s[0] as u32) <= 0x7e
}

pub open spec fn baud_rate_message() -> Seq<char> {
    "Baud rate must be a positive integer"@
}

/// The message for a command setting that is not one printable ASCII character.
pub open spec fn command_message(name: Seq<char>) -> Seq<char> {
    name + ": must be exactly 1 printable ASCII character"@
}

/// The message list for one command setting: empty when it is fine.
pub open spec fn command_errors(value: Seq<char>, name: Seq<char>) -> Seq<Seq<char>> {
    if command_ok(value) {
        Seq::empty()
    } else {
        seq![command_message(name)]
    }
}

/// Everything wrong with a configuration, in the order the checks run:
/// a zero baud rate, then each command setting that is not one printable
/// ASCII character.
pub open spec fn config_errors(c: ConfigView) -> Seq<Seq<char>> {
    (if c.baud_rate == 0 {
        seq![baud_rate_message()]
    } else {
        Seq::empty()
    }) + command_errors(c.cmd_lower_a, "cmd_lower_a"@) + command_errors(c.cmd_lower_b, "cmd_lower_b"@)
        + command_errors(c.cmd_raise_a, "cmd_raise_a"@) + command_errors(c.cmd_raise_b, "cmd_raise_b"@)
}

/// Whether a setting text is one printable ASCII character.
fn is_printable_command(s: &String) -> (ok: bool)
    ensures
        ok == command_ok(s@),
{
    let t = s.as_str();
    if t.unicode_len() != 1 {
        return false;
    }
    let c: char = t.get_char(0);
    let code: u32 = c as u32;
    0x20 <= code && code <= 0x7e
}

/// Adds the message for a command setting when it is not one printable
/// ASCII character.
fn check_command(errors: &mut Vec<String>, value: &String, name: &str)
    ensures
        final(errors).deep_view() == old(errors).deep_view() + command_errors(value@, name@),
{
    if !is_printable_command(value) {
        let msg = String::from_str(name).concat(": must be exactly 1 printable ASCII character");
        errors.push(msg);
    }
    assert(final(errors).deep_view() =~= old(errors).deep_view() + command_errors(value@, name@));
}

/// Lists what is wrong with a configuration; an empty list means it is usable.
pub fn validate_config(cfg: &Config) -> (errors: Vec<String>)
    ensures
        errors.deep_view() == config_errors(cfg@),
{
    let mut errors: Vec<String> = Vec::new();
    if cfg.baud_rate == 0 {
        errors.push(String::from_str("Baud rate must be a positive integer"));
    }
    assert(errors.deep_view() =~= (if cfg.baud_rate == 0 {
        seq![baud_rate_message()]
    } else {
        Seq::empty()
    }));
    check_command(&mut errors, &cfg.cmd_lower_a, "cmd_lower_a");
    check_command(&mut errors, &cfg.cmd_lower_b, "cmd_lower_b");
    check_command(&mut errors, &cfg.cmd_raise_a, "cmd_raise_a");
    check_command(&mut errors, &cfg.cmd_raise_b, "cmd_raise_b");
    errors
}

/// `x` brought into `lo..=hi`.
pub open spec fn clamp_spec(x: u32, lo: u32, hi: u32) -> u32 {
    if x < lo {
        lo
    } else if x > hi {
        hi
    } else {
        x
    }
}

/// The configuration with its intervals brought into range: sending every
/// 10 to 2000 ms, reconnecting every 500 to 30000 ms.
pub open spec fn clamped(c: ConfigView) -> ConfigView {
    ConfigView {
        send_interval_ms: clamp_spec(c.send_interval_ms, 10, 2000),
        reconnect_interval_ms: clamp_spec(c.reconnect_interval_ms, 500, 30000),
        ..c
    }
}

/// Both intervals lie in their ranges.
pub open spec fn intervals_in_range(c: ConfigView) -> bool {
    10 <= c.send_interval_ms <= 2000 && 500 <= c.reconnect_interval_ms <= 30000
}

fn clamp_u32(x: u32, lo: u32, hi: u32) -> (r: u32)
    requires
        lo <= hi,
    ensures
        r == clamp_spec(x, lo, hi),
{
    if x < lo {
        lo
    } else if x > hi {
        hi
    } else {
        x
    }
}

/// Brings the send interval into 10..=2000 ms and the reconnect interval
/// into 500..=30000 ms, leaving everything else as it was.
pub fn clamp_config(cfg: &mut Config)
    ensures
        final(cfg)@ == clamped(old(cfg)@),
{
    cfg.send_interval_ms = clamp_u32(cfg.send_interval_ms, 10, 2000);
    cfg.reconnect_interval_ms = clamp_u32(cfg.reconnect_interval_ms, 500, 30000);
}

/// Clamping puts both intervals in range, and clamps nothing that is in range:
/// clamping twice is clamping once.
pub proof fn lemma_clamp_laws(c: ConfigView)
    ensures
        intervals_in_range(clamped(c)),
        clamped(clamped(c)) == clamped(c),
        intervals_in_range(c) ==> clamped(c) == c,
{
}

/// What became of reading the config file.
pub enum ConfigLoad {
    /// There is no config file.
    Missing,
    /// The file exists but could not be read; the reason.
    ReadFailed(String),
    /// The file was read but is not a valid configuration; the reason.
    ParseFailed(String),
    /// The configuration the file holds.
    Parsed(Config),
}

/// The messages joined into one text, `sep` between each two.
pub open spec fn joined(msgs: Seq<Seq<char>>, sep: Seq<char>) -> Seq<char>
    decreases msgs.len(),
{
    if msgs.len() == 0 {
        Seq::empty()
    } else if msgs.len() == 1 {
        msgs[0]
    } else {
        joined(msgs.drop_last(), sep) + sep + msgs.last()
    }
}

/// The banner for a config file that parsed but breaks the rules of
/// `config_errors`: every message, separated by `; `.
pub open spec fn invalid_file_message(errs: Seq<Seq<char>>) -> Seq<char> {
    "Config invalid (using defaults): "@ + joined(errs, "; "@)
}

/// The configuration and the banner message that a load ends with.
pub open spec fn settled_load(default: ConfigView, outcome: ConfigLoad) -> (ConfigView, Option<Seq<char>>) {
    match outcome {
        ConfigLoad::Missing => (default, None),
        ConfigLoad::ReadFailed(e) => (default, Some("Could not read config: "@ + e@)),
        ConfigLoad::ParseFailed(e) => (default, Some("Config parse error (using defaults): "@ + e@)),
        ConfigLoad::Parsed(c) => if config_errors(c@).len() == 0 {
            (clamped(c@), None)
        } else {
            (default, Some(invalid_file_message(config_errors(c@))))
        },
    }
}

/// A configuration that breaks no rule and has both intervals in range.
pub open spec fn usable(c: ConfigView) -> bool {
    config_errors(c).len() == 0 && intervals_in_range(c)
}

/// The defaults are usable, whatever the config directory.
pub proof fn lemma_defaults_are_usable(config_dir: Seq<char>)
    ensures
        usable(default_config_view(config_dir)),
{
    reveal_strlit("a");
    reveal_strlit("b");
    reveal_strlit("A");
    reveal_strlit("B");
    let c = default_config_view(config_dir);
    assert(config_errors(c) =~= Seq::<Seq<char>>::empty());
}

/// Joins messages with `; ` between each two.
fn join_messages(msgs: &Vec<String>) -> (r: String)
    ensures
        r@ == joined(msgs.deep_view(), "; "@),
{
    let mut r = String::new();
    let n: usize = msgs.len();
    let mut i: usize = 0;
    let ghost all = msgs.deep_view();
    while i < n
        invariant
            n == msgs@.len(),
            all == msgs.deep_view(),
            i <= n,
            r@ == joined(all.take(i as int), "; "@),
        decreases n - i,
    {
        assert(all.take(i as int + 1).drop_last() =~= all.take(i as int));
        assert(all.take(i as int + 1).last() == msgs[i as int]@);
        if i > 0 {
            r.append("; ");
        } else {
            assert(r@ =~= Seq::<char>::empty());
        }
        r.append(msgs[i].as_str());
        i = i + 1;
    }
    assert(all.take(n as int) =~= all);
    r
}

/// Decides what a load of the config file ends with. A file that parsed and
/// breaks no rule of `config_errors` gives its configuration with the
/// intervals brought into range; otherwise the defaults are used, with a
/// message saying why when the file exists: it could not be read, not be
/// parsed, or breaks the rules. With usable defaults the result is usable.
pub fn settle_config_load(default: Config, outcome: ConfigLoad) -> (r: (Config, Option<String>))
    ensures
        (r.0@, match r.1 {
            Some(m) => Some(m@),
            None => None,
        }) == settled_load(default@, outcome),
        usable(default@) ==> usable(r.0@),
{
    match outcome {
        ConfigLoad::Missing => (default, None),
        ConfigLoad::ReadFailed(e) => {
            let msg = String::from_str("Could not read config: ").concat(e.as_str());
            (default, Some(msg))
        },
        ConfigLoad::ParseFailed(e) => {
            let msg = String::from_str("Config parse error (using defaults): ").concat(e.as_str());
            (default, Some(msg))
        },
        ConfigLoad::Parsed(c) => {
            let errors = validate_config(&c);
            if errors.len() == 0 {
                let mut c = c;
                clamp_config(&mut c);
                (c, None)
            } else {
                let msg = String::from_str("Config invalid (using defaults): ").concat(
                    join_messages(&errors).as_str(),
                );
                (default, Some(msg))
            }
        },
    }
}

/// A config file that parses and breaks no rule is taken over as it stands,
/// with no message: every field is the file's, but the send interval brought
/// into 10..=2000 ms and the retry interval into 500..=30000 ms. A usable
/// file is taken over exactly.
pub proof fn lemma_valid_file_taken_over(default: ConfigView, c: Config)
    requires
        config_errors(c@).len() == 0,
    ensures
        settled_load(default, ConfigLoad::Parsed(c)).1 is None,
        ({
            let r = settled_load(default, ConfigLoad::Parsed(c)).0;
            &&& r.port == c@.port
            &&& r.baud_rate == c@.baud_rate
            &&& r.config_dir == c@.config_dir
            &&& r.auto_reconnect == c@.auto_reconnect
            &&& r.cmd_lower_a == c@.cmd_lower_a
            &&& r.cmd_lower_b == c@.cmd_lower_b
            &&& r.cmd_raise_a == c@.cmd_raise_a
            &&& r.cmd_raise_b == c@.cmd_raise_b
            &&& r.send_interval_ms == (if c@.send_interval_ms < 10 {
                10
            } else if c@.send_interval_ms > 2000 {
                2000
            } else {
                c@.send_interval_ms
            })
            &&& r.reconnect_interval_ms == (if c@.reconnect_interval_ms < 500 {
                500
            } else if c@.reconnect_interval_ms > 30000 {
                30000
            } else {
                c@.reconnect_interval_ms
            })
        }),
        usable(c@) ==> settled_load(default, ConfigLoad::Parsed(c)).0 == c@,
{
}

/// Every load that does not end in a file breaking no rule gives the
/// defaults unchanged, and a message exactly when the file exists.
pub proof fn lemma_other_loads_give_defaults(default: ConfigView, outcome: ConfigLoad)
    requires
        !(outcome matches ConfigLoad::Parsed(c) && config_errors(c@).len() == 0),
    ensures
        settled_load(default, outcome).0 == default,
        settled_load(default, outcome).1 is None <==> outcome is Missing,
{
}

/// A configuration passes the checks exactly when its baud rate is positive
/// and each command is one character from space (0x20) to `~` (0x7e).
pub proof fn lemma_config_errors_empty_iff(c: ConfigView)
    ensures
        config_errors(c).len() == 0 <==> {
            &&& c.baud_rate > 0
            &&& c.cmd_lower_a.len() == 1 && 0x20 <= (c.cmd_lower_a[0] as u32) <= 0x7e
            &&& c.cmd_lower_b.len() == 1 && 0x20 <= (c.cmd_lower_b[0] as u32) <= 0x7e
            &&& c.cmd_raise_a.len() == 1 && 0x20 <= (c.cmd_raise_a[0] as u32) <= 0x7e
            &&& c.cmd_raise_b.len() == 1 && 0x20 <= (c.cmd_raise_b[0] as u32) <= 0x7e
        },
{
    let e0: Seq<Seq<char>> = if c.baud_rate == 0 {
        seq![baud_rate_message()]
    } else {
        Seq::empty()
    };
    let e1 = command_errors(c.cmd_lower_a, "cmd_lower_a"@);
    let e2 = command_errors(c.cmd_lower_b, "cmd_lower_b"@);
    let e3 = command_errors(c.cmd_raise_a, "cmd_raise_a"@);
    let e4 = command_errors(c.cmd_raise_b, "cmd_raise_b"@);
    assert(config_errors(c).len() == e0.len() + e1.len() + e2.len() + e3.len() + e4.len());
}

/// Clamping brings each interval to the nearest end of its range: a send
/// interval above 2000 ms becomes 2000 and one below 10 becomes 10, a retry
/// interval above 30000 ms becomes 30000 and one below 500 becomes 500;
/// nothing else changes.
pub proof fn lemma_clamp_to_nearest_end(c: ConfigView)
    ensures
        c.send_interval_ms > 2000 ==> clamped(c).send_interval_ms == 2000,
        c.send_interval_ms < 10 ==> clamped(c).send_interval_ms == 10,
        10 <= c.send_interval_ms <= 2000 ==> clamped(c).send_interval_ms == c.send_interval_ms,
        c.reconnect_interval_ms > 30000 ==> clamped(c).reconnect_interval_ms == 30000,
        c.reconnect_interval_ms < 500 ==> clamped(c).reconnect_interval_ms == 500,
        500 <= c.reconnect_interval_ms <= 30000 ==> clamped(c).reconnect_interval_ms
            == c.reconnect_interval_ms,
        (ConfigView { send_interval_ms: c.send_interval_ms, reconnect_interval_ms: c.reconnect_interval_ms, ..clamped(c) })
            == c,
{
}

} // verus!
