use vstd::prelude::*;
use vstd::string::StringExecFns;
use crate::config::{
    clamp_config, clamped, config_errors, intervals_in_range, validate_config, Config, ConfigView,
};
use crate::decimal::{decimal, decimal_string, lemma_parse_decimal_roundtrip, parse_u32, parse_u32_spec};

verus! {

/// The contents of the settings form while it is being edited: the texts
/// typed in, the checkbox, the messages shown and the ports offered.
pub struct SettingsState {
    pub port_input: String,
    pub baud_input: String,
    pub send_interval_input: String,
    pub reconnect_interval_input: String,
    pub cmd_lower_a: String,
    pub cmd_lower_b: String,
    pub cmd_raise_a: String,
    pub cmd_raise_b: String,
    pub config_dir_input: String,
    pub auto_reconnect: bool,
    pub errors: Vec<String>,
    pub available_ports: Vec<String>,
}

/// The mathematical value of the settings form.
pub struct SettingsView {
    pub port_input: Seq<char>,
    pub baud_input: Seq<char>,
    pub send_interval_input: Seq<char>,
    pub reconnect_interval_input: Seq<char>,
    pub cmd_lower_a: Seq<char>,
    pub cmd_lower_b: Seq<char>,
    pub cmd_raise_a: Seq<char>,
    pub cmd_raise_b: Seq<char>,
    pub config_dir_input: Seq<char>,
    pub auto_reconnect: bool,
    pub errors: Seq<Seq<char>>,
    pub available_ports: Seq<Seq<char>>,
}

impl View for SettingsState {
    type V = SettingsView;

    open spec fn view(&self) -> SettingsView {
        SettingsView {
            port_input: self.port_input@,
            baud_input: self.baud_input@,
            send_interval_input: self.send_interval_input@,
            reconnect_interval_input: self.reconnect_interval_input@,
            cmd_lower_a: self.cmd_lower_a@,
            cmd_lower_b: self.cmd_lower_b@,
            cmd_raise_a: self.cmd_raise_a@,
            cmd_raise_b: self.cmd_raise_b@,
            config_dir_input: self.config_dir_input@,
            auto_reconnect: self.auto_reconnect,
            errors: self.errors.deep_view(),
            available_ports: self.available_ports.deep_view(),
        }
    }
}

/// The form as it opens on a configuration: each field shows its setting,
/// numbers written in base ten, with no messages and the given ports offered.
pub open spec fn form_of(c: ConfigView, ports: Seq<Seq<char>>) -> SettingsView {
    SettingsView {
        port_input: c.port,
        baud_input: decimal(c.baud_rate as nat),
        send_interval_input: decimal(c.send_interval_ms as nat),
        reconnect_interval_input: decimal(c.reconnect_interval_ms as nat),
        cmd_lower_a: c.cmd_lower_a,
        cmd_lower_b: c.cmd_lower_b,
        cmd_raise_a: c.cmd_raise_a,
        cmd_raise_b: c.cmd_raise_b,
        config_dir_input: c.config_dir,
        auto_reconnect: c.auto_reconnect,
        errors: Seq::empty(),
        available_ports: ports,
    }
}

pub open spec fn baud_input_message() -> Seq<char> {
    "Baud rate: must be a positive integer"@
}

pub open spec fn send_interval_message() -> Seq<char> {
    "Send interval: must be an integer"@
}

pub open spec fn reconnect_interval_message() -> Seq<char> {
    "Reconnect interval: must be an integer"@
}

/// The configuration with every field that the form holds taken from it;
/// a number field whose text does not read as a number (the baud rate: as a
/// positive number) keeps its old value.
pub open spec fn form_fields_applied(s: SettingsView, c: ConfigView) -> ConfigView {
    ConfigView {
        port: s.port_input,
        auto_reconnect: s.auto_reconnect,
        config_dir: s.config_dir_input,
        baud_rate: match parse_u32_spec(s.baud_input) {
            Some(v) => if v > 0 {
                v
            } else {
                c.baud_rate
            },
            None => c.baud_rate,
        },
        send_interval_ms: match parse_u32_spec(s.send_interval_input) {
            Some(v) => v,
            None => c.send_interval_ms,
        },
        reconnect_interval_ms: match parse_u32_spec(s.reconnect_interval_input) {
            Some(v) => v,
            None => c.reconnect_interval_ms,
        },
        cmd_lower_a: s.cmd_lower_a,
        cmd_lower_b: s.cmd_lower_b,
        cmd_raise_a: s.cmd_raise_a,
        cmd_raise_b: s.cmd_raise_b,
    }
}

/// The messages for the number fields that do not read as numbers.
pub open spec fn form_input_errors(s: SettingsView) -> Seq<Seq<char>> {
    (match parse_u32_spec(s.baud_input) {
        Some(v) => if v > 0 {
            Seq::empty()
        } else {
            seq![baud_input_message()]
        },
        None => seq![baud_input_message()],
    }) + (if parse_u32_spec(s.send_interval_input) is Some {
        Seq::empty()
    } else {
        seq![send_interval_message()]
    }) + (if parse_u32_spec(s.reconnect_interval_input) is Some {
        Seq::empty()
    } else {
        seq![reconnect_interval_message()]
    })
}

/// All messages that applying the form gives: those of the number fields,
/// then those of checking the resulting configuration.
pub open spec fn form_errors(s: SettingsView, c: ConfigView) -> Seq<Seq<char>> {
    form_input_errors(s) + config_errors(form_fields_applied(s, c))
}

/// The configuration that applying the form leaves: the fields taken over,
/// and the intervals brought into range when there is no message.
pub open spec fn form_applied(s: SettingsView, c: ConfigView) -> ConfigView {
    if form_errors(s, c).len() == 0 {
        clamped(form_fields_applied(s, c))
    } else {
        form_fields_applied(s, c)
    }
}

impl SettingsState {
    /// Opens the form on a configuration, offering the given serial ports.
    pub fn from_config(cfg: &Config, available_ports: Vec<String>) -> (s: SettingsState)
        ensures
            s@ == form_of(cfg@, available_ports.deep_view()),
    {
        let s = SettingsState {
            port_input: cfg.port.clone(),
            baud_input: decimal_string(cfg.baud_rate as u64),
            send_interval_input: decimal_string(cfg.send_interval_ms as u64),
            reconnect_interval_input: decimal_string(cfg.reconnect_interval_ms as u64),
            cmd_lower_a: cfg.cmd_lower_a.clone(),
            cmd_lower_b: cfg.cmd_lower_b.clone(),
            cmd_raise_a: cfg.cmd_raise_a.clone(),
            cmd_raise_b: cfg.cmd_raise_b.clone(),
            config_dir_input: cfg.config_dir.clone(),
            auto_reconnect: cfg.auto_reconnect,
            errors: Vec::new(),
            available_ports,
        };
        assert(s@.errors =~= Seq::<Seq<char>>::empty());
        s
    }

    /// Writes the form into `cfg` and returns the messages for what was
    /// wrong; with no message the intervals are also brought into range.
    /// The fields are written whatever the messages, so a caller that wants
    /// to keep `cfg` on failure hands in a copy.
    pub fn apply_to_config(&self, cfg: &mut Config) -> (errors: Vec<String>)
        ensures
            errors.deep_view() == form_errors(self@, old(cfg)@),
            final(cfg)@ == form_applied(self@, old(cfg)@),
    {
        let ghost s = self@;
        let ghost c0 = old(cfg)@;
        let mut errors: Vec<String> = Vec::new();
        cfg.port = self.port_input.clone();
        cfg.auto_reconnect = self.auto_reconnect;
        cfg.config_dir = self.config_dir_input.clone();
        match parse_u32(self.baud_input.as_str()) {
            Some(v) => {
                if v > 0 {
                    cfg.baud_rate = v;
                } else {
                    errors.push(String::from_str("Baud rate: must be a positive integer"));
                }
            },
            None => {
                errors.push(String::from_str("Baud rate: must be a positive integer"));
            },
        }
        match parse_u32(self.send_interval_input.as_str()) {
            Some(v) => {
                cfg.send_interval_ms = v;
            },
            None => {
                errors.push(String::from_str("Send interval: must be an integer"));
            },
        }
        match parse_u32(self.reconnect_interval_input.as_str()) {
            Some(v) => {
                cfg.reconnect_interval_ms = v;
            },
            None => {
                errors.push(String::from_str("Reconnect interval: must be an integer"));
            },
        }
        cfg.cmd_lower_a = self.cmd_lower_a.clone();
        cfg.cmd_lower_b = self.cmd_lower_b.clone();
        cfg.cmd_raise_a = self.cmd_raise_a.clone();
        cfg.cmd_raise_b = self.cmd_raise_b.clone();
        assert(errors.deep_view() =~= form_input_errors(s));
        assert(cfg@ == form_fields_applied(s, c0));
        let val_errors = validate_config(cfg);
        let mut j: usize = 0;
        let m: usize = val_errors.len();
        let ghost before = errors.deep_view();
        while j < m
            invariant
                m == val_errors.len(),
                j <= m,
                errors.deep_view() =~= before + val_errors.deep_view().take(j as int),
            decreases m - j,
        {
            let ghost prev = errors.deep_view();
            errors.push(val_errors[j].clone());
            assert(errors.deep_view() =~= prev.push(val_errors.deep_view()[j as int]));
            j = j + 1;
        }
        assert(val_errors.deep_view().take(m as int) =~= val_errors.deep_view());
        if errors.len() == 0 {
            clamp_config(cfg);
        }
        errors
    }
}

/// Opening the form on a usable configuration whose intervals are in range
/// and applying it untouched, onto any configuration, gives no message and
/// gives back that same configuration.
pub proof fn lemma_form_roundtrip(c: ConfigView, target: ConfigView, ports: Seq<Seq<char>>)
    requires
        config_errors(c).len() == 0,
        intervals_in_range(c),
    ensures
        form_errors(form_of(c, ports), target).len() == 0,
        form_applied(form_of(c, ports), target) == c,
{
    lemma_parse_decimal_roundtrip(c.baud_rate);
    lemma_parse_decimal_roundtrip(c.send_interval_ms);
    lemma_parse_decimal_roundtrip(c.reconnect_interval_ms);
    let s = form_of(c, ports);
    assert(c.baud_rate > 0) by {
        if c.baud_rate == 0 {
            assert(config_errors(c).len() > 0);
        }
    }
    assert(form_fields_applied(s, target) == c);
    assert(form_input_errors(s) =~= Seq::<Seq<char>>::empty());
}

/// A form applied without a message leaves a usable configuration with its
/// intervals in range.
pub proof fn lemma_applied_form_is_usable(s: SettingsView, c: ConfigView)
    requires
        form_errors(s, c).len() == 0,
    ensures
        config_errors(form_applied(s, c)).len() == 0,
        intervals_in_range(form_applied(s, c)),
{
    let f = form_fields_applied(s, c);
    assert(config_errors(f).len() == 0);
    assert(config_errors(clamped(f)) =~= config_errors(f));
}

/// Applying a form that gives no message takes every field over as typed:
/// the texts and the checkbox as they stand, the baud rate as read (and
/// positive), the send interval as read but brought into 10..=2000 ms and the
/// retry interval as read but brought into 500..=30000 ms, a value above its
/// range becoming the top and one below it the bottom. So a larger typed
/// interval never gives a smaller applied one.
pub proof fn lemma_apply_takes_typed_values(s: SettingsView, c: ConfigView)
    requires
        form_errors(s, c).len() == 0,
    ensures
        parse_u32_spec(s.baud_input) == Some(form_applied(s, c).baud_rate),
        form_applied(s, c).baud_rate > 0,
        parse_u32_spec(s.send_interval_input) is Some,
        parse_u32_spec(s.reconnect_interval_input) is Some,
        ({
            let v = parse_u32_spec(s.send_interval_input)->0;
            form_applied(s, c).send_interval_ms == (if v < 10 {
                10
            } else if v > 2000 {
                2000
            } else {
                v
            })
        }),
        ({
            let v = parse_u32_spec(s.reconnect_interval_input)->0;
            form_applied(s, c).reconnect_interval_ms == (if v < 500 {
                500
            } else if v > 30000 {
                30000
            } else {
                v
            })
        }),
        form_applied(s, c).port == s.port_input,
        form_applied(s, c).config_dir == s.config_dir_input,
        form_applied(s, c).auto_reconnect == s.auto_reconnect,
        form_applied(s, c).cmd_lower_a == s.cmd_lower_a,
        form_applied(s, c).cmd_lower_b == s.cmd_lower_b,
        form_applied(s, c).cmd_raise_a == s.cmd_raise_a,
        form_applied(s, c).cmd_raise_b == s.cmd_raise_b,
{
    assert(form_input_errors(s).len() == 0);
    if !(parse_u32_spec(s.baud_input) is Some && parse_u32_spec(s.baud_input)->0 > 0) {
        assert(form_input_errors(s).len() > 0);
    }
    if !(parse_u32_spec(s.send_interval_input) is Some) {
        assert(form_input_errors(s).len() > 0);
    }
    if !(parse_u32_spec(s.reconnect_interval_input) is Some) {
        assert(form_input_errors(s).len() > 0);
    }
}

/// Applying a form that gives a message clamps nothing: each interval that
/// reads as a number is taken over as read, and one that does not keeps the
/// configuration's old value.
pub proof fn lemma_apply_with_messages_does_not_clamp(s: SettingsView, c: ConfigView)
    requires
        form_errors(s, c).len() > 0,
    ensures
        parse_u32_spec(s.send_interval_input) is None ==> form_applied(s, c).send_interval_ms
            == c.send_interval_ms,
        parse_u32_spec(s.send_interval_input) matches Some(v) ==> form_applied(s, c).send_interval_ms
            == v,
        parse_u32_spec(s.reconnect_interval_input) matches Some(v) ==> form_applied(
            s,
            c,
        ).reconnect_interval_ms == v,
{
}

} // verus!
