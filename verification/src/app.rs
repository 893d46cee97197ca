use vstd::prelude::*;
use vstd::string::StringExecFns;
use vstd::utf8::{decode_utf8, valid_utf8};
use std::collections::VecDeque;
use crate::config::{config_path, joined_path, settle_config_load, settled_load, usable, Config, ConfigLoad, ConfigView};
use std::path::PathBuf;
use crate::decimal::{decimal, decimal_string};
use crate::protocol::{last_response, parse_response, DomeResponse};
use crate::serial::{ConnView, RxEvent, RxEventView, SerialConn};
use crate::settings::{form_applied, form_errors, form_of, SettingsState, SettingsView};

verus! {

/// The page on screen.
#[derive(Debug, Clone, Copy, PartialEq, Eq, Structural)]
pub enum Page {
    Main,
    Settings,
    Info,
}

/// The four motor commands.
#[derive(Debug, Clone, Copy, PartialEq, Eq, Structural)]
pub enum CmdKey {
    LowerA,
    LowerB,
    RaiseA,
    RaiseB,
}

/// The setting that holds the command text of `key`.
pub open spec fn command_text(key: CmdKey, c: ConfigView) -> Seq<char> {
    match key {
        CmdKey::LowerA => c.cmd_lower_a,
        CmdKey::LowerB => c.cmd_lower_b,
        CmdKey::RaiseA => c.cmd_raise_a,
        CmdKey::RaiseB => c.cmd_raise_b,
    }
}

/// The character sent for `key`: the first character of its setting, or `?`
/// when the setting is empty.
pub open spec fn command_char(key: CmdKey, c: ConfigView) -> char {
    let s = command_text(key, c);
    if s.len() > 0 {
        s[0]
    } else {
        '?'
    }
}

/// The byte that goes on the wire for a command character: its low eight bits.
pub open spec fn command_byte(ch: char) -> u8 {
    ((ch as u32) % 256) as u8
}

impl CmdKey {
    /// The character configured for this command, `?` when its setting is empty.
    pub fn to_char(&self, cfg: &Config) -> (ch: char)
        ensures
            ch == command_char(*self, cfg@),
    {
        let s: &String = match self {
            CmdKey::LowerA => &cfg.cmd_lower_a,
            CmdKey::LowerB => &cfg.cmd_lower_b,
            CmdKey::RaiseA => &cfg.cmd_raise_a,
            CmdKey::RaiseB => &cfg.cmd_raise_b,
        };
        let t = s.as_str();
        if t.unicode_len() > 0 {
            t.get_char(0)
        } else {
            '?'
        }
    }
}

/// Whether a motor command is being sent, which one, and when its byte is
/// next due (milliseconds on the program's clock).
#[derive(Debug, Clone, Copy, PartialEq, Eq, Structural)]
pub enum HoldState {
    Idle,
    Sending { cmd_key: CmdKey, next_send: u64 },
}

/// The most lines the received-data log keeps.
pub const LOG_LIMIT: usize = 200;

/// The whole state of the program but for the open port and the reading
/// thread, which the caller keeps beside it.
pub struct AppState {
    pub page: Page,
    pub conn: SerialConn,
    pub cfg: Config,
    pub hold: HoldState,
    pub response: DomeResponse,
    pub log: VecDeque<String>,
    pub banner: Option<String>,
    pub settings_state: Option<SettingsState>,
}

/// The part of the state that the link and the motor buttons change.
pub struct SessionView {
    pub conn: ConnView,
    pub hold: HoldState,
    pub response: DomeResponse,
    pub log: Seq<Seq<char>>,
}

/// A motor command is held only while the link is open.
pub open spec fn hold_needs_link(s: SessionView) -> bool {
    s.hold is Sending ==> s.conn is Connected
}

/// Whether a motor button counts as pressed: the pointer is down on it and
/// still inside it, and the button is enabled, which it is only while the
/// link is open.
pub open spec fn pressed(pointer_down: bool, pointer_inside: bool, conn: ConnView) -> bool {
    pointer_down && pointer_inside && conn is Connected
}

/// The session with another hold.
pub open spec fn with_hold(s: SessionView, hold: HoldState) -> SessionView {
    SessionView { hold: hold, ..s }
}

/// The session with another link state.
pub open spec fn with_conn(s: SessionView, conn: ConnView) -> SessionView {
    SessionView { conn: conn, ..s }
}

/// A time on the program's clock to which any interval of the settings can
/// be added without leaving 64 bits.
pub open spec fn time_fits(t: u64) -> bool {
    t <= u64::MAX - u32::MAX
}

/// The text that a received chunk shows in the log: its bytes decoded as
/// UTF-8, each invalid sequence replaced by U+FFFD.
pub uninterp spec fn lossy_text(bytes: Seq<u8>) -> Seq<char>;

/// Decodes received bytes for the log.
/// Calls std's `String::from_utf8_lossy`, whose result depends on the bytes
/// alone; the contract names it `lossy_text` and states that valid UTF-8 is
/// decoded as it stands. How invalid sequences are replaced is left unsaid.
#[verifier::external_body]
fn text_of_bytes(bytes: &[u8]) -> (s: String)
    ensures
        s@ == lossy_text(bytes@),
        valid_utf8(bytes@) ==> s@ == decode_utf8(bytes@),
{
    String::from_utf8_lossy(bytes).into_owned()
}

/// The log with only its last `LOG_LIMIT` lines kept.
pub open spec fn trim_log(l: Seq<Seq<char>>) -> Seq<Seq<char>> {
    if l.len() > LOG_LIMIT {
        l.subrange(l.len() - LOG_LIMIT, l.len() as int)
    } else {
        l
    }
}

/// A chunk of bytes arrives: the last `Y` or `X` in it sets the report, and
/// its text is added to the log.
pub open spec fn data_session(s: SessionView, bytes: Seq<u8>) -> SessionView {
    SessionView {
        response: match last_response(bytes) {
            Some(r) => r,
            None => s.response,
        },
        log: trim_log(s.log.push(lossy_text(bytes))),
        ..s
    }
}

/// The link fails at `now` for `reason`: the motor stops, and the link is
/// retried after the reconnect interval when auto-reconnect is on, or left in
/// error otherwise.
pub open spec fn failed_session(s: SessionView, reason: Seq<char>, cfg: ConfigView, now: u64) -> SessionView {
    SessionView {
        hold: HoldState::Idle,
        conn: if cfg.auto_reconnect {
            ConnView::Reconnecting {
                reason: reason,
                reconnect_at: (now + cfg.reconnect_interval_ms) as u64,
            }
        } else {
            ConnView::Error(reason)
        },
        ..s
    }
}

/// The session after the events, taken in order; the first failure ends it
/// and the events after it are dropped.
pub open spec fn drained(s: SessionView, events: Seq<RxEventView>, cfg: ConfigView, now: u64) -> SessionView
    decreases events.len(),
{
    if events.len() == 0 {
        s
    } else {
        match events[0] {
            RxEventView::Data(b) => drained(data_session(s, b), events.drop_first(), cfg, now),
            RxEventView::Error(e) => failed_session(s, e, cfg, now),
        }
    }
}

/// The views of a list of received events.
pub open spec fn event_views(events: Seq<RxEvent>) -> Seq<RxEventView> {
    events.map_values(|e: RxEvent| e@)
}

/// Whether the motor button `key` is the one held.
pub open spec fn held(hold: HoldState, key: CmdKey) -> bool {
    hold matches HoldState::Sending { cmd_key, .. } && cmd_key == key
}

/// The hold after the button `key` reports whether it is pressed (see
/// `pressed`): pressing it starts its command, due at once; letting it go, or
/// leaving it, stops it.
pub open spec fn hold_after_input(hold: HoldState, key: CmdKey, down: bool, now: u64) -> HoldState {
    if down {
        if held(hold, key) {
            hold
        } else {
            HoldState::Sending { cmd_key: key, next_send: now }
        }
    } else if held(hold, key) {
        HoldState::Idle
    } else {
        hold
    }
}

/// What the sending loop does at a given moment.
#[derive(Debug, Clone, Copy, PartialEq, Eq, Structural)]
pub enum HoldTick {
    /// No command is held.
    Idle,
    /// The next byte is due at `until`.
    Wait { until: u64 },
    /// The byte is due now.
    Send { byte: u8 },
}

pub open spec fn hold_tick_spec(hold: HoldState, cfg: ConfigView, now: u64) -> HoldTick {
    match hold {
        HoldState::Idle => HoldTick::Idle,
        HoldState::Sending { cmd_key, next_send } => if now < next_send {
            HoldTick::Wait { until: next_send }
        } else {
            HoldTick::Send { byte: command_byte(command_char(cmd_key, cfg)) }
        },
    }
}

/// The hold after its byte went out at `sent_at`: the next byte is due one
/// send interval later.
pub open spec fn hold_after_send(hold: HoldState, cfg: ConfigView, sent_at: u64) -> HoldState {
    match hold {
        HoldState::Idle => HoldState::Idle,
        HoldState::Sending { cmd_key, .. } => HoldState::Sending {
            cmd_key,
            next_send: (sent_at + cfg.send_interval_ms) as u64,
        },
    }
}

/// What the reconnect loop does at a given moment.
#[derive(Debug, Clone, Copy, PartialEq, Eq, Structural)]
pub enum ReconnectTick {
    /// The link is not being retried.
    Idle,
    /// A retry is pending but not yet due; look again in half a second.
    Wait,
    /// The retry is due: try to open the port now.
    Attempt,
}

pub open spec fn reconnect_tick_spec(conn: ConnView, now: u64) -> ReconnectTick {
    match conn {
        ConnView::Reconnecting { reconnect_at, .. } => if now < reconnect_at {
            ReconnectTick::Wait
        } else {
            ReconnectTick::Attempt
        },
        _ => ReconnectTick::Idle,
    }
}

/// The link after a retry that ended at `now`: open, or retried again one
/// reconnect interval later with the first failure's reason.
pub open spec fn conn_after_retry(conn: ConnView, cfg: ConfigView, connected: bool, now: u64) -> ConnView {
    if connected {
        ConnView::Connected
    } else {
        ConnView::Reconnecting {
            reason: match conn {
                ConnView::Reconnecting { reason, .. } => reason,
                _ => Seq::empty(),
            },
            reconnect_at: (now + cfg.reconnect_interval_ms) as u64,
        }
    }
}

/// The link after the connection button is clicked: an open or retrying link
/// is closed; any other is left for the caller to open.
pub open spec fn conn_after_click(conn: ConnView) -> ConnView {
    match conn {
        ConnView::Connected => ConnView::Disconnected,
        ConnView::Reconnecting { .. } => ConnView::Disconnected,
        _ => conn,
    }
}

/// Whether clicking the connection button asks for the port to be opened.
pub open spec fn click_opens(conn: ConnView) -> bool {
    !(conn is Connected || conn is Reconnecting)
}

/// The label of the connection button.
pub open spec fn connection_label_spec(conn: ConnView) -> Seq<char> {
    match conn {
        ConnView::Connected => "Disconnect"@,
        ConnView::Reconnecting { .. } => "Cancel"@,
        _ => "Connect"@,
    }
}

/// The whole seconds from `now` until `at`, none when `at` has passed.
pub open spec fn seconds_until(at: u64, now: u64) -> nat {
    if at > now {
        ((at - now) as nat) / 1000
    } else {
        0
    }
}

/// The status line for the link.
pub open spec fn status_text_spec(conn: ConnView, now: u64) -> Seq<char> {
    match conn {
        ConnView::Connected => "CONNECTED"@,
        ConnView::Reconnecting { reconnect_at, .. } => "Reconnecting…  ("@ + decimal(
            seconds_until(reconnect_at, now),
        ) + "s)"@,
        ConnView::Error(e) => "ERROR: "@ + e,
        ConnView::Disconnected => "DISCONNECTED"@,
    }
}

/// The line that shows the controller's report.
pub open spec fn response_text_spec(r: DomeResponse) -> Seq<char> {
    match r {
        DomeResponse::Open => "OPEN detected  (Y)"@,
        DomeResponse::Closed => "CLOSED detected  (X)"@,
        DomeResponse::Unknown => "—"@,
    }
}

/// The text that shows the controller's report.
pub fn response_text(r: DomeResponse) -> (t: &'static str)
    ensures
        t@ == response_text_spec(r),
{
    match r {
        DomeResponse::Open => "OPEN detected  (Y)",
        DomeResponse::Closed => "CLOSED detected  (X)",
        DomeResponse::Unknown => "—",
    }
}

/// The buttons of the settings page.
#[derive(Debug, Clone, Copy, PartialEq, Eq, Structural)]
pub enum SettingsAction {
    /// Use the form's settings.
    Apply,
    /// Use them and write them to a file.
    SaveToFile,
    /// Use them and return to the main page.
    Back,
}

/// Whether every event is a chunk of data.
pub open spec fn all_data(events: Seq<RxEventView>) -> bool {
    forall|i: int| 0 <= i < events.len() ==> #[trigger] events[i] is Data
}

/// The bytes of all data chunks, in order.
pub open spec fn data_bytes(events: Seq<RxEventView>) -> Seq<u8>
    decreases events.len(),
{
    if events.len() == 0 {
        Seq::empty()
    } else {
        match events[0] {
            RxEventView::Data(b) => b + data_bytes(events.drop_first()),
            RxEventView::Error(_) => data_bytes(events.drop_first()),
        }
    }
}

/// However the received bytes are cut into chunks, the report after taking
/// them in is the last `Y` or `X` among all of them, or the earlier report
/// when there is none.
pub proof fn lemma_report_ignores_chunking(s: SessionView, events: Seq<RxEventView>, cfg: ConfigView, now: u64)
    requires
        all_data(events),
    ensures
        drained(s, events, cfg, now).response == (match last_response(data_bytes(events)) {
            Some(r) => r,
            None => s.response,
        }),
    decreases events.len(),
{
    if events.len() > 0 {
        let rest = events.drop_first();
        assert(events[0] is Data);
        assert(all_data(rest)) by {
            assert forall|i: int| 0 <= i < rest.len() implies #[trigger] rest[i] is Data by {
                assert(rest[i] == events[i + 1]);
            }
        }
        match events[0] {
            RxEventView::Data(b) => {
                lemma_report_ignores_chunking(data_session(s, b), rest, cfg, now);
                crate::protocol::lemma_last_response_concat(b, data_bytes(rest));
            },
            RxEventView::Error(_) => {},
        }
    }
}

/// The log never grows beyond `LOG_LIMIT` lines.
pub proof fn lemma_log_stays_bounded(s: SessionView, events: Seq<RxEventView>, cfg: ConfigView, now: u64)
    requires
        s.log.len() <= LOG_LIMIT,
    ensures
        drained(s, events, cfg, now).log.len() <= LOG_LIMIT,
    decreases events.len(),
{
    if events.len() > 0 {
        match events[0] {
            RxEventView::Data(b) => {
                lemma_log_stays_bounded(data_session(s, b), events.drop_first(), cfg, now);
            },
            RxEventView::Error(_) => {},
        }
    }
}

/// A failure ends the taking in of events: whatever follows it is dropped,
/// and afterwards no motor command is held.
pub proof fn lemma_failure_ends_events(
    s: SessionView,
    before: Seq<RxEventView>,
    e: Seq<char>,
    after: Seq<RxEventView>,
    cfg: ConfigView,
    now: u64,
)
    ensures
        drained(s, before + seq![RxEventView::Error(e)] + after, cfg, now) == drained(
            s,
            before + seq![RxEventView::Error(e)],
            cfg,
            now,
        ),
        drained(s, before + seq![RxEventView::Error(e)], cfg, now).hold == HoldState::Idle,
    decreases before.len(),
{
    let whole = before + seq![RxEventView::Error(e)] + after;
    let cut = before + seq![RxEventView::Error(e)];
    if before.len() == 0 {
        assert(whole[0] == RxEventView::Error(e));
        assert(cut[0] == RxEventView::Error(e));
    } else {
        assert(whole[0] == before[0]);
        assert(cut[0] == before[0]);
        assert(whole.drop_first() =~= before.drop_first() + seq![RxEventView::Error(e)] + after);
        assert(cut.drop_first() =~= before.drop_first() + seq![RxEventView::Error(e)]);
        match before[0] {
            RxEventView::Data(b) => {
                lemma_failure_ends_events(data_session(s, b), before.drop_first(), e, after, cfg, now);
            },
            RxEventView::Error(_) => {},
        }
    }
}

/// A manual disconnect or a cancel is final: the closed link is never
/// retried on its own, and the click does not ask for the port to be opened.
pub proof fn lemma_manual_disconnect_stops_retrying(conn: ConnView, now: u64)
    requires
        conn is Connected || conn is Reconnecting,
    ensures
        conn_after_click(conn) == ConnView::Disconnected,
        reconnect_tick_spec(conn_after_click(conn), now) == ReconnectTick::Idle,
        !click_opens(conn),
{
}

/// While a motor button is held its byte is repeated once per send interval:
/// after a byte goes out at `sent_at` the next is not due before
/// `sent_at + send_interval_ms`, and is due, the same byte, from then on.
pub proof fn lemma_send_is_paced(hold: HoldState, cfg: ConfigView, sent_at: u64, now: u64)
    requires
        hold is Sending,
        time_fits(sent_at),
    ensures
        now < sent_at + cfg.send_interval_ms ==> hold_tick_spec(hold_after_send(hold, cfg, sent_at), cfg, now)
            is Wait,
        now >= sent_at + cfg.send_interval_ms ==> hold_tick_spec(hold_after_send(hold, cfg, sent_at), cfg, now)
            == (HoldTick::Send { byte: command_byte(command_char(hold->cmd_key, cfg)) }),
{
}

/// After a failure with auto-reconnect on, the link is retried once the
/// reconnect interval has passed and not before; with it off, never.
pub proof fn lemma_failure_retry_schedule(s: SessionView, reason: Seq<char>, cfg: ConfigView, failed_at: u64, now: u64)
    requires
        time_fits(failed_at),
    ensures
        cfg.auto_reconnect ==> reconnect_tick_spec(failed_session(s, reason, cfg, failed_at).conn, now) == (if now
            < failed_at + cfg.reconnect_interval_ms {
            ReconnectTick::Wait
        } else {
            ReconnectTick::Attempt
        }),
        !cfg.auto_reconnect ==> reconnect_tick_spec(failed_session(s, reason, cfg, failed_at).conn, now)
            == ReconnectTick::Idle,
{
}

/// Only one motor command is active at a time: once the pointer is down on a
/// button, that button's command is the one held, and no other.
pub proof fn lemma_one_command_at_a_time(hold: HoldState, key: CmdKey, now: u64, other: CmdKey)
    ensures
        held(hold_after_input(hold, key, true, now), other) <==> other == key,
{
}

/// Taking in received events keeps a motor command held only while the link
/// is open.
pub proof fn lemma_drained_keeps_hold_link(s: SessionView, events: Seq<RxEventView>, cfg: ConfigView, now: u64)
    requires
        hold_needs_link(s),
    ensures
        hold_needs_link(drained(s, events, cfg, now)),
    decreases events.len(),
{
    if events.len() > 0 {
        match events[0] {
            RxEventView::Data(b) => {
                lemma_drained_keeps_hold_link(data_session(s, b), events.drop_first(), cfg, now);
            },
            RxEventView::Error(_) => {},
        }
    }
}

/// A motor command is held only while the link is open. Every step that
/// changes the link or the hold keeps this: a button press (a button counts
/// as pressed only while the link is open), a byte sent, a failure, received
/// events, a retry, the connection button and the end of opening the port,
/// and switching auto-reconnect off. The program starts with nothing held.
pub proof fn lemma_held_only_while_connected(s: SessionView, cfg: ConfigView)
    requires
        hold_needs_link(s),
    ensures
        forall|key: CmdKey, down: bool, inside: bool, now: u64|
            hold_needs_link(
                with_hold(s, #[trigger] hold_after_input(s.hold, key, pressed(down, inside, s.conn), now)),
            ),
        forall|sent_at: u64| hold_needs_link(with_hold(s, #[trigger] hold_after_send(s.hold, cfg, sent_at))),
        forall|reason: Seq<char>, now: u64| hold_needs_link(#[trigger] failed_session(s, reason, cfg, now)),
        forall|events: Seq<RxEventView>, now: u64| hold_needs_link(#[trigger] drained(s, events, cfg, now)),
        s.conn is Reconnecting ==> forall|connected: bool, now: u64|
            hold_needs_link(with_conn(s, #[trigger] conn_after_retry(s.conn, cfg, connected, now))),
        hold_needs_link(with_hold(with_conn(s, conn_after_click(s.conn)), HoldState::Idle)),
        click_opens(s.conn) ==> forall|c: ConnView| hold_needs_link(#[trigger] with_conn(s, c)),
        s.conn is Reconnecting ==> forall|reason: Seq<char>|
            hold_needs_link(#[trigger] with_conn(s, ConnView::Error(reason))),
{
    assert forall|events: Seq<RxEventView>, now: u64| hold_needs_link(#[trigger] drained(s, events, cfg, now)) by {
        lemma_drained_keeps_hold_link(s, events, cfg, now);
    }
}

/// The sending loop sends only the held command's byte, and only when due:
/// with nothing held it does nothing; it waits exactly until the held
/// command's due time; and a byte it sends is the low eight bits of the first
/// character of that command's setting (`?` for an empty setting).
pub proof fn lemma_hold_tick_sends_only_held_byte(hold: HoldState, cfg: ConfigView, now: u64)
    ensures
        hold is Idle ==> hold_tick_spec(hold, cfg, now) == HoldTick::Idle,
        hold_tick_spec(hold, cfg, now) is Idle ==> hold is Idle,
        hold_tick_spec(hold, cfg, now) matches HoldTick::Wait { until } ==> (hold matches HoldState::Sending {
            next_send,
            ..
        } && until == next_send && now < next_send),
        hold_tick_spec(hold, cfg, now) matches HoldTick::Send { byte } ==> (hold matches HoldState::Sending {
            cmd_key,
            next_send,
        } && next_send <= now && ({
            let text = match cmd_key {
                CmdKey::LowerA => cfg.cmd_lower_a,
                CmdKey::LowerB => cfg.cmd_lower_b,
                CmdKey::RaiseA => cfg.cmd_raise_a,
                CmdKey::RaiseB => cfg.cmd_raise_b,
            };
            let ch = if text.len() > 0 {
                text[0]
            } else {
                '?'
            };
            byte as int == (ch as u32) as int % 256
        })),
{
    match hold {
        HoldState::Idle => {},
        HoldState::Sending { cmd_key, next_send } => {
            let ch = command_char(cmd_key, cfg);
            let code: u32 = ch as u32;
            assert(((code % 256) as u8) as int == code as int % 256);
        },
    }
}

/// Only a link that is being retried is ever retried: the reconnect loop does
/// nothing for any other link, and for a retrying one it waits before the
/// retry time and asks to open the port from then on.
pub proof fn lemma_only_retrying_link_is_retried(conn: ConnView, now: u64)
    ensures
        reconnect_tick_spec(conn, now) != ReconnectTick::Idle <==> conn is Reconnecting,
        reconnect_tick_spec(conn, now) == ReconnectTick::Attempt <==> (conn matches ConnView::Reconnecting {
            reconnect_at,
            ..
        } && reconnect_at <= now),
{
}

/// A motor button holds its command exactly while it is pressed: pressing it
/// (pointer down, inside, link open) makes its command the held one, keeping
/// the due time when it was held already; a button that is let go, left, or
/// disabled because the link is not open is never the held one afterwards;
/// and letting go of one button leaves another's command as it was.
pub proof fn lemma_button_holds_while_pressed(
    hold: HoldState,
    key: CmdKey,
    down: bool,
    inside: bool,
    conn: ConnView,
    now: u64,
)
    ensures
        (down && inside && conn is Connected) ==> (hold_after_input(hold, key, pressed(down, inside, conn), now)
            matches HoldState::Sending { cmd_key, .. } && cmd_key == key),
        (down && inside && conn is Connected && (hold matches HoldState::Sending { cmd_key, .. }
            && cmd_key == key)) ==> hold_after_input(hold, key, pressed(down, inside, conn), now) == hold,
        (down && inside && conn is Connected && !(hold matches HoldState::Sending { cmd_key, .. }
            && cmd_key == key)) ==> hold_after_input(hold, key, pressed(down, inside, conn), now)
            == (HoldState::Sending { cmd_key: key, next_send: now }),
        !(down && inside && conn is Connected) ==> !(hold_after_input(
            hold,
            key,
            pressed(down, inside, conn),
            now,
        ) matches HoldState::Sending { cmd_key, .. } && cmd_key == key),
        !(down && inside && conn is Connected) && !(hold matches HoldState::Sending { cmd_key, .. }
            && cmd_key == key) ==> hold_after_input(hold, key, pressed(down, inside, conn), now) == hold,
{
}

/// A retry that ends opens the link when the port opened; otherwise the link
/// is retried again one reconnect interval after the retry ended, for the
/// reason of the first failure.
pub proof fn lemma_retry_outcome(reason: Seq<char>, at: u64, cfg: ConfigView, connected: bool, now: u64)
    ensures
        connected ==> conn_after_retry(ConnView::Reconnecting { reason, reconnect_at: at }, cfg, connected, now)
            == ConnView::Connected,
        !connected ==> conn_after_retry(
            ConnView::Reconnecting { reason, reconnect_at: at },
            cfg,
            connected,
            now,
        ) == (ConnView::Reconnecting { reason, reconnect_at: (now + cfg.reconnect_interval_ms) as u64 }),
{
}

/// A link failure stops the motor and keeps the report and the log; the link
/// is then retried one reconnect interval later for that reason when
/// auto-reconnect is on, and left in error for that reason otherwise.
pub proof fn lemma_failure_outcome(s: SessionView, reason: Seq<char>, cfg: ConfigView, now: u64)
    ensures
        failed_session(s, reason, cfg, now).hold == HoldState::Idle,
        failed_session(s, reason, cfg, now).response == s.response,
        failed_session(s, reason, cfg, now).log == s.log,
        cfg.auto_reconnect ==> failed_session(s, reason, cfg, now).conn == (ConnView::Reconnecting {
            reason,
            reconnect_at: (now + cfg.reconnect_interval_ms) as u64,
        }),
        !cfg.auto_reconnect ==> failed_session(s, reason, cfg, now).conn == ConnView::Error(reason),
{
}

/// A received chunk adds its text as the newest log line, dropping only the
/// oldest lines beyond the limit, and leaves the link and the hold alone.
pub proof fn lemma_chunk_is_logged(s: SessionView, bytes: Seq<u8>)
    ensures
        data_session(s, bytes).log.len() > 0,
        data_session(s, bytes).log.last() == lossy_text(bytes),
        s.log.len() < LOG_LIMIT ==> data_session(s, bytes).log == s.log.push(lossy_text(bytes)),
        data_session(s, bytes).log.len() <= LOG_LIMIT || data_session(s, bytes).log.len() == s.log.len() + 1,
        data_session(s, bytes).conn == s.conn,
        data_session(s, bytes).hold == s.hold,
{
}

/// The connection button opens only a closed link and closes any other: on a
/// link that is disconnected or in error it leaves the link as it is and asks
/// for the port to be opened.
pub proof fn lemma_click_on_closed_link_opens(conn: ConnView)
    requires
        conn is Disconnected || conn is Error,
    ensures
        click_opens(conn),
        conn_after_click(conn) == conn,
{
}

/// Adds a line to the log and drops the oldest lines beyond `LOG_LIMIT`.
fn push_log_line(log: &mut VecDeque<String>, line: String)
    ensures
        final(log).deep_view() == trim_log(old(log).deep_view().push(line@)),
{
    let ghost before = log.deep_view();
    log.push_back(line);
    let ghost full = log.deep_view();
    assert(full =~= before.push(line@));
    while log.len() > LOG_LIMIT
        invariant
            full.len() >= log@.len(),
            log.deep_view() =~= full.subrange(full.len() - log@.len(), full.len() as int),
            full.len() > LOG_LIMIT ==> log@.len() >= LOG_LIMIT,
            full.len() <= LOG_LIMIT ==> log@.len() == full.len(),
        decreases log@.len(),
    {
        let ghost prev = log.deep_view();
        log.pop_front();
        assert(log.deep_view() =~= prev.subrange(1, prev.len() as int));
    }
}

impl AppState {
    /// The part of the state that the link and the motor buttons change.
    pub open spec fn session(&self) -> SessionView {
        SessionView {
            conn: self.conn@,
            hold: self.hold,
            response: self.response,
            log: self.log.deep_view(),
        }
    }

    /// The page, the settings, the banner and the settings form are those of `other`.
    pub open spec fn same_outside_session(&self, other: &AppState) -> bool {
        &&& self.page == other.page
        &&& self.cfg == other.cfg
        &&& self.banner == other.banner
        &&& self.settings_state == other.settings_state
    }

    /// The program as it starts: main page, link closed, no command held,
    /// no report, empty log, with the loaded settings and banner.
    pub fn new(cfg: Config, banner: Option<String>) -> (s: AppState)
        ensures
            hold_needs_link(s.session()),
            s.page == Page::Main,
            s.conn@ == ConnView::Disconnected,
            s.cfg == cfg,
            s.hold == HoldState::Idle,
            s.response == DomeResponse::Unknown,
            s.log@.len() == 0,
            s.banner == banner,
            s.settings_state is None,
    {
        AppState {
            page: Page::Main,
            conn: SerialConn::Disconnected,
            cfg,
            hold: HoldState::Idle,
            response: DomeResponse::Unknown,
            log: VecDeque::new(),
            banner,
            settings_state: None,
        }
    }

    /// Once per frame: a link that is being retried while auto-reconnect has
    /// been switched off is left in error, with the reason it failed.
    pub fn logic(&mut self)
        ensures
            hold_needs_link(old(self).session()) ==> hold_needs_link(final(self).session()),
            final(self).conn@ == (match old(self).conn@ {
                ConnView::Reconnecting { reason, .. } => if !old(self).cfg.auto_reconnect {
                    ConnView::Error(reason)
                } else {
                    old(self).conn@
                },
                c => c,
            }),
            final(self).hold == old(self).hold,
            final(self).response == old(self).response,
            final(self).log == old(self).log,
            final(self).same_outside_session(old(self)),
    {
        let mut error_reason: Option<String> = None;
        match &self.conn {
            SerialConn::Reconnecting { reason, .. } => {
                if !self.cfg.auto_reconnect {
                    error_reason = Some(reason.clone());
                }
            },
            _ => {},
        }
        match error_reason {
            Some(reason) => {
                self.conn = SerialConn::Error(reason);
            },
            None => {},
        }
    }

    /// The link fails at `now` for `reason`; see `failed_session`.
    pub fn link_failed(&mut self, reason: String, now: u64)
        requires
            time_fits(now),
        ensures
            hold_needs_link(old(self).session()) ==> hold_needs_link(final(self).session()),
            final(self).session() == failed_session(old(self).session(), reason@, old(self).cfg@, now),
            final(self).same_outside_session(old(self)),
    {
        self.hold = HoldState::Idle;
        if self.cfg.auto_reconnect {
            let at: u64 = now + self.cfg.reconnect_interval_ms as u64;
            self.conn = SerialConn::Reconnecting { reason, reconnect_at: at };
        } else {
            self.conn = SerialConn::Error(reason);
        }
    }

    /// Takes in what the reading thread handed over, in order, while the link
    /// is open: each chunk may set the report and adds a log line; a failure
    /// stops the motor, fails the link and drops the events after it. While
    /// the link is not open nothing changes.
    pub fn receive_events(&mut self, events: Vec<RxEvent>, now: u64)
        requires
            time_fits(now),
        ensures
            hold_needs_link(old(self).session()) ==> hold_needs_link(final(self).session()),
            old(self).conn@ is Connected ==> final(self).session() == drained(
                old(self).session(),
                event_views(events@),
                old(self).cfg@,
                now,
            ),
            !(old(self).conn@ is Connected) ==> final(self).session() == old(self).session(),
            final(self).same_outside_session(old(self)),
    {
        if !self.conn.is_connected() {
            return;
        }
        let ghost evs = event_views(events@);
        let ghost start = self.session();
        let ghost cfg0 = self.cfg@;
        let n: usize = events.len();
        let mut i: usize = 0;
        assert(evs.skip(0) =~= evs);
        proof {
            if hold_needs_link(start) {
                lemma_drained_keeps_hold_link(start, evs, cfg0, now);
            }
        }
        while i < n
            invariant
                n == events@.len(),
                i <= n,
                evs == event_views(events@),
                time_fits(now),
                old(self).conn@ is Connected,
                start == old(self).session(),
                hold_needs_link(start) ==> hold_needs_link(drained(start, evs, cfg0, now)),
                cfg0 == old(self).cfg@,
                cfg0 == self.cfg@,
                self.same_outside_session(old(self)),
                drained(start, evs, cfg0, now) == drained(self.session(), evs.skip(i as int), cfg0, now),
            decreases n - i,
        {
            assert(evs.skip(i as int)[0] == events@[i as int]@);
            assert(evs.skip(i as int).drop_first() =~= evs.skip(i as int + 1));
            match &events[i] {
                RxEvent::Data(bytes) => {
                    let ghost s0 = self.session();
                    match parse_response(bytes.as_slice()) {
                        Some(r) => {
                            self.response = r;
                        },
                        None => {},
                    }
                    let line = text_of_bytes(bytes.as_slice());
                    push_log_line(&mut self.log, line);
                    assert(self.session() == data_session(s0, bytes@));
                },
                RxEvent::Error(e) => {
                    let reason = e.clone();
                    self.link_failed(reason, now);
                    return;
                },
            }
            i = i + 1;
        }
        assert(evs.skip(n as int) =~= Seq::<RxEventView>::empty());
    }

    /// Whether the motor button `key` is the one held.
    pub fn is_held(&self, key: CmdKey) -> (b: bool)
        ensures
            b == held(self.hold, key),
    {
        match self.hold {
            HoldState::Sending { cmd_key, .. } => cmd_key == key,
            HoldState::Idle => false,
        }
    }

    /// The motor button `key` reports at `now` whether the pointer is down on
    /// it; see `hold_after_input`. Only one command is ever held.
    pub fn motor_button_input(&mut self, key: CmdKey, pointer_down: bool, pointer_inside: bool, now: u64)
        ensures
            hold_needs_link(old(self).session()) ==> hold_needs_link(final(self).session()),
            final(self).hold == hold_after_input(
                old(self).hold,
                key,
                pressed(pointer_down, pointer_inside, old(self).conn@),
                now,
            ),
            final(self).conn == old(self).conn,
            final(self).response == old(self).response,
            final(self).log == old(self).log,
            final(self).same_outside_session(old(self)),
    {
        let is_held = self.is_held(key);
        let pressed: bool = pointer_down && pointer_inside && self.conn.is_connected();
        if pressed {
            if !is_held {
                self.hold = HoldState::Sending { cmd_key: key, next_send: now };
            }
        } else if is_held {
            self.hold = HoldState::Idle;
        }
    }

    /// The abort button: stops all motor output at once and leaves the link
    /// as it is.
    pub fn abort(&mut self)
        ensures
            hold_needs_link(old(self).session()) ==> hold_needs_link(final(self).session()),
            final(self).hold == HoldState::Idle,
            final(self).conn == old(self).conn,
            final(self).response == old(self).response,
            final(self).log == old(self).log,
            final(self).same_outside_session(old(self)),
    {
        self.hold = HoldState::Idle;
    }

    /// What the sending loop does at `now`: nothing when no command is held,
    /// wait while the next byte is not due, and otherwise send the low byte
    /// of the held command's character.
    pub fn hold_tick(&self, now: u64) -> (t: HoldTick)
        ensures
            t == hold_tick_spec(self.hold, self.cfg@, now),
    {
        match self.hold {
            HoldState::Idle => HoldTick::Idle,
            HoldState::Sending { cmd_key, next_send } => {
                if now < next_send {
                    HoldTick::Wait { until: next_send }
                } else {
                    let ch: char = cmd_key.to_char(&self.cfg);
                    let code: u32 = ch as u32;
                    HoldTick::Send { byte: (code % 256) as u8 }
                }
            },
        }
    }

    /// The byte that `hold_tick` asked for at `sent_at` was written, or failed
    /// at `now`: on success the next byte is due one send interval after
    /// `sent_at`; on failure the link fails for the write error's reason.
    pub fn hold_write_finished(&mut self, sent_at: u64, result: Result<(), String>, now: u64)
        requires
            time_fits(sent_at),
            time_fits(now),
        ensures
            hold_needs_link(old(self).session()) ==> hold_needs_link(final(self).session()),
            match result {
                Ok(()) => {
                    &&& final(self).hold == hold_after_send(old(self).hold, old(self).cfg@, sent_at)
                    &&& final(self).conn == old(self).conn
                    &&& final(self).response == old(self).response
                    &&& final(self).log == old(self).log
                },
                Err(e) => final(self).session() == failed_session(
                    old(self).session(),
                    e@,
                    old(self).cfg@,
                    now,
                ),
            },
            final(self).same_outside_session(old(self)),
    {
        match result {
            Ok(()) => {
                match self.hold {
                    HoldState::Sending { cmd_key, .. } => {
                        let next: u64 = sent_at + self.cfg.send_interval_ms as u64;
                        self.hold = HoldState::Sending { cmd_key, next_send: next };
                    },
                    HoldState::Idle => {},
                }
            },
            Err(e) => {
                self.link_failed(e, now);
            },
        }
    }

    /// What the reconnect loop does at `now`.
    pub fn reconnect_tick(&self, now: u64) -> (t: ReconnectTick)
        ensures
            t == reconnect_tick_spec(self.conn@, now),
    {
        match &self.conn {
            SerialConn::Reconnecting { reconnect_at, .. } => {
                if now < *reconnect_at {
                    ReconnectTick::Wait
                } else {
                    ReconnectTick::Attempt
                }
            },
            _ => ReconnectTick::Idle,
        }
    }

    /// A retry that `reconnect_tick` asked for ended at `now`, opening the port
    /// or not; see `conn_after_retry`.
    pub fn reconnect_finished(&mut self, connected: bool, now: u64)
        requires
            old(self).conn@ is Reconnecting,
            time_fits(now),
        ensures
            hold_needs_link(old(self).session()) ==> hold_needs_link(final(self).session()),
            final(self).conn@ == conn_after_retry(old(self).conn@, old(self).cfg@, connected, now),
            final(self).hold == old(self).hold,
            final(self).response == old(self).response,
            final(self).log == old(self).log,
            final(self).same_outside_session(old(self)),
    {
        if connected {
            self.conn = SerialConn::Connected;
        } else {
            let reason: String = match &self.conn {
                SerialConn::Reconnecting { reason, .. } => reason.clone(),
                _ => String::new(),
            };
            let at: u64 = now + self.cfg.reconnect_interval_ms as u64;
            self.conn = SerialConn::Reconnecting { reason, reconnect_at: at };
        }
    }

    /// The label of the connection button.
    pub fn connection_button_label(&self) -> (t: &'static str)
        ensures
            t@ == connection_label_spec(self.conn@),
    {
        match &self.conn {
            SerialConn::Connected => "Disconnect",
            SerialConn::Reconnecting { .. } => "Cancel",
            _ => "Connect",
        }
    }

    /// The connection button is clicked: the motor stops; an open or retrying
    /// link is closed, and otherwise the result asks the caller to open the port.
    pub fn connection_button_clicked(&mut self) -> (open: bool)
        ensures
            hold_needs_link(old(self).session()) ==> hold_needs_link(final(self).session()),
            open == click_opens(old(self).conn@),
            final(self).conn@ == conn_after_click(old(self).conn@),
            final(self).hold == HoldState::Idle,
            final(self).response == old(self).response,
            final(self).log == old(self).log,
            final(self).same_outside_session(old(self)),
    {
        self.hold = HoldState::Idle;
        let close: bool = match &self.conn {
            SerialConn::Connected => true,
            SerialConn::Reconnecting { .. } => true,
            _ => false,
        };
        if close {
            self.conn = SerialConn::Disconnected;
        }
        !close
    }

    /// Opening the port ended: open, or in error with the reason.
    pub fn connect_finished(&mut self, outcome: Result<(), String>)
        requires
            click_opens(old(self).conn@),
        ensures
            hold_needs_link(old(self).session()) ==> hold_needs_link(final(self).session()),
            final(self).conn@ == (match outcome {
                Ok(()) => ConnView::Connected,
                Err(e) => ConnView::Error(e@),
            }),
            final(self).hold == old(self).hold,
            final(self).response == old(self).response,
            final(self).log == old(self).log,
            final(self).same_outside_session(old(self)),
    {
        match outcome {
            Ok(()) => {
                self.conn = SerialConn::Connected;
            },
            Err(e) => {
                self.conn = SerialConn::Error(e);
            },
        }
    }

    /// The status line at `now`.
    pub fn status_text(&self, now: u64) -> (t: String)
        ensures
            t@ == status_text_spec(self.conn@, now),
    {
        match &self.conn {
            SerialConn::Connected => String::from_str("CONNECTED"),
            SerialConn::Reconnecting { reconnect_at, .. } => {
                let wait: u64 = if *reconnect_at > now {
                    *reconnect_at - now
                } else {
                    0
                };
                let secs = decimal_string(wait / 1000);
                String::from_str("Reconnecting…  (").concat(secs.as_str()).concat("s)")
            },
            SerialConn::Error(e) => String::from_str("ERROR: ").concat(e.as_str()),
            SerialConn::Disconnected => String::from_str("DISCONNECTED"),
        }
    }

    /// The file that "Load Config" and "Save Config" on the main page read and
    /// write: `config.json` in the configured config directory.
    pub fn config_file_path(&self) -> (p: PathBuf)
        ensures
            p == joined_path(self.cfg.config_dir@, "config.json"@),
    {
        config_path(&self.cfg)
    }

    /// A load of the config file ended: the settings and the banner become
    /// what `settle_config_load` decides, so with usable defaults the
    /// settings stay usable.
    pub fn config_loaded(&mut self, default: Config, outcome: ConfigLoad)
        ensures
            ({
                let r = settled_load(default@, outcome);
                &&& final(self).cfg@ == r.0
                &&& match final(self).banner {
                    Some(m) => r.1 == Some(m@),
                    None => r.1 is None,
                }
            }),
            usable(default@) ==> usable(final(self).cfg@),
            final(self).page == old(self).page,
            final(self).settings_state == old(self).settings_state,
            final(self).session() == old(self).session(),
            hold_needs_link(old(self).session()) ==> hold_needs_link(final(self).session()),
    {
        let (cfg, banner) = settle_config_load(default, outcome);
        self.cfg = cfg;
        self.banner = banner;
    }

    /// The outcome of saving the settings from the main page: the banner shows
    /// the error, or nothing on success.
    pub fn record_save_result(&mut self, result: Result<(), String>)
        ensures
            hold_needs_link(old(self).session()) ==> hold_needs_link(final(self).session()),
            final(self).banner == (match result {
                Ok(()) => None,
                Err(e) => Some(e),
            }),
            final(self).page == old(self).page,
            final(self).cfg == old(self).cfg,
            final(self).settings_state == old(self).settings_state,
            final(self).session() == old(self).session(),
    {
        match result {
            Ok(()) => {
                self.banner = None;
            },
            Err(e) => {
                self.banner = Some(e);
            },
        }
    }

    /// Opens the settings form on the current settings, with the given ports
    /// offered, unless a form is already open.
    pub fn open_settings(&mut self, available_ports: Vec<String>)
        ensures
            hold_needs_link(old(self).session()) ==> hold_needs_link(final(self).session()),
            old(self).settings_state is None ==> (final(self).settings_state matches Some(f) && f@
                == form_of(old(self).cfg@, available_ports.deep_view())),
            old(self).settings_state is Some ==> final(self).settings_state == old(
                self,
            ).settings_state,
            final(self).page == old(self).page,
            final(self).cfg == old(self).cfg,
            final(self).banner == old(self).banner,
            final(self).session() == old(self).session(),
    {
        if self.settings_state.is_none() {
            self.settings_state = Some(SettingsState::from_config(&self.cfg, available_ports));
        }
    }

    /// A button of the settings page: the form is applied to a copy of the
    /// settings. With no message the copy becomes the settings and then
    /// `Apply` clears the form's messages, `Back` closes the form and returns
    /// to the main page, and `SaveToFile` asks the caller (by the result) to
    /// write the settings to a file. With messages the settings stay and the
    /// form shows the messages.
    pub fn settings_action(&mut self, action: SettingsAction) -> (save: bool)
        requires
            old(self).settings_state is Some,
        ensures
            hold_needs_link(old(self).session()) ==> hold_needs_link(final(self).session()),
            ({
                let f = old(self).settings_state->0@;
                let c = old(self).cfg@;
                let errs = form_errors(f, c);
                if errs.len() == 0 {
                    &&& final(self).cfg@ == form_applied(f, c)
                    &&& save == (action == SettingsAction::SaveToFile)
                    &&& match action {
                        SettingsAction::Apply => {
                            &&& final(self).page == old(self).page
                            &&& final(self).settings_state matches Some(g) && g@ == (SettingsView {
                                errors: Seq::empty(),
                                ..f
                            })
                        },
                        SettingsAction::SaveToFile => {
                            &&& final(self).page == old(self).page
                            &&& final(self).settings_state == old(self).settings_state
                        },
                        SettingsAction::Back => {
                            &&& final(self).page == Page::Main
                            &&& final(self).settings_state is None
                        },
                    }
                } else {
                    &&& final(self).cfg == old(self).cfg
                    &&& !save
                    &&& final(self).page == old(self).page
                    &&& final(self).settings_state matches Some(g) && g@ == (SettingsView {
                        errors: errs,
                        ..f
                    })
                }
            }),
            final(self).banner == old(self).banner,
            final(self).session() == old(self).session(),
    {
        let mut cfg = self.cfg.clone();
        let mut form = match self.settings_state.take() {
            Some(f) => f,
            None => SettingsState::from_config(&cfg, Vec::new()),
        };
        let errors = form.apply_to_config(&mut cfg);
        if errors.len() == 0 {
            self.cfg = cfg;
            match action {
                SettingsAction::Apply => {
                    form.errors.clear();
                    assert(form.errors.deep_view() =~= Seq::<Seq<char>>::empty());
                    self.settings_state = Some(form);
                    false
                },
                SettingsAction::SaveToFile => {
                    self.settings_state = Some(form);
                    true
                },
                SettingsAction::Back => {
                    self.page = Page::Main;
                    false
                },
            }
        } else {
            form.errors = errors;
            self.settings_state = Some(form);
            false
        }
    }

    /// Writing the settings file from the settings page failed: the form shows
    /// the error alone.
    pub fn settings_save_failed(&mut self, error: String)
        requires
            old(self).settings_state is Some,
        ensures
            hold_needs_link(old(self).session()) ==> hold_needs_link(final(self).session()),
            final(self).settings_state matches Some(g) && g@ == (SettingsView {
                errors: seq![error@],
                ..old(self).settings_state->0@
            }),
            final(self).page == old(self).page,
            final(self).cfg == old(self).cfg,
            final(self).banner == old(self).banner,
            final(self).session() == old(self).session(),
    {
        let mut errors: Vec<String> = Vec::new();
        errors.push(error);
        assert(errors.deep_view() =~= seq![error@]);
        match self.settings_state.take() {
            Some(mut f) => {
                f.errors = errors;
                self.settings_state = Some(f);
            },
            None => {},
        }
    }
}

/// The countdown shows whole seconds left, rounded down, and zero once the
/// retry time has passed.
pub proof fn lemma_countdown_rounds_down(at: u64, now: u64)
    ensures
        at <= now ==> seconds_until(at, now) == 0,
        at > now ==> seconds_until(at, now) * 1000 <= at - now < (seconds_until(at, now) + 1) * 1000,
{
}

} // verus!
