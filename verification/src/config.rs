//! Application configuration and its key/value storage form.
//!
//! The configuration is stored as rows of the SQLite `config` table
//! (`key`, `value`); `to_rows` gives the rows that saving writes and
//! `from_rows` rebuilds a configuration from the rows that loading reads.
use vstd::prelude::*;
use crate::text::{chars_of, owned, push_char, str_eq};

verus! {

broadcast use vstd::string::group_string_axioms;

/// Default port of the LAN WebSocket server.
pub const DEFAULT_PORT: u16 = 8765;

/// Default OpenAI-compatible endpoint.
pub const DEFAULT_AI_BASE_URL: &'static str = "https://api.deepseek.com/v1";

/// Default model name.
pub const DEFAULT_AI_MODEL: &'static str = "deepseek-chat";

/// How phones reach the desktop.
#[derive(Debug, Clone, Copy, PartialEq, Eq, Structural)]
pub enum ConnectionMode {
    Lan,
    Relay,
}

/// The application configuration.
#[derive(Debug, Clone)]
pub struct AppConfig {
    /// base_url of the OpenAI-compatible API.
    pub ai_base_url: String,
    pub ai_api_key: String,
    /// Model name, e.g. deepseek-chat / gpt-4o.
    pub ai_model: String,
    pub server_port: u16,
    pub connection_mode: ConnectionMode,
    pub relay_server_url: String,
    pub relay_room_id: String,
    pub relay_secret_key: String,
    /// Directory of the chat history files; `None` means the default one.
    pub storage_dir: Option<String>,
}

/// The configuration as mathematical values.
pub struct AppConfigView {
    pub ai_base_url: Seq<char>,
    pub ai_api_key: Seq<char>,
    pub ai_model: Seq<char>,
    pub server_port: u16,
    pub connection_mode: ConnectionMode,
    pub relay_server_url: Seq<char>,
    pub relay_room_id: Seq<char>,
    pub relay_secret_key: Seq<char>,
    pub storage_dir: Option<Seq<char>>,
}

/// The view of an optional string.
pub open spec fn opt_view(o: Option<String>) -> Option<Seq<char>> {
    match o {
        Some(s) => Some(s@),
        None => None,
    }
}

impl View for AppConfig {
    type V = AppConfigView;

    open spec fn view(&self) -> AppConfigView {
        AppConfigView {
            ai_base_url: self.ai_base_url@,
            ai_api_key: self.ai_api_key@,
            ai_model: self.ai_model@,
            server_port: self.server_port,
            connection_mode: self.connection_mode,
            relay_server_url: self.relay_server_url@,
            relay_room_id: self.relay_room_id@,
            relay_secret_key: self.relay_secret_key@,
            storage_dir: opt_view(self.storage_dir),
        }
    }
}

/// The default configuration.
pub open spec fn default_config() -> AppConfigView {
    AppConfigView {
        ai_base_url: DEFAULT_AI_BASE_URL@,
        ai_api_key: Seq::empty(),
        ai_model: DEFAULT_AI_MODEL@,
        server_port: DEFAULT_PORT,
        connection_mode: ConnectionMode::Lan,
        relay_server_url: Seq::empty(),
        relay_room_id: Seq::empty(),
        relay_secret_key: Seq::empty(),
        storage_dir: None,
    }
}

impl Default for AppConfig {
    fn default() -> (c: Self)
        ensures
            c@ == default_config(),
    {
        AppConfig {
            ai_base_url: owned(DEFAULT_AI_BASE_URL),
            ai_api_key: String::new(),
            ai_model: owned(DEFAULT_AI_MODEL),
            server_port: DEFAULT_PORT,
            connection_mode: ConnectionMode::Lan,
            relay_server_url: String::new(),
            relay_room_id: String::new(),
            relay_secret_key: String::new(),
            storage_dir: None,
        }
    }
}

// ---------------------------------------------------------------------------
// Decimal numbers
// ---------------------------------------------------------------------------

/// The decimal digit for `d < 10`.
pub open spec fn digit_char(d: nat) -> char {
    if d == 0 {
        '0'
    } else if d == 1 {
        '1'
    } else if d == 2 {
        '2'
    } else if d == 3 {
        '3'
    } else if d == 4 {
        '4'
    } else if d == 5 {
        '5'
    } else if d == 6 {
        '6'
    } else if d == 7 {
        '7'
    } else if d == 8 {
        '8'
    } else {
        '9'
    }
}

/// `c` is one of `0`..`9`.
pub open spec fn is_digit(c: char) -> bool {
    '0' <= c <= '9'
}

/// The value of a decimal digit.
pub open spec fn digit_value(c: char) -> nat {
    (c as nat - '0' as nat) as nat
}

/// Decimal form of `n` without leading zeros (what `to_string` gives).
pub open spec fn dec_digits(n: nat) -> Seq<char>
    decreases n,
{
    if n < 10 {
        seq![digit_char(n)]
    } else {
        dec_digits(n / 10).push(digit_char(n % 10))
    }
}

/// Every character of `s` is a decimal digit.
pub open spec fn all_digits(s: Seq<char>) -> bool {
    forall|i: int| 0 <= i < s.len() ==> is_digit(#[trigger] s[i])
}

/// The number that the decimal digits `s` denote.
pub open spec fn dec_value(s: Seq<char>) -> nat
    decreases s.len(),
{
    if s.len() == 0 {
        0
    } else {
        dec_value(s.drop_last()) * 10 + digit_value(s.last())
    }
}

/// What `str::parse::<u16>` gives: an optional `+`, then at least one
/// decimal digit, and a value that fits in 16 bits.
pub open spec fn parse_u16(s: Seq<char>) -> Option<u16> {
    parse_digits(
        if s.len() > 0 && s[0] == '+' {
            s.drop_first()
        } else {
            s
        },
    )
}

/// The value of a non-empty run of decimal digits that fits in 16 bits.
pub open spec fn parse_digits(d: Seq<char>) -> Option<u16> {
    if d.len() > 0 && all_digits(d) && dec_value(d) <= 65535 {
        Some(dec_value(d) as u16)
    } else {
        None
    }
}

proof fn lemma_dec_digits(n: nat)
    ensures
        dec_digits(n).len() > 0,
        all_digits(dec_digits(n)),
        dec_value(dec_digits(n)) == n,
    decreases n,
{
    assert(n % 10 < 10);
    assert(digit_value(digit_char(n % 10)) == n % 10);
    if n >= 10 {
        lemma_dec_digits(n / 10);
        assert(n == (n / 10) * 10 + n % 10);
        let s = dec_digits(n);
        assert(s.drop_last() == dec_digits(n / 10));
        assert(s.last() == digit_char(n % 10));
        assert(digit_value(digit_char(n % 10)) == n % 10);
        assert(all_digits(s)) by {
            assert forall|i: int| 0 <= i < s.len() implies is_digit(#[trigger] s[i]) by {
                if i < s.len() - 1 {
                    assert(s[i] == dec_digits(n / 10)[i]);
                }
            }
        }
        assert(dec_value(s) == dec_value(s.drop_last()) * 10 + digit_value(s.last()));
    } else {
        let s = dec_digits(n);
        assert(s.drop_last() =~= Seq::<char>::empty());
        assert(dec_value(s.drop_last()) == 0);
        assert(dec_value(s) == dec_value(s.drop_last()) * 10 + digit_value(s.last()));
    }
}

/// Decimal text of a number parses back to that number.
pub proof fn lemma_parse_u16_dec_digits(n: u16)
    ensures
        parse_u16(dec_digits(n as nat)) == Some(n),
{
    lemma_dec_digits(n as nat);
    let s = dec_digits(n as nat);
    assert(is_digit(s[0]));
}

fn push_decimal(s: &mut String, n: u16)
    ensures
        final(s)@ == old(s)@ + dec_digits(n as nat),
    decreases n,
{
    if n >= 10 {
        push_decimal(s, n / 10);
    }
    push_char(s, digit_to_char(n % 10));
}

fn digit_to_char(d: u16) -> (c: char)
    requires
        d < 10,
    ensures
        c == digit_char(d as nat),
{
    match d {
        0 => '0',
        1 => '1',
        2 => '2',
        3 => '3',
        4 => '4',
        5 => '5',
        6 => '6',
        7 => '7',
        8 => '8',
        _ => '9',
    }
}

/// The decimal text of `n` (`n.to_string()`).
pub fn u16_to_decimal(n: u16) -> (r: String)
    ensures
        r@ == dec_digits(n as nat),
{
    let mut r = String::new();
    push_decimal(&mut r, n);
    r
}

/// Parses a port number as `str::parse::<u16>` does.
pub fn parse_port(s: &str) -> (r: Option<u16>)
    ensures
        r == parse_u16(s@),
{
    let v = chars_of(s);
    let start: usize = if v.len() > 0 && v[0] == '+' {
        1
    } else {
        0
    };
    let ghost d = if s@.len() > 0 && s@[0] == '+' {
        s@.drop_first()
    } else {
        s@
    };
    assert(d == v@.subrange(start as int, v@.len() as int));
    if start >= v.len() {
        return None;
    }
    // `acc` is the value of the digits read so far, capped at 65536.
    let mut acc: u32 = 0;
    let mut i = start;
    while i < v.len()
        invariant
            start <= i <= v@.len(),
            v@ == s@,
            d == v@.subrange(start as int, v@.len() as int),
            parse_u16(s@) == parse_digits(d),
            d.len() > 0,
            all_digits(v@.subrange(start as int, i as int)),
            acc as nat == if dec_value(v@.subrange(start as int, i as int)) < 65536 {
                dec_value(v@.subrange(start as int, i as int))
            } else {
                65536
            },
        decreases v@.len() - i,
    {
        let c = v[i];
        if !('0' <= c && c <= '9') {
            assert(d[i - start] == c);
            return None;
        }
        let ghost pre = v@.subrange(start as int, i as int);
        let ghost next = v@.subrange(start as int, i + 1);
        assert(next.drop_last() == pre);
        assert(next.last() == c);
        let dv = (c as u32) - ('0' as u32);
        let t = acc * 10 + dv;
        acc = if t > 65536 {
            65536
        } else {
            t
        };
        i = i + 1;
        assert(all_digits(next)) by {
            assert forall|j: int| 0 <= j < next.len() implies is_digit(#[trigger] next[j]) by {
                if j < pre.len() {
                    assert(next[j] == pre[j]);
                }
            }
        }
    }
    if acc <= 65535 {
        Some(acc as u16)
    } else {
        None
    }
}

// ---------------------------------------------------------------------------
// Key/value rows
// ---------------------------------------------------------------------------

/// The text stored for a connection mode.
pub open spec fn mode_text(m: ConnectionMode) -> Seq<char> {
    match m {
        ConnectionMode::Lan => "lan"@,
        ConnectionMode::Relay => "relay"@,
    }
}

/// The rows that saving a configuration writes, in the order written.
pub open spec fn config_rows(c: AppConfigView) -> Seq<(Seq<char>, Seq<char>)> {
    seq![
        ("ai_base_url"@, c.ai_base_url),
        ("ai_api_key"@, c.ai_api_key),
        ("ai_model"@, c.ai_model),
        ("server_port"@, dec_digits(c.server_port as nat)),
        ("connection_mode"@, mode_text(c.connection_mode)),
        ("relay_server_url"@, c.relay_server_url),
        ("relay_room_id"@, c.relay_room_id),
        ("relay_secret_key"@, c.relay_secret_key),
        ("storage_dir"@, match c.storage_dir {
            Some(d) => d,
            None => Seq::empty(),
        }),
    ]
}

/// What loading does with one row: the known keys set their field, other
/// keys are ignored.
pub open spec fn apply_row(c: AppConfigView, k: Seq<char>, v: Seq<char>) -> AppConfigView {
    if k == "ai_base_url"@ {
        AppConfigView { ai_base_url: v, ..c }
    } else if k == "ai_api_key"@ {
        AppConfigView { ai_api_key: v, ..c }
    } else if k == "ai_model"@ {
        AppConfigView { ai_model: v, ..c }
    } else if k == "server_port"@ {
        AppConfigView {
            server_port: match parse_u16(v) {
                Some(p) => p,
                None => DEFAULT_PORT,
            },
            ..c
        }
    } else if k == "connection_mode"@ {
        AppConfigView {
            connection_mode: if v == "relay"@ {
                ConnectionMode::Relay
            } else {
                ConnectionMode::Lan
            },
            ..c
        }
    } else if k == "relay_server_url"@ {
        AppConfigView { relay_server_url: v, ..c }
    } else if k == "relay_room_id"@ {
        AppConfigView { relay_room_id: v, ..c }
    } else if k == "relay_secret_key"@ {
        AppConfigView { relay_secret_key: v, ..c }
    } else if k == "storage_dir"@ {
        AppConfigView {
            storage_dir: if v.len() == 0 {
                None
            } else {
                Some(v)
            },
            ..c
        }
    } else {
        c
    }
}

/// Applies the rows in order to `c`.
pub open spec fn apply_rows(c: AppConfigView, rows: Seq<(Seq<char>, Seq<char>)>) -> AppConfigView
    decreases rows.len(),
{
    if rows.len() == 0 {
        c
    } else {
        let r = rows.last();
        apply_row(apply_rows(c, rows.drop_last()), r.0, r.1)
    }
}

/// The views of stored rows.
pub open spec fn rows_view(rows: Seq<(String, String)>) -> Seq<(Seq<char>, Seq<char>)> {
    rows.map_values(|r: (String, String)| (r.0@, r.1@))
}

impl AppConfig {
    /// The rows that saving writes to the `config` table.
    pub fn to_rows(&self) -> (rows: Vec<(String, String)>)
        ensures
            rows_view(rows@) == config_rows(self@),
    {
        let mut rows: Vec<(String, String)> = Vec::new();
        rows.push((owned("ai_base_url"), self.ai_base_url.clone()));
        rows.push((owned("ai_api_key"), self.ai_api_key.clone()));
        rows.push((owned("ai_model"), self.ai_model.clone()));
        rows.push((owned("server_port"), u16_to_decimal(self.server_port)));
        let mode = match self.connection_mode {
            ConnectionMode::Lan => owned("lan"),
            ConnectionMode::Relay => owned("relay"),
        };
        rows.push((owned("connection_mode"), mode));
        rows.push((owned("relay_server_url"), self.relay_server_url.clone()));
        rows.push((owned("relay_room_id"), self.relay_room_id.clone()));
        rows.push((owned("relay_secret_key"), self.relay_secret_key.clone()));
        let dir = match &self.storage_dir {
            Some(d) => d.clone(),
            None => String::new(),
        };
        rows.push((owned("storage_dir"), dir));
        assert(rows_view(rows@) =~= config_rows(self@));
        rows
    }

    /// Sets the field that `key` names to `value`, as loading does.
    pub fn apply_row(&mut self, key: &str, value: &str)
        ensures
            final(self)@ == apply_row(old(self)@, key@, value@),
    {
        if str_eq(key, "ai_base_url") {
            self.ai_base_url = owned(value);
        } else if str_eq(key, "ai_api_key") {
            self.ai_api_key = owned(value);
        } else if str_eq(key, "ai_model") {
            self.ai_model = owned(value);
        } else if str_eq(key, "server_port") {
            self.server_port = match parse_port(value) {
                Some(p) => p,
                None => DEFAULT_PORT,
            };
        } else if str_eq(key, "connection_mode") {
            self.connection_mode = if str_eq(value, "relay") {
                ConnectionMode::Relay
            } else {
                ConnectionMode::Lan
            };
        } else if str_eq(key, "relay_server_url") {
            self.relay_server_url = owned(value);
        } else if str_eq(key, "relay_room_id") {
            self.relay_room_id = owned(value);
        } else if str_eq(key, "relay_secret_key") {
            self.relay_secret_key = owned(value);
        } else if str_eq(key, "storage_dir") {
            self.storage_dir = if value.is_empty() {
                None
            } else {
                Some(owned(value))
            };
        }
    }

    /// The configuration that loading builds from the stored rows: the
    /// default one, with each row applied in order.
    pub fn from_rows(rows: &Vec<(String, String)>) -> (c: AppConfig)
        ensures
            c@ == apply_rows(default_config(), rows_view(rows@)),
    {
        let mut c = AppConfig::default();
        let mut i: usize = 0;
        while i < rows.len()
            invariant
                i <= rows@.len(),
                c@ == apply_rows(default_config(), rows_view(rows@.take(i as int))),
            decreases rows@.len() - i,
        {
            let row = &rows[i];
            c.apply_row(row.0.as_str(), row.1.as_str());
            assert(rows_view(rows@.take(i + 1)).drop_last() =~= rows_view(rows@.take(i as int)));
            i = i + 1;
        }
        assert(rows@.take(rows@.len() as int) =~= rows@);
        c
    }
}

proof fn lemma_keys_distinct()
    ensures
        "ai_api_key"@ != "ai_base_url"@,
        "ai_model"@ != "ai_base_url"@,
        "ai_model"@ != "ai_api_key"@,
        "server_port"@ != "ai_base_url"@,
        "server_port"@ != "ai_api_key"@,
        "server_port"@ != "ai_model"@,
        "connection_mode"@ != "ai_base_url"@,
        "connection_mode"@ != "ai_api_key"@,
        "connection_mode"@ != "ai_model"@,
        "connection_mode"@ != "server_port"@,
        "relay_server_url"@ != "ai_base_url"@,
        "relay_server_url"@ != "ai_api_key"@,
        "relay_server_url"@ != "ai_model"@,
        "relay_server_url"@ != "server_port"@,
        "relay_server_url"@ != "connection_mode"@,
        "relay_room_id"@ != "ai_base_url"@,
        "relay_room_id"@ != "ai_api_key"@,
        "relay_room_id"@ != "ai_model"@,
        "relay_room_id"@ != "server_port"@,
        "relay_room_id"@ != "connection_mode"@,
        "relay_room_id"@ != "relay_server_url"@,
        "relay_secret_key"@ != "ai_base_url"@,
        "relay_secret_key"@ != "ai_api_key"@,
        "relay_secret_key"@ != "ai_model"@,
        "relay_secret_key"@ != "server_port"@,
        "relay_secret_key"@ != "connection_mode"@,
        "relay_secret_key"@ != "relay_server_url"@,
        "relay_secret_key"@ != "relay_room_id"@,
        "storage_dir"@ != "ai_base_url"@,
        "storage_dir"@ != "ai_api_key"@,
        "storage_dir"@ != "ai_model"@,
        "storage_dir"@ != "server_port"@,
        "storage_dir"@ != "connection_mode"@,
        "storage_dir"@ != "relay_server_url"@,
        "storage_dir"@ != "relay_room_id"@,
        "storage_dir"@ != "relay_secret_key"@,
        "lan"@ != "relay"@,
{
    reveal_strlit("ai_base_url");
    reveal_strlit("ai_api_key");
    reveal_strlit("ai_model");
    reveal_strlit("server_port");
    reveal_strlit("connection_mode");
    reveal_strlit("relay_server_url");
    reveal_strlit("relay_room_id");
    reveal_strlit("relay_secret_key");
    reveal_strlit("storage_dir");
    reveal_strlit("lan");
    reveal_strlit("relay");
    assert("ai_base_url"@[0] == 'a' && "ai_base_url"@[3] == 'b');
    assert("ai_api_key"@[0] == 'a' && "ai_api_key"@[3] == 'a');
    assert("ai_model"@[0] == 'a' && "ai_model"@[3] == 'm');
    assert("server_port"@[0] == 's' && "server_port"@[1] == 'e');
    assert("connection_mode"@[0] == 'c');
    assert("relay_server_url"@[0] == 'r' && "relay_server_url"@[6] == 's'
        && "relay_server_url"@[8] == 'r');
    assert("relay_room_id"@[0] == 'r' && "relay_room_id"@[6] == 'r');
    assert("relay_secret_key"@[0] == 'r' && "relay_secret_key"@[6] == 's'
        && "relay_secret_key"@[8] == 'c');
    assert("storage_dir"@[0] == 's' && "storage_dir"@[1] == 't');
    assert("lan"@[0] == 'l' && "relay"@[0] == 'r');
}

/// Loading what saving wrote gives back the configuration, for every
/// configuration whose storage directory is not the empty string (an empty
/// directory is stored as "" and read back as "no directory").
pub proof fn law_load_after_save(c: AppConfigView)
    requires
        c.storage_dir != Some(Seq::<char>::empty()),
    ensures
        apply_rows(default_config(), config_rows(c)) == c,
{
    lemma_keys_distinct();
    lemma_parse_u16_dec_digits(c.server_port);
    let rows = config_rows(c);
    reveal_with_fuel(apply_rows, 10);
    assert(rows.drop_last().drop_last().drop_last().drop_last().drop_last().drop_last().drop_last().drop_last().drop_last() =~= Seq::<(Seq<char>, Seq<char>)>::empty());
    assert(rows.drop_last().drop_last().drop_last().drop_last().drop_last().drop_last().drop_last().drop_last() =~= seq![rows[0]]);
    assert(rows.drop_last().drop_last().drop_last().drop_last().drop_last().drop_last().drop_last() =~= seq![rows[0], rows[1]]);
    assert(rows.drop_last().drop_last().drop_last().drop_last().drop_last().drop_last() =~= seq![rows[0], rows[1], rows[2]]);
    assert(rows.drop_last().drop_last().drop_last().drop_last().drop_last() =~= seq![rows[0], rows[1], rows[2], rows[3]]);
    assert(rows.drop_last().drop_last().drop_last().drop_last() =~= seq![rows[0], rows[1], rows[2], rows[3], rows[4]]);
    assert(rows.drop_last().drop_last().drop_last() =~= seq![rows[0], rows[1], rows[2], rows[3], rows[4], rows[5]]);
    assert(rows.drop_last().drop_last() =~= seq![rows[0], rows[1], rows[2], rows[3], rows[4], rows[5], rows[6]]);
    assert(rows.drop_last() =~= seq![rows[0], rows[1], rows[2], rows[3], rows[4], rows[5], rows[6], rows[7]]);
    let c0 = default_config();
    let c1 = apply_row(c0, rows[0].0, rows[0].1);
    assert(c1.ai_base_url == c.ai_base_url);
    let c2 = apply_row(c1, rows[1].0, rows[1].1);
    let c3 = apply_row(c2, rows[2].0, rows[2].1);
    let c4 = apply_row(c3, rows[3].0, rows[3].1);
    assert(c4.server_port == c.server_port);
    let c5 = apply_row(c4, rows[4].0, rows[4].1);
    assert(c5.connection_mode == c.connection_mode);
    let c6 = apply_row(c5, rows[5].0, rows[5].1);
    let c7 = apply_row(c6, rows[6].0, rows[6].1);
    let c8 = apply_row(c7, rows[7].0, rows[7].1);
    let c9 = apply_row(c8, rows[8].0, rows[8].1);
    if let Some(d) = c.storage_dir {
        if d.len() == 0 {
            assert(d =~= Seq::<char>::empty());
        }
    }
    assert(c9.storage_dir == c.storage_dir);
    assert(c9 == c);
    assert(apply_rows(c0, rows) == c9);
}

/// The value of the last row with key `k`, if any.
pub open spec fn last_value(rows: Seq<(Seq<char>, Seq<char>)>, k: Seq<char>) -> Option<Seq<char>>
    decreases rows.len(),
{
    if rows.len() == 0 {
        None
    } else if rows.last().0 == k {
        Some(rows.last().1)
    } else {
        last_value(rows.drop_last(), k)
    }
}

/// The keys of rows, in order.
pub open spec fn row_keys(rows: Seq<(Seq<char>, Seq<char>)>) -> Seq<Seq<char>> {
    rows.map_values(|r: (Seq<char>, Seq<char>)| r.0)
}

/// Loading sets each field from the last row of its key; a field whose key
/// has no row keeps its value.
proof fn lemma_last_row_wins(c0: AppConfigView, rows: Seq<(Seq<char>, Seq<char>)>)
    ensures
        ({
            let c = apply_rows(c0, rows);
            &&& c.ai_base_url == match last_value(rows, "ai_base_url"@) {
                Some(v) => v,
                None => c0.ai_base_url,
            }
            &&& c.ai_api_key == match last_value(rows, "ai_api_key"@) {
                Some(v) => v,
                None => c0.ai_api_key,
            }
            &&& c.ai_model == match last_value(rows, "ai_model"@) {
                Some(v) => v,
                None => c0.ai_model,
            }
            &&& c.server_port == match last_value(rows, "server_port"@) {
                Some(v) => match parse_u16(v) {
                    Some(p) => p,
                    None => DEFAULT_PORT,
                },
                None => c0.server_port,
            }
            &&& c.connection_mode == match last_value(rows, "connection_mode"@) {
                Some(v) => if v == "relay"@ {
                    ConnectionMode::Relay
                } else {
                    ConnectionMode::Lan
                },
                None => c0.connection_mode,
            }
            &&& c.relay_server_url == match last_value(rows, "relay_server_url"@) {
                Some(v) => v,
                None => c0.relay_server_url,
            }
            &&& c.relay_room_id == match last_value(rows, "relay_room_id"@) {
                Some(v) => v,
                None => c0.relay_room_id,
            }
            &&& c.relay_secret_key == match last_value(rows, "relay_secret_key"@) {
                Some(v) => v,
                None => c0.relay_secret_key,
            }
            &&& c.storage_dir == match last_value(rows, "storage_dir"@) {
                Some(v) => if v.len() == 0 {
                    None
                } else {
                    Some(v)
                },
                None => c0.storage_dir,
            }
        }),
    decreases rows.len(),
{
    lemma_keys_distinct();
    if rows.len() > 0 {
        lemma_last_row_wins(c0, rows.drop_last());
    }
}

/// With no key repeated, a row that is present is the last row of its key.
proof fn lemma_present_row_is_last(rows: Seq<(Seq<char>, Seq<char>)>, k: Seq<char>, v: Seq<char>)
    requires
        row_keys(rows).no_duplicates(),
        rows.contains((k, v)),
    ensures
        last_value(rows, k) == Some(v),
    decreases rows.len(),
{
    let i = choose|i: int| 0 <= i < rows.len() && rows[i] == (k, v);
    let n = rows.len() - 1;
    if rows.last().0 == k {
        if i != n {
            assert(row_keys(rows)[i] == row_keys(rows)[n]);
        }
    } else {
        let r = rows.drop_last();
        assert(r[i] == (k, v));
        assert(row_keys(r).no_duplicates()) by {
            assert forall|a: int, b: int| 0 <= a < r.len() && 0 <= b < r.len() && a != b
                implies row_keys(r)[a] != row_keys(r)[b] by {
                assert(row_keys(rows)[a] != row_keys(rows)[b]);
            }
        }
        lemma_present_row_is_last(r, k, v);
    }
}

/// Loading gives back the saved configuration whatever order the rows come
/// back in, and whatever rows of other keys come with them, as long as no
/// key occurs twice (as in the `config` table, keyed by `key`); the storage
/// directory must not be the empty string.
pub proof fn law_load_after_save_any_order(c: AppConfigView, rows: Seq<(Seq<char>, Seq<char>)>)
    requires
        c.storage_dir != Some(Seq::<char>::empty()),
        row_keys(rows).no_duplicates(),
        forall|i: int| 0 <= i < 9 ==> rows.contains(#[trigger] config_rows(c)[i]),
    ensures
        apply_rows(default_config(), rows) == c,
{
    lemma_keys_distinct();
    lemma_parse_u16_dec_digits(c.server_port);
    let saved = config_rows(c);
    assert forall|i: int| 0 <= i < 9 implies last_value(rows, (#[trigger] saved[i]).0) == Some(saved[i].1) by {
        assert(rows.contains(saved[i]));
        lemma_present_row_is_last(rows, saved[i].0, saved[i].1);
    }
    assert(last_value(rows, "ai_base_url"@) == Some(saved[0].1));
    assert(last_value(rows, "ai_api_key"@) == Some(saved[1].1));
    assert(last_value(rows, "ai_model"@) == Some(saved[2].1));
    assert(last_value(rows, "server_port"@) == Some(saved[3].1));
    assert(last_value(rows, "connection_mode"@) == Some(saved[4].1));
    assert(last_value(rows, "relay_server_url"@) == Some(saved[5].1));
    assert(last_value(rows, "relay_room_id"@) == Some(saved[6].1));
    assert(last_value(rows, "relay_secret_key"@) == Some(saved[7].1));
    assert(last_value(rows, "storage_dir"@) == Some(saved[8].1));
    lemma_last_row_wins(default_config(), rows);
    if let Some(d) = c.storage_dir {
        if d.len() == 0 {
            assert(d =~= Seq::<char>::empty());
        }
    }
}

} // verus!
