//! Finding the IBus daemon's private bus, as `ibus_get_address` does:
//! `$IBUS_ADDRESS` when set, else the `IBUS_ADDRESS=` line of the socket
//! file `$XDG_CONFIG_HOME/ibus/bus/<machine-id>-<hostname>-<display>`, and
//! only while the `IBUS_DAEMON_PID=` it names is alive.
//!
//! [`address_with`] decides from the environment's values, a file reader
//! and a liveness probe, which the caller supplies (the process
//! environment, the file system, `/proc`); each of its steps stands on its
//! own too: [`address_from_environment`], [`socket_location`],
//! [`machine_id`], [`socket_file_path`], [`address_from_socket_file`] and
//! [`confirm_daemon`].

use crate::text::{
    chars_of, has_prefix_at, lemma_line_end_bounds, lemma_line_end_is_next_newline, line_end,
    starts_with, string_of, trim, trim_end, trimmed_end, trimmed_start,
};
use vstd::prelude::*;

verus! {

/// Why no address could be found.
#[derive(Clone, Debug, PartialEq, Eq)]
pub enum BusAddressError {
    /// Neither `WAYLAND_DISPLAY` nor `DISPLAY` is set.
    NoDisplay,
    /// No `XDG_CONFIG_HOME` and no `HOME` to find the socket file under.
    NoConfigHome,
    /// The socket file could not be read (`source` is the reader's error).
    Unreadable { path: String, source: String },
    /// The socket file names no `IBUS_ADDRESS`.
    NoAddress { path: String },
    /// The daemon the socket file names is not running (pid 0: the file
    /// names none).
    DaemonGone { path: String, pid: u32 },
}

/// What a socket file says, `None` for a key it does not carry.
#[derive(Clone, Debug, PartialEq, Eq)]
pub struct SocketFile {
    pub address: Option<String>,
    pub daemon_pid: Option<u32>,
}

pub open spec fn opt_view(value: Option<String>) -> Option<Seq<char>> {
    match value {
        Some(s) => Some(s@),
        None => None,
    }
}

// ---- numbers -------------------------------------------------------------

pub open spec fn is_digit(c: char) -> bool {
    '0' <= c <= '9'
}

pub open spec fn digit_value(c: char) -> nat {
    (c as int - '0' as int) as nat
}

/// The value of a run of decimal digits.
pub open spec fn digits_value(digits: Seq<char>) -> nat
    decreases digits.len(),
{
    if digits.len() == 0 {
        0
    } else {
        digits_value(digits.drop_last()) * 10 + digit_value(digits.last())
    }
}

/// `str::parse::<u32>`: an optional `+`, then one or more decimal digits
/// whose value fits a `u32`.
pub open spec fn parse_u32_spec(text: Seq<char>) -> Option<u32> {
    if unsigned_digits(text).len() > 0 && all_digits(unsigned_digits(text)) && digits_value(
        unsigned_digits(text),
    ) <= u32::MAX {
        Some(digits_value(unsigned_digits(text)) as u32)
    } else {
        None
    }
}

/// The digits of a number: the text after an optional leading `+`.
pub open spec fn unsigned_digits(text: Seq<char>) -> Seq<char> {
    if text.len() > 0 && text[0] == '+' {
        text.drop_first()
    } else {
        text
    }
}

pub open spec fn all_digits(text: Seq<char>) -> bool {
    forall|i: int| 0 <= i < text.len() ==> is_digit(#[trigger] text[i])
}

fn parse_u32(chars: &Vec<char>, from: usize, to: usize) -> (value: Option<u32>)
    requires
        from <= to <= chars@.len(),
    ensures
        value == parse_u32_spec(chars@.subrange(from as int, to as int)),
{
    let ghost text = chars@.subrange(from as int, to as int);
    let start = if from < to && chars[from] == '+' {
        from + 1
    } else {
        from
    };
    let ghost digits = chars@.subrange(start as int, to as int);
    assert(digits =~= unsigned_digits(text));
    if start == to {
        return None;
    }
    let mut value: u64 = 0;
    let mut overflow = false;
    let mut i = start;
    while i < to
        invariant
            from <= start <= i <= to <= chars@.len(),
            digits == chars@.subrange(start as int, to as int),
            text == chars@.subrange(from as int, to as int),
            digits == unsigned_digits(text),
            forall|j: int| start <= j < i ==> is_digit(chars@[j]),
            !overflow ==> value == digits_value(chars@.subrange(start as int, i as int)),
            !overflow ==> value <= u32::MAX,
            overflow ==> digits_value(chars@.subrange(start as int, i as int)) > u32::MAX,
        decreases to - i,
    {
        let c = chars[i];
        if !('0' <= c && c <= '9') {
            assert(!is_digit(digits[i - start]));
            assert(!all_digits(digits));
            return None;
        }
        let ghost before = chars@.subrange(start as int, i as int);
        let ghost after = chars@.subrange(start as int, i + 1);
        assert(after.drop_last() =~= before);
        assert(after.last() == c);
        let d = (c as u32 - '0' as u32) as u64;
        if !overflow {
            value = value * 10 + d;
            if value > 0xffff_ffff {
                overflow = true;
            }
        }
        i = i + 1;
    }
    assert(chars@.subrange(start as int, to as int) =~= digits);
    if overflow {
        None
    } else {
        Some(value as u32)
    }
}

// ---- the socket file -----------------------------------------------------

/// What one line does to what was read so far: a comment does nothing; an
/// `IBUS_ADDRESS=` line sets the address (trailing white space dropped); an
/// `IBUS_DAEMON_PID=` line sets the pid (`None` when it is not a number);
/// any other line does nothing.
pub open spec fn apply_line(
    read: (Option<Seq<char>>, Option<u32>),
    line: Seq<char>,
) -> (Option<Seq<char>>, Option<u32>) {
    if line.len() > 0 && line[0] == '#' {
        read
    } else if starts_with(line, "IBUS_ADDRESS="@) {
        (Some(trim_end(line.skip("IBUS_ADDRESS="@.len() as int))), read.1)
    } else if starts_with(line, "IBUS_DAEMON_PID="@) {
        (read.0, parse_u32_spec(trim(line.skip("IBUS_DAEMON_PID="@.len() as int))))
    } else {
        read
    }
}

/// The lines from position `from` on, applied in order (`str::lines`: a
/// final `\n` ends the last line rather than starting an empty one; the
/// `\r` of a `\r\n` ending is white space every key's value drops).
pub open spec fn apply_lines_from(
    contents: Seq<char>,
    from: int,
    read: (Option<Seq<char>>, Option<u32>),
) -> (Option<Seq<char>>, Option<u32>)
    decreases contents.len() + 1 - from,
{
    if from < 0 || from >= contents.len() {
        read
    } else {
        proof {
            lemma_line_end_bounds(contents, from);
        }
        apply_lines_from(
            contents,
            line_end(contents, from) + 1,
            apply_line(read, contents.subrange(from, line_end(contents, from))),
        )
    }
}

/// What a socket file's contents say: for each key, the last line that
/// sets it.
pub open spec fn socket_file_spec(contents: Seq<char>) -> (Option<Seq<char>>, Option<u32>) {
    apply_lines_from(contents, 0, (None, None))
}

/// Reads the socket file: comments skipped, the last `IBUS_ADDRESS=` and
/// `IBUS_DAEMON_PID=` lines taken.
pub fn parse_socket_file(contents: &str) -> (parsed: SocketFile)
    ensures
        (opt_view(parsed.address), parsed.daemon_pid) == socket_file_spec(contents@),
{
    proof {
        reveal_strlit("IBUS_ADDRESS=");
        reveal_strlit("IBUS_DAEMON_PID=");
        assert("IBUS_ADDRESS="@.len() == 13);
        assert("IBUS_DAEMON_PID="@.len() == 16);
    }
    let chars = chars_of(contents);
    let n = chars.len();
    let mut address: Option<String> = None;
    let mut daemon_pid: Option<u32> = None;
    let mut from: usize = 0;
    while from < n
        invariant
            chars@ == contents@,
            n == chars@.len(),
            from <= n,
            socket_file_spec(contents@) == apply_lines_from(
                contents@,
                from as int,
                (opt_view(address), daemon_pid),
            ),
        decreases n - from,
    {
        let mut end = from;
        while end < n && chars[end] != '\n'
            invariant
                chars@ == contents@,
                n == chars@.len(),
                from <= end <= n,
                forall|i: int| from <= i < end ==> chars@[i] != '\n',
            decreases n - end,
        {
            end = end + 1;
        }
        proof {
            lemma_line_end_is_next_newline(contents@, from as int, end as int);
        }
        proof {
            reveal_strlit("IBUS_ADDRESS=");
            reveal_strlit("IBUS_DAEMON_PID=");
            assert("IBUS_ADDRESS="@.len() == 13);
            assert("IBUS_DAEMON_PID="@.len() == 16);
        }
        let ghost line = contents@.subrange(from as int, end as int);
        let ghost before = (opt_view(address), daemon_pid);
        if from < end && chars[from] == '#' {
            assert(line[0] == '#');
        } else if has_prefix_at(&chars, from, end, "IBUS_ADDRESS=") {
            let start = from + 13;
            let stop = trimmed_end(&chars, start, end);
            assert(line.skip("IBUS_ADDRESS="@.len() as int) =~= chars@.subrange(
                start as int,
                end as int,
            ));
            address = Some(string_of(&chars, start, stop));
        } else if has_prefix_at(&chars, from, end, "IBUS_DAEMON_PID=") {
            let start = from + 16;
            assert(line.skip("IBUS_DAEMON_PID="@.len() as int) =~= chars@.subrange(
                start as int,
                end as int,
            ));
            let first = trimmed_start(&chars, start, end);
            let last = trimmed_end(&chars, first, end);
            daemon_pid = parse_u32(&chars, first, last);
        }
        assert((opt_view(address), daemon_pid) == apply_line(before, line));
        let ghost after = (opt_view(address), daemon_pid);
        assert(apply_lines_from(contents@, from as int, before) == apply_lines_from(
            contents@,
            end + 1,
            after,
        ));
        from = if end < n {
            end + 1
        } else {
            n
        };
        assert(apply_lines_from(contents@, end + 1, after) == apply_lines_from(
            contents@,
            from as int,
            after,
        ));
    }
    SocketFile { address, daemon_pid }
}

// ---- the socket file's path ----------------------------------------------

/// The environment the bus address is found from; `None` for an unset
/// variable.
#[derive(Clone, Debug, PartialEq, Eq)]
pub struct BusEnvironment {
    pub ibus_address: Option<String>,
    pub ibus_address_file: Option<String>,
    pub wayland_display: Option<String>,
    pub display: Option<String>,
    pub xdg_config_home: Option<String>,
    pub home: Option<String>,
}

/// A variable that is set and not empty.
pub open spec fn set_value(value: Option<String>) -> Option<Seq<char>> {
    match value {
        Some(s) => if s@.len() > 0 {
            Some(s@)
        } else {
            None
        },
        None => None,
    }
}

fn non_empty(value: &Option<String>) -> (text: Option<&String>)
    ensures
        match set_value(*value) {
            Some(v) => text matches Some(t) && t@ == v,
            None => text is None,
        },
{
    match value {
        Some(s) => if s.as_str().unicode_len() > 0 {
            Some(s)
        } else {
            None
        },
        None => None,
    }
}

/// `$IBUS_ADDRESS`, set and not empty, wins without touching any file.
pub fn address_from_environment(environment: &BusEnvironment) -> (address: Option<String>)
    ensures
        opt_view(address) == set_value(environment.ibus_address),
{
    match non_empty(&environment.ibus_address) {
        Some(address) => Some(address.clone()),
        None => None,
    }
}

/// The index of the first `c` in `text`, or its length.
pub open spec fn index_of(text: Seq<char>, c: char) -> int
    decreases text.len(),
{
    if text.len() == 0 || text[0] == c {
        0
    } else {
        1 + index_of(text.drop_first(), c)
    }
}

proof fn lemma_index_of_is_first(text: Seq<char>, c: char, k: int)
    requires
        0 <= k <= text.len(),
        forall|i: int| 0 <= i < k ==> text[i] != c,
        k < text.len() ==> text[k] == c,
    ensures
        index_of(text, c) == k,
    decreases text.len(),
{
    if k > 0 {
        let rest = text.drop_first();
        assert forall|i: int| 0 <= i < k - 1 implies rest[i] != c by {
            assert(rest[i] == text[i + 1]);
        }
        if k - 1 < rest.len() {
            assert(rest[k - 1] == text[k]);
        }
        lemma_index_of_is_first(rest, c, k - 1);
    }
}

fn find_char(chars: &Vec<char>, from: usize, to: usize, c: char) -> (at: usize)
    requires
        from <= to <= chars@.len(),
    ensures
        from <= at <= to,
        at - from == index_of(chars@.subrange(from as int, to as int), c),
{
    let mut at = from;
    while at < to && chars[at] != c
        invariant
            from <= at <= to <= chars@.len(),
            forall|i: int| from <= i < at ==> chars@[i] != c,
        decreases to - at,
    {
        at = at + 1;
    }
    proof {
        let text = chars@.subrange(from as int, to as int);
        assert forall|i: int| 0 <= i < at - from implies text[i] != c by {
            assert(text[i] == chars@[from + i]);
        }
        lemma_index_of_is_first(text, c, at - from);
    }
    at
}

/// `[host]:number[.screen]` → (host, number), an empty host reading
/// `unix` and an empty number `0`; no `:` reads the whole value as the
/// host.
pub open spec fn x11_display_parts(display: Seq<char>) -> (Seq<char>, Seq<char>) {
    let colon = index_of(display, ':');
    let host = display.take(colon);
    let rest = if colon < display.len() {
        display.skip(colon + 1)
    } else {
        Seq::empty()
    };
    let number = rest.take(index_of(rest, '.'));
    (
        if host.len() == 0 {
            "unix"@
        } else {
            host
        },
        if number.len() == 0 {
            "0"@
        } else {
            number
        },
    )
}

/// Wayland: `unix` and the whole `$WAYLAND_DISPLAY`. X11: `$DISPLAY` split
/// as `[host]:number[.screen]`. Neither set: no display.
pub open spec fn display_parts_spec(environment: BusEnvironment) -> Option<
    (Seq<char>, Seq<char>),
> {
    match set_value(environment.wayland_display) {
        Some(wayland) => Some(("unix"@, wayland)),
        None => match set_value(environment.display) {
            Some(display) => Some(x11_display_parts(display)),
            None => None,
        },
    }
}

proof fn lemma_index_of_bound(text: Seq<char>, c: char)
    ensures
        0 <= index_of(text, c) <= text.len(),
    decreases text.len(),
{
    if text.len() > 0 && text[0] != c {
        lemma_index_of_bound(text.drop_first(), c);
    }
}

fn display_parts(environment: &BusEnvironment) -> (parts: Result<(String, String), BusAddressError>)
    ensures
        match display_parts_spec(*environment) {
            Some((host, number)) => parts matches Ok((h, n)) && h@ == host && n@ == number,
            None => parts == Err::<(String, String), BusAddressError>(BusAddressError::NoDisplay),
        },
{
    if let Some(wayland) = non_empty(&environment.wayland_display) {
        return Ok((String::from_str("unix"), wayland.clone()));
    }
    let display = match non_empty(&environment.display) {
        Some(display) => display,
        None => return Err(BusAddressError::NoDisplay),
    };
    let chars = chars_of(display.as_str());
    let n = chars.len();
    let colon = find_char(&chars, 0, n, ':');
    assert(chars@.subrange(0, n as int) =~= display@);
    let rest_start = if colon < n {
        colon + 1
    } else {
        n
    };
    let dot = find_char(&chars, rest_start, n, '.');
    let ghost host = display@.take(colon as int);
    let ghost rest = if (colon as int) < display@.len() {
        display@.skip(colon + 1)
    } else {
        Seq::empty()
    };
    assert(chars@.subrange(rest_start as int, n as int) =~= rest);
    assert(chars@.subrange(0, colon as int) =~= host);
    assert(chars@.subrange(rest_start as int, dot as int) =~= rest.take(index_of(rest, '.')));
    let hostname = if colon == 0 {
        String::from_str("unix")
    } else {
        string_of(&chars, 0, colon)
    };
    let number = if dot == rest_start {
        String::from_str("0")
    } else {
        string_of(&chars, rest_start, dot)
    };
    Ok((hostname, number))
}

/// `path` joined with the relative `component`, as `Path::join` does: a
/// separator is added unless `path` already ends with one.
pub open spec fn joined(path: Seq<char>, component: Seq<char>) -> Seq<char> {
    if path.len() > 0 && path.last() == '/' {
        path + component
    } else {
        path + seq!['/'] + component
    }
}

fn join(path: &str, component: &str) -> (joined_path: String)
    ensures
        joined_path@ == joined(path@, component@),
{
    proof {
        reveal_strlit("/");
    }
    let n = path.unicode_len();
    if n > 0 && path.get_char(n - 1) == '/' {
        String::from_str(path).concat(component)
    } else {
        String::from_str(path).concat("/").concat(component)
    }
}

/// Where the socket file is to be looked for.
#[derive(Clone, Debug, PartialEq, Eq)]
pub enum SocketLocation {
    /// `$IBUS_ADDRESS_FILE` names the file itself.
    File(String),
    /// `<config home>/ibus/bus/<machine-id>-<host>-<display>`: the machine
    /// id is still to be read.
    UnderConfigHome { config_home: String, host: String, display_number: String },
}

/// `$XDG_CONFIG_HOME` when set and absolute, else `$HOME/.config`.
pub open spec fn config_home_spec(environment: BusEnvironment) -> Option<Seq<char>> {
    match set_value(environment.xdg_config_home) {
        Some(xdg) if xdg[0] == '/' => Some(xdg),
        _ => match set_value(environment.home) {
            Some(home) => Some(joined(home, ".config"@)),
            None => None,
        },
    }
}

/// The config home: a set, absolute `$XDG_CONFIG_HOME` itself; else
/// `.config` under a set `$HOME`; else none.
pub proof fn lemma_config_home(environment: BusEnvironment)
    ensures
        environment.xdg_config_home matches Some(x) ==> (x@.len() > 0 && x@[0] == '/'
            ==> config_home_spec(environment) == Some(x@)),
        !xdg_is_absolute(environment) ==> (environment.home matches Some(h) ==> (h@.len() > 0
            ==> config_home_spec(environment) == Some(joined(h@, ".config"@)))),
        !xdg_is_absolute(environment) && !is_set(environment.home) ==> config_home_spec(
            environment,
        ) is None,
{
}

/// `$XDG_CONFIG_HOME` is set to an absolute path.
pub open spec fn xdg_is_absolute(environment: BusEnvironment) -> bool {
    match environment.xdg_config_home {
        Some(x) => x@.len() > 0 && x@[0] == '/',
        None => false,
    }
}

/// The variable is set and not empty.
pub open spec fn is_set(value: Option<String>) -> bool {
    match value {
        Some(v) => v@.len() > 0,
        None => false,
    }
}

/// Where to look: `$IBUS_ADDRESS_FILE` when set; else the display's parts
/// (no display is an error) under the config home (no config home is an
/// error), checked in that order.
pub fn socket_location(environment: &BusEnvironment) -> (location: Result<
    SocketLocation,
    BusAddressError,
>)
    ensures
        match set_value(environment.ibus_address_file) {
            Some(file) => location matches Ok(SocketLocation::File(f)) && f@ == file,
            None => match display_parts_spec(*environment) {
                None => location == Err::<SocketLocation, BusAddressError>(
                    BusAddressError::NoDisplay,
                ),
                Some((host, number)) => match config_home_spec(*environment) {
                    None => location == Err::<SocketLocation, BusAddressError>(
                        BusAddressError::NoConfigHome,
                    ),
                    Some(config) => location matches Ok(
                        SocketLocation::UnderConfigHome { config_home, host: h, display_number },
                    ) && config_home@ == config && h@ == host && display_number@ == number,
                },
            },
        },
        ({
            let no_file = !is_set(environment.ibus_address_file);
            let has_display = is_set(environment.wayland_display) || is_set(environment.display);
            &&& no_file && !has_display ==> location == Err::<SocketLocation, BusAddressError>(
                BusAddressError::NoDisplay,
            )
            &&& no_file && has_display && !xdg_is_absolute(*environment) && !is_set(
                environment.home,
            ) ==> location == Err::<SocketLocation, BusAddressError>(
                BusAddressError::NoConfigHome,
            )
            &&& environment.xdg_config_home matches Some(x) ==> (no_file && has_display && x@.len()
                > 0 && x@[0] == '/' ==> (location matches Ok(
                SocketLocation::UnderConfigHome { config_home, .. },
            ) && config_home@ == x@))
            &&& environment.home matches Some(h) ==> (no_file && has_display && !xdg_is_absolute(
                *environment,
            ) && h@.len() > 0 ==> (location matches Ok(
                SocketLocation::UnderConfigHome { config_home, .. },
            ) && config_home@ == joined(h@, ".config"@)))
            &&& environment.wayland_display matches Some(w) ==> (w@.len() > 0 && no_file
                && location is Ok ==> (location matches Ok(
                SocketLocation::UnderConfigHome { host, display_number, .. },
            ) && host@ == "unix"@ && display_number@ == w@))
        }),
{
    proof {
        lemma_config_home(*environment);
    }
    if let Some(file) = non_empty(&environment.ibus_address_file) {
        return Ok(SocketLocation::File(file.clone()));
    }
    let (host, display_number) = match display_parts(environment) {
        Ok(parts) => parts,
        Err(error) => return Err(error),
    };
    let absolute_xdg = match non_empty(&environment.xdg_config_home) {
        Some(xdg) => if xdg.as_str().get_char(0) == '/' {
            Some(xdg)
        } else {
            None
        },
        None => None,
    };
    let config_home = match absolute_xdg {
        Some(xdg) => xdg.clone(),
        None => match non_empty(&environment.home) {
            Some(home) => join(home.as_str(), ".config"),
            None => return Err(BusAddressError::NoConfigHome),
        },
    };
    Ok(SocketLocation::UnderConfigHome { config_home, host, display_number })
}

/// The machine-id file D-Bus keeps, tried first.
pub const DBUS_MACHINE_ID_FILE: &'static str = "/var/lib/dbus/machine-id";

/// The machine-id file systemd keeps, tried second.
pub const ETC_MACHINE_ID_FILE: &'static str = "/etc/machine-id";

/// The machine id a read gives: its contents trimmed, when the file could
/// be read and is not blank.
pub open spec fn usable_id(contents: Result<String, String>) -> Option<Seq<char>> {
    match contents {
        Ok(text) => if trim(text@).len() > 0 {
            Some(trim(text@))
        } else {
            None
        },
        Err(_) => None,
    }
}

/// `id` is the machine id `read` gave: the D-Bus file's when usable, else
/// the systemd file's (read only then), else the literal `machine-id` ibus
/// falls back to.
pub open spec fn machine_id_read<F: Fn(&str) -> Result<String, String>>(read: F, id: Seq<char>) -> bool {
    exists|first: Result<String, String>|
        {
            &&& #[trigger] read.ensures((DBUS_MACHINE_ID_FILE,), first)
            &&& match usable_id(first) {
                Some(found) => id == found,
                None => exists|second: Result<String, String>|
                    {
                        &&& #[trigger] read.ensures((ETC_MACHINE_ID_FILE,), second)
                        &&& id == match usable_id(second) {
                            Some(found) => found,
                            None => "machine-id"@,
                        }
                    },
            }
        }
}

fn trimmed(text: &str) -> (result: String)
    ensures
        result@ == trim(text@),
{
    let chars = chars_of(text);
    let n = chars.len();
    let first = trimmed_start(&chars, 0, n);
    let last = trimmed_end(&chars, first, n);
    assert(chars@.subrange(0, n as int) =~= text@);
    string_of(&chars, first, last)
}

/// The contents' trimmed text when it could be read and is not blank.
fn usable(contents: &Result<String, String>) -> (id: Option<String>)
    ensures
        match usable_id(*contents) {
            Some(found) => id matches Some(text) && text@ == found,
            None => id is None,
        },
{
    match contents {
        Ok(text) => {
            let id = trimmed(text.as_str());
            if id.as_str().unicode_len() > 0 {
                Some(id)
            } else {
                None
            }
        },
        Err(_) => None,
    }
}

/// The machine id, as `read` finds it: the first machine-id file that
/// could be read and is not blank, trimmed, else `machine-id`.
pub fn machine_id(read: &impl Fn(&str) -> Result<String, String>) -> (id: String)
    requires
        forall|path: &str| read.requires((path,)),
    ensures
        machine_id_read(*read, id@),
{
    let first = read(DBUS_MACHINE_ID_FILE);
    if let Some(id) = usable(&first) {
        return id;
    }
    let second = read(ETC_MACHINE_ID_FILE);
    match usable(&second) {
        Some(id) => id,
        None => String::from_str("machine-id"),
    }
}

/// `<config home>/ibus/bus/<machine-id>-<host>-<display>`.
pub open spec fn socket_file_path_spec(
    config_home: Seq<char>,
    machine_id: Seq<char>,
    host: Seq<char>,
    display_number: Seq<char>,
) -> Seq<char> {
    joined(
        joined(joined(config_home, "ibus"@), "bus"@),
        machine_id + "-"@ + host + "-"@ + display_number,
    )
}

pub fn socket_file_path(config_home: &str, machine_id: &str, host: &str, display_number: &str) -> (path: String)
    ensures
        path@ == socket_file_path_spec(config_home@, machine_id@, host@, display_number@),
{
    let ibus = join(config_home, "ibus");
    let bus = join(ibus.as_str(), "bus");
    let name = String::from_str(machine_id).concat("-").concat(host).concat("-").concat(
        display_number,
    );
    join(bus.as_str(), name.as_str())
}

// ---- the address ---------------------------------------------------------

/// A socket file that names an address and a daemon: the address is good
/// while that daemon lives.
#[derive(Clone, Debug, PartialEq, Eq)]
pub struct DaemonCheck {
    pub path: String,
    pub address: String,
    pub pid: u32,
}

/// From the socket file read at `path` (`Err` carries the reader's error):
/// an unreadable file and a file naming no address are errors; a file
/// naming no daemon is a gone daemon (pid 0) — a file the daemon wrote
/// always names one; otherwise the daemon is still to be checked.
pub fn address_from_socket_file(path: String, contents: Result<String, String>) -> (result: Result<
    DaemonCheck,
    BusAddressError,
>)
    ensures
        match contents {
            Err(source) => result == Err::<DaemonCheck, BusAddressError>(
                BusAddressError::Unreadable { path, source },
            ),
            Ok(text) => match socket_file_spec(text@) {
                (None, _) => result == Err::<DaemonCheck, BusAddressError>(
                    BusAddressError::NoAddress { path },
                ),
                (Some(_), None) => result == Err::<DaemonCheck, BusAddressError>(
                    BusAddressError::DaemonGone { path, pid: 0 },
                ),
                (Some(address), Some(pid)) => result matches Ok(check) && check.path == path
                    && check.address@ == address && check.pid == pid,
            },
        },
{
    let text = match contents {
        Err(source) => return Err(BusAddressError::Unreadable { path, source }),
        Ok(text) => text,
    };
    let parsed = parse_socket_file(text.as_str());
    let address = match parsed.address {
        Some(address) => address,
        None => return Err(BusAddressError::NoAddress { path }),
    };
    match parsed.daemon_pid {
        Some(pid) => Ok(DaemonCheck { path, address, pid }),
        None => Err(BusAddressError::DaemonGone { path, pid: 0 }),
    }
}

/// The address when the daemon is alive; a gone daemon is an error, never
/// a stale address.
pub fn confirm_daemon(check: DaemonCheck, alive: bool) -> (result: Result<String, BusAddressError>)
    ensures
        alive ==> result == Ok::<String, BusAddressError>(check.address),
        !alive ==> result == Err::<String, BusAddressError>(
            BusAddressError::DaemonGone { path: check.path, pid: check.pid },
        ),
{
    if alive {
        Ok(check.address)
    } else {
        Err(BusAddressError::DaemonGone { path: check.path, pid: check.pid })
    }
}

/// The error finding the socket file's location, if any: with no
/// `$IBUS_ADDRESS_FILE`, no display, then no config home.
pub open spec fn location_error(environment: BusEnvironment) -> Option<BusAddressError> {
    match set_value(environment.ibus_address_file) {
        Some(_) => None,
        None => match display_parts_spec(environment) {
            None => Some(BusAddressError::NoDisplay),
            Some(_) => match config_home_spec(environment) {
                None => Some(BusAddressError::NoConfigHome),
                Some(_) => None,
            },
        },
    }
}

/// `path` is where the socket file is looked for: `$IBUS_ADDRESS_FILE`
/// when set, else under the config home, named for the machine id `read`
/// gave, the host and the display.
pub open spec fn is_socket_path<F: Fn(&str) -> Result<String, String>>(
    environment: BusEnvironment,
    read: F,
    path: Seq<char>,
) -> bool {
    match set_value(environment.ibus_address_file) {
        Some(file) => path == file,
        None => match (display_parts_spec(environment), config_home_spec(environment)) {
            (Some((host, number)), Some(config)) => exists|id: Seq<char>|
                #[trigger] machine_id_read(read, id) && path == socket_file_path_spec(
                    config,
                    id,
                    host,
                    number,
                ),
            _ => false,
        },
    }
}

/// `result` is the answer for the socket file read at `path`: its read
/// error, no address, no daemon (pid 0), else the address while
/// `is_alive` says the daemon lives and a gone daemon when it says not.
pub open spec fn answers<A: Fn(u32) -> bool>(
    path: Seq<char>,
    contents: Result<String, String>,
    is_alive: A,
    result: Result<String, BusAddressError>,
) -> bool {
    match contents {
        Err(source) => result matches Err(BusAddressError::Unreadable { path: p, source: s })
            && p@ == path && s == source,
        Ok(text) => match socket_file_spec(text@) {
            (None, _) => result matches Err(BusAddressError::NoAddress { path: p }) && p@ == path,
            (Some(_), None) => result matches Err(BusAddressError::DaemonGone { path: p, pid })
                && p@ == path && pid == 0,
            (Some(address), Some(pid)) => exists|alive: bool|
                {
                    &&& #[trigger] is_alive.ensures((pid,), alive)
                    &&& alive ==> (result matches Ok(a) && a@ == address)
                    &&& !alive ==> (result matches Err(
                        BusAddressError::DaemonGone { path: p, pid: q },
                    ) && p@ == path && q == pid)
                },
        },
    }
}

/// The bus address: `$IBUS_ADDRESS` when set, without reading anything
/// (`read` and `is_alive` need not even be callable then);
/// else the socket file's address (the file read with `read`), only while
/// the daemon it names lives (asked of `is_alive`).
pub fn address_with(
    environment: &BusEnvironment,
    read: impl Fn(&str) -> Result<String, String>,
    is_alive: impl Fn(u32) -> bool,
) -> (result: Result<String, BusAddressError>)
    requires
        set_value(environment.ibus_address) is None ==> forall|path: &str| read.requires((path,)),
        set_value(environment.ibus_address) is None ==> forall|pid: u32| is_alive.requires((pid,)),
    ensures
        match set_value(environment.ibus_address) {
            Some(address) => result matches Ok(a) && a@ == address,
            None => match location_error(*environment) {
                Some(error) => result == Err::<String, BusAddressError>(error),
                None => exists|path: &str, contents: Result<String, String>|
                    {
                        &&& #[trigger] read.ensures((path,), contents)
                        &&& is_socket_path(*environment, read, path@)
                        &&& answers(path@, contents, is_alive, result)
                    },
            },
        },
{
    if let Some(address) = address_from_environment(environment) {
        return Ok(address);
    }
    let location = match socket_location(environment) {
        Ok(location) => location,
        Err(error) => return Err(error),
    };
    let path = match location {
        SocketLocation::File(file) => file,
        SocketLocation::UnderConfigHome { config_home, host, display_number } => {
            let id = machine_id(&read);
            socket_file_path(config_home.as_str(), id.as_str(), host.as_str(), display_number.as_str())
        },
    };
    let path_text: &str = path.as_str();
    let contents = read(path_text);
    let ghost read_contents = contents;
    let check = match address_from_socket_file(path.clone(), contents) {
        Ok(check) => check,
        Err(error) => {
            assert(answers(path_text@, read_contents, is_alive, Err(error)));
            return Err(error);
        },
    };
    let alive = is_alive(check.pid);
    let result = confirm_daemon(check, alive);
    assert(answers(path_text@, read_contents, is_alive, result));
    result
}

/// A socket file line starting with `#` is a comment: it changes nothing,
/// even when it spells a key.
pub proof fn lemma_comments_change_nothing(
    read: (Option<Seq<char>>, Option<u32>),
    line: Seq<char>,
)
    requires
        line.len() > 0,
        line[0] == '#',
    ensures
        apply_line(read, line) == read,
{
}

/// An address line sets the address and leaves the pid as it was; a pid
/// line sets the pid and leaves the address.
pub proof fn lemma_keys_are_independent(
    read: (Option<Seq<char>>, Option<u32>),
    line: Seq<char>,
)
    requires
        !(line.len() > 0 && line[0] == '#'),
    ensures
        starts_with(line, "IBUS_ADDRESS="@) ==> apply_line(read, line).1 == read.1,
        starts_with(line, "IBUS_DAEMON_PID="@) ==> apply_line(read, line).0 == read.0 || starts_with(
            line,
            "IBUS_ADDRESS="@,
        ),
{
}

} // verus!
