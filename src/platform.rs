//! Reading what the platform's network tools print.
//!
//! The tools themselves are run by the caller; these functions decide, from
//! their output, which interfaces exist and whether the adapter is on.

use vstd::prelude::*;
use crate::text::{
    chars_of, contains_str, find_chars, first_occurrence_from, lines_of, lower_of, lowercase, opt_view,
    pairs_view, split_lines, split_words, strings_view, substring, text_contains, trim, trimmed, words_of,
};

verus! {

/// The lines after the first `n`.
pub open spec fn lines_after(lines: Seq<Seq<char>>, n: int) -> Seq<Seq<char>> {
    if lines.len() <= n {
        Seq::empty()
    } else {
        lines.subrange(n, lines.len() as int)
    }
}

/// An `nmcli device status` row of a Wi-Fi or Ethernet device, as (device, state).
pub open spec fn linux_row(words: Seq<Seq<char>>) -> Option<(Seq<char>, Seq<char>)> {
    if words.len() >= 3 && (words[1] == "wifi"@ || words[1] == "ethernet"@) {
        Some((words[0], words[2]))
    } else {
        None
    }
}

/// A `netsh interface show interface` row of four columns, as (interface, state).
pub open spec fn windows_row(words: Seq<Seq<char>>) -> Option<(Seq<char>, Seq<char>)> {
    if words.len() == 4 {
        Some((words[3], words[1]))
    } else {
        None
    }
}

/// The interface rows among `lines`, each line given as its words, in order.
pub open spec fn rows_of(lines: Seq<Seq<Seq<char>>>, windows: bool) -> Seq<(Seq<char>, Seq<char>)>
    decreases lines.len(),
{
    if lines.len() == 0 {
        Seq::empty()
    } else {
        let before = rows_of(lines.drop_last(), windows);
        let words = lines.last();
        match if windows { windows_row(words) } else { linux_row(words) } {
            Some(row) => before.push(row),
            None => before,
        }
    }
}

/// The words of each line of `out` after the first `header` lines.
pub open spec fn table_of(out: Seq<char>, header: int) -> Seq<Seq<Seq<char>>> {
    lines_after(lines_of(out), header).map_values(|l: Seq<char>| words_of(l))
}

pub open spec fn table_view(t: Vec<Vec<String>>) -> Seq<Seq<Seq<char>>> {
    t@.map_values(|l: Vec<String>| strings_view(l))
}

/// Some interface reports a state that reads `connected` once lower-cased
/// (which `disconnected` does too).
pub open spec fn any_connected(rows: Seq<(Seq<char>, Seq<char>)>) -> bool {
    exists|i: int| 0 <= i < rows.len() && text_contains(lower_of(#[trigger] rows[i].1), "connected"@)
}

/// The words of each line of `out` after the first `header` lines.
fn split_table(out: &str, header: usize) -> (r: Vec<Vec<String>>)
    ensures
        table_view(r) == table_of(out@, header as int),
{
    let lines = split_lines(out);
    let ghost all = lines_of(out@);
    let mut table: Vec<Vec<String>> = Vec::new();
    let n = lines.len();
    if n <= header {
        assert(table_view(table) =~= table_of(out@, header as int));
        return table;
    }
    let mut i: usize = header;
    while i < n
        invariant
            n == lines.len(),
            header <= i <= n,
            all == lines_of(out@),
            strings_view(lines) == all,
            table_view(table) == all.subrange(header as int, i as int).map_values(|l: Seq<char>| words_of(l)),
        decreases n - i,
    {
        assert(all[i as int] == lines@[i as int]@);
        let ghost before = table_view(table);
        let words = split_words(lines[i].as_str());
        table.push(words);
        assert(table_view(table) =~= before.push(words_of(all[i as int])));
        assert(all.subrange(header as int, i + 1).map_values(|l: Seq<char>| words_of(l)) =~= all.subrange(
            header as int,
            i as int,
        ).map_values(|l: Seq<char>| words_of(l)).push(words_of(all[i as int])));
        i = i + 1;
    }
    assert(all.subrange(header as int, n as int) =~= lines_after(all, header as int));
    table
}

/// The interface rows of a table of words, in order: `nmcli` rows of a Wi-Fi
/// or Ethernet device as (device, state), or `netsh` rows of four columns as
/// (interface, state); `None` when there are none.
pub fn interface_rows(table: &Vec<Vec<String>>, windows: bool) -> (r: Option<Vec<(String, String)>>)
    ensures
        match r {
            Some(v) => pairs_view(v) == rows_of(table_view(*table), windows) && v.len() > 0,
            None => rows_of(table_view(*table), windows).len() == 0,
        },
{
    let ghost all = table_view(*table);
    let mut rows: Vec<(String, String)> = Vec::new();
    let n = table.len();
    let mut i: usize = 0;
    while i < n
        invariant
            n == table.len(),
            i <= n,
            all == table_view(*table),
            pairs_view(rows) == rows_of(all.subrange(0, i as int), windows),
        decreases n - i,
    {
        let ghost done = all.subrange(0, i + 1);
        assert(done.drop_last() =~= all.subrange(0, i as int));
        let words = &table[i];
        assert(done.last() == strings_view(*words));
        let w = words.len();
        if windows {
            if w == 4 {
                rows.push((words[3].clone(), words[1].clone()));
            }
        } else if w >= 3 && (words[1] == "wifi".to_owned() || words[1] == "ethernet".to_owned()) {
            rows.push((words[0].clone(), words[2].clone()));
        }
        assert(pairs_view(rows) =~= rows_of(done, windows));
        i = i + 1;
    }
    assert(all.subrange(0, n as int) =~= all);
    if rows.len() == 0 {
        None
    } else {
        Some(rows)
    }
}

/// Whether any of the rows reports a connected state.
fn rows_connected(rows: &Vec<(String, String)>) -> (r: bool)
    ensures
        r == any_connected(pairs_view(*rows)),
{
    let n = rows.len();
    let mut i: usize = 0;
    while i < n
        invariant
            n == rows.len(),
            i <= n,
            forall|j: int|
                0 <= j < i ==> !text_contains(
                    lower_of(#[trigger] pairs_view(*rows)[j].1),
                    "connected"@,
                ),
        decreases n - i,
    {
        let state = lowercase(rows[i].1.as_str());
        if contains_str(state.as_str(), "connected") {
            assert(pairs_view(*rows)[i as int].1 == rows@[i as int].1@);
            return true;
        }
        i = i + 1;
    }
    false
}

/// The network adapter as `nmcli` reports it.
pub struct LinuxNetworkManager;

impl LinuxNetworkManager {
    pub fn new() -> (r: LinuxNetworkManager) {
        LinuxNetworkManager
    }

    /// The Wi-Fi and Ethernet devices of `nmcli device status`, as (device,
    /// state), after the heading line; `None` when there are none.
    pub fn parse_interfaces(&self, nmcli_out: &str) -> (r: Option<Vec<(String, String)>>)
        ensures
            match r {
                Some(v) => pairs_view(v) == rows_of(table_of(nmcli_out@, 1), false) && v.len() > 0,
                None => rows_of(table_of(nmcli_out@, 1), false).len() == 0,
            },
    {
        interface_rows(&split_table(nmcli_out, 1), false)
    }

    /// Whether the output shows an adapter on: some device in a connected state.
    pub fn adapter_on(&self, nmcli_out: &str) -> (r: bool)
        ensures
            r == any_connected(rows_of(table_of(nmcli_out@, 1), false)),
    {
        match self.parse_interfaces(nmcli_out) {
            Some(rows) => rows_connected(&rows),
            None => false,
        }
    }
}

/// The network adapter as `netsh` reports it.
pub struct WindowsNetworkManager;

impl WindowsNetworkManager {
    pub fn new() -> (r: WindowsNetworkManager) {
        WindowsNetworkManager
    }

    /// The interfaces of `netsh interface show interface`, as (interface,
    /// state), after the two heading lines; rows of other than four columns
    /// are left out. `None` when there are none.
    pub fn parse_interfaces(&self, netsh_out: &str) -> (r: Option<Vec<(String, String)>>)
        ensures
            match r {
                Some(v) => pairs_view(v) == rows_of(table_of(netsh_out@, 2), true) && v.len() > 0,
                None => rows_of(table_of(netsh_out@, 2), true).len() == 0,
            },
    {
        interface_rows(&split_table(netsh_out, 2), true)
    }

    /// Whether the output shows an adapter on: some interface in a connected state.
    pub fn adapter_on(&self, netsh_out: &str) -> (r: bool)
        ensures
            r == any_connected(rows_of(table_of(netsh_out@, 2), true)),
    {
        match self.parse_interfaces(netsh_out) {
            Some(rows) => rows_connected(&rows),
            None => false,
        }
    }
}

/// A `networksetup -listallhardwareports` line that names the Wi-Fi port.
pub open spec fn is_wifi_port(line: Seq<char>) -> bool {
    text_contains(line, "Hardware Port: Wi-Fi"@) || text_contains(line, "Hardware Port: AirPort"@)
}

/// The device that a `Device:` line names, trimmed.
pub open spec fn device_in_line(line: Seq<char>) -> Option<Seq<char>> {
    match first_occurrence_from(line, "Device:"@, 0) {
        Some(i) => Some(trimmed(line.subrange(i + "Device:"@.len(), line.len() as int))),
        None => None,
    }
}

/// The device named in `lines[j]` or the lines after it, up to `k` lines.
pub open spec fn device_within(lines: Seq<Seq<char>>, j: int, k: int) -> Option<Seq<char>>
    decreases k,
{
    if k <= 0 || j < 0 || j >= lines.len() {
        None
    } else {
        match device_in_line(lines[j]) {
            Some(d) => Some(d),
            None => device_within(lines, j + 1, k - 1),
        }
    }
}

/// The Wi-Fi device of a hardware-port listing, from line `i` on: the
/// `Device:` named within the three lines after a Wi-Fi port line; a port
/// line whose three followers name none is passed over together with them.
pub open spec fn device_from(lines: Seq<Seq<char>>, i: int) -> Option<Seq<char>>
    decreases lines.len() + 4 - i,
{
    if i < 0 || i >= lines.len() {
        None
    } else if is_wifi_port(lines[i]) {
        match device_within(lines, i + 1, 3) {
            Some(d) => Some(d),
            None => device_from(lines, i + 4),
        }
    } else {
        device_from(lines, i + 1)
    }
}

/// The device named by `line`, if it names one.
fn device_in(line: &String) -> (r: Option<String>)
    ensures
        opt_view(r) == device_in_line(line@),
{
    proof {
        reveal_strlit("Device:");
    }
    let chars = chars_of(line.as_str());
    let tag = chars_of("Device:");
    match find_chars(&chars, &tag) {
        Some(i) => {
            let rest = substring(line.as_str(), i + tag.len(), chars.len());
            Some(trim(rest.as_str()))
        },
        None => None,
    }
}

/// The device named in `lines[j]` or the lines after it, up to `k` lines.
fn device_near(lines: &Vec<String>, j: usize, k: usize) -> (r: Option<String>)
    ensures
        opt_view(r) == device_within(strings_view(*lines), j as int, k as int),
    decreases k,
{
    if k == 0 || j >= lines.len() {
        return None;
    }
    assert(strings_view(*lines)[j as int] == lines@[j as int]@);
    match device_in(&lines[j]) {
        Some(d) => Some(d),
        None => {
            if j + 1 > lines.len() {
                return None;
            }
            device_near(lines, j + 1, k - 1)
        },
    }
}

/// The network adapter as `networksetup` reports it.
pub struct MacOSNetworkManager;

impl MacOSNetworkManager {
    pub fn new() -> (r: MacOSNetworkManager) {
        MacOSNetworkManager
    }

    /// The Wi-Fi device named in `networksetup -listallhardwareports` output.
    pub fn wifi_device(&self, ports_out: &str) -> (r: Option<String>)
        ensures
            opt_view(r) == device_from(lines_of(ports_out@), 0),
    {
        self.wifi_device_in_lines(&split_lines(ports_out))
    }

    /// The Wi-Fi device named in the lines of a hardware-port listing.
    pub fn wifi_device_in_lines(&self, lines: &Vec<String>) -> (r: Option<String>)
        ensures
            opt_view(r) == device_from(strings_view(*lines), 0),
    {
        let ghost all = strings_view(*lines);
        let n = lines.len();
        let mut i: usize = 0;
        while i < n
            invariant
                n == lines.len(),
                strings_view(*lines) == all,
                device_from(all, 0) == device_from(all, i as int),
            decreases n - i,
        {
            assert(all[i as int] == lines@[i as int]@);
            if contains_str(lines[i].as_str(), "Hardware Port: Wi-Fi") || contains_str(
                lines[i].as_str(),
                "Hardware Port: AirPort",
            ) {
                let found = device_near(lines, i + 1, 3);
                match found {
                    Some(d) => return Some(d),
                    None => {},
                }
                if n - i <= 4 {
                    assert(device_from(all, i + 4) is None);
                    return None;
                }
                i = i + 4;
            } else {
                i = i + 1;
            }
        }
        None
    }

    /// Whether `networksetup -getairportpower` reports the power on.
    pub fn power_on(&self, power_out: &str) -> (r: bool)
        ensures
            r == text_contains(power_out@, "On"@),
    {
        contains_str(power_out, "On")
    }
}

} // verus!
