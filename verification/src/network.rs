//! The network, as the network manager's command line tool reports it: what
//! its answers mean, and which calls of it a task takes.

use crate::command::strings;
use crate::model::opt_text;
use crate::text::{
    append_str, from_chars, lines, lines_of, parse_bounded, parse_number, rows, same, same_str,
    slice, split, split_chars, texts, to_chars, trim, trim_chars,
};
use vstd::prelude::*;

verus! {

/// A wireless network in reach.
#[derive(Clone, Debug, PartialEq, Eq)]
pub struct WifiNetwork {
    /// The network's name.
    pub ssid: String,
    /// The strength of its signal, in percent.
    pub signal: u8,
    /// How it is secured, as the tool writes it.
    pub security: String,
    /// Whether the machine is connected to it.
    pub in_use: bool,
}

/// What a `WifiNetwork` holds, as plain values.
pub struct WifiView {
    pub ssid: Seq<char>,
    pub signal: u8,
    pub security: Seq<char>,
    pub in_use: bool,
}

impl View for WifiNetwork {
    type V = WifiView;

    open spec fn view(&self) -> WifiView {
        WifiView {
            ssid: self.ssid@,
            signal: self.signal,
            security: self.security@,
            in_use: self.in_use,
        }
    }
}

impl WifiView {
    /// The network asks for no password.
    pub open spec fn is_open(self) -> bool {
        trim(self.security).len() == 0 || trim(self.security) == "--"@
    }
}

impl WifiNetwork {
    /// Whether the network asks for no password.
    pub fn is_open(&self) -> (r: bool)
        ensures
            r == self@.is_open(),
    {
        let security = trim_chars(&to_chars(self.security.as_str()));
        security.len() == 0 || same_str(&security, "--")
    }
}

/// How far the machine reaches into the internet.
#[derive(Clone, Copy, Debug, PartialEq, Eq, Structural)]
pub enum Connectivity {
    /// The internet is reached.
    Full,
    /// A network is reached, the internet may not be.
    Limited,
    /// A login page stands in the way.
    Portal,
    /// No network is reached.
    Disconnected,
    /// The tool gave no answer that is known.
    Unknown,
}

/// What the tool's answer to the question of connectivity means.
pub open spec fn connectivity_of(output: Seq<char>) -> Connectivity {
    let word = trim(output);
    if word == "full"@ {
        Connectivity::Full
    } else if word == "limited"@ {
        Connectivity::Limited
    } else if word == "portal"@ {
        Connectivity::Portal
    } else if word == "none"@ {
        Connectivity::Disconnected
    } else {
        Connectivity::Unknown
    }
}

/// What the tool's answer to the question of connectivity means.
pub fn connectivity_status(output: &str) -> (r: Connectivity)
    ensures
        r == connectivity_of(output@),
{
    let word = trim_chars(&to_chars(output));
    if same_str(&word, "full") {
        Connectivity::Full
    } else if same_str(&word, "limited") {
        Connectivity::Limited
    } else if same_str(&word, "portal") {
        Connectivity::Portal
    } else if same_str(&word, "none") {
        Connectivity::Disconnected
    } else {
        Connectivity::Unknown
    }
}

/// Field `n` of a line whose fields are separated by colons, or the empty
/// text where the line has no such field.
pub open spec fn field(line: Seq<char>, n: int) -> Seq<char> {
    nth_or_empty(split(line, ':'), n)
}

/// Element `n` of `parts`, or the empty text where there is none.
pub open spec fn nth_or_empty(parts: Seq<Seq<char>>, n: int) -> Seq<char> {
    if 0 <= n < parts.len() {
        parts[n]
    } else {
        Seq::empty()
    }
}

fn field_of(parts: &Vec<Vec<char>>, n: usize) -> (out: Vec<char>)
    ensures
        out@ == nth_or_empty(rows(parts@), n as int),
{
    if n < parts.len() {
        slice(&parts[n], 0, parts[n].len())
    } else {
        Vec::new()
    }
}

/// What is looked for in a line of a listing.
pub enum Pick {
    /// The label of a connection, in a listing `TYPE,STATE,CONNECTION`.
    Label,
    /// The name of a wireless device, in a listing `DEVICE,TYPE`.
    WifiName,
    /// The state of the device with this name, in a listing `DEVICE,STATE`.
    StateOf(Seq<char>),
}

/// What is asked of a line of a listing.
pub enum Test {
    /// Whether a device is connected, in a listing `DEVICE,TYPE,STATE`.
    Connected,
    /// Whether a device is wireless, in a listing `TYPE`.
    IsWifi,
    /// Whether the device with this name is connected, in a listing `DEVICE,STATE`.
    DeviceConnected(Seq<char>),
}

/// What `pick` finds in `line`.
pub open spec fn picked(pick: Pick, line: Seq<char>) -> Option<Seq<char>> {
    match pick {
        Pick::Label => label_of_line(line),
        Pick::WifiName => wifi_name_of_line(line),
        Pick::StateOf(device) => state_of_line(device, line),
    }
}

/// Whether `test` holds of `line`.
pub open spec fn passes(test: Test, line: Seq<char>) -> bool {
    match test {
        Test::Connected => line_is_connected(line),
        Test::IsWifi => trim(line) == "wifi"@,
        Test::DeviceConnected(device) => trim(field(line, 0)) == device && trim(field(line, 1))
            == "connected"@,
    }
}

/// The first thing that `pick` finds, going through the lines in order.
pub open spec fn first_match(listing: Seq<Seq<char>>, pick: Pick) -> Option<Seq<char>>
    decreases listing.len(),
{
    if listing.len() == 0 {
        None
    } else if picked(pick, listing[0]) is Some {
        picked(pick, listing[0])
    } else {
        first_match(listing.skip(1), pick)
    }
}

/// Whether `test` holds of some line.
pub open spec fn any_line(listing: Seq<Seq<char>>, test: Test) -> bool {
    exists|i: int| 0 <= i < listing.len() && passes(test, #[trigger] listing[i])
}

/// A device of the listing is connected.
pub open spec fn line_is_connected(line: Seq<char>) -> bool {
    field(line, 2) == "connected"@
}

/// Whether some device of the listing `DEVICE,TYPE,STATE` is connected.
pub fn has_connected_device(output: &str) -> (r: bool)
    ensures
        r == any_line(lines(output@), Test::Connected),
{
    let listing = lines_of(&to_chars(output));
    let ghost test = Test::Connected;
    let mut i: usize = 0;
    while i < listing.len()
        invariant
            i <= listing.len(),
            test == Test::Connected,
            rows(listing@) == lines(output@),
            forall|j: int| 0 <= j < i ==> !passes(test, #[trigger] rows(listing@)[j]),
        decreases listing.len() - i,
    {
        let parts = split_chars(&listing[i], ':');
        let state = field_of(&parts, 2);
        assert(rows(listing@)[i as int] == listing@[i as int]@);
        if same_str(&state, "connected") {
            return true;
        }
        i += 1;
    }
    false
}

/// Whether the network is good enough to install over: so with full or
/// limited connectivity, not behind a login page or without a network, and,
/// where the connectivity is unknown, if some device of the listing
/// `DEVICE,TYPE,STATE` is connected.
pub fn is_network_ready(status: Connectivity, devices: &str) -> (r: bool)
    ensures
        r == match status {
            Connectivity::Full | Connectivity::Limited => true,
            Connectivity::Portal | Connectivity::Disconnected => false,
            Connectivity::Unknown => any_line(lines(devices@), Test::Connected),
        },
{
    match status {
        Connectivity::Full | Connectivity::Limited => true,
        Connectivity::Portal | Connectivity::Disconnected => false,
        Connectivity::Unknown => has_connected_device(devices),
    }
}

/// The label of the connection that a line of the listing `TYPE,STATE,CONNECTION`
/// shows: `Wired` for a connected wired device, the connection's name for
/// another connected device, and none for a device that is not connected or
/// whose label would be empty.
pub open spec fn label_of_line(line: Seq<char>) -> Option<Seq<char>> {
    let label = if field(line, 0) == "ethernet"@ {
        "Wired"@
    } else {
        trim(field(line, 2))
    };
    if field(line, 1) == "connected"@ && label.len() > 0 {
        Some(label)
    } else {
        None
    }
}

/// The label of the first connection that the listing `TYPE,STATE,CONNECTION` shows.
pub fn active_connection_label(output: &str) -> (r: Option<String>)
    ensures
        opt_text(r) == first_match(lines(output@), Pick::Label),
{
    let listing = lines_of(&to_chars(output));
    let ghost pick = Pick::Label;
    let mut i: usize = 0;
    assert(rows(listing@).skip(0) =~= rows(listing@));
    while i < listing.len()
        invariant
            i <= listing.len(),
            pick == Pick::Label,
            rows(listing@) == lines(output@),
            first_match(rows(listing@).skip(i as int), pick) == first_match(rows(listing@), pick),
        decreases listing.len() - i,
    {
        proof {
            let rest = rows(listing@).skip(i as int);
            assert(rest.skip(1) =~= rows(listing@).skip(i + 1));
        }
        let parts = split_chars(&listing[i], ':');
        let conn_type = field_of(&parts, 0);
        let state = field_of(&parts, 1);
        let connection = trim_chars(&field_of(&parts, 2));
        if same_str(&state, "connected") {
            let label = if same_str(&conn_type, "ethernet") {
                to_chars("Wired")
            } else {
                connection
            };
            if label.len() > 0 {
                return Some(from_chars(&label));
            }
        }
        i += 1;
    }
    None
}

/// Whether the listing `TYPE` shows a wireless device.
pub fn has_wifi_device(output: &str) -> (r: bool)
    ensures
        r == any_line(lines(output@), Test::IsWifi),
{
    let listing = lines_of(&to_chars(output));
    let ghost test = Test::IsWifi;
    let mut i: usize = 0;
    while i < listing.len()
        invariant
            i <= listing.len(),
            test == Test::IsWifi,
            rows(listing@) == lines(output@),
            forall|j: int| 0 <= j < i ==> !passes(test, #[trigger] rows(listing@)[j]),
        decreases listing.len() - i,
    {
        assert(rows(listing@)[i as int] == listing@[i as int]@);
        if same_str(&trim_chars(&listing[i]), "wifi") {
            return true;
        }
        i += 1;
    }
    false
}

/// The name of the wireless device that a line of the listing `DEVICE,TYPE` shows.
pub open spec fn wifi_name_of_line(line: Seq<char>) -> Option<Seq<char>> {
    if trim(field(line, 1)) == "wifi"@ && trim(field(line, 0)).len() > 0 {
        Some(trim(field(line, 0)))
    } else {
        None
    }
}

/// The name of the first wireless device that the listing `DEVICE,TYPE` shows.
pub fn wifi_device_name(output: &str) -> (r: Option<String>)
    ensures
        opt_text(r) == first_match(lines(output@), Pick::WifiName),
{
    let listing = lines_of(&to_chars(output));
    let ghost pick = Pick::WifiName;
    let mut i: usize = 0;
    assert(rows(listing@).skip(0) =~= rows(listing@));
    while i < listing.len()
        invariant
            i <= listing.len(),
            pick == Pick::WifiName,
            rows(listing@) == lines(output@),
            first_match(rows(listing@).skip(i as int), pick) == first_match(rows(listing@), pick),
        decreases listing.len() - i,
    {
        proof {
            let rest = rows(listing@).skip(i as int);
            assert(rest[0] == listing@[i as int]@);
            assert(rest.skip(1) =~= rows(listing@).skip(i + 1));
        }
        let parts = split_chars(&listing[i], ':');
        let device = trim_chars(&field_of(&parts, 0));
        let dev_type = trim_chars(&field_of(&parts, 1));
        if same_str(&dev_type, "wifi") && device.len() > 0 {
            return Some(from_chars(&device));
        }
        i += 1;
    }
    None
}

/// One call of the network manager's tool.
#[derive(Debug, Clone, PartialEq, Eq)]
pub struct NmcliCall {
    /// The arguments of the call.
    pub args: Vec<String>,
    /// Whether a failure of the call ends the task.
    pub fatal: bool,
}

/// The call that disconnects the wireless device that the listing
/// `DEVICE,TYPE` shows, to clear a state in which it is stuck; none where
/// the listing shows no such device. A failure of the call does not matter.
pub fn disconnect_wifi_device(output: &str) -> (r: Option<NmcliCall>)
    ensures
        match first_match(lines(output@), Pick::WifiName) {
            Some(device) => r is Some && !r->0.fatal && texts(r->0.args@) == seq![
                "dev"@,
                "disconnect"@,
                device,
            ],
            None => r is None,
        },
{
    match wifi_device_name(output) {
        Some(device) => {
            let mut args = strings(&["dev", "disconnect"]);
            args.push(device);
            Some(NmcliCall { args, fatal: false })
        },
        None => None,
    }
}

/// Whether the listing `DEVICE,STATE` shows `device` as connected.
pub fn is_wifi_connected(device: Option<&str>, output: &str) -> (r: bool)
    ensures
        r == (device is Some && any_line(lines(output@), Test::DeviceConnected(device->0@))),
{
    let name = match device {
        Some(name) => to_chars(name),
        None => {
            return false;
        },
    };
    let listing = lines_of(&to_chars(output));
    let ghost test = Test::DeviceConnected(device->0@);
    let mut i: usize = 0;
    while i < listing.len()
        invariant
            i <= listing.len(),
            rows(listing@) == lines(output@),
            device is Some,
            name@ == device->0@,
            test == Test::DeviceConnected(device->0@),
            forall|j: int| 0 <= j < i ==> !passes(test, #[trigger] rows(listing@)[j]),
        decreases listing.len() - i,
    {
        assert(rows(listing@)[i as int] == listing@[i as int]@);
        let parts = split_chars(&listing[i], ':');
        let dev = trim_chars(&field_of(&parts, 0));
        let state = trim_chars(&field_of(&parts, 1));
        if same(&dev, &name) && same_str(&state, "connected") {
            return true;
        }
        i += 1;
    }
    false
}

/// The state of `device` that a line of the listing `DEVICE,STATE` shows.
pub open spec fn state_of_line(device: Seq<char>, line: Seq<char>) -> Option<Seq<char>> {
    if trim(field(line, 0)) == device && trim(field(line, 1)).len() > 0 {
        Some(trim(field(line, 1)))
    } else {
        None
    }
}

/// The state of `device` that the listing `DEVICE,STATE` shows.
pub fn wifi_device_state(device: Option<&str>, output: &str) -> (r: Option<String>)
    ensures
        opt_text(r) == (if device is Some {
            first_match(lines(output@), Pick::StateOf(device->0@))
        } else {
            None
        }),
{
    let name = match device {
        Some(name) => to_chars(name),
        None => {
            return None;
        },
    };
    let listing = lines_of(&to_chars(output));
    let ghost pick = Pick::StateOf(device->0@);
    let mut i: usize = 0;
    assert(rows(listing@).skip(0) =~= rows(listing@));
    while i < listing.len()
        invariant
            i <= listing.len(),
            pick == Pick::StateOf(device->0@),
            rows(listing@) == lines(output@),
            device is Some,
            name@ == device->0@,
            first_match(rows(listing@).skip(i as int), pick) == first_match(rows(listing@), pick),
        decreases listing.len() - i,
    {
        proof {
            let rest = rows(listing@).skip(i as int);
            assert(rest.skip(1) =~= rows(listing@).skip(i + 1));
        }
        let parts = split_chars(&listing[i], ':');
        let dev = trim_chars(&field_of(&parts, 0));
        let state = trim_chars(&field_of(&parts, 1));
        if same(&dev, &name) && state.len() > 0 {
            return Some(from_chars(&state));
        }
        i += 1;
    }
    None
}

/// The message of a failed call: what the tool wrote to its error stream,
/// or, where that is empty, to its output, trimmed.
pub open spec fn failure_text(stdout: Seq<char>, stderr: Seq<char>) -> Seq<char> {
    if trim(stderr).len() > 0 {
        trim(stderr)
    } else {
        trim(stdout)
    }
}

/// The message of a failed call whose answer was wanted.
pub fn nmcli_failure(stdout: &str, stderr: &str) -> (out: String)
    ensures
        out@ == "nmcli failed: "@ + failure_text(stdout@, stderr@),
{
    let mut out = to_chars("nmcli failed: ");
    let detail = nmcli_status_failure(stdout, stderr);
    append_str(&mut out, detail.as_str());
    from_chars(&out)
}

/// The message of a failed call of which only the success was wanted.
pub fn nmcli_status_failure(stdout: &str, stderr: &str) -> (out: String)
    ensures
        out@ == failure_text(stdout@, stderr@),
{
    let err = trim_chars(&to_chars(stderr));
    if err.len() > 0 {
        from_chars(&err)
    } else {
        from_chars(&trim_chars(&to_chars(stdout)))
    }
}

/// The views of a list of networks.
pub open spec fn wifi_views(v: Seq<WifiNetwork>) -> Seq<WifiView> {
    Seq::new(v.len(), |i: int| v[i]@)
}

/// The strength that a field of the listing writes: a number up to 255, and
/// zero for anything else.
pub open spec fn signal_of(text: Seq<char>) -> u8 {
    match parse_bounded(text, 255) {
        Some(n) => n as u8,
        None => 0,
    }
}

/// The network that a line of the listing `IN-USE,SSID,SIGNAL,SECURITY`
/// shows; none where the line names no network.
pub open spec fn network_of_line(line: Seq<char>) -> Option<WifiView> {
    let parts = split(line, ':');
    if trim(field(line, 1)).len() == 0 {
        None
    } else {
        Some(
            WifiView {
                ssid: trim(field(line, 1)),
                signal: signal_of(
                    trim(
                        if parts.len() > 2 {
                            parts[2]
                        } else {
                            seq!['0']
                        },
                    ),
                ),
                security: trim(field(line, 3)),
                in_use: trim(field(line, 0)) == "*"@,
            },
        )
    }
}

/// The networks that the lines of a listing show, in order.
pub open spec fn networks_of(listing: Seq<Seq<char>>) -> Seq<WifiView>
    decreases listing.len(),
{
    if listing.len() == 0 {
        Seq::empty()
    } else {
        networks_of(listing.drop_last()) + (match network_of_line(listing.last()) {
            Some(n) => seq![n],
            None => Seq::empty(),
        })
    }
}

/// Whether `a` is listed before `b`: so with the stronger signal, and with
/// equal signals by the order of their names.
pub open spec fn outranks(a: WifiView, b: WifiView) -> bool {
    a.signal > b.signal || (a.signal == b.signal && crate::text::text_lt(a.ssid, b.ssid))
}

/// Where `x` goes in the ranked list `ranked`: before the first network
/// that it outranks.
pub open spec fn rank_position(ranked: Seq<WifiView>, x: WifiView) -> int
    decreases ranked.len(),
{
    if ranked.len() == 0 || outranks(x, ranked[0]) {
        0
    } else {
        1 + rank_position(ranked.skip(1), x)
    }
}

/// The networks by rank; networks of equal rank keep their order.
pub open spec fn ranked(list: Seq<WifiView>) -> Seq<WifiView>
    decreases list.len(),
{
    if list.len() == 0 {
        Seq::empty()
    } else {
        let before = ranked(list.drop_last());
        before.insert(rank_position(before, list.last()), list.last())
    }
}

/// A position in range, with nothing before it that `x` outranks, and with
/// a network at it that `x` outranks unless it is the end.
pub proof fn lemma_rank_position(ranked: Seq<WifiView>, x: WifiView, k: int)
    requires
        0 <= k <= ranked.len(),
        forall|j: int| 0 <= j < k ==> !outranks(x, #[trigger] ranked[j]),
        k == ranked.len() || outranks(x, ranked[k]),
    ensures
        rank_position(ranked, x) == k,
    decreases k,
{
    if k > 0 {
        let t = ranked.skip(1);
        lemma_rank_position(t, x, k - 1);
    }
}

fn copy_network(n: &WifiNetwork) -> (r: WifiNetwork)
    ensures
        r@ == n@,
{
    WifiNetwork {
        ssid: n.ssid.clone(),
        signal: n.signal,
        security: n.security.clone(),
        in_use: n.in_use,
    }
}

fn network_outranks(a: &WifiNetwork, b: &WifiNetwork) -> (r: bool)
    ensures
        r == outranks(a@, b@),
{
    if a.signal != b.signal {
        a.signal > b.signal
    } else {
        crate::text::comes_first(&to_chars(a.ssid.as_str()), &to_chars(b.ssid.as_str()))
    }
}

/// The networks by rank: the strongest signal first, equal signals by name.
pub fn rank_networks(list: &Vec<WifiNetwork>) -> (out: Vec<WifiNetwork>)
    ensures
        wifi_views(out@) == ranked(wifi_views(list@)),
{
    let mut out: Vec<WifiNetwork> = Vec::new();
    let mut i: usize = 0;
    while i < list.len()
        invariant
            i <= list.len(),
            out.len() == i,
            wifi_views(out@) == ranked(wifi_views(list@).take(i as int)),
        decreases list.len() - i,
    {
        proof {
            let next = wifi_views(list@).take(i + 1);
            assert(next.drop_last() =~= wifi_views(list@).take(i as int));
        }
        let x = copy_network(&list[i]);
        let mut k: usize = 0;
        while k < out.len() && !network_outranks(&x, &out[k])
            invariant
                k <= out.len(),
                forall|j: int| 0 <= j < k ==> !outranks(x@, #[trigger] wifi_views(out@)[j]),
            decreases out.len() - k,
        {
            k += 1;
        }
        proof {
            lemma_rank_position(wifi_views(out@), x@, k as int);
        }
        out.insert(k, x);
        i += 1;
    }
    assert(wifi_views(list@).take(list.len() as int) =~= wifi_views(list@));
    out
}

/// The network that a line of the listing `IN-USE,SSID,SIGNAL,SECURITY` shows.
pub fn parse_wifi_line(line: &Vec<char>) -> (r: Option<WifiNetwork>)
    ensures
        match r {
            Some(n) => network_of_line(line@) == Some(n@),
            None => network_of_line(line@) is None,
        },
{
    let parts = split_chars(line, ':');
    let in_use = same_str(&trim_chars(&field_of(&parts, 0)), "*");
    let ssid = trim_chars(&field_of(&parts, 1));
    if ssid.len() == 0 {
        return None;
    }
    let raw = if parts.len() > 2 {
        field_of(&parts, 2)
    } else {
        let mut zero: Vec<char> = Vec::new();
        zero.push('0');
        zero
    };
    let signal: u8 = match parse_number(&trim_chars(&raw), 255) {
        Some(n) => n as u8,
        None => 0,
    };
    let security = trim_chars(&field_of(&parts, 3));
    Some(
        WifiNetwork {
            ssid: from_chars(&ssid),
            signal,
            security: from_chars(&security),
            in_use,
        },
    )
}

/// The networks that the listing `IN-USE,SSID,SIGNAL,SECURITY` shows, by rank.
pub fn list_wifi_networks(output: &str) -> (out: Vec<WifiNetwork>)
    ensures
        wifi_views(out@) == ranked(networks_of(lines(output@))),
{
    let listing = lines_of(&to_chars(output));
    let mut found: Vec<WifiNetwork> = Vec::new();
    let mut i: usize = 0;
    while i < listing.len()
        invariant
            i <= listing.len(),
            wifi_views(found@) == networks_of(rows(listing@).take(i as int)),
        decreases listing.len() - i,
    {
        proof {
            let next = rows(listing@).take(i + 1);
            assert(next.drop_last() =~= rows(listing@).take(i as int));
        }
        match parse_wifi_line(&listing[i]) {
            Some(n) => {
                found.push(n);
            },
            None => {},
        }
        i += 1;
    }
    assert(rows(listing@).take(listing.len() as int) =~= rows(listing@));
    rank_networks(&found)
}

/// What an `NmcliCall` holds, as plain values.
pub struct CallView {
    pub args: Seq<Seq<char>>,
    pub fatal: bool,
}

impl View for NmcliCall {
    type V = CallView;

    open spec fn view(&self) -> CallView {
        CallView { args: texts(self.args@), fatal: self.fatal }
    }
}

/// The views of a list of calls.
pub open spec fn call_views(v: Seq<NmcliCall>) -> Seq<CallView> {
    Seq::new(v.len(), |i: int| v[i]@)
}

/// The call that deletes the connection profile `name`; its failure does not matter.
pub open spec fn delete_call(name: Seq<char>) -> CallView {
    CallView { args: seq!["connection"@, "delete"@, "id"@, name], fatal: false }
}

/// The calls that connect to the network `ssid` under the profile `name`:
/// the old profile is deleted, a new one is added, bound to `device` if one
/// is given, the password is set if one is given, and the profile is brought
/// up. A device or password of whitespace counts as not given.
pub open spec fn connect_calls(
    ssid: Seq<char>,
    password: Option<Seq<char>>,
    device: Option<Seq<char>>,
    name: Seq<char>,
) -> Seq<CallView> {
    let add = seq![
        "connection"@,
        "add"@,
        "type"@,
        "wifi"@,
        "con-name"@,
        name,
        "ssid"@,
        ssid,
    ] + (if device is Some && trim(device->0).len() > 0 {
        seq!["ifname"@, device->0]
    } else {
        Seq::empty()
    });
    seq![delete_call(name), CallView { args: add, fatal: true }] + (if password is Some && trim(
        password->0,
    ).len() > 0 {
        seq![
            CallView {
                args: seq![
                    "connection"@,
                    "modify"@,
                    name,
                    "wifi-sec.key-mgmt"@,
                    "wpa-psk"@,
                    "wifi-sec.psk"@,
                    password->0,
                ],
                fatal: true,
            },
        ]
    } else {
        Seq::empty()
    }) + seq![CallView { args: seq!["connection"@, "up"@, "id"@, name], fatal: true }]
}

fn is_blank(s: &str) -> (r: bool)
    ensures
        r == (trim(s@).len() == 0),
{
    trim_chars(&to_chars(s)).len() == 0
}

fn delete_profile(name: &str) -> (c: NmcliCall)
    ensures
        c@ == delete_call(name@),
{
    let args = strings(&["connection", "delete", "id", name]);
    assert(texts(args@) =~= delete_call(name@).args);
    NmcliCall { args, fatal: false }
}

/// The calls that connect to the network `ssid`, under the profile `name`
/// or, where none is given, under the network's own name.
pub fn connect_wifi_profile(
    ssid: &str,
    password: Option<&str>,
    device: Option<&str>,
    name: Option<&str>,
) -> (out: Vec<NmcliCall>)
    ensures
        call_views(out@) == connect_calls(
            ssid@,
            match password {
                Some(p) => Some(p@),
                None => None,
            },
            match device {
                Some(d) => Some(d@),
                None => None,
            },
            match name {
                Some(n) => n@,
                None => ssid@,
            },
        ),
{
    let name: &str = match name {
        Some(n) => n,
        None => ssid,
    };
    let mut out: Vec<NmcliCall> = Vec::new();
    out.push(delete_profile(name));
    let mut add = strings(&["connection", "add", "type", "wifi", "con-name", name, "ssid", ssid]);
    let ghost add0 = texts(add@);
    assert(add0 =~= seq![
        "connection"@,
        "add"@,
        "type"@,
        "wifi"@,
        "con-name"@,
        name@,
        "ssid"@,
        ssid@,
    ]);
    let mut with_device = false;
    match device {
        Some(d) => {
            if !is_blank(d) {
                add.push("ifname".to_owned());
                add.push(d.to_owned());
                assert(texts(add@) =~= add0 + seq!["ifname"@, d@]);
                with_device = true;
            }
        },
        None => {},
    }
    out.push(NmcliCall { args: add, fatal: true });
    let mut with_password = false;
    match password {
        Some(p) => {
            if !is_blank(p) {
                let args = strings(
                    &[
                        "connection",
                        "modify",
                        name,
                        "wifi-sec.key-mgmt",
                        "wpa-psk",
                        "wifi-sec.psk",
                        p,
                    ],
                );
                assert(texts(args@) =~= seq![
                    "connection"@,
                    "modify"@,
                    name@,
                    "wifi-sec.key-mgmt"@,
                    "wpa-psk"@,
                    "wifi-sec.psk"@,
                    p@,
                ]);
                out.push(NmcliCall { args, fatal: true });
                with_password = true;
            }
        },
        None => {},
    }
    let up = strings(&["connection", "up", "id", name]);
    assert(texts(up@) =~= seq!["connection"@, "up"@, "id"@, name@]);
    out.push(NmcliCall { args: up, fatal: true });
    out
}

/// The name of the wireless profile that a line of the listing `NAME,TYPE` shows.
pub open spec fn wifi_profile_of_line(line: Seq<char>) -> Option<Seq<char>> {
    if trim(field(line, 1)) == "wifi"@ && trim(field(line, 0)).len() > 0 {
        Some(trim(field(line, 0)))
    } else {
        None
    }
}

/// The calls that delete the wireless profiles of a listing, line by line.
pub open spec fn forget_calls(listing: Seq<Seq<char>>) -> Seq<CallView>
    decreases listing.len(),
{
    if listing.len() == 0 {
        Seq::empty()
    } else {
        forget_calls(listing.drop_last()) + (match wifi_profile_of_line(listing.last()) {
            Some(name) => seq![delete_call(name)],
            None => Seq::empty(),
        })
    }
}

/// The calls that delete every wireless profile that the listing
/// `NAME,TYPE` shows, whatever network is to be forgotten, so that no stale
/// password stays behind.
pub fn forget_wifi_connection(_ssid: &str, output: &str) -> (out: Vec<NmcliCall>)
    ensures
        call_views(out@) == forget_calls(lines(output@)),
{
    let listing = lines_of(&to_chars(output));
    let mut out: Vec<NmcliCall> = Vec::new();
    let mut i: usize = 0;
    while i < listing.len()
        invariant
            i <= listing.len(),
            call_views(out@) == forget_calls(rows(listing@).take(i as int)),
        decreases listing.len() - i,
    {
        proof {
            let next = rows(listing@).take(i + 1);
            assert(next.drop_last() =~= rows(listing@).take(i as int));
        }
        let ghost before = call_views(out@);
        let parts = split_chars(&listing[i], ':');
        let name = trim_chars(&field_of(&parts, 0));
        let conn_type = trim_chars(&field_of(&parts, 1));
        if same_str(&conn_type, "wifi") && name.len() > 0 {
            let text = from_chars(&name);
            let call = delete_profile(text.as_str());
            out.push(call);
        }
        i += 1;
    }
    assert(rows(listing@).take(listing.len() as int) =~= rows(listing@));
    out
}

/// Whether no network of `list` outranks one that stands before it.
pub open spec fn in_rank_order(list: Seq<WifiView>) -> bool {
    forall|i: int, j: int| 0 <= i < j < list.len() ==> !outranks(
        #[trigger] list[j],
        #[trigger] list[i],
    )
}

/// Where a network goes lies in the list or at its end; it outranks
/// nothing before that place, and outranks what stands at it.
pub proof fn lemma_rank_bounds(ranked: Seq<WifiView>, x: WifiView)
    ensures
        0 <= rank_position(ranked, x) <= ranked.len(),
        forall|j: int| 0 <= j < rank_position(ranked, x) ==> !outranks(x, #[trigger] ranked[j]),
        rank_position(ranked, x) < ranked.len() ==> outranks(x, ranked[rank_position(ranked, x)]),
    decreases ranked.len(),
{
    if ranked.len() != 0 && !outranks(x, ranked[0]) {
        let t = ranked.skip(1);
        lemma_rank_bounds(t, x);
        assert forall|j: int| 0 <= j < rank_position(ranked, x) implies !outranks(
            x,
            #[trigger] ranked[j],
        ) by {
            if j > 0 {
                assert(t[j - 1] == ranked[j]);
            }
        }
    }
}

/// The ranked list is in rank order and holds the networks of the list it
/// was made of, each as often as that list.
pub proof fn law_ranked(list: Seq<WifiView>)
    ensures
        in_rank_order(ranked(list)),
        ranked(list).to_multiset() =~= list.to_multiset(),
        ranked(list).len() == list.len(),
    decreases list.len(),
{
    broadcast use vstd::seq_lib::group_to_multiset_ensures;

    if list.len() > 0 {
        let front = list.drop_last();
        let x = list.last();
        law_ranked(front);
        let before = ranked(front);
        let k = rank_position(before, x);
        lemma_rank_bounds(before, x);
        let out = before.insert(k, x);
        assert forall|i: int, j: int| 0 <= i < j < out.len() implies !outranks(
            #[trigger] out[j],
            #[trigger] out[i],
        ) by {
            if j > k && i == k {
                if outranks(before[j - 1], x) {
                    crate::text::lemma_text_lt_total(before[j - 1].ssid, x.ssid);
                    if before[j - 1].signal == x.signal && x.signal == before[k].signal {
                        crate::text::lemma_text_lt_transitive(
                            before[j - 1].ssid,
                            x.ssid,
                            before[k].ssid,
                        );
                    }
                    if j - 1 <= k {
                        crate::text::lemma_text_lt_irreflexive(before[k].ssid);
                    }
                }
            }
        }
        assert(list =~= front.push(x));
    }
}

} // verus!
