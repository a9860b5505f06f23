//! Bringing up the network: the choice of a channel, the steps from a scan to a
//! gateway that answers, and the verdict on a ping.
use vstd::prelude::*;
use vstd::string::StringExecFns;

use crate::text;

verus! {

/// The name of the access point that the device itself offers.
pub const OWN_SSID: &'static str = "aptest";

/// The channel of the device's own access point where no other is known.
pub const DEFAULT_CHANNEL: u8 = 1;

/// How long the client waits for the radio, and then for an address, in seconds.
pub const WAIT_SECS: u64 = 20;

/// An access point that a scan found.
#[derive(Debug)]
pub struct AccessPoint {
    pub ssid: String,
    pub channel: u8,
}

/// The settings of the radio, as client and as access point.
#[derive(Debug)]
pub struct WifiConfiguration {
    pub ssid: String,
    pub password: String,
    pub channel: Option<u8>,
    pub own_ssid: String,
    pub own_channel: u8,
}

/// The channel of the first access point with a name.
pub open spec fn channel_of(scan: Seq<AccessPoint>, ssid: Seq<char>) -> Option<u8>
    decreases scan.len(),
{
    if scan.len() == 0 {
        None
    } else if scan[0].ssid@ == ssid {
        Some(scan[0].channel)
    } else {
        channel_of(scan.drop_first(), ssid)
    }
}

/// Whether settings join the network `ssid`, with `password`, on the channel where a
/// scan found it, and offer the device's own access point on the same channel.
pub open spec fn configures(
    configuration: WifiConfiguration,
    ssid: Seq<char>,
    password: Seq<char>,
    channel: Option<u8>,
) -> bool {
    &&& configuration.ssid@ == ssid
    &&& configuration.password@ == password
    &&& configuration.channel == channel
    &&& configuration.own_ssid@ == OWN_SSID@
    &&& configuration.own_channel == match channel {
        Some(channel) => channel,
        None => DEFAULT_CHANNEL,
    }
}

/// The channel of the first access point of that name in a scan.
pub fn find_channel(scan: &Vec<AccessPoint>, ssid: &String) -> (channel: Option<u8>)
    ensures
        channel == channel_of(scan@, ssid@),
{
    let mut i: usize = 0;
    assert(scan@.skip(0) =~= scan@);
    while i < scan.len()
        invariant
            i <= scan@.len(),
            channel_of(scan@, ssid@) == channel_of(scan@.skip(i as int), ssid@),
        decreases scan@.len() - i,
    {
        if scan[i].ssid == *ssid {
            return Some(scan[i].channel);
        }
        assert(scan@.skip(i as int).drop_first() =~= scan@.skip(i + 1));
        i += 1;
    }
    None
}

/// The settings for a network that a scan found on `channel`, or did not find.
pub fn configuration(ssid: &String, password: &String, channel: Option<u8>) -> (result:
    WifiConfiguration)
    ensures
        configures(result, ssid@, password@, channel),
        result.channel == channel,
        channel matches Some(found) ==> result.own_channel == found,
        channel is None ==> result.own_channel == 1,
{
    WifiConfiguration {
        ssid: ssid.clone(),
        password: password.clone(),
        channel,
        own_ssid: OWN_SSID.to_string(),
        own_channel: match channel {
            Some(channel) => channel,
            None => DEFAULT_CHANNEL,
        },
    }
}

/// Whether a station is connected and has an address.
pub open spec fn is_leased(connected: bool, ip: Seq<u8>) -> bool {
    connected && ip != seq![0u8, 0u8, 0u8, 0u8]
}

/// Whether the station is connected and has an address.
pub fn has_lease(connected: bool, ip: [u8; 4]) -> (leased: bool)
    ensures
        leased <==> connected && ip@ != seq![0u8, 0u8, 0u8, 0u8],
        leased == is_leased(connected, ip@),
{
    let zero = ip[0] == 0 && ip[1] == 0 && ip[2] == 0 && ip[3] == 0;
    assert(zero <==> ip@ =~= seq![0u8, 0u8, 0u8, 0u8]);
    connected && !zero
}

/// Why the network did not come up.
#[derive(Debug, Clone, Copy, PartialEq, Eq)]
pub enum WifiError {
    /// The radio did not start in time.
    NotStarted,
    /// The station did not connect, or got no address, in time.
    NotConnected,
    /// Not every ping of this address was answered.
    Timeouts([u8; 4]),
}

/// What an error says.
pub open spec fn error_text(error: WifiError) -> Seq<char> {
    match error {
        WifiError::NotStarted => "Wifi did not start"@,
        WifiError::NotConnected => "Wifi did not connect or did not receive a DHCP lease"@,
        WifiError::Timeouts(ip) => "Pinging IP "@ + text::address_text(ip)
            + " resulted in timeouts"@,
    }
}

impl WifiError {
    /// What the error says.
    pub fn message(&self) -> (message: String)
        ensures
            message@ == error_text(*self),
    {
        match *self {
            WifiError::NotStarted => "Wifi did not start".to_string(),
            WifiError::NotConnected => "Wifi did not connect or did not receive a DHCP lease".to_string(),
            WifiError::Timeouts(ip) => {
                let mut message = text::joined("Pinging IP ", text::address(ip).as_str());
                message.append(" resulted in timeouts");
                message
            },
        }
    }
}

/// The verdict on a series of pings.
pub open spec fn verdict_on(ip: [u8; 4], transmitted: u32, received: u32) -> Result<
    (),
    WifiError,
> {
    if transmitted == received {
        Ok(())
    } else {
        Err(WifiError::Timeouts(ip))
    }
}

/// The verdict on a series of pings: every one that was sent has to be answered.
pub fn ping(ip: [u8; 4], transmitted: u32, received: u32) -> (verdict: Result<(), WifiError>)
    ensures
        verdict == if transmitted == received {
            Ok::<(), WifiError>(())
        } else {
            Err(WifiError::Timeouts(ip))
        },
        verdict == verdict_on(ip, transmitted, received),
{
    if transmitted != received {
        Err(WifiError::Timeouts(ip))
    } else {
        Ok(())
    }
}

/// How far the network has come up. Each stage waits for one event.
#[derive(Debug, Clone, Copy, PartialEq, Eq)]
pub enum WifiStage {
    Scanning,
    Configuring,
    Starting,
    AwaitingStart,
    Connecting,
    AwaitingLease,
    ReadingGateway,
    Pinging { gateway: [u8; 4] },
    Up,
    Failed(WifiError),
}

/// What came of an action.
#[derive(Debug)]
pub enum WifiEvent {
    /// The scan found these access points.
    Scanned(Vec<AccessPoint>),
    /// The settings were taken, the radio was told to start, or the station was told
    /// to connect.
    Done,
    /// The wait ended in time, or it did not.
    Waited(bool),
    /// The gateway of the network.
    Gateway([u8; 4]),
    /// So many pings were sent, and so many answered.
    Pinged { transmitted: u32, received: u32 },
}

/// What has to be done next.
#[derive(Debug)]
pub enum WifiAction {
    Scan,
    Configure(WifiConfiguration),
    Start,
    AwaitStart { secs: u64 },
    Connect,
    AwaitLease { secs: u64 },
    ReadGateway,
    Ping([u8; 4]),
    Finish,
    Fail(WifiError),
}

/// Whether a stage waits for an event.
pub open spec fn expects(stage: WifiStage, event: WifiEvent) -> bool {
    match stage {
        WifiStage::Scanning => event is Scanned,
        WifiStage::Configuring | WifiStage::Starting | WifiStage::Connecting => event is Done,
        WifiStage::AwaitingStart | WifiStage::AwaitingLease => event is Waited,
        WifiStage::ReadingGateway => event is Gateway,
        WifiStage::Pinging { .. } => event is Pinged,
        WifiStage::Up | WifiStage::Failed(_) => false,
    }
}

/// The stage after an event.
pub open spec fn stage_after(stage: WifiStage, event: WifiEvent) -> WifiStage {
    match (stage, event) {
        (WifiStage::Scanning, _) => WifiStage::Configuring,
        (WifiStage::Configuring, _) => WifiStage::Starting,
        (WifiStage::Starting, _) => WifiStage::AwaitingStart,
        (WifiStage::AwaitingStart, WifiEvent::Waited(true)) => WifiStage::Connecting,
        (WifiStage::AwaitingStart, _) => WifiStage::Failed(WifiError::NotStarted),
        (WifiStage::Connecting, _) => WifiStage::AwaitingLease,
        (WifiStage::AwaitingLease, WifiEvent::Waited(true)) => WifiStage::ReadingGateway,
        (WifiStage::AwaitingLease, _) => WifiStage::Failed(WifiError::NotConnected),
        (WifiStage::ReadingGateway, WifiEvent::Gateway(gateway)) => WifiStage::Pinging { gateway },
        (WifiStage::Pinging { gateway }, WifiEvent::Pinged { transmitted, received }) => {
            if transmitted == received {
                WifiStage::Up
            } else {
                WifiStage::Failed(WifiError::Timeouts(gateway))
            }
        },
        (stage, _) => stage,
    }
}

/// Whether an action is the one that a stage calls for. The settings follow the scan
/// that came just before.
pub open spec fn calls_for(
    stage: WifiStage,
    action: WifiAction,
    ssid: Seq<char>,
    password: Seq<char>,
    event: WifiEvent,
) -> bool {
    match stage {
        WifiStage::Scanning => action == WifiAction::Scan,
        WifiStage::Configuring => {
            &&& event matches WifiEvent::Scanned(scan)
            &&& action matches WifiAction::Configure(configuration)
            &&& configures(configuration, ssid, password, channel_of(scan@, ssid))
        },
        WifiStage::Starting => action == WifiAction::Start,
        WifiStage::AwaitingStart => action == WifiAction::AwaitStart { secs: WAIT_SECS },
        WifiStage::Connecting => action == WifiAction::Connect,
        WifiStage::AwaitingLease => action == WifiAction::AwaitLease { secs: WAIT_SECS },
        WifiStage::ReadingGateway => action == WifiAction::ReadGateway,
        WifiStage::Pinging { gateway } => action == WifiAction::Ping(gateway),
        WifiStage::Up => action == WifiAction::Finish,
        WifiStage::Failed(error) => action == WifiAction::Fail(error),
    }
}

/// The network on its way up.
#[derive(Debug)]
pub struct Wifi {
    pub ssid: String,
    pub password: String,
    pub stage: WifiStage,
}

impl Wifi {
    /// Starts to bring up the network `ssid`, with a scan.
    pub fn new(ssid: String, password: String) -> (start: (Wifi, WifiAction))
        ensures
            start.0.ssid == ssid,
            start.0.password == password,
            start.0.stage == WifiStage::Scanning,
            start.1 == WifiAction::Scan,
    {
        (Wifi { ssid, password, stage: WifiStage::Scanning }, WifiAction::Scan)
    }

    /// Takes an event that the stage waits for, and says what to do next.
    pub fn step(&mut self, event: WifiEvent) -> (action: WifiAction)
        requires
            expects(old(self).stage, event),
        ensures
            final(self).ssid == old(self).ssid,
            final(self).password == old(self).password,
            final(self).stage == stage_after(old(self).stage, event),
            calls_for(
                final(self).stage,
                action,
                old(self).ssid@,
                old(self).password@,
                event,
            ),
    {
        match (self.stage, event) {
            (WifiStage::Scanning, WifiEvent::Scanned(scan)) => {
                let channel = find_channel(&scan, &self.ssid);
                self.stage = WifiStage::Configuring;
                WifiAction::Configure(configuration(&self.ssid, &self.password, channel))
            },
            (WifiStage::Configuring, _) => {
                self.stage = WifiStage::Starting;
                WifiAction::Start
            },
            (WifiStage::Starting, _) => {
                self.stage = WifiStage::AwaitingStart;
                WifiAction::AwaitStart { secs: WAIT_SECS }
            },
            (WifiStage::AwaitingStart, WifiEvent::Waited(in_time)) => {
                if in_time {
                    self.stage = WifiStage::Connecting;
                    WifiAction::Connect
                } else {
                    self.fail(WifiError::NotStarted)
                }
            },
            (WifiStage::Connecting, _) => {
                self.stage = WifiStage::AwaitingLease;
                WifiAction::AwaitLease { secs: WAIT_SECS }
            },
            (WifiStage::AwaitingLease, WifiEvent::Waited(in_time)) => {
                if in_time {
                    self.stage = WifiStage::ReadingGateway;
                    WifiAction::ReadGateway
                } else {
                    self.fail(WifiError::NotConnected)
                }
            },
            (WifiStage::ReadingGateway, WifiEvent::Gateway(gateway)) => {
                self.stage = WifiStage::Pinging { gateway };
                WifiAction::Ping(gateway)
            },
            (WifiStage::Pinging { gateway }, WifiEvent::Pinged { transmitted, received }) => {
                match ping(gateway, transmitted, received) {
                    Ok(()) => {
                        self.stage = WifiStage::Up;
                        WifiAction::Finish
                    },
                    Err(error) => self.fail(error),
                }
            },
            _ => vstd::pervasive::unreached(),
        }
    }

    /// Ends the attempt with an error.
    fn fail(&mut self, error: WifiError) -> (action: WifiAction)
        ensures
            final(self).ssid == old(self).ssid,
            final(self).password == old(self).password,
            final(self).stage == WifiStage::Failed(error),
            action == WifiAction::Fail(error),
    {
        self.stage = WifiStage::Failed(error);
        WifiAction::Fail(error)
    }
}

/// The stage after a sequence of events, from the scan on.
pub open spec fn stage_at(events: Seq<WifiEvent>) -> WifiStage
    decreases events.len(),
{
    if events.len() == 0 {
        WifiStage::Scanning
    } else {
        stage_after(stage_at(events.drop_last()), events.last())
    }
}

/// Whether each event of a sequence comes at a stage that waits for it.
pub open spec fn in_order(events: Seq<WifiEvent>) -> bool
    decreases events.len(),
{
    events.len() > 0 ==> in_order(events.drop_last()) && expects(
        stage_at(events.drop_last()),
        events.last(),
    )
}

/// Whether the first `n` of some events, at most eight, are those of a network that
/// came up: a scan, settings, a start in time, a connection in time, a gateway, and
/// as many answers as pings.
pub open spec fn all_went_well(events: Seq<WifiEvent>, n: nat) -> bool {
    &&& n > 0 ==> events[0] is Scanned
    &&& n > 1 ==> events[1] is Done
    &&& n > 2 ==> events[2] is Done
    &&& n > 3 ==> events[3] == WifiEvent::Waited(true)
    &&& n > 4 ==> events[4] is Done
    &&& n > 5 ==> events[5] == WifiEvent::Waited(true)
    &&& n > 6 ==> events[6] is Gateway
    &&& n > 7 ==> (events[7] matches WifiEvent::Pinged { transmitted, received } && transmitted
        == received)
}

/// Whether a stage can be reached by some events.
pub open spec fn reached_by(stage: WifiStage, events: Seq<WifiEvent>) -> bool {
    match stage {
        WifiStage::Scanning => events.len() == 0,
        WifiStage::Configuring => events.len() == 1 && all_went_well(events, 1),
        WifiStage::Starting => events.len() == 2 && all_went_well(events, 2),
        WifiStage::AwaitingStart => events.len() == 3 && all_went_well(events, 3),
        WifiStage::Connecting => events.len() == 4 && all_went_well(events, 4),
        WifiStage::AwaitingLease => events.len() == 5 && all_went_well(events, 5),
        WifiStage::ReadingGateway => events.len() == 6 && all_went_well(events, 6),
        WifiStage::Pinging { gateway } => events.len() == 7 && all_went_well(events, 7)
            && events[6] == WifiEvent::Gateway(gateway),
        WifiStage::Up => events.len() == 8 && all_went_well(events, 8),
        WifiStage::Failed(WifiError::NotStarted) => events.len() == 4 && all_went_well(events, 3)
            && events[3] == WifiEvent::Waited(false),
        WifiStage::Failed(WifiError::NotConnected) => events.len() == 6 && all_went_well(events, 5)
            && events[5] == WifiEvent::Waited(false),
        WifiStage::Failed(WifiError::Timeouts(ip)) => {
            &&& events.len() == 8
            &&& all_went_well(events, 7)
            &&& events[6] == WifiEvent::Gateway(ip)
            &&& events[7] matches WifiEvent::Pinged { transmitted, received }
            &&& transmitted != received
        },
    }
}

/// Each stage has one way to it. In particular the network is up only after the
/// radio started in time, an address came in time and every ping of the gateway was
/// answered, and each error tells which of the three failed.
pub proof fn stages_tell_what_happened(events: Seq<WifiEvent>)
    requires
        in_order(events),
    ensures
        reached_by(stage_at(events), events),
    decreases events.len(),
{
    if events.len() > 0 {
        let before = events.drop_last();
        stages_tell_what_happened(before);
        assert forall|i: int| 0 <= i < before.len() implies before[i] == events[i] by {}
        if events.last() is Waited {
            let in_time = events.last()->Waited_0;
            assert(events.last() == WifiEvent::Waited(in_time));
        }
    }
}

/// The channel is that of the first access point with the name, and there is none
/// exactly where no access point has the name.
pub proof fn first_match_decides(scan: Seq<AccessPoint>, ssid: Seq<char>)
    ensures
        channel_of(scan, ssid) is None <==> forall|i: int|
            0 <= i < scan.len() ==> (#[trigger] scan[i]).ssid@ != ssid,
        forall|i: int|
            0 <= i < scan.len() && (#[trigger] scan[i]).ssid@ == ssid && (forall|j: int|
                0 <= j < i ==> (#[trigger] scan[j]).ssid@ != ssid) ==> channel_of(scan, ssid)
                == Some(scan[i].channel),
    decreases scan.len(),
{
    if scan.len() > 0 {
        let rest = scan.drop_first();
        first_match_decides(rest, ssid);
        assert forall|i: int| 0 < i < scan.len() implies #[trigger] scan[i] == rest[i - 1] by {}
        assert forall|i: int| 0 <= i < rest.len() implies #[trigger] rest[i] == scan[i + 1] by {}
    }
}

/// Where every event is a good one, the network comes up.
pub proof fn good_events_bring_it_up(events: Seq<WifiEvent>)
    requires
        events.len() == 8,
        all_went_well(events, 8),
    ensures
        in_order(events),
        stage_at(events) == WifiStage::Up,
{
    reveal_with_fuel(stage_at, 9);
    reveal_with_fuel(in_order, 9);
    let e7 = events.drop_last();
    let e6 = e7.drop_last();
    let e5 = e6.drop_last();
    let e4 = e5.drop_last();
    let e3 = e4.drop_last();
    let e2 = e3.drop_last();
    let e1 = e2.drop_last();
    let e0 = e1.drop_last();
    assert(stage_at(e0) == WifiStage::Scanning);
    assert(stage_at(e1) == WifiStage::Configuring);
    assert(stage_at(e2) == WifiStage::Starting);
    assert(stage_at(e3) == WifiStage::AwaitingStart);
    assert(stage_at(e4) == WifiStage::Connecting);
    assert(stage_at(e5) == WifiStage::AwaitingLease);
    assert(stage_at(e6) == WifiStage::ReadingGateway);
}

/// The settings join the network with its password on the very channel that was
/// found, and the device's own access point shares that channel; where none was found
/// the client is given none, and the own access point is on channel 1.
pub proof fn settings_keep_the_channel(
    settings: WifiConfiguration,
    ssid: Seq<char>,
    password: Seq<char>,
    found: u8,
)
    ensures
        configures(settings, ssid, password, Some(found)) <==> {
            &&& settings.ssid@ == ssid
            &&& settings.password@ == password
            &&& settings.own_ssid@ == "aptest"@
            &&& settings.channel == Some(found)
            &&& settings.own_channel == found
        },
        configures(settings, ssid, password, None) <==> {
            &&& settings.ssid@ == ssid
            &&& settings.password@ == password
            &&& settings.own_ssid@ == "aptest"@
            &&& settings.channel is None
            &&& settings.own_channel == 1
        },
{
}

/// After a scan the settings are on the channel of the first access point of the
/// name, both as client and as access point. Where no access point has the name the
/// client is given no channel.
pub proof fn the_scan_decides_the_channel(
    scan: Vec<AccessPoint>,
    ssid: Seq<char>,
    password: Seq<char>,
    action: WifiAction,
    first: int,
)
    requires
        calls_for(
            stage_after(WifiStage::Scanning, WifiEvent::Scanned(scan)),
            action,
            ssid,
            password,
            WifiEvent::Scanned(scan),
        ),
        0 <= first <= scan@.len(),
        forall|i: int| 0 <= i < first ==> (#[trigger] scan@[i]).ssid@ != ssid,
        first < scan@.len() ==> scan@[first].ssid@ == ssid,
    ensures
        action is Configure,
        action->Configure_0.ssid@ == ssid,
        action->Configure_0.password@ == password,
        first < scan@.len() ==> action->Configure_0.channel == Some(scan@[first].channel),
        first < scan@.len() ==> action->Configure_0.own_channel == scan@[first].channel,
        first == scan@.len() ==> action->Configure_0.channel is None,
        first == scan@.len() ==> action->Configure_0.own_channel == 1,
{
    first_match_decides(scan@, ssid);
}

/// What each event leads to: good ones lead on, in one order, and a wait that was not
/// over in time or a ping that was not answered ends the attempt with its own error.
pub proof fn events_lead_on(
    scan: Vec<AccessPoint>,
    gateway: [u8; 4],
    transmitted: u32,
    received: u32,
)
    ensures
        stage_after(WifiStage::Scanning, WifiEvent::Scanned(scan)) is Configuring,
        stage_after(WifiStage::Configuring, WifiEvent::Done) is Starting,
        stage_after(WifiStage::Starting, WifiEvent::Done) is AwaitingStart,
        stage_after(WifiStage::AwaitingStart, WifiEvent::Waited(true)) is Connecting,
        stage_after(WifiStage::AwaitingStart, WifiEvent::Waited(false)) == WifiStage::Failed(
            WifiError::NotStarted,
        ),
        stage_after(WifiStage::Connecting, WifiEvent::Done) is AwaitingLease,
        stage_after(WifiStage::AwaitingLease, WifiEvent::Waited(true)) is ReadingGateway,
        stage_after(WifiStage::AwaitingLease, WifiEvent::Waited(false)) == WifiStage::Failed(
            WifiError::NotConnected,
        ),
        stage_after(WifiStage::ReadingGateway, WifiEvent::Gateway(gateway)) == (
        WifiStage::Pinging { gateway }),
        stage_after(
            WifiStage::Pinging { gateway },
            WifiEvent::Pinged { transmitted, received },
        ) is Up <==> transmitted == received,
        transmitted != received ==> stage_after(
            WifiStage::Pinging { gateway },
            WifiEvent::Pinged { transmitted, received },
        ) == WifiStage::Failed(WifiError::Timeouts(gateway)),
        verdict_on(gateway, transmitted, received) is Ok <==> transmitted == received,
        transmitted != received ==> verdict_on(gateway, transmitted, received)
            == Err::<(), WifiError>(WifiError::Timeouts(gateway)),
{
}

/// Every stage takes every event of its own sort, whatever it holds, and no other.
pub proof fn stages_take_their_events(stage: WifiStage, event: WifiEvent)
    ensures
        stage is Scanning ==> (expects(stage, event) <==> event is Scanned),
        stage is Configuring ==> (expects(stage, event) <==> event is Done),
        stage is Starting ==> (expects(stage, event) <==> event is Done),
        stage is AwaitingStart ==> (expects(stage, event) <==> event is Waited),
        stage is Connecting ==> (expects(stage, event) <==> event is Done),
        stage is AwaitingLease ==> (expects(stage, event) <==> event is Waited),
        stage is ReadingGateway ==> (expects(stage, event) <==> event is Gateway),
        stage is Pinging ==> (expects(stage, event) <==> event is Pinged),
        stage is Up || stage is Failed ==> !expects(stage, event),
{
}

/// What each stage has done: both waits last twenty seconds, the gateway that is
/// pinged is the one that was read, and an error is handed on as it is.
pub proof fn stages_do_their_part(
    stage: WifiStage,
    action: WifiAction,
    ssid: Seq<char>,
    password: Seq<char>,
    event: WifiEvent,
)
    requires
        calls_for(stage, action, ssid, password, event),
    ensures
        stage is Scanning ==> action is Scan,
        stage is Configuring ==> action is Configure,
        stage is Starting ==> action is Start,
        stage is AwaitingStart ==> action == (WifiAction::AwaitStart { secs: 20 }),
        stage is Connecting ==> action is Connect,
        stage is AwaitingLease ==> action == (WifiAction::AwaitLease { secs: 20 }),
        stage is ReadingGateway ==> action is ReadGateway,
        stage matches WifiStage::Pinging { gateway } ==> action == WifiAction::Ping(gateway),
        stage is Up ==> action is Finish,
        stage matches WifiStage::Failed(error) ==> action == WifiAction::Fail(error),
{
}

/// A station that is not connected has no lease, and one that is has a lease as soon
/// as one byte of its address is not zero.
pub proof fn leases_are_addresses(connected: bool, ip: Seq<u8>)
    requires
        ip.len() == 4,
    ensures
        is_leased(connected, ip) <==> connected && (ip[0] != 0 || ip[1] != 0 || ip[2] != 0 || ip[3]
            != 0),
{
    assert((ip[0] == 0 && ip[1] == 0 && ip[2] == 0 && ip[3] == 0) ==> ip =~= seq![
        0u8,
        0u8,
        0u8,
        0u8,
    ]);
}

/// Each error says what went wrong, and a timeout names the address.
pub proof fn errors_say_what_went_wrong(ip: [u8; 4])
    ensures
        error_text(WifiError::NotStarted) == "Wifi did not start"@,
        error_text(WifiError::NotConnected)
            == "Wifi did not connect or did not receive a DHCP lease"@,
        error_text(WifiError::Timeouts(ip)) == "Pinging IP "@ + text::decimal_text(ip@[0] as nat)
            + "."@ + text::decimal_text(ip@[1] as nat) + "."@ + text::decimal_text(ip@[2] as nat)
            + "."@ + text::decimal_text(ip@[3] as nat) + " resulted in timeouts"@,
{
    let a = text::decimal_text(ip@[0] as nat);
    let b = text::decimal_text(ip@[1] as nat);
    let c = text::decimal_text(ip@[2] as nat);
    let d = text::decimal_text(ip@[3] as nat);
    let dot = "."@;
    assert("Pinging IP "@ + (a + dot + b + dot + c + dot + d) =~= "Pinging IP "@ + a + dot + b + dot
        + c + dot + d);
}

} // verus!
