use vstd::prelude::*;
use vstd::string::StringExecFns;

use crate::cmd::{Cmd, CmdQueue};
use crate::color::{amber, green, pink, white, Color};
use crate::wait::{Interest, PollDescriptor, WaitContext};

verus! {

/// The power service's device-type code that marks a battery; any
/// other class of device is rejected at construction.
pub const UPOWER_TYPE_BATTERY: u32 = 2;

/// A full charge, in hundredths of a percent.
pub const CAPACITY_FULL_CENTI: u32 = 10000;

/// The low-battery threshold: at or below 10% a discharging battery
/// is drawn in the warning color.
pub const CAPACITY_LOW_CENTI: u32 = 1000;

/// The charge states the power service reports.
#[derive(Clone, Copy, Debug, PartialEq, Eq, Structural)]
pub enum UpowerBatteryState {
    Charging,
    Discharging,
    Empty,
    Full,
    NotCharging,
    Unknown,
}

/// The service's state codes, as its device table gives them. Code 6
/// maps to `Discharging` alongside the literal discharging code 2;
/// the alias is kept exactly as the upstream table has it.
pub open spec fn state_code_spec(code: u32) -> UpowerBatteryState {
    if code == 1 {
        UpowerBatteryState::Charging
    } else if code == 2 {
        UpowerBatteryState::Discharging
    } else if code == 3 {
        UpowerBatteryState::Empty
    } else if code == 4 {
        UpowerBatteryState::Full
    } else if code == 5 {
        UpowerBatteryState::NotCharging
    } else if code == 6 {
        UpowerBatteryState::Discharging
    } else {
        UpowerBatteryState::Unknown
    }
}

pub fn state_from_code(code: u32) -> (s: UpowerBatteryState)
    ensures
        s == state_code_spec(code),
{
    match code {
        1 => UpowerBatteryState::Charging,
        2 => UpowerBatteryState::Discharging,
        3 => UpowerBatteryState::Empty,
        4 => UpowerBatteryState::Full,
        5 => UpowerBatteryState::NotCharging,
        6 => UpowerBatteryState::Discharging,
        _ => UpowerBatteryState::Unknown,
    }
}

/// A capacity observation never exceeds a full charge.
pub open spec fn clamp_centi_spec(c: u32) -> u32 {
    if c > CAPACITY_FULL_CENTI {
        CAPACITY_FULL_CENTI
    } else {
        c
    }
}

/// One change notification's payload, re-read from the service in a
/// single round trip: the state code and the capacity in hundredths
/// of a percent.
#[derive(Clone, Copy, Debug, PartialEq, Eq, Structural)]
pub struct BatteryReading {
    pub state_code: u32,
    pub capacity_centi: u32,
}

/// What the construction-time probe of the power service handed
/// back, as plain values. A property the probe could not read is
/// `None`; `watch_fds` are the readiness handles the service
/// connection exposes (exactly one is expected).
pub struct UpowerReply {
    pub type_code: Option<u32>,
    pub capacity_centi: Option<u32>,
    pub state_code: Option<u32>,
    pub watch_fds: Vec<i32>,
}

/// Why a battery leaf failed to construct. All of these are
/// recoverable: the node is pruned, never a process abort.
#[derive(Clone, Copy, Debug, PartialEq, Eq, Structural)]
pub enum BatteryError {
    /// A required property had no value.
    NoSuchDevice,
    /// The target device exists but is not of the battery class.
    NotABattery,
    /// The service connection did not expose exactly one watch
    /// descriptor.
    WatchCount,
}

impl BatteryError {
    pub fn description(&self) -> (r: &'static str)
        ensures
            *self is NoSuchDevice ==> r@ == "no such upower device"@,
            *self is NotABattery ==> r@ == "UPower device is not a battery."@,
            *self is WatchCount ==> r@ == "expected 1 watch fd from dbus"@,
    {
        match self {
            BatteryError::NoSuchDevice => "no such upower device",
            BatteryError::NotABattery => "UPower device is not a battery.",
            BatteryError::WatchCount => "expected 1 watch fd from dbus",
        }
    }
}

/// The service path prefix under which a battery device lives.
pub open spec fn device_path_prefix() -> Seq<char> {
    "/org/freedesktop/UPower/devices/battery_"@
}

/// The default battery device name.
pub open spec fn default_battery_device() -> Seq<char> {
    "BAT0"@
}

/// A battery gauge leaf's state. The service connection itself stays
/// outside this crate; the leaf keeps only plain values: the device
/// path, the last successfully observed state and capacity, the
/// shared dirty flag, and the connection's watch descriptor.
#[derive(Debug)]
pub struct UpowerBattery {
    pub device_path: String,
    pub state: UpowerBatteryState,
    pub capacity_centi: u32,
    pub dirty: bool,
    pub watch_fd: i32,
}

/// The leaf's mathematical view: the same plain values, with the
/// device path as a character sequence.
pub struct BatteryV {
    pub device_path: Seq<char>,
    pub state: UpowerBatteryState,
    pub capacity_centi: u32,
    pub dirty: bool,
    pub watch_fd: i32,
}

impl View for UpowerBattery {
    type V = BatteryV;

    open spec fn view(&self) -> BatteryV {
        BatteryV {
            device_path: self.device_path@,
            state: self.state,
            capacity_centi: self.capacity_centi,
            dirty: self.dirty,
            watch_fd: self.watch_fd,
        }
    }
}

impl BatteryV {
    /// The capacity never reads above a full charge.
    pub open spec fn wf(self) -> bool {
        self.capacity_centi <= 10000
    }
}

/// One successful reading applied to the leaf: state and capacity
/// replaced, the dirty flag set.
pub open spec fn apply_reading_spec(b: BatteryV, rd: BatteryReading) -> BatteryV {
    BatteryV {
        state: state_code_spec(rd.state_code),
        capacity_centi: clamp_centi_spec(rd.capacity_centi),
        dirty: true,
        ..b
    }
}

/// A whole drained batch applied in order; a failed read (`None`)
/// leaves the leaf exactly as it was.
pub open spec fn apply_readings_spec(b: BatteryV, rs: Seq<Option<BatteryReading>>) -> BatteryV
    decreases rs.len(),
{
    if rs.len() == 0 {
        b
    } else {
        let next = match rs[0] {
            Some(rd) => apply_reading_spec(b, rd),
            None => b,
        };
        apply_readings_spec(next, rs.drop_first())
    }
}

/// The redraw requests a drained batch enqueues: one per successful
/// reading.
pub open spec fn draw_cmds_spec(rs: Seq<Option<BatteryReading>>) -> Seq<Cmd>
    decreases rs.len(),
{
    if rs.len() == 0 {
        Seq::empty()
    } else if rs[0] is Some {
        seq![Cmd::Draw] + draw_cmds_spec(rs.drop_first())
    } else {
        draw_cmds_spec(rs.drop_first())
    }
}

/// The bar color policy: discharging or unknown shows white above the
/// low threshold and the amber warning at or below it; charging or
/// full shows green; not-charging or empty shows pink.
pub open spec fn battery_color_spec(b: BatteryV) -> Color {
    match b.state {
        UpowerBatteryState::Discharging | UpowerBatteryState::Unknown => {
            if b.capacity_centi > CAPACITY_LOW_CENTI {
                white()
            } else {
                amber()
            }
        },
        UpowerBatteryState::Charging | UpowerBatteryState::Full => green(),
        UpowerBatteryState::NotCharging | UpowerBatteryState::Empty => pink(),
    }
}

impl UpowerBattery {
    /// Whether a probe reply lets a battery leaf construct: every
    /// property present, the device of the battery class, and exactly
    /// one watch descriptor.
    pub open spec fn reply_ok(reply: &UpowerReply) -> bool {
        &&& reply.type_code is Some
        &&& reply.type_code->0 == UPOWER_TYPE_BATTERY
        &&& reply.capacity_centi is Some
        &&& reply.state_code is Some
        &&& reply.watch_fds@.len() == 1
    }

    /// Which error a failing reply earns, checked in probe order:
    /// device class first, then the property reads, then the watch
    /// descriptors.
    pub open spec fn reply_err(reply: &UpowerReply) -> BatteryError {
        if reply.type_code is None {
            BatteryError::NoSuchDevice
        } else if reply.type_code->0 != UPOWER_TYPE_BATTERY {
            BatteryError::NotABattery
        } else if reply.capacity_centi is None || reply.state_code is None {
            BatteryError::NoSuchDevice
        } else {
            BatteryError::WatchCount
        }
    }

    /// Validate a probe reply for the named device and build the
    /// leaf. Succeeds exactly on the replies `reply_ok` admits, and
    /// each failing reply earns the error `reply_err` names.
    pub fn from_device(device: &str, reply: &UpowerReply) -> (r: Result<UpowerBattery, BatteryError>)
        ensures
            r is Ok <==> Self::reply_ok(reply),
            r matches Err(e) ==> e == Self::reply_err(reply),
            r matches Ok(b) ==> b@ == (BatteryV {
                device_path: device_path_prefix() + device@,
                state: state_code_spec(reply.state_code->0),
                capacity_centi: clamp_centi_spec(reply.capacity_centi->0),
                dirty: false,
                watch_fd: reply.watch_fds@[0],
            }) && b@.wf(),
    {
        let type_code = match reply.type_code {
            Some(c) => c,
            None => {
                return Err(BatteryError::NoSuchDevice);
            },
        };
        if type_code != UPOWER_TYPE_BATTERY {
            return Err(BatteryError::NotABattery);
        }
        let capacity = match reply.capacity_centi {
            Some(c) => c,
            None => {
                return Err(BatteryError::NoSuchDevice);
            },
        };
        let state_code = match reply.state_code {
            Some(c) => c,
            None => {
                return Err(BatteryError::NoSuchDevice);
            },
        };
        if reply.watch_fds.len() != 1 {
            return Err(BatteryError::WatchCount);
        }
        let mut path = "/org/freedesktop/UPower/devices/battery_".to_owned();
        path.append(device);
        Ok(UpowerBattery {
            device_path: path,
            state: state_from_code(state_code),
            capacity_centi: if capacity > 10000 {
                10000
            } else {
                capacity
            },
            dirty: false,
            watch_fd: reply.watch_fds[0],
        })
    }

    /// Build the battery bar leaf for the default battery device,
    /// from a probe reply for that device: the leaf kind the widget
    /// tree holds, sized by the configured font and bar length.
    pub fn new(font_size: u32, length: u32, reply: &UpowerReply) -> (r: Result<
        crate::widget::RuntimeWidget,
        BatteryError,
    >)
        ensures
            r is Ok <==> Self::reply_ok(reply),
            r matches Err(e) ==> e == Self::reply_err(reply),
            r matches Ok(w) ==> w@ == (crate::widget::RuntimeWidgetV::Battery {
                font_size,
                length,
                gauge: BatteryV {
                    device_path: device_path_prefix() + default_battery_device(),
                    state: state_code_spec(reply.state_code->0),
                    capacity_centi: clamp_centi_spec(reply.capacity_centi->0),
                    dirty: false,
                    watch_fd: reply.watch_fds@[0],
                },
            }) && crate::widget::rt_wf(w@),
    {
        match UpowerBattery::from_device("BAT0", reply) {
            Ok(gauge) => Ok(crate::widget::RuntimeWidget::Battery { font_size, length, gauge }),
            Err(e) => Err(e),
        }
    }

    /// Drain one batch of already-pending notifications, then append
    /// this leaf's own wait descriptor so the next blocking wait
    /// wakes on its future events. Each successful reading replaces
    /// state and capacity, sets the dirty flag and enqueues one
    /// redraw; a failed reading changes nothing. The dirty flag,
    /// once true, stays true here.
    pub fn wait(
        &mut self,
        ctx: &mut WaitContext,
        cmds: &mut CmdQueue,
        readings: &Vec<Option<BatteryReading>>,
    )
        requires
            old(self)@.wf(),
        ensures
            final(self)@ == apply_readings_spec(old(self)@, readings@),
            final(self)@.wf(),
            final(ctx).fds@ == old(ctx).fds@.push(
                (PollDescriptor { fd: old(self).watch_fd, interest: Interest::Read }),
            ),
            final(cmds).cmds@ == old(cmds).cmds@ + draw_cmds_spec(readings@),
            old(self).dirty ==> final(self).dirty,
    {
        let n = readings.len();
        let mut i: usize = 0;
        proof {
            assert(readings@.skip(0) =~= readings@);
        }
        while i < n
            invariant
                n == readings@.len(),
                i <= n,
                self@.wf(),
                apply_readings_spec(old(self)@, readings@)
                    == apply_readings_spec(self@, readings@.skip(i as int)),
                old(cmds).cmds@ + draw_cmds_spec(readings@)
                    == cmds.cmds@ + draw_cmds_spec(readings@.skip(i as int)),
                old(self).dirty ==> self.dirty,
                self.watch_fd == old(self).watch_fd,
                *ctx == *old(ctx),
            decreases n - i,
        {
            proof {
                assert(readings@.skip(i as int)[0] == readings@[i as int]);
                assert(readings@.skip(i as int).drop_first() =~= readings@.skip(i as int + 1));
            }
            let ghost cmds0 = cmds.cmds@;
            match &readings[i] {
                Some(rd) => {
                    self.state = state_from_code(rd.state_code);
                    self.capacity_centi = if rd.capacity_centi > 10000 {
                        10000
                    } else {
                        rd.capacity_centi
                    };
                    self.dirty = true;
                    cmds.send(Cmd::Draw);
                    proof {
                        assert(cmds.cmds@ + draw_cmds_spec(readings@.skip(i as int + 1))
                            =~= cmds0 + draw_cmds_spec(readings@.skip(i as int)));
                    }
                },
                None => {},
            }
            i = i + 1;
        }
        proof {
            assert(readings@.skip(n as int) =~= Seq::<Option<BatteryReading>>::empty());
        }
        ctx.push(PollDescriptor { fd: self.watch_fd, interest: Interest::Read });
    }

    /// The gauge's label.
    pub fn name(&self) -> (r: &'static str)
        ensures
            r@ == "battery"@,
    {
        "battery"
    }

    /// The normalized fill, in ten-thousandths of full scale: a
    /// capacity of one percent reads as 100.
    pub fn value(&self) -> (v: u32)
        requires
            self@.wf(),
        ensures
            v == self.capacity_centi,
            v <= 10000,
    {
        self.capacity_centi
    }

    /// The bar color under the battery color policy.
    pub fn color(&self) -> (c: Color)
        ensures
            c == battery_color_spec(self@),
    {
        match self.state {
            UpowerBatteryState::Discharging | UpowerBatteryState::Unknown => {
                if self.capacity_centi > CAPACITY_LOW_CENTI {
                    Color::new(1000, 1000, 1000, 1000)
                } else {
                    Color::new(1000, 500, 0, 1000)
                }
            },
            UpowerBatteryState::Charging | UpowerBatteryState::Full => {
                Color::new(500, 1000, 500, 1000)
            },
            UpowerBatteryState::NotCharging | UpowerBatteryState::Empty => {
                Color::new(1000, 500, 500, 1000)
            },
        }
    }

    /// A battery is a read-only source: incrementing is a no-op.
    pub fn inc(&mut self, _delta: i32)
        ensures
            *final(self) == *old(self),
    {
    }

    /// A battery is a read-only source: setting is a no-op.
    pub fn set(&mut self, _value: u32)
        ensures
            *final(self) == *old(self),
    {
    }

    /// A battery is a read-only source: toggling is a no-op.
    pub fn toggle(&mut self)
        ensures
            *final(self) == *old(self),
    {
    }
}

/// Dirty monotonicity: across any drained batch, a dirty flag that
/// is true never reads false again; only the render loop's own clear
/// step resets it.
pub proof fn lemma_dirty_monotone(b: BatteryV, rs: Seq<Option<BatteryReading>>)
    requires
        b.dirty,
    ensures
        apply_readings_spec(b, rs).dirty,
    decreases rs.len(),
{
    if rs.len() > 0 {
        match rs[0] {
            Some(rd) => lemma_dirty_monotone(apply_reading_spec(b, rd), rs.drop_first()),
            None => lemma_dirty_monotone(b, rs.drop_first()),
        }
    }
}

/// Value persistence on failure: a batch of only failed readings
/// leaves the leaf — its value and color included — exactly as it
/// was.
pub proof fn lemma_failed_refresh_keeps_value(b: BatteryV, rs: Seq<Option<BatteryReading>>)
    requires
        forall|i: int| 0 <= i < rs.len() ==> rs[i] is None,
    ensures
        apply_readings_spec(b, rs) == b,
        battery_color_spec(apply_readings_spec(b, rs)) == battery_color_spec(b),
    decreases rs.len(),
{
    if rs.len() > 0 {
        assert(rs[0] is None);
        assert forall|i: int| 0 <= i < rs.drop_first().len() implies rs.drop_first()[i] is None by {
            assert(rs.drop_first()[i] == rs[i + 1]);
        }
        lemma_failed_refresh_keeps_value(b, rs.drop_first());
    }
}

} // verus!
