use vstd::prelude::*;

use crate::cmd::{Cmd, CmdQueue};

verus! {

/// The platform's default backlight control name, used when the
/// configured device string is empty.
pub open spec fn default_backlight_device() -> Seq<char> {
    "intel_backlight"@
}

/// What probing the hardware control path handed back: the current
/// raw brightness and the device's maximum. A value the probe could
/// not read is `None`.
pub struct BacklightReply {
    pub raw: Option<u32>,
    pub max: Option<u32>,
}

/// Why a backlight leaf failed to construct.
#[derive(Clone, Copy, Debug, PartialEq, Eq, Structural)]
pub enum BacklightError {
    /// The brightness or maximum attribute could not be read.
    Unreadable,
    /// The device reports a maximum of zero, so no level is
    /// representable.
    ZeroRange,
}

/// A backlight gauge leaf: a numeric brightness attribute behind a
/// hardware control path. Reads come in as raw values; the mutators
/// compute the clamped raw value for the caller to write back via
/// the same path.
#[derive(Debug)]
pub struct Backlight {
    pub device: String,
    pub raw: u32,
    pub max: u32,
    pub dirty: bool,
}

/// The leaf's mathematical view: the same plain values, with the
/// device name as a character sequence.
pub struct BacklightV {
    pub device: Seq<char>,
    pub raw: u32,
    pub max: u32,
    pub dirty: bool,
}

impl View for Backlight {
    type V = BacklightV;

    open spec fn view(&self) -> BacklightV {
        BacklightV { device: self.device@, raw: self.raw, max: self.max, dirty: self.dirty }
    }
}

impl BacklightV {
    /// The range is nonempty and the level lies inside it.
    pub open spec fn wf(self) -> bool {
        self.max >= 1 && self.raw <= self.max
    }
}

/// Raw brightness within the device's range, clamped to `max`.
pub open spec fn clamp_raw_spec(raw: u32, max: u32) -> u32 {
    if raw > max {
        max
    } else {
        raw
    }
}

/// An increment lands on the old level plus the delta, clamped into
/// the representable range.
pub open spec fn inc_raw_spec(raw: u32, max: u32, delta: i32) -> u32 {
    if raw + delta < 0 {
        0u32
    } else if raw + delta > max {
        max
    } else {
        (raw + delta) as u32
    }
}

/// One successful re-read applied to the leaf.
pub open spec fn apply_reading_spec(b: BacklightV, raw: u32) -> BacklightV {
    BacklightV { raw: clamp_raw_spec(raw, b.max), dirty: true, ..b }
}

/// A drained batch applied in order; failed reads keep the last
/// successfully observed level.
pub open spec fn apply_readings_spec(b: BacklightV, rs: Seq<Option<u32>>) -> BacklightV
    decreases rs.len(),
{
    if rs.len() == 0 {
        b
    } else {
        let next = match rs[0] {
            Some(raw) => apply_reading_spec(b, raw),
            None => b,
        };
        apply_readings_spec(next, rs.drop_first())
    }
}

/// The redraw requests a drained batch enqueues: one per successful
/// reading.
pub open spec fn draw_cmds_spec(rs: Seq<Option<u32>>) -> Seq<Cmd>
    decreases rs.len(),
{
    if rs.len() == 0 {
        Seq::empty()
    } else if rs[0] is Some {
        seq![Cmd::Draw] + draw_cmds_spec(rs.drop_first())
    } else {
        draw_cmds_spec(rs.drop_first())
    }
}

impl Backlight {
    /// Whether a probe reply lets a backlight leaf construct.
    pub open spec fn reply_ok(reply: &BacklightReply) -> bool {
        reply.raw is Some && reply.max is Some && reply.max->0 >= 1
    }

    pub open spec fn reply_err(reply: &BacklightReply) -> BacklightError {
        if reply.raw is None || reply.max is None {
            BacklightError::Unreadable
        } else {
            BacklightError::ZeroRange
        }
    }

    /// Validate a probe reply for the resolved device and build the
    /// leaf. Succeeds exactly on the replies `reply_ok` admits.
    pub fn from_device(device: String, reply: &BacklightReply) -> (r: Result<Backlight, BacklightError>)
        ensures
            r is Ok <==> Self::reply_ok(reply),
            r matches Err(e) ==> e == Self::reply_err(reply),
            r matches Ok(b) ==> b@ == (BacklightV {
                device: device@,
                raw: clamp_raw_spec(reply.raw->0, reply.max->0),
                max: reply.max->0,
                dirty: false,
            }) && b@.wf(),
    {
        let raw = match reply.raw {
            Some(v) => v,
            None => {
                return Err(BacklightError::Unreadable);
            },
        };
        let max = match reply.max {
            Some(v) => v,
            None => {
                return Err(BacklightError::Unreadable);
            },
        };
        if max < 1 {
            return Err(BacklightError::ZeroRange);
        }
        Ok(Backlight { device, raw: if raw > max { max } else { raw }, max, dirty: false })
    }

    /// Apply one drained batch of re-reads. Each successful reading
    /// replaces the level, sets the dirty flag and enqueues one
    /// redraw; a failed reading changes nothing. The dirty flag,
    /// once true, stays true here.
    pub fn apply_readings(&mut self, cmds: &mut CmdQueue, readings: &Vec<Option<u32>>)
        requires
            old(self)@.wf(),
        ensures
            final(self)@ == apply_readings_spec(old(self)@, readings@),
            final(self)@.wf(),
            final(cmds).cmds@ == old(cmds).cmds@ + draw_cmds_spec(readings@),
            old(self).dirty ==> final(self).dirty,
    {
        let n = readings.len();
        let mut i: usize = 0;
        proof {
            assert(readings@.skip(0) =~= readings@);
        }
        while i < n
            invariant
                n == readings@.len(),
                i <= n,
                self@.wf(),
                apply_readings_spec(old(self)@, readings@)
                    == apply_readings_spec(self@, readings@.skip(i as int)),
                old(cmds).cmds@ + draw_cmds_spec(readings@)
                    == cmds.cmds@ + draw_cmds_spec(readings@.skip(i as int)),
                old(self).dirty ==> self.dirty,
            decreases n - i,
        {
            proof {
                assert(readings@.skip(i as int)[0] == readings@[i as int]);
                assert(readings@.skip(i as int).drop_first() =~= readings@.skip(i as int + 1));
            }
            let ghost cmds0 = cmds.cmds@;
            match &readings[i] {
                Some(raw) => {
                    self.raw = if *raw > self.max {
                        self.max
                    } else {
                        *raw
                    };
                    self.dirty = true;
                    cmds.send(Cmd::Draw);
                    proof {
                        assert(cmds.cmds@ + draw_cmds_spec(readings@.skip(i as int + 1))
                            =~= cmds0 + draw_cmds_spec(readings@.skip(i as int)));
                    }
                },
                None => {},
            }
            i = i + 1;
        }
        proof {
            assert(readings@.skip(n as int) =~= Seq::<Option<u32>>::empty());
        }
    }

    /// The gauge's label.
    pub fn name(&self) -> (r: &'static str)
        ensures
            r@ == "backlight"@,
    {
        "backlight"
    }

    /// The normalized fill, in ten-thousandths of full scale.
    pub fn value(&self) -> (v: u32)
        requires
            self@.wf(),
        ensures
            v as int == self.raw * 10000 / (self.max as int),
            v <= 10000,
    {
        let wide: u64 = (self.raw as u64) * 10000 / (self.max as u64);
        proof {
            assert((self.raw as int) * 10000 / (self.max as int) <= 10000) by (nonlinear_arith)
                requires
                    self.raw <= self.max,
                    self.max >= 1,
            ;
        }
        wide as u32
    }

    /// Step the level by `delta` raw units, clamped into range, and
    /// return the raw value the caller must write back to the
    /// control path. A real change sets the dirty flag.
    pub fn inc(&mut self, delta: i32) -> (w: u32)
        requires
            old(self)@.wf(),
        ensures
            final(self).raw == inc_raw_spec(old(self).raw, old(self).max, delta),
            w == final(self).raw,
            final(self).max == old(self).max,
            final(self).device == old(self).device,
            final(self).dirty == (old(self).dirty || final(self).raw != old(self).raw),
            final(self)@.wf(),
            old(self).dirty ==> final(self).dirty,
    {
        let target: i64 = self.raw as i64 + delta as i64;
        let nr: u32 = if target < 0 {
            0
        } else if target > self.max as i64 {
            self.max
        } else {
            target as u32
        };
        if nr != self.raw {
            self.dirty = true;
        }
        self.raw = nr;
        nr
    }

    /// Set the level to a normalized value (ten-thousandths of full
    /// scale) and return the raw value to write back.
    pub fn set(&mut self, v: u32) -> (w: u32)
        requires
            old(self)@.wf(),
            v <= 10000,
        ensures
            final(self).raw as int == v * old(self).max / (10000 as int),
            w == final(self).raw,
            final(self).max == old(self).max,
            final(self).device == old(self).device,
            final(self).dirty == (old(self).dirty || final(self).raw != old(self).raw),
            final(self)@.wf(),
            old(self).dirty ==> final(self).dirty,
    {
        proof {
            assert((v as int) * (self.max as int) <= 10000 * 0xffff_ffff) by (nonlinear_arith)
                requires
                    v <= 10000,
                    self.max <= 0xffff_ffffu32,
            ;
            assert((v as int) * (self.max as int) / 10000 <= self.max) by (nonlinear_arith)
                requires
                    v <= 10000,
            ;
        }
        let wide: u64 = (v as u64) * (self.max as u64) / 10000;
        let nr: u32 = wide as u32;
        if nr != self.raw {
            self.dirty = true;
        }
        self.raw = nr;
        nr
    }

    /// A backlight has nothing to toggle: a no-op.
    pub fn toggle(&mut self)
        ensures
            *final(self) == *old(self),
    {
    }
}

/// Dirty monotonicity: across any drained batch, a dirty flag that
/// is true never reads false again; only the render loop's own clear
/// step resets it.
pub proof fn lemma_dirty_monotone(b: BacklightV, rs: Seq<Option<u32>>)
    requires
        b.dirty,
    ensures
        apply_readings_spec(b, rs).dirty,
    decreases rs.len(),
{
    if rs.len() > 0 {
        match rs[0] {
            Some(raw) => lemma_dirty_monotone(apply_reading_spec(b, raw), rs.drop_first()),
            None => lemma_dirty_monotone(b, rs.drop_first()),
        }
    }
}

/// Value persistence on failure: a batch of only failed readings
/// leaves the leaf exactly as it was.
pub proof fn lemma_failed_refresh_keeps_value(b: BacklightV, rs: Seq<Option<u32>>)
    requires
        forall|i: int| 0 <= i < rs.len() ==> rs[i] is None,
    ensures
        apply_readings_spec(b, rs) == b,
    decreases rs.len(),
{
    if rs.len() > 0 {
        assert(rs[0] is None);
        assert forall|i: int| 0 <= i < rs.drop_first().len() implies rs.drop_first()[i] is None by {
            assert(rs.drop_first()[i] == rs[i + 1]);
        }
        lemma_failed_refresh_keeps_value(b, rs.drop_first());
    }
}

} // verus!
