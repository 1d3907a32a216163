use vstd::prelude::*;

use crate::cmd::{Cmd, CmdQueue};

verus! {

/// Which platform audio service backs the mixer leaf. The choice is
/// made by the configuration; the leaf's behaviour is the same.
#[derive(Clone, Copy, Debug, PartialEq, Eq, Structural)]
pub enum AudioBackend {
    Pulse,
    Alsa,
}

/// One mixer observation: the normalized volume (ten-thousandths of
/// full scale) and the mute switch.
#[derive(Clone, Copy, Debug, PartialEq, Eq, Structural)]
pub struct AudioReading {
    pub volume: u32,
    pub muted: bool,
}

/// What probing the audio service handed back; `None` when the mixer
/// control could not be read.
pub struct AudioReply {
    pub reading: Option<AudioReading>,
}

/// Why an audio leaf failed to construct.
#[derive(Clone, Copy, Debug, PartialEq, Eq, Structural)]
pub enum AudioError {
    /// The mixer control does not exist or could not be read.
    NoMixer,
}

/// An audio mixer gauge leaf: a normalized volume level plus a mute
/// switch, read from and written back to the platform audio service.
#[derive(Debug)]
pub struct Audio {
    pub backend: AudioBackend,
    pub volume: u32,
    pub muted: bool,
    pub dirty: bool,
}

/// Volume never exceeds full scale.
pub open spec fn clamp_volume_spec(v: u32) -> u32 {
    if v > 10000 {
        10000u32
    } else {
        v
    }
}

/// An increment lands on the old volume plus the delta, clamped into
/// the normalized range.
pub open spec fn inc_volume_spec(volume: u32, delta: i32) -> u32 {
    if volume + delta < 0 {
        0u32
    } else if volume + delta > 10000 {
        10000u32
    } else {
        (volume + delta) as u32
    }
}

/// One successful re-read applied to the leaf.
pub open spec fn apply_reading_spec(a: Audio, rd: AudioReading) -> Audio {
    Audio { volume: clamp_volume_spec(rd.volume), muted: rd.muted, dirty: true, ..a }
}

/// A drained batch applied in order; failed reads keep the last
/// successfully observed volume and mute state.
pub open spec fn apply_readings_spec(a: Audio, rs: Seq<Option<AudioReading>>) -> Audio
    decreases rs.len(),
{
    if rs.len() == 0 {
        a
    } else {
        let next = match rs[0] {
            Some(rd) => apply_reading_spec(a, rd),
            None => a,
        };
        apply_readings_spec(next, rs.drop_first())
    }
}

/// The redraw requests a drained batch enqueues: one per successful
/// reading.
pub open spec fn draw_cmds_spec(rs: Seq<Option<AudioReading>>) -> Seq<Cmd>
    decreases rs.len(),
{
    if rs.len() == 0 {
        Seq::empty()
    } else if rs[0] is Some {
        seq![Cmd::Draw] + draw_cmds_spec(rs.drop_first())
    } else {
        draw_cmds_spec(rs.drop_first())
    }
}

impl Audio {
    pub open spec fn wf(self) -> bool {
        self.volume <= 10000
    }

    /// Whether a probe reply lets an audio leaf construct.
    pub open spec fn reply_ok(reply: &AudioReply) -> bool {
        reply.reading is Some
    }

    /// Validate a probe reply and build the leaf.
    pub fn from_probe(backend: AudioBackend, reply: &AudioReply) -> (r: Result<Audio, AudioError>)
        ensures
            r is Ok <==> Self::reply_ok(reply),
            r matches Err(e) ==> e == AudioError::NoMixer,
            r matches Ok(a) ==> a == (Audio {
                backend,
                volume: clamp_volume_spec(reply.reading->0.volume),
                muted: reply.reading->0.muted,
                dirty: false,
            }) && a.wf(),
    {
        match reply.reading {
            Some(rd) => Ok(Audio {
                backend,
                volume: if rd.volume > 10000 {
                    10000
                } else {
                    rd.volume
                },
                muted: rd.muted,
                dirty: false,
            }),
            None => Err(AudioError::NoMixer),
        }
    }

    /// Apply one drained batch of service notifications. Each
    /// successful reading replaces volume and mute, sets the dirty
    /// flag and enqueues one redraw; a failed reading changes
    /// nothing. The dirty flag, once true, stays true here.
    pub fn apply_readings(&mut self, cmds: &mut CmdQueue, readings: &Vec<Option<AudioReading>>)
        requires
            old(self).wf(),
        ensures
            *final(self) == apply_readings_spec(*old(self), readings@),
            final(self).wf(),
            final(cmds).cmds@ == old(cmds).cmds@ + draw_cmds_spec(readings@),
            old(self).dirty ==> final(self).dirty,
    {
        let n = readings.len();
        let mut i: usize = 0;
        proof {
            assert(readings@.skip(0) =~= readings@);
        }
        while i < n
            invariant
                n == readings@.len(),
                i <= n,
                self.wf(),
                apply_readings_spec(*old(self), readings@)
                    == apply_readings_spec(*self, readings@.skip(i as int)),
                old(cmds).cmds@ + draw_cmds_spec(readings@)
                    == cmds.cmds@ + draw_cmds_spec(readings@.skip(i as int)),
                old(self).dirty ==> self.dirty,
            decreases n - i,
        {
            proof {
                assert(readings@.skip(i as int)[0] == readings@[i as int]);
                assert(readings@.skip(i as int).drop_first() =~= readings@.skip(i as int + 1));
            }
            let ghost cmds0 = cmds.cmds@;
            match &readings[i] {
                Some(rd) => {
                    self.volume = if rd.volume > 10000 {
                        10000
                    } else {
                        rd.volume
                    };
                    self.muted = rd.muted;
                    self.dirty = true;
                    cmds.send(Cmd::Draw);
                    proof {
                        assert(cmds.cmds@ + draw_cmds_spec(readings@.skip(i as int + 1))
                            =~= cmds0 + draw_cmds_spec(readings@.skip(i as int)));
                    }
                },
                None => {},
            }
            i = i + 1;
        }
        proof {
            assert(readings@.skip(n as int) =~= Seq::<Option<AudioReading>>::empty());
        }
    }

    /// The gauge's label.
    pub fn name(&self) -> (r: &'static str)
        ensures
            r@ == "audio"@,
    {
        "audio"
    }

    /// The normalized volume, in ten-thousandths of full scale.
    pub fn value(&self) -> (v: u32)
        requires
            self.wf(),
        ensures
            v == self.volume,
            v <= 10000,
    {
        self.volume
    }

    /// Step the volume, clamped into range, and return the value the
    /// caller must write back to the audio service. A real change
    /// sets the dirty flag.
    pub fn inc(&mut self, delta: i32) -> (w: u32)
        requires
            old(self).wf(),
        ensures
            final(self).volume == inc_volume_spec(old(self).volume, delta),
            w == final(self).volume,
            final(self).muted == old(self).muted,
            final(self).backend == old(self).backend,
            final(self).dirty == (old(self).dirty || final(self).volume != old(self).volume),
            final(self).wf(),
            old(self).dirty ==> final(self).dirty,
    {
        let target: i64 = self.volume as i64 + delta as i64;
        let nv: u32 = if target < 0 {
            0
        } else if target > 10000 {
            10000
        } else {
            target as u32
        };
        if nv != self.volume {
            self.dirty = true;
        }
        self.volume = nv;
        nv
    }

    /// Set the volume to a normalized value and return it for the
    /// caller to write back.
    pub fn set(&mut self, v: u32) -> (w: u32)
        requires
            old(self).wf(),
            v <= 10000,
        ensures
            final(self).volume == v,
            w == v,
            final(self).muted == old(self).muted,
            final(self).backend == old(self).backend,
            final(self).dirty == (old(self).dirty || v != old(self).volume),
            final(self).wf(),
            old(self).dirty ==> final(self).dirty,
    {
        if v != self.volume {
            self.dirty = true;
        }
        self.volume = v;
        v
    }

    /// Flip the mute switch; returns the new mute state for the
    /// caller to write back.
    pub fn toggle(&mut self) -> (m: bool)
        ensures
            final(self).muted == !old(self).muted,
            m == final(self).muted,
            final(self).volume == old(self).volume,
            final(self).backend == old(self).backend,
            final(self).dirty,
    {
        self.muted = !self.muted;
        self.dirty = true;
        self.muted
    }
}

/// Dirty monotonicity: across any drained batch, a dirty flag that
/// is true never reads false again; only the render loop's own clear
/// step resets it.
pub proof fn lemma_dirty_monotone(a: Audio, rs: Seq<Option<AudioReading>>)
    requires
        a.dirty,
    ensures
        apply_readings_spec(a, rs).dirty,
    decreases rs.len(),
{
    if rs.len() > 0 {
        match rs[0] {
            Some(rd) => lemma_dirty_monotone(apply_reading_spec(a, rd), rs.drop_first()),
            None => lemma_dirty_monotone(a, rs.drop_first()),
        }
    }
}

/// Value persistence on failure: a batch of only failed readings
/// leaves the leaf exactly as it was.
pub proof fn lemma_failed_refresh_keeps_value(a: Audio, rs: Seq<Option<AudioReading>>)
    requires
        forall|i: int| 0 <= i < rs.len() ==> rs[i] is None,
    ensures
        apply_readings_spec(a, rs) == a,
    decreases rs.len(),
{
    if rs.len() > 0 {
        assert(rs[0] is None);
        assert forall|i: int| 0 <= i < rs.drop_first().len() implies rs.drop_first()[i] is None by {
            assert(rs.drop_first()[i] == rs[i + 1]);
        }
        lemma_failed_refresh_keeps_value(a, rs.drop_first());
    }
}

} // verus!
