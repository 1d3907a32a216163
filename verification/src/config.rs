use vstd::prelude::*;
use vstd::string::StrSliceExecFns;

use crate::color::Color;
use crate::time::Timestamp;
use crate::widget::{
    rt_view, rt_wf, rt_wf_seq, views_of_seq, RuntimeWidget, RuntimeWidgetV,
};
use crate::widgets::audio::{Audio, AudioBackend, AudioReply};
use crate::widgets::backlight::{
    clamp_raw_spec, default_backlight_device, Backlight, BacklightReply, BacklightV,
};
use crate::widgets::battery::{
    clamp_centi_spec, default_battery_device, device_path_prefix, state_code_spec, BatteryV,
    UpowerBattery, UpowerReply,
};

verus! {

/// The declarative widget tree, as configuration describes it:
/// container variants own their children; leaf variants carry a font
/// size and, for gauges, a bar length in pixels.
pub enum Widget {
    Margin { margins: (u32, u32, u32, u32), widget: Box<Widget> },
    Fixed { width: u32, height: u32, widget: Box<Widget> },
    HorizontalLayout(Vec<Widget>),
    VerticalLayout(Vec<Widget>),
    Clock { font_size: u32 },
    Date { font_size: u32 },
    Calendar { font_size: u32, sections: u32 },
    Launcher {
        font_size: u32,
        length: u32,
        app_opener: String,
        term_opener: String,
        url_opener: String,
    },
    Battery { font_size: u32, length: u32 },
    Backlight { device: String, font_size: u32, length: u32 },
    PulseAudio { font_size: u32, length: u32 },
    AlsaSound { font_size: u32, length: u32 },
}

/// What the construction-time probe of one gauge leaf's backing
/// service handed back, as plain values. Probes run outside this
/// crate (they are blocking service round trips); construction
/// consumes one outcome per gauge leaf, in tree order.
pub enum ProbeOutcome {
    /// The backing service could not even be reached.
    Failed,
    Battery { reply: UpowerReply },
    Backlight { reply: BacklightReply },
    Audio { reply: AudioReply },
}

/// How many gauge leaves a specification subtree holds: the number
/// of probe outcomes its construction consumes.
pub open spec fn spec_gauge_count(w: Widget) -> nat
    decreases w,
{
    match w {
        Widget::Margin { widget, .. } => spec_gauge_count(*widget),
        Widget::Fixed { widget, .. } => spec_gauge_count(*widget),
        Widget::HorizontalLayout(ws) => spec_gauge_count_seq(ws@),
        Widget::VerticalLayout(ws) => spec_gauge_count_seq(ws@),
        Widget::Battery { .. } => 1,
        Widget::Backlight { .. } => 1,
        Widget::PulseAudio { .. } => 1,
        Widget::AlsaSound { .. } => 1,
        _ => 0,
    }
}

pub open spec fn spec_gauge_count_seq(s: Seq<Widget>) -> nat
    decreases s,
{
    if s.len() == 0 {
        0
    } else {
        spec_gauge_count(s[0]) + spec_gauge_count_seq(s.drop_first())
    }
}

/// How many static (non-gauge) leaves a specification subtree holds.
pub open spec fn spec_static_count(w: Widget) -> nat
    decreases w,
{
    match w {
        Widget::Margin { widget, .. } => spec_static_count(*widget),
        Widget::Fixed { widget, .. } => spec_static_count(*widget),
        Widget::HorizontalLayout(ws) => spec_static_count_seq(ws@),
        Widget::VerticalLayout(ws) => spec_static_count_seq(ws@),
        Widget::Clock { .. } => 1,
        Widget::Date { .. } => 1,
        Widget::Calendar { .. } => 1,
        Widget::Launcher { .. } => 1,
        _ => 0,
    }
}

pub open spec fn spec_static_count_seq(s: Seq<Widget>) -> nat
    decreases s,
{
    if s.len() == 0 {
        0
    } else {
        spec_static_count(s[0]) + spec_static_count_seq(s.drop_first())
    }
}

/// An empty device string falls back to the platform default
/// backlight control name.
pub open spec fn resolve_device_spec(device: Seq<char>) -> Seq<char> {
    if device.len() == 0 {
        default_backlight_device()
    } else {
        device
    }
}

/// The default URL opener command, used when the configured one is
/// empty.
pub open spec fn default_url_opener() -> Seq<char> {
    "xdg_open "@
}

pub open spec fn resolve_url_spec(url: Seq<char>) -> Seq<char> {
    if url.len() == 0 {
        default_url_opener()
    } else {
        url
    }
}

/// Whether the probe outcome at `at` lets the gauge leaf `w`
/// construct: it must answer the leaf's own kind and pass the leaf's
/// validation.
pub open spec fn leaf_outcome_ok(w: Widget, outs: Seq<ProbeOutcome>, at: int) -> bool {
    match w {
        Widget::Battery { .. } => outs[at] matches ProbeOutcome::Battery { reply }
            && UpowerBattery::reply_ok(&reply),
        Widget::Backlight { .. } => outs[at] matches ProbeOutcome::Backlight { reply }
            && Backlight::reply_ok(&reply),
        Widget::PulseAudio { .. } => outs[at] matches ProbeOutcome::Audio { reply }
            && Audio::reply_ok(&reply),
        Widget::AlsaSound { .. } => outs[at] matches ProbeOutcome::Audio { reply }
            && Audio::reply_ok(&reply),
        _ => false,
    }
}

/// What constructing `w` against the probe outcomes starting at `at`
/// yields. Containers construct recursively; a child that fails is
/// silently dropped, and a layout with zero surviving children still
/// constructs; a margin or fixed box around a failed child fails
/// with it. A gauge leaf constructs exactly when its probe outcome
/// validates; a static leaf always constructs, carrying the
/// construction-time clock reading.
pub open spec fn construct_spec(
    w: Widget,
    time: Timestamp,
    outs: Seq<ProbeOutcome>,
    at: int,
) -> Option<RuntimeWidgetV>
    decreases w,
{
    match w {
        Widget::Margin { margins, widget } => match construct_spec(*widget, time, outs, at) {
            Some(c) => Some(RuntimeWidgetV::Margin { margins, child: Box::new(c) }),
            None => None,
        },
        Widget::Fixed { width, height, widget } => match construct_spec(*widget, time, outs, at) {
            Some(c) => Some(RuntimeWidgetV::Fixed { width, height, child: Box::new(c) }),
            None => None,
        },
        Widget::HorizontalLayout(ws) => Some(
            RuntimeWidgetV::HorizontalLayout {
                children: construct_children_spec(ws@, time, outs, at),
            },
        ),
        Widget::VerticalLayout(ws) => Some(
            RuntimeWidgetV::VerticalLayout {
                children: construct_children_spec(ws@, time, outs, at),
            },
        ),
        Widget::Clock { font_size } => Some(RuntimeWidgetV::Clock { font_size, time }),
        Widget::Date { font_size } => Some(RuntimeWidgetV::Date { font_size, time }),
        Widget::Calendar { font_size, sections } => Some(
            RuntimeWidgetV::Calendar { font_size, sections, time },
        ),
        Widget::Launcher { font_size, length, app_opener, term_opener, url_opener } => Some(
            RuntimeWidgetV::Launcher {
                font_size,
                length,
                app_opener: app_opener@,
                term_opener: term_opener@,
                url_opener: resolve_url_spec(url_opener@),
            },
        ),
        Widget::Battery { font_size, length } => match outs[at] {
            ProbeOutcome::Battery { reply } => if UpowerBattery::reply_ok(&reply) {
                Some(
                    RuntimeWidgetV::Battery {
                        font_size,
                        length,
                        gauge: BatteryV {
                            device_path: device_path_prefix() + default_battery_device(),
                            state: state_code_spec(reply.state_code->0),
                            capacity_centi: clamp_centi_spec(reply.capacity_centi->0),
                            dirty: false,
                            watch_fd: reply.watch_fds@[0],
                        },
                    },
                )
            } else {
                None
            },
            _ => None,
        },
        Widget::Backlight { device, font_size, length } => match outs[at] {
            ProbeOutcome::Backlight { reply } => if Backlight::reply_ok(&reply) {
                Some(
                    RuntimeWidgetV::Backlight {
                        font_size,
                        length,
                        gauge: BacklightV {
                            device: resolve_device_spec(device@),
                            raw: clamp_raw_spec(reply.raw->0, reply.max->0),
                            max: reply.max->0,
                            dirty: false,
                        },
                    },
                )
            } else {
                None
            },
            _ => None,
        },
        Widget::PulseAudio { font_size, length } => match outs[at] {
            ProbeOutcome::Audio { reply } => if Audio::reply_ok(&reply) {
                Some(
                    RuntimeWidgetV::Audio {
                        font_size,
                        length,
                        gauge: Audio {
                            backend: AudioBackend::Pulse,
                            volume: crate::widgets::audio::clamp_volume_spec(
                                reply.reading->0.volume,
                            ),
                            muted: reply.reading->0.muted,
                            dirty: false,
                        },
                    },
                )
            } else {
                None
            },
            _ => None,
        },
        Widget::AlsaSound { font_size, length } => match outs[at] {
            ProbeOutcome::Audio { reply } => if Audio::reply_ok(&reply) {
                Some(
                    RuntimeWidgetV::Audio {
                        font_size,
                        length,
                        gauge: Audio {
                            backend: AudioBackend::Alsa,
                            volume: crate::widgets::audio::clamp_volume_spec(
                                reply.reading->0.volume,
                            ),
                            muted: reply.reading->0.muted,
                            dirty: false,
                        },
                    },
                )
            } else {
                None
            },
            _ => None,
        },
    }
}

/// Children construct left to right, each consuming its own gauge
/// leaves' outcomes; the survivors keep their relative order.
pub open spec fn construct_children_spec(
    s: Seq<Widget>,
    time: Timestamp,
    outs: Seq<ProbeOutcome>,
    at: int,
) -> Seq<RuntimeWidgetV>
    decreases s,
{
    if s.len() == 0 {
        Seq::empty()
    } else {
        let rest = construct_children_spec(
            s.drop_first(),
            time,
            outs,
            at + spec_gauge_count(s[0]),
        );
        match construct_spec(s[0], time, outs, at) {
            Some(c) => seq![c] + rest,
            None => rest,
        }
    }
}

/// How many of the gauge leaves of `w` construct against the probe
/// outcomes starting at `at`: with N gauge leaves and M failed
/// probes this is N - M.
pub open spec fn ok_gauge_count(w: Widget, outs: Seq<ProbeOutcome>, at: int) -> nat
    decreases w,
{
    match w {
        Widget::Margin { widget, .. } => ok_gauge_count(*widget, outs, at),
        Widget::Fixed { widget, .. } => ok_gauge_count(*widget, outs, at),
        Widget::HorizontalLayout(ws) => ok_gauge_count_seq(ws@, outs, at),
        Widget::VerticalLayout(ws) => ok_gauge_count_seq(ws@, outs, at),
        Widget::Battery { .. } => if leaf_outcome_ok(w, outs, at) {
            1nat
        } else {
            0nat
        },
        Widget::Backlight { .. } => if leaf_outcome_ok(w, outs, at) {
            1nat
        } else {
            0nat
        },
        Widget::PulseAudio { .. } => if leaf_outcome_ok(w, outs, at) {
            1nat
        } else {
            0nat
        },
        Widget::AlsaSound { .. } => if leaf_outcome_ok(w, outs, at) {
            1nat
        } else {
            0nat
        },
        _ => 0,
    }
}

pub open spec fn ok_gauge_count_seq(s: Seq<Widget>, outs: Seq<ProbeOutcome>, at: int) -> nat
    decreases s,
{
    if s.len() == 0 {
        0
    } else {
        ok_gauge_count(s[0], outs, at) + ok_gauge_count_seq(
            s.drop_first(),
            outs,
            at + spec_gauge_count(s[0]),
        )
    }
}

/// The pruning law: when a specification tree with N gauge leaves
/// constructs against outcomes of which M fail validation, the live
/// tree holds exactly N - M gauge leaves and every static leaf, with
/// container nesting and order preserved (the shape of
/// `construct_spec` itself). A root that fails to construct is a
/// margin/fixed chain around the one gauge leaf whose probe failed.
pub proof fn lemma_pruning(w: Widget, time: Timestamp, outs: Seq<ProbeOutcome>, at: int)
    ensures
        construct_spec(w, time, outs, at) matches Some(v) ==> {
            &&& crate::widget::gauge_leaf_count(v) == ok_gauge_count(w, outs, at)
            &&& crate::widget::static_leaf_count(v) == spec_static_count(w)
        },
        construct_spec(w, time, outs, at) is None ==> {
            &&& spec_static_count(w) == 0
            &&& spec_gauge_count(w) == 1
            &&& ok_gauge_count(w, outs, at) == 0
        },
    decreases w,
{
    match w {
        Widget::Margin { widget, .. } => {
            lemma_pruning(*widget, time, outs, at);
        },
        Widget::Fixed { widget, .. } => {
            lemma_pruning(*widget, time, outs, at);
        },
        Widget::HorizontalLayout(ws) => {
            lemma_pruning_seq(ws@, time, outs, at);
        },
        Widget::VerticalLayout(ws) => {
            lemma_pruning_seq(ws@, time, outs, at);
        },
        _ => {},
    }
}

pub proof fn lemma_pruning_seq(s: Seq<Widget>, time: Timestamp, outs: Seq<ProbeOutcome>, at: int)
    ensures
        crate::widget::gauge_leaf_count_seq(construct_children_spec(s, time, outs, at))
            == ok_gauge_count_seq(s, outs, at),
        crate::widget::static_leaf_count_seq(construct_children_spec(s, time, outs, at))
            == spec_static_count_seq(s),
    decreases s,
{
    if s.len() > 0 {
        let at2 = at + spec_gauge_count(s[0]);
        lemma_pruning(s[0], time, outs, at);
        lemma_pruning_seq(s.drop_first(), time, outs, at2);
        let rest = construct_children_spec(s.drop_first(), time, outs, at2);
        match construct_spec(s[0], time, outs, at) {
            Some(c) => {
                assert((seq![c] + rest)[0] == c);
                assert((seq![c] + rest).drop_first() =~= rest);
                assert(crate::widget::gauge_leaf_count_seq(seq![c] + rest)
                    == crate::widget::gauge_leaf_count(c)
                    + crate::widget::gauge_leaf_count_seq(rest));
                assert(crate::widget::static_leaf_count_seq(seq![c] + rest)
                    == crate::widget::static_leaf_count(c)
                    + crate::widget::static_leaf_count_seq(rest));
            },
            None => {},
        }
    }
}

pub open spec fn opt_view(o: Option<RuntimeWidget>) -> Option<RuntimeWidgetV> {
    match o {
        Some(w) => Some(rt_view(w)),
        None => None,
    }
}

fn resolve_device(device: String) -> (r: String)
    ensures
        r@ == resolve_device_spec(device@),
{
    if device.as_str().unicode_len() == 0 {
        "intel_backlight".to_owned()
    } else {
        device
    }
}

fn resolve_url(url: String) -> (r: String)
    ensures
        r@ == resolve_url_spec(url@),
{
    if url.as_str().unicode_len() == 0 {
        "xdg_open ".to_owned()
    } else {
        url
    }
}

impl Widget {
    /// Build the live widget subtree for this specification,
    /// consuming this subtree's probe outcomes from `outs` starting
    /// at `at`. Returns the constructed subtree (`None` when this
    /// node was pruned) and the next unconsumed outcome position.
    pub fn construct(self, time: Timestamp, outs: &Vec<ProbeOutcome>, at: usize) -> (r: (
        Option<RuntimeWidget>,
        usize,
    ))
        requires
            at + spec_gauge_count(self) <= outs@.len(),
        ensures
            r.1 == at + spec_gauge_count(self),
            opt_view(r.0) == construct_spec(self, time, outs@, at as int),
            r.0 matches Some(rt) ==> rt_wf(rt@),
        decreases self,
    {
        let ghost s0 = self;
        let outs_len = outs.len();
        proof {
            assert(at + spec_gauge_count(s0) <= outs_len);
        }
        match self {
            Widget::Margin { margins, widget } => {
                proof {
                    assert(decreases_to!(s0 => *widget));
                }
                let (c, at2) = (*widget).construct(time, outs, at);
                match c {
                    Some(c) => (
                        Some(RuntimeWidget::Margin { margins, child: Box::new(c) }),
                        at2,
                    ),
                    None => (None, at2),
                }
            },
            Widget::Fixed { width, height, widget } => {
                proof {
                    assert(decreases_to!(s0 => *widget));
                }
                let (c, at2) = (*widget).construct(time, outs, at);
                match c {
                    Some(c) => (
                        Some(RuntimeWidget::Fixed { width, height, child: Box::new(c) }),
                        at2,
                    ),
                    None => (None, at2),
                }
            },
            Widget::HorizontalLayout(ws) => {
                proof {
                    assert(decreases_to!(s0 => ws));
                    assert(decreases_to!(ws => ws@));
                }
                let (children, at2) = construct_children(ws, time, outs, at);
                (Some(RuntimeWidget::HorizontalLayout { children }), at2)
            },
            Widget::VerticalLayout(ws) => {
                proof {
                    assert(decreases_to!(s0 => ws));
                    assert(decreases_to!(ws => ws@));
                }
                let (children, at2) = construct_children(ws, time, outs, at);
                (Some(RuntimeWidget::VerticalLayout { children }), at2)
            },
            Widget::Clock { font_size } => (
                Some(RuntimeWidget::Clock { font_size, time }),
                at,
            ),
            Widget::Date { font_size } => (Some(RuntimeWidget::Date { font_size, time }), at),
            Widget::Calendar { font_size, sections } => (
                Some(RuntimeWidget::Calendar { font_size, sections, time }),
                at,
            ),
            Widget::Launcher { font_size, length, app_opener, term_opener, url_opener } => {
                let url = resolve_url(url_opener);
                (
                    Some(
                        RuntimeWidget::Launcher {
                            font_size,
                            length,
                            app_opener,
                            term_opener,
                            url_opener: url,
                        },
                    ),
                    at,
                )
            },
            Widget::Battery { font_size, length } => {
                proof {
                    assert(spec_gauge_count(s0) == 1);
                }
                let r = match &outs[at] {
                    ProbeOutcome::Battery { reply } => match UpowerBattery::new(
                        font_size,
                        length,
                        reply,
                    ) {
                        Ok(w) => Some(w),
                        Err(_) => None,
                    },
                    _ => None,
                };
                (r, at + 1)
            },
            Widget::Backlight { device, font_size, length } => {
                proof {
                    assert(spec_gauge_count(s0) == 1);
                }
                let d = resolve_device(device);
                let r = match &outs[at] {
                    ProbeOutcome::Backlight { reply } => match Backlight::from_device(d, reply) {
                        Ok(gauge) => Some(
                            RuntimeWidget::Backlight { font_size, length, gauge },
                        ),
                        Err(_) => None,
                    },
                    _ => None,
                };
                (r, at + 1)
            },
            Widget::PulseAudio { font_size, length } => {
                proof {
                    assert(spec_gauge_count(s0) == 1);
                }
                let r = match &outs[at] {
                    ProbeOutcome::Audio { reply } => match Audio::from_probe(
                        AudioBackend::Pulse,
                        reply,
                    ) {
                        Ok(gauge) => Some(RuntimeWidget::Audio { font_size, length, gauge }),
                        Err(_) => None,
                    },
                    _ => None,
                };
                (r, at + 1)
            },
            Widget::AlsaSound { font_size, length } => {
                proof {
                    assert(spec_gauge_count(s0) == 1);
                }
                let r = match &outs[at] {
                    ProbeOutcome::Audio { reply } => match Audio::from_probe(
                        AudioBackend::Alsa,
                        reply,
                    ) {
                        Ok(gauge) => Some(RuntimeWidget::Audio { font_size, length, gauge }),
                        Err(_) => None,
                    },
                    _ => None,
                };
                (r, at + 1)
            },
        }
    }
}

/// Construct each child in stored order, dropping the ones whose
/// probes failed; survivors keep their relative order.
#[verifier::loop_isolation(false)]
fn construct_children(ws: Vec<Widget>, time: Timestamp, outs: &Vec<ProbeOutcome>, at: usize) -> (r:
    (Vec<RuntimeWidget>, usize))
    requires
        at + spec_gauge_count_seq(ws@) <= outs@.len(),
    ensures
        r.1 == at + spec_gauge_count_seq(ws@),
        views_of_seq(r.0@) == construct_children_spec(ws@, time, outs@, at as int),
        rt_wf_seq(views_of_seq(r.0@)),
    decreases ws@,
{
    let ghost orig = ws@;
    let mut rest = ws;
    let mut children: Vec<RuntimeWidget> = Vec::new();
    let mut cur: usize = at;
    proof {
        assert(views_of_seq(children@) =~= Seq::<RuntimeWidgetV>::empty());
        assert(views_of_seq(children@) + construct_children_spec(rest@, time, outs@, cur as int)
            =~= construct_children_spec(orig, time, outs@, at as int));
        assert(rest@ == orig.skip(0));
    }
    while rest.len() > 0
        invariant
            at + spec_gauge_count_seq(orig) <= outs@.len(),
            cur + spec_gauge_count_seq(rest@) == at + spec_gauge_count_seq(orig),
            at <= cur,
            views_of_seq(children@) + construct_children_spec(rest@, time, outs@, cur as int)
                == construct_children_spec(orig, time, outs@, at as int),
            rt_wf_seq(views_of_seq(children@)),
            rest@.len() <= orig.len(),
            rest@ == orig.skip(orig.len() - rest@.len()),
        decreases rest@.len(),
    {
        let ghost pre = rest@;
        let ghost done = children@;
        let ghost d = orig.len() - pre.len();
        let w = rest.remove(0);
        proof {
            assert(pre[0] == w);
            assert(pre.drop_first() =~= rest@);
            assert(orig.skip(d as int)[0] == orig[d as int]);
            assert(w == orig[d as int]);
            assert(decreases_to!(orig => orig[d as int]));
            assert(orig.skip(d as int).drop_first() =~= orig.skip(d as int + 1));
        }
        let (c, cur2) = w.construct(time, outs, cur);
        match c {
            Some(rt) => {
                proof {
                    crate::widget::lemma_views_of_seq_push(done, rt);
                    assert(rt_wf_seq(views_of_seq(done)));
                }
                let ghost rtv = rt_view(rt);
                children.push(rt);
                proof {
                    assert(views_of_seq(children@) == views_of_seq(done).push(rtv));
                    assert forall|k: int| 0 <= k < views_of_seq(children@).len() implies rt_wf(
                        #[trigger] views_of_seq(children@)[k],
                    ) by {
                        if k < views_of_seq(done).len() {
                            assert(views_of_seq(children@)[k] == views_of_seq(done)[k]);
                        } else {
                            assert(views_of_seq(children@)[k] == rtv);
                        }
                    }
                    assert(views_of_seq(done).push(rtv)
                        + construct_children_spec(rest@, time, outs@, cur2 as int)
                        =~= views_of_seq(done) + (seq![rtv] + construct_children_spec(
                        rest@,
                        time,
                        outs@,
                        cur2 as int,
                    )));
                }
            },
            None => {},
        }
        cur = cur2;
    }
    proof {
        assert(rest@.len() == 0);
        assert(construct_children_spec(rest@, time, outs@, cur as int)
            =~= Seq::<RuntimeWidgetV>::empty());
        assert(views_of_seq(children@) + construct_children_spec(rest@, time, outs@, cur as int)
            =~= views_of_seq(children@));
    }
    (children, cur)
}

/// What the construction pipeline must probe for one gauge leaf,
/// with device names already resolved (an empty configured name is
/// replaced by the platform default).
pub enum ProbeRequest {
    Battery { device: String },
    Backlight { device: String },
    PulseAudio,
    AlsaSound,
}

/// The request's mathematical view.
pub enum ProbeRequestV {
    Battery { device: Seq<char> },
    Backlight { device: Seq<char> },
    PulseAudio,
    AlsaSound,
}

impl View for ProbeRequest {
    type V = ProbeRequestV;

    open spec fn view(&self) -> ProbeRequestV {
        match self {
            ProbeRequest::Battery { device } => ProbeRequestV::Battery { device: device@ },
            ProbeRequest::Backlight { device } => ProbeRequestV::Backlight { device: device@ },
            ProbeRequest::PulseAudio => ProbeRequestV::PulseAudio,
            ProbeRequest::AlsaSound => ProbeRequestV::AlsaSound,
        }
    }
}

pub open spec fn req_views_of(s: Seq<ProbeRequest>) -> Seq<ProbeRequestV>
    decreases s,
{
    if s.len() == 0 {
        Seq::empty()
    } else {
        seq![s[0]@] + req_views_of(s.drop_first())
    }
}

pub proof fn lemma_req_views_of_push(s: Seq<ProbeRequest>, x: ProbeRequest)
    ensures
        req_views_of(s.push(x)) == req_views_of(s).push(x@),
    decreases s,
{
    if s.len() == 0 {
        assert(s.push(x)[0] == x);
        assert(s.push(x).drop_first() =~= Seq::<ProbeRequest>::empty());
        assert(req_views_of(s.push(x)) == seq![x@] + req_views_of(s.push(x).drop_first()));
        assert(seq![x@] + Seq::<ProbeRequestV>::empty() =~= req_views_of(s).push(x@));
    } else {
        let vsp = req_views_of(s.drop_first());
        assert(s.push(x)[0] == s[0]);
        assert(s.push(x).drop_first() =~= s.drop_first().push(x));
        lemma_req_views_of_push(s.drop_first(), x);
        assert(req_views_of(s.push(x)) == seq![s[0]@] + req_views_of(s.push(x).drop_first()));
        assert(req_views_of(s.push(x).drop_first()) == vsp.push(x@));
        assert(seq![s[0]@] + vsp.push(x@) =~= (seq![s[0]@] + vsp).push(x@));
        assert(req_views_of(s) == seq![s[0]@] + vsp);
    }
}

/// The probes a specification subtree needs, one per gauge leaf, in
/// tree order, with devices resolved.
pub open spec fn probe_requests_spec(w: Widget) -> Seq<ProbeRequestV>
    decreases w,
{
    match w {
        Widget::Margin { widget, .. } => probe_requests_spec(*widget),
        Widget::Fixed { widget, .. } => probe_requests_spec(*widget),
        Widget::HorizontalLayout(ws) => probe_requests_seq_spec(ws@),
        Widget::VerticalLayout(ws) => probe_requests_seq_spec(ws@),
        Widget::Battery { .. } => seq![
            ProbeRequestV::Battery { device: default_battery_device() },
        ],
        Widget::Backlight { device, .. } => seq![
            ProbeRequestV::Backlight { device: resolve_device_spec(device@) },
        ],
        Widget::PulseAudio { .. } => seq![ProbeRequestV::PulseAudio],
        Widget::AlsaSound { .. } => seq![ProbeRequestV::AlsaSound],
        _ => Seq::empty(),
    }
}

pub open spec fn probe_requests_seq_spec(s: Seq<Widget>) -> Seq<ProbeRequestV>
    decreases s,
{
    if s.len() == 0 {
        Seq::empty()
    } else {
        probe_requests_spec(s[0]) + probe_requests_seq_spec(s.drop_first())
    }
}

/// One probe request per gauge leaf: the request list is exactly as
/// long as the number of outcomes construction will consume.
pub proof fn lemma_probe_requests_len(w: Widget)
    ensures
        probe_requests_spec(w).len() == spec_gauge_count(w),
    decreases w,
{
    match w {
        Widget::Margin { widget, .. } => lemma_probe_requests_len(*widget),
        Widget::Fixed { widget, .. } => lemma_probe_requests_len(*widget),
        Widget::HorizontalLayout(ws) => lemma_probe_requests_len_seq(ws@),
        Widget::VerticalLayout(ws) => lemma_probe_requests_len_seq(ws@),
        _ => {},
    }
}

pub proof fn lemma_probe_requests_len_seq(s: Seq<Widget>)
    ensures
        probe_requests_seq_spec(s).len() == spec_gauge_count_seq(s),
    decreases s,
{
    if s.len() > 0 {
        lemma_probe_requests_len(s[0]);
        lemma_probe_requests_len_seq(s.drop_first());
    }
}

impl Widget {
    /// List what the probes must ask the platform for, one request
    /// per gauge leaf, appended to `out` in tree order. The caller
    /// performs the blocking service round trips and answers with
    /// one `ProbeOutcome` per request, in the same order, before
    /// calling `construct`.
    pub fn probe_requests(&self, out: &mut Vec<ProbeRequest>)
        ensures
            req_views_of(final(out)@) == req_views_of(old(out)@) + probe_requests_spec(*self),
            final(out)@.len() == old(out)@.len() + spec_gauge_count(*self),
        decreases *self,
    {
        proof {
            lemma_probe_requests_len(*self);
        }
        let ghost s0 = *self;
        match self {
            Widget::Margin { widget, .. } => {
                proof {
                    assert(decreases_to!(s0 => **widget));
                }
                widget.probe_requests(out);
            },
            Widget::Fixed { widget, .. } => {
                proof {
                    assert(decreases_to!(s0 => **widget));
                }
                widget.probe_requests(out);
            },
            Widget::HorizontalLayout(ws) => {
                probe_requests_children(ws, out);
            },
            Widget::VerticalLayout(ws) => {
                probe_requests_children(ws, out);
            },
            Widget::Battery { .. } => {
                let ghost o0 = out@;
                out.push(ProbeRequest::Battery { device: "BAT0".to_owned() });
                proof {
                    lemma_req_views_of_push(o0, out@[out@.len() - 1]);
                }
            },
            Widget::Backlight { device, .. } => {
                let d = resolve_device(device.clone());
                let ghost o0 = out@;
                out.push(ProbeRequest::Backlight { device: d });
                proof {
                    lemma_req_views_of_push(o0, out@[out@.len() - 1]);
                }
            },
            Widget::PulseAudio { .. } => {
                let ghost o0 = out@;
                out.push(ProbeRequest::PulseAudio);
                proof {
                    lemma_req_views_of_push(o0, out@[out@.len() - 1]);
                }
            },
            Widget::AlsaSound { .. } => {
                let ghost o0 = out@;
                out.push(ProbeRequest::AlsaSound);
                proof {
                    lemma_req_views_of_push(o0, out@[out@.len() - 1]);
                }
            },
            _ => {},
        }
    }
}

/// Visit each child in stored order.
#[verifier::loop_isolation(false)]
fn probe_requests_children(ws: &Vec<Widget>, out: &mut Vec<ProbeRequest>)
    ensures
        req_views_of(final(out)@) == req_views_of(old(out)@) + probe_requests_seq_spec(ws@),
        final(out)@.len() == old(out)@.len() + spec_gauge_count_seq(ws@),
    decreases ws@,
{
    let n = ws.len();
    let mut i: usize = 0;
    proof {
        lemma_probe_requests_len_seq(ws@);
        assert(ws@.skip(0) =~= ws@);
    }
    while i < n
        invariant
            n == ws@.len(),
            i <= n,
            req_views_of(out@) + probe_requests_seq_spec(ws@.skip(i as int))
                == req_views_of(old(out)@) + probe_requests_seq_spec(ws@),
            out@.len() + spec_gauge_count_seq(ws@.skip(i as int)) == old(out)@.len()
                + spec_gauge_count_seq(ws@),
        decreases n - i,
    {
        proof {
            assert(ws@.skip(i as int)[0] == ws@[i as int]);
            assert(ws@.skip(i as int).drop_first() =~= ws@.skip(i as int + 1));
            assert(decreases_to!(ws@ => ws@[i as int]));
        }
        let w = &ws[i];
        w.probe_requests(out);
        i = i + 1;
    }
    proof {
        assert(ws@.skip(n as int) =~= Seq::<Widget>::empty());
        assert(req_views_of(out@) + probe_requests_seq_spec(ws@.skip(n as int))
            =~= req_views_of(out@));
    }
}

/// Which outputs the overlay appears on.
#[derive(Clone, Copy, Debug, PartialEq, Eq, Structural)]
pub enum OutputMode {
    /// Show on every output.
    All,
    /// Show only on outputs currently active.
    Active,
}

impl Default for OutputMode {
    /// The documented default: active outputs only.
    fn default() -> (r: OutputMode)
        ensures
            r == OutputMode::Active,
    {
        OutputMode::Active
    }
}

/// The whole configuration: output selection, scale, background and
/// the widget tree.
pub struct Config {
    pub output_mode: OutputMode,
    pub scale: u32,
    pub background: Color,
    pub widget: Widget,
}

/// The stock widget tree: date and clock beside the battery and
/// backlight bars, with the calendar and the launcher below.
pub open spec fn is_default_widget(w: Widget) -> bool {
    match w {
        Widget::Margin { margins, widget } => margins == (20u32, 20u32, 20u32, 20u32) && (
        match *widget {
            Widget::VerticalLayout(rows) => rows@.len() == 3 && is_default_top_row(rows@[0])
                && is_default_calendar(rows@[1]) && is_default_launcher(rows@[2]),
            _ => false,
        }),
        _ => false,
    }
}

pub open spec fn is_default_top_row(w: Widget) -> bool {
    match w {
        Widget::HorizontalLayout(cols) => cols@.len() == 2 && is_default_clock_block(cols@[0]) && (
        match cols@[1] {
            Widget::VerticalLayout(bars) => bars@.len() == 2 && is_default_battery_row(bars@[0])
                && is_default_backlight_row(bars@[1]),
            _ => false,
        }),
        _ => false,
    }
}

pub open spec fn is_default_clock_block(w: Widget) -> bool {
    match w {
        Widget::Margin { margins, widget } => margins == (0u32, 88u32, 0u32, 32u32) && (
        match *widget {
            Widget::VerticalLayout(items) => items@.len() == 2
                && items@[0] == (Widget::Date { font_size: 64u32 })
                && items@[1] == (Widget::Clock { font_size: 256u32 }),
            _ => false,
        }),
        _ => false,
    }
}

pub open spec fn is_default_battery_row(w: Widget) -> bool {
    match w {
        Widget::Margin { margins, widget } => margins == (0u32, 0u32, 0u32, 8u32) && *widget == (
        Widget::Battery { font_size: 24u32, length: 600u32 }),
        _ => false,
    }
}

pub open spec fn is_default_backlight_row(w: Widget) -> bool {
    match w {
        Widget::Margin { margins, widget } => margins == (0u32, 0u32, 0u32, 8u32) && (
        match *widget {
            Widget::Backlight { device, font_size, length } => device@ == "intel_backlight"@
                && font_size == 24u32 && length == 600u32,
            _ => false,
        }),
        _ => false,
    }
}

pub open spec fn is_default_calendar(w: Widget) -> bool {
    w == (Widget::Calendar { font_size: 16u32, sections: 3u32 })
}

pub open spec fn is_default_launcher(w: Widget) -> bool {
    match w {
        Widget::Launcher { font_size, length, app_opener, term_opener, url_opener } => font_size
            == 32u32 && length == 1200u32 && app_opener@ == Seq::<char>::empty() && term_opener@
            == Seq::<char>::empty() && url_opener@ == Seq::<char>::empty(),
        _ => false,
    }
}

impl Default for Config {
    /// The stock configuration: the default widget tree on active
    /// outputs, scale 1, over near-opaque black.
    fn default() -> (c: Config)
        ensures
            c.output_mode == OutputMode::Active,
            c.scale == 1,
            c.background == (Color { r: 0, g: 0, b: 0, a: 900 }),
            is_default_widget(c.widget),
    {
        let clock_block = Widget::Margin {
            margins: (0, 88, 0, 32),
            widget: Box::new(
                Widget::VerticalLayout(
                    vec![
                        Widget::Date { font_size: 64 },
                        Widget::Clock { font_size: 256 },
                    ],
                ),
            ),
        };
        let bars = Widget::VerticalLayout(
            vec![
                Widget::Margin {
                    margins: (0, 0, 0, 8),
                    widget: Box::new(Widget::Battery { font_size: 24, length: 600 }),
                },
                Widget::Margin {
                    margins: (0, 0, 0, 8),
                    widget: Box::new(
                        Widget::Backlight {
                            device: "intel_backlight".to_owned(),
                            font_size: 24,
                            length: 600,
                        },
                    ),
                },
            ],
        );
        let widget = Widget::Margin {
            margins: (20, 20, 20, 20),
            widget: Box::new(
                Widget::VerticalLayout(
                    vec![
                        Widget::HorizontalLayout(vec![clock_block, bars]),
                        Widget::Calendar { font_size: 16, sections: 3 },
                        Widget::Launcher {
                            font_size: 32,
                            length: 1200,
                            app_opener: String::new(),
                            term_opener: String::new(),
                            url_opener: String::new(),
                        },
                    ],
                ),
            ),
        };
        Config { output_mode: OutputMode::Active, scale: 1, background: Color::new(0, 0, 0, 900), widget }
    }
}

} // verus!
