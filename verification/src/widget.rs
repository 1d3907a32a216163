use vstd::prelude::*;

use crate::cmd::{Cmd, CmdQueue};
use crate::color::{white, Color};
use crate::time::Timestamp;
use crate::wait::{Interest, PollDescriptor, WaitContext};
use crate::widgets::audio::{self, Audio, AudioReading};
use crate::widgets::backlight::{self, Backlight, BacklightV};
use crate::widgets::battery::{self, BatteryReading, BatteryV, UpowerBattery};

verus! {

/// Which kind of gauge a bar renders; the render backend picks the
/// label and icon from this.
#[derive(Clone, Copy, Debug, PartialEq, Eq, Structural)]
pub enum GaugeKind {
    Battery,
    Backlight,
    Audio,
}

/// One drawable primitive the tree hands to the render backend. The
/// core never touches pixels: a whole-tree redraw is exactly this
/// list, rebuilt from current state, in stable tree order.
#[derive(Clone, Copy, Debug, PartialEq, Eq, Structural)]
pub enum ContentItem {
    Clock { font_size: u32, time: Timestamp },
    Date { font_size: u32, time: Timestamp },
    Calendar { font_size: u32, sections: u32, time: Timestamp },
    Launcher { font_size: u32, length: u32 },
    /// A bar-style gauge: name label, proportional fill (in
    /// ten-thousandths of full scale) and color, sized to a
    /// configured pixel length.
    Bar { kind: GaugeKind, font_size: u32, length: u32, value: u32, color: Color },
}

/// A live, constructed widget node. Containers own their surviving
/// children in display order; gauge leaves own their gauge state.
pub enum RuntimeWidget {
    Margin { margins: (u32, u32, u32, u32), child: Box<RuntimeWidget> },
    Fixed { width: u32, height: u32, child: Box<RuntimeWidget> },
    HorizontalLayout { children: Vec<RuntimeWidget> },
    VerticalLayout { children: Vec<RuntimeWidget> },
    Clock { font_size: u32, time: Timestamp },
    Date { font_size: u32, time: Timestamp },
    Calendar { font_size: u32, sections: u32, time: Timestamp },
    Launcher {
        font_size: u32,
        length: u32,
        app_opener: String,
        term_opener: String,
        url_opener: String,
    },
    Battery { font_size: u32, length: u32, gauge: UpowerBattery },
    Backlight { font_size: u32, length: u32, gauge: Backlight },
    Audio { font_size: u32, length: u32, gauge: Audio },
}

/// The runtime tree's mathematical view: the same shape with
/// children as sequences and strings as character sequences.
pub enum RuntimeWidgetV {
    Margin { margins: (u32, u32, u32, u32), child: Box<RuntimeWidgetV> },
    Fixed { width: u32, height: u32, child: Box<RuntimeWidgetV> },
    HorizontalLayout { children: Seq<RuntimeWidgetV> },
    VerticalLayout { children: Seq<RuntimeWidgetV> },
    Clock { font_size: u32, time: Timestamp },
    Date { font_size: u32, time: Timestamp },
    Calendar { font_size: u32, sections: u32, time: Timestamp },
    Launcher {
        font_size: u32,
        length: u32,
        app_opener: Seq<char>,
        term_opener: Seq<char>,
        url_opener: Seq<char>,
    },
    Battery { font_size: u32, length: u32, gauge: BatteryV },
    Backlight { font_size: u32, length: u32, gauge: BacklightV },
    Audio { font_size: u32, length: u32, gauge: Audio },
}

pub open spec fn rt_view(w: RuntimeWidget) -> RuntimeWidgetV
    decreases w,
{
    match w {
        RuntimeWidget::Margin { margins, child } => RuntimeWidgetV::Margin {
            margins,
            child: Box::new(rt_view(*child)),
        },
        RuntimeWidget::Fixed { width, height, child } => RuntimeWidgetV::Fixed {
            width,
            height,
            child: Box::new(rt_view(*child)),
        },
        RuntimeWidget::HorizontalLayout { children } => RuntimeWidgetV::HorizontalLayout {
            children: views_of_seq(children@),
        },
        RuntimeWidget::VerticalLayout { children } => RuntimeWidgetV::VerticalLayout {
            children: views_of_seq(children@),
        },
        RuntimeWidget::Clock { font_size, time } => RuntimeWidgetV::Clock { font_size, time },
        RuntimeWidget::Date { font_size, time } => RuntimeWidgetV::Date { font_size, time },
        RuntimeWidget::Calendar { font_size, sections, time } => RuntimeWidgetV::Calendar {
            font_size,
            sections,
            time,
        },
        RuntimeWidget::Launcher { font_size, length, app_opener, term_opener, url_opener } => {
            RuntimeWidgetV::Launcher {
                font_size,
                length,
                app_opener: app_opener@,
                term_opener: term_opener@,
                url_opener: url_opener@,
            }
        },
        RuntimeWidget::Battery { font_size, length, gauge } => RuntimeWidgetV::Battery {
            font_size,
            length,
            gauge: gauge@,
        },
        RuntimeWidget::Backlight { font_size, length, gauge } => RuntimeWidgetV::Backlight {
            font_size,
            length,
            gauge: gauge@,
        },
        RuntimeWidget::Audio { font_size, length, gauge } => RuntimeWidgetV::Audio {
            font_size,
            length,
            gauge,
        },
    }
}

impl View for RuntimeWidget {
    type V = RuntimeWidgetV;

    open spec fn view(&self) -> RuntimeWidgetV {
        rt_view(*self)
    }
}

/// How many gauge leaves a subtree holds; each consumes exactly one
/// probe outcome at construction and one event batch per iteration.
pub open spec fn gauge_leaf_count(v: RuntimeWidgetV) -> nat
    decreases v,
{
    match v {
        RuntimeWidgetV::Margin { child, .. } => gauge_leaf_count(*child),
        RuntimeWidgetV::Fixed { child, .. } => gauge_leaf_count(*child),
        RuntimeWidgetV::HorizontalLayout { children } => gauge_leaf_count_seq(children),
        RuntimeWidgetV::VerticalLayout { children } => gauge_leaf_count_seq(children),
        RuntimeWidgetV::Battery { .. } => 1,
        RuntimeWidgetV::Backlight { .. } => 1,
        RuntimeWidgetV::Audio { .. } => 1,
        _ => 0,
    }
}

pub open spec fn gauge_leaf_count_seq(s: Seq<RuntimeWidgetV>) -> nat
    decreases s,
{
    if s.len() == 0 {
        0
    } else {
        gauge_leaf_count(s[0]) + gauge_leaf_count_seq(s.drop_first())
    }
}

/// How many static (non-gauge) leaves a subtree holds.
pub open spec fn static_leaf_count(v: RuntimeWidgetV) -> nat
    decreases v,
{
    match v {
        RuntimeWidgetV::Margin { child, .. } => static_leaf_count(*child),
        RuntimeWidgetV::Fixed { child, .. } => static_leaf_count(*child),
        RuntimeWidgetV::HorizontalLayout { children } => static_leaf_count_seq(children),
        RuntimeWidgetV::VerticalLayout { children } => static_leaf_count_seq(children),
        RuntimeWidgetV::Clock { .. } => 1,
        RuntimeWidgetV::Date { .. } => 1,
        RuntimeWidgetV::Calendar { .. } => 1,
        RuntimeWidgetV::Launcher { .. } => 1,
        _ => 0,
    }
}

pub open spec fn static_leaf_count_seq(s: Seq<RuntimeWidgetV>) -> nat
    decreases s,
{
    if s.len() == 0 {
        0
    } else {
        static_leaf_count(s[0]) + static_leaf_count_seq(s.drop_first())
    }
}

/// Every gauge in the subtree is well formed.
pub open spec fn rt_wf(v: RuntimeWidgetV) -> bool
    decreases v,
{
    match v {
        RuntimeWidgetV::Margin { child, .. } => rt_wf(*child),
        RuntimeWidgetV::Fixed { child, .. } => rt_wf(*child),
        RuntimeWidgetV::HorizontalLayout { children } => rt_wf_seq(children),
        RuntimeWidgetV::VerticalLayout { children } => rt_wf_seq(children),
        RuntimeWidgetV::Battery { gauge, .. } => gauge.wf(),
        RuntimeWidgetV::Backlight { gauge, .. } => gauge.wf(),
        RuntimeWidgetV::Audio { gauge, .. } => gauge.wf(),
        _ => true,
    }
}

pub open spec fn rt_wf_seq(s: Seq<RuntimeWidgetV>) -> bool
    decreases s,
{
    forall|i: int| 0 <= i < s.len() ==> rt_wf(#[trigger] s[i])
}

/// The drawable content of a subtree, in stable tree order. Margin
/// and fixed-size containers produce no content of their own; layout
/// containers concatenate every surviving child's content in stored
/// order.
pub open spec fn content_spec(v: RuntimeWidgetV) -> Seq<ContentItem>
    decreases v,
{
    match v {
        RuntimeWidgetV::Margin { child, .. } => content_spec(*child),
        RuntimeWidgetV::Fixed { child, .. } => content_spec(*child),
        RuntimeWidgetV::HorizontalLayout { children } => content_seq_spec(children),
        RuntimeWidgetV::VerticalLayout { children } => content_seq_spec(children),
        RuntimeWidgetV::Clock { font_size, time } => seq![
            ContentItem::Clock { font_size, time },
        ],
        RuntimeWidgetV::Date { font_size, time } => seq![ContentItem::Date { font_size, time }],
        RuntimeWidgetV::Calendar { font_size, sections, time } => seq![
            ContentItem::Calendar { font_size, sections, time },
        ],
        RuntimeWidgetV::Launcher { font_size, length, .. } => seq![
            ContentItem::Launcher { font_size, length },
        ],
        RuntimeWidgetV::Battery { font_size, length, gauge } => seq![
            ContentItem::Bar {
                kind: GaugeKind::Battery,
                font_size,
                length,
                value: gauge.capacity_centi,
                color: battery::battery_color_spec(gauge),
            },
        ],
        RuntimeWidgetV::Backlight { font_size, length, gauge } => seq![
            ContentItem::Bar {
                kind: GaugeKind::Backlight,
                font_size,
                length,
                value: ((gauge.raw * 10000) / (gauge.max as int)) as u32,
                color: white(),
            },
        ],
        RuntimeWidgetV::Audio { font_size, length, gauge } => seq![
            ContentItem::Bar {
                kind: GaugeKind::Audio,
                font_size,
                length,
                value: gauge.volume,
                color: white(),
            },
        ],
    }
}

pub open spec fn content_seq_spec(s: Seq<RuntimeWidgetV>) -> Seq<ContentItem>
    decreases s,
{
    if s.len() == 0 {
        Seq::empty()
    } else {
        content_spec(s[0]) + content_seq_spec(s.drop_first())
    }
}

impl RuntimeWidget {
    /// Produce this subtree's drawable content, appended to `out` in
    /// stable tree order: containers visit every surviving child in
    /// stored order, with no skipping, whatever any leaf's internal
    /// state is.
    pub fn content(&self, out: &mut Vec<ContentItem>)
        requires
            rt_wf(self@),
        ensures
            final(out)@ == old(out)@ + content_spec(self@),
        decreases self@,
    {
        match self {
            RuntimeWidget::Margin { child, .. } => {
                child.content(out);
            },
            RuntimeWidget::Fixed { child, .. } => {
                child.content(out);
            },
            RuntimeWidget::HorizontalLayout { children } => {
                content_children(children, out);
            },
            RuntimeWidget::VerticalLayout { children } => {
                content_children(children, out);
            },
            RuntimeWidget::Clock { font_size, time } => {
                out.push(ContentItem::Clock { font_size: *font_size, time: *time });
            },
            RuntimeWidget::Date { font_size, time } => {
                out.push(ContentItem::Date { font_size: *font_size, time: *time });
            },
            RuntimeWidget::Calendar { font_size, sections, time } => {
                out.push(
                    ContentItem::Calendar {
                        font_size: *font_size,
                        sections: *sections,
                        time: *time,
                    },
                );
            },
            RuntimeWidget::Launcher { font_size, length, .. } => {
                out.push(ContentItem::Launcher { font_size: *font_size, length: *length });
            },
            RuntimeWidget::Battery { font_size, length, gauge } => {
                out.push(
                    ContentItem::Bar {
                        kind: GaugeKind::Battery,
                        font_size: *font_size,
                        length: *length,
                        value: gauge.value(),
                        color: gauge.color(),
                    },
                );
            },
            RuntimeWidget::Backlight { font_size, length, gauge } => {
                out.push(
                    ContentItem::Bar {
                        kind: GaugeKind::Backlight,
                        font_size: *font_size,
                        length: *length,
                        value: gauge.value(),
                        color: crate::color::Color::new(1000, 1000, 1000, 1000),
                    },
                );
            },
            RuntimeWidget::Audio { font_size, length, gauge } => {
                out.push(
                    ContentItem::Bar {
                        kind: GaugeKind::Audio,
                        font_size: *font_size,
                        length: *length,
                        value: gauge.value(),
                        color: crate::color::Color::new(1000, 1000, 1000, 1000),
                    },
                );
            },
        }
    }
}

/// Visit each child in stored order, appending its content.
fn content_children(children: &Vec<RuntimeWidget>, out: &mut Vec<ContentItem>)
    requires
        rt_wf_seq(views_of_seq(children@)),
    ensures
        final(out)@ == old(out)@ + content_seq_spec(views_of_seq(children@)),
    decreases views_of_seq(children@),
{
    let ghost vc = views_of_seq(children@);
    let n = children.len();
    let mut i: usize = 0;
    proof {
        lemma_views_of_seq(children@);
        assert(vc.skip(0) =~= vc);
    }
    while i < n
        invariant
            n == children@.len(),
            vc == views_of_seq(children@),
            i <= n,
            rt_wf_seq(vc),
            old(out)@ + content_seq_spec(vc) == out@ + content_seq_spec(vc.skip(i as int)),
        decreases n - i,
    {
        proof {
            lemma_views_of_seq(children@);
            assert(vc.skip(i as int)[0] == vc[i as int]);
            assert(vc.skip(i as int).drop_first() =~= vc.skip(i as int + 1));
            assert(decreases_to!(vc => vc[i as int]));
        }
        let c = &children[i];
        c.content(out);
        i = i + 1;
    }
    proof {
        lemma_views_of_seq(children@);
    }
    proof {
        assert(vc.skip(n as int) =~= Seq::<RuntimeWidgetV>::empty());
        assert(out@ + content_seq_spec(vc.skip(n as int)) =~= out@);
    }
}

/// The views of a child sequence, elementwise.
pub open spec fn views_of_seq(s: Seq<RuntimeWidget>) -> Seq<RuntimeWidgetV>
    decreases s,
{
    if s.len() == 0 {
        Seq::empty()
    } else {
        seq![rt_view(s[0])] + views_of_seq(s.drop_first())
    }
}

pub proof fn lemma_views_of_seq_push(s: Seq<RuntimeWidget>, x: RuntimeWidget)
    ensures
        views_of_seq(s.push(x)) == views_of_seq(s).push(rt_view(x)),
    decreases s,
{
    let vx = rt_view(x);
    if s.len() == 0 {
        assert(s.push(x)[0] == x);
        assert(s.push(x).drop_first() =~= Seq::<RuntimeWidget>::empty());
        assert(views_of_seq(s.push(x)) == seq![vx] + views_of_seq(s.push(x).drop_first()));
        assert(seq![vx] + Seq::<RuntimeWidgetV>::empty() =~= views_of_seq(s).push(vx));
    } else {
        let v0 = rt_view(s[0]);
        let vsp = views_of_seq(s.drop_first());
        assert(s.push(x)[0] == s[0]);
        assert(s.push(x).drop_first() =~= s.drop_first().push(x));
        lemma_views_of_seq_push(s.drop_first(), x);
        assert(views_of_seq(s.push(x)) == seq![v0] + views_of_seq(s.push(x).drop_first()));
        assert(views_of_seq(s.push(x).drop_first()) == vsp.push(vx));
        assert(seq![v0] + vsp.push(vx) =~= (seq![v0] + vsp).push(vx));
        assert(views_of_seq(s) == seq![v0] + vsp);
    }
}

pub proof fn lemma_views_of_seq(s: Seq<RuntimeWidget>)
    ensures
        views_of_seq(s).len() == s.len(),
        forall|i: int| 0 <= i < s.len() ==> views_of_seq(s)[i] == rt_view(#[trigger] s[i]),
    decreases s,
{
    if s.len() > 0 {
        lemma_views_of_seq(s.drop_first());
        assert forall|i: int| 0 <= i < s.len() implies views_of_seq(s)[i] == rt_view(#[trigger] s[i]) by {
            if i > 0 {
                assert(s.drop_first()[i - 1] == s[i]);
                assert(views_of_seq(s)[i] == views_of_seq(s.drop_first())[i - 1]);
            }
        }
    }
}

/// One gauge leaf's drained notifications for one loop iteration, in
/// arrival order; a failed re-read is `None`. The loop hands the
/// tree one batch per gauge leaf, in tree order; a batch of the
/// wrong kind applies nothing.
pub enum GaugeEvent {
    Battery { readings: Vec<Option<BatteryReading>> },
    Backlight { readings: Vec<Option<u32>> },
    Audio { readings: Vec<Option<AudioReading>> },
}

/// The tree after one iteration's visit: each gauge leaf with its
/// own event batch (taken from `evs` starting at `at`, one per leaf
/// in tree order) applied; everything else unchanged.
pub open spec fn wait_spec(v: RuntimeWidgetV, evs: Seq<GaugeEvent>, at: int) -> RuntimeWidgetV
    decreases v,
{
    match v {
        RuntimeWidgetV::Margin { margins, child } => RuntimeWidgetV::Margin {
            margins,
            child: Box::new(wait_spec(*child, evs, at)),
        },
        RuntimeWidgetV::Fixed { width, height, child } => RuntimeWidgetV::Fixed {
            width,
            height,
            child: Box::new(wait_spec(*child, evs, at)),
        },
        RuntimeWidgetV::HorizontalLayout { children } => RuntimeWidgetV::HorizontalLayout {
            children: wait_children_spec(children, evs, at),
        },
        RuntimeWidgetV::VerticalLayout { children } => RuntimeWidgetV::VerticalLayout {
            children: wait_children_spec(children, evs, at),
        },
        RuntimeWidgetV::Battery { font_size, length, gauge } => RuntimeWidgetV::Battery {
            font_size,
            length,
            gauge: match evs[at] {
                GaugeEvent::Battery { readings } => battery::apply_readings_spec(gauge, readings@),
                _ => gauge,
            },
        },
        RuntimeWidgetV::Backlight { font_size, length, gauge } => RuntimeWidgetV::Backlight {
            font_size,
            length,
            gauge: match evs[at] {
                GaugeEvent::Backlight { readings } => backlight::apply_readings_spec(
                    gauge,
                    readings@,
                ),
                _ => gauge,
            },
        },
        RuntimeWidgetV::Audio { font_size, length, gauge } => RuntimeWidgetV::Audio {
            font_size,
            length,
            gauge: match evs[at] {
                GaugeEvent::Audio { readings } => audio::apply_readings_spec(gauge, readings@),
                _ => gauge,
            },
        },
        _ => v,
    }
}

pub open spec fn wait_children_spec(
    s: Seq<RuntimeWidgetV>,
    evs: Seq<GaugeEvent>,
    at: int,
) -> Seq<RuntimeWidgetV>
    decreases s,
{
    if s.len() == 0 {
        Seq::empty()
    } else {
        seq![wait_spec(s[0], evs, at)] + wait_children_spec(
            s.drop_first(),
            evs,
            at + gauge_leaf_count(s[0]),
        )
    }
}

/// The wait descriptors a subtree appends, in stable tree order:
/// every battery leaf contributes its service connection's readiness
/// handle with read interest.
pub open spec fn wait_fds_spec(v: RuntimeWidgetV) -> Seq<PollDescriptor>
    decreases v,
{
    match v {
        RuntimeWidgetV::Margin { child, .. } => wait_fds_spec(*child),
        RuntimeWidgetV::Fixed { child, .. } => wait_fds_spec(*child),
        RuntimeWidgetV::HorizontalLayout { children } => wait_fds_seq_spec(children),
        RuntimeWidgetV::VerticalLayout { children } => wait_fds_seq_spec(children),
        RuntimeWidgetV::Battery { gauge, .. } => seq![
            PollDescriptor { fd: gauge.watch_fd, interest: Interest::Read },
        ],
        _ => Seq::empty(),
    }
}

pub open spec fn wait_fds_seq_spec(s: Seq<RuntimeWidgetV>) -> Seq<PollDescriptor>
    decreases s,
{
    if s.len() == 0 {
        Seq::empty()
    } else {
        wait_fds_spec(s[0]) + wait_fds_seq_spec(s.drop_first())
    }
}

/// The commands one iteration's visit enqueues: each gauge leaf's
/// redraw requests, in tree order.
pub open spec fn wait_cmds_spec(v: RuntimeWidgetV, evs: Seq<GaugeEvent>, at: int) -> Seq<Cmd>
    decreases v,
{
    match v {
        RuntimeWidgetV::Margin { child, .. } => wait_cmds_spec(*child, evs, at),
        RuntimeWidgetV::Fixed { child, .. } => wait_cmds_spec(*child, evs, at),
        RuntimeWidgetV::HorizontalLayout { children } => wait_cmds_seq_spec(children, evs, at),
        RuntimeWidgetV::VerticalLayout { children } => wait_cmds_seq_spec(children, evs, at),
        RuntimeWidgetV::Battery { .. } => match evs[at] {
            GaugeEvent::Battery { readings } => battery::draw_cmds_spec(readings@),
            _ => Seq::empty(),
        },
        RuntimeWidgetV::Backlight { .. } => match evs[at] {
            GaugeEvent::Backlight { readings } => backlight::draw_cmds_spec(readings@),
            _ => Seq::empty(),
        },
        RuntimeWidgetV::Audio { .. } => match evs[at] {
            GaugeEvent::Audio { readings } => audio::draw_cmds_spec(readings@),
            _ => Seq::empty(),
        },
        _ => Seq::empty(),
    }
}

pub open spec fn wait_cmds_seq_spec(s: Seq<RuntimeWidgetV>, evs: Seq<GaugeEvent>, at: int) -> Seq<
    Cmd,
>
    decreases s,
{
    if s.len() == 0 {
        Seq::empty()
    } else {
        wait_cmds_spec(s[0], evs, at) + wait_cmds_seq_spec(
            s.drop_first(),
            evs,
            at + gauge_leaf_count(s[0]),
        )
    }
}

/// Each gauge leaf's dirty flag, in tree order.
pub open spec fn dirties_spec(v: RuntimeWidgetV) -> Seq<bool>
    decreases v,
{
    match v {
        RuntimeWidgetV::Margin { child, .. } => dirties_spec(*child),
        RuntimeWidgetV::Fixed { child, .. } => dirties_spec(*child),
        RuntimeWidgetV::HorizontalLayout { children } => dirties_seq_spec(children),
        RuntimeWidgetV::VerticalLayout { children } => dirties_seq_spec(children),
        RuntimeWidgetV::Battery { gauge, .. } => seq![gauge.dirty],
        RuntimeWidgetV::Backlight { gauge, .. } => seq![gauge.dirty],
        RuntimeWidgetV::Audio { gauge, .. } => seq![gauge.dirty],
        _ => Seq::empty(),
    }
}

pub open spec fn dirties_seq_spec(s: Seq<RuntimeWidgetV>) -> Seq<bool>
    decreases s,
{
    if s.len() == 0 {
        Seq::empty()
    } else {
        dirties_spec(s[0]) + dirties_seq_spec(s.drop_first())
    }
}

/// Dirty monotonicity across a whole iteration: the visit keeps
/// every leaf in place and never clears a dirty flag — once a leaf's
/// flag is true, it stays true until the render loop's own clear
/// step (`take_dirty`), which is the only thing that resets it.
pub proof fn lemma_wait_dirty_monotone(v: RuntimeWidgetV, evs: Seq<GaugeEvent>, at: int)
    ensures
        dirties_spec(wait_spec(v, evs, at)).len() == dirties_spec(v).len(),
        forall|k: int| 0 <= k < dirties_spec(v).len() ==> (#[trigger] dirties_spec(v)[k]
            ==> dirties_spec(wait_spec(v, evs, at))[k]),
    decreases v,
{
    match v {
        RuntimeWidgetV::Margin { child, .. } => {
            lemma_wait_dirty_monotone(*child, evs, at);
        },
        RuntimeWidgetV::Fixed { child, .. } => {
            lemma_wait_dirty_monotone(*child, evs, at);
        },
        RuntimeWidgetV::HorizontalLayout { children } => {
            lemma_wait_dirty_monotone_seq(children, evs, at);
        },
        RuntimeWidgetV::VerticalLayout { children } => {
            lemma_wait_dirty_monotone_seq(children, evs, at);
        },
        RuntimeWidgetV::Battery { gauge, .. } => {
            if gauge.dirty {
                match evs[at] {
                    GaugeEvent::Battery { readings } => {
                        battery::lemma_dirty_monotone(gauge, readings@);
                    },
                    _ => {},
                }
            }
        },
        RuntimeWidgetV::Backlight { gauge, .. } => {
            if gauge.dirty {
                match evs[at] {
                    GaugeEvent::Backlight { readings } => {
                        backlight::lemma_dirty_monotone(gauge, readings@);
                    },
                    _ => {},
                }
            }
        },
        RuntimeWidgetV::Audio { gauge, .. } => {
            if gauge.dirty {
                match evs[at] {
                    GaugeEvent::Audio { readings } => {
                        audio::lemma_dirty_monotone(gauge, readings@);
                    },
                    _ => {},
                }
            }
        },
        _ => {},
    }
}

pub proof fn lemma_wait_dirty_monotone_seq(s: Seq<RuntimeWidgetV>, evs: Seq<GaugeEvent>, at: int)
    ensures
        dirties_seq_spec(wait_children_spec(s, evs, at)).len() == dirties_seq_spec(s).len(),
        forall|k: int| 0 <= k < dirties_seq_spec(s).len() ==> (#[trigger] dirties_seq_spec(s)[k]
            ==> dirties_seq_spec(wait_children_spec(s, evs, at))[k]),
    decreases s,
{
    if s.len() > 0 {
        let at2 = at + gauge_leaf_count(s[0]);
        let w0 = wait_spec(s[0], evs, at);
        let rest = wait_children_spec(s.drop_first(), evs, at2);
        lemma_wait_dirty_monotone(s[0], evs, at);
        lemma_wait_dirty_monotone_seq(s.drop_first(), evs, at2);
        assert((seq![w0] + rest)[0] == w0);
        assert((seq![w0] + rest).drop_first() =~= rest);
        assert(dirties_seq_spec(wait_children_spec(s, evs, at)) == dirties_spec(w0)
            + dirties_seq_spec(rest));
        assert forall|k: int| 0 <= k < dirties_seq_spec(s).len() implies (
        #[trigger] dirties_seq_spec(s)[k] ==> dirties_seq_spec(wait_children_spec(s, evs, at))[k])
            by {
            let d0 = dirties_spec(s[0]);
            if k < d0.len() {
                assert(dirties_seq_spec(s)[k] == d0[k]);
                assert(dirties_seq_spec(wait_children_spec(s, evs, at))[k]
                    == dirties_spec(w0)[k]);
            } else {
                assert(dirties_seq_spec(s)[k] == dirties_seq_spec(s.drop_first())[k - d0.len()]);
                assert(dirties_seq_spec(wait_children_spec(s, evs, at))[k]
                    == dirties_seq_spec(rest)[k - d0.len()]);
            }
        }
    }
}

impl RuntimeWidget {
    /// One iteration's visit of this subtree, in stable tree order,
    /// whatever any leaf's readiness is: every gauge leaf applies its
    /// own drained notification batch (consumed from `evs`, one per
    /// leaf) and appends its wait descriptors to `ctx`; the enqueued
    /// redraw requests land in `cmds`. Returns the updated subtree
    /// and the next unconsumed event position.
    pub fn wait(
        self,
        ctx: &mut WaitContext,
        cmds: &mut CmdQueue,
        evs: &Vec<GaugeEvent>,
        at: usize,
    ) -> (r: (RuntimeWidget, usize))
        requires
            rt_wf(self@),
            at + gauge_leaf_count(self@) <= evs@.len(),
        ensures
            r.1 == at + gauge_leaf_count(self@),
            r.0@ == wait_spec(self@, evs@, at as int),
            rt_wf(r.0@),
            final(ctx).fds@ == old(ctx).fds@ + wait_fds_spec(self@),
            final(cmds).cmds@ == old(cmds).cmds@ + wait_cmds_spec(self@, evs@, at as int),
        decreases self,
    {
        let ghost s0 = self;
        let evs_len = evs.len();
        proof {
            assert(at + gauge_leaf_count(s0@) <= evs_len);
        }
        match self {
            RuntimeWidget::Margin { margins, child } => {
                proof {
                    assert(decreases_to!(s0 => *child));
                }
                let (c, at2) = (*child).wait(ctx, cmds, evs, at);
                (RuntimeWidget::Margin { margins, child: Box::new(c) }, at2)
            },
            RuntimeWidget::Fixed { width, height, child } => {
                proof {
                    assert(decreases_to!(s0 => *child));
                }
                let (c, at2) = (*child).wait(ctx, cmds, evs, at);
                (RuntimeWidget::Fixed { width, height, child: Box::new(c) }, at2)
            },
            RuntimeWidget::HorizontalLayout { children } => {
                proof {
                    assert(decreases_to!(s0 => children));
                    assert(decreases_to!(children => children@));
                }
                let (cs, at2) = wait_children(children, ctx, cmds, evs, at);
                (RuntimeWidget::HorizontalLayout { children: cs }, at2)
            },
            RuntimeWidget::VerticalLayout { children } => {
                proof {
                    assert(decreases_to!(s0 => children));
                    assert(decreases_to!(children => children@));
                }
                let (cs, at2) = wait_children(children, ctx, cmds, evs, at);
                (RuntimeWidget::VerticalLayout { children: cs }, at2)
            },
            RuntimeWidget::Battery { font_size, length, mut gauge } => {
                match &evs[at] {
                    GaugeEvent::Battery { readings } => {
                        gauge.wait(ctx, cmds, readings);
                    },
                    _ => {
                        ctx.push(PollDescriptor { fd: gauge.watch_fd, interest: Interest::Read });
                    },
                }
                (RuntimeWidget::Battery { font_size, length, gauge }, at + 1)
            },
            RuntimeWidget::Backlight { font_size, length, mut gauge } => {
                match &evs[at] {
                    GaugeEvent::Backlight { readings } => {
                        gauge.apply_readings(cmds, readings);
                    },
                    _ => {},
                }
                (RuntimeWidget::Backlight { font_size, length, gauge }, at + 1)
            },
            RuntimeWidget::Audio { font_size, length, mut gauge } => {
                match &evs[at] {
                    GaugeEvent::Audio { readings } => {
                        gauge.apply_readings(cmds, readings);
                    },
                    _ => {},
                }
                (RuntimeWidget::Audio { font_size, length, gauge }, at + 1)
            },
            other => (other, at),
        }
    }
}

/// The tree with every gauge leaf's dirty flag cleared and nothing
/// else changed: what the render loop leaves behind after a redraw.
pub open spec fn clear_spec(v: RuntimeWidgetV) -> RuntimeWidgetV
    decreases v,
{
    match v {
        RuntimeWidgetV::Margin { margins, child } => RuntimeWidgetV::Margin {
            margins,
            child: Box::new(clear_spec(*child)),
        },
        RuntimeWidgetV::Fixed { width, height, child } => RuntimeWidgetV::Fixed {
            width,
            height,
            child: Box::new(clear_spec(*child)),
        },
        RuntimeWidgetV::HorizontalLayout { children } => RuntimeWidgetV::HorizontalLayout {
            children: clear_children_spec(children),
        },
        RuntimeWidgetV::VerticalLayout { children } => RuntimeWidgetV::VerticalLayout {
            children: clear_children_spec(children),
        },
        RuntimeWidgetV::Battery { font_size, length, gauge } => RuntimeWidgetV::Battery {
            font_size,
            length,
            gauge: BatteryV { dirty: false, ..gauge },
        },
        RuntimeWidgetV::Backlight { font_size, length, gauge } => RuntimeWidgetV::Backlight {
            font_size,
            length,
            gauge: BacklightV { dirty: false, ..gauge },
        },
        RuntimeWidgetV::Audio { font_size, length, gauge } => RuntimeWidgetV::Audio {
            font_size,
            length,
            gauge: Audio { dirty: false, ..gauge },
        },
        _ => v,
    }
}

pub open spec fn clear_children_spec(s: Seq<RuntimeWidgetV>) -> Seq<RuntimeWidgetV>
    decreases s,
{
    if s.len() == 0 {
        Seq::empty()
    } else {
        seq![clear_spec(s[0])] + clear_children_spec(s.drop_first())
    }
}

/// Whether any gauge leaf in the subtree is dirty: whether the last
/// visit observed a change that has not been redrawn yet.
pub open spec fn any_dirty_spec(v: RuntimeWidgetV) -> bool
    decreases v,
{
    match v {
        RuntimeWidgetV::Margin { child, .. } => any_dirty_spec(*child),
        RuntimeWidgetV::Fixed { child, .. } => any_dirty_spec(*child),
        RuntimeWidgetV::HorizontalLayout { children } => any_dirty_seq_spec(children),
        RuntimeWidgetV::VerticalLayout { children } => any_dirty_seq_spec(children),
        RuntimeWidgetV::Battery { gauge, .. } => gauge.dirty,
        RuntimeWidgetV::Backlight { gauge, .. } => gauge.dirty,
        RuntimeWidgetV::Audio { gauge, .. } => gauge.dirty,
        _ => false,
    }
}

pub open spec fn any_dirty_seq_spec(s: Seq<RuntimeWidgetV>) -> bool
    decreases s,
{
    if s.len() == 0 {
        false
    } else {
        any_dirty_spec(s[0]) || any_dirty_seq_spec(s.drop_first())
    }
}

impl RuntimeWidget {
    /// The render loop's own clear step, run once per redraw: read
    /// whether anything was dirty and clear every leaf's flag. This
    /// is the only place a dirty flag ever goes from true to false.
    pub fn take_dirty(self) -> (r: (RuntimeWidget, bool))
        requires
            rt_wf(self@),
        ensures
            r.0@ == clear_spec(self@),
            r.1 == any_dirty_spec(self@),
            rt_wf(r.0@),
        decreases self,
    {
        let ghost s0 = self;
        match self {
            RuntimeWidget::Margin { margins, child } => {
                proof {
                    assert(decreases_to!(s0 => *child));
                }
                let (c, d) = (*child).take_dirty();
                (RuntimeWidget::Margin { margins, child: Box::new(c) }, d)
            },
            RuntimeWidget::Fixed { width, height, child } => {
                proof {
                    assert(decreases_to!(s0 => *child));
                }
                let (c, d) = (*child).take_dirty();
                (RuntimeWidget::Fixed { width, height, child: Box::new(c) }, d)
            },
            RuntimeWidget::HorizontalLayout { children } => {
                proof {
                    assert(decreases_to!(s0 => children));
                    assert(decreases_to!(children => children@));
                }
                let (cs, d) = take_dirty_children(children);
                (RuntimeWidget::HorizontalLayout { children: cs }, d)
            },
            RuntimeWidget::VerticalLayout { children } => {
                proof {
                    assert(decreases_to!(s0 => children));
                    assert(decreases_to!(children => children@));
                }
                let (cs, d) = take_dirty_children(children);
                (RuntimeWidget::VerticalLayout { children: cs }, d)
            },
            RuntimeWidget::Battery { font_size, length, mut gauge } => {
                let d = gauge.dirty;
                gauge.dirty = false;
                (RuntimeWidget::Battery { font_size, length, gauge }, d)
            },
            RuntimeWidget::Backlight { font_size, length, mut gauge } => {
                let d = gauge.dirty;
                gauge.dirty = false;
                (RuntimeWidget::Backlight { font_size, length, gauge }, d)
            },
            RuntimeWidget::Audio { font_size, length, mut gauge } => {
                let d = gauge.dirty;
                gauge.dirty = false;
                (RuntimeWidget::Audio { font_size, length, gauge }, d)
            },
            other => (other, false),
        }
    }
}

#[verifier::loop_isolation(false)]
fn take_dirty_children(ws: Vec<RuntimeWidget>) -> (r: (Vec<RuntimeWidget>, bool))
    requires
        rt_wf_seq(views_of_seq(ws@)),
    ensures
        views_of_seq(r.0@) == clear_children_spec(views_of_seq(ws@)),
        r.1 == any_dirty_seq_spec(views_of_seq(ws@)),
        rt_wf_seq(views_of_seq(r.0@)),
    decreases ws@,
{
    let ghost orig = ws@;
    let ghost vorig = views_of_seq(ws@);
    let mut rest = ws;
    let mut out: Vec<RuntimeWidget> = Vec::new();
    let mut dirty = false;
    proof {
        assert(views_of_seq(out@) =~= Seq::<RuntimeWidgetV>::empty());
        assert(views_of_seq(out@) + clear_children_spec(views_of_seq(rest@))
            =~= clear_children_spec(vorig));
        assert(rest@ == orig.skip(0));
    }
    while rest.len() > 0
        invariant
            views_of_seq(out@) + clear_children_spec(views_of_seq(rest@))
                == clear_children_spec(vorig),
            (dirty || any_dirty_seq_spec(views_of_seq(rest@))) == any_dirty_seq_spec(vorig),
            rt_wf_seq(views_of_seq(out@)),
            rt_wf_seq(views_of_seq(rest@)),
            rest@.len() <= orig.len(),
            rest@ == orig.skip(orig.len() - rest@.len()),
        decreases rest@.len(),
    {
        let ghost pre = rest@;
        let ghost done = out@;
        let ghost d0 = orig.len() - pre.len();
        let w = rest.remove(0);
        proof {
            assert(pre[0] == w);
            assert(pre.drop_first() =~= rest@);
            assert(orig.skip(d0 as int)[0] == orig[d0 as int]);
            assert(w == orig[d0 as int]);
            assert(decreases_to!(orig => orig[d0 as int]));
            assert(orig.skip(d0 as int).drop_first() =~= orig.skip(d0 as int + 1));
            assert(views_of_seq(pre)[0] == rt_view(w));
            assert(views_of_seq(pre).drop_first() =~= views_of_seq(rest@));
            assert(rt_wf(rt_view(w)));
        }
        let (c, d) = w.take_dirty();
        dirty = dirty || d;
        let ghost cv = rt_view(c);
        proof {
            crate::widget::lemma_views_of_seq_push(done, c);
        }
        out.push(c);
        proof {
            assert(views_of_seq(out@) == views_of_seq(done).push(cv));
            assert forall|k: int| 0 <= k < views_of_seq(out@).len() implies rt_wf(
                #[trigger] views_of_seq(out@)[k],
            ) by {
                if k < views_of_seq(done).len() {
                    assert(views_of_seq(out@)[k] == views_of_seq(done)[k]);
                } else {
                    assert(views_of_seq(out@)[k] == cv);
                }
            }
            assert(views_of_seq(done).push(cv) + clear_children_spec(views_of_seq(rest@))
                =~= views_of_seq(done) + (seq![cv] + clear_children_spec(views_of_seq(rest@))));
        }
    }
    proof {
        assert(views_of_seq(rest@) =~= Seq::<RuntimeWidgetV>::empty());
        assert(clear_children_spec(views_of_seq(rest@)) =~= Seq::<RuntimeWidgetV>::empty());
        assert(views_of_seq(out@) + clear_children_spec(views_of_seq(rest@))
            =~= views_of_seq(out@));
    }
    (out, dirty)
}

/// Visit each child in stored order; each consumes its own leaves'
/// event batches.
#[verifier::loop_isolation(false)]
fn wait_children(
    ws: Vec<RuntimeWidget>,
    ctx: &mut WaitContext,
    cmds: &mut CmdQueue,
    evs: &Vec<GaugeEvent>,
    at: usize,
) -> (r: (Vec<RuntimeWidget>, usize))
    requires
        rt_wf_seq(views_of_seq(ws@)),
        at + gauge_leaf_count_seq(views_of_seq(ws@)) <= evs@.len(),
    ensures
        r.1 == at + gauge_leaf_count_seq(views_of_seq(ws@)),
        views_of_seq(r.0@) == wait_children_spec(views_of_seq(ws@), evs@, at as int),
        rt_wf_seq(views_of_seq(r.0@)),
        final(ctx).fds@ == old(ctx).fds@ + wait_fds_seq_spec(views_of_seq(ws@)),
        final(cmds).cmds@ == old(cmds).cmds@ + wait_cmds_seq_spec(views_of_seq(ws@), evs@, at as int),
    decreases ws@,
{
    let ghost orig = ws@;
    let ghost vorig = views_of_seq(ws@);
    let mut rest = ws;
    let mut out: Vec<RuntimeWidget> = Vec::new();
    let mut cur: usize = at;
    proof {
        assert(views_of_seq(out@) =~= Seq::<RuntimeWidgetV>::empty());
        assert(views_of_seq(out@) + wait_children_spec(views_of_seq(rest@), evs@, cur as int)
            =~= wait_children_spec(vorig, evs@, at as int));
        assert(old(ctx).fds@ + wait_fds_seq_spec(vorig) =~= ctx.fds@ + wait_fds_seq_spec(
            views_of_seq(rest@),
        ));
        assert(old(cmds).cmds@ + wait_cmds_seq_spec(vorig, evs@, at as int) =~= cmds.cmds@
            + wait_cmds_seq_spec(views_of_seq(rest@), evs@, cur as int));
        assert(rest@ == orig.skip(0));
    }
    while rest.len() > 0
        invariant
            at + gauge_leaf_count_seq(vorig) <= evs@.len(),
            cur + gauge_leaf_count_seq(views_of_seq(rest@)) == at + gauge_leaf_count_seq(vorig),
            at <= cur,
            views_of_seq(out@) + wait_children_spec(views_of_seq(rest@), evs@, cur as int)
                == wait_children_spec(vorig, evs@, at as int),
            rt_wf_seq(views_of_seq(out@)),
            rt_wf_seq(views_of_seq(rest@)),
            ctx.fds@ + wait_fds_seq_spec(views_of_seq(rest@)) == old(ctx).fds@ + wait_fds_seq_spec(
                vorig,
            ),
            cmds.cmds@ + wait_cmds_seq_spec(views_of_seq(rest@), evs@, cur as int) == old(
                cmds,
            ).cmds@ + wait_cmds_seq_spec(vorig, evs@, at as int),
            rest@.len() <= orig.len(),
            rest@ == orig.skip(orig.len() - rest@.len()),
        decreases rest@.len(),
    {
        let ghost pre = rest@;
        let ghost done = out@;
        let ghost d = orig.len() - pre.len();
        let w = rest.remove(0);
        proof {
            assert(pre[0] == w);
            assert(pre.drop_first() =~= rest@);
            assert(orig.skip(d as int)[0] == orig[d as int]);
            assert(w == orig[d as int]);
            assert(decreases_to!(orig => orig[d as int]));
            assert(orig.skip(d as int).drop_first() =~= orig.skip(d as int + 1));
            assert(views_of_seq(pre)[0] == rt_view(w));
            assert(views_of_seq(pre).drop_first() =~= views_of_seq(rest@));
            assert(rt_wf(rt_view(w)));
        }
        let (c, cur2) = w.wait(ctx, cmds, evs, cur);
        let ghost cv = rt_view(c);
        proof {
            crate::widget::lemma_views_of_seq_push(done, c);
        }
        out.push(c);
        proof {
            assert(views_of_seq(out@) == views_of_seq(done).push(cv));
            assert forall|k: int| 0 <= k < views_of_seq(out@).len() implies rt_wf(
                #[trigger] views_of_seq(out@)[k],
            ) by {
                if k < views_of_seq(done).len() {
                    assert(views_of_seq(out@)[k] == views_of_seq(done)[k]);
                } else {
                    assert(views_of_seq(out@)[k] == cv);
                }
            }
            assert(views_of_seq(done).push(cv) + wait_children_spec(
                views_of_seq(rest@),
                evs@,
                cur2 as int,
            ) =~= views_of_seq(done) + (seq![cv] + wait_children_spec(
                views_of_seq(rest@),
                evs@,
                cur2 as int,
            )));
        }
        cur = cur2;
    }
    proof {
        assert(rest@.len() == 0);
        assert(views_of_seq(rest@) =~= Seq::<RuntimeWidgetV>::empty());
        assert(wait_children_spec(views_of_seq(rest@), evs@, cur as int)
            =~= Seq::<RuntimeWidgetV>::empty());
        assert(views_of_seq(out@) + wait_children_spec(views_of_seq(rest@), evs@, cur as int)
            =~= views_of_seq(out@));
        assert(wait_fds_seq_spec(views_of_seq(rest@)) =~= Seq::<PollDescriptor>::empty());
        assert(ctx.fds@ + wait_fds_seq_spec(views_of_seq(rest@)) =~= ctx.fds@);
        assert(wait_cmds_seq_spec(views_of_seq(rest@), evs@, cur as int) =~= Seq::<Cmd>::empty());
        assert(cmds.cmds@ + wait_cmds_seq_spec(views_of_seq(rest@), evs@, cur as int)
            =~= cmds.cmds@);
    }
    (out, cur)
}

} // verus!
