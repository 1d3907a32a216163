use vstd::prelude::*;

verus! {

/// A message for the render loop. Widgets enqueue commands from
/// anywhere; the loop consumes each exactly once, coalescing
/// consecutive redraw requests.
pub enum Cmd {
    /// Request one whole-surface redraw.
    Draw,
    /// Request that an external command line be spawned
    /// (fire-and-forget; the launcher leaf uses this).
    Exec { line: String },
}

/// The outbound command queue a widget writes into during its own
/// refresh step. The loop around this crate bridges it to whatever
/// channel actually crosses threads.
pub struct CmdQueue {
    pub cmds: Vec<Cmd>,
}

impl CmdQueue {
    pub fn new() -> (q: CmdQueue)
        ensures
            q.cmds@ == Seq::<Cmd>::empty(),
    {
        CmdQueue { cmds: Vec::new() }
    }

    /// Enqueue one command at the back; nothing already queued moves.
    pub fn send(&mut self, c: Cmd)
        ensures
            final(self).cmds@ == old(self).cmds@.push(c),
    {
        self.cmds.push(c);
    }
}

/// Whether a drained batch contains at least one redraw request.
pub open spec fn has_draw(s: Seq<Cmd>) -> bool {
    exists|i: int| 0 <= i < s.len() && s[i] is Draw
}

/// The spawn requests of a drained batch, in queue order.
pub open spec fn execs_of(s: Seq<Cmd>) -> Seq<Seq<char>>
    decreases s.len(),
{
    if s.len() == 0 {
        Seq::empty()
    } else if s[0] is Exec {
        seq![s[0]->line@] + execs_of(s.drop_first())
    } else {
        execs_of(s.drop_first())
    }
}

/// What one pass of the render loop does with a drained batch of
/// commands: at most one redraw, and every spawn request kept in
/// order.
pub struct DrainPlan {
    /// True when the batch asks for a redraw; the loop then redraws
    /// the whole tree once, however many `Draw` commands were queued.
    pub redraw: bool,
    /// The command lines to spawn, in queue order.
    pub execs: Vec<String>,
}

/// Turn everything pending on the channel into one plan. Consecutive
/// (indeed, all) queued `Draw` commands collapse into a single redraw
/// cycle; spawn requests are never dropped or reordered.
pub fn plan_drain(cmds: Vec<Cmd>) -> (p: DrainPlan)
    ensures
        p.redraw == has_draw(cmds@),
        p.execs.deep_view() == execs_of(cmds@),
{
    let mut redraw = false;
    let mut execs: Vec<String> = Vec::new();
    let n = cmds.len();
    let mut i: usize = 0;
    proof {
        assert(cmds@.skip(0) =~= cmds@);
        assert(execs.deep_view() =~= Seq::<Seq<char>>::empty());
    }
    while i < n
        invariant
            n == cmds@.len(),
            i <= n,
            !redraw ==> has_draw(cmds@.skip(i as int)) == has_draw(cmds@),
            redraw ==> has_draw(cmds@),
            execs.deep_view() + execs_of(cmds@.skip(i as int)) == execs_of(cmds@),
        decreases n - i,
    {
        let ghost dv0 = execs.deep_view();
        match &cmds[i] {
            Cmd::Draw => {
                redraw = true;
            },
            Cmd::Exec { line } => {
                execs.push(line.clone());
            },
        }
        proof {
            let sk = cmds@.skip(i as int);
            let sk1 = cmds@.skip(i as int + 1);
            assert(sk[0] == cmds@[i as int]);
            assert(sk.drop_first() =~= sk1);
            assert(execs_of(sk.drop_first()) == execs_of(sk1));
            if has_draw(sk1) {
                let j = choose|j: int| 0 <= j < sk1.len() && sk1[j] is Draw;
                assert(sk[j + 1] is Draw);
                assert(has_draw(sk));
            }
            if cmds@[i as int] is Draw {
                assert(has_draw(cmds@.skip(i as int)));
                if !has_draw(cmds@) {
                    let j = choose|j: int| 0 <= j < sk.len() && sk[j] is Draw;
                    assert(cmds@[i + j] is Draw);
                    assert(false);
                }
                assert(execs_of(sk) == execs_of(sk1));
            } else {
                if has_draw(sk) && !has_draw(sk1) {
                    let j = choose|j: int| 0 <= j < sk.len() && sk[j] is Draw;
                    assert(j != 0);
                    assert(sk1[j - 1] == sk[j]);
                    assert(false);
                }
                if cmds@[i as int] is Exec {
                    assert(execs.deep_view() =~= dv0.push(cmds@[i as int]->line@));
                    assert(execs_of(sk) == seq![sk[0]->line@] + execs_of(sk1));
                    assert(execs.deep_view() + execs_of(sk1) =~= dv0 + execs_of(sk));
                } else {
                    assert(execs_of(sk) == execs_of(sk1));
                }
            }
        }
        i = i + 1;
    }
    proof {
        assert(cmds@.skip(n as int) =~= Seq::<Cmd>::empty());
        if has_draw(cmds@.skip(n as int)) {
            let j = choose|j: int| 0 <= j < cmds@.skip(n as int).len()
                && cmds@.skip(n as int)[j] is Draw;
            assert(false);
        }
        assert(execs.deep_view() + execs_of(cmds@.skip(n as int)) =~= execs.deep_view());
    }
    DrainPlan { redraw, execs }
}

/// Coalescing law: a nonempty batch made only of `Draw` commands
/// plans exactly one redraw cycle and spawns nothing, however long
/// the batch is.
pub proof fn lemma_redraws_coalesce(s: Seq<Cmd>)
    requires
        s.len() > 0,
        forall|i: int| 0 <= i < s.len() ==> s[i] is Draw,
    ensures
        has_draw(s),
        execs_of(s) == Seq::<Seq<char>>::empty(),
    decreases s.len(),
{
    assert(s[0] is Draw);
    if s.len() > 1 {
        assert forall|i: int| 0 <= i < s.drop_first().len() implies s.drop_first()[i] is Draw by {
            assert(s.drop_first()[i] == s[i + 1]);
        }
        lemma_redraws_coalesce(s.drop_first());
        assert(execs_of(s) == execs_of(s.drop_first()));
    } else {
        assert(s.drop_first().len() == 0);
        assert(execs_of(s.drop_first()) == Seq::<Seq<char>>::empty());
        assert(execs_of(s) == execs_of(s.drop_first()));
    }
}

} // verus!
