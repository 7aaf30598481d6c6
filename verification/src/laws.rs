use vstd::prelude::*;

use crate::errors::ServerError;
use crate::recent::mru_insert;
use crate::session::SessionModel;
use crate::session::Teardown;
use crate::session::begin_start_model;
use crate::session::finish_start_model;
use crate::session::stop_model;
use crate::urls::start_message_chars;

verus! {

/// For every directory that exists, a start whose environment yields
/// a watch, a port and a spawned task succeeds: validation accepts the
/// root, the reported message carries exactly the allocated port's
/// URL, and the new session records that task, port and root, with the
/// path moved to the front of the recent list.
pub proof fn lemma_start_succeeds(
    m: SessionModel,
    path: Seq<char>,
    channel: u64,
    w: u64,
    pt: u16,
    t: u64,
)
    ensures
        ({
            let (m1, td1, r1) = begin_start_model(m, true);
            let (m2, td2, r2) = finish_start_model(m1, path, channel, Some(w), Some(pt), Some(t));
            &&& r1 == Ok::<(), ServerError>(())
            &&& r2 == Ok::<Seq<char>, ServerError>(start_message_chars(pt as int))
            &&& m2.task == Some(t)
            &&& m2.port == pt
            &&& m2.root == Some(path)
            &&& m2.recent == mru_insert(m.recent, path)
        }),
{
}

/// Across consecutive starts, at most one background task is ever
/// recorded: each start's teardown names exactly the task of the start
/// before it, and after the sequence only the last task is alive,
/// bound to the last allocated port.
pub proof fn lemma_at_most_one_task(
    m: SessionModel,
    path1: Seq<char>,
    ch1: u64,
    w1: u64,
    pt1: u16,
    t1: u64,
    path2: Seq<char>,
    ch2: u64,
    w2: u64,
    pt2: u16,
    t2: u64,
)
    ensures
        ({
            let (ma, tda, ra) = begin_start_model(m, true);
            let (mb, tdb, rb) = finish_start_model(ma, path1, ch1, Some(w1), Some(pt1), Some(t1));
            let (mc, tdc, rc) = begin_start_model(mb, true);
            let (md, tdd, rd) = finish_start_model(mc, path2, ch2, Some(w2), Some(pt2), Some(t2));
            &&& tdc.task == Some(t1)
            &&& tdc.watch == Some(w1)
            &&& mc.task is None
            &&& md.task == Some(t2)
            &&& md.port == pt2
        }),
{
}

/// What one successful start needs from the environment: the path to
/// serve and the tokens of the channel, watch, port and task it was
/// given.
pub struct StartParams {
    pub path: Seq<char>,
    pub channel: u64,
    pub watch: u64,
    pub port: u16,
    pub task: u64,
}

/// The state after one successful start: teardown of whatever ran,
/// validation of an existing root, then installation of the new
/// session.
pub open spec fn run_one_start(m: SessionModel, p: StartParams) -> SessionModel {
    let m1 = begin_start_model(m, true).0;
    finish_start_model(m1, p.path, p.channel, Some(p.watch), Some(p.port), Some(p.task)).0
}

/// The state after a whole sequence of successful starts, first one
/// first.
pub open spec fn run_starts(m: SessionModel, ps: Seq<StartParams>) -> SessionModel
    decreases ps.len(),
{
    if ps.len() == 0 {
        m
    } else {
        run_starts(run_one_start(m, ps[0]), ps.drop_first())
    }
}

/// For every sequence of starts, at most one background task is alive
/// after the sequence completes — exactly the task of the last start,
/// bound to the port that start allocated.
pub proof fn lemma_sequence_of_starts(m: SessionModel, ps: Seq<StartParams>)
    requires
        ps.len() > 0,
    ensures
        run_starts(m, ps).task == Some(ps.last().task),
        run_starts(m, ps).port == ps.last().port,
        run_starts(m, ps).root == Some(ps.last().path),
    decreases ps.len(),
{
    if ps.len() == 1 {
        assert(run_starts(run_one_start(m, ps[0]), ps.drop_first()) == run_one_start(m, ps[0]));
    } else {
        lemma_sequence_of_starts(run_one_start(m, ps[0]), ps.drop_first());
        assert(ps.drop_first().last() == ps.last());
    }
}

/// A start issued while a session is running first stops the previous
/// instance completely: its task is handed back for abort and its
/// watch for release, and the state is idle before anything new binds.
pub proof fn lemma_restart_stops_previous(m: SessionModel, dir_exists: bool)
    requires
        m.task is Some,
    ensures
        begin_start_model(m, dir_exists).1.task == m.task,
        begin_start_model(m, dir_exists).1.watch == m.watch,
        begin_start_model(m, dir_exists).0.task is None,
        begin_start_model(m, dir_exists).0.watch is None,
        begin_start_model(m, dir_exists).0.root is None,
        begin_start_model(m, dir_exists).0.channel is None,
{
}

/// A stop issued while idle fails with `NotRunning`, asks for no
/// teardown and mutates nothing.
pub proof fn lemma_stop_idle(m: SessionModel)
    requires
        m.task is None,
    ensures
        stop_model(m).2 == Err::<(), ServerError>(ServerError::NotRunning),
        stop_model(m).0 == m,
        stop_model(m).1 == (Teardown { task: None, watch: None }),
{
}

/// Stopping twice in a row: the second stop fails with `NotRunning`,
/// leaves the state exactly as the first stop left it, asks for no
/// teardown, and a subsequent start proceeds from the same state it
/// would have reached after the first stop alone.
pub proof fn lemma_stop_twice(m: SessionModel)
    ensures
        ({
            let (m1, td1, r1) = stop_model(m);
            let (m2, td2, r2) = stop_model(m1);
            &&& r2 == Err::<(), ServerError>(ServerError::NotRunning)
            &&& m2 == m1
            &&& td2 == (Teardown { task: None, watch: None })
            &&& forall|e: bool| #[trigger] begin_start_model(m2, e) == begin_start_model(m1, e)
        }),
{
}

} // verus!
