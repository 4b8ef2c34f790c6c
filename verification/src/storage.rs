//! The session log: what a session records, and how the log is added to and
//! read back. Reading and writing the log's file is left to the caller, who
//! hands the log's sessions in, oldest first.
use vstd::prelude::*;

verus! {

/// A session lap entry: lap number, split and running total in milliseconds.
#[derive(Debug, Clone, Copy, PartialEq, Eq, Structural)]
pub struct SessionLap {
    pub lap: u32,
    pub split: i128,
    pub total: u64,
}

/// A pomodoro cycle entry: cycle count, phase label and length in milliseconds.
#[derive(Debug)]
pub struct SessionCycle {
    pub cycle: u32,
    pub cycle_type: String,
    pub duration: u64,
}

impl Clone for SessionCycle {
    fn clone(&self) -> (r: Self)
        ensures
            r == *self,
    {
        SessionCycle { cycle: self.cycle, cycle_type: self.cycle_type.clone(), duration: self.duration }
    }
}

/// A recorded session. `started` and `ended` are RFC 3339 timestamps; the
/// duration is in milliseconds.
#[derive(Debug, Clone)]
pub struct SessionData {
    pub session_type: String,
    pub started: String,
    pub ended: String,
    pub duration_ms: u64,
    pub status: String,
    pub laps: Option<Vec<SessionLap>>,
    pub cycles: Option<Vec<SessionCycle>>,
}

/// A session passes the type filter `t` (no filter passes all).
pub open spec fn type_matches(s: SessionData, t: Option<Seq<char>>) -> bool {
    match t {
        None => true,
        Some(t) => s.session_type@ == t,
    }
}

/// The sessions of `log` (oldest first) that pass the filter, most recent first.
pub open spec fn newest_first(log: Seq<SessionData>, t: Option<Seq<char>>) -> Seq<SessionData>
    decreases log.len(),
{
    if log.len() == 0 {
        Seq::empty()
    } else if type_matches(log.last(), t) {
        seq![log.last()] + newest_first(log.drop_last(), t)
    } else {
        newest_first(log.drop_last(), t)
    }
}

/// At most `limit` of the sessions that pass the filter, most recent first.
pub open spec fn selected(
    log: Seq<SessionData>,
    t: Option<Seq<char>>,
    limit: Option<usize>,
) -> Seq<SessionData> {
    match limit {
        None => newest_first(log, t),
        Some(l) => if newest_first(log, t).len() <= l {
            newest_first(log, t)
        } else {
            newest_first(log, t).take(l as int)
        },
    }
}

/// The text of an optional filter.
pub open spec fn filter_text(t: Option<&str>) -> Option<Seq<char>> {
    match t {
        None => None,
        Some(t) => Some(t@),
    }
}

proof fn lemma_newest_first_len(log: Seq<SessionData>, t: Option<Seq<char>>)
    ensures
        newest_first(log, t).len() <= log.len(),
    decreases log.len(),
{
    if log.len() > 0 {
        lemma_newest_first_len(log.drop_last(), t);
    }
}

/// Sessions of the given type (all of them without one), most recent first,
/// at most `limit` of them. `sessions` is the log, oldest first.
pub fn get_sessions(sessions: Vec<SessionData>, session_type: Option<&str>, limit: Option<usize>) -> (r:
    Vec<SessionData>)
    ensures
        r@ == selected(sessions@, filter_text(session_type), limit),
{
    let ghost t = filter_text(session_type);
    let ghost all = sessions@;
    let want: Option<String> = match session_type {
        Some(st) => Some(String::from_str(st)),
        None => None,
    };
    let mut rest = sessions;
    let mut out: Vec<SessionData> = Vec::new();
    loop
        invariant
            all == sessions@,
            t == filter_text(session_type),
            want matches Some(w) ==> t == Some(w@),
            want is None ==> t is None,
            newest_first(all, t) == out@ + newest_first(rest@, t),
            limit matches Some(l) ==> out@.len() <= l,
        ensures
            newest_first(all, t) == out@ + newest_first(rest@, t),
            rest@.len() == 0 || (limit matches Some(l) && out@.len() == l),
            limit matches Some(l) ==> out@.len() <= l,
        decreases rest@.len(),
    {
        if rest.len() == 0 {
            break;
        }
        match limit {
            Some(l) => {
                if out.len() >= l {
                    break;
                }
            },
            None => {},
        }
        let ghost before = rest@;
        let s = rest.pop().unwrap();
        let keep = match &want {
            Some(w) => s.session_type == *w,
            None => true,
        };
        proof {
            assert(before.last() == s);
            assert(before.drop_last() == rest@);
        }
        if keep {
            out.push(s);
        }
    }
    proof {
        lemma_newest_first_len(rest@, t);
        assert(newest_first(rest@, t).len() == 0 ==> newest_first(all, t) =~= out@);
        match limit {
            Some(l) => {
                if out@.len() == l {
                    assert(newest_first(all, t).take(l as int) =~= out@);
                }
            },
            None => {},
        }
    }
    out
}

/// Adds `session` to the log as its most recent entry and returns it there.
pub fn save_session(sessions: &mut Vec<SessionData>, session: SessionData) -> (r: &SessionData)
    ensures
        final(sessions)@ == old(sessions)@.push(session),
        *r == session,
{
    sessions.push(session);
    let n = sessions.len();
    &sessions[n - 1]
}

/// The number of sessions in the log.
pub fn get_session_count(sessions: &Vec<SessionData>) -> (r: usize)
    ensures
        r == sessions@.len(),
{
    sessions.len()
}

/// A session just saved is the first one read back, under any limit but zero
/// and any filter that it passes.
pub proof fn law_saved_session_read_first(
    log: Seq<SessionData>,
    s: SessionData,
    t: Option<Seq<char>>,
    limit: Option<usize>,
)
    requires
        type_matches(s, t),
        limit != Some(0usize),
    ensures
        selected(log.push(s), t, limit).len() >= 1,
        selected(log.push(s), t, limit)[0] == s,
{
    assert(log.push(s).drop_last() =~= log);
    assert(log.push(s).last() == s);
}

/// Without a filter or a limit, the whole log comes back, most recent first.
pub proof fn law_unfiltered_is_reversed(log: Seq<SessionData>)
    ensures
        selected(log, None, None) == log.reverse(),
    decreases log.len(),
{
    if log.len() > 0 {
        law_unfiltered_is_reversed(log.drop_last());
        assert(newest_first(log, None) =~= log.reverse());
    } else {
        assert(newest_first(log, None) =~= log.reverse());
    }
}

/// Every session read back passes the filter and comes from the log, and no
/// more come back than the limit allows.
pub proof fn law_selection_filtered_and_bounded(
    log: Seq<SessionData>,
    t: Option<Seq<char>>,
    limit: Option<usize>,
)
    ensures
        forall|i: int|
            0 <= i < selected(log, t, limit).len() ==> type_matches(
                #[trigger] selected(log, t, limit)[i],
                t,
            ) && log.contains(selected(log, t, limit)[i]),
        limit matches Some(l) ==> selected(log, t, limit).len() <= l,
        selected(log, t, limit).len() <= log.len(),
{
    lemma_newest_first_members(log, t);
    lemma_newest_first_len(log, t);
}

proof fn lemma_newest_first_members(log: Seq<SessionData>, t: Option<Seq<char>>)
    ensures
        forall|i: int|
            0 <= i < newest_first(log, t).len() ==> type_matches(#[trigger] newest_first(log, t)[i], t)
                && log.contains(newest_first(log, t)[i]),
    decreases log.len(),
{
    if log.len() > 0 {
        let rest = log.drop_last();
        lemma_newest_first_members(rest, t);
        let nf = newest_first(log, t);
        assert forall|i: int| 0 <= i < nf.len() implies type_matches(#[trigger] nf[i], t)
            && log.contains(nf[i]) by {
            if type_matches(log.last(), t) {
                if i == 0 {
                    assert(log[log.len() - 1] == nf[i]);
                } else {
                    let x = newest_first(rest, t)[i - 1];
                    assert(nf[i] == x);
                    let k = choose|k: int| 0 <= k < rest.len() && rest[k] == x;
                    assert(log[k] == x);
                }
            } else {
                let x = newest_first(rest, t)[i];
                let k = choose|k: int| 0 <= k < rest.len() && rest[k] == x;
                assert(log[k] == x);
            }
        }
    }
}

/// Every session of the log that passes the filter comes back, most recent
/// first, and no other: without a limit the selection is the log's matching
/// sessions in reverse order, and a limit keeps the first `l` of those.
pub proof fn law_selection_is_filtered_log(
    log: Seq<SessionData>,
    t: Option<Seq<char>>,
    limit: Option<usize>,
)
    ensures
        selected(log, t, None) == log.filter(|s: SessionData| type_matches(s, t)).reverse(),
        selected(log, t, None).len() == log.filter(|s: SessionData| type_matches(s, t)).len(),
        limit matches Some(l) ==> selected(log, t, limit) == log.filter(
            |s: SessionData| type_matches(s, t),
        ).reverse().take(
            if log.filter(|s: SessionData| type_matches(s, t)).len() <= l {
                log.filter(|s: SessionData| type_matches(s, t)).len() as int
            } else {
                l as int
            },
        ),
{
    lemma_newest_first_is_filtered(log, t);
    let m = log.filter(|s: SessionData| type_matches(s, t)).reverse();
    assert(m.take(m.len() as int) =~= m);
}

proof fn lemma_newest_first_is_filtered(log: Seq<SessionData>, t: Option<Seq<char>>)
    ensures
        newest_first(log, t) == log.filter(|s: SessionData| type_matches(s, t)).reverse(),
    decreases log.len(),
{
    let p = |s: SessionData| type_matches(s, t);
    reveal_with_fuel(Seq::filter, 1);
    if log.len() == 0 {
        assert(log.filter(p) =~= Seq::<SessionData>::empty());
        assert(newest_first(log, t) =~= log.filter(p).reverse());
    } else {
        let rest = log.drop_last();
        lemma_newest_first_is_filtered(rest, t);
        let f = rest.filter(p);
        if p(log.last()) {
            assert(log.filter(p) == f.push(log.last()));
            assert(seq![log.last()] + f.reverse() =~= f.push(log.last()).reverse());
        } else {
            assert(log.filter(p) == f);
        }
    }
}

} // verus!
