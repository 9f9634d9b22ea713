//! Scheduled-news blackout gate.
use crate::session::EtTime;
use crate::truth::{from_bool, Condition};
use vstd::prelude::*;

verus! {

/// A configured blackout interval, from `start_inclusive` up to but excluding `end_exclusive`.
#[derive(Debug, Clone, Copy, PartialEq, Eq, Structural)]
pub struct NewsBlackoutWindow {
    pub start_inclusive: EtTime,
    pub end_exclusive: EtTime,
}

impl NewsBlackoutWindow {
    pub open spec fn is_valid(self) -> bool {
        self.start_inclusive.secs() < self.end_exclusive.secs()
    }

    pub open spec fn covers(self, time: EtTime) -> bool {
        self.start_inclusive.secs() <= time.secs() < self.end_exclusive.secs()
    }

    /// A window is valid when it starts strictly before it ends.
    #[must_use]
    pub fn valid(self) -> (r: bool)
        ensures
            r == self.is_valid(),
    {
        self.start_inclusive.seconds() < self.end_exclusive.seconds()
    }

    /// Start is inclusive and end is exclusive.
    #[must_use]
    pub fn contains(self, time: EtTime) -> (r: bool)
        ensures
            r == self.covers(time),
    {
        self.start_inclusive.seconds() <= time.seconds() && time.seconds()
            < self.end_exclusive.seconds()
    }
}

#[derive(Debug, Clone, Copy, PartialEq, Eq, Structural)]
pub struct NewsGateEvaluation {
    pub news_blackout_clear: Condition,
    pub allow_new_entries: bool,
    pub allow_position_management: bool,
    pub latest_blackout_end: Option<EtTime>,
}

/// `a` comes strictly before `b` when ordered by start, then by end.
pub open spec fn strictly_before(a: NewsBlackoutWindow, b: NewsBlackoutWindow) -> bool {
    a.start_inclusive.secs() < b.start_inclusive.secs() || (a.start_inclusive.secs()
        == b.start_inclusive.secs() && a.end_exclusive.secs() < b.end_exclusive.secs())
}

/// Every window is valid and the list is sorted by (start, end) without duplicates.
pub open spec fn schedule_well_formed(ws: Seq<NewsBlackoutWindow>) -> bool {
    &&& forall|i: int| 0 <= i < ws.len() ==> (#[trigger] ws[i]).is_valid()
    &&& forall|i: int| 0 <= i < ws.len() - 1 ==> strictly_before(#[trigger] ws[i], ws[i + 1])
}

/// Some window covers `now`.
pub open spec fn blackout_active(ws: Seq<NewsBlackoutWindow>, now: EtTime) -> bool {
    exists|i: int| 0 <= i < ws.len() && (#[trigger] ws[i]).covers(now)
}

/// The latest end among the windows that have ended by `now`.
pub open spec fn latest_end(ws: Seq<NewsBlackoutWindow>, now: EtTime) -> Option<EtTime>
    decreases ws.len(),
{
    if ws.len() == 0 {
        None
    } else {
        let rest = latest_end(ws.drop_last(), now);
        let end = ws.last().end_exclusive;
        if end.secs() <= now.secs() {
            match rest {
                Some(e) => if end.secs() >= e.secs() {
                    Some(end)
                } else {
                    Some(e)
                },
                None => Some(end),
            }
        } else {
            rest
        }
    }
}

/// The news decision.
pub open spec fn news_gate(
    now: EtTime,
    setup_sequence_started_at: Option<EtTime>,
    schedule_valid: Condition,
    ws: Seq<NewsBlackoutWindow>,
) -> NewsGateEvaluation {
    if schedule_valid != Condition::True || !schedule_well_formed(ws) {
        NewsGateEvaluation {
            news_blackout_clear: Condition::Unknown,
            allow_new_entries: false,
            allow_position_management: true,
            latest_blackout_end: None,
        }
    } else if blackout_active(ws, now) {
        NewsGateEvaluation {
            news_blackout_clear: Condition::False,
            allow_new_entries: false,
            allow_position_management: true,
            latest_blackout_end: latest_end(ws, now),
        }
    } else {
        let clear = match latest_end(ws, now) {
            None => Condition::True,
            Some(end) => match setup_sequence_started_at {
                Some(start) => from_bool(start.secs() >= end.secs()),
                None => Condition::Unknown,
            },
        };
        NewsGateEvaluation {
            news_blackout_clear: clear,
            allow_new_entries: clear == Condition::True,
            allow_position_management: true,
            latest_blackout_end: latest_end(ws, now),
        }
    }
}

fn windows_valid(windows: &[NewsBlackoutWindow]) -> (r: bool)
    ensures
        r == schedule_well_formed(windows@),
{
    let mut i: usize = 0;
    while i < windows.len()
        invariant
            i <= windows@.len(),
            forall|j: int| 0 <= j < i ==> (#[trigger] windows@[j]).is_valid(),
            forall|j: int| 0 <= j < i - 1 ==> strictly_before(#[trigger] windows@[j], windows@[j + 1]),
        decreases windows@.len() - i,
    {
        let current = windows[i];
        if !current.valid() {
            return false;
        }
        if i > 0 {
            let previous = windows[i - 1];
            let ps = previous.start_inclusive.seconds();
            let cs = current.start_inclusive.seconds();
            let ordered = ps < cs || (ps == cs && previous.end_exclusive.seconds()
                <= current.end_exclusive.seconds());
            let duplicate = ps == cs && previous.end_exclusive.seconds()
                == current.end_exclusive.seconds();
            if !(ordered && !duplicate) {
                assert(!strictly_before(windows@[i - 1], windows@[(i - 1) + 1]));
                return false;
            }
        }
        i = i + 1;
    }
    true
}

/// The scheduled-news gate. Blackout intervals come from validated configuration; no default
/// duration is embedded. After a blackout has ended, a setup must have started at or after the
/// latest ended blackout, so a pre-event or in-blackout setup cannot be revived. Management
/// of existing positions is always allowed.
#[must_use]
pub fn evaluate_news_gate(
    now_et: EtTime,
    setup_sequence_started_at: Option<EtTime>,
    schedule_valid: Condition,
    windows: &[NewsBlackoutWindow],
) -> (r: NewsGateEvaluation)
    ensures
        r == news_gate(now_et, setup_sequence_started_at, schedule_valid, windows@),
{
    if !schedule_valid.permits() || !windows_valid(windows) {
        return NewsGateEvaluation {
            news_blackout_clear: Condition::Unknown,
            allow_new_entries: false,
            allow_position_management: true,
            latest_blackout_end: None,
        };
    }
    let mut active = false;
    let mut latest: Option<EtTime> = None;
    let mut i: usize = 0;
    while i < windows.len()
        invariant
            i <= windows@.len(),
            active == (exists|j: int| 0 <= j < i && (#[trigger] windows@[j]).covers(now_et)),
            latest == latest_end(windows@.take(i as int), now_et),
        decreases windows@.len() - i,
    {
        let window = windows[i];
        if window.contains(now_et) {
            active = true;
        }
        proof {
            assert(windows@.take(i + 1).drop_last() =~= windows@.take(i as int));
        }
        if window.end_exclusive.seconds() <= now_et.seconds() {
            latest = match latest {
                Some(e) => if window.end_exclusive.seconds() >= e.seconds() {
                    Some(window.end_exclusive)
                } else {
                    Some(e)
                },
                None => Some(window.end_exclusive),
            };
        }
        i = i + 1;
    }
    proof {
        assert(windows@.take(windows@.len() as int) =~= windows@);
    }
    if active {
        return NewsGateEvaluation {
            news_blackout_clear: Condition::False,
            allow_new_entries: false,
            allow_position_management: true,
            latest_blackout_end: latest,
        };
    }
    let news_blackout_clear = match latest {
        None => Condition::True,
        Some(end) => match setup_sequence_started_at {
            Some(start) => Condition::from(start.seconds() >= end.seconds()),
            None => Condition::Unknown,
        },
    };
    NewsGateEvaluation {
        news_blackout_clear,
        allow_new_entries: news_blackout_clear.permits(),
        allow_position_management: true,
        latest_blackout_end: latest,
    }
}

/// `latest_end` is the largest end among the windows that have ended, and is absent exactly
/// when none has ended.
pub proof fn lemma_latest_end(ws: Seq<NewsBlackoutWindow>, now: EtTime)
    ensures
        latest_end(ws, now) is None <==> !(exists|i: int|
            0 <= i < ws.len() && (#[trigger] ws[i]).end_exclusive.secs() <= now.secs()),
        latest_end(ws, now) matches Some(e) ==> {
            &&& exists|i: int|
                0 <= i < ws.len() && (#[trigger] ws[i]).end_exclusive == e && e.secs() <= now.secs()
            &&& forall|i: int|
                0 <= i < ws.len() && (#[trigger] ws[i]).end_exclusive.secs() <= now.secs()
                    ==> ws[i].end_exclusive.secs() <= e.secs()
        },
    decreases ws.len(),
{
    if ws.len() > 0 {
        let init = ws.drop_last();
        lemma_latest_end(init, now);
        assert forall|i: int| 0 <= i < init.len() implies #[trigger] init[i] == ws[i] by {}
        let last = ws.len() - 1;
        assert(ws[last] == ws.last());
        if latest_end(ws, now) is None {
            assert forall|i: int| 0 <= i < ws.len() implies !((#[trigger] ws[i]).end_exclusive.secs()
                <= now.secs()) by {
                if i < last {
                    assert(init[i] == ws[i]);
                }
            }
        }
        if let Some(e) = latest_end(ws, now) {
            assert forall|i: int|
                0 <= i < ws.len() && (#[trigger] ws[i]).end_exclusive.secs() <= now.secs()
                implies ws[i].end_exclusive.secs() <= e.secs() by {
                if i < last {
                    assert(init[i] == ws[i]);
                }
            }
            if let Some(r) = latest_end(init, now) {
                let k = choose|k: int|
                    0 <= k < init.len() && (#[trigger] init[k]).end_exclusive == r && r.secs()
                        <= now.secs();
                assert(ws[k] == init[k]);
            }
        }
    }
}

/// Any blackout window that covers the current time blocks new entries, whatever else holds.
pub proof fn lemma_active_blackout_blocks(
    now: EtTime,
    started: Option<EtTime>,
    schedule_valid: Condition,
    ws: Seq<NewsBlackoutWindow>,
    i: int,
)
    requires
        0 <= i < ws.len(),
        ws[i].covers(now),
    ensures
        !news_gate(now, started, schedule_valid, ws).allow_new_entries,
        news_gate(now, started, schedule_valid, ws).news_blackout_clear != Condition::True,
{
}

/// A setup sequence that started before the end of a blackout that has already ended can
/// never be cleared: it is not revived after the event.
pub proof fn lemma_pre_event_setup_not_revived(
    now: EtTime,
    start: EtTime,
    schedule_valid: Condition,
    ws: Seq<NewsBlackoutWindow>,
    i: int,
)
    requires
        0 <= i < ws.len(),
        ws[i].end_exclusive.secs() <= now.secs(),
        start.secs() < ws[i].end_exclusive.secs(),
    ensures
        news_gate(now, Some(start), schedule_valid, ws).news_blackout_clear != Condition::True,
        !news_gate(now, Some(start), schedule_valid, ws).allow_new_entries,
{
    lemma_latest_end(ws, now);
}

/// New entries are allowed exactly when the news check is clear, and position management is always
/// allowed.
pub proof fn lemma_gate_entries_follow_clear(
    now: EtTime,
    started: Option<EtTime>,
    schedule_valid: Condition,
    ws: Seq<NewsBlackoutWindow>,
)
    ensures
        news_gate(now, started, schedule_valid, ws).allow_new_entries <==> news_gate(
            now,
            started,
            schedule_valid,
            ws,
        ).news_blackout_clear == Condition::True,
        news_gate(now, started, schedule_valid, ws).allow_position_management,
{
}

} // verus!
