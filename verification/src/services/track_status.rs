//! The status a user gave a track (disliked, ignored), and how the stored
//! statuses are selected.
use vstd::prelude::*;

use crate::entity::track_status::TrackStatus;

verus! {

/// A stored track status row.
#[derive(Debug, Clone, PartialEq, Eq)]
pub struct TrackStatusRow {
    pub user_id: String,
    pub track_id: String,
    pub status: TrackStatus,
    pub skips: i32,
}

/// Which rows a query selects: those that match every filter that is set.
#[derive(Debug, Clone, PartialEq, Eq)]
pub struct TrackStatusQueryBuilder {
    pub user_id: Option<String>,
    pub track_id: Option<String>,
    pub status: Option<TrackStatus>,
}

/// A row as plain values.
pub open spec fn row_view(r: TrackStatusRow) -> (Seq<char>, Seq<char>, TrackStatus, i32) {
    (r.user_id@, r.track_id@, r.status, r.skips)
}

/// Rows as plain values.
pub open spec fn rows_view(v: Seq<TrackStatusRow>) -> Seq<(Seq<char>, Seq<char>, TrackStatus, i32)> {
    v.map_values(|r: TrackStatusRow| row_view(r))
}

/// [`selects`] as a predicate on rows.
pub open spec fn selector(q: TrackStatusQueryBuilder) -> spec_fn(TrackStatusRow) -> bool {
    |r: TrackStatusRow| selects(q, r)
}

/// Whether a row passes the filters of a query.
pub open spec fn selects(q: TrackStatusQueryBuilder, row: TrackStatusRow) -> bool {
    &&& (q.user_id matches Some(u) ==> row.user_id@ == u@)
    &&& (q.track_id matches Some(t) ==> row.track_id@ == t@)
    &&& (q.status matches Some(s) ==> row.status == s)
}

impl View for TrackStatusQueryBuilder {
    type V = (Option<Seq<char>>, Option<Seq<char>>, Option<TrackStatus>);

    open spec fn view(&self) -> (Option<Seq<char>>, Option<Seq<char>>, Option<TrackStatus>) {
        (
            match self.user_id {
                Some(u) => Some(u@),
                None => None,
            },
            match self.track_id {
                Some(t) => Some(t@),
                None => None,
            },
            self.status,
        )
    }
}

/// The filters after [`TrackStatusQueryBuilder::user_id`].
pub open spec fn with_user(
    q: (Option<Seq<char>>, Option<Seq<char>>, Option<TrackStatus>),
    user_id: Option<Seq<char>>,
) -> (Option<Seq<char>>, Option<Seq<char>>, Option<TrackStatus>) {
    match user_id {
        Some(u) => (Some(u), q.1, q.2),
        None => q,
    }
}

/// The filters after [`TrackStatusQueryBuilder::track_id`].
pub open spec fn with_track(
    q: (Option<Seq<char>>, Option<Seq<char>>, Option<TrackStatus>),
    track_id: Option<Seq<char>>,
) -> (Option<Seq<char>>, Option<Seq<char>>, Option<TrackStatus>) {
    match track_id {
        Some(t) => (q.0, Some(t), q.2),
        None => q,
    }
}

/// The filters after [`TrackStatusQueryBuilder::status`].
pub open spec fn with_status(
    q: (Option<Seq<char>>, Option<Seq<char>>, Option<TrackStatus>),
    status: Option<TrackStatus>,
) -> (Option<Seq<char>>, Option<Seq<char>>, Option<TrackStatus>) {
    match status {
        Some(s) => (q.0, q.1, Some(s)),
        None => q,
    }
}

/// Whether a row passes filters given as plain values.
pub open spec fn passes(
    q: (Option<Seq<char>>, Option<Seq<char>>, Option<TrackStatus>),
    row: TrackStatusRow,
) -> bool {
    &&& (q.0 matches Some(u) ==> row.user_id@ == u)
    &&& (q.1 matches Some(t) ==> row.track_id@ == t)
    &&& (q.2 matches Some(s) ==> row.status == s)
}

/// The order in which filters are added does not matter, and a query selects
/// exactly the rows that pass every filter given.
pub proof fn lemma_filters_commute(
    q: (Option<Seq<char>>, Option<Seq<char>>, Option<TrackStatus>),
    user_id: Option<Seq<char>>,
    track_id: Option<Seq<char>>,
    status: Option<TrackStatus>,
    row: TrackStatusRow,
)
    ensures
        with_track(with_user(q, user_id), track_id) == with_user(with_track(q, track_id), user_id),
        with_status(with_user(q, user_id), status) == with_user(with_status(q, status), user_id),
        with_status(with_track(q, track_id), status) == with_track(with_status(q, status), track_id),
        passes(with_status(with_track(with_user((None, None, None), user_id), track_id), status), row)
            <==> ((user_id matches Some(u) ==> row.user_id@ == u) && (track_id matches Some(t)
            ==> row.track_id@ == t) && (status matches Some(s) ==> row.status == s)),
{
}

impl TrackStatusQueryBuilder {
    /// A query that selects every row.
    pub fn new() -> (q: Self)
        ensures
            q.user_id is None && q.track_id is None && q.status is None,
            q@ == (None::<Seq<char>>, None::<Seq<char>>, None::<TrackStatus>),
    {
        TrackStatusQueryBuilder { user_id: None, track_id: None, status: None }
    }

    /// Also filters by user, when one is given; otherwise the query stays as it is.
    pub fn user_id(self, user_id: Option<&str>) -> (q: Self)
        ensures
            q.track_id == self.track_id && q.status == self.status,
            match user_id {
                Some(u) => q.user_id matches Some(v) && v@ == u@,
                None => q.user_id == self.user_id,
            },
            q@ == with_user(
                self@,
                match user_id {
                    Some(u) => Some(u@),
                    None => None,
                },
            ),
    {
        match user_id {
            Some(u) => TrackStatusQueryBuilder { user_id: Some(u.to_owned()), ..self },
            None => self,
        }
    }

    /// Also filters by track, when one is given.
    pub fn track_id(self, track_id: Option<&str>) -> (q: Self)
        ensures
            q.user_id == self.user_id && q.status == self.status,
            match track_id {
                Some(t) => q.track_id matches Some(v) && v@ == t@,
                None => q.track_id == self.track_id,
            },
            q@ == with_track(
                self@,
                match track_id {
                    Some(t) => Some(t@),
                    None => None,
                },
            ),
    {
        match track_id {
            Some(t) => TrackStatusQueryBuilder { track_id: Some(t.to_owned()), ..self },
            None => self,
        }
    }

    /// Also filters by status, when one is given.
    pub fn status(self, status: Option<TrackStatus>) -> (q: Self)
        ensures
            q.user_id == self.user_id && q.track_id == self.track_id,
            match status {
                Some(s) => q.status == Some(s),
                None => q.status == self.status,
            },
            q@ == with_status(self@, status),
    {
        match status {
            Some(s) => TrackStatusQueryBuilder { status: Some(s), ..self },
            None => self,
        }
    }

    /// Whether the query selects a row (see [`selects`]).
    pub fn matches(&self, row: &TrackStatusRow) -> (res: bool)
        ensures
            res == selects(*self, *row),
            res == passes(self@, *row),
    {
        (match &self.user_id {
            Some(u) => row.user_id == *u,
            None => true,
        }) && (match &self.track_id {
            Some(t) => row.track_id == *t,
            None => true,
        }) && (match self.status {
            Some(s) => row.status == s,
            None => true,
        })
    }
}

/// Track statuses; the database is driven by the caller.
pub struct TrackStatusService;

impl TrackStatusService {
    /// The status of a user's track: the stored one, or no status when there is
    /// none or it could not be read.
    pub fn status_or_none(found: Option<TrackStatus>) -> (res: TrackStatus)
        ensures
            res == match found {
                Some(s) => s,
                None => TrackStatus::NoStatus,
            },
    {
        match found {
            Some(s) => s,
            None => TrackStatus::NoStatus,
        }
    }

    /// The total of skips from the summing query: zero when it gave no row or no sum.
    pub fn skips_total(sum: Option<Option<i64>>) -> (res: i64)
        ensures
            res == match sum {
                Some(Some(n)) => n,
                _ => 0,
            },
    {
        match sum {
            Some(Some(n)) => n,
            _ => 0,
        }
    }

    /// The rows a query selects, in order (as plain values).
    pub fn select(q: &TrackStatusQueryBuilder, rows: &Vec<TrackStatusRow>) -> (res: Vec<TrackStatusRow>)
        ensures
            rows_view(res@) == rows_view(rows@.filter(selector(*q))),
    {
        let ghost pred = selector(*q);
        let mut res: Vec<TrackStatusRow> = Vec::new();
        let mut i: usize = 0;
        assert(rows@.take(0).filter(pred) =~= Seq::<TrackStatusRow>::empty());
        assert(rows_view(res@) =~= rows_view(rows@.take(0).filter(pred)));
        while i < rows.len()
            invariant
                i <= rows@.len(),
                pred == selector(*q),
                rows_view(res@) == rows_view(rows@.take(i as int).filter(pred)),
            decreases rows@.len() - i,
        {
            proof {
                rows@.take(i as int).lemma_filter_push(rows@[i as int], pred);
                assert(rows@.take(i + 1) =~= rows@.take(i as int).push(rows@[i as int]));
            }
            if q.matches(&rows[i]) {
                let r = &rows[i];
                let copy = TrackStatusRow {
                    user_id: r.user_id.as_str().to_owned(),
                    track_id: r.track_id.as_str().to_owned(),
                    status: r.status,
                    skips: r.skips,
                };
                let ghost before = res@;
                res.push(copy);
                assert(rows_view(res@) =~= rows_view(before).push(row_view(*r)));
                assert(rows_view(rows@.take(i + 1).filter(pred)) =~= rows_view(
                    rows@.take(i as int).filter(pred),
                ).push(row_view(*r)));
            }
            i += 1;
        }
        assert(rows@.take(i as int) =~= rows@);
        res
    }
}

} // verus!
