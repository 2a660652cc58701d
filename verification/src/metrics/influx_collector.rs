//! Turning the collected statistics into the points written to InfluxDB.
use vstd::prelude::*;

use super::prometheus_collector::CollectedStats;

verus! {

/// One point: its measurement, its integer fields and its tags.
#[derive(Debug, Clone, PartialEq, Eq)]
pub struct InfluxPoint {
    pub measurement: String,
    pub fields: Vec<(String, u64)>,
    pub tags: Vec<(String, String)>,
}

/// A point as plain values.
pub open spec fn point_view(p: InfluxPoint) -> (Seq<char>, Seq<(Seq<char>, u64)>, Seq<(Seq<char>, Seq<char>)>) {
    (
        p.measurement@,
        p.fields@.map_values(|f: (String, u64)| (f.0@, f.1)),
        p.tags@.map_values(|t: (String, String)| (t.0@, t.1@)),
    )
}

/// Points as plain values.
pub open spec fn points_view(v: Seq<InfluxPoint>) -> Seq<(Seq<char>, Seq<(Seq<char>, u64)>, Seq<(Seq<char>, Seq<char>)>)> {
    v.map_values(|p: InfluxPoint| point_view(p))
}

/// `i64::try_into::<u64>().unwrap_or_default()`: negative counts become zero.
pub open spec fn count_or_zero(x: i64) -> u64 {
    if x >= 0 { x as u64 } else { 0 }
}

/// The fixed points of one collection, in the order they are written; signed
/// counts are reinterpreted as unsigned (`as u64`).
pub open spec fn fixed_points_spec(s: CollectedStats) -> Seq<(Seq<char>, Seq<(Seq<char>, u64)>, Seq<(Seq<char>, Seq<char>)>)> {
    seq![
        (
            "track_status"@,
            seq![
                ("disliked"@, s.disliked),
                ("ignored"@, s.ignored),
                ("skipped"@, s.skipped as u64),
                ("removed_collection"@, s.removed_collection as u64),
                ("removed_playlists"@, s.removed_playlists as u64),
            ],
            Seq::empty(),
        ),
        (
            "lyrics"@,
            seq![
                ("checked"@, s.lyrics_checked as u64),
                ("analyzed"@, s.lyrics_analyzed as u64),
                ("found"@, s.lyrics_found as u64),
                ("profane"@, s.lyrics_profane as u64),
                ("genius"@, s.lyrics_genius as u64),
                ("musixmatch"@, s.lyrics_musixmatch as u64),
                ("lrclib"@, s.lyrics_lrclib as u64),
            ],
            Seq::empty(),
        ),
        (
            "tick_health"@,
            seq![
                ("total_count"@, s.ticks_total as u64),
                ("unhealthy_count"@, s.ticks_unhealthy as u64),
                ("lagging_count"@, s.ticks_lagging as u64),
            ],
            Seq::empty(),
        ),
        ("errors"@, seq![("spotify_429"@, s.spotify_429)], Seq::empty()),
        ("uptime"@, seq![("secs_elapsed"@, s.uptime_secs)], Seq::empty()),
    ]
}

/// One point per user status.
pub open spec fn status_points(v: Seq<(String, i64)>) -> Seq<(Seq<char>, Seq<(Seq<char>, u64)>, Seq<(Seq<char>, Seq<char>)>)> {
    v.map_values(
        |p: (String, i64)| ("user_status"@, seq![("count"@, p.1 as u64)], seq![("status"@, p.0@)]),
    )
}

/// One point per language (`"none"` for tracks of unknown language).
pub open spec fn language_points(v: Seq<(Option<String>, i64)>) -> Seq<(Seq<char>, Seq<(Seq<char>, u64)>, Seq<(Seq<char>, Seq<char>)>)> {
    v.map_values(
        |p: (Option<String>, i64)|
            (
                "track_language"@,
                seq![("count"@, count_or_zero(p.1))],
                seq![
                    (
                        "language"@,
                        match p.0 {
                            Some(l) => l@,
                            None => "none"@,
                        },
                    ),
                ],
            ),
    )
}

/// All points of one collection.
pub open spec fn influx_points_spec(s: CollectedStats) -> Seq<(Seq<char>, Seq<(Seq<char>, u64)>, Seq<(Seq<char>, Seq<char>)>)> {
    fixed_points_spec(s) + status_points(s.users_by_status@) + language_points(s.tracks_by_language@)
}

fn field(name: &str, value: u64) -> (f: (String, u64))
    ensures
        f.0@ == name@,
        f.1 == value,
{
    (name.to_owned(), value)
}

fn point(measurement: &str, fields: Vec<(String, u64)>, tag: Option<(&str, &str)>) -> (p: InfluxPoint)
    ensures
        p.measurement@ == measurement@,
        p.fields == fields,
        p.tags@.map_values(|t: (String, String)| (t.0@, t.1@)) == match tag {
            Some((k, v)) => seq![(k@, v@)],
            None => Seq::<(Seq<char>, Seq<char>)>::empty(),
        },
{
    let mut tags: Vec<(String, String)> = Vec::new();
    match tag {
        Some((k, v)) => tags.push((k.to_owned(), v.to_owned())),
        None => {},
    }
    let p = InfluxPoint { measurement: measurement.to_owned(), fields, tags };
    assert(p.tags@.map_values(|t: (String, String)| (t.0@, t.1@)) =~= match tag {
        Some((k, v)) => seq![(k@, v@)],
        None => Seq::<(Seq<char>, Seq<char>)>::empty(),
    });
    p
}

/// The points of one collection (see [`influx_points_spec`]).
pub fn influx_points(s: &CollectedStats) -> (res: Vec<InfluxPoint>)
    ensures
        points_view(res@) == influx_points_spec(*s),
{
    let mut res: Vec<InfluxPoint> = Vec::new();

    let mut f: Vec<(String, u64)> = Vec::new();
    f.push(field("disliked", s.disliked));
    f.push(field("ignored", s.ignored));
    f.push(field("skipped", s.skipped as u64));
    f.push(field("removed_collection", s.removed_collection as u64));
    f.push(field("removed_playlists", s.removed_playlists as u64));
    res.push(point("track_status", f, None));

    let mut f: Vec<(String, u64)> = Vec::new();
    f.push(field("checked", s.lyrics_checked as u64));
    f.push(field("analyzed", s.lyrics_analyzed as u64));
    f.push(field("found", s.lyrics_found as u64));
    f.push(field("profane", s.lyrics_profane as u64));
    f.push(field("genius", s.lyrics_genius as u64));
    f.push(field("musixmatch", s.lyrics_musixmatch as u64));
    f.push(field("lrclib", s.lyrics_lrclib as u64));
    res.push(point("lyrics", f, None));

    let mut f: Vec<(String, u64)> = Vec::new();
    f.push(field("total_count", s.ticks_total as u64));
    f.push(field("unhealthy_count", s.ticks_unhealthy as u64));
    f.push(field("lagging_count", s.ticks_lagging as u64));
    res.push(point("tick_health", f, None));

    let mut f: Vec<(String, u64)> = Vec::new();
    f.push(field("spotify_429", s.spotify_429));
    res.push(point("errors", f, None));

    let mut f: Vec<(String, u64)> = Vec::new();
    f.push(field("secs_elapsed", s.uptime_secs));
    res.push(point("uptime", f, None));

    let ghost fixed = fixed_points_spec(*s);
    assert(points_view(res@) =~= fixed) by {
        assert(point_view(res@[0]) == fixed[0]);
        assert(point_view(res@[1]) == fixed[1]);
        assert(point_view(res@[2]) == fixed[2]);
        assert(point_view(res@[3]) == fixed[3]);
        assert(point_view(res@[4]) == fixed[4]);
    }

    let ghost users = status_points(s.users_by_status@);
    let mut i: usize = 0;
    while i < s.users_by_status.len()
        invariant
            i <= s.users_by_status@.len(),
            fixed == fixed_points_spec(*s),
            users == status_points(s.users_by_status@),
            points_view(res@) == fixed + users.take(i as int),
        decreases s.users_by_status@.len() - i,
    {
        let mut f: Vec<(String, u64)> = Vec::new();
        f.push(field("count", s.users_by_status[i].1 as u64));
        let p = point("user_status", f, Some(("status", s.users_by_status[i].0.as_str())));
        let ghost before = res@;
        res.push(p);
        assert(points_view(res@) =~= fixed + users.take(i + 1)) by {
            assert(res@ == before.push(p));
            assert(points_view(res@) =~= points_view(before).push(point_view(p)));
            assert(point_view(p) == users[i as int]);
            assert(users.take(i + 1) =~= users.take(i as int).push(users[i as int]));
        }
        i += 1;
    }
    assert(users.take(i as int) =~= users);

    let ghost langs = language_points(s.tracks_by_language@);
    let mut j: usize = 0;
    while j < s.tracks_by_language.len()
        invariant
            j <= s.tracks_by_language@.len(),
            fixed == fixed_points_spec(*s),
            users == status_points(s.users_by_status@),
            langs == language_points(s.tracks_by_language@),
            points_view(res@) == fixed + users + langs.take(j as int),
        decreases s.tracks_by_language@.len() - j,
    {
        let n = s.tracks_by_language[j].1;
        let count: u64 = if n >= 0 { n as u64 } else { 0 };
        let mut f: Vec<(String, u64)> = Vec::new();
        f.push(field("count", count));
        let p = match &s.tracks_by_language[j].0 {
            Some(l) => point("track_language", f, Some(("language", l.as_str()))),
            None => point("track_language", f, Some(("language", "none"))),
        };
        let ghost before = res@;
        res.push(p);
        assert(points_view(res@) =~= fixed + users + langs.take(j + 1)) by {
            assert(res@ == before.push(p));
            assert(points_view(res@) =~= points_view(before).push(point_view(p)));
            assert(point_view(p) == langs[j as int]);
            assert(langs.take(j + 1) =~= langs.take(j as int).push(langs[j as int]));
        }
        j += 1;
    }
    assert(langs.take(j as int) =~= langs);
    res
}

} // verus!
