//! Turning the collected statistics into updates of the Prometheus metrics.
use vstd::prelude::*;

verus! {

/// A metric that [`gauge_updates`] sets.
#[derive(PartialEq, Eq, Structural, Clone, Copy, Debug)]
pub enum Gauge {
    TrackStatus,
    LyricsChecked,
    LyricsAnalyzed,
    LyricsFound,
    LyricsProfane,
    LyricsSource,
    Ticks,
    TicksUnhealthy,
    TicksLagging,
    SpotifyRateLimitErrors,
    Uptime,
    UsersByStatus,
    TracksByLanguage,
}

/// One update: set this metric, with this label value if it has labels, to this value.
#[derive(Debug, Clone, PartialEq, Eq)]
pub struct GaugeUpdate {
    pub gauge: Gauge,
    pub label: Option<String>,
    pub value: i64,
}

/// The statistics gathered for one collection.
#[derive(Debug, Clone, PartialEq, Eq)]
pub struct CollectedStats {
    pub disliked: u64,
    pub ignored: u64,
    pub skipped: i64,
    pub removed_collection: i64,
    pub removed_playlists: i64,
    pub lyrics_checked: i64,
    pub lyrics_found: i64,
    pub lyrics_profane: i64,
    pub lyrics_genius: i64,
    pub lyrics_musixmatch: i64,
    pub lyrics_lrclib: i64,
    pub lyrics_analyzed: i64,
    pub ticks_total: usize,
    pub ticks_unhealthy: usize,
    pub ticks_lagging: usize,
    pub spotify_429: u64,
    pub uptime_secs: u64,
    /// The number of users of each status, the status given by its stored value.
    pub users_by_status: Vec<(String, i64)>,
    /// The number of tracks of each language, by ISO 639-3 code (`None` when unknown).
    pub tracks_by_language: Vec<(Option<String>, i64)>,
}

/// An update as plain values.
pub open spec fn update_view(u: GaugeUpdate) -> (Gauge, Option<Seq<char>>, int) {
    (
        u.gauge,
        match u.label {
            Some(l) => Some(l@),
            None => None,
        },
        u.value as int,
    )
}

/// A list of updates as plain values.
pub open spec fn updates_view(v: Seq<GaugeUpdate>) -> Seq<(Gauge, Option<Seq<char>>, int)> {
    v.map_values(|u: GaugeUpdate| update_view(u))
}

/// The updates of the users' statuses.
pub open spec fn status_updates(v: Seq<(String, i64)>) -> Seq<(Gauge, Option<Seq<char>>, int)> {
    v.map_values(|p: (String, i64)| (Gauge::UsersByStatus, Some(p.0@), p.1 as int))
}

/// The updates of the tracks' languages.
pub open spec fn language_updates(v: Seq<(Option<String>, i64)>) -> Seq<(Gauge, Option<Seq<char>>, int)> {
    v.map_values(
        |p: (Option<String>, i64)|
            (
                Gauge::TracksByLanguage,
                Some(
                    match p.0 {
                        Some(l) => l@,
                        None => "none"@,
                    },
                ),
                p.1 as int,
            ),
    )
}

/// `u64::cast_signed`: the same bits read as an `i64`.
pub open spec fn cast_signed(x: u64) -> int {
    if x <= i64::MAX { x as int } else { x as int - 0x1_0000_0000_0000_0000 }
}

/// `i64::try_from(x).unwrap_or(0)`.
pub open spec fn count_or_zero(x: usize) -> int {
    if x <= i64::MAX { x as int } else { 0 }
}

/// The fixed part of the updates, in the order they are made.
pub open spec fn fixed_updates_spec(s: CollectedStats) -> Seq<(Gauge, Option<Seq<char>>, int)> {
    seq![
        (Gauge::TrackStatus, Some("disliked"@), cast_signed(s.disliked)),
        (Gauge::TrackStatus, Some("ignored"@), cast_signed(s.ignored)),
        (Gauge::TrackStatus, Some("skipped"@), s.skipped as int),
        (Gauge::TrackStatus, Some("removed_collection"@), s.removed_collection as int),
        (Gauge::TrackStatus, Some("removed_playlists"@), s.removed_playlists as int),
        (Gauge::LyricsChecked, None, s.lyrics_checked as int),
        (Gauge::LyricsAnalyzed, None, s.lyrics_analyzed as int),
        (Gauge::LyricsFound, None, s.lyrics_found as int),
        (Gauge::LyricsProfane, None, s.lyrics_profane as int),
        (Gauge::LyricsSource, Some("genius"@), s.lyrics_genius as int),
        (Gauge::LyricsSource, Some("musixmatch"@), s.lyrics_musixmatch as int),
        (Gauge::LyricsSource, Some("lrclib"@), s.lyrics_lrclib as int),
        (Gauge::Ticks, None, count_or_zero(s.ticks_total)),
        (Gauge::TicksUnhealthy, None, count_or_zero(s.ticks_unhealthy)),
        (Gauge::TicksLagging, None, count_or_zero(s.ticks_lagging)),
        (Gauge::SpotifyRateLimitErrors, None, cast_signed(s.spotify_429)),
        (Gauge::Uptime, None, cast_signed(s.uptime_secs)),
    ]
}

/// All updates: the fixed ones, then one per user status, then one per
/// language (`"none"` for tracks of unknown language).
pub open spec fn gauge_updates_spec(s: CollectedStats) -> Seq<(Gauge, Option<Seq<char>>, int)> {
    fixed_updates_spec(s) + status_updates(s.users_by_status@) + language_updates(s.tracks_by_language@)
}

fn signed(x: u64) -> (r: i64)
    ensures
        r as int == cast_signed(x),
{
    if x <= 9223372036854775807 {
        x as i64
    } else {
        ((x - 9223372036854775808) as i64) - 9223372036854775807 - 1
    }
}

fn count(x: usize) -> (r: i64)
    ensures
        r as int == count_or_zero(x),
{
    if x as u64 <= 9223372036854775807 {
        x as i64
    } else {
        0
    }
}

fn update(gauge: Gauge, label: Option<&str>, value: i64) -> (u: GaugeUpdate)
    ensures
        update_view(u) == (
            gauge,
            match label {
                Some(l) => Some(l@),
                None => None,
            },
            value as int,
        ),
{
    GaugeUpdate {
        gauge,
        label: match label {
            Some(l) => Some(l.to_owned()),
            None => None,
        },
        value,
    }
}

/// The updates of one collection (see [`gauge_updates_spec`]).
pub fn gauge_updates(s: &CollectedStats) -> (res: Vec<GaugeUpdate>)
    ensures
        updates_view(res@) == gauge_updates_spec(*s),
{
    let mut res: Vec<GaugeUpdate> = Vec::new();
    res.push(update(Gauge::TrackStatus, Some("disliked"), signed(s.disliked)));
    res.push(update(Gauge::TrackStatus, Some("ignored"), signed(s.ignored)));
    res.push(update(Gauge::TrackStatus, Some("skipped"), s.skipped));
    res.push(update(Gauge::TrackStatus, Some("removed_collection"), s.removed_collection));
    res.push(update(Gauge::TrackStatus, Some("removed_playlists"), s.removed_playlists));
    res.push(update(Gauge::LyricsChecked, None, s.lyrics_checked));
    res.push(update(Gauge::LyricsAnalyzed, None, s.lyrics_analyzed));
    res.push(update(Gauge::LyricsFound, None, s.lyrics_found));
    res.push(update(Gauge::LyricsProfane, None, s.lyrics_profane));
    res.push(update(Gauge::LyricsSource, Some("genius"), s.lyrics_genius));
    res.push(update(Gauge::LyricsSource, Some("musixmatch"), s.lyrics_musixmatch));
    res.push(update(Gauge::LyricsSource, Some("lrclib"), s.lyrics_lrclib));
    res.push(update(Gauge::Ticks, None, count(s.ticks_total)));
    res.push(update(Gauge::TicksUnhealthy, None, count(s.ticks_unhealthy)));
    res.push(update(Gauge::TicksLagging, None, count(s.ticks_lagging)));
    res.push(update(Gauge::SpotifyRateLimitErrors, None, signed(s.spotify_429)));
    res.push(update(Gauge::Uptime, None, signed(s.uptime_secs)));
    let ghost fixed = fixed_updates_spec(*s);
    assert(updates_view(res@) =~= fixed);
    let ghost users = status_updates(s.users_by_status@);
    let mut i: usize = 0;
    while i < s.users_by_status.len()
        invariant
            i <= s.users_by_status@.len(),
            fixed == fixed_updates_spec(*s),
            users == status_updates(s.users_by_status@),
            updates_view(res@) == fixed + users.take(i as int),
        decreases s.users_by_status@.len() - i,
    {
        let (status, n) = (&s.users_by_status[i].0, s.users_by_status[i].1);
        let u = update(Gauge::UsersByStatus, Some(status.as_str()), n);
        let ghost before = res@;
        res.push(u);
        assert(updates_view(res@) =~= fixed + users.take(i + 1)) by {
            assert(res@ == before.push(u));
            assert(updates_view(res@) =~= updates_view(before).push(update_view(u)));
            assert(update_view(u) == users[i as int]);
            assert(users.take(i + 1) =~= users.take(i as int).push(users[i as int]));
        }
        i += 1;
    }
    assert(users.take(i as int) =~= users);
    let ghost langs = language_updates(s.tracks_by_language@);
    let mut j: usize = 0;
    while j < s.tracks_by_language.len()
        invariant
            j <= s.tracks_by_language@.len(),
            langs == language_updates(s.tracks_by_language@),
            fixed == fixed_updates_spec(*s),
            users == status_updates(s.users_by_status@),
            updates_view(res@) == fixed + users + langs.take(j as int),
        decreases s.tracks_by_language@.len() - j,
    {
        let n = s.tracks_by_language[j].1;
        let u = match &s.tracks_by_language[j].0 {
            Some(l) => update(Gauge::TracksByLanguage, Some(l.as_str()), n),
            None => update(Gauge::TracksByLanguage, Some("none"), n),
        };
        let ghost before = res@;
        res.push(u);
        assert(updates_view(res@) =~= fixed + users + langs.take(j + 1)) by {
            assert(res@ == before.push(u));
            assert(updates_view(res@) =~= updates_view(before).push(update_view(u)));
            assert(update_view(u) == langs[j as int]);
            assert(langs.take(j + 1) =~= langs.take(j as int).push(langs[j as int]));
        }
        j += 1;
    }
    assert(langs.take(j as int) =~= langs);
    res
}

} // verus!
