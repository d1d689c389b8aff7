use meta_timer::category::Category;
use meta_timer::meta::{MapMeta, MapMetaKind};
use meta_timer::schedule::EventSchedule;

fn hourly() -> EventSchedule {
    EventSchedule { name: "Reoccurring event", offset: 20, frequency: 60, length: 15 }
}

fn daily(offset: u32) -> EventSchedule {
    EventSchedule { name: "Daily", offset, frequency: 24 * 60, length: 30 }
}

fn starts_of(meta: MapMeta, from: i64, n: usize) -> Vec<(&'static str, i64)> {
    let mut it = meta.into_iter().time(from);
    let mut out = Vec::new();
    for _ in 0..n {
        let e = it.next().unwrap();
        out.push((e.schedule.name, e.start_time));
    }
    out
}

#[test]
fn steps_are_strictly_increasing_and_one_period_apart() {
    for from in [-1000i64, -61, -60, -1, 0, 7, 20, 21, 59, 60, 1000] {
        let mut it = hourly().into_iter().time(from);
        let first = it.next().unwrap().start_time;
        assert!(first > from);
        assert!(first - from <= 60);
        assert_eq!(first.rem_euclid(60), 20);
        let mut last = first;
        for _ in 0..5 {
            let s = it.next().unwrap().start_time;
            assert_eq!(s, last + 60);
            last = s;
        }
    }
}

#[test]
fn step_is_strictly_after_the_cursor() {
    let s = EventSchedule { name: "At midnight", offset: 0, frequency: 120, length: 15 };
    assert_eq!(s.into_iter().next().unwrap().start_time, 120);
    assert_eq!(s.into_iter().time(-1).next().unwrap().start_time, 0);
    assert_eq!(s.next_occurrence(119).start_time, 120);
}

#[test]
fn active_occurrence_contains_the_cursor_and_is_stepped_onto() {
    let s = hourly();
    for t in -200i64..400 {
        if let Some(inst) = s.into_iter().time(t).now() {
            assert!(inst.start_time <= t && t < inst.start_time + 15);
            let next = s.into_iter().time(inst.start_time - 1).next().unwrap();
            assert_eq!(next.start_time, inst.start_time);
        }
    }
}

#[test]
fn now_at_the_edges_of_an_occurrence() {
    let it = hourly().into_iter();
    assert!(it.clone().time(19).now().is_none());
    assert_eq!(it.clone().time(20).now().unwrap().start_time, 20);
    assert_eq!(it.clone().time(34).now().unwrap().start_time, 20);
    assert!(it.clone().time(35).now().is_none());
    assert_eq!(it.clone().time(80).now().unwrap().start_time, 80);
}

#[test]
fn scenario_next_then_fast_forward() {
    let mut it = hourly().into_iter().time(0);
    assert_eq!(it.next().unwrap().start_time, 20);
    assert_eq!(it.next().unwrap().start_time, 80);
    let mut it = it.fast_forward(45);
    assert_eq!(it.next().unwrap().start_time, 140);
    assert_eq!(it.next().unwrap().start_time, 200);
}

#[test]
fn time_overrides_earlier_moves() {
    let base = hourly().into_iter();
    for t in [0i64, 19, 20, 34, 35, -40] {
        let direct = base.clone().time(t).now().map(|e| e.start_time);
        let moved = base.clone().fast_forward(1234).fast_forward(-77).time(t).now().map(|e| e.start_time);
        assert_eq!(direct, moved);
    }
    let meta = || MapMetaKind::LeyLineAnomaly.into_iter();
    let direct = meta().time(20).now().map(|e| e.start_time);
    let moved = meta().fast_forward(500).time(20).now().map(|e| e.start_time);
    assert_eq!(direct, Some(20));
    assert_eq!(direct, moved);
}

#[test]
fn negative_cursor_resolves_like_one_day_later() {
    let s = daily(23 * 60 + 50);
    let before = s.into_iter().time(-1).now().unwrap().start_time;
    let after = s.into_iter().time(24 * 60 - 1).now().unwrap().start_time;
    assert_eq!(before, -10);
    assert_eq!(after, before + 24 * 60);
    let next_before = s.into_iter().time(-1).next().unwrap().start_time;
    let next_after = s.into_iter().time(24 * 60 - 1).next().unwrap().start_time;
    assert_eq!(next_before, 23 * 60 + 50);
    assert_eq!(next_after, next_before + 24 * 60);
}

#[test]
fn floor_division_on_negative_cursor() {
    let s = daily(23 * 60);
    // -60 lies 1380 minutes into the day before, inside the occurrence that starts at -60.
    assert_eq!(s.into_iter().time(-60).now().unwrap().start_time, -60);
    assert_eq!(s.into_iter().time(-60).next().unwrap().start_time, 23 * 60);
    assert_eq!(s.into_iter().fast_forward(-61).next().unwrap().start_time, -60);
}

#[test]
fn scenario_meta_interleaves_two_schedules() {
    let meta = || MapMeta {
        name: "Pair",
        category: Category::CoreTyria,
        schedules: vec![
            EventSchedule { name: "A", offset: 0, frequency: 120, length: 15 },
            EventSchedule { name: "B", offset: 30, frequency: 120, length: 15 },
        ],
    };
    assert_eq!(starts_of(meta(), -1, 4), vec![("A", 0), ("B", 30), ("A", 120), ("B", 150)]);
    // From the cursor at 0 itself, A's occurrence at 0 is not after the cursor.
    assert_eq!(starts_of(meta(), 0, 4), vec![("B", 30), ("A", 120), ("B", 150), ("A", 240)]);
}

#[test]
fn meta_run_is_the_ordered_union_of_its_members() {
    let info = MapMetaKind::WorldBosses.info();
    let from: i64 = 8 * 60 + 41;
    let steps = starts_of(MapMetaKind::WorldBosses.info(), from, 40);
    for w in steps.windows(2) {
        assert!(w[0].1 < w[1].1);
    }
    let last = steps.last().unwrap().1;
    let mut expected = Vec::new();
    for s in info.schedules.iter() {
        let mut it = s.into_iter().time(from);
        loop {
            let e = it.next().unwrap();
            if e.start_time > last {
                break;
            }
            expected.push((e.schedule.name, e.start_time));
        }
    }
    expected.sort_by_key(|e| e.1);
    assert_eq!(steps, expected);
}

#[test]
fn meta_tie_goes_to_the_first_listed() {
    let meta = MapMeta {
        name: "Tie",
        category: Category::CoreTyria,
        schedules: vec![
            EventSchedule { name: "First", offset: 10, frequency: 60, length: 5 },
            EventSchedule { name: "Second", offset: 10, frequency: 60, length: 5 },
        ],
    };
    let mut it = meta.into_iter();
    let e = it.next().unwrap();
    assert_eq!((e.schedule.name, e.start_time), ("First", 10));
    let e = it.next().unwrap();
    assert_eq!((e.schedule.name, e.start_time), ("First", 70));
}

#[test]
fn meta_now_reports_the_first_listed_match() {
    let meta = || MapMeta {
        name: "Overlap",
        category: Category::CoreTyria,
        schedules: vec![
            EventSchedule { name: "Short", offset: 10, frequency: 60, length: 5 },
            EventSchedule { name: "Long", offset: 0, frequency: 60, length: 30 },
        ],
    };
    assert_eq!(meta().into_iter().time(12).now().unwrap().schedule.name, "Short");
    assert_eq!(meta().into_iter().time(16).now().unwrap().schedule.name, "Long");
    assert!(meta().into_iter().time(30).now().is_none());
}

#[test]
fn long_occurrence_wraps_past_its_period() {
    let s = EventSchedule { name: "Long", offset: 90, frequency: 120, length: 75 };
    assert_eq!(s.into_iter().time(100).now().unwrap().start_time, 90);
    // 130 is 10 minutes into the next period, before the offset: not reported.
    assert!(s.into_iter().time(130).now().is_none());
}

#[test]
fn borrowed_cursor_matches_owned_cursor() {
    let s = hourly();
    let mut a = s.iter().time(33);
    let mut b = s.into_iter().time(33);
    for _ in 0..4 {
        assert_eq!(a.next().unwrap().start_time, b.next().unwrap().start_time);
    }
    assert_eq!(a.now().map(|e| e.start_time), b.now().map(|e| e.start_time));
}

#[test]
fn constructor_rejects_malformed_schedules() {
    assert!(EventSchedule::new("ok", 20, 60, 15).is_some());
    assert!(EventSchedule::new("no period", 0, 0, 15).is_none());
    assert!(EventSchedule::new("no length", 20, 60, 0).is_none());
    assert!(EventSchedule::new("late offset", 60, 60, 15).is_none());
    let s = EventSchedule::new("ok", 20, 60, 15).unwrap();
    assert_eq!((s.name, s.offset, s.frequency, s.length), ("ok", 20, 60, 15));
}

#[test]
fn large_cursor_far_from_the_reference_zero() {
    let s = hourly();
    let t: i64 = 60 * 10_000_000_000;
    let start = s.into_iter().time(t).next().unwrap().start_time;
    assert_eq!(start, t + 20);
    let t: i64 = -60 * 10_000_000_000;
    assert_eq!(s.into_iter().time(t).next().unwrap().start_time, t + 20);
}

#[test]
fn all_keys_lists_every_meta_once() {
    let keys = MapMetaKind::all_keys();
    assert_eq!(keys.len(), 27);
    assert_eq!(keys[0], MapMetaKind::DayAndNight);
    assert_eq!(keys[26], MapMetaKind::DragonsEnd);
    for (i, a) in keys.iter().enumerate() {
        for b in keys.iter().skip(i + 1) {
            assert_ne!(a, b);
        }
    }
}

#[test]
fn catalog_entries_can_be_run() {
    for key in MapMetaKind::all_keys() {
        let info = key.info();
        assert!(!info.schedules.is_empty());
        for s in info.schedules.iter() {
            assert!(s.frequency > 0 && s.length > 0);
        }
        let mut it = key.into_iter();
        let a = it.next().unwrap().start_time;
        let b = it.next().unwrap().start_time;
        assert!(0 < a && a <= b);
    }
    let doric = MapMetaKind::LakeDoric.info();
    assert_eq!(doric.name, "Lake Doric");
    assert_eq!(doric.category, Category::LivingWorldSeason3);
}

#[test]
fn mutably_borrowed_cursor_steps_like_the_others() {
    let mut s = hourly();
    let mut it = s.iter_mut().time(33);
    assert_eq!(it.next().unwrap().start_time, 80);
    assert_eq!(it.now().unwrap().start_time, 80);
    let mut it = it.fast_forward(-60);
    assert_eq!(it.current_time(), 20);
    assert_eq!(it.next().unwrap().start_time, 80);
}

#[test]
fn empty_group_has_nothing_active() {
    let meta = MapMeta { name: "Empty", category: Category::CoreTyria, schedules: Vec::new() };
    assert!(meta.into_iter().time(20).now().is_none());
}

#[test]
fn catalog_lengths_fit_their_periods() {
    for key in MapMetaKind::all_keys() {
        for s in key.info().schedules.iter() {
            assert!(s.length <= s.frequency);
        }
    }
}

#[test]
fn catalog_offsets_lie_within_the_first_period() {
    for key in MapMetaKind::all_keys() {
        for s in key.info().schedules.iter() {
            assert!(s.offset < s.frequency);
            assert!(EventSchedule::new(s.name, s.offset, s.frequency, s.length).is_some());
        }
    }
}

#[test]
fn verdant_brink_night_bosses_follow_the_night() {
    let now = MapMetaKind::VerdantBrink.into_iter().time(10).now().unwrap();
    assert_eq!((now.schedule.name, now.start_time), ("Night Bosses", 10));
    let mut it = MapMetaKind::VerdantBrink.into_iter().time(0);
    let e = it.next().unwrap();
    assert_eq!((e.schedule.name, e.start_time), ("Night Bosses", 10));
}
