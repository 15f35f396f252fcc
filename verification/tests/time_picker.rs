use clockking::format::format_naive_time;
use clockking::granularity::{normalize, Granularity};
use clockking::time::TimeOfDay;
use clockking::time_picker::{
    daily_clock_entries, daily_slots, now, now_naive_time, parse_time, slot_count, slot_index,
    slot_time, time_picker_selection, try_parse_time,
};

fn from_hms(hour: u32, minute: u32, second: u32) -> TimeOfDay {
    TimeOfDay::from_hms(hour, minute, second).unwrap()
}

const ALL: [Granularity; 6] = [
    Granularity::Relaxed,
    Granularity::Reasonable,
    Granularity::Detailed,
    Granularity::Paranoid,
    Granularity::Ocd,
    Granularity::Scientific,
];

#[test]
fn parse_time_relaxed() {
    (0..24).for_each(|hour| {
        (0..60).for_each(move |minute| {
            assert_eq!(
                parse_time(
                    Granularity::Relaxed,
                    format!("{:02$}:{:02$}", hour, minute, 2).as_str()
                ),
                from_hms(hour, 0, 0)
            )
        })
    });
}

#[test]
fn parse_time_reasonable() {
    (0..24).for_each(|hour| {
        (0..60).for_each(move |minute| {
            assert_eq!(
                parse_time(
                    Granularity::Reasonable,
                    format!("{:02$}:{:02$}", hour, minute, 2).as_str()
                ),
                from_hms(hour, minute / 30 * 30, 0)
            )
        })
    });
}

#[test]
fn parse_time_detailed() {
    (0..24).for_each(|hour| {
        (0..60).for_each(move |minute| {
            assert_eq!(
                parse_time(
                    Granularity::Detailed,
                    format!("{:02$}:{:02$}", hour, minute, 2).as_str()
                ),
                from_hms(hour, minute / 15 * 15, 0)
            )
        })
    });
}

#[test]
fn parse_time_paranoid() {
    (0..24).for_each(|hour| {
        (0..60).for_each(move |minute| {
            assert_eq!(
                parse_time(
                    Granularity::Paranoid,
                    format!("{:02$}:{:02$}", hour, minute, 2).as_str()
                ),
                from_hms(hour, minute / 5 * 5, 0)
            )
        })
    });
}

#[test]
fn parse_time_ocd() {
    (0..24).for_each(|hour| {
        (0..60).for_each(move |minute| {
            assert_eq!(
                parse_time(Granularity::Ocd, format!("{:02$}:{:02$}", hour, minute, 2).as_str()),
                from_hms(hour, minute, 0)
            )
        })
    });
}

#[test]
fn parse_time_scientific() {
    (0..24).for_each(|hour| {
        (0..60).for_each(move |minute| {
            (0..60).for_each(move |second| {
                assert_eq!(
                    parse_time(
                        Granularity::Scientific,
                        format!("{:03$}:{:03$}:{:03$}", hour, minute, second, 2).as_str()
                    ),
                    from_hms(hour, minute, second)
                )
            })
        })
    });
}

#[test]
fn daily_clock_entries_relaxed() {
    assert_eq!(
        daily_clock_entries(Granularity::Relaxed),
        (0..24).map(|hour| { format!("{:01$}:00", hour, 2) }).collect::<Vec<String>>()
    );
}

#[test]
fn daily_clock_entries_reasonable() {
    assert_eq!(
        daily_clock_entries(Granularity::Reasonable),
        (0..24)
            .flat_map(|hour| {
                [0, 30]
                    .iter()
                    .map(|minute| format!("{:02$}:{:02$}", hour, minute, 2))
                    .collect::<Vec<String>>()
            })
            .collect::<Vec<String>>()
    );
}

#[test]
fn daily_clock_entries_detailed() {
    assert_eq!(
        daily_clock_entries(Granularity::Detailed),
        (0..24)
            .flat_map(|hour| {
                [0, 15, 30, 45]
                    .iter()
                    .map(|minute| format!("{:02$}:{:02$}", hour, minute, 2))
                    .collect::<Vec<String>>()
            })
            .collect::<Vec<String>>()
    );
}

#[test]
fn daily_clock_entries_paranoid() {
    assert_eq!(
        daily_clock_entries(Granularity::Paranoid),
        (0..24)
            .flat_map(|hour| {
                [0, 5, 10, 15, 20, 25, 30, 35, 40, 45, 50, 55]
                    .iter()
                    .map(|minute| format!("{:02$}:{:02$}", hour, minute, 2))
                    .collect::<Vec<String>>()
            })
            .collect::<Vec<String>>()
    );
}

#[test]
fn daily_clock_entries_ocd() {
    assert_eq!(
        daily_clock_entries(Granularity::Ocd),
        (0..24)
            .flat_map(|hour| {
                (0..60)
                    .map(|minute| format!("{:02$}:{:02$}", hour, minute, 2))
                    .collect::<Vec<String>>()
            })
            .collect::<Vec<String>>()
    );
}

#[test]
fn daily_clock_entries_scientific() {
    assert_eq!(
        daily_clock_entries(Granularity::Scientific),
        (0..24)
            .flat_map(|hour| {
                (0..60)
                    .flat_map(|minute| {
                        (0..60)
                            .map(|second| {
                                format!("{:03$}:{:03$}:{:03$}", hour, minute, second, 2)
                            })
                            .collect::<Vec<String>>()
                    })
                    .collect::<Vec<String>>()
            })
            .collect::<Vec<String>>()
    );
}

#[test]
fn daily_slots_of_hour_ten_under_reasonable() {
    let slots = daily_slots(Granularity::Reasonable);
    let of_ten: Vec<TimeOfDay> = slots.iter().filter(|it| it.hour == 10).cloned().collect();
    assert_eq!(of_ten, vec![from_hms(10, 0, 0), from_hms(10, 30, 0)]);
    let texts = daily_clock_entries(Granularity::Reasonable);
    assert_eq!(&texts[20..22], ["10:00", "10:30"]);
}

#[test]
fn daily_slots_are_counted_ascending_and_floored() {
    let counts: Vec<usize> = ALL.iter().map(|it| slot_count(*it)).collect();
    assert_eq!(counts, vec![24, 48, 96, 288, 1440, 86_400]);
    for granularity in ALL {
        let slots = daily_slots(granularity);
        assert_eq!(slots.len(), slot_count(granularity));
        assert_eq!(slots[0], from_hms(0, 0, 0));
        for (index, slot) in slots.iter().enumerate() {
            assert_eq!(*slot, slot_time(granularity, index));
            assert_eq!(normalize(*slot, granularity), *slot);
            assert_eq!(
                slot.seconds_from_midnight(),
                index as i64 * granularity.step_seconds() as i64
            );
            assert_eq!(slot_index(granularity, *slot), index);
        }
        assert_eq!(daily_slots(granularity), slots);
    }
    assert_eq!(*daily_slots(Granularity::Scientific).last().unwrap(), from_hms(23, 59, 59));
    assert_eq!(*daily_slots(Granularity::Relaxed).last().unwrap(), from_hms(23, 0, 0));
}

#[test]
fn selection_points_at_the_text_of_the_time() {
    for granularity in ALL {
        let texts = daily_clock_entries(granularity);
        for (hour, minute, second) in [(0, 0, 0), (9, 7, 42), (10, 22, 10), (23, 59, 59)] {
            let it = from_hms(hour, minute, second);
            let chosen = time_picker_selection(Some(it), from_hms(1, 1, 1), granularity);
            assert_eq!(texts[chosen], format_naive_time(granularity, it));
            assert_eq!(
                texts.iter().position(|text| *text == format_naive_time(granularity, it)),
                Some(chosen)
            );
            let fallback = time_picker_selection(None, it, granularity);
            assert_eq!(fallback, chosen);
        }
    }
    assert_eq!(
        time_picker_selection(Some(from_hms(9, 7, 42)), from_hms(0, 0, 0), Granularity::Detailed),
        36
    );
}

#[test]
fn try_parse_time_tells_failure_from_success() {
    assert_eq!(try_parse_time(Granularity::Detailed, "09:07"), Some(from_hms(9, 0, 0)));
    assert_eq!(try_parse_time(Granularity::Ocd, "7:15"), Some(from_hms(7, 15, 0)));
    assert_eq!(try_parse_time(Granularity::Scientific, "23:59:59"), Some(from_hms(23, 59, 59)));
    assert_eq!(try_parse_time(Granularity::Scientific, "23:59:60"), Some(from_hms(23, 59, 59)));
    assert_eq!(try_parse_time(Granularity::Scientific, "09:07"), None);
    assert_eq!(try_parse_time(Granularity::Detailed, "09:07:42"), None);
    assert_eq!(try_parse_time(Granularity::Detailed, "24:00"), None);
    assert_eq!(try_parse_time(Granularity::Detailed, "17:60"), None);
    assert_eq!(try_parse_time(Granularity::Detailed, ""), None);
    assert_eq!(try_parse_time(Granularity::Detailed, "noon"), None);
}

#[test]
fn parse_time_reads_back_every_text_of_the_day() {
    for granularity in ALL {
        let slots = daily_slots(granularity);
        let texts = daily_clock_entries(granularity);
        for (slot, text) in slots.iter().zip(texts.iter()).step_by(7) {
            assert_eq!(parse_time(granularity, text), *slot);
        }
    }
}

#[test]
fn now_is_a_floored_time_of_the_day() {
    for granularity in ALL {
        let it = now_naive_time(granularity);
        assert!(it.hour < 24 && it.minute < 60 && it.second < 60);
        assert_eq!(normalize(it, granularity), it);
        let text = now(granularity);
        assert!(daily_clock_entries(granularity).contains(&text));
    }
}
