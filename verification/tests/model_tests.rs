use chrono::{NaiveDate, NaiveDateTime};
use rust_bench_playpen::db_models::{Item, NewItem};

fn instant(day: u32, milli: u32) -> NaiveDateTime {
    NaiveDate::from_ymd_opt(2024, 2, day).unwrap().and_hms_milli_opt(23, 59, 58, milli).unwrap()
}

#[test]
fn stamped_row_carries_one_instant_twice() {
    let id: i64 = 123456789;
    let now = instant(29, 999);
    let row = NewItem::stamped(&id, "test_insert_item", &now);
    assert_eq!(*row.id, 123456789);
    assert_eq!(row.event, "test_insert_item");
    assert_eq!(*row.c_time, instant(29, 999));
    assert_eq!(*row.m_time, instant(29, 999));
    assert_eq!(row.c_time, row.m_time);
}

#[test]
fn stamped_row_keeps_an_empty_event_and_extreme_ids() {
    let now = instant(1, 0);
    for id in [i64::MIN, -1, 0, 1, i64::MAX] {
        let row = NewItem::stamped(&id, "", &now);
        assert_eq!(*row.id, id);
        assert_eq!(row.event, "");
    }
}

#[test]
fn item_of_a_row_is_column_for_column_the_row() {
    let id: i64 = 9;
    let created = instant(3, 1);
    let modified = instant(4, 2);
    let row = NewItem { id: &id, event: "moved", c_time: &created, m_time: &modified };
    let item: Item = row.to_item();
    assert_eq!(item.id, 9);
    assert_eq!(item.event, "moved");
    assert_eq!(item.c_time, instant(3, 1));
    assert_eq!(item.m_time, instant(4, 2));
}

#[test]
fn item_of_a_stamped_row_was_never_modified() {
    let id: i64 = -40;
    let now = instant(10, 500);
    let item = NewItem::stamped(&id, "fresh", &now).to_item();
    assert_eq!(item.id, -40);
    assert_eq!(item.event, "fresh");
    assert_eq!(item.c_time, item.m_time);
    assert_eq!(item.c_time, instant(10, 500));
}
