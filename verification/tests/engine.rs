use mtc_engine::date::Date;
use mtc_engine::date::Weekday;
use mtc_engine::items::ConstructionError;
use mtc_engine::items::Event;
use mtc_engine::items::Task;
use mtc_engine::items::Todo;
use mtc_engine::schedule::ScheduleSpec;
use mtc_engine::store::ItemStore;
use mtc_engine::store::NotFoundError;

fn date(y: u16, m: u8, d: u8) -> Date {
    Date::new(y, m, d).unwrap()
}

#[test]
fn add_returns_strictly_increasing_ids() {
    let mut store: ItemStore<Todo> = ItemStore::new();
    let a = store.add(Todo::new(String::from("a"), ScheduleSpec::Unscheduled));
    let b = store.add(Todo::new(String::from("b"), ScheduleSpec::Unscheduled));
    assert_eq!(a, 0);
    assert_eq!(b, 1);
    store.mark_removed(a).unwrap();
    let c = store.add(Todo::new(String::from("c"), ScheduleSpec::Unscheduled));
    assert_eq!(c, 2);
    assert!(a < b && b < c);
}

#[test]
fn mark_removed_is_idempotent() {
    let mut store: ItemStore<Todo> = ItemStore::new();
    let id = store.add(Todo::new(String::from("a"), ScheduleSpec::Unscheduled));
    store.add(Todo::new(String::from("b"), ScheduleSpec::Unscheduled));
    assert_eq!(store.mark_removed(id), Ok(()));
    let after_once: Vec<String> = store.items().iter().map(|t| t.body().to_string()).collect();
    assert_eq!(store.mark_removed(id), Ok(()));
    let after_twice: Vec<String> = store.items().iter().map(|t| t.body().to_string()).collect();
    assert_eq!(after_once, after_twice);
    assert_eq!(after_once, vec![String::from("b")]);
}

#[test]
fn mark_removed_unknown_id_fails_and_changes_nothing() {
    let mut store: ItemStore<Todo> = ItemStore::new();
    store.add(Todo::new(String::from("a"), ScheduleSpec::Unscheduled));
    assert_eq!(store.mark_removed(5), Err(NotFoundError));
    assert_eq!(store.len(), 1);
    assert_eq!(store.items().len(), 1);
    assert_eq!(store.items()[0].body(), "a");
}

#[test]
fn items_tracks_removal() {
    let mut store: ItemStore<Todo> = ItemStore::new();
    let a = store.add(Todo::new(String::from("a"), ScheduleSpec::Unscheduled));
    let b = store.add(Todo::new(String::from("b"), ScheduleSpec::Unscheduled));
    assert_eq!(store.items().len(), 2);
    store.mark_removed(a).unwrap();
    let bodies: Vec<String> = store.items().iter().map(|t| t.body().to_string()).collect();
    assert_eq!(bodies, vec![String::from("b")]);
    store.mark_removed(b).unwrap();
    assert!(store.items().is_empty());
}

#[test]
fn get_by_id_survives_removal() {
    let mut store: ItemStore<Todo> = ItemStore::new();
    let id = store.add(Todo::new(String::from("keep me"), ScheduleSpec::Unscheduled));
    store.mark_removed(id).unwrap();
    assert_eq!(store.get_by_id(id).unwrap().body(), "keep me");
    assert!(store.get_by_id(99).is_none());
}

#[test]
fn weekly_item_matches_every_date_of_its_weekday() {
    let mut store: ItemStore<Todo> = ItemStore::new();
    store.add(Todo::new(
        String::from("weekly"),
        ScheduleSpec::OnWeekday(Weekday::Tuesday),
    ));
    // Both 2024-03-05 and 2024-03-12 are Tuesdays; 2024-03-06 is a Wednesday.
    assert_eq!(store.items_for_date(date(2024, 3, 5)).len(), 1);
    assert_eq!(store.items_for_date(date(2024, 3, 12)).len(), 1);
    assert_eq!(store.items_for_date(date(2024, 3, 6)).len(), 0);
    assert_eq!(store.items_for_weekday(Weekday::Tuesday).len(), 1);
    assert_eq!(store.items_for_weekday(Weekday::Wednesday).len(), 0);
}

#[test]
fn dated_item_matches_its_date_and_its_weekday() {
    let mut store: ItemStore<Todo> = ItemStore::new();
    // 2024-03-05 is a Tuesday.
    store.add(Todo::new(
        String::from("dated"),
        ScheduleSpec::OnDate(date(2024, 3, 5)),
    ));
    assert_eq!(store.items_for_date(date(2024, 3, 5)).len(), 1);
    assert_eq!(store.items_for_weekday(Weekday::Tuesday).len(), 1);
    // The following Tuesday is not the item's date.
    assert_eq!(store.items_for_date(date(2024, 3, 12)).len(), 0);
    assert_eq!(store.items_for_weekday(Weekday::Wednesday).len(), 0);
}

#[test]
fn unscheduled_todo_listed_only_by_items() {
    let mut store: ItemStore<Todo> = ItemStore::new();
    store.add(Todo::new(String::from("floating"), ScheduleSpec::Unscheduled));
    assert_eq!(store.items().len(), 1);
    assert_eq!(store.items_for_date(date(2024, 3, 5)).len(), 0);
    assert_eq!(store.items_for_date(date(2024, 3, 8)).len(), 0);
    for n in 0..7 {
        let w = Weekday::from_number(n).unwrap();
        assert_eq!(store.items_for_weekday(w).len(), 0);
    }
}

#[test]
fn task_end_to_end() {
    let mut store: ItemStore<Task> = ItemStore::new();
    let task = Task::new(
        String::from("Write report"),
        30,
        ScheduleSpec::OnWeekday(Weekday::Friday),
    )
    .unwrap();
    let id = store.add(task);

    let on_friday = store.items_for_weekday(Weekday::Friday);
    assert_eq!(on_friday.len(), 1);
    assert_eq!(on_friday[0].body(), "Write report");
    assert_eq!(on_friday[0].duration(), 30);

    // 2024-03-05 is a Tuesday, not a Friday.
    assert_eq!(store.items_for_date(date(2024, 3, 5)).len(), 0);
    // 2024-03-08 is a Friday, so the weekly task applies.
    assert_eq!(store.items_for_date(date(2024, 3, 8)).len(), 1);

    store.mark_removed(id).unwrap();
    assert!(store.items().is_empty());
    let kept = store.get_by_id(id).unwrap();
    assert_eq!(kept.body(), "Write report");
    assert_eq!(kept.duration(), 30);
}

#[test]
fn weekday_of_known_dates() {
    assert_eq!(date(2024, 3, 5).weekday(), Weekday::Tuesday);
    assert_eq!(date(2024, 3, 8).weekday(), Weekday::Friday);
    assert_eq!(date(2000, 1, 1).weekday(), Weekday::Saturday);
    assert_eq!(date(2024, 2, 29).weekday(), Weekday::Thursday);
    assert_eq!(date(1970, 1, 1).weekday(), Weekday::Thursday);
}

#[test]
fn date_new_validates() {
    assert!(Date::new(2024, 2, 29).is_some());
    assert!(Date::new(2023, 2, 29).is_none());
    assert!(Date::new(2000, 2, 29).is_some());
    assert!(Date::new(1900, 2, 29).is_none());
    assert!(Date::new(2024, 0, 1).is_none());
    assert!(Date::new(2024, 13, 1).is_none());
    assert!(Date::new(2024, 4, 31).is_none());
    assert!(Date::new(2024, 1, 0).is_none());
    assert!(Date::new(0, 1, 1).is_none());
    assert!(Date::new(10000, 1, 1).is_none());
    let d = date(2024, 12, 31);
    assert_eq!((d.year(), d.month(), d.day()), (2024, 12, 31));
}

#[test]
fn weekday_numbering_round_trips() {
    for n in 0..7i64 {
        let w = Weekday::from_number(n).unwrap();
        assert_eq!(w.number() as i64, n);
    }
    assert!(Weekday::from_number(7).is_none());
    assert!(Weekday::from_number(-1).is_none());
    assert_eq!(Weekday::from_number(0), Some(Weekday::Monday));
    assert_eq!(Weekday::from_number(6), Some(Weekday::Sunday));
}

#[test]
fn construction_requires_a_day_where_the_kind_does() {
    assert_eq!(
        Task::new(String::from("t"), 5, ScheduleSpec::Unscheduled).unwrap_err(),
        ConstructionError::TaskUnscheduled
    );
    assert!(Task::new(String::from("t"), 5, ScheduleSpec::OnDate(date(2024, 3, 5))).is_ok());
    assert!(Task::new(String::from("t"), 5, ScheduleSpec::OnWeekday(Weekday::Monday)).is_ok());

    assert_eq!(
        Event::new(String::from("e"), ScheduleSpec::Unscheduled).unwrap_err(),
        ConstructionError::EventWithoutDate
    );
    assert_eq!(
        Event::new(String::from("e"), ScheduleSpec::OnWeekday(Weekday::Monday)).unwrap_err(),
        ConstructionError::EventWithoutDate
    );
    let e = Event::new(String::from("e"), ScheduleSpec::OnDate(date(2024, 3, 5))).unwrap();
    assert_eq!(e.date(), date(2024, 3, 5));
}

#[test]
fn display_strings_render_canonically() {
    let todo = Todo::new(String::from("Buy milk"), ScheduleSpec::Unscheduled);
    assert_eq!(todo.display_string(), "Buy milk (unscheduled)");

    let todo2 = Todo::new(
        String::from("Water plants"),
        ScheduleSpec::OnWeekday(Weekday::Wednesday),
    );
    assert_eq!(todo2.display_string(), "Water plants (every Wednesday)");

    let task = Task::new(
        String::from("Write report"),
        30,
        ScheduleSpec::OnWeekday(Weekday::Friday),
    )
    .unwrap();
    assert_eq!(task.display_string(), "Write report (30 min, every Friday)");

    let event = Event::new(String::from("Party"), ScheduleSpec::OnDate(date(2024, 3, 5))).unwrap();
    assert_eq!(event.display_string(), "Party (on 2024-03-05)");

    let old = Event::new(String::from("Coronation"), ScheduleSpec::OnDate(date(800, 12, 25)))
        .unwrap();
    assert_eq!(old.display_string(), "Coronation (on 800-12-25)");

    let zero = Task::new(String::from("Blink"), 0, ScheduleSpec::OnWeekday(Weekday::Monday))
        .unwrap();
    assert_eq!(zero.display_string(), "Blink (0 min, every Monday)");
}

#[test]
fn id_queries_mirror_item_queries() {
    let mut store: ItemStore<Todo> = ItemStore::new();
    let a = store.add(Todo::new(String::from("a"), ScheduleSpec::Unscheduled));
    let b = store.add(Todo::new(
        String::from("b"),
        ScheduleSpec::OnWeekday(Weekday::Tuesday),
    ));
    let c = store.add(Todo::new(
        String::from("c"),
        ScheduleSpec::OnDate(date(2024, 3, 5)),
    ));
    assert_eq!(store.ids(), vec![a, b, c]);
    assert_eq!(store.ids_for_date(date(2024, 3, 5)), vec![b, c]);
    assert_eq!(store.ids_for_weekday(Weekday::Tuesday), vec![b, c]);
    assert_eq!(store.ids_for_weekday(Weekday::Monday), Vec::<usize>::new());
    store.mark_removed(b).unwrap();
    assert_eq!(store.ids(), vec![a, c]);
    assert_eq!(store.ids_for_date(date(2024, 3, 5)), vec![c]);
}

#[test]
fn items_keep_insertion_order() {
    let mut store: ItemStore<Todo> = ItemStore::new();
    for name in ["first", "second", "third", "fourth"] {
        store.add(Todo::new(String::from(name), ScheduleSpec::Unscheduled));
    }
    store.mark_removed(1).unwrap();
    let bodies: Vec<String> = store.items().iter().map(|t| t.body().to_string()).collect();
    assert_eq!(
        bodies,
        vec![
            String::from("first"),
            String::from("third"),
            String::from("fourth")
        ]
    );
}

#[test]
fn three_stores_coexist_independently() {
    let mut todos: ItemStore<Todo> = ItemStore::new();
    let mut tasks: ItemStore<Task> = ItemStore::new();
    let mut events: ItemStore<Event> = ItemStore::new();

    let t = todos.add(Todo::new(String::from("todo"), ScheduleSpec::Unscheduled));
    let k = tasks.add(
        Task::new(String::from("task"), 10, ScheduleSpec::OnWeekday(Weekday::Monday)).unwrap(),
    );
    let e = events.add(
        Event::new(String::from("event"), ScheduleSpec::OnDate(date(2024, 3, 5))).unwrap(),
    );
    assert_eq!((t, k, e), (0, 0, 0));

    todos.mark_removed(t).unwrap();
    assert!(todos.items().is_empty());
    assert_eq!(tasks.items().len(), 1);
    assert_eq!(events.items().len(), 1);
}
