use prog_rs::clock::ProgressClock;
use prog_rs::clock::DEFAULT_SIZE;
use prog_rs::render::add_clock;
use prog_rs::render::check_tick;
use prog_rs::render::clock_exists;
use prog_rs::render::clock_index;
use prog_rs::render::fill_color;
use prog_rs::render::remove_clock;
use prog_rs::render::title_color;
use prog_rs::render::wedge_fills;
use prog_rs::render::WedgeFill;
use prog_rs::render::CLOCK_COLOR;
use prog_rs::render::NEGATIVE_TICK_COLOR;
use prog_rs::render::POSITIVE_TICK_COLOR;
use prog_rs::storage::export_link;
use prog_rs::storage::import_clocks;
use prog_rs::storage::load_clocks;

fn clock(id: &str, name: &str, positive: bool, size: i32, ticks: i32) -> ProgressClock {
    ProgressClock { id: id.to_string(), name: name.to_string(), positive, size, ticks }
}

fn ids(clocks: &Vec<ProgressClock>) -> Vec<String> {
    clocks.iter().map(|c| c.id.clone()).collect()
}

fn same_clock(a: &ProgressClock, b: &ProgressClock) -> bool {
    a.id == b.id && a.name == b.name && a.positive == b.positive && a.size == b.size && a.ticks == b.ticks
}

#[test]
fn new_clock_is_untitled_empty_and_of_default_size() {
    let c = ProgressClock::new("c1".to_string(), "", false);
    assert_eq!(c.get_id(), "c1");
    assert_eq!(c.get_name(), "");
    assert!(!c.is_positive());
    assert_eq!(c.get_size(), DEFAULT_SIZE);
    assert_eq!(c.get_size(), 4);
    assert_eq!(c.get_ticks(), 0);
}

#[test]
fn set_name_changes_only_the_name() {
    let mut c = clock("a", "old", true, 6, 2);
    c.set_name("Heist");
    assert!(same_clock(&c, &clock("a", "Heist", true, 6, 2)));
}

#[test]
fn enlarge_adds_one_wedge() {
    let mut c = clock("a", "", true, 4, 3);
    c.enlarge();
    assert!(same_clock(&c, &clock("a", "", true, 5, 3)));
    let mut full = clock("b", "", true, i32::MAX, 1);
    full.enlarge();
    assert_eq!(full.size, i32::MAX);
}

#[test]
fn reduce_takes_a_wedge_and_cuts_the_fill() {
    let mut c = clock("a", "", true, 4, 4);
    c.reduce();
    assert!(same_clock(&c, &clock("a", "", true, 3, 3)));
    let mut partly = clock("b", "", false, 6, 2);
    partly.reduce();
    assert!(same_clock(&partly, &clock("b", "", false, 5, 2)));
    let mut one = clock("c", "", true, 1, 1);
    one.reduce();
    assert!(same_clock(&one, &clock("c", "", true, 1, 1)));
}

#[test]
fn process_click_fills_up_to_the_wedge() {
    let mut c = clock("a", "n", true, 8, 1);
    c.process_click(5);
    assert!(same_clock(&c, &clock("a", "n", true, 8, 5)));
}

#[test]
fn clock_exists_and_clock_index_find_the_first_match() {
    let clocks = vec![clock("a", "", true, 4, 0), clock("b", "", true, 4, 0), clock("b", "x", false, 4, 0)];
    assert!(clock_exists(&"b".to_string(), &clocks));
    assert!(!clock_exists(&"c".to_string(), &clocks));
    assert_eq!(clock_index(&"b".to_string(), &clocks), Some(1));
    assert_eq!(clock_index(&"a".to_string(), &clocks), Some(0));
    assert_eq!(clock_index(&"z".to_string(), &clocks), None);
    assert_eq!(clock_index(&"a".to_string(), &Vec::new()), None);
}

#[test]
fn add_clock_appends_a_given_clock_with_a_new_id() {
    let mut clocks = vec![clock("a", "", true, 4, 0)];
    let added = add_clock(&mut clocks, Some(clock("b", "B", false, 6, 2)), String::new(), true);
    assert!(added);
    assert_eq!(ids(&clocks), vec!["a", "b"]);
    assert!(same_clock(&clocks[1], &clock("b", "B", false, 6, 2)));
}

#[test]
fn add_clock_ignores_a_clock_whose_id_is_there() {
    let mut clocks = vec![clock("a", "first", true, 4, 1)];
    let added = add_clock(&mut clocks, Some(clock("a", "second", false, 8, 3)), String::new(), false);
    assert!(!added);
    assert_eq!(clocks.len(), 1);
    assert!(same_clock(&clocks[0], &clock("a", "first", true, 4, 1)));
}

#[test]
fn add_clock_without_a_clock_creates_a_new_one() {
    let mut clocks = vec![clock("a", "", true, 4, 0)];
    let added = add_clock(&mut clocks, None, "fresh".to_string(), false);
    assert!(added);
    assert_eq!(clocks.len(), 2);
    assert!(same_clock(&clocks[1], &clock("fresh", "", false, DEFAULT_SIZE, 0)));
    let positive = add_clock(&mut clocks, None, "other".to_string(), true);
    assert!(positive);
    assert!(clocks[2].positive);
}

#[test]
fn remove_clock_removes_every_clock_with_the_id_and_keeps_order() {
    let mut clocks = vec![
        clock("a", "", true, 4, 0),
        clock("b", "", true, 4, 0),
        clock("c", "", true, 4, 0),
        clock("b", "", false, 6, 1),
        clock("d", "", true, 4, 0),
    ];
    remove_clock(&mut clocks, &"b".to_string());
    assert_eq!(ids(&clocks), vec!["a", "c", "d"]);
    remove_clock(&mut clocks, &"zzz".to_string());
    assert_eq!(ids(&clocks), vec!["a", "c", "d"]);
    remove_clock(&mut clocks, &"a".to_string());
    remove_clock(&mut clocks, &"d".to_string());
    remove_clock(&mut clocks, &"c".to_string());
    assert!(clocks.is_empty());
}

#[test]
fn removing_a_just_added_clock_restores_the_page() {
    let mut clocks = vec![clock("a", "x", true, 4, 1), clock("b", "y", false, 6, 2)];
    add_clock(&mut clocks, Some(clock("n", "", true, 4, 0)), String::new(), true);
    remove_clock(&mut clocks, &"n".to_string());
    assert_eq!(ids(&clocks), vec!["a", "b"]);
    add_clock(&mut clocks, None, "m".to_string(), false);
    remove_clock(&mut clocks, &"m".to_string());
    assert_eq!(ids(&clocks), vec!["a", "b"]);
    assert!(same_clock(&clocks[0], &clock("a", "x", true, 4, 1)));
    assert!(same_clock(&clocks[1], &clock("b", "y", false, 6, 2)));
    assert!(!clock_exists(&"m".to_string(), &clocks));
}

#[test]
fn import_adds_clocks_in_order_and_skips_known_ids() {
    let mut clocks = vec![clock("a", "", true, 4, 0)];
    let imported = vec![
        clock("b", "", true, 4, 0),
        clock("a", "dup", false, 4, 0),
        clock("c", "", false, 8, 3),
        clock("b", "dup", false, 4, 0),
    ];
    let added = import_clocks(&mut clocks, &imported);
    assert_eq!(added, 2);
    assert_eq!(ids(&clocks), vec!["a", "b", "c"]);
    assert!(same_clock(&clocks[0], &clock("a", "", true, 4, 0)));
    assert!(same_clock(&clocks[2], &clock("c", "", false, 8, 3)));
}

#[test]
fn importing_twice_is_importing_once() {
    let mut clocks = vec![clock("a", "", true, 4, 0)];
    let imported = vec![clock("b", "", true, 4, 0), clock("c", "", false, 6, 1)];
    assert_eq!(import_clocks(&mut clocks, &imported), 2);
    assert_eq!(import_clocks(&mut clocks, &imported), 0);
    assert_eq!(ids(&clocks), vec!["a", "b", "c"]);
}

#[test]
fn exported_clocks_come_back_into_an_empty_page() {
    let exported = vec![clock("x", "one", true, 4, 2), clock("y", "two", false, 12, 7)];
    let mut page = Vec::new();
    assert_eq!(import_clocks(&mut page, &exported), 2);
    assert_eq!(page.len(), 2);
    assert!(same_clock(&page[0], &exported[0]));
    assert!(same_clock(&page[1], &exported[1]));
}

#[test]
fn load_clocks_adds_stored_clocks_only_when_some_were_stored() {
    let mut clocks = vec![clock("a", "", true, 4, 0)];
    assert_eq!(load_clocks(&mut clocks, None), 0);
    assert_eq!(ids(&clocks), vec!["a"]);
    let stored = vec![clock("a", "", true, 4, 0), clock("s", "", true, 4, 0)];
    assert_eq!(load_clocks(&mut clocks, Some(stored)), 1);
    assert_eq!(ids(&clocks), vec!["a", "s"]);
}

#[test]
fn export_link_is_a_plain_text_data_url() {
    assert_eq!(export_link("[]"), "data:text/plain;charset=utf-8,[]");
    assert_eq!(
        export_link("[{\"id\":\"a\"}]"),
        "data:text/plain;charset=utf-8,[{\"id\":\"a\"}]"
    );
    assert_eq!(export_link(""), "data:text/plain;charset=utf-8,");
}

#[test]
fn check_tick_reports_the_first_wedge_hit_counted_from_one() {
    assert_eq!(check_tick(&vec![false, true, true, false]), Some(2));
    assert_eq!(check_tick(&vec![true, false]), Some(1));
    assert_eq!(check_tick(&vec![false, false, false, true]), Some(4));
    assert_eq!(check_tick(&vec![false, false]), None);
    assert_eq!(check_tick(&Vec::new()), None);
}

#[test]
fn wedge_fills_fill_the_first_ticks_wedges() {
    let positive = clock("a", "", true, 4, 2);
    assert_eq!(
        wedge_fills(&positive),
        vec![WedgeFill::Positive, WedgeFill::Positive, WedgeFill::Empty, WedgeFill::Empty]
    );
    let negative = clock("b", "", false, 3, 1);
    assert_eq!(wedge_fills(&negative), vec![WedgeFill::Negative, WedgeFill::Empty, WedgeFill::Empty]);
    let overfull = clock("c", "", true, 2, 5);
    assert_eq!(wedge_fills(&overfull), vec![WedgeFill::Positive, WedgeFill::Positive]);
    assert!(wedge_fills(&clock("d", "", true, 0, 0)).is_empty());
    assert!(wedge_fills(&clock("e", "", true, -3, 2)).is_empty());
    assert_eq!(wedge_fills(&clock("f", "", true, 3, -1)), vec![WedgeFill::Empty; 3]);
}

#[test]
fn colours_follow_fill_and_polarity() {
    assert_eq!(fill_color(WedgeFill::Positive), "#E0FFFF");
    assert_eq!(fill_color(WedgeFill::Negative), "#A31F34");
    assert_eq!(fill_color(WedgeFill::Empty), "#444444");
    assert_eq!(fill_color(WedgeFill::Empty), CLOCK_COLOR);
    assert_eq!(title_color(true), POSITIVE_TICK_COLOR);
    assert_eq!(title_color(false), NEGATIVE_TICK_COLOR);
}

#[test]
fn a_clicked_wedge_and_those_before_it_are_filled() {
    let mut c = clock("a", "", false, 6, 0);
    let hits = vec![false, false, true, false, false, false];
    let wedge = check_tick(&hits).unwrap();
    assert_eq!(wedge, 3);
    c.process_click(wedge);
    assert_eq!(
        wedge_fills(&c),
        vec![
            WedgeFill::Negative,
            WedgeFill::Negative,
            WedgeFill::Negative,
            WedgeFill::Empty,
            WedgeFill::Empty,
            WedgeFill::Empty
        ]
    );
}
