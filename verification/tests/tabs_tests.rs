use robo_monitor::tabs::TabsState;

#[test]
fn new_selects_the_first_tab() {
    let tabs = TabsState::new(vec!["Map", "Sensor"]);
    assert_eq!(tabs.index, 0);
    assert_eq!(tabs.titles, vec!["Map", "Sensor"]);
}

#[test]
fn next_wraps_to_the_first() {
    let mut tabs = TabsState::new(vec!["a", "b", "c"]);
    tabs.next();
    assert_eq!(tabs.index, 1);
    tabs.next();
    assert_eq!(tabs.index, 2);
    tabs.next();
    assert_eq!(tabs.index, 0);
    assert_eq!(tabs.titles, vec!["a", "b", "c"]);
}

#[test]
fn previous_wraps_to_the_last() {
    let mut tabs = TabsState::new(vec!["a", "b", "c"]);
    tabs.previous();
    assert_eq!(tabs.index, 2);
    tabs.previous();
    assert_eq!(tabs.index, 1);
    tabs.previous();
    assert_eq!(tabs.index, 0);
}

#[test]
fn single_tab_stays_selected() {
    let mut tabs = TabsState::new(vec!["only"]);
    tabs.next();
    assert_eq!(tabs.index, 0);
    tabs.previous();
    assert_eq!(tabs.index, 0);
}

#[test]
fn next_and_previous_undo_each_other() {
    for start in 0..4usize {
        let mut tabs = TabsState::new(vec!["a", "b", "c", "d"]);
        tabs.index = start;
        tabs.next();
        tabs.previous();
        assert_eq!(tabs.index, start);
        tabs.previous();
        tabs.next();
        assert_eq!(tabs.index, start);
    }
}

#[test]
fn next_from_a_stray_index_takes_the_remainder() {
    let mut tabs = TabsState::new(vec!["a", "b", "c"]);
    tabs.index = 7;
    tabs.next();
    assert_eq!(tabs.index, 2);
    tabs.index = 7;
    tabs.previous();
    assert_eq!(tabs.index, 6);
}
