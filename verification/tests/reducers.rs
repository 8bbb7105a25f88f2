use library_filtered::library::{LibBucket, LibItem, LibraryLoadable};
use library_filtered::library_filtered::{
    lib_items_reducer, library_state_reducer, selected_reducer, type_names_reducer, LibItemsAction,
    LibraryState, LibraryStateAction, Selected, SelectedAction, TypeNamesAction,
};
use library_filtered::reduce::{reduce, ValueEq};

fn item(id: &str, type_: &str, removed: bool) -> LibItem {
    LibItem { id: id.to_string(), type_: type_.to_string(), removed }
}

fn ready(uid: Option<&str>, items: Vec<LibItem>) -> LibraryLoadable {
    LibraryLoadable::Ready(LibBucket { uid: uid.map(|u| u.to_string()), items })
}

fn names(list: &[&str]) -> Vec<String> {
    list.iter().map(|n| n.to_string()).collect()
}

fn select(prev: &Selected, type_: &str) -> (Selected, bool) {
    let type_ = type_.to_string();
    selected_reducer(prev, SelectedAction::Select { type_: &type_ })
}

#[test]
fn reduce_reports_a_change_when_the_value_differs() {
    let prev = "a".to_string();
    let (next, changed) = reduce(&prev, "b", |prev: &String, action: &str| {
        format!("{}{}", prev, action)
    });
    assert_eq!(next, "ab");
    assert!(changed);
}

#[test]
fn reduce_reports_no_change_when_the_transform_hands_the_state_back() {
    let prev = vec!["a".to_string(), "b".to_string()];
    let (next, changed) = reduce(&prev, (), |prev: &Vec<String>, _: ()| prev.clone());
    assert_eq!(next, prev);
    assert!(!changed);
}

#[test]
fn value_eq_of_vectors_goes_by_length_and_order() {
    let ab = names(&["a", "b"]);
    assert!(ab.value_eq(&names(&["a", "b"])));
    assert!(!ab.value_eq(&names(&["b", "a"])));
    assert!(!ab.value_eq(&names(&["a"])));
    assert!(!ab.value_eq(&names(&["a", "b", "c"])));
    assert!(names(&[]).value_eq(&names(&[])));
}

#[test]
fn value_eq_of_options_and_items() {
    assert!(Some("a".to_string()).value_eq(&Some("a".to_string())));
    assert!(!Some("a".to_string()).value_eq(&Some("b".to_string())));
    assert!(!Some("a".to_string()).value_eq(&None));
    assert!(None::<String>.value_eq(&None));
    assert!(item("1", "movie", false).value_eq(&item("1", "movie", false)));
    assert!(!item("1", "movie", false).value_eq(&item("2", "movie", false)));
    assert!(!item("1", "movie", false).value_eq(&item("1", "series", false)));
    assert!(!item("1", "movie", false).value_eq(&item("1", "movie", true)));
}

#[test]
fn item_clone_keeps_every_field() {
    let first = item("1", "movie", true);
    assert_eq!(first.clone(), first);
}

#[test]
fn selection_is_none_by_default() {
    assert_eq!(Selected::default().type_, None);
}

#[test]
fn selecting_replaces_the_selection() {
    let (first, changed) = select(&Selected::default(), "movie");
    assert_eq!(first.type_, Some("movie".to_string()));
    assert!(changed);
    let (second, changed) = select(&first, "series");
    assert_eq!(second.type_, Some("series".to_string()));
    assert!(changed);
}

#[test]
fn selecting_the_same_category_again_is_no_change() {
    let (first, _) = select(&Selected::default(), "movie");
    let (second, changed) = select(&first, "movie");
    assert_eq!(second, first);
    assert!(!changed);
}

#[test]
fn selecting_a_category_that_the_library_lacks_is_accepted() {
    let (selected, changed) = select(&Selected::default(), "");
    assert_eq!(selected.type_, Some(String::new()));
    assert!(changed);
}

#[test]
fn library_state_mirrors_the_phase_and_the_key() {
    let prev = LibraryState::default();
    assert_eq!(prev, LibraryState::NotLoaded);

    let library = LibraryLoadable::NotLoaded;
    let (next, changed) =
        library_state_reducer(&prev, LibraryStateAction::LibraryChanged { library: &library });
    assert_eq!(next, LibraryState::NotLoaded);
    assert!(!changed);

    let library = LibraryLoadable::Loading(Some("u1".to_string()));
    let (next, changed) =
        library_state_reducer(&prev, LibraryStateAction::LibraryChanged { library: &library });
    assert_eq!(next, LibraryState::Loading(Some("u1".to_string())));
    assert!(changed);

    let library = ready(Some("u1"), vec![item("1", "movie", false)]);
    let (next, changed) =
        library_state_reducer(&next, LibraryStateAction::LibraryChanged { library: &library });
    assert_eq!(next, LibraryState::Ready(Some("u1".to_string())));
    assert!(changed);
}

#[test]
fn library_state_changes_with_the_key_alone() {
    let prev = LibraryState::Ready(Some("u1".to_string()));
    let same = ready(Some("u1"), vec![]);
    let (next, changed) =
        library_state_reducer(&prev, LibraryStateAction::LibraryChanged { library: &same });
    assert_eq!(next, prev);
    assert!(!changed);

    let other = ready(Some("u2"), vec![]);
    let (next, changed) =
        library_state_reducer(&prev, LibraryStateAction::LibraryChanged { library: &other });
    assert_eq!(next, LibraryState::Ready(Some("u2".to_string())));
    assert!(changed);

    let anonymous = ready(None, vec![]);
    let (next, changed) =
        library_state_reducer(&prev, LibraryStateAction::LibraryChanged { library: &anonymous });
    assert_eq!(next, LibraryState::Ready(None));
    assert!(changed);
}

#[test]
fn type_names_keep_the_order_of_first_occurrence() {
    let library = ready(
        None,
        vec![
            item("1", "B", false),
            item("2", "A", false),
            item("3", "B", false),
            item("4", "C", false),
        ],
    );
    let (next, changed) =
        type_names_reducer(&vec![], TypeNamesAction::LibraryChanged { library: &library });
    assert_eq!(next, names(&["B", "A", "C"]));
    assert!(changed);
}

#[test]
fn type_names_are_compared_in_order() {
    let library = ready(None, vec![item("1", "B", false), item("2", "A", false)]);
    let (next, changed) = type_names_reducer(
        &names(&["A", "B"]),
        TypeNamesAction::LibraryChanged { library: &library },
    );
    assert_eq!(next, names(&["B", "A"]));
    assert!(changed);
    let (again, changed) =
        type_names_reducer(&next, TypeNamesAction::LibraryChanged { library: &library });
    assert_eq!(again, next);
    assert!(!changed);
}

#[test]
fn type_names_leave_out_deleted_items() {
    let library = ready(
        None,
        vec![
            item("1", "movie", true),
            item("2", "series", false),
            item("3", "channel", true),
            item("4", "movie", false),
            item("5", "series", true),
        ],
    );
    let (next, _) =
        type_names_reducer(&vec![], TypeNamesAction::LibraryChanged { library: &library });
    assert_eq!(next, names(&["series", "movie"]));
}

#[test]
fn type_names_of_an_empty_ready_library_are_empty() {
    let library = ready(None, vec![]);
    let (next, changed) =
        type_names_reducer(&vec![], TypeNamesAction::LibraryChanged { library: &library });
    assert_eq!(next, names(&[]));
    assert!(!changed);
    let (next, changed) = type_names_reducer(
        &names(&["movie"]),
        TypeNamesAction::LibraryChanged { library: &library },
    );
    assert_eq!(next, names(&[]));
    assert!(changed);
}

#[test]
fn type_names_are_empty_while_the_library_is_not_ready() {
    let prev = names(&["movie", "series"]);
    for library in [LibraryLoadable::NotLoaded, LibraryLoadable::Loading(None)] {
        let (next, changed) =
            type_names_reducer(&prev, TypeNamesAction::LibraryChanged { library: &library });
        assert_eq!(next, names(&[]));
        assert!(changed);
    }
}

#[test]
fn lib_items_of_a_new_selection_come_in_library_order() {
    let library =
        ready(None, vec![item("1", "X", false), item("2", "Y", false), item("3", "X", false)]);
    let type_ = "X".to_string();
    let (next, changed) =
        lib_items_reducer(&vec![], LibItemsAction::Select { library: &library, type_: &type_ });
    assert_eq!(next, vec![item("1", "X", false), item("3", "X", false)]);
    assert!(changed);
}

#[test]
fn lib_items_leave_out_deleted_items() {
    let library =
        ready(None, vec![item("1", "X", true), item("2", "X", false), item("3", "Y", true)]);
    let x = "X".to_string();
    let (next, _) =
        lib_items_reducer(&vec![], LibItemsAction::Select { library: &library, type_: &x });
    assert_eq!(next, vec![item("2", "X", false)]);
    let y = Some("Y".to_string());
    let (next, changed) = lib_items_reducer(
        &vec![],
        LibItemsAction::LibraryChanged { library: &library, type_: &y },
    );
    assert_eq!(next, vec![]);
    assert!(!changed);
}

#[test]
fn lib_items_follow_the_stored_selection_when_the_library_changes() {
    let library =
        ready(None, vec![item("1", "X", false), item("2", "Y", false), item("3", "X", false)]);
    let stored = Some("Y".to_string());
    let (next, changed) = lib_items_reducer(
        &vec![item("9", "Y", false)],
        LibItemsAction::LibraryChanged { library: &library, type_: &stored },
    );
    assert_eq!(next, vec![item("2", "Y", false)]);
    assert!(changed);
}

#[test]
fn lib_items_are_empty_without_a_selection() {
    let library = ready(None, vec![item("1", "X", false)]);
    let (next, changed) = lib_items_reducer(
        &vec![item("1", "X", false)],
        LibItemsAction::LibraryChanged { library: &library, type_: &None },
    );
    assert_eq!(next, vec![]);
    assert!(changed);
}

#[test]
fn lib_items_are_empty_while_the_library_is_not_ready() {
    let prev = vec![item("1", "X", false)];
    let x = "X".to_string();
    let stored = Some("X".to_string());
    for library in [LibraryLoadable::NotLoaded, LibraryLoadable::Loading(Some("u".to_string()))] {
        let (next, changed) =
            lib_items_reducer(&prev, LibItemsAction::Select { library: &library, type_: &x });
        assert_eq!(next, vec![]);
        assert!(changed);
        let (next, changed) = lib_items_reducer(
            &prev,
            LibItemsAction::LibraryChanged { library: &library, type_: &stored },
        );
        assert_eq!(next, vec![]);
        assert!(changed);
    }
}

#[test]
fn lib_items_change_when_an_item_changes_in_place() {
    let prev = vec![item("1", "X", false), item("2", "X", false)];
    let library = ready(None, vec![item("2", "X", false), item("1", "X", false)]);
    let x = "X".to_string();
    let (next, changed) =
        lib_items_reducer(&prev, LibItemsAction::Select { library: &library, type_: &x });
    assert_eq!(next, vec![item("2", "X", false), item("1", "X", false)]);
    assert!(changed);
}

#[test]
fn reducing_twice_changes_nothing_the_second_time() {
    let library =
        ready(Some("u"), vec![item("1", "X", false), item("2", "Y", false), item("3", "X", true)]);
    let x = "X".to_string();

    let (items, _) =
        lib_items_reducer(&vec![], LibItemsAction::Select { library: &library, type_: &x });
    let (again, changed) =
        lib_items_reducer(&items, LibItemsAction::Select { library: &library, type_: &x });
    assert_eq!(again, items);
    assert!(!changed);

    let (state, _) = library_state_reducer(
        &LibraryState::NotLoaded,
        LibraryStateAction::LibraryChanged { library: &library },
    );
    let (again, changed) =
        library_state_reducer(&state, LibraryStateAction::LibraryChanged { library: &library });
    assert_eq!(again, state);
    assert!(!changed);

    let (index, _) =
        type_names_reducer(&vec![], TypeNamesAction::LibraryChanged { library: &library });
    let (again, changed) =
        type_names_reducer(&index, TypeNamesAction::LibraryChanged { library: &library });
    assert_eq!(again, index);
    assert!(!changed);
}

#[test]
fn lib_items_go_when_the_selected_category_is_gone() {
    let prev = vec![item("1", "A", false), item("2", "A", false)];
    let stored = Some("A".to_string());
    let library = ready(None, vec![item("3", "B", false), item("4", "C", false)]);
    let (next, changed) = lib_items_reducer(
        &prev,
        LibItemsAction::LibraryChanged { library: &library, type_: &stored },
    );
    assert_eq!(next, vec![]);
    assert!(changed);
}

#[test]
fn lib_items_stay_when_the_selected_category_is_as_before() {
    let prev = vec![item("1", "A", false), item("2", "A", false)];
    let stored = Some("A".to_string());
    let library = ready(
        Some("u"),
        vec![
            item("3", "B", false),
            item("1", "A", false),
            item("5", "A", true),
            item("2", "A", false),
        ],
    );
    let (next, changed) = lib_items_reducer(
        &prev,
        LibItemsAction::LibraryChanged { library: &library, type_: &stored },
    );
    assert_eq!(next, prev);
    assert!(!changed);
}
