use editor::{EntityId, Selection};

fn entity(id: u64) -> EntityId {
    EntityId::with_generation(id, 1)
}

fn order(selection: &Selection) -> Vec<EntityId> {
    selection.selected()
}

#[test]
fn test_selection_keeps_insertion_order_and_re_adding_keeps_the_original_position() {
    let (third, first, second) = (entity(3), entity(1), entity(2));
    let mut selection = Selection::new();

    selection.add(third);
    selection.add(first);
    selection.add(second);
    assert_eq!(order(&selection), vec![third, first, second], "order is by selection, not by id");
    assert_eq!(selection.primary(), Some(third), "the first added is the primary");

    selection.add(first);
    assert_eq!(order(&selection), vec![third, first, second], "a re-add neither duplicates nor moves");
    assert_eq!(selection.len(), 3);

    selection.toggle(first);
    assert_eq!(order(&selection), vec![third, second], "toggle on a selected entity removes it");
    selection.toggle(first);
    assert_eq!(order(&selection), vec![third, second, first], "toggle back appends at the end");
}

#[test]
fn test_removing_the_primary_falls_back_to_the_earliest_remaining_without_reordering() {
    let (a, b, c, d) = (entity(1), entity(2), entity(3), entity(4));
    let mut selection = Selection::new();
    selection.add(a);
    selection.add(b);
    selection.add(c);
    selection.add(d);

    selection.remove(b);
    assert_eq!(order(&selection), vec![a, c, d], "removal shifts, it never swaps the tail in");
    assert_eq!(selection.primary(), Some(a), "removing a non-primary keeps the primary");

    selection.remove(a);
    assert_eq!(
        selection.primary(),
        Some(c),
        "the earliest remaining entity becomes primary — deterministic, not hash order"
    );
    assert!(!selection.contains(a));

    selection.remove(c);
    selection.remove(d);
    assert!(selection.is_empty());
    assert_eq!(selection.primary(), None, "an emptied selection has no primary");
}

#[test]
fn test_select_replaces_the_selection_in_the_given_order_with_the_first_as_primary() {
    let (previous, e5, e2, e9) = (entity(7), entity(5), entity(2), entity(9));
    let mut selection = Selection::new();
    selection.select(previous);

    selection.select(e5);
    assert_eq!(order(&selection), vec![e5], "a single select clears what was there");
    assert_eq!(selection.primary(), Some(e5));

    selection.select_multiple(vec![e5, e2, e9, e2]);
    assert_eq!(order(&selection), vec![e5, e2, e9], "given order kept, duplicates keep their first slot");
    assert_eq!(selection.primary(), Some(e5), "the first given is the primary");
    assert!(!selection.contains(previous));

    selection.select_multiple(Vec::new());
    assert!(selection.is_empty());
    assert_eq!(selection.primary(), None, "an empty multi-select clears the primary too");

    selection.add(e2);
    selection.clear();
    assert!(selection.is_empty());
    assert_eq!(selection.primary(), None);
}

#[test]
fn test_inspector_heading_names_the_primary_and_counts_the_rest_of_a_multi_selection() {
    let mut selection = Selection::new();
    assert_eq!(selection.inspector_heading(), None, "nothing selected, no heading");

    selection.select(entity(7));
    assert_eq!(selection.inspector_heading().as_deref(), Some("Entity: 7"));

    selection.add(entity(8));
    selection.add(entity(9));
    assert_eq!(selection.inspector_heading().as_deref(), Some("Entity: 7  (1 of 3 selected)"));

    selection.remove(entity(7));
    assert_eq!(
        selection.inspector_heading().as_deref(),
        Some("Entity: 8  (1 of 2 selected)"),
        "the heading follows the primary fallback"
    );
}

#[test]
fn toggling_an_entity_twice_restores_the_selection() {
    let (a, b) = (entity(1), entity(2));
    let mut selection = Selection::new();
    selection.add(a);
    selection.toggle(b);
    selection.toggle(b);
    assert_eq!(order(&selection), vec![a]);
    assert_eq!(selection.primary(), Some(a));
}

#[test]
fn generations_tell_recycled_ids_apart() {
    let old = EntityId::with_generation(5, 1);
    let recycled = EntityId::with_generation(5, 2);
    let mut selection = Selection::new();
    selection.add(old);
    assert!(!selection.contains(recycled));
    assert_eq!(recycled.value(), 5);
}

#[test]
fn a_cloned_selection_keeps_order_and_primary_and_is_independent() {
    let (a, b, c) = (entity(1), entity(2), entity(3));
    let mut selection = Selection::new();
    selection.add(b);
    selection.add(a);
    let copy = selection.clone();
    selection.add(c);
    assert_eq!(order(&copy), vec![b, a]);
    assert_eq!(copy.primary(), Some(b));
    assert_eq!(order(&selection), vec![b, a, c]);
}
