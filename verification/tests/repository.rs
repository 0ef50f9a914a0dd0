use kakeibo::repositories::{CreateItem, Item, ItemRepository, RepositoryError, UpdateItem};
use kakeibo::store::{ItemRepositoryForMemory, MemoryStore};

fn milk() -> CreateItem {
    CreateItem::new(
        "牛乳".to_string(),
        124,
        "2024-06-27".to_string(),
        "ベルクス".to_string(),
    )
}

#[test]
fn should_create_item() {
    let expected = Item::new(
        1,
        "牛乳".to_string(),
        124,
        "2024-06-27".to_string(),
        "ベルクス".to_string(),
    );
    let repository = ItemRepositoryForMemory::new();
    let item = repository.create(milk()).unwrap();
    assert_eq!(expected, item);
}

#[test]
fn should_find_item() {
    let expected = Item::new(
        1,
        "牛乳".to_string(),
        124,
        "2024-06-27".to_string(),
        "ベルクス".to_string(),
    );
    let repository = ItemRepositoryForMemory::new();
    repository.create(milk()).unwrap();
    let items = repository.all().unwrap();
    assert_eq!(vec![expected], items);
}

#[test]
fn create_milk_then_list_exactly_that_item() {
    let repository = ItemRepositoryForMemory::new();
    let created = repository
        .create(CreateItem::new(
            "milk".to_string(),
            124,
            "2024-06-27".to_string(),
            "Belx".to_string(),
        ))
        .unwrap();
    let expected = Item::new(
        1,
        "milk".to_string(),
        124,
        "2024-06-27".to_string(),
        "Belx".to_string(),
    );
    assert_eq!(expected, created);
    assert_eq!(repository.find(1).unwrap(), expected);
    assert_eq!(repository.all().unwrap(), vec![expected]);
}

#[test]
fn find_and_delete_fail_not_found_on_empty_store() {
    let repository = ItemRepositoryForMemory::new();
    assert_eq!(repository.find(1), Err(RepositoryError::NotFound(1)));
    assert_eq!(repository.delete(1), Err(RepositoryError::NotFound(1)));
}

#[test]
fn absent_ids_fail_not_found() {
    let repository = ItemRepositoryForMemory::new();
    repository.create(milk()).unwrap();
    assert_eq!(repository.find(7), Err(RepositoryError::NotFound(7)));
    assert_eq!(repository.delete(7), Err(RepositoryError::NotFound(7)));
    assert_eq!(repository.find(-1), Err(RepositoryError::NotFound(-1)));
}

#[test]
fn update_with_empty_patch_returns_identical_record() {
    let repository = ItemRepositoryForMemory::new();
    let created = repository.create(milk()).unwrap();
    let updated = repository.update(1, UpdateItem::empty()).unwrap();
    assert_eq!(created, updated);
    assert_eq!(repository.find(1).unwrap(), created);
}

#[test]
fn update_with_name_only_changes_exactly_name() {
    let repository = ItemRepositoryForMemory::new();
    let created = repository.create(milk()).unwrap();
    let updated = repository
        .update(
            1,
            UpdateItem::new(Some("低脂肪乳".to_string()), None, None, None),
        )
        .unwrap();
    assert_eq!(updated.id, created.id);
    assert_eq!(updated.name, "低脂肪乳".to_string());
    assert_eq!(updated.price, created.price);
    assert_eq!(updated.date, created.date);
    assert_eq!(updated.store_name, created.store_name);
    assert_eq!(repository.find(1).unwrap(), updated);
}

#[test]
fn update_absent_id_fails_not_found() {
    let repository = ItemRepositoryForMemory::new();
    assert_eq!(
        repository.update(1, UpdateItem::empty()),
        Err(RepositoryError::NotFound(1))
    );
}

#[test]
fn update_merges_every_present_field() {
    let repository = ItemRepositoryForMemory::new();
    repository.create(milk()).unwrap();
    let updated = repository
        .update(
            1,
            UpdateItem::new(
                Some("bread".to_string()),
                Some(240),
                Some("2024-06-28".to_string()),
                Some("Oker".to_string()),
            ),
        )
        .unwrap();
    let expected = Item::new(
        1,
        "bread".to_string(),
        240,
        "2024-06-28".to_string(),
        "Oker".to_string(),
    );
    assert_eq!(updated, expected);
    assert_eq!(repository.find(1).unwrap(), expected);
}

#[test]
fn delete_then_find_fails_and_id_leaves_the_list() {
    let repository = ItemRepositoryForMemory::new();
    repository.create(milk()).unwrap();
    assert_eq!(repository.delete(1), Ok(()));
    assert_eq!(repository.find(1), Err(RepositoryError::NotFound(1)));
    assert!(repository.all().unwrap().is_empty());
    // deleting again surfaces NotFound, never a silent success
    assert_eq!(repository.delete(1), Err(RepositoryError::NotFound(1)));
}

#[test]
fn creates_on_fresh_store_assign_distinct_ids() {
    let repository = ItemRepositoryForMemory::new();
    let mut ids = Vec::new();
    for _ in 0..5 {
        ids.push(repository.create(milk()).unwrap().id);
    }
    assert_eq!(ids, vec![1, 2, 3, 4, 5]);
}

#[test]
fn create_after_delete_reuses_a_live_id() {
    // The documented weakness of size-based id assignment: once a delete has
    // happened, the next create can be handed the id of a retained record and
    // then replaces it.
    let repository = ItemRepositoryForMemory::new();
    repository.create(milk()).unwrap();
    let second = repository
        .create(CreateItem::new(
            "bread".to_string(),
            240,
            "2024-06-28".to_string(),
            "Oker".to_string(),
        ))
        .unwrap();
    assert_eq!(second.id, 2);
    repository.delete(1).unwrap();
    let third = repository
        .create(CreateItem::new(
            "eggs".to_string(),
            300,
            "2024-06-29".to_string(),
            "Belx".to_string(),
        ))
        .unwrap();
    assert_eq!(third.id, 2);
    let items = repository.all().unwrap();
    assert_eq!(items, vec![third]);
}

#[test]
fn clones_share_one_store() {
    let repository = ItemRepositoryForMemory::new();
    let other = repository.clone();
    repository.create(milk()).unwrap();
    assert_eq!(other.find(1).unwrap().price, 124);
}

#[test]
fn memory_store_operations() {
    let mut store = MemoryStore::new();
    let created = store.create(milk()).unwrap();
    assert_eq!(created.id, 1);
    assert_eq!(store.find(1).unwrap(), created);
    assert_eq!(store.find(2), Err(RepositoryError::NotFound(2)));
    let listed = store.all();
    assert_eq!(listed, vec![created.clone()]);
    let updated = store
        .update(1, UpdateItem::new(None, Some(99), None, None))
        .unwrap();
    assert_eq!(updated.price, 99);
    assert_eq!(updated.name, created.name);
    assert_eq!(store.delete(1), Ok(()));
    assert_eq!(store.delete(1), Err(RepositoryError::NotFound(1)));
    assert!(store.all().is_empty());
}
