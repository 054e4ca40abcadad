use router::organization::{MockOrganizations, OrganizationInterface, OrganizationNew, OrganizationUpdate, StorageError};

fn new_org(id: &str) -> OrganizationNew {
    OrganizationNew {
        org_id: id.to_string(),
        org_name: Some("Acme".to_string()),
        organization_details: None,
        metadata: Some("{}".to_string()),
    }
}

#[test]
fn insert_then_find() {
    let mut store = MockOrganizations::new();
    let o = store.insert_organization_at(new_org("org_1"), 1_700_000_000).unwrap();
    assert_eq!(o.created_at, 1_700_000_000);
    assert_eq!(o.modified_at, 1_700_000_000);
    let found = store.find_organization_by_org_id("org_1").unwrap();
    assert_eq!(found, o);
}

#[test]
fn duplicate_insert_is_refused() {
    let mut store = MockOrganizations::new();
    store.insert_organization_at(new_org("org_1"), 1).unwrap();
    assert_eq!(
        store.insert_organization_at(new_org("org_1"), 2),
        Err(StorageError::DuplicateValue { org_id: "org_1".to_string() })
    );
    assert_eq!(store.find_organization_by_org_id("org_1").unwrap().created_at, 1);
}

#[test]
fn find_missing_organization() {
    let store = MockOrganizations::new();
    assert_eq!(
        store.find_organization_by_org_id("org_2"),
        Err(StorageError::ValueNotFound { org_id: "org_2".to_string() })
    );
}

#[test]
fn update_returns_changed_record() {
    let mut store = MockOrganizations::new();
    store.insert_organization(new_org("org_1")).unwrap();
    let u = store
        .update_organization_by_org_id(
            "org_1",
            OrganizationUpdate::Update { org_name: Some("Acme 2".to_string()), organization_details: None, metadata: None },
        )
        .unwrap();
    assert_eq!(u.org_name, Some("Acme 2".to_string()));
    assert_eq!(u.metadata, None);
    assert!(store
        .update_organization_by_org_id(
            "org_9",
            OrganizationUpdate::Update { org_name: None, organization_details: None, metadata: None },
        )
        .is_err());
}
