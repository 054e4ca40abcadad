//! An in-memory store of organizations.
use vstd::prelude::*;

use crate::clock::now_unix_timestamp;

verus! {

/// An organization record.
#[derive(Debug, Clone, PartialEq, Eq)]
pub struct Organization {
    pub org_id: String,
    pub org_name: Option<String>,
    /// Details, as JSON text.
    pub organization_details: Option<String>,
    /// Metadata, as JSON text.
    pub metadata: Option<String>,
    /// Unix seconds.
    pub created_at: i64,
    /// Unix seconds.
    pub modified_at: i64,
}

/// A new organization.
#[derive(Debug, Clone, PartialEq, Eq)]
pub struct OrganizationNew {
    pub org_id: String,
    pub org_name: Option<String>,
    pub organization_details: Option<String>,
    pub metadata: Option<String>,
}

/// A change to an organization.
#[derive(Debug, Clone, PartialEq, Eq)]
pub enum OrganizationUpdate {
    Update { org_name: Option<String>, organization_details: Option<String>, metadata: Option<String> },
}

/// Errors of the organization store.
#[derive(Debug, Clone, PartialEq, Eq)]
pub enum StorageError {
    /// An organization with this id exists already.
    DuplicateValue { org_id: String },
    /// No organization has this id.
    ValueNotFound { org_id: String },
}

fn copy_text(o: &Option<String>) -> (r: Option<String>)
    ensures
        r == *o,
{
    match o {
        Some(s) => Some(s.clone()),
        None => None,
    }
}

impl Organization {
    /// A copy of the record.
    pub fn copy(&self) -> (r: Organization)
        ensures
            r == *self,
    {
        Organization {
            org_id: self.org_id.clone(),
            org_name: copy_text(&self.org_name),
            organization_details: copy_text(&self.organization_details),
            metadata: copy_text(&self.metadata),
            created_at: self.created_at,
            modified_at: self.modified_at,
        }
    }
}

/// Some record has this id.
pub open spec fn has_org(orgs: Seq<Organization>, org_id: Seq<char>) -> bool {
    exists|i: int| 0 <= i < orgs.len() && (#[trigger] orgs[i]).org_id@ == org_id
}

/// The record a new organization becomes at time `now`.
pub open spec fn created(org: OrganizationNew, now: i64) -> Organization {
    Organization {
        org_id: org.org_id,
        org_name: org.org_name,
        organization_details: org.organization_details,
        metadata: org.metadata,
        created_at: now,
        modified_at: now,
    }
}

/// The record once changed; its timestamps are kept.
pub open spec fn updated(org: Organization, update: OrganizationUpdate) -> Organization {
    match update {
        OrganizationUpdate::Update { org_name, organization_details, metadata } => Organization {
            org_name,
            organization_details,
            metadata,
            ..org
        },
    }
}

/// Organizations held in memory, with unique ids.
pub struct MockOrganizations {
    organizations: Vec<Organization>,
}

impl MockOrganizations {
    pub closed spec fn view(&self) -> Seq<Organization> {
        self.organizations@
    }

    /// No two records share an id.
    pub open spec fn wf(&self) -> bool {
        forall|i: int, j: int|
            0 <= i < j < self.view().len() ==> (#[trigger] self.view()[i]).org_id@ != (#[trigger] self.view()[j]).org_id@
    }

    /// An empty store.
    pub fn new() -> (r: MockOrganizations)
        ensures
            r.wf(),
            r.view().len() == 0,
    {
        MockOrganizations { organizations: Vec::new() }
    }

    fn position(&self, org_id: &str) -> (r: Option<usize>)
        ensures
            match r {
                Some(i) => i < self.view().len() && self.view()[i as int].org_id@ == org_id@,
                None => !has_org(self.view(), org_id@),
            },
    {
        let target: String = org_id.to_owned();
        let mut i: usize = 0;
        while i < self.organizations.len()
            invariant
                i <= self.organizations@.len(),
                target@ == org_id@,
                forall|j: int| 0 <= j < i ==> (#[trigger] self.organizations@[j]).org_id@ != org_id@,
            decreases self.organizations.len() - i,
        {
            if self.organizations[i].org_id == target {
                return Some(i);
            }
            i = i + 1;
        }
        None
    }

    /// Adds an organization created at time `now`, unless its id is taken.
    pub fn insert_organization_at(&mut self, organization: OrganizationNew, now: i64) -> (r: Result<
        Organization,
        StorageError,
    >)
        requires
            old(self).wf(),
        ensures
            final(self).wf(),
            has_org(old(self).view(), organization.org_id@) ==> (r matches Err(StorageError::DuplicateValue { org_id })
                && org_id == organization.org_id) && final(self).view() == old(self).view(),
            !has_org(old(self).view(), organization.org_id@) ==> r == Ok::<Organization, StorageError>(
                created(organization, now),
            ) && final(self).view() == old(self).view().push(created(organization, now)),
    {
        if self.position(organization.org_id.as_str()).is_some() {
            return Err(StorageError::DuplicateValue { org_id: organization.org_id });
        }
        let org = Organization {
            org_id: organization.org_id,
            org_name: organization.org_name,
            organization_details: organization.organization_details,
            metadata: organization.metadata,
            created_at: now,
            modified_at: now,
        };
        let ghost before = self.organizations@;
        self.organizations.push(org.copy());
        assert forall|i: int, j: int|
            0 <= i < j < self.view().len() implies (#[trigger] self.view()[i]).org_id@ != (#[trigger] self.view()[j]).org_id@ by {
            if j == before.len() {
                assert(before[i] == self.view()[i]);
            }
        }
        Ok(org)
    }

    /// `insert_organization_at`, created now.
    pub fn insert_organization_now(&mut self, organization: OrganizationNew) -> (r: Result<Organization, StorageError>)
        requires
            old(self).wf(),
        ensures
            final(self).wf(),
            has_org(old(self).view(), organization.org_id@) ==> r is Err && final(self).view() == old(self).view(),
            !has_org(old(self).view(), organization.org_id@) ==> (r matches Ok(o) && final(self).view() == old(
                self,
            ).view().push(o) && o == created(organization, o.created_at)),
    {
        let now = now_unix_timestamp();
        self.insert_organization_at(organization, now)
    }

    /// The organization with this id.
    pub fn find(&self, org_id: &str) -> (r: Result<Organization, StorageError>)
        requires
            self.wf(),
        ensures
            !has_org(self.view(), org_id@) ==> (r matches Err(StorageError::ValueNotFound { org_id: i }) && i@
                == org_id@),
            has_org(self.view(), org_id@) ==> (r matches Ok(o) && self.view().contains(o) && o.org_id@ == org_id@),
    {
        match self.position(org_id) {
            Some(i) => Ok(self.organizations[i].copy()),
            None => Err(StorageError::ValueNotFound { org_id: org_id.to_owned() }),
        }
    }

    /// The organization with this id as the update would leave it; the
    /// stored record itself is not changed.
    pub fn updated_copy(&self, org_id: &str, update: OrganizationUpdate) -> (r: Result<
        Organization,
        StorageError,
    >)
        requires
            self.wf(),
        ensures
            !has_org(self.view(), org_id@) ==> (r matches Err(StorageError::ValueNotFound { org_id: i }) && i@
                == org_id@),
            has_org(self.view(), org_id@) ==> (r matches Ok(o) && exists|k: int|
                0 <= k < self.view().len() && (#[trigger] self.view()[k]).org_id@ == org_id@ && o == updated(
                    self.view()[k],
                    update,
                )),
    {
        match self.position(org_id) {
            Some(i) => {
                let org = self.organizations[i].copy();
                match update {
                    OrganizationUpdate::Update { org_name, organization_details, metadata } => Ok(
                        Organization { org_name, organization_details, metadata, ..org },
                    ),
                }
            },
            None => Err(StorageError::ValueNotFound { org_id: org_id.to_owned() }),
        }
    }
}

/// Storage of organizations.
pub trait OrganizationInterface {
    /// The store's own invariant.
    spec fn inv(&self) -> bool;

    /// Adds an organization, created now; an id that is taken is refused.
    fn insert_organization(&mut self, organization: OrganizationNew) -> (r: Result<Organization, StorageError>)
        requires
            old(self).inv(),
        ensures
            final(self).inv(),
            r matches Ok(o) ==> o.org_id == organization.org_id,
    ;

    /// The organization with this id.
    fn find_organization_by_org_id(&self, org_id: &str) -> (r: Result<Organization, StorageError>)
        requires
            self.inv(),
        ensures
            r matches Ok(o) ==> o.org_id@ == org_id@,
    ;

    /// The organization with this id, as the update leaves it.
    fn update_organization_by_org_id(&self, org_id: &str, update: OrganizationUpdate) -> (r: Result<
        Organization,
        StorageError,
    >)
        requires
            self.inv(),
        ensures
            r matches Ok(o) ==> o.org_id@ == org_id@,
    ;
}

impl OrganizationInterface for MockOrganizations {
    open spec fn inv(&self) -> bool {
        self.wf()
    }

    fn insert_organization(&mut self, organization: OrganizationNew) -> (r: Result<Organization, StorageError>) {
        self.insert_organization_now(organization)
    }

    fn find_organization_by_org_id(&self, org_id: &str) -> (r: Result<Organization, StorageError>) {
        self.find(org_id)
    }

    fn update_organization_by_org_id(&self, org_id: &str, update: OrganizationUpdate) -> (r: Result<
        Organization,
        StorageError,
    >) {
        self.updated_copy(org_id, update)
    }
}

} // verus!
