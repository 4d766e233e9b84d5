//! Multi-tenant workspace resolution: given the tenant hints of an inbound
//! request (an id header, a name header), authoritatively resolve a
//! canonical workspace id against a snapshot of the workspace directory, or
//! fail closed with `InvalidTenant`.
use vstd::prelude::*;

use crate::errors::GatewayError;
use crate::ids::{parse_workspace_id, uuid_parse, uuid_text_of, workspace_id_text};
use crate::text::str_eq;

verus! {

/// One row of the workspace directory: canonical id, unique display name,
/// and the soft-delete marker.
pub struct WorkspaceRecord {
    /// The canonical 128-bit workspace id.
    pub id: u128,
    /// The human-chosen display name.
    pub name: String,
    /// True once the workspace is soft-deleted; such a workspace resolves as
    /// if absent.
    pub deleted: bool,
}

/// A read-only snapshot of the workspace directory rows the gateway can
/// resolve against.
pub struct WorkspaceStore {
    pub records: Vec<WorkspaceRecord>,
}

/// The id of the first live (non-deleted) record named `name`, scanning
/// `s` from index `i` on.
pub open spec fn first_live_named_from(s: Seq<WorkspaceRecord>, name: Seq<char>, i: int) -> Option<
    u128,
>
    decreases s.len() - i,
{
    if i < 0 || i >= s.len() {
        None
    } else if s[i].name@ == name && !s[i].deleted {
        Some(s[i].id)
    } else {
        first_live_named_from(s, name, i + 1)
    }
}

impl WorkspaceStore {
    /// True when some live record carries the id `id`.
    pub open spec fn live_with_id(self, id: u128) -> bool {
        exists|i: int|
            0 <= i < self.records.len() && self.records[i].id == id && !self.records[i].deleted
    }

    /// The id of the first live record with display name `name`, if any.
    pub open spec fn spec_find_by_name(self, name: Seq<char>) -> Option<u128> {
        first_live_named_from(self.records@, name, 0)
    }

    /// What `resolve` returns: the id header takes priority; a malformed or
    /// unknown id fails closed; a name resolves to the canonical id of the
    /// first live workspace bearing it; a request with neither header fails.
    pub open spec fn spec_resolve(
        self,
        id_header: Option<Seq<char>>,
        name_header: Option<Seq<char>>,
    ) -> Result<Seq<char>, GatewayError> {
        match id_header {
            Some(h) => match uuid_parse(h) {
                Some(u) => if self.live_with_id(u) {
                    Ok(h)
                } else {
                    Err(GatewayError::InvalidTenant)
                },
                None => Err(GatewayError::InvalidTenant),
            },
            None => match name_header {
                Some(n) => match self.spec_find_by_name(n) {
                    Some(u) => Ok(uuid_text_of(u)),
                    None => Err(GatewayError::InvalidTenant),
                },
                None => Err(GatewayError::InvalidTenant),
            },
        }
    }

    /// Decide whether a live record carries id `id`.
    pub fn find_live_by_id(&self, id: u128) -> (r: bool)
        ensures
            r == self.live_with_id(id),
    {
        let mut i: usize = 0;
        while i < self.records.len()
            invariant
                0 <= i <= self.records.len(),
                forall|j: int|
                    0 <= j < i ==> !(self.records[j].id == id && !self.records[j].deleted),
            decreases self.records.len() - i,
        {
            if self.records[i].id == id && !self.records[i].deleted {
                return true;
            }
            i = i + 1;
        }
        false
    }

    /// Find the id of the first live record named `name`.
    pub fn find_live_by_name(&self, name: &str) -> (r: Option<u128>)
        ensures
            r == self.spec_find_by_name(name@),
    {
        let mut i: usize = 0;
        while i < self.records.len()
            invariant
                0 <= i <= self.records.len(),
                first_live_named_from(self.records@, name@, 0) == first_live_named_from(
                    self.records@,
                    name@,
                    i as int,
                ),
            decreases self.records.len() - i,
        {
            let rec = &self.records[i];
            if !rec.deleted && str_eq(rec.name.as_str(), name) {
                return Some(rec.id);
            }
            i = i + 1;
        }
        None
    }

    /// Resolve the canonical workspace id for a request from its tenant
    /// headers, with the id header taking priority over the name header.
    /// The id path returns the id as given; the name path returns the
    /// canonical text of the resolved id, not the name. Exactly the requests
    /// whose hints name a live workspace resolve; all others fail with
    /// `InvalidTenant`, before any bus traffic.
    pub fn resolve(&self, id_header: Option<&str>, name_header: Option<&str>) -> (r: Result<
        String,
        GatewayError,
    >)
        ensures
            ({
                let s = self.spec_resolve(
                    match id_header {
                        Some(h) => Some(h@),
                        None => None,
                    },
                    match name_header {
                        Some(n) => Some(n@),
                        None => None,
                    },
                );
                match r {
                    Ok(id) => s matches Ok(t) && id@ == t,
                    Err(e) => s matches Err(f) && e == f,
                }
            }),
            r matches Ok(id) ==> id@.len() > 0,
    {
        if let Some(h) = id_header {
            match parse_workspace_id(h) {
                Some(u) => {
                    if self.find_live_by_id(u) {
                        Ok(String::from_str(h))
                    } else {
                        Err(GatewayError::InvalidTenant)
                    }
                },
                None => Err(GatewayError::InvalidTenant),
            }
        } else if let Some(n) = name_header {
            match self.find_live_by_name(n) {
                Some(u) => Ok(workspace_id_text(u)),
                None => Err(GatewayError::InvalidTenant),
            }
        } else {
            Err(GatewayError::InvalidTenant)
        }
    }
}

/// A request lacking both tenant headers resolves to `InvalidTenant`, which
/// surfaces as HTTP 400. No plan — and so no bus traffic — can come of it.
pub proof fn lemma_missing_tenant_headers_fail_closed(store: WorkspaceStore)
    ensures
        store.spec_resolve(None, None) == Err::<Seq<char>, GatewayError>(
            GatewayError::InvalidTenant,
        ),
        GatewayError::InvalidTenant.spec_status_code() == 400,
{
}

/// An id header naming a malformed, unknown, or soft-deleted workspace
/// resolves to `InvalidTenant`, whatever the name header says: no fallback,
/// no plan, no publish.
pub proof fn lemma_unknown_or_deleted_id_fails_closed(
    store: WorkspaceStore,
    h: Seq<char>,
    name_header: Option<Seq<char>>,
)
    requires
        match uuid_parse(h) {
            Some(u) => !store.live_with_id(u),
            None => true,
        },
    ensures
        store.spec_resolve(Some(h), name_header) == Err::<Seq<char>, GatewayError>(
            GatewayError::InvalidTenant,
        ),
{
}

proof fn lemma_first_from_reaches(s: Seq<WorkspaceRecord>, name: Seq<char>, i: int, j: int)
    requires
        0 <= i <= j < s.len(),
        s[j].name@ == name,
        !s[j].deleted,
        forall|k: int| i <= k < j ==> !((#[trigger] s[k]).name@ == name && !s[k].deleted),
    ensures
        first_live_named_from(s, name, i) == Some(s[j].id),
    decreases j - i,
{
    if i < j {
        lemma_first_from_reaches(s, name, i + 1, j);
    }
}

/// A request bearing only a name header that exactly one live workspace
/// carries resolves to that workspace's canonical id text — not to the
/// name — and the subject the gateway then publishes to is namespaced by
/// that id.
pub proof fn lemma_name_only_resolves_to_canonical_id(
    store: WorkspaceStore,
    name: Seq<char>,
    j: int,
)
    requires
        0 <= j < store.records.len(),
        store.records[j].name@ == name,
        !store.records[j].deleted,
        forall|k: int|
            0 <= k < store.records.len() && k != j ==> !((#[trigger] store.records[k]).name@
                == name && !store.records[k].deleted),
    ensures
        store.spec_resolve(None, Some(name)) == Ok::<Seq<char>, GatewayError>(
            uuid_text_of(store.records[j as int].id),
        ),
        crate::subject::spec_subject(
            uuid_text_of(store.records[j as int].id),
            crate::subject::WorkspacesAction::RunSurl,
            None,
        ) == uuid_text_of(store.records[j as int].id) + "."@
            + crate::subject::spec_action_text(crate::subject::WorkspacesAction::RunSurl),
{
    lemma_first_from_reaches(store.records@, name, 0, j);
}

} // verus!
