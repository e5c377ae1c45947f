//! The resource reconciler: one state machine per resource category. The
//! machine decides; the caller performs the remote calls and file reads it
//! asks for and feeds the results back. For each declared resource the
//! machine resolves the icon (hashing its bytes and uploading only when the
//! content changed), resolves the remote identifier (ledger first, then the
//! remote directory, else a create call), always issues an update, and
//! records the outcome in the ledger. A resource's failure never stops the
//! remaining resources.

use vstd::prelude::*;
use crate::config::DeclaredResource;
use crate::directory::{
    DirectoryEntry, ListResponse, dir_find, merge_find, names_unique, merge_page,
    directory_lookup,
};
use crate::errors::SyncError;
use crate::fields::{Category, ResourceFields, fields_spec, build_fields};
use crate::fingerprint::{content_fingerprint, fingerprint_of};
use crate::state::{
    ResourceState, entries_wf, find_by_name_spec, find_id_spec, ledger_find_by_name,
    ledger_upsert,
};
use crate::text::clone_opt_string;

verus! {

/// How a resource's remote identifier was resolved.
pub enum IdentityResolution {
    /// The ledger knows the identifier: it is authoritative.
    Known(u64),
    /// The ledger has no record, but the remote directory lists the name:
    /// the resource is adopted under the directory's identifier.
    Adopt(u64),
    /// Neither knows the name: the resource must be created.
    Create,
}

/// The identity resolution order: ledger, then remote directory, then
/// creation.
pub open spec fn resolve_identity_spec(
    ledger: Seq<(u64, ResourceState)>,
    directory: Seq<DirectoryEntry>,
    name: Seq<char>,
) -> IdentityResolution {
    match find_by_name_spec(ledger, name) {
        Some(p) => IdentityResolution::Known(p.0),
        None => match dir_find(directory, name) {
            Some(rid) => IdentityResolution::Adopt(rid),
            None => IdentityResolution::Create,
        },
    }
}

/// Resolves the remote identifier for a declared name: the ledger wins
/// over the remote directory; a name known to neither must be created.
pub fn resolve_identity(
    ledger: &Vec<(u64, ResourceState)>,
    directory: &Vec<DirectoryEntry>,
    name: &str,
) -> (r: IdentityResolution)
    ensures
        r == resolve_identity_spec(ledger@, directory@, name@),
{
    match ledger_find_by_name(ledger, name) {
        Some(p) => IdentityResolution::Known(p.0),
        None => match directory_lookup(directory, name) {
            Some(rid) => IdentityResolution::Adopt(rid),
            None => IdentityResolution::Create,
        },
    }
}

/// The asset identifier to reuse for an icon, if the ledger entry records
/// the same content hash together with an asset identifier; otherwise the
/// icon must be uploaded.
pub open spec fn icon_reuse_spec(entry: Option<ResourceState>, hash: Seq<char>) -> Option<u64> {
    match entry {
        Some(e) => match e.icon_hash {
            Some(h) => if h@ == hash {
                match e.icon_asset_id {
                    Some(a) => Some(a),
                    None => None,
                }
            } else {
                None
            },
            None => None,
        },
        None => None,
    }
}

/// Decides whether a freshly hashed icon can reuse a previously uploaded
/// asset: only when the entry records the same hash and an asset
/// identifier. This is the content-addressed deduplication that makes
/// re-runs cheap.
pub fn icon_reuse(entry: Option<&ResourceState>, hash: &String) -> (r: Option<u64>)
    ensures
        r == icon_reuse_spec(
            match entry {
                Some(e) => Some(*e),
                None => None::<ResourceState>,
            },
            hash@,
        ),
{
    match entry {
        Some(e) => match &e.icon_hash {
            Some(h) => if crate::text::eq_exact(h.as_str(), hash.as_str()) {
                match e.icon_asset_id {
                    Some(a) => Some(a),
                    None => None,
                }
            } else {
                None
            },
            None => None,
        },
        None => None,
    }
}

/// The ledger entry a successful sync records: the declared fields of the
/// resource's category, plus the icon hash and asset identifier, if any.
pub open spec fn entry_of(
    cat: Category,
    r: DeclaredResource,
    hash: Option<String>,
    asset: Option<u64>,
) -> ResourceState {
    ResourceState {
        name: r.name,
        description: r.description,
        price: if cat is Badge {
            None
        } else {
            r.price
        },
        is_for_sale: if cat is GamePass {
            r.is_for_sale
        } else {
            None
        },
        is_enabled: if cat is Badge {
            r.is_enabled
        } else {
            None
        },
        icon_hash: hash,
        icon_asset_id: asset,
    }
}

/// Where the category machine stands.
#[derive(Clone, Copy, PartialEq, Eq, Structural)]
pub enum SyncPhase {
    /// Waiting for a page of the category's listing.
    Listing,
    /// Waiting for the current resource's icon bytes.
    IconWait,
    /// Waiting for the asset pipeline's result for the current icon.
    UploadWait,
    /// Waiting for the result of the current resource's create call.
    CreateWait,
    /// Waiting for the result of the update call against this identifier.
    UpdateWait { id: u64 },
    /// Every resource has been processed, or the listing failed.
    Done,
}

/// What the caller must do next.
pub enum SyncAction {
    /// Fetch one listing page, with this cursor after the first page.
    FetchPage { cursor: Option<String> },
    /// Read the icon file at this path, relative to the assets directory.
    ReadIcon { path: String },
    /// Run the asset upload pipeline on this icon file.
    Upload { path: String },
    /// Issue the category's create call with these fields.
    Create { fields: ResourceFields },
    /// Issue the category's update call against this identifier.
    Update { id: u64, fields: ResourceFields },
    /// Nothing is left to do for this category.
    Finished,
}

/// What the caller observed after performing the requested action.
pub enum SyncEvent {
    /// A listing page arrived, parsed, or the listing call failed.
    PageFetched(Result<ListResponse<DirectoryEntry>, SyncError>),
    /// The icon file's bytes, or why they could not be read.
    IconBytes(Result<Vec<u8>, SyncError>),
    /// The asset identifier the upload pipeline produced, or its failure.
    Uploaded(Result<u64, SyncError>),
    /// The identifier of the created resource, or the create's failure.
    Created(Result<u64, SyncError>),
    /// The update call's completion, or its failure.
    Updated(Result<(), SyncError>),
}

/// How one resource's reconciliation ended: the resolved identifier on
/// success, or the error that stopped this resource alone.
pub struct ResourceOutcome {
    pub name: String,
    pub result: Result<u64, SyncError>,
}

/// One category's reconciliation in progress.
pub struct CategorySync {
    pub category: Category,
    pub resources: Vec<DeclaredResource>,
    pub directory: Vec<DirectoryEntry>,
    pub idx: usize,
    pub phase: SyncPhase,
    pub icon_hash: Option<String>,
    pub icon_asset_id: Option<u64>,
    pub outcomes: Vec<ResourceOutcome>,
    pub listing_error: Option<SyncError>,
}

impl CategorySync {
    /// The resource currently being reconciled.
    pub open spec fn current(&self) -> DeclaredResource {
        self.resources@[self.idx as int]
    }

    pub open spec fn wf(&self) -> bool {
        &&& names_unique(self.directory@)
        &&& self.idx <= self.resources@.len()
        &&& self.outcomes@.len() == self.idx
        &&& (self.listing_error is Some ==> self.phase is Done)
        &&& match self.phase {
            SyncPhase::Listing => self.idx == 0 && self.icon_hash is None
                && self.icon_asset_id is None,
            SyncPhase::IconWait => self.idx < self.resources@.len() && self.current().icon is Some
                && self.icon_hash is None && self.icon_asset_id is None,
            SyncPhase::UploadWait => self.idx < self.resources@.len() && self.icon_hash is Some
                && self.icon_asset_id is None,
            SyncPhase::CreateWait => self.idx < self.resources@.len() && (self.icon_asset_id
                is Some ==> self.icon_hash is Some),
            SyncPhase::UpdateWait { id } => self.idx < self.resources@.len() && (
            self.icon_asset_id is Some ==> self.icon_hash is Some),
            SyncPhase::Done => true,
        }
    }

    /// Which events the machine takes in its current phase.
    pub open spec fn accepts(&self, event: SyncEvent) -> bool {
        match (self.phase, event) {
            (SyncPhase::Listing, SyncEvent::PageFetched(_)) => true,
            (SyncPhase::IconWait, SyncEvent::IconBytes(_)) => true,
            (SyncPhase::UploadWait, SyncEvent::Uploaded(_)) => true,
            (SyncPhase::CreateWait, SyncEvent::Created(_)) => true,
            (SyncPhase::UpdateWait { .. }, SyncEvent::Updated(_)) => true,
            _ => false,
        }
    }

    /// A fresh machine for one category. The caller fetches the first
    /// listing page (no cursor) and feeds the result in.
    pub fn new(category: Category, resources: Vec<DeclaredResource>) -> (r: Self)
        ensures
            r.wf(),
            r.category == category,
            r.resources == resources,
            r.phase is Listing,
            r.directory@.len() == 0,
            r.outcomes@.len() == 0,
            r.listing_error is None,
    {
        CategorySync {
            category,
            resources,
            directory: Vec::new(),
            idx: 0,
            phase: SyncPhase::Listing,
            icon_hash: None,
            icon_asset_id: None,
            outcomes: Vec::new(),
            listing_error: None,
        }
    }

    /// The first action of a fresh machine: fetch the first listing page.
    pub fn start(&self) -> (r: SyncAction)
        requires
            self.phase is Listing,
        ensures
            r == (SyncAction::FetchPage { cursor: None::<String> }),
    {
        SyncAction::FetchPage { cursor: None }
    }
}

/// What beginning the resource at `idx` looks like: past the end, the
/// machine is done; a resource with an icon asks for its bytes; one
/// without goes straight to identity resolution with no icon.
pub open spec fn begins_resource(
    cat: Category,
    resources: Seq<DeclaredResource>,
    idx: int,
    directory: Seq<DirectoryEntry>,
    ledger: Seq<(u64, ResourceState)>,
    post: CategorySync,
    action: SyncAction,
) -> bool {
    &&& post.idx == idx
    &&& if idx >= resources.len() {
        post.phase is Done && action is Finished
    } else {
        let r = resources[idx];
        match r.icon {
            Some(p) => post.phase is IconWait && action == (SyncAction::ReadIcon { path: p })
                && post.icon_hash is None && post.icon_asset_id is None,
            None => post.icon_hash is None && identity_pred(
                cat,
                r,
                None,
                directory,
                ledger,
                post,
                action,
            ),
        }
    }
}

/// What identity resolution does: a name the ledger knows is updated under
/// the ledger's identifier; one only the directory lists is updated under
/// the directory's identifier; an unknown name is created, with the
/// resolved icon in the field set either way.
pub open spec fn identity_pred(
    cat: Category,
    r: DeclaredResource,
    icon_asset: Option<u64>,
    directory: Seq<DirectoryEntry>,
    ledger: Seq<(u64, ResourceState)>,
    post: CategorySync,
    action: SyncAction,
) -> bool {
    &&& post.icon_asset_id == icon_asset
    &&& match resolve_identity_spec(ledger, directory, r.name@) {
        IdentityResolution::Known(id) => post.phase == (SyncPhase::UpdateWait { id }) && action
            == (SyncAction::Update { id, fields: fields_spec(cat, r, icon_asset, false) }),
        IdentityResolution::Adopt(id) => post.phase == (SyncPhase::UpdateWait { id }) && action
            == (SyncAction::Update { id, fields: fields_spec(cat, r, icon_asset, false) }),
        IdentityResolution::Create => post.phase is CreateWait && action == (SyncAction::Create {
            fields: fields_spec(cat, r, icon_asset, true),
        }),
    }
}

/// The ledger after recording a successful sync: the entry under the
/// resolved identifier is overwritten wholesale (in place when the
/// identifier was known, appended otherwise); every other identifier's
/// entry is untouched.
pub open spec fn ledger_after_upsert(
    ledger0: Seq<(u64, ResourceState)>,
    ledger1: Seq<(u64, ResourceState)>,
    id: u64,
    entry: ResourceState,
) -> bool {
    &&& entries_wf(ledger1)
    &&& find_id_spec(ledger1, id) == Some(entry)
    &&& (forall|o: u64| o != id ==> find_id_spec(ledger1, o) == find_id_spec(ledger0, o))
    &&& ((exists|i: int|
        0 <= i < ledger0.len() && ledger0[i].0 == id && ledger1 == ledger0.update(i, (id, entry)))
        || (find_id_spec(ledger0, id) is None && ledger1 == ledger0.push((id, entry))))
}

/// The whole step relation: what one event does to the machine, the
/// ledger, and which action comes next.
pub open spec fn step_post(
    pre: CategorySync,
    ledger0: Seq<(u64, ResourceState)>,
    event: SyncEvent,
    post: CategorySync,
    action: SyncAction,
    ledger1: Seq<(u64, ResourceState)>,
) -> bool {
    &&& post.category == pre.category
    &&& post.resources == pre.resources
    &&& match (pre.phase, event) {
        (SyncPhase::Listing, SyncEvent::PageFetched(res)) => match res {
            Ok(page) => {
                &&& ledger1 == ledger0
                &&& names_unique(post.directory@)
                &&& (forall|n: Seq<char>| #![trigger dir_find(post.directory@, n)]
                    dir_find(post.directory@, n) == merge_find(pre.directory@, page.data@, n))
                &&& post.outcomes == pre.outcomes
                &&& post.listing_error is None
                &&& match page.next_page_cursor {
                    Some(c) => post.phase is Listing && post.idx == 0 && post.icon_hash is None
                        && post.icon_asset_id is None && action == (SyncAction::FetchPage {
                        cursor: Some(c),
                    }),
                    None => begins_resource(
                        pre.category,
                        pre.resources@,
                        0,
                        post.directory@,
                        ledger0,
                        post,
                        action,
                    ),
                }
            },
            Err(e) => {
                &&& ledger1 == ledger0
                &&& post.directory == pre.directory
                &&& post.outcomes == pre.outcomes
                &&& post.idx == pre.idx
                &&& post.phase is Done
                &&& post.listing_error == Some(e)
                &&& action is Finished
            },
        },
        (SyncPhase::IconWait, SyncEvent::IconBytes(res)) => match res {
            Ok(bytes) => {
                &&& ledger1 == ledger0
                &&& post.directory == pre.directory
                &&& post.outcomes == pre.outcomes
                &&& post.idx == pre.idx
                &&& post.listing_error == pre.listing_error
                &&& {
                    let r = pre.current();
                    let entry = find_by_name_spec(ledger0, r.name@);
                    match icon_reuse_spec(
                        match entry {
                            Some(p) => Some(p.1),
                            None => None::<ResourceState>,
                        },
                        fingerprint_of(bytes@),
                    ) {
                        Some(a) => {
                            // reuse: no upload happens for this resource
                            &&& post.icon_hash == match entry {
                                Some(p) => p.1.icon_hash,
                                None => None::<String>,
                            }
                            &&& identity_pred(
                                pre.category,
                                r,
                                Some(a),
                                pre.directory@,
                                ledger0,
                                post,
                                action,
                            )
                        },
                        None => {
                            &&& post.phase is UploadWait
                            &&& (post.icon_hash matches Some(h) && h@ == fingerprint_of(bytes@))
                            &&& post.icon_asset_id is None
                            &&& (r.icon matches Some(p) && action == (SyncAction::Upload {
                                path: p,
                            }))
                        },
                    }
                }
            },
            Err(e) => fails_resource(pre, ledger0, e, post, action, ledger1),
        },
        (SyncPhase::UploadWait, SyncEvent::Uploaded(res)) => match res {
            Ok(aid) => {
                &&& ledger1 == ledger0
                &&& post.directory == pre.directory
                &&& post.outcomes == pre.outcomes
                &&& post.idx == pre.idx
                &&& post.listing_error == pre.listing_error
                &&& post.icon_hash == pre.icon_hash
                &&& identity_pred(
                    pre.category,
                    pre.current(),
                    Some(aid),
                    pre.directory@,
                    ledger0,
                    post,
                    action,
                )
            },
            Err(e) => fails_resource(pre, ledger0, e, post, action, ledger1),
        },
        (SyncPhase::CreateWait, SyncEvent::Created(res)) => match res {
            Ok(id) => {
                &&& ledger1 == ledger0
                &&& post.directory == pre.directory
                &&& post.outcomes == pre.outcomes
                &&& post.idx == pre.idx
                &&& post.listing_error == pre.listing_error
                &&& post.icon_hash == pre.icon_hash
                &&& post.icon_asset_id == pre.icon_asset_id
                &&& post.phase == (SyncPhase::UpdateWait { id })
                &&& action == (SyncAction::Update {
                    id,
                    fields: fields_spec(pre.category, pre.current(), pre.icon_asset_id, false),
                })
            },
            Err(e) => fails_resource(pre, ledger0, e, post, action, ledger1),
        },
        (SyncPhase::UpdateWait { id }, SyncEvent::Updated(res)) => match res {
            Ok(_) => {
                let entry = entry_of(pre.category, pre.current(), pre.icon_hash, pre.icon_asset_id);
                &&& ledger_after_upsert(ledger0, ledger1, id, entry)
                &&& post.directory == pre.directory
                &&& post.listing_error == pre.listing_error
                &&& post.outcomes@ == pre.outcomes@.push(
                    ResourceOutcome { name: pre.current().name, result: Ok(id) },
                )
                &&& begins_resource(
                    pre.category,
                    pre.resources@,
                    pre.idx + 1,
                    pre.directory@,
                    ledger1,
                    post,
                    action,
                )
            },
            Err(e) => fails_resource(pre, ledger0, e, post, action, ledger1),
        },
        _ => false,
    }
}

/// Failure isolation: a failed step for one resource records that
/// resource's error, leaves the ledger untouched, and begins the next
/// resource as if nothing had happened.
pub open spec fn fails_resource(
    pre: CategorySync,
    ledger0: Seq<(u64, ResourceState)>,
    e: SyncError,
    post: CategorySync,
    action: SyncAction,
    ledger1: Seq<(u64, ResourceState)>,
) -> bool {
    &&& ledger1 == ledger0
    &&& post.directory == pre.directory
    &&& post.listing_error == pre.listing_error
    &&& post.outcomes@ == pre.outcomes@.push(
        ResourceOutcome { name: pre.current().name, result: Err(e) },
    )
    &&& begins_resource(
        pre.category,
        pre.resources@,
        pre.idx + 1,
        pre.directory@,
        ledger0,
        post,
        action,
    )
}

impl CategorySync {
    fn begin_resource(&mut self, ledger: &Vec<(u64, ResourceState)>) -> (r: SyncAction)
        requires
            old(self).idx <= old(self).resources@.len(),
            names_unique(old(self).directory@),
            old(self).outcomes@.len() == old(self).idx,
            old(self).listing_error is None,
        ensures
            final(self).wf(),
            final(self).category == old(self).category,
            final(self).resources == old(self).resources,
            final(self).directory == old(self).directory,
            final(self).outcomes == old(self).outcomes,
            final(self).listing_error == old(self).listing_error,
            begins_resource(
                old(self).category,
                old(self).resources@,
                old(self).idx as int,
                old(self).directory@,
                ledger@,
                *final(self),
                r,
            ),
    {
        if self.idx >= self.resources.len() {
            self.phase = SyncPhase::Done;
            return SyncAction::Finished;
        }
        self.icon_hash = None;
        self.icon_asset_id = None;
        let icon = clone_opt_string(&self.resources[self.idx].icon);
        match icon {
            Some(path) => {
                self.phase = SyncPhase::IconWait;
                SyncAction::ReadIcon { path }
            },
            None => self.identity_step(ledger),
        }
    }

    fn identity_step(&mut self, ledger: &Vec<(u64, ResourceState)>) -> (r: SyncAction)
        requires
            old(self).idx < old(self).resources@.len(),
            names_unique(old(self).directory@),
            old(self).outcomes@.len() == old(self).idx,
            old(self).listing_error is None,
            old(self).icon_asset_id is Some ==> old(self).icon_hash is Some,
        ensures
            final(self).wf(),
            final(self).category == old(self).category,
            final(self).resources == old(self).resources,
            final(self).directory == old(self).directory,
            final(self).outcomes == old(self).outcomes,
            final(self).listing_error == old(self).listing_error,
            final(self).idx == old(self).idx,
            final(self).icon_hash == old(self).icon_hash,
            identity_pred(
                old(self).category,
                old(self).current(),
                old(self).icon_asset_id,
                old(self).directory@,
                ledger@,
                *final(self),
                r,
            ),
    {
        let resolution = resolve_identity(
            ledger,
            &self.directory,
            self.resources[self.idx].name.as_str(),
        );
        match resolution {
            IdentityResolution::Known(id) => {
                let fields = build_fields(
                    self.category,
                    &self.resources[self.idx],
                    self.icon_asset_id,
                    false,
                );
                self.phase = SyncPhase::UpdateWait { id };
                SyncAction::Update { id, fields }
            },
            IdentityResolution::Adopt(id) => {
                let fields = build_fields(
                    self.category,
                    &self.resources[self.idx],
                    self.icon_asset_id,
                    false,
                );
                self.phase = SyncPhase::UpdateWait { id };
                SyncAction::Update { id, fields }
            },
            IdentityResolution::Create => {
                let fields = build_fields(
                    self.category,
                    &self.resources[self.idx],
                    self.icon_asset_id,
                    true,
                );
                self.phase = SyncPhase::CreateWait;
                SyncAction::Create { fields }
            },
        }
    }

    fn fail_resource(&mut self, ledger: &Vec<(u64, ResourceState)>, e: SyncError) -> (r: SyncAction)
        requires
            old(self).idx < old(self).resources@.len(),
            names_unique(old(self).directory@),
            old(self).outcomes@.len() == old(self).idx,
            old(self).listing_error is None,
        ensures
            final(self).wf(),
            final(self).category == old(self).category,
            final(self).resources == old(self).resources,
            final(self).directory == old(self).directory,
            final(self).listing_error == old(self).listing_error,
            fails_resource(*old(self), ledger@, e, *final(self), r, ledger@),
    {
        let n = self.resources.len();
        let name = self.resources[self.idx].name.clone();
        self.outcomes.push(ResourceOutcome { name, result: Err(e) });
        assert(self.idx < n);
        self.idx = self.idx + 1;
        self.begin_resource(ledger)
    }

    /// Feeds the machine what the last requested action produced, and gets
    /// the next action. The one place the ledger changes is a successful
    /// update: the resolved identifier's entry is then overwritten with
    /// the declared fields and the resolved icon pair.
    pub fn step(
        &mut self,
        ledger: &mut Vec<(u64, ResourceState)>,
        event: SyncEvent,
    ) -> (r: SyncAction)
        requires
            old(self).wf(),
            old(self).accepts(event),
            entries_wf(old(ledger)@),
        ensures
            final(self).wf(),
            entries_wf(final(ledger)@),
            step_post(*old(self), old(ledger)@, event, *final(self), r, final(ledger)@),
    {
        match event {
            SyncEvent::PageFetched(res) => match res {
                Ok(page) => {
                    merge_page(&mut self.directory, &page.data);
                    match page.next_page_cursor {
                        Some(c) => SyncAction::FetchPage { cursor: Some(c) },
                        None => self.begin_resource(ledger),
                    }
                },
                Err(e) => {
                    self.listing_error = Some(e);
                    self.phase = SyncPhase::Done;
                    SyncAction::Finished
                },
            },
            SyncEvent::IconBytes(res) => match res {
                Ok(bytes) => {
                    let hash = content_fingerprint(&bytes);
                    let reused: Option<(u64, Option<String>)> = match ledger_find_by_name(
                        ledger,
                        self.resources[self.idx].name.as_str(),
                    ) {
                        Some(p) => match icon_reuse(Some(p.1), &hash) {
                            Some(a) => Some((a, clone_opt_string(&p.1.icon_hash))),
                            None => None,
                        },
                        None => None,
                    };
                    match reused {
                        Some((a, stored_hash)) => {
                            self.icon_hash = stored_hash;
                            self.icon_asset_id = Some(a);
                            self.identity_step(ledger)
                        },
                        None => {
                            self.icon_hash = Some(hash);
                            self.icon_asset_id = None;
                            self.phase = SyncPhase::UploadWait;
                            let path = match clone_opt_string(&self.resources[self.idx].icon) {
                                Some(p) => p,
                                None => vstd::pervasive::unreached(),
                            };
                            SyncAction::Upload { path }
                        },
                    }
                },
                Err(e) => self.fail_resource(ledger, e),
            },
            SyncEvent::Uploaded(res) => match res {
                Ok(aid) => {
                    self.icon_asset_id = Some(aid);
                    self.identity_step(ledger)
                },
                Err(e) => self.fail_resource(ledger, e),
            },
            SyncEvent::Created(res) => match res {
                Ok(id) => {
                    let fields = build_fields(
                        self.category,
                        &self.resources[self.idx],
                        self.icon_asset_id,
                        false,
                    );
                    self.phase = SyncPhase::UpdateWait { id };
                    SyncAction::Update { id, fields }
                },
                Err(e) => self.fail_resource(ledger, e),
            },
            SyncEvent::Updated(res) => match res {
                Ok(_) => {
                    let id = match self.phase {
                        SyncPhase::UpdateWait { id } => id,
                        _ => vstd::pervasive::unreached(),
                    };
                    let r = &self.resources[self.idx];
                    let entry = ResourceState {
                        name: r.name.clone(),
                        description: clone_opt_string(&r.description),
                        price: match self.category {
                            Category::Badge => None,
                            _ => r.price,
                        },
                        is_for_sale: match self.category {
                            Category::GamePass => r.is_for_sale,
                            _ => None,
                        },
                        is_enabled: match self.category {
                            Category::Badge => r.is_enabled,
                            _ => None,
                        },
                        icon_hash: clone_opt_string(&self.icon_hash),
                        icon_asset_id: self.icon_asset_id,
                    };
                    assert(entry == entry_of(
                        self.category,
                        old(self).current(),
                        old(self).icon_hash,
                        old(self).icon_asset_id,
                    ));
                    ledger_upsert(ledger, id, entry);
                    let n = self.resources.len();
                    let name = self.resources[self.idx].name.clone();
                    self.outcomes.push(ResourceOutcome { name, result: Ok(id) });
                    assert(self.idx < n);
                    self.idx = self.idx + 1;
                    self.begin_resource(ledger)
                },
                Err(e) => self.fail_resource(ledger, e),
            },
        }
    }
}

/// Identity resolution precedence: when a name is in the ledger under
/// identifier `a` and in the remote directory under any identifier `b`,
/// the ledger wins — the machine issues its update against `a`.
pub proof fn lemma_identity_precedence(
    cat: Category,
    r: DeclaredResource,
    icon_asset: Option<u64>,
    directory: Seq<DirectoryEntry>,
    ledger: Seq<(u64, ResourceState)>,
    post: CategorySync,
    action: SyncAction,
    a: u64,
    b: u64,
)
    requires
        identity_pred(cat, r, icon_asset, directory, ledger, post, action),
        find_by_name_spec(ledger, r.name@) matches Some(p) && p.0 == a,
        dir_find(directory, r.name@) == Some(b),
    ensures
        post.phase == (SyncPhase::UpdateWait { id: a }),
        action == (SyncAction::Update { id: a, fields: fields_spec(cat, r, icon_asset, false) }),
{
}

/// First-run adoption: a name absent from the ledger but listed in the
/// remote directory is updated (not created) under the directory's
/// identifier.
pub proof fn lemma_first_run_adoption(
    cat: Category,
    r: DeclaredResource,
    icon_asset: Option<u64>,
    directory: Seq<DirectoryEntry>,
    ledger: Seq<(u64, ResourceState)>,
    post: CategorySync,
    action: SyncAction,
    b: u64,
)
    requires
        identity_pred(cat, r, icon_asset, directory, ledger, post, action),
        find_by_name_spec(ledger, r.name@) is None,
        dir_find(directory, r.name@) == Some(b),
    ensures
        post.phase == (SyncPhase::UpdateWait { id: b }),
        action == (SyncAction::Update { id: b, fields: fields_spec(cat, r, icon_asset, false) }),
{
}

/// A successful update is recorded: the ledger gains (or overwrites) the
/// entry under the updated identifier with the resource's declared fields
/// and resolved icon pair, touching no other identifier. With adoption's
/// identifier this closes the first-run adoption law; with a created
/// identifier it closes the creation law.
pub proof fn lemma_update_recorded(
    s1: CategorySync,
    ledger1: Seq<(u64, ResourceState)>,
    id: u64,
    s2: CategorySync,
    action2: SyncAction,
    ledger2: Seq<(u64, ResourceState)>,
)
    requires
        s1.phase == (SyncPhase::UpdateWait { id }),
        step_post(s1, ledger1, SyncEvent::Updated(Ok(())), s2, action2, ledger2),
    ensures
        find_id_spec(ledger2, id) == Some(
            entry_of(s1.category, s1.current(), s1.icon_hash, s1.icon_asset_id),
        ),
        forall|o: u64| o != id ==> find_id_spec(ledger2, o) == find_id_spec(ledger1, o),
        s2.outcomes@ == s1.outcomes@.push(
            ResourceOutcome { name: s1.current().name, result: Ok(id) },
        ),
{
}

/// Creation path: a create call's returned identifier is used for the
/// immediately following update call, and a successful update then
/// persists exactly that identifier to the ledger.
pub proof fn lemma_creation_path(
    s0: CategorySync,
    ledger0: Seq<(u64, ResourceState)>,
    id: u64,
    s1: CategorySync,
    action1: SyncAction,
    ledger1: Seq<(u64, ResourceState)>,
    s2: CategorySync,
    action2: SyncAction,
    ledger2: Seq<(u64, ResourceState)>,
)
    requires
        s0.phase is CreateWait,
        step_post(s0, ledger0, SyncEvent::Created(Ok(id)), s1, action1, ledger1),
        step_post(s1, ledger1, SyncEvent::Updated(Ok(())), s2, action2, ledger2),
    ensures
        ledger1 == ledger0,
        action1 == (SyncAction::Update {
            id,
            fields: fields_spec(s0.category, s0.current(), s0.icon_asset_id, false),
        }),
        find_id_spec(ledger2, id) == Some(
            entry_of(s0.category, s0.current(), s0.icon_hash, s0.icon_asset_id),
        ),
        forall|o: u64| o != id ==> find_id_spec(ledger2, o) == find_id_spec(ledger0, o),
{
    assert(s1.current() == s0.current());
}

/// Content addressing, changed content: when the ledger's entry for the
/// resource records a different hash than the bytes just read (or records
/// none, or no entry exists), the machine uploads.
pub proof fn lemma_changed_icon_uploads(
    s0: CategorySync,
    ledger0: Seq<(u64, ResourceState)>,
    bytes: Vec<u8>,
    s1: CategorySync,
    action1: SyncAction,
    ledger1: Seq<(u64, ResourceState)>,
)
    requires
        s0.wf(),
        s0.phase is IconWait,
        step_post(s0, ledger0, SyncEvent::IconBytes(Ok(bytes)), s1, action1, ledger1),
        match find_by_name_spec(ledger0, s0.current().name@) {
            Some(p) => match p.1.icon_hash {
                Some(h) => h@ != fingerprint_of(bytes@),
                None => true,
            },
            None => true,
        },
    ensures
        ledger1 == ledger0,
        action1 matches SyncAction::Upload { .. },
        s1.phase is UploadWait,
        s1.icon_hash matches Some(h) && h@ == fingerprint_of(bytes@),
{
}

/// Content addressing, unchanged content: when the ledger's entry for the
/// resource records the same hash as the bytes just read together with an
/// asset identifier, that identifier is reused — no upload happens — and
/// the resource goes straight to its update under the ledger identifier.
pub proof fn lemma_unchanged_icon_reuses(
    s0: CategorySync,
    ledger0: Seq<(u64, ResourceState)>,
    bytes: Vec<u8>,
    s1: CategorySync,
    action1: SyncAction,
    ledger1: Seq<(u64, ResourceState)>,
    id: u64,
    e: ResourceState,
    a: u64,
)
    requires
        s0.wf(),
        s0.phase is IconWait,
        step_post(s0, ledger0, SyncEvent::IconBytes(Ok(bytes)), s1, action1, ledger1),
        find_by_name_spec(ledger0, s0.current().name@) == Some((id, e)),
        e.icon_hash matches Some(h) && h@ == fingerprint_of(bytes@),
        e.icon_asset_id == Some(a),
    ensures
        ledger1 == ledger0,
        s1.icon_asset_id == Some(a),
        s1.icon_hash == e.icon_hash,
        s1.phase == (SyncPhase::UpdateWait { id }),
        action1 == (SyncAction::Update {
            id,
            fields: fields_spec(s0.category, s0.current(), Some(a), false),
        }),
{
}

/// Idempotence: a resource whose declared fields match its ledger entry
/// and whose icon bytes hash to the recorded hash is reconciled without
/// any upload, and a ledger that already records it is left exactly as it
/// was.
pub proof fn lemma_idempotent_resource(
    s0: CategorySync,
    ledger0: Seq<(u64, ResourceState)>,
    bytes: Vec<u8>,
    s1: CategorySync,
    action1: SyncAction,
    ledger1: Seq<(u64, ResourceState)>,
    s2: CategorySync,
    action2: SyncAction,
    ledger2: Seq<(u64, ResourceState)>,
    id: u64,
    e: ResourceState,
)
    requires
        s0.wf(),
        entries_wf(ledger0),
        s0.phase is IconWait,
        step_post(s0, ledger0, SyncEvent::IconBytes(Ok(bytes)), s1, action1, ledger1),
        step_post(s1, ledger1, SyncEvent::Updated(Ok(())), s2, action2, ledger2),
        find_by_name_spec(ledger0, s0.current().name@) == Some((id, e)),
        // the prior run recorded this same declared state and icon
        e == entry_of(s0.category, s0.current(), e.icon_hash, e.icon_asset_id),
        e.icon_hash matches Some(h) && h@ == fingerprint_of(bytes@),
        e.icon_asset_id is Some,
    ensures
        !(action1 matches SyncAction::Upload { .. }),
        ledger2 == ledger0,
{
    let a = e.icon_asset_id->Some_0;
    lemma_unchanged_icon_reuses(s0, ledger0, bytes, s1, action1, ledger1, id, e, a);
    lemma_update_recorded(s1, ledger1, id, s2, action2, ledger2);
    let entry = entry_of(s1.category, s1.current(), s1.icon_hash, s1.icon_asset_id);
    assert(s1.current() == s0.current());
    assert(entry == e);
    crate::state::lemma_find_by_name_some_in(ledger0, s0.current().name@);
    let k = choose|k: int| 0 <= k < ledger0.len() && ledger0[k] == (id, e);
    if exists|i: int|
        0 <= i < ledger0.len() && ledger0[i].0 == id && ledger2 == ledger0.update(i, (id, entry)) {
        let i = choose|i: int|
            0 <= i < ledger0.len() && ledger0[i].0 == id && ledger2 == ledger0.update(
                i,
                (id, entry),
            );
        assert(i == k);
        assert(ledger0.update(i, (id, entry)) =~= ledger0);
    } else {
        crate::state::lemma_find_id_none(ledger0, id);
        assert(ledger0[k].0 == id);
    }
}

/// Failure isolation: a failure event for one resource records that
/// resource's error, leaves the ledger exactly as it was, and begins the
/// next resource as if nothing had happened; later resources never see
/// the failure.
pub proof fn lemma_failure_isolation(
    s0: CategorySync,
    ledger0: Seq<(u64, ResourceState)>,
    event: SyncEvent,
    e: SyncError,
    s1: CategorySync,
    action1: SyncAction,
    ledger1: Seq<(u64, ResourceState)>,
)
    requires
        s0.wf(),
        s0.accepts(event),
        match event {
            SyncEvent::IconBytes(r) => r == Err::<Vec<u8>, SyncError>(e),
            SyncEvent::Uploaded(r) => r == Err::<u64, SyncError>(e),
            SyncEvent::Created(r) => r == Err::<u64, SyncError>(e),
            SyncEvent::Updated(r) => r == Err::<(), SyncError>(e),
            _ => false,
        },
        step_post(s0, ledger0, event, s1, action1, ledger1),
    ensures
        ledger1 == ledger0,
        s1.outcomes@ == s0.outcomes@.push(
            ResourceOutcome { name: s0.current().name, result: Err(e) },
        ),
        begins_resource(
            s0.category,
            s0.resources@,
            s0.idx + 1,
            s0.directory@,
            ledger0,
            s1,
            action1,
        ),
{
}

} // verus!
