//! Identities that the local storage of a browser profile holds.
//!
//! A profile's storage is read with its history: superseded values and deletions
//! included. Only the latest record of an origin counts, so neither an old sign-in
//! nor an old workspace comes back.
use crate::json::{json_of_text, parse_text, text_view, Json, JsonTree};
use crate::text::{
    all_digits, ascii_lowered, chars_of, eq_ignore_ascii_case, is_blank, only_digits, same, trim, trimmed,
};
use vstd::prelude::*;

verus! {

/// A text as it was decoded; `lossy` where the stored bytes were not proper text.
#[derive(Debug)]
pub struct StorageText {
    pub text: String,
    pub lossy: bool,
}

/// A record of the storage.
#[derive(Debug)]
pub struct StorageRecord {
    pub origin: String,
    pub key: StorageText,
    pub value: StorageText,
    pub seq: u64,
    pub deleted: bool,
}

/// What a [`StorageRecord`] says.
pub ghost struct RecordModel {
    pub origin: Seq<char>,
    pub key: Seq<char>,
    pub key_lossy: bool,
    pub value: Seq<char>,
    pub value_lossy: bool,
    pub seq: u64,
    pub deleted: bool,
}

impl View for StorageRecord {
    type V = RecordModel;

    open spec fn view(&self) -> RecordModel {
        RecordModel {
            origin: self.origin@,
            key: self.key.text@,
            key_lossy: self.key.lossy,
            value: self.value.text@,
            value_lossy: self.value.lossy,
            seq: self.seq,
            deleted: self.deleted,
        }
    }
}

pub open spec fn record_views(records: Seq<StorageRecord>) -> Seq<RecordModel> {
    records.map_values(|r: StorageRecord| r@)
}

/// Who is signed in, and to which workspace.
#[derive(Debug)]
pub struct BrowserIdentity {
    pub user_id: String,
    pub workspace_id: Option<String>,
}

/// What a [`BrowserIdentity`] says.
pub ghost struct IdentityModel {
    pub user_id: Seq<char>,
    pub workspace_id: Option<Seq<char>>,
}

impl View for BrowserIdentity {
    type V = IdentityModel;

    open spec fn view(&self) -> IdentityModel {
        IdentityModel { user_id: self.user_id@, workspace_id: text_view(self.workspace_id) }
    }
}

pub open spec fn identity_views(identities: Seq<BrowserIdentity>) -> Seq<IdentityModel> {
    identities.map_values(|i: BrowserIdentity| i@)
}

/// An origin of the service, in any case.
pub open spec fn is_orca(origin: Seq<char>) -> bool {
    ||| ascii_lowered(origin) == ascii_lowered("https://www.orcarouter.ai"@)
    ||| ascii_lowered(origin) == ascii_lowered("https://orcarouter.ai"@)
}

pub fn is_orca_origin(origin: &str) -> (r: bool)
    ensures
        r == is_orca(origin@),
{
    eq_ignore_ascii_case(origin, "https://www.orcarouter.ai") || eq_ignore_ascii_case(origin, "https://orcarouter.ai")
}

/// An identifier, written as a number or as a text that is not blank.
pub open spec fn id_in(tree: JsonTree) -> Option<Seq<char>> {
    match tree {
        JsonTree::Number(n) => n.text,
        JsonTree::Text(s) => if trimmed(s).len() > 0 {
            Some(trimmed(s))
        } else {
            None
        },
        _ => None,
    }
}

fn id_from_json(json: &Json) -> (r: Option<String>)
    ensures
        text_view(r) == id_in(json.tree()),
{
    match json {
        Json::Number(n) => match &n.text {
            Some(text) => Some(text.clone()),
            None => None,
        },
        Json::Text(s) => {
            let t = trim(s.as_str());
            if is_blank(t.as_str()) {
                None
            } else {
                Some(t)
            }
        },
        _ => None,
    }
}

/// The identifier in a stored user.
pub open spec fn user_id_in(tree: JsonTree) -> Option<Seq<char>> {
    match tree.field("id"@) {
        Some(id) => id_in(id),
        None => None,
    }
}

/// The identifier in the text of a stored user.
pub open spec fn user_id_of(value: Seq<char>) -> Option<Seq<char>> {
    match json_of_text(value) {
        Ok(tree) => user_id_in(tree),
        Err(_) => None,
    }
}

pub fn user_id_from_json(json: &Json) -> (r: Option<String>)
    ensures
        text_view(r) == user_id_in(json.tree()),
{
    match json.get("id") {
        Some(id) => id_from_json(id),
        None => None,
    }
}

pub fn parse_user_id(value: &str) -> (r: Option<String>)
    ensures
        text_view(r) == user_id_of(value@),
{
    match parse_text(value) {
        Ok(json) => user_id_from_json(&json),
        Err(_) => None,
    }
}

/// The identifier of a workspace in a text and in what the text is as JSON.
pub open spec fn workspace_id_in(text: Seq<char>, parsed: Result<JsonTree, Seq<char>>) -> Option<Seq<char>> {
    let id = match parsed {
        Ok(tree) => id_in(tree),
        Err(_) => None,
    };
    match id {
        Some(id) => Some(id),
        None => if all_digits(text) {
            Some(text)
        } else {
            None
        },
    }
}

/// The identifier in the text of a stored workspace.
pub open spec fn workspace_id_of(value: Seq<char>) -> Option<Seq<char>> {
    let text = trimmed(value);
    if text.len() == 0 {
        None
    } else {
        workspace_id_in(text, json_of_text(text))
    }
}

pub fn parse_workspace_id(value: &str) -> (r: Option<String>)
    ensures
        text_view(r) == workspace_id_of(value@),
{
    let text = trim(value);
    if is_blank(text.as_str()) {
        return None;
    }
    if let Ok(json) = parse_text(text.as_str()) {
        if let Some(id) = id_from_json(&json) {
            return Some(id);
        }
    }
    let v = chars_of(text.as_str());
    if only_digits(&v, 0, v.len()) {
        Some(text)
    } else {
        None
    }
}

/// A record of the key for the origin.
pub open spec fn concerns(record: RecordModel, origin: Seq<char>, key: Seq<char>) -> bool {
    record.origin == origin && !record.key_lossy && record.key == key
}

/// The latest record of the key for the origin; of two with the same number the
/// first counts.
pub open spec fn latest(records: Seq<RecordModel>, origin: Seq<char>, key: Seq<char>) -> Option<RecordModel>
    decreases records.len(),
{
    if records.len() == 0 {
        None
    } else {
        let record = records.last();
        match latest(records.drop_last(), origin, key) {
            None => if concerns(record, origin, key) {
                Some(record)
            } else {
                None
            },
            Some(best) => if concerns(record, origin, key) && record.seq > best.seq {
                Some(record)
            } else {
                Some(best)
            },
        }
    }
}

/// The value of a record that is neither deleted nor damaged.
pub open spec fn live_value(record: Option<RecordModel>) -> Option<Seq<char>> {
    match record {
        Some(record) => if record.deleted || record.value_lossy {
            None
        } else {
            Some(record.value)
        },
        None => None,
    }
}

/// The identity that the records hold for an origin.
pub open spec fn identity_for(records: Seq<RecordModel>, origin: Seq<char>) -> Option<IdentityModel> {
    match live_value(latest(records, origin, "user"@)) {
        None => None,
        Some(user) => match user_id_of(user) {
            None => None,
            Some(user_id) => Some(
                IdentityModel {
                    user_id,
                    workspace_id: match live_value(latest(records, origin, "active_workspace_id"@)) {
                        Some(workspace) => workspace_id_of(workspace),
                        None => None,
                    },
                },
            ),
        },
    }
}

/// A record that can say anything about an identity.
pub open spec fn is_relevant(record: RecordModel) -> bool {
    is_orca(record.origin) && !record.key_lossy && (record.key == "user"@ || record.key == "active_workspace_id"@)
}

/// The relevant ones of some records.
pub open spec fn relevant_only(records: Seq<RecordModel>) -> Seq<RecordModel>
    decreases records.len(),
{
    if records.len() == 0 {
        Seq::empty()
    } else if is_relevant(records.last()) {
        relevant_only(records.drop_last()).push(records.last())
    } else {
        relevant_only(records.drop_last())
    }
}

/// Other records make no difference.
proof fn lemma_latest_relevant(records: Seq<RecordModel>, origin: Seq<char>, key: Seq<char>)
    requires
        is_orca(origin),
        key == "user"@ || key == "active_workspace_id"@,
    ensures
        latest(relevant_only(records), origin, key) == latest(records, origin, key),
    decreases records.len(),
{
    if records.len() > 0 {
        lemma_latest_relevant(records.drop_last(), origin, key);
        if is_relevant(records.last()) {
            assert(relevant_only(records).drop_last() =~= relevant_only(records.drop_last()));
        }
    }
}

proof fn lemma_relevant_members(records: Seq<RecordModel>, i: int)
    ensures
        0 <= i < relevant_only(records).len() ==> is_relevant(relevant_only(records)[i]) && records.contains(
            relevant_only(records)[i],
        ),
    decreases records.len(),
{
    if records.len() > 0 {
        let before = relevant_only(records.drop_last());
        if is_relevant(records.last()) && i == before.len() {
            assert(records[records.len() - 1] == relevant_only(records)[i]);
        } else {
            lemma_relevant_members(records.drop_last(), i);
            if 0 <= i < before.len() {
                let k = records.drop_last().index_of(before[i]);
                assert(records[k] == before[i]);
            }
        }
    }
}

proof fn lemma_relevant_kept(records: Seq<RecordModel>, i: int)
    requires
        0 <= i < records.len(),
        is_relevant(records[i]),
    ensures
        relevant_only(records).contains(records[i]),
    decreases records.len(),
{
    let all = relevant_only(records);
    if i == records.len() - 1 {
        assert(all[all.len() - 1] == records[i]);
    } else {
        lemma_relevant_kept(records.drop_last(), i);
        let before = relevant_only(records.drop_last());
        let k = before.index_of(records[i]);
        assert(all[k] == records[i]);
    }
}

/// What is held for an origin only if one of its records concerns the user.
proof fn lemma_identity_needs_user(records: Seq<RecordModel>, origin: Seq<char>, key: Seq<char>)
    ensures
        latest(records, origin, key) is Some ==> exists|i: int|
            0 <= i < records.len() && concerns(#[trigger] records[i], origin, key),
    decreases records.len(),
{
    if records.len() > 0 {
        lemma_identity_needs_user(records.drop_last(), origin, key);
        if latest(records.drop_last(), origin, key) is Some {
            let i = choose|i: int|
                0 <= i < records.drop_last().len() && concerns(#[trigger] records.drop_last()[i], origin, key);
            assert(concerns(records[i], origin, key));
        } else if latest(records, origin, key) is Some {
            assert(concerns(records[records.len() - 1], origin, key));
        }
    }
}

fn collect_relevant<'a>(records: &'a Vec<StorageRecord>) -> (r: Vec<&'a StorageRecord>)
    ensures
        reference_views(r@) == relevant_only(record_views(records@)),
{
    let ghost all = record_views(records@);
    let mut r: Vec<&'a StorageRecord> = Vec::new();
    let mut i: usize = 0;
    proof {
        assert(all.take(0) =~= Seq::<RecordModel>::empty());
        assert(reference_views(r@) =~= Seq::<RecordModel>::empty());
    }
    while i < records.len()
        invariant
            i <= records@.len(),
            all == record_views(records@),
            reference_views(r@) == relevant_only(all.take(i as int)),
        decreases records@.len() - i,
    {
        let ghost before = reference_views(r@);
        proof {
            assert(all.take(i + 1).drop_last() =~= all.take(i as int));
            assert(all.take(i + 1).last() == records@[i as int]@);
        }
        let record = &records[i];
        if is_orca_origin(record.origin.as_str()) && !record.key.lossy && (same(record.key.text.as_str(), "user")
            || same(record.key.text.as_str(), "active_workspace_id")) {
            r.push(record);
            proof {
                assert(reference_views(r@) =~= before.push(record@));
            }
        }
        i = i + 1;
    }
    proof {
        assert(all.take(i as int) =~= all);
    }
    r
}

pub open spec fn reference_views(records: Seq<&StorageRecord>) -> Seq<RecordModel> {
    records.map_values(|r: &StorageRecord| r@)
}

pub open spec fn reference_view(record: Option<&StorageRecord>) -> Option<RecordModel> {
    match record {
        Some(record) => Some(record@),
        None => None,
    }
}

fn find_latest<'a>(records: &Vec<&'a StorageRecord>, origin: &str, key: &str) -> (r: Option<&'a StorageRecord>)
    ensures
        reference_view(r) == latest(reference_views(records@), origin@, key@),
{
    let ghost all = reference_views(records@);
    let mut best: Option<&'a StorageRecord> = None;
    let mut i: usize = 0;
    proof {
        assert(all.take(0) =~= Seq::<RecordModel>::empty());
    }
    while i < records.len()
        invariant
            i <= records@.len(),
            all == reference_views(records@),
            reference_view(best) == latest(all.take(i as int), origin@, key@),
        decreases records@.len() - i,
    {
        proof {
            assert(all.take(i + 1).drop_last() =~= all.take(i as int));
            assert(all.take(i + 1).last() == records@[i as int]@);
        }
        let record = records[i];
        if !record.key.lossy && same(record.origin.as_str(), origin) && same(record.key.text.as_str(), key) {
            let newer = match best {
                Some(b) => record.seq > b.seq,
                None => true,
            };
            if newer {
                best = Some(record);
            }
        }
        i = i + 1;
    }
    proof {
        assert(all.take(i as int) =~= all);
    }
    best
}

pub open spec fn identity_view(identity: Option<BrowserIdentity>) -> Option<IdentityModel> {
    match identity {
        Some(identity) => Some(identity@),
        None => None,
    }
}

fn find_identity(records: &Vec<&StorageRecord>, origin: &str) -> (r: Option<BrowserIdentity>)
    ensures
        identity_view(r) == identity_for(reference_views(records@), origin@),
{
    let user = match find_latest(records, origin, "user") {
        Some(record) => record,
        None => return None,
    };
    if user.deleted || user.value.lossy {
        return None;
    }
    let user_id = match parse_user_id(user.value.text.as_str()) {
        Some(id) => id,
        None => return None,
    };
    let workspace_id = match find_latest(records, origin, "active_workspace_id") {
        Some(record) => if record.deleted || record.value.lossy {
            None
        } else {
            parse_workspace_id(record.value.text.as_str())
        },
        None => None,
    };
    Some(BrowserIdentity { user_id, workspace_id })
}

fn same_identity(a: &BrowserIdentity, b: &BrowserIdentity) -> (r: bool)
    ensures
        r == (a@ == b@),
{
    let workspaces = match (&a.workspace_id, &b.workspace_id) {
        (Some(x), Some(y)) => same(x.as_str(), y.as_str()),
        (None, None) => true,
        _ => false,
    };
    workspaces && same(a.user_id.as_str(), b.user_id.as_str())
}

/// Adds an identity at the end, unless it is there already.
pub fn add_identity(identities: &mut Vec<BrowserIdentity>, identity: BrowserIdentity)
    requires
        identity_views(old(identities)@).no_duplicates(),
    ensures
        identity_views(final(identities)@).no_duplicates(),
        identity_views(final(identities)@) == (if identity_views(old(identities)@).contains(identity@) {
            identity_views(old(identities)@)
        } else {
            identity_views(old(identities)@).push(identity@)
        }),
{
    let ghost before = identity_views(identities@);
    let mut i: usize = 0;
    while i < identities.len()
        invariant
            i <= identities@.len(),
            before == identity_views(identities@),
            identities@ == old(identities)@,
            before.no_duplicates(),
            forall|k: int| 0 <= k < i ==> #[trigger] before[k] != identity@,
        decreases identities@.len() - i,
    {
        assert(before[i as int] == identities@[i as int]@);
        if same_identity(&identities[i], &identity) {
            assert(before.contains(identity@));
            return;
        }
        i = i + 1;
    }
    proof {
        assert(!before.contains(identity@));
    }
    identities.push(identity);
    proof {
        assert(identity_views(identities@) =~= before.push(identity@));
    }
}

/// An identity that the records hold for some origin of the service.
pub open spec fn is_held(records: Seq<RecordModel>, identity: IdentityModel) -> bool {
    exists|origin: Seq<char>| is_orca(origin) && #[trigger] identity_for(records, origin) == Some(identity)
}

/// The identities that the records hold, each once.
pub fn identities_from_records(records: &Vec<StorageRecord>) -> (r: Vec<BrowserIdentity>)
    ensures
        identity_views(r@).no_duplicates(),
        forall|identity: IdentityModel| #[trigger]
            identity_views(r@).contains(identity) <==> is_held(record_views(records@), identity),
{
    let ghost all = record_views(records@);
    let relevant = collect_relevant(records);
    let ghost rel = reference_views(relevant@);
    let mut identities: Vec<BrowserIdentity> = Vec::new();
    let mut i: usize = 0;
    proof {
        assert(identity_views(identities@) =~= Seq::<IdentityModel>::empty());
    }
    while i < relevant.len()
        invariant
            i <= relevant@.len(),
            all == record_views(records@),
            rel == reference_views(relevant@),
            rel == relevant_only(all),
            identity_views(identities@).no_duplicates(),
            forall|k: int|
                0 <= k < i && (#[trigger] identity_for(all, rel[k].origin)) is Some ==> identity_views(
                    identities@,
                ).contains(identity_for(all, rel[k].origin)->0),
            forall|identity: IdentityModel| #[trigger]
                identity_views(identities@).contains(identity) ==> is_held(all, identity),
        decreases relevant@.len() - i,
    {
        let origin = relevant[i].origin.as_str();
        proof {
            assert(rel[i as int] == relevant@[i as int]@);
            lemma_relevant_members(all, i as int);
            lemma_latest_relevant(all, origin@, "user"@);
            lemma_latest_relevant(all, origin@, "active_workspace_id"@);
            assert(identity_for(rel, origin@) == identity_for(all, origin@));
        }
        let ghost before = identity_views(identities@);
        if let Some(identity) = find_identity(&relevant, origin) {
            let ghost found = identity@;
            proof {
                assert(is_held(all, found));
            }
            add_identity(&mut identities, identity);
            proof {
                let after = identity_views(identities@);
                assert(after.contains(found)) by {
                    if !before.contains(found) {
                        assert(after[before.len() as int] == found);
                    }
                }
                assert forall|other: IdentityModel| before.contains(other) implies after.contains(other) by {
                    let k = before.index_of(other);
                    assert(after[k] == other);
                }
                assert forall|other: IdentityModel| #[trigger] after.contains(other) implies is_held(all, other) by {
                    if other != found {
                        let k = after.index_of(other);
                        if !before.contains(found) && k == before.len() {
                            assert(after[k] == found);
                        } else {
                            assert(before[k] == other);
                            assert(before.contains(other));
                        }
                    }
                }
            }
        }
        i = i + 1;
    }
    proof {
        assert forall|identity: IdentityModel| is_held(all, identity) implies #[trigger] identity_views(
            identities@,
        ).contains(identity) by {
            let origin = choose|origin: Seq<char>|
                is_orca(origin) && #[trigger] identity_for(all, origin) == Some(identity);
            lemma_identity_needs_user(all, origin, "user"@);
            let j = choose|j: int| 0 <= j < all.len() && concerns(#[trigger] all[j], origin, "user"@);
            assert(is_relevant(all[j]));
            lemma_relevant_kept(all, j);
            let k = rel.index_of(all[j]);
            assert(rel[k].origin == origin);
            assert(identity_for(all, rel[k].origin) is Some);
        }
    }
    identities
}

/// What holds of known identities and more of them together: the known ones stay first, and
/// each stands once.
pub open spec fn is_merge(known: Seq<IdentityModel>, more: Seq<IdentityModel>, all: Seq<IdentityModel>) -> bool {
    &&& all.no_duplicates()
    &&& known.is_prefix_of(all)
    &&& forall|identity: IdentityModel| #[trigger]
        all.contains(identity) <==> known.contains(identity) || more.contains(identity)
}

/// The identities of one more profile, after those of the profiles before.
pub fn merge_identities(known: Vec<BrowserIdentity>, more: Vec<BrowserIdentity>) -> (r: Vec<BrowserIdentity>)
    requires
        identity_views(known@).no_duplicates(),
    ensures
        is_merge(identity_views(known@), identity_views(more@), identity_views(r@)),
{
    let ghost first = identity_views(known@);
    let ghost second = identity_views(more@);
    let mut r = known;
    let mut i: usize = 0;
    while i < more.len()
        invariant
            i <= more@.len(),
            second == identity_views(more@),
            identity_views(r@).no_duplicates(),
            first.is_prefix_of(identity_views(r@)),
            forall|identity: IdentityModel| #[trigger]
                identity_views(r@).contains(identity) <==> first.contains(identity) || second.take(
                    i as int,
                ).contains(identity),
        decreases more@.len() - i,
    {
        let ghost before = identity_views(r@);
        let copy = BrowserIdentity {
            user_id: more[i].user_id.clone(),
            workspace_id: crate::snapshot::copy_text(&more[i].workspace_id),
        };
        let ghost added = copy@;
        proof {
            assert(second[i as int] == added);
        }
        add_identity(&mut r, copy);
        proof {
            let after = identity_views(r@);
            assert forall|identity: IdentityModel| #[trigger]
                after.contains(identity) <==> first.contains(identity) || second.take(i + 1).contains(identity) by {
                let now = second.take(i + 1);
                let earlier = second.take(i as int);
                if now.contains(identity) {
                    let k = now.index_of(identity);
                    if k < i {
                        assert(earlier[k] == identity);
                    }
                }
                if earlier.contains(identity) {
                    let k = earlier.index_of(identity);
                    assert(now[k] == identity);
                }
                if identity == added {
                    assert(now[i as int] == identity);
                    if !before.contains(added) {
                        assert(after[before.len() as int] == added);
                    }
                }
                if before.contains(identity) {
                    let k = before.index_of(identity);
                    assert(after[k] == identity);
                }
                if after.contains(identity) {
                    let k = after.index_of(identity);
                    if k < before.len() {
                        assert(before[k] == identity);
                    }
                }
            }
        }
        i = i + 1;
    }
    proof {
        assert(second.take(i as int) =~= second);
    }
    r
}

/// The headers that name an identity to the service.
pub open spec fn identity_headers_of(identity: IdentityModel, cookie: Option<Seq<char>>) -> Seq<(Seq<char>, Seq<char>)> {
    let common = seq![("Accept"@, "application/json"@), ("Cache-Control"@, "no-store"@)];
    let session = match cookie {
        Some(cookie) => common.push(("Cookie"@, cookie)),
        None => common,
    };
    let user = session.push(("New-API-User"@, identity.user_id));
    match identity.workspace_id {
        Some(workspace) => user.push(("X-Workspace-Id"@, workspace)),
        None => user,
    }
}

pub open spec fn header_views(headers: Seq<(String, String)>) -> Seq<(Seq<char>, Seq<char>)> {
    headers.map_values(|h: (String, String)| (h.0@, h.1@))
}

/// The headers that name an identity to the service, with a cookie where there is
/// one.
pub fn identity_headers(identity: &BrowserIdentity, cookie: &Option<String>) -> (r: Vec<(String, String)>)
    ensures
        header_views(r@) == identity_headers_of(identity@, text_view(*cookie)),
{
    let mut r: Vec<(String, String)> = Vec::new();
    r.push(("Accept".to_string(), "application/json".to_string()));
    r.push(("Cache-Control".to_string(), "no-store".to_string()));
    if let Some(cookie) = cookie {
        r.push(("Cookie".to_string(), cookie.clone()));
    }
    r.push(("New-API-User".to_string(), identity.user_id.clone()));
    if let Some(workspace) = &identity.workspace_id {
        r.push(("X-Workspace-Id".to_string(), workspace.clone()));
    }
    proof {
        assert(header_views(r@) =~= identity_headers_of(identity@, text_view(*cookie)));
    }
    r
}

/// Once the latest user record of an origin is a deletion, no identity is held for
/// it, whatever the records before said.
pub proof fn law_a_deleted_user_stays_signed_out(records: Seq<RecordModel>, origin: Seq<char>)
    requires
        latest(records, origin, "user"@) is Some,
        latest(records, origin, "user"@)->0.deleted,
    ensures
        identity_for(records, origin) is None,
{
}

/// A later workspace record replaces an earlier one, and a deletion leaves the
/// identity without a workspace.
pub proof fn law_a_deleted_workspace_is_not_reused(records: Seq<RecordModel>, origin: Seq<char>)
    requires
        identity_for(records, origin) is Some,
        latest(records, origin, "active_workspace_id"@) is Some,
        latest(records, origin, "active_workspace_id"@)->0.deleted,
    ensures
        identity_for(records, origin)->0.workspace_id is None,
{
}

/// No record of the key for the origin is later than the one that counts.
pub proof fn law_the_latest_record_counts(records: Seq<RecordModel>, origin: Seq<char>, key: Seq<char>, i: int)
    requires
        0 <= i < records.len(),
        concerns(records[i], origin, key),
    ensures
        latest(records, origin, key) is Some,
        concerns(latest(records, origin, key)->0, origin, key),
        records[i].seq <= latest(records, origin, key)->0.seq,
    decreases records.len(),
{
    if i < records.len() - 1 {
        assert(records.drop_last()[i] == records[i]);
        law_the_latest_record_counts(records.drop_last(), origin, key, i);
    } else {
        lemma_latest_concerns(records.drop_last(), origin, key);
    }
}

proof fn lemma_latest_concerns(records: Seq<RecordModel>, origin: Seq<char>, key: Seq<char>)
    ensures
        latest(records, origin, key) is Some ==> concerns(latest(records, origin, key)->0, origin, key),
    decreases records.len(),
{
    if records.len() > 0 {
        lemma_latest_concerns(records.drop_last(), origin, key);
    }
}

/// An identifier is the number as it is written, or the text without white space around it.
pub proof fn law_identifiers_are_numbers_or_texts(tree: JsonTree, n: crate::json::NumberModel, s: Seq<char>)
    ensures
        id_in(JsonTree::Number(n)) == n.text,
        trimmed(s).len() > 0 ==> id_in(JsonTree::Text(s)) == Some(trimmed(s)),
        trimmed(s).len() == 0 ==> id_in(JsonTree::Text(s)) is None,
        !(tree is Number) && !(tree is Text) ==> id_in(tree) is None,
        tree.field("id"@) is Some ==> user_id_in(tree) == id_in(tree.field("id"@)->0),
        tree.field("id"@) is None ==> user_id_in(tree) is None,
{
}

/// A workspace is what its text is as JSON, else the text itself where it is all digits.
pub proof fn law_workspaces_may_be_bare_digits(text: Seq<char>, tree: JsonTree, error: Seq<char>)
    ensures
        id_in(tree) is Some ==> workspace_id_in(text, Ok(tree)) == id_in(tree),
        all_digits(text) ==> workspace_id_in(text, Err(error)) == Some(text),
        !all_digits(text) ==> workspace_id_in(text, Err(error)) is None,
{
}

/// The identity of an origin is the user of its latest user record together with the workspace
/// of its latest workspace record, as far as both are alive.
pub proof fn law_identities_join_user_and_workspace(records: Seq<RecordModel>, origin: Seq<char>)
    ensures
        ({
            let user = latest(records, origin, "user"@);
            let workspace = latest(records, origin, "active_workspace_id"@);
            let alive = user is Some && !user->0.deleted && !user->0.value_lossy;
            let placed = workspace is Some && !workspace->0.deleted && !workspace->0.value_lossy;
            let r = identity_for(records, origin);
            &&& r is Some <==> alive && user_id_of(user->0.value) is Some
            &&& r is Some ==> Some(r->0.user_id) == user_id_of(user->0.value)
            &&& r is Some && placed ==> r->0.workspace_id == workspace_id_of(workspace->0.value)
            &&& r is Some && !placed ==> r->0.workspace_id is None
        }),
{
}

/// The record that counts is one of the records.
pub proof fn law_the_counting_record_is_a_record(records: Seq<RecordModel>, origin: Seq<char>, key: Seq<char>)
    requires
        latest(records, origin, key) is Some,
    ensures
        records.contains(latest(records, origin, key)->0),
        latest(records, origin, key)->0.origin == origin,
        latest(records, origin, key)->0.key == key,
        !latest(records, origin, key)->0.key_lossy,
    decreases records.len(),
{
    lemma_latest_concerns(records, origin, key);
    let rest = records.drop_last();
    assert(records[records.len() - 1] == records.last());
    if latest(rest, origin, key) is Some {
        law_the_counting_record_is_a_record(rest, origin, key);
        let k = choose|k: int| 0 <= k < rest.len() && rest[k] == latest(rest, origin, key)->0;
        assert(records[k] == rest[k]);
    }
}

/// An identity names user and workspace to the service, and carries the cookie where there is
/// one.
pub proof fn law_headers_name_the_identity(identity: IdentityModel, cookie: Seq<char>)
    ensures
        ({
            let bare = identity_headers_of(identity, None);
            let full = identity_headers_of(identity, Some(cookie));
            let n = if identity.workspace_id is Some { 1int } else { 0int };
            &&& bare.len() == 3 + n && full.len() == 4 + n
            &&& bare[0] == ("Accept"@, "application/json"@) && full[0] == bare[0]
            &&& bare[1] == ("Cache-Control"@, "no-store"@) && full[1] == bare[1]
            &&& full[2] == ("Cookie"@, cookie)
            &&& bare[2] == ("New-API-User"@, identity.user_id) && full[3] == bare[2]
            &&& identity.workspace_id is Some ==> bare[3] == ("X-Workspace-Id"@, identity.workspace_id->0) && full[4]
                == bare[3]
        }),
{
}

/// The two origins of the service, and no other.
pub proof fn law_only_two_origins_count(origin: Seq<char>)
    ensures
        is_orca("https://www.orcarouter.ai"@),
        is_orca("https://orcarouter.ai"@),
        is_orca(origin) ==> ascii_lowered(origin) == ascii_lowered("https://www.orcarouter.ai"@) || ascii_lowered(
            origin,
        ) == ascii_lowered("https://orcarouter.ai"@),
{
}

/// The identities that records hold are those of the origins of the service, each read from the
/// records of its own origin.
pub proof fn law_held_identities_have_an_origin(records: Seq<RecordModel>, origin: Seq<char>, identity: IdentityModel)
    ensures
        is_orca(origin) && identity_for(records, origin) == Some(identity) ==> is_held(records, identity),
        (forall|other: Seq<char>| is_orca(other) ==> #[trigger] identity_for(records, other) != Some(identity))
            ==> !is_held(records, identity),
{
}

/// No identity is lost where profiles are put together, none is added, and the known ones keep
/// their places.
pub proof fn law_merging_loses_no_identity(
    known: Seq<IdentityModel>,
    more: Seq<IdentityModel>,
    all: Seq<IdentityModel>,
    i: int,
    j: int,
)
    requires
        is_merge(known, more, all),
    ensures
        0 <= i < known.len() ==> all.len() >= known.len() && all[i] == known[i],
        0 <= i < more.len() ==> all.contains(more[i]),
        0 <= i < all.len() ==> known.contains(all[i]) || more.contains(all[i]),
        0 <= i < j < all.len() ==> all[i] != all[j],
{
    if 0 <= i < known.len() {
        assert(known == all.take(known.len() as int));
        assert(known[i] == all.take(known.len() as int)[i]);
    }
    if 0 <= i < more.len() {
        assert(more.contains(more[i]));
    }
    if 0 <= i < all.len() {
        assert(all.contains(all[i]));
    }
}

/// A workspace is read from its text without the white space around it; a blank text names none.
pub proof fn law_workspaces_are_read_from_their_text(value: Seq<char>)
    ensures
        trimmed(value).len() == 0 ==> workspace_id_of(value) is None,
        trimmed(value).len() > 0 ==> workspace_id_of(value) == workspace_id_in(
            trimmed(value),
            json_of_text(trimmed(value)),
        ),
{
}

} // verus!
