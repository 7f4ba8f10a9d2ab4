//! Security: spotting uploads whose names look like ransomware at work and
//! recording an event for an administrator, the SIEM endpoints that audit events are
//! exported to, and the customer-managed key setting.
use vstd::prelude::*;
use vstd::relations::sorted_by;
use crate::text::{str_eq, ends_with, contains, has_suffix, has_infix, clone_opt};
use crate::rows::{Duplicate, select, select_sorted, rewrite, count_where};
use crate::runtime::{new_uuid, now_utc};

verus! {

broadcast use vstd::seq_lib::group_seq_properties, vstd::seq::group_seq_axioms;

/// What `str::to_lowercase` makes of `s` (Unicode lower-case mapping).
pub uninterp spec fn lowercased(s: Seq<char>) -> Seq<char>;

/// `str::to_lowercase` of std, which vstd does not specify. Its result is
/// named, not restated: Unicode's case tables are not written out here.
#[verifier::external_body]
fn to_lowercase(s: &str) -> (r: String)
    ensures
        r@ == lowercased(s@),
{
    s.to_lowercase()
}

/// The extensions that ransomware gives the files it encrypts.
pub open spec fn ransomware_extensions() -> Seq<Seq<char>> {
    seq![
        ".encrypted"@, ".locked"@, ".crypto"@, ".locky"@, ".zepto"@,
        ".cerber"@, ".wncry"@, ".wnry"@, ".wcry"@, ".wncryt"@,
    ]
}

/// The names of the notes that ransomware leaves behind.
pub open spec fn ransom_note_markers() -> Seq<Seq<char>> {
    seq!["readme_decrypt"@, "how_to_decrypt"@, "recover_files"@]
}

/// Whether a lower-cased file name looks like ransomware at work: it ends
/// with a ransomware extension or names a ransom note.
pub open spec fn suspicious_name(lower: Seq<char>) -> bool {
    (exists|i: int| 0 <= i < ransomware_extensions().len() && has_suffix(lower, #[trigger] ransomware_extensions()[i]))
    || (exists|i: int| 0 <= i < ransom_note_markers().len() && has_infix(lower, #[trigger] ransom_note_markers()[i]))
}

/// Whether a lower-cased file name looks like ransomware at work.
pub fn is_ransomware_name(lower: &str) -> (r: bool)
    ensures
        r == suspicious_name(lower@),
{
    proof {
        reveal_strlit(".encrypted");
        reveal_strlit(".locked");
        reveal_strlit(".crypto");
        reveal_strlit(".locky");
        reveal_strlit(".zepto");
        reveal_strlit(".cerber");
        reveal_strlit(".wncry");
        reveal_strlit(".wnry");
        reveal_strlit(".wcry");
        reveal_strlit(".wncryt");
        reveal_strlit("readme_decrypt");
        reveal_strlit("how_to_decrypt");
        reveal_strlit("recover_files");
    }
    let e0 = ends_with(lower, ".encrypted");
    let e1 = ends_with(lower, ".locked");
    let e2 = ends_with(lower, ".crypto");
    let e3 = ends_with(lower, ".locky");
    let e4 = ends_with(lower, ".zepto");
    let e5 = ends_with(lower, ".cerber");
    let e6 = ends_with(lower, ".wncry");
    let e7 = ends_with(lower, ".wnry");
    let e8 = ends_with(lower, ".wcry");
    let e9 = ends_with(lower, ".wncryt");
    let m0 = contains(lower, "readme_decrypt");
    let m1 = contains(lower, "how_to_decrypt");
    let m2 = contains(lower, "recover_files");
    let ghost exts = ransomware_extensions();
    let ghost marks = ransom_note_markers();
    let ext_hit = e0 || e1 || e2 || e3 || e4 || e5 || e6 || e7 || e8 || e9;
    let mark_hit = m0 || m1 || m2;
    proof {
        assert(exts[0] == ".encrypted"@ && exts[1] == ".locked"@ && exts[2] == ".crypto"@);
        assert(exts[3] == ".locky"@ && exts[4] == ".zepto"@ && exts[5] == ".cerber"@);
        assert(exts[6] == ".wncry"@ && exts[7] == ".wnry"@ && exts[8] == ".wcry"@ && exts[9] == ".wncryt"@);
        assert(marks[0] == "readme_decrypt"@ && marks[1] == "how_to_decrypt"@ && marks[2] == "recover_files"@);
        if !ext_hit {
            assert forall|i: int| 0 <= i < exts.len() implies !has_suffix(lower@, #[trigger] exts[i]) by {
                assert(i == 0 || i == 1 || i == 2 || i == 3 || i == 4 || i == 5 || i == 6 || i == 7 || i == 8 || i == 9);
            }
        }
        if !mark_hit {
            assert forall|i: int| 0 <= i < marks.len() implies !has_infix(lower@, #[trigger] marks[i]) by {
                assert(i == 0 || i == 1 || i == 2);
            }
        }
    }
    ext_hit || mark_hit
}

/// One row of the ransomware events table.
#[derive(Debug)]
pub struct RansomwareEvent {
    pub id: String,
    pub user_id: String,
    pub triggered_at: i64,
    pub event_count: i32,
    /// `open`, or `resolved` once an administrator handled it.
    pub status: String,
    pub reviewed_by: Option<String>,
    pub reviewed_at: Option<i64>,
}

impl Duplicate for RansomwareEvent {
    fn duplicate(&self) -> (r: Self) {
        RansomwareEvent {
            id: self.id.clone(),
            user_id: self.user_id.clone(),
            triggered_at: self.triggered_at,
            event_count: self.event_count,
            status: self.status.clone(),
            reviewed_by: clone_opt(&self.reviewed_by),
            reviewed_at: self.reviewed_at,
        }
    }
}

/// One row of the SIEM configurations table.
#[derive(Debug)]
pub struct SiemConfig {
    pub id: String,
    pub endpoint_url: String,
    pub api_key: String,
    pub format: String,
    pub is_active: bool,
    pub created_at: i64,
    pub updated_at: i64,
}

impl Duplicate for SiemConfig {
    fn duplicate(&self) -> (r: Self) {
        SiemConfig {
            id: self.id.clone(),
            endpoint_url: self.endpoint_url.clone(),
            api_key: self.api_key.clone(),
            format: self.format.clone(),
            is_active: self.is_active,
            created_at: self.created_at,
            updated_at: self.updated_at,
        }
    }
}

/// One row of the file activity log.
#[derive(Debug)]
pub struct ActivityLogEntry {
    pub id: String,
    pub user_id: String,
    pub action: String,
    pub resource_type: String,
    pub created_at: i64,
}

/// Orders events newest first.
pub open spec fn event_newest_first() -> spec_fn(RansomwareEvent, RansomwareEvent) -> bool {
    |a: RansomwareEvent, b: RansomwareEvent| a.triggered_at >= b.triggered_at
}

/// Orders SIEM configurations newest first.
pub open spec fn config_newest_first() -> spec_fn(SiemConfig, SiemConfig) -> bool {
    |a: SiemConfig, b: SiemConfig| a.created_at >= b.created_at
}

/// Selects every event.
pub open spec fn any_event() -> spec_fn(RansomwareEvent) -> bool {
    |e: RansomwareEvent| true
}

/// Selects every configuration.
pub open spec fn any_config() -> spec_fn(SiemConfig) -> bool {
    |c: SiemConfig| true
}

/// Selects the active configurations.
pub open spec fn active_config() -> spec_fn(SiemConfig) -> bool {
    |c: SiemConfig| c.is_active
}

/// Selects every configuration but `id`.
pub open spec fn config_not_id(id: Seq<char>) -> spec_fn(SiemConfig) -> bool {
    |c: SiemConfig| c.id@ != id
}

/// The event `id` once `handler` resolves it at time `now`, with the
/// status `status`.
pub open spec fn resolve_fn(id: Seq<char>, handler: String, status: String, now: i64) -> spec_fn(RansomwareEvent) -> RansomwareEvent {
    |e: RansomwareEvent| if e.id@ == id {
        RansomwareEvent { reviewed_at: Some(now), reviewed_by: Some(handler), status, ..e }
    } else {
        e
    }
}

/// Whether `e` is any event.
pub fn is_any_event(_k: &(), e: &RansomwareEvent) -> (b: bool)
    ensures
        b == any_event()(*e),
{
    true
}

/// Whether `c` is any configuration.
pub fn is_any_config(_k: &(), c: &SiemConfig) -> (b: bool)
    ensures
        b == any_config()(*c),
{
    true
}

/// Whether `c` is active.
pub fn is_active_config(_k: &(), c: &SiemConfig) -> (b: bool)
    ensures
        b == active_config()(*c),
{
    c.is_active
}

/// Whether `c` is any configuration but `k`.
pub fn is_config_not_id(k: &&str, c: &SiemConfig) -> (b: bool)
    ensures
        b == config_not_id(k@)(*c),
{
    !str_eq(c.id.as_str(), *k)
}

/// Whether `a` was triggered no earlier than `b`.
pub fn event_newer_before(_k: &(), a: &RansomwareEvent, b: &RansomwareEvent) -> (r: bool)
    ensures
        r == event_newest_first()(*a, *b),
{
    a.triggered_at >= b.triggered_at
}

/// Whether `a` was created no earlier than `b`.
pub fn config_newer_before(_k: &(), a: &SiemConfig, b: &SiemConfig) -> (r: bool)
    ensures
        r == config_newest_first()(*a, *b),
{
    a.created_at >= b.created_at
}

/// The event `e`, resolved if it is the one that `k` names.
pub fn apply_resolve(k: &(&str, &String, &String, i64), e: &RansomwareEvent) -> (r: RansomwareEvent)
    ensures
        r == resolve_fn(k.0@, *k.1, *k.2, k.3)(*e),
{
    let mut r = e.duplicate();
    if str_eq(e.id.as_str(), k.0) {
        r.reviewed_at = Some(k.3);
        r.reviewed_by = Some(k.1.clone());
        r.status = k.2.clone();
    }
    r
}

/// The security tables.
pub struct SecurityRepository {
    pub events: Vec<RansomwareEvent>,
    pub siem_configs: Vec<SiemConfig>,
    pub activity_log: Vec<ActivityLogEntry>,
}

impl SecurityRepository {
    /// A repository over its three tables.
    pub fn new(events: Vec<RansomwareEvent>, siem_configs: Vec<SiemConfig>, activity_log: Vec<ActivityLogEntry>) -> (r: Self)
        ensures
            r.events@ == events@,
            r.siem_configs@ == siem_configs@,
            r.activity_log@ == activity_log@,
    {
        SecurityRepository { events, siem_configs, activity_log }
    }

    /// Adds an event; returns the stored row.
    pub fn create_ransomware_event(&mut self, event: RansomwareEvent) -> (r: RansomwareEvent)
        ensures
            r == event,
            final(self).events@ == old(self).events@.push(event),
            final(self).siem_configs@ == old(self).siem_configs@,
    {
        let r = event.duplicate();
        self.events.push(event);
        r
    }

    /// Every event, newest first.
    pub fn list_ransomware_events(&self) -> (r: Vec<RansomwareEvent>)
        ensures
            sorted_by(r@, event_newest_first()),
            r@.to_multiset() == self.events@.filter(any_event()).to_multiset(),
    {
        select_sorted(&self.events, is_any_event, &(), Ghost(any_event()), event_newer_before, &(), Ghost(event_newest_first()))
    }

    /// Marks the event `id` resolved by `resolved_by` at time `now`.
    pub fn resolve_ransomware_event(&mut self, id: &str, resolved_by: &str, now: i64)
        ensures
            exists|handler: String, status: String| handler@ == resolved_by@ && status@ == "resolved"@
                && #[trigger] old(self).events@.map_values(resolve_fn(id@, handler, status, now)) == final(self).events@,
            final(self).siem_configs@ == old(self).siem_configs@,
    {
        proof { reveal_strlit("resolved"); }
        let handler = resolved_by.to_owned();
        let status = "resolved".to_owned();
        self.events = rewrite(&self.events, apply_resolve, &(id, &handler, &status, now), Ghost(resolve_fn(id@, handler, status, now)));
    }

    /// Adds a SIEM configuration; returns the stored row.
    pub fn create_siem_config(&mut self, config: SiemConfig) -> (r: SiemConfig)
        ensures
            r == config,
            final(self).siem_configs@ == old(self).siem_configs@.push(config),
            final(self).events@ == old(self).events@,
    {
        let r = config.duplicate();
        self.siem_configs.push(config);
        r
    }

    /// Every SIEM configuration, newest first.
    pub fn list_siem_configs(&self) -> (r: Vec<SiemConfig>)
        ensures
            sorted_by(r@, config_newest_first()),
            r@.to_multiset() == self.siem_configs@.filter(any_config()).to_multiset(),
    {
        select_sorted(&self.siem_configs, is_any_config, &(), Ghost(any_config()), config_newer_before, &(), Ghost(config_newest_first()))
    }

    /// Removes the SIEM configuration `id`.
    pub fn delete_siem_config(&mut self, id: &str)
        ensures
            final(self).siem_configs@ == old(self).siem_configs@.filter(config_not_id(id@)),
            final(self).events@ == old(self).events@,
    {
        self.siem_configs = select(&self.siem_configs, is_config_not_id, &id, Ghost(config_not_id(id@)));
    }
}

/// A request to add a SIEM endpoint.
pub struct CreateSiemConfigRequest {
    pub endpoint_url: String,
    pub api_key: Option<String>,
    pub format: String,
}

/// A request to register a customer-managed key.
pub struct CmekKeyRequest {
    pub key_arn: String,
    pub provider: String,
}

/// The state of a customer-managed key.
#[derive(Debug)]
pub struct CmekKeyResponse {
    pub key_arn: String,
    pub provider: String,
    pub status: String,
}

/// How many audit events one export sends at most.
pub const SIEM_EXPORT_BATCH: usize = 100;

/// The security rules over a repository.
pub struct SecurityService {
    pub repo: SecurityRepository,
}

/// What `user_id` resolving the event `id` at `now` does to the service
/// `old_s`, giving `new_s`.
pub open spec fn resolve_ransomware_event_done(old_s: SecurityService, new_s: SecurityService, id: &str, user_id: &str, now: i64) -> bool {
    &&& (exists|handler: String, status: String| handler@ == user_id@ && status@ == "resolved"@
        && #[trigger] old_s.repo.events@.map_values(resolve_fn(id@, handler, status, now)) == new_s.repo.events@)
    &&& (new_s.repo.siem_configs@ == old_s.repo.siem_configs@)
}

/// What checking the upload of `file_name` at `now` does to the service
/// `old_s`, giving `new_s` and answering `r`.
pub open spec fn check_upload_pattern_done(old_s: SecurityService, new_s: SecurityService, user_id: &str, file_id: &str, file_name: &str, mime_type: &str, now: i64, r: Option<String>) -> bool {
    &&& (new_s.repo.siem_configs@ == old_s.repo.siem_configs@)
    &&& (!suspicious_name(lowercased(file_name@)) ==> r is None && new_s.repo.events@ == old_s.repo.events@)
    &&& (suspicious_name(lowercased(file_name@)) ==> {
        &&& r is Some
        &&& new_s.repo.events@.len() == old_s.repo.events@.len() + 1
        &&& new_s.repo.events@.drop_last() == old_s.repo.events@
        &&& new_s.repo.events@.last().id == r->0
        &&& new_s.repo.events@.last().user_id@ == user_id@
        &&& new_s.repo.events@.last().triggered_at == now
        &&& new_s.repo.events@.last().event_count == 1
        &&& new_s.repo.events@.last().status@ == "open"@
        &&& new_s.repo.events@.last().reviewed_by is None
        &&& new_s.repo.events@.last().reviewed_at is None
    })
}

/// What creating a SIEM configuration at `now` does to the service `old_s`,
/// giving `new_s` and answering `r`.
pub open spec fn create_siem_config_done(old_s: SecurityService, new_s: SecurityService, req: CreateSiemConfigRequest, now: i64, r: SiemConfig) -> bool {
    &&& (r.endpoint_url == req.endpoint_url)
    &&& (r.api_key@ == match req.api_key { Some(k) => k@, None => Seq::<char>::empty() })
    &&& (r.format == req.format)
    &&& (r.is_active)
    &&& (r.created_at == now)
    &&& (r.updated_at == now)
    &&& (new_s.repo.siem_configs@ == old_s.repo.siem_configs@.push(r))
    &&& (new_s.repo.events@ == old_s.repo.events@)
}

impl SecurityService {
    /// A service over `repo`.
    pub fn new(repo: SecurityRepository) -> (s: Self)
        ensures
            s.repo == repo,
    {
        SecurityService { repo }
    }

    /// Every ransomware event, newest first.
    pub fn list_ransomware_events(&self) -> (r: Vec<RansomwareEvent>)
        ensures
            sorted_by(r@, event_newest_first()),
            r@.to_multiset() == self.repo.events@.filter(any_event()).to_multiset(),
    {
        self.repo.list_ransomware_events()
    }

    /// Marks the event `id` resolved by `user_id` at time `now`.
    pub fn resolve_ransomware_event_at(&mut self, id: &str, user_id: &str, now: i64)
        ensures
            resolve_ransomware_event_done(*old(self), *final(self), id, user_id, now),
    {
        self.repo.resolve_ransomware_event(id, user_id, now)
    }

    /// Marks the event `id` resolved by `user_id`, by the clock.
    pub fn resolve_ransomware_event(&mut self, id: &str, user_id: &str)
        ensures
            exists|now: i64| resolve_ransomware_event_done(*old(self), *final(self), id, user_id, now),
    {
        let now = now_utc();
        self.resolve_ransomware_event_at(id, user_id, now)
    }

    /// Checks an upload's name at time `now`; where it looks like ransomware
    /// at work, records an open event for the user and returns its id.
    pub fn check_upload_pattern_at(&mut self, user_id: &str, file_id: &str, file_name: &str, mime_type: &str, now: i64) -> (r: Option<String>)
        ensures
            check_upload_pattern_done(*old(self), *final(self), user_id, file_id, file_name, mime_type, now, r),
    {
        let lower = to_lowercase(file_name);
        if is_ransomware_name(lower.as_str()) {
            proof { reveal_strlit("open"); }
            let event = self.repo.create_ransomware_event(RansomwareEvent {
                id: new_uuid(),
                user_id: user_id.to_owned(),
                triggered_at: now,
                event_count: 1,
                status: "open".to_owned(),
                reviewed_by: None,
                reviewed_at: None,
            });
            assert(self.repo.events@.drop_last() =~= old(self).repo.events@);
            return Some(event.id);
        }
        None
    }

    /// Checks an upload's name, by the clock.
    pub fn check_upload_pattern(&mut self, user_id: &str, file_id: &str, file_name: &str, mime_type: &str) -> (r: Option<String>)
        ensures
            exists|now: i64| check_upload_pattern_done(*old(self), *final(self), user_id, file_id, file_name, mime_type, now, r),
    {
        let now = now_utc();
        self.check_upload_pattern_at(user_id, file_id, file_name, mime_type, now)
    }

    /// Adds an active SIEM endpoint at time `now`; without an API key, the
    /// key is empty.
    pub fn create_siem_config_at(&mut self, req: CreateSiemConfigRequest, now: i64) -> (r: SiemConfig)
        ensures
            create_siem_config_done(*old(self), *final(self), req, now, r),
    {
        let api_key = match req.api_key {
            Some(k) => k,
            None => String::new(),
        };
        self.repo.create_siem_config(SiemConfig {
            id: new_uuid(),
            endpoint_url: req.endpoint_url,
            api_key,
            format: req.format,
            is_active: true,
            created_at: now,
            updated_at: now,
        })
    }

    /// Adds an active SIEM endpoint, by the clock.
    pub fn create_siem_config(&mut self, req: CreateSiemConfigRequest) -> (r: SiemConfig)
        ensures
            exists|now: i64| create_siem_config_done(*old(self), *final(self), req, now, r),
    {
        let now = now_utc();
        self.create_siem_config_at(req, now)
    }

    /// Every SIEM endpoint, newest first.
    pub fn list_siem_configs(&self) -> (r: Vec<SiemConfig>)
        ensures
            sorted_by(r@, config_newest_first()),
            r@.to_multiset() == self.repo.siem_configs@.filter(any_config()).to_multiset(),
    {
        self.repo.list_siem_configs()
    }

    /// Removes the SIEM endpoint `id`.
    pub fn delete_siem_config(&mut self, id: &str)
        ensures
            final(self).repo.siem_configs@ == old(self).repo.siem_configs@.filter(config_not_id(id@)),
            final(self).repo.events@ == old(self).repo.events@,
    {
        self.repo.delete_siem_config(id)
    }

    /// How many audit events an export sends: none without an active
    /// endpoint, else the latest hundred or all there are if fewer.
    pub fn export_to_siem(&self) -> (count: usize)
        ensures
            self.repo.siem_configs@.filter(active_config()).len() == 0 ==> count == 0,
            self.repo.siem_configs@.filter(active_config()).len() > 0 ==>
                count == if self.repo.activity_log@.len() < SIEM_EXPORT_BATCH { self.repo.activity_log@.len() } else { SIEM_EXPORT_BATCH as nat },
    {
        let active = count_where(&self.repo.siem_configs, is_active_config, &(), Ghost(active_config()));
        if active == 0 {
            return 0;
        }
        let n = self.repo.activity_log.len();
        if n < SIEM_EXPORT_BATCH { n } else { SIEM_EXPORT_BATCH }
    }

    /// Records a customer-managed key; the key is reported as configured.
    pub fn configure_cmek(&self, req: CmekKeyRequest) -> (r: CmekKeyResponse)
        ensures
            r.key_arn == req.key_arn,
            r.provider == req.provider,
            r.status@ == "configured"@,
    {
        proof { reveal_strlit("configured"); }
        CmekKeyResponse { key_arn: req.key_arn, provider: req.provider, status: "configured".to_owned() }
    }
}

/// Law: every name that ends with a ransomware extension is suspicious,
/// whatever comes before it.
pub proof fn law_extension_is_suspicious(prefix: Seq<char>, i: int)
    requires
        0 <= i < ransomware_extensions().len(),
    ensures
        suspicious_name(prefix + ransomware_extensions()[i]),
{
    let e = ransomware_extensions()[i];
    let s = prefix + e;
    assert(s.subrange(s.len() - e.len(), s.len() as int) =~= e);
    assert(has_suffix(s, ransomware_extensions()[i]));
}

/// Law: resolving an event records who handled it, when, and the new
/// status, and keeps what triggered it; other events are untouched.
pub proof fn law_resolve_row(e: RansomwareEvent, id: Seq<char>, handler: String, status: String, now: i64)
    ensures
        e.id@ == id ==> {
            let f = resolve_fn(id, handler, status, now)(e);
            f.status == status && f.reviewed_by == Some(handler) && f.reviewed_at == Some(now)
                && f.id == e.id && f.user_id == e.user_id && f.triggered_at == e.triggered_at && f.event_count == e.event_count
        },
        e.id@ != id ==> resolve_fn(id, handler, status, now)(e) == e,
{
}

} // verus!
