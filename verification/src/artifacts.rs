//! The artifacts overlay: the artifact list, the version list shown for the
//! selected artifact, and the per-artifact caches of loaded versions and of
//! the version the user selected.
use vstd::prelude::*;
use std::collections::HashMap;
use crate::keys::KeyCode;
use crate::ids::{push_uuid, uuid_text};
use crate::text::{
    contains_seq, contains_str, chars_of, dec, dec_int, push_dec, push_dec_i64, push_str,
};

verus! {

broadcast use vstd::std_specs::hash::group_hash_axioms;

/// What the overlay reads of an artifact's metadata.
#[derive(Debug)]
pub struct ArtifactMetadata {
    pub artifact_id: u128,
    pub artifact_type: String,
    pub summary: String,
    /// Latest version.
    pub version: u32,
    pub size_bytes: u64,
    /// `updated_at` as a Unix timestamp in seconds.
    pub updated_at_unix: i64,
    pub content_path: String,
}

impl Clone for ArtifactMetadata {
    fn clone(&self) -> (r: Self)
        ensures
            r == *self,
    {
        ArtifactMetadata {
            artifact_id: self.artifact_id,
            artifact_type: self.artifact_type.clone(),
            summary: self.summary.clone(),
            version: self.version,
            size_bytes: self.size_bytes,
            updated_at_unix: self.updated_at_unix,
            content_path: self.content_path.clone(),
        }
    }
}

pub struct ArtifactsOverlay {
    pub thread_id: u128,
    pub artifacts: Vec<ArtifactMetadata>,
    pub selected: usize,
    /// The artifact whose versions are shown, if any.
    pub versions_for: Option<u128>,
    /// Versions of `versions_for`, newest first.
    pub versions: Vec<u32>,
    /// Index into `versions`.
    pub selected_version: usize,
    pub version_cache: HashMap<u128, Vec<u32>>,
    pub selected_version_cache: HashMap<u128, usize>,
}

/// Mathematical view of the overlay.
pub struct ArtifactsModel {
    pub artifacts: Seq<ArtifactMetadata>,
    pub selected: nat,
    pub versions_for: Option<u128>,
    pub versions: Seq<u32>,
    pub selected_version: nat,
    pub version_cache: Map<u128, Seq<u32>>,
    pub selected_version_cache: Map<u128, usize>,
}

impl View for ArtifactsOverlay {
    type V = ArtifactsModel;

    open spec fn view(&self) -> ArtifactsModel {
        ArtifactsModel {
            artifacts: self.artifacts@,
            selected: self.selected as nat,
            versions_for: self.versions_for,
            versions: self.versions@,
            selected_version: self.selected_version as nat,
            version_cache: self.version_cache@.map_values(|v: Vec<u32>| v@),
            selected_version_cache: self.selected_version_cache@,
        }
    }
}

pub enum ArtifactsLocalKeyResult {
    Unhandled,
    Handled(Option<String>),
}

// ---------------------------------------------------------------------------
// Specification
// ---------------------------------------------------------------------------

/// `versions` starts with `latest` (and so holds it).
pub open spec fn versions_match_latest_spec(versions: Seq<u32>, latest: u32) -> bool {
    versions.len() > 0 && versions[0] == latest && versions.contains(latest)
}

/// Index of the first occurrence of `x` in `s`, or 0 when it does not occur.
pub open spec fn index_or_zero(s: Seq<u32>, x: u32) -> nat
    decreases s.len(),
{
    if s.len() == 0 {
        0
    } else if s[0] == x {
        0
    } else if s.drop_first().contains(x) {
        1 + index_or_zero(s.drop_first(), x)
    } else {
        0
    }
}

/// Index of the first artifact with id `id`, or 0.
pub open spec fn artifact_index_or_zero(items: Seq<ArtifactMetadata>, id: u128) -> nat
    decreases items.len(),
{
    if items.len() == 0 {
        0
    } else if items[0].artifact_id == id {
        0
    } else if exists|k: int| 1 <= k < items.len() && items[k].artifact_id == id {
        1 + artifact_index_or_zero(items.drop_first(), id)
    } else {
        0
    }
}

/// The id of the selected artifact, if the selection points at one.
pub open spec fn selected_id(m: ArtifactsModel) -> Option<u128> {
    if m.selected < m.artifacts.len() {
        Some(m.artifacts[m.selected as int].artifact_id)
    } else {
        None
    }
}

/// Shows no versions.
pub open spec fn clear_versions(m: ArtifactsModel) -> ArtifactsModel {
    ArtifactsModel { versions_for: None, versions: seq![], selected_version: 0, ..m }
}

/// `activate_cached_versions_for_artifact`: the new state and its result.
pub open spec fn activate_spec(m: ArtifactsModel, id: u128, latest: u32) -> (ArtifactsModel, bool) {
    if !m.version_cache.contains_key(id) {
        (m, false)
    } else {
        let cached = m.version_cache[id];
        if !versions_match_latest_spec(cached, latest) {
            (
                ArtifactsModel {
                    version_cache: m.version_cache.remove(id),
                    selected_version_cache: m.selected_version_cache.remove(id),
                    ..m
                },
                false,
            )
        } else {
            let default_selected = index_or_zero(cached, latest);
            let wanted: nat = if m.selected_version_cache.contains_key(id) {
                m.selected_version_cache[id] as nat
            } else {
                default_selected
            };
            let selected: nat = if wanted < (cached.len() - 1) as nat {
                wanted
            } else {
                (cached.len() - 1) as nat
            };
            (
                ArtifactsModel {
                    versions_for: Some(id),
                    versions: cached,
                    selected_version: selected,
                    selected_version_cache: m.selected_version_cache.insert(id, selected as usize),
                    ..m
                },
                true,
            )
        }
    }
}

/// `sync_versions_for_selected_artifact`.
pub open spec fn sync_spec(m: ArtifactsModel) -> ArtifactsModel {
    if m.selected >= m.artifacts.len() {
        clear_versions(m)
    } else {
        let meta = m.artifacts[m.selected as int];
        let id = meta.artifact_id;
        let latest = meta.version;
        if m.versions_for == Some(id) && versions_match_latest_spec(m.versions, latest) {
            let sv: nat = if m.selected_version >= m.versions.len() {
                0
            } else {
                m.selected_version
            };
            ArtifactsModel {
                selected_version: sv,
                selected_version_cache: m.selected_version_cache.insert(id, sv as usize),
                ..m
            }
        } else {
            let a = activate_spec(m, id, latest);
            if a.1 {
                a.0
            } else {
                clear_versions(a.0)
            }
        }
    }
}

/// `sync_versions_if_selected_artifact_changed`.
pub open spec fn sync_if_changed_spec(m: ArtifactsModel, previous: Option<u128>) -> ArtifactsModel {
    if selected_id(m) != previous {
        sync_spec(m)
    } else {
        m
    }
}

pub enum ArtifactKeyOutcome {
    Unhandled,
    Handled,
    HandledLatestReset(u32),
    HandledLatestOnRead,
}

/// `handle_local_artifacts_key`: the new state and what is reported.
pub open spec fn artifacts_key_spec(m: ArtifactsModel, code: KeyCode) -> (ArtifactsModel, ArtifactKeyOutcome) {
    match code {
        KeyCode::Up => {
            let sel: nat = if m.selected > 0 { (m.selected - 1) as nat } else { 0 };
            (sync_if_changed_spec(ArtifactsModel { selected: sel, ..m }, selected_id(m)), ArtifactKeyOutcome::Handled)
        },
        KeyCode::Down => {
            let sel: nat = if m.artifacts.len() > 0 {
                if m.selected + 1 < m.artifacts.len() { m.selected + 1 } else { (m.artifacts.len() - 1) as nat }
            } else {
                m.selected
            };
            (sync_if_changed_spec(ArtifactsModel { selected: sel, ..m }, selected_id(m)), ArtifactKeyOutcome::Handled)
        },
        KeyCode::Left | KeyCode::Char('[') => {
            if m.versions_for is Some && m.versions.len() > 0 {
                let sv: nat = if m.selected_version + 1 < m.versions.len() {
                    m.selected_version + 1
                } else {
                    (m.versions.len() - 1) as nat
                };
                (
                    ArtifactsModel {
                        selected_version: sv,
                        selected_version_cache: m.selected_version_cache.insert(m.versions_for->0, sv as usize),
                        ..m
                    },
                    ArtifactKeyOutcome::Handled,
                )
            } else {
                (m, ArtifactKeyOutcome::Handled)
            }
        },
        KeyCode::Right | KeyCode::Char(']') => {
            if m.versions_for is Some && m.versions.len() > 0 {
                let sv: nat = if m.selected_version > 0 { (m.selected_version - 1) as nat } else { 0 };
                (
                    ArtifactsModel {
                        selected_version: sv,
                        selected_version_cache: m.selected_version_cache.insert(m.versions_for->0, sv as usize),
                        ..m
                    },
                    ArtifactKeyOutcome::Handled,
                )
            } else {
                (m, ArtifactKeyOutcome::Handled)
            }
        },
        KeyCode::Char('0') => {
            if m.selected >= m.artifacts.len() {
                (m, ArtifactKeyOutcome::Handled)
            } else {
                let meta = m.artifacts[m.selected as int];
                let a = activate_spec(m, meta.artifact_id, meta.version);
                let m1 = a.0;
                if a.1 || (m1.versions_for == Some(meta.artifact_id) && m1.versions.len() > 0) {
                    let sv = index_or_zero(m1.versions, meta.version);
                    (
                        ArtifactsModel {
                            selected_version: sv,
                            selected_version_cache: m1.selected_version_cache.insert(meta.artifact_id, sv as usize),
                            ..m1
                        },
                        ArtifactKeyOutcome::HandledLatestReset(meta.version),
                    )
                } else {
                    (m1, ArtifactKeyOutcome::HandledLatestOnRead)
                }
            }
        },
        _ => (m, ArtifactKeyOutcome::Unhandled),
    }
}

/// The status text reported for a key outcome.
pub open spec fn key_result_matches(r: ArtifactsLocalKeyResult, o: ArtifactKeyOutcome) -> bool {
    match o {
        ArtifactKeyOutcome::Unhandled => r is Unhandled,
        ArtifactKeyOutcome::Handled => r matches ArtifactsLocalKeyResult::Handled(s) && s is None,
        ArtifactKeyOutcome::HandledLatestReset(v) => r matches ArtifactsLocalKeyResult::Handled(s)
            && s matches Some(t) && t@ == "artifact version reset to latest: "@ + dec(v as nat),
        ArtifactKeyOutcome::HandledLatestOnRead => r matches ArtifactsLocalKeyResult::Handled(s)
            && s matches Some(t) && t@ == "artifact read will use latest version"@,
    }
}

// ---------------------------------------------------------------------------
// Executable code
// ---------------------------------------------------------------------------

pub(crate) fn copy_versions(v: &Vec<u32>) -> (out: Vec<u32>)
    ensures
        out@ == v@,
{
    let mut out: Vec<u32> = Vec::new();
    let mut i: usize = 0;
    while i < v.len()
        invariant
            i <= v.len(),
            out@ == v@.take(i as int),
        decreases v.len() - i,
    {
        out.push(v[i]);
        i += 1;
        assert(out@ =~= v@.take(i as int));
    }
    assert(v@.take(v.len() as int) =~= v@);
    out
}

fn position_or_zero(s: &Vec<u32>, x: u32) -> (r: usize)
    ensures
        r == index_or_zero(s@, x),
{
    let mut i: usize = 0;
    while i < s.len()
        invariant
            i <= s.len(),
            forall|k: int| 0 <= k < i ==> s@[k] != x,
        decreases s.len() - i,
    {
        if s[i] == x {
            proof {
                lemma_index_or_zero_found(s@, x, i as int);
            }
            return i;
        }
        i += 1;
    }
    proof {
        lemma_index_or_zero_absent(s@, x);
    }
    0
}

proof fn lemma_index_or_zero_found(s: Seq<u32>, x: u32, i: int)
    requires
        0 <= i < s.len(),
        s[i] == x,
        forall|k: int| 0 <= k < i ==> s[k] != x,
    ensures
        index_or_zero(s, x) == i,
    decreases s.len(),
{
    if i > 0 {
        assert(s.drop_first()[i - 1] == x);
        assert(s.drop_first().contains(x));
        lemma_index_or_zero_found(s.drop_first(), x, i - 1);
    }
}

proof fn lemma_index_or_zero_absent(s: Seq<u32>, x: u32)
    requires
        forall|k: int| 0 <= k < s.len() ==> s[k] != x,
    ensures
        index_or_zero(s, x) == 0,
{
    if s.len() > 0 {
        assert(!s.drop_first().contains(x)) by {
            if s.drop_first().contains(x) {
                let k = choose|k: int| 0 <= k < s.drop_first().len() && s.drop_first()[k] == x;
                assert(s[k + 1] == x);
            }
        }
    }
}

proof fn lemma_index_or_zero_bound(s: Seq<u32>, x: u32)
    ensures
        s.len() > 0 ==> index_or_zero(s, x) < s.len(),
    decreases s.len(),
{
    if s.len() > 0 && s[0] != x && s.drop_first().contains(x) {
        lemma_index_or_zero_bound(s.drop_first(), x);
    }
}

/// Whether the versions list starts with the latest version.
pub fn versions_match_latest(versions: &[u32], latest: u32) -> (r: bool)
    ensures
        r == versions_match_latest_spec(versions@, latest),
{
    if versions.len() == 0 {
        return false;
    }
    if versions[0] != latest {
        return false;
    }
    assert(versions@.contains(latest)) by {
        assert(versions@[0] == latest);
    }
    true
}

/// Index of the artifact with id `current`, or 0.
pub fn select_artifact(items: &[ArtifactMetadata], current: Option<u128>) -> (r: usize)
    ensures
        current is None ==> r == 0,
        current matches Some(id) ==> r == artifact_index_or_zero(items@, id),
{
    let id = match current {
        None => {
            return 0;
        },
        Some(id) => id,
    };
    let mut i: usize = 0;
    while i < items.len()
        invariant
            i <= items.len(),
            current == Some(id),
            forall|k: int| 0 <= k < i ==> items@[k].artifact_id != id,
        decreases items.len() - i,
    {
        if items[i].artifact_id == id {
            proof {
                lemma_artifact_index_found(items@, id, i as int);
            }
            return i;
        }
        i += 1;
    }
    proof {
        lemma_artifact_index_absent(items@, id);
    }
    0
}

proof fn lemma_artifact_index_absent(s: Seq<ArtifactMetadata>, id: u128)
    requires
        forall|k: int| 0 <= k < s.len() ==> s[k].artifact_id != id,
    ensures
        artifact_index_or_zero(s, id) == 0,
{
}

proof fn lemma_artifact_index_found(s: Seq<ArtifactMetadata>, id: u128, i: int)
    requires
        0 <= i < s.len(),
        s[i].artifact_id == id,
        forall|k: int| 0 <= k < i ==> s[k].artifact_id != id,
    ensures
        artifact_index_or_zero(s, id) == i,
    decreases s.len(),
{
    if i > 0 {
        assert(s.drop_first()[i - 1].artifact_id == id);
        assert(1 <= i < s.len() && s[i].artifact_id == id);
        assert(exists|k: int| 1 <= k < s.len() && s[k].artifact_id == id);
        assert forall|k: int| 0 <= k < i - 1 implies s.drop_first()[k].artifact_id != id by {
            assert(s.drop_first()[k] == s[k + 1]);
        }
        lemma_artifact_index_found(s.drop_first(), id, i - 1);
    }
}

/// Shows the cached versions of `artifact_id` when they still start with
/// `latest_version`; drops both cache entries of a stale list.
pub fn activate_cached_versions_for_artifact(
    view: &mut ArtifactsOverlay,
    artifact_id: u128,
    latest_version: u32,
) -> (r: bool)
    ensures
        (final(view)@, r) == activate_spec(old(view)@, artifact_id, latest_version),
        final(view).thread_id == old(view).thread_id,
        final(view).artifacts@ == old(view).artifacts@,
        final(view).selected == old(view).selected,
{
    let cached = match view.version_cache.get(&artifact_id) {
        Some(v) => copy_versions(v),
        None => {
            return false;
        },
    };
    if !versions_match_latest(cached.as_slice(), latest_version) {
        view.version_cache.remove(&artifact_id);
        view.selected_version_cache.remove(&artifact_id);
        assert(final(view)@.version_cache =~= old(view)@.version_cache.remove(artifact_id));
        return false;
    }
    let default_selected = position_or_zero(&cached, latest_version);
    let wanted = match view.selected_version_cache.get(&artifact_id) {
        Some(s) => *s,
        None => default_selected,
    };
    let last = cached.len() - 1;
    let selected = if wanted < last {
        wanted
    } else {
        last
    };
    view.versions_for = Some(artifact_id);
    view.versions = cached;
    view.selected_version = selected;
    view.selected_version_cache.insert(artifact_id, selected);
    assert(final(view)@ == activate_spec(old(view)@, artifact_id, latest_version).0);
    true
}

/// Shows the versions belonging to the selected artifact: keeps a current list,
/// restores a cached one, or shows none.
pub fn sync_versions_for_selected_artifact(view: &mut ArtifactsOverlay)
    ensures
        final(view)@ == sync_spec(old(view)@),
        final(view).thread_id == old(view).thread_id,
{
    if view.selected >= view.artifacts.len() {
        view.versions_for = None;
        view.versions = Vec::new();
        view.selected_version = 0;
        assert(final(view)@ == sync_spec(old(view)@));
        return;
    }
    let artifact_id = view.artifacts[view.selected].artifact_id;
    let latest_version = view.artifacts[view.selected].version;
    if view.versions_for == Some(artifact_id) {
        if versions_match_latest(view.versions.as_slice(), latest_version) {
            if view.selected_version >= view.versions.len() {
                view.selected_version = 0;
            }
            let sv = view.selected_version;
            view.selected_version_cache.insert(artifact_id, sv);
            assert(final(view)@ == sync_spec(old(view)@));
            return;
        }
    }
    if activate_cached_versions_for_artifact(view, artifact_id, latest_version) {
        return;
    }
    view.versions_for = None;
    view.versions = Vec::new();
    view.selected_version = 0;
    assert(final(view)@ == sync_spec(old(view)@));
}

/// Re-syncs the version list when the selection moved to another artifact.
pub fn sync_versions_if_selected_artifact_changed(view: &mut ArtifactsOverlay, previous: Option<u128>)
    ensures
        final(view)@ == sync_if_changed_spec(old(view)@, previous),
        final(view).thread_id == old(view).thread_id,
{
    let current = if view.selected < view.artifacts.len() {
        Some(view.artifacts[view.selected].artifact_id)
    } else {
        None
    };
    if current != previous {
        sync_versions_for_selected_artifact(view);
    }
}

/// The version shown for `meta`, when its versions are loaded and one is selected.
pub fn selected_artifact_version(view: &ArtifactsOverlay, meta: &ArtifactMetadata) -> (r: Option<u32>)
    ensures
        r == (if view.versions_for == Some(meta.artifact_id) && view.selected_version
            < view.versions.len() {
            Some(view.versions@[view.selected_version as int])
        } else {
            None
        }),
{
    if view.versions_for == Some(meta.artifact_id) {
        if view.selected_version < view.versions.len() {
            return Some(view.versions[view.selected_version]);
        }
    }
    None
}

/// Handles the keys the artifacts overlay answers by itself: moving the
/// selection, stepping through versions, and resetting to the latest version.
pub fn handle_local_artifacts_key(view: &mut ArtifactsOverlay, code: KeyCode) -> (r: ArtifactsLocalKeyResult)
    requires
        old(view).selected < usize::MAX,
        old(view).selected_version < usize::MAX,
    ensures
        final(view)@ == artifacts_key_spec(old(view)@, code).0,
        key_result_matches(r, artifacts_key_spec(old(view)@, code).1),
        final(view).thread_id == old(view).thread_id,
{
    match code {
        KeyCode::Up => {
            let current = if view.selected < view.artifacts.len() {
                Some(view.artifacts[view.selected].artifact_id)
            } else {
                None
            };
            view.selected = if view.selected > 0 { view.selected - 1 } else { 0 };
            sync_versions_if_selected_artifact_changed(view, current);
            ArtifactsLocalKeyResult::Handled(None)
        },
        KeyCode::Down => {
            let current = if view.selected < view.artifacts.len() {
                Some(view.artifacts[view.selected].artifact_id)
            } else {
                None
            };
            if view.artifacts.len() > 0 {
                let next = view.selected + 1;
                let last = view.artifacts.len() - 1;
                view.selected = if next < last { next } else { last };
            }
            sync_versions_if_selected_artifact_changed(view, current);
            ArtifactsLocalKeyResult::Handled(None)
        },
        KeyCode::Left | KeyCode::Char('[') => {
            if view.versions_for.is_some() && view.versions.len() > 0 {
                let next = view.selected_version + 1;
                let last = view.versions.len() - 1;
                view.selected_version = if next < last { next } else { last };
                if let Some(artifact_id) = view.versions_for {
                    let sv = view.selected_version;
                    view.selected_version_cache.insert(artifact_id, sv);
                }
            }
            ArtifactsLocalKeyResult::Handled(None)
        },
        KeyCode::Right | KeyCode::Char(']') => {
            if view.versions_for.is_some() && view.versions.len() > 0 {
                view.selected_version = if view.selected_version > 0 {
                    view.selected_version - 1
                } else {
                    0
                };
                if let Some(artifact_id) = view.versions_for {
                    let sv = view.selected_version;
                    view.selected_version_cache.insert(artifact_id, sv);
                }
            }
            ArtifactsLocalKeyResult::Handled(None)
        },
        KeyCode::Char('0') => {
            if view.selected >= view.artifacts.len() {
                return ArtifactsLocalKeyResult::Handled(None);
            }
            let artifact_id = view.artifacts[view.selected].artifact_id;
            let version = view.artifacts[view.selected].version;
            let activated = activate_cached_versions_for_artifact(view, artifact_id, version);
            if activated || (view.versions_for == Some(artifact_id) && view.versions.len() > 0) {
                let sv = position_or_zero(&view.versions, version);
                view.selected_version = sv;
                view.selected_version_cache.insert(artifact_id, sv);
                let mut msg = String::new();
                push_str(&mut msg, "artifact version reset to latest: ");
                push_dec(&mut msg, version as u64);
                ArtifactsLocalKeyResult::Handled(Some(msg))
            } else {
                let mut msg = String::new();
                push_str(&mut msg, "artifact read will use latest version");
                ArtifactsLocalKeyResult::Handled(Some(msg))
            }
        },
        _ => ArtifactsLocalKeyResult::Unhandled,
    }
}

/// Number of versions between the oldest and the latest that the
/// newest-first list `versions_desc` does not hold.
pub open spec fn missing_versions_spec(versions_desc: Seq<u32>) -> nat {
    if versions_desc.len() == 0 {
        0
    } else {
        let latest = versions_desc[0];
        let oldest = seq_min(versions_desc);
        if latest <= oldest {
            0
        } else {
            let expected = (latest - oldest + 1) as nat;
            if expected > versions_desc.len() {
                (expected - versions_desc.len()) as nat
            } else {
                0
            }
        }
    }
}

/// The smallest element of a non-empty sequence.
pub open spec fn seq_min(s: Seq<u32>) -> u32
    decreases s.len(),
{
    if s.len() <= 1 {
        s[0]
    } else {
        let m = seq_min(s.drop_last());
        if s.last() < m {
            s.last()
        } else {
            m
        }
    }
}

/// How many versions may have been pruned from the history.
pub fn count_missing_versions(versions_desc: &[u32]) -> (r: usize)
    requires
        versions_desc.len() > 0 ==> versions_desc@[0] - seq_min(versions_desc@) < u32::MAX,
    ensures
        r == missing_versions_spec(versions_desc@),
{
    if versions_desc.len() == 0 {
        return 0;
    }
    let latest = versions_desc[0];
    let mut oldest = versions_desc[0];
    let mut i: usize = 1;
    assert(versions_desc@.take(1) =~= seq![versions_desc@[0]]);
    while i < versions_desc.len()
        invariant
            1 <= i <= versions_desc.len(),
            oldest == seq_min(versions_desc@.take(i as int)),
        decreases versions_desc.len() - i,
    {
        assert(versions_desc@.take(i + 1).drop_last() =~= versions_desc@.take(i as int));
        if versions_desc[i] < oldest {
            oldest = versions_desc[i];
        }
        i += 1;
    }
    assert(versions_desc@.take(versions_desc.len() as int) =~= versions_desc@);
    if latest <= oldest {
        return 0;
    }
    let expected_total = (latest - oldest + 1) as usize;
    if expected_total > versions_desc.len() {
        expected_total - versions_desc.len()
    } else {
        0
    }
}

/// Hint for an `artifact/read` failure whose message says the selected
/// version is gone.
pub fn artifact_read_error_hint(message: &str) -> (r: Option<String>)
    ensures
        (contains_seq(message@, "artifact version not retained"@) || contains_seq(
            message@,
            "artifact version not found"@,
        )) ==> (r matches Some(s) && s@ == "artifact/read failed for selected version; press 0 to read latest"@),
        !(contains_seq(message@, "artifact version not retained"@) || contains_seq(
            message@,
            "artifact version not found"@,
        )) ==> r is None,
{
    let cs = chars_of(message);
    if contains_str(cs.as_slice(), "artifact version not retained") || contains_str(
        cs.as_slice(),
        "artifact version not found",
    ) {
        let mut s = String::new();
        push_str(&mut s, "artifact/read failed for selected version; press 0 to read latest");
        return Some(s);
    }
    None
}

/// The version list returned for an artifact.
#[derive(Debug)]
pub struct ArtifactVersions {
    pub latest_version: u32,
    /// Newest first.
    pub versions: Vec<u32>,
}

/// `apply_versions_to_artifacts_overlay`: caches and shows `versions`, selecting the latest.
pub open spec fn apply_versions_spec(m: ArtifactsModel, id: u128, versions: Seq<u32>, latest: u32) -> ArtifactsModel {
    let sv = index_or_zero(versions, latest);
    ArtifactsModel {
        version_cache: m.version_cache.insert(id, versions),
        versions_for: Some(id),
        versions: versions,
        selected_version: sv,
        selected_version_cache: m.selected_version_cache.insert(id, sv as usize),
        ..m
    }
}

/// Caches freshly loaded versions of `artifact_id` and shows them with the
/// latest one selected.
pub fn apply_versions_to_artifacts_overlay(
    view: &mut ArtifactsOverlay,
    artifact_id: u128,
    parsed: &ArtifactVersions,
)
    ensures
        final(view)@ == apply_versions_spec(old(view)@, artifact_id, parsed.versions@, parsed.latest_version),
        final(view).thread_id == old(view).thread_id,
{
    let cached = copy_versions(&parsed.versions);
    view.version_cache.insert(artifact_id, cached);
    view.versions_for = Some(artifact_id);
    view.versions = copy_versions(&parsed.versions);
    let sv = position_or_zero(&view.versions, parsed.latest_version);
    proof {
        lemma_index_or_zero_bound(parsed.versions@, parsed.latest_version);
    }
    view.selected_version = sv;
    if view.selected_version >= view.versions.len() {
        view.selected_version = 0;
    }
    view.selected_version_cache.insert(artifact_id, view.selected_version);
    assert(final(view)@.version_cache =~= old(view)@.version_cache.insert(artifact_id, parsed.versions@));
}

/// `", "`-separated decimal versions.
pub open spec fn versions_text(vs: Seq<u32>) -> Seq<char>
    decreases vs.len(),
{
    if vs.len() == 0 {
        seq![]
    } else if vs.len() == 1 {
        dec(vs[0] as nat)
    } else {
        versions_text(vs.drop_last()) + ", "@ + dec(vs.last() as nat)
    }
}

/// The version shown as selected for `meta`.
pub open spec fn shown_version(m: ArtifactsModel, meta: ArtifactMetadata) -> u32 {
    if m.versions_for == Some(meta.artifact_id) && m.selected_version < m.versions.len() {
        m.versions[m.selected_version as int]
    } else {
        meta.version
    }
}

/// The lines about loaded versions in the details of `meta`.
pub open spec fn versions_section(m: ArtifactsModel, meta: ArtifactMetadata) -> Seq<char> {
    if m.versions_for == Some(meta.artifact_id) {
        if m.versions.len() == 0 {
            "available_versions: (none loaded)\n"@
        } else {
            let pruned = missing_versions_spec(m.versions);
            "available_versions: "@ + versions_text(m.versions) + "\n"@ + (if shown_version(m, meta)
                == meta.version {
                "selected_state: latest\n"@
            } else {
                "selected_state: historical\n"@
            }) + (if pruned > 0 {
                "possible_pruned_versions: "@ + dec(pruned) + "\n"@
            } else {
                seq![]
            })
        }
    } else {
        "available_versions: press v to load\n"@
    }
}

/// The first lines of the details pane.
pub open spec fn details_head(meta: ArtifactMetadata, shown: u32) -> Seq<char> {
    "artifact_id: "@ + uuid_text(meta.artifact_id) + "\n"@ + "artifact_type: "@ + meta.artifact_type@
        + "\n"@ + "summary: "@ + meta.summary@ + "\n"@ + "latest_version: "@ + dec(
        meta.version as nat,
    ) + "\n"@ + "selected_version: "@ + dec(shown as nat) + "\n"@
}

/// The last lines of the details pane.
pub open spec fn details_tail(meta: ArtifactMetadata) -> Seq<char> {
    "size_bytes: "@ + dec(meta.size_bytes as nat) + "\n"@ + "updated_at_unix: "@ + dec_int(
        meta.updated_at_unix as int,
    ) + "\n"@ + "content_path: "@ + meta.content_path@ + "\n"@
}

/// The details pane of the artifacts overlay for `meta`.
pub open spec fn artifact_details_text(m: ArtifactsModel, meta: ArtifactMetadata) -> Seq<char> {
    details_head(meta, shown_version(m, meta)) + versions_section(m, meta) + details_tail(meta)
}

fn push_details_head(out: &mut String, meta: &ArtifactMetadata, shown: u32)
    ensures
        final(out)@ == old(out)@ + details_head(*meta, shown),
{
    push_str(out, "artifact_id: ");
    push_uuid(out, meta.artifact_id);
    push_str(out, "\n");
    push_str(out, "artifact_type: ");
    push_str(out, meta.artifact_type.as_str());
    push_str(out, "\n");
    push_str(out, "summary: ");
    push_str(out, meta.summary.as_str());
    push_str(out, "\n");
    push_str(out, "latest_version: ");
    push_dec(out, meta.version as u64);
    push_str(out, "\n");
    push_str(out, "selected_version: ");
    push_dec(out, shown as u64);
    push_str(out, "\n");
    assert(final(out)@ =~= old(out)@ + details_head(*meta, shown));
}

fn push_details_tail(out: &mut String, meta: &ArtifactMetadata)
    ensures
        final(out)@ == old(out)@ + details_tail(*meta),
{
    push_str(out, "size_bytes: ");
    push_dec(out, meta.size_bytes);
    push_str(out, "\n");
    push_str(out, "updated_at_unix: ");
    push_dec_i64(out, meta.updated_at_unix);
    push_str(out, "\n");
    push_str(out, "content_path: ");
    push_str(out, meta.content_path.as_str());
    push_str(out, "\n");
    assert(final(out)@ =~= old(out)@ + details_tail(*meta));
}

fn push_versions_text(out: &mut String, vs: &Vec<u32>)
    ensures
        final(out)@ == old(out)@ + versions_text(vs@),
{
    let mut i: usize = 0;
    while i < vs.len()
        invariant
            i <= vs.len(),
            out@ == old(out)@ + versions_text(vs@.take(i as int)),
        decreases vs.len() - i,
    {
        assert(vs@.take(i + 1).drop_last() =~= vs@.take(i as int));
        assert(vs@.take(i + 1).last() == vs@[i as int]);
        if i > 0 {
            push_str(out, ", ");
        }
        push_dec(out, vs[i] as u64);
        i += 1;
        assert(out@ =~= old(out)@ + versions_text(vs@.take(i as int)));
    }
    assert(vs@.take(vs.len() as int) =~= vs@);
}

/// The details pane text for `meta`.
pub fn build_artifact_details(view: &ArtifactsOverlay, meta: &ArtifactMetadata) -> (out: String)
    requires
        view.versions.len() > 0 ==> view.versions@[0] - seq_min(view.versions@) < u32::MAX,
    ensures
        out@ == artifact_details_text(view@, *meta),
{
    let mut out = String::new();
    let shows = view.versions_for == Some(meta.artifact_id);
    let selected_version = if shows && view.selected_version < view.versions.len() {
        view.versions[view.selected_version]
    } else {
        meta.version
    };
    push_details_head(&mut out, meta, selected_version);
    let ghost head = out@;
    if shows {
        if view.versions.len() == 0 {
            push_str(&mut out, "available_versions: (none loaded)\n");
        } else {
            push_str(&mut out, "available_versions: ");
            push_versions_text(&mut out, &view.versions);
            push_str(&mut out, "\n");
            let ghost listed = out@;
            if selected_version == meta.version {
                push_str(&mut out, "selected_state: latest\n");
            } else {
                push_str(&mut out, "selected_state: historical\n");
            }
            let ghost stated = out@;
            let possible_pruned = count_missing_versions(view.versions.as_slice());
            if possible_pruned > 0 {
                push_str(&mut out, "possible_pruned_versions: ");
                push_dec(&mut out, possible_pruned as u64);
                push_str(&mut out, "\n");
            }
            assert(out@ =~= head + versions_section(view@, *meta));
        }
    } else {
        push_str(&mut out, "available_versions: press v to load\n");
    }
    assert(out@ =~= head + versions_section(view@, *meta));
    push_details_tail(&mut out, meta);
    assert(out@ =~= artifact_details_text(view@, *meta));
    out
}

} // verus!
