//! Tagged configuration entries carried by boards and posts.
//!
//! A settings list holds at most one entry per kind; `upsert` semantics
//! (remove the old entry of a kind, then append the new one) keep that
//! invariant.

use vstd::prelude::*;

use crate::Address;
use crate::post_restrictions::PostRestrictionRule;
use crate::post_restrictions::RuleView;

verus! {

/// The kind of a configuration entry (its discriminant).
#[derive(Clone, Copy, Debug, PartialEq, Eq, Structural)]
pub enum SettingsType {
    Description,
    OwnerInfo,
    PostRestriction,
    Null,
}

/// One configuration entry.
#[derive(Debug)]
pub enum SettingsData {
    /// A human-readable board title and description (raw bytes).
    Description { title: Vec<u8>, desc: Vec<u8> },
    /// The set of actors allowed to mutate the board's configuration.
    OwnerInfo { owners: Vec<Address> },
    /// The restriction rule for creating posts or replies.
    PostRestriction { post_restriction: PostRestrictionRule },
    /// An explicitly empty slot.
    Null,
}

/// The mathematical value of a `SettingsData` entry.
#[verifier::ext_equal]
pub enum SettingView {
    Description { title: Seq<u8>, desc: Seq<u8> },
    OwnerInfo { owners: Seq<Address> },
    PostRestriction { post_restriction: RuleView },
    Null,
}

impl View for SettingsData {
    type V = SettingView;

    open spec fn view(&self) -> SettingView {
        match self {
            SettingsData::Description { title, desc } => {
                SettingView::Description { title: title@, desc: desc@ }
            },
            SettingsData::OwnerInfo { owners } => SettingView::OwnerInfo { owners: owners@ },
            SettingsData::PostRestriction { post_restriction } => {
                SettingView::PostRestriction { post_restriction: post_restriction@ }
            },
            SettingsData::Null => SettingView::Null,
        }
    }
}

impl SettingView {
    /// The kind this entry occupies in a settings list.
    pub open spec fn kind(&self) -> SettingsType {
        match self {
            SettingView::Description { .. } => SettingsType::Description,
            SettingView::OwnerInfo { .. } => SettingsType::OwnerInfo,
            SettingView::PostRestriction { .. } => SettingsType::PostRestriction,
            SettingView::Null => SettingsType::Null,
        }
    }
}

/// The view of a whole settings list.
pub open spec fn settings_seq_view(settings: Seq<SettingsData>) -> Seq<SettingView> {
    settings.map_values(|s: SettingsData| s@)
}

/// The first entry of kind `t` at or after position `i`, if any.
pub open spec fn find_setting_from(s: Seq<SettingView>, t: SettingsType, i: nat) -> Option<
    SettingView,
>
    decreases s.len() - i,
{
    if i >= s.len() {
        None
    } else if s[i as int].kind() == t {
        Some(s[i as int])
    } else {
        find_setting_from(s, t, i + 1)
    }
}

/// The first entry of kind `t` in the list, if any.
pub open spec fn find_setting(s: Seq<SettingView>, t: SettingsType) -> Option<SettingView> {
    find_setting_from(s, t, 0)
}

/// The list with every entry of kind `t` removed, order otherwise kept.
pub open spec fn remove_kind(s: Seq<SettingView>, t: SettingsType) -> Seq<SettingView>
    decreases s.len(),
{
    if s.len() == 0 {
        Seq::empty()
    } else {
        let prefix = remove_kind(s.drop_last(), t);
        if s.last().kind() != t {
            prefix.push(s.last())
        } else {
            prefix
        }
    }
}

/// Last-write-wins per kind: drop any entry of the new entry's kind, then
/// append the new entry.
pub open spec fn spec_upsert(s: Seq<SettingView>, new_entry: SettingView) -> Seq<SettingView> {
    remove_kind(s, new_entry.kind()).push(new_entry)
}

/// A settings list is well formed when it holds at most one entry per kind.
pub open spec fn wf_settings(s: Seq<SettingView>) -> bool {
    forall|i: int, j: int| 0 <= i < j < s.len() ==> s[i].kind() != s[j].kind()
}

/// How `remove_kind` acts on an appended entry.
pub proof fn lemma_remove_kind_push(s: Seq<SettingView>, x: SettingView, t: SettingsType)
    ensures
        remove_kind(s.push(x), t) == if x.kind() != t {
            remove_kind(s, t).push(x)
        } else {
            remove_kind(s, t)
        },
{
    assert(s.push(x).drop_last() =~= s);
    assert(s.push(x).last() == x);
}

/// `remove_kind` removes exactly the entries of the removed kind.
pub proof fn lemma_remove_kind_members(s: Seq<SettingView>, t: SettingsType)
    ensures
        forall|i: int|
            0 <= i < remove_kind(s, t).len() ==> #[trigger] remove_kind(s, t)[i].kind() != t
                && s.contains(remove_kind(s, t)[i]),
        forall|i: int|
            0 <= i < s.len() && s[i].kind() != t ==> remove_kind(s, t).contains(#[trigger] s[i]),
        remove_kind(s, t).len() <= s.len(),
    decreases s.len(),
{
    if s.len() > 0 {
        lemma_remove_kind_members(s.drop_last(), t);
        assert forall|i: int| 0 <= i < s.len() && s[i].kind() != t implies remove_kind(
            s,
            t,
        ).contains(#[trigger] s[i]) by {
            if i < s.len() - 1 {
                assert(s.drop_last()[i] == s[i]);
                let r = remove_kind(s.drop_last(), t);
                let j = choose|j: int| 0 <= j < r.len() && r[j] == s[i];
                if s.last().kind() != t {
                    assert(remove_kind(s, t)[j] == s[i]);
                } else {
                    assert(remove_kind(s, t)[j] == s[i]);
                }
            } else {
                assert(s[i] == s.last());
                if s.last().kind() != t {
                    assert(remove_kind(s, t).last() == s.last());
                }
            }
        }
        assert forall|i: int| 0 <= i < remove_kind(s, t).len() implies #[trigger] remove_kind(
            s,
            t,
        )[i].kind() != t && s.contains(remove_kind(s, t)[i]) by {
            let r0 = remove_kind(s.drop_last(), t);
            if i < r0.len() {
                assert(remove_kind(s, t)[i] == r0[i]);
                let j = choose|j: int| 0 <= j < s.drop_last().len() && s.drop_last()[j] == r0[i];
                assert(s[j] == r0[i]);
            } else {
                assert(remove_kind(s, t)[i] == s.last());
                assert(s[s.len() - 1] == s.last());
            }
        }
    }
}

/// Upserting into a well-formed list keeps it well formed.
pub proof fn lemma_upsert_preserves_wf(s: Seq<SettingView>, new_entry: SettingView)
    requires
        wf_settings(s),
    ensures
        wf_settings(spec_upsert(s, new_entry)),
    decreases s.len(),
{
    lemma_remove_kind_wf(s, new_entry.kind());
    lemma_remove_kind_members(s, new_entry.kind());
    let r = remove_kind(s, new_entry.kind());
    assert forall|i: int, j: int|
        0 <= i < j < spec_upsert(s, new_entry).len() implies spec_upsert(s, new_entry)[i].kind()
        != spec_upsert(s, new_entry)[j].kind() by {
        if j < r.len() {
        } else {
            assert(spec_upsert(s, new_entry)[j] == new_entry);
            assert(spec_upsert(s, new_entry)[i] == r[i]);
            assert(r[i].kind() != new_entry.kind());
        }
    }
}

/// Removing a kind from a well-formed list keeps it well formed.
pub proof fn lemma_remove_kind_wf(s: Seq<SettingView>, t: SettingsType)
    requires
        wf_settings(s),
    ensures
        wf_settings(remove_kind(s, t)),
    decreases s.len(),
{
    if s.len() > 0 {
        assert(forall|i: int, j: int|
            0 <= i < j < s.drop_last().len() ==> s.drop_last()[i].kind()
                != s.drop_last()[j].kind());
        lemma_remove_kind_wf(s.drop_last(), t);
        if s.last().kind() != t {
            lemma_remove_kind_members(s.drop_last(), t);
            let r0 = remove_kind(s.drop_last(), t);
            assert forall|i: int, j: int|
                0 <= i < j < remove_kind(s, t).len() implies remove_kind(s, t)[i].kind()
                != remove_kind(s, t)[j].kind() by {
                if j == r0.len() {
                    let x = r0[i];
                    let k = choose|k: int|
                        0 <= k < s.drop_last().len() && s.drop_last()[k] == x;
                    assert(s[k] == x);
                    assert(s[k].kind() != s[s.len() - 1].kind());
                }
            }
        }
    }
}

/// How the list view acts on an appended entry.
pub proof fn lemma_views_push(s: Seq<SettingsData>, x: SettingsData)
    ensures
        settings_seq_view(s.push(x)) == settings_seq_view(s).push(x@),
{
    assert(settings_seq_view(s.push(x)) =~= settings_seq_view(s).push(x@));
}

/// What `find_setting_from` returns, characterized by the entries of the
/// suffix it walks.
pub proof fn lemma_find_from_characterization(s: Seq<SettingView>, t: SettingsType, i: nat)
    requires
        i <= s.len(),
    ensures
        (find_setting_from(s, t, i) is None <==> forall|k: int|
            i <= k < s.len() ==> s[k].kind() != t),
        (find_setting_from(s, t, i) matches Some(v) ==> exists|k: int|
            i <= k < s.len() && s[k] == v && #[trigger] s[k].kind() == t),
    decreases s.len() - i,
{
    if i < s.len() {
        lemma_find_from_characterization(s, t, i + 1);
    }
}

/// In a well-formed list, any entry of kind `t` is the one `find_setting`
/// returns.
pub proof fn lemma_find_unique(s: Seq<SettingView>, t: SettingsType, i: int)
    requires
        wf_settings(s),
        0 <= i < s.len(),
        s[i].kind() == t,
    ensures
        find_setting(s, t) == Some(s[i]),
{
    lemma_find_from_characterization(s, t, 0);
    match find_setting(s, t) {
        None => {
            assert(s[i].kind() != t);
        },
        Some(v) => {
            let k = choose|k: int| 0 <= k < s.len() && s[k] == v && #[trigger] s[k].kind() == t;
            if i < k {
                assert(s[i].kind() != s[k].kind());
            } else if k < i {
                assert(s[k].kind() != s[i].kind());
            }
        },
    }
}

/// Last-write-wins: after an upsert, looking up the new entry's kind gives
/// the new entry, and every other kind reads as before.
pub proof fn lemma_find_after_upsert(s: Seq<SettingView>, new_entry: SettingView, t: SettingsType)
    requires
        wf_settings(s),
    ensures
        t == new_entry.kind() ==> find_setting(spec_upsert(s, new_entry), t) == Some(new_entry),
        t != new_entry.kind() ==> find_setting(spec_upsert(s, new_entry), t) == find_setting(s, t),
{
    let r = remove_kind(s, new_entry.kind());
    let u = spec_upsert(s, new_entry);
    lemma_remove_kind_members(s, new_entry.kind());
    lemma_upsert_preserves_wf(s, new_entry);
    if t == new_entry.kind() {
        assert(u[r.len() as int] == new_entry);
        lemma_find_unique(u, t, r.len() as int);
    } else {
        lemma_find_from_characterization(s, t, 0);
        lemma_find_from_characterization(u, t, 0);
        match find_setting(s, t) {
            None => {
                assert forall|k: int| 0 <= k < u.len() implies u[k].kind() != t by {
                    if k < r.len() {
                        assert(u[k] == r[k]);
                        assert(s.contains(r[k]));
                        let m = choose|m: int| 0 <= m < s.len() && s[m] == r[k];
                        assert(s[m].kind() != t);
                    } else {
                        assert(u[k] == new_entry);
                    }
                }
            },
            Some(v) => {
                let k = choose|k: int|
                    0 <= k < s.len() && s[k] == v && #[trigger] s[k].kind() == t;
                assert(s[k].kind() != new_entry.kind());
                assert(r.contains(s[k]));
                let m = choose|m: int| 0 <= m < r.len() && r[m] == s[k];
                assert(u[m] == v);
                lemma_find_unique(u, t, m);
            },
        }
    }
}

/// Removes any entry of the new entry's kind, then appends the new entry.
pub fn upsert_entry(settings: &mut Vec<SettingsData>, new_entry: SettingsData)
    ensures
        settings_seq_view(final(settings)@) == spec_upsert(
            settings_seq_view(old(settings)@),
            new_entry@,
        ),
{
    let entry_type = new_entry.get_type();
    let mut kept: Vec<SettingsData> = Vec::new();
    let mut i: usize = 0;
    while i < settings.len()
        invariant
            i <= settings.len(),
            settings_seq_view(kept@) == remove_kind(
                settings_seq_view(settings@.take(i as int)),
                new_entry@.kind(),
            ),
        decreases settings.len() - i,
    {
        let ghost prefix = settings@.take(i as int);
        let ghost kept_before = kept@;
        let this_type = settings[i].get_type();
        if this_type != entry_type {
            let copied = settings[i].clone();
            kept.push(copied);
            proof {
                lemma_views_push(kept_before, kept@.last());
                assert(settings_seq_view(kept@) =~= settings_seq_view(kept_before).push(
                    settings@[i as int]@,
                ));
            }
        }
        proof {
            assert(settings@.take(i + 1 as int) =~= prefix.push(settings@[i as int]));
            lemma_views_push(prefix, settings@[i as int]);
            lemma_remove_kind_push(
                settings_seq_view(prefix),
                settings@[i as int]@,
                new_entry@.kind(),
            );
        }
        i = i + 1;
    }
    proof {
        assert(settings@.take(settings@.len() as int) =~= settings@);
    }
    let ghost kept_before = kept@;
    kept.push(new_entry);
    proof {
        lemma_views_push(kept_before, kept@.last());
        assert(settings_seq_view(kept@) =~= spec_upsert(
            settings_seq_view(settings@),
            new_entry@,
        ));
    }
    *settings = kept;
}

/// Copies a settings list element by element.
pub fn clone_settings(v: &Vec<SettingsData>) -> (r: Vec<SettingsData>)
    ensures
        settings_seq_view(r@) == settings_seq_view(v@),
{
    let mut r: Vec<SettingsData> = Vec::new();
    let mut i: usize = 0;
    while i < v.len()
        invariant
            i <= v.len(),
            settings_seq_view(r@) =~= settings_seq_view(v@.take(i as int)),
        decreases v.len() - i,
    {
        let ghost r_before = r@;
        let copied = v[i].clone();
        r.push(copied);
        proof {
            lemma_views_push(r_before, r@.last());
            assert(v@.take(i + 1 as int) =~= v@.take(i as int).push(v@[i as int]));
            lemma_views_push(v@.take(i as int), v@[i as int]);
            assert(settings_seq_view(r@) =~= settings_seq_view(v@.take(i + 1 as int)));
        }
        i = i + 1;
    }
    proof {
        assert(v@.take(v@.len() as int) =~= v@);
    }
    r
}

/// Returns the first entry of kind `t`, if any.
pub fn find_entry<'a>(settings: &'a Vec<SettingsData>, t: SettingsType) -> (r: Option<
    &'a SettingsData,
>)
    ensures
        match r {
            Some(entry) => find_setting(settings_seq_view(settings@), t) == Some(entry@),
            None => find_setting(settings_seq_view(settings@), t) is None,
        },
{
    let ghost views = settings_seq_view(settings@);
    let mut i: usize = 0;
    while i < settings.len()
        invariant
            i <= settings.len(),
            find_setting(views, t) == find_setting_from(views, t, i as nat),
        decreases settings.len() - i,
    {
        let this_type = settings[i].get_type();
        if this_type == t {
            return Some(&settings[i]);
        }
        i = i + 1;
    }
    None
}

impl SettingsData {
    /// Returns the entry's kind.
    pub fn get_type(&self) -> (t: SettingsType)
        ensures
            t == self@.kind(),
    {
        match self {
            SettingsData::Description { .. } => SettingsType::Description,
            SettingsData::OwnerInfo { .. } => SettingsType::OwnerInfo,
            SettingsData::PostRestriction { .. } => SettingsType::PostRestriction,
            SettingsData::Null => SettingsType::Null,
        }
    }
}

impl SettingsData {
    /// The exact number of bytes this entry occupies in a record.
    pub fn get_size(&self) -> (n: usize)
        requires
            crate::codec::setting_size(self@) <= usize::MAX,
        ensures
            n == crate::codec::setting_size(self@),
    {
        match self {
            SettingsData::Description { title, desc } => {
                1 + crate::codec::LEN_PREFIX + title.len() + crate::codec::LEN_PREFIX + desc.len()
            },
            SettingsData::OwnerInfo { owners } => {
                1 + crate::codec::LEN_PREFIX + crate::codec::ADDRESS_LEN * owners.len()
            },
            SettingsData::PostRestriction { post_restriction } => 1 + post_restriction.get_size(),
            SettingsData::Null => 1,
        }
    }
}

impl Clone for SettingsData {
    /// A deep copy; upsert and inheritance rely on the copy having the same
    /// value.
    fn clone(&self) -> (r: Self)
        ensures
            r@ == self@,
    {
        match self {
            SettingsData::Description { title, desc } => {
                let r = SettingsData::Description {
                    title: crate::copy_list(title),
                    desc: crate::copy_list(desc),
                };
                proof {
                    assert(r@ =~= self@);
                }
                r
            },
            SettingsData::OwnerInfo { owners } => {
                let r = SettingsData::OwnerInfo { owners: crate::copy_list(owners) };
                proof {
                    assert(r@ =~= self@);
                }
                r
            },
            SettingsData::PostRestriction { post_restriction } => {
                SettingsData::PostRestriction { post_restriction: post_restriction.clone() }
            },
            SettingsData::Null => SettingsData::Null,
        }
    }
}

} // verus!
