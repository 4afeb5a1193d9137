//! The tray menu: its entries for every provider and profile, which entry is
//! checked for the DNS in use, and the DNS change an entry asks for.
use crate::actions::{adapter_at, adapter_position, find_provider, find_provider_index, no_adapter_message, ApplyPlan, PlanView};
use crate::catalog::{doh_template, indonesian, is_indonesian, profile_name, spec_doh_template};
use crate::models::{profile_views, provider_views, spec_get_profiles, DnsProvider, ProviderView};
use crate::system::{adapter_views, string_views, AdapterInfo, AdapterView};
use crate::text::{concat, decimal, decimal_string, owned, str_eq};
use vstd::prelude::*;

verus! {

/// The menu identifier of the "open window" entry.
pub const OPEN_ID: &'static str = "tray-open";

/// The menu identifier of the "close application" entry.
pub const CLOSE_ID: &'static str = "tray-close";

/// The abstract value of a [`TrayItem`].
pub struct TrayItemView {
    pub id: Seq<char>,
    pub label: Seq<char>,
    pub provider_id: Seq<char>,
    pub profile_index: usize,
}

/// A checkable tray entry that applies one profile of a provider.
#[derive(Clone, Debug)]
pub struct TrayItem {
    pub id: String,
    pub label: String,
    pub provider_id: String,
    pub profile_index: usize,
}

impl View for TrayItem {
    type V = TrayItemView;

    open spec fn view(&self) -> TrayItemView {
        TrayItemView {
            id: self.id@,
            label: self.label@,
            provider_id: self.provider_id@,
            profile_index: self.profile_index,
        }
    }
}

/// The abstract value of a [`TrayEntry`].
pub struct TrayEntryView {
    pub provider_id: Seq<char>,
    pub provider_name: Seq<char>,
    pub submenu: bool,
    pub items: Seq<TrayItemView>,
}

/// The tray entries of one provider: a submenu of its profiles when it has
/// several, else a single entry named after the provider.
#[derive(Clone, Debug)]
pub struct TrayEntry {
    pub provider_id: String,
    pub provider_name: String,
    pub submenu: bool,
    pub items: Vec<TrayItem>,
}

/// The abstract values of tray items.
pub open spec fn tray_item_views(v: Seq<TrayItem>) -> Seq<TrayItemView> {
    v.map_values(|i: TrayItem| i@)
}

impl View for TrayEntry {
    type V = TrayEntryView;

    open spec fn view(&self) -> TrayEntryView {
        TrayEntryView {
            provider_id: self.provider_id@,
            provider_name: self.provider_name@,
            submenu: self.submenu,
            items: tray_item_views(self.items@),
        }
    }
}

/// The menu identifier of the entry for profile `index` of a provider.
pub open spec fn tray_item_id(provider_id: Seq<char>, index: nat) -> Seq<char> {
    "tray-dns:"@ + provider_id + ":"@ + decimal(index)
}

/// The tray entries of a provider.
pub open spec fn spec_tray_entry(p: ProviderView, language: Seq<char>) -> TrayEntryView {
    let profiles = spec_get_profiles(p);
    if profiles.len() > 1 {
        TrayEntryView {
            provider_id: p.id,
            provider_name: p.name,
            submenu: true,
            items: Seq::new(
                profiles.len(),
                |k: int|
                    TrayItemView {
                        id: tray_item_id(p.id, k as nat),
                        label: profile_name(profiles[k], language),
                        provider_id: p.id,
                        profile_index: k as usize,
                    },
            ),
        }
    } else {
        TrayEntryView {
            provider_id: p.id,
            provider_name: p.name,
            submenu: false,
            items: seq![
                TrayItemView {
                    id: tray_item_id(p.id, 0),
                    label: p.name,
                    provider_id: p.id,
                    profile_index: 0,
                },
            ],
        }
    }
}

/// The menu identifier of the entry for profile `index` of a provider.
pub fn tray_item_id_exec(provider_id: &str, index: usize) -> (r: String)
    ensures
        r@ == tray_item_id(provider_id@, index as nat),
{
    let head = concat("tray-dns:", provider_id);
    let head = concat(head.as_str(), ":");
    let digits = decimal_string(index as u128);
    concat(head.as_str(), digits.as_str())
}

/// The tray entries of a provider.
pub fn tray_entry(provider: &DnsProvider, language: &str) -> (r: TrayEntry)
    ensures
        r@ == spec_tray_entry(provider@, language@),
{
    let profiles = provider.get_profiles();
    let ghost ps = spec_get_profiles(provider@);
    let ind = indonesian(language);
    let mut items: Vec<TrayItem> = Vec::new();
    if profiles.len() > 1 {
        let mut k: usize = 0;
        while k < profiles.len()
            invariant
                k <= profiles@.len(),
                profile_views(profiles@) == ps,
                ps == spec_get_profiles(provider@),
                ind == is_indonesian(language@),
                tray_item_views(items@).len() == k,
                forall|j: int|
                    0 <= j < k ==> #[trigger] tray_item_views(items@)[j] == (TrayItemView {
                        id: tray_item_id(provider@.id, j as nat),
                        label: profile_name(ps[j], language@),
                        provider_id: provider@.id,
                        profile_index: j as usize,
                    }),
            decreases profiles.len() - k,
        {
            assert(ps[k as int] == profiles@[k as int]@);
            let label = if ind {
                profiles[k].name_id.clone()
            } else {
                profiles[k].name_en.clone()
            };
            let item = TrayItem {
                id: tray_item_id_exec(provider.id.as_str(), k),
                label,
                provider_id: provider.id.clone(),
                profile_index: k,
            };
            let ghost before = items@;
            items.push(item);
            assert(tray_item_views(items@) =~= tray_item_views(before).push(item@));
            k = k + 1;
        }
        let r = TrayEntry {
            provider_id: provider.id.clone(),
            provider_name: provider.name.clone(),
            submenu: true,
            items,
        };
        assert(r@.items =~= spec_tray_entry(provider@, language@).items);
        r
    } else {
        let item = TrayItem {
            id: tray_item_id_exec(provider.id.as_str(), 0),
            label: provider.name.clone(),
            provider_id: provider.id.clone(),
            profile_index: 0,
        };
        items.push(item);
        let r = TrayEntry {
            provider_id: provider.id.clone(),
            provider_name: provider.name.clone(),
            submenu: false,
            items,
        };
        assert(r@.items =~= spec_tray_entry(provider@, language@).items);
        r
    }
}

/// The abstract values of tray entries.
pub open spec fn tray_entry_views(v: Seq<TrayEntry>) -> Seq<TrayEntryView> {
    v.map_values(|e: TrayEntry| e@)
}

/// The abstract value of a [`TrayMenu`].
pub struct TrayMenuView {
    pub open_label: Seq<char>,
    pub change_dns_label: Seq<char>,
    pub close_label: Seq<char>,
    pub entries: Seq<TrayEntryView>,
}

/// The tray menu: "Open", the "Change DNS" submenu with an entry per
/// provider, and "Close", labelled in the interface language.
#[derive(Clone, Debug)]
pub struct TrayMenu {
    pub open_label: String,
    pub change_dns_label: String,
    pub close_label: String,
    pub entries: Vec<TrayEntry>,
}

impl View for TrayMenu {
    type V = TrayMenuView;

    open spec fn view(&self) -> TrayMenuView {
        TrayMenuView {
            open_label: self.open_label@,
            change_dns_label: self.change_dns_label@,
            close_label: self.close_label@,
            entries: tray_entry_views(self.entries@),
        }
    }
}

/// The tray menu for the providers, in catalogue order.
pub open spec fn spec_tray_menu(ps: Seq<ProviderView>, language: Seq<char>) -> TrayMenuView {
    let ind = is_indonesian(language);
    TrayMenuView {
        open_label: if ind { "Buka"@ } else { "Open"@ },
        change_dns_label: if ind { "Ganti DNS"@ } else { "Change DNS"@ },
        close_label: if ind { "Tutup"@ } else { "Close"@ },
        entries: ps.map_values(|p: ProviderView| spec_tray_entry(p, language)),
    }
}

/// The tray menu for the providers.
pub fn tray_menu(providers: &[DnsProvider], language: &str) -> (r: TrayMenu)
    ensures
        r@ == spec_tray_menu(provider_views(providers@), language@),
{
    let ghost ps = provider_views(providers@);
    let mut entries: Vec<TrayEntry> = Vec::new();
    let mut i: usize = 0;
    while i < providers.len()
        invariant
            i <= providers@.len(),
            ps == provider_views(providers@),
            tray_entry_views(entries@).len() == i,
            forall|j: int|
                0 <= j < i ==> #[trigger] tray_entry_views(entries@)[j] == spec_tray_entry(
                    ps[j],
                    language@,
                ),
        decreases providers.len() - i,
    {
        assert(ps[i as int] == providers@[i as int]@);
        let ghost before = entries@;
        let e = tray_entry(&providers[i], language);
        entries.push(e);
        assert(tray_entry_views(entries@) =~= tray_entry_views(before).push(e@));
        i = i + 1;
    }
    let ind = indonesian(language);
    let r = TrayMenu {
        open_label: if ind {
            owned("Buka")
        } else {
            owned("Open")
        },
        change_dns_label: if ind {
            owned("Ganti DNS")
        } else {
            owned("Change DNS")
        },
        close_label: if ind {
            owned("Tutup")
        } else {
            owned("Close")
        },
        entries,
    };
    assert(r@.entries =~= spec_tray_menu(ps, language@).entries);
    r
}

/// A provider identifier without a colon, so that the provider and the
/// profile number of a tray entry identifier can be told apart.
pub open spec fn colon_free(id: Seq<char>) -> bool {
    forall|k: int| 0 <= k < id.len() ==> id[k] != ':'
}

/// Tray entry identifiers name one provider profile each: for colon-free
/// provider identifiers, equal entry identifiers mean the same provider and
/// the same profile number.
pub proof fn lemma_tray_item_id_injective(p1: Seq<char>, n1: nat, p2: Seq<char>, n2: nat)
    requires
        colon_free(p1),
        colon_free(p2),
        tray_item_id(p1, n1) == tray_item_id(p2, n2),
    ensures
        p1 == p2,
        n1 == n2,
{
    reveal_strlit("tray-dns:");
    reveal_strlit(":");
    let pre = "tray-dns:"@;
    let colon = ":"@;
    assert(pre.len() == 9);
    assert(colon.len() == 1 && colon[0] == ':');
    let s1 = tray_item_id(p1, n1);
    let s2 = tray_item_id(p2, n2);
    assert(s1 == pre + p1 + colon + decimal(n1));
    assert(s2 == pre + p2 + colon + decimal(n2));
    if p1.len() < p2.len() {
        assert(s1[9 + p1.len() as int] == ':');
        assert(s2[9 + p1.len() as int] == p2[p1.len() as int]);
        assert(false);
    } else if p2.len() < p1.len() {
        assert(s2[9 + p2.len() as int] == ':');
        assert(s1[9 + p2.len() as int] == p1[p2.len() as int]);
        assert(false);
    }
    assert(p1 =~= s1.subrange(9, 9 + p1.len() as int));
    assert(p2 =~= s2.subrange(9, 9 + p2.len() as int));
    assert(decimal(n1) =~= s1.subrange(10 + p1.len() as int, s1.len() as int));
    assert(decimal(n2) =~= s2.subrange(10 + p2.len() as int, s2.len() as int));
    crate::text::lemma_decimal_injective(n1, n2);
}

/// The provider and profile of the last of the first `i` items with
/// identifier `id`.
pub open spec fn action_in_items(items: Seq<TrayItemView>, id: Seq<char>, i: int) -> Option<
    (Seq<char>, usize),
>
    decreases i,
{
    if i <= 0 || i > items.len() {
        None
    } else if items[i - 1].id == id {
        Some((items[i - 1].provider_id, items[i - 1].profile_index))
    } else {
        action_in_items(items, id, i - 1)
    }
}

/// The provider and profile of the last item with identifier `id` in the
/// first `j` entries.
pub open spec fn action_in_entries(entries: Seq<TrayEntryView>, id: Seq<char>, j: int) -> Option<
    (Seq<char>, usize),
>
    decreases j,
{
    if j <= 0 || j > entries.len() {
        None
    } else {
        match action_in_items(entries[j - 1].items, id, entries[j - 1].items.len() as int) {
            Some(a) => Some(a),
            None => action_in_entries(entries, id, j - 1),
        }
    }
}

/// What a menu event with identifier `id` asks for: the provider and profile
/// of the entry with that identifier (the last one listed, as a map from
/// identifiers keeps it), or nothing for another identifier.
pub open spec fn spec_tray_action(menu: TrayMenuView, id: Seq<char>) -> Option<(Seq<char>, usize)> {
    action_in_entries(menu.entries, id, menu.entries.len() as int)
}

/// The provider and profile a tray menu event asks for.
pub fn tray_action(menu: &TrayMenu, id: &str) -> (r: Option<(String, usize)>)
    ensures
        match r {
            Some((p, n)) => spec_tray_action(menu@, id@) == Some((p@, n)),
            None => spec_tray_action(menu@, id@) is None,
        },
{
    let ghost entries = menu@.entries;
    let mut j: usize = menu.entries.len();
    while j > 0
        invariant
            j <= menu.entries@.len(),
            entries == menu@.entries,
            entries.len() == menu.entries@.len(),
            spec_tray_action(menu@, id@) == action_in_entries(entries, id@, j as int),
        decreases j,
    {
        let entry = &menu.entries[j - 1];
        assert(entries[j - 1] == entry@);
        let ghost items = entry@.items;
        let mut i: usize = entry.items.len();
        while i > 0
            invariant
                0 < j <= menu.entries@.len(),
                entries == menu@.entries,
                entries[j - 1] == entry@,
                spec_tray_action(menu@, id@) == action_in_entries(entries, id@, j as int),
                i <= entry.items@.len(),
                items == entry@.items,
                items.len() == entry.items@.len(),
                action_in_items(items, id@, items.len() as int) == action_in_items(
                    items,
                    id@,
                    i as int,
                ),
            decreases i,
        {
            let item = &entry.items[i - 1];
            assert(items[i - 1] == item@);
            if str_eq(item.id.as_str(), id) {
                return Some((item.provider_id.clone(), item.profile_index));
            }
            i = i - 1;
        }
        j = j - 1;
    }
    None
}

/// Every tray entry leads back to its provider profile: in the menu of
/// providers with distinct, colon-free identifiers, the identifier of
/// profile `i` of provider `j` asks for exactly that profile.
pub proof fn lemma_tray_action_round_trip(ps: Seq<ProviderView>, language: Seq<char>, j: int, i: int)
    requires
        forall|a: int, b: int| 0 <= a < b < ps.len() ==> ps[a].id != ps[b].id,
        forall|a: int| 0 <= a < ps.len() ==> colon_free(#[trigger] ps[a].id),
        0 <= j < ps.len(),
        0 <= i < spec_tray_entry(ps[j], language).items.len(),
    ensures
        spec_tray_action(spec_tray_menu(ps, language), tray_item_id(ps[j].id, i as nat)) == Some(
            (ps[j].id, i as usize),
        ),
{
    let menu = spec_tray_menu(ps, language);
    let id = tray_item_id(ps[j].id, i as nat);
    lemma_action_in_later_entries(ps, language, j, ps.len() as int);
    lemma_action_in_own_entry(ps[j], language, i, spec_tray_entry(ps[j], language).items.len() as int);
    assert(menu.entries[j] == spec_tray_entry(ps[j], language));
}

/// Entries after provider `j` hold no item with the identifier of a profile
/// of provider `j`, so the search from the end reaches entry `j`.
proof fn lemma_action_in_later_entries(ps: Seq<ProviderView>, language: Seq<char>, j: int, m: int)
    requires
        forall|a: int, b: int| 0 <= a < b < ps.len() ==> ps[a].id != ps[b].id,
        forall|a: int| 0 <= a < ps.len() ==> colon_free(#[trigger] ps[a].id),
        0 <= j < m <= ps.len(),
    ensures
        forall|i: int|
            0 <= i < spec_tray_entry(ps[j], language).items.len() ==> #[trigger] action_in_entries(
                spec_tray_menu(ps, language).entries,
                tray_item_id(ps[j].id, i as nat),
                m,
            ) == action_in_entries(
                spec_tray_menu(ps, language).entries,
                tray_item_id(ps[j].id, i as nat),
                j + 1,
            ),
    decreases m - j,
{
    if m > j + 1 {
        lemma_action_in_later_entries(ps, language, j, m - 1);
        let entries = spec_tray_menu(ps, language).entries;
        assert forall|i: int|
            0 <= i < spec_tray_entry(ps[j], language).items.len() implies #[trigger] action_in_entries(
                entries,
                tray_item_id(ps[j].id, i as nat),
                m,
            ) == action_in_entries(entries, tray_item_id(ps[j].id, i as nat), j + 1) by {
            let id = tray_item_id(ps[j].id, i as nat);
            assert(entries[m - 1] == spec_tray_entry(ps[m - 1], language));
            assert(ps[j].id != ps[m - 1].id);
            assert(colon_free(ps[m - 1].id));
            assert(colon_free(ps[j].id));
            lemma_no_action_in_entry(ps[m - 1], language, id, ps[j].id, i as nat);
            assert(action_in_entries(entries, id, m) == action_in_entries(entries, id, m - 1));
        }
    }
}

/// An entry of a provider with another colon-free identifier holds no item
/// with the identifier of profile `n` of `other`.
proof fn lemma_no_action_in_entry(
    p: ProviderView,
    language: Seq<char>,
    id: Seq<char>,
    other: Seq<char>,
    n: nat,
)
    requires
        colon_free(p.id),
        colon_free(other),
        p.id != other,
        id == tray_item_id(other, n),
    ensures
        action_in_items(
            spec_tray_entry(p, language).items,
            id,
            spec_tray_entry(p, language).items.len() as int,
        ) is None,
{
    let items = spec_tray_entry(p, language).items;
    assert forall|k: int| 0 <= k < items.len() implies #[trigger] items[k].id != id by {
        if items[k].id == id {
            lemma_tray_item_id_injective(p.id, k as nat, other, n);
        }
    }
    lemma_action_in_items_none(items, id, items.len() as int);
}

/// Searching items none of which has the identifier finds nothing.
proof fn lemma_action_in_items_none(items: Seq<TrayItemView>, id: Seq<char>, i: int)
    requires
        0 <= i <= items.len(),
        forall|k: int| 0 <= k < items.len() ==> #[trigger] items[k].id != id,
    ensures
        action_in_items(items, id, i) is None,
    decreases i,
{
    if i > 0 {
        assert(items[i - 1].id != id);
        lemma_action_in_items_none(items, id, i - 1);
    }
}

/// Within its own entry, the identifier of profile `i` is found at item `i`:
/// later items carry other profile numbers.
proof fn lemma_action_in_own_entry(p: ProviderView, language: Seq<char>, i: int, m: int)
    requires
        colon_free(p.id),
        0 <= i < m <= spec_tray_entry(p, language).items.len(),
    ensures
        action_in_items(spec_tray_entry(p, language).items, tray_item_id(p.id, i as nat), m)
            == Some((p.id, i as usize)),
    decreases m - i,
{
    let items = spec_tray_entry(p, language).items;
    let id = tray_item_id(p.id, i as nat);
    if m > i + 1 {
        if items[m - 1].id == id {
            lemma_tray_item_id_injective(p.id, (m - 1) as nat, p.id, i as nat);
        }
        lemma_action_in_own_entry(p, language, i, m - 1);
    }
}

/// `suffix` ends `s`.
pub open spec fn ends_with(s: Seq<char>, suffix: Seq<char>) -> bool {
    suffix.len() <= s.len() && s.subrange(s.len() - suffix.len(), s.len() as int) == suffix
}

/// Whether `suffix` ends `s`.
pub fn ends_with_exec(s: &str, suffix: &str) -> (r: bool)
    ensures
        r == ends_with(s@, suffix@),
{
    let a = crate::text::chars_of(s);
    let b = crate::text::chars_of(suffix);
    if b.len() > a.len() {
        return false;
    }
    let start = a.len() - b.len();
    let r = crate::text::occurs_at_exec(a.as_slice(), b.as_slice(), start);
    assert(r == (a@.subrange(start as int, start + b@.len()) == b@));
    r
}

/// The tray entry for profile `index` of `provider_id` is checked: the
/// provider is the one in use (not the system configuration) and, when it
/// has several profiles, the active title ends with that profile's name.
pub open spec fn spec_tray_item_checked(
    ps: Seq<ProviderView>,
    provider_id: Seq<char>,
    index: usize,
    active_id: Seq<char>,
    active_title: Seq<char>,
    language: Seq<char>,
) -> bool {
    if active_id == "system"@ || provider_id != active_id {
        false
    } else {
        match find_provider(ps, provider_id) {
            Some(k) => {
                let profiles = spec_get_profiles(ps[k]);
                if profiles.len() <= 1 {
                    true
                } else {
                    index < profiles.len() && ends_with(
                        active_title,
                        profile_name(profiles[index as int], language),
                    )
                }
            },
            None => false,
        }
    }
}

/// Whether a tray entry is shown checked.
pub fn tray_item_checked(
    providers: &[DnsProvider],
    provider_id: &str,
    index: usize,
    active_id: &str,
    active_title: &str,
    language: &str,
) -> (r: bool)
    ensures
        r == spec_tray_item_checked(
            provider_views(providers@),
            provider_id@,
            index,
            active_id@,
            active_title@,
            language@,
        ),
{
    if str_eq(active_id, "system") || !str_eq(provider_id, active_id) {
        return false;
    }
    match find_provider_index(providers, provider_id) {
        None => false,
        Some(k) => {
            assert(provider_views(providers@)[k as int] == providers@[k as int]@);
            let profiles = providers[k].get_profiles();
            if profiles.len() <= 1 {
                true
            } else if index < profiles.len() {
                assert(profiles@[index as int]@ == spec_get_profiles(providers@[k as int]@)[index as int]);
                let name = if indonesian(language) {
                    profiles[index].name_id.as_str()
                } else {
                    profiles[index].name_en.as_str()
                };
                ends_with_exec(active_title, name)
            } else {
                false
            }
        },
    }
}

/// The title of a provider's tray submenu: marked with a check when it is
/// the provider in use.
pub open spec fn spec_tray_submenu_title(provider_id: Seq<char>, name: Seq<char>, active_id: Seq<char>) -> Seq<
    char,
> {
    if active_id != "system"@ && provider_id == active_id {
        "\u{2713} "@ + name
    } else {
        name
    }
}

/// The title of a provider's tray submenu.
pub fn tray_submenu_title(provider_id: &str, name: &str, active_id: &str) -> (r: String)
    ensures
        r@ == spec_tray_submenu_title(provider_id@, name@, active_id@),
{
    if !str_eq(active_id, "system") && str_eq(provider_id, active_id) {
        concat("\u{2713} ", name)
    } else {
        owned(name)
    }
}

/// The DNS change a tray entry asks for: the profile's IPv4 addresses (the
/// tray applies IPv4 only), with encrypted DNS when the profile has a
/// template. No change when the profile index is out of range or the profile
/// has no IPv4 address; an error when the provider or adapter is missing.
pub open spec fn spec_plan_tray_apply(
    ps: Seq<ProviderView>,
    provider_id: Seq<char>,
    index: usize,
    adapters: Seq<AdapterView>,
    adapter_index: i32,
    language: Seq<char>,
) -> Result<Option<PlanView>, Seq<char>> {
    match (find_provider(ps, provider_id), adapter_at(adapters, adapter_index)) {
        (Some(k), Some(adapter)) => {
            let p = ps[k];
            let profiles = spec_get_profiles(p);
            if index >= profiles.len() {
                Ok(None)
            } else {
                let profile = profiles[index as int];
                let addresses = crate::actions::non_empty_pair(
                    profile.ipv4_primary,
                    profile.ipv4_secondary,
                );
                let template = spec_doh_template(p.id, profile.id);
                if addresses.len() == 0 {
                    Ok(None)
                } else {
                    Ok(
                        Some(
                            PlanView {
                                adapter: adapter.name,
                                addresses,
                                doh_template: if template.len() > 0 {
                                    Some(template)
                                } else {
                                    None
                                },
                                provider_id: p.id,
                                title: crate::actions::applied_title(p, profile, language),
                            },
                        ),
                    )
                }
            }
        },
        _ => Err(no_adapter_message()),
    }
}

/// The abstract value of an optional plan result.
pub open spec fn opt_plan_result_view(r: Result<Option<ApplyPlan>, String>) -> Result<
    Option<PlanView>,
    Seq<char>,
> {
    match r {
        Ok(Some(p)) => Ok(Some(p@)),
        Ok(None) => Ok(None),
        Err(e) => Err(e@),
    }
}

/// The DNS change a tray entry asks for.
pub fn plan_tray_apply(
    providers: &[DnsProvider],
    provider_id: &str,
    index: usize,
    adapters: &[AdapterInfo],
    adapter_index: i32,
    language: &str,
) -> (r: Result<Option<ApplyPlan>, String>)
    ensures
        opt_plan_result_view(r) == spec_plan_tray_apply(
            provider_views(providers@),
            provider_id@,
            index,
            adapter_views(adapters@),
            adapter_index,
            language@,
        ),
{
    let k = find_provider_index(providers, provider_id);
    let a = adapter_position(adapters, adapter_index);
    let (k, a) = match (k, a) {
        (Some(k), Some(a)) => (k, a),
        _ => {
            return Err(owned("Select an active network adapter first."));
        },
    };
    let provider = &providers[k];
    let adapter = &adapters[a];
    assert(provider_views(providers@)[k as int] == provider@);
    assert(adapter_views(adapters@)[a as int] == adapter@);
    let profiles = provider.get_profiles();
    if index >= profiles.len() {
        return Ok(None);
    }
    let profile = &profiles[index];
    assert(profile@ == spec_get_profiles(provider@)[index as int]);
    let mut addresses: Vec<String> = Vec::new();
    if !profile.ipv4_primary.as_str().is_empty() {
        addresses.push(profile.ipv4_primary.clone());
    }
    if !profile.ipv4_secondary.as_str().is_empty() {
        addresses.push(profile.ipv4_secondary.clone());
    }
    assert(string_views(addresses@) =~= crate::actions::non_empty_pair(
        profile@.ipv4_primary,
        profile@.ipv4_secondary,
    ));
    if addresses.len() == 0 {
        return Ok(None);
    }
    let template = doh_template(provider.id.as_str(), profile.id.as_str());
    let name = if indonesian(language) {
        profile.name_id.as_str()
    } else {
        profile.name_en.as_str()
    };
    let title = if profiles.len() > 1 {
        let head = concat(provider.name.as_str(), " - ");
        concat(head.as_str(), name)
    } else {
        provider.name.clone()
    };
    Ok(
        Some(
            ApplyPlan {
                adapter: adapter.name.clone(),
                addresses,
                doh_template: if !template.as_str().is_empty() {
                    Some(template)
                } else {
                    None
                },
                provider_id: provider.id.clone(),
                title,
            },
        ),
    )
}

/// After a DNS change made from a tray entry, that entry is the one shown
/// checked: the provider identifier and the title the change reports mark it.
pub proof fn lemma_tray_apply_then_checked(
    ps: Seq<ProviderView>,
    provider_id: Seq<char>,
    k: int,
    index: usize,
    language: Seq<char>,
)
    requires
        provider_id != "system"@,
        find_provider(ps, provider_id) == Some(k),
        index < spec_get_profiles(ps[k]).len(),
    ensures
        spec_tray_item_checked(
            ps,
            provider_id,
            index,
            provider_id,
            crate::actions::applied_title(ps[k], spec_get_profiles(ps[k])[index as int], language),
            language,
        ),
{
    let profiles = spec_get_profiles(ps[k]);
    if profiles.len() > 1 {
        let name = profile_name(profiles[index as int], language);
        let title = ps[k].name + " - "@ + name;
        assert(title.subrange(title.len() - name.len(), title.len() as int) =~= name);
    }
}

} // verus!
