//! The decisions behind the user's actions: which addresses a DNS change
//! applies and under which title, the custom-provider form (save, edit,
//! delete), the resolver test, the connection quality and the traffic deltas.
use crate::catalog::{
    active_title, dns_separators, doh_template, indonesian, is_indonesian, profile_matches,
    profile_name, spec_dns_matches, spec_doh_template, spec_format_pair, spec_provider_is_active,
    spec_resolve_active_provider, format_pair,
};
use crate::models::{
    profile_views, provider_views, spec_get_profiles, spec_validate, DnsProfile, DnsProvider,
    ProfileView, ProviderView,
};
use crate::net::{ip_family, spec_ip_family};
use crate::system::{adapter_views, string_views, AdapterInfo, AdapterView};
use crate::text::{
    concat, eq_ignore_ascii_case, is_blank, is_ws, join, join_strings, lemma_join_first,
    lemma_split_first_piece, lemma_trim_nonempty, owned, split, str_eq, trim, trim_str,
};
use vstd::prelude::*;

verus! {

// ---------------------------------------------------------------------
// Connection quality
// ---------------------------------------------------------------------

/// The quality shown for a resolver that answered in `ms` milliseconds:
/// `Stable` below 100 ms, `Fair` below 250 ms, `Slow` from 250 ms on.
pub open spec fn spec_connection_state(ms: u128) -> Seq<char> {
    if ms < 100 {
        "Stable"@
    } else if ms < 250 {
        "Fair"@
    } else {
        "Slow"@
    }
}

/// The quality shown for a resolver that did not answer.
pub open spec fn unreachable_state() -> Seq<char> {
    "Unstable"@
}

/// The connection quality for a reachability result: the latency class, or
/// `Unstable` when the resolver did not respond.
pub fn connection_state(latency: Option<u128>) -> (r: String)
    ensures
        r@ == match latency {
            Some(ms) => spec_connection_state(ms),
            None => unreachable_state(),
        },
{
    match latency {
        Some(ms) => {
            if ms < 100 {
                owned("Stable")
            } else if ms < 250 {
                owned("Fair")
            } else {
                owned("Slow")
            }
        },
        None => owned("Unstable"),
    }
}

// ---------------------------------------------------------------------
// Addresses by IP mode
// ---------------------------------------------------------------------

/// IPv4 addresses only.
pub const MODE_IPV4: i32 = 0;

/// IPv6 addresses only.
pub const MODE_IPV6: i32 = 1;

/// IPv4 and IPv6 addresses together.
pub const MODE_BOTH: i32 = 2;

/// The non-empty ones of a primary and a secondary address, in that order.
pub open spec fn non_empty_pair(primary: Seq<char>, secondary: Seq<char>) -> Seq<Seq<char>> {
    (if primary.len() > 0 {
        seq![primary]
    } else {
        Seq::empty()
    }) + (if secondary.len() > 0 {
        seq![secondary]
    } else {
        Seq::empty()
    })
}

/// The addresses a DNS change applies in `mode`: the non-empty IPv4 pair
/// (modes 0 and 2) followed by the non-empty IPv6 pair (modes 1 and 2).
pub open spec fn mode_addresses(
    v4_primary: Seq<char>,
    v4_secondary: Seq<char>,
    v6_primary: Seq<char>,
    v6_secondary: Seq<char>,
    mode: i32,
) -> Seq<Seq<char>> {
    (if mode == MODE_IPV4 || mode == MODE_BOTH {
        non_empty_pair(v4_primary, v4_secondary)
    } else {
        Seq::empty()
    }) + (if mode == MODE_IPV6 || mode == MODE_BOTH {
        non_empty_pair(v6_primary, v6_secondary)
    } else {
        Seq::empty()
    })
}

/// Appends the non-empty ones of a pair of addresses to `out`.
fn push_non_empty_pair(out: &mut Vec<String>, primary: &String, secondary: &String)
    ensures
        string_views(final(out)@) == string_views(old(out)@) + non_empty_pair(
            primary@,
            secondary@,
        ),
{
    let ghost start = string_views(out@);
    if !primary.as_str().is_empty() {
        out.push(primary.clone());
    }
    let ghost middle = string_views(out@);
    assert(middle =~= start + (if primary@.len() > 0 {
        seq![primary@]
    } else {
        Seq::<Seq<char>>::empty()
    }));
    if !secondary.as_str().is_empty() {
        out.push(secondary.clone());
    }
    assert(string_views(out@) =~= start + non_empty_pair(primary@, secondary@));
}

/// The addresses a DNS change applies in `mode`.
pub fn addresses_for_mode(
    v4_primary: &String,
    v4_secondary: &String,
    v6_primary: &String,
    v6_secondary: &String,
    mode: i32,
) -> (r: Vec<String>)
    ensures
        string_views(r@) == mode_addresses(
            v4_primary@,
            v4_secondary@,
            v6_primary@,
            v6_secondary@,
            mode,
        ),
{
    let mut r: Vec<String> = Vec::new();
    assert(string_views(r@) =~= Seq::<Seq<char>>::empty());
    if mode == MODE_IPV4 || mode == MODE_BOTH {
        push_non_empty_pair(&mut r, v4_primary, v4_secondary);
    }
    let ghost middle = string_views(r@);
    if mode == MODE_IPV6 || mode == MODE_BOTH {
        push_non_empty_pair(&mut r, v6_primary, v6_secondary);
    }
    assert(string_views(r@) =~= mode_addresses(
        v4_primary@,
        v4_secondary@,
        v6_primary@,
        v6_secondary@,
        mode,
    ));
    r
}

/// The addresses blank fields are left out of: every applied address is
/// non-empty, and each one is one of the four fields.
pub proof fn lemma_mode_addresses_non_empty(
    v4_primary: Seq<char>,
    v4_secondary: Seq<char>,
    v6_primary: Seq<char>,
    v6_secondary: Seq<char>,
    mode: i32,
)
    ensures
        forall|k: int|
            0 <= k < mode_addresses(v4_primary, v4_secondary, v6_primary, v6_secondary, mode).len()
                ==> {
                let a = #[trigger] mode_addresses(
                    v4_primary,
                    v4_secondary,
                    v6_primary,
                    v6_secondary,
                    mode,
                )[k];
                &&& a.len() > 0
                &&& (a == v4_primary || a == v4_secondary || a == v6_primary || a == v6_secondary)
            },
{
}

// ---------------------------------------------------------------------
// Looking up providers and adapters
// ---------------------------------------------------------------------

/// The index of the first provider with identifier `id` at or after `i`.
pub open spec fn find_provider_from(ps: Seq<ProviderView>, id: Seq<char>, i: int) -> Option<int>
    decreases ps.len() - i,
{
    if i < 0 || i >= ps.len() {
        None
    } else if ps[i].id == id {
        Some(i)
    } else {
        find_provider_from(ps, id, i + 1)
    }
}

/// The index of the first provider with identifier `id`.
pub open spec fn find_provider(ps: Seq<ProviderView>, id: Seq<char>) -> Option<int> {
    find_provider_from(ps, id, 0)
}

/// A found index lies in range and names a provider with that identifier,
/// and no earlier provider has it.
pub proof fn lemma_find_provider_from(ps: Seq<ProviderView>, id: Seq<char>, i: int)
    requires
        0 <= i,
    ensures
        find_provider_from(ps, id, i) matches Some(k) ==> i <= k < ps.len() && ps[k].id == id
            && forall|j: int| i <= j < k ==> ps[j].id != id,
        find_provider_from(ps, id, i) is None ==> forall|j: int| i <= j < ps.len() ==> ps[j].id != id,
    decreases ps.len() - i,
{
    if i < ps.len() {
        lemma_find_provider_from(ps, id, i + 1);
    }
}

/// The index of the first provider with identifier `id`.
pub fn find_provider_index(providers: &[DnsProvider], id: &str) -> (r: Option<usize>)
    ensures
        match r {
            Some(k) => find_provider(provider_views(providers@), id@) == Some(k as int),
            None => find_provider(provider_views(providers@), id@) is None,
        },
        r matches Some(k) ==> k < providers@.len(),
{
    let ghost ps = provider_views(providers@);
    let mut i: usize = 0;
    while i < providers.len()
        invariant
            i <= providers@.len(),
            ps == provider_views(providers@),
            find_provider(ps, id@) == find_provider_from(ps, id@, i as int),
        decreases providers.len() - i,
    {
        assert(ps[i as int] == providers@[i as int]@);
        if str_eq(providers[i].id.as_str(), id) {
            return Some(i);
        }
        i = i + 1;
    }
    None
}

/// The list position of an interface index that may be negative.
pub open spec fn clamped_index(index: i32) -> int {
    if index < 0 {
        0
    } else {
        index as int
    }
}

/// The adapter at a position chosen in the interface, if there is one.
pub open spec fn adapter_at(adapters: Seq<AdapterView>, index: i32) -> Option<AdapterView> {
    if clamped_index(index) < adapters.len() {
        Some(adapters[clamped_index(index)])
    } else {
        None
    }
}

/// The position of the adapter chosen in the interface, if it exists.
pub fn adapter_position(adapters: &[AdapterInfo], index: i32) -> (r: Option<usize>)
    ensures
        match r {
            Some(k) => k as int == clamped_index(index) && k < adapters@.len(),
            None => clamped_index(index) >= adapters@.len(),
        },
{
    let k: usize = if index < 0 {
        0
    } else {
        index as usize
    };
    if k < adapters.len() {
        Some(k)
    } else {
        None
    }
}

// ---------------------------------------------------------------------
// Planning DNS changes
// ---------------------------------------------------------------------

/// The abstract value of an [`ApplyPlan`].
pub struct PlanView {
    pub adapter: Seq<char>,
    pub addresses: Seq<Seq<char>>,
    pub doh_template: Option<Seq<char>>,
    pub provider_id: Seq<char>,
    pub title: Seq<char>,
}

/// A DNS change ready to run: the adapter, the addresses (and encrypted-DNS
/// template), and the provider identifier and title shown once it succeeds.
#[derive(Clone, Debug)]
pub struct ApplyPlan {
    pub adapter: String,
    pub addresses: Vec<String>,
    pub doh_template: Option<String>,
    pub provider_id: String,
    pub title: String,
}

impl View for ApplyPlan {
    type V = PlanView;

    open spec fn view(&self) -> PlanView {
        PlanView {
            adapter: self.adapter@,
            addresses: string_views(self.addresses@),
            doh_template: crate::system::opt_string_view(self.doh_template),
            provider_id: self.provider_id@,
            title: self.title@,
        }
    }
}

/// The abstract value of a plan result.
pub open spec fn plan_result_view(r: Result<ApplyPlan, String>) -> Result<PlanView, Seq<char>> {
    match r {
        Ok(p) => Ok(p@),
        Err(e) => Err(e@),
    }
}

/// The message shown when no adapter (or no provider) is selected.
pub open spec fn no_adapter_message() -> Seq<char> {
    "Select an active network adapter first."@
}

/// The profile chosen at `index` (clamped at 0), or the first one when the
/// index is out of range.
pub open spec fn chosen_profile(profiles: Seq<ProfileView>, index: i32) -> ProfileView {
    if clamped_index(index) < profiles.len() {
        profiles[clamped_index(index)]
    } else {
        profiles[0]
    }
}

/// The title shown for a provider applied with one of its profiles: its
/// name, followed by the profile's name when it has several.
pub open spec fn applied_title(p: ProviderView, profile: ProfileView, language: Seq<char>) -> Seq<
    char,
> {
    if spec_get_profiles(p).len() > 1 {
        p.name + " - "@ + profile_name(profile, language)
    } else {
        p.name
    }
}

/// The message shown when encrypted DNS is asked for a profile without a
/// template.
pub open spec fn no_template_message(language: Seq<char>) -> Seq<char> {
    if is_indonesian(language) {
        "Profil ini tidak memiliki template DNS terenkripsi."@
    } else {
        "This profile does not provide an encrypted DNS template."@
    }
}

/// Applying a profile of a provider: the provider (by identifier) and the
/// adapter (by position) must exist; the chosen profile's addresses for the
/// mode must not be empty; encrypted DNS needs a non-blank template.
pub open spec fn spec_plan_profile_apply(
    providers: Seq<ProviderView>,
    id: Seq<char>,
    profile_index: i32,
    adapters: Seq<AdapterView>,
    adapter_index: i32,
    mode: i32,
    encrypted: bool,
    template: Seq<char>,
    language: Seq<char>,
) -> Result<PlanView, Seq<char>> {
    match (find_provider(providers, id), adapter_at(adapters, adapter_index)) {
        (Some(k), Some(adapter)) => {
            let p = providers[k];
            let profile = chosen_profile(spec_get_profiles(p), profile_index);
            let addresses = mode_addresses(
                profile.ipv4_primary,
                profile.ipv4_secondary,
                profile.ipv6_primary,
                profile.ipv6_secondary,
                mode,
            );
            if addresses.len() == 0 {
                Err("This profile has no address for the selected IP mode."@)
            } else if encrypted && trim(template).len() == 0 {
                Err(no_template_message(language))
            } else {
                Ok(
                    PlanView {
                        adapter: adapter.name,
                        addresses,
                        doh_template: if encrypted {
                            Some(template)
                        } else {
                            None
                        },
                        provider_id: p.id,
                        title: applied_title(p, profile, language),
                    },
                )
            }
        },
        _ => Err(no_adapter_message()),
    }
}

/// Plans applying a profile of a provider to an adapter, or says why it
/// cannot be applied.
pub fn plan_profile_apply(
    providers: &[DnsProvider],
    id: &str,
    profile_index: i32,
    adapters: &[AdapterInfo],
    adapter_index: i32,
    mode: i32,
    encrypted: bool,
    template: &str,
    language: &str,
) -> (r: Result<ApplyPlan, String>)
    ensures
        plan_result_view(r) == spec_plan_profile_apply(
            provider_views(providers@),
            id@,
            profile_index,
            adapter_views(adapters@),
            adapter_index,
            mode,
            encrypted,
            template@,
            language@,
        ),
{
    let k = find_provider_index(providers, id);
    let a = adapter_position(adapters, adapter_index);
    let (k, a) = match (k, a) {
        (Some(k), Some(a)) => (k, a),
        _ => {
            return Err(owned("Select an active network adapter first."));
        },
    };
    let provider = &providers[k];
    let adapter = &adapters[a];
    assert(provider_views(providers@)[k as int] == provider@);
    assert(adapter_views(adapters@)[a as int] == adapter@);
    let profiles = provider.get_profiles();
    proof {
        crate::models::lemma_profiles_nonempty(provider@);
    }
    let idx: usize = if profile_index < 0 {
        0
    } else {
        profile_index as usize
    };
    let chosen: usize = if idx < profiles.len() {
        idx
    } else {
        0
    };
    let profile = &profiles[chosen];
    assert(profile@ == chosen_profile(spec_get_profiles(provider@), profile_index));
    let addresses = addresses_for_mode(
        &profile.ipv4_primary,
        &profile.ipv4_secondary,
        &profile.ipv6_primary,
        &profile.ipv6_secondary,
        mode,
    );
    if addresses.len() == 0 {
        return Err(owned("This profile has no address for the selected IP mode."));
    }
    if encrypted && is_blank(template) {
        return Err(
            if indonesian(language) {
                owned("Profil ini tidak memiliki template DNS terenkripsi.")
            } else {
                owned("This profile does not provide an encrypted DNS template.")
            },
        );
    }
    let name = if indonesian(language) {
        profile.name_id.as_str()
    } else {
        profile.name_en.as_str()
    };
    let title = if profiles.len() > 1 {
        let head = concat(provider.name.as_str(), " - ");
        concat(head.as_str(), name)
    } else {
        provider.name.clone()
    };
    Ok(
        ApplyPlan {
            adapter: adapter.name.clone(),
            addresses,
            doh_template: if encrypted {
                Some(owned(template))
            } else {
                None
            },
            provider_id: provider.id.clone(),
            title,
        },
    )
}

/// Applying a provider's own addresses (without a profile): the provider and
/// adapter must exist and the addresses for the mode must not be empty; the
/// title is the provider's name and no encrypted DNS is registered.
pub open spec fn spec_plan_provider_apply(
    providers: Seq<ProviderView>,
    id: Seq<char>,
    adapters: Seq<AdapterView>,
    adapter_index: i32,
    mode: i32,
) -> Result<PlanView, Seq<char>> {
    match (find_provider(providers, id), adapter_at(adapters, adapter_index)) {
        (Some(k), Some(adapter)) => {
            let p = providers[k];
            let addresses = mode_addresses(
                p.ipv4_primary,
                p.ipv4_secondary,
                p.ipv6_primary,
                p.ipv6_secondary,
                mode,
            );
            if addresses.len() == 0 {
                Err("This provider has no address for the selected IP mode."@)
            } else {
                Ok(
                    PlanView {
                        adapter: adapter.name,
                        addresses,
                        doh_template: None,
                        provider_id: p.id,
                        title: p.name,
                    },
                )
            }
        },
        _ => Err(no_adapter_message()),
    }
}

/// Plans applying a provider's own addresses to an adapter.
pub fn plan_provider_apply(
    providers: &[DnsProvider],
    id: &str,
    adapters: &[AdapterInfo],
    adapter_index: i32,
    mode: i32,
) -> (r: Result<ApplyPlan, String>)
    ensures
        plan_result_view(r) == spec_plan_provider_apply(
            provider_views(providers@),
            id@,
            adapter_views(adapters@),
            adapter_index,
            mode,
        ),
{
    let k = find_provider_index(providers, id);
    let a = adapter_position(adapters, adapter_index);
    let (k, a) = match (k, a) {
        (Some(k), Some(a)) => (k, a),
        _ => {
            return Err(owned("Select an active network adapter first."));
        },
    };
    let provider = &providers[k];
    let adapter = &adapters[a];
    assert(provider_views(providers@)[k as int] == provider@);
    assert(adapter_views(adapters@)[a as int] == adapter@);
    let addresses = addresses_for_mode(
        &provider.ipv4_primary,
        &provider.ipv4_secondary,
        &provider.ipv6_primary,
        &provider.ipv6_secondary,
        mode,
    );
    if addresses.len() == 0 {
        return Err(owned("This provider has no address for the selected IP mode."));
    }
    Ok(
        ApplyPlan {
            adapter: adapter.name.clone(),
            addresses,
            doh_template: None,
            provider_id: provider.id.clone(),
            title: provider.name.clone(),
        },
    )
}

/// The adapter whose DNS is reset to automatic: the one at the chosen
/// position, or the message asking to select one.
pub fn plan_reset(adapters: &[AdapterInfo], adapter_index: i32) -> (r: Result<String, String>)
    ensures
        crate::system::text_result_view(r) == match adapter_at(
            adapter_views(adapters@),
            adapter_index,
        ) {
            Some(a) => Ok(a.name),
            None => Err(no_adapter_message()),
        },
{
    match adapter_position(adapters, adapter_index) {
        Some(a) => {
            assert(adapter_views(adapters@)[a as int] == adapters@[a as int]@);
            Ok(adapters[a].name.clone())
        },
        None => Err(owned("Select an active network adapter first.")),
    }
}

// ---------------------------------------------------------------------
// Recording a DNS change
// ---------------------------------------------------------------------

/// The server list an adapter reports once `addresses` are applied: the
/// addresses separated by `, `.
pub open spec fn applied_dns(addresses: Seq<Seq<char>>) -> Seq<char> {
    join(addresses, ", "@)
}

/// The server list shown once `addresses` are applied.
pub fn applied_dns_text(addresses: &[String]) -> (r: String)
    ensures
        r@ == applied_dns(string_views(addresses@)),
{
    join_strings(addresses, ", ")
}

/// The index of the first adapter named `name` at or after `i`.
pub open spec fn find_adapter_from(adapters: Seq<AdapterView>, name: Seq<char>, i: int) -> Option<
    int,
>
    decreases adapters.len() - i,
{
    if i < 0 || i >= adapters.len() {
        None
    } else if adapters[i].name == name {
        Some(i)
    } else {
        find_adapter_from(adapters, name, i + 1)
    }
}

/// The index of the first adapter named `name`.
pub open spec fn find_adapter(adapters: Seq<AdapterView>, name: Seq<char>) -> Option<int> {
    find_adapter_from(adapters, name, 0)
}

/// A found adapter index lies in range and names an adapter of that name.
pub proof fn lemma_find_adapter_from(adapters: Seq<AdapterView>, name: Seq<char>, i: int)
    requires
        0 <= i,
    ensures
        find_adapter_from(adapters, name, i) matches Some(k) ==> i <= k < adapters.len()
            && adapters[k].name == name,
    decreases adapters.len() - i,
{
    if i < adapters.len() {
        lemma_find_adapter_from(adapters, name, i + 1);
    }
}

/// The adapters once a DNS change on `name` succeeded: the first adapter of
/// that name reports the applied servers, set by hand, with encrypted DNS as
/// it was asked for; every other adapter is unchanged.
pub open spec fn spec_record_applied(
    adapters: Seq<AdapterView>,
    name: Seq<char>,
    addresses: Seq<Seq<char>>,
    encrypted: bool,
) -> Seq<AdapterView> {
    match find_adapter(adapters, name) {
        Some(k) => adapters.update(
            k,
            AdapterView {
                dns: applied_dns(addresses),
                dns_automatic: false,
                dns_encrypted: encrypted,
                ..adapters[k]
            },
        ),
        None => adapters,
    }
}

/// Records a successful DNS change on the adapter `name`.
pub fn record_applied(
    adapters: &mut Vec<AdapterInfo>,
    name: &str,
    addresses: &[String],
    encrypted: bool,
)
    ensures
        adapter_views(final(adapters)@) == spec_record_applied(
            adapter_views(old(adapters)@),
            name@,
            string_views(addresses@),
            encrypted,
        ),
{
    let ghost before = adapter_views(adapters@);
    let mut i: usize = 0;
    while i < adapters.len()
        invariant
            i <= adapters@.len(),
            adapters@ == old(adapters)@,
            before == adapter_views(adapters@),
            find_adapter(before, name@) == find_adapter_from(before, name@, i as int),
        decreases adapters.len() - i,
    {
        assert(before[i as int] == adapters@[i as int]@);
        if str_eq(adapters[i].name.as_str(), name) {
            let updated = AdapterInfo {
                name: adapters[i].name.clone(),
                label: adapters[i].label.clone(),
                dns: applied_dns_text(addresses),
                interface_index: adapters[i].interface_index,
                dns_automatic: false,
                dns_encrypted: encrypted,
            };
            adapters.set(i, updated);
            assert(adapter_views(adapters@) =~= spec_record_applied(
                before,
                name@,
                string_views(addresses@),
                encrypted,
            ));
            return;
        }
        i = i + 1;
    }
    assert(adapter_views(adapters@) =~= spec_record_applied(
        before,
        name@,
        string_views(addresses@),
        encrypted,
    ));
}

/// A recorded change is what a refresh reads back: the changed adapter keeps
/// its name and now reports the applied servers as its configured DNS.
pub proof fn lemma_record_applied_read_back(
    adapters: Seq<AdapterView>,
    name: Seq<char>,
    addresses: Seq<Seq<char>>,
    encrypted: bool,
)
    requires
        find_adapter(adapters, name) is Some,
    ensures
        ({
            let k = find_adapter(adapters, name)->0;
            let after = spec_record_applied(adapters, name, addresses, encrypted);
            &&& after.len() == adapters.len()
            &&& after[k].name == name
            &&& spec_configured_dns(after[k]) == applied_dns(addresses)
            &&& after[k].dns_encrypted == encrypted
        }),
{
    lemma_find_adapter_from(adapters, name, 0);
}

/// An address written plainly: not empty, with no whitespace and no list
/// separator in it.
pub open spec fn plain_address(a: Seq<char>) -> bool {
    &&& a.len() > 0
    &&& forall|k: int|
        0 <= k < a.len() ==> !is_ws(#[trigger] a[k]) && !dns_separators().contains(a[k])
}

/// The servers reported after a change list its first address, when that
/// address is written plainly; the list is then not blank.
pub proof fn lemma_applied_dns_lists_first(addresses: Seq<Seq<char>>)
    requires
        addresses.len() > 0,
        plain_address(addresses[0]),
    ensures
        spec_dns_matches(applied_dns(addresses), addresses[0]),
        trim(applied_dns(addresses)).len() != 0,
{
    let a0 = addresses[0];
    let sep = ", "@;
    reveal_strlit(", ");
    assert(sep.len() == 2 && sep[0] == ',');
    lemma_join_first(addresses, sep);
    let dns = applied_dns(addresses);
    let rest = dns.subrange(a0.len() as int, dns.len() as int);
    assert(dns =~= a0 + rest);
    assert(dns_separators().contains(','));
    assert(rest.len() == 0 || rest[0] == ',');
    lemma_split_first_piece(a0, rest, dns_separators());
    let parts = split(dns, dns_separators());
    assert(parts[0] == a0);
    assert(!is_ws(a0[0]));
    lemma_trim_nonempty(a0);
    assert(eq_ignore_ascii_case(trim(parts[0]), trim(a0)));
    assert(dns[0] == a0[0]);
    lemma_trim_nonempty(dns);
}

/// After a planned change of a provider's profile is applied, the provider is
/// recognized as the one in use from the servers the adapter then reports,
/// and the provider shown is it or an earlier one sharing an address; this
/// holds when the first applied address is written plainly.
pub proof fn lemma_applied_provider_recognized(
    providers: Seq<ProviderView>,
    id: Seq<char>,
    profile_index: i32,
    adapters: Seq<AdapterView>,
    adapter_index: i32,
    mode: i32,
    encrypted: bool,
    template: Seq<char>,
    language: Seq<char>,
)
    requires
        spec_plan_profile_apply(
            providers,
            id,
            profile_index,
            adapters,
            adapter_index,
            mode,
            encrypted,
            template,
            language,
        ) matches Ok(plan) && plain_address(plan.addresses[0]),
    ensures
        spec_plan_profile_apply(
            providers,
            id,
            profile_index,
            adapters,
            adapter_index,
            mode,
            encrypted,
            template,
            language,
        ) matches Ok(plan) ==> find_provider(providers, id) matches Some(k) && {
            let dns = applied_dns(plan.addresses);
            &&& spec_provider_is_active(providers[k], dns)
            &&& exists|j: int|
                0 <= j <= k && spec_resolve_active_provider(providers, dns, language).0
                    == providers[j].id
        },
{
    lemma_find_provider_from(providers, id, 0);
    let plan = spec_plan_profile_apply(
        providers,
        id,
        profile_index,
        adapters,
        adapter_index,
        mode,
        encrypted,
        template,
        language,
    )->Ok_0;
    let k = find_provider(providers, id)->0;
    let p = providers[k];
    let profiles = spec_get_profiles(p);
    crate::models::lemma_profiles_nonempty(p);
    let c = if clamped_index(profile_index) < profiles.len() {
        clamped_index(profile_index)
    } else {
        0
    };
    let profile = profiles[c];
    assert(profile == chosen_profile(profiles, profile_index));
    lemma_mode_addresses_non_empty(
        profile.ipv4_primary,
        profile.ipv4_secondary,
        profile.ipv6_primary,
        profile.ipv6_secondary,
        mode,
    );
    let dns = applied_dns(plan.addresses);
    lemma_applied_dns_lists_first(plan.addresses);
    assert(profile_matches(profile, dns));
    assert(spec_provider_is_active(p, dns));
    crate::catalog::lemma_resolve_active_provider(providers, dns, language);
}

// ---------------------------------------------------------------------
// Custom providers
// ---------------------------------------------------------------------

/// The index of the first custom provider with identifier `id` at or after `i`.
pub open spec fn find_custom_from(ps: Seq<ProviderView>, id: Seq<char>, i: int) -> Option<int>
    decreases ps.len() - i,
{
    if i < 0 || i >= ps.len() {
        None
    } else if ps[i].id == id && ps[i].custom {
        Some(i)
    } else {
        find_custom_from(ps, id, i + 1)
    }
}

/// The index of the first custom provider with identifier `id`.
pub open spec fn find_custom(ps: Seq<ProviderView>, id: Seq<char>) -> Option<int> {
    find_custom_from(ps, id, 0)
}

/// A found custom index lies in range and names a custom provider with that
/// identifier.
pub proof fn lemma_find_custom_from(ps: Seq<ProviderView>, id: Seq<char>, i: int)
    requires
        0 <= i,
    ensures
        find_custom_from(ps, id, i) matches Some(k) ==> i <= k < ps.len() && ps[k].id == id
            && ps[k].custom,
        find_custom_from(ps, id, i) is None ==> forall|j: int|
            i <= j < ps.len() ==> !(ps[j].id == id && ps[j].custom),
    decreases ps.len() - i,
{
    if i < ps.len() {
        lemma_find_custom_from(ps, id, i + 1);
    }
}

/// The index of the first custom provider with identifier `id`.
pub fn find_custom_index(providers: &[DnsProvider], id: &str) -> (r: Option<usize>)
    ensures
        match r {
            Some(k) => find_custom(provider_views(providers@), id@) == Some(k as int),
            None => find_custom(provider_views(providers@), id@) is None,
        },
        r matches Some(k) ==> k < providers@.len(),
{
    let ghost ps = provider_views(providers@);
    let mut i: usize = 0;
    while i < providers.len()
        invariant
            i <= providers@.len(),
            ps == provider_views(providers@),
            find_custom(ps, id@) == find_custom_from(ps, id@, i as int),
        decreases providers.len() - i,
    {
        assert(ps[i as int] == providers@[i as int]@);
        if providers[i].custom && str_eq(providers[i].id.as_str(), id) {
            return Some(i);
        }
        i = i + 1;
    }
    None
}

/// The identifier of a saved custom provider: the edited one's, or for a new
/// one `custom-` followed by the current Unix time in milliseconds.
pub open spec fn custom_id(form_id: Seq<char>, now_millis: u128) -> Seq<char> {
    if form_id.len() == 0 {
        "custom-"@ + crate::text::decimal(now_millis as nat)
    } else {
        form_id
    }
}

/// The custom provider a completed form describes: trimmed name, addresses
/// and summary (used in both languages), the chosen purpose, fixed notes on
/// user-defined resolvers, and no profiles.
pub open spec fn form_provider(
    id: Seq<char>,
    name: Seq<char>,
    v4_primary: Seq<char>,
    v4_secondary: Seq<char>,
    v6_primary: Seq<char>,
    v6_secondary: Seq<char>,
    summary: Seq<char>,
    purpose: Seq<char>,
) -> ProviderView {
    ProviderView {
        id,
        name: trim(name),
        ipv4_primary: trim(v4_primary),
        ipv4_secondary: trim(v4_secondary),
        ipv6_primary: trim(v6_primary),
        ipv6_secondary: trim(v6_secondary),
        summary_en: trim(summary),
        summary_id: trim(summary),
        purpose,
        pros_en: "User-defined resolver"@,
        pros_id: "Resolver ditentukan pengguna"@,
        cons_en: "Trust and availability depend on its operator"@,
        cons_id: "Kepercayaan dan ketersediaan bergantung pada pengelolanya"@,
        custom: true,
        profiles: Seq::empty(),
    }
}

/// `p` replaces the first custom provider with its identifier, or is added
/// at the end when there is none.
pub open spec fn upsert_custom(ps: Seq<ProviderView>, p: ProviderView) -> Seq<ProviderView> {
    match find_custom(ps, p.id) {
        Some(k) => ps.update(k, p),
        None => ps.push(p),
    }
}

/// Saving keeps the bundled providers where they are and makes the saved
/// provider part of the list.
pub proof fn lemma_upsert_custom(ps: Seq<ProviderView>, p: ProviderView)
    requires
        p.custom,
    ensures
        upsert_custom(ps, p).contains(p),
        upsert_custom(ps, p).len() == ps.len() || upsert_custom(ps, p).len() == ps.len() + 1,
        forall|k: int| 0 <= k < ps.len() && !ps[k].custom ==> #[trigger] upsert_custom(ps, p)[k] == ps[k],
{
    lemma_find_custom_from(ps, p.id, 0);
    match find_custom(ps, p.id) {
        Some(k) => {
            assert(upsert_custom(ps, p)[k] == p);
        },
        None => {
            assert(upsert_custom(ps, p)[ps.len() as int] == p);
        },
    }
}

/// Editing keeps the stable identifier: saving the form of a custom provider
/// with a non-empty identifier builds a provider with that identifier, which
/// takes the edited provider's place, so the list keeps its length.
pub proof fn lemma_edit_keeps_id(
    ps: Seq<ProviderView>,
    id: Seq<char>,
    name: Seq<char>,
    v4_primary: Seq<char>,
    v4_secondary: Seq<char>,
    v6_primary: Seq<char>,
    v6_secondary: Seq<char>,
    summary: Seq<char>,
    purpose: Seq<char>,
    now_millis: u128,
)
    requires
        id.len() > 0,
        find_custom(ps, id) is Some,
    ensures
        ({
            let p = form_provider(
                custom_id(id, now_millis),
                name,
                v4_primary,
                v4_secondary,
                v6_primary,
                v6_secondary,
                summary,
                purpose,
            );
            &&& p.id == id
            &&& upsert_custom(ps, p).len() == ps.len()
            &&& upsert_custom(ps, p)[find_custom(ps, id)->0] == p
            &&& forall|j: int|
                0 <= j < ps.len() && j != find_custom(ps, id)->0 ==> #[trigger] upsert_custom(ps, p)[j]
                    == ps[j]
        }),
{
    lemma_find_custom_from(ps, id, 0);
}

/// Saves the custom-provider form: the provider is built from the form and
/// validated; if valid it replaces the custom provider with the same
/// identifier or is appended, otherwise the list is left as it was and the
/// validation message is returned.
pub fn save_custom_provider(
    providers: &mut Vec<DnsProvider>,
    id: &str,
    name: &str,
    v4_primary: &str,
    v4_secondary: &str,
    v6_primary: &str,
    v6_secondary: &str,
    summary: &str,
    purpose: &str,
    now_millis: u128,
) -> (r: Result<(), String>)
    ensures
        ({
            let p = form_provider(
                custom_id(id@, now_millis),
                name@,
                v4_primary@,
                v4_secondary@,
                v6_primary@,
                v6_secondary@,
                summary@,
                purpose@,
            );
            &&& crate::models::unit_result_view(r) == spec_validate(p)
            &&& r is Ok ==> provider_views(final(providers)@) == upsert_custom(
                provider_views(old(providers)@),
                p,
            )
            &&& r is Err ==> final(providers)@ == old(providers)@
        }),
{
    let new_id = if id.is_empty() {
        let digits = crate::text::decimal_string(now_millis);
        concat("custom-", digits.as_str())
    } else {
        owned(id)
    };
    let summary_text = trim_str(summary);
    let provider = DnsProvider {
        id: new_id,
        name: trim_str(name),
        ipv4_primary: trim_str(v4_primary),
        ipv4_secondary: trim_str(v4_secondary),
        ipv6_primary: trim_str(v6_primary),
        ipv6_secondary: trim_str(v6_secondary),
        summary_en: summary_text.clone(),
        summary_id: summary_text,
        purpose: owned(purpose),
        pros_en: owned("User-defined resolver"),
        pros_id: owned("Resolver ditentukan pengguna"),
        cons_en: owned("Trust and availability depend on its operator"),
        cons_id: owned("Kepercayaan dan ketersediaan bergantung pada pengelolanya"),
        custom: true,
        profiles: Vec::new(),
    };
    assert(provider@.profiles =~= Seq::<ProfileView>::empty());
    assert(provider.id@ == custom_id(id@, now_millis));
    assert(provider@ =~~= form_provider(
        custom_id(id@, now_millis),
        name@,
        v4_primary@,
        v4_secondary@,
        v6_primary@,
        v6_secondary@,
        summary@,
        purpose@,
    ));
    match provider.validate() {
        Err(message) => {
            return Err(message);
        },
        Ok(()) => {},
    }
    let ghost before = provider_views(providers@);
    let ghost pv = provider@;
    match find_custom_index(providers.as_slice(), provider.id.as_str()) {
        Some(k) => {
            providers.set(k, provider);
            assert(provider_views(providers@) =~= before.update(k as int, pv));
        },
        None => {
            providers.push(provider);
            assert(provider_views(providers@) =~= before.push(pv));
        },
    }
    Ok(())
}

/// The providers kept when the custom provider `id` is deleted: every
/// bundled provider and every custom provider with another identifier.
pub open spec fn spec_delete_custom(ps: Seq<ProviderView>, id: Seq<char>) -> Seq<ProviderView> {
    ps.filter(|p: ProviderView| !p.custom || p.id != id)
}

/// Deleting never removes a bundled provider, even for an unexpected
/// identifier, and leaves no custom provider with the deleted identifier.
pub proof fn lemma_delete_custom(ps: Seq<ProviderView>, id: Seq<char>)
    ensures
        forall|k: int| 0 <= k < ps.len() && !ps[k].custom ==> #[trigger] spec_delete_custom(ps, id).contains(ps[k]),
        forall|k: int|
            0 <= k < spec_delete_custom(ps, id).len() ==> !(#[trigger] spec_delete_custom(ps, id)[k]).custom
                || spec_delete_custom(ps, id)[k].id != id,
{
    broadcast use vstd::seq_lib::group_filter_ensures;

    let f = |p: ProviderView| !p.custom || p.id != id;
    assert forall|k: int| 0 <= k < ps.len() && !ps[k].custom implies #[trigger] spec_delete_custom(ps, id).contains(ps[k]) by {
        ps.lemma_filter_contains(f, k);
    }
    assert forall|k: int| 0 <= k < spec_delete_custom(ps, id).len() implies !(#[trigger] spec_delete_custom(ps, id)[k]).custom
        || spec_delete_custom(ps, id)[k].id != id by {
        ps.lemma_filter_pred(f, k);
    }
}

/// Deletes the custom provider `id`; bundled providers are always kept.
pub fn delete_custom_provider(providers: &mut Vec<DnsProvider>, id: &str)
    ensures
        provider_views(final(providers)@) == spec_delete_custom(provider_views(old(providers)@), id@),
{
    let ghost ps = provider_views(providers@);
    let mut kept: Vec<DnsProvider> = Vec::new();
    let mut i: usize = 0;
    while i < providers.len()
        invariant
            i <= providers@.len(),
            ps == provider_views(providers@),
            provider_views(kept@) == spec_delete_custom(ps.take(i as int), id@),
        decreases providers.len() - i,
    {
        let ghost before = kept@;
        assert(ps.take(i + 1).drop_last() == ps.take(i as int));
        assert(ps.take(i + 1).last() == providers@[i as int]@);
        reveal_with_fuel(Seq::filter, 1);
        if !providers[i].custom || !str_eq(providers[i].id.as_str(), id) {
            let copy = providers[i].duplicate();
            kept.push(copy);
            assert(provider_views(kept@) =~= provider_views(before).push(providers@[i as int]@));
        }
        i = i + 1;
    }
    assert(ps.take(providers@.len() as int) == ps);
    *providers = kept;
}

/// The abstract value of a [`ProviderForm`].
pub struct FormView {
    pub id: Seq<char>,
    pub name: Seq<char>,
    pub ipv4_primary: Seq<char>,
    pub ipv4_secondary: Seq<char>,
    pub ipv6_primary: Seq<char>,
    pub ipv6_secondary: Seq<char>,
    pub summary: Seq<char>,
    pub purpose: Seq<char>,
}

/// The fields of the custom-provider form.
#[derive(Clone, Debug)]
pub struct ProviderForm {
    pub id: String,
    pub name: String,
    pub ipv4_primary: String,
    pub ipv4_secondary: String,
    pub ipv6_primary: String,
    pub ipv6_secondary: String,
    pub summary: String,
    pub purpose: String,
}

impl View for ProviderForm {
    type V = FormView;

    open spec fn view(&self) -> FormView {
        FormView {
            id: self.id@,
            name: self.name@,
            ipv4_primary: self.ipv4_primary@,
            ipv4_secondary: self.ipv4_secondary@,
            ipv6_primary: self.ipv6_primary@,
            ipv6_secondary: self.ipv6_secondary@,
            summary: self.summary@,
            purpose: self.purpose@,
        }
    }
}

/// The empty form: every field blank, purpose `general`.
pub fn empty_form() -> (r: ProviderForm)
    ensures
        r@ == (FormView {
            id: Seq::empty(),
            name: Seq::empty(),
            ipv4_primary: Seq::empty(),
            ipv4_secondary: Seq::empty(),
            ipv6_primary: Seq::empty(),
            ipv6_secondary: Seq::empty(),
            summary: Seq::empty(),
            purpose: "general"@,
        }),
{
    ProviderForm {
        id: String::new(),
        name: String::new(),
        ipv4_primary: String::new(),
        ipv4_secondary: String::new(),
        ipv6_primary: String::new(),
        ipv6_secondary: String::new(),
        summary: String::new(),
        purpose: owned("general"),
    }
}

/// The form loaded to edit a provider: its fields, its English summary, and
/// its purpose (`general` when it has none).
pub open spec fn spec_edit_form(p: ProviderView) -> FormView {
    FormView {
        id: p.id,
        name: p.name,
        ipv4_primary: p.ipv4_primary,
        ipv4_secondary: p.ipv4_secondary,
        ipv6_primary: p.ipv6_primary,
        ipv6_secondary: p.ipv6_secondary,
        summary: p.summary_en,
        purpose: if p.purpose.len() == 0 {
            "general"@
        } else {
            p.purpose
        },
    }
}

/// The form for editing the custom provider `id`; bundled providers cannot
/// be edited, so they give `None`.
pub fn edit_form(providers: &[DnsProvider], id: &str) -> (r: Option<ProviderForm>)
    ensures
        match find_custom(provider_views(providers@), id@) {
            Some(k) => r matches Some(f) && f@ == spec_edit_form(provider_views(providers@)[k]),
            None => r is None,
        },
{
    match find_custom_index(providers, id) {
        None => None,
        Some(k) => {
            let p = &providers[k];
            assert(provider_views(providers@)[k as int] == p@);
            Some(
                ProviderForm {
                    id: p.id.clone(),
                    name: p.name.clone(),
                    ipv4_primary: p.ipv4_primary.clone(),
                    ipv4_secondary: p.ipv4_secondary.clone(),
                    ipv6_primary: p.ipv6_primary.clone(),
                    ipv6_secondary: p.ipv6_secondary.clone(),
                    summary: p.summary_en.clone(),
                    purpose: if p.purpose.as_str().is_empty() {
                        owned("general")
                    } else {
                        p.purpose.clone()
                    },
                },
            )
        },
    }
}

/// Only custom providers can be loaded into the edit form.
pub proof fn lemma_edit_only_custom(ps: Seq<ProviderView>, id: Seq<char>)
    ensures
        find_custom(ps, id) matches Some(k) ==> ps[k].custom && ps[k].id == id,
{
    lemma_find_custom_from(ps, id, 0);
}

// ---------------------------------------------------------------------
// Resolver test
// ---------------------------------------------------------------------

/// The address a resolver test probes: the trimmed primary IPv4 address, or
/// the trimmed primary IPv6 address when that is blank; an error when both
/// are blank or the address is no IP address.
pub open spec fn spec_resolver_test_address(ipv4: Seq<char>, ipv6: Seq<char>, language: Seq<char>) -> Result<
    Seq<char>,
    Seq<char>,
> {
    let address = if trim(ipv4).len() != 0 {
        trim(ipv4)
    } else {
        trim(ipv6)
    };
    if address.len() == 0 {
        Err(
            if is_indonesian(language) {
                "Masukkan alamat DNS utama sebelum melakukan pengujian."@
            } else {
                "Enter a primary DNS address before testing."@
            },
        )
    } else if spec_ip_family(address) is None {
        Err(
            if is_indonesian(language) {
                "Alamat DNS tidak valid."@
            } else {
                "The DNS address is invalid."@
            },
        )
    } else {
        Ok(address)
    }
}

/// The address a resolver test probes, or the message shown instead.
pub fn resolver_test_address(ipv4: &str, ipv6: &str, language: &str) -> (r: Result<String, String>)
    ensures
        crate::system::text_result_view(r) == spec_resolver_test_address(ipv4@, ipv6@, language@),
{
    let v4 = trim_str(ipv4);
    let address = if !v4.as_str().is_empty() {
        v4
    } else {
        trim_str(ipv6)
    };
    if address.as_str().is_empty() {
        return Err(
            if indonesian(language) {
                owned("Masukkan alamat DNS utama sebelum melakukan pengujian.")
            } else {
                owned("Enter a primary DNS address before testing.")
            },
        );
    }
    if ip_family(address.as_str()).is_none() {
        return Err(
            if indonesian(language) {
                owned("Alamat DNS tidak valid.")
            } else {
                owned("The DNS address is invalid.")
            },
        );
    }
    Ok(address)
}

/// The resolver test prefers the primary IPv4 address: when the trimmed
/// IPv4 field is an IP address it is probed, whatever the IPv6 field holds;
/// when the IPv4 field is blank the result depends on the IPv6 field alone,
/// and a valid trimmed IPv6 field is probed; a probed address is always
/// trimmed, non-empty and an IP address.
pub proof fn lemma_resolver_test_prefers_ipv4(
    ipv4: Seq<char>,
    ipv6: Seq<char>,
    other_ipv6: Seq<char>,
    language: Seq<char>,
)
    ensures
        trim(ipv4).len() > 0 && spec_ip_family(trim(ipv4)) is Some ==> spec_resolver_test_address(
            ipv4,
            ipv6,
            language,
        ) == Ok::<Seq<char>, Seq<char>>(trim(ipv4)),
        trim(ipv4).len() > 0 ==> spec_resolver_test_address(ipv4, ipv6, language)
            == spec_resolver_test_address(ipv4, other_ipv6, language),
        trim(ipv4).len() == 0 && trim(ipv6).len() > 0 && spec_ip_family(trim(ipv6)) is Some
            ==> spec_resolver_test_address(ipv4, ipv6, language) == Ok::<Seq<char>, Seq<char>>(
            trim(ipv6),
        ),
        spec_resolver_test_address(ipv4, ipv6, language) matches Ok(a) ==> a.len() > 0
            && spec_ip_family(a) is Some && (a == trim(ipv4) || (trim(ipv4).len() == 0 && a == trim(
            ipv6,
        ))),
{
}

// ---------------------------------------------------------------------
// Profile choice
// ---------------------------------------------------------------------

/// The abstract value of a [`ProfileRow`].
pub struct ProfileRowView {
    pub id: Seq<char>,
    pub name: Seq<char>,
    pub description: Seq<char>,
    pub tag: Seq<char>,
    pub ipv4: Seq<char>,
    pub ipv6: Seq<char>,
    pub doh_template: Seq<char>,
}

/// One entry of the profile chooser, in the interface language.
#[derive(Clone, Debug)]
pub struct ProfileRow {
    pub id: String,
    pub name: String,
    pub description: String,
    pub tag: String,
    pub ipv4: String,
    pub ipv6: String,
    pub doh_template: String,
}

impl View for ProfileRow {
    type V = ProfileRowView;

    open spec fn view(&self) -> ProfileRowView {
        ProfileRowView {
            id: self.id@,
            name: self.name@,
            description: self.description@,
            tag: self.tag@,
            ipv4: self.ipv4@,
            ipv6: self.ipv6@,
            doh_template: self.doh_template@,
        }
    }
}

/// The chooser entry of a profile of the provider `provider_id`.
pub open spec fn spec_profile_row(provider_id: Seq<char>, p: ProfileView, language: Seq<char>) -> ProfileRowView {
    let ind = is_indonesian(language);
    ProfileRowView {
        id: p.id,
        name: if ind { p.name_id } else { p.name_en },
        description: if ind { p.description_id } else { p.description_en },
        tag: if ind { p.tag_id } else { p.tag_en },
        ipv4: spec_format_pair(p.ipv4_primary, p.ipv4_secondary),
        ipv6: spec_format_pair(p.ipv6_primary, p.ipv6_secondary),
        doh_template: spec_doh_template(provider_id, p.id),
    }
}

/// The chooser entries of all profiles of a provider, in order.
pub open spec fn spec_profile_rows(p: ProviderView, language: Seq<char>) -> Seq<ProfileRowView> {
    spec_get_profiles(p).map_values(|q: ProfileView| spec_profile_row(p.id, q, language))
}

/// The abstract values of chooser entries.
pub open spec fn profile_row_views(v: Seq<ProfileRow>) -> Seq<ProfileRowView> {
    v.map_values(|r: ProfileRow| r@)
}

/// The chooser entries of a provider's profiles.
pub fn profile_rows(provider: &DnsProvider, language: &str) -> (r: Vec<ProfileRow>)
    ensures
        profile_row_views(r@) == spec_profile_rows(provider@, language@),
{
    let profiles = provider.get_profiles();
    let ghost ps = spec_get_profiles(provider@);
    let ind = indonesian(language);
    let mut rows: Vec<ProfileRow> = Vec::new();
    let mut i: usize = 0;
    while i < profiles.len()
        invariant
            i <= profiles@.len(),
            profile_views(profiles@) == ps,
            ps == spec_get_profiles(provider@),
            ind == is_indonesian(language@),
            profile_row_views(rows@) == ps.take(i as int).map_values(
                |q: ProfileView| spec_profile_row(provider@.id, q, language@),
            ),
        decreases profiles.len() - i,
    {
        let ghost before = rows@;
        let p = &profiles[i];
        assert(ps[i as int] == p@);
        let row = ProfileRow {
            id: p.id.clone(),
            name: if ind {
                p.name_id.clone()
            } else {
                p.name_en.clone()
            },
            description: if ind {
                p.description_id.clone()
            } else {
                p.description_en.clone()
            },
            tag: if ind {
                p.tag_id.clone()
            } else {
                p.tag_en.clone()
            },
            ipv4: format_pair(p.ipv4_primary.as_str(), p.ipv4_secondary.as_str()),
            ipv6: format_pair(p.ipv6_primary.as_str(), p.ipv6_secondary.as_str()),
            doh_template: doh_template(provider.id.as_str(), p.id.as_str()),
        };
        rows.push(row);
        assert(profile_row_views(rows@) =~= profile_row_views(before).push(
            spec_profile_row(provider@.id, ps[i as int], language@),
        ));
        assert(ps.take(i + 1) == ps.take(i as int).push(ps[i as int]));
        assert(ps.take(i + 1).map_values(|q: ProfileView| spec_profile_row(provider@.id, q, language@))
            =~= ps.take(i as int).map_values(
            |q: ProfileView| spec_profile_row(provider@.id, q, language@),
        ).push(spec_profile_row(provider@.id, ps[i as int], language@)));
        i = i + 1;
    }
    assert(ps.take(profiles@.len() as int) == ps);
    rows
}

/// Every text of a chooser entry follows the interface language: entry `i`
/// shows the Indonesian name, description and tag of profile `i` when the
/// interface is Indonesian and the English ones otherwise, with that
/// profile's identifier and addresses; there is one entry per profile.
pub proof fn lemma_profile_rows_follow_language(p: ProviderView, language: Seq<char>, i: int)
    requires
        0 <= i < spec_get_profiles(p).len(),
    ensures
        spec_profile_rows(p, language).len() == spec_get_profiles(p).len(),
        ({
            let row = spec_profile_rows(p, language)[i];
            let q = spec_get_profiles(p)[i];
            &&& row.id == q.id
            &&& language == "id"@ ==> row.name == q.name_id && row.description == q.description_id
                && row.tag == q.tag_id
            &&& language != "id"@ ==> row.name == q.name_en && row.description == q.description_en
                && row.tag == q.tag_en
            &&& row.ipv4 == spec_format_pair(q.ipv4_primary, q.ipv4_secondary)
            &&& row.ipv6 == spec_format_pair(q.ipv6_primary, q.ipv6_secondary)
        }),
{
}

/// Whether encrypted DNS starts selected in the chooser: when the first
/// profile has a template; for the provider already in use, only if the
/// chosen adapter already uses encrypted DNS.
pub open spec fn spec_encrypted_preselected(
    p: ProviderView,
    active_provider_id: Seq<char>,
    adapters: Seq<AdapterView>,
    adapter_index: i32,
) -> bool {
    let available = spec_doh_template(p.id, spec_get_profiles(p)[0].id).len() > 0;
    let adapter_encrypted = match adapter_at(adapters, adapter_index) {
        Some(a) => a.dns_encrypted,
        None => false,
    };
    if active_provider_id == p.id {
        available && adapter_encrypted
    } else {
        available
    }
}

/// Whether encrypted DNS starts selected in the chooser.
pub fn encrypted_preselected(
    provider: &DnsProvider,
    active_provider_id: &str,
    adapters: &[AdapterInfo],
    adapter_index: i32,
) -> (r: bool)
    ensures
        r == spec_encrypted_preselected(
            provider@,
            active_provider_id@,
            adapter_views(adapters@),
            adapter_index,
        ),
{
    let profiles = provider.get_profiles();
    proof {
        crate::models::lemma_profiles_nonempty(provider@);
    }
    let first = &profiles[0];
    assert(first@ == spec_get_profiles(provider@)[0]);
    let template = doh_template(provider.id.as_str(), first.id.as_str());
    let available = !template.as_str().is_empty();
    let adapter_encrypted = match adapter_position(adapters, adapter_index) {
        Some(a) => {
            assert(adapter_views(adapters@)[a as int] == adapters@[a as int]@);
            adapters[a].dns_encrypted
        },
        None => false,
    };
    if str_eq(active_provider_id, provider.id.as_str()) {
        available && adapter_encrypted
    } else {
        available
    }
}

// ---------------------------------------------------------------------
// Start-up and refresh
// ---------------------------------------------------------------------

/// The providers the application works with: the bundled catalogue followed
/// by the stored custom providers.
pub fn initial_providers(stored_custom: Vec<DnsProvider>) -> (r: Vec<DnsProvider>)
    ensures
        provider_views(r@) == crate::models::spec_default_providers() + provider_views(
            stored_custom@,
        ),
{
    let mut r = crate::models::default_providers();
    let ghost start = r@;
    let mut extra = stored_custom;
    r.append(&mut extra);
    assert(provider_views(r@) =~= provider_views(start) + provider_views(stored_custom@));
    r
}

/// The DNS servers an adapter is configured with: none when its DNS is
/// DHCP-assigned, else the servers Windows reports.
pub open spec fn spec_configured_dns(a: AdapterView) -> Seq<char> {
    if a.dns_automatic {
        Seq::empty()
    } else {
        a.dns
    }
}

/// The DNS servers an adapter is configured with.
pub fn configured_dns(adapter: &AdapterInfo) -> (r: String)
    ensures
        r@ == spec_configured_dns(adapter@),
{
    if adapter.dns_automatic {
        String::new()
    } else {
        adapter.dns.clone()
    }
}

/// The adapter shown after a refresh: the one at the chosen position, or
/// else the first one.
pub open spec fn spec_refresh_selection(count: nat, index: i32) -> Option<int> {
    if clamped_index(index) < count {
        Some(clamped_index(index))
    } else if count > 0 {
        Some(0)
    } else {
        None
    }
}

/// The position of the adapter shown after a refresh.
pub fn refresh_selection(adapters: &[AdapterInfo], index: i32) -> (r: Option<usize>)
    ensures
        match r {
            Some(k) => spec_refresh_selection(adapters@.len(), index) == Some(k as int),
            None => spec_refresh_selection(adapters@.len(), index) is None,
        },
{
    match adapter_position(adapters, index) {
        Some(k) => Some(k),
        None => if adapters.len() > 0 {
            Some(0)
        } else {
            None
        },
    }
}

// ---------------------------------------------------------------------
// Traffic counters
// ---------------------------------------------------------------------

/// The bytes received and sent since the previous sample: only when that
/// sample was of the same interface and neither counter went backwards (a
/// reset or another adapter gives no delta).
pub open spec fn spec_counter_delta(
    previous: Option<(u32, u64, u64)>,
    interface_index: u32,
    received: u64,
    sent: u64,
) -> Option<(u64, u64)> {
    match previous {
        Some((index, old_received, old_sent)) => if index == interface_index && received
            >= old_received && sent >= old_sent {
            Some(((received - old_received) as u64, (sent - old_sent) as u64))
        } else {
            None
        },
        None => None,
    }
}

/// The bytes received and sent since the previous sample, if comparable.
pub fn counter_delta(
    previous: Option<(u32, u64, u64)>,
    interface_index: u32,
    received: u64,
    sent: u64,
) -> (r: Option<(u64, u64)>)
    ensures
        r == spec_counter_delta(previous, interface_index, received, sent),
{
    match previous {
        Some((index, old_received, old_sent)) => {
            if index == interface_index && received >= old_received && sent >= old_sent {
                Some((received - old_received, sent - old_sent))
            } else {
                None
            }
        },
        None => None,
    }
}

/// The traffic sampling clock, ticking once a second: with `ticks` ticks
/// counted since the last sample and a sampling interval of `interval_secs`
/// seconds (at least one), whether this tick takes a sample, and the count
/// kept for the next tick.
pub open spec fn spec_sampling_tick(ticks: u32, interval_secs: u32) -> (bool, u32) {
    let interval = if interval_secs < 1 {
        1
    } else {
        interval_secs
    };
    if ticks + 1 < interval {
        (false, (ticks + 1) as u32)
    } else {
        (true, 0)
    }
}

/// One tick of the traffic sampling clock.
pub fn sampling_tick(ticks: u32, interval_secs: u32) -> (r: (bool, u32))
    requires
        ticks < u32::MAX,
    ensures
        r == spec_sampling_tick(ticks, interval_secs),
{
    let interval = if interval_secs < 1 {
        1
    } else {
        interval_secs
    };
    let elapsed = ticks + 1;
    if elapsed < interval {
        (false, elapsed)
    } else {
        (true, 0)
    }
}

/// The sampling clock samples once every interval: from a fresh count, the
/// ticks before the interval is reached take no sample and count up, and the
/// tick that reaches it samples and starts over; the count stays below the
/// interval.
pub proof fn lemma_sampling_every_interval(ticks: u32, interval_secs: u32)
    requires
        interval_secs >= 1,
        ticks < interval_secs,
    ensures
        spec_sampling_tick(ticks, interval_secs).1 < interval_secs,
        spec_sampling_tick(ticks, interval_secs).0 <==> ticks + 1 == interval_secs,
        !spec_sampling_tick(ticks, interval_secs).0 ==> spec_sampling_tick(ticks, interval_secs).1
            == ticks + 1,
        spec_sampling_tick(ticks, interval_secs).0 ==> spec_sampling_tick(ticks, interval_secs).1
            == 0,
{
}

// ---------------------------------------------------------------------
// Laws
// ---------------------------------------------------------------------

/// A planned DNS change never applies an empty address list, and encrypted
/// DNS is only planned with a non-blank template.
pub proof fn lemma_profile_plan_well_formed(
    providers: Seq<ProviderView>,
    id: Seq<char>,
    profile_index: i32,
    adapters: Seq<AdapterView>,
    adapter_index: i32,
    mode: i32,
    encrypted: bool,
    template: Seq<char>,
    language: Seq<char>,
)
    ensures
        spec_plan_profile_apply(
            providers,
            id,
            profile_index,
            adapters,
            adapter_index,
            mode,
            encrypted,
            template,
            language,
        ) matches Ok(plan) ==> plan.addresses.len() > 0 && plan.provider_id == id && (
        plan.doh_template matches Some(t) ==> trim(t).len() > 0),
{
    lemma_find_provider_from(providers, id, 0);
}

/// The same holds of a provider applied without a profile: the addresses
/// are never empty and no encrypted DNS is planned.
pub proof fn lemma_provider_plan_well_formed(
    providers: Seq<ProviderView>,
    id: Seq<char>,
    adapters: Seq<AdapterView>,
    adapter_index: i32,
    mode: i32,
)
    ensures
        spec_plan_provider_apply(providers, id, adapters, adapter_index, mode) matches Ok(plan)
            ==> plan.addresses.len() > 0 && plan.provider_id == id && plan.doh_template is None,
{
    lemma_find_provider_from(providers, id, 0);
}

} // verus!
