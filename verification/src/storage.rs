//! The persisted settings: their defaults, the normalization of stored or
//! chosen values, and the snapshot that is written after each change.
use crate::models::{provider_views, DnsProvider, ProviderView};
use crate::text::{owned, str_eq};
use vstd::prelude::*;

verus! {

/// The abstract value of [`Settings`].
pub struct SettingsView {
    pub language: Seq<char>,
    pub theme: Seq<char>,
    pub speed_unit: Seq<char>,
    pub network_interval_secs: u32,
    pub tray_show_speed: bool,
    pub tray_show_dns: bool,
    pub tray_show_status: bool,
    pub tray_show_latency: bool,
    pub custom_providers: Seq<ProviderView>,
}

/// The user's preferences and custom providers, as stored on the device.
#[derive(Clone, Debug)]
pub struct Settings {
    pub language: String,
    pub theme: String,
    pub speed_unit: String,
    pub network_interval_secs: u32,
    pub tray_show_speed: bool,
    pub tray_show_dns: bool,
    pub tray_show_status: bool,
    pub tray_show_latency: bool,
    pub custom_providers: Vec<DnsProvider>,
}

impl View for Settings {
    type V = SettingsView;

    open spec fn view(&self) -> SettingsView {
        SettingsView {
            language: self.language@,
            theme: self.theme@,
            speed_unit: self.speed_unit@,
            network_interval_secs: self.network_interval_secs,
            tray_show_speed: self.tray_show_speed,
            tray_show_dns: self.tray_show_dns,
            tray_show_status: self.tray_show_status,
            tray_show_latency: self.tray_show_latency,
            custom_providers: provider_views(self.custom_providers@),
        }
    }
}

/// The settings of a fresh installation: English, the system theme, Kbps,
/// sampling every second, every tray detail shown, no custom provider.
pub open spec fn default_settings() -> SettingsView {
    SettingsView {
        language: "en"@,
        theme: "system"@,
        speed_unit: "kbps"@,
        network_interval_secs: 1,
        tray_show_speed: true,
        tray_show_dns: true,
        tray_show_status: true,
        tray_show_latency: true,
        custom_providers: Seq::empty(),
    }
}

/// The default interface language.
pub fn default_language() -> (r: String)
    ensures
        r@ == "en"@,
{
    owned("en")
}

/// The default appearance: follow the Windows theme.
pub fn default_theme() -> (r: String)
    ensures
        r@ == "system"@,
{
    owned("system")
}

/// The default unit of the traffic display.
pub fn default_speed_unit() -> (r: String)
    ensures
        r@ == "kbps"@,
{
    owned("kbps")
}

/// Tray details are shown unless turned off.
pub fn default_enabled() -> (r: bool)
    ensures
        r,
{
    true
}

/// The default traffic sampling interval, in seconds.
pub fn default_network_interval() -> (r: u32)
    ensures
        r == 1,
{
    1
}

impl Default for Settings {
    fn default() -> (r: Settings)
        ensures
            r@ == default_settings(),
    {
        let r = Settings {
            language: default_language(),
            theme: default_theme(),
            speed_unit: default_speed_unit(),
            network_interval_secs: default_network_interval(),
            tray_show_speed: true,
            tray_show_dns: true,
            tray_show_status: true,
            tray_show_latency: true,
            custom_providers: Vec::new(),
        };
        assert(r@.custom_providers =~= Seq::<ProviderView>::empty());
        r
    }
}

// ---------------------------------------------------------------------
// Normalization
// ---------------------------------------------------------------------

/// A supported language: Indonesian stays, everything else becomes English.
pub open spec fn normalized_language(language: Seq<char>) -> Seq<char> {
    if language == "id"@ {
        "id"@
    } else {
        "en"@
    }
}

/// A supported appearance: `light` and `dark` stay, everything else follows
/// the system.
pub open spec fn normalized_theme(theme: Seq<char>) -> Seq<char> {
    if theme == "light"@ {
        "light"@
    } else if theme == "dark"@ {
        "dark"@
    } else {
        "system"@
    }
}

/// A supported speed unit: `mbps` stays, everything else becomes `kbps`.
pub open spec fn normalized_speed_unit(unit: Seq<char>) -> Seq<char> {
    if unit == "mbps"@ {
        "mbps"@
    } else {
        "kbps"@
    }
}

/// A supported sampling interval: 2 or 5 seconds stay, everything else
/// becomes 1 second.
pub open spec fn normalized_interval(seconds: int) -> u32 {
    if seconds == 2 {
        2
    } else if seconds == 5 {
        5
    } else {
        1
    }
}

/// The language to use for a stored or chosen value.
pub fn normalize_language(language: &str) -> (r: String)
    ensures
        r@ == normalized_language(language@),
{
    if str_eq(language, "id") {
        owned("id")
    } else {
        owned("en")
    }
}

/// The appearance to use for a stored or chosen value.
pub fn normalize_theme(theme: &str) -> (r: String)
    ensures
        r@ == normalized_theme(theme@),
{
    if str_eq(theme, "light") {
        owned("light")
    } else if str_eq(theme, "dark") {
        owned("dark")
    } else {
        owned("system")
    }
}

/// The speed unit to use for a stored or chosen value.
pub fn normalize_speed_unit(unit: &str) -> (r: String)
    ensures
        r@ == normalized_speed_unit(unit@),
{
    if str_eq(unit, "mbps") {
        owned("mbps")
    } else {
        owned("kbps")
    }
}

/// The sampling interval to use for a stored or chosen value.
pub fn normalize_interval(seconds: i64) -> (r: u32)
    ensures
        r == normalized_interval(seconds as int),
{
    if seconds == 2 {
        2
    } else if seconds == 5 {
        5
    } else {
        1
    }
}

/// Loaded settings with every preference brought to a supported value.
pub open spec fn spec_normalize_settings(s: SettingsView) -> SettingsView {
    SettingsView {
        language: normalized_language(s.language),
        theme: normalized_theme(s.theme),
        speed_unit: normalized_speed_unit(s.speed_unit),
        network_interval_secs: normalized_interval(s.network_interval_secs as int),
        ..s
    }
}

/// Loaded settings with every preference brought to a supported value;
/// unknown languages become English, unknown themes follow the system,
/// unknown units become Kbps and unknown intervals one second.
pub fn normalize_settings(settings: Settings) -> (r: Settings)
    ensures
        r@ == spec_normalize_settings(settings@),
{
    Settings {
        language: normalize_language(settings.language.as_str()),
        theme: normalize_theme(settings.theme.as_str()),
        speed_unit: normalize_speed_unit(settings.speed_unit.as_str()),
        network_interval_secs: normalize_interval(settings.network_interval_secs as i64),
        tray_show_speed: settings.tray_show_speed,
        tray_show_dns: settings.tray_show_dns,
        tray_show_status: settings.tray_show_status,
        tray_show_latency: settings.tray_show_latency,
        custom_providers: settings.custom_providers,
    }
}

/// Normalizing twice changes nothing more than normalizing once, and the
/// result holds only supported values.
pub proof fn lemma_normalize_settings(s: SettingsView)
    ensures
        spec_normalize_settings(spec_normalize_settings(s)) == spec_normalize_settings(s),
        spec_normalize_settings(s).language == "en"@ || spec_normalize_settings(s).language
            == "id"@,
        spec_normalize_settings(s).theme == "system"@ || spec_normalize_settings(s).theme
            == "light"@ || spec_normalize_settings(s).theme == "dark"@,
        spec_normalize_settings(s).speed_unit == "kbps"@ || spec_normalize_settings(s).speed_unit
            == "mbps"@,
        spec_normalize_settings(s).network_interval_secs == 1 || spec_normalize_settings(
            s,
        ).network_interval_secs == 2 || spec_normalize_settings(s).network_interval_secs == 5,
{
    reveal_strlit("en");
    reveal_strlit("id");
    reveal_strlit("light");
    reveal_strlit("dark");
    reveal_strlit("system");
    reveal_strlit("mbps");
    reveal_strlit("kbps");
}

// ---------------------------------------------------------------------
// Snapshot
// ---------------------------------------------------------------------

/// The tray and sampling preferences held while the application runs.
/// Normalization only brings the language, theme, unit and interval to
/// supported values: supported values are kept as they are, and every tray
/// display preference and every custom provider is kept.
pub proof fn lemma_normalize_keeps_preferences(s: SettingsView)
    ensures
        spec_normalize_settings(s).tray_show_speed == s.tray_show_speed,
        spec_normalize_settings(s).tray_show_dns == s.tray_show_dns,
        spec_normalize_settings(s).tray_show_status == s.tray_show_status,
        spec_normalize_settings(s).tray_show_latency == s.tray_show_latency,
        spec_normalize_settings(s).custom_providers == s.custom_providers,
        (s.language == "en"@ || s.language == "id"@) ==> spec_normalize_settings(s).language
            == s.language,
        (s.theme == "system"@ || s.theme == "light"@ || s.theme == "dark"@)
            ==> spec_normalize_settings(s).theme == s.theme,
        (s.speed_unit == "kbps"@ || s.speed_unit == "mbps"@) ==> spec_normalize_settings(
            s,
        ).speed_unit == s.speed_unit,
        (s.network_interval_secs == 1 || s.network_interval_secs == 2 || s.network_interval_secs
            == 5) ==> spec_normalize_settings(s).network_interval_secs == s.network_interval_secs,
{
    reveal_strlit("en");
    reveal_strlit("id");
    reveal_strlit("light");
    reveal_strlit("dark");
    reveal_strlit("system");
    reveal_strlit("mbps");
    reveal_strlit("kbps");
}

#[derive(Clone, Copy, Debug)]
pub struct TrayPreferences {
    pub network_interval_secs: u32,
    pub show_speed: bool,
    pub show_dns: bool,
    pub show_status: bool,
    pub show_latency: bool,
}

/// The custom providers among `ps`, in order.
pub open spec fn custom_only(ps: Seq<ProviderView>) -> Seq<ProviderView> {
    ps.filter(|p: ProviderView| p.custom)
}

/// The settings to store for the current preferences: the given values and
/// the custom providers among `providers` (bundled ones are never stored).
pub open spec fn spec_settings_snapshot(
    language: Seq<char>,
    theme: Seq<char>,
    speed_unit: Seq<char>,
    providers: Seq<ProviderView>,
    tray: TrayPreferences,
) -> SettingsView {
    SettingsView {
        language,
        theme,
        speed_unit,
        network_interval_secs: tray.network_interval_secs,
        tray_show_speed: tray.show_speed,
        tray_show_dns: tray.show_dns,
        tray_show_status: tray.show_status,
        tray_show_latency: tray.show_latency,
        custom_providers: custom_only(providers),
    }
}

/// The custom providers among `providers`.
pub fn custom_providers_of(providers: &[DnsProvider]) -> (r: Vec<DnsProvider>)
    ensures
        provider_views(r@) == custom_only(provider_views(providers@)),
{
    let ghost ps = provider_views(providers@);
    let mut r: Vec<DnsProvider> = Vec::new();
    let mut i: usize = 0;
    while i < providers.len()
        invariant
            i <= providers@.len(),
            ps == provider_views(providers@),
            provider_views(r@) == custom_only(ps.take(i as int)),
        decreases providers.len() - i,
    {
        let ghost before = r@;
        assert(ps.take(i + 1).drop_last() == ps.take(i as int));
        assert(ps.take(i + 1).last() == providers@[i as int]@);
        reveal_with_fuel(Seq::filter, 1);
        if providers[i].custom {
            let copy = providers[i].duplicate();
            r.push(copy);
            assert(provider_views(r@) =~= provider_views(before).push(providers@[i as int]@));
        }
        i = i + 1;
    }
    assert(ps.take(providers@.len() as int) == ps);
    r
}

/// The settings to store for the current preferences and providers.
pub fn settings_snapshot(
    language: &str,
    theme: &str,
    speed_unit: &str,
    providers: &[DnsProvider],
    tray: TrayPreferences,
) -> (r: Settings)
    ensures
        r@ == spec_settings_snapshot(language@, theme@, speed_unit@, provider_views(providers@), tray),
{
    Settings {
        language: owned(language),
        theme: owned(theme),
        speed_unit: owned(speed_unit),
        network_interval_secs: tray.network_interval_secs,
        tray_show_speed: tray.show_speed,
        tray_show_dns: tray.show_dns,
        tray_show_status: tray.show_status,
        tray_show_latency: tray.show_latency,
        custom_providers: custom_providers_of(providers),
    }
}

/// A stored snapshot holds only custom providers, and every custom provider.
pub proof fn lemma_snapshot_keeps_custom_only(
    language: Seq<char>,
    theme: Seq<char>,
    speed_unit: Seq<char>,
    providers: Seq<ProviderView>,
    tray: TrayPreferences,
)
    ensures
        forall|k: int|
            0 <= k < spec_settings_snapshot(language, theme, speed_unit, providers, tray).custom_providers.len()
                ==> (#[trigger] spec_settings_snapshot(language, theme, speed_unit, providers, tray).custom_providers[k]).custom,
        forall|k: int|
            0 <= k < providers.len() && (#[trigger] providers[k]).custom ==> spec_settings_snapshot(
                language,
                theme,
                speed_unit,
                providers,
                tray,
            ).custom_providers.contains(providers[k]),
{
    let f = |p: ProviderView| p.custom;
    let snapshot = spec_settings_snapshot(language, theme, speed_unit, providers, tray);
    assert forall|k: int|
        0 <= k < snapshot.custom_providers.len() implies (#[trigger] snapshot.custom_providers[k]).custom by {
        providers.lemma_filter_pred(f, k);
    }
    assert forall|k: int| 0 <= k < providers.len() && (#[trigger] providers[k]).custom implies snapshot.custom_providers.contains(providers[k]) by {
        providers.lemma_filter_contains(f, k);
    }
}

} // verus!
