//! The decisions around the Windows DNS operations: the PowerShell scripts
//! that apply or reset DNS (with single-quote escaping), the elevated-helper
//! request, the parsing of the adapter listing, the theme query and the
//! choice of the resolver to probe.
use crate::encoding::{
    base64_decode, base64_encode, spec_base64_decode, spec_base64_encode, utf8_string,
};
use crate::net::{ip_family, spec_ip_family};
use crate::text::{
    chars_of, concat, join, join_strings, owned, parse_u32, parse_u32_chars, replace,
    replace_str, split, split_chars, str_contains, str_eq, string_of, trim, trim_chars, contains,
};
use vstd::prelude::*;
use vstd::utf8::{decode_utf8, encode_utf8, valid_utf8};

verus! {

// ---------------------------------------------------------------------
// PowerShell quoting
// ---------------------------------------------------------------------

/// `s` made safe for a single-quoted PowerShell string: every `'` doubled.
pub open spec fn ps_quote(s: Seq<char>) -> Seq<char> {
    replace(s, "'"@, "''"@)
}

/// The characters of `s` with every `'` written twice.
pub open spec fn doubled_quotes(s: Seq<char>) -> Seq<char>
    decreases s.len(),
{
    if s.len() == 0 {
        Seq::empty()
    } else if s[0] == '\'' {
        seq!['\'', '\''] + doubled_quotes(s.drop_first())
    } else {
        seq![s[0]] + doubled_quotes(s.drop_first())
    }
}

/// What PowerShell reads as the content of a single-quoted string whose body
/// is `t`: `''` stands for one quote, and a lone quote would end the string
/// early (`None`).
pub open spec fn ps_literal_content(t: Seq<char>) -> Option<Seq<char>>
    decreases t.len(),
{
    if t.len() == 0 {
        Some(Seq::empty())
    } else if t[0] == '\'' {
        if t.len() >= 2 && t[1] == '\'' {
            match ps_literal_content(t.subrange(2, t.len() as int)) {
                Some(rest) => Some(seq!['\''] + rest),
                None => None,
            }
        } else {
            None
        }
    } else {
        match ps_literal_content(t.drop_first()) {
            Some(rest) => Some(seq![t[0]] + rest),
            None => None,
        }
    }
}

proof fn lemma_replace_quote_acc(s: Seq<char>, acc: Seq<char>)
    ensures
        replace_acc_quote(s, acc) == acc + doubled_quotes(s),
    decreases s.len(),
{
    reveal_strlit("'");
    reveal_strlit("''");
    if s.len() == 0 {
        assert(acc + Seq::<char>::empty() == acc);
    } else {
        assert(crate::text::occurs_at(s, "'"@, 0) <==> s[0] == '\'') by {
            if s[0] == '\'' {
                assert(s.subrange(0, 1) =~= "'"@);
            } else {
                assert(s.subrange(0, 1)[0] != "'"@[0]);
            }
        }
        if s[0] == '\'' {
            assert(s.subrange(1, s.len() as int) == s.drop_first());
            lemma_replace_quote_acc(s.drop_first(), acc + "''"@);
            assert(acc + "''"@ + doubled_quotes(s.drop_first()) == acc + doubled_quotes(s));
        } else {
            lemma_replace_quote_acc(s.drop_first(), acc.push(s[0]));
            assert(acc.push(s[0]) + doubled_quotes(s.drop_first()) == acc + doubled_quotes(s));
        }
    }
}

/// The quoting replacement, with its accumulated output.
pub open spec fn replace_acc_quote(s: Seq<char>, acc: Seq<char>) -> Seq<char> {
    crate::text::replace_acc(s, "'"@, "''"@, acc)
}

/// Quoting doubles every single quote.
pub proof fn lemma_ps_quote_doubles(s: Seq<char>)
    ensures
        ps_quote(s) == doubled_quotes(s),
{
    lemma_replace_quote_acc(s, Seq::empty());
    assert(Seq::<char>::empty() + doubled_quotes(s) == doubled_quotes(s));
}

proof fn lemma_doubled_quotes_read(s: Seq<char>)
    ensures
        ps_literal_content(doubled_quotes(s)) == Some(s),
    decreases s.len(),
{
    if s.len() > 0 {
        lemma_doubled_quotes_read(s.drop_first());
        let t = doubled_quotes(s);
        let rest = doubled_quotes(s.drop_first());
        if s[0] == '\'' {
            assert(t.subrange(2, t.len() as int) == rest);
        } else {
            assert(t.drop_first() == rest);
        }
        assert(seq![s[0]] + s.drop_first() == s);
    }
}

/// Escaping is safe: PowerShell reads a quoted value back as exactly the
/// original text, so no value can end its string literal early.
pub proof fn lemma_ps_quote_round_trip(s: Seq<char>)
    ensures
        ps_literal_content(ps_quote(s)) == Some(s),
{
    lemma_ps_quote_doubles(s);
    lemma_doubled_quotes_read(s);
}

/// `s` with every single quote doubled.
pub fn quote_ps(s: &str) -> (r: String)
    ensures
        r@ == ps_quote(s@),
{
    replace_str(s, "'", "''")
}

// ---------------------------------------------------------------------
// DNS scripts
// ---------------------------------------------------------------------

/// The per-address encrypted-DNS registration, with `__ADDRESS__` and
/// `__TEMPLATE__` to fill in.
pub const DOH_SERVER_TEMPLATE: &'static str = "$existing = Get-DnsClientDohServerAddress -ServerAddress '__ADDRESS__' -ErrorAction SilentlyContinue; if ($null -ne $existing) { Set-DnsClientDohServerAddress -ServerAddress '__ADDRESS__' -DohTemplate '__TEMPLATE__' -AllowFallbackToUdp $False -AutoUpgrade $True -ErrorAction Stop } else { Add-DnsClientDohServerAddress -ServerAddress '__ADDRESS__' -DohTemplate '__TEMPLATE__' -AllowFallbackToUdp $False -AutoUpgrade $True -ErrorAction Stop }; $configured = Get-DnsClientDohServerAddress -ServerAddress '__ADDRESS__' -ErrorAction Stop; if (-not $configured.AutoUpgrade -or $configured.AllowFallbackToUdp) { throw 'Windows did not enable encrypted DNS for __ADDRESS__.' }";

/// The per-interface encrypted-DNS registry entry, with `__FAMILY__`,
/// `__ADDRESS__` and `__TEMPLATE__` to fill in.
pub const DOH_INTERFACE_TEMPLATE: &'static str = "$dohKey = $dohRoot + '\\__FAMILY__\\__ADDRESS__'; New-Item -Path $dohKey -Force -ErrorAction Stop | Out-Null; New-ItemProperty -Path $dohKey -Name 'DohFlags' -PropertyType QWord -Value 17 -Force -ErrorAction Stop | Out-Null; New-ItemProperty -Path $dohKey -Name 'DohTemplate' -PropertyType String -Value '__TEMPLATE__' -Force -ErrorAction Stop | Out-Null; $saved = Get-ItemProperty -LiteralPath $dohKey -ErrorAction Stop; if ([uint64]$saved.DohFlags -ne 17 -or $saved.DohTemplate -ne '__TEMPLATE__') { throw 'Windows did not save encrypted DNS for __ADDRESS__.' }";

/// Removes the interface's previous encrypted-DNS entries.
pub const DOH_CLEAR: &'static str = "Remove-Item -LiteralPath ($dohRoot + '\\Doh') -Recurse -Force -ErrorAction SilentlyContinue; Remove-Item -LiteralPath ($dohRoot + '\\Doh6') -Recurse -Force -ErrorAction SilentlyContinue";

/// The step that stands where no encrypted DNS is registered.
pub const NO_DOH_SETUP: &'static str = "Write-Output '' | Out-Null";

/// The parts of the apply script around the adapter name and addresses.
pub const APPLY_PART_1: &'static str = "; Set-DnsClientServerAddress -InterfaceAlias '";
pub const APPLY_PART_2: &'static str = "' -ServerAddresses (";
pub const APPLY_PART_3: &'static str = ") -ErrorAction Stop; $guid = (Get-NetAdapter -Name '";
pub const APPLY_PART_4: &'static str = "' -ErrorAction Stop).InterfaceGuid; if ([string]::IsNullOrWhiteSpace([string]$guid)) { throw 'Could not resolve the network interface identifier.' }; $dohRoot = 'HKLM:\\SYSTEM\\CurrentControlSet\\Services\\Dnscache\\InterfaceSpecificParameters\\' + $guid + '\\DohInterfaceSettings'; New-Item -Path $dohRoot -Force -ErrorAction Stop | Out-Null; ";
pub const APPLY_PART_5: &'static str = "; Clear-DnsClientCache -ErrorAction SilentlyContinue";

/// The reset script, with `__ADAPTER__` to fill in.
pub const RESET_TEMPLATE: &'static str = "Set-DnsClientServerAddress -InterfaceAlias '__ADAPTER__' -ResetServerAddresses -ErrorAction Stop; $guid = (Get-NetAdapter -Name '__ADAPTER__' -ErrorAction Stop).InterfaceGuid; $dohRoot = 'HKLM:\\SYSTEM\\CurrentControlSet\\Services\\Dnscache\\InterfaceSpecificParameters\\' + $guid + '\\DohInterfaceSettings'; Remove-Item -LiteralPath $dohRoot -Recurse -Force -ErrorAction SilentlyContinue; Clear-DnsClientCache -ErrorAction SilentlyContinue";

/// An address as a quoted PowerShell string.
pub open spec fn quoted_address(a: Seq<char>) -> Seq<char> {
    "'"@ + ps_quote(a) + "'"@
}

/// The encrypted-DNS registration of one address.
pub open spec fn doh_server_step(address: Seq<char>, quoted_template: Seq<char>) -> Seq<char> {
    replace(
        replace(DOH_SERVER_TEMPLATE@, "__ADDRESS__"@, ps_quote(address)),
        "__TEMPLATE__"@,
        quoted_template,
    )
}

/// The registry entry of one address of the given family.
pub open spec fn doh_interface_step(address: Seq<char>, ipv6: bool, quoted_template: Seq<char>) -> Seq<
    char,
> {
    replace(
        replace(
            replace(DOH_INTERFACE_TEMPLATE@, "__FAMILY__"@, if ipv6 { "Doh6"@ } else { "Doh"@ }),
            "__ADDRESS__"@,
            ps_quote(address),
        ),
        "__TEMPLATE__"@,
        quoted_template,
    )
}

/// The registry entries of the addresses that parse as IP addresses, in order.
pub open spec fn doh_interface_steps(addresses: Seq<Seq<char>>, quoted_template: Seq<char>) -> Seq<
    Seq<char>,
>
    decreases addresses.len(),
{
    if addresses.len() == 0 {
        Seq::empty()
    } else {
        let before = doh_interface_steps(addresses.drop_last(), quoted_template);
        match spec_ip_family(addresses.last()) {
            None => before,
            Some(ipv6) => before.push(doh_interface_step(addresses.last(), ipv6, quoted_template)),
        }
    }
}

/// The PowerShell script that sets `addresses` as the DNS servers of the
/// adapter and registers (or, without a template, clears) encrypted DNS for
/// them; every value is quoted with [`ps_quote`].
pub open spec fn spec_apply_script(
    adapter: Seq<char>,
    addresses: Seq<Seq<char>>,
    doh_template: Option<Seq<char>>,
) -> Seq<char> {
    let setup = match doh_template {
        Some(t) => join(addresses.map_values(|a: Seq<char>| doh_server_step(a, ps_quote(t))), "; "@),
        None => NO_DOH_SETUP@,
    };
    let interface = match doh_template {
        Some(t) => DOH_CLEAR@ + "; "@ + join(doh_interface_steps(addresses, ps_quote(t)), "; "@),
        None => DOH_CLEAR@,
    };
    setup + APPLY_PART_1@ + ps_quote(adapter) + APPLY_PART_2@ + join(
        addresses.map_values(|a: Seq<char>| quoted_address(a)),
        ","@,
    ) + APPLY_PART_3@ + ps_quote(adapter) + APPLY_PART_4@ + interface + APPLY_PART_5@
}

/// The PowerShell script that returns the adapter to DHCP-assigned DNS and
/// removes its encrypted-DNS entries.
pub open spec fn spec_reset_script(adapter: Seq<char>) -> Seq<char> {
    replace(RESET_TEMPLATE@, "__ADAPTER__"@, ps_quote(adapter))
}

/// The abstract values of a list of strings.
pub open spec fn string_views(v: Seq<String>) -> Seq<Seq<char>> {
    v.map_values(|s: String| s@)
}

/// The reset script for `adapter`.
pub fn reset_script(adapter: &str) -> (r: String)
    ensures
        r@ == spec_reset_script(adapter@),
{
    let quoted = quote_ps(adapter);
    replace_str(RESET_TEMPLATE, "__ADAPTER__", quoted.as_str())
}

/// The abstract value of an optional text.
pub open spec fn opt_str_view(o: Option<&str>) -> Option<Seq<char>> {
    match o {
        Some(t) => Some(t@),
        None => None,
    }
}

/// The quoted forms of `addresses`.
fn quoted_addresses(addresses: &[String]) -> (r: Vec<String>)
    ensures
        string_views(r@) == string_views(addresses@).map_values(|a: Seq<char>| quoted_address(a)),
{
    let ghost views = string_views(addresses@);
    let mut r: Vec<String> = Vec::new();
    let mut i: usize = 0;
    while i < addresses.len()
        invariant
            i <= addresses@.len(),
            views == string_views(addresses@),
            string_views(r@) == views.take(i as int).map_values(|a: Seq<char>| quoted_address(a)),
        decreases addresses.len() - i,
    {
        let ghost before = r@;
        let q = quote_ps(addresses[i].as_str());
        let head = concat("'", q.as_str());
        let item = concat(head.as_str(), "'");
        assert(views[i as int] == addresses@[i as int]@);
        assert(item@ == quoted_address(views[i as int]));
        r.push(item);
        assert(string_views(r@) =~= string_views(before).push(item@));
        assert(views.take(i + 1) == views.take(i as int).push(views[i as int]));
        assert(views.take(i + 1).map_values(|a: Seq<char>| quoted_address(a)) =~= views.take(
            i as int,
        ).map_values(|a: Seq<char>| quoted_address(a)).push(quoted_address(views[i as int])));
        i = i + 1;
    }
    assert(views.take(addresses@.len() as int) == views);
    r
}

/// The encrypted-DNS registrations of `addresses`.
fn doh_server_steps(addresses: &[String], quoted_template: &str) -> (r: Vec<String>)
    ensures
        string_views(r@) == string_views(addresses@).map_values(
            |a: Seq<char>| doh_server_step(a, quoted_template@),
        ),
{
    let ghost views = string_views(addresses@);
    let mut r: Vec<String> = Vec::new();
    let mut i: usize = 0;
    while i < addresses.len()
        invariant
            i <= addresses@.len(),
            views == string_views(addresses@),
            string_views(r@) == views.take(i as int).map_values(
                |a: Seq<char>| doh_server_step(a, quoted_template@),
            ),
        decreases addresses.len() - i,
    {
        let ghost before = r@;
        let q = quote_ps(addresses[i].as_str());
        let with_address = replace_str(DOH_SERVER_TEMPLATE, "__ADDRESS__", q.as_str());
        let item = replace_str(with_address.as_str(), "__TEMPLATE__", quoted_template);
        assert(views[i as int] == addresses@[i as int]@);
        assert(item@ == doh_server_step(views[i as int], quoted_template@));
        r.push(item);
        assert(string_views(r@) =~= string_views(before).push(item@));
        assert(views.take(i + 1) == views.take(i as int).push(views[i as int]));
        assert(views.take(i + 1).map_values(|a: Seq<char>| doh_server_step(a, quoted_template@))
            =~= views.take(i as int).map_values(
            |a: Seq<char>| doh_server_step(a, quoted_template@),
        ).push(doh_server_step(views[i as int], quoted_template@)));
        i = i + 1;
    }
    assert(views.take(addresses@.len() as int) == views);
    r
}

/// The registry entries of the addresses that parse as IP addresses.
fn doh_interface_step_list(addresses: &[String], quoted_template: &str) -> (r: Vec<String>)
    ensures
        string_views(r@) == doh_interface_steps(string_views(addresses@), quoted_template@),
{
    let ghost views = string_views(addresses@);
    let mut r: Vec<String> = Vec::new();
    let mut i: usize = 0;
    while i < addresses.len()
        invariant
            i <= addresses@.len(),
            views == string_views(addresses@),
            string_views(r@) == doh_interface_steps(views.take(i as int), quoted_template@),
        decreases addresses.len() - i,
    {
        let ghost before = r@;
        let a = addresses[i].as_str();
        assert(views.take(i + 1).drop_last() == views.take(i as int));
        assert(views.take(i + 1).last() == a@);
        match ip_family(a) {
            None => {},
            Some(ipv6) => {
                let family = if ipv6 {
                    "Doh6"
                } else {
                    "Doh"
                };
                let q = quote_ps(a);
                let step1 = replace_str(DOH_INTERFACE_TEMPLATE, "__FAMILY__", family);
                let step2 = replace_str(step1.as_str(), "__ADDRESS__", q.as_str());
                let item = replace_str(step2.as_str(), "__TEMPLATE__", quoted_template);
                r.push(item);
                assert(string_views(r@) =~= string_views(before).push(item@));
            },
        }
        i = i + 1;
    }
    assert(views.take(addresses@.len() as int) == views);
    r
}

/// The script that sets `addresses` as the adapter's DNS servers, registering
/// encrypted DNS with `doh_template` when one is given.
pub fn apply_script(adapter: &str, addresses: &[String], doh_template: Option<&str>) -> (r: String)
    ensures
        r@ == spec_apply_script(adapter@, string_views(addresses@), opt_str_view(doh_template)),
{
    let adapter_q = quote_ps(adapter);
    let quoted = quoted_addresses(addresses);
    let quoted_list = join_strings(quoted.as_slice(), ",");
    let (setup, interface) = match doh_template {
        Some(t) => {
            let tq = quote_ps(t);
            let steps = doh_server_steps(addresses, tq.as_str());
            let setup = join_strings(steps.as_slice(), "; ");
            let entries = doh_interface_step_list(addresses, tq.as_str());
            let joined = join_strings(entries.as_slice(), "; ");
            let head = concat(DOH_CLEAR, "; ");
            (setup, concat(head.as_str(), joined.as_str()))
        },
        None => (owned(NO_DOH_SETUP), owned(DOH_CLEAR)),
    };
    let mut r = setup;
    r.append(APPLY_PART_1);
    r.append(adapter_q.as_str());
    r.append(APPLY_PART_2);
    r.append(quoted_list.as_str());
    r.append(APPLY_PART_3);
    r.append(adapter_q.as_str());
    r.append(APPLY_PART_4);
    r.append(interface.as_str());
    r.append(APPLY_PART_5);
    r
}

// ---------------------------------------------------------------------
// DNS operations
// ---------------------------------------------------------------------

/// The abstract value of an [`ElevatedDnsOperation`].
pub enum OperationView {
    Apply { adapter: Seq<char>, addresses: Seq<Seq<char>>, doh_template: Option<Seq<char>> },
    Reset { adapter: Seq<char> },
}

/// A DNS change that the elevated helper process carries out.
#[derive(Clone, Debug)]
pub enum ElevatedDnsOperation {
    /// Set the given servers on the adapter, with encrypted DNS when a
    /// template is given.
    Apply { adapter: String, addresses: Vec<String>, doh_template: Option<String> },
    /// Return the adapter to DHCP-assigned DNS.
    Reset { adapter: String },
}

/// The abstract value of an optional string.
pub open spec fn opt_string_view(o: Option<String>) -> Option<Seq<char>> {
    match o {
        Some(t) => Some(t@),
        None => None,
    }
}

impl View for ElevatedDnsOperation {
    type V = OperationView;

    open spec fn view(&self) -> OperationView {
        match self {
            ElevatedDnsOperation::Apply { adapter, addresses, doh_template } => OperationView::Apply {
                adapter: adapter@,
                addresses: string_views(addresses@),
                doh_template: opt_string_view(*doh_template),
            },
            ElevatedDnsOperation::Reset { adapter } => OperationView::Reset { adapter: adapter@ },
        }
    }
}

/// A copy of a list of strings.
pub fn duplicate_strings(v: &[String]) -> (r: Vec<String>)
    ensures
        r@ == v@,
{
    let mut r: Vec<String> = Vec::new();
    let mut i: usize = 0;
    while i < v.len()
        invariant
            i <= v@.len(),
            r@ == v@.take(i as int),
        decreases v.len() - i,
    {
        r.push(v[i].clone());
        i = i + 1;
        assert(r@ == v@.take(i as int));
    }
    assert(v@.take(v@.len() as int) == v@);
    r
}

/// The operation that applies `addresses` to the adapter; refused when no
/// address is given.
pub open spec fn spec_apply_dns(
    adapter: Seq<char>,
    addresses: Seq<Seq<char>>,
    doh_template: Option<Seq<char>>,
) -> Result<OperationView, Seq<char>> {
    if addresses.len() == 0 {
        Err("No DNS address was selected."@)
    } else {
        Ok(OperationView::Apply { adapter, addresses, doh_template })
    }
}

/// The abstract value of an operation result.
pub open spec fn operation_result_view(r: Result<ElevatedDnsOperation, String>) -> Result<
    OperationView,
    Seq<char>,
> {
    match r {
        Ok(op) => Ok(op@),
        Err(e) => Err(e@),
    }
}

/// The operation that sets `addresses` as the adapter's DNS servers, for the
/// elevated helper to run; an error when no address was selected.
pub fn apply_dns(adapter: &str, addresses: &[String], doh_template: Option<&str>) -> (r: Result<
    ElevatedDnsOperation,
    String,
>)
    ensures
        operation_result_view(r) == spec_apply_dns(
            adapter@,
            string_views(addresses@),
            opt_str_view(doh_template),
        ),
{
    if addresses.len() == 0 {
        return Err(owned("No DNS address was selected."));
    }
    let template = match doh_template {
        Some(t) => Some(owned(t)),
        None => None,
    };
    Ok(ElevatedDnsOperation::Apply {
        adapter: owned(adapter),
        addresses: duplicate_strings(addresses),
        doh_template: template,
    })
}

/// The operation that returns the adapter to DHCP-assigned DNS.
pub fn reset_dns(adapter: &str) -> (r: ElevatedDnsOperation)
    ensures
        r@ == (OperationView::Reset { adapter: adapter@ }),
{
    ElevatedDnsOperation::Reset { adapter: owned(adapter) }
}

/// The script the helper runs for an operation.
pub open spec fn spec_operation_script(op: OperationView) -> Seq<char> {
    match op {
        OperationView::Apply { adapter, addresses, doh_template } => spec_apply_script(
            adapter,
            addresses,
            doh_template,
        ),
        OperationView::Reset { adapter } => spec_reset_script(adapter),
    }
}

/// The PowerShell script for an operation.
pub fn operation_script(op: &ElevatedDnsOperation) -> (r: String)
    ensures
        r@ == spec_operation_script(op@),
{
    match op {
        ElevatedDnsOperation::Apply { adapter, addresses, doh_template } => {
            let template = match doh_template {
                Some(t) => Some(t.as_str()),
                None => None,
            };
            apply_script(adapter.as_str(), addresses.as_slice(), template)
        },
        ElevatedDnsOperation::Reset { adapter } => reset_script(adapter.as_str()),
    }
}

// ---------------------------------------------------------------------
// Network adapters
// ---------------------------------------------------------------------

/// The abstract value of an [`AdapterInfo`].
pub struct AdapterView {
    pub name: Seq<char>,
    pub label: Seq<char>,
    pub dns: Seq<char>,
    pub interface_index: u32,
    pub dns_automatic: bool,
    pub dns_encrypted: bool,
}

/// An active network adapter: its name, the label shown for it, the DNS
/// servers Windows reports, its interface index, and whether its DNS is
/// DHCP-assigned and encrypted.
#[derive(Clone, Debug)]
pub struct AdapterInfo {
    pub name: String,
    pub label: String,
    pub dns: String,
    pub interface_index: u32,
    pub dns_automatic: bool,
    pub dns_encrypted: bool,
}

impl View for AdapterInfo {
    type V = AdapterView;

    open spec fn view(&self) -> AdapterView {
        AdapterView {
            name: self.name@,
            label: self.label@,
            dns: self.dns@,
            interface_index: self.interface_index,
            dns_automatic: self.dns_automatic,
            dns_encrypted: self.dns_encrypted,
        }
    }
}

impl Default for AdapterInfo {
    fn default() -> (r: AdapterInfo)
        ensures
            r@ == (AdapterView {
                name: Seq::empty(),
                label: Seq::empty(),
                dns: Seq::empty(),
                interface_index: 0,
                dns_automatic: false,
                dns_encrypted: false,
            }),
    {
        AdapterInfo {
            name: String::new(),
            label: String::new(),
            dns: String::new(),
            interface_index: 0,
            dns_automatic: false,
            dns_encrypted: false,
        }
    }
}

/// One line of the adapter listing: tab-separated name, label, DNS servers,
/// interface index, and `1` flags for automatic and encrypted DNS. A line
/// with fewer than four fields or an unreadable index is skipped.
pub open spec fn parse_adapter_line(line: Seq<char>) -> Option<AdapterView> {
    let f = split(line, seq!['\t']);
    if f.len() >= 4 && parse_u32(f[3]) is Some {
        Some(
            AdapterView {
                name: f[0],
                label: f[1],
                dns: f[2],
                interface_index: parse_u32(f[3])->0,
                dns_automatic: f.len() > 4 && f[4] == seq!['1'],
                dns_encrypted: f.len() > 5 && f[5] == seq!['1'],
            },
        )
    } else {
        None
    }
}

/// The adapters described by the readable lines among `ls`, in order.
pub open spec fn parsed_adapters(ls: Seq<Seq<char>>) -> Seq<AdapterView>
    decreases ls.len(),
{
    if ls.len() == 0 {
        Seq::empty()
    } else {
        let before = parsed_adapters(ls.drop_last());
        match parse_adapter_line(ls.last()) {
            Some(a) => before.push(a),
            None => before,
        }
    }
}

/// The adapters of the listing the PowerShell query printed, or an error
/// when it describes none.
pub open spec fn spec_active_adapters(output: Seq<char>) -> Result<Seq<AdapterView>, Seq<char>> {
    let found = parsed_adapters(crate::text::lines(output));
    if found.len() == 0 {
        Err("No active network adapter was found."@)
    } else {
        Ok(found)
    }
}

/// The abstract values of a list of adapters.
pub open spec fn adapter_views(v: Seq<AdapterInfo>) -> Seq<AdapterView> {
    v.map_values(|a: AdapterInfo| a@)
}

/// The adapter a listing line describes.
fn parse_adapter_line_exec(line: &[char]) -> (r: Option<AdapterInfo>)
    ensures
        match r {
            Some(a) => parse_adapter_line(line@) == Some(a@),
            None => parse_adapter_line(line@) is None,
        },
{
    let mut tab: Vec<char> = Vec::new();
    tab.push('\t');
    assert(tab@ =~= seq!['\t']);
    let f = split_chars(line, tab.as_slice());
    let ghost fs = split(line@, seq!['\t']);
    if f.len() < 4 {
        return None;
    }
    let index = match parse_u32_chars(f[3].as_slice()) {
        Some(v) => v,
        None => {
            return None;
        },
    };
    let mut one: Vec<char> = Vec::new();
    one.push('1');
    assert(one@ =~= seq!['1']);
    let automatic = f.len() > 4 && crate::text::chars_eq(f[4].as_slice(), one.as_slice());
    let encrypted = f.len() > 5 && crate::text::chars_eq(f[5].as_slice(), one.as_slice());
    assert(f@[0]@ == fs[0] && f@[1]@ == fs[1] && f@[2]@ == fs[2] && f@[3]@ == fs[3]);
    assert(f@.len() > 4 ==> f@[4]@ == fs[4]);
    assert(f@.len() > 5 ==> f@[5]@ == fs[5]);
    Some(
        AdapterInfo {
            name: string_of(f[0].as_slice()),
            label: string_of(f[1].as_slice()),
            dns: string_of(f[2].as_slice()),
            interface_index: index,
            dns_automatic: automatic,
            dns_encrypted: encrypted,
        },
    )
}

/// The abstract value of an adapter listing result.
pub open spec fn adapters_result_view(r: Result<Vec<AdapterInfo>, String>) -> Result<
    Seq<AdapterView>,
    Seq<char>,
> {
    match r {
        Ok(v) => Ok(adapter_views(v@)),
        Err(e) => Err(e@),
    }
}

/// The active adapters described by the output of the PowerShell adapter
/// query, in the order it lists them; an error when it lists none.
pub fn active_adapters(output: &str) -> (r: Result<Vec<AdapterInfo>, String>)
    ensures
        adapters_result_view(r) == spec_active_adapters(output@),
{
    let chars = chars_of(output);
    let ls = crate::text::lines_chars(chars.as_slice());
    let ghost lv = crate::text::lines(output@);
    let mut found: Vec<AdapterInfo> = Vec::new();
    let mut i: usize = 0;
    while i < ls.len()
        invariant
            i <= ls@.len(),
            ls@.len() == lv.len(),
            lv == crate::text::lines(output@),
            forall|k: int| 0 <= k < ls@.len() ==> #[trigger] ls@[k]@ == lv[k],
            adapter_views(found@) == parsed_adapters(lv.take(i as int)),
        decreases ls.len() - i,
    {
        let ghost before = found@;
        assert(lv.take(i + 1).drop_last() == lv.take(i as int));
        assert(lv.take(i + 1).last() == ls@[i as int]@);
        match parse_adapter_line_exec(ls[i].as_slice()) {
            Some(a) => {
                found.push(a);
                assert(adapter_views(found@) =~= adapter_views(before).push(a@));
            },
            None => {},
        }
        i = i + 1;
    }
    assert(lv.take(ls@.len() as int) == lv);
    if found.len() == 0 {
        Err(owned("No active network adapter was found."))
    } else {
        Ok(found)
    }
}

/// The placeholder adapter reported where adapters cannot be listed.
pub fn placeholder_adapter() -> (r: AdapterInfo)
    ensures
        r@ == (AdapterView {
            name: "Default network"@,
            label: "Default network"@,
            dns: "System managed"@,
            interface_index: 0,
            dns_automatic: true,
            dns_encrypted: false,
        }),
{
    AdapterInfo {
        name: owned("Default network"),
        label: owned("Default network"),
        dns: owned("System managed"),
        interface_index: 0,
        dns_automatic: true,
        dns_encrypted: false,
    }
}

/// The interface whose byte counters are read; an error when no adapter is
/// selected (index 0).
pub fn counters_interface(interface_index: u32) -> (r: Result<u32, String>)
    ensures
        interface_index == 0 ==> (r matches Err(e) && e@ == "No network adapter was selected."@),
        interface_index != 0 ==> r == Ok::<u32, String>(interface_index),
{
    if interface_index == 0 {
        Err(owned("No network adapter was selected."))
    } else {
        Ok(interface_index)
    }
}

// ---------------------------------------------------------------------
// Theme, PowerShell errors
// ---------------------------------------------------------------------

/// Windows prefers dark applications: the registry query succeeded and its
/// output shows `AppsUseLightTheme` as `0x0`.
pub open spec fn spec_prefers_dark_mode(query_output: Option<Seq<char>>) -> bool {
    match query_output {
        Some(out) => contains(out, "0x0"@),
        None => false,
    }
}

/// Whether Windows prefers dark applications, given the output of the
/// successful registry query (`None` when it failed or could not run).
pub fn prefers_dark_mode(query_output: Option<&str>) -> (r: bool)
    ensures
        r == spec_prefers_dark_mode(opt_str_view(query_output)),
{
    match query_output {
        Some(out) => str_contains(out, "0x0"),
        None => false,
    }
}

/// The message of a failed PowerShell run: the first line of its trimmed
/// error output, or a generic message when there is none.
pub open spec fn spec_powershell_failure(stderr: Seq<char>) -> Seq<char> {
    let message = trim(stderr);
    if message.len() == 0 || crate::text::lines(message).len() == 0 {
        "The PowerShell operation failed."@
    } else {
        crate::text::lines(message)[0]
    }
}

/// The message shown for a failed PowerShell run.
pub fn powershell_failure_message(stderr: &str) -> (r: String)
    ensures
        r@ == spec_powershell_failure(stderr@),
{
    let cs = chars_of(stderr);
    let message = trim_chars(cs.as_slice());
    if message.len() == 0 {
        return owned("The PowerShell operation failed.");
    }
    let ls = crate::text::lines_chars(message.as_slice());
    if ls.len() == 0 {
        return owned("The PowerShell operation failed.");
    }
    string_of(ls[0].as_slice())
}

// ---------------------------------------------------------------------
// Elevated helper
// ---------------------------------------------------------------------

/// The command-line switch that starts the elevated helper.
pub const HELPER_SWITCH: &'static str = "--dns-helper";

/// The helper's command-line parameters: the switch, the Base64 of the
/// serialized operation, and the Base64 of the UTF-8 result-file path.
pub open spec fn spec_helper_parameters(operation_json: Seq<u8>, result_path: Seq<char>) -> Seq<
    char,
> {
    HELPER_SWITCH@ + " "@ + spec_base64_encode(operation_json) + " "@ + spec_base64_encode(
        encode_utf8(result_path),
    )
}

/// The parameters the elevated helper is started with. The length bounds
/// hold of every value Rust can allocate.
pub fn helper_parameters(operation_json: &[u8], result_path: &str) -> (r: String)
    requires
        operation_json@.len() <= usize::MAX / 2,
        encode_utf8(result_path@).len() <= usize::MAX / 2,
    ensures
        r@ == spec_helper_parameters(operation_json@, result_path@),
{
    let payload = base64_encode(operation_json);
    let path = base64_encode(result_path.as_bytes());
    let mut r = owned(HELPER_SWITCH);
    r.append(" ");
    r.append(payload.as_str());
    r.append(" ");
    r.append(path.as_str());
    r
}

/// What the helper was asked to do: the encoded operation, and the path of
/// the file for its error message (when it decodes).
pub struct HelperRequest {
    pub payload: Option<String>,
    pub result_path: Option<String>,
}

/// The result-file path decoded from its command-line form.
pub open spec fn decoded_result_path(text: Seq<char>) -> Option<Seq<char>> {
    match spec_base64_decode(text) {
        Some(b) => if valid_utf8(b) {
            Some(decode_utf8(b))
        } else {
            None
        },
        None => None,
    }
}

/// Whether the process was started as the elevated helper (its first
/// argument after the executable is the helper switch), and with what.
pub fn run_dns_helper_if_requested(args: &[String]) -> (r: Option<HelperRequest>)
    ensures
        r is Some <==> (args@.len() >= 2 && args@[1]@ == HELPER_SWITCH@),
        r matches Some(req) ==> {
            &&& opt_string_view(req.payload) == (if args@.len() >= 3 {
                Some(args@[2]@)
            } else {
                None
            })
            &&& opt_string_view(req.result_path) == (if args@.len() >= 4 {
                decoded_result_path(args@[3]@)
            } else {
                None
            })
            &&& forall|p: Seq<char>|
                args@.len() >= 4 && #[trigger] spec_base64_encode(encode_utf8(p)) == args@[3]@
                    ==> opt_string_view(req.result_path) == Some(p)
        },
{
    if args.len() < 2 || !str_eq(args[1].as_str(), HELPER_SWITCH) {
        return None;
    }
    let payload = if args.len() >= 3 {
        Some(args[2].clone())
    } else {
        None
    };
    let result_path = if args.len() >= 4 {
        match base64_decode(args[3].as_str()) {
            Ok(bytes) => {
                let ghost b = bytes@;
                let decoded = utf8_string(bytes);
                proof {
                    assert forall|p: Seq<char>| #[trigger]
                        spec_base64_encode(encode_utf8(p)) == args@[3]@ implies opt_string_view(
                        decoded,
                    ) == Some(p) by {
                        assert(b == encode_utf8(p));
                        vstd::utf8::encode_utf8_valid_utf8(p);
                        vstd::utf8::encode_utf8_decode_utf8(p);
                    }
                }
                decoded
            },
            Err(_) => None,
        }
    } else {
        None
    };
    Some(HelperRequest { payload, result_path })
}

/// The serialized operation the helper decodes from its payload argument.
pub open spec fn spec_decode_helper_payload(payload: Option<Seq<char>>) -> Result<Seq<u8>, Seq<char>> {
    match payload {
        None => Err("The DNS helper request is incomplete."@),
        Some(t) => match spec_base64_decode(t) {
            None => Err("The DNS helper request is invalid."@),
            Some(b) => Ok(b),
        },
    }
}

/// The abstract value of a byte result.
pub open spec fn bytes_result_view(r: Result<Vec<u8>, String>) -> Result<Seq<u8>, Seq<char>> {
    match r {
        Ok(b) => Ok(b@),
        Err(e) => Err(e@),
    }
}

/// The serialized operation carried by the helper's payload argument; the
/// helper gets back exactly the bytes the launcher encoded.
pub fn decode_helper_payload(payload: Option<&str>) -> (r: Result<Vec<u8>, String>)
    ensures
        bytes_result_view(r) == spec_decode_helper_payload(opt_str_view(payload)),
        forall|b: Seq<u8>|
            payload matches Some(t) && #[trigger] spec_base64_encode(b) == t@ ==> bytes_result_view(r)
                == Ok::<Seq<u8>, Seq<char>>(b),
{
    match payload {
        None => Err(owned("The DNS helper request is incomplete.")),
        Some(t) => match base64_decode(t) {
            Ok(bytes) => Ok(bytes),
            Err(_) => Err(owned("The DNS helper request is invalid.")),
        },
    }
}

/// The outcome of the elevated helper: success on exit code 0, otherwise
/// the message it left (trimmed), or a generic message when it left none.
pub open spec fn spec_helper_outcome(exit_code: u32, helper_message: Seq<char>) -> Result<(), Seq<char>> {
    if exit_code == 0 {
        Ok(())
    } else if trim(helper_message).len() == 0 {
        Err("The elevated DNS helper failed without an error message."@)
    } else {
        Err(trim(helper_message))
    }
}

/// The outcome of the elevated helper run.
pub fn helper_outcome(exit_code: u32, helper_message: &str) -> (r: Result<(), String>)
    ensures
        crate::models::unit_result_view(r) == spec_helper_outcome(exit_code, helper_message@),
{
    if exit_code == 0 {
        return Ok(());
    }
    let t = crate::text::trim_str(helper_message);
    if t.as_str().is_empty() {
        Err(owned("The elevated DNS helper failed without an error message."))
    } else {
        Err(t)
    }
}

/// The error code with which Windows reports a cancelled elevation prompt.
pub const ELEVATION_CANCELLED: u32 = 0x8007_04c7;

/// The message for a failed elevation request: a cancelled prompt means that
/// DNS was left unchanged; other failures name the system's error.
pub open spec fn spec_elevation_error(code: u32, error_text: Seq<char>) -> Seq<char> {
    if code == ELEVATION_CANCELLED {
        "Administrator permission was cancelled. DNS was not changed."@
    } else {
        "Could not request Administrator access: "@ + error_text
    }
}

/// The message for a failed elevation request.
pub fn elevation_error(code: u32, error_text: &str) -> (r: String)
    ensures
        r@ == spec_elevation_error(code, error_text@),
{
    if code == ELEVATION_CANCELLED {
        owned("Administrator permission was cancelled. DNS was not changed.")
    } else {
        concat("Could not request Administrator access: ", error_text)
    }
}

// ---------------------------------------------------------------------
// Resolver reachability
// ---------------------------------------------------------------------

/// The first listed address that is not blank and not the dash placeholder.
pub open spec fn first_listed_from(parts: Seq<Seq<char>>, i: int) -> Option<Seq<char>>
    decreases parts.len() - i,
{
    if i < 0 || i >= parts.len() {
        None
    } else if trim(parts[i]).len() != 0 && trim(parts[i]) != "\u{2014}"@ {
        Some(trim(parts[i]))
    } else {
        first_listed_from(parts, i + 1)
    }
}

/// The address a reachability check probes: the first address listed in
/// `target` (1.1.1.1 when none is), which must be an IP address.
pub open spec fn spec_connection_target(target: Seq<char>) -> Result<Seq<char>, Seq<char>> {
    let clean = match first_listed_from(split(target, crate::catalog::dns_separators()), 0) {
        Some(a) => a,
        None => "1.1.1.1"@,
    };
    if spec_ip_family(clean) is Some {
        Ok(clean)
    } else {
        Err("Could not check the resolver address '"@ + clean + "'."@)
    }
}

/// The abstract value of a text result.
pub open spec fn text_result_view(r: Result<String, String>) -> Result<Seq<char>, Seq<char>> {
    match r {
        Ok(t) => Ok(t@),
        Err(e) => Err(e@),
    }
}

/// The address to probe for the server list `target`, or the error shown
/// when it is no IP address.
pub fn connection_target(target: &str) -> (r: Result<String, String>)
    ensures
        text_result_view(r) == spec_connection_target(target@),
{
    let cs = chars_of(target);
    let seps = crate::catalog::dns_separator_chars();
    let parts = split_chars(cs.as_slice(), seps.as_slice());
    let ghost ps = split(target@, crate::catalog::dns_separators());
    let mut dash: Vec<char> = Vec::new();
    dash.push('\u{2014}');
    proof {
        reveal_strlit("\u{2014}");
    }
    assert(dash@ =~= "\u{2014}"@);
    let mut found: Option<Vec<char>> = None;
    let mut i: usize = 0;
    while i < parts.len() && found.is_none()
        invariant
            i <= parts@.len(),
            parts@.len() == ps.len(),
            ps == split(target@, crate::catalog::dns_separators()),
            forall|k: int| 0 <= k < parts@.len() ==> #[trigger] parts@[k]@ == ps[k],
            dash@ == "\u{2014}"@,
            found is None ==> first_listed_from(ps, 0) == first_listed_from(ps, i as int),
            found matches Some(f) ==> first_listed_from(ps, 0) == Some(f@),
        decreases parts.len() - i,
    {
        assert(parts@[i as int]@ == ps[i as int]);
        let t = trim_chars(parts[i].as_slice());
        if t.len() != 0 && !crate::text::chars_eq(t.as_slice(), dash.as_slice()) {
            assert(t@ == trim(ps[i as int]));
            assert(first_listed_from(ps, i as int) == Some(t@));
            found = Some(t);
        } else {
            assert(first_listed_from(ps, i as int) == first_listed_from(ps, i + 1));
        }
        i = i + 1;
    }
    assert(found is None ==> first_listed_from(ps, 0) is None);
    let clean = match found {
        Some(f) => string_of(f.as_slice()),
        None => owned("1.1.1.1"),
    };
    match ip_family(clean.as_str()) {
        Some(_) => Ok(clean),
        None => {
            let head = concat("Could not check the resolver address '", clean.as_str());
            Err(concat(head.as_str(), "'."))
        },
    }
}

/// The latency reported for a reachable resolver: the elapsed milliseconds,
/// at least 1.
pub fn reported_latency(elapsed_ms: u128) -> (r: u128)
    ensures
        r == if elapsed_ms < 1 {
            1
        } else {
            elapsed_ms
        },
{
    if elapsed_ms < 1 {
        1
    } else {
        elapsed_ms
    }
}

} // verus!
