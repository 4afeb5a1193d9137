use usedns::system::{
    active_adapters, apply_dns, apply_script, connection_target, counters_interface,
    decode_helper_payload, elevation_error, helper_outcome, helper_parameters, operation_script,
    placeholder_adapter, powershell_failure_message, prefers_dark_mode, quote_ps, reported_latency,
    reset_dns, reset_script, run_dns_helper_if_requested, ElevatedDnsOperation,
};

/// The registry family of the literal addresses these cases use: dotted
/// quads are IPv4, hexadecimal groups with colons IPv6, anything else none.
fn family_of(a: &str) -> Option<&'static str> {
    let quads: Vec<&str> = a.split('.').collect();
    if quads.len() == 4 && quads.iter().all(|q| q.parse::<u8>().is_ok()) {
        return Some("Doh");
    }
    if a.contains(':') && a.chars().all(|c| c == ':' || c.is_ascii_hexdigit()) {
        return Some("Doh6");
    }
    None
}

/// The script the helper is expected to run, written out independently.
fn expected_apply(adapter: &str, addresses: &[&str], template: Option<&str>) -> String {
    let q = |v: &str| v.replace('\'', "''");
    let quoted = addresses
        .iter()
        .map(|a| format!("'{}'", q(a)))
        .collect::<Vec<_>>()
        .join(",");
    let clear = "Remove-Item -LiteralPath ($dohRoot + '\\Doh') -Recurse -Force -ErrorAction SilentlyContinue; Remove-Item -LiteralPath ($dohRoot + '\\Doh6') -Recurse -Force -ErrorAction SilentlyContinue";
    let (setup, iface) = match template {
        Some(t) => {
            let t = q(t);
            let setup = addresses
                .iter()
                .map(|a| {
                    let a = q(a);
                    format!("$existing = Get-DnsClientDohServerAddress -ServerAddress '{a}' -ErrorAction SilentlyContinue; if ($null -ne $existing) {{ Set-DnsClientDohServerAddress -ServerAddress '{a}' -DohTemplate '{t}' -AllowFallbackToUdp $False -AutoUpgrade $True -ErrorAction Stop }} else {{ Add-DnsClientDohServerAddress -ServerAddress '{a}' -DohTemplate '{t}' -AllowFallbackToUdp $False -AutoUpgrade $True -ErrorAction Stop }}; $configured = Get-DnsClientDohServerAddress -ServerAddress '{a}' -ErrorAction Stop; if (-not $configured.AutoUpgrade -or $configured.AllowFallbackToUdp) {{ throw 'Windows did not enable encrypted DNS for {a}.' }}")
                })
                .collect::<Vec<_>>()
                .join("; ");
            let entries = addresses
                .iter()
                .filter_map(|a| {
                    let family = family_of(a)?;
                    let a = q(a);
                    Some(format!("$dohKey = $dohRoot + '\\{family}\\{a}'; New-Item -Path $dohKey -Force -ErrorAction Stop | Out-Null; New-ItemProperty -Path $dohKey -Name 'DohFlags' -PropertyType QWord -Value 17 -Force -ErrorAction Stop | Out-Null; New-ItemProperty -Path $dohKey -Name 'DohTemplate' -PropertyType String -Value '{t}' -Force -ErrorAction Stop | Out-Null; $saved = Get-ItemProperty -LiteralPath $dohKey -ErrorAction Stop; if ([uint64]$saved.DohFlags -ne 17 -or $saved.DohTemplate -ne '{t}') {{ throw 'Windows did not save encrypted DNS for {a}.' }}"))
                })
                .collect::<Vec<_>>()
                .join("; ");
            (setup, format!("{clear}; {entries}"))
        }
        None => ("Write-Output '' | Out-Null".to_string(), clear.to_string()),
    };
    let a = q(adapter);
    format!("{setup}; Set-DnsClientServerAddress -InterfaceAlias '{a}' -ServerAddresses ({quoted}) -ErrorAction Stop; $guid = (Get-NetAdapter -Name '{a}' -ErrorAction Stop).InterfaceGuid; if ([string]::IsNullOrWhiteSpace([string]$guid)) {{ throw 'Could not resolve the network interface identifier.' }}; $dohRoot = 'HKLM:\\SYSTEM\\CurrentControlSet\\Services\\Dnscache\\InterfaceSpecificParameters\\' + $guid + '\\DohInterfaceSettings'; New-Item -Path $dohRoot -Force -ErrorAction Stop | Out-Null; {iface}; Clear-DnsClientCache -ErrorAction SilentlyContinue")
}

fn strings(v: &[&str]) -> Vec<String> {
    v.iter().map(|s| s.to_string()).collect()
}

#[test]
fn quoting_doubles_single_quotes() {
    assert_eq!(quote_ps("Wi-Fi"), "Wi-Fi");
    assert_eq!(quote_ps("Bob's 'LAN'"), "Bob''s ''LAN''");
}

#[test]
fn apply_scripts() {
    for (adapter, addresses, template) in [
        ("Ethernet", vec!["1.1.1.1", "1.0.0.1"], None),
        ("Wi-Fi 'home'", vec!["1.1.1.2", "2606:4700:4700::1112"], Some("https://security.cloudflare-dns.com/dns-query")),
        ("x", vec!["not-an-ip", "9.9.9.9"], Some("it's")),
    ] {
        let got = apply_script(adapter, &strings(&addresses), template);
        assert_eq!(got, expected_apply(adapter, &addresses, template));
    }
}

#[test]
fn reset_scripts() {
    let got = reset_script("Bob's LAN");
    assert!(got.starts_with("Set-DnsClientServerAddress -InterfaceAlias 'Bob''s LAN' -ResetServerAddresses"));
    assert!(got.contains("(Get-NetAdapter -Name 'Bob''s LAN' -ErrorAction Stop)"));
    assert!(!got.contains("__ADAPTER__"));
    assert_eq!(operation_script(&reset_dns("Bob's LAN")), got);
}

#[test]
fn operations() {
    assert_eq!(
        apply_dns("Ethernet", &[], None).unwrap_err(),
        "No DNS address was selected."
    );
    let op = apply_dns("Ethernet", &strings(&["8.8.8.8"]), Some("https://dns.google/dns-query")).unwrap();
    match &op {
        ElevatedDnsOperation::Apply { adapter, addresses, doh_template } => {
            assert_eq!(adapter, "Ethernet");
            assert_eq!(addresses, &strings(&["8.8.8.8"]));
            assert_eq!(doh_template.as_deref(), Some("https://dns.google/dns-query"));
        }
        _ => panic!("expected an apply operation"),
    }
    assert_eq!(
        operation_script(&op),
        expected_apply("Ethernet", &["8.8.8.8"], Some("https://dns.google/dns-query"))
    );
    match reset_dns("Wi-Fi") {
        ElevatedDnsOperation::Reset { adapter } => assert_eq!(adapter, "Wi-Fi"),
        _ => panic!("expected a reset operation"),
    }
}

#[test]
fn adapter_listing() {
    let output = "Ethernet\tEthernet \u{2014} Home\t1.1.1.1, 1.0.0.1\t12\t0\t1\r\nbroken line\r\nWi-Fi\tWi-Fi\t\t7\t1\t0\r\nVPN\tVPN\t\tx\t1\t0\r\nLoop\tLoop\t\t+3";
    let adapters = active_adapters(output).unwrap();
    assert_eq!(adapters.len(), 3);
    assert_eq!(adapters[0].name, "Ethernet");
    assert_eq!(adapters[0].label, "Ethernet \u{2014} Home");
    assert_eq!(adapters[0].dns, "1.1.1.1, 1.0.0.1");
    assert_eq!(adapters[0].interface_index, 12);
    assert!(!adapters[0].dns_automatic);
    assert!(adapters[0].dns_encrypted);
    assert_eq!(adapters[1].interface_index, 7);
    assert!(adapters[1].dns_automatic);
    assert!(!adapters[1].dns_encrypted);
    assert_eq!(adapters[2].interface_index, 3);
    assert!(!adapters[2].dns_automatic);
    assert_eq!(
        active_adapters("").unwrap_err(),
        "No active network adapter was found."
    );
    assert_eq!(
        active_adapters("only\tthree\tfields").unwrap_err(),
        "No active network adapter was found."
    );
    let p = placeholder_adapter();
    assert_eq!((p.name.as_str(), p.dns.as_str(), p.dns_automatic), ("Default network", "System managed", true));
    assert_eq!(counters_interface(0).unwrap_err(), "No network adapter was selected.");
    assert_eq!(counters_interface(4), Ok(4));
}

#[test]
fn theme_and_powershell_messages() {
    assert!(prefers_dark_mode(Some(
        "\r\nHKEY_CURRENT_USER\\...\\Personalize\r\n    AppsUseLightTheme    REG_DWORD    0x0\r\n"
    )));
    assert!(!prefers_dark_mode(Some("    AppsUseLightTheme    REG_DWORD    0x1")));
    assert!(!prefers_dark_mode(None));
    assert_eq!(powershell_failure_message("  \n "), "The PowerShell operation failed.");
    assert_eq!(
        powershell_failure_message("\r\nAccess is denied.\r\nAt line:1 char:1\r\n"),
        "Access is denied."
    );
}

#[test]
fn helper_round_trip() {
    let json = br#"{"Reset":{"adapter":"Wi-Fi"}}"#;
    let path = "C:\\Temp\\usedns-helper-1-2.result";
    let params = helper_parameters(json, path);
    let mut args = vec!["usedns.exe".to_string()];
    args.extend(params.split(' ').map(str::to_string));
    assert_eq!(args[1], "--dns-helper");
    assert_ne!(args[2].as_bytes(), json.as_slice());
    let request = run_dns_helper_if_requested(&args).unwrap();
    assert_eq!(request.result_path.as_deref(), Some(path));
    let decoded = decode_helper_payload(request.payload.as_deref()).unwrap();
    assert_eq!(decoded, json.to_vec());

    assert!(run_dns_helper_if_requested(&["usedns.exe".to_string()]).is_none());
    assert!(run_dns_helper_if_requested(&["usedns.exe".to_string(), "--other".to_string()]).is_none());
    let partial = run_dns_helper_if_requested(&["a".to_string(), "--dns-helper".to_string()]).unwrap();
    assert!(partial.payload.is_none() && partial.result_path.is_none());
    assert_eq!(
        decode_helper_payload(None).unwrap_err(),
        "The DNS helper request is incomplete."
    );
    assert_eq!(
        decode_helper_payload(Some("not base64!")).unwrap_err(),
        "The DNS helper request is invalid."
    );
    let bad_path = run_dns_helper_if_requested(&[
        "a".to_string(),
        "--dns-helper".to_string(),
        "e30=".to_string(),
        "@@@".to_string(),
    ])
    .unwrap();
    assert!(bad_path.result_path.is_none());
}

#[test]
fn helper_outcomes() {
    assert_eq!(helper_outcome(0, "ignored"), Ok(()));
    assert_eq!(
        helper_outcome(1, "  "),
        Err("The elevated DNS helper failed without an error message.".to_string())
    );
    assert_eq!(helper_outcome(1, " Access denied\n"), Err("Access denied".to_string()));
    assert_eq!(
        elevation_error(0x8007_04c7, "cancelled"),
        "Administrator permission was cancelled. DNS was not changed."
    );
    assert_eq!(
        elevation_error(5, "Access is denied."),
        "Could not request Administrator access: Access is denied."
    );
}

#[test]
fn resolver_probe_target() {
    assert_eq!(connection_target("1.1.1.1, 1.0.0.1"), Ok("1.1.1.1".to_string()));
    assert_eq!(connection_target(" ; \u{2014} , 2606:4700:4700::1111"), Ok("2606:4700:4700::1111".to_string()));
    assert_eq!(connection_target(""), Ok("1.1.1.1".to_string()));
    assert_eq!(
        connection_target("System managed"),
        Err("Could not check the resolver address 'System'.".to_string())
    );
    assert_eq!(reported_latency(0), 1);
    assert_eq!(reported_latency(42), 42);
}
