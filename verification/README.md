# UseDNS

UseDNS switches the DNS servers of a Windows network adapter between a
catalogue of public resolvers (Cloudflare, Google, Quad9, AdGuard,
CleanBrowsing, Control D, NextDNS, OpenDNS) and the user's own ones, with
optional encrypted DNS (DoH), and shows which resolver is in use.

The decisions of the application are a library verified with Verus:

- `src/models.rs` — providers and profiles, the bundled catalogue, validation.
- `src/catalog.rs` — recognizing the provider in use, provider cards, search
  and category filters, symbols, tags and encrypted-DNS templates.
- `src/actions.rs` — planning a DNS change or reset, the custom-provider form
  (save, edit, delete), the resolver test, traffic deltas.
- `src/system.rs` — the PowerShell scripts of the elevated helper, the
  helper's command line, parsing of the adapter listing.
- `src/storage.rs` — settings, their defaults and normalization.
- `src/messages.rs`, `src/tray.rs` — notifications and the tray menu.
- `src/text.rs`, `src/encoding.rs`, `src/net.rs` — text operations, Base64 and
  IP-address parsing used by the above.

`app/` is the program around it: settings file, PowerShell and UAC
elevation, adapter statistics, TCP reachability, and a command-line front.
`tests/` exercises the library on concrete values.
