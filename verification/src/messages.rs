//! The notifications shown after an operation: error messages are turned
//! into short, localized explanations, and completed operations are
//! announced in the interface language.
use crate::catalog::{indonesian, is_indonesian};
use crate::text::{
    chars_of, concat, contains, decimal, decimal_string, lines, lines_chars, owned, push_char,
    spec_to_lowercase, str_contains, string_of, take_chars_exec, to_lowercase, trim, trim_chars,
};
use vstd::prelude::*;

verus! {

/// The longest explanation shown, in characters, before it is cut short.
pub const MAX_MESSAGE_CHARS: usize = 180;

/// The first line, from index `i` on, that is not blank, trimmed.
pub open spec fn first_nonblank_line_from(ls: Seq<Seq<char>>, i: int) -> Option<Seq<char>>
    decreases ls.len() - i,
{
    if i < 0 || i >= ls.len() {
        None
    } else if trim(ls[i]).len() != 0 {
        Some(trim(ls[i]))
    } else {
        first_nonblank_line_from(ls, i + 1)
    }
}

/// The message reports a cancelled elevation prompt.
pub open spec fn reports_cancellation(lower: Seq<char>) -> bool {
    contains(lower, "cancelled"@) || contains(lower, "canceled"@) || contains(lower, "dibatalkan"@)
}

/// The message reports missing Administrator rights.
pub open spec fn reports_missing_rights(lower: Seq<char>) -> bool {
    ||| contains(lower, "administrator"@)
    ||| contains(lower, "access to a cim resource"@)
    ||| contains(lower, "access is denied"@)
    ||| contains(lower, "permission"@)
}

/// A text cut to at most 180 characters, with an ellipsis when it was longer.
pub open spec fn shortened(text: Seq<char>) -> Seq<char> {
    if text.len() > MAX_MESSAGE_CHARS {
        text.take(MAX_MESSAGE_CHARS as int).push('\u{2026}')
    } else {
        text
    }
}

/// The explanation shown for an error: a localized text for a cancelled
/// elevation or for missing Administrator rights (recognized without regard
/// to case), otherwise the first non-blank line of the message, shortened,
/// or a localized generic text when there is none.
pub open spec fn spec_friendly_error(language: Seq<char>, message: Seq<char>) -> Seq<char> {
    let ind = is_indonesian(language);
    let lower = spec_to_lowercase(message);
    if reports_cancellation(lower) {
        if ind {
            "Izin Administrator dibatalkan. DNS tidak diubah."@
        } else {
            "Administrator permission was cancelled. DNS was not changed."@
        }
    } else if reports_missing_rights(lower) {
        if ind {
            "UseDNS memerlukan izin Administrator untuk mengubah DNS. Setujui dialog UAC lalu coba lagi."@
        } else {
            "UseDNS needs Administrator permission to change DNS. Approve the UAC prompt and try again."@
        }
    } else {
        shortened(
            match first_nonblank_line_from(lines(message), 0) {
                Some(l) => l,
                None => if ind {
                    "Operasi tidak dapat diselesaikan."@
                } else {
                    "The operation could not be completed."@
                },
            },
        )
    }
}

/// The explanation shown for an error message.
pub fn friendly_error_message(language: &str, message: &str) -> (r: String)
    ensures
        r@ == spec_friendly_error(language@, message@),
{
    let ind = indonesian(language);
    let lower = to_lowercase(message);
    let l = lower.as_str();
    if str_contains(l, "cancelled") || str_contains(l, "canceled") || str_contains(l, "dibatalkan") {
        return if ind {
            owned("Izin Administrator dibatalkan. DNS tidak diubah.")
        } else {
            owned("Administrator permission was cancelled. DNS was not changed.")
        };
    }
    if str_contains(l, "administrator") || str_contains(l, "access to a cim resource")
        || str_contains(l, "access is denied") || str_contains(l, "permission") {
        return if ind {
            owned(
                "UseDNS memerlukan izin Administrator untuk mengubah DNS. Setujui dialog UAC lalu coba lagi.",
            )
        } else {
            owned(
                "UseDNS needs Administrator permission to change DNS. Approve the UAC prompt and try again.",
            )
        };
    }
    let cs = chars_of(message);
    let ls = lines_chars(cs.as_slice());
    let ghost lv = lines(message@);
    let mut found: Option<Vec<char>> = None;
    let mut i: usize = 0;
    while i < ls.len() && found.is_none()
        invariant
            i <= ls@.len(),
            ls@.len() == lv.len(),
            lv == lines(message@),
            forall|k: int| 0 <= k < ls@.len() ==> #[trigger] ls@[k]@ == lv[k],
            found is None ==> first_nonblank_line_from(lv, 0) == first_nonblank_line_from(
                lv,
                i as int,
            ),
            found matches Some(f) ==> first_nonblank_line_from(lv, 0) == Some(f@),
        decreases ls.len() - i,
    {
        assert(ls@[i as int]@ == lv[i as int]);
        let t = trim_chars(ls[i].as_slice());
        if t.len() != 0 {
            found = Some(t);
        }
        i = i + 1;
    }
    let first: Vec<char> = match found {
        Some(f) => f,
        None => {
            let fallback = if ind {
                "Operasi tidak dapat diselesaikan."
            } else {
                "The operation could not be completed."
            };
            chars_of(fallback)
        },
    };
    let mut r = string_of(take_chars_exec(first.as_slice(), MAX_MESSAGE_CHARS).as_slice());
    if first.len() > MAX_MESSAGE_CHARS {
        push_char(&mut r, '\u{2026}');
    }
    r
}

/// The notification text: errors are explained, other results are shown as
/// they are.
pub fn display_message(language: &str, message: &str, error: bool) -> (r: String)
    ensures
        r@ == if error {
            spec_friendly_error(language@, message@)
        } else {
            message@
        },
{
    if error {
        friendly_error_message(language, message)
    } else {
        owned(message)
    }
}

// ---------------------------------------------------------------------
// Notices of completed operations
// ---------------------------------------------------------------------

/// An operation that completed and is announced to the user.
#[derive(Clone, Copy, Debug, PartialEq, Eq, Structural)]
pub enum Notice {
    /// DNS was changed from the main window.
    Applied,
    /// DNS was changed from the tray menu.
    AppliedFromTray,
    /// The adapter was returned to automatic DNS.
    Restored,
    /// A custom provider was saved.
    CustomSaved,
    /// A custom provider was deleted.
    CustomDeleted,
}

/// The text announcing a completed operation, in the interface language.
pub open spec fn spec_notice(notice: Notice, language: Seq<char>) -> Seq<char> {
    let ind = is_indonesian(language);
    match notice {
        Notice::Applied => if ind {
            "DNS berhasil diterapkan."@
        } else {
            "DNS applied successfully."@
        },
        Notice::AppliedFromTray => if ind {
            "DNS berhasil diterapkan dari tray."@
        } else {
            "DNS applied from the tray."@
        },
        Notice::Restored => if ind {
            "DNS otomatis berhasil dipulihkan."@
        } else {
            "Automatic DNS restored."@
        },
        Notice::CustomSaved => if ind {
            "DNS kustom berhasil disimpan."@
        } else {
            "Custom DNS saved."@
        },
        Notice::CustomDeleted => if ind {
            "DNS kustom dihapus."@
        } else {
            "Custom DNS deleted."@
        },
    }
}

/// The text announcing a completed operation.
pub fn notice_text(notice: Notice, language: &str) -> (r: String)
    ensures
        r@ == spec_notice(notice, language@),
{
    let ind = indonesian(language);
    match notice {
        Notice::Applied => if ind {
            owned("DNS berhasil diterapkan.")
        } else {
            owned("DNS applied successfully.")
        },
        Notice::AppliedFromTray => if ind {
            owned("DNS berhasil diterapkan dari tray.")
        } else {
            owned("DNS applied from the tray.")
        },
        Notice::Restored => if ind {
            owned("DNS otomatis berhasil dipulihkan.")
        } else {
            owned("Automatic DNS restored.")
        },
        Notice::CustomSaved => if ind {
            owned("DNS kustom berhasil disimpan.")
        } else {
            owned("Custom DNS saved.")
        },
        Notice::CustomDeleted => if ind {
            owned("DNS kustom dihapus.")
        } else {
            owned("Custom DNS deleted.")
        },
    }
}

/// The result of a resolver test that got an answer after `ms` milliseconds.
pub open spec fn spec_reachable_notice(language: Seq<char>, ms: u128) -> Seq<char> {
    if is_indonesian(language) {
        "Resolver dapat dijangkau dalam sekitar "@ + decimal(ms as nat) + " ms."@
    } else {
        "Resolver is reachable in approximately "@ + decimal(ms as nat) + " ms."@
    }
}

/// The result of a resolver test that got an answer.
pub fn reachable_notice(language: &str, ms: u128) -> (r: String)
    ensures
        r@ == spec_reachable_notice(language@, ms),
{
    let digits = decimal_string(ms);
    let head = if indonesian(language) {
        concat("Resolver dapat dijangkau dalam sekitar ", digits.as_str())
    } else {
        concat("Resolver is reachable in approximately ", digits.as_str())
    };
    concat(head.as_str(), " ms.")
}

/// The error shown when the settings file cannot be written.
pub fn settings_error(error: &str) -> (r: String)
    ensures
        r@ == "Could not save settings: "@ + error@,
{
    concat("Could not save settings: ", error)
}

/// The latency shown for a reachability result: the milliseconds, or a dash
/// when the resolver did not respond.
pub open spec fn spec_latency_label(latency: Option<u128>) -> Seq<char> {
    match latency {
        Some(ms) => decimal(ms as nat) + " ms"@,
        None => "\u{2014}"@,
    }
}

/// The latency shown for a reachability result.
pub fn latency_label(latency: Option<u128>) -> (r: String)
    ensures
        r@ == spec_latency_label(latency),
{
    match latency {
        Some(ms) => {
            let digits = decimal_string(ms);
            concat(digits.as_str(), " ms")
        },
        None => owned("\u{2014}"),
    }
}

} // verus!
