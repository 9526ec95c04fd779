//! Filename sanitization and the contents of local shortcut files.

use vstd::prelude::*;

verus! {

/// Characters that may not appear in a path segment written to disk.
pub open spec fn spec_is_reserved_char(c: char) -> bool {
    c == '/' || c == '\\' || c == ':' || c == '*' || c == '?' || c == '"' || c == '<' || c == '>'
        || c == '|'
}

/// A reserved character becomes an underscore; every other character stays.
pub open spec fn spec_sanitize_char(c: char) -> char {
    if spec_is_reserved_char(c) {
        '_'
    } else {
        c
    }
}

/// The sanitized form of a name: the same characters, with each reserved
/// one replaced by an underscore.
pub open spec fn spec_sanitize(s: Seq<char>) -> Seq<char> {
    Seq::new(s.len(), |i: int| spec_sanitize_char(s[i]))
}

fn is_reserved_char(c: char) -> (r: bool)
    ensures
        r == spec_is_reserved_char(c),
{
    c == '/' || c == '\\' || c == ':' || c == '*' || c == '?' || c == '"' || c == '<' || c == '>'
        || c == '|'
}

/// Replaces each of the characters `/ \ : * ? " < > |` in a file name with
/// an underscore, leaving all others unchanged.
pub fn sanitize_file_name(file_name: &str) -> (r: String)
    ensures
        r@ == spec_sanitize(file_name@),
{
    let n = file_name.unicode_len();
    let mut out = String::new();
    let mut i: usize = 0;
    while i < n
        invariant
            n == file_name@.len(),
            i <= n,
            out@ == spec_sanitize(file_name@.subrange(0, i as int)),
        decreases n - i,
    {
        let c = file_name.get_char(i);
        if is_reserved_char(c) {
            out.append("_");
            proof {
                reveal_strlit("_");
            }
        } else {
            let piece = file_name.substring_char(i, i + 1);
            out.append(piece);
        }
        i = i + 1;
        proof {
            assert(out@ =~= spec_sanitize(file_name@.subrange(0, i as int)));
        }
    }
    proof {
        assert(file_name@.subrange(0, n as int) =~= file_name@);
    }
    out
}

/// The text of a url-shortcut file in the `[InternetShortcut]` format.
/// The caller writes it next to the synced files under the link's
/// destination path base.
pub fn url_shortcut_contents(url: &str) -> (r: String)
    ensures
        r@ == "[InternetShortcut]\nURL="@ + url@ + "\n"@,
{
    let mut out = String::from_str("[InternetShortcut]\nURL=");
    out.append(url);
    out.append("\n");
    out
}

/// The text of a desktop-entry link file (`Type=Link`); its `Name`
/// entry carries the link's destination path base.
pub fn desktop_link_contents(file_name_base: &str, url: &str) -> (r: String)
    ensures
        r@ == "[Desktop Entry]\nEncoding=UTF-8\nName="@ + file_name_base@
            + "\nType=Link\nURL="@ + url@ + "\nIcon=text-html\n"@,
{
    let mut out = String::from_str("[Desktop Entry]\nEncoding=UTF-8\nName=");
    out.append(file_name_base);
    out.append("\nType=Link\nURL=");
    out.append(url);
    out.append("\nIcon=text-html\n");
    out
}

} // verus!
