//! Text renderings of an exported chat: RTF escaping, the RTF document and
//! the plain-text export.
use vstd::prelude::*;
use vstd::string::*;

verus! {

/// One message of an exported chat. A message lacking its role or its
/// content is left out of the RTF document.
pub struct ExportMessage {
    pub role: Option<String>,
    pub content: Option<String>,
}

/// A chat handed over for export.
pub struct ExportPayload {
    pub title: String,
    pub messages: Vec<ExportMessage>,
    pub created_at: u64,
}

/// What a single character becomes inside an RTF text run.
pub open spec fn rtf_escape_char(c: char) -> Seq<char> {
    if c == '\\' {
        seq!['\\', '\\']
    } else if c == '{' {
        seq!['\\', '{']
    } else if c == '}' {
        seq!['\\', '}']
    } else if c == '\n' {
        seq!['\\', 'p', 'a', 'r', ' ']
    } else if c == '\r' {
        Seq::empty()
    } else {
        seq![c]
    }
}

/// `s` with every character escaped for RTF.
pub open spec fn rtf_escaped(s: Seq<char>) -> Seq<char>
    decreases s.len(),
{
    if s.len() == 0 {
        Seq::empty()
    } else {
        rtf_escaped(s.drop_last()) + rtf_escape_char(s.last())
    }
}

/// The decimal digit for `d < 10`.
pub open spec fn digit_char(d: nat) -> char {
    seq!['0', '1', '2', '3', '4', '5', '6', '7', '8', '9'][d as int]
}

/// The decimal notation of `n`, without leading zeros.
pub open spec fn decimal(n: nat) -> Seq<char>
    decreases n,
{
    if n < 10 {
        seq![digit_char(n)]
    } else {
        decimal(n / 10) + seq![digit_char(n % 10)]
    }
}

/// How the RTF document names the author of a message.
pub open spec fn speaker_label(role: Seq<char>) -> Seq<char> {
    if role == "user"@ {
        "You"@
    } else {
        "MONAD"@
    }
}

/// The lines that one message contributes to the RTF document.
pub open spec fn message_block(m: ExportMessage) -> Seq<char> {
    match (m.role, m.content) {
        (Some(role), Some(content)) => "\\b "@ + rtf_escaped(speaker_label(role@))
            + ":\\b0\\par\n"@ + rtf_escaped(content@) + "\\par\\par\n"@,
        _ => Seq::empty(),
    }
}

/// The blocks of all messages, in order.
pub open spec fn message_blocks(ms: Seq<ExportMessage>) -> Seq<char>
    decreases ms.len(),
{
    if ms.len() == 0 {
        Seq::empty()
    } else {
        message_blocks(ms.drop_last()) + message_block(ms.last())
    }
}

/// The complete RTF document for a chat.
pub open spec fn rtf_document_text(p: ExportPayload) -> Seq<char> {
    "{\\rtf1\\ansi\\deff0 {\\fonttbl {\\f0 Times New Roman;}}\n"@ + "\\f0\\fs24\n"@ + "\\b "@
        + rtf_escaped(p.title@) + "\\b0\\par\\par\n"@ + "Created: "@ + decimal(
        p.created_at as nat,
    ) + "\\par\\par\n"@ + message_blocks(p.messages@) + "}"@
}

/// Escapes backslashes and braces, turns line feeds into paragraph breaks and
/// drops carriage returns.
pub fn escape_rtf(text: &str) -> (r: String)
    ensures
        r@ == rtf_escaped(text@),
{
    let n = text.unicode_len();
    let mut out = String::new();
    let mut i: usize = 0;
    while i < n
        invariant
            n == text@.len(),
            i <= n,
            out@ == rtf_escaped(text@.subrange(0, i as int)),
        decreases n - i,
    {
        let c = text.get_char(i);
        proof {
            reveal_strlit("\\\\");
            reveal_strlit("\\{");
            reveal_strlit("\\}");
            reveal_strlit("\\par ");
            assert(text@.subrange(0, i + 1).drop_last() =~= text@.subrange(0, i as int));
        }
        if c == '\\' {
            out.append("\\\\");
        } else if c == '{' {
            out.append("\\{");
        } else if c == '}' {
            out.append("\\}");
        } else if c == '\n' {
            out.append("\\par ");
        } else if c != '\r' {
            let one = text.substring_char(i, i + 1);
            proof {
                assert(one@ =~= seq![c]);
            }
            out.append(one);
        }
        i = i + 1;
    }
    proof {
        assert(text@.subrange(0, n as int) =~= text@);
    }
    out
}

/// Appends the decimal notation of `n`.
pub fn push_decimal(out: &mut String, n: u64)
    ensures
        final(out)@ == old(out)@ + decimal(n as nat),
    decreases n,
{
    if n >= 10 {
        push_decimal(out, n / 10);
    }
    let d = (n % 10) as usize;
    proof {
        reveal_strlit("0123456789");
    }
    let digit = "0123456789".substring_char(d, d + 1);
    proof {
        assert(digit@ =~= seq![digit_char(d as nat)]);
        assert(old(out)@ + decimal(n as nat) =~= if n >= 10 {
            old(out)@ + decimal(n as nat / 10) + seq![digit_char(d as nat)]
        } else {
            old(out)@ + seq![digit_char(d as nat)]
        });
    }
    out.append(digit);
}

/// Whether `role` is exactly `user`.
pub fn is_user_role(role: &str) -> (r: bool)
    ensures
        r == (role@ == "user"@),
{
    proof {
        reveal_strlit("user");
    }
    if role.unicode_len() != 4 {
        return false;
    }
    let r = role.get_char(0) == 'u' && role.get_char(1) == 's' && role.get_char(2) == 'e'
        && role.get_char(3) == 'r';
    proof {
        if r {
            assert(role@ =~= "user"@);
        }
    }
    r
}

/// Appends the block of one message.
fn push_message_block(out: &mut String, m: &ExportMessage)
    ensures
        final(out)@ == old(out)@ + message_block(*m),
{
    match (&m.role, &m.content) {
        (Some(role), Some(content)) => {
            let label = if is_user_role(role.as_str()) {
                "You"
            } else {
                "MONAD"
            };
            out.append("\\b ");
            out.append(escape_rtf(label).as_str());
            out.append(":\\b0\\par\n");
            out.append(escape_rtf(content.as_str()).as_str());
            out.append("\\par\\par\n");
            proof {
                assert(final(out)@ =~= old(out)@ + message_block(*m));
            }
        },
        _ => {
            proof {
                assert(old(out)@ + message_block(*m) =~= old(out)@);
            }
        },
    }
}

/// The RTF document for a chat: a header, the title in bold, the creation
/// time, then each message that has both a role and a content, with the
/// user's messages labelled `You` and all others `MONAD`.
pub fn rtf_document(payload: &ExportPayload) -> (r: String)
    ensures
        r@ == rtf_document_text(*payload),
{
    let mut out = String::new();
    out.append("{\\rtf1\\ansi\\deff0 {\\fonttbl {\\f0 Times New Roman;}}\n");
    out.append("\\f0\\fs24\n");
    out.append("\\b ");
    out.append(escape_rtf(payload.title.as_str()).as_str());
    out.append("\\b0\\par\\par\n");
    out.append("Created: ");
    push_decimal(&mut out, payload.created_at);
    out.append("\\par\\par\n");
    let ghost start = out@;
    let mut i: usize = 0;
    while i < payload.messages.len()
        invariant
            i <= payload.messages@.len(),
            out@ == start + message_blocks(payload.messages@.subrange(0, i as int)),
        decreases payload.messages@.len() - i,
    {
        push_message_block(&mut out, &payload.messages[i]);
        proof {
            assert(payload.messages@.subrange(0, i + 1).drop_last() =~= payload.messages@.subrange(
                0,
                i as int,
            ));
        }
        i = i + 1;
    }
    proof {
        assert(payload.messages@.subrange(0, i as int) =~= payload.messages@);
    }
    out.append("}");
    proof {
        assert(out@ =~= rtf_document_text(*payload));
    }
    out
}

/// `parts` with `sep` between each two of them.
pub open spec fn joined_with(parts: Seq<Seq<char>>, sep: Seq<char>) -> Seq<char>
    decreases parts.len(),
{
    if parts.len() == 0 {
        Seq::empty()
    } else if parts.len() == 1 {
        parts[0]
    } else {
        joined_with(parts.drop_last(), sep) + sep + parts.last()
    }
}

/// The plain-text export of a chat whose messages read `rendered`.
pub open spec fn text_export(title: Seq<char>, created_at: nat, rendered: Seq<Seq<char>>) -> Seq<
    char,
> {
    "Title: "@ + title + "\n\nCreated: "@ + decimal(created_at) + "\n\nMessages:\n\n"@
        + joined_with(rendered, "\n\n"@)
}

/// The plain-text export: title, creation time, then the messages, each as
/// the host rendered it, separated by blank lines.
pub fn text_export_document(title: &str, created_at: u64, rendered: &Vec<String>) -> (r: String)
    ensures
        r@ == text_export(title@, created_at as nat, rendered@.map_values(|m: String| m@)),
{
    let ghost parts = rendered@.map_values(|m: String| m@);
    let mut out = String::from_str("Title: ");
    out.append(title);
    out.append("\n\nCreated: ");
    push_decimal(&mut out, created_at);
    out.append("\n\nMessages:\n\n");
    let ghost start = out@;
    let mut i: usize = 0;
    while i < rendered.len()
        invariant
            i <= rendered@.len(),
            parts == rendered@.map_values(|m: String| m@),
            out@ == start + joined_with(parts.subrange(0, i as int), "\n\n"@),
        decreases rendered@.len() - i,
    {
        if i > 0 {
            out.append("\n\n");
        }
        out.append(rendered[i].as_str());
        proof {
            let p = parts.subrange(0, i + 1);
            assert(p.drop_last() =~= parts.subrange(0, i as int));
            assert(p.last() == rendered@[i as int]@);
            if i == 0 {
                assert(p.len() == 1);
                assert(parts.subrange(0, 0).len() == 0);
                assert(out@ =~= start + joined_with(p, "\n\n"@));
            } else {
                assert(out@ =~= start + joined_with(p, "\n\n"@));
            }
        }
        i = i + 1;
    }
    proof {
        assert(parts.subrange(0, i as int) =~= parts);
    }
    out
}

/// `s` with every `.pdf` replaced by `.txt`, scanning from the left.
pub open spec fn pdf_to_txt(s: Seq<char>) -> Seq<char>
    decreases s.len(),
{
    if s.len() < 4 {
        s
    } else if s.subrange(0, 4) == ".pdf"@ {
        ".txt"@ + pdf_to_txt(s.subrange(4, s.len() as int))
    } else {
        seq![s[0]] + pdf_to_txt(s.subrange(1, s.len() as int))
    }
}

/// Whether `.pdf` stands in `s` at character position `i`.
fn pdf_at(s: &str, i: usize) -> (r: bool)
    requires
        i <= s@.len(),
    ensures
        r == (i + 4 <= s@.len() && s@.subrange(i as int, i + 4) == ".pdf"@),
{
    proof {
        reveal_strlit(".pdf");
    }
    if s.unicode_len() - i < 4 {
        return false;
    }
    let r = s.get_char(i) == '.' && s.get_char(i + 1) == 'p' && s.get_char(i + 2) == 'd'
        && s.get_char(i + 3) == 'f';
    proof {
        let w = s@.subrange(i as int, i + 4);
        if r {
            assert(w =~= ".pdf"@);
        } else {
            assert(w[0] != '.' || w[1] != 'p' || w[2] != 'd' || w[3] != 'f');
        }
    }
    r
}

/// The file that a plain-text export asked for under `filename` goes to.
pub fn text_export_path(filename: &str) -> (r: String)
    ensures
        r@ == pdf_to_txt(filename@),
{
    proof {
        reveal_strlit(".txt");
    }
    let n = filename.unicode_len();
    let mut out = String::new();
    let mut i: usize = 0;
    proof {
        assert(filename@.subrange(0, n as int) =~= filename@);
        assert(out@ + filename@ =~= filename@);
    }
    while i < n
        invariant
            n == filename@.len(),
            i <= n,
            pdf_to_txt(filename@) == out@ + pdf_to_txt(filename@.subrange(i as int, n as int)),
        decreases n - i,
    {
        let ghost rest = filename@.subrange(i as int, n as int);
        if pdf_at(filename, i) {
            proof {
                assert(rest.subrange(0, 4) =~= filename@.subrange(i as int, i + 4));
                assert(rest.subrange(4, rest.len() as int) =~= filename@.subrange(i + 4, n as int));
                assert(out@ + ".txt"@ + pdf_to_txt(filename@.subrange(i + 4, n as int)) =~= out@
                    + pdf_to_txt(rest));
            }
            out.append(".txt");
            i = i + 4;
        } else if n - i < 4 {
            let tail = filename.substring_char(i, n);
            out.append(tail);
            proof {
                assert(filename@.subrange(n as int, n as int).len() == 0);
            }
            i = n;
        } else {
            let one = filename.substring_char(i, i + 1);
            proof {
                assert(rest.subrange(0, 4) =~= filename@.subrange(i as int, i + 4));
                assert(one@ =~= seq![rest[0]]);
                assert(rest.subrange(1, rest.len() as int) =~= filename@.subrange(i + 1, n as int));
                assert(out@ + one@ + pdf_to_txt(filename@.subrange(i + 1, n as int)) =~= out@
                    + pdf_to_txt(rest));
            }
            out.append(one);
            i = i + 1;
        }
    }
    proof {
        assert(filename@.subrange(n as int, n as int).len() == 0);
        assert(out@ + Seq::<char>::empty() =~= out@);
    }
    out
}

} // verus!
