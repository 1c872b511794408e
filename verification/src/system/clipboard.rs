//! The selected text: what is kept of what the selection or the clipboard
//! holds, and the short preview written to the logs.
//!
//! Reading the selection and the clipboard is left to the caller.
use vstd::prelude::*;

use crate::model::Platform;
use crate::text;
use crate::text::{push_chars, string_of, string_of_range, to_chars, trim_chars};

verus! {

/// The preview of a text: its first 200 characters, followed by "..." when
/// there are more.
pub open spec fn preview(t: Seq<char>) -> Seq<char> {
    if t.len() > 200 { t.take(200) + "..."@ } else { t }
}

/// A preview of a text for the logs (see [`preview`]).
pub fn text_preview(text: &str) -> (r: String)
    ensures
        r@ == preview(text@),
{
    let v = to_chars(text);
    if v.len() > 200 {
        let mut r = string_of_range(v.as_slice(), 0, 200);
        push_chars(&mut r, &['.', '.', '.']);
        assert(r@ =~= preview(text@)) by {
            reveal_strlit("...");
        }
        r
    } else {
        text.to_owned()
    }
}

/// Text read from the selection or the clipboard, trimmed; nothing when
/// only whitespace was read.
pub fn process_text(text: String) -> (r: Option<String>)
    ensures
        r is Some <==> text::trim(text@).len() > 0,
        r is Some ==> r.unwrap()@ == text::trim(text@),
{
    let t = trim_chars(to_chars(text.as_str()).as_slice());
    if t.len() == 0 {
        None
    } else {
        Some(string_of(t.as_slice()))
    }
}

/// The kept text of a read, if any (see [`process_text`]).
pub open spec fn kept_text(read: Option<String>) -> Option<Seq<char>> {
    match read {
        Some(t) => if text::trim(t@).len() > 0 { Some(text::trim(t@)) } else { None },
        None => None,
    }
}

/// The selected text: the primary selection when it holds text, otherwise
/// the clipboard. Each is what its read returned (nothing when the read
/// failed), trimmed; whitespace alone counts as nothing.
pub fn get_selected_text(primary: Option<String>, clipboard: Option<String>) -> (r: Option<String>)
    ensures
        r is Some <==> kept_text(primary) is Some || kept_text(clipboard) is Some,
        r is Some ==> r.unwrap()@ == if kept_text(primary) is Some {
            kept_text(primary).unwrap()
        } else {
            kept_text(clipboard).unwrap()
        },
{
    let first = match primary {
        Some(t) => process_text(t),
        None => None,
    };
    if first.is_some() {
        return first;
    }
    match clipboard {
        Some(t) => process_text(t),
        None => None,
    }
}

/// A command that copies the text on its standard input to the clipboard:
/// the program and its arguments.
#[derive(Debug, Clone)]
pub struct CopyCommand {
    pub program: String,
    pub args: Vec<String>,
}

/// A copy command as plain values.
pub open spec fn copy_command_view(c: CopyCommand) -> (Seq<char>, Seq<Seq<char>>) {
    (c.program@, c.args@.map_values(|a: String| a@))
}

pub open spec fn unsupported_copy_text() -> Seq<char> {
    "Clipboard copy not supported on this platform"@
}

fn copy_command(program: &str, args: Vec<String>) -> (c: CopyCommand)
    ensures
        c.program@ == program@,
        c.args == args,
{
    CopyCommand { program: program.to_owned(), args }
}

/// The commands to try, in order, to copy text to the clipboard: `pbcopy`
/// on macOS; `wl-copy` (Wayland), then `xclip -selection clipboard` (X11)
/// on Linux; elsewhere copying is not supported and this is the error.
pub fn copy_commands(platform: Platform) -> (r: Result<Vec<CopyCommand>, String>)
    ensures
        platform == Platform::MacOs ==> (r matches Ok(v) && v@.map_values(|c: CopyCommand| copy_command_view(c))
            == seq![("pbcopy"@, Seq::<Seq<char>>::empty())]),
        platform == Platform::Linux ==> (r matches Ok(v) && v@.map_values(|c: CopyCommand| copy_command_view(c))
            == seq![("wl-copy"@, Seq::<Seq<char>>::empty()), ("xclip"@, seq!["-selection"@, "clipboard"@])]),
        platform == Platform::Windows ==> (r matches Err(m) && m@ == unsupported_copy_text()),
{
    match platform {
        Platform::MacOs => {
            let v = vec![copy_command("pbcopy", Vec::new())];
            assert(v@[0].args@.map_values(|a: String| a@) =~= Seq::<Seq<char>>::empty());
            assert(v@.map_values(|c: CopyCommand| copy_command_view(c)) =~= seq![("pbcopy"@, Seq::<Seq<char>>::empty())]);
            Ok(v)
        },
        Platform::Linux => {
            let xargs = vec!["-selection".to_owned(), "clipboard".to_owned()];
            assert(xargs@.map_values(|a: String| a@) =~= seq!["-selection"@, "clipboard"@]);
            let v = vec![copy_command("wl-copy", Vec::new()), copy_command("xclip", xargs)];
            assert(v@[0].args@.map_values(|a: String| a@) =~= Seq::<Seq<char>>::empty());
            assert(v@.map_values(|c: CopyCommand| copy_command_view(c)) =~= seq![
                ("wl-copy"@, Seq::<Seq<char>>::empty()),
                ("xclip"@, seq!["-selection"@, "clipboard"@]),
            ]);
            Ok(v)
        },
        Platform::Windows => Err("Clipboard copy not supported on this platform".to_owned()),
    }
}

} // verus!
