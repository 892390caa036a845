//! Which kind of application has the focus: the context label that selects
//! the prompt template used for cleanup and formatting.
use vstd::prelude::*;

use crate::text::{
    ascii_lowercase, ascii_uppercase, chars_of, contains_lit, contains_seq, eq_str, is_ascii_text,
    lemma_ascii_case_folding, lowercase, to_lowercase,
};

verus! {

/// Context label used for prompt template selection.
#[derive(Debug, Clone, Copy, PartialEq, Eq, Structural)]
pub enum AppContext {
    /// VS Code, Cursor, Neovim, etc.
    Code,
    /// Terminal / shell applications
    Terminal,
    /// Email clients
    Email,
    /// Chat / messaging apps (Slack, Discord, Teams)
    Chat,
    /// Note-taking apps (Notion, Obsidian, Logseq)
    Notes,
    /// Web browsers (Chrome, Firefox, Edge)
    Browser,
    /// Document editors (Word, Google Docs, LibreOffice)
    Document,
    /// Spreadsheet apps
    Spreadsheet,
    /// Video conferencing (Zoom, Meet, Teams)
    Meeting,
    /// Catch-all
    Generic,
}

/// The wire name of each context.
pub open spec fn context_label(c: AppContext) -> Seq<char> {
    match c {
        AppContext::Code => "code"@,
        AppContext::Terminal => "terminal"@,
        AppContext::Email => "email"@,
        AppContext::Chat => "chat"@,
        AppContext::Notes => "notes"@,
        AppContext::Browser => "browser"@,
        AppContext::Document => "document"@,
        AppContext::Spreadsheet => "spreadsheet"@,
        AppContext::Meeting => "meeting"@,
        AppContext::Generic => "generic"@,
    }
}

impl AppContext {
    /// The lowercase name of the context, as sent to the services.
    pub fn as_str(&self) -> (s: &'static str)
        ensures
            s@ == context_label(*self),
    {
        match self {
            AppContext::Code => "code",
            AppContext::Terminal => "terminal",
            AppContext::Email => "email",
            AppContext::Chat => "chat",
            AppContext::Notes => "notes",
            AppContext::Browser => "browser",
            AppContext::Document => "document",
            AppContext::Spreadsheet => "spreadsheet",
            AppContext::Meeting => "meeting",
            AppContext::Generic => "generic",
        }
    }
}

impl Default for AppContext {
    /// An unknown application is `Generic`.
    fn default() -> (c: Self)
        ensures
            c == AppContext::Generic,
    {
        AppContext::Generic
    }
}

/// Each context has its own label.
pub proof fn lemma_context_labels_distinct(a: AppContext, b: AppContext)
    ensures
        a != b ==> context_label(a) != context_label(b),
{
    reveal_strlit("code");
    reveal_strlit("terminal");
    reveal_strlit("email");
    reveal_strlit("chat");
    reveal_strlit("notes");
    reveal_strlit("browser");
    reveal_strlit("document");
    reveal_strlit("spreadsheet");
    reveal_strlit("meeting");
    reveal_strlit("generic");
    assert("code"@.len() == 4 && "code"@[0] == 'c' && "code"@[1] == 'o');
    assert("terminal"@.len() == 8 && "terminal"@[0] == 't' && "terminal"@[1] == 'e');
    assert("email"@.len() == 5 && "email"@[0] == 'e' && "email"@[1] == 'm');
    assert("chat"@.len() == 4 && "chat"@[0] == 'c' && "chat"@[1] == 'h');
    assert("notes"@.len() == 5 && "notes"@[0] == 'n' && "notes"@[1] == 'o');
    assert("browser"@.len() == 7 && "browser"@[0] == 'b' && "browser"@[1] == 'r');
    assert("document"@.len() == 8 && "document"@[0] == 'd' && "document"@[1] == 'o');
    assert("spreadsheet"@.len() == 11 && "spreadsheet"@[0] == 's' && "spreadsheet"@[1] == 'p');
    assert("meeting"@.len() == 7 && "meeting"@[0] == 'm' && "meeting"@[1] == 'e');
    assert("generic"@.len() == 7 && "generic"@[0] == 'g' && "generic"@[1] == 'e');
}

/// Known code editors (lowercase process names).
pub open spec fn is_code_process(k: Seq<char>) -> bool {
    ||| k == "code"@
    ||| k == "code.exe"@
    ||| k == "cursor"@
    ||| k == "cursor.exe"@
    ||| k == "sublime_text"@
    ||| k == "sublime_text.exe"@
    ||| k == "atom"@
    ||| k == "atom.exe"@
    ||| k == "notepad++"@
    ||| k == "notepad++.exe"@
    ||| k == "pycharm64"@
    ||| k == "pycharm64.exe"@
    ||| k == "idea64"@
    ||| k == "idea64.exe"@
    ||| k == "clion64"@
    ||| k == "nvim"@
    ||| k == "vim"@
    ||| k == "emacs"@
    ||| k == "zed"@
}

/// Known terminals and shells.
pub open spec fn is_terminal_process(k: Seq<char>) -> bool {
    ||| k == "windowsterminal"@
    ||| k == "windowsterminal.exe"@
    ||| k == "cmd"@
    ||| k == "cmd.exe"@
    ||| k == "powershell"@
    ||| k == "powershell.exe"@
    ||| k == "pwsh"@
    ||| k == "pwsh.exe"@
    ||| k == "bash"@
    ||| k == "zsh"@
    ||| k == "fish"@
    ||| k == "alacritty"@
    ||| k == "kitty"@
    ||| k == "wezterm"@
    ||| k == "gnome-terminal"@
    ||| k == "konsole"@
    ||| k == "xterm"@
    ||| k == "iterm2"@
    ||| k == "hyper"@
}

/// Known email clients.
pub open spec fn is_email_process(k: Seq<char>) -> bool {
    ||| k == "thunderbird"@
    ||| k == "thunderbird.exe"@
    ||| k == "outlook"@
    ||| k == "outlook.exe"@
    ||| k == "mailspring"@
}

/// Known chat and messaging apps.
pub open spec fn is_chat_process(k: Seq<char>) -> bool {
    ||| k == "slack"@
    ||| k == "slack.exe"@
    ||| k == "discord"@
    ||| k == "discord.exe"@
    ||| k == "teams"@
    ||| k == "teams.exe"@
    ||| k == "msteams"@
    ||| k == "msteams.exe"@
    ||| k == "telegram-desktop"@
    ||| k == "telegram.exe"@
    ||| k == "signal"@
    ||| k == "signal.exe"@
    ||| k == "whatsapp"@
}

/// Known note-taking apps.
pub open spec fn is_notes_process(k: Seq<char>) -> bool {
    ||| k == "notion"@
    ||| k == "notion.exe"@
    ||| k == "obsidian"@
    ||| k == "obsidian.exe"@
    ||| k == "logseq"@
    ||| k == "logseq.exe"@
    ||| k == "roam"@
    ||| k == "notepad"@
    ||| k == "notepad.exe"@
    ||| k == "onenote"@
}

/// Known web browsers.
pub open spec fn is_browser_process(k: Seq<char>) -> bool {
    ||| k == "chrome"@
    ||| k == "chrome.exe"@
    ||| k == "firefox"@
    ||| k == "firefox.exe"@
    ||| k == "msedge"@
    ||| k == "msedge.exe"@
    ||| k == "brave"@
    ||| k == "brave.exe"@
    ||| k == "safari"@
    ||| k == "opera"@
}

/// Known document editors.
pub open spec fn is_document_process(k: Seq<char>) -> bool {
    ||| k == "winword"@
    ||| k == "winword.exe"@
    ||| k == "soffice"@
    ||| k == "soffice.exe"@
    ||| k == "wps"@
}

/// Known spreadsheet apps.
pub open spec fn is_spreadsheet_process(k: Seq<char>) -> bool {
    ||| k == "excel"@
    ||| k == "excel.exe"@
    ||| k == "scalc"@
}

/// Known video-conferencing apps.
pub open spec fn is_meeting_process(k: Seq<char>) -> bool {
    ||| k == "zoom"@
    ||| k == "zoom.exe"@
    ||| k == "meet"@
}

/// Enough of the spelling of the process names to tell apart any two of
/// them that are listed under different contexts: their lengths, and where
/// two have the same length, a character at which they differ.
proof fn lemma_process_names_spelled()
    ensures
        "alacritty"@.len() == 9 && "alacritty"@[0] == 'a',
        "atom"@.len() == 4 && "atom"@[0] == 'a',
        "atom.exe"@.len() == 8 && "atom.exe"@[0] == 'a',
        "bash"@.len() == 4 && "bash"@[0] == 'b',
        "brave"@.len() == 5 && "brave"@[0] == 'b',
        "brave.exe"@.len() == 9 && "brave.exe"@[0] == 'b',
        "chrome"@.len() == 6 && "chrome"@[0] == 'c' && "chrome"@[1] == 'h',
        "chrome.exe"@.len() == 10 && "chrome.exe"@[0] == 'c' && "chrome.exe"@[1] == 'h',
        "clion64"@.len() == 7 && "clion64"@[0] == 'c' && "clion64"@[1] == 'l',
        "cmd"@.len() == 3 && "cmd"@[0] == 'c',
        "cmd.exe"@.len() == 7 && "cmd.exe"@[0] == 'c' && "cmd.exe"@[1] == 'm',
        "code"@.len() == 4 && "code"@[0] == 'c',
        "code.exe"@.len() == 8 && "code.exe"@[0] == 'c',
        "cursor"@.len() == 6 && "cursor"@[0] == 'c' && "cursor"@[1] == 'u',
        "cursor.exe"@.len() == 10 && "cursor.exe"@[0] == 'c' && "cursor.exe"@[1] == 'u',
        "discord"@.len() == 7 && "discord"@[0] == 'd',
        "discord.exe"@.len() == 11 && "discord.exe"@[0] == 'd',
        "emacs"@.len() == 5 && "emacs"@[0] == 'e' && "emacs"@[1] == 'm',
        "excel"@.len() == 5 && "excel"@[0] == 'e' && "excel"@[1] == 'x',
        "excel.exe"@.len() == 9 && "excel.exe"@[0] == 'e',
        "firefox"@.len() == 7 && "firefox"@[0] == 'f',
        "firefox.exe"@.len() == 11 && "firefox.exe"@[0] == 'f',
        "fish"@.len() == 4 && "fish"@[0] == 'f',
        "gnome-terminal"@.len() == 14,
        "hyper"@.len() == 5 && "hyper"@[0] == 'h',
        "idea64"@.len() == 6 && "idea64"@[0] == 'i' && "idea64"@[1] == 'd',
        "idea64.exe"@.len() == 10 && "idea64.exe"@[0] == 'i',
        "iterm2"@.len() == 6 && "iterm2"@[0] == 'i' && "iterm2"@[1] == 't',
        "kitty"@.len() == 5 && "kitty"@[0] == 'k',
        "konsole"@.len() == 7 && "konsole"@[0] == 'k',
        "logseq"@.len() == 6 && "logseq"@[0] == 'l',
        "logseq.exe"@.len() == 10 && "logseq.exe"@[0] == 'l',
        "mailspring"@.len() == 10 && "mailspring"@[0] == 'm' && "mailspring"@[1] == 'a',
        "meet"@.len() == 4 && "meet"@[0] == 'm',
        "msedge"@.len() == 6 && "msedge"@[0] == 'm',
        "msedge.exe"@.len() == 10 && "msedge.exe"@[0] == 'm' && "msedge.exe"@[1] == 's',
        "msteams"@.len() == 7 && "msteams"@[0] == 'm',
        "msteams.exe"@.len() == 11 && "msteams.exe"@[0] == 'm',
        "notepad"@.len() == 7 && "notepad"@[0] == 'n',
        "notepad++"@.len() == 9 && "notepad++"@[0] == 'n',
        "notepad++.exe"@.len() == 13,
        "notepad.exe"@.len() == 11 && "notepad.exe"@[0] == 'n',
        "notion"@.len() == 6 && "notion"@[0] == 'n',
        "notion.exe"@.len() == 10 && "notion.exe"@[0] == 'n',
        "nvim"@.len() == 4 && "nvim"@[0] == 'n',
        "obsidian"@.len() == 8 && "obsidian"@[0] == 'o',
        "obsidian.exe"@.len() == 12 && "obsidian.exe"@[0] == 'o',
        "onenote"@.len() == 7 && "onenote"@[0] == 'o' && "onenote"@[1] == 'n',
        "opera"@.len() == 5 && "opera"@[0] == 'o',
        "outlook"@.len() == 7 && "outlook"@[0] == 'o' && "outlook"@[1] == 'u',
        "outlook.exe"@.len() == 11 && "outlook.exe"@[0] == 'o',
        "powershell"@.len() == 10 && "powershell"@[0] == 'p',
        "powershell.exe"@.len() == 14,
        "pwsh"@.len() == 4 && "pwsh"@[0] == 'p',
        "pwsh.exe"@.len() == 8 && "pwsh.exe"@[0] == 'p',
        "pycharm64"@.len() == 9 && "pycharm64"@[0] == 'p',
        "pycharm64.exe"@.len() == 13,
        "roam"@.len() == 4 && "roam"@[0] == 'r',
        "safari"@.len() == 6 && "safari"@[0] == 's' && "safari"@[1] == 'a',
        "scalc"@.len() == 5 && "scalc"@[0] == 's' && "scalc"@[1] == 'c',
        "signal"@.len() == 6 && "signal"@[0] == 's' && "signal"@[1] == 'i',
        "signal.exe"@.len() == 10 && "signal.exe"@[0] == 's',
        "slack"@.len() == 5 && "slack"@[0] == 's' && "slack"@[1] == 'l',
        "slack.exe"@.len() == 9 && "slack.exe"@[0] == 's',
        "soffice"@.len() == 7 && "soffice"@[0] == 's',
        "soffice.exe"@.len() == 11 && "soffice.exe"@[0] == 's',
        "sublime_text"@.len() == 12 && "sublime_text"@[0] == 's',
        "sublime_text.exe"@.len() == 16 && "sublime_text.exe"@[0] == 's',
        "teams"@.len() == 5 && "teams"@[0] == 't',
        "teams.exe"@.len() == 9 && "teams.exe"@[0] == 't',
        "telegram-desktop"@.len() == 16 && "telegram-desktop"@[0] == 't',
        "telegram.exe"@.len() == 12 && "telegram.exe"@[0] == 't',
        "thunderbird"@.len() == 11 && "thunderbird"@[0] == 't',
        "thunderbird.exe"@.len() == 15 && "thunderbird.exe"@[0] == 't',
        "vim"@.len() == 3 && "vim"@[0] == 'v',
        "wezterm"@.len() == 7 && "wezterm"@[0] == 'w' && "wezterm"@[1] == 'e',
        "whatsapp"@.len() == 8 && "whatsapp"@[0] == 'w',
        "windowsterminal"@.len() == 15 && "windowsterminal"@[0] == 'w',
        "windowsterminal.exe"@.len() == 19,
        "winword"@.len() == 7 && "winword"@[0] == 'w' && "winword"@[1] == 'i',
        "winword.exe"@.len() == 11 && "winword.exe"@[0] == 'w',
        "wps"@.len() == 3 && "wps"@[0] == 'w',
        "xterm"@.len() == 5 && "xterm"@[0] == 'x',
        "zed"@.len() == 3 && "zed"@[0] == 'z' && "zed"@[1] == 'e',
        "zoom"@.len() == 4 && "zoom"@[0] == 'z',
        "zoom.exe"@.len() == 8 && "zoom.exe"@[0] == 'z',
        "zsh"@.len() == 3 && "zsh"@[0] == 'z' && "zsh"@[1] == 's',
{
    reveal_strlit("alacritty");
    reveal_strlit("atom");
    reveal_strlit("atom.exe");
    reveal_strlit("bash");
    reveal_strlit("brave");
    reveal_strlit("brave.exe");
    reveal_strlit("chrome");
    reveal_strlit("chrome.exe");
    reveal_strlit("clion64");
    reveal_strlit("cmd");
    reveal_strlit("cmd.exe");
    reveal_strlit("code");
    reveal_strlit("code.exe");
    reveal_strlit("cursor");
    reveal_strlit("cursor.exe");
    reveal_strlit("discord");
    reveal_strlit("discord.exe");
    reveal_strlit("emacs");
    reveal_strlit("excel");
    reveal_strlit("excel.exe");
    reveal_strlit("firefox");
    reveal_strlit("firefox.exe");
    reveal_strlit("fish");
    reveal_strlit("gnome-terminal");
    reveal_strlit("hyper");
    reveal_strlit("idea64");
    reveal_strlit("idea64.exe");
    reveal_strlit("iterm2");
    reveal_strlit("kitty");
    reveal_strlit("konsole");
    reveal_strlit("logseq");
    reveal_strlit("logseq.exe");
    reveal_strlit("mailspring");
    reveal_strlit("meet");
    reveal_strlit("msedge");
    reveal_strlit("msedge.exe");
    reveal_strlit("msteams");
    reveal_strlit("msteams.exe");
    reveal_strlit("notepad");
    reveal_strlit("notepad++");
    reveal_strlit("notepad++.exe");
    reveal_strlit("notepad.exe");
    reveal_strlit("notion");
    reveal_strlit("notion.exe");
    reveal_strlit("nvim");
    reveal_strlit("obsidian");
    reveal_strlit("obsidian.exe");
    reveal_strlit("onenote");
    reveal_strlit("opera");
    reveal_strlit("outlook");
    reveal_strlit("outlook.exe");
    reveal_strlit("powershell");
    reveal_strlit("powershell.exe");
    reveal_strlit("pwsh");
    reveal_strlit("pwsh.exe");
    reveal_strlit("pycharm64");
    reveal_strlit("pycharm64.exe");
    reveal_strlit("roam");
    reveal_strlit("safari");
    reveal_strlit("scalc");
    reveal_strlit("signal");
    reveal_strlit("signal.exe");
    reveal_strlit("slack");
    reveal_strlit("slack.exe");
    reveal_strlit("soffice");
    reveal_strlit("soffice.exe");
    reveal_strlit("sublime_text");
    reveal_strlit("sublime_text.exe");
    reveal_strlit("teams");
    reveal_strlit("teams.exe");
    reveal_strlit("telegram-desktop");
    reveal_strlit("telegram.exe");
    reveal_strlit("thunderbird");
    reveal_strlit("thunderbird.exe");
    reveal_strlit("vim");
    reveal_strlit("wezterm");
    reveal_strlit("whatsapp");
    reveal_strlit("windowsterminal");
    reveal_strlit("windowsterminal.exe");
    reveal_strlit("winword");
    reveal_strlit("winword.exe");
    reveal_strlit("wps");
    reveal_strlit("xterm");
    reveal_strlit("zed");
    reveal_strlit("zoom");
    reveal_strlit("zoom.exe");
    reveal_strlit("zsh");
}

/// A name listed among the code apps is listed nowhere else.
proof fn lemma_only_code(k: Seq<char>)
    requires
        is_code_process(k),
    ensures
        !is_terminal_process(k),
        !is_email_process(k),
        !is_chat_process(k),
        !is_notes_process(k),
        !is_browser_process(k),
        !is_document_process(k),
        !is_spreadsheet_process(k),
        !is_meeting_process(k),
{
    lemma_process_names_spelled();
}

/// A name listed among the terminal apps is listed nowhere else.
proof fn lemma_only_terminal(k: Seq<char>)
    requires
        is_terminal_process(k),
    ensures
        !is_code_process(k),
        !is_email_process(k),
        !is_chat_process(k),
        !is_notes_process(k),
        !is_browser_process(k),
        !is_document_process(k),
        !is_spreadsheet_process(k),
        !is_meeting_process(k),
{
    lemma_process_names_spelled();
}

/// A name listed among the email apps is listed nowhere else.
proof fn lemma_only_email(k: Seq<char>)
    requires
        is_email_process(k),
    ensures
        !is_code_process(k),
        !is_terminal_process(k),
        !is_chat_process(k),
        !is_notes_process(k),
        !is_browser_process(k),
        !is_document_process(k),
        !is_spreadsheet_process(k),
        !is_meeting_process(k),
{
    lemma_process_names_spelled();
}

/// A name listed among the chat apps is listed nowhere else.
proof fn lemma_only_chat(k: Seq<char>)
    requires
        is_chat_process(k),
    ensures
        !is_code_process(k),
        !is_terminal_process(k),
        !is_email_process(k),
        !is_notes_process(k),
        !is_browser_process(k),
        !is_document_process(k),
        !is_spreadsheet_process(k),
        !is_meeting_process(k),
{
    lemma_process_names_spelled();
}

/// A name listed among the notes apps is listed nowhere else.
proof fn lemma_only_notes(k: Seq<char>)
    requires
        is_notes_process(k),
    ensures
        !is_code_process(k),
        !is_terminal_process(k),
        !is_email_process(k),
        !is_chat_process(k),
        !is_browser_process(k),
        !is_document_process(k),
        !is_spreadsheet_process(k),
        !is_meeting_process(k),
{
    lemma_process_names_spelled();
}

/// A name listed among the browser apps is listed nowhere else.
proof fn lemma_only_browser(k: Seq<char>)
    requires
        is_browser_process(k),
    ensures
        !is_code_process(k),
        !is_terminal_process(k),
        !is_email_process(k),
        !is_chat_process(k),
        !is_notes_process(k),
        !is_document_process(k),
        !is_spreadsheet_process(k),
        !is_meeting_process(k),
{
    lemma_process_names_spelled();
}

/// A name listed among the document apps is listed nowhere else.
proof fn lemma_only_document(k: Seq<char>)
    requires
        is_document_process(k),
    ensures
        !is_code_process(k),
        !is_terminal_process(k),
        !is_email_process(k),
        !is_chat_process(k),
        !is_notes_process(k),
        !is_browser_process(k),
        !is_spreadsheet_process(k),
        !is_meeting_process(k),
{
    lemma_process_names_spelled();
}

/// A name listed among the spreadsheet apps is listed nowhere else.
proof fn lemma_only_spreadsheet(k: Seq<char>)
    requires
        is_spreadsheet_process(k),
    ensures
        !is_code_process(k),
        !is_terminal_process(k),
        !is_email_process(k),
        !is_chat_process(k),
        !is_notes_process(k),
        !is_browser_process(k),
        !is_document_process(k),
        !is_meeting_process(k),
{
    lemma_process_names_spelled();
}

/// A name listed among the meeting apps is listed nowhere else.
proof fn lemma_only_meeting(k: Seq<char>)
    requires
        is_meeting_process(k),
    ensures
        !is_code_process(k),
        !is_terminal_process(k),
        !is_email_process(k),
        !is_chat_process(k),
        !is_notes_process(k),
        !is_browser_process(k),
        !is_document_process(k),
        !is_spreadsheet_process(k),
{
    lemma_process_names_spelled();
}

/// No process name is listed under two contexts: the process table is a map,
/// each listed name having exactly one context.
pub proof fn lemma_process_table_unambiguous(k: Seq<char>)
    ensures
        (is_code_process(k) as int) + (is_terminal_process(k) as int) + (is_email_process(k) as int)
            + (is_chat_process(k) as int) + (is_notes_process(k) as int) + (is_browser_process(k) as int)
            + (is_document_process(k) as int) + (is_spreadsheet_process(k) as int) + (
        is_meeting_process(k) as int) <= 1,
{
    if is_code_process(k) {
        lemma_only_code(k);
    }
    if is_terminal_process(k) {
        lemma_only_terminal(k);
    }
    if is_email_process(k) {
        lemma_only_email(k);
    }
    if is_chat_process(k) {
        lemma_only_chat(k);
    }
    if is_notes_process(k) {
        lemma_only_notes(k);
    }
    if is_browser_process(k) {
        lemma_only_browser(k);
    }
    if is_document_process(k) {
        lemma_only_document(k);
    }
    if is_spreadsheet_process(k) {
        lemma_only_spreadsheet(k);
    }
    if is_meeting_process(k) {
        lemma_only_meeting(k);
    }
}

/// The context of a lowercase process name: the group of the process table
/// that lists it, `Generic` when none does.
pub open spec fn process_context(k: Seq<char>) -> AppContext {
    if is_code_process(k) {
        AppContext::Code
    } else if is_terminal_process(k) {
        AppContext::Terminal
    } else if is_email_process(k) {
        AppContext::Email
    } else if is_chat_process(k) {
        AppContext::Chat
    } else if is_notes_process(k) {
        AppContext::Notes
    } else if is_browser_process(k) {
        AppContext::Browser
    } else if is_document_process(k) {
        AppContext::Document
    } else if is_spreadsheet_process(k) {
        AppContext::Spreadsheet
    } else if is_meeting_process(k) {
        AppContext::Meeting
    } else {
        AppContext::Generic
    }
}

fn code_process(k: &Vec<char>) -> (b: bool)
    ensures
        b == is_code_process(k@),
{
    eq_str(k, "code") || eq_str(k, "code.exe") || eq_str(k, "cursor") || eq_str(k, "cursor.exe")
        || eq_str(k, "sublime_text") || eq_str(k, "sublime_text.exe") || eq_str(k, "atom")
        || eq_str(k, "atom.exe") || eq_str(k, "notepad++") || eq_str(k, "notepad++.exe")
        || eq_str(k, "pycharm64") || eq_str(k, "pycharm64.exe") || eq_str(k, "idea64") || eq_str(
        k,
        "idea64.exe",
    ) || eq_str(k, "clion64") || eq_str(k, "nvim") || eq_str(k, "vim") || eq_str(k, "emacs")
        || eq_str(k, "zed")
}

fn terminal_process(k: &Vec<char>) -> (b: bool)
    ensures
        b == is_terminal_process(k@),
{
    eq_str(k, "windowsterminal") || eq_str(k, "windowsterminal.exe") || eq_str(k, "cmd")
        || eq_str(k, "cmd.exe") || eq_str(k, "powershell") || eq_str(k, "powershell.exe")
        || eq_str(k, "pwsh") || eq_str(k, "pwsh.exe") || eq_str(k, "bash") || eq_str(k, "zsh")
        || eq_str(k, "fish") || eq_str(k, "alacritty") || eq_str(k, "kitty") || eq_str(
        k,
        "wezterm",
    ) || eq_str(k, "gnome-terminal") || eq_str(k, "konsole") || eq_str(k, "xterm") || eq_str(
        k,
        "iterm2",
    ) || eq_str(k, "hyper")
}

fn email_process(k: &Vec<char>) -> (b: bool)
    ensures
        b == is_email_process(k@),
{
    eq_str(k, "thunderbird") || eq_str(k, "thunderbird.exe") || eq_str(k, "outlook") || eq_str(
        k,
        "outlook.exe",
    ) || eq_str(k, "mailspring")
}

fn chat_process(k: &Vec<char>) -> (b: bool)
    ensures
        b == is_chat_process(k@),
{
    eq_str(k, "slack") || eq_str(k, "slack.exe") || eq_str(k, "discord") || eq_str(
        k,
        "discord.exe",
    ) || eq_str(k, "teams") || eq_str(k, "teams.exe") || eq_str(k, "msteams") || eq_str(
        k,
        "msteams.exe",
    ) || eq_str(k, "telegram-desktop") || eq_str(k, "telegram.exe") || eq_str(k, "signal")
        || eq_str(k, "signal.exe") || eq_str(k, "whatsapp")
}

fn notes_process(k: &Vec<char>) -> (b: bool)
    ensures
        b == is_notes_process(k@),
{
    eq_str(k, "notion") || eq_str(k, "notion.exe") || eq_str(k, "obsidian") || eq_str(
        k,
        "obsidian.exe",
    ) || eq_str(k, "logseq") || eq_str(k, "logseq.exe") || eq_str(k, "roam") || eq_str(
        k,
        "notepad",
    ) || eq_str(k, "notepad.exe") || eq_str(k, "onenote")
}

fn browser_process(k: &Vec<char>) -> (b: bool)
    ensures
        b == is_browser_process(k@),
{
    eq_str(k, "chrome") || eq_str(k, "chrome.exe") || eq_str(k, "firefox") || eq_str(
        k,
        "firefox.exe",
    ) || eq_str(k, "msedge") || eq_str(k, "msedge.exe") || eq_str(k, "brave") || eq_str(
        k,
        "brave.exe",
    ) || eq_str(k, "safari") || eq_str(k, "opera")
}

fn document_process(k: &Vec<char>) -> (b: bool)
    ensures
        b == is_document_process(k@),
{
    eq_str(k, "winword") || eq_str(k, "winword.exe") || eq_str(k, "soffice") || eq_str(
        k,
        "soffice.exe",
    ) || eq_str(k, "wps")
}

fn spreadsheet_process(k: &Vec<char>) -> (b: bool)
    ensures
        b == is_spreadsheet_process(k@),
{
    eq_str(k, "excel") || eq_str(k, "excel.exe") || eq_str(k, "scalc")
}

fn meeting_process(k: &Vec<char>) -> (b: bool)
    ensures
        b == is_meeting_process(k@),
{
    eq_str(k, "zoom") || eq_str(k, "zoom.exe") || eq_str(k, "meet")
}

/// Looks up an already-lowercased process name in the process table.
pub fn context_for_process_key(key: &str) -> (c: AppContext)
    ensures
        c == process_context(key@),
{
    let k = chars_of(key);
    if code_process(&k) {
        AppContext::Code
    } else if terminal_process(&k) {
        AppContext::Terminal
    } else if email_process(&k) {
        AppContext::Email
    } else if chat_process(&k) {
        AppContext::Chat
    } else if notes_process(&k) {
        AppContext::Notes
    } else if browser_process(&k) {
        AppContext::Browser
    } else if document_process(&k) {
        AppContext::Document
    } else if spreadsheet_process(&k) {
        AppContext::Spreadsheet
    } else if meeting_process(&k) {
        AppContext::Meeting
    } else {
        AppContext::Generic
    }
}

/// Look up the context label for a given process name, case-insensitively.
/// Falls back to `AppContext::Generic` if unknown.
pub fn map_process(process_name: &str) -> (c: AppContext)
    ensures
        c == process_context(lowercase(process_name@)),
        is_ascii_text(process_name@) ==> c == process_context(ascii_lowercase(process_name@)),
{
    let key = to_lowercase(process_name);
    context_for_process_key(key.as_str())
}

/// The context that a (lowercase) browser window title points to.
pub open spec fn browser_title_context(t: Seq<char>) -> AppContext {
    if contains_seq(t, "gmail"@) || contains_seq(t, "mail.google"@) || contains_seq(
        t,
        "outlook.com"@,
    ) {
        AppContext::Email
    } else if contains_seq(t, "notion"@) {
        AppContext::Notes
    } else if contains_seq(t, "slack"@) {
        AppContext::Chat
    } else if contains_seq(t, "discord"@) {
        AppContext::Chat
    } else if contains_seq(t, "docs.google"@) || contains_seq(t, "document"@) {
        AppContext::Document
    } else if contains_seq(t, "sheets.google"@) || contains_seq(t, "spreadsheet"@) {
        AppContext::Spreadsheet
    } else if contains_seq(t, "meet.google"@) || contains_seq(t, "zoom.us"@) {
        AppContext::Meeting
    } else {
        AppContext::Browser
    }
}

/// Classifies an already-lowercased browser window title.
pub fn context_for_browser_title(title: &str) -> (c: AppContext)
    ensures
        c == browser_title_context(title@),
{
    let t = chars_of(title);
    if contains_lit(&t, "gmail") || contains_lit(&t, "mail.google") || contains_lit(
        &t,
        "outlook.com",
    ) {
        AppContext::Email
    } else if contains_lit(&t, "notion") {
        AppContext::Notes
    } else if contains_lit(&t, "slack") {
        AppContext::Chat
    } else if contains_lit(&t, "discord") {
        AppContext::Chat
    } else if contains_lit(&t, "docs.google") || contains_lit(&t, "document") {
        AppContext::Document
    } else if contains_lit(&t, "sheets.google") || contains_lit(&t, "spreadsheet") {
        AppContext::Spreadsheet
    } else if contains_lit(&t, "meet.google") || contains_lit(&t, "zoom.us") {
        AppContext::Meeting
    } else {
        AppContext::Browser
    }
}

/// Infer context from the window title when the process is a browser
/// (because Chrome hosts Gmail, Notion, and Slack all under the same process).
pub fn refine_browser_context(window_title: &str) -> (c: AppContext)
    ensures
        c == browser_title_context(lowercase(window_title@)),
        is_ascii_text(window_title@) ==> c == browser_title_context(ascii_lowercase(window_title@)),
{
    let title = to_lowercase(window_title);
    context_for_browser_title(title.as_str())
}

/// The context of an application from its already lowercased process name
/// and its window title: the process table decides, and a browser is refined
/// by its title.
pub open spec fn context_of_lowered_name(lowered_name: Seq<char>, window_title: Seq<char>) -> AppContext {
    let c = process_context(lowered_name);
    if c == AppContext::Browser {
        browser_title_context(lowercase(window_title))
    } else {
        c
    }
}

/// The context of an application from its process name and window title.
pub open spec fn app_context_of(process_name: Seq<char>, window_title: Seq<char>) -> AppContext {
    context_of_lowered_name(lowercase(process_name), window_title)
}

/// For an ASCII process name, the case of its letters does not change the
/// context: the name, its capitalised form and its lowercase form are all
/// looked up as the same key (`map_process` states its result over that key).
pub proof fn lemma_process_lookup_ignores_ascii_case(name: Seq<char>)
    requires
        is_ascii_text(name),
    ensures
        is_ascii_text(ascii_uppercase(name)),
        is_ascii_text(ascii_lowercase(name)),
        process_context(ascii_lowercase(ascii_uppercase(name))) == process_context(
            ascii_lowercase(name),
        ),
        process_context(ascii_lowercase(ascii_lowercase(name))) == process_context(
            ascii_lowercase(name),
        ),
{
    lemma_ascii_case_folding(name);
}

/// For an ASCII window title, the case of its letters does not change how a
/// browser is refined (`refine_browser_context` states its result over the
/// lowercase title).
pub proof fn lemma_title_refinement_ignores_ascii_case(title: Seq<char>)
    requires
        is_ascii_text(title),
    ensures
        is_ascii_text(ascii_uppercase(title)),
        is_ascii_text(ascii_lowercase(title)),
        browser_title_context(ascii_lowercase(ascii_uppercase(title))) == browser_title_context(
            ascii_lowercase(title),
        ),
        browser_title_context(ascii_lowercase(ascii_lowercase(title))) == browser_title_context(
            ascii_lowercase(title),
        ),
{
    lemma_ascii_case_folding(title);
}

/// For an ASCII process name, the snapshot is consistent with itself: looking
/// its stored (lowercase) name up again, and refining a browser by its stored
/// title, gives the context it holds.
pub proof fn lemma_detected_context_is_stable(name: Seq<char>, title: Seq<char>)
    requires
        is_ascii_text(name),
    ensures
        is_ascii_text(ascii_lowercase(name)),
        context_of_lowered_name(ascii_lowercase(ascii_lowercase(name)), title)
            == context_of_lowered_name(ascii_lowercase(name), title),
{
    lemma_ascii_case_folding(name);
}

/// Information about the currently active application.
#[derive(Debug, Clone)]
pub struct ActiveApp {
    /// OS process name (e.g. "code.exe" or "chrome")
    pub process_name: String,
    /// Window title text
    pub window_title: String,
    /// Resolved context label for prompt selection
    pub context: AppContext,
}

impl Default for ActiveApp {
    /// No process, no title, `Generic` context.
    fn default() -> (a: Self)
        ensures
            a.process_name@ == Seq::<char>::empty(),
            a.window_title@ == Seq::<char>::empty(),
            a.context == AppContext::Generic,
    {
        ActiveApp { process_name: String::new(), window_title: String::new(), context: AppContext::Generic }
    }
}

/// Resolves the context of the focused application.
pub struct ContextDetector;

impl ContextDetector {
    /// Builds the snapshot of the active application from the process name and
    /// window title that the platform reported; the process name is kept lowercase.
    pub fn detect(process_name: String, window_title: String) -> (a: ActiveApp)
        ensures
            a.process_name@ == lowercase(process_name@),
            is_ascii_text(process_name@) ==> a.process_name@ == ascii_lowercase(process_name@),
            a.window_title@ == window_title@,
            a.context == app_context_of(process_name@, window_title@),
            a.context == context_of_lowered_name(a.process_name@, a.window_title@),
            process_context(a.process_name@) != AppContext::Browser ==> a.context == process_context(
                a.process_name@,
            ),
            process_context(a.process_name@) == AppContext::Browser ==> a.context
                == browser_title_context(lowercase(window_title@)),
    {
        let lowered = to_lowercase(process_name.as_str());
        let mut context = context_for_process_key(lowered.as_str());
        if context == AppContext::Browser {
            context = refine_browser_context(window_title.as_str());
        }
        ActiveApp { process_name: lowered, window_title, context }
    }
}

/// Only a browser is refined by its window title: any other process keeps the
/// context that the process table gives its name, whatever the title says,
/// and a browser takes the context its (lowercased) title points to.
pub proof fn lemma_only_browsers_are_refined(lowered_name: Seq<char>, title: Seq<char>)
    ensures
        process_context(lowered_name) != AppContext::Browser ==> context_of_lowered_name(
            lowered_name,
            title,
        ) == process_context(lowered_name),
        process_context(lowered_name) == AppContext::Browser ==> context_of_lowered_name(
            lowered_name,
            title,
        ) == browser_title_context(lowercase(title)),
        process_context(lowercase(lowered_name)) != AppContext::Browser ==> app_context_of(
            lowered_name,
            title,
        ) == process_context(lowercase(lowered_name)),
{
}

/// How a browser's title refines its context: a title naming a web mail
/// (`gmail`, `mail.google`, `outlook.com`) is email whatever else it names;
/// Notion is notes and Slack or Discord chat unless a mail service is named;
/// a title that names none of the known services stays a browser.
pub proof fn lemma_title_keywords(t: Seq<char>)
    ensures
        contains_seq(t, "gmail"@) || contains_seq(t, "mail.google"@) || contains_seq(t, "outlook.com"@)
            ==> browser_title_context(t) == AppContext::Email,
        !(contains_seq(t, "gmail"@) || contains_seq(t, "mail.google"@) || contains_seq(t, "outlook.com"@))
            ==> (contains_seq(t, "notion"@) ==> browser_title_context(t) == AppContext::Notes),
        !(contains_seq(t, "gmail"@) || contains_seq(t, "mail.google"@) || contains_seq(t, "outlook.com"@)
            || contains_seq(t, "notion"@)) ==> ((contains_seq(t, "slack"@) || contains_seq(
            t,
            "discord"@,
        )) ==> browser_title_context(t) == AppContext::Chat),
        !(contains_seq(t, "gmail"@) || contains_seq(t, "mail.google"@) || contains_seq(t, "outlook.com"@)
            || contains_seq(t, "notion"@) || contains_seq(t, "slack"@) || contains_seq(t, "discord"@)
            || contains_seq(t, "docs.google"@) || contains_seq(t, "document"@) || contains_seq(
            t,
            "sheets.google"@,
        ) || contains_seq(t, "spreadsheet"@) || contains_seq(t, "meet.google"@) || contains_seq(
            t,
            "zoom.us"@,
        )) ==> browser_title_context(t) == AppContext::Browser,
{
}

} // verus!
