use flowlocal::context::{
    context_for_browser_title, context_for_process_key, map_process, refine_browser_context,
    ActiveApp, AppContext, ContextDetector,
};

#[test]
fn process_names_map_to_contexts() {
    assert_eq!(map_process("code"), AppContext::Code);
    assert_eq!(map_process("Code.EXE"), AppContext::Code);
    assert_eq!(map_process("WindowsTerminal.exe"), AppContext::Terminal);
    assert_eq!(map_process("thunderbird"), AppContext::Email);
    assert_eq!(map_process("Slack"), AppContext::Chat);
    assert_eq!(map_process("obsidian"), AppContext::Notes);
    assert_eq!(map_process("firefox"), AppContext::Browser);
    assert_eq!(map_process("WINWORD.EXE"), AppContext::Document);
    assert_eq!(map_process("scalc"), AppContext::Spreadsheet);
    assert_eq!(map_process("zoom"), AppContext::Meeting);
    assert_eq!(map_process("notepad++"), AppContext::Code);
    assert_eq!(map_process("notepad"), AppContext::Notes);
}

#[test]
fn unknown_processes_are_generic() {
    assert_eq!(map_process(""), AppContext::Generic);
    assert_eq!(map_process("gimp"), AppContext::Generic);
    assert_eq!(map_process(" code"), AppContext::Generic);
    assert_eq!(context_for_process_key("Code"), AppContext::Generic);
}

#[test]
fn browser_titles_refine_the_context() {
    assert_eq!(refine_browser_context("Inbox - Gmail"), AppContext::Email);
    assert_eq!(refine_browser_context("mail.google.com"), AppContext::Email);
    assert_eq!(refine_browser_context("Outlook.com"), AppContext::Email);
    assert_eq!(refine_browser_context("My page – Notion"), AppContext::Notes);
    assert_eq!(refine_browser_context("general | Slack"), AppContext::Chat);
    assert_eq!(refine_browser_context("Discord"), AppContext::Chat);
    assert_eq!(refine_browser_context("Untitled document - Google Docs"), AppContext::Document);
    assert_eq!(refine_browser_context("Budget spreadsheet"), AppContext::Spreadsheet);
    assert_eq!(refine_browser_context("meet.google.com/abc"), AppContext::Meeting);
    assert_eq!(refine_browser_context("zoom.us"), AppContext::Meeting);
    assert_eq!(refine_browser_context("Rust docs"), AppContext::Browser);
    assert_eq!(refine_browser_context(""), AppContext::Browser);
    // Email wins over the later checks.
    assert_eq!(context_for_browser_title("gmail and slack"), AppContext::Email);
    assert_eq!(context_for_browser_title("GMAIL"), AppContext::Browser);
}

#[test]
fn labels_are_lowercase_names() {
    let all = [
        (AppContext::Code, "code"),
        (AppContext::Terminal, "terminal"),
        (AppContext::Email, "email"),
        (AppContext::Chat, "chat"),
        (AppContext::Notes, "notes"),
        (AppContext::Browser, "browser"),
        (AppContext::Document, "document"),
        (AppContext::Spreadsheet, "spreadsheet"),
        (AppContext::Meeting, "meeting"),
        (AppContext::Generic, "generic"),
    ];
    for (c, s) in all.iter() {
        assert_eq!(c.as_str(), *s);
    }
    assert_eq!(AppContext::default(), AppContext::Generic);
}

#[test]
fn detection_refines_browsers_only() {
    let a = ContextDetector::detect("chrome".to_string(), "Inbox - Gmail".to_string());
    assert_eq!(a.context, AppContext::Email);
    assert_eq!(a.process_name, "chrome");
    assert_eq!(a.window_title, "Inbox - Gmail");
    let b = ContextDetector::detect("slack".to_string(), "Inbox - Gmail".to_string());
    assert_eq!(b.context, AppContext::Chat);
    let c = ContextDetector::detect("brave".to_string(), "news".to_string());
    assert_eq!(c.context, AppContext::Browser);
    let d = ActiveApp::default();
    assert_eq!(d.context, AppContext::Generic);
    assert!(d.process_name.is_empty() && d.window_title.is_empty());
}

#[test]
fn every_listed_process_has_its_context() {
    let table = [
        ("code", AppContext::Code),
        ("code.exe", AppContext::Code),
        ("cursor", AppContext::Code),
        ("cursor.exe", AppContext::Code),
        ("sublime_text", AppContext::Code),
        ("sublime_text.exe", AppContext::Code),
        ("atom", AppContext::Code),
        ("atom.exe", AppContext::Code),
        ("notepad++", AppContext::Code),
        ("notepad++.exe", AppContext::Code),
        ("pycharm64", AppContext::Code),
        ("pycharm64.exe", AppContext::Code),
        ("idea64", AppContext::Code),
        ("idea64.exe", AppContext::Code),
        ("clion64", AppContext::Code),
        ("nvim", AppContext::Code),
        ("vim", AppContext::Code),
        ("emacs", AppContext::Code),
        ("zed", AppContext::Code),
        ("windowsterminal", AppContext::Terminal),
        ("windowsterminal.exe", AppContext::Terminal),
        ("cmd", AppContext::Terminal),
        ("cmd.exe", AppContext::Terminal),
        ("powershell", AppContext::Terminal),
        ("powershell.exe", AppContext::Terminal),
        ("pwsh", AppContext::Terminal),
        ("pwsh.exe", AppContext::Terminal),
        ("bash", AppContext::Terminal),
        ("zsh", AppContext::Terminal),
        ("fish", AppContext::Terminal),
        ("alacritty", AppContext::Terminal),
        ("kitty", AppContext::Terminal),
        ("wezterm", AppContext::Terminal),
        ("gnome-terminal", AppContext::Terminal),
        ("konsole", AppContext::Terminal),
        ("xterm", AppContext::Terminal),
        ("iterm2", AppContext::Terminal),
        ("hyper", AppContext::Terminal),
        ("thunderbird", AppContext::Email),
        ("thunderbird.exe", AppContext::Email),
        ("outlook", AppContext::Email),
        ("outlook.exe", AppContext::Email),
        ("mailspring", AppContext::Email),
        ("slack", AppContext::Chat),
        ("slack.exe", AppContext::Chat),
        ("discord", AppContext::Chat),
        ("discord.exe", AppContext::Chat),
        ("teams", AppContext::Chat),
        ("teams.exe", AppContext::Chat),
        ("msteams", AppContext::Chat),
        ("msteams.exe", AppContext::Chat),
        ("telegram-desktop", AppContext::Chat),
        ("telegram.exe", AppContext::Chat),
        ("signal", AppContext::Chat),
        ("signal.exe", AppContext::Chat),
        ("whatsapp", AppContext::Chat),
        ("notion", AppContext::Notes),
        ("notion.exe", AppContext::Notes),
        ("obsidian", AppContext::Notes),
        ("obsidian.exe", AppContext::Notes),
        ("logseq", AppContext::Notes),
        ("logseq.exe", AppContext::Notes),
        ("roam", AppContext::Notes),
        ("notepad", AppContext::Notes),
        ("notepad.exe", AppContext::Notes),
        ("onenote", AppContext::Notes),
        ("chrome", AppContext::Browser),
        ("chrome.exe", AppContext::Browser),
        ("firefox", AppContext::Browser),
        ("firefox.exe", AppContext::Browser),
        ("msedge", AppContext::Browser),
        ("msedge.exe", AppContext::Browser),
        ("brave", AppContext::Browser),
        ("brave.exe", AppContext::Browser),
        ("safari", AppContext::Browser),
        ("opera", AppContext::Browser),
        ("winword", AppContext::Document),
        ("winword.exe", AppContext::Document),
        ("soffice", AppContext::Document),
        ("soffice.exe", AppContext::Document),
        ("wps", AppContext::Document),
        ("excel", AppContext::Spreadsheet),
        ("excel.exe", AppContext::Spreadsheet),
        ("scalc", AppContext::Spreadsheet),
        ("zoom", AppContext::Meeting),
        ("zoom.exe", AppContext::Meeting),
        ("meet", AppContext::Meeting),
    ];
    assert_eq!(table.len(), 87);
    for (name, ctx) in table.iter() {
        assert_eq!(map_process(name), *ctx, "{}", name);
        assert_eq!(map_process(&name.to_uppercase()), *ctx, "{}", name);
    }
}

#[test]
fn labels_are_distinct() {
    let all = [
        AppContext::Code, AppContext::Terminal, AppContext::Email, AppContext::Chat, AppContext::Notes,
        AppContext::Browser, AppContext::Document, AppContext::Spreadsheet, AppContext::Meeting, AppContext::Generic,
    ];
    for a in all.iter() {
        for b in all.iter() {
            assert_eq!(a == b, a.as_str() == b.as_str());
        }
    }
}

#[test]
fn detection_keeps_the_process_name_lowercase() {
    let a = ContextDetector::detect("CHROME.EXE".to_string(), "Team | SLACK".to_string());
    assert_eq!(a.process_name, "chrome.exe");
    assert_eq!(a.context, AppContext::Chat);
    assert_eq!(a.window_title, "Team | SLACK");
    let b = ContextDetector::detect("ÉDITEUR".to_string(), "".to_string());
    assert_eq!(b.process_name, "éditeur");
    assert_eq!(b.context, AppContext::Generic);
}
