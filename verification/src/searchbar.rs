use vstd::prelude::*;

use crate::text::{is_white, lemma_trimmed_ends, lemma_trimmed_self, lemma_trimmed_twice, str_eq, trim, trimmed};

verus! {

/// A command typed into the search bar.
#[derive(Debug, Clone, Copy, PartialEq, Eq, Structural)]
pub enum SearchbarCommand {
    ToggleSudo,
    ConfigInit,
    ConfigLayoutInit,
    ConfigThemeInit,
    KeymapInit,
    Keybinds,
}

/// The command that a text names, with or without a leading `/`.
pub open spec fn command_named(t: Seq<char>) -> Option<SearchbarCommand> {
    if t == "sudo"@ || t == "/sudo"@ {
        Some(SearchbarCommand::ToggleSudo)
    } else if t == "config init"@ || t == "/config init"@ {
        Some(SearchbarCommand::ConfigInit)
    } else if t == "config layout init"@ || t == "/config layout init"@ {
        Some(SearchbarCommand::ConfigLayoutInit)
    } else if t == "config theme init"@ || t == "/config theme init"@ {
        Some(SearchbarCommand::ConfigThemeInit)
    } else if t == "keymap init"@ || t == "/keymap init"@ {
        Some(SearchbarCommand::KeymapInit)
    } else if t == "keybinds"@ || t == "/keybinds"@ {
        Some(SearchbarCommand::Keybinds)
    } else {
        None
    }
}

/// The command that the search-bar text names once trimmed, if any.
pub fn parse_command(input: &str) -> (r: Option<SearchbarCommand>)
    ensures
        r == command_named(trimmed(input@)),
{
    let t = trim(input);
    let t = t.as_str();
    if str_eq(t, "sudo") || str_eq(t, "/sudo") {
        Some(SearchbarCommand::ToggleSudo)
    } else if str_eq(t, "config init") || str_eq(t, "/config init") {
        Some(SearchbarCommand::ConfigInit)
    } else if str_eq(t, "config layout init") || str_eq(t, "/config layout init") {
        Some(SearchbarCommand::ConfigLayoutInit)
    } else if str_eq(t, "config theme init") || str_eq(t, "/config theme init") {
        Some(SearchbarCommand::ConfigThemeInit)
    } else if str_eq(t, "keymap init") || str_eq(t, "/keymap init") {
        Some(SearchbarCommand::KeymapInit)
    } else if str_eq(t, "keybinds") || str_eq(t, "/keybinds") {
        Some(SearchbarCommand::Keybinds)
    } else {
        None
    }
}

proof fn lemma_slash_prefix_eq(t: Seq<char>, l: Seq<char>)
    ensures
        (seq!['/'] + t == seq!['/'] + l) == (t == l),
{
    if seq!['/'] + t == seq!['/'] + l {
        assert(t =~= (seq!['/'] + t).drop_first());
        assert(l =~= (seq!['/'] + l).drop_first());
    }
}

/// White space around a command, and one leading `/`, do not matter: the
/// text trimmed once more names the same command, and so does the trimmed
/// text with a `/` put in front where it has none.
pub proof fn lemma_command_ignores_space_and_slash(s: Seq<char>)
    ensures
        command_named(trimmed(trimmed(s))) == command_named(trimmed(s)),
        (trimmed(s).len() == 0 || trimmed(s)[0] != '/') ==> command_named(trimmed(seq!['/'] + trimmed(s))) == command_named(trimmed(s)),
{
    lemma_trimmed_twice(s);
    let t = trimmed(s);
    if t.len() == 0 || t[0] != '/' {
        lemma_trimmed_ends(s);
        let u = seq!['/'] + t;
        assert(!is_white('/'));
        assert(u[0] == '/');
        assert(u.last() == if t.len() == 0 { '/' } else { t.last() });
        lemma_trimmed_self(u);
        reveal_strlit("sudo");
        reveal_strlit("/sudo");
        reveal_strlit("config init");
        reveal_strlit("/config init");
        reveal_strlit("config layout init");
        reveal_strlit("/config layout init");
        reveal_strlit("config theme init");
        reveal_strlit("/config theme init");
        reveal_strlit("keymap init");
        reveal_strlit("/keymap init");
        reveal_strlit("keybinds");
        reveal_strlit("/keybinds");
        assert("/sudo"@ =~= seq!['/'] + "sudo"@);
        assert("/config init"@ =~= seq!['/'] + "config init"@);
        assert("/config layout init"@ =~= seq!['/'] + "config layout init"@);
        assert("/config theme init"@ =~= seq!['/'] + "config theme init"@);
        assert("/keymap init"@ =~= seq!['/'] + "keymap init"@);
        assert("/keybinds"@ =~= seq!['/'] + "keybinds"@);
        lemma_slash_prefix_eq(t, "sudo"@);
        lemma_slash_prefix_eq(t, "config init"@);
        lemma_slash_prefix_eq(t, "config layout init"@);
        lemma_slash_prefix_eq(t, "config theme init"@);
        lemma_slash_prefix_eq(t, "keymap init"@);
        lemma_slash_prefix_eq(t, "keybinds"@);
        // `u` starts with `/`, so it names no command without one, and `t`
        // does not, so it names none with one.
        assert(u != "sudo"@ && u != "config init"@ && u != "config layout init"@ && u != "config theme init"@
            && u != "keymap init"@ && u != "keybinds"@) by {
            assert(u[0] == '/');
        }
        assert(t != "/sudo"@ && t != "/config init"@ && t != "/config layout init"@ && t != "/config theme init"@
            && t != "/keymap init"@ && t != "/keybinds"@) by {
            if t.len() > 0 {
                assert(t[0] != '/');
            }
        }
    }
}

} // verus!
