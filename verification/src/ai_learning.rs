//! What the assistant learned from the command history, and how it is put
//! to use: the instructions that carry it to a provider, suggestions of
//! the next command from learned sequences, suggestions for a directory,
//! and a summary of the user's habits. Rates are given in whole percent.

use vstd::prelude::*;
use crate::ai::{message_views, CommandContext, Message, Role, TRANSLATE_INTRO};
use crate::text::{
    append_str, chars_of, contains_chars, contains_seq, decimal, join_with, starts_with, starts_with_chars, str_eq,
    string_from_chars, string_views, trim, trim_chars, u64_to_decimal,
};

verus! {

/// A frequently used command, with how often it succeeded.
#[derive(Debug, Clone)]
pub struct FrequentCommand {
    pub command: String,
    pub count: usize,
    pub success_percent: u32,
}

/// A modern alternative the user prefers to a standard command.
#[derive(Debug, Clone)]
pub struct CommandPreference {
    pub standard: String,
    pub preferred: String,
    /// How often the alternative is used instead
    pub percent: u32,
}

/// A sequence of commands that often run one after the other.
#[derive(Debug, Clone)]
pub struct CommandPatternInfo {
    pub sequence: Vec<String>,
    pub frequency: usize,
    /// How confident the sequence is
    pub percent: u32,
}

/// What was learned from the history.
#[derive(Debug, Clone)]
pub struct LearningContext {
    pub frequent_commands: Vec<FrequentCommand>,
    pub preferences: Vec<CommandPreference>,
    pub patterns: Vec<CommandPatternInfo>,
    /// For each directory (each once), its most used commands.
    pub directory_commands: Vec<(String, Vec<String>)>,
}

impl Default for LearningContext {
    /// Nothing learned.
    fn default() -> (c: Self)
        ensures
            c.frequent_commands@.len() == 0,
            c.preferences@.len() == 0,
            c.patterns@.len() == 0,
            c.directory_commands@.len() == 0,
    {
        LearningContext {
            frequent_commands: Vec::new(),
            preferences: Vec::new(),
            patterns: Vec::new(),
            directory_commands: Vec::new(),
        }
    }
}

/// The texts of `parts`, one after the other.
pub open spec fn concat(parts: Seq<Seq<char>>) -> Seq<char>
    decreases parts.len(),
{
    if parts.len() == 0 {
        Seq::empty()
    } else {
        concat(parts.drop_last()) + parts.last()
    }
}

/// A titled block of lines, ending with an empty line; nothing when there
/// are no lines.
pub open spec fn section(title: Seq<char>, lines: Seq<Seq<char>>) -> Seq<char> {
    if lines.len() == 0 {
        Seq::empty()
    } else {
        title + concat(lines) + "\n"@
    }
}

/// At most the first `n` of `s`.
pub open spec fn first_n<A>(s: Seq<A>, n: int) -> Seq<A> {
    s.take(vstd::math::min(n, s.len() as int))
}

pub open spec fn preference_line(p: CommandPreference) -> Seq<char> {
    "- Prefers '"@ + p.preferred@ + "' over '"@ + p.standard@ + "' ("@ + decimal(p.percent as nat)
        + "% of the time)\n"@
}

pub open spec fn frequent_line(c: FrequentCommand) -> Seq<char> {
    "- "@ + c.command@ + " (used "@ + decimal(c.count as nat) + " times, "@ + decimal(c.success_percent as nat)
        + "% success rate)\n"@
}

pub open spec fn item_line(cmd: Seq<char>) -> Seq<char> {
    "- "@ + cmd + "\n"@
}

pub open spec fn pattern_line(p: CommandPatternInfo) -> Seq<char> {
    "- "@ + join_with(string_views(p.sequence@), " → "@) + " (seen "@ + decimal(p.frequency as nat) + " times)\n"@
}

/// The commands learned for `dir`: those of the first entry for it.
pub open spec fn dir_lookup(pairs: Seq<(String, Vec<String>)>, dir: Seq<char>) -> Option<Seq<String>>
    decreases pairs.len(),
{
    if pairs.len() == 0 {
        None
    } else if pairs[0].0@ == dir {
        Some(pairs[0].1@)
    } else {
        dir_lookup(pairs.drop_first(), dir)
    }
}

/// The rules and examples that end the instructions.
pub const LEARNED_RULES: &'static str = "Rules:\n1. Output ONLY the command, no explanation\n2. Use user's preferred commands when possible\n3. Consider the directory context\n4. Use safe, standard commands\n5. If dangerous, prefix with \"# WARNING: \"\n\nExamples:\n\"show files bigger than 1GB\" -> find . -size +1G -type f\n\"delete node modules\" -> rm -rf node_modules\n\"what's using port 3000\" -> lsof -i :3000\n";

/// The block about the commands used in the current directory.
pub open spec fn directory_section(l: LearningContext, cwd: Seq<char>) -> Seq<char> {
    match dir_lookup(l.directory_commands@, cwd) {
        Some(cmds) => section(
            "COMMANDS COMMONLY USED IN THIS DIRECTORY:\n"@,
            first_n(string_views(cmds), 5).map_values(|c: Seq<char>| item_line(c)),
        ),
        None => Seq::empty(),
    }
}

/// The instructions for translating a request in `ctx`, carrying what was
/// learned: preferences, the ten most common commands, five commands of
/// the directory and five sequences.
pub open spec fn learning_prompt(l: LearningContext, ctx: CommandContext) -> Seq<char> {
    TRANSLATE_INTRO@ + ctx.cwd@ + "\nShell: "@ + ctx.shell@ + "\nOS: "@ + ctx.os@ + "\n\n"@ + section(
        "USER PREFERENCES (always use these when applicable):\n"@,
        l.preferences@.map_values(|p: CommandPreference| preference_line(p)),
    ) + section(
        "USER'S MOST COMMON COMMANDS:\n"@,
        first_n(l.frequent_commands@, 10).map_values(|c: FrequentCommand| frequent_line(c)),
    ) + directory_section(l, ctx.cwd@) + section(
        "LEARNED COMMAND PATTERNS:\n"@,
        first_n(l.patterns@, 5).map_values(|p: CommandPatternInfo| pattern_line(p)),
    ) + LEARNED_RULES@
}

/// `parts` joined with `sep`.
fn join_strings(parts: &[String], sep: &str) -> (s: String)
    ensures
        s@ == join_with(string_views(parts@), sep@),
{
    let ghost pv = string_views(parts@);
    let mut s = String::new();
    let mut i: usize = 0;
    while i < parts.len()
        invariant
            i <= parts@.len(),
            pv == string_views(parts@),
            s@ == join_with(pv.take(i as int), sep@),
        decreases parts@.len() - i,
    {
        let ghost before = s@;
        if i > 0 {
            append_str(&mut s, sep);
        }
        append_str(&mut s, parts[i].as_str());
        proof {
            assert(pv.take(i + 1).drop_last() =~= pv.take(i as int));
            if i == 0 {
                assert(before =~= Seq::<char>::empty());
            }
        }
        i = i + 1;
    }
    assert(pv.take(parts@.len() as int) =~= pv);
    s
}

/// Appends a titled block of `lines` to `s`, if there are any.
fn append_section(s: &mut String, title: &str, lines: &Vec<String>)
    ensures
        final(s)@ == old(s)@ + section(title@, string_views(lines@)),
{
    if lines.len() == 0 {
        assert(old(s)@ + section(title@, string_views(lines@)) =~= old(s)@);
        return;
    }
    let ghost start = s@;
    let ghost lv = string_views(lines@);
    append_str(s, title);
    let mut i: usize = 0;
    while i < lines.len()
        invariant
            i <= lines@.len(),
            lv == string_views(lines@),
            s@ == start + title@ + concat(lv.take(i as int)),
        decreases lines@.len() - i,
    {
        append_str(s, lines[i].as_str());
        proof {
            assert(lv.take(i + 1).drop_last() =~= lv.take(i as int));
        }
        i = i + 1;
        assert(s@ =~= start + title@ + concat(lv.take(i as int)));
    }
    assert(lv.take(lines@.len() as int) =~= lv);
    append_str(s, "\n");
}

fn preference_lines(prefs: &Vec<CommandPreference>) -> (r: Vec<String>)
    ensures
        string_views(r@) == prefs@.map_values(|p: CommandPreference| preference_line(p)),
{
    let mut r: Vec<String> = Vec::new();
    let mut i: usize = 0;
    while i < prefs.len()
        invariant
            i <= prefs@.len(),
            string_views(r@) == prefs@.take(i as int).map_values(|p: CommandPreference| preference_line(p)),
        decreases prefs@.len() - i,
    {
        let p = &prefs[i];
        let mut line = "- Prefers '".to_owned();
        append_str(&mut line, p.preferred.as_str());
        append_str(&mut line, "' over '");
        append_str(&mut line, p.standard.as_str());
        append_str(&mut line, "' (");
        append_str(&mut line, u64_to_decimal(p.percent as u64).as_str());
        append_str(&mut line, "% of the time)\n");
        let ghost before = r@;
        r.push(line);
        proof {
            assert(string_views(r@) =~= string_views(before).push(line@));
            assert(prefs@.take(i + 1) =~= prefs@.take(i as int).push(prefs@[i as int]));
        }
        i = i + 1;
    }
    assert(prefs@.take(prefs@.len() as int) =~= prefs@);
    r
}

fn frequent_lines(cmds: &Vec<FrequentCommand>, n: usize) -> (r: Vec<String>)
    ensures
        string_views(r@) == first_n(cmds@, n as int).map_values(|c: FrequentCommand| frequent_line(c)),
{
    let mut r: Vec<String> = Vec::new();
    let mut i: usize = 0;
    while i < cmds.len() && i < n
        invariant
            i <= cmds@.len(),
            i <= n,
            string_views(r@) == cmds@.take(i as int).map_values(|c: FrequentCommand| frequent_line(c)),
        decreases cmds@.len() - i,
    {
        let c = &cmds[i];
        let mut line = "- ".to_owned();
        append_str(&mut line, c.command.as_str());
        append_str(&mut line, " (used ");
        append_str(&mut line, u64_to_decimal(c.count as u64).as_str());
        append_str(&mut line, " times, ");
        append_str(&mut line, u64_to_decimal(c.success_percent as u64).as_str());
        append_str(&mut line, "% success rate)\n");
        let ghost before = r@;
        r.push(line);
        proof {
            assert(string_views(r@) =~= string_views(before).push(line@));
            assert(cmds@.take(i + 1) =~= cmds@.take(i as int).push(cmds@[i as int]));
        }
        i = i + 1;
    }
    r
}

fn item_lines(cmds: &Vec<String>, n: usize) -> (r: Vec<String>)
    ensures
        string_views(r@) == first_n(string_views(cmds@), n as int).map_values(|c: Seq<char>| item_line(c)),
{
    let ghost cv = string_views(cmds@);
    let mut r: Vec<String> = Vec::new();
    let mut i: usize = 0;
    while i < cmds.len() && i < n
        invariant
            i <= cmds@.len(),
            i <= n,
            cv == string_views(cmds@),
            string_views(r@) == cv.take(i as int).map_values(|c: Seq<char>| item_line(c)),
        decreases cmds@.len() - i,
    {
        let mut line = "- ".to_owned();
        append_str(&mut line, cmds[i].as_str());
        append_str(&mut line, "\n");
        let ghost before = r@;
        r.push(line);
        proof {
            assert(string_views(r@) =~= string_views(before).push(line@));
            assert(cv.take(i + 1) =~= cv.take(i as int).push(cv[i as int]));
        }
        i = i + 1;
    }
    r
}

fn pattern_lines(patterns: &Vec<CommandPatternInfo>, n: usize) -> (r: Vec<String>)
    ensures
        string_views(r@) == first_n(patterns@, n as int).map_values(|p: CommandPatternInfo| pattern_line(p)),
{
    let mut r: Vec<String> = Vec::new();
    let mut i: usize = 0;
    while i < patterns.len() && i < n
        invariant
            i <= patterns@.len(),
            i <= n,
            string_views(r@) == patterns@.take(i as int).map_values(|p: CommandPatternInfo| pattern_line(p)),
        decreases patterns@.len() - i,
    {
        let p = &patterns[i];
        let mut line = "- ".to_owned();
        append_str(&mut line, join_strings(p.sequence.as_slice(), " → ").as_str());
        append_str(&mut line, " (seen ");
        append_str(&mut line, u64_to_decimal(p.frequency as u64).as_str());
        append_str(&mut line, " times)\n");
        let ghost before = r@;
        r.push(line);
        proof {
            assert(string_views(r@) =~= string_views(before).push(line@));
            assert(patterns@.take(i + 1) =~= patterns@.take(i as int).push(patterns@[i as int]));
        }
        i = i + 1;
    }
    r
}

/// The commands learned for `dir`, if any.
pub fn directory_commands_for<'a>(l: &'a LearningContext, dir: &str) -> (r: Option<&'a Vec<String>>)
    ensures
        match r {
            Some(v) => dir_lookup(l.directory_commands@, dir@) == Some(v@),
            None => dir_lookup(l.directory_commands@, dir@) is None,
        },
{
    let pairs = &l.directory_commands;
    let mut i: usize = 0;
    assert(pairs@.skip(0) =~= pairs@);
    while i < pairs.len()
        invariant
            i <= pairs@.len(),
            pairs@ == l.directory_commands@,
            dir_lookup(pairs@, dir@) == dir_lookup(pairs@.skip(i as int), dir@),
        decreases pairs@.len() - i,
    {
        assert(pairs@.skip(i as int).drop_first() =~= pairs@.skip(i + 1));
        assert(pairs@.skip(i as int)[0] == pairs@[i as int]);
        if str_eq(pairs[i].0.as_str(), dir) {
            let found = &pairs[i].1;
            assert(dir_lookup(pairs@.skip(i as int), dir@) == Some(pairs@[i as int].1@));
            return Some(found);
        }
        i = i + 1;
    }
    None
}

/// The instructions for translating a request in `ctx` with what was
/// learned.
pub fn learning_prompt_text(l: &LearningContext, ctx: &CommandContext) -> (s: String)
    ensures
        s@ == learning_prompt(*l, *ctx),
{
    let mut p = TRANSLATE_INTRO.to_owned();
    append_str(&mut p, ctx.cwd.as_str());
    append_str(&mut p, "\nShell: ");
    append_str(&mut p, ctx.shell.as_str());
    append_str(&mut p, "\nOS: ");
    append_str(&mut p, ctx.os.as_str());
    append_str(&mut p, "\n\n");
    let prefs = preference_lines(&l.preferences);
    append_section(&mut p, "USER PREFERENCES (always use these when applicable):\n", &prefs);
    let freq = frequent_lines(&l.frequent_commands, 10);
    append_section(&mut p, "USER'S MOST COMMON COMMANDS:\n", &freq);
    let ghost before_dir = p@;
    match directory_commands_for(l, ctx.cwd.as_str()) {
        Some(cmds) => {
            let lines = item_lines(cmds, 5);
            append_section(&mut p, "COMMANDS COMMONLY USED IN THIS DIRECTORY:\n", &lines);
        },
        None => {
            assert(p@ =~= before_dir + directory_section(*l, ctx.cwd@));
        },
    }
    let pats = pattern_lines(&l.patterns, 5);
    append_section(&mut p, "LEARNED COMMAND PATTERNS:\n", &pats);
    append_str(&mut p, LEARNED_RULES);
    p
}

/// The messages that ask for `input` to be translated with what was
/// learned: the instructions, then the request.
pub fn learning_messages(input: &str, l: &LearningContext, ctx: &CommandContext) -> (r: Vec<Message>)
    ensures
        message_views(r@) == seq![(Role::System, learning_prompt(*l, *ctx)), (Role::User, input@)],
{
    let prompt = learning_prompt_text(l, ctx);
    let r = vec![Message { role: Role::System, content: prompt }, Message { role: Role::User, content: input.to_owned() }];
    assert(message_views(r@) =~= seq![(Role::System, learning_prompt(*l, *ctx)), (Role::User, input@)]);
    r
}

/// A command read from an answer to the learned instructions: the answer
/// trimmed, and whether it removes files or carries the warning mark.
pub fn read_learned_answer(content: &str) -> (r: (String, bool))
    ensures
        r.0@ == trim(content@),
        r.1 == (contains_seq(content@, "rm "@) || contains_seq(content@, "# WARNING"@)),
{
    let c = chars_of(content);
    let t = trim_chars(c.as_slice());
    let rm = chars_of("rm ");
    let w = chars_of("# WARNING");
    (string_from_chars(t.as_slice()), contains_chars(c.as_slice(), rm.as_slice()) || contains_chars(c.as_slice(), w.as_slice()))
}

/// The suggestion a learned sequence makes after `current`, when it starts
/// with the sequence's first command and has a second: that command, and
/// why.
pub open spec fn pattern_suggestion(p: CommandPatternInfo, current: Seq<char>) -> Option<(Seq<char>, Seq<char>)> {
    let s = string_views(p.sequence@);
    if s.len() >= 2 && starts_with(current, s[0]) {
        Some((s[1], "Often follows "@ + s[0] + " ("@ + decimal(p.percent as nat) + "% of the time)"@))
    } else {
        None
    }
}

/// The suggestions of the learned sequences after `current`, in order,
/// each with the index of its sequence.
pub open spec fn pattern_suggestions_of(patterns: Seq<CommandPatternInfo>, current: Seq<char>) -> Seq<(int, Seq<char>, Seq<char>)>
    decreases patterns.len(),
{
    if patterns.len() == 0 {
        Seq::empty()
    } else {
        let prev = pattern_suggestions_of(patterns.drop_last(), current);
        match pattern_suggestion(patterns.last(), current) {
            Some((next, why)) => prev.push(((patterns.len() - 1) as int, next, why)),
            None => prev,
        }
    }
}

/// The suggestions of the learned sequences after `current`: the index of
/// the sequence, the next command and why.
pub fn pattern_suggestions(patterns: &Vec<CommandPatternInfo>, current: &str) -> (r: Vec<(usize, String, String)>)
    ensures
        r@.map_values(|x: (usize, String, String)| (x.0 as int, x.1@, x.2@)) == pattern_suggestions_of(
            patterns@,
            current@,
        ),
{
    let cur = chars_of(current);
    let mut r: Vec<(usize, String, String)> = Vec::new();
    let mut i: usize = 0;
    while i < patterns.len()
        invariant
            i <= patterns@.len(),
            cur@ == current@,
            r@.map_values(|x: (usize, String, String)| (x.0 as int, x.1@, x.2@)) == pattern_suggestions_of(
                patterns@.take(i as int),
                current@,
            ),
        decreases patterns@.len() - i,
    {
        let p = &patterns[i];
        let ghost before = r@;
        proof {
            assert(patterns@.take(i + 1).drop_last() =~= patterns@.take(i as int));
        }
        if p.sequence.len() >= 2 {
            let first = chars_of(p.sequence[0].as_str());
            if starts_with_chars(cur.as_slice(), first.as_slice()) {
                let mut why = "Often follows ".to_owned();
                append_str(&mut why, p.sequence[0].as_str());
                append_str(&mut why, " (");
                append_str(&mut why, u64_to_decimal(p.percent as u64).as_str());
                append_str(&mut why, "% of the time)");
                let next = p.sequence[1].clone();
                r.push((i, next, why));
                proof {
                    assert(string_views(p.sequence@)[0] == p.sequence@[0]@);
                    assert(string_views(p.sequence@)[1] == p.sequence@[1]@);
                    assert(r@.map_values(|x: (usize, String, String)| (x.0 as int, x.1@, x.2@)) =~= before.map_values(
                        |x: (usize, String, String)| (x.0 as int, x.1@, x.2@),
                    ).push((i as int, next@, why@)));
                }
            } else {
                proof {
                    assert(string_views(p.sequence@)[0] == p.sequence@[0]@);
                }
            }
        }
        i = i + 1;
    }
    assert(patterns@.take(patterns@.len() as int) =~= patterns@);
    r
}

/// The messages that ask a provider for the command likely to follow
/// `current`.
pub fn next_command_messages(current: &str) -> (r: Vec<Message>)
    ensures
        message_views(r@) == seq![
            (Role::System, "You are a shell command expert. Suggest logical next commands."@),
            (
                Role::User,
                "User just executed: "@ + current@
                    + "\n\nBased on common command sequences, what command might they want to run next? Output only the command."@,
            ),
        ],
{
    let mut q = "User just executed: ".to_owned();
    append_str(&mut q, current);
    append_str(
        &mut q,
        "\n\nBased on common command sequences, what command might they want to run next? Output only the command.",
    );
    let r = vec![
        Message { role: Role::System, content: "You are a shell command expert. Suggest logical next commands.".to_owned() },
        Message { role: Role::User, content: q },
    ];
    assert(message_views(r@) =~= seq![
        (Role::System, "You are a shell command expert. Suggest logical next commands."@),
        (
            Role::User,
            "User just executed: "@ + current@
                + "\n\nBased on common command sequences, what command might they want to run next? Output only the command."@,
        ),
    ]);
    r
}

/// The commands suggested in `dir`: at most `limit` of those learned for
/// it, each with why.
pub fn directory_suggestions(l: &LearningContext, dir: &str, limit: usize) -> (r: Vec<(String, String)>)
    ensures
        match dir_lookup(l.directory_commands@, dir@) {
            Some(cmds) => r@.map_values(|x: (String, String)| (x.0@, x.1@)) == first_n(string_views(cmds), limit as int).map_values(
                |c: Seq<char>| (c, "Frequently used in "@ + dir@),
            ),
            None => r@.len() == 0,
        },
{
    let mut r: Vec<(String, String)> = Vec::new();
    match directory_commands_for(l, dir) {
        Some(cmds) => {
            let ghost cv = string_views(cmds@);
            let mut i: usize = 0;
            while i < cmds.len() && i < limit
                invariant
                    i <= cmds@.len(),
                    i <= limit,
                    cv == string_views(cmds@),
                    r@.map_values(|x: (String, String)| (x.0@, x.1@)) == cv.take(i as int).map_values(
                        |c: Seq<char>| (c, "Frequently used in "@ + dir@),
                    ),
                decreases cmds@.len() - i,
            {
                let mut why = "Frequently used in ".to_owned();
                append_str(&mut why, dir);
                let ghost before = r@;
                r.push((cmds[i].clone(), why));
                proof {
                    assert(r@.map_values(|x: (String, String)| (x.0@, x.1@)) =~= before.map_values(
                        |x: (String, String)| (x.0@, x.1@),
                    ).push((cv[i as int], "Frequently used in "@ + dir@)));
                    assert(cv.take(i + 1) =~= cv.take(i as int).push(cv[i as int]));
                }
                i = i + 1;
            }
        },
        None => {},
    }
    r
}

/// The messages that ask why `command` was suggested for `reason`.
pub fn explain_suggestion_messages(command: &str, reason: &str) -> (r: Vec<Message>)
    ensures
        message_views(r@) == seq![
            (Role::System, "Explain shell command suggestions clearly and concisely."@),
            (
                Role::User,
                "I was suggested the command '"@ + command@ + "' because: "@ + reason@
                    + "\n\nProvide a brief explanation of what this command does and why it was suggested."@,
            ),
        ],
{
    let mut q = "I was suggested the command '".to_owned();
    append_str(&mut q, command);
    append_str(&mut q, "' because: ");
    append_str(&mut q, reason);
    append_str(&mut q, "\n\nProvide a brief explanation of what this command does and why it was suggested.");
    let r = vec![
        Message { role: Role::System, content: "Explain shell command suggestions clearly and concisely.".to_owned() },
        Message { role: Role::User, content: q },
    ];
    assert(message_views(r@) =~= seq![
        (Role::System, "Explain shell command suggestions clearly and concisely."@),
        (
            Role::User,
            "I was suggested the command '"@ + command@ + "' because: "@ + reason@
                + "\n\nProvide a brief explanation of what this command does and why it was suggested."@,
        ),
    ]);
    r
}

/// The insights about the user's habits: the preferred alternatives, the
/// most used command and the number of learned sequences, or a note that
/// there is not enough data.
pub open spec fn insights(l: LearningContext) -> Seq<Seq<char>> {
    let prefs = if l.preferences@.len() > 0 {
        seq![
            "You prefer modern alternatives: "@ + join_with(
                l.preferences@.map_values(|p: CommandPreference| p.preferred@ + " (instead of "@ + p.standard@ + ")"@),
                ", "@,
            ),
        ]
    } else {
        Seq::empty()
    };
    let top = if l.frequent_commands@.len() > 0 {
        seq![
            "Your most used command is '"@ + l.frequent_commands@[0].command@ + "' with "@ + decimal(
                l.frequent_commands@[0].count as nat,
            ) + " executions"@,
        ]
    } else {
        Seq::empty()
    };
    let pats = if l.patterns@.len() > 0 {
        seq!["I've learned "@ + decimal(l.patterns@.len()) + " command patterns from your workflow"@]
    } else {
        Seq::empty()
    };
    let all = prefs + top + pats;
    if all.len() == 0 {
        seq!["Not enough data yet to generate insights. Keep using commands!"@]
    } else {
        all
    }
}

/// The insights, joined into one text.
pub fn usage_insights(l: &LearningContext) -> (s: String)
    ensures
        s@ == join_with(insights(*l), "\n• "@),
{
    let mut items: Vec<String> = Vec::new();
    if l.preferences.len() > 0 {
        let mut parts: Vec<String> = Vec::new();
        let mut i: usize = 0;
        while i < l.preferences.len()
            invariant
                i <= l.preferences@.len(),
                string_views(parts@) == l.preferences@.take(i as int).map_values(
                    |p: CommandPreference| p.preferred@ + " (instead of "@ + p.standard@ + ")"@,
                ),
            decreases l.preferences@.len() - i,
        {
            let mut t = l.preferences[i].preferred.clone();
            append_str(&mut t, " (instead of ");
            append_str(&mut t, l.preferences[i].standard.as_str());
            append_str(&mut t, ")");
            let ghost before = parts@;
            parts.push(t);
            proof {
                assert(string_views(parts@) =~= string_views(before).push(t@));
                assert(l.preferences@.take(i + 1) =~= l.preferences@.take(i as int).push(l.preferences@[i as int]));
            }
            i = i + 1;
        }
        assert(l.preferences@.take(l.preferences@.len() as int) =~= l.preferences@);
        let mut line = "You prefer modern alternatives: ".to_owned();
        append_str(&mut line, join_strings(parts.as_slice(), ", ").as_str());
        items.push(line);
    }
    let ghost after_prefs = string_views(items@);
    if l.frequent_commands.len() > 0 {
        let mut line = "Your most used command is '".to_owned();
        append_str(&mut line, l.frequent_commands[0].command.as_str());
        append_str(&mut line, "' with ");
        append_str(&mut line, u64_to_decimal(l.frequent_commands[0].count as u64).as_str());
        append_str(&mut line, " executions");
        let ghost before = items@;
        items.push(line);
        assert(string_views(items@) =~= string_views(before).push(line@));
    }
    if l.patterns.len() > 0 {
        let mut line = "I've learned ".to_owned();
        append_str(&mut line, u64_to_decimal(l.patterns.len() as u64).as_str());
        append_str(&mut line, " command patterns from your workflow");
        let ghost before = items@;
        items.push(line);
        assert(string_views(items@) =~= string_views(before).push(line@));
    }
    if items.len() == 0 {
        items.push("Not enough data yet to generate insights. Keep using commands!".to_owned());
    }
    assert(string_views(items@) =~= insights(*l));
    join_strings(items.as_slice(), "\n• ")
}

} // verus!
