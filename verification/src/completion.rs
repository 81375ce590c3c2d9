//! Tab completion of the line-oriented session: `@path` mentions, slash commands, shell
//! commands and skills.

use crate::composer::{at_token, at_token_before_cursor, filter_paths_prefix, paths_with_prefix};
use crate::text::{chars_of, has_prefix, starts_with_vec};
use crate::wrap::views;
use vstd::prelude::*;

verus! {

/// A completion offered for the line: the text, its description, the character range it
/// replaces (`0..0` inserts) and whether a space follows it.
#[derive(Clone, Debug, PartialEq, Eq)]
pub struct Completion {
    pub value: String,
    pub description: Option<String>,
    pub start: usize,
    pub end: usize,
    pub append_whitespace: bool,
}

/// A completion as plain values.
pub type CompletionView = (Seq<char>, Option<Seq<char>>, nat, nat, bool);

/// A completion as plain values.
pub open spec fn completion_view(c: Completion) -> CompletionView {
    (
        c.value@,
        match c.description {
            Some(d) => Some(d@),
            None => None,
        },
        c.start as nat,
        c.end as nat,
        c.append_whitespace,
    )
}

/// The shell commands offered after `!`.
pub open spec fn shell_words() -> Seq<Seq<char>> {
    seq!["git"@, "ls"@, "cat"@, "find"@, "grep"@, "npm"@, "cargo"@, "make"@, "docker"@, "curl"@]
}

/// The `@path` completions: each matching workspace path as `@path`, replacing the token.
pub open spec fn mention_completions(paths: Seq<Seq<char>>, at: nat, cursor: nat) -> Seq<CompletionView> {
    paths.map_values(|p: Seq<char>| (seq!['@'] + p, Some("workspace file"@), at, cursor, false))
}

/// The completions among `words` that start with the line, with a description.
pub open spec fn word_completions(words: Seq<Seq<char>>, line: Seq<char>, desc: Seq<char>) -> Seq<CompletionView> {
    words.filter(|w: Seq<char>| has_prefix(w, line)).map_values(
        |w: Seq<char>| (w, Some(desc), 0nat, 0nat, true),
    )
}

/// The skill completions: `/name` of each skill that starts with the line, described by
/// the skill's description.
pub open spec fn skill_completions(skills: Seq<(Seq<char>, Option<Seq<char>>)>, line: Seq<char>) -> Seq<CompletionView>
    decreases skills.len(),
{
    if skills.len() == 0 {
        seq![]
    } else {
        let (name, desc) = skills.last();
        let c = seq!['/'] + name;
        skill_completions(skills.drop_last(), line) + if has_prefix(c, line) {
            seq![(c, desc, 0nat, 0nat, true)]
        } else {
            seq![]
        }
    }
}

/// The completions of `line` with the cursor at character `cursor`: the workspace paths for
/// an `@path` token when any match; otherwise the slash commands for a `/` line, the
/// shell commands for a `!` line, and the skills, each that start with the line.
pub open spec fn completions_of(
    line: Seq<char>,
    cursor: nat,
    files: Seq<Seq<char>>,
    commands: Seq<Seq<char>>,
    skills: Seq<(Seq<char>, Option<Seq<char>>)>,
) -> Seq<CompletionView> {
    let mentions = match at_token(line, cursor) {
        Some((at, prefix)) => paths_with_prefix(files, prefix),
        None => seq![],
    };
    if mentions.len() > 0 {
        mention_completions(mentions, (at_token(line, cursor)->0).0, cursor)
    } else {
        (if line.len() > 0 && line[0] == '/' {
            word_completions(commands, line, "REPL command"@)
        } else {
            seq![]
        }) + (if line.len() > 0 && line[0] == '!' {
            word_completions(shell_words().map_values(|w: Seq<char>| seq!['!'] + w), line, "Shell command"@)
        } else {
            seq![]
        }) + skill_completions(skills, line)
    }
}

fn push_completion(
    out: &mut Vec<Completion>,
    value: String,
    description: Option<String>,
    start: usize,
    end: usize,
    append_whitespace: bool,
)
    ensures
        final(out)@.map_values(|c: Completion| completion_view(c)) == old(out)@.map_values(
            |c: Completion| completion_view(c),
        ).push(completion_view(Completion { value, description, start, end, append_whitespace })),
{
    let ghost o = old(out)@.map_values(|c: Completion| completion_view(c));
    let c = Completion { value, description, start, end, append_whitespace };
    let ghost cv = completion_view(c);
    out.push(c);
    assert(out@.map_values(|c: Completion| completion_view(c)) =~= o.push(cv));
}

fn push_word_completions(out: &mut Vec<Completion>, words: &Vec<String>, line: &str, desc: &str)
    ensures
        final(out)@.map_values(|c: Completion| completion_view(c)) == old(out)@.map_values(
            |c: Completion| completion_view(c),
        ) + word_completions(views(words@), line@, desc@),
{
    let ghost o = old(out)@.map_values(|c: Completion| completion_view(c));
    let ghost wv = views(words@);
    let ghost pred = |w: Seq<char>| has_prefix(w, line@);
    let lv = chars_of(line);
    let mut i: usize = 0;
    while i < words.len()
        invariant
            i <= words@.len(),
            wv == views(words@),
            lv@ == line@,
            pred == (|w: Seq<char>| has_prefix(w, line@)),
            out@.map_values(|c: Completion| completion_view(c)) == o + wv.take(i as int).filter(pred).map_values(
                |w: Seq<char>| (w, Some(desc@), 0nat, 0nat, true),
            ),
        decreases words@.len() - i,
    {
        let w = chars_of(words[i].as_str());
        assert(wv.take(i + 1).drop_last() =~= wv.take(i as int));
        assert(wv.take(i + 1).last() == w@);
        reveal_with_fuel(Seq::filter, 1);
        if starts_with_vec(&w, &lv) {
            push_completion(out, words[i].clone(), Some(desc.to_owned()), 0, 0, true);
            assert(wv.take(i + 1).filter(pred) =~= wv.take(i as int).filter(pred).push(w@));
        }
        assert(out@.map_values(|c: Completion| completion_view(c)) =~= o + wv.take(i + 1).filter(pred).map_values(
            |w: Seq<char>| (w, Some(desc@), 0nat, 0nat, true),
        ));
        i += 1;
    }
    assert(wv.take(words@.len() as int) =~= wv);
}

/// The skill entries as plain values.
pub open spec fn skills_view(skills: Seq<(String, Option<String>)>) -> Seq<(Seq<char>, Option<Seq<char>>)> {
    skills.map_values(
        |s: (String, Option<String>)| (
            s.0@,
            match s.1 {
                Some(d) => Some(d@),
                None => None,
            },
        ),
    )
}

/// The completions of a line (see [`completions_of`]); `skills` holds each skill's name and
/// description.
pub fn repl_completions(
    line: &str,
    cursor: usize,
    files: &[String],
    commands: &Vec<String>,
    skills: &Vec<(String, Option<String>)>,
) -> (r: Vec<Completion>)
    ensures
        r@.map_values(|c: Completion| completion_view(c)) == completions_of(
            line@,
            cursor as nat,
            views(files@),
            views(commands@),
            skills_view(skills@),
        ),
{
    let mut out: Vec<Completion> = Vec::new();
    if let Some((at, prefix)) = at_token_before_cursor(line, cursor) {
        let paths = filter_paths_prefix(files, prefix.as_str());
        if paths.len() > 0 {
            let ghost pv = views(paths@);
            let mut i: usize = 0;
            assert(out@.map_values(|c: Completion| completion_view(c)) =~= Seq::<CompletionView>::empty());
            while i < paths.len()
                invariant
                    i <= paths@.len(),
                    pv == views(paths@),
                    out@.map_values(|c: Completion| completion_view(c)) == mention_completions(
                        pv.take(i as int),
                        at as nat,
                        cursor as nat,
                    ),
                decreases paths@.len() - i,
            {
                let mut v = "@".to_owned();
                v.append(paths[i].as_str());
                proof {
                    reveal_strlit("@");
                }
                assert(v@ =~= seq!['@'] + pv[i as int]);
                let ghost before = out@.map_values(|c: Completion| completion_view(c));
                push_completion(&mut out, v, Some("workspace file".to_owned()), at, cursor, false);
                assert(mention_completions(pv.take(i + 1), at as nat, cursor as nat) =~= mention_completions(
                    pv.take(i as int),
                    at as nat,
                    cursor as nat,
                ).push((seq!['@'] + pv[i as int], Some("workspace file"@), at as nat, cursor as nat, false)));
                assert(out@.map_values(|c: Completion| completion_view(c)) =~= mention_completions(
                    pv.take(i + 1),
                    at as nat,
                    cursor as nat,
                ));
                i += 1;
            }
            assert(pv.take(paths@.len() as int) =~= pv);
            return out;
        }
    }
    let lv = chars_of(line);
    assert(out@.map_values(|c: Completion| completion_view(c)) =~= Seq::<CompletionView>::empty());
    if lv.len() > 0 && lv[0] == '/' {
        push_word_completions(&mut out, commands, line, "REPL command");
    }
    let ghost after_cmds = out@.map_values(|c: Completion| completion_view(c));
    if lv.len() > 0 && lv[0] == '!' {
        let shell: Vec<String> = vec![
            "!git".to_owned(), "!ls".to_owned(), "!cat".to_owned(), "!find".to_owned(),
            "!grep".to_owned(), "!npm".to_owned(), "!cargo".to_owned(), "!make".to_owned(),
            "!docker".to_owned(), "!curl".to_owned(),
        ];
        proof {
            reveal_strlit("!git");
            reveal_strlit("!ls");
            reveal_strlit("!cat");
            reveal_strlit("!find");
            reveal_strlit("!grep");
            reveal_strlit("!npm");
            reveal_strlit("!cargo");
            reveal_strlit("!make");
            reveal_strlit("!docker");
            reveal_strlit("!curl");
            reveal_strlit("git");
            reveal_strlit("ls");
            reveal_strlit("cat");
            reveal_strlit("find");
            reveal_strlit("grep");
            reveal_strlit("npm");
            reveal_strlit("cargo");
            reveal_strlit("make");
            reveal_strlit("docker");
            reveal_strlit("curl");
        }
        assert(views(shell@) =~~= shell_words().map_values(|w: Seq<char>| seq!['!'] + w));
        push_word_completions(&mut out, &shell, line, "Shell command");
    }
    let ghost before_skills = out@.map_values(|c: Completion| completion_view(c));
    let ghost sv = skills_view(skills@);
    let mut k: usize = 0;
    while k < skills.len()
        invariant
            k <= skills@.len(),
            sv == skills_view(skills@),
            lv@ == line@,
            out@.map_values(|c: Completion| completion_view(c)) == before_skills + skill_completions(
                sv.take(k as int),
                line@,
            ),
        decreases skills@.len() - k,
    {
        let (name, desc) = &skills[k];
        let mut c = "/".to_owned();
        c.append(name.as_str());
        proof {
            reveal_strlit("/");
        }
        assert(sv.take(k + 1).drop_last() =~= sv.take(k as int));
        assert(sv.take(k + 1).last() == sv[k as int]);
        assert(c@ =~= seq!['/'] + name@);
        let d: Option<String> = match desc {
            Some(t) => Some(t.clone()),
            None => None,
        };
        if starts_with_vec(&chars_of(c.as_str()), &lv) {
            push_completion(&mut out, c, d, 0, 0, true);
        }
        assert(out@.map_values(|c: Completion| completion_view(c)) =~= before_skills + skill_completions(
            sv.take(k + 1),
            line@,
        ));
        k += 1;
    }
    assert(sv.take(skills@.len() as int) =~= sv);
    out
}

} // verus!
