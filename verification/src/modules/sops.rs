//! Secrets decrypted by the `sops` command.
use vstd::prelude::*;
use crate::export::opt_view;
use crate::error::NovopsError;
use crate::modules::variables::VariableOutput;
use crate::novops_core::{NovopsContext, ResolveTo};
use vstd::utf8::{decode_utf8, valid_utf8};
use crate::text::{string_from_utf8, 
    copy_string, find_char_spec, join, join_spec, lines, lines_spec, push_char, split_once_char,
    starts_with_char, views, lemma_views_push, lemma_find_none_or_first,
};

verus! {

/// A value decrypted from a SOPS file.
#[derive(Debug, Clone, PartialEq)]
pub struct SopsValueInput {
    pub sops: SopsValueFromFile,
}

/// Where and what to decrypt.
#[derive(Debug, Clone, PartialEq)]
pub struct SopsValueFromFile {
    /// Path to the encrypted file.
    pub file: String,
    /// A field to extract with `--extract`.
    pub extract: Option<String>,
    /// More flags passed to sops after `--decrypt --extract`.
    pub additional_flags: Option<Vec<String>>,
}

/// A SOPS file in dotenv format, loaded as environment variables.
#[derive(Debug, Clone, PartialEq)]
pub struct SopsDotenvInput {
    /// Path to the encrypted file.
    pub file: String,
    /// More flags passed to sops.
    pub additional_flags: Option<Vec<String>>,
    /// A field to extract with `--extract`.
    pub extract: Option<String>,
}

pub open spec fn extract_flag() -> Seq<char> {
    seq!['-', '-', 'e', 'x', 't', 'r', 'a', 'c', 't']
}

pub open spec fn decrypt_flag() -> Seq<char> {
    seq!['-', '-', 'd', 'e', 'c', 'r', 'y', 'p', 't']
}

pub open spec fn result_prefix() -> Seq<char> {
    seq!['R', 'E', 'S', 'U', 'L', 'T', ':']
}

/// `--extract <field>` when a field is given, then the additional flags.
pub open spec fn extract_and_flags(extract: Option<Seq<char>>, flags: Option<Seq<Seq<char>>>) -> Seq<Seq<char>> {
    (match extract {
        Some(e) => seq![extract_flag(), e],
        None => seq![],
    }) + match flags {
        Some(f) => f,
        None => seq![],
    }
}

/// The flags given, none when unset.
pub open spec fn flags_or_none(flags: Option<Seq<Seq<char>>>) -> Seq<Seq<char>> {
    match flags {
        Some(f) => f,
        None => seq![],
    }
}

/// With a field, the arguments start with the word `--extract` immediately followed by
/// the field, and the additional flags come after them, in their order; without a field,
/// the arguments are the additional flags alone.
pub proof fn lemma_extract_precedes_field(extract: Option<Seq<char>>, flags: Option<Seq<Seq<char>>>)
    ensures
        match extract {
            Some(e) => {
                &&& extract_and_flags(extract, flags).len() == 2 + flags_or_none(flags).len()
                &&& extract_and_flags(extract, flags)[0] == "--extract"@
                &&& extract_and_flags(extract, flags)[1] == e
                &&& extract_and_flags(extract, flags).skip(2) == flags_or_none(flags)
            },
            None => extract_and_flags(extract, flags) == flags_or_none(flags),
        },
{
    reveal_strlit("--extract");
    assert("--extract"@ =~= extract_flag());
    match extract {
        Some(e) => {
            assert(extract_and_flags(extract, flags).skip(2) =~= flags_or_none(flags));
        },
        None => {
            assert(extract_and_flags(extract, flags) =~= flags_or_none(flags));
        },
    }
}

pub open spec fn opt_views(o: Option<Vec<String>>) -> Option<Seq<Seq<char>>> {
    match o {
        Some(v) => Some(views(v@)),
        None => None,
    }
}

/// Appends `--extract <field>` when a field is given, then the additional flags.
fn push_extract_and_flags(args: &mut Vec<String>, extract: &Option<String>, flags: &Option<Vec<String>>)
    ensures
        views(final(args)@) == views(old(args)@) + extract_and_flags(opt_view(*extract), opt_views(*flags)),
{
    proof {
        reveal_strlit("--extract");
        assert("--extract"@ =~= extract_flag());
    }
    let ghost start = views(args@);
    if let Some(e) = extract {
        args.push(copy_string("--extract"));
        args.push(copy_string(e.as_str()));
    }
    let ghost mid = views(args@);
    assert(mid =~= start + match opt_view(*extract) {
        Some(e) => seq![extract_flag(), e],
        None => seq![],
    });
    if let Some(af) = flags {
        let mut i: usize = 0;
        while i < af.len()
            invariant
                i <= af.len(),
                views(args@) == mid + views(af@).take(i as int),
            decreases af.len() - i,
        {
            let ghost before = args@;
            args.push(copy_string(af[i].as_str()));
            proof {
                lemma_views_push(before, args@.last());
            }
            i = i + 1;
            assert(views(args@) =~= mid + views(af@).take(i as int));
        }
        assert(views(af@).take(af.len() as int) =~= views(af@));
    }
    assert(views(args@) =~= views(old(args)@) + extract_and_flags(opt_view(*extract), opt_views(*flags)));
}

/// What `sops` printed: an error when its output or its error output is not UTF-8, or
/// when it failed; the decrypted text otherwise.
pub fn sops_output_from(stdout: Vec<u8>, stderr: Vec<u8>, success: bool) -> (r: Result<String, NovopsError>)
    ensures
        !(valid_utf8(stdout@) && valid_utf8(stderr@)) ==> r matches Err(NovopsError::CommandOutputNotUtf8),
        valid_utf8(stdout@) && valid_utf8(stderr@) && !success ==> r matches Err(NovopsError::CommandFailed),
        valid_utf8(stdout@) && valid_utf8(stderr@) && success ==> (r matches Ok(t) && t@ == decode_utf8(stdout@)),
{
    let out = match string_from_utf8(stdout) {
        Some(t) => t,
        None => return Err(NovopsError::CommandOutputNotUtf8),
    };
    if string_from_utf8(stderr).is_none() {
        return Err(NovopsError::CommandOutputNotUtf8);
    }
    if !success {
        return Err(NovopsError::CommandFailed);
    }
    Ok(out)
}

/// The arguments of the `sops` command: `--decrypt`, the given arguments, then the file.
pub fn sops_command_args(additional_args: &Vec<String>, file: &str) -> (r: Vec<String>)
    ensures
        views(r@) == seq![decrypt_flag()] + views(additional_args@) + seq![file@],
{
    proof {
        reveal_strlit("--decrypt");
        assert("--decrypt"@ =~= decrypt_flag());
    }
    let mut final_args: Vec<String> = Vec::new();
    final_args.push(copy_string("--decrypt"));
    let mut i: usize = 0;
    while i < additional_args.len()
        invariant
            i <= additional_args.len(),
            views(final_args@) == seq![decrypt_flag()] + views(additional_args@).take(i as int),
        decreases additional_args.len() - i,
    {
        let ghost before = final_args@;
        final_args.push(copy_string(additional_args[i].as_str()));
        proof {
            lemma_views_push(before, final_args@.last());
        }
        i = i + 1;
        assert(views(final_args@) =~= seq![decrypt_flag()] + views(additional_args@).take(i as int));
    }
    let ghost before = final_args@;
    final_args.push(copy_string(file));
    proof {
        lemma_views_push(before, final_args@.last());
        assert(views(additional_args@).take(additional_args.len() as int) =~= views(additional_args@));
    }
    assert(views(final_args@) =~= seq![decrypt_flag()] + views(additional_args@) + seq![file@]);
    final_args
}

impl SopsValueInput {
    /// The value given in dry-run mode: `RESULT:<file>:<extract>`.
    pub open spec fn dry_run_spec(self) -> Seq<char> {
        result_prefix() + self.sops.file@ + seq![':'] + match self.sops.extract {
            Some(e) => e@,
            None => seq![],
        }
    }

    /// The value given in dry-run mode: `RESULT:<file>:<extract>`.
    pub fn dry_run_value(&self) -> (r: String)
        ensures
            r@ == self.dry_run_spec(),
    {
        proof {
            reveal_strlit("RESULT:");
            assert("RESULT:"@ =~= result_prefix());
        }
        let mut s = String::new();
        s.append("RESULT:");
        s.append(self.sops.file.as_str());
        push_char(&mut s, ':');
        if let Some(e) = &self.sops.extract {
            s.append(e.as_str());
        }
        s
    }

    /// The arguments given to `sops` besides `--decrypt` and the file.
    pub fn decrypt_args(&self) -> (r: Vec<String>)
        ensures
            views(r@) == extract_and_flags(opt_view(self.sops.extract), opt_views(self.sops.additional_flags)),
            match self.sops.extract {
                Some(e) => r@.len() >= 2 && r@[0]@ == "--extract"@ && r@[1]@ == e@,
                None => views(r@) == flags_or_none(opt_views(self.sops.additional_flags)),
            },
    {
        proof {
            lemma_extract_precedes_field(opt_view(self.sops.extract), opt_views(self.sops.additional_flags));
        }
        let mut args: Vec<String> = Vec::new();
        push_extract_and_flags(&mut args, &self.sops.extract, &self.sops.additional_flags);
        assert(views(args@) =~= extract_and_flags(
            opt_view(self.sops.extract),
            opt_views(self.sops.additional_flags),
        ));
        args
    }
}

pub open spec fn output_type_args() -> Seq<Seq<char>> {
    seq![
        seq!['-', '-', 'o', 'u', 't', 'p', 'u', 't', '-', 't', 'y', 'p', 'e'],
        seq!['d', 'o', 't', 'e', 'n', 'v'],
    ]
}

/// A comment line of a dotenv file.
pub open spec fn is_comment(line: Seq<char>) -> bool {
    line.len() > 0 && line[0] == '#'
}

/// Every line that is not a comment holds a `=`.
pub open spec fn dotenv_well_formed(text: Seq<char>) -> bool {
    forall|i: int|
        0 <= i < lines_spec(text).len() && !is_comment(#[trigger] lines_spec(text)[i])
            ==> find_char_spec(lines_spec(text)[i], '=') is Some
}

/// Name and value of each line that is not a comment, split at its first `=`.
pub open spec fn dotenv_pairs(lines: Seq<Seq<char>>) -> Seq<(Seq<char>, Seq<char>)>
    decreases lines.len(),
{
    if lines.len() == 0 {
        seq![]
    } else {
        let rest = dotenv_pairs(lines.drop_last());
        let l = lines.last();
        if is_comment(l) {
            rest
        } else {
            match find_char_spec(l, '=') {
                Some(i) => rest.push((l.take(i), l.skip(i + 1))),
                None => rest,
            }
        }
    }
}

impl SopsDotenvInput {
    /// The variable given in dry-run mode: `RESULT`, valued `<file>:<flags joined by ->`.
    pub fn dry_run_outputs(&self) -> (r: Vec<VariableOutput>)
        ensures
            r@.len() == 1,
            r@[0].name@ == "RESULT"@,
            r@[0].value@ == self.file@ + seq![':'] + join_spec(
                match self.additional_flags {
                    Some(f) => views(f@),
                    None => seq![],
                },
                "-"@,
            ),
            r@[0].quote_method is None,
    {
        let mut value = copy_string(self.file.as_str());
        push_char(&mut value, ':');
        match &self.additional_flags {
            Some(f) => {
                value.append(join(f, "-").as_str());
            },
            None => {
                let empty: Vec<String> = Vec::new();
                value.append(join(&empty, "-").as_str());
                assert(views(empty@) =~= Seq::<Seq<char>>::empty());
            },
        }
        let mut v: Vec<VariableOutput> = Vec::new();
        v.push(VariableOutput { name: copy_string("RESULT"), value, quote_method: None });
        v
    }

    /// The arguments given to `sops` besides `--decrypt` and the file:
    /// `--output-type dotenv`, then `--extract <field>` and the additional flags.
    pub fn decrypt_args(&self) -> (r: Vec<String>)
        ensures
            views(r@) == output_type_args() + extract_and_flags(opt_view(self.extract), opt_views(self.additional_flags)),
            r@.len() >= 2 && r@[0]@ == "--output-type"@ && r@[1]@ == "dotenv"@,
            match self.extract {
                Some(e) => r@.len() >= 4 && r@[2]@ == "--extract"@ && r@[3]@ == e@,
                None => views(r@).skip(2) == flags_or_none(opt_views(self.additional_flags)),
            },
    {
        proof {
            lemma_extract_precedes_field(opt_view(self.extract), opt_views(self.additional_flags));
            reveal_strlit("--output-type");
            reveal_strlit("dotenv");
            assert("--output-type"@ =~= output_type_args()[0]);
            assert("dotenv"@ =~= output_type_args()[1]);
        }
        let mut args: Vec<String> = Vec::new();
        args.push(copy_string("--output-type"));
        args.push(copy_string("dotenv"));
        assert(views(args@) =~= output_type_args());
        push_extract_and_flags(&mut args, &self.extract, &self.additional_flags);
        proof {
            let v = views(args@);
            let tail = extract_and_flags(opt_view(self.extract), opt_views(self.additional_flags));
            assert(v.len() == args@.len());
            assert(v.len() >= 2);
            assert(v[0] == args@[0]@ && v[1] == args@[1]@);
            assert(v.skip(2) =~= tail);
            if self.extract is Some {
                assert(v[2] == args@[2]@ && v[2] == tail[0]);
                assert(v[3] == args@[3]@ && v[3] == tail[1]);
            }
        }
        args
    }

    /// The variables of decrypted dotenv text: comment lines are skipped, every other
    /// line is split at its first `=` into name and value.
    pub fn variables_from(&self, output: &str) -> (r: Vec<VariableOutput>)
        requires
            dotenv_well_formed(output@),
        ensures
            r@.len() == dotenv_pairs(lines_spec(output@)).len(),
            forall|i: int|
                0 <= i < r@.len() ==> (#[trigger] r@[i]).name@ == dotenv_pairs(lines_spec(output@))[i].0
                    && r@[i].value@ == dotenv_pairs(lines_spec(output@))[i].1 && r@[i].quote_method is None
                    && !r@[i].name@.contains('='),
    {
        parse_dotenv(output)
    }
}

/// A comment line adds no variable; any other line `NAME=VALUE` whose name holds no `=`
/// adds the variable `NAME`, valued `VALUE` (which may hold `=`), after the earlier ones.
pub proof fn lemma_dotenv_line(lines: Seq<Seq<char>>, name: Seq<char>, value: Seq<char>)
    ensures
        is_comment(name) ==> dotenv_pairs(lines.push(name + seq!['='] + value)) == dotenv_pairs(lines),
        !is_comment(name) && !name.contains('=') ==> dotenv_pairs(lines.push(name + seq!['='] + value))
            == dotenv_pairs(lines).push((name, value)),
{
    let line = name + seq!['='] + value;
    let ls = lines.push(line);
    assert(ls.drop_last() =~= lines);
    assert(ls.last() == line);
    if name.len() > 0 {
        assert(line[0] == name[0]);
    }
    if !is_comment(name) && !name.contains('=') {
        assert(!is_comment(line));
        lemma_find_none_or_first(line, '=');
        assert(line[name.len() as int] == '=');
        match find_char_spec(line, '=') {
            Some(i) => {
                if i < name.len() {
                    assert(line[i] == name[i]);
                } else if i > name.len() {
                    assert(line.take(i)[name.len() as int] == '=');
                }
                assert(i == name.len());
                assert(line.take(i) =~= name);
                assert(line.skip(i + 1) =~= value);
            },
            None => {
                assert(line.contains('='));
            },
        }
    }
}

/// Whether every line of dotenv text that is not a comment holds a `=`.
pub fn is_dotenv_well_formed(output: &str) -> (r: bool)
    ensures
        r == dotenv_well_formed(output@),
{
    let ls = lines(output);
    let ghost lv = lines_spec(output@);
    let mut i: usize = 0;
    while i < ls.len()
        invariant
            views(ls@) == lv,
            lv == lines_spec(output@),
            i <= ls.len(),
            forall|j: int| 0 <= j < i && !is_comment(#[trigger] lv[j]) ==> find_char_spec(lv[j], '=') is Some,
        decreases ls.len() - i,
    {
        let line = &ls[i];
        assert(line@ == lv[i as int]);
        if !starts_with_char(line.as_str(), '#') {
            if split_once_char(line.as_str(), '=').is_none() {
                assert(!is_comment(lines_spec(output@)[i as int]));
                return false;
            }
        }
        i = i + 1;
    }
    true
}

/// The variables of dotenv text: comment lines skipped, others split at their first `=`.
pub fn parse_dotenv(output: &str) -> (r: Vec<VariableOutput>)
    requires
        dotenv_well_formed(output@),
    ensures
        r@.len() == dotenv_pairs(lines_spec(output@)).len(),
        forall|i: int|
            0 <= i < r@.len() ==> (#[trigger] r@[i]).name@ == dotenv_pairs(lines_spec(output@))[i].0
                && r@[i].value@ == dotenv_pairs(lines_spec(output@))[i].1 && r@[i].quote_method is None
                && !r@[i].name@.contains('='),
{
    let ls = lines(output);
    let ghost lv = lines_spec(output@);
    let mut variables: Vec<VariableOutput> = Vec::new();
    let mut i: usize = 0;
    while i < ls.len()
        invariant
            views(ls@) == lv,
            lv == lines_spec(output@),
            dotenv_well_formed(output@),
            i <= ls.len(),
            variables@.len() == dotenv_pairs(lv.take(i as int)).len(),
            forall|j: int|
                0 <= j < variables@.len() ==> (#[trigger] variables@[j]).name@ == dotenv_pairs(
                    lv.take(i as int),
                )[j].0 && variables@[j].value@ == dotenv_pairs(lv.take(i as int))[j].1
                    && variables@[j].quote_method is None && !variables@[j].name@.contains('='),
        decreases ls.len() - i,
    {
        let line = &ls[i];
        assert(line@ == lv[i as int]);
        assert(lv.take(i + 1).drop_last() =~= lv.take(i as int));
        if starts_with_char(line.as_str(), '#') {
            i = i + 1;
            continue;
        }
        assert(!is_comment(lv[i as int]));
        let parts = split_once_char(line.as_str(), '=');
        proof {
            lemma_find_none_or_first(line@, '=');
        }
        match parts {
            Some((name, value)) => {
                variables.push(VariableOutput { name, value, quote_method: None });
            },
            None => {
                assert(false);
            },
        }
        i = i + 1;
    }
    assert(lv.take(ls.len() as int) =~= lv);
    variables
}

impl ResolveTo<Vec<VariableOutput>> for SopsDotenvInput {
    /// In dry-run mode, the dummy variable of `dry_run_outputs`; otherwise `sops` has to run.
    fn resolve_offline(&self, ctx: &NovopsContext) -> (r: Option<Result<Vec<VariableOutput>, NovopsError>>)
        ensures
            if ctx.dry_run {
                r matches Some(Ok(v)) && v@.len() == 1 && v@[0].name@ == "RESULT"@ && v@[0].value@ == self.file@
                    + seq![':'] + join_spec(
                    match self.additional_flags {
                        Some(f) => views(f@),
                        None => seq![],
                    },
                    "-"@,
                ) && v@[0].quote_method is None
            } else {
                r is None
            },
    {
        if ctx.dry_run {
            Some(Ok(self.dry_run_outputs()))
        } else {
            None
        }
    }
}

/// The fixed words this module writes and matches, spelled out as text.
pub proof fn lemma_sops_words()
    ensures
        extract_flag() == "--extract"@,
        decrypt_flag() == "--decrypt"@,
        result_prefix() == "RESULT:"@,
{
    reveal_strlit("--extract");
    reveal_strlit("--decrypt");
    reveal_strlit("RESULT:");
    assert(extract_flag() =~= "--extract"@);
    assert(decrypt_flag() =~= "--decrypt"@);
    assert(result_prefix() =~= "RESULT:"@);
}

} // verus!
