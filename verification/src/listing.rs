//! What `novops list` prints.
use vstd::prelude::*;
use crate::error::NovopsError;
use crate::load::NovopsOutputs;
use crate::text::{copy_string, join, join_spec, lemma_views_push, push_char, str_eq, views};

verus! {

/// The JSON array of the given strings, as `serde_json::to_string` writes it.
pub uninterp spec fn json_string_array(items: Seq<Seq<char>>) -> Seq<char>;

/// `serde_json::to_string` on a list of strings. Its documentation says that it fails
/// only when a `Serialize` impl fails or a map has keys that are not strings, neither of
/// which happens for strings; what it writes is named `json_string_array`.
#[verifier::external_body]
fn json_of_strings(items: &Vec<String>) -> (r: Option<String>)
    ensures
        r is Some,
        r.unwrap()@ == json_string_array(views(items@)),
{
    serde_json::to_string(items).ok()
}

pub open spec fn plain_word() -> Seq<char> {
    seq!['p', 'l', 'a', 'i', 'n']
}

pub open spec fn json_word() -> Seq<char> {
    seq!['j', 's', 'o', 'n']
}

/// The environment names as printed: one per line for `plain`, a JSON array for `json`,
/// each followed by a line feed; an error for any other format.
pub fn render_environment_list(envs: &Vec<String>, format: &str) -> (r: Result<String, NovopsError>)
    ensures
        if format@ == plain_word() {
            r matches Ok(s) && s@ == join_spec(views(envs@), seq!['\n']) + seq!['\n']
        } else if format@ == json_word() {
            r matches Ok(s) && s@ == json_string_array(views(envs@)) + seq!['\n']
        } else {
            r matches Err(NovopsError::UnknownFormat(f)) && f@ == format@
        },
{
    proof {
        reveal_strlit("plain");
        reveal_strlit("json");
        reveal_strlit("\n");
        assert("plain"@ =~= plain_word());
        assert("json"@ =~= json_word());
        assert("\n"@ =~= seq!['\n']);
    }
    if str_eq(format, "plain") {
        let mut out = join(envs, "\n");
        push_char(&mut out, '\n');
        Ok(out)
    } else if str_eq(format, "json") {
        let mut out = json_of_strings(envs).unwrap();
        push_char(&mut out, '\n');
        Ok(out)
    } else {
        Err(NovopsError::UnknownFormat(copy_string(format)))
    }
}

/// The names of the loaded variables, and the paths of the loaded files, in order.
pub fn output_names(outputs: &NovopsOutputs) -> (r: (Vec<String>, Vec<String>))
    ensures
        views(r.0@) == outputs.variables@.map_values(|e: (String, crate::modules::variables::VariableOutput)| e.1.name@),
        views(r.1@) == outputs.files@.map_values(|e: (String, crate::modules::files::FileOutput)| e.0@),
{
    let mut names: Vec<String> = Vec::new();
    let mut i: usize = 0;
    while i < outputs.variables.len()
        invariant
            i <= outputs.variables@.len(),
            views(names@) == outputs.variables@.map_values(|e: (String, crate::modules::variables::VariableOutput)| e.1.name@).take(i as int),
        decreases outputs.variables.len() - i,
    {
        let n = outputs.variables[i].1.name.clone();
        let ghost before = names@;
        let ghost nn = n;
        names.push(n);
        proof {
            lemma_views_push(before, nn);
        }
        i = i + 1;
        assert(views(names@) =~= outputs.variables@.map_values(|e: (String, crate::modules::variables::VariableOutput)| e.1.name@).take(i as int));
    }
    let mut paths: Vec<String> = Vec::new();
    let mut j: usize = 0;
    while j < outputs.files.len()
        invariant
            j <= outputs.files@.len(),
            views(paths@) == outputs.files@.map_values(|e: (String, crate::modules::files::FileOutput)| e.0@).take(j as int),
        decreases outputs.files.len() - j,
    {
        let p = outputs.files[j].0.clone();
        let ghost before = paths@;
        let ghost pp = p;
        paths.push(p);
        proof {
            lemma_views_push(before, pp);
        }
        j = j + 1;
        assert(views(paths@) =~= outputs.files@.map_values(|e: (String, crate::modules::files::FileOutput)| e.0@).take(j as int));
    }
    assert(outputs.variables@.map_values(|e: (String, crate::modules::variables::VariableOutput)| e.1.name@).take(i as int)
        =~= outputs.variables@.map_values(|e: (String, crate::modules::variables::VariableOutput)| e.1.name@));
    assert(outputs.files@.map_values(|e: (String, crate::modules::files::FileOutput)| e.0@).take(j as int)
        =~= outputs.files@.map_values(|e: (String, crate::modules::files::FileOutput)| e.0@));
    (names, paths)
}

pub open spec fn variables_heading() -> Seq<char> {
    seq!['V', 'a', 'r', 'i', 'a', 'b', 'l', 'e', 's', ':', '\n', '\n']
}

pub open spec fn files_heading() -> Seq<char> {
    seq!['\n', '\n', 'F', 'i', 'l', 'e', 's', ':', '\n', '\n']
}

/// The outputs as printed in plain format: a `Variables:` section listing the variable
/// names one per line, then a `Files:` section listing the file paths.
pub fn render_outputs_plain(variables: &Vec<String>, files: &Vec<String>) -> (r: String)
    ensures
        r@ == variables_heading() + join_spec(views(variables@), seq!['\n']) + files_heading()
            + join_spec(views(files@), seq!['\n']) + seq!['\n'],
{
    proof {
        reveal_strlit("Variables:\n\n");
        reveal_strlit("\n\nFiles:\n\n");
        reveal_strlit("\n");
        assert("Variables:\n\n"@ =~= variables_heading());
        assert("\n\nFiles:\n\n"@ =~= files_heading());
        assert("\n"@ =~= seq!['\n']);
    }
    let mut out = copy_string("Variables:\n\n");
    out.append(join(variables, "\n").as_str());
    out.append("\n\nFiles:\n\n");
    out.append(join(files, "\n").as_str());
    push_char(&mut out, '\n');
    out
}

pub open spec fn variables_key() -> Seq<char> {
    seq!['v', 'a', 'r', 'i', 'a', 'b', 'l', 'e', 's']
}

pub open spec fn files_key() -> Seq<char> {
    seq!['f', 'i', 'l', 'e', 's']
}

/// A member of a JSON object: the key quoted, a colon, the value.
pub open spec fn json_member_text(key: Seq<char>, value: Seq<char>) -> Seq<char> {
    seq!['"'] + key + seq!['"', ':'] + value
}

/// The JSON object `{"variables": [...], "files": [...]}` in compact form, its two
/// members in either order.
pub open spec fn outputs_json(variables: Seq<Seq<char>>, files: Seq<Seq<char>>, variables_first: bool) -> Seq<char> {
    let v = json_member_text(variables_key(), json_string_array(variables));
    let f = json_member_text(files_key(), json_string_array(files));
    if variables_first {
        seq!['{'] + v + seq![','] + f + seq!['}']
    } else {
        seq!['{'] + f + seq![','] + v + seq!['}']
    }
}

/// `serde_json::to_string` on a hash map from `variables` and `files` to the two lists.
/// It writes a compact object whose members come in the map's order, which depends on
/// the hasher's random seed: so either order may come out. Each list is written as
/// `json_string_array` names it, and with string keys and values it does not fail.
#[verifier::external_body]
fn json_of_outputs(variables: &Vec<String>, files: &Vec<String>) -> (r: Option<String>)
    ensures
        r is Some,
        r.unwrap()@ == outputs_json(views(variables@), views(files@), true) || r.unwrap()@ == outputs_json(
            views(variables@),
            views(files@),
            false,
        ),
{
    let mut map: std::collections::HashMap<&str, &Vec<String>> = std::collections::HashMap::new();
    map.insert("variables", variables);
    map.insert("files", files);
    serde_json::to_string(&map).ok()
}

/// The outputs as `novops list outputs` prints them: `plain` as `render_outputs_plain`
/// writes them, `json` as an object holding the two lists followed by a line feed (its
/// members in either order), an error for any other format.
pub fn render_outputs_list(variables: &Vec<String>, files: &Vec<String>, format: &str) -> (r: Result<String, NovopsError>)
    ensures
        if format@ == plain_word() {
            r matches Ok(s) && s@ == variables_heading() + join_spec(views(variables@), seq!['\n']) + files_heading()
                + join_spec(views(files@), seq!['\n']) + seq!['\n']
        } else if format@ == json_word() {
            r matches Ok(s) && (s@ == outputs_json(views(variables@), views(files@), true) + seq!['\n'] || s@
                == outputs_json(views(variables@), views(files@), false) + seq!['\n'])
        } else {
            r matches Err(NovopsError::UnknownFormat(f)) && f@ == format@
        },
{
    proof {
        reveal_strlit("plain");
        reveal_strlit("json");
        assert("plain"@ =~= plain_word());
        assert("json"@ =~= json_word());
    }
    if str_eq(format, "plain") {
        Ok(render_outputs_plain(variables, files))
    } else if str_eq(format, "json") {
        let mut out = json_of_outputs(variables, files).unwrap();
        push_char(&mut out, '\n');
        Ok(out)
    } else {
        Err(NovopsError::UnknownFormat(copy_string(format)))
    }
}

/// The fixed words this module writes and matches, spelled out as text.
pub proof fn lemma_listing_words()
    ensures
        plain_word() == "plain"@,
        json_word() == "json"@,
        variables_heading() == "Variables:\n\n"@,
        files_heading() == "\n\nFiles:\n\n"@,
        variables_key() == "variables"@,
        files_key() == "files"@,
{
    reveal_strlit("plain");
    reveal_strlit("json");
    reveal_strlit("Variables:\n\n");
    reveal_strlit("\n\nFiles:\n\n");
    reveal_strlit("variables");
    reveal_strlit("files");
    assert(plain_word() =~= "plain"@);
    assert(json_word() =~= "json"@);
    assert(variables_heading() =~= "Variables:\n\n"@);
    assert(files_heading() =~= "\n\nFiles:\n\n"@);
    assert(variables_key() =~= "variables"@);
    assert(files_key() =~= "files"@);
}

} // verus!
