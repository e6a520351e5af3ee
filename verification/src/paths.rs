//! Paths inside a job's working directory, as texts with `/` between their
//! parts.

use crate::text::{chars_of, last_index_of, last_position};
use vstd::prelude::*;

verus! {

/// `name` placed in the directory `dir`. A `name` that begins with `/` stands
/// for itself; otherwise the two are joined by one `/`, which is left out
/// where `dir` is empty or already ends with one.
pub open spec fn joined(dir: Seq<char>, name: Seq<char>) -> Seq<char> {
    if name.len() > 0 && name.first() == '/' {
        name
    } else if dir.len() == 0 || dir.last() == '/' {
        dir + name
    } else {
        dir + seq!['/'] + name
    }
}

/// The position of the dot that parts a file name into stem and extension:
/// the last dot, unless it is the name's first character.
pub open spec fn extension_dot(name: Seq<char>) -> Option<int> {
    match last_position(name, '.') {
        Some(at) => if at > 0 {
            Some(at)
        } else {
            None
        },
        None => None,
    }
}

/// The file name without its extension.
pub open spec fn stem_of(name: Seq<char>) -> Seq<char> {
    match extension_dot(name) {
        Some(at) => name.subrange(0, at),
        None => name,
    }
}

/// The extension of the file name, without the dot.
pub open spec fn extension_of(name: Seq<char>) -> Option<Seq<char>> {
    match extension_dot(name) {
        Some(at) => Some(name.subrange(at + 1, name.len() as int)),
        None => None,
    }
}

/// The file that holds the result of a job in single-shot mode.
pub open spec fn result_file(output_dir: Seq<char>, job_id: Seq<char>) -> Seq<char> {
    joined(output_dir, job_id + "_result.json"@)
}

/// The last occurrence of a character lies inside the text.
pub proof fn lemma_last_position_in_range(text: Seq<char>, c: char)
    ensures
        last_position(text, c) matches Some(at) ==> 0 <= at < text.len() && text[at] == c,
    decreases text.len(),
{
    if text.len() > 0 && text.last() != c {
        lemma_last_position_in_range(text.drop_last(), c);
    }
}

/// Places `name` in the directory `dir`.
pub fn join_path(dir: &str, name: &str) -> (r: String)
    ensures
        r@ == joined(dir@, name@),
{
    proof {
        reveal_strlit("/");
    }
    let d = chars_of(dir);
    let n = chars_of(name);
    if n.len() > 0 && n[0] == '/' {
        name.to_string()
    } else if d.len() == 0 || d[d.len() - 1] == '/' {
        dir.to_string().concat(name)
    } else {
        let r = dir.to_string().concat("/").concat(name);
        assert(r@ =~= dir@ + seq!['/'] + name@);
        r
    }
}

/// The file that holds the result of a job in single-shot mode.
pub fn result_path(output_dir: &str, job_id: &str) -> (r: String)
    ensures
        r@ == result_file(output_dir@, job_id@),
{
    let name = job_id.to_string().concat("_result.json");
    join_path(output_dir, name.as_str())
}

fn extension_dot_of(name: &str) -> (r: Option<usize>)
    ensures
        r is Some <==> extension_dot(name@) is Some,
        r matches Some(at) ==> at as int == extension_dot(name@)->0 && 0 < at < name@.len(),
{
    proof {
        lemma_last_position_in_range(name@, '.');
    }
    match last_index_of(name, '.') {
        Some(at) => if at > 0 {
            Some(at)
        } else {
            None
        },
        None => None,
    }
}

/// The file name without its extension.
pub fn file_stem(name: &str) -> (r: String)
    ensures
        r@ == stem_of(name@),
{
    match extension_dot_of(name) {
        Some(at) => name.substring_char(0, at).to_string(),
        None => name.to_string(),
    }
}

/// The extension of the file name, without the dot.
pub fn file_extension(name: &str) -> (r: Option<String>)
    ensures
        r is Some <==> extension_of(name@) is Some,
        r matches Some(e) ==> e@ == extension_of(name@)->0,
{
    match extension_dot_of(name) {
        Some(at) => {
            let len = name.unicode_len();
            Some(name.substring_char(at + 1, len).to_string())
        },
        None => None,
    }
}

} // verus!
