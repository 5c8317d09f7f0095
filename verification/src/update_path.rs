//! The search path with the binaries of the selected version in front.

use vstd::prelude::*;
use crate::commands::Shell;
use crate::compile::binary_directory;
use crate::text::{
    chars_of, contains, contains_in, contains_str, push_all, push_str, replace, replace_in,
    replace_str, split, split_by, string_of, views,
};

verus! {

/// `path` with each of `values`, from the first on, taken out together
/// with the colon after it.
pub open spec fn cleared(path: Seq<char>, values: Seq<Seq<char>>) -> Seq<char>
    decreases values.len(),
{
    if values.len() == 0 {
        path
    } else {
        cleared(replace(path, values[0] + ":"@, ""@), values.skip(1))
    }
}

/// Those of `parts` that hold `lilypond`, in order.
pub open spec fn lilypond_parts(parts: Seq<Seq<char>>) -> Seq<Seq<char>>
    decreases parts.len(),
{
    if parts.len() == 0 {
        Seq::empty()
    } else if contains(parts.last(), "lilypond"@) {
        lilypond_parts(parts.drop_last()).push(parts.last())
    } else {
        lilypond_parts(parts.drop_last())
    }
}

/// The search path without the directories of a LilyPond: each of its
/// colon-separated parts that holds `lilypond` is taken out of the path,
/// with the colon after it, wherever it occurs.
pub open spec fn without_lilypond(path: Seq<char>) -> Seq<char> {
    cleared(path, lilypond_parts(split(path, ":"@)))
}

/// The search path `path` without the directories of a LilyPond.
pub fn clear_lilypond(path: String) -> (r: String)
    ensures
        r@ == without_lilypond(path@),
{
    let letters = chars_of(path.as_str());
    let colon = chars_of(":");
    let parts = split_by(&letters, &colon);
    let mut values: Vec<Vec<char>> = Vec::new();
    let needle = chars_of("lilypond");
    let ghost all = views(parts@);
    let mut i: usize = 0;
    assert(all.take(0) =~= Seq::<Seq<char>>::empty());
    assert(views(values@) =~= lilypond_parts(all.take(0)));
    while i < parts.len()
        invariant
            i <= parts.len(),
            all == views(parts@),
            needle@ == "lilypond"@,
            views(values@) == lilypond_parts(all.take(i as int)),
        decreases parts.len() - i,
    {
        let ghost before = views(values@);
        assert(all.take(i + 1).drop_last() =~= all.take(i as int));
        assert(all.take(i + 1).last() == parts@[i as int]@);
        if contains_in(&parts[i], &needle) {
            let mut copy: Vec<char> = Vec::new();
            push_all(&mut copy, &parts[i]);
            values.push(copy);
            assert(views(values@) =~= before.push(parts@[i as int]@));
        }
        i += 1;
    }
    assert(all.take(parts@.len() as int) =~= all);
    let ghost wanted = views(values@);
    let mut current = letters;
    let nothing: Vec<char> = Vec::new();
    let mut k: usize = 0;
    assert(wanted.skip(0) =~= wanted);
    proof {
        reveal_strlit("");
    }
    while k < values.len()
        invariant
            k <= values.len(),
            wanted == views(values@),
            colon@ == ":"@,
            nothing@ == ""@,
            cleared(current@, wanted.skip(k as int)) == cleared(path@, wanted),
        decreases values.len() - k,
    {
        let mut pattern: Vec<char> = Vec::new();
        push_all(&mut pattern, &values[k]);
        push_all(&mut pattern, &colon);
        assert(wanted.skip(k as int)[0] == values@[k as int]@);
        assert(wanted.skip(k as int).skip(1) =~= wanted.skip(k + 1));
        current = replace_in(&current, &pattern, &nothing);
        k += 1;
    }
    string_of(&current)
}

/// The version whose binaries go in front of the search path: the one
/// given, or else the globally selected one.
pub fn get_new_version(version: &Option<String>, global_version: &str) -> (new_version: String)
    ensures
        new_version@ == (match *version {
            Some(given) => given@,
            None => global_version@,
        }),
{
    match version {
        Some(given) => given.clone(),
        None => global_version.to_owned(),
    }
}

/// What is printed for the shell to take as its search path. Nothing, where
/// the directory of the version's binaries does not exist or is on the
/// path already. For Nushell the directory alone. For Zsh the directory, a
/// colon, and the path without the directories of a LilyPond, each space
/// escaped.
pub open spec fn new_search_path(
    shell: Shell,
    directory: Seq<char>,
    path: Seq<char>,
    present: bool,
) -> Option<Seq<char>> {
    if !present || contains(path, directory) {
        None
    } else {
        match shell {
            Shell::Nu => Some(directory),
            Shell::Zsh => Some(replace(directory + ":"@ + without_lilypond(path), " "@, "\\ "@)),
        }
    }
}

/// What is printed for `shell` to take as its search path, given the
/// search path `path` and whether the directory of the binaries of
/// `new_version` exists.
pub fn update_path(
    shell: &Shell,
    install_path: &str,
    new_version: &str,
    path: String,
    present: bool,
) -> (printed: Option<String>)
    ensures
        crate::templates::optional(printed) == new_search_path(
            *shell,
            binary_directory(install_path@, new_version@),
            path@,
            present,
        ),
{
    let mut out: Vec<char> = Vec::new();
    push_str(&mut out, install_path);
    push_str(&mut out, "/lilypond-");
    push_str(&mut out, new_version);
    push_str(&mut out, "/bin");
    assert(out@ =~= binary_directory(install_path@, new_version@));
    let directory = string_of(&out);
    if !present || contains_str(path.as_str(), directory.as_str()) {
        return None;
    }
    match shell {
        Shell::Nu => Some(directory),
        Shell::Zsh => {
            let mut out: Vec<char> = Vec::new();
            push_str(&mut out, directory.as_str());
            push_str(&mut out, ":");
            push_str(&mut out, clear_lilypond(path).as_str());
            Some(replace_str(string_of(&out).as_str(), " ", "\\ "))
        },
    }
}

} // verus!
