//! The executable search path handed to the server: a fixed list of common
//! binary directories in front of the inherited search path.

use vstd::prelude::*;
use vstd::string::*;

verus! {

/// The character that separates the entries of a search path.
pub open spec fn separator() -> char {
    ':'
}

/// The directories that are put in front of the inherited search path.
pub open spec fn extra_paths() -> Seq<Seq<char>> {
    seq![
        "/opt/homebrew/bin"@,
        "/usr/local/bin"@,
        "/usr/bin"@,
        "/bin"@,
        "/usr/sbin"@,
        "/sbin"@,
    ]
}

/// The entries of `text` when it is cut at every occurrence of `sep`. There
/// is always at least one entry; the empty text has one empty entry.
pub open spec fn split_on(text: Seq<char>, sep: char) -> Seq<Seq<char>>
    decreases text.len(),
{
    if text.len() == 0 {
        seq![Seq::<char>::empty()]
    } else {
        let before = split_on(text.drop_last(), sep);
        if text.last() == sep {
            before.push(Seq::<char>::empty())
        } else {
            before.drop_last().push(before.last().push(text.last()))
        }
    }
}

/// The entries of `parts` written one after another with `sep` between
/// neighbours.
pub open spec fn join_with(parts: Seq<Seq<char>>, sep: char) -> Seq<char>
    decreases parts.len(),
{
    if parts.len() == 0 {
        Seq::<char>::empty()
    } else if parts.len() == 1 {
        parts[0]
    } else {
        join_with(parts.drop_last(), sep).push(sep) + parts.last()
    }
}

/// Whether `sep` occurs nowhere in `text`.
pub open spec fn free_of(text: Seq<char>, sep: char) -> bool {
    forall|i: int| 0 <= i < text.len() ==> text[i] != sep
}

/// The search path for the server: the extra directories, then the inherited
/// search path, separated by colons.
pub open spec fn full_search_path(system_path: Seq<char>) -> Seq<char> {
    join_with(extra_paths().push(system_path), separator())
}

/// Number of extra directories.
pub fn extra_path_count() -> (n: usize)
    ensures
        n == extra_paths().len(),
{
    6
}

/// The extra directory at position `index`.
pub fn extra_path(index: usize) -> (dir: &'static str)
    requires
        index < extra_paths().len(),
    ensures
        dir@ == extra_paths()[index as int],
{
    if index == 0 {
        "/opt/homebrew/bin"
    } else if index == 1 {
        "/usr/local/bin"
    } else if index == 2 {
        "/usr/bin"
    } else if index == 3 {
        "/bin"
    } else if index == 4 {
        "/usr/sbin"
    } else {
        "/sbin"
    }
}

/// Joining a list that ends in `tail` puts `tail` behind the join of the
/// entries before it and one separator.
pub proof fn lemma_join_push(parts: Seq<Seq<char>>, tail: Seq<char>, sep: char)
    requires
        parts.len() > 0,
    ensures
        join_with(parts.push(tail), sep) == join_with(parts, sep).push(sep) + tail,
{
    assert(parts.push(tail).drop_last() == parts);
}

/// Cutting a text that holds no separator leaves it whole.
pub proof fn lemma_split_whole(text: Seq<char>, sep: char)
    requires
        free_of(text, sep),
    ensures
        split_on(text, sep) == seq![text],
    decreases text.len(),
{
    if text.len() > 0 {
        let shorter = text.drop_last();
        lemma_split_whole(shorter, sep);
        assert(shorter.push(text.last()) == text);
        assert(seq![shorter].drop_last().push(text) == seq![text]);
    } else {
        assert(text == Seq::<char>::empty());
    }
}

/// Cutting always leaves at least one entry, and no entry holds the
/// separator.
pub proof fn lemma_split_entries(text: Seq<char>, sep: char)
    ensures
        split_on(text, sep).len() >= 1,
        forall|k: int| 0 <= k < split_on(text, sep).len() ==> free_of(#[trigger] split_on(text, sep)[k], sep),
    decreases text.len(),
{
    if text.len() > 0 {
        lemma_split_entries(text.drop_last(), sep);
    }
}

/// Cutting a text at a separator between `front` and `back` gives the
/// entries of `front` followed by the entries of `back`.
pub proof fn lemma_split_concat(front: Seq<char>, back: Seq<char>, sep: char)
    ensures
        split_on(front.push(sep) + back, sep) == split_on(front, sep) + split_on(back, sep),
    decreases back.len(),
{
    let whole = front.push(sep) + back;
    lemma_split_entries(front, sep);
    if back.len() == 0 {
        assert(whole == front.push(sep));
        assert(whole.drop_last() == front);
    } else {
        lemma_split_concat(front, back.drop_last(), sep);
        lemma_split_entries(back.drop_last(), sep);
        assert(whole.drop_last() == front.push(sep) + back.drop_last());
        assert(whole.last() == back.last());
        let left = split_on(front, sep);
        let right = split_on(back.drop_last(), sep);
        assert((left + right).last() == right.last());
        assert((left + right).drop_last() == left + right.drop_last());
        if back.last() == sep {
            assert((left + right).push(Seq::<char>::empty()) == left + right.push(
                Seq::<char>::empty(),
            ));
        } else {
            let grown = right.last().push(back.last());
            assert((left + right.drop_last()).push(grown) == left + right.drop_last().push(grown));
        }
    }
}

/// Joining the entries of a text with the separator they were cut at gives
/// the text back.
pub proof fn lemma_join_split(text: Seq<char>, sep: char)
    ensures
        join_with(split_on(text, sep), sep) == text,
    decreases text.len(),
{
    if text.len() > 0 {
        let shorter = text.drop_last();
        let before = split_on(shorter, sep);
        lemma_join_split(shorter, sep);
        lemma_split_entries(shorter, sep);
        assert(shorter.push(text.last()) == text);
        if text.last() == sep {
            lemma_join_push(before, Seq::<char>::empty(), sep);
        } else {
            let grown = before.last().push(text.last());
            if before.len() == 1 {
                assert(before.drop_last().push(grown) == seq![grown]);
            } else {
                lemma_join_push(before.drop_last(), grown, sep);
                assert(join_with(before.drop_last(), sep).push(sep) + grown == (join_with(
                    before.drop_last(),
                    sep,
                ).push(sep) + before.last()).push(text.last()));
            }
        }
    }
}

/// Cutting the join of entries that hold no separator gives the entries
/// back.
pub proof fn lemma_split_join(parts: Seq<Seq<char>>, sep: char)
    requires
        parts.len() >= 1,
        forall|k: int| 0 <= k < parts.len() ==> free_of(#[trigger] parts[k], sep),
    ensures
        split_on(join_with(parts, sep), sep) == parts,
    decreases parts.len(),
{
    if parts.len() == 1 {
        lemma_split_whole(parts[0], sep);
    } else {
        let front = parts.drop_last();
        lemma_split_join(front, sep);
        lemma_split_concat(join_with(front, sep), parts.last(), sep);
        lemma_split_whole(parts.last(), sep);
        assert(front + seq![parts.last()] == parts);
    }
}

/// None of the extra directories holds a colon.
pub proof fn lemma_extra_paths_plain()
    ensures
        forall|k: int| 0 <= k < extra_paths().len() ==> free_of(#[trigger] extra_paths()[k], separator()),
{
    reveal_strlit("/opt/homebrew/bin");
    reveal_strlit("/usr/local/bin");
    reveal_strlit("/usr/bin");
    reveal_strlit("/bin");
    reveal_strlit("/usr/sbin");
    reveal_strlit("/sbin");
}

/// The entries of the built search path are the extra directories, in their
/// order, followed by the entries of the inherited search path, in theirs.
pub proof fn lemma_search_path_entries(system_path: Seq<char>)
    ensures
        split_on(full_search_path(system_path), separator()) == extra_paths() + split_on(
            system_path,
            separator(),
        ),
{
    lemma_extra_paths_plain();
    lemma_join_push(extra_paths(), system_path, separator());
    lemma_split_concat(join_with(extra_paths(), separator()), system_path, separator());
    lemma_split_join(extra_paths(), separator());
}

/// Building the search path entry by entry, from the extra directories
/// followed by the entries of the inherited search path, gives the same text
/// as putting the inherited search path behind the extra directories whole.
pub proof fn lemma_search_path_by_entries(system_path: Seq<char>)
    ensures
        join_with(extra_paths() + split_on(system_path, separator()), separator())
            == full_search_path(system_path),
{
    lemma_search_path_entries(system_path);
    lemma_join_split(full_search_path(system_path), separator());
}

/// The built search path is the inherited one behind a fixed prefix.
pub proof fn lemma_search_path_prefix(system_path: Seq<char>)
    ensures
        full_search_path(system_path)
            == "/opt/homebrew/bin:/usr/local/bin:/usr/bin:/bin:/usr/sbin:/sbin:"@ + system_path,
{
    let sep = separator();
    let dirs = extra_paths();
    reveal_strlit("/opt/homebrew/bin");
    reveal_strlit("/usr/local/bin");
    reveal_strlit("/usr/bin");
    reveal_strlit("/bin");
    reveal_strlit("/usr/sbin");
    reveal_strlit("/sbin");
    reveal_strlit("/opt/homebrew/bin:/usr/local/bin:/usr/bin:/bin:/usr/sbin:/sbin:");
    lemma_join_push(dirs.take(1), dirs[1], sep);
    assert(dirs.take(1).push(dirs[1]) == dirs.take(2));
    lemma_join_push(dirs.take(2), dirs[2], sep);
    assert(dirs.take(2).push(dirs[2]) == dirs.take(3));
    lemma_join_push(dirs.take(3), dirs[3], sep);
    assert(dirs.take(3).push(dirs[3]) == dirs.take(4));
    lemma_join_push(dirs.take(4), dirs[4], sep);
    assert(dirs.take(4).push(dirs[4]) == dirs.take(5));
    lemma_join_push(dirs.take(5), dirs[5], sep);
    assert(dirs.take(5).push(dirs[5]) == dirs);
    lemma_join_push(dirs, system_path, sep);
    assert(join_with(dirs, sep).push(sep)
        == "/opt/homebrew/bin:/usr/local/bin:/usr/bin:/bin:/usr/sbin:/sbin:"@);
}

/// Builds the search path for the server from the inherited one.
pub fn build_search_path(system_path: &str) -> (path: String)
    ensures
        path@ == full_search_path(system_path@),
{
    let mut path = String::from_str(extra_path(0));
    let mut index: usize = 1;
    while index < extra_path_count()
        invariant
            1 <= index <= extra_paths().len(),
            path@ == join_with(extra_paths().take(index as int), separator()),
        decreases extra_paths().len() - index,
    {
        proof {
            reveal_strlit(":");
            let done = extra_paths().take(index as int);
            assert(extra_paths().take(index + 1) == done.push(extra_paths()[index as int]));
            lemma_join_push(done, extra_paths()[index as int], separator());
            assert(":"@ == seq![separator()]);
        }
        path.append(":");
        path.append(extra_path(index));
        index += 1;
    }
    proof {
        reveal_strlit(":");
        assert(extra_paths().take(index as int) == extra_paths());
        lemma_join_push(extra_paths(), system_path@, separator());
        assert(":"@ == seq![separator()]);
    }
    path.append(":");
    path.append(system_path);
    path
}

} // verus!
