//! File names and extensions of `/`-separated paths.

use vstd::prelude::*;
use vstd::string::*;
use crate::text::chars_of;

verus! {

/// What follows the last `/` of `p`: all of `p` where it holds none.
pub open spec fn last_component(p: Seq<char>) -> Seq<char> {
    match p.index_of_last('/') {
        Some(i) => p.skip(i + 1),
        None => p,
    }
}

/// The file name of a path: its final component, once the separators and the
/// `.` components at its end are passed over. A path that ends in `..`, or
/// that holds nothing else, has none.
pub open spec fn file_name(p: Seq<char>) -> Option<Seq<char>>
    decreases p.len(),
{
    if p.len() == 0 {
        None
    } else if p.last() == '/' || last_component(p) == seq!['.'] {
        file_name(p.drop_last())
    } else if last_component(p) == seq!['.', '.'] {
        None
    } else {
        Some(last_component(p))
    }
}

/// The extension of a path: what follows the last `.` of its file name. There
/// is none where the path has no file name, where the name holds no `.`, and
/// where its only `.` is its first character.
pub open spec fn extension(p: Seq<char>) -> Option<Seq<char>> {
    match file_name(p) {
        Some(name) => match name.index_of_last('.') {
            Some(i) => if i > 0 {
                Some(name.skip(i + 1))
            } else {
                None
            },
            None => None,
        },
        None => None,
    }
}

/// The extension with the `.` before it, or nothing where there is none.
pub open spec fn suffix(p: Seq<char>) -> Seq<char> {
    match extension(p) {
        Some(ext) => seq!['.'] + ext,
        None => Seq::empty(),
    }
}

/// A name behind a directory is the file name of the whole path, unless it is
/// `.` or `..`.
pub proof fn lemma_file_name_of_joined(dir: Seq<char>, name: Seq<char>)
    requires
        dir.len() == 0 || dir.last() == '/',
        name.len() > 0,
        !name.contains('/'),
        name != seq!['.'],
        name != seq!['.', '.'],
    ensures
        file_name(dir + name) == Some(name),
{
    let p = dir + name;
    if dir.len() > 0 {
        lemma_last_at(p, '/', dir.len() - 1);
        assert(p.skip(dir.len() as int) == name);
    } else {
        lemma_last_nowhere(p, '/');
    }
}

/// The extension of `stem.ext` behind a directory is `ext`, and its suffix
/// is `.ext`, letter for letter.
pub proof fn lemma_extension_of_dotted(dir: Seq<char>, stem: Seq<char>, ext: Seq<char>)
    requires
        dir.len() == 0 || dir.last() == '/',
        stem.len() > 0,
        !stem.contains('/'),
        !ext.contains('/'),
        !ext.contains('.'),
        !(stem == seq!['.'] && ext.len() == 0),
    ensures
        extension(dir + (stem + seq!['.'] + ext)) == Some(ext),
        suffix(dir + (stem + seq!['.'] + ext)) == seq!['.'] + ext,
{
    let name = stem + seq!['.'] + ext;
    let dot = stem.len() as int;
    if name == seq!['.', '.'] {
        assert(stem == seq!['.']);
    }
    lemma_file_name_of_joined(dir, name);
    lemma_last_at(name, '.', dot);
}

/// A name without a `.`, or whose only `.` is its first character, has no
/// extension, and its suffix is empty.
pub proof fn lemma_extension_of_plain(dir: Seq<char>, name: Seq<char>)
    requires
        dir.len() == 0 || dir.last() == '/',
        name.len() > 0,
        !name.contains('/'),
        name != seq!['.'],
        forall|k: int| 0 < k < name.len() ==> name[k] != '.',
    ensures
        extension(dir + name) is None,
        suffix(dir + name).len() == 0,
{
    lemma_file_name_of_joined(dir, name);
    name.index_of_last_ensures('.');
}

/// A file name holds no `/`.
proof fn lemma_file_name_shape(p: Seq<char>)
    ensures
        file_name(p) matches Some(name) ==> !name.contains('/'),
    decreases p.len(),
{
    if p.len() > 0 {
        if p.last() == '/' || last_component(p) == seq!['.'] {
            lemma_file_name_shape(p.drop_last());
        } else {
            p.index_of_last_ensures('/');
        }
    }
}

/// An extension holds neither `/` nor `.`.
pub proof fn lemma_extension_shape(p: Seq<char>)
    ensures
        extension(p) matches Some(ext) ==> !ext.contains('/') && !ext.contains('.'),
{
    lemma_file_name_shape(p);
    if let Some(name) = file_name(p) {
        name.index_of_last_ensures('.');
    }
}

/// In `s`, `c` stands at `i` and nowhere after it: `i` is where it is last.
proof fn lemma_last_at(s: Seq<char>, c: char, i: int)
    requires
        0 <= i < s.len(),
        s[i] == c,
        forall|k: int| i < k < s.len() ==> s[k] != c,
    ensures
        s.index_of_last(c) == Some(i),
{
    s.index_of_last_ensures(c);
}

/// `c` stands nowhere in `s`.
proof fn lemma_last_nowhere(s: Seq<char>, c: char)
    requires
        forall|k: int| 0 <= k < s.len() ==> s[k] != c,
    ensures
        s.index_of_last(c) is None,
{
    s.index_of_last_ensures(c);
}

/// Where the component that ends before `end` starts.
fn component_start(chars: &Vec<char>, end: usize) -> (start: usize)
    requires
        end <= chars.len(),
    ensures
        start <= end,
        start == 0 || chars[start - 1] == '/',
        last_component(chars@.take(end as int)) == chars@.subrange(start as int, end as int),
{
    let mut start: usize = end;
    while start > 0 && chars[start - 1] != '/'
        invariant
            start <= end <= chars.len(),
            forall|k: int| start <= k < end ==> chars[k] != '/',
        decreases start,
    {
        start -= 1;
    }
    proof {
        let head = chars@.take(end as int);
        if start > 0 {
            lemma_last_at(head, '/', start - 1);
        } else {
            lemma_last_nowhere(head, '/');
        }
    }
    start
}

/// Where the file name of the path stands in it.
fn file_name_span(chars: &Vec<char>) -> (span: Option<(usize, usize)>)
    ensures
        match span {
            Some((start, end)) => {
                &&& start < end <= chars.len()
                &&& file_name(chars@) == Some(chars@.subrange(start as int, end as int))
            },
            None => file_name(chars@) is None,
        },
{
    let mut end: usize = chars.len();
    assert(chars@.take(end as int) == chars@);
    while end > 0
        invariant
            end <= chars.len(),
            file_name(chars@) == file_name(chars@.take(end as int)),
        decreases end,
    {
        let ghost head = chars@.take(end as int);
        assert(head.drop_last() == chars@.take(end - 1));
        if chars[end - 1] != '/' {
            let start: usize = component_start(chars, end);
            let len: usize = end - start;
            let ghost last = chars@.subrange(start as int, end as int);
            if len == 2 && chars[start] == '.' && chars[start + 1] == '.' {
                assert(last == seq!['.', '.']);
                return None;
            }
            if !(len == 1 && chars[start] == '.') {
                assert(seq!['.'].len() == 1 && seq!['.'][0] == '.');
                assert(seq!['.', '.'].len() == 2 && seq!['.', '.'][0] == '.' && seq!['.', '.'][1]
                    == '.');
                return Some((start, end));
            }
            assert(last == seq!['.']);
        }
        end -= 1;
    }
    None
}

/// Where `c` stands last between `start` and `end`.
fn last_between(chars: &Vec<char>, start: usize, end: usize, c: char) -> (at: Option<usize>)
    requires
        start <= end <= chars.len(),
    ensures
        match at {
            Some(i) => {
                &&& start <= i < end
                &&& chars@.subrange(start as int, end as int).index_of_last(c) == Some(i - start)
            },
            None => chars@.subrange(start as int, end as int).index_of_last(c) is None,
        },
{
    let ghost part = chars@.subrange(start as int, end as int);
    let mut i: usize = end;
    while i > start
        invariant
            start <= i <= end <= chars.len(),
            part == chars@.subrange(start as int, end as int),
            forall|k: int| i <= k < end ==> chars[k] != c,
        decreases i,
    {
        i -= 1;
        if chars[i] == c {
            proof {
                lemma_last_at(part, c, i - start);
            }
            return Some(i);
        }
    }
    proof {
        lemma_last_nowhere(part, c);
    }
    None
}

/// Where the suffix of the path stands in it: from the `.` before its
/// extension to the end of its file name.
fn suffix_span(chars: &Vec<char>) -> (span: Option<(usize, usize)>)
    ensures
        match span {
            Some((dot, end)) => {
                &&& dot < end <= chars.len()
                &&& chars[dot as int] == '.'
                &&& extension(chars@) == Some(chars@.subrange(dot + 1, end as int))
            },
            None => extension(chars@) is None,
        },
{
    match file_name_span(chars) {
        Some((start, end)) => {
            let ghost name = chars@.subrange(start as int, end as int);
            match last_between(chars, start, end, '.') {
                Some(dot) => {
                    if dot > start {
                        proof {
                            name.index_of_last_ensures('.');
                            assert(name.skip(dot - start + 1) == chars@.subrange(
                                dot + 1,
                                end as int,
                            ));
                        }
                        Some((dot, end))
                    } else {
                        None
                    }
                },
                None => None,
            }
        },
        None => None,
    }
}

/// The extension of the file at `img_path` with its leading `.`, exactly as it
/// is written there, or the empty string where the path has no extension.
pub fn get_suffix(img_path: &str) -> (out: String)
    ensures
        out@ == suffix(img_path@),
        extension(img_path@) is None ==> out@.len() == 0,
        extension(img_path@) matches Some(ext) ==> out@ == seq!['.'] + ext,
{
    let chars = chars_of(img_path);
    match suffix_span(&chars) {
        Some((dot, end)) => {
            assert(chars@.subrange(dot as int, end as int) == seq!['.'] + chars@.subrange(
                dot + 1,
                end as int,
            ));
            String::from_str(img_path.substring_char(dot, end))
        },
        None => String::new(),
    }
}

} // verus!
